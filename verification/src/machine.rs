//! The machine as a mathematical value: registers, stack, timers, keys,
//! memory and framebuffer, and what each instruction makes of them.

use vstd::prelude::*;
use crate::instruction::{decode, Instruction};
use crate::memory::RAM_SIZE;
use crate::vram::{blank, is_grid};

verus! {

/// Number of general-purpose registers.
pub const REGISTER_COUNT: usize = 16;

/// Index of the flag register `VF`.
pub const FLAG: usize = 0xF;

/// Number of return addresses the call stack holds.
pub const STACK_SIZE: usize = 16;

/// Number of keys of the keypad.
pub const KEY_COUNT: usize = 16;

/// Width of one instruction in bytes.
pub const SLOT: u16 = 2;

/// What an instruction asks of the program counter.
#[derive(Clone, Copy, PartialEq, Eq, Debug)]
pub enum PCAction {
    /// Move forward by this many instruction slots.
    Advance(u16),
    /// Continue at this address.
    Jump(u16),
}

/// A condition under which the machine cannot carry out an instruction.
#[derive(Clone, Copy, PartialEq, Eq, Debug)]
pub enum Fault {
    /// A call with no free stack slot left.
    StackOverflow,
    /// A return with no call outstanding.
    StackUnderflow,
    /// A memory access at or beyond the end of memory.
    AddressOutOfRange,
    /// A key test for a key that the keypad does not have.
    KeyOutOfRange,
    /// A program counter, or a return address, beyond sixteen bits.
    ProgramCounterOverflow,
}

/// The state of the machine between two instructions.
#[verifier::ext_equal]
pub struct MachineState {
    /// The registers `V0` to `VF`.
    pub v: Seq<u8>,
    /// The index register.
    pub i: u16,
    /// The program counter.
    pub pc: u16,
    /// The return addresses, oldest first.
    pub stack: Seq<u16>,
    /// Number of return addresses in use.
    pub sp: int,
    pub delay_timer: u8,
    pub sound_timer: u8,
    /// For each key, whether it is held down.
    pub keymap: Seq<bool>,
    /// The memory, by address.
    pub ram: Seq<u8>,
    /// The framebuffer, row by row.
    pub vram: Seq<Seq<u8>>,
}

/// The lowest key at or above `from` that is held down, if any.
pub open spec fn lowest_pressed_from(keymap: Seq<bool>, from: int) -> Option<int>
    decreases keymap.len() - from,
{
    if from < 0 || from >= keymap.len() {
        None
    } else if keymap[from] {
        Some(from)
    } else {
        lowest_pressed_from(keymap, from + 1)
    }
}

/// The lowest key that is held down, if any.
pub open spec fn lowest_pressed(keymap: Seq<bool>) -> Option<int> {
    lowest_pressed_from(keymap, 0)
}

/// `lowest_pressed_from` finds a key that is held down and has none held down
/// between `from` and it, or finds none where none is held down.
pub proof fn lemma_lowest_pressed_from(keymap: Seq<bool>, from: int)
    requires
        0 <= from,
    ensures
        match lowest_pressed_from(keymap, from) {
            Some(key) => {
                &&& from <= key < keymap.len()
                &&& keymap[key]
                &&& forall|k: int| from <= k < key ==> !keymap[k]
            },
            None => forall|k: int| from <= k < keymap.len() ==> !keymap[k],
        },
    decreases keymap.len() - from,
{
    if from < keymap.len() && !keymap[from] {
        lemma_lowest_pressed_from(keymap, from + 1);
    }
}

/// `lowest_pressed` is the key that is held down while no lower one is.
pub proof fn lemma_lowest_pressed(keymap: Seq<bool>)
    ensures
        match lowest_pressed(keymap) {
            Some(key) => {
                &&& 0 <= key < keymap.len()
                &&& keymap[key]
                &&& forall|k: int| 0 <= k < key ==> !keymap[k]
            },
            None => forall|k: int| 0 <= k < keymap.len() ==> !keymap[k],
        },
{
    lemma_lowest_pressed_from(keymap, 0);
}

impl MachineState {
    /// Every part has its fixed size and the stack pointer is within the stack.
    pub open spec fn wf(self) -> bool {
        &&& self.v.len() == REGISTER_COUNT
        &&& self.stack.len() == STACK_SIZE
        &&& 0 <= self.sp < STACK_SIZE
        &&& self.keymap.len() == KEY_COUNT
        &&& self.ram.len() == RAM_SIZE
        &&& is_grid(self.vram)
    }

    /// The machine at start: registers, stack, timers and keys cleared, the
    /// program counter at the start of program code.
    pub open spec fn boot(ram: Seq<u8>, vram: Seq<Seq<u8>>) -> MachineState {
        MachineState {
            v: Seq::new(REGISTER_COUNT as nat, |k: int| 0u8),
            i: 0,
            pc: 0x200,
            stack: Seq::new(STACK_SIZE as nat, |k: int| 0u16),
            sp: 0,
            delay_timer: 0,
            sound_timer: 0,
            keymap: Seq::new(KEY_COUNT as nat, |k: int| false),
            ram,
            vram,
        }
    }

    /// This state with register `x` holding `val`.
    pub open spec fn with_register(self, x: int, val: u8) -> MachineState {
        MachineState { v: self.v.update(x, val), ..self }
    }

    /// This state with the keys as in `keymap`.
    pub open spec fn with_keymap(self, keymap: Seq<bool>) -> MachineState {
        MachineState { keymap, ..self }
    }

    /// This state after one host tick: each timer that is not zero is one less.
    pub open spec fn tick_timers(self) -> MachineState {
        MachineState {
            delay_timer: if self.delay_timer > 0 {
                (self.delay_timer - 1) as u8
            } else {
                0
            },
            sound_timer: if self.sound_timer > 0 {
                (self.sound_timer - 1) as u8
            } else {
                0
            },
            ..self
        }
    }

    /// Every pixel off.
    pub open spec fn clear_screen(self) -> MachineState {
        MachineState { vram: blank(), ..self }
    }

    /// The newest return address leaves the stack.
    pub open spec fn pop(self) -> MachineState {
        MachineState { sp: self.sp - 1, ..self }
    }

    /// The address of the instruction after the current one enters the stack.
    pub open spec fn push_return(self) -> MachineState {
        MachineState {
            stack: self.stack.update(self.sp, (self.pc + SLOT) as u16),
            sp: self.sp + 1,
            ..self
        }
    }

    /// `Vx += nn`, modulo 256; no flag.
    pub open spec fn add_imm(self, x: int, nn: u8) -> MachineState {
        self.with_register(x, ((self.v[x] + nn) % 256) as u8)
    }

    /// `Vx |= Vy`.
    pub open spec fn or_reg(self, x: int, y: int) -> MachineState {
        self.with_register(x, self.v[x] | self.v[y])
    }

    /// `Vx &= Vy`.
    pub open spec fn and_reg(self, x: int, y: int) -> MachineState {
        self.with_register(x, self.v[x] & self.v[y])
    }

    /// `Vx ^= Vy`.
    pub open spec fn xor_reg(self, x: int, y: int) -> MachineState {
        self.with_register(x, self.v[x] ^ self.v[y])
    }

    /// `Vx += Vy`, modulo 256; then `VF` is 1 if the sum exceeded 255, else 0.
    pub open spec fn add_reg(self, x: int, y: int) -> MachineState {
        let sum = self.v[x] + self.v[y];
        self.with_register(x, (sum % 256) as u8).with_register(
            FLAG as int,
            if sum > 255 {
                1
            } else {
                0
            },
        )
    }

    /// `Vx -= Vy`, modulo 256; then `VF` is 0 if that borrowed, else 1.
    pub open spec fn sub_reg(self, x: int, y: int) -> MachineState {
        let minuend = self.v[x];
        let subtrahend = self.v[y];
        self.with_register(x, ((minuend - subtrahend) % 256) as u8).with_register(
            FLAG as int,
            if minuend >= subtrahend {
                1
            } else {
                0
            },
        )
    }

    /// `VF` takes the lowest bit of `Vx`; then `Vx` is halved.
    pub open spec fn shr_reg(self, x: int) -> MachineState {
        let flagged = self.with_register(FLAG as int, self.v[x] % 2);
        flagged.with_register(x, flagged.v[x] / 2)
    }

    /// `VF` is 1 if `Vy` exceeds `Vx`, else 0; then `Vx = Vy - Vx`, modulo 256.
    pub open spec fn subn_reg(self, x: int, y: int) -> MachineState {
        let flagged = self.with_register(
            FLAG as int,
            if self.v[y] > self.v[x] {
                1
            } else {
                0
            },
        );
        flagged.with_register(x, ((flagged.v[y] - flagged.v[x]) % 256) as u8)
    }

    /// `VF` takes the highest bit of `Vx`; then `Vx` is doubled, modulo 256.
    pub open spec fn shl_reg(self, x: int) -> MachineState {
        let flagged = self.with_register(FLAG as int, self.v[x] / 128);
        flagged.with_register(x, ((flagged.v[x] * 2) % 256) as u8)
    }

    /// `Vx` takes the bits of `random` that `nn` lets through.
    pub open spec fn rand_reg(self, x: int, nn: u8, random: u8) -> MachineState {
        self.with_register(x, random & nn)
    }

    /// `Vx` takes the lowest key held down; nothing changes where none is.
    pub open spec fn wait_key(self, x: int) -> MachineState {
        match lowest_pressed(self.keymap) {
            Some(key) => self.with_register(x, key as u8),
            None => self,
        }
    }

    /// `I += Vx`, modulo 65536.
    pub open spec fn add_index(self, x: int) -> MachineState {
        MachineState { i: ((self.i + self.v[x]) % 0x10000) as u16, ..self }
    }

    /// `I` takes the address of the glyph for `Vx`: five bytes per glyph.
    pub open spec fn font_addr(self, x: int) -> MachineState {
        MachineState { i: (self.v[x] * 5) as u16, ..self }
    }

    /// The hundreds, tens and units digits of `Vx` go to memory at `I`,
    /// `I + 1` and `I + 2`.
    pub open spec fn bcd(self, x: int) -> MachineState {
        let value = self.v[x];
        let base = self.i as int;
        MachineState {
            ram: self.ram.update(base, value / 100).update(base + 1, (value % 100) / 10).update(
                base + 2,
                value % 10,
            ),
            ..self
        }
    }

    /// `V0` to `Vx` go to memory from `I` upward.
    pub open spec fn store_range(self, x: int) -> MachineState {
        MachineState {
            ram: Seq::new(
                self.ram.len(),
                |a: int|
                    if self.i <= a <= self.i + x {
                        self.v[a - self.i]
                    } else {
                        self.ram[a]
                    },
            ),
            ..self
        }
    }

    /// `V0` to `Vx` are read from memory from `I` upward.
    pub open spec fn load_range(self, x: int) -> MachineState {
        MachineState {
            v: Seq::new(
                self.v.len(),
                |k: int|
                    if k <= x {
                        self.ram[self.i + k]
                    } else {
                        self.v[k]
                    },
            ),
            ..self
        }
    }

    /// Whether `instr` is a skip instruction whose condition holds.
    pub open spec fn skips(self, instr: Instruction) -> bool {
        match instr {
            Instruction::SkipEqImm { x, nn } => self.v[x as int] == nn,
            Instruction::SkipNeImm { x, nn } => self.v[x as int] != nn,
            Instruction::SkipEqReg { x, y } => self.v[x as int] == self.v[y as int],
            Instruction::SkipNeReg { x, y } => self.v[x as int] != self.v[y as int],
            Instruction::SkipKeyPressed { x } => self.keymap[self.v[x as int] as int],
            Instruction::SkipKeyNotPressed { x } => !self.keymap[self.v[x as int] as int],
            _ => false,
        }
    }

    /// What `instr` changes, the program counter apart.
    pub open spec fn effect(self, instr: Instruction, random: u8) -> MachineState {
        match instr {
            Instruction::ClearScreen => self.clear_screen(),
            Instruction::Return => self.pop(),
            Instruction::Call { addr } => self.push_return(),
            Instruction::LoadImm { x, nn } => self.with_register(x as int, nn),
            Instruction::AddImm { x, nn } => self.add_imm(x as int, nn),
            Instruction::LoadReg { x, y } => self.with_register(x as int, self.v[y as int]),
            Instruction::Or { x, y } => self.or_reg(x as int, y as int),
            Instruction::And { x, y } => self.and_reg(x as int, y as int),
            Instruction::Xor { x, y } => self.xor_reg(x as int, y as int),
            Instruction::AddReg { x, y } => self.add_reg(x as int, y as int),
            Instruction::Sub { x, y } => self.sub_reg(x as int, y as int),
            Instruction::Shr { x, y } => self.shr_reg(x as int),
            Instruction::Subn { x, y } => self.subn_reg(x as int, y as int),
            Instruction::Shl { x, y } => self.shl_reg(x as int),
            Instruction::LoadIndex { addr } => MachineState { i: addr, ..self },
            Instruction::Rand { x, nn } => self.rand_reg(x as int, nn, random),
            Instruction::Draw { x, y, n } => self.draw(x as int, y as int, n as nat),
            Instruction::LoadDelay { x } => self.with_register(x as int, self.delay_timer),
            Instruction::WaitKey { x } => self.wait_key(x as int),
            Instruction::SetDelay { x } => MachineState { delay_timer: self.v[x as int], ..self },
            Instruction::SetSound { x } => MachineState { sound_timer: self.v[x as int], ..self },
            Instruction::AddIndex { x } => self.add_index(x as int),
            Instruction::FontAddr { x } => self.font_addr(x as int),
            Instruction::Bcd { x } => self.bcd(x as int),
            Instruction::StoreRange { x } => self.store_range(x as int),
            Instruction::LoadRange { x } => self.load_range(x as int),
            _ => self,
        }
    }

    /// What `instr` asks of the program counter.
    pub open spec fn action(self, instr: Instruction) -> PCAction {
        match instr {
            Instruction::Return => PCAction::Jump(self.stack[self.sp - 1]),
            Instruction::Jump { addr } => PCAction::Jump(addr),
            Instruction::Call { addr } => PCAction::Jump(addr),
            Instruction::JumpPlusV0 { addr } => PCAction::Jump((self.v[0] + addr) as u16),
            Instruction::SkipEqImm { .. }
            | Instruction::SkipNeImm { .. }
            | Instruction::SkipEqReg { .. }
            | Instruction::SkipNeReg { .. }
            | Instruction::SkipKeyPressed { .. }
            | Instruction::SkipKeyNotPressed { .. } => if self.skips(instr) {
                PCAction::Advance(2)
            } else {
                PCAction::Advance(1)
            },
            Instruction::WaitKey { x } => if lowest_pressed(self.keymap) is None {
                PCAction::Advance(0)
            } else {
                PCAction::Advance(1)
            },
            _ => PCAction::Advance(1),
        }
    }

    /// The program counter after `action`.
    pub open spec fn next_pc(self, action: PCAction) -> int {
        match action {
            PCAction::Advance(slots) => self.pc + SLOT * slots,
            PCAction::Jump(addr) => addr as int,
        }
    }

    /// The state after `instr`, where `random` is the byte that a random
    /// instruction draws.
    pub open spec fn run(self, instr: Instruction, random: u8) -> MachineState {
        MachineState {
            pc: self.next_pc(self.action(instr)) as u16,
            ..self.effect(instr, random)
        }
    }

    /// The state after the instruction that `opcode` encodes.
    pub open spec fn step(self, opcode: u16, random: u8) -> MachineState {
        self.run(decode(opcode), random)
    }

    /// Why the machine cannot carry out `instr` in this state; `None` where it
    /// can.
    pub open spec fn fault_of(self, instr: Instruction) -> Option<Fault> {
        match instr {
            Instruction::Return => if self.sp == 0 {
                Some(Fault::StackUnderflow)
            } else {
                None
            },
            Instruction::Call { addr } => if self.sp + 1 >= STACK_SIZE {
                Some(Fault::StackOverflow)
            } else if self.pc + SLOT > u16::MAX {
                Some(Fault::ProgramCounterOverflow)
            } else {
                None
            },
            Instruction::Jump { .. } | Instruction::JumpPlusV0 { .. } => None,
            Instruction::SkipKeyPressed { x } | Instruction::SkipKeyNotPressed { x } => {
                if self.v[x as int] >= KEY_COUNT {
                    Some(Fault::KeyOutOfRange)
                } else {
                    self.advance_fault(instr)
                }
            },
            Instruction::Draw { x, y, n } => if n > 0 && self.i + n > RAM_SIZE {
                Some(Fault::AddressOutOfRange)
            } else {
                self.advance_fault(instr)
            },
            Instruction::Bcd { x } => if self.i + 2 >= RAM_SIZE {
                Some(Fault::AddressOutOfRange)
            } else {
                self.advance_fault(instr)
            },
            Instruction::StoreRange { x } | Instruction::LoadRange { x } => {
                if self.i + x >= RAM_SIZE {
                    Some(Fault::AddressOutOfRange)
                } else {
                    self.advance_fault(instr)
                }
            },
            _ => self.advance_fault(instr),
        }
    }

    /// The fault of moving the program counter forward as `instr` asks.
    pub open spec fn advance_fault(self, instr: Instruction) -> Option<Fault> {
        if self.next_pc(self.action(instr)) > u16::MAX {
            Some(Fault::ProgramCounterOverflow)
        } else {
            None
        }
    }
}

} // verus!
