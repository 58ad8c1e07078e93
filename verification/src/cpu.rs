//! The execution engine: owns registers, call stack, timers and keys, and
//! works on a memory and a framebuffer lent to it.

use vstd::prelude::*;
use rand::Rng;
use crate::instruction::{decode, lemma_decode_in_range, Instruction};
use crate::machine::{
    lemma_lowest_pressed, lowest_pressed, Fault, MachineState, PCAction, FLAG, KEY_COUNT,
    REGISTER_COUNT, SLOT, STACK_SIZE,
};
use crate::memory::{opcode_at, Memory, RAM_SIZE};
use crate::draw::{lemma_draw_frame, SPRITE_WIDTH};
use crate::vram::{Vram, VRAM_HEIGHT, VRAM_WIDTH};

verus! {

/// The execution engine of one machine, for as long as it holds the
/// machine's memory and framebuffer.
pub struct CPU<'a> {
    vram: &'a mut Vram,
    ram: &'a mut Memory,
    stack: [u16; STACK_SIZE],
    i: u16,
    sp: usize,
    v: [u8; REGISTER_COUNT],
    pc: u16,
    delay_timer: u8,
    sound_timer: u8,
    keymap: [bool; KEY_COUNT],
}

impl<'a> View for CPU<'a> {
    type V = MachineState;

    /// The machine that this engine, its memory and its framebuffer make up.
    closed spec fn view(&self) -> MachineState {
        MachineState {
            v: self.v@,
            i: self.i,
            pc: self.pc,
            stack: self.stack@,
            sp: self.sp as int,
            delay_timer: self.delay_timer,
            sound_timer: self.sound_timer,
            keymap: self.keymap@,
            ram: self.ram@,
            vram: self.vram@,
        }
    }
}

impl<'a> CPU<'a> {
    #[verifier::type_invariant]
    spec fn stack_pointer_in_stack(&self) -> bool {
        self.sp < STACK_SIZE
    }

    /// The memory lent to this engine.
    pub closed spec fn memory(&self) -> &'a mut Memory {
        self.ram
    }

    /// The framebuffer lent to this engine.
    pub closed spec fn display(&self) -> &'a mut Vram {
        self.vram
    }

    /// The machine's memory and framebuffer are what the lent ones hold now;
    /// and once nothing uses the engine any more, that is what the lent ones
    /// are left with.
    pub proof fn lemma_lent_parts(&self)
        ensures
            self@.ram == self.memory()@,
            self@.vram == self.display()@,
            has_resolved(*self) ==> *self.memory() == *final(self.memory()),
            has_resolved(*self) ==> *self.display() == *final(self.display()),
    {
    }

    /// An engine at its start state on `mem` and `vram` as they are.
    pub fn init(mem: &'a mut Memory, vram: &'a mut Vram) -> (cpu: CPU<'a>)
        ensures
            cpu@ == MachineState::boot(old(mem)@, old(vram)@),
            cpu@.wf(),
            *final(mem) == *final(cpu.memory()),
            *final(vram) == *final(cpu.display()),
    {
        let cpu = CPU {
            vram: vram,
            ram: mem,
            stack: [0;STACK_SIZE],
            i: 0,
            sp: 0,
            pc: 0x200,
            v: [0;REGISTER_COUNT],
            delay_timer: 0,
            sound_timer: 0,
            keymap: [false;KEY_COUNT],
        };
        cpu
    }

    /// A copy of the framebuffer.
    pub fn fetch_vram(&mut self) -> (surface: Vram)
        ensures
            surface@ == old(self)@.vram,
            final(self)@ == old(self)@,
            *final(final(self).memory()) == *final(old(self).memory()),
            *final(final(self).display()) == *final(old(self).display()),
    {
        proof {
            use_type_invariant(&*self);
        }
        *self.vram
    }

    /// The opcode at the program counter.
    pub fn fetch_opcode(&mut self) -> (opcode: u16)
        requires
            old(self)@.pc + 1 < RAM_SIZE,
        ensures
            opcode == opcode_at(old(self)@.ram, old(self)@.pc as int),
            final(self)@ == old(self)@,
            *final(final(self).memory()) == *final(old(self).memory()),
            *final(final(self).display()) == *final(old(self).display()),
    {
        proof {
            use_type_invariant(&*self);
        }
        self.ram.fetch_opcode(self.pc as usize)
    }

    /// Replaces the key states by `keymap`.
    pub fn set_keymap(&mut self, keymap: [bool; KEY_COUNT])
        ensures
            final(self)@ == old(self)@.with_keymap(keymap@),
            final(self)@.wf(),
            *final(final(self).memory()) == *final(old(self).memory()),
            *final(final(self).display()) == *final(old(self).display()),
    {
        proof {
            use_type_invariant(&*self);
        }
        self.keymap = keymap;
    }

    /// Counts each timer that is not zero down by one.
    pub fn decrement_timers(&mut self)
        ensures
            final(self)@ == old(self)@.tick_timers(),
            final(self)@.wf(),
            *final(final(self).memory()) == *final(old(self).memory()),
            *final(final(self).display()) == *final(old(self).display()),
    {
        proof {
            use_type_invariant(&*self);
        }
        self.delay_timer = if self.delay_timer > 0 {
            self.delay_timer - 1
        } else {
            0
        };
        self.sound_timer = if self.sound_timer > 0 {
            self.sound_timer - 1
        } else {
            0
        };
    }

    /// Whether an opcode can be fetched: the program counter and the address
    /// after it lie within memory.
    pub fn can_fetch(&self) -> (ok: bool)
        ensures
            ok == (self@.pc + 1 < RAM_SIZE),
    {
        (self.pc as usize) < RAM_SIZE - 1
    }

    /// Why `opcode` cannot be executed in the present state; `None` where it
    /// can.
    pub fn fault(&self, opcode: u16) -> (fault: Option<Fault>)
        ensures
            fault == self@.fault_of(decode(opcode)),
    {
        proof {
            lemma_decode_in_range(opcode);
        }
        self.instruction_fault(decode(opcode))
    }

    /// Why `instr` cannot be carried out in the present state; `None` where
    /// it can.
    pub fn instruction_fault(&self, instr: Instruction) -> (fault: Option<Fault>)
        requires
            instr.in_range(),
        ensures
            fault == self@.fault_of(instr),
    {
        proof {
            use_type_invariant(self);
        }
        match instr {
            Instruction::Return => if self.sp == 0 {
                Some(Fault::StackUnderflow)
            } else {
                None
            },
            Instruction::Call { .. } => if self.sp + 1 >= STACK_SIZE {
                Some(Fault::StackOverflow)
            } else if self.pc > u16::MAX - SLOT {
                Some(Fault::ProgramCounterOverflow)
            } else {
                None
            },
            Instruction::Jump { .. } | Instruction::JumpPlusV0 { .. } => None,
            Instruction::SkipKeyPressed { x } | Instruction::SkipKeyNotPressed { x } => {
                if self.v[x] as usize >= KEY_COUNT {
                    Some(Fault::KeyOutOfRange)
                } else {
                    self.advance_fault(instr)
                }
            },
            Instruction::Draw { n, .. } => if n > 0 && self.i as usize + n > RAM_SIZE {
                Some(Fault::AddressOutOfRange)
            } else {
                self.advance_fault(instr)
            },
            Instruction::Bcd { .. } => if self.i as usize + 2 >= RAM_SIZE {
                Some(Fault::AddressOutOfRange)
            } else {
                self.advance_fault(instr)
            },
            Instruction::StoreRange { x } | Instruction::LoadRange { x } => {
                if self.i as usize + x >= RAM_SIZE {
                    Some(Fault::AddressOutOfRange)
                } else {
                    self.advance_fault(instr)
                }
            },
            _ => self.advance_fault(instr),
        }
    }

    /// The fault of moving the program counter forward as `instr` asks, for an
    /// instruction that moves it forward.
    fn advance_fault(&self, instr: Instruction) -> (fault: Option<Fault>)
        requires
            instr.in_range(),
            instr matches Instruction::SkipKeyPressed { x } ==> self@.v[x as int] < KEY_COUNT,
            instr matches Instruction::SkipKeyNotPressed { x } ==> self@.v[x as int] < KEY_COUNT,
        ensures
            fault == self@.advance_fault(instr),
    {
        let slots: u16 = match instr {
            Instruction::Return => {
                proof {
                    use_type_invariant(self);
                }
                return None;
            },
            Instruction::Jump { .. } | Instruction::Call { .. } | Instruction::JumpPlusV0 { .. } => {
                return None;
            },
            Instruction::SkipEqImm { x, nn } => if self.v[x] == nn {
                2
            } else {
                1
            },
            Instruction::SkipNeImm { x, nn } => if self.v[x] != nn {
                2
            } else {
                1
            },
            Instruction::SkipEqReg { x, y } => if self.v[x] == self.v[y] {
                2
            } else {
                1
            },
            Instruction::SkipNeReg { x, y } => if self.v[x] != self.v[y] {
                2
            } else {
                1
            },
            Instruction::SkipKeyPressed { x } => if self.keymap[self.v[x] as usize] {
                2
            } else {
                1
            },
            Instruction::SkipKeyNotPressed { x } => if !self.keymap[self.v[x] as usize] {
                2
            } else {
                1
            },
            Instruction::WaitKey { .. } => match self.lowest_pressed_key() {
                None => 0,
                Some(_) => 1,
            },
            _ => 1,
        };
        if self.pc > u16::MAX - SLOT * slots {
            Some(Fault::ProgramCounterOverflow)
        } else {
            None
        }
    }

    /// Executes one opcode: decodes it, carries the instruction out and moves
    /// the program counter. An opcode outside the instruction set does
    /// nothing but step over itself.
    pub fn execute_opcode(&mut self, opcode: u16)
        requires
            old(self)@.fault_of(decode(opcode)) is None,
        ensures
            exists|random: u8| final(self)@ == old(self)@.step(opcode, random),
            !(decode(opcode) is Rand) ==> final(self)@ == old(self)@.step(opcode, 0),
            final(self)@.wf(),
            *final(final(self).memory()) == *final(old(self).memory()),
            *final(final(self).display()) == *final(old(self).display()),
    {
        proof {
            lemma_decode_in_range(opcode);
        }
        self.execute(decode(opcode));
        proof {
            let random = choose|random: u8| self@ == old(self)@.run(decode(opcode), random);
            assert(self@ == old(self)@.step(opcode, random));
        }
    }

    /// Carries out `instr` and moves the program counter as it asks. A random
    /// instruction draws its byte from the thread-local generator.
    pub fn execute(&mut self, instr: Instruction)
        requires
            instr.in_range(),
            old(self)@.fault_of(instr) is None,
        ensures
            exists|random: u8| final(self)@ == old(self)@.run(instr, random),
            !(instr is Rand) ==> final(self)@ == old(self)@.run(instr, 0),
            final(self)@.wf(),
            *final(final(self).memory()) == *final(old(self).memory()),
            *final(final(self).display()) == *final(old(self).display()),
    {
        proof {
            use_type_invariant(&*self);
        }
        let ghost mut random: u8 = 0;
        let action = match instr {
            Instruction::ClearScreen => self.inst_00e0(),
            Instruction::Return => self.inst_00ee(),
            Instruction::Jump { addr } => self.inst_1nnn(addr),
            Instruction::Call { addr } => self.inst_2nnn(addr),
            Instruction::SkipEqImm { x, nn } => self.inst_3xnn(x, nn),
            Instruction::SkipNeImm { x, nn } => self.inst_4xnn(x, nn),
            Instruction::SkipEqReg { x, y } => self.inst_5xy0(x, y),
            Instruction::LoadImm { x, nn } => self.inst_6xnn(x, nn),
            Instruction::AddImm { x, nn } => self.inst_7xnn(x, nn),
            Instruction::LoadReg { x, y } => self.inst_8xy0(x, y),
            Instruction::Or { x, y } => self.inst_8xy1(x, y),
            Instruction::And { x, y } => self.inst_8xy2(x, y),
            Instruction::Xor { x, y } => self.inst_8xy3(x, y),
            Instruction::AddReg { x, y } => self.inst_8xy4(x, y),
            Instruction::Sub { x, y } => self.inst_8xy5(x, y),
            Instruction::Shr { x, y } => self.inst_8xy6(x, y),
            Instruction::Subn { x, y } => self.inst_8xy7(x, y),
            Instruction::Shl { x, y } => self.inst_8xye(x, y),
            Instruction::SkipNeReg { x, y } => self.inst_9xy0(x, y),
            Instruction::LoadIndex { addr } => self.inst_annn(addr),
            Instruction::JumpPlusV0 { addr } => self.inst_bnnn(addr),
            Instruction::Rand { x, nn } => {
                let action = self.inst_cxnn(x, nn);
                proof {
                    random = choose|random: u8| self@ == old(self)@.rand_reg(x as int, nn, random);
                }
                action
            },
            Instruction::Draw { x, y, n } => {
                proof {
                    lemma_draw_frame(self@, x as int, y as int, n as nat);
                }
                self.inst_dxyn(x, y, n)
            },
            Instruction::SkipKeyPressed { x } => self.inst_ex9e(x),
            Instruction::SkipKeyNotPressed { x } => self.inst_exa1(x),
            Instruction::LoadDelay { x } => self.inst_fx07(x),
            Instruction::WaitKey { x } => self.inst_fx0a(x),
            Instruction::SetDelay { x } => self.inst_fx15(x),
            Instruction::SetSound { x } => self.inst_fx18(x),
            Instruction::AddIndex { x } => self.inst_fx1e(x),
            Instruction::FontAddr { x } => self.inst_fx29(x),
            Instruction::Bcd { x } => self.inst_fx33(x),
            Instruction::StoreRange { x } => self.inst_fx55(x),
            Instruction::LoadRange { x } => self.inst_fx65(x),
            Instruction::Unknown => PCAction::Advance(1),
        };
        proof {
            use_type_invariant(&*self);
        }
        self.pc = match action {
            PCAction::Jump(addr) => addr,
            PCAction::Advance(slots) => self.pc + slots * SLOT,
        };
        assert(self@ == old(self)@.run(instr, random));
    }

    /// Clears the framebuffer.
    pub fn inst_00e0(&mut self) -> (action: PCAction)
        ensures
            final(self)@ == old(self)@.clear_screen(),
            action == PCAction::Advance(1),
            *final(final(self).memory()) == *final(old(self).memory()),
            *final(final(self).display()) == *final(old(self).display()),
    {
        proof {
            use_type_invariant(&*self);
        }
        *self.vram = Vram::init();
        PCAction::Advance(1)
    }

    /// Returns from a subroutine.
    pub fn inst_00ee(&mut self) -> (action: PCAction)
        requires
            old(self)@.sp > 0,
        ensures
            final(self)@ == old(self)@.pop(),
            action == PCAction::Jump(old(self)@.stack[old(self)@.sp - 1]),
            *final(final(self).memory()) == *final(old(self).memory()),
            *final(final(self).display()) == *final(old(self).display()),
    {
        proof {
            use_type_invariant(&*self);
        }
        self.sp -= 1;
        PCAction::Jump(self.stack[self.sp])
    }

    /// Jumps to `nnn`.
    pub fn inst_1nnn(&mut self, nnn: u16) -> (action: PCAction)
        ensures
            final(self)@ == old(self)@,
            action == PCAction::Jump(nnn),
            *final(final(self).memory()) == *final(old(self).memory()),
            *final(final(self).display()) == *final(old(self).display()),
    {
        PCAction::Jump(nnn)
    }

    /// Calls the subroutine at `nnn`.
    pub fn inst_2nnn(&mut self, nnn: u16) -> (action: PCAction)
        requires
            old(self)@.sp + 1 < STACK_SIZE,
            old(self)@.pc + SLOT <= u16::MAX,
        ensures
            final(self)@ == old(self)@.push_return(),
            action == PCAction::Jump(nnn),
            *final(final(self).memory()) == *final(old(self).memory()),
            *final(final(self).display()) == *final(old(self).display()),
    {
        proof {
            use_type_invariant(&*self);
        }
        self.stack[self.sp] = self.pc + SLOT;
        self.sp += 1;
        PCAction::Jump(nnn)
    }

    /// Skips the next instruction if `Vx == nn`.
    pub fn inst_3xnn(&mut self, x: usize, nn: u8) -> (action: PCAction)
        requires
            x < REGISTER_COUNT,
        ensures
            final(self)@ == old(self)@,
            action == if old(self)@.v[x as int] == nn {
                PCAction::Advance(2)
            } else {
                PCAction::Advance(1)
            },
            *final(final(self).memory()) == *final(old(self).memory()),
            *final(final(self).display()) == *final(old(self).display()),
    {
        if self.v[x] == nn {
            PCAction::Advance(2)
        } else {
            PCAction::Advance(1)
        }
    }

    /// Skips the next instruction if `Vx != nn`.
    pub fn inst_4xnn(&mut self, x: usize, nn: u8) -> (action: PCAction)
        requires
            x < REGISTER_COUNT,
        ensures
            final(self)@ == old(self)@,
            action == if old(self)@.v[x as int] != nn {
                PCAction::Advance(2)
            } else {
                PCAction::Advance(1)
            },
            *final(final(self).memory()) == *final(old(self).memory()),
            *final(final(self).display()) == *final(old(self).display()),
    {
        if self.v[x] != nn {
            PCAction::Advance(2)
        } else {
            PCAction::Advance(1)
        }
    }

    /// Skips the next instruction if `Vx == Vy`.
    pub fn inst_5xy0(&mut self, x: usize, y: usize) -> (action: PCAction)
        requires
            x < REGISTER_COUNT,
            y < REGISTER_COUNT,
        ensures
            final(self)@ == old(self)@,
            action == if old(self)@.v[x as int] == old(self)@.v[y as int] {
                PCAction::Advance(2)
            } else {
                PCAction::Advance(1)
            },
            *final(final(self).memory()) == *final(old(self).memory()),
            *final(final(self).display()) == *final(old(self).display()),
    {
        if self.v[x] == self.v[y] {
            PCAction::Advance(2)
        } else {
            PCAction::Advance(1)
        }
    }

    /// `Vx = nn`.
    pub fn inst_6xnn(&mut self, x: usize, nn: u8) -> (action: PCAction)
        requires
            x < REGISTER_COUNT,
        ensures
            final(self)@ == old(self)@.with_register(x as int, nn),
            action == PCAction::Advance(1),
            *final(final(self).memory()) == *final(old(self).memory()),
            *final(final(self).display()) == *final(old(self).display()),
    {
        proof {
            use_type_invariant(&*self);
        }
        self.v[x] = nn;
        PCAction::Advance(1)
    }

    /// `Vx += nn`, wrapping, flag untouched.
    pub fn inst_7xnn(&mut self, x: usize, nn: u8) -> (action: PCAction)
        requires
            x < REGISTER_COUNT,
        ensures
            final(self)@ == old(self)@.add_imm(x as int, nn),
            action == PCAction::Advance(1),
            *final(final(self).memory()) == *final(old(self).memory()),
            *final(final(self).display()) == *final(old(self).display()),
    {
        proof {
            use_type_invariant(&*self);
        }
        self.v[x] = self.v[x].wrapping_add(nn);
        PCAction::Advance(1)
    }

    /// `Vx = Vy`.
    pub fn inst_8xy0(&mut self, x: usize, y: usize) -> (action: PCAction)
        requires
            x < REGISTER_COUNT,
            y < REGISTER_COUNT,
        ensures
            final(self)@ == old(self)@.with_register(x as int, old(self)@.v[y as int]),
            action == PCAction::Advance(1),
            *final(final(self).memory()) == *final(old(self).memory()),
            *final(final(self).display()) == *final(old(self).display()),
    {
        proof {
            use_type_invariant(&*self);
        }
        self.v[x] = self.v[y];
        PCAction::Advance(1)
    }

    /// `Vx |= Vy`.
    pub fn inst_8xy1(&mut self, x: usize, y: usize) -> (action: PCAction)
        requires
            x < REGISTER_COUNT,
            y < REGISTER_COUNT,
        ensures
            final(self)@ == old(self)@.or_reg(x as int, y as int),
            action == PCAction::Advance(1),
            *final(final(self).memory()) == *final(old(self).memory()),
            *final(final(self).display()) == *final(old(self).display()),
    {
        proof {
            use_type_invariant(&*self);
        }
        self.v[x] = self.v[x] | self.v[y];
        PCAction::Advance(1)
    }

    /// `Vx &= Vy`.
    pub fn inst_8xy2(&mut self, x: usize, y: usize) -> (action: PCAction)
        requires
            x < REGISTER_COUNT,
            y < REGISTER_COUNT,
        ensures
            final(self)@ == old(self)@.and_reg(x as int, y as int),
            action == PCAction::Advance(1),
            *final(final(self).memory()) == *final(old(self).memory()),
            *final(final(self).display()) == *final(old(self).display()),
    {
        proof {
            use_type_invariant(&*self);
        }
        self.v[x] = self.v[x] & self.v[y];
        PCAction::Advance(1)
    }

    /// `Vx ^= Vy`.
    pub fn inst_8xy3(&mut self, x: usize, y: usize) -> (action: PCAction)
        requires
            x < REGISTER_COUNT,
            y < REGISTER_COUNT,
        ensures
            final(self)@ == old(self)@.xor_reg(x as int, y as int),
            action == PCAction::Advance(1),
            *final(final(self).memory()) == *final(old(self).memory()),
            *final(final(self).display()) == *final(old(self).display()),
    {
        proof {
            use_type_invariant(&*self);
        }
        self.v[x] = self.v[x] ^ self.v[y];
        PCAction::Advance(1)
    }

    /// `Vx += Vy`, wrapping; `VF` is then the carry.
    pub fn inst_8xy4(&mut self, x: usize, y: usize) -> (action: PCAction)
        requires
            x < REGISTER_COUNT,
            y < REGISTER_COUNT,
        ensures
            final(self)@ == old(self)@.add_reg(x as int, y as int),
            final(self)@.v[FLAG as int] == 1 <==> old(self)@.v[x as int] + old(self)@.v[y as int]
                > 255,
            final(self)@.v[FLAG as int] == 0 <==> old(self)@.v[x as int] + old(self)@.v[y as int]
                <= 255,
            x != FLAG ==> final(self)@.v[x as int] == (old(self)@.v[x as int]
                + old(self)@.v[y as int]) % 256,
            action == PCAction::Advance(1),
            *final(final(self).memory()) == *final(old(self).memory()),
            *final(final(self).display()) == *final(old(self).display()),
    {
        proof {
            use_type_invariant(&*self);
        }
        let addition_overflow_check = self.v[x].checked_add(self.v[y]);
        self.v[x] = self.v[x].wrapping_add(self.v[y]);
        let f_flag: u8 = match addition_overflow_check {
            Some(_) => 0,
            None => 1,
        };
        self.v[FLAG] = f_flag;
        PCAction::Advance(1)
    }

    /// `Vx -= Vy`, wrapping; `VF` is then 0 if that borrowed, else 1.
    pub fn inst_8xy5(&mut self, x: usize, y: usize) -> (action: PCAction)
        requires
            x < REGISTER_COUNT,
            y < REGISTER_COUNT,
        ensures
            final(self)@ == old(self)@.sub_reg(x as int, y as int),
            final(self)@.v[FLAG as int] == 0 <==> old(self)@.v[x as int] < old(self)@.v[y as int],
            final(self)@.v[FLAG as int] == 1 <==> old(self)@.v[x as int] >= old(self)@.v[y as int],
            x != FLAG ==> final(self)@.v[x as int] == (old(self)@.v[x as int]
                - old(self)@.v[y as int]) % 256,
            action == PCAction::Advance(1),
            *final(final(self).memory()) == *final(old(self).memory()),
            *final(final(self).display()) == *final(old(self).display()),
    {
        proof {
            use_type_invariant(&*self);
        }
        let sub_overflow_check = self.v[x].checked_sub(self.v[y]);
        self.v[x] = self.v[x].wrapping_sub(self.v[y]);
        let f_flag: u8 = match sub_overflow_check {
            Some(_) => 1,
            None => 0,
        };
        self.v[FLAG] = f_flag;
        PCAction::Advance(1)
    }

    /// `VF` takes the lowest bit of `Vx`; then `Vx` is shifted right by one.
    pub fn inst_8xy6(&mut self, x: usize, _y: usize) -> (action: PCAction)
        requires
            x < REGISTER_COUNT,
        ensures
            final(self)@ == old(self)@.shr_reg(x as int),
            x != FLAG ==> final(self)@.v[FLAG as int] == old(self)@.v[x as int] & 1,
            x != FLAG ==> final(self)@.v[x as int] == old(self)@.v[x as int] >> 1,
            action == PCAction::Advance(1),
            *final(final(self).memory()) == *final(old(self).memory()),
            *final(final(self).display()) == *final(old(self).display()),
    {
        proof {
            use_type_invariant(&*self);
        }
        let operand: u8 = self.v[x];
        assert(operand & 1 == operand % 2) by (bit_vector);
        self.v[FLAG] = operand & 1;
        let shifted: u8 = self.v[x];
        assert(shifted >> 1 == shifted / 2) by (bit_vector);
        self.v[x] = shifted >> 1;
        PCAction::Advance(1)
    }

    /// `VF` is 1 if `Vy > Vx`, else 0; then `Vx = Vy - Vx`, wrapping.
    pub fn inst_8xy7(&mut self, x: usize, y: usize) -> (action: PCAction)
        requires
            x < REGISTER_COUNT,
            y < REGISTER_COUNT,
        ensures
            final(self)@ == old(self)@.subn_reg(x as int, y as int),
            action == PCAction::Advance(1),
            *final(final(self).memory()) == *final(old(self).memory()),
            *final(final(self).display()) == *final(old(self).display()),
    {
        proof {
            use_type_invariant(&*self);
        }
        self.v[FLAG] = if self.v[y] > self.v[x] {
            1
        } else {
            0
        };
        self.v[x] = self.v[y].wrapping_sub(self.v[x]);
        PCAction::Advance(1)
    }

    /// `VF` takes the highest bit of `Vx`; then `Vx` is shifted left by one.
    pub fn inst_8xye(&mut self, x: usize, _y: usize) -> (action: PCAction)
        requires
            x < REGISTER_COUNT,
        ensures
            final(self)@ == old(self)@.shl_reg(x as int),
            x != FLAG ==> final(self)@.v[FLAG as int] == old(self)@.v[x as int] >> 7,
            x != FLAG ==> final(self)@.v[x as int] == old(self)@.v[x as int] << 1,
            action == PCAction::Advance(1),
            *final(final(self).memory()) == *final(old(self).memory()),
            *final(final(self).display()) == *final(old(self).display()),
    {
        proof {
            use_type_invariant(&*self);
        }
        let operand: u8 = self.v[x];
        assert(operand >> 7 == operand / 128) by (bit_vector);
        self.v[FLAG] = operand >> 7;
        let shifted: u8 = self.v[x];
        assert(shifted << 1 == ((shifted * 2) % 256) as u8) by (bit_vector);
        self.v[x] = shifted << 1;
        PCAction::Advance(1)
    }

    /// Skips the next instruction if `Vx != Vy`.
    pub fn inst_9xy0(&mut self, x: usize, y: usize) -> (action: PCAction)
        requires
            x < REGISTER_COUNT,
            y < REGISTER_COUNT,
        ensures
            final(self)@ == old(self)@,
            action == if old(self)@.v[x as int] != old(self)@.v[y as int] {
                PCAction::Advance(2)
            } else {
                PCAction::Advance(1)
            },
            *final(final(self).memory()) == *final(old(self).memory()),
            *final(final(self).display()) == *final(old(self).display()),
    {
        if self.v[x] != self.v[y] {
            PCAction::Advance(2)
        } else {
            PCAction::Advance(1)
        }
    }

    /// `I = nnn`.
    pub fn inst_annn(&mut self, nnn: u16) -> (action: PCAction)
        ensures
            final(self)@ == (MachineState { i: nnn, ..old(self)@ }),
            action == PCAction::Advance(1),
            *final(final(self).memory()) == *final(old(self).memory()),
            *final(final(self).display()) == *final(old(self).display()),
    {
        proof {
            use_type_invariant(&*self);
        }
        self.i = nnn;
        PCAction::Advance(1)
    }

    /// Jumps to `V0 + nnn`.
    pub fn inst_bnnn(&mut self, nnn: u16) -> (action: PCAction)
        requires
            old(self)@.v[0] + nnn <= u16::MAX,
        ensures
            final(self)@ == old(self)@,
            action == PCAction::Jump((old(self)@.v[0] + nnn) as u16),
            *final(final(self).memory()) == *final(old(self).memory()),
            *final(final(self).display()) == *final(old(self).display()),
    {
        PCAction::Jump(self.v[0] as u16 + nnn)
    }

    /// `Vx` takes a random byte masked by `nn`.
    pub fn inst_cxnn(&mut self, x: usize, nn: u8) -> (action: PCAction)
        requires
            x < REGISTER_COUNT,
        ensures
            exists|random: u8| final(self)@ == old(self)@.rand_reg(x as int, nn, random),
            action == PCAction::Advance(1),
            *final(final(self).memory()) == *final(old(self).memory()),
            *final(final(self).display()) == *final(old(self).display()),
    {
        let random = random_byte();
        self.inst_cxnn_with(x, nn, random)
    }

    /// `Vx` takes `random` masked by `nn`.
    pub fn inst_cxnn_with(&mut self, x: usize, nn: u8, random: u8) -> (action: PCAction)
        requires
            x < REGISTER_COUNT,
        ensures
            final(self)@ == old(self)@.rand_reg(x as int, nn, random),
            action == PCAction::Advance(1),
            *final(final(self).memory()) == *final(old(self).memory()),
            *final(final(self).display()) == *final(old(self).display()),
    {
        proof {
            use_type_invariant(&*self);
        }
        self.v[x] = random & nn;
        PCAction::Advance(1)
    }

    /// Draws the sprite of `n` rows at `I` at column `Vx`, row `Vy`.
    pub fn inst_dxyn(&mut self, x: usize, y: usize, n: usize) -> (action: PCAction)
        requires
            x < REGISTER_COUNT,
            y < REGISTER_COUNT,
            n > 0 ==> old(self)@.i + n <= RAM_SIZE,
        ensures
            final(self)@ == old(self)@.draw(x as int, y as int, n as nat),
            action == PCAction::Advance(1),
            *final(final(self).memory()) == *final(old(self).memory()),
            *final(final(self).display()) == *final(old(self).display()),
    {
        proof {
            use_type_invariant(&*self);
        }
        self.v[FLAG] = 0;
        let mut byte: usize = 0;
        while byte < n
            invariant
                x < REGISTER_COUNT,
                y < REGISTER_COUNT,
                byte <= n,
                n > 0 ==> self.i + n <= RAM_SIZE,
                self.sp < STACK_SIZE,
                *final(self.ram) == *final(old(self).ram),
                *final(self.vram) == *final(old(self).vram),
                self@ == old(self)@.draw_rows(x as int, y as int, byte as nat),
            decreases n - byte,
        {
            let row: usize = (self.v[y] as usize + byte) % VRAM_HEIGHT;
            let ghost begun = self@;
            let mut bit: usize = 0;
            while bit < SPRITE_WIDTH
                invariant
                    x < REGISTER_COUNT,
                    row < VRAM_HEIGHT,
                    byte < n,
                    bit <= SPRITE_WIDTH,
                    self.i + n <= RAM_SIZE,
                    self.sp < STACK_SIZE,
                    *final(self.ram) == *final(old(self).ram),
                    *final(self.vram) == *final(old(self).vram),
                    self@ == begun.draw_row(x as int, row as int, byte as int, bit as nat),
                decreases SPRITE_WIDTH - bit,
            {
                let col: usize = (self.v[x] as usize + bit) % VRAM_WIDTH;
                let shift: u8 = (7 - bit) as u8;
                let color: u8 = (self.ram.fetch(self.i as usize + byte) >> shift) & 1;
                let pixel: u8 = self.vram.fetch(row, col);
                self.v[FLAG] = self.v[FLAG] | (color & pixel);
                self.vram.set(row, col, pixel ^ color);
                bit += 1;
            }
            byte += 1;
        }
        PCAction::Advance(1)
    }

    /// Skips the next instruction if the key `Vx` is held down.
    pub fn inst_ex9e(&mut self, x: usize) -> (action: PCAction)
        requires
            x < REGISTER_COUNT,
            old(self)@.v[x as int] < KEY_COUNT,
        ensures
            final(self)@ == old(self)@,
            action == if old(self)@.keymap[old(self)@.v[x as int] as int] {
                PCAction::Advance(2)
            } else {
                PCAction::Advance(1)
            },
            *final(final(self).memory()) == *final(old(self).memory()),
            *final(final(self).display()) == *final(old(self).display()),
    {
        if self.keymap[self.v[x] as usize] {
            PCAction::Advance(2)
        } else {
            PCAction::Advance(1)
        }
    }

    /// Skips the next instruction if the key `Vx` is not held down.
    pub fn inst_exa1(&mut self, x: usize) -> (action: PCAction)
        requires
            x < REGISTER_COUNT,
            old(self)@.v[x as int] < KEY_COUNT,
        ensures
            final(self)@ == old(self)@,
            action == if !old(self)@.keymap[old(self)@.v[x as int] as int] {
                PCAction::Advance(2)
            } else {
                PCAction::Advance(1)
            },
            *final(final(self).memory()) == *final(old(self).memory()),
            *final(final(self).display()) == *final(old(self).display()),
    {
        if !self.keymap[self.v[x] as usize] {
            PCAction::Advance(2)
        } else {
            PCAction::Advance(1)
        }
    }

    /// `Vx` takes the delay timer.
    pub fn inst_fx07(&mut self, x: usize) -> (action: PCAction)
        requires
            x < REGISTER_COUNT,
        ensures
            final(self)@ == old(self)@.with_register(x as int, old(self)@.delay_timer),
            action == PCAction::Advance(1),
            *final(final(self).memory()) == *final(old(self).memory()),
            *final(final(self).display()) == *final(old(self).display()),
    {
        proof {
            use_type_invariant(&*self);
        }
        self.v[x] = self.delay_timer;
        PCAction::Advance(1)
    }

    /// The lowest key held down, if any.
    fn lowest_pressed_key(&self) -> (found: Option<usize>)
        ensures
            match found {
                Some(key) => lowest_pressed(self@.keymap) == Some(key as int) && key < KEY_COUNT,
                None => lowest_pressed(self@.keymap) is None,
            },
    {
        let mut key: usize = 0;
        while key < KEY_COUNT
            invariant
                key <= KEY_COUNT,
                forall|k: int| 0 <= k < key ==> !self.keymap@[k],
            decreases KEY_COUNT - key,
        {
            if self.keymap[key] {
                proof {
                    lemma_lowest_pressed(self@.keymap);
                }
                return Some(key);
            }
            key += 1;
        }
        proof {
            lemma_lowest_pressed(self@.keymap);
        }
        None
    }

    /// Waits for a key: while none is held down the instruction is to be
    /// repeated; once one is, `Vx` takes the lowest such key.
    pub fn inst_fx0a(&mut self, x: usize) -> (action: PCAction)
        requires
            x < REGISTER_COUNT,
        ensures
            final(self)@ == old(self)@.wait_key(x as int),
            action == if lowest_pressed(old(self)@.keymap) is None {
                PCAction::Advance(0)
            } else {
                PCAction::Advance(1)
            },
            *final(final(self).memory()) == *final(old(self).memory()),
            *final(final(self).display()) == *final(old(self).display()),
    {
        proof {
            use_type_invariant(&*self);
        }
        match self.lowest_pressed_key() {
            None => PCAction::Advance(0),
            Some(key) => {
                self.v[x] = key as u8;
                PCAction::Advance(1)
            },
        }
    }

    /// The delay timer takes `Vx`.
    pub fn inst_fx15(&mut self, x: usize) -> (action: PCAction)
        requires
            x < REGISTER_COUNT,
        ensures
            final(self)@ == (MachineState { delay_timer: old(self)@.v[x as int], ..old(self)@ }),
            action == PCAction::Advance(1),
            *final(final(self).memory()) == *final(old(self).memory()),
            *final(final(self).display()) == *final(old(self).display()),
    {
        proof {
            use_type_invariant(&*self);
        }
        self.delay_timer = self.v[x];
        PCAction::Advance(1)
    }

    /// The sound timer takes `Vx`.
    pub fn inst_fx18(&mut self, x: usize) -> (action: PCAction)
        requires
            x < REGISTER_COUNT,
        ensures
            final(self)@ == (MachineState { sound_timer: old(self)@.v[x as int], ..old(self)@ }),
            action == PCAction::Advance(1),
            *final(final(self).memory()) == *final(old(self).memory()),
            *final(final(self).display()) == *final(old(self).display()),
    {
        proof {
            use_type_invariant(&*self);
        }
        self.sound_timer = self.v[x];
        PCAction::Advance(1)
    }

    /// `I += Vx`, wrapping.
    pub fn inst_fx1e(&mut self, x: usize) -> (action: PCAction)
        requires
            x < REGISTER_COUNT,
        ensures
            final(self)@ == old(self)@.add_index(x as int),
            action == PCAction::Advance(1),
            *final(final(self).memory()) == *final(old(self).memory()),
            *final(final(self).display()) == *final(old(self).display()),
    {
        proof {
            use_type_invariant(&*self);
        }
        self.i = self.i.wrapping_add(self.v[x] as u16);
        PCAction::Advance(1)
    }

    /// `I` takes the address of the glyph for `Vx`.
    pub fn inst_fx29(&mut self, x: usize) -> (action: PCAction)
        requires
            x < REGISTER_COUNT,
        ensures
            final(self)@ == old(self)@.font_addr(x as int),
            action == PCAction::Advance(1),
            *final(final(self).memory()) == *final(old(self).memory()),
            *final(final(self).display()) == *final(old(self).display()),
    {
        proof {
            use_type_invariant(&*self);
        }
        self.i = (self.v[x] as u16) * 5;
        PCAction::Advance(1)
    }

    /// Writes the three decimal digits of `Vx` to memory at `I`.
    pub fn inst_fx33(&mut self, x: usize) -> (action: PCAction)
        requires
            x < REGISTER_COUNT,
            old(self)@.i + 2 < RAM_SIZE,
        ensures
            final(self)@ == old(self)@.bcd(x as int),
            action == PCAction::Advance(1),
            *final(final(self).memory()) == *final(old(self).memory()),
            *final(final(self).display()) == *final(old(self).display()),
    {
        proof {
            use_type_invariant(&*self);
        }
        let base: usize = self.i as usize;
        self.ram.set(base, self.v[x] / 100);
        self.ram.set(base + 1, (self.v[x] % 100) / 10);
        self.ram.set(base + 2, self.v[x] % 10);
        PCAction::Advance(1)
    }

    /// Writes `V0` to `Vx` to memory from `I` upward.
    pub fn inst_fx55(&mut self, x: usize) -> (action: PCAction)
        requires
            x < REGISTER_COUNT,
            old(self)@.i + x < RAM_SIZE,
        ensures
            final(self)@ == old(self)@.store_range(x as int),
            action == PCAction::Advance(1),
            *final(final(self).memory()) == *final(old(self).memory()),
            *final(final(self).display()) == *final(old(self).display()),
    {
        proof {
            use_type_invariant(&*self);
        }
        let base: usize = self.i as usize;
        let mut k: usize = 0;
        while k < x + 1
            invariant
                x < REGISTER_COUNT,
                k <= x + 1,
                base == self.i,
                base + x < RAM_SIZE,
                self.sp < STACK_SIZE,
                *final(self.ram) == *final(old(self).ram),
                *final(self.vram) == *final(old(self).vram),
                self@ == old(self)@.store_range(k - 1),
            decreases x + 1 - k,
        {
            self.ram.set(base + k, self.v[k]);
            k += 1;
        }
        PCAction::Advance(1)
    }

    /// Reads `V0` to `Vx` from memory from `I` upward.
    pub fn inst_fx65(&mut self, x: usize) -> (action: PCAction)
        requires
            x < REGISTER_COUNT,
            old(self)@.i + x < RAM_SIZE,
        ensures
            final(self)@ == old(self)@.load_range(x as int),
            action == PCAction::Advance(1),
            *final(final(self).memory()) == *final(old(self).memory()),
            *final(final(self).display()) == *final(old(self).display()),
    {
        proof {
            use_type_invariant(&*self);
        }
        let base: usize = self.i as usize;
        let mut k: usize = 0;
        while k < x + 1
            invariant
                x < REGISTER_COUNT,
                k <= x + 1,
                base == self.i,
                base + x < RAM_SIZE,
                self.sp < STACK_SIZE,
                *final(self.ram) == *final(old(self).ram),
                *final(self.vram) == *final(old(self).vram),
                self@ == old(self)@.load_range(k - 1),
            decreases x + 1 - k,
        {
            self.v[k] = self.ram.fetch(base + k);
            k += 1;
        }
        PCAction::Advance(1)
    }

    /// The program counter.
    pub fn pc(&self) -> (pc: u16)
        ensures
            pc == self@.pc,
    {
        self.pc
    }

    /// The index register.
    pub fn index(&self) -> (i: u16)
        ensures
            i == self@.i,
    {
        self.i
    }

    /// Register `Vx`.
    pub fn register(&self, x: usize) -> (value: u8)
        requires
            x < REGISTER_COUNT,
        ensures
            value == self@.v[x as int],
    {
        self.v[x]
    }

    /// Number of return addresses on the call stack.
    pub fn stack_pointer(&self) -> (sp: usize)
        ensures
            sp == self@.sp,
    {
        self.sp
    }

    /// The delay timer.
    pub fn delay_timer(&self) -> (value: u8)
        ensures
            value == self@.delay_timer,
    {
        self.delay_timer
    }

    /// The sound timer.
    pub fn sound_timer(&self) -> (value: u8)
        ensures
            value == self@.sound_timer,
    {
        self.sound_timer
    }
}

/// One byte from `rand`'s thread-local generator, by `Rng::gen`. Nothing is
/// claimed of the byte: any value may come back, and two calls may differ.
/// The generator is seeded by the operating system on its first use in a
/// thread.
#[verifier::external_body]
fn random_byte() -> (byte: u8) {
    rand::thread_rng().gen::<u8>()
}

} // verus!
