//! Laws of the instruction set, proved of the machine model.

use vstd::prelude::*;
use crate::draw::{lemma_draw_frame, lemma_draw_is_composite, sprite_bit};
use crate::instruction::Instruction;
use crate::machine::{MachineState, FLAG, REGISTER_COUNT, SLOT};
use crate::vram::{VRAM_HEIGHT, VRAM_WIDTH};

verus! {

/// Adding one register to another leaves 1 in `VF` exactly when the sum of the
/// two values exceeds 255, and 0 otherwise; the target register, unless it is
/// `VF` itself, holds the sum modulo 256.
pub proof fn law_add_reg_carry(s: MachineState, x: usize, y: usize, random: u8)
    requires
        s.wf(),
        x < REGISTER_COUNT,
        y < REGISTER_COUNT,
    ensures
        ({
            let a = s.v[x as int];
            let b = s.v[y as int];
            let t = s.run(Instruction::AddReg { x, y }, random);
            &&& t.v[FLAG as int] == 1 <==> a + b > 255
            &&& t.v[FLAG as int] == 0 <==> a + b <= 255
            &&& x != FLAG ==> t.v[x as int] == (a + b) % 256
        }),
{
}

/// Subtracting one register from another leaves 0 in `VF` exactly when the
/// first value is less than the second, and 1 otherwise; the target register,
/// unless it is `VF` itself, holds the difference modulo 256.
pub proof fn law_sub_borrow(s: MachineState, x: usize, y: usize, random: u8)
    requires
        s.wf(),
        x < REGISTER_COUNT,
        y < REGISTER_COUNT,
    ensures
        ({
            let a = s.v[x as int];
            let b = s.v[y as int];
            let t = s.run(Instruction::Sub { x, y }, random);
            &&& t.v[FLAG as int] == 0 <==> a < b
            &&& t.v[FLAG as int] == 1 <==> a >= b
            &&& x != FLAG ==> t.v[x as int] == (a - b) % 256
        }),
{
}

/// Shifting a register other than `VF` right leaves its lowest bit, as it was
/// before the shift, in `VF`, and the value shifted right by one in the
/// register.
pub proof fn law_shr_flag(s: MachineState, x: usize, y: usize, random: u8)
    requires
        s.wf(),
        x < REGISTER_COUNT,
        x != FLAG,
    ensures
        ({
            let operand = s.v[x as int];
            let t = s.run(Instruction::Shr { x, y }, random);
            &&& t.v[FLAG as int] == operand & 1
            &&& t.v[x as int] == operand >> 1
        }),
{
    let operand = s.v[x as int];
    assert(operand & 1 == operand % 2) by (bit_vector);
    assert(operand >> 1 == operand / 2) by (bit_vector);
}

/// Whether `instr` is one of the six skip instructions.
pub open spec fn is_skip(instr: Instruction) -> bool {
    instr is SkipEqImm || instr is SkipNeImm || instr is SkipEqReg || instr is SkipNeReg
        || instr is SkipKeyPressed || instr is SkipKeyNotPressed
}

/// A skip instruction moves the program counter forward by four bytes when
/// its condition holds and by two when it does not, and changes nothing else.
pub proof fn law_skip_width(s: MachineState, instr: Instruction, random: u8)
    requires
        s.wf(),
        instr.in_range(),
        is_skip(instr),
        s.fault_of(instr) is None,
    ensures
        ({
            let t = s.run(instr, random);
            &&& s.skips(instr) ==> t.pc == s.pc + 4
            &&& !s.skips(instr) ==> t.pc == s.pc + 2
            &&& t == (MachineState { pc: t.pc, ..s })
        }),
{
}

/// A call followed at once by a return continues at the address right after
/// the call, with as many return addresses on the stack as before the call.
pub proof fn law_call_return(s: MachineState, addr: u16, random: u8)
    requires
        s.wf(),
        s.fault_of(Instruction::Call { addr }) is None,
    ensures
        ({
            let called = s.run(Instruction::Call { addr }, random);
            let back = called.run(Instruction::Return, random);
            &&& called.pc == addr
            &&& called.wf()
            &&& called.fault_of(Instruction::Return) is None
            &&& back.pc == s.pc + SLOT
            &&& back.sp == s.sp
        }),
{
}

/// Drawing the same sprite twice in a row at the same place, the coordinate
/// registers being other than `VF`, restores every pixel of the framebuffer;
/// and the second draw leaves 1 in `VF` exactly when the first draw lit a
/// pixel that was dark, and 0 otherwise.
pub proof fn law_draw_twice(s: MachineState, x: usize, y: usize, n: usize, random: u8)
    requires
        s.wf(),
        x < REGISTER_COUNT,
        y < REGISTER_COUNT,
        x != FLAG,
        y != FLAG,
        n <= VRAM_HEIGHT,
    ensures
        ({
            let once = s.run(Instruction::Draw { x, y, n }, random);
            let twice = once.run(Instruction::Draw { x, y, n }, random);
            let lit = exists|row: int, col: int|
                0 <= row < VRAM_HEIGHT && 0 <= col < VRAM_WIDTH && #[trigger] lit_by(
                    s.vram,
                    once.vram,
                    row,
                    col,
                );
            &&& twice.vram == s.vram
            &&& twice.v[FLAG as int] == if lit {
                1u8
            } else {
                0u8
            }
        }),
{
    let instr = Instruction::Draw { x, y, n };
    let once = s.run(instr, random);
    let twice = once.run(instr, random);
    let xi = x as int;
    let yi = y as int;
    let rows = n as nat;
    lemma_draw_frame(s, xi, yi, rows);
    lemma_draw_is_composite(s, xi, yi, rows);
    lemma_draw_frame(once, xi, yi, rows);
    lemma_draw_is_composite(once, xi, yi, rows);
    assert forall|row: int, col: int|
        0 <= row < VRAM_HEIGHT && 0 <= col < VRAM_WIDTH implies {
            &&& once.sprite_pixel(xi, yi, rows, row, col) == s.sprite_pixel(xi, yi, rows, row, col)
            &&& #[trigger] twice.vram[row][col] == s.vram[row][col]
            &&& once.collides_at(xi, yi, rows, row, col) == lit_by(s.vram, once.vram, row, col)
        } by {
        let sprite = s.sprite_pixel(xi, yi, rows, row, col);
        let pixel = s.vram[row][col];
        let byte = (row - s.v[yi]) % (VRAM_HEIGHT as int);
        let bit = (col - s.v[xi]) % (VRAM_WIDTH as int);
        let row_bits = s.ram[s.i + byte];
        let shift = (7 - bit as u8) as u8;
        assert((row_bits >> shift) & 1 <= 1) by (bit_vector);
        assert((pixel ^ sprite) ^ sprite == pixel) by (bit_vector);
        assert(sprite <= 1 ==> ((sprite & (pixel ^ sprite) == 1) <==> (pixel & 1 == 0 && (pixel
            ^ sprite) & 1 == 1))) by (bit_vector);
    }
    assert forall|row: int| 0 <= row < VRAM_HEIGHT implies #[trigger] twice.vram[row]
        =~= s.vram[row] by {}
    let lit = exists|row: int, col: int|
        0 <= row < VRAM_HEIGHT && 0 <= col < VRAM_WIDTH && #[trigger] lit_by(
            s.vram,
            once.vram,
            row,
            col,
        );
    if lit {
        let (row, col) = choose|row: int, col: int|
            0 <= row < VRAM_HEIGHT && 0 <= col < VRAM_WIDTH && #[trigger] lit_by(
                s.vram,
                once.vram,
                row,
                col,
            );
        assert(twice.vram[row][col] == s.vram[row][col]);
        assert(once.collides_at(xi, yi, rows, row, col));
    }
    if once.collides(xi, yi, rows) {
        let (row, col) = choose|row: int, col: int|
            0 <= row < VRAM_HEIGHT && 0 <= col < VRAM_WIDTH && #[trigger] once.collides_at(
                xi,
                yi,
                rows,
                row,
                col,
            );
        assert(twice.vram[row][col] == s.vram[row][col]);
        assert(lit_by(s.vram, once.vram, row, col));
    }
}

/// The pixel at (`row`, `col`) is dark in `before` and lit in `after`.
pub open spec fn lit_by(before: Seq<Seq<u8>>, after: Seq<Seq<u8>>, row: int, col: int) -> bool {
    before[row][col] & 1 == 0 && after[row][col] & 1 == 1
}

/// Whatever instruction a well-formed machine carries out without a fault
/// leaves it well-formed: every part keeps its size and the stack pointer
/// stays within the stack.
pub proof fn law_run_keeps_well_formed(s: MachineState, instr: Instruction, random: u8)
    requires
        s.wf(),
        instr.in_range(),
        s.fault_of(instr) is None,
    ensures
        s.run(instr, random).wf(),
{
    match instr {
        Instruction::Draw { x, y, n } => {
            lemma_draw_frame(s, x as int, y as int, n as nat);
        },
        _ => {},
    }
}

/// An instruction other than the random one does the same whatever byte
/// stands for the random draw.
pub proof fn law_random_only_in_rand(s: MachineState, instr: Instruction, a: u8, b: u8)
    requires
        !(instr is Rand),
    ensures
        s.run(instr, a) == s.run(instr, b),
{
}

} // verus!
