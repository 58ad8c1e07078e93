//! Sprite drawing: XOR compositing onto the framebuffer with toroidal wrap
//! and collision detection.

use vstd::prelude::*;
use crate::machine::{MachineState, FLAG};
use crate::vram::{with_pixel, VRAM_HEIGHT, VRAM_WIDTH};

verus! {

/// Number of pixels in one sprite row.
pub const SPRITE_WIDTH: usize = 8;

/// Pixel `bit` of the sprite row `row_bits`, counted from the most
/// significant bit: 1 where it is set, else 0.
pub open spec fn sprite_bit(row_bits: u8, bit: u8) -> u8 {
    (row_bits >> ((7 - bit) as u8)) & 1
}

impl MachineState {
    /// One pixel composited: the pixel at (`row`, `col`) is XORed with `color`,
    /// and `VF` gains `color & pixel`.
    pub open spec fn plot(self, row: int, col: int, color: u8) -> MachineState {
        let pixel = self.vram[row][col];
        MachineState {
            v: self.v.update(FLAG as int, self.v[FLAG as int] | (color & pixel)),
            vram: with_pixel(self.vram, row, col, pixel ^ color),
            ..self
        }
    }

    /// The first `bits` pixels of sprite row `byte` composited onto framebuffer
    /// row `row`. The column of each pixel is `Vx` plus its position in the
    /// row, modulo the width, with `Vx` as it stands when the pixel is drawn.
    pub open spec fn draw_row(self, x: int, row: int, byte: int, bits: nat) -> MachineState
        decreases bits,
    {
        if bits == 0 {
            self
        } else {
            let bit = bits - 1;
            let before = self.draw_row(x, row, byte, bit as nat);
            let col = (before.v[x] + bit) % (VRAM_WIDTH as int);
            before.plot(row, col, sprite_bit(before.ram[before.i + byte], bit as u8))
        }
    }

    /// `VF` cleared and the first `rows` rows of the sprite at `I` composited.
    /// The framebuffer row of each sprite row is `Vy` plus its position in the
    /// sprite, modulo the height, with `Vy` as it stands when the row is begun.
    pub open spec fn draw_rows(self, x: int, y: int, rows: nat) -> MachineState
        decreases rows,
    {
        if rows == 0 {
            self.with_register(FLAG as int, 0)
        } else {
            let byte = rows - 1;
            let before = self.draw_rows(x, y, byte as nat);
            let row = (before.v[y] + byte) % (VRAM_HEIGHT as int);
            before.draw_row(x, row, byte, SPRITE_WIDTH as nat)
        }
    }

    /// The sprite of `n` rows at `I` drawn at column `Vx`, row `Vy`.
    pub open spec fn draw(self, x: int, y: int, n: nat) -> MachineState {
        self.draw_rows(x, y, n)
    }
}

/// Two states that differ at most in `VF` and in the pixels.
pub open spec fn same_but_flag_and_pixels(a: MachineState, b: MachineState) -> bool {
    &&& a.v.len() == b.v.len()
    &&& forall|k: int| 0 <= k < a.v.len() && k != FLAG ==> a.v[k] == b.v[k]
    &&& a.i == b.i
    &&& a.pc == b.pc
    &&& a.stack == b.stack
    &&& a.sp == b.sp
    &&& a.delay_timer == b.delay_timer
    &&& a.sound_timer == b.sound_timer
    &&& a.keymap == b.keymap
    &&& a.ram == b.ram
}

/// Compositing pixels of one sprite row changes nothing but `VF` and pixels.
pub proof fn lemma_draw_row_frame(s: MachineState, x: int, row: int, byte: int, bits: nat)
    requires
        s.wf(),
        0 <= x < s.v.len(),
        0 <= row < VRAM_HEIGHT,
    ensures
        s.draw_row(x, row, byte, bits).wf(),
        same_but_flag_and_pixels(s, s.draw_row(x, row, byte, bits)),
    decreases bits,
{
    if bits > 0 {
        lemma_draw_row_frame(s, x, row, byte, (bits - 1) as nat);
    }
}

/// Drawing a sprite changes nothing but `VF` and pixels.
pub proof fn lemma_draw_frame(s: MachineState, x: int, y: int, n: nat)
    requires
        s.wf(),
        0 <= x < s.v.len(),
        0 <= y < s.v.len(),
    ensures
        s.draw(x, y, n).wf(),
        same_but_flag_and_pixels(s, s.draw(x, y, n)),
    decreases n,
{
    if n > 0 {
        let byte = n - 1;
        let before = s.draw_rows(x, y, byte as nat);
        lemma_draw_frame(s, x, y, byte as nat);
        let row = (before.v[y] + byte) % (VRAM_HEIGHT as int);
        lemma_draw_row_frame(before, x, row, byte, SPRITE_WIDTH as nat);
    }
}

impl MachineState {
    /// The sprite pixel that a draw of `n` rows at (`Vx`, `Vy`) lays over the
    /// framebuffer pixel (`row`, `col`): 0 where the sprite does not reach.
    pub open spec fn sprite_pixel(self, x: int, y: int, n: nat, row: int, col: int) -> u8 {
        let byte = (row - self.v[y]) % (VRAM_HEIGHT as int);
        let bit = (col - self.v[x]) % (VRAM_WIDTH as int);
        if byte < n && bit < SPRITE_WIDTH {
            sprite_bit(self.ram[self.i + byte], bit as u8)
        } else {
            0
        }
    }

    /// Whether that draw lays a set sprite pixel over the lit pixel
    /// (`row`, `col`).
    pub open spec fn collides_at(self, x: int, y: int, n: nat, row: int, col: int) -> bool {
        self.sprite_pixel(x, y, n, row, col) & self.vram[row][col] == 1
    }

    /// Whether that draw lays a set sprite pixel over any lit pixel.
    pub open spec fn collides(self, x: int, y: int, n: nat) -> bool {
        exists|row: int, col: int|
            0 <= row < VRAM_HEIGHT && 0 <= col < VRAM_WIDTH && #[trigger] self.collides_at(
                x,
                y,
                n,
                row,
                col,
            )
    }

    /// The state in which every pixel is XORed with the sprite pixel laid over
    /// it and `VF` tells whether the sprite collided.
    pub open spec fn composite(self, x: int, y: int, n: nat) -> MachineState {
        MachineState {
            v: self.v.update(
                FLAG as int,
                if self.collides(x, y, n) {
                    1
                } else {
                    0
                },
            ),
            vram: Seq::new(
                VRAM_HEIGHT as nat,
                |row: int|
                    Seq::new(
                        VRAM_WIDTH as nat,
                        |col: int| self.vram[row][col] ^ self.sprite_pixel(x, y, n, row, col),
                    ),
            ),
            ..self
        }
    }
}

/// The sprite pixel over (`row`, `col`) among those drawn once `rows` whole
/// sprite rows and `bits` pixels of the next are done.
spec fn pixel_so_far(s: MachineState, x: int, y: int, rows: int, bits: int, row: int, col: int) -> u8 {
    let byte = (row - s.v[y]) % (VRAM_HEIGHT as int);
    let bit = (col - s.v[x]) % (VRAM_WIDTH as int);
    if bit < SPRITE_WIDTH && (byte < rows || (byte == rows && bit < bits)) {
        sprite_bit(s.ram[s.i + byte], bit as u8)
    } else {
        0
    }
}

spec fn hit_so_far(s: MachineState, x: int, y: int, rows: int, bits: int, row: int, col: int) -> bool {
    pixel_so_far(s, x, y, rows, bits, row, col) & s.vram[row][col] == 1
}

/// `t` is `s` after `VF` was cleared and `rows` whole sprite rows and `bits`
/// pixels of the next were composited.
spec fn drawn_so_far(s: MachineState, t: MachineState, x: int, y: int, rows: int, bits: int) -> bool {
    &&& t.wf()
    &&& same_but_flag_and_pixels(s, t)
    &&& forall|row: int, col: int|
        0 <= row < VRAM_HEIGHT && 0 <= col < VRAM_WIDTH ==> #[trigger] t.vram[row][col]
            == s.vram[row][col] ^ pixel_so_far(s, x, y, rows, bits, row, col)
    &&& t.v[FLAG as int] <= 1
    &&& t.v[FLAG as int] == 1 <==> exists|row: int, col: int|
        0 <= row < VRAM_HEIGHT && 0 <= col < VRAM_WIDTH && #[trigger] hit_so_far(
            s,
            x,
            y,
            rows,
            bits,
            row,
            col,
        )
}

proof fn lemma_sprite_bit_is_bit(row_bits: u8, bit: u8)
    ensures
        sprite_bit(row_bits, bit) <= 1,
{
    let shift = (7 - bit) as u8;
    assert((row_bits >> shift) & 1 <= 1) by (bit_vector);
}

proof fn lemma_plot_so_far(s: MachineState, t: MachineState, x: int, y: int, byte: int, bit: int)
    requires
        s.wf(),
        0 <= x < s.v.len(),
        0 <= y < s.v.len(),
        x != FLAG,
        y != FLAG,
        0 <= byte < VRAM_HEIGHT,
        0 <= bit < SPRITE_WIDTH,
        drawn_so_far(s, t, x, y, byte, bit),
    ensures
        drawn_so_far(
            s,
            t.plot(
                (s.v[y] + byte) % (VRAM_HEIGHT as int),
                (s.v[x] + bit) % (VRAM_WIDTH as int),
                sprite_bit(s.ram[s.i + byte], bit as u8),
            ),
            x,
            y,
            byte,
            bit + 1,
        ),
{
    let at_row = (s.v[y] + byte) % (VRAM_HEIGHT as int);
    let at_col = (s.v[x] + bit) % (VRAM_WIDTH as int);
    let color = sprite_bit(s.ram[s.i + byte], bit as u8);
    let after = t.plot(at_row, at_col, color);
    let pixel = s.vram[at_row][at_col];
    let flag = t.v[FLAG as int];
    lemma_sprite_bit_is_bit(s.ram[s.i + byte], bit as u8);
    assert(pixel ^ 0 == pixel) by (bit_vector);
    assert(flag <= 1 && color <= 1 ==> (flag | (color & pixel)) <= 1) by (bit_vector);
    assert(flag <= 1 && color <= 1 ==> ((flag | (color & pixel)) == 1 <==> flag == 1 || (color
        & pixel) == 1)) by (bit_vector);
    assert forall|row: int, col: int|
        0 <= row < VRAM_HEIGHT && 0 <= col < VRAM_WIDTH && !(row == at_row && col
            == at_col) implies pixel_so_far(s, x, y, byte, bit + 1, row, col) == pixel_so_far(
        s,
        x,
        y,
        byte,
        bit,
        row,
        col,
    ) by {
        if (row - s.v[y]) % (VRAM_HEIGHT as int) == byte && (col - s.v[x]) % (VRAM_WIDTH as int)
            == bit {
            assert(col == at_col);
        }
    }
    assert forall|row: int, col: int|
        0 <= row < VRAM_HEIGHT && 0 <= col < VRAM_WIDTH implies #[trigger] after.vram[row][col]
        == s.vram[row][col] ^ pixel_so_far(s, x, y, byte, bit + 1, row, col) by {}
    let hit_before = exists|row: int, col: int|
        0 <= row < VRAM_HEIGHT && 0 <= col < VRAM_WIDTH && #[trigger] hit_so_far(
            s,
            x,
            y,
            byte,
            bit,
            row,
            col,
        );
    let hit_after = exists|row: int, col: int|
        0 <= row < VRAM_HEIGHT && 0 <= col < VRAM_WIDTH && #[trigger] hit_so_far(
            s,
            x,
            y,
            byte,
            bit + 1,
            row,
            col,
        );
    assert(0u8 & pixel != 1) by (bit_vector);
    if hit_before {
        let (row, col) = choose|row: int, col: int|
            0 <= row < VRAM_HEIGHT && 0 <= col < VRAM_WIDTH && #[trigger] hit_so_far(
                s,
                x,
                y,
                byte,
                bit,
                row,
                col,
            );
        assert(hit_so_far(s, x, y, byte, bit + 1, row, col));
    }
    if (color & pixel) == 1 {
        assert(hit_so_far(s, x, y, byte, bit + 1, at_row, at_col));
    }
    if hit_after {
        let (row, col) = choose|row: int, col: int|
            0 <= row < VRAM_HEIGHT && 0 <= col < VRAM_WIDTH && #[trigger] hit_so_far(
                s,
                x,
                y,
                byte,
                bit + 1,
                row,
                col,
            );
        if !(row == at_row && col == at_col) {
            assert(hit_so_far(s, x, y, byte, bit, row, col));
        }
    }
}

proof fn lemma_draw_row_so_far(s: MachineState, t: MachineState, x: int, y: int, byte: int, bits: nat)
    requires
        s.wf(),
        0 <= x < s.v.len(),
        0 <= y < s.v.len(),
        x != FLAG,
        y != FLAG,
        0 <= byte < VRAM_HEIGHT,
        bits <= SPRITE_WIDTH,
        drawn_so_far(s, t, x, y, byte, 0),
    ensures
        drawn_so_far(
            s,
            t.draw_row(x, (s.v[y] + byte) % (VRAM_HEIGHT as int), byte, bits),
            x,
            y,
            byte,
            bits as int,
        ),
    decreases bits,
{
    if bits > 0 {
        let bit = bits - 1;
        let at_row = (s.v[y] + byte) % (VRAM_HEIGHT as int);
        lemma_draw_row_so_far(s, t, x, y, byte, bit as nat);
        lemma_plot_so_far(s, t.draw_row(x, at_row, byte, bit as nat), x, y, byte, bit);
    }
}

proof fn lemma_draw_rows_so_far(s: MachineState, x: int, y: int, rows: nat)
    requires
        s.wf(),
        0 <= x < s.v.len(),
        0 <= y < s.v.len(),
        x != FLAG,
        y != FLAG,
        rows <= VRAM_HEIGHT,
    ensures
        drawn_so_far(s, s.draw_rows(x, y, rows), x, y, rows as int, 0),
    decreases rows,
{
    if rows == 0 {
        let t = s.draw_rows(x, y, 0);
        assert forall|row: int, col: int|
            0 <= row < VRAM_HEIGHT && 0 <= col < VRAM_WIDTH implies #[trigger] t.vram[row][col]
            == s.vram[row][col] ^ pixel_so_far(s, x, y, 0, 0, row, col) by {
            let pixel = s.vram[row][col];
            assert(pixel ^ 0 == pixel) by (bit_vector);
        }
        assert forall|row: int, col: int|
            0 <= row < VRAM_HEIGHT && 0 <= col < VRAM_WIDTH implies !#[trigger] hit_so_far(
            s,
            x,
            y,
            0,
            0,
            row,
            col,
        ) by {
            let pixel = s.vram[row][col];
            assert(0u8 & pixel != 1) by (bit_vector);
        }
    } else {
        let byte = rows - 1;
        let before = s.draw_rows(x, y, byte as nat);
        lemma_draw_rows_so_far(s, x, y, byte as nat);
        lemma_draw_row_so_far(s, before, x, y, byte, SPRITE_WIDTH as nat);
        assert forall|row: int, col: int|
            pixel_so_far(s, x, y, byte, SPRITE_WIDTH as int, row, col) == pixel_so_far(
                s,
                x,
                y,
                rows as int,
                0,
                row,
                col,
            ) by {}
        assert forall|row: int, col: int|
            hit_so_far(s, x, y, byte, SPRITE_WIDTH as int, row, col) == hit_so_far(
                s,
                x,
                y,
                rows as int,
                0,
                row,
                col,
            ) by {}
    }
}

/// Where neither coordinate register is `VF`, drawing is compositing: each
/// pixel is XORed with the sprite pixel over it, the sprite wrapping around
/// both edges, and `VF` ends as 1 if a set sprite pixel met a lit pixel, else
/// as 0.
pub proof fn lemma_draw_is_composite(s: MachineState, x: int, y: int, n: nat)
    requires
        s.wf(),
        0 <= x < s.v.len(),
        0 <= y < s.v.len(),
        x != FLAG,
        y != FLAG,
        n <= VRAM_HEIGHT,
    ensures
        s.draw(x, y, n) == s.composite(x, y, n),
{
    lemma_draw_rows_so_far(s, x, y, n);
    let drawn = s.draw(x, y, n);
    let composed = s.composite(x, y, n);
    assert forall|row: int, col: int|
        pixel_so_far(s, x, y, n as int, 0, row, col) == s.sprite_pixel(x, y, n, row, col) by {}
    assert forall|row: int, col: int|
        hit_so_far(s, x, y, n as int, 0, row, col) == s.collides_at(x, y, n, row, col) by {}
    if s.collides(x, y, n) {
        let (row, col) = choose|row: int, col: int|
            0 <= row < VRAM_HEIGHT && 0 <= col < VRAM_WIDTH && #[trigger] s.collides_at(
                x,
                y,
                n,
                row,
                col,
            );
        assert(hit_so_far(s, x, y, n as int, 0, row, col));
    }
    if drawn.v[FLAG as int] == 1 {
        let (row, col) = choose|row: int, col: int|
            0 <= row < VRAM_HEIGHT && 0 <= col < VRAM_WIDTH && #[trigger] hit_so_far(
                s,
                x,
                y,
                n as int,
                0,
                row,
                col,
            );
        assert(s.collides_at(x, y, n, row, col));
    }
    assert forall|row: int| 0 <= row < VRAM_HEIGHT implies #[trigger] drawn.vram[row]
        =~= composed.vram[row] by {
        assert forall|col: int| 0 <= col < VRAM_WIDTH implies drawn.vram[row][col]
            == composed.vram[row][col] by {}
    }
}

} // verus!
