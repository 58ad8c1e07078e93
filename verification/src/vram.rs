//! The display surface: a 64 by 32 grid of pixels, addressed by row and column.

use vstd::prelude::*;

verus! {

/// Number of pixel columns.
pub const VRAM_WIDTH: usize = 64;

/// Number of pixel rows.
pub const VRAM_HEIGHT: usize = 32;

/// A grid of `VRAM_HEIGHT` rows of `VRAM_WIDTH` pixels each.
pub open spec fn is_grid(pixels: Seq<Seq<u8>>) -> bool {
    &&& pixels.len() == VRAM_HEIGHT
    &&& forall|row: int| 0 <= row < VRAM_HEIGHT ==> (#[trigger] pixels[row]).len() == VRAM_WIDTH
}

/// The grid in which every pixel is off.
pub open spec fn blank() -> Seq<Seq<u8>> {
    Seq::new(VRAM_HEIGHT as nat, |row: int| Seq::new(VRAM_WIDTH as nat, |col: int| 0u8))
}

/// `pixels` with the pixel at (`row`, `col`) replaced by `val`.
pub open spec fn with_pixel(pixels: Seq<Seq<u8>>, row: int, col: int, val: u8) -> Seq<Seq<u8>> {
    pixels.update(row, pixels[row].update(col, val))
}

/// The framebuffer of the machine. A pixel is off where its value is zero.
#[derive(Copy, Clone)]
pub struct Vram {
    pub vram: [[u8; VRAM_WIDTH]; VRAM_HEIGHT],
}

impl View for Vram {
    type V = Seq<Seq<u8>>;

    /// The pixels, row by row.
    open spec fn view(&self) -> Seq<Seq<u8>> {
        Seq::new(VRAM_HEIGHT as nat, |row: int| self.vram@[row]@)
    }
}

impl Vram {
    /// A surface with every pixel off.
    pub fn init() -> (surface: Vram)
        ensures
            surface@ == blank(),
    {
        let vram = [[0u8; VRAM_WIDTH]; VRAM_HEIGHT];
        let surface = Vram { vram };
        assert forall|row: int| 0 <= row < VRAM_HEIGHT implies #[trigger] surface@[row]
            =~= blank()[row] by {}
        surface
    }

    /// Replaces the pixel in row `x`, column `y` by `val`.
    pub fn set(&mut self, x: usize, y: usize, val: u8)
        requires
            x < VRAM_HEIGHT,
            y < VRAM_WIDTH,
        ensures
            final(self)@ == with_pixel(old(self)@, x as int, y as int, val),
        no_unwind
    {
        self.vram[x][y] = val;
    }

    /// The pixel in row `x`, column `y`.
    pub fn fetch(&mut self, x: usize, y: usize) -> (val: u8)
        requires
            x < VRAM_HEIGHT,
            y < VRAM_WIDTH,
        ensures
            val == old(self)@[x as int][y as int],
            *final(self) == *old(self),
        no_unwind
    {
        self.vram[x][y]
    }
}

} // verus!
