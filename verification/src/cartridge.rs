//! A program image: the bytes that are placed in memory from the start of
//! program code to the end of memory.

use vstd::prelude::*;

verus! {

/// Number of bytes between the start of program code and the end of memory.
pub const CARTRIDGE_SIZE: usize = 3584;

/// The image made of `bytes`: its first `CARTRIDGE_SIZE` bytes, followed by
/// zeros where there are fewer.
pub open spec fn image_of(bytes: Seq<u8>) -> Seq<u8> {
    Seq::new(
        CARTRIDGE_SIZE as nat,
        |k: int|
            if k < bytes.len() {
                bytes[k]
            } else {
                0u8
            },
    )
}

/// A program image.
pub struct Cartridge {
    pub data: [u8; CARTRIDGE_SIZE],
}

impl View for Cartridge {
    type V = Seq<u8>;

    /// The bytes of the image.
    open spec fn view(&self) -> Seq<u8> {
        self.data@
    }
}

impl Cartridge {
    /// The image of a program given as the bytes read from its source. Bytes
    /// beyond the size of an image are dropped.
    pub fn load(bytes: &[u8]) -> (cartridge: Cartridge)
        ensures
            cartridge@ == image_of(bytes@),
    {
        let mut buffer = [0u8; CARTRIDGE_SIZE];
        let mut k: usize = 0;
        while k < bytes.len() && k < CARTRIDGE_SIZE
            invariant
                k <= bytes@.len(),
                k <= CARTRIDGE_SIZE,
                buffer@ == image_of(bytes@.take(k as int)),
            decreases CARTRIDGE_SIZE - k,
        {
            buffer[k] = bytes[k];
            k += 1;
        }
        Cartridge { data: buffer }
    }
}

} // verus!
