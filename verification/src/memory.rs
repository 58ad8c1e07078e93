//! The interpreter's address space: 4096 bytes, addressed from zero.

use vstd::prelude::*;

verus! {

/// Number of addressable bytes.
pub const RAM_SIZE: usize = 4096;

/// Address at which program code is placed.
pub const PROGRAM_START: usize = 0x200;

/// The big-endian 16-bit word whose high byte is at `addr` and whose low byte
/// is at `addr + 1`.
pub open spec fn opcode_at(ram: Seq<u8>, addr: int) -> u16 {
    (ram[addr] as int * 256 + ram[addr + 1] as int) as u16
}

/// `ram` with `data` written from `base` upward. Bytes of `data` that would
/// land at or beyond the end of `ram` are dropped.
pub open spec fn load_at(ram: Seq<u8>, base: int, data: Seq<u8>) -> Seq<u8> {
    Seq::new(
        ram.len(),
        |a: int|
            if base <= a < base + data.len() {
                data[a - base]
            } else {
                ram[a]
            },
    )
}

/// A memory in which every byte is zero.
pub open spec fn zeroed() -> Seq<u8> {
    Seq::new(RAM_SIZE as nat, |a: int| 0u8)
}

/// The memory of the machine.
pub struct Memory {
    pub ram: [u8; RAM_SIZE],
}

impl View for Memory {
    type V = Seq<u8>;

    /// The bytes of the memory, by address.
    open spec fn view(&self) -> Seq<u8> {
        self.ram@
    }
}

impl Memory {
    /// A zero-filled memory.
    pub fn init() -> (mem: Memory)
        ensures
            mem@ == zeroed(),
    {
        let ram = [0u8; RAM_SIZE];
        Memory { ram }
    }

    /// Writes `value` at `index`.
    pub fn set(&mut self, index: usize, value: u8)
        requires
            index < RAM_SIZE,
        ensures
            final(self)@ == old(self)@.update(index as int, value),
        no_unwind
    {
        self.ram[index] = value;
    }

    /// The byte at `index`.
    pub fn fetch(&mut self, index: usize) -> (value: u8)
        requires
            index < RAM_SIZE,
        ensures
            value == old(self)@[index as int],
            *final(self) == *old(self),
        no_unwind
    {
        self.ram[index]
    }

    /// The big-endian 16-bit word at `index`.
    pub fn fetch_opcode(&mut self, index: usize) -> (opcode: u16)
        requires
            index + 1 < RAM_SIZE,
        ensures
            opcode == opcode_at(old(self)@, index as int),
            *final(self) == *old(self),
        no_unwind
    {
        let high: u8 = self.ram[index];
        let low: u8 = self.ram[index + 1];
        assert((high as u16) << 8 | (low as u16) == (high as int * 256 + low as int) as u16)
            by (bit_vector);
        (high as u16) << 8 | (low as u16)
    }

    /// Writes `data` from `PROGRAM_START` upward and drops what does not fit
    /// below the end of memory.
    pub fn load_cartridge(&mut self, data: &[u8])
        ensures
            final(self)@ == load_at(old(self)@, PROGRAM_START as int, data@),
    {
        let mut i: usize = 0;
        while i < data.len() && i < RAM_SIZE - PROGRAM_START
            invariant
                i <= data@.len(),
                i <= RAM_SIZE - PROGRAM_START,
                self@ == load_at(old(self)@, PROGRAM_START as int, data@.take(i as int)),
            decreases data@.len() - i,
        {
            self.set(PROGRAM_START + i, data[i]);
            i += 1;
        }
    }

    /// Writes `font_set` from address zero upward and drops what does not fit
    /// below the end of memory.
    pub fn load_font_set(&mut self, font_set: &[u8])
        ensures
            final(self)@ == load_at(old(self)@, 0, font_set@),
    {
        let mut i: usize = 0;
        while i < font_set.len() && i < RAM_SIZE
            invariant
                i <= font_set@.len(),
                i <= RAM_SIZE,
                self@ == load_at(old(self)@, 0, font_set@.take(i as int)),
            decreases font_set@.len() - i,
        {
            self.set(i, font_set[i]);
            i += 1;
        }
    }
}

} // verus!
