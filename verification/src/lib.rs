//! A CHIP-8 virtual machine: memory, framebuffer and the fetch-decode-execute
//! engine, with every instruction's effect stated over a mathematical model of
//! the machine.

pub mod cartridge;
pub mod cpu;
pub mod draw;
pub mod instruction;
pub mod laws;
pub mod machine;
pub mod memory;
pub mod vram;
