//! An emulator core for an 8-bit handheld console processor: the instruction
//! decoder, the register file and the execution engine, with the behaviour of
//! every operation stated as a contract and proved.

pub mod memory;
pub mod vm;
pub mod word;
