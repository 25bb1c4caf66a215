//! The core of an emulator for an 8-bit handheld console.
//!
//! - [`bits`]: two bytes as a word and back.
//! - [`flags`], [`registers`]: the condition flags and the register file.
//! - [`mmu`]: the 64K address space over its backing stores.
//! - [`instructions`], [`opcodes`], [`mnemonics`]: what an instruction is,
//!   the table of the 256 opcodes, the decoder and the text of a
//!   disassembly.
//! - [`machine`]: the state of the machine and the meaning of each
//!   instruction, as mathematics.
//! - [`cpu`]: the engine that runs one instruction at a time.
//! - [`debugger`]: the cartridge header and the program listing that an
//!   inspector shows.

pub mod bits;
pub mod cpu;
pub mod debugger;
pub mod flags;
pub mod instructions;
pub mod machine;
pub mod mmu;
pub mod mnemonics;
pub mod opcodes;
pub mod registers;
