//! An interpreter for the MOS 6502 microprocessor.
//!
//! The crate models the programmer-visible state of the chip (`Cpu`), a flat
//! 64 KiB address space (`Memory`) and the fetch-decode-execute loop that
//! runs a program against a cycle budget. Every executable function carries a
//! contract. The contract of `Cpu::step` is written against the operational
//! semantics in `semantics`, those of `Cpu::try_execute` and `Cpu::execute`
//! against `run`, and `laws` proves general facts about the semantics.

pub mod addressing;
pub mod alu;
pub mod bytes;
pub mod cpu;
pub mod decode;
pub mod execute;
pub mod instructions;
pub mod laws;
pub mod memory;
pub mod run;
pub mod semantics;
pub mod status;

pub use crate::cpu::Cpu;
pub use crate::decode::{Access, Instruction, Mnemonic, Mode};
pub use crate::execute::UnimplementedOpcode;
pub use crate::memory::{Memory, ProgramTooLarge};
pub use crate::status::StatusFlags;

use vstd::prelude::*;

verus! {

/// An 8-bit quantity: a register, a memory cell, an opcode.
pub type Byte = u8;

/// A byte read as a two's-complement number, as branch offsets are.
pub type SByte = i8;

/// A 16-bit quantity: an address or the program counter.
pub type Word = u16;

} // verus!
