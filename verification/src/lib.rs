//! A verified instruction-fetch and decode core for a 6502-family CPU.
//!
//! The crate models a byte-addressable memory, the CPU register file with
//! its status flags, and the decode layer that turns opcode bytes into
//! `Instruction` values with their addressing mode and base cycle cost.

pub mod cpu;
pub mod errors;
pub mod flags;
pub mod instructions;
pub mod memory;
