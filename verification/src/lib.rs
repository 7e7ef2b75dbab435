//! Instruction-execution core of a 6502-style processor: the register file,
//! the status-flag policy, the opcode table and the fetch-decode-execute loop.

pub mod cpu;
pub mod flags;
pub mod laws;
pub mod opcode;
pub mod run;

pub use cpu::{Fault, State, CPU};
pub use flags::{BREAK, CARRY, DECIMAL, INTERRUPT_DISABLE, NEGATIVE, OVERFLOW, ZERO};
pub use opcode::{decode, Instruction};
