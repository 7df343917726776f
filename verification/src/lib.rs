//! The execution core of a CHIP-8 style virtual machine.
//!
//! The crate holds the machine's state ([`CPU`]), the decoder from 16-bit
//! opcodes to [`Instruction`]s, one handler per instruction, and the
//! fetch-decode-execute loop. Every executable function carries a contract
//! over the mathematical model in [`model`], and the laws that relate several
//! operations are proved in [`laws`].
pub mod fault;
pub mod instruction;
pub mod model;
pub mod cpu;
pub mod laws;

pub use cpu::CPU;
pub use fault::{Fault, Status};
pub use instruction::{decode, Fields, Instruction};
