//! The instruction-execution core of an 8-bit processor of the Game Boy
//! family: a register file, a flag register, and an engine that runs one
//! decoded instruction at a time against the caller's memory.
//!
//! Every function is verified against a contract. The contract of
//! [`Cpu::execute`] is the transition function [`Cpu::after`] with
//! [`Cpu::memory_after`]; the module `laws` holds what follows from it.

pub mod alu;
pub mod cpu;
pub mod flags;
pub mod instruction;
pub mod laws;
pub mod registers;

pub use cpu::Cpu;
pub use flags::CpuFlags;
pub use instruction::{
    Add16Target, AddTarget, CpTarget, IncTarget, Instruction, LdaTarget, LdfaTarget, LdnTarget,
    LdrrTarget, LogicTarget, StackTarget, SubTarget,
};
pub use registers::Registers;
