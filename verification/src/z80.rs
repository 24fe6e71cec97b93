//! The processor model: registers, arithmetic unit and instruction set.

pub mod alu;
pub mod instructions;
pub mod registers;
