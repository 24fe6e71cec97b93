//! The two fatal conditions that stop the machine.

use vstd::prelude::*;

verus! {

/// The direction of a memory access.
#[derive(Copy, Clone, Debug, PartialEq, Eq, Structural)]
pub enum Access {
    Read,
    Write,
}

/// A fatal condition. Neither kind is recoverable: the caller stops the run.
#[derive(Copy, Clone, Debug, PartialEq, Eq, Structural)]
pub enum Fault {
    /// An access to an address that no region backs, or a write to a
    /// read-only region.
    Address { addr: u16, access: Access },
    /// An opcode (and, behind the escape opcode or the stop opcode, its
    /// second byte) that the decoder could not classify, with the program
    /// counter at which it was fetched.
    UnknownInstruction { opcode: u8, bitcode: u8, pc: u16 },
}

} // verus!
