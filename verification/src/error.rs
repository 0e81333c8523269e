//! Fatal conditions of the execution engine.
//!
//! A deterministic interpreter must not guess: an unknown instruction word,
//! a call-stack overflow or underflow, and any access outside the address
//! space terminate execution with a diagnosable report.

use vstd::prelude::*;

verus! {

/// The fatal conditions, each carrying the program counter of the
/// instruction that raised it.
#[derive(Clone, Copy, PartialEq, Eq, Structural, Debug)]
pub enum VmError {
    /// The fetched word matches no known (family, selector) pattern.
    UnknownInstruction { pc: usize, word: usize },
    /// A call would push beyond the sixteenth stack slot.
    StackOverflow { pc: usize },
    /// A return was executed with an empty stack.
    StackUnderflow { pc: usize },
    /// A memory or index-register address fell outside the address space;
    /// `addr` is the offending address.
    AddressOutOfRange { pc: usize, addr: usize },
}

/// Build the fatal report for an instruction word that matches no known
/// pattern, carrying the program counter and the raw word for diagnosis.
pub fn shit_pants(pc: usize, opcode: usize) -> (e: VmError)
    ensures
        e == (VmError::UnknownInstruction { pc, word: opcode }),
{
    VmError::UnknownInstruction { pc, word: opcode }
}

} // verus!
