//! Faults that an instruction can raise, and the codes under which they are traced.

use vstd::prelude::*;

verus! {

/// A fault raised while decoding or executing one instruction.
#[derive(Clone, Copy, Debug, PartialEq, Eq, Structural)]
pub enum ProgramError {
    OutOfGas,
    InvalidOpcode,
    StackUnderflow,
    InvalidJumpDestination,
    InvalidJumpiDestination,
    StackOverflow,
    KernelPanic,
    MemoryError,
    GasLimitError,
    InterpreterError,
}

/// Number of distinct exception codes.
pub const NUM_EXCEPTION_CODES: usize = 6;

/// The exception code assigned to a fault, if it has one.
pub open spec fn exception_code(err: ProgramError) -> Option<u8> {
    match err {
        ProgramError::OutOfGas => Some(0u8),
        ProgramError::InvalidOpcode => Some(1u8),
        ProgramError::StackUnderflow => Some(2u8),
        ProgramError::InvalidJumpDestination => Some(3u8),
        ProgramError::InvalidJumpiDestination => Some(4u8),
        ProgramError::StackOverflow => Some(5u8),
        _ => None,
    }
}

impl ProgramError {
    /// The code under which this fault is recorded in the trace, or `None` for a fault that
    /// cannot be turned into an exception cycle.
    pub fn code(&self) -> (code: Option<u8>)
        ensures
            code == exception_code(*self),
            code matches Some(c) ==> (c as int) < NUM_EXCEPTION_CODES,
    {
        match self {
            ProgramError::OutOfGas => Some(0),
            ProgramError::InvalidOpcode => Some(1),
            ProgramError::StackUnderflow => Some(2),
            ProgramError::InvalidJumpDestination => Some(3),
            ProgramError::InvalidJumpiDestination => Some(4),
            ProgramError::StackOverflow => Some(5),
            _ => None,
        }
    }
}

} // verus!
