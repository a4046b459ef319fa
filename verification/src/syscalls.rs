//! Numeric identifiers of the system calls understood by the runtime.
//!
//! The proof system carries its own table of these identifiers; the two must agree bit for bit.

use vstd::prelude::*;

verus! {

/// Halts the program.
pub const HALT: u32 = 4246u32;

/// Writes to a file descriptor.
pub const WRITE: u32 = 4004u32;

/// Executes the `COMMIT` precompile.
pub const COMMIT: u32 = 0x00_00_00_10u32;

/// Executes `HINT_LEN`.
pub const HINT_LEN: u32 = 0x00_00_00_F0u32;

/// Executes `HINT_READ`.
pub const HINT_READ: u32 = 0x00_00_00_F1u32;

} // verus!
