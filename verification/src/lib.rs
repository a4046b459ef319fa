//! Witness generation for a MIPS-style virtual machine: every executed cycle becomes one
//! trace row, and a faulting instruction never leaves partial effects behind.

pub mod columns;
pub mod decode;
pub mod errors;
pub mod execution;
pub mod generation;
pub mod logging;
pub mod memory;
pub mod operation;
pub mod row;
pub mod state;
pub mod syscalls;
pub mod traces;
pub mod transition;
