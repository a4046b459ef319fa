//! The registers of the machine.

use vstd::prelude::*;
use crate::memory::KERNEL_CONTEXT;

verus! {

/// The registers that persist from one cycle to the next.
#[derive(Clone, Copy, Debug, PartialEq, Eq, Structural)]
pub struct RegistersState {
    pub program_counter: u32,
    pub context: usize,
    pub is_kernel: bool,
}

impl RegistersState {
    /// The context from which instructions are fetched: that of the kernel while in kernel
    /// mode, the current one otherwise.
    pub open spec fn spec_code_context(&self) -> usize {
        if self.is_kernel {
            KERNEL_CONTEXT
        } else {
            self.context
        }
    }

    /// The context from which instructions are fetched.
    #[verifier::when_used_as_spec(spec_code_context)]
    pub fn code_context(&self) -> (context: usize)
        ensures
            context == self.spec_code_context(),
    {
        if self.is_kernel {
            KERNEL_CONTEXT
        } else {
            self.context
        }
    }
}

} // verus!
