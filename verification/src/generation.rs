//! The whole state of a run: registers, memory and the trace.

use vstd::prelude::*;
use crate::memory::MemoryState;
use crate::state::RegistersState;
use crate::traces::{truncated, TraceCheckpoint, Traces};

verus! {

/// What is kept of the state before an instruction is attempted.
#[derive(Clone, Copy, Debug, PartialEq, Eq, Structural)]
pub struct GenerationStateCheckpoint {
    pub registers: RegistersState,
    pub traces: TraceCheckpoint,
}

#[derive(Debug)]
pub struct GenerationState {
    pub registers: RegistersState,
    pub memory: MemoryState,
    pub traces: Traces,
}

impl GenerationState {
    /// Memory is well formed and holds the context from which instructions are fetched.
    pub open spec fn well_formed(&self) -> bool {
        &&& self.memory.well_formed()
        &&& self.registers.spec_code_context() < self.memory.contexts@.len()
    }

    /// Whether the state is well formed.
    pub fn is_well_formed(&self) -> (ok: bool)
        ensures
            ok == self.well_formed(),
    {
        self.memory.is_well_formed() && self.registers.code_context() < self.memory.contexts.len()
    }

    /// A state with the given registers and memory and an empty trace.
    pub fn new(registers: RegistersState, memory: MemoryState) -> (state: GenerationState)
        ensures
            state.registers == registers,
            state.memory == memory,
            state.traces.cpu@.len() == 0,
            state.traces.memory_ops@.len() == 0,
    {
        GenerationState { registers, memory, traces: Traces::new() }
    }

    pub open spec fn spec_checkpoint(&self) -> GenerationStateCheckpoint {
        GenerationStateCheckpoint { registers: self.registers, traces: self.traces.spec_checkpoint() }
    }

    /// Copies the registers and notes how long the trace is.
    #[verifier::when_used_as_spec(spec_checkpoint)]
    pub fn checkpoint(&self) -> (checkpoint: GenerationStateCheckpoint)
        ensures
            checkpoint == self.spec_checkpoint(),
            checkpoint.registers == self.registers,
            checkpoint.traces.cpu_len == self.traces.cpu@.len(),
            checkpoint.traces.memory_len == self.traces.memory_ops@.len(),
    {
        GenerationStateCheckpoint { registers: self.registers, traces: self.traces.checkpoint() }
    }

    /// Puts the registers back as they were at `checkpoint` and drops what the trace recorded
    /// since.  Memory is not touched: nothing recorded since the checkpoint was applied to it.
    pub fn rollback(&mut self, checkpoint: GenerationStateCheckpoint)
        ensures
            final(self).registers == checkpoint.registers,
            final(self).memory == old(self).memory,
            final(self).traces.cpu@ == truncated(old(self).traces.cpu@, checkpoint.traces.cpu_len as int),
            final(self).traces.memory_ops@ == truncated(
                old(self).traces.memory_ops@,
                checkpoint.traces.memory_len as int,
            ),
    {
        self.registers = checkpoint.registers;
        self.traces.rollback(checkpoint.traces);
    }
}

} // verus!
