//! The trace under construction: the rows of the cycles so far and the log of memory
//! operations.  Both only grow, except when a faulted attempt is rolled back.

use vstd::prelude::*;
use vstd::slice::slice_subrange;
use crate::columns::CpuColumnsView;
use crate::memory::MemoryOp;

verus! {

/// The lengths of the trace at one moment.
#[derive(Clone, Copy, Debug, PartialEq, Eq, Structural)]
pub struct TraceCheckpoint {
    pub cpu_len: usize,
    pub memory_len: usize,
}

#[derive(Debug)]
pub struct Traces {
    pub cpu: Vec<CpuColumnsView>,
    pub memory_ops: Vec<MemoryOp>,
}

/// The first `len` entries of `s`, or all of `s` where it has fewer.
pub open spec fn truncated<T>(s: Seq<T>, len: int) -> Seq<T> {
    if 0 <= len <= s.len() {
        s.take(len)
    } else {
        s
    }
}

impl Traces {
    pub fn new() -> (traces: Traces)
        ensures
            traces.cpu@.len() == 0,
            traces.memory_ops@.len() == 0,
    {
        Traces { cpu: Vec::new(), memory_ops: Vec::new() }
    }

    /// The number of the current cycle: that of the rows recorded so far.
    pub open spec fn spec_clock(&self) -> usize {
        self.cpu@.len() as usize
    }

    /// The number of the current cycle.
    #[verifier::when_used_as_spec(spec_clock)]
    pub fn clock(&self) -> (clock: usize)
        ensures
            clock == self.spec_clock(),
            clock == self.cpu@.len(),
    {
        self.cpu.len()
    }

    pub open spec fn spec_checkpoint(&self) -> TraceCheckpoint {
        TraceCheckpoint { cpu_len: self.cpu@.len() as usize, memory_len: self.memory_ops@.len() as usize }
    }

    /// Notes how long the trace is now.
    #[verifier::when_used_as_spec(spec_checkpoint)]
    pub fn checkpoint(&self) -> (checkpoint: TraceCheckpoint)
        ensures
            checkpoint == self.spec_checkpoint(),
            checkpoint.cpu_len == self.cpu@.len(),
            checkpoint.memory_len == self.memory_ops@.len(),
    {
        TraceCheckpoint { cpu_len: self.cpu.len(), memory_len: self.memory_ops.len() }
    }

    /// Drops what was recorded after `checkpoint` and keeps all that came before.
    pub fn rollback(&mut self, checkpoint: TraceCheckpoint)
        ensures
            final(self).cpu@ == truncated(old(self).cpu@, checkpoint.cpu_len as int),
            final(self).memory_ops@ == truncated(old(self).memory_ops@, checkpoint.memory_len as int),
    {
        self.cpu.truncate(checkpoint.cpu_len);
        self.memory_ops.truncate(checkpoint.memory_len);
    }

    /// The memory operations recorded after `checkpoint`, oldest first.
    pub fn mem_ops_since(&self, checkpoint: TraceCheckpoint) -> (ops: &[MemoryOp])
        requires
            checkpoint.memory_len <= self.memory_ops@.len(),
        ensures
            ops@ == self.memory_ops@.skip(checkpoint.memory_len as int),
    {
        let all = self.memory_ops.as_slice();
        let ops = slice_subrange(all, checkpoint.memory_len, all.len());
        assert(ops@ =~= self.memory_ops@.skip(checkpoint.memory_len as int));
        ops
    }

    /// Appends the row of a finished cycle.
    pub fn push_cpu(&mut self, row: CpuColumnsView)
        ensures
            final(self).cpu@ == old(self).cpu@.push(row),
            final(self).memory_ops@ == old(self).memory_ops@,
    {
        self.cpu.push(row);
    }

    /// Appends a memory operation to the log.
    pub fn push_memory(&mut self, op: MemoryOp)
        ensures
            final(self).memory_ops@ == old(self).memory_ops@.push(op),
            final(self).cpu@ == old(self).cpu@,
    {
        self.memory_ops.push(op);
    }
}

} // verus!
