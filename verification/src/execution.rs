//! What the executor of an operation hands back, and how it enters the state.
//!
//! The executors themselves (arithmetic, hashing, prover input and the rest) are not part of
//! this crate.  An executor sees the state and the row of the cycle and answers with an
//! [`Execution`]: the registers as it leaves them, the memory operations it logged, the
//! auxiliary columns it filled, and whether it succeeded.  What it logged before a fault
//! counts as logged; it is the transition that discards it.

use vstd::prelude::*;
use crate::columns::{AuxColumns, CpuColumnsView};
use crate::errors::ProgramError;
use crate::generation::GenerationState;
use crate::memory::{MemoryOp, MemoryState};
use crate::operation::Operation;
use crate::state::RegistersState;

verus! {

/// The distance between one instruction and the next.
pub const PC_STEP: u32 = 4;

/// The answer of an executor.
#[derive(Debug)]
pub struct Execution {
    /// The registers as the executor leaves them.
    pub registers: RegistersState,
    /// The memory operations that it logged, oldest first.
    pub memory_ops: Vec<MemoryOp>,
    /// The auxiliary columns of the row.
    pub aux: AuxColumns,
    /// Whether the operation ran to its end.
    pub result: Result<(), ProgramError>,
}

/// The number of leading entries of `ops` that address a cell of `memory`.
pub open spec fn accepted_len(memory: MemoryState, ops: Seq<MemoryOp>) -> nat
    decreases ops.len(),
{
    if ops.len() == 0 || !memory.addressable(ops[0].address) {
        0
    } else {
        1 + accepted_len(memory, ops.drop_first())
    }
}

/// Whether the registers of `execution` fetch from a context that `memory` holds.
pub open spec fn registers_accepted(memory: MemoryState, execution: Execution) -> bool {
    execution.registers.spec_code_context() < memory.contexts@.len()
}

/// The memory operations of `execution` that enter the log: none if its registers are
/// refused, else those up to the first that addresses no cell.
pub open spec fn logged_ops(memory: MemoryState, execution: Execution) -> Seq<MemoryOp> {
    if registers_accepted(memory, execution) {
        execution.memory_ops@.take(accepted_len(memory, execution.memory_ops@) as int)
    } else {
        Seq::empty()
    }
}

/// How far the program counter moves after `op` has run: not at all where the operation
/// sets the program counter itself, one instruction otherwise.
pub open spec fn pc_advance(op: Operation) -> int {
    if op.spec_redirects_control() {
        0
    } else {
        PC_STEP as int
    }
}

/// How an operation ends, given the answer of its executor.
///
/// Registers or a memory operation that point outside `memory` are a `MemoryError`; then
/// comes the fault that the executor itself reports; a program counter that cannot advance
/// is an `InterpreterError`.
pub open spec fn outcome(memory: MemoryState, op: Operation, execution: Execution) -> Result<
    (),
    ProgramError,
> {
    if !registers_accepted(memory, execution) {
        Err(ProgramError::MemoryError)
    } else if accepted_len(memory, execution.memory_ops@) < execution.memory_ops@.len() {
        Err(ProgramError::MemoryError)
    } else if execution.result is Err {
        execution.result
    } else if execution.registers.program_counter + pc_advance(op) > u32::MAX {
        Err(ProgramError::InterpreterError)
    } else {
        Ok(())
    }
}

/// The registers after `op` has succeeded: those of the executor, with the program counter
/// advanced as the operation calls for.
pub open spec fn registers_after(op: Operation, execution: Execution) -> RegistersState {
    RegistersState {
        program_counter: (execution.registers.program_counter + pc_advance(op)) as u32,
        ..execution.registers
    }
}

/// The row that a successful operation leaves in the trace: `row` with the auxiliary
/// columns of the executor.
pub open spec fn committed_row(row: CpuColumnsView, execution: Execution) -> CpuColumnsView {
    CpuColumnsView { aux: execution.aux, ..row }
}

/// Whether `after` is `before` with the answer `execution` to `op` entered.
///
/// Memory is never touched.  The log grows by the accepted memory operations, also when
/// the operation faults.  A success sets the registers and appends the row; a fault appends
/// no row and leaves the registers as the executor left them, or as they were if it was the
/// registers that were refused.
pub open spec fn executed(
    before: GenerationState,
    after: GenerationState,
    op: Operation,
    row: CpuColumnsView,
    execution: Execution,
) -> bool {
    &&& after.memory == before.memory
    &&& after.traces.memory_ops@ == before.traces.memory_ops@ + logged_ops(before.memory, execution)
    &&& outcome(before.memory, op, execution) is Ok ==> {
        &&& after.registers == registers_after(op, execution)
        &&& after.traces.cpu@ == before.traces.cpu@.push(committed_row(row, execution))
    }
    &&& outcome(before.memory, op, execution) is Err ==> {
        &&& after.registers == (if registers_accepted(before.memory, execution) {
            execution.registers
        } else {
            before.registers
        })
        &&& after.traces.cpu@ == before.traces.cpu@
    }
}

/// Whether `after` has the log of `before` and, behind it, only operations that address a
/// cell of memory, which is that of `before`.
pub open spec fn logged_within(before: GenerationState, after: GenerationState) -> bool {
    &&& after.memory == before.memory
    &&& before.traces.memory_ops@.len() <= after.traces.memory_ops@.len()
    &&& after.traces.memory_ops@.take(before.traces.memory_ops@.len() as int) == before.traces.memory_ops@
    &&& forall|j: int|
        before.traces.memory_ops@.len() <= j < after.traces.memory_ops@.len() ==> before.memory.addressable(
            #[trigger] after.traces.memory_ops@[j].address,
        )
}

/// Where a successful operation leaves the program counter.
///
/// An operation that redirects control leaves all registers as its executor set them.  Any
/// other operation leaves the program counter one instruction behind the place where the
/// executor left it, which is one instruction behind the place where it was before, if the
/// executor did not move it; the other registers are those of the executor.
pub proof fn lemma_program_counter_after(
    before: GenerationState,
    after: GenerationState,
    op: Operation,
    row: CpuColumnsView,
    execution: Execution,
)
    requires
        executed(before, after, op, row, execution),
        outcome(before.memory, op, execution) is Ok,
    ensures
        op.spec_redirects_control() ==> after.registers == execution.registers,
        !op.spec_redirects_control() ==> {
            &&& after.registers.program_counter == execution.registers.program_counter + PC_STEP
            &&& after.registers.context == execution.registers.context
            &&& after.registers.is_kernel == execution.registers.is_kernel
        },
        !op.spec_redirects_control() && execution.registers.program_counter
            == before.registers.program_counter ==> after.registers.program_counter
            == before.registers.program_counter + 4,
{
}

/// `accepted_len` counts on from any accepted prefix.
proof fn lemma_accepted_len_step(memory: MemoryState, ops: Seq<MemoryOp>, i: int)
    requires
        0 <= i < ops.len(),
        forall|j: int| 0 <= j < i ==> memory.addressable(#[trigger] ops[j].address),
    ensures
        accepted_len(memory, ops) == i + accepted_len(memory, ops.skip(i)),
    decreases i,
{
    if i > 0 {
        lemma_accepted_len_step(memory, ops, i - 1);
        assert(ops.skip(i - 1).drop_first() =~= ops.skip(i));
        assert(ops.skip(i - 1)[0] == ops[i - 1]);
    } else {
        assert(ops.skip(0) =~= ops);
    }
}

/// An accepted sequence is accepted in full.
proof fn lemma_accepted_len_all(memory: MemoryState, ops: Seq<MemoryOp>)
    requires
        forall|j: int| 0 <= j < ops.len() ==> memory.addressable(#[trigger] ops[j].address),
    ensures
        accepted_len(memory, ops) == ops.len(),
    decreases ops.len(),
{
    if ops.len() > 0 {
        lemma_accepted_len_all(memory, ops.drop_first());
    }
}

/// Enters the answer of an executor into the state.
///
/// The registers and every memory operation are checked against memory before they are
/// taken over; the state stays well formed whatever the executor answered.
#[verifier::loop_isolation(false)]
pub fn apply_execution(
    state: &mut GenerationState,
    op: Operation,
    row: CpuColumnsView,
    execution: Execution,
) -> (result: Result<(), ProgramError>)
    requires
        old(state).well_formed(),
    ensures
        result == outcome(old(state).memory, op, execution),
        executed(*old(state), *final(state), op, row, execution),
        final(state).well_formed(),
        logged_within(*old(state), *final(state)),
{
    let Execution { registers, memory_ops, aux, result } = execution;
    if registers.code_context() >= state.memory.contexts.len() {
        proof {
            let log = state.traces.memory_ops@;
            assert(log + Seq::<MemoryOp>::empty() =~= log);
            assert(log.take(log.len() as int) =~= log);
        }
        return Err(ProgramError::MemoryError);
    }
    state.registers = registers;
    proof {
        let log = state.traces.memory_ops@;
        assert(log.take(log.len() as int) =~= log);
    }

    let mut i: usize = 0;
    while i < memory_ops.len()
        invariant
            i <= memory_ops@.len(),
            state.memory == old(state).memory,
            state.registers == registers,
            state.traces.cpu@ == old(state).traces.cpu@,
            state.traces.memory_ops@ == old(state).traces.memory_ops@ + memory_ops@.take(i as int),
            forall|j: int| 0 <= j < i ==> state.memory.addressable(#[trigger] memory_ops@[j].address),
            logged_within(*old(state), *state),
        decreases memory_ops@.len() - i,
    {
        let mem_op = memory_ops[i];
        if !state.memory.is_addressable(mem_op.address) {
            proof {
                lemma_accepted_len_step(state.memory, memory_ops@, i as int);
                assert(memory_ops@.skip(i as int)[0] == mem_op);
            }
            return Err(ProgramError::MemoryError);
        }
        state.traces.push_memory(mem_op);
        proof {
            assert(memory_ops@.take(i + 1) =~= memory_ops@.take(i as int).push(mem_op));
            assert(old(state).traces.memory_ops@ + memory_ops@.take(i + 1) =~= (old(
                state,
            ).traces.memory_ops@ + memory_ops@.take(i as int)).push(mem_op));
            let before = old(state).traces.memory_ops@;
            assert(state.traces.memory_ops@.take(before.len() as int) =~= before);
        }
        i += 1;
    }
    proof {
        lemma_accepted_len_all(state.memory, memory_ops@);
        assert(memory_ops@.take(i as int) =~= memory_ops@);
    }

    match result {
        Err(e) => {
            return Err(e);
        },
        Ok(()) => {},
    }

    let step: u32 = if op.redirects_control() { 0 } else { PC_STEP };
    if state.registers.program_counter > u32::MAX - step {
        return Err(ProgramError::InterpreterError);
    }
    state.traces.push_cpu(CpuColumnsView { aux, ..row });
    state.registers.program_counter += step;
    Ok(())
}

} // verus!
