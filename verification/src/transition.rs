//! One cycle of the machine: fetch, decode, execute, and then either commit what the
//! instruction logged or undo the attempt and record an exception in its place.

use vstd::prelude::*;
use crate::columns::{all_clear, one_hot, one_hot_at, CpuColumnsView};
use crate::decode::{decode, spec_decode};
use crate::errors::{exception_code, ProgramError};
use crate::execution::{apply_execution, executed, logged_within, outcome, Execution};
use crate::generation::GenerationState;
use crate::memory::{replayed_value, MemoryOp, MemoryState, Segment, KERNEL_CONTEXT};
use crate::operation::Operation;
use crate::row::{
    base_row,
    code_address,
    code_read,
    exception_flag_index,
    exception_row,
    fetched,
    fill_op_flag,
    flag_index,
    flagged,
    generate_exception,
    is_base_row,
};

verus! {

/// A fault together with the operation that raised it, if the instruction was decoded.
#[derive(Clone, Copy, Debug, PartialEq, Eq, Structural)]
pub struct Fault {
    pub error: ProgramError,
    pub operation: Option<Operation>,
}

/// What is known of a fault in kernel mode.
#[derive(Debug, PartialEq, Eq)]
pub struct KernelFault {
    pub error: ProgramError,
    /// The operation that faulted, if the instruction was decoded.
    pub operation: Option<Operation>,
    /// The program counter at the fault.
    pub program_counter: u32,
    /// The cells of the kernel's general segment.
    pub memory: Vec<u32>,
}

/// Why a run cannot go on.
#[derive(Debug, PartialEq, Eq)]
pub enum TransitionError {
    /// Kernel code faulted.
    KernelFault(KernelFault),
    /// User code raised a fault that has no exception code.
    UnhandledFault(ProgramError),
}

/// The instruction word that `state` fetches next.
pub open spec fn next_word(state: GenerationState) -> u32 {
    state.memory.spec_get(code_address(state.registers))
}

/// Whether `row` is the row handed to the executor of `op` in a cycle that starts from
/// `state`: the base row with the flag of `op` set.
pub open spec fn is_operation_row(row: CpuColumnsView, state: GenerationState, op: Operation) -> bool {
    exists|base: CpuColumnsView|
        #[trigger] is_base_row(base, state) && row == (CpuColumnsView { op: flagged(base.op, op), ..base })
}

/// Whether two memories hold the same value in every cell.
pub open spec fn same_contents(a: MemoryState, b: MemoryState) -> bool {
    &&& a.contexts@.len() == b.contexts@.len()
    &&& forall|address| a.spec_get(address) == b.spec_get(address)
}

/// The cells of the kernel's general segment.
pub open spec fn kernel_general(memory: MemoryState) -> Seq<u32> {
    memory.contexts@[KERNEL_CONTEXT as int].segments@[Segment::KernelGeneral.spec_index() as int].content@
}

/// The fault with which an operation ended, if it did not succeed.
pub open spec fn fault_of(result: Result<(), ProgramError>, op: Operation) -> Result<(), Fault> {
    match result {
        Ok(()) => Ok(()),
        Err(error) => Err(Fault { error, operation: Some(op) }),
    }
}

/// Whether `after` and `result` are what an attempt at the next instruction of `before`
/// can leave, with `executor` running the operation.
///
/// The instruction fetch is logged in any case.  A word that does not decode faults with
/// `InvalidOpcode` and nothing else happens.  Otherwise the executor is asked once, about
/// the decoded operation, the state after the fetch and the flagged base row, and its
/// answer is entered as `executed` says.
pub open spec fn attempted<E: Fn(Operation, &GenerationState, &CpuColumnsView) -> Execution>(
    executor: E,
    before: GenerationState,
    after: GenerationState,
    result: Result<(), Fault>,
) -> bool {
    match spec_decode(before.registers, next_word(before)) {
        Err(error) => fetched(before, after) && result == Err::<(), Fault>(Fault { error, operation: None }),
        Ok(op) => exists|mid: GenerationState, row: CpuColumnsView, execution: Execution|
            {
                &&& #[trigger] call_ensures(executor, (op, &mid, &row), execution)
                &&& fetched(before, mid)
                &&& is_operation_row(row, before, op)
                &&& executed(mid, after, op, row, execution)
                &&& result == fault_of(outcome(mid.memory, op, execution), op)
            },
    }
}

/// Whether the flags of `row` say what the row records: exactly one flag of the row is set,
/// and exactly one exception column if that flag is the exception flag, none otherwise.
pub open spec fn well_flagged(row: CpuColumnsView) -> bool {
    &&& one_hot(row.op.flags())
    &&& if row.op.exception == 1 {
        one_hot(row.exception.flags())
    } else {
        all_clear(row.exception.flags())
    }
}

/// What holds of every attempt, whatever the executor answers.
///
/// Memory is untouched.  The log keeps what it held, then holds the instruction fetch, then
/// only operations that address a cell.  A success appends one row, flagged for a class of
/// operation; a fault appends none.
pub open spec fn attempt_shape(before: GenerationState, after: GenerationState, result: Result<(), Fault>) -> bool {
    let old_len = before.traces.memory_ops@.len() as int;
    &&& after.memory == before.memory
    &&& after.traces.memory_ops@.len() > old_len
    &&& after.traces.memory_ops@.take(old_len) == before.traces.memory_ops@
    &&& after.traces.memory_ops@[old_len] == code_read(before)
    &&& forall|j: int|
        old_len < j < after.traces.memory_ops@.len() ==> before.memory.addressable(
            #[trigger] after.traces.memory_ops@[j].address,
        )
    &&& result is Ok ==> {
        &&& after.traces.cpu@.len() == before.traces.cpu@.len() + 1
        &&& after.traces.cpu@.drop_last() == before.traces.cpu@
        &&& well_flagged(after.traces.cpu@.last())
        &&& after.traces.cpu@.last().op.exception == 0
    }
    &&& result is Err ==> after.traces.cpu@ == before.traces.cpu@
}

/// Whether `executor` can be asked about every well-formed state.
pub open spec fn total<E: Fn(Operation, &GenerationState, &CpuColumnsView) -> Execution>(executor: E) -> bool {
    forall|op: Operation, state: &GenerationState, row: &CpuColumnsView|
        state.well_formed() ==> #[trigger] call_requires(executor, (op, state, row))
}

/// Runs the operation `op`: asks `executor` and enters its answer.
pub fn perform_op<E: Fn(Operation, &GenerationState, &CpuColumnsView) -> Execution>(
    state: &mut GenerationState,
    op: Operation,
    row: CpuColumnsView,
    executor: E,
) -> (result: Result<(), ProgramError>)
    requires
        old(state).well_formed(),
        total(executor),
    ensures
        final(state).well_formed(),
        logged_within(*old(state), *final(state)),
        exists|execution: Execution|
            {
                &&& #[trigger] call_ensures(executor, (op, &*old(state), &row), execution)
                &&& executed(*old(state), *final(state), op, row, execution)
                &&& result == outcome(old(state).memory, op, execution)
            },
{
    let execution = executor(op, &*state, &row);
    let ghost answer = execution;
    let result = apply_execution(state, op, row, execution);
    proof {
        assert(call_ensures(executor, (op, &*old(state), &row), answer));
    }
    result
}

/// Attempts the next instruction: fetches and decodes it, flags the row and runs the
/// operation.  Nothing is committed or undone here.
pub fn try_perform_instruction<E: Fn(Operation, &GenerationState, &CpuColumnsView) -> Execution>(
    state: &mut GenerationState,
    executor: E,
) -> (result: Result<(), Fault>)
    requires
        old(state).well_formed(),
        total(executor),
    ensures
        final(state).well_formed(),
        attempted(executor, *old(state), *final(state), result),
        attempt_shape(*old(state), *final(state), result),
{
    let (mut row, opcode) = base_row(state);
    let ghost base = row;
    proof {
        let log = old(state).traces.memory_ops@;
        assert(state.traces.memory_ops@.take(log.len() as int) =~= log);
    }
    let op = match decode(state.registers, opcode) {
        Ok(op) => op,
        Err(error) => {
            return Err(Fault { error, operation: None });
        },
    };

    fill_op_flag(op, &mut row);

    let ghost mid = *state;
    let result = perform_op(state, op, row, executor);
    proof {
        assert(is_base_row(base, *old(state)));
        assert(is_operation_row(row, *old(state), op));
        let execution = choose|execution: Execution|
            {
                &&& #[trigger] call_ensures(executor, (op, &mid, &row), execution)
                &&& executed(mid, *state, op, row, execution)
                &&& result == outcome(mid.memory, op, execution)
            };
        assert(call_ensures(executor, (op, &mid, &row), execution));
        let log = old(state).traces.memory_ops@;
        assert(state.traces.memory_ops@.take(log.len() as int) =~= mid.traces.memory_ops@.take(
            log.len() as int,
        ));
        if result is Ok {
            let committed = state.traces.cpu@.last();
            assert(state.traces.cpu@.drop_last() =~= old(state).traces.cpu@);
            assert(committed.op == row.op && committed.exception == row.exception);
            assert(one_hot_at(committed.op.flags(), flag_index(op)));
        }
    }
    match result {
        Ok(()) => Ok(()),
        Err(error) => Err(Fault { error, operation: Some(op) }),
    }
}

/// Whether `after` and `result` are what handling the fault `err` leaves of `before`.
///
/// A fault without an exception code cannot be handled: the state stays as it is.  A fault
/// with a code becomes a cycle of its own: the instruction is fetched once more, the row of
/// the exception is appended, and registers and memory contents stay as they are.
pub open spec fn handled(
    before: GenerationState,
    after: GenerationState,
    err: ProgramError,
    result: Result<(), TransitionError>,
) -> bool {
    match exception_code(err) {
        None => {
            &&& result matches Err(TransitionError::UnhandledFault(e))
            &&& e == err
            &&& after.registers == before.registers
            &&& after.memory == before.memory
            &&& after.traces.cpu@ == before.traces.cpu@
            &&& after.traces.memory_ops@ == before.traces.memory_ops@
        },
        Some(code) => {
            &&& result is Ok
            &&& after.registers == before.registers
            &&& same_contents(after.memory, before.memory)
            &&& after.traces.memory_ops@ == before.traces.memory_ops@.push(code_read(before))
            &&& exists|base: CpuColumnsView|
                #[trigger] is_base_row(base, before) && after.traces.cpu@ == before.traces.cpu@.push(
                    exception_row(base, code),
                )
        },
    }
}

/// Whether `after` and `result` are what the end of a cycle leaves of `attempt`, the state
/// in which the attempt at the instruction ended with `outcome`; `start` is the state in
/// which the cycle began.
///
/// After a success the memory operations logged since the start are replayed over memory.
/// After a fault in kernel mode the run ends and the state stays as the attempt left it.
/// After a fault in user mode the state is what handling the fault leaves of `start`.
pub open spec fn concluded(
    start: GenerationState,
    attempt: GenerationState,
    after: GenerationState,
    outcome: Result<(), Fault>,
    result: Result<(), TransitionError>,
) -> bool {
    match outcome {
        Ok(()) => {
            &&& result is Ok
            &&& after.registers == attempt.registers
            &&& after.traces.cpu@ == attempt.traces.cpu@
            &&& after.traces.memory_ops@ == attempt.traces.memory_ops@
            &&& after.memory.contexts@.len() == start.memory.contexts@.len()
            &&& forall|address|
                after.memory.spec_get(address) == replayed_value(
                    start.memory.spec_get(address),
                    attempt.traces.memory_ops@.skip(start.traces.memory_ops@.len() as int),
                    address,
                )
        },
        Err(fault) => if attempt.registers.is_kernel {
            &&& result matches Err(TransitionError::KernelFault(report))
            &&& report.error == fault.error
            &&& report.operation == fault.operation
            &&& report.program_counter == attempt.registers.program_counter
            &&& report.memory@ == kernel_general(attempt.memory)
            &&& after.registers == attempt.registers
            &&& after.memory == attempt.memory
            &&& after.traces.cpu@ == attempt.traces.cpu@
            &&& after.traces.memory_ops@ == attempt.traces.memory_ops@
        } else {
            handled(start, after, fault.error, result)
        },
    }
}

/// What holds after every cycle, whatever the executor answers.
///
/// The trace keeps all that it held.  A cycle that ends well appends exactly one row, whose
/// flags say what it records, and leaves in memory what replaying the memory operations
/// logged in the cycle, and no others, makes of the memory before.  If that row is the row
/// of an exception, the registers and the contents of memory are those from before the
/// cycle, and the cycle has logged nothing but its instruction fetch.  A cycle that ends
/// the run appends no row and leaves memory alone.
pub open spec fn cycle_shape(
    before: GenerationState,
    after: GenerationState,
    result: Result<(), TransitionError>,
) -> bool {
    let old_len = before.traces.memory_ops@.len() as int;
    &&& old_len <= after.traces.memory_ops@.len()
    &&& after.traces.memory_ops@.take(old_len) == before.traces.memory_ops@
    &&& after.memory.contexts@.len() == before.memory.contexts@.len()
    &&& result is Ok ==> {
        &&& after.traces.cpu@.len() == before.traces.cpu@.len() + 1
        &&& after.traces.cpu@.drop_last() == before.traces.cpu@
        &&& well_flagged(after.traces.cpu@.last())
        &&& forall|address|
            after.memory.spec_get(address) == replayed_value(
                before.memory.spec_get(address),
                after.traces.memory_ops@.skip(old_len),
                address,
            )
        &&& after.traces.cpu@.last().op.exception == 1 ==> {
            &&& after.registers == before.registers
            &&& same_contents(after.memory, before.memory)
            &&& after.traces.memory_ops@ == before.traces.memory_ops@.push(code_read(before))
        }
    }
    &&& result is Err ==> {
        &&& after.memory == before.memory
        &&& after.traces.cpu@ == before.traces.cpu@
    }
}

/// The row of an exception is flagged as one: the exception flag is the only flag set, and
/// the column of the code is the only exception column set.
pub proof fn lemma_exception_row_flags(base: CpuColumnsView, state: GenerationState, code: u8)
    requires
        is_base_row(base, state),
        (code as int) < crate::errors::NUM_EXCEPTION_CODES,
    ensures
        one_hot_at(exception_row(base, code).op.flags(), exception_flag_index()),
        one_hot_at(exception_row(base, code).exception.flags(), code as int),
        well_flagged(exception_row(base, code)),
{
    let row = exception_row(base, code);
    assert(one_hot_at(row.op.flags(), exception_flag_index()));
    assert(one_hot_at(row.exception.flags(), code as int));
}

/// The row handed to an executor is flagged for the class of its operation and for nothing
/// else, and so is the row that a success leaves in the trace.
pub proof fn lemma_operation_row_flags(row: CpuColumnsView, state: GenerationState, op: Operation, execution: Execution)
    requires
        is_operation_row(row, state, op),
    ensures
        one_hot_at(row.op.flags(), flag_index(op)),
        all_clear(row.exception.flags()),
        well_flagged(crate::execution::committed_row(row, execution)),
        crate::execution::committed_row(row, execution).op.exception == 0,
{
    assert(one_hot_at(row.op.flags(), flag_index(op)));
}

/// A fault in user mode leaves no trace of the attempt.
///
/// However the attempt left the state, after the cycle the registers and the contents of
/// memory are those from before the instruction, and the log holds, behind what it held
/// before, at most the fetch of the exception cycle: no memory operation of the faulted
/// attempt is in it, so none can be applied.  The cycle ends well exactly if the fault has
/// an exception code, and then the trace has grown by the row of that exception.
pub proof fn lemma_user_fault_undone<E: Fn(Operation, &GenerationState, &CpuColumnsView) -> Execution>(
    executor: E,
    start: GenerationState,
    attempt: GenerationState,
    after: GenerationState,
    fault: Fault,
    result: Result<(), TransitionError>,
)
    requires
        attempted(executor, start, attempt, Err(fault)),
        !attempt.registers.is_kernel,
        concluded(start, attempt, after, Err(fault), result),
    ensures
        after.registers == start.registers,
        same_contents(after.memory, start.memory),
        result is Ok <==> exception_code(fault.error) is Some,
        result is Ok ==> {
            &&& after.traces.memory_ops@ == start.traces.memory_ops@.push(code_read(start))
            &&& after.traces.cpu@.len() == start.traces.cpu@.len() + 1
            &&& after.traces.cpu@.drop_last() == start.traces.cpu@
            &&& after.traces.cpu@.last().op.exception == 1
            &&& one_hot_at(
                after.traces.cpu@.last().exception.flags(),
                exception_code(fault.error).unwrap() as int,
            )
        },
        result is Err ==> {
            &&& result == Err::<(), TransitionError>(TransitionError::UnhandledFault(fault.error))
            &&& after.traces.memory_ops@ == start.traces.memory_ops@
            &&& after.traces.cpu@ == start.traces.cpu@
        },
{
    if exception_code(fault.error) is Some {
        let code = exception_code(fault.error).unwrap();
        let base = choose|base: CpuColumnsView|
            #[trigger] is_base_row(base, start) && after.traces.cpu@ == start.traces.cpu@.push(
                exception_row(base, code),
            );
        lemma_exception_row_flags(base, start, code);
        assert(after.traces.cpu@.drop_last() =~= start.traces.cpu@);
    }
}

/// A success commits the cycle.
///
/// The registers, the rows and the log are those that the attempt left, and every cell of
/// memory holds what replaying the memory operations logged since the start of the cycle
/// makes of its value at the start.  The instruction fetch, which is the first of them,
/// changes nothing, so these are the memory operations of the executor alone.
pub proof fn lemma_success_committed<E: Fn(Operation, &GenerationState, &CpuColumnsView) -> Execution>(
    executor: E,
    start: GenerationState,
    attempt: GenerationState,
    after: GenerationState,
    result: Result<(), TransitionError>,
)
    requires
        attempted(executor, start, attempt, Ok(())),
        concluded(start, attempt, after, Ok(()), result),
    ensures
        result is Ok,
        after.registers == attempt.registers,
        after.traces.memory_ops@ == attempt.traces.memory_ops@,
        after.traces.cpu@ == attempt.traces.cpu@,
        attempt.traces.memory_ops@.len() > start.traces.memory_ops@.len(),
        attempt.traces.memory_ops@[start.traces.memory_ops@.len() as int] == code_read(start),
        forall|address|
            after.memory.spec_get(address) == replayed_value(
                start.memory.spec_get(address),
                attempt.traces.memory_ops@.skip(start.traces.memory_ops@.len() as int + 1),
                address,
            ),
{
    let len = start.traces.memory_ops@.len() as int;
    let since = attempt.traces.memory_ops@.skip(len);
    let rest = attempt.traces.memory_ops@.skip(len + 1);
    assert(since.len() > 0 && since[0] == code_read(start));
    assert(since =~= seq![code_read(start)] + rest);
    assert forall|address|
        after.memory.spec_get(address) == replayed_value(start.memory.spec_get(address), rest, address) by {
        lemma_replay_after_read(start.memory.spec_get(address), code_read(start), rest, address);
    }
}

/// Replaying a read changes no cell.
proof fn lemma_replay_after_read(before: u32, first: MemoryOp, rest: Seq<MemoryOp>, address: crate::memory::MemoryAddress)
    requires
        !first.is_write(),
    ensures
        replayed_value(before, seq![first] + rest, address) == replayed_value(before, rest, address),
    decreases rest.len(),
{
    let all = seq![first] + rest;
    if rest.len() == 0 {
        assert(all.drop_last() =~= Seq::<MemoryOp>::empty());
        assert(replayed_value(before, all.drop_last(), address) == before);
    } else {
        assert(all.drop_last() =~= seq![first] + rest.drop_last());
        assert(all.last() == rest.last());
        lemma_replay_after_read(before, first, rest.drop_last(), address);
    }
}

/// Copies the cells of the kernel's general segment.
fn kernel_general_contents(state: &GenerationState) -> (cells: Vec<u32>)
    requires
        state.memory.well_formed(),
        state.memory.contexts@.len() > KERNEL_CONTEXT,
    ensures
        cells@ == kernel_general(state.memory),
{
    let content = &state.memory.contexts[KERNEL_CONTEXT].segments[Segment::KernelGeneral.index()].content;
    let mut cells: Vec<u32> = Vec::new();
    let mut i: usize = 0;
    while i < content.len()
        invariant
            i <= content@.len(),
            cells@ == content@.take(i as int),
        decreases content@.len() - i,
    {
        cells.push(content[i]);
        assert(content@.take(i + 1) =~= content@.take(i as int).push(content@[i as int]));
        i += 1;
    }
    assert(content@.take(i as int) =~= content@);
    cells
}

/// Turns a fault of user code into a cycle of the trace: the fault is mapped to its
/// exception code, a fresh row is started from the registers as they are, and the row of
/// the exception is recorded.  A fault without a code ends the run.
pub fn handle_error(state: &mut GenerationState, err: ProgramError) -> (result: Result<(), TransitionError>)
    requires
        old(state).well_formed(),
    ensures
        final(state).well_formed(),
        handled(*old(state), *final(state), err, result),
        result is Ok <==> exception_code(err) is Some,
        cycle_shape(*old(state), *final(state), result),
{
    let exc_code: u8 = match err.code() {
        Some(code) => code,
        None => {
            proof {
                let log = state.traces.memory_ops@;
                assert(log.take(log.len() as int) =~= log);
            }
            return Err(TransitionError::UnhandledFault(err));
        },
    };

    let checkpoint = state.checkpoint();

    let (row, _) = base_row(state);
    generate_exception(exc_code, state, row);

    let ghost before_apply = state.memory;
    let ops = state.traces.mem_ops_since(checkpoint.traces);
    proof {
        assert(ops@ =~= seq![code_read(*old(state))]);
        assert forall|address| replayed_value(before_apply.spec_get(address), ops@, address)
            == before_apply.spec_get(address) by {
            lemma_replay_after_read(before_apply.spec_get(address), code_read(*old(state)), Seq::empty(), address);
            assert(seq![code_read(*old(state))] + Seq::<MemoryOp>::empty() =~= ops@);
        }
    }
    state.memory.apply_ops(ops);
    proof {
        assert(is_base_row(row, *old(state)));
        lemma_exception_row_flags(row, *old(state), exc_code);
        let log = old(state).traces.memory_ops@;
        assert(state.traces.memory_ops@.take(log.len() as int) =~= log);
        assert(state.traces.memory_ops@.skip(log.len() as int) =~= ops@);
        assert(state.traces.cpu@.drop_last() =~= old(state).traces.cpu@);
    }
    Ok(())
}

/// Advances the machine by one cycle.
///
/// The next instruction is attempted; `executor` runs its operation.  If the attempt
/// succeeds, the memory operations that it logged are applied to memory.  If it faults in
/// kernel mode, the run ends with a report of the fault.  If it faults in user mode, the
/// state is put back as it was before the attempt, and the fault is recorded as an
/// exception cycle.
pub fn transition<E: Fn(Operation, &GenerationState, &CpuColumnsView) -> Execution>(
    state: &mut GenerationState,
    executor: E,
) -> (result: Result<(), TransitionError>)
    requires
        old(state).well_formed(),
        total(executor),
    ensures
        final(state).well_formed(),
        cycle_shape(*old(state), *final(state), result),
        exists|attempt: GenerationState, outcome: Result<(), Fault>|
            {
                &&& #[trigger] attempted(executor, *old(state), attempt, outcome)
                &&& concluded(*old(state), attempt, *final(state), outcome, result)
            },
{
    let checkpoint = state.checkpoint();
    let result = try_perform_instruction(state, executor);
    let ghost attempt = *state;

    match result {
        Ok(()) => {
            let ops = state.traces.mem_ops_since(checkpoint.traces);
            proof {
                let len = old(state).traces.memory_ops@.len() as int;
                assert forall|i: int| 0 <= i < ops@.len() && (#[trigger] ops@[i]).is_write() implies state.memory.addressable(
                    ops@[i].address,
                ) by {
                    assert(ops@[i] == state.traces.memory_ops@[len + i]);
                }
            }
            state.memory.apply_ops(ops);
            proof {
                assert(concluded(*old(state), attempt, *state, result, Ok(())));
            }
            Ok(())
        },
        Err(fault) => {
            if state.registers.is_kernel {
                let report = KernelFault {
                    error: fault.error,
                    operation: fault.operation,
                    program_counter: state.registers.program_counter,
                    memory: kernel_general_contents(state),
                };
                let failure = Err(TransitionError::KernelFault(report));
                proof {
                    assert(concluded(*old(state), attempt, *state, result, failure));
                }
                return failure;
            }
            state.rollback(checkpoint);
            proof {
                // The state is back where the cycle began.
                assert(state.traces.memory_ops@ == old(state).traces.memory_ops@);
                assert(state.traces.cpu@ =~= old(state).traces.cpu@);
            }
            let ghost restored = *state;
            let handling = handle_error(state, fault.error);
            proof {
                // What was handled is therefore the fault as it would have struck there.
                assert(handled(restored, *state, fault.error, handling));
                assert(code_read(restored) == code_read(*old(state)));
                assert(handled(*old(state), *state, fault.error, handling)) by {
                    if exception_code(fault.error) is Some {
                        let base = choose|base: CpuColumnsView|
                            #[trigger] is_base_row(base, restored) && state.traces.cpu@
                                == restored.traces.cpu@.push(exception_row(base, exception_code(fault.error).unwrap()));
                        assert(is_base_row(base, *old(state)));
                    }
                }
                assert(concluded(*old(state), attempt, *state, result, handling));
            }
            handling
        },
    }
}

} // verus!
