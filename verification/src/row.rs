//! Building the row of a cycle: the columns common to all cycles, the instruction fetch, the
//! flag of the operation, and the row that records an exception.

use vstd::prelude::*;
use crate::columns::{all_clear, one_hot_at, CpuColumnsView, ExceptionColumnsView, OpsColumnsView};
use crate::errors::NUM_EXCEPTION_CODES;
use crate::generation::GenerationState;
use crate::memory::{MemoryAddress, MemoryChannel, MemoryOp, MemoryOpKind, Segment, SEGMENT_COUNT};
use crate::operation::Operation;
use crate::state::RegistersState;

verus! {

/// The cell from which the next instruction is fetched.
pub open spec fn code_address(registers: RegistersState) -> MemoryAddress {
    MemoryAddress {
        context: registers.spec_code_context(),
        segment: Segment::Code.spec_index(),
        virt: registers.program_counter as usize,
    }
}

/// The record of a read of `address` made through `channel` in the current cycle of `state`.
pub open spec fn read_record(
    state: GenerationState,
    channel: MemoryChannel,
    address: MemoryAddress,
) -> MemoryOp {
    MemoryOp {
        channel,
        cycle: state.traces.spec_clock(),
        address,
        kind: MemoryOpKind::Read,
        value: state.memory.spec_get(address),
    }
}

/// The record of a write of `value` to `address` made through `channel` in the current
/// cycle of `state`.
pub open spec fn write_record(
    state: GenerationState,
    channel: MemoryChannel,
    address: MemoryAddress,
    value: u32,
) -> MemoryOp {
    MemoryOp { channel, cycle: state.traces.spec_clock(), address, kind: MemoryOpKind::Write, value }
}

/// The record of the instruction fetch that `state` is about to make.
pub open spec fn code_read(state: GenerationState) -> MemoryOp {
    read_record(state, MemoryChannel::Code, code_address(state.registers))
}

/// Whether `after` is `before` with the instruction fetch logged and nothing else changed.
pub open spec fn fetched(before: GenerationState, after: GenerationState) -> bool {
    &&& after.registers == before.registers
    &&& after.memory == before.memory
    &&& after.traces.cpu@ == before.traces.cpu@
    &&& after.traces.memory_ops@ == before.traces.memory_ops@.push(code_read(before))
}

/// Whether `row` is the row with which a cycle of `state` starts: the clock, the registers
/// and the fetched instruction word are filled in, and every other column is 0.
pub open spec fn is_base_row(row: CpuColumnsView, state: GenerationState) -> bool {
    &&& row.clock == state.traces.cpu@.len() as u64
    &&& row.context == state.registers.context as u64
    &&& row.program_counter == state.registers.program_counter as u64
    &&& row.is_kernel_mode == (if state.registers.is_kernel { 1u64 } else { 0u64 })
    &&& row.code_context == state.registers.spec_code_context() as u64
    &&& row.opcode == state.memory.spec_get(code_address(state.registers)) as u64
    &&& row.op == OpsColumnsView::spec_blank()
    &&& row.exception == ExceptionColumnsView::spec_blank()
    &&& row.aux.is_blank()
}

/// The position, among the flags of a row, of the flag that stands for the class of `op`.
pub open spec fn flag_index(op: Operation) -> int {
    match op {
        Operation::Swap(_) => 0,
        Operation::Iszero | Operation::Eq => 1,
        Operation::Not => 2,
        Operation::Syscall(_, _, _) => 3,
        Operation::BinaryLogic(_) => 4,
        Operation::BinaryArithmetic(_, _, _, _) => 5,
        Operation::KeccakGeneral => 6,
        Operation::ProverInput => 7,
        Operation::Jump(_, _) | Operation::Jumpi(_, _) => 8,
        Operation::Branch(_, _, _, _) => 9,
        Operation::Pc => 10,
        Operation::GetContext => 11,
        Operation::SetContext => 12,
        Operation::Mload32Bytes(_, _, _) => 13,
        Operation::Mstore32Bytes => 14,
        Operation::ExitKernel => 15,
        Operation::MloadGeneral | Operation::MstoreGeneral => 16,
    }
}

/// The position of the exception flag among the flags of a row.
pub open spec fn exception_flag_index() -> int {
    17
}

/// `flags` with the flag of the class of `op` set.
pub open spec fn flagged(flags: OpsColumnsView, op: Operation) -> OpsColumnsView {
    match op {
        Operation::Swap(_) => OpsColumnsView { swap: 1, ..flags },
        Operation::Iszero | Operation::Eq => OpsColumnsView { eq_iszero: 1, ..flags },
        Operation::Not => OpsColumnsView { not: 1, ..flags },
        Operation::Syscall(_, _, _) => OpsColumnsView { syscall: 1, ..flags },
        Operation::BinaryLogic(_) => OpsColumnsView { logic_op: 1, ..flags },
        Operation::BinaryArithmetic(_, _, _, _) => OpsColumnsView { binary_op: 1, ..flags },
        Operation::KeccakGeneral => OpsColumnsView { keccak_general: 1, ..flags },
        Operation::ProverInput => OpsColumnsView { prover_input: 1, ..flags },
        Operation::Jump(_, _) | Operation::Jumpi(_, _) => OpsColumnsView { jumps: 1, ..flags },
        Operation::Branch(_, _, _, _) => OpsColumnsView { branch: 1, ..flags },
        Operation::Pc => OpsColumnsView { pc: 1, ..flags },
        Operation::GetContext => OpsColumnsView { get_context: 1, ..flags },
        Operation::SetContext => OpsColumnsView { set_context: 1, ..flags },
        Operation::Mload32Bytes(_, _, _) => OpsColumnsView { mload_32bytes: 1, ..flags },
        Operation::Mstore32Bytes => OpsColumnsView { mstore_32bytes: 1, ..flags },
        Operation::ExitKernel => OpsColumnsView { exit_kernel: 1, ..flags },
        Operation::MloadGeneral | Operation::MstoreGeneral => OpsColumnsView { m_op_general: 1, ..flags },
    }
}

/// The exception columns in which exactly the column of `code` is set.
pub open spec fn exception_columns(code: u8) -> ExceptionColumnsView {
    ExceptionColumnsView {
        out_of_gas: if code == 0 { 1 } else { 0 },
        invalid_opcode: if code == 1 { 1 } else { 0 },
        stack_underflow: if code == 2 { 1 } else { 0 },
        invalid_jump_destination: if code == 3 { 1 } else { 0 },
        invalid_jumpi_destination: if code == 4 { 1 } else { 0 },
        stack_overflow: if code == 5 { 1 } else { 0 },
    }
}

/// The row that records the exception `code`, made from the base row `row`.
pub open spec fn exception_row(row: CpuColumnsView, code: u8) -> CpuColumnsView {
    CpuColumnsView {
        op: OpsColumnsView { exception: 1, ..row.op },
        exception: exception_columns(code),
        ..row
    }
}

/// Reads `address` and makes the record of the read.  Nothing is logged yet.
pub fn mem_read_with_log(channel: MemoryChannel, address: MemoryAddress, state: &GenerationState) -> (read: (
    u32,
    MemoryOp,
))
    requires
        state.memory.well_formed(),
        address.context < state.memory.contexts@.len(),
        address.segment < SEGMENT_COUNT,
    ensures
        read.0 == state.memory.spec_get(address),
        read.1 == read_record(*state, channel, address),
{
    let val = state.memory.get(address);
    let op = MemoryOp::new(channel, state.traces.clock(), address, MemoryOpKind::Read, val);
    (val, op)
}

/// Makes the record of a write of `val` to `address`.  Memory keeps its old value until
/// the record is replayed.
pub fn mem_write_log(channel: MemoryChannel, address: MemoryAddress, state: &GenerationState, val: u32) -> (op:
    MemoryOp)
    ensures
        op == write_record(*state, channel, address, val),
{
    MemoryOp::new(channel, state.traces.clock(), address, MemoryOpKind::Write, val)
}

/// Reads the instruction word at `address`, makes the record of the read, and enters the
/// word in `row`.
pub fn mem_read_code_with_log_and_fill(
    address: MemoryAddress,
    state: &GenerationState,
    row: &mut CpuColumnsView,
) -> (read: (u32, MemoryOp))
    requires
        state.memory.well_formed(),
        address.context < state.memory.contexts@.len(),
        address.segment < SEGMENT_COUNT,
    ensures
        read.0 == state.memory.spec_get(address),
        read.1 == read_record(*state, MemoryChannel::Code, address),
        *final(row) == (CpuColumnsView { opcode: read.0 as u64, ..*old(row) }),
{
    let (val, op) = mem_read_with_log(MemoryChannel::Code, address, state);
    row.opcode = val as u64;
    (val, op)
}

/// Fetches the next instruction word: the read goes through the log like any other, and the
/// row receives the context and the word.
pub fn read_code_memory(state: &mut GenerationState, row: &mut CpuColumnsView) -> (opcode: u32)
    requires
        old(state).well_formed(),
    ensures
        opcode == old(state).memory.spec_get(code_address(old(state).registers)),
        *final(row) == (CpuColumnsView {
            code_context: old(state).registers.spec_code_context() as u64,
            opcode: opcode as u64,
            ..*old(row)
        }),
        fetched(*old(state), *final(state)),
        final(state).well_formed(),
{
    let code_context = state.registers.code_context();
    row.code_context = code_context as u64;

    let address = MemoryAddress::new(code_context, Segment::Code, state.registers.program_counter as usize);
    let (opcode, mem_log) = mem_read_code_with_log_and_fill(address, state, row);

    state.traces.push_memory(mem_log);

    opcode
}

/// Starts the row of a cycle.  The row has the right values for the clock, the registers and
/// the instruction fetch, and is blank otherwise; it serves a successful operation and an
/// exception alike.  The fetched word is returned with it.
pub fn base_row(state: &mut GenerationState) -> (started: (CpuColumnsView, u32))
    requires
        old(state).well_formed(),
    ensures
        is_base_row(started.0, *old(state)),
        started.1 == old(state).memory.spec_get(code_address(old(state).registers)),
        fetched(*old(state), *final(state)),
        final(state).well_formed(),
{
    let mut row: CpuColumnsView = CpuColumnsView::default();
    row.clock = state.traces.clock() as u64;
    row.context = state.registers.context as u64;
    row.program_counter = state.registers.program_counter as u64;
    row.is_kernel_mode = if state.registers.is_kernel { 1 } else { 0 };

    let opcode = read_code_memory(state, &mut row);
    (row, opcode)
}

/// Sets the flag of the class of `op` in `row`.  On a row whose flags are all clear, that
/// flag is then the only one set.
pub fn fill_op_flag(op: Operation, row: &mut CpuColumnsView)
    ensures
        *final(row) == (CpuColumnsView { op: flagged(old(row).op, op), ..*old(row) }),
        all_clear(old(row).op.flags()) ==> one_hot_at(final(row).op.flags(), flag_index(op)),
        flag_index(op) != exception_flag_index(),
{
    match op {
        Operation::Swap(_) => { row.op.swap = 1; },
        Operation::Iszero | Operation::Eq => { row.op.eq_iszero = 1; },
        Operation::Not => { row.op.not = 1; },
        Operation::Syscall(_, _, _) => { row.op.syscall = 1; },
        Operation::BinaryLogic(_) => { row.op.logic_op = 1; },
        Operation::BinaryArithmetic(_, _, _, _) => { row.op.binary_op = 1; },
        Operation::KeccakGeneral => { row.op.keccak_general = 1; },
        Operation::ProverInput => { row.op.prover_input = 1; },
        Operation::Jump(_, _) | Operation::Jumpi(_, _) => { row.op.jumps = 1; },
        Operation::Branch(_, _, _, _) => { row.op.branch = 1; },
        Operation::Pc => { row.op.pc = 1; },
        Operation::GetContext => { row.op.get_context = 1; },
        Operation::SetContext => { row.op.set_context = 1; },
        Operation::Mload32Bytes(_, _, _) => { row.op.mload_32bytes = 1; },
        Operation::Mstore32Bytes => { row.op.mstore_32bytes = 1; },
        Operation::ExitKernel => { row.op.exit_kernel = 1; },
        Operation::MloadGeneral | Operation::MstoreGeneral => { row.op.m_op_general = 1; },
    }
    proof {
        let before = old(row).op.flags();
        let after = row.op.flags();
        if all_clear(before) {
            assert forall|i: int| 0 <= i < after.len() implies #[trigger] after[i] == (if i == flag_index(op) {
                1u64
            } else {
                0u64
            }) by {
                assert(before[i] == 0);
            }
        }
    }
}

/// Records the exception `exc_code`: the exception flag and the column of the code are set
/// in `row`, and the row is appended to the trace.
pub fn generate_exception(exc_code: u8, state: &mut GenerationState, row: CpuColumnsView)
    requires
        (exc_code as int) < NUM_EXCEPTION_CODES,
    ensures
        final(state).registers == old(state).registers,
        final(state).memory == old(state).memory,
        final(state).traces.memory_ops@ == old(state).traces.memory_ops@,
        final(state).traces.cpu@ == old(state).traces.cpu@.push(exception_row(row, exc_code)),
        one_hot_at(exception_row(row, exc_code).exception.flags(), exc_code as int),
        all_clear(row.op.flags()) ==> one_hot_at(exception_row(row, exc_code).op.flags(), exception_flag_index()),
{
    let ghost given = row;
    let mut row = row;
    row.op.exception = 1;
    row.exception = ExceptionColumnsView {
        out_of_gas: if exc_code == 0 { 1 } else { 0 },
        invalid_opcode: if exc_code == 1 { 1 } else { 0 },
        stack_underflow: if exc_code == 2 { 1 } else { 0 },
        invalid_jump_destination: if exc_code == 3 { 1 } else { 0 },
        invalid_jumpi_destination: if exc_code == 4 { 1 } else { 0 },
        stack_overflow: if exc_code == 5 { 1 } else { 0 },
    };
    proof {
        let before = given.op.flags();
        let after = row.op.flags();
        if all_clear(before) {
            assert forall|i: int| 0 <= i < after.len() implies #[trigger] after[i] == (if i
                == exception_flag_index() {
                1u64
            } else {
                0u64
            }) by {
                assert(before[i] == 0);
            }
        }
    }
    state.traces.push_cpu(row);
}

} // verus!
