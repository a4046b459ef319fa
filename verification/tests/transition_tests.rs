use mips_witness::columns::{AuxColumns, CpuColumnsView, ExceptionColumnsView, OpsColumnsView};
use mips_witness::errors::ProgramError;
use mips_witness::execution::{apply_execution, Execution, PC_STEP};
use mips_witness::generation::GenerationState;
use mips_witness::memory::{
    MemoryAddress, MemoryChannel, MemoryOp, MemoryOpKind, MemoryState, Segment,
};
use mips_witness::operation::{BinaryOperator, Operation};
use mips_witness::row::{
    base_row, fill_op_flag, generate_exception, mem_read_with_log, mem_write_log, read_code_memory,
};
use mips_witness::state::RegistersState;
use mips_witness::transition::{
    handle_error, perform_op, transition, try_perform_instruction, Fault, KernelFault,
    TransitionError,
};

const ADD_1_2_3: u32 = (1 << 21) | (2 << 16) | (3 << 11) | 0x20;
const JUMP: u32 = (0x02 << 26) | 0x40;
const UNKNOWN: u32 = 0x3f << 26;

fn op_flags(ops: &OpsColumnsView) -> [u64; 18] {
    [
        ops.swap, ops.eq_iszero, ops.not, ops.syscall, ops.logic_op, ops.binary_op,
        ops.keccak_general, ops.prover_input, ops.jumps, ops.branch, ops.pc, ops.get_context,
        ops.set_context, ops.mload_32bytes, ops.mstore_32bytes, ops.exit_kernel, ops.m_op_general,
        ops.exception,
    ]
}

fn exception_flags(exc: &ExceptionColumnsView) -> [u64; 6] {
    [
        exc.out_of_gas, exc.invalid_opcode, exc.stack_underflow, exc.invalid_jump_destination,
        exc.invalid_jumpi_destination, exc.stack_overflow,
    ]
}

fn one_hot(flags: &[u64]) -> Option<usize> {
    let set: Vec<usize> = (0..flags.len()).filter(|&i| flags[i] != 0).collect();
    if set.len() == 1 && flags[set[0]] == 1 {
        Some(set[0])
    } else {
        None
    }
}

/// A state with two contexts whose next instruction, in context 1 at `pc`, is `encoding`.
fn state_with(encoding: u32, pc: u32, is_kernel: bool) -> GenerationState {
    let mut memory = MemoryState::new(2);
    let context = if is_kernel { 0 } else { 1 };
    memory.set(MemoryAddress::new(context, Segment::Code, pc as usize), encoding.swap_bytes());
    GenerationState::new(RegistersState { program_counter: pc, context: 1, is_kernel }, memory)
}

/// A state in user mode whose memory holds nothing, about to fetch at `pc`.
fn blank_state_at(pc: u32) -> GenerationState {
    GenerationState::new(RegistersState { program_counter: pc, context: 1, is_kernel: false }, MemoryState::new(2))
}

fn stack(virt: usize) -> MemoryAddress {
    MemoryAddress::new(1, Segment::Stack, virt)
}

fn write(cycle: usize, address: MemoryAddress, value: u32) -> MemoryOp {
    MemoryOp::new(MemoryChannel::GeneralPurpose(0), cycle, address, MemoryOpKind::Write, value)
}

fn code_fetch(cycle: usize, context: usize, pc: u32, word: u32) -> MemoryOp {
    MemoryOp::new(
        MemoryChannel::Code,
        cycle,
        MemoryAddress::new(context, Segment::Code, pc as usize),
        MemoryOpKind::Read,
        word,
    )
}

fn quiet(state: &GenerationState) -> Execution {
    Execution { registers: state.registers, memory_ops: vec![], aux: AuxColumns::blank(), result: Ok(()) }
}

fn failing_early(_op: Operation, state: &GenerationState, _row: &CpuColumnsView) -> Execution {
    Execution {
        registers: state.registers,
        memory_ops: vec![],
        aux: AuxColumns::blank(),
        result: Err(ProgramError::OutOfGas),
    }
}

#[test]
fn add_commits_and_advances_by_four() {
    let mut state = state_with(ADD_1_2_3, 0x100, false);
    let result = transition(&mut state, |op, st: &GenerationState, row: &CpuColumnsView| {
        assert_eq!(op, Operation::BinaryArithmetic(BinaryOperator::ADD, 1, 2, 3));
        assert_eq!(row.op.binary_op, 1);
        let mut aux = AuxColumns::blank();
        aux.general[0] = 30;
        Execution {
            registers: st.registers,
            memory_ops: vec![write(st.traces.clock(), stack(3), 30)],
            aux,
            result: Ok(()),
        }
    });
    assert_eq!(result, Ok(()));
    assert_eq!(state.registers, RegistersState { program_counter: 0x104, context: 1, is_kernel: false });
    assert_eq!(state.traces.cpu.len(), 1);
    let row = state.traces.cpu[0];
    assert_eq!(one_hot(&op_flags(&row.op)), Some(5));
    assert_eq!(row.op.binary_op, 1);
    assert_eq!(exception_flags(&row.exception), [0; 6]);
    assert_eq!(row.clock, 0);
    assert_eq!(row.context, 1);
    assert_eq!(row.code_context, 1);
    assert_eq!(row.program_counter, 0x100);
    assert_eq!(row.is_kernel_mode, 0);
    assert_eq!(row.opcode, ADD_1_2_3.swap_bytes() as u64);
    assert_eq!(row.aux.general[0], 30);
    assert_eq!(
        state.traces.memory_ops,
        vec![code_fetch(0, 1, 0x100, ADD_1_2_3.swap_bytes()), write(0, stack(3), 30)]
    );
    assert_eq!(state.memory.get(stack(3)), 30);
}

#[test]
fn jump_sets_its_own_program_counter() {
    let mut state = state_with(JUMP, 0x100, false);
    let result = transition(&mut state, |op, st: &GenerationState, row: &CpuColumnsView| {
        assert_eq!(op, Operation::Jumpi(0, 0x40));
        assert_eq!(row.op.jumps, 1);
        let mut execution = quiet(st);
        execution.registers.program_counter = 0x40 << 2;
        execution
    });
    assert_eq!(result, Ok(()));
    // The target stands as the executor set it; nothing is added.
    assert_eq!(state.registers.program_counter, 0x100);
    assert_eq!(state.registers.program_counter, 0x40 << 2);
    assert_eq!(one_hot(&op_flags(&state.traces.cpu[0].op)), Some(8));
}

#[test]
fn user_fault_mid_execution_becomes_exception_row() {
    let mut state = state_with(ADD_1_2_3, 0x200, false);
    state.memory.set(stack(0), 5);
    let before = state.registers;
    let result = transition(&mut state, |_op, st: &GenerationState, _row: &CpuColumnsView| {
        // The executor has moved the registers and logged a write when it runs dry.
        Execution {
            registers: RegistersState { program_counter: 0x999, context: 0, is_kernel: false },
            memory_ops: vec![write(st.traces.clock(), stack(0), 77), write(st.traces.clock(), stack(1), 78)],
            aux: AuxColumns::blank(),
            result: Err(ProgramError::StackUnderflow),
        }
    });
    assert_eq!(result, Ok(()));
    assert_eq!(state.registers, before);
    assert_eq!(state.memory.get(stack(0)), 5);
    assert_eq!(state.memory.get(stack(1)), 0);
    assert_eq!(state.traces.cpu.len(), 1);
    let row = state.traces.cpu[0];
    assert_eq!(one_hot(&op_flags(&row.op)), Some(17));
    assert_eq!(row.op.exception, 1);
    assert_eq!(one_hot(&exception_flags(&row.exception)), Some(2));
    assert_eq!(row.program_counter, 0x200);
    assert_eq!(row.context, 1);
    // Of the faulted attempt nothing is left in the log; the exception cycle fetched once.
    assert_eq!(state.traces.memory_ops, vec![code_fetch(0, 1, 0x200, ADD_1_2_3.swap_bytes())]);
}

#[test]
fn every_coded_fault_sets_its_own_column() {
    let faults = [
        (ProgramError::OutOfGas, 0),
        (ProgramError::InvalidOpcode, 1),
        (ProgramError::StackUnderflow, 2),
        (ProgramError::InvalidJumpDestination, 3),
        (ProgramError::InvalidJumpiDestination, 4),
        (ProgramError::StackOverflow, 5),
    ];
    for (fault, code) in faults {
        let mut state = state_with(ADD_1_2_3, 0, false);
        let result = transition(&mut state, |_op, st: &GenerationState, _row: &CpuColumnsView| {
            let mut execution = quiet(st);
            execution.result = Err(fault);
            execution
        });
        assert_eq!(result, Ok(()));
        let row = state.traces.cpu[0];
        assert_eq!(one_hot(&exception_flags(&row.exception)), Some(code));
        assert_eq!(one_hot(&op_flags(&row.op)), Some(17));
    }
}

#[test]
fn unknown_opcode_in_user_mode_becomes_exception_row() {
    let mut state = state_with(UNKNOWN, 0x10, false);
    state.memory.set(stack(2), 9);
    let before = state.registers;
    let result = transition(&mut state, |_op, _st: &GenerationState, _row: &CpuColumnsView| -> Execution {
        panic!("no executor runs for a word that does not decode")
    });
    assert_eq!(result, Ok(()));
    assert_eq!(state.registers, before);
    assert_eq!(state.traces.cpu.len(), 1);
    let row = state.traces.cpu[0];
    assert_eq!(row.op.exception, 1);
    assert_eq!(one_hot(&exception_flags(&row.exception)), Some(1));
    assert_eq!(state.memory.get(stack(2)), 9);
    assert_eq!(state.memory.get(MemoryAddress::new(1, Segment::Code, 0x10)), UNKNOWN.swap_bytes());
    assert_eq!(state.traces.memory_ops, vec![code_fetch(0, 1, 0x10, UNKNOWN.swap_bytes())]);
}

#[test]
fn unknown_opcode_in_kernel_mode_aborts() {
    let mut state = state_with(UNKNOWN, 0x10, true);
    let general = MemoryAddress::new(0, Segment::KernelGeneral, 1);
    state.memory.set(general, 0xabcd);
    let result = transition(&mut state, failing_early);
    assert_eq!(
        result,
        Err(TransitionError::KernelFault(KernelFault {
            error: ProgramError::InvalidOpcode,
            operation: None,
            program_counter: 0x10,
            memory: vec![0, 0xabcd],
        }))
    );
    assert!(state.traces.cpu.is_empty());
    assert_eq!(state.memory.get(general), 0xabcd);
}

#[test]
fn executor_fault_in_kernel_mode_aborts() {
    let mut state = state_with(ADD_1_2_3, 0x20, true);
    let result = transition(&mut state, |_op, st: &GenerationState, _row: &CpuColumnsView| {
        let mut execution = quiet(st);
        execution.memory_ops = vec![write(0, MemoryAddress::new(0, Segment::Stack, 0), 1)];
        execution.result = Err(ProgramError::StackUnderflow);
        execution
    });
    assert_eq!(
        result,
        Err(TransitionError::KernelFault(KernelFault {
            error: ProgramError::StackUnderflow,
            operation: Some(Operation::BinaryArithmetic(BinaryOperator::ADD, 1, 2, 3)),
            program_counter: 0x20,
            memory: vec![],
        }))
    );
    // No exception row, and the logged write was not applied.
    assert!(state.traces.cpu.is_empty());
    assert_eq!(state.memory.get(MemoryAddress::new(0, Segment::Stack, 0)), 0);
}

#[test]
fn fault_without_code_ends_the_run() {
    for fault in [
        ProgramError::KernelPanic,
        ProgramError::MemoryError,
        ProgramError::GasLimitError,
        ProgramError::InterpreterError,
    ] {
        let mut state = state_with(ADD_1_2_3, 0, false);
        let before = state.registers;
        let result = transition(&mut state, |_op, st: &GenerationState, _row: &CpuColumnsView| {
            let mut execution = quiet(st);
            execution.memory_ops = vec![write(0, stack(0), 1)];
            execution.result = Err(fault);
            execution
        });
        assert_eq!(result, Err(TransitionError::UnhandledFault(fault)));
        assert_eq!(state.registers, before);
        assert!(state.traces.cpu.is_empty());
        assert!(state.traces.memory_ops.is_empty());
        assert_eq!(state.memory.get(stack(0)), 0);
    }
}

#[test]
fn operation_outside_memory_is_a_memory_error() {
    let mut state = state_with(ADD_1_2_3, 0, false);
    let result = transition(&mut state, |_op, st: &GenerationState, _row: &CpuColumnsView| {
        let mut execution = quiet(st);
        execution.memory_ops = vec![
            write(0, stack(0), 1),
            write(0, MemoryAddress { context: 7, segment: 1, virt: 0 }, 2),
            write(0, stack(1), 3),
        ];
        execution
    });
    assert_eq!(result, Err(TransitionError::UnhandledFault(ProgramError::MemoryError)));
    assert_eq!(state.memory.get(stack(0)), 0);
    assert_eq!(state.memory.get(stack(1)), 0);
    assert!(state.traces.memory_ops.is_empty());
    assert!(state.traces.cpu.is_empty());
}

#[test]
fn commit_applies_exactly_the_ops_of_the_cycle() {
    let mut state = state_with(ADD_1_2_3, 0, false);
    // An entry that is in the log from earlier, and was never applied, stays unapplied.
    let stale = write(0, stack(9), 123);
    state.traces.push_memory(stale);
    let result = transition(&mut state, |_op, st: &GenerationState, _row: &CpuColumnsView| {
        let mut execution = quiet(st);
        execution.memory_ops = vec![write(0, stack(1), 10), write(0, stack(2), 20), write(0, stack(1), 11)];
        execution
    });
    assert_eq!(result, Ok(()));
    assert_eq!(state.memory.get(stack(1)), 11);
    assert_eq!(state.memory.get(stack(2)), 20);
    assert_eq!(state.memory.get(stack(9)), 0);
    assert_eq!(state.traces.memory_ops.len(), 5);
    assert_eq!(state.traces.memory_ops[0], stale);
}

#[test]
fn clock_advances_with_each_cycle() {
    let mut state = state_with(ADD_1_2_3, 0, false);
    state.memory.set(MemoryAddress::new(1, Segment::Code, 4), UNKNOWN.swap_bytes());
    assert_eq!(transition(&mut state, |_op, st: &GenerationState, _row: &CpuColumnsView| quiet(st)), Ok(()));
    assert_eq!(transition(&mut state, |_op, st: &GenerationState, _row: &CpuColumnsView| quiet(st)), Ok(()));
    assert_eq!(state.traces.cpu.len(), 2);
    assert_eq!(state.traces.cpu[0].clock, 0);
    assert_eq!(state.traces.cpu[0].op.binary_op, 1);
    assert_eq!(state.traces.cpu[1].clock, 1);
    assert_eq!(state.traces.cpu[1].op.exception, 1);
    assert_eq!(state.traces.cpu[1].program_counter, 4);
    assert_eq!(state.traces.memory_ops[1].cycle, 1);
}

#[test]
fn program_counter_at_the_top_cannot_advance() {
    // Nothing is stored that high; the cell reads as zero, which is a shift.
    let mut state = blank_state_at(u32::MAX - 4);
    assert_eq!(transition(&mut state, |_op, st: &GenerationState, _row: &CpuColumnsView| quiet(st)), Ok(()));
    assert_eq!(state.registers.program_counter, u32::MAX);
    let mut state = blank_state_at(u32::MAX - 3);
    assert_eq!(
        transition(&mut state, |_op, st: &GenerationState, _row: &CpuColumnsView| quiet(st)),
        Err(TransitionError::UnhandledFault(ProgramError::InterpreterError))
    );
}

#[test]
fn program_counter_overflow_is_an_interpreter_error() {
    let mut state = blank_state_at(u32::MAX - 2);
    let result = transition(&mut state, |_op, st: &GenerationState, _row: &CpuColumnsView| quiet(st));
    assert_eq!(result, Err(TransitionError::UnhandledFault(ProgramError::InterpreterError)));
    assert_eq!(state.registers.program_counter, u32::MAX - 2);
    assert!(state.traces.cpu.is_empty());
}

#[test]
fn try_perform_instruction_reports_the_operation() {
    let mut state = state_with(ADD_1_2_3, 0, false);
    let result = try_perform_instruction(&mut state, failing_early);
    assert_eq!(
        result,
        Err(Fault {
            error: ProgramError::OutOfGas,
            operation: Some(Operation::BinaryArithmetic(BinaryOperator::ADD, 1, 2, 3)),
        })
    );
    // Nothing is undone at this level: the fetch is in the log.
    assert_eq!(state.traces.memory_ops.len(), 1);

    let mut state = state_with(UNKNOWN, 0, false);
    let result = try_perform_instruction(&mut state, failing_early);
    assert_eq!(result, Err(Fault { error: ProgramError::InvalidOpcode, operation: None }));
}

#[test]
fn perform_op_adds_four_unless_control_is_redirected() {
    let straight = [
        Operation::Swap(1),
        Operation::Iszero,
        Operation::Not,
        Operation::Eq,
        Operation::BinaryLogic(mips_witness::operation::LogicOp::And),
        Operation::BinaryArithmetic(BinaryOperator::SLL, 1, 2, 3),
        Operation::KeccakGeneral,
        Operation::ProverInput,
        Operation::Pc,
        Operation::GetContext,
        Operation::SetContext,
        Operation::Mload32Bytes(1, 2, 3),
        Operation::Mstore32Bytes,
        Operation::MloadGeneral,
        Operation::MstoreGeneral,
    ];
    let redirecting = [
        Operation::Syscall(1, 0, false),
        Operation::ExitKernel,
        Operation::Jump(0, 1),
        Operation::Jumpi(0, 4),
        Operation::Branch(mips_witness::operation::Cond::EQ, 1, 2, 3),
    ];
    for op in straight {
        assert!(!op.redirects_control());
        let mut state = state_with(0, 0x40, false);
        let result = perform_op(&mut state, op, CpuColumnsView::default(), |_op, st: &GenerationState, _row: &CpuColumnsView| quiet(st));
        assert_eq!(result, Ok(()));
        assert_eq!(state.registers.program_counter, 0x40 + PC_STEP);
    }
    for op in redirecting {
        assert!(op.redirects_control());
        let mut state = state_with(0, 0x40, false);
        let result = perform_op(&mut state, op, CpuColumnsView::default(), |_op, st: &GenerationState, _row: &CpuColumnsView| {
            let mut execution = quiet(st);
            execution.registers.program_counter = 0x1234;
            execution
        });
        assert_eq!(result, Ok(()));
        assert_eq!(state.registers.program_counter, 0x1234);
    }
}

#[test]
fn apply_execution_refuses_registers_outside_memory() {
    let mut state = state_with(0, 0, false);
    let before = state.registers;
    let execution = Execution {
        registers: RegistersState { program_counter: 0, context: 2, is_kernel: false },
        memory_ops: vec![write(0, stack(0), 1)],
        aux: AuxColumns::blank(),
        result: Ok(()),
    };
    let result = apply_execution(&mut state, Operation::Not, CpuColumnsView::default(), execution);
    assert_eq!(result, Err(ProgramError::MemoryError));
    assert_eq!(state.registers, before);
    assert!(state.traces.memory_ops.is_empty());
    assert!(state.traces.cpu.is_empty());
}

#[test]
fn apply_execution_logs_up_to_the_first_bad_address() {
    let mut state = state_with(0, 0, false);
    let bad = write(0, MemoryAddress { context: 1, segment: 3, virt: 0 }, 2);
    let execution = Execution {
        registers: RegistersState { program_counter: 80, context: 0, is_kernel: false },
        memory_ops: vec![write(0, stack(0), 1), bad, write(0, stack(1), 3)],
        aux: AuxColumns::blank(),
        result: Err(ProgramError::StackOverflow),
    };
    let result = apply_execution(&mut state, Operation::Not, CpuColumnsView::default(), execution);
    // The bad address is found before the executor's own fault is looked at.
    assert_eq!(result, Err(ProgramError::MemoryError));
    assert_eq!(state.traces.memory_ops, vec![write(0, stack(0), 1)]);
    assert_eq!(state.registers.program_counter, 80);
    assert!(state.traces.cpu.is_empty());
    assert_eq!(state.memory.get(stack(0)), 0);
}

#[test]
fn apply_execution_keeps_the_log_of_a_faulted_operation() {
    let mut state = state_with(0, 0, false);
    let execution = Execution {
        registers: RegistersState { program_counter: 80, context: 0, is_kernel: true },
        memory_ops: vec![write(0, stack(0), 1), write(0, stack(1), 3)],
        aux: AuxColumns::blank(),
        result: Err(ProgramError::StackOverflow),
    };
    let result = apply_execution(&mut state, Operation::Not, CpuColumnsView::default(), execution);
    assert_eq!(result, Err(ProgramError::StackOverflow));
    assert_eq!(state.traces.memory_ops.len(), 2);
    assert_eq!(state.registers, RegistersState { program_counter: 80, context: 0, is_kernel: true });
    assert!(state.traces.cpu.is_empty());
}

#[test]
fn apply_execution_commits_the_row_with_the_auxiliary_columns() {
    let mut state = state_with(0, 8, false);
    let mut row = CpuColumnsView::default();
    row.clock = 3;
    fill_op_flag(Operation::Not, &mut row);
    let mut aux = AuxColumns::blank();
    aux.general[7] = 99;
    aux.mem_channels[4].used = 1;
    let execution = Execution { registers: state.registers, memory_ops: vec![], aux, result: Ok(()) };
    assert_eq!(apply_execution(&mut state, Operation::Not, row, execution), Ok(()));
    let mut expected = row;
    expected.aux = aux;
    assert_eq!(state.traces.cpu, vec![expected]);
    assert_eq!(state.registers.program_counter, 12);
}

#[test]
fn handle_error_leaves_registers_and_memory() {
    let mut state = state_with(ADD_1_2_3, 0x30, false);
    state.memory.set(stack(0), 4);
    let before = state.registers;
    assert_eq!(handle_error(&mut state, ProgramError::StackOverflow), Ok(()));
    assert_eq!(state.registers, before);
    assert_eq!(state.memory.get(stack(0)), 4);
    assert_eq!(state.traces.cpu.len(), 1);
    assert_eq!(one_hot(&exception_flags(&state.traces.cpu[0].exception)), Some(5));
    assert_eq!(state.traces.memory_ops, vec![code_fetch(0, 1, 0x30, ADD_1_2_3.swap_bytes())]);

    let mut state = state_with(ADD_1_2_3, 0x30, false);
    assert_eq!(
        handle_error(&mut state, ProgramError::KernelPanic),
        Err(TransitionError::UnhandledFault(ProgramError::KernelPanic))
    );
    assert!(state.traces.cpu.is_empty());
    assert!(state.traces.memory_ops.is_empty());
}

#[test]
fn base_row_fills_the_common_columns() {
    let mut state = state_with(JUMP, 0x44, true);
    state.traces.push_cpu(CpuColumnsView::default());
    let (row, opcode) = base_row(&mut state);
    assert_eq!(opcode, JUMP.swap_bytes());
    let mut expected = CpuColumnsView::default();
    expected.clock = 1;
    expected.context = 1;
    expected.code_context = 0;
    expected.program_counter = 0x44;
    expected.is_kernel_mode = 1;
    expected.opcode = JUMP.swap_bytes() as u64;
    assert_eq!(row, expected);
    assert_eq!(state.traces.memory_ops, vec![code_fetch(1, 0, 0x44, JUMP.swap_bytes())]);
    assert_eq!(state.traces.cpu.len(), 1);
}

#[test]
fn read_code_memory_goes_through_the_log() {
    let mut state = state_with(ADD_1_2_3, 0x8, false);
    let mut row = CpuColumnsView::default();
    row.clock = 77;
    let opcode = read_code_memory(&mut state, &mut row);
    assert_eq!(opcode, ADD_1_2_3.swap_bytes());
    assert_eq!(row.code_context, 1);
    assert_eq!(row.opcode, ADD_1_2_3.swap_bytes() as u64);
    assert_eq!(row.clock, 77);
    assert_eq!(state.traces.memory_ops, vec![code_fetch(0, 1, 0x8, ADD_1_2_3.swap_bytes())]);
    // An address that holds no instruction reads as zero.
    state.registers.program_counter = 0x1000;
    assert_eq!(read_code_memory(&mut state, &mut row), 0);
}

#[test]
fn fill_op_flag_sets_one_flag_per_class() {
    let cases = [
        (Operation::Swap(2), 0),
        (Operation::Iszero, 1),
        (Operation::Eq, 1),
        (Operation::Not, 2),
        (Operation::Syscall(0, 1, true), 3),
        (Operation::BinaryLogic(mips_witness::operation::LogicOp::Xor), 4),
        (Operation::BinaryArithmetic(BinaryOperator::ADD, 1, 2, 3), 5),
        (Operation::KeccakGeneral, 6),
        (Operation::ProverInput, 7),
        (Operation::Jump(0, 1), 8),
        (Operation::Jumpi(0, 1), 8),
        (Operation::Branch(mips_witness::operation::Cond::NE, 0, 1, 2), 9),
        (Operation::Pc, 10),
        (Operation::GetContext, 11),
        (Operation::SetContext, 12),
        (Operation::Mload32Bytes(0, 1, 2), 13),
        (Operation::Mstore32Bytes, 14),
        (Operation::ExitKernel, 15),
        (Operation::MloadGeneral, 16),
        (Operation::MstoreGeneral, 16),
    ];
    for (op, index) in cases {
        let mut row = CpuColumnsView::default();
        row.clock = 5;
        fill_op_flag(op, &mut row);
        assert_eq!(one_hot(&op_flags(&row.op)), Some(index), "{op:?}");
        let mut rest = row;
        rest.op = OpsColumnsView::blank();
        let mut expected = CpuColumnsView::default();
        expected.clock = 5;
        assert_eq!(rest, expected);
    }
}

#[test]
fn generate_exception_appends_the_exception_row() {
    for code in 0..6u8 {
        let mut state = state_with(0, 0, false);
        let mut row = CpuColumnsView::default();
        row.program_counter = 12;
        generate_exception(code, &mut state, row);
        assert_eq!(state.traces.cpu.len(), 1);
        let recorded = state.traces.cpu[0];
        assert_eq!(one_hot(&exception_flags(&recorded.exception)), Some(code as usize));
        assert_eq!(one_hot(&op_flags(&recorded.op)), Some(17));
        assert_eq!(recorded.program_counter, 12);
        assert!(state.traces.memory_ops.is_empty());
    }
}

#[test]
fn read_and_write_records() {
    let mut state = state_with(0, 0, false);
    state.memory.set(stack(4), 55);
    state.traces.push_cpu(CpuColumnsView::default());
    let (value, record) = mem_read_with_log(MemoryChannel::GeneralPurpose(1), stack(4), &state);
    assert_eq!(value, 55);
    assert_eq!(
        record,
        MemoryOp {
            channel: MemoryChannel::GeneralPurpose(1),
            cycle: 1,
            address: stack(4),
            kind: MemoryOpKind::Read,
            value: 55,
        }
    );
    let record = mem_write_log(MemoryChannel::GeneralPurpose(2), stack(4), &state, 66);
    assert_eq!(
        record,
        MemoryOp {
            channel: MemoryChannel::GeneralPurpose(2),
            cycle: 1,
            address: stack(4),
            kind: MemoryOpKind::Write,
            value: 66,
        }
    );
    // Making the record stores nothing and logs nothing.
    assert_eq!(state.memory.get(stack(4)), 55);
    assert!(state.traces.memory_ops.is_empty());
}

#[test]
fn executor_built_from_the_record_helpers() {
    let mut state = state_with(ADD_1_2_3, 0, false);
    state.memory.set(stack(1), 20);
    state.memory.set(stack(2), 22);
    let result = transition(&mut state, |op, st: &GenerationState, _row: &CpuColumnsView| match op {
        Operation::BinaryArithmetic(BinaryOperator::ADD, rs, rt, rd) => {
            let (a, log_a) = mem_read_with_log(MemoryChannel::GeneralPurpose(0), stack(rs as usize), st);
            let (b, log_b) = mem_read_with_log(MemoryChannel::GeneralPurpose(1), stack(rt as usize), st);
            let log_out =
                mem_write_log(MemoryChannel::GeneralPurpose(2), stack(rd as usize), st, a.wrapping_add(b));
            Execution {
                registers: st.registers,
                memory_ops: vec![log_a, log_b, log_out],
                aux: AuxColumns::blank(),
                result: Ok(()),
            }
        }
        _ => failing_early(op, st, _row),
    });
    assert_eq!(result, Ok(()));
    assert_eq!(state.memory.get(stack(3)), 42);
    assert_eq!(state.traces.memory_ops.len(), 4);
    assert_eq!(state.registers.program_counter, 4);
}
