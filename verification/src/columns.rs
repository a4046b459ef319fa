//! The columns of one trace row.  Every column holds the canonical value of a field element.

use vstd::prelude::*;
use crate::memory::NUM_GP_CHANNELS;

verus! {

/// Number of shared auxiliary columns.
pub const NUM_GENERAL_COLUMNS: usize = 8;

/// One flag per class of operation, and one for the exception cycle.  A flag is 0 or 1.
#[derive(Clone, Copy, Debug, PartialEq, Eq, Structural)]
pub struct OpsColumnsView {
    pub swap: u64,
    pub eq_iszero: u64,
    pub not: u64,
    pub syscall: u64,
    pub logic_op: u64,
    pub binary_op: u64,
    pub keccak_general: u64,
    pub prover_input: u64,
    pub jumps: u64,
    pub branch: u64,
    pub pc: u64,
    pub get_context: u64,
    pub set_context: u64,
    pub mload_32bytes: u64,
    pub mstore_32bytes: u64,
    pub exit_kernel: u64,
    pub m_op_general: u64,
    pub exception: u64,
}

/// One column per exception code.  A column is 0 or 1.
#[derive(Clone, Copy, Debug, PartialEq, Eq, Structural)]
pub struct ExceptionColumnsView {
    pub out_of_gas: u64,
    pub invalid_opcode: u64,
    pub stack_underflow: u64,
    pub invalid_jump_destination: u64,
    pub invalid_jumpi_destination: u64,
    pub stack_overflow: u64,
}

/// The description of one general purpose memory access of the cycle.
#[derive(Clone, Copy, Debug, PartialEq, Eq, Structural)]
pub struct MemoryChannelView {
    pub used: u64,
    pub is_read: u64,
    pub addr_context: u64,
    pub addr_segment: u64,
    pub addr_virtual: u64,
    pub value: u64,
}

/// The columns that an operation fills in for its own use.
#[derive(Clone, Copy, Debug, PartialEq, Eq)]
pub struct AuxColumns {
    pub mem_channels: [MemoryChannelView; NUM_GP_CHANNELS],
    pub general: [u64; NUM_GENERAL_COLUMNS],
}

/// One row of the trace: the values of all columns in one cycle.
#[derive(Clone, Copy, Debug, PartialEq, Eq)]
pub struct CpuColumnsView {
    pub clock: u64,
    pub context: u64,
    pub code_context: u64,
    pub program_counter: u64,
    pub is_kernel_mode: u64,
    /// The instruction word as fetched.
    pub opcode: u64,
    pub op: OpsColumnsView,
    pub exception: ExceptionColumnsView,
    pub aux: AuxColumns,
}

impl OpsColumnsView {
    /// The flags in a fixed order.
    pub open spec fn flags(self) -> Seq<u64> {
        seq![
            self.swap,
            self.eq_iszero,
            self.not,
            self.syscall,
            self.logic_op,
            self.binary_op,
            self.keccak_general,
            self.prover_input,
            self.jumps,
            self.branch,
            self.pc,
            self.get_context,
            self.set_context,
            self.mload_32bytes,
            self.mstore_32bytes,
            self.exit_kernel,
            self.m_op_general,
            self.exception,
        ]
    }

    /// No flag is set.
    pub open spec fn spec_blank() -> OpsColumnsView {
        OpsColumnsView {
            swap: 0,
            eq_iszero: 0,
            not: 0,
            syscall: 0,
            logic_op: 0,
            binary_op: 0,
            keccak_general: 0,
            prover_input: 0,
            jumps: 0,
            branch: 0,
            pc: 0,
            get_context: 0,
            set_context: 0,
            mload_32bytes: 0,
            mstore_32bytes: 0,
            exit_kernel: 0,
            m_op_general: 0,
            exception: 0,
        }
    }

    #[verifier::when_used_as_spec(spec_blank)]
    pub fn blank() -> (ops: OpsColumnsView)
        ensures
            ops == Self::spec_blank(),
    {
        OpsColumnsView {
            swap: 0,
            eq_iszero: 0,
            not: 0,
            syscall: 0,
            logic_op: 0,
            binary_op: 0,
            keccak_general: 0,
            prover_input: 0,
            jumps: 0,
            branch: 0,
            pc: 0,
            get_context: 0,
            set_context: 0,
            mload_32bytes: 0,
            mstore_32bytes: 0,
            exit_kernel: 0,
            m_op_general: 0,
            exception: 0,
        }
    }
}

impl ExceptionColumnsView {
    /// The columns in the order of their codes.
    pub open spec fn flags(self) -> Seq<u64> {
        seq![
            self.out_of_gas,
            self.invalid_opcode,
            self.stack_underflow,
            self.invalid_jump_destination,
            self.invalid_jumpi_destination,
            self.stack_overflow,
        ]
    }

    /// No column is set.
    pub open spec fn spec_blank() -> ExceptionColumnsView {
        ExceptionColumnsView {
            out_of_gas: 0,
            invalid_opcode: 0,
            stack_underflow: 0,
            invalid_jump_destination: 0,
            invalid_jumpi_destination: 0,
            stack_overflow: 0,
        }
    }

    #[verifier::when_used_as_spec(spec_blank)]
    pub fn blank() -> (columns: ExceptionColumnsView)
        ensures
            columns == Self::spec_blank(),
    {
        ExceptionColumnsView {
            out_of_gas: 0,
            invalid_opcode: 0,
            stack_underflow: 0,
            invalid_jump_destination: 0,
            invalid_jumpi_destination: 0,
            stack_overflow: 0,
        }
    }
}

/// Whether exactly the entry at `index` is 1 and every other entry is 0.
pub open spec fn one_hot_at(flags: Seq<u64>, index: int) -> bool {
    &&& 0 <= index < flags.len()
    &&& forall|i: int| 0 <= i < flags.len() ==> #[trigger] flags[i] == (if i == index { 1u64 } else { 0u64 })
}

/// Whether exactly one entry is 1 and every other entry is 0.
pub open spec fn one_hot(flags: Seq<u64>) -> bool {
    exists|index: int| one_hot_at(flags, index)
}

/// Whether every entry is 0.
pub open spec fn all_clear(flags: Seq<u64>) -> bool {
    forall|i: int| 0 <= i < flags.len() ==> #[trigger] flags[i] == 0
}

impl MemoryChannelView {
    pub open spec fn spec_blank() -> MemoryChannelView {
        MemoryChannelView { used: 0, is_read: 0, addr_context: 0, addr_segment: 0, addr_virtual: 0, value: 0 }
    }

    #[verifier::when_used_as_spec(spec_blank)]
    pub fn blank() -> (channel: MemoryChannelView)
        ensures
            channel == Self::spec_blank(),
    {
        MemoryChannelView { used: 0, is_read: 0, addr_context: 0, addr_segment: 0, addr_virtual: 0, value: 0 }
    }
}

impl AuxColumns {
    /// Whether every auxiliary column is 0.
    pub open spec fn is_blank(self) -> bool {
        &&& forall|i: int| 0 <= i < NUM_GP_CHANNELS ==> #[trigger] self.mem_channels@[i] == MemoryChannelView::spec_blank()
        &&& forall|i: int| 0 <= i < NUM_GENERAL_COLUMNS ==> #[trigger] self.general@[i] == 0
    }

    pub fn blank() -> (aux: AuxColumns)
        ensures
            aux.is_blank(),
    {
        AuxColumns {
            mem_channels: [MemoryChannelView::blank(); NUM_GP_CHANNELS],
            general: [0u64; NUM_GENERAL_COLUMNS],
        }
    }
}

impl CpuColumnsView {
    /// Whether every column is 0.
    pub open spec fn is_blank(self) -> bool {
        &&& self.clock == 0
        &&& self.context == 0
        &&& self.code_context == 0
        &&& self.program_counter == 0
        &&& self.is_kernel_mode == 0
        &&& self.opcode == 0
        &&& self.op == OpsColumnsView::spec_blank()
        &&& self.exception == ExceptionColumnsView::spec_blank()
        &&& self.aux.is_blank()
    }
}

impl Default for CpuColumnsView {
    /// The row in which every column is 0.
    fn default() -> (row: CpuColumnsView)
        ensures
            row.is_blank(),
    {
        CpuColumnsView {
            clock: 0,
            context: 0,
            code_context: 0,
            program_counter: 0,
            is_kernel_mode: 0,
            opcode: 0,
            op: OpsColumnsView::blank(),
            exception: ExceptionColumnsView::blank(),
            aux: AuxColumns::blank(),
        }
    }
}

} // verus!
