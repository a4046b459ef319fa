//! The operations that an instruction word can stand for.

use vstd::prelude::*;

verus! {

/// The arithmetic functions of two operands.
#[derive(Clone, Copy, Debug, PartialEq, Eq, Structural)]
pub enum BinaryOperator {
    ADD,
    SLL,
}

/// The bitwise functions of two operands.
#[derive(Clone, Copy, Debug, PartialEq, Eq, Structural)]
pub enum LogicOp {
    And,
    Or,
    Xor,
}

/// The comparison on which a branch is taken.
#[derive(Clone, Copy, Debug, PartialEq, Eq, Structural)]
pub enum Cond {
    EQ,
    NE,
    GE,
    LE,
    GT,
    LT,
}

/// One decoded instruction, with the operands that its executor needs.
#[derive(Clone, Copy, Debug, PartialEq, Eq, Structural)]
pub enum Operation {
    Swap(u8),
    Iszero,
    Not,
    /// Selector, number of stack values read, whether the stack grows.
    Syscall(u8, usize, bool),
    Eq,
    BinaryLogic(LogicOp),
    /// Operator, the two source registers, the destination register.
    BinaryArithmetic(BinaryOperator, u8, u8, u8),
    KeccakGeneral,
    ProverInput,
    /// Link register, register that holds the target.
    Jump(u8, u8),
    /// Link register, target taken from the instruction word.
    Jumpi(u8, u32),
    /// Condition, the two registers compared, offset of the target.
    Branch(Cond, u8, u8, u32),
    Pc,
    GetContext,
    SetContext,
    /// Base register, destination register, offset.
    Mload32Bytes(u8, u8, u32),
    Mstore32Bytes,
    ExitKernel,
    MloadGeneral,
    MstoreGeneral,
}

impl Operation {
    /// Whether the operation sets the program counter itself.
    pub open spec fn spec_redirects_control(&self) -> bool {
        match self {
            Operation::Syscall(_, _, _) | Operation::ExitKernel => true,
            Operation::Jump(_, _) => true,
            Operation::Jumpi(_, _) => true,
            Operation::Branch(_, _, _, _) => true,
            _ => false,
        }
    }

    /// Whether the operation sets the program counter itself.
    #[verifier::when_used_as_spec(spec_redirects_control)]
    pub fn redirects_control(&self) -> (own: bool)
        ensures
            own == self.spec_redirects_control(),
    {
        match self {
            Operation::Syscall(_, _, _) | Operation::ExitKernel => true,
            Operation::Jump(_, _) => true,
            Operation::Jumpi(_, _) => true,
            Operation::Branch(_, _, _, _) => true,
            _ => false,
        }
    }
}

} // verus!
