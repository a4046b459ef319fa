//! From an instruction word to the operation it stands for.
//!
//! A word is fetched with its bytes in the reverse of the order in which the instruction set
//! lays out its fields, so the bytes are reversed first.  The fields are then the fixed bit
//! ranges of the MIPS encoding, and a fixed table of rules, tried in order, names the
//! operation.

use vstd::prelude::*;
use crate::errors::ProgramError;
use crate::operation::{BinaryOperator, Cond, Operation};
use crate::state::RegistersState;

verus! {

/// The bit fields of an instruction word.
#[derive(Clone, Copy, Debug, PartialEq, Eq, Structural)]
pub struct Fields {
    /// Bits 31 to 26.
    pub opcode: u8,
    /// Bits 5 to 0.
    pub func: u8,
    /// Bits 25 to 21.
    pub rs: u8,
    /// Bits 20 to 16.
    pub rt: u8,
    /// Bits 15 to 11.
    pub rd: u8,
    /// Bits 10 to 6.
    pub sa: u8,
    /// Bits 15 to 0.
    pub offset: u32,
    /// Bits 25 to 0.
    pub target: u32,
}

/// The word whose bytes are those of `word` in reverse order.
pub open spec fn byte_reversed(word: u32) -> u32 {
    (word << 24) | ((word & 0xff00) << 8) | ((word >> 8) & 0xff00) | (word >> 24)
}

/// The fields that the bits of `word` spell out.
pub open spec fn fields_of(word: u32) -> Fields {
    Fields {
        opcode: ((word >> 26) & 0x3f) as u8,
        func: (word & 0x3f) as u8,
        rs: ((word >> 21) & 0x1f) as u8,
        rt: ((word >> 16) & 0x1f) as u8,
        rd: ((word >> 11) & 0x1f) as u8,
        sa: ((word >> 6) & 0x1f) as u8,
        offset: word & 0xffff,
        target: word & 0x3ffffff,
    }
}

/// The decode table.  The rules are tried from the top and the first that matches decides;
/// the privilege level is part of the key, though no rule depends on it at present.
///
/// Two rules share the key of opcode 0 and function 0x20: ADD, and below it a register
/// jump that therefore never decides.
pub open spec fn decoded(fields: Fields, is_kernel: bool) -> Result<Operation, ProgramError> {
    let Fields { opcode, func, rs, rt, rd, sa, offset, target } = fields;
    if opcode == 0x00 && func == 0x20 {
        // ADD: rd = rs + rt
        Ok(Operation::BinaryArithmetic(BinaryOperator::ADD, rs, rt, rd))
    } else if opcode == 0x00 && func == 0x00 {
        // SLL: rd = rt << sa
        Ok(Operation::BinaryArithmetic(BinaryOperator::SLL, rt, sa, rd))
    } else if opcode == 0x00 && func == 0x20 {
        // JR under the key of ADD: the rule above it in the table always decides
        Ok(Operation::Jump(0u8, rs))
    } else if opcode == 0x00 && func == 0x08 {
        // JR
        Ok(Operation::Jump(0u8, rs))
    } else if opcode == 0x00 && func == 0x09 {
        // JALR
        Ok(Operation::Jump(rd, rs))
    } else if opcode == 0x01 && rt == 1 {
        // BGEZ
        Ok(Operation::Branch(Cond::GE, rs, 0u8, offset))
    } else if opcode == 0x01 && rt == 0 {
        // BLTZ
        Ok(Operation::Branch(Cond::LT, rs, 0u8, offset))
    } else if opcode == 0x02 {
        // J
        Ok(Operation::Jumpi(0u8, target))
    } else if opcode == 0x03 {
        // JAL
        Ok(Operation::Jumpi(31u8, target))
    } else if opcode == 0x04 {
        // BEQ
        Ok(Operation::Branch(Cond::EQ, rs, rt, offset))
    } else if opcode == 0x05 {
        // BNE
        Ok(Operation::Branch(Cond::NE, rs, rt, offset))
    } else if opcode == 0x06 {
        // BLEZ
        Ok(Operation::Branch(Cond::LE, rs, 0u8, offset))
    } else if opcode == 0x07 {
        // BGTZ
        Ok(Operation::Branch(Cond::GT, rs, 0u8, offset))
    } else if opcode == 0x23 {
        // LW
        Ok(Operation::Mload32Bytes(rs, rt, offset))
    } else {
        Err(ProgramError::InvalidOpcode)
    }
}

/// Whether the decode table has a rule for these fields.
pub open spec fn supported(fields: Fields) -> bool {
    ||| fields.opcode == 0x00 && (fields.func == 0x20 || fields.func == 0x00 || fields.func == 0x08
        || fields.func == 0x09)
    ||| fields.opcode == 0x01 && fields.rt <= 1
    ||| 0x02 <= fields.opcode <= 0x07
    ||| fields.opcode == 0x23
}

/// What an instruction word, as fetched, decodes to.
pub open spec fn spec_decode(registers: RegistersState, insn: u32) -> Result<
    Operation,
    ProgramError,
> {
    decoded(fields_of(byte_reversed(insn)), registers.is_kernel)
}

/// Reverses the order of the four bytes of `word`.
pub fn reverse_bytes(word: u32) -> (reversed: u32)
    ensures
        reversed == byte_reversed(word),
{
    (word << 24) | ((word & 0xff00) << 8) | ((word >> 8) & 0xff00) | (word >> 24)
}

impl Fields {
    /// Every field lies within the width of its bit range.
    pub open spec fn well_formed(self) -> bool {
        &&& self.opcode < 64
        &&& self.func < 64
        &&& self.rs < 32
        &&& self.rt < 32
        &&& self.rd < 32
        &&& self.sa < 32
        &&& self.offset < 0x1_0000
        &&& self.target < 0x400_0000
    }

    /// Cuts `word` into its fields.
    pub fn extract(word: u32) -> (fields: Fields)
        ensures
            fields == fields_of(word),
            fields.well_formed(),
    {
        assert(((word >> 26) & 0x3f) < 64 && (word & 0x3f) < 64 && ((word >> 21) & 0x1f) < 32 && ((word
            >> 16) & 0x1f) < 32 && ((word >> 11) & 0x1f) < 32 && ((word >> 6) & 0x1f) < 32 && (word
            & 0xffff) < 0x1_0000 && (word & 0x3ffffff) < 0x400_0000) by (bit_vector);
        Fields {
            opcode: ((word >> 26) & 0x3f) as u8,
            func: (word & 0x3f) as u8,
            rs: ((word >> 21) & 0x1f) as u8,
            rt: ((word >> 16) & 0x1f) as u8,
            rd: ((word >> 11) & 0x1f) as u8,
            sa: ((word >> 6) & 0x1f) as u8,
            offset: word & 0xffff,
            target: word & 0x3ffffff,
        }
    }
}

/// Looks the fields up in the decode table.
pub fn decode_fields(fields: Fields, is_kernel: bool) -> (result: Result<Operation, ProgramError>)
    ensures
        result == decoded(fields, is_kernel),
        result is Ok <==> supported(fields),
        result matches Err(e) ==> e == ProgramError::InvalidOpcode,
{
    let Fields { opcode, func, rs, rt, rd, sa, offset, target } = fields;
    #[allow(unreachable_patterns)]
    match (opcode, func, is_kernel) {
        (0b000000, 0b100000, _) => Ok(Operation::BinaryArithmetic(BinaryOperator::ADD, rs, rt, rd)),
        (0b000000, 0b000000, _) => Ok(Operation::BinaryArithmetic(BinaryOperator::SLL, rt, sa, rd)),
        (0b000000, 0b100000, _) => Ok(Operation::Jump(0u8, rs)),
        (0x00, 0x08, _) => Ok(Operation::Jump(0u8, rs)),
        (0x00, 0x09, _) => Ok(Operation::Jump(rd, rs)),
        (0x01, _, _) => {
            if rt == 1 {
                Ok(Operation::Branch(Cond::GE, rs, 0u8, offset))
            } else if rt == 0 {
                Ok(Operation::Branch(Cond::LT, rs, 0u8, offset))
            } else {
                Err(ProgramError::InvalidOpcode)
            }
        },
        (0x02, _, _) => Ok(Operation::Jumpi(0u8, target)),
        (0x03, _, _) => Ok(Operation::Jumpi(31u8, target)),
        (0x04, _, _) => Ok(Operation::Branch(Cond::EQ, rs, rt, offset)),
        (0x05, _, _) => Ok(Operation::Branch(Cond::NE, rs, rt, offset)),
        (0x06, _, _) => Ok(Operation::Branch(Cond::LE, rs, 0u8, offset)),
        (0x07, _, _) => Ok(Operation::Branch(Cond::GT, rs, 0u8, offset)),
        (0b100011, _, _) => Ok(Operation::Mload32Bytes(rs, rt, offset)),
        _ => Err(ProgramError::InvalidOpcode),
    }
}

/// Decodes an instruction word as fetched from code memory.
///
/// Succeeds exactly on the words for whose fields the table has a rule; every other word is
/// an `InvalidOpcode`.
pub fn decode(registers: RegistersState, insn: u32) -> (result: Result<Operation, ProgramError>)
    ensures
        result == spec_decode(registers, insn),
        result is Ok <==> supported(fields_of(byte_reversed(insn))),
        result matches Err(e) ==> e == ProgramError::InvalidOpcode,
{
    let word = reverse_bytes(insn);
    let fields = Fields::extract(word);
    decode_fields(fields, registers.is_kernel)
}

/// The decode table rejects exactly the fields for which it has no rule, always as an
/// `InvalidOpcode`, and the privilege level changes nothing.
pub proof fn lemma_decoded_iff_supported(fields: Fields, is_kernel: bool)
    ensures
        decoded(fields, is_kernel) is Ok <==> supported(fields),
        !supported(fields) ==> decoded(fields, is_kernel) == Err::<Operation, ProgramError>(
            ProgramError::InvalidOpcode,
        ),
        decoded(fields, is_kernel) == decoded(fields, !is_kernel),
{
}

/// Each rule of the table yields the operation of its instruction, with the operands in the
/// order that the executor expects.
pub proof fn lemma_decoded_operations(fields: Fields, is_kernel: bool)
    ensures
        fields.opcode == 0 && fields.func == 0x20 ==> decoded(fields, is_kernel) == Ok::<Operation, ProgramError>(
            Operation::BinaryArithmetic(BinaryOperator::ADD, fields.rs, fields.rt, fields.rd),
        ),
        fields.opcode == 0 && fields.func == 0 ==> decoded(fields, is_kernel) == Ok::<Operation, ProgramError>(
            Operation::BinaryArithmetic(BinaryOperator::SLL, fields.rt, fields.sa, fields.rd),
        ),
        fields.opcode == 0 && fields.func == 8 ==> decoded(fields, is_kernel) == Ok::<Operation, ProgramError>(
            Operation::Jump(0, fields.rs),
        ),
        fields.opcode == 0 && fields.func == 9 ==> decoded(fields, is_kernel) == Ok::<Operation, ProgramError>(
            Operation::Jump(fields.rd, fields.rs),
        ),
        fields.opcode == 1 && fields.rt == 1 ==> decoded(fields, is_kernel) == Ok::<Operation, ProgramError>(
            Operation::Branch(Cond::GE, fields.rs, 0, fields.offset),
        ),
        fields.opcode == 1 && fields.rt == 0 ==> decoded(fields, is_kernel) == Ok::<Operation, ProgramError>(
            Operation::Branch(Cond::LT, fields.rs, 0, fields.offset),
        ),
        fields.opcode == 2 ==> decoded(fields, is_kernel) == Ok::<Operation, ProgramError>(
            Operation::Jumpi(0, fields.target),
        ),
        fields.opcode == 3 ==> decoded(fields, is_kernel) == Ok::<Operation, ProgramError>(
            Operation::Jumpi(31, fields.target),
        ),
        fields.opcode == 4 ==> decoded(fields, is_kernel) == Ok::<Operation, ProgramError>(
            Operation::Branch(Cond::EQ, fields.rs, fields.rt, fields.offset),
        ),
        fields.opcode == 5 ==> decoded(fields, is_kernel) == Ok::<Operation, ProgramError>(
            Operation::Branch(Cond::NE, fields.rs, fields.rt, fields.offset),
        ),
        fields.opcode == 6 ==> decoded(fields, is_kernel) == Ok::<Operation, ProgramError>(
            Operation::Branch(Cond::LE, fields.rs, 0, fields.offset),
        ),
        fields.opcode == 7 ==> decoded(fields, is_kernel) == Ok::<Operation, ProgramError>(
            Operation::Branch(Cond::GT, fields.rs, 0, fields.offset),
        ),
        fields.opcode == 0x23 ==> decoded(fields, is_kernel) == Ok::<Operation, ProgramError>(
            Operation::Mload32Bytes(fields.rs, fields.rt, fields.offset),
        ),
{
}

/// Decoding is a function of the word and the registers: two runs on the same input give
/// the same answer.
pub proof fn lemma_decode_deterministic(
    registers: RegistersState,
    insn: u32,
    first: Result<Operation, ProgramError>,
    second: Result<Operation, ProgramError>,
)
    requires
        first == spec_decode(registers, insn),
        second == spec_decode(registers, insn),
    ensures
        first == second,
{
}

/// Reversing the bytes twice gives the word back, and moves each byte to the mirrored place.
pub proof fn lemma_byte_reversed(word: u32)
    ensures
        byte_reversed(byte_reversed(word)) == word,
        byte_reversed(word) & 0xff == (word >> 24) & 0xff,
        (byte_reversed(word) >> 8) & 0xff == (word >> 16) & 0xff,
        (byte_reversed(word) >> 16) & 0xff == (word >> 8) & 0xff,
        (byte_reversed(word) >> 24) & 0xff == word & 0xff,
{
    assert(byte_reversed(byte_reversed(word)) == word) by (bit_vector);
    assert(byte_reversed(word) & 0xff == (word >> 24) & 0xff) by (bit_vector);
    assert((byte_reversed(word) >> 8) & 0xff == (word >> 16) & 0xff) by (bit_vector);
    assert((byte_reversed(word) >> 16) & 0xff == (word >> 8) & 0xff) by (bit_vector);
    assert((byte_reversed(word) >> 24) & 0xff == word & 0xff) by (bit_vector);
}

} // verus!
