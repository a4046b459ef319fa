//! What is reported of an instruction that runs in kernel mode.
//!
//! Nothing is printed here.  The record says what there is to report and how loudly; the
//! caller looks up the label of the program counter beforehand and prints the record
//! afterwards.

use vstd::prelude::*;
use vstd::string::StrSliceExecFns;
use crate::generation::GenerationState;
use crate::operation::Operation;

verus! {

/// How loudly an instruction is reported.
#[derive(Clone, Copy, Debug, PartialEq, Eq, Structural)]
pub enum LogLevel {
    Debug,
    Trace,
}

/// The report of one instruction in kernel mode.
#[derive(Clone, Copy, Debug, PartialEq, Eq, Structural)]
pub struct KernelInstructionLog {
    pub level: LogLevel,
    pub cycle: usize,
    pub context: usize,
    pub program_counter: u32,
    pub operation: Operation,
}

/// The letters with which the labels of the halting loop begin.
pub open spec fn halt_prefix() -> Seq<char> {
    seq!['h', 'a', 'l', 't']
}

/// The level at which an instruction under `label` is reported: `Debug` where the program
/// counter has a label that does not begin with `halt`, `Trace` elsewhere.
pub open spec fn level_for(label: Option<Seq<char>>) -> LogLevel {
    match label {
        Some(name) if !halt_prefix().is_prefix_of(name) => LogLevel::Debug,
        _ => LogLevel::Trace,
    }
}

/// Whether `label` begins with `halt`.
pub fn starts_with_halt(label: &str) -> (halting: bool)
    ensures
        halting == halt_prefix().is_prefix_of(label@),
{
    let prefix: [char; 4] = ['h', 'a', 'l', 't'];
    if label.unicode_len() < 4 {
        return false;
    }
    let mut i: usize = 0;
    while i < 4
        invariant
            i <= 4,
            label@.len() >= 4,
            prefix@ == halt_prefix(),
            forall|j: int| 0 <= j < i ==> label@[j] == halt_prefix()[j],
        decreases 4 - i,
    {
        if label.get_char(i) != prefix[i] {
            assert(!halt_prefix().is_prefix_of(label@)) by {
                if halt_prefix().is_prefix_of(label@) {
                    assert(label@.subrange(0, 4)[i as int] == halt_prefix()[i as int]);
                }
            }
            return false;
        }
        i += 1;
    }
    assert(label@.subrange(0, 4) =~= halt_prefix());
    true
}

/// Makes the report of the instruction `op` that `state` is about to run, given the label
/// of its program counter, if it has one.
pub fn log_kernel_instruction(state: &GenerationState, op: Operation, label: Option<&str>) -> (record:
    KernelInstructionLog)
    ensures
        record == (KernelInstructionLog {
            level: level_for(
                match label {
                    Some(name) => Some(name@),
                    None => None,
                },
            ),
            cycle: state.traces.spec_clock(),
            context: state.registers.context,
            program_counter: state.registers.program_counter,
            operation: op,
        }),
{
    let pc = state.registers.program_counter;
    let is_interesting_offset = match label {
        Some(name) => !starts_with_halt(name),
        None => false,
    };
    let level = if is_interesting_offset {
        LogLevel::Debug
    } else {
        LogLevel::Trace
    };
    KernelInstructionLog {
        level,
        cycle: state.traces.clock(),
        context: state.registers.context,
        program_counter: pc,
        operation: op,
    }
}

} // verus!
