//! Addressable storage, split by execution context and segment, and the records of the
//! reads and writes made against it.

use vstd::prelude::*;

verus! {

/// A named partition of the address space.  The position of a segment in this list is part
/// of the address encoding.
#[derive(Clone, Copy, Debug, PartialEq, Eq, Structural)]
pub enum Segment {
    /// Instruction words.
    Code,
    /// The operand stack.
    Stack,
    /// Scratch space of the kernel.
    KernelGeneral,
}

/// Number of segments in every context.
pub const SEGMENT_COUNT: usize = 3;

/// The context in which kernel code runs.
pub const KERNEL_CONTEXT: usize = 0;

impl Segment {
    /// The position of the segment in the address encoding.
    pub open spec fn spec_index(self) -> usize {
        match self {
            Segment::Code => 0,
            Segment::Stack => 1,
            Segment::KernelGeneral => 2,
        }
    }

    /// The position of the segment in the address encoding.
    #[verifier::when_used_as_spec(spec_index)]
    pub fn index(self) -> (i: usize)
        ensures
            i == self.spec_index(),
            i < SEGMENT_COUNT,
    {
        match self {
            Segment::Code => 0,
            Segment::Stack => 1,
            Segment::KernelGeneral => 2,
        }
    }
}

/// The location of one memory cell.
#[derive(Clone, Copy, Debug, PartialEq, Eq, Structural)]
pub struct MemoryAddress {
    pub context: usize,
    pub segment: usize,
    pub virt: usize,
}

impl MemoryAddress {
    pub fn new(context: usize, segment: Segment, virt: usize) -> (address: MemoryAddress)
        ensures
            address == (MemoryAddress { context, segment: segment.spec_index(), virt }),
    {
        MemoryAddress { context, segment: segment.index(), virt }
    }
}

/// The port through which a memory operation is made within one cycle.
#[derive(Clone, Copy, Debug, PartialEq, Eq, Structural)]
pub enum MemoryChannel {
    /// The instruction fetch.
    Code,
    /// One of the general purpose ports.
    GeneralPurpose(usize),
}

/// Number of general purpose channels in a cycle.
pub const NUM_GP_CHANNELS: usize = 5;

/// Number of channels in a cycle, the code channel included.
pub const NUM_CHANNELS: usize = 6;

impl MemoryChannel {
    pub open spec fn well_formed(self) -> bool {
        self matches MemoryChannel::GeneralPurpose(n) ==> n < NUM_GP_CHANNELS
    }

    /// The position of the channel among the channels of a cycle.
    pub open spec fn spec_index(self) -> int {
        match self {
            MemoryChannel::Code => 0,
            MemoryChannel::GeneralPurpose(n) => n + 1,
        }
    }

    /// The position of the channel among the channels of a cycle.
    pub fn index(&self) -> (i: usize)
        requires
            self.well_formed(),
        ensures
            i == self.spec_index(),
            i < NUM_CHANNELS,
    {
        match *self {
            MemoryChannel::Code => 0,
            MemoryChannel::GeneralPurpose(n) => n + 1,
        }
    }
}

#[derive(Clone, Copy, Debug, PartialEq, Eq, Structural)]
pub enum MemoryOpKind {
    Read,
    Write,
}

/// The record of one access to memory.  Records are appended to the log and replayed later;
/// they are never changed.
#[derive(Clone, Copy, Debug, PartialEq, Eq, Structural)]
pub struct MemoryOp {
    pub channel: MemoryChannel,
    pub cycle: usize,
    pub address: MemoryAddress,
    pub kind: MemoryOpKind,
    pub value: u32,
}

impl MemoryOp {
    pub fn new(
        channel: MemoryChannel,
        cycle: usize,
        address: MemoryAddress,
        kind: MemoryOpKind,
        value: u32,
    ) -> (op: MemoryOp)
        ensures
            op == (MemoryOp { channel, cycle, address, kind, value }),
    {
        MemoryOp { channel, cycle, address, kind, value }
    }

    /// Whether replaying this record changes memory.
    pub open spec fn is_write(self) -> bool {
        self.kind == MemoryOpKind::Write
    }
}

/// The cells of one segment.  A cell beyond the stored ones holds zero.
#[derive(Debug)]
pub struct MemorySegmentState {
    pub content: Vec<u32>,
}

impl MemorySegmentState {
    pub open spec fn spec_get(&self, virt: usize) -> u32 {
        if virt < self.content@.len() {
            self.content@[virt as int]
        } else {
            0
        }
    }

    pub fn new() -> (segment: MemorySegmentState)
        ensures
            segment.content@.len() == 0,
            forall|virt: usize| segment.spec_get(virt) == 0,
    {
        MemorySegmentState { content: Vec::new() }
    }

    pub fn get(&self, virt: usize) -> (value: u32)
        ensures
            value == self.spec_get(virt),
    {
        if virt < self.content.len() {
            self.content[virt]
        } else {
            0
        }
    }

    pub fn set(&mut self, virt: usize, value: u32)
        requires
            virt < usize::MAX,
        ensures
            final(self).spec_get(virt) == value,
            forall|other: usize| other != virt ==> final(self).spec_get(other) == old(self).spec_get(other),
    {
        if virt >= self.content.len() {
            self.content.resize(virt + 1, 0);
        }
        self.content[virt] = value;
    }
}

/// The segments of one execution context.
#[derive(Debug)]
pub struct MemoryContextState {
    pub segments: Vec<MemorySegmentState>,
}

impl MemoryContextState {
    /// Every context holds one store per segment.
    pub open spec fn well_formed(&self) -> bool {
        self.segments@.len() == SEGMENT_COUNT
    }

    pub fn new() -> (context: MemoryContextState)
        ensures
            context.well_formed(),
            forall|segment: int, virt: usize|
                0 <= segment < SEGMENT_COUNT ==> #[trigger] context.segments@[segment].spec_get(virt) == 0,
    {
        let mut segments: Vec<MemorySegmentState> = Vec::new();
        segments.push(MemorySegmentState::new());
        segments.push(MemorySegmentState::new());
        segments.push(MemorySegmentState::new());
        MemoryContextState { segments }
    }
}

/// All of memory: one store per context and segment.
#[derive(Debug)]
pub struct MemoryState {
    pub contexts: Vec<MemoryContextState>,
}

/// The value that the cell at `address` holds once `ops` have been replayed, in order, over
/// a memory in which it held `before`: that of the last write to it, if there is one.
pub open spec fn replayed_value(before: u32, ops: Seq<MemoryOp>, address: MemoryAddress) -> u32
    decreases ops.len(),
{
    if ops.len() == 0 {
        before
    } else if ops.last().is_write() && ops.last().address == address {
        ops.last().value
    } else {
        replayed_value(before, ops.drop_last(), address)
    }
}

impl MemoryState {
    pub open spec fn well_formed(&self) -> bool {
        forall|context: int|
            0 <= context < self.contexts@.len() ==> (#[trigger] self.contexts@[context]).well_formed()
    }

    /// Whether `address` names a cell of this memory.
    pub open spec fn addressable(&self, address: MemoryAddress) -> bool {
        &&& address.context < self.contexts@.len()
        &&& address.segment < SEGMENT_COUNT
        &&& address.virt < usize::MAX
    }

    /// The value held at `address`; zero where nothing was written, and for an address that
    /// names no cell.
    pub open spec fn spec_get(&self, address: MemoryAddress) -> u32 {
        if address.context < self.contexts@.len() && address.segment
            < self.contexts@[address.context as int].segments@.len() {
            self.contexts@[address.context as int].segments@[address.segment as int].spec_get(
                address.virt,
            )
        } else {
            0
        }
    }

    /// Whether every write among `ops` goes to a cell of this memory.
    pub open spec fn accepts(&self, ops: Seq<MemoryOp>) -> bool {
        forall|i: int| 0 <= i < ops.len() && (#[trigger] ops[i]).is_write() ==> self.addressable(ops[i].address)
    }

    /// A memory of `num_contexts` contexts in which every cell holds zero.
    pub fn new(num_contexts: usize) -> (memory: MemoryState)
        ensures
            memory.well_formed(),
            memory.contexts@.len() == num_contexts,
            forall|address: MemoryAddress| memory.spec_get(address) == 0,
    {
        let mut contexts: Vec<MemoryContextState> = Vec::new();
        let mut i: usize = 0;
        while i < num_contexts
            invariant
                i <= num_contexts,
                contexts@.len() == i,
                forall|c: int| 0 <= c < i ==> (#[trigger] contexts@[c]).well_formed(),
                forall|c: int, segment: int, virt: usize|
                    0 <= c < i && 0 <= segment < SEGMENT_COUNT
                        ==> #[trigger] contexts@[c].segments@[segment].spec_get(virt) == 0,
            decreases num_contexts - i,
        {
            contexts.push(MemoryContextState::new());
            i += 1;
        }
        MemoryState { contexts }
    }

    /// Whether every context holds one store per segment.
    pub fn is_well_formed(&self) -> (ok: bool)
        ensures
            ok == self.well_formed(),
    {
        let mut i: usize = 0;
        while i < self.contexts.len()
            invariant
                i <= self.contexts@.len(),
                forall|context: int| 0 <= context < i ==> (#[trigger] self.contexts@[context]).well_formed(),
            decreases self.contexts@.len() - i,
        {
            if self.contexts[i].segments.len() != SEGMENT_COUNT {
                return false;
            }
            i += 1;
        }
        true
    }

    /// Whether `address` names a cell of this memory.
    pub fn is_addressable(&self, address: MemoryAddress) -> (ok: bool)
        ensures
            ok == self.addressable(address),
    {
        address.context < self.contexts.len() && address.segment < SEGMENT_COUNT && address.virt
            < usize::MAX
    }

    /// Reads the cell at `address`.
    pub fn get(&self, address: MemoryAddress) -> (value: u32)
        requires
            self.well_formed(),
            address.context < self.contexts@.len(),
            address.segment < SEGMENT_COUNT,
        ensures
            value == self.spec_get(address),
    {
        self.contexts[address.context].segments[address.segment].get(address.virt)
    }

    /// Stores `value` in the cell at `address` and leaves every other cell as it was.
    pub fn set(&mut self, address: MemoryAddress, value: u32)
        requires
            old(self).well_formed(),
            old(self).addressable(address),
        ensures
            final(self).well_formed(),
            final(self).contexts@.len() == old(self).contexts@.len(),
            final(self).spec_get(address) == value,
            forall|other: MemoryAddress|
                other != address ==> final(self).spec_get(other) == old(self).spec_get(other),
    {
        self.contexts[address.context].segments[address.segment].set(address.virt, value);
    }

    /// Replays `ops` in order: every write is stored, every read is passed over.
    pub fn apply_ops(&mut self, ops: &[MemoryOp])
        requires
            old(self).well_formed(),
            old(self).accepts(ops@),
        ensures
            final(self).well_formed(),
            final(self).contexts@.len() == old(self).contexts@.len(),
            forall|address: MemoryAddress|
                final(self).spec_get(address) == replayed_value(
                    old(self).spec_get(address),
                    ops@,
                    address,
                ),
    {
        let mut i: usize = 0;
        while i < ops.len()
            invariant
                i <= ops@.len(),
                self.well_formed(),
                self.contexts@.len() == old(self).contexts@.len(),
                old(self).accepts(ops@),
                forall|address: MemoryAddress|
                    self.spec_get(address) == replayed_value(
                        old(self).spec_get(address),
                        ops@.take(i as int),
                        address,
                    ),
            decreases ops@.len() - i,
        {
            let op = ops[i];
            proof {
                assert(ops@.take(i + 1).drop_last() =~= ops@.take(i as int));
                assert(ops@.take(i + 1).last() == op);
            }
            match op.kind {
                MemoryOpKind::Write => {
                    self.set(op.address, op.value);
                },
                MemoryOpKind::Read => {},
            }
            i += 1;
        }
        proof {
            assert(ops@.take(i as int) =~= ops@);
        }
    }
}

} // verus!
