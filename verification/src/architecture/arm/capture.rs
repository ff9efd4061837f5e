//! Reading captured trace back out of trace memory.
//!
//! Trace memory holds formatted frames in which the bytes of several trace
//! sources are interleaved. A `TraceMemoryReader` drains the FIFO one word at
//! a time, a whole number of frames and no more than the FIFO holds, and
//! gives the bytes of the instrumentation trace.

use crate::architecture::arm::component::itm::ITM_TRACE_ID;
use crate::architecture::arm::component::tmc::{
    frame_id, frame_items, lemma_frame_items_len, Frame, Id, TraceMemoryController, FIFO_EMPTY,
    FRAME_LENGTH, REGISTER_OFFSET_RRD, REGISTER_OFFSET_RSZ,
};
use crate::architecture::arm::transaction::Transaction;
use crate::bytes::le_bytes;
use vstd::prelude::*;
use vstd::slice::slice_subrange;

verus! {

/// Frame `index` of the raw trace `raw`.
pub open spec fn frame_at(raw: Seq<u8>, index: nat) -> Seq<u8> {
    raw.subrange(index * 16 as int, index * 16 + 16 as int)
}

/// The source in effect after the first `frames` frames of `raw`, when `id`
/// was in effect at its start.
pub open spec fn stream_id(raw: Seq<u8>, id: Id, frames: nat) -> Id
    decreases frames,
{
    if frames == 0 {
        id
    } else {
        frame_id(frame_at(raw, (frames - 1) as nat), stream_id(raw, id, (frames - 1) as nat))
    }
}

/// The bytes of trace in the first `frames` frames of `raw`, in order, each
/// with its source, when `id` was in effect at the start.
pub open spec fn stream_items(raw: Seq<u8>, id: Id, frames: nat) -> Seq<(Id, u8)>
    decreases frames,
{
    if frames == 0 {
        Seq::empty()
    } else {
        stream_items(raw, id, (frames - 1) as nat) + frame_items(
            frame_at(raw, (frames - 1) as nat),
            stream_id(raw, id, (frames - 1) as nat),
        )
    }
}

/// The bytes among `items` that came from `source`, in order.
pub open spec fn source_bytes(items: Seq<(Id, u8)>, source: Id) -> Seq<u8>
    decreases items.len(),
{
    if items.len() == 0 {
        Seq::empty()
    } else if items.last().0 == source {
        source_bytes(items.drop_last(), source).push(items.last().1)
    } else {
        source_bytes(items.drop_last(), source)
    }
}

/// Whether a byte from `source` is neither instrumentation trace nor
/// padding, which has the source 0.
pub open spec fn spec_is_unexpected(source: Id) -> bool {
    source.0 != ITM_TRACE_ID && source.0 != 0
}

/// Whether a byte from `source` is neither instrumentation trace nor padding.
#[verifier::when_used_as_spec(spec_is_unexpected)]
pub fn is_unexpected(source: Id) -> (unexpected: bool)
    ensures
        unexpected == spec_is_unexpected(source),
{
    source.0 != ITM_TRACE_ID && source.0 != 0
}

/// The items among `items` from a source that is not expected, in order.
pub open spec fn unexpected_items(items: Seq<(Id, u8)>) -> Seq<(Id, u8)>
    decreases items.len(),
{
    if items.len() == 0 {
        Seq::empty()
    } else if is_unexpected(items.last().0) {
        unexpected_items(items.drop_last()).push(items.last())
    } else {
        unexpected_items(items.drop_last())
    }
}

/// What a read of trace memory gives.
#[derive(Debug, PartialEq, Eq)]
pub struct TraceData {
    /// The bytes of the instrumentation trace, in the order in which they
    /// were captured.
    pub itm: Vec<u8>,
    /// The bytes that were dropped because they came from a source that is
    /// neither the instrumentation trace nor padding, each with its source.
    /// They are there to be reported.
    pub unexpected: Vec<(Id, u8)>,
    /// The source in effect after the last frame: the source to enter the
    /// next read with.
    pub id: Id,
}

/// What a read of trace memory gives, as plain sequences.
pub struct TraceDataView {
    /// The bytes of the instrumentation trace.
    pub itm: Seq<u8>,
    /// The bytes from unexpected sources.
    pub unexpected: Seq<(Id, u8)>,
    /// The source in effect after the last frame.
    pub id: Id,
}

impl View for TraceData {
    type V = TraceDataView;

    open spec fn view(&self) -> TraceDataView {
        TraceDataView { itm: self.itm@, unexpected: self.unexpected@, id: self.id }
    }
}

/// What the whole frames of `raw` hold, entered with `id` in effect: the
/// bytes of the instrumentation trace in order, the bytes of unexpected
/// sources, and the source left in effect. Padding is in neither.
pub open spec fn demultiplexed(raw: Seq<u8>, id: Id) -> TraceDataView {
    let frames = raw.len() / 16;
    TraceDataView {
        itm: source_bytes(stream_items(raw, id, frames), Id(ITM_TRACE_ID)),
        unexpected: unexpected_items(stream_items(raw, id, frames)),
        id: stream_id(raw, id, frames),
    }
}

/// No more bytes come from one source than there are bytes.
pub proof fn lemma_source_bytes_len(items: Seq<(Id, u8)>, source: Id)
    ensures
        source_bytes(items, source).len() <= items.len(),
    decreases items.len(),
{
    if items.len() > 0 {
        lemma_source_bytes_len(items.drop_last(), source);
    }
}

/// A frame holds at most 15 bytes of trace, so `frames` frames hold at most
/// `15 * frames`.
pub proof fn lemma_stream_items_len(raw: Seq<u8>, id: Id, frames: nat)
    ensures
        stream_items(raw, id, frames).len() <= 15 * frames,
    decreases frames,
{
    if frames > 0 {
        lemma_stream_items_len(raw, id, (frames - 1) as nat);
        lemma_frame_items_len(
            frame_at(raw, (frames - 1) as nat),
            stream_id(raw, id, (frames - 1) as nat),
            8,
        );
    }
}

/// Takes the whole frames of `raw` apart, entered with `id` in effect.
pub fn demultiplex(raw: &[u8], id: Id) -> (data: TraceData)
    ensures
        data@ == demultiplexed(raw@, id),
{
    let frames = raw.len() / FRAME_LENGTH;
    let ghost entered = id;
    let mut id = id;
    let mut itm: Vec<u8> = Vec::new();
    let mut unexpected: Vec<(Id, u8)> = Vec::new();
    let mut index: usize = 0;
    // Process each formatted frame and extract the multiplexed trace data.
    while index < frames
        invariant
            index <= frames,
            frames == raw@.len() / 16,
            raw@.len() <= usize::MAX,
            id == stream_id(raw@, entered, index as nat),
            itm@ == source_bytes(stream_items(raw@, entered, index as nat), Id(ITM_TRACE_ID)),
            unexpected@ == unexpected_items(stream_items(raw@, entered, index as nat)),
        decreases frames - index,
    {
        let ghost before = stream_items(raw@, entered, index as nat);
        assert(index * 16 + 16 <= raw@.len());
        let start = index * FRAME_LENGTH;
        let mut frame = Frame::new(slice_subrange(raw, start, start + FRAME_LENGTH), id);
        let items = frame.decode();
        assert(items@ == frame_items(frame_at(raw@, index as nat), id));
        let mut item: usize = 0;
        while item < items.len()
            invariant
                item <= items@.len(),
                itm@ == source_bytes(before + items@.take(item as int), Id(ITM_TRACE_ID)),
                unexpected@ == unexpected_items(before + items@.take(item as int)),
            decreases items@.len() - item,
        {
            let (source, byte) = items[item];
            proof {
                let done = before + items@.take(item as int);
                let more = before + items@.take(item + 1);
                assert(more.drop_last() =~= done);
                assert(more.last() == items@[item as int]);
            }
            if source.0 == ITM_TRACE_ID {
                itm.push(byte);
            } else if is_unexpected(source) {
                unexpected.push((source, byte));
            }
            item = item + 1;
        }
        assert(items@.take(items@.len() as int) =~= items@);
        id = frame.id();
        index = index + 1;
    }
    TraceData { itm, unexpected, id }
}

/// The most raw trace that a read takes from a FIFO of `fifo_size` bytes:
/// `fifo_size` rounded up to whole frames, and one frame at the least.
pub open spec fn raw_limit(fifo_size: nat) -> nat {
    if fifo_size == 0 {
        16
    } else {
        ((fifo_size + 15) / 16 * 16) as nat
    }
}

/// Where a read of trace memory stands.
#[derive(Clone, Copy, Debug, PartialEq, Eq, Structural)]
pub enum Phase {
    /// Nothing was asked for yet.
    Start,
    /// The size of the FIFO was asked for.
    Size,
    /// A word of the FIFO was asked for.
    Drain,
}

/// What a reader stands for.
pub struct ReaderView {
    /// The controller that is read.
    pub tmc: TraceMemoryController,
    /// The source in effect at the start of the raw trace.
    pub id: Id,
    /// Where the read stands.
    pub phase: Phase,
    /// The size of the FIFO in bytes, once it is known.
    pub fifo_size: nat,
    /// The raw trace read so far.
    pub raw: Seq<u8>,
}

/// What advancing a reader gives, over views.
pub enum ReaderStepView {
    /// A transaction to perform, and the reader after it.
    Transact(ReaderView, Transaction),
    /// The end of the read, with what it gives.
    Finished(TraceDataView),
}

impl ReaderView {
    /// The raw trace once the word `loaded` that was read from the FIFO is
    /// taken in: longer by the bytes of `loaded`, unless `loaded` says that
    /// the FIFO was empty.
    pub open spec fn taken(self, loaded: u32) -> Seq<u8> {
        if loaded == FIFO_EMPTY {
            self.raw
        } else {
            self.raw + le_bytes(loaded)
        }
    }

    /// What advancing gives, when the previous transaction read `loaded`.
    ///
    /// The size of the FIFO is asked for, then one word of it after the
    /// other. The read ends only where the raw trace is a whole number of
    /// frames, and there as soon as the FIFO is empty or the raw trace has
    /// reached the size of the FIFO.
    pub open spec fn advance(self, loaded: u32) -> ReaderStepView {
        match self.phase {
            Phase::Start => ReaderStepView::Transact(
                ReaderView { phase: Phase::Size, ..self },
                Transaction::Read {
                    address: self.tmc.component.register_address(REGISTER_OFFSET_RSZ as int),
                },
            ),
            Phase::Size => ReaderStepView::Transact(
                ReaderView { phase: Phase::Drain, fifo_size: (4 * loaded) as nat, ..self },
                Transaction::Read {
                    address: self.tmc.component.register_address(REGISTER_OFFSET_RRD as int),
                },
            ),
            Phase::Drain => {
                let raw = self.taken(loaded);
                if raw.len() % 16 == 0 && (loaded == FIFO_EMPTY || raw.len() >= self.fifo_size) {
                    ReaderStepView::Finished(demultiplexed(raw, self.id))
                } else {
                    ReaderStepView::Transact(
                        ReaderView { raw, ..self },
                        Transaction::Read {
                            address: self.tmc.component.register_address(
                                REGISTER_OFFSET_RRD as int,
                            ),
                        },
                    )
                }
            },
        }
    }

    /// What holds of every reader: the raw trace is made of whole words, no
    /// longer than `raw_limit` allows, and not yet of a length at which the
    /// read would have ended for its size.
    pub open spec fn inv(self) -> bool {
        match self.phase {
            Phase::Drain => {
                &&& self.raw.len() % 4 == 0
                &&& self.raw.len() <= raw_limit(self.fifo_size)
                &&& (self.raw.len() == 0 || self.raw.len() % 16 != 0 || self.raw.len()
                    < self.fifo_size)
            },
            _ => self.raw.len() == 0,
        }
    }
}

/// Whether a FIFO of `fifo_size` bytes is one of which no read gives more
/// instrumentation trace than `fifo_size` bytes: it is not empty, and it
/// holds whole frames or is large enough for the auxiliary bytes of its
/// frames to make up for the rounding.
pub open spec fn bounds_trace(fifo_size: nat) -> bool {
    fifo_size > 0 && (fifo_size % 16 == 0 || fifo_size / 16 + fifo_size % 16 >= 15)
}

/// What advancing a reader gives.
pub enum ReaderStep {
    /// A transaction to perform, and the reader to advance after it.
    Transact(TraceMemoryReader, Transaction),
    /// The end of the read, with what it gives.
    Finished(TraceData),
}

/// A read of trace memory in progress.
pub struct TraceMemoryReader {
    tmc: TraceMemoryController,
    id: Id,
    phase: Phase,
    fifo_size: u64,
    raw: Vec<u8>,
}

impl View for TraceMemoryReader {
    type V = ReaderView;

    closed spec fn view(&self) -> ReaderView {
        ReaderView {
            tmc: self.tmc,
            id: self.id,
            phase: self.phase,
            fifo_size: self.fifo_size as nat,
            raw: self.raw@,
        }
    }
}

impl TraceMemoryReader {
    #[verifier::type_invariant]
    spec fn wf(self) -> bool {
        self@.inv()
    }

    /// A read of the trace memory behind `tmc` that has not begun, to be
    /// entered with the source `id` in effect.
    pub fn new(tmc: TraceMemoryController, id: Id) -> (reader: TraceMemoryReader)
        ensures
            reader@ == (ReaderView {
                tmc,
                id,
                phase: Phase::Start,
                fifo_size: 0,
                raw: Seq::empty(),
            }),
    {
        TraceMemoryReader { tmc, id, phase: Phase::Start, fifo_size: 0, raw: Vec::new() }
    }

    /// Advances the read: gives the next transaction to perform, or the
    /// trace when the read is over. `loaded` is the word that the previous
    /// transaction read; it is not looked at on the first call.
    ///
    /// The trace comes from a whole number of frames, no more of them than
    /// `raw_limit` allows for the size of the FIFO; at most 15 bytes of it
    /// come from each frame.
    pub fn advance(self, loaded: u32) -> (step: ReaderStep)
        ensures
            match step {
                ReaderStep::Transact(next, transaction) => self@.advance(loaded)
                    == ReaderStepView::Transact(next@, transaction),
                ReaderStep::Finished(data) => {
                    &&& self@.advance(loaded) == ReaderStepView::Finished(data@)
                    &&& self@.phase == Phase::Drain
                    &&& self@.taken(loaded).len() % 16 == 0
                    &&& self@.taken(loaded).len() <= raw_limit(self@.fifo_size)
                    &&& data@.itm.len() <= 15 * (self@.taken(loaded).len() / 16)
                    &&& bounds_trace(self@.fifo_size) ==> data@.itm.len() <= self@.fifo_size
                },
            },
    {
        proof {
            use_type_invariant(&self);
        }
        let ghost entered = self@;
        let TraceMemoryReader { tmc, id, phase, fifo_size, raw } = self;
        match phase {
            Phase::Start => {
                let next = TraceMemoryReader { tmc, id, phase: Phase::Size, fifo_size, raw };
                assert(next@ == (ReaderView { phase: Phase::Size, ..entered }));
                ReaderStep::Transact(next, tmc.fifo_size_request())
            },
            Phase::Size => {
                let fifo_size = TraceMemoryController::fifo_size(loaded);
                let next = TraceMemoryReader { tmc, id, phase: Phase::Drain, fifo_size, raw };
                assert(next@ == (ReaderView {
                    phase: Phase::Drain,
                    fifo_size: (4 * loaded) as nat,
                    ..entered
                }));
                ReaderStep::Transact(next, tmc.read_request())
            },
            Phase::Drain => {
                let mut raw = raw;
                let word = TraceMemoryController::read(loaded);
                if let Some(data) = word {
                    raw.push((data & 0xFFu32) as u8);
                    raw.push(((data >> 8u32) & 0xFFu32) as u8);
                    raw.push(((data >> 16u32) & 0xFFu32) as u8);
                    raw.push(((data >> 24u32) & 0xFFu32) as u8);
                }
                assert(raw@ =~= entered.taken(loaded));
                // The read can only end on a whole number of formatted
                // frames, which are 16 bytes each; it does when the FIFO has
                // nothing more, or when as much was read as the FIFO holds,
                // lest a FIFO that fills as fast as it is read holds the
                // reader forever.
                let frame_boundary = raw.len() % FRAME_LENGTH == 0;
                if frame_boundary && (word.is_none() || raw.len() as u64 >= fifo_size) {
                    let data = demultiplex(raw.as_slice(), id);
                    proof {
                        let frames = (raw@.len() / 16) as nat;
                        lemma_stream_items_len(raw@, id, frames);
                        lemma_source_bytes_len(stream_items(raw@, id, frames), Id(ITM_TRACE_ID));
                    }
                    ReaderStep::Finished(data)
                } else {
                    let next = TraceMemoryReader { tmc, id, phase, fifo_size, raw };
                    assert(next@ == (ReaderView { raw: entered.taken(loaded), ..entered }));
                    ReaderStep::Transact(next, tmc.read_request())
                }
            },
        }
    }
}

} // verus!
