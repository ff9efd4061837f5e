//! The Trace Memory Controller, and the formatted frames it stores trace in.

use crate::architecture::arm::component::DebugRegister;
use crate::architecture::arm::romtable::CoresightComponent;
use crate::architecture::arm::transaction::{Next, Transaction};
use vstd::prelude::*;
use vstd::std_specs::convert::FromSpecImpl;

verus! {

/// The offset of the RAM size register: the size of trace memory in words.
pub const REGISTER_OFFSET_RSZ: u32 = 0x04;

/// The offset of the RAM read data register: the head of the FIFO.
pub const REGISTER_OFFSET_RRD: u32 = 0x10;

/// The offset of the control register: bit 0 enables capture.
pub const REGISTER_OFFSET_CTL: u32 = 0x20;

/// What the RAM read data register reads as while the FIFO is empty.
pub const FIFO_EMPTY: u32 = 0xFFFF_FFFF;

/// How the controller uses its memory.
#[derive(Clone, Copy, Debug, PartialEq, Eq, Structural)]
pub enum Mode {
    /// A circular buffer: new trace overwrites the oldest.
    Circular,
    /// A FIFO that software drains through the read data register; the trace
    /// sources stall while it is full.
    Software,
    /// A FIFO that hardware drains to the trace port.
    Hardware,
}

impl Mode {
    /// The code of the mode in the mode register.
    pub open spec fn spec_bits(self) -> u8 {
        match self {
            Mode::Circular => 0,
            Mode::Software => 1,
            Mode::Hardware => 2,
        }
    }

    /// The code of the mode in the mode register.
    #[verifier::when_used_as_spec(spec_bits)]
    pub fn bits(self) -> (bits: u8)
        ensures
            bits == self.spec_bits(),
    {
        match self {
            Mode::Circular => 0,
            Mode::Software => 1,
            Mode::Hardware => 2,
        }
    }
}

/// The status register of the controller.
#[derive(Clone, Copy, Debug, PartialEq, Eq, Structural)]
pub struct Status(pub u32);

impl Status {
    /// Whether the controller has come to rest after capture was stopped.
    pub open spec fn spec_tmcready(&self) -> bool {
        self.0 & 0x4u32 != 0
    }

    /// Whether the controller has come to rest after capture was stopped.
    #[verifier::when_used_as_spec(spec_tmcready)]
    pub fn tmcready(&self) -> (ready: bool)
        ensures
            ready == self.spec_tmcready(),
    {
        self.0 & 0x4u32 != 0
    }
}

impl From<u32> for Status {
    fn from(word: u32) -> (register: Status) {
        Status(word)
    }
}

impl FromSpecImpl<u32> for Status {
    open spec fn obeys_from_spec() -> bool {
        true
    }

    open spec fn from_spec(word: u32) -> Status {
        Status(word)
    }
}

impl From<Status> for u32 {
    fn from(register: Status) -> (word: u32) {
        register.0
    }
}

impl FromSpecImpl<Status> for u32 {
    open spec fn obeys_from_spec() -> bool {
        true
    }

    open spec fn from_spec(register: Status) -> u32 {
        register.0
    }
}

impl DebugRegister for Status {
    const ADDRESS: u32 = 0x0C;

    const NAME: &'static str = "STS";
}

/// The mode register of the controller.
#[derive(Clone, Copy, Debug, PartialEq, Eq, Structural)]
pub struct EtfMode(pub u32);

impl EtfMode {
    /// The register with the mode code set to the low two bits of `value`.
    pub open spec fn with_mode(self, value: u8) -> EtfMode {
        EtfMode((self.0 & !0x3u32) | ((value & 3) as u32))
    }

    /// Selects the mode by its code.
    pub fn set_mode(&mut self, value: u8)
        ensures
            *final(self) == old(self).with_mode(value),
    {
        self.0 = (self.0 & !0x3u32) | ((value & 3) as u32);
    }
}

impl From<u32> for EtfMode {
    fn from(word: u32) -> (register: EtfMode) {
        EtfMode(word)
    }
}

impl FromSpecImpl<u32> for EtfMode {
    open spec fn obeys_from_spec() -> bool {
        true
    }

    open spec fn from_spec(word: u32) -> EtfMode {
        EtfMode(word)
    }
}

impl From<EtfMode> for u32 {
    fn from(register: EtfMode) -> (word: u32) {
        register.0
    }
}

impl FromSpecImpl<EtfMode> for u32 {
    open spec fn obeys_from_spec() -> bool {
        true
    }

    open spec fn from_spec(register: EtfMode) -> u32 {
        register.0
    }
}

impl DebugRegister for EtfMode {
    const ADDRESS: u32 = 0x28;

    const NAME: &'static str = "MODE";
}

/// The driver of a trace memory controller.
#[derive(Clone, Copy, Debug, PartialEq, Eq, Structural)]
pub struct TraceMemoryController {
    /// The component that is driven.
    pub component: CoresightComponent,
}

impl TraceMemoryController {
    /// The driver of `component`.
    pub fn new(component: &CoresightComponent) -> (tmc: TraceMemoryController)
        ensures
            tmc.component == *component,
    {
        TraceMemoryController { component: *component }
    }

    /// What `disable_capture` and `enable_capture` ask for at `stage`: the
    /// control register is written with `control`.
    pub open spec fn spec_capture(&self, control: u32, stage: u8) -> Next {
        if stage == 0 {
            Next::Issue(
                Transaction::Write {
                    address: self.component.register_address(REGISTER_OFFSET_CTL as int),
                    value: control,
                },
            )
        } else {
            Next::Complete
        }
    }

    /// Stops the capture of trace.
    pub fn disable_capture(&self, stage: u8) -> (next: Next)
        ensures
            next == self.spec_capture(0, stage),
    {
        if stage == 0 {
            Next::Issue(self.component.write_reg(REGISTER_OFFSET_CTL, 0))
        } else {
            Next::Complete
        }
    }

    /// Starts the capture of trace.
    pub fn enable_capture(&self, stage: u8) -> (next: Next)
        ensures
            next == self.spec_capture(1, stage),
    {
        if stage == 0 {
            Next::Issue(self.component.write_reg(REGISTER_OFFSET_CTL, 1))
        } else {
            Next::Complete
        }
    }

    /// What `ready` asks for at `stage`: the status register is read, and
    /// read again for as long as the word read does not show the controller
    /// at rest.
    pub open spec fn spec_ready(&self, stage: u8, loaded: u32) -> Next {
        if stage == 0 {
            Next::Issue(Transaction::Read { address: self.component.register_address(0x0C) })
        } else if stage == 1 && !Status(loaded).tmcready() {
            Next::Repeat(Transaction::Read { address: self.component.register_address(0x0C) })
        } else {
            Next::Complete
        }
    }

    /// Waits for the controller to come to rest.
    pub fn ready(&self, stage: u8, loaded: u32) -> (next: Next)
        ensures
            next == self.spec_ready(stage, loaded),
    {
        if stage == 0 {
            Next::Issue(Status::load(&self.component))
        } else if stage == 1 && !Status::from(loaded).tmcready() {
            Next::Repeat(Status::load(&self.component))
        } else {
            Next::Complete
        }
    }

    /// What `set_mode` asks for at `stage`: the mode register is read, then
    /// written back with the code of `mode`.
    pub open spec fn spec_set_mode(&self, mode: Mode, stage: u8, loaded: u32) -> Next {
        if stage == 0 {
            Next::Issue(Transaction::Read { address: self.component.register_address(0x28) })
        } else if stage == 1 {
            Next::Issue(
                Transaction::Write {
                    address: self.component.register_address(0x28),
                    value: EtfMode(loaded).with_mode(mode.bits()).0,
                },
            )
        } else {
            Next::Complete
        }
    }

    /// Selects how the controller uses its memory.
    pub fn set_mode(&self, mode: Mode, stage: u8, loaded: u32) -> (next: Next)
        ensures
            next == self.spec_set_mode(mode, stage, loaded),
    {
        if stage == 0 {
            Next::Issue(EtfMode::load(&self.component))
        } else if stage == 1 {
            let mut register = EtfMode::from(loaded);
            register.set_mode(mode.bits());
            Next::Issue(register.store(&self.component))
        } else {
            Next::Complete
        }
    }

    /// The read of the RAM size register.
    pub fn fifo_size_request(&self) -> (transaction: Transaction)
        ensures
            transaction == (Transaction::Read {
                address: self.component.register_address(REGISTER_OFFSET_RSZ as int),
            }),
    {
        self.component.read_reg(REGISTER_OFFSET_RSZ)
    }

    /// The size of the FIFO in bytes, when the RAM size register reads
    /// `words`.
    pub fn fifo_size(words: u32) -> (bytes: u64)
        ensures
            bytes == 4 * words,
    {
        4 * (words as u64)
    }

    /// The read of the RAM read data register, which pops the FIFO.
    pub fn read_request(&self) -> (transaction: Transaction)
        ensures
            transaction == (Transaction::Read {
                address: self.component.register_address(REGISTER_OFFSET_RRD as int),
            }),
    {
        self.component.read_reg(REGISTER_OFFSET_RRD)
    }

    /// The word of trace that the RAM read data register gave when it read
    /// `word`: none if the FIFO was empty.
    pub fn read(word: u32) -> (data: Option<u32>)
        ensures
            data == if word == FIFO_EMPTY {
                None
            } else {
                Some(word)
            },
    {
        if word == FIFO_EMPTY {
            None
        } else {
            Some(word)
        }
    }
}

/// A trace source identifier: which source a byte of trace came from.
#[derive(Clone, Copy, Debug, Default, PartialEq, Eq, PartialOrd, Ord, Hash, Structural)]
pub struct Id(pub u8);

impl From<u8> for Id {
    fn from(id: u8) -> (source: Id) {
        Id(id)
    }
}

impl FromSpecImpl<u8> for Id {
    open spec fn obeys_from_spec() -> bool {
        true
    }

    open spec fn from_spec(id: u8) -> Id {
        Id(id)
    }
}

impl From<Id> for u8 {
    fn from(source: Id) -> (id: u8) {
        source.0
    }
}

impl FromSpecImpl<Id> for u8 {
    open spec fn obeys_from_spec() -> bool {
        true
    }

    open spec fn from_spec(source: Id) -> u8 {
        source.0
    }
}

/// The length of a formatted frame in bytes.
pub const FRAME_LENGTH: usize = 16;

/// The number of byte pairs in a frame. Pair `p` is bytes `2p` and `2p + 1`;
/// in the last pair the second byte is not trace but the auxiliary byte.
pub const FRAME_PAIRS: u8 = 8;

/// Bit `pair` of the auxiliary byte of `frame`, its last byte: the bit that
/// goes with the first byte of pair `pair`.
pub open spec fn aux_bit(frame: Seq<u8>, pair: u8) -> u8 {
    (frame[15] >> pair) & 1u8
}

/// Whether the first byte of pair `pair` of `frame` names a new source.
/// Otherwise it is a byte of trace.
pub open spec fn pair_changes_id(frame: Seq<u8>, pair: u8) -> bool {
    frame[2 * pair] & 1u8 == 1u8
}

/// The source in effect after pair `pair` of `frame`, when `id` was in effect
/// before it.
pub open spec fn pair_id(frame: Seq<u8>, pair: u8, id: Id) -> Id {
    if pair_changes_id(frame, pair) {
        Id(frame[2 * pair] >> 1u8)
    } else {
        id
    }
}

/// The bytes of trace in pair `pair` of `frame`, each with its source, when
/// `id` was in effect before the pair.
///
/// A first byte that is trace has lent its lowest bit to the auxiliary byte,
/// and belongs to `id`, as does the second byte then. A first byte that names
/// a new source is no trace; the second byte belongs to the new source, or
/// still to `id` if the auxiliary bit says that the change comes after it.
pub open spec fn pair_items(frame: Seq<u8>, pair: u8, id: Id) -> Seq<(Id, u8)> {
    let first = frame[2 * pair];
    let second = frame[2 * pair + 1];
    let aux = aux_bit(frame, pair);
    if pair_changes_id(frame, pair) {
        if pair == 7 {
            Seq::empty()
        } else if aux == 1u8 {
            seq![(id, second)]
        } else {
            seq![(Id(first >> 1u8), second)]
        }
    } else {
        if pair == 7 {
            seq![(id, first | aux)]
        } else {
            seq![(id, first | aux), (id, second)]
        }
    }
}

/// The source in effect after the first `pairs` pairs of `frame`, when `id`
/// was in effect at its start.
pub open spec fn frame_id_to(frame: Seq<u8>, id: Id, pairs: u8) -> Id
    decreases pairs,
{
    if pairs == 0 {
        id
    } else {
        pair_id(frame, (pairs - 1) as u8, frame_id_to(frame, id, (pairs - 1) as u8))
    }
}

/// The bytes of trace in the first `pairs` pairs of `frame`, in order, each
/// with its source, when `id` was in effect at the start of the frame.
pub open spec fn frame_items_to(frame: Seq<u8>, id: Id, pairs: u8) -> Seq<(Id, u8)>
    decreases pairs,
{
    if pairs == 0 {
        Seq::empty()
    } else {
        frame_items_to(frame, id, (pairs - 1) as u8) + pair_items(
            frame,
            (pairs - 1) as u8,
            frame_id_to(frame, id, (pairs - 1) as u8),
        )
    }
}

/// The source in effect after `frame`, when `id` was in effect at its start.
pub open spec fn frame_id(frame: Seq<u8>, id: Id) -> Id {
    frame_id_to(frame, id, FRAME_PAIRS)
}

/// The bytes of trace in `frame`, in order, each with its source, when `id`
/// was in effect at the start of the frame.
pub open spec fn frame_items(frame: Seq<u8>, id: Id) -> Seq<(Id, u8)> {
    frame_items_to(frame, id, FRAME_PAIRS)
}

/// A frame holds at most 15 bytes of trace: two in each pair but the last,
/// which has one.
pub proof fn lemma_frame_items_len(frame: Seq<u8>, id: Id, pairs: u8)
    requires
        pairs <= FRAME_PAIRS,
    ensures
        frame_items_to(frame, id, pairs).len() <= 2 * pairs,
        pairs == FRAME_PAIRS ==> frame_items_to(frame, id, pairs).len() <= 15,
    decreases pairs,
{
    if pairs > 0 {
        lemma_frame_items_len(frame, id, (pairs - 1) as u8);
    }
}

/// A formatted frame of trace memory, with the source in effect at the point
/// that decoding has reached.
#[derive(Clone, Copy, Debug)]
pub struct Frame<'a> {
    data: &'a [u8],
    id: Id,
}

impl<'a> Frame<'a> {
    #[verifier::type_invariant]
    spec fn whole(self) -> bool {
        self.data@.len() == FRAME_LENGTH
    }

    /// The bytes of the frame.
    pub closed spec fn bytes(&self) -> Seq<u8> {
        self.data@
    }

    /// The source in effect.
    pub closed spec fn spec_id(&self) -> Id {
        self.id
    }

    /// The frame `data`, entered with `id` in effect.
    pub fn new(data: &'a [u8], id: Id) -> (frame: Frame<'a>)
        requires
            data@.len() == FRAME_LENGTH,
        ensures
            frame.bytes() == data@,
            frame.id() == id,
    {
        Frame { data, id }
    }

    /// The source in effect: the one the frame was entered with, or after
    /// `decode` the one it leaves behind.
    #[verifier::when_used_as_spec(spec_id)]
    pub fn id(&self) -> (id: Id)
        ensures
            id == self.spec_id(),
    {
        self.id
    }

    /// The bytes of trace in the frame, in order, each with its source. The
    /// source that the frame leaves in effect is then in `id`.
    pub fn decode(&mut self) -> (items: Vec<(Id, u8)>)
        ensures
            items@ == frame_items(old(self).bytes(), old(self).id()),
            final(self).id() == frame_id(old(self).bytes(), old(self).id()),
            final(self).bytes() == old(self).bytes(),
    {
        proof {
            use_type_invariant(&*self);
        }
        let data = self.data;
        let ghost entered = self.id;
        let mut id = self.id;
        let mut items: Vec<(Id, u8)> = Vec::new();
        let mut pair: u8 = 0;
        while pair < FRAME_PAIRS
            invariant
                pair <= FRAME_PAIRS,
                data@.len() == FRAME_LENGTH,
                id == frame_id_to(data@, entered, pair),
                items@ == frame_items_to(data@, entered, pair),
            decreases FRAME_PAIRS - pair,
        {
            let first = data[(2 * pair) as usize];
            let aux = (data[15] >> pair) & 1u8;
            if first & 1u8 == 1u8 {
                let changed = Id(first >> 1u8);
                if pair < 7 {
                    let second = data[(2 * pair + 1) as usize];
                    if aux == 1u8 {
                        items.push((id, second));
                    } else {
                        items.push((changed, second));
                    }
                }
                id = changed;
            } else {
                items.push((id, first | aux));
                if pair < 7 {
                    let second = data[(2 * pair + 1) as usize];
                    items.push((id, second));
                }
            }
            pair = pair + 1;
            assert(items@ =~= frame_items_to(data@, entered, pair));
        }
        self.id = id;
        items
    }
}

} // verus!
