//! CoreSight components: their registers, their drivers, and the procedures
//! that route trace to a sink and read it back.

pub mod dwt;
pub mod itm;
pub mod swo;
pub mod tmc;
pub mod tpiu;

use crate::architecture::arm::capture::{Phase, ReaderView, TraceMemoryReader};
use crate::architecture::arm::component::tmc::{Id, Mode};
use crate::architecture::arm::procedure::{Operation, Procedure, ProcedureView, StepView};
use crate::architecture::arm::romtable::{CoresightComponent, PeripheralType};
use crate::architecture::arm::swo::SwoConfig;
use crate::architecture::arm::transaction::Transaction;
use crate::error::ArmError;
use vstd::prelude::*;
use vstd::std_specs::convert::{FromSpec, IntoSpec};

pub use self::dwt::Dwt;
pub use self::itm::Itm;
pub use self::swo::Swo;
pub use self::tmc::TraceMemoryController;
pub use self::tpiu::Tpiu;

verus! {

/// Specifies the data sink (destination) for trace data.
#[derive(Clone, Copy, Debug, PartialEq, Eq, Structural)]
pub enum TraceSink {
    /// Trace data should be sent to the SWO peripheral.
    ///
    /// On some architectures, there is no distinction between SWO and TPIU.
    Swo(SwoConfig),
    /// Trace data should be sent to the TPIU peripheral.
    Tpiu(SwoConfig),
    /// Trace data should be sent to the embedded trace buffer for
    /// software-based trace collection.
    TraceMemory,
}

/// A failure of a component to take a configuration.
#[derive(Clone, Copy, Debug, PartialEq, Eq, Structural)]
pub enum ComponentError {
    /// Nordic chips do not support setting all TPIU clocks. Try choosing another clock speed.
    NordicUnsupportedTPUICLKValue(u32),
}

/// The distance in bytes between the copies of a register that belong to
/// consecutive units of a component.
pub const UNIT_STRIDE: u32 = 16;

/// The offset of the copy for `unit` of the register at offset `address`.
pub open spec fn unit_offset(address: u32, unit: usize) -> int {
    address + UNIT_STRIDE * unit
}

/// Whether the conversions of the register type `R` from and into a word are
/// specified, so that contracts can speak of them.
pub open spec fn specified<R: From<u32> + Into<u32>>() -> bool {
    <R as FromSpec<u32>>::obeys_from_spec() && <R as IntoSpec<u32>>::obeys_into_spec()
}

/// The word that holds `register`.
pub open spec fn word_of<R: Into<u32>>(register: R) -> u32 {
    <R as IntoSpec<u32>>::into_spec(register)
}

/// A register of a debug component: a 32-bit word at a fixed offset, with a
/// layout of its own.
///
/// Loading and storing compose the one bus transaction that does it. The word
/// that a load reads becomes the register through `From<u32>`.
pub trait DebugRegister: Clone + Copy + From<u32> + Into<u32> + Sized + core::fmt::Debug {
    /// The address of the register, as an offset into its component.
    const ADDRESS: u32;

    /// The name of the register.
    const NAME: &'static str;

    /// The transaction that reads the register of `component`.
    fn load(component: &CoresightComponent) -> (transaction: Transaction)
        ensures
            transaction == (Transaction::Read {
                address: component.register_address(Self::ADDRESS as int),
            }),
    {
        component.read_reg(Self::ADDRESS)
    }

    /// The transaction that reads the register's copy for `unit` of
    /// `component`.
    fn load_unit(component: &CoresightComponent, unit: usize) -> (transaction: Transaction)
        requires
            unit_offset(Self::ADDRESS, unit) <= u32::MAX,
        ensures
            transaction == (Transaction::Read {
                address: component.register_address(unit_offset(Self::ADDRESS, unit)),
            }),
    {
        component.read_reg(Self::ADDRESS + UNIT_STRIDE * (unit as u32))
    }

    /// The transaction that writes the register to `component`.
    fn store(&self, component: &CoresightComponent) -> (transaction: Transaction)
        ensures
            specified::<Self>() ==> transaction == (Transaction::Write {
                address: component.register_address(Self::ADDRESS as int),
                value: word_of(*self),
            }),
            transaction is Write,
            transaction.address() == component.register_address(Self::ADDRESS as int),
    {
        component.write_reg(Self::ADDRESS, (*self).into())
    }

    /// The transaction that writes the register to its copy for `unit` of
    /// `component`.
    fn store_unit(&self, component: &CoresightComponent, unit: usize) -> (transaction: Transaction)
        requires
            unit_offset(Self::ADDRESS, unit) <= u32::MAX,
        ensures
            specified::<Self>() ==> transaction == (Transaction::Write {
                address: component.register_address(unit_offset(Self::ADDRESS, unit)),
                value: word_of(*self),
            }),
            transaction is Write,
            transaction.address() == component.register_address(unit_offset(Self::ADDRESS, unit)),
    {
        component.write_reg(Self::ADDRESS + UNIT_STRIDE * (unit as u32), (*self).into())
    }
}

/// The first of `components` that is of kind `peripheral_type`, or that no
/// component of that kind was found.
pub open spec fn locate(
    components: Seq<CoresightComponent>,
    peripheral_type: PeripheralType,
) -> Result<CoresightComponent, ArmError>
    decreases components.len(),
{
    if components.len() == 0 {
        Err(ArmError::ComponentNotFound(peripheral_type))
    } else if components[0].peripheral_type() == peripheral_type {
        Ok(components[0])
    } else {
        locate(components.drop_first(), peripheral_type)
    }
}

/// What `locate` gives is the component at the least index among those of
/// the kind asked for; it fails exactly when there is none, and the failure
/// names the kind.
pub proof fn lemma_locate_first(components: Seq<CoresightComponent>, peripheral_type: PeripheralType)
    ensures
        match locate(components, peripheral_type) {
            Ok(component) => exists|i: int|
                0 <= i < components.len() && components[i] == component
                    && component.peripheral_type() == peripheral_type && forall|j: int|
                    0 <= j < i ==> (#[trigger] components[j]).peripheral_type()
                        != peripheral_type,
            Err(error) => error == ArmError::ComponentNotFound(peripheral_type) && forall|j: int|
                0 <= j < components.len() ==> (#[trigger] components[j]).peripheral_type()
                    != peripheral_type,
        },
    decreases components.len(),
{
    if components.len() > 0 && components[0].peripheral_type() != peripheral_type {
        let rest = components.drop_first();
        lemma_locate_first(rest, peripheral_type);
        assert(forall|j: int| 0 <= j < rest.len() ==> rest[j] == components[j + 1]);
        match locate(rest, peripheral_type) {
            Ok(component) => {
                let i = choose|i: int|
                    0 <= i < rest.len() && rest[i] == component && component.peripheral_type()
                        == peripheral_type && forall|j: int|
                        0 <= j < i ==> (#[trigger] rest[j]).peripheral_type() != peripheral_type;
                assert forall|j: int| 0 <= j < i + 1 implies (#[trigger] components[j]).peripheral_type()
                    != peripheral_type by {
                    if j > 0 {
                        assert(rest[j - 1] == components[j]);
                    }
                }
                assert(components[i + 1] == component);
            },
            Err(_) => {
                assert forall|j: int| 0 <= j < components.len() implies (
                #[trigger] components[j]).peripheral_type() != peripheral_type by {
                    if j > 0 {
                        assert(rest[j - 1] == components[j]);
                    }
                }
            },
        }
    } else if components.len() > 0 {
        assert(components[0] == components[0]);
    }
}

/// Goes through `components` in order and finds the first one of kind
/// `peripheral_type`.
pub fn find_component(components: &[CoresightComponent], peripheral_type: PeripheralType) -> (found:
    Result<&CoresightComponent, ArmError>)
    ensures
        match found {
            Ok(component) => locate(components@, peripheral_type) == Ok::<
                CoresightComponent,
                ArmError,
            >(*component),
            Err(error) => locate(components@, peripheral_type) == Err::<CoresightComponent, ArmError>(
                error,
            ),
        },
        match found {
            Ok(component) => exists|i: int|
                0 <= i < components@.len() && components@[i] == *component
                    && component.peripheral_type() == peripheral_type && forall|j: int|
                    0 <= j < i ==> (#[trigger] components@[j]).peripheral_type()
                        != peripheral_type,
            Err(error) => error == ArmError::ComponentNotFound(peripheral_type) && forall|j: int|
                0 <= j < components@.len() ==> (#[trigger] components@[j]).peripheral_type()
                    != peripheral_type,
        },
{
    let mut index: usize = 0;
    assert(components@.skip(0) =~= components@);
    while index < components.len()
        invariant
            index <= components@.len(),
            locate(components@, peripheral_type) == locate(
                components@.skip(index as int),
                peripheral_type,
            ),
        decreases components@.len() - index,
    {
        let ghost rest = components@.skip(index as int);
        assert(rest[0] == components@[index as int]);
        assert(rest.drop_first() =~= components@.skip(index + 1));
        if let Some(component) = components[index].find_component(peripheral_type) {
            proof {
                lemma_locate_first(components@, peripheral_type);
            }
            return Ok(component);
        }
        index = index + 1;
    }
    assert(components@.skip(index as int).len() == 0);
    proof {
        lemma_locate_first(components@, peripheral_type);
    }
    Err(ArmError::ComponentNotFound(peripheral_type))
}

/// The operations that make the TPIU `component` a serial wire output as
/// `config` says: one wire, the clock divided by `floor(tpiu_clk / baud)`,
/// the line encoding, and the formatter word.
pub open spec fn tpiu_operations(component: CoresightComponent, config: SwoConfig) -> Seq<
    Operation,
> {
    let tpiu = Tpiu { component };
    seq![
        Operation::TpiuSetPortSize(tpiu, 1),
        Operation::TpiuSetPrescaler(tpiu, config.spec_prescaler() as u32),
        Operation::TpiuSetPinProtocol(tpiu, config.mode.pin_protocol()),
        Operation::TpiuSetFormatter(tpiu, config.formatter()),
    ]
}

/// The operations that set the SWO unit `component` up as `config` says: the
/// unit unlocked, the clock divided by `floor(tpiu_clk / baud)`, and the line
/// encoding.
pub open spec fn swo_operations(component: CoresightComponent, config: SwoConfig) -> Seq<
    Operation,
> {
    let swo = Swo { component };
    seq![
        Operation::SwoUnlock(swo),
        Operation::SwoSetPrescaler(swo, config.spec_prescaler() as u32),
        Operation::SwoSetPinProtocol(swo, config.mode.pin_protocol()),
    ]
}

/// The operations that restart capture into the trace memory `component`:
/// capture stopped, the controller awaited until it is at rest, the memory
/// made a FIFO for software to drain, capture started.
pub open spec fn tmc_operations(component: CoresightComponent) -> Seq<Operation> {
    let tmc = TraceMemoryController { component };
    seq![
        Operation::TmcDisableCapture(tmc),
        Operation::TmcReady(tmc),
        Operation::TmcSetMode(tmc, Mode::Software),
        Operation::TmcEnableCapture(tmc),
    ]
}

/// The operations that switch the trace sources on: the DWT with its
/// exception trace, then the ITM unlocked and enabled.
pub open spec fn source_operations(dwt: CoresightComponent, itm: CoresightComponent) -> Seq<
    Operation,
> {
    seq![
        Operation::DwtEnable(Dwt { component: dwt }),
        Operation::DwtEnableExceptionTrace(Dwt { component: dwt }),
        Operation::ItmUnlock(Itm { component: itm }),
        Operation::ItmTxEnable(Itm { component: itm }),
    ]
}

/// The operations that arm the TPIU of the target with `components` as
/// `config` says, and what they end in.
pub open spec fn tpiu_plan(components: Seq<CoresightComponent>, config: SwoConfig) -> (
    Seq<Operation>,
    Result<(), ArmError>,
) {
    match locate(components, PeripheralType::Tpiu) {
        Ok(tpiu) => (tpiu_operations(tpiu, config), Ok(())),
        Err(error) => (Seq::empty(), Err(error)),
    }
}

/// The operations that arm `sink` on the target with `components`, and what
/// they end in. A sink whose component is missing has no operations and ends
/// in the failure that names the component; an SWO sink on a target without
/// an SWO unit is a TPIU sink with the same configuration.
pub open spec fn sink_plan(components: Seq<CoresightComponent>, sink: TraceSink) -> (
    Seq<Operation>,
    Result<(), ArmError>,
) {
    match sink {
        TraceSink::Tpiu(config) => tpiu_plan(components, config),
        TraceSink::Swo(config) => match locate(components, PeripheralType::Swo) {
            Ok(swo) => (swo_operations(swo, config), Ok(())),
            Err(_) => tpiu_plan(components, config),
        },
        TraceSink::TraceMemory => match locate(components, PeripheralType::Tmc) {
            Ok(tmc) => (tmc_operations(tmc), Ok(())),
            Err(error) => (Seq::empty(), Err(error)),
        },
    }
}

/// The operations that route trace to `sink` on the target with
/// `components`, and what they end in: the sources are switched on first,
/// then the sink is armed. Where a component is missing the operations stop
/// before the first one that needs it, and end in the failure that names it.
pub open spec fn setup_plan(components: Seq<CoresightComponent>, sink: TraceSink) -> (
    Seq<Operation>,
    Result<(), ArmError>,
) {
    match locate(components, PeripheralType::Dwt) {
        Err(error) => (Seq::empty(), Err(error)),
        Ok(dwt) => match locate(components, PeripheralType::Itm) {
            Err(error) => (source_operations(dwt, dwt).take(2), Err(error)),
            Ok(itm) => (
                source_operations(dwt, itm) + sink_plan(components, sink).0,
                sink_plan(components, sink).1,
            ),
        },
    }
}

/// Whether routing trace to `sink` on the target with `components` comes to
/// compute a clock prescaler: the sources and a serial sink are there.
pub open spec fn computes_prescaler(components: Seq<CoresightComponent>, sink: TraceSink) -> bool {
    &&& locate(components, PeripheralType::Dwt) is Ok
    &&& locate(components, PeripheralType::Itm) is Ok
    &&& match sink {
        TraceSink::Tpiu(_) => locate(components, PeripheralType::Tpiu) is Ok,
        TraceSink::Swo(_) => locate(components, PeripheralType::Swo) is Ok || locate(
            components,
            PeripheralType::Tpiu,
        ) is Ok,
        TraceSink::TraceMemory => false,
    }
}

/// On a target without an SWO unit, routing trace to the SWO is routing it
/// to the TPIU with the same configuration: the same operations, hence the
/// same register writes, and the same outcome.
pub proof fn lemma_swo_falls_back_to_tpiu(components: Seq<CoresightComponent>, config: SwoConfig)
    requires
        locate(components, PeripheralType::Swo) is Err,
    ensures
        setup_plan(components, TraceSink::Swo(config)) == setup_plan(
            components,
            TraceSink::Tpiu(config),
        ),
        forall|loads: Seq<u32>|
            #![trigger ProcedureView::start(
                setup_plan(components, TraceSink::Swo(config)).0,
                setup_plan(components, TraceSink::Swo(config)).1,
            ).transactions(loads)]
            ProcedureView::start(
                setup_plan(components, TraceSink::Swo(config)).0,
                setup_plan(components, TraceSink::Swo(config)).1,
            ).transactions(loads) == ProcedureView::start(
                setup_plan(components, TraceSink::Tpiu(config)).0,
                setup_plan(components, TraceSink::Tpiu(config)).1,
            ).transactions(loads),
{
}

/// Whatever the sink, no operation on a sink component comes before the
/// sources are switched on: where the procedure has an operation on the
/// TPIU, the SWO unit or the trace memory controller, the DWT and the ITM
/// were found, the first four operations are those that enable the DWT and
/// its exception trace and unlock and enable the ITM, and the operation on
/// the sink comes after them.
pub proof fn lemma_sources_before_sink(
    components: Seq<CoresightComponent>,
    sink: TraceSink,
    position: int,
)
    requires
        0 <= position < setup_plan(components, sink).0.len(),
        setup_plan(components, sink).0[position].is_sink(),
    ensures
        locate(components, PeripheralType::Dwt) is Ok,
        locate(components, PeripheralType::Itm) is Ok,
        position >= 4,
        setup_plan(components, sink).0.take(4) == source_operations(
            locate(components, PeripheralType::Dwt)->Ok_0,
            locate(components, PeripheralType::Itm)->Ok_0,
        ),
        forall|i: int| 0 <= i < 4 ==> (#[trigger] setup_plan(components, sink).0[i]).is_source(),
{
    let dwt = locate(components, PeripheralType::Dwt);
    let itm = locate(components, PeripheralType::Itm);
    if dwt is Ok && itm is Ok {
        let sources = source_operations(dwt->Ok_0, itm->Ok_0);
        assert(setup_plan(components, sink).0.take(4) =~= sources);
    }
}

/// The transactions that switch the sources on, each with the index of its
/// operation, when the words of `loads` are what the procedure is advanced
/// with: the control register of the DWT read and written back twice, the
/// ITM unlocked, its control register read and written back, and its
/// stimulus ports enabled.
pub open spec fn source_transactions(
    dwt: CoresightComponent,
    itm: CoresightComponent,
    loads: Seq<u32>,
) -> Seq<(nat, Transaction)> {
    seq![
        (0nat, Transaction::Read { address: dwt.register_address(0x00) }),
        (
            0nat,
            Transaction::Write {
                address: dwt.register_address(0x00),
                value: dwt::Ctrl(loads[1]).with_synctap(1).with_cyccntena(true).0,
            },
        ),
        (1nat, Transaction::Read { address: dwt.register_address(0x00) }),
        (
            1nat,
            Transaction::Write {
                address: dwt.register_address(0x00),
                value: dwt::Ctrl(loads[3]).with_exctrcena(true).0,
            },
        ),
        (
            2nat,
            Transaction::Write {
                address: itm.register_address(itm::REGISTER_OFFSET_ACCESS as int),
                value: itm::UNLOCK_KEY,
            },
        ),
        (
            3nat,
            Transaction::Read { address: itm.register_address(itm::REGISTER_OFFSET_ITM_TCR as int) },
        ),
        (
            3nat,
            Transaction::Write {
                address: itm.register_address(itm::REGISTER_OFFSET_ITM_TCR as int),
                value: itm::tcr_enabled(loads[6]),
            },
        ),
        (
            3nat,
            Transaction::Write {
                address: itm.register_address(itm::REGISTER_OFFSET_ITM_TER as int),
                value: 0xFFFF_FFFF,
            },
        ),
    ]
}

/// Whatever the sink and whatever the target answers, on a target with a DWT
/// and an ITM the log of transactions begins with the eight that switch the
/// sources on, and a transaction of any later operation, which is where the
/// sink is programmed, comes after them.
pub proof fn lemma_source_transactions_first(
    components: Seq<CoresightComponent>,
    sink: TraceSink,
    loads: Seq<u32>,
)
    requires
        locate(components, PeripheralType::Dwt) is Ok,
        locate(components, PeripheralType::Itm) is Ok,
        loads.len() >= 8,
    ensures
        ({
            let plan = setup_plan(components, sink);
            let log = ProcedureView::start(plan.0, plan.1).transactions(loads);
            &&& log.len() >= 8
            &&& log.take(8) == source_transactions(
                locate(components, PeripheralType::Dwt)->Ok_0,
                locate(components, PeripheralType::Itm)->Ok_0,
                loads,
            )
            &&& forall|k: int| 0 <= k < log.len() && (#[trigger] log[k]).0 >= 4 ==> k >= 8
        }),
{
    let dwt = locate(components, PeripheralType::Dwt)->Ok_0;
    let itm = locate(components, PeripheralType::Itm)->Ok_0;
    let plan = setup_plan(components, sink);
    let operations = plan.0;
    let sources = source_operations(dwt, itm);
    assert(operations.len() >= 4);
    assert(forall|i: int| 0 <= i < 4 ==> operations[i] == sources[i]);
    let expected = source_transactions(dwt, itm, loads);
    let at = |index: nat, stage: u8| ProcedureView { operations, outcome: plan.1, index, stage };
    let view0 = at(0, 0);
    let view1 = at(0, 1);
    let view2 = at(0, 2);
    let view3 = at(1, 1);
    let view4 = at(1, 2);
    let view5 = at(2, 1);
    let view6 = at(3, 1);
    let view7 = at(3, 2);
    let view8 = at(3, 3);
    assert(view0 == ProcedureView::start(plan.0, plan.1));
    assert(view0.advance(loads[0]) == StepView::Transact(view1, expected[0].1));
    assert(view1.advance(loads[1]) == StepView::Transact(view2, expected[1].1));
    assert(view2.advance(loads[2]) == StepView::Transact(view3, expected[2].1)) by {
        assert(at(1, 0).advance(loads[2]) == StepView::Transact(view3, expected[2].1));
    }
    assert(view3.advance(loads[3]) == StepView::Transact(view4, expected[3].1));
    assert(view4.advance(loads[4]) == StepView::Transact(view5, expected[4].1)) by {
        assert(at(2, 0).advance(loads[4]) == StepView::Transact(view5, expected[4].1));
    }
    assert(view5.advance(loads[5]) == StepView::Transact(view6, expected[5].1)) by {
        assert(at(3, 0).advance(loads[5]) == StepView::Transact(view6, expected[5].1));
    }
    assert(view6.advance(loads[6]) == StepView::Transact(view7, expected[6].1));
    assert(view7.advance(loads[7]) == StepView::Transact(view8, expected[7].1));
    let words0 = loads;
    let words1 = words0.drop_first();
    let words2 = words1.drop_first();
    let words3 = words2.drop_first();
    let words4 = words3.drop_first();
    let words5 = words4.drop_first();
    let words6 = words5.drop_first();
    let words7 = words6.drop_first();
    let words8 = words7.drop_first();
    assert(words1[0] == loads[1] && words2[0] == loads[2] && words3[0] == loads[3] && words4[0] == loads[4]
        && words5[0] == loads[5] && words6[0] == loads[6] && words7[0] == loads[7]);
    let log8 = view8.transactions(words8);
    let log7 = view7.transactions(words7);
    let log6 = view6.transactions(words6);
    let log5 = view5.transactions(words5);
    let log4 = view4.transactions(words4);
    let log3 = view3.transactions(words3);
    let log2 = view2.transactions(words2);
    let log1 = view1.transactions(words1);
    let log0 = view0.transactions(words0);
    assert(log7 == seq![expected[7]] + log8);
    assert(log6 == seq![expected[6]] + log7);
    assert(log5 == seq![expected[5]] + log6);
    assert(log4 == seq![expected[4]] + log5);
    assert(log3 == seq![expected[3]] + log4);
    assert(log2 == seq![expected[2]] + log3);
    assert(log1 == seq![expected[1]] + log2);
    assert(log0 == seq![expected[0]] + log1);
    assert(log0.take(8) =~= expected);
    assert forall|k: int| 0 <= k < log0.len() && (#[trigger] log0[k]).0 >= 4 implies k >= 8 by {
        if k < 8 {
            assert(log0[k] == log0.take(8)[k]);
        }
    }
}

/// Whether routing trace to `sink` on the target with `components` comes to
/// compute a clock prescaler.
pub fn needs_prescaler(components: &[CoresightComponent], sink: &TraceSink) -> (needs: bool)
    ensures
        needs == computes_prescaler(components@, *sink),
{
    if find_component(components, PeripheralType::Dwt).is_err() {
        return false;
    }
    if find_component(components, PeripheralType::Itm).is_err() {
        return false;
    }
    match sink {
        TraceSink::Tpiu(_) => find_component(components, PeripheralType::Tpiu).is_ok(),
        TraceSink::Swo(_) => find_component(components, PeripheralType::Swo).is_ok()
            || find_component(components, PeripheralType::Tpiu).is_ok(),
        TraceSink::TraceMemory => false,
    }
}

impl TraceSink {
    /// The configuration of the serial output, for a sink that is one.
    pub open spec fn spec_config(&self) -> Option<SwoConfig> {
        match *self {
            TraceSink::Swo(config) => Some(config),
            TraceSink::Tpiu(config) => Some(config),
            TraceSink::TraceMemory => None,
        }
    }

    /// The configuration of the serial output, for a sink that is one.
    #[verifier::when_used_as_spec(spec_config)]
    pub fn config(&self) -> (config: Option<SwoConfig>)
        ensures
            config == self.spec_config(),
    {
        match *self {
            TraceSink::Swo(config) => Some(config),
            TraceSink::Tpiu(config) => Some(config),
            TraceSink::TraceMemory => None,
        }
    }

    /// Whether the sink's clock, if it has one, can be divided down to its
    /// baud rate.
    pub open spec fn spec_has_prescaler(&self) -> bool {
        match self.config() {
            Some(config) => config.has_prescaler(),
            None => true,
        }
    }

    /// Whether the sink's clock, if it has one, can be divided down to its
    /// baud rate.
    #[verifier::when_used_as_spec(spec_has_prescaler)]
    pub fn has_prescaler(&self) -> (has: bool)
        ensures
            has == self.spec_has_prescaler(),
    {
        match self.config() {
            Some(config) => config.has_prescaler(),
            None => true,
        }
    }
}

/// Configure the Trace Port Interface Unit.
///
/// Gives the operations that make the TPIU `component` a serial wire output
/// with the pin configuration `config`.
pub fn configure_tpiu(component: &CoresightComponent, config: &SwoConfig) -> (operations: Vec<
    Operation,
>)
    requires
        config.has_prescaler(),
    ensures
        operations@ == tpiu_operations(*component, *config),
{
    let tpiu = Tpiu::new(component);
    let mut operations: Vec<Operation> = Vec::new();
    operations.push(Operation::TpiuSetPortSize(tpiu, 1));
    operations.push(Operation::TpiuSetPrescaler(tpiu, config.prescaler()));
    operations.push(Operation::TpiuSetPinProtocol(tpiu, config.pin_protocol()));
    // Formatter: trigger input enabled, continuous formatting optional.
    operations.push(Operation::TpiuSetFormatter(tpiu, config.formatter()));
    assert(operations@ =~= tpiu_operations(*component, *config));
    operations
}

/// Sets up all the trace components.
///
/// Gives the procedure that routes trace to `sink`, given the list of all
/// `components` of the target.
pub fn setup_tracing(components: &[CoresightComponent], sink: &TraceSink) -> (procedure: Procedure)
    requires
        computes_prescaler(components@, *sink) ==> sink.has_prescaler(),
    ensures
        procedure@ == ProcedureView::start(
            setup_plan(components@, *sink).0,
            setup_plan(components@, *sink).1,
        ),
{
    let mut operations: Vec<Operation> = Vec::new();

    // Configure DWT
    let dwt = match find_component(components, PeripheralType::Dwt) {
        Ok(component) => Dwt::new(component),
        Err(error) => {
            return Procedure::new(operations, Err(error));
        },
    };
    operations.push(Operation::DwtEnable(dwt));
    operations.push(Operation::DwtEnableExceptionTrace(dwt));
    assert(operations@ =~= source_operations(dwt.component, dwt.component).take(2));

    // Configure ITM
    let itm = match find_component(components, PeripheralType::Itm) {
        Ok(component) => Itm::new(component),
        Err(error) => {
            return Procedure::new(operations, Err(error));
        },
    };
    operations.push(Operation::ItmUnlock(itm));
    operations.push(Operation::ItmTxEnable(itm));
    assert(operations@ =~= source_operations(dwt.component, itm.component));

    // Configure the trace destination.
    let outcome = match sink {
        TraceSink::Tpiu(config) => match find_component(components, PeripheralType::Tpiu) {
            Ok(component) => {
                let mut sink_operations = configure_tpiu(component, config);
                operations.append(&mut sink_operations);
                Ok(())
            },
            Err(error) => Err(error),
        },
        TraceSink::Swo(config) => match find_component(components, PeripheralType::Swo) {
            Ok(component) => {
                let swo = Swo::new(component);
                operations.push(Operation::SwoUnlock(swo));
                operations.push(Operation::SwoSetPrescaler(swo, config.prescaler()));
                operations.push(Operation::SwoSetPinProtocol(swo, config.pin_protocol()));
                assert(operations@ =~= source_operations(dwt.component, itm.component)
                    + swo_operations(*component, *config));
                Ok(())
            },
            Err(_) => {
                // Where the SWO and the TPIU are one block there is no SWO
                // component: use the TPIU instead.
                match find_component(components, PeripheralType::Tpiu) {
                    Ok(component) => {
                        let mut sink_operations = configure_tpiu(component, config);
                        operations.append(&mut sink_operations);
                        Ok(())
                    },
                    Err(error) => Err(error),
                }
            },
        },
        TraceSink::TraceMemory => match find_component(components, PeripheralType::Tmc) {
            Ok(component) => {
                let tmc = TraceMemoryController::new(component);
                // Clear out the FIFO before initiating the capture.
                operations.push(Operation::TmcDisableCapture(tmc));
                operations.push(Operation::TmcReady(tmc));
                // Software-polled mode: the data is read out over the debug
                // interface.
                operations.push(Operation::TmcSetMode(tmc, Mode::Software));
                operations.push(Operation::TmcEnableCapture(tmc));
                assert(operations@ =~= source_operations(dwt.component, itm.component)
                    + tmc_operations(*component));
                Ok(())
            },
            Err(error) => Err(error),
        },
    };
    assert(operations@ =~= setup_plan(components@, *sink).0);
    Procedure::new(operations, outcome)
}

/// Read trace data from internal trace memory.
///
/// Gives the reader that drains the trace memory among `components`, or the
/// failure to find one. The read is entered with the source `id` in effect:
/// the one that the previous read left behind, or `Id(0)` where there was
/// none.
///
/// The reader takes what is in trace memory without waiting for more, and at
/// most as much as the FIFO holds: if the FIFO keeps being filled while it is
/// read, another read gives what is left.
pub fn read_trace_memory(components: &[CoresightComponent], id: Id) -> (reader: Result<
    TraceMemoryReader,
    ArmError,
>)
    ensures
        match reader {
            Ok(reader) => locate(components@, PeripheralType::Tmc) is Ok && reader@ == (ReaderView {
                tmc: TraceMemoryController {
                    component: locate(components@, PeripheralType::Tmc)->Ok_0,
                },
                id,
                phase: Phase::Start,
                fifo_size: 0,
                raw: Seq::empty(),
            }),
            Err(error) => locate(components@, PeripheralType::Tmc) == Err::<
                CoresightComponent,
                ArmError,
            >(error),
        },
{
    match find_component(components, PeripheralType::Tmc) {
        Ok(component) => Ok(TraceMemoryReader::new(TraceMemoryController::new(component), id)),
        Err(error) => Err(error),
    }
}

/// The procedure that has the DWT among `components` trace the accesses to
/// `address` with its unit `unit`: that one operation, or none and the failure
/// to find a DWT.
pub open spec fn add_data_trace_plan(
    components: Seq<CoresightComponent>,
    unit: usize,
    address: u32,
) -> ProcedureView {
    match locate(components, PeripheralType::Dwt) {
        Ok(component) => ProcedureView::start(
            seq![Operation::DwtEnableDataTrace(Dwt { component }, unit, address)],
            Ok(()),
        ),
        Err(error) => ProcedureView::start(Seq::empty(), Err(error)),
    }
}

/// The procedure that has the DWT among `components` stop tracing with its
/// unit `unit`: that one operation, or none and the failure to find a DWT.
pub open spec fn remove_data_trace_plan(
    components: Seq<CoresightComponent>,
    unit: usize,
) -> ProcedureView {
    match locate(components, PeripheralType::Dwt) {
        Ok(component) => ProcedureView::start(
            seq![Operation::DwtDisableDataTrace(Dwt { component }, unit)],
            Ok(()),
        ),
        Err(error) => ProcedureView::start(Seq::empty(), Err(error)),
    }
}

/// Configures DWT trace unit `unit` to begin tracing `address`.
///
/// Gives the procedure that does so, given the list of all `components` of
/// the target. Whether the DWT has a unit `unit` is not looked into.
pub fn add_swv_data_trace(components: &[CoresightComponent], unit: usize, address: u32) -> (procedure:
    Procedure)
    requires
        locate(components@, PeripheralType::Dwt) is Ok ==> Dwt::unit_addressable(unit),
    ensures
        procedure@ == add_data_trace_plan(components@, unit, address),
{
    let mut operations: Vec<Operation> = Vec::new();
    match find_component(components, PeripheralType::Dwt) {
        Ok(component) => {
            operations.push(Operation::DwtEnableDataTrace(Dwt::new(component), unit, address));
            assert(operations@ =~= seq![
                Operation::DwtEnableDataTrace(Dwt { component: *component }, unit, address),
            ]);
            Procedure::new(operations, Ok(()))
        },
        Err(error) => Procedure::new(operations, Err(error)),
    }
}

/// Configures DWT trace unit `unit` to stop tracing.
///
/// Gives the procedure that does so, given the list of all `components` of
/// the target. Whether the DWT has a unit `unit` is not looked into.
pub fn remove_swv_data_trace(components: &[CoresightComponent], unit: usize) -> (procedure:
    Procedure)
    requires
        locate(components@, PeripheralType::Dwt) is Ok ==> Dwt::unit_addressable(unit),
    ensures
        procedure@ == remove_data_trace_plan(components@, unit),
{
    let mut operations: Vec<Operation> = Vec::new();
    match find_component(components, PeripheralType::Dwt) {
        Ok(component) => {
            operations.push(Operation::DwtDisableDataTrace(Dwt::new(component), unit));
            assert(operations@ =~= seq![
                Operation::DwtDisableDataTrace(Dwt { component: *component }, unit),
            ]);
            Procedure::new(operations, Ok(()))
        },
        Err(error) => Procedure::new(operations, Err(error)),
    }
}

/// The procedure of the one operation that sets the trace-enable bit of the
/// core as `enabled` says.
pub open spec fn trace_plan(enabled: bool) -> ProcedureView {
    ProcedureView::start(seq![Operation::SetTrace(enabled)], Ok(()))
}

fn set_tracing(enabled: bool) -> (procedure: Procedure)
    ensures
        procedure@ == trace_plan(enabled),
{
    let mut operations: Vec<Operation> = Vec::new();
    operations.push(Operation::SetTrace(enabled));
    assert(operations@ =~= seq![Operation::SetTrace(enabled)]);
    Procedure::new(operations, Ok(()))
}

/// Sets TRCENA in DEMCR to begin trace generation.
///
/// Gives the procedure that does so. Its transactions go to the memory of
/// the core.
pub fn enable_tracing() -> (procedure: Procedure)
    ensures
        procedure@ == trace_plan(true),
{
    set_tracing(true)
}

/// Clears TRCENA in DEMCR to end trace generation.
///
/// Gives the procedure that does so. Its transactions go to the memory of
/// the core.
pub fn disable_swv() -> (procedure: Procedure)
    ensures
        procedure@ == trace_plan(false),
{
    set_tracing(false)
}

} // verus!
