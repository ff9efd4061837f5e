//! Procedures: sequences of driver operations, carried out one bus
//! transaction at a time by whoever holds the probe.
//!
//! The holder calls `Procedure::advance`, performs the transaction it gets,
//! and calls again with the word that the transaction read, until the
//! procedure is finished. If a transaction fails, the holder stops there:
//! nothing is retried and nothing is undone.

use crate::architecture::arm::armv6m::Demcr;
use crate::architecture::arm::component::dwt::Dwt;
use crate::architecture::arm::component::itm::Itm;
use crate::architecture::arm::component::swo::{
    Swo, REGISTER_OFFSET_ACCESS, REGISTER_OFFSET_SWO_CODR, REGISTER_OFFSET_SWO_SPPR,
};
use crate::architecture::arm::component::itm::UNLOCK_KEY;
use crate::architecture::arm::component::tmc::{Mode, TraceMemoryController};
use crate::architecture::arm::component::tpiu::{
    Tpiu, REGISTER_OFFSET_TPIU_ACPR, REGISTER_OFFSET_TPIU_CSPSR, REGISTER_OFFSET_TPIU_FFCR,
    REGISTER_OFFSET_TPIU_SPPR,
};
use crate::architecture::arm::romtable::PeripheralType;
use crate::architecture::arm::transaction::{Next, Transaction};
use crate::error::ArmError;
use vstd::prelude::*;

verus! {

/// One call of a driver, as a step of a procedure.
#[derive(Clone, Copy, Debug, PartialEq, Eq, Structural)]
pub enum Operation {
    /// `Dwt::enable`
    DwtEnable(Dwt),
    /// `Dwt::enable_exception_trace`
    DwtEnableExceptionTrace(Dwt),
    /// `Dwt::enable_data_trace` of a unit on an address
    DwtEnableDataTrace(Dwt, usize, u32),
    /// `Dwt::disable_data_trace` of a unit
    DwtDisableDataTrace(Dwt, usize),
    /// `Itm::unlock`
    ItmUnlock(Itm),
    /// `Itm::tx_enable`
    ItmTxEnable(Itm),
    /// `Tpiu::set_port_size`
    TpiuSetPortSize(Tpiu, u32),
    /// `Tpiu::set_prescaler`
    TpiuSetPrescaler(Tpiu, u32),
    /// `Tpiu::set_pin_protocol`
    TpiuSetPinProtocol(Tpiu, u32),
    /// `Tpiu::set_formatter`
    TpiuSetFormatter(Tpiu, u32),
    /// `Swo::unlock`
    SwoUnlock(Swo),
    /// `Swo::set_prescaler`
    SwoSetPrescaler(Swo, u32),
    /// `Swo::set_pin_protocol`
    SwoSetPinProtocol(Swo, u32),
    /// `TraceMemoryController::disable_capture`
    TmcDisableCapture(TraceMemoryController),
    /// `TraceMemoryController::ready`, polled until it holds
    TmcReady(TraceMemoryController),
    /// `TraceMemoryController::set_mode`
    TmcSetMode(TraceMemoryController, Mode),
    /// `TraceMemoryController::enable_capture`
    TmcEnableCapture(TraceMemoryController),
    /// `Demcr::set_trace`
    SetTrace(bool),
}

impl Operation {
    /// The kind of component that the operation drives; none for an
    /// operation on the core.
    pub open spec fn spec_peripheral_type(&self) -> Option<PeripheralType> {
        match *self {
            Operation::DwtEnable(_) => Some(PeripheralType::Dwt),
            Operation::DwtEnableExceptionTrace(_) => Some(PeripheralType::Dwt),
            Operation::DwtEnableDataTrace(_, _, _) => Some(PeripheralType::Dwt),
            Operation::DwtDisableDataTrace(_, _) => Some(PeripheralType::Dwt),
            Operation::ItmUnlock(_) => Some(PeripheralType::Itm),
            Operation::ItmTxEnable(_) => Some(PeripheralType::Itm),
            Operation::TpiuSetPortSize(_, _) => Some(PeripheralType::Tpiu),
            Operation::TpiuSetPrescaler(_, _) => Some(PeripheralType::Tpiu),
            Operation::TpiuSetPinProtocol(_, _) => Some(PeripheralType::Tpiu),
            Operation::TpiuSetFormatter(_, _) => Some(PeripheralType::Tpiu),
            Operation::SwoUnlock(_) => Some(PeripheralType::Swo),
            Operation::SwoSetPrescaler(_, _) => Some(PeripheralType::Swo),
            Operation::SwoSetPinProtocol(_, _) => Some(PeripheralType::Swo),
            Operation::TmcDisableCapture(_) => Some(PeripheralType::Tmc),
            Operation::TmcReady(_) => Some(PeripheralType::Tmc),
            Operation::TmcSetMode(_, _) => Some(PeripheralType::Tmc),
            Operation::TmcEnableCapture(_) => Some(PeripheralType::Tmc),
            Operation::SetTrace(_) => None,
        }
    }

    /// The kind of component that the operation drives; none for an
    /// operation on the core.
    #[verifier::when_used_as_spec(spec_peripheral_type)]
    pub fn peripheral_type(&self) -> (peripheral_type: Option<PeripheralType>)
        ensures
            peripheral_type == self.spec_peripheral_type(),
    {
        match *self {
            Operation::DwtEnable(_) => Some(PeripheralType::Dwt),
            Operation::DwtEnableExceptionTrace(_) => Some(PeripheralType::Dwt),
            Operation::DwtEnableDataTrace(_, _, _) => Some(PeripheralType::Dwt),
            Operation::DwtDisableDataTrace(_, _) => Some(PeripheralType::Dwt),
            Operation::ItmUnlock(_) => Some(PeripheralType::Itm),
            Operation::ItmTxEnable(_) => Some(PeripheralType::Itm),
            Operation::TpiuSetPortSize(_, _) => Some(PeripheralType::Tpiu),
            Operation::TpiuSetPrescaler(_, _) => Some(PeripheralType::Tpiu),
            Operation::TpiuSetPinProtocol(_, _) => Some(PeripheralType::Tpiu),
            Operation::TpiuSetFormatter(_, _) => Some(PeripheralType::Tpiu),
            Operation::SwoUnlock(_) => Some(PeripheralType::Swo),
            Operation::SwoSetPrescaler(_, _) => Some(PeripheralType::Swo),
            Operation::SwoSetPinProtocol(_, _) => Some(PeripheralType::Swo),
            Operation::TmcDisableCapture(_) => Some(PeripheralType::Tmc),
            Operation::TmcReady(_) => Some(PeripheralType::Tmc),
            Operation::TmcSetMode(_, _) => Some(PeripheralType::Tmc),
            Operation::TmcEnableCapture(_) => Some(PeripheralType::Tmc),
            Operation::SetTrace(_) => None,
        }
    }

    /// Whether the operation drives a trace source: the DWT or the ITM.
    pub open spec fn is_source(&self) -> bool {
        self.peripheral_type() == Some(PeripheralType::Dwt) || self.peripheral_type() == Some(
            PeripheralType::Itm,
        )
    }

    /// Whether the operation drives a trace sink: the TPIU, the SWO unit or
    /// the trace memory controller.
    pub open spec fn is_sink(&self) -> bool {
        self.peripheral_type() == Some(PeripheralType::Tpiu) || self.peripheral_type() == Some(
            PeripheralType::Swo,
        ) || self.peripheral_type() == Some(PeripheralType::Tmc)
    }
}

/// No operation has more stages than this.
pub const MAX_STAGES: u8 = 3;

impl Operation {
    /// Whether the operation can be carried out: a DWT unit it names is
    /// addressable.
    pub open spec fn wf(&self) -> bool {
        match *self {
            Operation::DwtEnableDataTrace(_, unit, _) => Dwt::unit_addressable(unit),
            Operation::DwtDisableDataTrace(_, unit) => Dwt::unit_addressable(unit),
            _ => true,
        }
    }

    /// What the operation asks for at `stage`, when its previous transaction
    /// read `loaded`: what the driver's routine asks for.
    pub open spec fn spec_next(&self, stage: u8, loaded: u32) -> Next {
        match *self {
            Operation::DwtEnable(dwt) => dwt.spec_enable(stage, loaded),
            Operation::DwtEnableExceptionTrace(dwt) => dwt.spec_enable_exception_trace(
                stage,
                loaded,
            ),
            Operation::DwtEnableDataTrace(dwt, unit, address) => dwt.spec_enable_data_trace(
                unit,
                address,
                stage,
                loaded,
            ),
            Operation::DwtDisableDataTrace(dwt, unit) => dwt.spec_disable_data_trace(unit, stage),
            Operation::ItmUnlock(itm) => itm.spec_unlock(stage),
            Operation::ItmTxEnable(itm) => itm.spec_tx_enable(stage, loaded),
            Operation::TpiuSetPortSize(tpiu, value) => tpiu.spec_write(
                REGISTER_OFFSET_TPIU_CSPSR,
                value,
                stage,
            ),
            Operation::TpiuSetPrescaler(tpiu, value) => tpiu.spec_write(
                REGISTER_OFFSET_TPIU_ACPR,
                value,
                stage,
            ),
            Operation::TpiuSetPinProtocol(tpiu, value) => tpiu.spec_write(
                REGISTER_OFFSET_TPIU_SPPR,
                value,
                stage,
            ),
            Operation::TpiuSetFormatter(tpiu, value) => tpiu.spec_write(
                REGISTER_OFFSET_TPIU_FFCR,
                value,
                stage,
            ),
            Operation::SwoUnlock(swo) => swo.spec_write(REGISTER_OFFSET_ACCESS, UNLOCK_KEY, stage),
            Operation::SwoSetPrescaler(swo, value) => swo.spec_write(
                REGISTER_OFFSET_SWO_CODR,
                value,
                stage,
            ),
            Operation::SwoSetPinProtocol(swo, value) => swo.spec_write(
                REGISTER_OFFSET_SWO_SPPR,
                value,
                stage,
            ),
            Operation::TmcDisableCapture(tmc) => tmc.spec_capture(0, stage),
            Operation::TmcReady(tmc) => tmc.spec_ready(stage, loaded),
            Operation::TmcSetMode(tmc, mode) => tmc.spec_set_mode(mode, stage, loaded),
            Operation::TmcEnableCapture(tmc) => tmc.spec_capture(1, stage),
            Operation::SetTrace(enabled) => Demcr::spec_set_trace(enabled, stage, loaded),
        }
    }

    /// Resumes the operation at `stage` with the word `loaded` that its
    /// previous transaction read. At stage 0 there is no such word, and
    /// `loaded` is not looked at.
    pub fn next(&self, stage: u8, loaded: u32) -> (next: Next)
        requires
            self.wf(),
        ensures
            next == self.spec_next(stage, loaded),
            stage == 0 ==> next == self.spec_next(0, 0),
            stage >= MAX_STAGES ==> next is Complete,
    {
        match *self {
            Operation::DwtEnable(dwt) => dwt.enable(stage, loaded),
            Operation::DwtEnableExceptionTrace(dwt) => dwt.enable_exception_trace(stage, loaded),
            Operation::DwtEnableDataTrace(dwt, unit, address) => dwt.enable_data_trace(
                unit,
                address,
                stage,
                loaded,
            ),
            Operation::DwtDisableDataTrace(dwt, unit) => dwt.disable_data_trace(unit, stage),
            Operation::ItmUnlock(itm) => itm.unlock(stage),
            Operation::ItmTxEnable(itm) => itm.tx_enable(stage, loaded),
            Operation::TpiuSetPortSize(tpiu, value) => tpiu.set_port_size(value, stage),
            Operation::TpiuSetPrescaler(tpiu, value) => tpiu.set_prescaler(value, stage),
            Operation::TpiuSetPinProtocol(tpiu, value) => tpiu.set_pin_protocol(value, stage),
            Operation::TpiuSetFormatter(tpiu, value) => tpiu.set_formatter(value, stage),
            Operation::SwoUnlock(swo) => swo.unlock(stage),
            Operation::SwoSetPrescaler(swo, value) => swo.set_prescaler(value, stage),
            Operation::SwoSetPinProtocol(swo, value) => swo.set_pin_protocol(value, stage),
            Operation::TmcDisableCapture(tmc) => tmc.disable_capture(stage),
            Operation::TmcReady(tmc) => tmc.ready(stage, loaded),
            Operation::TmcSetMode(tmc, mode) => tmc.set_mode(mode, stage, loaded),
            Operation::TmcEnableCapture(tmc) => tmc.enable_capture(stage),
            Operation::SetTrace(enabled) => Demcr::set_trace(enabled, stage, loaded),
        }
    }
}

/// What a procedure stands for: the operations, what they end in, and the
/// point reached.
pub struct ProcedureView {
    /// The operations, in the order in which they are carried out.
    pub operations: Seq<Operation>,
    /// What the procedure ends in once the operations are done.
    pub outcome: Result<(), ArmError>,
    /// The number of operations that are done.
    pub index: nat,
    /// The stage that the operation at `index` has reached.
    pub stage: u8,
}

/// What advancing a procedure gives, over views.
pub enum StepView {
    /// A transaction to perform, and the procedure after it.
    Transact(ProcedureView, Transaction),
    /// The end of the procedure.
    Finished(Result<(), ArmError>),
}

impl ProcedureView {
    /// The procedure of `operations` that ends in `outcome`, before its
    /// first transaction.
    pub open spec fn start(operations: Seq<Operation>, outcome: Result<(), ArmError>) -> ProcedureView {
        ProcedureView { operations, outcome, index: 0, stage: 0 }
    }

    /// What advancing gives, when the previous transaction read `loaded`.
    ///
    /// Operations that are done are passed over. The first one that asks for
    /// a transaction gets it, and moves to its next stage unless it asks to
    /// be resumed at the same one. With no operation left the procedure ends
    /// in its outcome.
    pub open spec fn advance(self, loaded: u32) -> StepView
        decreases self.operations.len() - self.index,
    {
        if self.index >= self.operations.len() {
            StepView::Finished(self.outcome)
        } else {
            match self.operations[self.index as int].spec_next(self.stage, loaded) {
                Next::Issue(transaction) => StepView::Transact(
                    ProcedureView { stage: (self.stage + 1) as u8, ..self },
                    transaction,
                ),
                Next::Repeat(transaction) => StepView::Transact(self, transaction),
                Next::Complete => (ProcedureView {
                    index: self.index + 1,
                    stage: 0,
                    ..self
                }).advance(loaded),
            }
        }
    }
}

impl ProcedureView {
    /// The transactions that the procedure issues while it is advanced with
    /// each of `loads` in turn, each with the index of the operation that
    /// asked for it. The procedure may end before `loads` does.
    pub open spec fn transactions(self, loads: Seq<u32>) -> Seq<(nat, Transaction)>
        decreases loads.len(),
    {
        if loads.len() == 0 {
            Seq::empty()
        } else {
            match self.advance(loads[0]) {
                StepView::Transact(next, transaction) => seq![(next.index, transaction)]
                    + next.transactions(loads.drop_first()),
                StepView::Finished(_) => Seq::empty(),
            }
        }
    }
}

/// Advancing goes through the operations in order and leaves them as they
/// are: a transaction comes from an operation that is not before the one
/// that the procedure stood at, and every operation passed over had nothing
/// left to ask for. A procedure ends in its outcome, and only when no
/// operation is left.
pub proof fn lemma_advance_in_order(procedure: ProcedureView, loaded: u32)
    ensures
        match procedure.advance(loaded) {
            StepView::Transact(next, transaction) => {
                &&& next.operations == procedure.operations
                &&& next.outcome == procedure.outcome
                &&& procedure.index <= next.index < procedure.operations.len()
                &&& {
                    let stage = if next.index == procedure.index {
                        procedure.stage
                    } else {
                        0
                    };
                    let asked = procedure.operations[next.index as int].spec_next(stage, loaded);
                    asked == Next::Issue(transaction) || asked == Next::Repeat(transaction)
                }
            },
            StepView::Finished(outcome) => outcome == procedure.outcome,
        },
    decreases procedure.operations.len() - procedure.index,
{
    if procedure.index < procedure.operations.len() {
        let asked = procedure.operations[procedure.index as int].spec_next(
            procedure.stage,
            loaded,
        );
        if asked is Complete {
            lemma_advance_in_order(
                ProcedureView { index: procedure.index + 1, stage: 0, ..procedure },
                loaded,
            );
        }
    }
}

impl Operation {
    /// Whether the operation, resumed at `stage`, looks at the word it is
    /// resumed with: it is past its first stage, and its transaction before
    /// was a read.
    pub open spec fn awaits_word(&self, stage: u8) -> bool {
        stage > 0 && exists|loaded: u32|
            #![trigger self.spec_next((stage - 1) as u8, loaded)]
            self.spec_next((stage - 1) as u8, loaded) matches Next::Issue(transaction)
                && transaction is Read
    }
}

/// The word that an operation is resumed with matters only after a read: at
/// its first stage, and after a write, the operation asks for the same
/// whatever the word.
pub proof fn lemma_word_matters_after_read(operation: Operation, stage: u8, one: u32, other: u32)
    requires
        !operation.awaits_word(stage),
    ensures
        operation.spec_next(stage, one) == operation.spec_next(stage, other),
{
    if stage > 0 {
        let before = (stage - 1) as u8;
        assert(!(operation.spec_next(before, one) matches Next::Issue(transaction)
            && transaction is Read));
    }
}

/// The transactions of a procedure come from its operations in order: each
/// from an operation that it has, none from one before the operation that
/// the procedure stood at, and none from one before the operation of an
/// earlier transaction.
pub proof fn lemma_transactions_in_order(procedure: ProcedureView, loads: Seq<u32>)
    ensures
        forall|k: int|
            0 <= k < procedure.transactions(loads).len() ==> procedure.index <= (
            #[trigger] procedure.transactions(loads)[k]).0 < procedure.operations.len(),
        forall|j: int, k: int|
            0 <= j <= k < procedure.transactions(loads).len() ==> (
            #[trigger] procedure.transactions(loads)[j]).0 <= (#[trigger] procedure.transactions(
                loads,
            )[k]).0,
    decreases loads.len(),
{
    if loads.len() > 0 {
        lemma_advance_in_order(procedure, loads[0]);
        match procedure.advance(loads[0]) {
            StepView::Transact(next, transaction) => {
                lemma_transactions_in_order(next, loads.drop_first());
                let rest = next.transactions(loads.drop_first());
                let log = procedure.transactions(loads);
                assert(log == seq![(next.index, transaction)] + rest);
                assert forall|k: int| 0 <= k < log.len() implies procedure.index <= (
                #[trigger] log[k]).0 < procedure.operations.len() by {
                    if k > 0 {
                        assert(log[k] == rest[k - 1]);
                    }
                }
                assert forall|j: int, k: int| 0 <= j <= k < log.len() implies (#[trigger] log[j]).0
                    <= (#[trigger] log[k]).0 by {
                    if j > 0 {
                        assert(log[j] == rest[j - 1]);
                        assert(log[k] == rest[k - 1]);
                    } else if k > 0 {
                        assert(log[k] == rest[k - 1]);
                    }
                }
            },
            StepView::Finished(_) => {},
        }
    }
}

/// What advancing a procedure gives.
pub enum Step {
    /// A transaction to perform, and the procedure to advance after it.
    Transact(Procedure, Transaction),
    /// The end of the procedure, with its outcome.
    Finished(Result<(), ArmError>),
}

/// A sequence of operations in progress.
pub struct Procedure {
    operations: Vec<Operation>,
    outcome: Result<(), ArmError>,
    index: usize,
    stage: u8,
}

impl View for Procedure {
    type V = ProcedureView;

    closed spec fn view(&self) -> ProcedureView {
        ProcedureView {
            operations: self.operations@,
            outcome: self.outcome,
            index: self.index as nat,
            stage: self.stage,
        }
    }
}

impl Procedure {
    #[verifier::type_invariant]
    spec fn wf(self) -> bool {
        forall|i: int| 0 <= i < self.operations@.len() ==> (#[trigger] self.operations@[i]).wf()
    }

    /// The procedure that carries out `operations` from the first on and
    /// then ends in `outcome`.
    pub fn new(operations: Vec<Operation>, outcome: Result<(), ArmError>) -> (procedure: Procedure)
        requires
            forall|i: int| 0 <= i < operations@.len() ==> (#[trigger] operations@[i]).wf(),
        ensures
            procedure@ == ProcedureView::start(operations@, outcome),
    {
        Procedure { operations, outcome, index: 0, stage: 0 }
    }

    /// The operations of the procedure.
    pub fn operations(&self) -> (operations: &Vec<Operation>)
        ensures
            operations@ == self@.operations,
    {
        &self.operations
    }

    /// What the procedure ends in once its operations are done.
    pub fn outcome(&self) -> (outcome: Result<(), ArmError>)
        ensures
            outcome == self@.outcome,
    {
        self.outcome
    }

    /// Advances the procedure: gives the next transaction to perform, or the
    /// outcome when none is left. `loaded` is the word that the previous
    /// transaction read; it is not looked at on the first call, nor after a
    /// write.
    pub fn advance(self, loaded: u32) -> (step: Step)
        ensures
            match step {
                Step::Transact(next, transaction) => self@.advance(loaded) == StepView::Transact(
                    next@,
                    transaction,
                ),
                Step::Finished(outcome) => self@.advance(loaded) == StepView::Finished(outcome),
            },
    {
        proof {
            use_type_invariant(&self);
        }
        let ghost entered = self@;
        let Procedure { operations, outcome, index, stage } = self;
        let mut index = index;
        let mut stage = stage;
        while index < operations.len()
            invariant
                forall|i: int| 0 <= i < operations@.len() ==> (#[trigger] operations@[i]).wf(),
                entered == self@,
                entered.operations == operations@,
                entered.outcome == outcome,
                entered.advance(loaded) == (ProcedureView {
                    index: index as nat,
                    stage,
                    ..entered
                }).advance(loaded),
            decreases operations.len() - index,
        {
            let ghost reached = ProcedureView { index: index as nat, stage, ..entered };
            match operations[index].next(stage, loaded) {
                Next::Issue(transaction) => {
                    let next = Procedure { operations, outcome, index, stage: stage + 1 };
                    assert(next@ == (ProcedureView { stage: (stage + 1) as u8, ..reached }));
                    return Step::Transact(next, transaction);
                },
                Next::Repeat(transaction) => {
                    let next = Procedure { operations, outcome, index, stage };
                    assert(next@ == reached);
                    return Step::Transact(next, transaction);
                },
                Next::Complete => {
                    index = index + 1;
                    stage = 0;
                },
            }
        }
        Step::Finished(outcome)
    }
}

} // verus!
