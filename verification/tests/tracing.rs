use probe_rs::architecture::arm::component::dwt::Dwt;
use probe_rs::architecture::arm::component::itm::{tcr_enabled, tcr_trace_id, Itm, ITM_TRACE_ID};
use probe_rs::architecture::arm::component::swo::Swo;
use probe_rs::architecture::arm::component::tmc::{Mode, TraceMemoryController};
use probe_rs::architecture::arm::component::tpiu::Tpiu;
use probe_rs::architecture::arm::component::{
    add_swv_data_trace, configure_tpiu, disable_swv, enable_tracing, find_component,
    remove_swv_data_trace, setup_tracing, TraceSink,
};
use probe_rs::architecture::arm::procedure::{Operation, Procedure, Step};
use probe_rs::architecture::arm::romtable::{CoresightComponent, PeripheralType};
use probe_rs::architecture::arm::swo::{SwoConfig, SwoMode};
use probe_rs::architecture::arm::transaction::Transaction;
use probe_rs::error::ArmError;
use std::collections::HashMap;

const DWT: u64 = 0xE000_1000;
const ITM: u64 = 0xE000_0000;
const TPIU: u64 = 0xE004_0000;
const SWO: u64 = 0xE004_2000;
const TMC: u64 = 0xE004_3000;
const DEMCR: u64 = 0xE000_EDFC;

/// A target whose words keep what is written to them. The status register of
/// the trace memory controller reads as busy for a number of polls.
struct Target {
    memory: HashMap<u64, u32>,
    busy_polls: u32,
    log: Vec<Transaction>,
}

impl Target {
    fn new() -> Target {
        Target { memory: HashMap::new(), busy_polls: 0, log: Vec::new() }
    }

    fn perform(&mut self, transaction: Transaction) -> u32 {
        self.log.push(transaction);
        match transaction {
            Transaction::Read { address } => {
                if address == TMC + 0x0C {
                    if self.busy_polls > 0 {
                        self.busy_polls -= 1;
                        return 0;
                    }
                    return 0x4;
                }
                *self.memory.get(&address).unwrap_or(&0)
            }
            Transaction::Write { address, value } => {
                self.memory.insert(address, value);
                0
            }
        }
    }

    fn run(&mut self, procedure: Procedure) -> Result<(), ArmError> {
        let mut procedure = procedure;
        let mut loaded = 0;
        loop {
            match procedure.advance(loaded) {
                Step::Transact(next, transaction) => {
                    loaded = self.perform(transaction);
                    procedure = next;
                }
                Step::Finished(outcome) => return outcome,
            }
        }
    }

    fn writes(&self) -> Vec<Transaction> {
        self.log.iter().copied().filter(|transaction| transaction.is_write()).collect()
    }
}

fn component(peripheral_type: PeripheralType, base: u64) -> CoresightComponent {
    CoresightComponent::new(peripheral_type, base)
}

fn read(address: u64) -> Transaction {
    Transaction::Read { address }
}

fn write(address: u64, value: u32) -> Transaction {
    Transaction::Write { address, value }
}

fn trace_memory_target() -> Vec<CoresightComponent> {
    vec![
        component(PeripheralType::Dwt, DWT),
        component(PeripheralType::Itm, ITM),
        component(PeripheralType::Tmc, TMC),
    ]
}

#[test]
fn trace_memory_end_to_end() {
    let components = trace_memory_target();
    let dwt = Dwt::new(&components[0]);
    let itm = Itm::new(&components[1]);
    let tmc = TraceMemoryController::new(&components[2]);
    let procedure = setup_tracing(&components, &TraceSink::TraceMemory);
    assert_eq!(
        procedure.operations(),
        &vec![
            Operation::DwtEnable(dwt),
            Operation::DwtEnableExceptionTrace(dwt),
            Operation::ItmUnlock(itm),
            Operation::ItmTxEnable(itm),
            Operation::TmcDisableCapture(tmc),
            Operation::TmcReady(tmc),
            Operation::TmcSetMode(tmc, Mode::Software),
            Operation::TmcEnableCapture(tmc),
        ]
    );
    assert_eq!(procedure.outcome(), Ok(()));

    let mut target = Target::new();
    target.busy_polls = 2;
    target.memory.insert(DWT, 0x4000_0000);
    target.memory.insert(TMC + 0x28, 0xF0);
    assert_eq!(target.run(procedure), Ok(()));
    assert_eq!(
        target.log,
        vec![
            read(DWT),
            write(DWT, 0x4000_0401),
            read(DWT),
            write(DWT, 0x4001_0401),
            write(ITM + 0xFB0, 0xC5AC_CE55),
            read(ITM + 0xE80),
            write(ITM + 0xE80, 0x000D_080F),
            write(ITM + 0xE00, 0xFFFF_FFFF),
            write(TMC + 0x20, 0),
            read(TMC + 0x0C),
            read(TMC + 0x0C),
            read(TMC + 0x0C),
            read(TMC + 0x28),
            write(TMC + 0x28, 0xF1),
            write(TMC + 0x20, 1),
        ]
    );
}

#[test]
fn tpiu_sink_without_tpiu_fails_after_the_sources() {
    let components = trace_memory_target();
    let sink = TraceSink::Tpiu(SwoConfig::new(16_000_000));
    let procedure = setup_tracing(&components, &sink);
    assert_eq!(procedure.operations().len(), 4);
    assert_eq!(procedure.outcome(), Err(ArmError::ComponentNotFound(PeripheralType::Tpiu)));
    let mut target = Target::new();
    assert_eq!(
        target.run(procedure),
        Err(ArmError::ComponentNotFound(PeripheralType::Tpiu))
    );
    assert_eq!(target.log.len(), 8);
}

#[test]
fn swo_sink_without_swo_and_tpiu_fails_for_the_tpiu() {
    let components = trace_memory_target();
    let sink = TraceSink::Swo(SwoConfig::new(16_000_000));
    let procedure = setup_tracing(&components, &sink);
    assert_eq!(procedure.operations().len(), 4);
    assert_eq!(procedure.outcome(), Err(ArmError::ComponentNotFound(PeripheralType::Tpiu)));
}

#[test]
fn missing_dwt_fails_before_any_transaction() {
    let components = vec![component(PeripheralType::Itm, ITM), component(PeripheralType::Tmc, TMC)];
    let procedure = setup_tracing(&components, &TraceSink::TraceMemory);
    assert!(procedure.operations().is_empty());
    let mut target = Target::new();
    assert_eq!(target.run(procedure), Err(ArmError::ComponentNotFound(PeripheralType::Dwt)));
    assert!(target.log.is_empty());
}

#[test]
fn missing_itm_fails_after_the_dwt() {
    let components = vec![component(PeripheralType::Dwt, DWT), component(PeripheralType::Tmc, TMC)];
    let procedure = setup_tracing(&components, &TraceSink::TraceMemory);
    let mut target = Target::new();
    assert_eq!(target.run(procedure), Err(ArmError::ComponentNotFound(PeripheralType::Itm)));
    assert_eq!(target.log, vec![read(DWT), write(DWT, 0x401), read(DWT), write(DWT, 0x1_0401)]);
}

#[test]
fn missing_tmc_fails_for_the_tmc() {
    let components = vec![component(PeripheralType::Dwt, DWT), component(PeripheralType::Itm, ITM)];
    let procedure = setup_tracing(&components, &TraceSink::TraceMemory);
    assert_eq!(procedure.outcome(), Err(ArmError::ComponentNotFound(PeripheralType::Tmc)));
}

#[test]
fn tpiu_sink_programs_the_tpiu() {
    let components = vec![
        component(PeripheralType::Dwt, DWT),
        component(PeripheralType::Itm, ITM),
        component(PeripheralType::Tpiu, TPIU),
    ];
    let config = SwoConfig::new(16_000_000).set_baud(2_000_000).set_mode_manchester();
    let mut target = Target::new();
    assert_eq!(target.run(setup_tracing(&components, &TraceSink::Tpiu(config))), Ok(()));
    assert_eq!(
        target.log[8..],
        [
            write(TPIU + 0x004, 1),
            write(TPIU + 0x010, 7),
            write(TPIU + 0x0F0, 1),
            write(TPIU + 0x304, 0x100),
        ]
    );
}

#[test]
fn continuous_formatting_sets_the_formatter_bit() {
    let tpiu = component(PeripheralType::Tpiu, TPIU);
    let config = SwoConfig::new(4_000_000).set_continuous_formatting(true);
    let driver = Tpiu::new(&tpiu);
    assert_eq!(
        configure_tpiu(&tpiu, &config),
        vec![
            Operation::TpiuSetPortSize(driver, 1),
            Operation::TpiuSetPrescaler(driver, 3),
            Operation::TpiuSetPinProtocol(driver, 2),
            Operation::TpiuSetFormatter(driver, 0x102),
        ]
    );
}

#[test]
fn swo_sink_programs_the_swo_and_not_the_tpiu() {
    let components = vec![
        component(PeripheralType::Dwt, DWT),
        component(PeripheralType::Itm, ITM),
        component(PeripheralType::Tpiu, TPIU),
        component(PeripheralType::Swo, SWO),
    ];
    let config = SwoConfig::new(8_000_000).set_baud(1_000_000).set_mode_uart();
    let procedure = setup_tracing(&components, &TraceSink::Swo(config));
    let swo = Swo::new(&components[3]);
    assert_eq!(
        procedure.operations()[4..],
        [
            Operation::SwoUnlock(swo),
            Operation::SwoSetPrescaler(swo, 7),
            Operation::SwoSetPinProtocol(swo, 2),
        ]
    );
    let mut target = Target::new();
    assert_eq!(target.run(procedure), Ok(()));
    assert_eq!(
        target.log[8..],
        [write(SWO + 0xFB0, 0xC5AC_CE55), write(SWO + 0x010, 7), write(SWO + 0x0F0, 2)]
    );
}

#[test]
fn swo_sink_without_swo_writes_what_the_tpiu_sink_writes() {
    let components = vec![
        component(PeripheralType::Dwt, DWT),
        component(PeripheralType::Itm, ITM),
        component(PeripheralType::Tpiu, TPIU),
    ];
    let config = SwoConfig::new(72_000_000).set_baud(2_000_000).set_continuous_formatting(true);
    let as_swo = setup_tracing(&components, &TraceSink::Swo(config));
    let as_tpiu = setup_tracing(&components, &TraceSink::Tpiu(config));
    assert_eq!(as_swo.operations(), as_tpiu.operations());
    assert_eq!(as_swo.outcome(), as_tpiu.outcome());
    let mut first = Target::new();
    let mut second = Target::new();
    assert_eq!(first.run(as_swo), Ok(()));
    assert_eq!(second.run(as_tpiu), Ok(()));
    assert_eq!(first.writes(), second.writes());
    assert_eq!(first.log, second.log);
    assert_eq!(first.writes().len(), 9);
}

#[test]
fn no_sink_write_before_the_source_writes() {
    let components = vec![
        component(PeripheralType::Tmc, TMC),
        component(PeripheralType::Swo, SWO),
        component(PeripheralType::Tpiu, TPIU),
        component(PeripheralType::Itm, ITM),
        component(PeripheralType::Dwt, DWT),
    ];
    let config = SwoConfig::new(16_000_000);
    for sink in [TraceSink::Swo(config), TraceSink::Tpiu(config), TraceSink::TraceMemory] {
        let procedure = setup_tracing(&components, &sink);
        for (position, operation) in procedure.operations().iter().enumerate() {
            let kind = operation.peripheral_type();
            let source = kind == Some(PeripheralType::Dwt) || kind == Some(PeripheralType::Itm);
            assert_eq!(source, position < 4);
        }
        let mut target = Target::new();
        assert_eq!(target.run(procedure), Ok(()));
        let first_sink = target
            .log
            .iter()
            .position(|transaction| transaction.address() >= TPIU)
            .unwrap();
        assert_eq!(first_sink, 8);
        assert_eq!(target.log[1], write(DWT, 0x401));
        assert_eq!(target.log[3], write(DWT, 0x1_0401));
        assert_eq!(target.log[4], write(ITM + 0xFB0, 0xC5AC_CE55));
        assert_eq!(target.log[6], write(ITM + 0xE80, 0x000D_080F));
        assert_eq!(target.log[7], write(ITM + 0xE00, 0xFFFF_FFFF));
    }
}

#[test]
fn prescaler_is_clock_over_baud_less_one() {
    assert_eq!(SwoConfig::new(1_000_000).prescaler(), 0);
    assert_eq!(SwoConfig::new(16_000_000).prescaler(), 15);
    assert_eq!(SwoConfig::new(7).set_baud(2).prescaler(), 2);
    assert_eq!(SwoConfig::new(u32::MAX).set_baud(1).prescaler(), u32::MAX - 1);
    assert_eq!(SwoConfig::new(u32::MAX).set_baud(u32::MAX).prescaler(), 0);
    assert_eq!(SwoConfig::new(1_999_999).set_baud(1_000_000).prescaler(), 0);
    assert_eq!(SwoConfig::new(2_000_000).set_baud(1_000_000).prescaler(), 1);
}

#[test]
fn prescaler_needs_a_baud_rate_within_the_clock() {
    assert!(SwoConfig::new(1_000_000).has_prescaler());
    assert!(!SwoConfig::new(999_999).has_prescaler());
    assert!(!SwoConfig::new(1_000_000).set_baud(0).has_prescaler());
    assert!(TraceSink::TraceMemory.has_prescaler());
    assert!(!TraceSink::Swo(SwoConfig::new(1)).has_prescaler());
    assert!(TraceSink::Tpiu(SwoConfig::new(1).set_baud(1)).has_prescaler());
}

#[test]
fn config_defaults_and_builders() {
    let config = SwoConfig::new(48_000_000);
    assert_eq!(config.mode(), SwoMode::Uart);
    assert_eq!(config.baud(), 1_000_000);
    assert_eq!(config.tpiu_clk(), 48_000_000);
    assert!(!config.tpiu_continuous_formatting());
    assert_eq!(config.pin_protocol(), 2);
    assert_eq!(config.formatter(), 0x100);
    let config = config.set_mode_manchester().set_continuous_formatting(true).set_baud(115_200);
    assert_eq!(config.mode(), SwoMode::Manchester);
    assert_eq!(config.baud(), 115_200);
    assert_eq!(config.pin_protocol(), 1);
    assert_eq!(config.formatter(), 0x102);
    assert_eq!(config.set_mode_uart().mode(), SwoMode::Uart);
    assert_eq!(TraceSink::Swo(config).config(), Some(config));
    assert_eq!(TraceSink::TraceMemory.config(), None);
}

#[test]
fn find_component_gives_the_first_of_its_kind() {
    let components = vec![
        component(PeripheralType::Itm, 0x1000),
        component(PeripheralType::Dwt, 0x2000),
        component(PeripheralType::Dwt, 0x3000),
    ];
    let found = find_component(&components, PeripheralType::Dwt).unwrap();
    assert_eq!(found.base_address(), 0x2000);
    assert_eq!(found.peripheral_type(), PeripheralType::Dwt);
    assert_eq!(
        find_component(&components, PeripheralType::Tmc),
        Err(ArmError::ComponentNotFound(PeripheralType::Tmc))
    );
    assert_eq!(
        find_component(&[], PeripheralType::Dwt),
        Err(ArmError::ComponentNotFound(PeripheralType::Dwt))
    );
    assert_eq!(components[0].find_component(PeripheralType::Itm), Some(&components[0]));
    assert_eq!(components[0].find_component(PeripheralType::Dwt), None);
}

#[test]
fn data_trace_is_added_and_removed() {
    let components = trace_memory_target();
    let mut target = Target::new();
    target.memory.insert(DWT + 0x28 + 32, 0xFFFF_FFFF);
    assert_eq!(target.run(add_swv_data_trace(&components, 2, 0x2000_0040)), Ok(()));
    assert_eq!(
        target.log,
        vec![
            write(DWT + 0x20 + 32, 0x2000_0040),
            read(DWT + 0x28 + 32),
            write(DWT + 0x28 + 32, 0xFFFF_FA53),
        ]
    );
    let mut target = Target::new();
    assert_eq!(target.run(remove_swv_data_trace(&components, 2)), Ok(()));
    assert_eq!(target.log, vec![write(DWT + 0x28 + 32, 0)]);
}

#[test]
fn data_trace_needs_a_dwt() {
    let components = vec![component(PeripheralType::Itm, ITM)];
    let mut target = Target::new();
    assert_eq!(
        target.run(add_swv_data_trace(&components, 0, 0)),
        Err(ArmError::ComponentNotFound(PeripheralType::Dwt))
    );
    assert_eq!(
        target.run(remove_swv_data_trace(&components, 0)),
        Err(ArmError::ComponentNotFound(PeripheralType::Dwt))
    );
    assert!(target.log.is_empty());
    assert!(Dwt::unit_addressable(15));
    assert!(Dwt::unit_addressable(0xFFF_FFFD));
    assert!(!Dwt::unit_addressable(0xFFF_FFFE));
}

#[test]
fn tracing_is_enabled_in_the_core() {
    let mut target = Target::new();
    target.memory.insert(DEMCR, 0x0001_0001);
    assert_eq!(target.run(enable_tracing()), Ok(()));
    assert_eq!(target.log, vec![read(DEMCR), write(DEMCR, 0x0101_0001)]);
}

#[test]
fn disabling_trace_twice_leaves_the_bit_clear_both_times() {
    let mut target = Target::new();
    target.memory.insert(DEMCR, 0x0101_0001);
    assert_eq!(target.run(disable_swv()), Ok(()));
    assert_eq!(target.memory[&DEMCR], 0x0001_0001);
    assert_eq!(target.run(disable_swv()), Ok(()));
    assert_eq!(target.memory[&DEMCR], 0x0001_0001);
    assert_eq!(
        target.log,
        vec![read(DEMCR), write(DEMCR, 0x0001_0001), read(DEMCR), write(DEMCR, 0x0001_0001)]
    );
}

#[test]
fn itm_is_given_its_trace_id_whatever_the_register_held() {
    assert_eq!(ITM_TRACE_ID, 13);
    assert_eq!(tcr_enabled(0), 0x000D_080F);
    assert_eq!(tcr_enabled(0xFFFF_FFFF), 0xFF8D_FFFF);
    assert_eq!(tcr_trace_id(tcr_enabled(0x007F_0000)), 13);
    assert_eq!(tcr_trace_id(tcr_enabled(0x0012_0000)), 13);
}
