use probe_rs::architecture::arm::armv6m::Demcr;
use probe_rs::architecture::arm::component::dwt::{Comp, Ctrl, Dwt, Function};
use probe_rs::architecture::arm::component::itm::Itm;
use probe_rs::architecture::arm::component::swo::Swo;
use probe_rs::architecture::arm::component::tmc::{EtfMode, Mode, Status, TraceMemoryController};
use probe_rs::architecture::arm::component::tpiu::Tpiu;
use probe_rs::architecture::arm::component::{ComponentError, DebugRegister};
use probe_rs::architecture::arm::procedure::{Operation, MAX_STAGES};
use probe_rs::architecture::arm::romtable::{CoresightComponent, PeripheralType, MAX_BASE_ADDRESS};
use probe_rs::architecture::arm::transaction::{Next, Transaction};
use probe_rs::error::ArmError;

fn dwt() -> CoresightComponent {
    CoresightComponent::new(PeripheralType::Dwt, 0xE000_1000)
}

#[test]
fn registers_are_loaded_from_their_address() {
    assert_eq!(Ctrl::load(&dwt()), Transaction::Read { address: 0xE000_1000 });
    assert_eq!(Function::load(&dwt()), Transaction::Read { address: 0xE000_1028 });
    assert_eq!(Ctrl::ADDRESS, 0x00);
    assert_eq!(Comp::ADDRESS, 0x20);
    assert_eq!(Function::ADDRESS, 0x28);
    assert_eq!(Status::ADDRESS, 0x0C);
    assert_eq!(EtfMode::ADDRESS, 0x28);
    assert_eq!(Ctrl::NAME, "DWT_CTRL");
}

#[test]
fn registers_are_stored_to_their_address() {
    assert_eq!(
        Ctrl::from(0x1234).store(&dwt()),
        Transaction::Write { address: 0xE000_1000, value: 0x1234 }
    );
    assert_eq!(u32::from(Ctrl::from(77)), 77);
}

#[test]
fn units_are_sixteen_bytes_apart() {
    assert_eq!(Comp::load_unit(&dwt(), 0), Transaction::Read { address: 0xE000_1020 });
    assert_eq!(Comp::load_unit(&dwt(), 1), Transaction::Read { address: 0xE000_1030 });
    assert_eq!(Function::load_unit(&dwt(), 3), Transaction::Read { address: 0xE000_1058 });
    assert_eq!(
        Function::from(9).store_unit(&dwt(), 2),
        Transaction::Write { address: 0xE000_1048, value: 9 }
    );
    assert_eq!(
        Comp::from(0x2000_0000).store_unit(&dwt(), 15),
        Transaction::Write { address: 0xE000_1110, value: 0x2000_0000 }
    );
}

#[test]
fn registers_at_the_end_of_the_address_space() {
    let last = CoresightComponent::new(PeripheralType::Dwt, MAX_BASE_ADDRESS);
    assert_eq!(last.read_reg(u32::MAX), Transaction::Read { address: u64::MAX });
    assert_eq!(
        Function::load_unit(&last, 0xFFF_FFFD),
        Transaction::Read { address: 0xFFFF_FFFF_FFFF_FFF8 }
    );
    assert_eq!(last.write_reg(4, 5), Transaction::Write { address: MAX_BASE_ADDRESS + 4, value: 5 });
}

#[test]
fn dwt_control_fields() {
    let mut ctrl = Ctrl(0xFFFF_FFFF);
    ctrl.set_synctap(1);
    assert_eq!(ctrl.0, 0xFFFF_F7FF);
    ctrl.set_cyccntena(false);
    assert_eq!(ctrl.0, 0xFFFF_F7FE);
    ctrl.set_exctrcena(false);
    assert_eq!(ctrl.0, 0xFFFE_F7FE);
    let mut ctrl = Ctrl(0);
    ctrl.set_synctap(0xFF);
    ctrl.set_cyccntena(true);
    ctrl.set_exctrcena(true);
    assert_eq!(ctrl.0, 0x0001_0C01);
}

#[test]
fn dwt_function_fields() {
    let mut function = Function(0);
    function.set_datavsize(2);
    function.set_function(3);
    assert_eq!(function.0, 0x803);
    assert_eq!(function.function(), 3);
    function.set_datavmatch(true);
    function.set_cycmatch(true);
    function.set_emitrange(true);
    assert_eq!(function.0, 0x9A3);
    function.set_datavmatch(false);
    function.set_cycmatch(false);
    function.set_emitrange(false);
    function.set_function(0x10);
    assert_eq!(function.0, 0x800);
    assert_eq!(function.function(), 0);
    let mut comp = Comp(1);
    comp.set_comp(0xDEAD_BEEF);
    assert_eq!(comp.0, 0xDEAD_BEEF);
}

#[test]
fn dwt_routines() {
    let dwt = Dwt::new(&dwt());
    assert_eq!(dwt.enable(0, 99), Next::Issue(Transaction::Read { address: 0xE000_1000 }));
    assert_eq!(
        dwt.enable(1, 0x8000_0C00),
        Next::Issue(Transaction::Write { address: 0xE000_1000, value: 0x8000_0401 })
    );
    assert_eq!(dwt.enable(2, 0), Next::Complete);
    assert_eq!(
        dwt.enable_exception_trace(1, 1),
        Next::Issue(Transaction::Write { address: 0xE000_1000, value: 0x1_0001 })
    );
    assert_eq!(dwt.enable_exception_trace(2, 1), Next::Complete);
    assert_eq!(
        dwt.enable_data_trace(1, 0x2000_0000, 0, 0),
        Next::Issue(Transaction::Write { address: 0xE000_1030, value: 0x2000_0000 })
    );
    assert_eq!(
        dwt.enable_data_trace(1, 0x2000_0000, 1, 0),
        Next::Issue(Transaction::Read { address: 0xE000_1038 })
    );
    assert_eq!(
        dwt.enable_data_trace(1, 0x2000_0000, 2, 0x0000_01AF),
        Next::Issue(Transaction::Write { address: 0xE000_1038, value: 0x0000_0803 })
    );
    assert_eq!(dwt.enable_data_trace(1, 0x2000_0000, 3, 0), Next::Complete);
    assert_eq!(
        dwt.disable_data_trace(1, 0),
        Next::Issue(Transaction::Write { address: 0xE000_1038, value: 0 })
    );
    assert_eq!(dwt.disable_data_trace(1, 1), Next::Complete);
}

#[test]
fn itm_routines() {
    let itm = Itm::new(&CoresightComponent::new(PeripheralType::Itm, 0xE000_0000));
    assert_eq!(
        itm.unlock(0),
        Next::Issue(Transaction::Write { address: 0xE000_0FB0, value: 0xC5AC_CE55 })
    );
    assert_eq!(itm.unlock(1), Next::Complete);
    assert_eq!(itm.tx_enable(0, 0), Next::Issue(Transaction::Read { address: 0xE000_0E80 }));
    assert_eq!(
        itm.tx_enable(1, 0x0055_0000),
        Next::Issue(Transaction::Write { address: 0xE000_0E80, value: 0x000D_080F })
    );
    assert_eq!(
        itm.tx_enable(2, 0),
        Next::Issue(Transaction::Write { address: 0xE000_0E00, value: 0xFFFF_FFFF })
    );
    assert_eq!(itm.tx_enable(3, 0), Next::Complete);
}

#[test]
fn tpiu_and_swo_routines() {
    let tpiu = Tpiu::new(&CoresightComponent::new(PeripheralType::Tpiu, 0xE004_0000));
    assert_eq!(
        tpiu.set_port_size(1, 0),
        Next::Issue(Transaction::Write { address: 0xE004_0004, value: 1 })
    );
    assert_eq!(
        tpiu.set_prescaler(15, 0),
        Next::Issue(Transaction::Write { address: 0xE004_0010, value: 15 })
    );
    assert_eq!(
        tpiu.set_pin_protocol(2, 0),
        Next::Issue(Transaction::Write { address: 0xE004_00F0, value: 2 })
    );
    assert_eq!(
        tpiu.set_formatter(0x102, 0),
        Next::Issue(Transaction::Write { address: 0xE004_0304, value: 0x102 })
    );
    assert_eq!(tpiu.set_formatter(0x102, 1), Next::Complete);
    let swo = Swo::new(&CoresightComponent::new(PeripheralType::Swo, 0xE004_2000));
    assert_eq!(
        swo.unlock(0),
        Next::Issue(Transaction::Write { address: 0xE004_2FB0, value: 0xC5AC_CE55 })
    );
    assert_eq!(
        swo.set_prescaler(3, 0),
        Next::Issue(Transaction::Write { address: 0xE004_2010, value: 3 })
    );
    assert_eq!(
        swo.set_pin_protocol(1, 0),
        Next::Issue(Transaction::Write { address: 0xE004_20F0, value: 1 })
    );
    assert_eq!(swo.unlock(1), Next::Complete);
}

#[test]
fn tmc_routines() {
    let tmc = TraceMemoryController::new(&CoresightComponent::new(PeripheralType::Tmc, 0x1000));
    assert_eq!(
        tmc.disable_capture(0),
        Next::Issue(Transaction::Write { address: 0x1020, value: 0 })
    );
    assert_eq!(tmc.enable_capture(0), Next::Issue(Transaction::Write { address: 0x1020, value: 1 }));
    assert_eq!(tmc.enable_capture(1), Next::Complete);
    assert_eq!(tmc.ready(0, 0x4), Next::Issue(Transaction::Read { address: 0x100C }));
    assert_eq!(tmc.ready(1, 0x3), Next::Repeat(Transaction::Read { address: 0x100C }));
    assert_eq!(tmc.ready(1, 0x4), Next::Complete);
    assert_eq!(tmc.ready(2, 0x0), Next::Complete);
    assert!(Status(0x4).tmcready());
    assert!(!Status(0xFFFF_FFFB).tmcready());
    assert_eq!(tmc.set_mode(Mode::Software, 0, 0), Next::Issue(Transaction::Read { address: 0x1028 }));
    assert_eq!(
        tmc.set_mode(Mode::Software, 1, 0xFFFF_FFFF),
        Next::Issue(Transaction::Write { address: 0x1028, value: 0xFFFF_FFFD })
    );
    assert_eq!(
        tmc.set_mode(Mode::Hardware, 1, 1),
        Next::Issue(Transaction::Write { address: 0x1028, value: 2 })
    );
    assert_eq!(
        tmc.set_mode(Mode::Circular, 1, 3),
        Next::Issue(Transaction::Write { address: 0x1028, value: 0 })
    );
    assert_eq!(Mode::Circular.bits(), 0);
    assert_eq!(Mode::Software.bits(), 1);
    assert_eq!(Mode::Hardware.bits(), 2);
    let mut mode = EtfMode(0);
    mode.set_mode(7);
    assert_eq!(mode.0, 3);
    assert_eq!(tmc.fifo_size_request(), Transaction::Read { address: 0x1004 });
    assert_eq!(tmc.read_request(), Transaction::Read { address: 0x1010 });
}

#[test]
fn trace_enable_bit() {
    let mut demcr = Demcr(0);
    assert!(!demcr.dwtena());
    demcr.set_dwtena(true);
    assert_eq!(demcr.0, 0x0100_0000);
    assert!(demcr.dwtena());
    demcr.set_dwtena(true);
    assert_eq!(demcr.0, 0x0100_0000);
    let mut demcr = Demcr(0xFFFF_FFFF);
    demcr.set_dwtena(false);
    assert_eq!(demcr.0, 0xFEFF_FFFF);
    demcr.set_dwtena(false);
    assert_eq!(demcr.0, 0xFEFF_FFFF);
    assert_eq!(Demcr::ADDRESS, 0xE000_EDFC);
    assert_eq!(Demcr::set_trace(true, 0, 5), Next::Issue(Transaction::Read { address: 0xE000_EDFC }));
    assert_eq!(
        Demcr::set_trace(false, 1, 0x0100_0010),
        Next::Issue(Transaction::Write { address: 0xE000_EDFC, value: 0x10 })
    );
    assert_eq!(Demcr::set_trace(false, 2, 0), Next::Complete);
}

#[test]
fn operations_are_done_within_the_stages() {
    let component = dwt();
    let operations = [
        Operation::DwtEnable(Dwt::new(&component)),
        Operation::DwtEnableDataTrace(Dwt::new(&component), 1, 2),
        Operation::ItmTxEnable(Itm::new(&component)),
        Operation::TmcReady(TraceMemoryController::new(&component)),
        Operation::SetTrace(true),
    ];
    for operation in operations {
        assert_eq!(operation.next(MAX_STAGES, 0), Next::Complete);
        assert_ne!(operation.next(0, 0), Next::Complete);
        assert_eq!(operation.next(0, 0), operation.next(0, 0xFFFF_FFFF));
    }
    assert_eq!(Operation::SetTrace(true).peripheral_type(), None);
    assert_eq!(operations[3].peripheral_type(), Some(PeripheralType::Tmc));
}

#[test]
fn transactions_tell_address_and_direction() {
    let read = Transaction::Read { address: 8 };
    let write = Transaction::Write { address: 12, value: 1 };
    assert_eq!(read.address(), 8);
    assert_eq!(write.address(), 12);
    assert!(!read.is_write());
    assert!(write.is_write());
}

#[test]
fn errors_carry_what_went_wrong() {
    let error = ArmError::Component(ComponentError::NordicUnsupportedTPUICLKValue(3));
    assert_eq!(error, ArmError::Component(ComponentError::NordicUnsupportedTPUICLKValue(3)));
    assert_ne!(error, ArmError::ComponentNotFound(PeripheralType::Tpiu));
}
