//! The Trace Port Interface Unit.

use crate::architecture::arm::romtable::CoresightComponent;
use crate::architecture::arm::transaction::{Next, Transaction};
use vstd::prelude::*;

verus! {

/// The offset of the current parallel port size register.
pub const REGISTER_OFFSET_TPIU_CSPSR: u32 = 0x4;

/// The offset of the asynchronous clock prescaler register.
pub const REGISTER_OFFSET_TPIU_ACPR: u32 = 0x10;

/// The offset of the selected pin protocol register.
pub const REGISTER_OFFSET_TPIU_SPPR: u32 = 0xF0;

/// The offset of the formatter and flush control register.
pub const REGISTER_OFFSET_TPIU_FFCR: u32 = 0x304;

/// The driver of a TPIU.
#[derive(Clone, Copy, Debug, PartialEq, Eq, Structural)]
pub struct Tpiu {
    /// The component that is driven.
    pub component: CoresightComponent,
}

impl Tpiu {
    /// The driver of `component`.
    pub fn new(component: &CoresightComponent) -> (tpiu: Tpiu)
        ensures
            tpiu.component == *component,
    {
        Tpiu { component: *component }
    }

    /// What a routine asks for at `stage` that writes `value` to the
    /// register at `offset` and is done.
    pub open spec fn spec_write(&self, offset: u32, value: u32, stage: u8) -> Next {
        if stage == 0 {
            Next::Issue(
                Transaction::Write {
                    address: self.component.register_address(offset as int),
                    value,
                },
            )
        } else {
            Next::Complete
        }
    }

    fn write(&self, offset: u32, value: u32, stage: u8) -> (next: Next)
        ensures
            next == self.spec_write(offset, value, stage),
    {
        if stage == 0 {
            Next::Issue(self.component.write_reg(offset, value))
        } else {
            Next::Complete
        }
    }

    /// Sets the width of the trace port; 1 is a single serial wire.
    pub fn set_port_size(&self, value: u32, stage: u8) -> (next: Next)
        ensures
            next == self.spec_write(REGISTER_OFFSET_TPIU_CSPSR, value, stage),
    {
        self.write(REGISTER_OFFSET_TPIU_CSPSR, value, stage)
    }

    /// Sets the divider of the trace clock, less one.
    pub fn set_prescaler(&self, value: u32, stage: u8) -> (next: Next)
        ensures
            next == self.spec_write(REGISTER_OFFSET_TPIU_ACPR, value, stage),
    {
        self.write(REGISTER_OFFSET_TPIU_ACPR, value, stage)
    }

    /// Sets the line encoding: 1 is Manchester, 2 is UART.
    pub fn set_pin_protocol(&self, value: u32, stage: u8) -> (next: Next)
        ensures
            next == self.spec_write(REGISTER_OFFSET_TPIU_SPPR, value, stage),
    {
        self.write(REGISTER_OFFSET_TPIU_SPPR, value, stage)
    }

    /// Sets the formatter control word.
    pub fn set_formatter(&self, value: u32, stage: u8) -> (next: Next)
        ensures
            next == self.spec_write(REGISTER_OFFSET_TPIU_FFCR, value, stage),
    {
        self.write(REGISTER_OFFSET_TPIU_FFCR, value, stage)
    }
}

} // verus!
