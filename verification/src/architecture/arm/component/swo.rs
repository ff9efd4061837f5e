//! The Serial Wire Output unit, on targets that have one apart from the TPIU.

use crate::architecture::arm::component::itm::UNLOCK_KEY;
use crate::architecture::arm::romtable::CoresightComponent;
use crate::architecture::arm::transaction::{Next, Transaction};
use vstd::prelude::*;

verus! {

/// The offset of the current output divisor register.
pub const REGISTER_OFFSET_SWO_CODR: u32 = 0x10;

/// The offset of the selected pin protocol register.
pub const REGISTER_OFFSET_SWO_SPPR: u32 = 0xF0;

/// The offset of the lock access register.
pub const REGISTER_OFFSET_ACCESS: u32 = 0xFB0;

/// The driver of an SWO unit.
#[derive(Clone, Copy, Debug, PartialEq, Eq, Structural)]
pub struct Swo {
    /// The component that is driven.
    pub component: CoresightComponent,
}

impl Swo {
    /// The driver of `component`.
    pub fn new(component: &CoresightComponent) -> (swo: Swo)
        ensures
            swo.component == *component,
    {
        Swo { component: *component }
    }

    /// What a routine asks for at `stage` that writes `value` to the
    /// register at `offset` and is done.
    pub open spec fn spec_write(&self, offset: u32, value: u32, stage: u8) -> Next {
        if stage == 0 {
            Next::Issue(
                Transaction::Write {
                    address: self.component.register_address(offset as int),
                    value,
                },
            )
        } else {
            Next::Complete
        }
    }

    fn write(&self, offset: u32, value: u32, stage: u8) -> (next: Next)
        ensures
            next == self.spec_write(offset, value, stage),
    {
        if stage == 0 {
            Next::Issue(self.component.write_reg(offset, value))
        } else {
            Next::Complete
        }
    }

    /// Opens the registers of the unit to writes.
    pub fn unlock(&self, stage: u8) -> (next: Next)
        ensures
            next == self.spec_write(REGISTER_OFFSET_ACCESS, UNLOCK_KEY, stage),
    {
        self.write(REGISTER_OFFSET_ACCESS, UNLOCK_KEY, stage)
    }

    /// Sets the divider of the trace clock, less one.
    pub fn set_prescaler(&self, value: u32, stage: u8) -> (next: Next)
        ensures
            next == self.spec_write(REGISTER_OFFSET_SWO_CODR, value, stage),
    {
        self.write(REGISTER_OFFSET_SWO_CODR, value, stage)
    }

    /// Sets the line encoding: 1 is Manchester, 2 is UART.
    pub fn set_pin_protocol(&self, value: u32, stage: u8) -> (next: Next)
        ensures
            next == self.spec_write(REGISTER_OFFSET_SWO_SPPR, value, stage),
    {
        self.write(REGISTER_OFFSET_SWO_SPPR, value, stage)
    }
}

} // verus!
