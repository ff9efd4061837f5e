//! The debug components that discovery found on the target.

use crate::architecture::arm::transaction::Transaction;
use vstd::prelude::*;

verus! {

/// The kinds of CoreSight peripheral.
#[derive(Clone, Copy, Debug, PartialEq, Eq, Structural)]
pub enum PeripheralType {
    /// Trace Port Interface Unit
    Tpiu,
    /// Instrumentation Trace Macrocell
    Itm,
    /// Data Watchpoint and Trace unit
    Dwt,
    /// System Control Space
    Scs,
    /// Flash Patch and Breakpoint unit
    Fpb,
    /// Breakpoint unit
    Bpu,
    /// Embedded Trace Macrocell
    Etm,
    /// Embedded Trace Buffer
    Etb,
    /// ROM table
    Rom,
    /// Serial Wire Output
    Swo,
    /// System Trace Macrocell
    Stm,
    /// Trace funnel
    TraceFunnel,
    /// Timestamp generator
    Tsgen,
    /// Trace Memory Controller
    Tmc,
}

/// The highest base address a component can have: every 32-bit register
/// offset above it is still a 64-bit address.
pub const MAX_BASE_ADDRESS: u64 = 0xFFFF_FFFF_0000_0000;

/// A debug component: a block of registers of one kind at a base address.
#[derive(Clone, Copy, Debug, PartialEq, Eq, Structural)]
pub struct CoresightComponent {
    peripheral_type: PeripheralType,
    base_address: u64,
}

impl CoresightComponent {
    #[verifier::type_invariant]
    spec fn addressable(self) -> bool {
        self.base_address <= MAX_BASE_ADDRESS
    }

    /// The component of kind `peripheral_type` whose registers start at
    /// `base_address`.
    pub fn new(peripheral_type: PeripheralType, base_address: u64) -> (component: Self)
        requires
            base_address <= MAX_BASE_ADDRESS,
        ensures
            component.peripheral_type() == peripheral_type,
            component.base_address() == base_address,
    {
        CoresightComponent { peripheral_type, base_address }
    }

    /// The kind of the component.
    pub closed spec fn spec_peripheral_type(&self) -> PeripheralType {
        self.peripheral_type
    }

    /// The kind of the component.
    #[verifier::when_used_as_spec(spec_peripheral_type)]
    pub fn peripheral_type(&self) -> (peripheral_type: PeripheralType)
        ensures
            peripheral_type == self.spec_peripheral_type(),
    {
        self.peripheral_type
    }

    /// The address of the component's first register.
    pub closed spec fn spec_base_address(&self) -> u64 {
        self.base_address
    }

    /// The address of the component's first register.
    #[verifier::when_used_as_spec(spec_base_address)]
    pub fn base_address(&self) -> (base_address: u64)
        ensures
            base_address == self.spec_base_address(),
            base_address <= MAX_BASE_ADDRESS,
    {
        proof {
            use_type_invariant(self);
        }
        self.base_address
    }

    /// The address of the register `offset` bytes into the component.
    pub open spec fn register_address(&self, offset: int) -> u64 {
        (self.base_address() + offset) as u64
    }

    /// The component itself if it is of kind `peripheral_type`.
    pub fn find_component(&self, peripheral_type: PeripheralType) -> (found: Option<
        &CoresightComponent,
    >)
        ensures
            found == if self.peripheral_type() == peripheral_type {
                Some(self)
            } else {
                None
            },
    {
        if self.peripheral_type == peripheral_type {
            Some(self)
        } else {
            None
        }
    }

    /// The read of the register `offset` bytes into the component.
    pub fn read_reg(&self, offset: u32) -> (transaction: Transaction)
        ensures
            transaction == (Transaction::Read { address: self.register_address(offset as int) }),
    {
        let base = self.base_address();
        Transaction::Read { address: base + offset as u64 }
    }

    /// The write of `value` to the register `offset` bytes into the component.
    pub fn write_reg(&self, offset: u32, value: u32) -> (transaction: Transaction)
        ensures
            transaction == (Transaction::Write {
                address: self.register_address(offset as int),
                value,
            }),
    {
        let base = self.base_address();
        Transaction::Write { address: base + offset as u64, value }
    }
}

} // verus!
