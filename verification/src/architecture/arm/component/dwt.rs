//! The Data Watchpoint and Trace unit.

use crate::architecture::arm::component::{unit_offset, DebugRegister};
use crate::architecture::arm::romtable::CoresightComponent;
use crate::architecture::arm::transaction::{Next, Transaction};
use vstd::prelude::*;
use vstd::std_specs::convert::FromSpecImpl;

verus! {

/// The DWT control register.
#[derive(Clone, Copy, Debug, PartialEq, Eq, Structural)]
pub struct Ctrl(pub u32);

impl Ctrl {
    /// The register with the synchronisation tap set to the low two bits of
    /// `value`.
    pub open spec fn with_synctap(self, value: u8) -> Ctrl {
        Ctrl((self.0 & !0xC00u32) | (((value & 3) as u32) << 10))
    }

    /// Selects the tap of the cycle counter that paces synchronisation
    /// packets.
    pub fn set_synctap(&mut self, value: u8)
        ensures
            *final(self) == old(self).with_synctap(value),
    {
        self.0 = (self.0 & !0xC00u32) | (((value & 3) as u32) << 10);
    }

    /// The register with the cycle counter switched on or off.
    pub open spec fn with_cyccntena(self, enabled: bool) -> Ctrl {
        Ctrl(
            if enabled {
                self.0 | 1u32
            } else {
                self.0 & !1u32
            },
        )
    }

    /// Switches the cycle counter on or off.
    pub fn set_cyccntena(&mut self, enabled: bool)
        ensures
            *final(self) == old(self).with_cyccntena(enabled),
    {
        if enabled {
            self.0 = self.0 | 1u32;
        } else {
            self.0 = self.0 & !1u32;
        }
    }

    /// The register with exception tracing switched on or off.
    pub open spec fn with_exctrcena(self, enabled: bool) -> Ctrl {
        Ctrl(
            if enabled {
                self.0 | 0x1_0000u32
            } else {
                self.0 & !0x1_0000u32
            },
        )
    }

    /// Switches exception tracing on or off.
    pub fn set_exctrcena(&mut self, enabled: bool)
        ensures
            *final(self) == old(self).with_exctrcena(enabled),
    {
        if enabled {
            self.0 = self.0 | 0x1_0000u32;
        } else {
            self.0 = self.0 & !0x1_0000u32;
        }
    }
}

impl From<u32> for Ctrl {
    fn from(word: u32) -> (register: Ctrl) {
        Ctrl(word)
    }
}

impl FromSpecImpl<u32> for Ctrl {
    open spec fn obeys_from_spec() -> bool {
        true
    }

    open spec fn from_spec(word: u32) -> Ctrl {
        Ctrl(word)
    }
}

impl From<Ctrl> for u32 {
    fn from(register: Ctrl) -> (word: u32) {
        register.0
    }
}

impl FromSpecImpl<Ctrl> for u32 {
    open spec fn obeys_from_spec() -> bool {
        true
    }

    open spec fn from_spec(register: Ctrl) -> u32 {
        register.0
    }
}

impl DebugRegister for Ctrl {
    const ADDRESS: u32 = 0x00;

    const NAME: &'static str = "DWT_CTRL";
}


/// The comparator register of a DWT unit: the address it watches.
#[derive(Clone, Copy, Debug, PartialEq, Eq, Structural)]
pub struct Comp(pub u32);

impl Comp {
    /// The register with `address` as the address to watch.
    pub open spec fn with_comp(self, address: u32) -> Comp {
        Comp(address)
    }

    /// Sets the address to watch.
    pub fn set_comp(&mut self, address: u32)
        ensures
            *final(self) == old(self).with_comp(address),
    {
        self.0 = address;
    }
}

impl From<u32> for Comp {
    fn from(word: u32) -> (register: Comp) {
        Comp(word)
    }
}

impl FromSpecImpl<u32> for Comp {
    open spec fn obeys_from_spec() -> bool {
        true
    }

    open spec fn from_spec(word: u32) -> Comp {
        Comp(word)
    }
}

impl From<Comp> for u32 {
    fn from(register: Comp) -> (word: u32) {
        register.0
    }
}

impl FromSpecImpl<Comp> for u32 {
    open spec fn obeys_from_spec() -> bool {
        true
    }

    open spec fn from_spec(register: Comp) -> u32 {
        register.0
    }
}

impl DebugRegister for Comp {
    const ADDRESS: u32 = 0x20;

    const NAME: &'static str = "DWT_COMP";
}

/// The function register of a DWT unit: what a match of its comparator does.
#[derive(Clone, Copy, Debug, PartialEq, Eq, Structural)]
pub struct Function(pub u32);

impl Function {
    /// The register with the size of the compared data value set to the low
    /// two bits of `value`.
    pub open spec fn with_datavsize(self, value: u8) -> Function {
        Function((self.0 & !0xC00u32) | (((value & 3) as u32) << 10))
    }

    /// Selects the size of the data value that is compared.
    pub fn set_datavsize(&mut self, value: u8)
        ensures
            *final(self) == old(self).with_datavsize(value),
    {
        self.0 = (self.0 & !0xC00u32) | (((value & 3) as u32) << 10);
    }

    /// The register with data value matching switched on or off.
    pub open spec fn with_datavmatch(self, enabled: bool) -> Function {
        Function(
            if enabled {
                self.0 | 0x100u32
            } else {
                self.0 & !0x100u32
            },
        )
    }

    /// Switches data value matching on or off.
    pub fn set_datavmatch(&mut self, enabled: bool)
        ensures
            *final(self) == old(self).with_datavmatch(enabled),
    {
        if enabled {
            self.0 = self.0 | 0x100u32;
        } else {
            self.0 = self.0 & !0x100u32;
        }
    }

    /// The register with cycle count matching switched on or off.
    pub open spec fn with_cycmatch(self, enabled: bool) -> Function {
        Function(
            if enabled {
                self.0 | 0x80u32
            } else {
                self.0 & !0x80u32
            },
        )
    }

    /// Switches cycle count matching on or off.
    pub fn set_cycmatch(&mut self, enabled: bool)
        ensures
            *final(self) == old(self).with_cycmatch(enabled),
    {
        if enabled {
            self.0 = self.0 | 0x80u32;
        } else {
            self.0 = self.0 & !0x80u32;
        }
    }

    /// The register with the emission of address ranges switched on or off.
    pub open spec fn with_emitrange(self, enabled: bool) -> Function {
        Function(
            if enabled {
                self.0 | 0x20u32
            } else {
                self.0 & !0x20u32
            },
        )
    }

    /// Switches the emission of address ranges on or off.
    pub fn set_emitrange(&mut self, enabled: bool)
        ensures
            *final(self) == old(self).with_emitrange(enabled),
    {
        if enabled {
            self.0 = self.0 | 0x20u32;
        } else {
            self.0 = self.0 & !0x20u32;
        }
    }

    /// The register with the action on a match set to the low four bits of
    /// `value`.
    pub open spec fn with_function(self, value: u8) -> Function {
        Function((self.0 & !0xFu32) | ((value & 0xF) as u32))
    }

    /// Selects the action on a match; zero switches the unit off.
    pub fn set_function(&mut self, value: u8)
        ensures
            *final(self) == old(self).with_function(value),
    {
        self.0 = (self.0 & !0xFu32) | ((value & 0xF) as u32);
    }

    /// The action on a match.
    pub open spec fn spec_function(&self) -> u8 {
        (self.0 & 0xFu32) as u8
    }

    /// The action on a match; zero when the unit is off.
    #[verifier::when_used_as_spec(spec_function)]
    pub fn function(&self) -> (value: u8)
        ensures
            value == self.spec_function(),
    {
        (self.0 & 0xFu32) as u8
    }
}

impl From<u32> for Function {
    fn from(word: u32) -> (register: Function) {
        Function(word)
    }
}

impl FromSpecImpl<u32> for Function {
    open spec fn obeys_from_spec() -> bool {
        true
    }

    open spec fn from_spec(word: u32) -> Function {
        Function(word)
    }
}

impl From<Function> for u32 {
    fn from(register: Function) -> (word: u32) {
        register.0
    }
}

impl FromSpecImpl<Function> for u32 {
    open spec fn obeys_from_spec() -> bool {
        true
    }

    open spec fn from_spec(register: Function) -> u32 {
        register.0
    }
}

impl DebugRegister for Function {
    const ADDRESS: u32 = 0x28;

    const NAME: &'static str = "DWT_FUNCTION";
}

/// The driver of a DWT.
#[derive(Clone, Copy, Debug, PartialEq, Eq, Structural)]
pub struct Dwt {
    /// The component that is driven.
    pub component: CoresightComponent,
}

impl Dwt {
    /// The driver of `component`.
    pub fn new(component: &CoresightComponent) -> (dwt: Dwt)
        ensures
            dwt.component == *component,
    {
        Dwt { component: *component }
    }

    /// What `enable` asks for at `stage`: the control register is read, then
    /// written back with the cycle counter on and the first synchronisation
    /// tap selected.
    pub open spec fn spec_enable(&self, stage: u8, loaded: u32) -> Next {
        if stage == 0 {
            Next::Issue(Transaction::Read { address: self.component.register_address(0x00) })
        } else if stage == 1 {
            Next::Issue(
                Transaction::Write {
                    address: self.component.register_address(0x00),
                    value: Ctrl(loaded).with_synctap(1).with_cyccntena(true).0,
                },
            )
        } else {
            Next::Complete
        }
    }

    /// Switches the unit on.
    pub fn enable(&self, stage: u8, loaded: u32) -> (next: Next)
        ensures
            next == self.spec_enable(stage, loaded),
    {
        if stage == 0 {
            Next::Issue(Ctrl::load(&self.component))
        } else if stage == 1 {
            let mut ctrl = Ctrl::from(loaded);
            ctrl.set_synctap(1);
            ctrl.set_cyccntena(true);
            Next::Issue(ctrl.store(&self.component))
        } else {
            Next::Complete
        }
    }

    /// What `enable_exception_trace` asks for at `stage`: the control
    /// register is read, then written back with exception tracing on.
    pub open spec fn spec_enable_exception_trace(&self, stage: u8, loaded: u32) -> Next {
        if stage == 0 {
            Next::Issue(Transaction::Read { address: self.component.register_address(0x00) })
        } else if stage == 1 {
            Next::Issue(
                Transaction::Write {
                    address: self.component.register_address(0x00),
                    value: Ctrl(loaded).with_exctrcena(true).0,
                },
            )
        } else {
            Next::Complete
        }
    }

    /// Switches the tracing of exception entries and exits on.
    pub fn enable_exception_trace(&self, stage: u8, loaded: u32) -> (next: Next)
        ensures
            next == self.spec_enable_exception_trace(stage, loaded),
    {
        if stage == 0 {
            Next::Issue(Ctrl::load(&self.component))
        } else if stage == 1 {
            let mut ctrl = Ctrl::from(loaded);
            ctrl.set_exctrcena(true);
            Next::Issue(ctrl.store(&self.component))
        } else {
            Next::Complete
        }
    }

    /// Whether the registers of `unit` lie within the 32-bit offsets of a
    /// component.
    pub open spec fn spec_unit_addressable(unit: usize) -> bool {
        unit_offset(0x28, unit) <= u32::MAX
    }

    /// Whether the registers of `unit` lie within the 32-bit offsets of a
    /// component.
    #[verifier::when_used_as_spec(spec_unit_addressable)]
    pub fn unit_addressable(unit: usize) -> (addressable: bool)
        ensures
            addressable == Self::spec_unit_addressable(unit),
    {
        unit <= 0xFFF_FFFD
    }

    /// What `enable_data_trace` asks for at `stage`: the comparator of `unit`
    /// is written with `address`; then the function register of `unit` is
    /// read and written back as a word-sized match on the address alone that
    /// emits the program counter and the data value.
    pub open spec fn spec_enable_data_trace(
        &self,
        unit: usize,
        address: u32,
        stage: u8,
        loaded: u32,
    ) -> Next {
        if stage == 0 {
            Next::Issue(
                Transaction::Write {
                    address: self.component.register_address(unit_offset(0x20, unit)),
                    value: address,
                },
            )
        } else if stage == 1 {
            Next::Issue(
                Transaction::Read {
                    address: self.component.register_address(unit_offset(0x28, unit)),
                },
            )
        } else if stage == 2 {
            Next::Issue(
                Transaction::Write {
                    address: self.component.register_address(unit_offset(0x28, unit)),
                    value: Function(loaded).with_datavsize(2).with_emitrange(false).with_datavmatch(
                        false,
                    ).with_cycmatch(false).with_function(3).0,
                },
            )
        } else {
            Next::Complete
        }
    }

    /// Makes `unit` trace the accesses to `address`.
    pub fn enable_data_trace(&self, unit: usize, address: u32, stage: u8, loaded: u32) -> (next:
        Next)
        requires
            Self::unit_addressable(unit),
        ensures
            next == self.spec_enable_data_trace(unit, address, stage, loaded),
    {
        if stage == 0 {
            let mut comp = Comp::from(0);
            comp.set_comp(address);
            Next::Issue(comp.store_unit(&self.component, unit))
        } else if stage == 1 {
            Next::Issue(Function::load_unit(&self.component, unit))
        } else if stage == 2 {
            let mut function = Function::from(loaded);
            function.set_datavsize(2);
            function.set_emitrange(false);
            function.set_datavmatch(false);
            function.set_cycmatch(false);
            function.set_function(3);
            Next::Issue(function.store_unit(&self.component, unit))
        } else {
            Next::Complete
        }
    }

    /// What `disable_data_trace` asks for at `stage`: the function register
    /// of `unit` is written with zero.
    pub open spec fn spec_disable_data_trace(&self, unit: usize, stage: u8) -> Next {
        if stage == 0 {
            Next::Issue(
                Transaction::Write {
                    address: self.component.register_address(unit_offset(0x28, unit)),
                    value: 0,
                },
            )
        } else {
            Next::Complete
        }
    }

    /// Makes `unit` stop tracing.
    pub fn disable_data_trace(&self, unit: usize, stage: u8) -> (next: Next)
        requires
            Self::unit_addressable(unit),
        ensures
            next == self.spec_disable_data_trace(unit, stage),
    {
        if stage == 0 {
            Next::Issue(Function::from(0).store_unit(&self.component, unit))
        } else {
            Next::Complete
        }
    }
}

} // verus!
