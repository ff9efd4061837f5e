//! The Instrumentation Trace Macrocell.

use crate::architecture::arm::romtable::CoresightComponent;
use crate::architecture::arm::transaction::{Next, Transaction};
use vstd::prelude::*;

verus! {

/// The trace source identifier that the ITM is given. Trace that carries it
/// is the instrumentation trace.
pub const ITM_TRACE_ID: u8 = 13;

/// The key that opens the registers of a component to writes.
pub const UNLOCK_KEY: u32 = 0xC5AC_CE55;

/// The offset of the trace enable register: one bit for each stimulus port.
pub const REGISTER_OFFSET_ITM_TER: u32 = 0xE00;

/// The offset of the trace control register.
pub const REGISTER_OFFSET_ITM_TCR: u32 = 0xE80;

/// The offset of the lock access register.
pub const REGISTER_OFFSET_ACCESS: u32 = 0xFB0;

/// The trace control word `loaded` once the ITM is switched on: the unit, its
/// local timestamps, its synchronisation packets and the forwarding of DWT
/// packets enabled, a global timestamp requested every 8192 cycles, and the
/// trace source identifier replaced by `ITM_TRACE_ID`. Other bits are kept.
pub open spec fn spec_tcr_enabled(loaded: u32) -> u32 {
    (loaded & !0x7F_0000u32) | 0xD_0000u32 | 0x80Fu32
}

/// The trace control word `loaded` once the ITM is switched on.
#[verifier::when_used_as_spec(spec_tcr_enabled)]
pub fn tcr_enabled(loaded: u32) -> (word: u32)
    ensures
        word == spec_tcr_enabled(loaded),
{
    (loaded & !0x7F_0000u32) | 0xD_0000u32 | 0x80Fu32
}

/// The trace source identifier held in the trace control word `word`.
pub open spec fn spec_tcr_trace_id(word: u32) -> u8 {
    ((word >> 16) & 0x7Fu32) as u8
}

/// The trace source identifier held in the trace control word `word`.
#[verifier::when_used_as_spec(spec_tcr_trace_id)]
pub fn tcr_trace_id(word: u32) -> (id: u8)
    ensures
        id == spec_tcr_trace_id(word),
{
    ((word >> 16) & 0x7Fu32) as u8
}

/// Whatever the trace control register held, once the ITM is switched on it
/// is enabled and carries the identifier `ITM_TRACE_ID`, and the bits outside
/// the fields that were set are as before.
pub proof fn lemma_tcr_enabled(loaded: u32)
    ensures
        spec_tcr_trace_id(spec_tcr_enabled(loaded)) == ITM_TRACE_ID,
        spec_tcr_enabled(loaded) & 0x80Fu32 == 0x80Fu32,
        spec_tcr_enabled(loaded) & !0x7F_080Fu32 == loaded & !0x7F_080Fu32,
        spec_tcr_enabled(spec_tcr_enabled(loaded)) == spec_tcr_enabled(loaded),
{
    assert((((loaded & !0x7F_0000u32) | 0xD_0000u32 | 0x80Fu32) >> 16) & 0x7Fu32 == 13u32)
        by (bit_vector);
    assert(((loaded & !0x7F_0000u32) | 0xD_0000u32 | 0x80Fu32) & 0x80Fu32 == 0x80Fu32)
        by (bit_vector);
    assert(((loaded & !0x7F_0000u32) | 0xD_0000u32 | 0x80Fu32) & !0x7F_080Fu32 == loaded
        & !0x7F_080Fu32) by (bit_vector);
    assert(((((loaded & !0x7F_0000u32) | 0xD_0000u32 | 0x80Fu32) & !0x7F_0000u32) | 0xD_0000u32
        | 0x80Fu32) == ((loaded & !0x7F_0000u32) | 0xD_0000u32 | 0x80Fu32)) by (bit_vector);
}

/// The driver of an ITM.
#[derive(Clone, Copy, Debug, PartialEq, Eq, Structural)]
pub struct Itm {
    /// The component that is driven.
    pub component: CoresightComponent,
}

impl Itm {
    /// The driver of `component`.
    pub fn new(component: &CoresightComponent) -> (itm: Itm)
        ensures
            itm.component == *component,
    {
        Itm { component: *component }
    }

    /// What `unlock` asks for at `stage`: the key is written to the lock
    /// access register.
    pub open spec fn spec_unlock(&self, stage: u8) -> Next {
        if stage == 0 {
            Next::Issue(
                Transaction::Write {
                    address: self.component.register_address(REGISTER_OFFSET_ACCESS as int),
                    value: UNLOCK_KEY,
                },
            )
        } else {
            Next::Complete
        }
    }

    /// Opens the registers of the ITM to writes.
    pub fn unlock(&self, stage: u8) -> (next: Next)
        ensures
            next == self.spec_unlock(stage),
    {
        if stage == 0 {
            Next::Issue(self.component.write_reg(REGISTER_OFFSET_ACCESS, UNLOCK_KEY))
        } else {
            Next::Complete
        }
    }

    /// What `tx_enable` asks for at `stage`: the trace control register is
    /// read and written back switched on, with `ITM_TRACE_ID` as the trace
    /// source identifier; then every stimulus port is enabled.
    pub open spec fn spec_tx_enable(&self, stage: u8, loaded: u32) -> Next {
        if stage == 0 {
            Next::Issue(
                Transaction::Read {
                    address: self.component.register_address(REGISTER_OFFSET_ITM_TCR as int),
                },
            )
        } else if stage == 1 {
            Next::Issue(
                Transaction::Write {
                    address: self.component.register_address(REGISTER_OFFSET_ITM_TCR as int),
                    value: tcr_enabled(loaded),
                },
            )
        } else if stage == 2 {
            Next::Issue(
                Transaction::Write {
                    address: self.component.register_address(REGISTER_OFFSET_ITM_TER as int),
                    value: 0xFFFF_FFFF,
                },
            )
        } else {
            Next::Complete
        }
    }

    /// Switches the ITM on as the trace source `ITM_TRACE_ID`.
    pub fn tx_enable(&self, stage: u8, loaded: u32) -> (next: Next)
        ensures
            next == self.spec_tx_enable(stage, loaded),
    {
        if stage == 0 {
            Next::Issue(self.component.read_reg(REGISTER_OFFSET_ITM_TCR))
        } else if stage == 1 {
            Next::Issue(self.component.write_reg(REGISTER_OFFSET_ITM_TCR, tcr_enabled(loaded)))
        } else if stage == 2 {
            Next::Issue(self.component.write_reg(REGISTER_OFFSET_ITM_TER, 0xFFFF_FFFF))
        } else {
            Next::Complete
        }
    }
}

} // verus!
