//! The debug registers of the core itself.

use crate::architecture::arm::transaction::{Next, Transaction};
use vstd::prelude::*;

verus! {

/// The Debug Exception and Monitor Control Register of the core.
#[derive(Clone, Copy, Debug, PartialEq, Eq, Structural)]
pub struct Demcr(pub u32);

impl Demcr {
    /// The address of the register in the memory of the core.
    pub const ADDRESS: u64 = 0xE000_EDFC;

    /// The register with the trace-enable bit set or cleared. While the bit
    /// is clear none of the trace components produces output.
    pub open spec fn with_dwtena(self, enabled: bool) -> Demcr {
        Demcr(
            if enabled {
                self.0 | 0x100_0000u32
            } else {
                self.0 & !0x100_0000u32
            },
        )
    }

    /// Sets or clears the trace-enable bit.
    pub fn set_dwtena(&mut self, enabled: bool)
        ensures
            *final(self) == old(self).with_dwtena(enabled),
    {
        if enabled {
            self.0 = self.0 | 0x100_0000u32;
        } else {
            self.0 = self.0 & !0x100_0000u32;
        }
    }

    /// Whether the trace-enable bit is set.
    pub open spec fn spec_dwtena(&self) -> bool {
        self.0 & 0x100_0000u32 != 0
    }

    /// Whether the trace-enable bit is set.
    #[verifier::when_used_as_spec(spec_dwtena)]
    pub fn dwtena(&self) -> (enabled: bool)
        ensures
            enabled == self.spec_dwtena(),
    {
        self.0 & 0x100_0000u32 != 0
    }

    /// What `set_trace` asks for at `stage`: the register is read, then
    /// written back with the trace-enable bit as `enabled` says.
    pub open spec fn spec_set_trace(enabled: bool, stage: u8, loaded: u32) -> Next {
        if stage == 0 {
            Next::Issue(Transaction::Read { address: 0xE000_EDFC })
        } else if stage == 1 {
            Next::Issue(
                Transaction::Write {
                    address: 0xE000_EDFC,
                    value: Demcr(loaded).with_dwtena(enabled).0,
                },
            )
        } else {
            Next::Complete
        }
    }

    /// Switches the generation of trace on or off, touching no other bit of
    /// the register.
    pub fn set_trace(enabled: bool, stage: u8, loaded: u32) -> (next: Next)
        ensures
            next == Self::spec_set_trace(enabled, stage, loaded),
    {
        if stage == 0 {
            Next::Issue(Transaction::Read { address: Self::ADDRESS })
        } else if stage == 1 {
            let mut demcr = Demcr(loaded);
            demcr.set_dwtena(enabled);
            Next::Issue(Transaction::Write { address: Self::ADDRESS, value: demcr.0 })
        } else {
            Next::Complete
        }
    }
}

/// Switching trace off twice in a row leaves the trace-enable bit clear both
/// times: whatever word the register held, the word written is one with the
/// bit clear, and when the register then reads as that word, the second time
/// writes the same word again.
pub proof fn lemma_disable_twice(loaded: u32)
    ensures
        ({
            let written = Demcr(loaded).with_dwtena(false);
            &&& Demcr::spec_set_trace(false, 1, loaded) == Next::Issue(
                Transaction::Write { address: 0xE000_EDFC, value: written.0 },
            )
            &&& !written.dwtena()
            &&& Demcr::spec_set_trace(false, 1, written.0) == Next::Issue(
                Transaction::Write { address: 0xE000_EDFC, value: written.0 },
            )
        }),
{
    lemma_dwtena(loaded, false);
}

/// Setting or clearing the trace-enable bit leaves it as asked and every
/// other bit as it was; doing so again changes nothing.
pub proof fn lemma_dwtena(word: u32, enabled: bool)
    ensures
        Demcr(word).with_dwtena(enabled).dwtena() == enabled,
        Demcr(word).with_dwtena(enabled).0 & !0x100_0000u32 == word & !0x100_0000u32,
        Demcr(word).with_dwtena(enabled).with_dwtena(enabled) == Demcr(word).with_dwtena(enabled),
        Demcr(word).dwtena() == enabled ==> Demcr(word).with_dwtena(enabled) == Demcr(word),
{
    assert((word | 0x100_0000u32) & 0x100_0000u32 != 0) by (bit_vector);
    assert((word & !0x100_0000u32) & 0x100_0000u32 == 0) by (bit_vector);
    assert((word | 0x100_0000u32) & !0x100_0000u32 == word & !0x100_0000u32) by (bit_vector);
    assert((word & !0x100_0000u32) & !0x100_0000u32 == word & !0x100_0000u32) by (bit_vector);
    assert((word | 0x100_0000u32) | 0x100_0000u32 == word | 0x100_0000u32) by (bit_vector);
    assert(word & 0x100_0000u32 != 0 ==> word | 0x100_0000u32 == word) by (bit_vector);
    assert(word & 0x100_0000u32 == 0 ==> word & !0x100_0000u32 == word) by (bit_vector);
}

} // verus!
