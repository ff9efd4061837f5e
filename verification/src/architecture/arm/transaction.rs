//! The unit of work handed to whoever holds the probe.

use vstd::prelude::*;

verus! {

/// One access to a 32-bit word in the target's address space.
#[derive(Clone, Copy, Debug, PartialEq, Eq, Structural)]
pub enum Transaction {
    /// Read the word at `address`.
    Read { address: u64 },
    /// Write `value` to the word at `address`.
    Write { address: u64, value: u32 },
}

impl Transaction {
    /// The address the transaction goes to.
    pub open spec fn spec_address(&self) -> u64 {
        match *self {
            Transaction::Read { address } => address,
            Transaction::Write { address, .. } => address,
        }
    }

    /// The address the transaction goes to.
    #[verifier::when_used_as_spec(spec_address)]
    pub fn address(&self) -> (address: u64)
        ensures
            address == self.spec_address(),
    {
        match *self {
            Transaction::Read { address } => address,
            Transaction::Write { address, .. } => address,
        }
    }

    /// Whether the transaction changes the target.
    pub open spec fn spec_is_write(&self) -> bool {
        *self is Write
    }

    /// Whether the transaction changes the target.
    #[verifier::when_used_as_spec(spec_is_write)]
    pub fn is_write(&self) -> (write: bool)
        ensures
            write == self.spec_is_write(),
    {
        match *self {
            Transaction::Read { .. } => false,
            Transaction::Write { .. } => true,
        }
    }
}

/// What a driver routine asks for when it is resumed at one of its stages.
///
/// A routine is resumed with the number of the stage it has reached and the
/// word that its previous transaction read, if that was a read.
#[derive(Clone, Copy, Debug, PartialEq, Eq, Structural)]
pub enum Next {
    /// Perform the transaction, then resume at the following stage.
    Issue(Transaction),
    /// Perform the transaction, then resume at this same stage.
    Repeat(Transaction),
    /// The routine is done; no transaction is left.
    Complete,
}

} // verus!
