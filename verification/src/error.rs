//! The failures this crate itself can report.

use crate::architecture::arm::component::ComponentError;
use crate::architecture::arm::romtable::PeripheralType;
use vstd::prelude::*;

verus! {

/// Why an operation could not be carried out.
///
/// A failed bus transaction is not among them: it never reaches this crate,
/// the holder of the probe stops performing the operation and reports it.
#[derive(Clone, Copy, Debug, PartialEq, Eq, Structural)]
pub enum ArmError {
    /// The target has no component of the requested kind.
    ComponentNotFound(PeripheralType),
    /// A component rejected the requested configuration.
    Component(ComponentError),
}

} // verus!
