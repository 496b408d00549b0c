//! Units of the actor-based variant of the script.

use vstd::prelude::*;

verus! {

/// The power supply unit. It carries no behaviour in this library: it keeps
/// the unit's public name.
#[derive(Clone, Copy, PartialEq, Eq, Structural, Debug, Default)]
pub struct Powersupply;

/// The dashboard unit. It carries no behaviour in this library: it keeps the
/// unit's public name.
#[derive(Clone, Copy, PartialEq, Eq, Structural, Debug, Default)]
pub struct VdvDashboard;

} // verus!
