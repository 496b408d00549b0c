//! Steering domain.

use vstd::prelude::*;

verus! {

/// Wiring of the steering domain: it hands the steering the absolute speed
/// of the driven axle, a floating-point value that its caller computes.
#[derive(Clone, Copy, PartialEq, Eq, Structural, Debug, Default)]
pub struct Nd313SteeringInterface;

} // verus!
