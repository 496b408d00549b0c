//! Pneumatics domain: stop brake and parking brake lever.

use vstd::prelude::*;
use crate::controls::Reading;

verus! {

/// What the pneumatics domain writes back of its switch states: the stop
/// brake's target, and the parking brake lever's position when the lever
/// moved (`None` leaves it where it was).
#[derive(Clone, Copy, PartialEq, Eq, Structural, Debug)]
pub struct PneumaticsWiring {
    pub target_stop_brake: bool,
    pub parking_brake_applied: Option<bool>,
}

/// What the pneumatics domain writes for the stop brake state of the doors
/// and the parking brake lever.
pub open spec fn spec_pneumatics_wiring(stop_brake: bool, parking_brake: Reading<bool>) -> PneumaticsWiring {
    PneumaticsWiring {
        target_stop_brake: stop_brake,
        parking_brake_applied: if parking_brake.changed {
            Some(parking_brake.value)
        } else {
            None
        },
    }
}

/// Wiring of the pneumatics domain.
#[derive(Clone, Copy, PartialEq, Eq, Structural, Debug, Default)]
pub struct Nd313PneumaticsInterface;

impl Nd313PneumaticsInterface {
    /// The stop brake follows the doors' stop brake; the parking brake valve
    /// follows the lever whenever the lever moved.
    pub fn wire(&self, stop_brake: bool, parking_brake: Reading<bool>) -> (r: PneumaticsWiring)
        ensures
            r == spec_pneumatics_wiring(stop_brake, parking_brake),
    {
        PneumaticsWiring {
            target_stop_brake: stop_brake,
            parking_brake_applied: if parking_brake.changed {
                Some(parking_brake.value)
            } else {
                None
            },
        }
    }
}

/// The pneumatics outputs in terms of the inputs: the stop brake target is
/// the doors' stop brake; the parking brake valve is set exactly when the
/// lever moved, and then to the lever's position.
pub proof fn lemma_pneumatics_follow_inputs(stop_brake: bool, parking_brake: Reading<bool>)
    ensures
        spec_pneumatics_wiring(stop_brake, parking_brake).target_stop_brake == stop_brake,
        spec_pneumatics_wiring(stop_brake, parking_brake).parking_brake_applied is Some <==> parking_brake.changed,
        spec_pneumatics_wiring(stop_brake, parking_brake).parking_brake_applied matches Some(p) ==> p
            == parking_brake.value,
{
}

} // verus!
