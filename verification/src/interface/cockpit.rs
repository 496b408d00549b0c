//! Cockpit domain: the door lamps and door symbols on the dashboard.

use vstd::prelude::*;
use crate::controls::{forward, spec_forward, Reading, VdvDisplayDoorState};

verus! {

/// The door symbol for a door leaf: a locked leaf shows as blocked whatever
/// else holds, an open leaf as open, a closed leaf as released while the
/// doors are released and as closed otherwise.
pub open spec fn spec_vdv_display_door_state(closed: bool, blocked: bool, released: bool) -> VdvDisplayDoorState {
    if blocked {
        VdvDisplayDoorState::Blocked
    } else if !closed {
        VdvDisplayDoorState::Open
    } else if released {
        VdvDisplayDoorState::Released
    } else {
        VdvDisplayDoorState::Closed
    }
}

/// The door symbol for a leaf that is `closed` or not, locked (`blocked`) or
/// not, while the doors are `released` or not.
pub fn vdv_display_door_state(closed: bool, blocked: bool, released: bool) -> (r: VdvDisplayDoorState)
    ensures
        r == spec_vdv_display_door_state(closed, blocked, released),
{
    if blocked {
        VdvDisplayDoorState::Blocked
    } else if !closed {
        VdvDisplayDoorState::Open
    } else if released {
        VdvDisplayDoorState::Released
    } else {
        VdvDisplayDoorState::Closed
    }
}

/// What the cockpit reads: the closed flag of each door leaf (the front door
/// has two, the middle and rear doors one each), the leaf locks of the front
/// door, the state of the door release, the indicator blink relay, the stop
/// signs of the middle and rear doors, and the stop brake.
#[derive(Clone, Copy, PartialEq, Eq, Debug)]
pub struct CockpitDoorInputs {
    pub closed_1_1: Reading<bool>,
    pub closed_1_2: Reading<bool>,
    pub closed_2: Reading<bool>,
    pub closed_3: Reading<bool>,
    pub locked_1_1: bool,
    pub locked_1_2: bool,
    pub release_requested: bool,
    pub release_activatable: bool,
    pub blink_relay: Reading<bool>,
    pub stop_sign_middle: Reading<bool>,
    pub stop_sign_rear: Reading<bool>,
    pub stop_brake: Reading<bool>,
}

/// What the cockpit shows. A lamp is `None` where none of its sources
/// changed: it keeps what it shows.
#[derive(Clone, Copy, PartialEq, Eq, Debug)]
pub struct CockpitDoorIndications {
    pub front_door_lamp: Option<bool>,
    pub rear_doors_lamp: Option<bool>,
    pub display_door_1_1: VdvDisplayDoorState,
    pub display_door_1_2: VdvDisplayDoorState,
    pub display_door_2: VdvDisplayDoorState,
    pub display_door_3: VdvDisplayDoorState,
    pub indicator_lamp: Option<bool>,
    pub stop_request_middle: Option<bool>,
    pub stop_request_rear: Option<bool>,
    pub stop_brake_lamp: Option<bool>,
}

/// Lamp for two leaves: lit while one of them is open, given anew when one
/// of them changed.
pub open spec fn spec_pair_open_lamp(a: Reading<bool>, b: Reading<bool>) -> Option<bool> {
    if a.changed || b.changed {
        Some(!(a.value && b.value))
    } else {
        None
    }
}

/// The doors count as released while the release is requested and can be
/// granted.
pub open spec fn spec_doors_released(i: CockpitDoorInputs) -> bool {
    i.release_requested && i.release_activatable
}

/// The cockpit's door indications for what it reads of the doors.
pub open spec fn spec_cockpit_doors(i: CockpitDoorInputs) -> CockpitDoorIndications {
    let released = spec_doors_released(i);
    CockpitDoorIndications {
        front_door_lamp: spec_pair_open_lamp(i.closed_1_1, i.closed_1_2),
        rear_doors_lamp: spec_pair_open_lamp(i.closed_2, i.closed_3),
        display_door_1_1: spec_vdv_display_door_state(i.closed_1_1.value, i.locked_1_1, released),
        display_door_1_2: spec_vdv_display_door_state(i.closed_1_2.value, i.locked_1_2, released),
        display_door_2: spec_vdv_display_door_state(i.closed_2.value, false, released),
        display_door_3: spec_vdv_display_door_state(i.closed_3.value, false, released),
        indicator_lamp: spec_forward(i.blink_relay),
        stop_request_middle: spec_forward(i.stop_sign_middle),
        stop_request_rear: spec_forward(i.stop_sign_rear),
        stop_brake_lamp: spec_forward(i.stop_brake),
    }
}

fn pair_open_lamp(a: Reading<bool>, b: Reading<bool>) -> (r: Option<bool>)
    ensures
        r == spec_pair_open_lamp(a, b),
{
    if a.changed || b.changed {
        Some(!(a.value && b.value))
    } else {
        None
    }
}

/// Wiring of the cockpit domain.
#[derive(Clone, Copy, PartialEq, Eq, Structural, Debug, Default)]
pub struct Nd313CockpitInterface;

impl Nd313CockpitInterface {
    /// The door lamps, door symbols, indicator lamp, stop request lamps and
    /// stop brake lamp for what the cockpit reads.
    pub fn wire(&self, inputs: &CockpitDoorInputs) -> (r: CockpitDoorIndications)
        ensures
            r == spec_cockpit_doors(*inputs),
    {
        let released = inputs.release_requested && inputs.release_activatable;
        CockpitDoorIndications {
            front_door_lamp: pair_open_lamp(inputs.closed_1_1, inputs.closed_1_2),
            rear_doors_lamp: pair_open_lamp(inputs.closed_2, inputs.closed_3),
            display_door_1_1: vdv_display_door_state(inputs.closed_1_1.value, inputs.locked_1_1, released),
            display_door_1_2: vdv_display_door_state(inputs.closed_1_2.value, inputs.locked_1_2, released),
            display_door_2: vdv_display_door_state(inputs.closed_2.value, false, released),
            display_door_3: vdv_display_door_state(inputs.closed_3.value, false, released),
            indicator_lamp: forward(inputs.blink_relay),
            stop_request_middle: forward(inputs.stop_sign_middle),
            stop_request_rear: forward(inputs.stop_sign_rear),
            stop_brake_lamp: forward(inputs.stop_brake),
        }
    }
}

/// A door symbol shows `Released` only for a closed, unlocked leaf while the
/// doors are released, and `Open` exactly for an open, unlocked leaf.
pub proof fn lemma_released_symbol_means_closed(closed: bool, blocked: bool, released: bool)
    ensures
        spec_vdv_display_door_state(closed, blocked, released) == VdvDisplayDoorState::Released
            <==> (closed && !blocked && released),
        spec_vdv_display_door_state(closed, blocked, released) == VdvDisplayDoorState::Open
            <==> (!closed && !blocked),
        spec_vdv_display_door_state(closed, blocked, released) == VdvDisplayDoorState::Blocked
            <==> blocked,
{
}

/// The middle and rear doors, which have no leaf lock, never show as
/// blocked; and when the doors are not released no door shows as released.
pub proof fn lemma_cockpit_door_symbols(i: CockpitDoorInputs)
    ensures
        spec_cockpit_doors(i).display_door_2 != VdvDisplayDoorState::Blocked,
        spec_cockpit_doors(i).display_door_3 != VdvDisplayDoorState::Blocked,
        !spec_doors_released(i) ==> {
            &&& spec_cockpit_doors(i).display_door_1_1 != VdvDisplayDoorState::Released
            &&& spec_cockpit_doors(i).display_door_1_2 != VdvDisplayDoorState::Released
            &&& spec_cockpit_doors(i).display_door_2 != VdvDisplayDoorState::Released
            &&& spec_cockpit_doors(i).display_door_3 != VdvDisplayDoorState::Released
        },
{
}

/// Each door symbol in terms of what the cockpit reads: a locked leaf of the
/// front door shows Blocked; an unlocked leaf that is open shows Open; a
/// closed, unlocked leaf shows Released exactly while the driver requests
/// the release and it can be granted, and Closed otherwise. The middle and
/// rear doors are never Blocked.
pub proof fn lemma_door_symbols_follow_doors(i: CockpitDoorInputs)
    ensures
        (spec_cockpit_doors(i).display_door_1_1 == VdvDisplayDoorState::Blocked) <==> i.locked_1_1,
        (spec_cockpit_doors(i).display_door_1_1 == VdvDisplayDoorState::Open) <==> (!i.locked_1_1
            && !i.closed_1_1.value),
        (spec_cockpit_doors(i).display_door_1_1 == VdvDisplayDoorState::Released) <==> (!i.locked_1_1
            && i.closed_1_1.value && i.release_requested && i.release_activatable),
        (spec_cockpit_doors(i).display_door_1_1 == VdvDisplayDoorState::Closed) <==> (!i.locked_1_1
            && i.closed_1_1.value && !(i.release_requested && i.release_activatable)),
        (spec_cockpit_doors(i).display_door_1_2 == VdvDisplayDoorState::Blocked) <==> i.locked_1_2,
        (spec_cockpit_doors(i).display_door_1_2 == VdvDisplayDoorState::Open) <==> (!i.locked_1_2
            && !i.closed_1_2.value),
        (spec_cockpit_doors(i).display_door_1_2 == VdvDisplayDoorState::Released) <==> (!i.locked_1_2
            && i.closed_1_2.value && i.release_requested && i.release_activatable),
        (spec_cockpit_doors(i).display_door_1_2 == VdvDisplayDoorState::Closed) <==> (!i.locked_1_2
            && i.closed_1_2.value && !(i.release_requested && i.release_activatable)),
        spec_cockpit_doors(i).display_door_2 != VdvDisplayDoorState::Blocked,
        (spec_cockpit_doors(i).display_door_2 == VdvDisplayDoorState::Open) <==> !i.closed_2.value,
        (spec_cockpit_doors(i).display_door_2 == VdvDisplayDoorState::Released) <==> (i.closed_2.value
            && i.release_requested && i.release_activatable),
        (spec_cockpit_doors(i).display_door_2 == VdvDisplayDoorState::Closed) <==> (i.closed_2.value
            && !(i.release_requested && i.release_activatable)),
        spec_cockpit_doors(i).display_door_3 != VdvDisplayDoorState::Blocked,
        (spec_cockpit_doors(i).display_door_3 == VdvDisplayDoorState::Open) <==> !i.closed_3.value,
        (spec_cockpit_doors(i).display_door_3 == VdvDisplayDoorState::Released) <==> (i.closed_3.value
            && i.release_requested && i.release_activatable),
        (spec_cockpit_doors(i).display_door_3 == VdvDisplayDoorState::Closed) <==> (i.closed_3.value
            && !(i.release_requested && i.release_activatable)),
{
}

/// Each lamp in terms of what the cockpit reads: a door lamp is given anew
/// exactly when one of its leaves changed, and is then lit exactly while one
/// of them is open; the indicator, stop request and stop brake lamps take
/// their source's value exactly when the source changed.
pub proof fn lemma_lamps_follow_sources(i: CockpitDoorInputs)
    ensures
        spec_cockpit_doors(i).front_door_lamp is Some <==> (i.closed_1_1.changed || i.closed_1_2.changed),
        spec_cockpit_doors(i).front_door_lamp matches Some(b) ==> (b <==> (!i.closed_1_1.value
            || !i.closed_1_2.value)),
        spec_cockpit_doors(i).rear_doors_lamp is Some <==> (i.closed_2.changed || i.closed_3.changed),
        spec_cockpit_doors(i).rear_doors_lamp matches Some(b) ==> (b <==> (!i.closed_2.value
            || !i.closed_3.value)),
        spec_cockpit_doors(i).indicator_lamp is Some <==> i.blink_relay.changed,
        spec_cockpit_doors(i).indicator_lamp matches Some(b) ==> b == i.blink_relay.value,
        spec_cockpit_doors(i).stop_request_middle is Some <==> i.stop_sign_middle.changed,
        spec_cockpit_doors(i).stop_request_middle matches Some(b) ==> b == i.stop_sign_middle.value,
        spec_cockpit_doors(i).stop_request_rear is Some <==> i.stop_sign_rear.changed,
        spec_cockpit_doors(i).stop_request_rear matches Some(b) ==> b == i.stop_sign_rear.value,
        spec_cockpit_doors(i).stop_brake_lamp is Some <==> i.stop_brake.changed,
        spec_cockpit_doors(i).stop_brake_lamp matches Some(b) ==> b == i.stop_brake.value,
{
}

} // verus!
