//! Doors domain: the door buttons, the leaf lock switch and the door release.

use vstd::prelude::*;
use crate::controls::{
    forward, spec_forward, DoorLeafLockState, DoorReleaseBehaviour, DoorTargetCommand, Reading,
};

verus! {

/// What the doors domain reads: whether the vehicle is slow enough to
/// release the doors, whether bus 2 is powered, the door release button,
/// the three door buttons and the leaf lock switch.
#[derive(Clone, Copy, PartialEq, Eq, Debug)]
pub struct DoorsInputs {
    pub vehicle_stopped: bool,
    pub bus_2_active: Reading<bool>,
    pub release_button: Reading<bool>,
    pub button_door_1: Reading<bool>,
    pub button_door_2: Reading<bool>,
    pub button_door_3: Reading<bool>,
    pub leaf_lock: Reading<DoorLeafLockState>,
}

/// A command for one door unit, with what it does while the door is not
/// released.
#[derive(Clone, Copy, PartialEq, Eq, Structural, Debug)]
pub struct DoorTarget {
    pub door: usize,
    pub command: DoorTargetCommand,
    pub behaviour: DoorReleaseBehaviour,
}

/// Lock state of the two leaves of the front door.
#[derive(Clone, Copy, PartialEq, Eq, Structural, Debug)]
pub struct LeafLocks {
    pub left: bool,
    pub right: bool,
}

/// What the doors domain writes back. `None` leaves a door, a cell or the
/// leaf locks as they are.
#[derive(Clone, Copy, PartialEq, Eq, Structural, Debug)]
pub struct DoorsWiring {
    pub power_available: Option<bool>,
    pub release_activatable: bool,
    pub release_target: Option<bool>,
    pub stop_brake_target: Option<bool>,
    pub toggle_door_1: bool,
    pub door_2: Option<DoorTarget>,
    pub door_3: Option<DoorTarget>,
    pub leaf_locks: Option<LeafLocks>,
}

/// The command of a latching door switch: switched on it opens the door and
/// keeps it open, switched off it opens it with the closing timer running.
pub open spec fn spec_switch_command(on: bool) -> DoorTargetCommand {
    if on {
        DoorTargetCommand::OpenNoTimer
    } else {
        DoorTargetCommand::Open
    }
}

/// The target for door `door` when its switch changed, else none; it waits
/// for the release where the door is not released.
pub open spec fn spec_switch_target(door: usize, switch: Reading<bool>) -> Option<DoorTarget> {
    if switch.changed {
        Some(DoorTarget {
            door,
            command: spec_switch_command(switch.value),
            behaviour: DoorReleaseBehaviour::PendingRequest,
        })
    } else {
        None
    }
}

/// The leaf locks for a switch position: the left leaf is locked in `Left`,
/// the right leaf in `Right`, none in `Off`.
pub open spec fn spec_leaf_locks(state: DoorLeafLockState) -> LeafLocks {
    LeafLocks { left: state == DoorLeafLockState::Left, right: state == DoorLeafLockState::Right }
}

/// What the doors domain writes for what it reads.
pub open spec fn spec_doors_wiring(i: DoorsInputs) -> DoorsWiring {
    DoorsWiring {
        power_available: spec_forward(i.bus_2_active),
        release_activatable: i.vehicle_stopped && i.bus_2_active.value,
        release_target: spec_forward(i.release_button),
        stop_brake_target: spec_forward(i.release_button),
        toggle_door_1: i.button_door_1.changed && i.button_door_1.value,
        door_2: spec_switch_target(1, i.button_door_2),
        door_3: spec_switch_target(2, i.button_door_3),
        leaf_locks: if i.leaf_lock.changed {
            Some(spec_leaf_locks(i.leaf_lock.value))
        } else {
            None
        },
    }
}

fn switch_target(door: usize, switch: Reading<bool>) -> (r: Option<DoorTarget>)
    ensures
        r == spec_switch_target(door, switch),
{
    if switch.changed {
        let command = if switch.value {
            DoorTargetCommand::OpenNoTimer
        } else {
            DoorTargetCommand::Open
        };
        Some(DoorTarget { door, command, behaviour: DoorReleaseBehaviour::PendingRequest })
    } else {
        None
    }
}

/// Wiring of the doors domain.
#[derive(Clone, Copy, PartialEq, Eq, Structural, Debug, Default)]
pub struct Nd313DoorsInterface;

impl Nd313DoorsInterface {
    /// The doors' power flag, the door release, the release and stop brake
    /// targets, the door commands and the leaf locks for what the domain
    /// reads. Bus 2's state and the release button are handed on when they
    /// changed; the release button sets both the release and the stop brake. The front door's spring-loaded button toggles the door
    /// when pressed; the middle and rear doors follow their switches.
    pub fn wire(&self, inputs: &DoorsInputs) -> (r: DoorsWiring)
        ensures
            r == spec_doors_wiring(*inputs),
    {
        let leaf_locks = if inputs.leaf_lock.changed {
            let state = inputs.leaf_lock.value;
            Some(LeafLocks {
                left: state == DoorLeafLockState::Left,
                right: state == DoorLeafLockState::Right,
            })
        } else {
            None
        };
        DoorsWiring {
            power_available: forward(inputs.bus_2_active),
            release_activatable: inputs.vehicle_stopped && inputs.bus_2_active.value,
            release_target: forward(inputs.release_button),
            stop_brake_target: forward(inputs.release_button),
            toggle_door_1: inputs.button_door_1.changed && inputs.button_door_1.value,
            door_2: switch_target(1, inputs.button_door_2),
            door_3: switch_target(2, inputs.button_door_3),
            leaf_locks,
        }
    }
}

/// The leaf lock switch never locks both leaves of the front door.
pub proof fn lemma_leaf_locks_exclusive(i: DoorsInputs)
    ensures
        spec_doors_wiring(i).leaf_locks matches Some(l) ==> !(l.left && l.right),
{
}

/// The doors can only be released while the vehicle stands and bus 2 is
/// powered; releasing the front button does not toggle the front door.
pub proof fn lemma_release_needs_standstill_and_power(i: DoorsInputs)
    ensures
        spec_doors_wiring(i).release_activatable ==> (i.vehicle_stopped && i.bus_2_active.value),
        !i.button_door_1.value ==> !spec_doors_wiring(i).toggle_door_1,
{
}

/// Each door output in terms of the switches alone. The front door is
/// toggled exactly on the frame its button goes down, never while it is
/// held or released. The middle and rear doors get a command exactly when
/// their switch moved: switched on they open and stay open, switched off they
/// open with the closing timer, and while not released the command waits.
/// The leaf locks are set exactly when the lock switch moved, left leaf in
/// `Left`, right leaf in `Right`. Bus 2's state and the release button are
/// handed on exactly when they changed, the button to both the release and
/// the stop brake; the release can be granted exactly at standstill with bus
/// 2 powered.
pub proof fn lemma_doors_follow_switches(i: DoorsInputs)
    ensures
        spec_doors_wiring(i).toggle_door_1 <==> (i.button_door_1.changed && i.button_door_1.value),
        spec_doors_wiring(i).release_activatable <==> (i.vehicle_stopped && i.bus_2_active.value),
        spec_doors_wiring(i).power_available is Some <==> i.bus_2_active.changed,
        spec_doors_wiring(i).power_available matches Some(p) ==> p == i.bus_2_active.value,
        spec_doors_wiring(i).release_target is Some <==> i.release_button.changed,
        spec_doors_wiring(i).release_target matches Some(p) ==> p == i.release_button.value,
        spec_doors_wiring(i).stop_brake_target is Some <==> i.release_button.changed,
        spec_doors_wiring(i).stop_brake_target matches Some(p) ==> p == i.release_button.value,
        spec_doors_wiring(i).door_2 is Some <==> i.button_door_2.changed,
        spec_doors_wiring(i).door_2 matches Some(t) ==> {
            &&& t.door == 1
            &&& t.behaviour == DoorReleaseBehaviour::PendingRequest
            &&& (t.command == DoorTargetCommand::OpenNoTimer <==> i.button_door_2.value)
            &&& (t.command == DoorTargetCommand::Open <==> !i.button_door_2.value)
        },
        spec_doors_wiring(i).door_3 is Some <==> i.button_door_3.changed,
        spec_doors_wiring(i).door_3 matches Some(t) ==> {
            &&& t.door == 2
            &&& t.behaviour == DoorReleaseBehaviour::PendingRequest
            &&& (t.command == DoorTargetCommand::OpenNoTimer <==> i.button_door_3.value)
            &&& (t.command == DoorTargetCommand::Open <==> !i.button_door_3.value)
        },
        spec_doors_wiring(i).leaf_locks is Some <==> i.leaf_lock.changed,
        spec_doors_wiring(i).leaf_locks matches Some(l) ==> {
            &&& (l.left <==> i.leaf_lock.value == DoorLeafLockState::Left)
            &&& (l.right <==> i.leaf_lock.value == DoorLeafLockState::Right)
        },
{
}

/// Holding the front door button down does not toggle the door again: two
/// frames that read the same pressed button, the second without a change,
/// toggle the door at most once.
pub proof fn lemma_held_button_toggles_once(first: DoorsInputs, second: DoorsInputs)
    requires
        second.button_door_1.value == first.button_door_1.value,
        !second.button_door_1.changed,
    ensures
        !spec_doors_wiring(second).toggle_door_1,
{
}

} // verus!
