//! The discrete positions of the driver's controls and the commands that the
//! wiring hands on, each with the same variants, in the same order, as the
//! backbone framework's enums that they stand for.

use vstd::prelude::*;

verus! {

/// A value read from a backbone cell together with the cell's change flag:
/// whether the cell was written since its flag was last cleared.
#[derive(Clone, Copy, PartialEq, Eq, Debug)]
pub struct Reading<T> {
    pub value: T,
    pub changed: bool,
}

/// A signal handed on when it changed: its value if its change flag is
/// raised, else nothing (the receiving cell keeps its value).
pub open spec fn spec_forward(source: Reading<bool>) -> Option<bool> {
    if source.changed {
        Some(source.value)
    } else {
        None
    }
}

/// Hands `source` on when it changed, as [`spec_forward`] says.
pub fn forward(source: Reading<bool>) -> (r: Option<bool>)
    ensures
        r == spec_forward(source),
{
    if source.changed {
        Some(source.value)
    } else {
        None
    }
}

/// Notch of the ignition lock.
#[derive(Clone, Copy, PartialEq, Eq, Structural, Debug)]
pub enum IgnitionSwitchStep {
    Off,
    Step1,
    Step2,
    Starter,
}

impl IgnitionSwitchStep {
    /// Position of the notch in the lock, counted from `Off`; the notches are
    /// ordered by it.
    pub open spec fn rank(self) -> int {
        match self {
            IgnitionSwitchStep::Off => 0,
            IgnitionSwitchStep::Step1 => 1,
            IgnitionSwitchStep::Step2 => 2,
            IgnitionSwitchStep::Starter => 3,
        }
    }

    /// Position of the notch as a number, as in [`Self::rank`].
    pub fn position(self) -> (r: u8)
        ensures
            r == self.rank(),
    {
        match self {
            IgnitionSwitchStep::Off => 0,
            IgnitionSwitchStep::Step1 => 1,
            IgnitionSwitchStep::Step2 => 2,
            IgnitionSwitchStep::Starter => 3,
        }
    }

    /// Whether the key stands in `other` or further.
    pub fn at_least(self, other: IgnitionSwitchStep) -> (r: bool)
        ensures
            r == (self.rank() >= other.rank()),
    {
        self.position() >= other.position()
    }
}

/// Starter or shutdown command for the engine.
#[derive(Clone, Copy, PartialEq, Eq, Structural, Debug)]
pub enum EngineStartStop {
    Stop,
    /// Neither starting nor stopping.
    NoCommand,
    Start,
}

/// The engine command that an ignition notch stands for.
pub open spec fn spec_engine_command(step: IgnitionSwitchStep) -> EngineStartStop {
    match step {
        IgnitionSwitchStep::Off => EngineStartStop::Stop,
        IgnitionSwitchStep::Step1 => EngineStartStop::Stop,
        IgnitionSwitchStep::Step2 => EngineStartStop::NoCommand,
        IgnitionSwitchStep::Starter => EngineStartStop::Start,
    }
}

/// The engine command of an ignition notch: the lock stops the engine in
/// `Off` and `Step1`, leaves it alone in `Step2` and cranks it in `Starter`.
pub fn engine_command(step: IgnitionSwitchStep) -> (r: EngineStartStop)
    ensures
        r == spec_engine_command(step),
{
    match step {
        IgnitionSwitchStep::Off | IgnitionSwitchStep::Step1 => EngineStartStop::Stop,
        IgnitionSwitchStep::Step2 => EngineStartStop::NoCommand,
        IgnitionSwitchStep::Starter => EngineStartStop::Start,
    }
}

/// Position of the indicator stalk.
#[derive(Clone, Copy, PartialEq, Eq, Structural, Debug)]
pub enum IndicatorSwitchState {
    Left,
    Off,
    Right,
}

/// What the indicator lights are asked to do.
#[derive(Clone, Copy, PartialEq, Eq, Structural, Debug)]
pub enum IndicatorState {
    Off,
    Left,
    Right,
    Warning,
}

/// The indicator request that a stalk position stands for.
pub open spec fn spec_indicator_request(stalk: IndicatorSwitchState) -> IndicatorState {
    match stalk {
        IndicatorSwitchState::Left => IndicatorState::Left,
        IndicatorSwitchState::Off => IndicatorState::Off,
        IndicatorSwitchState::Right => IndicatorState::Right,
    }
}

/// The indicator request of a stalk position: left blinks left, right blinks
/// right, the middle position blinks nothing.
pub fn indicator_request(stalk: IndicatorSwitchState) -> (r: IndicatorState)
    ensures
        r == spec_indicator_request(stalk),
{
    match stalk {
        IndicatorSwitchState::Left => IndicatorState::Left,
        IndicatorSwitchState::Off => IndicatorState::Off,
        IndicatorSwitchState::Right => IndicatorState::Right,
    }
}

/// Door symbol on the dashboard display.
#[derive(Clone, Copy, PartialEq, Eq, Structural, Debug)]
pub enum VdvDisplayDoorState {
    Closed,
    Blocked,
    Released,
    Open,
}

/// Position of the switch that locks one leaf of the front door.
#[derive(Clone, Copy, PartialEq, Eq, Structural, Debug)]
pub enum DoorLeafLockState {
    Left,
    Off,
    Right,
}

/// Position of a three-way switch.
#[derive(Clone, Copy, PartialEq, Eq, Structural, Debug)]
pub enum TwoStepState {
    Off,
    StepA,
    StepB,
}

/// Command for one door unit.
#[derive(Clone, Copy, PartialEq, Eq, Structural, Debug)]
pub enum DoorTargetCommand {
    Close,
    OpenNoTimer,
    Open,
    Hold,
}

/// What a door command does while the door is not released.
#[derive(Clone, Copy, PartialEq, Eq, Structural, Debug)]
pub enum DoorReleaseBehaviour {
    Require,
    PendingRequest,
    Always,
}

/// Drive mode of the automatic gearbox.
#[derive(Clone, Copy, PartialEq, Eq, Structural, Debug)]
pub enum AutomaticGearboxMode {
    Reverse,
    Neutral,
    First,
    FirstSecond,
    FirstSecondThird,
    Drive,
}

} // verus!
