//! Traction domain: engine start and stop, gearbox mode and retarder.

use vstd::prelude::*;
use crate::controls::{
    engine_command, spec_engine_command, AutomaticGearboxMode, EngineStartStop,
    IgnitionSwitchStep, Reading,
};

verus! {

/// What the traction domain reads: the ignition lock, whether the
/// low-voltage relay (the engine's power source) is active, the gearbox mode
/// switch group, and whether the brake is applied beyond the retarder's
/// threshold.
#[derive(Clone, Copy, PartialEq, Eq, Debug)]
pub struct TractionInputs {
    pub ignition: Reading<IgnitionSwitchStep>,
    pub source_active: Reading<bool>,
    pub gearbox_mode: Reading<AutomaticGearboxMode>,
    pub braking: bool,
}

/// What the traction domain hands on: a command for the starter relay, a
/// gearbox mode to send, and a retarder request to send. `None` sends
/// nothing.
#[derive(Clone, Copy, PartialEq, Eq, Debug)]
pub struct TractionWiring {
    pub starter: Option<EngineStartStop>,
    pub gearbox_mode: Option<AutomaticGearboxMode>,
    pub retarder_request: Option<i8>,
}

/// The retarder stage asked for: 1 while braking, 0 otherwise.
pub open spec fn spec_retarder_stage(braking: bool) -> i8 {
    if braking {
        1
    } else {
        0
    }
}

/// The starter command: given anew when the ignition lock or the power
/// source changed; without power it neither starts nor stops, with power it
/// is the ignition notch's command.
pub open spec fn spec_starter(i: TractionInputs) -> Option<EngineStartStop> {
    if i.ignition.changed || i.source_active.changed {
        Some(
            if !i.source_active.value {
                EngineStartStop::NoCommand
            } else {
                spec_engine_command(i.ignition.value)
            },
        )
    } else {
        None
    }
}

/// What the traction domain hands on, given the retarder stage requested
/// last (`previous`): the gearbox mode when its switch changed, and the
/// retarder stage when it differs from the last one.
pub open spec fn spec_traction_wiring(i: TractionInputs, previous: i8) -> TractionWiring {
    TractionWiring {
        starter: spec_starter(i),
        gearbox_mode: if i.gearbox_mode.changed {
            Some(i.gearbox_mode.value)
        } else {
            None
        },
        retarder_request: if spec_retarder_stage(i.braking) != previous {
            Some(spec_retarder_stage(i.braking))
        } else {
            None
        },
    }
}

/// Wiring of the traction domain.
#[derive(Clone, Copy, PartialEq, Eq, Structural, Debug, Default)]
pub struct Nd313TractionInterface;

impl Nd313TractionInterface {
    /// The commands for what the domain reads. `retarder_request` holds the
    /// stage requested last and is set to the stage requested now.
    pub fn wire(&self, inputs: &TractionInputs, retarder_request: &mut i8) -> (r: TractionWiring)
        ensures
            r == spec_traction_wiring(*inputs, *old(retarder_request)),
            *final(retarder_request) == spec_retarder_stage(inputs.braking),
    {
        let starter = if inputs.ignition.changed || inputs.source_active.changed {
            if !inputs.source_active.value {
                Some(EngineStartStop::NoCommand)
            } else {
                Some(engine_command(inputs.ignition.value))
            }
        } else {
            None
        };
        let gearbox_mode = if inputs.gearbox_mode.changed {
            Some(inputs.gearbox_mode.value)
        } else {
            None
        };
        let stage: i8 = if inputs.braking {
            1
        } else {
            0
        };
        let retarder = if stage != *retarder_request {
            *retarder_request = stage;
            Some(stage)
        } else {
            None
        };
        TractionWiring { starter, gearbox_mode, retarder_request: retarder }
    }
}

/// Without power at the source the starter is never asked to start or to
/// stop the engine, and it is asked to start only with the key in the
/// starter notch.
pub proof fn lemma_starter_needs_power(i: TractionInputs)
    ensures
        !i.source_active.value ==> (spec_starter(i) is None || spec_starter(i) == Some(
            EngineStartStop::NoCommand,
        )),
        spec_starter(i) == Some(EngineStartStop::Start) ==> i.ignition.value
            == IgnitionSwitchStep::Starter,
{
}

/// The retarder request is sent once per change: after a frame, a second
/// frame with the same brake state sends nothing; and what is sent is the
/// stage that is stored.
pub proof fn lemma_retarder_sent_once(i: TractionInputs, j: TractionInputs, previous: i8)
    requires
        i.braking == j.braking,
    ensures
        spec_traction_wiring(j, spec_retarder_stage(i.braking)).retarder_request is None,
        spec_traction_wiring(i, previous).retarder_request matches Some(s) ==> s == spec_retarder_stage(
            i.braking,
        ),
{
}

/// The starter command in terms of the ignition notch and the power source:
/// it is given exactly when either changed; without power it is "no
/// command"; with power the key in `Off` or `Step1` stops the engine, in
/// `Step2` leaves the running engine alone, and in `Starter` cranks it.
pub proof fn lemma_starter_follows_key(i: TractionInputs)
    ensures
        spec_starter(i) is Some <==> (i.ignition.changed || i.source_active.changed),
        spec_starter(i) matches Some(c) ==> {
            &&& !i.source_active.value ==> c == EngineStartStop::NoCommand
            &&& (i.source_active.value && (i.ignition.value == IgnitionSwitchStep::Off
                || i.ignition.value == IgnitionSwitchStep::Step1)) ==> c == EngineStartStop::Stop
            &&& (i.source_active.value && i.ignition.value == IgnitionSwitchStep::Step2) ==> c
                == EngineStartStop::NoCommand
            &&& (i.source_active.value && i.ignition.value == IgnitionSwitchStep::Starter) ==> c
                == EngineStartStop::Start
        },
{
}

/// The gearbox mode and the retarder request in terms of the inputs: the
/// mode is sent exactly when its switch moved, and is the switch's mode; the
/// retarder stage is 1 while braking and 0 otherwise, and is sent exactly
/// when it differs from the stage sent last.
pub proof fn lemma_gearbox_and_retarder(i: TractionInputs, previous: i8)
    ensures
        spec_traction_wiring(i, previous).gearbox_mode is Some <==> i.gearbox_mode.changed,
        spec_traction_wiring(i, previous).gearbox_mode matches Some(m) ==> m == i.gearbox_mode.value,
        i.braking ==> spec_retarder_stage(i.braking) == 1,
        !i.braking ==> spec_retarder_stage(i.braking) == 0,
        spec_traction_wiring(i, previous).retarder_request is Some <==> (if i.braking {
            previous != 1
        } else {
            previous != 0
        }),
        spec_traction_wiring(i, previous).retarder_request matches Some(s) ==> (s == 1 <==> i.braking)
            && (s == 0 <==> !i.braking),
{
}

} // verus!
