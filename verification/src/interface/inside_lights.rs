//! Inside lights domain: the passenger compartment lamps.

use vstd::prelude::*;
use crate::controls::TwoStepState;
use crate::indices::Nd313Indices;

verus! {

/// Input to give one lamp of the electric network: on or off.
#[derive(Clone, Copy, PartialEq, Eq, Structural, Debug)]
pub struct LampSetting {
    pub lamp: usize,
    pub on: bool,
}

/// The lamp settings, in the order in which they are applied: the lower
/// deck is lit from the first step of the step switch on, the lamp at the
/// front right of the lower deck only in the second step, the upper deck by
/// the secondary switch.
pub open spec fn spec_lamp_plan(idx: Nd313Indices, step: TwoStepState, secondary: bool) -> Seq<LampSetting> {
    seq![
        LampSetting { lamp: idx.lamp_inside_lower_deck, on: step != TwoStepState::Off },
        LampSetting { lamp: idx.lamp_inside_lower_front_right, on: step == TwoStepState::StepB },
        LampSetting { lamp: idx.lamp_inside_upper_deck, on: secondary },
    ]
}

/// Wiring of the inside lights domain.
#[derive(Clone, Copy, PartialEq, Eq, Structural, Debug, Default)]
pub struct Nd313InsideLightsInterface;

impl Nd313InsideLightsInterface {
    /// The lamp settings for the step switch and the secondary switch.
    pub fn wire(&self, idx: &Nd313Indices, step: TwoStepState, secondary: bool) -> (r: Vec<LampSetting>)
        ensures
            r@ == spec_lamp_plan(*idx, step, secondary),
    {
        let mut r: Vec<LampSetting> = Vec::new();
        r.push(LampSetting { lamp: idx.lamp_inside_lower_deck, on: step != TwoStepState::Off });
        r.push(LampSetting { lamp: idx.lamp_inside_lower_front_right, on: step == TwoStepState::StepB });
        r.push(LampSetting { lamp: idx.lamp_inside_upper_deck, on: secondary });
        r
    }
}

/// The front right lamp of the lower deck is never lit without the rest of
/// the lower deck.
pub proof fn lemma_front_right_needs_lower_deck(idx: Nd313Indices, step: TwoStepState, secondary: bool)
    ensures
        spec_lamp_plan(idx, step, secondary)[1].on ==> spec_lamp_plan(idx, step, secondary)[0].on,
{
}

/// The lamp settings in terms of the switches: the lower deck is lit in
/// either step of the step switch, the lamp at its front right only in the
/// second step, the upper deck exactly while the secondary switch is on;
/// each setting addresses its own lamp.
pub proof fn lemma_lamps_follow_switches(idx: Nd313Indices, step: TwoStepState, secondary: bool)
    ensures
        spec_lamp_plan(idx, step, secondary).len() == 3,
        spec_lamp_plan(idx, step, secondary)[0].lamp == idx.lamp_inside_lower_deck,
        spec_lamp_plan(idx, step, secondary)[0].on <==> (step == TwoStepState::StepA || step
            == TwoStepState::StepB),
        spec_lamp_plan(idx, step, secondary)[1].lamp == idx.lamp_inside_lower_front_right,
        spec_lamp_plan(idx, step, secondary)[1].on <==> step == TwoStepState::StepB,
        spec_lamp_plan(idx, step, secondary)[2].lamp == idx.lamp_inside_upper_deck,
        spec_lamp_plan(idx, step, secondary)[2].on == secondary,
{
}

} // verus!
