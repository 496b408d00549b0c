//! Power domain: the ignition lock switches the two buses of the electric
//! network.

use vstd::prelude::*;
use crate::controls::IgnitionSwitchStep;
use crate::indices::Nd313Indices;

verus! {

/// State to give one switch of the electric network.
#[derive(Clone, Copy, PartialEq, Eq, Structural, Debug)]
pub struct SwitchSetting {
    pub unit: usize,
    pub closed: bool,
}

/// The switch settings of the power domain, in the order in which they are
/// applied: battery and low-voltage relay always closed, bus 1 from the first
/// ignition notch on, bus 2 from the second on.
pub open spec fn power_switch_plan(idx: Nd313Indices, ignition: IgnitionSwitchStep) -> Seq<SwitchSetting> {
    seq![
        SwitchSetting { unit: idx.electricity_battery, closed: true },
        SwitchSetting { unit: idx.electricity_min_voltage_relay, closed: true },
        SwitchSetting { unit: idx.electricity_bus_1, closed: ignition.rank() >= 1 },
        SwitchSetting { unit: idx.electricity_bus_2, closed: ignition.rank() >= 2 },
    ]
}

/// Wiring of the power domain.
#[derive(Clone, Copy, PartialEq, Eq, Structural, Debug, Default)]
pub struct Nd313PowerInterface;

impl Nd313PowerInterface {
    /// The switch settings for the current ignition notch.
    pub fn wire(&self, idx: &Nd313Indices, ignition: IgnitionSwitchStep) -> (r: Vec<SwitchSetting>)
        ensures
            r@ == power_switch_plan(*idx, ignition),
    {
        let mut r: Vec<SwitchSetting> = Vec::new();
        r.push(SwitchSetting { unit: idx.electricity_battery, closed: true });
        r.push(SwitchSetting { unit: idx.electricity_min_voltage_relay, closed: true });
        r.push(SwitchSetting {
            unit: idx.electricity_bus_1,
            closed: ignition.at_least(IgnitionSwitchStep::Step1),
        });
        r.push(SwitchSetting {
            unit: idx.electricity_bus_2,
            closed: ignition.at_least(IgnitionSwitchStep::Step2),
        });
        r
    }
}

/// Bus 2 is never switched on without bus 1, and the battery and the
/// low-voltage relay are switched on whatever the ignition notch.
pub proof fn lemma_bus_2_needs_bus_1(idx: Nd313Indices, ignition: IgnitionSwitchStep)
    ensures
        power_switch_plan(idx, ignition)[3].closed ==> power_switch_plan(idx, ignition)[2].closed,
        power_switch_plan(idx, ignition)[0].closed,
        power_switch_plan(idx, ignition)[1].closed,
{
}

/// Turning the key further never switches a bus off.
pub proof fn lemma_buses_monotone_in_ignition(
    idx: Nd313Indices,
    a: IgnitionSwitchStep,
    b: IgnitionSwitchStep,
)
    requires
        a.rank() <= b.rank(),
    ensures
        forall|i: int|
            0 <= i < 4 && #[trigger] power_switch_plan(idx, a)[i].closed ==> power_switch_plan(idx, b)[i].closed,
{
}

/// The switch settings in terms of the key: the battery and the low-voltage
/// relay are closed in every notch, bus 1 in every notch but `Off`, bus 2 in
/// `Step2` and `Starter` only; each setting addresses its own unit.
pub proof fn lemma_switches_follow_key(idx: Nd313Indices, ignition: IgnitionSwitchStep)
    ensures
        power_switch_plan(idx, ignition).len() == 4,
        power_switch_plan(idx, ignition)[0] == (SwitchSetting { unit: idx.electricity_battery, closed: true }),
        power_switch_plan(idx, ignition)[1] == (SwitchSetting { unit: idx.electricity_min_voltage_relay, closed: true }),
        power_switch_plan(idx, ignition)[2].unit == idx.electricity_bus_1,
        power_switch_plan(idx, ignition)[2].closed <==> ignition != IgnitionSwitchStep::Off,
        power_switch_plan(idx, ignition)[3].unit == idx.electricity_bus_2,
        power_switch_plan(idx, ignition)[3].closed <==> (ignition == IgnitionSwitchStep::Step2
            || ignition == IgnitionSwitchStep::Starter),
{
}

} // verus!
