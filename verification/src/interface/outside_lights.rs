//! Outside lights domain: indicators and the outside bulbs.

use vstd::prelude::*;
use crate::controls::{indicator_request, spec_indicator_request, IndicatorState, IndicatorSwitchState};
use crate::indices::Nd313Indices;

verus! {

/// Full brightness of a bulb, in thousandths.
pub const FULL_BRIGHTNESS: u16 = 1000;

/// What the outside lights domain reads: whether bus 1 has voltage left,
/// whether bus 2 is powered, the hazard light switch, the indicator stalk,
/// the light switch's parking and dipped positions, and whether the brake is
/// applied beyond the brake light's threshold.
#[derive(Clone, Copy, PartialEq, Eq, Structural, Debug)]
pub struct OutsideLightsInputs {
    pub bus_1_voltage_available: bool,
    pub bus_2_active: bool,
    pub hazard_switch: bool,
    pub indicator_stalk: IndicatorSwitchState,
    pub parking: bool,
    pub dim: bool,
    pub braking: bool,
}

/// Brightness for one bulb, in thousandths of full brightness; where
/// `voltage_scaled` holds it is further scaled by bus 1's voltage relative to
/// the nominal one.
#[derive(Clone, Copy, PartialEq, Eq, Structural, Debug)]
pub struct BulbSetting {
    pub bulb: usize,
    pub level: u16,
    pub voltage_scaled: bool,
}

/// What the outside lights domain writes back.
#[derive(Clone, PartialEq, Eq, Debug)]
pub struct OutsideLightsWiring {
    pub indicator: IndicatorState,
    pub bulbs: Vec<BulbSetting>,
}

/// Level of a bulb that is either off or at full brightness.
pub open spec fn on_off_level(on: bool) -> u16 {
    if on {
        FULL_BRIGHTNESS
    } else {
        0
    }
}

/// Indicator request: hazard lights while bus 1 has voltage and the hazard
/// switch is on; otherwise off without bus 2; otherwise what the stalk asks.
pub open spec fn spec_indicator(i: OutsideLightsInputs) -> IndicatorState {
    if i.bus_1_voltage_available && i.hazard_switch {
        IndicatorState::Warning
    } else if !i.bus_2_active {
        IndicatorState::Off
    } else {
        spec_indicator_request(i.indicator_stalk)
    }
}

/// The bulb settings, in the order in which they are applied: the parking
/// and rear lamp and its LED, the dipped beam, the dashboard scale light (at
/// two fifths with the parking lights alone), the blue light (half, full
/// with dipped beam), the brake light and its LED, and the combined rear and
/// brake lamp (at seven tenths with the parking lights alone). The LEDs,
/// the blue light and the combined lamp are not scaled by the voltage.
pub open spec fn spec_bulbs(idx: Nd313Indices, i: OutsideLightsInputs) -> Seq<BulbSetting> {
    let park = on_off_level(i.parking);
    let dim = on_off_level(i.dim);
    let brake = on_off_level(i.braking);
    seq![
        BulbSetting { bulb: idx.bulb_park_n_rear, level: park, voltage_scaled: true },
        BulbSetting { bulb: idx.bulb_park_n_rear_led, level: park, voltage_scaled: false },
        BulbSetting { bulb: idx.bulb_dim_light, level: dim, voltage_scaled: true },
        BulbSetting {
            bulb: idx.bulb_dim_light_scale,
            level: if i.dim { 1000u16 } else if i.parking { 400u16 } else { 0u16 },
            voltage_scaled: true,
        },
        BulbSetting {
            bulb: idx.bulb_dim_light_blue,
            level: if i.dim { 1000u16 } else { 500u16 },
            voltage_scaled: false,
        },
        BulbSetting { bulb: idx.bulb_brake, level: brake, voltage_scaled: true },
        BulbSetting { bulb: idx.bulb_brake_led, level: brake, voltage_scaled: false },
        BulbSetting {
            bulb: idx.bulb_rear_n_brake,
            level: if i.braking { 1000u16 } else if i.parking { 700u16 } else { 0u16 },
            voltage_scaled: false,
        },
    ]
}

fn level_of(on: bool) -> (r: u16)
    ensures
        r == on_off_level(on),
{
    if on {
        FULL_BRIGHTNESS
    } else {
        0
    }
}

/// Wiring of the outside lights domain.
#[derive(Clone, Copy, PartialEq, Eq, Structural, Debug, Default)]
pub struct Nd313OutsideLightsInterface;

impl Nd313OutsideLightsInterface {
    /// The indicator request and the bulb settings for what the domain reads.
    pub fn wire(&self, idx: &Nd313Indices, inputs: &OutsideLightsInputs) -> (r: OutsideLightsWiring)
        ensures
            r.indicator == spec_indicator(*inputs),
            r.bulbs@ == spec_bulbs(*idx, *inputs),
    {
        let indicator = if inputs.bus_1_voltage_available && inputs.hazard_switch {
            IndicatorState::Warning
        } else if !inputs.bus_2_active {
            IndicatorState::Off
        } else {
            indicator_request(inputs.indicator_stalk)
        };
        let park = level_of(inputs.parking);
        let dim = level_of(inputs.dim);
        let brake = level_of(inputs.braking);
        let scale: u16 = if inputs.dim {
            1000
        } else if inputs.parking {
            400
        } else {
            0
        };
        let blue: u16 = if inputs.dim {
            1000
        } else {
            500
        };
        let rear: u16 = if inputs.braking {
            1000
        } else if inputs.parking {
            700
        } else {
            0
        };
        let mut bulbs: Vec<BulbSetting> = Vec::new();
        bulbs.push(BulbSetting { bulb: idx.bulb_park_n_rear, level: park, voltage_scaled: true });
        bulbs.push(BulbSetting { bulb: idx.bulb_park_n_rear_led, level: park, voltage_scaled: false });
        bulbs.push(BulbSetting { bulb: idx.bulb_dim_light, level: dim, voltage_scaled: true });
        bulbs.push(BulbSetting { bulb: idx.bulb_dim_light_scale, level: scale, voltage_scaled: true });
        bulbs.push(BulbSetting { bulb: idx.bulb_dim_light_blue, level: blue, voltage_scaled: false });
        bulbs.push(BulbSetting { bulb: idx.bulb_brake, level: brake, voltage_scaled: true });
        bulbs.push(BulbSetting { bulb: idx.bulb_brake_led, level: brake, voltage_scaled: false });
        bulbs.push(BulbSetting { bulb: idx.bulb_rear_n_brake, level: rear, voltage_scaled: false });
        OutsideLightsWiring { indicator, bulbs }
    }
}

/// The hazard lights win over the stalk whenever bus 1 has voltage; without
/// bus 2 and without hazard lights nothing blinks.
pub proof fn lemma_hazard_priority(i: OutsideLightsInputs)
    ensures
        (i.bus_1_voltage_available && i.hazard_switch) ==> spec_indicator(i) == IndicatorState::Warning,
        (!i.bus_2_active && !(i.bus_1_voltage_available && i.hazard_switch)) ==> spec_indicator(i)
            == IndicatorState::Off,
{
}

/// No bulb is ever set above full brightness, the brake lights are lit
/// exactly while braking, and the combined rear and brake lamp is at least
/// as bright as the brake light.
pub proof fn lemma_bulb_levels(idx: Nd313Indices, i: OutsideLightsInputs)
    ensures
        spec_bulbs(idx, i).len() == 8,
        forall|k: int| 0 <= k < 8 ==> #[trigger] spec_bulbs(idx, i)[k].level <= FULL_BRIGHTNESS,
        (spec_bulbs(idx, i)[5].level > 0) <==> i.braking,
        (spec_bulbs(idx, i)[6].level > 0) <==> i.braking,
        spec_bulbs(idx, i)[7].level >= spec_bulbs(idx, i)[5].level,
{
}

/// The indicator request in terms of the switches: hazard lights while bus 1
/// has voltage and the hazard switch is on; otherwise nothing without bus 2;
/// otherwise exactly the side the stalk points to.
pub proof fn lemma_indicator_follows_stalk(i: OutsideLightsInputs)
    ensures
        (i.bus_1_voltage_available && i.hazard_switch) <==> spec_indicator(i) == IndicatorState::Warning,
        !(i.bus_1_voltage_available && i.hazard_switch) && i.bus_2_active ==> {
            &&& (spec_indicator(i) == IndicatorState::Left <==> i.indicator_stalk
                == IndicatorSwitchState::Left)
            &&& (spec_indicator(i) == IndicatorState::Right <==> i.indicator_stalk
                == IndicatorSwitchState::Right)
            &&& (spec_indicator(i) == IndicatorState::Off <==> i.indicator_stalk
                == IndicatorSwitchState::Off)
        },
{
}

/// Each bulb in terms of the light switch and the brake: the parking and
/// rear lamps are at full brightness with the parking lights and dark
/// otherwise, the dipped beam likewise with dipped beam, the scale light at
/// full with dipped beam, two fifths with parking lights alone, else dark;
/// the blue light full with dipped beam, half otherwise; the brake lights
/// full while braking, dark otherwise; the rear and brake lamp full while
/// braking, seven tenths with parking lights alone, else dark. Exactly the
/// parking lamp, dipped beam, scale light and brake light are scaled by the
/// voltage, and each setting addresses its own bulb.
pub proof fn lemma_bulbs_follow_switches(idx: Nd313Indices, i: OutsideLightsInputs)
    ensures
        spec_bulbs(idx, i).len() == 8,
        spec_bulbs(idx, i)[0] == (BulbSetting { bulb: idx.bulb_park_n_rear, level: if i.parking { 1000 } else { 0 }, voltage_scaled: true }),
        spec_bulbs(idx, i)[1] == (BulbSetting { bulb: idx.bulb_park_n_rear_led, level: if i.parking { 1000 } else { 0 }, voltage_scaled: false }),
        spec_bulbs(idx, i)[2] == (BulbSetting { bulb: idx.bulb_dim_light, level: if i.dim { 1000 } else { 0 }, voltage_scaled: true }),
        spec_bulbs(idx, i)[3] == (BulbSetting { bulb: idx.bulb_dim_light_scale, level: if i.dim { 1000 } else if i.parking { 400 } else { 0 }, voltage_scaled: true }),
        spec_bulbs(idx, i)[4] == (BulbSetting { bulb: idx.bulb_dim_light_blue, level: if i.dim { 1000 } else { 500 }, voltage_scaled: false }),
        spec_bulbs(idx, i)[5] == (BulbSetting { bulb: idx.bulb_brake, level: if i.braking { 1000 } else { 0 }, voltage_scaled: true }),
        spec_bulbs(idx, i)[6] == (BulbSetting { bulb: idx.bulb_brake_led, level: if i.braking { 1000 } else { 0 }, voltage_scaled: false }),
        spec_bulbs(idx, i)[7] == (BulbSetting { bulb: idx.bulb_rear_n_brake, level: if i.braking { 1000 } else if i.parking { 700 } else { 0 }, voltage_scaled: false }),
{
}

} // verus!
