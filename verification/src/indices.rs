//! Where the nd313's electric units, lamps and outside bulbs stand in the
//! framework's lists.

use vstd::prelude::*;

verus! {

/// Indices handed out while the electric network and the outside lights are
/// built; the wiring addresses units, lamps and bulbs by them.
#[derive(Clone, Copy, PartialEq, Eq, Structural, Debug)]
pub struct Nd313Indices {
    pub electricity_battery: usize,
    pub electricity_min_voltage_relay: usize,
    pub electricity_bus_1: usize,
    pub electricity_bus_2: usize,
    pub lamp_inside_lower_deck: usize,
    pub lamp_inside_upper_deck: usize,
    pub lamp_inside_lower_front_right: usize,
    pub bulb_park_n_rear: usize,
    pub bulb_park_n_rear_led: usize,
    pub bulb_dim_light: usize,
    pub bulb_dim_light_scale: usize,
    pub bulb_dim_light_blue: usize,
    pub bulb_brake: usize,
    pub bulb_brake_led: usize,
    pub bulb_rear_n_brake: usize,
}

} // verus!
