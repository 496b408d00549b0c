use nd313::controls::{
    engine_command, indicator_request, AutomaticGearboxMode, DoorLeafLockState,
    DoorReleaseBehaviour, DoorTargetCommand, EngineStartStop, IgnitionSwitchStep,
    IndicatorState, IndicatorSwitchState, Reading, TwoStepState, VdvDisplayDoorState,
};
use nd313::indices::Nd313Indices;
use nd313::interface::cockpit::{vdv_display_door_state, CockpitDoorInputs, Nd313CockpitInterface};
use nd313::interface::doors::{DoorTarget, DoorsInputs, LeafLocks, Nd313DoorsInterface};
use nd313::interface::inside_lights::{LampSetting, Nd313InsideLightsInterface};
use nd313::interface::messages::{IncomingMessage, MessageReaction, Nd313MessageInterface};
use nd313::interface::outside_lights::{BulbSetting, Nd313OutsideLightsInterface, OutsideLightsInputs};
use nd313::interface::pneumatics::{Nd313PneumaticsInterface, PneumaticsWiring};
use nd313::interface::power::{Nd313PowerInterface, SwitchSetting};
use nd313::interface::traction::{Nd313TractionInterface, TractionInputs};

fn indices() -> Nd313Indices {
    Nd313Indices {
        electricity_battery: 0,
        electricity_min_voltage_relay: 1,
        electricity_bus_1: 2,
        electricity_bus_2: 3,
        lamp_inside_lower_deck: 0,
        lamp_inside_upper_deck: 1,
        lamp_inside_lower_front_right: 2,
        bulb_park_n_rear: 0,
        bulb_park_n_rear_led: 1,
        bulb_dim_light: 2,
        bulb_dim_light_scale: 3,
        bulb_dim_light_blue: 4,
        bulb_brake: 5,
        bulb_brake_led: 6,
        bulb_rear_n_brake: 7,
    }
}

fn still<T>(value: T) -> Reading<T> {
    Reading { value, changed: false }
}

fn changed<T>(value: T) -> Reading<T> {
    Reading { value, changed: true }
}

#[test]
fn ignition_order_and_engine_commands() {
    assert!(IgnitionSwitchStep::Step2.at_least(IgnitionSwitchStep::Step1));
    assert!(!IgnitionSwitchStep::Off.at_least(IgnitionSwitchStep::Step1));
    assert!(IgnitionSwitchStep::Starter.at_least(IgnitionSwitchStep::Step2));
    assert_eq!(engine_command(IgnitionSwitchStep::Off), EngineStartStop::Stop);
    assert_eq!(engine_command(IgnitionSwitchStep::Step1), EngineStartStop::Stop);
    assert_eq!(engine_command(IgnitionSwitchStep::Step2), EngineStartStop::NoCommand);
    assert_eq!(engine_command(IgnitionSwitchStep::Starter), EngineStartStop::Start);
    assert_eq!(indicator_request(IndicatorSwitchState::Left), IndicatorState::Left);
    assert_eq!(indicator_request(IndicatorSwitchState::Off), IndicatorState::Off);
    assert_eq!(indicator_request(IndicatorSwitchState::Right), IndicatorState::Right);
}

#[test]
fn power_switches_follow_ignition() {
    let idx = indices();
    let p = Nd313PowerInterface;
    let off = p.wire(&idx, IgnitionSwitchStep::Off);
    assert_eq!(
        off,
        vec![
            SwitchSetting { unit: 0, closed: true },
            SwitchSetting { unit: 1, closed: true },
            SwitchSetting { unit: 2, closed: false },
            SwitchSetting { unit: 3, closed: false },
        ]
    );
    let s1 = p.wire(&idx, IgnitionSwitchStep::Step1);
    assert!(s1[2].closed && !s1[3].closed);
    let s2 = p.wire(&idx, IgnitionSwitchStep::Step2);
    assert!(s2[2].closed && s2[3].closed);
    let st = p.wire(&idx, IgnitionSwitchStep::Starter);
    assert!(st[2].closed && st[3].closed);
}

#[test]
fn door_symbols() {
    assert_eq!(vdv_display_door_state(true, true, true), VdvDisplayDoorState::Blocked);
    assert_eq!(vdv_display_door_state(false, true, false), VdvDisplayDoorState::Blocked);
    assert_eq!(vdv_display_door_state(false, false, true), VdvDisplayDoorState::Open);
    assert_eq!(vdv_display_door_state(true, false, true), VdvDisplayDoorState::Released);
    assert_eq!(vdv_display_door_state(true, false, false), VdvDisplayDoorState::Closed);
}

#[test]
fn cockpit_door_lamps_and_symbols() {
    let c = Nd313CockpitInterface;
    let inputs = CockpitDoorInputs {
        closed_1_1: changed(false),
        closed_1_2: still(true),
        closed_2: still(true),
        closed_3: still(true),
        locked_1_1: false,
        locked_1_2: true,
        release_requested: true,
        release_activatable: true,
        blink_relay: changed(true),
        stop_sign_middle: still(true),
        stop_sign_rear: changed(false),
        stop_brake: changed(true),
    };
    let r = c.wire(&inputs);
    assert_eq!(r.indicator_lamp, Some(true));
    assert_eq!(r.stop_request_middle, None);
    assert_eq!(r.stop_request_rear, Some(false));
    assert_eq!(r.stop_brake_lamp, Some(true));
    assert_eq!(r.front_door_lamp, Some(true));
    assert_eq!(r.rear_doors_lamp, None);
    assert_eq!(r.display_door_1_1, VdvDisplayDoorState::Open);
    assert_eq!(r.display_door_1_2, VdvDisplayDoorState::Blocked);
    assert_eq!(r.display_door_2, VdvDisplayDoorState::Released);
    assert_eq!(r.display_door_3, VdvDisplayDoorState::Released);

    let closed = CockpitDoorInputs {
        closed_1_1: still(true),
        closed_1_2: still(true),
        closed_2: changed(true),
        closed_3: still(true),
        locked_1_1: false,
        locked_1_2: false,
        release_requested: true,
        release_activatable: false,
        blink_relay: still(false),
        stop_sign_middle: changed(true),
        stop_sign_rear: still(false),
        stop_brake: still(false),
    };
    let r = c.wire(&closed);
    assert_eq!(r.indicator_lamp, None);
    assert_eq!(r.stop_request_middle, Some(true));
    assert_eq!(r.stop_brake_lamp, None);
    assert_eq!(r.front_door_lamp, None);
    assert_eq!(r.rear_doors_lamp, Some(false));
    assert_eq!(r.display_door_1_1, VdvDisplayDoorState::Closed);
    assert_eq!(r.display_door_3, VdvDisplayDoorState::Closed);
}

#[test]
fn doors_buttons_and_leaf_locks() {
    let d = Nd313DoorsInterface;
    let inputs = DoorsInputs {
        vehicle_stopped: true,
        bus_2_active: changed(true),
        release_button: changed(true),
        button_door_1: changed(true),
        button_door_2: changed(true),
        button_door_3: changed(false),
        leaf_lock: changed(DoorLeafLockState::Right),
    };
    let r = d.wire(&inputs);
    assert!(r.release_activatable);
    assert_eq!(r.power_available, Some(true));
    assert_eq!(r.release_target, Some(true));
    assert_eq!(r.stop_brake_target, Some(true));
    assert!(r.toggle_door_1);
    assert_eq!(
        r.door_2,
        Some(DoorTarget {
            door: 1,
            command: DoorTargetCommand::OpenNoTimer,
            behaviour: DoorReleaseBehaviour::PendingRequest,
        })
    );
    assert_eq!(
        r.door_3,
        Some(DoorTarget {
            door: 2,
            command: DoorTargetCommand::Open,
            behaviour: DoorReleaseBehaviour::PendingRequest,
        })
    );
    assert_eq!(r.leaf_locks, Some(LeafLocks { left: false, right: true }));

    let quiet = DoorsInputs {
        vehicle_stopped: false,
        bus_2_active: still(true),
        release_button: still(false),
        button_door_1: changed(false),
        button_door_2: still(true),
        button_door_3: still(true),
        leaf_lock: still(DoorLeafLockState::Left),
    };
    let r = d.wire(&quiet);
    assert!(!r.release_activatable);
    assert_eq!(r.power_available, None);
    assert_eq!(r.release_target, None);
    assert_eq!(r.stop_brake_target, None);
    assert!(!r.toggle_door_1);
    assert_eq!(r.door_2, None);
    assert_eq!(r.door_3, None);
    assert_eq!(r.leaf_locks, None);

    let off = DoorsInputs { leaf_lock: changed(DoorLeafLockState::Off), ..quiet };
    assert_eq!(d.wire(&off).leaf_locks, Some(LeafLocks { left: false, right: false }));

    let unpowered = DoorsInputs {
        vehicle_stopped: true,
        bus_2_active: changed(false),
        release_button: changed(false),
        ..quiet
    };
    let r = d.wire(&unpowered);
    assert!(!r.release_activatable);
    assert_eq!(r.power_available, Some(false));
    assert_eq!(r.release_target, Some(false));
    assert_eq!(r.stop_brake_target, Some(false));
}

#[test]
fn traction_starter_gearbox_and_retarder() {
    let t = Nd313TractionInterface;
    let mut retarder: i8 = 0;
    let inputs = TractionInputs {
        ignition: changed(IgnitionSwitchStep::Starter),
        source_active: still(true),
        gearbox_mode: changed(AutomaticGearboxMode::Drive),
        braking: true,
    };
    let r = t.wire(&inputs, &mut retarder);
    assert_eq!(r.starter, Some(EngineStartStop::Start));
    assert_eq!(r.gearbox_mode, Some(AutomaticGearboxMode::Drive));
    assert_eq!(r.retarder_request, Some(1));
    assert_eq!(retarder, 1);

    // Same brake state again: nothing more is sent.
    let again = TractionInputs {
        ignition: still(IgnitionSwitchStep::Starter),
        source_active: still(true),
        gearbox_mode: still(AutomaticGearboxMode::Drive),
        braking: true,
    };
    let r = t.wire(&again, &mut retarder);
    assert_eq!(r.starter, None);
    assert_eq!(r.gearbox_mode, None);
    assert_eq!(r.retarder_request, None);
    assert_eq!(retarder, 1);

    // Power lost: the starter gets no command; brake released: stage 0.
    let lost = TractionInputs {
        ignition: still(IgnitionSwitchStep::Step2),
        source_active: changed(false),
        gearbox_mode: still(AutomaticGearboxMode::Neutral),
        braking: false,
    };
    let r = t.wire(&lost, &mut retarder);
    assert_eq!(r.starter, Some(EngineStartStop::NoCommand));
    assert_eq!(r.retarder_request, Some(0));
    assert_eq!(retarder, 0);

    let key_back = TractionInputs { ignition: changed(IgnitionSwitchStep::Step1), source_active: still(true), ..lost };
    assert_eq!(t.wire(&key_back, &mut retarder).starter, Some(EngineStartStop::Stop));
}

#[test]
fn outside_lights_indicator_priority() {
    let o = Nd313OutsideLightsInterface;
    let idx = indices();
    let base = OutsideLightsInputs {
        bus_1_voltage_available: true,
        bus_2_active: true,
        hazard_switch: false,
        indicator_stalk: IndicatorSwitchState::Left,
        parking: false,
        dim: false,
        braking: false,
    };
    assert_eq!(o.wire(&idx, &base).indicator, IndicatorState::Left);
    let hazard = OutsideLightsInputs { hazard_switch: true, bus_2_active: false, ..base };
    assert_eq!(o.wire(&idx, &hazard).indicator, IndicatorState::Warning);
    let dark = OutsideLightsInputs { hazard_switch: true, bus_1_voltage_available: false, bus_2_active: false, ..base };
    assert_eq!(o.wire(&idx, &dark).indicator, IndicatorState::Off);
    let no_bus_2 = OutsideLightsInputs { bus_2_active: false, ..base };
    assert_eq!(o.wire(&idx, &no_bus_2).indicator, IndicatorState::Off);
}

#[test]
fn outside_lights_bulb_levels() {
    let o = Nd313OutsideLightsInterface;
    let idx = indices();
    let parking = OutsideLightsInputs {
        bus_1_voltage_available: true,
        bus_2_active: true,
        hazard_switch: false,
        indicator_stalk: IndicatorSwitchState::Off,
        parking: true,
        dim: false,
        braking: false,
    };
    let b = |bulb: usize, level: u16, voltage_scaled: bool| BulbSetting { bulb, level, voltage_scaled };
    assert_eq!(
        o.wire(&idx, &parking).bulbs,
        vec![
            b(0, 1000, true),
            b(1, 1000, false),
            b(2, 0, true),
            b(3, 400, true),
            b(4, 500, false),
            b(5, 0, true),
            b(6, 0, false),
            b(7, 700, false),
        ]
    );
    let driving = OutsideLightsInputs { dim: true, braking: true, ..parking };
    assert_eq!(
        o.wire(&idx, &driving).bulbs,
        vec![
            b(0, 1000, true),
            b(1, 1000, false),
            b(2, 1000, true),
            b(3, 1000, true),
            b(4, 1000, false),
            b(5, 1000, true),
            b(6, 1000, false),
            b(7, 1000, false),
        ]
    );
    let off = OutsideLightsInputs { parking: false, ..parking };
    let levels: Vec<u16> = o.wire(&idx, &off).bulbs.iter().map(|s| s.level).collect();
    assert_eq!(levels, vec![0, 0, 0, 0, 500, 0, 0, 0]);
}

#[test]
fn inside_lamps_follow_switches() {
    let l = Nd313InsideLightsInterface;
    let idx = indices();
    assert_eq!(
        l.wire(&idx, TwoStepState::Off, true),
        vec![
            LampSetting { lamp: 0, on: false },
            LampSetting { lamp: 2, on: false },
            LampSetting { lamp: 1, on: true },
        ]
    );
    let a = l.wire(&idx, TwoStepState::StepA, false);
    assert!(a[0].on && !a[1].on && !a[2].on);
    let b = l.wire(&idx, TwoStepState::StepB, false);
    assert!(b[0].on && b[1].on && !b[2].on);
}

#[test]
fn pneumatics_parking_brake_follows_lever() {
    let p = Nd313PneumaticsInterface;
    assert_eq!(
        p.wire(true, changed(true)),
        PneumaticsWiring { target_stop_brake: true, parking_brake_applied: Some(true) }
    );
    assert_eq!(
        p.wire(false, still(true)),
        PneumaticsWiring { target_stop_brake: false, parking_brake_applied: None }
    );
    assert_eq!(p.wire(false, changed(false)).parking_brake_applied, Some(false));
}

#[test]
fn messages_reactions() {
    let m = Nd313MessageInterface;
    assert_eq!(
        m.on_message(IncomingMessage::CurrentGear(-1)),
        MessageReaction { handled: true, current_gear: Some(-1), has_almex: false }
    );
    assert_eq!(
        m.on_message(IncomingMessage::AlmexAvailable(true)),
        MessageReaction { handled: true, current_gear: None, has_almex: true }
    );
    assert_eq!(
        m.on_message(IncomingMessage::AlmexAvailable(false)),
        MessageReaction { handled: true, current_gear: None, has_almex: false }
    );
    assert!(!m.on_message(IncomingMessage::Other).handled);
}
