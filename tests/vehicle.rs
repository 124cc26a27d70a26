use fakon::car::{Anomaly, CarState, ChargeLock, Contactor, Gear, Ignition, PcanMessage};
use fakon::fresh::{Fresh, IsFresh};
use fakon::igpm;
use fakon::frame::FrameId;
use fakon::inputs::{
    apply_ignition, apply_input_edges, next_ignition, Debouncer, Edge, IgnitionDecision, IgnitionMonitor, SlowInputs,
};
use fakon::pcan::{on_pcan_rx, RxOutcome};
use fakon::shift_control::{self, ActuatorPosition, ActuatorState, ParkRequest};

fn precharge(closed: bool) -> PcanMessage {
    PcanMessage::BattHvStatus { precharge_closed: closed, v_batt_dv: 3500, i_batt_da: -12 }
}

fn contactor(closed: bool) -> PcanMessage {
    PcanMessage::Bms5a3 { contactor_closed: closed }
}

#[test]
fn fresh_round_trip() {
    let mut f: Fresh<u16, 3> = Fresh::new();
    assert_eq!(f.get(0), None);
    assert_eq!(f.get_unchecked(), None);
    assert!(f.is_stale(0));
    f.set(7, 1000);
    assert_eq!(f.get(1000), Some(7));
    assert_eq!(f.get(3999), Some(7));
    assert_eq!(f.get(4000), None);
    assert!(f.is_stale(4000));
    assert_eq!(f.get_unchecked(), Some(7));
    // A window of one second.
    let mut g: Fresh<bool, 1> = Fresh::new();
    g.set(true, 50);
    assert!(g.is_fresh(1049));
    assert!(!g.is_fresh(1050));
}

#[test]
fn contactor_precedence_scenario() {
    let mut car = CarState::new();
    car.update_state(&precharge(true), 100);
    assert_eq!(car.contactor().get(100), None);
    car.update_state(&contactor(false), 110);
    assert_eq!(car.contactor().get(110), Some(Contactor::PreCharging));
    car.update_state(&contactor(true), 200);
    assert_eq!(car.contactor().get(200), Some(Contactor::Closed));
    car.update_state(&precharge(false), 300);
    assert_eq!(car.contactor().get(300), Some(Contactor::Closed));
    // Only the contactor message moves it out of Closed.
    car.update_state(&contactor(false), 400);
    assert_eq!(car.contactor().get(400), Some(Contactor::Open));
}

#[test]
fn ready_needs_ignition_and_fresh_closed_contactor() {
    let mut car = CarState::new();
    car.update_state(&precharge(false), 0);
    car.update_state(&contactor(true), 0);
    assert!(!car.ready(10));
    car.set_ignition(Ignition::On);
    assert!(car.ready(10));
    assert!(car.ready(2999));
    // Stale after three seconds, though ignition stays on.
    assert!(!car.ready(3000));
    car.set_ignition(Ignition::IG3);
    assert!(!car.ready(10));
}

#[test]
fn most_on_only_rises() {
    let mut car = CarState::new();
    assert_eq!(car.most_on(), Ignition::Off);
    car.set_ignition(Ignition::IG3);
    assert_eq!(car.most_on(), Ignition::IG3);
    car.set_ignition(Ignition::Off);
    assert_eq!(car.ignition(), Ignition::Off);
    assert_eq!(car.most_on(), Ignition::IG3);
    car.set_ignition(Ignition::On);
    car.set_ignition(Ignition::IG3);
    assert_eq!(car.most_on(), Ignition::On);
    assert_eq!(car.ignition(), Ignition::IG3);
}

#[test]
fn anomalies_are_reported_but_applied() {
    let mut car = CarState::new();
    // Skipping pre-charge: straight from nothing to closed.
    assert_eq!(car.update_state(&contactor(true), 0), Anomaly::UnexpectedContactor);
    assert_eq!(car.contactor().get(0), Some(Contactor::Closed));
    // Contactor message again while pre-charge state was never seen.
    assert_eq!(car.update_state(&contactor(false), 100), Anomaly::MissingPrecharge);
    assert_eq!(car.contactor().get(100), Some(Contactor::Open));
    car.update_state(&precharge(true), 200);
    assert_eq!(car.update_state(&contactor(false), 300), Anomaly::Nothing);
    assert_eq!(car.contactor().get(300), Some(Contactor::PreCharging));
    assert_eq!(car.update_state(&contactor(true), 400), Anomaly::Nothing);
    assert_eq!(car.update_state(&contactor(true), 500), Anomaly::Nothing);
}

#[test]
fn gear_and_telemetry() {
    let mut car = CarState::new();
    assert_eq!(car.update_state(&PcanMessage::Vcu200 { gear: None }, 0), Anomaly::Nothing);
    car.set_ignition(Ignition::IG3);
    assert_eq!(car.update_state(&PcanMessage::Vcu200 { gear: None }, 0), Anomaly::InvalidGear);
    assert_eq!(car.gear().get(0), None);
    car.update_state(&PcanMessage::Vcu200 { gear: Some(Gear::Drive) }, 10);
    assert_eq!(car.gear().get(10), Some(Gear::Drive));
    car.update_state(&PcanMessage::InverterStatus { v_inverter: 360, speed_abs: 1200 }, 20);
    assert_eq!(car.v_inverter().get(20), Some(360));
    assert_eq!(car.motor_rpm().get(1019), Some(1200));
    assert_eq!(car.motor_rpm().get(1020), None);
    car.update_state(&PcanMessage::Bms542 { soc_disp_pm: 815 }, 30);
    assert_eq!(car.soc_batt(), 815);
    car.update_state(&precharge(true), 40);
    assert_eq!(car.v_batt, 3500);
    assert_eq!(car.i_batt, -12);
}

#[test]
fn bus_liveness_and_charger() {
    let mut car = CarState::new();
    assert!(!car.pcan_receiving(0));
    car.update_state(&PcanMessage::Other, 1000);
    assert!(car.pcan_receiving(2999));
    assert!(!car.pcan_receiving(3000));
    assert!(!car.ig3_appears_powered(1000));
    car.update_state(&PcanMessage::Obc58e { evse_detected: false, port_lock_req: false, port_unlock_req: false }, 1000);
    assert!(car.ig3_appears_powered(1000));
    assert_eq!(car.evse_detected().get(1000), Some(false));
    assert!(!car.pcan_bus_off());
    car.set_pcan_bus_off();
    assert!(car.pcan_bus_off());
}

#[test]
fn ev_ready_needs_inverter() {
    let mut car = CarState::new();
    car.set_ev_ready_input(true);
    assert!(!car.ev_ready(0));
    car.update_state(&PcanMessage::InverterStatus { v_inverter: 360, speed_abs: 0 }, 0);
    assert!(car.ev_ready(100));
    car.set_ev_ready_input(false);
    assert!(!car.ev_ready(100));
}

#[test]
fn input_edges() {
    let mut car = CarState::new();
    apply_input_edges(&mut car, Some(Edge::Rising), None, Some(Edge::Falling));
    assert!(car.is_braking());
    assert_eq!(car.charge_port(), ChargeLock::Locked);
    assert!(car.charge_port().is_locked());
    apply_input_edges(&mut car, Some(Edge::Falling), Some(Edge::Rising), Some(Edge::Rising));
    assert!(!car.is_braking());
    assert!(car.ev_ready_input);
    assert_eq!(car.charge_port(), ChargeLock::Unlocked);
}

#[test]
fn slow_inputs_debounce() {
    let mut car = CarState::new();
    let mut inputs = SlowInputs::new();
    inputs.poll(true, false, true, &mut car);
    inputs.poll(true, false, true, &mut car);
    assert!(!car.is_braking());
    inputs.poll(true, false, true, &mut car);
    assert!(car.is_braking());
    inputs.poll(false, false, true, &mut car);
    assert!(car.is_braking());
}

#[test]
fn ignition_state_machine() {
    assert_eq!(next_ignition(Ignition::Off, Some(Edge::Rising), false, false, true, 7), (IgnitionDecision::Change(Ignition::On), 7));
    assert_eq!(next_ignition(Ignition::Off, None, true, false, true, 7), (IgnitionDecision::Change(Ignition::IG3), 7));
    assert_eq!(next_ignition(Ignition::Off, None, false, false, true, 7), (IgnitionDecision::Stay, 0));
    assert_eq!(next_ignition(Ignition::Off, None, false, false, false, 7), (IgnitionDecision::Stay, 8));
    assert_eq!(next_ignition(Ignition::Off, None, false, false, false, 499), (IgnitionDecision::Stay, 500));
    assert_eq!(next_ignition(Ignition::Off, None, false, false, false, 500), (IgnitionDecision::Standby, 501));
    assert_eq!(next_ignition(Ignition::Off, None, false, true, true, 0), (IgnitionDecision::Stay, 1));
    assert_eq!(next_ignition(Ignition::IG3, Some(Edge::Rising), true, false, true, 0), (IgnitionDecision::Change(Ignition::On), 0));
    assert_eq!(next_ignition(Ignition::IG3, None, false, false, true, 0), (IgnitionDecision::Change(Ignition::Off), 0));
    assert_eq!(next_ignition(Ignition::IG3, None, true, false, true, 0), (IgnitionDecision::Stay, 0));
    assert_eq!(next_ignition(Ignition::On, Some(Edge::Falling), true, false, true, 0), (IgnitionDecision::Change(Ignition::IG3), 0));
    assert_eq!(next_ignition(Ignition::On, Some(Edge::Falling), false, false, true, 0), (IgnitionDecision::Change(Ignition::Off), 0));
    assert_eq!(next_ignition(Ignition::On, Some(Edge::Rising), false, false, true, 0), (IgnitionDecision::Stay, 0));
    assert_eq!(next_ignition(Ignition::On, None, true, true, true, 0), (IgnitionDecision::Halt, 0));
}

#[test]
fn ignition_monitor_debounces_main_power() {
    let car = CarState::new();
    let mut monitor = IgnitionMonitor::new();
    // The bus is quiet, so each poll counts as idle.
    for _ in 0..4 {
        assert_eq!(monitor.poll(true, &car, 0), IgnitionDecision::Stay);
    }
    assert_eq!(monitor.poll(true, &car, 0), IgnitionDecision::Change(Ignition::On));
}

#[test]
fn ignition_level_helpers() {
    assert!(!Ignition::Off.ig3_on());
    assert!(Ignition::IG3.ig3_on());
    assert!(Ignition::On.ig3_on());
    assert!(!ChargeLock::Unlocked.is_locked());
}

#[test]
fn charge_port_requests() {
    let msg = |lock, unlock| PcanMessage::Obc58e { evse_detected: true, port_lock_req: lock, port_unlock_req: unlock };
    assert_eq!(igpm::on_can_rx(&msg(true, false)), Some(ChargeLock::Locked));
    assert_eq!(igpm::on_can_rx(&msg(false, true)), Some(ChargeLock::Unlocked));
    assert_eq!(igpm::on_can_rx(&msg(true, true)), None);
    assert_eq!(igpm::on_can_rx(&msg(false, false)), None);
    assert_eq!(igpm::on_can_rx(&PcanMessage::Other), None);
}

#[test]
fn park_actuator_pwm() {
    assert_eq!(ActuatorPosition::Unknown.pwm_tx_duty_percent(), 84);
    assert_eq!(ActuatorPosition::Unlocked.pwm_tx_duty_percent(), 64);
    assert_eq!(ActuatorPosition::Locked.pwm_tx_duty_percent(), 24);
    assert_eq!(ActuatorPosition::Locked.pwm_tx_times(), (76, 24));
    assert_eq!(ActuatorPosition::Unknown.pwm_tx_times(), (16, 84));
    assert_eq!(ActuatorPosition::from_pwm_rx_duty_percent(25), Some(ActuatorPosition::Unlocked));
    assert_eq!(ActuatorPosition::from_pwm_rx_duty_percent(21), Some(ActuatorPosition::Unlocked));
    assert_eq!(ActuatorPosition::from_pwm_rx_duty_percent(30), None);
    assert_eq!(ActuatorPosition::from_pwm_rx_duty_percent(85), Some(ActuatorPosition::Locked));
    assert_eq!(ActuatorPosition::from_pwm_rx_duty_percent(55), None);

    let mut state = ActuatorState::default();
    state.on_pwm_edge(true, false, 0);
    // No full cycle yet.
    assert_eq!(state.position, ActuatorPosition::Unknown);
    state.on_pwm_edge(true, true, 75);
    state.on_pwm_edge(true, false, 100);
    assert_eq!(state.position, ActuatorPosition::Unlocked);
    state.on_pwm_edge(true, true, 115);
    state.on_pwm_edge(true, false, 200);
    assert_eq!(state.position, ActuatorPosition::Locked);
    // A cycle far off the nominal period reads as unknown.
    state.on_pwm_edge(true, true, 300);
    state.on_pwm_edge(true, false, 400);
    assert_eq!(state.position, ActuatorPosition::Unknown);
    // With IG3 off the actuator is reset.
    state.on_pwm_edge(true, true, 415);
    state.on_pwm_edge(true, false, 500);
    assert_eq!(state.position, ActuatorPosition::Locked);
    state.on_pwm_edge(false, true, 500);
    assert_eq!(state.position, ActuatorPosition::Unknown);
    assert!(state.rising.is_none());

    let mut s2 = ActuatorState::default();
    shift_control::on_can_rx(&PcanMessage::Vcu109 { park_request: ParkRequest::RequestLock }, &mut s2);
    assert_eq!(s2.position, ActuatorPosition::Locked);
    shift_control::on_can_rx(&PcanMessage::Vcu109 { park_request: ParkRequest::Other }, &mut s2);
    assert_eq!(s2.position, ActuatorPosition::Locked);
    shift_control::on_can_rx(&PcanMessage::Vcu109 { park_request: ParkRequest::RequestUnlock }, &mut s2);
    assert_eq!(s2.position, ActuatorPosition::Unlocked);
}

#[test]
fn debouncer_reports_settled_changes() {
    let mut d = Debouncer::new(2, false);
    assert_eq!(d.update(false), None);
    assert_eq!(d.update(true), None);
    assert_eq!(d.update(true), Some(Edge::Rising));
    assert_eq!(d.update(true), None);
    assert_eq!(d.update(false), None);
    assert_eq!(d.update(false), Some(Edge::Falling));
    let mut h = Debouncer::new(2, true);
    assert_eq!(h.update(true), None);
    assert_eq!(h.update(false), None);
    assert_eq!(h.update(true), None);
    assert_eq!(h.update(false), None);
    assert_eq!(h.update(false), Some(Edge::Falling));
    // A glitch restarts the count.
    let mut b = Debouncer::new(3, false);
    assert_eq!(b.update(true), None);
    assert_eq!(b.update(true), None);
    assert_eq!(b.update(false), None);
    assert_eq!(b.update(true), None);
    assert_eq!(b.update(true), None);
    assert_eq!(b.update(true), Some(Edge::Rising));
    assert_eq!(Debouncer::new(16, false).full, 0xFFFF);
}

#[test]
fn slow_inputs_lock_sensor_needs_twelve_samples() {
    let mut car = CarState::new();
    let mut inputs = SlowInputs::new();
    for _ in 0..11 {
        inputs.poll(false, true, true, &mut car);
        assert_eq!(car.charge_port(), ChargeLock::Unlocked);
    }
    assert!(car.ev_ready_input);
    // The sensor reads low (locked) for twelve samples in a row.
    let mut locked = CarState::new();
    let mut lock_inputs = SlowInputs::new();
    for _ in 0..12 {
        lock_inputs.poll(false, false, true, &mut locked);
    }
    for _ in 0..11 {
        lock_inputs.poll(false, false, false, &mut locked);
        assert_eq!(locked.charge_port(), ChargeLock::Unlocked);
    }
    lock_inputs.poll(false, false, false, &mut locked);
    assert_eq!(locked.charge_port(), ChargeLock::Locked);
}

#[test]
fn ignition_decision_applied() {
    let mut car = CarState::new();
    assert_eq!(apply_ignition(&mut car, IgnitionDecision::Change(Ignition::On)), Some(true));
    assert_eq!(car.ignition(), Ignition::On);
    assert_eq!(apply_ignition(&mut car, IgnitionDecision::Change(Ignition::IG3)), Some(false));
    assert_eq!(car.most_on(), Ignition::On);
    assert_eq!(apply_ignition(&mut car, IgnitionDecision::Stay), None);
    assert_eq!(car.ignition(), Ignition::IG3);
}

#[test]
fn received_frames_skip_diagnostics_and_failures() {
    let mut car = CarState::new();
    let mut act = ActuatorState::default();
    let lock = PcanMessage::Vcu109 { park_request: ParkRequest::RequestLock };
    assert!(matches!(on_pcan_rx(&mut car, &mut act, FrameId::Standard(0x7DF), Some(lock), 5), RxOutcome::Diagnostic));
    assert_eq!(act.position, ActuatorPosition::Unknown);
    assert!(car.last_pcan_rx.is_none());
    assert!(matches!(on_pcan_rx(&mut car, &mut act, FrameId::Standard(0x109), None, 5), RxOutcome::Undecodable));
    assert!(car.last_pcan_rx.is_none());
    let out = on_pcan_rx(&mut car, &mut act, FrameId::Standard(0x109), Some(lock), 5);
    assert!(matches!(out, RxOutcome::Handled(_)));
    assert_eq!(act.position, ActuatorPosition::Locked);
    assert_eq!(car.last_pcan_rx, Some(5));
    let port = PcanMessage::Obc58e { evse_detected: true, port_lock_req: true, port_unlock_req: false };
    match on_pcan_rx(&mut car, &mut act, FrameId::Standard(0x58E), Some(port), 6) {
        RxOutcome::Handled(e) => assert_eq!(e.charge_port, Some(ChargeLock::Locked)),
        _ => panic!("expected the message to be handled"),
    }
}
