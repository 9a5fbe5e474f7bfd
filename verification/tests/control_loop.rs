use std::collections::BTreeMap;

use arachno_pilot::control::{
    arm_bus_wants_torque, current_pose, is_dashboard_reopen_error, is_reopen_error, poll_error, poll_window,
    read_budget, servo_label, should_reopen_bus, BusLink, LinkAction, LinkEvent,
};
use arachno_pilot::modes::BrainMode;
use arachno_pilot::motion::{
    pose_to_commands, JointCommand, MotionRuntime, PlannedPose, SafetyTrip, ServoSafetySample,
    LOW_VOLTAGE_STRIKES_TO_TRIP,
};

#[test]
fn reopen_errors_are_recognised_by_their_message() {
    assert!(is_reopen_error("failed to open /dev/ttyUSB0: No such file or directory"));
    assert!(is_reopen_error("serial write: Broken pipe"));
    assert!(is_reopen_error("read: Input/output error (os error 5)"));
    assert!(!is_reopen_error("timed out waiting for status packet"));
    assert!(!is_dashboard_reopen_error("serial write: Broken pipe"));
    assert!(is_dashboard_reopen_error("read: Input/output error"));
    assert!(should_reopen_bus(&vec!["checksum mismatch".to_owned(), "Broken pipe".to_owned()]));
    assert!(!should_reopen_bus(&vec!["checksum mismatch".to_owned()]));
    assert!(!should_reopen_bus(&Vec::new()));
}

#[test]
fn read_budget_reads_everything_until_motion_is_armed() {
    assert_eq!(read_budget(false, BrainMode::Stand, true, 4, 18), 4);
    assert_eq!(read_budget(false, BrainMode::Stand, true, 0, 18), 1);
    assert_eq!(read_budget(false, BrainMode::Stand, true, 50, 18), 18);
    assert_eq!(read_budget(true, BrainMode::Stand, true, 4, 18), 18);
    assert_eq!(read_budget(false, BrainMode::Telemetry, true, 4, 18), 18);
    assert_eq!(read_budget(false, BrainMode::Stand, false, 4, 18), 18);
}

#[test]
fn poll_windows_walk_round_robin() {
    assert_eq!(poll_window(&[1, 2, 3], 2, 2), (vec![3, 1], 1));
    assert_eq!(poll_window(&[1, 2, 3], 2, 0), (vec![3], 0));
    assert_eq!(poll_window(&[1, 2, 3], 0, 7), (vec![1, 2, 3, 1, 2, 3, 1], 1));
    assert_eq!(poll_window(&[9], 5, 2), (vec![9, 9], 0));
}

#[test]
fn current_pose_needs_every_servo() {
    let positions = BTreeMap::from([(1, Some(10u16)), (2, Some(20u16)), (3, None)]);
    assert_eq!(current_pose(&[1, 2], &positions), Some(BTreeMap::from([(1, 10u16), (2, 20u16)])));
    assert_eq!(current_pose(&[1, 3], &positions), None);
    assert_eq!(current_pose(&[1, 4], &positions), None);
    assert_eq!(current_pose(&[], &positions), Some(BTreeMap::new()));
}

#[test]
fn bus_links_open_then_enable_torque_then_poll() {
    let link = BusLink::closed();
    assert_eq!(link.next_action(true), LinkAction::OpenBus);
    let link = link.after(LinkEvent::Opened);
    assert_eq!(link.next_action(true), LinkAction::EnableTorque);
    assert_eq!(link.next_action(false), LinkAction::Poll);
    let link = link.after(LinkEvent::TorqueEnabled);
    assert_eq!(link.next_action(true), LinkAction::Poll);
    let (released, send_off) = link.release_torque(false);
    assert!(send_off);
    assert!(released.open && !released.torque_enabled);
    let (kept, send_off) = link.release_torque(true);
    assert!(!send_off);
    assert_eq!(kept, link);
    let lost = link.after(LinkEvent::LinkLost);
    assert_eq!(lost, BusLink::closed());
    assert_eq!(link.after(LinkEvent::TorqueEnableFailed), BusLink::closed());
    assert!(arm_bus_wants_torque(BrainMode::Manual));
    assert!(!arm_bus_wants_torque(BrainMode::Stand));
}

#[test]
fn servo_labels_and_poll_errors() {
    let labels = BTreeMap::from([(1u8, "front_left / coxa".to_owned())]);
    assert_eq!(servo_label(&labels, 1), "front_left / coxa");
    assert_eq!(servo_label(&labels, 42), "servo-42");
    assert_eq!(poll_error(17, 18).as_deref(), Some("17 of 18 configured servos replied"));
    assert_eq!(poll_error(18, 18), None);
}

#[test]
fn pose_commands_are_sorted_by_servo_id() {
    let pose = BTreeMap::from([(5u8, 100u16), (2u8, 200u16)]);
    assert_eq!(
        pose_to_commands(&pose),
        vec![
            JointCommand { servo_id: 2, position_ticks: 200, speed_ticks: 200, acceleration: 10 },
            JointCommand { servo_id: 5, position_ticks: 100, speed_ticks: 200, acceleration: 10 },
        ]
    );
    assert!(pose_to_commands(&BTreeMap::new()).is_empty());
}

fn sample(servo_id: u8, below_min_voltage: bool, over_temperature: bool) -> ServoSafetySample {
    ServoSafetySample { servo_id, has_telemetry: true, below_min_voltage, over_temperature }
}

#[test]
fn low_voltage_trips_after_consecutive_samples() {
    let mut motion = MotionRuntime::new(BrainMode::Stand);
    for _ in 0..LOW_VOLTAGE_STRIKES_TO_TRIP - 1 {
        assert_eq!(motion.check_safety(None, true, &[sample(1, true, false), sample(2, false, false)]), None);
    }
    assert_eq!(motion.low_voltage_strikes.get(&1), Some(&5));
    assert_eq!(
        motion.check_safety(None, true, &[sample(1, true, false), sample(2, false, false)]),
        Some(SafetyTrip::LowVoltage(1))
    );
    // A good sample clears that servo's strikes; switching monitoring off clears all.
    let mut motion = MotionRuntime::new(BrainMode::Stand);
    motion.check_safety(None, true, &[sample(1, true, false)]);
    motion.check_safety(None, true, &[sample(1, false, false)]);
    assert!(motion.low_voltage_strikes.is_empty());
    motion.check_safety(None, true, &[sample(1, true, false)]);
    motion.check_safety(None, false, &[sample(1, true, false)]);
    assert!(motion.low_voltage_strikes.is_empty());
}

#[test]
fn over_temperature_trips_at_once_and_offline_servos_are_skipped() {
    let mut motion = MotionRuntime::new(BrainMode::Stand);
    let offline = ServoSafetySample { servo_id: 3, has_telemetry: false, below_min_voltage: true, over_temperature: true };
    assert_eq!(motion.check_safety(None, true, &[offline, sample(4, false, true)]), Some(SafetyTrip::OverTemperature(4)));
    assert!(motion.low_voltage_strikes.get(&3).is_none());
}

#[test]
fn motion_commands_follow_the_plan_or_hold_the_pose() {
    let base = BTreeMap::from([(1u8, 1000u16)]);
    let mut telemetry = MotionRuntime::new(BrainMode::Telemetry);
    assert_eq!(telemetry.commands(base.clone(), None), None);

    let mut motion = MotionRuntime::new(BrainMode::Stand);
    assert!(!motion.needs_plan());
    assert_eq!(motion.commands(base.clone(), None), None);

    motion.arm(base.clone());
    assert!(motion.needs_plan());
    assert_eq!(motion.base_pose(BTreeMap::new()), base);
    let plan = PlannedPose { pose: BTreeMap::from([(1u8, 1100u16)]), summary: "settling".to_owned() };
    let commands = motion.commands(base.clone(), Some(plan)).expect("armed motion sends commands");
    assert_eq!(commands[0].position_ticks, 1100);
    assert_eq!(motion.summary, "settling");
    assert_eq!(motion.hold_pose, Some(BTreeMap::from([(1u8, 1100u16)])));

    motion.trip_fault("stop".to_owned(), None);
    assert!(!motion.needs_plan());
    let plan = PlannedPose { pose: BTreeMap::from([(1u8, 1500u16)]), summary: "ignored".to_owned() };
    let commands = motion.commands(base.clone(), Some(plan)).expect("faulted motion holds");
    assert_eq!(commands[0].position_ticks, 1100);
    assert_eq!(motion.summary, "motion halted: stop");
}

#[test]
fn reopening_the_bus_disarms_driven_modes_only() {
    let mut motion = MotionRuntime::new(BrainMode::Stand);
    motion.arm(BTreeMap::from([(1u8, 1000u16)]));
    motion.bus_opened();
    assert!(!motion.armed);
    assert_eq!(motion.summary, "legs servo bus opened; waiting to arm motion");
    let mut observer = MotionRuntime::new(BrainMode::Telemetry);
    observer.bus_opened();
    assert_eq!(observer.summary, "observation only; no motion commands are being sent");
}

use arachno_pilot::control::{initial_status, sweep_poll_error};

#[test]
fn runtime_poll_errors_and_initial_status() {
    assert_eq!(sweep_poll_error(18, 18, None), None);
    assert_eq!(
        sweep_poll_error(3, 18, None).as_deref(),
        Some("3 of 18 configured servos replied on the latest sweep")
    );
    assert_eq!(
        sweep_poll_error(18, 18, Some("legs servo bus needs to be reopened".to_owned())).as_deref(),
        Some("legs servo bus needs to be reopened")
    );
    assert_eq!(
        initial_status(BrainMode::Telemetry),
        ("observation only; no motion commands are being sent".to_owned(), "observation only".to_owned())
    );
    assert_eq!(
        initial_status(BrainMode::Manual),
        ("waiting for the control worker to arm motion".to_owned(), "waiting for servo and IMU state".to_owned())
    );
}
