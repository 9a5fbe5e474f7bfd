use arachno_pilot::calibrate::{
    eeprom_apply_start, eeprom_apply_step, EepromAction, EepromProfileError, EepromStep, EepromWrite, ServoEepromEntry, ServoRegisterWidth,
};
use arachno_pilot::config::JointKind;
use arachno_pilot::control::BusLink;
use arachno_pilot::manual::{seeded_live_target, ArmControlState, ManualControlState};
use arachno_pilot::modes::BrainMode;
use arachno_pilot::motion::MotionRuntime;
use arachno_pilot::runtime::{arm_after_restore, arm_bus_failed, arm_tick, mode_change, ArmFailure, ArmTick};
use arachno_pilot::sensing::{range_scan_step, sense_group_step, GroupAction, GroupPhase, ScanAction, ScanPhase};
use arachno_pilot::tracepath::{trace_log_directory, trace_log_file_name, trace_output_path};
use std::collections::BTreeMap;

fn entry(address: u8, width: ServoRegisterWidth, value: u16) -> ServoEepromEntry {
    ServoEepromEntry { name: format!("reg{address}"), address, width, value }
}

/// Runs the EEPROM procedure, answering each action with `ok(action)`.
fn run_eeprom(ids: &[u8], entries: &[ServoEepromEntry], ok: impl Fn(&EepromAction) -> bool) -> Vec<EepromAction> {
    let mut step = eeprom_apply_start(entries).expect("profile has entries");
    let mut last_ok = true;
    let mut actions = Vec::new();
    loop {
        let (next, action) = eeprom_apply_step(ids, entries, step, last_ok);
        actions.push(action);
        if let EepromAction::Finish { .. } = action {
            return actions;
        }
        last_ok = ok(&action);
        step = next;
    }
}

fn lock(servo_id: u8, locked: bool) -> EepromAction {
    EepromAction::SetLock { servo_id, locked }
}

#[test]
fn eeprom_profile_unlocks_writes_every_servo_then_relocks() {
    let entries = [entry(5, ServoRegisterWidth::U8, 3), entry(9, ServoRegisterWidth::U16, 600)];
    let actions = run_eeprom(&[1, 2], &entries, |_| true);
    let w8 = EepromWrite::U8 { address: 5, byte: 3 };
    let w16 = EepromWrite::U16 { address: 9, word: 600 };
    assert_eq!(
        actions,
        vec![
            lock(1, false),
            lock(2, false),
            EepromAction::WriteVerify { servo_id: 1, write: w8 },
            EepromAction::WriteVerify { servo_id: 2, write: w8 },
            EepromAction::WriteVerify { servo_id: 1, write: w16 },
            EepromAction::WriteVerify { servo_id: 2, write: w16 },
            lock(1, true),
            lock(2, true),
            EepromAction::Finish { apply_ok: true, relock_ok: true },
        ]
    );
}

#[test]
fn eeprom_failures_stop_writing_but_always_relock() {
    let entries = [entry(5, ServoRegisterWidth::U8, 3)];
    // A failed readback on servo 2 stops the writes and relocks from the first servo.
    let actions = run_eeprom(&[1, 2, 3], &entries, |a| !matches!(a, EepromAction::WriteVerify { servo_id: 2, .. }));
    assert_eq!(
        &actions[5..],
        &[lock(1, true), lock(2, true), lock(3, true), EepromAction::Finish { apply_ok: false, relock_ok: true }]
    );
    // A failed unlock relocks the servos, with no write at all.
    let actions = run_eeprom(&[1, 2], &entries, |a| *a != lock(2, false));
    assert_eq!(
        actions,
        vec![lock(1, false), lock(2, false), lock(1, true), lock(2, true), EepromAction::Finish { apply_ok: false, relock_ok: true }]
    );
    // A failed lock does not stop the relocking.
    let actions = run_eeprom(&[1, 2], &entries, |a| *a != lock(1, true));
    assert_eq!(actions[actions.len() - 2..], [lock(2, true), EepromAction::Finish { apply_ok: true, relock_ok: false }]);
    // An entry that does not fit a byte is never written.
    let wide = [entry(5, ServoRegisterWidth::U8, 300)];
    let actions = run_eeprom(&[1], &wide, |_| true);
    assert_eq!(actions, vec![lock(1, false), lock(1, true), EepromAction::Finish { apply_ok: false, relock_ok: true }]);
}

#[test]
fn empty_eeprom_profile_is_refused_before_any_bus_call() {
    let err = eeprom_apply_start(&[]).unwrap_err();
    assert_eq!(err, EepromProfileError::Empty);
    assert_eq!(err.message(), "config does not define any servo EEPROM entries");
    assert_eq!(eeprom_apply_start(&[entry(5, ServoRegisterWidth::U8, 3)]), Ok(EepromStep::Unlock { next: 0 }));
    // Driven anyway, an empty profile finishes at once without touching a lock.
    for step in [EepromStep::Unlock { next: 0 }, EepromStep::Relock { next: 0, apply_failed: false, relock_failed: false }] {
        assert_eq!(
            eeprom_apply_step(&[1, 2], &[], step, true),
            (EepromStep::Done { apply_ok: false, relock_ok: true }, EepromAction::Finish { apply_ok: false, relock_ok: true })
        );
    }
}

fn run_scan(skip: bool, fail: Option<ScanAction>) -> Vec<ScanAction> {
    let mut phase = ScanPhase::Start;
    let mut last_ok = true;
    let mut actions = Vec::new();
    loop {
        let (next, action) = range_scan_step(phase, skip, last_ok);
        actions.push(action);
        if let ScanAction::Finish { .. } = action {
            return actions;
        }
        last_ok = Some(action) != fail;
        phase = next;
    }
}

#[test]
fn range_scan_validates_first_and_senses_in_order() {
    assert_eq!(
        run_scan(false, None),
        vec![
            ScanAction::ValidateProfile,
            ScanAction::DisableTorque,
            ScanAction::EnableTorqueAtCurrentPose,
            ScanAction::SetDefaultTorqueLimits,
            ScanAction::MoveToLayDown,
            ScanAction::ReadPose,
            ScanAction::SenseGroup { joint: JointKind::Tibia },
            ScanAction::PlaceGroup { joint: JointKind::Tibia, ratio_permille: 700 },
            ScanAction::SenseGroup { joint: JointKind::Femur },
            ScanAction::PlaceGroup { joint: JointKind::Femur, ratio_permille: 500 },
            ScanAction::PlaceGroup { joint: JointKind::Tibia, ratio_permille: 500 },
            ScanAction::SenseGroup { joint: JointKind::Coxa },
            ScanAction::WriteReport,
            ScanAction::RestoreTorqueLimits,
            ScanAction::ReturnToLayDown,
            ScanAction::Finish { ok: true },
        ]
    );
    assert_eq!(run_scan(true, None)[4], ScanAction::ReadPose);
}

#[test]
fn range_scan_refuses_on_a_profile_mismatch_and_cleans_up_after_failures() {
    assert_eq!(run_scan(false, Some(ScanAction::ValidateProfile)), vec![ScanAction::ValidateProfile, ScanAction::Finish { ok: false }]);
    let failed = run_scan(false, Some(ScanAction::SenseGroup { joint: JointKind::Femur }));
    assert_eq!(&failed[failed.len() - 3..], &[ScanAction::RestoreTorqueLimits, ScanAction::ReturnToLayDown, ScanAction::Finish { ok: false }]);
    assert!(!failed.contains(&ScanAction::WriteReport));
    // Cleanup failures are only logged.
    let cleanup_failed = run_scan(false, Some(ScanAction::RestoreTorqueLimits));
    assert_eq!(cleanup_failed[cleanup_failed.len() - 1], ScanAction::Finish { ok: true });
}

#[test]
fn mode_changes_reset_every_control_state_and_drop_unwanted_torque() {
    let torqued = BusLink { open: true, torque_enabled: true };
    assert!(mode_change(BrainMode::Stand, None, true, torqued, torqued).is_none());
    assert!(mode_change(BrainMode::Stand, Some(BrainMode::Stand), true, torqued, torqued).is_none());
    let change = mode_change(BrainMode::Manual, Some(BrainMode::Telemetry), true, torqued, torqued).unwrap();
    assert_eq!(change.mode, BrainMode::Telemetry);
    assert_eq!(change.motion.mode, BrainMode::Telemetry);
    assert!(!change.motion.armed);
    assert!(!change.manual.enabled && !change.arm.enabled && !change.tilted_stand.enabled);
    assert!(change.release_leg_torque && change.release_arm_torque);
    assert_eq!(change.leg_link, BusLink { open: true, torque_enabled: false });
    let change = mode_change(BrainMode::Telemetry, Some(BrainMode::Manual), true, torqued, torqued).unwrap();
    assert!(change.manual.enabled && change.arm.enabled);
    assert!(!change.release_leg_torque && !change.release_arm_torque);
}

#[test]
fn motion_arms_only_after_the_torque_restore() {
    let pose = BTreeMap::from([(1u8, 2000u16)]);
    let mut motion = MotionRuntime::new(BrainMode::Manual);
    let mut manual = ManualControlState::for_mode(BrainMode::Manual);
    assert!(!arm_after_restore(&mut motion, &mut manual, pose.clone(), Err("bus timeout".to_owned())));
    assert!(!motion.armed);
    assert_eq!(motion.summary, "failed to restore torque limit before motion: bus timeout");
    assert!(manual.target_pose.is_none());
    assert!(arm_after_restore(&mut motion, &mut manual, pose.clone(), Ok(())));
    assert!(motion.armed);
    assert_eq!(motion.initial_pose, Some(pose.clone()));
    assert_eq!(manual.target_pose, Some(pose));
}

#[test]
fn live_sync_seeds_from_the_bus_only_without_a_seed() {
    let live = BTreeMap::from([(2u8, 900u16)]);
    let seed = BTreeMap::from([(1u8, 100u16), (2, 200)]);
    let bus = BTreeMap::from([(1u8, 111u16), (2, 222), (3, 333)]);
    assert_eq!(seeded_live_target(Some(seed), Some(bus.clone()), &live), Some(BTreeMap::from([(1, 100), (2, 900)])));
    assert_eq!(seeded_live_target(None, Some(bus), &live), Some(BTreeMap::from([(1, 111), (2, 900), (3, 333)])));
    assert_eq!(seeded_live_target(None, None, &live), None);
}

#[test]
fn arm_tick_drives_pauses_waits_and_reopens() {
    let pose: BTreeMap<u8, u16> = [(21, 2048), (22, 1900)].into_iter().collect();
    // Manual mode without a fault captures the arm pose and drives the arm.
    let mut control = ArmControlState::for_mode(BrainMode::Manual, true);
    let mut error = Some("old".to_owned());
    assert_eq!(arm_tick(BrainMode::Manual, false, false, Some(&pose), 2, &mut control, &mut error), ArmTick::Drive);
    assert_eq!(error, None);
    assert_eq!(control.target_pose.as_ref(), Some(&pose));
    assert_eq!(control.base_pose.as_ref(), Some(&pose));
    assert_eq!(control.summary, "arm control is ready; sliders are relative to the arm pose captured when manual mode armed");
    // A latched fault pauses it.
    assert_eq!(arm_tick(BrainMode::Manual, true, false, Some(&pose), 2, &mut control, &mut error), ArmTick::Idle);
    assert_eq!(control.summary, "arm control paused because a motion safety fault is latched");
    // Without a full pose an enabled arm with no target says what it waits for.
    let mut waiting = ArmControlState::for_mode(BrainMode::Manual, true);
    assert_eq!(arm_tick(BrainMode::Manual, false, false, None, 3, &mut waiting, &mut error), ArmTick::Idle);
    assert_eq!(waiting.summary, "waiting for all 3 arm servo feedback replies before arm control becomes ready");
    assert!(waiting.target_pose.is_none());
    // Outside manual mode the arm is left alone.
    let mut stand = ArmControlState::for_mode(BrainMode::Stand, true);
    let before = stand.summary.clone();
    assert_eq!(arm_tick(BrainMode::Stand, false, false, Some(&pose), 2, &mut stand, &mut error), ArmTick::Idle);
    assert_eq!(stand.summary, before);
    assert!(stand.target_pose.is_none());
    // A dropped link asks for a reopen.
    assert_eq!(arm_tick(BrainMode::Manual, false, true, Some(&pose), 2, &mut control, &mut error), ArmTick::Reopen);
    assert_eq!(error.as_deref(), Some("arm servo bus needs to be reopened"));
    assert_eq!(control.summary, "arm servo bus link dropped; waiting to reopen");
}

#[test]
fn arm_bus_failures_report_error_and_summary() {
    let mut control = ArmControlState::for_mode(BrainMode::Manual, true);
    let mut error = None;
    let before = control.summary.clone();
    arm_bus_failed(&mut control, &mut error, ArmFailure::OpenBus, "no such port");
    assert_eq!(error.as_deref(), Some("failed to open arm servo bus: no such port"));
    assert_eq!(control.summary, before);
    arm_bus_failed(&mut control, &mut error, ArmFailure::EnableTorque, "timeout");
    assert_eq!(error.as_deref(), Some("failed to enable arm torque: timeout"));
    assert_eq!(control.summary, "failed to enable arm servo torque: timeout");
    arm_bus_failed(&mut control, &mut error, ArmFailure::Utility, "busy");
    assert_eq!(error.as_deref(), Some("arm utility failed: busy"));
    assert_eq!(control.summary, "arm utility failed: busy");
    arm_bus_failed(&mut control, &mut error, ArmFailure::SyncWrite, "nack");
    assert_eq!(error.as_deref(), Some("arm sync write failed: nack"));
    assert_eq!(control.summary, "failed to send arm motion commands: nack");
}

fn run_group(fail: Option<GroupAction>) -> Vec<GroupAction> {
    let mut phase = GroupPhase::Start;
    let mut last_ok = true;
    let mut actions = Vec::new();
    loop {
        let (next, action) = sense_group_step(phase, last_ok);
        actions.push(action);
        if let GroupAction::Finish { .. } = action {
            return actions;
        }
        last_ok = Some(action) != fail;
        phase = next;
    }
}

#[test]
fn group_sensing_always_restores_torque_after_sweeping() {
    let cleanup = [GroupAction::DisableTorque, GroupAction::RestoreTorqueLimit, GroupAction::EnableTorque];
    let all_ok = run_group(None);
    assert_eq!(
        all_ok,
        [
            &[GroupAction::LowerTorqueLimit, GroupAction::Sweep { positive: true }, GroupAction::Sweep { positive: false }][..],
            &cleanup[..],
            &[GroupAction::AssembleMeasurements, GroupAction::Finish { ok: true }][..],
        ]
        .concat()
    );
    // A failed positive sweep skips the negative one but still cleans up.
    let failed = run_group(Some(GroupAction::Sweep { positive: true }));
    assert_eq!(
        failed,
        [&[GroupAction::LowerTorqueLimit, GroupAction::Sweep { positive: true }][..], &cleanup[..], &[GroupAction::Finish { ok: false }][..]]
            .concat()
    );
    // A failed negative sweep cleans up and fails without assembling.
    let failed = run_group(Some(GroupAction::Sweep { positive: false }));
    assert_eq!(failed[3..], [cleanup[0], cleanup[1], cleanup[2], GroupAction::Finish { ok: false }]);
    // Failing to lower the limit fails at once.
    assert_eq!(
        run_group(Some(GroupAction::LowerTorqueLimit)),
        vec![GroupAction::LowerTorqueLimit, GroupAction::Finish { ok: false }]
    );
    // A failed cleanup step ends the group there.
    assert_eq!(
        run_group(Some(GroupAction::RestoreTorqueLimit)).last(),
        Some(&GroupAction::Finish { ok: false })
    );
    assert!(!run_group(Some(GroupAction::RestoreTorqueLimit)).contains(&GroupAction::EnableTorque));
}

#[test]
fn trace_log_goes_next_to_the_output_unless_requested() {
    assert_eq!(trace_output_path(Some("logs/scan.log".to_owned()), "out/ranges.toml"), "logs/scan.log");
    assert_eq!(trace_output_path(None, "out/ranges.toml"), "out/ranges.trace.log");
    assert_eq!(trace_output_path(None, "ranges.toml"), "ranges.trace.log");
    assert_eq!(trace_output_path(None, "/"), "./servo-ranges.trace.log");
    assert_eq!(trace_log_directory(None), ".");
    assert_eq!(trace_log_directory(Some("out".to_owned())), "out");
    assert_eq!(trace_log_file_name(Some(String::new())), "servo-ranges.trace.log");
    assert_eq!(trace_log_file_name(Some("left".to_owned())), "left.trace.log");
}
