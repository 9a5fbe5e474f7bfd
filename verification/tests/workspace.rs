use arachno_pilot::calibrate::JointRangeMeasurement;
use arachno_pilot::config::LegConfig;
use arachno_pilot::workspace::{
    back_off_from_limit, conservative_ext_limit, with_torque_window, workspace_tick_bounds, MissingStandPose,
    SenseParams, TorqueMode, TorqueWindowError, WorkspaceTickBounds, WorkspaceTorqueLimits,
};
use std::collections::BTreeMap;

#[derive(Debug, Default)]
struct FakeTorqueContext {
    set_calls: Vec<(Vec<u8>, u16, String)>,
    fail_on_call: Option<usize>,
}

fn record_limit(
    context: &mut FakeTorqueContext,
    servo_ids: &[u8],
    torque_limit: u16,
    label: &str,
) -> Result<(), String> {
    let call_index = context.set_calls.len();
    context.set_calls.push((servo_ids.to_vec(), torque_limit, label.to_owned()));

    if context.fail_on_call == Some(call_index) {
        return Err(format!("failed to set torque limit {torque_limit}"));
    }

    Ok(())
}

#[test]
fn workspace_torque_limits_use_probe_for_sensing_and_restore_for_moves() {
    let params = SenseParams {
        probe_torque_limit: 120,
        restore_torque_limit: 640,
        poll_ms: 40,
        stop_speed_ticks: 2,
        confirm_stopped_samples: 2,
        move_timeout_ms: 1_000,
    };

    let torque_limits = WorkspaceTorqueLimits::from(&params);

    assert_eq!(torque_limits.limit_for(TorqueMode::Sense), 120);
    assert_eq!(torque_limits.limit_for(TorqueMode::Move), 640);
    assert_eq!(torque_limits.limit_for(TorqueMode::Hold), 640);
    assert_eq!(torque_limits.limit_for(TorqueMode::TryMove), 120);
}

#[test]
fn with_torque_window_uses_move_then_sensing_limits_around_success() {
    let mut context = FakeTorqueContext::default();

    let result = with_torque_window(
        &mut context,
        &[12, 13],
        700,
        150,
        "raise torque for move",
        "restore torque for sensing",
        record_limit,
        |_| Ok::<_, String>("done"),
    )
    .map_err(TorqueWindowError::into_message)
    .expect("torque window should succeed");

    assert_eq!(result, "done");
    assert_eq!(
        context.set_calls,
        vec![
            (vec![12, 13], 700, "raise torque for move".to_owned()),
            (vec![12, 13], 150, "restore torque for sensing".to_owned()),
        ]
    );
}

#[test]
fn with_torque_window_restores_sensing_limit_after_action_failure() {
    let mut context = FakeTorqueContext::default();

    let err = with_torque_window(
        &mut context,
        &[33],
        600,
        110,
        "raise torque",
        "restore torque",
        record_limit,
        |_| Err::<(), _>("move failed".to_owned()),
    )
    .map_err(TorqueWindowError::into_message)
    .expect_err("action should fail");

    assert!(err.contains("move failed"));
    assert_eq!(
        context.set_calls,
        vec![(vec![33], 600, "raise torque".to_owned()), (vec![33], 110, "restore torque".to_owned())]
    );
}

#[test]
fn with_torque_window_returns_restore_error_after_successful_action() {
    let mut context = FakeTorqueContext { fail_on_call: Some(1), ..FakeTorqueContext::default() };

    let err = with_torque_window(
        &mut context,
        &[42],
        900,
        200,
        "raise torque",
        "restore torque",
        record_limit,
        |_| Ok::<(), String>(()),
    )
    .map_err(TorqueWindowError::into_message)
    .expect_err("restore should fail");

    assert!(err.contains("failed to set torque limit 200"));
    assert_eq!(
        context.set_calls,
        vec![(vec![42], 900, "raise torque".to_owned()), (vec![42], 200, "restore torque".to_owned())]
    );
}

#[test]
fn torque_window_skips_the_action_when_raising_fails() {
    let mut context = FakeTorqueContext { fail_on_call: Some(0), ..FakeTorqueContext::default() };
    let mut ran = false;
    let result = with_torque_window(
        &mut context,
        &[7],
        500,
        100,
        "raise torque",
        "restore torque",
        record_limit,
        |_| {
            ran = true;
            Ok::<(), String>(())
        },
    );
    assert!(matches!(result, Err(TorqueWindowError::Activate(ref e)) if e == "failed to set torque limit 500"));
    assert!(!ran);
    assert_eq!(context.set_calls.len(), 1);
}

#[test]
fn torque_window_reports_both_failures() {
    let mut context = FakeTorqueContext { fail_on_call: Some(1), ..FakeTorqueContext::default() };
    let err = with_torque_window(
        &mut context,
        &[42],
        900,
        200,
        "raise torque",
        "restore torque",
        record_limit,
        |_| Err::<(), _>("move failed".to_owned()),
    )
    .map_err(TorqueWindowError::into_message)
    .expect_err("both should fail");
    assert_eq!(err, "move failed; additionally failed to restore sensing torque: failed to set torque limit 200");
}

#[test]
fn backing_off_moves_toward_the_center_and_stays_in_range() {
    assert_eq!(back_off_from_limit(3000, 2048, 40), 2960);
    assert_eq!(back_off_from_limit(1000, 2048, 40), 1040);
    assert_eq!(back_off_from_limit(2048, 2048, 40), 2048);
    assert_eq!(back_off_from_limit(4090, 4095, 40), 4095);
    assert_eq!(back_off_from_limit(10, 0, 40), 0);
}

#[test]
fn extension_limit_takes_the_nearer_limit_toward_the_mechanical_stop() {
    // Mechanical stop at 1000 backs off to 1040; the floor limit at 1500 is nearer.
    assert_eq!(conservative_ext_limit(1500, 1000, 2000), 1500);
    // The floor limit lies farther than the mechanical one: the mechanical one wins.
    assert_eq!(conservative_ext_limit(500, 1000, 2000), 1040);
    // A floor limit on the other side only contributes its distance.
    assert_eq!(conservative_ext_limit(2300, 1000, 2000), 1700);
}

fn leg() -> LegConfig {
    LegConfig {
        name: "front_left".to_owned(),
        coxa_servo_id: 11,
        femur_servo_id: 12,
        tibia_servo_id: 13,
        coxa_forward_sign: 1,
        femur_lift_sign: 1,
        tibia_lift_sign: -1,
        coxa_zero_reference_ticks: 2048,
        femur_zero_reference_ticks: 2048,
        tibia_zero_reference_ticks: 2048,
        tripod_a: true,
    }
}

fn range(negative: u16, positive: u16, midpoint: u16) -> JointRangeMeasurement {
    JointRangeMeasurement {
        joint: "femur".to_owned(),
        servo_id: 12,
        logical_positive_label: "up".to_owned(),
        logical_negative_end_ticks: negative,
        logical_positive_end_ticks: positive,
        midpoint_ticks: midpoint,
        upper_seventy_percent_ticks: midpoint,
        span_ticks: positive.abs_diff(negative),
    }
}

#[test]
fn workspace_tick_bounds_need_the_stand_pose_of_femur_and_tibia() {
    let femur = range(1000, 3000, 2000);
    let tibia = range(500, 3500, 2000);
    let stand = BTreeMap::from([(12, 2100u16), (13, 1900u16)]);
    assert_eq!(
        workspace_tick_bounds(&leg(), &stand, &femur, &tibia),
        Ok(WorkspaceTickBounds {
            femur_stand_ticks: 2100,
            tibia_stand_ticks: 1900,
            femur_lift_ticks: 2960,
            tibia_retract_ticks: 3460,
        })
    );
    assert_eq!(
        workspace_tick_bounds(&leg(), &BTreeMap::from([(13, 1900u16)]), &femur, &tibia),
        Err(MissingStandPose::Femur(12))
    );
    assert_eq!(
        workspace_tick_bounds(&leg(), &BTreeMap::from([(12, 1900u16)]), &femur, &tibia),
        Err(MissingStandPose::Tibia(13))
    );
}
