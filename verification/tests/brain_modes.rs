use std::collections::{BTreeMap, VecDeque};

use arachno_pilot::manual::{ArmControlState, ArmHardwareAction, ManualControlState, TiltedStandState};
use arachno_pilot::modes::{
    BrainMode, CoxaHeading, MotionCommand, SemanticPoseKind, SeedPose, TripodLiftMode, TripodMotionKind,
    command_step_ms, fallback_pose_kind, stand_pose_labels,
};
use arachno_pilot::runtime::arm_after_restore;
use arachno_pilot::motion::{
    attitude_trip_reason, body_attitude_step, AttitudeSample, MotionRuntime, BODY_ATTITUDE_STRIKES_TO_TRIP,
};

#[test]
fn manual_motion_command_maps_to_manual_mode() {
    assert_eq!(MotionCommand::Manual.as_brain_mode(), BrainMode::Manual);
}

#[test]
fn syncing_manual_mode_state_reinitializes_manual_control() {
    let mut control = ManualControlState {
        enabled: false,
        base_pose: Some(BTreeMap::from([(11, 2048u16)])),
        target_pose: Some(BTreeMap::from([(11, 2200u16)])),
        summary: "stale".to_owned(),
        pending_actions: Default::default(),
    };

    control = ManualControlState::for_mode(BrainMode::Manual);

    assert!(control.enabled);
    assert!(control.base_pose.is_none());
    assert!(control.target_pose.is_none());
    assert!(control.summary.contains("waiting for the current robot pose"));
}

#[test]
fn syncing_arm_mode_state_reinitializes_arm_control() {
    let mut control = ArmControlState {
        enabled: false,
        base_pose: Some(BTreeMap::from([(70, 2048u16)])),
        target_pose: Some(BTreeMap::from([(70, 2200u16)])),
        summary: "stale".to_owned(),
        pending_actions: VecDeque::from([ArmHardwareAction::SetTorqueLimit {
            joint_key: "base_yaw".to_owned(),
            torque_limit: 420,
        }]),
    };

    control = ArmControlState::for_mode(BrainMode::Manual, true);

    assert!(control.enabled);
    assert!(control.base_pose.is_none());
    assert!(control.target_pose.is_none());
    assert!(control.pending_actions.is_empty());
    assert!(control.summary.contains("current arm pose"));
}

/// Arms `motion` the way the control worker does: take the arming pose,
/// restore the configured torque limit, then arm.
fn arm_from_feedback(
    motion: &mut MotionRuntime,
    manual: &mut ManualControlState,
    servo_ids: &[u8],
    positions: &BTreeMap<u8, Option<u16>>,
    mut before_arm: impl FnMut() -> Result<(), String>,
) -> Result<bool, String> {
    let Some(pose) = motion.arming_pose(servo_ids, positions) else {
        return Ok(false);
    };
    let restored = before_arm();
    let armed = arm_after_restore(motion, manual, pose, restored.clone());
    restored.map(|()| armed)
}

#[test]
fn motion_arming_restores_torque_limit_before_arming() {
    let mut manual = ManualControlState::for_mode(BrainMode::Stand);
    let servo_ids = vec![11, 12];
    let positions = BTreeMap::from([(11, Some(1500u16)), (12, Some(2600u16))]);
    let mut motion = MotionRuntime::new(BrainMode::Stand);
    let mut restore_calls = 0usize;

    let result = arm_from_feedback(&mut motion, &mut manual, &servo_ids, &positions, || {
        restore_calls += 1;
        Ok(())
    })
    .expect("arming should succeed once torque restore succeeds");

    assert!(result);
    assert_eq!(restore_calls, 1);
    assert!(motion.armed);
    assert_eq!(motion.initial_pose, Some(BTreeMap::from([(11, 1500u16), (12, 2600u16)])));
}

#[test]
fn motion_arming_stops_when_torque_restore_fails() {
    let mut manual = ManualControlState::for_mode(BrainMode::Stand);
    let servo_ids = vec![11];
    let positions = BTreeMap::from([(11, Some(1500u16))]);
    let mut motion = MotionRuntime::new(BrainMode::Stand);
    let mut restore_calls = 0usize;

    let err = arm_from_feedback(&mut motion, &mut manual, &servo_ids, &positions, || {
        restore_calls += 1;
        Err("simulated restore failure".to_owned())
    })
    .expect_err("arming should fail when torque restore fails");

    assert_eq!(err, "simulated restore failure");
    assert_eq!(restore_calls, 1);
    assert!(!motion.armed);
    assert!(motion.initial_pose.is_none());
}

#[test]
fn motion_arming_waits_for_every_servo_reply() {
    let mut motion = MotionRuntime::new(BrainMode::Stand);
    let positions = BTreeMap::from([(11, Some(1500u16)), (12, None)]);
    assert_eq!(motion.arming_pose(&[11, 12], &positions), None);
    assert_eq!(motion.summary, "waiting for all 2 servo feedback replies before motion");
    assert!(!motion.armed);
}

#[test]
fn telemetry_mode_never_arms() {
    let mut motion = MotionRuntime::new(BrainMode::Telemetry);
    let positions = BTreeMap::from([(11, Some(1500u16))]);
    assert_eq!(motion.arming_pose(&[11], &positions), None);
    assert_eq!(motion.summary, "observation only; no motion commands are being sent");
}

#[test]
fn stand_up_high_mode_targets_the_high_stand_pose() {
    assert_eq!(BrainMode::StandUpHigh.stand_transition_target(), Some(SemanticPoseKind::StandHigh));
    assert_eq!(BrainMode::StandUpHigh.as_state_label(), "stand_up_high");
}

#[test]
fn stand_up_high_motion_command_maps_to_the_new_mode() {
    assert_eq!(MotionCommand::StandUpHigh.as_brain_mode(), BrainMode::StandUpHigh);
}

#[test]
fn stand_high_mode_targets_the_high_stand_pose() {
    assert_eq!(BrainMode::StandHigh.stand_settle_target(), Some(SemanticPoseKind::StandHigh));
    assert_eq!(BrainMode::StandHigh.as_state_label(), "stand_high");
}

#[test]
fn stand_high_motion_command_maps_to_the_new_mode() {
    assert_eq!(MotionCommand::StandHigh.as_brain_mode(), BrainMode::StandHigh);
}

#[test]
fn stand_high_pose_labels_match_transition_copy() {
    assert_eq!(stand_pose_labels(SemanticPoseKind::StandHigh), ("stand-high", "high stand"));
}

#[test]
fn high_step_walk_motion_commands_map_to_new_modes() {
    assert_eq!(MotionCommand::WalkForwardHigh.as_brain_mode(), BrainMode::SlowWalkHigh);
    assert_eq!(MotionCommand::WalkBackwardHigh.as_brain_mode(), BrainMode::BackwardWalkHigh);
    assert_eq!(MotionCommand::SidewalkLeftHigh.as_brain_mode(), BrainMode::SidewalkLeftHigh);
    assert_eq!(MotionCommand::SidewalkRightHigh.as_brain_mode(), BrainMode::SidewalkRightHigh);
    assert_eq!(MotionCommand::TiltedStand.as_brain_mode(), BrainMode::TiltedStand);
}

#[test]
fn high_step_walk_modes_report_high_step_state_labels() {
    assert_eq!(BrainMode::SlowWalkHigh.as_state_label(), "slow_walk_high");
    assert_eq!(
        BrainMode::SlowWalkHigh.tripod_motion_summary_label().as_deref(),
        Some("high-step forward")
    );
    assert_eq!(
        BrainMode::BackwardWalkHigh.tripod_motion_summary_label().as_deref(),
        Some("high-step backward")
    );
    assert_eq!(
        BrainMode::SidewalkLeftHigh.tripod_motion_summary_label().as_deref(),
        Some("high-step sidewalk left")
    );
    assert_eq!(
        BrainMode::SidewalkRightHigh.tripod_motion_summary_label().as_deref(),
        Some("high-step sidewalk right")
    );
}

#[test]
fn manual_mode_does_not_trip_body_attitude_faults() {
    let sample = AttitudeSample { exceeds_limit: true, accel_near_gravity: true };
    let mut strikes = 0;

    for _ in 0..BODY_ATTITUDE_STRIKES_TO_TRIP {
        assert!(!body_attitude_step(BrainMode::Manual, Some(sample), &mut strikes));
    }

    assert_eq!(strikes, 0);
}

#[test]
fn automatic_modes_still_trip_body_attitude_faults() {
    // A roll of 20.4 degrees against the default 20 degree limit.
    let sample = AttitudeSample { exceeds_limit: true, accel_near_gravity: true };
    let mut strikes = 0;

    for _ in 0..BODY_ATTITUDE_STRIKES_TO_TRIP - 1 {
        assert!(!body_attitude_step(BrainMode::Stand, Some(sample), &mut strikes));
    }

    assert!(
        body_attitude_step(BrainMode::Stand, Some(sample), &mut strikes),
        "stand mode should still trip after consecutive roll strikes"
    );
    let reason = attitude_trip_reason(&format!("body roll {:.1} deg exceeded limit {:.1} deg", 20.4f32, 20.0f32));
    assert!(reason.contains("body roll 20.4 deg exceeded limit 20.0 deg"));
    assert!(reason.contains("3 consecutive samples"));
}

#[test]
fn attitude_strikes_reset_when_the_reading_is_untrusted() {
    let mut strikes = 2;
    let shaken = AttitudeSample { exceeds_limit: true, accel_near_gravity: false };
    assert!(!body_attitude_step(BrainMode::Stand, Some(shaken), &mut strikes));
    assert_eq!(strikes, 0);
    strikes = 2;
    assert!(!body_attitude_step(BrainMode::Stand, None, &mut strikes));
    assert_eq!(strikes, 2);
}

#[test]
fn manual_safety_status_reports_only_bus_and_temperature_monitoring() {
    let motion = MotionRuntime::new(BrainMode::Manual);
    assert_eq!(
        motion.safety_status(true),
        "manual control active; monitoring bus voltage and temperature"
    );
}

#[test]
fn safety_status_reports_the_latched_fault_first() {
    let mut motion = MotionRuntime::new(BrainMode::Stand);
    assert_eq!(motion.safety_status(true), "monitoring roll, pitch, bus voltage, and temperature");
    assert_eq!(motion.safety_status(false), "monitoring bus voltage and temperature");
    motion.trip_fault("servo 11 temperature 71 C exceeded 70 C".to_owned(), None);
    assert_eq!(motion.safety_status(true), "tripped: servo 11 temperature 71 C exceeded 70 C");
    assert_eq!(motion.summary, "motion halted: servo 11 temperature 71 C exceeded 70 C");
}

#[test]
fn the_first_fault_stays_latched() {
    let mut motion = MotionRuntime::new(BrainMode::Stand);
    motion.trip_fault("first".to_owned(), Some(BTreeMap::from([(1, 100u16)])));
    motion.trip_fault("second".to_owned(), Some(BTreeMap::from([(1, 200u16)])));
    assert_eq!(motion.fault.as_deref(), Some("first"));
    assert_eq!(motion.hold_pose, Some(BTreeMap::from([(1, 100u16)])));
}

#[test]
fn new_motion_waits_with_a_mode_specific_summary() {
    assert_eq!(
        MotionRuntime::new(BrainMode::SlowWalk).summary,
        "waiting for all servo feedback before starting the forward gait"
    );
    assert_eq!(
        MotionRuntime::new(BrainMode::StandHigh).summary,
        "waiting for all servo feedback before holding high stand"
    );
    let mut walk = MotionRuntime::new(BrainMode::SidewalkLeftHigh);
    walk.arm(BTreeMap::from([(1, 2048u16)]));
    assert_eq!(walk.summary, "holding the measured stand pose before high-step sidewalk left gait");
}

#[test]
fn stop_holds_the_stand_pose() {
    assert_eq!(MotionCommand::Stop.as_brain_mode(), BrainMode::Stand);
    assert_eq!(MotionCommand::Stand.as_brain_mode(), BrainMode::Stand);
    assert_eq!(MotionCommand::Telemetry.as_brain_mode(), BrainMode::Telemetry);
    assert_eq!(MotionCommand::WalkForward.as_brain_mode(), BrainMode::SlowWalk);
    assert_eq!(MotionCommand::RotateLeft.as_brain_mode(), BrainMode::RotateLeft);
}

#[test]
fn tripod_gait_modes_know_their_lift_and_kind() {
    assert_eq!(BrainMode::SlowWalkHigh.tripod_lift_mode(), Some(TripodLiftMode::HighStep));
    assert_eq!(BrainMode::RotateRight.tripod_lift_mode(), Some(TripodLiftMode::Standard));
    assert_eq!(BrainMode::Stand.tripod_lift_mode(), None);
    assert_eq!(BrainMode::BackwardWalk.tripod_motion_kind(), Some(TripodMotionKind::Backward));
    assert!(BrainMode::SidewalkRight.is_tripod_gait());
    assert!(!BrainMode::Manual.is_tripod_gait());
    assert!(!BrainMode::Manual.enforces_body_attitude_limits());
    assert!(BrainMode::Manual.requires_torque());
    assert!(!BrainMode::Telemetry.requires_torque());
}

#[test]
fn coxa_directions_follow_the_gait() {
    assert_eq!(TripodMotionKind::Forward.coxa_gait_direction_for_leg(true, CoxaHeading::Middle), 1);
    assert_eq!(TripodMotionKind::RotateLeft.coxa_gait_direction_for_leg(true, CoxaHeading::Middle), -1);
    assert_eq!(TripodMotionKind::RotateLeft.coxa_gait_direction_for_leg(false, CoxaHeading::Middle), 1);
    assert_eq!(TripodMotionKind::SidewalkLeft.coxa_gait_direction_for_leg(true, CoxaHeading::Middle), 0);
    assert_eq!(TripodMotionKind::SidewalkRight.coxa_gait_direction_for_leg(true, CoxaHeading::Forward), 1);
    assert_eq!(TripodMotionKind::SidewalkLeft.coxa_gait_direction_for_leg(true, CoxaHeading::Forward), -1);
    assert_eq!(BrainMode::Stand.coxa_gait_direction_for_leg(true, CoxaHeading::Forward), 0);
}

#[test]
fn fallback_poses_follow_the_mode() {
    assert_eq!(fallback_pose_kind(BrainMode::StandUp), SemanticPoseKind::LayDown);
    assert_eq!(fallback_pose_kind(BrainMode::SitDown), SemanticPoseKind::SitDown);
    assert_eq!(fallback_pose_kind(BrainMode::StandHigh), SemanticPoseKind::StandHigh);
    assert_eq!(fallback_pose_kind(BrainMode::SlowWalk), SemanticPoseKind::StandReference);
}

#[test]
fn tilted_stand_state_follows_the_mode() {
    let state = TiltedStandState::for_mode(BrainMode::TiltedStand);
    assert!(state.enabled);
    assert_eq!(
        state.display_summary(true),
        "tilted stand is ready; holding the captured stance until pitch or roll changes"
    );
    assert_eq!(
        state.display_summary(false),
        "waiting for the current robot stance before tilted stand parameters take effect"
    );
    let off = TiltedStandState::for_mode(BrainMode::Stand);
    assert!(!off.enabled);
    assert!(off.display_summary(true).starts_with("tilted stand is disabled"));
}

#[test]
fn seed_poses_and_command_steps() {
    assert_eq!(SeedPose::ZeroPose.as_pose_kind(), SemanticPoseKind::ZeroPose);
    assert_eq!(command_step_ms(50), 20);
    assert_eq!(command_step_ms(0), 1000);
    assert_eq!(command_step_ms(16), 63);
    assert_eq!(command_step_ms(3), 333);
}
