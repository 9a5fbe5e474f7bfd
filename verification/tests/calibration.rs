use std::collections::BTreeMap;

use arachno_pilot::calibrate::{
    bound_probe_step, build_suggested_leg_pose, check_joint, check_pose_ticks, eeprom_apply_outcome,
    eeprom_write_for_entry, full_range_target, measurement_report, pose_reached, sense_params_from_request,
    servo_has_stopped, settle_step, suggested_lay_down_ticks, BoundProbeState, EepromApplyError, EepromWrite,
    JointProbe, LegRangeReport, PoseCheck, ServoEepromEntry, ServoMotionSample, ServoRangeMeasurement,
    ServoRegisterWidth, SuggestionError,
};
use arachno_pilot::config::{JointKind, LegConfig};
use arachno_pilot::sensing::{
    assemble_measurements, joint_probes, leg_range_report, place_at_ratio, start_bound_sweep, sweep_poll,
    MissingBound,
};
use arachno_pilot::ticks::interpolate_ticks;
use arachno_pilot::workspace::SenseParams;

fn leg(name: &str, base: u8, femur_sign: i16) -> LegConfig {
    LegConfig {
        name: name.to_owned(),
        coxa_servo_id: base + 1,
        femur_servo_id: base + 2,
        tibia_servo_id: base + 3,
        coxa_forward_sign: 1,
        femur_lift_sign: femur_sign,
        tibia_lift_sign: -1,
        coxa_zero_reference_ticks: 2048,
        femur_zero_reference_ticks: 2048,
        tibia_zero_reference_ticks: 2048,
        tripod_a: true,
    }
}

fn params() -> SenseParams {
    SenseParams {
        probe_torque_limit: 120,
        restore_torque_limit: 640,
        poll_ms: 40,
        stop_speed_ticks: 2,
        confirm_stopped_samples: 2,
        move_timeout_ms: 1_000,
    }
}

fn range(leg: &LegConfig, joint: JointKind, negative: u16, positive: u16) -> ServoRangeMeasurement {
    ServoRangeMeasurement {
        leg_name: leg.name.clone(),
        joint,
        servo_id: match joint {
            JointKind::Coxa => leg.coxa_servo_id,
            JointKind::Femur => leg.femur_servo_id,
            JointKind::Tibia => leg.tibia_servo_id,
        },
        positive_end_ticks: positive,
        negative_end_ticks: negative,
    }
}

#[test]
fn full_range_targets_follow_the_raw_direction() {
    assert_eq!(full_range_target(1), 4095);
    assert_eq!(full_range_target(0), 4095);
    assert_eq!(full_range_target(-1), 0);
}

#[test]
fn sweep_probe_confirms_a_stop_after_motion() {
    let probe = JointProbe { leg_name: "front_left".to_owned(), joint: JointKind::Femur, servo_id: 12, logical_positive_sign: 1 };
    let mut state = BoundProbeState { probe, start_position_ticks: 2048, has_started_motion: false, consecutive_stopped: 0 };
    let p = params();
    // Standing still before any motion is not a stop.
    let idle = ServoMotionSample { present_position_ticks: 2050, present_speed_ticks: 0, moving: false };
    assert!(!bound_probe_step(&mut state, &idle, &p));
    assert!(!state.has_started_motion);
    let moving = ServoMotionSample { present_position_ticks: 2300, present_speed_ticks: 80, moving: true };
    assert!(!bound_probe_step(&mut state, &moving, &p));
    assert!(state.has_started_motion);
    let stopped = ServoMotionSample { present_position_ticks: 2400, present_speed_ticks: -1, moving: true };
    assert!(servo_has_stopped(&stopped, 2));
    assert!(!bound_probe_step(&mut state, &stopped, &p));
    assert!(bound_probe_step(&mut state, &stopped, &p));
    assert_eq!(state.consecutive_stopped, 2);
}

#[test]
fn pose_moves_settle_after_two_close_polls() {
    assert!(pose_reached(&[1000, 2000], &[Some(1010), Some(1982)]));
    assert!(!pose_reached(&[1000, 2000], &[Some(1010), Some(1981)]));
    assert!(!pose_reached(&[1000], &[None]));
    assert_eq!(settle_step(0, true), (1, false));
    assert_eq!(settle_step(1, true), (2, true));
    assert_eq!(settle_step(1, false), (0, false));
    assert_eq!(settle_step(255, true), (255, true));
}

#[test]
fn sense_parameters_are_kept_within_their_floors() {
    let p = sense_params_from_request(0, 0, 10, 3, 0, 5);
    assert_eq!(p.probe_torque_limit, 1);
    assert_eq!(p.restore_torque_limit, 1);
    assert_eq!(p.poll_ms, 40);
    assert_eq!(p.stop_speed_ticks, 3);
    assert_eq!(p.confirm_stopped_samples, 1);
    assert_eq!(p.move_timeout_ms, 1000);
    let q = sense_params_from_request(200, 100, 80, 3, 4, 9000);
    assert_eq!(q.restore_torque_limit, 200);
    assert_eq!(q.poll_ms, 80);
}

#[test]
fn measurement_reports_midpoint_and_upper_seventy_percent() {
    let l = leg("front_left", 10, 1);
    let report = measurement_report(&l, &range(&l, JointKind::Femur, 1000, 3000));
    assert_eq!(report.joint, "femur");
    assert_eq!(report.logical_positive_label, "up");
    assert_eq!(report.servo_id, 12);
    assert_eq!(report.midpoint_ticks, 2000);
    assert_eq!(report.upper_seventy_percent_ticks, 2400);
    assert_eq!(report.span_ticks, 2000);
    let reversed = measurement_report(&l, &range(&l, JointKind::Coxa, 3000, 1001));
    assert_eq!(reversed.joint, "coxa");
    assert_eq!(reversed.logical_positive_label, "forward");
    assert_eq!(reversed.midpoint_ticks, 2001);
    assert_eq!(reversed.span_ticks, 1999);
}

#[test]
fn pose_checks_classify_positions_against_the_range() {
    let l = leg("front_left", 10, 1);
    let m = measurement_report(&l, &range(&l, JointKind::Coxa, 1000, 3000));
    assert_eq!(check_pose_ticks(950, &m), PoseCheck::BelowRange { by_ticks: 50 });
    assert_eq!(check_pose_ticks(3010, &m), PoseCheck::AboveRange { by_ticks: 10 });
    assert_eq!(check_pose_ticks(1015, &m), PoseCheck::NearEdge { edge_distance_ticks: 15 });
    assert_eq!(check_pose_ticks(2000, &m), PoseCheck::Within);
    assert_eq!(
        check_joint(JointKind::Coxa, 2000, 1015, &m),
        (false, PoseCheck::Within, PoseCheck::NearEdge { edge_distance_ticks: 15 }, 1)
    );
    let narrow = measurement_report(&l, &range(&l, JointKind::Coxa, 2000, 2010));
    assert_eq!(check_joint(JointKind::Coxa, 2005, 2005, &narrow).0, true);
    assert_eq!(check_joint(JointKind::Coxa, 2005, 2005, &narrow).3, 3);
}

#[test]
fn lay_down_suggestions_sit_inside_the_nearer_end() {
    let l = leg("front_left", 10, 1);
    let m = measurement_report(&l, &range(&l, JointKind::Femur, 1000, 3000));
    assert_eq!(suggested_lay_down_ticks(&m, 1100), 1160);
    assert_eq!(suggested_lay_down_ticks(&m, 2900), 2840);
    assert_eq!(suggested_lay_down_ticks(&m, 2000), 1160);
}

#[test]
fn interpolation_rounds_to_the_nearest_tick() {
    assert_eq!(interpolate_ticks(1000, 3000, 0), 1000);
    assert_eq!(interpolate_ticks(1000, 3000, 1000), 3000);
    assert_eq!(interpolate_ticks(1000, 3000, 5000), 3000);
    assert_eq!(interpolate_ticks(3000, 1001, 500), 2001);
    assert_eq!(interpolate_ticks(0, 3, 500), 2);
}

#[test]
fn eeprom_entries_map_to_register_writes() {
    let byte = ServoEepromEntry { name: "id".to_owned(), address: 5, width: ServoRegisterWidth::U8, value: 7 };
    assert_eq!(eeprom_write_for_entry(&byte), Some(EepromWrite::U8 { address: 5, byte: 7 }));
    let too_big = ServoEepromEntry { value: 300, ..byte.clone() };
    assert_eq!(eeprom_write_for_entry(&too_big), None);
    let word = ServoEepromEntry { name: "max".to_owned(), address: 9, width: ServoRegisterWidth::U16, value: 4095 };
    assert_eq!(eeprom_write_for_entry(&word), Some(EepromWrite::U16 { address: 9, word: 4095 }));
}

#[test]
fn eeprom_apply_keeps_every_error() {
    assert!(matches!(eeprom_apply_outcome::<String>(Ok(()), Ok(())), Ok(())));
    assert!(matches!(eeprom_apply_outcome(Err("write".to_owned()), Ok(())), Err(EepromApplyError::Apply(e)) if e == "write"));
    assert!(matches!(eeprom_apply_outcome(Ok(()), Err("lock".to_owned())), Err(EepromApplyError::Relock(e)) if e == "lock"));
    assert!(matches!(
        eeprom_apply_outcome(Err("write".to_owned()), Err("lock".to_owned())),
        Err(EepromApplyError::ApplyAndRelock(a, b)) if a == "write" && b == "lock"
    ));
}

#[test]
fn suggested_leg_pose_uses_measured_ranges() {
    let l = leg("front_left", 10, 1);
    let report = LegRangeReport {
        name: l.name.clone(),
        coxa: Some(measurement_report(&l, &range(&l, JointKind::Coxa, 1500, 2500))),
        femur: Some(measurement_report(&l, &range(&l, JointKind::Femur, 1000, 3000))),
        tibia: Some(measurement_report(&l, &range(&l, JointKind::Tibia, 3000, 1000))),
    };
    let lay_down = BTreeMap::from([(11, 1510u16), (12, 2990u16), (13, 2900u16)]);
    let pose = build_suggested_leg_pose(&l, &report, &lay_down).expect("all ranges are present");
    assert_eq!(pose.coxa_stand_reference_ticks, 2000);
    assert_eq!(pose.femur_stand_reference_ticks, 1800);
    assert_eq!(pose.tibia_stand_reference_ticks, 1800);
    assert_eq!(pose.coxa_lay_down_ticks, 1580);
    assert_eq!(pose.femur_lay_down_ticks, 2840);
    assert_eq!(pose.tibia_lay_down_ticks, 2840);

    let missing = LegRangeReport { femur: None, ..report.clone() };
    assert!(matches!(
        build_suggested_leg_pose(&l, &missing, &lay_down),
        Err(SuggestionError::MissingRange(JointKind::Femur))
    ));
    let partial_lay = BTreeMap::from([(11, 1510u16), (12, 2990u16)]);
    assert!(matches!(
        build_suggested_leg_pose(&l, &report, &partial_lay),
        Err(SuggestionError::MissingLayDownPose(JointKind::Tibia))
    ));
}

#[test]
fn sweeps_start_from_the_current_pose_and_drive_to_the_ends() {
    let legs = vec![leg("front_left", 10, 1), leg("front_right", 20, -1)];
    let probes = joint_probes(&legs, JointKind::Femur);
    assert_eq!(probes.iter().map(|p| p.servo_id).collect::<Vec<_>>(), vec![12, 22]);
    assert_eq!(probes[1].logical_positive_sign, -1);

    let mut pose = BTreeMap::from([(12, 2000u16), (22, 2100u16), (13, 1500u16)]);
    let states = start_bound_sweep(&mut pose, &probes, 1).expect("every probe has a start position");
    assert_eq!(states[0].start_position_ticks, 2000);
    assert_eq!(states[1].start_position_ticks, 2100);
    assert_eq!(pose, BTreeMap::from([(12, 4095u16), (22, 0u16), (13, 1500u16)]));

    let mut unplaced = BTreeMap::from([(12, 2000u16)]);
    assert_eq!(start_bound_sweep(&mut unplaced, &probes, -1).err(), Some(22));
    assert_eq!(unplaced, BTreeMap::from([(12, 2000u16)]));
}

#[test]
fn sweep_polls_report_servos_that_stopped() {
    let legs = vec![leg("front_left", 10, 1), leg("front_right", 20, 1)];
    let probes = joint_probes(&legs, JointKind::Tibia);
    let mut pose = BTreeMap::from([(13, 2000u16), (23, 2000u16)]);
    let mut states = start_bound_sweep(&mut pose, &probes, 1).expect("placed");
    let mut p = params();
    p.confirm_stopped_samples = 1;
    let samples = [
        ServoMotionSample { present_position_ticks: 2600, present_speed_ticks: 0, moving: false },
        ServoMotionSample { present_position_ticks: 2001, present_speed_ticks: 0, moving: false },
    ];
    let finished = sweep_poll(&mut states, &samples, &p);
    assert_eq!(finished, vec![(13, 2600)]);
    assert!(states[0].has_started_motion);
    assert!(!states[1].has_started_motion);
}

#[test]
fn measured_groups_are_placed_along_their_ranges() {
    let l = leg("front_left", 10, 1);
    let mut pose = BTreeMap::from([(12, 100u16)]);
    place_at_ratio(&mut pose, &[range(&l, JointKind::Femur, 1000, 3000), range(&l, JointKind::Tibia, 3000, 1000)], 700);
    assert_eq!(pose, BTreeMap::from([(12, 2400u16), (13, 1600u16)]));
}

#[test]
fn measurements_need_both_sweep_stops() {
    let l = leg("front_left", 10, 1);
    let probes = joint_probes(std::slice::from_ref(&l), JointKind::Femur);
    let positive = BTreeMap::from([(12, 3000u16)]);
    let negative = BTreeMap::from([(12, 1000u16)]);
    let measured = assemble_measurements(&probes, &positive, &negative).expect("both stops");
    assert_eq!(measured.len(), 1);
    assert_eq!(measured[0].positive_end_ticks, 3000);
    assert_eq!(measured[0].negative_end_ticks, 1000);
    assert_eq!(measured[0].leg_name, "front_left");
    assert_eq!(
        assemble_measurements(&probes, &positive, &BTreeMap::new()).err(),
        Some(MissingBound { servo_id: 12, positive: false })
    );
    assert_eq!(
        assemble_measurements(&probes, &BTreeMap::new(), &negative).err(),
        Some(MissingBound { servo_id: 12, positive: true })
    );
}

#[test]
fn range_reports_use_the_last_measurement_of_each_leg() {
    let l = leg("front_left", 10, 1);
    let other = leg("rear_left", 40, 1);
    let coxae = vec![range(&l, JointKind::Coxa, 1000, 1200), range(&other, JointKind::Coxa, 1, 2), range(&l, JointKind::Coxa, 1500, 2500)];
    let report = leg_range_report(&l, &[], &[range(&l, JointKind::Femur, 1000, 3000)], &coxae);
    assert_eq!(report.name, "front_left");
    assert_eq!(report.coxa.as_ref().map(|c| c.midpoint_ticks), Some(2000));
    assert_eq!(report.femur.as_ref().map(|f| f.upper_seventy_percent_ticks), Some(2400));
    assert!(report.tibia.is_none());
}
