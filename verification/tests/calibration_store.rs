use std::collections::BTreeMap;

use arachno_pilot::config::LegConfig;
use arachno_pilot::semantic::{
    entries_from_list, reload_summary, resolve_calibration_legs, resolve_servo_id_for_joint, CalibrationReferenceKey,
    CalibrationRequestError, SemanticCalibrationState, ServoSemanticCalibrationEntry,
};

fn leg(name: &str, base: u8) -> LegConfig {
    LegConfig {
        name: name.to_owned(),
        coxa_servo_id: base + 1,
        femur_servo_id: base + 2,
        tibia_servo_id: base + 3,
        coxa_forward_sign: 1,
        femur_lift_sign: 1,
        tibia_lift_sign: -1,
        coxa_zero_reference_ticks: 2048,
        femur_zero_reference_ticks: 2048,
        tibia_zero_reference_ticks: 2048,
        tripod_a: true,
    }
}

fn store() -> SemanticCalibrationState {
    SemanticCalibrationState { store_path: Some("calibration/semantic.toml".to_owned()), entries: BTreeMap::new() }
}

#[test]
fn a_captured_reference_reads_back() {
    let mut state = store();
    state.set_reference(12, "front_left", "femur", CalibrationReferenceKey::Zero, 2050);
    state.set_reference(12, "front_left", "femur", CalibrationReferenceKey::Positive, 2600);
    let entry = state.entry(12).expect("the servo has an entry");
    assert_eq!(entry.servo_id, 12);
    assert_eq!(entry.leg_name.as_deref(), Some("front_left"));
    assert_eq!(entry.joint_key.as_deref(), Some("femur"));
    assert_eq!(entry.zero_ticks, Some(2050));
    assert_eq!(entry.positive_ticks, Some(2600));
    assert_eq!(entry.negative_ticks, None);
    assert!(state.entry(13).is_none());
    state.clear_servo(12);
    assert!(state.entry(12).is_none());
}

#[test]
fn calibration_legs_and_joints_resolve_by_name() {
    let legs = vec![leg("front_left", 10), leg("front_right", 20)];
    assert_eq!(resolve_calibration_legs(&legs, "all"), Some(vec![0, 1]));
    assert_eq!(resolve_calibration_legs(&legs, "front_right"), Some(vec![1]));
    assert_eq!(resolve_calibration_legs(&legs, "tail"), None);
    assert_eq!(resolve_servo_id_for_joint(&legs[0], "tibia"), Some(13));
    assert_eq!(resolve_servo_id_for_joint(&legs[0], "knee"), None);
}

#[test]
fn capturing_references_from_the_live_pose() {
    let legs = vec![leg("front_left", 10), leg("front_right", 20)];
    let pose = BTreeMap::from([(11u8, 2000u16), (21u8, 2100u16)]);
    let mut state = store();
    let summary = state
        .capture_reference(&legs, "all", "coxa", CalibrationReferenceKey::Negative, Some(&pose))
        .expect("both coxae have feedback");
    assert_eq!(summary, "captured negative reference for all legs coxa across 2 servo(s)");
    assert_eq!(state.entry(21).and_then(|e| e.negative_ticks), Some(2100));

    let summary = state
        .capture_reference(&legs, "front_left", "coxa", CalibrationReferenceKey::Zero, Some(&pose))
        .expect("front left coxa has feedback");
    assert_eq!(summary, "captured zero reference for Front Left coxa at 2000 ticks");

    assert_eq!(
        state.capture_reference(&legs, "front_left", "femur", CalibrationReferenceKey::Zero, Some(&pose)),
        Err(CalibrationRequestError::NoLiveFeedback)
    );
    assert_eq!(
        state.capture_reference(&legs, "front_left", "knee", CalibrationReferenceKey::Zero, Some(&pose)),
        Err(CalibrationRequestError::UnknownJoint)
    );
    assert_eq!(
        state.capture_reference(&legs, "tail", "coxa", CalibrationReferenceKey::Zero, Some(&pose)),
        Err(CalibrationRequestError::UnknownLeg)
    );
    assert_eq!(
        state.capture_reference(&legs, "all", "coxa", CalibrationReferenceKey::Zero, None),
        Err(CalibrationRequestError::NoFreshPose)
    );
    let mut disabled = SemanticCalibrationState { store_path: None, entries: BTreeMap::new() };
    assert!(!disabled.is_enabled());
    let err = disabled.capture_reference(&legs, "all", "coxa", CalibrationReferenceKey::Zero, Some(&pose)).unwrap_err();
    assert_eq!(err, CalibrationRequestError::StoreDisabled);
    assert_eq!(err.status(), 409);
    assert_eq!(err.message(), "semantic calibration store is disabled for this profile");
    assert_eq!(CalibrationRequestError::UnknownJoint.status(), 400);
}

#[test]
fn a_capture_that_fails_midway_keeps_earlier_legs() {
    let legs = vec![leg("front_left", 10), leg("front_right", 20)];
    let pose = BTreeMap::from([(11u8, 2000u16)]);
    let mut state = store();
    assert_eq!(
        state.capture_reference(&legs, "all", "coxa", CalibrationReferenceKey::Positive, Some(&pose)),
        Err(CalibrationRequestError::NoLiveFeedback)
    );
    assert_eq!(state.entry(11).and_then(|e| e.positive_ticks), Some(2000));
    assert!(state.entry(21).is_none());
}

#[test]
fn clearing_references() {
    let legs = vec![leg("front_left", 10), leg("front_right", 20)];
    let pose = BTreeMap::from([(11u8, 2000u16), (21u8, 2100u16)]);
    let mut state = store();
    state.capture_reference(&legs, "all", "coxa", CalibrationReferenceKey::Zero, Some(&pose)).expect("captured");
    assert_eq!(
        state.clear_reference(&legs, "front_right", "coxa").as_deref(),
        Ok("cleared saved calibration for Front Right coxa")
    );
    assert!(state.entry(21).is_none());
    assert!(state.entry(11).is_some());
    assert_eq!(
        state.clear_reference(&legs, "all", "coxa").as_deref(),
        Ok("cleared saved calibration for all legs coxa across 2 servo(s)")
    );
    assert!(state.entries.is_empty());
    assert_eq!(state.clear_reference(&legs, "all", "hip"), Err(CalibrationRequestError::UnknownJoint));
}

#[test]
fn reloading_keys_entries_by_servo() {
    let entry = |servo_id: u8, zero: u16| ServoSemanticCalibrationEntry {
        servo_id,
        leg_name: None,
        joint_key: None,
        negative_ticks: None,
        zero_ticks: Some(zero),
        positive_ticks: None,
    };
    let entries = entries_from_list(vec![entry(12, 1), entry(11, 2), entry(12, 3)]);
    assert_eq!(entries.len(), 2);
    assert_eq!(entries[&12].zero_ticks, Some(3));
    assert_eq!(entries[&11].zero_ticks, Some(2));
    assert_eq!(
        reload_summary(Some("cal.toml"), 1),
        "reloaded semantic calibration from cal.toml with 1 servo entry"
    );
    assert_eq!(
        reload_summary(None, 3),
        "reloaded semantic calibration from <disabled> with 3 servo entries"
    );
}
