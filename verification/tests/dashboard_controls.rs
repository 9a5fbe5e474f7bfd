use std::collections::BTreeMap;

use arachno_pilot::config::LegConfig;
use arachno_pilot::groups::{humanize_leg_name, manual_group_infos, manual_group_servo_ids, resolve_manual_group};
use arachno_pilot::manual::{
    arm_readiness, overlay_live_pose, ArmControlState, ManualControlState, ManualRequestError,
};
use arachno_pilot::modes::{BrainMode, ManualTorqueTarget};

fn leg(name: &str, base: u8, tripod_a: bool) -> LegConfig {
    LegConfig {
        name: name.to_owned(),
        coxa_servo_id: base + 1,
        femur_servo_id: base + 2,
        tibia_servo_id: base + 3,
        coxa_forward_sign: 1,
        femur_lift_sign: 1,
        tibia_lift_sign: -1,
        coxa_zero_reference_ticks: 2048,
        femur_zero_reference_ticks: 2048,
        tibia_zero_reference_ticks: 2048,
        tripod_a,
    }
}

fn legs() -> Vec<LegConfig> {
    vec![leg("front_left", 10, true), leg("front_right", 20, false), leg("middle_left", 30, false)]
}

#[test]
fn live_pose_seeding_updates_only_the_selected_servo_targets() {
    let live = BTreeMap::from([(11u8, 1500u16), (13u8, 3700u16)]);
    let target_pose = overlay_live_pose(BTreeMap::from([(11, 1111u16), (12, 2222u16), (13, 3333u16)]), &live);

    assert_eq!(target_pose.get(&11), Some(&1500));
    assert_eq!(target_pose.get(&12), Some(&2222));
    assert_eq!(target_pose.get(&13), Some(&3700));
}

#[test]
fn live_pose_seeding_reads_the_full_pose_when_no_target_seed_exists() {
    let full_live_pose = BTreeMap::from([(21u8, 1800u16), (22u8, 2900u16)]);
    let selected_live = BTreeMap::from([(21u8, 1800u16)]);
    let target_pose = overlay_live_pose(full_live_pose, &selected_live);

    assert_eq!(target_pose, BTreeMap::from([(21, 1800u16), (22, 2900u16)]));
}

#[test]
fn leg_names_are_humanized_word_by_word() {
    assert_eq!(humanize_leg_name("front_left"), "Front Left");
    assert_eq!(humanize_leg_name("rear"), "Rear");
    assert_eq!(humanize_leg_name("middle__right"), "Middle  Right");
    assert_eq!(humanize_leg_name(""), "");
    assert_eq!(humanize_leg_name("_x"), " X");
}

#[test]
fn manual_groups_list_fixed_groups_then_each_leg() {
    let infos = manual_group_infos(&legs());
    assert_eq!(infos.len(), 11);
    let keys: Vec<&str> = infos.iter().map(|i| i.key.as_str()).collect();
    assert_eq!(
        keys,
        vec![
            "all_legs",
            "left_side",
            "right_side",
            "front_pair",
            "middle_pair",
            "rear_pair",
            "tripod_a",
            "tripod_b",
            "leg:front_left",
            "leg:front_right",
            "leg:middle_left"
        ]
    );
    assert_eq!(infos[1].label, "Left side");
    assert_eq!(infos[1].legs, vec!["Front Left".to_owned(), "Middle Left".to_owned()]);
    assert_eq!(infos[3].legs, vec!["Front Left".to_owned(), "Front Right".to_owned()]);
    assert!(infos[5].legs.is_empty());
    assert_eq!(infos[6].legs, vec!["Front Left".to_owned()]);
    assert_eq!(infos[9].label, "Front Right");
    assert_eq!(infos[9].legs, vec!["Front Right".to_owned()]);
}

#[test]
fn manual_group_keys_resolve_to_their_legs() {
    let legs = legs();
    assert_eq!(resolve_manual_group(&legs, "left_side"), Some(("Left side".to_owned(), vec![0, 2])));
    assert_eq!(resolve_manual_group(&legs, "tripod_b"), Some(("Tripod B".to_owned(), vec![1, 2])));
    assert_eq!(resolve_manual_group(&legs, "rear_pair"), None);
    assert_eq!(resolve_manual_group(&legs, "leg:front_right"), Some(("Front Right".to_owned(), vec![1])));
    assert_eq!(resolve_manual_group(&legs, "leg:tail"), None);
    assert_eq!(resolve_manual_group(&legs, "bogus"), None);
    assert_eq!(manual_group_servo_ids(&legs, &[0, 1], ManualTorqueTarget::Femur), vec![12, 22]);
    assert_eq!(manual_group_servo_ids(&legs, &[2], ManualTorqueTarget::All), vec![31, 32, 33]);
}

#[test]
fn manual_requests_are_refused_while_disabled_or_unknown() {
    let legs = legs();
    let mut disabled = ManualControlState::for_mode(BrainMode::Stand);
    assert_eq!(
        disabled.queue_torque_limit(&legs, "all_legs".to_owned(), ManualTorqueTarget::All, 400),
        Err(ManualRequestError::Disabled)
    );
    assert!(disabled.pending_actions.is_empty());

    let mut manual = ManualControlState::for_mode(BrainMode::Manual);
    let before = manual.summary.clone();
    assert_eq!(manual.queue_sync_current(&legs, "rear_pair".to_owned()), Err(ManualRequestError::UnknownGroup));
    assert_eq!(manual.summary, before);
    assert!(manual.pending_actions.is_empty());
}

#[test]
fn queued_manual_actions_are_planned_and_completed() {
    let legs = legs();
    let mut manual = ManualControlState::for_mode(BrainMode::Manual);
    manual.ensure_reference_pose(BrainMode::Manual, &BTreeMap::from([(12u8, 2000u16)]));
    assert_eq!(
        manual.summary,
        "manual control is ready; sliders now reflect the current robot pose as absolute semantic joint angles"
    );

    let summary = manual
        .queue_torque_limit(&legs, "all_legs".to_owned(), ManualTorqueTarget::Femur, 1500)
        .expect("an enabled known group is queued");
    assert_eq!(
        summary,
        "queued torque limit 1000 for All legs (femur only); the control worker will sync current pose first"
    );
    let summary = manual.queue_sync_current(&legs, "leg:front_left".to_owned()).expect("queued");
    assert_eq!(
        summary,
        "queued live target sync for Front Left; the control worker will update the manual target to the current pose"
    );
    assert_eq!(manual.pending_actions.len(), 2);

    let plan = manual.plan_next_action(&legs).expect("known group").expect("an action is queued");
    assert_eq!(plan.group_label, "All legs");
    assert_eq!(plan.servo_ids, vec![12, 22, 32]);
    assert_eq!(plan.torque_limit, Some(1000));
    assert_eq!(plan.seed, Some(BTreeMap::from([(12u8, 2000u16)])));
    let done = manual.complete_action(&plan, BTreeMap::from([(12u8, 2010u16)]));
    assert_eq!(done, "manual utility: synced All legs femur only to the live pose and applied torque limit 1000");
    assert_eq!(manual.target_pose, Some(BTreeMap::from([(12u8, 2010u16)])));

    let plan = manual.plan_next_action(&legs).expect("known group").expect("an action is queued");
    assert_eq!(plan.servo_ids, vec![11, 12, 13]);
    assert_eq!(plan.torque_limit, None);
    let done = manual.complete_action(&plan, BTreeMap::new());
    assert_eq!(done, "manual utility: synced Front Left target to the live pose");
    assert!(manual.plan_next_action(&legs).expect("nothing queued").is_none());
}

#[test]
fn manual_command_pose_prefers_the_target() {
    let mut manual = ManualControlState::for_mode(BrainMode::Manual);
    let fallback = BTreeMap::from([(1u8, 1u16)]);
    assert_eq!(manual.command_pose(fallback.clone()), fallback);
    manual.base_pose = Some(BTreeMap::from([(1u8, 2u16)]));
    assert_eq!(manual.command_pose(fallback.clone()), BTreeMap::from([(1u8, 2u16)]));
    manual.target_pose = Some(BTreeMap::from([(1u8, 3u16)]));
    assert_eq!(manual.command_pose(fallback), BTreeMap::from([(1u8, 3u16)]));
}

#[test]
fn arm_control_captures_its_reference_once() {
    let mut arm = ArmControlState::for_mode(BrainMode::Manual, true);
    let pose = BTreeMap::from([(70u8, 2048u16)]);
    arm.ensure_reference_pose(BrainMode::Manual, &pose);
    assert_eq!(arm.base_pose, Some(pose.clone()));
    assert_eq!(arm.target_pose, Some(pose.clone()));
    assert_eq!(
        arm.summary,
        "arm control is ready; sliders are relative to the arm pose captured when manual mode armed"
    );
    arm.ensure_reference_pose(BrainMode::Manual, &BTreeMap::from([(70u8, 1u16)]));
    assert_eq!(arm.base_pose, Some(pose));

    let unconfigured = ArmControlState::for_mode(BrainMode::Manual, false);
    assert!(!unconfigured.enabled);
    assert_eq!(unconfigured.summary, "arm control is unavailable because this profile does not configure an arm");
    assert!(!ArmControlState::for_mode(BrainMode::Stand, true).enabled);

    assert_eq!(arm_readiness(&arm, 6, 6, None), (true, None));
    assert_eq!(
        arm_readiness(&arm, 5, 6, None),
        (false, Some("5 of 6 configured arm servos replied on the latest sweep".to_owned()))
    );
    assert_eq!(
        arm_readiness(&arm, 5, 6, Some("arm servo bus needs to be reopened".to_owned())),
        (false, Some("arm servo bus needs to be reopened".to_owned()))
    );
}

use arachno_pilot::manual::{
    arm_servo_labels, reset_manual_leg_to_base, resolve_arm_servo, sorted_arm_servos, ArmRequestError, ArmServo,
};

fn arm_servo(servo_id: u8, joint_key: &str, display_name: &str, order: u8) -> ArmServo {
    ArmServo { servo_id, joint_key: joint_key.to_owned(), display_name: display_name.to_owned(), order }
}

#[test]
fn arm_servos_follow_the_configured_joint_order() {
    let joint_order = vec!["base_yaw".to_owned(), "shoulder_pitch".to_owned(), "claw_open_close".to_owned()];
    let servos = vec![
        arm_servo(75, "claw_open_close", "claw", 0),
        arm_servo(72, "shoulder_pitch", "shoulder right", 1),
        arm_servo(71, "shoulder_pitch", "shoulder left", 0),
        arm_servo(79, "wrist_spin", "wrist", 0),
        arm_servo(70, "base_yaw", "base", 0),
    ];
    assert_eq!(sorted_arm_servos(&joint_order, &servos), vec![4, 2, 1, 0, 3]);
    assert_eq!(resolve_arm_servo(&servos, "shoulder_pitch"), Some(1));
    assert_eq!(resolve_arm_servo(&servos, "elbow"), None);
    let labels = arm_servo_labels(&servos);
    assert_eq!(labels[&71], "shoulder left");
    assert_eq!(labels.len(), 5);
}

#[test]
fn arm_requests_need_a_configured_enabled_arm_and_fresh_feedback() {
    let servos = vec![arm_servo(70, "base_yaw", "base", 0)];
    let pose = BTreeMap::from([(70u8, 2048u16)]);
    let mut arm = ArmControlState::for_mode(BrainMode::Manual, true);
    assert_eq!(arm.capture(false, Some(pose.clone())), Err(ArmRequestError::Unconfigured));
    assert_eq!(arm.capture(true, None), Err(ArmRequestError::NoFreshPose));
    assert_eq!(arm.capture(true, Some(pose.clone())).as_deref(), Ok("captured the current arm pose as the arm zero/home"));
    assert_eq!(arm.sync_current(true, Some(BTreeMap::from([(70u8, 2100u16)]))).as_deref(), Ok("arm target synced to the live pose"));
    assert_eq!(arm.base_pose, Some(pose.clone()));
    assert_eq!(arm.target_pose, Some(BTreeMap::from([(70u8, 2100u16)])));
    assert_eq!(arm.reset(true, Some(BTreeMap::new())).as_deref(), Ok("arm target reset to the captured arm zero/home pose"));
    assert_eq!(arm.target_pose, Some(pose.clone()));

    assert_eq!(arm.queue_torque_limit(Some(&servos), "elbow".to_owned(), 300), Err(ArmRequestError::UnknownJoint));
    assert_eq!(
        arm.queue_torque_limit(Some(&servos), "base_yaw".to_owned(), 420).as_deref(),
        Ok("queued torque limit 420 for base; the control worker will sync the live joint pose first")
    );
    let plan = arm.plan_next_action(&servos).expect("known joint").expect("queued");
    assert_eq!(plan.servo_id, 70);
    assert_eq!(plan.torque_limit, 420);
    assert_eq!(plan.seed, Some(pose));
    assert_eq!(
        arm.complete_action(&plan, BTreeMap::from([(70u8, 2060u16)])),
        "arm utility: synced base to the live pose and applied torque limit 420"
    );
    assert_eq!(ArmRequestError::UnknownJoint.status(), 400);
    assert_eq!(ArmRequestError::Disabled.message(), "arm control is disabled; switch the motion mode to manual first");

    let mut idle = ArmControlState::for_mode(BrainMode::Stand, true);
    assert_eq!(idle.sync_current(true, Some(BTreeMap::new())), Err(ArmRequestError::Disabled));
}

#[test]
fn manual_capture_and_reset() {
    let legs = legs();
    let mut manual = ManualControlState::for_mode(BrainMode::Manual);
    assert_eq!(manual.capture(None), Err(ManualRequestError::NoFreshPose));
    let live = BTreeMap::from([(11u8, 1000u16), (12u8, 1100u16), (21u8, 2000u16)]);
    assert_eq!(
        manual.capture(Some(live.clone())).as_deref(),
        Ok("captured the current robot pose as the manual control zero")
    );
    manual.target_pose = Some(BTreeMap::from([(11u8, 1500u16), (12u8, 1600u16), (21u8, 2500u16)]));
    assert_eq!(
        manual.reset(&legs, Some(BTreeMap::new()), Some("leg:front_left".to_owned())).as_deref(),
        Ok("manual target reset to zero for Front Left")
    );
    assert_eq!(manual.target_pose, Some(BTreeMap::from([(11u8, 1000u16), (12u8, 1100u16), (21u8, 2500u16)])));
    assert_eq!(
        manual.reset(&legs, Some(BTreeMap::new()), Some("bogus".to_owned())),
        Err(ManualRequestError::UnknownGroup)
    );
    assert_eq!(manual.reset(&legs, Some(BTreeMap::new()), None).as_deref(), Ok("manual target reset to zero for all legs"));
    assert_eq!(manual.target_pose, Some(live));
    assert_eq!(ManualRequestError::UnknownGroup.status(), 400);
    assert_eq!(ManualRequestError::Disabled.message(), "manual control is disabled; switch the motion mode to manual first");

    let mut target = BTreeMap::from([(11u8, 5u16)]);
    reset_manual_leg_to_base(&mut target, &BTreeMap::from([(12u8, 7u16)]), &legs[0]);
    assert_eq!(target, BTreeMap::from([(11u8, 5u16), (12u8, 7u16)]));
}
