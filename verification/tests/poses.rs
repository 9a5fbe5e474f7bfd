use std::collections::BTreeMap;

use arachno_pilot::config::LegConfig;
use arachno_pilot::poses::{
    body_raise_pose, femur_lift_pose, foot_plant_pose, interpolate_pose, offset_ticks, stand_up_femur_prep_ticks,
    stand_up_tibia_plant_ticks,
};

fn leg(name: &str, base: u8, femur_sign: i16, tibia_sign: i16) -> LegConfig {
    LegConfig {
        name: name.to_owned(),
        coxa_servo_id: base + 1,
        femur_servo_id: base + 2,
        tibia_servo_id: base + 3,
        coxa_forward_sign: 1,
        femur_lift_sign: femur_sign,
        tibia_lift_sign: tibia_sign,
        coxa_zero_reference_ticks: 2000,
        femur_zero_reference_ticks: 2010,
        tibia_zero_reference_ticks: 2020,
        tripod_a: true,
    }
}

#[test]
fn offsets_stay_within_the_servo_range() {
    assert_eq!(offset_ticks(4000, 200), 4095);
    assert_eq!(offset_ticks(10, -20), 0);
    assert_eq!(offset_ticks(2048, -48), 2000);
}

#[test]
fn stand_up_offsets_have_floors() {
    assert_eq!(stand_up_femur_prep_ticks(10), 72);
    assert_eq!(stand_up_femur_prep_ticks(-20), 120);
    assert_eq!(stand_up_tibia_plant_ticks(10), 90);
    assert_eq!(stand_up_tibia_plant_ticks(-30), 150);
}

#[test]
fn stand_up_stages_move_one_joint_per_leg() {
    let legs = vec![leg("front_left", 10, 1, -1), leg("front_right", 20, -1, 1)];
    let lay_down = BTreeMap::from([(22u8, 1500u16), (23u8, 1600u16)]);
    let base = BTreeMap::from([(11u8, 1900u16), (12u8, 2000u16), (13u8, 2000u16)]);

    let femur_lift = femur_lift_pose(&legs, 10, &lay_down, &base);
    assert_eq!(femur_lift, BTreeMap::from([(11, 1900u16), (12, 2072u16), (13, 2000u16), (22, 1428u16)]));

    let foot_plant = foot_plant_pose(&legs, 10, &lay_down, &base, &femur_lift);
    assert_eq!(
        foot_plant,
        BTreeMap::from([(11, 1900u16), (12, 2072u16), (13, 2090u16), (22, 1428u16), (23, 1510u16)])
    );

    let stand = BTreeMap::from([(11u8, 2048u16), (12u8, 1800u16), (21u8, 2100u16)]);
    let raise = body_raise_pose(&legs, &lay_down, &base, &stand);
    assert_eq!(raise, BTreeMap::from([(11, 1900u16), (12, 1800u16), (21, 2000u16)]));
}

#[test]
fn pose_interpolation_covers_both_poses() {
    let start = BTreeMap::from([(1u8, 1000u16), (2u8, 2000u16)]);
    let end = BTreeMap::from([(1u8, 3000u16), (3u8, 500u16)]);
    assert_eq!(
        interpolate_pose(&start, &end, 500),
        BTreeMap::from([(1, 2000u16), (2, 2000u16), (3, 250u16)])
    );
    assert_eq!(interpolate_pose(&start, &end, 0), BTreeMap::from([(1, 1000u16), (2, 2000u16), (3, 0u16)]));
    assert_eq!(interpolate_pose(&start, &end, 1000), BTreeMap::from([(1, 3000u16), (2, 2000u16), (3, 500u16)]));
}

use arachno_pilot::poses::{named_pose, LegPoseTicks};

#[test]
fn named_poses_fall_back_to_zero_angles() {
    let legs = vec![leg("front_left", 10, 1, -1)];
    let resolved = [LegPoseTicks { coxa_ticks: Some(1500), femur_ticks: None, tibia_ticks: Some(2500) }];
    assert_eq!(named_pose(&legs, &resolved), BTreeMap::from([(11, 1500u16), (12, 2010u16), (13, 2500u16)]));
}
