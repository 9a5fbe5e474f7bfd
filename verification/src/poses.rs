use vstd::prelude::*;
use std::collections::BTreeMap;
use crate::config::{JointKind, LegConfig, servo_id_for_joint, sign_for_joint, spec_servo_id_for_joint, spec_sign_for_joint};
use crate::ticks::{clamp_ticks, interpolate_ticks, spec_interpolate_ticks};

verus! {

broadcast use vstd::std_specs::btree::group_btree_axioms;

/// `start_ticks` moved by `delta_ticks`, kept within `0..=4095`.
pub fn offset_ticks(start_ticks: u16, delta_ticks: i16) -> (ticks: u16)
    ensures
        ticks == clamp_ticks(start_ticks + delta_ticks),
{
    let sum: i32 = start_ticks as i32 + delta_ticks as i32;
    if sum < 0 {
        0
    } else if sum > 4095 {
        4095
    } else {
        sum as u16
    }
}

/// The absolute value of `ticks`, but at least `floor`.
pub open spec fn magnitude_at_least(ticks: i16, floor: int) -> int {
    let a: int = if ticks < 0 { -ticks } else { ticks as int };
    if a < floor { floor } else { a }
}

/// How far the femurs rise while the feet are unloaded at the start of a
/// stand-up: six times the tripod femur lift, and at least 72 ticks.
pub fn stand_up_femur_prep_ticks(femur_lift_ticks: i16) -> (ticks: i16)
    requires
        -5461 <= femur_lift_ticks <= 5461,
    ensures
        ticks == magnitude_at_least(femur_lift_ticks, 12) * 6,
{
    let a: i16 = if femur_lift_ticks < 0 { -femur_lift_ticks } else { femur_lift_ticks };
    let m: i16 = if a < 12 { 12 } else { a };
    m * 6
}

/// How far the tibias turn down to plant the feet during a stand-up: five
/// times the tripod tibia lift, and at least 90 ticks.
pub fn stand_up_tibia_plant_ticks(tibia_lift_ticks: i16) -> (ticks: i16)
    requires
        -6553 <= tibia_lift_ticks <= 6553,
    ensures
        ticks == magnitude_at_least(tibia_lift_ticks, 18) * 5,
{
    let a: i16 = if tibia_lift_ticks < 0 { -tibia_lift_ticks } else { tibia_lift_ticks };
    let m: i16 = if a < 18 { 18 } else { a };
    m * 5
}

/// The configured zero-angle position of `joint` on `leg`.
pub open spec fn spec_zero_reference_ticks(leg: LegConfig, joint: JointKind) -> u16 {
    match joint {
        JointKind::Coxa => leg.coxa_zero_reference_ticks,
        JointKind::Femur => leg.femur_zero_reference_ticks,
        JointKind::Tibia => leg.tibia_zero_reference_ticks,
    }
}

/// Where `joint` of `leg` starts from: its position in `base`, else in
/// `lay_down`, else its zero-angle position.
pub open spec fn joint_source_ticks(base: Map<u8, u16>, lay_down: Map<u8, u16>, leg: LegConfig, joint: JointKind) -> u16 {
    let id = spec_servo_id_for_joint(leg, joint);
    if base.contains_key(id) {
        base[id]
    } else if lay_down.contains_key(id) {
        lay_down[id]
    } else {
        spec_zero_reference_ticks(leg, joint)
    }
}

/// The new position of `joint` of `leg`: its source position, moved by
/// `signed_ticks` in the joint's logical direction when given.
pub open spec fn joint_target(
    base: Map<u8, u16>,
    lay_down: Map<u8, u16>,
    leg: LegConfig,
    joint: JointKind,
    signed_ticks: Option<i16>,
) -> u16 {
    let source = joint_source_ticks(base, lay_down, leg, joint);
    match signed_ticks {
        None => source,
        Some(t) => clamp_ticks(source + spec_sign_for_joint(leg, joint) * t) as u16,
    }
}

/// `start` with `joint` of every leg set to its target, legs in order (a
/// later leg wins where two share a servo).
pub open spec fn spec_overlay_joint(
    start: Map<u8, u16>,
    legs: Seq<LegConfig>,
    joint: JointKind,
    base: Map<u8, u16>,
    lay_down: Map<u8, u16>,
    signed_ticks: Option<i16>,
) -> Map<u8, u16>
    decreases legs.len(),
{
    if legs.len() == 0 {
        start
    } else {
        let leg = legs.last();
        spec_overlay_joint(start, legs.drop_last(), joint, base, lay_down, signed_ticks).insert(
            spec_servo_id_for_joint(leg, joint),
            joint_target(base, lay_down, leg, joint, signed_ticks),
        )
    }
}

/// The signed offset of every leg fits a tick delta.
pub open spec fn offsets_fit(legs: Seq<LegConfig>, joint: JointKind, signed_ticks: Option<i16>) -> bool {
    signed_ticks matches Some(t) ==> forall|i: int| 0 <= i < legs.len() ==>
        -32768 <= #[trigger] spec_sign_for_joint(legs[i], joint) * t <= 32767
}

/// Sets `joint` of every leg in `pose` to its target.
fn overlay_joint(
    pose: &mut BTreeMap<u8, u16>,
    legs: &[LegConfig],
    joint: JointKind,
    base: &BTreeMap<u8, u16>,
    lay_down: &BTreeMap<u8, u16>,
    signed_ticks: Option<i16>,
)
    requires
        offsets_fit(legs@, joint, signed_ticks),
    ensures
        final(pose)@ == spec_overlay_joint(old(pose)@, legs@, joint, base@, lay_down@, signed_ticks),
{
    let ghost start = old(pose)@;
    let mut i: usize = 0;
    while i < legs.len()
        invariant
            i <= legs@.len(),
            offsets_fit(legs@, joint, signed_ticks),
            pose@ == spec_overlay_joint(start, legs@.subrange(0, i as int), joint, base@, lay_down@, signed_ticks),
        decreases legs@.len() - i,
    {
        let leg = &legs[i];
        let id = servo_id_for_joint(leg, joint);
        let source: u16 = match base.get(&id) {
            Some(t) => *t,
            None => match lay_down.get(&id) {
                Some(t) => *t,
                None => match joint {
                    JointKind::Coxa => leg.coxa_zero_reference_ticks,
                    JointKind::Femur => leg.femur_zero_reference_ticks,
                    JointKind::Tibia => leg.tibia_zero_reference_ticks,
                },
            },
        };
        let target: u16 = match signed_ticks {
            None => source,
            Some(t) => {
                let sign = sign_for_joint(leg, joint);
                proof {
                    assert(-32768 <= spec_sign_for_joint(legs@[i as int], joint) * t <= 32767);
                }
                offset_ticks(source, sign * t)
            },
        };
        pose.insert(id, target);
        proof {
            assert(legs@.subrange(0, i + 1).drop_last() =~= legs@.subrange(0, i as int));
            assert(legs@.subrange(0, i + 1).last() == legs@[i as int]);
        }
        i = i + 1;
    }
    proof {
        assert(legs@.subrange(0, legs@.len() as int) =~= legs@);
    }
}

/// The first stand-up stage: `base` with every femur raised by the prep
/// offset derived from the tripod femur lift, so the tibia joints come off
/// the ground.
pub fn femur_lift_pose(
    legs: &[LegConfig],
    tripod_femur_lift_ticks: i16,
    lay_down: &BTreeMap<u8, u16>,
    base: &BTreeMap<u8, u16>,
) -> (pose: BTreeMap<u8, u16>)
    requires
        -5461 <= tripod_femur_lift_ticks <= 5461,
        offsets_fit(legs@, JointKind::Femur, Some((magnitude_at_least(tripod_femur_lift_ticks, 12) * 6) as i16)),
    ensures
        pose@ == spec_overlay_joint(
            base@,
            legs@,
            JointKind::Femur,
            base@,
            lay_down@,
            Some((magnitude_at_least(tripod_femur_lift_ticks, 12) * 6) as i16),
        ),
{
    let femur_ticks = stand_up_femur_prep_ticks(tripod_femur_lift_ticks);
    let mut pose = base.clone();
    overlay_joint(&mut pose, legs, JointKind::Femur, base, lay_down, Some(femur_ticks));
    pose
}

/// The second stand-up stage: `femur_lift` with every tibia turned down by
/// the plant offset derived from the tripod tibia lift, planting the feet.
pub fn foot_plant_pose(
    legs: &[LegConfig],
    tripod_tibia_lift_ticks: i16,
    lay_down: &BTreeMap<u8, u16>,
    base: &BTreeMap<u8, u16>,
    femur_lift: &BTreeMap<u8, u16>,
) -> (pose: BTreeMap<u8, u16>)
    requires
        -6553 <= tripod_tibia_lift_ticks <= 6553,
        offsets_fit(legs@, JointKind::Tibia, Some((-(magnitude_at_least(tripod_tibia_lift_ticks, 18) * 5)) as i16)),
    ensures
        pose@ == spec_overlay_joint(
            femur_lift@,
            legs@,
            JointKind::Tibia,
            base@,
            lay_down@,
            Some((-(magnitude_at_least(tripod_tibia_lift_ticks, 18) * 5)) as i16),
        ),
{
    let tibia_ticks = stand_up_tibia_plant_ticks(tripod_tibia_lift_ticks);
    let down: i16 = -tibia_ticks;
    let mut pose = femur_lift.clone();
    overlay_joint(&mut pose, legs, JointKind::Tibia, base, lay_down, Some(down));
    pose
}

/// The third stand-up stage: the stand pose with every coxa kept where it
/// started, so the body rises before the coxae swing into place.
pub fn body_raise_pose(
    legs: &[LegConfig],
    lay_down: &BTreeMap<u8, u16>,
    base: &BTreeMap<u8, u16>,
    stand_reference: &BTreeMap<u8, u16>,
) -> (pose: BTreeMap<u8, u16>)
    ensures
        pose@ == spec_overlay_joint(stand_reference@, legs@, JointKind::Coxa, base@, lay_down@, None),
{
    let mut pose = stand_reference.clone();
    overlay_joint(&mut pose, legs, JointKind::Coxa, base, lay_down, None);
    pose
}

/// The position of `id` between `start` and `end` at `ratio_permille`: a
/// servo missing from `start` starts at 0, and one missing from `end` stays
/// where it starts.
pub open spec fn interpolated_entry(start: Map<u8, u16>, end: Map<u8, u16>, id: u8, ratio_permille: u16) -> u16 {
    let s: int = if start.contains_key(id) { start[id] as int } else { 0 };
    let e: int = if end.contains_key(id) { end[id] as int } else { s };
    spec_interpolate_ticks(s, e, ratio_permille as int) as u16
}

/// The pose `ratio_permille / 1000` of the way from `start` to `end` (the
/// ratio is capped at one), over every servo of either pose.
pub fn interpolate_pose(start: &BTreeMap<u8, u16>, end: &BTreeMap<u8, u16>, ratio_permille: u16) -> (pose: BTreeMap<u8, u16>)
    ensures
        pose@.dom() == start@.dom().union(end@.dom()),
        forall|id: u8| #[trigger] pose@.contains_key(id) ==> pose@[id] == interpolated_entry(start@, end@, id, ratio_permille),
{
    let mut pose: BTreeMap<u8, u16> = BTreeMap::new();
    let mut next: u16 = 0;
    while next < 256
        invariant
            next <= 256,
            forall|id: u8| #[trigger] pose@.contains_key(id) <==> (id < next && (start@.contains_key(id) || end@.contains_key(id))),
            forall|id: u8| #[trigger] pose@.contains_key(id) ==> pose@[id] == interpolated_entry(start@, end@, id, ratio_permille),
        decreases 256 - next,
    {
        let id = next as u8;
        let from: Option<u16> = match start.get(&id) {
            Some(t) => Some(*t),
            None => None,
        };
        let to: Option<u16> = match end.get(&id) {
            Some(t) => Some(*t),
            None => None,
        };
        if from.is_some() || to.is_some() {
            let s: u16 = match from {
                Some(t) => t,
                None => 0,
            };
            let e: u16 = match to {
                Some(t) => t,
                None => s,
            };
            let ticks = interpolate_ticks(s, e, ratio_permille);
            pose.insert(id, ticks);
        }
        next = next + 1;
    }
    proof {
        assert(pose@.dom() =~= start@.dom().union(end@.dom()));
    }
    pose
}

/// The positions a named pose asks of one leg's joints; a joint without a
/// usable calibration has none.
#[derive(Clone, Copy, Debug, PartialEq, Eq, Structural)]
pub struct LegPoseTicks {
    pub coxa_ticks: Option<u16>,
    pub femur_ticks: Option<u16>,
    pub tibia_ticks: Option<u16>,
}

/// A requested position, else the joint's zero-angle position.
pub open spec fn or_zero(ticks: Option<u16>, leg: LegConfig, joint: JointKind) -> u16 {
    match ticks {
        Some(t) => t,
        None => spec_zero_reference_ticks(leg, joint),
    }
}

/// The pose over every leg servo: each joint at its requested position, or
/// at its zero-angle position when none could be resolved; legs in order.
pub open spec fn spec_named_pose(legs: Seq<LegConfig>, resolved: Seq<LegPoseTicks>) -> Map<u8, u16>
    decreases legs.len(),
{
    if legs.len() == 0 || resolved.len() < legs.len() {
        Map::empty()
    } else {
        let last = legs.len() - 1;
        let leg = legs[last];
        let r = resolved[last];
        spec_named_pose(legs.drop_last(), resolved.subrange(0, last))
            .insert(leg.coxa_servo_id, or_zero(r.coxa_ticks, leg, JointKind::Coxa))
            .insert(leg.femur_servo_id, or_zero(r.femur_ticks, leg, JointKind::Femur))
            .insert(leg.tibia_servo_id, or_zero(r.tibia_ticks, leg, JointKind::Tibia))
    }
}

/// Assembles a named pose from the positions resolved for each leg
/// (`resolved[i]` for `legs[i]`).
pub fn named_pose(legs: &[LegConfig], resolved: &[LegPoseTicks]) -> (pose: BTreeMap<u8, u16>)
    requires
        resolved@.len() == legs@.len(),
    ensures
        pose@ == spec_named_pose(legs@, resolved@),
{
    let mut pose: BTreeMap<u8, u16> = BTreeMap::new();
    let mut i: usize = 0;
    while i < legs.len()
        invariant
            i <= legs@.len(),
            resolved@.len() == legs@.len(),
            pose@ == spec_named_pose(legs@.subrange(0, i as int), resolved@.subrange(0, i as int)),
        decreases legs@.len() - i,
    {
        let leg = &legs[i];
        let r = resolved[i];
        let coxa = match r.coxa_ticks {
            Some(t) => t,
            None => leg.coxa_zero_reference_ticks,
        };
        let femur = match r.femur_ticks {
            Some(t) => t,
            None => leg.femur_zero_reference_ticks,
        };
        let tibia = match r.tibia_ticks {
            Some(t) => t,
            None => leg.tibia_zero_reference_ticks,
        };
        pose.insert(leg.coxa_servo_id, coxa);
        pose.insert(leg.femur_servo_id, femur);
        pose.insert(leg.tibia_servo_id, tibia);
        proof {
            assert(legs@.subrange(0, i + 1).drop_last() =~= legs@.subrange(0, i as int));
            assert(resolved@.subrange(0, i + 1).subrange(0, i as int) =~= resolved@.subrange(0, i as int));
            assert(legs@.subrange(0, i + 1)[i as int] == legs@[i as int]);
            assert(resolved@.subrange(0, i + 1)[i as int] == resolved@[i as int]);
        }
        i = i + 1;
    }
    proof {
        assert(legs@.subrange(0, legs@.len() as int) =~= legs@);
        assert(resolved@.subrange(0, resolved@.len() as int) =~= resolved@);
    }
    pose
}

} // verus!
