use vstd::prelude::*;

verus! {

/// The servo layout of one leg: its name, the bus ids of its three joint
/// servos, the direction signs that map a positive semantic angle onto
/// servo ticks, the positions at which each joint sits at its zero angle,
/// and which of the two alternating tripods the leg walks with.
#[derive(Clone, Debug)]
pub struct LegConfig {
    pub name: String,
    pub coxa_servo_id: u8,
    pub femur_servo_id: u8,
    pub tibia_servo_id: u8,
    pub coxa_forward_sign: i16,
    pub femur_lift_sign: i16,
    pub tibia_lift_sign: i16,
    pub coxa_zero_reference_ticks: u16,
    pub femur_zero_reference_ticks: u16,
    pub tibia_zero_reference_ticks: u16,
    pub tripod_a: bool,
}

/// The three joints of a leg.
#[derive(Clone, Copy, Debug, PartialEq, Eq, Structural)]
pub enum JointKind {
    Coxa,
    Femur,
    Tibia,
}

/// The servo ids of the legs in configuration order: coxa, femur and tibia of
/// the first leg, then those of the next leg, and so on.
pub open spec fn spec_all_servo_ids(legs: Seq<LegConfig>) -> Seq<u8>
    decreases legs.len(),
{
    if legs.len() == 0 {
        Seq::empty()
    } else {
        let leg = legs.last();
        spec_all_servo_ids(legs.drop_last()).push(leg.coxa_servo_id).push(leg.femur_servo_id).push(
            leg.tibia_servo_id,
        )
    }
}

/// The servo id that drives `joint` on `leg`.
pub open spec fn spec_servo_id_for_joint(leg: LegConfig, joint: JointKind) -> u8 {
    match joint {
        JointKind::Coxa => leg.coxa_servo_id,
        JointKind::Femur => leg.femur_servo_id,
        JointKind::Tibia => leg.tibia_servo_id,
    }
}

/// The sign that makes `joint` move in its logical positive direction
/// (forward for the coxa, up for femur and tibia).
pub open spec fn spec_sign_for_joint(leg: LegConfig, joint: JointKind) -> i16 {
    match joint {
        JointKind::Coxa => leg.coxa_forward_sign,
        JointKind::Femur => leg.femur_lift_sign,
        JointKind::Tibia => leg.tibia_lift_sign,
    }
}

/// The servo id that drives `joint` on `leg`.
pub fn servo_id_for_joint(leg: &LegConfig, joint: JointKind) -> (id: u8)
    ensures
        id == spec_servo_id_for_joint(*leg, joint),
{
    match joint {
        JointKind::Coxa => leg.coxa_servo_id,
        JointKind::Femur => leg.femur_servo_id,
        JointKind::Tibia => leg.tibia_servo_id,
    }
}

/// The sign of the logical positive direction of `joint` on `leg`.
pub fn sign_for_joint(leg: &LegConfig, joint: JointKind) -> (sign: i16)
    ensures
        sign == spec_sign_for_joint(*leg, joint),
{
    match joint {
        JointKind::Coxa => leg.coxa_forward_sign,
        JointKind::Femur => leg.femur_lift_sign,
        JointKind::Tibia => leg.tibia_lift_sign,
    }
}

/// All servo ids of the legs, three per leg, in configuration order.
pub fn all_servo_ids(legs: &[LegConfig]) -> (ids: Vec<u8>)
    requires
        legs@.len() * 3 <= usize::MAX,
    ensures
        ids@ == spec_all_servo_ids(legs@),
        ids@.len() == legs@.len() * 3,
{
    let mut ids: Vec<u8> = Vec::new();
    let mut i: usize = 0;
    while i < legs.len()
        invariant
            i <= legs@.len(),
            ids@ == spec_all_servo_ids(legs@.subrange(0, i as int)),
            ids@.len() == i * 3,
        decreases legs@.len() - i,
    {
        let leg = &legs[i];
        ids.push(leg.coxa_servo_id);
        ids.push(leg.femur_servo_id);
        ids.push(leg.tibia_servo_id);
        proof {
            assert(legs@.subrange(0, i + 1).drop_last() =~= legs@.subrange(0, i as int));
        }
        i = i + 1;
    }
    proof {
        assert(legs@.subrange(0, legs@.len() as int) =~= legs@);
    }
    ids
}

/// The joint `servo_id` drives on `leg`, if any; a servo listed for several
/// joints counts as the first of coxa, femur and tibia.
pub open spec fn spec_joint_of_servo(leg: LegConfig, servo_id: u8) -> Option<JointKind> {
    if leg.coxa_servo_id == servo_id {
        Some(JointKind::Coxa)
    } else if leg.femur_servo_id == servo_id {
        Some(JointKind::Femur)
    } else if leg.tibia_servo_id == servo_id {
        Some(JointKind::Tibia)
    } else {
        None
    }
}

/// The first leg that drives `servo_id`, and which joint it drives there.
pub open spec fn spec_find_servo(legs: Seq<LegConfig>, servo_id: u8) -> Option<(int, JointKind)>
    decreases legs.len(),
{
    if legs.len() == 0 {
        None
    } else {
        match spec_find_servo(legs.drop_last(), servo_id) {
            Some(found) => Some(found),
            None => match spec_joint_of_servo(legs.last(), servo_id) {
                Some(joint) => Some((legs.len() - 1, joint)),
                None => None,
            },
        }
    }
}

/// A servo found in a prefix of the legs is found at the same place among
/// all of them.
proof fn lemma_find_servo_prefix(legs: Seq<LegConfig>, servo_id: u8, n: int)
    requires
        0 <= n <= legs.len(),
        spec_find_servo(legs.subrange(0, n), servo_id) is Some,
    ensures
        spec_find_servo(legs, servo_id) == spec_find_servo(legs.subrange(0, n), servo_id),
    decreases legs.len() - n,
{
    if n == legs.len() {
        assert(legs.subrange(0, n) =~= legs);
    } else {
        assert(legs.subrange(0, n + 1).drop_last() =~= legs.subrange(0, n));
        lemma_find_servo_prefix(legs, servo_id, n + 1);
    }
}

/// The first leg that drives `servo_id` (its index) and the joint it drives.
pub fn find_servo(legs: &[LegConfig], servo_id: u8) -> (found: Option<(usize, JointKind)>)
    ensures
        match found {
            Some((i, joint)) => i < legs@.len() && spec_find_servo(legs@, servo_id) == Some((i as int, joint)),
            None => spec_find_servo(legs@, servo_id) is None,
        },
{
    let mut i: usize = 0;
    while i < legs.len()
        invariant
            i <= legs@.len(),
            spec_find_servo(legs@.subrange(0, i as int), servo_id) is None,
        decreases legs@.len() - i,
    {
        proof {
            assert(legs@.subrange(0, i + 1).drop_last() =~= legs@.subrange(0, i as int));
            assert(legs@.subrange(0, i + 1).last() == legs@[i as int]);
        }
        let leg = &legs[i];
        let joint = if leg.coxa_servo_id == servo_id {
            Some(JointKind::Coxa)
        } else if leg.femur_servo_id == servo_id {
            Some(JointKind::Femur)
        } else if leg.tibia_servo_id == servo_id {
            Some(JointKind::Tibia)
        } else {
            None
        };
        if let Some(j) = joint {
            proof {
                lemma_find_servo_prefix(legs@, servo_id, i as int + 1);
            }
            return Some((i, j));
        }
        i = i + 1;
    }
    proof {
        assert(legs@.subrange(0, legs@.len() as int) =~= legs@);
    }
    None
}

} // verus!
