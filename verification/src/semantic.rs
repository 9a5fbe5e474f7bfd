use vstd::prelude::*;
use std::collections::BTreeMap;
use crate::config::LegConfig;
use crate::groups::{find_leg, humanize_leg_name, spec_first_leg_named, spec_humanize};
use crate::strings::str_eq;
use crate::text::{append_decimal, decimal};

verus! {

broadcast use vstd::std_specs::btree::group_btree_axioms;

/// Which semantic reference angle a captured position stands for.
#[derive(Clone, Copy, Debug, PartialEq, Eq, Structural)]
pub enum CalibrationReferenceKey {
    Negative,
    Zero,
    Positive,
}

/// The saved semantic calibration of one servo.
#[derive(Clone, Debug)]
pub struct ServoSemanticCalibrationEntry {
    pub servo_id: u8,
    pub leg_name: Option<String>,
    pub joint_key: Option<String>,
    pub negative_ticks: Option<u16>,
    pub zero_ticks: Option<u16>,
    pub positive_ticks: Option<u16>,
}

/// A calibration entry with its names taken as character sequences.
pub struct EntryView {
    pub servo_id: u8,
    pub leg_name: Option<Seq<char>>,
    pub joint_key: Option<Seq<char>>,
    pub negative_ticks: Option<u16>,
    pub zero_ticks: Option<u16>,
    pub positive_ticks: Option<u16>,
}

/// The characters of an optional string.
pub open spec fn option_chars(s: Option<String>) -> Option<Seq<char>> {
    match s {
        Some(s) => Some(s@),
        None => None,
    }
}

impl View for ServoSemanticCalibrationEntry {
    type V = EntryView;

    open spec fn view(&self) -> EntryView {
        EntryView {
            servo_id: self.servo_id,
            leg_name: option_chars(self.leg_name),
            joint_key: option_chars(self.joint_key),
            negative_ticks: self.negative_ticks,
            zero_ticks: self.zero_ticks,
            positive_ticks: self.positive_ticks,
        }
    }
}

/// The calibration store: the saved entries by servo id, and where they are
/// kept (no path means the store is disabled).
#[derive(Clone, Debug)]
pub struct SemanticCalibrationState {
    pub store_path: Option<String>,
    pub entries: BTreeMap<u8, ServoSemanticCalibrationEntry>,
}

/// The entries of a store, each taken by its view.
pub open spec fn entries_view(entries: Map<u8, ServoSemanticCalibrationEntry>) -> Map<u8, EntryView> {
    Map::new(|id: u8| entries.contains_key(id), |id: u8| entries[id]@)
}

/// The entry of `servo_id` after capturing `ticks` as its `key` reference
/// for `leg_name` and `joint_key`: an existing entry keeps its other
/// references, a new one starts without any.
pub open spec fn spec_set_reference(
    entries: Map<u8, EntryView>,
    servo_id: u8,
    leg_name: Seq<char>,
    joint_key: Seq<char>,
    key: CalibrationReferenceKey,
    ticks: u16,
) -> Map<u8, EntryView> {
    let before = if entries.contains_key(servo_id) {
        entries[servo_id]
    } else {
        EntryView {
            servo_id,
            leg_name: Some(leg_name),
            joint_key: Some(joint_key),
            negative_ticks: None,
            zero_ticks: None,
            positive_ticks: None,
        }
    };
    entries.insert(
        servo_id,
        EntryView {
            servo_id: before.servo_id,
            leg_name: Some(leg_name),
            joint_key: Some(joint_key),
            negative_ticks: if key == CalibrationReferenceKey::Negative { Some(ticks) } else { before.negative_ticks },
            zero_ticks: if key == CalibrationReferenceKey::Zero { Some(ticks) } else { before.zero_ticks },
            positive_ticks: if key == CalibrationReferenceKey::Positive { Some(ticks) } else { before.positive_ticks },
        },
    )
}

/// A copy of `s`.
fn copy_str(s: &str) -> (copy: String)
    ensures
        copy@ == s@,
{
    let mut copy = String::new();
    copy.append(s);
    proof { assert(copy@ =~= s@); }
    copy
}

impl SemanticCalibrationState {
    /// Whether a store path is configured.
    pub fn is_enabled(&self) -> (enabled: bool)
        ensures
            enabled == self.store_path is Some,
    {
        self.store_path.is_some()
    }

    /// The saved entry of `servo_id`.
    pub fn entry(&self, servo_id: u8) -> (entry: Option<&ServoSemanticCalibrationEntry>)
        ensures
            match entry {
                Some(e) => self.entries@.contains_key(servo_id) && *e == self.entries@[servo_id],
                None => !self.entries@.contains_key(servo_id),
            },
    {
        self.entries.get(&servo_id)
    }

    /// Records `ticks` as the `key` reference of `servo_id`, naming its leg
    /// and joint.
    pub fn set_reference(
        &mut self,
        servo_id: u8,
        leg_name: &str,
        joint_key: &str,
        key: CalibrationReferenceKey,
        ticks: u16,
    )
        ensures
            entries_view(final(self).entries@) == spec_set_reference(
                entries_view(old(self).entries@), servo_id, leg_name@, joint_key@, key, ticks),
            final(self).store_path == old(self).store_path,
    {
        let before = self.entries.remove(&servo_id);
        let mut entry = match before {
            Some(e) => e,
            None => ServoSemanticCalibrationEntry {
                servo_id,
                leg_name: Some(copy_str(leg_name)),
                joint_key: Some(copy_str(joint_key)),
                negative_ticks: None,
                zero_ticks: None,
                positive_ticks: None,
            },
        };
        entry.leg_name = Some(copy_str(leg_name));
        entry.joint_key = Some(copy_str(joint_key));
        match key {
            CalibrationReferenceKey::Negative => entry.negative_ticks = Some(ticks),
            CalibrationReferenceKey::Zero => entry.zero_ticks = Some(ticks),
            CalibrationReferenceKey::Positive => entry.positive_ticks = Some(ticks),
        }
        self.entries.insert(servo_id, entry);
        proof {
            assert(entries_view(self.entries@) =~= spec_set_reference(
                entries_view(old(self).entries@), servo_id, leg_name@, joint_key@, key, ticks));
        }
    }

    /// Forgets the saved entry of `servo_id`.
    pub fn clear_servo(&mut self, servo_id: u8)
        ensures
            final(self).entries@ == old(self).entries@.remove(servo_id),
            final(self).store_path == old(self).store_path,
    {
        self.entries.remove(&servo_id);
    }
}

/// A captured reference reads back from the entry of its servo, together
/// with the leg and joint it was captured for, and no other servo's entry
/// changes.
pub proof fn lemma_set_reference_reads_back(
    entries: Map<u8, EntryView>,
    servo_id: u8,
    leg_name: Seq<char>,
    joint_key: Seq<char>,
    key: CalibrationReferenceKey,
    ticks: u16,
    other: u8,
)
    ensures
        ({
            let after = spec_set_reference(entries, servo_id, leg_name, joint_key, key, ticks);
            &&& after.contains_key(servo_id)
            &&& after[servo_id].leg_name == Some(leg_name)
            &&& after[servo_id].joint_key == Some(joint_key)
            &&& (match key {
                CalibrationReferenceKey::Negative => after[servo_id].negative_ticks,
                CalibrationReferenceKey::Zero => after[servo_id].zero_ticks,
                CalibrationReferenceKey::Positive => after[servo_id].positive_ticks,
            }) == Some(ticks)
            &&& other != servo_id ==> (after.contains_key(other) == entries.contains_key(other)
                && (entries.contains_key(other) ==> after[other] == entries[other]))
        }),
{
}

/// Capturing a reference keeps the servo's other references.
pub proof fn lemma_set_reference_keeps_other_references(
    entries: Map<u8, EntryView>,
    servo_id: u8,
    leg_name: Seq<char>,
    joint_key: Seq<char>,
    key: CalibrationReferenceKey,
    ticks: u16,
)
    requires
        entries.contains_key(servo_id),
    ensures
        ({
            let after = spec_set_reference(entries, servo_id, leg_name, joint_key, key, ticks)[servo_id];
            let before = entries[servo_id];
            &&& key != CalibrationReferenceKey::Negative ==> after.negative_ticks == before.negative_ticks
            &&& key != CalibrationReferenceKey::Zero ==> after.zero_ticks == before.zero_ticks
            &&& key != CalibrationReferenceKey::Positive ==> after.positive_ticks == before.positive_ticks
        }),
{
}

/// Why a calibration request was refused.
#[derive(Clone, Copy, Debug, PartialEq, Eq, Structural)]
pub enum CalibrationRequestError {
    /// No calibration store is configured.
    StoreDisabled,
    /// Not every configured servo has fresh feedback.
    NoFreshPose,
    UnknownLeg,
    UnknownJoint,
    /// The selected joint's servo has no live position to capture.
    NoLiveFeedback,
}

impl CalibrationRequestError {
    /// The HTTP status the dashboard answers with.
    pub open spec fn spec_status(self) -> u16 {
        match self {
            CalibrationRequestError::UnknownLeg | CalibrationRequestError::UnknownJoint => 400,
            _ => 409,
        }
    }

    /// The message the dashboard shows.
    pub open spec fn spec_message(self) -> Seq<char> {
        match self {
            CalibrationRequestError::StoreDisabled => "semantic calibration store is disabled for this profile"@,
            CalibrationRequestError::NoFreshPose => "fresh feedback from all configured servos is required before capture or apply actions can run"@,
            CalibrationRequestError::UnknownLeg => "unknown calibration leg"@,
            CalibrationRequestError::UnknownJoint => "unknown calibration joint"@,
            CalibrationRequestError::NoLiveFeedback => "selected joint has no fresh live feedback to capture"@,
        }
    }

    /// The HTTP status the dashboard answers with.
    pub fn status(self) -> (status: u16)
        ensures
            status == self.spec_status(),
    {
        match self {
            CalibrationRequestError::UnknownLeg | CalibrationRequestError::UnknownJoint => 400,
            _ => 409,
        }
    }

    /// The message the dashboard shows.
    pub fn message(self) -> (message: &'static str)
        ensures
            message@ == self.spec_message(),
    {
        match self {
            CalibrationRequestError::StoreDisabled => "semantic calibration store is disabled for this profile",
            CalibrationRequestError::NoFreshPose => "fresh feedback from all configured servos is required before capture or apply actions can run",
            CalibrationRequestError::UnknownLeg => "unknown calibration leg",
            CalibrationRequestError::UnknownJoint => "unknown calibration joint",
            CalibrationRequestError::NoLiveFeedback => "selected joint has no fresh live feedback to capture",
        }
    }
}

/// The legs a calibration request addresses: all of them for `all`, else
/// the first leg with that name.
pub open spec fn spec_calibration_legs(legs: Seq<LegConfig>, leg_key: Seq<char>) -> Option<Seq<usize>> {
    if leg_key == "all"@ {
        Some(Seq::new(legs.len(), |i: int| i as usize))
    } else {
        match spec_first_leg_named(legs, leg_key) {
            Some(i) => Some(seq![i as usize]),
            None => None,
        }
    }
}

/// The legs a calibration request addresses.
pub fn resolve_calibration_legs(legs: &[LegConfig], leg_key: &str) -> (members: Option<Vec<usize>>)
    ensures
        match members {
            Some(m) => spec_calibration_legs(legs@, leg_key@) == Some(m@),
            None => spec_calibration_legs(legs@, leg_key@) is None,
        },
{
    if str_eq(leg_key, "all") {
        let mut all: Vec<usize> = Vec::new();
        let mut i: usize = 0;
        while i < legs.len()
            invariant
                i <= legs@.len(),
                all@ =~= Seq::new(i as nat, |j: int| j as usize),
            decreases legs@.len() - i,
        {
            all.push(i);
            i = i + 1;
        }
        return Some(all);
    }
    match find_leg(legs, leg_key) {
        Some(i) => {
            let mut one: Vec<usize> = Vec::new();
            one.push(i);
            proof { assert(one@ =~= seq![i]); }
            Some(one)
        },
        None => None,
    }
}

/// The servo of the joint named `joint_key` on `leg`.
pub open spec fn spec_servo_for_joint_key(leg: LegConfig, joint_key: Seq<char>) -> Option<u8> {
    if joint_key == "coxa"@ {
        Some(leg.coxa_servo_id)
    } else if joint_key == "femur"@ {
        Some(leg.femur_servo_id)
    } else if joint_key == "tibia"@ {
        Some(leg.tibia_servo_id)
    } else {
        None
    }
}

/// The servo of the joint named `joint_key` on `leg`.
pub fn resolve_servo_id_for_joint(leg: &LegConfig, joint_key: &str) -> (id: Option<u8>)
    ensures
        id == spec_servo_for_joint_key(*leg, joint_key@),
{
    if str_eq(joint_key, "coxa") {
        Some(leg.coxa_servo_id)
    } else if str_eq(joint_key, "femur") {
        Some(leg.femur_servo_id)
    } else if str_eq(joint_key, "tibia") {
        Some(leg.tibia_servo_id)
    } else {
        None
    }
}

/// The entries after capturing the live position of `joint_key` on the legs
/// `members` in order, and the error that stopped the capture, if any. An
/// error leaves the captures of earlier legs in place.
pub open spec fn spec_capture_legs(
    entries: Map<u8, EntryView>,
    legs: Seq<LegConfig>,
    members: Seq<usize>,
    joint_key: Seq<char>,
    key: CalibrationReferenceKey,
    pose: Map<u8, u16>,
) -> (Map<u8, EntryView>, Option<CalibrationRequestError>)
    decreases members.len(),
{
    if members.len() == 0 {
        (entries, None)
    } else {
        let leg = legs[members[0] as int];
        match spec_servo_for_joint_key(leg, joint_key) {
            None => (entries, Some(CalibrationRequestError::UnknownJoint)),
            Some(id) => if !pose.contains_key(id) {
                (entries, Some(CalibrationRequestError::NoLiveFeedback))
            } else {
                spec_capture_legs(
                    spec_set_reference(entries, id, leg.name@, joint_key, key, pose[id]),
                    legs,
                    members.drop_first(),
                    joint_key,
                    key,
                    pose,
                )
            },
        }
    }
}

/// How a reference is named in summaries.
pub open spec fn spec_reference_label(key: CalibrationReferenceKey) -> Seq<char> {
    match key {
        CalibrationReferenceKey::Negative => "negative"@,
        CalibrationReferenceKey::Zero => "zero"@,
        CalibrationReferenceKey::Positive => "positive"@,
    }
}

/// How a reference is named in summaries.
pub fn reference_label(key: CalibrationReferenceKey) -> (label: &'static str)
    ensures
        label@ == spec_reference_label(key),
{
    match key {
        CalibrationReferenceKey::Negative => "negative",
        CalibrationReferenceKey::Zero => "zero",
        CalibrationReferenceKey::Positive => "positive",
    }
}

/// The summary of a successful capture.
pub open spec fn spec_capture_summary(
    legs: Seq<LegConfig>,
    leg_key: Seq<char>,
    members: Seq<usize>,
    joint_key: Seq<char>,
    key: CalibrationReferenceKey,
    pose: Map<u8, u16>,
) -> Seq<char> {
    if leg_key == "all"@ {
        "captured "@ + spec_reference_label(key) + " reference for "@ + "all legs "@ + joint_key + " across "@
            + decimal(members.len()) + " servo(s)"@
    } else {
        let leg = legs[members[0] as int];
        let id = spec_servo_for_joint_key(leg, joint_key)->0;
        "captured "@ + spec_reference_label(key) + " reference for "@ + spec_humanize(leg.name@) + " "@ + joint_key
            + " at "@ + decimal(pose[id] as nat) + " ticks"@
    }
}

impl SemanticCalibrationState {
    /// Captures the live position of one joint as a semantic reference, on
    /// one leg or on all legs (`all`), and returns the summary. Refused when
    /// the store is disabled, without fresh feedback from every servo
    /// (`live_pose` absent), or for an unknown leg; with an unknown joint or
    /// a joint without live feedback the capture stops there, keeping what
    /// earlier legs captured. Saving the store is left to the caller.
    pub fn capture_reference(
        &mut self,
        legs: &[LegConfig],
        leg_key: &str,
        joint_key: &str,
        key: CalibrationReferenceKey,
        live_pose: Option<&BTreeMap<u8, u16>>,
    ) -> (result: Result<String, CalibrationRequestError>)
        ensures
            final(self).store_path == old(self).store_path,
            old(self).store_path is None ==> result == Err::<String, CalibrationRequestError>(CalibrationRequestError::StoreDisabled) && final(self).entries@ == old(self).entries@,
            old(self).store_path is Some && live_pose is None ==> result == Err::<String, CalibrationRequestError>(CalibrationRequestError::NoFreshPose) && final(self).entries@ == old(self).entries@,
            old(self).store_path is Some && live_pose is Some && spec_calibration_legs(legs@, leg_key@) is None ==> result == Err::<String, CalibrationRequestError>(CalibrationRequestError::UnknownLeg) && final(self).entries@ == old(self).entries@,
            old(self).store_path is Some && live_pose is Some && spec_calibration_legs(legs@, leg_key@) is Some ==> {
                let members = spec_calibration_legs(legs@, leg_key@)->0;
                let pose = live_pose->0@;
                let (after, error) = spec_capture_legs(entries_view(old(self).entries@), legs@, members, joint_key@, key, pose);
                &&& entries_view(final(self).entries@) == after
                &&& match error {
                    Some(e) => result == Err::<String, CalibrationRequestError>(e),
                    None => result matches Ok(summary) && summary@ == spec_capture_summary(legs@, leg_key@, members, joint_key@, key, pose),
                }
            },
    {
        if self.store_path.is_none() {
            return Err(CalibrationRequestError::StoreDisabled);
        }
        let pose = match live_pose {
            Some(p) => p,
            None => return Err(CalibrationRequestError::NoFreshPose),
        };
        let members = match resolve_calibration_legs(legs, leg_key) {
            Some(m) => m,
            None => return Err(CalibrationRequestError::UnknownLeg),
        };
        proof {
            lemma_calibration_legs_in_range(legs@, leg_key@);
        }
        let ghost initial = entries_view(self.entries@);
        proof {
            assert(members@.subrange(0, members@.len() as int) =~= members@);
        }
        let mut k: usize = 0;
        while k < members.len()
            invariant
                k <= members@.len(),
                forall|j: int| 0 <= j < members@.len() ==> #[trigger] members@[j] < legs@.len(),
                spec_capture_legs(initial, legs@, members@, joint_key@, key, pose@)
                    == spec_capture_legs(entries_view(self.entries@), legs@, members@.subrange(k as int, members@.len() as int), joint_key@, key, pose@),
                self.store_path == old(self).store_path,
                old(self).store_path is Some,
                live_pose == Some(pose),
                spec_calibration_legs(legs@, leg_key@) == Some(members@),
                initial == entries_view(old(self).entries@),
            decreases members@.len() - k,
        {
            let leg = &legs[members[k]];
            let ghost rest = members@.subrange(k as int, members@.len() as int);
            proof {
                assert(rest[0] == members@[k as int]);
                assert(rest.drop_first() =~= members@.subrange(k + 1, members@.len() as int));
            }
            let id = match resolve_servo_id_for_joint(leg, joint_key) {
                Some(id) => id,
                None => return Err(CalibrationRequestError::UnknownJoint),
            };
            let ticks = match pose.get(&id) {
                Some(t) => *t,
                None => return Err(CalibrationRequestError::NoLiveFeedback),
            };
            self.set_reference(id, leg.name.as_str(), joint_key, key, ticks);
            k = k + 1;
        }
        proof {
            assert(members@.subrange(k as int, members@.len() as int).len() == 0);
        }
        let mut summary = String::new();
        summary.append("captured ");
        summary.append(reference_label(key));
        summary.append(" reference for ");
        if str_eq(leg_key, "all") {
            summary.append("all legs ");
            summary.append(joint_key);
            summary.append(" across ");
            let count = members.len() as u64;
            append_decimal(&mut summary, count);
            summary.append(" servo(s)");
            proof {
                assert(count as nat == members@.len());
                assert(summary@ =~= spec_capture_summary(legs@, leg_key@, members@, joint_key@, key, pose@));
            }
        } else {
            proof {
                assert(members@.len() == 1);
            }
            let leg = &legs[members[0]];
            let id = match resolve_servo_id_for_joint(leg, joint_key) {
                Some(id) => id,
                None => return Err(CalibrationRequestError::UnknownJoint),
            };
            let ticks = match pose.get(&id) {
                Some(t) => *t,
                None => return Err(CalibrationRequestError::NoLiveFeedback),
            };
            let name = humanize_leg_name(leg.name.as_str());
            summary.append(name.as_str());
            summary.append(" ");
            summary.append(joint_key);
            summary.append(" at ");
            append_decimal(&mut summary, ticks as u64);
            summary.append(" ticks");
            proof {
                assert(summary@ =~= spec_capture_summary(legs@, leg_key@, members@, joint_key@, key, pose@));
            }
        }
        Ok(summary)
    }
}

/// The entries after clearing `joint_key` on the legs `members` in order,
/// and the error that stopped the clearing, if any.
pub open spec fn spec_clear_legs(
    entries: Map<u8, ServoSemanticCalibrationEntry>,
    legs: Seq<LegConfig>,
    members: Seq<usize>,
    joint_key: Seq<char>,
) -> (Map<u8, ServoSemanticCalibrationEntry>, Option<CalibrationRequestError>)
    decreases members.len(),
{
    if members.len() == 0 {
        (entries, None)
    } else {
        match spec_servo_for_joint_key(legs[members[0] as int], joint_key) {
            None => (entries, Some(CalibrationRequestError::UnknownJoint)),
            Some(id) => spec_clear_legs(entries.remove(id), legs, members.drop_first(), joint_key),
        }
    }
}

/// The summary of a successful clear.
pub open spec fn spec_clear_summary(legs: Seq<LegConfig>, leg_key: Seq<char>, members: Seq<usize>, joint_key: Seq<char>) -> Seq<char> {
    if leg_key == "all"@ {
        "cleared saved calibration for "@ + "all legs "@ + joint_key + " across "@ + decimal(members.len()) + " servo(s)"@
    } else {
        "cleared saved calibration for "@ + spec_humanize(legs[members[0] as int].name@) + " "@ + joint_key
    }
}

impl SemanticCalibrationState {
    /// Forgets the saved calibration of one joint, on one leg or on all legs
    /// (`all`), and returns the summary. Refused when the store is disabled
    /// or for an unknown leg; an unknown joint stops the clearing. Saving the
    /// store is left to the caller.
    pub fn clear_reference(&mut self, legs: &[LegConfig], leg_key: &str, joint_key: &str) -> (result: Result<String, CalibrationRequestError>)
        ensures
            final(self).store_path == old(self).store_path,
            old(self).store_path is None ==> result == Err::<String, CalibrationRequestError>(CalibrationRequestError::StoreDisabled) && final(self).entries@ == old(self).entries@,
            old(self).store_path is Some && spec_calibration_legs(legs@, leg_key@) is None ==> result == Err::<String, CalibrationRequestError>(CalibrationRequestError::UnknownLeg) && final(self).entries@ == old(self).entries@,
            old(self).store_path is Some && spec_calibration_legs(legs@, leg_key@) is Some ==> {
                let members = spec_calibration_legs(legs@, leg_key@)->0;
                let (after, error) = spec_clear_legs(old(self).entries@, legs@, members, joint_key@);
                &&& final(self).entries@ == after
                &&& match error {
                    Some(e) => result == Err::<String, CalibrationRequestError>(e),
                    None => result matches Ok(summary) && summary@ == spec_clear_summary(legs@, leg_key@, members, joint_key@),
                }
            },
    {
        if self.store_path.is_none() {
            return Err(CalibrationRequestError::StoreDisabled);
        }
        let members = match resolve_calibration_legs(legs, leg_key) {
            Some(m) => m,
            None => return Err(CalibrationRequestError::UnknownLeg),
        };
        proof {
            lemma_calibration_legs_in_range(legs@, leg_key@);
            assert(members@.subrange(0, members@.len() as int) =~= members@);
        }
        let mut k: usize = 0;
        while k < members.len()
            invariant
                k <= members@.len(),
                forall|j: int| 0 <= j < members@.len() ==> #[trigger] members@[j] < legs@.len(),
                spec_clear_legs(old(self).entries@, legs@, members@, joint_key@)
                    == spec_clear_legs(self.entries@, legs@, members@.subrange(k as int, members@.len() as int), joint_key@),
                self.store_path == old(self).store_path,
                old(self).store_path is Some,
                spec_calibration_legs(legs@, leg_key@) == Some(members@),
            decreases members@.len() - k,
        {
            let leg = &legs[members[k]];
            let ghost rest = members@.subrange(k as int, members@.len() as int);
            proof {
                assert(rest[0] == members@[k as int]);
                assert(rest.drop_first() =~= members@.subrange(k + 1, members@.len() as int));
            }
            let id = match resolve_servo_id_for_joint(leg, joint_key) {
                Some(id) => id,
                None => return Err(CalibrationRequestError::UnknownJoint),
            };
            self.clear_servo(id);
            k = k + 1;
        }
        proof {
            assert(members@.subrange(k as int, members@.len() as int).len() == 0);
        }
        let mut summary = String::new();
        summary.append("cleared saved calibration for ");
        if str_eq(leg_key, "all") {
            summary.append("all legs ");
            summary.append(joint_key);
            summary.append(" across ");
            let count = members.len() as u64;
            append_decimal(&mut summary, count);
            summary.append(" servo(s)");
            proof {
                assert(count as nat == members@.len());
                assert(summary@ =~= spec_clear_summary(legs@, leg_key@, members@, joint_key@));
            }
        } else {
            proof {
                assert(members@.len() == 1);
            }
            let name = humanize_leg_name(legs[members[0]].name.as_str());
            summary.append(name.as_str());
            summary.append(" ");
            summary.append(joint_key);
            proof {
                assert(summary@ =~= spec_clear_summary(legs@, leg_key@, members@, joint_key@));
            }
        }
        Ok(summary)
    }
}

/// The legs a calibration request resolves to are configured legs.
pub proof fn lemma_calibration_legs_in_range(legs: Seq<LegConfig>, leg_key: Seq<char>)
    ensures
        spec_calibration_legs(legs, leg_key) is Some ==> forall|j: int| 0 <= j < spec_calibration_legs(legs, leg_key).unwrap().len()
            ==> #[trigger] spec_calibration_legs(legs, leg_key).unwrap()[j] < legs.len(),
{
    crate::groups::lemma_first_leg_named_in_range(legs, leg_key);
}

/// The entries of a calibration file keyed by servo id; where two entries
/// name the same servo the later one wins.
pub open spec fn spec_entries_from_list(list: Seq<ServoSemanticCalibrationEntry>) -> Map<u8, ServoSemanticCalibrationEntry>
    decreases list.len(),
{
    if list.len() == 0 {
        Map::empty()
    } else {
        spec_entries_from_list(list.drop_last()).insert(list.last().servo_id, list.last())
    }
}

/// Keys the entries read from a calibration file by servo id.
pub fn entries_from_list(list: Vec<ServoSemanticCalibrationEntry>) -> (entries: BTreeMap<u8, ServoSemanticCalibrationEntry>)
    ensures
        entries@ == spec_entries_from_list(list@),
{
    let mut entries: BTreeMap<u8, ServoSemanticCalibrationEntry> = BTreeMap::new();
    let mut rest = list;
    let ghost all = rest@;
    let ghost mut taken: Seq<ServoSemanticCalibrationEntry> = Seq::empty();
    proof {
        assert(all.subrange(0, all.len() as int) =~= all);
    }
    while rest.len() > 0
        invariant
            taken.len() + rest@.len() == all.len(),
            taken =~= all.subrange(0, taken.len() as int),
            rest@ =~= all.subrange(taken.len() as int, all.len() as int),
            entries@ == spec_entries_from_list(taken),
        decreases rest@.len(),
    {
        let ghost before = taken;
        let entry = rest.remove(0);
        proof {
            assert(entry == all[before.len() as int]);
            taken = taken.push(entry);
            assert(taken.drop_last() =~= before);
        }
        entries.insert(entry.servo_id, entry);
        proof {
            assert(rest@ =~= all.subrange(taken.len() as int, all.len() as int));
        }
    }
    proof {
        assert(taken =~= all);
    }
    entries
}

/// The summary of reloading the store.
pub open spec fn spec_reload_summary(store_path: Option<Seq<char>>, entry_count: nat) -> Seq<char> {
    let path = match store_path {
        Some(p) => p,
        None => "<disabled>"@,
    };
    "reloaded semantic calibration from "@ + path + " with "@ + decimal(entry_count) + " servo entr"@
        + if entry_count == 1 { "y"@ } else { "ies"@ }
}

/// The summary of reloading the store.
pub fn reload_summary(store_path: Option<&str>, entry_count: usize) -> (summary: String)
    ensures
        summary@ == spec_reload_summary(
            match store_path {
                Some(p) => Some(p@),
                None => None,
            },
            entry_count as nat,
        ),
{
    let mut summary = String::new();
    summary.append("reloaded semantic calibration from ");
    match store_path {
        Some(p) => summary.append(p),
        None => summary.append("<disabled>"),
    }
    summary.append(" with ");
    append_decimal(&mut summary, entry_count as u64);
    summary.append(" servo entr");
    if entry_count == 1 {
        summary.append("y");
    } else {
        summary.append("ies");
    }
    proof {
        assert(summary@ =~= spec_reload_summary(
            match store_path {
                Some(p) => Some(p@),
                None => None,
            },
            entry_count as nat,
        ));
    }
    summary
}

} // verus!
