use vstd::prelude::*;
use crate::config::LegConfig;
use crate::modes::ManualTorqueTarget;
use crate::strings::{spec_contains, spec_starts_with, str_contains, str_eq, str_starts_with};
use crate::text::{push_char, uppercase, uppercase_of};

verus! {

/// The display form of character `i` of a leg name: an underscore becomes a
/// space and the first character of every word is upper-cased.
pub open spec fn humanized_piece(name: Seq<char>, i: int) -> Seq<char> {
    if name[i] == '_' {
        seq![' ']
    } else if i == 0 || name[i - 1] == '_' {
        uppercase_of(name[i])
    } else {
        seq![name[i]]
    }
}

/// A leg name as shown to people: words split at underscores, joined with
/// spaces, each word starting with its upper-case letter.
pub open spec fn spec_humanize(name: Seq<char>) -> Seq<char>
    decreases name.len(),
{
    if name.len() == 0 {
        Seq::empty()
    } else {
        spec_humanize(name.drop_last()) + humanized_piece(name, name.len() - 1)
    }
}

/// The display label of a leg name, such as `Front Left` for `front_left`.
pub fn humanize_leg_name(name: &str) -> (label: String)
    ensures
        label@ == spec_humanize(name@),
{
    let n = name.unicode_len();
    let mut out = String::new();
    let mut i: usize = 0;
    while i < n
        invariant
            n == name@.len(),
            i <= n,
            out@ == spec_humanize(name@.subrange(0, i as int)),
        decreases n - i,
    {
        let c = name.get_char(i);
        let ghost prefix = name@.subrange(0, i + 1);
        proof {
            assert(prefix.drop_last() =~= name@.subrange(0, i as int));
            assert(prefix[i as int] == c);
            if i > 0 {
                assert(prefix[i - 1] == name@[i - 1]);
            }
        }
        if c == '_' {
            push_char(&mut out, ' ');
        } else if i == 0 || name.get_char(i - 1) == '_' {
            let upper = uppercase(c);
            out.append(upper.as_str());
        } else {
            push_char(&mut out, c);
        }
        proof {
            assert(out@ =~= spec_humanize(prefix));
        }
        i = i + 1;
    }
    proof {
        assert(name@.subrange(0, n as int) =~= name@);
    }
    out
}

/// The fixed leg groups offered for manual control.
#[derive(Clone, Copy, Debug, PartialEq, Eq, Structural)]
pub enum ManualGroup {
    AllLegs,
    LeftSide,
    RightSide,
    FrontPair,
    MiddlePair,
    RearPair,
    TripodA,
    TripodB,
}

/// The fixed groups in the order they are offered.
pub open spec fn spec_group_at(k: int) -> ManualGroup {
    if k == 0 {
        ManualGroup::AllLegs
    } else if k == 1 {
        ManualGroup::LeftSide
    } else if k == 2 {
        ManualGroup::RightSide
    } else if k == 3 {
        ManualGroup::FrontPair
    } else if k == 4 {
        ManualGroup::MiddlePair
    } else if k == 5 {
        ManualGroup::RearPair
    } else if k == 6 {
        ManualGroup::TripodA
    } else {
        ManualGroup::TripodB
    }
}

impl ManualGroup {
    /// The key by which the dashboard names the group.
    pub open spec fn spec_key(self) -> Seq<char> {
        match self {
            ManualGroup::AllLegs => "all_legs"@,
            ManualGroup::LeftSide => "left_side"@,
            ManualGroup::RightSide => "right_side"@,
            ManualGroup::FrontPair => "front_pair"@,
            ManualGroup::MiddlePair => "middle_pair"@,
            ManualGroup::RearPair => "rear_pair"@,
            ManualGroup::TripodA => "tripod_a"@,
            ManualGroup::TripodB => "tripod_b"@,
        }
    }

    /// The group's display label.
    pub open spec fn spec_label(self) -> Seq<char> {
        match self {
            ManualGroup::AllLegs => "All legs"@,
            ManualGroup::LeftSide => "Left side"@,
            ManualGroup::RightSide => "Right side"@,
            ManualGroup::FrontPair => "Front pair"@,
            ManualGroup::MiddlePair => "Middle pair"@,
            ManualGroup::RearPair => "Rear pair"@,
            ManualGroup::TripodA => "Tripod A"@,
            ManualGroup::TripodB => "Tripod B"@,
        }
    }

    /// Whether `leg` belongs to the group: by side or position word in its
    /// name, or by its tripod.
    pub open spec fn spec_contains_leg(self, leg: LegConfig) -> bool {
        match self {
            ManualGroup::AllLegs => true,
            ManualGroup::LeftSide => spec_contains(leg.name@, "left"@),
            ManualGroup::RightSide => spec_contains(leg.name@, "right"@),
            ManualGroup::FrontPair => spec_starts_with(leg.name@, "front_"@),
            ManualGroup::MiddlePair => spec_starts_with(leg.name@, "middle_"@),
            ManualGroup::RearPair => spec_starts_with(leg.name@, "rear_"@),
            ManualGroup::TripodA => leg.tripod_a,
            ManualGroup::TripodB => !leg.tripod_a,
        }
    }

    /// The key by which the dashboard names the group.
    pub fn key(self) -> (key: &'static str)
        ensures
            key@ == self.spec_key(),
    {
        match self {
            ManualGroup::AllLegs => "all_legs",
            ManualGroup::LeftSide => "left_side",
            ManualGroup::RightSide => "right_side",
            ManualGroup::FrontPair => "front_pair",
            ManualGroup::MiddlePair => "middle_pair",
            ManualGroup::RearPair => "rear_pair",
            ManualGroup::TripodA => "tripod_a",
            ManualGroup::TripodB => "tripod_b",
        }
    }

    /// The group's display label.
    pub fn label(self) -> (label: &'static str)
        ensures
            label@ == self.spec_label(),
    {
        match self {
            ManualGroup::AllLegs => "All legs",
            ManualGroup::LeftSide => "Left side",
            ManualGroup::RightSide => "Right side",
            ManualGroup::FrontPair => "Front pair",
            ManualGroup::MiddlePair => "Middle pair",
            ManualGroup::RearPair => "Rear pair",
            ManualGroup::TripodA => "Tripod A",
            ManualGroup::TripodB => "Tripod B",
        }
    }

    /// Whether `leg` belongs to the group.
    pub fn contains_leg(self, leg: &LegConfig) -> (member: bool)
        ensures
            member == self.spec_contains_leg(*leg),
    {
        match self {
            ManualGroup::AllLegs => true,
            ManualGroup::LeftSide => str_contains(leg.name.as_str(), "left"),
            ManualGroup::RightSide => str_contains(leg.name.as_str(), "right"),
            ManualGroup::FrontPair => str_starts_with(leg.name.as_str(), "front_"),
            ManualGroup::MiddlePair => str_starts_with(leg.name.as_str(), "middle_"),
            ManualGroup::RearPair => str_starts_with(leg.name.as_str(), "rear_"),
            ManualGroup::TripodA => leg.tripod_a,
            ManualGroup::TripodB => !leg.tripod_a,
        }
    }
}

/// The indices of the legs in `group`, in configuration order.
pub open spec fn spec_group_members(legs: Seq<LegConfig>, group: ManualGroup) -> Seq<usize>
    decreases legs.len(),
{
    if legs.len() == 0 {
        Seq::empty()
    } else {
        let rest = spec_group_members(legs.drop_last(), group);
        if group.spec_contains_leg(legs.last()) {
            rest.push((legs.len() - 1) as usize)
        } else {
            rest
        }
    }
}

/// The indices of the legs in `group`, in configuration order.
pub fn group_members(legs: &[LegConfig], group: ManualGroup) -> (members: Vec<usize>)
    ensures
        members@ == spec_group_members(legs@, group),
{
    let mut members: Vec<usize> = Vec::new();
    let mut i: usize = 0;
    while i < legs.len()
        invariant
            i <= legs@.len(),
            members@ == spec_group_members(legs@.subrange(0, i as int), group),
        decreases legs@.len() - i,
    {
        proof {
            assert(legs@.subrange(0, i + 1).drop_last() =~= legs@.subrange(0, i as int));
            assert(legs@.subrange(0, i + 1).last() == legs@[i as int]);
        }
        if group.contains_leg(&legs[i]) {
            members.push(i);
        }
        i = i + 1;
    }
    proof {
        assert(legs@.subrange(0, legs@.len() as int) =~= legs@);
    }
    members
}

/// The fixed group a dashboard key names, if any.
pub open spec fn spec_group_for_key(key: Seq<char>) -> Option<ManualGroup> {
    if key == "all_legs"@ {
        Some(ManualGroup::AllLegs)
    } else if key == "left_side"@ {
        Some(ManualGroup::LeftSide)
    } else if key == "right_side"@ {
        Some(ManualGroup::RightSide)
    } else if key == "front_pair"@ {
        Some(ManualGroup::FrontPair)
    } else if key == "middle_pair"@ {
        Some(ManualGroup::MiddlePair)
    } else if key == "rear_pair"@ {
        Some(ManualGroup::RearPair)
    } else if key == "tripod_a"@ {
        Some(ManualGroup::TripodA)
    } else if key == "tripod_b"@ {
        Some(ManualGroup::TripodB)
    } else {
        None
    }
}

/// The fixed group a dashboard key names, if any.
pub fn group_for_key(key: &str) -> (group: Option<ManualGroup>)
    ensures
        group == spec_group_for_key(key@),
{
    if str_eq(key, "all_legs") {
        Some(ManualGroup::AllLegs)
    } else if str_eq(key, "left_side") {
        Some(ManualGroup::LeftSide)
    } else if str_eq(key, "right_side") {
        Some(ManualGroup::RightSide)
    } else if str_eq(key, "front_pair") {
        Some(ManualGroup::FrontPair)
    } else if str_eq(key, "middle_pair") {
        Some(ManualGroup::MiddlePair)
    } else if str_eq(key, "rear_pair") {
        Some(ManualGroup::RearPair)
    } else if str_eq(key, "tripod_a") {
        Some(ManualGroup::TripodA)
    } else if str_eq(key, "tripod_b") {
        Some(ManualGroup::TripodB)
    } else {
        None
    }
}

/// The index of the first leg called `name`.
pub open spec fn spec_first_leg_named(legs: Seq<LegConfig>, name: Seq<char>) -> Option<int>
    decreases legs.len(),
{
    if legs.len() == 0 {
        None
    } else {
        match spec_first_leg_named(legs.drop_last(), name) {
            Some(i) => Some(i),
            None => if legs.last().name@ == name {
                Some(legs.len() - 1)
            } else {
                None
            },
        }
    }
}

/// The index of the first leg called `name`.
pub fn find_leg(legs: &[LegConfig], name: &str) -> (found: Option<usize>)
    ensures
        found matches Some(i) ==> i < legs@.len() && spec_first_leg_named(legs@, name@) == Some(i as int),
        found is None ==> spec_first_leg_named(legs@, name@) is None,
{
    let mut i: usize = 0;
    while i < legs.len()
        invariant
            i <= legs@.len(),
            spec_first_leg_named(legs@.subrange(0, i as int), name@) is None,
        decreases legs@.len() - i,
    {
        proof {
            assert(legs@.subrange(0, i + 1).drop_last() =~= legs@.subrange(0, i as int));
            assert(legs@.subrange(0, i + 1).last() == legs@[i as int]);
        }
        if str_eq(legs[i].name.as_str(), name) {
            proof {
                lemma_first_leg_named_prefix(legs@, name@, i as int + 1);
            }
            return Some(i);
        }
        i = i + 1;
    }
    proof {
        assert(legs@.subrange(0, legs@.len() as int) =~= legs@);
    }
    None
}

/// A leg found in a prefix of the legs is the first one with that name in
/// all of them.
proof fn lemma_first_leg_named_prefix(legs: Seq<LegConfig>, name: Seq<char>, n: int)
    requires
        0 <= n <= legs.len(),
        spec_first_leg_named(legs.subrange(0, n), name) is Some,
    ensures
        spec_first_leg_named(legs, name) == spec_first_leg_named(legs.subrange(0, n), name),
    decreases legs.len() - n,
{
    if n == legs.len() {
        assert(legs.subrange(0, n) =~= legs);
    } else {
        assert(legs.subrange(0, n + 1).drop_last() =~= legs.subrange(0, n));
        lemma_first_leg_named_prefix(legs, name, n + 1);
    }
}

/// A leg found by name is a configured leg.
pub proof fn lemma_first_leg_named_in_range(legs: Seq<LegConfig>, name: Seq<char>)
    ensures
        spec_first_leg_named(legs, name) matches Some(i) ==> 0 <= i < legs.len(),
    decreases legs.len(),
{
    if legs.len() > 0 {
        lemma_first_leg_named_in_range(legs.drop_last(), name);
    }
}

/// What a manual group key resolves to: the label and leg indices of a fixed
/// group that has legs, or the label and index of the first leg named by a
/// `leg:` key.
pub open spec fn spec_resolve_manual_group(legs: Seq<LegConfig>, key: Seq<char>) -> Option<(Seq<char>, Seq<usize>)> {
    match spec_group_for_key(key) {
        Some(group) => {
            let members = spec_group_members(legs, group);
            if members.len() == 0 {
                None
            } else {
                Some((group.spec_label(), members))
            }
        },
        None => if spec_starts_with(key, "leg:"@) {
            match spec_first_leg_named(legs, key.subrange(4, key.len() as int)) {
                Some(i) => Some((spec_humanize(legs[i].name@), seq![i as usize])),
                None => None,
            }
        } else {
            None
        },
    }
}

/// Resolves a manual group key to its label and the indices of its legs.
/// Fixed groups without legs and unknown keys resolve to nothing.
pub fn resolve_manual_group(legs: &[LegConfig], key: &str) -> (resolved: Option<(String, Vec<usize>)>)
    ensures
        match resolved {
            Some((label, members)) => spec_resolve_manual_group(legs@, key@) == Some((label@, members@)),
            None => spec_resolve_manual_group(legs@, key@) is None,
        },
{
    match group_for_key(key) {
        Some(group) => {
            let members = group_members(legs, group);
            if members.len() == 0 {
                None
            } else {
                let mut label = String::new();
                label.append(group.label());
                proof { assert(label@ =~= group.spec_label()); }
                Some((label, members))
            }
        },
        None => {
            if !str_starts_with(key, "leg:") {
                return None;
            }
            proof { reveal_strlit("leg:"); }
            let name = key.substring_char(4, key.unicode_len());
            match find_leg(legs, name) {
                Some(i) => {
                    let label = humanize_leg_name(legs[i].name.as_str());
                    let mut members: Vec<usize> = Vec::new();
                    members.push(i);
                    proof { assert(members@ =~= seq![i]); }
                    Some((label, members))
                },
                None => None,
            }
        },
    }
}

/// The servo ids a manual torque action on the legs `members` addresses:
/// all three joints of each leg, or one chosen joint of each.
pub open spec fn spec_group_servo_ids(legs: Seq<LegConfig>, members: Seq<usize>, target: ManualTorqueTarget) -> Seq<u8>
    decreases members.len(),
{
    if members.len() == 0 {
        Seq::empty()
    } else {
        let leg = legs[members.last() as int];
        let rest = spec_group_servo_ids(legs, members.drop_last(), target);
        match target {
            ManualTorqueTarget::All => rest.push(leg.coxa_servo_id).push(leg.femur_servo_id).push(leg.tibia_servo_id),
            ManualTorqueTarget::Coxa => rest.push(leg.coxa_servo_id),
            ManualTorqueTarget::Femur => rest.push(leg.femur_servo_id),
            ManualTorqueTarget::Tibia => rest.push(leg.tibia_servo_id),
        }
    }
}

/// The servo ids addressed by a manual torque action on the legs `members`.
pub fn manual_group_servo_ids(legs: &[LegConfig], members: &[usize], target: ManualTorqueTarget) -> (ids: Vec<u8>)
    requires
        forall|k: int| 0 <= k < members@.len() ==> #[trigger] members@[k] < legs@.len(),
    ensures
        ids@ == spec_group_servo_ids(legs@, members@, target),
{
    let mut ids: Vec<u8> = Vec::new();
    let mut k: usize = 0;
    while k < members.len()
        invariant
            k <= members@.len(),
            forall|j: int| 0 <= j < members@.len() ==> #[trigger] members@[j] < legs@.len(),
            ids@ == spec_group_servo_ids(legs@, members@.subrange(0, k as int), target),
        decreases members@.len() - k,
    {
        let leg = &legs[members[k]];
        proof {
            assert(members@.subrange(0, k + 1).drop_last() =~= members@.subrange(0, k as int));
            assert(members@.subrange(0, k + 1).last() == members@[k as int]);
        }
        match target {
            ManualTorqueTarget::All => {
                ids.push(leg.coxa_servo_id);
                ids.push(leg.femur_servo_id);
                ids.push(leg.tibia_servo_id);
            },
            ManualTorqueTarget::Coxa => ids.push(leg.coxa_servo_id),
            ManualTorqueTarget::Femur => ids.push(leg.femur_servo_id),
            ManualTorqueTarget::Tibia => ids.push(leg.tibia_servo_id),
        }
        k = k + 1;
    }
    proof {
        assert(members@.subrange(0, members@.len() as int) =~= members@);
    }
    ids
}

/// A manual control group as offered on the dashboard.
#[derive(Clone, Debug)]
pub struct ManualGroupInfo {
    pub key: String,
    pub label: String,
    /// The display names of the group's legs.
    pub legs: Vec<String>,
}

/// `info` shows a group with this key, label and these leg names.
pub open spec fn info_shows(info: ManualGroupInfo, key: Seq<char>, label: Seq<char>, leg_names: Seq<Seq<char>>) -> bool {
    &&& info.key@ == key
    &&& info.label@ == label
    &&& info.legs@.len() == leg_names.len()
    &&& forall|i: int| 0 <= i < leg_names.len() ==> #[trigger] info.legs@[i]@ == leg_names[i]
}

/// The display names of the legs `members`.
pub open spec fn member_names(legs: Seq<LegConfig>, members: Seq<usize>) -> Seq<Seq<char>> {
    members.map_values(|i: usize| spec_humanize(legs[i as int].name@))
}

/// The dashboard entry of a fixed group.
fn group_info(legs: &[LegConfig], group: ManualGroup) -> (info: ManualGroupInfo)
    ensures
        info_shows(info, group.spec_key(), group.spec_label(), member_names(legs@, spec_group_members(legs@, group))),
{
    let members = group_members(legs, group);
    proof {
        lemma_group_members_in_range(legs@, group);
    }
    let mut names: Vec<String> = Vec::new();
    let mut k: usize = 0;
    while k < members.len()
        invariant
            k <= members@.len(),
            members@ == spec_group_members(legs@, group),
            forall|j: int| 0 <= j < members@.len() ==> #[trigger] members@[j] < legs@.len(),
            names@.len() == k,
            forall|j: int| 0 <= j < k ==> #[trigger] names@[j]@ == spec_humanize(legs@[members@[j] as int].name@),
        decreases members@.len() - k,
    {
        let name = humanize_leg_name(legs[members[k]].name.as_str());
        names.push(name);
        k = k + 1;
    }
    let mut key = String::new();
    key.append(group.key());
    let mut label = String::new();
    label.append(group.label());
    proof {
        assert(key@ =~= group.spec_key());
        assert(label@ =~= group.spec_label());
    }
    ManualGroupInfo { key, label, legs: names }
}

/// Every member index of a group is the index of a configured leg.
pub proof fn lemma_group_members_in_range(legs: Seq<LegConfig>, group: ManualGroup)
    ensures
        forall|j: int| 0 <= j < spec_group_members(legs, group).len() ==> #[trigger] spec_group_members(legs, group)[j] < legs.len(),
    decreases legs.len(),
{
    if legs.len() > 0 {
        lemma_group_members_in_range(legs.drop_last(), group);
        let rest = spec_group_members(legs.drop_last(), group);
        let all = spec_group_members(legs, group);
        assert forall|j: int| 0 <= j < all.len() implies #[trigger] all[j] < legs.len() by {
            if j < rest.len() {
                assert(all[j] == rest[j]);
                assert(rest[j] < legs.drop_last().len());
            }
        }
    }
}

/// The members of a group are exactly the indices of the legs it contains,
/// each once, in configuration order.
pub proof fn lemma_group_members_are_its_legs(legs: Seq<LegConfig>, group: ManualGroup)
    requires
        legs.len() <= usize::MAX,
    ensures
        forall|j: int| 0 <= j < spec_group_members(legs, group).len() ==> {
            &&& #[trigger] spec_group_members(legs, group)[j] < legs.len()
            &&& group.spec_contains_leg(legs[spec_group_members(legs, group)[j] as int])
        },
        forall|i: int| 0 <= i < legs.len() && group.spec_contains_leg(#[trigger] legs[i])
            ==> spec_group_members(legs, group).contains(i as usize),
        forall|j: int, k: int| 0 <= j < k < spec_group_members(legs, group).len()
            ==> spec_group_members(legs, group)[j] < spec_group_members(legs, group)[k],
    decreases legs.len(),
{
    if legs.len() > 0 {
        let prefix = legs.drop_last();
        lemma_group_members_are_its_legs(prefix, group);
        let rest = spec_group_members(prefix, group);
        let all = spec_group_members(legs, group);
        assert forall|j: int| 0 <= j < all.len() implies {
            &&& #[trigger] all[j] < legs.len()
            &&& group.spec_contains_leg(legs[all[j] as int])
        } by {
            if j < rest.len() {
                assert(all[j] == rest[j]);
                assert(legs[rest[j] as int] == prefix[rest[j] as int]);
            } else {
                assert(group.spec_contains_leg(legs.last()));
                assert(all[j] == (legs.len() - 1) as usize);
            }
        }
        assert forall|i: int| 0 <= i < legs.len() && group.spec_contains_leg(#[trigger] legs[i])
            implies all.contains(i as usize) by {
            if i < legs.len() - 1 {
                assert(prefix[i] == legs[i]);
                assert(rest.contains(i as usize));
                let w = choose|w: int| 0 <= w < rest.len() && rest[w] == i as usize;
                assert(all[w] == rest[w]);
            } else {
                assert(all[all.len() - 1] == i as usize);
            }
        }
        assert forall|j: int, k: int| 0 <= j < k < all.len() implies all[j] < all[k] by {
            if k < rest.len() {
                assert(all[j] == rest[j] && all[k] == rest[k]);
            } else {
                assert(group.spec_contains_leg(legs.last()));
                assert(all[j] == rest[j]);
                assert(rest[j] < prefix.len());
                assert(all[k] == (legs.len() - 1) as usize);
            }
        }
    }
}

/// Which legs each fixed group holds, by name: the left side holds the legs
/// whose name contains "left", the right side those whose name contains
/// "right" (so a leg named only for the left side is never on the right),
/// the pairs those whose name starts with their position word, and the two
/// tripods split the legs by their tripod flag.
pub proof fn lemma_group_membership_by_name(leg: LegConfig)
    ensures
        ManualGroup::AllLegs.spec_contains_leg(leg),
        ManualGroup::LeftSide.spec_contains_leg(leg) <==> spec_contains(leg.name@, "left"@),
        ManualGroup::RightSide.spec_contains_leg(leg) <==> spec_contains(leg.name@, "right"@),
        spec_contains(leg.name@, "left"@) && !spec_contains(leg.name@, "right"@)
            ==> !ManualGroup::RightSide.spec_contains_leg(leg),
        spec_contains(leg.name@, "right"@) && !spec_contains(leg.name@, "left"@)
            ==> !ManualGroup::LeftSide.spec_contains_leg(leg),
        ManualGroup::FrontPair.spec_contains_leg(leg) <==> spec_starts_with(leg.name@, "front_"@),
        ManualGroup::MiddlePair.spec_contains_leg(leg) <==> spec_starts_with(leg.name@, "middle_"@),
        ManualGroup::RearPair.spec_contains_leg(leg) <==> spec_starts_with(leg.name@, "rear_"@),
        ManualGroup::TripodA.spec_contains_leg(leg) <==> leg.tripod_a,
        ManualGroup::TripodA.spec_contains_leg(leg) != ManualGroup::TripodB.spec_contains_leg(leg),
{
}

/// The dashboard entry of the group made of one leg.
fn leg_info(leg: &LegConfig) -> (info: ManualGroupInfo)
    ensures
        info_shows(info, "leg:"@ + leg.name@, spec_humanize(leg.name@), seq![spec_humanize(leg.name@)]),
{
    let mut key = String::new();
    key.append("leg:");
    key.append(leg.name.as_str());
    let label = humanize_leg_name(leg.name.as_str());
    let mut names: Vec<String> = Vec::new();
    names.push(humanize_leg_name(leg.name.as_str()));
    proof {
        assert(key@ =~= "leg:"@ + leg.name@);
    }
    ManualGroupInfo { key, label, legs: names }
}

/// The manual control groups offered on the dashboard: the eight fixed
/// groups (all legs, each side, each pair, each tripod) in that order, then
/// one group per leg in configuration order.
pub fn manual_group_infos(legs: &[LegConfig]) -> (infos: Vec<ManualGroupInfo>)
    ensures
        infos@.len() == 8 + legs@.len(),
        forall|k: int| 0 <= k < 8 ==> info_shows(
            #[trigger] infos@[k],
            spec_group_at(k).spec_key(),
            spec_group_at(k).spec_label(),
            member_names(legs@, spec_group_members(legs@, spec_group_at(k))),
        ),
        forall|j: int| 0 <= j < legs@.len() ==> info_shows(
            #[trigger] infos@[8 + j],
            "leg:"@ + legs@[j].name@,
            spec_humanize(legs@[j].name@),
            seq![spec_humanize(legs@[j].name@)],
        ),
{
    let mut infos: Vec<ManualGroupInfo> = Vec::new();
    infos.push(group_info(legs, ManualGroup::AllLegs));
    infos.push(group_info(legs, ManualGroup::LeftSide));
    infos.push(group_info(legs, ManualGroup::RightSide));
    infos.push(group_info(legs, ManualGroup::FrontPair));
    infos.push(group_info(legs, ManualGroup::MiddlePair));
    infos.push(group_info(legs, ManualGroup::RearPair));
    infos.push(group_info(legs, ManualGroup::TripodA));
    infos.push(group_info(legs, ManualGroup::TripodB));
    proof {
        assert forall|k: int| 0 <= k < 8 implies info_shows(
            #[trigger] infos@[k],
            spec_group_at(k).spec_key(),
            spec_group_at(k).spec_label(),
            member_names(legs@, spec_group_members(legs@, spec_group_at(k))),
        ) by {
        }
    }
    let mut j: usize = 0;
    while j < legs.len()
        invariant
            j <= legs@.len(),
            infos@.len() == 8 + j,
            forall|k: int| 0 <= k < 8 ==> info_shows(
                #[trigger] infos@[k],
                spec_group_at(k).spec_key(),
                spec_group_at(k).spec_label(),
                member_names(legs@, spec_group_members(legs@, spec_group_at(k))),
            ),
            forall|i: int| 0 <= i < j ==> info_shows(
                #[trigger] infos@[8 + i],
                "leg:"@ + legs@[i].name@,
                spec_humanize(legs@[i].name@),
                seq![spec_humanize(legs@[i].name@)],
            ),
        decreases legs@.len() - j,
    {
        infos.push(leg_info(&legs[j]));
        j = j + 1;
    }
    infos
}

} // verus!
