use vstd::prelude::*;
use std::collections::BTreeMap;
use std::collections::VecDeque;
use crate::config::LegConfig;
use crate::groups::{manual_group_servo_ids, resolve_manual_group, spec_group_servo_ids, spec_resolve_manual_group};
use crate::modes::{BrainMode, ManualTorqueTarget};
use crate::strings::{spec_contains, str_contains};
use crate::text::{append_decimal, decimal};

verus! {

broadcast use vstd::std_specs::btree::group_btree_axioms;

/// The largest torque limit the dashboard may request.
pub const DASHBOARD_TORQUE_LIMIT_MAX: u16 = 1000;

/// A hardware action queued by the dashboard for the control worker.
#[derive(Clone, Debug)]
pub enum ManualHardwareAction {
    /// Sync the group's targets to the live pose, then apply a torque limit.
    SetTorqueLimit { group_key: String, target: ManualTorqueTarget, torque_limit: u16 },
    /// Sync the group's targets to the live pose.
    SyncTargetToCurrent { group_key: String },
}

/// Why a manual control request was refused.
#[derive(Clone, Copy, Debug, PartialEq, Eq, Structural)]
pub enum ManualRequestError {
    /// Manual control is not active.
    Disabled,
    /// The group key names no group with legs.
    UnknownGroup,
    /// Not every configured servo has fresh feedback.
    NoFreshPose,
}

impl ManualRequestError {
    /// The HTTP status the dashboard answers with.
    pub open spec fn spec_status(self) -> u16 {
        match self {
            ManualRequestError::UnknownGroup => 400,
            _ => 409,
        }
    }

    /// The message the dashboard shows.
    pub open spec fn spec_message(self) -> Seq<char> {
        match self {
            ManualRequestError::Disabled => "manual control is disabled; switch the motion mode to manual first"@,
            ManualRequestError::UnknownGroup => "unknown manual control group"@,
            ManualRequestError::NoFreshPose => "fresh feedback from all configured servos is required before capture or apply actions can run"@,
        }
    }

    /// The HTTP status the dashboard answers with.
    pub fn status(self) -> (status: u16)
        ensures
            status == self.spec_status(),
    {
        match self {
            ManualRequestError::UnknownGroup => 400,
            _ => 409,
        }
    }

    /// The message the dashboard shows.
    pub fn message(self) -> (message: &'static str)
        ensures
            message@ == self.spec_message(),
    {
        match self {
            ManualRequestError::Disabled => "manual control is disabled; switch the motion mode to manual first",
            ManualRequestError::UnknownGroup => "unknown manual control group",
            ManualRequestError::NoFreshPose => "fresh feedback from all configured servos is required before capture or apply actions can run",
        }
    }
}

/// The dashboard's manual joint control.
#[derive(Debug)]
pub struct ManualControlState {
    pub enabled: bool,
    pub base_pose: Option<BTreeMap<u8, u16>>,
    pub target_pose: Option<BTreeMap<u8, u16>>,
    pub summary: String,
    pub pending_actions: VecDeque<ManualHardwareAction>,
}

/// A string holding exactly `text`.
fn owned(text: &str) -> (s: String)
    ensures
        s@ == text@,
{
    let mut s = String::new();
    s.append(text);
    proof { assert(s@ =~= text@); }
    s
}

/// The manual control summary right after a mode change.
pub open spec fn spec_manual_initial_summary(mode: BrainMode) -> Seq<char> {
    if mode == BrainMode::Manual {
        "waiting for the current robot pose before manual angle control becomes ready"@
    } else {
        "manual control is disabled; switch the motion mode to manual to enable dashboard sliders"@
    }
}

/// The summary once manual control has a target pose.
pub open spec fn spec_manual_ready_summary() -> Seq<char> {
    "manual control is ready; sliders now reflect the current robot pose as absolute semantic joint angles"@
}

/// The summary after a torque limit request was queued.
pub open spec fn spec_queued_torque_summary(torque_limit: u16, label: Seq<char>, target: ManualTorqueTarget) -> Seq<char> {
    "queued torque limit "@ + decimal(torque_limit as nat) + " for "@ + label + " ("@ + target.spec_as_label()
        + "); the control worker will sync current pose first"@
}

/// The summary after a live target sync request was queued.
pub open spec fn spec_queued_sync_summary(label: Seq<char>) -> Seq<char> {
    "queued live target sync for "@ + label
        + "; the control worker will update the manual target to the current pose"@
}

/// `pose` with the positions of `live` written over it.
pub open spec fn spec_overlay_live(seed: Map<u8, u16>, live: Map<u8, u16>) -> Map<u8, u16> {
    seed.union_prefer_right(live)
}

/// `seed` with every position measured in `live` written over it.
pub fn overlay_live_pose(seed: BTreeMap<u8, u16>, live: &BTreeMap<u8, u16>) -> (pose: BTreeMap<u8, u16>)
    ensures
        pose@ == spec_overlay_live(seed@, live@),
{
    let mut pose = seed;
    let ghost start = pose@;
    let mut next: u16 = 0;
    while next < 256
        invariant
            next <= 256,
            forall|id: u8| #[trigger] pose@.contains_key(id) <==> (start.contains_key(id) || (id < next && live@.contains_key(id))),
            forall|id: u8| #[trigger] pose@.contains_key(id) ==> pose@[id] == (if id < next && live@.contains_key(id) { live@[id] } else { start[id] }),
        decreases 256 - next,
    {
        let id = next as u8;
        if let Some(ticks) = live.get(&id) {
            pose.insert(id, *ticks);
        }
        next = next + 1;
    }
    proof {
        assert(pose@ =~= start.union_prefer_right(live@));
    }
    pose
}

/// The target a live sync writes over: the action's seed when it has one,
/// else the live pose of every servo on the bus (`bus_pose`, which the worker
/// reads only when there is no seed); the live positions of the synced
/// servos (`live`) are written over it. Without a seed and without the bus
/// pose there is nothing to write over.
pub fn seeded_live_target(
    seed: Option<BTreeMap<u8, u16>>,
    bus_pose: Option<BTreeMap<u8, u16>>,
    live: &BTreeMap<u8, u16>,
) -> (target: Option<BTreeMap<u8, u16>>)
    ensures
        match seed {
            Some(s) => target matches Some(t) && t@ == spec_overlay_live(s@, live@),
            None => match bus_pose {
                Some(b) => target matches Some(t) && t@ == spec_overlay_live(b@, live@),
                None => target is None,
            },
        },
{
    match seed {
        Some(s) => Some(overlay_live_pose(s, live)),
        None => match bus_pose {
            Some(b) => Some(overlay_live_pose(b, live)),
            None => None,
        },
    }
}

/// What the control worker has to do for one queued manual action.
#[derive(Debug)]
pub struct ManualActionPlan {
    pub group_label: String,
    /// The servos whose targets follow the live pose, and which get the
    /// torque limit when one is set.
    pub servo_ids: Vec<u8>,
    pub target: ManualTorqueTarget,
    /// The torque limit to apply, for a torque limit action.
    pub torque_limit: Option<u16>,
    /// The target pose the live positions are written over; when absent the
    /// worker seeds it from the live pose of every servo.
    pub seed: Option<BTreeMap<u8, u16>>,
}

/// The summary after the worker carried out a manual action.
pub open spec fn spec_manual_action_summary(label: Seq<char>, target: ManualTorqueTarget, torque_limit: Option<u16>) -> Seq<char> {
    match torque_limit {
        Some(limit) => "manual utility: synced "@ + label + " "@ + target.spec_as_label()
            + " to the live pose and applied torque limit "@ + decimal(limit as nat),
        None => "manual utility: synced "@ + label + " target to the live pose"@,
    }
}

/// The group key of a queued action, the joints it addresses and its
/// torque limit.
pub open spec fn spec_action_parts(action: ManualHardwareAction) -> (Seq<char>, ManualTorqueTarget, Option<u16>) {
    match action {
        ManualHardwareAction::SetTorqueLimit { group_key, target, torque_limit } => (group_key@, target, Some(torque_limit)),
        ManualHardwareAction::SyncTargetToCurrent { group_key } => (group_key@, ManualTorqueTarget::All, None),
    }
}

impl ManualControlState {
    /// The manual control state right after switching to `mode`: enabled
    /// only in manual mode, with no poses and no queued actions.
    pub fn for_mode(mode: BrainMode) -> (state: Self)
        ensures
            state.enabled == (mode == BrainMode::Manual),
            state.base_pose is None,
            state.target_pose is None,
            state.summary@ == spec_manual_initial_summary(mode),
            state.pending_actions@.len() == 0,
    {
        let enabled = match mode {
            BrainMode::Manual => true,
            _ => false,
        };
        let summary = if enabled {
            owned("waiting for the current robot pose before manual angle control becomes ready")
        } else {
            owned("manual control is disabled; switch the motion mode to manual to enable dashboard sliders")
        };
        ManualControlState { enabled, base_pose: None, target_pose: None, summary, pending_actions: VecDeque::new() }
    }

    /// Once motion arms in manual mode, the measured pose becomes the target
    /// of an enabled manual control that has none yet.
    pub fn ensure_reference_pose(&mut self, mode: BrainMode, pose: &BTreeMap<u8, u16>)
        ensures
            (mode == BrainMode::Manual && old(self).enabled && old(self).target_pose is None) ==> {
                &&& final(self).target_pose matches Some(t) && t@ == pose@
                &&& final(self).summary@ == spec_manual_ready_summary()
                &&& final(self).enabled == old(self).enabled
                &&& final(self).base_pose == old(self).base_pose
                &&& final(self).pending_actions == old(self).pending_actions
            },
            !(mode == BrainMode::Manual && old(self).enabled && old(self).target_pose is None) ==> *final(self) == *old(self),
    {
        let manual = match mode {
            BrainMode::Manual => true,
            _ => false,
        };
        if !manual || !self.enabled || self.target_pose.is_some() {
            return;
        }
        self.target_pose = Some(pose.clone());
        self.summary = owned(
            "manual control is ready; sliders now reflect the current robot pose as absolute semantic joint angles",
        );
    }

    /// The pose manual motion holds: the target, else the captured base
    /// pose, else `fallback`.
    pub fn command_pose(&self, fallback: BTreeMap<u8, u16>) -> (pose: BTreeMap<u8, u16>)
        ensures
            pose@ == (match self.target_pose {
                Some(t) => t@,
                None => match self.base_pose {
                    Some(b) => b@,
                    None => fallback@,
                },
            }),
    {
        match &self.target_pose {
            Some(t) => t.clone(),
            None => match &self.base_pose {
                Some(b) => b.clone(),
                None => fallback,
            },
        }
    }

    /// Queues a torque limit for a manual group, capped at
    /// `DASHBOARD_TORQUE_LIMIT_MAX`, and returns the new summary. Refused
    /// while manual control is disabled or for a key that resolves to no
    /// legs; a refused request changes nothing.
    pub fn queue_torque_limit(
        &mut self,
        legs: &[LegConfig],
        group_key: String,
        target: ManualTorqueTarget,
        requested_limit: u16,
    ) -> (result: Result<String, ManualRequestError>)
        ensures
            !old(self).enabled ==> result == Err::<String, ManualRequestError>(ManualRequestError::Disabled) && *final(self) == *old(self),
            old(self).enabled && spec_resolve_manual_group(legs@, group_key@) is None ==> result == Err::<String, ManualRequestError>(ManualRequestError::UnknownGroup) && *final(self) == *old(self),
            old(self).enabled ==> (spec_resolve_manual_group(legs@, group_key@) matches Some((label, _)) ==> {
                let limit: u16 = if requested_limit > DASHBOARD_TORQUE_LIMIT_MAX { DASHBOARD_TORQUE_LIMIT_MAX } else { requested_limit };
                &&& result matches Ok(summary) && summary@ == spec_queued_torque_summary(limit, label, target)
                &&& final(self).summary@ == spec_queued_torque_summary(limit, label, target)
                &&& final(self).pending_actions@ == old(self).pending_actions@.push(
                    ManualHardwareAction::SetTorqueLimit { group_key, target, torque_limit: limit })
                &&& final(self).enabled == old(self).enabled
                &&& final(self).base_pose == old(self).base_pose
                &&& final(self).target_pose == old(self).target_pose
            }),
    {
        if !self.enabled {
            return Err(ManualRequestError::Disabled);
        }
        let label = match resolve_manual_group(legs, group_key.as_str()) {
            Some((label, _)) => label,
            None => return Err(ManualRequestError::UnknownGroup),
        };
        let torque_limit = if requested_limit > DASHBOARD_TORQUE_LIMIT_MAX { DASHBOARD_TORQUE_LIMIT_MAX } else { requested_limit };
        let mut summary = String::new();
        summary.append("queued torque limit ");
        append_decimal(&mut summary, torque_limit as u64);
        summary.append(" for ");
        summary.append(label.as_str());
        summary.append(" (");
        summary.append(target.as_label());
        summary.append("); the control worker will sync current pose first");
        proof {
            assert(summary@ =~= spec_queued_torque_summary(torque_limit, label@, target));
        }
        self.pending_actions.push_back(ManualHardwareAction::SetTorqueLimit { group_key, target, torque_limit });
        self.summary = summary.clone();
        Ok(summary)
    }

    /// Queues a sync of a manual group's targets to the live pose and returns
    /// the new summary. Refused as `queue_torque_limit` is; a refused request
    /// changes nothing.
    pub fn queue_sync_current(&mut self, legs: &[LegConfig], group_key: String) -> (result: Result<String, ManualRequestError>)
        ensures
            !old(self).enabled ==> result == Err::<String, ManualRequestError>(ManualRequestError::Disabled) && *final(self) == *old(self),
            old(self).enabled && spec_resolve_manual_group(legs@, group_key@) is None ==> result == Err::<String, ManualRequestError>(ManualRequestError::UnknownGroup) && *final(self) == *old(self),
            old(self).enabled ==> (spec_resolve_manual_group(legs@, group_key@) matches Some((label, _)) ==> {
                &&& result matches Ok(summary) && summary@ == spec_queued_sync_summary(label)
                &&& final(self).summary@ == spec_queued_sync_summary(label)
                &&& final(self).pending_actions@ == old(self).pending_actions@.push(
                    ManualHardwareAction::SyncTargetToCurrent { group_key })
                &&& final(self).enabled == old(self).enabled
                &&& final(self).base_pose == old(self).base_pose
                &&& final(self).target_pose == old(self).target_pose
            }),
    {
        if !self.enabled {
            return Err(ManualRequestError::Disabled);
        }
        let label = match resolve_manual_group(legs, group_key.as_str()) {
            Some((label, _)) => label,
            None => return Err(ManualRequestError::UnknownGroup),
        };
        let mut summary = String::new();
        summary.append("queued live target sync for ");
        summary.append(label.as_str());
        summary.append("; the control worker will update the manual target to the current pose");
        proof {
            assert(summary@ =~= spec_queued_sync_summary(label@));
        }
        self.pending_actions.push_back(ManualHardwareAction::SyncTargetToCurrent { group_key });
        self.summary = summary.clone();
        Ok(summary)
    }

    /// Takes the oldest queued action and plans it: which group it resolves
    /// to, which servos it addresses, which torque limit it sets and which
    /// target pose the live positions are written over (the target, else the
    /// base pose). With nothing queued there is nothing to do; an action
    /// whose key resolves to no legs is dropped and reported.
    pub fn plan_next_action(&mut self, legs: &[LegConfig]) -> (plan: Result<Option<ManualActionPlan>, ManualRequestError>)
        ensures
            final(self).enabled == old(self).enabled,
            final(self).base_pose == old(self).base_pose,
            final(self).target_pose == old(self).target_pose,
            final(self).summary == old(self).summary,
            old(self).pending_actions@.len() == 0 ==> (plan matches Ok(None)) && final(self).pending_actions@ == old(self).pending_actions@,
            old(self).pending_actions@.len() > 0 ==> {
                let (key, target, limit) = spec_action_parts(old(self).pending_actions@[0]);
                &&& final(self).pending_actions@ == old(self).pending_actions@.drop_first()
                &&& match spec_resolve_manual_group(legs@, key) {
                    None => plan == Err::<Option<ManualActionPlan>, ManualRequestError>(ManualRequestError::UnknownGroup),
                    Some((label, members)) => plan matches Ok(Some(p)) && {
                        &&& p.group_label@ == label
                        &&& p.servo_ids@ == spec_group_servo_ids(legs@, members, target)
                        &&& p.target == target
                        &&& p.torque_limit == limit
                        &&& match old(self).target_pose {
                            Some(t) => p.seed matches Some(seed) && seed@ == t@,
                            None => match old(self).base_pose {
                                Some(b) => p.seed matches Some(seed) && seed@ == b@,
                                None => p.seed is None,
                            },
                        }
                    },
                }
            },
    {
        let action = match self.pending_actions.pop_front() {
            Some(action) => action,
            None => return Ok(None),
        };
        let (key, target, torque_limit) = match action {
            ManualHardwareAction::SetTorqueLimit { group_key, target, torque_limit } => (group_key, target, Some(torque_limit)),
            ManualHardwareAction::SyncTargetToCurrent { group_key } => (group_key, ManualTorqueTarget::All, None),
        };
        let (group_label, members) = match resolve_manual_group(legs, key.as_str()) {
            Some(resolved) => resolved,
            None => return Err(ManualRequestError::UnknownGroup),
        };
        proof {
            lemma_resolved_members_in_range(legs@, key@);
            assert(spec_resolve_manual_group(legs@, key@).unwrap().1 == members@);
        }
        let servo_ids = manual_group_servo_ids(legs, &members, target);
        let seed = match &self.target_pose {
            Some(t) => Some(t.clone()),
            None => match &self.base_pose {
                Some(b) => Some(b.clone()),
                None => None,
            },
        };
        Ok(Some(ManualActionPlan { group_label, servo_ids, target, torque_limit, seed }))
    }

    /// Records a carried-out action: the merged pose becomes the target and
    /// the summary says what was done.
    pub fn complete_action(&mut self, plan: &ManualActionPlan, next_target: BTreeMap<u8, u16>) -> (summary: String)
        ensures
            summary@ == spec_manual_action_summary(plan.group_label@, plan.target, plan.torque_limit),
            final(self).summary == summary,
            final(self).target_pose == Some(next_target),
            final(self).enabled == old(self).enabled,
            final(self).base_pose == old(self).base_pose,
            final(self).pending_actions == old(self).pending_actions,
    {
        let mut summary = String::new();
        summary.append("manual utility: synced ");
        summary.append(plan.group_label.as_str());
        match plan.torque_limit {
            Some(limit) => {
                summary.append(" ");
                summary.append(plan.target.as_label());
                summary.append(" to the live pose and applied torque limit ");
                append_decimal(&mut summary, limit as u64);
            },
            None => {
                summary.append(" target to the live pose");
            },
        }
        proof {
            assert(summary@ =~= spec_manual_action_summary(plan.group_label@, plan.target, plan.torque_limit));
        }
        self.target_pose = Some(next_target);
        self.summary = summary.clone();
        summary
    }
}

/// `target` with every joint of `leg` that `base` holds put back to its
/// base position.
pub open spec fn spec_reset_leg(target: Map<u8, u16>, base: Map<u8, u16>, leg: LegConfig) -> Map<u8, u16> {
    let t1 = if base.contains_key(leg.coxa_servo_id) { target.insert(leg.coxa_servo_id, base[leg.coxa_servo_id]) } else { target };
    let t2 = if base.contains_key(leg.femur_servo_id) { t1.insert(leg.femur_servo_id, base[leg.femur_servo_id]) } else { t1 };
    if base.contains_key(leg.tibia_servo_id) { t2.insert(leg.tibia_servo_id, base[leg.tibia_servo_id]) } else { t2 }
}

/// Puts every joint of `leg` that `base` holds back to its base position.
pub fn reset_manual_leg_to_base(target: &mut BTreeMap<u8, u16>, base: &BTreeMap<u8, u16>, leg: &LegConfig)
    ensures
        final(target)@ == spec_reset_leg(old(target)@, base@, *leg),
{
    if let Some(t) = base.get(&leg.coxa_servo_id) {
        target.insert(leg.coxa_servo_id, *t);
    }
    if let Some(t) = base.get(&leg.femur_servo_id) {
        target.insert(leg.femur_servo_id, *t);
    }
    if let Some(t) = base.get(&leg.tibia_servo_id) {
        target.insert(leg.tibia_servo_id, *t);
    }
}

/// `target` with the legs `members` reset to `base`, in order.
pub open spec fn spec_reset_legs(target: Map<u8, u16>, base: Map<u8, u16>, legs: Seq<LegConfig>, members: Seq<usize>) -> Map<u8, u16>
    decreases members.len(),
{
    if members.len() == 0 {
        target
    } else {
        spec_reset_leg(spec_reset_legs(target, base, legs, members.drop_last()), base, legs[members.last() as int])
    }
}

impl ManualControlState {
    /// Takes the live pose as the manual zero and target.
    pub fn capture(&mut self, live_pose: Option<BTreeMap<u8, u16>>) -> (result: Result<String, ManualRequestError>)
        ensures
            !old(self).enabled ==> result == Err::<String, ManualRequestError>(ManualRequestError::Disabled) && *final(self) == *old(self),
            old(self).enabled && live_pose is None ==> result == Err::<String, ManualRequestError>(ManualRequestError::NoFreshPose) && *final(self) == *old(self),
            old(self).enabled && live_pose is Some ==> {
                &&& result matches Ok(summary) && summary@ == "captured the current robot pose as the manual control zero"@
                &&& final(self).base_pose matches Some(b) && b@ == live_pose->0@
                &&& final(self).target_pose matches Some(t) && t@ == live_pose->0@
                &&& final(self).summary@ == "captured the current robot pose as the manual control zero"@
                &&& final(self).enabled == old(self).enabled
                &&& final(self).pending_actions == old(self).pending_actions
            },
    {
        if !self.enabled {
            return Err(ManualRequestError::Disabled);
        }
        let pose = match live_pose {
            Some(p) => p,
            None => return Err(ManualRequestError::NoFreshPose),
        };
        self.base_pose = Some(pose.clone());
        self.target_pose = Some(pose);
        let summary = owned("captured the current robot pose as the manual control zero");
        self.summary = summary.clone();
        Ok(summary)
    }

    /// Resets the manual target to the manual zero (the base pose, captured
    /// from the live pose when there is none yet): for one group's legs, or
    /// for all legs. The base pose is kept even when the group is unknown.
    pub fn reset(
        &mut self,
        legs: &[LegConfig],
        live_pose: Option<BTreeMap<u8, u16>>,
        group_key: Option<String>,
    ) -> (result: Result<String, ManualRequestError>)
        ensures
            !old(self).enabled ==> result == Err::<String, ManualRequestError>(ManualRequestError::Disabled) && *final(self) == *old(self),
            old(self).enabled && live_pose is None ==> result == Err::<String, ManualRequestError>(ManualRequestError::NoFreshPose) && *final(self) == *old(self),
            old(self).enabled && live_pose is Some ==> {
                let base = match old(self).base_pose {
                    Some(b) => b@,
                    None => live_pose->0@,
                };
                &&& final(self).base_pose matches Some(b) && b@ == base
                &&& final(self).enabled == old(self).enabled
                &&& final(self).pending_actions == old(self).pending_actions
                &&& match group_key {
                    None => {
                        &&& result matches Ok(summary) && summary@ == "manual target reset to zero for all legs"@
                        &&& final(self).target_pose matches Some(t) && t@ == base
                        &&& final(self).summary@ == "manual target reset to zero for all legs"@
                    },
                    Some(key) => match spec_resolve_manual_group(legs@, key@) {
                        None => {
                            &&& result == Err::<String, ManualRequestError>(ManualRequestError::UnknownGroup)
                            &&& final(self).target_pose == old(self).target_pose
                            &&& final(self).summary == old(self).summary
                        },
                        Some((label, members)) => {
                            let start = match old(self).target_pose {
                                Some(t) => t@,
                                None => base,
                            };
                            &&& result matches Ok(summary) && summary@ == "manual target reset to zero for "@ + label
                            &&& final(self).summary@ == "manual target reset to zero for "@ + label
                            &&& final(self).target_pose matches Some(t) && t@ == spec_reset_legs(start, base, legs@, members)
                        },
                    },
                }
            },
    {
        if !self.enabled {
            return Err(ManualRequestError::Disabled);
        }
        let live = match live_pose {
            Some(p) => p,
            None => return Err(ManualRequestError::NoFreshPose),
        };
        let base = match &self.base_pose {
            Some(b) => b.clone(),
            None => live,
        };
        self.base_pose = Some(base.clone());
        match group_key {
            None => {
                self.target_pose = Some(base);
                let summary = owned("manual target reset to zero for all legs");
                self.summary = summary.clone();
                Ok(summary)
            },
            Some(key) => {
                let (label, members) = match resolve_manual_group(legs, key.as_str()) {
                    Some(resolved) => resolved,
                    None => return Err(ManualRequestError::UnknownGroup),
                };
                proof {
                    lemma_resolved_members_in_range(legs@, key@);
                    assert(spec_resolve_manual_group(legs@, key@).unwrap().1 == members@);
                }
                let mut target = match &self.target_pose {
                    Some(t) => t.clone(),
                    None => base.clone(),
                };
                let ghost start = target@;
                let mut k: usize = 0;
                while k < members.len()
                    invariant
                        k <= members@.len(),
                        forall|j: int| 0 <= j < members@.len() ==> #[trigger] members@[j] < legs@.len(),
                        target@ == spec_reset_legs(start, base@, legs@, members@.subrange(0, k as int)),
                    decreases members@.len() - k,
                {
                    reset_manual_leg_to_base(&mut target, &base, &legs[members[k]]);
                    proof {
                        assert(members@.subrange(0, k + 1).drop_last() =~= members@.subrange(0, k as int));
                        assert(members@.subrange(0, k + 1).last() == members@[k as int]);
                    }
                    k = k + 1;
                }
                proof {
                    assert(members@.subrange(0, members@.len() as int) =~= members@);
                }
                self.target_pose = Some(target);
                let mut summary = String::new();
                summary.append("manual target reset to zero for ");
                summary.append(label.as_str());
                proof {
                    assert(summary@ =~= "manual target reset to zero for "@ + label@);
                }
                self.summary = summary.clone();
                Ok(summary)
            },
        }
    }
}

/// The legs a key resolves to are all configured legs.
pub proof fn lemma_resolved_members_in_range(legs: Seq<LegConfig>, key: Seq<char>)
    ensures
        spec_resolve_manual_group(legs, key) is Some ==> forall|k: int| 0 <= k < spec_resolve_manual_group(legs, key).unwrap().1.len()
            ==> #[trigger] spec_resolve_manual_group(legs, key).unwrap().1[k] < legs.len(),
{
    match crate::groups::spec_group_for_key(key) {
        Some(group) => {
            crate::groups::lemma_group_members_in_range(legs, group);
        },
        None => {
            if crate::strings::spec_starts_with(key, "leg:"@) {
                crate::groups::lemma_first_leg_named_in_range(legs, key.subrange(4, key.len() as int));
            }
        },
    }
}

/// A hardware action queued by the dashboard for the arm.
#[derive(Clone, Debug)]
pub enum ArmHardwareAction {
    /// Sync the joint's target to the live pose, then apply a torque limit.
    SetTorqueLimit { joint_key: String, torque_limit: u16 },
}

/// The dashboard's arm control.
#[derive(Debug)]
pub struct ArmControlState {
    pub enabled: bool,
    pub base_pose: Option<BTreeMap<u8, u16>>,
    pub target_pose: Option<BTreeMap<u8, u16>>,
    pub summary: String,
    pub pending_actions: VecDeque<ArmHardwareAction>,
}

/// The arm control summary right after a mode change.
pub open spec fn spec_arm_initial_summary(mode: BrainMode, configured: bool) -> Seq<char> {
    if !configured {
        "arm control is unavailable because this profile does not configure an arm"@
    } else if mode == BrainMode::Manual {
        "waiting for the current arm pose before arm control becomes ready"@
    } else {
        "arm control is disabled; switch the motion mode to manual to enable arm sliders"@
    }
}

/// The summary once arm control has its poses.
pub open spec fn spec_arm_ready_summary() -> Seq<char> {
    "arm control is ready; sliders are relative to the arm pose captured when manual mode armed"@
}

impl ArmControlState {
    /// The arm control state right after switching to `mode`: enabled only
    /// in manual mode on a profile with an arm, with no poses and no queued
    /// actions.
    pub fn for_mode(mode: BrainMode, configured: bool) -> (state: Self)
        ensures
            state.enabled == (configured && mode == BrainMode::Manual),
            state.base_pose is None,
            state.target_pose is None,
            state.summary@ == spec_arm_initial_summary(mode, configured),
            state.pending_actions@.len() == 0,
    {
        let manual = match mode {
            BrainMode::Manual => true,
            _ => false,
        };
        let (enabled, summary) = if !configured {
            (false, owned("arm control is unavailable because this profile does not configure an arm"))
        } else if manual {
            (true, owned("waiting for the current arm pose before arm control becomes ready"))
        } else {
            (false, owned("arm control is disabled; switch the motion mode to manual to enable arm sliders"))
        };
        ArmControlState { enabled, base_pose: None, target_pose: None, summary, pending_actions: VecDeque::new() }
    }

    /// In manual mode, an enabled arm control that lacks its base or target
    /// pose captures the measured arm pose as both.
    pub fn ensure_reference_pose(&mut self, mode: BrainMode, pose: &BTreeMap<u8, u16>)
        ensures
            (mode == BrainMode::Manual && old(self).enabled && !(old(self).base_pose is Some && old(self).target_pose is Some)) ==> {
                &&& final(self).base_pose matches Some(b) && b@ == pose@
                &&& final(self).target_pose matches Some(t) && t@ == pose@
                &&& final(self).summary@ == spec_arm_ready_summary()
                &&& final(self).enabled == old(self).enabled
                &&& final(self).pending_actions == old(self).pending_actions
            },
            !(mode == BrainMode::Manual && old(self).enabled && !(old(self).base_pose is Some && old(self).target_pose is Some)) ==> *final(self) == *old(self),
    {
        let manual = match mode {
            BrainMode::Manual => true,
            _ => false,
        };
        if !manual || !self.enabled || (self.base_pose.is_some() && self.target_pose.is_some()) {
            return;
        }
        self.base_pose = Some(pose.clone());
        self.target_pose = Some(pose.clone());
        self.summary = owned("arm control is ready; sliders are relative to the arm pose captured when manual mode armed");
    }
}

/// One servo of the arm: its bus id, the joint it drives and its label.
#[derive(Clone, Debug)]
pub struct ArmServo {
    pub servo_id: u8,
    pub joint_key: String,
    pub display_name: String,
    /// Orders servos that drive the same joint.
    pub order: u8,
}

/// Why an arm control request was refused.
#[derive(Clone, Copy, Debug, PartialEq, Eq, Structural)]
pub enum ArmRequestError {
    /// The profile configures no arm.
    Unconfigured,
    /// Arm control is not active.
    Disabled,
    /// Not every arm servo has fresh feedback.
    NoFreshPose,
    /// No arm servo drives the named joint.
    UnknownJoint,
}

impl ArmRequestError {
    /// The HTTP status the dashboard answers with.
    pub open spec fn spec_status(self) -> u16 {
        match self {
            ArmRequestError::UnknownJoint => 400,
            _ => 409,
        }
    }

    /// The message the dashboard shows.
    pub open spec fn spec_message(self) -> Seq<char> {
        match self {
            ArmRequestError::Unconfigured => "arm control is unavailable because no arm is configured for this profile"@,
            ArmRequestError::Disabled => "arm control is disabled; switch the motion mode to manual first"@,
            ArmRequestError::NoFreshPose => "fresh feedback from all configured arm servos is required before arm actions can run"@,
            ArmRequestError::UnknownJoint => "unknown arm joint"@,
        }
    }

    /// The HTTP status the dashboard answers with.
    pub fn status(self) -> (status: u16)
        ensures
            status == self.spec_status(),
    {
        match self {
            ArmRequestError::UnknownJoint => 400,
            _ => 409,
        }
    }

    /// The message the dashboard shows.
    pub fn message(self) -> (message: &'static str)
        ensures
            message@ == self.spec_message(),
    {
        match self {
            ArmRequestError::Unconfigured => "arm control is unavailable because no arm is configured for this profile",
            ArmRequestError::Disabled => "arm control is disabled; switch the motion mode to manual first",
            ArmRequestError::NoFreshPose => "fresh feedback from all configured arm servos is required before arm actions can run",
            ArmRequestError::UnknownJoint => "unknown arm joint",
        }
    }
}

/// The index of the first arm servo driving `joint_key`.
pub open spec fn spec_first_arm_servo(servos: Seq<ArmServo>, joint_key: Seq<char>) -> Option<int>
    decreases servos.len(),
{
    if servos.len() == 0 {
        None
    } else {
        match spec_first_arm_servo(servos.drop_last(), joint_key) {
            Some(i) => Some(i),
            None => if servos.last().joint_key@ == joint_key { Some(servos.len() - 1) } else { None },
        }
    }
}

/// A found arm servo is one of the arm's servos.
pub proof fn lemma_first_arm_servo_in_range(servos: Seq<ArmServo>, joint_key: Seq<char>)
    ensures
        spec_first_arm_servo(servos, joint_key) matches Some(i) ==> 0 <= i < servos.len(),
    decreases servos.len(),
{
    if servos.len() > 0 {
        lemma_first_arm_servo_in_range(servos.drop_last(), joint_key);
    }
}

/// A servo found in a prefix of the arm's servos is the first one for that
/// joint among all of them.
proof fn lemma_first_arm_servo_prefix(servos: Seq<ArmServo>, joint_key: Seq<char>, n: int)
    requires
        0 <= n <= servos.len(),
        spec_first_arm_servo(servos.subrange(0, n), joint_key) is Some,
    ensures
        spec_first_arm_servo(servos, joint_key) == spec_first_arm_servo(servos.subrange(0, n), joint_key),
    decreases servos.len() - n,
{
    if n == servos.len() {
        assert(servos.subrange(0, n) =~= servos);
    } else {
        assert(servos.subrange(0, n + 1).drop_last() =~= servos.subrange(0, n));
        lemma_first_arm_servo_prefix(servos, joint_key, n + 1);
    }
}

/// The index of the first arm servo driving `joint_key`.
pub fn resolve_arm_servo(servos: &[ArmServo], joint_key: &str) -> (found: Option<usize>)
    ensures
        match found {
            Some(i) => i < servos@.len() && spec_first_arm_servo(servos@, joint_key@) == Some(i as int),
            None => spec_first_arm_servo(servos@, joint_key@) is None,
        },
{
    let mut i: usize = 0;
    while i < servos.len()
        invariant
            i <= servos@.len(),
            spec_first_arm_servo(servos@.subrange(0, i as int), joint_key@) is None,
        decreases servos@.len() - i,
    {
        proof {
            assert(servos@.subrange(0, i + 1).drop_last() =~= servos@.subrange(0, i as int));
            assert(servos@.subrange(0, i + 1).last() == servos@[i as int]);
        }
        if crate::strings::str_eq(servos[i].joint_key.as_str(), joint_key) {
            proof {
                lemma_first_arm_servo_prefix(servos@, joint_key@, i as int + 1);
            }
            return Some(i);
        }
        i = i + 1;
    }
    proof {
        assert(servos@.subrange(0, servos@.len() as int) =~= servos@);
    }
    None
}

/// The telemetry label of each arm servo; where two entries share a servo
/// the later one wins.
pub open spec fn spec_arm_servo_labels(servos: Seq<ArmServo>) -> Map<u8, Seq<char>>
    decreases servos.len(),
{
    if servos.len() == 0 {
        Map::empty()
    } else {
        spec_arm_servo_labels(servos.drop_last()).insert(servos.last().servo_id, servos.last().display_name@)
    }
}

/// The telemetry label of each arm servo.
pub fn arm_servo_labels(servos: &[ArmServo]) -> (labels: BTreeMap<u8, String>)
    ensures
        crate::camera::labels_view(labels@) == spec_arm_servo_labels(servos@),
{
    let mut labels: BTreeMap<u8, String> = BTreeMap::new();
    let mut i: usize = 0;
    proof {
        assert(crate::camera::labels_view(labels@) =~= spec_arm_servo_labels(servos@.subrange(0, 0)));
    }
    while i < servos.len()
        invariant
            i <= servos@.len(),
            crate::camera::labels_view(labels@) == spec_arm_servo_labels(servos@.subrange(0, i as int)),
        decreases servos@.len() - i,
    {
        labels.insert(servos[i].servo_id, servos[i].display_name.clone());
        proof {
            assert(servos@.subrange(0, i + 1).drop_last() =~= servos@.subrange(0, i as int));
            assert(servos@.subrange(0, i + 1).last() == servos@[i as int]);
            assert(crate::camera::labels_view(labels@) =~= spec_arm_servo_labels(servos@.subrange(0, i + 1)));
        }
        i = i + 1;
    }
    proof {
        assert(servos@.subrange(0, servos@.len() as int) =~= servos@);
    }
    labels
}

/// Where `joint_key` stands in the configured joint order: the index of its
/// first occurrence, or `usize::MAX` for a joint the order does not list.
pub open spec fn spec_joint_rank(joint_order: Seq<String>, joint_key: Seq<char>) -> int
    decreases joint_order.len(),
{
    if joint_order.len() == 0 {
        usize::MAX as int
    } else {
        let rest = spec_joint_rank(joint_order.drop_last(), joint_key);
        if rest != usize::MAX as int {
            rest
        } else if joint_order.last()@ == joint_key {
            joint_order.len() - 1
        } else {
            usize::MAX as int
        }
    }
}

/// Servo `a` comes before servo `b` on the dashboard: by joint rank, then by
/// order, then by servo id, and in configuration order when all are equal.
pub open spec fn arm_before(joint_order: Seq<String>, servos: Seq<ArmServo>, a: usize, b: usize) -> bool {
    let ra = spec_joint_rank(joint_order, servos[a as int].joint_key@);
    let rb = spec_joint_rank(joint_order, servos[b as int].joint_key@);
    let sa = servos[a as int];
    let sb = servos[b as int];
    ||| ra < rb
    ||| ra == rb && sa.order < sb.order
    ||| ra == rb && sa.order == sb.order && sa.servo_id < sb.servo_id
    ||| ra == rb && sa.order == sb.order && sa.servo_id == sb.servo_id && a < b
}

/// The rank of `joint_key` in the joint order.
fn joint_rank(joint_order: &[String], joint_key: &str) -> (rank: usize)
    ensures
        rank == spec_joint_rank(joint_order@, joint_key@),
{
    let mut i: usize = 0;
    let mut rank: usize = usize::MAX;
    while i < joint_order.len()
        invariant
            i <= joint_order@.len(),
            rank == spec_joint_rank(joint_order@.subrange(0, i as int), joint_key@),
        decreases joint_order@.len() - i,
    {
        proof {
            assert(joint_order@.subrange(0, i + 1).drop_last() =~= joint_order@.subrange(0, i as int));
            assert(joint_order@.subrange(0, i + 1).last() == joint_order@[i as int]);
        }
        if rank == usize::MAX && crate::strings::str_eq(joint_order[i].as_str(), joint_key) {
            rank = i;
        }
        i = i + 1;
    }
    proof {
        assert(joint_order@.subrange(0, joint_order@.len() as int) =~= joint_order@);
    }
    rank
}

/// The indices `0..n` in order.
pub open spec fn index_range(n: nat) -> Seq<usize> {
    Seq::new(n, |j: int| j as usize)
}

/// The arm servos in dashboard order, as indices into `servos`: sorted by
/// joint rank, order and servo id, equal ones kept in configuration order.
pub fn sorted_arm_servos(joint_order: &[String], servos: &[ArmServo]) -> (sorted: Vec<usize>)
    ensures
        sorted@.to_multiset() == index_range(servos@.len()).to_multiset(),
        forall|a: int, b: int| 0 <= a < b < sorted@.len() ==> arm_before(joint_order@, servos@, #[trigger] sorted@[a], #[trigger] sorted@[b]),
        forall|a: int| 0 <= a < sorted@.len() ==> #[trigger] sorted@[a] < servos@.len(),
{
    broadcast use vstd::seq_lib::to_multiset_insert, vstd::seq_lib::to_multiset_build;
    let mut ranks: Vec<usize> = Vec::new();
    let mut r: usize = 0;
    while r < servos.len()
        invariant
            r <= servos@.len(),
            ranks@.len() == r,
            forall|j: int| 0 <= j < r ==> #[trigger] ranks@[j] == spec_joint_rank(joint_order@, servos@[j].joint_key@),
        decreases servos@.len() - r,
    {
        ranks.push(joint_rank(joint_order, servos[r].joint_key.as_str()));
        r = r + 1;
    }
    let mut sorted: Vec<usize> = Vec::new();
    let mut i: usize = 0;
    proof {
        assert(index_range(0) =~= sorted@);
    }
    while i < servos.len()
        invariant
            i <= servos@.len(),
            ranks@.len() == servos@.len(),
            forall|j: int| 0 <= j < servos@.len() ==> #[trigger] ranks@[j] == spec_joint_rank(joint_order@, servos@[j].joint_key@),
            sorted@.len() == i,
            sorted@.to_multiset() == index_range(i as nat).to_multiset(),
            forall|a: int| 0 <= a < sorted@.len() ==> #[trigger] sorted@[a] < i,
            forall|a: int, b: int| 0 <= a < b < sorted@.len() ==> arm_before(joint_order@, servos@, #[trigger] sorted@[a], #[trigger] sorted@[b]),
        decreases servos@.len() - i,
    {
        let mut pos: usize = 0;
        while pos < sorted.len()
            invariant
                pos <= sorted@.len(),
                sorted@.len() == i,
                i < servos@.len(),
                ranks@.len() == servos@.len(),
                forall|j: int| 0 <= j < servos@.len() ==> #[trigger] ranks@[j] == spec_joint_rank(joint_order@, servos@[j].joint_key@),
                forall|a: int| 0 <= a < sorted@.len() ==> #[trigger] sorted@[a] < i,
                forall|a: int| 0 <= a < pos ==> arm_before(joint_order@, servos@, #[trigger] sorted@[a], i),
            ensures
                pos <= sorted@.len(),
                forall|a: int| 0 <= a < pos ==> arm_before(joint_order@, servos@, #[trigger] sorted@[a], i),
                pos < sorted@.len() ==> arm_before(joint_order@, servos@, i, sorted@[pos as int]),
            decreases sorted@.len() - pos,
        {
            let other = sorted[pos];
            let ri = ranks[i];
            let ro = ranks[other];
            let goes_first = ri < ro
                || (ri == ro && servos[i].order < servos[other].order)
                || (ri == ro && servos[i].order == servos[other].order && servos[i].servo_id < servos[other].servo_id);
            if goes_first {
                break;
            }
            proof {
                assert(other < i);
                assert(arm_before(joint_order@, servos@, other, i));
            }
            pos = pos + 1;
        }
        let ghost before = sorted@;
        sorted.insert(pos, i);
        proof {
            assert(sorted@ == before.insert(pos as int, i));
            assert(sorted@.to_multiset() == before.to_multiset().insert(i)) by {
                vstd::seq_lib::to_multiset_insert(before, pos as int, i);
            }
            assert(index_range((i + 1) as nat) =~= index_range(i as nat).push(i));
            assert(index_range(i as nat).push(i).to_multiset() == index_range(i as nat).to_multiset().insert(i)) by {
                vstd::seq_lib::to_multiset_build(index_range(i as nat), i);
            }
            assert forall|a: int, b: int| 0 <= a < b < sorted@.len() implies arm_before(joint_order@, servos@, #[trigger] sorted@[a], #[trigger] sorted@[b]) by {
                if b < pos {
                    assert(sorted@[a] == before[a] && sorted@[b] == before[b]);
                } else if b == pos {
                    assert(sorted@[a] == before[a]);
                } else if a == pos {
                    assert(sorted@[b] == before[b - 1]);
                    if b - 1 > pos {
                        assert(arm_before(joint_order@, servos@, before[pos as int], before[b - 1]));
                    }
                } else if a < pos {
                    assert(sorted@[a] == before[a] && sorted@[b] == before[b - 1]);
                } else {
                    assert(sorted@[a] == before[a - 1] && sorted@[b] == before[b - 1]);
                }
            }
        }
        i = i + 1;
    }
    sorted
}

/// The refusal an arm request meets before its own checks, if any: no arm
/// configured, then arm control disabled.
pub open spec fn spec_arm_gate(configured: bool, enabled: bool) -> Option<ArmRequestError> {
    if !configured {
        Some(ArmRequestError::Unconfigured)
    } else if !enabled {
        Some(ArmRequestError::Disabled)
    } else {
        None
    }
}

/// What the control worker has to do for one queued arm action.
#[derive(Debug)]
pub struct ArmActionPlan {
    pub servo_id: u8,
    pub display_name: String,
    pub torque_limit: u16,
    /// The target pose the live position is written over; when absent the
    /// worker seeds it from the live pose of every arm servo.
    pub seed: Option<BTreeMap<u8, u16>>,
}

/// The summary after a torque limit request for an arm joint was queued.
pub open spec fn spec_queued_arm_torque_summary(torque_limit: u16, display_name: Seq<char>) -> Seq<char> {
    "queued torque limit "@ + decimal(torque_limit as nat) + " for "@ + display_name
        + "; the control worker will sync the live joint pose first"@
}

/// The summary after the worker carried out an arm action.
pub open spec fn spec_arm_action_summary(display_name: Seq<char>, torque_limit: u16) -> Seq<char> {
    "arm utility: synced "@ + display_name + " to the live pose and applied torque limit "@ + decimal(torque_limit as nat)
}

impl ArmControlState {
    /// Takes the live arm pose as the arm zero/home and target.
    pub fn capture(&mut self, configured: bool, live_pose: Option<BTreeMap<u8, u16>>) -> (result: Result<String, ArmRequestError>)
        ensures
            spec_arm_gate(configured, old(self).enabled) matches Some(e) ==> result == Err::<String, ArmRequestError>(e) && *final(self) == *old(self),
            spec_arm_gate(configured, old(self).enabled) is None && live_pose is None ==> result == Err::<String, ArmRequestError>(ArmRequestError::NoFreshPose) && *final(self) == *old(self),
            spec_arm_gate(configured, old(self).enabled) is None && live_pose is Some ==> {
                &&& result matches Ok(summary) && summary@ == "captured the current arm pose as the arm zero/home"@
                &&& final(self).base_pose matches Some(b) && b@ == live_pose->0@
                &&& final(self).target_pose matches Some(t) && t@ == live_pose->0@
                &&& final(self).summary@ == "captured the current arm pose as the arm zero/home"@
                &&& final(self).enabled == old(self).enabled
                &&& final(self).pending_actions == old(self).pending_actions
            },
    {
        if !configured {
            return Err(ArmRequestError::Unconfigured);
        }
        if !self.enabled {
            return Err(ArmRequestError::Disabled);
        }
        let pose = match live_pose {
            Some(p) => p,
            None => return Err(ArmRequestError::NoFreshPose),
        };
        self.base_pose = Some(pose.clone());
        self.target_pose = Some(pose);
        let summary = owned("captured the current arm pose as the arm zero/home");
        self.summary = summary.clone();
        Ok(summary)
    }

    /// Resets the arm target to the arm zero/home (captured from the live
    /// pose when there is none yet).
    pub fn reset(&mut self, configured: bool, live_pose: Option<BTreeMap<u8, u16>>) -> (result: Result<String, ArmRequestError>)
        ensures
            spec_arm_gate(configured, old(self).enabled) matches Some(e) ==> result == Err::<String, ArmRequestError>(e) && *final(self) == *old(self),
            spec_arm_gate(configured, old(self).enabled) is None && live_pose is None ==> result == Err::<String, ArmRequestError>(ArmRequestError::NoFreshPose) && *final(self) == *old(self),
            spec_arm_gate(configured, old(self).enabled) is None && live_pose is Some ==> {
                let base = match old(self).base_pose {
                    Some(b) => b@,
                    None => live_pose->0@,
                };
                &&& result matches Ok(summary) && summary@ == "arm target reset to the captured arm zero/home pose"@
                &&& final(self).base_pose matches Some(b) && b@ == base
                &&& final(self).target_pose matches Some(t) && t@ == base
                &&& final(self).summary@ == "arm target reset to the captured arm zero/home pose"@
                &&& final(self).enabled == old(self).enabled
                &&& final(self).pending_actions == old(self).pending_actions
            },
    {
        if !configured {
            return Err(ArmRequestError::Unconfigured);
        }
        if !self.enabled {
            return Err(ArmRequestError::Disabled);
        }
        let live = match live_pose {
            Some(p) => p,
            None => return Err(ArmRequestError::NoFreshPose),
        };
        let base = match &self.base_pose {
            Some(b) => b.clone(),
            None => live,
        };
        self.base_pose = Some(base.clone());
        self.target_pose = Some(base);
        let summary = owned("arm target reset to the captured arm zero/home pose");
        self.summary = summary.clone();
        Ok(summary)
    }

    /// Sets the arm target to the live pose, which also becomes the arm
    /// zero/home when there is none yet.
    pub fn sync_current(&mut self, configured: bool, live_pose: Option<BTreeMap<u8, u16>>) -> (result: Result<String, ArmRequestError>)
        ensures
            spec_arm_gate(configured, old(self).enabled) matches Some(e) ==> result == Err::<String, ArmRequestError>(e) && *final(self) == *old(self),
            spec_arm_gate(configured, old(self).enabled) is None && live_pose is None ==> result == Err::<String, ArmRequestError>(ArmRequestError::NoFreshPose) && *final(self) == *old(self),
            spec_arm_gate(configured, old(self).enabled) is None && live_pose is Some ==> {
                &&& result matches Ok(summary) && summary@ == "arm target synced to the live pose"@
                &&& final(self).base_pose matches Some(b) && b@ == (match old(self).base_pose {
                    Some(b0) => b0@,
                    None => live_pose->0@,
                })
                &&& final(self).target_pose matches Some(t) && t@ == live_pose->0@
                &&& final(self).summary@ == "arm target synced to the live pose"@
                &&& final(self).enabled == old(self).enabled
                &&& final(self).pending_actions == old(self).pending_actions
            },
    {
        if !configured {
            return Err(ArmRequestError::Unconfigured);
        }
        if !self.enabled {
            return Err(ArmRequestError::Disabled);
        }
        let pose = match live_pose {
            Some(p) => p,
            None => return Err(ArmRequestError::NoFreshPose),
        };
        if self.base_pose.is_none() {
            self.base_pose = Some(pose.clone());
        }
        self.target_pose = Some(pose);
        let summary = owned("arm target synced to the live pose");
        self.summary = summary.clone();
        Ok(summary)
    }

    /// Queues a torque limit for one arm joint, capped at
    /// `DASHBOARD_TORQUE_LIMIT_MAX`, and returns the new summary. A refused
    /// request changes nothing.
    pub fn queue_torque_limit(
        &mut self,
        servos: Option<&[ArmServo]>,
        joint_key: String,
        requested_limit: u16,
    ) -> (result: Result<String, ArmRequestError>)
        ensures
            spec_arm_gate(servos is Some, old(self).enabled) matches Some(e) ==> result == Err::<String, ArmRequestError>(e) && *final(self) == *old(self),
            spec_arm_gate(servos is Some, old(self).enabled) is None ==> match spec_first_arm_servo(servos->0@, joint_key@) {
                None => result == Err::<String, ArmRequestError>(ArmRequestError::UnknownJoint) && *final(self) == *old(self),
                Some(i) => {
                    let limit: u16 = if requested_limit > DASHBOARD_TORQUE_LIMIT_MAX { DASHBOARD_TORQUE_LIMIT_MAX } else { requested_limit };
                    let name = servos->0@[i].display_name@;
                    &&& result matches Ok(summary) && summary@ == spec_queued_arm_torque_summary(limit, name)
                    &&& final(self).summary@ == spec_queued_arm_torque_summary(limit, name)
                    &&& final(self).pending_actions@ == old(self).pending_actions@.push(
                        ArmHardwareAction::SetTorqueLimit { joint_key, torque_limit: limit })
                    &&& final(self).enabled == old(self).enabled
                    &&& final(self).base_pose == old(self).base_pose
                    &&& final(self).target_pose == old(self).target_pose
                },
            },
    {
        let servos = match servos {
            Some(s) => s,
            None => return Err(ArmRequestError::Unconfigured),
        };
        if !self.enabled {
            return Err(ArmRequestError::Disabled);
        }
        let index = match resolve_arm_servo(servos, joint_key.as_str()) {
            Some(i) => i,
            None => return Err(ArmRequestError::UnknownJoint),
        };
        let torque_limit = if requested_limit > DASHBOARD_TORQUE_LIMIT_MAX { DASHBOARD_TORQUE_LIMIT_MAX } else { requested_limit };
        let mut summary = String::new();
        summary.append("queued torque limit ");
        append_decimal(&mut summary, torque_limit as u64);
        summary.append(" for ");
        summary.append(servos[index].display_name.as_str());
        summary.append("; the control worker will sync the live joint pose first");
        proof {
            assert(summary@ =~= spec_queued_arm_torque_summary(torque_limit, servos@[index as int].display_name@));
        }
        self.pending_actions.push_back(ArmHardwareAction::SetTorqueLimit { joint_key, torque_limit });
        self.summary = summary.clone();
        Ok(summary)
    }

    /// Takes the oldest queued arm action and plans it: the servo of its
    /// joint, its torque limit and the target pose the live position is
    /// written over (the target, else the arm zero/home). An action for an
    /// unknown joint is dropped and reported.
    pub fn plan_next_action(&mut self, servos: &[ArmServo]) -> (plan: Result<Option<ArmActionPlan>, ArmRequestError>)
        ensures
            final(self).enabled == old(self).enabled,
            final(self).base_pose == old(self).base_pose,
            final(self).target_pose == old(self).target_pose,
            final(self).summary == old(self).summary,
            old(self).pending_actions@.len() == 0 ==> (plan matches Ok(None)) && final(self).pending_actions@ == old(self).pending_actions@,
            old(self).pending_actions@.len() > 0 ==> {
                let ArmHardwareAction::SetTorqueLimit { joint_key, torque_limit } = old(self).pending_actions@[0];
                &&& final(self).pending_actions@ == old(self).pending_actions@.drop_first()
                &&& match spec_first_arm_servo(servos@, joint_key@) {
                    None => plan == Err::<Option<ArmActionPlan>, ArmRequestError>(ArmRequestError::UnknownJoint),
                    Some(i) => plan matches Ok(Some(p)) && {
                        &&& p.servo_id == servos@[i].servo_id
                        &&& p.display_name@ == servos@[i].display_name@
                        &&& p.torque_limit == torque_limit
                        &&& match old(self).target_pose {
                            Some(t) => p.seed matches Some(seed) && seed@ == t@,
                            None => match old(self).base_pose {
                                Some(b) => p.seed matches Some(seed) && seed@ == b@,
                                None => p.seed is None,
                            },
                        }
                    },
                }
            },
    {
        let action = match self.pending_actions.pop_front() {
            Some(action) => action,
            None => return Ok(None),
        };
        let ArmHardwareAction::SetTorqueLimit { joint_key, torque_limit } = action;
        let index = match resolve_arm_servo(servos, joint_key.as_str()) {
            Some(i) => i,
            None => return Err(ArmRequestError::UnknownJoint),
        };
        let seed = match &self.target_pose {
            Some(t) => Some(t.clone()),
            None => match &self.base_pose {
                Some(b) => Some(b.clone()),
                None => None,
            },
        };
        Ok(Some(ArmActionPlan {
            servo_id: servos[index].servo_id,
            display_name: servos[index].display_name.clone(),
            torque_limit,
            seed,
        }))
    }

    /// Records a carried-out arm action: the merged pose becomes the target,
    /// and also the arm zero/home when there is none yet.
    pub fn complete_action(&mut self, plan: &ArmActionPlan, next_target: BTreeMap<u8, u16>) -> (summary: String)
        ensures
            summary@ == spec_arm_action_summary(plan.display_name@, plan.torque_limit),
            final(self).summary == summary,
            final(self).target_pose matches Some(t) && t@ == next_target@,
            final(self).base_pose matches Some(b) && b@ == (match old(self).base_pose {
                Some(b0) => b0@,
                None => next_target@,
            }),
            final(self).enabled == old(self).enabled,
            final(self).pending_actions == old(self).pending_actions,
    {
        let mut summary = String::new();
        summary.append("arm utility: synced ");
        summary.append(plan.display_name.as_str());
        summary.append(" to the live pose and applied torque limit ");
        append_decimal(&mut summary, plan.torque_limit as u64);
        proof {
            assert(summary@ =~= spec_arm_action_summary(plan.display_name@, plan.torque_limit));
        }
        if self.base_pose.is_none() {
            self.base_pose = Some(next_target.clone());
        }
        self.target_pose = Some(next_target);
        self.summary = summary.clone();
        summary
    }
}

/// Whether arm control is ready, and the poll problem to show: a transport
/// error when there is one, else how many arm servos replied when some did
/// not.
pub open spec fn spec_arm_readiness(
    base_captured: bool,
    target_set: bool,
    online_count: nat,
    servo_count: nat,
    transport_error: Option<Seq<char>>,
) -> (bool, Option<Seq<char>>) {
    let all_online = online_count == servo_count;
    (
        base_captured && target_set && all_online,
        match transport_error {
            Some(e) => Some(e),
            None => if all_online {
                None
            } else {
                Some(decimal(online_count) + " of "@ + decimal(servo_count) + " configured arm servos replied on the latest sweep"@)
            },
        },
    )
}

/// Whether arm control is ready and which poll problem to show.
pub fn arm_readiness(
    control: &ArmControlState,
    online_count: usize,
    servo_count: usize,
    transport_error: Option<String>,
) -> (result: (bool, Option<String>))
    ensures
        ({
            let (ready, error) = spec_arm_readiness(
                control.base_pose is Some,
                control.target_pose is Some,
                online_count as nat,
                servo_count as nat,
                match transport_error {
                    Some(e) => Some(e@),
                    None => None,
                },
            );
            &&& result.0 == ready
            &&& match result.1 {
                Some(e) => error == Some(e@),
                None => error is None,
            }
        }),
{
    let all_online = online_count == servo_count;
    let ready = control.base_pose.is_some() && control.target_pose.is_some() && all_online;
    let error = match transport_error {
        Some(e) => Some(e),
        None => if all_online {
            None
        } else {
            let mut message = String::new();
            append_decimal(&mut message, online_count as u64);
            message.append(" of ");
            append_decimal(&mut message, servo_count as u64);
            message.append(" configured arm servos replied on the latest sweep");
            proof {
                assert(message@ =~= decimal(online_count as nat) + " of "@ + decimal(servo_count as nat)
                    + " configured arm servos replied on the latest sweep"@);
            }
            Some(message)
        },
    };
    (ready, error)
}

/// The tilted stand control, apart from its pitch and roll angles.
#[derive(Debug)]
pub struct TiltedStandState {
    pub enabled: bool,
    pub summary: String,
}

/// The tilted stand summary right after a mode change.
pub open spec fn spec_tilted_stand_initial_summary(mode: BrainMode) -> Seq<char> {
    if mode == BrainMode::TiltedStand {
        "waiting for the current robot stance before tilted stand parameters take effect"@
    } else {
        "tilted stand is disabled; switch the motion mode to tilted-stand to enable pitch and roll sliders"@
    }
}

/// The summary shown for an enabled tilted stand whose stance is known but
/// whose parameters have not changed yet.
pub open spec fn spec_tilted_stand_ready_summary() -> Seq<char> {
    "tilted stand is ready; holding the captured stance until pitch or roll changes"@
}

impl TiltedStandState {
    /// The tilted stand state right after switching to `mode`: enabled only
    /// in tilted-stand mode.
    pub fn for_mode(mode: BrainMode) -> (state: Self)
        ensures
            state.enabled == (mode == BrainMode::TiltedStand),
            state.summary@ == spec_tilted_stand_initial_summary(mode),
    {
        let enabled = match mode {
            BrainMode::TiltedStand => true,
            _ => false,
        };
        let summary = if enabled {
            owned("waiting for the current robot stance before tilted stand parameters take effect")
        } else {
            owned("tilted stand is disabled; switch the motion mode to tilted-stand to enable pitch and roll sliders")
        };
        TiltedStandState { enabled, summary }
    }

    /// The summary the dashboard shows: once an enabled tilted stand is
    /// ready, a summary still waiting for the stance reads as ready instead.
    pub fn display_summary(&self, ready: bool) -> (summary: String)
        ensures
            summary@ == (if self.enabled && ready && spec_contains(self.summary@, "waiting for the current robot stance"@) {
                spec_tilted_stand_ready_summary()
            } else {
                self.summary@
            }),
    {
        if self.enabled && ready && str_contains(self.summary.as_str(), "waiting for the current robot stance") {
            owned("tilted stand is ready; holding the captured stance until pitch or roll changes")
        } else {
            owned(self.summary.as_str())
        }
    }
}

} // verus!
