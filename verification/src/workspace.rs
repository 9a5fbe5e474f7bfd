use vstd::prelude::*;
use crate::ticks::clamp_ticks;

verus! {

/// Highest position a servo accepts, in ticks.
pub const MAX_TICKS: u16 = 4095;

/// The direction (-1, 0 or 1) that leads from `from` to `to`.
pub open spec fn direction(from: int, to: int) -> int {
    if to > from { 1 } else if to < from { -1 } else { 0 }
}

/// The limit moved by `margin` ticks toward `center`, clamped into `0..=4095`.
pub open spec fn spec_back_off_from_limit(limit_ticks: int, center_ticks: int, margin: int) -> int {
    clamp_ticks(limit_ticks + direction(limit_ticks, center_ticks) * margin)
}

/// Back off from a hard limit by `margin` ticks toward `center_ticks`.
pub fn back_off_from_limit(limit_ticks: u16, center_ticks: u16, margin: i32) -> (result: u16)
    ensures
        result == spec_back_off_from_limit(limit_ticks as int, center_ticks as int, margin as int),
        result <= MAX_TICKS,
{
    let limit = limit_ticks as i64;
    let center = center_ticks as i64;
    let dir: i64 = if center > limit {
        1
    } else if center < limit {
        -1
    } else {
        0
    };
    let moved: i64 = limit + dir * (margin as i64);
    if moved < 0 {
        0
    } else if moved > 4095 {
        4095
    } else {
        moved as u16
    }
}

/// How far a workspace limit is backed off from a measured mechanical stop.
pub const LIMIT_MARGIN_TICKS: i32 = 40;

/// The distance between two tick values.
pub open spec fn tick_distance(a: int, b: int) -> int {
    if a >= b { a - b } else { b - a }
}

/// The femur extension limit: the floor-clearance limit `safe_ticks` and the
/// backed-off mechanical limit `hard_ticks` are compared by their distance
/// from the stand position, and the nearer distance is taken in the
/// direction of the mechanical limit.
pub open spec fn spec_conservative_ext_limit(safe_ticks: int, hard_ticks: int, stand_ticks: int) -> int {
    let safe_delta = tick_distance(safe_ticks, stand_ticks);
    let hard_delta = tick_distance(hard_ticks, stand_ticks);
    let delta = if safe_delta <= hard_delta { safe_delta } else { hard_delta };
    clamp_ticks(stand_ticks + direction(stand_ticks, hard_ticks) * delta)
}

/// The femur extension limit of a workspace calibration from the
/// floor-clearance limit and the measured negative end of the femur: the
/// mechanical limit is backed off by `LIMIT_MARGIN_TICKS` toward the stand
/// position, and whichever limit lies closer to the stand position wins.
pub fn conservative_ext_limit(safe_ticks: u16, femur_negative_end_ticks: u16, femur_stand_ticks: u16) -> (limit: u16)
    ensures
        limit == spec_conservative_ext_limit(
            safe_ticks as int,
            spec_back_off_from_limit(femur_negative_end_ticks as int, femur_stand_ticks as int, LIMIT_MARGIN_TICKS as int),
            femur_stand_ticks as int,
        ),
{
    let hard = back_off_from_limit(femur_negative_end_ticks, femur_stand_ticks, LIMIT_MARGIN_TICKS);
    let stand = femur_stand_ticks as i32;
    let safe_delta: i32 = if safe_ticks as i32 >= stand { safe_ticks as i32 - stand } else { stand - safe_ticks as i32 };
    let hard_delta: i32 = if hard as i32 >= stand { hard as i32 - stand } else { stand - hard as i32 };
    let delta: i32 = if safe_delta <= hard_delta { safe_delta } else { hard_delta };
    let dir: i32 = if hard as i32 > stand { 1 } else if (hard as i32) < stand { -1 } else { 0 };
    let moved: i32 = stand + dir * delta;
    if moved < 0 {
        0
    } else if moved > 4095 {
        4095
    } else {
        moved as u16
    }
}

/// The chosen extension limit never lies beyond the mechanical limit as seen
/// from the stand position, nor on the other side of the stand position.
pub proof fn lemma_ext_limit_within_mechanical(safe_ticks: int, hard_ticks: int, stand_ticks: int)
    requires
        0 <= safe_ticks <= 4095,
        0 <= hard_ticks <= 4095,
        0 <= stand_ticks <= 4095,
    ensures
        ({
            let limit = spec_conservative_ext_limit(safe_ticks, hard_ticks, stand_ticks);
            &&& tick_distance(limit, stand_ticks) <= tick_distance(hard_ticks, stand_ticks)
            &&& hard_ticks >= stand_ticks ==> stand_ticks <= limit <= hard_ticks
            &&& hard_ticks <= stand_ticks ==> hard_ticks <= limit <= stand_ticks
        }),
{
    let safe_delta = tick_distance(safe_ticks, stand_ticks);
    let hard_delta = tick_distance(hard_ticks, stand_ticks);
    let delta = if safe_delta <= hard_delta { safe_delta } else { hard_delta };
    let dir = direction(stand_ticks, hard_ticks);
    if dir == 1 {
        assert(dir * delta == delta);
    } else if dir == -1 {
        assert(dir * delta == -delta);
    } else {
        assert(dir * delta == 0);
    }
}

} // verus!

verus! {

/// The torque regime a workspace move runs under.
#[derive(Clone, Copy, Debug, PartialEq, Eq, Structural)]
pub enum TorqueMode {
    Sense,
    TryMove,
    Move,
    Hold,
}

/// Parameters of the low-torque range and limit sensing.
#[derive(Clone, Copy, Debug)]
pub struct SenseParams {
    pub probe_torque_limit: u16,
    pub restore_torque_limit: u16,
    pub poll_ms: u64,
    pub stop_speed_ticks: u16,
    pub confirm_stopped_samples: u8,
    pub move_timeout_ms: u64,
}

/// The two torque limits a workspace calibration switches between: the low
/// sensing limit and the normal move limit.
#[derive(Clone, Copy, Debug, PartialEq, Eq, Structural)]
pub struct WorkspaceTorqueLimits {
    pub sense_limit: u16,
    pub move_limit: u16,
}

impl<'a> From<&'a SenseParams> for WorkspaceTorqueLimits {
    fn from(params: &'a SenseParams) -> (limits: Self) {
        WorkspaceTorqueLimits {
            sense_limit: params.probe_torque_limit,
            move_limit: params.restore_torque_limit,
        }
    }
}

impl<'a> vstd::std_specs::convert::FromSpecImpl<&'a SenseParams> for WorkspaceTorqueLimits {
    open spec fn obeys_from_spec() -> bool {
        true
    }

    open spec fn from_spec(params: &'a SenseParams) -> WorkspaceTorqueLimits {
        WorkspaceTorqueLimits {
            sense_limit: params.probe_torque_limit,
            move_limit: params.restore_torque_limit,
        }
    }
}

impl WorkspaceTorqueLimits {
    /// The limit a torque mode runs under.
    pub open spec fn spec_limit_for(self, mode: TorqueMode) -> u16 {
        match mode {
            TorqueMode::Sense | TorqueMode::TryMove => self.sense_limit,
            TorqueMode::Move | TorqueMode::Hold => self.move_limit,
        }
    }

    /// The torque limit for `mode`: sensing and tentative moves run at the
    /// low sensing limit, regular moves and holds at the move limit.
    pub fn limit_for(self, mode: TorqueMode) -> (limit: u16)
        ensures
            limit == self.spec_limit_for(mode),
    {
        match mode {
            TorqueMode::Sense | TorqueMode::TryMove => self.sense_limit,
            TorqueMode::Move | TorqueMode::Hold => self.move_limit,
        }
    }
}

/// Why a torque window failed.
#[derive(Debug)]
pub enum TorqueWindowError<E> {
    /// Raising the torque for the action failed; the action did not run.
    Activate(E),
    /// The action failed and the idle limit was restored.
    Action(E),
    /// The action succeeded but restoring the idle limit failed.
    Restore(E),
    /// The action failed and restoring the idle limit failed too.
    ActionAndRestore(E, E),
}

impl TorqueWindowError<String> {
    /// The message of the failure: the error that occurred, or both errors
    /// when the action and the restoration failed.
    pub open spec fn spec_message(self) -> Seq<char> {
        match self {
            TorqueWindowError::Activate(e) => e@,
            TorqueWindowError::Action(e) => e@,
            TorqueWindowError::Restore(e) => e@,
            TorqueWindowError::ActionAndRestore(a, r) => a@ + "; additionally failed to restore sensing torque: "@ + r@,
        }
    }

    /// The message of the failure.
    pub fn into_message(self) -> (message: String)
        ensures
            message@ == self.spec_message(),
    {
        match self {
            TorqueWindowError::Activate(e) => e,
            TorqueWindowError::Action(e) => e,
            TorqueWindowError::Restore(e) => e,
            TorqueWindowError::ActionAndRestore(a, r) => {
                let mut message = a;
                message.append("; additionally failed to restore sensing torque: ");
                message.append(r.as_str());
                message
            },
        }
    }
}

/// The outcome of a torque window whose action gave `action_result` and whose
/// restoration of the idle limit gave `idle_result`.
pub open spec fn spec_combine_window_results<T, E>(
    action_result: Result<T, E>,
    idle_result: Result<(), E>,
) -> Result<T, TorqueWindowError<E>> {
    match (action_result, idle_result) {
        (Ok(value), Ok(())) => Ok(value),
        (Err(action_err), Ok(())) => Err(TorqueWindowError::Action(action_err)),
        (Ok(_), Err(idle_err)) => Err(TorqueWindowError::Restore(idle_err)),
        (Err(action_err), Err(idle_err)) => Err(TorqueWindowError::ActionAndRestore(action_err, idle_err)),
    }
}

/// Combines the action's result with that of restoring the idle limit: the
/// value when both succeed, otherwise every error that occurred, the
/// action's first.
pub fn combine_window_results<T, E>(action_result: Result<T, E>, idle_result: Result<(), E>) -> (result: Result<T, TorqueWindowError<E>>)
    ensures
        result == spec_combine_window_results(action_result, idle_result),
{
    match (action_result, idle_result) {
        (Ok(value), Ok(())) => Ok(value),
        (Err(action_err), Ok(())) => Err(TorqueWindowError::Action(action_err)),
        (Ok(_), Err(idle_err)) => Err(TorqueWindowError::Restore(idle_err)),
        (Err(action_err), Err(idle_err)) => Err(TorqueWindowError::ActionAndRestore(action_err, idle_err)),
    }
}

/// Runs `action` with the servos at `active_value` and puts them back to
/// `idle_value` afterwards, whether the action succeeded or not. When raising
/// to `active_value` fails the action is not run and that error is returned.
/// Otherwise the action runs on the context as the raise left it, the
/// restoration runs on the context as the action left it, and the outcome
/// combines the action's result with the restoration's.
pub fn with_torque_window<C, TValue, T, E, FSet, FAction>(
    context: &mut C,
    servo_ids: &[u8],
    active_value: TValue,
    idle_value: TValue,
    active_label: &str,
    idle_label: &str,
    set_limit: FSet,
    action: FAction,
) -> (result: Result<T, TorqueWindowError<E>>)
    where
        TValue: Copy,
        FSet: Fn(&mut C, &[u8], TValue, &str) -> Result<(), E>,
        FAction: FnOnce(&mut C) -> Result<T, E>,
    requires
        forall|c: &mut C, ids: &[u8], v: TValue, label: &str| set_limit.requires((c, ids, v, label)),
        forall|c: &mut C| action.requires((c,)),
    ensures
        ({
            ||| exists|c0: &mut C, raised: Result<(), E>| {
                &&& #[trigger] call_ensures(set_limit, (c0, servo_ids, active_value, active_label), raised)
                &&& raised is Err
                &&& *c0 == *old(context)
                &&& *final(context) == *final(c0)
                &&& result == Err::<T, TorqueWindowError<E>>(TorqueWindowError::Activate(raised->Err_0))
            }
            ||| exists|c0: &mut C, raised: Result<(), E>, c1: &mut C, action_result: Result<T, E>, c2: &mut C, idle_result: Result<(), E>| {
                &&& #[trigger] call_ensures(set_limit, (c0, servo_ids, active_value, active_label), raised)
                &&& raised is Ok
                &&& *c0 == *old(context)
                &&& *c1 == *final(c0)
                &&& #[trigger] call_ensures(action, (c1,), action_result)
                &&& #[trigger] call_ensures(set_limit, (c2, servo_ids, idle_value, idle_label), idle_result)
                &&& *c2 == *final(c1)
                &&& *final(context) == *final(c2)
                &&& result == spec_combine_window_results(action_result, idle_result)
            }
        }),
{
    let raised = set_limit(context, servo_ids, active_value, active_label);
    match raised {
        Ok(()) => {},
        Err(err) => {
            return Err(TorqueWindowError::Activate(err));
        },
    }
    let action_result = action(context);
    let idle_result = set_limit(context, servo_ids, idle_value, idle_label);
    combine_window_results(action_result, idle_result)
}

} // verus!

verus! {

/// The tick positions a workspace calibration of one leg works between:
/// the stand positions of femur and tibia, the femur lift limit and the
/// tibia retract position.
#[derive(Clone, Copy, Debug, PartialEq, Eq, Structural)]
pub struct WorkspaceTickBounds {
    pub femur_stand_ticks: u16,
    pub tibia_stand_ticks: u16,
    pub femur_lift_ticks: u16,
    pub tibia_retract_ticks: u16,
}

/// A stand pose without a position for this joint's servo.
#[derive(Clone, Copy, Debug, PartialEq, Eq, Structural)]
pub enum MissingStandPose {
    Femur(u8),
    Tibia(u8),
}

/// The tick bounds of a leg's workspace: the femur lifts to its measured
/// positive end and the tibia retracts to its measured positive end, each
/// backed off by `LIMIT_MARGIN_TICKS` (toward the femur's stand position and
/// toward the tibia's midpoint). Fails when the stand pose lacks the femur,
/// then when it lacks the tibia.
pub fn workspace_tick_bounds(
    leg: &crate::config::LegConfig,
    stand_pose: &std::collections::BTreeMap<u8, u16>,
    femur_ranges: &crate::calibrate::JointRangeMeasurement,
    tibia_ranges: &crate::calibrate::JointRangeMeasurement,
) -> (result: Result<WorkspaceTickBounds, MissingStandPose>)
    ensures
        !stand_pose@.contains_key(leg.femur_servo_id) ==> result == Err::<WorkspaceTickBounds, MissingStandPose>(MissingStandPose::Femur(leg.femur_servo_id)),
        stand_pose@.contains_key(leg.femur_servo_id) && !stand_pose@.contains_key(leg.tibia_servo_id)
            ==> result == Err::<WorkspaceTickBounds, MissingStandPose>(MissingStandPose::Tibia(leg.tibia_servo_id)),
        stand_pose@.contains_key(leg.femur_servo_id) && stand_pose@.contains_key(leg.tibia_servo_id) ==> result == Ok::<WorkspaceTickBounds, MissingStandPose>(WorkspaceTickBounds {
            femur_stand_ticks: stand_pose@[leg.femur_servo_id],
            tibia_stand_ticks: stand_pose@[leg.tibia_servo_id],
            femur_lift_ticks: spec_back_off_from_limit(
                femur_ranges.logical_positive_end_ticks as int,
                stand_pose@[leg.femur_servo_id] as int,
                LIMIT_MARGIN_TICKS as int,
            ) as u16,
            tibia_retract_ticks: spec_back_off_from_limit(
                tibia_ranges.logical_positive_end_ticks as int,
                tibia_ranges.midpoint_ticks as int,
                LIMIT_MARGIN_TICKS as int,
            ) as u16,
        }),
{
    broadcast use vstd::std_specs::btree::group_btree_axioms;
    let femur_stand_ticks = match stand_pose.get(&leg.femur_servo_id) {
        Some(t) => *t,
        None => return Err(MissingStandPose::Femur(leg.femur_servo_id)),
    };
    let tibia_stand_ticks = match stand_pose.get(&leg.tibia_servo_id) {
        Some(t) => *t,
        None => return Err(MissingStandPose::Tibia(leg.tibia_servo_id)),
    };
    Ok(WorkspaceTickBounds {
        femur_stand_ticks,
        tibia_stand_ticks,
        femur_lift_ticks: back_off_from_limit(femur_ranges.logical_positive_end_ticks, femur_stand_ticks, LIMIT_MARGIN_TICKS),
        tibia_retract_ticks: back_off_from_limit(tibia_ranges.logical_positive_end_ticks, tibia_ranges.midpoint_ticks, LIMIT_MARGIN_TICKS),
    })
}

} // verus!
