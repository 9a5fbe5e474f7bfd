use vstd::prelude::*;
use std::collections::BTreeMap;
use crate::control::BusLink;
use crate::manual::{
    ArmControlState, ManualControlState, TiltedStandState, spec_arm_initial_summary, spec_arm_ready_summary, spec_manual_initial_summary,
    spec_manual_ready_summary, spec_tilted_stand_initial_summary,
};
use crate::modes::BrainMode;
use crate::motion::{MotionRuntime, spec_armed_summary, spec_waiting_summary};
use crate::text::{append_decimal, decimal};

verus! {

/// `motion` is the controller of a freshly entered `mode`.
pub open spec fn is_fresh_motion(motion: MotionRuntime, mode: BrainMode) -> bool {
    &&& motion.mode == mode
    &&& !motion.armed
    &&& motion.initial_pose is None
    &&& motion.hold_pose is None
    &&& motion.body_attitude_strikes == 0
    &&& motion.low_voltage_strikes@ == Map::<u8, u8>::empty()
    &&& motion.summary@ == spec_waiting_summary(mode)
    &&& motion.fault is None
}

/// `manual` is the manual control of a freshly entered `mode`.
pub open spec fn is_fresh_manual(manual: ManualControlState, mode: BrainMode) -> bool {
    &&& manual.enabled == (mode == BrainMode::Manual)
    &&& manual.base_pose is None
    &&& manual.target_pose is None
    &&& manual.summary@ == spec_manual_initial_summary(mode)
    &&& manual.pending_actions@.len() == 0
}

/// `arm` is the arm control of a freshly entered `mode`.
pub open spec fn is_fresh_arm(arm: ArmControlState, mode: BrainMode, configured: bool) -> bool {
    &&& arm.enabled == (configured && mode == BrainMode::Manual)
    &&& arm.base_pose is None
    &&& arm.target_pose is None
    &&& arm.summary@ == spec_arm_initial_summary(mode, configured)
    &&& arm.pending_actions@.len() == 0
}

/// `tilted` is the tilted-stand state of a freshly entered `mode`.
pub open spec fn is_fresh_tilted(tilted: TiltedStandState, mode: BrainMode) -> bool {
    &&& tilted.enabled == (mode == BrainMode::TiltedStand)
    &&& tilted.summary@ == spec_tilted_stand_initial_summary(mode)
}

/// Everything a mode switch resets, and the torque it drops.
pub struct ModeChange {
    pub mode: BrainMode,
    pub motion: MotionRuntime,
    pub manual: ManualControlState,
    pub arm: ArmControlState,
    pub tilted_stand: TiltedStandState,
    pub leg_link: BusLink,
    /// A torque-off command has to be sent on the leg bus.
    pub release_leg_torque: bool,
    pub arm_link: BusLink,
    /// A torque-off command has to be sent on the arm bus.
    pub release_arm_torque: bool,
}

/// The effect of a pending mode request: nothing when there is none or it
/// names the current mode; otherwise a fresh controller, fresh manual, arm
/// and tilted-stand states for the new mode, and the leg and arm buses with
/// torque dropped where the new mode no longer wants it (the legs keep
/// torque only in modes that drive them, the arm only in manual mode).
pub fn mode_change(
    current: BrainMode,
    requested: Option<BrainMode>,
    arm_configured: bool,
    leg_link: BusLink,
    arm_link: BusLink,
) -> (change: Option<ModeChange>)
    ensures
        change is None <==> (requested is None || requested == Some(current)),
        change matches Some(c) ==> {
            let mode = requested->0;
            &&& c.mode == mode
            &&& is_fresh_motion(c.motion, mode)
            &&& is_fresh_manual(c.manual, mode)
            &&& is_fresh_arm(c.arm, mode, arm_configured)
            &&& is_fresh_tilted(c.tilted_stand, mode)
            &&& (c.leg_link, c.release_leg_torque) == leg_link.spec_release_torque(mode.spec_requires_torque())
            &&& (c.arm_link, c.release_arm_torque) == arm_link.spec_release_torque(mode == BrainMode::Manual)
        },
{
    let mode = match requested {
        None => return None,
        Some(m) => m,
    };
    if mode == current {
        return None;
    }
    let (leg, release_leg) = leg_link.release_torque(mode.requires_torque());
    let arm_wants = match mode {
        BrainMode::Manual => true,
        _ => false,
    };
    let (arm, release_arm) = arm_link.release_torque(arm_wants);
    Some(ModeChange {
        mode,
        motion: MotionRuntime::new(mode),
        manual: ManualControlState::for_mode(mode),
        arm: ArmControlState::for_mode(mode, arm_configured),
        tilted_stand: TiltedStandState::for_mode(mode),
        leg_link: leg,
        release_leg_torque: release_leg,
        arm_link: arm,
        release_arm_torque: release_arm,
    })
}

/// The summary when the torque limit could not be restored before arming.
pub open spec fn spec_restore_failed_summary(error: Seq<char>) -> Seq<char> {
    "failed to restore torque limit before motion: "@ + error
}

/// Arms motion at the measured `pose` once restoring the configured torque
/// limit (`restore`) succeeded, making the pose the manual target in manual
/// mode. When the restore failed, motion stays disarmed, says why, and manual
/// control is left alone. Returns whether motion is armed afterwards.
pub fn arm_after_restore(
    motion: &mut MotionRuntime,
    manual: &mut ManualControlState,
    pose: BTreeMap<u8, u16>,
    restore: Result<(), String>,
) -> (armed: bool)
    ensures
        armed == final(motion).armed,
        old(motion).armed ==> *final(motion) == *old(motion) && *final(manual) == *old(manual),
        !old(motion).armed && restore is Ok ==> {
            &&& final(motion).armed
            &&& final(motion).mode == old(motion).mode
            &&& final(motion).initial_pose matches Some(p) && p@ == pose@
            &&& final(motion).hold_pose == Some(pose)
            &&& final(motion).body_attitude_strikes == 0
            &&& final(motion).low_voltage_strikes == old(motion).low_voltage_strikes
            &&& final(motion).summary@ == spec_armed_summary(old(motion).mode)
            &&& final(motion).fault == old(motion).fault
            &&& (old(motion).mode == BrainMode::Manual && old(manual).enabled && old(manual).target_pose is None) ==> {
                &&& final(manual).target_pose matches Some(t) && t@ == pose@
                &&& final(manual).summary@ == spec_manual_ready_summary()
                &&& final(manual).enabled == old(manual).enabled
                &&& final(manual).base_pose == old(manual).base_pose
                &&& final(manual).pending_actions == old(manual).pending_actions
            }
            &&& !(old(motion).mode == BrainMode::Manual && old(manual).enabled && old(manual).target_pose is None)
                ==> *final(manual) == *old(manual)
        },
        !old(motion).armed && restore is Err ==> {
            &&& !final(motion).armed
            &&& final(motion).initial_pose is None
            &&& final(motion).body_attitude_strikes == 0
            &&& final(motion).summary@ == spec_restore_failed_summary(restore->Err_0@)
            &&& final(motion).mode == old(motion).mode
            &&& final(motion).hold_pose == old(motion).hold_pose
            &&& final(motion).low_voltage_strikes == old(motion).low_voltage_strikes
            &&& final(motion).fault == old(motion).fault
            &&& *final(manual) == *old(manual)
        },
{
    if motion.armed {
        return true;
    }
    match restore {
        Ok(()) => {
            let mode = motion.mode;
            manual.ensure_reference_pose(mode, &pose);
            motion.arm(pose);
            true
        },
        Err(error) => {
            let mut summary = String::new();
            summary.append("failed to restore torque limit before motion: ");
            summary.append(error.as_str());
            proof { assert(summary@ =~= spec_restore_failed_summary(error@)); }
            motion.disarm(summary);
            false
        },
    }
}

/// `after` is the arm control `before` with at most its summary changed.
pub open spec fn keeps_arm_control(before: ArmControlState, after: ArmControlState) -> bool {
    &&& after.enabled == before.enabled
    &&& after.base_pose == before.base_pose
    &&& after.target_pose == before.target_pose
    &&& after.pending_actions == before.pending_actions
}

/// What the worker does with the arm bus after polling it this tick.
#[derive(Clone, Copy, Debug, PartialEq, Eq, Structural)]
pub enum ArmTick {
    /// Drop the link and open the bus again.
    Reopen,
    /// Carry out queued arm actions and send the arm target.
    Drive,
    /// Leave the arm alone this tick.
    Idle,
}

/// The summary while manual arm control waits for a full arm pose.
pub open spec fn spec_arm_waiting_summary(servo_count: nat) -> Seq<char> {
    "waiting for all "@ + decimal(servo_count) + " arm servo feedback replies before arm control becomes ready"@
}

/// The error reported while the arm bus waits to be reopened.
pub open spec fn spec_arm_reopen_error() -> Seq<char> {
    "arm servo bus needs to be reopened"@
}

/// The arm summary while the arm bus waits to be reopened.
pub open spec fn spec_arm_link_dropped_summary() -> Seq<char> {
    "arm servo bus link dropped; waiting to reopen"@
}

/// The arm summary while a motion fault is latched in manual mode.
pub open spec fn spec_arm_paused_summary() -> Seq<char> {
    "arm control paused because a motion safety fault is latched"@
}

/// The arm decisions of one worker tick, after the arm servos were polled.
/// A poll that calls for reopening drops the link and says so. With a full
/// arm pose (`arm_pose`) the arm error clears; in manual mode without a
/// latched fault the arm control captures its reference pose and the arm is
/// driven, while a latched fault pauses it. Without a full pose, an enabled
/// manual arm control that has no target yet says how many replies it waits
/// for.
pub fn arm_tick(
    mode: BrainMode,
    fault_latched: bool,
    reopen_needed: bool,
    arm_pose: Option<&BTreeMap<u8, u16>>,
    arm_servo_count: u64,
    control: &mut ArmControlState,
    error: &mut Option<String>,
) -> (tick: ArmTick)
    ensures
        reopen_needed ==> {
            &&& tick == ArmTick::Reopen
            &&& *final(error) matches Some(e) && e@ == spec_arm_reopen_error()
            &&& final(control).summary@ == spec_arm_link_dropped_summary()
            &&& keeps_arm_control(*old(control), *final(control))
        },
        !reopen_needed && arm_pose is Some ==> {
            &&& *final(error) == None::<String>
            &&& tick == (if mode == BrainMode::Manual && !fault_latched { ArmTick::Drive } else { ArmTick::Idle })
        },
        !reopen_needed && arm_pose is Some && mode == BrainMode::Manual && !fault_latched ==> {
            &&& old(control).enabled && !(old(control).base_pose is Some && old(control).target_pose is Some) ==> {
                &&& final(control).base_pose matches Some(b) && b@ == arm_pose->Some_0@
                &&& final(control).target_pose matches Some(t) && t@ == arm_pose->Some_0@
                &&& final(control).summary@ == spec_arm_ready_summary()
                &&& final(control).enabled == old(control).enabled
                &&& final(control).pending_actions == old(control).pending_actions
            }
            &&& !(old(control).enabled && !(old(control).base_pose is Some && old(control).target_pose is Some))
                ==> *final(control) == *old(control)
        },
        !reopen_needed && arm_pose is Some && mode == BrainMode::Manual && fault_latched ==> {
            &&& final(control).summary@ == spec_arm_paused_summary()
            &&& keeps_arm_control(*old(control), *final(control))
        },
        !reopen_needed && arm_pose is Some && mode != BrainMode::Manual ==> *final(control) == *old(control),
        !reopen_needed && arm_pose is None ==> {
            &&& tick == ArmTick::Idle
            &&& *final(error) == *old(error)
            &&& (mode == BrainMode::Manual && old(control).enabled && old(control).target_pose is None) ==> {
                &&& final(control).summary@ == spec_arm_waiting_summary(arm_servo_count as nat)
                &&& keeps_arm_control(*old(control), *final(control))
            }
            &&& !(mode == BrainMode::Manual && old(control).enabled && old(control).target_pose is None)
                ==> *final(control) == *old(control)
        },
{
    let manual = match mode {
        BrainMode::Manual => true,
        _ => false,
    };
    if reopen_needed {
        *error = Some(owned_text("arm servo bus needs to be reopened"));
        control.summary = owned_text("arm servo bus link dropped; waiting to reopen");
        return ArmTick::Reopen;
    }
    match arm_pose {
        Some(pose) => {
            *error = None;
            if manual && !fault_latched {
                control.ensure_reference_pose(mode, pose);
                ArmTick::Drive
            } else {
                if manual {
                    control.summary = owned_text("arm control paused because a motion safety fault is latched");
                }
                ArmTick::Idle
            }
        },
        None => {
            if manual && control.enabled && control.target_pose.is_none() {
                let mut summary = String::new();
                summary.append("waiting for all ");
                append_decimal(&mut summary, arm_servo_count);
                summary.append(" arm servo feedback replies before arm control becomes ready");
                proof { assert(summary@ =~= spec_arm_waiting_summary(arm_servo_count as nat)); }
                control.summary = summary;
            }
            ArmTick::Idle
        },
    }
}

/// An arm bus operation whose failure drops the arm link.
#[derive(Clone, Copy, Debug, PartialEq, Eq, Structural)]
pub enum ArmFailure {
    /// Opening the arm bus.
    OpenBus,
    /// Enabling arm torque.
    EnableTorque,
    /// A queued arm utility action.
    Utility,
    /// Sending the arm target.
    SyncWrite,
}

/// The arm error reported after `failure` with the bus's own `detail`.
pub open spec fn spec_arm_failure_error(failure: ArmFailure, detail: Seq<char>) -> Seq<char> {
    match failure {
        ArmFailure::OpenBus => "failed to open arm servo bus: "@ + detail,
        ArmFailure::EnableTorque => "failed to enable arm torque: "@ + detail,
        ArmFailure::Utility => "arm utility failed: "@ + detail,
        ArmFailure::SyncWrite => "arm sync write failed: "@ + detail,
    }
}

/// The arm summary after `failure`, where it changes: opening the bus leaves
/// it as it was.
pub open spec fn spec_arm_failure_summary(failure: ArmFailure, detail: Seq<char>) -> Option<Seq<char>> {
    match failure {
        ArmFailure::OpenBus => None,
        ArmFailure::EnableTorque => Some("failed to enable arm servo torque: "@ + detail),
        ArmFailure::Utility => Some("arm utility failed: "@ + detail),
        ArmFailure::SyncWrite => Some("failed to send arm motion commands: "@ + detail),
    }
}

/// Records a failed arm bus operation: the arm error and, except for a
/// failed open, the arm summary say what failed; the worker then reopens
/// the arm bus.
pub fn arm_bus_failed(control: &mut ArmControlState, error: &mut Option<String>, failure: ArmFailure, detail: &str)
    ensures
        *final(error) matches Some(e) && e@ == spec_arm_failure_error(failure, detail@),
        keeps_arm_control(*old(control), *final(control)),
        spec_arm_failure_summary(failure, detail@) matches Some(s) ==> final(control).summary@ == s,
        spec_arm_failure_summary(failure, detail@) is None ==> final(control).summary == old(control).summary,
{
    let (error_prefix, summary_prefix) = match failure {
        ArmFailure::OpenBus => ("failed to open arm servo bus: ", None),
        ArmFailure::EnableTorque => ("failed to enable arm torque: ", Some("failed to enable arm servo torque: ")),
        ArmFailure::Utility => ("arm utility failed: ", Some("arm utility failed: ")),
        ArmFailure::SyncWrite => ("arm sync write failed: ", Some("failed to send arm motion commands: ")),
    };
    let mut message = String::new();
    message.append(error_prefix);
    message.append(detail);
    proof { assert(message@ =~= spec_arm_failure_error(failure, detail@)); }
    *error = Some(message);
    if let Some(prefix) = summary_prefix {
        let mut summary = String::new();
        summary.append(prefix);
        summary.append(detail);
        proof { assert(summary@ =~= spec_arm_failure_summary(failure, detail@)->Some_0); }
        control.summary = summary;
    }
}

/// A string holding exactly `text`.
fn owned_text(text: &str) -> (s: String)
    ensures
        s@ == text@,
{
    let mut s = String::new();
    s.append(text);
    proof { assert(s@ =~= text@); }
    s
}

} // verus!
