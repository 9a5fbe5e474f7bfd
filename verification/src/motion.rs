use vstd::prelude::*;
use std::collections::BTreeMap;
use crate::modes::BrainMode;
use crate::control::{current_pose, has_full_feedback};
use crate::text::{append_decimal, decimal};

verus! {

/// Samples in a row below the minimum bus voltage that trip a fault.
pub const LOW_VOLTAGE_STRIKES_TO_TRIP: u8 = 6;
/// Samples in a row beyond the body attitude limits that trip a fault.
pub const BODY_ATTITUDE_STRIKES_TO_TRIP: u8 = 3;

/// The state of the motion controller between control loop ticks.
#[derive(Debug)]
pub struct MotionRuntime {
    pub mode: BrainMode,
    pub armed: bool,
    pub initial_pose: Option<BTreeMap<u8, u16>>,
    pub hold_pose: Option<BTreeMap<u8, u16>>,
    pub body_attitude_strikes: u8,
    pub low_voltage_strikes: BTreeMap<u8, u8>,
    pub summary: String,
    pub fault: Option<String>,
}

/// The summary a freshly created controller shows while it waits for the
/// first complete servo feedback.
pub open spec fn spec_waiting_summary(mode: BrainMode) -> Seq<char> {
    if mode.spec_is_tripod_gait() {
        "waiting for all servo feedback before starting the "@ + mode.spec_tripod_motion_summary_label()->0 + " gait"@
    } else {
        match mode {
            BrainMode::Telemetry => "observation only; no motion commands are being sent"@,
            BrainMode::Manual => "waiting for all servo feedback before arming manual control"@,
            BrainMode::TiltedStand => "waiting for all servo feedback before holding tilted stand"@,
            BrainMode::LayDown => "waiting for all servo feedback before laying down"@,
            BrainMode::SitDown => "waiting for all servo feedback before sitting down"@,
            BrainMode::StandUp => "waiting for all servo feedback before standing up"@,
            BrainMode::StandUpHigh => "waiting for all servo feedback before standing up high"@,
            BrainMode::Stand => "waiting for all servo feedback before holding stand"@,
            _ => "waiting for all servo feedback before holding high stand"@,
        }
    }
}

/// The summary shown once motion is armed at the measured pose.
pub open spec fn spec_armed_summary(mode: BrainMode) -> Seq<char> {
    if mode.spec_is_tripod_gait() {
        "holding the measured stand pose before "@ + mode.spec_tripod_motion_summary_label()->0 + " gait"@
    } else {
        match mode {
            BrainMode::Manual => "manual control armed at the measured robot pose"@,
            BrainMode::TiltedStand => "tilted stand armed at the measured robot pose"@,
            BrainMode::LayDown => "starting lay-down transition"@,
            BrainMode::SitDown => "starting sit-down transition"@,
            BrainMode::StandUp => "starting stand-up transition"@,
            BrainMode::StandUpHigh => "starting high stand-up transition"@,
            BrainMode::Stand => "holding the configured stand-reference pose"@,
            BrainMode::StandHigh => "holding the configured stand-high pose"@,
            _ => "observation only; no motion commands are being sent"@,
        }
    }
}

/// What the safety monitor reports it watches, or the latched fault.
pub open spec fn spec_safety_status(mode: BrainMode, fault: Option<String>, imu_enabled: bool) -> Seq<char> {
    match fault {
        Some(f) => "tripped: "@ + f@,
        None => match mode {
            BrainMode::Telemetry => "observation only"@,
            BrainMode::Manual => "manual control active; monitoring bus voltage and temperature"@,
            _ => if imu_enabled {
                "monitoring roll, pitch, bus voltage, and temperature"@
            } else {
                "monitoring bus voltage and temperature"@
            },
        },
    }
}

/// The voltage strike counts after one sample of `servo_id`, and whether
/// that servo trips.
pub open spec fn spec_low_voltage_step(strikes: Map<u8, u8>, servo_id: u8, monitoring: bool, below_minimum: bool) -> (Map<u8, u8>, bool) {
    if !monitoring {
        (Map::empty(), false)
    } else if !below_minimum {
        (strikes.remove(servo_id), false)
    } else {
        let before: int = if strikes.contains_key(servo_id) { strikes[servo_id] as int } else { 0 };
        let after: u8 = if before >= 255 { 255 } else { (before + 1) as u8 };
        (strikes.insert(servo_id, after), after >= LOW_VOLTAGE_STRIKES_TO_TRIP)
    }
}

/// A gait summary of the form `prefix + gait label + " gait"`.
fn gait_summary(prefix: &str, gait: &String) -> (s: String)
    ensures
        s@ == prefix@ + gait@ + " gait"@,
{
    let mut s = String::new();
    s.append(prefix);
    s.append(gait.as_str());
    s.append(" gait");
    proof { assert(s@ =~= prefix@ + gait@ + " gait"@); }
    s
}

/// A string holding exactly `text`.
fn owned(text: &str) -> (s: String)
    ensures
        s@ == text@,
{
    let mut s = String::new();
    s.append(text);
    proof { assert(s@ =~= text@); }
    s
}

impl MotionRuntime {
    /// A controller for `mode` that is not armed, has no fault and waits for
    /// servo feedback.
    pub fn new(mode: BrainMode) -> (runtime: Self)
        ensures
            runtime.mode == mode,
            !runtime.armed,
            runtime.initial_pose is None,
            runtime.hold_pose is None,
            runtime.body_attitude_strikes == 0,
            runtime.low_voltage_strikes@ == Map::<u8, u8>::empty(),
            runtime.summary@ == spec_waiting_summary(mode),
            runtime.fault is None,
    {
        let summary = match mode.tripod_motion_summary_label() {
            Some(gait) => gait_summary("waiting for all servo feedback before starting the ", &gait),
            None => owned(match mode {
                BrainMode::Telemetry => "observation only; no motion commands are being sent",
                BrainMode::Manual => "waiting for all servo feedback before arming manual control",
                BrainMode::TiltedStand => "waiting for all servo feedback before holding tilted stand",
                BrainMode::LayDown => "waiting for all servo feedback before laying down",
                BrainMode::SitDown => "waiting for all servo feedback before sitting down",
                BrainMode::StandUp => "waiting for all servo feedback before standing up",
                BrainMode::StandUpHigh => "waiting for all servo feedback before standing up high",
                BrainMode::Stand => "waiting for all servo feedback before holding stand",
                _ => "waiting for all servo feedback before holding high stand",
            }),
        };
        MotionRuntime {
            mode,
            armed: false,
            initial_pose: None,
            hold_pose: None,
            body_attitude_strikes: 0,
            low_voltage_strikes: BTreeMap::new(),
            summary,
            fault: None,
        }
    }

    /// Arms motion at the measured `pose`, which becomes both the start and
    /// the hold pose; does nothing when already armed.
    pub fn arm(&mut self, pose: BTreeMap<u8, u16>)
        ensures
            old(self).armed ==> *final(self) == *old(self),
            !old(self).armed ==> {
                &&& final(self).armed
                &&& final(self).mode == old(self).mode
                &&& final(self).initial_pose matches Some(p) && p@ == pose@
                &&& final(self).hold_pose == Some(pose)
                &&& final(self).body_attitude_strikes == 0
                &&& final(self).low_voltage_strikes == old(self).low_voltage_strikes
                &&& final(self).summary@ == spec_armed_summary(old(self).mode)
                &&& final(self).fault == old(self).fault
            },
    {
        if self.armed {
            return;
        }
        let mode = self.mode;
        self.armed = true;
        self.initial_pose = Some(pose.clone());
        self.hold_pose = Some(pose);
        self.body_attitude_strikes = 0;
        self.summary = match mode.tripod_motion_summary_label() {
            Some(gait) => gait_summary("holding the measured stand pose before ", &gait),
            None => owned(match mode {
                BrainMode::Manual => "manual control armed at the measured robot pose",
                BrainMode::TiltedStand => "tilted stand armed at the measured robot pose",
                BrainMode::LayDown => "starting lay-down transition",
                BrainMode::SitDown => "starting sit-down transition",
                BrainMode::StandUp => "starting stand-up transition",
                BrainMode::StandUpHigh => "starting high stand-up transition",
                BrainMode::Stand => "holding the configured stand-reference pose",
                BrainMode::StandHigh => "holding the configured stand-high pose",
                _ => "observation only; no motion commands are being sent",
            }),
        };
    }

    /// Disarms motion, forgetting the start pose, and shows `message`.
    pub fn disarm(&mut self, message: String)
        ensures
            !final(self).armed,
            final(self).initial_pose is None,
            final(self).body_attitude_strikes == 0,
            final(self).summary == message,
            final(self).mode == old(self).mode,
            final(self).hold_pose == old(self).hold_pose,
            final(self).low_voltage_strikes == old(self).low_voltage_strikes,
            final(self).fault == old(self).fault,
    {
        self.armed = false;
        self.initial_pose = None;
        self.body_attitude_strikes = 0;
        self.summary = message;
    }

    /// Latches a motion fault: the first fault is kept, later ones are
    /// ignored. The hold pose is replaced when a pose is given.
    pub fn trip_fault(&mut self, reason: String, hold_pose: Option<BTreeMap<u8, u16>>)
        ensures
            old(self).fault is Some ==> *final(self) == *old(self),
            old(self).fault is None ==> {
                &&& final(self).fault == Some(reason)
                &&& final(self).summary@ == "motion halted: "@ + reason@
                &&& final(self).hold_pose == (match hold_pose {
                    Some(p) => Some(p),
                    None => old(self).hold_pose,
                })
                &&& final(self).mode == old(self).mode
                &&& final(self).armed == old(self).armed
                &&& final(self).initial_pose == old(self).initial_pose
                &&& final(self).body_attitude_strikes == old(self).body_attitude_strikes
                &&& final(self).low_voltage_strikes == old(self).low_voltage_strikes
            },
    {
        if self.fault.is_some() {
            return;
        }
        if let Some(pose) = hold_pose {
            self.hold_pose = Some(pose);
        }
        let mut summary = String::new();
        summary.append("motion halted: ");
        summary.append(reason.as_str());
        proof { assert(summary@ =~= "motion halted: "@ + reason@); }
        self.summary = summary;
        self.fault = Some(reason);
    }

    /// What the safety monitor watches in this mode, or the latched fault.
    pub fn safety_status(&self, imu_enabled: bool) -> (status: String)
        ensures
            status@ == spec_safety_status(self.mode, self.fault, imu_enabled),
    {
        match &self.fault {
            Some(fault) => {
                let mut status = String::new();
                status.append("tripped: ");
                status.append(fault.as_str());
                proof { assert(status@ =~= "tripped: "@ + fault@); }
                status
            },
            None => owned(match self.mode {
                BrainMode::Telemetry => "observation only",
                BrainMode::Manual => "manual control active; monitoring bus voltage and temperature",
                _ => if imu_enabled {
                    "monitoring roll, pitch, bus voltage, and temperature"
                } else {
                    "monitoring bus voltage and temperature"
                },
            }),
        }
    }

    /// Counts one voltage sample of `servo_id`. With voltage monitoring on,
    /// a sample below the minimum adds a strike (saturating) and one at or
    /// above it clears that servo's strikes; with monitoring off all strikes
    /// are cleared. Returns whether the servo has now reached
    /// `LOW_VOLTAGE_STRIKES_TO_TRIP` strikes.
    pub fn low_voltage_step(&mut self, servo_id: u8, monitoring: bool, below_minimum: bool) -> (tripped: bool)
        ensures
            final(self).mode == old(self).mode,
            final(self).armed == old(self).armed,
            final(self).initial_pose == old(self).initial_pose,
            final(self).hold_pose == old(self).hold_pose,
            final(self).body_attitude_strikes == old(self).body_attitude_strikes,
            final(self).summary == old(self).summary,
            final(self).fault == old(self).fault,
            (final(self).low_voltage_strikes@, tripped) == spec_low_voltage_step(
                old(self).low_voltage_strikes@, servo_id, monitoring, below_minimum),
    {
        broadcast use vstd::std_specs::btree::group_btree_axioms;
        if !monitoring {
            self.low_voltage_strikes.clear();
            return false;
        }
        if !below_minimum {
            self.low_voltage_strikes.remove(&servo_id);
            return false;
        }
        let before: u8 = match self.low_voltage_strikes.get(&servo_id) {
            Some(s) => *s,
            None => 0,
        };
        let after: u8 = if before == 255 { 255 } else { before + 1 };
        self.low_voltage_strikes.insert(servo_id, after);
        after >= LOW_VOLTAGE_STRIKES_TO_TRIP
    }
}

/// One body attitude reading, already compared against the safety limits.
#[derive(Clone, Copy, Debug)]
pub struct AttitudeSample {
    /// Roll or pitch is beyond its configured limit.
    pub exceeds_limit: bool,
    /// The measured acceleration is close enough to gravity for the attitude
    /// estimate to be trusted (also true when no acceleration is reported).
    pub accel_near_gravity: bool,
}

/// The attitude strike count after one sample, and whether it trips.
pub open spec fn spec_body_attitude_step(mode: BrainMode, sample: Option<AttitudeSample>, strikes: u8) -> (u8, bool) {
    if !mode.spec_enforces_body_attitude_limits() {
        (0, false)
    } else {
        match sample {
            None => (strikes, false),
            Some(s) => if s.exceeds_limit && s.accel_near_gravity {
                let after: u8 = if strikes == 255 { 255 } else { (strikes + 1) as u8 };
                (after, after >= BODY_ATTITUDE_STRIKES_TO_TRIP)
            } else {
                (0, false)
            },
        }
    }
}

/// Counts one body attitude sample. Modes without attitude limits reset the
/// count; without an IMU reading the count is kept; a trusted reading beyond
/// the limits adds a strike (saturating) and any other reading resets it.
/// Returns whether `BODY_ATTITUDE_STRIKES_TO_TRIP` strikes in a row are reached.
pub fn body_attitude_step(mode: BrainMode, sample: Option<AttitudeSample>, strikes: &mut u8) -> (tripped: bool)
    ensures
        (*final(strikes), tripped) == spec_body_attitude_step(mode, sample, *old(strikes)),
{
    if !mode.enforces_body_attitude_limits() {
        *strikes = 0;
        return false;
    }
    match sample {
        None => false,
        Some(s) => {
            if s.exceeds_limit && s.accel_near_gravity {
                *strikes = if *strikes == 255 { 255 } else { *strikes + 1 };
                *strikes >= BODY_ATTITUDE_STRIKES_TO_TRIP
            } else {
                *strikes = 0;
                false
            }
        },
    }
}


/// Body-attitude strikes count consecutive trusted readings beyond the
/// limits. Modes without attitude limits clear the count and never trip; in
/// a mode with limits, a reading within the limits or an untrusted one
/// clears the count, a trusted reading beyond the limits adds one
/// (saturating), and a missing reading keeps it. A trip happens only on a
/// trusted reading beyond the limits that follows
/// `BODY_ATTITUDE_STRIKES_TO_TRIP - 1` strikes, and exactly when the count
/// reaches `BODY_ATTITUDE_STRIKES_TO_TRIP`.
pub proof fn lemma_attitude_trips_on_consecutive_strikes(mode: BrainMode, sample: Option<AttitudeSample>, strikes: u8)
    ensures ({
        let (after, tripped) = spec_body_attitude_step(mode, sample, strikes);
        &&& !mode.spec_enforces_body_attitude_limits() ==> after == 0 && !tripped
        &&& mode.spec_enforces_body_attitude_limits() && sample is Some && !sample->Some_0.exceeds_limit
            ==> after == 0 && !tripped
        &&& mode.spec_enforces_body_attitude_limits() && sample is Some && !sample->Some_0.accel_near_gravity
            ==> after == 0 && !tripped
        &&& mode.spec_enforces_body_attitude_limits() && sample is Some && sample->Some_0.exceeds_limit
            && sample->Some_0.accel_near_gravity && strikes < 255 ==> after == strikes + 1
        &&& mode.spec_enforces_body_attitude_limits() && sample is None ==> after == strikes && !tripped
        &&& tripped ==> sample is Some && sample->Some_0.exceeds_limit && sample->Some_0.accel_near_gravity
            && strikes + 1 >= BODY_ATTITUDE_STRIKES_TO_TRIP
        &&& mode.spec_enforces_body_attitude_limits() && sample is Some ==> (tripped <==> after >= BODY_ATTITUDE_STRIKES_TO_TRIP)
    }),
{
}

/// A position command for one servo.
#[derive(Clone, Copy, Debug, PartialEq, Eq, Structural)]
pub struct JointCommand {
    pub servo_id: u8,
    pub position_ticks: u16,
    pub speed_ticks: u16,
    pub acceleration: u8,
}

/// The moving speed every pose command is sent with.
pub const COMMAND_SPEED_TICKS: u16 = 200;
/// The acceleration every pose command is sent with.
pub const COMMAND_ACCELERATION: u8 = 10;

/// `command` moves its servo to the position `pose` holds for it, at the
/// standard speed and acceleration.
pub open spec fn commands_pose_entry(pose: Map<u8, u16>, command: JointCommand) -> bool {
    &&& pose.contains_key(command.servo_id)
    &&& pose[command.servo_id] == command.position_ticks
    &&& command.speed_ticks == COMMAND_SPEED_TICKS
    &&& command.acceleration == COMMAND_ACCELERATION
}

/// `commands` sends every servo of `pose` to its position, one command per
/// servo, in increasing servo id order.
pub open spec fn commands_for_pose(pose: Map<u8, u16>, commands: Seq<JointCommand>) -> bool {
    &&& forall|i: int| 0 <= i < commands.len() ==> commands_pose_entry(pose, #[trigger] commands[i])
    &&& forall|i: int, j: int| 0 <= i < j < commands.len() ==> #[trigger] commands[i].servo_id < #[trigger] commands[j].servo_id
    &&& forall|id: u8| #[trigger] pose.contains_key(id) ==> exists|i: int| 0 <= i < commands.len() && commands[i].servo_id == id
}

/// The servo commands that move every servo of `pose` to its position, in
/// increasing servo id order.
pub fn pose_to_commands(pose: &BTreeMap<u8, u16>) -> (commands: Vec<JointCommand>)
    ensures
        commands_for_pose(pose@, commands@),
{
    broadcast use vstd::std_specs::btree::group_btree_axioms;
    let mut commands: Vec<JointCommand> = Vec::new();
    let mut next: u16 = 0;
    while next < 256
        invariant
            next <= 256,
            forall|i: int| 0 <= i < commands@.len() ==> commands_pose_entry(pose@, #[trigger] commands@[i]),
            forall|i: int| 0 <= i < commands@.len() ==> #[trigger] commands@[i].servo_id < next,
            forall|i: int, j: int| 0 <= i < j < commands@.len() ==> #[trigger] commands@[i].servo_id < #[trigger] commands@[j].servo_id,
            forall|id: u8| #[trigger] pose@.contains_key(id) && id < next ==> exists|i: int| 0 <= i < commands@.len() && commands@[i].servo_id == id,
        decreases 256 - next,
    {
        let id = next as u8;
        if let Some(ticks) = pose.get(&id) {
            let command = JointCommand {
                servo_id: id,
                position_ticks: *ticks,
                speed_ticks: COMMAND_SPEED_TICKS,
                acceleration: COMMAND_ACCELERATION,
            };
            let ghost before = commands@;
            commands.push(command);
            proof {
                assert(commands@ == before.push(command));
                let last = commands@.len() - 1;
                assert(commands@[last] == command);
                assert forall|k: u8| #[trigger] pose@.contains_key(k) && k < next + 1 implies exists|i: int| 0 <= i < commands@.len() && commands@[i].servo_id == k by {
                    if k == id {
                        assert(commands@[last].servo_id == k);
                    } else {
                        let i = choose|i: int| 0 <= i < before.len() && before[i].servo_id == k;
                        assert(commands@[i] == before[i]);
                    }
                }
            }
        } else {
            proof {
                assert forall|k: u8| #[trigger] pose@.contains_key(k) && k < next + 1 implies exists|i: int| 0 <= i < commands@.len() && commands@[i].servo_id == k by {
                    assert(k != id);
                }
            }
        }
        next = next + 1;
    }
    commands
}

/// One servo's readings for a safety check, already compared against the
/// configured limits.
#[derive(Clone, Copy, Debug)]
pub struct ServoSafetySample {
    pub servo_id: u8,
    /// The servo's telemetry is known; servos without it are skipped.
    pub has_telemetry: bool,
    /// Its bus voltage is below the configured minimum.
    pub below_min_voltage: bool,
    /// Its temperature is above the configured maximum.
    pub over_temperature: bool,
}

/// Why a safety check stops motion.
#[derive(Clone, Copy, Debug, PartialEq, Eq, Structural)]
pub enum SafetyTrip {
    /// The body roll or pitch stayed beyond its limit.
    BodyAttitude,
    /// This servo's bus voltage stayed below the minimum.
    LowVoltage(u8),
    /// This servo ran too hot.
    OverTemperature(u8),
}

/// The voltage strike counts after checking `samples` in order, and the
/// first trip found: a servo reaching the voltage strike limit, or else a
/// servo running too hot. Checking stops at the first trip.
pub open spec fn spec_servo_scan(samples: Seq<ServoSafetySample>, monitoring: bool, strikes: Map<u8, u8>) -> (Map<u8, u8>, Option<SafetyTrip>)
    decreases samples.len(),
{
    if samples.len() == 0 {
        (strikes, None)
    } else {
        let sample = samples[0];
        if !sample.has_telemetry {
            spec_servo_scan(samples.drop_first(), monitoring, strikes)
        } else {
            let (after, tripped) = spec_low_voltage_step(strikes, sample.servo_id, monitoring, sample.below_min_voltage);
            if tripped {
                (after, Some(SafetyTrip::LowVoltage(sample.servo_id)))
            } else if sample.over_temperature {
                (after, Some(SafetyTrip::OverTemperature(sample.servo_id)))
            } else {
                spec_servo_scan(samples.drop_first(), monitoring, after)
            }
        }
    }
}

/// One reading of a servo that reported telemetry and is not too hot, with
/// its bus voltage below the minimum (`low`) or not.
pub open spec fn voltage_reading(servo_id: u8, low: bool) -> ServoSafetySample {
    ServoSafetySample { servo_id, has_telemetry: true, below_min_voltage: low, over_temperature: false }
}

/// The voltage strike counts after `n` low readings in a row of `servo_id`,
/// from counts `start` that hold none for it.
pub open spec fn strikes_after(start: Map<u8, u8>, servo_id: u8, n: nat) -> Map<u8, u8> {
    if n == 0 { start } else { start.insert(servo_id, n as u8) }
}

/// With voltage monitoring on, a servo without strikes trips a low-voltage
/// fault on the sixth low reading in a row: the first five only count up,
/// the sixth trips. A reading at or above the minimum anywhere in the run
/// drops the servo's count, so the run of six starts over. (`check_safety`
/// scans the servos this way whenever the attitude reading does not trip.)
pub proof fn lemma_low_voltage_trips_on_sixth_reading(start: Map<u8, u8>, servo_id: u8)
    requires
        !start.contains_key(servo_id),
    ensures
        forall|n: nat| n < 5 ==> #[trigger] spec_servo_scan(seq![voltage_reading(servo_id, true)], true, strikes_after(start, servo_id, n))
            == (strikes_after(start, servo_id, n + 1), None::<SafetyTrip>),
        spec_servo_scan(seq![voltage_reading(servo_id, true)], true, strikes_after(start, servo_id, 5))
            == (strikes_after(start, servo_id, 6), Some(SafetyTrip::LowVoltage(servo_id))),
        forall|n: nat| n <= 6 ==> #[trigger] spec_servo_scan(seq![voltage_reading(servo_id, false)], true, strikes_after(start, servo_id, n))
            == (start, None::<SafetyTrip>),
{
    let low = seq![voltage_reading(servo_id, true)];
    let good = seq![voltage_reading(servo_id, false)];
    assert(low.drop_first() =~= Seq::<ServoSafetySample>::empty());
    assert(good.drop_first() =~= Seq::<ServoSafetySample>::empty());
    assert forall|n: nat| n < 5 implies #[trigger] spec_servo_scan(low, true, strikes_after(start, servo_id, n))
        == (strikes_after(start, servo_id, n + 1), None::<SafetyTrip>) by {
        reveal_with_fuel(spec_servo_scan, 2);
        assert(strikes_after(start, servo_id, n).insert(servo_id, (n + 1) as u8) =~= strikes_after(start, servo_id, n + 1));
    }
    assert(spec_servo_scan(low, true, strikes_after(start, servo_id, 5))
        == (strikes_after(start, servo_id, 6), Some(SafetyTrip::LowVoltage(servo_id)))) by {
        reveal_with_fuel(spec_servo_scan, 2);
        assert(strikes_after(start, servo_id, 5).insert(servo_id, 6u8) =~= strikes_after(start, servo_id, 6));
    }
    assert forall|n: nat| n <= 6 implies #[trigger] spec_servo_scan(good, true, strikes_after(start, servo_id, n))
        == (start, None::<SafetyTrip>) by {
        reveal_with_fuel(spec_servo_scan, 2);
        assert(strikes_after(start, servo_id, n).remove(servo_id) =~= start);
    }
}

/// The motion target of one control tick, as planned for the base pose.
pub struct PlannedPose {
    pub pose: BTreeMap<u8, u16>,
    pub summary: String,
}

/// The pose motion starts from: the armed start pose, else the last held
/// pose, else the mode's fallback pose.
pub open spec fn spec_base_pose(runtime: MotionRuntime, fallback: Map<u8, u16>) -> Map<u8, u16> {
    match runtime.initial_pose {
        Some(p) => p@,
        None => match runtime.hold_pose {
            Some(h) => h@,
            None => fallback,
        },
    }
}

impl MotionRuntime {
    /// Runs the safety checks of one tick: first the body attitude, then the
    /// servos in order (voltage strikes, then temperature). Returns the first
    /// trip found.
    pub fn check_safety(
        &mut self,
        attitude: Option<AttitudeSample>,
        voltage_monitoring: bool,
        servos: &[ServoSafetySample],
    ) -> (trip: Option<SafetyTrip>)
        ensures
            final(self).mode == old(self).mode,
            final(self).armed == old(self).armed,
            final(self).initial_pose == old(self).initial_pose,
            final(self).hold_pose == old(self).hold_pose,
            final(self).summary == old(self).summary,
            final(self).fault == old(self).fault,
            ({
                let (attitude_strikes, attitude_trip) = spec_body_attitude_step(
                    old(self).mode, attitude, old(self).body_attitude_strikes);
                &&& final(self).body_attitude_strikes == attitude_strikes
                &&& attitude_trip ==> {
                    &&& trip == Some(SafetyTrip::BodyAttitude)
                    &&& final(self).low_voltage_strikes@ == old(self).low_voltage_strikes@
                }
                &&& !attitude_trip ==> (final(self).low_voltage_strikes@, trip)
                    == spec_servo_scan(servos@, voltage_monitoring, old(self).low_voltage_strikes@)
            }),
    {
        let mode = self.mode;
        if body_attitude_step(mode, attitude, &mut self.body_attitude_strikes) {
            return Some(SafetyTrip::BodyAttitude);
        }
        let ghost initial = old(self).low_voltage_strikes@;
        assert(servos@.subrange(0, servos@.len() as int) =~= servos@);
        let mut i: usize = 0;
        while i < servos.len()
            invariant
                i <= servos@.len(),
                spec_servo_scan(servos@, voltage_monitoring, initial)
                    == spec_servo_scan(servos@.subrange(i as int, servos@.len() as int), voltage_monitoring, self.low_voltage_strikes@),
                self.mode == old(self).mode,
                self.armed == old(self).armed,
                self.initial_pose == old(self).initial_pose,
                self.hold_pose == old(self).hold_pose,
                self.summary == old(self).summary,
                self.fault == old(self).fault,
                self.body_attitude_strikes == spec_body_attitude_step(old(self).mode, attitude, old(self).body_attitude_strikes).0,
                !spec_body_attitude_step(old(self).mode, attitude, old(self).body_attitude_strikes).1,
                initial == old(self).low_voltage_strikes@,
            decreases servos@.len() - i,
        {
            let sample = servos[i];
            let ghost rest = servos@.subrange(i as int, servos@.len() as int);
            proof {
                assert(rest[0] == sample);
                assert(rest.drop_first() =~= servos@.subrange(i + 1, servos@.len() as int));
            }
            let ghost before = self.low_voltage_strikes@;
            proof {
                assert(spec_servo_scan(rest, voltage_monitoring, before) == (if !sample.has_telemetry {
                    spec_servo_scan(rest.drop_first(), voltage_monitoring, before)
                } else {
                    let (after, tripped) = spec_low_voltage_step(before, sample.servo_id, voltage_monitoring, sample.below_min_voltage);
                    if tripped {
                        (after, Some(SafetyTrip::LowVoltage(sample.servo_id)))
                    } else if sample.over_temperature {
                        (after, Some(SafetyTrip::OverTemperature(sample.servo_id)))
                    } else {
                        spec_servo_scan(rest.drop_first(), voltage_monitoring, after)
                    }
                }));
            }
            if sample.has_telemetry {
                if self.low_voltage_step(sample.servo_id, voltage_monitoring, sample.below_min_voltage) {
                    return Some(SafetyTrip::LowVoltage(sample.servo_id));
                }
                if sample.over_temperature {
                    return Some(SafetyTrip::OverTemperature(sample.servo_id));
                }
            }
            i = i + 1;
        }
        proof {
            assert(servos@.subrange(i as int, servos@.len() as int).len() == 0);
        }
        None
    }

    /// The pose motion starts from: the armed start pose, else the last held
    /// pose, else `fallback`.
    pub fn base_pose(&self, fallback: BTreeMap<u8, u16>) -> (pose: BTreeMap<u8, u16>)
        ensures
            pose@ == spec_base_pose(*self, fallback@),
    {
        match &self.initial_pose {
            Some(p) => p.clone(),
            None => match &self.hold_pose {
                Some(h) => h.clone(),
                None => fallback,
            },
        }
    }

    /// This tick's commands need a pose planned by the mode: motion is
    /// armed, not faulted, and the mode sends commands.
    pub fn needs_plan(&self) -> (needed: bool)
        ensures
            needed == (self.mode != BrainMode::Telemetry && self.fault is None && self.armed),
    {
        let telemetry = match self.mode {
            BrainMode::Telemetry => true,
            _ => false,
        };
        !telemetry && self.fault.is_none() && self.armed
    }

    /// The commands of one control tick. Telemetry mode sends none. With a
    /// latched fault the last held pose (else `base_pose`) is held. Unarmed
    /// motion sends none. Armed motion follows `planned`, taking over its
    /// summary, or holds `base_pose` when there is no plan. Whatever is sent
    /// becomes the new hold pose.
    pub fn commands(&mut self, base_pose: BTreeMap<u8, u16>, planned: Option<PlannedPose>) -> (commands: Option<Vec<JointCommand>>)
        ensures
            final(self).mode == old(self).mode,
            final(self).armed == old(self).armed,
            final(self).initial_pose == old(self).initial_pose,
            final(self).body_attitude_strikes == old(self).body_attitude_strikes,
            final(self).low_voltage_strikes == old(self).low_voltage_strikes,
            final(self).fault == old(self).fault,
            old(self).mode == BrainMode::Telemetry ==> commands is None && *final(self) == *old(self),
            old(self).mode != BrainMode::Telemetry && old(self).fault is None && !old(self).armed ==> commands is None && *final(self) == *old(self),
            commands matches Some(c) ==> final(self).hold_pose matches Some(h) && commands_for_pose(h@, c@),
            old(self).mode != BrainMode::Telemetry && old(self).fault is Some ==> {
                &&& commands is Some
                &&& final(self).hold_pose matches Some(h) && h@ == (match old(self).hold_pose {
                    Some(p) => p@,
                    None => base_pose@,
                })
                &&& final(self).summary == old(self).summary
            },
            old(self).mode != BrainMode::Telemetry && old(self).fault is None && old(self).armed ==> {
                &&& commands is Some
                &&& final(self).hold_pose matches Some(h) && h@ == (match planned {
                    Some(p) => p.pose@,
                    None => base_pose@,
                })
                &&& final(self).summary == (match planned {
                    Some(p) => p.summary,
                    None => old(self).summary,
                })
            },
    {
        if let BrainMode::Telemetry = self.mode {
            return None;
        }
        let target = if self.fault.is_some() {
            match &self.hold_pose {
                Some(h) => h.clone(),
                None => base_pose,
            }
        } else {
            if !self.armed {
                return None;
            }
            match planned {
                Some(plan) => {
                    self.summary = plan.summary;
                    plan.pose
                },
                None => base_pose,
            }
        };
        let commands = pose_to_commands(&target);
        self.hold_pose = Some(target);
        Some(commands)
    }
}

/// The arming pose of one tick: motion that needs torque and is not armed
/// yet arms at the measured pose once every servo has reported.
pub open spec fn spec_wants_arming(runtime: MotionRuntime) -> bool {
    runtime.mode.spec_requires_torque() && !runtime.armed
}

impl MotionRuntime {
    /// The pose to arm at, when motion should arm now: the mode needs torque,
    /// motion is not armed and every servo of `servo_ids` reported its
    /// position. While a reply is missing the summary says how many replies
    /// motion waits for.
    pub fn arming_pose(&mut self, servo_ids: &[u8], positions: &BTreeMap<u8, Option<u16>>) -> (pose: Option<BTreeMap<u8, u16>>)
        ensures
            pose is Some <==> spec_wants_arming(*old(self)) && has_full_feedback(servo_ids@, positions@),
            pose matches Some(p) ==> {
                &&& p@.dom() == servo_ids@.to_set()
                &&& forall|id: u8| #[trigger] p@.contains_key(id) ==> positions@[id] == Some(p@[id])
            },
            spec_wants_arming(*old(self)) && !has_full_feedback(servo_ids@, positions@) ==> {
                &&& final(self).summary@ == "waiting for all "@ + decimal(servo_ids@.len()) + " servo feedback replies before motion"@
                &&& final(self).mode == old(self).mode
                &&& final(self).armed == old(self).armed
                &&& final(self).initial_pose == old(self).initial_pose
                &&& final(self).hold_pose == old(self).hold_pose
                &&& final(self).body_attitude_strikes == old(self).body_attitude_strikes
                &&& final(self).low_voltage_strikes == old(self).low_voltage_strikes
                &&& final(self).fault == old(self).fault
            },
            !(spec_wants_arming(*old(self)) && !has_full_feedback(servo_ids@, positions@)) ==> *final(self) == *old(self),
    {
        if !self.mode.requires_torque() || self.armed {
            return None;
        }
        match current_pose(servo_ids, positions) {
            Some(pose) => Some(pose),
            None => {
                let mut summary = String::new();
                summary.append("waiting for all ");
                append_decimal(&mut summary, servo_ids.len() as u64);
                summary.append(" servo feedback replies before motion");
                proof {
                    assert(summary@ =~= "waiting for all "@ + decimal(servo_ids@.len()) + " servo feedback replies before motion"@);
                }
                self.summary = summary;
                None
            },
        }
    }
}

impl MotionRuntime {
    /// Once the leg bus is opened (again), motion that drives the servos has
    /// to arm again from freshly measured feedback.
    pub fn bus_opened(&mut self)
        ensures
            old(self).mode.spec_requires_torque() ==> {
                &&& !final(self).armed
                &&& final(self).initial_pose is None
                &&& final(self).body_attitude_strikes == 0
                &&& final(self).summary@ == "legs servo bus opened; waiting to arm motion"@
                &&& final(self).mode == old(self).mode
                &&& final(self).hold_pose == old(self).hold_pose
                &&& final(self).low_voltage_strikes == old(self).low_voltage_strikes
                &&& final(self).fault == old(self).fault
            },
            !old(self).mode.spec_requires_torque() ==> *final(self) == *old(self),
    {
        if self.mode.requires_torque() {
            self.disarm(owned("legs servo bus opened; waiting to arm motion"));
        }
    }
}

/// The fault reason of a body attitude trip: the attitude finding followed
/// by the number of samples it persisted for.
pub open spec fn spec_attitude_trip_reason(finding: Seq<char>) -> Seq<char> {
    finding + " for "@ + decimal(BODY_ATTITUDE_STRIKES_TO_TRIP as nat) + " consecutive samples"@
}

/// The fault reason of a body attitude trip, from the finding that tripped
/// it (such as which angle exceeded which limit).
pub fn attitude_trip_reason(finding: &str) -> (reason: String)
    ensures
        reason@ == spec_attitude_trip_reason(finding@),
{
    let mut reason = String::new();
    reason.append(finding);
    reason.append(" for ");
    append_decimal(&mut reason, BODY_ATTITUDE_STRIKES_TO_TRIP as u64);
    reason.append(" consecutive samples");
    proof {
        assert(reason@ =~= spec_attitude_trip_reason(finding@));
    }
    reason
}

} // verus!
