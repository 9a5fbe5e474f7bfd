use vstd::prelude::*;
use crate::config::{JointKind, LegConfig, spec_servo_id_for_joint, servo_id_for_joint};
use crate::ticks::{abs_diff_ticks, clamp_ticks, interpolate_ticks, spec_interpolate_ticks};
use crate::workspace::SenseParams;

verus! {

/// A servo's position must come this close to its target to count as there.
pub const RANGE_TARGET_TOLERANCE_TICKS: u16 = 18;
/// Travel from the start position that proves a probed servo has begun moving.
pub const MOTION_START_TICKS: u16 = 24;
/// Consecutive polls with every tracked servo on target before a move counts as settled.
pub const POSITION_SETTLE_CONFIRM_CYCLES: u8 = 2;
/// Configured poses closer than this to a measured end stop are flagged.
pub const POSE_EDGE_WARNING_MIN_TICKS: u16 = 20;
/// A coxa range at most this wide is flagged as suspiciously small.
pub const COXA_SUSPICIOUS_SPAN_TICKS: u16 = 20;
/// Suggested femur stand reference, as a fraction (per mille) of the measured range.
pub const FEMUR_STAND_REFERENCE_PERMILLE: u16 = 400;
/// Suggested tibia stand reference, as a fraction (per mille) of the measured range.
pub const TIBIA_STAND_REFERENCE_PERMILLE: u16 = 600;
/// How far (per mille of the range) a suggested lay-down pose stays inside the measured edge.
pub const LAY_DOWN_INSET_PERMILLE: u16 = 80;

/// The motion-relevant part of one servo feedback sample.
#[derive(Clone, Copy, Debug)]
pub struct ServoMotionSample {
    pub present_position_ticks: u16,
    pub present_speed_ticks: i16,
    pub moving: bool,
}

/// One servo swept during range sensing.
#[derive(Clone, Debug)]
pub struct JointProbe {
    pub leg_name: String,
    pub joint: JointKind,
    pub servo_id: u8,
    pub logical_positive_sign: i16,
}

/// The progress of one servo toward its self-stop during a sweep.
#[derive(Clone, Debug)]
pub struct BoundProbeState {
    pub probe: JointProbe,
    pub start_position_ticks: u16,
    pub has_started_motion: bool,
    pub consecutive_stopped: u8,
}

/// The target that drives a servo to the end of its travel in `raw_direction`.
pub fn full_range_target(raw_direction: i16) -> (target: u16)
    ensures
        target == (if raw_direction >= 0 { 4095u16 } else { 0u16 }),
{
    if raw_direction >= 0 { 4095 } else { 0 }
}

/// The magnitude of a signed speed reading.
pub open spec fn speed_magnitude(speed: i16) -> int {
    if speed < 0 { -(speed as int) } else { speed as int }
}

/// The servo has left its start: it reports motion, turns faster than the
/// stop threshold, or has travelled at least `MOTION_START_TICKS`.
pub open spec fn spec_has_started_motion(
    start_position_ticks: u16,
    sample: ServoMotionSample,
    stop_speed_ticks: u16,
) -> bool {
    ||| sample.moving
    ||| speed_magnitude(sample.present_speed_ticks) > stop_speed_ticks
    ||| (if start_position_ticks >= sample.present_position_ticks {
        start_position_ticks - sample.present_position_ticks
    } else {
        sample.present_position_ticks - start_position_ticks
    }) >= MOTION_START_TICKS
}

/// The servo is stopped: it reports no motion or turns no faster than the
/// stop threshold.
pub open spec fn spec_has_stopped(sample: ServoMotionSample, stop_speed_ticks: u16) -> bool {
    !sample.moving || speed_magnitude(sample.present_speed_ticks) <= stop_speed_ticks
}

fn speed_abs(speed: i16) -> (m: i32)
    ensures
        m == speed_magnitude(speed),
{
    let s = speed as i32;
    if s < 0 { -s } else { s }
}

/// Whether the probed servo has started moving since the sweep began.
pub fn servo_has_started_motion(state: &BoundProbeState, sample: &ServoMotionSample, params: &SenseParams) -> (started: bool)
    ensures
        started == spec_has_started_motion(state.start_position_ticks, *sample, params.stop_speed_ticks),
{
    sample.moving || speed_abs(sample.present_speed_ticks) > params.stop_speed_ticks as i32
        || abs_diff_ticks(state.start_position_ticks, sample.present_position_ticks) >= MOTION_START_TICKS
}

/// Whether the servo has come to rest.
pub fn servo_has_stopped(sample: &ServoMotionSample, stop_speed_ticks: u16) -> (stopped: bool)
    ensures
        stopped == spec_has_stopped(*sample, stop_speed_ticks),
{
    !sample.moving || speed_abs(sample.present_speed_ticks) <= stop_speed_ticks as i32
}

/// The state of a probed servo after one more feedback sample, and whether
/// it has now been stopped for the confirmation count of samples.
pub open spec fn spec_bound_probe_step(
    state: BoundProbeState,
    sample: ServoMotionSample,
    params: SenseParams,
) -> (BoundProbeState, bool) {
    let started = state.has_started_motion || spec_has_started_motion(
        state.start_position_ticks,
        sample,
        params.stop_speed_ticks,
    );
    let stopped_count: u8 = if started && spec_has_stopped(sample, params.stop_speed_ticks) {
        if state.consecutive_stopped == 255 { 255 } else { (state.consecutive_stopped + 1) as u8 }
    } else {
        0
    };
    (
        BoundProbeState { has_started_motion: started, consecutive_stopped: stopped_count, ..state },
        stopped_count >= params.confirm_stopped_samples,
    )
}

/// Advances a probed servo by one feedback sample: motion once seen stays
/// seen; stopped samples after motion are counted (saturating) and any moving
/// sample resets the count. Returns whether the servo has now stopped for
/// `confirm_stopped_samples` samples in a row.
pub fn bound_probe_step(state: &mut BoundProbeState, sample: &ServoMotionSample, params: &SenseParams) -> (finished: bool)
    ensures
        (*final(state), finished) == spec_bound_probe_step(*old(state), *sample, *params),
{
    if !state.has_started_motion && servo_has_started_motion(state, sample, params) {
        state.has_started_motion = true;
    }
    if state.has_started_motion && servo_has_stopped(sample, params.stop_speed_ticks) {
        state.consecutive_stopped = if state.consecutive_stopped == 255 {
            255
        } else {
            state.consecutive_stopped + 1
        };
    } else {
        state.consecutive_stopped = 0;
    }
    state.consecutive_stopped >= params.confirm_stopped_samples
}

/// One feedback sample of a probed servo: a sample that is not a stop after
/// motion started (the servo has not moved yet, or it moves) sets the count
/// of stopped samples to zero, a stop after motion adds one (saturating), so
/// the count never grows by more than one per sample; the probe finishes
/// exactly when the count reaches `confirm_stopped_samples`. Motion once seen
/// stays seen, and the probed servo and its start position never change.
pub proof fn lemma_probe_counts_consecutive_stops(state: BoundProbeState, sample: ServoMotionSample, params: SenseParams)
    ensures ({
        let (next, finished) = spec_bound_probe_step(state, sample, params);
        let started = state.has_started_motion
            || spec_has_started_motion(state.start_position_ticks, sample, params.stop_speed_ticks);
        &&& !(started && spec_has_stopped(sample, params.stop_speed_ticks)) ==> next.consecutive_stopped == 0
        &&& sample.moving && speed_magnitude(sample.present_speed_ticks) > params.stop_speed_ticks
            ==> next.consecutive_stopped == 0
        &&& (started && spec_has_stopped(sample, params.stop_speed_ticks) && state.consecutive_stopped < 255)
            ==> next.consecutive_stopped == state.consecutive_stopped + 1
        &&& next.consecutive_stopped <= state.consecutive_stopped + 1
        &&& finished <==> next.consecutive_stopped >= params.confirm_stopped_samples
        &&& state.has_started_motion ==> next.has_started_motion
        &&& next.probe == state.probe
        &&& next.start_position_ticks == state.start_position_ticks
    }),
{
}

/// Whether a servo is within the target tolerance of its commanded position.
pub fn servo_on_target(present_ticks: u16, target_ticks: u16) -> (close: bool)
    ensures
        close == (if present_ticks >= target_ticks {
            present_ticks - target_ticks
        } else {
            target_ticks - present_ticks
        } <= RANGE_TARGET_TOLERANCE_TICKS),
{
    abs_diff_ticks(present_ticks, target_ticks) <= RANGE_TARGET_TOLERANCE_TICKS
}

/// Every tracked servo answered and sits within tolerance of its target:
/// `present[i]` is the position read back for the servo targeted at
/// `targets[i]`, or `None` when it did not answer.
pub open spec fn all_on_target(targets: Seq<u16>, present: Seq<Option<u16>>) -> bool {
    forall|i: int| 0 <= i < targets.len() ==> match #[trigger] present[i] {
        Some(p) => (if p >= targets[i] { p - targets[i] } else { targets[i] - p }) <= RANGE_TARGET_TOLERANCE_TICKS,
        None => false,
    }
}

/// Whether all tracked servos answered and are within tolerance of their targets.
pub fn pose_reached(targets: &[u16], present: &[Option<u16>]) -> (reached: bool)
    requires
        targets@.len() == present@.len(),
    ensures
        reached == all_on_target(targets@, present@),
{
    let mut i: usize = 0;
    while i < targets.len()
        invariant
            i <= targets@.len(),
            targets@.len() == present@.len(),
            all_on_target(targets@.subrange(0, i as int), present@.subrange(0, i as int)),
        decreases targets@.len() - i,
    {
        match present[i] {
            Some(p) => {
                if !servo_on_target(p, targets[i]) {
                    proof {
                        assert(present@[i as int] == Some(p));
                        assert(!all_on_target(targets@, present@));
                    }
                    return false;
                }
            },
            None => {
                proof {
                    assert(present@[i as int] == None::<u16>);
                    assert(!all_on_target(targets@, present@));
                }
                return false;
            },
        }
        proof {
            assert forall|k: int| 0 <= k < i + 1 implies match #[trigger] present@.subrange(0, i + 1)[k] {
                Some(p) => (if p >= targets@.subrange(0, i + 1)[k] { p - targets@.subrange(0, i + 1)[k] } else { targets@.subrange(0, i + 1)[k] - p }) <= RANGE_TARGET_TOLERANCE_TICKS,
                None => false,
            } by {
                if k < i {
                    assert(present@.subrange(0, i + 1)[k] == present@.subrange(0, i as int)[k]);
                    assert(targets@.subrange(0, i + 1)[k] == targets@.subrange(0, i as int)[k]);
                }
            }
        }
        i = i + 1;
    }
    proof {
        assert(targets@.subrange(0, targets@.len() as int) =~= targets@);
        assert(present@.subrange(0, present@.len() as int) =~= present@);
    }
    true
}

/// The settle counter after one more poll, and whether the move has now
/// settled: polls with every servo on target are counted (saturating), any
/// other poll resets the count, and the move has settled once the count
/// reaches `POSITION_SETTLE_CONFIRM_CYCLES`.
pub fn settle_step(stable_cycles: u8, all_close_this_poll: bool) -> (result: (u8, bool))
    ensures
        result.0 == (if all_close_this_poll {
            if stable_cycles == 255 { 255 } else { stable_cycles + 1 }
        } else {
            0
        }),
        result.1 == (result.0 >= POSITION_SETTLE_CONFIRM_CYCLES),
{
    let next: u8 = if all_close_this_poll {
        if stable_cycles == 255 { 255 } else { stable_cycles + 1 }
    } else {
        0
    };
    (next, next >= POSITION_SETTLE_CONFIRM_CYCLES)
}

/// The sensing parameters actually used for a scan, from those requested:
/// the probe limit is at least 1, the restore limit at least the probe
/// limit, polls at least 40 ms apart, at least one confirming sample and a
/// move timeout of at least one second.
pub fn sense_params_from_request(
    probe_torque_limit: u16,
    restore_torque_limit: u16,
    poll_ms: u64,
    stop_speed_ticks: u16,
    confirm_stopped_samples: u8,
    move_timeout_ms: u64,
) -> (params: SenseParams)
    ensures
        params.probe_torque_limit == (if probe_torque_limit >= 1 { probe_torque_limit } else { 1 }),
        params.restore_torque_limit == (if restore_torque_limit >= params.probe_torque_limit {
            restore_torque_limit
        } else {
            params.probe_torque_limit
        }),
        params.poll_ms == (if poll_ms >= 40 { poll_ms } else { 40 }),
        params.stop_speed_ticks == stop_speed_ticks,
        params.confirm_stopped_samples == (if confirm_stopped_samples >= 1 { confirm_stopped_samples } else { 1 }),
        params.move_timeout_ms == (if move_timeout_ms >= 1000 { move_timeout_ms } else { 1000 }),
{
    let probe = if probe_torque_limit >= 1 { probe_torque_limit } else { 1 };
    SenseParams {
        probe_torque_limit: probe,
        restore_torque_limit: if restore_torque_limit >= probe { restore_torque_limit } else { probe },
        poll_ms: if poll_ms >= 40 { poll_ms } else { 40 },
        stop_speed_ticks,
        confirm_stopped_samples: if confirm_stopped_samples >= 1 { confirm_stopped_samples } else { 1 },
        move_timeout_ms: if move_timeout_ms >= 1000 { move_timeout_ms } else { 1000 },
    }
}

} // verus!

verus! {

/// The ends of one servo's measured free travel, from a range scan.
#[derive(Clone, Debug)]
pub struct ServoRangeMeasurement {
    pub leg_name: String,
    pub joint: JointKind,
    pub servo_id: u8,
    pub positive_end_ticks: u16,
    pub negative_end_ticks: u16,
}

/// The measured range of one joint as written to the range report.
#[derive(Clone, Debug)]
pub struct JointRangeMeasurement {
    pub joint: String,
    pub servo_id: u8,
    pub logical_positive_label: String,
    pub logical_negative_end_ticks: u16,
    pub logical_positive_end_ticks: u16,
    pub midpoint_ticks: u16,
    pub upper_seventy_percent_ticks: u16,
    pub span_ticks: u16,
}

/// The report name of a joint.
pub open spec fn joint_name(joint: JointKind) -> Seq<char> {
    match joint {
        JointKind::Coxa => "coxa"@,
        JointKind::Femur => "femur"@,
        JointKind::Tibia => "tibia"@,
    }
}

/// The name of a joint's logical positive direction.
pub open spec fn positive_direction_label(joint: JointKind) -> Seq<char> {
    match joint {
        JointKind::Coxa => "forward"@,
        JointKind::Femur | JointKind::Tibia => "up"@,
    }
}

/// The report entry for a measured servo range: its joint and direction
/// labels, the measured ends, the midpoint, the point 70% of the way toward
/// the positive end, and the span between the ends.
pub fn measurement_report(leg: &LegConfig, measurement: &ServoRangeMeasurement) -> (report: JointRangeMeasurement)
    ensures
        report.joint@ == joint_name(measurement.joint),
        report.logical_positive_label@ == positive_direction_label(measurement.joint),
        report.servo_id == spec_servo_id_for_joint(*leg, measurement.joint),
        report.logical_negative_end_ticks == measurement.negative_end_ticks,
        report.logical_positive_end_ticks == measurement.positive_end_ticks,
        report.midpoint_ticks == spec_interpolate_ticks(
            measurement.negative_end_ticks as int,
            measurement.positive_end_ticks as int,
            500,
        ),
        report.upper_seventy_percent_ticks == spec_interpolate_ticks(
            measurement.negative_end_ticks as int,
            measurement.positive_end_ticks as int,
            700,
        ),
        report.span_ticks as int == if measurement.positive_end_ticks >= measurement.negative_end_ticks {
            measurement.positive_end_ticks - measurement.negative_end_ticks
        } else {
            measurement.negative_end_ticks - measurement.positive_end_ticks
        },
{
    let mut joint = String::new();
    let mut positive_label = String::new();
    match measurement.joint {
        JointKind::Coxa => {
            joint.append("coxa");
            positive_label.append("forward");
        },
        JointKind::Femur => {
            joint.append("femur");
            positive_label.append("up");
        },
        JointKind::Tibia => {
            joint.append("tibia");
            positive_label.append("up");
        },
    }
    JointRangeMeasurement {
        joint,
        servo_id: servo_id_for_joint(leg, measurement.joint),
        logical_positive_label: positive_label,
        logical_negative_end_ticks: measurement.negative_end_ticks,
        logical_positive_end_ticks: measurement.positive_end_ticks,
        midpoint_ticks: interpolate_ticks(measurement.negative_end_ticks, measurement.positive_end_ticks, 500),
        upper_seventy_percent_ticks: interpolate_ticks(
            measurement.negative_end_ticks,
            measurement.positive_end_ticks,
            700,
        ),
        span_ticks: abs_diff_ticks(measurement.positive_end_ticks, measurement.negative_end_ticks),
    }
}

/// Where a configured pose position lies relative to a measured range.
#[derive(Clone, Copy, Debug, PartialEq, Eq, Structural)]
pub enum PoseCheck {
    /// Below the lower measured end by this many ticks.
    BelowRange { by_ticks: u16 },
    /// Above the upper measured end by this many ticks.
    AboveRange { by_ticks: u16 },
    /// Inside the range but only this many ticks from the nearer end.
    NearEdge { edge_distance_ticks: u16 },
    /// Comfortably inside the range.
    Within,
}

/// The lower of two tick values.
pub open spec fn min_ticks(a: u16, b: u16) -> u16 {
    if a <= b { a } else { b }
}

/// The higher of two tick values.
pub open spec fn max_ticks(a: u16, b: u16) -> u16 {
    if a >= b { a } else { b }
}

/// How `ticks` relates to the range between the measured ends.
pub open spec fn spec_check_pose_ticks(ticks: u16, negative_end: u16, positive_end: u16) -> PoseCheck {
    let lo = min_ticks(negative_end, positive_end);
    let hi = max_ticks(negative_end, positive_end);
    if ticks < lo {
        PoseCheck::BelowRange { by_ticks: (lo - ticks) as u16 }
    } else if ticks > hi {
        PoseCheck::AboveRange { by_ticks: (ticks - hi) as u16 }
    } else {
        let edge = min_ticks((ticks - lo) as u16, (hi - ticks) as u16);
        if edge <= POSE_EDGE_WARNING_MIN_TICKS {
            PoseCheck::NearEdge { edge_distance_ticks: edge }
        } else {
            PoseCheck::Within
        }
    }
}

/// Classifies a configured pose position against a measured joint range:
/// outside it (and by how much), inside but within `POSE_EDGE_WARNING_MIN_TICKS`
/// of an end, or comfortably inside.
pub fn check_pose_ticks(ticks: u16, measurement: &JointRangeMeasurement) -> (check: PoseCheck)
    ensures
        check == spec_check_pose_ticks(
            ticks,
            measurement.logical_negative_end_ticks,
            measurement.logical_positive_end_ticks,
        ),
{
    let a = measurement.logical_negative_end_ticks;
    let b = measurement.logical_positive_end_ticks;
    let lo = if a <= b { a } else { b };
    let hi = if a >= b { a } else { b };
    if ticks < lo {
        return PoseCheck::BelowRange { by_ticks: lo - ticks };
    }
    if ticks > hi {
        return PoseCheck::AboveRange { by_ticks: ticks - hi };
    }
    let to_lo = ticks - lo;
    let to_hi = hi - ticks;
    let edge = if to_lo <= to_hi { to_lo } else { to_hi };
    if edge <= POSE_EDGE_WARNING_MIN_TICKS {
        PoseCheck::NearEdge { edge_distance_ticks: edge }
    } else {
        PoseCheck::Within
    }
}

/// A pose check depends only on the unordered measured range: swapping the
/// two ends changes nothing. A position between the two ends (in either
/// order) is never outside the range; one below both ends is below by its
/// distance to the nearer end, one above both ends is above by its distance
/// to the nearer end; and a near-edge warning gives the distance to one of
/// the ends, no more than `POSE_EDGE_WARNING_MIN_TICKS`, which no position
/// farther from both ends gets.
pub proof fn lemma_pose_check_uses_unordered_range(ticks: u16, end_a: u16, end_b: u16)
    ensures
        spec_check_pose_ticks(ticks, end_a, end_b) == spec_check_pose_ticks(ticks, end_b, end_a),
        (end_a <= ticks <= end_b || end_b <= ticks <= end_a) ==> {
            &&& !(spec_check_pose_ticks(ticks, end_a, end_b) is BelowRange)
            &&& !(spec_check_pose_ticks(ticks, end_a, end_b) is AboveRange)
        },
        ticks < end_a && ticks < end_b ==> (spec_check_pose_ticks(ticks, end_a, end_b) matches PoseCheck::BelowRange { by_ticks }
            && ticks + by_ticks <= end_a && ticks + by_ticks <= end_b
            && (ticks + by_ticks == end_a || ticks + by_ticks == end_b)),
        ticks > end_a && ticks > end_b ==> (spec_check_pose_ticks(ticks, end_a, end_b) matches PoseCheck::AboveRange { by_ticks }
            && ticks - by_ticks >= end_a && ticks - by_ticks >= end_b
            && (ticks - by_ticks == end_a || ticks - by_ticks == end_b)),
        spec_check_pose_ticks(ticks, end_a, end_b) matches PoseCheck::NearEdge { edge_distance_ticks }
            ==> edge_distance_ticks <= POSE_EDGE_WARNING_MIN_TICKS && (
                ticks - edge_distance_ticks == end_a || ticks + edge_distance_ticks == end_a
                || ticks - edge_distance_ticks == end_b || ticks + edge_distance_ticks == end_b),
        (end_a <= ticks <= end_b || end_b <= ticks <= end_a)
            && (ticks > end_a + POSE_EDGE_WARNING_MIN_TICKS || ticks + POSE_EDGE_WARNING_MIN_TICKS < end_a)
            && (ticks > end_b + POSE_EDGE_WARNING_MIN_TICKS || ticks + POSE_EDGE_WARNING_MIN_TICKS < end_b)
            ==> spec_check_pose_ticks(ticks, end_a, end_b) == PoseCheck::Within,
{
}

/// Whether a pose check result is worth a warning.
pub open spec fn is_warning(check: PoseCheck) -> bool {
    !(check is Within)
}

/// The number of warnings for one joint: one if it is a coxa whose measured
/// span is suspiciously small, plus one for each of the stand-reference and
/// lay-down positions that is not comfortably inside the measured range.
pub open spec fn spec_joint_check_warnings(
    joint: JointKind,
    stand_reference_ticks: u16,
    lay_down_ticks: u16,
    measurement: JointRangeMeasurement,
) -> nat {
    (if joint == JointKind::Coxa && measurement.span_ticks <= COXA_SUSPICIOUS_SPAN_TICKS { 1nat } else { 0nat })
        + (if is_warning(spec_check_pose_ticks(stand_reference_ticks, measurement.logical_negative_end_ticks, measurement.logical_positive_end_ticks)) { 1nat } else { 0nat })
        + (if is_warning(spec_check_pose_ticks(lay_down_ticks, measurement.logical_negative_end_ticks, measurement.logical_positive_end_ticks)) { 1nat } else { 0nat })
}

/// The pose checks of one joint and the number of warnings they raise.
pub fn check_joint(
    joint: JointKind,
    stand_reference_ticks: u16,
    lay_down_ticks: u16,
    measurement: &JointRangeMeasurement,
) -> (result: (bool, PoseCheck, PoseCheck, usize))
    ensures
        result.0 == (joint == JointKind::Coxa && measurement.span_ticks <= COXA_SUSPICIOUS_SPAN_TICKS),
        result.1 == spec_check_pose_ticks(stand_reference_ticks, measurement.logical_negative_end_ticks, measurement.logical_positive_end_ticks),
        result.2 == spec_check_pose_ticks(lay_down_ticks, measurement.logical_negative_end_ticks, measurement.logical_positive_end_ticks),
        result.3 == spec_joint_check_warnings(joint, stand_reference_ticks, lay_down_ticks, *measurement),
{
    let suspicious_span = joint == JointKind::Coxa && measurement.span_ticks <= COXA_SUSPICIOUS_SPAN_TICKS;
    let stand = check_pose_ticks(stand_reference_ticks, measurement);
    let lay = check_pose_ticks(lay_down_ticks, measurement);
    let mut warnings: usize = 0;
    if suspicious_span {
        warnings = warnings + 1;
    }
    if !matches!(stand, PoseCheck::Within) {
        warnings = warnings + 1;
    }
    if !matches!(lay, PoseCheck::Within) {
        warnings = warnings + 1;
    }
    (suspicious_span, stand, lay, warnings)
}

/// A suggested lay-down position: slightly inside whichever measured end the
/// current lay-down position is nearer to (the negative end on a tie).
pub open spec fn spec_suggested_lay_down_ticks(measurement: JointRangeMeasurement, current_ticks: u16) -> int {
    let neg = measurement.logical_negative_end_ticks;
    let pos = measurement.logical_positive_end_ticks;
    let to_neg = if current_ticks >= neg { current_ticks - neg } else { neg - current_ticks };
    let to_pos = if current_ticks >= pos { current_ticks - pos } else { pos - current_ticks };
    if to_neg <= to_pos {
        spec_interpolate_ticks(neg as int, pos as int, LAY_DOWN_INSET_PERMILLE as int)
    } else {
        spec_interpolate_ticks(neg as int, pos as int, 1000 - LAY_DOWN_INSET_PERMILLE)
    }
}

/// The suggested lay-down position lies within the measured range, on the
/// half of it nearer to whichever end the current lay-down position is
/// nearer to (the negative end on a tie).
pub proof fn lemma_suggested_lay_down_near_current_end(measurement: JointRangeMeasurement, current_ticks: u16)
    requires
        measurement.logical_negative_end_ticks <= 4095,
        measurement.logical_positive_end_ticks <= 4095,
    ensures
        ({
            let neg = measurement.logical_negative_end_ticks as int;
            let pos = measurement.logical_positive_end_ticks as int;
            let r = spec_suggested_lay_down_ticks(measurement, current_ticks);
            let dist = |a: int, b: int| if a >= b { a - b } else { b - a };
            &&& (neg <= r <= pos || pos <= r <= neg)
            &&& dist(current_ticks as int, neg) <= dist(current_ticks as int, pos) ==> dist(r, neg) <= dist(r, pos)
            &&& dist(current_ticks as int, neg) > dist(current_ticks as int, pos) ==> dist(r, pos) <= dist(r, neg)
        }),
{
    let neg = measurement.logical_negative_end_ticks as int;
    let pos = measurement.logical_positive_end_ticks as int;
    assert(spec_interpolate_ticks(neg, pos, 80) == clamp_ticks((2 * (neg * 1000 + (pos - neg) * 80) + 1000) / 2000));
    assert(spec_interpolate_ticks(neg, pos, 920) == clamp_ticks((2 * (neg * 1000 + (pos - neg) * 920) + 1000) / 2000));
}

/// Suggests a lay-down position slightly inside the measured end nearer to
/// the current lay-down position.
pub fn suggested_lay_down_ticks(measurement: &JointRangeMeasurement, current_ticks: u16) -> (ticks: u16)
    ensures
        ticks == spec_suggested_lay_down_ticks(*measurement, current_ticks),
{
    let neg = measurement.logical_negative_end_ticks;
    let pos = measurement.logical_positive_end_ticks;
    if abs_diff_ticks(current_ticks, neg) <= abs_diff_ticks(current_ticks, pos) {
        interpolate_ticks(neg, pos, LAY_DOWN_INSET_PERMILLE)
    } else {
        interpolate_ticks(neg, pos, 1000 - LAY_DOWN_INSET_PERMILLE)
    }
}

/// How an EEPROM entry is to be written.
#[derive(Clone, Copy, Debug, PartialEq, Eq, Structural)]
pub enum ServoRegisterWidth {
    U8,
    U16,
}

/// One persistent register value of the servo EEPROM profile.
#[derive(Clone, Debug)]
pub struct ServoEepromEntry {
    pub name: String,
    pub address: u8,
    pub width: ServoRegisterWidth,
    pub value: u16,
}

/// The register write that applies an EEPROM entry.
#[derive(Clone, Copy, Debug, PartialEq, Eq, Structural)]
pub enum EepromWrite {
    U8 { address: u8, byte: u8 },
    U16 { address: u8, word: u16 },
}

/// The write for an EEPROM entry: a byte write for one-byte registers, whose
/// value must fit in a byte (`None` otherwise), and a word write for
/// two-byte registers.
pub fn eeprom_write_for_entry(entry: &ServoEepromEntry) -> (write: Option<EepromWrite>)
    ensures
        match entry.width {
            ServoRegisterWidth::U8 => if entry.value <= 255 {
                write == Some(EepromWrite::U8 { address: entry.address, byte: entry.value as u8 })
            } else {
                write is None
            },
            ServoRegisterWidth::U16 => write == Some(EepromWrite::U16 { address: entry.address, word: entry.value }),
        },
{
    match entry.width {
        ServoRegisterWidth::U8 => {
            if entry.value <= 255 {
                Some(EepromWrite::U8 { address: entry.address, byte: entry.value as u8 })
            } else {
                None
            }
        },
        ServoRegisterWidth::U16 => Some(EepromWrite::U16 { address: entry.address, word: entry.value }),
    }
}

/// The write an EEPROM entry asks for, as `eeprom_write_for_entry` gives it.
pub open spec fn spec_entry_write(entry: ServoEepromEntry) -> Option<EepromWrite> {
    match entry.width {
        ServoRegisterWidth::U8 => if entry.value <= 255 {
            Some(EepromWrite::U8 { address: entry.address, byte: entry.value as u8 })
        } else {
            None
        },
        ServoRegisterWidth::U16 => Some(EepromWrite::U16 { address: entry.address, word: entry.value }),
    }
}

/// Where an EEPROM profile application stands: the step whose action was
/// handed out last.
#[derive(Clone, Copy, Debug, PartialEq, Eq, Structural)]
pub enum EepromStep {
    /// Unlocking; the servos before index `next` were asked to unlock.
    Unlock { next: usize },
    /// Entry `entry` was written to servo `servo` and read back.
    Write { entry: usize, servo: usize },
    /// Relocking; the servos before index `next` were asked to lock again.
    Relock { next: usize, apply_failed: bool, relock_failed: bool },
    /// Finished with these outcomes.
    Done { apply_ok: bool, relock_ok: bool },
}

/// What the worker does next in an EEPROM profile application.
#[derive(Clone, Copy, Debug, PartialEq, Eq, Structural)]
pub enum EepromAction {
    /// Set the EEPROM write lock of one servo.
    SetLock { servo_id: u8, locked: bool },
    /// Write one register of one servo, wait, and verify it by readback.
    WriteVerify { servo_id: u8, write: EepromWrite },
    /// Report the outcome: whether the profile was written and verified, and
    /// whether every servo was locked again.
    Finish { apply_ok: bool, relock_ok: bool },
}

/// The start of relocking: lock the first servo, or finish at once when
/// there is none.
pub open spec fn spec_start_relock(servo_ids: Seq<u8>, apply_failed: bool) -> (EepromStep, EepromAction) {
    if servo_ids.len() == 0 {
        (EepromStep::Done { apply_ok: !apply_failed, relock_ok: true }, EepromAction::Finish { apply_ok: !apply_failed, relock_ok: true })
    } else {
        (
            EepromStep::Relock { next: 1, apply_failed, relock_failed: false },
            EepromAction::SetLock { servo_id: servo_ids[0], locked: true },
        )
    }
}

/// The write of entry `entry` to servo `servo`, or relocking when every
/// entry was written (successfully) or the entry does not fit its register.
pub open spec fn spec_write_at(servo_ids: Seq<u8>, entries: Seq<ServoEepromEntry>, entry: int, servo: int) -> (EepromStep, EepromAction) {
    if entry >= entries.len() || servo_ids.len() == 0 {
        spec_start_relock(servo_ids, false)
    } else {
        match spec_entry_write(entries[entry]) {
            None => spec_start_relock(servo_ids, true),
            Some(w) => (
                EepromStep::Write { entry: entry as usize, servo: servo as usize },
                EepromAction::WriteVerify { servo_id: servo_ids[servo], write: w },
            ),
        }
    }
}

/// The next step of applying the EEPROM profile `entries` to `servo_ids`,
/// after the action of `step` gave `last_ok`. Every servo is unlocked in
/// order first; an unlock that fails stops the unlocking and goes to
/// relocking. Then each entry is written to every servo in order and read
/// back; a failed write or readback, or an entry that does not fit its
/// register, stops the writing and goes to relocking. Relocking locks every
/// servo in order, whatever happened before and whether or not a lock
/// fails, and then finishes. A profile without entries is refused: it
/// finishes at once, unapplied, with no lock touched.
pub open spec fn spec_eeprom_apply_step(
    servo_ids: Seq<u8>,
    entries: Seq<ServoEepromEntry>,
    step: EepromStep,
    last_ok: bool,
) -> (EepromStep, EepromAction) {
    if entries.len() == 0 {
        spec_refused_profile()
    } else {
        match step {
            EepromStep::Unlock { next } => if next > 0 && !last_ok {
                spec_start_relock(servo_ids, true)
            } else if next < servo_ids.len() {
                (EepromStep::Unlock { next: (next + 1) as usize }, EepromAction::SetLock { servo_id: servo_ids[next as int], locked: false })
            } else {
                spec_write_at(servo_ids, entries, 0, 0)
            },
            EepromStep::Write { entry, servo } => if !last_ok {
                spec_start_relock(servo_ids, true)
            } else if entry >= entries.len() {
                spec_start_relock(servo_ids, false)
            } else if servo + 1 < servo_ids.len() {
                spec_write_at(servo_ids, entries, entry as int, servo + 1)
            } else {
                spec_write_at(servo_ids, entries, entry + 1, 0)
            },
            EepromStep::Relock { next, apply_failed, relock_failed } => {
                let failed = relock_failed || (next > 0 && !last_ok);
                if next < servo_ids.len() {
                    (
                        EepromStep::Relock { next: (next + 1) as usize, apply_failed, relock_failed: failed },
                        EepromAction::SetLock { servo_id: servo_ids[next as int], locked: true },
                    )
                } else {
                    (EepromStep::Done { apply_ok: !apply_failed, relock_ok: !failed }, EepromAction::Finish { apply_ok: !apply_failed, relock_ok: !failed })
                }
            },
            EepromStep::Done { apply_ok, relock_ok } => (step, EepromAction::Finish { apply_ok, relock_ok }),
        }
    }
}

/// The outcome for a profile without entries: finished, not applied, and
/// every lock as it was.
pub open spec fn spec_refused_profile() -> (EepromStep, EepromAction) {
    (EepromStep::Done { apply_ok: false, relock_ok: true }, EepromAction::Finish { apply_ok: false, relock_ok: true })
}

/// Why an EEPROM profile cannot be applied at all.
#[derive(Clone, Copy, Debug, PartialEq, Eq, Structural)]
pub enum EepromProfileError {
    /// The profile defines no entries.
    Empty,
}

impl EepromProfileError {
    /// The message the calibration tool reports.
    pub fn message(self) -> (message: &'static str)
        ensures
            message@ == "config does not define any servo EEPROM entries"@,
    {
        match self {
            EepromProfileError::Empty => "config does not define any servo EEPROM entries",
        }
    }
}

/// The first step of applying the EEPROM profile `entries`: unlocking from
/// the first servo, or the refusal of a profile without entries, before any
/// servo is touched.
pub fn eeprom_apply_start(entries: &[ServoEepromEntry]) -> (start: Result<EepromStep, EepromProfileError>)
    ensures
        entries@.len() == 0 <==> start is Err,
        start matches Err(e) ==> e == EepromProfileError::Empty,
        start matches Ok(s) ==> s == (EepromStep::Unlock { next: 0 }),
{
    if entries.len() == 0 {
        Err(EepromProfileError::Empty)
    } else {
        Ok(EepromStep::Unlock { next: 0 })
    }
}

fn start_relock(servo_ids: &[u8], apply_failed: bool) -> (next: (EepromStep, EepromAction))
    ensures
        next == spec_start_relock(servo_ids@, apply_failed),
{
    if servo_ids.len() == 0 {
        (EepromStep::Done { apply_ok: !apply_failed, relock_ok: true }, EepromAction::Finish { apply_ok: !apply_failed, relock_ok: true })
    } else {
        (
            EepromStep::Relock { next: 1, apply_failed, relock_failed: false },
            EepromAction::SetLock { servo_id: servo_ids[0], locked: true },
        )
    }
}

fn write_at(servo_ids: &[u8], entries: &[ServoEepromEntry], entry: usize, servo: usize) -> (next: (EepromStep, EepromAction))
    requires
        servo < servo_ids@.len() || servo == 0,
    ensures
        next == spec_write_at(servo_ids@, entries@, entry as int, servo as int),
{
    if entry >= entries.len() || servo_ids.len() == 0 {
        return start_relock(servo_ids, false);
    }
    match eeprom_write_for_entry(&entries[entry]) {
        None => start_relock(servo_ids, true),
        Some(w) => (EepromStep::Write { entry, servo }, EepromAction::WriteVerify { servo_id: servo_ids[servo], write: w }),
    }
}

/// One step of applying the EEPROM profile `entries` to `servo_ids`; start
/// with the step `eeprom_apply_start` gives and feed back whether the
/// handed-out action succeeded, until `Finish`. A profile without entries
/// finishes at once, unapplied, whatever the step. No register is written before every
/// servo was unlocked successfully; a failed unlock, write or readback, or an
/// entry that does not fit its register, goes to relocking from the first
/// servo; relocking locks every servo in order whatever happened; `Finish`
/// reports whether the profile was applied and whether every lock was
/// restored, the two results `eeprom_apply_outcome` combines.
pub fn eeprom_apply_step(
    servo_ids: &[u8],
    entries: &[ServoEepromEntry],
    step: EepromStep,
    last_ok: bool,
) -> (next: (EepromStep, EepromAction))
    ensures
        next == spec_eeprom_apply_step(servo_ids@, entries@, step, last_ok),
        entries@.len() == 0 ==> next == spec_refused_profile(),
        next.1 is WriteVerify ==> {
            ||| step is Unlock && step->Unlock_next >= servo_ids@.len() && (step->Unlock_next == 0 || last_ok)
            ||| step is Write && last_ok
        },
        entries@.len() > 0 && !last_ok && (step is Write || (step is Unlock && step->Unlock_next > 0))
            ==> next == spec_start_relock(servo_ids@, true),
        entries@.len() > 0 && step is Relock && step->Relock_next < servo_ids@.len()
            ==> next.1 == (EepromAction::SetLock { servo_id: servo_ids@[step->Relock_next as int], locked: true }),
        next.1 matches EepromAction::Finish { apply_ok, relock_ok } ==> next.0 == (EepromStep::Done { apply_ok, relock_ok }),
{
    if entries.len() == 0 {
        return (EepromStep::Done { apply_ok: false, relock_ok: true }, EepromAction::Finish { apply_ok: false, relock_ok: true });
    }
    match step {
        EepromStep::Unlock { next } => {
            if next > 0 && !last_ok {
                start_relock(servo_ids, true)
            } else if next < servo_ids.len() {
                (EepromStep::Unlock { next: next + 1 }, EepromAction::SetLock { servo_id: servo_ids[next], locked: false })
            } else {
                write_at(servo_ids, entries, 0, 0)
            }
        },
        EepromStep::Write { entry, servo } => {
            if !last_ok {
                start_relock(servo_ids, true)
            } else if entry >= entries.len() {
                start_relock(servo_ids, false)
            } else if servo_ids.len() > 0 && servo < servo_ids.len() - 1 {
                write_at(servo_ids, entries, entry, servo + 1)
            } else {
                write_at(servo_ids, entries, entry + 1, 0)
            }
        },
        EepromStep::Relock { next, apply_failed, relock_failed } => {
            let failed = relock_failed || (next > 0 && !last_ok);
            if next < servo_ids.len() {
                (
                    EepromStep::Relock { next: next + 1, apply_failed, relock_failed: failed },
                    EepromAction::SetLock { servo_id: servo_ids[next], locked: true },
                )
            } else {
                (EepromStep::Done { apply_ok: !apply_failed, relock_ok: !failed }, EepromAction::Finish { apply_ok: !apply_failed, relock_ok: !failed })
            }
        },
        EepromStep::Done { apply_ok, relock_ok } => (step, EepromAction::Finish { apply_ok, relock_ok }),
    }
}

/// Why applying the EEPROM profile failed.
#[derive(Debug)]
pub enum EepromApplyError<E> {
    /// Writing the profile failed; the write lock was restored.
    Apply(E),
    /// The profile was written but restoring the write lock failed.
    Relock(E),
    /// Writing the profile failed and restoring the write lock failed too.
    ApplyAndRelock(E, E),
}

/// The outcome of an EEPROM profile application from the result of writing
/// the entries and that of relocking the servos afterwards.
pub open spec fn spec_eeprom_apply_outcome<E>(apply: Result<(), E>, relock: Result<(), E>) -> Result<(), EepromApplyError<E>> {
    match (apply, relock) {
        (Ok(()), Ok(())) => Ok(()),
        (Err(a), Ok(())) => Err(EepromApplyError::Apply(a)),
        (Ok(()), Err(r)) => Err(EepromApplyError::Relock(r)),
        (Err(a), Err(r)) => Err(EepromApplyError::ApplyAndRelock(a, r)),
    }
}

/// Combines the results of writing the EEPROM profile and relocking it: both
/// must succeed, and every error that occurred is kept, the write's first.
pub fn eeprom_apply_outcome<E>(apply: Result<(), E>, relock: Result<(), E>) -> (outcome: Result<(), EepromApplyError<E>>)
    ensures
        outcome == spec_eeprom_apply_outcome(apply, relock),
{
    match (apply, relock) {
        (Ok(()), Ok(())) => Ok(()),
        (Err(a), Ok(())) => Err(EepromApplyError::Apply(a)),
        (Ok(()), Err(r)) => Err(EepromApplyError::Relock(r)),
        (Err(a), Err(r)) => Err(EepromApplyError::ApplyAndRelock(a, r)),
    }
}

} // verus!

verus! {

/// The measured ranges of one leg's joints as stored in the range report.
#[derive(Clone, Debug)]
pub struct LegRangeReport {
    pub name: String,
    pub coxa: Option<JointRangeMeasurement>,
    pub femur: Option<JointRangeMeasurement>,
    pub tibia: Option<JointRangeMeasurement>,
}

/// Stand-reference and lay-down positions suggested for one leg.
#[derive(Clone, Debug)]
pub struct SuggestedLegPose {
    pub name: String,
    pub coxa_stand_reference_ticks: u16,
    pub femur_stand_reference_ticks: u16,
    pub tibia_stand_reference_ticks: u16,
    pub coxa_lay_down_ticks: u16,
    pub femur_lay_down_ticks: u16,
    pub tibia_lay_down_ticks: u16,
}

/// What a pose suggestion for a leg was missing.
#[derive(Clone, Copy, Debug, PartialEq, Eq, Structural)]
pub enum SuggestionError {
    /// The range report has no measurement for this joint.
    MissingRange(JointKind),
    /// The configured lay-down pose has no position for this joint's servo.
    MissingLayDownPose(JointKind),
}

/// The stand-reference and lay-down positions suggested from a leg's measured
/// ranges: the coxa stands at its midpoint, the femur 40% and the tibia 60%
/// of the way toward their positive ends, and each lay-down position sits
/// slightly inside the measured end nearer to the configured one. Fails on
/// the first missing joint range (coxa, femur, tibia), then on the first
/// joint missing from the lay-down pose.
pub fn build_suggested_leg_pose(
    leg: &LegConfig,
    measured: &LegRangeReport,
    lay_down_pose: &std::collections::BTreeMap<u8, u16>,
) -> (result: Result<SuggestedLegPose, SuggestionError>)
    ensures
        measured.coxa is None ==> result == Err::<SuggestedLegPose, SuggestionError>(SuggestionError::MissingRange(JointKind::Coxa)),
        measured.coxa is Some && measured.femur is None ==> result == Err::<SuggestedLegPose, SuggestionError>(SuggestionError::MissingRange(JointKind::Femur)),
        measured.coxa is Some && measured.femur is Some && measured.tibia is None ==> result == Err::<SuggestedLegPose, SuggestionError>(SuggestionError::MissingRange(JointKind::Tibia)),
        measured.coxa is Some && measured.femur is Some && measured.tibia is Some ==> {
            let coxa = measured.coxa->0;
            let femur = measured.femur->0;
            let tibia = measured.tibia->0;
            let pose = lay_down_pose@;
            if !pose.contains_key(leg.coxa_servo_id) {
                result == Err::<SuggestedLegPose, SuggestionError>(SuggestionError::MissingLayDownPose(JointKind::Coxa))
            } else if !pose.contains_key(leg.femur_servo_id) {
                result == Err::<SuggestedLegPose, SuggestionError>(SuggestionError::MissingLayDownPose(JointKind::Femur))
            } else if !pose.contains_key(leg.tibia_servo_id) {
                result == Err::<SuggestedLegPose, SuggestionError>(SuggestionError::MissingLayDownPose(JointKind::Tibia))
            } else {
                result matches Ok(s) && {
                    &&& s.name == leg.name
                    &&& s.coxa_stand_reference_ticks == coxa.midpoint_ticks
                    &&& s.femur_stand_reference_ticks == spec_interpolate_ticks(
                        femur.logical_negative_end_ticks as int,
                        femur.logical_positive_end_ticks as int,
                        FEMUR_STAND_REFERENCE_PERMILLE as int,
                    )
                    &&& s.tibia_stand_reference_ticks == spec_interpolate_ticks(
                        tibia.logical_negative_end_ticks as int,
                        tibia.logical_positive_end_ticks as int,
                        TIBIA_STAND_REFERENCE_PERMILLE as int,
                    )
                    &&& s.coxa_lay_down_ticks == spec_suggested_lay_down_ticks(coxa, pose[leg.coxa_servo_id])
                    &&& s.femur_lay_down_ticks == spec_suggested_lay_down_ticks(femur, pose[leg.femur_servo_id])
                    &&& s.tibia_lay_down_ticks == spec_suggested_lay_down_ticks(tibia, pose[leg.tibia_servo_id])
                }
            }
        },
{
    broadcast use vstd::std_specs::btree::group_btree_axioms;
    let coxa = match &measured.coxa {
        Some(m) => m,
        None => return Err(SuggestionError::MissingRange(JointKind::Coxa)),
    };
    let femur = match &measured.femur {
        Some(m) => m,
        None => return Err(SuggestionError::MissingRange(JointKind::Femur)),
    };
    let tibia = match &measured.tibia {
        Some(m) => m,
        None => return Err(SuggestionError::MissingRange(JointKind::Tibia)),
    };
    let coxa_lay = match lay_down_pose.get(&leg.coxa_servo_id) {
        Some(t) => *t,
        None => return Err(SuggestionError::MissingLayDownPose(JointKind::Coxa)),
    };
    let femur_lay = match lay_down_pose.get(&leg.femur_servo_id) {
        Some(t) => *t,
        None => return Err(SuggestionError::MissingLayDownPose(JointKind::Femur)),
    };
    let tibia_lay = match lay_down_pose.get(&leg.tibia_servo_id) {
        Some(t) => *t,
        None => return Err(SuggestionError::MissingLayDownPose(JointKind::Tibia)),
    };
    Ok(SuggestedLegPose {
        name: leg.name.clone(),
        coxa_stand_reference_ticks: coxa.midpoint_ticks,
        femur_stand_reference_ticks: interpolate_ticks(
            femur.logical_negative_end_ticks,
            femur.logical_positive_end_ticks,
            FEMUR_STAND_REFERENCE_PERMILLE,
        ),
        tibia_stand_reference_ticks: interpolate_ticks(
            tibia.logical_negative_end_ticks,
            tibia.logical_positive_end_ticks,
            TIBIA_STAND_REFERENCE_PERMILLE,
        ),
        coxa_lay_down_ticks: suggested_lay_down_ticks(coxa, coxa_lay),
        femur_lay_down_ticks: suggested_lay_down_ticks(femur, femur_lay),
        tibia_lay_down_ticks: suggested_lay_down_ticks(tibia, tibia_lay),
    })
}

} // verus!
