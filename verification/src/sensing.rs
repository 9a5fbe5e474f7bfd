use vstd::prelude::*;
use std::collections::BTreeMap;
use crate::calibrate::{
    BoundProbeState, JointProbe, JointRangeMeasurement, LegRangeReport, ServoMotionSample, ServoRangeMeasurement,
    bound_probe_step, full_range_target, measurement_report, spec_bound_probe_step,
};
use crate::config::{JointKind, LegConfig, servo_id_for_joint, sign_for_joint, spec_servo_id_for_joint, spec_sign_for_joint};
use crate::strings::str_eq;
use crate::ticks::{interpolate_ticks, spec_interpolate_ticks};
use crate::workspace::SenseParams;

verus! {

broadcast use vstd::std_specs::btree::group_btree_axioms;

/// `probe` sweeps `joint` of `leg`.
pub open spec fn probes_joint_of(probe: JointProbe, leg: LegConfig, joint: JointKind) -> bool {
    &&& probe.leg_name@ == leg.name@
    &&& probe.joint == joint
    &&& probe.servo_id == spec_servo_id_for_joint(leg, joint)
    &&& probe.logical_positive_sign == spec_sign_for_joint(leg, joint)
}

/// The sweep probes of one joint on every leg, in configuration order.
pub fn joint_probes(legs: &[LegConfig], joint: JointKind) -> (probes: Vec<JointProbe>)
    ensures
        probes@.len() == legs@.len(),
        forall|i: int| 0 <= i < legs@.len() ==> probes_joint_of(#[trigger] probes@[i], legs@[i], joint),
{
    let mut probes: Vec<JointProbe> = Vec::new();
    let mut i: usize = 0;
    while i < legs.len()
        invariant
            i <= legs@.len(),
            probes@.len() == i,
            forall|j: int| 0 <= j < i ==> probes_joint_of(#[trigger] probes@[j], legs@[j], joint),
        decreases legs@.len() - i,
    {
        let leg = &legs[i];
        probes.push(JointProbe {
            leg_name: leg.name.clone(),
            joint,
            servo_id: servo_id_for_joint(leg, joint),
            logical_positive_sign: sign_for_joint(leg, joint),
        });
        i = i + 1;
    }
    probes
}

/// Every probe's servo has a start position in `pose`.
pub open spec fn all_probes_placed(pose: Map<u8, u16>, probes: Seq<JointProbe>) -> bool {
    forall|i: int| 0 <= i < probes.len() ==> pose.contains_key(#[trigger] probes[i].servo_id)
}

/// The first probe whose servo has no start position.
pub open spec fn first_unplaced(pose: Map<u8, u16>, probes: Seq<JointProbe>) -> int
    recommends
        !all_probes_placed(pose, probes),
{
    choose|i: int| 0 <= i < probes.len() && !pose.contains_key(probes[i].servo_id)
        && forall|j: int| 0 <= j < i ==> pose.contains_key(#[trigger] probes[j].servo_id)
}

/// `pose` with every probed servo sent to the end of its travel in
/// `logical_direction`, probes in order.
pub open spec fn spec_sweep_pose(pose: Map<u8, u16>, probes: Seq<JointProbe>, logical_direction: i16) -> Map<u8, u16>
    decreases probes.len(),
{
    if probes.len() == 0 {
        pose
    } else {
        let probe = probes.last();
        spec_sweep_pose(pose, probes.drop_last(), logical_direction).insert(
            probe.servo_id,
            if logical_direction * probe.logical_positive_sign >= 0 { 4095u16 } else { 0u16 },
        )
    }
}

/// A sweep moves only the probed servos, each to an end of its travel:
/// toward the logical positive end a servo whose positive direction is the
/// raw one goes to 4095 and one mounted the other way to 0, and the two
/// sweep directions send every probed servo to opposite ends.
pub proof fn lemma_sweep_reaches_opposite_ends(pose: Map<u8, u16>, probes: Seq<JointProbe>, servo_id: u8)
    requires
        forall|i: int| 0 <= i < probes.len() ==> #[trigger] probes[i].logical_positive_sign != 0,
    ensures
        (forall|i: int| 0 <= i < probes.len() ==> #[trigger] probes[i].servo_id != servo_id) ==> {
            &&& spec_sweep_pose(pose, probes, 1i16).contains_key(servo_id) == pose.contains_key(servo_id)
            &&& spec_sweep_pose(pose, probes, 1i16)[servo_id] == pose[servo_id]
            &&& spec_sweep_pose(pose, probes, -1i16)[servo_id] == pose[servo_id]
        },
        (exists|i: int| 0 <= i < probes.len() && #[trigger] probes[i].servo_id == servo_id) ==> {
            &&& spec_sweep_pose(pose, probes, 1i16).contains_key(servo_id)
            &&& spec_sweep_pose(pose, probes, 1i16)[servo_id] + spec_sweep_pose(pose, probes, -1i16)[servo_id] == 4095
            &&& spec_sweep_pose(pose, probes, 1i16)[servo_id] == 4095 || spec_sweep_pose(pose, probes, 1i16)[servo_id] == 0
        },
        (forall|i: int| 0 <= i < probes.len() && #[trigger] probes[i].servo_id == servo_id
            ==> probes[i].logical_positive_sign > 0) && (exists|i: int| 0 <= i < probes.len() && #[trigger] probes[i].servo_id == servo_id)
            ==> spec_sweep_pose(pose, probes, 1i16)[servo_id] == 4095,
    decreases probes.len(),
{
    if probes.len() > 0 {
        let rest = probes.drop_last();
        assert forall|i: int| 0 <= i < rest.len() implies #[trigger] rest[i].logical_positive_sign != 0 by {
            assert(rest[i] == probes[i]);
        }
        lemma_sweep_reaches_opposite_ends(pose, rest, servo_id);
        let last = probes.last();
        if last.servo_id != servo_id {
            if exists|i: int| 0 <= i < probes.len() && #[trigger] probes[i].servo_id == servo_id {
                let i = choose|i: int| 0 <= i < probes.len() && #[trigger] probes[i].servo_id == servo_id;
                assert(i < rest.len());
                assert(rest[i] == probes[i]);
            }
            if forall|i: int| 0 <= i < probes.len() && #[trigger] probes[i].servo_id == servo_id
                ==> probes[i].logical_positive_sign > 0 {
                assert forall|i: int| 0 <= i < rest.len() && #[trigger] rest[i].servo_id == servo_id
                    implies rest[i].logical_positive_sign > 0 by {
                    assert(rest[i] == probes[i]);
                }
            }
            if forall|k: int| 0 <= k < probes.len() ==> #[trigger] probes[k].servo_id != servo_id {
                assert forall|i: int| 0 <= i < rest.len() implies #[trigger] rest[i].servo_id != servo_id by {
                    assert(rest[i] == probes[i]);
                }
            }
        } else {
            assert(probes[probes.len() - 1] == last);
        }
    }
}

/// `state` starts a sweep of `probe` from `start`.
pub open spec fn sweep_started(state: BoundProbeState, probe: JointProbe, start: u16) -> bool {
    &&& state.probe.leg_name@ == probe.leg_name@
    &&& state.probe.joint == probe.joint
    &&& state.probe.servo_id == probe.servo_id
    &&& state.probe.logical_positive_sign == probe.logical_positive_sign
    &&& state.start_position_ticks == start
    &&& !state.has_started_motion
    &&& state.consecutive_stopped == 0
}

/// Starts a sweep of `probes` toward `logical_direction` (`1` or `-1`):
/// every probe starts from its servo's position in `pose`, and `pose` sends
/// each probed servo to the end of its travel in that direction. Fails,
/// changing nothing, with the first probe whose servo has no position.
pub fn start_bound_sweep(pose: &mut BTreeMap<u8, u16>, probes: &[JointProbe], logical_direction: i16) -> (result: Result<Vec<BoundProbeState>, u8>)
    requires
        logical_direction == 1 || logical_direction == -1,
        forall|i: int| 0 <= i < probes@.len() ==> #[trigger] probes@[i].logical_positive_sign != i16::MIN,
    ensures
        !all_probes_placed(old(pose)@, probes@) ==> {
            &&& result == Err::<Vec<BoundProbeState>, u8>(probes@[first_unplaced(old(pose)@, probes@)].servo_id)
            &&& final(pose)@ == old(pose)@
        },
        all_probes_placed(old(pose)@, probes@) ==> {
            &&& result matches Ok(states)
            &&& states@.len() == probes@.len()
            &&& forall|i: int| 0 <= i < probes@.len() ==> sweep_started(#[trigger] states@[i], probes@[i], old(pose)@[probes@[i].servo_id])
            &&& final(pose)@ == spec_sweep_pose(old(pose)@, probes@, logical_direction)
        },
{
    let mut states: Vec<BoundProbeState> = Vec::new();
    let mut i: usize = 0;
    while i < probes.len()
        invariant
            i <= probes@.len(),
            states@.len() == i,
            forall|j: int| 0 <= j < i ==> pose@.contains_key(#[trigger] probes@[j].servo_id),
            forall|j: int| 0 <= j < i ==> sweep_started(#[trigger] states@[j], probes@[j], pose@[probes@[j].servo_id]),
            pose@ == old(pose)@,
        decreases probes@.len() - i,
    {
        let probe = &probes[i];
        let start = match pose.get(&probe.servo_id) {
            Some(t) => *t,
            None => {
                proof {
                    assert(!all_probes_placed(old(pose)@, probes@));
                    let k = first_unplaced(old(pose)@, probes@);
                    assert(0 <= i < probes@.len() && !pose@.contains_key(probes@[i as int].servo_id)
                        && forall|j: int| 0 <= j < i ==> pose@.contains_key(#[trigger] probes@[j].servo_id));
                    if k < i {
                        assert(pose@.contains_key(probes@[k].servo_id));
                    } else if k > i {
                        assert(pose@.contains_key(probes@[i as int].servo_id));
                    }
                }
                return Err(probe.servo_id);
            },
        };
        states.push(BoundProbeState {
            probe: JointProbe {
                leg_name: probe.leg_name.clone(),
                joint: probe.joint,
                servo_id: probe.servo_id,
                logical_positive_sign: probe.logical_positive_sign,
            },
            start_position_ticks: start,
            has_started_motion: false,
            consecutive_stopped: 0,
        });
        i = i + 1;
    }
    let ghost start_pose = pose@;
    let mut k: usize = 0;
    while k < probes.len()
        invariant
            k <= probes@.len(),
            forall|j: int| 0 <= j < probes@.len() ==> #[trigger] probes@[j].logical_positive_sign != i16::MIN,
            logical_direction == 1 || logical_direction == -1,
            pose@ == spec_sweep_pose(start_pose, probes@.subrange(0, k as int), logical_direction),
        decreases probes@.len() - k,
    {
        let probe = &probes[k];
        let raw_direction: i16 = logical_direction * probe.logical_positive_sign;
        pose.insert(probe.servo_id, full_range_target(raw_direction));
        proof {
            assert(probes@.subrange(0, k + 1).drop_last() =~= probes@.subrange(0, k as int));
            assert(probes@.subrange(0, k + 1).last() == probes@[k as int]);
        }
        k = k + 1;
    }
    proof {
        assert(probes@.subrange(0, probes@.len() as int) =~= probes@);
    }
    Ok(states)
}

/// The servos of a sweep poll that have finished, with the position each
/// stopped at, in probe order.
pub open spec fn spec_finished(states: Seq<BoundProbeState>, samples: Seq<ServoMotionSample>, params: SenseParams) -> Seq<(u8, u16)>
    decreases states.len(),
{
    if states.len() == 0 || samples.len() < states.len() {
        Seq::empty()
    } else {
        let last = states.len() - 1;
        let rest = spec_finished(states.drop_last(), samples.subrange(0, last), params);
        if spec_bound_probe_step(states[last], samples[last], params).1 {
            rest.push((states[last].probe.servo_id, samples[last].present_position_ticks))
        } else {
            rest
        }
    }
}

/// Advances every swept servo by its feedback sample of this poll
/// (`samples[i]` belongs to `states[i]`) and returns the servos that have
/// now stopped for the confirmation count, with their positions. The sweep
/// is done once every servo is in that list.
pub fn sweep_poll(states: &mut Vec<BoundProbeState>, samples: &[ServoMotionSample], params: &SenseParams) -> (finished: Vec<(u8, u16)>)
    requires
        samples@.len() == old(states)@.len(),
    ensures
        final(states)@.len() == old(states)@.len(),
        forall|i: int| 0 <= i < old(states)@.len() ==> #[trigger] final(states)@[i] == spec_bound_probe_step(old(states)@[i], samples@[i], *params).0,
        finished@ == spec_finished(old(states)@, samples@, *params),
{
    let ghost initial = states@;
    let mut finished: Vec<(u8, u16)> = Vec::new();
    let mut i: usize = 0;
    while i < states.len()
        invariant
            i <= states@.len(),
            states@.len() == initial.len(),
            samples@.len() == initial.len(),
            forall|j: int| 0 <= j < i ==> #[trigger] states@[j] == spec_bound_probe_step(initial[j], samples@[j], *params).0,
            forall|j: int| i <= j < initial.len() ==> #[trigger] states@[j] == initial[j],
            finished@ == spec_finished(initial.subrange(0, i as int), samples@.subrange(0, i as int), *params),
        decreases initial.len() - i,
    {
        let mut state = states.remove(i);
        let done = bound_probe_step(&mut state, &samples[i], params);
        if done {
            finished.push((state.probe.servo_id, samples[i].present_position_ticks));
        }
        states.insert(i, state);
        proof {
            let prefix = initial.subrange(0, i + 1);
            assert(prefix.drop_last() =~= initial.subrange(0, i as int));
            assert(samples@.subrange(0, i + 1).subrange(0, i as int) =~= samples@.subrange(0, i as int));
        }
        i = i + 1;
    }
    proof {
        assert(initial.subrange(0, initial.len() as int) =~= initial);
        assert(samples@.subrange(0, samples@.len() as int) =~= samples@);
    }
    finished
}

/// `pose` with every measured servo placed `ratio_permille / 1000` of the way
/// from its negative to its positive end, measurements in order.
pub open spec fn spec_ratio_pose(pose: Map<u8, u16>, measurements: Seq<ServoRangeMeasurement>, ratio_permille: u16) -> Map<u8, u16>
    decreases measurements.len(),
{
    if measurements.len() == 0 {
        pose
    } else {
        let m = measurements.last();
        spec_ratio_pose(pose, measurements.drop_last(), ratio_permille).insert(
            m.servo_id,
            spec_interpolate_ticks(m.negative_end_ticks as int, m.positive_end_ticks as int, ratio_permille as int) as u16,
        )
    }
}

/// Places every measured servo a fraction of the way along its measured
/// range, as the sensing sequence does between joint groups.
pub fn place_at_ratio(pose: &mut BTreeMap<u8, u16>, measurements: &[ServoRangeMeasurement], ratio_permille: u16)
    ensures
        final(pose)@ == spec_ratio_pose(old(pose)@, measurements@, ratio_permille),
{
    let ghost start = pose@;
    let mut i: usize = 0;
    while i < measurements.len()
        invariant
            i <= measurements@.len(),
            pose@ == spec_ratio_pose(start, measurements@.subrange(0, i as int), ratio_permille),
        decreases measurements@.len() - i,
    {
        let m = &measurements[i];
        pose.insert(m.servo_id, interpolate_ticks(m.negative_end_ticks, m.positive_end_ticks, ratio_permille));
        proof {
            assert(measurements@.subrange(0, i + 1).drop_last() =~= measurements@.subrange(0, i as int));
            assert(measurements@.subrange(0, i + 1).last() == measurements@[i as int]);
        }
        i = i + 1;
    }
    proof {
        assert(measurements@.subrange(0, measurements@.len() as int) =~= measurements@);
    }
}

/// A servo without a recorded self-stop in one of the two sweeps.
#[derive(Clone, Copy, Debug, PartialEq, Eq, Structural)]
pub struct MissingBound {
    pub servo_id: u8,
    /// The missing stop is the one of the positive sweep.
    pub positive: bool,
}

/// `m` records the range of `probe` between the given stop positions.
pub open spec fn measures(m: ServoRangeMeasurement, probe: JointProbe, positive_end: u16, negative_end: u16) -> bool {
    &&& m.leg_name@ == probe.leg_name@
    &&& m.joint == probe.joint
    &&& m.servo_id == probe.servo_id
    &&& m.positive_end_ticks == positive_end
    &&& m.negative_end_ticks == negative_end
}

/// Both sweeps recorded a stop for every probe.
pub open spec fn all_bounds_found(probes: Seq<JointProbe>, positive: Map<u8, u16>, negative: Map<u8, u16>) -> bool {
    forall|i: int| 0 <= i < probes.len() ==> positive.contains_key(#[trigger] probes[i].servo_id) && negative.contains_key(probes[i].servo_id)
}

/// The error for the first probe missing a stop: its positive stop is
/// looked for before its negative one.
pub open spec fn first_missing_bound(probes: Seq<JointProbe>, positive: Map<u8, u16>, negative: Map<u8, u16>) -> MissingBound
    decreases probes.len(),
{
    if probes.len() == 0 {
        MissingBound { servo_id: 0, positive: true }
    } else if !positive.contains_key(probes[0].servo_id) {
        MissingBound { servo_id: probes[0].servo_id, positive: true }
    } else if !negative.contains_key(probes[0].servo_id) {
        MissingBound { servo_id: probes[0].servo_id, positive: false }
    } else {
        first_missing_bound(probes.drop_first(), positive, negative)
    }
}

/// The measured ranges of a sensed joint group from the stop positions of
/// its positive and negative sweeps, in probe order; fails at the first
/// probe without a stop in either sweep.
pub fn assemble_measurements(
    probes: &[JointProbe],
    positive: &BTreeMap<u8, u16>,
    negative: &BTreeMap<u8, u16>,
) -> (result: Result<Vec<ServoRangeMeasurement>, MissingBound>)
    ensures
        all_bounds_found(probes@, positive@, negative@) ==> (result matches Ok(ms) && ms@.len() == probes@.len()
            && forall|i: int| 0 <= i < probes@.len() ==> measures(#[trigger] ms@[i], probes@[i],
                positive@[probes@[i].servo_id], negative@[probes@[i].servo_id])),
        !all_bounds_found(probes@, positive@, negative@) ==> result == Err::<Vec<ServoRangeMeasurement>, MissingBound>(
            first_missing_bound(probes@, positive@, negative@)),
{
    let mut measurements: Vec<ServoRangeMeasurement> = Vec::new();
    let mut i: usize = 0;
    proof {
        assert(probes@.subrange(0, probes@.len() as int) =~= probes@);
    }
    while i < probes.len()
        invariant
            i <= probes@.len(),
            measurements@.len() == i,
            forall|j: int| 0 <= j < i ==> positive@.contains_key(#[trigger] probes@[j].servo_id) && negative@.contains_key(probes@[j].servo_id),
            forall|j: int| 0 <= j < i ==> measures(#[trigger] measurements@[j], probes@[j],
                positive@[probes@[j].servo_id], negative@[probes@[j].servo_id]),
            first_missing_bound(probes@, positive@, negative@) == first_missing_bound(probes@.subrange(i as int, probes@.len() as int), positive@, negative@),
        decreases probes@.len() - i,
    {
        let probe = &probes[i];
        let ghost rest = probes@.subrange(i as int, probes@.len() as int);
        proof {
            assert(rest[0] == probes@[i as int]);
            assert(rest.drop_first() =~= probes@.subrange(i + 1, probes@.len() as int));
        }
        let positive_end = match positive.get(&probe.servo_id) {
            Some(t) => *t,
            None => {
                proof {
                    assert(!all_bounds_found(probes@, positive@, negative@));
                }
                return Err(MissingBound { servo_id: probe.servo_id, positive: true });
            },
        };
        let negative_end = match negative.get(&probe.servo_id) {
            Some(t) => *t,
            None => {
                proof {
                    assert(!all_bounds_found(probes@, positive@, negative@));
                }
                return Err(MissingBound { servo_id: probe.servo_id, positive: false });
            },
        };
        measurements.push(ServoRangeMeasurement {
            leg_name: probe.leg_name.clone(),
            joint: probe.joint,
            servo_id: probe.servo_id,
            positive_end_ticks: positive_end,
            negative_end_ticks: negative_end,
        });
        i = i + 1;
    }
    Ok(measurements)
}

/// The index of the last measurement taken on the leg called `name`.
pub open spec fn spec_last_measured(measurements: Seq<ServoRangeMeasurement>, name: Seq<char>) -> Option<int>
    decreases measurements.len(),
{
    if measurements.len() == 0 {
        None
    } else if measurements.last().leg_name@ == name {
        Some(measurements.len() - 1)
    } else {
        spec_last_measured(measurements.drop_last(), name)
    }
}

/// The index of the last measurement taken on the leg called `name`.
fn last_measured(measurements: &[ServoRangeMeasurement], name: &str) -> (found: Option<usize>)
    ensures
        match found {
            Some(i) => spec_last_measured(measurements@, name@) == Some(i as int) && i < measurements@.len(),
            None => spec_last_measured(measurements@, name@) is None,
        },
{
    let mut i: usize = measurements.len();
    proof {
        assert(measurements@.subrange(0, measurements@.len() as int) =~= measurements@);
    }
    while i > 0
        invariant
            i <= measurements@.len(),
            spec_last_measured(measurements@, name@) == spec_last_measured(measurements@.subrange(0, i as int), name@),
        decreases i,
    {
        proof {
            assert(measurements@.subrange(0, i as int).drop_last() =~= measurements@.subrange(0, i - 1));
            assert(measurements@.subrange(0, i as int).last() == measurements@[i - 1]);
        }
        if str_eq(measurements[i - 1].leg_name.as_str(), name) {
            return Some(i - 1);
        }
        i = i - 1;
    }
    None
}

/// The report entry of one joint of a leg: present when some measurement was
/// taken on that leg, then built from the last such measurement.
pub open spec fn reports_joint(
    entry: Option<JointRangeMeasurement>,
    measurements: Seq<ServoRangeMeasurement>,
    leg: LegConfig,
) -> bool {
    match spec_last_measured(measurements, leg.name@) {
        None => entry is None,
        Some(i) => entry matches Some(r) && {
            let m = measurements[i];
            &&& r.joint@ == crate::calibrate::joint_name(m.joint)
            &&& r.logical_positive_label@ == crate::calibrate::positive_direction_label(m.joint)
            &&& r.servo_id == spec_servo_id_for_joint(leg, m.joint)
            &&& r.logical_negative_end_ticks == m.negative_end_ticks
            &&& r.logical_positive_end_ticks == m.positive_end_ticks
        },
    }
}

/// The range report entry of one leg from the measurements of the three
/// joint groups; each joint is reported from the last measurement taken on a
/// leg of that name.
pub fn leg_range_report(
    leg: &LegConfig,
    tibias: &[ServoRangeMeasurement],
    femurs: &[ServoRangeMeasurement],
    coxae: &[ServoRangeMeasurement],
) -> (report: LegRangeReport)
    ensures
        report.name@ == leg.name@,
        reports_joint(report.coxa, coxae@, *leg),
        reports_joint(report.femur, femurs@, *leg),
        reports_joint(report.tibia, tibias@, *leg),
{
    let coxa = match last_measured(coxae, leg.name.as_str()) {
        Some(i) => Some(measurement_report(leg, &coxae[i])),
        None => None,
    };
    let femur = match last_measured(femurs, leg.name.as_str()) {
        Some(i) => Some(measurement_report(leg, &femurs[i])),
        None => None,
    };
    let tibia = match last_measured(tibias, leg.name.as_str()) {
        Some(i) => Some(measurement_report(leg, &tibias[i])),
        None => None,
    };
    LegRangeReport { name: leg.name.clone(), coxa, femur, tibia }
}

} // verus!

verus! {

/// Where a range scan stands: the action handed out last.
#[derive(Clone, Copy, Debug, PartialEq, Eq, Structural)]
pub enum ScanPhase {
    /// Nothing has been done yet.
    Start,
    /// The EEPROM profile was validated.
    Validated,
    /// Torque was switched off.
    TorqueDisabled,
    /// Torque was switched on at the current position.
    TorqueEnabled,
    /// The default torque limits were set.
    LimitsSet,
    /// The robot moved into the lay-down pose.
    LaidDown,
    /// The current pose was read.
    PoseRead,
    TibiaSensed,
    TibiaRaised,
    FemurSensed,
    FemurCentered,
    TibiaCentered,
    CoxaSensed,
    /// The range report was written.
    ReportWritten,
    /// The torque limits were restored after the scan.
    LimitsRestored { scan_ok: bool },
    /// The robot was sent back to the lay-down pose.
    ReturnedLayDown { scan_ok: bool },
    /// Finished; `ok` tells whether the scan succeeded.
    Done { ok: bool },
}

/// What the worker does next in a range scan.
#[derive(Clone, Copy, Debug, PartialEq, Eq, Structural)]
pub enum ScanAction {
    /// Check the servos' EEPROM values against the configured profile.
    ValidateProfile,
    /// Switch torque off on every servo.
    DisableTorque,
    /// Switch torque on again, holding the current position.
    EnableTorqueAtCurrentPose,
    /// Set the default torque limit on every servo.
    SetDefaultTorqueLimits,
    /// Move into the configured lay-down pose.
    MoveToLayDown,
    /// Read the current pose of every servo.
    ReadPose,
    /// Sense the range of one joint group with both sweeps.
    SenseGroup { joint: JointKind },
    /// Place one sensed joint group at a fraction (per mille) of its range.
    PlaceGroup { joint: JointKind, ratio_permille: u16 },
    /// Write the range report.
    WriteReport,
    /// Restore the default torque limits (failures are only logged).
    RestoreTorqueLimits,
    /// Move back into the lay-down pose (failures are only logged).
    ReturnToLayDown,
    /// Report the outcome.
    Finish { ok: bool },
}

/// The start of the cleanup after the scan part, with the scan's outcome.
pub open spec fn spec_scan_cleanup(scan_ok: bool) -> (ScanPhase, ScanAction) {
    (ScanPhase::LimitsRestored { scan_ok }, ScanAction::RestoreTorqueLimits)
}

/// The next step of a range scan after the action of `phase` gave
/// `last_ok`. The EEPROM profile is validated before anything else; a
/// failed validation or setup step (torque off, torque on at the current
/// position, default limits) finishes with an error at once. The scan then
/// moves to lay-down (unless skipped), reads the pose, senses the tibias,
/// places them at 700‰, senses the femurs, places femurs and tibias at 500‰,
/// senses the coxae and writes the report; any failure there goes straight
/// to the cleanup. The cleanup restores the torque limits and returns to
/// lay-down whatever happened (its own failures are ignored) and finishes
/// with the scan's outcome.
pub open spec fn spec_range_scan_step(phase: ScanPhase, skip_lay_down: bool, last_ok: bool) -> (ScanPhase, ScanAction) {
    match phase {
        ScanPhase::Start => (ScanPhase::Validated, ScanAction::ValidateProfile),
        ScanPhase::Validated => if last_ok {
            (ScanPhase::TorqueDisabled, ScanAction::DisableTorque)
        } else {
            (ScanPhase::Done { ok: false }, ScanAction::Finish { ok: false })
        },
        ScanPhase::TorqueDisabled => if last_ok {
            (ScanPhase::TorqueEnabled, ScanAction::EnableTorqueAtCurrentPose)
        } else {
            (ScanPhase::Done { ok: false }, ScanAction::Finish { ok: false })
        },
        ScanPhase::TorqueEnabled => if last_ok {
            (ScanPhase::LimitsSet, ScanAction::SetDefaultTorqueLimits)
        } else {
            (ScanPhase::Done { ok: false }, ScanAction::Finish { ok: false })
        },
        ScanPhase::LimitsSet => if !last_ok {
            (ScanPhase::Done { ok: false }, ScanAction::Finish { ok: false })
        } else if skip_lay_down {
            (ScanPhase::PoseRead, ScanAction::ReadPose)
        } else {
            (ScanPhase::LaidDown, ScanAction::MoveToLayDown)
        },
        ScanPhase::LimitsRestored { scan_ok } => (ScanPhase::ReturnedLayDown { scan_ok }, ScanAction::ReturnToLayDown),
        ScanPhase::ReturnedLayDown { scan_ok } => (ScanPhase::Done { ok: scan_ok }, ScanAction::Finish { ok: scan_ok }),
        ScanPhase::Done { ok } => (phase, ScanAction::Finish { ok }),
        _ => if !last_ok {
            spec_scan_cleanup(false)
        } else {
            match phase {
                ScanPhase::LaidDown => (ScanPhase::PoseRead, ScanAction::ReadPose),
                ScanPhase::PoseRead => (ScanPhase::TibiaSensed, ScanAction::SenseGroup { joint: JointKind::Tibia }),
                ScanPhase::TibiaSensed => (ScanPhase::TibiaRaised, ScanAction::PlaceGroup { joint: JointKind::Tibia, ratio_permille: 700 }),
                ScanPhase::TibiaRaised => (ScanPhase::FemurSensed, ScanAction::SenseGroup { joint: JointKind::Femur }),
                ScanPhase::FemurSensed => (ScanPhase::FemurCentered, ScanAction::PlaceGroup { joint: JointKind::Femur, ratio_permille: 500 }),
                ScanPhase::FemurCentered => (ScanPhase::TibiaCentered, ScanAction::PlaceGroup { joint: JointKind::Tibia, ratio_permille: 500 }),
                ScanPhase::TibiaCentered => (ScanPhase::CoxaSensed, ScanAction::SenseGroup { joint: JointKind::Coxa }),
                ScanPhase::CoxaSensed => (ScanPhase::ReportWritten, ScanAction::WriteReport),
                _ => spec_scan_cleanup(true),
            }
        },
    }
}

/// The action moves a servo or changes its torque.
pub open spec fn touches_servos(action: ScanAction) -> bool {
    !(action is ValidateProfile || action is WriteReport || action is Finish || action is ReadPose)
}

/// The scan has passed the validation and setup steps.
pub open spec fn past_setup(phase: ScanPhase) -> bool {
    !(phase is Start || phase is Validated || phase is TorqueDisabled || phase is TorqueEnabled || phase is LimitsSet || phase is Done)
}

/// One step of the range scan; start with `ScanPhase::Start` and feed back
/// whether the handed-out action succeeded, until `Finish`.
pub fn range_scan_step(phase: ScanPhase, skip_lay_down: bool, last_ok: bool) -> (next: (ScanPhase, ScanAction))
    ensures
        next == spec_range_scan_step(phase, skip_lay_down, last_ok),
        phase is Start ==> next.1 == ScanAction::ValidateProfile,
        touches_servos(next.1) ==> !(phase is Start) && (phase is Validated ==> last_ok),
        phase is Validated && !last_ok ==> next.1 == (ScanAction::Finish { ok: false }),
        past_setup(phase) && !(phase is LimitsRestored) && !(phase is ReturnedLayDown) && !last_ok
            ==> next == spec_scan_cleanup(false),
        phase is LimitsRestored ==> next.1 == ScanAction::ReturnToLayDown,
        phase is ReturnedLayDown ==> next.1 == (ScanAction::Finish { ok: phase->ReturnedLayDown_scan_ok }),
        next.1 is Finish ==> next.0 == (ScanPhase::Done { ok: next.1->Finish_ok }),
{
    match phase {
        ScanPhase::Start => (ScanPhase::Validated, ScanAction::ValidateProfile),
        ScanPhase::Validated => if last_ok {
            (ScanPhase::TorqueDisabled, ScanAction::DisableTorque)
        } else {
            (ScanPhase::Done { ok: false }, ScanAction::Finish { ok: false })
        },
        ScanPhase::TorqueDisabled => if last_ok {
            (ScanPhase::TorqueEnabled, ScanAction::EnableTorqueAtCurrentPose)
        } else {
            (ScanPhase::Done { ok: false }, ScanAction::Finish { ok: false })
        },
        ScanPhase::TorqueEnabled => if last_ok {
            (ScanPhase::LimitsSet, ScanAction::SetDefaultTorqueLimits)
        } else {
            (ScanPhase::Done { ok: false }, ScanAction::Finish { ok: false })
        },
        ScanPhase::LimitsSet => if !last_ok {
            (ScanPhase::Done { ok: false }, ScanAction::Finish { ok: false })
        } else if skip_lay_down {
            (ScanPhase::PoseRead, ScanAction::ReadPose)
        } else {
            (ScanPhase::LaidDown, ScanAction::MoveToLayDown)
        },
        ScanPhase::LimitsRestored { scan_ok } => (ScanPhase::ReturnedLayDown { scan_ok }, ScanAction::ReturnToLayDown),
        ScanPhase::ReturnedLayDown { scan_ok } => (ScanPhase::Done { ok: scan_ok }, ScanAction::Finish { ok: scan_ok }),
        ScanPhase::Done { ok } => (phase, ScanAction::Finish { ok }),
        _ => if !last_ok {
            (ScanPhase::LimitsRestored { scan_ok: false }, ScanAction::RestoreTorqueLimits)
        } else {
            match phase {
                ScanPhase::LaidDown => (ScanPhase::PoseRead, ScanAction::ReadPose),
                ScanPhase::PoseRead => (ScanPhase::TibiaSensed, ScanAction::SenseGroup { joint: JointKind::Tibia }),
                ScanPhase::TibiaSensed => (ScanPhase::TibiaRaised, ScanAction::PlaceGroup { joint: JointKind::Tibia, ratio_permille: 700 }),
                ScanPhase::TibiaRaised => (ScanPhase::FemurSensed, ScanAction::SenseGroup { joint: JointKind::Femur }),
                ScanPhase::FemurSensed => (ScanPhase::FemurCentered, ScanAction::PlaceGroup { joint: JointKind::Femur, ratio_permille: 500 }),
                ScanPhase::FemurCentered => (ScanPhase::TibiaCentered, ScanAction::PlaceGroup { joint: JointKind::Tibia, ratio_permille: 500 }),
                ScanPhase::TibiaCentered => (ScanPhase::CoxaSensed, ScanAction::SenseGroup { joint: JointKind::Coxa }),
                ScanPhase::CoxaSensed => (ScanPhase::ReportWritten, ScanAction::WriteReport),
                _ => (ScanPhase::LimitsRestored { scan_ok: true }, ScanAction::RestoreTorqueLimits),
            }
        },
    }
}

/// Where the sensing of one joint group stands: the action handed out last.
#[derive(Clone, Copy, Debug, PartialEq, Eq, Structural)]
pub enum GroupPhase {
    /// Nothing has been done yet.
    Start,
    /// The group's torque limit was lowered for probing.
    LimitLowered,
    /// The positive sweep ran.
    SweptPositive,
    /// The negative sweep ran.
    SweptNegative,
    /// Torque was switched off; `sweep_ok` tells whether both sweeps succeeded.
    TorqueDisabled { sweep_ok: bool },
    /// The group's torque limit was restored.
    LimitRestored { sweep_ok: bool },
    /// Torque was switched on again.
    TorqueEnabled { sweep_ok: bool },
    /// The measurements were assembled from both sweeps.
    Assembled,
    /// Finished; `ok` tells whether the group was measured.
    Done { ok: bool },
}

/// What the worker does next while sensing one joint group.
#[derive(Clone, Copy, Debug, PartialEq, Eq, Structural)]
pub enum GroupAction {
    /// Lower the group's torque limit to the probing limit.
    LowerTorqueLimit,
    /// Sweep the group toward its positive (or negative) ends until every servo stops.
    Sweep { positive: bool },
    /// Switch the group's torque off.
    DisableTorque,
    /// Restore the group's torque limit.
    RestoreTorqueLimit,
    /// Switch the group's torque on again.
    EnableTorque,
    /// Assemble the measurements from both sweeps.
    AssembleMeasurements,
    /// Report the outcome.
    Finish { ok: bool },
}

/// The next step of sensing one joint group after the action of `phase`
/// gave `last_ok`. The torque limit is lowered first; if that fails the
/// group fails at once. Then the positive sweep runs and, if it succeeded,
/// the negative one. Whatever the sweeps gave, torque is switched off, the
/// torque limit restored and torque switched on again; a failure there ends
/// the group with that failure. Only when both sweeps and the cleanup
/// succeeded are the measurements assembled, and the group's outcome is
/// that of the assembly.
pub open spec fn spec_sense_group_step(phase: GroupPhase, last_ok: bool) -> (GroupPhase, GroupAction) {
    match phase {
        GroupPhase::Start => (GroupPhase::LimitLowered, GroupAction::LowerTorqueLimit),
        GroupPhase::LimitLowered => if last_ok {
            (GroupPhase::SweptPositive, GroupAction::Sweep { positive: true })
        } else {
            (GroupPhase::Done { ok: false }, GroupAction::Finish { ok: false })
        },
        GroupPhase::SweptPositive => if last_ok {
            (GroupPhase::SweptNegative, GroupAction::Sweep { positive: false })
        } else {
            (GroupPhase::TorqueDisabled { sweep_ok: false }, GroupAction::DisableTorque)
        },
        GroupPhase::SweptNegative => (GroupPhase::TorqueDisabled { sweep_ok: last_ok }, GroupAction::DisableTorque),
        GroupPhase::TorqueDisabled { sweep_ok } => if last_ok {
            (GroupPhase::LimitRestored { sweep_ok }, GroupAction::RestoreTorqueLimit)
        } else {
            (GroupPhase::Done { ok: false }, GroupAction::Finish { ok: false })
        },
        GroupPhase::LimitRestored { sweep_ok } => if last_ok {
            (GroupPhase::TorqueEnabled { sweep_ok }, GroupAction::EnableTorque)
        } else {
            (GroupPhase::Done { ok: false }, GroupAction::Finish { ok: false })
        },
        GroupPhase::TorqueEnabled { sweep_ok } => if last_ok && sweep_ok {
            (GroupPhase::Assembled, GroupAction::AssembleMeasurements)
        } else {
            (GroupPhase::Done { ok: false }, GroupAction::Finish { ok: false })
        },
        GroupPhase::Assembled => (GroupPhase::Done { ok: last_ok }, GroupAction::Finish { ok: last_ok }),
        GroupPhase::Done { ok } => (phase, GroupAction::Finish { ok }),
    }
}

/// One step of sensing a joint group; start with `GroupPhase::Start` and
/// feed back whether the handed-out action succeeded, until `Finish`.
pub fn sense_group_step(phase: GroupPhase, last_ok: bool) -> (next: (GroupPhase, GroupAction))
    ensures
        next == spec_sense_group_step(phase, last_ok),
        (phase is SweptPositive && !last_ok) || phase is SweptNegative ==> next.1 == GroupAction::DisableTorque,
        next.1 is AssembleMeasurements ==> phase == (GroupPhase::TorqueEnabled { sweep_ok: true }) && last_ok,
        next.1 is Sweep ==> last_ok,
        next.1 is Finish ==> next.0 == (GroupPhase::Done { ok: next.1->Finish_ok }),
{
    match phase {
        GroupPhase::Start => (GroupPhase::LimitLowered, GroupAction::LowerTorqueLimit),
        GroupPhase::LimitLowered => if last_ok {
            (GroupPhase::SweptPositive, GroupAction::Sweep { positive: true })
        } else {
            (GroupPhase::Done { ok: false }, GroupAction::Finish { ok: false })
        },
        GroupPhase::SweptPositive => if last_ok {
            (GroupPhase::SweptNegative, GroupAction::Sweep { positive: false })
        } else {
            (GroupPhase::TorqueDisabled { sweep_ok: false }, GroupAction::DisableTorque)
        },
        GroupPhase::SweptNegative => (GroupPhase::TorqueDisabled { sweep_ok: last_ok }, GroupAction::DisableTorque),
        GroupPhase::TorqueDisabled { sweep_ok } => if last_ok {
            (GroupPhase::LimitRestored { sweep_ok }, GroupAction::RestoreTorqueLimit)
        } else {
            (GroupPhase::Done { ok: false }, GroupAction::Finish { ok: false })
        },
        GroupPhase::LimitRestored { sweep_ok } => if last_ok {
            (GroupPhase::TorqueEnabled { sweep_ok }, GroupAction::EnableTorque)
        } else {
            (GroupPhase::Done { ok: false }, GroupAction::Finish { ok: false })
        },
        GroupPhase::TorqueEnabled { sweep_ok } => if last_ok && sweep_ok {
            (GroupPhase::Assembled, GroupAction::AssembleMeasurements)
        } else {
            (GroupPhase::Done { ok: false }, GroupAction::Finish { ok: false })
        },
        GroupPhase::Assembled => (GroupPhase::Done { ok: last_ok }, GroupAction::Finish { ok: last_ok }),
        GroupPhase::Done { ok } => (phase, GroupAction::Finish { ok }),
    }
}

} // verus!
