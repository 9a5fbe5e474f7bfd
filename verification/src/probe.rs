use vstd::prelude::*;
use crate::config::{LegConfig, spec_all_servo_ids, all_servo_ids};
use crate::text::{decimal, append_decimal, decimal_string};

verus! {

/// What opening a device node reported, as plain values.
#[derive(Clone, Debug)]
pub struct DeviceOpenError {
    pub message: String,
    pub raw_os_error: Option<i32>,
    pub permission_denied: bool,
}

/// What was found at a configured device path.
#[derive(Clone, Debug)]
pub struct DeviceProbe {
    pub label: String,
    pub configured_path: String,
    pub resolved_path: Option<String>,
    pub kind: String,
    pub mode: u32,
    pub owner_uid: u32,
    pub owner_gid: u32,
    pub open_error: Option<DeviceOpenError>,
    pub hint: Option<String>,
}

/// Which of the expected leg servos answered a register read on one port.
#[derive(Clone, Debug)]
pub enum ServoIdProbe {
    Complete { expected_ids: Vec<u8>, responding_ids: Vec<u8>, missing_ids: Vec<u8> },
    Failed { expected_ids: Vec<u8>, error: String },
}

/// The probe of one configured servo bridge port.
#[derive(Clone, Debug)]
pub struct SerialBusProbe {
    pub device: DeviceProbe,
    pub leg_servo_probe: ServoIdProbe,
}

/// How many expected leg servos answered on the port of `probe`.
pub open spec fn response_count(probe: SerialBusProbe) -> nat {
    match probe.leg_servo_probe {
        ServoIdProbe::Complete { responding_ids, .. } => responding_ids@.len(),
        ServoIdProbe::Failed { .. } => 0,
    }
}

/// Port `i` is the legs port: some servos answered there, and strictly more
/// than on any other port.
pub open spec fn is_unique_best_port(probes: Seq<SerialBusProbe>, i: int) -> bool {
    &&& 0 <= i < probes.len()
    &&& response_count(probes[i]) > 0
    &&& forall|j: int|
        0 <= j < probes.len() && j != i ==> response_count(probes[j]) < response_count(probes[i])
}

fn probe_response_count(probe: &SerialBusProbe) -> (count: usize)
    ensures
        count == response_count(*probe),
{
    match &probe.leg_servo_probe {
        ServoIdProbe::Complete { responding_ids, .. } => responding_ids.len(),
        ServoIdProbe::Failed { .. } => 0,
    }
}

/// The index of the port on which strictly more expected leg servos answered
/// than on any other, or `None` when no servo answered anywhere or the best
/// count is shared by two ports.
pub fn detect_legs_port_index(serial_bus_probes: &[SerialBusProbe]) -> (result: Option<usize>)
    ensures
        match result {
            Some(i) => is_unique_best_port(serial_bus_probes@, i as int),
            None => forall|i: int| !is_unique_best_port(serial_bus_probes@, i),
        },
{
    let ghost probes = serial_bus_probes@;
    let mut best_index: Option<usize> = None;
    let mut best_count: usize = 0;
    let mut saw_tie = false;
    let mut index: usize = 0;
    while index < serial_bus_probes.len()
        invariant
            probes == serial_bus_probes@,
            index <= probes.len(),
            best_index is None ==> best_count == 0 && !saw_tie && forall|j: int|
                0 <= j < index ==> response_count(#[trigger] probes[j]) == 0,
            best_index matches Some(b) ==> {
                &&& b < index
                &&& best_count == response_count(probes[b as int])
                &&& best_count > 0
                &&& forall|j: int| 0 <= j < index ==> response_count(#[trigger] probes[j]) <= best_count
                &&& forall|j: int| 0 <= j < b ==> response_count(#[trigger] probes[j]) < best_count
                &&& saw_tie <==> exists|j: int|
                    b < j < index && response_count(#[trigger] probes[j]) == best_count
            },
        decreases probes.len() - index,
    {
        let response_count = probe_response_count(&serial_bus_probes[index]);
        if response_count > 0 {
            if response_count > best_count {
                best_index = Some(index);
                best_count = response_count;
                saw_tie = false;
            } else if response_count == best_count {
                saw_tie = true;
            }
        }
        index = index + 1;
    }
    if saw_tie {
        proof {
            let b = best_index->0 as int;
            let j = choose|j: int| b < j < probes.len() && response_count(#[trigger] probes[j]) == best_count;
            assert forall|i: int| !is_unique_best_port(probes, i) by {
                if is_unique_best_port(probes, i) {
                    if i != b {
                        assert(response_count(probes[b]) < response_count(probes[i]));
                    } else {
                        assert(response_count(probes[j]) < response_count(probes[i]));
                    }
                }
            }
        }
        None
    } else {
        proof {
            if best_index is None {
                assert forall|i: int| !is_unique_best_port(probes, i) by {
                    if 0 <= i < probes.len() {
                        assert(response_count(probes[i]) == 0);
                    }
                }
            } else {
                let b = best_index->0 as int;
                assert forall|j: int| 0 <= j < probes.len() && j != b implies
                    response_count(probes[j]) < response_count(probes[b]) by {
                    if j > b && response_count(probes[j]) == best_count {
                        assert(exists|k: int| b < k < index && response_count(#[trigger] probes[k]) == best_count);
                    }
                }
            }
        }
        best_index
    }
}

/// The text shown for an empty list of servo ids.
pub open spec fn none_marker() -> Seq<char> {
    seq!['<', 'n', 'o', 'n', 'e', '>']
}

/// The separator between listed servo ids.
pub open spec fn list_separator() -> Seq<char> {
    seq![',', ' ']
}

/// The decimal ids of a non-empty list joined by `", "`.
pub open spec fn joined_decimal_ids(ids: Seq<u8>) -> Seq<char>
    decreases ids.len(),
{
    if ids.len() <= 1 {
        if ids.len() == 1 { decimal(ids[0] as nat) } else { Seq::empty() }
    } else {
        joined_decimal_ids(ids.drop_last()) + list_separator() + decimal(ids.last() as nat)
    }
}

/// How a list of servo ids is shown: `<none>` when empty, otherwise the
/// decimal ids separated by `", "`.
pub open spec fn spec_format_servo_ids(ids: Seq<u8>) -> Seq<char> {
    if ids.len() == 0 { none_marker() } else { joined_decimal_ids(ids) }
}

/// Formats servo ids for the console report: `<none>` for an empty list,
/// otherwise the decimal ids separated by `", "`.
pub fn format_servo_ids(ids: &[u8]) -> (text: String)
    ensures
        text@ == spec_format_servo_ids(ids@),
{
    if ids.len() == 0 {
        let mut text = String::new();
        text.append("<none>");
        proof {
            reveal_strlit("<none>");
            assert(text@ =~= none_marker());
        }
        return text;
    }
    let mut text = decimal_string(ids[0] as u64);
    let mut i: usize = 1;
    proof {
        assert(ids@.subrange(0, 1).drop_last().len() == 0);
        assert(joined_decimal_ids(ids@.subrange(0, 1)) == decimal(ids@.subrange(0, 1)[0] as nat));
    }
    while i < ids.len()
        invariant
            1 <= i <= ids@.len(),
            text@ == joined_decimal_ids(ids@.subrange(0, i as int)),
        decreases ids@.len() - i,
    {
        text.append(", ");
        append_decimal(&mut text, ids[i] as u64);
        proof {
            reveal_strlit(", ");
            let next = ids@.subrange(0, i + 1);
            assert(next.drop_last() =~= ids@.subrange(0, i as int));
            assert(next.last() == ids@[i as int]);
        }
        i = i + 1;
    }
    proof {
        assert(ids@.subrange(0, ids@.len() as int) =~= ids@);
    }
    text
}

/// Whether `id` occurs in `ids`.
fn contains_id(ids: &[u8], id: u8) -> (found: bool)
    ensures
        found == ids@.contains(id),
{
    let mut i: usize = 0;
    while i < ids.len()
        invariant
            i <= ids@.len(),
            forall|j: int| 0 <= j < i ==> ids@[j] != id,
        decreases ids@.len() - i,
    {
        if ids[i] == id {
            return true;
        }
        i = i + 1;
    }
    false
}

/// The distinct servo ids of the legs in increasing order.
pub fn expected_leg_servo_ids(legs: &[LegConfig]) -> (ids: Vec<u8>)
    requires
        legs@.len() * 3 <= usize::MAX,
    ensures
        forall|i: int, j: int| 0 <= i < j < ids@.len() ==> ids@[i] < ids@[j],
        forall|id: u8| ids@.contains(id) <==> spec_all_servo_ids(legs@).contains(id),
{
    let all = all_servo_ids(legs);
    let mut ids: Vec<u8> = Vec::new();
    let mut candidate: u16 = 0;
    while candidate < 256
        invariant
            candidate <= 256,
            all@ == spec_all_servo_ids(legs@),
            forall|i: int, j: int| 0 <= i < j < ids@.len() ==> ids@[i] < ids@[j],
            forall|i: int| 0 <= i < ids@.len() ==> ids@[i] < candidate,
            forall|id: u8| id < candidate ==> (ids@.contains(id) <==> all@.contains(id)),
        decreases 256 - candidate,
    {
        let id = candidate as u8;
        let ghost old_ids = ids@;
        let present = contains_id(all.as_slice(), id);
        if present {
            ids.push(id);
        }
        proof {
            assert forall|x: u8| x < candidate + 1 implies (ids@.contains(x) <==> all@.contains(x)) by {
                if x == id {
                    if present {
                        assert(ids@[ids@.len() - 1] == x);
                    } else {
                        assert(ids@ == old_ids);
                        if ids@.contains(x) {
                            let k = choose|k: int| 0 <= k < ids@.len() && ids@[k] == x;
                            assert(ids@[k] < candidate);
                        }
                    }
                } else {
                    if ids@.contains(x) {
                        let k = choose|k: int| 0 <= k < ids@.len() && ids@[k] == x;
                        assert(k < old_ids.len());
                        assert(old_ids[k] == x);
                    }
                    if old_ids.contains(x) {
                        let k = choose|k: int| 0 <= k < old_ids.len() && old_ids[k] == x;
                        assert(ids@[k] == x);
                    }
                }
            }
        }
        candidate = candidate + 1;
    }
    ids
}

/// The label of the `index`-th configured servo bridge port.
pub open spec fn spec_serial_bus_label(index: nat) -> Seq<char> {
    if index == 0 {
        "servo bridge (configured legs port)"@
    } else {
        "servo bridge (configured auxiliary port #"@ + decimal(index) + ")"@
    }
}

/// The label under which the `index`-th configured servo bridge port is
/// reported: the first configured port is the legs port, the rest are
/// auxiliary.
pub fn serial_bus_label(index: usize) -> (label: String)
    ensures
        label@ == spec_serial_bus_label(index as nat),
{
    let mut label = String::new();
    if index == 0 {
        label.append("servo bridge (configured legs port)");
    } else {
        label.append("servo bridge (configured auxiliary port #");
        append_decimal(&mut label, index as u64);
        label.append(")");
    }
    label
}

/// The split of the expected servo ids into those that answered and those
/// that did not, keeping their order.
pub open spec fn responding_part(expected: Seq<u8>, replied: Seq<bool>) -> Seq<u8>
    decreases expected.len(),
{
    if expected.len() == 0 {
        Seq::empty()
    } else if replied[expected.len() - 1] {
        responding_part(expected.drop_last(), replied).push(expected.last())
    } else {
        responding_part(expected.drop_last(), replied)
    }
}

/// The expected servo ids that did not answer, in order.
pub open spec fn missing_part(expected: Seq<u8>, replied: Seq<bool>) -> Seq<u8>
    decreases expected.len(),
{
    if expected.len() == 0 {
        Seq::empty()
    } else if !replied[expected.len() - 1] {
        missing_part(expected.drop_last(), replied).push(expected.last())
    } else {
        missing_part(expected.drop_last(), replied)
    }
}

/// The completed probe of a port on which the `i`-th expected servo answered
/// exactly when `replied[i]` holds.
pub fn servo_id_probe_from_replies(expected_ids: &[u8], replied: &[bool]) -> (probe: ServoIdProbe)
    requires
        replied@.len() == expected_ids@.len(),
    ensures
        probe matches ServoIdProbe::Complete { expected_ids: e, responding_ids: r, missing_ids: m } && {
            &&& e@ == expected_ids@
            &&& r@ == responding_part(expected_ids@, replied@)
            &&& m@ == missing_part(expected_ids@, replied@)
        },
{
    let mut responding_ids: Vec<u8> = Vec::new();
    let mut missing_ids: Vec<u8> = Vec::new();
    let mut i: usize = 0;
    while i < expected_ids.len()
        invariant
            i <= expected_ids@.len(),
            replied@.len() == expected_ids@.len(),
            responding_ids@ == responding_part(expected_ids@.subrange(0, i as int), replied@),
            missing_ids@ == missing_part(expected_ids@.subrange(0, i as int), replied@),
        decreases expected_ids@.len() - i,
    {
        if replied[i] {
            responding_ids.push(expected_ids[i]);
        } else {
            missing_ids.push(expected_ids[i]);
        }
        proof {
            assert(expected_ids@.subrange(0, i + 1).drop_last() =~= expected_ids@.subrange(0, i as int));
        }
        i = i + 1;
    }
    proof {
        assert(expected_ids@.subrange(0, expected_ids@.len() as int) =~= expected_ids@);
    }
    let mut expected: Vec<u8> = Vec::new();
    expected.extend_from_slice(expected_ids);
    ServoIdProbe::Complete { expected_ids: expected, responding_ids, missing_ids }
}

} // verus!
