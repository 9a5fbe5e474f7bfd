use vstd::prelude::*;
use std::collections::BTreeMap;
use crate::modes::BrainMode;
use crate::strings::{spec_contains, str_contains};
use crate::text::{append_decimal, decimal};

verus! {

broadcast use vstd::std_specs::btree::group_btree_axioms;

/// A servo bus error after which the serial device has to be opened again:
/// the device vanished, could not be opened, or the link broke.
pub open spec fn spec_is_reopen_error(message: Seq<char>) -> bool {
    ||| spec_contains(message, "failed to open"@)
    ||| spec_contains(message, "No such file"@)
    ||| spec_contains(message, "Input/output error"@)
    ||| spec_contains(message, "Broken pipe"@)
}

/// Whether a servo bus error message calls for reopening the bus.
pub fn is_reopen_error(message: &str) -> (reopen: bool)
    ensures
        reopen == spec_is_reopen_error(message@),
{
    str_contains(message, "failed to open") || str_contains(message, "No such file")
        || str_contains(message, "Input/output error") || str_contains(message, "Broken pipe")
}

/// Whether any of the error messages of one poll window calls for reopening
/// the bus.
pub fn should_reopen_bus(error_messages: &Vec<String>) -> (reopen: bool)
    ensures
        reopen <==> exists|i: int| 0 <= i < error_messages@.len() && spec_is_reopen_error(#[trigger] error_messages@[i]@),
{
    let mut i: usize = 0;
    while i < error_messages.len()
        invariant
            i <= error_messages@.len(),
            forall|j: int| 0 <= j < i ==> !spec_is_reopen_error(#[trigger] error_messages@[j]@),
        decreases error_messages@.len() - i,
    {
        if is_reopen_error(error_messages[i].as_str()) {
            return true;
        }
        i = i + 1;
    }
    false
}

/// How many servos one control tick reads back.
pub open spec fn spec_read_budget(
    record_frame: bool,
    mode: BrainMode,
    armed: bool,
    telemetry_stride: usize,
    servo_count: usize,
) -> int {
    if record_frame || mode == BrainMode::Telemetry || !armed {
        servo_count as int
    } else if telemetry_stride < 1 {
        1
    } else if telemetry_stride > servo_count {
        servo_count as int
    } else {
        telemetry_stride as int
    }
}

/// The number of servos read in one control tick: all of them while a
/// trajectory frame is recorded, in telemetry mode, or before motion is
/// armed; otherwise the configured stride, kept within `1..=servo_count`.
pub fn read_budget(
    record_frame: bool,
    mode: BrainMode,
    armed: bool,
    telemetry_stride: usize,
    servo_count: usize,
) -> (budget: usize)
    requires
        record_frame || mode == BrainMode::Telemetry || !armed || servo_count >= 1,
    ensures
        budget == spec_read_budget(record_frame, mode, armed, telemetry_stride, servo_count),
{
    let telemetry = match mode {
        BrainMode::Telemetry => true,
        _ => false,
    };
    if record_frame || telemetry || !armed {
        servo_count
    } else if telemetry_stride < 1 {
        1
    } else if telemetry_stride > servo_count {
        servo_count
    } else {
        telemetry_stride
    }
}

/// The number of reads a poll window makes: the budget, but at least one.
pub open spec fn window_len(read_budget: usize) -> int {
    if read_budget < 1 { 1 } else { read_budget as int }
}

/// The servos one poll window reads, in order, and the cursor after it. The
/// window walks round-robin through `servo_ids` from `cursor`, so that
/// successive windows cover every servo in turn.
pub fn poll_window(servo_ids: &[u8], cursor: usize, read_budget: usize) -> (result: (Vec<u8>, usize))
    requires
        servo_ids@.len() > 0,
    ensures
        result.0@.len() == window_len(read_budget),
        forall|k: int| 0 <= k < result.0@.len() ==> #[trigger] result.0@[k] == servo_ids@[(cursor + k) % (servo_ids@.len() as int)],
        result.1 == (cursor + window_len(read_budget)) % (servo_ids@.len() as int),
{
    let len = servo_ids.len();
    let count: usize = if read_budget < 1 { 1 } else { read_budget };
    let mut ids: Vec<u8> = Vec::new();
    let mut position: usize = cursor;
    let mut k: usize = 0;
    while k < count
        invariant
            len == servo_ids@.len(),
            len > 0,
            count == window_len(read_budget),
            k <= count,
            ids@.len() == k,
            (position as int) % (len as int) == (cursor + k) % (len as int),
            k > 0 ==> position < len,
            k == 0 ==> position == cursor,
            forall|j: int| 0 <= j < k ==> #[trigger] ids@[j] == servo_ids@[(cursor + j) % (len as int)],
        decreases count - k,
    {
        ids.push(servo_ids[position % len]);
        let next = (position % len + 1) % len;
        proof {
            vstd::arithmetic::div_mod::lemma_add_mod_noop(position as int, 1, len as int);
            vstd::arithmetic::div_mod::lemma_add_mod_noop(cursor + k, 1, len as int);
            vstd::arithmetic::div_mod::lemma_mod_twice(position as int, len as int);
            if len == 1 {
                assert(1int % 1 == 0);
            } else {
                vstd::arithmetic::div_mod::lemma_small_mod(1, len as nat);
            }
            vstd::arithmetic::div_mod::lemma_mod_bound(next as int, len as int);
            vstd::arithmetic::div_mod::lemma_mod_twice(position as int + 1, len as int);
            assert((next as int) % (len as int) == next) by {
                vstd::arithmetic::div_mod::lemma_mod_twice(position as int % (len as int) + 1, len as int);
            }
        }
        position = next;
        k = k + 1;
    }
    proof {
        if count > 0 {
            vstd::arithmetic::div_mod::lemma_small_mod(position as nat, len as nat);
        }
    }
    (ids, position)
}

/// A window as long as the servo list reads every servo, whatever the
/// cursor: round-robin polling leaves no servo out.
pub proof fn lemma_full_window_covers_every_servo(servo_count: int, cursor: int, index: int)
    requires
        servo_count > 0,
        cursor >= 0,
        0 <= index < servo_count,
    ensures
        exists|k: int| 0 <= k < servo_count && #[trigger] ((cursor + k) % servo_count) == index,
{
    let n = servo_count;
    let c = cursor % n;
    vstd::arithmetic::div_mod::lemma_mod_bound(cursor, n);
    let m = index - c + n;
    let k = m % n;
    vstd::arithmetic::div_mod::lemma_mod_bound(m, n);
    assert((cursor + k) % n == (c + k % n) % n) by {
        vstd::arithmetic::div_mod::lemma_add_mod_noop(cursor, k, n);
    }
    assert(k % n == k) by {
        vstd::arithmetic::div_mod::lemma_mod_twice(m, n);
    }
    assert(c % n == c) by {
        vstd::arithmetic::div_mod::lemma_small_mod(c as nat, n as nat);
    }
    assert((c + k) % n == (c + m) % n) by {
        vstd::arithmetic::div_mod::lemma_add_mod_noop(c, m, n);
    }
    assert(c + m == index + n);
    assert((index + n) % n == index % n) by {
        vstd::arithmetic::div_mod::lemma_mod_add_multiples_vanish(index, n);
    }
    assert(index % n == index) by {
        vstd::arithmetic::div_mod::lemma_small_mod(index as nat, n as nat);
    }
    assert(((cursor + k) % n) == index);
}

/// Every servo of `servo_ids` has a known position in `positions`.
pub open spec fn has_full_feedback(servo_ids: Seq<u8>, positions: Map<u8, Option<u16>>) -> bool {
    forall|i: int| 0 <= i < servo_ids.len() ==> #[trigger] positions.contains_key(servo_ids[i]) && positions[servo_ids[i]] is Some
}

/// The measured pose of `servo_ids`: present only when every one of them
/// reported a position, and then mapping each of them to that position.
pub fn current_pose(servo_ids: &[u8], positions: &BTreeMap<u8, Option<u16>>) -> (pose: Option<BTreeMap<u8, u16>>)
    ensures
        pose is Some <==> has_full_feedback(servo_ids@, positions@),
        pose matches Some(p) ==> {
            &&& p@.dom() == servo_ids@.to_set()
            &&& forall|id: u8| #[trigger] p@.contains_key(id) ==> positions@[id] == Some(p@[id])
        },
{
    let mut pose: BTreeMap<u8, u16> = BTreeMap::new();
    let mut i: usize = 0;
    while i < servo_ids.len()
        invariant
            i <= servo_ids@.len(),
            has_full_feedback(servo_ids@.subrange(0, i as int), positions@),
            pose@.dom() == servo_ids@.subrange(0, i as int).to_set(),
            forall|id: u8| #[trigger] pose@.contains_key(id) ==> positions@[id] == Some(pose@[id]),
        decreases servo_ids@.len() - i,
    {
        let id = servo_ids[i];
        match positions.get(&id) {
            Some(Some(ticks)) => {
                pose.insert(id, *ticks);
                proof {
                    let prefix = servo_ids@.subrange(0, i as int);
                    let next = servo_ids@.subrange(0, i + 1);
                    assert(next =~= prefix.push(id));
                    assert(next.to_set() =~= prefix.to_set().insert(id)) by {
                        prefix.lemma_push_to_set_commute(id);
                    }
                    assert forall|j: int| 0 <= j < next.len() implies #[trigger] positions@.contains_key(next[j]) && positions@[next[j]] is Some by {
                        if j < i {
                            assert(next[j] == prefix[j]);
                            assert(positions@.contains_key(prefix[j]));
                        } else {
                            assert(next[j] == id);
                        }
                    }
                }
            },
            _ => {
                proof {
                    assert(servo_ids@[i as int] == id);
                    assert(!(positions@.contains_key(servo_ids@[i as int]) && positions@[servo_ids@[i as int]] is Some));
                }
                return None;
            },
        }
        i = i + 1;
    }
    proof {
        assert(servo_ids@.subrange(0, servo_ids@.len() as int) =~= servo_ids@);
    }
    Some(pose)
}

/// What the control loop holds about one servo bus: whether the device is
/// open and whether torque is known to be switched on.
#[derive(Clone, Copy, Debug, PartialEq, Eq, Structural)]
pub struct BusLink {
    pub open: bool,
    pub torque_enabled: bool,
}

/// The next thing the control loop does with a bus.
#[derive(Clone, Copy, Debug, PartialEq, Eq, Structural)]
pub enum LinkAction {
    /// Try to open the serial device.
    OpenBus,
    /// Switch servo torque on.
    EnableTorque,
    /// Read servo feedback and send commands.
    Poll,
}

/// What happened when the control loop used a bus.
#[derive(Clone, Copy, Debug, PartialEq, Eq, Structural)]
pub enum LinkEvent {
    Opened,
    OpenFailed,
    TorqueEnabled,
    TorqueEnableFailed,
    /// A read, a write or a maintenance action failed in a way that needs the
    /// device to be opened again.
    LinkLost,
}

impl BusLink {
    /// Torque is only ever on while the bus is open.
    pub open spec fn well_formed(self) -> bool {
        self.torque_enabled ==> self.open
    }

    /// The state of a bus that has not been opened yet.
    pub fn closed() -> (link: BusLink)
        ensures
            !link.open,
            !link.torque_enabled,
            link.well_formed(),
    {
        BusLink { open: false, torque_enabled: false }
    }

    /// The next step with this bus: open it, then switch torque on when the
    /// mode wants torque, then poll.
    pub open spec fn spec_next_action(self, wants_torque: bool) -> LinkAction {
        if !self.open {
            LinkAction::OpenBus
        } else if wants_torque && !self.torque_enabled {
            LinkAction::EnableTorque
        } else {
            LinkAction::Poll
        }
    }

    /// The next step with this bus: open it, then switch torque on when the
    /// mode wants torque, then poll.
    pub fn next_action(self, wants_torque: bool) -> (action: LinkAction)
        ensures
            action == self.spec_next_action(wants_torque),
    {
        if !self.open {
            LinkAction::OpenBus
        } else if wants_torque && !self.torque_enabled {
            LinkAction::EnableTorque
        } else {
            LinkAction::Poll
        }
    }

    /// The bus state after `event`: a freshly opened bus has torque off; a
    /// failed open, a failed torque switch or a lost link closes the bus.
    pub fn after(self, event: LinkEvent) -> (next: BusLink)
        requires
            event == LinkEvent::TorqueEnabled ==> self.open,
        ensures
            next.well_formed(),
            event == LinkEvent::Opened ==> next.open && !next.torque_enabled,
            event == LinkEvent::TorqueEnabled ==> next.open && next.torque_enabled,
            event == LinkEvent::OpenFailed ==> !next.open && !next.torque_enabled,
            event == LinkEvent::TorqueEnableFailed ==> !next.open && !next.torque_enabled,
            event == LinkEvent::LinkLost ==> !next.open && !next.torque_enabled,
    {
        match event {
            LinkEvent::Opened => BusLink { open: true, torque_enabled: false },
            LinkEvent::TorqueEnabled => BusLink { open: true, torque_enabled: true },
            _ => BusLink { open: false, torque_enabled: false },
        }
    }

    /// The link after dropping torque that is no longer wanted, and whether a
    /// torque-off command has to be sent to the open bus.
    pub open spec fn spec_release_torque(self, wants_torque: bool) -> (BusLink, bool) {
        if self.torque_enabled && !wants_torque {
            (BusLink { open: self.open, torque_enabled: false }, self.open)
        } else {
            (self, false)
        }
    }

    /// Drops torque that the mode no longer wants. Returns the new state and
    /// whether a torque-off command has to be sent to the open bus.
    pub fn release_torque(self, wants_torque: bool) -> (result: (BusLink, bool))
        ensures
            result == self.spec_release_torque(wants_torque),
            self.well_formed() ==> result.0.well_formed(),
            result.0.open == self.open,
            self.torque_enabled && !wants_torque ==> !result.0.torque_enabled && result.1 == self.open,
            !(self.torque_enabled && !wants_torque) ==> result.0 == self && !result.1,
    {
        if self.torque_enabled && !wants_torque {
            (BusLink { open: self.open, torque_enabled: false }, self.open)
        } else {
            (self, false)
        }
    }
}

/// A bus is only polled once it is open and, when the mode wants torque,
/// torque is on.
pub proof fn lemma_poll_only_when_ready(link: BusLink, wants_torque: bool)
    ensures
        link.spec_next_action(wants_torque) == LinkAction::Poll ==> link.open && (wants_torque ==> link.torque_enabled),
{
}

/// The arm servos are driven only in manual mode.
pub open spec fn spec_arm_bus_wants_torque(mode: BrainMode) -> bool {
    mode == BrainMode::Manual
}

/// Whether the arm bus should hold torque in `mode`.
pub fn arm_bus_wants_torque(mode: BrainMode) -> (wants: bool)
    ensures
        wants == spec_arm_bus_wants_torque(mode),
{
    match mode {
        BrainMode::Manual => true,
        _ => false,
    }
}

/// A servo read error after which the standalone dashboard reopens its
/// bus: the device vanished, could not be opened, or failed with an I/O
/// error.
pub open spec fn spec_is_dashboard_reopen_error(message: Seq<char>) -> bool {
    ||| spec_contains(message, "failed to open"@)
    ||| spec_contains(message, "No such file"@)
    ||| spec_contains(message, "Input/output error"@)
}

/// Whether a servo read error makes the standalone dashboard reopen its bus.
pub fn is_dashboard_reopen_error(message: &str) -> (reopen: bool)
    ensures
        reopen == spec_is_dashboard_reopen_error(message@),
{
    str_contains(message, "failed to open") || str_contains(message, "No such file")
        || str_contains(message, "Input/output error")
}

/// The label of a servo in telemetry: its configured label, else
/// `servo-<id>`.
pub open spec fn spec_servo_label(labels: Map<u8, String>, servo_id: u8) -> Seq<char> {
    if labels.contains_key(servo_id) {
        labels[servo_id]@
    } else {
        "servo-"@ + decimal(servo_id as nat)
    }
}

/// The label of a servo in telemetry.
pub fn servo_label(labels: &BTreeMap<u8, String>, servo_id: u8) -> (label: String)
    ensures
        label@ == spec_servo_label(labels@, servo_id),
{
    match labels.get(&servo_id) {
        Some(l) => l.clone(),
        None => {
            let mut label = String::new();
            label.append("servo-");
            append_decimal(&mut label, servo_id as u64);
            proof {
                assert(label@ =~= "servo-"@ + decimal(servo_id as nat));
            }
            label
        },
    }
}

/// The poll problem the standalone dashboard shows: none when every servo
/// replied, else how many did.
pub open spec fn spec_poll_error(online_count: nat, servo_count: nat) -> Option<Seq<char>> {
    if online_count == servo_count {
        None
    } else {
        Some(decimal(online_count) + " of "@ + decimal(servo_count) + " configured servos replied"@)
    }
}

/// The poll problem the standalone dashboard shows.
pub fn poll_error(online_count: usize, servo_count: usize) -> (error: Option<String>)
    ensures
        match error {
            Some(e) => spec_poll_error(online_count as nat, servo_count as nat) == Some(e@),
            None => spec_poll_error(online_count as nat, servo_count as nat) is None,
        },
{
    if online_count == servo_count {
        None
    } else {
        let mut message = String::new();
        append_decimal(&mut message, online_count as u64);
        message.append(" of ");
        append_decimal(&mut message, servo_count as u64);
        message.append(" configured servos replied");
        proof {
            assert(message@ =~= decimal(online_count as nat) + " of "@ + decimal(servo_count as nat) + " configured servos replied"@);
        }
        Some(message)
    }
}

/// The poll problem the robot runtime shows: the transport error when
/// there is one, else how many servos replied when some did not.
pub open spec fn spec_sweep_poll_error(online_count: nat, servo_count: nat, transport_error: Option<Seq<char>>) -> Option<Seq<char>> {
    match transport_error {
        Some(e) => Some(e),
        None => if online_count == servo_count {
            None
        } else {
            Some(decimal(online_count) + " of "@ + decimal(servo_count) + " configured servos replied on the latest sweep"@)
        },
    }
}

/// The poll problem the robot runtime shows.
pub fn sweep_poll_error(online_count: usize, servo_count: usize, transport_error: Option<String>) -> (error: Option<String>)
    ensures
        match error {
            Some(e) => spec_sweep_poll_error(
                online_count as nat,
                servo_count as nat,
                match transport_error {
                    Some(t) => Some(t@),
                    None => None,
                },
            ) == Some(e@),
            None => spec_sweep_poll_error(
                online_count as nat,
                servo_count as nat,
                match transport_error {
                    Some(t) => Some(t@),
                    None => None,
                },
            ) is None,
        },
{
    match transport_error {
        Some(e) => Some(e),
        None => if online_count == servo_count {
            None
        } else {
            let mut message = String::new();
            append_decimal(&mut message, online_count as u64);
            message.append(" of ");
            append_decimal(&mut message, servo_count as u64);
            message.append(" configured servos replied on the latest sweep");
            proof {
                assert(message@ =~= decimal(online_count as nat) + " of "@ + decimal(servo_count as nat)
                    + " configured servos replied on the latest sweep"@);
            }
            Some(message)
        },
    }
}

/// The motion summary and safety status shown before the control worker
/// has run.
pub open spec fn spec_initial_status(mode: BrainMode) -> (Seq<char>, Seq<char>) {
    if mode == BrainMode::Telemetry {
        ("observation only; no motion commands are being sent"@, "observation only"@)
    } else {
        ("waiting for the control worker to arm motion"@, "waiting for servo and IMU state"@)
    }
}

/// The motion summary and safety status shown before the control worker
/// has run.
pub fn initial_status(mode: BrainMode) -> (status: (String, String))
    ensures
        (status.0@, status.1@) == spec_initial_status(mode),
{
    let (summary, safety) = match mode {
        BrainMode::Telemetry => ("observation only; no motion commands are being sent", "observation only"),
        _ => ("waiting for the control worker to arm motion", "waiting for servo and IMU state"),
    };
    let mut s0 = String::new();
    s0.append(summary);
    let mut s1 = String::new();
    s1.append(safety);
    proof {
        assert(s0@ =~= summary@);
        assert(s1@ =~= safety@);
    }
    (s0, s1)
}

} // verus!
