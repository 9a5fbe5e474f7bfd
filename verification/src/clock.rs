use vstd::prelude::*;
use std::time::{SystemTime, UNIX_EPOCH};

verus! {

/// The wall-clock time type of std, carried through opaquely.
#[verifier::external_type_specification]
#[verifier::external_body]
pub struct ExSystemTime(SystemTime);

/// The current wall-clock time (std's `SystemTime::now`). Nothing is stated
/// of it: it depends on the machine's clock.
#[verifier::external_body]
fn system_now() -> (now: SystemTime) {
    SystemTime::now()
}

/// How long after the Unix epoch `time` lies, as whole seconds and the
/// nanoseconds of the started second (std's `SystemTime::duration_since`
/// with `UNIX_EPOCH`, read out by `as_secs` and `subsec_nanos`); nothing for
/// a time before the epoch. Only the documented range of the nanoseconds is
/// stated.
#[verifier::external_body]
fn since_unix_epoch(time: &SystemTime) -> (elapsed: Option<(u64, u32)>)
    ensures
        elapsed matches Some((_, nanos)) ==> nanos < 1_000_000_000,
{
    match time.duration_since(UNIX_EPOCH) {
        Ok(duration) => Some((duration.as_secs(), duration.subsec_nanos())),
        Err(_) => None,
    }
}

/// The whole milliseconds of a time since the epoch, kept to their low 64
/// bits; a time before the epoch counts as zero.
pub open spec fn spec_epoch_millis(elapsed: Option<(u64, u32)>) -> int {
    match elapsed {
        Some((secs, nanos)) => (secs * 1000 + nanos / 1_000_000) % 0x1_0000_0000_0000_0000,
        None => 0,
    }
}

/// The whole milliseconds since the epoch of a time given as seconds and
/// nanoseconds, kept to their low 64 bits; zero for a time before it.
pub fn epoch_millis(elapsed: Option<(u64, u32)>) -> (millis: u64)
    ensures
        millis == spec_epoch_millis(elapsed),
{
    match elapsed {
        Some((secs, nanos)) => {
            let total: u128 = secs as u128 * 1000 + (nanos / 1_000_000) as u128;
            let low: u128 = total % 0x1_0000_0000_0000_0000;
            low as u64
        },
        None => 0,
    }
}

/// The current time in milliseconds since the Unix epoch (zero when the
/// clock reads before the epoch).
pub fn now_ms() -> (millis: u64)
    ensures
        exists|elapsed: Option<(u64, u32)>| millis == spec_epoch_millis(elapsed),
{
    let now = system_now();
    let elapsed = since_unix_epoch(&now);
    epoch_millis(elapsed)
}

} // verus!
