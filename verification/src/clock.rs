//! The wall clock, read in microseconds.

use vstd::prelude::*;

verus! {

/// `std::time::SystemTime`, a reading of the system clock; nothing inside it
/// is looked at.
#[verifier::external_type_specification]
#[verifier::external_body]
pub struct ExSystemTime(std::time::SystemTime);

/// `std::time::SystemTimeError`, what comparing two readings yields where
/// the second is the later one; nothing inside it is looked at.
#[verifier::external_type_specification]
#[verifier::external_body]
pub struct ExSystemTimeError(std::time::SystemTimeError);

/// `SystemTime::now`: the current reading of the system clock. Nothing is
/// claimed of it.
pub assume_specification[ std::time::SystemTime::now ]() -> (t: std::time::SystemTime)
;

/// `SystemTime::duration_since` against `UNIX_EPOCH`: the time elapsed from
/// the epoch to `t`, or an error where `t` lies before the epoch. Nothing is
/// claimed of either.
#[verifier::external_body]
fn since_epoch(t: &std::time::SystemTime) -> (elapsed: Result<
    core::time::Duration,
    std::time::SystemTimeError,
>) {
    t.duration_since(std::time::UNIX_EPOCH)
}

/// `Duration::as_micros`: the whole microseconds in `d`. Nothing is claimed
/// of the number.
pub assume_specification[ core::time::Duration::as_micros ](d: &core::time::Duration) -> (m: u128)
;

/// Microseconds elapsed since the Unix epoch. A clock that reads earlier than
/// the epoch counts as zero. The number serves only to tell names apart, so
/// nothing more is said of it.
pub(crate) fn micros_since_epoch() -> u128 {
    let now = std::time::SystemTime::now();
    let reading = match since_epoch(&now) {
        Ok(elapsed) => Some(elapsed.as_micros()),
        Err(_) => None,
    };
    timestamp_from(reading)
}

/// The timestamp that a reading of the clock stands for: the microseconds it
/// shows, or zero where the clock read earlier than the epoch and shows none.
pub open spec fn timestamp_of(reading: Option<u128>) -> u128 {
    match reading {
        Some(micros) => micros,
        None => 0,
    }
}

/// The timestamp for a reading of the clock, whatever the clock showed.
pub fn timestamp_from(reading: Option<u128>) -> (micros: u128)
    ensures
        micros == timestamp_of(reading),
{
    match reading {
        Some(micros) => micros,
        None => 0,
    }
}

} // verus!
