//! The wall clock, in whole milliseconds.

use vstd::prelude::*;

verus! {

/// A moment on the system's wall clock.
#[verifier::external_type_specification]
#[verifier::external_body]
pub struct ExSystemTime(std::time::SystemTime);

/// The error of a duration that would be negative.
#[verifier::external_type_specification]
#[verifier::external_body]
pub struct ExSystemTimeError(std::time::SystemTimeError);

/// The whole milliseconds of a duration.
pub uninterp spec fn whole_millis(duration: std::time::Duration) -> u128;

/// Calls `std::time::SystemTime::now`. Nothing is claimed of the moment that it returns.
pub assume_specification[ std::time::SystemTime::now ]() -> (now: std::time::SystemTime)
;

/// The time from the start of the Unix epoch to a moment; none if the moment is before it.
pub uninterp spec fn elapsed_since_epoch(moment: std::time::SystemTime) -> Option<
    std::time::Duration,
>;

/// Calls `std::time::SystemTime::duration_since` with the start of the Unix epoch. The duration,
/// and whether there is one, depends on the moment alone and has a name.
#[verifier::external_body]
fn since_unix_epoch(moment: std::time::SystemTime) -> (elapsed: Result<
    std::time::Duration,
    std::time::SystemTimeError,
>)
    ensures
        elapsed is Ok <==> elapsed_since_epoch(moment) is Some,
        elapsed is Ok ==> Some(elapsed->Ok_0) == elapsed_since_epoch(moment),
{
    moment.duration_since(std::time::UNIX_EPOCH)
}

/// Calls `std::time::Duration::as_millis`, whose result has a name. A duration holds at most
/// `u64::MAX` seconds and less than one second more.
pub assume_specification[ std::time::Duration::as_millis ](duration: &std::time::Duration) -> (millis:
    u128)
    ensures
        millis == whole_millis(*duration),
        millis <= u64::MAX as u128 * 1000 + 999,
;

/// The milliseconds from the start of the Unix epoch to a moment. A clock that is set before the
/// epoch counts as standing at it.
pub open spec fn millis_at(moment: std::time::SystemTime) -> u128 {
    match elapsed_since_epoch(moment) {
        Some(duration) => whole_millis(duration),
        None => 0,
    }
}

/// The milliseconds to report for a moment that is `elapsed` after the epoch, or before it.
pub fn millis_or_epoch(elapsed: Option<u128>) -> (millis: u128)
    ensures
        millis == match elapsed {
            Some(millis) => millis,
            None => 0,
        },
{
    match elapsed {
        Some(millis) => millis,
        None => 0,
    }
}

/// The milliseconds from the start of the Unix epoch to now, by the wall clock.
///
/// Which moment the clock shows is not stated.
pub fn epoch_millis() -> (millis: u128)
    ensures
        exists|now: std::time::SystemTime| millis == #[trigger] millis_at(now),
        millis <= u64::MAX as u128 * 1000 + 999,
{
    let now = std::time::SystemTime::now();
    let elapsed: Option<u128> = match since_unix_epoch(now) {
        Ok(duration) => Some(duration.as_millis()),
        Err(_) => None,
    };
    let millis: u128 = millis_or_epoch(elapsed);
    assert(millis == millis_at(now));
    millis
}

} // verus!
