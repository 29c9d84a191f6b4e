//! The wall clock, as the decimal count of milliseconds since the Unix epoch.
use crate::utils::text::{decimal_digits, decimal_string, is_decimal_text};
use std::time::{Duration, SystemTime, SystemTimeError, UNIX_EPOCH};
use vstd::prelude::*;

verus! {

/// Makes `SystemTime` of std known.  Nothing is known of what it holds.
#[verifier::external_type_specification]
#[verifier::external_body]
pub struct ExSystemTime(SystemTime);

/// Makes `SystemTimeError` of std known.  Nothing is known of what it
/// holds.
#[verifier::external_type_specification]
#[verifier::external_body]
pub struct ExSystemTimeError(SystemTimeError);

/// Reads the system clock with `SystemTime::now` of std.  Nothing is assumed
/// of the instant returned.
#[verifier::external_body]
fn system_now() -> SystemTime {
    SystemTime::now()
}

/// Calls `SystemTime::duration_since` of std with `UNIX_EPOCH`.  The call
/// fails when the clock is set before the epoch; nothing is assumed of the
/// duration returned.
#[verifier::external_body]
fn since_unix_epoch(instant: &SystemTime) -> Result<Duration, SystemTimeError> {
    instant.duration_since(UNIX_EPOCH)
}

/// Calls `Duration::as_millis` of std.  Nothing is assumed of the count.
#[verifier::external_body]
fn whole_millis(elapsed: &Duration) -> u128 {
    elapsed.as_millis()
}

/// The current time in milliseconds since the Unix epoch, as a decimal
/// numeral.  `None` when the system clock is set before the epoch.
pub fn get_timestamp() -> (timestamp: Option<String>)
    ensures
        timestamp matches Some(text) ==> is_decimal_text(text@),
{
    let now = system_now();
    let reading = match since_unix_epoch(&now) {
        Ok(elapsed) => Some(whole_millis(&elapsed)),
        Err(_) => None,
    };
    timestamp_of(reading)
}

/// The timestamp that belongs to a reading of the clock: the decimal numeral
/// of the milliseconds read, and none where the clock gave no reading.
pub open spec fn timestamp_text(reading: Option<u128>) -> Option<Seq<char>> {
    match reading {
        Some(millis) => Some(decimal_digits(millis as nat)),
        None => None,
    }
}

/// Renders a reading of the clock, in milliseconds since the Unix epoch, as
/// the timestamp of a request.  A clock that gave no reading gives no
/// timestamp.
pub fn timestamp_of(reading: Option<u128>) -> (timestamp: Option<String>)
    ensures
        timestamp.deep_view() == timestamp_text(reading),
        timestamp matches Some(text) ==> is_decimal_text(text@),
{
    match reading {
        Some(millis) => Some(decimal_string(millis)),
        None => None,
    }
}

} // verus!
