//! Settings of the server command.
use vstd::prelude::*;
use vstd::string::StringSliceAdditionalSpecFns;
use std::time::Duration;
use crate::text::{ParseIntError, parse_u64, parse_u64_spec};

verus! {

/// Names the duration that `Duration::from_millis` makes of a number of milliseconds.
pub uninterp spec fn millis_duration(ms: u64) -> Duration;

/// Calls `std::time::Duration::from_millis`. Trusted: the result is named as
/// a function of the number of milliseconds.
#[verifier::external_body]
fn duration_from_millis(ms: u64) -> (d: Duration)
    ensures
        d == millis_duration(ms),
{
    Duration::from_millis(ms)
}

/// Reads a number of milliseconds, as std's `u64::from_str` reads it, and
/// makes it a duration.
pub fn parse_duration(arg: &str) -> (r: Result<Duration, ParseIntError>)
    ensures
        r == (match parse_u64_spec(arg.spec_bytes()) {
            Ok(ms) => Ok(millis_duration(ms)),
            Err(e) => Err(e),
        }),
{
    let milliseconds = parse_u64(arg)?;
    Ok(duration_from_millis(milliseconds))
}

/// How long to wait, in seconds, before the next refresh of the Diia session
/// token: a little under two hours after a refresh that succeeded, one
/// second after one that failed.
pub fn token_refresh_delay_secs(refreshed: bool) -> (r: u64)
    ensures
        r == (if refreshed { 59 * 60 * 2 } else { 1 }),
{
    if refreshed {
        59 * 60 * 2
    } else {
        1
    }
}

} // verus!
