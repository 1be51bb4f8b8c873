//! Clock readings and spans of time (`std::time`). Readings depend on the
//! clock, so nothing is promised of their values.

use std::time::{Duration, Instant, SystemTime};
use vstd::prelude::*;

verus! {

/// A point in time of the monotonic clock.
#[verifier::external_type_specification]
#[verifier::external_body]
pub struct ExInstant(std::time::Instant);

/// A point in time of the system clock.
#[verifier::external_type_specification]
#[verifier::external_body]
pub struct ExSystemTime(std::time::SystemTime);

/// `Duration::clone`: the same span of time (`Duration` is `Copy`).
pub assume_specification[ <std::time::Duration as Clone>::clone ](d: &std::time::Duration) -> (r:
    std::time::Duration)
    ensures
        r == *d,
;

/// `Instant::now`: a reading of the monotonic clock. Nothing is promised of
/// its value.
pub assume_specification[ std::time::Instant::now ]() -> Instant;

/// `Instant::elapsed`: the time since an instant, as the clock reads it.
/// Nothing is promised of its value.
pub assume_specification[ std::time::Instant::elapsed ](since: &Instant) -> Duration;

/// `SystemTime::now`: a reading of the system clock. Nothing is promised of
/// its value.
pub assume_specification[ std::time::SystemTime::now ]() -> SystemTime;

/// The span from the UNIX epoch to a system time, or the text of the error
/// `SystemTime::duration_since` gives when the time is before the epoch.
pub uninterp spec fn time_since_epoch(t: SystemTime) -> Result<Duration, Seq<char>>;

/// `SystemTime::duration_since(UNIX_EPOCH)`; the error's text when the
/// time is before the epoch.
#[verifier::external_body]
pub(crate) fn since_unix_epoch(t: &SystemTime) -> (r: Result<Duration, String>)
    ensures
        match r {
            Ok(d) => time_since_epoch(*t) == Ok::<Duration, Seq<char>>(d),
            Err(m) => time_since_epoch(*t) == Err::<Duration, Seq<char>>(m@),
        },
{
    t.duration_since(std::time::UNIX_EPOCH).map_err(|e| format!("{}", e))
}

/// The whole length of a `Duration` in nanoseconds (`Duration::as_nanos`;
/// a `u128` holds every `Duration` exactly).
pub uninterp spec fn duration_as_nanos(d: Duration) -> u128;

/// `Duration::as_nanos`.
#[verifier::external_body]
pub(crate) fn duration_nanos(d: &Duration) -> (n: u128)
    ensures
        n == duration_as_nanos(*d),
{
    d.as_nanos()
}

/// `Duration::as_millis`: the whole milliseconds of the duration.
#[verifier::external_body]
pub(crate) fn duration_millis(d: &Duration) -> (m: u128)
    ensures
        m == duration_as_nanos(*d) / 1_000_000,
{
    d.as_millis()
}

/// `Duration::as_secs`: the whole seconds of the duration.
#[verifier::external_body]
pub(crate) fn duration_secs(d: &Duration) -> (s: u64)
    ensures
        s == duration_as_nanos(*d) / 1_000_000_000,
{
    d.as_secs()
}

/// `Duration::subsec_nanos`: the nanoseconds past the whole seconds.
#[verifier::external_body]
pub(crate) fn duration_subsec_nanos(d: &Duration) -> (n: u32)
    ensures
        n == duration_as_nanos(*d) % 1_000_000_000,
{
    d.subsec_nanos()
}

/// The `Duration` of a number of microseconds.
pub uninterp spec fn duration_of_micros(micros: u64) -> Duration;

/// `Duration::from_micros`.
#[verifier::external_body]
pub(crate) fn micros_duration(micros: u64) -> (d: Duration)
    ensures
        d == duration_of_micros(micros),
        duration_as_nanos(d) == micros * 1000,
{
    Duration::from_micros(micros)
}

/// The `Duration` of a number of seconds.
pub uninterp spec fn duration_of_secs(secs: u64) -> Duration;

/// `Duration::from_secs`.
#[verifier::external_body]
pub(crate) fn secs_duration(secs: u64) -> (d: Duration)
    ensures
        d == duration_of_secs(secs),
        duration_as_nanos(d) == secs * 1_000_000_000,
{
    Duration::from_secs(secs)
}

/// Milliseconds since the UNIX epoch of the system time `t` (truncated to
/// 64 bits), or the error's text when `t` is before the epoch.
pub open spec fn reading_millis(t: SystemTime) -> Result<u64, Seq<char>> {
    match time_since_epoch(t) {
        Ok(d) => Ok((duration_as_nanos(d) / 1_000_000) as u64),
        Err(m) => Err(m),
    }
}

/// Whether `r` is what the system time `t` gives in milliseconds since the
/// UNIX epoch (truncated to 64 bits), or the error's text when `t` is before
/// the epoch.
pub open spec fn is_epoch_millis(r: Result<u64, String>, t: SystemTime) -> bool {
    match reading_millis(t) {
        Ok(ms) => r == Ok::<u64, String>(ms),
        Err(m) => r matches Err(s) && s@ == m,
    }
}

/// Seconds since the UNIX epoch of the system time `t` (0 when it is before
/// the epoch).
pub open spec fn epoch_secs(t: SystemTime) -> i64 {
    match time_since_epoch(t) {
        Ok(d) => ((duration_as_nanos(d) / 1_000_000_000) as u64) as i64,
        Err(_) => 0,
    }
}

/// Milliseconds since the UNIX epoch, or the error text when the system
/// clock is before it, as of a reading of the system clock.
pub fn unix_time_ms() -> (r: Result<u64, String>)
    ensures
        exists|t: SystemTime|
            call_ensures(SystemTime::now, (), t) && #[trigger] is_epoch_millis(r, t),
{
    let t = SystemTime::now();
    let r = match since_unix_epoch(&t) {
        Ok(d) => Ok(duration_millis(&d) as u64),
        Err(e) => Err(e),
    };
    assert(call_ensures(SystemTime::now, (), t));
    assert(is_epoch_millis(r, t));
    r
}

/// Seconds since the UNIX epoch (0 when the system clock is before it), as
/// of a reading of the system clock.
pub fn unix_time_secs() -> (r: i64)
    ensures
        exists|t: SystemTime| call_ensures(SystemTime::now, (), t) && r == #[trigger] epoch_secs(t),
{
    let t = SystemTime::now();
    let r = match since_unix_epoch(&t) {
        Ok(d) => duration_secs(&d) as i64,
        Err(_) => 0,
    };
    assert(call_ensures(SystemTime::now, (), t));
    assert(r == epoch_secs(t));
    r
}

} // verus!
