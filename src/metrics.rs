//! What the run's metrics are made of: the time of completion and the
//! outcome label.

use vstd::prelude::*;

verus! {

#[verifier::external_type_specification]
#[verifier::external_body]
pub struct ExSystemTime(std::time::SystemTime);

#[verifier::external_type_specification]
#[verifier::external_body]
pub struct ExSystemTimeError(std::time::SystemTimeError);

/// Relies on `SystemTime::now`: the current reading of the system clock,
/// of which nothing can be promised.
pub assume_specification[ std::time::SystemTime::now ]() -> std::time::SystemTime;

/// Relies on `SystemTime::duration_since`: the time elapsed since `earlier`,
/// or an error when the clock reads earlier than it.
pub assume_specification[ std::time::SystemTime::duration_since ](
    this: &std::time::SystemTime,
    earlier: std::time::SystemTime,
) -> Result<core::time::Duration, std::time::SystemTimeError>;

/// Relies on `Duration::as_secs`: the whole seconds of a duration.
pub assume_specification[ core::time::Duration::as_secs ](d: &core::time::Duration) -> u64;

/// Relies on `std::time::UNIX_EPOCH`: the clock reading of the Unix epoch.
#[verifier::external_body]
fn unix_epoch() -> std::time::SystemTime {
    std::time::UNIX_EPOCH
}

/// Relies on `Duration::subsec_nanos`: the nanoseconds beyond the whole
/// seconds, which the documentation gives as always under one billion.
pub assume_specification[ core::time::Duration::subsec_nanos ](d: &core::time::Duration) -> (r: u32)
    ensures
        r < 1_000_000_000,
;

/// Nanoseconds in one second.
pub const NANOS_PER_SEC: u32 = 1_000_000_000;

/// The time from the Unix epoch to the clock reading `now`, as whole seconds
/// and the nanoseconds beyond them, or `Err` when `now` is earlier than the
/// epoch.
fn since_epoch(now: &std::time::SystemTime) -> (r: Result<(u64, u32), ()>)
    ensures
        r matches Ok((_, nanos)) ==> nanos < NANOS_PER_SEC,
{
    match now.duration_since(unix_epoch()) {
        Ok(d) => Ok((d.as_secs(), d.subsec_nanos())),
        Err(_) => Err(()),
    }
}

/// The whole seconds of a reading taken against the epoch; none for a
/// reading before it.
pub open spec fn seconds_of(since: Result<(u64, u32), ()>) -> Option<u64> {
    match since {
        Ok((secs, _)) => Some(secs),
        Err(_) => None,
    }
}

/// A reading since the epoch in nanoseconds.
pub open spec fn nanos_of(since: (u64, u32)) -> int {
    since.0 * NANOS_PER_SEC + since.1
}

/// Seconds since the Unix epoch of a clock reading given as the time from the
/// epoch (`Ok((seconds, nanoseconds))`) or as `Err` for a reading before the
/// epoch: the whole seconds, rounded down, and `None` exactly for a reading
/// before the epoch.
pub fn epoch_seconds(since: Result<(u64, u32), ()>) -> (r: Option<u64>)
    ensures
        r == seconds_of(since),
        r is None <==> since is Err,
{
    match since {
        Ok((secs, _)) => Some(secs),
        Err(_) => None,
    }
}

/// Seconds since the Unix epoch by the system clock, or `None` when the clock
/// reads earlier than the epoch; `epoch_seconds` says what is made of the
/// reading.
pub fn cur_time_epoch_seconds() -> (r: Option<u64>) {
    epoch_seconds(since_epoch(&std::time::SystemTime::now()))
}

/// Label value that tells a successful run from a failed one.
pub fn success_label(success: bool) -> (r: &'static str)
    ensures
        r@ == (if success {
            "1"@
        } else {
            "0"@
        }),
{
    if success {
        "1"
    } else {
        "0"
    }
}

} // verus!
