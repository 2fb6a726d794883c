use vstd::prelude::*;

verus! {

/// Relies on `std::time::SystemTime::now` and `duration_since(UNIX_EPOCH)`:
/// the current Unix time in whole seconds, `None` when the clock reads
/// before the epoch. Neither call panics.
#[verifier::external_body]
pub(crate) fn unix_time_now() -> Option<u64> {
    std::time::SystemTime::now().duration_since(std::time::UNIX_EPOCH).ok().map(|d| d.as_secs())
}

/// The current Unix time in whole seconds, 0 when the clock reads before
/// the epoch.
pub(crate) fn unix_seconds_now() -> u64 {
    match unix_time_now() {
        Some(t) => t,
        None => 0,
    }
}

/// The current Unix time in whole seconds as a signed timestamp: 0 when
/// the clock reads before the epoch, and `i64::MAX` beyond its range.
pub(crate) fn unix_timestamp_now() -> i64 {
    let t = unix_seconds_now();
    if t > i64::MAX as u64 {
        i64::MAX
    } else {
        t as i64
    }
}

} // verus!
