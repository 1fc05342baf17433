//! Reading the wall clock.
use vstd::prelude::*;

verus! {

/// Seconds since the Unix epoch, as `chrono::Utc::now().timestamp()` gives
/// them. Nothing is stated of the value: it is whatever the system clock
/// reads at the time of the call.
#[verifier::external_body]
pub(crate) fn unix_timestamp() -> (r: i64) {
    chrono::Utc::now().timestamp()
}

/// The current time in whole seconds since the Unix epoch. (A negative
/// reading, which the clock does not give after the epoch, would read as
/// zero.)
pub fn unix_now_secs() -> (r: u64)
    ensures
        r <= i64::MAX,
{
    let t = unix_timestamp();
    if t < 0 {
        0
    } else {
        t as u64
    }
}

} // verus!
