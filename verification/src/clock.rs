//! The current time, as the sessions record it.
use vstd::prelude::*;

verus! {

/// `chrono::Utc::now`, in milliseconds since the Unix epoch. It depends on
/// the clock, so nothing is said of its value but that it is not before the
/// epoch (chrono panics on a clock set before it).
#[verifier::external_body]
pub fn utc_now_millis() -> (t: i64)
    ensures
        t >= 0,
{
    chrono::Utc::now().timestamp_millis()
}

} // verus!
