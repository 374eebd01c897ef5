//! The current time, read through `chrono`.
use vstd::prelude::*;

verus! {

/// The largest second count since the Unix epoch that `chrono::DateTime<Utc>` can hold
/// (the last second of year 262142).
pub const MAX_TIMESTAMP: i64 = 8_210_266_876_799;

/// Calls `chrono::Utc::now().timestamp()`.
/// Claimed: the result lies between 0 and `MAX_TIMESTAMP` (`Utc::now` panics on a clock set
/// before the Unix epoch or past chrono's last date, so whatever returns lies in that range).
/// Which second it is, is not stated.
#[verifier::external_body]
pub(crate) fn utc_now_timestamp() -> (t: i64)
    ensures
        0 <= t <= MAX_TIMESTAMP,
{
    chrono::Utc::now().timestamp()
}

} // verus!
