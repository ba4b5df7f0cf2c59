//! Wall-clock readings, as seconds since the Unix epoch. The cart records
//! when it was created and when a payment falls due; only the clock itself
//! comes from outside.

use vstd::prelude::*;

verus! {

/// One day in seconds.
pub const DAY_SECONDS: i64 = 86400;

/// Relies on chrono's Utc::now, NaiveDateTime::and_utc and
/// DateTime::timestamp for the timestamp of today's midnight (UTC). chrono
/// dates span about 262,000 years either side of the epoch, so the
/// timestamp stays within nine quadrillion seconds of zero.
#[verifier::external_body]
pub fn today_start_ts() -> (r: i64)
    ensures
        -9_000_000_000_000_000 <= r <= 9_000_000_000_000_000,
{
    chrono::Utc::now().date_naive().and_hms_opt(0, 0, 0).unwrap().and_utc().timestamp()
}

/// Relies on chrono's Utc::now and DateTime::timestamp for the current UTC
/// timestamp, bounded as chrono's date range is.
#[verifier::external_body]
pub fn now_ts() -> (r: i64)
    ensures
        -9_000_000_000_000_000 <= r <= 9_000_000_000_000_000,
{
    chrono::Utc::now().timestamp()
}

} // verus!
