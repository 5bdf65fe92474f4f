//! The values that the database queries are given: the URL search pattern,
//! the listing limit and the cutoff for clearing old downloads. Running the
//! queries is done by the binary.

use vstd::prelude::*;
use crate::text::str_concat;

verus! {

/// The number of seconds in a day.
pub const SECONDS_PER_DAY: i64 = 86400;

/// The `LIKE` pattern that finds URLs containing `query`: `%<query>%`.
pub fn search_pattern(query: &str) -> (r: String)
    ensures
        r@ == "%"@ + query@ + "%"@,
{
    let head = str_concat("%", query);
    str_concat(head.as_str(), "%")
}

/// The number of jobs a listing returns: the limit asked for, else 100, as
/// the 64-bit integer the query binds.
pub fn list_limit(limit: Option<usize>) -> (r: i64)
    ensures
        r == (match limit {
            Some(l) => l as i64,
            None => 100,
        }),
{
    match limit {
        Some(l) => l as i64,
        None => 100,
    }
}

/// The completion time before which completed downloads are cleared: `days`
/// days before `now` (seconds since the Unix epoch). `None` where that time
/// is not a 64-bit number of seconds.
pub fn completed_cutoff(now: i64, days: i64) -> (r: Option<i64>)
    ensures
        match r {
            Some(c) => c == now - days * SECONDS_PER_DAY,
            None => !(i64::MIN <= days * SECONDS_PER_DAY <= i64::MAX) || !(i64::MIN <= now - days
                * SECONDS_PER_DAY <= i64::MAX),
        },
{
    match days.checked_mul(SECONDS_PER_DAY) {
        Some(span) => now.checked_sub(span),
        None => None,
    }
}

} // verus!
