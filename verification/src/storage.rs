//! Which days a traffic history covers and which are kept.
use vstd::prelude::*;

verus! {

/// The days of a history of `days` days that ends on `today`, oldest first;
/// days are day numbers.
pub fn traffic_history_days(today: i32, days: u32) -> (r: Vec<i32>)
    requires
        today - days >= i32::MIN,
    ensures
        r.len() == days,
        forall|k: int| 0 <= k < days ==> r[k] == today - (days - 1 - k),
{
    let mut r: Vec<i32> = Vec::new();
    let mut k: u32 = 0;
    while k < days
        invariant
            k <= days,
            today - days >= i32::MIN,
            r.len() == k,
            forall|j: int| 0 <= j < k ==> r[j] == today - (days - 1 - j),
        decreases days - k,
    {
        let back: i64 = (days - 1 - k) as i64;
        r.push((today as i64 - back) as i32);
        k = k + 1;
    }
    r
}

/// The first day that is kept when `retention_days` days of history are
/// kept before `today`: traffic of earlier days is deleted.
pub fn retention_cutoff_day(today: i32, retention_days: u32) -> (d: i32)
    requires
        today - retention_days >= i32::MIN,
    ensures
        d == today - retention_days,
{
    (today as i64 - retention_days as i64) as i32
}

} // verus!
