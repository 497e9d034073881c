//! The colour level of a usage bar: green below the first threshold,
//! yellow from the first, red from the second.
use vstd::prelude::*;
use crate::alerts::{level_reached, ratio_reached};

verus! {

/// The colour level of a usage bar.
#[derive(Debug, Clone, Copy, PartialEq, Eq, Structural)]
pub enum UsageLevel {
    /// Shown green.
    Low,
    /// Shown yellow.
    Medium,
    /// Shown red.
    High,
}

/// The level of `used` against `total` with thresholds in percent; a total
/// of zero counts as no usage.
pub open spec fn usage_level(used: u64, total: u64, medium_pct: nat, high_pct: nat) -> UsageLevel {
    if total == 0 {
        UsageLevel::Low
    } else if level_reached(used, total, high_pct) {
        UsageLevel::High
    } else if level_reached(used, total, medium_pct) {
        UsageLevel::Medium
    } else {
        UsageLevel::Low
    }
}

/// The level of a traffic bar: yellow from 80 % of the limit, red from 95 %.
pub fn traffic_level(used: u64, limit: u64) -> (l: UsageLevel)
    ensures
        l == usage_level(used, limit, 80, 95),
{
    if limit == 0 {
        UsageLevel::Low
    } else if ratio_reached(used, limit, 95) {
        UsageLevel::High
    } else if ratio_reached(used, limit, 80) {
        UsageLevel::Medium
    } else {
        UsageLevel::Low
    }
}

/// The level of the memory bar: yellow from 50 % in use, red from 80 %.
pub fn memory_level(used: u64, total: u64) -> (l: UsageLevel)
    ensures
        l == usage_level(used, total, 50, 80),
{
    if total == 0 {
        UsageLevel::Low
    } else if ratio_reached(used, total, 80) {
        UsageLevel::High
    } else if ratio_reached(used, total, 50) {
        UsageLevel::Medium
    } else {
        UsageLevel::Low
    }
}

/// Whether a traffic history has anything to draw: some day with traffic.
pub fn has_history_data(totals: &Vec<u64>) -> (r: bool)
    ensures
        r == exists|i: int| 0 <= i < totals.len() && totals[i] != 0,
{
    let mut i: usize = 0;
    while i < totals.len()
        invariant
            i <= totals.len(),
            forall|j: int| 0 <= j < i ==> totals[j] == 0,
        decreases totals.len() - i,
    {
        if totals[i] != 0 {
            return true;
        }
        i = i + 1;
    }
    false
}

/// For a positive total the level depends only on the share of the total in
/// use: red from the high percentage, yellow from the medium one below the
/// high one, green below both.
pub proof fn law_level_from_share(used: u64, total: u64, medium_pct: nat, high_pct: nat)
    requires
        total > 0,
    ensures
        usage_level(used, total, medium_pct, high_pct) == UsageLevel::High <==> used * 100
            >= total * high_pct,
        usage_level(used, total, medium_pct, high_pct) == UsageLevel::Medium <==> used * 100
            < total * high_pct && used * 100 >= total * medium_pct,
        usage_level(used, total, medium_pct, high_pct) == UsageLevel::Low <==> used * 100 < total
            * high_pct && used * 100 < total * medium_pct,
{
}

/// Scaling the usage and the total by the same factor leaves the level
/// unchanged.
pub proof fn law_level_scale_invariant(
    used: u64,
    total: u64,
    k: u64,
    medium_pct: nat,
    high_pct: nat,
)
    requires
        total > 0,
        k > 0,
        used * k <= u64::MAX,
        total * k <= u64::MAX,
    ensures
        usage_level((used * k) as u64, (total * k) as u64, medium_pct, high_pct) == usage_level(
            used,
            total,
            medium_pct,
            high_pct,
        ),
{
    let ku = (used * k) as u64;
    let kt = (total * k) as u64;
    assert(kt > 0) by (nonlinear_arith)
        requires
            total > 0,
            k > 0,
            kt == total * k,
    ;
    assert(ku * 100 >= kt * high_pct <==> used * 100 >= total * high_pct) by (nonlinear_arith)
        requires
            k > 0,
            ku == used * k,
            kt == total * k,
    ;
    assert(ku * 100 >= kt * medium_pct <==> used * 100 >= total * medium_pct) by (nonlinear_arith)
        requires
            k > 0,
            ku == used * k,
            kt == total * k,
    ;
}

/// The traffic bar is red from 95 % of the limit and yellow from 80 %; the
/// memory bar is red from 80 % in use and yellow from 50 %.
pub proof fn law_bar_thresholds(used: u64, total: u64)
    requires
        total > 0,
    ensures
        usage_level(used, total, 80, 95) == UsageLevel::High <==> used * 100 >= total * 95,
        usage_level(used, total, 80, 95) == UsageLevel::Low <==> used * 100 < total * 80,
        usage_level(used, total, 50, 80) == UsageLevel::High <==> used * 100 >= total * 80,
        usage_level(used, total, 50, 80) == UsageLevel::Low <==> used * 100 < total * 50,
{
}

/// Levels only rise with usage: more usage against the same limit never
/// gives a lower colour.
pub proof fn law_traffic_level_monotone(used1: u64, used2: u64, limit: u64)
    requires
        used1 <= used2,
    ensures
        usage_level(used1, limit, 80, 95) == UsageLevel::High ==> usage_level(used2, limit, 80, 95)
            == UsageLevel::High,
        usage_level(used1, limit, 80, 95) == UsageLevel::Medium ==> usage_level(
            used2,
            limit,
            80,
            95,
        ) != UsageLevel::Low,
{
}

} // verus!
