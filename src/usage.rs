//! The share of a resource in use, as a whole percentage.

use vstd::prelude::*;

verus! {

/// The whole percentage of `total` that is in use when `free` of it is not,
/// rounded down; none when the total is zero. A free amount larger than the
/// total counts as the whole total.
pub open spec fn spec_used_percent(total: nat, free: nat) -> Option<nat> {
    if total == 0 {
        None
    } else {
        let used = if free >= total { 0 } else { (total - free) as nat };
        Some(used * 100 / total)
    }
}

/// Computes `spec_used_percent` without overflow.
pub fn used_percent(total: u64, free: u64) -> (r: Option<u64>)
    ensures
        r matches Some(p) ==> spec_used_percent(total as nat, free as nat) == Some(p as nat),
        r is None ==> spec_used_percent(total as nat, free as nat) is None,
        r matches Some(p) ==> p <= 100,
{
    if total == 0 {
        None
    } else {
        let used: u64 = if free >= total { 0 } else { total - free };
        let scaled: u128 = used as u128 * 100;
        let p: u128 = scaled / total as u128;
        assert(p <= 100) by (nonlinear_arith)
            requires
                p == scaled / total as u128,
                scaled == used * 100,
                used <= total,
                total > 0,
        ;
        Some(p as u64)
    }
}

} // verus!
