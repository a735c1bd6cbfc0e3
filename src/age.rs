use vstd::arithmetic::div_mod::lemma_div_denominator;
use vstd::prelude::*;

verus! {

/// Seconds in one hour.
pub const SECS_PER_HOUR: u64 = 3600;

/// Files older than this many whole hours are left alone.
pub const MAX_AGE_HOURS: u64 = 24;

/// Whole hours elapsed from `created_secs` to `now_secs`, truncated.
/// A creation time in the future counts as no time elapsed.
pub open spec fn spec_elapsed_hours(now_secs: u64, created_secs: u64) -> nat {
    if now_secs >= created_secs {
        ((now_secs - created_secs) / 3600) as nat
    } else {
        0
    }
}

/// A file is fresh when at most `MAX_AGE_HOURS` whole hours have elapsed
/// since it was created.
pub open spec fn spec_is_fresh(now_secs: u64, created_secs: u64) -> bool {
    spec_elapsed_hours(now_secs, created_secs) <= MAX_AGE_HOURS
}

/// Whole hours from `created_secs` to `now_secs`: seconds divided by 60
/// twice, truncating. A creation time ahead of `now_secs` (clock skew,
/// copied timestamps) gives 0, so such a file is treated as fresh.
pub fn elapsed_hours(now_secs: u64, created_secs: u64) -> (r: u64)
    ensures
        r == spec_elapsed_hours(now_secs, created_secs),
{
    if now_secs >= created_secs {
        let secs: u64 = now_secs - created_secs;
        let r: u64 = secs / 60 / 60;
        proof {
            lemma_div_denominator(secs as int, 60, 60);
        }
        r
    } else {
        0
    }
}

/// Whether a file created at `created_secs` is young enough to optimize.
pub fn is_fresh(now_secs: u64, created_secs: u64) -> (r: bool)
    ensures
        r == spec_is_fresh(now_secs, created_secs),
{
    elapsed_hours(now_secs, created_secs) <= MAX_AGE_HOURS
}

} // verus!
