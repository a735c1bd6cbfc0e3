use vstd::prelude::*;

use crate::age::{spec_elapsed_hours, spec_is_fresh};
use crate::scan::{spec_attempts, spec_is_candidate, spec_step, Entry, Step};

verus! {

/// Over any sequence of entries walked in one pass, an entry is handed to
/// the optimizer exactly when its creation time is known and within the
/// age limit; an enumeration error, a missing creation time or a stale
/// file never reaches it. The pass's count equals the number of such
/// entries, each counted once.
pub proof fn lemma_optimizes_exactly_fresh(now_secs: u64, entries: Seq<Entry>)
    ensures
        forall|i: int|
            0 <= i < entries.len() ==> (#[trigger] spec_step(now_secs, entries[i]) == Step::Optimize
                <==> spec_is_candidate(now_secs, entries[i])),
        spec_attempts(now_secs, entries) == entries.filter(
            |e: Entry| spec_is_candidate(now_secs, e),
        ).len(),
    decreases entries.len(),
{
    if entries.len() > 0 {
        let pred = |e: Entry| spec_is_candidate(now_secs, e);
        lemma_optimizes_exactly_fresh(now_secs, entries.drop_last());
        reveal_with_fuel(Seq::filter, 1);
        assert(entries.filter(pred).len() == entries.drop_last().filter(pred).len() + if pred(
            entries.last(),
        ) {
            1int
        } else {
            0int
        });
    }
}

/// The age limit is a strict bound on whole hours: with the creation time
/// not in the future, a file is fresh exactly when less than 25 hours
/// (90000 seconds) have passed, so a file created 23 hours ago is fresh
/// and one whose truncated age exceeds 24 hours is not. A creation time in
/// the future counts as fresh.
pub proof fn lemma_age_boundary(now_secs: u64, created_secs: u64)
    ensures
        now_secs >= created_secs ==> (spec_is_fresh(now_secs, created_secs) <==> now_secs
            - created_secs < 90000),
        now_secs >= created_secs && now_secs - created_secs == 23 * 3600 ==> spec_is_fresh(
            now_secs,
            created_secs,
        ),
        spec_elapsed_hours(now_secs, created_secs) > 24 ==> !spec_is_fresh(now_secs, created_secs),
        now_secs < created_secs ==> spec_is_fresh(now_secs, created_secs),
{
    if now_secs >= created_secs {
        let secs: int = now_secs - created_secs;
        assert(secs / 3600 <= 24 <==> secs < 90000) by (nonlinear_arith)
            requires
                secs >= 0,
        ;
    }
}

} // verus!
