//! Process-wide de-duplication of new-mail notifications.
//!
//! The tracker maps an account identifier to the highest message identifier
//! already notified for that account (its high-water mark). A mark is created
//! lazily on the first observation for an account and defaults to 0, meaning
//! nothing has been notified yet. Marks are never purged: a stale entry for a
//! removed account is harmless, it is simply never looked up again.

use std::collections::HashMap;
use vstd::prelude::*;

verus! {

broadcast use vstd::std_specs::hash::group_hash_axioms;

/// The high-water mark recorded for `id`: 0 when the account has never been
/// observed.
pub open spec fn mark_of(marks: Map<i64, u64>, id: i64) -> u64 {
    if marks.contains_key(id) {
        marks[id]
    } else {
        0u64
    }
}

/// The largest identifier in `c`, or 0 when `c` is empty.
pub open spec fn seq_max(c: Seq<u64>) -> u64
    decreases c.len(),
{
    if c.len() == 0 {
        0u64
    } else if c.last() >= seq_max(c.drop_last()) {
        c.last()
    } else {
        seq_max(c.drop_last())
    }
}

/// Every identifier in `c` is at most `bound`.
pub open spec fn all_at_most(c: Seq<u64>, bound: u64) -> bool {
    forall|i: int| 0 <= i < c.len() ==> c[i] <= bound
}

/// The high-water mark after candidates `c` are observed against mark `hw`:
/// the mark never decreases, and rises to the largest candidate when one
/// exceeds it.
pub open spec fn mark_after(hw: u64, c: Seq<u64>) -> u64 {
    if seq_max(c) >= hw {
        seq_max(c)
    } else {
        hw
    }
}

/// The genuinely-new identifiers reported for candidates `c` at mark `hw`:
/// empty when no candidate exceeds the mark (the server merely re-advertised
/// identifiers already seen), otherwise the whole candidate set, unfiltered.
pub open spec fn fresh_of(hw: u64, c: Seq<u64>) -> Seq<u64> {
    if all_at_most(c, hw) {
        Seq::empty()
    } else {
        c
    }
}

/// The whole tracker after one observation for `id`: only that account's mark
/// moves.
pub open spec fn observe_marks(marks: Map<i64, u64>, id: i64, c: Seq<u64>) -> Map<i64, u64> {
    marks.insert(id, mark_after(mark_of(marks, id), c))
}

/// Table of per-account high-water marks, shared by all account watch tasks.
pub struct DedupTracker {
    marks: HashMap<i64, u64>,
}

impl DedupTracker {
    /// The abstract state: account identifier to last-notified mark.
    pub closed spec fn view(&self) -> Map<i64, u64> {
        self.marks@
    }

    /// A tracker with no account observed yet.
    pub fn new() -> (tracker: DedupTracker)
        ensures
            tracker@ == Map::<i64, u64>::empty(),
    {
        DedupTracker { marks: HashMap::new() }
    }

    /// The current high-water mark for `account_id` (0 when never observed).
    pub fn high_water_mark(&self, account_id: i64) -> (hw: u64)
        ensures
            hw == mark_of(self@, account_id),
    {
        match self.marks.get(&account_id) {
            Some(v) => *v,
            None => 0,
        }
    }

    /// Filter one batch of candidate identifiers for `account_id` and raise
    /// the account's mark.
    ///
    /// Returns the genuinely-new subset: empty when every candidate is at or
    /// below the current mark, otherwise the whole candidate set. The mark is
    /// raised to the largest candidate when that is higher, and is otherwise
    /// left at its old value; marks of other accounts never move.
    pub fn observe(&mut self, account_id: i64, candidate_ids: &Vec<u64>) -> (fresh: Vec<u64>)
        ensures
            fresh@ == fresh_of(mark_of(old(self)@, account_id), candidate_ids@),
            final(self)@ == observe_marks(old(self)@, account_id, candidate_ids@),
            mark_of(final(self)@, account_id) == mark_after(
                mark_of(old(self)@, account_id),
                candidate_ids@,
            ),
            forall|other: i64|
                other != account_id ==> mark_of(final(self)@, other) == mark_of(old(self)@, other),
    {
        let hw = self.high_water_mark(account_id);
        let mut i: usize = 0;
        let mut largest: u64 = 0;
        let mut none_exceed: bool = true;
        while i < candidate_ids.len()
            invariant
                i <= candidate_ids@.len(),
                largest == seq_max(candidate_ids@.take(i as int)),
                none_exceed == all_at_most(candidate_ids@.take(i as int), hw),
            decreases candidate_ids@.len() - i,
        {
            let c = candidate_ids[i];
            proof {
                let taken = candidate_ids@.take(i + 1);
                assert(taken.drop_last() =~= candidate_ids@.take(i as int));
                assert(taken.last() == candidate_ids@[i as int]);
            }
            if c > largest {
                largest = c;
            }
            if c > hw {
                none_exceed = false;
            }
            i += 1;
        }
        proof {
            assert(candidate_ids@.take(candidate_ids@.len() as int) =~= candidate_ids@);
        }
        let new_mark = if largest >= hw {
            largest
        } else {
            hw
        };
        self.marks.insert(account_id, new_mark);
        if none_exceed {
            Vec::new()
        } else {
            copy_ids(candidate_ids)
        }
    }
}

/// A plain copy of a batch of identifiers.
fn copy_ids(ids: &Vec<u64>) -> (r: Vec<u64>)
    ensures
        r@ == ids@,
{
    let mut r: Vec<u64> = Vec::new();
    let mut i: usize = 0;
    while i < ids.len()
        invariant
            i <= ids@.len(),
            r@ == ids@.take(i as int),
        decreases ids@.len() - i,
    {
        r.push(ids[i]);
        proof {
            assert(r@ =~= ids@.take(i + 1));
        }
        i += 1;
    }
    proof {
        assert(ids@.take(ids@.len() as int) =~= ids@);
    }
    r
}

/// No identifier in `c` exceeds `seq_max(c)`.
pub proof fn lemma_seq_max_is_bound(c: Seq<u64>)
    ensures
        all_at_most(c, seq_max(c)),
    decreases c.len(),
{
    if c.len() > 0 {
        lemma_seq_max_is_bound(c.drop_last());
        assert forall|i: int| 0 <= i < c.len() implies c[i] <= seq_max(c) by {
            if i < c.len() - 1 {
                assert(c.drop_last()[i] == c[i]);
            }
        }
    }
}

/// Law: one observation never lowers an account's high-water mark.
pub proof fn lemma_mark_monotonic(marks: Map<i64, u64>, id: i64, c: Seq<u64>)
    ensures
        mark_of(observe_marks(marks, id, c), id) >= mark_of(marks, id),
{
}

/// The mark left by observing the batches `cs` in order, starting from `hw`.
pub open spec fn mark_after_all(hw: u64, cs: Seq<Seq<u64>>) -> u64
    decreases cs.len(),
{
    if cs.len() == 0 {
        hw
    } else {
        mark_after_all(mark_after(hw, cs.first()), cs.drop_first())
    }
}

/// The largest identifier anywhere in the batches `cs`, or 0 when there is
/// none.
pub open spec fn max_over_all(cs: Seq<Seq<u64>>) -> u64
    decreases cs.len(),
{
    if cs.len() == 0 {
        0u64
    } else if seq_max(cs.first()) >= max_over_all(cs.drop_first()) {
        seq_max(cs.first())
    } else {
        max_over_all(cs.drop_first())
    }
}

/// Law: after any sequence of observations for one account, the stored mark
/// equals the largest identifier ever passed in any batch (0 when none was),
/// and in particular never decreases along the way.
pub proof fn lemma_mark_is_running_max(hw: u64, cs: Seq<Seq<u64>>)
    ensures
        mark_after_all(hw, cs) == if max_over_all(cs) >= hw {
            max_over_all(cs)
        } else {
            hw
        },
    decreases cs.len(),
{
    if cs.len() > 0 {
        lemma_mark_is_running_max(mark_after(hw, cs.first()), cs.drop_first());
    }
}

/// Law: the reported subset is all-or-nothing — the empty sequence, or
/// exactly the whole candidate batch; never a numeric difference of the two.
pub proof fn lemma_fresh_all_or_nothing(hw: u64, c: Seq<u64>)
    ensures
        fresh_of(hw, c) == Seq::<u64>::empty() || fresh_of(hw, c) == c,
{
}

/// Law: an empty batch reports nothing and moves no account's mark.
pub proof fn lemma_empty_batch_changes_nothing(marks: Map<i64, u64>, id: i64)
    ensures
        fresh_of(mark_of(marks, id), Seq::<u64>::empty()) == Seq::<u64>::empty(),
        forall|other: i64| #[trigger]
            mark_of(observe_marks(marks, id, Seq::<u64>::empty()), other) == mark_of(marks, other),
{
}

/// Law: observing a batch and then observing the very same batch again (with
/// no new identifiers in between) reports nothing new the second time.
pub proof fn lemma_no_duplicate_notification(marks: Map<i64, u64>, id: i64, c: Seq<u64>)
    ensures
        fresh_of(mark_of(observe_marks(marks, id, c), id), c) == Seq::<u64>::empty(),
{
    lemma_seq_max_is_bound(c);
}

/// The tracker after a whole interleaved run of observations, each naming the
/// account that observed and the batch it saw, in the order the shared table
/// served them.
pub open spec fn observe_all(marks: Map<i64, u64>, obs: Seq<(i64, Seq<u64>)>) -> Map<i64, u64>
    decreases obs.len(),
{
    if obs.len() == 0 {
        marks
    } else {
        observe_all(observe_marks(marks, obs.first().0, obs.first().1), obs.drop_first())
    }
}

/// The batches that `id` itself observed within the interleaved run, in
/// order.
pub open spec fn batches_for(obs: Seq<(i64, Seq<u64>)>, id: i64) -> Seq<Seq<u64>>
    decreases obs.len(),
{
    if obs.len() == 0 {
        Seq::empty()
    } else if obs.first().0 == id {
        seq![obs.first().1] + batches_for(obs.drop_first(), id)
    } else {
        batches_for(obs.drop_first(), id)
    }
}

/// Folding one batch, then the rest, is folding the whole run of batches.
proof fn lemma_mark_after_all_step(hw: u64, batch: Seq<u64>, rest: Seq<Seq<u64>>)
    ensures
        mark_after_all(hw, seq![batch] + rest) == mark_after_all(mark_after(hw, batch), rest),
{
    let whole = seq![batch] + rest;
    assert(whole.first() == batch);
    assert(whole.drop_first() =~= rest);
}

/// Law: cross-account isolation, for any number of accounts. However the
/// accounts' observations interleave on the shared tracker, each account ends
/// at exactly the mark that its own batches, alone and in their order, would
/// give it — no interleaving can disturb another account's entry.
pub proof fn lemma_interleaving_preserves_each_account(
    marks: Map<i64, u64>,
    obs: Seq<(i64, Seq<u64>)>,
    id: i64,
)
    ensures
        mark_of(observe_all(marks, obs), id) == mark_after_all(
            mark_of(marks, id),
            batches_for(obs, id),
        ),
    decreases obs.len(),
{
    if obs.len() > 0 {
        let first = obs.first();
        let after_first = observe_marks(marks, first.0, first.1);
        lemma_interleaving_preserves_each_account(after_first, obs.drop_first(), id);
        if first.0 == id {
            lemma_mark_after_all_step(
                mark_of(marks, id),
                first.1,
                batches_for(obs.drop_first(), id),
            );
        }
    }
}

/// Law: from a fresh tracker, an account's mark after any interleaved run
/// equals the largest identifier it ever observed itself (0 when it observed
/// none), whatever the other accounts did.
pub proof fn lemma_final_mark_is_own_max(obs: Seq<(i64, Seq<u64>)>, id: i64)
    ensures
        mark_of(observe_all(Map::<i64, u64>::empty(), obs), id) == max_over_all(
            batches_for(obs, id),
        ),
{
    lemma_interleaving_preserves_each_account(Map::<i64, u64>::empty(), obs, id);
    lemma_mark_is_running_max(0, batches_for(obs, id));
}

/// Law: observations for two distinct accounts do not disturb each other:
/// whichever order the two interleaved observations happen in, each account
/// ends at exactly the mark its own batch alone would give it.
pub proof fn lemma_cross_account_isolation(
    marks: Map<i64, u64>,
    id1: i64,
    c1: Seq<u64>,
    id2: i64,
    c2: Seq<u64>,
)
    requires
        id1 != id2,
    ensures
        mark_of(observe_marks(observe_marks(marks, id1, c1), id2, c2), id1) == mark_after(
            mark_of(marks, id1),
            c1,
        ),
        mark_of(observe_marks(observe_marks(marks, id1, c1), id2, c2), id2) == mark_after(
            mark_of(marks, id2),
            c2,
        ),
        observe_marks(observe_marks(marks, id1, c1), id2, c2) == observe_marks(
            observe_marks(marks, id2, c2),
            id1,
            c1,
        ),
{
    let both = observe_marks(observe_marks(marks, id1, c1), id2, c2);
    let swapped = observe_marks(observe_marks(marks, id2, c2), id1, c1);
    assert(both =~= swapped);
}

} // verus!
