//! The batch driver and the worker-pool model.
//!
//! A batch obtains its shared reference value once, resolves every item
//! of its input list, and partitions the per-item outcomes into a
//! [`BatchResult`]. The driver here is the sequential reference
//! execution; a concurrent driver differs from it only in the order in
//! which items complete, and the laws below show that neither the
//! concurrency limit nor the completion order changes what a batch
//! produces.

use vstd::prelude::*;

use crate::outcome::{failed_entries, migrated_entries, BatchResult, ResultAggregator};
use crate::resolver::{
    item_sig, item_succeeds, resolve_item, step_failure, StepResults, StepResultsV,
};

verus! {

/// The concurrency width a batch runs with unless its caller overrides it.
pub const DEFAULT_CONCURRENCY_LIMIT: usize = 100;

/// Views of a list of item identifiers.
pub open spec fn mint_views(mints: Seq<String>) -> Seq<Seq<char>> {
    mints.map_values(|m: String| m@)
}

/// Views of a list of per-item replies.
pub open spec fn step_views(steps: Seq<StepResults>) -> Seq<StepResultsV> {
    steps.map_values(|s: StepResults| s@)
}

/// The success partition of the first `n` items, in input order:
/// (mint, signature) pairs of the items whose chain succeeds.
pub open spec fn success_entries(
    mints: Seq<Seq<char>>,
    steps: Seq<StepResultsV>,
    n: int,
) -> Seq<(Seq<char>, Seq<char>)>
    decreases n,
{
    if n <= 0 {
        Seq::empty()
    } else {
        let pre = success_entries(mints, steps, n - 1);
        if item_succeeds(steps[n - 1]) {
            pre.push((mints[n - 1], item_sig(steps[n - 1])))
        } else {
            pre
        }
    }
}

/// The failure partition of the first `n` items, in input order:
/// (mint, error) pairs of the items whose chain fails.
pub open spec fn failure_entries(
    mints: Seq<Seq<char>>,
    steps: Seq<StepResultsV>,
    n: int,
) -> Seq<(Seq<char>, Seq<char>)>
    decreases n,
{
    if n <= 0 {
        Seq::empty()
    } else {
        let pre = failure_entries(mints, steps, n - 1);
        if item_succeeds(steps[n - 1]) {
            pre
        } else {
            pre.push((mints[n - 1], step_failure(steps[n - 1])->Some_0))
        }
    }
}

/// The identifiers a partition carries.
pub open spec fn entry_mints(entries: Seq<(Seq<char>, Seq<char>)>) -> Seq<Seq<char>> {
    entries.map_values(|e: (Seq<char>, Seq<char>)| e.0)
}

/// The counting-permit mechanism that bounds how many items run at once:
/// a task acquires a slot before its chain starts and releases it when
/// its outcome is recorded, and at most `limit` slots are ever out.
pub struct WorkerPool {
    pub limit: usize,
    pub active: usize,
}

impl WorkerPool {
    /// At least one slot exists and no more than `limit` are out.
    pub open spec fn wf(&self) -> bool {
        1 <= self.limit && self.active <= self.limit
    }

    /// A pool of `limit` slots, none taken.
    pub fn new(limit: usize) -> (p: WorkerPool)
        requires
            limit >= 1,
        ensures
            p.wf(),
            p.limit == limit,
            p.active == 0,
    {
        WorkerPool { limit, active: 0 }
    }

    /// Whether a task could start now.
    pub fn has_slot(&self) -> (b: bool)
        ensures
            b == (self.active < self.limit),
    {
        self.active < self.limit
    }

    /// Take a slot; only possible below the limit.
    pub fn acquire(&mut self)
        requires
            old(self).wf(),
            old(self).active < old(self).limit,
        ensures
            final(self).wf(),
            final(self).limit == old(self).limit,
            final(self).active == old(self).active + 1,
    {
        self.active = self.active + 1;
    }

    /// Give a slot back.
    pub fn release(&mut self)
        requires
            old(self).wf(),
            old(self).active >= 1,
        ensures
            final(self).wf(),
            final(self).limit == old(self).limit,
            final(self).active == old(self).active - 1,
    {
        self.active = self.active - 1;
    }
}

/// Run a whole batch with an explicit concurrency limit.
///
/// The shared reference value is obtained exactly once, before any item
/// is touched: when the lookup failed, the batch aborts with that error,
/// no item is resolved and no submission reply is consulted. Otherwise
/// every item yields exactly one outcome, and the result's partitions
/// are exactly the success and failure entries of the input list, in
/// input order — for every limit, including the sequential limit of one.
pub fn run_batch_limited(
    state_lookup: Result<String, String>,
    collection_mint: &String,
    mints: Vec<String>,
    steps: Vec<StepResults>,
    limit: usize,
) -> (r: Result<BatchResult, String>)
    requires
        mints@.len() == steps@.len(),
        limit >= 1,
    ensures
        r is Ok <==> state_lookup is Ok,
        (state_lookup matches Err(e) ==> r matches Err(e2) && e2@ == e@),
        (state_lookup matches Ok(rs) ==> r matches Ok(br)
            && migrated_entries(br.migrated@) == success_entries(
                mint_views(mints@), step_views(steps@), mints@.len() as int)
            && failed_entries(br.failed@) == failure_entries(
                mint_views(mints@), step_views(steps@), mints@.len() as int)),
{
    let ghost ms0 = mints@;
    let ghost ss0 = steps@;
    let ghost mv = mint_views(ms0);
    let ghost sv = step_views(ss0);
    let rule_set = match state_lookup {
        Ok(rs) => rs,
        Err(e) => {
            return Err(e);
        },
    };
    let mut pool = WorkerPool::new(limit);
    let mut agg = ResultAggregator::new();
    let mut rem_mints = mints;
    let mut rem_steps = steps;
    let n = rem_mints.len();
    let mut i: usize = 0;
    while i < n
        invariant
            n == ms0.len() == ss0.len(),
            mv == mint_views(ms0),
            sv == step_views(ss0),
            i <= n,
            rem_mints@ == ms0.skip(i as int),
            rem_steps@ == ss0.skip(i as int),
            migrated_entries(agg.migrated_view()) == success_entries(mv, sv, i as int),
            failed_entries(agg.failed_view()) == failure_entries(mv, sv, i as int),
            pool.wf(),
            pool.active == 0,
            pool.limit == limit,
        decreases n - i,
    {
        pool.acquire();
        let mint = rem_mints.remove(0);
        let s = rem_steps.remove(0);
        proof {
            assert(mint == ms0.skip(i as int)[0]);
            assert(ms0.skip(i as int)[0] == ms0[i as int]);
            assert(rem_mints@ =~= ms0.skip(i as int + 1));
            assert(rem_steps@ =~= ss0.skip(i as int + 1));
            assert(mint@ == mv[i as int]);
            assert(s@ == sv[i as int]);
        }
        let o = resolve_item(mint, collection_mint.clone(), rule_set.clone(), s);
        let ghost pre_migrated = agg.migrated_view();
        let ghost pre_failed = agg.failed_view();
        agg.record(o);
        proof {
            if item_succeeds(sv[i as int]) {
                assert(migrated_entries(agg.migrated_view()) =~= migrated_entries(
                    pre_migrated).push((mv[i as int], item_sig(sv[i as int]))));
                assert(failed_entries(agg.failed_view()) == failure_entries(mv, sv, i as int + 1));
            } else {
                assert(failed_entries(agg.failed_view()) =~= failed_entries(pre_failed).push(
                    (mv[i as int], step_failure(sv[i as int])->Some_0)));
                assert(migrated_entries(agg.migrated_view()) == success_entries(
                    mv, sv, i as int + 1));
            }
        }
        pool.release();
        i += 1;
    }
    Ok(agg.finalize())
}

/// Run a whole batch at the default concurrency width.
pub fn run_batch(
    state_lookup: Result<String, String>,
    collection_mint: &String,
    mints: Vec<String>,
    steps: Vec<StepResults>,
) -> (r: Result<BatchResult, String>)
    requires
        mints@.len() == steps@.len(),
    ensures
        r is Ok <==> state_lookup is Ok,
        (state_lookup matches Err(e) ==> r matches Err(e2) && e2@ == e@),
        (state_lookup matches Ok(rs) ==> r matches Ok(br)
            && migrated_entries(br.migrated@) == success_entries(
                mint_views(mints@), step_views(steps@), mints@.len() as int)
            && failed_entries(br.failed@) == failure_entries(
                mint_views(mints@), step_views(steps@), mints@.len() as int)),
{
    run_batch_limited(state_lookup, collection_mint, mints, steps, DEFAULT_CONCURRENCY_LIMIT)
}

/// Law: every identifier of a batch of `n` items yields exactly one
/// outcome — the two partitions hold `n` entries between them, and the
/// identifiers they carry are, as a collection, exactly the batch's
/// identifiers.
pub proof fn lemma_batch_partition(mints: Seq<Seq<char>>, steps: Seq<StepResultsV>, n: int)
    requires
        0 <= n <= mints.len(),
        mints.len() == steps.len(),
    ensures
        success_entries(mints, steps, n).len() + failure_entries(mints, steps, n).len() == n,
        entry_mints(success_entries(mints, steps, n)).to_multiset().add(
            entry_mints(failure_entries(mints, steps, n)).to_multiset())
            =~= mints.take(n).to_multiset(),
    decreases n,
{
    broadcast use vstd::seq_lib::group_to_multiset_ensures;
    broadcast use vstd::multiset::group_multiset_axioms;

    if n <= 0 {
        assert(mints.take(0) =~= Seq::<Seq<char>>::empty());
        assert(entry_mints(Seq::<(Seq<char>, Seq<char>)>::empty())
            =~= Seq::<Seq<char>>::empty());
    } else {
        lemma_batch_partition(mints, steps, n - 1);
        let se_pre = success_entries(mints, steps, n - 1);
        let fe_pre = failure_entries(mints, steps, n - 1);
        assert(mints.take(n) =~= mints.take(n - 1).push(mints[n - 1]));
        if item_succeeds(steps[n - 1]) {
            assert(entry_mints(success_entries(mints, steps, n)) =~= entry_mints(se_pre).push(
                mints[n - 1]));
        } else {
            assert(entry_mints(failure_entries(mints, steps, n)) =~= entry_mints(fe_pre).push(
                mints[n - 1]));
        }
        assert(entry_mints(success_entries(mints, steps, n)).to_multiset().add(
            entry_mints(failure_entries(mints, steps, n)).to_multiset())
            =~= mints.take(n).to_multiset());
    }
}

/// Law: when a batch's identifiers are pairwise distinct, no identifier
/// appears twice within either partition, nor in both.
pub proof fn lemma_batch_distinct_mints(mints: Seq<Seq<char>>, steps: Seq<StepResultsV>)
    requires
        mints.no_duplicates(),
        mints.len() == steps.len(),
    ensures
        entry_mints(success_entries(mints, steps, mints.len() as int)).no_duplicates(),
        entry_mints(failure_entries(mints, steps, mints.len() as int)).no_duplicates(),
        forall|m: Seq<char>| !(entry_mints(
            success_entries(mints, steps, mints.len() as int)).contains(m) && entry_mints(
            failure_entries(mints, steps, mints.len() as int)).contains(m)),
{
    broadcast use vstd::seq_lib::group_to_multiset_ensures;
    broadcast use vstd::multiset::group_multiset_axioms;

    let n = mints.len() as int;
    let sm = entry_mints(success_entries(mints, steps, n));
    let fm = entry_mints(failure_entries(mints, steps, n));
    lemma_batch_partition(mints, steps, n);
    assert(mints.take(n) =~= mints);
    mints.lemma_multiset_has_no_duplicates();
    assert forall|m: Seq<char>| sm.to_multiset().count(m) + fm.to_multiset().count(m)
        <= 1 by {
        if mints.to_multiset().contains(m) {
            assert(mints.to_multiset().count(m) == 1);
        } else {
            assert(mints.to_multiset().count(m) == 0);
        }
        assert(sm.to_multiset().add(fm.to_multiset()).count(m) == mints.to_multiset().count(m));
    }
    assert forall|m: Seq<char>| sm.to_multiset().contains(m) implies sm.to_multiset().count(m)
        == 1 by {
        assert(sm.to_multiset().count(m) + fm.to_multiset().count(m) <= 1);
    }
    assert forall|m: Seq<char>| fm.to_multiset().contains(m) implies fm.to_multiset().count(m)
        == 1 by {
        assert(sm.to_multiset().count(m) + fm.to_multiset().count(m) <= 1);
    }
    sm.lemma_multiset_has_no_duplicates_conv();
    fm.lemma_multiset_has_no_duplicates_conv();
    assert forall|m: Seq<char>| !(sm.contains(m) && fm.contains(m)) by {
        if sm.contains(m) && fm.contains(m) {
            assert(sm.to_multiset().count(m) > 0);
            assert(fm.to_multiset().count(m) > 0);
            assert(sm.to_multiset().count(m) + fm.to_multiset().count(m) <= 1);
        }
    }
}

/// One item's outcome as a plain triple: whether it succeeded, its
/// identifier, and its signature or error message.
pub open spec fn outcome_entry(mint: Seq<char>, v: StepResultsV) -> (bool, Seq<char>, Seq<char>) {
    if item_succeeds(v) {
        (true, mint, item_sig(v))
    } else {
        (false, mint, step_failure(v)->Some_0)
    }
}

/// The outcomes of a batch in the order in which its items complete:
/// `order` lists the items' indices in completion order.
pub open spec fn outcomes_in_order(
    mints: Seq<Seq<char>>,
    steps: Seq<StepResultsV>,
    order: Seq<int>,
) -> Seq<(bool, Seq<char>, Seq<char>)> {
    order.map_values(|i: int| outcome_entry(mints[i], steps[i]))
}

/// Mapping a function over two sequences that hold the same elements
/// yields sequences that hold the same elements.
proof fn lemma_map_values_multiset<A, B>(s1: Seq<A>, s2: Seq<A>, f: spec_fn(A) -> B)
    requires
        s1.to_multiset() == s2.to_multiset(),
    ensures
        s1.map_values(f).to_multiset() == s2.map_values(f).to_multiset(),
    decreases s1.len(),
{
    broadcast use vstd::seq_lib::group_to_multiset_ensures;
    broadcast use vstd::multiset::group_multiset_axioms;

    if s1.len() == 0 {
        assert(s1.to_multiset().len() == s1.len());
        assert(s2.to_multiset().len() == s2.len());
        assert(s2.len() == 0);
        assert(s1.map_values(f).to_multiset() =~= s2.map_values(f).to_multiset());
    } else {
        let last = s1.len() - 1;
        let x = s1[last];
        assert(s1.contains(x));
        assert(s2.to_multiset().count(x) > 0);
        assert(s2.contains(x));
        let j = choose|j: int| 0 <= j < s2.len() && s2[j] == x;
        let s1p = s1.remove(last);
        let s2p = s2.remove(j);
        assert(s1p.to_multiset() =~= s2p.to_multiset());
        lemma_map_values_multiset(s1p, s2p, f);
        assert(s1.map_values(f).remove(last) =~= s1p.map_values(f));
        assert(s2.map_values(f).remove(j) =~= s2p.map_values(f));
        assert(s1.map_values(f)[last] == f(x));
        assert(s2.map_values(f)[j] == f(x));
        assert(s1.map_values(f).remove(last).to_multiset()
            == s1.map_values(f).to_multiset().remove(f(x)));
        assert(s2.map_values(f).remove(j).to_multiset()
            == s2.map_values(f).to_multiset().remove(f(x)));
        assert(s1.map_values(f).to_multiset().contains(f(x)));
        assert(s2.map_values(f).to_multiset().contains(f(x)));
        assert(s1.map_values(f).to_multiset() =~= s2.map_values(f).to_multiset()) by {
            let m1 = s1.map_values(f).to_multiset();
            let m2 = s2.map_values(f).to_multiset();
            assert(m1.remove(f(x)) =~= m2.remove(f(x)));
            assert forall|b: B| m1.count(b) == m2.count(b) by {
                if b == f(x) {
                    assert(m1.remove(f(x)).count(b) == m1.count(b) - 1);
                    assert(m2.remove(f(x)).count(b) == m2.count(b) - 1);
                } else {
                    assert(m1.remove(f(x)).count(b) == m1.count(b));
                    assert(m2.remove(f(x)).count(b) == m2.count(b));
                }
            }
        }
    }
}

/// Law: the two partitions collect exactly the outcomes of the batch's
/// items, one per item. Together with the completion-order law below,
/// this ties the driver's result to any concurrent execution: whatever
/// order items complete in, the collection of outcomes is the one the
/// partitions hold.
pub proof fn lemma_partitions_collect_all_outcomes(
    mints: Seq<Seq<char>>,
    steps: Seq<StepResultsV>,
    n: int,
)
    requires
        0 <= n <= mints.len(),
        mints.len() == steps.len(),
    ensures
        outcomes_in_order(mints, steps, Seq::new(n as nat, |i: int| i)).to_multiset()
            =~= success_entries(mints, steps, n).map_values(
            |e: (Seq<char>, Seq<char>)| (true, e.0, e.1)).to_multiset().add(
            failure_entries(mints, steps, n).map_values(
                |e: (Seq<char>, Seq<char>)| (false, e.0, e.1)).to_multiset()),
    decreases n,
{
    broadcast use vstd::seq_lib::group_to_multiset_ensures;
    broadcast use vstd::multiset::group_multiset_axioms;

    let order = Seq::new(n as nat, |i: int| i);
    let as_success = |e: (Seq<char>, Seq<char>)| (true, e.0, e.1);
    let as_failure = |e: (Seq<char>, Seq<char>)| (false, e.0, e.1);
    if n <= 0 {
        assert(outcomes_in_order(mints, steps, order) =~= Seq::<(
            bool,
            Seq<char>,
            Seq<char>,
        )>::empty());
        assert(success_entries(mints, steps, 0).map_values(as_success) =~= Seq::<(
            bool,
            Seq<char>,
            Seq<char>,
        )>::empty());
        assert(failure_entries(mints, steps, 0).map_values(as_failure) =~= Seq::<(
            bool,
            Seq<char>,
            Seq<char>,
        )>::empty());
    } else {
        lemma_partitions_collect_all_outcomes(mints, steps, n - 1);
        let order_pre = Seq::new((n - 1) as nat, |i: int| i);
        assert(outcomes_in_order(mints, steps, order) =~= outcomes_in_order(
            mints, steps, order_pre).push(outcome_entry(mints[n - 1], steps[n - 1])));
        if item_succeeds(steps[n - 1]) {
            assert(success_entries(mints, steps, n).map_values(as_success)
                =~= success_entries(mints, steps, n - 1).map_values(as_success).push(
                (true, mints[n - 1], item_sig(steps[n - 1]))));
            assert(failure_entries(mints, steps, n) == failure_entries(mints, steps, n - 1));
        } else {
            assert(failure_entries(mints, steps, n).map_values(as_failure)
                =~= failure_entries(mints, steps, n - 1).map_values(as_failure).push(
                (false, mints[n - 1], step_failure(steps[n - 1])->Some_0)));
            assert(success_entries(mints, steps, n) == success_entries(mints, steps, n - 1));
        }
    }
}

/// Law: the concurrency width changes only timing. Any two completion
/// orders of the same batch — and a wider or narrower worker pool can
/// only change the completion order — yield the same collection of
/// outcomes.
pub proof fn lemma_completion_order_irrelevant(
    mints: Seq<Seq<char>>,
    steps: Seq<StepResultsV>,
    order1: Seq<int>,
    order2: Seq<int>,
)
    requires
        order1.to_multiset() == order2.to_multiset(),
    ensures
        outcomes_in_order(mints, steps, order1).to_multiset() == outcomes_in_order(
            mints, steps, order2).to_multiset(),
{
    lemma_map_values_multiset(order1, order2, |i: int| outcome_entry(mints[i], steps[i]));
}

} // verus!
