//! Per-item outcomes and the batch-level result aggregator.
//!
//! Every item of a batch produces exactly one [`Outcome`]: either a
//! `Success` carrying the transaction signature of its submission, or a
//! `Failure` carrying a human-readable cause. The [`ResultAggregator`]
//! collects outcomes one by one and partitions them into the two lists of
//! a [`BatchResult`].

use vstd::prelude::*;

verus! {

/// A successfully migrated item: its mint address and the signature of
/// the transaction that migrated it.
#[derive(Debug, PartialEq, Eq)]
pub struct MigratedMint {
    pub sig: String,
    pub item_mint: String,
}

/// An item that could not be migrated: its mint address and the cause.
#[derive(Debug, PartialEq, Eq)]
pub struct MigrationError {
    pub mint: String,
    pub error: String,
}

/// The single outcome of one item's resolution-and-submission chain.
#[derive(Debug, PartialEq, Eq)]
pub enum Outcome {
    Success { mint: String, sig: String },
    Failure { mint: String, error: String },
}

/// The two ordered partitions of a finished batch.
#[derive(Debug, PartialEq, Eq)]
pub struct BatchResult {
    pub migrated: Vec<MigratedMint>,
    pub failed: Vec<MigrationError>,
}

/// View of a success list as (mint, signature) pairs of character sequences.
pub open spec fn migrated_entries(v: Seq<MigratedMint>) -> Seq<(Seq<char>, Seq<char>)> {
    v.map_values(|m: MigratedMint| (m.item_mint@, m.sig@))
}

/// View of a failure list as (mint, error) pairs of character sequences.
pub open spec fn failed_entries(v: Seq<MigrationError>) -> Seq<(Seq<char>, Seq<char>)> {
    v.map_values(|m: MigrationError| (m.mint@, m.error@))
}

/// Thread-safe append-only collector of per-item outcomes.
///
/// In a concurrent driver it is the one mutably shared resource and must
/// sit behind mutual exclusion; its own contract is purely sequential:
/// each `record` appends exactly one entry to exactly one of the two
/// lists, and `finalize` hands both lists over unchanged.
pub struct ResultAggregator {
    migrated: Vec<MigratedMint>,
    failed: Vec<MigrationError>,
}

impl ResultAggregator {
    /// The successes recorded so far, in completion order.
    pub closed spec fn migrated_view(&self) -> Seq<MigratedMint> {
        self.migrated@
    }

    /// The failures recorded so far, in completion order.
    pub closed spec fn failed_view(&self) -> Seq<MigrationError> {
        self.failed@
    }

    /// An empty aggregator: nothing recorded yet.
    pub fn new() -> (agg: ResultAggregator)
        ensures
            agg.migrated_view() == Seq::<MigratedMint>::empty(),
            agg.failed_view() == Seq::<MigrationError>::empty(),
    {
        let agg = ResultAggregator { migrated: Vec::new(), failed: Vec::new() };
        proof {
            assert(agg.migrated@ =~= Seq::<MigratedMint>::empty());
            assert(agg.failed@ =~= Seq::<MigrationError>::empty());
        }
        agg
    }

    /// Record the outcome of one completed item: a success is appended to
    /// the success list, a failure to the failure list, and the other
    /// list is left untouched.
    pub fn record(&mut self, outcome: Outcome)
        ensures
            (outcome matches Outcome::Success { mint, sig } ==> {
                &&& final(self).migrated_view() == old(self).migrated_view().push(
                    (MigratedMint { sig: sig, item_mint: mint }),
                )
                &&& final(self).failed_view() == old(self).failed_view()
            }),
            (outcome matches Outcome::Failure { mint, error } ==> {
                &&& final(self).failed_view() == old(self).failed_view().push(
                    (MigrationError { mint: mint, error: error }),
                )
                &&& final(self).migrated_view() == old(self).migrated_view()
            }),
    {
        match outcome {
            Outcome::Success { mint, sig } => {
                self.migrated.push(MigratedMint { sig: sig, item_mint: mint });
            },
            Outcome::Failure { mint, error } => {
                self.failed.push(MigrationError { mint: mint, error: error });
            },
        }
    }

    /// Hand the two partitions over once no writer remains.
    pub fn finalize(self) -> (r: BatchResult)
        ensures
            r.migrated@ == self.migrated_view(),
            r.failed@ == self.failed_view(),
    {
        BatchResult { migrated: self.migrated, failed: self.failed }
    }
}

} // verus!
