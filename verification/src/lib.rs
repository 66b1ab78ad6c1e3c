//! Batch migration pipeline for a collection of digital-asset records.
//!
//! The library resolves, for each item of a batch, the chain of remote
//! account lookups that a migration submission needs, short-circuits any
//! per-item failure into a recorded `Failure` outcome, and aggregates the
//! per-item outcomes of a whole batch into partitioned success and failure
//! lists. Remote reads and the submission itself are performed by the
//! caller; the library decides, step by step, what to fetch next and what
//! each reply means.

pub mod accounts;
pub mod ids;
pub mod outcome;
pub mod batch;
pub mod resolver;
