//! Credit-gated, concurrency-bounded audio conversion core.
//!
//! The library holds the verified heart of a metered conversion service:
//! a ledger of per-user credit balances with one-time referral bonuses,
//! a bounded admission gate limiting simultaneous pipeline runs, the
//! decision logic of the probe/download/transform pipeline, and the
//! coordinator that ties debit, admission, refund and delivery together.

pub mod audio;
pub mod coordinator;
pub mod gate;
pub mod ledger;
pub mod pipeline;
pub mod text;
