//! Analytics over a stream of confirmed ledger updates: each analytic folds the blocks and
//! transactions of a milestone into its state and yields a measurement when the milestone ends.
pub mod activity;
pub mod addresses;
pub mod analytics;
pub mod balances;
pub mod catalog;
pub mod interval;
pub mod laws;
pub mod ledger;
pub mod milestone;
pub mod payload;
pub mod sums;
pub mod sync;
pub mod tangle;
pub mod types;
