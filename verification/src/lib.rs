//! A fungible-token ledger with a small escrow-based marketplace on top.
//!
//! `ledger` holds the token ledger itself: balances, allowances, and the
//! state-transition rules for transfers, delegated transfers, and approvals.
//! `token` wraps the ledger as the deployable token module with its fixed
//! initialization parameters. `market` holds the listing table and the
//! purchase guard. `errors` names the reasons an operation aborts, and
//! `sums` provides the summation machinery behind the conservation
//! invariant (the sum of all balances always equals the total supply).

pub mod errors;
pub mod ledger;
pub mod market;
pub mod sums;
pub mod token;
