//! The error kinds an operation can abort with.
use vstd::prelude::*;

verus! {

/// Why an operation was rejected. Every failure is all-or-nothing: the
/// operation that returns one of these leaves all state exactly as it was.
#[derive(Clone, Copy, Debug, PartialEq, Eq, Structural)]
pub enum Error {
    /// The ledger was already initialized; initialization happens exactly once.
    AlreadyInitialized,
    /// The debited account holds fewer token units than the transfer asks for.
    InsufficientBalance,
    /// The spender's allowance from the owner is smaller than the requested amount.
    InsufficientAllowance,
    /// A purchase named a token identity with no active listing.
    ListingNotFound,
    /// The payment attached to a purchase fails the listed-price guard.
    InsufficientPayment,
}

} // verus!
