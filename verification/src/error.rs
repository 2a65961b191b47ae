//! The failures a transition or a query can end in.

use vstd::prelude::*;

verus! {

/// Why an operation was refused. A refused operation leaves the state untouched.
#[derive(Clone, Copy, Debug, PartialEq, Eq, Structural)]
pub enum ContractError {
    /// The caller does not hold the role that the transition asks for.
    Unauthorized,
    /// No record is stored under the given identifier.
    NotFound,
    /// The holder's ledger balance is below the amount to be removed.
    InsufficientFunds { needed: u128, available: u128 },
    /// The aggregate's available capacity is below the amount to be removed.
    CapacityExceeded { requested: u128, available: u128 },
    /// A total would leave the range of its type, or drop below zero.
    Overflow,
    /// The aggregate record has not been stored yet.
    NotInitialized,
}

} // verus!
