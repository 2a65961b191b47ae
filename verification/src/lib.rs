//! Lifecycle records and aggregate balances for asset-backed fungible tokens.
//!
//! Three instruments are covered: bonds, carbon credits and oil reserves. Each
//! keeps one aggregate record of totals and roles, a set of keyed record
//! stores with the evidence of what happened, and the part of the token
//! ledger's account book that its transitions read and write. Every
//! transition either commits all of its effects or leaves the state as it was.

pub mod bond;
pub mod carbon_credit;
pub mod env;
pub mod error;
pub mod keys;
pub mod ledger;
pub mod math;
pub mod oil_reserve;
pub mod response;
pub mod store;
