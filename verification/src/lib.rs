use vstd::prelude::*;

pub mod borrowing;
pub mod errors;
pub mod laws;
pub mod lender;
pub mod lending;
pub mod liquidation;
pub mod repayment;
pub mod loan;
pub mod oracle;
pub mod pool;
pub mod registry;
pub mod valuation;

verus! {

/// Opaque handle for a chain identity (a lender, borrower, admin, vault or
/// asset). The engine only ever compares identities for equality; resolving
/// them to real addresses is the host's concern.
pub type AccountId = u64;

} // verus!
