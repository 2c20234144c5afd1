use vstd::prelude::*;

verus! {

/// Structured error surface of the protocol. Every operation reports failure
/// through one of these variants; the conditions under which each variant is
/// returned are pinned down by the `ensures` clauses of the operations.
#[derive(Clone, Copy, Debug, PartialEq, Eq, Structural)]
pub enum Errors {
    /// The caller is not the pool owner.
    OnlyAuthority,
    /// The admin registry already holds the maximum number of admins.
    MaxAdmins,
    /// The identity is already registered as an admin.
    AdminAlreadyExists,
    /// The identity is not a registered admin, so it cannot be removed.
    AdminInvalid,
    /// The caller is not a registered admin.
    OnlyAdmin,
    /// `lock_pool` was called on a pool that is already locked.
    PoolAlreadyLocked,
    /// `unlock_pool` was called on a pool that is already unlocked.
    PoolAlreadyUnLocked,
    /// A deposit of zero stable tokens was attempted.
    NullDepositNotAllowed,
    /// The pool is locked; the operation is gated by the kill-switch.
    PoolLocked,
    /// The caller does not own the position it tried to operate on.
    InvalidUser,
    /// The loan is not in the stage the operation needs.
    AssetNotVerified,
    /// The borrower already has an asset in the verification pipeline.
    AssetAlreadySentForVerification,
    /// The oracle quote is older than the staleness bound allows.
    StaleOracle,
    /// The oracle quote is unusable (non-positive price or non-negative exponent).
    InvalidPrice,
    /// The verification id does not name the currently open verification round.
    IncorrectVerificationId,
    /// The asset is not waiting in the verification vault as a rejected asset.
    CannotCollectCollateral,
    /// The pool's free liquidity cannot cover the requested draw.
    InsufficientLiquidityToBorrow,
    /// The amount offered does not cover the full outstanding debt.
    RepayAmountNotEnough,
    /// The loan is not active, so there is nothing to repay.
    CannotRepayLoan,
    /// The loan is not active or is still healthy, so it cannot be seized.
    CannotLiquidate,
    /// A checked arithmetic step would have overflowed; nothing was committed.
    Overflow,
}

} // verus!
