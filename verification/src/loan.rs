use vstd::prelude::*;

use crate::AccountId;

verus! {

/// Lifecycle stage of a loan position. A position moves along
/// `Initial -> InFlight -> Verified -> CollateralHeld -> Active` and ends in
/// `Repaid` or `Liquidated`; a rejected verification goes back to `Initial`
/// once the borrower collects the asset.
#[derive(Clone, Copy, Debug, PartialEq, Eq, Structural)]
pub enum LoanStage {
    /// No asset pledged; the asset (if any) is with the borrower.
    Initial,
    /// The asset sits in the verification vault awaiting admin inspection.
    InFlight,
    /// The admin rejected the asset; it waits in the verification vault for
    /// the borrower to collect it.
    Rejected,
    /// The admin confirmed weight and purity; the asset still sits in the
    /// verification vault.
    Verified,
    /// The asset is escrowed in the pool's collateral vault, ready to borrow
    /// against.
    CollateralHeld,
    /// A draw is outstanding.
    Active,
    /// The debt was repaid in full and the asset returned to the borrower.
    Repaid,
    /// The collateral was seized.
    Liquidated,
}

/// Who holds the pledged asset. The custodian's books follow the loan stage
/// deterministically.
#[derive(Clone, Copy, Debug, PartialEq, Eq, Structural)]
pub enum AssetLocation {
    WithBorrower,
    VerificationVault,
    CollateralVault,
    SeizeVault,
}

/// Where the pledged asset sits for a loan in stage `stage`.
pub open spec fn spec_asset_location(stage: LoanStage) -> AssetLocation {
    match stage {
        LoanStage::Initial => AssetLocation::WithBorrower,
        LoanStage::InFlight => AssetLocation::VerificationVault,
        LoanStage::Rejected => AssetLocation::VerificationVault,
        LoanStage::Verified => AssetLocation::VerificationVault,
        LoanStage::CollateralHeld => AssetLocation::CollateralVault,
        LoanStage::Active => AssetLocation::CollateralVault,
        LoanStage::Repaid => AssetLocation::WithBorrower,
        LoanStage::Liquidated => AssetLocation::SeizeVault,
    }
}

/// A stage that admits no further transition.
pub open spec fn spec_is_terminal(stage: LoanStage) -> bool {
    stage == LoanStage::Repaid || stage == LoanStage::Liquidated
}

/// The edges of the loan state machine. Every operation that changes a
/// loan's stage moves it along exactly one of these edges.
pub open spec fn spec_stage_step_allowed(from: LoanStage, to: LoanStage) -> bool {
    ||| (from == LoanStage::Initial && to == LoanStage::InFlight)
    ||| (from == LoanStage::InFlight && to == LoanStage::Verified)
    ||| (from == LoanStage::InFlight && to == LoanStage::Rejected)
    ||| (from == LoanStage::Rejected && to == LoanStage::Initial)
    ||| (from == LoanStage::Verified && to == LoanStage::CollateralHeld)
    ||| (from == LoanStage::CollateralHeld && to == LoanStage::Active)
    ||| (from == LoanStage::Active && to == LoanStage::Repaid)
    ||| (from == LoanStage::Active && to == LoanStage::Liquidated)
}

/// Once a loan is repaid or liquidated, no transition leaves that stage.
pub proof fn lemma_terminal_stage_has_no_step(from: LoanStage, to: LoanStage)
    requires
        spec_is_terminal(from),
    ensures
        !spec_stage_step_allowed(from, to),
{
}

/// Per-borrower loan record: verification state, physical parameters of the
/// pledged gold asset, and the debt snapshot taken at draw-down.
pub struct LoanState {
    /// The borrower; the only identity authorized on this position's
    /// lifecycle actions.
    pub borrower: AccountId,
    /// Handle of the pledged asset.
    pub nft_mint: AccountId,
    /// Monotonic counter naming the current verification round; bumped each
    /// time an asset is sent for verification.
    pub verification_id: u32,
    /// Lifecycle stage.
    pub stage: LoanStage,
    /// Weight of the asset in grams, scaled by 10^6; written by the admin at
    /// verification.
    pub weight_in_grams: u64,
    /// Purity in bps (10_000 = pure); written by the admin at verification.
    pub purity_in_bps: u16,
    /// Stable tokens drawn and not yet repaid.
    pub principal_borrowed: u64,
    /// One-shot fee owed on top of the principal.
    pub origination_fee: u64,
    /// Interest accrued and booked so far.
    pub interest_accrued: u64,
    /// APR locked at the moment of borrow, in bps.
    pub borrow_apr_bps: u16,
    /// Collateral valuation snapshot taken at draw-down (or written by an
    /// admin override).
    pub collateral_value_usd: u64,
    /// Timestamp up to which interest has been booked.
    pub last_interest_accrued: i64,
}

impl LoanState {
    /// A fresh position for `borrower` pledging nothing yet.
    pub fn new(borrower: AccountId, nft_mint: AccountId) -> (r: LoanState)
        ensures
            (r == LoanState {
                borrower,
                nft_mint,
                verification_id: 0u32,
                stage: LoanStage::Initial,
                weight_in_grams: 0u64,
                purity_in_bps: 0u16,
                principal_borrowed: 0u64,
                origination_fee: 0u64,
                interest_accrued: 0u64,
                borrow_apr_bps: 0u16,
                collateral_value_usd: 0u64,
                last_interest_accrued: 0i64,
            }),
    {
        LoanState {
            borrower,
            nft_mint,
            verification_id: 0,
            stage: LoanStage::Initial,
            weight_in_grams: 0,
            purity_in_bps: 0,
            principal_borrowed: 0,
            origination_fee: 0,
            interest_accrued: 0,
            borrow_apr_bps: 0,
            collateral_value_usd: 0,
            last_interest_accrued: 0,
        }
    }

    /// Which vault (or owner) currently holds the pledged asset.
    pub fn current_asset_location(&self) -> (r: AssetLocation)
        ensures
            r == spec_asset_location(self.stage),
    {
        match self.stage {
            LoanStage::Initial => AssetLocation::WithBorrower,
            LoanStage::InFlight => AssetLocation::VerificationVault,
            LoanStage::Rejected => AssetLocation::VerificationVault,
            LoanStage::Verified => AssetLocation::VerificationVault,
            LoanStage::CollateralHeld => AssetLocation::CollateralVault,
            LoanStage::Active => AssetLocation::CollateralVault,
            LoanStage::Repaid => AssetLocation::WithBorrower,
            LoanStage::Liquidated => AssetLocation::SeizeVault,
        }
    }

    /// Whether the currently pledged asset passed admin verification: true
    /// from the admin's confirmation until the loan closes.
    pub fn is_asset_verified(&self) -> (r: bool)
        ensures
            r == (self.stage == LoanStage::Verified || self.stage == LoanStage::CollateralHeld
                || self.stage == LoanStage::Active),
    {
        match self.stage {
            LoanStage::Verified => true,
            LoanStage::CollateralHeld => true,
            LoanStage::Active => true,
            _ => false,
        }
    }
}

} // verus!
