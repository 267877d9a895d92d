//! The error taxonomy of the settlement engine.
//!
//! Every error aborts the whole operation: the engine issues no transfer
//! before all validations for that operation have passed, so a failed call
//! leaves every balance exactly as it was.

use vstd::prelude::*;

verus! {

/// Why a settlement operation was refused.
#[derive(Clone, Copy, Debug, PartialEq, Eq, Structural)]
pub enum Error {
    /// The initiating account did not present an authorization scoped to
    /// exactly the parameters the operation acts on.
    AuthorizationError,
    /// The sending account's balance of the asset is below the amount.
    InsufficientFundsError,
    /// The engine's own reserve of the target asset cannot cover the payout.
    InsufficientLiquidityError,
    /// Deducting the fee would leave a non-positive payout.
    FeeExceedsAmountError,
    /// The ledger itself rejected a transfer (negative amount, or a balance
    /// below the amount where the engine makes no pre-check of its own).
    TransferError,
}

} // verus!
