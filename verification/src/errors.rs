//! The error taxonomy of the escrow engine.
//!
//! Every failure is a local, synchronous validation failure: the operation
//! has no effect at all, and the caller must resubmit with corrected inputs
//! or wait.

use vstd::prelude::*;

verus! {

/// The validation failures of the time and argument checks that the
/// transition bodies perform.
#[derive(Clone, Copy, Debug, PartialEq, Eq, Structural)]
pub enum TimedPaymentError {
    /// The operation required the current time to be before `expiry`, but it
    /// has passed.
    TimeLimitAlreadyExpired,
    /// `withdraw` required the current time to be at or after `expiry`.
    TimeLimitNotExpired,
    /// Reserved for amount validation; no transition currently enforces a
    /// positive amount, so a zero-amount escrow is a degenerate but valid
    /// no-op custody.
    InvalidAmount,
    /// `extend` was given a value not strictly after the current `expiry`.
    InvalidNewExpiry,
    /// `update_system` was given the null identity.
    InvalidSystem,
}

/// The binding and authorization failures: a caller, record linkage, custody
/// derivation or token account did not match what the transition demands.
/// These are distinct from the validation failures of `TimedPaymentError`.
#[derive(Clone, Copy, Debug, PartialEq, Eq, Structural)]
pub enum ConstraintViolation {
    /// The payment record is already in a terminal status.
    StatusNotActive,
    /// A record linkage does not hold: the signer or a bound account is not
    /// the identity the payment record names for its role.
    BindingMismatch,
    /// The presented custody sub-account is not the one derived from this
    /// record's manager and payment id, or holds the wrong asset.
    CustodyMismatch,
    /// A party's token account is owned by the wrong identity or holds the
    /// wrong asset.
    TokenAccountMismatch,
    /// A transfer was requested by an identity that does not own the source
    /// account.
    UnauthorizedTransfer,
    /// A transfer was requested between accounts of different assets.
    MintMismatch,
    /// The source account holds less than the requested quantity.
    InsufficientFunds,
    /// The destination account cannot receive the quantity without
    /// overflowing its balance.
    BalanceOverflow,
}

/// The failure of one transition attempt: either a validation failure of the
/// transition body, or a constraint violation of the binding layer.
#[derive(Clone, Copy, Debug, PartialEq, Eq, Structural)]
pub enum TransitionError {
    Validation(TimedPaymentError),
    Constraint(ConstraintViolation),
}

} // verus!
