//! The account context of each transition: the records, identities and token
//! accounts that the host resolves and hands to the escrow engine, with the
//! signer of the call.
//!
//! The engine treats every context as untrusted input: each transition
//! re-checks the record linkages, the custody derivation and the token
//! account bindings before any side effect.

use vstd::prelude::*;
use crate::account::AccountId;
use crate::state::{Payment, PaymentManager};
use crate::token::TokenAccount;

verus! {

/// Accounts of `initialize`: the manager slot to fill and the signer that
/// becomes its authority.
#[derive(Clone, Copy, Debug, PartialEq, Eq, Structural)]
pub struct Initialize {
    /// The freshly allocated manager singleton; every field is assigned.
    pub manager: PaymentManager,
    /// The signer of the call.
    pub authority: AccountId,
}

/// Accounts of `update_system`: the manager and the signer claiming to be
/// its authority.
#[derive(Clone, Copy, Debug, PartialEq, Eq, Structural)]
pub struct UpdateSystem {
    pub manager: PaymentManager,
    /// The signer of the call.
    pub authority: AccountId,
}

/// Accounts of `create_payment`.
#[derive(Clone, Copy, Debug, PartialEq, Eq, Structural)]
pub struct CreatePayment {
    pub manager: PaymentManager,
    /// The address of the manager deployment, from which the custody
    /// authority of the new payment is derived.
    pub manager_id: u64,
    /// The freshly allocated payment record; every field is assigned.
    pub payment: Payment,
    /// The sender, signer of the call.
    pub from: AccountId,
    /// The recipient.
    pub to: AccountId,
    /// The asset type to escrow.
    pub mint: AccountId,
    /// The sender's token account, source of the deposit.
    pub from_token_acc: TokenAccount,
    /// The freshly provisioned custody sub-account of the new payment.
    pub deposit_token_acc: TokenAccount,
}

/// Accounts of `invalidate`.
#[derive(Clone, Copy, Debug, PartialEq, Eq, Structural)]
pub struct Invalidate {
    pub manager: PaymentManager,
    /// The address of the manager deployment, for custody re-derivation.
    pub manager_id: u64,
    pub payment: Payment,
    /// The sender, signer of the call.
    pub from: AccountId,
    /// The asset type of the payment.
    pub mint: AccountId,
    /// The payment's custody sub-account.
    pub deposit_token_acc: TokenAccount,
    /// The arbiter's token account, destination of the funds.
    pub system_token_acc: TokenAccount,
}

/// Accounts of `withdraw`.
#[derive(Clone, Copy, Debug, PartialEq, Eq, Structural)]
pub struct Withdraw {
    pub manager: PaymentManager,
    /// The address of the manager deployment, for custody re-derivation.
    pub manager_id: u64,
    pub payment: Payment,
    /// The recipient, signer of the call.
    pub to: AccountId,
    /// The asset type of the payment.
    pub mint: AccountId,
    /// The payment's custody sub-account.
    pub deposit_token_acc: TokenAccount,
    /// The recipient's token account, destination of the funds.
    pub to_token_acc: TokenAccount,
}

/// Accounts of `reject`.
#[derive(Clone, Copy, Debug, PartialEq, Eq, Structural)]
pub struct Reject {
    pub manager: PaymentManager,
    /// The address of the manager deployment, for custody re-derivation.
    pub manager_id: u64,
    pub payment: Payment,
    /// The sender, refunded by the rejection.
    pub from: AccountId,
    /// The recipient, signer of the call.
    pub to: AccountId,
    /// The asset type of the payment.
    pub mint: AccountId,
    /// The payment's custody sub-account.
    pub deposit_token_acc: TokenAccount,
    /// The sender's token account, destination of the refund.
    pub from_token_acc: TokenAccount,
}

/// Accounts of `extend`.
#[derive(Clone, Copy, Debug, PartialEq, Eq, Structural)]
pub struct Extend {
    pub manager: PaymentManager,
    pub payment: Payment,
    /// The recipient, signer of the call.
    pub to: AccountId,
}

/// Accounts of `finalize`.
#[derive(Clone, Copy, Debug, PartialEq, Eq, Structural)]
pub struct Finalize {
    pub manager: PaymentManager,
    /// The address of the manager deployment, for custody re-derivation.
    pub manager_id: u64,
    pub payment: Payment,
    /// The sender, signer of the call.
    pub from: AccountId,
    /// The recipient.
    pub to: AccountId,
    /// The asset type of the payment.
    pub mint: AccountId,
    /// The payment's custody sub-account.
    pub deposit_token_acc: TokenAccount,
    /// The recipient's token account, destination of the funds.
    pub to_token_acc: TokenAccount,
}

} // verus!
