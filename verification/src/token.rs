//! The custody ledger: token accounts and the atomic transfer capability.
//!
//! A token account is a balance of one asset held for one owner.  The
//! transfer capability moves a quantity between two accounts all-or-nothing,
//! and only when the authorizer is the owner of the source account.  For a
//! custody sub-account that owner is a derived identity, so only logic that
//! re-derives it — the escrow engine — can authorize an outbound transfer.

use vstd::prelude::*;
use crate::account::AccountId;
use crate::errors::ConstraintViolation;

verus! {

/// A balance of one asset held for one owner.
#[derive(Clone, Copy, Debug, PartialEq, Eq, Structural)]
pub struct TokenAccount {
    /// The identity entitled to move funds out of this account.
    pub owner: AccountId,
    /// The asset type this account holds.
    pub mint: AccountId,
    /// The quantity currently held.
    pub amount: u64,
}

/// Whether a transfer of `amount` from `source` to `dest`, authorized by
/// `authorizer`, is permitted and can complete.
pub open spec fn transfer_allowed(
    source: TokenAccount,
    dest: TokenAccount,
    amount: u64,
    authorizer: AccountId,
) -> bool {
    &&& authorizer == source.owner
    &&& source.mint == dest.mint
    &&& source.amount >= amount
    &&& dest.amount + amount <= u64::MAX
}

/// The violation a refused transfer reports: the first failing check among
/// authorization, asset match, funds and destination capacity.
pub open spec fn transfer_violation(
    source: TokenAccount,
    dest: TokenAccount,
    amount: u64,
    authorizer: AccountId,
) -> ConstraintViolation {
    if authorizer != source.owner {
        ConstraintViolation::UnauthorizedTransfer
    } else if source.mint != dest.mint {
        ConstraintViolation::MintMismatch
    } else if source.amount < amount {
        ConstraintViolation::InsufficientFunds
    } else {
        ConstraintViolation::BalanceOverflow
    }
}

/// Moves `amount` units from `source` to `dest`, all-or-nothing.
///
/// The transfer completes exactly when `authorizer` owns the source account,
/// both accounts hold the same asset, the source holds at least `amount`, and
/// the destination balance does not overflow; otherwise neither account
/// changes.
pub fn transfer(
    amount: u64,
    source: &mut TokenAccount,
    dest: &mut TokenAccount,
    authorizer: AccountId,
) -> (r: Result<(), ConstraintViolation>)
    ensures
        r is Ok <==> transfer_allowed(*old(source), *old(dest), amount, authorizer),
        r is Ok ==> final(source).amount == old(source).amount - amount,
        r is Ok ==> final(dest).amount == old(dest).amount + amount,
        final(source).owner == old(source).owner,
        final(source).mint == old(source).mint,
        final(dest).owner == old(dest).owner,
        final(dest).mint == old(dest).mint,
        r is Err ==> *final(source) == *old(source) && *final(dest) == *old(dest),
        r is Err ==> r == Err::<(), ConstraintViolation>(transfer_violation(
            *old(source), *old(dest), amount, authorizer)),
{
    if authorizer != source.owner {
        return Err(ConstraintViolation::UnauthorizedTransfer);
    }
    if source.mint != dest.mint {
        return Err(ConstraintViolation::MintMismatch);
    }
    if source.amount < amount {
        return Err(ConstraintViolation::InsufficientFunds);
    }
    if dest.amount > u64::MAX - amount {
        return Err(ConstraintViolation::BalanceOverflow);
    }
    source.amount = source.amount - amount;
    dest.amount = dest.amount + amount;
    Ok(())
}

} // verus!
