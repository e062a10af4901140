//! The escrow engine: the transition operations of the payment state
//! machine.
//!
//! Every transition validates, in order, the record linkages of its context,
//! the custody derivation, the status precondition, the caller role and the
//! time condition; only when all hold does it apply its side effects — one
//! custody transfer and one status write — together.  On any failure the
//! context is left exactly as it was.

use vstd::prelude::*;
use crate::account::{custody_authority, spec_custody_authority, AccountId};
use crate::contexts::{
    CreatePayment,
    Extend,
    Finalize,
    Initialize,
    Invalidate,
    Reject,
    UpdateSystem,
    Withdraw,
};
use crate::errors::{ConstraintViolation, TimedPaymentError, TransitionError};
use crate::state::{Payment, PaymentManager, PaymentStatus};
use crate::token::{transfer, TokenAccount};

verus! {

/// Creates the manager singleton: the signer becomes its authority, the
/// counter starts at zero and the arbiter is the given identity.
///
/// Succeeds exactly when the arbiter identity is not null: the manager's
/// invariant that its arbiter is never the null identity is established
/// here and kept by `update_system`.  On failure the manager is unchanged.
/// The host guarantees the singleton did not exist before; re-initialization
/// is a distinct, rejected operation at the host's allocation layer.
pub fn initialize(ctx: &mut Initialize, system: AccountId) -> (r: Result<(), TransitionError>)
    ensures
        r is Ok <==> system != AccountId::Null,
        r is Ok ==> final(ctx).manager == (PaymentManager {
            authority: old(ctx).authority,
            payment_count: 0,
            system,
        }),
        r is Err ==> *final(ctx) == *old(ctx),
        r is Err ==> r == Err::<(), TransitionError>(TransitionError::Validation(
            TimedPaymentError::InvalidSystem)),
        final(ctx).authority == old(ctx).authority,
{
    if system == AccountId::Null {
        return Err(TransitionError::Validation(TimedPaymentError::InvalidSystem));
    }
    ctx.manager.authority = ctx.authority;
    ctx.manager.payment_count = 0;
    ctx.manager.system = system;
    Ok(())
}

/// Whether `update_system` succeeds: the signer is the manager's authority
/// and the new arbiter is not the null identity.
pub open spec fn update_system_allowed(ctx: UpdateSystem, new_system: AccountId) -> bool {
    &&& ctx.manager.authority == ctx.authority
    &&& new_system != AccountId::Null
}

/// The error a refused `update_system` reports.
pub open spec fn update_system_error(ctx: UpdateSystem, new_system: AccountId) -> TransitionError {
    if ctx.manager.authority != ctx.authority {
        TransitionError::Constraint(ConstraintViolation::BindingMismatch)
    } else {
        TransitionError::Validation(TimedPaymentError::InvalidSystem)
    }
}

/// Overwrites the manager's arbiter identity.
///
/// Succeeds exactly when the signer is the manager's authority and the new
/// identity is not null; on failure the manager is unchanged.
pub fn update_system(ctx: &mut UpdateSystem, new_system: AccountId) -> (r: Result<
    (),
    TransitionError,
>)
    ensures
        r is Ok <==> update_system_allowed(*old(ctx), new_system),
        r is Ok ==> final(ctx).manager == (PaymentManager {
            system: new_system,
            ..old(ctx).manager
        }),
        r is Err ==> *final(ctx) == *old(ctx),
        r is Err ==> r == Err::<(), TransitionError>(update_system_error(*old(ctx), new_system)),
        final(ctx).authority == old(ctx).authority,
        final(ctx).manager.authority == old(ctx).manager.authority,
        final(ctx).manager.payment_count == old(ctx).manager.payment_count,
{
    if ctx.manager.authority != ctx.authority {
        return Err(TransitionError::Constraint(ConstraintViolation::BindingMismatch));
    }
    if new_system == AccountId::Null {
        return Err(TransitionError::Validation(TimedPaymentError::InvalidSystem));
    }
    ctx.manager.system = new_system;
    Ok(())
}

/// The manager after one successful `create_payment`: the counter advances
/// by one, nothing else changes.
pub open spec fn manager_after_create(m: PaymentManager) -> PaymentManager {
    PaymentManager { payment_count: (m.payment_count + 1) as u64, ..m }
}

/// The account bindings `create_payment` demands of its context: the signer
/// owns the funding account, the funding account holds the escrowed asset,
/// and the custody sub-account is the empty, freshly provisioned account of
/// the payment about to be created.
pub open spec fn create_payment_constraints(ctx: CreatePayment) -> bool {
    &&& ctx.from_token_acc.owner == ctx.from
    &&& ctx.from_token_acc.mint == ctx.mint
    &&& ctx.deposit_token_acc.owner == spec_custody_authority(
        ctx.manager_id,
        ctx.manager.payment_count,
    )
    &&& ctx.deposit_token_acc.mint == ctx.mint
    &&& ctx.deposit_token_acc.amount == 0
}

/// Whether `create_payment` succeeds: the bindings hold, the expiry is
/// strictly in the future, and the sender can fund the escrow.
pub open spec fn create_payment_allowed(
    ctx: CreatePayment,
    amount: u64,
    expiry: i64,
    now: i64,
) -> bool {
    &&& create_payment_constraints(ctx)
    &&& expiry > now
    &&& ctx.from_token_acc.amount >= amount
}

/// The error a refused `create_payment` reports: the first failing check.
pub open spec fn create_payment_error(
    ctx: CreatePayment,
    amount: u64,
    expiry: i64,
    now: i64,
) -> TransitionError {
    if ctx.from_token_acc.owner != ctx.from || ctx.from_token_acc.mint != ctx.mint {
        TransitionError::Constraint(ConstraintViolation::TokenAccountMismatch)
    } else if ctx.deposit_token_acc.owner != spec_custody_authority(
        ctx.manager_id,
        ctx.manager.payment_count,
    ) || ctx.deposit_token_acc.mint != ctx.mint || ctx.deposit_token_acc.amount != 0 {
        TransitionError::Constraint(ConstraintViolation::CustodyMismatch)
    } else if expiry <= now {
        TransitionError::Validation(TimedPaymentError::TimeLimitAlreadyExpired)
    } else {
        TransitionError::Constraint(ConstraintViolation::InsufficientFunds)
    }
}

/// The context after one successful `create_payment`: the record is filled
/// and Active, the custody sub-account holds exactly `amount`, the sender's
/// account is debited by `amount`, and the counter advances.
pub open spec fn create_payment_post(
    pre: CreatePayment,
    amount: u64,
    expiry: i64,
) -> CreatePayment {
    CreatePayment {
        manager: manager_after_create(pre.manager),
        payment: Payment {
            from: pre.from,
            to: pre.to,
            mint: pre.mint,
            amount,
            expiry,
            status: PaymentStatus::Active,
            payment_id: pre.manager.payment_count,
        },
        from_token_acc: TokenAccount {
            amount: (pre.from_token_acc.amount - amount) as u64,
            ..pre.from_token_acc
        },
        deposit_token_acc: TokenAccount { amount, ..pre.deposit_token_acc },
        ..pre
    }
}

/// Creates a new escrow: binds a fresh payment record to the next payment
/// id, moves `amount` units from the sender into the record's dedicated
/// custody sub-account, and advances the manager's counter.
///
/// Succeeds exactly when the account bindings hold, `expiry` is strictly
/// after `now`, and the sender's account holds at least `amount`; the
/// returned id is the record's payment id.  On failure nothing changes.
/// A zero `amount` is a degenerate but valid escrow.
pub fn create_payment(ctx: &mut CreatePayment, amount: u64, expiry: i64, now: i64) -> (r: Result<
    u64,
    TransitionError,
>)
    requires
        old(ctx).manager.payment_count < u64::MAX,
    ensures
        r is Ok <==> create_payment_allowed(*old(ctx), amount, expiry, now),
        r is Ok ==> *final(ctx) == create_payment_post(*old(ctx), amount, expiry),
        r is Ok ==> r == Ok::<u64, TransitionError>(old(ctx).manager.payment_count),
        r is Err ==> *final(ctx) == *old(ctx),
        r is Err ==> r == Err::<u64, TransitionError>(create_payment_error(
            *old(ctx), amount, expiry, now)),
{
    if ctx.from_token_acc.owner != ctx.from || ctx.from_token_acc.mint != ctx.mint {
        return Err(TransitionError::Constraint(ConstraintViolation::TokenAccountMismatch));
    }
    let custody = custody_authority(ctx.manager_id, ctx.manager.payment_count);
    if ctx.deposit_token_acc.owner != custody || ctx.deposit_token_acc.mint != ctx.mint
        || ctx.deposit_token_acc.amount != 0 {
        return Err(TransitionError::Constraint(ConstraintViolation::CustodyMismatch));
    }
    if expiry <= now {
        return Err(TransitionError::Validation(TimedPaymentError::TimeLimitAlreadyExpired));
    }
    match transfer(amount, &mut ctx.from_token_acc, &mut ctx.deposit_token_acc, ctx.from) {
        Ok(()) => {},
        Err(v) => {
            return Err(TransitionError::Constraint(v));
        },
    }
    ctx.payment.from = ctx.from;
    ctx.payment.to = ctx.to;
    ctx.payment.mint = ctx.mint;
    ctx.payment.amount = amount;
    ctx.payment.expiry = expiry;
    ctx.payment.status = PaymentStatus::Active;
    ctx.payment.payment_id = ctx.manager.payment_count;
    ctx.manager.payment_count = ctx.manager.payment_count + 1;
    Ok(ctx.payment.payment_id)
}

/// Pays the full escrowed amount out of a payment's custody sub-account.
///
/// The outbound transfer is authorized by re-deriving the custody authority
/// from the manager deployment and the record's own payment id — never from a
/// stored secret — so only engine logic holding the matching record can move
/// the funds.
fn payout_tokens(
    payment: &Payment,
    deposit_account: &mut TokenAccount,
    recipient: &mut TokenAccount,
    manager_id: u64,
) -> (r: Result<(), ConstraintViolation>)
    ensures
        r is Ok <==> crate::token::transfer_allowed(
            *old(deposit_account),
            *old(recipient),
            payment.amount,
            spec_custody_authority(manager_id, payment.payment_id),
        ),
        r is Ok ==> final(deposit_account).amount == old(deposit_account).amount
            - payment.amount,
        r is Ok ==> final(recipient).amount == old(recipient).amount + payment.amount,
        final(deposit_account).owner == old(deposit_account).owner,
        final(deposit_account).mint == old(deposit_account).mint,
        final(recipient).owner == old(recipient).owner,
        final(recipient).mint == old(recipient).mint,
        r is Err ==> *final(deposit_account) == *old(deposit_account) && *final(recipient)
            == *old(recipient),
        r is Err ==> r == Err::<(), ConstraintViolation>(crate::token::transfer_violation(
            *old(deposit_account),
            *old(recipient),
            payment.amount,
            spec_custody_authority(manager_id, payment.payment_id),
        )),
{
    let authority = custody_authority(manager_id, payment.payment_id);
    transfer(payment.amount, deposit_account, recipient, authority)
}

/// The account bindings `invalidate` demands: an Active record whose sender
/// signed the call, the record's asset, its derived custody sub-account, and
/// the arbiter's token account as destination.
pub open spec fn invalidate_constraints(ctx: Invalidate) -> bool {
    &&& ctx.payment.status is Active
    &&& ctx.payment.from == ctx.from
    &&& ctx.payment.mint == ctx.mint
    &&& ctx.deposit_token_acc.mint == ctx.mint
    &&& ctx.deposit_token_acc.owner == spec_custody_authority(
        ctx.manager_id,
        ctx.payment.payment_id,
    )
    &&& ctx.system_token_acc.owner == ctx.manager.system
    &&& ctx.system_token_acc.mint == ctx.mint
}

/// Whether `invalidate` succeeds: the bindings hold, the expiry has not
/// passed, and the payout can complete.
pub open spec fn invalidate_allowed(ctx: Invalidate, now: i64) -> bool {
    &&& invalidate_constraints(ctx)
    &&& now < ctx.payment.expiry
    &&& ctx.deposit_token_acc.amount >= ctx.payment.amount
    &&& ctx.system_token_acc.amount + ctx.payment.amount <= u64::MAX
}

/// The error a refused `invalidate` reports: the first failing check.
pub open spec fn invalidate_error(ctx: Invalidate, now: i64) -> TransitionError {
    if ctx.payment.status !is Active {
        TransitionError::Constraint(ConstraintViolation::StatusNotActive)
    } else if ctx.payment.from != ctx.from || ctx.payment.mint != ctx.mint {
        TransitionError::Constraint(ConstraintViolation::BindingMismatch)
    } else if ctx.deposit_token_acc.mint != ctx.mint || ctx.deposit_token_acc.owner
        != spec_custody_authority(ctx.manager_id, ctx.payment.payment_id) {
        TransitionError::Constraint(ConstraintViolation::CustodyMismatch)
    } else if ctx.system_token_acc.owner != ctx.manager.system || ctx.system_token_acc.mint
        != ctx.mint {
        TransitionError::Constraint(ConstraintViolation::TokenAccountMismatch)
    } else if now >= ctx.payment.expiry {
        TransitionError::Validation(TimedPaymentError::TimeLimitAlreadyExpired)
    } else if ctx.deposit_token_acc.amount < ctx.payment.amount {
        TransitionError::Constraint(ConstraintViolation::InsufficientFunds)
    } else {
        TransitionError::Constraint(ConstraintViolation::BalanceOverflow)
    }
}

/// The context after one successful `invalidate`: the record is terminal and
/// the full amount has moved from custody to the arbiter.
pub open spec fn invalidate_post(pre: Invalidate) -> Invalidate {
    Invalidate {
        payment: Payment { status: PaymentStatus::Invalidated, ..pre.payment },
        deposit_token_acc: TokenAccount {
            amount: (pre.deposit_token_acc.amount - pre.payment.amount) as u64,
            ..pre.deposit_token_acc
        },
        system_token_acc: TokenAccount {
            amount: (pre.system_token_acc.amount + pre.payment.amount) as u64,
            ..pre.system_token_acc
        },
        ..pre
    }
}

/// The sender abandons an Active escrow before its expiry; the funds go to
/// the arbiter ("system") for dispute handling and the record becomes
/// Invalidated.
///
/// Succeeds exactly when the bindings hold, `now` is strictly before the
/// expiry, and the payout can complete.  On failure nothing changes.
pub fn invalidate(ctx: &mut Invalidate, now: i64) -> (r: Result<(), TransitionError>)
    ensures
        r is Ok <==> invalidate_allowed(*old(ctx), now),
        r is Ok ==> *final(ctx) == invalidate_post(*old(ctx)),
        r is Err ==> *final(ctx) == *old(ctx),
        r is Err ==> r == Err::<(), TransitionError>(invalidate_error(*old(ctx), now)),
{
    if ctx.payment.status != PaymentStatus::Active {
        return Err(TransitionError::Constraint(ConstraintViolation::StatusNotActive));
    }
    if ctx.payment.from != ctx.from || ctx.payment.mint != ctx.mint {
        return Err(TransitionError::Constraint(ConstraintViolation::BindingMismatch));
    }
    let custody = custody_authority(ctx.manager_id, ctx.payment.payment_id);
    if ctx.deposit_token_acc.mint != ctx.mint || ctx.deposit_token_acc.owner != custody {
        return Err(TransitionError::Constraint(ConstraintViolation::CustodyMismatch));
    }
    if ctx.system_token_acc.owner != ctx.manager.system || ctx.system_token_acc.mint != ctx.mint {
        return Err(TransitionError::Constraint(ConstraintViolation::TokenAccountMismatch));
    }
    if now >= ctx.payment.expiry {
        return Err(TransitionError::Validation(TimedPaymentError::TimeLimitAlreadyExpired));
    }
    match payout_tokens(
        &ctx.payment,
        &mut ctx.deposit_token_acc,
        &mut ctx.system_token_acc,
        ctx.manager_id,
    ) {
        Ok(()) => {},
        Err(v) => {
            return Err(TransitionError::Constraint(v));
        },
    }
    ctx.payment.status = PaymentStatus::Invalidated;
    Ok(())
}

/// The account bindings `withdraw` demands: an Active record whose recipient
/// signed the call, the record's asset, its derived custody sub-account, and
/// the recipient's token account as destination.
pub open spec fn withdraw_constraints(ctx: Withdraw) -> bool {
    &&& ctx.payment.status is Active
    &&& ctx.payment.to == ctx.to
    &&& ctx.payment.mint == ctx.mint
    &&& ctx.deposit_token_acc.mint == ctx.mint
    &&& ctx.deposit_token_acc.owner == spec_custody_authority(
        ctx.manager_id,
        ctx.payment.payment_id,
    )
    &&& ctx.to_token_acc.owner == ctx.to
    &&& ctx.to_token_acc.mint == ctx.mint
}

/// Whether `withdraw` succeeds: the bindings hold, the expiry has fully
/// elapsed, and the payout can complete.
pub open spec fn withdraw_allowed(ctx: Withdraw, now: i64) -> bool {
    &&& withdraw_constraints(ctx)
    &&& now >= ctx.payment.expiry
    &&& ctx.deposit_token_acc.amount >= ctx.payment.amount
    &&& ctx.to_token_acc.amount + ctx.payment.amount <= u64::MAX
}

/// The error a refused `withdraw` reports: the first failing check.
pub open spec fn withdraw_error(ctx: Withdraw, now: i64) -> TransitionError {
    if ctx.payment.status !is Active {
        TransitionError::Constraint(ConstraintViolation::StatusNotActive)
    } else if ctx.payment.to != ctx.to || ctx.payment.mint != ctx.mint {
        TransitionError::Constraint(ConstraintViolation::BindingMismatch)
    } else if ctx.deposit_token_acc.mint != ctx.mint || ctx.deposit_token_acc.owner
        != spec_custody_authority(ctx.manager_id, ctx.payment.payment_id) {
        TransitionError::Constraint(ConstraintViolation::CustodyMismatch)
    } else if ctx.to_token_acc.owner != ctx.to || ctx.to_token_acc.mint != ctx.mint {
        TransitionError::Constraint(ConstraintViolation::TokenAccountMismatch)
    } else if now < ctx.payment.expiry {
        TransitionError::Validation(TimedPaymentError::TimeLimitNotExpired)
    } else if ctx.deposit_token_acc.amount < ctx.payment.amount {
        TransitionError::Constraint(ConstraintViolation::InsufficientFunds)
    } else {
        TransitionError::Constraint(ConstraintViolation::BalanceOverflow)
    }
}

/// The context after one successful `withdraw`: the record is terminal and
/// the full amount has moved from custody to the recipient.
pub open spec fn withdraw_post(pre: Withdraw) -> Withdraw {
    Withdraw {
        payment: Payment { status: PaymentStatus::Withdrawn, ..pre.payment },
        deposit_token_acc: TokenAccount {
            amount: (pre.deposit_token_acc.amount - pre.payment.amount) as u64,
            ..pre.deposit_token_acc
        },
        to_token_acc: TokenAccount {
            amount: (pre.to_token_acc.amount + pre.payment.amount) as u64,
            ..pre.to_token_acc
        },
        ..pre
    }
}

/// The recipient claims an Active escrow once the deadline has fully
/// elapsed; the funds go to the recipient and the record becomes Withdrawn.
///
/// Succeeds exactly when the bindings hold, `now` is at or after the expiry,
/// and the payout can complete.  On failure nothing changes.
pub fn withdraw(ctx: &mut Withdraw, now: i64) -> (r: Result<(), TransitionError>)
    ensures
        r is Ok <==> withdraw_allowed(*old(ctx), now),
        r is Ok ==> *final(ctx) == withdraw_post(*old(ctx)),
        r is Err ==> *final(ctx) == *old(ctx),
        r is Err ==> r == Err::<(), TransitionError>(withdraw_error(*old(ctx), now)),
{
    if ctx.payment.status != PaymentStatus::Active {
        return Err(TransitionError::Constraint(ConstraintViolation::StatusNotActive));
    }
    if ctx.payment.to != ctx.to || ctx.payment.mint != ctx.mint {
        return Err(TransitionError::Constraint(ConstraintViolation::BindingMismatch));
    }
    let custody = custody_authority(ctx.manager_id, ctx.payment.payment_id);
    if ctx.deposit_token_acc.mint != ctx.mint || ctx.deposit_token_acc.owner != custody {
        return Err(TransitionError::Constraint(ConstraintViolation::CustodyMismatch));
    }
    if ctx.to_token_acc.owner != ctx.to || ctx.to_token_acc.mint != ctx.mint {
        return Err(TransitionError::Constraint(ConstraintViolation::TokenAccountMismatch));
    }
    if now < ctx.payment.expiry {
        return Err(TransitionError::Validation(TimedPaymentError::TimeLimitNotExpired));
    }
    match payout_tokens(
        &ctx.payment,
        &mut ctx.deposit_token_acc,
        &mut ctx.to_token_acc,
        ctx.manager_id,
    ) {
        Ok(()) => {},
        Err(v) => {
            return Err(TransitionError::Constraint(v));
        },
    }
    ctx.payment.status = PaymentStatus::Withdrawn;
    Ok(())
}

/// The account bindings `reject` demands: an Active record whose recipient
/// signed the call, the bound sender, the record's asset, its derived
/// custody sub-account, and the sender's token account as refund
/// destination.
pub open spec fn reject_constraints(ctx: Reject) -> bool {
    &&& ctx.payment.status is Active
    &&& ctx.payment.from == ctx.from
    &&& ctx.payment.to == ctx.to
    &&& ctx.payment.mint == ctx.mint
    &&& ctx.deposit_token_acc.mint == ctx.mint
    &&& ctx.deposit_token_acc.owner == spec_custody_authority(
        ctx.manager_id,
        ctx.payment.payment_id,
    )
    &&& ctx.from_token_acc.owner == ctx.from
    &&& ctx.from_token_acc.mint == ctx.mint
}

/// Whether `reject` succeeds: the bindings hold, the expiry has not passed,
/// and the refund can complete.
pub open spec fn reject_allowed(ctx: Reject, now: i64) -> bool {
    &&& reject_constraints(ctx)
    &&& now < ctx.payment.expiry
    &&& ctx.deposit_token_acc.amount >= ctx.payment.amount
    &&& ctx.from_token_acc.amount + ctx.payment.amount <= u64::MAX
}

/// The error a refused `reject` reports: the first failing check.
pub open spec fn reject_error(ctx: Reject, now: i64) -> TransitionError {
    if ctx.payment.status !is Active {
        TransitionError::Constraint(ConstraintViolation::StatusNotActive)
    } else if ctx.payment.from != ctx.from || ctx.payment.to != ctx.to || ctx.payment.mint
        != ctx.mint {
        TransitionError::Constraint(ConstraintViolation::BindingMismatch)
    } else if ctx.deposit_token_acc.mint != ctx.mint || ctx.deposit_token_acc.owner
        != spec_custody_authority(ctx.manager_id, ctx.payment.payment_id) {
        TransitionError::Constraint(ConstraintViolation::CustodyMismatch)
    } else if ctx.from_token_acc.owner != ctx.from || ctx.from_token_acc.mint != ctx.mint {
        TransitionError::Constraint(ConstraintViolation::TokenAccountMismatch)
    } else if now >= ctx.payment.expiry {
        TransitionError::Validation(TimedPaymentError::TimeLimitAlreadyExpired)
    } else if ctx.deposit_token_acc.amount < ctx.payment.amount {
        TransitionError::Constraint(ConstraintViolation::InsufficientFunds)
    } else {
        TransitionError::Constraint(ConstraintViolation::BalanceOverflow)
    }
}

/// The context after one successful `reject`: the record is terminal and the
/// full amount has returned from custody to the sender.
pub open spec fn reject_post(pre: Reject) -> Reject {
    Reject {
        payment: Payment { status: PaymentStatus::Rejected, ..pre.payment },
        deposit_token_acc: TokenAccount {
            amount: (pre.deposit_token_acc.amount - pre.payment.amount) as u64,
            ..pre.deposit_token_acc
        },
        from_token_acc: TokenAccount {
            amount: (pre.from_token_acc.amount + pre.payment.amount) as u64,
            ..pre.from_token_acc
        },
        ..pre
    }
}

/// The recipient declines an Active escrow before its expiry; the funds
/// return to the sender and the record becomes Rejected.
///
/// Succeeds exactly when the bindings hold, `now` is strictly before the
/// expiry, and the refund can complete.  On failure nothing changes.
pub fn reject(ctx: &mut Reject, now: i64) -> (r: Result<(), TransitionError>)
    ensures
        r is Ok <==> reject_allowed(*old(ctx), now),
        r is Ok ==> *final(ctx) == reject_post(*old(ctx)),
        r is Err ==> *final(ctx) == *old(ctx),
        r is Err ==> r == Err::<(), TransitionError>(reject_error(*old(ctx), now)),
{
    if ctx.payment.status != PaymentStatus::Active {
        return Err(TransitionError::Constraint(ConstraintViolation::StatusNotActive));
    }
    if ctx.payment.from != ctx.from || ctx.payment.to != ctx.to || ctx.payment.mint != ctx.mint {
        return Err(TransitionError::Constraint(ConstraintViolation::BindingMismatch));
    }
    let custody = custody_authority(ctx.manager_id, ctx.payment.payment_id);
    if ctx.deposit_token_acc.mint != ctx.mint || ctx.deposit_token_acc.owner != custody {
        return Err(TransitionError::Constraint(ConstraintViolation::CustodyMismatch));
    }
    if ctx.from_token_acc.owner != ctx.from || ctx.from_token_acc.mint != ctx.mint {
        return Err(TransitionError::Constraint(ConstraintViolation::TokenAccountMismatch));
    }
    if now >= ctx.payment.expiry {
        return Err(TransitionError::Validation(TimedPaymentError::TimeLimitAlreadyExpired));
    }
    match payout_tokens(
        &ctx.payment,
        &mut ctx.deposit_token_acc,
        &mut ctx.from_token_acc,
        ctx.manager_id,
    ) {
        Ok(()) => {},
        Err(v) => {
            return Err(TransitionError::Constraint(v));
        },
    }
    ctx.payment.status = PaymentStatus::Rejected;
    Ok(())
}

/// The account bindings `extend` demands: an Active record whose recipient
/// signed the call.
pub open spec fn extend_constraints(ctx: Extend) -> bool {
    &&& ctx.payment.status is Active
    &&& ctx.payment.to == ctx.to
}

/// Whether `extend` succeeds: the bindings hold and the new expiry is
/// strictly after both the current expiry and the current time.
pub open spec fn extend_allowed(ctx: Extend, new_expiry: i64, now: i64) -> bool {
    &&& extend_constraints(ctx)
    &&& new_expiry > ctx.payment.expiry
    &&& new_expiry > now
}

/// The error a refused `extend` reports: the first failing check.
pub open spec fn extend_error(ctx: Extend, new_expiry: i64, now: i64) -> TransitionError {
    if ctx.payment.status !is Active {
        TransitionError::Constraint(ConstraintViolation::StatusNotActive)
    } else if ctx.payment.to != ctx.to {
        TransitionError::Constraint(ConstraintViolation::BindingMismatch)
    } else if new_expiry <= ctx.payment.expiry {
        TransitionError::Validation(TimedPaymentError::InvalidNewExpiry)
    } else {
        TransitionError::Validation(TimedPaymentError::TimeLimitAlreadyExpired)
    }
}

/// The context after one successful `extend`: only the expiry changed.
pub open spec fn extend_post(pre: Extend, new_expiry: i64) -> Extend {
    Extend { payment: Payment { expiry: new_expiry, ..pre.payment }, ..pre }
}

/// The recipient pushes the deadline of an Active escrow further into the
/// future.  The expiry may only grow, never shrink; no funds move and the
/// status is unchanged.
///
/// Succeeds exactly when the bindings hold and `new_expiry` is strictly
/// after both the current expiry and `now`.  On failure nothing changes.
pub fn extend(ctx: &mut Extend, new_expiry: i64, now: i64) -> (r: Result<(), TransitionError>)
    ensures
        r is Ok <==> extend_allowed(*old(ctx), new_expiry, now),
        r is Ok ==> *final(ctx) == extend_post(*old(ctx), new_expiry),
        r is Err ==> *final(ctx) == *old(ctx),
        r is Err ==> r == Err::<(), TransitionError>(extend_error(*old(ctx), new_expiry, now)),
{
    if ctx.payment.status != PaymentStatus::Active {
        return Err(TransitionError::Constraint(ConstraintViolation::StatusNotActive));
    }
    if ctx.payment.to != ctx.to {
        return Err(TransitionError::Constraint(ConstraintViolation::BindingMismatch));
    }
    if new_expiry <= ctx.payment.expiry {
        return Err(TransitionError::Validation(TimedPaymentError::InvalidNewExpiry));
    }
    if new_expiry <= now {
        return Err(TransitionError::Validation(TimedPaymentError::TimeLimitAlreadyExpired));
    }
    ctx.payment.expiry = new_expiry;
    Ok(())
}

/// The account bindings `finalize` demands: an Active record whose sender
/// signed the call, the bound recipient, the record's asset, its derived
/// custody sub-account, and the recipient's token account as destination.
pub open spec fn finalize_constraints(ctx: Finalize) -> bool {
    &&& ctx.payment.status is Active
    &&& ctx.payment.from == ctx.from
    &&& ctx.payment.to == ctx.to
    &&& ctx.payment.mint == ctx.mint
    &&& ctx.deposit_token_acc.mint == ctx.mint
    &&& ctx.deposit_token_acc.owner == spec_custody_authority(
        ctx.manager_id,
        ctx.payment.payment_id,
    )
    &&& ctx.to_token_acc.owner == ctx.to
    &&& ctx.to_token_acc.mint == ctx.mint
}

/// Whether `finalize` succeeds: the bindings hold and the payout can
/// complete.  There is no time condition.
pub open spec fn finalize_allowed(ctx: Finalize) -> bool {
    &&& finalize_constraints(ctx)
    &&& ctx.deposit_token_acc.amount >= ctx.payment.amount
    &&& ctx.to_token_acc.amount + ctx.payment.amount <= u64::MAX
}

/// The error a refused `finalize` reports: the first failing check.
pub open spec fn finalize_error(ctx: Finalize) -> TransitionError {
    if ctx.payment.status !is Active {
        TransitionError::Constraint(ConstraintViolation::StatusNotActive)
    } else if ctx.payment.from != ctx.from || ctx.payment.to != ctx.to || ctx.payment.mint
        != ctx.mint {
        TransitionError::Constraint(ConstraintViolation::BindingMismatch)
    } else if ctx.deposit_token_acc.mint != ctx.mint || ctx.deposit_token_acc.owner
        != spec_custody_authority(ctx.manager_id, ctx.payment.payment_id) {
        TransitionError::Constraint(ConstraintViolation::CustodyMismatch)
    } else if ctx.to_token_acc.owner != ctx.to || ctx.to_token_acc.mint != ctx.mint {
        TransitionError::Constraint(ConstraintViolation::TokenAccountMismatch)
    } else if ctx.deposit_token_acc.amount < ctx.payment.amount {
        TransitionError::Constraint(ConstraintViolation::InsufficientFunds)
    } else {
        TransitionError::Constraint(ConstraintViolation::BalanceOverflow)
    }
}

/// The context after one successful `finalize`: the record is terminal and
/// the full amount has moved from custody to the recipient.
pub open spec fn finalize_post(pre: Finalize) -> Finalize {
    Finalize {
        payment: Payment { status: PaymentStatus::Finalized, ..pre.payment },
        deposit_token_acc: TokenAccount {
            amount: (pre.deposit_token_acc.amount - pre.payment.amount) as u64,
            ..pre.deposit_token_acc
        },
        to_token_acc: TokenAccount {
            amount: (pre.to_token_acc.amount + pre.payment.amount) as u64,
            ..pre.to_token_acc
        },
        ..pre
    }
}

/// Early settlement of an Active escrow to the recipient, at any time,
/// before or after the expiry; the record becomes Finalized.
///
/// The sender must sign the call, and the full record binding (`from`, `to`,
/// asset, custody derivation) must hold; there is no time condition.
/// Succeeds exactly when the bindings hold and the payout can complete.  On
/// failure nothing changes.
pub fn finalize(ctx: &mut Finalize) -> (r: Result<(), TransitionError>)
    ensures
        r is Ok <==> finalize_allowed(*old(ctx)),
        r is Ok ==> *final(ctx) == finalize_post(*old(ctx)),
        r is Err ==> *final(ctx) == *old(ctx),
        r is Err ==> r == Err::<(), TransitionError>(finalize_error(*old(ctx))),
{
    if ctx.payment.status != PaymentStatus::Active {
        return Err(TransitionError::Constraint(ConstraintViolation::StatusNotActive));
    }
    if ctx.payment.from != ctx.from || ctx.payment.to != ctx.to || ctx.payment.mint != ctx.mint {
        return Err(TransitionError::Constraint(ConstraintViolation::BindingMismatch));
    }
    let custody = custody_authority(ctx.manager_id, ctx.payment.payment_id);
    if ctx.deposit_token_acc.mint != ctx.mint || ctx.deposit_token_acc.owner != custody {
        return Err(TransitionError::Constraint(ConstraintViolation::CustodyMismatch));
    }
    if ctx.to_token_acc.owner != ctx.to || ctx.to_token_acc.mint != ctx.mint {
        return Err(TransitionError::Constraint(ConstraintViolation::TokenAccountMismatch));
    }
    match payout_tokens(
        &ctx.payment,
        &mut ctx.deposit_token_acc,
        &mut ctx.to_token_acc,
        ctx.manager_id,
    ) {
        Ok(()) => {},
        Err(v) => {
            return Err(TransitionError::Constraint(v));
        },
    }
    ctx.payment.status = PaymentStatus::Finalized;
    Ok(())
}

} // verus!
