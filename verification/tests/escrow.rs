use savact_payment::account::AccountId;
use savact_payment::contexts::{
    CreatePayment, Extend, Finalize, Initialize, Invalidate, Reject, UpdateSystem, Withdraw,
};
use savact_payment::engine::{
    create_payment, extend, finalize, initialize, invalidate, reject, update_system, withdraw,
};
use savact_payment::errors::{ConstraintViolation, TimedPaymentError, TransitionError};
use savact_payment::state::{Payment, PaymentManager, PaymentStatus};
use savact_payment::token::TokenAccount;

const T: i64 = 1_000_000;
const MANAGER_ID: u64 = 7;

const ALICE: AccountId = AccountId::Wallet(1);
const BOB: AccountId = AccountId::Wallet(2);
const MINT: AccountId = AccountId::Wallet(30);
const AUTHORITY: AccountId = AccountId::Wallet(5);
const SYSTEM: AccountId = AccountId::Wallet(6);

fn acct(owner: AccountId, mint: AccountId, amount: u64) -> TokenAccount {
    TokenAccount { owner, mint, amount }
}

fn custody_of(payment_id: u64) -> AccountId {
    AccountId::Custody { manager_id: MANAGER_ID, payment_id }
}

fn manager() -> PaymentManager {
    PaymentManager { authority: AUTHORITY, payment_count: 0, system: SYSTEM }
}

fn blank_payment() -> Payment {
    Payment {
        from: AccountId::Null,
        to: AccountId::Null,
        mint: AccountId::Null,
        amount: 0,
        expiry: 0,
        status: PaymentStatus::Active,
        payment_id: 0,
    }
}

/// A create context funding ALICE with `balance`, escrow for BOB.
fn create_ctx(balance: u64) -> CreatePayment {
    CreatePayment {
        manager: manager(),
        manager_id: MANAGER_ID,
        payment: blank_payment(),
        from: ALICE,
        to: BOB,
        mint: MINT,
        from_token_acc: acct(ALICE, MINT, balance),
        deposit_token_acc: acct(custody_of(0), MINT, 0),
    }
}

/// Runs a successful creation of 100 units expiring at T + 1000 and returns
/// the resulting record and funded custody account.
fn created_escrow() -> (PaymentManager, Payment, TokenAccount) {
    let mut ctx = create_ctx(500);
    let r = create_payment(&mut ctx, 100, T + 1000, T);
    assert_eq!(r, Ok(0));
    (ctx.manager, ctx.payment, ctx.deposit_token_acc)
}

#[test]
fn initialize_sets_manager_fields() {
    let mut ctx = Initialize {
        manager: PaymentManager {
            authority: AccountId::Null,
            payment_count: 99,
            system: AccountId::Null,
        },
        authority: AUTHORITY,
    };
    let r = initialize(&mut ctx, SYSTEM);
    assert_eq!(r, Ok(()));
    assert_eq!(
        ctx.manager,
        PaymentManager { authority: AUTHORITY, payment_count: 0, system: SYSTEM }
    );
}

#[test]
fn initialize_rejects_null_system() {
    let blank = PaymentManager {
        authority: AccountId::Null,
        payment_count: 99,
        system: AccountId::Null,
    };
    let mut ctx = Initialize { manager: blank, authority: AUTHORITY };
    let r = initialize(&mut ctx, AccountId::Null);
    assert_eq!(
        r,
        Err(TransitionError::Validation(TimedPaymentError::InvalidSystem))
    );
    assert_eq!(ctx.manager, blank);
}

#[test]
fn update_system_rejects_null() {
    let mut ctx = UpdateSystem { manager: manager(), authority: AUTHORITY };
    let r = update_system(&mut ctx, AccountId::Null);
    assert_eq!(
        r,
        Err(TransitionError::Validation(TimedPaymentError::InvalidSystem))
    );
    assert_eq!(ctx.manager.system, SYSTEM);
}

#[test]
fn update_system_rejects_foreign_signer() {
    let mut ctx = UpdateSystem { manager: manager(), authority: BOB };
    let r = update_system(&mut ctx, AccountId::Wallet(8));
    assert_eq!(
        r,
        Err(TransitionError::Constraint(ConstraintViolation::BindingMismatch))
    );
    assert_eq!(ctx.manager, manager());
}

#[test]
fn update_system_overwrites_arbiter() {
    let mut ctx = UpdateSystem { manager: manager(), authority: AUTHORITY };
    let r = update_system(&mut ctx, AccountId::Wallet(8));
    assert_eq!(r, Ok(()));
    assert_eq!(ctx.manager.system, AccountId::Wallet(8));
    assert_eq!(ctx.manager.payment_count, 0);
    assert_eq!(ctx.manager.authority, AUTHORITY);
}

#[test]
fn create_payment_funds_custody() {
    let mut ctx = create_ctx(500);
    let r = create_payment(&mut ctx, 100, T + 1000, T);
    assert_eq!(r, Ok(0));
    assert_eq!(ctx.payment.status, PaymentStatus::Active);
    assert_eq!(ctx.payment.amount, 100);
    assert_eq!(ctx.payment.expiry, T + 1000);
    assert_eq!(ctx.payment.from, ALICE);
    assert_eq!(ctx.payment.to, BOB);
    assert_eq!(ctx.payment.mint, MINT);
    assert_eq!(ctx.payment.payment_id, 0);
    assert_eq!(ctx.deposit_token_acc.amount, 100);
    assert_eq!(ctx.from_token_acc.amount, 400);
    assert_eq!(ctx.manager.payment_count, 1);
}

#[test]
fn create_payment_rejects_past_expiry() {
    let mut ctx = create_ctx(500);
    let r = create_payment(&mut ctx, 100, T, T);
    assert_eq!(
        r,
        Err(TransitionError::Validation(TimedPaymentError::TimeLimitAlreadyExpired))
    );
    assert_eq!(ctx.deposit_token_acc.amount, 0);
    assert_eq!(ctx.from_token_acc.amount, 500);
    assert_eq!(ctx.manager.payment_count, 0);
}

#[test]
fn create_payment_rejects_insufficient_funds() {
    let mut ctx = create_ctx(99);
    let r = create_payment(&mut ctx, 100, T + 1000, T);
    assert_eq!(
        r,
        Err(TransitionError::Constraint(ConstraintViolation::InsufficientFunds))
    );
    assert_eq!(ctx.from_token_acc.amount, 99);
}

#[test]
fn create_payment_rejects_foreign_funding_account() {
    let mut ctx = create_ctx(500);
    ctx.from_token_acc.owner = BOB;
    let r = create_payment(&mut ctx, 100, T + 1000, T);
    assert_eq!(
        r,
        Err(TransitionError::Constraint(ConstraintViolation::TokenAccountMismatch))
    );
}

#[test]
fn create_payment_rejects_wrong_custody_account() {
    let mut ctx = create_ctx(500);
    ctx.deposit_token_acc.owner = custody_of(3);
    let r = create_payment(&mut ctx, 100, T + 1000, T);
    assert_eq!(
        r,
        Err(TransitionError::Constraint(ConstraintViolation::CustodyMismatch))
    );
}

#[test]
fn withdraw_only_after_expiry() {
    let (m, p, deposit) = created_escrow();
    let mut ctx = Withdraw {
        manager: m,
        manager_id: MANAGER_ID,
        payment: p,
        to: BOB,
        mint: MINT,
        deposit_token_acc: deposit,
        to_token_acc: acct(BOB, MINT, 0),
    };
    let early = withdraw(&mut ctx, T + 500);
    assert_eq!(
        early,
        Err(TransitionError::Validation(TimedPaymentError::TimeLimitNotExpired))
    );
    assert_eq!(ctx.payment.status, PaymentStatus::Active);
    assert_eq!(ctx.deposit_token_acc.amount, 100);
    assert_eq!(ctx.to_token_acc.amount, 0);

    let late = withdraw(&mut ctx, T + 1001);
    assert_eq!(late, Ok(()));
    assert_eq!(ctx.payment.status, PaymentStatus::Withdrawn);
    assert_eq!(ctx.deposit_token_acc.amount, 0);
    assert_eq!(ctx.to_token_acc.amount, 100);
}

#[test]
fn withdraw_at_exact_expiry_succeeds() {
    let (m, p, deposit) = created_escrow();
    let mut ctx = Withdraw {
        manager: m,
        manager_id: MANAGER_ID,
        payment: p,
        to: BOB,
        mint: MINT,
        deposit_token_acc: deposit,
        to_token_acc: acct(BOB, MINT, 0),
    };
    assert_eq!(withdraw(&mut ctx, T + 1000), Ok(()));
}

#[test]
fn withdraw_rejects_foreign_signer() {
    let (m, p, deposit) = created_escrow();
    let mut ctx = Withdraw {
        manager: m,
        manager_id: MANAGER_ID,
        payment: p,
        to: ALICE,
        mint: MINT,
        deposit_token_acc: deposit,
        to_token_acc: acct(ALICE, MINT, 0),
    };
    let r = withdraw(&mut ctx, T + 1001);
    assert_eq!(
        r,
        Err(TransitionError::Constraint(ConstraintViolation::BindingMismatch))
    );
}

#[test]
fn reject_refunds_sender_then_withdraw_fails() {
    let (m, p, deposit) = created_escrow();
    let mut ctx = Reject {
        manager: m,
        manager_id: MANAGER_ID,
        payment: p,
        from: ALICE,
        to: BOB,
        mint: MINT,
        deposit_token_acc: deposit,
        from_token_acc: acct(ALICE, MINT, 400),
    };
    let r = reject(&mut ctx, T + 500);
    assert_eq!(r, Ok(()));
    assert_eq!(ctx.payment.status, PaymentStatus::Rejected);
    assert_eq!(ctx.deposit_token_acc.amount, 0);
    assert_eq!(ctx.from_token_acc.amount, 500);

    let mut w = Withdraw {
        manager: m,
        manager_id: MANAGER_ID,
        payment: ctx.payment,
        to: BOB,
        mint: MINT,
        deposit_token_acc: ctx.deposit_token_acc,
        to_token_acc: acct(BOB, MINT, 0),
    };
    let again = withdraw(&mut w, T + 1001);
    assert_eq!(
        again,
        Err(TransitionError::Constraint(ConstraintViolation::StatusNotActive))
    );
    assert_eq!(w.to_token_acc.amount, 0);
    assert_eq!(w.deposit_token_acc.amount, 0);
}

#[test]
fn reject_after_expiry_fails() {
    let (m, p, deposit) = created_escrow();
    let mut ctx = Reject {
        manager: m,
        manager_id: MANAGER_ID,
        payment: p,
        from: ALICE,
        to: BOB,
        mint: MINT,
        deposit_token_acc: deposit,
        from_token_acc: acct(ALICE, MINT, 400),
    };
    let r = reject(&mut ctx, T + 1000);
    assert_eq!(
        r,
        Err(TransitionError::Validation(TimedPaymentError::TimeLimitAlreadyExpired))
    );
    assert_eq!(ctx.payment.status, PaymentStatus::Active);
}

#[test]
fn invalidate_routes_funds_to_arbiter() {
    let (m, p, deposit) = created_escrow();
    let mut ctx = Invalidate {
        manager: m,
        manager_id: MANAGER_ID,
        payment: p,
        from: ALICE,
        mint: MINT,
        deposit_token_acc: deposit,
        system_token_acc: acct(SYSTEM, MINT, 25),
    };
    let r = invalidate(&mut ctx, T + 500);
    assert_eq!(r, Ok(()));
    assert_eq!(ctx.payment.status, PaymentStatus::Invalidated);
    assert_eq!(ctx.deposit_token_acc.amount, 0);
    assert_eq!(ctx.system_token_acc.amount, 125);
}

#[test]
fn invalidate_after_expiry_fails() {
    let (m, p, deposit) = created_escrow();
    let mut ctx = Invalidate {
        manager: m,
        manager_id: MANAGER_ID,
        payment: p,
        from: ALICE,
        mint: MINT,
        deposit_token_acc: deposit,
        system_token_acc: acct(SYSTEM, MINT, 0),
    };
    let r = invalidate(&mut ctx, T + 1000);
    assert_eq!(
        r,
        Err(TransitionError::Validation(TimedPaymentError::TimeLimitAlreadyExpired))
    );
}

#[test]
fn invalidate_rejects_foreign_signer() {
    let (m, p, deposit) = created_escrow();
    let mut ctx = Invalidate {
        manager: m,
        manager_id: MANAGER_ID,
        payment: p,
        from: BOB,
        mint: MINT,
        deposit_token_acc: deposit,
        system_token_acc: acct(SYSTEM, MINT, 0),
    };
    let r = invalidate(&mut ctx, T + 500);
    assert_eq!(
        r,
        Err(TransitionError::Constraint(ConstraintViolation::BindingMismatch))
    );
}

#[test]
fn invalidate_rejects_wrong_arbiter_account() {
    let (m, p, deposit) = created_escrow();
    let mut ctx = Invalidate {
        manager: m,
        manager_id: MANAGER_ID,
        payment: p,
        from: ALICE,
        mint: MINT,
        deposit_token_acc: deposit,
        system_token_acc: acct(BOB, MINT, 0),
    };
    let r = invalidate(&mut ctx, T + 500);
    assert_eq!(
        r,
        Err(TransitionError::Constraint(ConstraintViolation::TokenAccountMismatch))
    );
}

#[test]
fn invalidate_reports_arbiter_balance_overflow() {
    let (m, p, deposit) = created_escrow();
    let mut ctx = Invalidate {
        manager: m,
        manager_id: MANAGER_ID,
        payment: p,
        from: ALICE,
        mint: MINT,
        deposit_token_acc: deposit,
        system_token_acc: acct(SYSTEM, MINT, u64::MAX - 99),
    };
    let r = invalidate(&mut ctx, T + 500);
    assert_eq!(
        r,
        Err(TransitionError::Constraint(ConstraintViolation::BalanceOverflow))
    );
    assert_eq!(ctx.deposit_token_acc.amount, 100);
}

#[test]
fn extend_rejects_shorter_expiry() {
    let (m, p, _) = created_escrow();
    let mut ctx = Extend { manager: m, payment: p, to: BOB };
    let r = extend(&mut ctx, T + 500, T);
    assert_eq!(
        r,
        Err(TransitionError::Validation(TimedPaymentError::InvalidNewExpiry))
    );
    assert_eq!(ctx.payment.expiry, T + 1000);
}

#[test]
fn extend_rejects_expiry_not_in_future() {
    let (m, p, _) = created_escrow();
    let mut ctx = Extend { manager: m, payment: p, to: BOB };
    let r = extend(&mut ctx, T + 2000, T + 3000);
    assert_eq!(
        r,
        Err(TransitionError::Validation(TimedPaymentError::TimeLimitAlreadyExpired))
    );
    assert_eq!(ctx.payment.expiry, T + 1000);
}

#[test]
fn extend_rejects_foreign_signer() {
    let (m, p, _) = created_escrow();
    let mut ctx = Extend { manager: m, payment: p, to: ALICE };
    let r = extend(&mut ctx, T + 2000, T);
    assert_eq!(
        r,
        Err(TransitionError::Constraint(ConstraintViolation::BindingMismatch))
    );
}

#[test]
fn extend_sequence_is_strictly_increasing() {
    let (m, p, _) = created_escrow();
    let mut ctx = Extend { manager: m, payment: p, to: BOB };
    let e0: i64 = ctx.payment.expiry;
    assert_eq!(extend(&mut ctx, T + 2000, T), Ok(()));
    let e1: i64 = ctx.payment.expiry;
    assert_eq!(extend(&mut ctx, T + 5000, T + 100), Ok(()));
    let e2: i64 = ctx.payment.expiry;
    assert!(e0 < e1 && e1 < e2);
    assert_eq!(ctx.payment.status, PaymentStatus::Active);
}

#[test]
fn finalize_settles_to_recipient_even_after_expiry() {
    let (m, p, deposit) = created_escrow();
    let mut ctx = Finalize {
        manager: m,
        manager_id: MANAGER_ID,
        payment: p,
        from: ALICE,
        to: BOB,
        mint: MINT,
        deposit_token_acc: deposit,
        to_token_acc: acct(BOB, MINT, 0),
    };
    let r = finalize(&mut ctx);
    assert_eq!(r, Ok(()));
    assert_eq!(ctx.payment.status, PaymentStatus::Finalized);
    assert_eq!(ctx.deposit_token_acc.amount, 0);
    assert_eq!(ctx.to_token_acc.amount, 100);

    let second = finalize(&mut ctx);
    assert_eq!(
        second,
        Err(TransitionError::Constraint(ConstraintViolation::StatusNotActive))
    );
    assert_eq!(ctx.to_token_acc.amount, 100);
}

#[test]
fn finalize_rejects_unbound_parties() {
    let (m, p, deposit) = created_escrow();
    let mut ctx = Finalize {
        manager: m,
        manager_id: MANAGER_ID,
        payment: p,
        from: BOB,
        to: BOB,
        mint: MINT,
        deposit_token_acc: deposit,
        to_token_acc: acct(BOB, MINT, 0),
    };
    let r = finalize(&mut ctx);
    assert_eq!(
        r,
        Err(TransitionError::Constraint(ConstraintViolation::BindingMismatch))
    );
}

#[test]
fn zero_amount_escrow_is_valid() {
    let mut ctx = create_ctx(0);
    let r = create_payment(&mut ctx, 0, T + 1000, T);
    assert_eq!(r, Ok(0));
    assert_eq!(ctx.deposit_token_acc.amount, 0);

    let mut w = Withdraw {
        manager: ctx.manager,
        manager_id: MANAGER_ID,
        payment: ctx.payment,
        to: BOB,
        mint: MINT,
        deposit_token_acc: ctx.deposit_token_acc,
        to_token_acc: acct(BOB, MINT, 0),
    };
    assert_eq!(withdraw(&mut w, T + 1000), Ok(()));
    assert_eq!(w.to_token_acc.amount, 0);
    assert_eq!(w.payment.status, PaymentStatus::Withdrawn);
}

#[test]
fn payment_ids_are_gapless() {
    let mut first = create_ctx(500);
    let r0 = create_payment(&mut first, 100, T + 1000, T);
    assert_eq!(r0, Ok(0));

    let mut second = CreatePayment {
        manager: first.manager,
        manager_id: MANAGER_ID,
        payment: blank_payment(),
        from: ALICE,
        to: BOB,
        mint: MINT,
        from_token_acc: first.from_token_acc,
        deposit_token_acc: acct(custody_of(1), MINT, 0),
    };
    let r1 = create_payment(&mut second, 50, T + 2000, T);
    assert_eq!(r1, Ok(1));
    assert_eq!(second.manager.payment_count, 2);
    assert_eq!(second.payment.payment_id, 1);
    assert_eq!(
        second.deposit_token_acc.owner,
        AccountId::Custody { manager_id: MANAGER_ID, payment_id: 1 }
    );
}

#[test]
fn custody_is_conserved_over_a_lifecycle() {
    // 500 units start with the sender; 100 are locked at creation and come
    // back out exactly once, at the single terminal transition.
    let (m, p, deposit) = created_escrow();
    let sender_after_create: u64 = 400;
    assert_eq!(deposit.amount + sender_after_create, 500);

    let mut ctx = Reject {
        manager: m,
        manager_id: MANAGER_ID,
        payment: p,
        from: ALICE,
        to: BOB,
        mint: MINT,
        deposit_token_acc: deposit,
        from_token_acc: acct(ALICE, MINT, sender_after_create),
    };
    assert_eq!(reject(&mut ctx, T + 1), Ok(()));
    assert_eq!(ctx.deposit_token_acc.amount + ctx.from_token_acc.amount, 500);
    assert_eq!(ctx.deposit_token_acc.amount, 0);

    // No second release: every further attempt is refused without a
    // transfer.
    let mut inv = Invalidate {
        manager: m,
        manager_id: MANAGER_ID,
        payment: ctx.payment,
        from: ALICE,
        mint: MINT,
        deposit_token_acc: ctx.deposit_token_acc,
        system_token_acc: acct(SYSTEM, MINT, 0),
    };
    assert_eq!(
        invalidate(&mut inv, T + 1),
        Err(TransitionError::Constraint(ConstraintViolation::StatusNotActive))
    );
    assert_eq!(inv.system_token_acc.amount, 0);
    assert_eq!(inv.deposit_token_acc.amount, 0);
}
