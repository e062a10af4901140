//! The global laws of the escrow: properties that span several transitions
//! or whole traces, proved from the same spec functions the transition
//! contracts use.
//!
//! A trace here is a sequence of observations of one record (or of the
//! manager) between which transition attempts ran; the refinement lemmas tie
//! each successful transition to one abstract step, and the trace lemmas
//! state what every such sequence satisfies.

use vstd::prelude::*;
use crate::contexts::{CreatePayment, Extend, Finalize, Invalidate, Reject, UpdateSystem, Withdraw};
use crate::account::AccountId;
use crate::engine::{
    create_payment_allowed,
    create_payment_post,
    update_system_allowed,
    extend_allowed,
    extend_error,
    extend_post,
    finalize_allowed,
    finalize_error,
    finalize_post,
    invalidate_allowed,
    invalidate_error,
    invalidate_post,
    manager_after_create,
    reject_allowed,
    reject_error,
    reject_post,
    withdraw_allowed,
    withdraw_error,
    withdraw_post,
};
use crate::errors::{ConstraintViolation, TransitionError};
use crate::state::{Payment, PaymentManager};

verus! {

/// One record together with the custody it holds and the total ever paid out
/// of that custody: the abstract state the conservation law speaks of.
pub struct EscrowState {
    /// The payment record.
    pub payment: Payment,
    /// The balance of the record's custody sub-account.
    pub custody: nat,
    /// The sum of all outbound transfers from the custody sub-account so
    /// far.
    pub paid_out: nat,
}

/// A record as `create_payment` leaves it: Active, custody funded with
/// exactly the escrowed amount, nothing paid out yet.
pub open spec fn fresh_escrow(s: EscrowState) -> bool {
    &&& s.payment.status is Active
    &&& s.custody == s.payment.amount
    &&& s.paid_out == 0
}

/// A successful `extend` as a step on the record alone: only the expiry
/// changed, and it grew strictly.
pub open spec fn payment_extend_step(p0: Payment, p1: Payment) -> bool {
    &&& p0.status is Active
    &&& p1 == (Payment { expiry: p1.expiry, ..p0 })
    &&& p1.expiry > p0.expiry
}

/// A successful terminal transition as a step on the record alone: only the
/// status changed, from Active to a terminal state.
pub open spec fn payment_terminal_step(p0: Payment, p1: Payment) -> bool {
    &&& p0.status is Active
    &&& p1.status.is_terminal()
    &&& p1 == (Payment { status: p1.status, ..p0 })
}

/// What one transition attempt can do to an escrow: nothing (every failed
/// attempt, and any operation that does not touch this record), an extend,
/// or a terminal payout that drains exactly the escrowed amount from custody.
pub open spec fn escrow_step(pre: EscrowState, post: EscrowState) -> bool {
    ||| post == pre
    ||| {
        &&& payment_extend_step(pre.payment, post.payment)
        &&& post.custody == pre.custody
        &&& post.paid_out == pre.paid_out
    }
    ||| {
        &&& payment_terminal_step(pre.payment, post.payment)
        &&& pre.custody >= pre.payment.amount
        &&& post.custody == pre.custody - pre.payment.amount
        &&& post.paid_out == pre.paid_out + pre.payment.amount
    }
}

/// Custody conservation at one point of a record's life: the amount
/// deposited at creation equals what the custody still holds plus everything
/// ever paid out — the full amount while Active, exactly one full payout
/// once terminal.
pub open spec fn custody_conserved(s: EscrowState) -> bool {
    &&& s.custody + s.paid_out == s.payment.amount
    &&& (s.payment.status is Active ==> s.custody == s.payment.amount && s.paid_out == 0)
    &&& (s.payment.status.is_terminal() ==> s.custody == 0 && s.paid_out == s.payment.amount)
}

/// Custody conservation, over a whole life of a record: starting from
/// creation, after any sequence of transition attempts the deposited amount
/// is fully accounted for — still in custody if the record is Active, paid
/// out exactly once if it is terminal — and the escrowed amount itself never
/// changes.
pub proof fn lemma_custody_conservation(tr: Seq<EscrowState>)
    requires
        tr.len() > 0,
        fresh_escrow(tr[0]),
        forall|i: int| 0 <= i < tr.len() - 1 ==> escrow_step(#[trigger] tr[i], tr[i + 1]),
    ensures
        forall|i: int| 0 <= i < tr.len() ==> custody_conserved(#[trigger] tr[i]),
        forall|i: int| 0 <= i < tr.len() ==> (#[trigger] tr[i]).payment.amount
            == tr[0].payment.amount,
    decreases tr.len(),
{
    if tr.len() > 1 {
        let prefix = tr.subrange(0, tr.len() - 1);
        assert forall|i: int| 0 <= i < prefix.len() - 1 implies escrow_step(
            #[trigger] prefix[i],
            prefix[i + 1],
        ) by {
            assert(escrow_step(tr[i], tr[i + 1]));
        }
        lemma_custody_conservation(prefix);
        assert forall|i: int| 0 <= i < tr.len() implies custody_conserved(#[trigger] tr[i])
            && tr[i].payment.amount == tr[0].payment.amount by {
            if i < tr.len() - 1 {
                assert(custody_conserved(prefix[i]));
                assert(prefix[i] == tr[i]);
                assert(prefix[0] == tr[0]);
            } else {
                let last: int = tr.len() - 1;
                assert(custody_conserved(prefix[last - 1]));
                assert(prefix[last - 1] == tr[last - 1]);
                assert(escrow_step(tr[last - 1], tr[last]));
                assert(prefix[0] == tr[0]);
            }
        }
    }
}

/// Single terminal transition: once a record has left the Active state, no
/// release operation and no extension is permitted any more; every attempt
/// is refused with the status-precondition error, which by the transition
/// contracts also means it produces no transfer and no state change.
pub proof fn lemma_single_terminal_transition(p: Payment)
    requires
        p.status.is_terminal(),
    ensures
        forall|ctx: Invalidate, now: i64| ctx.payment == p ==> !(#[trigger] invalidate_allowed(
            ctx,
            now,
        )),
        forall|ctx: Withdraw, now: i64| ctx.payment == p ==> !(#[trigger] withdraw_allowed(
            ctx,
            now,
        )),
        forall|ctx: Reject, now: i64| ctx.payment == p ==> !(#[trigger] reject_allowed(ctx, now)),
        forall|ctx: Finalize| ctx.payment == p ==> !(#[trigger] finalize_allowed(ctx)),
        forall|ctx: Extend, new_expiry: i64, now: i64| ctx.payment == p ==> !(
        #[trigger] extend_allowed(ctx, new_expiry, now)),
        forall|ctx: Invalidate, now: i64| ctx.payment == p ==> #[trigger] invalidate_error(
            ctx,
            now,
        ) == TransitionError::Constraint(ConstraintViolation::StatusNotActive),
        forall|ctx: Withdraw, now: i64| ctx.payment == p ==> #[trigger] withdraw_error(ctx, now)
            == TransitionError::Constraint(ConstraintViolation::StatusNotActive),
        forall|ctx: Reject, now: i64| ctx.payment == p ==> #[trigger] reject_error(ctx, now)
            == TransitionError::Constraint(ConstraintViolation::StatusNotActive),
        forall|ctx: Finalize| ctx.payment == p ==> #[trigger] finalize_error(ctx)
            == TransitionError::Constraint(ConstraintViolation::StatusNotActive),
        forall|ctx: Extend, new_expiry: i64, now: i64| ctx.payment == p ==> #[trigger] extend_error(
            ctx,
            new_expiry,
            now,
        ) == TransitionError::Constraint(ConstraintViolation::StatusNotActive),
{
}

/// A successful `invalidate` is one terminal escrow step: it drains exactly
/// the escrowed amount from custody, whatever was paid out before.
pub proof fn lemma_invalidate_refines_escrow_step(ctx: Invalidate, now: i64, paid: nat)
    requires
        invalidate_allowed(ctx, now),
    ensures
        escrow_step(
            (EscrowState {
                payment: ctx.payment,
                custody: ctx.deposit_token_acc.amount as nat,
                paid_out: paid,
            }),
            (EscrowState {
                payment: invalidate_post(ctx).payment,
                custody: invalidate_post(ctx).deposit_token_acc.amount as nat,
                paid_out: (paid + ctx.payment.amount) as nat,
            }),
        ),
{
}

/// A successful `withdraw` is one terminal escrow step.
pub proof fn lemma_withdraw_refines_escrow_step(ctx: Withdraw, now: i64, paid: nat)
    requires
        withdraw_allowed(ctx, now),
    ensures
        escrow_step(
            (EscrowState {
                payment: ctx.payment,
                custody: ctx.deposit_token_acc.amount as nat,
                paid_out: paid,
            }),
            (EscrowState {
                payment: withdraw_post(ctx).payment,
                custody: withdraw_post(ctx).deposit_token_acc.amount as nat,
                paid_out: (paid + ctx.payment.amount) as nat,
            }),
        ),
{
}

/// A successful `reject` is one terminal escrow step.
pub proof fn lemma_reject_refines_escrow_step(ctx: Reject, now: i64, paid: nat)
    requires
        reject_allowed(ctx, now),
    ensures
        escrow_step(
            (EscrowState {
                payment: ctx.payment,
                custody: ctx.deposit_token_acc.amount as nat,
                paid_out: paid,
            }),
            (EscrowState {
                payment: reject_post(ctx).payment,
                custody: reject_post(ctx).deposit_token_acc.amount as nat,
                paid_out: (paid + ctx.payment.amount) as nat,
            }),
        ),
{
}

/// A successful `finalize` is one terminal escrow step.
pub proof fn lemma_finalize_refines_escrow_step(ctx: Finalize, paid: nat)
    requires
        finalize_allowed(ctx),
    ensures
        escrow_step(
            (EscrowState {
                payment: ctx.payment,
                custody: ctx.deposit_token_acc.amount as nat,
                paid_out: paid,
            }),
            (EscrowState {
                payment: finalize_post(ctx).payment,
                custody: finalize_post(ctx).deposit_token_acc.amount as nat,
                paid_out: (paid + ctx.payment.amount) as nat,
            }),
        ),
{
}

/// A successful `extend` is one extend escrow step: no funds move.
pub proof fn lemma_extend_refines_escrow_step(ctx: Extend, new_expiry: i64, now: i64, custody: nat, paid: nat)
    requires
        extend_allowed(ctx, new_expiry, now),
    ensures
        escrow_step(
            (EscrowState { payment: ctx.payment, custody, paid_out: paid }),
            (EscrowState { payment: extend_post(ctx, new_expiry).payment, custody, paid_out: paid }),
        ),
        payment_extend_step(ctx.payment, extend_post(ctx, new_expiry).payment),
{
}

/// One successful `create_payment` as a step on the manager alone: it leaves
/// every field but the counter unchanged and advances the counter by exactly
/// one.
pub open spec fn manager_create_step(m0: PaymentManager, m1: PaymentManager) -> bool {
    &&& m0.payment_count < u64::MAX
    &&& m1 == manager_after_create(m0)
}

/// A successful `create_payment` is one manager create step, and the id it
/// returns is the pre-state counter.
pub proof fn lemma_create_refines_manager_step(ctx: CreatePayment, amount: u64, expiry: i64, now: i64)
    requires
        create_payment_allowed(ctx, amount, expiry, now),
        ctx.manager.payment_count < u64::MAX,
    ensures
        manager_create_step(ctx.manager, create_payment_post(ctx, amount, expiry).manager),
        create_payment_post(ctx, amount, expiry).payment.payment_id == ctx.manager.payment_count,
{
}

/// The manager's own invariants, across the only operations that mutate it
/// after creation: `create_payment` advances the counter by exactly one and
/// touches nothing else, so the counter only ever increases and the arbiter
/// and authority identities are untouched; and `update_system` succeeds only
/// for a non-null identity, so the non-null arbiter that `initialize`
/// installs by contract never becomes null.
pub proof fn lemma_manager_invariants(m: PaymentManager, ctx: UpdateSystem, new_system: AccountId)
    requires
        m.payment_count < u64::MAX,
    ensures
        manager_after_create(m).payment_count > m.payment_count,
        manager_after_create(m).system == m.system,
        manager_after_create(m).authority == m.authority,
        update_system_allowed(ctx, new_system) ==> new_system != AccountId::Null,
{
}

/// The counter value at one point of a creation trace.
proof fn lemma_counter_at(ms: Seq<PaymentManager>, i: int)
    requires
        forall|j: int| 0 <= j < ms.len() - 1 ==> manager_create_step(#[trigger] ms[j], ms[j + 1]),
        0 <= i < ms.len(),
    ensures
        ms[i].payment_count == ms[0].payment_count + i,
    decreases i,
{
    if i > 0 {
        lemma_counter_at(ms, i - 1);
        assert(manager_create_step(ms[i - 1], ms[i]));
    }
}

/// Monotonic counter: along any sequence of successful `create_payment`
/// calls, the counter — and with it the issued payment ids, each the
/// counter's pre-state value — is strictly increasing with no gaps.
pub proof fn lemma_counter_monotonic(ms: Seq<PaymentManager>)
    requires
        forall|i: int| 0 <= i < ms.len() - 1 ==> manager_create_step(#[trigger] ms[i], ms[i + 1]),
    ensures
        forall|i: int| 0 <= i < ms.len() ==> (#[trigger] ms[i]).payment_count
            == ms[0].payment_count + i,
        forall|i: int, j: int|
            #![trigger ms[i], ms[j]]
            0 <= i < j < ms.len() ==> ms[i].payment_count < ms[j].payment_count,
{
    assert forall|i: int| 0 <= i < ms.len() implies (#[trigger] ms[i]).payment_count
        == ms[0].payment_count + i by {
        lemma_counter_at(ms, i);
    }
}

/// The expiry growth between two points of an extension trace.
proof fn lemma_expiry_between(ps: Seq<Payment>, i: int, j: int)
    requires
        forall|k: int| 0 <= k < ps.len() - 1 ==> payment_extend_step(#[trigger] ps[k], ps[k + 1]),
        0 <= i < j < ps.len(),
    ensures
        ps[i].expiry < ps[j].expiry,
    decreases j - i,
{
    assert(payment_extend_step(ps[j - 1], ps[j]));
    if i < j - 1 {
        lemma_expiry_between(ps, i, j - 1);
    }
}

/// Expiry monotonicity: along any sequence of successful `extend` calls the
/// expiry sequence is strictly increasing — the deadline only ever moves
/// forward.
pub proof fn lemma_expiry_monotonic(ps: Seq<Payment>)
    requires
        forall|i: int| 0 <= i < ps.len() - 1 ==> payment_extend_step(#[trigger] ps[i], ps[i + 1]),
    ensures
        forall|i: int, j: int|
            #![trigger ps[i], ps[j]]
            0 <= i < j < ps.len() ==> ps[i].expiry < ps[j].expiry,
{
    assert forall|i: int, j: int|
        #![trigger ps[i], ps[j]]
        0 <= i < j < ps.len() implies ps[i].expiry < ps[j].expiry by {
        lemma_expiry_between(ps, i, j);
    }
}

} // verus!
