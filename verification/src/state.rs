//! The durable records of the ledger: the payment manager singleton and the
//! per-escrow payment record.

use vstd::prelude::*;
use crate::account::AccountId;

verus! {

/// The lifecycle state of a payment record.
///
/// `Active` is the only state that admits further transitions; the other four
/// are terminal, reached by exactly one of the release operations.
#[derive(Clone, Copy, Debug, PartialEq, Eq, Structural)]
pub enum PaymentStatus {
    Active,
    Invalidated,
    Withdrawn,
    Rejected,
    Finalized,
}

impl PaymentStatus {
    /// A terminal status admits no further transition.
    pub open spec fn is_terminal(self) -> bool {
        self !is Active
    }
}

/// The process-wide registry of a deployment: holds the next unused payment
/// id and the privileged "system" arbitration identity.
#[derive(Clone, Copy, Debug, PartialEq, Eq, Structural)]
pub struct PaymentManager {
    /// The identity permitted to change `system`.
    pub authority: AccountId,
    /// The next unused payment id; strictly increasing, never reused.
    pub payment_count: u64,
    /// The identity receiving funds on `invalidate`.
    pub system: AccountId,
}

/// One escrow instance: the record of a fixed quantity of one asset locked by
/// `from` for `to` until `expiry`, driving the one-way state machine.
#[derive(Clone, Copy, Debug, PartialEq, Eq, Structural)]
pub struct Payment {
    /// The sender: the party whose funds are locked.
    pub from: AccountId,
    /// The recipient.
    pub to: AccountId,
    /// The asset type escrowed.
    pub mint: AccountId,
    /// The quantity locked; fixed at creation, never changed.
    pub amount: u64,
    /// The deadline; may only be extended forward, never shortened.
    pub expiry: i64,
    /// The lifecycle state.
    pub status: PaymentStatus,
    /// Assigned from the manager's counter at creation; immutable; derives
    /// this record's dedicated custody sub-account.
    pub payment_id: u64,
}

} // verus!
