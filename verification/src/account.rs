//! Identities of the parties, assets and custody accounts of the ledger.

use vstd::prelude::*;

verus! {

/// An identity on the hosting ledger.
///
/// A `Wallet` is an ordinary externally held account (a party, or the issuing
/// authority of an asset).  A `Custody` identity is derived deterministically
/// from the manager deployment and a payment id; no secret exists for it, so
/// funds it owns can only move when the escrow engine reproduces the same
/// derivation.  `Null` is the zero identity, which no real account carries.
#[derive(Clone, Copy, Debug, PartialEq, Eq, Structural)]
pub enum AccountId {
    Null,
    Wallet(u64),
    Custody { manager_id: u64, payment_id: u64 },
}

/// The custody authority bound to payment `payment_id` of the manager
/// deployment `manager_id`: the only identity entitled to move funds out of
/// that payment's custody sub-account.
pub open spec fn spec_custody_authority(manager_id: u64, payment_id: u64) -> AccountId {
    AccountId::Custody { manager_id, payment_id }
}

/// Re-derives the custody authority for a payment from its stable
/// identifiers.
pub fn custody_authority(manager_id: u64, payment_id: u64) -> (a: AccountId)
    ensures
        a == spec_custody_authority(manager_id, payment_id),
{
    AccountId::Custody { manager_id, payment_id }
}

} // verus!
