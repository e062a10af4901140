//! An escrowed, time-bounded payment ledger.
//!
//! A sender ("from") locks a fixed quantity of a fungible asset for a named
//! recipient ("to").  The escrow may be released early by either party under
//! specific conditions, claimed by the recipient once an expiry passes, or
//! force-settled.  A privileged "system" account arbitrates sender-initiated
//! cancellations.  The escrow engine is a one-way state machine whose
//! transitions are verified to keep custody of the locked funds exact: funds
//! can never be released twice, released to the wrong party, or stranded.

pub mod account;
pub mod state;
pub mod errors;
pub mod token;
pub mod contexts;
pub mod engine;
pub mod laws;
