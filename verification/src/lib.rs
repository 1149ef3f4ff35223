//! A custodial vault core: per-owner escrow under a derived, non-human-held
//! authority. Custody addresses are deterministic functions of the owning
//! identity plus a stored disambiguation nonce, never stored themselves; the
//! native-asset state machine (initialize/deposit/withdraw/close) keeps the
//! custody balance at or above the ledger's live minimum reserve, and the
//! token path (lock/unlock) generalizes the pattern to a registered fungible
//! token without that floor. Every action is atomic: on any error, nothing
//! changes.

pub mod derivation;
pub mod native;
pub mod token;

use vstd::prelude::*;

verus! {

/// The error kinds an action of the vault core can surface. Every failure is
/// terminal for the action that raised it: no partial effect is applied.
#[derive(Clone, Copy, Debug, PartialEq, Eq, Structural)]
pub enum VaultError {
    /// `initialize` was called while the vault was not in its initial state.
    AlreadyInitialized,
    /// An action other than `initialize` was called while no vault record exists.
    NotInitialized,
    /// A supplied account address does not match the re-derived address.
    AddressMismatch,
    /// A withdrawal would drop the custody balance below the minimum reserve.
    InsufficientReserve,
    /// The ledger rejected a transfer because the source balance is too small.
    InsufficientBalance,
    /// The supplied token precision does not match the registered precision.
    PrecisionMismatch,
    /// No valid disambiguation nonce exists for the requested derivation.
    DerivationFailure,
}

} // verus!
