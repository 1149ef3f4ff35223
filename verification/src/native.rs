//! The Native-Asset Vault Core: the state machine governing
//! initialize/deposit/withdraw/close over the ledger's native currency for
//! one owning identity. Addresses are never stored: every action re-derives
//! the Vault Record address from the owner and the custody address from the
//! record address, using the nonces fixed at creation, and rejects any
//! supplied address that the derivation does not reproduce before a transfer
//! is attempted.

use vstd::prelude::*;

use crate::derivation::{
    bytes_eq, derive_at, pda_at, pda_of, spec_tag_state, spec_tag_vault, tag_state, tag_vault,
};
use crate::VaultError;

verus! {

/// Bytes of record data proper: the two stored nonces.
pub const RECORD_NONCES_SIZE: u64 = 2;

/// Bytes of the fixed-size discriminator prefix the storage layer puts in
/// front of the record data.
pub const RECORD_PREFIX_SIZE: u64 = 8;

/// Total allocated size of a Vault Record.
pub const RECORD_SIZE: u64 = RECORD_NONCES_SIZE + RECORD_PREFIX_SIZE;

/// Current protocol parameters behind the Reserve Query. They are fetched
/// live by the caller for every action and passed in, never cached by the
/// core, since they can change with protocol parameters.
#[derive(Clone, Copy, Debug, PartialEq, Eq, Structural)]
pub struct ReserveParams {
    /// Minimum reserve of an account holding no data.
    pub reserve_base: u64,
    /// Additional reserve per byte of account data.
    pub reserve_per_byte: u64,
}

impl ReserveParams {
    /// The smallest balance an account with `data_size` bytes of data must
    /// hold to remain valid under these parameters.
    pub open spec fn spec_minimum_reserve(self, data_size: u64) -> int {
        self.reserve_base + self.reserve_per_byte * data_size
    }

    /// The Reserve Query, evaluated on the supplied live parameters.
    pub fn minimum_reserve(&self, data_size: u64) -> (r: u64)
        requires
            self.spec_minimum_reserve(data_size) <= u64::MAX,
        ensures
            r == self.spec_minimum_reserve(data_size),
    {
        self.reserve_base + self.reserve_per_byte * data_size
    }
}

/// The decision behind the reserve invariant: a withdrawal of `amount` from
/// a custody account holding `balance` may proceed exactly when the balance
/// covers the live minimum reserve plus the amount; equality is enough.
pub fn reserve_allows(balance: u64, reserve: u64, amount: u64) -> (r: bool)
    ensures
        r == (balance >= reserve + amount),
{
    balance >= reserve && balance - reserve >= amount
}

/// The persisted Vault Record: exactly the two disambiguation nonces needed
/// to reconstruct the record address and the custody address for one owner.
/// Both are fixed at creation and never change.
#[derive(Clone, Copy, Debug, PartialEq, Eq, Structural)]
pub struct VaultState {
    /// Nonce that re-derives the record's own address from the owner.
    pub state_bump: u8,
    /// Nonce that re-derives the custody address from the record's address.
    pub vault_bump: u8,
}

/// The lifecycle of one owner's native-asset vault.
#[derive(Clone, Copy, Debug, PartialEq, Eq, Structural)]
pub enum Phase {
    /// No Vault Record exists yet.
    Uninitialized,
    /// The Vault Record exists; deposit, withdraw and close are available.
    Active,
    /// The Vault Record has been destroyed; terminal.
    Closed,
}

/// One owner's slice of ledger state for the native-asset path: the owner's
/// wallet balance, the custody account's balance, and the Vault Record with
/// the reserve its storage allocation holds. Actions are atomic: each either
/// applies all of its effects or, on any error, none.
pub struct NativeVault {
    /// Address (32 bytes) of the program the derivations are scoped to.
    pub program_id: Vec<u8>,
    /// Address (32 bytes) of the owning identity.
    pub owner: Vec<u8>,
    /// The owner's native wallet balance.
    pub owner_balance: u64,
    /// The custody account's native balance.
    pub custody_balance: u64,
    /// The Vault Record, present exactly while the vault is active.
    pub record: Option<VaultState>,
    /// The reserve held by the record's storage allocation, refunded on close.
    pub record_reserve: u64,
    /// Whether `close` has destroyed the record; terminal.
    pub closed: bool,
}

impl NativeVault {
    /// Which state of the machine this world is in.
    pub open spec fn phase(self) -> Phase {
        if self.closed {
            Phase::Closed
        } else if self.record is Some {
            Phase::Active
        } else {
            Phase::Uninitialized
        }
    }

    /// Well-formedness: addresses have ledger width, a closed vault holds no
    /// record, and before initialization the custody account and the record
    /// allocation hold nothing.
    pub open spec fn wf(self) -> bool {
        &&& self.program_id@.len() == 32
        &&& self.owner@.len() == 32
        &&& self.closed ==> self.record is None
        &&& self.phase() is Uninitialized ==> self.custody_balance == 0
        &&& self.phase() is Uninitialized ==> self.record_reserve == 0
    }

    /// The record address and nonce the Deriver assigns to this owner.
    pub open spec fn derived_record(self) -> Option<(Seq<u8>, u8)> {
        pda_of(spec_tag_state(), self.owner@, self.program_id@)
    }

    /// The custody address and nonce derived from the record address.
    pub open spec fn derived_custody(self) -> Option<(Seq<u8>, u8)> {
        match self.derived_record() {
            Some(p) => pda_of(spec_tag_vault(), p.0, self.program_id@),
            None => None,
        }
    }

    /// The supplied record address is reproduced by re-derivation from the
    /// owner with the stored nonce.
    pub open spec fn record_matches(self, addr: Seq<u8>) -> bool {
        self.record matches Some(rec)
            && pda_at(spec_tag_state(), self.owner@, rec.state_bump, self.program_id@)
            == Some(addr)
    }

    /// The supplied custody address is reproduced by re-derivation from the
    /// record address with the stored nonce. Reproducing this derivation is
    /// also the capability that authorizes a transfer out of the custody
    /// account: it is scoped to exactly this address and no other.
    pub open spec fn custody_matches(self, record_addr: Seq<u8>, addr: Seq<u8>) -> bool {
        self.record matches Some(rec)
            && pda_at(spec_tag_vault(), record_addr, rec.vault_bump, self.program_id@)
            == Some(addr)
    }

    /// A fresh world for one owner: no record, an empty custody account.
    pub fn new(program_id: Vec<u8>, owner: Vec<u8>, owner_balance: u64) -> (r: NativeVault)
        requires
            program_id@.len() == 32,
            owner@.len() == 32,
        ensures
            r.wf(),
            r.phase() is Uninitialized,
            r.program_id@ == program_id@,
            r.owner@ == owner@,
            r.owner_balance == owner_balance,
            r.custody_balance == 0,
            r.record_reserve == 0,
    {
        NativeVault {
            program_id,
            owner,
            owner_balance,
            custody_balance: 0,
            record: None,
            record_reserve: 0,
            closed: false,
        }
    }

    /// Creates the Vault Record, allocating its storage at the owner's cost,
    /// and funds the custody account with exactly the minimum reserve of a
    /// zero-size account, so that the reserve invariant holds immediately.
    /// Valid only while uninitialized: re-initialization is an error, not a
    /// no-op.
    pub fn initialize(&mut self, params: &ReserveParams) -> (r: Result<(), VaultError>)
        requires
            old(self).wf(),
            params.spec_minimum_reserve(RECORD_SIZE) <= u64::MAX,
        ensures
            final(self).wf(),
            r is Ok <==> {
                &&& old(self).phase() is Uninitialized
                &&& old(self).derived_record() is Some
                &&& old(self).derived_custody() is Some
                &&& old(self).owner_balance >= params.spec_minimum_reserve(RECORD_SIZE)
                    + params.spec_minimum_reserve(0)
            },
            r is Ok ==> {
                &&& final(self).phase() is Active
                &&& final(self).record == Some(VaultState {
                    state_bump: old(self).derived_record()->Some_0.1,
                    vault_bump: old(self).derived_custody()->Some_0.1,
                })
                &&& final(self).custody_balance == params.spec_minimum_reserve(0)
                &&& final(self).owner_balance == old(self).owner_balance
                    - params.spec_minimum_reserve(RECORD_SIZE) - params.spec_minimum_reserve(0)
                &&& final(self).record_reserve == params.spec_minimum_reserve(RECORD_SIZE)
                &&& final(self).program_id == old(self).program_id
                &&& final(self).owner == old(self).owner
                &&& final(self).closed == old(self).closed
            },
            r is Err ==> *final(self) == *old(self),
            !(old(self).phase() is Uninitialized) ==> r == Err::<(), VaultError>(
                VaultError::AlreadyInitialized,
            ),
            old(self).phase() is Uninitialized && (old(self).derived_record() is None
                || old(self).derived_custody() is None) ==> r == Err::<(), VaultError>(
                VaultError::DerivationFailure,
            ),
            old(self).phase() is Uninitialized && old(self).derived_record() is Some && old(
                self,
            ).derived_custody() is Some && old(self).owner_balance < params.spec_minimum_reserve(
                RECORD_SIZE,
            ) + params.spec_minimum_reserve(0) ==> r == Err::<(), VaultError>(
                VaultError::InsufficientBalance,
            ),
    {
        if self.closed || self.record.is_some() {
            return Err(VaultError::AlreadyInitialized);
        }
        let tag_s = tag_state();
        let rec = match crate::derivation::derive(&tag_s, &self.owner, &self.program_id) {
            Some(p) => p,
            None => {
                return Err(VaultError::DerivationFailure);
            },
        };
        let tag_v = tag_vault();
        let cus = match crate::derivation::derive(&tag_v, &rec.0, &self.program_id) {
            Some(p) => p,
            None => {
                return Err(VaultError::DerivationFailure);
            },
        };
        let alloc = params.minimum_reserve(RECORD_SIZE);
        let reserve0 = params.minimum_reserve(0);
        if self.owner_balance < alloc || self.owner_balance - alloc < reserve0 {
            return Err(VaultError::InsufficientBalance);
        }
        self.owner_balance = self.owner_balance - alloc - reserve0;
        self.custody_balance = self.custody_balance + reserve0;
        self.record = Some(VaultState { state_bump: rec.1, vault_bump: cus.1 });
        self.record_reserve = alloc;
        Ok(())
    }

    /// Moves `amount` from the owner's wallet into the custody account, after
    /// re-deriving both addresses and rejecting any supplied address the
    /// derivation does not reproduce. A zero amount is accepted and moves
    /// nothing; it must not fail the authorization checks.
    pub fn deposit(
        &mut self,
        record_addr: &Vec<u8>,
        custody_addr: &Vec<u8>,
        amount: u64,
    ) -> (r: Result<(), VaultError>)
        requires
            old(self).wf(),
            old(self).custody_balance + amount <= u64::MAX,
        ensures
            final(self).wf(),
            r is Ok <==> {
                &&& old(self).phase() is Active
                &&& old(self).record_matches(record_addr@)
                &&& old(self).custody_matches(record_addr@, custody_addr@)
                &&& old(self).owner_balance >= amount
            },
            r is Ok ==> {
                &&& final(self).owner_balance == old(self).owner_balance - amount
                &&& final(self).custody_balance == old(self).custody_balance + amount
                &&& final(self).record == old(self).record
                &&& final(self).record_reserve == old(self).record_reserve
                &&& final(self).program_id == old(self).program_id
                &&& final(self).owner == old(self).owner
                &&& final(self).closed == old(self).closed
            },
            r is Err ==> *final(self) == *old(self),
            !(old(self).phase() is Active) ==> r == Err::<(), VaultError>(
                VaultError::NotInitialized,
            ),
            old(self).phase() is Active && !(old(self).record_matches(record_addr@) && old(
                self,
            ).custody_matches(record_addr@, custody_addr@)) ==> r == Err::<(), VaultError>(
                VaultError::AddressMismatch,
            ),
            old(self).phase() is Active && old(self).record_matches(record_addr@) && old(
                self,
            ).custody_matches(record_addr@, custody_addr@) && old(self).owner_balance < amount
                ==> r == Err::<(), VaultError>(VaultError::InsufficientBalance),
    {
        if self.closed {
            return Err(VaultError::NotInitialized);
        }
        let rec = match self.record {
            Some(rec) => rec,
            None => {
                return Err(VaultError::NotInitialized);
            },
        };
        let tag_s = tag_state();
        let rec_ok = match derive_at(&tag_s, &self.owner, rec.state_bump, &self.program_id) {
            Some(a) => bytes_eq(&a, record_addr),
            None => false,
        };
        if !rec_ok {
            return Err(VaultError::AddressMismatch);
        }
        let tag_v = tag_vault();
        let cus_ok = match derive_at(&tag_v, record_addr, rec.vault_bump, &self.program_id) {
            Some(a) => bytes_eq(&a, custody_addr),
            None => false,
        };
        if !cus_ok {
            return Err(VaultError::AddressMismatch);
        }
        if self.owner_balance < amount {
            return Err(VaultError::InsufficientBalance);
        }
        self.owner_balance = self.owner_balance - amount;
        self.custody_balance = self.custody_balance + amount;
        Ok(())
    }

    /// Moves `amount` out of the custody account back to the owner, rejecting
    /// any withdrawal that would leave the custody balance strictly under the
    /// live minimum reserve of a zero-size account. The transfer out is
    /// authorized by re-deriving the custody address from the record address
    /// and the stored nonce, a capability scoped to exactly this custody
    /// account.
    pub fn withdraw(
        &mut self,
        record_addr: &Vec<u8>,
        custody_addr: &Vec<u8>,
        amount: u64,
        params: &ReserveParams,
    ) -> (r: Result<(), VaultError>)
        requires
            old(self).wf(),
            old(self).owner_balance + amount <= u64::MAX,
        ensures
            final(self).wf(),
            r is Ok <==> {
                &&& old(self).phase() is Active
                &&& old(self).record_matches(record_addr@)
                &&& old(self).custody_matches(record_addr@, custody_addr@)
                &&& old(self).custody_balance >= params.spec_minimum_reserve(0) + amount
            },
            r is Ok ==> {
                &&& final(self).owner_balance == old(self).owner_balance + amount
                &&& final(self).custody_balance == old(self).custody_balance - amount
                &&& final(self).custody_balance >= params.spec_minimum_reserve(0)
                &&& final(self).record == old(self).record
                &&& final(self).record_reserve == old(self).record_reserve
                &&& final(self).program_id == old(self).program_id
                &&& final(self).owner == old(self).owner
                &&& final(self).closed == old(self).closed
            },
            r is Err ==> *final(self) == *old(self),
            !(old(self).phase() is Active) ==> r == Err::<(), VaultError>(
                VaultError::NotInitialized,
            ),
            old(self).phase() is Active && !(old(self).record_matches(record_addr@) && old(
                self,
            ).custody_matches(record_addr@, custody_addr@)) ==> r == Err::<(), VaultError>(
                VaultError::AddressMismatch,
            ),
            old(self).phase() is Active && old(self).record_matches(record_addr@) && old(
                self,
            ).custody_matches(record_addr@, custody_addr@) && old(self).custody_balance
                < params.spec_minimum_reserve(0) + amount ==> r == Err::<(), VaultError>(
                VaultError::InsufficientReserve,
            ),
    {
        if self.closed {
            return Err(VaultError::NotInitialized);
        }
        let rec = match self.record {
            Some(rec) => rec,
            None => {
                return Err(VaultError::NotInitialized);
            },
        };
        let tag_s = tag_state();
        let rec_ok = match derive_at(&tag_s, &self.owner, rec.state_bump, &self.program_id) {
            Some(a) => bytes_eq(&a, record_addr),
            None => false,
        };
        if !rec_ok {
            return Err(VaultError::AddressMismatch);
        }
        let tag_v = tag_vault();
        let cus_ok = match derive_at(&tag_v, record_addr, rec.vault_bump, &self.program_id) {
            Some(a) => bytes_eq(&a, custody_addr),
            None => false,
        };
        if !cus_ok {
            return Err(VaultError::AddressMismatch);
        }
        let reserve0 = params.minimum_reserve(0);
        if !reserve_allows(self.custody_balance, reserve0, amount) {
            return Err(VaultError::InsufficientReserve);
        }
        self.custody_balance = self.custody_balance - amount;
        self.owner_balance = self.owner_balance + amount;
        Ok(())
    }

    /// Destroys the Vault Record and refunds its storage allocation to the
    /// owner; terminal. The custody account itself is deliberately left
    /// untouched: any residual value there is outside this action.
    pub fn close(&mut self, record_addr: &Vec<u8>) -> (r: Result<(), VaultError>)
        requires
            old(self).wf(),
            old(self).owner_balance + old(self).record_reserve <= u64::MAX,
        ensures
            final(self).wf(),
            r is Ok <==> old(self).phase() is Active && old(self).record_matches(record_addr@),
            r is Ok ==> {
                &&& final(self).phase() is Closed
                &&& final(self).record is None
                &&& final(self).owner_balance == old(self).owner_balance + old(self).record_reserve
                &&& final(self).record_reserve == 0
                &&& final(self).custody_balance == old(self).custody_balance
                &&& final(self).program_id == old(self).program_id
                &&& final(self).owner == old(self).owner
            },
            r is Err ==> *final(self) == *old(self),
            !(old(self).phase() is Active) ==> r == Err::<(), VaultError>(
                VaultError::NotInitialized,
            ),
            old(self).phase() is Active && !old(self).record_matches(record_addr@) ==> r
                == Err::<(), VaultError>(VaultError::AddressMismatch),
    {
        if self.closed {
            return Err(VaultError::NotInitialized);
        }
        let rec = match self.record {
            Some(rec) => rec,
            None => {
                return Err(VaultError::NotInitialized);
            },
        };
        let tag_s = tag_state();
        let rec_ok = match derive_at(&tag_s, &self.owner, rec.state_bump, &self.program_id) {
            Some(a) => bytes_eq(&a, record_addr),
            None => false,
        };
        if !rec_ok {
            return Err(VaultError::AddressMismatch);
        }
        self.owner_balance = self.owner_balance + self.record_reserve;
        self.record_reserve = 0;
        self.record = None;
        self.closed = true;
        Ok(())
    }

    /// The phase, observable by callers.
    pub fn current_phase(&self) -> (p: Phase)
        ensures
            p == self.phase(),
    {
        if self.closed {
            Phase::Closed
        } else if self.record.is_some() {
            Phase::Active
        } else {
            Phase::Uninitialized
        }
    }
}

} // verus!
