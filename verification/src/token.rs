//! The Token Vault Core: lock/unlock of a registered fungible token for one
//! owning identity. Unlike the native-asset path there is no separate Vault
//! Record and no nonce-derived authority: the custody balance-ledger account
//! is associated with the owner directly, created on first use, and both
//! directions are authorized by the owner's own signature. There is also no
//! minimum-reserve floor: unlocking the full balance down to zero is
//! permitted. Both asymmetries are deliberate and preserved as found.

use vstd::prelude::*;

use crate::VaultError;

verus! {

/// One owner's slice of the token balance ledger for one registered token
/// type: the owner's own balance account, the custody balance account, and
/// the token type's registered precision. Actions are atomic: each either
/// applies all of its effects or, on any error, none.
pub struct TokenVault {
    /// The token type's registered precision (decimal places).
    pub precision: u8,
    /// The owner's own balance of this token type.
    pub owner_token_balance: u64,
    /// The custody account's balance of this token type.
    pub custody_token_balance: u64,
    /// Whether the custody balance account has been created yet; it is
    /// created on first use.
    pub custody_exists: bool,
}

impl TokenVault {
    /// Well-formedness: a custody account that does not exist yet holds
    /// nothing.
    pub open spec fn wf(self) -> bool {
        !self.custody_exists ==> self.custody_token_balance == 0
    }

    /// A fresh world for one owner and one token type: no custody account
    /// yet.
    pub fn new(precision: u8, owner_token_balance: u64) -> (r: TokenVault)
        ensures
            r.wf(),
            r.precision == precision,
            r.owner_token_balance == owner_token_balance,
            r.custody_token_balance == 0,
            !r.custody_exists,
    {
        TokenVault {
            precision,
            owner_token_balance,
            custody_token_balance: 0,
            custody_exists: false,
        }
    }

    /// Moves `amount` of the token from the owner's balance account into the
    /// custody account, creating the custody account first if it is absent.
    /// The supplied precision must equal the token type's registered
    /// precision; a mismatch is a hard failure before any transfer.
    pub fn lock(&mut self, supplied_precision: u8, amount: u64) -> (r: Result<(), VaultError>)
        requires
            old(self).wf(),
            old(self).custody_token_balance + amount <= u64::MAX,
        ensures
            final(self).wf(),
            r is Ok <==> supplied_precision == old(self).precision && old(
                self,
            ).owner_token_balance >= amount,
            r is Ok ==> {
                &&& final(self).owner_token_balance == old(self).owner_token_balance - amount
                &&& final(self).custody_token_balance == old(self).custody_token_balance + amount
                &&& final(self).custody_exists
                &&& final(self).precision == old(self).precision
            },
            r is Err ==> *final(self) == *old(self),
            supplied_precision != old(self).precision ==> r == Err::<(), VaultError>(
                VaultError::PrecisionMismatch,
            ),
            supplied_precision == old(self).precision && old(self).owner_token_balance < amount
                ==> r == Err::<(), VaultError>(VaultError::InsufficientBalance),
    {
        if supplied_precision != self.precision {
            return Err(VaultError::PrecisionMismatch);
        }
        if self.owner_token_balance < amount {
            return Err(VaultError::InsufficientBalance);
        }
        self.custody_exists = true;
        self.owner_token_balance = self.owner_token_balance - amount;
        self.custody_token_balance = self.custody_token_balance + amount;
        Ok(())
    }

    /// Moves `amount` of the token from the custody account back to the
    /// owner's balance account, creating the custody account first if it is
    /// absent. No minimum-reserve floor applies on this path: the custody
    /// balance may be drawn down to exactly zero without error.
    pub fn unlock(&mut self, supplied_precision: u8, amount: u64) -> (r: Result<(), VaultError>)
        requires
            old(self).wf(),
            old(self).owner_token_balance + amount <= u64::MAX,
        ensures
            final(self).wf(),
            r is Ok <==> supplied_precision == old(self).precision && old(
                self,
            ).custody_token_balance >= amount,
            r is Ok ==> {
                &&& final(self).owner_token_balance == old(self).owner_token_balance + amount
                &&& final(self).custody_token_balance == old(self).custody_token_balance - amount
                &&& final(self).custody_exists
                &&& final(self).precision == old(self).precision
            },
            r is Err ==> *final(self) == *old(self),
            supplied_precision != old(self).precision ==> r == Err::<(), VaultError>(
                VaultError::PrecisionMismatch,
            ),
            supplied_precision == old(self).precision && old(self).custody_token_balance < amount
                ==> r == Err::<(), VaultError>(VaultError::InsufficientBalance),
    {
        if supplied_precision != self.precision {
            return Err(VaultError::PrecisionMismatch);
        }
        if self.custody_token_balance < amount {
            return Err(VaultError::InsufficientBalance);
        }
        self.custody_exists = true;
        self.owner_token_balance = self.owner_token_balance + amount;
        self.custody_token_balance = self.custody_token_balance - amount;
        Ok(())
    }
}

} // verus!
