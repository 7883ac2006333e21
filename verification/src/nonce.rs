//! The nonce vault: a per-user counter that makes every authorised request
//! usable once.

use vstd::prelude::*;
use crate::address::Address;
use crate::error::{failure, SafePumpError};

verus! {

/// A user's replay counter and the signer that last authenticated.
#[derive(Clone, Copy, Debug)]
pub struct NonceVault {
    pub bump: u8,
    pub nonce: u64,
    pub last_signer: Address,
}

impl NonceVault {
    /// A fresh vault: nonce zero, no signer yet.
    pub fn new(bump: u8) -> (v: NonceVault)
        ensures
            v.nonce == 0,
            v.bump == bump,
            v.last_signer.is_zero(),
    {
        NonceVault { bump, nonce: 0, last_signer: Address::zero() }
    }

    /// Accepts the supplied nonce exactly when it is the vault's current one.
    pub fn check(&self, supplied_nonce: u64) -> (r: Result<(), SafePumpError>)
        ensures
            r is Ok <==> supplied_nonce == self.nonce,
            r is Err ==> failure(r) == Some(SafePumpError::ReplayRejected),
    {
        if supplied_nonce == self.nonce {
            Ok(())
        } else {
            Err(SafePumpError::ReplayRejected)
        }
    }

    /// Moves the counter on by one. Fails, leaving the vault as it was, when
    /// the counter cannot grow.
    pub fn advance(&mut self) -> (r: Result<(), SafePumpError>)
        ensures
            r is Ok <==> old(self).nonce < u64::MAX,
            r is Ok ==> *final(self) == (NonceVault { nonce: (old(self).nonce + 1) as u64, ..*old(self) }),
            r is Err ==> failure(r) == Some(SafePumpError::Overflow) && *final(self) == *old(self),
    {
        match self.nonce.checked_add(1) {
            Some(next) => {
                self.nonce = next;
                Ok(())
            },
            None => Err(SafePumpError::Overflow),
        }
    }

    /// Checks the supplied nonce and, if it is current, moves the counter on
    /// by one. A mismatch is reported before an exhausted counter.
    pub fn check_and_advance(&mut self, supplied_nonce: u64) -> (r: Result<(), SafePumpError>)
        ensures
            failure(r) == check_and_advance_failure(*old(self), supplied_nonce),
            r is Ok ==> *final(self) == (NonceVault { nonce: (old(self).nonce + 1) as u64, ..*old(self) }),
            r is Err ==> *final(self) == *old(self),
    {
        if supplied_nonce != self.nonce {
            return Err(SafePumpError::ReplayRejected);
        }
        self.advance()
    }
}

/// Why `check_and_advance` fails for a vault and a supplied nonce, if it does.
pub open spec fn check_and_advance_failure(vault: NonceVault, supplied_nonce: u64) -> Option<
    SafePumpError,
> {
    if supplied_nonce != vault.nonce {
        Some(SafePumpError::ReplayRejected)
    } else if vault.nonce == u64::MAX {
        Some(SafePumpError::Overflow)
    } else {
        None
    }
}

} // verus!
