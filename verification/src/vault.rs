//! The escrow that holds every active node's stake.

use vstd::prelude::*;
use crate::identity::Identity;
use crate::token::TokenAccount;

verus! {

/// The escrow account and the identity that alone may spend from it. That
/// identity belongs to the registry, never to a caller.
#[derive(Clone, Copy, Debug, PartialEq, Eq)]
pub struct StakeVault {
    pub authority: Identity,
    pub account: TokenAccount,
}

impl StakeVault {
    /// The vault's own identity owns the escrow account.
    pub open spec fn wf(&self) -> bool {
        self.account.owner@ == self.authority@
    }

    /// The balance held in escrow.
    pub open spec fn escrowed(&self) -> u64 {
        self.account.amount
    }

    /// An empty vault under the given identity.
    pub fn new(authority: Identity) -> (vault: StakeVault)
        ensures
            vault.wf(),
            vault.authority == authority,
            vault.escrowed() == 0,
    {
        StakeVault { authority, account: TokenAccount { owner: authority, amount: 0 } }
    }

    /// The balance held in escrow.
    pub fn escrowed_balance(&self) -> (balance: u64)
        ensures
            balance == self.escrowed(),
    {
        self.account.amount
    }
}

} // verus!
