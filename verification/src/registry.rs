//! The registry: every record of a deployment, its counter and its escrow.
//!
//! `Registry` stores the accounts and runs each operation on the ones it
//! touches. Its view, `Ledger`, is what the contracts speak of: a map from
//! node identity to record, beside the counter, the escrowed balance and
//! the fixed stake.

use vstd::prelude::*;
use crate::error::AethernetError;
use crate::identity::Identity;
use crate::node::{uri_fits, NodeDevice};
use crate::operations::{
    deregister_node, initialize_network, register_node, update_uri, DeregisterNode,
    InitializeNetwork, RegisterNode, UpdateUri,
};
use crate::stats::NetworkStats;
use crate::token::{lemma_pow10_monotonic, stake_amount, stake_of, Mint, TokenAccount};
use crate::vault::StakeVault;

verus! {

/// The registry as a mathematical value.
pub struct Ledger {
    /// What one node escrows; fixed for the life of the deployment.
    pub stake: nat,
    /// The counter of active nodes.
    pub total_nodes: nat,
    /// What the vault holds.
    pub escrowed_balance: nat,
    /// The active records, by node identity.
    pub records: Map<u64, NodeDevice>,
}

impl Ledger {
    /// The counter is the number of records, the escrow is one stake for
    /// each of them, and every URI is within the limit.
    pub open spec fn wf(self) -> bool {
        &&& self.stake >= 1
        &&& self.records.dom().finite()
        &&& self.total_nodes == self.records.dom().len()
        &&& self.escrowed_balance == self.stake * self.total_nodes
        &&& forall|id: u64| #[trigger]
            self.records.contains_key(id) ==> uri_fits(self.records[id].uri@)
    }

    /// A network with no node.
    pub open spec fn initial(stake: nat) -> Ledger {
        Ledger { stake, total_nodes: 0, escrowed_balance: 0, records: Map::empty() }
    }

    /// Whether a record exists under `id` and `who` is its authority.
    pub open spec fn owned_by(self, id: u64, who: Seq<u8>) -> bool {
        self.records.contains_key(id) && self.records[id].authority@ == who
    }

    /// The ledger after a node is registered under `id`: one record, one
    /// count and one stake more.
    pub open spec fn register(self, id: u64, authority: Identity, uri: String) -> Ledger {
        Ledger {
            stake: self.stake,
            total_nodes: self.total_nodes + 1,
            escrowed_balance: self.escrowed_balance + self.stake,
            records: self.records.insert(id, NodeDevice { authority, uri }),
        }
    }

    /// The ledger after the record under `id` gets a new URI: nothing else
    /// changes.
    pub open spec fn with_uri(self, id: u64, uri: String) -> Ledger {
        Ledger {
            stake: self.stake,
            total_nodes: self.total_nodes,
            escrowed_balance: self.escrowed_balance,
            records: self.records.insert(
                id,
                NodeDevice { authority: self.records[id].authority, uri },
            ),
        }
    }

    /// The ledger after the record under `id` is removed and its stake paid
    /// back. The counter does not go below zero.
    pub open spec fn deregister(self, id: u64) -> Ledger {
        Ledger {
            stake: self.stake,
            total_nodes: if self.total_nodes > 0 {
                (self.total_nodes - 1) as nat
            } else {
                0
            },
            escrowed_balance: if self.escrowed_balance >= self.stake {
                (self.escrowed_balance - self.stake) as nat
            } else {
                0
            },
            records: self.records.remove(id),
        }
    }

    /// Why a registration is refused, or `None` where it goes through: the
    /// URI is looked at first, then the payer's balance, then the transfer
    /// into escrow, which needs the authority to own the paying account and
    /// the vault to have room.
    pub open spec fn register_refusal(
        self,
        authority: Seq<u8>,
        payer: TokenAccount,
        uri: Seq<char>,
    ) -> Option<AethernetError> {
        if !uri_fits(uri) {
            Some(AethernetError::UriTooLong)
        } else if payer.amount < self.stake {
            Some(AethernetError::InsufficientBalance)
        } else if payer.owner@ != authority {
            Some(AethernetError::TransferFailed)
        } else if self.escrowed_balance + self.stake > u64::MAX {
            Some(AethernetError::TransferFailed)
        } else {
            None
        }
    }

    /// Why a change of URI is refused, or `None` where it goes through: the
    /// URI is looked at first, then whether the record exists, then whether
    /// the caller owns it.
    pub open spec fn update_refusal(self, authority: Seq<u8>, id: u64, uri: Seq<char>) -> Option<
        AethernetError,
    > {
        if !uri_fits(uri) {
            Some(AethernetError::UriTooLong)
        } else if !self.records.contains_key(id) {
            Some(AethernetError::NotFound)
        } else if self.records[id].authority@ != authority {
            Some(AethernetError::Unauthorized)
        } else {
            None
        }
    }

    /// Why a removal is refused, or `None` where it goes through: the
    /// record must exist, the caller must own it, and the receiving account
    /// must have room for the stake.
    pub open spec fn deregister_refusal(self, authority: Seq<u8>, id: u64, payee: TokenAccount)
        -> Option<AethernetError> {
        if !self.records.contains_key(id) {
            Some(AethernetError::NotFound)
        } else if self.records[id].authority@ != authority {
            Some(AethernetError::Unauthorized)
        } else if payee.amount + self.stake > u64::MAX {
            Some(AethernetError::TransferFailed)
        } else {
            None
        }
    }
}

/// What a deployment is set up with: the bootstrap authority, the token
/// that stakes are paid in, and the identity that the vault acts under.
#[derive(Clone, Copy, Debug, PartialEq, Eq)]
pub struct Setup {
    pub authority: Identity,
    pub mint: Mint,
    pub vault: Identity,
}

/// The state of one deployment. A node's identity is the index of the slot
/// that holds its record.
#[derive(Debug)]
pub struct Registry {
    setup: Setup,
    stake: u64,
    network_stats: NetworkStats,
    vault: StakeVault,
    slots: Vec<Option<NodeDevice>>,
}

impl View for Registry {
    type V = Ledger;

    closed spec fn view(&self) -> Ledger {
        Ledger {
            stake: self.stake as nat,
            total_nodes: self.network_stats.total_nodes as nat,
            escrowed_balance: self.vault.account.amount as nat,
            records: Map::new(
                |id: u64| (id as int) < self.slots@.len() && self.slots@[id as int] is Some,
                |id: u64| self.slots@[id as int].unwrap(),
            ),
        }
    }
}

impl Registry {
    /// What the network was set up with. No operation changes it.
    pub closed spec fn setup(&self) -> Setup {
        self.setup
    }

    /// The stake is the one that the mint's precision gives, and the vault
    /// acts under the identity it was set up with and owns its own account.
    pub closed spec fn configured(&self) -> bool {
        &&& self.setup.mint.wf()
        &&& self.stake == stake_of(self.setup.mint.decimals as nat)
        &&& self.vault.authority == self.setup.vault
        &&& self.vault.wf()
    }

    /// The invariant of a registry: its ledger is well formed, and it is
    /// configured as it was set up.
    pub open spec fn wf(&self) -> bool {
        self@.wf() && self.configured()
    }

    /// In a well-formed registry the stake is ten whole tokens of the mint
    /// that the network was set up with: at least ten base units.
    pub proof fn lemma_stake_follows_mint(&self)
        requires
            self.wf(),
        ensures
            self.setup().mint.wf(),
            self@.stake == stake_of(self.setup().mint.decimals as nat),
            self@.stake >= 10,
    {
        lemma_pow10_monotonic(0, self.setup.mint.decimals as nat);
    }

    /// What the network was set up with.
    pub fn configuration(&self) -> (setup: Setup)
        ensures
            setup == self.setup(),
    {
        self.setup
    }

    /// The counter of active nodes.
    pub fn total_nodes(&self) -> (count: u64)
        ensures
            count == self@.total_nodes,
    {
        self.network_stats.total_nodes
    }

    /// The network's counter singleton.
    pub fn network_stats(&self) -> (stats: NetworkStats)
        ensures
            stats.total_nodes == self@.total_nodes,
    {
        self.network_stats
    }

    /// The vault as it stands: its identity and the escrow account.
    pub fn vault(&self) -> (vault: StakeVault)
        ensures
            vault.escrowed() == self@.escrowed_balance,
            self.wf() ==> vault.wf() && vault.authority == self.setup().vault,
    {
        self.vault
    }

    /// What the vault holds in escrow.
    pub fn escrowed_balance(&self) -> (balance: u64)
        ensures
            balance == self@.escrowed_balance,
    {
        self.vault.escrowed_balance()
    }

    /// What one node escrows.
    pub fn stake(&self) -> (stake: u64)
        ensures
            stake == self@.stake,
    {
        self.stake
    }

    /// The record under `id`, if there is one.
    pub fn node(&self, id: u64) -> (found: Option<&NodeDevice>)
        ensures
            found is Some <==> self@.records.contains_key(id),
            found matches Some(node) ==> *node == self@.records[id],
    {
        if id >= self.slots.len() as u64 {
            return None;
        }
        self.slots[id as usize].as_ref()
    }

    /// A copy of the record under `id`, to run an operation on.
    fn load(&self, id: u64) -> (copy: Option<NodeDevice>)
        ensures
            copy is Some <==> self@.records.contains_key(id),
            copy matches Some(node) ==> node == self@.records[id],
    {
        match self.node(id) {
            None => None,
            Some(node) => Some(NodeDevice { authority: node.authority, uri: node.uri.clone() }),
        }
    }

    /// The first slot without a record; the number of slots if all are taken.
    fn free_slot(&self) -> (slot: usize)
        ensures
            slot <= self.slots@.len(),
            forall|j: int| 0 <= j < slot ==> self.slots@[j] is Some,
            slot < self.slots@.len() ==> self.slots@[slot as int] is None,
    {
        let mut i: usize = 0;
        while i < self.slots.len() && self.slots[i].is_some()
            invariant
                i <= self.slots@.len(),
                forall|j: int| 0 <= j < i ==> self.slots@[j] is Some,
            decreases self.slots@.len() - i,
        {
            i += 1;
        }
        i
    }

    /// Sets the network up in an empty place: no node, nothing in escrow,
    /// the stake fixed from the mint's precision. A network that exists
    /// already is left as it is.
    pub fn initialize(place: &mut Option<Registry>, setup: &Setup) -> (outcome: Result<
        (),
        AethernetError,
    >)
        requires
            setup.mint.wf(),
        ensures
            match outcome {
                Ok(()) => {
                    &&& *old(place) is None
                    &&& *final(place) matches Some(registry) && {
                        &&& registry.wf()
                        &&& registry@ == Ledger::initial(stake_of(setup.mint.decimals as nat))
                        &&& registry.setup() == *setup
                    }
                },
                Err(e) => {
                    &&& *old(place) is Some
                    &&& e == AethernetError::AlreadyInitialized
                    &&& *final(place) == *old(place)
                },
            },
    {
        let existing = match &*place {
            Some(registry) => Some(registry.network_stats),
            None => None,
        };
        let mut ctx = InitializeNetwork { authority: setup.authority, network_stats: existing };
        match initialize_network(&mut ctx) {
            Err(e) => {
                return Err(e);
            },
            Ok(()) => {},
        }
        let stake = stake_amount(setup.mint.decimals).unwrap();
        let registry = Registry {
            setup: *setup,
            stake,
            network_stats: ctx.network_stats.unwrap(),
            vault: StakeVault::new(setup.vault),
            slots: Vec::new(),
        };
        proof {
            assert(registry@.records =~= Map::<u64, NodeDevice>::empty());
            assert(stake * 0 == 0);
        }
        *place = Some(registry);
        Ok(())
    }

    /// Registers a node: moves the stake from `payer` into escrow on the
    /// authority's word, stores a record under the least unused identity,
    /// counts it, and returns that identity. A refused registration changes
    /// nothing.
    pub fn register(&mut self, authority: &Identity, payer: &mut TokenAccount, uri: String) -> (outcome:
        Result<u64, AethernetError>)
        requires
            old(self).wf(),
        ensures
            final(self).wf(),
            final(self).setup() == old(self).setup(),
            final(payer).owner == old(payer).owner,
            match outcome {
                Ok(id) => {
                    &&& old(self)@.register_refusal(authority@, *old(payer), uri@) is None
                    &&& !old(self)@.records.contains_key(id)
                    &&& forall|below: u64|
                        below < id ==> #[trigger] old(self)@.records.contains_key(below)
                    &&& final(self)@ == old(self)@.register(id, *authority, uri)
                    &&& final(payer).amount == old(payer).amount - old(self)@.stake
                },
                Err(e) => {
                    &&& old(self)@.register_refusal(authority@, *old(payer), uri@) == Some(e)
                    &&& *final(self) == *old(self)
                    &&& *final(payer) == *old(payer)
                },
            },
    {
        let ghost before = self@;
        let stake = self.stake;
        proof {
            let count = before.total_nodes;
            assert(count < u64::MAX) by (nonlinear_arith)
                requires
                    stake >= 10,
                    stake * count <= u64::MAX,
                    count >= 0,
            ;
            assert(stake * (count + 1) == stake * count + stake) by (nonlinear_arith);
        }
        let mut ctx = RegisterNode {
            authority: *authority,
            user_token_account: *payer,
            vault_token_account: self.vault.account,
            mint: self.setup.mint,
            network_stats: self.network_stats,
        };
        let node = match register_node(&mut ctx, uri) {
            Err(e) => {
                return Err(e);
            },
            Ok(node) => node,
        };
        *payer = ctx.user_token_account;
        self.vault.account = ctx.vault_token_account;
        self.network_stats = ctx.network_stats;
        let slot = self.free_slot();
        if slot < self.slots.len() {
            self.slots.set(slot, Some(node));
        } else {
            self.slots.push(Some(node));
        }
        let id = slot as u64;
        proof {
            assert(self@.records =~= before.records.insert(id, node));
        }
        Ok(id)
    }

    /// Replaces the URI of the record under `id`, which the caller must own.
    /// The record's authority, the counter and the escrow stay as they are;
    /// a refused update changes nothing.
    pub fn update_uri(&mut self, authority: &Identity, id: u64, new_uri: String) -> (outcome:
        Result<(), AethernetError>)
        requires
            old(self).wf(),
        ensures
            final(self).wf(),
            final(self).setup() == old(self).setup(),
            match outcome {
                Ok(()) => {
                    &&& old(self)@.update_refusal(authority@, id, new_uri@) is None
                    &&& final(self)@ == old(self)@.with_uri(id, new_uri)
                },
                Err(e) => {
                    &&& old(self)@.update_refusal(authority@, id, new_uri@) == Some(e)
                    &&& *final(self) == *old(self)
                },
            },
    {
        let ghost before = self@;
        let mut ctx = UpdateUri { authority: *authority, nodes: self.load(id) };
        match update_uri(&mut ctx, new_uri) {
            Err(e) => {
                return Err(e);
            },
            Ok(()) => {},
        }
        let ghost node = ctx.nodes.unwrap();
        let slots = self.slots.len();
        assert(before.records.contains_key(id) && (id as int) < slots);
        let index = id as usize;
        self.slots.set(index, ctx.nodes);
        proof {
            assert(self@.records =~= before.records.insert(id, node));
            assert(before.records.dom().insert(id) =~= before.records.dom());
        }
        Ok(())
    }

    /// Removes the record under `id`, which the caller must own: pays the
    /// stake back out of escrow to `payee`, on the vault's own word, deletes
    /// the record and counts one node less. A refused removal changes
    /// nothing.
    pub fn deregister(&mut self, authority: &Identity, id: u64, payee: &mut TokenAccount) -> (outcome:
        Result<(), AethernetError>)
        requires
            old(self).wf(),
        ensures
            final(self).wf(),
            final(self).setup() == old(self).setup(),
            final(payee).owner == old(payee).owner,
            match outcome {
                Ok(()) => {
                    &&& old(self)@.deregister_refusal(authority@, id, *old(payee)) is None
                    &&& final(self)@ == old(self)@.deregister(id)
                    &&& final(payee).amount == old(payee).amount + old(self)@.stake
                },
                Err(e) => {
                    &&& old(self)@.deregister_refusal(authority@, id, *old(payee)) == Some(e)
                    &&& *final(self) == *old(self)
                    &&& *final(payee) == *old(payee)
                },
            },
    {
        let ghost before = self@;
        let stake = self.stake;
        let mut ctx = DeregisterNode {
            authority: *authority,
            node_device: self.load(id),
            network_stats: self.network_stats,
            mint: self.setup.mint,
            user_token_account: *payee,
            vault_token_account: self.vault.account,
            vault: self.vault.authority,
        };
        proof {
            if before.records.contains_key(id) {
                let count = before.total_nodes;
                assert(before.records.dom().contains(id));
                assert(count >= 1);
                assert(stake * count >= stake && stake * (count - 1) == stake * count - stake)
                    by (nonlinear_arith)
                    requires
                        stake >= 1,
                        count >= 1,
                ;
            }
        }
        match deregister_node(&mut ctx) {
            Err(e) => {
                return Err(e);
            },
            Ok(()) => {},
        }
        let slots = self.slots.len();
        assert(before.records.contains_key(id) && (id as int) < slots);
        let index = id as usize;
        *payee = ctx.user_token_account;
        self.vault.account = ctx.vault_token_account;
        self.network_stats = ctx.network_stats;
        self.slots.set(index, None);
        proof {
            assert(self@.records =~= before.records.remove(id));
        }
        Ok(())
    }
}

} // verus!
