//! The four operations, each on the accounts that it touches.
//!
//! An operation is given a context: plain copies of the accounts it reads
//! and writes. It either goes through and leaves the new state in the
//! context, or is refused and leaves the context as it was.

use vstd::prelude::*;
use crate::error::AethernetError;
use crate::identity::Identity;
use crate::node::{check_uri, uri_fits, NodeDevice};
use crate::stats::NetworkStats;
use crate::token::{stake_amount, stake_of, transfer, transfer_refusal, Mint, TokenAccount};

verus! {

/// The accounts of `initialize_network`: who sets the network up, and the
/// counter singleton, absent until the network is initialized.
#[derive(Clone, Copy, Debug, PartialEq, Eq)]
pub struct InitializeNetwork {
    pub authority: Identity,
    pub network_stats: Option<NetworkStats>,
}

/// The accounts of `register_node`: the registering authority, the token
/// account that pays the stake, the escrow account, the mint that fixes the
/// stake, and the counter.
#[derive(Clone, Copy, Debug, PartialEq, Eq)]
pub struct RegisterNode {
    pub authority: Identity,
    pub user_token_account: TokenAccount,
    pub vault_token_account: TokenAccount,
    pub mint: Mint,
    pub network_stats: NetworkStats,
}

/// The accounts of `deregister_node`: the caller, the record to remove
/// (absent if there is none under the identity given), the counter, the
/// mint, the token account that receives the stake, the escrow account and
/// the identity that the vault acts under.
#[derive(Clone, Debug, PartialEq, Eq)]
pub struct DeregisterNode {
    pub authority: Identity,
    pub node_device: Option<NodeDevice>,
    pub network_stats: NetworkStats,
    pub mint: Mint,
    pub user_token_account: TokenAccount,
    pub vault_token_account: TokenAccount,
    pub vault: Identity,
}

/// The accounts of `update_uri`: the caller and the record to change
/// (absent if there is none under the identity given).
#[derive(Clone, Debug, PartialEq, Eq)]
pub struct UpdateUri {
    pub authority: Identity,
    pub nodes: Option<NodeDevice>,
}

/// Creates the counter singleton at zero. A network that exists already is
/// left as it is.
pub fn initialize_network(ctx: &mut InitializeNetwork) -> (outcome: Result<(), AethernetError>)
    ensures
        final(ctx).authority == old(ctx).authority,
        match outcome {
            Ok(()) => {
                &&& old(ctx).network_stats is None
                &&& final(ctx).network_stats == Some(NetworkStats { total_nodes: 0 })
            },
            Err(e) => {
                &&& old(ctx).network_stats is Some
                &&& e == AethernetError::AlreadyInitialized
                &&& *final(ctx) == *old(ctx)
            },
        },
{
    if ctx.network_stats.is_some() {
        return Err(AethernetError::AlreadyInitialized);
    }
    ctx.network_stats = Some(NetworkStats::new());
    Ok(())
}

/// Why a registration is refused, or `None` where it goes through. The URI
/// is looked at first; then the transfer of the stake into escrow, which
/// fails with `InsufficientBalance` where the payer holds too little and
/// with `TransferFailed` otherwise.
pub open spec fn register_refusal(ctx: RegisterNode, uri: Seq<char>) -> Option<AethernetError> {
    if !uri_fits(uri) {
        Some(AethernetError::UriTooLong)
    } else {
        match transfer_refusal(
            stake_of(ctx.mint.decimals as nat) as u64,
            ctx.user_token_account,
            ctx.vault_token_account,
            ctx.authority@,
        ) {
            Some(e) => Some(AethernetError::of_transfer(e)),
            None => None,
        }
    }
}

/// Registers a node: moves the stake from the authority's token account
/// into escrow on the authority's word, counts the node, and returns its
/// record. A refused registration changes nothing.
pub fn register_node(ctx: &mut RegisterNode, uri: String) -> (outcome: Result<
    NodeDevice,
    AethernetError,
>)
    requires
        old(ctx).mint.wf(),
        old(ctx).network_stats.total_nodes < u64::MAX,
    ensures
        final(ctx).authority == old(ctx).authority,
        final(ctx).mint == old(ctx).mint,
        final(ctx).user_token_account.owner == old(ctx).user_token_account.owner,
        final(ctx).vault_token_account.owner == old(ctx).vault_token_account.owner,
        match outcome {
            Ok(node) => {
                &&& register_refusal(*old(ctx), uri@) is None
                &&& node.authority == old(ctx).authority
                &&& node.uri == uri
                &&& final(ctx).network_stats.total_nodes == old(ctx).network_stats.total_nodes
                    + 1
                &&& final(ctx).user_token_account.amount == old(ctx).user_token_account.amount
                    - stake_of(old(ctx).mint.decimals as nat)
                &&& final(ctx).vault_token_account.amount == old(ctx).vault_token_account.amount
                    + stake_of(old(ctx).mint.decimals as nat)
            },
            Err(e) => {
                &&& register_refusal(*old(ctx), uri@) == Some(e)
                &&& *final(ctx) == *old(ctx)
            },
        },
{
    match check_uri(uri.as_str()) {
        Err(e) => {
            return Err(e);
        },
        Ok(()) => {},
    }
    let stake = stake_amount(ctx.mint.decimals).unwrap();
    let authority = ctx.authority;
    match transfer(stake, &mut ctx.user_token_account, &mut ctx.vault_token_account, &authority) {
        Err(e) => {
            return Err(AethernetError::from_transfer(e));
        },
        Ok(()) => {},
    }
    ctx.network_stats.node_added();
    Ok(NodeDevice { authority, uri })
}

/// Why a change of URI is refused, or `None` where it goes through: the URI
/// is looked at first, then whether the record exists, then whether the
/// caller owns it.
pub open spec fn update_refusal(ctx: UpdateUri, uri: Seq<char>) -> Option<AethernetError> {
    if !uri_fits(uri) {
        Some(AethernetError::UriTooLong)
    } else {
        match ctx.nodes {
            None => Some(AethernetError::NotFound),
            Some(node) => if node.authority@ != ctx.authority@ {
                Some(AethernetError::Unauthorized)
            } else {
                None
            },
        }
    }
}

/// Replaces the URI of a record that the caller owns; the record's
/// authority stays. A refused update changes nothing.
pub fn update_uri(ctx: &mut UpdateUri, new_uri: String) -> (outcome: Result<(), AethernetError>)
    ensures
        final(ctx).authority == old(ctx).authority,
        match outcome {
            Ok(()) => {
                &&& update_refusal(*old(ctx), new_uri@) is None
                &&& final(ctx).nodes == Some(
                    NodeDevice { authority: old(ctx).nodes.unwrap().authority, uri: new_uri },
                )
            },
            Err(e) => {
                &&& update_refusal(*old(ctx), new_uri@) == Some(e)
                &&& *final(ctx) == *old(ctx)
            },
        },
{
    match check_uri(new_uri.as_str()) {
        Err(e) => {
            return Err(e);
        },
        Ok(()) => {},
    }
    let owner = match &ctx.nodes {
        None => {
            return Err(AethernetError::NotFound);
        },
        Some(node) => node.authority,
    };
    if !owner.same_as(&ctx.authority) {
        return Err(AethernetError::Unauthorized);
    }
    ctx.nodes = Some(NodeDevice { authority: owner, uri: new_uri });
    Ok(())
}

/// Why a removal is refused, or `None` where it goes through: the record
/// must exist, the caller must own it, and the refund out of escrow, on the
/// vault's own word, must go through.
pub open spec fn deregister_refusal(ctx: DeregisterNode) -> Option<AethernetError> {
    match ctx.node_device {
        None => Some(AethernetError::NotFound),
        Some(node) => if node.authority@ != ctx.authority@ {
            Some(AethernetError::Unauthorized)
        } else if transfer_refusal(
            stake_of(ctx.mint.decimals as nat) as u64,
            ctx.vault_token_account,
            ctx.user_token_account,
            ctx.vault@,
        ) is Some {
            Some(AethernetError::TransferFailed)
        } else {
            None
        },
    }
}

/// Removes a record that the caller owns: pays the stake back out of
/// escrow, deletes the record and counts one node less; a counter at zero
/// stays at zero. A refused removal changes nothing.
pub fn deregister_node(ctx: &mut DeregisterNode) -> (outcome: Result<(), AethernetError>)
    requires
        old(ctx).mint.wf(),
    ensures
        final(ctx).authority == old(ctx).authority,
        final(ctx).mint == old(ctx).mint,
        final(ctx).vault == old(ctx).vault,
        final(ctx).user_token_account.owner == old(ctx).user_token_account.owner,
        final(ctx).vault_token_account.owner == old(ctx).vault_token_account.owner,
        match outcome {
            Ok(()) => {
                &&& deregister_refusal(*old(ctx)) is None
                &&& final(ctx).node_device is None
                &&& final(ctx).network_stats.total_nodes == if old(ctx).network_stats.total_nodes
                    > 0 {
                    old(ctx).network_stats.total_nodes - 1
                } else {
                    0
                }
                &&& final(ctx).user_token_account.amount == old(ctx).user_token_account.amount
                    + stake_of(old(ctx).mint.decimals as nat)
                &&& final(ctx).vault_token_account.amount == old(ctx).vault_token_account.amount
                    - stake_of(old(ctx).mint.decimals as nat)
            },
            Err(e) => {
                &&& deregister_refusal(*old(ctx)) == Some(e)
                &&& *final(ctx) == *old(ctx)
            },
        },
{
    let owned = match &ctx.node_device {
        None => {
            return Err(AethernetError::NotFound);
        },
        Some(node) => node.owned_by(&ctx.authority),
    };
    if !owned {
        return Err(AethernetError::Unauthorized);
    }
    let stake = stake_amount(ctx.mint.decimals).unwrap();
    let signer = ctx.vault;
    match transfer(stake, &mut ctx.vault_token_account, &mut ctx.user_token_account, &signer) {
        Err(_) => {
            return Err(AethernetError::TransferFailed);
        },
        Ok(()) => {},
    }
    ctx.node_device = None;
    ctx.network_stats.node_removed();
    Ok(())
}

} // verus!
