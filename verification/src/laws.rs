//! What holds of the ledger across operations.
//!
//! The operations of a registry change its ledger only by `register`,
//! `with_uri` and `deregister`, or leave it as it is. The laws here are
//! stated over those three and over sequences of them.

use vstd::prelude::*;
use crate::error::AethernetError;
use crate::identity::Identity;
use crate::node::{uri_fits, uri_len, MAX_URI_LENGTH};
use crate::registry::Ledger;
use crate::token::TokenAccount;

verus! {

/// One request to the ledger.
pub enum Operation {
    Register { id: u64, authority: Identity, uri: String },
    UpdateUri { id: u64, authority: Identity, uri: String },
    Deregister { id: u64, authority: Identity },
}

/// Whether the ledger takes the request: a registration needs an unused
/// identity and a URI within the limit; an update needs the caller to own
/// the record and a URI within the limit; a removal needs the caller to own
/// the record.
pub open spec fn accepts(ledger: Ledger, op: Operation) -> bool {
    match op {
        Operation::Register { id, authority, uri } => !ledger.records.contains_key(id)
            && uri_fits(uri@),
        Operation::UpdateUri { id, authority, uri } => ledger.owned_by(id, authority@)
            && uri_fits(uri@),
        Operation::Deregister { id, authority } => ledger.owned_by(id, authority@),
    }
}

/// The ledger after one request: changed if it was taken, else as before.
pub open spec fn step(ledger: Ledger, op: Operation) -> Ledger {
    if !accepts(ledger, op) {
        ledger
    } else {
        match op {
            Operation::Register { id, authority, uri } => ledger.register(id, authority, uri),
            Operation::UpdateUri { id, authority, uri } => ledger.with_uri(id, uri),
            Operation::Deregister { id, authority } => ledger.deregister(id),
        }
    }
}

/// The ledger after a sequence of requests, in order.
pub open spec fn run(ledger: Ledger, ops: Seq<Operation>) -> Ledger
    decreases ops.len(),
{
    if ops.len() == 0 {
        ledger
    } else {
        step(run(ledger, ops.drop_last()), ops.last())
    }
}

/// Whatever a registry lets through is a request that the ledger takes: a
/// registration, under an identity that was unused; a change of URI; a
/// removal.
pub proof fn lemma_unrefused_is_accepted(
    ledger: Ledger,
    authority: Identity,
    id: u64,
    account: TokenAccount,
    uri: String,
)
    ensures
        ledger.register_refusal(authority@, account, uri@) is None && !ledger.records.contains_key(
            id,
        ) ==> accepts(ledger, Operation::Register { id, authority, uri }),
        ledger.update_refusal(authority@, id, uri@) is None ==> accepts(
            ledger,
            Operation::UpdateUri { id, authority, uri },
        ),
        ledger.deregister_refusal(authority@, id, account) is None ==> accepts(
            ledger,
            Operation::Deregister { id, authority },
        ),
{
}

/// A network with no node is well formed.
pub proof fn lemma_initial_is_well_formed(stake: nat)
    requires
        stake >= 1,
    ensures
        Ledger::initial(stake).wf(),
{
    assert(stake * 0 == 0);
}

/// Registering under an unused identity keeps the ledger well formed.
pub proof fn lemma_register_keeps_well_formed(
    ledger: Ledger,
    id: u64,
    authority: Identity,
    uri: String,
)
    requires
        ledger.wf(),
        !ledger.records.contains_key(id),
        uri_fits(uri@),
    ensures
        ledger.register(id, authority, uri).wf(),
{
    let stake = ledger.stake;
    let count = ledger.total_nodes;
    assert(stake * (count + 1) == stake * count + stake) by (nonlinear_arith);
}

/// Changing the URI of an existing record keeps the ledger well formed.
pub proof fn lemma_update_keeps_well_formed(ledger: Ledger, id: u64, uri: String)
    requires
        ledger.wf(),
        ledger.records.contains_key(id),
        uri_fits(uri@),
    ensures
        ledger.with_uri(id, uri).wf(),
{
    assert(ledger.records.dom().insert(id) =~= ledger.records.dom());
}

/// Removing an existing record keeps the ledger well formed.
pub proof fn lemma_deregister_keeps_well_formed(ledger: Ledger, id: u64)
    requires
        ledger.wf(),
        ledger.records.contains_key(id),
    ensures
        ledger.deregister(id).wf(),
{
    let stake = ledger.stake;
    let count = ledger.total_nodes;
    assert(ledger.records.dom().contains(id));
    assert(count >= 1);
    assert(stake * count >= stake && stake * (count - 1) == stake * count - stake)
        by (nonlinear_arith)
        requires
            stake >= 1,
            count >= 1,
    ;
}

/// One request, taken or not, keeps the ledger well formed.
pub proof fn lemma_step_keeps_well_formed(ledger: Ledger, op: Operation)
    requires
        ledger.wf(),
    ensures
        step(ledger, op).wf(),
{
    if accepts(ledger, op) {
        match op {
            Operation::Register { id, authority, uri } => {
                lemma_register_keeps_well_formed(ledger, id, authority, uri);
            },
            Operation::UpdateUri { id, authority, uri } => {
                lemma_update_keeps_well_formed(ledger, id, uri);
            },
            Operation::Deregister { id, authority } => {
                lemma_deregister_keeps_well_formed(ledger, id);
            },
        }
    }
}

/// After any sequence of requests on a well-formed ledger, the counter is
/// the number of active records.
pub proof fn lemma_counter_counts_records(ledger: Ledger, ops: Seq<Operation>)
    requires
        ledger.wf(),
    ensures
        run(ledger, ops).wf(),
        run(ledger, ops).records.dom().finite(),
        run(ledger, ops).total_nodes == run(ledger, ops).records.dom().len(),
    decreases ops.len(),
{
    if ops.len() > 0 {
        lemma_counter_counts_records(ledger, ops.drop_last());
        lemma_step_keeps_well_formed(run(ledger, ops.drop_last()), ops.last());
    }
}

/// After any sequence of requests on a well-formed ledger, the escrow holds
/// one stake for each counted node, and the stake is the one it began with.
pub proof fn lemma_escrow_is_stake_per_node(ledger: Ledger, ops: Seq<Operation>)
    requires
        ledger.wf(),
    ensures
        run(ledger, ops).stake == ledger.stake,
        run(ledger, ops).escrowed_balance == ledger.stake * run(ledger, ops).total_nodes,
    decreases ops.len(),
{
    if ops.len() > 0 {
        lemma_escrow_is_stake_per_node(ledger, ops.drop_last());
        lemma_counter_counts_records(ledger, ops);
    }
}

/// Registering a node and then removing it, by the same authority, gives
/// back the ledger it began with: the counter and the escrow are as before
/// and no record is left under the identity.
pub proof fn lemma_register_then_deregister(
    ledger: Ledger,
    id: u64,
    authority: Identity,
    uri: String,
)
    requires
        !ledger.records.contains_key(id),
    ensures
        ledger.register(id, authority, uri).owned_by(id, authority@),
        ledger.register(id, authority, uri).deregister(id).total_nodes == ledger.total_nodes,
        ledger.register(id, authority, uri).deregister(id).escrowed_balance
            == ledger.escrowed_balance,
        !ledger.register(id, authority, uri).deregister(id).records.contains_key(id),
        ledger.register(id, authority, uri).deregister(id) == ledger,
{
    let back = ledger.register(id, authority, uri).deregister(id);
    assert(back.records =~= ledger.records);
}

/// A change of URI leaves the counter, the escrow, the stake, the set of
/// identities, the record's authority and every other record as they were.
pub proof fn lemma_update_changes_only_uri(ledger: Ledger, id: u64, uri: String)
    requires
        ledger.records.contains_key(id),
    ensures
        ledger.with_uri(id, uri).total_nodes == ledger.total_nodes,
        ledger.with_uri(id, uri).escrowed_balance == ledger.escrowed_balance,
        ledger.with_uri(id, uri).stake == ledger.stake,
        ledger.with_uri(id, uri).records.dom() == ledger.records.dom(),
        ledger.with_uri(id, uri).records[id].authority == ledger.records[id].authority,
        ledger.with_uri(id, uri).records[id].uri == uri,
        forall|other: u64|
            other != id && ledger.records.contains_key(other) ==> #[trigger] ledger.with_uri(
                id,
                uri,
            ).records[other] == ledger.records[other],
{
    assert(ledger.records.dom().insert(id) =~= ledger.records.dom());
}

/// A change of URI goes through only with a URI within the limit, on a
/// record that the caller owns.
pub proof fn lemma_update_needs_short_uri_and_owner(
    ledger: Ledger,
    authority: Seq<u8>,
    id: u64,
    uri: Seq<char>,
)
    ensures
        ledger.update_refusal(authority, id, uri) is None <==> uri_fits(uri) && ledger.owned_by(
            id,
            authority,
        ),
        !uri_fits(uri) ==> ledger.update_refusal(authority, id, uri) == Some(
            AethernetError::UriTooLong,
        ),
{
}

/// Whoever is not the authority of an existing record is refused its
/// removal as unauthorized, whatever else holds.
pub proof fn lemma_stranger_cannot_deregister(
    ledger: Ledger,
    stranger: Seq<u8>,
    id: u64,
    payee: TokenAccount,
)
    requires
        ledger.records.contains_key(id),
        ledger.records[id].authority@ != stranger,
    ensures
        ledger.deregister_refusal(stranger, id, payee) == Some(AethernetError::Unauthorized),
{
}

/// A URI longer than the limit is refused at registration, whatever else
/// holds.
pub proof fn lemma_long_uri_cannot_register(
    ledger: Ledger,
    authority: Seq<u8>,
    payer: TokenAccount,
    uri: Seq<char>,
)
    requires
        uri_len(uri) > MAX_URI_LENGTH,
    ensures
        ledger.register_refusal(authority, payer, uri) == Some(AethernetError::UriTooLong),
{
}

/// A removal on a counter at zero leaves it at zero.
pub proof fn lemma_deregister_floors_at_zero(ledger: Ledger, id: u64)
    requires
        ledger.total_nodes == 0,
    ensures
        ledger.deregister(id).total_nodes == 0,
{
}

/// In a well-formed ledger with a counter at zero there is no record, so
/// every removal is refused as not found.
pub proof fn lemma_nothing_to_deregister_at_zero(
    ledger: Ledger,
    authority: Seq<u8>,
    id: u64,
    payee: TokenAccount,
)
    requires
        ledger.wf(),
        ledger.total_nodes == 0,
    ensures
        ledger.deregister_refusal(authority, id, payee) == Some(AethernetError::NotFound),
{
    if ledger.records.contains_key(id) {
        assert(ledger.records.dom().contains(id));
        assert(ledger.records.dom().len() >= 1);
    }
}

} // verus!
