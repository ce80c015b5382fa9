use aethernet::{AethernetError, Identity, Mint, Registry, Setup, TokenAccount};

fn key(tag: u8) -> Identity {
    Identity::new([tag; 32])
}

fn network(decimals: u8) -> Registry {
    let mut place = None;
    let setup = Setup {
        authority: key(100),
        mint: Mint::new(decimals).unwrap(),
        vault: key(200),
    };
    assert_eq!(Registry::initialize(&mut place, &setup), Ok(()));
    place.unwrap()
}

fn wallet(owner: Identity, amount: u64) -> TokenAccount {
    TokenAccount { owner, amount }
}

#[test]
fn initialize_creates_an_empty_network() {
    let registry = network(6);
    assert_eq!(registry.total_nodes(), 0);
    assert_eq!(registry.network_stats().total_nodes, 0);
    assert_eq!(registry.escrowed_balance(), 0);
    assert_eq!(registry.stake(), 10_000_000);
    assert_eq!(registry.vault().authority, key(200));
    assert_eq!(registry.vault().account.owner, key(200));
    assert_eq!(registry.configuration().authority, key(100));
    assert_eq!(registry.configuration().mint.decimals, 6);
    assert!(registry.node(0).is_none());
}

#[test]
fn initialize_twice_is_refused() {
    let mut place = None;
    let setup = Setup { authority: key(100), mint: Mint::new(0).unwrap(), vault: key(200) };
    assert_eq!(Registry::initialize(&mut place, &setup), Ok(()));
    let mut purse = wallet(key(1), 10);
    assert_eq!(
        place.as_mut().unwrap().register(&key(1), &mut purse, String::from("uri1")),
        Ok(0)
    );
    let other = Setup { authority: key(101), mint: Mint::new(3).unwrap(), vault: key(201) };
    assert_eq!(
        Registry::initialize(&mut place, &other),
        Err(AethernetError::AlreadyInitialized)
    );
    let registry = place.unwrap();
    assert_eq!(registry.total_nodes(), 1);
    assert_eq!(registry.stake(), 10);
    assert_eq!(registry.configuration(), setup);
}

#[test]
fn register_escrows_the_stake_and_counts_the_node() {
    let mut registry = network(2);
    let a = key(1);
    let mut purse = wallet(a, 2_500);
    let id = registry.register(&a, &mut purse, String::from("uri1")).unwrap();
    assert_eq!(id, 0);
    assert_eq!(registry.total_nodes(), 1);
    assert_eq!(registry.escrowed_balance(), 1_000);
    assert_eq!(purse.amount, 1_500);
    let node = registry.node(id).unwrap();
    assert_eq!(node.authority, a);
    assert_eq!(node.uri, "uri1");

    let second = registry.register(&a, &mut purse, String::from("uri2")).unwrap();
    assert_eq!(second, 1);
    assert_eq!(registry.total_nodes(), 2);
    assert_eq!(registry.escrowed_balance(), 2_000);
    assert_eq!(purse.amount, 500);
    assert_eq!(registry.node(0).unwrap().uri, "uri1");
    assert_eq!(registry.node(1).unwrap().uri, "uri2");
    assert_eq!(registry.node(1).unwrap().authority, a);
}

#[test]
fn register_then_deregister_restores_counter_and_escrow() {
    let mut registry = network(0);
    let a = key(1);
    let b = key(2);
    let mut other = wallet(b, 10);
    assert_eq!(registry.register(&b, &mut other, String::from("other")), Ok(0));
    let nodes_before = registry.total_nodes();
    let escrow_before = registry.escrowed_balance();

    let mut purse = wallet(a, 25);
    let id = registry.register(&a, &mut purse, String::from("uri1")).unwrap();
    assert_eq!(registry.total_nodes(), nodes_before + 1);
    assert_eq!(registry.escrowed_balance(), escrow_before + 10);

    assert_eq!(registry.deregister(&a, id, &mut purse), Ok(()));
    assert_eq!(registry.total_nodes(), nodes_before);
    assert_eq!(registry.escrowed_balance(), escrow_before);
    assert_eq!(purse.amount, 25);
    assert!(registry.node(id).is_none());
    assert_eq!(registry.node(0).unwrap().uri, "other");
    assert_eq!(
        registry.deregister(&a, id, &mut purse),
        Err(AethernetError::NotFound)
    );
    assert_eq!(
        registry.update_uri(&a, id, String::from("gone")),
        Err(AethernetError::NotFound)
    );
}

#[test]
fn update_uri_changes_only_the_uri() {
    let mut registry = network(0);
    let a = key(1);
    let mut purse = wallet(a, 10);
    let id = registry.register(&a, &mut purse, String::from("uri1")).unwrap();
    assert_eq!(registry.update_uri(&a, id, String::from("uri2")), Ok(()));
    let node = registry.node(id).unwrap();
    assert_eq!(node.uri, "uri2");
    assert_eq!(node.authority, a);
    assert_eq!(registry.total_nodes(), 1);
    assert_eq!(registry.escrowed_balance(), 10);

    assert_eq!(registry.update_uri(&a, id, "x".repeat(256)), Ok(()));
    assert_eq!(registry.node(id).unwrap().uri.len(), 256);
    assert_eq!(
        registry.update_uri(&a, id, "x".repeat(257)),
        Err(AethernetError::UriTooLong)
    );
    assert_eq!(registry.node(id).unwrap().uri.len(), 256);
    assert_eq!(registry.total_nodes(), 1);
    assert_eq!(registry.escrowed_balance(), 10);
}

#[test]
fn update_uri_refusals() {
    let mut registry = network(0);
    let a = key(1);
    let b = key(2);
    let mut purse = wallet(a, 10);
    let id = registry.register(&a, &mut purse, String::from("uri1")).unwrap();
    assert_eq!(
        registry.update_uri(&b, id, String::from("stolen")),
        Err(AethernetError::Unauthorized)
    );
    assert_eq!(
        registry.update_uri(&a, 7, String::from("nowhere")),
        Err(AethernetError::NotFound)
    );
    // the URI is looked at before the record
    assert_eq!(
        registry.update_uri(&b, 7, "x".repeat(257)),
        Err(AethernetError::UriTooLong)
    );
    assert_eq!(registry.node(id).unwrap().uri, "uri1");
    assert_eq!(registry.node(id).unwrap().authority, a);
}

#[test]
fn deregister_by_another_authority_is_unauthorized() {
    let mut registry = network(0);
    let a = key(1);
    let b = key(2);
    let mut purse = wallet(a, 10);
    let id = registry.register(&a, &mut purse, String::from("uri1")).unwrap();
    let mut thief = wallet(b, 3);
    assert_eq!(
        registry.deregister(&b, id, &mut thief),
        Err(AethernetError::Unauthorized)
    );
    assert_eq!(thief, wallet(b, 3));
    assert_eq!(registry.total_nodes(), 1);
    assert_eq!(registry.escrowed_balance(), 10);
    let node = registry.node(id).unwrap();
    assert_eq!(node.authority, a);
    assert_eq!(node.uri, "uri1");
}

#[test]
fn register_with_257_byte_uri_is_refused() {
    let mut registry = network(0);
    let a = key(1);
    let mut purse = wallet(a, 100);
    assert_eq!(
        registry.register(&a, &mut purse, "x".repeat(257)),
        Err(AethernetError::UriTooLong)
    );
    assert_eq!(purse, wallet(a, 100));
    assert_eq!(registry.total_nodes(), 0);
    assert_eq!(registry.escrowed_balance(), 0);
    assert!(registry.node(0).is_none());
    assert_eq!(registry.register(&a, &mut purse, "x".repeat(256)), Ok(0));
    assert_eq!(registry.total_nodes(), 1);
}

#[test]
fn deregister_on_a_fresh_network_leaves_the_counter_at_zero() {
    let mut registry = network(0);
    let mut purse = wallet(key(1), 5);
    assert_eq!(
        registry.deregister(&key(1), 0, &mut purse),
        Err(AethernetError::NotFound)
    );
    assert_eq!(registry.total_nodes(), 0);
    assert_eq!(registry.escrowed_balance(), 0);
    assert_eq!(purse.amount, 5);
    assert_eq!(
        registry.deregister(&key(1), u64::MAX, &mut purse),
        Err(AethernetError::NotFound)
    );
    assert_eq!(registry.total_nodes(), 0);
}

#[test]
fn register_without_enough_balance_is_refused() {
    let mut registry = network(1);
    let a = key(1);
    let mut purse = wallet(a, 99);
    assert_eq!(
        registry.register(&a, &mut purse, String::from("uri1")),
        Err(AethernetError::InsufficientBalance)
    );
    assert_eq!(purse.amount, 99);
    assert_eq!(registry.total_nodes(), 0);
    assert_eq!(registry.escrowed_balance(), 0);
    assert!(registry.node(0).is_none());
    purse.amount = 100;
    assert_eq!(registry.register(&a, &mut purse, String::from("uri1")), Ok(0));
    assert_eq!(purse.amount, 0);
}

#[test]
fn register_from_an_account_the_authority_does_not_own_fails() {
    let mut registry = network(0);
    let mut purse = wallet(key(2), 50);
    assert_eq!(
        registry.register(&key(1), &mut purse, String::from("uri1")),
        Err(AethernetError::TransferFailed)
    );
    assert_eq!(purse.amount, 50);
    assert_eq!(registry.total_nodes(), 0);
    assert_eq!(registry.escrowed_balance(), 0);
}

#[test]
fn register_that_would_overflow_the_vault_fails() {
    // one stake is 10^19: a second one does not fit in 64 bits
    let mut registry = network(18);
    let stake = 10_000_000_000_000_000_000u64;
    let a = key(1);
    let mut purse = wallet(a, stake);
    assert_eq!(registry.register(&a, &mut purse, String::from("uri1")), Ok(0));
    assert_eq!(registry.escrowed_balance(), stake);
    let mut again = wallet(a, stake);
    assert_eq!(
        registry.register(&a, &mut again, String::from("uri2")),
        Err(AethernetError::TransferFailed)
    );
    assert_eq!(again.amount, stake);
    assert_eq!(registry.total_nodes(), 1);
    assert_eq!(registry.escrowed_balance(), stake);
    assert!(registry.node(1).is_none());
}

#[test]
fn refund_that_would_overflow_the_receiver_fails() {
    let mut registry = network(0);
    let a = key(1);
    let mut purse = wallet(a, 10);
    let id = registry.register(&a, &mut purse, String::from("uri1")).unwrap();
    let mut full = wallet(a, u64::MAX - 9);
    assert_eq!(
        registry.deregister(&a, id, &mut full),
        Err(AethernetError::TransferFailed)
    );
    assert_eq!(full.amount, u64::MAX - 9);
    assert_eq!(registry.total_nodes(), 1);
    assert_eq!(registry.escrowed_balance(), 10);
    assert_eq!(registry.node(id).unwrap().uri, "uri1");
    let mut room = wallet(a, u64::MAX - 10);
    assert_eq!(registry.deregister(&a, id, &mut room), Ok(()));
    assert_eq!(room.amount, u64::MAX);
    assert_eq!(registry.total_nodes(), 0);
}

#[test]
fn refund_may_go_to_any_account() {
    let mut registry = network(0);
    let a = key(1);
    let mut purse = wallet(a, 10);
    let id = registry.register(&a, &mut purse, String::from("uri1")).unwrap();
    let mut elsewhere = wallet(key(3), 1);
    assert_eq!(registry.deregister(&a, id, &mut elsewhere), Ok(()));
    assert_eq!(elsewhere, wallet(key(3), 11));
    assert_eq!(registry.escrowed_balance(), 0);
}

#[test]
fn new_node_takes_the_least_unused_identity() {
    let mut registry = network(0);
    let a = key(1);
    let b = key(2);
    let mut pa = wallet(a, 100);
    let mut pb = wallet(b, 100);
    assert_eq!(registry.register(&a, &mut pa, String::from("a0")), Ok(0));
    assert_eq!(registry.register(&b, &mut pb, String::from("b1")), Ok(1));
    assert_eq!(registry.register(&a, &mut pa, String::from("a2")), Ok(2));
    assert_eq!(registry.deregister(&b, 1, &mut pb), Ok(()));
    assert!(registry.node(1).is_none());
    assert_eq!(registry.total_nodes(), 2);
    assert_eq!(registry.register(&a, &mut pa, String::from("a1")), Ok(1));
    assert_eq!(registry.node(1).unwrap().authority, a);
    assert_eq!(registry.node(1).unwrap().uri, "a1");
    assert_eq!(registry.register(&b, &mut pb, String::from("b3")), Ok(3));
    assert_eq!(registry.total_nodes(), 4);
    assert_eq!(registry.escrowed_balance(), 40);
}

#[test]
fn counter_and_escrow_follow_the_records() {
    let mut registry = network(3);
    let stake = 10_000u64;
    let a = key(1);
    let mut purse = wallet(a, 10 * stake);
    let mut live: Vec<u64> = Vec::new();
    for round in 0..6u64 {
        let id = registry.register(&a, &mut purse, format!("node-{}", round)).unwrap();
        live.push(id);
        assert_eq!(registry.total_nodes(), live.len() as u64);
        assert_eq!(registry.escrowed_balance(), stake * registry.total_nodes());
    }
    for id in [4u64, 0, 2] {
        assert_eq!(registry.deregister(&a, id, &mut purse), Ok(()));
        live.retain(|other| *other != id);
        assert_eq!(registry.total_nodes(), live.len() as u64);
        assert_eq!(registry.escrowed_balance(), stake * registry.total_nodes());
    }
    let present = (0..8u64).filter(|id| registry.node(*id).is_some()).count();
    assert_eq!(present as u64, registry.total_nodes());
    assert_eq!(registry.total_nodes(), 3);
    assert_eq!(purse.amount + registry.escrowed_balance(), 10 * stake);
}
