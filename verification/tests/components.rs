use aethernet::{
    check_uri, stake_amount, transfer, AethernetError, Identity, Mint, NetworkStats, NodeDevice,
    StakeVault, TokenAccount, TransferError, MAX_DECIMALS, MAX_URI_LENGTH,
};

fn who(tag: u8) -> Identity {
    Identity::new([tag; 32])
}

#[test]
fn identity_compares_all_bytes() {
    let a = who(1);
    let mut bytes = [1u8; 32];
    assert!(a.same_as(&Identity::new(bytes)));
    bytes[31] = 2;
    assert!(!a.same_as(&Identity::new(bytes)));
    bytes[31] = 1;
    bytes[0] = 0;
    assert!(!a.same_as(&Identity::new(bytes)));
    assert_eq!(a.to_bytes(), [1u8; 32]);
}

#[test]
fn stake_is_ten_whole_tokens() {
    assert_eq!(stake_amount(0), Some(10));
    assert_eq!(stake_amount(1), Some(100));
    assert_eq!(stake_amount(6), Some(10_000_000));
    assert_eq!(stake_amount(9), Some(10_000_000_000));
    assert_eq!(stake_amount(18), Some(10_000_000_000_000_000_000));
}

#[test]
fn stake_beyond_64_bits_is_none() {
    assert_eq!(MAX_DECIMALS, 18);
    assert_eq!(stake_amount(19), None);
    assert_eq!(stake_amount(255), None);
    assert!(Mint::new(18).is_some());
    assert!(Mint::new(19).is_none());
    assert_eq!(Mint::new(6).unwrap().decimals, 6);
}

#[test]
fn uri_limit_is_256_bytes() {
    assert_eq!(MAX_URI_LENGTH, 256);
    assert_eq!(check_uri(""), Ok(()));
    assert_eq!(check_uri(&"x".repeat(256)), Ok(()));
    assert_eq!(check_uri(&"x".repeat(257)), Err(AethernetError::UriTooLong));
}

#[test]
fn uri_length_counts_bytes_not_characters() {
    let two_bytes_each = "\u{e9}".repeat(128);
    assert_eq!(two_bytes_each.len(), 256);
    assert_eq!(check_uri(&two_bytes_each), Ok(()));
    let too_long = "\u{e9}".repeat(129);
    assert_eq!(too_long.chars().count(), 129);
    assert_eq!(check_uri(&too_long), Err(AethernetError::UriTooLong));
}

#[test]
fn node_record_keeps_authority_on_uri_change() {
    let a = who(7);
    let mut node = NodeDevice::new(a, String::from("https://node.example/1")).unwrap();
    assert_eq!(node.authority, a);
    assert_eq!(node.uri, "https://node.example/1");
    assert!(node.owned_by(&a));
    assert!(!node.owned_by(&who(8)));
    assert_eq!(node.set_uri(String::from("https://node.example/2")), Ok(()));
    assert_eq!(node.authority, a);
    assert_eq!(node.uri, "https://node.example/2");
    assert_eq!(node.set_uri("y".repeat(300)), Err(AethernetError::UriTooLong));
    assert_eq!(node.uri, "https://node.example/2");
    assert_eq!(
        NodeDevice::new(a, "z".repeat(257)),
        Err(AethernetError::UriTooLong)
    );
}

#[test]
fn counter_goes_up_and_down() {
    let mut stats = NetworkStats::new();
    assert_eq!(stats.total_nodes, 0);
    stats.node_added();
    stats.node_added();
    assert_eq!(stats.total_nodes, 2);
    stats.node_removed();
    assert_eq!(stats.total_nodes, 1);
}

#[test]
fn counter_at_zero_stays_at_zero() {
    let mut stats = NetworkStats::new();
    stats.node_removed();
    assert_eq!(stats.total_nodes, 0);
    stats.node_added();
    stats.node_removed();
    stats.node_removed();
    assert_eq!(stats.total_nodes, 0);
}

#[test]
fn transfer_moves_the_amount() {
    let a = who(1);
    let b = who(2);
    let mut from = TokenAccount { owner: a, amount: 50 };
    let mut to = TokenAccount { owner: b, amount: 5 };
    assert_eq!(transfer(20, &mut from, &mut to, &a), Ok(()));
    assert_eq!(from, TokenAccount { owner: a, amount: 30 });
    assert_eq!(to, TokenAccount { owner: b, amount: 25 });
    assert_eq!(transfer(30, &mut from, &mut to, &a), Ok(()));
    assert_eq!(from.amount, 0);
    assert_eq!(to.amount, 55);
}

#[test]
fn transfer_refusals_change_nothing() {
    let a = who(1);
    let b = who(2);
    let mut from = TokenAccount { owner: a, amount: 50 };
    let mut to = TokenAccount { owner: b, amount: u64::MAX - 10 };
    assert_eq!(
        transfer(51, &mut from, &mut to, &a),
        Err(TransferError::InsufficientFunds)
    );
    assert_eq!(
        transfer(10, &mut from, &mut to, &b),
        Err(TransferError::OwnerMismatch)
    );
    assert_eq!(
        transfer(11, &mut from, &mut to, &a),
        Err(TransferError::Overflow)
    );
    // the balance is looked at before the owner
    assert_eq!(
        transfer(51, &mut from, &mut to, &b),
        Err(TransferError::InsufficientFunds)
    );
    assert_eq!(from, TokenAccount { owner: a, amount: 50 });
    assert_eq!(to, TokenAccount { owner: b, amount: u64::MAX - 10 });
    assert_eq!(transfer(10, &mut from, &mut to, &a), Ok(()));
    assert_eq!(to.amount, u64::MAX);
}

#[test]
fn transfer_errors_map_to_registry_errors() {
    assert_eq!(
        AethernetError::from_transfer(TransferError::InsufficientFunds),
        AethernetError::InsufficientBalance
    );
    assert_eq!(
        AethernetError::from_transfer(TransferError::OwnerMismatch),
        AethernetError::TransferFailed
    );
    assert_eq!(
        AethernetError::from_transfer(TransferError::Overflow),
        AethernetError::TransferFailed
    );
    assert_eq!(
        AethernetError::UriTooLong.message(),
        "The provided URI is too long."
    );
}

#[test]
fn new_vault_is_empty_and_owns_its_account() {
    let v = who(9);
    let vault = StakeVault::new(v);
    assert_eq!(vault.authority, v);
    assert_eq!(vault.account, TokenAccount { owner: v, amount: 0 });
    assert_eq!(vault.escrowed_balance(), 0);
}
