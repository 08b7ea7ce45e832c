use chain_indexer::chain::{AssetId, Chain};
use chain_indexer::matcher::{
    contains_address, match_transactions, matching_subscriptions, record, touched_addresses,
    Dispatch, Subscription,
};
use chain_indexer::transaction::{
    Timestamp, Transaction, TransactionState, TransactionType,
};

fn payment(hash: &str, from: &str, to: &str) -> Transaction {
    Transaction::new(
        hash.to_string(),
        Chain::Near.as_asset_id(),
        from.to_string(),
        to.to_string(),
        None,
        TransactionType::Transfer,
        TransactionState::Confirmed,
        "5".to_string(),
        "1".to_string(),
        "830000000000000000000".to_string(),
        Chain::Near.as_asset_id(),
        "77".to_string(),
        None,
        Timestamp { seconds: 10, nanoseconds: 20 },
    )
}

fn subscription(device_id: i32, chain: Chain, address: &str) -> Subscription {
    Subscription { device_id, chain, address: address.to_string() }
}

#[test]
fn transaction_identifier_joins_chain_and_hash() {
    let transaction = payment("abc", "alice", "bob");
    assert_eq!(transaction.id, "near_abc");
    assert_eq!(Transaction::id_from(Chain::Sui, "0xff"), "sui_0xff");
    assert_eq!(Transaction::id_from(Chain::Ethereum, ""), "ethereum_");
}

#[test]
fn addresses_are_source_then_destination() {
    let transaction = payment("abc", "alice", "bob");
    assert_eq!(transaction.addresses(), vec!["alice".to_string(), "bob".to_string()]);
    assert!(transaction.touches(&"alice".to_string()));
    assert!(transaction.touches(&"bob".to_string()));
    assert!(!transaction.touches(&"carol".to_string()));
    let own = payment("abd", "alice", "alice");
    assert_eq!(own.addresses(), vec!["alice".to_string(), "alice".to_string()]);
}

#[test]
fn clone_keeps_every_field() {
    let mut transaction = payment("abc", "alice", "bob");
    transaction.contract = Some("token".to_string());
    transaction.memo = Some("hello".to_string());
    assert_eq!(transaction.clone(), transaction);
}

#[test]
fn chain_names_and_asset_identifiers() {
    assert_eq!(Chain::Sui.as_str(), "sui");
    assert_eq!(Chain::Near.as_str(), "near");
    assert_eq!(Chain::SmartChain.as_str(), "smartchain");
    assert_eq!(Chain::AvalancheC.as_str(), "avalanchec");
    assert_eq!(Chain::Sui.as_denom(), Some("0x2::sui::SUI"));
    assert_eq!(Chain::Near.as_denom(), None);
    let native = Chain::Sui.as_asset_id();
    assert!(native.is_native());
    assert_eq!(native.to_string(), "sui");
    let token = AssetId::from(Chain::Ethereum, Some("0xdac".to_string()));
    assert!(!token.is_native());
    assert_eq!(token.to_string(), "ethereum_0xdac");
    assert_eq!(token.clone(), token);
}

#[test]
fn touched_addresses_lists_two_for_each_transaction() {
    let batch = vec![payment("a", "alice", "bob"), payment("b", "bob", "carol")];
    assert_eq!(
        touched_addresses(&batch),
        vec!["alice".to_string(), "bob".to_string(), "bob".to_string(), "carol".to_string()]
    );
    assert!(touched_addresses(&vec![]).is_empty());
}

#[test]
fn contains_address_finds_only_what_is_there() {
    let addresses = vec!["alice".to_string(), "bob".to_string()];
    assert!(contains_address(&addresses, &"bob".to_string()));
    assert!(!contains_address(&addresses, &"bo".to_string()));
    assert!(!contains_address(&vec![], &"bob".to_string()));
}

#[test]
fn matcher_selects_by_chain_and_address() {
    let all = vec![
        subscription(1, Chain::Near, "alice"),
        subscription(2, Chain::Sui, "alice"),
        subscription(3, Chain::Near, "zed"),
        subscription(4, Chain::Near, "bob"),
    ];
    let addresses = vec!["alice".to_string(), "bob".to_string()];
    assert_eq!(
        matching_subscriptions(&all, Chain::Near, &addresses),
        vec![subscription(1, Chain::Near, "alice"), subscription(4, Chain::Near, "bob")]
    );
    assert!(matching_subscriptions(&all, Chain::Ethereum, &addresses).is_empty());
    assert!(matching_subscriptions(&all, Chain::Near, &vec![]).is_empty());
}

#[test]
fn unmatched_transactions_are_neither_dispatched_nor_stored() {
    let batch = vec![payment("a", "alice", "bob"), payment("b", "carol", "dave")];
    let subscriptions = vec![subscription(1, Chain::Near, "erin")];
    let matched = match_transactions(&subscriptions, &batch);
    assert!(matched.dispatches.is_empty());
    assert!(matched.transactions.is_empty());
    let matched = match_transactions(&vec![], &batch);
    assert!(matched.dispatches.is_empty());
    assert!(matched.transactions.is_empty());
}

#[test]
fn only_matched_transactions_are_stored() {
    let batch = vec![
        payment("a", "alice", "bob"),
        payment("b", "carol", "dave"),
        payment("c", "erin", "alice"),
    ];
    let subscriptions = vec![subscription(1, Chain::Near, "alice")];
    let matched = match_transactions(&subscriptions, &batch);
    assert_eq!(
        matched.transactions,
        vec![payment("a", "alice", "bob"), payment("c", "erin", "alice")]
    );
    assert_eq!(
        matched.dispatches,
        vec![
            Dispatch { device_id: 1, transaction: payment("a", "alice", "bob") },
            Dispatch { device_id: 1, transaction: payment("c", "erin", "alice") },
        ]
    );
}

#[test]
fn two_devices_give_two_dispatches_and_one_row() {
    let batch = vec![payment("a", "alice", "bob")];
    let subscriptions =
        vec![subscription(1, Chain::Near, "alice"), subscription(2, Chain::Near, "bob")];
    let matched = match_transactions(&subscriptions, &batch);
    assert_eq!(
        matched.dispatches,
        vec![
            Dispatch { device_id: 1, transaction: payment("a", "alice", "bob") },
            Dispatch { device_id: 2, transaction: payment("a", "alice", "bob") },
        ]
    );
    assert_eq!(matched.transactions, vec![payment("a", "alice", "bob")]);
}

#[test]
fn dispatches_follow_subscriptions_then_transactions() {
    let batch = vec![payment("a", "alice", "bob"), payment("b", "bob", "alice")];
    let subscriptions =
        vec![subscription(9, Chain::Near, "bob"), subscription(3, Chain::Near, "alice")];
    let matched = match_transactions(&subscriptions, &batch);
    let order: Vec<(i32, String)> =
        matched.dispatches.iter().map(|d| (d.device_id, d.transaction.hash.clone())).collect();
    assert_eq!(
        order,
        vec![
            (9, "a".to_string()),
            (9, "b".to_string()),
            (3, "a".to_string()),
            (3, "b".to_string()),
        ]
    );
    assert_eq!(matched.transactions.len(), 2);
}

#[test]
fn record_replaces_what_has_the_same_identifier() {
    let mut store = vec![payment("a", "alice", "bob"), payment("b", "carol", "dave")];
    record(&mut store, payment("a", "zed", "bob"));
    assert_eq!(store, vec![payment("a", "zed", "bob"), payment("b", "carol", "dave")]);
    record(&mut store, payment("c", "x", "y"));
    assert_eq!(store.len(), 3);
    assert_eq!(store[2], payment("c", "x", "y"));
}
