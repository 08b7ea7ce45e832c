use chain_indexer::amount::Amount;
use chain_indexer::chain::Chain;
use chain_indexer::provider::ProviderError;
use chain_indexer::sui::client::{
    latest_checkpoint_method, map_status, query_transactions_method, SuiClient,
};
use chain_indexer::text::{clone_or_empty, same_text};
use chain_indexer::sui::model::{
    BalanceChange, Digest, Digests, Effects, GasUsed, Owner, Status, TransactionsQuery,
};
use chain_indexer::transaction::{Timestamp, TransactionState, TransactionType};

const SUI: &str = "0x2::sui::SUI";

fn client() -> SuiClient {
    SuiClient::new("https://fullnode.example".to_string())
}

fn gas(computation: &str, storage: &str, rebate: &str) -> GasUsed {
    GasUsed {
        computation_cost: computation.to_string(),
        storage_cost: storage.to_string(),
        storage_rebate: rebate.to_string(),
    }
}

fn change(owner: Option<&str>, coin_type: &str, amount: &str) -> BalanceChange {
    BalanceChange {
        owner: Owner { address_owner: owner.map(|o| o.to_string()) },
        coin_type: coin_type.to_string(),
        amount: amount.to_string(),
    }
}

fn block(digest: &str, status: &str, changes: Option<Vec<BalanceChange>>) -> Digest {
    Digest {
        digest: digest.to_string(),
        effects: Effects {
            gas_used: gas("10", "5", "3"),
            status: Status { status: status.to_string() },
        },
        balance_changes: changes,
    }
}

fn at() -> Timestamp {
    Timestamp { seconds: 1_700_000_000, nanoseconds: 5 }
}

#[test]
fn fee_clamps_to_zero_when_rebate_exceeds_cost() {
    let fee = client().get_fee(&gas("10", "5", "20"));
    assert_eq!(fee.to_string(), "0");
}

#[test]
fn fee_is_cost_less_rebate() {
    let fee = client().get_fee(&gas("10", "5", "3"));
    assert_eq!(fee.to_string(), "12");
}

#[test]
fn fee_is_zero_when_rebate_equals_cost() {
    assert_eq!(client().get_fee(&gas("10", "5", "15")).to_string(), "0");
    assert_eq!(client().get_fee(&gas("0", "0", "0")).to_string(), "0");
}

#[test]
fn fee_counts_unreadable_components_as_zero() {
    assert_eq!(client().get_fee(&gas("abc", "5", "3")).to_string(), "2");
    assert_eq!(client().get_fee(&gas("10", "", "3")).to_string(), "7");
    assert_eq!(client().get_fee(&gas("10", "5", "-3")).to_string(), "15");
    assert_eq!(client().get_fee(&gas("1.5", "5", "x")).to_string(), "5");
}

#[test]
fn fee_is_exact_beyond_sixty_four_bits() {
    let fee = client().get_fee(&gas(
        "340282366920938463463374607431768211456",
        "18446744073709551616",
        "1",
    ));
    assert_eq!(fee.to_string(), "340282366920938463481821351505477763071");
}

#[test]
fn amount_reads_what_biguint_reads() {
    assert_eq!(Amount::parse("12").unwrap().to_string(), "12");
    assert_eq!(Amount::parse("+12").unwrap().to_string(), "12");
    assert_eq!(Amount::parse("1_000").unwrap().to_string(), "1000");
    assert_eq!(Amount::parse("007").unwrap().to_string(), "7");
    assert_eq!(Amount::parse("5_").unwrap().to_string(), "5");
    assert!(Amount::parse("").is_none());
    assert!(Amount::parse("+").is_none());
    assert!(Amount::parse("++1").is_none());
    assert!(Amount::parse("_1").is_none());
    assert!(Amount::parse("+_1").is_none());
    assert!(Amount::parse("-1").is_none());
    assert!(Amount::parse("1a").is_none());
    assert!(Amount::parse(" 1").is_none());
    assert!(Amount::parse("١").is_none());
    assert_eq!(Amount::parse_or_zero("nothing").to_string(), "0");
    assert_eq!(Amount::zero().to_string(), "0");
}

#[test]
fn amount_arithmetic_is_by_value() {
    let a = Amount::parse("4294967296").unwrap();
    let b = Amount::parse("4294967295").unwrap();
    assert_eq!(a.digits, vec![0, 1]);
    assert_eq!(a.plus(&b).to_string(), "8589934591");
    assert_eq!(a.minus(&b).to_string(), "1");
    assert_eq!(a.minus(&a).to_string(), "0");
    assert!(a.at_least(&b));
    assert!(a.at_least(&a));
    assert!(!b.at_least(&a));
    let padded = Amount { digits: vec![7, 0, 0] };
    assert_eq!(padded.to_string(), "7");
    assert!(padded.at_least(&Amount { digits: vec![7] }));
    assert!(Amount { digits: vec![7] }.at_least(&padded));
}

#[test]
fn success_maps_to_confirmed() {
    assert_eq!(map_status("success"), TransactionState::Confirmed);
}

#[test]
fn any_other_status_maps_to_failed() {
    assert_eq!(map_status("failure"), TransactionState::Failed);
    assert_eq!(map_status(""), TransactionState::Failed);
    assert_eq!(map_status("Success"), TransactionState::Failed);
    assert_eq!(map_status("success "), TransactionState::Failed);
    assert_eq!(map_status("pending"), TransactionState::Failed);
}

#[test]
fn helpers_on_text() {
    assert!(same_text("abc", "abc"));
    assert!(!same_text("abc", "abd"));
    assert!(same_text("", ""));
    assert_eq!(clone_or_empty(&Some("x".to_string())), "x");
    assert_eq!(clone_or_empty(&None), "");
}

#[test]
fn native_transfer_is_mapped() {
    let transaction = block(
        "D1",
        "success",
        Some(vec![change(Some("0xa"), SUI, "-1012"), change(Some("0xb"), SUI, "1000")]),
    );
    let mapped = client().map_transaction_at(&transaction, 77, at()).unwrap();
    assert_eq!(mapped.id, "sui_D1");
    assert_eq!(mapped.hash, "D1");
    assert_eq!(mapped.asset_id, Chain::Sui.as_asset_id());
    assert_eq!(mapped.from, "0xa");
    assert_eq!(mapped.to, "0xb");
    assert_eq!(mapped.contract, None);
    assert_eq!(mapped.transaction_type, TransactionType::Transfer);
    assert_eq!(mapped.state, TransactionState::Confirmed);
    assert_eq!(mapped.block_number, "77");
    assert_eq!(mapped.sequence, "0");
    assert_eq!(mapped.fee, "12");
    assert_eq!(mapped.fee_asset_id, Chain::Sui.as_asset_id());
    assert_eq!(mapped.value, "1000");
    assert_eq!(mapped.memo, None);
    assert_eq!(mapped.created_at, at());
}

#[test]
fn sender_is_the_owner_whose_balance_fell() {
    let transaction = block(
        "D2",
        "failure",
        Some(vec![change(Some("0xb"), SUI, "1000"), change(Some("0xa"), SUI, "-1012")]),
    );
    let mapped = client().map_transaction_at(&transaction, -3, at()).unwrap();
    assert_eq!(mapped.from, "0xa");
    assert_eq!(mapped.to, "0xb");
    assert_eq!(mapped.value, "1000");
    assert_eq!(mapped.state, TransactionState::Failed);
    assert_eq!(mapped.block_number, "-3");
}

#[test]
fn missing_owner_gives_an_empty_address() {
    let transaction =
        block("D3", "success", Some(vec![change(None, SUI, "-5"), change(None, SUI, "5")]));
    let mapped = client().map_transaction_at(&transaction, 1, at()).unwrap();
    assert_eq!(mapped.from, "");
    assert_eq!(mapped.to, "");
}

#[test]
fn other_shapes_are_left_out() {
    let c = client();
    assert!(c.map_transaction_at(&block("D", "success", None), 1, at()).is_none());
    assert!(c.map_transaction_at(&block("D", "success", Some(vec![])), 1, at()).is_none());
    let one = vec![change(Some("0xa"), SUI, "-5")];
    assert!(c.map_transaction_at(&block("D", "success", Some(one)), 1, at()).is_none());
    let three = vec![
        change(Some("0xa"), SUI, "-5"),
        change(Some("0xb"), SUI, "3"),
        change(Some("0xc"), SUI, "2"),
    ];
    assert!(c.map_transaction_at(&block("D", "success", Some(three)), 1, at()).is_none());
    let token = vec![change(Some("0xa"), "0x5::coin::COIN", "-5"), change(Some("0xb"), SUI, "5")];
    assert!(c.map_transaction_at(&block("D", "success", Some(token)), 1, at()).is_none());
    let token = vec![change(Some("0xa"), SUI, "-5"), change(Some("0xb"), "0x2::sui::sui", "5")];
    assert!(c.map_transaction_at(&block("D", "success", Some(token)), 1, at()).is_none());
}

#[test]
fn map_transaction_stamps_the_current_time() {
    let transaction = block(
        "D1",
        "success",
        Some(vec![change(Some("0xa"), SUI, "-1012"), change(Some("0xb"), SUI, "1000")]),
    );
    let mapped = client().map_transaction(&transaction, 77).unwrap();
    assert!(mapped.created_at.seconds > 1_600_000_000);
    let again = client().map_transaction_at(&transaction, 77, mapped.created_at).unwrap();
    assert_eq!(mapped, again);
    assert!(client().map_transaction(&block("D", "success", None), 1).is_none());
}

#[test]
fn checkpoint_keeps_only_native_transfers_in_order() {
    let digests = Digests {
        data: vec![
            block(
                "A",
                "success",
                Some(vec![change(Some("0xa"), SUI, "-9"), change(Some("0xb"), SUI, "9")]),
            ),
            block("B", "success", None),
            block(
                "C",
                "failure",
                Some(vec![change(Some("0xc"), SUI, "4"), change(Some("0xd"), SUI, "-4")]),
            ),
        ],
    };
    let mapped = client().map_transactions(&digests, 12);
    let hashes: Vec<String> = mapped.iter().map(|t| t.hash.clone()).collect();
    assert_eq!(hashes, vec!["A".to_string(), "C".to_string()]);
    assert_eq!(mapped[1].from, "0xd");
    assert_eq!(mapped[1].block_number, "12");
    assert!(client().map_transactions(&Digests { data: vec![] }, 12).is_empty());
}

#[test]
fn requests_of_the_adapter() {
    let c = client();
    assert_eq!(c.url, "https://fullnode.example");
    assert_eq!(c.get_chain(), Chain::Sui);
    assert_eq!(latest_checkpoint_method(), "sui_getLatestCheckpointSequenceNumber");
    assert_eq!(query_transactions_method(), "suix_queryTransactionBlocks");
    assert_eq!(
        c.transactions_query(1234),
        TransactionsQuery {
            checkpoint: "1234".to_string(),
            show_effects: true,
            show_input: false,
            show_balance_changes: true,
            limit: 50,
            descending: true,
        }
    );
}

#[test]
fn latest_block_reads_the_sequence_number() {
    let c = client();
    assert_eq!(c.latest_block("123456"), Ok(123456));
    assert_eq!(c.latest_block("0"), Ok(0));
    assert_eq!(c.latest_block("+7"), Ok(7));
    assert_eq!(c.latest_block("-7"), Ok(-7));
    assert_eq!(c.latest_block("0012"), Ok(12));
    assert_eq!(c.latest_block("9223372036854775807"), Ok(i64::MAX));
    assert_eq!(c.latest_block("-9223372036854775808"), Ok(i64::MIN));
}

#[test]
fn latest_block_that_is_no_number_is_a_decode_error() {
    let c = client();
    assert_eq!(c.latest_block("9223372036854775808"), Err(ProviderError::Decode));
    assert_eq!(c.latest_block(""), Err(ProviderError::Decode));
    assert_eq!(c.latest_block("-"), Err(ProviderError::Decode));
    assert_eq!(c.latest_block("12a"), Err(ProviderError::Decode));
    assert_eq!(c.latest_block(" 12"), Err(ProviderError::Decode));
    assert_eq!(c.latest_block("1_000"), Err(ProviderError::Decode));
    assert_eq!(c.latest_block("null"), Err(ProviderError::Decode));
}
