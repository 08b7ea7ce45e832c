use chain_indexer::chain::Chain;
use chain_indexer::matcher::{Dispatch, Subscription};
use chain_indexer::parser::{Action, Event, Parser, ParserOptions, Phase, WaitReason};
use chain_indexer::progress::{BlockWindow, ParserState};
use chain_indexer::provider::{collect_transactions, BlockResult, ChainAdapter, ProviderError};
use chain_indexer::transaction::{
    Timestamp, Transaction, TransactionState, TransactionType,
};

fn transfer(hash: &str, from: &str, to: &str, block: i64) -> Transaction {
    Transaction::new(
        hash.to_string(),
        Chain::Sui.as_asset_id(),
        from.to_string(),
        to.to_string(),
        None,
        TransactionType::Transfer,
        TransactionState::Confirmed,
        block.to_string(),
        "0".to_string(),
        "12".to_string(),
        Chain::Sui.as_asset_id(),
        "1000".to_string(),
        None,
        Timestamp { seconds: 1_700_000_000, nanoseconds: 0 },
    )
}

fn progress(current: i64, latest: i64, await_blocks: u32, parallel_blocks: u32) -> ParserState {
    ParserState { current_block: current, latest_block: latest, await_blocks, parallel_blocks }
}

fn started() -> Parser {
    let mut parser = Parser::new(Chain::Sui, ParserOptions { timeout: 7 });
    assert_eq!(parser.start(), Action::LoadProgress);
    parser
}

/// Drives an engine to the point where it has asked for the blocks of the
/// window of `state`.
fn fetching(state: ParserState) -> (Parser, Vec<i64>) {
    let mut parser = started();
    assert_eq!(parser.advance(Event::Progress(state)), Action::FetchHead);
    assert_eq!(
        parser.advance(Event::Head(Ok(state.latest_block))),
        Action::SaveLatestBlock { latest_block: state.latest_block }
    );
    assert_eq!(parser.advance(Event::Saved), Action::LoadProgress);
    match parser.advance(Event::Progress(state)) {
        Action::FetchBlocks { blocks } => (parser, blocks),
        other => panic!("expected a fetch, got {:?}", other),
    }
}

#[test]
fn new_engine_is_idle() {
    let parser = Parser::new(Chain::Near, ParserOptions { timeout: 3 });
    assert_eq!(parser.chain(), Chain::Near);
    assert_eq!(parser.options(), ParserOptions { timeout: 3 });
    assert_eq!(*parser.phase(), Phase::Idle);
}

#[test]
fn start_asks_for_progress() {
    let mut parser = Parser::new(Chain::Sui, ParserOptions { timeout: 3 });
    assert_eq!(parser.start(), Action::LoadProgress);
    assert_eq!(*parser.phase(), Phase::LoadingProgress);
}

#[test]
fn window_is_bounded_by_parallel_blocks() {
    let state = progress(99, 1000, 2, 5);
    assert_eq!(state.next_window(), Some(BlockWindow { start: 100, end: 105 }));
    assert_eq!(state.next_window().unwrap().to_blocks(), vec![100, 101, 102, 103, 104]);
}

#[test]
fn window_is_bounded_by_await_blocks() {
    let state = progress(99, 104, 2, 5);
    assert_eq!(state.next_window(), Some(BlockWindow { start: 100, end: 102 }));
    assert_eq!(state.next_window().unwrap().to_blocks(), vec![100, 101]);
    assert_eq!(state.next_window().unwrap().last(), 101);
}

#[test]
fn window_is_empty_when_caught_up() {
    assert_eq!(progress(100, 102, 2, 5).next_window(), None);
    assert_eq!(progress(100, 101, 2, 5).next_window(), None);
    assert_eq!(progress(100, 50, 2, 5).next_window(), None);
    assert_eq!(progress(100, 1000, 2, 0).next_window(), None);
}

#[test]
fn window_holds_at_the_limits_of_the_heights() {
    let state = progress(i64::MAX, i64::MAX, 0, 5);
    assert_eq!(state.next_window(), None);
    let state = progress(i64::MAX - 1, i64::MAX, 0, u32::MAX);
    assert_eq!(state.next_window(), None);
    let state = progress(i64::MAX - 2, i64::MAX, 0, u32::MAX);
    assert_eq!(
        state.next_window(),
        Some(BlockWindow { start: i64::MAX - 1, end: i64::MAX })
    );
    let state = progress(i64::MIN, i64::MIN, u32::MAX, u32::MAX);
    assert_eq!(state.next_window(), None);
    assert!(state.is_ahead());
}

#[test]
fn ahead_compares_with_the_observed_height() {
    assert!(progress(100, 102, 2, 5).is_ahead());
    assert!(progress(100, 100, 0, 5).is_ahead());
    assert!(!progress(100, 103, 2, 5).is_ahead());
    assert!(!progress(0, 1, 0, 5).is_ahead());
}

#[test]
fn empty_window_reports_itself() {
    let window = BlockWindow { start: 5, end: 5 };
    assert!(window.is_empty());
    assert!(window.to_blocks().is_empty());
    assert!(BlockWindow { start: 9, end: 3 }.is_empty());
    assert!(!BlockWindow { start: 5, end: 6 }.is_empty());
}

#[test]
fn bootstrap_progress_starts_at_zero() {
    assert_eq!(ParserState::new(3, 10), progress(0, 0, 3, 10));
    assert_eq!(ParserState::new(3, 10).with_latest_block(50), progress(0, 50, 3, 10));
    assert_eq!(ParserState::new(3, 10).with_current_block(7), progress(7, 0, 3, 10));
}

#[test]
fn failed_head_fetch_waits_and_retries() {
    let state = progress(10, 20, 2, 5);
    let mut parser = started();
    for _ in 0..25 {
        assert_eq!(parser.advance(Event::Progress(state)), Action::FetchHead);
        assert_eq!(*parser.phase(), Phase::FetchingHead { state });
        assert_eq!(
            parser.advance(Event::Head(Err(ProviderError::Network))),
            Action::Wait { seconds: 7, reason: WaitReason::HeadUnavailable(ProviderError::Network) }
        );
        assert_eq!(*parser.phase(), Phase::Waiting);
        assert_eq!(parser.advance(Event::Woke), Action::LoadProgress);
        assert_eq!(*parser.phase(), Phase::LoadingProgress);
    }
}

#[test]
fn decode_failure_of_the_head_is_reported_as_such() {
    let mut parser = started();
    parser.advance(Event::Progress(progress(10, 20, 2, 5)));
    assert_eq!(
        parser.advance(Event::Head(Err(ProviderError::Decode))),
        Action::Wait { seconds: 7, reason: WaitReason::HeadUnavailable(ProviderError::Decode) }
    );
}

#[test]
fn chain_that_is_ahead_waits() {
    let mut parser = started();
    assert_eq!(parser.advance(Event::Progress(progress(100, 90, 2, 5))), Action::FetchHead);
    assert_eq!(
        parser.advance(Event::Head(Ok(102))),
        Action::SaveLatestBlock { latest_block: 102 }
    );
    assert_eq!(*parser.phase(), Phase::SavingLatest { state: progress(100, 102, 2, 5) });
    assert_eq!(
        parser.advance(Event::Saved),
        Action::Wait { seconds: 7, reason: WaitReason::Ahead }
    );
    assert_eq!(parser.advance(Event::Woke), Action::LoadProgress);
}

#[test]
fn new_head_leads_to_catch_up() {
    let mut parser = started();
    assert_eq!(parser.advance(Event::Progress(progress(100, 90, 2, 5))), Action::FetchHead);
    assert_eq!(
        parser.advance(Event::Head(Ok(110))),
        Action::SaveLatestBlock { latest_block: 110 }
    );
    assert_eq!(parser.advance(Event::Saved), Action::LoadProgress);
    assert_eq!(*parser.phase(), Phase::LoadingBatch);
    assert_eq!(
        parser.advance(Event::Progress(progress(100, 110, 2, 5))),
        Action::FetchBlocks { blocks: vec![101, 102, 103, 104, 105] }
    );
}

#[test]
fn empty_window_returns_to_the_head_refresh() {
    let mut parser = started();
    parser.advance(Event::Progress(progress(100, 90, 2, 5)));
    parser.advance(Event::Head(Ok(103)));
    assert_eq!(parser.advance(Event::Saved), Action::LoadProgress);
    assert_eq!(*parser.phase(), Phase::LoadingBatch);
    assert_eq!(parser.advance(Event::Progress(progress(100, 103, 2, 5))), Action::LoadProgress);
    assert_eq!(*parser.phase(), Phase::LoadingProgress);
}

#[test]
fn failed_block_does_not_stop_the_batch() {
    let state = progress(99, 105, 0, 5);
    let (mut parser, blocks) = fetching(state);
    assert_eq!(blocks, vec![100, 101, 102, 103, 104]);
    let results: Vec<BlockResult> = vec![
        Ok(vec![transfer("a", "alice", "bob", 100)]),
        Ok(vec![]),
        Err(ProviderError::Network),
        Ok(vec![transfer("b", "carol", "dave", 103), transfer("c", "erin", "alice", 103)]),
        Ok(vec![transfer("d", "bob", "frank", 104)]),
    ];
    assert_eq!(
        parser.advance(Event::Blocks(results)),
        Action::SaveCurrentBlock { current_block: 104 }
    );
    let kept = match parser.phase() {
        Phase::SavingCurrent { transactions, .. } => transactions.clone(),
        other => panic!("unexpected phase {:?}", other),
    };
    assert_eq!(kept.len(), 4);
    assert!(kept.iter().all(|t| t.block_number != "102"));
    assert_eq!(
        parser.advance(Event::Saved),
        Action::LoadSubscriptions {
            chain: Chain::Sui,
            addresses: vec![
                "alice".to_string(),
                "bob".to_string(),
                "carol".to_string(),
                "dave".to_string(),
                "erin".to_string(),
                "alice".to_string(),
                "bob".to_string(),
                "frank".to_string(),
            ],
        }
    );
    let subscriptions = vec![Subscription {
        device_id: 1,
        chain: Chain::Sui,
        address: "alice".to_string(),
    }];
    assert_eq!(
        parser.advance(Event::Subscriptions(subscriptions)),
        Action::Notify {
            dispatches: vec![
                Dispatch { device_id: 1, transaction: transfer("a", "alice", "bob", 100) },
                Dispatch { device_id: 1, transaction: transfer("c", "erin", "alice", 103) },
            ],
        }
    );
    assert_eq!(
        parser.advance(Event::Dispatched),
        Action::StoreTransactions {
            transactions: vec![
                transfer("a", "alice", "bob", 100),
                transfer("c", "erin", "alice", 103),
            ],
        }
    );
    assert_eq!(parser.advance(Event::Stored), Action::LoadProgress);
    assert_eq!(*parser.phase(), Phase::LoadingBatch);
    assert_eq!(
        parser.advance(Event::Progress(progress(104, 105, 0, 5))),
        Action::LoadProgress
    );
    assert_eq!(*parser.phase(), Phase::LoadingProgress);
}

#[test]
fn batch_with_every_block_failed_still_advances() {
    let (mut parser, blocks) = fetching(progress(0, 10, 1, 3));
    assert_eq!(blocks, vec![1, 2, 3]);
    let results: Vec<BlockResult> = vec![
        Err(ProviderError::Network),
        Err(ProviderError::Decode),
        Err(ProviderError::Network),
    ];
    assert_eq!(
        parser.advance(Event::Blocks(results)),
        Action::SaveCurrentBlock { current_block: 3 }
    );
    assert_eq!(
        parser.advance(Event::Saved),
        Action::LoadSubscriptions { chain: Chain::Sui, addresses: vec![] }
    );
    assert_eq!(
        parser.advance(Event::Subscriptions(vec![])),
        Action::Notify { dispatches: vec![] }
    );
    assert_eq!(
        parser.advance(Event::Dispatched),
        Action::StoreTransactions { transactions: vec![] }
    );
}

#[test]
fn consecutive_batches_move_current_block_forward() {
    let mut state = progress(0, 12, 2, 4);
    let mut parser = started();
    parser.advance(Event::Progress(state));
    parser.advance(Event::Head(Ok(12)));
    assert_eq!(parser.advance(Event::Saved), Action::LoadProgress);
    let mut completed: Vec<i64> = Vec::new();
    loop {
        let blocks = match parser.advance(Event::Progress(state)) {
            Action::FetchBlocks { blocks } => blocks,
            Action::LoadProgress => break,
            other => panic!("unexpected {:?}", other),
        };
        assert!(blocks.len() <= 4);
        assert!(*blocks.last().unwrap() < state.latest_block - 2);
        let results: Vec<BlockResult> = blocks.iter().map(|_| Ok(vec![])).collect();
        let current = match parser.advance(Event::Blocks(results)) {
            Action::SaveCurrentBlock { current_block } => current_block,
            other => panic!("unexpected {:?}", other),
        };
        assert!(current > state.current_block);
        assert_eq!(current, *blocks.last().unwrap());
        state = state.with_current_block(current);
        completed.push(current);
        parser.advance(Event::Saved);
        parser.advance(Event::Subscriptions(vec![]));
        parser.advance(Event::Dispatched);
        assert_eq!(parser.advance(Event::Stored), Action::LoadProgress);
    }
    assert_eq!(completed, vec![4, 8, 9]);
    assert_eq!(*parser.phase(), Phase::LoadingProgress);
}

#[test]
fn event_out_of_turn_restarts_the_head_refresh() {
    let mut parser = started();
    assert_eq!(parser.advance(Event::Stored), Action::LoadProgress);
    assert_eq!(*parser.phase(), Phase::LoadingProgress);
    parser.advance(Event::Progress(progress(1, 2, 0, 1)));
    assert_eq!(parser.advance(Event::Woke), Action::LoadProgress);
    assert_eq!(*parser.phase(), Phase::LoadingProgress);
    let mut idle = Parser::new(Chain::Sui, ParserOptions { timeout: 1 });
    assert_eq!(idle.advance(Event::Saved), Action::LoadProgress);
    assert_eq!(*idle.phase(), Phase::LoadingProgress);
}

#[test]
fn collecting_keeps_the_order_of_the_blocks() {
    let results: Vec<BlockResult> = vec![
        Ok(vec![transfer("a", "x", "y", 1), transfer("b", "x", "y", 1)]),
        Err(ProviderError::Decode),
        Ok(vec![transfer("c", "x", "y", 3)]),
    ];
    let collected = collect_transactions(&results);
    let hashes: Vec<String> = collected.iter().map(|t| t.hash.clone()).collect();
    assert_eq!(hashes, vec!["a".to_string(), "b".to_string(), "c".to_string()]);
    assert!(collect_transactions(&vec![]).is_empty());
}

#[test]
fn waits_and_fetches_are_interruptible() {
    assert!(Action::Wait { seconds: 1, reason: WaitReason::Ahead }.is_interruptible());
    assert!(Action::FetchBlocks { blocks: vec![1] }.is_interruptible());
    assert!(!Action::LoadProgress.is_interruptible());
    assert!(!Action::FetchHead.is_interruptible());
    assert!(!Action::SaveLatestBlock { latest_block: 1 }.is_interruptible());
    assert!(!Action::SaveCurrentBlock { current_block: 1 }.is_interruptible());
    assert!(!Action::Notify { dispatches: vec![] }.is_interruptible());
    assert!(!Action::StoreTransactions { transactions: vec![] }.is_interruptible());
    assert!(!Action::LoadSubscriptions { chain: Chain::Sui, addresses: vec![] }.is_interruptible());
}

#[test]
fn adapter_is_chosen_by_chain() {
    let near = ChainAdapter::new(Chain::Near, "https://n".to_string()).unwrap();
    assert_eq!(near.get_chain(), Chain::Near);
    assert_eq!(near.get_chain(), Chain::Near);
    let sui = ChainAdapter::new(Chain::Sui, "https://s".to_string()).unwrap();
    assert_eq!(sui.get_chain(), Chain::Sui);
    match sui {
        ChainAdapter::Sui(client) => assert_eq!(client.url, "https://s"),
        other => panic!("unexpected adapter {:?}", other),
    }
    assert!(ChainAdapter::new(Chain::Ethereum, "https://e".to_string()).is_none());
    assert!(ChainAdapter::new(Chain::ZkSync, "https://z".to_string()).is_none());
}
