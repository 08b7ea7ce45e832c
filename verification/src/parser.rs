//! The indexing engine of one chain, as a machine that is driven from
//! outside: each step takes the outcome of the work it last asked for and
//! answers with the work to do next.

use vstd::prelude::*;
use crate::chain::Chain;
use crate::matcher::{
    dispatch_views, dispatches, match_transactions, stored, subscription_views, text_views,
    touched, touched_addresses, Dispatch, DispatchView, Subscription,
};
use crate::progress::{BlockWindow, ParserState};
use crate::provider::{collect_transactions, collected, BlockResult, ProviderError};
use crate::transaction::{transaction_views, Transaction, TransactionView};

verus! {

/// Pacing of the engine.
#[derive(Clone, Copy, Debug, PartialEq, Eq, Structural, Hash)]
pub struct ParserOptions {
    /// Seconds to wait before the chain height is asked for again.
    pub timeout: u64,
}

/// Why the engine waits.
#[derive(Clone, Copy, Debug, PartialEq, Eq, Structural, Hash)]
pub enum WaitReason {
    /// The chain height could not be fetched.
    HeadUnavailable(ProviderError),
    /// Every block that may safely be processed has been.
    Ahead,
}

/// The outcome of the work the engine last asked for.
#[derive(Debug, PartialEq, Eq)]
pub enum Event {
    /// The persisted progress, as just read.
    Progress(ParserState),
    /// The chain height, or why it could not be fetched.
    Head(Result<i64, ProviderError>),
    /// A progress marker was written.
    Saved,
    /// The wait is over.
    Woke,
    /// The outcome of fetching each block of the window, in window order.
    Blocks(Vec<BlockResult>),
    /// The subscriptions on the chain for the addresses asked about.
    Subscriptions(Vec<Subscription>),
    /// Every notification has been attempted.
    Dispatched,
    /// The transactions were appended to the store.
    Stored,
}

/// The work the engine asks for next.
#[derive(Debug, PartialEq, Eq)]
pub enum Action {
    /// Read the persisted progress of the chain.
    LoadProgress,
    /// Ask the provider for the chain height.
    FetchHead,
    /// Persist the observed chain height.
    SaveLatestBlock { latest_block: i64 },
    /// Wait before the next round.
    Wait { seconds: u64, reason: WaitReason },
    /// Fetch the transactions of every listed block, concurrently.
    FetchBlocks { blocks: Vec<i64> },
    /// Persist the last block of the batch as completed.
    SaveCurrentBlock { current_block: i64 },
    /// Read the subscriptions on the chain for these addresses.
    LoadSubscriptions { chain: Chain, addresses: Vec<String> },
    /// Attempt each notification once, in order.
    Notify { dispatches: Vec<Dispatch> },
    /// Append the transactions to the store.
    StoreTransactions { transactions: Vec<Transaction> },
}

/// What an `Action` stands for in contracts.
pub enum ActionView {
    LoadProgress,
    FetchHead,
    SaveLatestBlock { latest_block: i64 },
    Wait { seconds: u64, reason: WaitReason },
    FetchBlocks { blocks: Seq<i64> },
    SaveCurrentBlock { current_block: i64 },
    LoadSubscriptions { chain: Chain, addresses: Seq<Seq<char>> },
    Notify { dispatches: Seq<DispatchView> },
    StoreTransactions { transactions: Seq<TransactionView> },
}

impl View for Action {
    type V = ActionView;

    open spec fn view(&self) -> ActionView {
        match self {
            Action::LoadProgress => ActionView::LoadProgress,
            Action::FetchHead => ActionView::FetchHead,
            Action::SaveLatestBlock { latest_block } => ActionView::SaveLatestBlock {
                latest_block: *latest_block,
            },
            Action::Wait { seconds, reason } => ActionView::Wait {
                seconds: *seconds,
                reason: *reason,
            },
            Action::FetchBlocks { blocks } => ActionView::FetchBlocks { blocks: blocks@ },
            Action::SaveCurrentBlock { current_block } => ActionView::SaveCurrentBlock {
                current_block: *current_block,
            },
            Action::LoadSubscriptions { chain, addresses } => ActionView::LoadSubscriptions {
                chain: *chain,
                addresses: text_views(addresses@),
            },
            Action::Notify { dispatches } => ActionView::Notify {
                dispatches: dispatch_views(dispatches@),
            },
            Action::StoreTransactions { transactions } => ActionView::StoreTransactions {
                transactions: transaction_views(transactions@),
            },
        }
    }
}

impl Action {
    /// Whether the work is one before which a run may be called off
    /// without loss: a wait, or the fetches of a batch.
    pub fn is_interruptible(&self) -> (interruptible: bool)
        ensures
            interruptible == (self@ is Wait || self@ is FetchBlocks),
    {
        match self {
            Action::Wait { .. } => true,
            Action::FetchBlocks { .. } => true,
            _ => false,
        }
    }
}

/// Where the engine stands: the work it has asked for and what it keeps of
/// the current batch while waiting for the outcome.
#[derive(Debug, PartialEq, Eq)]
pub enum Phase {
    /// Not started.
    Idle,
    /// Head refresh: the persisted progress was asked for.
    LoadingProgress,
    /// Head refresh: the chain height was asked for.
    FetchingHead { state: ParserState },
    /// Head refresh: the observed height is being persisted.
    SavingLatest { state: ParserState },
    /// Waiting before the next head refresh.
    Waiting,
    /// Catch-up: the persisted progress was asked for.
    LoadingBatch,
    /// Catch-up: the blocks of the window are being fetched.
    FetchingBlocks { state: ParserState, window: BlockWindow },
    /// Catch-up: the end of the window is being persisted as completed.
    SavingCurrent { state: ParserState, window: BlockWindow, transactions: Vec<Transaction> },
    /// Catch-up: the subscriptions for the batch were asked for.
    LoadingSubscriptions { transactions: Vec<Transaction> },
    /// Catch-up: the notifications are being attempted.
    Notifying { transactions: Vec<Transaction> },
    /// Catch-up: the matched transactions are being stored.
    Storing,
}

/// What a `Phase` stands for in contracts.
pub enum PhaseView {
    Idle,
    LoadingProgress,
    FetchingHead { state: ParserState },
    SavingLatest { state: ParserState },
    Waiting,
    LoadingBatch,
    FetchingBlocks { state: ParserState, window: BlockWindow },
    SavingCurrent { state: ParserState, window: BlockWindow, transactions: Seq<TransactionView> },
    LoadingSubscriptions { transactions: Seq<TransactionView> },
    Notifying { transactions: Seq<TransactionView> },
    Storing,
}

impl View for Phase {
    type V = PhaseView;

    open spec fn view(&self) -> PhaseView {
        match self {
            Phase::Idle => PhaseView::Idle,
            Phase::LoadingProgress => PhaseView::LoadingProgress,
            Phase::FetchingHead { state } => PhaseView::FetchingHead { state: *state },
            Phase::SavingLatest { state } => PhaseView::SavingLatest { state: *state },
            Phase::Waiting => PhaseView::Waiting,
            Phase::LoadingBatch => PhaseView::LoadingBatch,
            Phase::FetchingBlocks { state, window } => PhaseView::FetchingBlocks {
                state: *state,
                window: *window,
            },
            Phase::SavingCurrent { state, window, transactions } => PhaseView::SavingCurrent {
                state: *state,
                window: *window,
                transactions: transaction_views(transactions@),
            },
            Phase::LoadingSubscriptions { transactions } => PhaseView::LoadingSubscriptions {
                transactions: transaction_views(transactions@),
            },
            Phase::Notifying { transactions } => PhaseView::Notifying {
                transactions: transaction_views(transactions@),
            },
            Phase::Storing => PhaseView::Storing,
        }
    }
}

impl Phase {
    /// Whether a window that the phase keeps holds a block.
    pub open spec fn well_formed(self) -> bool {
        match self {
            Phase::FetchingBlocks { window, .. } => window.width() > 0,
            Phase::SavingCurrent { window, .. } => window.width() > 0,
            _ => true,
        }
    }
}

/// The engine of one chain.
#[derive(Debug)]
pub struct Parser {
    chain: Chain,
    options: ParserOptions,
    phase: Phase,
}

/// What a `Parser` stands for in contracts.
pub struct ParserView {
    pub chain: Chain,
    pub options: ParserOptions,
    pub phase: PhaseView,
}

impl View for Parser {
    type V = ParserView;

    closed spec fn view(&self) -> ParserView {
        ParserView { chain: self.chain, options: self.options, phase: self.phase@ }
    }
}

impl ParserView {
    /// The engine in another phase.
    pub open spec fn at(self, phase: PhaseView) -> ParserView {
        ParserView { phase, ..self }
    }

    /// The engine at the beginning of a head refresh, and the work that
    /// begins it.
    pub open spec fn refresh(self) -> (ParserView, ActionView) {
        (self.at(PhaseView::LoadingProgress), ActionView::LoadProgress)
    }

    /// The engine after `event`, and the work it asks for.
    ///
    /// Head refresh: the progress is read and the chain height fetched. A
    /// failed fetch leads to a wait and leaves the progress untouched. A
    /// fetched height is persisted; a chain that is then ahead leads to a
    /// wait, any other to catch-up.
    ///
    /// Catch-up: the progress is read again and the window computed. An
    /// empty window leads back to the head refresh. Otherwise its blocks are
    /// fetched, the last of them is persisted as completed whatever the
    /// fetches gave, the subscriptions for the touched addresses are read,
    /// the matches are dispatched and stored, and catch-up begins again.
    ///
    /// An event that does not answer the work asked for leads back to the
    /// head refresh.
    pub open spec fn step(self, event: Event) -> (ParserView, ActionView) {
        match (self.phase, event) {
            (PhaseView::LoadingProgress, Event::Progress(state)) => (
                self.at(PhaseView::FetchingHead { state }),
                ActionView::FetchHead,
            ),
            (PhaseView::FetchingHead { state }, Event::Head(Ok(latest_block))) => (
                self.at(PhaseView::SavingLatest { state: state.observed(latest_block) }),
                ActionView::SaveLatestBlock { latest_block },
            ),
            (PhaseView::FetchingHead { state }, Event::Head(Err(error))) => (
                self.at(PhaseView::Waiting),
                ActionView::Wait {
                    seconds: self.options.timeout,
                    reason: WaitReason::HeadUnavailable(error),
                },
            ),
            (PhaseView::SavingLatest { state }, Event::Saved) => if state.ahead() {
                (
                    self.at(PhaseView::Waiting),
                    ActionView::Wait { seconds: self.options.timeout, reason: WaitReason::Ahead },
                )
            } else {
                (self.at(PhaseView::LoadingBatch), ActionView::LoadProgress)
            },
            (PhaseView::Waiting, Event::Woke) => self.refresh(),
            (PhaseView::LoadingBatch, Event::Progress(state)) => match state.window() {
                Some(window) => (
                    self.at(PhaseView::FetchingBlocks { state, window }),
                    ActionView::FetchBlocks { blocks: window.blocks() },
                ),
                None => self.refresh(),
            },
            (PhaseView::FetchingBlocks { state, window }, Event::Blocks(results)) => (
                self.at(
                    PhaseView::SavingCurrent {
                        state,
                        window,
                        transactions: collected(results@),
                    },
                ),
                ActionView::SaveCurrentBlock { current_block: (window.end - 1) as i64 },
            ),
            (PhaseView::SavingCurrent { state, window, transactions }, Event::Saved) => (
                self.at(PhaseView::LoadingSubscriptions { transactions }),
                ActionView::LoadSubscriptions { chain: self.chain, addresses: touched(transactions) },
            ),
            (PhaseView::LoadingSubscriptions { transactions }, Event::Subscriptions(found)) => {
                let sent = dispatches(subscription_views(found@), transactions);
                (
                    self.at(PhaseView::Notifying { transactions: stored(sent) }),
                    ActionView::Notify { dispatches: sent },
                )
            },
            (PhaseView::Notifying { transactions }, Event::Dispatched) => (
                self.at(PhaseView::Storing),
                ActionView::StoreTransactions { transactions },
            ),
            (PhaseView::Storing, Event::Stored) => (
                self.at(PhaseView::LoadingBatch),
                ActionView::LoadProgress,
            ),
            _ => self.refresh(),
        }
    }
}

impl Parser {
    #[verifier::type_invariant]
    spec fn keeps_windows_filled(self) -> bool {
        self.phase.well_formed()
    }

    /// The chain that the engine indexes.
    pub fn chain(&self) -> (chain: Chain)
        ensures
            chain == self@.chain,
    {
        self.chain
    }

    /// The pacing that the engine was made with.
    pub fn options(&self) -> (options: ParserOptions)
        ensures
            options == self@.options,
    {
        self.options
    }

    /// Where the engine stands.
    pub fn phase(&self) -> (phase: &Phase)
        ensures
            phase@ == self@.phase,
    {
        &self.phase
    }

    /// An engine for `chain` that has not been started.
    pub fn new(chain: Chain, options: ParserOptions) -> (parser: Parser)
        ensures
            parser@ == (ParserView { chain, options, phase: PhaseView::Idle }),
    {
        Parser { chain, options, phase: Phase::Idle }
    }

    /// Starts, or starts over, with a head refresh.
    pub fn start(&mut self) -> (action: Action)
        ensures
            (final(self)@, action@) == old(self)@.refresh(),
    {
        self.phase = Phase::LoadingProgress;
        Action::LoadProgress
    }

    /// Takes the outcome of the work last asked for and answers with the
    /// work to do next.
    pub fn advance(&mut self, event: Event) -> (action: Action)
        ensures
            (final(self)@, action@) == old(self)@.step(event),
    {
        proof {
            use_type_invariant(&*self);
        }
        let mut phase = Phase::Idle;
        core::mem::swap(&mut self.phase, &mut phase);
        match (phase, event) {
            (Phase::LoadingProgress, Event::Progress(state)) => {
                self.phase = Phase::FetchingHead { state };
                Action::FetchHead
            },
            (Phase::FetchingHead { state }, Event::Head(Ok(latest_block))) => {
                self.phase = Phase::SavingLatest { state: state.with_latest_block(latest_block) };
                Action::SaveLatestBlock { latest_block }
            },
            (Phase::FetchingHead { state }, Event::Head(Err(error))) => {
                self.phase = Phase::Waiting;
                Action::Wait {
                    seconds: self.options.timeout,
                    reason: WaitReason::HeadUnavailable(error),
                }
            },
            (Phase::SavingLatest { state }, Event::Saved) => {
                if state.is_ahead() {
                    self.phase = Phase::Waiting;
                    Action::Wait { seconds: self.options.timeout, reason: WaitReason::Ahead }
                } else {
                    self.phase = Phase::LoadingBatch;
                    Action::LoadProgress
                }
            },
            (Phase::Waiting, Event::Woke) => {
                self.phase = Phase::LoadingProgress;
                Action::LoadProgress
            },
            (Phase::LoadingBatch, Event::Progress(state)) => {
                match state.next_window() {
                    Some(window) => {
                        self.phase = Phase::FetchingBlocks { state, window };
                        Action::FetchBlocks { blocks: window.to_blocks() }
                    },
                    None => {
                        self.phase = Phase::LoadingProgress;
                        Action::LoadProgress
                    },
                }
            },
            (Phase::FetchingBlocks { state, window }, Event::Blocks(results)) => {
                let transactions = collect_transactions(&results);
                let current_block = window.last();
                self.phase = Phase::SavingCurrent { state, window, transactions };
                Action::SaveCurrentBlock { current_block }
            },
            (Phase::SavingCurrent { state, window, transactions }, Event::Saved) => {
                let addresses = touched_addresses(&transactions);
                self.phase = Phase::LoadingSubscriptions { transactions };
                Action::LoadSubscriptions { chain: self.chain, addresses }
            },
            (Phase::LoadingSubscriptions { transactions }, Event::Subscriptions(found)) => {
                let batch = match_transactions(&found, &transactions);
                self.phase = Phase::Notifying { transactions: batch.transactions };
                Action::Notify { dispatches: batch.dispatches }
            },
            (Phase::Notifying { transactions }, Event::Dispatched) => {
                self.phase = Phase::Storing;
                Action::StoreTransactions { transactions }
            },
            (Phase::Storing, Event::Stored) => {
                self.phase = Phase::LoadingBatch;
                Action::LoadProgress
            },
            _ => {
                self.phase = Phase::LoadingProgress;
                Action::LoadProgress
            },
        }
    }
}

} // verus!
