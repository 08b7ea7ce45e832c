//! What holds of every run of the engine against a store of progress that
//! only the engine writes.

use vstd::prelude::*;
use crate::matcher::{dispatches, stored, subscription_views, touched, Subscription};
use crate::parser::{ActionView, Event, ParserView, PhaseView, WaitReason};
use crate::progress::ParserState;
use crate::provider::{collected, BlockResult, ProviderError};

verus! {

impl ActionView {
    /// The persisted progress once the work has been carried out: the two
    /// markers are written, nothing else touches the progress.
    pub open spec fn applied(self, progress: ParserState) -> ParserState {
        match self {
            ActionView::SaveLatestBlock { latest_block } => progress.observed(latest_block),
            ActionView::SaveCurrentBlock { current_block } => progress.completed(current_block),
            _ => progress,
        }
    }

    /// Whether `event` is an outcome of the work, carried out when the
    /// persisted progress is `progress`. Reading the progress gives what is
    /// persisted; whatever a provider or the subscriptions give is an
    /// outcome.
    pub open spec fn answered_by(self, progress: ParserState, event: Event) -> bool {
        match self {
            ActionView::LoadProgress => event == Event::Progress(progress),
            ActionView::FetchHead => event is Head,
            ActionView::SaveLatestBlock { .. } => event is Saved,
            ActionView::Wait { .. } => event is Woke,
            ActionView::FetchBlocks { .. } => event is Blocks,
            ActionView::SaveCurrentBlock { .. } => event is Saved,
            ActionView::LoadSubscriptions { .. } => event is Subscriptions,
            ActionView::Notify { .. } => event is Dispatched,
            ActionView::StoreTransactions { .. } => event is Stored,
        }
    }

    /// Whether the work writes to the persisted progress.
    pub open spec fn writes_progress(self) -> bool {
        self is SaveLatestBlock || self is SaveCurrentBlock
    }
}

/// An engine together with the progress persisted for its chain and the
/// work it has asked for, which has not been carried out yet.
pub struct Run {
    pub parser: ParserView,
    pub progress: ParserState,
    pub pending: ActionView,
}

impl Run {
    /// The run of an engine that was just started.
    pub open spec fn started(parser: ParserView, progress: ParserState) -> Run {
        Run { parser: parser.refresh().0, progress, pending: parser.refresh().1 }
    }

    /// The progress persisted once the pending work has been carried out.
    pub open spec fn settled(self) -> ParserState {
        self.pending.applied(self.progress)
    }

    /// Whether `event` is an outcome of the pending work.
    pub open spec fn admits(self, event: Event) -> bool {
        self.pending.answered_by(self.settled(), event)
    }

    /// The run after the pending work was carried out with outcome `event`.
    pub open spec fn after(self, event: Event) -> Run {
        Run {
            parser: self.parser.step(event).0,
            progress: self.settled(),
            pending: self.parser.step(event).1,
        }
    }

    /// The run after the outcomes `events`, one after the other.
    pub open spec fn after_all(self, events: Seq<Event>) -> Run
        decreases events.len(),
    {
        if events.len() == 0 {
            self
        } else {
            self.after_all(events.drop_last()).after(events.last())
        }
    }

    /// Whether each of `events` is an outcome of the work pending when it
    /// arrives.
    pub open spec fn admits_all(self, events: Seq<Event>) -> bool
        decreases events.len(),
    {
        events.len() > 0 ==> self.admits_all(events.drop_last()) && self.after_all(
            events.drop_last(),
        ).admits(events.last())
    }

    /// Whether what the engine keeps agrees with what is persisted and with
    /// the work it has asked for.
    pub open spec fn consistent(self) -> bool {
        match self.parser.phase {
            PhaseView::Idle => false,
            PhaseView::LoadingProgress => self.pending is LoadProgress,
            PhaseView::FetchingHead { state } => self.pending is FetchHead && state
                == self.progress,
            PhaseView::SavingLatest { state } => self.pending == (ActionView::SaveLatestBlock {
                latest_block: state.latest_block,
            }) && state == self.settled(),
            PhaseView::Waiting => self.pending is Wait,
            PhaseView::LoadingBatch => self.pending is LoadProgress,
            PhaseView::FetchingBlocks { state, window } => {
                &&& state == self.progress
                &&& state.window() == Some(window)
                &&& self.pending == (ActionView::FetchBlocks { blocks: window.blocks() })
            },
            PhaseView::SavingCurrent { state, window, .. } => {
                &&& state == self.progress
                &&& state.window() == Some(window)
                &&& self.pending == (ActionView::SaveCurrentBlock {
                    current_block: (window.end - 1) as i64,
                })
            },
            PhaseView::LoadingSubscriptions { .. } => self.pending is LoadSubscriptions,
            PhaseView::Notifying { .. } => self.pending is Notify,
            PhaseView::Storing => self.pending is StoreTransactions,
        }
    }
}

/// One step of a consistent run is consistent again, moves `current_block`
/// forward or leaves it, and changes the configured depths never.
pub proof fn step_keeps_consistency(run: Run, event: Event)
    requires
        run.consistent(),
        run.admits(event),
    ensures
        run.after(event).consistent(),
        run.after(event).progress.current_block >= run.progress.current_block,
        run.after(event).settled().current_block >= run.after(event).progress.current_block,
        run.after(event).progress.await_blocks == run.progress.await_blocks,
        run.after(event).progress.parallel_blocks == run.progress.parallel_blocks,
        run.after(event).parser.chain == run.parser.chain,
        run.after(event).parser.options == run.parser.options,
{
}

/// A run that was just started is consistent.
pub proof fn started_is_consistent(parser: ParserView, progress: ParserState)
    ensures
        Run::started(parser, progress).consistent(),
        Run::started(parser, progress).progress == progress,
{
}

/// Over any run, `current_block` never decreases: not from one batch to the
/// next, and not in between.
pub proof fn current_block_never_decreases(run: Run, events: Seq<Event>)
    requires
        run.consistent(),
        run.admits_all(events),
    ensures
        run.after_all(events).consistent(),
        run.after_all(events).progress.current_block >= run.progress.current_block,
        run.after_all(events).settled().current_block >= run.progress.current_block,
        forall|n: int|
            0 <= n <= events.len() ==> (#[trigger] run.after_all(
                events.take(n),
            )).progress.current_block <= run.after_all(events).progress.current_block,
    decreases events.len(),
{
    if events.len() > 0 {
        let earlier = events.drop_last();
        current_block_never_decreases(run, earlier);
        step_keeps_consistency(run.after_all(earlier), events.last());
        assert forall|n: int| 0 <= n <= events.len() implies (#[trigger] run.after_all(
            events.take(n),
        )).progress.current_block <= run.after_all(events).progress.current_block by {
            if n < events.len() {
                assert(events.take(n) =~= earlier.take(n));
            } else {
                assert(events.take(n) =~= events);
            }
        }
    } else {
        assert forall|n: int| 0 <= n <= events.len() implies (#[trigger] run.after_all(
            events.take(n),
        )).progress.current_block <= run.after_all(events).progress.current_block by {
            assert(events.take(n) =~= events);
        }
    }
}

/// From the start of an engine on, whatever the provider, the store and
/// the subscriptions give, `current_block` at a later point of the run is
/// never below `current_block` at an earlier point.
pub proof fn current_block_is_monotonic(
    parser: ParserView,
    progress: ParserState,
    events: Seq<Event>,
    earlier: int,
    later: int,
)
    requires
        Run::started(parser, progress).admits_all(events),
        0 <= earlier <= later <= events.len(),
    ensures
        Run::started(parser, progress).after_all(events.take(earlier)).progress.current_block
            <= Run::started(parser, progress).after_all(
            events.take(later),
        ).progress.current_block,
        Run::started(parser, progress).after_all(events.take(later)).progress.current_block
            <= Run::started(parser, progress).after_all(
            events.take(later),
        ).settled().current_block,
{
    let run = Run::started(parser, progress);
    let first = events.take(earlier);
    let second = events.subrange(earlier, later);
    let rest = events.skip(later);
    assert(events.take(later) =~= first + second);
    assert(events =~= events.take(later) + rest);
    runs_compose(run, events.take(later), rest);
    runs_compose(run, first, second);
    started_is_consistent(parser, progress);
    current_block_never_decreases(run, first);
    current_block_never_decreases(run.after_all(first), second);
}

/// The three outcomes of one failed head refresh: the failure, the end of
/// the wait, and the progress read again.
pub open spec fn failed_refresh(error: ProviderError, progress: ParserState) -> Seq<Event> {
    seq![Event::Head(Err(error)), Event::Woke, Event::Progress(progress)]
}

/// The outcomes of as many failed head refreshes as there are `errors`.
pub open spec fn failed_refreshes(errors: Seq<ProviderError>, progress: ParserState) -> Seq<Event>
    decreases errors.len(),
{
    if errors.len() == 0 {
        Seq::empty()
    } else {
        failed_refreshes(errors.drop_last(), progress) + failed_refresh(errors.last(), progress)
    }
}

/// A failed head fetch makes the engine wait for the configured interval
/// and ask for the progress again, without writing anything.
pub proof fn failed_head_fetch_waits(run: Run, error: ProviderError)
    requires
        run.consistent(),
        run.parser.phase is FetchingHead,
    ensures
        run.admits(Event::Head(Err(error))),
        run.after(Event::Head(Err(error))).pending == (ActionView::Wait {
            seconds: run.parser.options.timeout,
            reason: WaitReason::HeadUnavailable(error),
        }),
        run.after(Event::Head(Err(error))).after(Event::Woke).pending is LoadProgress,
        run.after_all(failed_refresh(error, run.progress)) == run,
        run.admits_all(failed_refresh(error, run.progress)),
        forall|m: int|
            0 <= m <= 3 ==> {
                let then = #[trigger] run.after_all(failed_refresh(error, run.progress).take(m));
                then.progress == run.progress && !then.pending.writes_progress()
            },
{
    let events = failed_refresh(error, run.progress);
    let first = seq![Event::Head(Err(error))];
    let second = seq![Event::Head(Err(error)), Event::Woke];
    assert(first.drop_last() =~= Seq::<Event>::empty());
    assert(second.drop_last() =~= first);
    assert(events.drop_last() =~= second);
    assert(run.after_all(Seq::<Event>::empty()) == run);
    assert(run.after_all(first) == run.after(Event::Head(Err(error))));
    assert(run.after_all(second) == run.after(Event::Head(Err(error))).after(Event::Woke));
    assert(run.admits_all(Seq::<Event>::empty()));
    assert(run.admits_all(first));
    assert(run.admits_all(second));
    assert(events.take(0) =~= Seq::<Event>::empty());
    assert(events.take(1) =~= first);
    assert(events.take(2) =~= second);
    assert(events.take(3) =~= events);
}

/// However often the head fetch fails, the engine keeps retrying and the
/// persisted progress stays as it was: after any number of failures the run
/// is where it was before the first.
pub proof fn failed_head_fetches_change_nothing(run: Run, errors: Seq<ProviderError>)
    requires
        run.consistent(),
        run.parser.phase is FetchingHead,
    ensures
        run.admits_all(failed_refreshes(errors, run.progress)),
        run.after_all(failed_refreshes(errors, run.progress)) == run,
        forall|n: int|
            0 <= n <= failed_refreshes(errors, run.progress).len() ==> {
                let then = #[trigger] run.after_all(
                    failed_refreshes(errors, run.progress).take(n),
                );
                then.progress == run.progress && !then.pending.writes_progress()
            },
    decreases errors.len(),
{
    let events = failed_refreshes(errors, run.progress);
    if errors.len() == 0 {
        assert forall|n: int| 0 <= n <= events.len() implies {
            let then = #[trigger] run.after_all(events.take(n));
            then.progress == run.progress && !then.pending.writes_progress()
        } by {
            assert(events.take(n) =~= events);
        }
    } else {
        let earlier = failed_refreshes(errors.drop_last(), run.progress);
        let last = failed_refresh(errors.last(), run.progress);
        failed_head_fetches_change_nothing(run, errors.drop_last());
        failed_head_fetch_waits(run, errors.last());
        runs_compose(run, earlier, last);
        assert forall|n: int| 0 <= n <= events.len() implies {
            let then = #[trigger] run.after_all(events.take(n));
            then.progress == run.progress && !then.pending.writes_progress()
        } by {
            if n <= earlier.len() {
                assert(events.take(n) =~= earlier.take(n));
            } else {
                let m = n - earlier.len();
                assert(events.take(n) =~= earlier + last.take(m));
                runs_compose(run, earlier, last.take(m));
                assert(run.after_all(events.take(n)) == run.after_all(last.take(m)));
            }
        }
    }
}

/// A run over `first` and then `second` is the run over both.
pub proof fn runs_compose(run: Run, first: Seq<Event>, second: Seq<Event>)
    ensures
        run.after_all(first + second) == run.after_all(first).after_all(second),
        run.admits_all(first + second) <==> run.admits_all(first) && run.after_all(
            first,
        ).admits_all(second),
    decreases second.len(),
{
    if second.len() == 0 {
        assert(first + second =~= first);
    } else {
        runs_compose(run, first, second.drop_last());
        assert((first + second).drop_last() =~= first + second.drop_last());
        assert((first + second).last() == second.last());
    }
}

/// Whatever the fetches of a batch gave, also where some or all of them
/// failed, the last block of the window is persisted as completed, and the
/// transactions kept for matching are those of the blocks that were
/// fetched.
pub proof fn batch_completes_whatever_was_fetched(run: Run, results: Vec<BlockResult>)
    requires
        run.consistent(),
        run.parser.phase is FetchingBlocks,
    ensures
        ({
            let window = run.parser.phase->FetchingBlocks_window;
            let fetched = run.after(Event::Blocks(results));
            &&& window.start == run.progress.current_block + 1
            &&& run.admits(Event::Blocks(results))
            &&& fetched.pending == (ActionView::SaveCurrentBlock {
                current_block: (window.end - 1) as i64,
            })
            &&& fetched.admits(Event::Saved)
            &&& fetched.after(Event::Saved).progress.current_block == window.end - 1
            &&& fetched.after(Event::Saved).progress.current_block > run.progress.current_block
            &&& fetched.parser.phase matches PhaseView::SavingCurrent { transactions, .. }
                && transactions == collected(results@)
        }),
{
}

/// A batch asks for the subscriptions of the addresses that the fetched
/// transactions touch, dispatches one notification for each match of what
/// comes back, stores the matched transactions, each identifier once, and
/// then goes on with the next window.
pub proof fn batch_stores_what_was_matched(
    run: Run,
    results: Vec<BlockResult>,
    found: Vec<Subscription>,
)
    requires
        run.consistent(),
        run.parser.phase is FetchingBlocks,
    ensures
        ({
            let fetched = collected(results@);
            let sent = dispatches(subscription_views(found@), fetched);
            let saved = run.after(Event::Blocks(results)).after(Event::Saved);
            let matched = saved.after(Event::Subscriptions(found));
            let notified = matched.after(Event::Dispatched);
            let done = notified.after(Event::Stored);
            &&& saved.pending == (ActionView::LoadSubscriptions {
                chain: run.parser.chain,
                addresses: touched(fetched),
            })
            &&& saved.admits(Event::Subscriptions(found))
            &&& matched.pending == (ActionView::Notify { dispatches: sent })
            &&& matched.admits(Event::Dispatched)
            &&& notified.pending == (ActionView::StoreTransactions { transactions: stored(sent) })
            &&& notified.admits(Event::Stored)
            &&& done.pending is LoadProgress
            &&& done.parser.phase is LoadingBatch
            &&& done.progress == run.progress.completed(
                (run.parser.phase->FetchingBlocks_window.end - 1) as i64,
            )
        }),
{
}

} // verus!
