//! Persisted per-chain progress and the block window computed from it.

use vstd::prelude::*;

verus! {

/// The progress persisted for one chain.
///
/// `current_block` is the last block whose batch has completed,
/// `latest_block` the most recently observed chain height, `await_blocks`
/// the number of trailing blocks that are never processed, and
/// `parallel_blocks` the largest number of blocks fetched in one batch.
#[derive(Clone, Copy, Debug, PartialEq, Eq, Structural, Hash)]
pub struct ParserState {
    pub current_block: i64,
    pub latest_block: i64,
    pub await_blocks: u32,
    pub parallel_blocks: u32,
}

/// A half-open range of block heights `[start, end)`.
#[derive(Clone, Copy, Debug, PartialEq, Eq, Structural, Hash)]
pub struct BlockWindow {
    pub start: i64,
    pub end: i64,
}

impl BlockWindow {
    /// The number of blocks in the window.
    pub open spec fn width(self) -> nat {
        if self.start < self.end {
            (self.end - self.start) as nat
        } else {
            0
        }
    }

    /// The heights in the window, ascending.
    pub open spec fn blocks(self) -> Seq<i64> {
        Seq::new(self.width(), |k: int| (self.start + k) as i64)
    }

    pub fn is_empty(&self) -> (empty: bool)
        ensures
            empty == (self.width() == 0),
    {
        self.start >= self.end
    }

    /// The last height in a window that has one.
    pub fn last(&self) -> (block: i64)
        requires
            self.width() > 0,
        ensures
            block == self.end - 1,
            block == self.blocks().last(),
    {
        self.end - 1
    }

    /// The heights in the window as a list, ascending.
    pub fn to_blocks(&self) -> (blocks: Vec<i64>)
        ensures
            blocks@ == self.blocks(),
    {
        let mut blocks: Vec<i64> = Vec::new();
        let mut next: i64 = self.start;
        while next < self.end
            invariant
                self.start <= next <= self.end || (self.end < self.start && next == self.start),
                blocks@ == Seq::new(
                    if self.start < next {
                        (next - self.start) as nat
                    } else {
                        0
                    },
                    |k: int| (self.start + k) as i64,
                ),
            decreases self.end - next,
        {
            blocks.push(next);
            next = next + 1;
            assert(blocks@ =~= Seq::new(
                (next - self.start) as nat,
                |k: int| (self.start + k) as i64,
            ));
        }
        assert(blocks@ =~= self.blocks());
        blocks
    }
}

impl ParserState {
    /// The progress of a chain that has not been processed yet.
    pub fn new(await_blocks: u32, parallel_blocks: u32) -> (state: ParserState)
        ensures
            state == (ParserState { current_block: 0, latest_block: 0, await_blocks, parallel_blocks }),
    {
        ParserState { current_block: 0, latest_block: 0, await_blocks, parallel_blocks }
    }

    /// The first height of the next batch.
    pub open spec fn window_start(self) -> int {
        self.current_block + 1
    }

    /// The height just past the next batch: at most `parallel_blocks`
    /// heights are taken, and none of the trailing `await_blocks`.
    pub open spec fn window_end(self) -> int {
        let by_width = self.window_start() + self.parallel_blocks;
        let by_head = self.latest_block - self.await_blocks;
        if by_width <= by_head {
            by_width
        } else {
            by_head
        }
    }

    /// Whether nothing new can safely be processed.
    pub open spec fn ahead(self) -> bool {
        self.current_block + self.await_blocks >= self.latest_block
    }

    /// The window of the next batch, where it holds a block.
    pub open spec fn window(self) -> Option<BlockWindow> {
        if self.window_start() < self.window_end() {
            Some(BlockWindow { start: self.window_start() as i64, end: self.window_end() as i64 })
        } else {
            None
        }
    }

    /// The progress after a chain height has been observed.
    pub open spec fn observed(self, latest_block: i64) -> ParserState {
        ParserState { latest_block, ..self }
    }

    /// The progress after the batch that ends with `current_block` has
    /// completed.
    pub open spec fn completed(self, current_block: i64) -> ParserState {
        ParserState { current_block, ..self }
    }

    pub fn is_ahead(&self) -> (ahead: bool)
        ensures
            ahead == self.ahead(),
    {
        self.current_block as i128 + self.await_blocks as i128 >= self.latest_block as i128
    }

    pub fn with_latest_block(&self, latest_block: i64) -> (state: ParserState)
        ensures
            state == self.observed(latest_block),
    {
        ParserState {
            current_block: self.current_block,
            latest_block,
            await_blocks: self.await_blocks,
            parallel_blocks: self.parallel_blocks,
        }
    }

    pub fn with_current_block(&self, current_block: i64) -> (state: ParserState)
        ensures
            state == self.completed(current_block),
    {
        ParserState {
            current_block,
            latest_block: self.latest_block,
            await_blocks: self.await_blocks,
            parallel_blocks: self.parallel_blocks,
        }
    }

    /// Computes the window of the next batch:
    /// `[current_block + 1, min(current_block + 1 + parallel_blocks, latest_block - await_blocks))`,
    /// or `None` where that range is empty.
    pub fn next_window(&self) -> (window: Option<BlockWindow>)
        ensures
            window == self.window(),
            window matches Some(w) ==> {
                &&& w.start == self.current_block + 1
                &&& 0 < w.width() <= self.parallel_blocks
                &&& w.end <= self.latest_block - self.await_blocks
                &&& w.end == self.window_end()
            },
            window is None <==> self.window_end() <= self.window_start(),
    {
        let start: i128 = self.current_block as i128 + 1;
        let by_width: i128 = start + self.parallel_blocks as i128;
        let by_head: i128 = self.latest_block as i128 - self.await_blocks as i128;
        let end: i128 = if by_width <= by_head {
            by_width
        } else {
            by_head
        };
        if start < end {
            Some(BlockWindow { start: start as i64, end: end as i64 })
        } else {
            None
        }
    }
}

/// A window never holds more than `parallel_blocks` heights, never reaches
/// into the trailing `await_blocks` below the observed height, and starts
/// right after the last completed block.
pub proof fn window_is_bounded(state: ParserState)
    ensures
        match state.window() {
            Some(w) => {
                &&& w.start == state.current_block + 1
                &&& w.start < w.end
                &&& w.width() <= state.parallel_blocks
                &&& w.end <= state.latest_block - state.await_blocks
                &&& forall|k: int| 0 <= k < w.blocks().len() ==> w.start <= #[trigger] w.blocks()[k] < w.end
            },
            None => true,
        },
{
}

/// A chain that is ahead has no window: once caught up, no batch starts
/// until a new height is observed.
pub proof fn ahead_has_no_window(state: ParserState)
    requires
        state.ahead(),
    ensures
        state.window() is None,
{
}

/// Completing a batch moves `current_block` strictly forward, and the next
/// window starts right behind the one completed.
pub proof fn batch_moves_forward(state: ParserState)
    requires
        state.window() is Some,
    ensures
        ({
            let w = state.window().unwrap();
            let next = state.completed((w.end - 1) as i64);
            &&& next.current_block > state.current_block
            &&& next.current_block == w.end - 1
            &&& next.window_start() == w.end
            &&& next.latest_block == state.latest_block
        }),
{
}

/// A chain with no window left is caught up to within one block of the
/// height that may be processed: where batches have a width, `current_block
/// + await_blocks + 1` has reached `latest_block`.
pub proof fn caught_up_is_within_one(state: ParserState)
    requires
        state.window() is None,
        state.parallel_blocks > 0,
    ensures
        state.current_block + state.await_blocks + 1 >= state.latest_block,
{
}

} // verus!
