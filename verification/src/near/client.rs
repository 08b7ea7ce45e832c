//! The NEAR adapter: which requests it makes and how it normalizes what a
//! node reports.

use vstd::prelude::*;
use vstd::string::StringExecFns;
use crate::chain::{AssetIdView, Chain};
use crate::clock::utc_now;
use crate::near::model::{Action, Block, BlockHeader, Chunk, Request};
use crate::text::{integer_text, signed_decimal};
use crate::transaction::{
    transaction_id, transaction_views, Timestamp, Transaction, TransactionState, TransactionType,
    TransactionView,
};

verus! {

/// The deposit that a transaction transfers: that of its last action,
/// where it has one or two actions and the last is a transfer. Any other
/// transaction is not recognized.
pub open spec fn transferred(transaction: crate::near::model::Transaction) -> Option<Seq<char>> {
    let actions = transaction.actions@;
    if actions.len() == 1 || actions.len() == 2 {
        match actions.last() {
            Action::Transfer { deposit } => Some(deposit@),
            _ => None,
        }
    } else {
        None
    }
}

/// The canonical transaction for a transaction of the block with `header`,
/// where it is recognized.
pub open spec fn transfer(
    header: BlockHeader,
    transaction: crate::near::model::Transaction,
    created_at: Timestamp,
) -> Option<TransactionView> {
    match transferred(transaction) {
        Some(deposit) => {
            let native = AssetIdView { chain: Chain::Near, token_id: None };
            Some(
                TransactionView {
                    id: transaction_id(Chain::Near, transaction.hash@),
                    hash: transaction.hash@,
                    asset_id: native,
                    from: transaction.signer_id@,
                    to: transaction.receiver_id@,
                    contract: None,
                    transaction_type: TransactionType::Transfer,
                    state: TransactionState::Confirmed,
                    block_number: signed_decimal(header.height as int),
                    sequence: signed_decimal(transaction.nonce as int),
                    fee: "830000000000000000000"@,
                    fee_asset_id: native,
                    value: deposit,
                    memo: None,
                    created_at,
                },
            )
        },
        None => None,
    }
}

/// The canonical transactions among `data`, in order, the i-th of `data`
/// stamped with the i-th of `stamps`.
pub open spec fn transfers(
    header: BlockHeader,
    data: Seq<crate::near::model::Transaction>,
    stamps: Seq<Timestamp>,
) -> Seq<TransactionView>
    decreases data.len(),
{
    if data.len() == 0 || stamps.len() == 0 {
        Seq::empty()
    } else {
        let before = transfers(header, data.drop_last(), stamps.drop_last());
        match transfer(header, data.last(), stamps.last()) {
            Some(transaction) => before.push(transaction),
            None => before,
        }
    }
}

/// The transactions of the chunks, chunk after chunk.
pub open spec fn chunk_transactions(chunks: Seq<Chunk>) -> Seq<crate::near::model::Transaction>
    decreases chunks.len(),
{
    if chunks.len() == 0 {
        Seq::empty()
    } else {
        chunk_transactions(chunks.drop_last()) + chunks.last().transactions@
    }
}

/// The requests for the chunks of a block: one for each shard, at the
/// block's height.
pub open spec fn chunk_requests_of(block: Block) -> Seq<Request> {
    Seq::new(
        block.chunks@.len(),
        |i: int| Request::Chunk { block_id: block.header.height, shard_id: block.chunks@[i].shard_id },
    )
}

impl Request {
    /// The method of the request.
    pub fn method(&self) -> (method: &'static str)
        ensures
            method@ == (if self is Chunk {
                "chunk"@
            } else {
                "block"@
            }),
    {
        match self {
            Request::FinalBlock => "block",
            Request::Block { .. } => "block",
            Request::Chunk { .. } => "chunk",
        }
    }
}

/// The NEAR adapter for the node at `url`.
#[derive(Debug)]
pub struct NearClient {
    pub url: String,
}

impl NearClient {
    pub fn new(url: String) -> (client: NearClient)
        ensures
            client.url == url,
    {
        NearClient { url }
    }

    /// The largest answer that is accepted from the node, in bytes.
    pub fn max_response_size(&self) -> (size: u32)
        ensures
            size == 256 * 1024 * 1024,
    {
        268435456
    }

    pub fn get_chain(&self) -> (chain: Chain)
        ensures
            chain == Chain::Near,
    {
        Chain::Near
    }

    /// The request for the latest final block.
    pub fn get_final_block(&self) -> (request: Request)
        ensures
            request == Request::FinalBlock,
    {
        Request::FinalBlock
    }

    /// The request for the block at height `block`.
    pub fn get_block(&self, block: i64) -> (request: Request)
        ensures
            request == (Request::Block { block_id: block }),
    {
        Request::Block { block_id: block }
    }

    /// The request for the chunk of shard `shard_id` of the block at height
    /// `block`.
    pub fn get_chunk(&self, block: i64, shard_id: i64) -> (request: Request)
        ensures
            request == (Request::Chunk { block_id: block, shard_id }),
    {
        Request::Chunk { block_id: block, shard_id }
    }

    /// The chain height that a final block shows.
    pub fn latest_block(&self, block: &Block) -> (height: i64)
        ensures
            height == block.header.height,
    {
        block.header.height
    }

    /// The requests for the chunks of `block`, in the order of its shards.
    pub fn chunk_requests(&self, block: &Block) -> (requests: Vec<Request>)
        ensures
            requests@ == chunk_requests_of(*block),
    {
        let mut requests: Vec<Request> = Vec::new();
        let mut i: usize = 0;
        while i < block.chunks.len()
            invariant
                0 <= i <= block.chunks.len(),
                requests@ == chunk_requests_of(*block).take(i as int),
            decreases block.chunks.len() - i,
        {
            requests.push(self.get_chunk(block.header.height, block.chunks[i].shard_id));
            i = i + 1;
            assert(requests@ =~= chunk_requests_of(*block).take(i as int));
        }
        assert(chunk_requests_of(*block).take(i as int) =~= chunk_requests_of(*block));
        requests
    }

    /// Normalizes one transaction as of `created_at`.
    pub fn map_transaction_at(
        &self,
        header: BlockHeader,
        transaction: &crate::near::model::Transaction,
        created_at: Timestamp,
    ) -> (mapped: Option<Transaction>)
        ensures
            match mapped {
                Some(t) => transfer(header, *transaction, created_at) == Some(t@),
                None => transfer(header, *transaction, created_at) is None,
            },
    {
        let count = transaction.actions.len();
        if count == 1 || count == 2 {
            match &transaction.actions[count - 1] {
                Action::Transfer { deposit } => {
                    let asset_id = self.get_chain().as_asset_id();
                    Some(
                        Transaction::new(
                            transaction.hash.clone(),
                            asset_id.clone(),
                            transaction.signer_id.clone(),
                            transaction.receiver_id.clone(),
                            None,
                            TransactionType::Transfer,
                            TransactionState::Confirmed,
                            integer_text(header.height),
                            integer_text(transaction.nonce),
                            String::from_str("830000000000000000000"),
                            asset_id,
                            deposit.clone(),
                            None,
                            created_at,
                        ),
                    )
                },
                Action::CreateAccount => None,
                Action::Other => None,
            }
        } else {
            None
        }
    }

    /// Normalizes one transaction, stamped with the current time: the
    /// result is what `map_transaction_at` gives at the instant the clock
    /// showed.
    pub fn map_transaction(
        &self,
        header: BlockHeader,
        transaction: &crate::near::model::Transaction,
    ) -> (mapped: Option<Transaction>)
        ensures
            match mapped {
                Some(t) => transfer(header, *transaction, t.created_at) == Some(t@),
                None => forall|at: Timestamp| transfer(header, *transaction, at) is None,
            },
    {
        self.map_transaction_at(header, transaction, utc_now())
    }

    /// Normalizes the transactions of the chunks of the block with
    /// `header`. Transactions that are not recognized are left out; the
    /// others keep their order, chunk after chunk, each stamped with the
    /// time at which it was mapped.
    pub fn map_chunks(&self, header: BlockHeader, chunks: &Vec<Chunk>) -> (transactions: Vec<
        Transaction,
    >)
        ensures
            exists|stamps: Seq<Timestamp>|
                stamps.len() == chunk_transactions(chunks@).len() && transaction_views(
                    transactions@,
                ) == #[trigger] transfers(header, chunk_transactions(chunks@), stamps),
    {
        let mut transactions: Vec<Transaction> = Vec::new();
        let ghost mut stamps: Seq<Timestamp> = Seq::empty();
        let mut c: usize = 0;
        assert(transaction_views(transactions@) =~= transfers(
            header,
            chunk_transactions(chunks@.take(0)),
            stamps,
        ));
        while c < chunks.len()
            invariant
                0 <= c <= chunks.len(),
                stamps.len() == chunk_transactions(chunks@.take(c as int)).len(),
                transaction_views(transactions@) == transfers(
                    header,
                    chunk_transactions(chunks@.take(c as int)),
                    stamps,
                ),
            decreases chunks.len() - c,
        {
            let chunk = &chunks[c];
            let ghost done = chunk_transactions(chunks@.take(c as int));
            let mut t: usize = 0;
            assert(done + chunk.transactions@.take(0) =~= done);
            while t < chunk.transactions.len()
                invariant
                    0 <= t <= chunk.transactions.len(),
                    stamps.len() == done.len() + t,
                    transaction_views(transactions@) == transfers(
                        header,
                        done + chunk.transactions@.take(t as int),
                        stamps,
                    ),
                decreases chunk.transactions.len() - t,
            {
                let now = utc_now();
                let ghost before = transactions@;
                let ghost earlier = stamps;
                proof {
                    stamps = stamps.push(now);
                    assert(stamps.drop_last() =~= earlier);
                    let seen = done + chunk.transactions@.take(t + 1);
                    assert(seen.drop_last() =~= done + chunk.transactions@.take(t as int));
                    assert(seen.last() == chunk.transactions@[t as int]);
                }
                match self.map_transaction_at(header, &chunk.transactions[t], now) {
                    Some(transaction) => {
                        transactions.push(transaction);
                        assert(transaction_views(transactions@) =~= transaction_views(
                            before,
                        ).push(transaction@));
                    },
                    None => {},
                }
                t = t + 1;
            }
            proof {
                assert(chunk.transactions@.take(t as int) =~= chunk.transactions@);
                assert(chunks@.take(c + 1).drop_last() =~= chunks@.take(c as int));
                assert(chunks@.take(c + 1).last() == chunks@[c as int]);
            }
            c = c + 1;
        }
        assert(chunks@.take(c as int) =~= chunks@);
        transactions
    }
}

} // verus!
