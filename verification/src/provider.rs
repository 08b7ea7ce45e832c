//! What a chain provider hands to the indexing engine.

use vstd::prelude::*;
use crate::chain::Chain;
use crate::near::client::NearClient;
use crate::sui::client::SuiClient;
use crate::transaction::{transaction_views, Transaction, TransactionView};

verus! {

/// Why a request to a chain provider failed.
#[derive(Clone, Copy, Debug, PartialEq, Eq, Structural, Hash)]
pub enum ProviderError {
    /// The node could not be reached or answered with a transport error.
    Network,
    /// The node answered with something that could not be decoded.
    Decode,
}

/// The adapter of one chain, chosen once when the service is set up.
#[derive(Debug)]
pub enum ChainAdapter {
    Near(NearClient),
    Sui(SuiClient),
}

impl ChainAdapter {
    /// Whether the library has an adapter for `chain`.
    pub open spec fn supports(chain: Chain) -> bool {
        chain == Chain::Near || chain == Chain::Sui
    }

    /// The chain that the adapter serves.
    pub open spec fn chain(self) -> Chain {
        match self {
            ChainAdapter::Near(_) => Chain::Near,
            ChainAdapter::Sui(_) => Chain::Sui,
        }
    }

    /// The address of the node that the adapter asks.
    pub open spec fn url(self) -> String {
        match self {
            ChainAdapter::Near(client) => client.url,
            ChainAdapter::Sui(client) => client.url,
        }
    }

    /// The adapter of `chain` for the node at `url`, where the library has
    /// one.
    pub fn new(chain: Chain, url: String) -> (adapter: Option<ChainAdapter>)
        ensures
            adapter is Some <==> ChainAdapter::supports(chain),
            adapter matches Some(a) ==> a.chain() == chain && a.url() == url,
    {
        match chain {
            Chain::Near => Some(ChainAdapter::Near(NearClient::new(url))),
            Chain::Sui => Some(ChainAdapter::Sui(SuiClient::new(url))),
            _ => None,
        }
    }

    /// The chain that the adapter serves: the same at every call.
    pub fn get_chain(&self) -> (chain: Chain)
        ensures
            chain == self.chain(),
    {
        match self {
            ChainAdapter::Near(client) => client.get_chain(),
            ChainAdapter::Sui(client) => client.get_chain(),
        }
    }
}

/// The outcome of fetching the transactions of one block.
pub type BlockResult = Result<Vec<Transaction>, ProviderError>;

/// The transactions of the blocks that were fetched successfully, in the
/// order of the blocks. A block whose fetch failed contributes nothing.
pub open spec fn collected(results: Seq<BlockResult>) -> Seq<TransactionView>
    decreases results.len(),
{
    if results.len() == 0 {
        Seq::empty()
    } else {
        collected(results.drop_last()) + (match results.last() {
            Ok(transactions) => transaction_views(transactions@),
            Err(_) => Seq::empty(),
        })
    }
}

/// Appends copies of `more` to `transactions`.
pub fn extend_transactions(transactions: &mut Vec<Transaction>, more: &Vec<Transaction>)
    ensures
        transaction_views(final(transactions)@) == transaction_views(old(transactions)@)
            + transaction_views(more@),
{
    let ghost before = transaction_views(transactions@);
    let mut i: usize = 0;
    while i < more.len()
        invariant
            0 <= i <= more.len(),
            transaction_views(transactions@) == before + transaction_views(more@.take(i as int)),
        decreases more.len() - i,
    {
        let ghost so_far = transactions@;
        let copy = more[i].clone();
        transactions.push(copy);
        i = i + 1;
        assert(transaction_views(transactions@) =~= before + transaction_views(
            more@.take(i as int),
        )) by {
            assert(transactions@ == so_far.push(copy));
            assert(more@.take(i as int) =~= more@.take(i - 1).push(more@[i - 1]));
            assert(transaction_views(so_far.push(copy)) =~= transaction_views(so_far).push(copy@));
            assert(transaction_views(more@.take(i - 1).push(more@[i - 1])) =~= transaction_views(
                more@.take(i - 1),
            ).push(more@[i - 1]@));
        }
    }
    assert(more@.take(i as int) =~= more@);
}

/// Flattens the outcomes of the fetches of one batch: the transactions of
/// every block that was fetched, in block order. Failed blocks are left out
/// and do not fail the batch.
pub fn collect_transactions(results: &Vec<BlockResult>) -> (transactions: Vec<Transaction>)
    ensures
        transaction_views(transactions@) == collected(results@),
{
    let mut transactions: Vec<Transaction> = Vec::new();
    let mut i: usize = 0;
    assert(transaction_views(transactions@) =~= collected(results@.take(0)));
    while i < results.len()
        invariant
            0 <= i <= results.len(),
            transaction_views(transactions@) == collected(results@.take(i as int)),
        decreases results.len() - i,
    {
        assert(results@.take(i + 1).drop_last() =~= results@.take(i as int));
        match &results[i] {
            Ok(found) => {
                extend_transactions(&mut transactions, found);
            },
            Err(_) => {
                assert(transaction_views(transactions@) + Seq::<TransactionView>::empty()
                    =~= transaction_views(transactions@));
            },
        }
        i = i + 1;
    }
    assert(results@.take(i as int) =~= results@);
    transactions
}

/// A failed block contributes nothing to a batch, and the blocks around it
/// contribute what they would have without it.
pub proof fn failed_block_is_absent(
    before: Seq<BlockResult>,
    error: ProviderError,
    after: Seq<BlockResult>,
)
    ensures
        collected(before + seq![Err(error)] + after) == collected(before + after),
    decreases after.len(),
{
    let failed: BlockResult = Err(error);
    if after.len() == 0 {
        assert(before + seq![failed] + after =~= (before + after).push(failed));
        assert((before + after).push(failed).drop_last() =~= before + after);
        assert(collected(before + after) + Seq::<TransactionView>::empty() =~= collected(
            before + after,
        ));
    } else {
        failed_block_is_absent(before, error, after.drop_last());
        assert((before + seq![failed] + after).drop_last() =~= before + seq![failed]
            + after.drop_last());
        assert((before + after).drop_last() =~= before + after.drop_last());
    }
}

} // verus!
