//! The Sui adapter: which requests it makes and how it normalizes what a
//! node reports.

use vstd::prelude::*;
use vstd::string::StringExecFns;
use crate::amount::{amount_or_zero, Amount};
use crate::chain::{AssetIdView, Chain};
use crate::clock::utc_now;
use crate::sui::model::{BalanceChange, Digest, Digests, GasUsed, TransactionsQuery};
use crate::provider::ProviderError;
use crate::text::{
    clone_or_empty, contains_char, decimal, integer_text, parse_integer, parsed_i64, same_text,
    signed_decimal, text_or_empty,
};
use crate::transaction::{
    transaction_id, transaction_views, Timestamp, Transaction, TransactionState, TransactionType,
    TransactionView,
};

verus! {

/// The method that reports the sequence number of the latest checkpoint.
pub fn latest_checkpoint_method() -> (method: &'static str)
    ensures
        method@ == "sui_getLatestCheckpointSequenceNumber"@,
{
    "sui_getLatestCheckpointSequenceNumber"
}

/// The method that reports the transaction blocks of a checkpoint.
pub fn query_transactions_method() -> (method: &'static str)
    ensures
        method@ == "suix_queryTransactionBlocks"@,
{
    "suix_queryTransactionBlocks"
}

/// The fee charged for gas: computation and storage cost less the storage
/// rebate, and zero where the rebate is at least the cost. A component that
/// is no amount counts as zero.
pub open spec fn gas_fee(gas_used: GasUsed) -> nat {
    let cost = amount_or_zero(gas_used.computation_cost@) + amount_or_zero(gas_used.storage_cost@);
    let rebate = amount_or_zero(gas_used.storage_rebate@);
    if rebate >= cost {
        0
    } else {
        (cost - rebate) as nat
    }
}

/// The canonical state for a native status: a chain that reports only
/// success or failure has `Confirmed` for `success` and `Failed` for
/// anything else.
pub open spec fn status_state(status: Seq<char>) -> TransactionState {
    if status == "success"@ {
        TransactionState::Confirmed
    } else {
        TransactionState::Failed
    }
}

/// The balance changes of a transaction block, none where the node
/// reported none.
pub open spec fn changes_of(transaction: Digest) -> Seq<BalanceChange> {
    match transaction.balance_changes {
        Some(changes) => changes@,
        None => Seq::empty(),
    }
}

/// Whether the changes are those of a transfer of the native coin: two
/// changes, both of the native coin.
pub open spec fn is_native_transfer(changes: Seq<BalanceChange>) -> bool {
    &&& changes.len() == 2
    &&& Some(changes[0].coin_type@) == Chain::Sui.denom()
    &&& Some(changes[1].coin_type@) == Chain::Sui.denom()
}

/// The canonical transaction for a transaction block of checkpoint
/// `block_number`, where it is a transfer of the native coin; `None` for
/// any other shape.
///
/// The sender is the owner whose balance fell: the owner of the first
/// change where its amount has a `-`, else of the second. The value is the
/// amount of the other change.
pub open spec fn native_transfer(
    transaction: Digest,
    block_number: i64,
    created_at: Timestamp,
) -> Option<TransactionView> {
    let changes = changes_of(transaction);
    if is_native_transfer(changes) {
        let first_sends = changes[0].amount@.contains('-');
        let from_change = if first_sends {
            changes[0]
        } else {
            changes[1]
        };
        let to_change = if first_sends {
            changes[1]
        } else {
            changes[0]
        };
        let native = AssetIdView { chain: Chain::Sui, token_id: None };
        Some(
            TransactionView {
                id: transaction_id(Chain::Sui, transaction.digest@),
                hash: transaction.digest@,
                asset_id: native,
                from: text_or_empty(from_change.owner.address_owner),
                to: text_or_empty(to_change.owner.address_owner),
                contract: None,
                transaction_type: TransactionType::Transfer,
                state: status_state(transaction.effects.status.status@),
                block_number: signed_decimal(block_number as int),
                sequence: "0"@,
                fee: decimal(gas_fee(transaction.effects.gas_used)),
                fee_asset_id: native,
                value: to_change.amount@,
                memo: None,
                created_at,
            },
        )
    } else {
        None
    }
}

/// The canonical transactions of a checkpoint: the native transfers among
/// `data`, in order, the i-th block stamped with the i-th of `stamps`.
pub open spec fn native_transfers(
    data: Seq<Digest>,
    block_number: i64,
    stamps: Seq<Timestamp>,
) -> Seq<TransactionView>
    decreases data.len(),
{
    if data.len() == 0 || stamps.len() == 0 {
        Seq::empty()
    } else {
        let before = native_transfers(data.drop_last(), block_number, stamps.drop_last());
        match native_transfer(data.last(), block_number, stamps.last()) {
            Some(transaction) => before.push(transaction),
            None => before,
        }
    }
}

/// Maps a native status onto the canonical states.
pub fn map_status(status: &str) -> (state: TransactionState)
    ensures
        state == status_state(status@),
{
    if same_text(status, "success") {
        TransactionState::Confirmed
    } else {
        TransactionState::Failed
    }
}

/// The Sui adapter for the node at `url`.
#[derive(Debug)]
pub struct SuiClient {
    pub url: String,
}

impl SuiClient {
    pub fn new(url: String) -> (client: SuiClient)
        ensures
            client.url == url,
    {
        SuiClient { url }
    }

    pub fn get_chain(&self) -> (chain: Chain)
        ensures
            chain == Chain::Sui,
    {
        Chain::Sui
    }

    /// The chain height from the node's answer, which is the sequence
    /// number in decimal text. An answer that is no number is a malformed
    /// answer, and fails as such.
    pub fn latest_block(&self, answer: &str) -> (height: Result<i64, ProviderError>)
        ensures
            height == match parsed_i64(answer@) {
                Some(v) => Ok::<i64, ProviderError>(v),
                None => Err::<i64, ProviderError>(ProviderError::Decode),
            },
    {
        match parse_integer(answer) {
            Some(v) => Ok(v),
            None => Err(ProviderError::Decode),
        }
    }

    /// The query for the transactions of checkpoint `block_number`: effects
    /// and balance changes, no input, at most fifty, newest first.
    pub fn transactions_query(&self, block_number: i64) -> (query: TransactionsQuery)
        ensures
            query.checkpoint@ == signed_decimal(block_number as int),
            query.show_effects,
            !query.show_input,
            query.show_balance_changes,
            query.limit == 50,
            query.descending,
    {
        TransactionsQuery {
            checkpoint: integer_text(block_number),
            show_effects: true,
            show_input: false,
            show_balance_changes: true,
            limit: 50,
            descending: true,
        }
    }

    /// The fee for the gas used: cost less rebate, never below zero.
    pub fn get_fee(&self, gas_used: &GasUsed) -> (fee: Amount)
        ensures
            fee@ == gas_fee(*gas_used),
    {
        let computation_cost = Amount::parse_or_zero(gas_used.computation_cost.as_str());
        let storage_cost = Amount::parse_or_zero(gas_used.storage_cost.as_str());
        let storage_rebate = Amount::parse_or_zero(gas_used.storage_rebate.as_str());
        let cost = computation_cost.plus(&storage_cost);
        if storage_rebate.at_least(&cost) {
            return Amount::zero();
        }
        cost.minus(&storage_rebate)
    }

    /// Normalizes one transaction block as of `created_at`.
    pub fn map_transaction_at(
        &self,
        transaction: &Digest,
        block_number: i64,
        created_at: Timestamp,
    ) -> (mapped: Option<Transaction>)
        ensures
            match mapped {
                Some(t) => native_transfer(*transaction, block_number, created_at) == Some(t@),
                None => native_transfer(*transaction, block_number, created_at) is None,
            },
    {
        let chain = self.get_chain();
        let denom = match chain.as_denom() {
            Some(d) => d,
            None => {
                return None;
            },
        };
        let changes = match &transaction.balance_changes {
            Some(changes) => changes,
            None => {
                return None;
            },
        };
        if changes.len() == 2 && same_text(changes[0].coin_type.as_str(), denom) && same_text(
            changes[1].coin_type.as_str(),
            denom,
        ) {
            let first_sends = contains_char(changes[0].amount.as_str(), '-');
            let (from_change, to_change) = if first_sends {
                (&changes[0], &changes[1])
            } else {
                (&changes[1], &changes[0])
            };
            let from = clone_or_empty(&from_change.owner.address_owner);
            let to = clone_or_empty(&to_change.owner.address_owner);
            let fee = self.get_fee(&transaction.effects.gas_used);
            let value = to_change.amount.clone();
            let state = map_status(transaction.effects.status.status.as_str());
            Some(
                Transaction::new(
                    transaction.digest.clone(),
                    chain.as_asset_id(),
                    from,
                    to,
                    None,
                    TransactionType::Transfer,
                    state,
                    integer_text(block_number),
                    String::from_str("0"),
                    fee.to_string(),
                    chain.as_asset_id(),
                    value,
                    None,
                    created_at,
                ),
            )
        } else {
            None
        }
    }

    /// Normalizes one transaction block, stamped with the current time:
    /// the result is what `map_transaction_at` gives at the instant the
    /// clock showed.
    pub fn map_transaction(&self, transaction: &Digest, block_number: i64) -> (mapped: Option<
        Transaction,
    >)
        ensures
            match mapped {
                Some(t) => native_transfer(*transaction, block_number, t.created_at) == Some(t@),
                None => forall|at: Timestamp|
                    native_transfer(*transaction, block_number, at) is None,
            },
    {
        self.map_transaction_at(transaction, block_number, utc_now())
    }

    /// Normalizes the transaction blocks of checkpoint `block_number`.
    /// Blocks of any shape but a native transfer are left out; the others
    /// keep their order, each stamped with the time at which it was mapped.
    pub fn map_transactions(&self, block: &Digests, block_number: i64) -> (transactions: Vec<
        Transaction,
    >)
        ensures
            exists|stamps: Seq<Timestamp>|
                stamps.len() == block.data.len() && transaction_views(transactions@)
                    == #[trigger] native_transfers(block.data@, block_number, stamps),
    {
        let mut transactions: Vec<Transaction> = Vec::new();
        let ghost mut stamps: Seq<Timestamp> = Seq::empty();
        let mut i: usize = 0;
        assert(transaction_views(transactions@) =~= native_transfers(
            block.data@.take(0),
            block_number,
            stamps,
        ));
        while i < block.data.len()
            invariant
                0 <= i <= block.data.len(),
                stamps.len() == i,
                transaction_views(transactions@) == native_transfers(
                    block.data@.take(i as int),
                    block_number,
                    stamps,
                ),
            decreases block.data.len() - i,
        {
            let now = utc_now();
            let ghost before = transactions@;
            let ghost earlier = stamps;
            proof {
                stamps = stamps.push(now);
                assert(stamps.drop_last() =~= earlier);
                assert(block.data@.take(i + 1).drop_last() =~= block.data@.take(i as int));
            }
            match self.map_transaction_at(&block.data[i], block_number, now) {
                Some(transaction) => {
                    transactions.push(transaction);
                    assert(transaction_views(transactions@) =~= transaction_views(before).push(
                        transaction@,
                    ));
                },
                None => {},
            }
            i = i + 1;
        }
        assert(block.data@.take(i as int) =~= block.data@);
        transactions
    }
}

} // verus!
