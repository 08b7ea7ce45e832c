//! The canonical, chain-agnostic transaction that every chain adapter emits.

use vstd::prelude::*;
use vstd::string::StringExecFns;
use crate::chain::{AssetId, AssetIdView, Chain};

verus! {

/// The kind of operation a transaction performs.
#[derive(Clone, Copy, Debug, PartialEq, Eq, Structural, Hash)]
pub enum TransactionType {
    Transfer,
}

/// The canonical outcome of a transaction.
#[derive(Clone, Copy, Debug, PartialEq, Eq, Structural, Hash)]
pub enum TransactionState {
    Confirmed,
    Failed,
    Pending,
    Unknown,
}

/// An instant as whole seconds since the Unix epoch plus a sub-second part.
#[derive(Clone, Copy, Debug, PartialEq, Eq, Structural, Hash)]
pub struct Timestamp {
    pub seconds: i64,
    pub nanoseconds: u32,
}

/// A normalized on-chain transfer.
///
/// The identifier is derived from the chain of the asset and the native
/// hash; two transactions are the same entity exactly when their
/// identifiers are equal.
#[derive(Debug, PartialEq, Eq)]
pub struct Transaction {
    pub id: String,
    pub hash: String,
    pub asset_id: AssetId,
    pub from: String,
    pub to: String,
    pub contract: Option<String>,
    pub transaction_type: TransactionType,
    pub state: TransactionState,
    pub block_number: String,
    pub sequence: String,
    pub fee: String,
    pub fee_asset_id: AssetId,
    pub value: String,
    pub memo: Option<String>,
    pub created_at: Timestamp,
}

/// What a `Transaction` stands for in contracts: the same fields, with text
/// as sequences of characters.
pub struct TransactionView {
    pub id: Seq<char>,
    pub hash: Seq<char>,
    pub asset_id: AssetIdView,
    pub from: Seq<char>,
    pub to: Seq<char>,
    pub contract: Option<Seq<char>>,
    pub transaction_type: TransactionType,
    pub state: TransactionState,
    pub block_number: Seq<char>,
    pub sequence: Seq<char>,
    pub fee: Seq<char>,
    pub fee_asset_id: AssetIdView,
    pub value: Seq<char>,
    pub memo: Option<Seq<char>>,
    pub created_at: Timestamp,
}

/// The view of an optional text.
pub open spec fn text_of(text: Option<String>) -> Option<Seq<char>> {
    match text {
        Some(t) => Some(t@),
        None => None,
    }
}

/// The identifier of the transaction with native hash `hash` on `chain`:
/// the chain's name, `_`, and the hash.
pub open spec fn transaction_id(chain: Chain, hash: Seq<char>) -> Seq<char> {
    chain.name() + seq!['_'] + hash
}

impl TransactionView {
    /// The addresses a transaction touches: its source, then its
    /// destination. This is the only key by which subscriptions are matched.
    pub open spec fn addresses(self) -> Seq<Seq<char>> {
        seq![self.from, self.to]
    }

    /// Whether `address` is the source or the destination.
    pub open spec fn touches(self, address: Seq<char>) -> bool {
        self.from == address || self.to == address
    }
}

impl View for Transaction {
    type V = TransactionView;

    open spec fn view(&self) -> TransactionView {
        TransactionView {
            id: self.id@,
            hash: self.hash@,
            asset_id: self.asset_id@,
            from: self.from@,
            to: self.to@,
            contract: text_of(self.contract),
            transaction_type: self.transaction_type,
            state: self.state,
            block_number: self.block_number@,
            sequence: self.sequence@,
            fee: self.fee@,
            fee_asset_id: self.fee_asset_id@,
            value: self.value@,
            memo: text_of(self.memo),
            created_at: self.created_at,
        }
    }
}

/// The views of a sequence of transactions, in the same order.
pub open spec fn transaction_views(transactions: Seq<Transaction>) -> Seq<TransactionView> {
    transactions.map_values(|t: Transaction| t@)
}

/// A copy of an optional text.
pub fn clone_text(text: &Option<String>) -> (copy: Option<String>)
    ensures
        copy == *text,
{
    match text {
        Some(t) => Some(t.clone()),
        None => None,
    }
}

impl Clone for Transaction {
    fn clone(&self) -> (copy: Self)
        ensures
            copy == *self,
    {
        Transaction {
            id: self.id.clone(),
            hash: self.hash.clone(),
            asset_id: self.asset_id.clone(),
            from: self.from.clone(),
            to: self.to.clone(),
            contract: clone_text(&self.contract),
            transaction_type: self.transaction_type,
            state: self.state,
            block_number: self.block_number.clone(),
            sequence: self.sequence.clone(),
            fee: self.fee.clone(),
            fee_asset_id: self.fee_asset_id.clone(),
            value: self.value.clone(),
            memo: clone_text(&self.memo),
            created_at: self.created_at,
        }
    }
}

impl Transaction {
    /// Builds the canonical transaction from its parts. The identifier is
    /// computed from the chain of `asset_id` and `hash`.
    pub fn new(
        hash: String,
        asset_id: AssetId,
        from: String,
        to: String,
        contract: Option<String>,
        transaction_type: TransactionType,
        state: TransactionState,
        block_number: String,
        sequence: String,
        fee: String,
        fee_asset_id: AssetId,
        value: String,
        memo: Option<String>,
        created_at: Timestamp,
    ) -> (transaction: Transaction)
        ensures
            transaction@ == (TransactionView {
                id: transaction_id(asset_id.chain, hash@),
                hash: hash@,
                asset_id: asset_id@,
                from: from@,
                to: to@,
                contract: text_of(contract),
                transaction_type,
                state,
                block_number: block_number@,
                sequence: sequence@,
                fee: fee@,
                fee_asset_id: fee_asset_id@,
                value: value@,
                memo: text_of(memo),
                created_at,
            }),
    {
        let id = Transaction::id_from(asset_id.chain, hash.as_str());
        Transaction {
            id,
            hash,
            asset_id,
            from,
            to,
            contract,
            transaction_type,
            state,
            block_number,
            sequence,
            fee,
            fee_asset_id,
            value,
            memo,
            created_at,
        }
    }

    /// The identifier under which the transaction with `hash` on `chain` is
    /// stored.
    pub fn id_from(chain: Chain, hash: &str) -> (id: String)
        ensures
            id@ == transaction_id(chain, hash@),
    {
        let mut id = String::from_str(chain.as_str());
        proof {
            reveal_strlit("_");
        }
        id.append("_");
        id.append(hash);
        assert(id@ == chain.name() + seq!['_'] + hash@) by {
            assert("_"@ =~= seq!['_']);
        }
        id
    }

    /// The addresses the transaction touches: source, then destination.
    pub fn addresses(&self) -> (addresses: Vec<String>)
        ensures
            addresses@.map_values(|a: String| a@) == self@.addresses(),
    {
        let mut addresses: Vec<String> = Vec::new();
        addresses.push(self.from.clone());
        addresses.push(self.to.clone());
        assert(addresses@.map_values(|a: String| a@) =~= self@.addresses());
        addresses
    }

    /// Whether `address` is the source or the destination of the
    /// transaction.
    pub fn touches(&self, address: &String) -> (touched: bool)
        ensures
            touched == self@.touches(address@),
    {
        self.from == *address || self.to == *address
    }
}

} // verus!
