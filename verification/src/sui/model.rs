//! What a Sui node reports of the transactions of a checkpoint.

use vstd::prelude::*;

verus! {

/// The transactions of one checkpoint.
#[derive(Debug)]
pub struct Digests {
    pub data: Vec<Digest>,
}

/// One transaction block: its digest, its effects and how it changed
/// balances.
#[derive(Debug)]
pub struct Digest {
    pub digest: String,
    pub effects: Effects,
    pub balance_changes: Option<Vec<BalanceChange>>,
}

#[derive(Debug)]
pub struct Effects {
    pub gas_used: GasUsed,
    pub status: Status,
}

/// The components of the gas charge, as decimal text.
#[derive(Debug)]
pub struct GasUsed {
    pub computation_cost: String,
    pub storage_cost: String,
    pub storage_rebate: String,
}

#[derive(Debug)]
pub struct Status {
    pub status: String,
}

/// The change of one owner's balance of one coin; a loss has a `-` in its
/// amount.
#[derive(Debug)]
pub struct BalanceChange {
    pub owner: Owner,
    pub coin_type: String,
    pub amount: String,
}

#[derive(Debug)]
pub struct Owner {
    pub address_owner: Option<String>,
}

/// The query for the transactions of one checkpoint.
#[derive(Debug, PartialEq, Eq)]
pub struct TransactionsQuery {
    /// The checkpoint's sequence number, in decimal digits.
    pub checkpoint: String,
    pub show_effects: bool,
    pub show_input: bool,
    pub show_balance_changes: bool,
    /// The largest number of transactions asked for.
    pub limit: u32,
    pub descending: bool,
}

} // verus!
