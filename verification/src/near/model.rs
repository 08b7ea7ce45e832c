//! What a NEAR node reports of blocks and chunks.

use vstd::prelude::*;

verus! {

/// A block: its header and the headers of its chunks, one for each shard.
#[derive(Debug)]
pub struct Block {
    pub header: BlockHeader,
    pub chunks: Vec<ChunkHeader>,
}

#[derive(Clone, Copy, Debug, PartialEq, Eq, Structural, Hash)]
pub struct BlockHeader {
    pub height: i64,
}

#[derive(Clone, Copy, Debug, PartialEq, Eq, Structural, Hash)]
pub struct ChunkHeader {
    pub shard_id: i64,
}

/// The part of a block that one shard holds.
#[derive(Debug)]
pub struct Chunk {
    pub transactions: Vec<Transaction>,
}

/// A transaction as the node reports it.
#[derive(Debug)]
pub struct Transaction {
    pub hash: String,
    pub signer_id: String,
    pub receiver_id: String,
    pub nonce: i64,
    pub actions: Vec<Action>,
}

/// What a transaction does. Only what the adapter tells apart is kept.
#[derive(Debug)]
pub enum Action {
    CreateAccount,
    Transfer { deposit: String },
    Other,
}

/// A request to the node.
#[derive(Clone, Copy, Debug, PartialEq, Eq, Structural, Hash)]
pub enum Request {
    /// The latest block that is final.
    FinalBlock,
    /// The block at a height.
    Block { block_id: i64 },
    /// The chunk of one shard of the block at a height.
    Chunk { block_id: i64, shard_id: i64 },
}

} // verus!
