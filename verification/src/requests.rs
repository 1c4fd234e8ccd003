//! The lookups that queries make in the validator's state, and the replies to them.

use vstd::prelude::*;

use zebra_chain::amount::NonNegative;
use zebra_chain::value_balance::ValueBalance;
use zebra_chain::work::difficulty::CompactDifficulty;

use crate::network::Timestamp;
use crate::text::{BlockHash, BlockId, HashOrHeight, TransactionId};

verus! {

/// `zebra_chain::value_balance::ValueBalance`, the value held in each pool of the chain.
#[verifier::external_type_specification]
#[verifier::external_body]
#[verifier::reject_recursive_types(C)]
pub struct ExValueBalance<C>(ValueBalance<C>);

/// `zebra_chain::amount::NonNegative`, the constraint on the amounts in a [`ValueBalance`].
#[verifier::external_type_specification]
#[verifier::external_body]
pub struct ExNonNegative(NonNegative);

/// `zebra_chain::work::difficulty::CompactDifficulty`, the difficulty threshold of a block.
#[verifier::external_type_specification]
#[verifier::external_body]
pub struct ExCompactDifficulty(CompactDifficulty);

/// The Equihash solution in a block header.
#[derive(Clone, Copy, Debug)]
pub enum Solution {
    /// A solution on the production network or a public test network.
    Common([u8; 1344]),
    /// A solution on a regression test network.
    Regtest([u8; 36]),
}

/// A block header.
#[derive(Clone, Copy, Debug)]
pub struct Header {
    pub version: u32,
    pub previous_block_hash: BlockHash,
    pub merkle_root: [u8; 32],
    pub commitment_bytes: [u8; 32],
    pub time: Timestamp,
    pub difficulty_threshold: CompactDifficulty,
    pub nonce: [u8; 32],
    pub solution: Solution,
}

/// A block header that was found, and where its block stands in the chain.
#[derive(Clone, Copy, Debug)]
pub struct FoundHeader {
    pub header: Header,
    pub hash: BlockHash,
    pub height: u32,
    pub next_block_hash: Option<BlockHash>,
}

/// What the queries read off a note commitment tree.
#[derive(Clone, Copy, Debug, PartialEq, Eq)]
pub struct TreeState {
    /// The number of note commitments in the tree.
    pub size: u64,
    /// The root of the tree.
    pub root: [u8; 32],
}

/// A lookup in the state.
#[derive(Clone, Copy, Debug, PartialEq, Eq)]
pub enum ReadRequest {
    /// The tip of the best chain, and the values in its pools.
    TipPoolValues,
    /// The header of a block.
    BlockHeader(HashOrHeight),
    /// A whole block.
    Block(HashOrHeight),
    /// The ids of the transactions in a block.
    TransactionIdsForBlock(HashOrHeight),
    /// The Sapling note commitment tree after a block.
    SaplingTree(HashOrHeight),
    /// The Orchard note commitment tree after a block.
    OrchardTree(HashOrHeight),
    /// How far a block lies below the tip of the best chain.
    Depth(BlockHash),
}

/// What a [`ReadRequest`] asks for.
pub ghost enum RequestView {
    TipPoolValues,
    BlockHeader(BlockId),
    Block(BlockId),
    TransactionIdsForBlock(BlockId),
    SaplingTree(BlockId),
    OrchardTree(BlockId),
    Depth(Seq<u8>),
}

impl View for ReadRequest {
    type V = RequestView;

    open spec fn view(&self) -> RequestView {
        match *self {
            ReadRequest::TipPoolValues => RequestView::TipPoolValues,
            ReadRequest::BlockHeader(block) => RequestView::BlockHeader(block@),
            ReadRequest::Block(block) => RequestView::Block(block@),
            ReadRequest::TransactionIdsForBlock(block) => RequestView::TransactionIdsForBlock(
                block@,
            ),
            ReadRequest::SaplingTree(block) => RequestView::SaplingTree(block@),
            ReadRequest::OrchardTree(block) => RequestView::OrchardTree(block@),
            ReadRequest::Depth(hash) => RequestView::Depth(hash@),
        }
    }
}

/// The state's answer to a lookup.
#[derive(Debug)]
pub enum ReadResponse {
    TipPoolValues {
        tip_height: u32,
        tip_hash: BlockHash,
        value_balance: ValueBalance<NonNegative>,
    },
    BlockHeader(FoundHeader),
    /// The serialized block, if it is in the state.
    Block(Option<Vec<u8>>),
    /// The serialized transactions of the block, in block order, if it is in the state: what a
    /// query that asks for the data of the transactions reads off a whole block.
    BlockTransactions(Option<Vec<Vec<u8>>>),
    TransactionIdsForBlock(Option<Vec<TransactionId>>),
    SaplingTree(Option<TreeState>),
    OrchardTree(Option<TreeState>),
    /// The depth of the block, if it is in the best chain.
    Depth(Option<u32>),
    /// An answer that no query asks for.
    Other,
}

/// The outcome of a lookup: the state's answer, or its account of why there is none.
pub type Reply = Result<ReadResponse, String>;

/// A request shows which lookup it is, and of which block.
pub proof fn law_requests_show_what_they_ask_for(block: HashOrHeight, hash: BlockHash)
    ensures
        ReadRequest::TipPoolValues@ == RequestView::TipPoolValues,
        ReadRequest::BlockHeader(block)@ == RequestView::BlockHeader(block@),
        ReadRequest::Block(block)@ == RequestView::Block(block@),
        ReadRequest::TransactionIdsForBlock(block)@ == RequestView::TransactionIdsForBlock(block@),
        ReadRequest::SaplingTree(block)@ == RequestView::SaplingTree(block@),
        ReadRequest::OrchardTree(block)@ == RequestView::OrchardTree(block@),
        ReadRequest::Depth(hash)@ == RequestView::Depth(hash.0@),
{
}

} // verus!
