//! Executed blocks and the chain segments made of them.

use crate::primitives::{Address, Receipts, Requests, SealedBlock, B256};
use revm::database::BundleState;
use std::sync::Arc;
use vstd::prelude::*;

verus! {

/// What executing a run of blocks produced.
#[derive(Debug, PartialEq, Eq)]
pub struct ExecutionOutcome {
    /// The state changes.
    pub bundle: BundleState,
    /// The receipts, one list per block.
    pub receipts: Receipts,
    /// Number of the first block of the run.
    pub first_block: u64,
    /// The requests, one entry per block.
    pub requests: Vec<Requests>,
}

impl ExecutionOutcome {
    /// Bundles the four parts unchanged.
    pub fn new(bundle: BundleState, receipts: Receipts, first_block: u64, requests: Vec<Requests>) -> (outcome:
        ExecutionOutcome)
        ensures
            outcome.bundle == bundle,
            outcome.receipts == receipts,
            outcome.first_block == first_block,
            outcome.requests == requests,
    {
        ExecutionOutcome { bundle, receipts, first_block, requests }
    }
}

/// The hashed form of the state after a block.
#[derive(Clone, Debug, PartialEq, Eq)]
pub struct HashedPostState {
    /// Hashed addresses of the accounts the block touched.
    pub accounts: Vec<B256>,
}

impl Default for HashedPostState {
    fn default() -> (state: HashedPostState)
        ensures
            state.accounts@.len() == 0,
    {
        HashedPostState { accounts: Vec::new() }
    }
}

/// The trie nodes that a block changed.
#[derive(Clone, Debug, PartialEq, Eq)]
pub struct TrieUpdates {
    /// Keys of the trie nodes the block removed.
    pub removed_nodes: Vec<B256>,
}

impl Default for TrieUpdates {
    fn default() -> (updates: TrieUpdates)
        ensures
            updates.removed_nodes@.len() == 0,
    {
        TrieUpdates { removed_nodes: Vec::new() }
    }
}

/// A sealed block whose transactions each have a recovered sender.
#[derive(Clone, Debug, PartialEq, Eq)]
pub struct SealedBlockWithSenders {
    /// The sealed block.
    pub block: SealedBlock,
    /// One sender per transaction, in transaction order.
    pub senders: Vec<Address>,
}

impl SealedBlockWithSenders {
    /// Pairs a block with its senders; `None` exactly when the number of
    /// senders differs from the number of transactions.
    pub fn new(block: SealedBlock, senders: Vec<Address>) -> (paired: Option<SealedBlockWithSenders>)
        ensures
            paired.is_some() <==> senders@.len() == block.body@.len(),
            paired.is_some() ==> paired.unwrap().block == block && paired.unwrap().senders == senders,
    {
        if block.body.len() == senders.len() {
            Some(SealedBlockWithSenders { block, senders })
        } else {
            None
        }
    }
}

/// A block with everything its execution produced. Each part is shared, so a
/// copy of the bundle copies no block data.
#[derive(Clone, Debug, PartialEq, Eq)]
pub struct ExecutedBlock {
    /// The sealed block.
    pub block: Arc<SealedBlock>,
    /// The senders of the block's transactions.
    pub senders: Arc<Vec<Address>>,
    /// What executing the block produced.
    pub execution_outcome: Arc<ExecutionOutcome>,
    /// The hashed state after the block.
    pub hashed_state: Arc<HashedPostState>,
    /// The trie nodes the block changed.
    pub trie: Arc<TrieUpdates>,
}

impl ExecutedBlock {
    /// Bundles the five shared parts unchanged.
    pub fn new(
        block: Arc<SealedBlock>,
        senders: Arc<Vec<Address>>,
        execution_outcome: Arc<ExecutionOutcome>,
        hashed_state: Arc<HashedPostState>,
        trie: Arc<TrieUpdates>,
    ) -> (executed: ExecutedBlock)
        ensures
            executed.block == block,
            executed.senders == senders,
            executed.execution_outcome == execution_outcome,
            executed.hashed_state == hashed_state,
            executed.trie == trie,
    {
        ExecutedBlock { block, senders, execution_outcome, hashed_state, trie }
    }

    /// Whether the outcome was recorded for the block it is bundled with:
    /// both carry the same number.
    pub open spec fn consistent(&self) -> bool {
        self.execution_outcome.first_block == self.block.header.number
    }

    /// Tells whether the outcome carries the block's own number.
    pub fn is_consistent(&self) -> (ok: bool)
        ensures
            ok == self.consistent(),
    {
        self.execution_outcome.first_block == self.block.header.number
    }
}

/// Whether every block of `blocks` names the hash of the block before it as
/// its parent, the first one naming `first_parent`.
pub open spec fn hash_linked(blocks: Seq<ExecutedBlock>, first_parent: Seq<u8>) -> bool {
    forall|i: int|
        0 <= i < blocks.len() ==> (#[trigger] blocks[i]).block.header.parent_hash@ == (if i == 0 {
            first_parent
        } else {
            blocks[i - 1].block.hash@
        })
}

/// Whether the block numbers of `blocks` go up by one from `first_number`.
pub open spec fn consecutive(blocks: Seq<ExecutedBlock>, first_number: int) -> bool {
    forall|i: int|
        0 <= i < blocks.len() ==> (#[trigger] blocks[i]).block.header.number == first_number + i
}

/// An ordered run of executed blocks.
#[derive(Clone, Debug, PartialEq, Eq)]
pub struct Chain {
    /// The blocks, oldest first.
    pub blocks: Vec<ExecutedBlock>,
}

impl Chain {
    /// A chain of the given blocks, in the given order.
    pub fn new(blocks: Vec<ExecutedBlock>) -> (chain: Chain)
        ensures
            chain.blocks == blocks,
    {
        Chain { blocks }
    }

    /// Whether the blocks form a segment: every block but the first names
    /// the hash of the block before it as its parent and has a higher number.
    pub open spec fn is_segment(&self) -> bool {
        forall|i: int|
            0 < i < self.blocks@.len() ==> {
                &&& (#[trigger] self.blocks@[i]).block.header.parent_hash@ == self.blocks@[i
                    - 1].block.hash@
                &&& self.blocks@[i - 1].block.header.number < self.blocks@[i].block.header.number
            }
    }

    /// Tells whether the blocks form a segment.
    pub fn check_segment(&self) -> (ok: bool)
        ensures
            ok == self.is_segment(),
    {
        let mut i: usize = 1;
        while i < self.blocks.len()
            invariant
                1 <= i,
                forall|k: int|
                    0 < k < i && k < self.blocks@.len() ==> {
                        &&& (#[trigger] self.blocks@[k]).block.header.parent_hash@
                            == self.blocks@[k - 1].block.hash@
                        &&& self.blocks@[k - 1].block.header.number
                            < self.blocks@[k].block.header.number
                    },
            decreases self.blocks@.len() - i,
        {
            let linked = self.blocks[i].block.header.parent_hash.same_bytes(
                &self.blocks[i - 1].block.hash,
            );
            let rising = self.blocks[i - 1].block.header.number < self.blocks[i].block.header.number;
            if !linked || !rising {
                return false;
            }
            i = i + 1;
        }
        true
    }
}

/// A run of blocks that is hash-linked from some parent and numbered
/// consecutively is a chain segment.
pub proof fn lemma_linked_run_is_segment(chain: Chain, first_parent: Seq<u8>, first_number: int)
    requires
        hash_linked(chain.blocks@, first_parent),
        consecutive(chain.blocks@, first_number),
    ensures
        chain.is_segment(),
{
    assert forall|i: int| 0 < i < chain.blocks@.len() implies {
        &&& (#[trigger] chain.blocks@[i]).block.header.parent_hash@ == chain.blocks@[i
            - 1].block.hash@
        &&& chain.blocks@[i - 1].block.header.number < chain.blocks@[i].block.header.number
    } by {
        let before = chain.blocks@[i - 1];
        assert(before.block.header.number == first_number + (i - 1));
    }
}

} // verus!
