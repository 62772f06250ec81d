//! Fixtures: executed blocks with chosen numbers, receipts and parents, and
//! hash-linked runs of them.

use crate::execution::{
    consecutive, hash_linked, ExecutedBlock, ExecutionOutcome, HashedPostState,
    SealedBlockWithSenders, TrieUpdates,
};
use crate::outside::{bundle_accounts, empty_bundle, random_address, random_hash, random_number};
use crate::primitives::{Address, Block, Header, Receipts, Requests, TransactionSigned, B256};
use std::ops::Range;
use std::sync::Arc;
use vstd::prelude::*;

verus! {

/// What every fixture block has, whatever it was built from: it is sealed
/// with the hash of its own header, carries one default transaction and one
/// sender, and its outcome holds the block's own number, changes for no
/// account, one empty request list, an empty hashed state and no trie update.
pub open spec fn fixture_shape(block: ExecutedBlock) -> bool {
    &&& block.block.hash@ == block.block.header.seal_hash()
    &&& block.block.body@.len() == 1
    &&& block.block.body@[0].hash@ == B256::spec_zero()
    &&& block.senders@.len() == 1
    &&& block.consistent()
    &&& bundle_accounts(block.execution_outcome.bundle) == Set::<Seq<u8>>::empty()
    &&& block.execution_outcome.requests@.len() == 1
    &&& block.execution_outcome.requests@[0].entries@.len() == 0
    &&& block.hashed_state.accounts@.len() == 0
    &&& block.trie.removed_nodes@.len() == 0
}

/// Whether the block's outcome holds one receipt list, and that one empty.
pub open spec fn single_empty_receipts(block: ExecutedBlock) -> bool {
    &&& block.execution_outcome.receipts.receipt_vec@.len() == 1
    &&& block.execution_outcome.receipts.receipt_vec@[0]@.len() == 0
}

/// Whether `block` is the fixture block of the five values: its header holds
/// the number and the two hashes, its one sender is `sender`, its receipts
/// are `receipts`, and the rest is as in every fixture block.
pub open spec fn assembled_from(
    block: ExecutedBlock,
    block_number: u64,
    receipts: Receipts,
    parent_hash: B256,
    ommers_hash: B256,
    sender: Address,
) -> bool {
    &&& block.block.header == (Header { parent_hash, ommers_hash, number: block_number })
    &&& block.senders@ == seq![sender]
    &&& block.execution_outcome.receipts == receipts
    &&& fixture_shape(block)
}

/// Two fixture blocks of the same five values agree in every part: header,
/// hash, transactions, senders, receipts, number of the outcome, accounts of
/// the bundle, requests, hashed state and trie updates.
pub proof fn lemma_assembled_blocks_agree(
    first: ExecutedBlock,
    second: ExecutedBlock,
    block_number: u64,
    receipts: Receipts,
    parent_hash: B256,
    ommers_hash: B256,
    sender: Address,
)
    requires
        assembled_from(first, block_number, receipts, parent_hash, ommers_hash, sender),
        assembled_from(second, block_number, receipts, parent_hash, ommers_hash, sender),
    ensures
        first.block.header == second.block.header,
        first.block.hash@ == second.block.hash@,
        first.block.body@.len() == second.block.body@.len(),
        forall|i: int|
            0 <= i < first.block.body@.len() ==> (#[trigger] first.block.body@[i]).hash@
                == second.block.body@[i].hash@,
        first.senders@ == second.senders@,
        first.execution_outcome.receipts == second.execution_outcome.receipts,
        first.execution_outcome.first_block == second.execution_outcome.first_block,
        bundle_accounts(first.execution_outcome.bundle) == bundle_accounts(
            second.execution_outcome.bundle,
        ),
        first.execution_outcome.requests@.len() == second.execution_outcome.requests@.len(),
        forall|i: int|
            0 <= i < first.execution_outcome.requests@.len() ==> (
            #[trigger] first.execution_outcome.requests@[i]).entries@
                == second.execution_outcome.requests@[i].entries@,
        first.hashed_state.accounts@ == second.hashed_state.accounts@,
        first.trie.removed_nodes@ == second.trie.removed_nodes@,
{
    assert(first.execution_outcome.requests@[0].entries@ =~= second.execution_outcome.requests@[0].entries@);
    assert(first.hashed_state.accounts@ =~= second.hashed_state.accounts@);
    assert(first.trie.removed_nodes@ =~= second.trie.removed_nodes@);
}

/// Builds the fixture block for the given number, receipts and parent, with
/// the auxiliary hash and the sender chosen by the caller. The same five
/// arguments always give the same header and hash.
pub fn assemble_executed_block(
    block_number: u64,
    receipts: Receipts,
    parent_hash: B256,
    ommers_hash: B256,
    sender: Address,
) -> (executed: ExecutedBlock)
    ensures
        assembled_from(executed, block_number, receipts, parent_hash, ommers_hash, sender),
{
    let mut block = Block::default();
    let mut header = block.header;
    header.number = block_number;
    header.parent_hash = parent_hash;
    header.ommers_hash = ommers_hash;
    block.header = header;
    let tx = TransactionSigned::default();
    block.body.push(tx);
    let sealed = block.seal_slow();
    let senders: Vec<Address> = vec![sender];
    match SealedBlockWithSenders::new(sealed, senders) {
        Some(sealed_with_senders) => {
            let requests: Vec<Requests> = vec![Requests::default()];
            let executed = ExecutedBlock::new(
                Arc::new(sealed_with_senders.block),
                Arc::new(sealed_with_senders.senders),
                Arc::new(ExecutionOutcome::new(empty_bundle(), receipts, block_number, requests)),
                Arc::new(HashedPostState::default()),
                Arc::new(TrieUpdates::default()),
            );
            assert(executed.senders@ =~= seq![sender]);
            executed
        },
        None => {
            proof {
                assert(false);
            }
            vstd::pervasive::unreached()
        },
    }
}

/// Generates an executed block with the given number, receipts and parent
/// hash. Its auxiliary hash and its sender are drawn at random.
pub fn get_executed_block(block_number: u64, receipts: Receipts, parent_hash: B256) -> (executed:
    ExecutedBlock)
    ensures
        executed.block.header.number == block_number,
        executed.block.header.parent_hash == parent_hash,
        executed.execution_outcome.receipts == receipts,
        fixture_shape(executed),
{
    let ommers_hash = random_hash();
    let sender = random_address();
    assemble_executed_block(block_number, receipts, parent_hash, ommers_hash, sender)
}

/// Generates an executed block that holds the given receipts. Its number is
/// drawn at random and only tells it apart from other blocks.
pub fn get_executed_block_with_receipts(receipts: Receipts, parent_hash: B256) -> (executed:
    ExecutedBlock)
    ensures
        executed.block.header.parent_hash == parent_hash,
        executed.execution_outcome.receipts == receipts,
        fixture_shape(executed),
{
    let number = random_number();
    get_executed_block(number, receipts, parent_hash)
}

/// Generates an executed block with the given number, whose receipts are one
/// empty list.
pub fn get_executed_block_with_number(block_number: u64, parent_hash: B256) -> (executed:
    ExecutedBlock)
    ensures
        executed.block.header.number == block_number,
        executed.block.header.parent_hash == parent_hash,
        single_empty_receipts(executed),
        fixture_shape(executed),
{
    let inner: Vec<Option<crate::primitives::Receipt>> = Vec::new();
    let receipt_vec = vec![inner];
    get_executed_block(block_number, Receipts { receipt_vec }, parent_hash)
}

/// Generates one executed block for each number of the range, in ascending
/// order. The first block names the all-zero hash as its parent, every other
/// one the hash of the block before it. An empty or reversed range gives no
/// block.
pub fn get_executed_blocks(range: Range<u64>) -> (blocks: Vec<ExecutedBlock>)
    ensures
        blocks@.len() == (if range.start <= range.end {
            range.end - range.start
        } else {
            0
        }),
        consecutive(blocks@, range.start as int),
        hash_linked(blocks@, B256::spec_zero()),
        forall|i: int|
            0 <= i < blocks@.len() ==> fixture_shape(#[trigger] blocks@[i]) && single_empty_receipts(
                blocks@[i],
            ),
{
    let mut blocks: Vec<ExecutedBlock> = Vec::new();
    let mut parent_hash = B256::zero();
    let mut number: u64 = range.start;
    while number < range.end
        invariant
            range.start <= number,
            range.start <= range.end ==> number <= range.end,
            range.start > range.end ==> number == range.start,
            blocks@.len() == number - range.start,
            consecutive(blocks@, range.start as int),
            hash_linked(blocks@, B256::spec_zero()),
            parent_hash@ == (if blocks@.len() == 0 {
                B256::spec_zero()
            } else {
                blocks@.last().block.hash@
            }),
            forall|i: int|
                0 <= i < blocks@.len() ==> fixture_shape(#[trigger] blocks@[i])
                    && single_empty_receipts(blocks@[i]),
        decreases range.end - number,
    {
        let block = get_executed_block_with_number(number, parent_hash);
        parent_hash = block.block.hash();
        blocks.push(block);
        number = number + 1;
    }
    blocks
}

} // verus!
