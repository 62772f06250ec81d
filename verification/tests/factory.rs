use chain_state::execution::{Chain, ExecutedBlock, SealedBlockWithSenders};
use chain_state::factory::{
    assemble_executed_block, get_executed_block, get_executed_block_with_number,
    get_executed_block_with_receipts, get_executed_blocks,
};
use chain_state::primitives::{
    Address, Block, Header, Receipt, Receipts, TransactionSigned, B256,
};

fn sample_receipts() -> Receipts {
    Receipts {
        receipt_vec: vec![
            vec![
                Some(Receipt { success: true, cumulative_gas_used: 21000 }),
                None,
                Some(Receipt { success: false, cumulative_gas_used: 63000 }),
            ],
            vec![],
        ],
    }
}

#[test]
fn zero_hash_is_all_zero_bytes() {
    assert_eq!(B256::zero().0, [0u8; 32]);
    assert_eq!(B256::default(), B256::zero());
}

#[test]
fn default_block_is_empty_at_height_zero() {
    let block = Block::default();
    assert_eq!(block.header.number, 0);
    assert_eq!(block.header.parent_hash, B256::zero());
    assert_eq!(block.header.ommers_hash, B256::zero());
    assert!(block.body.is_empty());
}

#[test]
fn header_encoding_lays_out_parent_ommers_number() {
    let header = Header {
        parent_hash: B256([1u8; 32]),
        ommers_hash: B256([2u8; 32]),
        number: 0x0102_0304_0506_0708,
    };
    let bytes = header.encode();
    let mut expected = vec![1u8; 32];
    expected.extend_from_slice(&[2u8; 32]);
    expected.extend_from_slice(&[8, 7, 6, 5, 4, 3, 2, 1]);
    assert_eq!(bytes, expected);
    assert_eq!(bytes.len(), 72);
}

#[test]
fn sealing_hashes_the_encoded_header() {
    let mut block = Block::default();
    block.header.number = 3;
    block.header.parent_hash = B256([9u8; 32]);
    block.body.push(TransactionSigned::default());
    let header = block.header;
    let sealed = block.seal_slow();
    let mut preimage = vec![9u8; 32];
    preimage.extend_from_slice(&[0u8; 32]);
    preimage.extend_from_slice(&[3, 0, 0, 0, 0, 0, 0, 0]);
    assert_eq!(sealed.hash.0, revm::primitives::keccak256(&preimage).0);
    assert_eq!(sealed.hash(), sealed.hash);
    assert_eq!(sealed.header, header);
    assert_eq!(sealed.body, vec![TransactionSigned::default()]);
    assert_ne!(sealed.hash, header.parent_hash);
}

#[test]
fn sealing_the_empty_preimage_differs_from_sealing_a_header() {
    // Keccak-256 of the empty string, a published constant.
    let empty: [u8; 32] = [
        0xc5, 0xd2, 0x46, 0x01, 0x86, 0xf7, 0x23, 0x3c, 0x92, 0x7e, 0x7d, 0xb2, 0xdc, 0xc7, 0x03,
        0xc0, 0xe5, 0x00, 0xb6, 0x53, 0xca, 0x82, 0x27, 0x3b, 0x7b, 0xfa, 0xd8, 0x04, 0x5d, 0x85,
        0xa4, 0x70,
    ];
    assert_eq!(revm::primitives::keccak256(&[] as &[u8]).0, empty);
    let sealed = Block::default().seal_slow();
    assert_ne!(sealed.hash.0, empty);
    assert_ne!(sealed.hash.0, [0u8; 32]);
}

#[test]
fn sealing_distinguishes_headers() {
    let mut first = Block::default();
    first.header.number = 1;
    let mut second = Block::default();
    second.header.number = 2;
    let mut third = Block::default();
    third.header.number = 1;
    let first = first.seal_slow();
    assert_ne!(first.hash, second.seal_slow().hash);
    assert_eq!(first.hash, third.seal_slow().hash);
}

#[test]
fn senders_must_match_transactions() {
    let mut block = Block::default();
    block.body.push(TransactionSigned::default());
    let sealed = block.seal_slow();
    assert!(SealedBlockWithSenders::new(sealed.clone(), vec![]).is_none());
    assert!(SealedBlockWithSenders::new(
        sealed.clone(),
        vec![Address([1u8; 20]), Address([2u8; 20])]
    )
    .is_none());
    let paired = SealedBlockWithSenders::new(sealed.clone(), vec![Address([1u8; 20])]).unwrap();
    assert_eq!(paired.block, sealed);
    assert_eq!(paired.senders, vec![Address([1u8; 20])]);
}

#[test]
fn assembled_block_is_determined_by_its_arguments() {
    let parent = B256([5u8; 32]);
    let ommers = B256([6u8; 32]);
    let sender = Address([7u8; 20]);
    let first = assemble_executed_block(11, sample_receipts(), parent, ommers, sender);
    let second = assemble_executed_block(11, sample_receipts(), parent, ommers, sender);
    assert_eq!(first, second);
    assert_eq!(first.block.header, Header { parent_hash: parent, ommers_hash: ommers, number: 11 });
    assert_eq!(*first.senders, vec![sender]);
    assert_eq!(first.block.body, vec![TransactionSigned::default()]);
    assert_eq!(first.block.hash.0, revm::primitives::keccak256(&first.block.header.encode()).0);
    assert_eq!(first.execution_outcome.first_block, 11);
    assert_eq!(first.execution_outcome.receipts, sample_receipts());
    assert_eq!(first.execution_outcome.requests.len(), 1);
    assert!(first.execution_outcome.requests[0].entries.is_empty());
    assert!(first.execution_outcome.bundle.is_empty());
    assert!(first.hashed_state.accounts.is_empty());
    assert!(first.trie.removed_nodes.is_empty());
}

#[test]
fn executed_block_keeps_number_parent_and_receipts() {
    let parent = B256([0xabu8; 32]);
    let block = get_executed_block(7, sample_receipts(), parent);
    assert_eq!(block.block.header.number, 7);
    assert_eq!(block.block.header.parent_hash, parent);
    assert_eq!(block.execution_outcome.receipts, sample_receipts());
    assert_eq!(block.execution_outcome.first_block, 7);
    assert_eq!(block.block.body.len(), 1);
    assert_eq!(block.senders.len(), 1);
    assert_eq!(block.block.hash.0, revm::primitives::keccak256(&block.block.header.encode()).0);
}

#[test]
fn executed_blocks_of_two_runs_differ() {
    let parent = B256::zero();
    let first = get_executed_block(7, sample_receipts(), parent);
    let second = get_executed_block(7, sample_receipts(), parent);
    assert_ne!(first.block.header.ommers_hash, second.block.header.ommers_hash);
    assert_ne!(first.block.hash, second.block.hash);
    assert_ne!(first.senders, second.senders);
}

#[test]
fn block_with_receipts_keeps_them() {
    let parent = B256([3u8; 32]);
    let block = get_executed_block_with_receipts(sample_receipts(), parent);
    assert_eq!(block.execution_outcome.receipts, sample_receipts());
    assert_eq!(block.block.header.parent_hash, parent);
    assert_eq!(block.execution_outcome.first_block, block.block.header.number);
    let other = get_executed_block_with_receipts(sample_receipts(), parent);
    assert_ne!(block.block.header.number, other.block.header.number);
}

#[test]
fn block_with_number_has_one_empty_receipt_list() {
    let parent = B256([4u8; 32]);
    let block = get_executed_block_with_number(42, parent);
    assert_eq!(block.block.header.number, 42);
    assert_eq!(block.block.header.parent_hash, parent);
    assert_eq!(block.execution_outcome.receipts, Receipts { receipt_vec: vec![vec![]] });
    assert_eq!(block.execution_outcome.first_block, 42);
}

#[test]
fn range_of_five_is_hash_linked() {
    let blocks = get_executed_blocks(0..5);
    assert_eq!(blocks.len(), 5);
    assert_eq!(blocks[0].block.header.parent_hash, B256::zero());
    for i in 0..4 {
        assert_eq!(blocks[i + 1].block.header.parent_hash, blocks[i].block.hash());
    }
    for (i, block) in blocks.iter().enumerate() {
        assert_eq!(block.block.header.number, i as u64);
        assert_eq!(block.execution_outcome.receipts, Receipts { receipt_vec: vec![vec![]] });
    }
}

#[test]
fn range_starting_above_zero_counts_from_its_start() {
    let blocks = get_executed_blocks(10..13);
    let numbers: Vec<u64> = blocks.iter().map(|b| b.block.header.number).collect();
    assert_eq!(numbers, vec![10, 11, 12]);
    assert_eq!(blocks[0].block.header.parent_hash, B256::zero());
    assert_eq!(blocks[1].block.header.parent_hash, blocks[0].block.hash);
    assert_eq!(blocks[2].block.header.parent_hash, blocks[1].block.hash);
}

#[test]
fn range_near_the_largest_number_ends() {
    let blocks = get_executed_blocks(u64::MAX - 2..u64::MAX);
    let numbers: Vec<u64> = blocks.iter().map(|b| b.block.header.number).collect();
    assert_eq!(numbers, vec![u64::MAX - 2, u64::MAX - 1]);
}

#[test]
fn empty_and_reversed_ranges_give_no_block() {
    assert!(get_executed_blocks(3..3).is_empty());
    #[allow(clippy::reversed_empty_ranges)]
    let reversed = get_executed_blocks(5..0);
    assert!(reversed.is_empty());
}

#[test]
fn same_bytes_compares_every_byte() {
    let a = B256([7u8; 32]);
    let mut b = B256([7u8; 32]);
    assert!(a.same_bytes(&b));
    b.0[31] = 8;
    assert!(!a.same_bytes(&b));
    b.0[31] = 7;
    b.0[0] = 0;
    assert!(!a.same_bytes(&b));
    assert!(B256::zero().same_bytes(&B256::default()));
}

#[test]
fn generated_range_is_a_segment() {
    assert!(Chain::new(get_executed_blocks(0..5)).check_segment());
    assert!(Chain::new(get_executed_blocks(4..5)).check_segment());
    assert!(Chain::new(Vec::new()).check_segment());
}

#[test]
fn unlinked_or_unordered_blocks_are_no_segment() {
    let blocks = get_executed_blocks(0..3);
    let swapped = vec![blocks[1].clone(), blocks[0].clone(), blocks[2].clone()];
    assert!(!Chain::new(swapped).check_segment());
    let gap = vec![blocks[0].clone(), blocks[2].clone()];
    assert!(!Chain::new(gap).check_segment());
    let first = get_executed_block_with_number(5, B256::zero());
    let lower = get_executed_block_with_number(5, first.block.hash());
    assert!(!Chain::new(vec![first.clone(), lower]).check_segment());
    let higher = get_executed_block_with_number(9, first.block.hash());
    assert!(Chain::new(vec![first, higher]).check_segment());
}

#[test]
fn outcome_must_carry_the_block_number() {
    let block = get_executed_block_with_number(12, B256::zero());
    assert!(block.is_consistent());
    let other = get_executed_block_with_number(13, B256::zero());
    let mixed = ExecutedBlock::new(
        block.block.clone(),
        block.senders.clone(),
        other.execution_outcome.clone(),
        block.hashed_state.clone(),
        block.trie.clone(),
    );
    assert!(!mixed.is_consistent());
    assert_eq!(mixed.block, block.block);
    assert_eq!(mixed.execution_outcome.first_block, 13);
}

#[test]
fn generated_blocks_hold_an_empty_bundle() {
    let block = get_executed_block(7, sample_receipts(), B256::zero());
    assert!(block.execution_outcome.bundle.is_empty());
    assert_eq!(block.execution_outcome.bundle.len(), 0);
    assert_eq!(block.execution_outcome.bundle, revm::database::BundleState::default());
    for block in get_executed_blocks(0..3) {
        assert!(block.execution_outcome.bundle.is_empty());
    }
}
