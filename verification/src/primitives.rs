//! Plain-value forms of the block data that the chain-state logic reads.

use crate::outside::{keccak256, keccak256_digest};
use vstd::bytes::{spec_u64_to_le_bytes, u64_to_le_bytes};
use vstd::prelude::*;

verus! {

/// A 32-byte hash.
#[derive(Clone, Copy, Debug, PartialEq, Eq, Hash)]
pub struct B256(pub [u8; 32]);

impl View for B256 {
    type V = Seq<u8>;

    open spec fn view(&self) -> Seq<u8> {
        self.0@
    }
}

impl B256 {
    /// The all-zero hash, which the first block of a fresh chain names as its parent.
    pub open spec fn spec_zero() -> Seq<u8> {
        Seq::new(32, |i: int| 0u8)
    }

    /// Returns the all-zero hash.
    pub fn zero() -> (hash: B256)
        ensures
            hash@ == B256::spec_zero(),
    {
        let hash = B256([0u8; 32]);
        assert(hash@ =~= B256::spec_zero());
        hash
    }

    /// Whether the two hashes hold the same bytes.
    pub fn same_bytes(&self, other: &B256) -> (same: bool)
        ensures
            same == (self@ == other@),
    {
        let mut i: usize = 0;
        while i < 32
            invariant
                i <= 32,
                forall|k: int| 0 <= k < i ==> self@[k] == other@[k],
            decreases 32 - i,
        {
            if self.0[i] != other.0[i] {
                assert(self@[i as int] != other@[i as int]);
                return false;
            }
            i = i + 1;
        }
        assert(self@ =~= other@);
        true
    }
}

impl Default for B256 {
    fn default() -> (hash: B256)
        ensures
            hash@ == B256::spec_zero(),
    {
        B256::zero()
    }
}

/// A 20-byte account address.
#[derive(Clone, Copy, Debug, PartialEq, Eq, Hash)]
pub struct Address(pub [u8; 20]);

impl View for Address {
    type V = Seq<u8>;

    open spec fn view(&self) -> Seq<u8> {
        self.0@
    }
}

/// The header fields that chain linkage depends on.
#[derive(Clone, Copy, Debug, PartialEq, Eq)]
pub struct Header {
    /// Hash of the block this one builds on.
    pub parent_hash: B256,
    /// Auxiliary hash; fixtures randomize it so that two runs never collide.
    pub ommers_hash: B256,
    /// Height of the block.
    pub number: u64,
}

impl Default for Header {
    fn default() -> (header: Header)
        ensures
            header.parent_hash@ == B256::spec_zero(),
            header.ommers_hash@ == B256::spec_zero(),
            header.number == 0,
    {
        Header { parent_hash: B256::zero(), ommers_hash: B256::zero(), number: 0 }
    }
}

impl Header {
    /// The bytes a header is sealed over: the parent hash, the auxiliary
    /// hash, then the number in eight little-endian bytes.
    pub open spec fn preimage(self) -> Seq<u8> {
        self.parent_hash@ + self.ommers_hash@ + spec_u64_to_le_bytes(self.number)
    }

    /// The hash that seals a header: the Keccak-256 digest of its preimage.
    pub open spec fn seal_hash(self) -> Seq<u8> {
        keccak256_digest(self.preimage())
    }

    /// Lays the header out as the bytes it is sealed over.
    pub fn encode(&self) -> (bytes: Vec<u8>)
        ensures
            bytes@ == self.preimage(),
    {
        let mut bytes: Vec<u8> = Vec::new();
        let mut i: usize = 0;
        while i < 32
            invariant
                i <= 32,
                bytes@ == self.parent_hash@.take(i as int),
            decreases 32 - i,
        {
            bytes.push(self.parent_hash.0[i]);
            assert(bytes@ =~= self.parent_hash@.take(i + 1));
            i = i + 1;
        }
        assert(bytes@ =~= self.parent_hash@);
        let mut j: usize = 0;
        while j < 32
            invariant
                j <= 32,
                bytes@ == self.parent_hash@ + self.ommers_hash@.take(j as int),
            decreases 32 - j,
        {
            bytes.push(self.ommers_hash.0[j]);
            assert(bytes@ =~= self.parent_hash@ + self.ommers_hash@.take(j + 1));
            j = j + 1;
        }
        assert(self.ommers_hash@.take(32) =~= self.ommers_hash@);
        let mut number = u64_to_le_bytes(self.number);
        bytes.append(&mut number);
        bytes
    }
}

/// A signed transaction, reduced to its hash.
#[derive(Clone, Copy, Debug, PartialEq, Eq)]
pub struct TransactionSigned {
    /// Hash of the transaction.
    pub hash: B256,
}

impl Default for TransactionSigned {
    fn default() -> (tx: TransactionSigned)
        ensures
            tx.hash@ == B256::spec_zero(),
    {
        TransactionSigned { hash: B256::zero() }
    }
}

/// An unsealed block: a header and its transactions.
#[derive(Clone, Debug, PartialEq, Eq)]
pub struct Block {
    /// The block's header.
    pub header: Header,
    /// The block's transactions.
    pub body: Vec<TransactionSigned>,
}

impl Default for Block {
    fn default() -> (block: Block)
        ensures
            block.header.parent_hash@ == B256::spec_zero(),
            block.header.ommers_hash@ == B256::spec_zero(),
            block.header.number == 0,
            block.body@.len() == 0,
    {
        Block { header: Header::default(), body: Vec::new() }
    }
}

impl Block {
    /// Seals the block: derives the hash of its header and keeps header and
    /// transactions as they are.
    pub fn seal_slow(self) -> (sealed: SealedBlock)
        ensures
            sealed.header == self.header,
            sealed.body == self.body,
            sealed.hash@ == self.header.seal_hash(),
    {
        let bytes = self.header.encode();
        let hash = keccak256(&bytes);
        SealedBlock { header: self.header, hash, body: self.body }
    }
}

/// A block together with the hash derived from its header.
#[derive(Clone, Debug, PartialEq, Eq)]
pub struct SealedBlock {
    /// The sealed header.
    pub header: Header,
    /// The hash the header was sealed with.
    pub hash: B256,
    /// The block's transactions.
    pub body: Vec<TransactionSigned>,
}

impl SealedBlock {
    /// The block's hash.
    pub fn hash(&self) -> (hash: B256)
        ensures
            hash == self.hash,
    {
        self.hash
    }
}

/// The outcome of one executed transaction.
#[derive(Clone, Copy, Debug, PartialEq, Eq)]
pub struct Receipt {
    /// Whether the transaction succeeded.
    pub success: bool,
    /// Gas used in the block up to and including this transaction.
    pub cumulative_gas_used: u64,
}

/// Receipts grouped by block, one inner list per block.
#[derive(Clone, Debug, PartialEq, Eq)]
pub struct Receipts {
    /// One list of receipts per block; a pruned receipt is `None`.
    pub receipt_vec: Vec<Vec<Option<Receipt>>>,
}

/// The requests raised by one block.
#[derive(Clone, Debug, PartialEq, Eq)]
pub struct Requests {
    /// The encoded requests.
    pub entries: Vec<Vec<u8>>,
}

impl Default for Requests {
    fn default() -> (requests: Requests)
        ensures
            requests.entries@.len() == 0,
    {
        Requests { entries: Vec::new() }
    }
}

} // verus!
