//! Chain data as the cache stores it: every value is held by its consensus
//! encoding, so that what is written and what is read back can be compared
//! byte for byte.

use crate::utils::{hex_str, hex_text};
use vstd::array::*;
use vstd::prelude::*;
use vstd::slice::*;

verus! {

/// The chain that a cache follows. It selects the genesis block.
#[derive(Clone, Copy, Debug, PartialEq, Eq)]
pub enum Network {
    Bitcoin,
    Testnet,
    Signet,
    Regtest,
}

/// A block hash: its 32 bytes in consensus order.
#[derive(Clone, Copy, Debug, PartialEq, Eq)]
pub struct BlockHash {
    pub bytes: [u8; 32],
}

/// A block header: its 80 consensus-encoded bytes.
#[derive(Clone, Copy, Debug, PartialEq, Eq)]
pub struct BlockHeader {
    pub bytes: [u8; 80],
}

/// A block: its header, and the consensus encoding of its transaction list.
#[derive(Clone, Debug, PartialEq, Eq)]
pub struct Block {
    pub header: BlockHeader,
    pub txdata: Vec<u8>,
}

/// A 256-bit unsigned number, such as a chain's accumulated work: its 32 bytes,
/// most significant first.
#[derive(Clone, Copy, Debug, PartialEq, Eq)]
pub struct Uint256 {
    pub bytes: [u8; 32],
}

/// The double SHA-256 digest of `data`, as `bitcoin::hashes::sha256d` computes it.
pub uninterp spec fn sha256d(data: Seq<u8>) -> [u8; 32];

/// Whether `bitcoin::consensus::deserialize` reads `bytes` as one whole block.
pub uninterp spec fn is_consensus_block(bytes: Seq<u8>) -> bool;

/// The consensus encoding of the genesis block that
/// `bitcoin::blockdata::constants::genesis_block` builds for `network`.
pub uninterp spec fn genesis_encoding(network: Network) -> Seq<u8>;

/// Calls `bitcoin::hashes::sha256d::Hash::hash`, the digest that
/// `bitcoin::BlockHeader::block_hash` takes of a header's encoding. The
/// contract only names the digest.
#[verifier::external_body]
fn double_sha256(data: &[u8]) -> (digest: [u8; 32])
    ensures
        digest == sha256d(data@),
{
    let digest: bitcoin::hashes::sha256d::Hash = bitcoin::hashes::Hash::hash(data);
    bitcoin::hashes::Hash::into_inner(digest)
}

/// Calls `bitcoin::consensus::deserialize` for a `bitcoin::Block` and reports
/// whether it accepted `bytes`. The contract only names that verdict.
#[verifier::external_body]
fn decodes_as_block(bytes: &[u8]) -> (accepted: bool)
    ensures
        accepted == is_consensus_block(bytes@),
{
    bitcoin::consensus::deserialize::<bitcoin::Block>(bytes).is_ok()
}

/// Calls `bitcoin::blockdata::constants::genesis_block` and hands back the
/// block's consensus encoding. The contract names the encoding and claims two
/// things of it: that it is at least as long as a header, with which every
/// block's encoding starts, and that the decoder accepts it.
#[verifier::external_body]
fn genesis_block_bytes(network: Network) -> (bytes: Vec<u8>)
    ensures
        bytes@ == genesis_encoding(network),
        bytes@.len() >= 80,
        is_consensus_block(bytes@),
{
    let network = match network {
        Network::Bitcoin => bitcoin::Network::Bitcoin,
        Network::Testnet => bitcoin::Network::Testnet,
        Network::Signet => bitcoin::Network::Signet,
        Network::Regtest => bitcoin::Network::Regtest,
    };
    bitcoin::consensus::serialize(&bitcoin::blockdata::constants::genesis_block(network))
}

/// The hash of the header with the encoding `header`.
pub open spec fn header_hash(header: Seq<u8>) -> BlockHash {
    BlockHash { bytes: sha256d(header) }
}

/// The text by which the hash `hash` is known: its bytes, last first, in
/// lowercase hexadecimal.
pub open spec fn hash_hex(hash: BlockHash) -> Seq<char> {
    hex_text(hash.bytes@.reverse())
}

/// Copies `bytes[from..from + N]` into an array.
fn array_from<const N: usize>(bytes: &[u8], from: usize) -> (array: [u8; N])
    requires
        from + N <= bytes@.len(),
    ensures
        array@ == bytes@.subrange(from as int, from + N),
{
    let mut array: [u8; N] = array_fill_for_copy_types(0u8);
    let len: usize = bytes.len();
    let mut i: usize = 0;
    while i < N
        invariant
            i <= N,
            len == bytes@.len(),
            from + N <= len,
            forall|k: int| 0 <= k < i ==> array@[k] == bytes@[from + k],
        decreases N - i,
    {
        array[i] = bytes[from + i];
        i += 1;
    }
    assert(array@ =~= bytes@.subrange(from as int, from + N));
    array
}

impl BlockHash {
    /// The hash that `bytes` hold, if there are exactly 32 of them.
    pub fn from_slice(bytes: &[u8]) -> (hash: Option<BlockHash>)
        ensures
            hash.is_some() == (bytes@.len() == 32),
            hash matches Some(h) ==> h.bytes@ == bytes@,
    {
        if bytes.len() == 32 {
            let array: [u8; 32] = array_from(bytes, 0);
            assert(bytes@.subrange(0, 32) =~= bytes@);
            Some(BlockHash { bytes: array })
        } else {
            None
        }
    }

    /// The hash's canonical text, 64 hexadecimal digits.
    pub fn to_hex(&self) -> (text: String)
        ensures
            text@ == hash_hex(*self),
            text@.len() == 64,
    {
        let mut reversed: Vec<u8> = Vec::new();
        let mut i: usize = 32;
        while i > 0
            invariant
                i <= 32,
                reversed.len() == 32 - i,
                forall|k: int| 0 <= k < reversed.len() ==> reversed@[k] == self.bytes@[31 - k],
            decreases i,
        {
            i -= 1;
            reversed.push(self.bytes[i]);
        }
        assert(reversed@ =~= self.bytes@.reverse());
        hex_str(reversed.as_slice())
    }
}

impl BlockHeader {
    /// The header that `bytes` encode, if there are exactly 80 of them.
    pub fn from_slice(bytes: &[u8]) -> (header: Option<BlockHeader>)
        ensures
            header.is_some() == (bytes@.len() == 80),
            header matches Some(h) ==> h.bytes@ == bytes@,
    {
        if bytes.len() == 80 {
            let array: [u8; 80] = array_from(bytes, 0);
            assert(bytes@.subrange(0, 80) =~= bytes@);
            Some(BlockHeader { bytes: array })
        } else {
            None
        }
    }

    /// The hash of a header: the double SHA-256 digest of its encoding.
    pub open spec fn hash(&self) -> BlockHash {
        header_hash(self.bytes@)
    }

    /// The hash of the block that this header leads.
    pub fn block_hash(&self) -> (hash: BlockHash)
        ensures
            hash == self.hash(),
    {
        BlockHash { bytes: double_sha256(self.bytes.as_slice()) }
    }
}

impl Block {
    /// The block's consensus encoding: the header, then the transactions.
    pub open spec fn encoding(&self) -> Seq<u8> {
        self.header.bytes@ + self.txdata@
    }

    /// The block's consensus encoding.
    pub fn encode(&self) -> (bytes: Vec<u8>)
        ensures
            bytes@ == self.encoding(),
    {
        let mut bytes = slice_to_vec(self.header.bytes.as_slice());
        let mut tail = self.txdata.clone();
        bytes.append(&mut tail);
        bytes
    }

    /// The block that `bytes` encode, if the consensus decoder accepts them as
    /// one whole block.
    pub fn decode(bytes: &[u8]) -> (block: Option<Block>)
        ensures
            block.is_some() == (bytes@.len() >= 80 && is_consensus_block(bytes@)),
            block matches Some(b) ==> b.encoding() == bytes@,
    {
        if bytes.len() >= 80 && decodes_as_block(bytes) {
            let header = BlockHeader { bytes: array_from(bytes, 0) };
            let txdata = slice_to_vec(slice_subrange(bytes, 80, bytes.len()));
            assert(header.bytes@ + txdata@ =~= bytes@);
            Some(Block { header, txdata })
        } else {
            None
        }
    }

    /// The block's hash, which is its header's.
    pub fn block_hash(&self) -> (hash: BlockHash)
        ensures
            hash == self.header.hash(),
    {
        self.header.block_hash()
    }
}

impl Uint256 {
    /// The number that `bytes` hold, if there are exactly 32 of them.
    pub fn from_slice(bytes: &[u8]) -> (number: Option<Uint256>)
        ensures
            number.is_some() == (bytes@.len() == 32),
            number matches Some(n) ==> n.bytes@ == bytes@,
    {
        if bytes.len() == 32 {
            let array: [u8; 32] = array_from(bytes, 0);
            assert(bytes@.subrange(0, 32) =~= bytes@);
            Some(Uint256 { bytes: array })
        } else {
            None
        }
    }

    /// Zero.
    pub fn zero() -> (number: Uint256)
        ensures
            number.bytes@ == Seq::new(32, |i: int| 0u8),
    {
        let bytes: [u8; 32] = array_fill_for_copy_types(0u8);
        assert(bytes@ =~= Seq::new(32, |i: int| 0u8));
        Uint256 { bytes }
    }
}

/// The genesis block of `network`.
pub fn genesis_block(network: Network) -> (block: Block)
    ensures
        block.encoding() == genesis_encoding(network),
        is_consensus_block(block.encoding()),
{
    let bytes = genesis_block_bytes(network);
    let header = BlockHeader { bytes: array_from(bytes.as_slice(), 0) };
    let txdata = slice_to_vec(slice_subrange(bytes.as_slice(), 80, bytes.len()));
    assert(header.bytes@ + txdata@ =~= bytes@);
    Block { header, txdata }
}

} // verus!
