//! A write-through cache for chain state (headers, blocks, best-chain tip) over a
//! pluggable object store.
//!
//! The library performs no I/O. Every operation of the cache is planned here
//! as requests to the store's medium, and every answer of the medium is
//! judged here; the caller performs the requests and hands back the answers.

pub mod chain;
pub mod connect;
pub mod decimal;
pub mod laws;
pub mod lookup;
pub mod record;
pub mod store;
pub mod utils;

use chain::{
    hash_hex, header_hash, is_consensus_block, Block, BlockHash, BlockHeader, Network, Uint256,
};
use connect::Connect;
use decimal::{parse_decimal, parse_u32};
use record::{
    decode_header_record, encode_header_record, encode_height_record, header_record,
    height_record, parse_header_record,
};
use store::{
    AnyStore, ReadRequest, ReadRequestView, Store, StoreError, StoreResult, WriteRequest,
    WriteRequestView,
};
use vstd::prelude::*;
use vstd::string::*;

verus! {

/// The kinds of record that the cache keeps.
#[derive(Clone, Copy, Debug, PartialEq, Eq)]
pub enum RecordKind {
    Block,
    Header,
    BestBlockHash,
    BestBlockHeight,
}

/// Why an operation of the cache failed.
#[derive(Debug, PartialEq, Eq)]
pub enum BitcoindCacheError {
    /// The store failed; its failure is kept as it was.
    Store(StoreError),
    /// The store holds, under the key of a record of this kind, bytes that
    /// are no such record.
    Corrupt(RecordKind),
}

impl From<StoreError> for BitcoindCacheError {
    fn from(store_error: StoreError) -> (error: BitcoindCacheError) {
        BitcoindCacheError::Store(store_error)
    }
}

impl vstd::std_specs::convert::FromSpecImpl<StoreError> for BitcoindCacheError {
    open spec fn obeys_from_spec() -> bool {
        true
    }

    open spec fn from_spec(store_error: StoreError) -> BitcoindCacheError {
        BitcoindCacheError::Store(store_error)
    }
}

/// What an operation of the cache gives.
pub type BitcoindCacheResult<T> = Result<T, BitcoindCacheError>;

/// The key of the record that holds the best block's hash.
pub open spec fn best_block_hash_key() -> Seq<char> {
    "best-block-hash"@
}

/// The key of the record that holds the best block's height.
pub open spec fn best_block_height_key() -> Seq<char> {
    "best-block-height"@
}

/// The key of the header record of the block whose hash has the text `block_hash`.
pub open spec fn header_key(block_hash: Seq<char>) -> Seq<char> {
    block_hash + ".header"@
}

/// The key of the block record of the block whose hash has the text `block_hash`.
pub open spec fn block_key(block_hash: Seq<char>) -> Seq<char> {
    block_hash + ".block"@
}

/// What the store answered to a read, byte for byte.
pub open spec fn answer_bytes(answer: StoreResult<Option<Vec<u8>>>) -> StoreResult<
    Option<Seq<u8>>,
> {
    match answer {
        Ok(Some(record)) => Ok(Some(record@)),
        Ok(None) => Ok(None),
        Err(e) => Err(e),
    }
}

/// How the answer to the read of a record of kind `kind` is judged, when
/// `parse` reads such records. The store's failure is the cache's,
/// unchanged. An absent object is no record, and no failure. A present one
/// is what `parse` reads from it, and is corrupt if that is nothing.
pub open spec fn judged<T>(
    answer: StoreResult<Option<Seq<u8>>>,
    kind: RecordKind,
    parse: spec_fn(Seq<u8>) -> Option<T>,
) -> BitcoindCacheResult<Option<T>> {
    match answer {
        Err(e) => Err(BitcoindCacheError::Store(e)),
        Ok(None) => Ok(None),
        Ok(Some(record)) => match parse(record) {
            Some(value) => Ok(Some(value)),
            None => Err(BitcoindCacheError::Corrupt(kind)),
        },
    }
}

/// The hash that a record of the tip's hash holds: its 32 bytes, as they are.
pub open spec fn parse_hash_record(record: Seq<u8>) -> Option<Seq<u8>> {
    if record.len() == 32 {
        Some(record)
    } else {
        None
    }
}

/// The block that a block record holds: the record itself, if the consensus
/// decoder accepts it as one whole block.
pub open spec fn parse_block_record(record: Seq<u8>) -> Option<Seq<u8>> {
    if record.len() >= 80 && is_consensus_block(record) {
        Some(record)
    } else {
        None
    }
}

/// What the read of a header gives: the header's 80 bytes, its height and
/// its chainwork's 32 bytes.
pub open spec fn header_found(answer: StoreResult<Option<Seq<u8>>>) -> BitcoindCacheResult<
    Option<(Seq<u8>, u32, Seq<u8>)>,
> {
    judged(answer, RecordKind::Header, |record: Seq<u8>| parse_header_record(record))
}

/// What the read of a block gives: the block's encoding.
pub open spec fn block_found(answer: StoreResult<Option<Seq<u8>>>) -> BitcoindCacheResult<
    Option<Seq<u8>>,
> {
    judged(answer, RecordKind::Block, |record: Seq<u8>| parse_block_record(record))
}

/// What the read of the tip's hash gives: the hash's 32 bytes.
pub open spec fn best_block_hash_found(answer: StoreResult<Option<Seq<u8>>>) -> BitcoindCacheResult<
    Option<Seq<u8>>,
> {
    judged(answer, RecordKind::BestBlockHash, |record: Seq<u8>| parse_hash_record(record))
}

/// What the read of the tip's height gives.
pub open spec fn best_block_height_found(
    answer: StoreResult<Option<Seq<u8>>>,
) -> BitcoindCacheResult<Option<u32>> {
    judged(answer, RecordKind::BestBlockHeight, |record: Seq<u8>| parse_decimal(record))
}

/// A header with its height and chainwork, by their bytes.
pub open spec fn header_fields(
    result: BitcoindCacheResult<Option<(BlockHeader, u32, Uint256)>>,
) -> BitcoindCacheResult<Option<(Seq<u8>, u32, Seq<u8>)>> {
    match result {
        Ok(Some((header, height, chainwork))) => Ok(Some((header.bytes@, height, chainwork.bytes@))),
        Ok(None) => Ok(None),
        Err(e) => Err(e),
    }
}

/// A block, by its encoding.
pub open spec fn block_encoding(result: BitcoindCacheResult<Option<Block>>) -> BitcoindCacheResult<
    Option<Seq<u8>>,
> {
    match result {
        Ok(Some(block)) => Ok(Some(block.encoding())),
        Ok(None) => Ok(None),
        Err(e) => Err(e),
    }
}

/// A hash, by its bytes.
pub open spec fn hash_bytes(result: BitcoindCacheResult<Option<BlockHash>>) -> BitcoindCacheResult<
    Option<Seq<u8>>,
> {
    match result {
        Ok(Some(hash)) => Ok(Some(hash.bytes@)),
        Ok(None) => Ok(None),
        Err(e) => Err(e),
    }
}

/// A cache of chain state in one store, for one network.
#[derive(Clone)]
pub struct BitcoindCache {
    pub store: AnyStore,
    pub network: Network,
}

impl BitcoindCache {
    /// The cache of `network`'s chain in `store`.
    pub fn new(network: Network, store: AnyStore) -> (cache: BitcoindCache)
        ensures
            cache.network == network,
            cache.store == store,
    {
        BitcoindCache { store, network }
    }

    /// The write of `content` under the key `filename` in this cache's store.
    pub open spec fn write_of(&self, filename: Seq<char>, content: Seq<u8>) -> WriteRequestView {
        WriteRequestView {
            medium: self.store.medium(),
            location: self.store.location(filename),
            content,
        }
    }

    /// The read of the key `filename` in this cache's store.
    pub open spec fn read_of(&self, filename: Seq<char>) -> ReadRequestView {
        ReadRequestView { medium: self.store.medium(), location: self.store.location(filename) }
    }

    /// The write that stores a block: its consensus encoding, under the key
    /// of its hash.
    pub open spec fn block_write(&self, hash: BlockHash, encoding: Seq<u8>) -> WriteRequestView {
        self.write_of(block_key(hash_hex(hash)), encoding)
    }

    /// The write that stores a header with its height and chainwork: the
    /// header record, under the key of the header's hash.
    pub open spec fn header_write(&self, header: Seq<u8>, height: u32, chainwork: Seq<u8>) -> WriteRequestView {
        self.write_of(
            header_key(hash_hex(header_hash(header))),
            header_record(header, height, chainwork),
        )
    }

    /// The write that points the tip at a hash: the hash's 32 bytes as they are.
    pub open spec fn best_block_hash_write(&self, hash: BlockHash) -> WriteRequestView {
        self.write_of(best_block_hash_key(), hash.bytes@)
    }

    /// The write that sets the tip's height: its decimal text.
    pub open spec fn best_block_height_write(&self, height: u32) -> WriteRequestView {
        self.write_of(best_block_height_key(), height_record(height))
    }

    /// The four writes that connect a block, in their order: the block, its
    /// header, the tip's hash, the tip's height.
    pub open spec fn connect_writes(
        &self,
        header: Seq<u8>,
        encoding: Seq<u8>,
        height: u32,
        chainwork: Seq<u8>,
    ) -> Seq<WriteRequestView> {
        seq![
            self.block_write(header_hash(header), encoding),
            self.header_write(header, height, chainwork),
            self.best_block_hash_write(header_hash(header)),
            self.best_block_height_write(height),
        ]
    }

    /// The key of the tip's hash.
    pub fn best_block_hash_path(&self) -> (path: String)
        ensures
            path@ == best_block_hash_key(),
    {
        String::from_str("best-block-hash")
    }

    /// The key of the tip's height.
    pub fn best_block_height_path(&self) -> (path: String)
        ensures
            path@ == best_block_height_key(),
    {
        String::from_str("best-block-height")
    }

    /// The key of the header record of the block whose hash has the text
    /// `block_hash`.
    pub fn header_path(&self, block_hash: String) -> (path: String)
        ensures
            path@ == header_key(block_hash@),
    {
        block_hash.concat(".header")
    }

    /// The key of the block record of the block whose hash has the text
    /// `block_hash`.
    pub fn block_path(&self, block_hash: String) -> (path: String)
        ensures
            path@ == block_key(block_hash@),
    {
        block_hash.concat(".block")
    }

    /// Plans the write that points the tip at `block_hash`.
    pub fn put_best_block_hash(&self, block_hash: &BlockHash) -> (request: WriteRequest)
        ensures
            request@ == self.best_block_hash_write(*block_hash),
    {
        self.store.put_object(self.best_block_hash_path(), block_hash.bytes.as_slice())
    }

    /// Plans the write that sets the tip's height to `block_height`.
    pub fn put_best_block_height(&self, block_height: u32) -> (request: WriteRequest)
        ensures
            request@ == self.best_block_height_write(block_height),
    {
        let record = encode_height_record(block_height);
        self.store.put_object(self.best_block_height_path(), record.as_slice())
    }

    /// Plans the write that stores `block`.
    pub fn put_block(&self, block: &Block) -> (request: WriteRequest)
        ensures
            request@ == self.block_write(block.header.hash(), block.encoding()),
    {
        let block_hash_hex = block.block_hash().to_hex();
        let record = block.encode();
        self.store.put_object(self.block_path(block_hash_hex), record.as_slice())
    }

    /// Plans the write that stores `header` with its height and chainwork.
    /// The record is whole before anything is written.
    pub fn put_header(&self, header: &BlockHeader, height: u32, chainwork: Uint256) -> (request:
        WriteRequest)
        ensures
            request@ == self.header_write(header.bytes@, height, chainwork.bytes@),
    {
        let block_hash_hex = header.block_hash().to_hex();
        let record = encode_header_record(header, height, &chainwork);
        self.store.put_object(self.header_path(block_hash_hex), record.as_slice())
    }

    /// Judges how the store's part of a write ended: the store's failure is
    /// the cache's, unchanged.
    pub fn put_result(outcome: StoreResult<()>) -> (result: BitcoindCacheResult<()>)
        ensures
            match outcome {
                Ok(_) => result == Ok::<(), BitcoindCacheError>(()),
                Err(e) => result == Err::<(), BitcoindCacheError>(BitcoindCacheError::Store(e)),
            },
    {
        match outcome {
            Ok(_) => Ok(()),
            Err(e) => Err(BitcoindCacheError::from(e)),
        }
    }

    /// Plans the read of the header record of the block with the hash `hash`.
    pub fn get_header_by_hash(&self, hash: &BlockHash) -> (request: ReadRequest)
        ensures
            request@ == self.read_of(header_key(hash_hex(*hash))),
    {
        self.store.get_object(self.header_path(hash.to_hex()))
    }

    /// Judges what the store answered to the read of a header record. An
    /// absent object is no header. A present one is read as a header record:
    /// a malformed one is corrupt.
    pub fn get_header_by_hash_result(outcome: StoreResult<Option<Vec<u8>>>) -> (result:
        BitcoindCacheResult<Option<(BlockHeader, u32, Uint256)>>)
        ensures
            header_fields(result) == header_found(answer_bytes(outcome)),
    {
        match outcome {
            Err(e) => Err(BitcoindCacheError::from(e)),
            Ok(None) => Ok(None),
            Ok(Some(record)) => match decode_header_record(record.as_slice()) {
                Some(fields) => Ok(Some(fields)),
                None => Err(BitcoindCacheError::Corrupt(RecordKind::Header)),
            },
        }
    }

    /// Plans the read of the block with the hash `hash`.
    pub fn get_block_by_hash(&self, hash: &BlockHash) -> (request: ReadRequest)
        ensures
            request@ == self.read_of(block_key(hash_hex(*hash))),
    {
        self.store.get_object(self.block_path(hash.to_hex()))
    }

    /// Judges what the store answered to the read of a block. An absent
    /// object is no block. A present one is the block that it encodes, byte
    /// for byte, if the consensus decoder accepts it; else it is corrupt.
    pub fn get_block_by_hash_result(outcome: StoreResult<Option<Vec<u8>>>) -> (result:
        BitcoindCacheResult<Option<Block>>)
        ensures
            block_encoding(result) == block_found(answer_bytes(outcome)),
    {
        match outcome {
            Err(e) => Err(BitcoindCacheError::from(e)),
            Ok(None) => Ok(None),
            Ok(Some(record)) => match Block::decode(record.as_slice()) {
                Some(block) => Ok(Some(block)),
                None => Err(BitcoindCacheError::Corrupt(RecordKind::Block)),
            },
        }
    }

    /// Plans the read of the tip's hash.
    pub fn get_best_block_hash(&self) -> (request: ReadRequest)
        ensures
            request@ == self.read_of(best_block_hash_key()),
    {
        self.store.get_object(self.best_block_hash_path())
    }

    /// Judges what the store answered to the read of the tip's hash. An
    /// absent object is no tip. A present one is a hash if it has 32 bytes;
    /// else it is corrupt.
    pub fn get_best_block_hash_result(outcome: StoreResult<Option<Vec<u8>>>) -> (result:
        BitcoindCacheResult<Option<BlockHash>>)
        ensures
            hash_bytes(result) == best_block_hash_found(answer_bytes(outcome)),
    {
        match outcome {
            Err(e) => Err(BitcoindCacheError::from(e)),
            Ok(None) => Ok(None),
            Ok(Some(record)) => match BlockHash::from_slice(record.as_slice()) {
                Some(hash) => Ok(Some(hash)),
                None => Err(BitcoindCacheError::Corrupt(RecordKind::BestBlockHash)),
            },
        }
    }

    /// Plans the read of the tip's height.
    pub fn get_best_block_height(&self) -> (request: ReadRequest)
        ensures
            request@ == self.read_of(best_block_height_key()),
    {
        self.store.get_object(self.best_block_height_path())
    }

    /// Judges what the store answered to the read of the tip's height. An
    /// absent object is no tip. A present one is read as decimal text; if it
    /// is none, it is corrupt.
    pub fn get_best_block_height_result(outcome: StoreResult<Option<Vec<u8>>>) -> (result:
        BitcoindCacheResult<Option<u32>>)
        ensures
            result == best_block_height_found(answer_bytes(outcome)),
    {
        match outcome {
            Err(e) => Err(BitcoindCacheError::from(e)),
            Ok(None) => Ok(None),
            Ok(Some(record)) => match parse_u32(record.as_slice()) {
                Some(height) => Ok(Some(height)),
                None => Err(BitcoindCacheError::Corrupt(RecordKind::BestBlockHeight)),
            },
        }
    }

    /// Plans the connect of `block` at `height` with `chainwork`: the four
    /// writes, none of them performed yet.
    pub fn block_connected(&self, block: &Block, height: u32, chainwork: Uint256) -> (connect:
        Connect)
        ensures
            connect.acknowledged() == 0,
            connect.writes() == self.connect_writes(
                block.header.bytes@,
                block.encoding(),
                height,
                chainwork.bytes@,
            ),
    {
        let block_write = self.put_block(block);
        let header_write = self.put_header(&block.header, height, chainwork);
        let hash_write = self.put_best_block_hash(&block.block_hash());
        let height_write = self.put_best_block_height(height);
        Connect::new(block_write, header_write, hash_write, height_write)
    }
}

} // verus!
