//! The lookup of the cache's best block: the read of the tip's hash, the read
//! of the tip's height and, for a cache that was never written, the connect
//! of the genesis block.

use crate::chain::{
    genesis_block, genesis_encoding, header_hash, is_consensus_block, BlockHash, Uint256,
};
use crate::connect::{connect_step, Connect, ConnectStep};
use crate::store::{ReadRequest, ReadRequestView, StoreResult, WriteRequestView};
use crate::{
    answer_bytes, best_block_hash_found, best_block_hash_key, best_block_height_found,
    best_block_height_key, BitcoindCache, BitcoindCacheResult,
};
use vstd::prelude::*;

verus! {

/// The lookup of the cache's best block, in progress: what is due next.
#[derive(Debug)]
pub enum BestBlockLookup {
    /// The read of the tip's hash is due.
    ReadHash(ReadRequest),
    /// The tip's hash was read, and was `best_hash`. The read of the tip's
    /// height is due.
    ReadHeight { request: ReadRequest, best_hash: Option<BlockHash> },
    /// A tip record is missing: the cache was never written, and the genesis
    /// block is being connected. The write that `connect` asks for is due.
    /// Once the connect has succeeded the best block is `tip`, the genesis
    /// block's hash at height 0.
    Bootstrap { connect: Connect, tip: (BlockHash, u32) },
    /// The lookup is over, with this result.
    Finished(BitcoindCacheResult<(BlockHash, u32)>),
}

/// A lookup in progress, with every hash by its bytes and the connect by its
/// writes and the number of them that were acknowledged.
pub enum LookupView {
    ReadHash(ReadRequestView),
    ReadHeight { request: ReadRequestView, best_hash: Option<Seq<u8>> },
    Bootstrap { writes: Seq<WriteRequestView>, acknowledged: nat, tip: (Seq<u8>, u32) },
    Finished(BitcoindCacheResult<(Seq<u8>, u32)>),
}

/// A hash that may be missing, by its bytes.
pub open spec fn optional_hash_bytes(hash: Option<BlockHash>) -> Option<Seq<u8>> {
    match hash {
        Some(hash) => Some(hash.bytes@),
        None => None,
    }
}

impl View for BestBlockLookup {
    type V = LookupView;

    open spec fn view(&self) -> LookupView {
        match self {
            BestBlockLookup::ReadHash(request) => LookupView::ReadHash(request@),
            BestBlockLookup::ReadHeight { request, best_hash } => LookupView::ReadHeight {
                request: request@,
                best_hash: optional_hash_bytes(*best_hash),
            },
            BestBlockLookup::Bootstrap { connect, tip } => LookupView::Bootstrap {
                writes: connect.writes(),
                acknowledged: connect.acknowledged(),
                tip: (tip.0.bytes@, tip.1),
            },
            BestBlockLookup::Finished(result) => LookupView::Finished(
                match result {
                    Ok((hash, height)) => Ok((hash.bytes@, *height)),
                    Err(e) => Err(*e),
                },
            ),
        }
    }
}

/// The chainwork of the genesis block's connect: none.
pub open spec fn no_chainwork() -> Seq<u8> {
    Seq::new(32, |i: int| 0u8)
}

/// The lookup after the answer to a write of the genesis block's connect,
/// when `acknowledged` of its `writes` succeeded before. Once the connect
/// has succeeded, the best block is `tip`. When a write has failed, the
/// lookup has, in that failure.
pub open spec fn lookup_after_write(
    writes: Seq<WriteRequestView>,
    acknowledged: nat,
    tip: (Seq<u8>, u32),
    answer: StoreResult<()>,
) -> LookupView {
    match connect_step(acknowledged, answer) {
        Some(Ok(_)) => LookupView::Finished(Ok(tip)),
        Some(Err(e)) => LookupView::Finished(Err(e)),
        None => LookupView::Bootstrap { writes, acknowledged: acknowledged + 1, tip },
    }
}

impl BitcoindCache {
    /// A lookup begins with the read of the tip's hash.
    pub open spec fn lookup_begun(&self) -> LookupView {
        LookupView::ReadHash(self.read_of(best_block_hash_key()))
    }

    /// The lookup after the answer to the read of the tip's hash. A failure,
    /// or a record that is no hash, ends the lookup. Else the read of the
    /// tip's height follows, whether a hash was found or not.
    pub open spec fn lookup_after_hash(&self, answer: StoreResult<Option<Seq<u8>>>) -> LookupView {
        match best_block_hash_found(answer) {
            Err(e) => LookupView::Finished(Err(e)),
            Ok(best_hash) => LookupView::ReadHeight {
                request: self.read_of(best_block_height_key()),
                best_hash,
            },
        }
    }

    /// The lookup after the answer to the read of the tip's height, when the
    /// read of the tip's hash found `best_hash`. A failure, or a record that
    /// is no height, ends the lookup. With both records there, the best block
    /// is what they say. With one missing, the cache counts as never
    /// written: the network's genesis block is to be connected at height 0
    /// with no chainwork, and is the best block once that has succeeded.
    pub open spec fn lookup_after_height(
        &self,
        best_hash: Option<Seq<u8>>,
        answer: StoreResult<Option<Seq<u8>>>,
    ) -> LookupView {
        match best_block_height_found(answer) {
            Err(e) => LookupView::Finished(Err(e)),
            Ok(best_height) => match (best_hash, best_height) {
                (Some(hash), Some(height)) => LookupView::Finished(Ok((hash, height))),
                _ => {
                    let encoding = genesis_encoding(self.network);
                    let header = encoding.subrange(0, 80);
                    LookupView::Bootstrap {
                        writes: self.connect_writes(header, encoding, 0, no_chainwork()),
                        acknowledged: 0,
                        tip: (header_hash(header).bytes@, 0),
                    }
                },
            },
        }
    }

    /// Begins the lookup of the cache's best block.
    pub fn get_cached_best_block(&self) -> (lookup: BestBlockLookup)
        ensures
            lookup@ == self.lookup_begun(),
    {
        BestBlockLookup::ReadHash(self.get_best_block_hash())
    }

    /// Takes the store's answer to the read of the tip's hash, and says what
    /// is due next.
    pub fn on_best_block_hash(&self, answer: StoreResult<Option<Vec<u8>>>) -> (lookup:
        BestBlockLookup)
        ensures
            lookup@ == self.lookup_after_hash(answer_bytes(answer)),
    {
        match BitcoindCache::get_best_block_hash_result(answer) {
            Err(error) => BestBlockLookup::Finished(Err(error)),
            Ok(best_hash) => BestBlockLookup::ReadHeight {
                request: self.get_best_block_height(),
                best_hash,
            },
        }
    }

    /// Takes the store's answer to the read of the tip's height, after the
    /// read of the tip's hash found `best_hash`, and says what is due next.
    ///
    /// Where that is the connect of the genesis block, the block's encoding
    /// is one that the consensus decoder accepts, so that a connect that got
    /// through leaves the block readable.
    pub fn on_best_block_height(
        &self,
        best_hash: Option<BlockHash>,
        answer: StoreResult<Option<Vec<u8>>>,
    ) -> (lookup: BestBlockLookup)
        ensures
            lookup@ == self.lookup_after_height(optional_hash_bytes(best_hash), answer_bytes(answer)),
            lookup is Bootstrap ==> genesis_encoding(self.network).len() >= 80
                && is_consensus_block(genesis_encoding(self.network)),
    {
        match BitcoindCache::get_best_block_height_result(answer) {
            Err(error) => BestBlockLookup::Finished(Err(error)),
            Ok(best_height) => match (best_hash, best_height) {
                (Some(hash), Some(height)) => BestBlockLookup::Finished(Ok((hash, height))),
                _ => {
                    let genesis = genesis_block(self.network);
                    let genesis_hash = genesis.header.block_hash();
                    assert(genesis.encoding().subrange(0, 80) =~= genesis.header.bytes@);
                    let chainwork = Uint256::zero();
                    assert(chainwork.bytes@ == no_chainwork());
                    let connect = self.block_connected(&genesis, 0, chainwork);
                    BestBlockLookup::Bootstrap { connect, tip: (genesis_hash, 0) }
                },
            },
        }
    }

    /// Takes the store's answer to the write that was due in the connect of
    /// the genesis block, and says what is due next.
    pub fn on_bootstrap_write(connect: Connect, tip: (BlockHash, u32), answer: StoreResult<()>) -> (lookup:
        BestBlockLookup)
        ensures
            lookup@ == lookup_after_write(
                connect.writes(),
                connect.acknowledged(),
                (tip.0.bytes@, tip.1),
                answer,
            ),
    {
        match connect.advance(answer) {
            ConnectStep::Finished(Ok(_)) => BestBlockLookup::Finished(Ok(tip)),
            ConnectStep::Finished(Err(error)) => BestBlockLookup::Finished(Err(error)),
            ConnectStep::Next(next) => BestBlockLookup::Bootstrap { connect: next, tip },
        }
    }
}

} // verus!
