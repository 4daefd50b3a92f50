//! What holds of the cache against a store that delivers what it
//! acknowledges: a write that got through replaces the object at its
//! location and touches no other, and a read finds what was last written.

use crate::chain::{
    genesis_encoding, hash_hex, header_hash, is_consensus_block, Block, BlockHash,
};
use crate::connect::{
    connect_run, lemma_connect_stops_at_failure, lemma_connect_succeeds, CONNECT_WRITES,
};
use crate::lookup::{lookup_after_write, no_chainwork, LookupView};
use crate::record::{lemma_header_record_round_trip, lemma_height_record_round_trip};
use crate::store::{ReadRequestView, Store, StoreError, StoreResult, WriteRequestView};
use crate::utils::lemma_hex_round_trip;
use crate::{
    best_block_hash_found, best_block_hash_key, best_block_height_found, best_block_height_key,
    block_found, block_key, header_found, header_key, BitcoindCache, BitcoindCacheError,
    RecordKind,
};
use vstd::prelude::*;

verus! {

/// The objects of a store's medium, each at its location.
pub type Objects = Map<Seq<char>, Seq<u8>>;

/// The objects after a write got through.
pub open spec fn after_write(objects: Objects, write: WriteRequestView) -> Objects {
    objects.insert(write.location, write.content)
}

/// The objects after the first `delivered` of `writes` got through, in their order.
pub open spec fn after_writes(objects: Objects, writes: Seq<WriteRequestView>, delivered: nat) -> Objects
    decreases delivered,
{
    if delivered == 0 {
        objects
    } else {
        after_write(after_writes(objects, writes, (delivered - 1) as nat), writes[delivered - 1])
    }
}

/// What a read finds: the object at its location, if there is one.
pub open spec fn found(objects: Objects, read: ReadRequestView) -> Option<Seq<u8>> {
    if objects.dom().contains(read.location) {
        Some(objects[read.location])
    } else {
        None
    }
}

/// The four kinds of key never coincide, whatever the hashes.
pub proof fn lemma_keys_distinct(first: Seq<char>, second: Seq<char>)
    ensures
        block_key(first) != header_key(second),
        block_key(first) != best_block_hash_key(),
        block_key(first) != best_block_height_key(),
        header_key(first) != best_block_hash_key(),
        header_key(first) != best_block_height_key(),
        best_block_hash_key() != best_block_height_key(),
{
    reveal_strlit(".block");
    reveal_strlit(".header");
    reveal_strlit("best-block-hash");
    reveal_strlit("best-block-height");
    assert(block_key(first).last() == 'k');
    assert(header_key(first).last() == 'r');
    assert(header_key(second).last() == 'r');
    assert(best_block_hash_key().last() == 'h');
    assert(best_block_height_key().last() == 't');
}

/// One step of a lookup against a store that holds `objects`, answers every
/// read with what it holds and delivers every write.
pub open spec fn lookup_step(cache: BitcoindCache, lookup: LookupView, objects: Objects) -> (
    LookupView,
    Objects,
) {
    match lookup {
        LookupView::ReadHash(request) => (cache.lookup_after_hash(Ok(found(objects, request))), objects),
        LookupView::ReadHeight { request, best_hash } => (
            cache.lookup_after_height(best_hash, Ok(found(objects, request))),
            objects,
        ),
        LookupView::Bootstrap { writes, acknowledged, tip } => (
            lookup_after_write(writes, acknowledged, tip, Ok(())),
            after_write(objects, writes[acknowledged as int]),
        ),
        LookupView::Finished(_) => (lookup, objects),
    }
}

/// A lookup after `steps` steps against such a store, and what the store
/// holds then.
pub open spec fn lookup_run(cache: BitcoindCache, lookup: LookupView, objects: Objects, steps: nat) -> (
    LookupView,
    Objects,
)
    decreases steps,
{
    if steps == 0 {
        (lookup, objects)
    } else {
        let (next, after) = lookup_step(cache, lookup, objects);
        lookup_run(cache, next, after, (steps - 1) as nat)
    }
}

/// Before any write, a store holds no tip: the reads of the tip's hash and
/// of the tip's height both give the absent case, and no failure.
pub proof fn lemma_fresh_store_has_no_tip(cache: BitcoindCache)
    ensures
        best_block_hash_found(Ok(found(Map::empty(), cache.read_of(best_block_hash_key()))))
            == Ok::<Option<Seq<u8>>, BitcoindCacheError>(None),
        best_block_height_found(Ok(found(Map::empty(), cache.read_of(best_block_height_key()))))
            == Ok::<Option<u32>, BitcoindCacheError>(None),
{
}

/// A header that was written is read back: after the write of a header with
/// its height and chainwork, the read by the header's hash gives exactly that
/// header, height and chainwork.
pub proof fn lemma_header_round_trip(
    cache: BitcoindCache,
    header: Seq<u8>,
    height: u32,
    chainwork: Seq<u8>,
    objects: Objects,
)
    requires
        header.len() == 80,
        chainwork.len() == 32,
    ensures
        header_found(
            Ok(
                found(
                    after_write(objects, cache.header_write(header, height, chainwork)),
                    cache.read_of(header_key(hash_hex(header_hash(header)))),
                ),
            ),
        ) == Ok::<Option<(Seq<u8>, u32, Seq<u8>)>, BitcoindCacheError>(
            Some((header, height, chainwork)),
        ),
{
    lemma_header_record_round_trip(header, height, chainwork);
}

/// A block that was written is read back: after the write of a block, the
/// read by the block's hash finds the block's encoding, byte for byte. It
/// gives the block if the consensus decoder accepts that encoding, as it
/// does for every block that was decoded; a block that it would not accept
/// is read back as corrupt.
pub proof fn lemma_block_round_trip(cache: BitcoindCache, block: Block, objects: Objects)
    ensures
        ({
            let answer = Ok(
                found(
                    after_write(objects, cache.block_write(block.header.hash(), block.encoding())),
                    cache.read_of(block_key(hash_hex(block.header.hash()))),
                ),
            );
            &&& answer == Ok::<Option<Seq<u8>>, StoreError>(Some(block.encoding()))
            &&& is_consensus_block(block.encoding()) ==> block_found(answer) == Ok::<
                Option<Seq<u8>>,
                BitcoindCacheError,
            >(Some(block.encoding()))
            &&& !is_consensus_block(block.encoding()) ==> block_found(answer) == Err::<
                Option<Seq<u8>>,
                BitcoindCacheError,
            >(BitcoindCacheError::Corrupt(RecordKind::Block))
        }),
{
}

/// What the store holds after the first `delivered` writes of a connect got
/// through and no other write did.
///
/// From the first write on the block's encoding is there, and from the
/// second on the header is read back with the height and chainwork that were
/// connected. The tip's hash is what it was until the third write and the
/// block's hash from then on; the tip's height is what it was until the
/// fourth write and the block's height after it. So a tip that points at the
/// block finds the block and its header stored.
pub proof fn lemma_connect_delivered(
    cache: BitcoindCache,
    header: Seq<u8>,
    encoding: Seq<u8>,
    height: u32,
    chainwork: Seq<u8>,
    objects: Objects,
    delivered: nat,
)
    requires
        header.len() == 80,
        chainwork.len() == 32,
        delivered <= 4,
    ensures
        ({
            let writes = cache.connect_writes(header, encoding, height, chainwork);
            let after = after_writes(objects, writes, delivered);
            let hash = hash_hex(header_hash(header));
            let tip_hash = cache.read_of(best_block_hash_key());
            let tip_height = cache.read_of(best_block_height_key());
            &&& delivered >= 1 ==> found(after, cache.read_of(block_key(hash))) == Some(encoding)
            &&& delivered >= 2 ==> header_found(Ok(found(after, cache.read_of(header_key(hash)))))
                == Ok::<Option<(Seq<u8>, u32, Seq<u8>)>, BitcoindCacheError>(
                Some((header, height, chainwork)),
            )
            &&& delivered < 3 ==> found(after, tip_hash) == found(objects, tip_hash)
            &&& delivered >= 3 ==> best_block_hash_found(Ok(found(after, tip_hash))) == Ok::<
                Option<Seq<u8>>,
                BitcoindCacheError,
            >(Some(header_hash(header).bytes@))
            &&& delivered < 4 ==> found(after, tip_height) == found(objects, tip_height)
            &&& delivered == 4 ==> best_block_height_found(Ok(found(after, tip_height))) == Ok::<
                Option<u32>,
                BitcoindCacheError,
            >(Some(height))
        }),
{
    reveal_with_fuel(after_writes, 5);
    let hash = hash_hex(header_hash(header));
    lemma_keys_distinct(hash, hash);
    lemma_header_record_round_trip(header, height, chainwork);
    lemma_height_record_round_trip(height);
    let store = cache.store;
    let block = block_key(hash);
    let head = header_key(hash);
    let tip_hash = best_block_hash_key();
    let tip_height = best_block_height_key();
    if store.location(block) == store.location(head) {
        store.lemma_location_injective(block, head);
    }
    if store.location(block) == store.location(tip_hash) {
        store.lemma_location_injective(block, tip_hash);
    }
    if store.location(block) == store.location(tip_height) {
        store.lemma_location_injective(block, tip_height);
    }
    if store.location(head) == store.location(tip_hash) {
        store.lemma_location_injective(head, tip_hash);
    }
    if store.location(head) == store.location(tip_height) {
        store.lemma_location_injective(head, tip_height);
    }
    if store.location(tip_hash) == store.location(tip_height) {
        store.lemma_location_injective(tip_hash, tip_height);
    }
}

/// A connect whose four writes the store acknowledges succeeds, and after
/// it the tip is the connected block: the read of the tip's hash gives the
/// block's hash, the read of the tip's height gives the block's height, and
/// a lookup of the best block ends, after these two reads, with both.
pub proof fn lemma_connect_advances_tip(
    cache: BitcoindCache,
    block: Block,
    height: u32,
    chainwork: Seq<u8>,
    objects: Objects,
    outcomes: Seq<StoreResult<()>>,
)
    requires
        chainwork.len() == 32,
        outcomes.len() == CONNECT_WRITES,
        forall|i: int| 0 <= i < CONNECT_WRITES ==> (#[trigger] outcomes[i]) is Ok,
    ensures
        ({
            let writes = cache.connect_writes(block.header.bytes@, block.encoding(), height, chainwork);
            let (result, delivered) = connect_run(outcomes, 0);
            let after = after_writes(objects, writes, delivered);
            let hash = block.header.hash().bytes@;
            &&& result is Ok
            &&& delivered == CONNECT_WRITES
            &&& best_block_hash_found(Ok(found(after, cache.read_of(best_block_hash_key()))))
                == Ok::<Option<Seq<u8>>, BitcoindCacheError>(Some(hash))
            &&& best_block_height_found(Ok(found(after, cache.read_of(best_block_height_key()))))
                == Ok::<Option<u32>, BitcoindCacheError>(Some(height))
            &&& lookup_run(cache, cache.lookup_begun(), after, 2) == (
                LookupView::Finished(Ok((hash, height))),
                after,
            )
        }),
{
    lemma_connect_succeeds(outcomes);
    lemma_connect_delivered(cache, block.header.bytes@, block.encoding(), height, chainwork, objects, 4);
    reveal_with_fuel(lookup_run, 3);
}

/// A connect whose third write the store fails ends in that failure, with
/// the fourth write never made. After it the block and its header are stored
/// and read back, and the tip is what it was before.
pub proof fn lemma_failed_connect_keeps_tip(
    cache: BitcoindCache,
    block: Block,
    height: u32,
    chainwork: Seq<u8>,
    objects: Objects,
    outcomes: Seq<StoreResult<()>>,
)
    requires
        chainwork.len() == 32,
        outcomes.len() == CONNECT_WRITES,
        outcomes[0] is Ok,
        outcomes[1] is Ok,
        outcomes[2] is Err,
    ensures
        ({
            let writes = cache.connect_writes(block.header.bytes@, block.encoding(), height, chainwork);
            let (result, delivered) = connect_run(outcomes, 0);
            let after = after_writes(objects, writes, delivered);
            let hash = hash_hex(block.header.hash());
            let tip_hash = cache.read_of(best_block_hash_key());
            let tip_height = cache.read_of(best_block_height_key());
            &&& result == Err::<(), BitcoindCacheError>(
                BitcoindCacheError::Store(outcomes[2]->Err_0),
            )
            &&& delivered == 2
            &&& found(after, cache.read_of(block_key(hash))) == Some(block.encoding())
            &&& header_found(Ok(found(after, cache.read_of(header_key(hash))))) == Ok::<
                Option<(Seq<u8>, u32, Seq<u8>)>,
                BitcoindCacheError,
            >(Some((block.header.bytes@, height, chainwork)))
            &&& best_block_hash_found(Ok(found(after, tip_hash))) == best_block_hash_found(
                Ok(found(objects, tip_hash)),
            )
            &&& best_block_height_found(Ok(found(after, tip_height))) == best_block_height_found(
                Ok(found(objects, tip_height)),
            )
        }),
{
    lemma_connect_stops_at_failure(outcomes, 0, 2);
    lemma_connect_delivered(cache, block.header.bytes@, block.encoding(), height, chainwork, objects, 2);
}

/// The lookup of the best block in a store that was never written ends,
/// after its two reads and the four writes of the genesis block's connect,
/// with the genesis block's hash at height 0. The store then holds the
/// genesis block and its header under that hash, and that hash and height 0
/// as its tip.
///
/// This is said of a genesis block whose encoding is at least as long as a
/// header, which [`BitcoindCache::on_best_block_height`] says it is.
pub proof fn lemma_lookup_bootstraps_fresh_store(cache: BitcoindCache)
    ensures
        ({
            let encoding = genesis_encoding(cache.network);
            let header = encoding.subrange(0, 80);
            let hash = header_hash(header);
            let (end, after) = lookup_run(cache, cache.lookup_begun(), Map::empty(), 6);
            encoding.len() >= 80 ==> {
                &&& end == LookupView::Finished(Ok((hash.bytes@, 0u32)))
                &&& found(after, cache.read_of(block_key(hash_hex(hash)))) == Some(encoding)
                &&& is_consensus_block(encoding) ==> block_found(
                    Ok(found(after, cache.read_of(block_key(hash_hex(hash))))),
                ) == Ok::<Option<Seq<u8>>, BitcoindCacheError>(Some(encoding))
                &&& header_found(Ok(found(after, cache.read_of(header_key(hash_hex(hash))))))
                    == Ok::<Option<(Seq<u8>, u32, Seq<u8>)>, BitcoindCacheError>(
                    Some((header, 0u32, no_chainwork())),
                )
                &&& best_block_hash_found(Ok(found(after, cache.read_of(best_block_hash_key()))))
                    == Ok::<Option<Seq<u8>>, BitcoindCacheError>(Some(hash.bytes@))
                &&& best_block_height_found(
                    Ok(found(after, cache.read_of(best_block_height_key()))),
                ) == Ok::<Option<u32>, BitcoindCacheError>(Some(0u32))
            }
        }),
{
    let encoding = genesis_encoding(cache.network);
    if encoding.len() >= 80 {
        let header = encoding.subrange(0, 80);
        let writes = cache.connect_writes(header, encoding, 0, no_chainwork());
        let empty: Objects = Map::empty();
        reveal_with_fuel(lookup_run, 7);
        reveal_with_fuel(after_writes, 5);
        let (end, after) = lookup_run(cache, cache.lookup_begun(), empty, 6);
        assert(after == after_writes(empty, writes, 4));
        lemma_connect_delivered(cache, header, encoding, 0, no_chainwork(), empty, 4);
    }
}

/// The hashes of two blocks are the same if their keys are: no two blocks
/// share a block record, and no two a header record.
pub proof fn lemma_hash_keys_injective(first: BlockHash, second: BlockHash)
    ensures
        block_key(hash_hex(first)) == block_key(hash_hex(second)) ==> first == second,
        header_key(hash_hex(first)) == header_key(hash_hex(second)) ==> first == second,
{
    let a = hash_hex(first);
    let b = hash_hex(second);
    assert(a =~= block_key(a).subrange(0, a.len() as int));
    assert(b =~= block_key(b).subrange(0, b.len() as int));
    assert(a =~= header_key(a).subrange(0, a.len() as int));
    assert(b =~= header_key(b).subrange(0, b.len() as int));
    if a == b {
        lemma_hex_round_trip(first.bytes@.reverse());
        lemma_hex_round_trip(second.bytes@.reverse());
        assert(first.bytes@.reverse() == second.bytes@.reverse());
        assert(first.bytes@ =~= first.bytes@.reverse().reverse());
        assert(second.bytes@ =~= second.bytes@.reverse().reverse());
        assert(first.bytes =~= second.bytes);
    }
}

} // verus!
