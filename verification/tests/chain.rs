use bitcoin::hashes::hex::ToHex;
use bitcoind_cache::chain::{genesis_block, Block, BlockHash, BlockHeader, Network, Uint256};

fn networks() -> [(Network, bitcoin::Network); 4] {
    [
        (Network::Bitcoin, bitcoin::Network::Bitcoin),
        (Network::Testnet, bitcoin::Network::Testnet),
        (Network::Signet, bitcoin::Network::Signet),
        (Network::Regtest, bitcoin::Network::Regtest),
    ]
}

fn header_of(header: &bitcoin::BlockHeader) -> BlockHeader {
    BlockHeader::from_slice(&bitcoin::consensus::serialize(header)).unwrap()
}

#[test]
fn block_hash_is_the_one_that_bitcoin_computes() {
    for (_, network) in networks() {
        let genesis = bitcoin::blockdata::constants::genesis_block(network);
        let hash = header_of(&genesis.header).block_hash();
        assert_eq!(hash.bytes.to_vec(), bitcoin::consensus::serialize(&genesis.block_hash()));
    }
}

#[test]
fn block_hash_differs_from_the_header() {
    let genesis = bitcoin::blockdata::constants::genesis_block(bitcoin::Network::Bitcoin);
    let header = header_of(&genesis.header);
    assert_ne!(header.block_hash().bytes.to_vec(), header.bytes[..32].to_vec());
}

#[test]
fn block_hash_text_is_canonical() {
    let genesis = bitcoin::blockdata::constants::genesis_block(bitcoin::Network::Bitcoin);
    let hash = header_of(&genesis.header).block_hash();
    assert_eq!(
        hash.to_hex(),
        "000000000019d6689c085ae165831e934ff763ae46a2a6c172b3f1b60a8ce26f"
    );
    assert_eq!(hash.to_hex(), genesis.block_hash().to_hex());
}

#[test]
fn block_hash_text_is_last_byte_first() {
    let mut bytes = [0u8; 32];
    bytes[0] = 0x01;
    bytes[31] = 0xfe;
    let text = BlockHash { bytes }.to_hex();
    assert_eq!(text, "fe00000000000000000000000000000000000000000000000000000000000001");
}

#[test]
fn genesis_block_is_the_one_that_bitcoin_builds() {
    for (ours, theirs) in networks() {
        let genesis = bitcoin::blockdata::constants::genesis_block(theirs);
        let block = genesis_block(ours);
        assert_eq!(block.encode(), bitcoin::consensus::serialize(&genesis));
        assert_eq!(block.header, header_of(&genesis.header));
        assert_eq!(
            block.block_hash().bytes.to_vec(),
            bitcoin::consensus::serialize(&genesis.block_hash())
        );
    }
}

#[test]
fn genesis_blocks_differ_by_network() {
    assert_ne!(genesis_block(Network::Bitcoin), genesis_block(Network::Testnet));
    assert_ne!(genesis_block(Network::Bitcoin), genesis_block(Network::Regtest));
    assert_ne!(genesis_block(Network::Signet), genesis_block(Network::Regtest));
}

#[test]
fn block_encode_is_header_then_transactions() {
    let block = Block { header: BlockHeader { bytes: [3u8; 80] }, txdata: vec![1, 2, 3] };
    let mut expected = vec![3u8; 80];
    expected.extend_from_slice(&[1, 2, 3]);
    assert_eq!(block.encode(), expected);
}

#[test]
fn block_decode_reads_a_real_block_back() {
    let genesis = bitcoin::blockdata::constants::genesis_block(bitcoin::Network::Testnet);
    let bytes = bitcoin::consensus::serialize(&genesis);
    let block = Block::decode(&bytes).unwrap();
    assert_eq!(block.header.bytes.to_vec(), bytes[..80].to_vec());
    assert_eq!(block.txdata, bytes[80..].to_vec());
    assert_eq!(block.encode(), bytes);
}

#[test]
fn block_decode_takes_a_block_without_transactions() {
    let mut bytes = vec![0u8; 80];
    bytes.push(0);
    let block = Block::decode(&bytes).unwrap();
    assert_eq!(block.txdata, vec![0]);
}

#[test]
fn block_decode_rejects_what_is_no_block() {
    assert_eq!(Block::decode(&[]), None);
    assert_eq!(Block::decode(&[0u8; 79]), None);
    assert_eq!(Block::decode(&[0u8; 80]), None);
    assert_eq!(Block::decode(&[0xffu8; 200]), None);
    let genesis = bitcoin::blockdata::constants::genesis_block(bitcoin::Network::Bitcoin);
    let mut bytes = bitcoin::consensus::serialize(&genesis);
    bytes.push(0);
    assert_eq!(Block::decode(&bytes), None);
    bytes.truncate(bytes.len() - 2);
    assert_eq!(Block::decode(&bytes), None);
}

#[test]
fn from_slice_asks_for_the_exact_length() {
    assert_eq!(BlockHash::from_slice(&[5u8; 32]), Some(BlockHash { bytes: [5u8; 32] }));
    assert_eq!(BlockHash::from_slice(&[5u8; 31]), None);
    assert_eq!(BlockHash::from_slice(&[5u8; 33]), None);
    assert_eq!(BlockHash::from_slice(&[]), None);
    assert_eq!(BlockHeader::from_slice(&[5u8; 80]), Some(BlockHeader { bytes: [5u8; 80] }));
    assert_eq!(BlockHeader::from_slice(&[5u8; 79]), None);
    assert_eq!(BlockHeader::from_slice(&[5u8; 81]), None);
    assert_eq!(Uint256::from_slice(&[5u8; 32]), Some(Uint256 { bytes: [5u8; 32] }));
    assert_eq!(Uint256::from_slice(&[5u8; 31]), None);
    assert_eq!(Uint256::from_slice(&[5u8; 33]), None);
}

#[test]
fn from_slice_keeps_the_order_of_the_bytes() {
    let bytes: Vec<u8> = (0..32).collect();
    let hash = BlockHash::from_slice(&bytes).unwrap();
    assert_eq!(hash.bytes.to_vec(), bytes);
    let bytes: Vec<u8> = (100..180).collect();
    let header = BlockHeader::from_slice(&bytes).unwrap();
    assert_eq!(header.bytes.to_vec(), bytes);
}

#[test]
fn uint256_zero_is_all_zero() {
    assert_eq!(Uint256::zero(), Uint256 { bytes: [0u8; 32] });
}

#[test]
fn uint256_bytes_are_most_significant_first() {
    let work = bitcoin::util::uint::Uint256::from_u64(0x0102).unwrap();
    let ours = Uint256 { bytes: work.to_be_bytes() };
    assert_eq!(ours.bytes[31], 0x02);
    assert_eq!(ours.bytes[30], 0x01);
    assert_eq!(ours.bytes[0], 0x00);
}
