use bitcoind_cache::chain::{BlockHeader, Uint256};
use bitcoind_cache::record::{decode_header_record, encode_header_record, encode_height_record};

fn sample_header() -> BlockHeader {
    let mut bytes = [0u8; 80];
    for (i, byte) in bytes.iter_mut().enumerate() {
        *byte = (i * 3 + 1) as u8;
    }
    BlockHeader { bytes }
}

fn sample_work() -> Uint256 {
    let mut bytes = [0u8; 32];
    bytes[29] = 0x01;
    bytes[30] = 0xab;
    bytes[31] = 0xcd;
    Uint256 { bytes }
}

fn record_of(header: &str, height: &str, work: &str) -> Vec<u8> {
    format!("{},{},{}", header, height, work).into_bytes()
}

const HEADER_HEX: &str = "0104070a0d101316191c1f2225282b2e3134373a3d404346494c4f5255585b5e6164676a6d707376797c7f8285888b8e9194979a9da0a3a6a9acafb2b5b8bbbec1c4c7cacdd0d3d6d9dcdfe2e5e8ebee";
const WORK_HEX: &str = "000000000000000000000000000000000000000000000000000000000001abcd";

#[test]
fn header_record_is_three_fields_joined_by_commas() {
    let record = encode_header_record(&sample_header(), 840000, &sample_work());
    assert_eq!(String::from_utf8(record).unwrap(), format!("{},840000,{}", HEADER_HEX, WORK_HEX));
}

#[test]
fn header_record_of_the_genesis_header() {
    let genesis = bitcoin::blockdata::constants::genesis_block(bitcoin::Network::Bitcoin);
    let header = BlockHeader::from_slice(&bitcoin::consensus::serialize(&genesis.header)).unwrap();
    let record = encode_header_record(&header, 0, &Uint256::zero());
    let expected = format!(
        "{},0,{}",
        bitcoin::consensus::encode::serialize_hex(&genesis.header),
        "00".repeat(32)
    );
    assert_eq!(String::from_utf8(record).unwrap(), expected);
}

#[test]
fn header_record_round_trip() {
    for height in [0u32, 1, 9, 10, 840000, 4294967295] {
        let record = encode_header_record(&sample_header(), height, &sample_work());
        assert_eq!(decode_header_record(&record), Some((sample_header(), height, sample_work())));
    }
}

#[test]
fn decode_header_record_reads_the_fields() {
    let record = record_of(HEADER_HEX, "12", WORK_HEX);
    assert_eq!(decode_header_record(&record), Some((sample_header(), 12, sample_work())));
}

#[test]
fn decode_header_record_takes_what_the_field_readers_take() {
    let record = record_of(&HEADER_HEX.to_uppercase(), "+0012", &WORK_HEX.to_uppercase());
    assert_eq!(decode_header_record(&record), Some((sample_header(), 12, sample_work())));
}

#[test]
fn decode_header_record_rejects_a_missing_field() {
    assert_eq!(decode_header_record(b""), None);
    assert_eq!(decode_header_record(HEADER_HEX.as_bytes()), None);
    assert_eq!(decode_header_record(format!("{},12", HEADER_HEX).as_bytes()), None);
    assert_eq!(decode_header_record(format!("{},{}", HEADER_HEX, WORK_HEX).as_bytes()), None);
    assert_eq!(decode_header_record(&record_of(HEADER_HEX, "", WORK_HEX)), None);
    assert_eq!(decode_header_record(&record_of("", "12", WORK_HEX)), None);
    assert_eq!(decode_header_record(&record_of(HEADER_HEX, "12", "")), None);
}

#[test]
fn decode_header_record_rejects_a_fourth_field() {
    let record = format!("{},12,{},", HEADER_HEX, WORK_HEX);
    assert_eq!(decode_header_record(record.as_bytes()), None);
    let record = format!("{},12,{},00", HEADER_HEX, WORK_HEX);
    assert_eq!(decode_header_record(record.as_bytes()), None);
    let record = format!("{},1,2,{}", HEADER_HEX, WORK_HEX);
    assert_eq!(decode_header_record(record.as_bytes()), None);
}

#[test]
fn decode_header_record_rejects_fields_of_the_wrong_length() {
    assert_eq!(decode_header_record(&record_of(&HEADER_HEX[2..], "12", WORK_HEX)), None);
    let long = format!("{}00", HEADER_HEX);
    assert_eq!(decode_header_record(&record_of(&long, "12", WORK_HEX)), None);
    assert_eq!(decode_header_record(&record_of(HEADER_HEX, "12", &WORK_HEX[2..])), None);
    let long = format!("{}00", WORK_HEX);
    assert_eq!(decode_header_record(&record_of(HEADER_HEX, "12", &long)), None);
}

#[test]
fn decode_header_record_rejects_fields_that_do_not_read() {
    let bad_header = format!("{}zz", &HEADER_HEX[2..]);
    assert_eq!(decode_header_record(&record_of(&bad_header, "12", WORK_HEX)), None);
    let bad_work = format!("{}zz", &WORK_HEX[2..]);
    assert_eq!(decode_header_record(&record_of(HEADER_HEX, "12", &bad_work)), None);
    assert_eq!(decode_header_record(&record_of(HEADER_HEX, "twelve", WORK_HEX)), None);
    assert_eq!(decode_header_record(&record_of(HEADER_HEX, "4294967296", WORK_HEX)), None);
    assert_eq!(decode_header_record(&record_of(HEADER_HEX, "-1", WORK_HEX)), None);
}

#[test]
fn decode_header_record_rejects_other_separators() {
    let record = format!("{};12;{}", HEADER_HEX, WORK_HEX);
    assert_eq!(decode_header_record(record.as_bytes()), None);
    let record = format!("{},12 {}", HEADER_HEX, WORK_HEX);
    assert_eq!(decode_header_record(record.as_bytes()), None);
}

#[test]
fn decode_header_record_rejects_text_that_is_not_utf8() {
    let mut record = record_of(HEADER_HEX, "12", WORK_HEX);
    record[162] = 0xff;
    assert_eq!(decode_header_record(&record), None);
}

#[test]
fn height_record_is_decimal_text() {
    assert_eq!(encode_height_record(0), b"0".to_vec());
    assert_eq!(encode_height_record(840000), b"840000".to_vec());
    assert_eq!(encode_height_record(4294967295), b"4294967295".to_vec());
}
