//! The text records of the cache: the header record
//! `<hex header>,<decimal height>,<hex chainwork>` and the height record
//! `<decimal height>`.

use crate::chain::{BlockHeader, Uint256};
use crate::decimal::{
    decimal_str, decimal_text, lemma_decimal_round_trip, parse_decimal, parse_u32,
};
use crate::utils::{
    ascii_bytes, hex_bytes, hex_str, hex_text, is_hex, lemma_hex_digit, lemma_hex_round_trip,
    to_vec,
};
use vstd::prelude::*;
use vstd::slice::*;
use vstd::string::*;
use vstd::utf8::*;

verus! {

/// The comma that separates the fields of a header record.
pub const COMMA: u8 = 44;

/// The header record as text: the three fields, a comma between each two.
pub open spec fn header_record_text(header: Seq<u8>, height: u32, chainwork: Seq<u8>) -> Seq<char> {
    hex_text(header) + seq![','] + decimal_text(height as nat) + seq![','] + hex_text(chainwork)
}

/// The header record as it is stored.
pub open spec fn header_record(header: Seq<u8>, height: u32, chainwork: Seq<u8>) -> Seq<u8> {
    ascii_bytes(header_record_text(header, height, chainwork))
}

/// The height record as it is stored.
pub open spec fn height_record(height: u32) -> Seq<u8> {
    ascii_bytes(decimal_text(height as nat))
}

/// Three fields with a comma between each two.
pub open spec fn joined(first: Seq<u8>, second: Seq<u8>, third: Seq<u8>) -> Seq<u8> {
    first + seq![COMMA] + second + seq![COMMA] + third
}

/// What a stored header record holds: the header's 80 bytes, the height and
/// the chainwork's 32 bytes, or nothing if the record is malformed.
///
/// A header is 160 hexadecimal digits and a chainwork is 64, and neither they
/// nor the height hold a comma. So a record of three such fields has its
/// commas at fixed places, counted from the front and from the back, and
/// these are the places read here (see [`lemma_parse_joined`]).
pub open spec fn parse_header_record(record: Seq<u8>) -> Option<(Seq<u8>, u32, Seq<u8>)> {
    let n = record.len() as int;
    if n >= 227 && record[160] == COMMA && record[n - 65] == COMMA {
        let header = record.subrange(0, 160);
        let height = record.subrange(161, n - 65);
        let chainwork = record.subrange(n - 64, n);
        if is_hex(header) && parse_decimal(height) is Some && is_hex(chainwork) {
            Some((hex_bytes(header), parse_decimal(height).unwrap(), hex_bytes(chainwork)))
        } else {
            None
        }
    } else {
        None
    }
}

/// All that `hex_str` writes is ASCII.
pub proof fn lemma_hex_text_ascii(data: Seq<u8>)
    ensures
        is_ascii_chars(hex_text(data)),
{
    assert forall|i: int| 0 <= i < hex_text(data).len() implies '\0' <= #[trigger] hex_text(
        data,
    )[i] <= '\u{7f}' by {
        lemma_hex_digit(data[i / 2] as int / 16);
        lemma_hex_digit(data[i / 2] as int % 16);
    }
}

/// All that `decimal_str` writes is ASCII.
pub proof fn lemma_decimal_text_ascii(n: nat)
    ensures
        is_ascii_chars(decimal_text(n)),
    decreases n,
{
    if n >= 10 {
        lemma_decimal_text_ascii(n / 10);
    }
}

/// Writes the header record of a header, its height and its chainwork.
pub fn encode_header_record(header: &BlockHeader, height: u32, chainwork: &Uint256) -> (record: Vec<u8>)
    ensures
        record@ == header_record(header.bytes@, height, chainwork.bytes@),
{
    let mut text = hex_str(header.bytes.as_slice());
    text.append(",");
    text.append(decimal_str(height).as_str());
    text.append(",");
    text.append(hex_str(chainwork.bytes.as_slice()).as_str());
    proof {
        reveal_strlit(",");
        assert(","@ =~= seq![',']);
        assert(text@ =~= header_record_text(header.bytes@, height, chainwork.bytes@));
        lemma_hex_text_ascii(header.bytes@);
        lemma_decimal_text_ascii(height as nat);
        lemma_hex_text_ascii(chainwork.bytes@);
        assert(is_ascii_chars(text@));
        is_ascii_chars_encode_utf8(text@);
    }
    let record = text.as_str().as_bytes_vec();
    assert(record@ =~= ascii_bytes(text@));
    record
}

/// Reads a stored header record. `None` for a malformed one.
pub fn decode_header_record(record: &[u8]) -> (fields: Option<(BlockHeader, u32, Uint256)>)
    ensures
        fields.is_some() == parse_header_record(record@).is_some(),
        fields matches Some((header, height, chainwork)) ==> parse_header_record(record@) == Some(
            (header.bytes@, height, chainwork.bytes@),
        ),
{
    let n = record.len();
    if n < 227 || record[160] != COMMA || record[n - 65] != COMMA {
        return None;
    }
    let header_bytes = match to_vec(slice_subrange(record, 0, 160)) {
        Some(bytes) => bytes,
        None => {
            return None;
        },
    };
    let height = match parse_u32(slice_subrange(record, 161, n - 65)) {
        Some(height) => height,
        None => {
            return None;
        },
    };
    let chainwork_bytes = match to_vec(slice_subrange(record, n - 64, n)) {
        Some(bytes) => bytes,
        None => {
            return None;
        },
    };
    let header = BlockHeader::from_slice(header_bytes.as_slice());
    let chainwork = Uint256::from_slice(chainwork_bytes.as_slice());
    match (header, chainwork) {
        (Some(header), Some(chainwork)) => Some((header, height, chainwork)),
        _ => None,
    }
}

/// Writes the height record of `height`.
pub fn encode_height_record(height: u32) -> (record: Vec<u8>)
    ensures
        record@ == height_record(height),
{
    let text = decimal_str(height);
    proof {
        lemma_decimal_text_ascii(height as nat);
        is_ascii_chars_encode_utf8(text@);
    }
    let record = text.as_str().as_bytes_vec();
    assert(record@ =~= ascii_bytes(text@));
    record
}

/// Reading the positions from both ends finds the fields of any well-formed
/// record: three fields joined by commas, the first 160 hexadecimal digits,
/// the second decimal text, the third 64 hexadecimal digits.
pub proof fn lemma_parse_joined(first: Seq<u8>, second: Seq<u8>, third: Seq<u8>)
    requires
        is_hex(first),
        first.len() == 160,
        parse_decimal(second) is Some,
        is_hex(third),
        third.len() == 64,
    ensures
        parse_header_record(joined(first, second, third)) == Some(
            (hex_bytes(first), parse_decimal(second).unwrap(), hex_bytes(third)),
        ),
{
    let record = joined(first, second, third);
    let n = record.len() as int;
    assert(second.len() >= 1);
    assert(n == 226 + second.len());
    assert(record[160] == COMMA);
    assert(record[n - 65] == COMMA);
    assert(record.subrange(0, 160) =~= first);
    assert(record.subrange(161, n - 65) =~= second);
    assert(record.subrange(n - 64, n) =~= third);
}

/// Whatever is read from a record was joined in it: a record that holds
/// three fields is those fields with a comma between each two, the first 160
/// hexadecimal digits, the second decimal text, the third 64 hexadecimal
/// digits.
pub proof fn lemma_parsed_was_joined(record: Seq<u8>)
    requires
        parse_header_record(record) is Some,
    ensures
        ({
            let n = record.len() as int;
            let first = record.subrange(0, 160);
            let second = record.subrange(161, n - 65);
            let third = record.subrange(n - 64, n);
            &&& record == joined(first, second, third)
            &&& parse_header_record(record) == Some(
                (hex_bytes(first), parse_decimal(second).unwrap(), hex_bytes(third)),
            )
            &&& is_hex(first) && is_hex(third) && parse_decimal(second) is Some
            &&& hex_bytes(first).len() == 80 && hex_bytes(third).len() == 32
        }),
{
    let n = record.len() as int;
    let first = record.subrange(0, 160);
    let second = record.subrange(161, n - 65);
    let third = record.subrange(n - 64, n);
    assert(record =~= joined(first, second, third));
}

/// Reading undoes writing: from the record written for a header, a height
/// and a chainwork, exactly these three are read back.
pub proof fn lemma_header_record_round_trip(header: Seq<u8>, height: u32, chainwork: Seq<u8>)
    requires
        header.len() == 80,
        chainwork.len() == 32,
    ensures
        parse_header_record(header_record(header, height, chainwork)) == Some(
            (header, height, chainwork),
        ),
{
    let first = ascii_bytes(hex_text(header));
    let second = ascii_bytes(decimal_text(height as nat));
    let third = ascii_bytes(hex_text(chainwork));
    lemma_hex_round_trip(header);
    lemma_decimal_round_trip(height);
    lemma_hex_round_trip(chainwork);
    assert(header_record(header, height, chainwork) =~= joined(first, second, third));
    lemma_parse_joined(first, second, third);
}

/// Reading undoes writing for the height record too.
pub proof fn lemma_height_record_round_trip(height: u32)
    ensures
        parse_decimal(height_record(height)) == Some(height),
{
    lemma_decimal_round_trip(height);
}

} // verus!
