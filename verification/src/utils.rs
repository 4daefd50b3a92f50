//! Lowercase hexadecimal text.

use vstd::prelude::*;
use vstd::string::*;

verus! {

/// The lowercase hexadecimal digit for a value below sixteen.
pub open spec fn hex_char(n: int) -> char {
    if n == 0 {
        '0'
    } else if n == 1 {
        '1'
    } else if n == 2 {
        '2'
    } else if n == 3 {
        '3'
    } else if n == 4 {
        '4'
    } else if n == 5 {
        '5'
    } else if n == 6 {
        '6'
    } else if n == 7 {
        '7'
    } else if n == 8 {
        '8'
    } else if n == 9 {
        '9'
    } else if n == 10 {
        'a'
    } else if n == 11 {
        'b'
    } else if n == 12 {
        'c'
    } else if n == 13 {
        'd'
    } else if n == 14 {
        'e'
    } else {
        'f'
    }
}

/// Two digits per byte, high nibble first.
pub open spec fn hex_text(data: Seq<u8>) -> Seq<char> {
    Seq::new(
        2 * data.len(),
        |i: int| if i % 2 == 0 { hex_char(data[i / 2] as int / 16) } else { hex_char(data[i / 2] as int % 16) },
    )
}

pub(crate) fn hex_digit_str(n: u8) -> (s: &'static str)
    requires
        n < 16,
    ensures
        s@ == seq![hex_char(n as int)],
{
    proof {
        reveal_strlit("0");
        reveal_strlit("1");
        reveal_strlit("2");
        reveal_strlit("3");
        reveal_strlit("4");
        reveal_strlit("5");
        reveal_strlit("6");
        reveal_strlit("7");
        reveal_strlit("8");
        reveal_strlit("9");
        reveal_strlit("a");
        reveal_strlit("b");
        reveal_strlit("c");
        reveal_strlit("d");
        reveal_strlit("e");
        reveal_strlit("f");
    }
    let s = if n == 0 {
        "0"
    } else if n == 1 {
        "1"
    } else if n == 2 {
        "2"
    } else if n == 3 {
        "3"
    } else if n == 4 {
        "4"
    } else if n == 5 {
        "5"
    } else if n == 6 {
        "6"
    } else if n == 7 {
        "7"
    } else if n == 8 {
        "8"
    } else if n == 9 {
        "9"
    } else if n == 10 {
        "a"
    } else if n == 11 {
        "b"
    } else if n == 12 {
        "c"
    } else if n == 13 {
        "d"
    } else if n == 14 {
        "e"
    } else {
        "f"
    };
    assert(s@ =~= seq![hex_char(n as int)]);
    s
}

/// Hexadecimal text of `value`: two lowercase digits per byte.
pub fn hex_str(value: &[u8]) -> (text: String)
    ensures
        text@ == hex_text(value@),
{
    let mut text = String::new();
    let mut i: usize = 0;
    while i < value.len()
        invariant
            i <= value.len(),
            text@ == hex_text(value@.take(i as int)),
        decreases value.len() - i,
    {
        let byte = value[i];
        text.append(hex_digit_str(byte / 16));
        text.append(hex_digit_str(byte % 16));
        i += 1;
        assert(text@ =~= hex_text(value@.take(i as int)));
    }
    assert(value@.take(i as int) =~= value@);
    text
}

/// An ASCII text read byte by byte.
pub open spec fn ascii_bytes(text: Seq<char>) -> Seq<u8> {
    Seq::new(text.len(), |i: int| text[i] as u8)
}

/// The value of one ASCII hexadecimal digit, of either case.
pub open spec fn hex_value(c: u8) -> Option<u8> {
    if 48 <= c && c <= 57 {
        Some((c - 48) as u8)
    } else if 97 <= c && c <= 102 {
        Some((c - 87) as u8)
    } else if 65 <= c && c <= 70 {
        Some((c - 55) as u8)
    } else {
        None
    }
}

/// An even number of hexadecimal digits and nothing else.
pub open spec fn is_hex(text: Seq<u8>) -> bool {
    &&& text.len() % 2 == 0
    &&& forall|i: int| #![trigger text[i]] 0 <= i < text.len() ==> hex_value(text[i]) is Some
}

/// The bytes that hexadecimal text spells, one per pair of digits.
pub open spec fn hex_bytes(text: Seq<u8>) -> Seq<u8> {
    Seq::new(
        text.len() / 2,
        |i: int| (16 * hex_value(text[2 * i]).unwrap() + hex_value(text[2 * i + 1]).unwrap()) as u8,
    )
}

/// What hexadecimal text decodes to, if it is hexadecimal text.
pub open spec fn parse_hex(text: Seq<u8>) -> Option<Seq<u8>> {
    if is_hex(text) {
        Some(hex_bytes(text))
    } else {
        None
    }
}

fn hex_digit_value(c: u8) -> (value: Option<u8>)
    ensures
        value == hex_value(c),
        value matches Some(v) ==> (v < 16),
{
    if 48 <= c && c <= 57 {
        Some(c - 48)
    } else if 97 <= c && c <= 102 {
        Some(c - 87)
    } else if 65 <= c && c <= 70 {
        Some(c - 55)
    } else {
        None
    }
}

/// Decodes hexadecimal text, given as ASCII bytes. Digits of either case are
/// taken; an odd length or any other byte gives `None`.
pub fn to_vec(hex: &[u8]) -> (bytes: Option<Vec<u8>>)
    ensures
        bytes.is_some() == is_hex(hex@),
        bytes matches Some(b) ==> b@ == hex_bytes(hex@),
{
    if hex.len() % 2 != 0 {
        return None;
    }
    let mut bytes: Vec<u8> = Vec::new();
    let mut i: usize = 0;
    while i < hex.len()
        invariant
            i <= hex.len(),
            i % 2 == 0,
            hex.len() % 2 == 0,
            bytes.len() == i / 2,
            forall|k: int| #![trigger hex@[k]] 0 <= k < i ==> hex_value(hex@[k]) is Some,
            forall|k: int|
                0 <= k < bytes.len() ==> bytes@[k] == (16 * hex_value(hex@[2 * k]).unwrap() + hex_value(
                    hex@[2 * k + 1],
                ).unwrap()) as u8,
        decreases hex.len() - i,
    {
        let high = match hex_digit_value(hex[i]) {
            Some(v) => v,
            None => {
                return None;
            },
        };
        let low = match hex_digit_value(hex[i + 1]) {
            Some(v) => v,
            None => {
                return None;
            },
        };
        bytes.push(16 * high + low);
        i += 2;
    }
    assert(bytes@ =~= hex_bytes(hex@));
    Some(bytes)
}

/// Decoding undoes encoding: the text that `hex_str` writes for `data` is
/// hexadecimal text, and `to_vec` reads `data` back from it.
pub proof fn lemma_hex_round_trip(data: Seq<u8>)
    ensures
        is_hex(ascii_bytes(hex_text(data))),
        parse_hex(ascii_bytes(hex_text(data))) == Some(data),
{
    let text = ascii_bytes(hex_text(data));
    assert forall|i: int| #![trigger text[i]] 0 <= i < text.len() implies hex_value(text[i]) is Some by {
        lemma_hex_digit(data[i / 2] as int / 16);
        lemma_hex_digit(data[i / 2] as int % 16);
    }
    assert forall|i: int| 0 <= i < data.len() implies hex_bytes(text)[i] == data[i] by {
        lemma_hex_digit(data[i] as int / 16);
        lemma_hex_digit(data[i] as int % 16);
        assert(text[2 * i] == hex_char(data[i] as int / 16) as u8);
        assert(text[2 * i + 1] == hex_char(data[i] as int % 16) as u8);
    }
    assert(hex_bytes(text) =~= data);
}

/// A digit that `hex_char` writes is one that `hex_value` reads, with the same value.
pub proof fn lemma_hex_digit(n: int)
    requires
        0 <= n < 16,
    ensures
        hex_value(hex_char(n) as u8) == Some(n as u8),
        hex_char(n) as u8 != 44,
        hex_char(n) as u8 != 43,
        (hex_char(n) as u8) < 128,
{
}

} // verus!
