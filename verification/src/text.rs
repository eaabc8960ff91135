//! Text forms of bytes and numbers: hexadecimal in both cases, and decimal
//! digits.

use vstd::prelude::*;

verus! {

/// The character that stands for the decimal digit `d`.
pub open spec fn digit_char(d: int) -> char {
    ((48 + d) as u8) as char
}

/// The lower-case character that stands for the hexadecimal digit `n`.
pub open spec fn hex_char_lower(n: int) -> char {
    if n < 10 {
        ((48 + n) as u8) as char
    } else {
        ((87 + n) as u8) as char
    }
}

/// The upper-case character that stands for the hexadecimal digit `n`.
pub open spec fn hex_char_upper(n: int) -> char {
    if n < 10 {
        ((48 + n) as u8) as char
    } else {
        ((55 + n) as u8) as char
    }
}

/// The hexadecimal digit of `bytes` at text position `i`: the high half of
/// a byte at even positions, the low half at odd ones.
pub open spec fn hex_digit_at(bytes: Seq<u8>, i: int) -> int {
    if i % 2 == 0 {
        bytes[i / 2] as int / 16
    } else {
        bytes[i / 2] as int % 16
    }
}

/// Two lower-case hexadecimal characters per byte, in order.
pub open spec fn hex_lower(bytes: Seq<u8>) -> Seq<char> {
    Seq::new(2 * bytes.len(), |i: int| hex_char_lower(hex_digit_at(bytes, i)))
}

/// Two upper-case hexadecimal characters per byte, in order.
pub open spec fn hex_upper(bytes: Seq<u8>) -> Seq<char> {
    Seq::new(2 * bytes.len(), |i: int| hex_char_upper(hex_digit_at(bytes, i)))
}

/// The value of a hexadecimal character of either case, if it is one.
pub open spec fn hex_value(c: char) -> Option<int> {
    let code = c as int;
    if 48 <= code <= 57 {
        Some(code - 48)
    } else if 97 <= code <= 102 {
        Some(code - 87)
    } else if 65 <= code <= 70 {
        Some(code - 55)
    } else {
        None
    }
}

/// Whether `text` is an even number of hexadecimal characters.
pub open spec fn is_hex_text(text: Seq<char>) -> bool {
    &&& text.len() % 2 == 0
    &&& forall|i: int| 0 <= i < text.len() ==> (#[trigger] hex_value(text[i])) is Some
}

/// The bytes that a hexadecimal text stands for, two characters per byte.
pub open spec fn hex_bytes(text: Seq<char>) -> Seq<u8> {
    Seq::new(
        text.len() / 2,
        |i: int| (16 * hex_value(text[2 * i])->0 + hex_value(text[2 * i + 1])->0) as u8,
    )
}

/// The decimal digits of `n`, most significant first, with no leading zero
/// but for zero itself.
pub open spec fn decimal(n: nat) -> Seq<char>
    decreases n,
{
    if n < 10 {
        seq![digit_char(n as int)]
    } else {
        decimal(n / 10).push(digit_char((n % 10) as int))
    }
}

/// Decoding undoes lower-case encoding, and what encoding gives always
/// decodes.
pub proof fn lemma_hex_lower_round_trip(bytes: Seq<u8>)
    ensures
        is_hex_text(hex_lower(bytes)),
        hex_bytes(hex_lower(bytes)) == bytes,
{
    let text = hex_lower(bytes);
    assert forall|i: int| 0 <= i < text.len() implies (#[trigger] hex_value(text[i])) is Some by {
        let n = hex_digit_at(bytes, i);
        assert(0 <= n < 16);
    }
    assert forall|i: int| 0 <= i < bytes.len() implies hex_bytes(text)[i] == bytes[i] by {
        assert(hex_digit_at(bytes, 2 * i) == bytes[i] as int / 16);
        assert(hex_digit_at(bytes, 2 * i + 1) == bytes[i] as int % 16);
        assert(hex_value(text[2 * i]) == Some(bytes[i] as int / 16));
        assert(hex_value(text[2 * i + 1]) == Some(bytes[i] as int % 16));
    }
    assert(hex_bytes(text) =~= bytes);
}

/// Two byte strings with the same lower-case hexadecimal text are equal.
pub proof fn lemma_hex_lower_injective(a: Seq<u8>, b: Seq<u8>)
    requires
        hex_lower(a) == hex_lower(b),
    ensures
        a == b,
{
    lemma_hex_lower_round_trip(a);
    lemma_hex_lower_round_trip(b);
}

/// Decoding undoes upper-case encoding, and what encoding gives always
/// decodes.
pub proof fn lemma_hex_upper_round_trip(bytes: Seq<u8>)
    ensures
        is_hex_text(hex_upper(bytes)),
        hex_bytes(hex_upper(bytes)) == bytes,
{
    let text = hex_upper(bytes);
    assert forall|i: int| 0 <= i < text.len() implies (#[trigger] hex_value(text[i])) is Some by {
        let n = hex_digit_at(bytes, i);
        assert(0 <= n < 16);
    }
    assert forall|i: int| 0 <= i < bytes.len() implies hex_bytes(text)[i] == bytes[i] by {
        assert(hex_digit_at(bytes, 2 * i) == bytes[i] as int / 16);
        assert(hex_digit_at(bytes, 2 * i + 1) == bytes[i] as int % 16);
        assert(hex_value(text[2 * i]) == Some(bytes[i] as int / 16));
        assert(hex_value(text[2 * i + 1]) == Some(bytes[i] as int % 16));
    }
    assert(hex_bytes(text) =~= bytes);
}

/// Two byte strings with the same upper-case hexadecimal text are equal.
pub proof fn lemma_hex_upper_injective(a: Seq<u8>, b: Seq<u8>)
    requires
        hex_upper(a) == hex_upper(b),
    ensures
        a == b,
{
    lemma_hex_upper_round_trip(a);
    lemma_hex_upper_round_trip(b);
}

/// Every character of a lower-case hexadecimal text is ASCII.
pub proof fn lemma_hex_lower_is_ascii(bytes: Seq<u8>)
    ensures
        vstd::utf8::is_ascii_chars(hex_lower(bytes)),
{
    let text = hex_lower(bytes);
    assert forall|i: int| 0 <= i < text.len() implies (text[i] as nat) < 128 by {
        let n = hex_digit_at(bytes, i);
        assert(0 <= n < 16);
    }
}

/// The one-character text of a hexadecimal digit, in lower case.
fn lower_digit(n: u8) -> (s: &'static str)
    requires
        n < 16,
    ensures
        s@ == seq![hex_char_lower(n as int)],
{
    proof {
        reveal_strlit("0");
        reveal_strlit("1");
        reveal_strlit("2");
        reveal_strlit("3");
        reveal_strlit("4");
        reveal_strlit("5");
        reveal_strlit("6");
        reveal_strlit("7");
        reveal_strlit("8");
        reveal_strlit("9");
        reveal_strlit("a");
        reveal_strlit("b");
        reveal_strlit("c");
        reveal_strlit("d");
        reveal_strlit("e");
        reveal_strlit("f");
    }
    let s = match n {
        0 => "0",
        1 => "1",
        2 => "2",
        3 => "3",
        4 => "4",
        5 => "5",
        6 => "6",
        7 => "7",
        8 => "8",
        9 => "9",
        10 => "a",
        11 => "b",
        12 => "c",
        13 => "d",
        14 => "e",
        _ => "f",
    };
    assert(s@ =~= seq![hex_char_lower(n as int)]);
    s
}

/// The one-character text of a hexadecimal digit, in upper case.
fn upper_digit(n: u8) -> (s: &'static str)
    requires
        n < 16,
    ensures
        s@ == seq![hex_char_upper(n as int)],
{
    proof {
        reveal_strlit("0");
        reveal_strlit("1");
        reveal_strlit("2");
        reveal_strlit("3");
        reveal_strlit("4");
        reveal_strlit("5");
        reveal_strlit("6");
        reveal_strlit("7");
        reveal_strlit("8");
        reveal_strlit("9");
        reveal_strlit("A");
        reveal_strlit("B");
        reveal_strlit("C");
        reveal_strlit("D");
        reveal_strlit("E");
        reveal_strlit("F");
    }
    let s = match n {
        0 => "0",
        1 => "1",
        2 => "2",
        3 => "3",
        4 => "4",
        5 => "5",
        6 => "6",
        7 => "7",
        8 => "8",
        9 => "9",
        10 => "A",
        11 => "B",
        12 => "C",
        13 => "D",
        14 => "E",
        _ => "F",
    };
    assert(s@ =~= seq![hex_char_upper(n as int)]);
    s
}

/// The error of the `hex` crate's decoder.
#[verifier::external_type_specification]
#[verifier::external_body]
pub struct ExFromHexError(hex::FromHexError);

/// `hex::decode`: succeeds exactly on an even number of hexadecimal
/// characters of either case, and then gives one byte for each pair of
/// them, the first of a pair being the high half.
#[verifier::external_body]
pub(crate) fn hex_decode(text: &str) -> (r: Result<Vec<u8>, hex::FromHexError>)
    ensures
        r is Ok <==> is_hex_text(text@),
        r matches Ok(bytes) ==> bytes@ == hex_bytes(text@),
{
    hex::decode(text)
}

/// The Base64 text of `bytes`: standard alphabet, padded.
pub uninterp spec fn base64_text(bytes: Seq<u8>) -> Seq<char>;

/// `cosmwasm_std::Binary::to_base64`: the Base64 text of `bytes`.
#[verifier::external_body]
pub(crate) fn to_base64(bytes: &[u8]) -> (text: String)
    ensures
        text@ == base64_text(bytes@),
{
    cosmwasm_std::Binary::from(bytes).to_base64()
}

/// The bytes of the JSON string that holds `text`.
pub uninterp spec fn json_string(text: Seq<char>) -> Seq<u8>;

/// `cosmwasm_std::to_json_binary` on a text: it succeeds, and gives the
/// bytes of the JSON string that holds the text.
#[verifier::external_body]
pub(crate) fn to_json_binary(text: &str) -> (r: Option<Vec<u8>>)
    ensures
        r is Some,
        r matches Some(bytes) ==> bytes@ == json_string(text@),
{
    cosmwasm_std::to_json_binary(text).ok().map(Vec::from)
}

/// The one-character text of a decimal digit.
pub fn decimal_digit(d: u8) -> (s: &'static str)
    requires
        d < 10,
    ensures
        s@ == seq![digit_char(d as int)],
{
    let s = lower_digit(d);
    assert(s@ =~= seq![digit_char(d as int)]);
    s
}

/// Writes `bytes` as lower-case hexadecimal text.
pub fn to_hex_lower(bytes: &[u8]) -> (text: String)
    ensures
        text@ == hex_lower(bytes@),
{
    let mut text = String::new();
    let mut i: usize = 0;
    while i < bytes.len()
        invariant
            i <= bytes.len(),
            text@ == hex_lower(bytes@).subrange(0, 2 * i),
        decreases bytes.len() - i,
    {
        let b: u8 = bytes[i];
        text.append(lower_digit(b / 16));
        text.append(lower_digit(b % 16));
        proof {
            assert(hex_digit_at(bytes@, 2 * i) == b as int / 16);
            assert(hex_digit_at(bytes@, 2 * i + 1) == b as int % 16);
            assert(text@ =~= hex_lower(bytes@).subrange(0, 2 * (i + 1)));
        }
        i += 1;
    }
    assert(text@ =~= hex_lower(bytes@));
    text
}

/// Writes `bytes` as upper-case hexadecimal text.
pub fn to_hex_upper(bytes: &[u8]) -> (text: String)
    ensures
        text@ == hex_upper(bytes@),
{
    let mut text = String::new();
    let mut i: usize = 0;
    while i < bytes.len()
        invariant
            i <= bytes.len(),
            text@ == hex_upper(bytes@).subrange(0, 2 * i),
        decreases bytes.len() - i,
    {
        let b: u8 = bytes[i];
        text.append(upper_digit(b / 16));
        text.append(upper_digit(b % 16));
        proof {
            assert(hex_digit_at(bytes@, 2 * i) == b as int / 16);
            assert(hex_digit_at(bytes@, 2 * i + 1) == b as int % 16);
            assert(text@ =~= hex_upper(bytes@).subrange(0, 2 * (i + 1)));
        }
        i += 1;
    }
    assert(text@ =~= hex_upper(bytes@));
    text
}

} // verus!
