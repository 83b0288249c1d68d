//! Hexadecimal text: what crosses into the page is hex, and what a dapp sends as
//! data or as a quantity is `0x`-prefixed hex.
//!
//! A hex string holds no character that could end a string literal or a tag in
//! the page, which is why every response and every event is encoded so.

use crate::error::{invalid_params, Error, ErrorView};
use vstd::prelude::*;
use vstd::std_specs::iter::IteratorSpec;
use vstd::string::*;

verus! {

/// A hex digit, in either case.
pub open spec fn is_hex_char(c: char) -> bool {
    ('0' <= c && c <= '9') || ('a' <= c && c <= 'f') || ('A' <= c && c <= 'F')
}

/// A digit that hex encoding writes: lower case only.
pub open spec fn is_lower_hex_char(c: char) -> bool {
    ('0' <= c && c <= '9') || ('a' <= c && c <= 'f')
}

/// What a hex digit counts for.
pub open spec fn hex_char_value(c: char) -> nat {
    if '0' <= c && c <= '9' {
        (c as nat - '0' as nat) as nat
    } else if 'a' <= c && c <= 'f' {
        (c as nat - 'a' as nat + 10) as nat
    } else if 'A' <= c && c <= 'F' {
        (c as nat - 'A' as nat + 10) as nat
    } else {
        0
    }
}

/// The lower-case digit for a value below sixteen.
pub open spec fn lower_hex_digit(value: nat) -> char {
    if value == 0 {
        '0'
    } else if value == 1 {
        '1'
    } else if value == 2 {
        '2'
    } else if value == 3 {
        '3'
    } else if value == 4 {
        '4'
    } else if value == 5 {
        '5'
    } else if value == 6 {
        '6'
    } else if value == 7 {
        '7'
    } else if value == 8 {
        '8'
    } else if value == 9 {
        '9'
    } else if value == 10 {
        'a'
    } else if value == 11 {
        'b'
    } else if value == 12 {
        'c'
    } else if value == 13 {
        'd'
    } else if value == 14 {
        'e'
    } else {
        'f'
    }
}

pub open spec fn all_hex(text: Seq<char>) -> bool {
    forall|i: int| 0 <= i < text.len() ==> is_hex_char(#[trigger] text[i])
}

pub open spec fn all_lower_hex(text: Seq<char>) -> bool {
    forall|i: int| 0 <= i < text.len() ==> is_lower_hex_char(#[trigger] text[i])
}

/// Two lower-case digits for each byte, the high half first.
pub open spec fn hex_encode(bytes: Seq<u8>) -> Seq<char> {
    Seq::new(
        2 * bytes.len(),
        |i: int|
            if i % 2 == 0 {
                lower_hex_digit((bytes[i / 2] / 16) as nat)
            } else {
                lower_hex_digit((bytes[i / 2] % 16) as nat)
            },
    )
}

/// The bytes that an even number of hex digits stand for; nothing otherwise.
pub open spec fn hex_decode(text: Seq<char>) -> Option<Seq<u8>> {
    if text.len() % 2 == 0 && all_hex(text) {
        Some(
            Seq::new(
                text.len() / 2,
                |i: int| (16 * hex_char_value(text[2 * i]) + hex_char_value(text[2 * i + 1])) as u8,
            ),
        )
    } else {
        None
    }
}

/// The number that a run of hex digits stands for, the first digit counting most.
pub open spec fn hex_value(digits: Seq<char>) -> nat
    decreases digits.len(),
{
    if digits.len() == 0 {
        0
    } else {
        16 * hex_value(digits.drop_last()) + hex_char_value(digits.last())
    }
}

/// The digits of a number, without leading zeros; `0` for zero.
pub open spec fn hex_digits(number: nat) -> Seq<char>
    decreases number,
{
    if number < 16 {
        seq![lower_hex_digit(number)]
    } else {
        hex_digits(number / 16).push(lower_hex_digit(number % 16))
    }
}

/// A quantity as Ethereum's JSON-RPC writes it: `0x` and the digits without
/// leading zeros.
pub open spec fn hex_quantity(number: nat) -> Seq<char> {
    seq!['0', 'x'] + hex_digits(number)
}

pub open spec fn has_0x_prefix(text: Seq<char>) -> bool {
    text.len() >= 2 && text[0] == '0' && text[1] == 'x'
}

/// The text behind a `0x` prefix, or the whole of it where there is none.
pub open spec fn without_0x_prefix(text: Seq<char>) -> Seq<char> {
    if has_0x_prefix(text) {
        text.subrange(2, text.len() as int)
    } else {
        text
    }
}

/// A number of 64 bits read from hex digits: at most sixteen of them, in either
/// case, behind a `0x` prefix or without one. No digits at all read as zero.
pub open spec fn parse_hex_u64(text: Seq<char>) -> Option<u64> {
    let digits = without_0x_prefix(text);
    if digits.len() <= 16 && all_hex(digits) {
        Some(hex_value(digits) as u64)
    } else {
        None
    }
}

/// `hex::encode`: each byte becomes two digits out of `0123456789abcdef`, the high
/// half first, in the order of the bytes.
#[verifier::external_body]
pub(crate) fn hex_encode_bytes(bytes: &[u8]) -> (text: String)
    ensures
        text@ == hex_encode(bytes@),
{
    hex::encode(bytes)
}

/// `hex::decode`: it fails on an odd number of bytes and on any byte that is no hex
/// digit (so on every character outside ASCII), and otherwise gives one byte for
/// each pair of digits, upper and lower case alike. Which of its errors it was is
/// dropped.
#[verifier::external_body]
pub(crate) fn hex_decode_text(text: &str) -> (bytes: Option<Vec<u8>>)
    ensures
        match bytes {
            Some(decoded) => hex_decode(text@) == Some(decoded@),
            None => hex_decode(text@) is None,
        },
{
    hex::decode(text).ok()
}

/// `U64::from_str_radix` of ethers with radix 16, and `as_u64` on what it gives,
/// which for one word cannot overflow. The parser drops one `0x` prefix of its
/// own, refuses more than sixteen bytes and anything that is no hex digit, pads
/// an odd number of digits with a zero in front, and reads the digits big-endian.
/// Which of its errors it was is dropped.
#[verifier::external_body]
pub(crate) fn parse_hex_quantity(digits: &str) -> (number: Option<u64>)
    ensures
        number == parse_hex_u64(digits@),
{
    ethers::core::types::U64::from_str_radix(digits, 16).ok().map(|number| number.as_u64())
}

/// `serde_json::to_value` on a `U64` of ethers, and the string inside the value:
/// the serializer writes `0x` and the lower-case digits of the number without
/// leading zeros, `0x0` for zero, and it writes a string for every number.
#[verifier::external_body]
pub(crate) fn hex_quantity_text(number: u64) -> (text: Option<String>)
    ensures
        text is Some,
        text->0@ == hex_quantity(number as nat),
{
    match serde_json::to_value(ethers::core::types::U64::from(number)) {
        Ok(serde_json::Value::String(written)) => Some(written),
        _ => None,
    }
}

/// Whether two strings hold the same characters.
pub fn str_eq(a: &str, b: &str) -> (same: bool)
    ensures
        same == (a@ == b@),
{
    a.to_owned() == b.to_owned()
}

/// Takes the `0x` off the front of a hex string that a dapp sent.
pub fn strip_0x_hex_prefix(s: &str) -> (stripped: Result<&str, Error>)
    ensures
        match stripped {
            Ok(rest) => has_0x_prefix(s@) && rest@ == s@.subrange(2, s@.len() as int),
            Err(error) => !has_0x_prefix(s@) && error@ == invalid_params("Message must start with 0x"@),
        },
{
    let length: usize = s.unicode_len();
    if length >= 2 && s.get_char(0) == '0' && s.get_char(1) == 'x' {
        Ok(s.substring_char(2, length))
    } else {
        Err(Error::invalid_params("Message must start with 0x"))
    }
}

/// What [`decode_0x_hex_prefix`] gives for a text.
pub open spec fn decode_0x_hex(text: Seq<char>) -> Result<Seq<u8>, ErrorView> {
    if !has_0x_prefix(text) {
        Err(invalid_params("Message must start with 0x"@))
    } else {
        match hex_decode(text.subrange(2, text.len() as int)) {
            Some(bytes) => Ok(bytes),
            None => Err(invalid_params("Invalid hex"@)),
        }
    }
}

/// The bytes of a `0x`-prefixed hex string.
pub fn decode_0x_hex_prefix(s: &str) -> (decoded: Result<Vec<u8>, Error>)
    ensures
        match decoded {
            Ok(bytes) => decode_0x_hex(s@) == Ok::<Seq<u8>, ErrorView>(bytes@),
            Err(error) => decode_0x_hex(s@) == Err::<Seq<u8>, ErrorView>(error@),
        },
{
    let digits = strip_0x_hex_prefix(s)?;
    match hex_decode_text(digits) {
        Some(bytes) => Ok(bytes),
        None => Err(Error::invalid_params("Invalid hex")),
    }
}

/// The text that crosses into the page for a response or an event: the hex of
/// its UTF-8 bytes.
pub open spec fn hex_of_text(text: Seq<char>) -> Seq<char> {
    hex_encode(vstd::utf8::encode_utf8(text))
}

/// Encodes a text for the page.
pub fn hex_encode_str(text: &str) -> (encoded: String)
    ensures
        encoded@ == hex_of_text(text@),
        all_lower_hex(encoded@),
{
    let encoded = hex_encode_bytes(text.as_bytes());
    proof {
        lemma_hex_encode_is_lower_hex(text.spec_bytes());
    }
    encoded
}

/// Hex encoding writes lower-case hex digits and nothing else: no quote, no
/// bracket, no backslash can stand in what crosses into the page.
pub proof fn lemma_hex_encode_is_lower_hex(bytes: Seq<u8>)
    ensures
        hex_encode(bytes).len() == 2 * bytes.len(),
        all_lower_hex(hex_encode(bytes)),
        all_hex(hex_encode(bytes)),
{
    let text = hex_encode(bytes);
    assert forall|i: int| 0 <= i < text.len() implies is_lower_hex_char(#[trigger] text[i]) by {
        let byte = bytes[i / 2];
        assert(0 <= byte / 16 < 16 && 0 <= byte % 16 < 16);
    }
    assert forall|i: int| 0 <= i < text.len() implies is_hex_char(#[trigger] text[i]) by {
        assert(is_lower_hex_char(text[i]));
    }
}

/// A lower-case digit counts for the value it was written for.
pub proof fn lemma_lower_hex_digit_value(value: nat)
    requires
        value < 16,
    ensures
        is_lower_hex_char(lower_hex_digit(value)),
        is_hex_char(lower_hex_digit(value)),
        hex_char_value(lower_hex_digit(value)) == value,
        lower_hex_digit(value) != 'x',
{
}

/// Decoding what was encoded gives the bytes back: the page can read every
/// response and event.
pub proof fn lemma_hex_decode_encode(bytes: Seq<u8>)
    ensures
        hex_decode(hex_encode(bytes)) == Some(bytes),
{
    lemma_hex_encode_is_lower_hex(bytes);
    let text = hex_encode(bytes);
    let decoded = hex_decode(text)->0;
    assert(decoded.len() == bytes.len());
    assert forall|i: int| 0 <= i < bytes.len() implies decoded[i] == bytes[i] by {
        let byte = bytes[i];
        assert(text[2 * i] == lower_hex_digit((byte / 16) as nat));
        assert(text[2 * i + 1] == lower_hex_digit((byte % 16) as nat));
        lemma_lower_hex_digit_value((byte / 16) as nat);
        lemma_lower_hex_digit_value((byte % 16) as nat);
        assert(16 * (byte / 16) + byte % 16 == byte);
    }
    assert(decoded =~= bytes);
}

/// The characters of a text.
pub fn chars_of(text: &str) -> (chars: Vec<char>)
    ensures
        chars@ == text@,
{
    broadcast use vstd::string::group_string_axioms;

    let mut rest = text.chars();
    let mut chars: Vec<char> = Vec::new();
    loop
        invariant
            chars@ + rest.remaining() == text@,
        decreases text@.len() - chars@.len(),
    {
        let ghost before = rest.remaining();
        match rest.next() {
            Some(c) => {
                assert(chars@.push(c) + before.drop_first() =~= chars@ + before);
                chars.push(c);
            },
            None => {
                assert(chars@ + before =~= chars@);
                return chars;
            },
        }
    }
}

/// Whether a text is lower-case hex and nothing else.
pub fn is_lower_hex(text: &str) -> (hex: bool)
    ensures
        hex == all_lower_hex(text@),
{
    let chars = chars_of(text);
    let mut i: usize = 0;
    while i < chars.len()
        invariant
            i <= chars@.len(),
            chars@ == text@,
            forall|j: int| 0 <= j < i ==> is_lower_hex_char(#[trigger] chars@[j]),
        decreases chars@.len() - i,
    {
        let c = chars[i];
        if !((c >= '0' && c <= '9') || (c >= 'a' && c <= 'f')) {
            assert(!is_lower_hex_char(text@[i as int]));
            return false;
        }
        i = i + 1;
    }
    true
}

} // verus!
