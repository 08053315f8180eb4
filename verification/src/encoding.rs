//! Text encodings that the bearer token is made of: decimal numbers,
//! hexadecimal, base64 and UTF-8.
//!
//! Text is handled as bytes throughout. Decimal numbers are read and written
//! here; hexadecimal and base64 are left to the `hex` and `base64` crates.

use vstd::prelude::*;
use vstd::string::{StringExecFns, StrSliceExecFns};
use vstd::utf8::{
    encode_utf8, is_leading_byte_width_1, partial_valid_utf8,
    partial_valid_utf8_extend_ascii_block, valid_utf8,
};
use base64::Engine;

verus! {

/// `byte` is an ASCII decimal digit.
pub open spec fn is_digit(byte: u8) -> bool {
    0x30 <= byte <= 0x39
}

/// Every byte of `text` is an ASCII decimal digit.
pub open spec fn all_digits(text: Seq<u8>) -> bool {
    forall|i: int| 0 <= i < text.len() ==> is_digit(#[trigger] text[i])
}

/// The number that one digit stands for; zero for any other byte.
pub open spec fn digit_value(byte: u8) -> nat {
    if is_digit(byte) {
        (byte - 0x30) as nat
    } else {
        0
    }
}

/// The number that a run of decimal digits stands for.
pub open spec fn decimal_value(digits: Seq<u8>) -> nat
    decreases digits.len(),
{
    if digits.len() == 0 {
        0
    } else {
        decimal_value(digits.drop_last()) * 10 + digit_value(digits.last())
    }
}

/// `text` without the plus sign that may stand in front of a number.
pub open spec fn without_plus_sign(text: Seq<u8>) -> Seq<u8> {
    if text.len() > 0 && text[0] == 0x2b {
        text.skip(1)
    } else {
        text
    }
}

/// The number that `text` denotes: an optional plus sign, then one or more
/// decimal digits, the whole no greater than `u64::MAX`. Anything else
/// denotes no number.
pub open spec fn parsed_u64(text: Seq<u8>) -> Option<u64> {
    let digits = without_plus_sign(text);
    if digits.len() > 0 && all_digits(digits) && decimal_value(digits) <= u64::MAX {
        Some(decimal_value(digits) as u64)
    } else {
        None
    }
}

/// A run of digits stands for at least as much as any of its prefixes.
proof fn lemma_prefix_value(digits: Seq<u8>, k: int)
    requires
        0 <= k <= digits.len(),
    ensures
        decimal_value(digits.take(k)) <= decimal_value(digits),
    decreases digits.len() - k,
{
    if k == digits.len() {
        assert(digits.take(k) =~= digits);
    } else {
        lemma_prefix_value(digits, k + 1);
        assert(digits.take(k + 1).drop_last() =~= digits.take(k));
    }
}

/// Reads a decimal number as `str::parse::<u64>` does.
pub fn parse_u64(text: &[u8]) -> (number: Option<u64>)
    ensures
        number == parsed_u64(text@),
{
    let start: usize = if text.len() > 0 && text[0] == 0x2b {
        1
    } else {
        0
    };
    let ghost digits = without_plus_sign(text@);
    assert(digits =~= text@.skip(start as int));
    if start == text.len() {
        return None;
    }
    let mut value: u64 = 0;
    let mut i: usize = start;
    assert(digits.take(0) =~= Seq::<u8>::empty());
    while i < text.len()
        invariant
            start <= i <= text.len(),
            digits == text@.skip(start as int),
            digits == without_plus_sign(text@),
            all_digits(digits.take(i - start)),
            value == decimal_value(digits.take(i - start)),
        decreases text.len() - i,
    {
        let byte: u8 = text[i];
        let ghost longer = digits.take(i - start + 1);
        assert(longer.drop_last() =~= digits.take(i - start));
        assert(longer.last() == byte);
        if byte < 0x30 || byte > 0x39 {
            assert(!is_digit(digits[i - start]));
            return None;
        }
        let digit: u64 = (byte - 0x30) as u64;
        proof {
            lemma_prefix_value(digits, i - start + 1);
            assert(decimal_value(longer) == value * 10 + digit);
        }
        let tenfold: u64 = match value.checked_mul(10) {
            Some(tenfold) => tenfold,
            None => {
                return None;
            },
        };
        value =
        match tenfold.checked_add(digit) {
            Some(sum) => sum,
            None => {
                return None;
            },
        };
        assert forall|j: int| 0 <= j < longer.len() implies is_digit(#[trigger] longer[j]) by {
            if j < longer.len() - 1 {
                assert(longer[j] == digits.take(i - start)[j]);
            }
        }
        i += 1;
    }
    assert(digits.take(i - start) =~= digits);
    Some(value)
}

/// The decimal digits of `number`, without sign or leading zeros.
pub open spec fn decimal_text(number: nat) -> Seq<u8>
    decreases number,
{
    if number < 10 {
        seq![(0x30 + number) as u8]
    } else {
        decimal_text(number / 10).push((0x30 + number % 10) as u8)
    }
}

/// Writes a number in decimal digits.
pub fn format_u64(number: u64) -> (text: Vec<u8>)
    ensures
        text@ == decimal_text(number as nat),
    decreases number,
{
    if number < 10 {
        let mut text: Vec<u8> = Vec::new();
        text.push(0x30 + number as u8);
        assert(text@ =~= decimal_text(number as nat));
        text
    } else {
        let mut text = format_u64(number / 10);
        text.push(0x30 + (number % 10) as u8);
        text
    }
}

/// What `decimal_text` writes is a run of digits that stands for the number
/// written.
pub proof fn lemma_decimal_text_value(number: nat)
    ensures
        decimal_text(number).len() > 0,
        all_digits(decimal_text(number)),
        decimal_value(decimal_text(number)) == number,
    decreases number,
{
    let text = decimal_text(number);
    if number < 10 {
        assert(text.drop_last() =~= Seq::<u8>::empty());
        assert(decimal_value(text.drop_last()) == 0);
        assert(digit_value(text.last()) == number);
    } else {
        lemma_decimal_text_value(number / 10);
        assert(text.drop_last() =~= decimal_text(number / 10));
        assert(digit_value(text.last()) == number % 10);
        assert(decimal_value(text) == (number / 10) * 10 + number % 10);
        assert forall|i: int| 0 <= i < text.len() implies is_digit(#[trigger] text[i]) by {
            if i < text.len() - 1 {
                assert(text[i] == decimal_text(number / 10)[i]);
            }
        }
    }
}

/// The character of a decimal digit.
pub open spec fn digit_char(digit: nat) -> char {
    (0x30 + digit) as char
}

/// The decimal digits of `number` as characters.
pub open spec fn decimal_chars(number: nat) -> Seq<char>
    decreases number,
{
    if number < 10 {
        seq![digit_char(number)]
    } else {
        decimal_chars(number / 10).push(digit_char(number % 10))
    }
}

/// Writes a number in decimal digits, as text.
pub fn decimal_string(number: u64) -> (text: String)
    ensures
        text@ == decimal_chars(number as nat),
    decreases number,
{
    let digits: &'static str = "0123456789";
    proof {
        reveal_strlit("0123456789");
    }
    let last: usize = (number % 10) as usize;
    let digit: &str = digits.substring_char(last, last + 1);
    assert(digit@ =~= seq![digit_char((number % 10) as nat)]);
    if number < 10 {
        String::from_str(digit)
    } else {
        let mut text = decimal_string(number / 10);
        text.append(digit);
        text
    }
}

/// Ten to the power of `exponent`.
pub open spec fn power_of_ten(exponent: nat) -> nat
    decreases exponent,
{
    if exponent == 0 {
        1
    } else {
        10 * power_of_ten((exponent - 1) as nat)
    }
}

/// A number below ten to the power of `width` is written in at most `width`
/// digits.
pub proof fn lemma_decimal_text_len(number: nat, width: nat)
    requires
        width >= 1,
        number < power_of_ten(width),
    ensures
        decimal_text(number).len() <= width,
    decreases number,
{
    if number >= 10 {
        assert(width >= 2) by {
            assert(power_of_ten(1) == 10) by {
                assert(power_of_ten(0) == 1);
            }
        }
        lemma_decimal_text_len(number / 10, (width - 1) as nat);
    }
}

/// A `u64` is written in at most twenty digits.
pub proof fn lemma_u64_text_len(number: u64)
    ensures
        1 <= decimal_text(number as nat).len() <= 20,
{
    reveal_with_fuel(power_of_ten, 21);
    assert(power_of_ten(20) == 100_000_000_000_000_000_000);
    lemma_decimal_text_len(number as nat, 20);
    lemma_decimal_text_value(number as nat);
}

/// Reading what was written gives the number back.
pub proof fn lemma_decimal_round_trip(number: u64)
    ensures
        parsed_u64(decimal_text(number as nat)) == Some(number),
{
    lemma_decimal_text_value(number as nat);
    assert(is_digit(decimal_text(number as nat)[0]));
}

/// The lower-case hexadecimal digit of a value below sixteen.
pub open spec fn hex_digit(nibble: int) -> u8 {
    if nibble < 10 {
        (0x30 + nibble) as u8
    } else {
        (0x61 + nibble - 10) as u8
    }
}

/// `bytes` in hexadecimal: two lower-case digits for each byte, the high
/// half first.
pub open spec fn hex_encoded(bytes: Seq<u8>) -> Seq<u8> {
    Seq::new(
        2 * bytes.len(),
        |i: int|
            if i % 2 == 0 {
                hex_digit(bytes[i / 2] as int / 16)
            } else {
                hex_digit(bytes[i / 2] as int % 16)
            },
    )
}

/// The value of a hexadecimal digit of either case.
pub open spec fn hex_nibble(digit: u8) -> Option<int> {
    if 0x30 <= digit <= 0x39 {
        Some(digit - 0x30)
    } else if 0x61 <= digit <= 0x66 {
        Some(digit - 0x61 + 10)
    } else if 0x41 <= digit <= 0x46 {
        Some(digit - 0x41 + 10)
    } else {
        None
    }
}

/// `text` is an even number of hexadecimal digits.
pub open spec fn is_hex_text(text: Seq<u8>) -> bool {
    &&& text.len() % 2 == 0
    &&& forall|i: int| 0 <= i < text.len() ==> hex_nibble(#[trigger] text[i]) is Some
}

/// The bytes that `text` denotes in hexadecimal, if it is hexadecimal.
pub open spec fn hex_decoded(text: Seq<u8>) -> Option<Seq<u8>> {
    if is_hex_text(text) {
        Some(
            Seq::new(
                text.len() / 2,
                |i: int| (hex_nibble(text[2 * i])->0 * 16 + hex_nibble(text[2 * i + 1])->0) as u8,
            ),
        )
    } else {
        None
    }
}

/// Decoding what was encoded gives the bytes back.
pub proof fn lemma_hex_round_trip(bytes: Seq<u8>)
    ensures
        hex_decoded(hex_encoded(bytes)) == Some(bytes),
{
    let text = hex_encoded(bytes);
    assert forall|i: int| 0 <= i < text.len() implies hex_nibble(#[trigger] text[i]) is Some by {
        let byte = bytes[i / 2];
        assert(0 <= byte as int / 16 < 16);
        assert(0 <= byte as int % 16 < 16);
    }
    assert(is_hex_text(text));
    let back = hex_decoded(text)->0;
    assert forall|i: int| 0 <= i < bytes.len() implies back[i] == bytes[i] by {
        let byte = bytes[i];
        assert((2 * i) / 2 == i && (2 * i) % 2 == 0);
        assert((2 * i + 1) / 2 == i && (2 * i + 1) % 2 == 1);
        assert(text[2 * i] == hex_digit(byte as int / 16));
        assert(text[2 * i + 1] == hex_digit(byte as int % 16));
        assert(hex_nibble(hex_digit(byte as int / 16)) == Some(byte as int / 16));
        assert(hex_nibble(hex_digit(byte as int % 16)) == Some(byte as int % 16));
    }
    assert(back =~= bytes);
}

/// Hexadecimal text is ASCII.
pub proof fn lemma_hex_encoded_ascii(bytes: Seq<u8>)
    ensures
        hex_encoded(bytes).len() == 2 * bytes.len(),
        forall|i: int|
            0 <= i < hex_encoded(bytes).len() ==> 0x30 <= #[trigger] hex_encoded(bytes)[i] <= 0x66,
{
    let text = hex_encoded(bytes);
    assert forall|i: int| 0 <= i < text.len() implies 0x30 <= #[trigger] text[i] <= 0x66 by {
        let byte = bytes[i / 2];
        assert(0 <= byte as int / 16 < 16);
        assert(0 <= byte as int % 16 < 16);
    }
}

/// Bytes below 0x80 are UTF-8.
pub proof fn lemma_ascii_is_utf8(bytes: Seq<u8>)
    requires
        forall|i: int| 0 <= i < bytes.len() ==> #[trigger] bytes[i] < 0x80,
    ensures
        valid_utf8(bytes),
{
    assert(bytes.subrange(0, 0) =~= Seq::<u8>::empty());
    assert(partial_valid_utf8(bytes, 0));
    assert forall|i: int| 0 <= i < bytes.len() implies #[trigger] is_leading_byte_width_1(
        bytes[i],
    ) by {
        assert(bytes[i] < 0x80);
    }
    partial_valid_utf8_extend_ascii_block(bytes, 0, bytes.len() as int);
    assert(bytes.subrange(0, bytes.len() as int) =~= bytes);
}

/// The error of `hex::decode`, carried through as it is.
#[verifier::external_type_specification]
#[verifier::external_body]
pub struct ExFromHexError(hex::FromHexError);

/// The error of the `base64` decoder, carried through as it is.
#[verifier::external_type_specification]
#[verifier::external_body]
pub struct ExDecodeError(base64::DecodeError);

/// `hex::encode`: two lower-case hexadecimal digits for each byte.
#[verifier::external_body]
pub(crate) fn hex_encode(bytes: &[u8]) -> (text: Vec<u8>)
    ensures
        text@ == hex_encoded(bytes@),
{
    hex::encode(bytes).into_bytes()
}

/// `hex::decode`: succeeds on an even number of hexadecimal digits of either
/// case, and then gives the byte that each pair of digits denotes.
#[verifier::external_body]
pub(crate) fn hex_decode(text: &[u8]) -> (decoded: Result<Vec<u8>, hex::FromHexError>)
    ensures
        decoded is Ok <==> hex_decoded(text@) is Some,
        decoded matches Ok(bytes) ==> hex_decoded(text@) == Some(bytes@),
{
    hex::decode(text)
}

/// What the standard base64 engine of the `base64` crate, with padding,
/// encodes `bytes` to.
pub uninterp spec fn base64_encoding(bytes: Seq<u8>) -> Seq<char>;

/// What the standard base64 engine of the `base64` crate, with padding,
/// decodes `text` to; `None` where it rejects `text`.
pub uninterp spec fn base64_decoding(text: Seq<u8>) -> Option<Seq<u8>>;

/// Largest input that `base64_encode` takes: its encoding still has a length
/// that fits in `usize`.
pub const BASE64_MAX_INPUT: usize = 0x3000_0000;

/// `Engine::encode` of `base64::engine::general_purpose::STANDARD`. The
/// contract names the text that comes back, and claims that the same engine
/// decodes that text to `bytes` again.
#[verifier::external_body]
pub(crate) fn base64_encode(bytes: &[u8]) -> (text: String)
    requires
        bytes.len() <= BASE64_MAX_INPUT,
    ensures
        text@ == base64_encoding(bytes@),
        base64_decoding(encode_utf8(text@)) == Some(bytes@),
{
    base64::engine::general_purpose::STANDARD.encode(bytes)
}

/// `Engine::decode` of `base64::engine::general_purpose::STANDARD`. The
/// contract names what comes back.
#[verifier::external_body]
pub(crate) fn base64_decode(text: &[u8]) -> (decoded: Result<Vec<u8>, base64::DecodeError>)
    ensures
        decoded is Ok <==> base64_decoding(text@) is Some,
        decoded matches Ok(bytes) ==> base64_decoding(text@) == Some(bytes@),
{
    base64::engine::general_purpose::STANDARD.decode(text)
}

/// `std::str::from_utf8`: succeeds exactly on well-formed UTF-8.
#[verifier::external_body]
pub(crate) fn is_utf8(bytes: &[u8]) -> (well_formed: bool)
    ensures
        well_formed == valid_utf8(bytes@),
{
    std::str::from_utf8(bytes).is_ok()
}

} // verus!
