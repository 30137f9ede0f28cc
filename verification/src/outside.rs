//! What the library has from other crates and from `std`.
//!
//! Nothing in this file is proved: each item states what its callers may rely
//! on of the function that it calls.
use vstd::prelude::*;
use vstd::utf8::{decode_utf8, valid_utf8};

use crate::number::digit_value;

verus! {

/// One lower-case hexadecimal digit.
pub open spec fn hex_digit(n: nat) -> char {
    if n < 10 {
        (('0' as u32) + n) as char
    } else {
        (('a' as u32) + n - 10) as char
    }
}

/// Two lower-case hexadecimal digits for each byte.
pub open spec fn hex_text(bytes: Seq<u8>) -> Seq<char> {
    Seq::new(
        2 * bytes.len(),
        |i: int|
            if i % 2 == 0 {
                hex_digit((bytes[i / 2] / 16) as nat)
            } else {
                hex_digit((bytes[i / 2] % 16) as nat)
            },
    )
}

/// The bytes that an even number of hexadecimal digits of either case spell.
pub open spec fn hex_bytes(text: Seq<char>) -> Option<Seq<u8>> {
    if text.len() % 2 == 0 && forall|i: int|
        0 <= i < text.len() ==> #[trigger] digit_value(text[i], 16) is Some {
        Some(
            Seq::new(
                text.len() / 2,
                |i: int|
                    (digit_value(text[2 * i], 16).unwrap_or(0) * 16 + digit_value(
                        text[2 * i + 1],
                        16,
                    ).unwrap_or(0)) as u8,
            ),
        )
    } else {
        None
    }
}

/// `hex::encode`: two lower-case digits for each byte, the high one first.
#[verifier::external_body]
pub(crate) fn hex_encode(bytes: &[u8]) -> (r: String)
    ensures
        r@ == hex_text(bytes@),
{
    hex::encode(bytes)
}

/// The words with which `hex::decode` refuses a text.
pub uninterp spec fn hex_refusal(text: Seq<char>) -> Seq<char>;

/// `hex::decode`: the bytes that the text spells; an error where its length is
/// odd or a character is no hexadecimal digit. The error's words are a function
/// of the text alone.
#[verifier::external_body]
pub(crate) fn hex_decode(text: &str) -> (r: Result<Vec<u8>, String>)
    ensures
        match r {
            Ok(bytes) => hex_bytes(text@) == Some(bytes@),
            Err(words) => hex_bytes(text@) is None && words@ == hex_refusal(text@),
        },
{
    hex::decode(text).map_err(|error| error.to_string())
}

/// The SHA-256 digest of some bytes.
pub uninterp spec fn sha256(bytes: Seq<u8>) -> Seq<u8>;

/// `sha2::Sha256::digest`: the digest of the bytes, which is a function of them
/// alone and is 32 bytes long.
#[verifier::external_body]
pub(crate) fn sha256_digest(bytes: &[u8]) -> (r: [u8; 32])
    ensures
        r@ == sha256(bytes@),
{
    <sha2::Sha256 as sha2::Digest>::digest(bytes).into()
}

/// `rand::Rng::fill_bytes` of the generator `rand::rng()`: sixteen random
/// bytes. Nothing is stated of their values.
#[verifier::external_body]
pub(crate) fn random_nonce() -> (r: [u8; 16]) {
    let mut nonce = [0u8; 16];
    rand::Rng::fill_bytes(&mut rand::rng(), &mut nonce);
    nonce
}

/// The form that a pattern gives a Unix time, where it has one.
pub uninterp spec fn calendar(seconds: int, pattern: Seq<char>) -> Option<Seq<char>>;

/// Whether a pattern holds nothing but plain text and the year, month, day, hour,
/// minute and second as numbers.
pub open spec fn plain_pattern(pattern: Seq<char>) -> bool {
    forall|i: int|
        0 <= i < pattern.len() && #[trigger] pattern[i] == '%' ==> i + 1 < pattern.len() && (
        pattern[i + 1] == 'Y' || pattern[i + 1] == 'm' || pattern[i + 1] == 'd' || pattern[i + 1]
            == 'H' || pattern[i + 1] == 'M' || pattern[i + 1] == 'S')
}

/// `chrono::DateTime::from_timestamp` and its `format`: the form that the
/// pattern gives a Unix time in UTC, which is a function of the time and the
/// pattern alone; `None` for a time out of the calendar's range. A pattern that
/// `format` does not know would panic: those admitted are plain ones.
#[verifier::external_body]
pub(crate) fn calendar_text(seconds: i64, pattern: &str) -> (r: Option<String>)
    requires
        plain_pattern(pattern@),
    ensures
        match r {
            Some(text) => calendar(seconds as int, pattern@) == Some(text@),
            None => calendar(seconds as int, pattern@) is None,
        },
{
    let time = chrono::DateTime::from_timestamp(seconds, 0)?;
    Some(time.format(pattern).to_string())
}

/// The words with which `std::str::from_utf8` refuses some bytes.
pub uninterp spec fn utf8_refusal(bytes: Seq<u8>) -> Seq<char>;

/// `std::str::from_utf8`: the text that valid UTF-8 bytes encode; an error for
/// any others, whose words are a function of the bytes alone.
#[verifier::external_body]
pub(crate) fn utf8_text(bytes: &[u8]) -> (r: Result<String, String>)
    ensures
        match r {
            Ok(text) => valid_utf8(bytes@) && text@ == decode_utf8(bytes@),
            Err(words) => !valid_utf8(bytes@) && words@ == utf8_refusal(bytes@),
        },
{
    std::str::from_utf8(bytes).map(str::to_owned).map_err(|error| error.to_string())
}

/// The words with which `String::from_utf16` refuses some code units.
pub uninterp spec fn utf16_refusal(units: Seq<u16>) -> Seq<char>;

/// `String::from_utf16`: the words of its error, a function of the code units
/// alone; nothing where it accepts them. Which units it accepts is not stated.
#[verifier::external_body]
pub(crate) fn utf16_words(units: &[u16]) -> (r: String)
    ensures
        r@ == utf16_refusal(units@),
{
    String::from_utf16(units).map_or_else(|error| error.to_string(), |_| String::new())
}

/// The words with which `str::parse::<u32>` refuses a text.
pub uninterp spec fn u32_refusal(text: Seq<char>) -> Seq<char>;

/// `str::parse::<u32>`: the words of its error, a function of the text alone;
/// nothing where it accepts the text. Which texts it accepts is not stated.
#[verifier::external_body]
pub(crate) fn u32_words(text: &str) -> (r: String)
    ensures
        r@ == u32_refusal(text@),
{
    text.parse::<u32>().map_or_else(|error| error.to_string(), |_| String::new())
}

/// The words with which `str::parse::<u64>` refuses a text.
pub uninterp spec fn u64_refusal(text: Seq<char>) -> Seq<char>;

/// `str::parse::<u64>`: the words of its error, a function of the text alone;
/// nothing where it accepts the text. Which texts it accepts is not stated.
#[verifier::external_body]
pub(crate) fn u64_words(text: &str) -> (r: String)
    ensures
        r@ == u64_refusal(text@),
{
    text.parse::<u64>().map_or_else(|error| error.to_string(), |_| String::new())
}

/// The words with which `u32::from_str_radix` refuses a text.
pub uninterp spec fn u32_radix_refusal(text: Seq<char>, radix: u32) -> Seq<char>;

/// `u32::from_str_radix`: the words of its error, a function of the text and
/// the radix alone; nothing where it accepts the text. Which texts it accepts
/// is not stated. Any other radix would panic.
#[verifier::external_body]
pub(crate) fn u32_radix_words(text: &str, radix: u32) -> (r: String)
    requires
        2 <= radix <= 36,
    ensures
        r@ == u32_radix_refusal(text@, radix),
{
    u32::from_str_radix(text, radix).map_or_else(|error| error.to_string(), |_| String::new())
}

/// The words with which `u32::try_from` refuses a `usize`.
pub uninterp spec fn u32_narrowing_refusal(value: usize) -> Seq<char>;

/// `u32::try_from` of a `usize`: the words of its error, a function of the value
/// alone; nothing where it fits.
#[verifier::external_body]
pub(crate) fn u32_narrowing_words(value: usize) -> (r: String)
    ensures
        r@ == u32_narrowing_refusal(value),
{
    u32::try_from(value).map_or_else(|error| error.to_string(), |_| String::new())
}

/// The words with which `i64::try_from` refuses a `u64`.
pub uninterp spec fn i64_refusal(value: u64) -> Seq<char>;

/// `i64::try_from` of a `u64`: the words of its error, a function of the value
/// alone; nothing where it fits.
#[verifier::external_body]
pub(crate) fn i64_words(value: u64) -> (r: String)
    ensures
        r@ == i64_refusal(value),
{
    i64::try_from(value).map_or_else(|error| error.to_string(), |_| String::new())
}

/// The text of some bytes, with every invalid UTF-8 sequence replaced.
pub uninterp spec fn utf8_lossy(bytes: Seq<u8>) -> Seq<char>;

/// `String::from_utf8_lossy`: a text that is a function of the bytes alone; for
/// valid UTF-8 it is the text that they encode.
#[verifier::external_body]
pub(crate) fn utf8_lossy_text(bytes: &[u8]) -> (r: String)
    ensures
        r@ == utf8_lossy(bytes@),
        valid_utf8(bytes@) ==> r@ == decode_utf8(bytes@),
{
    String::from_utf8_lossy(bytes).into_owned()
}

} // verus!
