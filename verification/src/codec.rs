//! Textual encodings of byte strings: hexadecimal, base64 and base58.

use vstd::prelude::*;
use vstd::slice::slice_subrange;
use vstd::string::StrSliceExecFns;
use vstd::string::StringExecFns;
use crate::error::CooError;
use crate::wire::be_nat;

verus! {

/// The lowercase hexadecimal digit of a value below sixteen.
pub open spec fn hex_digit(v: int) -> char {
    if v == 0 { '0' } else if v == 1 { '1' } else if v == 2 { '2' } else if v == 3 { '3' }
    else if v == 4 { '4' } else if v == 5 { '5' } else if v == 6 { '6' } else if v == 7 { '7' }
    else if v == 8 { '8' } else if v == 9 { '9' } else if v == 10 { 'a' } else if v == 11 { 'b' }
    else if v == 12 { 'c' } else if v == 13 { 'd' } else if v == 14 { 'e' } else { 'f' }
}

/// The value of a hexadecimal digit of either case, `None` for any other character.
pub open spec fn hex_digit_value(c: char) -> Option<int> {
    if '0' <= c <= '9' {
        Some(c as int - '0' as int)
    } else if 'a' <= c <= 'f' {
        Some(c as int - 'a' as int + 10)
    } else if 'A' <= c <= 'F' {
        Some(c as int - 'A' as int + 10)
    } else {
        None
    }
}

/// Lowercase hexadecimal text of a byte string: two digits per byte, high nibble first.
pub open spec fn hex_lower(bytes: Seq<u8>) -> Seq<char> {
    Seq::new(
        2 * bytes.len(),
        |i: int| if i % 2 == 0 { hex_digit(bytes[i / 2] as int / 16) } else { hex_digit(bytes[i / 2] as int % 16) },
    )
}

/// Whether a text is hexadecimal: an even number of characters, each a hexadecimal digit.
pub open spec fn is_hex_text(text: Seq<char>) -> bool {
    &&& text.len() % 2 == 0
    &&& forall|i: int| 0 <= i < text.len() ==> (#[trigger] hex_digit_value(text[i])) is Some
}

/// The bytes that a hexadecimal text stands for.
pub open spec fn hex_bytes(text: Seq<char>) -> Seq<u8> {
    Seq::new(
        text.len() / 2,
        |i: int| (hex_digit_value(text[2 * i]).unwrap() * 16 + hex_digit_value(text[2 * i + 1]).unwrap()) as u8,
    )
}

/// `hex::FromHexError`, why `hex::decode` refused a text. It is carried as it
/// is: nothing is known of what it holds.
#[verifier::external_type_specification]
#[verifier::external_body]
pub struct ExFromHexError(hex::FromHexError);

/// `hex::encode`: every byte becomes two lowercase hexadecimal digits, the high
/// nibble first, in the order of the bytes.
#[verifier::external_body]
fn hex_encode(bytes: &[u8]) -> (text: String)
    ensures
        text@ == hex_lower(bytes@),
{
    hex::encode(bytes)
}

/// `hex::decode`: succeeds exactly on a text of even length made of hexadecimal
/// digits of either case, and then yields one byte per pair of digits.
#[verifier::external_body]
fn hex_decode(text: &str) -> (r: Result<Vec<u8>, hex::FromHexError>)
    ensures
        r is Ok <==> is_hex_text(text@),
        r is Ok ==> r->Ok_0@ == hex_bytes(text@),
{
    hex::decode(text)
}

/// A digit that was written is read back as the value it was written for.
pub proof fn lemma_hex_digit_round_trip(v: int)
    requires
        0 <= v < 16,
    ensures
        hex_digit_value(hex_digit(v)) == Some(v),
        hex_digit(v) != 'x',
{
}

/// What `hex_lower` writes is hexadecimal text, and stands for the bytes it
/// was written from.
pub proof fn lemma_hex_round_trip(bytes: Seq<u8>)
    ensures
        is_hex_text(hex_lower(bytes)),
        hex_bytes(hex_lower(bytes)) == bytes,
        hex_payload(hex_lower(bytes)) == hex_lower(bytes),
{
    let text = hex_lower(bytes);
    assert forall|i: int| 0 <= i < text.len() implies (#[trigger] hex_digit_value(text[i])) is Some by {
        let b = bytes[i / 2] as int;
        lemma_hex_digit_round_trip(b / 16);
        lemma_hex_digit_round_trip(b % 16);
    }
    assert forall|k: int| 0 <= k < bytes.len() implies hex_bytes(text)[k] == bytes[k] by {
        let b = bytes[k] as int;
        lemma_hex_digit_round_trip(b / 16);
        lemma_hex_digit_round_trip(b % 16);
        assert((2 * k) / 2 == k && (2 * k) % 2 == 0);
        assert((2 * k + 1) / 2 == k && (2 * k + 1) % 2 == 1);
        assert(text[2 * k] == hex_digit(b / 16));
        assert(text[2 * k + 1] == hex_digit(b % 16));
    }
    assert(hex_bytes(text) =~= bytes);
    if text.len() >= 2 {
        lemma_hex_digit_round_trip(bytes[0] as int % 16);
        assert(text[1] == hex_digit(bytes[0] as int % 16));
    }
}

/// Number of leading zero bytes.
pub open spec fn leading_zeros(bytes: Seq<u8>) -> nat
    decreases bytes.len(),
{
    if bytes.len() > 0 && bytes[0] == 0 {
        1 + leading_zeros(bytes.skip(1))
    } else {
        0
    }
}

/// The text that `bytestohex` gives: `0x`, then the hexadecimal digits of the bytes
/// that follow the leading zero bytes.
pub open spec fn compact_hex(bytes: Seq<u8>) -> Seq<char> {
    seq!['0', 'x'] + hex_lower(bytes.skip(leading_zeros(bytes) as int))
}

/// A zero byte in front does not change the number that bytes denote.
pub proof fn lemma_zero_in_front(bytes: Seq<u8>)
    requires
        bytes.len() > 0,
        bytes[0] == 0,
    ensures
        be_nat(bytes.skip(1)) == be_nat(bytes),
    decreases bytes.len(),
{
    if bytes.len() == 1 {
        assert(bytes.drop_last() =~= Seq::<u8>::empty());
        assert(bytes.skip(1) =~= Seq::<u8>::empty());
        assert(be_nat(bytes.drop_last()) == 0);
    } else {
        lemma_zero_in_front(bytes.drop_last());
        assert(bytes.skip(1).drop_last() =~= bytes.drop_last().skip(1));
        assert(bytes.skip(1).last() == bytes.last());
    }
}

/// The bytes that stay when the leading zero bytes are taken off denote the
/// same number: what is shown for a number is that number.
pub proof fn lemma_leading_zeros_keep_value(bytes: Seq<u8>)
    ensures
        leading_zeros(bytes) <= bytes.len(),
        be_nat(bytes.skip(leading_zeros(bytes) as int)) == be_nat(bytes),
    decreases bytes.len(),
{
    if bytes.len() > 0 && bytes[0] == 0 {
        lemma_leading_zeros_keep_value(bytes.skip(1));
        lemma_zero_in_front(bytes);
        assert(bytes.skip(1).skip(leading_zeros(bytes.skip(1)) as int) =~= bytes.skip(
            leading_zeros(bytes) as int,
        ));
    } else {
        assert(bytes.skip(0) =~= bytes);
    }
}

/// What `bytestohex` writes is read back, behind its `0x`, as the bytes that
/// follow the leading zero bytes.
pub proof fn lemma_compact_hex_round_trip(bytes: Seq<u8>)
    ensures
        is_hex_text(hex_payload(compact_hex(bytes))),
        hex_bytes(hex_payload(compact_hex(bytes))) == bytes.skip(leading_zeros(bytes) as int),
{
    let rest = bytes.skip(leading_zeros(bytes) as int);
    lemma_hex_round_trip(rest);
    assert(compact_hex(bytes).skip(2) =~= hex_lower(rest));
}

/// Hexadecimal text of a big-endian number for display: `0x` and the digits of
/// the bytes from the first non-zero byte on, so that all zero bytes give `0x`.
pub fn bytestohex(s: &[u8]) -> (text: String)
    ensures
        text@ == compact_hex(s@),
{
    let mut zeros: usize = 0;
    assert(s@.skip(0) =~= s@);
    while zeros < s.len() && s[zeros] == 0
        invariant
            zeros <= s.len(),
            leading_zeros(s@) == zeros + leading_zeros(s@.skip(zeros as int)),
        decreases s.len() - zeros,
    {
        proof {
            assert(s@.skip(zeros as int).skip(1) =~= s@.skip(zeros as int + 1));
        }
        zeros = zeros + 1;
    }
    proof {
        let rest = s@.skip(zeros as int);
        assert(rest.len() > 0 ==> rest[0] == s@[zeros as int]);
        assert(leading_zeros(rest) == 0);
        assert(s@.subrange(zeros as int, s@.len() as int) =~= rest);
        reveal_strlit("0x");
        assert("0x"@ =~= seq!['0', 'x']);
    }
    let digits = hex_encode(slice_subrange(s, zeros, s.len()));
    String::from_str("0x").concat(digits.as_str())
}

/// The part of a text that holds its hexadecimal digits: the text without a
/// leading `0x`, where it has one.
pub open spec fn hex_payload(text: Seq<char>) -> Seq<char> {
    if text.len() >= 2 && text[0] == '0' && text[1] == 'x' {
        text.skip(2)
    } else {
        text
    }
}

/// The bytes of a hexadecimal text, which may start with `0x`.
pub fn hextobytes(s: &str) -> (r: Result<Vec<u8>, CooError>)
    ensures
        r is Ok <==> is_hex_text(hex_payload(s@)),
        r is Ok ==> r->Ok_0@ == hex_bytes(hex_payload(s@)),
        r is Err ==> r->Err_0 == CooError::HexDecodeError,
{
    let n = s.unicode_len();
    let decoded = if n >= 2 && s.get_char(0) == '0' && s.get_char(1) == 'x' {
        assert(s@.subrange(2, n as int) =~= s@.skip(2));
        hex_decode(s.substring_char(2, n))
    } else {
        hex_decode(s)
    };
    match decoded {
        Ok(bytes) => Ok(bytes),
        Err(_) => Err(CooError::HexDecodeError),
    }
}

/// `base64::DecodeError`, why base64 refused a text. It is carried as it is:
/// nothing is known of what it holds.
#[verifier::external_type_specification]
#[verifier::external_body]
pub struct ExBase64DecodeError(base64::DecodeError);

/// `bs58::decode::Error`, why bs58 refused a text. It is carried as it is:
/// nothing is known of what it holds.
#[verifier::external_type_specification]
#[verifier::external_body]
pub struct ExBase58DecodeError(bs58::decode::Error);

/// What the standard base64 alphabet, with padding, decodes a text to; `None`
/// where the text is not base64.
pub uninterp spec fn base64_decoding(text: Seq<char>) -> Option<Seq<u8>>;

/// What the Bitcoin base58 alphabet decodes a text to; `None` where the text is
/// not base58.
pub uninterp spec fn base58_decoding(text: Seq<char>) -> Option<Seq<u8>>;

/// `Engine::decode` of base64's `STANDARD` engine: the outcome is a function of
/// the text alone, here called `base64_decoding`.
#[verifier::external_body]
fn base64_decode(text: &str) -> (r: Result<Vec<u8>, base64::DecodeError>)
    ensures
        match r {
            Ok(bytes) => base64_decoding(text@) == Some(bytes@),
            Err(_) => base64_decoding(text@) is None,
        },
{
    base64::Engine::decode(&base64::engine::general_purpose::STANDARD, text)
}

/// `bs58::decode(..).into_vec()` with the default alphabet: the outcome is a
/// function of the text alone, here called `base58_decoding`.
#[verifier::external_body]
fn base58_decode(text: &str) -> (r: Result<Vec<u8>, bs58::decode::Error>)
    ensures
        match r {
            Ok(bytes) => base58_decoding(text@) == Some(bytes@),
            Err(_) => base58_decoding(text@) is None,
        },
{
    bs58::decode(text).into_vec()
}

/// The text that the standard base64 alphabet, with padding, encodes bytes to.
pub uninterp spec fn base64_encoding(bytes: Seq<u8>) -> Seq<char>;

/// `Engine::encode` of base64's `STANDARD` engine: the text is a function of
/// the bytes alone, here called `base64_encoding`.
#[verifier::external_body]
fn base64_encode(bytes: &[u8]) -> (text: String)
    ensures
        text@ == base64_encoding(bytes@),
{
    base64::Engine::encode(&base64::engine::general_purpose::STANDARD, bytes)
}

/// Base64 text of a byte string.
pub fn bytestobase64(bytes: &[u8]) -> (text: String)
    ensures
        text@ == base64_encoding(bytes@),
{
    base64_encode(bytes)
}

/// Hexadecimal text of a byte string: two lowercase digits per byte.
pub fn bytestoplainhex(bytes: &[u8]) -> (text: String)
    ensures
        text@ == hex_lower(bytes@),
{
    hex_encode(bytes)
}

/// The bytes of a base64 text.
pub fn base64tobytes(s: &str) -> (r: Result<Vec<u8>, CooError>)
    ensures
        match r {
            Ok(bytes) => base64_decoding(s@) == Some(bytes@),
            Err(e) => base64_decoding(s@) is None && e == CooError::Base64Error,
        },
{
    match base64_decode(s) {
        Ok(bytes) => Ok(bytes),
        Err(_) => Err(CooError::Base64Error),
    }
}

/// The bytes of a base58 text.
pub fn base58tobytes(s: &str) -> (r: Result<Vec<u8>, CooError>)
    ensures
        match r {
            Ok(bytes) => base58_decoding(s@) == Some(bytes@),
            Err(e) => base58_decoding(s@) is None && e == CooError::Base58Error,
        },
{
    match base58_decode(s) {
        Ok(bytes) => Ok(bytes),
        Err(_) => Err(CooError::Base58Error),
    }
}

} // verus!
