//! Credential hasher: a keyed SHA-256 MAC over the UTF-8 bytes of a
//! password, stored as lower-case hexadecimal text.

use vstd::prelude::*;
use vstd::string::*;
use vstd::utf8::*;
use hmac::Hmac;
use hmac::Mac;
use sha2::Sha256;
use crate::error::AppError;
use crate::text::same_bytes;

verus! {

/// The HMAC-SHA-256 tag of `message` under `key`, as the `hmac` and `sha2`
/// crates compute it.
pub uninterp spec fn hmac_sha256(key: Seq<u8>, message: Seq<u8>) -> Seq<u8>;

/// The lower-case hexadecimal digit for a value below 16.
pub open spec fn hex_digit(n: int) -> char {
    if n < 10 {
        (48 + n) as u8 as char
    } else {
        (87 + n) as u8 as char
    }
}

/// Whether `c` is one of `0-9`, `a-f`, `A-F`.
pub open spec fn is_hex_char(c: char) -> bool {
    ('0' <= c && c <= '9') || ('a' <= c && c <= 'f') || ('A' <= c && c <= 'F')
}

/// The value of a hexadecimal digit, either case.
pub open spec fn hex_value(c: char) -> int {
    if '0' <= c && c <= '9' {
        c as int - 48
    } else if 'a' <= c && c <= 'f' {
        c as int - 87
    } else {
        c as int - 55
    }
}

/// Two lower-case digits per byte, high nibble first.
pub open spec fn hex_chars(bytes: Seq<u8>) -> Seq<char> {
    Seq::new(
        2 * bytes.len(),
        |i: int|
            if i % 2 == 0 {
                hex_digit(bytes[i / 2] as int / 16)
            } else {
                hex_digit(bytes[i / 2] as int % 16)
            },
    )
}

/// Text that decodes: an even number of hexadecimal digits.
pub open spec fn is_hex_text(text: Seq<char>) -> bool {
    &&& text.len() % 2 == 0
    &&& forall|i: int| 0 <= i < text.len() ==> is_hex_char(#[trigger] text[i])
}

/// The bytes that hexadecimal text stands for.
pub open spec fn hex_bytes(text: Seq<char>) -> Seq<u8> {
    Seq::new(
        text.len() / 2,
        |i: int| (hex_value(text[2 * i]) * 16 + hex_value(text[2 * i + 1])) as u8,
    )
}

/// The key under which stored digests are computed.
pub open spec fn stored_key() -> Seq<u8> {
    encode_utf8("secret_key"@)
}

/// The stored form of `plaintext` under `key`.
pub open spec fn digest_text(key: Seq<u8>, plaintext: Seq<char>) -> Seq<char> {
    hex_chars(hmac_sha256(key, encode_utf8(plaintext)))
}

/// What checking `candidate` against `stored` yields: `None` where `stored`
/// is not hexadecimal text, else whether it holds the candidate's tag.
pub open spec fn check_outcome(key: Seq<u8>, stored: Seq<char>, candidate: Seq<char>) -> Option<
    bool,
> {
    if is_hex_text(stored) {
        Some(hex_bytes(stored) == hmac_sha256(key, encode_utf8(candidate)))
    } else {
        None
    }
}

/// The error of `hex::decode`, carried through unread.
#[verifier::external_type_specification]
#[verifier::external_body]
pub struct ExFromHexError(hex::FromHexError);

/// Calls `Hmac::<Sha256>::new_from_slice`, `update` and `finalize` of the
/// `hmac` crate. Trusted: the 32 bytes returned are the tag that
/// `hmac_sha256` names, a function of key and message alone. The crate
/// accepts a key of any length.
#[verifier::external_body]
fn hmac_tag(key: &[u8], message: &[u8]) -> (tag: Vec<u8>)
    ensures
        tag@ == hmac_sha256(key@, message@),
        tag@.len() == 32,
{
    let mut mac = Hmac::<Sha256>::new_from_slice(key).expect("HMAC can take key of any size");
    mac.update(message);
    mac.finalize().into_bytes().to_vec()
}

/// Calls `hex::encode`. Trusted: the text holds two lower-case digits per
/// byte, high nibble first.
#[verifier::external_body]
fn hex_encode(bytes: &Vec<u8>) -> (text: String)
    ensures
        text@ == hex_chars(bytes@),
{
    hex::encode(bytes)
}

/// Calls `hex::decode`. Trusted: it succeeds exactly on an even number of
/// hexadecimal digits of either case, and then returns the bytes they
/// stand for.
#[verifier::external_body]
fn hex_decode(text: &str) -> (decoded: Result<Vec<u8>, hex::FromHexError>)
    ensures
        decoded is Ok <==> is_hex_text(text@),
        decoded is Ok ==> decoded->Ok_0@ == hex_bytes(text@),
{
    hex::decode(text)
}

/// Calls the `Display` impl of `hex::FromHexError`. Nothing is claimed of
/// the wording.
#[verifier::external_body]
fn hex_error_text(err: &hex::FromHexError) -> (text: String) {
    err.to_string()
}

/// The stored form of `text` under `key`: the hexadecimal text of its tag.
pub fn hash_with_key(key: &[u8], text: &str) -> (digest: String)
    ensures
        digest@ == digest_text(key@, text@),
        digest@.len() == 64,
{
    let tag = hmac_tag(key, text.as_bytes());
    hex_encode(&tag)
}

/// Checks `to_verify` against the stored digest `hex_code` under `key`.
/// Stored text that is not hexadecimal is a failure of its own, never a
/// plain `false`.
pub fn verify_with_key(key: &[u8], hex_code: &str, to_verify: &str) -> (checked: Result<
    bool,
    AppError,
>)
    ensures
        check_outcome(key@, hex_code@, to_verify@) matches Some(held) ==> checked == Ok::<
            bool,
            AppError,
        >(held),
        check_outcome(key@, hex_code@, to_verify@) is None ==> checked matches Err(
            AppError::GenericError(_),
        ),
{
    let tag = hmac_tag(key, to_verify.as_bytes());
    match hex_decode(hex_code) {
        Ok(stored) => Ok(same_bytes(stored.as_slice(), tag.as_slice())),
        Err(err) => Err(AppError::GenericError(hex_error_text(&err))),
    }
}

/// The stored form of a password under the process-wide key.
pub fn hash(text: &str) -> (digest: String)
    ensures
        digest@ == digest_text(stored_key(), text@),
        digest@.len() == 64,
{
    hash_with_key("secret_key".as_bytes(), text)
}

/// Checks a password against its stored digest under the process-wide key.
pub fn verify_password(hex_code: &str, to_verify: &str) -> (checked: Result<bool, AppError>)
    ensures
        check_outcome(stored_key(), hex_code@, to_verify@) matches Some(held) ==> checked == Ok::<
            bool,
            AppError,
        >(held),
        check_outcome(stored_key(), hex_code@, to_verify@) is None ==> checked matches Err(
            AppError::GenericError(_),
        ),
{
    verify_with_key("secret_key".as_bytes(), hex_code, to_verify)
}

/// Encoding a byte as two digits and reading them back gives the byte.
proof fn lemma_digit_pair(b: u8)
    ensures
        is_hex_char(hex_digit(b as int / 16)),
        is_hex_char(hex_digit(b as int % 16)),
        hex_value(hex_digit(b as int / 16)) == b as int / 16,
        hex_value(hex_digit(b as int % 16)) == b as int % 16,
{
    let hi = b as int / 16;
    let lo = b as int % 16;
    assert(0 <= hi < 16 && 0 <= lo < 16);
}

/// The hexadecimal text of any bytes decodes, and decodes to those bytes.
pub proof fn lemma_hex_round_trip(bytes: Seq<u8>)
    ensures
        is_hex_text(hex_chars(bytes)),
        hex_bytes(hex_chars(bytes)) == bytes,
{
    let text = hex_chars(bytes);
    assert forall|i: int| 0 <= i < text.len() implies is_hex_char(#[trigger] text[i]) by {
        lemma_digit_pair(bytes[i / 2]);
    }
    assert forall|i: int| 0 <= i < bytes.len() implies hex_bytes(text)[i] == bytes[i] by {
        lemma_digit_pair(bytes[i]);
        assert((2 * i) / 2 == i && (2 * i) % 2 == 0);
        assert((2 * i + 1) / 2 == i && (2 * i + 1) % 2 == 1);
        assert(bytes[i] as int == (bytes[i] as int / 16) * 16 + bytes[i] as int % 16);
    }
    assert(hex_bytes(text) =~= bytes);
}

/// A password always verifies against its own digest, whatever the key.
pub proof fn lemma_own_digest_verifies(key: Seq<u8>, plaintext: Seq<char>)
    ensures
        check_outcome(key, digest_text(key, plaintext), plaintext) == Some(true),
{
    lemma_hex_round_trip(hmac_sha256(key, encode_utf8(plaintext)));
}

/// Two digests under one key are equal exactly where the tags of the two
/// passwords are: the hexadecimal form adds no collision of its own.
pub proof fn lemma_digests_differ_with_tags(key: Seq<u8>, first: Seq<char>, second: Seq<char>)
    ensures
        digest_text(key, first) == digest_text(key, second) <==> hmac_sha256(
            key,
            encode_utf8(first),
        ) == hmac_sha256(key, encode_utf8(second)),
{
    lemma_hex_round_trip(hmac_sha256(key, encode_utf8(first)));
    lemma_hex_round_trip(hmac_sha256(key, encode_utf8(second)));
}

} // verus!
