//! The digest check: an artifact matches a published string when that
//! string is the lowercase hexadecimal spelling of its SHA-512 digest.

use crate::hex_text::{is_lower_hex, lower_hex, lower_hex_is_injective, lower_hex_shape};
use sha2::{Digest, Sha512};
use vstd::prelude::*;

verus! {

/// Length in bytes of a SHA-512 digest.
pub const DIGEST_LEN: usize = 64;

/// Length in characters of a digest written in hexadecimal.
pub const DIGEST_HEX_LEN: usize = 128;

/// The SHA-512 digest of `data`, as the `sha2` crate computes it.
pub uninterp spec fn sha512(data: Seq<u8>) -> Seq<u8>;

/// The published form of the digest of `data`.
pub open spec fn digest_hex_of(data: Seq<u8>) -> Seq<char> {
    lower_hex(sha512(data))
}

/// `expected` is, character for character, the published form of the digest
/// of `data`. No case folding and no trimming is applied to `expected`.
pub open spec fn digest_matches(data: Seq<u8>, expected: Seq<char>) -> bool {
    expected =~= digest_hex_of(data)
}

/// Calls `Sha512::digest` of the `sha2` crate on the whole of `data`.
///
/// Not proved: that the bytes handed back are the value `sha512` names for
/// `data`, and that there are sixty-four of them, the output size that `sha2`
/// fixes for SHA-512.
#[verifier::external_body]
fn sha512_digest(data: &[u8]) -> (digest: Vec<u8>)
    ensures
        digest@ == sha512(data@),
        digest@.len() == DIGEST_LEN,
{
    Sha512::digest(data).to_vec()
}

/// Calls `hex::encode` on `bytes`.
///
/// Not proved: that the string handed back is the lowercase spelling of
/// `bytes`, two digits for each byte, the high half first.
#[verifier::external_body]
fn hex_encode(bytes: &[u8]) -> (text: String)
    ensures
        text@ == lower_hex(bytes@),
{
    hex::encode(bytes)
}

/// Whether `expected` is the lowercase hexadecimal spelling of `bytes`,
/// character for character.
pub fn hex_matches(bytes: &[u8], expected: &str) -> (matches: bool)
    ensures
        matches == (expected@ =~= lower_hex(bytes@)),
{
    let text = hex_encode(bytes);
    let expected = expected.to_owned();
    text == expected
}

/// The digest of `data` in its published form: 128 lowercase hexadecimal
/// characters.
pub fn digest_hex(data: &[u8]) -> (text: String)
    ensures
        text@ == digest_hex_of(data@),
        text@.len() == DIGEST_HEX_LEN,
        is_lower_hex(text@),
{
    let digest = sha512_digest(data);
    proof {
        lower_hex_shape(digest@);
    }
    hex_encode(digest.as_slice())
}

/// Whether `expected_sha512` is the published form of the digest of
/// `file_data`.
///
/// The comparison is exact: a string of another length, in upper case, or
/// with blanks around it never matches.
pub fn verify_file_sha512_internal(file_data: &[u8], expected_sha512: &str) -> (matches: bool)
    ensures
        matches == digest_matches(file_data@, expected_sha512@),
        matches ==> expected_sha512@.len() == DIGEST_HEX_LEN && is_lower_hex(expected_sha512@),
{
    let digest = sha512_digest(file_data);
    proof {
        lower_hex_shape(digest@);
    }
    hex_matches(digest.as_slice(), expected_sha512)
}

/// The digest check on a buffer that the caller hands over for good.
pub fn verify_file_sha512(file_data: Vec<u8>, expected_sha512: &str) -> (matches: bool)
    ensures
        matches == digest_matches(file_data@, expected_sha512@),
        matches ==> expected_sha512@.len() == DIGEST_HEX_LEN && is_lower_hex(expected_sha512@),
{
    verify_file_sha512_internal(file_data.as_slice(), expected_sha512)
}

/// Genuine data always passes: the published form of a buffer's digest
/// matches that buffer.
pub proof fn genuine_digest_matches(data: Seq<u8>)
    ensures
        digest_matches(data, digest_hex_of(data)),
{
}

/// No false positive: a string other than the published form of the digest
/// of `data` does not match `data`, whatever its length or content.
pub proof fn other_string_does_not_match(data: Seq<u8>, expected: Seq<char>)
    requires
        expected != digest_hex_of(data),
    ensures
        !digest_matches(data, expected),
{
}

/// The check depends on nothing but its two inputs: equal buffers and equal
/// strings give equal answers.
pub proof fn digest_check_is_deterministic(
    data: Seq<u8>,
    expected: Seq<char>,
    data_again: Seq<u8>,
    expected_again: Seq<char>,
)
    requires
        data == data_again,
        expected == expected_again,
    ensures
        digest_matches(data, expected) == digest_matches(data_again, expected_again),
{
}

/// Two buffers that match one and the same string have the same digest.
pub proof fn matching_buffers_share_a_digest(first: Seq<u8>, second: Seq<u8>, expected: Seq<char>)
    requires
        digest_matches(first, expected),
        digest_matches(second, expected),
    ensures
        sha512(first) == sha512(second),
{
    lower_hex_is_injective(sha512(first), sha512(second));
}

} // verus!
