//! SHA-1 digests of text.
use shaman::digest::Digest;
use shaman::sha1::Sha1;
use vstd::prelude::*;
use vstd::string::*;
use vstd::utf8::*;
use crate::consts::DIGEST_INPUT_MAX;
use crate::error::{self, MainError, MainErrorView};

verus! {

/// The SHA-1 digest of a text, in lower-case hex, as `shaman::sha1::Sha1` computes it.
pub uninterp spec fn sha1_hex(text: Seq<char>) -> Seq<char>;

/// Whether a text is short enough to be digested.
pub open spec fn digestible(text: Seq<char>) -> bool {
    encode_utf8(text).len() <= DIGEST_INPUT_MAX
}

/// Whether a character is a lower-case hex digit.
pub open spec fn is_hex_digit(c: char) -> bool {
    '0' <= c <= '9' || 'a' <= c <= 'f'
}

/// Feeds a text to a new `shaman::sha1::Sha1` by `input_str` and takes the digest by
/// `result_str`.  The claim is that the digest is a function of the text, and is forty
/// lower-case hex digits: twenty bytes, each written by `ToHex` as two.  `input_str` panics
/// where the number of bits does not fit in a `u64`.
#[verifier::external_body]
pub(crate) fn digest_text(text: &str) -> (r: String)
    requires
        digestible(text@),
    ensures
        r@ == sha1_hex(text@),
        r@.len() == 40,
        forall|i: int| 0 <= i < r@.len() ==> is_hex_digit(#[trigger] r@[i]),
{
    let mut hasher = Sha1::new();
    hasher.input_str(text);
    hasher.result_str()
}

/// Shorthand for hashing a string.
pub fn hash_str(s: &str) -> (r: String)
    requires
        digestible(s@),
    ensures
        r@ == sha1_hex(s@),
        r@.len() == 40,
        forall|i: int| 0 <= i < r@.len() ==> is_hex_digit(#[trigger] r@[i]),
{
    digest_text(s)
}

/// The error for a text that is too long to be digested.
pub open spec fn too_long() -> MainErrorView {
    error::internal("text is too long to hash"@)
}

/// Hashes a string of any length: an error where it is too long.
pub fn try_hash_str(s: &str) -> (r: Result<String, MainError>)
    ensures
        r is Ok <==> digestible(s@),
        r matches Ok(h) ==> {
            &&& h@ == sha1_hex(s@)
            &&& h@.len() == 40
            &&& forall|i: int| 0 <= i < h@.len() ==> is_hex_digit(#[trigger] h@[i])
        },
        r matches Err(e) ==> e@ == too_long(),
{
    if s.as_bytes().len() as u64 <= DIGEST_INPUT_MAX {
        Ok(hash_str(s))
    } else {
        Err(MainError::internal("text is too long to hash"))
    }
}

} // verus!
