//! Lossy text decoding of raw input bytes.
//!
//! Input lines arrive as raw bytes and are decoded as UTF-8, with invalid
//! sequences replaced rather than rejected: bad encoding is never a hard
//! failure for the pager.

use vstd::prelude::*;

verus! {

/// The character sequence that lossy UTF-8 decoding yields for the given
/// bytes.  The decoding is a function of the bytes alone; on valid UTF-8
/// it agrees with `vstd::utf8::decode_utf8`.
pub uninterp spec fn lossy_decode_of(bytes: Seq<u8>) -> Seq<char>;

/// Relies on `String::from_utf8_lossy`: the result depends on the bytes
/// alone, and bytes that are valid UTF-8 decode unchanged.
#[verifier::external_body]
pub(crate) fn decode_lossy(bytes: &[u8]) -> (r: String)
    ensures
        r@ == lossy_decode_of(bytes@),
        vstd::utf8::valid_utf8(bytes@) ==> r@ == vstd::utf8::decode_utf8(bytes@),
{
    String::from_utf8_lossy(bytes).to_string()
}

/// Decoding valid UTF-8 bytes loses nothing: re-encoding the decoded
/// characters yields the original bytes, so text that round-trips through
/// the decoder redisplays byte-for-byte.
pub proof fn lemma_decode_round_trip(bytes: Seq<u8>)
    requires
        vstd::utf8::valid_utf8(bytes),
    ensures
        vstd::utf8::encode_utf8(vstd::utf8::decode_utf8(bytes)) == bytes,
{
    vstd::utf8::decode_utf8_encode_utf8(bytes);
}

} // verus!
