//! Text crossing the engine boundary.
//!
//! Strings handed to the engine travel as NUL-terminated C strings, so a
//! value is only accepted when its UTF-8 encoding is free of NUL bytes;
//! strings received from the engine arrive as raw bytes that may fail to
//! decode.  Both directions are pinned to vstd's UTF-8 model, which makes
//! the set-then-get round trip provable.

use vstd::prelude::*;
use vstd::string::StrSliceExecFns;
use vstd::utf8::{decode_utf8, encode_utf8, encode_utf8_decode_utf8, encode_utf8_valid_utf8,
    valid_utf8};

use crate::error::{SmbError, SmbResult};

verus! {

/// Relies on `String::from_utf8`: it succeeds exactly on valid UTF-8 input
/// and then returns the string made of those bytes, i.e. their decoding.
#[verifier::external_body]
fn bytes_to_string(bytes: Vec<u8>) -> (r: Option<String>)
    ensures
        r is Some <==> valid_utf8(bytes@),
        r is Some ==> r->0@ == decode_utf8(bytes@),
{
    String::from_utf8(bytes).ok()
}

/// The byte sequences the engine can carry as a C string: the UTF-8
/// encoding must be free of interior NUL bytes.
pub open spec fn encodable(chars: Seq<char>) -> bool {
    !encode_utf8(chars).contains(0u8)
}

/// Encode a string for the engine boundary.
///
/// Returns the UTF-8 bytes of `s` when they contain no NUL byte (the
/// unverified shell appends the terminating NUL when it builds the C
/// string), and `BadValue` otherwise, since such a value cannot travel as
/// a C string.
pub fn encode_name(s: &str) -> (r: SmbResult<Vec<u8>>)
    ensures
        r is Ok <==> encodable(s@),
        r matches Ok(b) ==> b@ == encode_utf8(s@),
        r is Err ==> r == SmbResult::<Vec<u8>>::Err(SmbError::BadValue),
{
    let bytes = s.as_bytes_vec();
    let mut i: usize = 0;
    while i < bytes.len()
        invariant
            i <= bytes.len(),
            bytes@ == encode_utf8(s@),
            forall|j: int| 0 <= j < i ==> bytes@[j] != 0u8,
        decreases bytes.len() - i,
    {
        if bytes[i] == 0 {
            assert(encode_utf8(s@).contains(0u8));
            return Err(SmbError::BadValue);
        }
        i += 1;
    }
    assert(!bytes@.contains(0u8));
    Ok(bytes)
}

/// Decode bytes received from the engine boundary.
///
/// Succeeds exactly on valid UTF-8 and returns its decoding; anything else
/// is `BadValue`.
pub fn decode_name(bytes: Vec<u8>) -> (r: SmbResult<String>)
    ensures
        r is Ok <==> valid_utf8(bytes@),
        r matches Ok(s) ==> s@ == decode_utf8(bytes@),
        r is Err ==> r == SmbResult::<String>::Err(SmbError::BadValue),
{
    match bytes_to_string(bytes) {
        Some(s) => Ok(s),
        None => Err(SmbError::BadValue),
    }
}

/// Round trip of the engine boundary: the UTF-8 encoding of any string is
/// valid UTF-8, and decoding it restores the string exactly.  Together
/// with the contracts of [`encode_name`] and [`decode_name`] this says
/// that any value the setter path accepts is read back unchanged by the
/// getter path.
pub proof fn lemma_name_round_trip(chars: Seq<char>)
    ensures
        valid_utf8(encode_utf8(chars)),
        decode_utf8(encode_utf8(chars)) == chars,
{
    encode_utf8_valid_utf8(chars);
    encode_utf8_decode_utf8(chars);
}

} // verus!
