//! Client-level decisions: request-URI construction, the outcome of the
//! connection-scoped getters, and the millisecond timeout crossing the
//! engine's `int` convention.
//!
//! The unverified shell owns the engine context; for every operation it
//! builds the request URI here, performs the raw call, and hands the raw
//! outcome back to the functions of this module and its siblings to be
//! translated into the typed result.

use vstd::prelude::*;
use vstd::string::{StrSliceExecFns, StringExecFns};
use vstd::utf8::{decode_utf8, valid_utf8};

use crate::codec::decode_name;
use crate::error::{SmbError, SmbResult};

verus! {

/// The connection URI of a client: the server followed by the share, with
/// exactly one separating slash (a share already beginning with one keeps
/// it, no further normalization).
pub open spec fn spec_build_uri(server: Seq<char>, share: Seq<char>) -> Seq<char> {
    if share.len() > 0 && share[0] == '/' {
        server + share
    } else {
        server + seq!['/'] + share
    }
}

/// Build the connection URI from server and share.
pub fn build_uri(server: &str, share: &str) -> (r: String)
    ensures
        r@ == spec_build_uri(server@, share@),
{
    let mut uri = server.to_owned();
    let starts_with_slash = if share.is_empty() {
        false
    } else {
        share.get_char(0) == '/'
    };
    if !starts_with_slash {
        uri.append("/");
        proof {
            reveal_strlit("/");
            assert(uri@ =~= server@ + seq!['/']);
        }
    }
    uri.append(share);
    proof {
        assert(uri@ =~= spec_build_uri(server@, share@));
    }
    uri
}

/// Build a request URI: the client's base URI followed by the caller's
/// path, unchanged (slash handling beyond [`build_uri`] is the caller's
/// responsibility).
pub fn full_uri(base: &str, path: &str) -> (r: String)
    ensures
        r@ == base@ + path@,
{
    let mut uri = base.to_owned();
    uri.append(path);
    uri
}

/// Outcome of a string-returning engine call: a null reply is an invalid
/// handle, a reply that does not decode as text is `BadValue`, anything
/// else is the decoded string.
pub fn getter_outcome(reply: Option<Vec<u8>>) -> (r: SmbResult<String>)
    ensures
        reply is None ==> r == SmbResult::<String>::Err(SmbError::BadFileDescriptor),
        reply matches Some(b) ==> (valid_utf8(b@) ==> (r matches Ok(s) && s@ == decode_utf8(
            b@,
        ))),
        reply matches Some(b) ==> (!valid_utf8(b@) ==> r == SmbResult::<String>::Err(
            SmbError::BadValue,
        )),
{
    match reply {
        Some(bytes) => decode_name(bytes),
        None => Err(SmbError::BadFileDescriptor),
    }
}

/// Narrow a millisecond timeout to the engine's `int` convention; the
/// engine's setter takes a plain `int`, so a value beyond its range is
/// truncated, exactly as the native cast would.
pub fn timeout_to_native(ms: u64) -> (r: i32)
    ensures
        r == ms as i32,
        ms <= i32::MAX ==> r == ms,
{
    #[verifier::truncate] (ms as i32)
}

/// Widen a timeout read back from the engine; the engine hands out the
/// value it was configured with, as a non-negative `int`.
pub fn timeout_from_native(native: i32) -> (r: u64)
    requires
        native >= 0,
    ensures
        r == native,
{
    native as u64
}

/// Round trip of the timeout conversion: any millisecond value within the
/// engine's `int` range is read back unchanged.
pub proof fn lemma_timeout_round_trip(ms: u64)
    requires
        ms <= i32::MAX,
    ensures
        (ms as i32) as u64 == ms,
{
}

} // verus!
