//! The authentication bridge.
//!
//! During any operation that needs a session the engine calls a single
//! process-wide callback with three destination buffers (workgroup,
//! username, password), each with a declared length, and no
//! caller-supplied identity.  The unverified shell receives that call,
//! derives the context identity, and asks this module for the exact bytes
//! of each destination; its only remaining job is to copy `r.len()` bytes
//! into a buffer declared to hold `cap`.  The single hard invariant — no
//! write beyond a buffer's declared length — is therefore carried by the
//! contracts here.

use vstd::prelude::*;
use vstd::math::min;
use vstd::string::StrSliceExecFns;
use vstd::utf8::encode_utf8;

use crate::cred::{CredentialRegistry, SmbCredentials};

verus! {

/// The bytes written for value `v` into a destination of declared length
/// `cap`: nothing when the destination has no room at all, otherwise the
/// value truncated to `cap - 1` bytes followed by the terminating NUL.
pub open spec fn spec_fill(v: Seq<u8>, cap: nat) -> Seq<u8> {
    if cap == 0 {
        Seq::empty()
    } else {
        v.take(min(v.len() as int, cap - 1)) + seq![0u8]
    }
}

/// Fill one destination buffer: the value's UTF-8 bytes truncated to the
/// declared length, NUL-terminated within bounds.
pub fn fill_buffer(value: &str, cap: usize) -> (r: Vec<u8>)
    ensures
        r@ == spec_fill(encode_utf8(value@), cap as nat),
        r@.len() <= cap,
{
    let bytes = value.as_bytes_vec();
    let mut out: Vec<u8> = Vec::new();
    if cap == 0 {
        return out;
    }
    let n = if bytes.len() <= cap - 1 {
        bytes.len()
    } else {
        cap - 1
    };
    let mut i: usize = 0;
    while i < n
        invariant
            i <= n,
            n <= bytes@.len(),
            out@ == bytes@.take(i as int),
        decreases n - i,
    {
        let b = bytes[i];
        out.push(b);
        i += 1;
    }
    out.push(0);
    proof {
        assert(out@ =~= spec_fill(bytes@, cap as nat));
    }
    out
}

/// The three destinations of one authentication callback.
pub struct AuthReply {
    /// Bytes for the workgroup buffer.
    pub workgroup: Vec<u8>,
    /// Bytes for the username buffer.
    pub username: Vec<u8>,
    /// Bytes for the password buffer.
    pub password: Vec<u8>,
}

impl AuthReply {
    /// Each destination holds its credential string truncated to its own
    /// declared length.
    pub open spec fn matches(
        self,
        creds: SmbCredentials,
        wg_cap: nat,
        un_cap: nat,
        pw_cap: nat,
    ) -> bool {
        self.workgroup@ == spec_fill(encode_utf8(creds.workgroup@), wg_cap)
            && self.username@ == spec_fill(encode_utf8(creds.username@), un_cap)
            && self.password@ == spec_fill(encode_utf8(creds.password@), pw_cap)
    }
}

/// Build the reply of one authentication callback: look the identity up
/// in the registry (falling back to the empty credential set on a miss,
/// never failing) and fill the three destinations, each bounded by its
/// own declared length.
pub fn auth_callback_reply(
    registry: &CredentialRegistry,
    id: u64,
    wg_cap: usize,
    un_cap: usize,
    pw_cap: usize,
) -> (r: AuthReply)
    requires
        registry.wf(),
    ensures
        r.workgroup@.len() <= wg_cap,
        r.username@.len() <= un_cap,
        r.password@.len() <= pw_cap,
        registry@.contains_key(id) ==> r.matches(
            registry@[id],
            wg_cap as nat,
            un_cap as nat,
            pw_cap as nat,
        ),
        !registry@.contains_key(id) ==> r.workgroup@ == spec_fill(
            encode_utf8(Seq::<char>::empty()),
            wg_cap as nat,
        ) && r.username@ == spec_fill(encode_utf8(Seq::<char>::empty()), un_cap as nat)
            && r.password@ == spec_fill(encode_utf8(Seq::<char>::empty()), pw_cap as nat),
{
    let creds = registry.get(id);
    AuthReply {
        workgroup: fill_buffer(creds.workgroup.as_str(), wg_cap),
        username: fill_buffer(creds.username.as_str(), un_cap),
        password: fill_buffer(creds.password.as_str(), pw_cap),
    }
}

/// The bridge never overflows a destination: for every credential value
/// and every declared buffer length, independently for each of the three
/// destinations, the bytes written fit within the declared length — also
/// at the boundary where the value is exactly the buffer length or
/// longer, where the value is truncated and the NUL still lands within
/// bounds.
pub proof fn lemma_fill_never_overflows(v: Seq<u8>, cap: nat)
    ensures
        spec_fill(v, cap).len() <= cap,
        cap > 0 ==> spec_fill(v, cap).len() == min(v.len() as int, cap - 1) + 1,
        cap > 0 ==> spec_fill(v, cap).last() == 0u8,
        v.len() >= cap > 0 ==> spec_fill(v, cap) == v.take(cap - 1) + seq![0u8],
{
}

} // verus!
