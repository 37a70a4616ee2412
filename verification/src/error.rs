//! Typed error taxonomy and the translation of the engine's untyped
//! return convention (null pointers, negative integers, errno) into it.

use vstd::prelude::*;

verus! {

/// Error taxonomy of the access layer.
///
/// Every public operation reports failure through exactly one of these
/// variants; raw native codes never leak except wrapped inside `Io`.
#[derive(Clone, Copy, Debug, PartialEq, Eq, Structural)]
pub enum SmbError {
    /// The engine context could not be allocated or initialized; fatal to
    /// client construction.
    EngineInitError,
    /// An open or list operation returned an invalid (null or negative)
    /// handle.
    BadFileDescriptor,
    /// A string returned by the engine could not be decoded as valid text.
    BadValue,
    /// The engine does not expose the requested capability.
    UnsupportedOperation,
    /// The engine reported failure through a negative return; carries the
    /// platform error code observed right after the call.
    Io(i32),
}

/// Result type of every fallible operation of the access layer.
pub type SmbResult<T> = Result<T, SmbError>;

/// Translate an integer-returning engine call: a negative return means
/// failure and carries the platform error code, any other value is success.
pub fn translate_rc(rc: i32, errno: i32) -> (r: SmbResult<()>)
    ensures
        rc < 0 ==> r == SmbResult::<()>::Err(SmbError::Io(errno)),
        rc >= 0 ==> r == SmbResult::<()>::Ok(()),
{
    if rc < 0 {
        Err(SmbError::Io(errno))
    } else {
        Ok(())
    }
}

/// Outcome of a capability lookup: the engine hands out operations as
/// function pointers that may legitimately be absent, and absence is a
/// distinct error, not a crash.
pub fn resolve_capability(present: bool) -> (r: SmbResult<()>)
    ensures
        r is Ok <==> present,
        !present ==> r == SmbResult::<()>::Err(SmbError::UnsupportedOperation),
{
    if present {
        Ok(())
    } else {
        Err(SmbError::UnsupportedOperation)
    }
}

/// Outcome of one operation that resolves a capability and then makes a
/// single integer-returning engine call: a missing capability is reported
/// before any call, a negative return carries the platform error code.
///
/// When the capability is absent no call was made, so `rc` and `errno`
/// carry no information and the outcome ignores them.
pub fn simple_op_outcome(cap_present: bool, rc: i32, errno: i32) -> (r: SmbResult<()>)
    ensures
        !cap_present ==> r == SmbResult::<()>::Err(SmbError::UnsupportedOperation),
        cap_present && rc < 0 ==> r == SmbResult::<()>::Err(SmbError::Io(errno)),
        cap_present && rc >= 0 ==> r == SmbResult::<()>::Ok(()),
{
    resolve_capability(cap_present)?;
    translate_rc(rc, errno)
}

/// Outcome of engine-context construction: allocation and initialization
/// each signal failure through a null return, and either failure is fatal
/// to client construction.
pub fn context_create_outcome(alloc_ok: bool, init_ok: bool) -> (r: SmbResult<()>)
    ensures
        r is Ok <==> alloc_ok && init_ok,
        r is Err ==> r == SmbResult::<()>::Err(SmbError::EngineInitError),
{
    if alloc_ok && init_ok {
        Ok(())
    } else {
        Err(SmbError::EngineInitError)
    }
}

} // verus!
