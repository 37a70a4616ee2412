//! File handles: open options, the outcome of the open call, the
//! translation of per-call read/write/seek returns, and the close-once
//! lifecycle.
//!
//! A handle wraps the engine's file descriptor; the owning client must
//! stay alive for every call the handle makes, which the unverified
//! shell enforces by borrowing the client.  Release is decided here:
//! the first release orders exactly one native close, any further
//! release is a no-op.

use vstd::prelude::*;

use crate::error::{SmbError, SmbResult};

verus! {

/// Options of one open call: access mode, creation flags, and the
/// permission mode applied when the call creates the file.
#[derive(Clone, Copy, Debug, PartialEq, Eq, Structural)]
pub struct SmbOpenOptions {
    /// Open for reading.
    pub read: bool,
    /// Open for writing.
    pub write: bool,
    /// Write at the end of the file.
    pub append: bool,
    /// Create the file when it does not exist.
    pub create: bool,
    /// Truncate the file to zero length.
    pub truncate: bool,
    /// Permission bits applied when the call creates the file.
    pub mode: u32,
}

impl SmbOpenOptions {
    /// The native open flags of this option set: the access mode (0 read
    /// only, 1 write only, 2 read-write) plus the append bit (0o2000),
    /// the create bit (0o100) and the truncate bit (0o1000), following
    /// the POSIX flag values the engine consumes.
    pub open spec fn spec_flags(self) -> int {
        (if self.read && self.write {
            2int
        } else if self.write {
            1int
        } else {
            0int
        }) + (if self.append {
            0o2000int
        } else {
            0int
        }) + (if self.create {
            0o100int
        } else {
            0int
        }) + (if self.truncate {
            0o1000int
        } else {
            0int
        })
    }

    /// Open for reading.
    pub fn read(self, v: bool) -> (r: Self)
        ensures
            r == (SmbOpenOptions { read: v, ..self }),
    {
        SmbOpenOptions { read: v, ..self }
    }

    /// Open for writing.
    pub fn write(self, v: bool) -> (r: Self)
        ensures
            r == (SmbOpenOptions { write: v, ..self }),
    {
        SmbOpenOptions { write: v, ..self }
    }

    /// Write at the end of the file.
    pub fn append(self, v: bool) -> (r: Self)
        ensures
            r == (SmbOpenOptions { append: v, ..self }),
    {
        SmbOpenOptions { append: v, ..self }
    }

    /// Create the file when it does not exist.
    pub fn create(self, v: bool) -> (r: Self)
        ensures
            r == (SmbOpenOptions { create: v, ..self }),
    {
        SmbOpenOptions { create: v, ..self }
    }

    /// Truncate the file to zero length.
    pub fn truncate(self, v: bool) -> (r: Self)
        ensures
            r == (SmbOpenOptions { truncate: v, ..self }),
    {
        SmbOpenOptions { truncate: v, ..self }
    }

    /// Permission bits applied when the call creates the file.
    pub fn mode(self, v: u32) -> (r: Self)
        ensures
            r == (SmbOpenOptions { mode: v, ..self }),
    {
        SmbOpenOptions { mode: v, ..self }
    }

    /// Compute the native open flags.
    pub fn to_flags(&self) -> (r: i32)
        ensures
            r == self.spec_flags(),
    {
        let base: i32 = if self.read && self.write {
            2
        } else if self.write {
            1
        } else {
            0
        };
        let with_append: i32 = base + (if self.append {
            0o2000
        } else {
            0
        });
        let with_create: i32 = with_append + (if self.create {
            0o100
        } else {
            0
        });
        with_create + (if self.truncate {
            0o1000
        } else {
            0
        })
    }
}

impl Default for SmbOpenOptions {
    /// All access and creation flags off, creation mode 0644.
    fn default() -> (r: Self)
        ensures
            r == (SmbOpenOptions {
                read: false,
                write: false,
                append: false,
                create: false,
                truncate: false,
                mode: 0o644,
            }),
    {
        SmbOpenOptions {
            read: false,
            write: false,
            append: false,
            create: false,
            truncate: false,
            mode: 0o644,
        }
    }
}

/// Mathematical content of a file handle: the native descriptor's
/// identity and whether the handle was already released.
pub ghost struct FileHandleView {
    /// The native descriptor's address.
    pub fd: u64,
    /// Whether the native descriptor was already closed.
    pub closed: bool,
}

/// A file handle bound to one native descriptor, closed exactly once.
pub struct FileHandle {
    fd: u64,
    closed: bool,
}

impl View for FileHandle {
    type V = FileHandleView;

    closed spec fn view(&self) -> FileHandleView {
        FileHandleView { fd: self.fd, closed: self.closed }
    }
}

/// The release transition: the handle ends closed, and the native close
/// call is ordered exactly when the handle was still open.
pub open spec fn spec_release(h: FileHandleView) -> (FileHandleView, bool) {
    (FileHandleView { closed: true, ..h }, !h.closed)
}

impl FileHandle {
    /// The native descriptor's address, handed back to the engine on
    /// every call made through this handle.
    pub fn fd(&self) -> (r: u64)
        ensures
            r == self@.fd,
    {
        self.fd
    }

    /// Whether the handle was already released.
    pub fn is_closed(&self) -> (r: bool)
        ensures
            r == self@.closed,
    {
        self.closed
    }

    /// Decide one release: reports whether the caller must perform the
    /// native close now.  The first release of an open handle orders it;
    /// after that the handle is closed and every further release orders
    /// nothing.
    pub fn release(&mut self) -> (do_close: bool)
        ensures
            (final(self)@, do_close) == spec_release(old(self)@),
    {
        let was_open = !self.closed;
        self.closed = true;
        was_open
    }
}

/// Outcome of the open call.  The engine must expose the open
/// capability; the returned descriptor is rejected both when its pointer
/// is null and when its value is negative — the engine can hand out a
/// non-null but semantically invalid descriptor, so both checks are
/// required.  On success the handle starts open, bound to the
/// descriptor.
pub fn open_outcome(cap_present: bool, fd_addr: u64) -> (r: SmbResult<FileHandle>)
    ensures
        !cap_present ==> r == SmbResult::<FileHandle>::Err(SmbError::UnsupportedOperation),
        cap_present && (fd_addr == 0 || fd_addr > i64::MAX as u64) ==> r == SmbResult::<
            FileHandle,
        >::Err(SmbError::BadFileDescriptor),
        cap_present && 0 < fd_addr <= i64::MAX as u64 ==> (r matches Ok(h) && h@
            == (FileHandleView { fd: fd_addr, closed: false })),
{
    if !cap_present {
        Err(SmbError::UnsupportedOperation)
    } else if fd_addr == 0 || fd_addr > 0x7fff_ffff_ffff_ffff {
        Err(SmbError::BadFileDescriptor)
    } else {
        Ok(FileHandle { fd: fd_addr, closed: false })
    }
}

/// Outcome of one native read or write: a negative return carries the
/// platform error code, any other return is the number of bytes
/// transferred, which the engine bounds by the requested amount.
pub fn io_outcome(rc: i64, errno: i32, requested: usize) -> (r: SmbResult<usize>)
    requires
        rc <= requested as int,
    ensures
        rc < 0 ==> r == SmbResult::<usize>::Err(SmbError::Io(errno)),
        rc >= 0 ==> r == SmbResult::<usize>::Ok(rc as usize),
{
    if rc < 0 {
        Err(SmbError::Io(errno))
    } else {
        Ok(rc as usize)
    }
}

/// Outcome of one native seek: a negative return carries the platform
/// error code, any other return is the new stream position.
pub fn seek_outcome(rc: i64, errno: i32) -> (r: SmbResult<u64>)
    ensures
        rc < 0 ==> r == SmbResult::<u64>::Err(SmbError::Io(errno)),
        rc >= 0 ==> r == SmbResult::<u64>::Ok(rc as u64),
{
    if rc < 0 {
        Err(SmbError::Io(errno))
    } else {
        Ok(rc as u64)
    }
}

/// Release is idempotent: after any release the handle is closed and its
/// descriptor identity is unchanged, a release of a closed handle orders
/// no native call, and two consecutive releases order at most one native
/// close — the second never does.
pub proof fn lemma_release_idempotent(h: FileHandleView)
    ensures
        spec_release(h).0.closed,
        spec_release(h).0.fd == h.fd,
        h.closed ==> !spec_release(h).1,
        !spec_release(spec_release(h).0).1,
{
}

} // verus!
