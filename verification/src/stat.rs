//! File and filesystem metadata: conversion of the engine's zeroed-
//! then-filled native stat buffers into typed values, and the outcome of
//! the two stat operations.
//!
//! The unverified shell allocates the native buffer, makes the call, and
//! hands the buffer's plain fields here.

use vstd::prelude::*;

use crate::error::{SmbError, SmbResult};
use crate::mode::SmbMode;

verus! {

/// A point in time as the native buffers carry it: seconds since the
/// epoch and the nanosecond remainder.
#[derive(Clone, Copy, Debug, PartialEq, Eq, Structural)]
pub struct SmbTime {
    /// Whole seconds since the Unix epoch.
    pub secs: i64,
    /// Nanoseconds within the second.
    pub nanos: u32,
}

/// The plain fields of a native `stat` buffer after a successful call.
#[derive(Clone, Copy, Debug, PartialEq, Eq, Structural)]
pub struct RawStat {
    /// Device identifier.
    pub st_dev: u64,
    /// Inode number.
    pub st_ino: u64,
    /// File type and permission bits.
    pub st_mode: u32,
    /// Hard-link count.
    pub st_nlink: u64,
    /// Owning user.
    pub st_uid: u32,
    /// Owning group.
    pub st_gid: u32,
    /// Special-file device identifier.
    pub st_rdev: u64,
    /// Size in bytes.
    pub st_size: i64,
    /// Preferred I/O block size.
    pub st_blksize: i64,
    /// Allocated 512-byte blocks.
    pub st_blocks: i64,
    /// Last access, seconds.
    pub st_atime: i64,
    /// Last access, nanosecond remainder.
    pub st_atime_nsec: i64,
    /// Last content modification, seconds.
    pub st_mtime: i64,
    /// Last content modification, nanosecond remainder.
    pub st_mtime_nsec: i64,
    /// Last metadata change, seconds.
    pub st_ctime: i64,
    /// Last metadata change, nanosecond remainder.
    pub st_ctime_nsec: i64,
}

/// Typed metadata of one file.
#[derive(Clone, Copy, Debug, PartialEq, Eq, Structural)]
pub struct SmbStat {
    /// Last access time.
    pub accessed: SmbTime,
    /// Preferred I/O block size.
    pub blksize: u64,
    /// Allocated 512-byte blocks.
    pub blocks: u64,
    /// Last metadata-change time.
    pub created: SmbTime,
    /// Device identifier.
    pub dev: u64,
    /// Owning group.
    pub gid: u32,
    /// Inode number.
    pub ino: u64,
    /// Permission mode (file-type bits discarded).
    pub mode: SmbMode,
    /// Last content-modification time.
    pub modified: SmbTime,
    /// Hard-link count.
    pub nlink: u64,
    /// Special-file device identifier.
    pub rdev: u64,
    /// Size in bytes.
    pub size: u64,
    /// Owning user.
    pub uid: u32,
}

/// The typed metadata a native stat buffer denotes: sizes and counters
/// reinterpreted as unsigned exactly as the native cast would, the
/// permission mode split from the low mode bits.
pub open spec fn spec_stat_of(raw: RawStat) -> SmbStat {
    SmbStat {
        accessed: SmbTime { secs: raw.st_atime, nanos: raw.st_atime_nsec as u32 },
        blksize: raw.st_blksize as u64,
        blocks: raw.st_blocks as u64,
        created: SmbTime { secs: raw.st_ctime, nanos: raw.st_ctime_nsec as u32 },
        dev: raw.st_dev,
        gid: raw.st_gid,
        ino: raw.st_ino,
        mode: SmbMode::spec_from_native(raw.st_mode),
        modified: SmbTime { secs: raw.st_mtime, nanos: raw.st_mtime_nsec as u32 },
        nlink: raw.st_nlink,
        rdev: raw.st_rdev,
        size: raw.st_size as u64,
        uid: raw.st_uid,
    }
}

/// Convert a filled native stat buffer.
pub fn stat_from_raw(raw: &RawStat) -> (r: SmbStat)
    ensures
        r == spec_stat_of(*raw),
{
    SmbStat {
        accessed: SmbTime {
            secs: raw.st_atime,
            nanos: #[verifier::truncate] (raw.st_atime_nsec as u32),
        },
        blksize: #[verifier::truncate] (raw.st_blksize as u64),
        blocks: #[verifier::truncate] (raw.st_blocks as u64),
        created: SmbTime {
            secs: raw.st_ctime,
            nanos: #[verifier::truncate] (raw.st_ctime_nsec as u32),
        },
        dev: raw.st_dev,
        gid: raw.st_gid,
        ino: raw.st_ino,
        mode: SmbMode::from(raw.st_mode),
        modified: SmbTime {
            secs: raw.st_mtime,
            nanos: #[verifier::truncate] (raw.st_mtime_nsec as u32),
        },
        nlink: raw.st_nlink,
        rdev: raw.st_rdev,
        size: #[verifier::truncate] (raw.st_size as u64),
        uid: raw.st_uid,
    }
}

/// Outcome of the file-stat operation: a missing capability is reported
/// before any call, a negative return carries the platform error code,
/// and success is the converted buffer.
pub fn stat_outcome(cap_present: bool, rc: i32, errno: i32, raw: &RawStat) -> (r: SmbResult<
    SmbStat,
>)
    ensures
        !cap_present ==> r == SmbResult::<SmbStat>::Err(SmbError::UnsupportedOperation),
        cap_present && rc < 0 ==> r == SmbResult::<SmbStat>::Err(SmbError::Io(errno)),
        cap_present && rc >= 0 ==> r == SmbResult::<SmbStat>::Ok(spec_stat_of(*raw)),
{
    if !cap_present {
        Err(SmbError::UnsupportedOperation)
    } else if rc < 0 {
        Err(SmbError::Io(errno))
    } else {
        Ok(stat_from_raw(raw))
    }
}

/// The plain fields of a native `statvfs` buffer after a successful
/// call.
#[derive(Clone, Copy, Debug, PartialEq, Eq, Structural)]
pub struct RawStatVfs {
    /// Filesystem block size.
    pub f_bsize: u64,
    /// Fragment size.
    pub f_frsize: u64,
    /// Total fragments.
    pub f_blocks: u64,
    /// Free blocks.
    pub f_bfree: u64,
    /// Free blocks available to unprivileged users.
    pub f_bavail: u64,
    /// Total inodes.
    pub f_files: u64,
    /// Free inodes.
    pub f_ffree: u64,
    /// Free inodes available to unprivileged users.
    pub f_favail: u64,
    /// Filesystem identifier.
    pub f_fsid: u64,
    /// Mount flags.
    pub f_flag: u64,
    /// Longest filename length.
    pub f_namemax: u64,
}

/// Typed metadata of one filesystem.
#[derive(Clone, Copy, Debug, PartialEq, Eq, Structural)]
pub struct SmbStatVfs {
    /// Filesystem block size.
    pub bsize: u64,
    /// Fragment size.
    pub frsize: u64,
    /// Total fragments.
    pub blocks: u64,
    /// Free blocks.
    pub bfree: u64,
    /// Free blocks available to unprivileged users.
    pub bavail: u64,
    /// Total inodes.
    pub files: u64,
    /// Free inodes.
    pub ffree: u64,
    /// Free inodes available to unprivileged users.
    pub favail: u64,
    /// Filesystem identifier.
    pub fsid: u64,
    /// Mount flags.
    pub flag: u64,
    /// Longest filename length.
    pub namemax: u64,
}

/// The typed metadata a native statvfs buffer denotes, field for field.
pub open spec fn spec_statvfs_of(raw: RawStatVfs) -> SmbStatVfs {
    SmbStatVfs {
        bsize: raw.f_bsize,
        frsize: raw.f_frsize,
        blocks: raw.f_blocks,
        bfree: raw.f_bfree,
        bavail: raw.f_bavail,
        files: raw.f_files,
        ffree: raw.f_ffree,
        favail: raw.f_favail,
        fsid: raw.f_fsid,
        flag: raw.f_flag,
        namemax: raw.f_namemax,
    }
}

/// Convert a filled native statvfs buffer.
pub fn statvfs_from_raw(raw: &RawStatVfs) -> (r: SmbStatVfs)
    ensures
        r == spec_statvfs_of(*raw),
{
    SmbStatVfs {
        bsize: raw.f_bsize,
        frsize: raw.f_frsize,
        blocks: raw.f_blocks,
        bfree: raw.f_bfree,
        bavail: raw.f_bavail,
        files: raw.f_files,
        ffree: raw.f_ffree,
        favail: raw.f_favail,
        fsid: raw.f_fsid,
        flag: raw.f_flag,
        namemax: raw.f_namemax,
    }
}

/// Outcome of the filesystem-stat operation, as [`stat_outcome`].
pub fn statvfs_outcome(cap_present: bool, rc: i32, errno: i32, raw: &RawStatVfs) -> (r: SmbResult<
    SmbStatVfs,
>)
    ensures
        !cap_present ==> r == SmbResult::<SmbStatVfs>::Err(SmbError::UnsupportedOperation),
        cap_present && rc < 0 ==> r == SmbResult::<SmbStatVfs>::Err(SmbError::Io(errno)),
        cap_present && rc >= 0 ==> r == SmbResult::<SmbStatVfs>::Ok(spec_statvfs_of(*raw)),
{
    if !cap_present {
        Err(SmbError::UnsupportedOperation)
    } else if rc < 0 {
        Err(SmbError::Io(errno))
    } else {
        Ok(statvfs_from_raw(raw))
    }
}

} // verus!
