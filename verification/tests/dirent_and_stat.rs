//! Directory-entry decoding and filtering, and metadata conversion.

use pavao::dirent::{collect_entries, collect_entries_plus, decode_dirent, dir_open_outcome,
    is_visible_name, RawDirent, RawDirentInfo, SmbDirentType};
use pavao::error::{simple_op_outcome, SmbError};
use pavao::mode::SmbMode;
use pavao::stat::{stat_from_raw, stat_outcome, statvfs_from_raw, statvfs_outcome, RawStat,
    RawStatVfs, SmbTime};

fn raw(type_code: u32, name: &[u8]) -> RawDirent {
    RawDirent {
        type_code,
        name: name.to_vec(),
    }
}

fn raw_info(name: &[u8], attrs: u16) -> RawDirentInfo {
    RawDirentInfo {
        name: name.to_vec(),
        attrs,
        size: 0,
        uid: 0,
        gid: 0,
        created: SmbTime { secs: 0, nanos: 0 },
        modified: SmbTime { secs: 0, nanos: 0 },
        accessed: SmbTime { secs: 0, nanos: 0 },
        changed: SmbTime { secs: 0, nanos: 0 },
    }
}

#[test]
fn type_codes_decode_to_documented_kinds() {
    assert_eq!(
        SmbDirentType::from_code(1),
        Some(SmbDirentType::Workgroup)
    );
    assert_eq!(SmbDirentType::from_code(7), Some(SmbDirentType::Dir));
    assert_eq!(SmbDirentType::from_code(8), Some(SmbDirentType::File));
    assert_eq!(SmbDirentType::from_code(9), Some(SmbDirentType::SymLink));
    assert_eq!(SmbDirentType::from_code(0), None);
    assert_eq!(SmbDirentType::from_code(10), None);
}

#[test]
fn decode_entry_carries_name_and_kind() {
    let e = decode_dirent(&raw(8, b"report.txt")).unwrap();
    assert_eq!(e.name(), "report.txt");
    assert_eq!(e.get_type(), SmbDirentType::File);
}

#[test]
fn decode_fails_on_undocumented_kind() {
    assert!(decode_dirent(&raw(11, b"x")).is_none());
}

#[test]
fn decode_fails_on_invalid_name_bytes() {
    assert!(decode_dirent(&raw(8, &[0xff, 0x20])).is_none());
}

#[test]
fn self_and_parent_links_are_hidden() {
    assert!(!is_visible_name("."));
    assert!(!is_visible_name(".."));
    assert!(!is_visible_name(""));
    assert!(is_visible_name("..."));
    assert!(is_visible_name("a"));
    assert!(is_visible_name(".hidden"));
}

#[test]
fn listing_excludes_dots_and_skips_undecodable_records() {
    let records = vec![
        raw(7, b"."),
        raw(7, b".."),
        raw(8, b"abc"),
        raw(8, &[0xff, 0xff]),
        raw(42, b"badkind"),
        raw(7, b"sub"),
        raw(8, b""),
    ];
    let entries = collect_entries(&records);
    assert_eq!(entries.len(), 2);
    assert_eq!(entries[0].name(), "abc");
    assert_eq!(entries[0].get_type(), SmbDirentType::File);
    assert_eq!(entries[1].name(), "sub");
    assert_eq!(entries[1].get_type(), SmbDirentType::Dir);
}

#[test]
fn listing_of_three_created_entries_is_complete() {
    // Create a directory with mode 0755 and two files, then list: the
    // listing shows exactly the three names, typed, once sorted.
    let mode = SmbMode::from(0o755);
    assert_eq!(mode.to_native(), 0o755);
    assert_eq!(simple_op_outcome(true, 0, 0), Ok(()));
    let records = vec![
        raw(7, b"."),
        raw(7, b".."),
        raw(8, b"def"),
        raw(7, b"jfk"),
        raw(8, b"abc"),
    ];
    let mut entries = collect_entries(&records);
    entries.sort_by(|a, b| a.name().cmp(b.name()));
    assert_eq!(entries.len(), 3);
    assert_eq!(entries[0].name(), "abc");
    assert_eq!(entries[0].get_type(), SmbDirentType::File);
    assert_eq!(entries[1].name(), "def");
    assert_eq!(entries[1].get_type(), SmbDirentType::File);
    assert_eq!(entries[2].name(), "jfk");
    assert_eq!(entries[2].get_type(), SmbDirentType::Dir);
}

#[test]
fn plus_listing_filters_and_keeps_metadata() {
    let mut with_size = raw_info(b"data.bin", 0x20);
    with_size.size = 14;
    let records = vec![
        raw_info(b".", 0x10),
        raw_info(b"..", 0x10),
        with_size,
        raw_info(&[0xc0], 0x20),
        raw_info(b"sub", 0x10),
    ];
    let entries = collect_entries_plus(&records);
    assert_eq!(entries.len(), 2);
    assert_eq!(entries[0].name(), "data.bin");
    assert_eq!(entries[0].get_type(), SmbDirentType::File);
    assert_eq!(entries[0].size(), 14);
    assert_eq!(entries[1].name(), "sub");
    assert_eq!(entries[1].get_type(), SmbDirentType::Dir);
}

#[test]
fn null_directory_handle_is_bad_file_descriptor() {
    assert_eq!(dir_open_outcome(true), Err(SmbError::BadFileDescriptor));
    assert_eq!(dir_open_outcome(false), Ok(()));
}

fn sample_raw_stat() -> RawStat {
    RawStat {
        st_dev: 11,
        st_ino: 22,
        st_mode: 0o100744,
        st_nlink: 1,
        st_uid: 1000,
        st_gid: 1001,
        st_rdev: 0,
        st_size: 14,
        st_blksize: 4096,
        st_blocks: 8,
        st_atime: 1_700_000_000,
        st_atime_nsec: 500,
        st_mtime: 1_700_000_100,
        st_mtime_nsec: 600,
        st_ctime: 1_700_000_200,
        st_ctime_nsec: 700,
    }
}

#[test]
fn stat_conversion_is_field_exact() {
    let st = stat_from_raw(&sample_raw_stat());
    assert_eq!(st.size, 14);
    assert_eq!(st.blksize, 4096);
    assert_eq!(st.blocks, 8);
    assert_eq!(st.dev, 11);
    assert_eq!(st.ino, 22);
    assert_eq!(st.nlink, 1);
    assert_eq!(st.uid, 1000);
    assert_eq!(st.gid, 1001);
    assert_eq!(st.mode, SmbMode::from(0o744));
    assert_eq!(st.accessed, SmbTime { secs: 1_700_000_000, nanos: 500 });
    assert_eq!(st.modified, SmbTime { secs: 1_700_000_100, nanos: 600 });
    assert_eq!(st.created, SmbTime { secs: 1_700_000_200, nanos: 700 });
    assert_ne!(st.accessed, SmbTime { secs: 0, nanos: 0 });
    assert_ne!(st.blksize, 0);
    assert_ne!(st.blocks, 0);
}

#[test]
fn stat_failure_paths_are_typed() {
    let raw = sample_raw_stat();
    assert_eq!(
        stat_outcome(false, 0, 0, &raw),
        Err(SmbError::UnsupportedOperation)
    );
    assert_eq!(stat_outcome(true, -1, 2, &raw), Err(SmbError::Io(2)));
    assert_eq!(stat_outcome(true, 0, 0, &raw), Ok(stat_from_raw(&raw)));
}

#[test]
fn statvfs_conversion_and_outcomes() {
    let raw = RawStatVfs {
        f_bsize: 4096,
        f_frsize: 512,
        f_blocks: 100,
        f_bfree: 60,
        f_bavail: 50,
        f_files: 1000,
        f_ffree: 900,
        f_favail: 890,
        f_fsid: 77,
        f_flag: 1,
        f_namemax: 255,
    };
    let vfs = statvfs_from_raw(&raw);
    assert_eq!(vfs.bsize, 4096);
    assert_eq!(vfs.frsize, 512);
    assert_eq!(vfs.blocks, 100);
    assert_eq!(vfs.namemax, 255);
    assert_eq!(
        statvfs_outcome(false, 0, 0, &raw),
        Err(SmbError::UnsupportedOperation)
    );
    assert_eq!(statvfs_outcome(true, -5, 13, &raw), Err(SmbError::Io(13)));
    assert_eq!(statvfs_outcome(true, 0, 0, &raw), Ok(vfs));
}
