//! Open options and flags, permission modes, option encodings, and the
//! file-handle lifecycle, including a full write-then-read session
//! against a scripted engine double.

use pavao::error::SmbError;
use pavao::file::{io_outcome, open_outcome, seek_outcome, SmbOpenOptions};
use pavao::mode::SmbMode;
use pavao::options::{native_bool, SmbEncryptionLevel, SmbOptions, SmbShareMode};

#[test]
fn mode_splits_into_classes() {
    let m = SmbMode::from(0o755);
    assert_eq!(m.user, 7);
    assert_eq!(m.group, 5);
    assert_eq!(m.other, 5);
    assert_eq!(m.to_native(), 0o755);
}

#[test]
fn mode_discards_file_type_bits() {
    let m = SmbMode::from(0o100644);
    assert_eq!(m, SmbMode::from(0o644));
    assert_eq!(m.to_native(), 0o644);
}

#[test]
fn open_flags_encode_access_mode() {
    let o = SmbOpenOptions::default();
    assert_eq!(o.read(true).to_flags(), 0);
    assert_eq!(o.write(true).to_flags(), 1);
    assert_eq!(o.read(true).write(true).to_flags(), 2);
}

#[test]
fn open_flags_add_creation_bits() {
    let o = SmbOpenOptions::default();
    assert_eq!(o.write(true).create(true).to_flags(), 1 + 0o100);
    assert_eq!(o.write(true).append(true).to_flags(), 1 + 0o2000);
    assert_eq!(
        o.read(true).write(true).create(true).truncate(true).to_flags(),
        2 + 0o100 + 0o1000
    );
}

#[test]
fn open_options_default_mode() {
    assert_eq!(SmbOpenOptions::default().mode, 0o644);
    assert_eq!(SmbOpenOptions::default().mode(0o744).mode, 0o744);
}

#[test]
fn option_encodings_match_engine_codes() {
    assert_eq!(SmbShareMode::DenyDos.native_code(), 0);
    assert_eq!(SmbShareMode::DenyNone.native_code(), 4);
    assert_eq!(SmbShareMode::DenyFcb.native_code(), 7);
    assert_eq!(SmbEncryptionLevel::EngineDefault.native_code(), -1);
    assert_eq!(SmbEncryptionLevel::Require.native_code(), 2);
    assert_eq!(native_bool(true), 1);
    assert_eq!(native_bool(false), 0);
}

#[test]
fn options_builder_overrides_defaults() {
    let o = SmbOptions::default()
        .case_sensitive(true)
        .use_kerberos(true)
        .open_share_mode(SmbShareMode::DenyAll);
    assert!(o.case_sensitive);
    assert!(o.use_kerberos);
    assert_eq!(o.open_share_mode, SmbShareMode::DenyAll);
    assert!(!o.use_ccache);
    assert_eq!(SmbOptions::default().browser_max_lmb_count, 3);
}

#[test]
fn open_rejects_missing_capability_and_bad_descriptors() {
    assert_eq!(
        open_outcome(false, 1).map(|_| ()),
        Err(SmbError::UnsupportedOperation)
    );
    assert_eq!(
        open_outcome(true, 0).map(|_| ()),
        Err(SmbError::BadFileDescriptor)
    );
    // Non-null but negative as a signed descriptor: still rejected.
    assert_eq!(
        open_outcome(true, u64::MAX).map(|_| ()),
        Err(SmbError::BadFileDescriptor)
    );
}

#[test]
fn open_success_binds_descriptor() {
    let h = open_outcome(true, 0x1234).unwrap();
    assert_eq!(h.fd(), 0x1234);
    assert!(!h.is_closed());
}

#[test]
fn release_closes_exactly_once() {
    let mut h = open_outcome(true, 0x1234).unwrap();
    let mut native_closes = 0;
    if h.release() {
        native_closes += 1;
    }
    assert!(h.is_closed());
    if h.release() {
        native_closes += 1;
    }
    assert!(h.is_closed());
    assert_eq!(native_closes, 1);
}

#[test]
fn io_returns_are_translated() {
    assert_eq!(io_outcome(-1, 32, 100), Err(SmbError::Io(32)));
    assert_eq!(io_outcome(12, 0, 12), Ok(12));
    assert_eq!(io_outcome(0, 0, 4), Ok(0));
    assert_eq!(seek_outcome(-1, 22), Err(SmbError::Io(22)));
    assert_eq!(seek_outcome(14, 0), Ok(14));
}

/// A scripted engine double: one file body, a cursor per handle, the
/// flag conventions the verified flag builder emits.
struct EngineDouble {
    body: Vec<u8>,
    cursor: usize,
}

impl EngineDouble {
    fn new() -> EngineDouble {
        EngineDouble {
            body: Vec::new(),
            cursor: 0,
        }
    }

    /// Native open: honours the create (0o100), truncate (0o1000) and
    /// append (0o2000) bits and hands out a descriptor address.
    fn open(&mut self, flags: i32) -> u64 {
        if flags & 0o1000 != 0 {
            self.body.clear();
        }
        self.cursor = if flags & 0o2000 != 0 {
            self.body.len()
        } else {
            0
        };
        0x5000
    }

    fn write(&mut self, data: &[u8]) -> i64 {
        self.body.truncate(self.cursor);
        self.body.extend_from_slice(data);
        self.cursor += data.len();
        data.len() as i64
    }

    fn read(&mut self, want: usize) -> Vec<u8> {
        let end = usize::min(self.cursor + want, self.body.len());
        let out = self.body[self.cursor..end].to_vec();
        self.cursor = end;
        out
    }
}

#[test]
fn write_then_read_returns_written_bytes() {
    let mut engine = EngineDouble::new();
    // Open for write+create, write 12 bytes, close.
    let opts = SmbOpenOptions::default().write(true).create(true);
    let fd = engine.open(opts.to_flags());
    let mut handle = open_outcome(true, fd).unwrap();
    let payload = b"test string\n";
    let rc = engine.write(payload);
    assert_eq!(io_outcome(rc, 0, payload.len()), Ok(12));
    assert!(handle.release());
    // Re-open for read: exactly those 12 bytes come back.
    let fd = engine.open(SmbOpenOptions::default().read(true).to_flags());
    let mut handle = open_outcome(true, fd).unwrap();
    let back = engine.read(64);
    assert_eq!(io_outcome(back.len() as i64, 0, 64), Ok(12));
    assert_eq!(back, payload.to_vec());
    assert!(handle.release());
}

#[test]
fn append_extends_earlier_content() {
    let mut engine = EngineDouble::new();
    let opts = SmbOpenOptions::default().write(true).create(true);
    let fd = engine.open(opts.to_flags());
    let mut handle = open_outcome(true, fd).unwrap();
    let first = b"Hello, World!\n";
    assert_eq!(io_outcome(engine.write(first), 0, first.len()), Ok(14));
    assert!(handle.release());
    // Open for write+append and add more.
    let opts = SmbOpenOptions::default().write(true).append(true);
    let fd = engine.open(opts.to_flags());
    let mut handle = open_outcome(true, fd).unwrap();
    let second = b"Bonjour\n";
    assert_eq!(io_outcome(engine.write(second), 0, second.len()), Ok(8));
    assert!(handle.release());
    // Read everything back.
    let fd = engine.open(SmbOpenOptions::default().read(true).to_flags());
    let mut handle = open_outcome(true, fd).unwrap();
    let back = engine.read(1024);
    assert_eq!(back, b"Hello, World!\nBonjour\n".to_vec());
    assert!(handle.release());
}
