//! Per-context engine options and their native encodings.
//!
//! Each option is independently toggleable and is applied to a freshly
//! created context by the unverified shell, which hands the engine the
//! native codes computed here.

use vstd::prelude::*;

verus! {

/// Share-mode requested when opening files on the server.
#[derive(Clone, Copy, Debug, PartialEq, Eq, Structural)]
pub enum SmbShareMode {
    /// Compatibility mode.
    DenyDos,
    /// Exclusive access.
    DenyAll,
    /// Others may read, not write.
    DenyWrite,
    /// Others may write, not read.
    DenyRead,
    /// Unrestricted sharing.
    DenyNone,
    /// File-control-block compatibility mode.
    DenyFcb,
}

impl SmbShareMode {
    /// The engine's numeric code for this share mode.
    pub open spec fn spec_native_code(self) -> int {
        match self {
            SmbShareMode::DenyDos => 0,
            SmbShareMode::DenyAll => 1,
            SmbShareMode::DenyWrite => 2,
            SmbShareMode::DenyRead => 3,
            SmbShareMode::DenyNone => 4,
            SmbShareMode::DenyFcb => 7,
        }
    }

    /// Encode this share mode as the engine's numeric code.
    pub fn native_code(&self) -> (r: u32)
        ensures
            r == self.spec_native_code(),
    {
        match self {
            SmbShareMode::DenyDos => 0,
            SmbShareMode::DenyAll => 1,
            SmbShareMode::DenyWrite => 2,
            SmbShareMode::DenyRead => 3,
            SmbShareMode::DenyNone => 4,
            SmbShareMode::DenyFcb => 7,
        }
    }
}

/// Transport-encryption level requested from the engine.
#[derive(Clone, Copy, Debug, PartialEq, Eq, Structural)]
pub enum SmbEncryptionLevel {
    /// Leave the engine's own default in place.
    EngineDefault,
    /// Do not encrypt.
    Off,
    /// Request encryption, proceed without it if refused.
    Request,
    /// Require encryption, fail if refused.
    Require,
}

impl SmbEncryptionLevel {
    /// The engine's numeric code for this encryption level.
    pub open spec fn spec_native_code(self) -> int {
        match self {
            SmbEncryptionLevel::EngineDefault => -1,
            SmbEncryptionLevel::Off => 0,
            SmbEncryptionLevel::Request => 1,
            SmbEncryptionLevel::Require => 2,
        }
    }

    /// Encode this encryption level as the engine's numeric code.
    pub fn native_code(&self) -> (r: i32)
        ensures
            r == self.spec_native_code(),
    {
        match self {
            SmbEncryptionLevel::EngineDefault => -1,
            SmbEncryptionLevel::Off => 0,
            SmbEncryptionLevel::Request => 1,
            SmbEncryptionLevel::Require => 2,
        }
    }
}

/// Encode a boolean option as the engine's native flag value.
pub fn native_bool(b: bool) -> (r: i32)
    ensures
        b ==> r == 1,
        !b ==> r == 0,
{
    if b {
        1
    } else {
        0
    }
}

/// Option set applied to a context at client construction.
///
/// Defaults follow the engine's own defaults; every field can be
/// overridden through its builder method.
#[derive(Clone, Copy, Debug, PartialEq, Eq, Structural)]
pub struct SmbOptions {
    /// Upper bound on local-master-browser queries during workgroup
    /// enumeration.
    pub browser_max_lmb_count: i32,
    /// Treat paths as case sensitive.
    pub case_sensitive: bool,
    /// Fall back to NTLM after a failed Kerberos attempt.
    pub fallback_after_kerberos: bool,
    /// Refuse the automatic anonymous login the engine would otherwise try.
    pub no_auto_anonymous_login: bool,
    /// Keep at most one share connected per server.
    pub one_share_per_server: bool,
    /// Share mode used when opening files.
    pub open_share_mode: SmbShareMode,
    /// Requested transport-encryption level.
    pub encryption_level: SmbEncryptionLevel,
    /// URL-encode entry names in directory listings.
    pub url_encode_readdir_entries: bool,
    /// Use the Kerberos credential cache.
    pub use_ccache: bool,
    /// Authenticate through Kerberos.
    pub use_kerberos: bool,
}

impl SmbOptions {
    /// The option set matching the engine's own defaults.
    pub open spec fn spec_default() -> SmbOptions {
        SmbOptions {
            browser_max_lmb_count: 3,
            case_sensitive: false,
            fallback_after_kerberos: false,
            no_auto_anonymous_login: false,
            one_share_per_server: false,
            open_share_mode: SmbShareMode::DenyNone,
            encryption_level: SmbEncryptionLevel::EngineDefault,
            url_encode_readdir_entries: false,
            use_ccache: false,
            use_kerberos: false,
        }
    }

    /// Override the local-master-browser query bound.
    pub fn browser_max_lmb_count(self, v: i32) -> (r: Self)
        ensures
            r == (SmbOptions { browser_max_lmb_count: v, ..self }),
    {
        SmbOptions { browser_max_lmb_count: v, ..self }
    }

    /// Override path case sensitivity.
    pub fn case_sensitive(self, v: bool) -> (r: Self)
        ensures
            r == (SmbOptions { case_sensitive: v, ..self }),
    {
        SmbOptions { case_sensitive: v, ..self }
    }

    /// Override the NTLM fallback after Kerberos.
    pub fn fallback_after_kerberos(self, v: bool) -> (r: Self)
        ensures
            r == (SmbOptions { fallback_after_kerberos: v, ..self }),
    {
        SmbOptions { fallback_after_kerberos: v, ..self }
    }

    /// Override the refusal of automatic anonymous login.
    pub fn no_auto_anonymous_login(self, v: bool) -> (r: Self)
        ensures
            r == (SmbOptions { no_auto_anonymous_login: v, ..self }),
    {
        SmbOptions { no_auto_anonymous_login: v, ..self }
    }

    /// Override the one-share-per-server policy.
    pub fn one_share_per_server(self, v: bool) -> (r: Self)
        ensures
            r == (SmbOptions { one_share_per_server: v, ..self }),
    {
        SmbOptions { one_share_per_server: v, ..self }
    }

    /// Override the share mode used when opening files.
    pub fn open_share_mode(self, v: SmbShareMode) -> (r: Self)
        ensures
            r == (SmbOptions { open_share_mode: v, ..self }),
    {
        SmbOptions { open_share_mode: v, ..self }
    }

    /// Override the requested encryption level.
    pub fn encryption_level(self, v: SmbEncryptionLevel) -> (r: Self)
        ensures
            r == (SmbOptions { encryption_level: v, ..self }),
    {
        SmbOptions { encryption_level: v, ..self }
    }

    /// Override URL-encoding of listing entries.
    pub fn url_encode_readdir_entries(self, v: bool) -> (r: Self)
        ensures
            r == (SmbOptions { url_encode_readdir_entries: v, ..self }),
    {
        SmbOptions { url_encode_readdir_entries: v, ..self }
    }

    /// Override use of the Kerberos credential cache.
    pub fn use_ccache(self, v: bool) -> (r: Self)
        ensures
            r == (SmbOptions { use_ccache: v, ..self }),
    {
        SmbOptions { use_ccache: v, ..self }
    }

    /// Override Kerberos authentication.
    pub fn use_kerberos(self, v: bool) -> (r: Self)
        ensures
            r == (SmbOptions { use_kerberos: v, ..self }),
    {
        SmbOptions { use_kerberos: v, ..self }
    }
}

impl Default for SmbOptions {
    /// The option set matching the engine's own defaults.
    fn default() -> (r: Self)
        ensures
            r == SmbOptions::spec_default(),
    {
        SmbOptions {
            browser_max_lmb_count: 3,
            case_sensitive: false,
            fallback_after_kerberos: false,
            no_auto_anonymous_login: false,
            one_share_per_server: false,
            open_share_mode: SmbShareMode::DenyNone,
            encryption_level: SmbEncryptionLevel::EngineDefault,
            url_encode_readdir_entries: false,
            use_ccache: false,
            use_kerberos: false,
        }
    }
}

} // verus!
