//! Client-side access layer for a remote SMB/CIFS share.
//!
//! The wire protocol itself is delegated to an external engine exposed
//! through a C-style function-pointer table.  This crate holds the verified
//! bridging layer around that engine: the typed error model and its
//! translation of the engine's errno/pointer return convention, URI
//! construction, credential bookkeeping for the global authentication
//! callback, bounded buffer filling for that callback, directory-entry
//! decoding and filtering, and the file-handle lifecycle.  The raw calls
//! into the engine are performed by an unverified shell that consults the
//! functions in this crate for every decision.

pub mod auth;
pub mod client;
pub mod codec;
pub mod cred;
pub mod dirent;
pub mod error;
pub mod file;
pub mod mode;
pub mod options;
pub mod stat;
