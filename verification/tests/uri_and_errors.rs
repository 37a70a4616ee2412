//! URI construction and the error translator.

use pavao::client::{build_uri, full_uri, timeout_from_native, timeout_to_native};
use pavao::error::{context_create_outcome, resolve_capability, simple_op_outcome, translate_rc,
    SmbError};

#[test]
fn should_build_uri() {
    let base = build_uri("smb://localhost:3445", "/temp");
    let uri = full_uri(base.as_str(), "/test");
    assert!(uri.as_str().ends_with("/temp/test"));
}

#[test]
fn build_uri_inserts_separator() {
    assert_eq!(
        build_uri("smb://host", "share").as_str(),
        "smb://host/share"
    );
}

#[test]
fn build_uri_keeps_existing_separator() {
    assert_eq!(
        build_uri("smb://host", "/share").as_str(),
        "smb://host/share"
    );
}

#[test]
fn build_uri_empty_share_gets_separator() {
    assert_eq!(build_uri("smb://host", "").as_str(), "smb://host/");
}

#[test]
fn full_uri_concatenates_verbatim() {
    assert_eq!(
        full_uri("smb://host/share", "/dir/file").as_str(),
        "smb://host/share/dir/file"
    );
}

#[test]
fn negative_return_wraps_platform_code() {
    assert_eq!(translate_rc(-1, 13), Err(SmbError::Io(13)));
    assert_eq!(translate_rc(-7, 2), Err(SmbError::Io(2)));
}

#[test]
fn non_negative_return_is_success() {
    assert_eq!(translate_rc(0, 0), Ok(()));
    assert_eq!(translate_rc(5, 99), Ok(()));
}

#[test]
fn missing_capability_is_unsupported_operation() {
    assert_eq!(resolve_capability(false), Err(SmbError::UnsupportedOperation));
    assert_eq!(resolve_capability(true), Ok(()));
}

#[test]
fn simple_op_reports_missing_capability_before_call() {
    assert_eq!(
        simple_op_outcome(false, 0, 0),
        Err(SmbError::UnsupportedOperation)
    );
    assert_eq!(simple_op_outcome(true, -1, 13), Err(SmbError::Io(13)));
    assert_eq!(simple_op_outcome(true, 0, 0), Ok(()));
}

#[test]
fn context_creation_failure_is_engine_init_error() {
    assert_eq!(
        context_create_outcome(false, false),
        Err(SmbError::EngineInitError)
    );
    assert_eq!(
        context_create_outcome(true, false),
        Err(SmbError::EngineInitError)
    );
    assert_eq!(context_create_outcome(true, true), Ok(()));
}

#[test]
fn timeout_survives_native_round_trip() {
    let native = timeout_to_native(3000);
    assert_eq!(native, 3000);
    assert_eq!(timeout_from_native(native), 3000);
}

#[test]
fn timeout_at_native_limit_round_trips() {
    let native = timeout_to_native(i32::MAX as u64);
    assert_eq!(native, i32::MAX);
    assert_eq!(timeout_from_native(native), i32::MAX as u64);
}
