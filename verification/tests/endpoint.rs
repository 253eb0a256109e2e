use codex_session_control::app_server::endpoint::{
    derived_endpoint, explicit_endpoint, lstat_failure, owned_directory_is_private,
    owned_socket_is_private, require_normalized_absolute_path, require_valid_app_id,
    resolve_with, socket_parent, DesktopEndpoint,
};
use codex_session_control::error::{ToolErrorCategory, ToolErrorData};
use rustix::fs::FileType;

fn assert_validation_failure(error: &ToolErrorData) {
    assert_eq!(error.category, ToolErrorCategory::AuthorityTransportFailure);
    assert_eq!(error.stage, "socket_validation");
}

fn assert_target_unavailable(error: &ToolErrorData) {
    assert_eq!(error.category, ToolErrorCategory::TargetUnavailable);
    assert_eq!(error.stage, "socket_validation");
}

fn resolve(explicit: Option<&[u8]>, runtime: Option<&[u8]>, app_id: Option<&[u8]>) -> Result<DesktopEndpoint, ToolErrorData> {
    resolve_with(explicit, runtime, app_id)
}

#[test]
fn directory_predicate_requires_type_owner_and_exact_private_mode() {
    let euid = 1000;
    let directory = FileType::Directory.as_raw_mode();
    let regular = FileType::RegularFile.as_raw_mode();
    assert!(owned_directory_is_private(euid, directory | 0o700, euid));

    for (label, uid, mode) in [
        ("foreign owner", euid + 1, directory | 0o700),
        ("wrong type", euid, regular | 0o700),
        ("wrong owner bits", euid, directory | 0o600),
        ("group permissions", euid, directory | 0o710),
        ("other permissions", euid, directory | 0o701),
        ("special bits", euid, directory | 0o4700),
    ] {
        assert!(!owned_directory_is_private(uid, mode, euid), "{label}");
    }
}

#[test]
fn socket_predicate_requires_type_owner_and_one_of_two_private_modes() {
    let euid = 1000;
    let socket = FileType::Socket.as_raw_mode();
    let regular = FileType::RegularFile.as_raw_mode();
    assert!(owned_socket_is_private(euid, socket | 0o600, euid));
    assert!(owned_socket_is_private(euid, socket | 0o700, euid));

    for (label, uid, mode) in [
        ("foreign owner", euid + 1, socket | 0o600),
        ("wrong type", euid, regular | 0o600),
        ("wrong owner bits", euid, socket | 0o400),
        ("group permissions", euid, socket | 0o610),
        ("other permissions", euid, socket | 0o601),
        ("special bits", euid, socket | 0o4600),
    ] {
        assert!(!owned_socket_is_private(uid, mode, euid), "{label}");
    }
}

#[test]
fn explicit_socket_is_used_verbatim_and_preserves_non_utf8_bytes() {
    let explicit: &[u8] = b"/tmp/codex-desktop-\xff.sock";
    let endpoint = resolve(Some(explicit), None, None).unwrap();
    assert_eq!(endpoint.socket_path(), explicit);
    assert!(endpoint.directories().is_empty());
    let endpoint = resolve(Some(explicit), Some(b"relative"), Some(b"bad/id")).unwrap();
    assert_eq!(endpoint.socket_path(), explicit);
}

#[test]
fn malformed_explicit_socket_fails_without_the_fallback() {
    let error = resolve(Some(b"relative.sock"), Some(b"/run/user/1000"), None).unwrap_err();
    assert_validation_failure(&error);
    assert!(explicit_endpoint(Some(b"relative.sock")).is_some());
}

#[test]
fn empty_explicit_socket_falls_through_to_the_derived_one() {
    assert!(explicit_endpoint(Some(b"")).is_none());
    assert!(explicit_endpoint(None).is_none());
    let endpoint = resolve(Some(b""), Some(b"/run/user/1000"), Some(b"Agentle_1.2-x")).unwrap();
    assert_eq!(endpoint.socket_path(), b"/run/user/1000/Agentle_1.2-x/app-server-bridge/app-server.sock");
    assert_eq!(
        endpoint.directories(),
        vec![
            b"/run/user/1000".to_vec(),
            b"/run/user/1000/Agentle_1.2-x".to_vec(),
            b"/run/user/1000/Agentle_1.2-x/app-server-bridge".to_vec(),
        ]
    );
}

#[test]
fn missing_or_empty_runtime_directory_is_target_unavailable() {
    for runtime in [None, Some(b"".as_slice())] {
        let error = derived_endpoint(runtime, None).unwrap_err();
        assert_target_unavailable(&error);
    }
}

#[test]
fn application_id_defaults_only_when_missing_or_empty() {
    for app_id in [None, Some(b"".as_slice())] {
        let endpoint = resolve(None, Some(b"/run/user/1000"), app_id).unwrap();
        assert_eq!(endpoint.socket_path(), b"/run/user/1000/codex-desktop/app-server-bridge/app-server.sock");
    }
}

#[test]
fn invalid_application_ids_fail_closed() {
    for (label, app_id) in [
        ("invalid UTF-8", b"codex-\xff".as_slice()),
        ("reserved dot", b".".as_slice()),
        ("reserved dot-dot", b"..".as_slice()),
        ("disallowed ASCII", b"codex/desktop".as_slice()),
        ("non-ASCII", "codex-desktóp".as_bytes()),
    ] {
        let error = resolve(None, Some(b"/run/user/1000"), Some(app_id)).unwrap_err();
        assert_validation_failure(&error);
        assert!(require_valid_app_id(app_id).is_err(), "{label}");
    }
    assert!(require_valid_app_id(b"Agentle_1.2-x").is_ok());
}

#[test]
fn selected_paths_require_exact_absolute_lexical_normalization() {
    for (label, path) in [
        ("relative", b"relative/socket".as_slice()),
        ("dot component", b"/tmp/./socket".as_slice()),
        ("parent component", b"/tmp/nested/../socket".as_slice()),
        ("repeated separator", b"/tmp//socket".as_slice()),
        ("trailing separator", b"/tmp/socket/".as_slice()),
        ("root without basename", b"/".as_slice()),
        ("repeated root separator", b"//tmp/socket".as_slice()),
    ] {
        let error = require_normalized_absolute_path(path).unwrap_err();
        assert_validation_failure(&error);
        let error = resolve(Some(path), None, None).unwrap_err();
        assert_validation_failure(&error);
        let error = resolve(None, Some(path), None).unwrap_err();
        assert_validation_failure(&error);
        let _ = label;
    }
    assert!(require_normalized_absolute_path(b"/run/user/1000/app-server.sock").is_ok());
}

#[test]
fn errors_never_carry_selected_paths_or_environment_values() {
    let error = resolve(Some(b"RELATIVE_SELECTED_PATH_SENTINEL"), None, None).unwrap_err();
    let rendered = format!("{error:?}");
    assert!(!rendered.contains("RELATIVE_SELECTED_PATH_SENTINEL"));
    let error = resolve(None, Some(b"/run/user/1000"), Some(b"APP_ID_VALUE_SENTINEL!")).unwrap_err();
    let rendered = format!("{error:?}");
    assert!(!rendered.contains("APP_ID_VALUE_SENTINEL!"));
    assert_eq!(error.tool, "native_transport");
    assert!(error.thread_id.is_none() && error.native.is_none() && error.dispatch.is_none());
}

#[test]
fn missing_files_are_unavailable_and_other_failures_are_validation_failures() {
    assert_target_unavailable(&lstat_failure(true));
    assert_validation_failure(&lstat_failure(false));
}

#[test]
fn socket_parent_is_everything_before_the_last_separator() {
    assert_eq!(socket_parent(b"/run/user/1000/app-server.sock"), b"/run/user/1000".to_vec());
    assert_eq!(socket_parent(b"/app-server.sock"), b"/".to_vec());
}
