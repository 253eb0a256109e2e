use codex_session_control::desktop::descriptor::{
    check_descriptor_document, descriptor_ancestor_step, descriptor_file_verdict, descriptor_state,
    normalized_descriptor_socket_path, preflight_existing, preflight_proposed, preflight_switch_from,
    render_descriptor, DescriptorDocument, DescriptorPublicationFailure, DescriptorPublicationResidue,
    DescriptorState,
};
use codex_session_control::desktop::discovery::{
    application_search_roots, build_info_from_output, build_info_verdict, check_launcher_override, effective_config_root,
    environment_path, launcher_ancestor_verdict, launcher_candidates, launcher_metadata_is_safe,
    split_absolute_paths, unavailable_warning, validate_app_id,
};
use codex_session_control::desktop::publication::{
    stage_file, DescriptorPublication, PublicationStep, StepOutcome,
};
use codex_session_control::desktop::DiscoveryFailure;
use codex_session_control::error::ControllerError;
use codex_session_control::install::{missing_control_socket_error, normalized_codex_version, sha256_bytes};

fn reason(failure: DiscoveryFailure) -> String {
    match failure {
        DiscoveryFailure::Unavailable(reason) => reason,
    }
}

fn operational(error: ControllerError) -> String {
    match error {
        ControllerError::Operational(text) => text,
        other => panic!("{other:?}"),
    }
}

fn document(path: &str) -> DescriptorDocument {
    DescriptorDocument { schema_version: 1, transport: "unix".to_owned(), socket_path: path.to_owned() }
}

#[test]
fn descriptor_rendering_is_value_exact() {
    let bytes = render_descriptor(b"/run/user/1000/app-server.sock").unwrap();
    assert_eq!(bytes, br#"{"schemaVersion":1,"transport":"unix","socketPath":"/run/user/1000/app-server.sock"}"#.to_vec());
    let bytes = render_descriptor(b"/run/user/1000/a\"b\\c.sock").unwrap();
    assert_eq!(String::from_utf8(bytes).unwrap(), r#"{"schemaVersion":1,"transport":"unix","socketPath":"/run/user/1000/a\"b\\c.sock"}"#);
}

#[test]
fn descriptor_socket_paths_must_be_normalized_utf8_without_controls() {
    assert_eq!(normalized_descriptor_socket_path(b"/run/user/1000/app.sock").unwrap(), "/run/user/1000/app.sock");
    assert_eq!(normalized_descriptor_socket_path(b"/").unwrap(), "/");
    assert_eq!(
        operational(normalized_descriptor_socket_path(b"/run/\xff.sock").unwrap_err()),
        "Desktop descriptor safety error: descriptor socket path must be UTF-8"
    );
    for path in [b"relative".as_slice(), b"/run//x", b"/run/x/", b"/run/./x", b"/run/../x", b"/run/a\nb", "/run/a\u{85}b".as_bytes(), b""] {
        assert_eq!(
            operational(normalized_descriptor_socket_path(path).unwrap_err()),
            "Desktop descriptor safety error: descriptor socket path is not a normalized absolute path"
        );
        assert!(render_descriptor(path).is_err());
    }
}

#[test]
fn descriptor_documents_are_checked_and_compared_by_value() {
    assert!(check_descriptor_document(&document("/run/user/1000/app-server.sock")).is_ok());
    let mut other = document("/run/user/1000/app-server.sock");
    other.schema_version = 2;
    assert_eq!(operational(check_descriptor_document(&other).unwrap_err()), "Desktop descriptor safety error: descriptor schema is unsupported");
    let mut other = document("/run/user/1000/app-server.sock");
    other.transport = "tcp".to_owned();
    assert!(check_descriptor_document(&other).is_err());
    assert!(check_descriptor_document(&document("relative")).is_err());

    let expected = document("/run/user/1000/app-server.sock");
    assert_eq!(descriptor_state(&document("/run/user/1000/app-server.sock"), &expected), DescriptorState::Expected);
    assert_eq!(descriptor_state(&document("/run/user/1000/other.sock"), &expected), DescriptorState::Foreign);
}

#[test]
fn descriptor_files_and_ancestors_must_be_safe() {
    assert!(descriptor_file_verdict(true, 1000, 1000, 0o600).is_ok());
    for (is_file, uid, mode) in [(false, 1000, 0o600), (true, 1001, 0o600), (true, 1000, 0o640), (true, 1000, 0o4600)] {
        assert_eq!(
            operational(descriptor_file_verdict(is_file, uid, 1000, mode).unwrap_err()),
            "Desktop descriptor safety error: descriptor is not an owner-only regular file"
        );
    }
    assert_eq!(descriptor_ancestor_step(true, 0o755, 0, 1000, false).unwrap(), false);
    assert_eq!(descriptor_ancestor_step(true, 0o700, 1000, 1000, false).unwrap(), true);
    assert!(descriptor_ancestor_step(true, 0o755, 0, 1000, true).is_err());
    assert!(descriptor_ancestor_step(true, 0o775, 1000, 1000, false).is_err());
    assert!(descriptor_ancestor_step(false, 0o700, 1000, 1000, false).is_err());
}

#[test]
fn switch_and_publication_decisions_refuse_foreign_descriptors() {
    assert!(preflight_existing(DescriptorState::Absent).is_ok());
    assert!(preflight_existing(DescriptorState::Expected).is_ok());
    assert_eq!(operational(preflight_existing(DescriptorState::Foreign).unwrap_err()), "Desktop descriptor safety error: existing Desktop descriptor is foreign");
    assert_eq!(operational(preflight_proposed(DescriptorState::Foreign).unwrap_err()), "Desktop descriptor safety error: proposed Desktop descriptor is foreign");
    let failure = DescriptorPublicationFailure::clean(ControllerError::Operational("x".to_owned()));
    assert!(failure.residue.is_none());
    assert_eq!(DescriptorPublicationResidue::Stage(b"/a/.stage".to_vec()).into_path(), b"/a/.stage".to_vec());
    assert_eq!(DescriptorPublicationResidue::Final(b"/a/final".to_vec()).into_path(), b"/a/final".to_vec());
}

#[test]
fn xdg_search_roots_and_config_root_follow_the_environment() {
    let roots = application_search_roots(Some(b"/home/test"), None, None).unwrap();
    assert_eq!(roots, vec![b"/home/test/.local/share".to_vec(), b"/usr/local/share".to_vec(), b"/usr/share".to_vec()]);
    let roots = application_search_roots(Some(b"/home/test"), Some(b"/data-home"), Some(b"/first:relative::/second")).unwrap();
    assert_eq!(roots, vec![b"/data-home".to_vec(), b"/first".to_vec(), b"/second".to_vec()]);
    let roots = application_search_roots(Some(b"/home/test"), Some(b"relative-data-home"), Some(b"")).unwrap();
    assert_eq!(roots, vec![b"/home/test/.local/share".to_vec(), b"/usr/local/share".to_vec(), b"/usr/share".to_vec()]);
    assert_eq!(reason(application_search_roots(None, None, None).unwrap_err()), "HOME is unavailable");
    assert_eq!(reason(application_search_roots(Some(b"home"), None, None).unwrap_err()), "HOME is not absolute");

    assert_eq!(effective_config_root(Some(b"/config"), Some(b"/home/test")).unwrap(), b"/config".to_vec());
    assert_eq!(effective_config_root(Some(b""), Some(b"/home/test")).unwrap(), b"/home/test/.config".to_vec());
    assert_eq!(effective_config_root(None, Some(b"/home/test")).unwrap(), b"/home/test/.config".to_vec());
    assert_eq!(reason(effective_config_root(Some(b"relative-config"), Some(b"/home/test")).unwrap_err()), "XDG_CONFIG_HOME is not absolute");
    assert_eq!(environment_path("PATH", Some(b"/bin")).unwrap(), b"/bin".to_vec());
    assert_eq!(split_absolute_paths(b""), Vec::<Vec<u8>>::new());
}

#[test]
fn launcher_candidates_and_safety_verdicts() {
    assert_eq!(launcher_candidates(b"/opt/codex", None).unwrap(), vec![b"/opt/codex".to_vec()]);
    assert_eq!(
        launcher_candidates(b"codex-desktop", Some(b"/usr/bin:bin:/opt/bin")).unwrap(),
        vec![b"/usr/bin/codex-desktop".to_vec(), b"/opt/bin/codex-desktop".to_vec()]
    );
    assert_eq!(reason(launcher_candidates(b"codex-desktop", None).unwrap_err()), "PATH is unavailable for Desktop launcher resolution");
    assert!(launcher_metadata_is_safe(true, 1000, 0o700, 1000));
    assert!(launcher_metadata_is_safe(true, 0, 0o755, 1000));
    assert!(!launcher_metadata_is_safe(true, 1000, 0o720, 1000));
    assert!(!launcher_metadata_is_safe(true, 0, 0o750, 1000));
    assert!(!launcher_metadata_is_safe(false, 1000, 0o700, 1000));
    assert!(launcher_ancestor_verdict(false, true, 0, 0o1777, 1000).is_ok());
    assert_eq!(reason(launcher_ancestor_verdict(false, true, 0, 0o777, 1000).unwrap_err()), "Desktop launcher ancestor permits cross-user replacement");
    assert_eq!(reason(launcher_ancestor_verdict(true, true, 0, 0o755, 1000).unwrap_err()), "Desktop launcher ancestor is not a directory");
    assert_eq!(reason(launcher_ancestor_verdict(false, true, 1001, 0o755, 1000).unwrap_err()), "Desktop launcher ancestor is not owned by the effective user or root");
    assert!(check_launcher_override(b"/opt/codex-desktop").is_ok());
    assert!(check_launcher_override(b"/opt/codex-desktop.desktop").is_err());
    assert!(check_launcher_override(b"relative-launcher").is_err());
}

#[test]
fn build_info_needs_a_safe_id_and_the_capability() {
    assert_eq!(build_info_verdict(Some("codex-desktop"), true).unwrap(), "codex-desktop");
    assert_eq!(reason(build_info_verdict(None, true).unwrap_err()), "Desktop build-info has no appIdentity.id");
    assert_eq!(reason(build_info_verdict(Some("codex-desktop"), false).unwrap_err()), "Desktop build-info lacks the attachment capability");
    assert_eq!(reason(build_info_verdict(Some("../unsafe"), true).unwrap_err()), "Desktop appIdentity.id is not one safe path component");
    for id in ["", ".", "..", "a/b", "a\\b", "a\u{7}b"] {
        assert!(validate_app_id(id).is_err(), "{id:?}");
    }
    assert!(validate_app_id("codex desktop").is_ok());
    assert_eq!(unavailable_warning("codex-desktop.desktop was not found"), "Desktop attachment unavailable: codex-desktop.desktop was not found");
    assert_eq!(DiscoveryFailure::unavailable("x").warning(), "Desktop attachment unavailable: x");
}

#[test]
fn install_helpers_are_exact() {
    assert_eq!(normalized_codex_version("0.0.0+unknown"), "unknown");
    assert_eq!(normalized_codex_version("not a version"), "unknown");
    assert_eq!(normalized_codex_version("0.150.0-alpha.12.2"), "0.150.0-alpha.12.2");
    assert_eq!(sha256_bytes(b"abc"), "ba7816bf8f01cfea414140de5dae2223b00361a396177a9cb410ff61f20015ad");
    assert_eq!(sha256_bytes(b"").len(), 64);
    assert!(matches!(missing_control_socket_error(), ControllerError::InvalidData { field: "socket", reason: "missing or inaccessible" }));
    assert_eq!(missing_control_socket_error().message(), "invalid socket: missing or inaccessible");
    assert_eq!(missing_control_socket_error().exit_code(), 1);
}

fn run_publication(outcomes: Vec<StepOutcome>) -> DescriptorPublication {
    let mut publication = DescriptorPublication::new(b"/home/u/.config/codex-desktop/attach.json".to_vec(), 7, 0);
    for outcome in outcomes {
        publication.advance(outcome);
    }
    publication
}

fn stage() -> Vec<u8> {
    b"/home/u/.config/codex-desktop/.attach.json-7-0".to_vec()
}

#[test]
fn publication_failures_report_exact_managed_residue() {
    let before_stage = run_publication(vec![
        StepOutcome::Inspected(Ok(DescriptorState::Absent)),
        StepOutcome::Failed,
    ]);
    let failure = before_stage.outcome().unwrap().unwrap_err();
    assert!(failure.residue.is_none());
    assert_eq!(
        operational(failure.source),
        "Desktop descriptor safety error: descriptor stage file cannot be created safely"
    );

    let unverified_cleanup = run_publication(vec![
        StepOutcome::Inspected(Ok(DescriptorState::Absent)),
        StepOutcome::Succeeded,
        StepOutcome::Failed,
        StepOutcome::Failed,
    ]);
    let failure = unverified_cleanup.outcome().unwrap().unwrap_err();
    assert_eq!(
        operational(failure.source),
        "Desktop descriptor safety error: descriptor stage file cannot be written or synced"
    );
    match failure.residue {
        Some(DescriptorPublicationResidue::Stage(path)) => assert_eq!(path, stage()),
        _ => panic!("expected the stage residue"),
    }

    let verified_cleanup = run_publication(vec![
        StepOutcome::Inspected(Ok(DescriptorState::Absent)),
        StepOutcome::Succeeded,
        StepOutcome::Succeeded,
        StepOutcome::Failed,
        StepOutcome::Succeeded,
    ]);
    let failure = verified_cleanup.outcome().unwrap().unwrap_err();
    assert_eq!(operational(failure.source), "Desktop descriptor safety error: descriptor changed during publication");
    assert!(failure.residue.is_none());

    let after_rename = run_publication(vec![
        StepOutcome::Inspected(Ok(DescriptorState::Absent)),
        StepOutcome::Succeeded,
        StepOutcome::Succeeded,
        StepOutcome::Succeeded,
        StepOutcome::Failed,
    ]);
    let failure = after_rename.outcome().unwrap().unwrap_err();
    assert_eq!(operational(failure.source), "Desktop descriptor safety error: descriptor parent cannot be synced");
    match failure.residue {
        Some(DescriptorPublicationResidue::Final(path)) => {
            assert_eq!(path, b"/home/u/.config/codex-desktop/attach.json".to_vec())
        },
        _ => panic!("expected the final residue"),
    }

    let foreign_after_rename = run_publication(vec![
        StepOutcome::Inspected(Ok(DescriptorState::Absent)),
        StepOutcome::Succeeded,
        StepOutcome::Succeeded,
        StepOutcome::Succeeded,
        StepOutcome::Succeeded,
        StepOutcome::Inspected(Ok(DescriptorState::Foreign)),
    ]);
    let failure = foreign_after_rename.outcome().unwrap().unwrap_err();
    assert_eq!(
        operational(failure.source),
        "Desktop descriptor safety error: descriptor cannot be revalidated after publication"
    );
    assert!(matches!(failure.residue, Some(DescriptorPublicationResidue::Final(_))));
}

#[test]
fn publication_changes_the_descriptor_only_after_revalidation() {
    let published = run_publication(vec![
        StepOutcome::Inspected(Ok(DescriptorState::Absent)),
        StepOutcome::Succeeded,
        StepOutcome::Succeeded,
        StepOutcome::Succeeded,
        StepOutcome::Succeeded,
        StepOutcome::Inspected(Ok(DescriptorState::Expected)),
    ]);
    assert!(published.outcome().unwrap().unwrap());

    let already_there = run_publication(vec![StepOutcome::Inspected(Ok(DescriptorState::Expected))]);
    assert!(!already_there.outcome().unwrap().unwrap());

    let foreign = run_publication(vec![StepOutcome::Inspected(Ok(DescriptorState::Foreign))]);
    let failure = foreign.outcome().unwrap().unwrap_err();
    assert!(failure.residue.is_none());
    assert_eq!(operational(failure.source), "Desktop descriptor safety error: Desktop descriptor is foreign");

    let waiting = run_publication(vec![
        StepOutcome::Inspected(Ok(DescriptorState::Absent)),
        StepOutcome::Inspected(Ok(DescriptorState::Expected)),
    ]);
    assert!(matches!(waiting.step(), PublicationStep::CreateStage));
    assert!(waiting.outcome().is_none());

    let finished = run_publication(vec![
        StepOutcome::Inspected(Ok(DescriptorState::Expected)),
        StepOutcome::Failed,
        StepOutcome::Inspected(Ok(DescriptorState::Absent)),
    ]);
    assert!(!finished.outcome().unwrap().unwrap());
}

#[test]
fn stage_file_is_a_hidden_numbered_sibling() {
    let (name, path) = stage_file(b"/home/u/.config/codex-desktop/attach.json", 4021, 17);
    assert_eq!(name, b".attach.json-4021-17".to_vec());
    assert_eq!(path, b"/home/u/.config/codex-desktop/.attach.json-4021-17".to_vec());
    let (name, path) = stage_file(b"/d", 0, 0);
    assert_eq!(name, b".d-0-0".to_vec());
    assert_eq!(path, b"/.d-0-0".to_vec());
    let (name, path) = stage_file(b"plain", 7, 100);
    assert_eq!(name, b".plain-7-100".to_vec());
    assert_eq!(path, b".plain-7-100".to_vec());
}

#[test]
fn switch_preflight_checks_the_proposed_descriptor_only_at_another_path() {
    assert_eq!(preflight_switch_from(DescriptorState::Absent, false).unwrap(), true);
    assert_eq!(preflight_switch_from(DescriptorState::Expected, false).unwrap(), true);
    assert_eq!(preflight_switch_from(DescriptorState::Expected, true).unwrap(), false);
    assert_eq!(preflight_switch_from(DescriptorState::Absent, true).unwrap(), false);
    assert_eq!(
        operational(preflight_switch_from(DescriptorState::Foreign, true).unwrap_err()),
        "Desktop descriptor safety error: existing Desktop descriptor is foreign"
    );
}

#[test]
fn build_info_is_read_from_the_launchers_output() {
    let good = br#"{"appIdentity":{"id":"codex-desktop"},"linuxCapabilities":[1,"external-app-server-attachment-descriptor-v1"]}"#;
    assert_eq!(build_info_from_output(true, good).unwrap(), "codex-desktop");
    assert_eq!(reason(build_info_from_output(false, good).unwrap_err()), "Desktop build-info command failed");
    assert_eq!(
        reason(build_info_from_output(true, b"[1,2]").unwrap_err()),
        "Desktop build-info is not one complete JSON object"
    );
    assert_eq!(
        reason(build_info_from_output(true, b"{\"a\":1} {}").unwrap_err()),
        "Desktop build-info is not one complete JSON object"
    );
    assert_eq!(
        reason(build_info_from_output(true, br#"{"appIdentity":{"id":7},"linuxCapabilities":[]}"#).unwrap_err()),
        "Desktop build-info has no appIdentity.id"
    );
    assert_eq!(
        reason(build_info_from_output(true, br#"{"appIdentity":{"id":"codex-desktop"},"linuxCapabilities":"x"}"#).unwrap_err()),
        "Desktop build-info lacks the attachment capability"
    );
}

#[test]
fn publication_stages_beside_the_descriptor() {
    let publication = run_publication(Vec::new());
    assert_eq!(publication.stage_name(), b".attach.json-7-0");
    assert!(matches!(publication.step(), PublicationStep::Inspect));
}
