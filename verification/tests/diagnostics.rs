use codex_session_control::diagnostics::{DiagnosticCause, DiagnosticCommand, DiagnosticEvent, Diagnostics, UpdatePhase};
use codex_session_control::version::Version;

#[test]
fn prefixes_and_update_phases_are_exact() {
    let mut diagnostics = Diagnostics::record(DiagnosticCommand::Update);
    diagnostics.set_phase(UpdatePhase::Outer);
    diagnostics.emit(DiagnosticEvent::CandidateVerified {
        version: Version::new(1, 2, 3),
    });
    diagnostics.emit(DiagnosticEvent::StartingStagedCandidate);
    diagnostics.set_phase(UpdatePhase::Apply);
    diagnostics.emit(DiagnosticEvent::StagedMarkerAccepted);
    diagnostics.emit(DiagnosticEvent::CompletedManifest);

    assert_eq!(
        diagnostics.recorded_lines(),
        [
            "[verbose] update/outer: candidate 1.2.3 verified\n",
            "[verbose] update/outer: starting staged candidate\n",
            "[verbose] update/apply: staged marker accepted\n",
            "[verbose] update/apply: completed manifest\n",
        ]
    );

    for (command, prefix) in [
        (DiagnosticCommand::Setup, "setup"),
        (DiagnosticCommand::Status, "status"),
        (DiagnosticCommand::Enable, "enable"),
        (DiagnosticCommand::Disable, "disable"),
        (DiagnosticCommand::Uninstall, "uninstall"),
        (DiagnosticCommand::Codex, "codex"),
    ] {
        let mut diagnostics = Diagnostics::record(command);
        diagnostics.emit(DiagnosticEvent::CompletedPreflight);
        assert_eq!(
            diagnostics.recorded_lines(),
            [format!("[verbose] {prefix}: completed preflight\n")]
        );
    }
}

#[test]
fn every_constructor_excludes_all_privacy_sentinels() {
    const SENTINELS: [&str; 6] = [
        "credential-secret",
        "raw-error-secret",
        "task-secret",
        "pid-4242",
        "timestamp-secret",
        "telemetry-secret",
    ];
    let mut events = vec![
        DiagnosticEvent::CandidateVerified {
            version: Version::new(1, 2, 3),
        },
        DiagnosticEvent::StartingStagedCandidate,
        DiagnosticEvent::StagedMarkerAccepted,
        DiagnosticEvent::SelectedCodexHome {
            codex_home: String::from("/home/test/.codex"),
        },
        DiagnosticEvent::CompletedPreflight,
        DiagnosticEvent::CompletedBinary,
        DiagnosticEvent::CompletedManifest,
    ];
    events.extend(
        [
            DiagnosticCause::Unexpected,
            DiagnosticCause::Validation,
            DiagnosticCause::ReleaseDownload,
            DiagnosticCause::Checksum,
            DiagnosticCause::ServiceConfiguration,
            DiagnosticCause::ServiceStart,
            DiagnosticCause::ServiceStop,
            DiagnosticCause::ServiceState,
            DiagnosticCause::CliIntegration,
            DiagnosticCause::DesktopIntegration,
            DiagnosticCause::ActiveTasks,
            DiagnosticCause::Cleanup,
        ]
        .into_iter()
        .map(|cause| DiagnosticEvent::FailedServiceVerify { cause }),
    );

    let mut diagnostics = Diagnostics::record(DiagnosticCommand::Setup);
    for event in events {
        diagnostics.emit(event);
    }
    let rendered = diagnostics.recorded_lines().concat();
    for sentinel in SENTINELS {
        assert!(!rendered.contains(sentinel));
    }
}

#[test]
fn first_write_failure_disables_later_output_without_changing_result() {
    let mut diagnostics = Diagnostics::fail_once(DiagnosticCommand::Setup);
    diagnostics.emit(DiagnosticEvent::CompletedPreflight);
    diagnostics.emit(DiagnosticEvent::CompletedBinary);

    assert!(diagnostics.is_off());
    assert_eq!(0, 0);
}
