use codex_session_control::cli_output::{
    DesktopAvailability, EnableSuccess, IndependentTerminal, IntegrationState, ManagedPaths,
    ManualCleanup, NativeCleanupCommand, OrdinaryFailure, PartialDisable, RenderedCli,
    RollbackIncomplete, RollbackPrimary, RunningClientFacts, ServiceSummary, SetupSuccess,
    StatusProblem, StatusResult, StatusState, StopThenRetry, TerminalPartialUninstall,
    UninstallSuccess, DisableSuccess, UpdateState, UpdateSuccess, UserFailure, UserNotice,
    UserSuccess, VerifiedReleaseRecovery,
};
use codex_session_control::version::Version;

fn version() -> Version {
    Version::new(1, 2, 3)
}

const UPDATE_COMPLETION_UNKNOWN: &str = "Codex Session Control could not confirm that the update completed.\n\nThe installed Codex Session Control state could not be verified.\n\nCheck what needs attention:\n  codex-session-control status\n";

fn failure_oracle(headline: &str, problem: &str, recovery: &str) -> String {
    format!("{headline}\n\n{problem}\n\n{recovery}")
}

fn ordinary_literal_cases() -> Vec<(OrdinaryFailure, &'static str)> {
    vec![
        (
            OrdinaryFailure::SetupUnsafeTerminalRetry,
            "Codex Session Control could not be installed.\n\nThe operation could not safely continue from this terminal.\n\nTry again:\n  codex-session-control setup\n",
        ),
        (
            OrdinaryFailure::SetupUnexpectedRetry,
            "Codex Session Control could not be installed.\n\nThe operation failed unexpectedly.\n\nTry again:\n  codex-session-control setup\n",
        ),
        (
            OrdinaryFailure::SetupInstalledStateCheckStatus,
            "Codex Session Control could not be installed.\n\nThe installed Codex Session Control state could not be verified.\n\nCheck what needs attention:\n  codex-session-control status\n",
        ),
        (
            OrdinaryFailure::SetupInstallationFilesRetryUpdate,
            "Codex Session Control could not be installed.\n\nThe installation files could not be updated.\n\nTry again:\n  codex-session-control update\n",
        ),
        (
            OrdinaryFailure::SetupInstalledStateRepair {
                binary: String::from("/opt/codex-session-control"),
            },
            "Codex Session Control could not be installed.\n\nThe installed Codex Session Control state could not be verified.\n\nRepair Codex Session Control:\n  /opt/codex-session-control setup\n",
        ),
        (
            OrdinaryFailure::SetupCliIntegrationRetry,
            "Codex Session Control could not be installed.\n\nCodex CLI integration could not be updated.\n\nTry again:\n  codex-session-control setup\n",
        ),
        (
            OrdinaryFailure::SetupCliIntegrationCheckStatus,
            "Codex Session Control could not be installed.\n\nCodex CLI integration could not be updated.\n\nCheck what needs attention:\n  codex-session-control status\n",
        ),
        (
            OrdinaryFailure::SetupInstallationFilesRetry,
            "Codex Session Control could not be installed.\n\nThe installation files could not be updated.\n\nTry again:\n  codex-session-control setup\n",
        ),
        (
            OrdinaryFailure::SetupServiceConfigurationRetry,
            "Codex Session Control could not be installed.\n\nThe service could not be configured.\n\nTry again:\n  codex-session-control setup\n",
        ),
        (
            OrdinaryFailure::SetupDesktopIntegrationRetry,
            "Codex Session Control could not be installed.\n\nCodex Desktop integration could not be updated.\n\nTry again:\n  codex-session-control setup\n",
        ),
        (
            OrdinaryFailure::SetupDesktopIntegrationCheckStatus,
            "Codex Session Control could not be installed.\n\nCodex Desktop integration could not be updated.\n\nCheck what needs attention:\n  codex-session-control status\n",
        ),
        (
            OrdinaryFailure::SetupServiceStartRetry,
            "Codex Session Control could not be installed.\n\nThe service could not be started.\n\nTry again:\n  codex-session-control setup\n",
        ),
        (
            OrdinaryFailure::SetupServiceStateRetryUpdate,
            "Codex Session Control could not be installed.\n\nThe service state could not be verified.\n\nTry again:\n  codex-session-control update\n",
        ),
        (
            OrdinaryFailure::UpdateUnexpectedRetry,
            "Codex Session Control could not be updated.\n\nThe operation failed unexpectedly.\n\nTry again:\n  codex-session-control update\n",
        ),
        (
            OrdinaryFailure::UpdateInstalledStateCheckStatus,
            "Codex Session Control could not be updated.\n\nThe installed Codex Session Control state could not be verified.\n\nCheck what needs attention:\n  codex-session-control status\n",
        ),
        (
            OrdinaryFailure::UpdateReleaseRetry,
            "Codex Session Control could not be updated.\n\nThe latest release could not be retrieved.\n\nTry again:\n  codex-session-control update\n",
        ),
        (
            OrdinaryFailure::UpdateChecksumRetry,
            "Codex Session Control could not be updated.\n\nThe downloaded release could not be verified.\n\nTry again:\n  codex-session-control update\n",
        ),
        (
            OrdinaryFailure::UpdateCliIntegrationRetry,
            "Codex Session Control could not be updated.\n\nCodex CLI integration could not be updated.\n\nTry again:\n  codex-session-control update\n",
        ),
        (
            OrdinaryFailure::UpdateCliIntegrationCheckStatus,
            "Codex Session Control could not be updated.\n\nCodex CLI integration could not be updated.\n\nCheck what needs attention:\n  codex-session-control status\n",
        ),
        (
            OrdinaryFailure::UpdateServiceConfigurationRetry,
            "Codex Session Control could not be updated.\n\nThe service could not be configured.\n\nTry again:\n  codex-session-control update\n",
        ),
        (
            OrdinaryFailure::UpdateServiceStateCheckStatus,
            "Codex Session Control could not be updated.\n\nThe service state could not be verified.\n\nCheck what needs attention:\n  codex-session-control status\n",
        ),
        (
            OrdinaryFailure::UpdateActiveTasksRetry,
            "Codex Session Control could not be updated.\n\nActive tasks could not be checked safely.\n\nTry again:\n  codex-session-control update\n",
        ),
        (
            OrdinaryFailure::UpdateInstallationFilesRetry,
            "Codex Session Control could not be updated.\n\nThe installation files could not be updated.\n\nTry again:\n  codex-session-control update\n",
        ),
        (
            OrdinaryFailure::UpdateDesktopIntegrationRetry,
            "Codex Session Control could not be updated.\n\nCodex Desktop integration could not be updated.\n\nTry again:\n  codex-session-control update\n",
        ),
        (
            OrdinaryFailure::UpdateDesktopIntegrationCheckStatus,
            "Codex Session Control could not be updated.\n\nCodex Desktop integration could not be updated.\n\nCheck what needs attention:\n  codex-session-control status\n",
        ),
        (
            OrdinaryFailure::UpdateServiceConfigurationLogs,
            "Codex Session Control could not be updated.\n\nThe service could not be configured.\n\nCheck the service logs:\n  journalctl --user -u codex-session-control.service\n",
        ),
        (
            OrdinaryFailure::UpdateServiceStartLogs,
            "Codex Session Control could not be updated.\n\nThe service could not be started.\n\nCheck the service logs:\n  journalctl --user -u codex-session-control.service\n",
        ),
        (
            OrdinaryFailure::UpdateServiceStateLogs,
            "Codex Session Control could not be updated.\n\nThe service state could not be verified.\n\nCheck the service logs:\n  journalctl --user -u codex-session-control.service\n",
        ),
        (
            OrdinaryFailure::UpdateInstalledStatePostMutationCheckStatus,
            "Codex Session Control could not be updated.\n\nThe installed Codex Session Control state could not be verified.\n\nCheck what needs attention:\n  codex-session-control status\n",
        ),
        (
            OrdinaryFailure::EnableUnexpectedRetry,
            "Codex Session Control could not be started.\n\nThe operation failed unexpectedly.\n\nTry again:\n  codex-session-control enable\n",
        ),
        (
            OrdinaryFailure::EnableInstalledStateRepairSetup,
            "Codex Session Control could not be started.\n\nThe installed Codex Session Control state could not be verified.\n\nRepair Codex Session Control:\n  codex-session-control setup\n",
        ),
        (
            OrdinaryFailure::EnableServiceConfigurationRepairSetup,
            "Codex Session Control could not be started.\n\nThe service could not be configured.\n\nRepair Codex Session Control:\n  codex-session-control setup\n",
        ),
        (
            OrdinaryFailure::EnableDesktopIntegrationCheckStatus,
            "Codex Session Control could not be started.\n\nCodex Desktop integration could not be updated.\n\nCheck what needs attention:\n  codex-session-control status\n",
        ),
        (
            OrdinaryFailure::EnableDesktopIntegrationRetry,
            "Codex Session Control could not be started.\n\nCodex Desktop integration could not be updated.\n\nTry again:\n  codex-session-control enable\n",
        ),
        (
            OrdinaryFailure::EnableServiceStartRetry,
            "Codex Session Control could not be started.\n\nThe service could not be started.\n\nTry again:\n  codex-session-control enable\n",
        ),
        (
            OrdinaryFailure::EnableServiceStateRetry,
            "Codex Session Control could not be started.\n\nThe service state could not be verified.\n\nTry again:\n  codex-session-control enable\n",
        ),
        (
            OrdinaryFailure::EnableUnexpectedCheckStatus,
            "Codex Session Control could not be started.\n\nThe operation failed unexpectedly.\n\nCheck what needs attention:\n  codex-session-control status\n",
        ),
        (
            OrdinaryFailure::DisableUnexpectedRetry,
            "Codex Session Control could not be stopped.\n\nThe operation failed unexpectedly.\n\nTry again:\n  codex-session-control disable\n",
        ),
        (
            OrdinaryFailure::DisableServiceStopRetry,
            "Codex Session Control could not be stopped.\n\nThe service could not be stopped.\n\nTry again:\n  codex-session-control disable\n",
        ),
        (
            OrdinaryFailure::DisableUnexpectedCheckStatus,
            "Codex Session Control could not be stopped.\n\nThe operation failed unexpectedly.\n\nCheck what needs attention:\n  codex-session-control status\n",
        ),
        (
            OrdinaryFailure::UninstallUnexpectedRetry,
            "Codex Session Control could not be uninstalled.\n\nThe operation failed unexpectedly.\n\nTry again:\n  codex-session-control uninstall\n",
        ),
        (
            OrdinaryFailure::UninstallServiceStopRetry,
            "Codex Session Control could not be uninstalled.\n\nThe service could not be stopped.\n\nTry again:\n  codex-session-control uninstall\n",
        ),
    ]
}

fn ordinary_expected(failure: &OrdinaryFailure) -> &'static str {
    ordinary_literal_cases()
        .into_iter()
        .find_map(|(candidate, expected)| (candidate == *failure).then_some(expected))
        .expect("ordinary failure has one literal expected block")
}

fn rendered_failure(stderr: impl Into<String>) -> RenderedCli {
    RenderedCli {
        stdout: String::new(),
        stderr: stderr.into(),
        exit_code: 1,
    }
}

fn rollback_oracle(primary: String, paths: &[&str]) -> String {
    let mut expected = primary;
    expected
        .push_str("\nCleanup could not be completed safely.\n\nInspect these managed paths:\n");
    for path in paths {
        expected.push_str(&format!("  {path}\n"));
    }
    expected
}

fn rollback_primary_oracle(primary: RollbackPrimary) -> String {
    match primary {
        RollbackPrimary::SetupDesktopRetry => {
            ordinary_expected(&OrdinaryFailure::SetupDesktopIntegrationRetry).to_owned()
        }
        RollbackPrimary::SetupServiceConfigurationRetry => {
            ordinary_expected(&OrdinaryFailure::SetupServiceConfigurationRetry).to_owned()
        }
        RollbackPrimary::SetupServiceStartRetry => {
            ordinary_expected(&OrdinaryFailure::SetupServiceStartRetry).to_owned()
        }
        RollbackPrimary::SetupServiceStateRetryUpdate => {
            ordinary_expected(&OrdinaryFailure::SetupServiceStateRetryUpdate).to_owned()
        }
        RollbackPrimary::UpdateDesktopRetry => {
            ordinary_expected(&OrdinaryFailure::UpdateDesktopIntegrationRetry).to_owned()
        }
        RollbackPrimary::EnableDesktopRetry => {
            ordinary_expected(&OrdinaryFailure::EnableDesktopIntegrationRetry).to_owned()
        }
        RollbackPrimary::EnableServiceStateCheckStatus => failure_oracle(
            "Codex Session Control could not be started.",
            "The service state could not be verified.",
            "Check what needs attention:\n  codex-session-control status\n",
        ),
        RollbackPrimary::UninstallInstalledStateCheckStatus => failure_oracle(
            "Codex Session Control could not be uninstalled.",
            "The installed Codex Session Control state could not be verified.",
            "Check what needs attention:\n  codex-session-control status\n",
        ),
        RollbackPrimary::UninstallDesktopCheckStatus => failure_oracle(
            "Codex Session Control could not be uninstalled.",
            "Codex Desktop integration could not be updated.",
            "Check what needs attention:\n  codex-session-control status\n",
        ),
        RollbackPrimary::UninstallCleanupRetry => failure_oracle(
            "Codex Session Control could not be uninstalled.",
            "Cleanup could not be completed safely.",
            "Try again:\n  codex-session-control uninstall\n",
        ),
    }
}

fn stop_then_retry_oracle(failure: StopThenRetry) -> String {
    let (headline, problem, commands) = match failure {
        StopThenRetry::UpdateServiceStateDisableUpdateEnable => (
            "Codex Session Control could not be updated.",
            "The service state could not be verified.",
            "  codex-session-control disable\n  codex-session-control update\n  codex-session-control enable\n",
        ),
        StopThenRetry::EnableServiceStartStopThenEnable => (
            "Codex Session Control could not be started.",
            "The service could not be started.",
            "  systemctl --user stop codex-session-control.service\n  codex-session-control enable\n",
        ),
        StopThenRetry::EnableServiceStateStopThenEnable => (
            "Codex Session Control could not be started.",
            "The service state could not be verified.",
            "  systemctl --user stop codex-session-control.service\n  codex-session-control enable\n",
        ),
        StopThenRetry::DisableUnsafeStopThenDisable => (
            "Codex Session Control could not be stopped.",
            "The operation could not safely continue from this terminal.",
            "  systemctl --user stop codex-session-control.service\n  codex-session-control disable\n",
        ),
        StopThenRetry::DisableServiceStopThenDisable => (
            "Codex Session Control could not be stopped.",
            "The service could not be stopped.",
            "  systemctl --user stop codex-session-control.service\n  codex-session-control disable\n",
        ),
        StopThenRetry::DisableServiceStateStopThenDisable => (
            "Codex Session Control could not be stopped.",
            "The service state could not be verified.",
            "  systemctl --user stop codex-session-control.service\n  codex-session-control disable\n",
        ),
        StopThenRetry::UninstallUnsafeStopThenUninstall => (
            "Codex Session Control could not be uninstalled.",
            "The operation could not safely continue from this terminal.",
            "  systemctl --user stop codex-session-control.service\n  codex-session-control uninstall\n",
        ),
        StopThenRetry::UninstallServiceStateStopThenUninstall => (
            "Codex Session Control could not be uninstalled.",
            "The service state could not be verified.",
            "  systemctl --user stop codex-session-control.service\n  codex-session-control uninstall\n",
        ),
    };
    failure_oracle(
        headline,
        problem,
        &format!("From an independent terminal, stop the service and try again:\n{commands}"),
    )
}

fn failure_render_cases() -> Vec<(UserFailure, RenderedCli)> {
    let rollback_primaries = [
        RollbackPrimary::SetupDesktopRetry,
        RollbackPrimary::SetupServiceConfigurationRetry,
        RollbackPrimary::SetupServiceStartRetry,
        RollbackPrimary::SetupServiceStateRetryUpdate,
        RollbackPrimary::UpdateDesktopRetry,
        RollbackPrimary::EnableDesktopRetry,
        RollbackPrimary::EnableServiceStateCheckStatus,
        RollbackPrimary::UninstallInstalledStateCheckStatus,
        RollbackPrimary::UninstallDesktopCheckStatus,
        RollbackPrimary::UninstallCleanupRetry,
    ];
    let mut cases = rollback_primaries
        .into_iter()
        .map(|primary| {
            (
                UserFailure::RollbackIncomplete(RollbackIncomplete::new(
                    primary,
                    ManagedPaths::new(String::from("/managed/one"), Vec::new()),
                )),
                rendered_failure(rollback_oracle(
                    rollback_primary_oracle(primary),
                    &["/managed/one"],
                )),
            )
        })
        .collect::<Vec<_>>();
    cases.push((
        UserFailure::RollbackIncomplete(RollbackIncomplete::new(
            RollbackPrimary::UpdateDesktopRetry,
            ManagedPaths::new(
                String::from("/managed/one"),
                vec![String::from("/managed/two")],
            ),
        )),
        rendered_failure(rollback_oracle(
            ordinary_expected(&OrdinaryFailure::UpdateDesktopIntegrationRetry).to_owned(),
            &["/managed/one", "/managed/two"],
        )),
    ));

    for failure in [
        StopThenRetry::UpdateServiceStateDisableUpdateEnable,
        StopThenRetry::EnableServiceStartStopThenEnable,
        StopThenRetry::EnableServiceStateStopThenEnable,
        StopThenRetry::DisableUnsafeStopThenDisable,
        StopThenRetry::DisableServiceStopThenDisable,
        StopThenRetry::DisableServiceStateStopThenDisable,
        StopThenRetry::UninstallUnsafeStopThenUninstall,
        StopThenRetry::UninstallServiceStateStopThenUninstall,
    ] {
        cases.push((
            UserFailure::StopThenRetry(failure),
            rendered_failure(stop_then_retry_oracle(failure)),
        ));
    }

    for (failure, headline, command) in [
        (
            IndependentTerminal::Update,
            "Codex Session Control could not be updated.",
            "codex-session-control update",
        ),
        (
            IndependentTerminal::Disable,
            "Codex Session Control could not be stopped.",
            "codex-session-control disable",
        ),
        (
            IndependentTerminal::Uninstall,
            "Codex Session Control could not be uninstalled.",
            "codex-session-control uninstall",
        ),
    ] {
        cases.push((
            UserFailure::IndependentTerminal(failure),
            rendered_failure(failure_oracle(
                headline,
                "The operation could not safely continue from this terminal.",
                &format!("Run the command from an independent terminal:\n  {command}\n"),
            )),
        ));
    }

    let cleanup_rows = [
        (
            NativeCleanupCommand::RemovePlugin,
            None,
            "CODEX_HOME='/home/test/.codex' codex plugin remove codex-session-control@codex-session-control-local --json",
        ),
        (
            NativeCleanupCommand::RemovePlugin,
            Some(String::from("/opt/Codex CLI/codex")),
            "CODEX_HOME='/home/test/.codex' '/opt/Codex CLI/codex' plugin remove codex-session-control@codex-session-control-local --json",
        ),
        (
            NativeCleanupCommand::RemoveMarketplace,
            None,
            "CODEX_HOME='/home/test/.codex' codex plugin marketplace remove codex-session-control-local --json",
        ),
        (
            NativeCleanupCommand::RemoveMarketplace,
            Some(String::from("/opt/Codex CLI/codex")),
            "CODEX_HOME='/home/test/.codex' '/opt/Codex CLI/codex' plugin marketplace remove codex-session-control-local --json",
        ),
    ];
    for (command, executable, rendered_command) in cleanup_rows {
        cases.push((
            UserFailure::ManualCleanup(ManualCleanup::new(
                command,
                String::from("/home/test/.codex"),
                executable,
            )),
            rendered_failure(failure_oracle(
                "Codex Session Control could not be uninstalled.",
                "Codex CLI integration could not be updated.",
                &format!("Complete Codex CLI cleanup manually:\n  {rendered_command}\n"),
            )),
        ));
    }

    cases.extend([
        (
            UserFailure::VerifiedRelease(VerifiedReleaseRecovery::new(
                "https://github.com/example/releases/tag/v1.2.3".to_owned(),
                "https://github.com/example/releases/download/v1.2.3/checksums.txt".to_owned(),
            )),
            rendered_failure("Codex Session Control could not be installed.\n\nThe installed Codex Session Control state could not be verified.\n\nRecover the existing installation with the verified release:\n  Release: https://github.com/example/releases/tag/v1.2.3\n  Checksums: https://github.com/example/releases/download/v1.2.3/checksums.txt\n"),
        ),
        (
            UserFailure::InteractiveTerminal,
            rendered_failure("Codex Session Control could not be updated.\n\nThe operation could not safely continue from this terminal.\n\nRun the update from an interactive terminal:\n  codex-session-control update\n"),
        ),
        (
            UserFailure::PartialDisable(PartialDisable::new(None)),
            rendered_failure("Codex Session Control is stopped and will not start automatically.\n\nCodex Desktop integration could not be removed safely.\nYour Codex data is unchanged.\n\nComplete the remaining cleanup:\n  codex-session-control disable\n"),
        ),
        (
            UserFailure::PartialDisable(PartialDisable::new(Some(String::from(
                "/managed/desktop.desktop",
            )))),
            rendered_failure("Codex Session Control is stopped and will not start automatically.\n\nCodex Desktop integration could not be removed safely.\nYour Codex data is unchanged.\n\nComplete the remaining cleanup:\n  codex-session-control disable\n\nManaged paths requiring attention:\n  /managed/desktop.desktop\n"),
        ),
        (
            UserFailure::TerminalPartialUninstall(TerminalPartialUninstall::new(
                ManagedPaths::new(String::from("/managed/one"), Vec::new()),
            )),
            rendered_failure("Codex Session Control was only partially uninstalled.\n\nCleanup could not be completed safely.\n\nInspect these remaining managed paths:\n  /managed/one\n\nDo not rerun `codex-session-control uninstall`; the installed identity has already been removed.\n"),
        ),
        (
            UserFailure::TerminalPartialUninstall(TerminalPartialUninstall::new(
                ManagedPaths::new(
                    String::from("/managed/one"),
                    vec![String::from("/managed/two")],
                ),
            )),
            rendered_failure("Codex Session Control was only partially uninstalled.\n\nCleanup could not be completed safely.\n\nInspect these remaining managed paths:\n  /managed/one\n  /managed/two\n\nDo not rerun `codex-session-control uninstall`; the installed identity has already been removed.\n"),
        ),
        (
            UserFailure::Cancellation,
            rendered_failure("Codex Session Control was not updated.\n\nThe update was canceled before installation files changed.\n"),
        ),
        (
            UserFailure::WrapperUnavailable,
            rendered_failure("Codex CLI could not start because Codex Session Control is unavailable.\n\nCheck what needs attention:\n  codex-session-control status\n"),
        ),
    ]);
    cases
}

#[test]
fn update_completion_unknown_is_stderr_only_exit_one_without_retry() {
    let rendered = UserFailure::UpdateCompletionUnknown.render();
    assert!(rendered.stdout.is_empty());
    assert_eq!(rendered.stderr, UPDATE_COMPLETION_UNKNOWN);
    assert_eq!(rendered.exit_code, 1);
    assert!(!rendered.stderr.contains("Try again"));
}

#[test]
fn every_materially_distinct_failure_block_is_exact() {
    for (ordinary, expected) in ordinary_literal_cases() {
        assert_eq!(
            UserFailure::Ordinary(ordinary).render(),
            rendered_failure(expected)
        );
    }
    for (failure, expected) in failure_render_cases() {
        assert_eq!(failure.render(), expected);
        assert!(expected.stdout.is_empty());
        assert_eq!(expected.exit_code, 1);
        assert!(expected.stderr.ends_with('\n'));
    }
}


fn rendered_success(stdout: impl Into<String>, stderr: impl Into<String>) -> RenderedCli {
    RenderedCli {
        stdout: stdout.into(),
        stderr: stderr.into(),
        exit_code: 0,
    }
}

fn setup_success(
    running: RunningClientFacts,
    desktop: DesktopAvailability,
    desktop_changed: bool,
    notices: Vec<UserNotice>,
) -> UserSuccess {
    UserSuccess::Setup(
        SetupSuccess::new(version(), running, desktop, desktop_changed, notices).unwrap(),
    )
}

fn enable_success(
    running: RunningClientFacts,
    desktop: DesktopAvailability,
    desktop_changed: bool,
    notices: Vec<UserNotice>,
) -> UserSuccess {
    UserSuccess::Enable(EnableSuccess::new(running, desktop, desktop_changed, notices).unwrap())
}

fn status_success(
    state: StatusState,
    version: Option<Version>,
    service: Option<ServiceSummary>,
    cli: IntegrationState,
    desktop: IntegrationState,
    problems: Vec<StatusProblem>,
) -> UserSuccess {
    UserSuccess::Status(StatusResult::new(
        state, version, service, cli, desktop, problems,
    ))
}

fn service_summary_oracle(service: ServiceSummary) -> &'static str {
    match service {
        ServiceSummary::RunningAutomatic => "running, starts automatically",
        ServiceSummary::StoppedAutomaticOff => "stopped, automatic startup is off",
        ServiceSummary::StoppedUnexpectedAutomaticOn => {
            "stopped unexpectedly, automatic startup is on"
        }
        ServiceSummary::CouldNotVerify => "could not verify",
    }
}

fn integration_state_oracle(state: IntegrationState) -> &'static str {
    match state {
        IntegrationState::Ready => "ready",
        IntegrationState::Unavailable => "unavailable",
        IntegrationState::Unhealthy => "unhealthy",
        IntegrationState::CouldNotVerify => "could not verify",
    }
}

fn unhealthy_status_oracle(
    service: ServiceSummary,
    cli: IntegrationState,
    desktop: IntegrationState,
    problems: &[(&str, bool)],
) -> String {
    let mut expected = format!(
        "Status: unhealthy\nVersion: 1.2.3\nService: {}\nCodex CLI integration: {}\nCodex Desktop integration: {}\n\nProblems:\n",
        service_summary_oracle(service),
        integration_state_oracle(cli),
        integration_state_oracle(desktop),
    );
    for (problem, _) in problems {
        expected.push_str(&format!("- {problem}\n"));
    }
    expected.push('\n');
    if problems.iter().all(|(_, logs)| *logs) {
        let qualifier = if problems.len() > 1 {
            " for both problems"
        } else {
            ""
        };
        expected.push_str(&format!(
            "Check the service logs{qualifier}:\n  journalctl --user -u codex-session-control.service\n"
        ));
    } else {
        expected.push_str("Check what needs attention:\n  codex-session-control status\n");
    }
    expected
}

fn success_render_cases() -> Vec<(UserSuccess, RenderedCli)> {
    const SETUP_PRIMARY: &str = "Codex Session Control 1.2.3 is ready.";
    const CLI_GENERIC: &str = "To use Codex Session Control with Codex CLI, start the CLI with:\n  codex-session-control codex";
    const CLI_RUNNING: &str = "Codex CLI is already running without Codex Session Control.\nExit it, then start it with:\n  codex-session-control codex";
    const DESKTOP_RUNNING: &str = "Codex Desktop is already running without Codex Session Control.\nRestart Codex Desktop to use Codex Session Control there.";
    const DESKTOP_RESTART: &str = "If Codex Desktop is already running, restart it to make Codex Session Control available there.";
    const DESKTOP_WARNING: &str = "Codex Desktop integration is unavailable because a compatible Desktop launcher was not found.\n";
    const COMPATIBILITY_WARNING: &str = "Warning: Codex 9.9.9 has not been tested with Codex Session Control 1.2.3.\nSome features may not work as expected.\n";
    const PATH_NOTICE: &str = "Note: `/home/test/.local/bin` is not on your PATH.\nAdd it to your PATH to use the short `codex-session-control` command.\n";

    let no_clients = RunningClientFacts::default();
    let mut cases = vec![
        (
            setup_success(
                no_clients,
                DesktopAvailability::Available,
                false,
                Vec::new(),
            ),
            rendered_success(format!("{SETUP_PRIMARY}\n\n{CLI_GENERIC}\n"), ""),
        ),
        (
            setup_success(
                RunningClientFacts {
                    cli: true,
                    desktop: false,
                },
                DesktopAvailability::Available,
                false,
                Vec::new(),
            ),
            rendered_success(format!("{SETUP_PRIMARY}\n\n{CLI_RUNNING}\n"), ""),
        ),
        (
            setup_success(
                RunningClientFacts {
                    cli: false,
                    desktop: true,
                },
                DesktopAvailability::Available,
                false,
                Vec::new(),
            ),
            rendered_success(
                format!("{SETUP_PRIMARY}\n\n{CLI_GENERIC}\n\n{DESKTOP_RUNNING}\n"),
                "",
            ),
        ),
        (
            setup_success(no_clients, DesktopAvailability::Available, true, Vec::new()),
            rendered_success(
                format!("{SETUP_PRIMARY}\n\n{CLI_GENERIC}\n\n{DESKTOP_RESTART}\n"),
                "",
            ),
        ),
        (
            setup_success(
                no_clients,
                DesktopAvailability::Unavailable,
                false,
                vec![UserNotice::DesktopLauncherUnavailable],
            ),
            rendered_success(
                format!("{SETUP_PRIMARY}\n\n{CLI_GENERIC}\n"),
                DESKTOP_WARNING,
            ),
        ),
        (
            setup_success(
                no_clients,
                DesktopAvailability::CouldNotVerify,
                false,
                vec![UserNotice::Compatibility {
                    codex: Version::new(9, 9, 9),
                    product: version(),
                }],
            ),
            rendered_success(
                format!("{SETUP_PRIMARY}\n\n{CLI_GENERIC}\n"),
                COMPATIBILITY_WARNING,
            ),
        ),
        (
            setup_success(
                no_clients,
                DesktopAvailability::Available,
                false,
                vec![UserNotice::LocalBinMissingFromPath {
                    local_bin: String::from("/home/test/.local/bin"),
                }],
            ),
            rendered_success(format!("{SETUP_PRIMARY}\n\n{CLI_GENERIC}\n"), PATH_NOTICE),
        ),
        (
            setup_success(
                RunningClientFacts {
                    cli: true,
                    desktop: true,
                },
                DesktopAvailability::Available,
                true,
                vec![
                    UserNotice::Compatibility {
                        codex: Version::new(9, 9, 9),
                        product: version(),
                    },
                    UserNotice::LocalBinMissingFromPath {
                        local_bin: String::from("/home/test/.local/bin"),
                    },
                ],
            ),
            rendered_success(
                format!("{SETUP_PRIMARY}\n\n{CLI_RUNNING}\n\n{DESKTOP_RUNNING}\n"),
                format!("{}\n\n{}", COMPATIBILITY_WARNING.trim_end(), PATH_NOTICE),
            ),
        ),
    ];

    let update_rows = [
        (
            UpdateState::Applied,
            true,
            false,
            "Codex Session Control was updated to 1.2.3.\n\nStart a new task to use the updated plugin.\n",
        ),
        (
            UpdateState::AlreadyCurrent,
            true,
            false,
            "Codex Session Control 1.2.3 is already up to date.\n",
        ),
        (
            UpdateState::Applied,
            false,
            false,
            "Codex Session Control was updated to 1.2.3.\n\nThe service remains disabled. Run `codex-session-control enable` when you want to use it.\n",
        ),
        (
            UpdateState::AlreadyCurrent,
            false,
            false,
            "Codex Session Control 1.2.3 is already up to date.\n\nThe service remains disabled. Run `codex-session-control enable` when you want to use it.\n",
        ),
        (
            UpdateState::Applied,
            true,
            true,
            "Codex Session Control was updated to 1.2.3.\n\nStart a new task to use the updated plugin.\n\nIf Codex Desktop is already running, restart it to use the updated version of Codex Session Control.\n",
        ),
    ];
    for (state, service_enabled, desktop_changed, expected) in update_rows {
        cases.push((
            UserSuccess::Update(UpdateSuccess::new(
                state,
                version(),
                service_enabled,
                desktop_changed,
                Vec::new(),
            )),
            rendered_success(expected, ""),
        ));
    }
    cases.push((
        UserSuccess::Update(UpdateSuccess::new(
            UpdateState::Applied,
            version(),
            true,
            true,
            vec![UserNotice::Compatibility {
                codex: Version::new(9, 9, 9),
                product: version(),
            }],
        )),
        rendered_success(
            "Codex Session Control was updated to 1.2.3.\n\nStart a new task to use the updated plugin.\n\nIf Codex Desktop is already running, restart it to use the updated version of Codex Session Control.\n",
            COMPATIBILITY_WARNING,
        ),
    ));

    cases.extend([
        (
            enable_success(
                no_clients,
                DesktopAvailability::Available,
                false,
                Vec::new(),
            ),
            rendered_success(
                "Codex Session Control is running and will start automatically.\n",
                "",
            ),
        ),
        (
            enable_success(
                RunningClientFacts {
                    cli: true,
                    desktop: false,
                },
                DesktopAvailability::Available,
                false,
                Vec::new(),
            ),
            rendered_success(
                format!(
                    "Codex Session Control is running and will start automatically.\n\n{CLI_RUNNING}\n"
                ),
                "",
            ),
        ),
        (
            enable_success(
                RunningClientFacts {
                    cli: false,
                    desktop: true,
                },
                DesktopAvailability::Available,
                false,
                Vec::new(),
            ),
            rendered_success(
                format!(
                    "Codex Session Control is running and will start automatically.\n\n{DESKTOP_RUNNING}\n"
                ),
                "",
            ),
        ),
        (
            enable_success(
                no_clients,
                DesktopAvailability::Available,
                true,
                Vec::new(),
            ),
            rendered_success(
                format!(
                    "Codex Session Control is running and will start automatically.\n\n{DESKTOP_RESTART}\n"
                ),
                "",
            ),
        ),
        (
            enable_success(
                no_clients,
                DesktopAvailability::SetupRequired,
                false,
                Vec::new(),
            ),
            rendered_success(
                "Codex Session Control is running and will start automatically.\n\nCodex Desktop integration is unavailable.\nRun `codex-session-control setup` to set it up.\n",
                "",
            ),
        ),
        (
            enable_success(
                no_clients,
                DesktopAvailability::Unavailable,
                false,
                vec![UserNotice::DesktopLauncherUnavailable],
            ),
            rendered_success(
                "Codex Session Control is running and will start automatically.\n",
                DESKTOP_WARNING,
            ),
        ),
        (
            enable_success(
                RunningClientFacts {
                    cli: true,
                    desktop: true,
                },
                DesktopAvailability::Available,
                true,
                vec![UserNotice::LocalBinMissingFromPath {
                    local_bin: String::from("/home/test/.local/bin"),
                }],
            ),
            rendered_success(
                format!(
                    "Codex Session Control is running and will start automatically.\n\n{CLI_RUNNING}\n\n{DESKTOP_RUNNING}\n"
                ),
                PATH_NOTICE,
            ),
        ),
        (
            UserSuccess::Disable(DisableSuccess::new(false)),
            rendered_success(
                "Codex Session Control is stopped and will not start automatically.\n\nYour Codex data is unchanged.\n",
                "",
            ),
        ),
        (
            UserSuccess::Disable(DisableSuccess::new(true)),
            rendered_success(
                "Codex Session Control is stopped and will not start automatically.\n\nYour Codex data is unchanged.\nIf Codex Desktop is already running, restart it to continue without Codex Session Control.\n",
                "",
            ),
        ),
        (
            UserSuccess::Uninstall(UninstallSuccess::new(false)),
            rendered_success(
                "Codex Session Control was uninstalled.\n\nYour Codex data is unchanged.\n",
                "",
            ),
        ),
        (
            UserSuccess::Uninstall(UninstallSuccess::new(true)),
            rendered_success(
                "Codex Session Control was uninstalled.\n\nYour Codex data is unchanged.\nIf Codex Desktop is already running, restart it to continue without Codex Session Control.\n",
                "",
            ),
        ),
        (
            status_success(
                StatusState::Healthy,
                Some(version()),
                Some(ServiceSummary::RunningAutomatic),
                IntegrationState::Ready,
                IntegrationState::Unavailable,
                Vec::new(),
            ),
            rendered_success(
                "Status: healthy\nVersion: 1.2.3\nService: running, starts automatically\nCodex CLI integration: ready\nCodex Desktop integration: unavailable\n",
                "",
            ),
        ),
        (
            status_success(
                StatusState::Disabled,
                Some(version()),
                Some(ServiceSummary::StoppedAutomaticOff),
                IntegrationState::Unavailable,
                IntegrationState::Unavailable,
                Vec::new(),
            ),
            rendered_success(
                "Status: disabled\nVersion: 1.2.3\nService: stopped, automatic startup is off\nCodex CLI integration: unavailable\nCodex Desktop integration: unavailable\n\nRun `codex-session-control enable` to start Codex Session Control.\n",
                "",
            ),
        ),
        (
            status_success(
                StatusState::NotInstalled,
                None,
                None,
                IntegrationState::Unavailable,
                IntegrationState::Unavailable,
                Vec::new(),
            ),
            RenderedCli {
                stdout: "Status: not installed\nCodex CLI integration: unavailable\nCodex Desktop integration: unavailable\n\nInstall Codex Session Control by running:\n  codex-session-control setup\n"
                .to_owned(),
                stderr: String::new(),
                exit_code: 1,
            },
        ),
    ]);

    let status_problems = [
        (
            StatusProblem::InvocationContextCouldNotBeVerified,
            "The invocation context could not be verified.",
            false,
        ),
        (
            StatusProblem::InstalledStateCouldNotBeVerified,
            "The installed Codex Session Control state could not be verified.",
            false,
        ),
        (
            StatusProblem::NativeRegistrationFault,
            "Codex CLI native registration is incorrect.",
            false,
        ),
        (
            StatusProblem::NativeRegistrationCouldNotBeVerified,
            "Codex CLI native registration could not be verified.",
            false,
        ),
        (
            StatusProblem::ProjectionFault,
            "Codex CLI integration files are incorrect.",
            false,
        ),
        (
            StatusProblem::ProjectionCouldNotBeVerified,
            "Codex CLI integration files could not be verified.",
            false,
        ),
        (
            StatusProblem::ServiceEnablementCouldNotBeVerified,
            "Automatic service startup could not be verified.",
            false,
        ),
        (
            StatusProblem::ServiceConfiguredButStopped,
            "The service is configured to run but is stopped.",
            true,
        ),
        (
            StatusProblem::ServiceActivityCouldNotBeVerified,
            "The service state could not be verified.",
            false,
        ),
        (
            StatusProblem::SocketMissing,
            "The service connection is unavailable.",
            true,
        ),
        (StatusProblem::SocketUnsafe, "The service connection is unsafe.", false),
        (StatusProblem::AppServerUnavailable, "The app-server is unavailable.", true),
        (
            StatusProblem::AppServerCouldNotBeVerified,
            "The app-server could not be verified.",
            false,
        ),
        (
            StatusProblem::DesktopDescriptorFault,
            "Codex Desktop integration is incorrectly configured.",
            false,
        ),
        (
            StatusProblem::DesktopCouldNotBeVerified,
            "Codex Desktop integration could not be verified.",
            false,
        ),
    ];
    for (problem, prose, logs) in status_problems {
        cases.push((
            status_success(
                StatusState::Unhealthy,
                Some(version()),
                Some(ServiceSummary::CouldNotVerify),
                IntegrationState::CouldNotVerify,
                IntegrationState::Unhealthy,
                vec![problem],
            ),
            RenderedCli {
                stdout: unhealthy_status_oracle(
                    ServiceSummary::CouldNotVerify,
                    IntegrationState::CouldNotVerify,
                    IntegrationState::Unhealthy,
                    &[(prose, logs)],
                ),
                stderr: String::new(),
                exit_code: 1,
            },
        ));
    }
    cases.push((
        status_success(
            StatusState::Unhealthy,
            Some(version()),
            Some(ServiceSummary::StoppedUnexpectedAutomaticOn),
            IntegrationState::Unhealthy,
            IntegrationState::Unhealthy,
            vec![
                StatusProblem::ServiceConfiguredButStopped,
                StatusProblem::SocketMissing,
            ],
        ),
        RenderedCli {
            stdout: unhealthy_status_oracle(
                ServiceSummary::StoppedUnexpectedAutomaticOn,
                IntegrationState::Unhealthy,
                IntegrationState::Unhealthy,
                &[
                    ("The service is configured to run but is stopped.", true),
                    ("The service connection is unavailable.", true),
                ],
            ),
            stderr: String::new(),
            exit_code: 1,
        },
    ));
    cases
}

#[test]
fn every_materially_distinct_success_and_notice_block_is_exact() {
    for (success, expected) in success_render_cases() {
        assert_eq!(success.render(), expected);
        assert!(expected.stdout.ends_with('\n'));
    }

    assert!(
        SetupSuccess::new(
            version(),
            RunningClientFacts::default(),
            DesktopAvailability::Unavailable,
            true,
            Vec::new(),
        )
        .is_none()
    );
    assert!(
        SetupSuccess::new(
            version(),
            RunningClientFacts::default(),
            DesktopAvailability::CouldNotVerify,
            true,
            Vec::new(),
        )
        .is_none()
    );
    assert!(
        EnableSuccess::new(
            RunningClientFacts::default(),
            DesktopAvailability::SetupRequired,
            true,
            Vec::new(),
        )
        .is_none()
    );
}

#[test]
fn status_renderer_and_exit_matrix_are_exact() {

    let cases = success_render_cases();
    for (state, exit) in [
        (StatusState::Healthy, 0),
        (StatusState::Disabled, 0),
        (StatusState::NotInstalled, 1),
        (StatusState::Unhealthy, 1),
    ] {
        assert!(cases.iter().any(|(success, rendered)| matches!(success,
            UserSuccess::Status(status) if status.state == state && rendered.exit_code == exit
        )));
    }
}
