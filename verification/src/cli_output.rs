//! The exact text that each command prints, on which stream, and with which exit status.
use vstd::prelude::*;

use crate::version::Version;

verus! {

/// What a command prints and the status it exits with.
#[derive(Clone, Debug, PartialEq, Eq)]
pub struct RenderedCli {
    pub stdout: String,
    pub stderr: String,
    pub exit_code: u8,
}

/// The mathematical form of a rendered command result.
pub struct RenderedView {
    pub stdout: Seq<char>,
    pub stderr: Seq<char>,
    pub exit_code: u8,
}

impl RenderedCli {
    pub open spec fn view(&self) -> RenderedView {
        RenderedView { stdout: self.stdout@, stderr: self.stderr@, exit_code: self.exit_code }
    }
}

pub open spec fn rendered(stdout: Seq<char>, stderr: Seq<char>, exit_code: u8) -> RenderedView {
    RenderedView { stdout, stderr, exit_code }
}

/// The blocks joined by blank lines.
pub open spec fn join_blocks(blocks: Seq<Seq<char>>) -> Seq<char>
    decreases blocks.len(),
{
    if blocks.len() == 0 {
        Seq::empty()
    } else if blocks.len() == 1 {
        blocks[0]
    } else {
        join_blocks(blocks.drop_last()) + "\n\n"@ + blocks.last()
    }
}

/// The blocks joined by blank lines and ended by a line feed; nothing for no blocks.
pub open spec fn compose_text(blocks: Seq<Seq<char>>) -> Seq<char> {
    if blocks.len() == 0 {
        Seq::empty()
    } else {
        join_blocks(blocks) + "\n"@
    }
}

pub open spec fn strings_view(strings: Seq<String>) -> Seq<Seq<char>> {
    strings.map_values(|s: String| s@)
}

pub fn compose_blocks(blocks: Vec<String>) -> (text: String)
    ensures
        text@ == compose_text(strings_view(blocks@)),
{
    let ghost bs = strings_view(blocks@);
    let n = blocks.len();
    if n == 0 {
        return String::new();
    }
    let mut text = blocks[0].clone();
    let mut i: usize = 1;
    assert(bs.take(1).drop_last() =~= Seq::<Seq<char>>::empty());
    while i < n
        invariant
            bs == strings_view(blocks@),
            n == blocks@.len(),
            1 <= i <= n,
            text@ == join_blocks(bs.take(i as int)),
        decreases n - i,
    {
        assert(bs.take(i + 1).drop_last() =~= bs.take(i as int));
        text.append("\n\n");
        text.append(blocks[i].as_str());
        i = i + 1;
    }
    assert(bs.take(n as int) =~= bs);
    text.append("\n");
    text
}

/// `headline`, `problem` and `recovery`, separated by blank lines.
pub open spec fn failure_block_text(headline: Seq<char>, problem: Seq<char>, recovery: Seq<char>) -> Seq<char> {
    headline + "\n\n"@ + problem + "\n\n"@ + recovery
}

pub fn failure_block(headline: &str, problem: &str, recovery: &str) -> (text: String)
    ensures
        text@ == failure_block_text(headline@, problem@, recovery@),
{
    let mut text = String::from_str(headline);
    text.append("\n\n");
    text.append(problem);
    text.append("\n\n");
    text.append(recovery);
    text
}

/// A failure: nothing on stdout, the text on stderr, exit status 1.
pub fn failure(stderr: String) -> (result: RenderedCli)
    ensures
        result.view() == rendered(Seq::empty(), stderr@, 1),
{
    RenderedCli { stdout: String::new(), stderr, exit_code: 1 }
}

/// A status report: the text on stdout, nothing on stderr.
pub fn status_rendered(stdout: String, exit_code: u8) -> (result: RenderedCli)
    ensures
        result.view() == rendered(stdout@, Seq::empty(), exit_code),
{
    RenderedCli { stdout, stderr: String::new(), exit_code }
}

/// A notice printed on stderr beside a success.
#[derive(Debug)]
pub enum UserNotice {
    Compatibility { codex: Version, product: Version },
    DesktopLauncherUnavailable,
    LocalBinMissingFromPath { local_bin: String },
}

pub open spec fn notice_text(notice: UserNotice) -> Seq<char> {
    match notice {
        UserNotice::Compatibility { codex, product } => "Warning: Codex "@ + codex.text()
            + " has not been tested with Codex Session Control "@ + product.text()
            + ".\nSome features may not work as expected."@,
        UserNotice::DesktopLauncherUnavailable =>
            "Codex Desktop integration is unavailable because a compatible Desktop launcher was not found."@,
        UserNotice::LocalBinMissingFromPath { local_bin } => "Note: `"@ + local_bin@
            + "` is not on your PATH.\nAdd it to your PATH to use the short `codex-session-control` command."@,
    }
}

pub fn render_notice(notice: &UserNotice) -> (text: String)
    ensures
        text@ == notice_text(*notice),
{
    match notice {
        UserNotice::Compatibility { codex, product } => {
            let mut text = String::from_str("Warning: Codex ");
            codex.push_text(&mut text);
            text.append(" has not been tested with Codex Session Control ");
            product.push_text(&mut text);
            text.append(".\nSome features may not work as expected.");
            text
        },
        UserNotice::DesktopLauncherUnavailable => String::from_str(
            "Codex Desktop integration is unavailable because a compatible Desktop launcher was not found.",
        ),
        UserNotice::LocalBinMissingFromPath { local_bin } => {
            let mut text = String::from_str("Note: `");
            text.append(local_bin.as_str());
            text.append("` is not on your PATH.\nAdd it to your PATH to use the short `codex-session-control` command.");
            text
        },
    }
}

pub open spec fn notices_text(notices: Seq<UserNotice>) -> Seq<Seq<char>> {
    notices.map_values(|n: UserNotice| notice_text(n))
}

/// A success: the blocks on stdout, the notices on stderr, exit status 0.
pub fn success(blocks: Vec<String>, notices: &Vec<UserNotice>) -> (result: RenderedCli)
    ensures
        result.view() == rendered(compose_text(strings_view(blocks@)), compose_text(notices_text(notices@)), 0),
{
    let mut rendered_notices: Vec<String> = Vec::new();
    let mut i: usize = 0;
    while i < notices.len()
        invariant
            0 <= i <= notices@.len(),
            strings_view(rendered_notices@) =~= notices_text(notices@).take(i as int),
        decreases notices@.len() - i,
    {
        let ghost before = rendered_notices@;
        let text = render_notice(&notices[i]);
        rendered_notices.push(text);
        assert(strings_view(rendered_notices@) =~= strings_view(before).push(notice_text(notices@[i as int])));
        assert(notices_text(notices@).take(i + 1) =~= notices_text(notices@).take(i as int).push(notice_text(notices@[i as int])));
        i = i + 1;
    }
    assert(notices_text(notices@).take(notices@.len() as int) =~= notices_text(notices@));
    RenderedCli { stdout: compose_blocks(blocks), stderr: compose_blocks(rendered_notices), exit_code: 0 }
}

pub const SETUP: &'static str = "Codex Session Control could not be installed.";
pub const UPDATE: &'static str = "Codex Session Control could not be updated.";
pub const ENABLE: &'static str = "Codex Session Control could not be started.";
pub const DISABLE: &'static str = "Codex Session Control could not be stopped.";
pub const UNINSTALL: &'static str = "Codex Session Control could not be uninstalled.";
pub const SETUP_RETRY: &'static str = "Try again:\n  codex-session-control setup\n";
pub const UPDATE_RETRY: &'static str = "Try again:\n  codex-session-control update\n";
pub const ENABLE_RETRY: &'static str = "Try again:\n  codex-session-control enable\n";
pub const DISABLE_RETRY: &'static str = "Try again:\n  codex-session-control disable\n";
pub const UNINSTALL_RETRY: &'static str = "Try again:\n  codex-session-control uninstall\n";
pub const STATUS: &'static str = "Check what needs attention:\n  codex-session-control status\n";
pub const LOGS: &'static str = "Check the service logs:\n  journalctl --user -u codex-session-control.service\n";
pub const REPAIR_SETUP: &'static str = "Repair Codex Session Control:\n  codex-session-control setup\n";
pub const UNSAFE_TERMINAL: &'static str = "The operation could not safely continue from this terminal.";
pub const UNEXPECTED: &'static str = "The operation failed unexpectedly.";
pub const INSTALLED_STATE: &'static str = "The installed Codex Session Control state could not be verified.";
pub const INSTALLATION_FILES: &'static str = "The installation files could not be updated.";
pub const CLI_INTEGRATION: &'static str = "Codex CLI integration could not be updated.";
pub const SERVICE_CONFIGURATION: &'static str = "The service could not be configured.";
pub const DESKTOP_INTEGRATION: &'static str = "Codex Desktop integration could not be updated.";
pub const SERVICE_START: &'static str = "The service could not be started.";
pub const SERVICE_STATE: &'static str = "The service state could not be verified.";
pub const SERVICE_STOP: &'static str = "The service could not be stopped.";
pub const RELEASE: &'static str = "The latest release could not be retrieved.";
pub const CHECKSUM: &'static str = "The downloaded release could not be verified.";
pub const ACTIVE_TASKS: &'static str = "Active tasks could not be checked safely.";

/// An ordinary failure of a command: what failed and how to recover.
#[derive(Clone, Debug, PartialEq, Eq)]
pub enum OrdinaryFailure {
    SetupUnsafeTerminalRetry,
    SetupUnexpectedRetry,
    SetupInstalledStateCheckStatus,
    SetupInstallationFilesRetryUpdate,
    SetupCliIntegrationRetry,
    SetupCliIntegrationCheckStatus,
    SetupInstallationFilesRetry,
    SetupServiceConfigurationRetry,
    SetupDesktopIntegrationRetry,
    SetupDesktopIntegrationCheckStatus,
    SetupServiceStartRetry,
    SetupServiceStateRetryUpdate,
    SetupInstalledStateRepair { binary: String },
    UpdateUnexpectedRetry,
    UpdateInstalledStateCheckStatus,
    UpdateReleaseRetry,
    UpdateChecksumRetry,
    UpdateCliIntegrationRetry,
    UpdateCliIntegrationCheckStatus,
    UpdateServiceConfigurationRetry,
    UpdateServiceStateCheckStatus,
    UpdateActiveTasksRetry,
    UpdateInstallationFilesRetry,
    UpdateDesktopIntegrationRetry,
    UpdateDesktopIntegrationCheckStatus,
    UpdateServiceConfigurationLogs,
    UpdateServiceStartLogs,
    UpdateServiceStateLogs,
    UpdateInstalledStatePostMutationCheckStatus,
    EnableUnexpectedRetry,
    EnableInstalledStateRepairSetup,
    EnableServiceConfigurationRepairSetup,
    EnableDesktopIntegrationCheckStatus,
    EnableDesktopIntegrationRetry,
    EnableServiceStartRetry,
    EnableServiceStateRetry,
    EnableUnexpectedCheckStatus,
    DisableUnexpectedRetry,
    DisableServiceStopRetry,
    DisableUnexpectedCheckStatus,
    UninstallUnexpectedRetry,
    UninstallServiceStopRetry,
}

/// The headline, problem and recovery of an ordinary failure.
pub open spec fn ordinary_parts(failure: OrdinaryFailure) -> (Seq<char>, Seq<char>, Seq<char>) {
    match failure {
        OrdinaryFailure::SetupInstalledStateRepair { binary } => (
            SETUP@,
            INSTALLED_STATE@,
            "Repair Codex Session Control:\n  "@ + binary@ + " setup\n"@,
        ),
        OrdinaryFailure::SetupUnsafeTerminalRetry => (SETUP@, UNSAFE_TERMINAL@, SETUP_RETRY@),
        OrdinaryFailure::SetupUnexpectedRetry => (SETUP@, UNEXPECTED@, SETUP_RETRY@),
        OrdinaryFailure::SetupInstalledStateCheckStatus => (SETUP@, INSTALLED_STATE@, STATUS@),
        OrdinaryFailure::SetupInstallationFilesRetryUpdate => (SETUP@, INSTALLATION_FILES@, UPDATE_RETRY@),
        OrdinaryFailure::SetupCliIntegrationRetry => (SETUP@, CLI_INTEGRATION@, SETUP_RETRY@),
        OrdinaryFailure::SetupCliIntegrationCheckStatus => (SETUP@, CLI_INTEGRATION@, STATUS@),
        OrdinaryFailure::SetupInstallationFilesRetry => (SETUP@, INSTALLATION_FILES@, SETUP_RETRY@),
        OrdinaryFailure::SetupServiceConfigurationRetry => (SETUP@, SERVICE_CONFIGURATION@, SETUP_RETRY@),
        OrdinaryFailure::SetupDesktopIntegrationRetry => (SETUP@, DESKTOP_INTEGRATION@, SETUP_RETRY@),
        OrdinaryFailure::SetupDesktopIntegrationCheckStatus => (SETUP@, DESKTOP_INTEGRATION@, STATUS@),
        OrdinaryFailure::SetupServiceStartRetry => (SETUP@, SERVICE_START@, SETUP_RETRY@),
        OrdinaryFailure::SetupServiceStateRetryUpdate => (SETUP@, SERVICE_STATE@, UPDATE_RETRY@),
        OrdinaryFailure::UpdateUnexpectedRetry => (UPDATE@, UNEXPECTED@, UPDATE_RETRY@),
        OrdinaryFailure::UpdateInstalledStateCheckStatus => (UPDATE@, INSTALLED_STATE@, STATUS@),
        OrdinaryFailure::UpdateReleaseRetry => (UPDATE@, RELEASE@, UPDATE_RETRY@),
        OrdinaryFailure::UpdateChecksumRetry => (UPDATE@, CHECKSUM@, UPDATE_RETRY@),
        OrdinaryFailure::UpdateCliIntegrationRetry => (UPDATE@, CLI_INTEGRATION@, UPDATE_RETRY@),
        OrdinaryFailure::UpdateCliIntegrationCheckStatus => (UPDATE@, CLI_INTEGRATION@, STATUS@),
        OrdinaryFailure::UpdateServiceConfigurationRetry => (UPDATE@, SERVICE_CONFIGURATION@, UPDATE_RETRY@),
        OrdinaryFailure::UpdateServiceStateCheckStatus => (UPDATE@, SERVICE_STATE@, STATUS@),
        OrdinaryFailure::UpdateActiveTasksRetry => (UPDATE@, ACTIVE_TASKS@, UPDATE_RETRY@),
        OrdinaryFailure::UpdateInstallationFilesRetry => (UPDATE@, INSTALLATION_FILES@, UPDATE_RETRY@),
        OrdinaryFailure::UpdateDesktopIntegrationRetry => (UPDATE@, DESKTOP_INTEGRATION@, UPDATE_RETRY@),
        OrdinaryFailure::UpdateDesktopIntegrationCheckStatus => (UPDATE@, DESKTOP_INTEGRATION@, STATUS@),
        OrdinaryFailure::UpdateServiceConfigurationLogs => (UPDATE@, SERVICE_CONFIGURATION@, LOGS@),
        OrdinaryFailure::UpdateServiceStartLogs => (UPDATE@, SERVICE_START@, LOGS@),
        OrdinaryFailure::UpdateServiceStateLogs => (UPDATE@, SERVICE_STATE@, LOGS@),
        OrdinaryFailure::UpdateInstalledStatePostMutationCheckStatus => (UPDATE@, INSTALLED_STATE@, STATUS@),
        OrdinaryFailure::EnableUnexpectedRetry => (ENABLE@, UNEXPECTED@, ENABLE_RETRY@),
        OrdinaryFailure::EnableInstalledStateRepairSetup => (ENABLE@, INSTALLED_STATE@, REPAIR_SETUP@),
        OrdinaryFailure::EnableServiceConfigurationRepairSetup => (ENABLE@, SERVICE_CONFIGURATION@, REPAIR_SETUP@),
        OrdinaryFailure::EnableDesktopIntegrationCheckStatus => (ENABLE@, DESKTOP_INTEGRATION@, STATUS@),
        OrdinaryFailure::EnableDesktopIntegrationRetry => (ENABLE@, DESKTOP_INTEGRATION@, ENABLE_RETRY@),
        OrdinaryFailure::EnableServiceStartRetry => (ENABLE@, SERVICE_START@, ENABLE_RETRY@),
        OrdinaryFailure::EnableServiceStateRetry => (ENABLE@, SERVICE_STATE@, ENABLE_RETRY@),
        OrdinaryFailure::EnableUnexpectedCheckStatus => (ENABLE@, UNEXPECTED@, STATUS@),
        OrdinaryFailure::DisableUnexpectedRetry => (DISABLE@, UNEXPECTED@, DISABLE_RETRY@),
        OrdinaryFailure::DisableServiceStopRetry => (DISABLE@, SERVICE_STOP@, DISABLE_RETRY@),
        OrdinaryFailure::DisableUnexpectedCheckStatus => (DISABLE@, UNEXPECTED@, STATUS@),
        OrdinaryFailure::UninstallUnexpectedRetry => (UNINSTALL@, UNEXPECTED@, UNINSTALL_RETRY@),
        OrdinaryFailure::UninstallServiceStopRetry => (UNINSTALL@, SERVICE_STOP@, UNINSTALL_RETRY@),
    }
}

/// The text of an ordinary failure.
pub open spec fn ordinary_text(failure: OrdinaryFailure) -> Seq<char> {
    let (headline, problem, recovery) = ordinary_parts(failure);
    failure_block_text(headline, problem, recovery)
}

/// The headline, problem and recovery of an ordinary failure with a fixed recovery.
fn fixed_ordinary_parts(failure: &OrdinaryFailure) -> (parts: (&'static str, &'static str, &'static str))
    requires
        !(failure is SetupInstalledStateRepair),
    ensures
        (parts.0@, parts.1@, parts.2@) == ordinary_parts(*failure),
{
    match failure {
        OrdinaryFailure::SetupInstalledStateRepair { .. } => (SETUP, INSTALLED_STATE, STATUS),
        OrdinaryFailure::SetupUnsafeTerminalRetry => (SETUP, UNSAFE_TERMINAL, SETUP_RETRY),
        OrdinaryFailure::SetupUnexpectedRetry => (SETUP, UNEXPECTED, SETUP_RETRY),
        OrdinaryFailure::SetupInstalledStateCheckStatus => (SETUP, INSTALLED_STATE, STATUS),
        OrdinaryFailure::SetupInstallationFilesRetryUpdate => (SETUP, INSTALLATION_FILES, UPDATE_RETRY),
        OrdinaryFailure::SetupCliIntegrationRetry => (SETUP, CLI_INTEGRATION, SETUP_RETRY),
        OrdinaryFailure::SetupCliIntegrationCheckStatus => (SETUP, CLI_INTEGRATION, STATUS),
        OrdinaryFailure::SetupInstallationFilesRetry => (SETUP, INSTALLATION_FILES, SETUP_RETRY),
        OrdinaryFailure::SetupServiceConfigurationRetry => (SETUP, SERVICE_CONFIGURATION, SETUP_RETRY),
        OrdinaryFailure::SetupDesktopIntegrationRetry => (SETUP, DESKTOP_INTEGRATION, SETUP_RETRY),
        OrdinaryFailure::SetupDesktopIntegrationCheckStatus => (SETUP, DESKTOP_INTEGRATION, STATUS),
        OrdinaryFailure::SetupServiceStartRetry => (SETUP, SERVICE_START, SETUP_RETRY),
        OrdinaryFailure::SetupServiceStateRetryUpdate => (SETUP, SERVICE_STATE, UPDATE_RETRY),
        OrdinaryFailure::UpdateUnexpectedRetry => (UPDATE, UNEXPECTED, UPDATE_RETRY),
        OrdinaryFailure::UpdateInstalledStateCheckStatus => (UPDATE, INSTALLED_STATE, STATUS),
        OrdinaryFailure::UpdateReleaseRetry => (UPDATE, RELEASE, UPDATE_RETRY),
        OrdinaryFailure::UpdateChecksumRetry => (UPDATE, CHECKSUM, UPDATE_RETRY),
        OrdinaryFailure::UpdateCliIntegrationRetry => (UPDATE, CLI_INTEGRATION, UPDATE_RETRY),
        OrdinaryFailure::UpdateCliIntegrationCheckStatus => (UPDATE, CLI_INTEGRATION, STATUS),
        OrdinaryFailure::UpdateServiceConfigurationRetry => (UPDATE, SERVICE_CONFIGURATION, UPDATE_RETRY),
        OrdinaryFailure::UpdateServiceStateCheckStatus => (UPDATE, SERVICE_STATE, STATUS),
        OrdinaryFailure::UpdateActiveTasksRetry => (UPDATE, ACTIVE_TASKS, UPDATE_RETRY),
        OrdinaryFailure::UpdateInstallationFilesRetry => (UPDATE, INSTALLATION_FILES, UPDATE_RETRY),
        OrdinaryFailure::UpdateDesktopIntegrationRetry => (UPDATE, DESKTOP_INTEGRATION, UPDATE_RETRY),
        OrdinaryFailure::UpdateDesktopIntegrationCheckStatus => (UPDATE, DESKTOP_INTEGRATION, STATUS),
        OrdinaryFailure::UpdateServiceConfigurationLogs => (UPDATE, SERVICE_CONFIGURATION, LOGS),
        OrdinaryFailure::UpdateServiceStartLogs => (UPDATE, SERVICE_START, LOGS),
        OrdinaryFailure::UpdateServiceStateLogs => (UPDATE, SERVICE_STATE, LOGS),
        OrdinaryFailure::UpdateInstalledStatePostMutationCheckStatus => (UPDATE, INSTALLED_STATE, STATUS),
        OrdinaryFailure::EnableUnexpectedRetry => (ENABLE, UNEXPECTED, ENABLE_RETRY),
        OrdinaryFailure::EnableInstalledStateRepairSetup => (ENABLE, INSTALLED_STATE, REPAIR_SETUP),
        OrdinaryFailure::EnableServiceConfigurationRepairSetup => (ENABLE, SERVICE_CONFIGURATION, REPAIR_SETUP),
        OrdinaryFailure::EnableDesktopIntegrationCheckStatus => (ENABLE, DESKTOP_INTEGRATION, STATUS),
        OrdinaryFailure::EnableDesktopIntegrationRetry => (ENABLE, DESKTOP_INTEGRATION, ENABLE_RETRY),
        OrdinaryFailure::EnableServiceStartRetry => (ENABLE, SERVICE_START, ENABLE_RETRY),
        OrdinaryFailure::EnableServiceStateRetry => (ENABLE, SERVICE_STATE, ENABLE_RETRY),
        OrdinaryFailure::EnableUnexpectedCheckStatus => (ENABLE, UNEXPECTED, STATUS),
        OrdinaryFailure::DisableUnexpectedRetry => (DISABLE, UNEXPECTED, DISABLE_RETRY),
        OrdinaryFailure::DisableServiceStopRetry => (DISABLE, SERVICE_STOP, DISABLE_RETRY),
        OrdinaryFailure::DisableUnexpectedCheckStatus => (DISABLE, UNEXPECTED, STATUS),
        OrdinaryFailure::UninstallUnexpectedRetry => (UNINSTALL, UNEXPECTED, UNINSTALL_RETRY),
        OrdinaryFailure::UninstallServiceStopRetry => (UNINSTALL, SERVICE_STOP, UNINSTALL_RETRY),
    }
}

pub fn render_ordinary_failure(failure: &OrdinaryFailure) -> (text: String)
    ensures
        text@ == ordinary_text(*failure),
{
    if let OrdinaryFailure::SetupInstalledStateRepair { binary } = failure {
        let mut recovery = String::from_str("Repair Codex Session Control:\n  ");
        recovery.append(binary.as_str());
        recovery.append(" setup\n");
        return failure_block(SETUP, INSTALLED_STATE, recovery.as_str());
    }
    let (headline, problem, recovery) = fixed_ordinary_parts(failure);
    failure_block(headline, problem, recovery)
}

/// The managed paths that need attention: at least one.
#[derive(Debug)]
pub struct ManagedPaths {
    pub first: String,
    pub rest: Vec<String>,
}

impl ManagedPaths {
    pub fn new(first: String, rest: Vec<String>) -> (paths: Self)
        ensures
            paths.first == first,
            paths.rest == rest,
    {
        ManagedPaths { first, rest }
    }

    /// The paths in order.
    pub open spec fn all(&self) -> Seq<Seq<char>> {
        seq![self.first@] + strings_view(self.rest@)
    }

    /// The paths in order: the first, then the rest.
    pub fn iter(&self) -> (paths: Vec<String>)
        ensures
            strings_view(paths@) == self.all(),
    {
        let mut paths: Vec<String> = Vec::new();
        paths.push(self.first.clone());
        let mut i: usize = 0;
        assert(strings_view(paths@) =~= self.all().take(1));
        while i < self.rest.len()
            invariant
                0 <= i <= self.rest@.len(),
                strings_view(paths@) =~= self.all().take(i + 1),
            decreases self.rest@.len() - i,
        {
            let ghost before = strings_view(paths@);
            paths.push(self.rest[i].clone());
            assert(strings_view(paths@) =~= before.push(self.rest@[i as int]@));
            assert(self.all().take(i + 2) =~= self.all().take(i + 1).push(self.all()[i + 1]));
            i = i + 1;
        }
        assert(self.all().take(self.rest@.len() + 1int) =~= self.all());
        paths
    }
}

/// Each path on a line of its own, indented by two spaces.
pub open spec fn paths_text(paths: Seq<Seq<char>>) -> Seq<char>
    decreases paths.len(),
{
    if paths.len() == 0 {
        Seq::empty()
    } else {
        paths_text(paths.drop_last()) + "  "@ + paths.last() + "\n"@
    }
}

pub fn render_paths(paths: &ManagedPaths) -> (text: String)
    ensures
        text@ == paths_text(paths.all()),
{
    let ghost all = paths.all();
    let mut text = String::from_str("  ");
    text.append(paths.first.as_str());
    text.append("\n");
    assert(all.take(1).drop_last() =~= Seq::<Seq<char>>::empty());
    assert(all.take(1).last() == paths.first@);
    assert(paths_text(all.take(1).drop_last()) == Seq::<char>::empty());
    assert(text@ =~= paths_text(all.take(1)));
    let mut i: usize = 0;
    while i < paths.rest.len()
        invariant
            all == paths.all(),
            0 <= i <= paths.rest@.len(),
            text@ == paths_text(all.take(i + 1)),
        decreases paths.rest@.len() - i,
    {
        assert(all.take(i + 2).drop_last() =~= all.take(i + 1));
        assert(all[i + 1] == paths.rest@[i as int]@);
        text.append("  ");
        text.append(paths.rest[i].as_str());
        text.append("\n");
        i = i + 1;
    }
    assert(all.take(paths.rest@.len() + 1int) =~= all);
    text
}

/// A failure whose rollback could not finish: the failure, then the paths to inspect.
pub open spec fn rollback_text(primary: Seq<char>, paths: Seq<Seq<char>>) -> Seq<char> {
    primary + "\nCleanup could not be completed safely.\n\nInspect these managed paths:\n"@ + paths_text(paths)
}

pub fn rollback_block(primary: String, paths: &ManagedPaths) -> (text: String)
    ensures
        text@ == rollback_text(primary@, paths.all()),
{
    let mut text = primary;
    text.append("\nCleanup could not be completed safely.\n\nInspect these managed paths:\n");
    let listed = render_paths(paths);
    text.append(listed.as_str());
    text
}

/// The failure that a rollback followed.
#[derive(Clone, Copy, Debug, PartialEq, Eq, Structural)]
pub enum RollbackPrimary {
    SetupDesktopRetry,
    SetupServiceConfigurationRetry,
    SetupServiceStartRetry,
    SetupServiceStateRetryUpdate,
    UpdateDesktopRetry,
    EnableDesktopRetry,
    EnableServiceStateCheckStatus,
    UninstallInstalledStateCheckStatus,
    UninstallDesktopCheckStatus,
    UninstallCleanupRetry,
}

/// A failure after which the rollback could not finish.
#[derive(Debug)]
pub struct RollbackIncomplete {
    pub primary: RollbackPrimary,
    pub paths: ManagedPaths,
}

/// The text of the failure that a rollback followed.
pub open spec fn rollback_primary_text(primary: RollbackPrimary) -> Seq<char> {
    match primary {
        RollbackPrimary::SetupDesktopRetry => ordinary_text(OrdinaryFailure::SetupDesktopIntegrationRetry),
        RollbackPrimary::SetupServiceConfigurationRetry => ordinary_text(OrdinaryFailure::SetupServiceConfigurationRetry),
        RollbackPrimary::SetupServiceStartRetry => ordinary_text(OrdinaryFailure::SetupServiceStartRetry),
        RollbackPrimary::SetupServiceStateRetryUpdate => ordinary_text(OrdinaryFailure::SetupServiceStateRetryUpdate),
        RollbackPrimary::UpdateDesktopRetry => ordinary_text(OrdinaryFailure::UpdateDesktopIntegrationRetry),
        RollbackPrimary::EnableDesktopRetry => ordinary_text(OrdinaryFailure::EnableDesktopIntegrationRetry),
        RollbackPrimary::EnableServiceStateCheckStatus => failure_block_text(ENABLE@, SERVICE_STATE@, STATUS@),
        RollbackPrimary::UninstallInstalledStateCheckStatus => failure_block_text(UNINSTALL@, INSTALLED_STATE@, STATUS@),
        RollbackPrimary::UninstallDesktopCheckStatus => failure_block_text(UNINSTALL@, DESKTOP_INTEGRATION@, STATUS@),
        RollbackPrimary::UninstallCleanupRetry => failure_block_text(UNINSTALL@, "Cleanup could not be completed safely."@, UNINSTALL_RETRY@),
    }
}

impl RollbackIncomplete {
    pub fn new(primary: RollbackPrimary, paths: ManagedPaths) -> (failure: Self)
        ensures
            failure.primary == primary,
            failure.paths == paths,
    {
        RollbackIncomplete { primary, paths }
    }

    pub open spec fn text(&self) -> Seq<char> {
        rollback_text(rollback_primary_text(self.primary), self.paths.all())
    }

    pub fn render(&self) -> (text: String)
        ensures
            text@ == self.text(),
    {
        let primary = match self.primary {
            RollbackPrimary::SetupDesktopRetry => render_ordinary_failure(&OrdinaryFailure::SetupDesktopIntegrationRetry),
            RollbackPrimary::SetupServiceConfigurationRetry => render_ordinary_failure(&OrdinaryFailure::SetupServiceConfigurationRetry),
            RollbackPrimary::SetupServiceStartRetry => render_ordinary_failure(&OrdinaryFailure::SetupServiceStartRetry),
            RollbackPrimary::SetupServiceStateRetryUpdate => render_ordinary_failure(&OrdinaryFailure::SetupServiceStateRetryUpdate),
            RollbackPrimary::UpdateDesktopRetry => render_ordinary_failure(&OrdinaryFailure::UpdateDesktopIntegrationRetry),
            RollbackPrimary::EnableDesktopRetry => render_ordinary_failure(&OrdinaryFailure::EnableDesktopIntegrationRetry),
            RollbackPrimary::EnableServiceStateCheckStatus => failure_block(ENABLE, SERVICE_STATE, STATUS),
            RollbackPrimary::UninstallInstalledStateCheckStatus => failure_block(UNINSTALL, INSTALLED_STATE, STATUS),
            RollbackPrimary::UninstallDesktopCheckStatus => failure_block(UNINSTALL, DESKTOP_INTEGRATION, STATUS),
            RollbackPrimary::UninstallCleanupRetry => failure_block(UNINSTALL, "Cleanup could not be completed safely.", UNINSTALL_RETRY),
        };
        rollback_block(primary, &self.paths)
    }
}

/// A failure that asks to stop the service from another terminal and try again.
#[derive(Clone, Copy, Debug, PartialEq, Eq, Structural)]
pub enum StopThenRetry {
    UpdateServiceStateDisableUpdateEnable,
    EnableServiceStartStopThenEnable,
    EnableServiceStateStopThenEnable,
    DisableUnsafeStopThenDisable,
    DisableServiceStopThenDisable,
    DisableServiceStateStopThenDisable,
    UninstallUnsafeStopThenUninstall,
    UninstallServiceStateStopThenUninstall,
}

pub const STOP_THEN_ENABLE: &'static str = "  systemctl --user stop codex-session-control.service\n  codex-session-control enable\n";
pub const STOP_THEN_DISABLE: &'static str = "  systemctl --user stop codex-session-control.service\n  codex-session-control disable\n";
pub const STOP_THEN_UNINSTALL: &'static str = "  systemctl --user stop codex-session-control.service\n  codex-session-control uninstall\n";
pub const DISABLE_UPDATE_ENABLE: &'static str = "  codex-session-control disable\n  codex-session-control update\n  codex-session-control enable\n";

/// The headline, problem and commands of a stop-then-retry failure.
pub open spec fn stop_then_retry_parts(failure: StopThenRetry) -> (Seq<char>, Seq<char>, Seq<char>) {
    match failure {
        StopThenRetry::UpdateServiceStateDisableUpdateEnable => (UPDATE@, SERVICE_STATE@, DISABLE_UPDATE_ENABLE@),
        StopThenRetry::EnableServiceStartStopThenEnable => (ENABLE@, SERVICE_START@, STOP_THEN_ENABLE@),
        StopThenRetry::EnableServiceStateStopThenEnable => (ENABLE@, SERVICE_STATE@, STOP_THEN_ENABLE@),
        StopThenRetry::DisableUnsafeStopThenDisable => (DISABLE@, UNSAFE_TERMINAL@, STOP_THEN_DISABLE@),
        StopThenRetry::DisableServiceStopThenDisable => (DISABLE@, SERVICE_STOP@, STOP_THEN_DISABLE@),
        StopThenRetry::DisableServiceStateStopThenDisable => (DISABLE@, SERVICE_STATE@, STOP_THEN_DISABLE@),
        StopThenRetry::UninstallUnsafeStopThenUninstall => (UNINSTALL@, UNSAFE_TERMINAL@, STOP_THEN_UNINSTALL@),
        StopThenRetry::UninstallServiceStateStopThenUninstall => (UNINSTALL@, SERVICE_STATE@, STOP_THEN_UNINSTALL@),
    }
}

impl StopThenRetry {
    pub open spec fn text(self) -> Seq<char> {
        let (headline, problem, commands) = stop_then_retry_parts(self);
        failure_block_text(headline, problem, "From an independent terminal, stop the service and try again:\n"@ + commands)
    }

    pub fn render(&self) -> (text: String)
        ensures
            text@ == self.text(),
    {
        let (headline, problem, commands) = match self {
            StopThenRetry::UpdateServiceStateDisableUpdateEnable => (UPDATE, SERVICE_STATE, DISABLE_UPDATE_ENABLE),
            StopThenRetry::EnableServiceStartStopThenEnable => (ENABLE, SERVICE_START, STOP_THEN_ENABLE),
            StopThenRetry::EnableServiceStateStopThenEnable => (ENABLE, SERVICE_STATE, STOP_THEN_ENABLE),
            StopThenRetry::DisableUnsafeStopThenDisable => (DISABLE, UNSAFE_TERMINAL, STOP_THEN_DISABLE),
            StopThenRetry::DisableServiceStopThenDisable => (DISABLE, SERVICE_STOP, STOP_THEN_DISABLE),
            StopThenRetry::DisableServiceStateStopThenDisable => (DISABLE, SERVICE_STATE, STOP_THEN_DISABLE),
            StopThenRetry::UninstallUnsafeStopThenUninstall => (UNINSTALL, UNSAFE_TERMINAL, STOP_THEN_UNINSTALL),
            StopThenRetry::UninstallServiceStateStopThenUninstall => (UNINSTALL, SERVICE_STATE, STOP_THEN_UNINSTALL),
        };
        let mut recovery = String::from_str("From an independent terminal, stop the service and try again:\n");
        recovery.append(commands);
        failure_block(headline, problem, recovery.as_str())
    }
}

/// A failure that asks to rerun the command from an independent terminal.
#[derive(Clone, Copy, Debug, PartialEq, Eq, Structural)]
pub enum IndependentTerminal {
    Update,
    Disable,
    Uninstall,
}

impl IndependentTerminal {
    pub open spec fn parts(self) -> (Seq<char>, Seq<char>) {
        match self {
            IndependentTerminal::Update => (UPDATE@, "codex-session-control update"@),
            IndependentTerminal::Disable => (DISABLE@, "codex-session-control disable"@),
            IndependentTerminal::Uninstall => (UNINSTALL@, "codex-session-control uninstall"@),
        }
    }

    pub open spec fn text(self) -> Seq<char> {
        failure_block_text(self.parts().0, UNSAFE_TERMINAL@,
            "Run the command from an independent terminal:\n  "@ + self.parts().1 + "\n"@)
    }

    pub fn render(&self) -> (text: String)
        ensures
            text@ == self.text(),
    {
        let (headline, command) = match self {
            IndependentTerminal::Update => (UPDATE, "codex-session-control update"),
            IndependentTerminal::Disable => (DISABLE, "codex-session-control disable"),
            IndependentTerminal::Uninstall => (UNINSTALL, "codex-session-control uninstall"),
        };
        let mut recovery = String::from_str("Run the command from an independent terminal:\n  ");
        recovery.append(command);
        recovery.append("\n");
        failure_block(headline, UNSAFE_TERMINAL, recovery.as_str())
    }
}

/// The text with each `'` written as `'\''`, for use inside single quotes.
pub open spec fn quote_escaped(text: Seq<char>) -> Seq<char>
    decreases text.len(),
{
    if text.len() == 0 {
        Seq::empty()
    } else if text.last() == '\'' {
        quote_escaped(text.drop_last()) + "'\\''"@
    } else {
        quote_escaped(text.drop_last()).push(text.last())
    }
}

/// The text as one shell word: in single quotes.
pub open spec fn shell_quoted(text: Seq<char>) -> Seq<char> {
    "'"@ + quote_escaped(text) + "'"@
}

pub fn shell_quote(text: &str) -> (quoted: String)
    ensures
        quoted@ == shell_quoted(text@),
{
    let characters = crate::text::chars_of(text);
    let mut quoted = String::from_str("'");
    let mut i: usize = 0;
    while i < characters.len()
        invariant
            0 <= i <= characters@.len(),
            characters@ == text@,
            quoted@ == "'"@ + quote_escaped(characters@.take(i as int)),
        decreases characters@.len() - i,
    {
        let c = characters[i];
        assert(characters@.take(i + 1).drop_last() =~= characters@.take(i as int));
        if c == '\'' {
            quoted.append("'\\''");
        } else {
            crate::text::push_char(&mut quoted, c);
        }
        assert(quoted@ =~= "'"@ + quote_escaped(characters@.take(i + 1)));
        i = i + 1;
    }
    assert(characters@.take(characters@.len() as int) =~= characters@);
    quoted.append("'");
    quoted
}

/// The Codex CLI command that finishes an uninstall by hand.
#[derive(Clone, Copy, Debug, PartialEq, Eq, Structural)]
pub enum NativeCleanupCommand {
    RemovePlugin,
    RemoveMarketplace,
}

pub const REMOVE_PLUGIN_ARGUMENTS: &'static str = "plugin remove codex-session-control@codex-session-control-local --json";
pub const REMOVE_MARKETPLACE_ARGUMENTS: &'static str = "plugin marketplace remove codex-session-control-local --json";

/// An uninstall whose Codex CLI cleanup must be finished by hand.
#[derive(Debug)]
pub struct ManualCleanup {
    pub command: NativeCleanupCommand,
    pub codex_home: String,
    pub codex_executable: Option<String>,
}

impl ManualCleanup {
    pub fn new(command: NativeCleanupCommand, codex_home: String, codex_executable: Option<String>) -> (cleanup: Self)
        ensures
            cleanup.command == command,
            cleanup.codex_home == codex_home,
            cleanup.codex_executable == codex_executable,
    {
        ManualCleanup { command, codex_home, codex_executable }
    }

    pub open spec fn text(&self) -> Seq<char> {
        let executable = match self.codex_executable {
            Some(path) => shell_quoted(path@),
            None => "codex"@,
        };
        let arguments = match self.command {
            NativeCleanupCommand::RemovePlugin => REMOVE_PLUGIN_ARGUMENTS@,
            NativeCleanupCommand::RemoveMarketplace => REMOVE_MARKETPLACE_ARGUMENTS@,
        };
        failure_block_text(UNINSTALL@, CLI_INTEGRATION@,
            "Complete Codex CLI cleanup manually:\n  CODEX_HOME="@ + shell_quoted(self.codex_home@) + " "@
                + executable + " "@ + arguments + "\n"@)
    }

    pub fn render(&self) -> (text: String)
        ensures
            text@ == self.text(),
    {
        let executable = match &self.codex_executable {
            Some(path) => shell_quote(path.as_str()),
            None => String::from_str("codex"),
        };
        let arguments = match self.command {
            NativeCleanupCommand::RemovePlugin => REMOVE_PLUGIN_ARGUMENTS,
            NativeCleanupCommand::RemoveMarketplace => REMOVE_MARKETPLACE_ARGUMENTS,
        };
        let mut recovery = String::from_str("Complete Codex CLI cleanup manually:\n  CODEX_HOME=");
        let home = shell_quote(self.codex_home.as_str());
        recovery.append(home.as_str());
        recovery.append(" ");
        recovery.append(executable.as_str());
        recovery.append(" ");
        recovery.append(arguments);
        recovery.append("\n");
        failure_block(UNINSTALL, CLI_INTEGRATION, recovery.as_str())
    }
}

/// A failed install that points to the verified release for recovery.
#[derive(Debug)]
pub struct VerifiedReleaseRecovery {
    pub release_url: String,
    pub checksums_url: String,
}

impl VerifiedReleaseRecovery {
    pub fn new(release_url: String, checksums_url: String) -> (recovery: Self)
        ensures
            recovery.release_url == release_url,
            recovery.checksums_url == checksums_url,
    {
        VerifiedReleaseRecovery { release_url, checksums_url }
    }

    pub open spec fn text(&self) -> Seq<char> {
        failure_block_text(SETUP@, INSTALLED_STATE@,
            "Recover the existing installation with the verified release:\n  Release: "@ + self.release_url@
                + "\n  Checksums: "@ + self.checksums_url@ + "\n"@)
    }

    pub fn render(&self) -> (text: String)
        ensures
            text@ == self.text(),
    {
        let mut recovery = String::from_str("Recover the existing installation with the verified release:\n  Release: ");
        recovery.append(self.release_url.as_str());
        recovery.append("\n  Checksums: ");
        recovery.append(self.checksums_url.as_str());
        recovery.append("\n");
        failure_block(SETUP, INSTALLED_STATE, recovery.as_str())
    }
}

pub const PARTIAL_DISABLE: &'static str = "Codex Session Control is stopped and will not start automatically.\n\nCodex Desktop integration could not be removed safely.\nYour Codex data is unchanged.\n\nComplete the remaining cleanup:\n  codex-session-control disable\n";

/// A disable that stopped the service but could not remove the Desktop integration.
#[derive(Debug)]
pub struct PartialDisable {
    pub managed_path: Option<String>,
}

impl PartialDisable {
    pub fn new(managed_path: Option<String>) -> (failure: Self)
        ensures
            failure.managed_path == managed_path,
    {
        PartialDisable { managed_path }
    }

    pub open spec fn text(&self) -> Seq<char> {
        match self.managed_path {
            Some(path) => PARTIAL_DISABLE@ + "\nManaged paths requiring attention:\n  "@ + path@ + "\n"@,
            None => PARTIAL_DISABLE@,
        }
    }

    pub fn render(&self) -> (text: String)
        ensures
            text@ == self.text(),
    {
        let mut text = String::from_str(PARTIAL_DISABLE);
        if let Some(path) = &self.managed_path {
            text.append("\nManaged paths requiring attention:\n  ");
            text.append(path.as_str());
            text.append("\n");
        }
        text
    }
}

/// An uninstall that removed the installed identity but left managed paths behind.
#[derive(Debug)]
pub struct TerminalPartialUninstall {
    pub remaining: ManagedPaths,
}

impl TerminalPartialUninstall {
    pub fn new(remaining: ManagedPaths) -> (failure: Self)
        ensures
            failure.remaining == remaining,
    {
        TerminalPartialUninstall { remaining }
    }

    pub open spec fn text(&self) -> Seq<char> {
        "Codex Session Control was only partially uninstalled.\n\nCleanup could not be completed safely.\n\nInspect these remaining managed paths:\n"@
            + paths_text(self.remaining.all())
            + "\nDo not rerun `codex-session-control uninstall`; the installed identity has already been removed.\n"@
    }

    pub fn render(&self) -> (text: String)
        ensures
            text@ == self.text(),
    {
        let mut text = String::from_str("Codex Session Control was only partially uninstalled.\n\nCleanup could not be completed safely.\n\nInspect these remaining managed paths:\n");
        let paths = render_paths(&self.remaining);
        text.append(paths.as_str());
        text.append("\nDo not rerun `codex-session-control uninstall`; the installed identity has already been removed.\n");
        text
    }
}

pub const INTERACTIVE_RECOVERY: &'static str = "Run the update from an interactive terminal:\n  codex-session-control update\n";
pub const UPDATE_COMPLETION_UNKNOWN: &'static str = "Codex Session Control could not confirm that the update completed.\n\nThe installed Codex Session Control state could not be verified.\n\nCheck what needs attention:\n  codex-session-control status\n";
pub const CANCELLATION: &'static str = "Codex Session Control was not updated.\n\nThe update was canceled before installation files changed.\n";
pub const WRAPPER_UNAVAILABLE: &'static str = "Codex CLI could not start because Codex Session Control is unavailable.\n\nCheck what needs attention:\n  codex-session-control status\n";

/// Every way a command can fail, with the text it prints.
#[derive(Debug)]
pub enum UserFailure {
    Ordinary(OrdinaryFailure),
    RollbackIncomplete(RollbackIncomplete),
    StopThenRetry(StopThenRetry),
    ManualCleanup(ManualCleanup),
    VerifiedRelease(VerifiedReleaseRecovery),
    IndependentTerminal(IndependentTerminal),
    InteractiveTerminal,
    PartialDisable(PartialDisable),
    TerminalPartialUninstall(TerminalPartialUninstall),
    UpdateCompletionUnknown,
    Cancellation,
    WrapperUnavailable,
}

impl UserFailure {
    /// The text that the failure prints on stderr.
    pub open spec fn text(&self) -> Seq<char> {
        match self {
            UserFailure::Ordinary(f) => ordinary_text(*f),
            UserFailure::RollbackIncomplete(f) => f.text(),
            UserFailure::StopThenRetry(f) => f.text(),
            UserFailure::ManualCleanup(f) => f.text(),
            UserFailure::VerifiedRelease(f) => f.text(),
            UserFailure::IndependentTerminal(f) => f.text(),
            UserFailure::InteractiveTerminal => failure_block_text(UPDATE@, UNSAFE_TERMINAL@, INTERACTIVE_RECOVERY@),
            UserFailure::PartialDisable(f) => f.text(),
            UserFailure::TerminalPartialUninstall(f) => f.text(),
            UserFailure::UpdateCompletionUnknown => UPDATE_COMPLETION_UNKNOWN@,
            UserFailure::Cancellation => CANCELLATION@,
            UserFailure::WrapperUnavailable => WRAPPER_UNAVAILABLE@,
        }
    }

    /// A failure prints its text on stderr only and exits with status 1.
    pub fn render(&self) -> (result: RenderedCli)
        ensures
            result.view() == rendered(Seq::empty(), self.text(), 1),
    {
        let text = match self {
            UserFailure::Ordinary(f) => render_ordinary_failure(f),
            UserFailure::RollbackIncomplete(f) => f.render(),
            UserFailure::StopThenRetry(f) => f.render(),
            UserFailure::ManualCleanup(f) => f.render(),
            UserFailure::VerifiedRelease(f) => f.render(),
            UserFailure::IndependentTerminal(f) => f.render(),
            UserFailure::InteractiveTerminal => failure_block(UPDATE, UNSAFE_TERMINAL, INTERACTIVE_RECOVERY),
            UserFailure::PartialDisable(f) => f.render(),
            UserFailure::TerminalPartialUninstall(f) => f.render(),
            UserFailure::UpdateCompletionUnknown => String::from_str(UPDATE_COMPLETION_UNKNOWN),
            UserFailure::Cancellation => String::from_str(CANCELLATION),
            UserFailure::WrapperUnavailable => String::from_str(WRAPPER_UNAVAILABLE),
        };
        failure(text)
    }
}

/// Which Codex clients were already running when a command changed the setup.
#[derive(Clone, Copy, Debug, Default, PartialEq, Eq, Structural)]
pub struct RunningClientFacts {
    pub cli: bool,
    pub desktop: bool,
}

/// What is known of the Codex Desktop integration.
#[derive(Clone, Copy, Debug, PartialEq, Eq, Structural)]
pub enum DesktopAvailability {
    Available,
    Unavailable,
    CouldNotVerify,
    SetupRequired,
}

pub const CLI_ALREADY_RUNNING: &'static str = "Codex CLI is already running without Codex Session Control.\nExit it, then start it with:\n  codex-session-control codex";
pub const CLI_START: &'static str = "To use Codex Session Control with Codex CLI, start the CLI with:\n  codex-session-control codex";
pub const DESKTOP_SETUP_REQUIRED: &'static str = "Codex Desktop integration is unavailable.\nRun `codex-session-control setup` to set it up.";
pub const DESKTOP_ALREADY_RUNNING: &'static str = "Codex Desktop is already running without Codex Session Control.\nRestart Codex Desktop to use Codex Session Control there.";
pub const DESKTOP_RESTART: &'static str = "If Codex Desktop is already running, restart it to make Codex Session Control available there.";

/// The Desktop block of a setup or enable report, if any.
pub open spec fn desktop_guidance_text(availability: DesktopAvailability, running: bool, changed: bool, enable: bool) -> Option<Seq<char>> {
    match availability {
        DesktopAvailability::SetupRequired => if enable { Some(DESKTOP_SETUP_REQUIRED@) } else { None },
        DesktopAvailability::Unavailable | DesktopAvailability::CouldNotVerify => None,
        DesktopAvailability::Available => if running {
            Some(DESKTOP_ALREADY_RUNNING@)
        } else if changed {
            Some(DESKTOP_RESTART@)
        } else {
            None
        },
    }
}

pub fn desktop_guidance(availability: DesktopAvailability, running: bool, changed: bool, enable: bool) -> (text: Option<String>)
    ensures
        match text {
            Some(t) => desktop_guidance_text(availability, running, changed, enable) == Some(t@),
            None => desktop_guidance_text(availability, running, changed, enable) is None,
        },
{
    match availability {
        DesktopAvailability::SetupRequired => if enable { Some(String::from_str(DESKTOP_SETUP_REQUIRED)) } else { None },
        DesktopAvailability::Unavailable | DesktopAvailability::CouldNotVerify => None,
        DesktopAvailability::Available => if running {
            Some(String::from_str(DESKTOP_ALREADY_RUNNING))
        } else if changed {
            Some(String::from_str(DESKTOP_RESTART))
        } else {
            None
        },
    }
}

pub open spec fn with_optional(blocks: Seq<Seq<char>>, block: Option<Seq<char>>) -> Seq<Seq<char>> {
    match block {
        Some(b) => blocks.push(b),
        None => blocks,
    }
}

fn push_optional(blocks: &mut Vec<String>, block: Option<String>)
    ensures
        strings_view(final(blocks)@) == with_optional(strings_view(old(blocks)@), match block { Some(b) => Some(b@), None => None }),
{
    if let Some(b) = block {
        let ghost before = blocks@;
        let ghost text = b@;
        blocks.push(b);
        assert(strings_view(blocks@) =~= strings_view(before).push(text));
    }
}

fn push_block(blocks: &mut Vec<String>, block: String)
    ensures
        strings_view(final(blocks)@) == strings_view(old(blocks)@).push(block@),
{
    let ghost before = blocks@;
    let ghost text = block@;
    blocks.push(block);
    assert(strings_view(blocks@) =~= strings_view(before).push(text));
}

/// A completed setup.
#[derive(Debug)]
pub struct SetupSuccess {
    pub version: Version,
    pub running: RunningClientFacts,
    pub desktop: DesktopAvailability,
    pub desktop_changed: bool,
    pub notices: Vec<UserNotice>,
}

impl SetupSuccess {
    /// A setup report; none where the Desktop integration changed but is unavailable or
    /// unverified.
    pub fn new(version: Version, running: RunningClientFacts, desktop: DesktopAvailability, desktop_changed: bool, notices: Vec<UserNotice>) -> (success: Option<Self>)
        ensures
            match success {
                Some(s) => !(desktop_changed && (desktop == DesktopAvailability::Unavailable || desktop == DesktopAvailability::CouldNotVerify))
                    && s.version == version && s.running == running && s.desktop == desktop
                    && s.desktop_changed == desktop_changed && s.notices == notices,
                None => desktop_changed && (desktop == DesktopAvailability::Unavailable || desktop == DesktopAvailability::CouldNotVerify),
            },
    {
        if desktop_changed && (desktop == DesktopAvailability::Unavailable || desktop == DesktopAvailability::CouldNotVerify) {
            return None;
        }
        Some(SetupSuccess { version, running, desktop, desktop_changed, notices })
    }

    pub open spec fn blocks(&self) -> Seq<Seq<char>> {
        let first = "Codex Session Control "@ + self.version.text() + " is ready."@;
        let cli = if self.running.cli { CLI_ALREADY_RUNNING@ } else { CLI_START@ };
        with_optional(seq![first, cli], desktop_guidance_text(self.desktop, self.running.desktop, self.desktop_changed, false))
    }

    pub fn render(&self) -> (result: RenderedCli)
        ensures
            result.view() == rendered(compose_text(self.blocks()), compose_text(notices_text(self.notices@)), 0),
    {
        let mut first = String::from_str("Codex Session Control ");
        self.version.push_text(&mut first);
        first.append(" is ready.");
        let mut blocks: Vec<String> = Vec::new();
        push_block(&mut blocks, first);
        push_block(&mut blocks, if self.running.cli { String::from_str(CLI_ALREADY_RUNNING) } else { String::from_str(CLI_START) });
        push_optional(&mut blocks, desktop_guidance(self.desktop, self.running.desktop, self.desktop_changed, false));
        assert(strings_view(blocks@) =~= self.blocks());
        success(blocks, &self.notices)
    }
}

/// Whether an update installed a new release.
#[derive(Clone, Copy, Debug, PartialEq, Eq, Structural)]
pub enum UpdateState {
    Applied,
    AlreadyCurrent,
}

pub const SERVICE_REMAINS_DISABLED: &'static str = "The service remains disabled. Run `codex-session-control enable` when you want to use it.";
pub const START_NEW_TASK: &'static str = "Start a new task to use the updated plugin.";
pub const DESKTOP_RESTART_UPDATED: &'static str = "If Codex Desktop is already running, restart it to use the updated version of Codex Session Control.";

/// A completed update.
#[derive(Debug)]
pub struct UpdateSuccess {
    pub state: UpdateState,
    pub version: Version,
    pub service_enabled: bool,
    pub desktop_changed: bool,
    pub notices: Vec<UserNotice>,
}

impl UpdateSuccess {
    pub fn new(state: UpdateState, version: Version, service_enabled: bool, desktop_changed: bool, notices: Vec<UserNotice>) -> (success: Self)
        ensures
            success.state == state,
            success.version == version,
            success.service_enabled == service_enabled,
            success.desktop_changed == desktop_changed,
            success.notices == notices,
    {
        UpdateSuccess { state, version, service_enabled, desktop_changed, notices }
    }

    pub open spec fn blocks(&self) -> Seq<Seq<char>> {
        let first = match self.state {
            UpdateState::Applied => "Codex Session Control was updated to "@ + self.version.text() + "."@,
            UpdateState::AlreadyCurrent => "Codex Session Control "@ + self.version.text() + " is already up to date."@,
        };
        let service = if !self.service_enabled {
            Some(SERVICE_REMAINS_DISABLED@)
        } else if self.state == UpdateState::Applied {
            Some(START_NEW_TASK@)
        } else {
            None
        };
        let desktop = if self.desktop_changed { Some(DESKTOP_RESTART_UPDATED@) } else { None };
        with_optional(with_optional(seq![first], service), desktop)
    }

    pub fn render(&self) -> (result: RenderedCli)
        ensures
            result.view() == rendered(compose_text(self.blocks()), compose_text(notices_text(self.notices@)), 0),
    {
        let first = match self.state {
            UpdateState::Applied => {
                let mut text = String::from_str("Codex Session Control was updated to ");
                self.version.push_text(&mut text);
                text.append(".");
                text
            },
            UpdateState::AlreadyCurrent => {
                let mut text = String::from_str("Codex Session Control ");
                self.version.push_text(&mut text);
                text.append(" is already up to date.");
                text
            },
        };
        let mut blocks: Vec<String> = Vec::new();
        push_block(&mut blocks, first);
        let service = if !self.service_enabled {
            Some(String::from_str(SERVICE_REMAINS_DISABLED))
        } else if self.state == UpdateState::Applied {
            Some(String::from_str(START_NEW_TASK))
        } else {
            None
        };
        push_optional(&mut blocks, service);
        let desktop = if self.desktop_changed { Some(String::from_str(DESKTOP_RESTART_UPDATED)) } else { None };
        push_optional(&mut blocks, desktop);
        assert(strings_view(blocks@) =~= self.blocks());
        success(blocks, &self.notices)
    }
}

pub const ENABLED: &'static str = "Codex Session Control is running and will start automatically.";

/// A completed enable.
#[derive(Debug)]
pub struct EnableSuccess {
    pub running: RunningClientFacts,
    pub desktop: DesktopAvailability,
    pub desktop_changed: bool,
    pub notices: Vec<UserNotice>,
}

impl EnableSuccess {
    /// An enable report; none where the Desktop integration changed but is unavailable,
    /// unverified or needs setup.
    pub fn new(running: RunningClientFacts, desktop: DesktopAvailability, desktop_changed: bool, notices: Vec<UserNotice>) -> (success: Option<Self>)
        ensures
            match success {
                Some(s) => !(desktop_changed && desktop != DesktopAvailability::Available)
                    && s.running == running && s.desktop == desktop
                    && s.desktop_changed == desktop_changed && s.notices == notices,
                None => desktop_changed && desktop != DesktopAvailability::Available,
            },
    {
        if desktop_changed && (desktop == DesktopAvailability::Unavailable || desktop == DesktopAvailability::CouldNotVerify
            || desktop == DesktopAvailability::SetupRequired) {
            return None;
        }
        Some(EnableSuccess { running, desktop, desktop_changed, notices })
    }

    pub open spec fn blocks(&self) -> Seq<Seq<char>> {
        let cli = if self.running.cli { Some(CLI_ALREADY_RUNNING@) } else { None };
        with_optional(with_optional(seq![ENABLED@], cli), desktop_guidance_text(self.desktop, self.running.desktop, self.desktop_changed, true))
    }

    pub fn render(&self) -> (result: RenderedCli)
        ensures
            result.view() == rendered(compose_text(self.blocks()), compose_text(notices_text(self.notices@)), 0),
    {
        let mut blocks: Vec<String> = Vec::new();
        push_block(&mut blocks, String::from_str(ENABLED));
        let cli = if self.running.cli { Some(String::from_str(CLI_ALREADY_RUNNING)) } else { None };
        push_optional(&mut blocks, cli);
        push_optional(&mut blocks, desktop_guidance(self.desktop, self.running.desktop, self.desktop_changed, true));
        assert(strings_view(blocks@) =~= self.blocks());
        success(blocks, &self.notices)
    }
}

pub const DATA_UNCHANGED: &'static str = "Your Codex data is unchanged.";
pub const DESKTOP_RESTART_WITHOUT: &'static str = "\nIf Codex Desktop is already running, restart it to continue without Codex Session Control.";
pub const DISABLED: &'static str = "Codex Session Control is stopped and will not start automatically.";
pub const UNINSTALLED: &'static str = "Codex Session Control was uninstalled.";

/// The data block of a disable or uninstall report.
pub open spec fn data_text(desktop_removed: bool) -> Seq<char> {
    if desktop_removed { DATA_UNCHANGED@ + DESKTOP_RESTART_WITHOUT@ } else { DATA_UNCHANGED@ }
}

fn data_block(desktop_removed: bool) -> (text: String)
    ensures
        text@ == data_text(desktop_removed),
{
    let mut data = String::from_str(DATA_UNCHANGED);
    if desktop_removed {
        data.append(DESKTOP_RESTART_WITHOUT);
    }
    data
}

/// A completed disable.
#[derive(Clone, Copy, Debug, PartialEq, Eq, Structural)]
pub struct DisableSuccess {
    pub desktop_removed: bool,
}

impl DisableSuccess {
    pub fn new(desktop_removed: bool) -> (success: Self)
        ensures
            success.desktop_removed == desktop_removed,
    {
        DisableSuccess { desktop_removed }
    }

    pub fn render(&self) -> (result: RenderedCli)
        ensures
            result.view() == rendered(compose_text(seq![DISABLED@, data_text(self.desktop_removed)]), Seq::empty(), 0),
    {
        let mut blocks: Vec<String> = Vec::new();
        push_block(&mut blocks, String::from_str(DISABLED));
        push_block(&mut blocks, data_block(self.desktop_removed));
        assert(strings_view(blocks@) =~= seq![DISABLED@, data_text(self.desktop_removed)]);
        let notices: Vec<UserNotice> = Vec::new();
        assert(notices_text(notices@) =~= Seq::<Seq<char>>::empty());
        success(blocks, &notices)
    }
}

/// A completed uninstall.
#[derive(Clone, Copy, Debug, PartialEq, Eq, Structural)]
pub struct UninstallSuccess {
    pub desktop_removed: bool,
}

impl UninstallSuccess {
    pub fn new(desktop_removed: bool) -> (success: Self)
        ensures
            success.desktop_removed == desktop_removed,
    {
        UninstallSuccess { desktop_removed }
    }

    pub fn render(&self) -> (result: RenderedCli)
        ensures
            result.view() == rendered(compose_text(seq![UNINSTALLED@, data_text(self.desktop_removed)]), Seq::empty(), 0),
    {
        let mut blocks: Vec<String> = Vec::new();
        push_block(&mut blocks, String::from_str(UNINSTALLED));
        push_block(&mut blocks, data_block(self.desktop_removed));
        assert(strings_view(blocks@) =~= seq![UNINSTALLED@, data_text(self.desktop_removed)]);
        let notices: Vec<UserNotice> = Vec::new();
        assert(notices_text(notices@) =~= Seq::<Seq<char>>::empty());
        success(blocks, &notices)
    }
}

/// The problems of an unhealthy report and the advice that follows them; nothing where
/// there are no problems.
pub open spec fn problems_section_text(problems: Seq<StatusProblem>) -> Seq<char> {
    let advice = if forall|i: int| 0 <= i < problems.len() ==> is_log_problem(#[trigger] problems[i]) {
        "Check the service logs"@ + (if problems.len() > 1 { " for both problems"@ } else { Seq::empty() })
            + ":\n  journalctl --user -u codex-session-control.service\n"@
    } else {
        "Check what needs attention:\n  codex-session-control status\n"@
    };
    if problems.len() == 0 {
        Seq::empty()
    } else {
        "\nProblems:\n"@ + problem_lines(problems) + "\n"@ + advice
    }
}

fn problems_section(problems: &Vec<StatusProblem>) -> (output: String)
    ensures
        output@ == problems_section_text(problems@),
{
    let mut output = String::new();
    let n = problems.len();
    if n == 0 {
        return output;
    }
    output.append("\nProblems:\n");
    let mut i: usize = 0;
    let mut all_logs = true;
    let ghost start = output@;
    assert(problems@.take(0) =~= Seq::<StatusProblem>::empty());
    while i < n
        invariant
            n == problems@.len(),
            0 <= i <= n,
            output@ == start + problem_lines(problems@.take(i as int)),
            all_logs == (forall|j: int| 0 <= j < i ==> is_log_problem(#[trigger] problems@[j])),
        decreases n - i,
    {
        assert(problems@.take(i + 1).drop_last() =~= problems@.take(i as int));
        output.append("- ");
        output.append(status_problem(problems[i]));
        output.append("\n");
        all_logs = all_logs && is_service_log_problem(&problems[i]);
        i = i + 1;
    }
    assert(problems@.take(n as int) =~= problems@);
    output.append("\n");
    if all_logs {
        output.append("Check the service logs");
        if n > 1 {
            output.append(" for both problems");
        }
        output.append(":\n  journalctl --user -u codex-session-control.service\n");
    } else {
        output.append("Check what needs attention:\n  codex-session-control status\n");
    }
    output
}

/// The overall state that `status` reports.
#[derive(Clone, Copy, Debug, PartialEq, Eq, Structural)]
pub enum StatusState {
    Healthy,
    Disabled,
    NotInstalled,
    Unhealthy,
}

/// The state of one client integration.
#[derive(Clone, Copy, Debug, PartialEq, Eq, Structural)]
pub enum IntegrationState {
    Ready,
    Unavailable,
    Unhealthy,
    CouldNotVerify,
}

/// What is known of the service.
#[derive(Clone, Copy, Debug, PartialEq, Eq, Structural)]
pub enum ServiceSummary {
    RunningAutomatic,
    StoppedAutomaticOff,
    StoppedUnexpectedAutomaticOn,
    CouldNotVerify,
}

/// A problem that an unhealthy status lists.
#[derive(Clone, Copy, Debug, PartialEq, Eq, Structural)]
pub enum StatusProblem {
    InvocationContextCouldNotBeVerified,
    InstalledStateCouldNotBeVerified,
    NativeRegistrationFault,
    NativeRegistrationCouldNotBeVerified,
    ProjectionFault,
    ProjectionCouldNotBeVerified,
    ServiceEnablementCouldNotBeVerified,
    ServiceConfiguredButStopped,
    ServiceActivityCouldNotBeVerified,
    SocketMissing,
    SocketUnsafe,
    AppServerUnavailable,
    AppServerCouldNotBeVerified,
    DesktopDescriptorFault,
    DesktopCouldNotBeVerified,
}

pub open spec fn service_summary_text(summary: ServiceSummary) -> Seq<char> {
    match summary {
        ServiceSummary::RunningAutomatic => "running, starts automatically"@,
        ServiceSummary::StoppedAutomaticOff => "stopped, automatic startup is off"@,
        ServiceSummary::StoppedUnexpectedAutomaticOn => "stopped unexpectedly, automatic startup is on"@,
        ServiceSummary::CouldNotVerify => "could not verify"@,
    }
}

pub fn service_summary(summary: ServiceSummary) -> (text: &'static str)
    ensures
        text@ == service_summary_text(summary),
{
    match summary {
        ServiceSummary::RunningAutomatic => "running, starts automatically",
        ServiceSummary::StoppedAutomaticOff => "stopped, automatic startup is off",
        ServiceSummary::StoppedUnexpectedAutomaticOn => "stopped unexpectedly, automatic startup is on",
        ServiceSummary::CouldNotVerify => "could not verify",
    }
}

pub open spec fn integration_text(state: IntegrationState) -> Seq<char> {
    match state {
        IntegrationState::Ready => "ready"@,
        IntegrationState::Unavailable => "unavailable"@,
        IntegrationState::Unhealthy => "unhealthy"@,
        IntegrationState::CouldNotVerify => "could not verify"@,
    }
}

pub fn integration_state(state: IntegrationState) -> (text: &'static str)
    ensures
        text@ == integration_text(state),
{
    match state {
        IntegrationState::Ready => "ready",
        IntegrationState::Unavailable => "unavailable",
        IntegrationState::Unhealthy => "unhealthy",
        IntegrationState::CouldNotVerify => "could not verify",
    }
}

pub open spec fn problem_text(problem: StatusProblem) -> Seq<char> {
    match problem {
        StatusProblem::InvocationContextCouldNotBeVerified => "The invocation context could not be verified."@,
        StatusProblem::InstalledStateCouldNotBeVerified => "The installed Codex Session Control state could not be verified."@,
        StatusProblem::NativeRegistrationFault => "Codex CLI native registration is incorrect."@,
        StatusProblem::NativeRegistrationCouldNotBeVerified => "Codex CLI native registration could not be verified."@,
        StatusProblem::ProjectionFault => "Codex CLI integration files are incorrect."@,
        StatusProblem::ProjectionCouldNotBeVerified => "Codex CLI integration files could not be verified."@,
        StatusProblem::ServiceEnablementCouldNotBeVerified => "Automatic service startup could not be verified."@,
        StatusProblem::ServiceConfiguredButStopped => "The service is configured to run but is stopped."@,
        StatusProblem::ServiceActivityCouldNotBeVerified => "The service state could not be verified."@,
        StatusProblem::SocketMissing => "The service connection is unavailable."@,
        StatusProblem::SocketUnsafe => "The service connection is unsafe."@,
        StatusProblem::AppServerUnavailable => "The app-server is unavailable."@,
        StatusProblem::AppServerCouldNotBeVerified => "The app-server could not be verified."@,
        StatusProblem::DesktopDescriptorFault => "Codex Desktop integration is incorrectly configured."@,
        StatusProblem::DesktopCouldNotBeVerified => "Codex Desktop integration could not be verified."@,
    }
}

pub fn status_problem(problem: StatusProblem) -> (text: &'static str)
    ensures
        text@ == problem_text(problem),
{
    match problem {
        StatusProblem::InvocationContextCouldNotBeVerified => "The invocation context could not be verified.",
        StatusProblem::InstalledStateCouldNotBeVerified => "The installed Codex Session Control state could not be verified.",
        StatusProblem::NativeRegistrationFault => "Codex CLI native registration is incorrect.",
        StatusProblem::NativeRegistrationCouldNotBeVerified => "Codex CLI native registration could not be verified.",
        StatusProblem::ProjectionFault => "Codex CLI integration files are incorrect.",
        StatusProblem::ProjectionCouldNotBeVerified => "Codex CLI integration files could not be verified.",
        StatusProblem::ServiceEnablementCouldNotBeVerified => "Automatic service startup could not be verified.",
        StatusProblem::ServiceConfiguredButStopped => "The service is configured to run but is stopped.",
        StatusProblem::ServiceActivityCouldNotBeVerified => "The service state could not be verified.",
        StatusProblem::SocketMissing => "The service connection is unavailable.",
        StatusProblem::SocketUnsafe => "The service connection is unsafe.",
        StatusProblem::AppServerUnavailable => "The app-server is unavailable.",
        StatusProblem::AppServerCouldNotBeVerified => "The app-server could not be verified.",
        StatusProblem::DesktopDescriptorFault => "Codex Desktop integration is incorrectly configured.",
        StatusProblem::DesktopCouldNotBeVerified => "Codex Desktop integration could not be verified.",
    }
}

/// The problems that the service logs explain.
pub open spec fn is_log_problem(problem: StatusProblem) -> bool {
    problem == StatusProblem::ServiceConfiguredButStopped || problem == StatusProblem::SocketMissing
        || problem == StatusProblem::AppServerUnavailable
}

pub fn is_service_log_problem(problem: &StatusProblem) -> (r: bool)
    ensures
        r == is_log_problem(*problem),
{
    *problem == StatusProblem::ServiceConfiguredButStopped || *problem == StatusProblem::SocketMissing
        || *problem == StatusProblem::AppServerUnavailable
}

/// One line per problem: `- ` and its text.
pub open spec fn problem_lines(problems: Seq<StatusProblem>) -> Seq<char>
    decreases problems.len(),
{
    if problems.len() == 0 {
        Seq::empty()
    } else {
        problem_lines(problems.drop_last()) + "- "@ + problem_text(problems.last()) + "\n"@
    }
}

pub const NOT_INSTALLED: &'static str = "Status: not installed\nCodex CLI integration: unavailable\nCodex Desktop integration: unavailable\n\nInstall Codex Session Control by running:\n  codex-session-control setup\n";

/// What `status` found.
#[derive(Debug)]
pub struct StatusResult {
    pub state: StatusState,
    pub version: Option<Version>,
    pub service: Option<ServiceSummary>,
    pub cli: IntegrationState,
    pub desktop: IntegrationState,
    pub problems: Vec<StatusProblem>,
}

impl StatusResult {
    pub fn new(state: StatusState, version: Option<Version>, service: Option<ServiceSummary>, cli: IntegrationState, desktop: IntegrationState, problems: Vec<StatusProblem>) -> (status: Self)
        ensures
            status.state == state,
            status.version == version,
            status.service == service,
            status.cli == cli,
            status.desktop == desktop,
            status.problems == problems,
    {
        StatusResult { state, version, service, cli, desktop, problems }
    }

    pub fn state(&self) -> (state: StatusState)
        ensures
            state == self.state,
    {
        self.state
    }

    /// A healthy status knows its version and service; a disabled one its version.
    pub open spec fn complete(&self) -> bool {
        &&& self.state == StatusState::Healthy ==> self.version is Some && self.service is Some
        &&& self.state == StatusState::Disabled ==> self.version is Some
    }

    /// The integration lines that every installed status reports.
    pub open spec fn integration_lines(&self) -> Seq<char> {
        "Codex CLI integration: "@ + integration_text(self.cli) + "\nCodex Desktop integration: "@
            + integration_text(self.desktop) + "\n"@
    }

    /// The first lines of an unhealthy report: the version and service where known, and
    /// the integrations.
    pub open spec fn unhealthy_header(&self) -> Seq<char> {
        let version = match self.version {
            Some(v) => "Version: "@ + v.text() + "\n"@,
            None => Seq::empty(),
        };
        let service = match self.service {
            Some(s) => "Service: "@ + service_summary_text(s) + "\n"@,
            None => Seq::empty(),
        };
        "Status: unhealthy\n"@ + version + service + self.integration_lines()
    }

    /// The report of an unhealthy status.
    pub open spec fn unhealthy_text(&self) -> Seq<char> {
        self.unhealthy_header() + problems_section_text(self.problems@)
    }

    /// The report of the status and its exit status.
    pub open spec fn report(&self) -> (Seq<char>, u8) {
        match self.state {
            StatusState::Healthy => (
                "Status: healthy\nVersion: "@ + self.version->0.text() + "\nService: "@
                    + service_summary_text(self.service->0) + "\n"@ + self.integration_lines(),
                0,
            ),
            StatusState::Disabled => (
                "Status: disabled\nVersion: "@ + self.version->0.text()
                    + "\nService: stopped, automatic startup is off\nCodex CLI integration: unavailable\nCodex Desktop integration: unavailable\n\nRun `codex-session-control enable` to start Codex Session Control.\n"@,
                0,
            ),
            StatusState::NotInstalled => (NOT_INSTALLED@, 1),
            StatusState::Unhealthy => (self.unhealthy_text(), 1),
        }
    }

    fn push_integration_lines(&self, output: &mut String)
        ensures
            final(output)@ == old(output)@ + self.integration_lines(),
    {
        output.append("Codex CLI integration: ");
        output.append(integration_state(self.cli));
        output.append("\nCodex Desktop integration: ");
        output.append(integration_state(self.desktop));
        output.append("\n");
    }

    fn render_unhealthy(&self) -> (output: String)
        ensures
            output@ == self.unhealthy_text(),
    {
        let mut output = String::from_str("Status: unhealthy\n");
        if let Some(version) = &self.version {
            output.append("Version: ");
            version.push_text(&mut output);
            output.append("\n");
        }
        if let Some(service) = self.service {
            output.append("Service: ");
            output.append(service_summary(service));
            output.append("\n");
        }
        self.push_integration_lines(&mut output);
        let section = problems_section(&self.problems);
        output.append(section.as_str());
        output
    }

    /// Prints the report on stdout; healthy and disabled exit with 0, the rest with 1.
    pub fn render(&self) -> (result: RenderedCli)
        requires
            self.complete(),
        ensures
            result.view() == rendered(self.report().0, Seq::empty(), self.report().1),
    {
        match self.state {
            StatusState::Healthy => {
                let mut output = String::from_str("Status: healthy\nVersion: ");
                match &self.version {
                    Some(version) => version.push_text(&mut output),
                    None => {},
                }
                output.append("\nService: ");
                match self.service {
                    Some(service) => output.append(service_summary(service)),
                    None => {},
                }
                output.append("\n");
                self.push_integration_lines(&mut output);
                status_rendered(output, 0)
            },
            StatusState::Disabled => {
                let mut output = String::from_str("Status: disabled\nVersion: ");
                match &self.version {
                    Some(version) => version.push_text(&mut output),
                    None => {},
                }
                output.append("\nService: stopped, automatic startup is off\nCodex CLI integration: unavailable\nCodex Desktop integration: unavailable\n\nRun `codex-session-control enable` to start Codex Session Control.\n");
                status_rendered(output, 0)
            },
            StatusState::NotInstalled => status_rendered(String::from_str(NOT_INSTALLED), 1),
            StatusState::Unhealthy => status_rendered(self.render_unhealthy(), 1),
        }
    }
}

/// Every way a command can succeed.
#[derive(Debug)]
pub enum UserSuccess {
    Setup(SetupSuccess),
    Update(UpdateSuccess),
    Enable(EnableSuccess),
    Disable(DisableSuccess),
    Uninstall(UninstallSuccess),
    Status(StatusResult),
}

impl UserSuccess {
    /// What the success prints and its exit status.
    pub open spec fn report(&self) -> RenderedView {
        match self {
            UserSuccess::Setup(s) => rendered(compose_text(s.blocks()), compose_text(notices_text(s.notices@)), 0),
            UserSuccess::Update(s) => rendered(compose_text(s.blocks()), compose_text(notices_text(s.notices@)), 0),
            UserSuccess::Enable(s) => rendered(compose_text(s.blocks()), compose_text(notices_text(s.notices@)), 0),
            UserSuccess::Disable(s) => rendered(compose_text(seq![DISABLED@, data_text(s.desktop_removed)]), Seq::empty(), 0),
            UserSuccess::Uninstall(s) => rendered(compose_text(seq![UNINSTALLED@, data_text(s.desktop_removed)]), Seq::empty(), 0),
            UserSuccess::Status(s) => rendered(s.report().0, Seq::empty(), s.report().1),
        }
    }

    pub open spec fn complete(&self) -> bool {
        match self {
            UserSuccess::Status(s) => s.complete(),
            _ => true,
        }
    }

    pub fn render(&self) -> (result: RenderedCli)
        requires
            self.complete(),
        ensures
            result.view() == self.report(),
    {
        match self {
            UserSuccess::Setup(s) => s.render(),
            UserSuccess::Update(s) => s.render(),
            UserSuccess::Enable(s) => s.render(),
            UserSuccess::Disable(s) => s.render(),
            UserSuccess::Uninstall(s) => s.render(),
            UserSuccess::Status(s) => s.render(),
        }
    }
}

/// The text ends with a line feed.
pub open spec fn ends_with_newline(text: Seq<char>) -> bool {
    text.len() > 0 && text.last() == '\n'
}

proof fn lemma_recoveries_end_with_newline()
    ensures
        ends_with_newline(SETUP_RETRY@),
        ends_with_newline(UPDATE_RETRY@),
        ends_with_newline(ENABLE_RETRY@),
        ends_with_newline(DISABLE_RETRY@),
        ends_with_newline(UNINSTALL_RETRY@),
        ends_with_newline(STATUS@),
        ends_with_newline(LOGS@),
        ends_with_newline(REPAIR_SETUP@),
{
    reveal_strlit("Try again:\n  codex-session-control setup\n");
    reveal_strlit("Try again:\n  codex-session-control update\n");
    reveal_strlit("Try again:\n  codex-session-control enable\n");
    reveal_strlit("Try again:\n  codex-session-control disable\n");
    reveal_strlit("Try again:\n  codex-session-control uninstall\n");
    reveal_strlit("Check what needs attention:\n  codex-session-control status\n");
    reveal_strlit("Check the service logs:\n  journalctl --user -u codex-session-control.service\n");
    reveal_strlit("Repair Codex Session Control:\n  codex-session-control setup\n");
}

proof fn lemma_ends_with(a: Seq<char>, b: Seq<char>)
    requires
        ends_with_newline(b),
    ensures
        ends_with_newline(a + b),
{
    assert((a + b).last() == b.last());
}

proof fn lemma_line_feed()
    ensures
        ends_with_newline("\n"@),
{
    reveal_strlit("\n");
}

proof fn lemma_ordinary_ends_with_newline(failure: OrdinaryFailure)
    ensures
        ends_with_newline(ordinary_text(failure)),
{
    lemma_recoveries_end_with_newline();
    let (h, p, r) = ordinary_parts(failure);
    match failure {
        OrdinaryFailure::SetupInstalledStateRepair { binary } => {
            reveal_strlit(" setup\n");
            lemma_ends_with("Repair Codex Session Control:\n  "@ + binary@, " setup\n"@);
        },
        _ => {},
    }
    lemma_ends_with(h + "\n\n"@ + p + "\n\n"@, r);
}

/// The headline of an ordinary failure, by the command that its name begins with: setup
/// could not install, update could not update, enable could not start, disable could not
/// stop, uninstall could not uninstall.
pub open spec fn command_headline(failure: OrdinaryFailure) -> Seq<char> {
    match failure {
        OrdinaryFailure::SetupUnsafeTerminalRetry
        | OrdinaryFailure::SetupUnexpectedRetry
        | OrdinaryFailure::SetupInstalledStateCheckStatus
        | OrdinaryFailure::SetupInstallationFilesRetryUpdate
        | OrdinaryFailure::SetupCliIntegrationRetry
        | OrdinaryFailure::SetupCliIntegrationCheckStatus
        | OrdinaryFailure::SetupInstallationFilesRetry
        | OrdinaryFailure::SetupServiceConfigurationRetry
        | OrdinaryFailure::SetupDesktopIntegrationRetry
        | OrdinaryFailure::SetupDesktopIntegrationCheckStatus
        | OrdinaryFailure::SetupServiceStartRetry
        | OrdinaryFailure::SetupServiceStateRetryUpdate
        | OrdinaryFailure::SetupInstalledStateRepair { .. } => SETUP@,
        OrdinaryFailure::UpdateUnexpectedRetry
        | OrdinaryFailure::UpdateInstalledStateCheckStatus
        | OrdinaryFailure::UpdateReleaseRetry
        | OrdinaryFailure::UpdateChecksumRetry
        | OrdinaryFailure::UpdateCliIntegrationRetry
        | OrdinaryFailure::UpdateCliIntegrationCheckStatus
        | OrdinaryFailure::UpdateServiceConfigurationRetry
        | OrdinaryFailure::UpdateServiceStateCheckStatus
        | OrdinaryFailure::UpdateActiveTasksRetry
        | OrdinaryFailure::UpdateInstallationFilesRetry
        | OrdinaryFailure::UpdateDesktopIntegrationRetry
        | OrdinaryFailure::UpdateDesktopIntegrationCheckStatus
        | OrdinaryFailure::UpdateServiceConfigurationLogs
        | OrdinaryFailure::UpdateServiceStartLogs
        | OrdinaryFailure::UpdateServiceStateLogs
        | OrdinaryFailure::UpdateInstalledStatePostMutationCheckStatus => UPDATE@,
        OrdinaryFailure::EnableUnexpectedRetry
        | OrdinaryFailure::EnableInstalledStateRepairSetup
        | OrdinaryFailure::EnableServiceConfigurationRepairSetup
        | OrdinaryFailure::EnableDesktopIntegrationCheckStatus
        | OrdinaryFailure::EnableDesktopIntegrationRetry
        | OrdinaryFailure::EnableServiceStartRetry
        | OrdinaryFailure::EnableServiceStateRetry
        | OrdinaryFailure::EnableUnexpectedCheckStatus => ENABLE@,
        OrdinaryFailure::DisableUnexpectedRetry
        | OrdinaryFailure::DisableServiceStopRetry
        | OrdinaryFailure::DisableUnexpectedCheckStatus => DISABLE@,
        OrdinaryFailure::UninstallUnexpectedRetry
        | OrdinaryFailure::UninstallServiceStopRetry => UNINSTALL@,
    }
}

/// Every ordinary failure is its command's headline, a blank line, the problem, a blank line
/// and the recovery; the recovery, and so the whole text, ends with a line feed.
pub proof fn ordinary_failure_shape(failure: OrdinaryFailure)
    ensures
        ordinary_text(failure) == failure_block_text(
            command_headline(failure),
            ordinary_parts(failure).1,
            ordinary_parts(failure).2,
        ),
        ends_with_newline(ordinary_parts(failure).2),
        ends_with_newline(ordinary_text(failure)),
{
    lemma_recoveries_end_with_newline();
    lemma_ordinary_ends_with_newline(failure);
    match failure {
        OrdinaryFailure::SetupInstalledStateRepair { binary } => {
            reveal_strlit(" setup\n");
            lemma_ends_with("Repair Codex Session Control:\n  "@ + binary@, " setup\n"@);
        },
        _ => {},
    }
}

proof fn lemma_paths_end_with_newline(paths: Seq<Seq<char>>)
    requires
        paths.len() > 0,
    ensures
        ends_with_newline(paths_text(paths)),
{
    lemma_line_feed();
    lemma_ends_with(paths_text(paths.drop_last()) + "  "@ + paths.last(), "\n"@);
}

/// Every failure that a command reports has a text that is not empty and ends with a line
/// feed (`ends_with_newline`); with `UserFailure::render` (nothing on stdout, exit status 1,
/// this text on stderr) this is the whole shape of a failure report.
pub proof fn failure_text_ends_with_newline(failure: UserFailure)
    ensures
        ends_with_newline(failure.text()),
{
    lemma_line_feed();
    lemma_recoveries_end_with_newline();
    match failure {
        UserFailure::Ordinary(f) => {
            lemma_ordinary_ends_with_newline(f);
        },
        UserFailure::RollbackIncomplete(f) => {
            lemma_paths_end_with_newline(f.paths.all());
            lemma_ends_with(rollback_primary_text(f.primary) + "\nCleanup could not be completed safely.\n\nInspect these managed paths:\n"@, paths_text(f.paths.all()));
        },
        UserFailure::StopThenRetry(f) => {
            reveal_strlit("  systemctl --user stop codex-session-control.service\n  codex-session-control enable\n");
            reveal_strlit("  systemctl --user stop codex-session-control.service\n  codex-session-control disable\n");
            reveal_strlit("  systemctl --user stop codex-session-control.service\n  codex-session-control uninstall\n");
            reveal_strlit("  codex-session-control disable\n  codex-session-control update\n  codex-session-control enable\n");
            let (h, p, c) = stop_then_retry_parts(f);
            lemma_ends_with("From an independent terminal, stop the service and try again:\n"@, c);
            lemma_ends_with(h + "\n\n"@ + p + "\n\n"@, "From an independent terminal, stop the service and try again:\n"@ + c);
        },
        UserFailure::ManualCleanup(f) => {
            let executable = match f.codex_executable {
                Some(path) => shell_quoted(path@),
                None => "codex"@,
            };
            let arguments = match f.command {
                NativeCleanupCommand::RemovePlugin => REMOVE_PLUGIN_ARGUMENTS@,
                NativeCleanupCommand::RemoveMarketplace => REMOVE_MARKETPLACE_ARGUMENTS@,
            };
            let recovery = "Complete Codex CLI cleanup manually:\n  CODEX_HOME="@ + shell_quoted(f.codex_home@) + " "@
                + executable + " "@ + arguments + "\n"@;
            lemma_ends_with("Complete Codex CLI cleanup manually:\n  CODEX_HOME="@ + shell_quoted(f.codex_home@) + " "@
                + executable + " "@ + arguments, "\n"@);
            lemma_ends_with(UNINSTALL@ + "\n\n"@ + CLI_INTEGRATION@ + "\n\n"@, recovery);
        },
        UserFailure::VerifiedRelease(f) => {
            let recovery = "Recover the existing installation with the verified release:\n  Release: "@ + f.release_url@
                + "\n  Checksums: "@ + f.checksums_url@ + "\n"@;
            lemma_ends_with("Recover the existing installation with the verified release:\n  Release: "@ + f.release_url@
                + "\n  Checksums: "@ + f.checksums_url@, "\n"@);
            lemma_ends_with(SETUP@ + "\n\n"@ + INSTALLED_STATE@ + "\n\n"@, recovery);
        },
        UserFailure::IndependentTerminal(f) => {
            let recovery = "Run the command from an independent terminal:\n  "@ + f.parts().1 + "\n"@;
            lemma_ends_with("Run the command from an independent terminal:\n  "@ + f.parts().1, "\n"@);
            lemma_ends_with(f.parts().0 + "\n\n"@ + UNSAFE_TERMINAL@ + "\n\n"@, recovery);
        },
        UserFailure::InteractiveTerminal => {
            reveal_strlit("Run the update from an interactive terminal:\n  codex-session-control update\n");
            lemma_ends_with(UPDATE@ + "\n\n"@ + UNSAFE_TERMINAL@ + "\n\n"@, INTERACTIVE_RECOVERY@);
        },
        UserFailure::PartialDisable(f) => {
            match f.managed_path {
                Some(path) => {
                    lemma_ends_with(PARTIAL_DISABLE@ + "\nManaged paths requiring attention:\n  "@ + path@, "\n"@);
                },
                None => {
                    reveal_strlit("Codex Session Control is stopped and will not start automatically.\n\nCodex Desktop integration could not be removed safely.\nYour Codex data is unchanged.\n\nComplete the remaining cleanup:\n  codex-session-control disable\n");
                },
            }
        },
        UserFailure::TerminalPartialUninstall(f) => {
            reveal_strlit("\nDo not rerun `codex-session-control uninstall`; the installed identity has already been removed.\n");
            lemma_ends_with(
                "Codex Session Control was only partially uninstalled.\n\nCleanup could not be completed safely.\n\nInspect these remaining managed paths:\n"@
                    + paths_text(f.remaining.all()),
                "\nDo not rerun `codex-session-control uninstall`; the installed identity has already been removed.\n"@,
            );
        },
        UserFailure::UpdateCompletionUnknown => {
            reveal_strlit("Codex Session Control could not confirm that the update completed.\n\nThe installed Codex Session Control state could not be verified.\n\nCheck what needs attention:\n  codex-session-control status\n");
        },
        UserFailure::Cancellation => {
            reveal_strlit("Codex Session Control was not updated.\n\nThe update was canceled before installation files changed.\n");
        },
        UserFailure::WrapperUnavailable => {
            reveal_strlit("Codex CLI could not start because Codex Session Control is unavailable.\n\nCheck what needs attention:\n  codex-session-control status\n");
        },
    }
}

/// `status` exits with 0 when Codex Session Control is healthy or disabled, and with 1 when
/// it is not installed or unhealthy.
pub proof fn status_exit_matrix(status: StatusResult)
    ensures
        status.report().1 == (if status.state == StatusState::Healthy || status.state == StatusState::Disabled { 0u8 } else { 1u8 }),
{
}

/// A composed block list ends with a line feed unless it is empty.
pub proof fn composed_text_ends_with_newline(blocks: Seq<Seq<char>>)
    requires
        blocks.len() > 0,
    ensures
        ends_with_newline(compose_text(blocks)),
{
    lemma_line_feed();
    lemma_ends_with(join_blocks(blocks), "\n"@);
}

/// Every success exits with status 0 and prints a stdout text that ends with a line feed;
/// `status` exits with 0 or 1 by its state, and its report ends with a line feed too.
pub proof fn success_report_shape(success: UserSuccess)
    requires
        success.complete(),
    ensures
        ends_with_newline(success.report().stdout),
        !(success is Status) ==> success.report().exit_code == 0,
{
    lemma_line_feed();
    match success {
        UserSuccess::Setup(s) => {
            composed_text_ends_with_newline(s.blocks());
        },
        UserSuccess::Update(s) => {
            composed_text_ends_with_newline(s.blocks());
        },
        UserSuccess::Enable(s) => {
            composed_text_ends_with_newline(s.blocks());
        },
        UserSuccess::Disable(s) => {
            composed_text_ends_with_newline(seq![DISABLED@, data_text(s.desktop_removed)]);
        },
        UserSuccess::Uninstall(s) => {
            composed_text_ends_with_newline(seq![UNINSTALLED@, data_text(s.desktop_removed)]);
        },
        UserSuccess::Status(s) => {
            status_report_ends_with_newline(s);
        },
    }
}

proof fn status_report_ends_with_newline(status: StatusResult)
    ensures
        ends_with_newline(status.report().0),
{
    lemma_line_feed();
    let lines = status.integration_lines();
    lemma_ends_with("Codex CLI integration: "@ + integration_text(status.cli) + "\nCodex Desktop integration: "@
        + integration_text(status.desktop), "\n"@);
    match status.state {
        StatusState::Healthy => {
            lemma_ends_with("Status: healthy\nVersion: "@ + status.version->0.text() + "\nService: "@
                + service_summary_text(status.service->0) + "\n"@, lines);
        },
        StatusState::Disabled => {
            reveal_strlit("\nService: stopped, automatic startup is off\nCodex CLI integration: unavailable\nCodex Desktop integration: unavailable\n\nRun `codex-session-control enable` to start Codex Session Control.\n");
            lemma_ends_with("Status: disabled\nVersion: "@ + status.version->0.text(),
                "\nService: stopped, automatic startup is off\nCodex CLI integration: unavailable\nCodex Desktop integration: unavailable\n\nRun `codex-session-control enable` to start Codex Session Control.\n"@);
        },
        StatusState::NotInstalled => {
            reveal_strlit("Status: not installed\nCodex CLI integration: unavailable\nCodex Desktop integration: unavailable\n\nInstall Codex Session Control by running:\n  codex-session-control setup\n");
        },
        StatusState::Unhealthy => {
            let problems = status.problems@;
            let header = status.unhealthy_header();
            let version = match status.version {
                Some(v) => "Version: "@ + v.text() + "\n"@,
                None => Seq::empty(),
            };
            let service = match status.service {
                Some(s) => "Service: "@ + service_summary_text(s) + "\n"@,
                None => Seq::empty(),
            };
            lemma_ends_with("Status: unhealthy\n"@ + version + service, lines);
            if problems.len() == 0 {
                assert(problems_section_text(problems) =~= Seq::<char>::empty());
                assert(status.unhealthy_text() =~= header);
            } else {
                reveal_strlit(":\n  journalctl --user -u codex-session-control.service\n");
                reveal_strlit("Check what needs attention:\n  codex-session-control status\n");
                let logs = forall|i: int| 0 <= i < problems.len() ==> is_log_problem(#[trigger] problems[i]);
                let qualifier = if problems.len() > 1 { " for both problems"@ } else { Seq::<char>::empty() };
                if logs {
                    lemma_ends_with("Check the service logs"@ + qualifier, ":\n  journalctl --user -u codex-session-control.service\n"@);
                }
                let advice = if logs {
                    "Check the service logs"@ + qualifier + ":\n  journalctl --user -u codex-session-control.service\n"@
                } else {
                    "Check what needs attention:\n  codex-session-control status\n"@
                };
                lemma_ends_with("\nProblems:\n"@ + problem_lines(problems) + "\n"@, advice);
                lemma_ends_with(header, problems_section_text(problems));
            }
        },
    }
}

} // verus!
