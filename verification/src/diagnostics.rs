//! Verbose progress lines: which command and phase they belong to, and where they go.
use vstd::prelude::*;

use crate::version::Version;

verus! {

/// The command whose progress is reported.
#[derive(Clone, Copy, Debug, PartialEq, Eq, Structural)]
pub enum DiagnosticCommand {
    Setup,
    Update,
    Status,
    Enable,
    Disable,
    Uninstall,
    Codex,
}

/// The phase of an update.
#[derive(Clone, Copy, Debug, PartialEq, Eq, Structural)]
pub enum UpdatePhase {
    Outer,
    Apply,
}

/// Why a service check failed.
#[derive(Clone, Copy, Debug, PartialEq, Eq, Structural)]
pub enum DiagnosticCause {
    Unexpected,
    Validation,
    ReleaseDownload,
    Checksum,
    ServiceConfiguration,
    ServiceStart,
    ServiceStop,
    ServiceState,
    CliIntegration,
    DesktopIntegration,
    ActiveTasks,
    Cleanup,
}

impl DiagnosticCause {
    pub open spec fn label_text(self) -> Seq<char> {
        match self {
            DiagnosticCause::Unexpected => "unexpected"@,
            DiagnosticCause::Validation => "validation"@,
            DiagnosticCause::ReleaseDownload => "release-download"@,
            DiagnosticCause::Checksum => "checksum"@,
            DiagnosticCause::ServiceConfiguration => "service-configuration"@,
            DiagnosticCause::ServiceStart => "service-start"@,
            DiagnosticCause::ServiceStop => "service-stop"@,
            DiagnosticCause::ServiceState => "service-state"@,
            DiagnosticCause::CliIntegration => "cli-integration"@,
            DiagnosticCause::DesktopIntegration => "desktop-integration"@,
            DiagnosticCause::ActiveTasks => "active-tasks"@,
            DiagnosticCause::Cleanup => "cleanup"@,
        }
    }

    pub fn label(self) -> (label: &'static str)
        ensures
            label@ == self.label_text(),
    {
        match self {
            DiagnosticCause::Unexpected => "unexpected",
            DiagnosticCause::Validation => "validation",
            DiagnosticCause::ReleaseDownload => "release-download",
            DiagnosticCause::Checksum => "checksum",
            DiagnosticCause::ServiceConfiguration => "service-configuration",
            DiagnosticCause::ServiceStart => "service-start",
            DiagnosticCause::ServiceStop => "service-stop",
            DiagnosticCause::ServiceState => "service-state",
            DiagnosticCause::CliIntegration => "cli-integration",
            DiagnosticCause::DesktopIntegration => "desktop-integration",
            DiagnosticCause::ActiveTasks => "active-tasks",
            DiagnosticCause::Cleanup => "cleanup",
        }
    }
}

/// A progress event.
#[derive(Debug)]
pub enum DiagnosticEvent {
    CandidateVerified { version: Version },
    StartingStagedCandidate,
    StagedMarkerAccepted,
    SelectedCodexHome { codex_home: String },
    CompletedPreflight,
    CompletedBinary,
    CompletedManifest,
    FailedServiceVerify { cause: DiagnosticCause },
}

/// Where progress lines go.
#[derive(Debug)]
pub enum DiagnosticSink {
    /// Nowhere: verbose output is off, or a write failed.
    Off,
    /// To stderr.
    Stderr,
    /// Into a list of lines.
    Record(Vec<String>),
    /// Nowhere, and the first write fails.
    FailOnce,
}

/// The verbose progress reporter of one command.
#[derive(Debug)]
pub struct Diagnostics {
    pub command: DiagnosticCommand,
    pub phase: Option<UpdatePhase>,
    pub sink: DiagnosticSink,
}

pub open spec fn command_text(command: DiagnosticCommand) -> Seq<char> {
    match command {
        DiagnosticCommand::Setup => "setup"@,
        DiagnosticCommand::Update => "update"@,
        DiagnosticCommand::Status => "status"@,
        DiagnosticCommand::Enable => "enable"@,
        DiagnosticCommand::Disable => "disable"@,
        DiagnosticCommand::Uninstall => "uninstall"@,
        DiagnosticCommand::Codex => "codex"@,
    }
}

/// The phase suffix: only an update names its phase.
pub open spec fn phase_text(command: DiagnosticCommand, phase: Option<UpdatePhase>) -> Seq<char> {
    match (command, phase) {
        (DiagnosticCommand::Update, Some(UpdatePhase::Outer)) => "/outer"@,
        (DiagnosticCommand::Update, Some(UpdatePhase::Apply)) => "/apply"@,
        _ => Seq::empty(),
    }
}

pub open spec fn event_text(event: DiagnosticEvent) -> Seq<char> {
    match event {
        DiagnosticEvent::CandidateVerified { version } => "candidate "@ + version.text() + " verified"@,
        DiagnosticEvent::StartingStagedCandidate => "starting staged candidate"@,
        DiagnosticEvent::StagedMarkerAccepted => "staged marker accepted"@,
        DiagnosticEvent::SelectedCodexHome { codex_home } => "selected CODEX_HOME "@ + codex_home@,
        DiagnosticEvent::CompletedPreflight => "completed preflight"@,
        DiagnosticEvent::CompletedBinary => "completed binary"@,
        DiagnosticEvent::CompletedManifest => "completed manifest"@,
        DiagnosticEvent::FailedServiceVerify { cause } => "failed service-verify ("@ + cause.label_text() + ")"@,
    }
}

/// The line of an event: `[verbose] command/phase: detail`.
pub open spec fn line_text(command: DiagnosticCommand, phase: Option<UpdatePhase>, event: DiagnosticEvent) -> Seq<char> {
    "[verbose] "@ + command_text(command) + phase_text(command, phase) + ": "@ + event_text(event) + "\n"@
}

fn phase_name(command: DiagnosticCommand, phase: Option<UpdatePhase>) -> (name: &'static str)
    ensures
        name@ == phase_text(command, phase),
{
    proof {
        reveal_strlit("");
    }
    match command {
        DiagnosticCommand::Update => match phase {
            Some(UpdatePhase::Outer) => "/outer",
            Some(UpdatePhase::Apply) => "/apply",
            None => "",
        },
        _ => "",
    }
}

fn event_detail(event: DiagnosticEvent) -> (detail: String)
    ensures
        detail@ == event_text(event),
{
    match event {
        DiagnosticEvent::CandidateVerified { version } => {
            let mut detail = String::from_str("candidate ");
            version.push_text(&mut detail);
            detail.append(" verified");
            detail
        },
        DiagnosticEvent::StartingStagedCandidate => String::from_str("starting staged candidate"),
        DiagnosticEvent::StagedMarkerAccepted => String::from_str("staged marker accepted"),
        DiagnosticEvent::SelectedCodexHome { codex_home } => {
            let mut detail = String::from_str("selected CODEX_HOME ");
            detail.append(codex_home.as_str());
            detail
        },
        DiagnosticEvent::CompletedPreflight => String::from_str("completed preflight"),
        DiagnosticEvent::CompletedBinary => String::from_str("completed binary"),
        DiagnosticEvent::CompletedManifest => String::from_str("completed manifest"),
        DiagnosticEvent::FailedServiceVerify { cause } => {
            let mut detail = String::from_str("failed service-verify (");
            detail.append(cause.label());
            detail.append(")");
            detail
        },
    }
}

impl Diagnostics {
    pub fn new(verbose: bool, command: DiagnosticCommand) -> (diagnostics: Self)
        ensures
            diagnostics.command == command,
            diagnostics.phase is None,
            diagnostics.sink == (if verbose { DiagnosticSink::Stderr } else { DiagnosticSink::Off }),
    {
        Diagnostics { command, phase: None, sink: if verbose { DiagnosticSink::Stderr } else { DiagnosticSink::Off } }
    }

    /// A reporter that keeps its lines.
    pub fn record(command: DiagnosticCommand) -> (diagnostics: Self)
        ensures
            diagnostics.command == command,
            diagnostics.phase is None,
            diagnostics.sink matches DiagnosticSink::Record(lines) && lines@.len() == 0,
    {
        Diagnostics { command, phase: None, sink: DiagnosticSink::Record(Vec::new()) }
    }

    /// A reporter whose first write fails.
    pub fn fail_once(command: DiagnosticCommand) -> (diagnostics: Self)
        ensures
            diagnostics.command == command,
            diagnostics.phase is None,
            diagnostics.sink is FailOnce,
    {
        Diagnostics { command, phase: None, sink: DiagnosticSink::FailOnce }
    }

    pub fn set_phase(&mut self, phase: UpdatePhase)
        ensures
            final(self).command == old(self).command,
            final(self).phase == Some(phase),
            final(self).sink == old(self).sink,
    {
        self.phase = Some(phase);
    }

    fn command_name(&self) -> (name: &'static str)
        ensures
            name@ == command_text(self.command),
    {
        match self.command {
            DiagnosticCommand::Setup => "setup",
            DiagnosticCommand::Update => "update",
            DiagnosticCommand::Status => "status",
            DiagnosticCommand::Enable => "enable",
            DiagnosticCommand::Disable => "disable",
            DiagnosticCommand::Uninstall => "uninstall",
            DiagnosticCommand::Codex => "codex",
        }
    }

    pub fn render_event(&self, event: DiagnosticEvent) -> (line: String)
        ensures
            line@ == line_text(self.command, self.phase, event),
    {
        let phase = phase_name(self.command, self.phase);
        let detail = event_detail(event);
        let mut line = String::from_str("[verbose] ");
        line.append(self.command_name());
        line.append(phase);
        line.append(": ");
        line.append(detail.as_str());
        line.append("\n");
        assert(line@ =~= line_text(self.command, self.phase, event));
        line
    }

    /// Reports an event: the line to write to stderr where the sink is stderr. A recording
    /// sink keeps the line; a sink whose write fails is switched off.
    pub fn emit(&mut self, event: DiagnosticEvent) -> (to_write: Option<String>)
        ensures
            final(self).command == old(self).command,
            final(self).phase == old(self).phase,
            match old(self).sink {
                DiagnosticSink::Off => to_write is None && final(self).sink is Off,
                DiagnosticSink::Stderr => to_write matches Some(line) && line@ == line_text(old(self).command, old(self).phase, event)
                    && final(self).sink is Stderr,
                DiagnosticSink::Record(lines) => to_write is None && (final(self).sink matches DiagnosticSink::Record(now)
                    && now@.map_values(|l: String| l@) == lines@.map_values(|l: String| l@).push(line_text(old(self).command, old(self).phase, event))),
                DiagnosticSink::FailOnce => to_write is None && final(self).sink is Off,
            },
    {
        let line = self.render_event(event);
        let ghost text = line@;
        match &mut self.sink {
            DiagnosticSink::Off => None,
            DiagnosticSink::Stderr => Some(line),
            DiagnosticSink::Record(lines) => {
                let ghost before = lines@;
                lines.push(line);
                assert(lines@.map_values(|l: String| l@) =~= before.map_values(|l: String| l@).push(text));
                None
            },
            DiagnosticSink::FailOnce => {
                self.sink = DiagnosticSink::Off;
                None
            },
        }
    }

    /// A write to stderr failed: nothing more is written.
    pub fn write_failed(&mut self)
        ensures
            final(self).command == old(self).command,
            final(self).phase == old(self).phase,
            final(self).sink is Off,
    {
        self.sink = DiagnosticSink::Off;
    }

    /// Whether stderr must be flushed; a sink whose flush fails is switched off.
    pub fn flush(&mut self) -> (flush_stderr: bool)
        ensures
            final(self).command == old(self).command,
            final(self).phase == old(self).phase,
            flush_stderr == (old(self).sink is Stderr),
            old(self).sink is FailOnce ==> final(self).sink is Off,
            !(old(self).sink is FailOnce) ==> final(self).sink == old(self).sink,
    {
        match self.sink {
            DiagnosticSink::Stderr => true,
            DiagnosticSink::FailOnce => {
                self.sink = DiagnosticSink::Off;
                false
            },
            _ => false,
        }
    }

    /// The lines that a recording sink kept.
    pub fn recorded_lines(&self) -> (lines: &[String])
        ensures
            match self.sink {
                DiagnosticSink::Record(kept) => lines@ == kept@,
                _ => lines@.len() == 0,
            },
    {
        match &self.sink {
            DiagnosticSink::Record(lines) => lines.as_slice(),
            _ => &[],
        }
    }

    pub fn is_off(&self) -> (off: bool)
        ensures
            off == (self.sink is Off),
    {
        match self.sink {
            DiagnosticSink::Off => true,
            _ => false,
        }
    }
}

} // verus!
