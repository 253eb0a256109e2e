//! Discovery of the community Codex Desktop build and its attachment descriptor.
use vstd::prelude::*;

pub mod command_shape;
pub mod descriptor;
pub mod discovery;
pub mod entry;
pub mod entry_rules;
pub mod groups;
pub mod publication;
pub mod quoting;

verus! {

/// The file name of the Desktop entry that starts Codex Desktop.
pub const DESKTOP_ENTRY_NAME: &'static str = "codex-desktop.desktop";

/// The capability that a Desktop build reports when it reads attachment descriptors.
pub const DESKTOP_CAPABILITY: &'static str = "external-app-server-attachment-descriptor-v1";

/// Why the Desktop attachment is unavailable.
#[derive(Debug)]
pub enum DiscoveryFailure {
    Unavailable(String),
}

impl DiscoveryFailure {
    /// The reason that the failure carries.
    pub open spec fn reason(self) -> Seq<char> {
        match self {
            DiscoveryFailure::Unavailable(reason) => reason@,
        }
    }

    pub fn unavailable(reason: &str) -> (failure: Self)
        ensures
            failure.reason() == reason@,
    {
        DiscoveryFailure::Unavailable(reason.to_owned())
    }

    /// The warning shown for the failure.
    pub fn warning(self) -> (text: String)
        ensures
            text@ == "Desktop attachment unavailable: "@ + self.reason(),
    {
        match self {
            DiscoveryFailure::Unavailable(reason) => {
                let mut text = String::from_str("Desktop attachment unavailable: ");
                text.append(reason.as_str());
                text
            },
        }
    }
}

} // verus!
