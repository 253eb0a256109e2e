//! The attachment descriptor that tells Codex Desktop where the app-server socket is, and
//! the safety verdicts on the files around it.
use vstd::prelude::*;

use crate::error::ControllerError;
use crate::paths::{is_normalized_absolute, is_normalized_absolute_path, SLASH};
use crate::text::{chars_of, control, decode_utf8_text, is_control};

verus! {

/// The text of a descriptor safety error.
pub open spec fn desktop_error_text(reason: Seq<char>) -> Seq<char> {
    "Desktop descriptor safety error: "@ + reason
}

pub fn desktop_error(reason: &str) -> (error: ControllerError)
    ensures
        error matches ControllerError::Operational(text) && text@ == desktop_error_text(reason@),
{
    let mut text = String::from_str("Desktop descriptor safety error: ");
    text.append(reason);
    ControllerError::Operational(text)
}

/// What the descriptor at a path is.
#[derive(Clone, Copy, Debug, PartialEq, Eq, Structural)]
pub enum DescriptorState {
    Absent,
    Expected,
    Foreign,
}

/// A file that a failed publication may have left behind.
#[derive(Debug)]
pub enum DescriptorPublicationResidue {
    Stage(Vec<u8>),
    Final(Vec<u8>),
}

impl DescriptorPublicationResidue {
    pub fn into_path(self) -> (path: Vec<u8>)
        ensures
            path == match self {
                DescriptorPublicationResidue::Stage(p) => p,
                DescriptorPublicationResidue::Final(p) => p,
            },
    {
        match self {
            DescriptorPublicationResidue::Stage(path) => path,
            DescriptorPublicationResidue::Final(path) => path,
        }
    }
}

/// A failed publication and what it left behind.
#[derive(Debug)]
pub struct DescriptorPublicationFailure {
    pub source: ControllerError,
    pub residue: Option<DescriptorPublicationResidue>,
}

impl DescriptorPublicationFailure {
    /// A failure that left nothing behind.
    pub fn clean(source: ControllerError) -> (failure: Self)
        ensures
            failure.source == source,
            failure.residue is None,
    {
        DescriptorPublicationFailure { source, residue: None }
    }
}

pub const NOT_NORMALIZED: &'static str = "descriptor socket path is not a normalized absolute path";

/// The socket path that a descriptor may name: UTF-8 text without control characters that
/// is the root or a normalized absolute path.
pub open spec fn descriptor_socket_path(path: Seq<u8>) -> Result<Seq<char>, Seq<char>> {
    if !vstd::utf8::valid_utf8(path) {
        Err(desktop_error_text("descriptor socket path must be UTF-8"@))
    } else if !(path == seq![SLASH] || is_normalized_absolute(path))
        || exists|i: int| 0 <= i < vstd::utf8::decode_utf8(path).len() && is_control(#[trigger] vstd::utf8::decode_utf8(path)[i]) {
        Err(desktop_error_text(NOT_NORMALIZED@))
    } else {
        Ok(vstd::utf8::decode_utf8(path))
    }
}

pub fn normalized_descriptor_socket_path(path: &[u8]) -> (result: Result<String, ControllerError>)
    ensures
        match result {
            Ok(text) => descriptor_socket_path(path@) == Ok::<Seq<char>, Seq<char>>(text@),
            Err(error) => error matches ControllerError::Operational(text)
                && descriptor_socket_path(path@) == Err::<Seq<char>, Seq<char>>(text@),
        },
{
    let text = match decode_utf8_text(path) {
        Some(text) => text,
        None => {
            return Err(desktop_error("descriptor socket path must be UTF-8"));
        },
    };
    let root = path.len() == 1 && path[0] == SLASH;
    assert(root == (path@ == seq![SLASH])) by {
        if path@ == seq![SLASH] {
            assert(path@.len() == 1);
        }
        if root {
            assert(path@ =~= seq![SLASH]);
        }
    }
    if !(root || is_normalized_absolute_path(path)) {
        return Err(desktop_error(NOT_NORMALIZED));
    }
    let characters = chars_of(text.as_str());
    let mut i: usize = 0;
    while i < characters.len()
        invariant
            vstd::utf8::valid_utf8(path@),
            path@ == seq![SLASH] || is_normalized_absolute(path@),
            characters@ == vstd::utf8::decode_utf8(path@),
            0 <= i <= characters@.len(),
            forall|k: int| 0 <= k < i ==> !is_control(#[trigger] characters@[k]),
        decreases characters@.len() - i,
    {
        if control(characters[i]) {
            assert(is_control(characters@[i as int]));
            return Err(desktop_error(NOT_NORMALIZED));
        }
        i = i + 1;
    }
    Ok(text)
}

/// The text with `"` and `\` escaped by a backslash.
pub open spec fn json_escaped(text: Seq<char>) -> Seq<char>
    decreases text.len(),
{
    if text.len() == 0 {
        Seq::empty()
    } else if text.last() == '"' || text.last() == '\\' {
        json_escaped(text.drop_last()).push('\\').push(text.last())
    } else {
        json_escaped(text.drop_last()).push(text.last())
    }
}

/// A JSON string literal of a text without characters below U+0020.
pub open spec fn json_quoted(text: Seq<char>) -> Seq<char> {
    "\""@ + json_escaped(text) + "\""@
}

/// `serde_json::to_string` of a string: for text without characters below U+0020, the
/// string in double quotes with `"` and `\` escaped by a backslash. A string is written into
/// memory, which does not fail, so there is always a result.
#[verifier::external_body]
fn json_string(text: &str) -> (json: Option<String>)
    requires
        forall|i: int| 0 <= i < text@.len() ==> text@[i] >= ' ',
    ensures
        json is Some,
        json->0@ == json_quoted(text@),
{
    match serde_json::to_string(text) {
        Ok(json) => Some(json),
        Err(_) => None,
    }
}

/// The descriptor document: schema version 1, the Unix transport, and the socket path.
pub open spec fn descriptor_text(socket_path: Seq<char>) -> Seq<char> {
    "{\"schemaVersion\":1,\"transport\":\"unix\",\"socketPath\":"@ + json_quoted(socket_path) + "}"@
}

pub const RENDER_FAILURE: &'static str = "Desktop descriptor cannot be rendered";

/// The bytes of the descriptor that names the socket.
pub fn render_descriptor(socket_path: &[u8]) -> (result: Result<Vec<u8>, ControllerError>)
    ensures
        match result {
            Ok(bytes) => descriptor_socket_path(socket_path@) is Ok
                && bytes@ == vstd::utf8::encode_utf8(descriptor_text(descriptor_socket_path(socket_path@)->Ok_0)),
            Err(error) => descriptor_socket_path(socket_path@) matches Err(text)
                && error matches ControllerError::Operational(t) && t@ == text,
        },
{
    let value = normalized_descriptor_socket_path(socket_path)?;
    proof {
        assert forall|i: int| 0 <= i < value@.len() implies value@[i] >= ' ' by {
            assert(!is_control(value@[i]));
        }
    }
    let quoted = match json_string(value.as_str()) {
        Some(quoted) => quoted,
        None => {
            return Err(ControllerError::Operational(String::from_str(RENDER_FAILURE)));
        },
    };
    let mut document = String::from_str("{\"schemaVersion\":1,\"transport\":\"unix\",\"socketPath\":");
    document.append(quoted.as_str());
    document.append("}");
    let bytes = document.as_str().as_bytes();
    Ok(vstd::slice::slice_to_vec(bytes))
}

/// The fields of a parsed descriptor.
#[derive(Debug, PartialEq, Eq)]
pub struct DescriptorDocument {
    pub schema_version: u32,
    pub transport: String,
    pub socket_path: String,
}

/// A parsed descriptor is accepted with schema version 1, the Unix transport and a socket
/// path that a descriptor may name.
pub open spec fn document_check(schema_version: u32, transport: Seq<char>, socket_path: Seq<char>) -> Result<(), Seq<char>> {
    if schema_version != 1 || transport != "unix"@ {
        Err(desktop_error_text("descriptor schema is unsupported"@))
    } else {
        match descriptor_socket_path(vstd::utf8::encode_utf8(socket_path)) {
            Err(text) => Err(text),
            Ok(_) => Ok(()),
        }
    }
}

pub fn check_descriptor_document(document: &DescriptorDocument) -> (result: Result<(), ControllerError>)
    ensures
        match result {
            Ok(()) => document_check(document.schema_version, document.transport@, document.socket_path@) is Ok,
            Err(error) => error matches ControllerError::Operational(text)
                && document_check(document.schema_version, document.transport@, document.socket_path@)
                    == Err::<(), Seq<char>>(text@),
        },
{
    if document.schema_version != 1 || document.transport != String::from_str("unix") {
        return Err(desktop_error("descriptor schema is unsupported"));
    }
    let bytes = document.socket_path.as_str().as_bytes();
    normalized_descriptor_socket_path(bytes)?;
    Ok(())
}

/// A regular file owned by the effective user with mode exactly `0600`.
pub open spec fn is_owner_only_file(is_file: bool, uid: u32, euid: u32, mode: u32) -> bool {
    is_file && uid == euid && mode & 0o7777 == 0o600
}

/// The verdict on an opened descriptor's metadata.
pub fn descriptor_file_verdict(is_file: bool, uid: u32, euid: u32, mode: u32) -> (result: Result<(), ControllerError>)
    ensures
        match result {
            Ok(()) => is_owner_only_file(is_file, uid, euid, mode),
            Err(error) => !is_owner_only_file(is_file, uid, euid, mode) && (error matches ControllerError::Operational(text)
                && text@ == desktop_error_text("descriptor is not an owner-only regular file"@)),
        },
{
    if !is_file || uid != euid || mode & 0o7777 != 0o600 {
        return Err(desktop_error("descriptor is not an owner-only regular file"));
    }
    Ok(())
}

/// The state of a readable descriptor: expected exactly when its document equals the
/// expected one.
pub fn descriptor_state(actual: &DescriptorDocument, expected: &DescriptorDocument) -> (state: DescriptorState)
    ensures
        state == (if actual.schema_version == expected.schema_version && actual.transport@ == expected.transport@
            && actual.socket_path@ == expected.socket_path@ { DescriptorState::Expected } else { DescriptorState::Foreign }),
{
    if actual.schema_version == expected.schema_version && actual.transport == expected.transport
        && actual.socket_path == expected.socket_path {
        DescriptorState::Expected
    } else {
        DescriptorState::Foreign
    }
}

/// Whether an ancestor of the descriptor may be entered, and whether the walk has entered
/// the effective user's tree after it: an ancestor must be a directory that group and others
/// cannot write; once the walk is inside the user's tree it must stay there.
pub open spec fn ancestor_step(is_dir: bool, mode: u32, uid: u32, euid: u32, entered: bool) -> Result<bool, Seq<char>> {
    if !is_dir || mode & 0o022 != 0 {
        Err(desktop_error_text("descriptor ancestor is unsafe"@))
    } else if uid == euid {
        Ok(true)
    } else if entered {
        Err(desktop_error_text("descriptor ancestor leaves the effective-user tree"@))
    } else {
        Ok(false)
    }
}

pub fn descriptor_ancestor_step(is_dir: bool, mode: u32, uid: u32, euid: u32, entered: bool) -> (result: Result<bool, ControllerError>)
    ensures
        match result {
            Ok(now) => ancestor_step(is_dir, mode, uid, euid, entered) == Ok::<bool, Seq<char>>(now),
            Err(error) => error matches ControllerError::Operational(text)
                && ancestor_step(is_dir, mode, uid, euid, entered) == Err::<bool, Seq<char>>(text@),
        },
{
    if !is_dir || mode & 0o022 != 0 {
        return Err(desktop_error("descriptor ancestor is unsafe"));
    }
    if uid == euid {
        Ok(true)
    } else if entered {
        Err(desktop_error("descriptor ancestor leaves the effective-user tree"))
    } else {
        Ok(false)
    }
}

/// Whether a descriptor may be replaced by publication: only an absent or expected one.
pub open spec fn is_replaceable(state: DescriptorState) -> bool {
    state == DescriptorState::Absent || state == DescriptorState::Expected
}

/// The verdict on the existing descriptor before a switch.
pub fn preflight_existing(state: DescriptorState) -> (result: Result<(), ControllerError>)
    ensures
        match result {
            Ok(()) => is_replaceable(state),
            Err(error) => !is_replaceable(state) && (error matches ControllerError::Operational(text)
                && text@ == desktop_error_text("existing Desktop descriptor is foreign"@)),
        },
{
    if state == DescriptorState::Absent || state == DescriptorState::Expected {
        Ok(())
    } else {
        Err(desktop_error("existing Desktop descriptor is foreign"))
    }
}

/// The verdict on the old descriptor before a switch to a descriptor at the proposed path:
/// a foreign old descriptor is refused; otherwise whether the proposed one still needs its own
/// check, which it does unless it is at the same path.
pub fn preflight_switch_from(old_state: DescriptorState, same_path: bool) -> (result: Result<bool, ControllerError>)
    ensures
        match result {
            Ok(check_proposed) => is_replaceable(old_state) && check_proposed == !same_path,
            Err(error) => !is_replaceable(old_state) && (error matches ControllerError::Operational(text)
                && text@ == desktop_error_text("existing Desktop descriptor is foreign"@)),
        },
{
    preflight_existing(old_state)?;
    Ok(!same_path)
}

/// The verdict on the proposed descriptor before a switch.
pub fn preflight_proposed(state: DescriptorState) -> (result: Result<(), ControllerError>)
    ensures
        match result {
            Ok(()) => is_replaceable(state),
            Err(error) => !is_replaceable(state) && (error matches ControllerError::Operational(text)
                && text@ == desktop_error_text("proposed Desktop descriptor is foreign"@)),
        },
{
    if state == DescriptorState::Absent || state == DescriptorState::Expected {
        Ok(())
    } else {
        Err(desktop_error("proposed Desktop descriptor is foreign"))
    }
}

/// A socket path that a descriptor may name is accepted again when read back from the
/// descriptor's text: checking is idempotent.
pub proof fn descriptor_socket_path_round_trip(path: Seq<u8>)
    ensures
        match descriptor_socket_path(path) {
            Ok(text) => descriptor_socket_path(vstd::utf8::encode_utf8(text)) == Ok::<Seq<char>, Seq<char>>(text),
            Err(_) => true,
        },
{
    if vstd::utf8::valid_utf8(path) {
        vstd::utf8::decode_utf8_encode_utf8(path);
    }
}

pub const UNSAFE_OWNED_DIRECTORY: &'static str = "descriptor directory is not a safe owner-owned directory";

/// A directory of the effective user that group and others cannot write, reached through
/// the user's tree (for an opened directory) or not through a link (for a path).
pub open spec fn is_safe_owned_directory(reached: bool, is_dir: bool, uid: u32, euid: u32, mode: u32) -> bool {
    reached && is_dir && uid == euid && mode & 0o022 == 0
}

pub fn owned_directory_verdict(reached: bool, is_dir: bool, uid: u32, euid: u32, mode: u32) -> (result: Result<(), ControllerError>)
    ensures
        match result {
            Ok(()) => is_safe_owned_directory(reached, is_dir, uid, euid, mode),
            Err(error) => !is_safe_owned_directory(reached, is_dir, uid, euid, mode) && (error matches ControllerError::Operational(text)
                && text@ == desktop_error_text(UNSAFE_OWNED_DIRECTORY@)),
        },
{
    if !reached || !is_dir || uid != euid || mode & 0o022 != 0 {
        return Err(desktop_error(UNSAFE_OWNED_DIRECTORY));
    }
    Ok(())
}

/// A directory just created for the descriptor: the effective user's, with permission bits
/// exactly `0700`.
pub open spec fn is_safe_new_directory(is_dir: bool, uid: u32, euid: u32, mode: u32) -> bool {
    is_dir && uid == euid && mode & 0o777 == 0o700
}

pub fn new_directory_verdict(is_dir: bool, uid: u32, euid: u32, mode: u32) -> (result: Result<(), ControllerError>)
    ensures
        match result {
            Ok(()) => is_safe_new_directory(is_dir, uid, euid, mode),
            Err(error) => !is_safe_new_directory(is_dir, uid, euid, mode) && (error matches ControllerError::Operational(text)
                && text@ == desktop_error_text("new descriptor directory is unsafe"@)),
        },
{
    if !is_dir || uid != euid || mode & 0o777 != 0o700 {
        return Err(desktop_error("new descriptor directory is unsafe"));
    }
    Ok(())
}

} // verus!
