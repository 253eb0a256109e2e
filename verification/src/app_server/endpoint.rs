//! Where the Desktop app-server socket is, and whether its files may be trusted.
use vstd::prelude::*;

use crate::error::{ToolErrorCategory, ToolErrorData};
use crate::paths::{is_normalized_absolute, is_normalized_absolute_path, name_starts_well, path_join, pushed, DOT, SLASH};

verus! {

/// The tool name of endpoint errors.
pub const NATIVE_TRANSPORT: &'static str = "native_transport";
/// The stage of endpoint errors.
pub const SOCKET_VALIDATION_STAGE: &'static str = "socket_validation";

/// The bytes of `codex-desktop`, the application id used when none is selected.
pub open spec fn default_app_id() -> Seq<u8> {
    seq![99u8, 111u8, 100u8, 101u8, 120u8, 45u8, 100u8, 101u8, 115u8, 107u8, 116u8, 111u8, 112u8]
}

/// The bytes of `app-server-bridge`.
pub open spec fn bridge_name() -> Seq<u8> {
    seq![97u8, 112u8, 112u8, 45u8, 115u8, 101u8, 114u8, 118u8, 101u8, 114u8, 45u8, 98u8, 114u8, 105u8, 100u8, 103u8, 101u8]
}

/// The bytes of `app-server.sock`.
pub open spec fn socket_name() -> Seq<u8> {
    seq![97u8, 112u8, 112u8, 45u8, 115u8, 101u8, 114u8, 118u8, 101u8, 114u8, 46u8, 115u8, 111u8, 99u8, 107u8]
}

fn default_app_id_bytes() -> (v: Vec<u8>)
    ensures
        v@ == default_app_id(),
{
    let v: Vec<u8> = vec![99u8, 111u8, 100u8, 101u8, 120u8, 45u8, 100u8, 101u8, 115u8, 107u8, 116u8, 111u8, 112u8];
    assert(v@ =~= default_app_id());
    v
}

fn bridge_name_bytes() -> (v: Vec<u8>)
    ensures
        v@ == bridge_name(),
{
    let v: Vec<u8> = vec![97u8, 112u8, 112u8, 45u8, 115u8, 101u8, 114u8, 118u8, 101u8, 114u8, 45u8, 98u8, 114u8, 105u8, 100u8, 103u8, 101u8];
    assert(v@ =~= bridge_name());
    v
}

fn socket_name_bytes() -> (v: Vec<u8>)
    ensures
        v@ == socket_name(),
{
    let v: Vec<u8> = vec![97u8, 112u8, 112u8, 45u8, 115u8, 101u8, 114u8, 118u8, 101u8, 114u8, 46u8, 115u8, 111u8, 99u8, 107u8];
    assert(v@ =~= socket_name());
    v
}

/// The endpoint error that says the target is not there.
pub fn target_unavailable() -> (error: ToolErrorData)
    ensures
        error.is_fixed(ToolErrorCategory::TargetUnavailable, NATIVE_TRANSPORT@, SOCKET_VALIDATION_STAGE@),
{
    ToolErrorData::fixed(ToolErrorCategory::TargetUnavailable, NATIVE_TRANSPORT, SOCKET_VALIDATION_STAGE)
}

/// The endpoint error that says the target may not be trusted.
pub fn socket_validation_failure() -> (error: ToolErrorData)
    ensures
        error.is_fixed(ToolErrorCategory::AuthorityTransportFailure, NATIVE_TRANSPORT@, SOCKET_VALIDATION_STAGE@),
{
    ToolErrorData::fixed(ToolErrorCategory::AuthorityTransportFailure, NATIVE_TRANSPORT, SOCKET_VALIDATION_STAGE)
}

/// An endpoint error: fixed, of the given category, with nothing of the inputs in it.
pub open spec fn is_endpoint_error(error: ToolErrorData, category: ToolErrorCategory) -> bool {
    error.is_fixed(category, NATIVE_TRANSPORT@, SOCKET_VALIDATION_STAGE@)
}

pub fn require_normalized_absolute_path(path: &[u8]) -> (result: Result<(), ToolErrorData>)
    ensures
        match result {
            Ok(()) => is_normalized_absolute(path@),
            Err(e) => !is_normalized_absolute(path@) && is_endpoint_error(e, ToolErrorCategory::AuthorityTransportFailure),
        },
{
    if is_normalized_absolute_path(path) {
        Ok(())
    } else {
        Err(socket_validation_failure())
    }
}

/// An application id: not `.` or `..`, and made of ASCII letters, digits, `.`, `_` and `-`.
pub open spec fn is_valid_app_id(value: Seq<u8>) -> bool {
    &&& value != seq![DOT]
    &&& value != seq![DOT, DOT]
    &&& forall|i: int| 0 <= i < value.len() ==> is_app_id_byte(#[trigger] value[i])
}

pub open spec fn is_app_id_byte(b: u8) -> bool {
    (48 <= b <= 57) || (65 <= b <= 90) || (97 <= b <= 122) || b == 46 || b == 95 || b == 45
}

pub fn require_valid_app_id(value: &[u8]) -> (result: Result<(), ToolErrorData>)
    ensures
        match result {
            Ok(()) => is_valid_app_id(value@),
            Err(e) => !is_valid_app_id(value@) && is_endpoint_error(e, ToolErrorCategory::AuthorityTransportFailure),
        },
{
    let n = value.len();
    if (n == 1 && value[0] == DOT) || (n == 2 && value[0] == DOT && value[1] == DOT) {
        assert(value@ =~= seq![DOT] || value@ =~= seq![DOT, DOT]);
        return Err(socket_validation_failure());
    }
    assert(value@ != seq![DOT]) by {
        if value@ =~= seq![DOT] {
            assert(value@.len() == 1 && value@[0] == DOT);
        }
    }
    assert(value@ != seq![DOT, DOT]) by {
        if value@ =~= seq![DOT, DOT] {
            assert(value@.len() == 2 && value@[0] == DOT && value@[1] == DOT);
        }
    }
    let mut i: usize = 0;
    while i < n
        invariant
            n == value@.len(),
            0 <= i <= n,
            forall|k: int| 0 <= k < i ==> is_app_id_byte(#[trigger] value@[k]),
        decreases n - i,
    {
        let b = value[i];
        if !((48 <= b && b <= 57) || (65 <= b && b <= 90) || (97 <= b && b <= 122) || b == 46 || b == 95 || b == 45) {
            assert(!is_app_id_byte(value@[i as int]));
            return Err(socket_validation_failure());
        }
        i = i + 1;
    }
    Ok(())
}

/// How an endpoint was selected.
#[derive(Debug)]
pub enum EndpointKind {
    /// Named whole by the explicit socket variable.
    Explicit,
    /// Derived from the runtime directory and the application id; each of these
    /// directories must be private to the user.
    Derived { runtime_dir: Vec<u8>, app_dir: Vec<u8>, bridge_dir: Vec<u8> },
}

/// The socket of the Desktop app-server and how it was selected.
#[derive(Debug)]
pub struct DesktopEndpoint {
    pub socket_path: Vec<u8>,
    pub kind: EndpointKind,
}

/// The mathematical form of an endpoint: its socket and the directories that lead to it.
pub struct EndpointView {
    pub socket_path: Seq<u8>,
    pub directories: Seq<Seq<u8>>,
}

impl DesktopEndpoint {
    pub open spec fn view(&self) -> EndpointView {
        EndpointView {
            socket_path: self.socket_path@,
            directories: match self.kind {
                EndpointKind::Explicit => Seq::empty(),
                EndpointKind::Derived { runtime_dir, app_dir, bridge_dir } => seq![runtime_dir@, app_dir@, bridge_dir@],
            },
        }
    }

    pub fn explicit(socket_path: Vec<u8>) -> (endpoint: Self)
        ensures
            endpoint.view() == (EndpointView { socket_path: socket_path@, directories: Seq::empty() }),
    {
        DesktopEndpoint { socket_path, kind: EndpointKind::Explicit }
    }

    pub fn socket_path(&self) -> (path: &[u8])
        ensures
            path@ == self.socket_path@,
    {
        self.socket_path.as_slice()
    }

    /// The directories that lead to the socket and must be private to the user.
    pub fn directories(&self) -> (dirs: Vec<Vec<u8>>)
        ensures
            dirs@.map_values(|d: Vec<u8>| d@) == self.view().directories,
    {
        let mut dirs: Vec<Vec<u8>> = Vec::new();
        match &self.kind {
            EndpointKind::Explicit => {},
            EndpointKind::Derived { runtime_dir, app_dir, bridge_dir } => {
                dirs.push(runtime_dir.clone());
                dirs.push(app_dir.clone());
                dirs.push(bridge_dir.clone());
            },
        }
        assert(dirs@.map_values(|d: Vec<u8>| d@) =~= self.view().directories);
        dirs
    }
}

/// The endpoint that the explicit socket variable selects: nothing where it is unset or
/// empty, so that the derived endpoint applies.
pub open spec fn explicit_selection(explicit: Option<Seq<u8>>) -> Option<Result<EndpointView, ToolErrorCategory>> {
    match explicit {
        Some(path) => if path.len() == 0 {
            None
        } else if is_normalized_absolute(path) {
            Some(Ok(EndpointView { socket_path: path, directories: Seq::empty() }))
        } else {
            Some(Err(ToolErrorCategory::AuthorityTransportFailure))
        },
        None => None,
    }
}

/// The endpoint derived from the runtime directory and the application id.
pub open spec fn derived_selection(runtime_dir: Option<Seq<u8>>, app_id: Option<Seq<u8>>) -> Result<EndpointView, ToolErrorCategory> {
    match runtime_dir {
        None => Err(ToolErrorCategory::TargetUnavailable),
        Some(runtime) => if runtime.len() == 0 {
            Err(ToolErrorCategory::TargetUnavailable)
        } else if !is_normalized_absolute(runtime) {
            Err(ToolErrorCategory::AuthorityTransportFailure)
        } else {
            let id = match app_id {
                Some(value) => if value.len() > 0 { value } else { default_app_id() },
                None => default_app_id(),
            };
            if !is_valid_app_id(id) {
                Err(ToolErrorCategory::AuthorityTransportFailure)
            } else {
                let app_dir = pushed(runtime, id);
                let bridge_dir = pushed(app_dir, bridge_name());
                Ok(EndpointView {
                    socket_path: pushed(bridge_dir, socket_name()),
                    directories: seq![runtime, app_dir, bridge_dir],
                })
            }
        },
    }
}

/// The endpoint that the three variables select: the explicit socket where it is set and
/// not empty, otherwise the derived one.
pub open spec fn endpoint_selection(explicit: Option<Seq<u8>>, runtime_dir: Option<Seq<u8>>, app_id: Option<Seq<u8>>) -> Result<EndpointView, ToolErrorCategory> {
    match explicit_selection(explicit) {
        Some(result) => result,
        None => derived_selection(runtime_dir, app_id),
    }
}

pub open spec fn optional_bytes(value: Option<&[u8]>) -> Option<Seq<u8>> {
    match value {
        Some(v) => Some(v@),
        None => None,
    }
}

/// The endpoint result matched against the mathematical one.
pub open spec fn endpoint_matches(result: Result<DesktopEndpoint, ToolErrorData>, expected: Result<EndpointView, ToolErrorCategory>) -> bool {
    match result {
        Ok(endpoint) => expected == Ok::<EndpointView, ToolErrorCategory>(endpoint.view()),
        Err(error) => match expected {
            Err(category) => is_endpoint_error(error, category),
            Ok(_) => false,
        },
    }
}

/// The endpoint that the explicit socket variable selects, if it is set and not empty.
pub fn explicit_endpoint(explicit: Option<&[u8]>) -> (result: Option<Result<DesktopEndpoint, ToolErrorData>>)
    ensures
        match result {
            Some(r) => explicit_selection(optional_bytes(explicit)) is Some
                && endpoint_matches(r, explicit_selection(optional_bytes(explicit))->0),
            None => explicit_selection(optional_bytes(explicit)) is None,
        },
{
    match explicit {
        Some(path) => {
            if path.len() == 0 {
                return None;
            }
            match require_normalized_absolute_path(path) {
                Ok(()) => Some(Ok(DesktopEndpoint::explicit(vstd::slice::slice_to_vec(path)))),
                Err(error) => Some(Err(error)),
            }
        },
        None => None,
    }
}

/// The endpoint derived from the runtime directory and the application id.
pub fn derived_endpoint(runtime_dir: Option<&[u8]>, app_id: Option<&[u8]>) -> (result: Result<DesktopEndpoint, ToolErrorData>)
    ensures
        endpoint_matches(result, derived_selection(optional_bytes(runtime_dir), optional_bytes(app_id))),
{
    let runtime = match runtime_dir {
        Some(value) => {
            if value.len() == 0 {
                return Err(target_unavailable());
            }
            value
        },
        None => {
            return Err(target_unavailable());
        },
    };
    require_normalized_absolute_path(runtime)?;
    let id = match app_id {
        Some(value) => {
            if value.len() > 0 {
                vstd::slice::slice_to_vec(value)
            } else {
                default_app_id_bytes()
            }
        },
        None => default_app_id_bytes(),
    };
    require_valid_app_id(id.as_slice())?;
    let app_dir = path_join(runtime, id.as_slice());
    let bridge = bridge_name_bytes();
    let bridge_dir = path_join(app_dir.as_slice(), bridge.as_slice());
    let socket = socket_name_bytes();
    let socket_path = path_join(bridge_dir.as_slice(), socket.as_slice());
    let endpoint = DesktopEndpoint {
        socket_path,
        kind: EndpointKind::Derived { runtime_dir: vstd::slice::slice_to_vec(runtime), app_dir, bridge_dir },
    };
    Ok(endpoint)
}

/// The endpoint that the three variables select.
pub fn resolve_with(explicit: Option<&[u8]>, runtime_dir: Option<&[u8]>, app_id: Option<&[u8]>) -> (result: Result<DesktopEndpoint, ToolErrorData>)
    ensures
        endpoint_matches(result, endpoint_selection(optional_bytes(explicit), optional_bytes(runtime_dir), optional_bytes(app_id))),
{
    match explicit_endpoint(explicit) {
        Some(result) => result,
        None => derived_endpoint(runtime_dir, app_id),
    }
}

/// `rustix::fs::FileType::from_raw_mode(mode) == FileType::Directory`: the file-type bits
/// of the mode, `mode & 0o170000`, are `S_IFDIR`, `0o040000`.
#[verifier::external_body]
fn mode_is_directory(mode: u32) -> (r: bool)
    ensures
        r == (mode & 0o170000 == 0o040000),
{
    rustix::fs::FileType::from_raw_mode(mode) == rustix::fs::FileType::Directory
}

/// `rustix::fs::FileType::from_raw_mode(mode) == FileType::Socket`: the file-type bits of
/// the mode, `mode & 0o170000`, are `S_IFSOCK`, `0o140000`.
#[verifier::external_body]
fn mode_is_socket(mode: u32) -> (r: bool)
    ensures
        r == (mode & 0o170000 == 0o140000),
{
    rustix::fs::FileType::from_raw_mode(mode) == rustix::fs::FileType::Socket
}

/// A directory owned by the effective user whose permission bits are exactly `0700`.
pub open spec fn is_private_directory(st_uid: u32, st_mode: u32, euid: u32) -> bool {
    st_uid == euid && st_mode & 0o170000 == 0o040000 && st_mode & 0o7777 == 0o700
}

pub fn owned_directory_is_private(st_uid: u32, st_mode: u32, euid: u32) -> (r: bool)
    ensures
        r == is_private_directory(st_uid, st_mode, euid),
{
    st_uid == euid && mode_is_directory(st_mode) && st_mode & 0o7777 == 0o700
}

/// A socket owned by the effective user whose permission bits are `0600` or `0700`.
pub open spec fn is_private_socket(st_uid: u32, st_mode: u32, euid: u32) -> bool {
    st_uid == euid && st_mode & 0o170000 == 0o140000 && (st_mode & 0o7777 == 0o600 || st_mode & 0o7777 == 0o700)
}

pub fn owned_socket_is_private(st_uid: u32, st_mode: u32, euid: u32) -> (r: bool)
    ensures
        r == is_private_socket(st_uid, st_mode, euid),
{
    st_uid == euid && mode_is_socket(st_mode) && (st_mode & 0o7777 == 0o600 || st_mode & 0o7777 == 0o700)
}

/// The error for a selected file that could not be examined: target unavailable where it
/// does not exist, otherwise a validation failure.
pub fn lstat_failure(not_found: bool) -> (error: ToolErrorData)
    ensures
        is_endpoint_error(error, if not_found { ToolErrorCategory::TargetUnavailable } else { ToolErrorCategory::AuthorityTransportFailure }),
{
    if not_found {
        target_unavailable()
    } else {
        socket_validation_failure()
    }
}

/// The verdict on a directory that leads to the socket, from its owner and mode.
pub fn directory_verdict(st_uid: u32, st_mode: u32, euid: u32) -> (result: Result<(), ToolErrorData>)
    ensures
        match result {
            Ok(()) => is_private_directory(st_uid, st_mode, euid),
            Err(e) => !is_private_directory(st_uid, st_mode, euid) && is_endpoint_error(e, ToolErrorCategory::AuthorityTransportFailure),
        },
{
    if owned_directory_is_private(st_uid, st_mode, euid) {
        Ok(())
    } else {
        Err(socket_validation_failure())
    }
}

/// The verdict on the socket, from its owner and mode.
pub fn socket_verdict(st_uid: u32, st_mode: u32, euid: u32) -> (result: Result<(), ToolErrorData>)
    ensures
        match result {
            Ok(()) => is_private_socket(st_uid, st_mode, euid),
            Err(e) => !is_private_socket(st_uid, st_mode, euid) && is_endpoint_error(e, ToolErrorCategory::AuthorityTransportFailure),
        },
{
    if owned_socket_is_private(st_uid, st_mode, euid) {
        Ok(())
    } else {
        Err(socket_validation_failure())
    }
}

/// The parent of a normalized absolute path: everything before its last separator, or the
/// root where that separator is the first byte.
pub open spec fn normalized_parent(p: Seq<u8>, last_separator: int) -> Seq<u8> {
    if last_separator == 0 { seq![SLASH] } else { p.take(last_separator) }
}

/// The index of the last separator of a path.
pub open spec fn is_last_separator(p: Seq<u8>, k: int) -> bool {
    0 <= k < p.len() && p[k] == SLASH && forall|j: int| k < j < p.len() ==> p[j] != SLASH
}

/// The directory that holds the socket of a validated endpoint.
pub fn socket_parent(path: &[u8]) -> (parent: Vec<u8>)
    requires
        is_normalized_absolute(path@),
    ensures
        exists|k: int| is_last_separator(path@, k) && parent@ == normalized_parent(path@, k),
{
    let mut k: usize = path.len() - 1;
    while path[k] != SLASH
        invariant
            0 <= k < path@.len(),
            path@[0] == SLASH,
            forall|j: int| k < j < path@.len() ==> path@[j] != SLASH,
        decreases k,
    {
        k = k - 1;
    }
    assert(is_last_separator(path@, k as int));
    if k == 0 {
        let root: Vec<u8> = vec![SLASH];
        assert(root@ =~= seq![SLASH]);
        root
    } else {
        let parent = vstd::slice::slice_to_vec(&path[0..k]);
        assert(parent@ =~= path@.take(k as int));
        parent
    }
}

/// A non-empty explicit socket decides the endpoint alone: the runtime directory and the
/// application id are not consulted.
pub proof fn explicit_socket_precedes_other_inputs(
    explicit: Seq<u8>,
    runtime_dir: Option<Seq<u8>>,
    app_id: Option<Seq<u8>>,
    other_runtime_dir: Option<Seq<u8>>,
    other_app_id: Option<Seq<u8>>,
)
    requires
        explicit.len() > 0,
    ensures
        endpoint_selection(Some(explicit), runtime_dir, app_id) == endpoint_selection(Some(explicit), other_runtime_dir, other_app_id),
{
}

/// An empty explicit socket is the same as none: the derived endpoint applies.
pub proof fn empty_explicit_socket_falls_through(runtime_dir: Option<Seq<u8>>, app_id: Option<Seq<u8>>)
    ensures
        endpoint_selection(Some(Seq::empty()), runtime_dir, app_id) == derived_selection(runtime_dir, app_id),
        endpoint_selection(None, runtime_dir, app_id) == derived_selection(runtime_dir, app_id),
{
}

/// The application id defaults to `codex-desktop` only where it is missing or empty.
pub proof fn app_id_defaults_only_when_missing_or_empty(runtime_dir: Option<Seq<u8>>)
    ensures
        derived_selection(runtime_dir, None) == derived_selection(runtime_dir, Some(default_app_id())),
        derived_selection(runtime_dir, Some(Seq::empty())) == derived_selection(runtime_dir, Some(default_app_id())),
{
}

/// A missing or empty runtime directory, without an explicit socket, leaves the target
/// unavailable.
pub proof fn missing_runtime_directory_is_target_unavailable(app_id: Option<Seq<u8>>)
    ensures
        endpoint_selection(None, None, app_id) == Err::<EndpointView, ToolErrorCategory>(ToolErrorCategory::TargetUnavailable),
        endpoint_selection(None, Some(Seq::empty()), app_id) == Err::<EndpointView, ToolErrorCategory>(ToolErrorCategory::TargetUnavailable),
{
}

/// A name without separators that is not empty, `.` or `..`.
pub open spec fn is_plain_name(name: Seq<u8>) -> bool {
    &&& name.len() > 0
    &&& name != seq![DOT]
    &&& name != seq![DOT, DOT]
    &&& forall|i: int| 0 <= i < name.len() ==> name[i] != SLASH
}

proof fn lemma_push_plain_name(base: Seq<u8>, name: Seq<u8>)
    requires
        is_normalized_absolute(base),
        is_plain_name(name),
    ensures
        is_normalized_absolute(pushed(base, name)),
{
    let p = pushed(base, name);
    let b = base.len() as int;
    assert(p == base.push(SLASH) + name);
    assert(p.len() == b + 1 + name.len());
    assert forall|i: int| 0 <= i < b implies p[i] == base[i] by {}
    assert(p[b] == SLASH);
    assert forall|i: int| 0 <= i < name.len() implies p[b + 1 + i] == name[i] by {}
    assert(p.last() == name.last());
    assert forall|i: int| 0 <= i < p.len() - 1 && p[i] == SLASH implies #[trigger] name_starts_well(p, i + 1) by {
        if i < b - 1 {
            assert(name_starts_well(base, i + 1));
        } else if i == b {
            if name.len() == 1 && name[0] == DOT {
                assert(name =~= seq![DOT]);
            }
            if name.len() >= 2 && name[0] == DOT && name[1] == DOT && name.len() == 2 {
                assert(name =~= seq![DOT, DOT]);
            }
        } else {
            assert(i != b - 1);
            assert(p[i] == name[i - b - 1]);
        }
    }
}

/// Every endpoint that the variables select names a normalized absolute socket path, and
/// every error is one of the two fixed endpoint errors.
pub proof fn selected_socket_is_normalized(explicit: Option<Seq<u8>>, runtime_dir: Option<Seq<u8>>, app_id: Option<Seq<u8>>)
    ensures
        match endpoint_selection(explicit, runtime_dir, app_id) {
            Ok(view) => is_normalized_absolute(view.socket_path),
            Err(category) => category == ToolErrorCategory::TargetUnavailable || category == ToolErrorCategory::AuthorityTransportFailure,
        },
{
    if explicit_selection(explicit) is None {
        match runtime_dir {
            Some(runtime) => {
                let id = match app_id {
                    Some(value) => if value.len() > 0 { value } else { default_app_id() },
                    None => default_app_id(),
                };
                if runtime.len() > 0 && is_normalized_absolute(runtime) && is_valid_app_id(id) {
                    assert(is_plain_name(id)) by {
                        if id.len() == 0 {
                            assert(id == default_app_id());
                        }
                        assert forall|i: int| 0 <= i < id.len() implies id[i] != SLASH by {
                            assert(is_app_id_byte(id[i]));
                        }
                    }
                    lemma_push_plain_name(runtime, id);
                    let app_dir = pushed(runtime, id);
                    assert(is_plain_name(bridge_name())) by {
                        assert(bridge_name() != seq![DOT]);
                        assert(bridge_name() != seq![DOT, DOT]);
                    }
                    lemma_push_plain_name(app_dir, bridge_name());
                    assert(is_plain_name(socket_name())) by {
                        assert(socket_name() != seq![DOT]);
                        assert(socket_name() != seq![DOT, DOT]);
                    }
                    lemma_push_plain_name(pushed(app_dir, bridge_name()), socket_name());
                }
            },
            None => {},
        }
    }
}

} // verus!
