//! Finding the Codex Desktop launcher: the directories searched, the environment paths it
//! needs, and the safety verdicts on the launcher and its ancestors.
use vstd::prelude::*;

use super::{DiscoveryFailure, DESKTOP_CAPABILITY};
use crate::paths::{is_absolute, is_desktop_entry, is_desktop_entry_path, path_join, pushed, SLASH};
use crate::text::{chars_of, control, is_control};

verus! {

/// The text of an unavailable Desktop attachment.
pub open spec fn unavailable_warning_text(reason: Seq<char>) -> Seq<char> {
    "Desktop attachment unavailable: "@ + reason
}

pub fn unavailable_warning(reason: &str) -> (warning: String)
    ensures
        warning@ == unavailable_warning_text(reason@),
{
    let mut warning = String::from_str("Desktop attachment unavailable: ");
    warning.append(reason);
    warning
}

pub const UNSAFE_APP_ID: &'static str = "Desktop appIdentity.id is not one safe path component";

/// An application id that is one safe path component: not empty, not `.` or `..`, without
/// `/`, `\` or control characters.
pub open spec fn is_safe_app_id(id: Seq<char>) -> bool {
    &&& id.len() > 0
    &&& id != "."@
    &&& id != ".."@
    &&& forall|i: int| 0 <= i < id.len() ==> (#[trigger] id[i] != '/' && id[i] != '\\' && !is_control(id[i]))
}

pub fn validate_app_id(app_id: &str) -> (result: Result<(), DiscoveryFailure>)
    ensures
        match result {
            Ok(()) => is_safe_app_id(app_id@),
            Err(failure) => !is_safe_app_id(app_id@) && failure.reason() == UNSAFE_APP_ID@,
        },
{
    let characters = chars_of(app_id);
    let n = characters.len();
    if n == 0 || crate::text::chars_are(&characters, ".") || crate::text::chars_are(&characters, "..") {
        return Err(DiscoveryFailure::unavailable(UNSAFE_APP_ID));
    }
    let mut i: usize = 0;
    while i < n
        invariant
            characters@ == app_id@,
            n == characters@.len(),
            0 <= i <= n,
            forall|k: int| 0 <= k < i ==> (#[trigger] characters@[k] != '/' && characters@[k] != '\\' && !is_control(characters@[k])),
        decreases n - i,
    {
        let c = characters[i];
        if c == '/' || c == '\\' || control(c) {
            assert(!(characters@[i as int] != '/' && characters@[i as int] != '\\' && !is_control(characters@[i as int])));
            return Err(DiscoveryFailure::unavailable(UNSAFE_APP_ID));
        }
        i = i + 1;
    }
    Ok(())
}

/// A launcher that group and others cannot write and that its owner may run: owned by the
/// effective user with the owner's execute bit, or by root with the others' execute bit.
pub open spec fn is_safe_launcher(is_file: bool, uid: u32, mode: u32, euid: u32) -> bool {
    is_file && mode & 0o022 == 0 && ((uid == euid && mode & 0o100 != 0) || (uid == 0 && mode & 0o001 != 0))
}

pub fn launcher_metadata_is_safe(is_file: bool, uid: u32, mode: u32, euid: u32) -> (safe: bool)
    ensures
        safe == is_safe_launcher(is_file, uid, mode, euid),
{
    if !is_file {
        return false;
    }
    if mode & 0o022 != 0 {
        return false;
    }
    (uid == euid && mode & 0o100 != 0) || (uid == 0 && mode & 0o001 != 0)
}

/// The verdict on an ancestor directory of the launcher: a real directory owned by the
/// effective user or root that others cannot write into, unless it is sticky.
pub open spec fn launcher_ancestor(is_symlink: bool, is_dir: bool, uid: u32, mode: u32, euid: u32) -> Result<(), Seq<char>> {
    if is_symlink || !is_dir {
        Err("Desktop launcher ancestor is not a directory"@)
    } else if uid != euid && uid != 0 {
        Err("Desktop launcher ancestor is not owned by the effective user or root"@)
    } else if mode & 0o022 != 0 && mode & 0o1000 == 0 {
        Err("Desktop launcher ancestor permits cross-user replacement"@)
    } else {
        Ok(())
    }
}

pub fn launcher_ancestor_verdict(is_symlink: bool, is_dir: bool, uid: u32, mode: u32, euid: u32) -> (result: Result<(), DiscoveryFailure>)
    ensures
        match result {
            Ok(()) => launcher_ancestor(is_symlink, is_dir, uid, mode, euid) is Ok,
            Err(failure) => launcher_ancestor(is_symlink, is_dir, uid, mode, euid) == Err::<(), Seq<char>>(failure.reason()),
        },
{
    if is_symlink || !is_dir {
        return Err(DiscoveryFailure::unavailable("Desktop launcher ancestor is not a directory"));
    }
    if uid != euid && uid != 0 {
        return Err(DiscoveryFailure::unavailable("Desktop launcher ancestor is not owned by the effective user or root"));
    }
    if mode & 0o022 != 0 && mode & 0o1000 == 0 {
        return Err(DiscoveryFailure::unavailable("Desktop launcher ancestor permits cross-user replacement"));
    }
    Ok(())
}

/// A launcher override must be one absolute executable path, not a Desktop entry.
pub fn check_launcher_override(path: &[u8]) -> (result: Result<(), DiscoveryFailure>)
    ensures
        match result {
            Ok(()) => is_absolute(path@) && !is_desktop_entry(path@),
            Err(failure) => !(is_absolute(path@) && !is_desktop_entry(path@))
                && failure.reason() == "the Desktop launcher override is not one absolute executable path"@,
        },
{
    if !(path.len() > 0 && path[0] == SLASH) || is_desktop_entry_path(path) {
        return Err(DiscoveryFailure::unavailable("the Desktop launcher override is not one absolute executable path"));
    }
    Ok(())
}

/// The environment path under `key`: it must be set and absolute.
pub open spec fn environment_path_of(key: Seq<char>, value: Option<Seq<u8>>) -> Result<Seq<u8>, Seq<char>> {
    match value {
        None => Err(key + " is unavailable"@),
        Some(v) => if is_absolute(v) { Ok(v) } else { Err(key + " is not absolute"@) },
    }
}

pub open spec fn optional_bytes(value: Option<&[u8]>) -> Option<Seq<u8>> {
    match value {
        Some(v) => Some(v@),
        None => None,
    }
}

fn failure_with(key: &str, suffix: &str) -> (failure: DiscoveryFailure)
    ensures
        failure.reason() == key@ + suffix@,
{
    let mut reason = String::from_str(key);
    reason.append(suffix);
    DiscoveryFailure::Unavailable(reason)
}

pub fn environment_path(key: &str, value: Option<&[u8]>) -> (result: Result<Vec<u8>, DiscoveryFailure>)
    ensures
        match result {
            Ok(path) => environment_path_of(key@, optional_bytes(value)) == Ok::<Seq<u8>, Seq<char>>(path@),
            Err(failure) => environment_path_of(key@, optional_bytes(value)) == Err::<Seq<u8>, Seq<char>>(failure.reason()),
        },
{
    match value {
        None => Err(failure_with(key, " is unavailable")),
        Some(v) => if v.len() > 0 && v[0] == SLASH {
            Ok(vstd::slice::slice_to_vec(v))
        } else {
            Err(failure_with(key, " is not absolute"))
        },
    }
}

/// The bytes of `.config`.
pub open spec fn config_name() -> Seq<u8> {
    seq![46u8, 99u8, 111u8, 110u8, 102u8, 105u8, 103u8]
}

/// The configuration root that Codex Desktop uses: `XDG_CONFIG_HOME` where it is set and not
/// empty (it must then be absolute), otherwise `.config` under `HOME`.
pub open spec fn config_root(xdg_config_home: Option<Seq<u8>>, home: Option<Seq<u8>>) -> Result<Seq<u8>, Seq<char>> {
    match xdg_config_home {
        Some(value) => if value.len() > 0 {
            environment_path_of("XDG_CONFIG_HOME"@, Some(value))
        } else {
            match environment_path_of("HOME"@, home) {
                Ok(h) => Ok(pushed(h, config_name())),
                Err(e) => Err(e),
            }
        },
        None => match environment_path_of("HOME"@, home) {
            Ok(h) => Ok(pushed(h, config_name())),
            Err(e) => Err(e),
        },
    }
}

pub fn effective_config_root(xdg_config_home: Option<&[u8]>, home: Option<&[u8]>) -> (result: Result<Vec<u8>, DiscoveryFailure>)
    ensures
        match result {
            Ok(path) => config_root(optional_bytes(xdg_config_home), optional_bytes(home)) == Ok::<Seq<u8>, Seq<char>>(path@),
            Err(failure) => config_root(optional_bytes(xdg_config_home), optional_bytes(home)) == Err::<Seq<u8>, Seq<char>>(failure.reason()),
        },
{
    if let Some(value) = xdg_config_home {
        if value.len() > 0 {
            return environment_path("XDG_CONFIG_HOME", Some(value));
        }
    }
    let h = environment_path("HOME", home)?;
    let config: Vec<u8> = vec![46u8, 99u8, 111u8, 110u8, 102u8, 105u8, 103u8];
    assert(config@ =~= config_name());
    Ok(path_join(h.as_slice(), config.as_slice()))
}

/// The absolute pieces of a colon-separated list, from the rest `rest` on, given the piece
/// read so far.
pub open spec fn absolute_pieces_after(rest: Seq<u8>, piece: Seq<u8>) -> Seq<Seq<u8>>
    decreases rest.len(),
{
    let kept = if is_absolute(piece) { seq![piece] } else { Seq::empty() };
    if rest.len() == 0 {
        kept
    } else if rest[0] == 58 {
        kept + absolute_pieces_after(rest.drop_first(), Seq::empty())
    } else {
        absolute_pieces_after(rest.drop_first(), piece.push(rest[0]))
    }
}

/// The absolute paths of a colon-separated list, in order: `std::env::split_paths` on Unix,
/// without the relative ones.
pub open spec fn absolute_paths(list: Seq<u8>) -> Seq<Seq<u8>> {
    absolute_pieces_after(list, Seq::empty())
}

pub open spec fn paths_view(paths: Seq<Vec<u8>>) -> Seq<Seq<u8>> {
    paths.map_values(|p: Vec<u8>| p@)
}

fn keep_piece(paths: &mut Vec<Vec<u8>>, piece: Vec<u8>)
    ensures
        paths_view(final(paths)@) == paths_view(old(paths)@) + (if is_absolute(piece@) { seq![piece@] } else { Seq::<Seq<u8>>::empty() }),
{
    let ghost before = paths_view(paths@);
    if piece.len() > 0 && piece[0] == SLASH {
        let ghost p = piece@;
        paths.push(piece);
        assert(paths_view(paths@) =~= before + seq![p]);
    } else {
        assert(paths_view(paths@) =~= before + Seq::<Seq<u8>>::empty());
    }
}

/// The absolute paths of a colon-separated list.
pub fn split_absolute_paths(list: &[u8]) -> (paths: Vec<Vec<u8>>)
    ensures
        paths_view(paths@) == absolute_paths(list@),
{
    let mut paths: Vec<Vec<u8>> = Vec::new();
    let mut piece: Vec<u8> = Vec::new();
    let n = list.len();
    let mut i: usize = 0;
    assert(list@.skip(0) =~= list@);
    assert(paths_view(paths@) + absolute_pieces_after(list@, piece@) =~= absolute_paths(list@));
    while i < n
        invariant
            n == list@.len(),
            0 <= i <= n,
            paths_view(paths@) + absolute_pieces_after(list@.skip(i as int), piece@) == absolute_paths(list@),
        decreases n - i,
    {
        let ghost rest = list@.skip(i as int);
        assert(rest.drop_first() =~= list@.skip(i + 1));
        let ghost before = paths_view(paths@);
        let ghost kept = if is_absolute(piece@) { seq![piece@] } else { Seq::<Seq<u8>>::empty() };
        if list[i] == 58 {
            let finished = piece;
            piece = Vec::new();
            keep_piece(&mut paths, finished);
            assert(before + (kept + absolute_pieces_after(list@.skip(i + 1), Seq::empty()))
                =~= paths_view(paths@) + absolute_pieces_after(list@.skip(i + 1), piece@));
        } else {
            piece.push(list[i]);
        }
        i = i + 1;
    }
    assert(list@.skip(n as int) =~= Seq::<u8>::empty());
    let ghost before = paths_view(paths@);
    keep_piece(&mut paths, piece);
    paths
}

/// The bytes of `.local/share`.
pub open spec fn local_share_name() -> Seq<u8> {
    seq![46u8, 108u8, 111u8, 99u8, 97u8, 108u8, 47u8, 115u8, 104u8, 97u8, 114u8, 101u8]
}

/// The bytes of `/usr/local/share`.
pub open spec fn usr_local_share() -> Seq<u8> {
    seq![47u8, 117u8, 115u8, 114u8, 47u8] + local_share_name().drop_first()
}

/// The bytes of `/usr/share`.
pub open spec fn usr_share() -> Seq<u8> {
    seq![47u8, 117u8, 115u8, 114u8, 47u8, 115u8, 104u8, 97u8, 114u8, 101u8]
}

/// The roots whose `applications` directories hold Desktop entries, most important first:
/// `XDG_DATA_HOME` where it is absolute, otherwise `.local/share` under `HOME`; then the
/// absolute entries of `XDG_DATA_DIRS` where it is set and not empty, otherwise
/// `/usr/local/share` and `/usr/share`.
pub open spec fn search_roots(home: Option<Seq<u8>>, data_home: Option<Seq<u8>>, data_dirs: Option<Seq<u8>>) -> Result<Seq<Seq<u8>>, Seq<char>> {
    match environment_path_of("HOME"@, home) {
        Err(e) => Err(e),
        Ok(h) => {
            let first = match data_home {
                Some(d) => if is_absolute(d) { d } else { pushed(h, local_share_name()) },
                None => pushed(h, local_share_name()),
            };
            let rest = match data_dirs {
                Some(dirs) => if dirs.len() > 0 { absolute_paths(dirs) } else { seq![usr_local_share(), usr_share()] },
                None => seq![usr_local_share(), usr_share()],
            };
            Ok(seq![first] + rest)
        },
    }
}

pub fn application_search_roots(home: Option<&[u8]>, data_home: Option<&[u8]>, data_dirs: Option<&[u8]>) -> (result: Result<Vec<Vec<u8>>, DiscoveryFailure>)
    ensures
        match result {
            Ok(roots) => search_roots(optional_bytes(home), optional_bytes(data_home), optional_bytes(data_dirs))
                == Ok::<Seq<Seq<u8>>, Seq<char>>(paths_view(roots@)),
            Err(failure) => search_roots(optional_bytes(home), optional_bytes(data_home), optional_bytes(data_dirs))
                == Err::<Seq<Seq<u8>>, Seq<char>>(failure.reason()),
        },
{
    let h = environment_path("HOME", home)?;
    let local_share: Vec<u8> = vec![46u8, 108u8, 111u8, 99u8, 97u8, 108u8, 47u8, 115u8, 104u8, 97u8, 114u8, 101u8];
    assert(local_share@ =~= local_share_name());
    let first = match data_home {
        Some(d) => if d.len() > 0 && d[0] == SLASH { vstd::slice::slice_to_vec(d) } else { path_join(h.as_slice(), local_share.as_slice()) },
        None => path_join(h.as_slice(), local_share.as_slice()),
    };
    let rest = match data_dirs {
        Some(dirs) => if dirs.len() > 0 { split_absolute_paths(dirs) } else { default_data_dirs() },
        None => default_data_dirs(),
    };
    let mut roots: Vec<Vec<u8>> = Vec::new();
    let ghost f = first@;
    roots.push(first);
    let ghost rest_view = paths_view(rest@);
    let mut i: usize = 0;
    assert(paths_view(roots@) =~= seq![f] + rest_view.take(0));
    while i < rest.len()
        invariant
            0 <= i <= rest@.len(),
            rest_view == paths_view(rest@),
            paths_view(roots@) =~= seq![f] + rest_view.take(i as int),
        decreases rest@.len() - i,
    {
        let ghost before = paths_view(roots@);
        roots.push(rest[i].clone());
        assert(paths_view(roots@) =~= before.push(rest_view[i as int]));
        assert(rest_view.take(i + 1) =~= rest_view.take(i as int).push(rest_view[i as int]));
        i = i + 1;
    }
    assert(rest_view.take(rest@.len() as int) =~= rest_view);
    Ok(roots)
}

fn default_data_dirs() -> (dirs: Vec<Vec<u8>>)
    ensures
        paths_view(dirs@) == seq![usr_local_share(), usr_share()],
{
    let local: Vec<u8> = vec![47u8, 117u8, 115u8, 114u8, 47u8, 108u8, 111u8, 99u8, 97u8, 108u8, 47u8, 115u8, 104u8, 97u8, 114u8, 101u8];
    let share: Vec<u8> = vec![47u8, 117u8, 115u8, 114u8, 47u8, 115u8, 104u8, 97u8, 114u8, 101u8];
    assert(local@ =~= usr_local_share());
    assert(share@ =~= usr_share());
    let dirs = vec![local, share];
    assert(paths_view(dirs@) =~= seq![usr_local_share(), usr_share()]);
    dirs
}

/// The launcher paths to try for an executable given by name: each absolute entry of `PATH`
/// joined with it. An absolute executable is its own only candidate.
pub open spec fn launcher_candidates_of(executable: Seq<u8>, path_variable: Option<Seq<u8>>) -> Result<Seq<Seq<u8>>, Seq<char>> {
    if is_absolute(executable) {
        Ok(seq![executable])
    } else {
        match path_variable {
            None => Err("PATH is unavailable for Desktop launcher resolution"@),
            Some(list) => Ok(absolute_paths(list).map_values(|root: Seq<u8>| pushed(root, executable))),
        }
    }
}

pub fn launcher_candidates(executable: &[u8], path_variable: Option<&[u8]>) -> (result: Result<Vec<Vec<u8>>, DiscoveryFailure>)
    ensures
        match result {
            Ok(candidates) => launcher_candidates_of(executable@, optional_bytes(path_variable))
                == Ok::<Seq<Seq<u8>>, Seq<char>>(paths_view(candidates@)),
            Err(failure) => launcher_candidates_of(executable@, optional_bytes(path_variable))
                == Err::<Seq<Seq<u8>>, Seq<char>>(failure.reason()),
        },
{
    if executable.len() > 0 && executable[0] == SLASH {
        let only = vec![vstd::slice::slice_to_vec(executable)];
        assert(paths_view(only@) =~= seq![executable@]);
        return Ok(only);
    }
    let list = match path_variable {
        None => {
            return Err(DiscoveryFailure::unavailable("PATH is unavailable for Desktop launcher resolution"));
        },
        Some(list) => list,
    };
    let roots = split_absolute_paths(list);
    let ghost rv = paths_view(roots@);
    let mut candidates: Vec<Vec<u8>> = Vec::new();
    let mut i: usize = 0;
    while i < roots.len()
        invariant
            0 <= i <= roots@.len(),
            rv == paths_view(roots@),
            paths_view(candidates@) =~= rv.take(i as int).map_values(|root: Seq<u8>| pushed(root, executable@)),
        decreases roots@.len() - i,
    {
        let ghost before = paths_view(candidates@);
        let candidate = path_join(roots[i].as_slice(), executable);
        candidates.push(candidate);
        assert(paths_view(candidates@) =~= before.push(pushed(rv[i as int], executable@)));
        assert(rv.take(i + 1).map_values(|root: Seq<u8>| pushed(root, executable@))
            =~= rv.take(i as int).map_values(|root: Seq<u8>| pushed(root, executable@)).push(pushed(rv[i as int], executable@)));
        i = i + 1;
    }
    assert(rv.take(roots@.len() as int) =~= rv);
    Ok(candidates)
}

/// What the build information must show: an application id that is one safe path
/// component, and the attachment capability.
pub open spec fn build_info_check(app_id: Option<Seq<char>>, capability_present: bool) -> Result<Seq<char>, Seq<char>> {
    match app_id {
        None => Err("Desktop build-info has no appIdentity.id"@),
        Some(id) => if !capability_present {
            Err("Desktop build-info lacks the attachment capability"@)
        } else if !is_safe_app_id(id) {
            Err(UNSAFE_APP_ID@)
        } else {
            Ok(id)
        },
    }
}

pub fn build_info_verdict(app_id: Option<&str>, capability_present: bool) -> (result: Result<String, DiscoveryFailure>)
    ensures
        match result {
            Ok(id) => build_info_check(match app_id { Some(a) => Some(a@), None => None }, capability_present) == Ok::<Seq<char>, Seq<char>>(id@),
            Err(failure) => build_info_check(match app_id { Some(a) => Some(a@), None => None }, capability_present)
                == Err::<Seq<char>, Seq<char>>(failure.reason()),
        },
{
    let id = match app_id {
        None => {
            return Err(DiscoveryFailure::unavailable("Desktop build-info has no appIdentity.id"));
        },
        Some(id) => id,
    };
    if !capability_present {
        return Err(DiscoveryFailure::unavailable("Desktop build-info lacks the attachment capability"));
    }
    validate_app_id(id)?;
    Ok(id.to_owned())
}

/// Whether a capability list entry names the attachment capability.
pub fn is_attachment_capability(capability: &str) -> (r: bool)
    ensures
        r == (capability@ == DESKTOP_CAPABILITY@),
{
    capability.to_owned() == DESKTOP_CAPABILITY.to_owned()
}

/// The build information that the launcher prints, as `serde_json` reads its standard output:
/// `None` where it is not one JSON object; otherwise `appIdentity.id` where it is a string, and
/// the entries of `linuxCapabilities` (each where it is a string) where it is an array.
pub uninterp spec fn json_build_info(stdout: Seq<u8>) -> Option<(Option<Seq<char>>, Option<Seq<Option<Seq<char>>>>)>;

/// The build information that the wrapper hands back, by its views.
pub open spec fn build_info_view(info: Option<(Option<String>, Option<Vec<Option<String>>>)>) -> Option<
    (Option<Seq<char>>, Option<Seq<Option<Seq<char>>>>),
> {
    match info {
        None => None,
        Some((id, capabilities)) => Some(
            (
                optional_text(id),
                match capabilities {
                    None => None,
                    Some(list) => Some(list@.map_values(|c: Option<String>| optional_text(c))),
                },
            ),
        ),
    }
}

pub open spec fn optional_text(value: Option<String>) -> Option<Seq<char>> {
    match value {
        Some(v) => Some(v@),
        None => None,
    }
}

/// `serde_json::from_slice::<Value>` on the launcher's standard output, then `as_object`,
/// `appIdentity.id` and the entries of `linuxCapabilities` picked off with `get`,
/// `as_object`, `as_array` and `as_str`. The result is named (`json_build_info`):
/// `serde_json`'s grammar is not restated here.
#[verifier::external_body]
pub(crate) fn read_build_info(stdout: &[u8]) -> (info: Option<(Option<String>, Option<Vec<Option<String>>>)>)
    ensures
        build_info_view(info) == json_build_info(stdout@),
{
    let value: serde_json::Value = serde_json::from_slice(stdout).ok()?;
    let object = value.as_object()?;
    let identity = object.get("appIdentity").and_then(serde_json::Value::as_object);
    let id = identity.and_then(|identity| identity.get("id")).and_then(serde_json::Value::as_str).map(str::to_owned);
    let list = object.get("linuxCapabilities").and_then(serde_json::Value::as_array);
    Some((id, list.map(|list| list.iter().map(|c| c.as_str().map(str::to_owned)).collect())))
}

/// Whether the capability list names the attachment capability.
pub open spec fn lists_capability(capabilities: Option<Seq<Option<Seq<char>>>>) -> bool {
    match capabilities {
        Some(list) => exists|i: int| 0 <= i < list.len() && #[trigger] list[i] == Some(DESKTOP_CAPABILITY@),
        None => false,
    }
}

/// What the build-information command came to: a failed command, output that is not one
/// JSON object, or the verdict on its application id and capabilities.
pub open spec fn build_info_outcome(
    succeeded: bool,
    info: Option<(Option<Seq<char>>, Option<Seq<Option<Seq<char>>>>)>,
) -> Result<Seq<char>, Seq<char>> {
    if !succeeded {
        Err("Desktop build-info command failed"@)
    } else {
        match info {
            None => Err("Desktop build-info is not one complete JSON object"@),
            Some((id, capabilities)) => build_info_check(id, lists_capability(capabilities)),
        }
    }
}

/// The attachment capability counts wherever it stands in `linuxCapabilities`, among any
/// other entries before or after it; a list without it, or no list, lacks it.
pub proof fn capability_counts_wherever_it_stands(
    id: Option<Seq<char>>,
    before: Seq<Option<Seq<char>>>,
    after: Seq<Option<Seq<char>>>,
    others: Seq<Option<Seq<char>>>,
)
    ensures
        build_info_outcome(true, Some((id, Some(before + seq![Some(DESKTOP_CAPABILITY@)] + after))))
            == build_info_check(id, true),
        (forall|i: int| 0 <= i < others.len() ==> others[i] != Some(DESKTOP_CAPABILITY@)) ==> build_info_outcome(
            true,
            Some((id, Some(others))),
        ) == build_info_check(id, false),
        build_info_outcome(true, Some((id, None))) == build_info_check(id, false),
{
    let list = before + seq![Some(DESKTOP_CAPABILITY@)] + after;
    assert(list[before.len() as int] == Some(DESKTOP_CAPABILITY@));
}

/// The application id that the launcher's build-information command reports, from whether
/// the command succeeded and its standard output.
pub fn build_info_from_output(succeeded: bool, stdout: &[u8]) -> (result: Result<String, DiscoveryFailure>)
    ensures
        match result {
            Ok(id) => build_info_outcome(succeeded, json_build_info(stdout@)) == Ok::<Seq<char>, Seq<char>>(id@),
            Err(failure) => build_info_outcome(succeeded, json_build_info(stdout@))
                == Err::<Seq<char>, Seq<char>>(failure.reason()),
        },
{
    if !succeeded {
        return Err(DiscoveryFailure::unavailable("Desktop build-info command failed"));
    }
    let (id, capabilities) = match read_build_info(stdout) {
        None => {
            return Err(DiscoveryFailure::unavailable("Desktop build-info is not one complete JSON object"));
        },
        Some(info) => info,
    };
    let mut present = false;
    if let Some(list) = &capabilities {
        let ghost view = list@.map_values(|c: Option<String>| optional_text(c));
        let mut i: usize = 0;
        while i < list.len()
            invariant
                0 <= i <= list@.len(),
                view == list@.map_values(|c: Option<String>| optional_text(c)),
                present == exists|j: int| 0 <= j < i && #[trigger] view[j] == Some(DESKTOP_CAPABILITY@),
            decreases list@.len() - i,
        {
            if let Some(capability) = &list[i] {
                if is_attachment_capability(capability.as_str()) {
                    present = true;
                }
            }
            assert(view[i as int] == optional_text(list@[i as int]));
            i = i + 1;
        }
    }
    let id_text: Option<&str> = match &id {
        Some(v) => Some(v.as_str()),
        None => None,
    };
    build_info_verdict(id_text, present)
}

} // verus!
