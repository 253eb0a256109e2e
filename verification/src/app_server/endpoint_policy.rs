//! What the session controller accepts of an initialized app-server: its Codex home, its
//! version, the storage of a thread, and the ownership of the files it serves through.
use vstd::prelude::*;

use crate::paths::{
    bytes_equal, components, is_absolute, is_normalized_absolute, is_normalized_absolute_path, parts_equal,
    path_parts, Part, PathPart, SLASH,
};
use crate::text::{ascii_alphanumeric, chars_of, find_from, is_ascii_alphanumeric};
use crate::version::Version;

verus! {

/// `semver::Version::parse`: the fields of the version that the text spells, if it is one.
pub uninterp spec fn semver_parse(text: Seq<char>) -> Option<(u64, u64, u64, Seq<char>, Seq<char>)>;

/// The version that `semver::Version::parse` reads from the text; the crate's grammar is
/// not restated here, only named.
#[verifier::external_body]
pub(crate) fn parse_semver(text: &str) -> (version: Option<Version>)
    ensures
        match version {
            Some(v) => semver_parse(text@) == Some((v.major, v.minor, v.patch, v.pre@, v.build@)),
            None => semver_parse(text@) is None,
        },
{
    match semver::Version::parse(text) {
        Ok(v) => Some(Version {
            major: v.major,
            minor: v.minor,
            patch: v.patch,
            pre: v.pre.as_str().to_owned(),
            build: v.build.as_str().to_owned(),
        }),
        Err(_) => None,
    }
}

/// The characters that a version candidate in a user agent may hold.
pub open spec fn is_version_char(c: char) -> bool {
    is_ascii_alphanumeric(c) || c == '.' || c == '-' || c == '+'
}

/// The index of the first character at or after `i` that ends a candidate.
pub open spec fn candidate_end(s: Seq<char>, i: int) -> int
    decreases s.len() - i,
{
    if i >= s.len() || i < 0 {
        s.len() as int
    } else if !is_version_char(s[i]) {
        i
    } else {
        candidate_end(s, i + 1)
    }
}

/// The text of the first candidate, from `i` on, that parses as a version.
pub open spec fn first_version_from(s: Seq<char>, i: int) -> Option<Seq<char>>
    decreases s.len() - i + 1,
{
    if i < 0 || i > s.len() {
        None
    } else {
        let end = candidate_end(s, i);
        proof {
            lemma_candidate_end(s, i);
        }
        match semver_parse(s.subrange(i, end)) {
            Some((major, minor, patch, pre, build)) => Some(crate::version::version_text(major, minor, patch, pre, build)),
            None => if end >= s.len() {
                None
            } else {
                first_version_from(s, end + 1)
            },
        }
    }
}

pub proof fn lemma_candidate_end(s: Seq<char>, i: int)
    requires
        0 <= i <= s.len(),
    ensures
        i <= candidate_end(s, i) <= s.len(),
        forall|k: int| i <= k < candidate_end(s, i) ==> is_version_char(#[trigger] s[k]),
        candidate_end(s, i) < s.len() ==> !is_version_char(s[candidate_end(s, i)]),
    decreases s.len() - i,
{
    if i < s.len() && is_version_char(s[i]) {
        lemma_candidate_end(s, i + 1);
    }
}

proof fn lemma_candidate_end_shift(prefix: Seq<char>, rest: Seq<char>, k: int)
    requires
        0 <= k <= rest.len(),
    ensures
        candidate_end(prefix + rest, prefix.len() + k) == prefix.len() + candidate_end(rest, k),
    decreases rest.len() - k,
{
    let s = prefix + rest;
    if k < rest.len() {
        assert(s[prefix.len() + k] == rest[k]);
        if is_version_char(rest[k]) {
            lemma_candidate_end_shift(prefix, rest, k + 1);
        }
    }
}

proof fn lemma_first_version_shift(prefix: Seq<char>, rest: Seq<char>, k: int)
    requires
        0 <= k <= rest.len(),
    ensures
        first_version_from(prefix + rest, prefix.len() + k) == first_version_from(rest, k),
    decreases rest.len() - k,
{
    let s = prefix + rest;
    let i = prefix.len() + k;
    lemma_candidate_end_shift(prefix, rest, k);
    lemma_candidate_end(rest, k);
    let end = candidate_end(rest, k);
    assert(s.subrange(i, prefix.len() + end) =~= rest.subrange(k, end));
    if end < rest.len() {
        lemma_first_version_shift(prefix, rest, end + 1);
    }
}

/// A piece of a user agent: ASCII letters, digits, `.`, `-` or `+`.
pub open spec fn is_version_piece(piece: Seq<char>) -> bool {
    forall|j: int|
        0 <= j < piece.len() ==> is_ascii_alphanumeric(#[trigger] piece[j]) || piece[j] == '.' || piece[j] == '-'
            || piece[j] == '+'
}

/// The version in a user agent is the earliest piece that parses: where the first piece (up
/// to the first character other than ASCII letters, digits, `.`, `-` and `+`) parses, it is
/// that version whatever follows; where it does not parse, it is the version in what follows.
/// A user agent that is one piece gives that piece's version, if it parses.
pub proof fn earliest_parseable_piece_wins(piece: Seq<char>, separator: char, rest: Seq<char>)
    requires
        is_version_piece(piece),
        !(is_ascii_alphanumeric(separator) || separator == '.' || separator == '-' || separator == '+'),
    ensures
        first_version_from(piece + seq![separator] + rest, 0) == match semver_parse(piece) {
            Some((major, minor, patch, pre, build)) => Some(crate::version::version_text(major, minor, patch, pre, build)),
            None => first_version_from(rest, 0),
        },
        first_version_from(piece, 0) == match semver_parse(piece) {
            Some((major, minor, patch, pre, build)) => Some(crate::version::version_text(major, minor, patch, pre, build)),
            None => None::<Seq<char>>,
        },
{
    let s = piece + seq![separator] + rest;
    assert forall|k: int| 0 <= k < piece.len() implies s[k] == piece[k] && is_version_char(s[k]) by {
        assert(is_ascii_alphanumeric(piece[k]) || piece[k] == '.' || piece[k] == '-' || piece[k] == '+');
    }
    assert(s[piece.len() as int] == separator);
    lemma_prefix_candidate_end(s, piece.len() as int, 0);
    assert(s.subrange(0, piece.len() as int) =~= piece);
    let head = piece + seq![separator];
    assert(s =~= head + rest);
    lemma_first_version_shift(head, rest, 0);
    assert forall|k: int| 0 <= k < piece.len() implies is_version_char(piece[k]) by {
        assert(is_ascii_alphanumeric(piece[k]) || piece[k] == '.' || piece[k] == '-' || piece[k] == '+');
    }
    lemma_prefix_candidate_end(piece, piece.len() as int, 0);
    assert(piece.subrange(0, piece.len() as int) =~= piece);
}

proof fn lemma_prefix_candidate_end(s: Seq<char>, n: int, k: int)
    requires
        0 <= k <= n <= s.len(),
        forall|j: int| 0 <= j < n ==> is_version_char(#[trigger] s[j]),
        n < s.len() ==> !is_version_char(s[n]),
    ensures
        candidate_end(s, k) == n,
    decreases n - k,
{
    if k < n {
        lemma_prefix_candidate_end(s, n, k + 1);
    }
}

/// The Codex version in a user agent: the first piece between characters other than ASCII
/// letters, digits, `.`, `-` and `+` that parses as a version, in its canonical text.
pub fn extract_codex_version(user_agent: &str) -> (version: Option<String>)
    ensures
        match version {
            Some(v) => first_version_from(user_agent@, 0) == Some(v@),
            None => first_version_from(user_agent@, 0) is None,
        },
{
    let s = chars_of(user_agent);
    let n = s.len();
    let mut i: usize = 0;
    loop
        invariant
            s@ == user_agent@,
            n == s@.len(),
            0 <= i <= n,
            first_version_from(s@, i as int) == first_version_from(s@, 0),
        decreases n - i,
    {
        let mut end = i;
        while end < n && (ascii_alphanumeric(s[end]) || s[end] == '.' || s[end] == '-' || s[end] == '+')
            invariant
                n == s@.len(),
                i <= end <= n,
                candidate_end(s@, i as int) == candidate_end(s@, end as int),
            decreases n - end,
        {
            end = end + 1;
        }
        let candidate = crate::text::string_of(&s.as_slice()[i..end]);
        assert(candidate@ == s@.subrange(i as int, end as int));
        match parse_semver(candidate.as_str()) {
            Some(v) => {
                return Some(v.to_text());
            },
            None => {},
        }
        if end >= n {
            return None;
        }
        i = end + 1;
    }
}

/// Where an app-server keeps a thread.
#[derive(Clone, Copy, Debug, PartialEq, Eq, Structural)]
pub enum ThreadStorage {
    Active,
    Archived,
}

/// A path given as text is absolute when it starts with `/`.
pub open spec fn is_absolute_text(text: Seq<char>) -> bool {
    text.len() > 0 && text[0] == '/'
}

/// What an app-server reported of itself when it was initialized.
#[derive(Debug)]
pub struct InitializedIdentity {
    pub codex_home: Option<String>,
    pub reported_version: Option<String>,
}

pub open spec fn optional_text(value: Option<String>) -> Option<Seq<char>> {
    match value {
        Some(v) => Some(v@),
        None => None,
    }
}

impl InitializedIdentity {
    /// Keeps the Codex home only where it is a non-empty absolute path, and the version that
    /// the user agent names.
    pub fn from_initialize(codex_home: Option<&str>, user_agent: Option<&str>) -> (identity: Self)
        ensures
            optional_text(identity.codex_home) == (match codex_home {
                Some(home) => if is_absolute_text(home@) { Some(home@) } else { None },
                None => None,
            }),
            optional_text(identity.reported_version) == (match user_agent {
                Some(agent) => first_version_from(agent@, 0),
                None => None,
            }),
    {
        let home = match codex_home {
            Some(home) => {
                let characters = chars_of(home);
                if characters.len() > 0 && characters[0] == '/' {
                    Some(home.to_owned())
                } else {
                    None
                }
            },
            None => None,
        };
        let version = match user_agent {
            Some(agent) => extract_codex_version(agent),
            None => None,
        };
        InitializedIdentity { codex_home: home, reported_version: version }
    }

    pub fn ordinary_codex_home(&self) -> (home: Option<&String>)
        ensures
            home == match self.codex_home {
                Some(h) => Some(&h),
                None => None::<&String>,
            },
    {
        self.codex_home.as_ref()
    }

    pub fn reported_version(&self) -> (version: Option<&String>)
        ensures
            version == match self.reported_version {
                Some(v) => Some(&v),
                None => None::<&String>,
            },
    {
        self.reported_version.as_ref()
    }

    /// The home in which a recovery may act: refused as `identity_unverified` unless the home
    /// is a normalized absolute path and a version was reported, and as `version_unsupported`
    /// unless that version is the expected one.
    pub open spec fn recovery(&self, expected: Seq<char>) -> Result<Seq<char>, Seq<char>> {
        match self.codex_home {
            None => Err("identity_unverified"@),
            Some(home) => if !is_normalized_absolute(utf8_of(home@)) || self.reported_version is None {
                Err("identity_unverified"@)
            } else if self.reported_version->0@ != expected {
                Err("version_unsupported"@)
            } else {
                Ok(home@)
            },
        }
    }

    pub fn recovery_home(&self, expected_version: &str) -> (home: Result<String, &'static str>)
        ensures
            match home {
                Ok(h) => self.recovery(expected_version@) == Ok::<Seq<char>, Seq<char>>(h@),
                Err(reason) => self.recovery(expected_version@) == Err::<Seq<char>, Seq<char>>(reason@),
            },
    {
        let codex_home = match &self.codex_home {
            None => {
                return Err("identity_unverified");
            },
            Some(home) => home,
        };
        let bytes = codex_home.as_str().as_bytes();
        assert(bytes@ == utf8_of(codex_home@));
        if !is_normalized_absolute_path(bytes) || self.reported_version.is_none() {
            return Err("identity_unverified");
        }
        let matches = match &self.reported_version {
            Some(version) => *version == expected_version.to_owned(),
            None => false,
        };
        if !matches {
            return Err("version_unsupported");
        }
        Ok(codex_home.clone())
    }
}

/// The UTF-8 bytes of a text.
pub open spec fn utf8_of(text: Seq<char>) -> Seq<u8> {
    vstd::utf8::encode_utf8(text)
}

/// A directory that the effective user owns, with mode exactly `0700`.
pub open spec fn is_owned_private_directory(owner: u32, mode: u32, euid: u32, is_directory: bool) -> bool {
    owner == euid && is_directory && mode & 0o7777 == 0o700
}

pub fn owned_private_directory(owner: u32, mode: u32, euid: u32, is_directory: bool) -> (r: bool)
    ensures
        r == is_owned_private_directory(owner, mode, euid, is_directory),
{
    owner == euid && is_directory && mode & 0o7777 == 0o700
}

/// A socket that the effective user owns, with mode `0600` or `0700`.
pub open spec fn is_owned_private_socket(owner: u32, mode: u32, euid: u32, is_socket: bool) -> bool {
    owner == euid && is_socket && (mode & 0o7777 == 0o600 || mode & 0o7777 == 0o700)
}

pub fn owned_private_socket(owner: u32, mode: u32, euid: u32, is_socket: bool) -> (r: bool)
    ensures
        r == is_owned_private_socket(owner, mode, euid, is_socket),
{
    owner == euid && is_socket && (mode & 0o7777 == 0o600 || mode & 0o7777 == 0o700)
}

/// The bytes of `sessions`.
pub open spec fn sessions_name() -> Seq<u8> {
    seq![115u8, 101u8, 115u8, 115u8, 105u8, 111u8, 110u8, 115u8]
}

/// The bytes of `archived_sessions`.
pub open spec fn archived_sessions_name() -> Seq<u8> {
    seq![97u8, 114u8, 99u8, 104u8, 105u8, 118u8, 101u8, 100u8, 95u8] + sessions_name()
}

fn sessions_bytes() -> (v: Vec<u8>)
    ensures
        v@ == sessions_name(),
{
    let v: Vec<u8> = vec![115u8, 101u8, 115u8, 115u8, 105u8, 111u8, 110u8, 115u8];
    assert(v@ =~= sessions_name());
    v
}

fn archived_sessions_bytes() -> (v: Vec<u8>)
    ensures
        v@ == archived_sessions_name(),
{
    let v: Vec<u8> = vec![97u8, 114u8, 99u8, 104u8, 105u8, 118u8, 101u8, 100u8, 95u8, 115u8, 101u8, 115u8, 115u8, 105u8, 111u8, 110u8, 115u8];
    assert(v@ =~= archived_sessions_name());
    v
}

/// A component below the storage directory: a name other than the two storage names.
pub open spec fn is_rollout_part(part: Part) -> bool {
    part matches Part::Normal(name) && name != sessions_name() && name != archived_sessions_name()
}

/// The storage of a thread whose rollout file is at `path`: the reported id must be the
/// expected one, and the path must be `codex_home`, then `sessions` or `archived_sessions`,
/// then one or more other names.
pub open spec fn thread_storage(home: Seq<u8>, expected: Seq<char>, reported: Option<Seq<char>>, path: Seq<u8>) -> Result<ThreadStorage, Seq<char>> {
    let hp = path_parts(home);
    let pp = path_parts(path);
    let rest = pp.skip(hp.len() as int);
    if reported != Some(expected) {
        Err("mismatched_id"@)
    } else if !is_absolute(path) || hp.len() > pp.len() || pp.take(hp.len() as int) != hp || rest.len() < 2
        || !(forall|i: int| 1 <= i < rest.len() ==> is_rollout_part(#[trigger] rest[i])) {
        Err("unclassifiable_storage"@)
    } else if rest[0] == Part::Normal(sessions_name()) {
        Ok(ThreadStorage::Active)
    } else if rest[0] == Part::Normal(archived_sessions_name()) {
        Ok(ThreadStorage::Archived)
    } else {
        Err("unclassifiable_storage"@)
    }
}

pub fn classify_thread_storage(codex_home: &[u8], expected_id: &str, reported_id: Option<&str>, path: &[u8]) -> (storage: Result<ThreadStorage, &'static str>)
    ensures
        match storage {
            Ok(s) => thread_storage(codex_home@, expected_id@, match reported_id { Some(r) => Some(r@), None => None }, path@)
                == Ok::<ThreadStorage, Seq<char>>(s),
            Err(reason) => thread_storage(codex_home@, expected_id@, match reported_id { Some(r) => Some(r@), None => None }, path@)
                == Err::<ThreadStorage, Seq<char>>(reason@),
        },
{
    let same_id = match reported_id {
        Some(reported) => reported.to_owned() == expected_id.to_owned(),
        None => false,
    };
    if !same_id {
        return Err("mismatched_id");
    }
    if !(path.len() > 0 && path[0] == SLASH) {
        return Err("unclassifiable_storage");
    }
    let home_parts = components(codex_home);
    let path_parts_exec = components(path);
    let ghost hp = path_parts(codex_home@);
    let ghost pp = path_parts(path@);
    let ghost reported = match reported_id { Some(r) => Some(r@), None => None::<Seq<char>> };
    assert(reported == Some(expected_id@));
    assert(is_absolute(path@));
    let h = home_parts.len();
    let n = path_parts_exec.len();
    assert(crate::paths::parts_view(home_parts@).len() == h);
    assert(crate::paths::parts_view(path_parts_exec@).len() == n);
    if h > n {
        return Err("unclassifiable_storage");
    }
    let mut i: usize = 0;
    while i < h
        invariant
            hp == crate::paths::parts_view(home_parts@),
            pp == crate::paths::parts_view(path_parts_exec@),
            hp == path_parts(codex_home@),
            pp == path_parts(path@),
            reported == Some(expected_id@),
            reported == (match reported_id { Some(r) => Some(r@), None => None::<Seq<char>> }),
            is_absolute(path@),
            h == hp.len(),
            n == pp.len(),
            h <= n,
            0 <= i <= h,
            forall|k: int| 0 <= k < i ==> pp[k] == hp[k],
        decreases h - i,
    {
        if !parts_equal(&path_parts_exec[i], &home_parts[i]) {
            assert(pp.take(h as int)[i as int] != hp[i as int]);
            return Err("unclassifiable_storage");
        }
        i = i + 1;
    }
    assert(pp.take(h as int) =~= hp);
    let ghost rest = pp.skip(h as int);
    if n - h < 2 {
        return Err("unclassifiable_storage");
    }
    let sessions = sessions_bytes();
    let archived = archived_sessions_bytes();
    let mut j: usize = h + 1;
    while j < n
        invariant
            pp == crate::paths::parts_view(path_parts_exec@),
            hp == path_parts(codex_home@),
            pp == path_parts(path@),
            reported == Some(expected_id@),
            reported == (match reported_id { Some(r) => Some(r@), None => None::<Seq<char>> }),
            is_absolute(path@),
            h == hp.len(),
            pp.take(h as int) == hp,
            rest == pp.skip(h as int),
            n == pp.len(),
            h + 1 <= j <= n,
            sessions@ == sessions_name(),
            archived@ == archived_sessions_name(),
            forall|k: int| 1 <= k < j - h ==> is_rollout_part(#[trigger] rest[k]),
        decreases n - j,
    {
        assert(rest[j - h] == path_parts_exec@[j as int]@);
        match &path_parts_exec[j] {
            PathPart::Normal(name) => {
                if bytes_equal(name.as_slice(), sessions.as_slice()) || bytes_equal(name.as_slice(), archived.as_slice()) {
                    assert(!is_rollout_part(rest[j - h]));
                    return Err("unclassifiable_storage");
                }
            },
            _ => {
                assert(!is_rollout_part(rest[j - h]));
                return Err("unclassifiable_storage");
            },
        }
        j = j + 1;
    }
    assert(rest[0] == path_parts_exec@[h as int]@);
    match &path_parts_exec[h] {
        PathPart::Normal(name) => {
            if bytes_equal(name.as_slice(), sessions.as_slice()) {
                Ok(ThreadStorage::Active)
            } else if bytes_equal(name.as_slice(), archived.as_slice()) {
                Ok(ThreadStorage::Archived)
            } else {
                Err("unclassifiable_storage")
            }
        },
        _ => Err("unclassifiable_storage"),
    }
}

} // verus!
