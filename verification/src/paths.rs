//! Lexical Unix paths, held as the bytes of the operating-system string.
use vstd::prelude::*;

verus! {

/// The path separator byte.
pub const SLASH: u8 = 47;

/// The byte of a dot.
pub const DOT: u8 = 46;

/// One lexical component of a Unix path.
pub enum PathPart {
    Root,
    Current,
    Parent,
    Normal(Vec<u8>),
}

/// The mathematical form of a path component.
pub enum Part {
    Root,
    Current,
    Parent,
    Normal(Seq<u8>),
}

impl View for PathPart {
    type V = Part;

    open spec fn view(&self) -> Part {
        match self {
            PathPart::Root => Part::Root,
            PathPart::Current => Part::Current,
            PathPart::Parent => Part::Parent,
            PathPart::Normal(name) => Part::Normal(name@),
        }
    }
}

pub open spec fn parts_view(parts: Seq<PathPart>) -> Seq<Part> {
    parts.map_values(|part: PathPart| part@)
}

/// A path is absolute when it starts with a separator.
pub open spec fn is_absolute(p: Seq<u8>) -> bool {
    p.len() > 0 && p[0] == SLASH
}

/// The component that a separator-free piece contributes: empty pieces and `.` vanish.
pub open spec fn piece_part(piece: Seq<u8>) -> Seq<Part> {
    if piece.len() == 0 || piece =~= seq![DOT] {
        Seq::empty()
    } else if piece =~= seq![DOT, DOT] {
        seq![Part::Parent]
    } else {
        seq![Part::Normal(piece)]
    }
}

/// The components of the rest of a path, given the piece read so far.
pub open spec fn parts_after(rest: Seq<u8>, piece: Seq<u8>) -> Seq<Part>
    decreases rest.len(),
{
    if rest.len() == 0 {
        piece_part(piece)
    } else if rest[0] == SLASH {
        piece_part(piece) + parts_after(rest.drop_first(), Seq::empty())
    } else {
        parts_after(rest.drop_first(), piece.push(rest[0]))
    }
}

/// A relative path that starts with a lone `.` keeps it as its first component.
pub open spec fn starts_with_current(p: Seq<u8>) -> bool {
    p.len() > 0 && p[0] == DOT && (p.len() == 1 || p[1] == SLASH)
}

/// The components of a Unix path: a root, a leading `.`, then the pieces between
/// separators without empty pieces and without `.`.
pub open spec fn path_parts(p: Seq<u8>) -> Seq<Part> {
    let head: Seq<Part> = if is_absolute(p) {
        seq![Part::Root]
    } else if starts_with_current(p) {
        seq![Part::Current]
    } else {
        Seq::empty()
    };
    head + parts_after(p, Seq::empty())
}

fn push_piece(parts: &mut Vec<PathPart>, piece: Vec<u8>)
    ensures
        parts_view(final(parts)@) == parts_view(old(parts)@) + piece_part(piece@),
{
    let n = piece.len();
    if n == 0 || (n == 1 && piece[0] == DOT) {
        assert(piece_part(piece@) =~= Seq::<Part>::empty()) by {
            if n == 1 {
                assert(piece@ =~= seq![DOT]);
            }
        }
        assert(parts_view(parts@) + Seq::<Part>::empty() =~= parts_view(parts@));
    } else if n == 2 && piece[0] == DOT && piece[1] == DOT {
        assert(piece@ =~= seq![DOT, DOT]);
        parts.push(PathPart::Parent);
        assert(parts_view(parts@) =~= parts_view(old(parts)@) + seq![Part::Parent]);
    } else {
        assert(!(piece@ =~= seq![DOT]) && !(piece@ =~= seq![DOT, DOT])) by {
            if piece@ =~= seq![DOT] {
                assert(piece@.len() == 1);
            }
            if piece@ =~= seq![DOT, DOT] {
                assert(piece@.len() == 2 && piece@[0] == DOT && piece@[1] == DOT);
            }
        }
        let ghost name = piece@;
        parts.push(PathPart::Normal(piece));
        assert(parts_view(parts@) =~= parts_view(old(parts)@) + seq![Part::Normal(name)]);
    }
}

/// The components of a path, as `Path::components` yields them on Unix.
pub fn components(p: &[u8]) -> (parts: Vec<PathPart>)
    ensures
        parts_view(parts@) == path_parts(p@),
{
    let mut parts: Vec<PathPart> = Vec::new();
    let n = p.len();
    if n > 0 && p[0] == SLASH {
        parts.push(PathPart::Root);
    } else if n > 0 && p[0] == DOT && (n == 1 || p[1] == SLASH) {
        parts.push(PathPart::Current);
    }
    let ghost head = parts_view(parts@);
    assert(head + parts_after(p@, Seq::empty()) == path_parts(p@));
    let mut piece: Vec<u8> = Vec::new();
    let mut i: usize = 0;
    assert(p@.skip(0) =~= p@);
    while i < n
        invariant
            n == p@.len(),
            0 <= i <= n,
            parts_view(parts@) + parts_after(p@.skip(i as int), piece@) == path_parts(p@),
        decreases n - i,
    {
        let ghost rest = p@.skip(i as int);
        assert(rest.drop_first() =~= p@.skip(i + 1));
        if p[i] == SLASH {
            let finished = piece;
            piece = Vec::new();
            push_piece(&mut parts, finished);
        } else {
            piece.push(p[i]);
        }
        i = i + 1;
    }
    assert(p@.skip(n as int) =~= Seq::<u8>::empty());
    push_piece(&mut parts, piece);
    assert(parts_view(parts@) =~= path_parts(p@));
    parts
}

/// The last component when it is a normal name, as `Path::file_name` gives it.
pub open spec fn file_name(p: Seq<u8>) -> Option<Seq<u8>> {
    let parts = path_parts(p);
    if parts.len() > 0 && parts.last() is Normal {
        Some(parts.last()->Normal_0)
    } else {
        None
    }
}

pub fn path_file_name(p: &[u8]) -> (name: Option<Vec<u8>>)
    ensures
        match name {
            Some(n) => file_name(p@) == Some(n@),
            None => file_name(p@) is None,
        },
{
    let mut parts = components(p);
    let n = parts.len();
    if n == 0 {
        return None;
    }
    let ghost all = parts@;
    let last = parts.pop();
    assert(parts_view(all)[n - 1] == all[n - 1]@);
    match last {
        Some(PathPart::Normal(name)) => Some(name),
        _ => None,
    }
}

/// Whether `a` ends with `b`.
pub open spec fn ends_with(a: Seq<u8>, b: Seq<u8>) -> bool {
    a.len() >= b.len() && a.subrange(a.len() - b.len(), a.len() as int) =~= b
}

pub fn bytes_end_with(a: &[u8], b: &[u8]) -> (r: bool)
    ensures
        r == ends_with(a@, b@),
{
    if a.len() < b.len() {
        return false;
    }
    let offset = a.len() - b.len();
    let mut i: usize = 0;
    while i < b.len()
        invariant
            offset == a@.len() - b@.len(),
            a@.len() >= b@.len(),
            offset + b@.len() <= usize::MAX,
            0 <= i <= b@.len(),
            forall|k: int| 0 <= k < i ==> a@[offset + k] == b@[k],
        decreases b@.len() - i,
    {
        if a[offset + i] != b[i] {
            assert(a@.subrange(offset as int, a@.len() as int)[i as int] != b@[i as int]);
            return false;
        }
        i = i + 1;
    }
    assert(a@.subrange(offset as int, a@.len() as int) =~= b@);
    true
}

/// The bytes of `.desktop`.
pub open spec fn desktop_suffix() -> Seq<u8> {
    seq![46u8, 100u8, 101u8, 115u8, 107u8, 116u8, 111u8, 112u8]
}

fn desktop_suffix_bytes() -> (v: Vec<u8>)
    ensures
        v@ == desktop_suffix(),
{
    let v: Vec<u8> = vec![46u8, 100u8, 101u8, 115u8, 107u8, 116u8, 111u8, 112u8];
    assert(v@ =~= desktop_suffix());
    v
}

/// A file name has the extension `desktop` when it ends with `.desktop` after at least
/// one other byte: the text before the last dot of a name must not be empty.
pub open spec fn has_desktop_extension(name: Seq<u8>) -> bool {
    name.len() > desktop_suffix().len() && ends_with(name, desktop_suffix())
}

/// Whether the path names a Desktop entry file by its `desktop` extension.
pub open spec fn is_desktop_entry(p: Seq<u8>) -> bool {
    match file_name(p) {
        Some(name) => has_desktop_extension(name),
        None => false,
    }
}

pub fn is_desktop_entry_path(p: &[u8]) -> (r: bool)
    ensures
        r == is_desktop_entry(p@),
{
    match path_file_name(p) {
        Some(name) => {
            let suffix = desktop_suffix_bytes();
            name.len() > suffix.len() && bytes_end_with(&name, &suffix)
        },
        None => false,
    }
}

/// A normalized absolute path: a separator, then one or more non-empty names joined by
/// single separators, none of them `.` or `..`, and no trailing separator.
pub open spec fn is_normalized_absolute(p: Seq<u8>) -> bool {
    &&& p.len() >= 2
    &&& p[0] == SLASH
    &&& p[p.len() - 1] != SLASH
    &&& forall|i: int| 0 <= i < p.len() - 1 && p[i] == SLASH ==> #[trigger] name_starts_well(p, i + 1)
}

/// The name that starts at `j` is not empty, not `.` and not `..`.
pub open spec fn name_starts_well(p: Seq<u8>, j: int) -> bool {
    &&& p[j] != SLASH
    &&& !(p[j] == DOT && (j + 1 == p.len() || p[j + 1] == SLASH))
    &&& !(p[j] == DOT && j + 1 < p.len() && p[j + 1] == DOT && (j + 2 == p.len() || p[j + 2] == SLASH))
}

pub fn is_normalized_absolute_path(p: &[u8]) -> (r: bool)
    ensures
        r == is_normalized_absolute(p@),
{
    let n = p.len();
    if n < 2 || p[0] != SLASH || p[n - 1] == SLASH {
        return false;
    }
    let mut i: usize = 0;
    while i < n - 1
        invariant
            n == p@.len(),
            n >= 2,
            0 <= i <= n - 1,
            forall|k: int| 0 <= k < i && p@[k] == SLASH ==> #[trigger] name_starts_well(p@, k + 1),
        decreases n - 1 - i,
    {
        if p[i] == SLASH {
            let j = i + 1;
            let well = p[j] != SLASH && !(p[j] == DOT && (j + 1 == n || p[j + 1] == SLASH))
                && !(p[j] == DOT && j + 1 < n && p[j + 1] == DOT && (j + 2 == n || p[j + 2] == SLASH));
            if !well {
                assert(!name_starts_well(p@, i + 1));
                return false;
            }
        }
        i = i + 1;
    }
    true
}

/// `PathBuf::push` on Unix: an absolute name replaces the base; otherwise a separator is
/// added between a non-empty base that lacks one and the name.
pub open spec fn pushed(base: Seq<u8>, name: Seq<u8>) -> Seq<u8> {
    if is_absolute(name) {
        name
    } else if base.len() > 0 && base.last() != SLASH {
        base.push(SLASH) + name
    } else {
        base + name
    }
}

pub fn path_join(base: &[u8], name: &[u8]) -> (joined: Vec<u8>)
    ensures
        joined@ == pushed(base@, name@),
{
    let mut joined: Vec<u8> = Vec::new();
    if !(name.len() > 0 && name[0] == SLASH) {
        joined = vstd::slice::slice_to_vec(base);
        if base.len() > 0 && base[base.len() - 1] != SLASH {
            joined.push(SLASH);
        }
    }
    let ghost start = joined@;
    let mut i: usize = 0;
    while i < name.len()
        invariant
            0 <= i <= name@.len(),
            joined@ =~= start + name@.subrange(0, i as int),
        decreases name@.len() - i,
    {
        joined.push(name[i]);
        i = i + 1;
    }
    assert(name@.subrange(0, name@.len() as int) =~= name@);
    joined
}

/// Whether two byte strings are equal.
pub fn bytes_equal(a: &[u8], b: &[u8]) -> (r: bool)
    ensures
        r == (a@ == b@),
{
    if a.len() != b.len() {
        return false;
    }
    let mut i: usize = 0;
    while i < a.len()
        invariant
            a@.len() == b@.len(),
            0 <= i <= a@.len(),
            forall|k: int| 0 <= k < i ==> a@[k] == b@[k],
        decreases a@.len() - i,
    {
        if a[i] != b[i] {
            return false;
        }
        i = i + 1;
    }
    assert(a@ =~= b@);
    true
}

/// Whether two components are equal.
pub fn parts_equal(a: &PathPart, b: &PathPart) -> (r: bool)
    ensures
        r == (a@ == b@),
{
    match (a, b) {
        (PathPart::Root, PathPart::Root) => true,
        (PathPart::Current, PathPart::Current) => true,
        (PathPart::Parent, PathPart::Parent) => true,
        (PathPart::Normal(x), PathPart::Normal(y)) => bytes_equal(x.as_slice(), y.as_slice()),
        _ => false,
    }
}

} // verus!
