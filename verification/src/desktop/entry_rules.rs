//! What the lines of a Desktop entry and the assignments of its `Exec` value mean, stated on
//! the texts themselves.
use vstd::prelude::*;

use super::entry::{
    desktop_entry, entry_line, entry_lines, entry_start, env_assignment, is_env_key, EntryView,
};
use super::groups::lemma_entry_lines_concat;
use crate::text::{is_whitespace, trim, trim_end, trim_start};

verus! {

/// Reading a text without a line feed is reading one line.
proof fn lemma_single_line(line: Seq<char>, st: EntryView)
    requires
        !line.contains('\n'),
    ensures
        entry_lines(line, st) == entry_line(st, line),
{
    line.index_of_first_ensures('\n');
    if line.index_of_first('\n') is Some {
        let i = line.index_of_first('\n')->0;
        assert(line[i] == '\n');
    }
}

/// A line whose trimmed text starts with `#` is a comment: it leaves the reader as it is, in
/// the main group and in every other.
pub proof fn comment_line_changes_nothing(st: EntryView, raw: Seq<char>)
    requires
        trim(raw).len() > 0,
        trim(raw)[0] == '#',
    ensures
        entry_line(st, raw) == Ok::<EntryView, Seq<char>>(st),
{
}

/// Inserting a comment line between two parts of a Desktop entry changes nothing of what it
/// gives, wherever the line stands.
pub proof fn comment_lines_are_ignored(before: Seq<char>, comment: Seq<char>, after: Seq<char>)
    requires
        !comment.contains('\n'),
        trim(comment).len() > 0,
        trim(comment)[0] == '#',
    ensures
        desktop_entry(before + seq!['\n'] + comment + seq!['\n'] + after) == desktop_entry(
            before + seq!['\n'] + after,
        ),
{
    let start = entry_start();
    assert(before + seq!['\n'] + comment + seq!['\n'] + after =~= before + seq!['\n'] + (comment + seq!['\n']
        + after));
    lemma_entry_lines_concat(before, comment + seq!['\n'] + after, start);
    lemma_entry_lines_concat(before, after, start);
    match entry_lines(before, start) {
        Ok(st) => {
            lemma_entry_lines_concat(comment, after, st);
            lemma_single_line(comment, st);
            comment_line_changes_nothing(st, comment);
        },
        Err(_) => {},
    }
}

/// Reading keeps that the main group is found once the reader is in it.
proof fn lemma_in_main_found(text: Seq<char>, st: EntryView)
    requires
        st.in_main ==> st.found_main,
    ensures
        entry_lines(text, st) matches Ok(next) ==> (next.in_main ==> next.found_main),
    decreases text.len(),
{
    text.index_of_first_ensures('\n');
    match text.index_of_first('\n') {
        Some(i) => {
            if 0 <= i < text.len() {
                match entry_line(st, text.take(i)) {
                    Ok(next) => lemma_in_main_found(text.skip(i + 1), next),
                    Err(_) => {},
                }
            }
        },
        None => {},
    }
}

proof fn lemma_trim_end_concat(q: Seq<char>, v: Seq<char>)
    requires
        q.len() > 0,
        !is_whitespace(q.last()),
    ensures
        trim_end(q + v) == q + trim_end(v),
    decreases v.len(),
{
    if v.len() == 0 {
        assert(q + v =~= q);
        assert(q + trim_end(v) =~= q);
    } else {
        assert((q + v).last() == v.last());
        if is_whitespace(v.last()) {
            assert((q + v).drop_last() =~= q + v.drop_last());
            lemma_trim_end_concat(q, v.drop_last());
        }
    }
}

proof fn lemma_trim_start_suffix(v: Seq<char>)
    ensures
        exists|k: int| 0 <= k <= v.len() && trim_start(v) == v.skip(k),
        trim_start(v).len() > 0 ==> !is_whitespace(trim_start(v)[0]),
    decreases v.len(),
{
    if v.len() > 0 && is_whitespace(v[0]) {
        lemma_trim_start_suffix(v.drop_first());
        let k = choose|k: int| 0 <= k <= v.drop_first().len() && trim_start(v.drop_first()) == v.drop_first().skip(k);
        assert(v.drop_first().skip(k) =~= v.skip(k + 1));
    } else {
        assert(v.skip(0) =~= v);
    }
}

proof fn lemma_trim_end_prefix(v: Seq<char>)
    ensures
        trim_end(v).len() > 0 ==> !is_whitespace(trim_end(v).last()),
    decreases v.len(),
{
    if v.len() > 0 && is_whitespace(v.last()) {
        lemma_trim_end_prefix(v.drop_last());
    }
}

proof fn lemma_trim_start_push(x: Seq<char>, c: char)
    ensures
        trim_start(x.push(c)) == (if trim_start(x).len() == 0 {
            if is_whitespace(c) { Seq::<char>::empty() } else { seq![c] }
        } else {
            trim_start(x).push(c)
        }),
    decreases x.len(),
{
    if x.len() == 0 {
        assert(x.push(c) =~= seq![c]);
        assert(trim_start(x) == x);
        if is_whitespace(c) {
            assert(seq![c].drop_first() =~= Seq::<char>::empty());
            assert(trim_start(Seq::<char>::empty()) == Seq::<char>::empty());
            assert(trim_start(seq![c]) == trim_start(seq![c].drop_first()));
        } else {
            assert(trim_start(seq![c]) == seq![c]);
        }
    } else {
        assert(x.push(c)[0] == x[0]);
        if is_whitespace(x[0]) {
            assert(x.push(c).drop_first() =~= x.drop_first().push(c));
            lemma_trim_start_push(x.drop_first(), c);
        } else {
            assert(trim_start(x) == x);
            assert(trim_start(x.push(c)) == x.push(c));
        }
    }
}

/// Trimming the end then the start is trimming both.
proof fn lemma_trim_commutes(v: Seq<char>)
    ensures
        trim_start(trim_end(v)) == trim(v),
    decreases v.len(),
{
    if v.len() > 0 {
        let x = v.drop_last();
        let c = v.last();
        assert(x.push(c) =~= v);
        lemma_trim_start_push(x, c);
        lemma_trim_start_suffix(v);
        if is_whitespace(c) {
            lemma_trim_commutes(x);
            if trim_start(x).len() > 0 {
                assert(trim_start(v).drop_last() =~= trim_start(x));
            }
        } else {
            assert(trim_end(v) == v);
            assert(trim_start(v).len() > 0);
            assert(trim_start(v).last() == c);
        }
    }
}

proof fn lemma_untrimmed(s: Seq<char>)
    requires
        s.len() > 0,
        !is_whitespace(s[0]),
        !is_whitespace(s.last()),
    ensures
        trim(s) == s,
{
    assert(trim_start(s) == s);
    assert(trim_end(s) == s);
}

/// A `Hidden` line hides the entry only when its value, with surrounding whitespace removed,
/// is exactly `true`: appended to the main group of an entry that has no `Hidden` key yet,
/// `Hidden=` with any other value (such as `false`) changes nothing, and `Hidden=true`
/// refuses the entry as hidden.
pub proof fn hidden_only_when_true(before: Seq<char>, value: Seq<char>)
    requires
        !value.contains('\n'),
        entry_lines(before, entry_start()) matches Ok(st) && st.in_main && st.hidden is None,
    ensures
        trim(value) != "true"@ ==> desktop_entry(before + seq!['\n'] + "Hidden="@ + value) == desktop_entry(before),
        trim(value) == "true"@ ==> desktop_entry(before + seq!['\n'] + "Hidden="@ + value) == Err::<
            super::entry::ExecView,
            Seq<char>,
        >("codex-desktop.desktop is hidden"@),
{
    reveal_strlit("Hidden=");
    reveal_strlit("Hidden");
    reveal_strlit("Type");
    reveal_strlit("Exec");
    reveal_strlit("true");
    let start = entry_start();
    let st = entry_lines(before, start)->Ok_0;
    lemma_in_main_found(before, start);
    let key = "Hidden"@;
    let prefix = "Hidden="@;
    let line = prefix + value;
    assert forall|j: int| 0 <= j < line.len() implies line[j] != '\n' by {
        if j >= 7 {
            assert(line[j] == value[j - 7]);
            if value[j - 7] == '\n' {
                assert(value.contains('\n'));
            }
        }
    }
    if line.contains('\n') {
        let j = choose|j: int| 0 <= j < line.len() && line[j] == '\n';
        assert(line[j] != '\n');
    }
    lemma_entry_lines_concat(before, line, start);
    lemma_single_line(line, st);
    let stripped = trim_end(value);
    assert(trim_start(line) == line);
    lemma_trim_end_concat(prefix, value);
    let tl = prefix + stripped;
    assert(trim(line) == tl);
    assert(tl[0] == 'H');
    assert(tl[6] == '=');
    tl.index_of_first_ensures('=');
    assert(tl.index_of_first('=') == Some(6int)) by {
        match tl.index_of_first('=') {
            Some(k) => {
                if k < 6 {
                    assert(tl[k] != '=');
                }
                if k > 6 {
                    assert(tl[6] == '=');
                }
            },
            None => {
                assert(tl.contains('='));
            },
        }
    }
    assert(tl.take(6) =~= key);
    assert(tl.skip(7) =~= stripped);
    lemma_untrimmed(key);
    lemma_trim_commutes(value);
    lemma_trim_end_prefix(trim(value));
    assert(trim(stripped) == trim(value)) by {
        assert(trim_start(stripped) == trim(value));
        lemma_trim_end_prefix(trim_start(value));
        if trim(value).len() > 0 {
            assert(trim_end(trim(value)) == trim(value));
        } else {
            assert(trim_end(trim(value)) == trim(value));
        }
    }
    key.index_of_first_ensures('[');
    if key.index_of_first('[') is Some {
        let k = key.index_of_first('[')->0;
        assert(key[k] == '[');
    }
    assert(super::entry::is_valid_desktop_key(key));
    assert(key != "Type"@);
    assert(key != "Exec"@);
    let next = super::entry::entry_with_hidden(st, trim(value));
    assert(entry_line(st, line) == Ok::<EntryView, Seq<char>>(next));
    assert(before + seq!['\n'] + "Hidden="@ + value =~= before + seq!['\n'] + line);
    assert(entry_lines(before + seq!['\n'] + line, start) == Ok::<EntryView, Seq<char>>(next));
    assert(next.found_main == st.found_main && next.entry_type == st.entry_type && next.command == st.command);
}

/// An environment key, character by character: not empty, an ASCII letter or `_` first, then
/// ASCII letters, ASCII digits or `_`.
pub open spec fn is_shell_name(key: Seq<char>) -> bool {
    &&& key.len() > 0
    &&& (('a' <= key[0] && key[0] <= 'z') || ('A' <= key[0] && key[0] <= 'Z') || key[0] == '_')
    &&& forall|i: int|
        1 <= i < key.len() ==> (('a' <= #[trigger] key[i] && key[i] <= 'z') || ('A' <= key[i] && key[i] <= 'Z')
            || ('0' <= key[i] && key[i] <= '9') || key[i] == '_')
}

/// An `env` operand `KEY=value` is an assignment exactly when its key is a shell name: the
/// key may hold digits after its first character (`A1=x`), and `value` is everything after
/// the first `=`.
pub proof fn env_keys_are_shell_names(key: Seq<char>, value: Seq<char>)
    requires
        !key.contains('='),
    ensures
        is_env_key(key) <==> is_shell_name(key),
        env_assignment(key + seq!['='] + value) == (if is_shell_name(key) {
            Some((key, value))
        } else {
            None::<(Seq<char>, Seq<char>)>
        }),
{
    if is_shell_name(key) {
        assert forall|i: int| 0 <= i < key.len() implies (key[i] == '_' || (crate::text::is_ascii_alphanumeric(
            key[i],
        ) && (i > 0 || crate::text::is_ascii_alphabetic(key[i])))) by {
            if i > 0 {
                assert(('a' <= key[i] && key[i] <= 'z') || ('A' <= key[i] && key[i] <= 'Z') || ('0' <= key[i]
                    && key[i] <= '9') || key[i] == '_');
            }
        }
    }
    if is_env_key(key) {
        assert(key[0] == '_' || crate::text::is_ascii_alphabetic(key[0]));
        assert forall|i: int| 1 <= i < key.len() implies (('a' <= #[trigger] key[i] && key[i] <= 'z') || ('A'
            <= key[i] && key[i] <= 'Z') || ('0' <= key[i] && key[i] <= '9') || key[i] == '_') by {
            assert(key[i] == '_' || crate::text::is_ascii_alphanumeric(key[i]));
        }
    }
    let s = key + seq!['='] + value;
    s.index_of_first_ensures('=');
    assert(s[key.len() as int] == '=');
    assert(s.index_of_first('=') == Some(key.len() as int)) by {
        match s.index_of_first('=') {
            Some(k) => {
                if k < key.len() {
                    assert(s[k] == key[k]);
                    assert(key.contains('='));
                }
            },
            None => {
                assert(s.contains('='));
            },
        }
    }
    assert(s.take(key.len() as int) =~= key);
    assert(s.skip(key.len() as int + 1) =~= value);
}

} // verus!
