//! Groups of a Desktop entry other than the main one are never read.
use vstd::prelude::*;

use super::entry::{desktop_entry, desktop_entry_bytes, entry_in_group, entry_line, entry_lines, EntryView};
use vstd::utf8::{decode_utf8, encode_utf8, valid_utf8};
use crate::text::trim;

verus! {

/// A trimmed line that opens a group.
pub open spec fn is_group_header(line: Seq<char>) -> bool {
    line.len() > 0 && line[0] == '[' && line.last() == ']'
}

/// No line of the text (split at line feeds), once trimmed, opens a group.
pub open spec fn has_no_group_header(text: Seq<char>) -> bool
    decreases text.len(),
{
    match text.index_of_first('\n') {
        Some(i) => if 0 <= i < text.len() {
            !is_group_header(trim(text.take(i))) && has_no_group_header(text.skip(i + 1))
        } else {
            !is_group_header(trim(text))
        },
        None => !is_group_header(trim(text)),
    }
}

/// Reading `x`, a line feed and `y` is reading `x` and then `y`.
pub(crate) proof fn lemma_entry_lines_concat(x: Seq<char>, y: Seq<char>, st: EntryView)
    ensures
        entry_lines(x + seq!['\n'] + y, st) == match entry_lines(x, st) {
            Err(e) => Err(e),
            Ok(next) => entry_lines(y, next),
        },
    decreases x.len(),
{
    let t = x + seq!['\n'] + y;
    x.index_of_first_ensures('\n');
    t.index_of_first_ensures('\n');
    assert(t[x.len() as int] == '\n');
    match x.index_of_first('\n') {
        Some(i) => {
            assert(t[i] == x[i]);
            assert forall|j: int| 0 <= j < i implies t[j] != '\n' by {
                assert(t[j] == x[j]);
            }
            assert(t.index_of_first('\n') == Some(i));
            assert(t.take(i) =~= x.take(i));
            assert(t.skip(i + 1) =~= x.skip(i + 1) + seq!['\n'] + y);
            lemma_entry_lines_concat(x.skip(i + 1), y, match entry_line(st, x.take(i)) {
                Ok(next) => next,
                Err(_) => st,
            });
        },
        None => {
            assert forall|j: int| 0 <= j < x.len() implies t[j] != '\n' by {
                assert(t[j] == x[j]);
            }
            assert(t.index_of_first('\n') == Some(x.len() as int));
            assert(t.take(x.len() as int) =~= x);
            assert(t.skip(x.len() as int + 1) =~= y);
        },
    }
}

/// Outside the main group, lines that open no group leave the reader as it is.
proof fn lemma_skipped_lines(text: Seq<char>, st: EntryView)
    requires
        !st.in_main,
        has_no_group_header(text),
    ensures
        entry_lines(text, st) == Ok::<EntryView, Seq<char>>(st),
    decreases text.len(),
{
    text.index_of_first_ensures('\n');
    match text.index_of_first('\n') {
        Some(i) => {
            if 0 <= i < text.len() {
                lemma_skipped_lines(text.skip(i + 1), st);
            }
        },
        None => {},
    }
}

/// Appending, after a line feed, a header of another group and lines that open no group
/// changes nothing of what a Desktop entry's text gives: the same command or the same
/// refusal. Lines outside the `[Desktop Entry]` group are never inspected.
pub proof fn other_groups_are_not_read(text: Seq<char>, header: Seq<char>, rest: Seq<char>)
    requires
        !header.contains('\n'),
        is_group_header(trim(header)),
        trim(header) != "[Desktop Entry]"@,
        has_no_group_header(rest),
    ensures
        desktop_entry(text + seq!['\n'] + header + seq!['\n'] + rest) == desktop_entry(text),
{
    let tail = header + seq!['\n'] + rest;
    assert(text + seq!['\n'] + header + seq!['\n'] + rest =~= text + seq!['\n'] + tail);
    lemma_entry_lines_concat(text, tail, super::entry::entry_start());
    match entry_lines(text, super::entry::entry_start()) {
        Ok(st) => {
            lemma_entry_lines_concat(header, rest, st);
            header.index_of_first_ensures('\n');
            assert(header.index_of_first('\n') is None) by {
                if header.index_of_first('\n') is Some {
                    let i = header.index_of_first('\n')->0;
                    assert(header[i] == '\n');
                    assert(header.contains('\n'));
                }
            }
            let line = trim(header);
            assert(line[0] != '#');
            assert(entry_line(st, header) == Ok::<EntryView, Seq<char>>(entry_in_group(st, false)));
            lemma_skipped_lines(rest, entry_in_group(st, false));
        },
        Err(_) => {},
    }
}

proof fn lemma_encode_concat(a: Seq<char>, b: Seq<char>)
    ensures
        encode_utf8(a + b) == encode_utf8(a) + encode_utf8(b),
    decreases a.len(),
{
    if a.len() == 0 {
        assert(a + b =~= b);
        assert(encode_utf8(a) =~= Seq::<u8>::empty());
        assert(encode_utf8(a) + encode_utf8(b) =~= encode_utf8(b));
    } else {
        assert((a + b).drop_first() =~= a.drop_first() + b);
        assert((a + b)[0] == a[0]);
        lemma_encode_concat(a.drop_first(), b);
        assert(encode_utf8(a) + encode_utf8(b) =~= vstd::utf8::encode_scalar(a[0] as u32) + (encode_utf8(
            a.drop_first(),
        ) + encode_utf8(b)));
    }
}

/// The same law on the bytes of an entry file: appending to UTF-8 bytes a line feed, the
/// header line of another group, a line feed and UTF-8 bytes whose lines open no group
/// changes nothing of what the file gives.
pub proof fn other_groups_are_not_read_in_files(bytes: Seq<u8>, header: Seq<char>, rest: Seq<u8>)
    requires
        valid_utf8(bytes),
        valid_utf8(rest),
        !header.contains('\n'),
        is_group_header(trim(header)),
        trim(header) != "[Desktop Entry]"@,
        has_no_group_header(decode_utf8(rest)),
    ensures
        desktop_entry_bytes(bytes + encode_utf8(seq!['\n'] + header + seq!['\n']) + rest) == desktop_entry_bytes(bytes),
{
    let x = decode_utf8(bytes);
    let y = decode_utf8(rest);
    let m = seq!['\n'] + header + seq!['\n'];
    vstd::utf8::decode_utf8_encode_utf8(bytes);
    vstd::utf8::decode_utf8_encode_utf8(rest);
    lemma_encode_concat(x, m);
    lemma_encode_concat(x + m, y);
    let text = x + m + y;
    assert(bytes + encode_utf8(m) + rest == encode_utf8(text));
    vstd::utf8::encode_utf8_valid_utf8(text);
    vstd::utf8::encode_utf8_decode_utf8(text);
    assert(text =~= x + seq!['\n'] + header + seq!['\n'] + y);
    other_groups_are_not_read(x, header, y);
}

} // verus!
