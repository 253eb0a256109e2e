//! Writing an argument into a Desktop `Exec` value so that it reads back unchanged.
use vstd::prelude::*;

use super::entry::{
    desktop_exec, exec_char, expand_percent, field_codes, field_codes_all, is_reserved, layer_escape, lex, lex_start,
    marked_backslash, plain, token_of, token_value, tokenize, unescape, DesktopStringCharacter, ExecCharacter,
    ExecView, LexState, TokenView,
};
use crate::text::is_ascii_whitespace;

verus! {

/// One character of an argument written inside quotes: `"`, `$` and `` ` `` behind an
/// escaped backslash, a backslash as two escaped backslashes, `%` doubled.
pub open spec fn quoted_character(c: char) -> Seq<char> {
    if c == '"' || c == '$' || c == '`' {
        seq!['\\', '\\', c]
    } else if c == '\\' {
        seq!['\\', '\\', '\\', '\\']
    } else if c == '%' {
        seq!['%', '%']
    } else {
        seq![c]
    }
}

/// The characters of an argument written inside quotes.
pub open spec fn quote_text(a: Seq<char>) -> Seq<char>
    decreases a.len(),
{
    if a.len() == 0 {
        Seq::empty()
    } else {
        quoted_character(a[0]) + quote_text(a.drop_first())
    }
}

/// An argument written as one quoted `Exec` argument.
pub open spec fn quoted_argument(a: Seq<char>) -> Seq<char> {
    seq!['"'] + quote_text(a) + seq!['"']
}

/// A launcher word that needs no quoting: not empty, not `env`, without whitespace, quotes,
/// backslashes, `%` or reserved characters.
pub open spec fn is_plain_word(w: Seq<char>) -> bool {
    &&& w.len() > 0
    &&& w != "env"@
    &&& forall|i: int| 0 <= i < w.len() ==> is_plain_word_char(#[trigger] w[i])
}

pub open spec fn is_plain_word_char(c: char) -> bool {
    !is_ascii_whitespace(c) && c != '"' && c != '\\' && c != '%' && !is_reserved(c)
}

/// The first escaping layer removed from one quoted character.
pub open spec fn unescaped_character(c: char) -> Seq<DesktopStringCharacter> {
    if c == '"' || c == '$' || c == '`' {
        seq![marked_backslash(), plain(c)]
    } else if c == '\\' {
        seq![marked_backslash(), marked_backslash()]
    } else if c == '%' {
        seq![plain('%'), plain('%')]
    } else {
        seq![plain(c)]
    }
}

pub open spec fn unescaped_text(a: Seq<char>) -> Seq<DesktopStringCharacter>
    decreases a.len(),
{
    if a.len() == 0 {
        Seq::empty()
    } else {
        unescaped_character(a[0]) + unescaped_text(a.drop_first())
    }
}

/// The quoted characters that the lexer reads from one quoted character.
pub open spec fn lexed_character(c: char) -> Seq<ExecCharacter> {
    if c == '%' {
        seq![exec_char('%', true), exec_char('%', true)]
    } else {
        seq![exec_char(c, true)]
    }
}

pub open spec fn lexed_text(a: Seq<char>) -> Seq<ExecCharacter>
    decreases a.len(),
{
    if a.len() == 0 {
        Seq::empty()
    } else {
        lexed_character(a[0]) + lexed_text(a.drop_first())
    }
}

pub open spec fn unquoted(w: Seq<char>) -> Seq<ExecCharacter> {
    w.map_values(|c: char| exec_char(c, false))
}

pub open spec fn quoted(a: Seq<char>) -> Seq<ExecCharacter> {
    a.map_values(|c: char| exec_char(c, true))
}

pub open spec fn plains(w: Seq<char>) -> Seq<DesktopStringCharacter> {
    w.map_values(|c: char| plain(c))
}

pub(crate) proof fn lemma_unescape_plain_prefix(w: Seq<char>, r: Seq<char>)
    requires
        forall|i: int| 0 <= i < w.len() ==> w[i] != '\\',
    ensures
        unescape(w + r) == plains(w) + unescape(r),
    decreases w.len(),
{
    if w.len() == 0 {
        assert(w + r =~= r);
        assert(plains(w) + unescape(r) =~= unescape(r));
    } else {
        let s = w + r;
        assert(s[0] == w[0]);
        assert(s.drop_first() =~= w.drop_first() + r);
        lemma_unescape_plain_prefix(w.drop_first(), r);
        assert(plains(w) =~= seq![plain(w[0])] + plains(w.drop_first()));
        assert(seq![plain(w[0])] + (plains(w.drop_first()) + unescape(r)) =~= plains(w) + unescape(r));
    }
}

proof fn lemma_unescape_character(c: char, t: Seq<char>)
    ensures
        unescape(quoted_character(c) + t) == unescaped_character(c) + unescape(t),
{
    let s = quoted_character(c) + t;
    if c == '"' || c == '$' || c == '`' {
        assert(s[0] == '\\' && s[1] == '\\' && s[2] == c);
        assert(s.subrange(2, s.len() as int) =~= seq![c] + t);
        let u = seq![c] + t;
        assert(u[0] == c);
        assert(u.drop_first() =~= t);
        assert(unescape(u) == seq![plain(c)] + unescape(t));
        assert(s.len() >= 2 && s[0] == '\\' && s[1] == '\\');
        assert(layer_escape(s[1]) is None);
        assert(unescape(s) == seq![marked_backslash()] + unescape(s.subrange(2, s.len() as int)));
        assert(unescape(s) == seq![marked_backslash()] + unescape(u));
        assert(seq![marked_backslash()] + (seq![plain(c)] + unescape(t)) =~= unescaped_character(c) + unescape(t));
        assert(unescape(s) == unescaped_character(c) + unescape(t));
    } else if c == '\\' {
        assert(s[0] == '\\' && s[1] == '\\');
        let u = s.subrange(2, s.len() as int);
        assert(u =~= seq!['\\', '\\'] + t);
        assert(u[0] == '\\' && u[1] == '\\');
        assert(u.subrange(2, u.len() as int) =~= t);
        assert(layer_escape(u[1]) is None);
        assert(unescape(u) == seq![marked_backslash()] + unescape(t));
        assert(unescape(s) == seq![marked_backslash()] + unescape(u));
        assert(seq![marked_backslash()] + (seq![marked_backslash()] + unescape(t)) =~= unescaped_character(c) + unescape(t));
        assert(unescape(s) == unescaped_character(c) + unescape(t));
    } else if c == '%' {
        assert(s[0] == '%');
        let u = s.drop_first();
        assert(u =~= seq!['%'] + t);
        assert(u[0] == '%');
        assert(u.drop_first() =~= t);
        assert(unescape(u) == seq![plain('%')] + unescape(t));
        assert(unescape(s) == seq![plain('%')] + unescape(u));
        assert(seq![plain('%')] + (seq![plain('%')] + unescape(t)) =~= unescaped_character(c) + unescape(t));
        assert(unescape(s) == unescaped_character(c) + unescape(t));
    } else {
        assert(quoted_character(c) == seq![c]);
        assert(s[0] == c);
        assert(s.drop_first() =~= t);
        assert(unescape(s) == seq![plain(c)] + unescape(t));
        assert(unescaped_character(c) == seq![plain(c)]);
    }
}

proof fn lemma_unescape_quoted(a: Seq<char>, r: Seq<char>)
    ensures
        unescape(quote_text(a) + r) == unescaped_text(a) + unescape(r),
    decreases a.len(),
{
    if a.len() == 0 {
        assert(quote_text(a) + r =~= r);
        assert(unescaped_text(a) + unescape(r) =~= unescape(r));
    } else {
        let rest = a.drop_first();
        assert(quote_text(a) + r =~= quoted_character(a[0]) + (quote_text(rest) + r));
        lemma_unescape_character(a[0], quote_text(rest) + r);
        lemma_unescape_quoted(rest, r);
        assert(unescaped_character(a[0]) + (unescaped_text(rest) + unescape(r)) =~= unescaped_text(a) + unescape(r));
    }
}

/// The lexer state after a plain word read from `st`.
pub open spec fn after_word(st: LexState, w: Seq<char>) -> LexState {
    LexState { started: st.started || w.len() > 0, current: st.current + unquoted(w), ..st }
}

proof fn lemma_lex_word(w: Seq<char>, rest: Seq<DesktopStringCharacter>, st: LexState)
    requires
        !st.quoted,
        !st.quote_closed,
        forall|i: int| 0 <= i < w.len() ==> is_plain_word_char(#[trigger] w[i]),
    ensures
        lex(plains(w) + rest, st) == lex(rest, after_word(st, w)),
    decreases w.len(),
{
    if w.len() == 0 {
        assert(plains(w) + rest =~= rest);
        assert(after_word(st, w) =~= st) by {
            assert(st.current + unquoted(w) =~= st.current);
        }
    } else {
        let s = plains(w) + rest;
        assert(is_plain_word_char(w[0]));
        assert(s[0] == plain(w[0]));
        assert(s.drop_first() =~= plains(w.drop_first()) + rest);
        let next = LexState {
            started: true,
            current: st.current.push(exec_char(w[0], false)),
            ..st
        };
        assert(lex(s, st) == lex(s.drop_first(), next));
        assert forall|i: int| 0 <= i < w.drop_first().len() implies is_plain_word_char(#[trigger] w.drop_first()[i]) by {
            assert(w.drop_first()[i] == w[i + 1]);
        }
        lemma_lex_word(w.drop_first(), rest, next);
        assert(after_word(next, w.drop_first()) =~= after_word(st, w)) by {
            assert(next.current + unquoted(w.drop_first()) =~= st.current + unquoted(w));
        }
    }
}

/// The lexer state after quoted text read from `st`.
pub open spec fn after_quoted(st: LexState, a: Seq<char>) -> LexState {
    LexState { current: st.current + lexed_text(a), ..st }
}

proof fn lemma_lex_quoted(a: Seq<char>, rest: Seq<DesktopStringCharacter>, st: LexState)
    requires
        st.quoted,
    ensures
        lex(unescaped_text(a) + rest, st) == lex(rest, after_quoted(st, a)),
    decreases a.len(),
{
    if a.len() == 0 {
        assert(unescaped_text(a) + rest =~= rest);
        assert(after_quoted(st, a) =~= st) by {
            assert(st.current + lexed_text(a) =~= st.current);
        }
    } else {
        let c = a[0];
        let tail = a.drop_first();
        let s = unescaped_text(a) + rest;
        let after = unescaped_text(tail) + rest;
        assert(s =~= unescaped_character(c) + after);
        let next = LexState { current: st.current + lexed_character(c), ..st };
        if c == '"' || c == '$' || c == '`' {
            assert(s[0] == marked_backslash() && s[1] == plain(c));
            assert(s.drop_first().drop_first() =~= after);
            assert(lex(s, st) == lex(after, next)) by {
                assert(st.current.push(exec_char(c, true)) =~= next.current);
            }
        } else if c == '\\' {
            assert(s[0] == marked_backslash() && s[1] == marked_backslash());
            assert(s.drop_first().drop_first() =~= after);
            assert(lex(s, st) == lex(after, next)) by {
                assert(st.current.push(exec_char('\\', true)) =~= next.current);
            }
        } else if c == '%' {
            assert(s[0] == plain('%') && s[1] == plain('%'));
            let mid = LexState { current: st.current.push(exec_char('%', true)), ..st };
            assert(lex(s, st) == lex(s.drop_first(), mid));
            assert(s.drop_first()[0] == plain('%'));
            assert(s.drop_first().drop_first() =~= after);
            assert(lex(s.drop_first(), mid) == lex(after, next)) by {
                assert(mid.current.push(exec_char('%', true)) =~= next.current);
            }
        } else {
            assert(s[0] == plain(c));
            assert(s.drop_first() =~= after);
            assert(lex(s, st) == lex(after, next)) by {
                assert(st.current.push(exec_char(c, true)) =~= next.current);
            }
        }
        lemma_lex_quoted(tail, rest, next);
        assert(after_quoted(next, tail) =~= after_quoted(st, a)) by {
            assert(next.current + lexed_text(tail) =~= st.current + lexed_text(a));
        }
    }
}

proof fn lemma_expand_unquoted(w: Seq<char>)
    requires
        forall|i: int| 0 <= i < w.len() ==> w[i] != '%',
    ensures
        expand_percent(unquoted(w)) == Ok::<Seq<ExecCharacter>, Seq<char>>(unquoted(w)),
    decreases w.len(),
{
    let cs = unquoted(w);
    if w.len() > 0 {
        assert(cs[0] == exec_char(w[0], false));
        assert(cs.drop_first() =~= unquoted(w.drop_first()));
        lemma_expand_unquoted(w.drop_first());
        assert(seq![cs[0]] + unquoted(w.drop_first()) =~= cs);
    } else {
        assert(cs =~= Seq::<ExecCharacter>::empty());
    }
}

proof fn lemma_expand_lexed(a: Seq<char>)
    ensures
        expand_percent(lexed_text(a)) == Ok::<Seq<ExecCharacter>, Seq<char>>(quoted(a)),
    decreases a.len(),
{
    let cs = lexed_text(a);
    if a.len() == 0 {
        assert(cs =~= Seq::<ExecCharacter>::empty());
        assert(quoted(a) =~= Seq::<ExecCharacter>::empty());
    } else {
        let c = a[0];
        let tail = a.drop_first();
        lemma_expand_lexed(tail);
        assert(cs =~= lexed_character(c) + lexed_text(tail));
        assert(quoted(a) =~= seq![exec_char(c, true)] + quoted(tail));
        if c == '%' {
            assert(cs[0] == exec_char('%', true) && cs[1] == exec_char('%', true));
            assert(cs.subrange(2, cs.len() as int) =~= lexed_text(tail));
        } else {
            assert(cs[0] == exec_char(c, true));
            assert(cs.drop_first() =~= lexed_text(tail));
        }
    }
}

/// An argument written as a quoted `Exec` argument after a plain launcher word reads back as
/// exactly that argument, whatever characters it holds: the two escaping layers and the
/// field-code doubling undo each other.
pub proof fn quoted_argument_round_trip(w: Seq<char>, a: Seq<char>)
    requires
        is_plain_word(w),
    ensures
        desktop_exec(w + seq![' '] + quoted_argument(a))
            == Ok::<ExecView, Seq<char>>(ExecView { executable: w, fixed_args: seq![a], environment: Map::empty() }),
{
    let input = w + seq![' '] + quoted_argument(a);
    let tail = seq![' ', '"'] + quote_text(a) + seq!['"'];
    assert(input =~= w + tail);
    assert forall|i: int| 0 <= i < w.len() implies w[i] != '\\' by {
        assert(is_plain_word_char(w[i]));
    }
    lemma_unescape_plain_prefix(w, tail);
    assert(tail =~= seq![' ', '"'] + (quote_text(a) + seq!['"']));
    lemma_unescape_plain_prefix(seq![' ', '"'], quote_text(a) + seq!['"']);
    lemma_unescape_quoted(a, seq!['"']);
    lemma_unescape_plain_prefix(seq!['"'], Seq::empty());
    assert(seq!['"'] + Seq::<char>::empty() =~= seq!['"']);
    let closing = seq![plain('"')];
    assert(plains(seq!['"']) + unescape(Seq::<char>::empty()) =~= closing);
    let ut = plains(w) + (plains(seq![' ', '"']) + (unescaped_text(a) + closing));
    assert(unescape(input) == ut);

    let st0 = lex_start();
    assert forall|i: int| 0 <= i < w.len() implies is_plain_word_char(#[trigger] w[i]) by {}
    let rest1 = plains(seq![' ', '"']) + (unescaped_text(a) + closing);
    lemma_lex_word(w, rest1, st0);
    let st1 = after_word(st0, w);
    assert(st1.started && st1.current == unquoted(w) && !st1.quoted && !st1.quote_closed) by {
        assert(st0.current + unquoted(w) =~= unquoted(w));
    }
    let t1 = token_of(unquoted(w), false, false);
    let st2 = LexState {
        quoted: false,
        quote_closed: false,
        started: false,
        reserved: false,
        reserved_non_equals: false,
        current: Seq::empty(),
        tokens: seq![t1],
    };
    assert(rest1[0] == plain(' ') && rest1[1] == plain('"'));
    assert(rest1.drop_first().drop_first() =~= unescaped_text(a) + closing);
    assert(lex(rest1, st1) == lex(rest1.drop_first(), st2)) by {
        assert(st1.tokens.push(token_of(st1.current, st1.reserved, st1.reserved_non_equals)) =~= seq![t1]);
    }
    let st3 = LexState { quoted: true, started: true, ..st2 };
    assert(lex(rest1.drop_first(), st2) == lex(unescaped_text(a) + closing, st3));
    lemma_lex_quoted(a, closing, st3);
    let st4 = after_quoted(st3, a);
    assert(st4.current =~= lexed_text(a));
    let st5 = LexState { quoted: false, quote_closed: true, ..st4 };
    assert(closing.drop_first() =~= Seq::<DesktopStringCharacter>::empty());
    assert(lex(closing, st4) == lex(Seq::empty(), st5));
    let t2 = token_of(lexed_text(a), false, false);
    assert(lex(Seq::empty(), st5) == Ok::<Seq<TokenView>, Seq<char>>(seq![t1, t2])) by {
        assert(st5.tokens.push(token_of(st5.current, st5.reserved, st5.reserved_non_equals)) =~= seq![t1, t2]);
    }
    assert(tokenize(input) == Ok::<Seq<TokenView>, Seq<char>>(seq![t1, t2]));

    assert forall|i: int| 0 <= i < w.len() implies w[i] != '%' by {
        assert(is_plain_word_char(w[i]));
    }
    lemma_expand_unquoted(w);
    lemma_expand_lexed(a);
    let k1 = token_of(quoted(a), false, false);
    assert(field_codes(t1) == Ok::<Option<TokenView>, Seq<char>>(Some(t1))) by {
        if unquoted(w).len() == 2 {
            assert(unquoted(w)[0] == exec_char(w[0], false));
        }
    }
    assert(field_codes(t2) == Ok::<Option<TokenView>, Seq<char>>(Some(k1))) by {
        let cs = lexed_text(a);
        if cs.len() == 2 && cs[0].value == '%' {
            assert(a.len() > 0);
            assert(cs =~= lexed_character(a[0]) + lexed_text(a.drop_first()));
            if a[0] == '%' {
                assert(cs[1] == exec_char('%', true));
            } else {
                assert(cs[0] == exec_char(a[0], true));
            }
        }
    }
    let ts = seq![t1, t2];
    assert(ts.drop_last() =~= seq![t1]);
    assert(seq![t1].drop_last() =~= Seq::<TokenView>::empty());
    assert(field_codes_all(seq![t1]) == Ok::<Seq<TokenView>, Seq<char>>(seq![t1])) by {
        let one = seq![t1];
        assert(one.len() == 1);
        assert(one.drop_last() =~= Seq::<TokenView>::empty());
        assert(field_codes_all(Seq::<TokenView>::empty()) == Ok::<Seq<TokenView>, Seq<char>>(Seq::empty()));
        assert(one.last() == t1);
        assert(Seq::<TokenView>::empty().push(t1) =~= one);
    }
    let kept = seq![t1, k1];
    assert(field_codes_all(ts) == Ok::<Seq<TokenView>, Seq<char>>(kept)) by {
        assert(seq![t1].push(k1) =~= kept);
    }

    assert(token_value(t1) =~= w);
    assert(token_value(k1) =~= a);
    assert(!w.contains('=')) by {
        if w.contains('=') {
            let i = choose|i: int| 0 <= i < w.len() && w[i] == '=';
            assert(is_plain_word_char(w[i]));
        }
    }
    assert(!(exists|j: int| 0 < j < kept.len() && #[trigger] kept[j].reserved));
    assert(kept.skip(1).map_values(|t: TokenView| token_value(t)) =~= seq![a]);
}

} // verus!
