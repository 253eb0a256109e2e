//! What every argument of a Desktop `Exec` value and every parsed command look like.
use vstd::prelude::*;

use super::entry::{
    desktop_exec, env_scan, exec_of_tokens, field_codes_all, is_reserved, lex, lex_close_quote, lex_end_token,
    lex_finish, lex_open_quote, lex_quoted_char, lex_start, lex_unquoted_char, plain, token_of, token_value, tokenize,
    unescape, ExecCharacter, ExecView, LexState, TokenView,
};
use super::quoting::{lemma_unescape_plain_prefix, plains};
use crate::text::is_ascii_whitespace;

verus! {

/// Whether an unquoted character of the argument is reserved.
pub open spec fn has_unquoted_reserved(cs: Seq<ExecCharacter>) -> bool {
    exists|i: int| 0 <= i < cs.len() && !cs[i].quoted && #[trigger] is_reserved(cs[i].value)
}

/// Whether an unquoted character of the argument is reserved and not `=`.
pub open spec fn has_unquoted_reserved_non_equals(cs: Seq<ExecCharacter>) -> bool {
    exists|i: int| 0 <= i < cs.len() && !cs[i].quoted && #[trigger] is_reserved(cs[i].value) && cs[i].value != '='
}

/// No unquoted character of the argument is a quote, a backslash or ASCII whitespace.
pub open spec fn unquoted_are_plain(cs: Seq<ExecCharacter>) -> bool {
    forall|i: int|
        0 <= i < cs.len() && !cs[i].quoted ==> #[trigger] cs[i].value != '"' && cs[i].value != '\\'
            && !is_ascii_whitespace(cs[i].value)
}

/// An argument whose two reserved flags say exactly whether it has an unquoted reserved
/// character (other than `=`), and whose unquoted characters are plain.
pub open spec fn is_well_formed_token(t: TokenView) -> bool {
    &&& t.reserved == has_unquoted_reserved(t.characters)
    &&& t.reserved_non_equals == has_unquoted_reserved_non_equals(t.characters)
    &&& unquoted_are_plain(t.characters)
}

pub open spec fn is_well_formed_lex_state(st: LexState) -> bool {
    &&& forall|i: int| 0 <= i < st.tokens.len() ==> is_well_formed_token(#[trigger] st.tokens[i])
    &&& is_well_formed_token(token_of(st.current, st.reserved, st.reserved_non_equals))
}

proof fn lemma_push_character(cs: Seq<ExecCharacter>, c: ExecCharacter)
    requires
        !c.quoted ==> c.value != '"' && c.value != '\\' && !is_ascii_whitespace(c.value),
    ensures
        has_unquoted_reserved(cs.push(c)) == (has_unquoted_reserved(cs) || (!c.quoted && is_reserved(c.value))),
        has_unquoted_reserved_non_equals(cs.push(c)) == (has_unquoted_reserved_non_equals(cs) || (!c.quoted
            && is_reserved(c.value) && c.value != '=')),
        unquoted_are_plain(cs) ==> unquoted_are_plain(cs.push(c)),
{
    let d = cs.push(c);
    assert(d[cs.len() as int] == c);
    if has_unquoted_reserved(cs) {
        let i = choose|i: int| 0 <= i < cs.len() && !cs[i].quoted && #[trigger] is_reserved(cs[i].value);
        assert(d[i] == cs[i]);
    }
    if has_unquoted_reserved(d) {
        let i = choose|i: int| 0 <= i < d.len() && !d[i].quoted && #[trigger] is_reserved(d[i].value);
        if i < cs.len() {
            assert(d[i] == cs[i]);
        }
    }
    if has_unquoted_reserved_non_equals(cs) {
        let i = choose|i: int|
            0 <= i < cs.len() && !cs[i].quoted && #[trigger] is_reserved(cs[i].value) && cs[i].value != '=';
        assert(d[i] == cs[i]);
    }
    if has_unquoted_reserved_non_equals(d) {
        let i = choose|i: int|
            0 <= i < d.len() && !d[i].quoted && #[trigger] is_reserved(d[i].value) && d[i].value != '=';
        if i < cs.len() {
            assert(d[i] == cs[i]);
        }
    }
    if unquoted_are_plain(cs) {
        assert forall|i: int| 0 <= i < d.len() && !d[i].quoted implies #[trigger] d[i].value != '"' && d[i].value
            != '\\' && !is_ascii_whitespace(d[i].value) by {
            if i < cs.len() {
                assert(d[i] == cs[i]);
            }
        }
    }
}

proof fn lemma_end_token(st: LexState)
    requires
        is_well_formed_lex_state(st),
    ensures
        is_well_formed_lex_state(lex_end_token(st)),
{
    let next = lex_end_token(st);
    assert forall|i: int| 0 <= i < next.tokens.len() implies is_well_formed_token(#[trigger] next.tokens[i]) by {
        if i < st.tokens.len() {
            assert(next.tokens[i] == st.tokens[i]);
        }
    }
    assert(!has_unquoted_reserved(Seq::<ExecCharacter>::empty()));
    assert(!has_unquoted_reserved_non_equals(Seq::<ExecCharacter>::empty()));
}

proof fn lemma_lex_well_formed(input: Seq<super::entry::DesktopStringCharacter>, st: LexState)
    requires
        is_well_formed_lex_state(st),
    ensures
        lex(input, st) matches Ok(ts) ==> ts.len() > 0 && forall|i: int|
            0 <= i < ts.len() ==> is_well_formed_token(#[trigger] ts[i]),
    decreases input.len(),
{
    if input.len() == 0 {
        if !st.quoted && st.started {
            lemma_end_token(st);
        }
    } else {
        let c = input[0];
        let rest = input.drop_first();
        if st.quoted {
            if c.value == '"' {
                lemma_lex_well_formed(rest, lex_close_quote(st));
            } else if c.value == '\\' {
                if rest.len() > 0 {
                    lemma_push_character(st.current, super::entry::exec_char(rest[0].value, true));
                    lemma_lex_well_formed(rest.drop_first(), lex_quoted_char(st, rest[0].value));
                }
            } else {
                lemma_push_character(st.current, super::entry::exec_char(c.value, true));
                lemma_lex_well_formed(rest, lex_quoted_char(st, c.value));
            }
        } else if c.value == '"' {
            lemma_lex_well_formed(rest, lex_open_quote(st));
        } else if c.value == '\\' {
        } else if is_ascii_whitespace(c.value) {
            if st.started {
                lemma_end_token(st);
                lemma_lex_well_formed(rest, lex_end_token(st));
            } else {
                lemma_lex_well_formed(rest, st);
            }
        } else {
            lemma_push_character(st.current, super::entry::exec_char(c.value, false));
            lemma_lex_well_formed(rest, lex_unquoted_char(st, c.value));
        }
    }
}

/// Every `Exec` value that tokenizes has at least one argument, and each argument's reserved
/// flags say exactly whether it holds an unquoted reserved character (other than `=`); no
/// unquoted character of an argument is a quote, a backslash or ASCII whitespace.
pub proof fn tokens_are_well_formed(input: Seq<char>)
    ensures
        tokenize(input) matches Ok(ts) ==> ts.len() > 0 && forall|i: int|
            0 <= i < ts.len() ==> is_well_formed_token(#[trigger] ts[i]),
{
    let st = lex_start();
    assert(!has_unquoted_reserved(Seq::<ExecCharacter>::empty()));
    assert(!has_unquoted_reserved_non_equals(Seq::<ExecCharacter>::empty()));
    assert(st.current =~= Seq::<ExecCharacter>::empty());
    lemma_lex_well_formed(unescape(input), st);
}

proof fn lemma_lex_blank(w: Seq<char>)
    requires
        forall|i: int| 0 <= i < w.len() ==> is_ascii_whitespace(#[trigger] w[i]),
    ensures
        lex(plains(w), lex_start()) == lex_finish(lex_start()),
    decreases w.len(),
{
    if w.len() > 0 {
        let s = plains(w);
        assert(s[0] == plain(w[0]));
        assert(is_ascii_whitespace(w[0]));
        assert(s.drop_first() =~= plains(w.drop_first()));
        assert forall|i: int| 0 <= i < w.drop_first().len() implies is_ascii_whitespace(#[trigger] w.drop_first()[i]) by {
            assert(w.drop_first()[i] == w[i + 1]);
        }
        lemma_lex_blank(w.drop_first());
    } else {
        assert(plains(w) =~= Seq::<super::entry::DesktopStringCharacter>::empty());
    }
}

/// An `Exec` value made only of ASCII whitespace, or empty, has no argument and is refused.
pub proof fn blank_exec_is_refused(input: Seq<char>)
    requires
        forall|i: int| 0 <= i < input.len() ==> is_ascii_whitespace(#[trigger] input[i]),
    ensures
        tokenize(input) is Err,
{
    assert forall|i: int| 0 <= i < input.len() implies input[i] != '\\' by {
        assert(is_ascii_whitespace(input[i]));
    }
    lemma_unescape_plain_prefix(input, Seq::empty());
    assert(input + Seq::<char>::empty() =~= input);
    assert(plains(input) + unescape(Seq::<char>::empty()) =~= plains(input));
    lemma_lex_blank(input);
}

/// A parsed command comes from the arguments left after field codes: it starts at one of
/// them, takes the rest as its fixed arguments, and none of these holds an unquoted reserved
/// character; an environment is set only after a leading `env`.
pub proof fn parsed_command_comes_from_its_arguments(input: Seq<char>)
    ensures
        desktop_exec(input) matches Ok(view) ==> exists|kept: Seq<TokenView>, index: int|
            #![trigger kept.skip(index)]
            {
                &&& tokenize(input) matches Ok(ts) && field_codes_all(ts) == Ok::<Seq<TokenView>, Seq<char>>(kept)
                &&& 0 <= index < kept.len()
                &&& view.executable == token_value(kept[index])
                &&& view.fixed_args == kept.skip(index + 1).map_values(|t: TokenView| token_value(t))
                &&& forall|j: int| index <= j < kept.len() ==> !(#[trigger] kept[j]).reserved
                &&& view.environment != Map::<Seq<char>, Seq<char>>::empty() ==> 1 <= index && token_value(kept[0])
                    == "env"@
            },
{
    match tokenize(input) {
        Ok(ts) => match field_codes_all(ts) {
            Ok(kept) => {
                let env_led = kept.len() > 0 && token_value(kept[0]) == "env"@;
                let scanned = if env_led {
                    env_scan(kept, 1, Map::empty())
                } else {
                    Ok((Map::empty(), 0))
                };
                match scanned {
                    Ok((env, index)) => {
                        if env_led {
                            lemma_env_scan_index(kept, 1, Map::empty());
                        }
                        if exec_of_tokens(kept) is Ok {
                            let view = exec_of_tokens(kept)->Ok_0;
                            assert(view.environment == env);
                            assert(forall|j: int| index <= j < kept.len() ==> !(#[trigger] kept[j]).reserved);
                            assert(kept.skip(index) == kept.skip(index));
                        }
                    },
                    Err(_) => {},
                }
            },
            Err(_) => {},
        },
        Err(_) => {},
    }
}

proof fn lemma_env_scan_index(ts: Seq<TokenView>, i: int, env: Map<Seq<char>, Seq<char>>)
    requires
        1 <= i,
    ensures
        env_scan(ts, i, env) matches Ok((_, index)) ==> index >= 1,
    decreases ts.len() - i,
{
    if 0 <= i < ts.len() {
        let v = token_value(ts[i]);
        match super::entry::env_assignment(v) {
            Some((key, value)) => lemma_env_scan_index(ts, i + 1, env.insert(key, value)),
            None => {},
        }
    }
}

} // verus!
