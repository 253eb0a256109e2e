//! The Desktop entry file and the `Exec` command line that it holds.
use vstd::prelude::*;

use super::DiscoveryFailure;
use crate::text::{
    ascii_alphabetic, ascii_alphanumeric, ascii_whitespace, chars_are, chars_of, is_ascii_alphabetic,
    is_ascii_alphanumeric, is_ascii_whitespace, split_first, split_once, string_of, contains_char,
    find_from, find_first, slice_of, trim, trimmed, decode_utf8_text,
};

verus! {

/// A character of a Desktop string value after its first escaping layer is removed;
/// `escaped_backslash` marks a backslash that was written as `\\`.
#[derive(Clone, Copy, Debug, PartialEq, Eq, Structural)]
pub struct DesktopStringCharacter {
    pub value: char,
    pub escaped_backslash: bool,
}

/// A character of an `Exec` argument and whether it stood inside quotes.
#[derive(Clone, Copy, Debug, PartialEq, Eq, Structural)]
pub struct ExecCharacter {
    pub value: char,
    pub quoted: bool,
}

/// One argument of an `Exec` command line and whether it holds unquoted reserved characters.
#[derive(Debug)]
pub struct ExecToken {
    pub characters: Vec<ExecCharacter>,
    pub has_unquoted_reserved_character: bool,
    pub has_unquoted_non_equals_reserved_character: bool,
}

/// The mathematical form of an `Exec` argument.
pub struct TokenView {
    pub characters: Seq<ExecCharacter>,
    pub reserved: bool,
    pub reserved_non_equals: bool,
}

impl View for ExecToken {
    type V = TokenView;

    open spec fn view(&self) -> TokenView {
        TokenView {
            characters: self.characters@,
            reserved: self.has_unquoted_reserved_character,
            reserved_non_equals: self.has_unquoted_non_equals_reserved_character,
        }
    }
}

pub open spec fn tokens_view(tokens: Seq<ExecToken>) -> Seq<TokenView> {
    tokens.map_values(|t: ExecToken| t@)
}

/// The text of an argument.
pub open spec fn token_value(token: TokenView) -> Seq<char> {
    token.characters.map_values(|c: ExecCharacter| c.value)
}

impl ExecToken {
    pub fn value(&self) -> (text: Vec<char>)
        ensures
            text@ == token_value(self@),
    {
        let mut text: Vec<char> = Vec::new();
        let mut i: usize = 0;
        while i < self.characters.len()
            invariant
                0 <= i <= self.characters@.len(),
                text@ =~= token_value(self@).subrange(0, i as int),
            decreases self.characters@.len() - i,
        {
            text.push(self.characters[i].value);
            i = i + 1;
        }
        text
    }
}

/// The character that a backslash escape of the first layer stands for: `\s`, `\n`,
/// `\t` and `\r`.
pub open spec fn layer_escape(c: char) -> Option<char> {
    if c == 's' {
        Some(' ')
    } else if c == 'n' {
        Some('\n')
    } else if c == 't' {
        Some('\t')
    } else if c == 'r' {
        Some('\r')
    } else {
        None
    }
}

/// Removes the escaping of a Desktop string value. `\\` becomes a marked backslash;
/// a backslash before any other character stays as an unmarked backslash.
pub open spec fn unescape(s: Seq<char>) -> Seq<DesktopStringCharacter>
    decreases s.len(),
{
    if s.len() == 0 {
        Seq::empty()
    } else if s[0] != '\\' {
        seq![plain(s[0])] + unescape(s.drop_first())
    } else if s.len() >= 2 && layer_escape(s[1]) is Some {
        seq![plain(layer_escape(s[1])->0)] + unescape(s.subrange(2, s.len() as int))
    } else if s.len() >= 2 && s[1] == '\\' {
        seq![marked_backslash()] + unescape(s.subrange(2, s.len() as int))
    } else {
        seq![plain('\\')] + unescape(s.drop_first())
    }
}

/// A character that was not written as `\\`.
pub open spec fn plain(c: char) -> DesktopStringCharacter {
    DesktopStringCharacter { value: c, escaped_backslash: false }
}

/// A backslash that was written as `\\`.
pub open spec fn marked_backslash() -> DesktopStringCharacter {
    DesktopStringCharacter { value: '\\', escaped_backslash: true }
}

/// Reads one character of the unescaped value at `i`: the character and the index after it.
fn unescape_step(input: &Vec<char>, i: usize) -> (step: (DesktopStringCharacter, usize))
    requires
        i < input@.len(),
    ensures
        i < step.1 <= input@.len(),
        unescape(input@.subrange(i as int, input@.len() as int))
            == seq![step.0] + unescape(input@.subrange(step.1 as int, input@.len() as int)),
{
    let n = input.len();
    let ghost rest = input@.subrange(i as int, n as int);
    let character = input[i];
    assert(rest.len() > 0 && rest[0] == character);
    if character != '\\' {
        assert(rest.drop_first() =~= input@.subrange(i + 1, n as int));
        (DesktopStringCharacter { value: character, escaped_backslash: false }, i + 1)
    } else if i + 1 < n && (input[i + 1] == 's' || input[i + 1] == 'n' || input[i + 1] == 't' || input[i + 1] == 'r') {
        assert(rest.subrange(2, rest.len() as int) =~= input@.subrange(i + 2, n as int));
        let next = input[i + 1];
        assert(rest[1] == next);
        let value = if next == 's' {
            ' '
        } else if next == 'n' {
            '\n'
        } else if next == 't' {
            '\t'
        } else {
            '\r'
        };
        (DesktopStringCharacter { value, escaped_backslash: false }, i + 2)
    } else if i + 1 < n && input[i + 1] == '\\' {
        assert(rest.subrange(2, rest.len() as int) =~= input@.subrange(i + 2, n as int));
        assert(rest[1] == '\\');
        (DesktopStringCharacter { value: '\\', escaped_backslash: true }, i + 2)
    } else {
        assert(rest.drop_first() =~= input@.subrange(i + 1, n as int));
        assert(rest.len() >= 2 ==> rest[1] == input@[i + 1]);
        (DesktopStringCharacter { value: '\\', escaped_backslash: false }, i + 1)
    }
}

pub fn unescape_desktop_string_value(input: &Vec<char>) -> (result: Vec<DesktopStringCharacter>)
    ensures
        result@ == unescape(input@),
{
    let mut result: Vec<DesktopStringCharacter> = Vec::new();
    let n = input.len();
    let mut i: usize = 0;
    assert(input@.subrange(0, n as int) =~= input@);
    while i < n
        invariant
            n == input@.len(),
            0 <= i <= n,
            result@ + unescape(input@.subrange(i as int, n as int)) == unescape(input@),
        decreases n - i,
    {
        let ghost before = result@;
        let ghost old_i = i;
        let (item, next) = unescape_step(input, i);
        result.push(item);
        i = next;
        assert(before + unescape(input@.subrange(old_i as int, n as int))
            =~= result@ + unescape(input@.subrange(i as int, n as int)));
    }
    assert(input@.subrange(n as int, n as int) =~= Seq::<char>::empty());
    assert(result@ + Seq::<DesktopStringCharacter>::empty() =~= result@);
    result
}

/// `'`, `>`, `<`, `~`, `|`, `&`, `;`, `$`, `*`, `?`, `#`, `(`, `)`, `` ` `` and `=`: the
/// characters that an unquoted `Exec` argument may not use as shell syntax.
pub open spec fn is_reserved(c: char) -> bool {
    c == '\'' || c == '>' || c == '<' || c == '~' || c == '|' || c == '&' || c == ';' || c == '$'
        || c == '*' || c == '?' || c == '#' || c == '(' || c == ')' || c == '`' || c == '='
}

pub fn is_exec_reserved_character(c: char) -> (r: bool)
    ensures
        r == is_reserved(c),
{
    c == '\'' || c == '>' || c == '<' || c == '~' || c == '|' || c == '&' || c == ';' || c == '$'
        || c == '*' || c == '?' || c == '#' || c == '(' || c == ')' || c == '`' || c == '='
}

/// The state of the `Exec` lexer between two characters.
pub struct LexState {
    pub quoted: bool,
    pub quote_closed: bool,
    pub started: bool,
    pub reserved: bool,
    pub reserved_non_equals: bool,
    pub current: Seq<ExecCharacter>,
    pub tokens: Seq<TokenView>,
}

pub open spec fn lex_start() -> LexState {
    LexState {
        quoted: false,
        quote_closed: false,
        started: false,
        reserved: false,
        reserved_non_equals: false,
        current: Seq::empty(),
        tokens: Seq::empty(),
    }
}

pub open spec fn exec_char(value: char, quoted: bool) -> ExecCharacter {
    ExecCharacter { value, quoted }
}

pub open spec fn token_of(characters: Seq<ExecCharacter>, reserved: bool, reserved_non_equals: bool) -> TokenView {
    TokenView { characters, reserved, reserved_non_equals }
}

/// Adds a quoted character to the current argument.
pub open spec fn lex_quoted_char(st: LexState, value: char) -> LexState {
    LexState {
        quoted: st.quoted,
        quote_closed: st.quote_closed,
        started: st.started,
        reserved: st.reserved,
        reserved_non_equals: st.reserved_non_equals,
        current: st.current.push(exec_char(value, true)),
        tokens: st.tokens,
    }
}

/// Adds an unquoted character to the current argument and records whether it is reserved.
pub open spec fn lex_unquoted_char(st: LexState, value: char) -> LexState {
    LexState {
        quoted: st.quoted,
        quote_closed: st.quote_closed,
        started: true,
        reserved: st.reserved || is_reserved(value),
        reserved_non_equals: st.reserved_non_equals || (is_reserved(value) && value != '='),
        current: st.current.push(exec_char(value, false)),
        tokens: st.tokens,
    }
}

/// Opens a quote, which starts an argument.
pub open spec fn lex_open_quote(st: LexState) -> LexState {
    LexState {
        quoted: true,
        quote_closed: st.quote_closed,
        started: true,
        reserved: st.reserved,
        reserved_non_equals: st.reserved_non_equals,
        current: st.current,
        tokens: st.tokens,
    }
}

/// Closes a quote; the argument may not go on after it.
pub open spec fn lex_close_quote(st: LexState) -> LexState {
    LexState {
        quoted: false,
        quote_closed: true,
        started: st.started,
        reserved: st.reserved,
        reserved_non_equals: st.reserved_non_equals,
        current: st.current,
        tokens: st.tokens,
    }
}

/// Ends the current argument.
pub open spec fn lex_end_token(st: LexState) -> LexState {
    LexState {
        quoted: false,
        quote_closed: false,
        started: false,
        reserved: false,
        reserved_non_equals: false,
        current: Seq::empty(),
        tokens: st.tokens.push(token_of(st.current, st.reserved, st.reserved_non_equals)),
    }
}

/// Whether the character after a backslash inside quotes may be escaped there.
pub open spec fn quotable(c: DesktopStringCharacter) -> bool {
    c.value == '"' || c.value == '$' || c.value == '`' || (c.value == '\\' && c.escaped_backslash)
}

/// The arguments of an unescaped `Exec` value, read from the given lexer state on.
pub open spec fn lex(input: Seq<DesktopStringCharacter>, st: LexState) -> Result<Seq<TokenView>, Seq<char>>
    decreases input.len(),
{
    if input.len() == 0 {
        lex_finish(st)
    } else {
        let c = input[0];
        let rest = input.drop_first();
        if st.quoted {
            if c.value == '"' {
                lex(rest, lex_close_quote(st))
            } else if c.value == '\\' {
                if !c.escaped_backslash || rest.len() == 0 || !quotable(rest[0]) {
                    Err("Desktop Exec has an unsupported quoted escape"@)
                } else {
                    lex(rest.drop_first(), lex_quoted_char(st, rest[0].value))
                }
            } else if c.value == '$' || c.value == '`' {
                Err("Desktop Exec has an unescaped quoted reserved character"@)
            } else {
                lex(rest, lex_quoted_char(st, c.value))
            }
        } else if c.value == '"' {
            if st.started {
                Err("Desktop Exec quotes must enclose a whole argument"@)
            } else {
                lex(rest, lex_open_quote(st))
            }
        } else if c.value == '\\' {
            Err("Desktop Exec has an unsupported unquoted escape"@)
        } else if is_ascii_whitespace(c.value) {
            if st.started {
                lex(rest, lex_end_token(st))
            } else {
                lex(rest, st)
            }
        } else if st.quote_closed {
            Err("Desktop Exec quotes must enclose a whole argument"@)
        } else {
            lex(rest, lex_unquoted_char(st, c.value))
        }
    }
}

/// The end of the input: a quote must be closed and at least one argument found.
pub open spec fn lex_finish(st: LexState) -> Result<Seq<TokenView>, Seq<char>> {
    if st.quoted {
        Err("Desktop Exec has an unterminated quote"@)
    } else {
        let tokens = if st.started { lex_end_token(st).tokens } else { st.tokens };
        if tokens.len() == 0 {
            Err("Desktop Exec is empty"@)
        } else {
            Ok(tokens)
        }
    }
}

/// The arguments of an `Exec` value: both escaping layers removed and split at
/// unquoted ASCII whitespace.
pub open spec fn tokenize(input: Seq<char>) -> Result<Seq<TokenView>, Seq<char>> {
    lex(unescape(input), lex_start())
}

pub open spec fn lex_state_of(
    quoted: bool,
    quote_closed: bool,
    started: bool,
    reserved: bool,
    reserved_non_equals: bool,
    current: Seq<ExecCharacter>,
    tokens: Seq<ExecToken>,
) -> LexState {
    LexState { quoted, quote_closed, started, reserved, reserved_non_equals, current, tokens: tokens_view(tokens) }
}

/// The spec result mapped to the executable one.
pub open spec fn tokens_match(result: Result<Vec<ExecToken>, DiscoveryFailure>, expected: Result<Seq<TokenView>, Seq<char>>) -> bool {
    match result {
        Ok(tokens) => expected == Ok::<Seq<TokenView>, Seq<char>>(tokens_view(tokens@)),
        Err(failure) => expected == Err::<Seq<TokenView>, Seq<char>>(failure.reason()),
    }
}

pub fn tokenize_desktop_exec(source: &Vec<char>) -> (result: Result<Vec<ExecToken>, DiscoveryFailure>)
    ensures
        tokens_match(result, tokenize(source@)),
{
    let input = unescape_desktop_string_value(source);
    let n = input.len();
    let mut tokens: Vec<ExecToken> = Vec::new();
    let mut current: Vec<ExecCharacter> = Vec::new();
    let mut quoted = false;
    let mut quote_closed = false;
    let mut started = false;
    let mut reserved = false;
    let mut reserved_non_equals = false;
    let mut i: usize = 0;
    assert(input@.skip(0) =~= input@);
    assert(tokens_view(tokens@) =~= Seq::<TokenView>::empty());
    assert(lex_state_of(quoted, quote_closed, started, reserved, reserved_non_equals, current@, tokens@) == lex_start());
    while i < n
        invariant
            n == input@.len(),
            input@ == unescape(source@),
            0 <= i <= n,
            lex(input@.skip(i as int), lex_state_of(quoted, quote_closed, started, reserved, reserved_non_equals, current@, tokens@))
                == lex(input@, lex_start()),
        decreases n - i,
    {
        let ghost rest = input@.skip(i as int).drop_first();
        assert(rest =~= input@.skip(i + 1));
        let character = input[i];
        assert(input@.skip(i as int)[0] == character);
        assert(rest.len() == n - i - 1);
        let ghost st = lex_state_of(quoted, quote_closed, started, reserved, reserved_non_equals, current@, tokens@);
        if quoted {
            if character.value == '"' {
                quoted = false;
                quote_closed = true;
                i = i + 1;
                assert(lex_state_of(quoted, quote_closed, started, reserved, reserved_non_equals, current@, tokens@) == lex_close_quote(st));
            } else if character.value == '\\' {
                if !character.escaped_backslash || i + 1 >= n {
                    return Err(DiscoveryFailure::unavailable("Desktop Exec has an unsupported quoted escape"));
                }
                let escaped = input[i + 1];
                assert(rest[0] == escaped);
                if !(escaped.value == '"' || escaped.value == '$' || escaped.value == '`'
                    || (escaped.value == '\\' && escaped.escaped_backslash)) {
                    return Err(DiscoveryFailure::unavailable("Desktop Exec has an unsupported quoted escape"));
                }
                assert(rest.drop_first() =~= input@.skip(i + 2));
                current.push(ExecCharacter { value: escaped.value, quoted: true });
                i = i + 2;
                assert(lex_state_of(quoted, quote_closed, started, reserved, reserved_non_equals, current@, tokens@) == lex_quoted_char(st, escaped.value));
            } else if character.value == '$' || character.value == '`' {
                return Err(DiscoveryFailure::unavailable("Desktop Exec has an unescaped quoted reserved character"));
            } else {
                current.push(ExecCharacter { value: character.value, quoted: true });
                i = i + 1;
                assert(lex_state_of(quoted, quote_closed, started, reserved, reserved_non_equals, current@, tokens@) == lex_quoted_char(st, character.value));
            }
        } else if character.value == '"' {
            if started {
                return Err(DiscoveryFailure::unavailable("Desktop Exec quotes must enclose a whole argument"));
            }
            quoted = true;
            started = true;
            i = i + 1;
            assert(lex_state_of(quoted, quote_closed, started, reserved, reserved_non_equals, current@, tokens@) == lex_open_quote(st));
        } else if character.value == '\\' {
            return Err(DiscoveryFailure::unavailable("Desktop Exec has an unsupported unquoted escape"));
        } else if ascii_whitespace(character.value) {
            if started {
                let ghost before = tokens@;
                let finished = current;
                current = Vec::new();
                let token = ExecToken {
                    characters: finished,
                    has_unquoted_reserved_character: reserved,
                    has_unquoted_non_equals_reserved_character: reserved_non_equals,
                };
                assert(token@ == token_of(finished@, reserved, reserved_non_equals));
                tokens.push(token);
                assert(tokens_view(tokens@) =~= tokens_view(before).push(token_of(finished@, reserved, reserved_non_equals)));
                started = false;
                quote_closed = false;
                reserved = false;
                reserved_non_equals = false;
                assert(current@ =~= Seq::<ExecCharacter>::empty());
                assert(lex_state_of(quoted, quote_closed, started, reserved, reserved_non_equals, current@, tokens@) == lex_end_token(st));
            }
            i = i + 1;
        } else {
            if quote_closed {
                return Err(DiscoveryFailure::unavailable("Desktop Exec quotes must enclose a whole argument"));
            }
            let is_reserved_character = is_exec_reserved_character(character.value);
            started = true;
            reserved = reserved || is_reserved_character;
            reserved_non_equals = reserved_non_equals || (is_reserved_character && character.value != '=');
            current.push(ExecCharacter { value: character.value, quoted: false });
            i = i + 1;
            assert(lex_state_of(quoted, quote_closed, started, reserved, reserved_non_equals, current@, tokens@) == lex_unquoted_char(st, character.value));
        }
    }
    assert(input@.skip(n as int) =~= Seq::<DesktopStringCharacter>::empty());
    if quoted {
        return Err(DiscoveryFailure::unavailable("Desktop Exec has an unterminated quote"));
    }
    if started {
        let ghost before = tokens@;
        let ghost last = token_of(current@, reserved, reserved_non_equals);
        let token = ExecToken {
            characters: current,
            has_unquoted_reserved_character: reserved,
            has_unquoted_non_equals_reserved_character: reserved_non_equals,
        };
        assert(token@ == last);
        tokens.push(token);
        assert(tokens_view(tokens@) =~= tokens_view(before).push(last));
    }
    if tokens.len() == 0 {
        return Err(DiscoveryFailure::unavailable("Desktop Exec is empty"));
    }
    Ok(tokens)
}

/// `%f`, `%F`, `%u`, `%U`, `%i`, `%c`, `%k`, `%d`, `%D`, `%n`, `%N`, `%v` and `%m`: the field
/// codes that the launcher fills in and that stand alone as an argument.
pub open spec fn is_standard_operand(c: char) -> bool {
    c == 'f' || c == 'F' || c == 'u' || c == 'U' || c == 'i' || c == 'c' || c == 'k' || c == 'd'
        || c == 'D' || c == 'n' || c == 'N' || c == 'v' || c == 'm'
}

fn standard_operand(c: char) -> (r: bool)
    ensures
        r == is_standard_operand(c),
{
    c == 'f' || c == 'F' || c == 'u' || c == 'U' || c == 'i' || c == 'c' || c == 'k' || c == 'd'
        || c == 'D' || c == 'n' || c == 'N' || c == 'v' || c == 'm'
}

/// `p` followed by the characters of `r`, or the error of `r`.
pub open spec fn prepend(p: Seq<ExecCharacter>, r: Result<Seq<ExecCharacter>, Seq<char>>) -> Result<Seq<ExecCharacter>, Seq<char>> {
    match r {
        Ok(rest) => Ok(p + rest),
        Err(e) => Err(e),
    }
}

/// The characters of an argument with `%%` turned into `%`; any other field code inside an
/// argument is refused.
pub open spec fn expand_percent(cs: Seq<ExecCharacter>) -> Result<Seq<ExecCharacter>, Seq<char>>
    decreases cs.len(),
{
    if cs.len() == 0 {
        Ok(Seq::empty())
    } else if cs[0].value != '%' {
        prepend(seq![cs[0]], expand_percent(cs.drop_first()))
    } else if cs.len() < 2 {
        Err("Desktop Exec has an incomplete field code"@)
    } else if is_ascii_alphabetic(cs[1].value) && (cs[0].quoted || cs[1].quoted) {
        Err("Desktop Exec uses a field code inside a quoted argument"@)
    } else if cs[1].value == '%' {
        prepend(seq![exec_char('%', cs[0].quoted || cs[1].quoted)], expand_percent(cs.subrange(2, cs.len() as int)))
    } else if is_standard_operand(cs[1].value) {
        Err("Desktop Exec has an ambiguous in-argument field code"@)
    } else {
        Err("Desktop Exec has an unsupported field code"@)
    }
}

/// An argument after its field codes: `None` for a standalone field code, which the
/// launcher would fill in.
pub open spec fn field_codes(token: TokenView) -> Result<Option<TokenView>, Seq<char>> {
    let cs = token.characters;
    if cs.len() == 2 && cs[0].value == '%' && is_standard_operand(cs[1].value) {
        if cs[0].quoted || cs[1].quoted {
            Err("Desktop Exec uses a field code inside a quoted argument"@)
        } else {
            Ok(None)
        }
    } else {
        match expand_percent(cs) {
            Ok(expanded) => Ok(Some(token_of(expanded, token.reserved, token.reserved_non_equals))),
            Err(e) => Err(e),
        }
    }
}

proof fn lemma_prepend_push(p: Seq<ExecCharacter>, c: ExecCharacter, r: Result<Seq<ExecCharacter>, Seq<char>>)
    ensures
        prepend(p, prepend(seq![c], r)) == prepend(p.push(c), r),
{
    match r {
        Ok(rest) => {
            assert(p + (seq![c] + rest) =~= p.push(c) + rest);
        },
        Err(e) => {},
    }
}

/// Removes the field codes of one argument.
pub fn process_field_codes(token: &ExecToken) -> (result: Result<Option<ExecToken>, DiscoveryFailure>)
    ensures
        match result {
            Ok(Some(t)) => field_codes(token@) == Ok::<Option<TokenView>, Seq<char>>(Some(t@)),
            Ok(None) => field_codes(token@) == Ok::<Option<TokenView>, Seq<char>>(None),
            Err(failure) => field_codes(token@) == Err::<Option<TokenView>, Seq<char>>(failure.reason()),
        },
{
    let cs = &token.characters;
    let n = cs.len();
    if n == 2 && cs[0].value == '%' && standard_operand(cs[1].value) {
        if cs[0].quoted || cs[1].quoted {
            return Err(DiscoveryFailure::unavailable("Desktop Exec uses a field code inside a quoted argument"));
        }
        return Ok(None);
    }
    let mut result: Vec<ExecCharacter> = Vec::new();
    let mut i: usize = 0;
    assert(cs@.skip(0) =~= cs@);
    assert(result@ + Seq::<ExecCharacter>::empty() =~= result@);
    while i < n
        invariant
            n == cs@.len(),
            cs@ == token@.characters,
            !(n == 2 && cs@[0].value == '%' && is_standard_operand(cs@[1].value)),
            0 <= i <= n,
            prepend(result@, expand_percent(cs@.skip(i as int))) == expand_percent(cs@),
        decreases n - i,
    {
        let ghost rest = cs@.skip(i as int);
        assert(rest[0] == cs@[i as int]);
        let character = cs[i];
        if character.value != '%' {
            assert(rest.drop_first() =~= cs@.skip(i + 1));
            proof {
                lemma_prepend_push(result@, character, expand_percent(cs@.skip(i + 1)));
            }
            result.push(character);
            i = i + 1;
        } else {
            if i + 1 >= n {
                return Err(DiscoveryFailure::unavailable("Desktop Exec has an incomplete field code"));
            }
            let code = cs[i + 1];
            assert(rest[1] == code);
            if ascii_alphabetic(code.value) && (character.quoted || code.quoted) {
                return Err(DiscoveryFailure::unavailable("Desktop Exec uses a field code inside a quoted argument"));
            }
            if code.value == '%' {
                let percent = ExecCharacter { value: '%', quoted: character.quoted || code.quoted };
                assert(rest.subrange(2, rest.len() as int) =~= cs@.skip(i + 2));
                proof {
                    lemma_prepend_push(result@, percent, expand_percent(cs@.skip(i + 2)));
                }
                result.push(percent);
                i = i + 2;
            } else if standard_operand(code.value) {
                return Err(DiscoveryFailure::unavailable("Desktop Exec has an ambiguous in-argument field code"));
            } else {
                return Err(DiscoveryFailure::unavailable("Desktop Exec has an unsupported field code"));
            }
        }
    }
    assert(cs@.skip(n as int) =~= Seq::<ExecCharacter>::empty());
    assert(result@ + Seq::<ExecCharacter>::empty() =~= result@);
    let reserved = token.has_unquoted_reserved_character;
    let reserved_non_equals = token.has_unquoted_non_equals_reserved_character;
    Ok(Some(ExecToken {
        characters: result,
        has_unquoted_reserved_character: reserved,
        has_unquoted_non_equals_reserved_character: reserved_non_equals,
    }))
}

/// The argument list after field codes: the first refusal, in order, or the arguments that
/// remain.
pub open spec fn field_codes_all(ts: Seq<TokenView>) -> Result<Seq<TokenView>, Seq<char>>
    decreases ts.len(),
{
    if ts.len() == 0 {
        Ok(Seq::empty())
    } else {
        match field_codes_all(ts.drop_last()) {
            Err(e) => Err(e),
            Ok(prefix) => match field_codes(ts.last()) {
                Err(e) => Err(e),
                Ok(None) => Ok(prefix),
                Ok(Some(t)) => Ok(prefix.push(t)),
            },
        }
    }
}

/// An `env` operand `KEY=value` whose key starts with an ASCII letter or `_` and goes on with
/// ASCII letters, digits and `_`.
pub open spec fn is_env_key(key: Seq<char>) -> bool {
    &&& key.len() > 0
    &&& forall|i: int|
        0 <= i < key.len() ==> (key[i] == '_' || (is_ascii_alphanumeric(key[i]) && (i > 0
            || is_ascii_alphabetic(key[i]))))
}

/// The key and value of an environment assignment, split at the first `=`.
pub open spec fn env_assignment(s: Seq<char>) -> Option<(Seq<char>, Seq<char>)> {
    match split_once(s, '=') {
        Some((key, value)) => if is_env_key(key) {
            Some((key, value))
        } else {
            None
        },
        None => None,
    }
}

pub fn parse_environment_assignment(token: &Vec<char>) -> (assignment: Option<(Vec<char>, Vec<char>)>)
    ensures
        match assignment {
            Some((key, value)) => env_assignment(token@) == Some((key@, value@)),
            None => env_assignment(token@) is None,
        },
{
    match split_first(token, '=') {
        Some((key, value)) => {
            if key.len() == 0 {
                return None;
            }
            let mut i: usize = 0;
            while i < key.len()
                invariant
                    0 <= i <= key@.len(),
                    split_once(token@, '=') == Some((key@, value@)),
                    forall|j: int|
                        0 <= j < i ==> (key@[j] == '_' || (is_ascii_alphanumeric(key@[j]) && (j > 0
                            || is_ascii_alphabetic(key@[j])))),
                decreases key@.len() - i,
            {
                let c = key[i];
                if !(c == '_' || (ascii_alphanumeric(c) && (i > 0 || ascii_alphabetic(c)))) {
                    assert(!is_env_key(key@)) by {
                        assert(key@[i as int] == c);
                    }
                    return None;
                }
                i = i + 1;
            }
            Some((key, value))
        },
        None => None,
    }
}

/// The environment that `env` assigns: each later assignment of a key replaces the earlier.
pub open spec fn env_map(entries: Seq<(String, String)>) -> Map<Seq<char>, Seq<char>>
    decreases entries.len(),
{
    if entries.len() == 0 {
        Map::empty()
    } else {
        env_map(entries.drop_last()).insert(entries.last().0@, entries.last().1@)
    }
}

/// No key is assigned twice.
pub open spec fn distinct_keys(entries: Seq<(String, String)>) -> bool {
    forall|i: int, j: int| 0 <= i < j < entries.len() ==> entries[i].0@ != entries[j].0@
}

proof fn lemma_env_map_update(s: Seq<(String, String)>, j: int, e: (String, String))
    requires
        distinct_keys(s),
        0 <= j < s.len(),
        s[j].0@ == e.0@,
    ensures
        env_map(s.update(j, e)) == env_map(s).insert(e.0@, e.1@),
    decreases s.len(),
{
    let t = s.update(j, e);
    if j == s.len() - 1 {
        assert(t.drop_last() =~= s.drop_last());
        assert(env_map(s).insert(e.0@, e.1@) =~= env_map(s.drop_last()).insert(e.0@, e.1@));
    } else {
        assert(t.drop_last() =~= s.drop_last().update(j, e));
        lemma_env_map_update(s.drop_last(), j, e);
        assert(s[j].0@ != s.last().0@);
        assert(env_map(t) =~= env_map(s).insert(e.0@, e.1@));
    }
}

/// Assigns `value` to `key`, replacing an earlier assignment of the key.
fn env_insert(entries: &mut Vec<(String, String)>, key: String, value: String)
    requires
        distinct_keys(old(entries)@),
    ensures
        distinct_keys(final(entries)@),
        env_map(final(entries)@) == env_map(old(entries)@).insert(key@, value@),
{
    let mut j: usize = 0;
    while j < entries.len()
        invariant
            0 <= j <= entries@.len(),
            entries@ == old(entries)@,
            distinct_keys(entries@),
            forall|i: int| 0 <= i < j ==> entries@[i].0@ != key@,
        decreases entries@.len() - j,
    {
        if entries[j].0 == key {
            proof {
                lemma_env_map_update(entries@, j as int, (key, value));
            }
            let ghost before = entries@;
            entries.set(j, (key, value));
            assert(entries@ == before.update(j as int, (key, value)));
            assert(distinct_keys(entries@)) by {
                assert forall|a: int, b: int| 0 <= a < b < entries@.len() implies entries@[a].0@ != entries@[b].0@ by {
                    assert(entries@[a].0@ == before[a].0@);
                    assert(entries@[b].0@ == before[b].0@);
                }
            }
            return;
        }
        j = j + 1;
    }
    let ghost before = entries@;
    entries.push((key, value));
    assert(entries@.drop_last() =~= before);
    assert(distinct_keys(entries@)) by {
        assert forall|a: int, b: int| 0 <= a < b < entries@.len() implies entries@[a].0@ != entries@[b].0@ by {
            if b == before.len() {
                assert(before[a].0@ != key@);
            } else {
                assert(entries@[a] == before[a]);
                assert(entries@[b] == before[b]);
            }
        }
    }
}

/// The command that a Desktop `Exec` value starts.
#[derive(Debug)]
pub struct ParsedDesktopExec {
    pub executable: String,
    pub fixed_args: Vec<String>,
    pub environment: Vec<(String, String)>,
}

/// The mathematical form of a parsed command.
pub struct ExecView {
    pub executable: Seq<char>,
    pub fixed_args: Seq<Seq<char>>,
    pub environment: Map<Seq<char>, Seq<char>>,
}

impl ParsedDesktopExec {
    pub open spec fn view(self) -> ExecView {
        ExecView {
            executable: self.executable@,
            fixed_args: self.fixed_args@.map_values(|a: String| a@),
            environment: env_map(self.environment@),
        }
    }

    pub open spec fn wf(self) -> bool {
        distinct_keys(self.environment@)
    }
}

/// The leading `env` operands from index `i` on, added to `env`: the environment and the index
/// of the first operand that is no assignment.
pub open spec fn env_scan(ts: Seq<TokenView>, i: int, env: Map<Seq<char>, Seq<char>>) -> Result<(Map<Seq<char>, Seq<char>>, int), Seq<char>>
    decreases ts.len() - i,
{
    if i < 0 || i >= ts.len() {
        Ok((env, i))
    } else {
        let v = token_value(ts[i]);
        if v.len() > 0 && v[0] == '-' {
            Err("Desktop Exec uses unsupported env options"@)
        } else if ts[i].reserved_non_equals {
            Err("Desktop Exec uses shell syntax"@)
        } else {
            match env_assignment(v) {
                Some((key, value)) => env_scan(ts, i + 1, env.insert(key, value)),
                None => Ok((env, i)),
            }
        }
    }
}

/// The command of an argument list whose field codes are gone.
pub open spec fn exec_of_tokens(ts: Seq<TokenView>) -> Result<ExecView, Seq<char>> {
    let scanned = if ts.len() > 0 && token_value(ts[0]) == "env"@ {
        env_scan(ts, 1, Map::empty())
    } else {
        Ok((Map::empty(), 0))
    };
    match scanned {
        Err(e) => Err(e),
        Ok((env, index)) => if index >= ts.len() {
            Err("Desktop Exec has no launcher executable"@)
        } else if token_value(ts[index]).contains('=') || token_value(ts[index]) == "env"@ {
            Err("Desktop Exec uses a shell-style assignment"@)
        } else if ts[index].reserved {
            Err("Desktop Exec uses shell syntax"@)
        } else if exists|j: int| index < j < ts.len() && #[trigger] ts[j].reserved {
            Err("Desktop Exec uses shell syntax"@)
        } else {
            Ok(ExecView {
                executable: token_value(ts[index]),
                fixed_args: ts.skip(index + 1).map_values(|t: TokenView| token_value(t)),
                environment: env,
            })
        },
    }
}

/// The command of a Desktop `Exec` value.
pub open spec fn desktop_exec(input: Seq<char>) -> Result<ExecView, Seq<char>> {
    match tokenize(input) {
        Err(e) => Err(e),
        Ok(ts) => match field_codes_all(ts) {
            Err(e) => Err(e),
            Ok(kept) => exec_of_tokens(kept),
        },
    }
}

/// The executable result matched against the mathematical one.
pub open spec fn exec_matches(result: Result<ParsedDesktopExec, DiscoveryFailure>, expected: Result<ExecView, Seq<char>>) -> bool {
    match result {
        Ok(parsed) => parsed.wf() && expected == Ok::<ExecView, Seq<char>>(parsed.view()),
        Err(failure) => expected == Err::<ExecView, Seq<char>>(failure.reason()),
    }
}

/// Removes the field codes of every argument; the first refusal wins.
fn process_all_field_codes(tokens: &Vec<ExecToken>) -> (result: Result<Vec<ExecToken>, DiscoveryFailure>)
    ensures
        match result {
            Ok(kept) => field_codes_all(tokens_view(tokens@)) == Ok::<Seq<TokenView>, Seq<char>>(tokens_view(kept@)),
            Err(failure) => field_codes_all(tokens_view(tokens@)) == Err::<Seq<TokenView>, Seq<char>>(failure.reason()),
        },
{
    let ghost ts = tokens_view(tokens@);
    let mut kept: Vec<ExecToken> = Vec::new();
    let mut i: usize = 0;
    assert(ts.take(0) =~= Seq::<TokenView>::empty());
    assert(tokens_view(kept@) =~= Seq::<TokenView>::empty());
    while i < tokens.len()
        invariant
            ts == tokens_view(tokens@),
            0 <= i <= tokens@.len(),
            field_codes_all(ts.take(i as int)) == Ok::<Seq<TokenView>, Seq<char>>(tokens_view(kept@)),
        decreases tokens@.len() - i,
    {
        let ghost prefix = tokens_view(kept@);
        assert(ts.take(i + 1).drop_last() =~= ts.take(i as int));
        assert(ts.take(i + 1).last() == tokens@[i as int]@);
        match process_field_codes(&tokens[i]) {
            Ok(Some(token)) => {
                let ghost t = token@;
                kept.push(token);
                assert(tokens_view(kept@) =~= prefix.push(t));
            },
            Ok(None) => {},
            Err(failure) => {
                assert(ts.take(tokens@.len() as int) =~= ts);
                proof {
                    lemma_field_codes_all_err(ts, i + 1);
                }
                return Err(failure);
            },
        }
        i = i + 1;
    }
    assert(ts.take(tokens@.len() as int) =~= ts);
    Ok(kept)
}

/// A refusal among the first `k` arguments is the refusal of the whole list.
proof fn lemma_field_codes_all_err(ts: Seq<TokenView>, k: int)
    requires
        0 <= k <= ts.len(),
        field_codes_all(ts.take(k)) is Err,
    ensures
        field_codes_all(ts) == field_codes_all(ts.take(k)),
    decreases ts.len() - k,
{
    if k < ts.len() {
        assert(ts.take(k + 1).drop_last() =~= ts.take(k));
        lemma_field_codes_all_err(ts, k + 1);
    } else {
        assert(ts.take(k) =~= ts);
    }
}

/// The environment assignments that follow a leading `env`, and the index of the launcher.
fn scan_environment(tokens: &Vec<ExecToken>) -> (result: Result<(Vec<(String, String)>, usize), DiscoveryFailure>)
    ensures
        ({
            let ts = tokens_view(tokens@);
            let expected = if ts.len() > 0 && token_value(ts[0]) == "env"@ {
                env_scan(ts, 1, Map::empty())
            } else {
                Ok((Map::empty(), 0))
            };
            match result {
                Ok((entries, index)) => distinct_keys(entries@) && expected == Ok::<(Map<Seq<char>, Seq<char>>, int), Seq<char>>((env_map(entries@), index as int)),
                Err(failure) => expected == Err::<(Map<Seq<char>, Seq<char>>, int), Seq<char>>(failure.reason()),
            }
        }),
{
    let ghost ts = tokens_view(tokens@);
    let mut entries: Vec<(String, String)> = Vec::new();
    let n = tokens.len();
    if n == 0 {
        return Ok((entries, 0));
    }
    let first = tokens[0].value();
    assert(ts[0] == tokens@[0]@);
    if !chars_are(&first, "env") {
        assert(env_map(entries@) =~= Map::<Seq<char>, Seq<char>>::empty());
        return Ok((entries, 0));
    }
    let mut index: usize = 1;
    let mut scanning = true;
    assert(env_map(entries@) =~= Map::<Seq<char>, Seq<char>>::empty());
    while scanning && index < n
        invariant
            ts == tokens_view(tokens@),
            n == tokens@.len(),
            ts.len() > 0 && token_value(ts[0]) == "env"@,
            1 <= index <= n,
            distinct_keys(entries@),
            env_scan(ts, index as int, env_map(entries@)) == env_scan(ts, 1, Map::empty()),
            !scanning ==> env_scan(ts, index as int, env_map(entries@)) == Ok::<(Map<Seq<char>, Seq<char>>, int), Seq<char>>((env_map(entries@), index as int)),
        decreases n - index + (if scanning { 1int } else { 0int }),
    {
        let token = &tokens[index];
        assert(ts[index as int] == token@);
        let value = token.value();
        if value.len() > 0 && value[0] == '-' {
            return Err(DiscoveryFailure::unavailable("Desktop Exec uses unsupported env options"));
        }
        if token.has_unquoted_non_equals_reserved_character {
            return Err(DiscoveryFailure::unavailable("Desktop Exec uses shell syntax"));
        }
        match parse_environment_assignment(&value) {
            Some((key, assigned)) => {
                env_insert(&mut entries, string_of(key.as_slice()), string_of(assigned.as_slice()));
                index = index + 1;
            },
            None => {
                scanning = false;
            },
        }
    }
    Ok((entries, index))
}

/// Whether an argument after `index` holds an unquoted reserved character.
fn reserved_after(tokens: &Vec<ExecToken>, index: usize) -> (r: bool)
    requires
        index < tokens@.len(),
    ensures
        r == exists|j: int| index < j < tokens@.len() && #[trigger] tokens_view(tokens@)[j].reserved,
{
    let ghost ts = tokens_view(tokens@);
    let n = tokens.len();
    let mut j: usize = index + 1;
    while j < n
        invariant
            ts == tokens_view(tokens@),
            n == tokens@.len(),
            index < j <= n,
            forall|k: int| index < k < j ==> !ts[k].reserved,
        decreases n - j,
    {
        assert(ts[j as int] == tokens@[j as int]@);
        if tokens[j].has_unquoted_reserved_character {
            assert(tokens_view(tokens@)[j as int].reserved);
            return true;
        }
        j = j + 1;
    }
    false
}

/// The values of the arguments from `start` on.
fn argument_values(tokens: &Vec<ExecToken>, start: usize) -> (values: Vec<String>)
    requires
        start <= tokens@.len(),
    ensures
        values@.map_values(|a: String| a@) == tokens_view(tokens@).skip(start as int).map_values(|t: TokenView| token_value(t)),
{
    let ghost ts = tokens_view(tokens@);
    let mut values: Vec<String> = Vec::new();
    let mut j: usize = start;
    while j < tokens.len()
        invariant
            ts == tokens_view(tokens@),
            start <= j <= tokens@.len(),
            values@.map_values(|a: String| a@) =~= ts.subrange(start as int, j as int).map_values(|t: TokenView| token_value(t)),
        decreases tokens@.len() - j,
    {
        assert(ts[j as int] == tokens@[j as int]@);
        let ghost before = values@;
        let argument = string_of(tokens[j].value().as_slice());
        values.push(argument);
        assert(values@.map_values(|a: String| a@) =~= before.map_values(|a: String| a@).push(argument@));
        assert(ts.subrange(start as int, j + 1).map_values(|t: TokenView| token_value(t))
            =~= ts.subrange(start as int, j as int).map_values(|t: TokenView| token_value(t)).push(token_value(ts[j as int])));
        j = j + 1;
    }
    assert(ts.subrange(start as int, tokens@.len() as int) =~= ts.skip(start as int));
    values
}

/// The command of an argument list whose field codes are gone.
fn command_of_tokens(tokens: &Vec<ExecToken>) -> (result: Result<ParsedDesktopExec, DiscoveryFailure>)
    ensures
        exec_matches(result, exec_of_tokens(tokens_view(tokens@))),
{
    let ghost ts = tokens_view(tokens@);
    let (environment, index) = match scan_environment(tokens) {
        Ok(scanned) => scanned,
        Err(failure) => {
            return Err(failure);
        },
    };
    let n = tokens.len();
    if index >= n {
        return Err(DiscoveryFailure::unavailable("Desktop Exec has no launcher executable"));
    }
    let executable = &tokens[index];
    assert(ts[index as int] == executable@);
    let value = executable.value();
    let has_equals = crate::text::find_first(&value, '=').is_some();
    proof {
        value@.index_of_first_ensures('=');
    }
    if has_equals || chars_are(&value, "env") {
        return Err(DiscoveryFailure::unavailable("Desktop Exec uses a shell-style assignment"));
    }
    if executable.has_unquoted_reserved_character {
        return Err(DiscoveryFailure::unavailable("Desktop Exec uses shell syntax"));
    }
    if reserved_after(tokens, index) {
        return Err(DiscoveryFailure::unavailable("Desktop Exec uses shell syntax"));
    }
    let fixed_args = argument_values(tokens, index + 1);
    let parsed = ParsedDesktopExec { executable: string_of(value.as_slice()), fixed_args, environment };
    Ok(parsed)
}

/// Parses a Desktop `Exec` value into the command it starts.
pub fn parse_desktop_exec(input: &str) -> (result: Result<ParsedDesktopExec, DiscoveryFailure>)
    ensures
        exec_matches(result, desktop_exec(input@)),
{
    let characters = chars_of(input);
    parse_exec_characters(&characters)
}

fn parse_exec_characters(characters: &Vec<char>) -> (result: Result<ParsedDesktopExec, DiscoveryFailure>)
    ensures
        exec_matches(result, desktop_exec(characters@)),
{
    let tokens = match tokenize_desktop_exec(characters) {
        Ok(tokens) => tokens,
        Err(failure) => {
            return Err(failure);
        },
    };
    let kept = match process_all_field_codes(&tokens) {
        Ok(kept) => kept,
        Err(failure) => {
            return Err(failure);
        },
    };
    command_of_tokens(&kept)
}

/// A character of a key's name: an ASCII letter, digit or `-`.
pub open spec fn is_key_char(c: char) -> bool {
    is_ascii_alphanumeric(c) || c == '-'
}

/// A character of a key's locale: an ASCII letter, digit, `_`, `-`, `.` or `@`.
pub open spec fn is_locale_char(c: char) -> bool {
    is_ascii_alphanumeric(c) || c == '_' || c == '-' || c == '.' || c == '@'
}

/// A Desktop entry key: a name of key characters, optionally followed by a locale of
/// locale characters in square brackets.
pub open spec fn is_valid_desktop_key(key: Seq<char>) -> bool {
    match split_once(key, '[') {
        Some((base, rest)) => {
            let locale = rest.drop_last();
            &&& rest.len() > 0
            &&& rest.last() == ']'
            &&& !locale.contains('[')
            &&& base.len() > 0
            &&& forall|i: int| 0 <= i < base.len() ==> is_key_char(#[trigger] base[i])
            &&& locale.len() > 0
            &&& forall|i: int| 0 <= i < locale.len() ==> is_locale_char(#[trigger] locale[i])
        },
        None => key.len() > 0 && forall|i: int| 0 <= i < key.len() ==> is_key_char(#[trigger] key[i]),
    }
}

fn all_key_chars(s: &Vec<char>, locale: bool) -> (r: bool)
    ensures
        r == (forall|i: int| 0 <= i < s@.len() ==> (if locale { is_locale_char(#[trigger] s@[i]) } else { is_key_char(s@[i]) })),
{
    let mut i: usize = 0;
    while i < s.len()
        invariant
            0 <= i <= s@.len(),
            forall|j: int| 0 <= j < i ==> (if locale { is_locale_char(#[trigger] s@[j]) } else { is_key_char(s@[j]) }),
        decreases s@.len() - i,
    {
        let c = s[i];
        let ok = if locale {
            ascii_alphanumeric(c) || c == '_' || c == '-' || c == '.' || c == '@'
        } else {
            ascii_alphanumeric(c) || c == '-'
        };
        if !ok {
            assert(!(if locale { is_locale_char(s@[i as int]) } else { is_key_char(s@[i as int]) }));
            return false;
        }
        i = i + 1;
    }
    true
}

pub fn valid_desktop_key(key: &Vec<char>) -> (valid: bool)
    ensures
        valid == is_valid_desktop_key(key@),
{
    match split_first(key, '[') {
        Some((base, rest)) => {
            let n = rest.len();
            if n == 0 || rest[n - 1] != ']' {
                return false;
            }
            let locale = slice_of(&rest, 0, n - 1);
            assert(locale@ =~= rest@.drop_last());
            if contains_char(&locale, '[') {
                return false;
            }
            base.len() > 0 && all_key_chars(&base, false) && locale.len() > 0 && all_key_chars(&locale, true)
        },
        None => key.len() > 0 && all_key_chars(key, false),
    }
}

/// What the reader of a Desktop entry knows between two lines.
pub struct EntryView {
    pub in_main: bool,
    pub found_main: bool,
    pub entry_type: Option<Seq<char>>,
    pub command: Option<Seq<char>>,
    pub hidden: Option<Seq<char>>,
}

pub open spec fn entry_start() -> EntryView {
    EntryView { in_main: false, found_main: false, entry_type: None, command: None, hidden: None }
}

pub open spec fn entry_in_group(st: EntryView, main: bool) -> EntryView {
    EntryView {
        in_main: main,
        found_main: st.found_main || main,
        entry_type: st.entry_type,
        command: st.command,
        hidden: st.hidden,
    }
}

pub open spec fn entry_with_type(st: EntryView, value: Seq<char>) -> EntryView {
    EntryView { entry_type: Some(value), ..st }
}

pub open spec fn entry_with_exec(st: EntryView, value: Seq<char>) -> EntryView {
    EntryView { command: Some(value), ..st }
}

pub open spec fn entry_with_hidden(st: EntryView, value: Seq<char>) -> EntryView {
    EntryView { hidden: Some(value), ..st }
}

/// The value of a critical key after a `key=value` line of the main group.
pub open spec fn entry_key_value(st: EntryView, key: Seq<char>, value: Seq<char>) -> Result<EntryView, Seq<char>> {
    if !is_valid_desktop_key(key) {
        Err("the main Desktop entry has an invalid key"@)
    } else if key == "Type"@ {
        if st.entry_type is Some {
            Err("the main Desktop entry has duplicate critical keys"@)
        } else {
            Ok(entry_with_type(st, value))
        }
    } else if key == "Exec"@ {
        if st.command is Some {
            Err("the main Desktop entry has duplicate critical keys"@)
        } else {
            Ok(entry_with_exec(st, value))
        }
    } else if key == "Hidden"@ {
        if st.hidden is Some {
            Err("the main Desktop entry has duplicate critical keys"@)
        } else {
            Ok(entry_with_hidden(st, value))
        }
    } else {
        Ok(st)
    }
}

/// Reads one line: blank lines and comments are skipped, a group header selects the group,
/// and lines of the main group are `key=value`, trimmed around the `=`.
pub open spec fn entry_line(st: EntryView, raw: Seq<char>) -> Result<EntryView, Seq<char>> {
    let line = trim(raw);
    if line.len() == 0 || line[0] == '#' {
        Ok(st)
    } else if line[0] == '[' && line.last() == ']' {
        Ok(entry_in_group(st, line == "[Desktop Entry]"@))
    } else if !st.in_main {
        Ok(st)
    } else {
        match split_once(line, '=') {
            None => Err("the main Desktop entry is malformed"@),
            Some((key, value)) => entry_key_value(st, trim(key), trim(value)),
        }
    }
}

/// Reads the lines of `text` (separated by line feeds) from state `st` on.
pub open spec fn entry_lines(text: Seq<char>, st: EntryView) -> Result<EntryView, Seq<char>>
    decreases text.len(),
{
    match text.index_of_first('\n') {
        Some(i) => if 0 <= i < text.len() {
            match entry_line(st, text.take(i)) {
                Err(e) => Err(e),
                Ok(next) => entry_lines(text.skip(i + 1), next),
            }
        } else {
            entry_line(st, text)
        },
        None => entry_line(st, text),
    }
}

/// The command of a Desktop entry's text.
pub open spec fn desktop_entry(text: Seq<char>) -> Result<ExecView, Seq<char>> {
    match entry_lines(text, entry_start()) {
        Err(e) => Err(e),
        Ok(st) => if !st.found_main {
            Err("the main Desktop entry is missing"@)
        } else if st.hidden == Some("true"@) {
            Err("codex-desktop.desktop is hidden"@)
        } else if st.entry_type != Some("Application"@) {
            Err("the Desktop entry is not a launchable application"@)
        } else {
            match st.command {
                None => Err("the Desktop entry has no Exec command"@),
                Some(exec) => desktop_exec(exec),
            }
        },
    }
}

/// The command of a Desktop entry file.
pub open spec fn desktop_entry_bytes(bytes: Seq<u8>) -> Result<ExecView, Seq<char>> {
    if !vstd::utf8::valid_utf8(bytes) {
        Err("the Desktop entry is not UTF-8"@)
    } else {
        desktop_entry(vstd::utf8::decode_utf8(bytes))
    }
}

pub open spec fn optional_view(value: Option<Vec<char>>) -> Option<Seq<char>> {
    match value {
        Some(v) => Some(v@),
        None => None,
    }
}

/// The reader's state between two lines of a Desktop entry.
struct EntryState {
    in_main: bool,
    found_main: bool,
    entry_type: Option<Vec<char>>,
    command: Option<Vec<char>>,
    hidden: Option<Vec<char>>,
}

impl EntryState {
    spec fn view(self) -> EntryView {
        EntryView {
            in_main: self.in_main,
            found_main: self.found_main,
            entry_type: optional_view(self.entry_type),
            command: optional_view(self.command),
            hidden: optional_view(self.hidden),
        }
    }
}

fn entry_key_value_step(st: EntryState, key: Vec<char>, value: Vec<char>) -> (result: Result<EntryState, DiscoveryFailure>)
    ensures
        match result {
            Ok(next) => entry_key_value(st.view(), key@, value@) == Ok::<EntryView, Seq<char>>(next.view()),
            Err(failure) => entry_key_value(st.view(), key@, value@) == Err::<EntryView, Seq<char>>(failure.reason()),
        },
{
    if !valid_desktop_key(&key) {
        return Err(DiscoveryFailure::unavailable("the main Desktop entry has an invalid key"));
    }
    if chars_are(&key, "Type") {
        if st.entry_type.is_some() {
            return Err(DiscoveryFailure::unavailable("the main Desktop entry has duplicate critical keys"));
        }
        return Ok(EntryState { in_main: st.in_main, found_main: st.found_main, entry_type: Some(value), command: st.command, hidden: st.hidden });
    }
    if chars_are(&key, "Exec") {
        if st.command.is_some() {
            return Err(DiscoveryFailure::unavailable("the main Desktop entry has duplicate critical keys"));
        }
        return Ok(EntryState { in_main: st.in_main, found_main: st.found_main, entry_type: st.entry_type, command: Some(value), hidden: st.hidden });
    }
    if chars_are(&key, "Hidden") {
        if st.hidden.is_some() {
            return Err(DiscoveryFailure::unavailable("the main Desktop entry has duplicate critical keys"));
        }
        return Ok(EntryState { in_main: st.in_main, found_main: st.found_main, entry_type: st.entry_type, command: st.command, hidden: Some(value) });
    }
    Ok(st)
}

/// Reads the line of `text` between `start` and `end`.
fn entry_line_step(st: EntryState, text: &Vec<char>, start: usize, end: usize) -> (result: Result<EntryState, DiscoveryFailure>)
    requires
        start <= end <= text@.len(),
    ensures
        match result {
            Ok(next) => entry_line(st.view(), text@.subrange(start as int, end as int)) == Ok::<EntryView, Seq<char>>(next.view()),
            Err(failure) => entry_line(st.view(), text@.subrange(start as int, end as int)) == Err::<EntryView, Seq<char>>(failure.reason()),
        },
{
    let line = trimmed(text, start, end);
    let n = line.len();
    if n == 0 || line[0] == '#' {
        return Ok(st);
    }
    if line[0] == '[' && line[n - 1] == ']' {
        let main = chars_are(&line, "[Desktop Entry]");
        return Ok(EntryState { in_main: main, found_main: st.found_main || main, entry_type: st.entry_type, command: st.command, hidden: st.hidden });
    }
    if !st.in_main {
        return Ok(st);
    }
    match find_first(&line, '=') {
        None => Err(DiscoveryFailure::unavailable("the main Desktop entry is malformed")),
        Some(i) => {
            let key = trimmed(&line, 0, i);
            let value = trimmed(&line, i + 1, n);
            assert(line@.subrange(0, i as int) =~= line@.take(i as int));
            assert(line@.subrange(i + 1, n as int) =~= line@.skip(i + 1));
            entry_key_value_step(st, key, value)
        },
    }
}

/// The command of a Desktop entry's text.
fn parse_entry_text(text: &Vec<char>) -> (result: Result<ParsedDesktopExec, DiscoveryFailure>)
    ensures
        exec_matches(result, desktop_entry(text@)),
{
    let n = text.len();
    let mut st = EntryState { in_main: false, found_main: false, entry_type: None, command: None, hidden: None };
    let mut pos: usize = 0;
    let mut finished = false;
    assert(text@.skip(0) =~= text@);
    while !finished
        invariant
            n == text@.len(),
            0 <= pos <= n,
            !finished ==> entry_lines(text@.skip(pos as int), st.view()) == entry_lines(text@, entry_start()),
            finished ==> entry_lines(text@, entry_start()) == Ok::<EntryView, Seq<char>>(st.view()),
        decreases n - pos + (if finished { 0int } else { 1int }),
    {
        let ghost rest = text@.skip(pos as int);
        match find_from(text, '\n', pos) {
            Some(i) => {
                assert(rest.take(i - pos) =~= text@.subrange(pos as int, i as int));
                assert(rest.skip(i - pos + 1) =~= text@.skip(i + 1));
                st = match entry_line_step(st, text, pos, i) {
                    Ok(next) => next,
                    Err(failure) => {
                        return Err(failure);
                    },
                };
                pos = i + 1;
            },
            None => {
                assert(rest =~= text@.subrange(pos as int, n as int));
                st = match entry_line_step(st, text, pos, n) {
                    Ok(next) => next,
                    Err(failure) => {
                        return Err(failure);
                    },
                };
                finished = true;
            },
        }
    }
    if !st.found_main {
        return Err(DiscoveryFailure::unavailable("the main Desktop entry is missing"));
    }
    let hidden = match &st.hidden {
        Some(value) => chars_are(value, "true"),
        None => false,
    };
    if hidden {
        return Err(DiscoveryFailure::unavailable("codex-desktop.desktop is hidden"));
    }
    let application = match &st.entry_type {
        Some(value) => chars_are(value, "Application"),
        None => false,
    };
    if !application {
        return Err(DiscoveryFailure::unavailable("the Desktop entry is not a launchable application"));
    }
    match &st.command {
        None => Err(DiscoveryFailure::unavailable("the Desktop entry has no Exec command")),
        Some(command) => parse_exec_characters(command),
    }
}

/// Reads a Desktop entry file and parses the command that its main entry starts.
pub fn parse_desktop_entry(bytes: &[u8]) -> (result: Result<ParsedDesktopExec, DiscoveryFailure>)
    ensures
        exec_matches(result, desktop_entry_bytes(bytes@)),
{
    match decode_utf8_text(bytes) {
        None => Err(DiscoveryFailure::unavailable("the Desktop entry is not UTF-8")),
        Some(text) => {
            let characters = chars_of(text.as_str());
            parse_entry_text(&characters)
        },
    }
}

proof fn lemma_env_scan_keys(ts: Seq<TokenView>, i: int, env: Map<Seq<char>, Seq<char>>)
    requires
        forall|k: Seq<char>| env.contains_key(k) ==> is_env_key(k),
    ensures
        match env_scan(ts, i, env) {
            Ok((scanned, _)) => forall|k: Seq<char>| scanned.contains_key(k) ==> is_env_key(k),
            Err(_) => true,
        },
    decreases ts.len() - i,
{
    if 0 <= i < ts.len() {
        let v = token_value(ts[i]);
        match env_assignment(v) {
            Some((key, value)) => {
                assert forall|k: Seq<char>| env.insert(key, value).contains_key(k) implies is_env_key(k) by {
                    if k != key {
                        assert(env.contains_key(k));
                    }
                }
                lemma_env_scan_keys(ts, i + 1, env.insert(key, value));
            },
            None => {},
        }
    }
}

/// What a parsed `Exec` command starts is never an assignment or `env` itself, and every
/// variable it sets has a valid name.
pub proof fn parsed_command_is_direct(input: Seq<char>)
    ensures
        match desktop_exec(input) {
            Ok(view) => !view.executable.contains('=') && view.executable != "env"@
                && forall|k: Seq<char>| view.environment.contains_key(k) ==> is_env_key(k),
            Err(_) => true,
        },
{
    match tokenize(input) {
        Ok(ts) => match field_codes_all(ts) {
            Ok(kept) => {
                if kept.len() > 0 && token_value(kept[0]) == "env"@ {
                    lemma_env_scan_keys(kept, 1, Map::empty());
                }
            },
            Err(_) => {},
        },
        Err(_) => {},
    }
}

} // verus!
