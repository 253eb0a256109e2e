//! The command line: the arguments it rewrites before parsing and the launcher path it
//! accepts.
use vstd::prelude::*;

use crate::paths::{bytes_equal, is_absolute, is_desktop_entry, is_desktop_entry_path, SLASH};

verus! {

/// The bytes of `codex`.
pub open spec fn codex_word() -> Seq<u8> {
    seq![99u8, 111u8, 100u8, 101u8, 120u8]
}

/// The bytes of `--verbose`.
pub open spec fn verbose_flag() -> Seq<u8> {
    seq![45u8, 45u8, 118u8, 101u8, 114u8, 98u8, 111u8, 115u8, 101u8]
}

/// The bytes of `--`.
pub open spec fn separator() -> Seq<u8> {
    seq![45u8, 45u8]
}

pub open spec fn args_view(args: Seq<Vec<u8>>) -> Seq<Seq<u8>> {
    args.map_values(|a: Vec<u8>| a@)
}

/// The arguments as parsed: where `--verbose` directly follows the first `codex`, a `--` is
/// put between them, so that the flag goes to Codex CLI and not to this program.
pub open spec fn passthrough_args(args: Seq<Seq<u8>>) -> Seq<Seq<u8>> {
    match args.index_of_first(codex_word()) {
        Some(i) => if i + 1 < args.len() && args[i + 1] == verbose_flag() {
            args.take(i + 1) + seq![separator()] + args.skip(i + 1)
        } else {
            args
        },
        None => args,
    }
}

fn word(bytes: &[u8], expected: &[u8]) -> (r: bool)
    ensures
        r == (bytes@ == expected@),
{
    bytes_equal(bytes, expected)
}

pub fn codex_passthrough_arguments(args: Vec<Vec<u8>>) -> (rewritten: Vec<Vec<u8>>)
    ensures
        args_view(rewritten@) == passthrough_args(args_view(args@)),
{
    let ghost view = args_view(args@);
    let codex: Vec<u8> = vec![99u8, 111u8, 100u8, 101u8, 120u8];
    let verbose: Vec<u8> = vec![45u8, 45u8, 118u8, 101u8, 114u8, 98u8, 111u8, 115u8, 101u8];
    assert(codex@ =~= codex_word());
    assert(verbose@ =~= verbose_flag());
    let n = args.len();
    let mut i: usize = 0;
    while i < n
        invariant
            n == args@.len(),
            view == args_view(args@),
            codex@ == codex_word(),
            verbose@ == verbose_flag(),
            0 <= i <= n,
            forall|j: int| 0 <= j < i ==> view[j] != codex_word(),
        decreases n - i,
    {
        assert(view[i as int] == args@[i as int]@);
        if word(args[i].as_slice(), codex.as_slice()) {
            proof {
                view.index_of_first_ensures(codex_word());
                match view.index_of_first(codex_word()) {
                    Some(k) => {
                        assert(k == i);
                    },
                    None => {
                        assert(view.contains(codex_word()));
                    },
                }
            }
            if i + 1 < n && word(args[i + 1].as_slice(), verbose.as_slice()) {
                assert(view[i + 1] == args@[i + 1]@);
                let mut rewritten: Vec<Vec<u8>> = Vec::new();
                let mut k: usize = 0;
                while k < n
                    invariant
                        n == args@.len(),
                        view == args_view(args@),
                        i + 1 < n,
                        0 <= k <= n,
                        args_view(rewritten@) =~= (if k <= i + 1 { view.take(k as int) } else { view.take(i + 1) + seq![separator()] + view.subrange(i + 1, k as int) }),
                    decreases n - k,
                {
                    if k == i + 1 {
                        let dashes: Vec<u8> = vec![45u8, 45u8];
                        assert(dashes@ =~= separator());
                        let ghost before = args_view(rewritten@);
                        rewritten.push(dashes);
                        assert(args_view(rewritten@) =~= before.push(separator()));
                    }
                    let ghost before = args_view(rewritten@);
                    rewritten.push(args[k].clone());
                    assert(args_view(rewritten@) =~= before.push(view[k as int]));
                    k = k + 1;
                }
                assert(view.subrange(i + 1, n as int) =~= view.skip(i + 1));
                return rewritten;
            }
            return args;
        }
        i = i + 1;
    }
    proof {
        view.index_of_first_ensures(codex_word());
        match view.index_of_first(codex_word()) {
            Some(k) => {
                assert(view[k] == codex_word());
            },
            None => {},
        }
    }
    args
}

/// The verdict on a `--desktop-launcher` value: an absolute path that is not a Desktop entry.
pub open spec fn launcher_path_check(value: Seq<char>) -> Result<Seq<char>, Seq<char>> {
    let bytes = vstd::utf8::encode_utf8(value);
    if !is_absolute(bytes) {
        Err("must be an absolute path"@)
    } else if is_desktop_entry(bytes) {
        Err("must be an absolute executable path, not a desktop entry"@)
    } else {
        Ok(value)
    }
}

pub fn parse_absolute_launcher_path(value: &str) -> (result: Result<String, String>)
    ensures
        match result {
            Ok(path) => launcher_path_check(value@) == Ok::<Seq<char>, Seq<char>>(path@),
            Err(message) => launcher_path_check(value@) == Err::<Seq<char>, Seq<char>>(message@),
        },
{
    let bytes = value.as_bytes();
    if !(bytes.len() > 0 && bytes[0] == SLASH) {
        return Err(String::from_str("must be an absolute path"));
    }
    if is_desktop_entry_path(bytes) {
        return Err(String::from_str("must be an absolute executable path, not a desktop entry"));
    }
    Ok(value.to_owned())
}

} // verus!
