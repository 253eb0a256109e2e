//! Release versions and their text.
use vstd::prelude::*;

use crate::text::push_char;

verus! {

/// A semantic version: `major.minor.patch`, an optional pre-release and optional build
/// metadata.
#[derive(Debug)]
pub struct Version {
    pub major: u64,
    pub minor: u64,
    pub patch: u64,
    pub pre: String,
    pub build: String,
}

/// The decimal digit of `d`.
pub open spec fn digit_char(d: nat) -> char {
    (48 + d) as char
}

/// The decimal text of `n`, without leading zeros.
pub open spec fn decimal_text(n: nat) -> Seq<char>
    decreases n,
{
    if n < 10 {
        seq![digit_char(n)]
    } else {
        decimal_text(n / 10).push(digit_char(n % 10))
    }
}

/// The text of a version: `major.minor.patch`, then `-pre` where there is a pre-release and
/// `+build` where there is build metadata.
pub open spec fn version_text(major: u64, minor: u64, patch: u64, pre: Seq<char>, build: Seq<char>) -> Seq<char> {
    let core = decimal_text(major as nat) + "."@ + decimal_text(minor as nat) + "."@ + decimal_text(patch as nat);
    let with_pre = if pre.len() > 0 { core + "-"@ + pre } else { core };
    if build.len() > 0 { with_pre + "+"@ + build } else { with_pre }
}

/// Appends the decimal text of `n`.
pub fn push_decimal(text: &mut String, n: u64)
    ensures
        final(text)@ == old(text)@ + decimal_text(n as nat),
    decreases n,
{
    if n >= 10 {
        push_decimal(text, n / 10);
    }
    let d = (n % 10) as u8;
    let c = (48u8 + d) as char;
    assert(c == digit_char((n % 10) as nat));
    push_char(text, c);
}

impl Version {
    pub open spec fn text(&self) -> Seq<char> {
        version_text(self.major, self.minor, self.patch, self.pre@, self.build@)
    }

    /// A release version without pre-release or build metadata.
    pub fn new(major: u64, minor: u64, patch: u64) -> (version: Self)
        ensures
            version.major == major,
            version.minor == minor,
            version.patch == patch,
            version.pre@ == Seq::<char>::empty(),
            version.build@ == Seq::<char>::empty(),
    {
        Version { major, minor, patch, pre: String::new(), build: String::new() }
    }

    /// Appends the text of the version.
    pub fn push_text(&self, text: &mut String)
        ensures
            final(text)@ == old(text)@ + self.text(),
    {
        let ghost start = text@;
        push_decimal(text, self.major);
        text.append(".");
        push_decimal(text, self.minor);
        text.append(".");
        push_decimal(text, self.patch);
        assert(text@ =~= start + (decimal_text(self.major as nat) + "."@ + decimal_text(self.minor as nat) + "."@ + decimal_text(self.patch as nat)));
        let ghost core = decimal_text(self.major as nat) + "."@ + decimal_text(self.minor as nat) + "."@ + decimal_text(self.patch as nat);
        if !self.pre.as_str().is_empty() {
            text.append("-");
            text.append(self.pre.as_str());
            assert(text@ =~= start + (core + "-"@ + self.pre@));
        }
        let ghost with_pre = if self.pre@.len() > 0 { core + "-"@ + self.pre@ } else { core };
        assert(text@ =~= start + with_pre);
        if !self.build.as_str().is_empty() {
            text.append("+");
            text.append(self.build.as_str());
            assert(text@ =~= start + (with_pre + "+"@ + self.build@));
        }
    }

    /// The text of the version.
    pub fn to_text(&self) -> (text: String)
        ensures
            text@ == self.text(),
    {
        let mut text = String::new();
        self.push_text(&mut text);
        assert(text@ =~= self.text());
        text
    }
}

} // verus!
