//! What every prompt does with a line of input before reading it.
use vstd::prelude::*;

verus! {

/// Whether `c` has the Unicode property White_Space.
pub open spec fn is_white_space(c: char) -> bool {
    ('\u{9}' <= c <= '\u{d}') || c == ' ' || c == '\u{85}' || c == '\u{a0}' || c == '\u{1680}'
        || ('\u{2000}' <= c <= '\u{200a}') || c == '\u{2028}' || c == '\u{2029}' || c
        == '\u{202f}' || c == '\u{205f}' || c == '\u{3000}'
}

/// `s` without its leading white space.
pub open spec fn trimmed_start(s: Seq<char>) -> Seq<char>
    decreases s.len(),
{
    if s.len() > 0 && is_white_space(s[0]) {
        trimmed_start(s.drop_first())
    } else {
        s
    }
}

/// `s` without its trailing white space.
pub open spec fn trimmed_end(s: Seq<char>) -> Seq<char>
    decreases s.len(),
{
    if s.len() > 0 && is_white_space(s.last()) {
        trimmed_end(s.drop_last())
    } else {
        s
    }
}

/// A line with its leading and trailing white space removed.
pub open spec fn trimmed(s: Seq<char>) -> Seq<char> {
    trimmed_end(trimmed_start(s))
}

/// Relies on `str::trim`: it removes the leading and trailing characters
/// that have the Unicode property White_Space.
#[verifier::external_body]
pub(crate) fn trim_line(s: &str) -> (r: &str)
    ensures
        r@ == trimmed(s@),
{
    s.trim()
}

/// The quit sentinel of the directory prompt, `q` in either case.
pub open spec fn is_path_quit(s: Seq<char>) -> bool {
    s == seq!['q'] || s == seq!['Q']
}

/// Whether `s` is exactly the one character `c`.
pub(crate) fn is_single(s: &str, c: char) -> (r: bool)
    ensures
        r == (s@ == seq![c]),
{
    if s.unicode_len() != 1 {
        false
    } else {
        let d = s.get_char(0);
        assert(s@ =~= seq![d]);
        d == c
    }
}

/// Whether a (trimmed) line is the quit sentinel of the directory prompt.
pub fn is_path_quit_input(s: &str) -> (r: bool)
    ensures
        r == is_path_quit(s@),
{
    is_single(s, 'q') || is_single(s, 'Q')
}

} // verus!
