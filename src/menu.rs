//! The session listing and the menu built from it.
use vstd::prelude::*;
use vstd::string::*;
use crate::input::{is_single, trim_line, trimmed};

verus! {

/// Position of the first line feed at or after `i` in `t`, or `t.len()`.
pub open spec fn next_newline(t: Seq<char>, i: nat) -> nat
    decreases t.len() - i,
{
    if i >= t.len() {
        t.len()
    } else if t[i as int] == '\n' {
        i
    } else {
        next_newline(t, i + 1)
    }
}

/// A line without the carriage return that ends it, if any.
pub open spec fn without_cr(l: Seq<char>) -> Seq<char> {
    if l.len() > 0 && l.last() == '\r' {
        l.drop_last()
    } else {
        l
    }
}

proof fn lemma_next_newline_bounds(t: Seq<char>, i: nat)
    ensures
        i <= t.len() ==> i <= next_newline(t, i) <= t.len(),
        next_newline(t, i) < t.len() ==> t[next_newline(t, i) as int] == '\n',
        forall|j: int| i <= j < next_newline(t, i) ==> t[j] != '\n',
    decreases t.len() - i,
{
    if i < t.len() && t[i as int] != '\n' {
        lemma_next_newline_bounds(t, i + 1);
    }
}

#[via_fn]
proof fn lines_from_decreases(t: Seq<char>, i: nat) {
    lemma_next_newline_bounds(t, i);
}

/// The lines of `t` from position `i` on: split at line feeds, a carriage
/// return before a line feed dropped, no empty line after a final line feed.
pub open spec fn lines_from(t: Seq<char>, i: nat) -> Seq<Seq<char>>
    decreases t.len() - i,
    via lines_from_decreases
{
    if i >= t.len() {
        Seq::empty()
    } else {
        let k = next_newline(t, i);
        if k >= t.len() {
            seq![t.subrange(i as int, t.len() as int)]
        } else {
            seq![without_cr(t.subrange(i as int, k as int))] + lines_from(t, k + 1)
        }
    }
}

/// The session names in the listing `t`, one per line.
pub open spec fn session_lines(t: Seq<char>) -> Seq<Seq<char>> {
    lines_from(t, 0)
}

/// Splits the listing printed by the multiplexer into session names, in
/// the order listed.
pub fn parse_session_list(text: &str) -> (r: Vec<String>)
    ensures
        r@.map_values(|s: String| s@) == session_lines(text@),
{
    let n = text.unicode_len();
    let ghost t = text@;
    let mut out: Vec<String> = Vec::new();
    let mut i: usize = 0;
    while i < n
        invariant
            n == t.len(),
            t == text@,
            i <= n,
            out@.map_values(|s: String| s@) + lines_from(t, i as nat) == lines_from(t, 0),
        decreases n - i,
    {
        let mut k: usize = i;
        while k < n && text.get_char(k) != '\n'
            invariant
                i <= k <= n,
                n == t.len(),
                t == text@,
                next_newline(t, k as nat) == next_newline(t, i as nat),
            decreases n - k,
        {
            k = k + 1;
        }
        let ghost before = out@.map_values(|s: String| s@);
        if k >= n {
            let line = text.substring_char(i, n).to_owned();
            out.push(line);
            assert(out@.map_values(|s: String| s@) =~= before.push(t.subrange(i as int, n as int)));
            assert(lines_from(t, n as nat) =~= Seq::<Seq<char>>::empty());
            assert(before + lines_from(t, i as nat) =~= before.push(t.subrange(i as int, n as int))
                + lines_from(t, n as nat));
            i = n;
        } else {
            let mut end: usize = k;
            if end > i && text.get_char(end - 1) == '\r' {
                end = end - 1;
            }
            let line = text.substring_char(i, end).to_owned();
            assert(line@ =~= without_cr(t.subrange(i as int, k as int)));
            out.push(line);
            assert(out@.map_values(|s: String| s@) =~= before.push(line@));
            assert(before + lines_from(t, i as nat) =~= before.push(line@) + lines_from(
                t,
                (k + 1) as nat,
            ));
            i = k + 1;
        }
    }
    assert(lines_from(t, i as nat) =~= Seq::<Seq<char>>::empty());
    assert(out@.map_values(|s: String| s@) + lines_from(t, i as nat) =~= out@.map_values(
        |s: String| s@,
    ));
    out
}

/// Whether `c` is a decimal digit.
pub open spec fn is_digit(c: char) -> bool {
    '0' <= c <= '9'
}

/// The value of a string of decimal digits.
pub open spec fn digits_value(s: Seq<char>) -> nat
    decreases s.len(),
{
    if s.len() == 0 {
        0
    } else {
        digits_value(s.drop_last()) * 10 + (s.last() as nat - '0' as nat) as nat
    }
}

/// `s` without a leading `+`, if it has one.
pub open spec fn unsigned_part(s: Seq<char>) -> Seq<char> {
    if s.len() > 0 && s[0] == '+' {
        s.drop_first()
    } else {
        s
    }
}

/// Whether `s` is a non-empty string of decimal digits.
pub open spec fn all_digits(s: Seq<char>) -> bool {
    s.len() > 0 && forall|j: int| 0 <= j < s.len() ==> is_digit(#[trigger] s[j])
}

/// The digits of a decimal number written with an optional leading `+`,
/// as `usize`'s `from_str` accepts it; `None` when `s` is no such number.
pub open spec fn number_digits(s: Seq<char>) -> Option<Seq<char>> {
    if all_digits(unsigned_part(s)) {
        Some(unsigned_part(s))
    } else {
        None
    }
}

/// What was chosen at the menu.
#[derive(Debug, PartialEq, Eq)]
pub enum MenuChoice {
    /// Create a new session.
    NewSession,
    /// Attach to the listed session of this name.
    Attach(String),
    /// The answer is not a number.
    NotANumber,
    /// The number names no listed session.
    OutOfRange,
}

/// A `MenuChoice` with its name as a character sequence.
pub enum MenuModel {
    NewSession,
    Attach(Seq<char>),
    NotANumber,
    OutOfRange,
}

impl View for MenuChoice {
    type V = MenuModel;

    open spec fn view(&self) -> MenuModel {
        match self {
            MenuChoice::NewSession => MenuModel::NewSession,
            MenuChoice::Attach(n) => MenuModel::Attach(n@),
            MenuChoice::NotANumber => MenuModel::NotANumber,
            MenuChoice::OutOfRange => MenuModel::OutOfRange,
        }
    }
}

/// The choice made by the trimmed answer `input` at a menu listing
/// `sessions` from 1 on: `n` in either case for a new session, else the
/// number of a listed session.
pub open spec fn menu_choice(sessions: Seq<Seq<char>>, input: Seq<char>) -> MenuModel {
    if input == seq!['n'] || input == seq!['N'] {
        MenuModel::NewSession
    } else {
        match number_digits(input) {
            None => MenuModel::NotANumber,
            Some(d) => if 1 <= digits_value(d) <= sessions.len() {
                MenuModel::Attach(sessions[digits_value(d) - 1])
            } else {
                MenuModel::OutOfRange
            },
        }
    }
}

proof fn lemma_digits_push(s: Seq<char>, c: char)
    requires
        is_digit(c),
    ensures
        digits_value(s.push(c)) == digits_value(s) * 10 + (c as nat - '0' as nat),
        digits_value(s.push(c)) >= digits_value(s),
{
    assert(s.push(c).drop_last() =~= s);
}

/// The menu number written in `input` when it is at most `limit`.
fn menu_number(input: &str, limit: usize) -> (r: Option<usize>)
    requires
        number_digits(input@) is Some,
    ensures
        r matches Some(v) ==> v == digits_value(number_digits(input@)->Some_0) && v <= limit,
        r is None ==> digits_value(number_digits(input@)->Some_0) > limit,
{
    let n = input.unicode_len();
    let start: usize = if input.get_char(0) == '+' {
        1
    } else {
        0
    };
    let ghost body = unsigned_part(input@);
    assert(body =~= input@.subrange(start as int, n as int));
    let mut v: usize = 0;
    let mut over = false;
    let mut i: usize = start;
    assert(input@.subrange(start as int, start as int) =~= Seq::<char>::empty());
    while i < n
        invariant
            start <= i <= n,
            n == input@.len(),
            body == input@.subrange(start as int, n as int),
            forall|j: int| 0 <= j < body.len() ==> is_digit(#[trigger] body[j]),
            over ==> digits_value(input@.subrange(start as int, i as int)) > limit,
            !over ==> v == digits_value(input@.subrange(start as int, i as int)) && v <= limit,
        decreases n - i,
    {
        let c = input.get_char(i);
        assert(body[i - start] == c);
        let d = (c as u32 - '0' as u32) as usize;
        let ghost prev = input@.subrange(start as int, i as int);
        assert(input@.subrange(start as int, i + 1) =~= prev.push(c));
        proof {
            lemma_digits_push(prev, c);
        }
        if !over {
            match v.checked_mul(10) {
                None => {
                    over = true;
                },
                Some(m) => match m.checked_add(d) {
                    None => {
                        over = true;
                    },
                    Some(nv) => {
                        if nv > limit {
                            over = true;
                        } else {
                            v = nv;
                        }
                    },
                },
            }
        }
        i = i + 1;
    }
    if over {
        None
    } else {
        Some(v)
    }
}

/// Whether the trimmed `input` is a number in `usize`'s notation.
fn is_number(input: &str) -> (r: bool)
    ensures
        r == (number_digits(input@) is Some),
{
    let n = input.unicode_len();
    if n == 0 {
        return false;
    }
    let start: usize = if input.get_char(0) == '+' {
        1
    } else {
        0
    };
    let ghost body = unsigned_part(input@);
    assert(body =~= input@.subrange(start as int, n as int));
    if start == n {
        return false;
    }
    let mut i: usize = start;
    while i < n
        invariant
            start <= i <= n,
            n == input@.len(),
            body == input@.subrange(start as int, n as int),
            body == unsigned_part(input@),
            forall|j: int| 0 <= j < i - start ==> is_digit(#[trigger] body[j]),
        decreases n - i,
    {
        let c = input.get_char(i);
        assert(body[i - start] == c);
        if !('0' <= c && c <= '9') {
            let ghost k = i - start;
            assert(!is_digit(body[k]));
            assert(!all_digits(body));
            return false;
        }
        i = i + 1;
    }
    true
}

/// Reads the trimmed answer `input` at a menu listing `sessions`.
pub fn choose_trimmed(sessions: &Vec<String>, input: &str) -> (r: MenuChoice)
    ensures
        r@ == menu_choice(sessions@.map_values(|s: String| s@), input@),
{
    if is_single(input, 'n') || is_single(input, 'N') {
        MenuChoice::NewSession
    } else if !is_number(input) {
        MenuChoice::NotANumber
    } else {
        match menu_number(input, sessions.len()) {
            Some(v) => if v >= 1 {
                MenuChoice::Attach(sessions[v - 1].clone())
            } else {
                MenuChoice::OutOfRange
            },
            None => MenuChoice::OutOfRange,
        }
    }
}

/// Reads the answer `line` at a menu listing `sessions`.
pub fn choose_session(sessions: &Vec<String>, line: &str) -> (r: MenuChoice)
    ensures
        r@ == menu_choice(sessions@.map_values(|s: String| s@), trimmed(line@)),
{
    choose_trimmed(sessions, trim_line(line))
}

} // verus!
