//! The rules a session name must follow.
use vstd::prelude::*;
use vstd::string::*;

verus! {

/// Why a candidate session name was refused.
#[derive(Debug, Clone, Copy, PartialEq, Eq, Structural)]
pub enum NameError {
    Empty,
    HasColon,
    HasDot,
    LeadingSpace,
    TrailingSpace,
}

/// The first rule that `s` breaks, if any, in the order the rules are checked.
pub open spec fn name_error(s: Seq<char>) -> Option<NameError> {
    if s.len() == 0 {
        Some(NameError::Empty)
    } else if s.contains(':') {
        Some(NameError::HasColon)
    } else if s.contains('.') {
        Some(NameError::HasDot)
    } else if s[0] == ' ' {
        Some(NameError::LeadingSpace)
    } else if s.last() == ' ' {
        Some(NameError::TrailingSpace)
    } else {
        None
    }
}

/// A name the multiplexer accepts: non-empty, no `:`, no `.`, no space at
/// either end.
pub open spec fn is_valid_name(s: Seq<char>) -> bool {
    name_error(s).is_none()
}

impl NameError {
    /// The text shown to the user for this refusal.
    pub fn message(&self) -> (r: &'static str)
        ensures
            *self == NameError::Empty ==> r@ == "session name cannot be empty"@,
            *self == NameError::HasColon ==> r@ == "session name cannot contain ':'"@,
            *self == NameError::HasDot ==> r@ == "session name cannot contain '.'"@,
            *self == NameError::LeadingSpace ==> r@ == "session name cannot start with a space"@,
            *self == NameError::TrailingSpace ==> r@ == "session name cannot end with a space"@,
    {
        match self {
            NameError::Empty => "session name cannot be empty",
            NameError::HasColon => "session name cannot contain ':'",
            NameError::HasDot => "session name cannot contain '.'",
            NameError::LeadingSpace => "session name cannot start with a space",
            NameError::TrailingSpace => "session name cannot end with a space",
        }
    }
}

/// Whether the character `c` occurs in `s`.
fn has_char(s: &str, c: char) -> (r: bool)
    ensures
        r == s@.contains(c),
{
    let n = s.unicode_len();
    let mut i: usize = 0;
    while i < n
        invariant
            n == s@.len(),
            i <= n,
            forall|j: int| 0 <= j < i ==> s@[j] != c,
        decreases n - i,
    {
        if s.get_char(i) == c {
            return true;
        }
        i = i + 1;
    }
    false
}

/// Checks `name` against the naming rules.
pub fn validate_session_name(name: &str) -> (r: Result<(), NameError>)
    ensures
        r == match name_error(name@) {
            Some(e) => Err(e),
            None => Ok::<(), NameError>(()),
        },
{
    let n = name.unicode_len();
    if n == 0 {
        Err(NameError::Empty)
    } else if has_char(name, ':') {
        Err(NameError::HasColon)
    } else if has_char(name, '.') {
        Err(NameError::HasDot)
    } else if name.get_char(0) == ' ' {
        Err(NameError::LeadingSpace)
    } else if name.get_char(n - 1) == ' ' {
        Err(NameError::TrailingSpace)
    } else {
        Ok(())
    }
}

/// A name is refused exactly when it is empty, holds a `:` or a `.`, or
/// starts or ends with a space; the reason given is one of those that hold,
/// and a broken rule is reported unless a rule checked before it is broken
/// too.
pub proof fn validation_law(s: Seq<char>)
    ensures
        is_valid_name(s) <==> !(s.len() == 0 || s.contains(':') || s.contains('.') || s[0] == ' '
            || s.last() == ' '),
        name_error(s) == Some(NameError::Empty) ==> s.len() == 0,
        name_error(s) == Some(NameError::HasColon) ==> s.contains(':'),
        name_error(s) == Some(NameError::HasDot) ==> s.contains('.'),
        name_error(s) == Some(NameError::LeadingSpace) ==> s[0] == ' ',
        name_error(s) == Some(NameError::TrailingSpace) ==> s.last() == ' ',
        s.len() == 0 ==> name_error(s) == Some(NameError::Empty),
        s.contains(':') ==> name_error(s) == Some(NameError::HasColon),
        !s.contains(':') && s.contains('.') ==> name_error(s) == Some(NameError::HasDot),
        s.len() > 0 && !s.contains(':') && !s.contains('.') && s[0] == ' ' ==> name_error(s)
            == Some(NameError::LeadingSpace),
        s.len() > 0 && !s.contains(':') && !s.contains('.') && s[0] != ' ' && s.last() == ' '
            ==> name_error(s) == Some(NameError::TrailingSpace),
{
}

} // verus!
