//! SDL identifiers. A name in SDL matches `/[_A-Za-z][_0-9A-Za-z]*/`: it is
//! non-empty, starts with a letter or underscore, and continues with letters,
//! digits and underscores.

use vstd::prelude::*;

verus! {

/// Whether `c` may open an SDL name: a letter or an underscore.
pub open spec fn is_name_start(c: char) -> bool {
    c == '_' || ('a' <= c && c <= 'z') || ('A' <= c && c <= 'Z')
}

/// Whether `c` may continue an SDL name: a letter, a digit or an underscore.
pub open spec fn is_name_continue(c: char) -> bool {
    is_name_start(c) || ('0' <= c && c <= '9')
}

/// Whether `s` is a valid SDL name.
pub open spec fn is_sdl_name(s: Seq<char>) -> bool {
    &&& s.len() > 0
    &&& is_name_start(s[0])
    &&& forall|i: int| 1 <= i < s.len() ==> is_name_continue(#[trigger] s[i])
}

fn check_name_start(c: char) -> (r: bool)
    ensures
        r == is_name_start(c),
{
    c == '_' || ('a' <= c && c <= 'z') || ('A' <= c && c <= 'Z')
}

fn check_name_continue(c: char) -> (r: bool)
    ensures
        r == is_name_continue(c),
{
    check_name_start(c) || ('0' <= c && c <= '9')
}

/// Decides whether `s` is a valid SDL name.
pub fn is_valid_name(s: &str) -> (r: bool)
    ensures
        r == is_sdl_name(s@),
{
    let len = s.unicode_len();
    if len == 0 {
        return false;
    }
    if !check_name_start(s.get_char(0)) {
        return false;
    }
    let mut i: usize = 1;
    while i < len
        invariant
            1 <= i <= len,
            len == s@.len(),
            is_name_start(s@[0]),
            forall|j: int| 1 <= j < i ==> is_name_continue(#[trigger] s@[j]),
        decreases len - i,
    {
        if !check_name_continue(s.get_char(i)) {
            return false;
        }
        i += 1;
    }
    true
}

} // verus!
