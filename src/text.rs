use vstd::prelude::*;

verus! {

/// Whether `c` carries Unicode's White_Space property, as `char::is_whitespace` decides it.
pub uninterp spec fn white_space(c: char) -> bool;

/// A value is blank when nothing but whitespace remains after trimming it,
/// that is, when every character of it is whitespace.
pub open spec fn blank(s: Seq<char>) -> bool {
    forall|i: int| 0 <= i < s.len() ==> white_space(#[trigger] s[i])
}

/// Relies on `char::is_whitespace`: true exactly for the characters with the
/// White_Space property, the same test that `str::trim` strips by.
#[verifier::external_body]
fn is_whitespace(c: char) -> (r: bool)
    ensures
        r == white_space(c),
{
    c.is_whitespace()
}

/// Whether `s` is empty once leading and trailing whitespace is trimmed.
pub fn is_blank(s: &str) -> (r: bool)
    ensures
        r == blank(s@),
{
    let n: usize = s.unicode_len();
    let mut i: usize = 0;
    while i < n
        invariant
            n == s@.len(),
            i <= n,
            forall|j: int| 0 <= j < i ==> white_space(#[trigger] s@[j]),
        decreases n - i,
    {
        if !is_whitespace(s.get_char(i)) {
            return false;
        }
        i = i + 1;
    }
    true
}

} // verus!
