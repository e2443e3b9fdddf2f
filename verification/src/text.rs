//! Comparing configuration words without regard to the case of their
//! ASCII letters.

use vstd::prelude::*;

verus! {

/// The code of `c`, the upper-case letters `A` to `Z` taken as `a` to `z`.
pub open spec fn folded_code(c: char) -> u32 {
    if 'A' <= c <= 'Z' {
        (c as u32 + 32) as u32
    } else {
        c as u32
    }
}

/// Whether two texts are the same but for the case of their ASCII letters.
pub open spec fn same_ignoring_case(left: Seq<char>, right: Seq<char>) -> bool {
    &&& left.len() == right.len()
    &&& forall|i: int| 0 <= i < left.len() ==> folded_code(#[trigger] left[i]) == folded_code(right[i])
}

/// The code of `c` with the case of an ASCII letter folded away.
pub fn fold(c: char) -> (code: u32)
    ensures
        code == folded_code(c),
{
    let code = c as u32;
    if 65 <= code && code <= 90 {
        code + 32
    } else {
        code
    }
}

/// Compares two texts without regard to the case of their ASCII letters.
pub fn eq_ignoring_case(left: &str, right: &str) -> (same: bool)
    ensures
        same == same_ignoring_case(left@, right@),
{
    let n = left.unicode_len();
    if right.unicode_len() != n {
        return false;
    }
    let mut i: usize = 0;
    while i < n
        invariant
            i <= n,
            n == left@.len(),
            n == right@.len(),
            forall|j: int| 0 <= j < i ==> folded_code(#[trigger] left@[j]) == folded_code(right@[j]),
        decreases n - i,
    {
        if fold(left.get_char(i)) != fold(right.get_char(i)) {
            return false;
        }
        i += 1;
    }
    true
}

/// Compares two texts character by character.
pub fn eq_text(left: &str, right: &str) -> (same: bool)
    ensures
        same == (left@ == right@),
{
    let n = left.unicode_len();
    if right.unicode_len() != n {
        return false;
    }
    let mut i: usize = 0;
    while i < n
        invariant
            i <= n,
            n == left@.len(),
            n == right@.len(),
            forall|j: int| 0 <= j < i ==> left@[j] == right@[j],
        decreases n - i,
    {
        if left.get_char(i) != right.get_char(i) {
            return false;
        }
        i += 1;
    }
    assert(left@ =~= right@);
    true
}

} // verus!
