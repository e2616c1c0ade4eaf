//! Character-level text utilities: exact equality and prefix tests on
//! string slices, proved against their `Seq<char>` views.

use vstd::prelude::*;
use vstd::string::StrSliceExecFns;

verus! {

/// `p` is an initial segment of `l`.
pub open spec fn is_prefix(p: Seq<char>, l: Seq<char>) -> bool {
    p.len() <= l.len() && l.subrange(0, p.len() as int) == p
}

/// Exact equality of two string slices, character by character.
pub fn str_eq(a: &str, b: &str) -> (r: bool)
    ensures
        r == (a@ == b@),
{
    let n = a.unicode_len();
    if n != b.unicode_len() {
        return false;
    }
    let mut i: usize = 0;
    while i < n
        invariant
            n == a@.len(),
            n == b@.len(),
            0 <= i <= n,
            forall|j: int| 0 <= j < i ==> a@[j] == b@[j],
        decreases n - i,
    {
        if a.get_char(i) != b.get_char(i) {
            return false;
        }
        i += 1;
    }
    proof {
        assert(a@ =~= b@);
    }
    true
}

/// Whether `l` starts with the prefix `p`, character by character.
pub fn str_starts_with(l: &str, p: &str) -> (r: bool)
    ensures
        r == is_prefix(p@, l@),
{
    let np = p.unicode_len();
    if np > l.unicode_len() {
        return false;
    }
    let mut i: usize = 0;
    while i < np
        invariant
            np == p@.len(),
            np <= l@.len(),
            0 <= i <= np,
            forall|j: int| 0 <= j < i ==> l@[j] == p@[j],
        decreases np - i,
    {
        if l.get_char(i) != p.get_char(i) {
            return false;
        }
        i += 1;
    }
    proof {
        assert(l@.subrange(0, p@.len() as int) =~= p@);
    }
    true
}

} // verus!
