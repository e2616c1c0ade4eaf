//! Splitting one response line into its `key: value` parts.
//!
//! The protocol separates key and value with the first colon-space pair of
//! the line; a line without that pair carries no field.

use vstd::prelude::*;
use vstd::string::StrSliceExecFns;

verus! {

/// Index of the first `": "` separator of `l`, or `l.len()` if there is none.
pub open spec fn sep_index(l: Seq<char>) -> int
    decreases l.len(),
{
    if l.len() <= 1 {
        l.len() as int
    } else if l[0] == ':' && l[1] == ' ' {
        0
    } else {
        1 + sep_index(l.drop_first())
    }
}

/// Whether `l` carries a `key: value` pair at all.
pub open spec fn has_sep(l: Seq<char>) -> bool {
    sep_index(l) + 2 <= l.len()
}

/// The key part: everything before the first `": "`.
pub open spec fn key_of(l: Seq<char>) -> Seq<char> {
    l.take(sep_index(l))
}

/// The value part: everything after the first `": "`.
pub open spec fn val_of(l: Seq<char>) -> Seq<char> {
    l.skip(sep_index(l) + 2)
}

proof fn lemma_sep_index_props(l: Seq<char>)
    ensures
        0 <= sep_index(l) <= l.len(),
        has_sep(l) ==> l[sep_index(l)] == ':' && l[sep_index(l) + 1] == ' ',
        forall|j: int|
            0 <= j < sep_index(l) ==> !(j + 1 < l.len() && #[trigger] l[j] == ':' && l[j + 1]
                == ' '),
    decreases l.len(),
{
    if l.len() <= 1 {
    } else if l[0] == ':' && l[1] == ' ' {
    } else {
        let t = l.drop_first();
        lemma_sep_index_props(t);
        assert forall|j: int|
            0 <= j < sep_index(l) implies !(j + 1 < l.len() && #[trigger] l[j] == ':' && l[j + 1]
            == ' ') by {
            if j > 0 {
                assert(l[j] == t[j - 1]);
                assert(j + 1 < l.len() ==> l[j + 1] == t[j]);
            }
        }
    }
}

/// Splits one line at its first `": "`; `Some` exactly when the line has one.
pub fn split_kv(l: &str) -> (r: Option<(String, String)>)
    ensures
        r is Some <==> has_sep(l@),
        r is Some ==> (r->0).0@ == key_of(l@) && (r->0).1@ == val_of(l@),
{
    proof {
        lemma_sep_index_props(l@);
    }
    let n = l.unicode_len();
    if n < 2 {
        return None;
    }
    let mut i: usize = 0;
    while i + 1 < n
        invariant
            n == l@.len(),
            2 <= n,
            0 <= i,
            i + 1 <= n,
            forall|j: int|
                0 <= j < i ==> !(j + 1 < l@.len() && #[trigger] l@[j] == ':' && l@[j + 1] == ' '),
        decreases n - i,
    {
        if l.get_char(i) == ':' && l.get_char(i + 1) == ' ' {
            proof {
                lemma_sep_index_props(l@);
                if sep_index(l@) < i {
                    assert(has_sep(l@));
                    assert(false);
                }
                if sep_index(l@) > i {
                    assert(!(i + 1 < l@.len() && l@[i as int] == ':' && l@[i as int + 1] == ' '));
                    assert(false);
                }
                assert(l@.subrange(i as int + 2, n as int) =~= val_of(l@));
            }
            let key = l.substring_char(0, i).to_owned();
            let val = l.substring_char(i + 2, n).to_owned();
            return Some((key, val));
        }
        i += 1;
    }
    proof {
        lemma_sep_index_props(l@);
        if has_sep(l@) {
            assert(!(sep_index(l@) + 1 < l@.len() && l@[sep_index(l@)] == ':'
                && l@[sep_index(l@) + 1] == ' '));
            assert(false);
        }
    }
    None
}

} // verus!
