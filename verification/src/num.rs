//! Verified decimal parsing for the numeric fields of response blocks.
//!
//! Every parser is total: it returns `Some` exactly on the strings its spec
//! accepts and `None` on everything else, so a field whose text fails to
//! parse is simply left absent by the decoders.

use vstd::prelude::*;
use vstd::string::StrSliceExecFns;

verus! {

/// An ASCII decimal digit.
pub open spec fn is_dec_digit(c: char) -> bool {
    '0' <= c && c <= '9'
}

/// The numeric value of one decimal digit.
pub open spec fn digit_val(c: char) -> int {
    c as int - '0' as int
}

/// Every character of `s` is a decimal digit.
pub open spec fn all_digits(s: Seq<char>) -> bool {
    forall|i: int| 0 <= i < s.len() ==> is_dec_digit(#[trigger] s[i])
}

/// The value of a digit string read in base ten, most significant first.
pub open spec fn dec_val(s: Seq<char>) -> int
    decreases s.len(),
{
    if s.len() == 0 {
        0
    } else {
        dec_val(s.drop_last()) * 10 + digit_val(s.last())
    }
}

/// What `parse_u64` accepts: a non-empty, all-digit string whose value fits.
pub open spec fn spec_parse_u64(s: Seq<char>) -> Option<u64> {
    if s.len() > 0 && all_digits(s) && dec_val(s) <= u64::MAX {
        Some(dec_val(s) as u64)
    } else {
        None
    }
}

pub open spec fn spec_parse_u32(s: Seq<char>) -> Option<u32> {
    if s.len() > 0 && all_digits(s) && dec_val(s) <= u32::MAX {
        Some(dec_val(s) as u32)
    } else {
        None
    }
}

pub open spec fn spec_parse_u16(s: Seq<char>) -> Option<u16> {
    if s.len() > 0 && all_digits(s) && dec_val(s) <= u16::MAX {
        Some(dec_val(s) as u16)
    } else {
        None
    }
}

pub open spec fn spec_parse_u8(s: Seq<char>) -> Option<u8> {
    if s.len() > 0 && all_digits(s) && dec_val(s) <= u8::MAX {
        Some(dec_val(s) as u8)
    } else {
        None
    }
}

proof fn lemma_dec_val_nonneg(s: Seq<char>)
    requires
        all_digits(s),
    ensures
        dec_val(s) >= 0,
    decreases s.len(),
{
    if s.len() > 0 {
        assert(all_digits(s.drop_last()));
        lemma_dec_val_nonneg(s.drop_last());
    }
}

/// Extending an all-digit string never decreases its value.
proof fn lemma_dec_val_take_le(s: Seq<char>, k: int)
    requires
        all_digits(s),
        0 <= k <= s.len(),
    ensures
        dec_val(s.take(k)) <= dec_val(s),
    decreases s.len() - k,
{
    if k < s.len() {
        lemma_dec_val_take_le(s, k + 1);
        let t = s.take(k + 1);
        assert(all_digits(t));
        assert(t.drop_last() =~= s.take(k));
        lemma_dec_val_nonneg(s.take(k));
        assert(dec_val(t) == dec_val(s.take(k)) * 10 + digit_val(t.last()));
    } else {
        assert(s.take(k) =~= s);
    }
}

/// Parses a decimal `u64`; `Some` exactly when the text is a non-empty digit
/// string whose value fits in the type.
pub fn parse_u64(s: &str) -> (r: Option<u64>)
    ensures
        r == spec_parse_u64(s@),
{
    let n = s.unicode_len();
    if n == 0 {
        return None;
    }
    let mut acc: u64 = 0;
    let mut i: usize = 0;
    while i < n
        invariant
            n == s@.len(),
            0 < n,
            0 <= i <= n,
            all_digits(s@.take(i as int)),
            acc == dec_val(s@.take(i as int)),
        decreases n - i,
    {
        let c = s.get_char(i);
        if !(c >= '0' && c <= '9') {
            assert(!is_dec_digit(s@[i as int]));
            return None;
        }
        let d: u64 = (c as u32 - '0' as u32) as u64;
        assert(d == digit_val(s@[i as int]));
        let limit: u64 = (u64::MAX - d) / 10;
        if acc > limit {
            proof {
                assert(acc * 10 + d > u64::MAX) by (nonlinear_arith)
                    requires
                        acc > (u64::MAX - d) / 10,
                        0 <= d <= 9,
                        acc >= 0,
                ;
                let t = s@.take(i as int + 1);
                assert(t.drop_last() =~= s@.take(i as int));
                assert(t.last() == s@[i as int]);
                assert(dec_val(t) == acc * 10 + d);
                if all_digits(s@) {
                    lemma_dec_val_take_le(s@, i as int + 1);
                    assert(dec_val(s@) > u64::MAX);
                } else {
                    assert(spec_parse_u64(s@) is None);
                }
            }
            return None;
        }
        proof {
            assert(acc * 10 + d <= u64::MAX) by (nonlinear_arith)
                requires
                    acc <= (u64::MAX - d) / 10,
                    0 <= d <= 9,
                    acc >= 0,
            ;
            let t = s@.take(i as int + 1);
            assert(t.drop_last() =~= s@.take(i as int));
            assert(t.last() == s@[i as int]);
            assert(all_digits(t));
            assert(dec_val(t) == acc * 10 + d);
        }
        acc = acc * 10 + d;
        i += 1;
    }
    proof {
        assert(s@.take(n as int) =~= s@);
    }
    Some(acc)
}

/// Parses a decimal `u32`; absent or oversized values yield `None`.
pub fn parse_u32(s: &str) -> (r: Option<u32>)
    ensures
        r == spec_parse_u32(s@),
{
    proof {
        if all_digits(s@) {
            lemma_dec_val_nonneg(s@);
        }
    }
    match parse_u64(s) {
        Some(v) => {
            if v <= u32::MAX as u64 {
                Some(v as u32)
            } else {
                None
            }
        },
        None => None,
    }
}

/// Parses a decimal `u16`; absent or oversized values yield `None`.
pub fn parse_u16(s: &str) -> (r: Option<u16>)
    ensures
        r == spec_parse_u16(s@),
{
    proof {
        if all_digits(s@) {
            lemma_dec_val_nonneg(s@);
        }
    }
    match parse_u64(s) {
        Some(v) => {
            if v <= u16::MAX as u64 {
                Some(v as u16)
            } else {
                None
            }
        },
        None => None,
    }
}

/// Index of the first `'.'` in `s`, or `s.len()` if there is none.
pub open spec fn dot_index(s: Seq<char>) -> int
    decreases s.len(),
{
    if s.len() == 0 {
        0
    } else if s[0] == '.' {
        0
    } else {
        1 + dot_index(s.drop_first())
    }
}

/// Weight of a fractional part written with `n` digits, in milliseconds
/// per unit of its last digit.
pub open spec fn frac_scale(n: int) -> int {
    if n == 1 {
        100
    } else if n == 2 {
        10
    } else {
        1
    }
}

/// Milliseconds denoted by a decimal seconds value with an optional
/// fractional part of one to three digits (`"12"`, `"12.5"`, `"12.500"`).
pub open spec fn spec_parse_millis(s: Seq<char>) -> Option<u64> {
    let d = dot_index(s);
    if d == s.len() {
        if s.len() > 0 && all_digits(s) && dec_val(s) * 1000 <= u64::MAX {
            Some((dec_val(s) * 1000) as u64)
        } else {
            None
        }
    } else {
        let ip = s.take(d);
        let fp = s.skip(d + 1);
        if ip.len() > 0 && all_digits(ip) && 1 <= fp.len() <= 3 && all_digits(fp) && dec_val(ip)
            * 1000 + dec_val(fp) * frac_scale(fp.len() as int) <= u64::MAX {
            Some((dec_val(ip) * 1000 + dec_val(fp) * frac_scale(fp.len() as int)) as u64)
        } else {
            None
        }
    }
}

proof fn lemma_dot_index_props(s: Seq<char>)
    ensures
        0 <= dot_index(s) <= s.len(),
        dot_index(s) < s.len() ==> s[dot_index(s)] == '.',
        forall|j: int| 0 <= j < dot_index(s) ==> #[trigger] s[j] != '.',
    decreases s.len(),
{
    if s.len() == 0 {
    } else if s[0] == '.' {
    } else {
        let t = s.drop_first();
        lemma_dot_index_props(t);
        assert forall|j: int| 0 <= j < dot_index(s) implies #[trigger] s[j] != '.' by {
            if j > 0 {
                assert(s[j] == t[j - 1]);
            }
        }
    }
}

/// A short all-digit string has a small value.
proof fn lemma_dec_val_small(s: Seq<char>)
    requires
        all_digits(s),
    ensures
        s.len() == 1 ==> dec_val(s) < 10,
        s.len() == 2 ==> dec_val(s) < 100,
        s.len() == 3 ==> dec_val(s) < 1000,
    decreases s.len(),
{
    if s.len() > 0 {
        assert(all_digits(s.drop_last()));
        lemma_dec_val_small(s.drop_last());
        lemma_dec_val_nonneg(s.drop_last());
    }
}

/// Parses a seconds value with an optional millisecond fraction into whole
/// milliseconds; `Some` exactly on the texts `spec_parse_millis` accepts.
pub fn parse_millis(s: &str) -> (r: Option<u64>)
    ensures
        r == spec_parse_millis(s@),
{
    proof {
        lemma_dot_index_props(s@);
    }
    let n = s.unicode_len();
    let mut dot: usize = n;
    let mut i: usize = 0;
    while i < n
        invariant
            n == s@.len(),
            0 <= i <= n,
            dot <= n,
            dot == n ==> forall|j: int| 0 <= j < i ==> #[trigger] s@[j] != '.',
            dot < n ==> s@[dot as int] == '.' && (forall|j: int|
                0 <= j < dot ==> #[trigger] s@[j] != '.'),
        decreases n - i,
    {
        if dot == n && s.get_char(i) == '.' {
            dot = i;
        }
        i += 1;
    }
    proof {
        lemma_dot_index_props(s@);
        if dot == n {
            if dot_index(s@) < n {
                assert(s@[dot_index(s@)] == '.');
                assert(false);
            }
        } else {
            if dot_index(s@) < dot {
                assert(s@[dot_index(s@)] == '.');
                assert(false);
            }
            if dot_index(s@) > dot {
                assert(s@[dot as int] != '.');
                assert(false);
            }
        }
        assert(dot == dot_index(s@));
    }
    if dot == n {
        proof {
            if all_digits(s@) {
                lemma_dec_val_nonneg(s@);
            }
        }
        match parse_u64(s) {
            Some(v) => {
                let limit: u64 = u64::MAX / 1000;
                if v <= limit {
                    proof {
                        assert(v * 1000 <= u64::MAX) by (nonlinear_arith)
                            requires
                                v <= u64::MAX / 1000,
                                v >= 0,
                        ;
                    }
                    Some(v * 1000)
                } else {
                    proof {
                        assert(v * 1000 > u64::MAX) by (nonlinear_arith)
                            requires
                                v > u64::MAX / 1000,
                        ;
                    }
                    None
                }
            },
            None => None,
        }
    } else {
        let ip = s.substring_char(0, dot);
        let fp = s.substring_char(dot + 1, n);
        proof {
            assert(ip@ =~= s@.take(dot as int));
            assert(fp@ =~= s@.skip(dot as int + 1));
            if all_digits(ip@) {
                lemma_dec_val_nonneg(ip@);
            }
            if all_digits(fp@) {
                lemma_dec_val_nonneg(fp@);
                lemma_dec_val_small(fp@);
            }
        }
        let m = n - (dot + 1);
        if m < 1 || m > 3 {
            return None;
        }
        let iv = match parse_u64(ip) {
            Some(v) => v,
            None => {
                proof {
                    if ip@.len() > 0 && all_digits(ip@) && all_digits(fp@) {
                        // the integer part alone already exceeds the type
                        assert(dec_val(ip@) > u64::MAX);
                        assert(dec_val(ip@) * 1000 >= dec_val(ip@)) by (nonlinear_arith)
                            requires
                                dec_val(ip@) >= 0,
                        ;
                        assert(dec_val(fp@) * frac_scale(fp@.len() as int) >= 0) by (nonlinear_arith)
                            requires
                                dec_val(fp@) >= 0,
                                frac_scale(fp@.len() as int) >= 1,
                        ;
                    }
                }
                return None;
            },
        };
        let fv = match parse_u64(fp) {
            Some(v) => v,
            None => {
                return None;
            },
        };
        let scale: u64 = if m == 1 {
            100
        } else if m == 2 {
            10
        } else {
            1
        };
        let fr: u64 = fv * scale;
        let limit: u64 = (u64::MAX - fr) / 1000;
        if iv > limit {
            proof {
                assert(iv * 1000 + fr > u64::MAX) by (nonlinear_arith)
                    requires
                        iv > (u64::MAX - fr) / 1000,
                        0 <= fr <= 999,
                        iv >= 0,
                ;
            }
            return None;
        }
        proof {
            assert(iv * 1000 + fr <= u64::MAX) by (nonlinear_arith)
                requires
                    iv <= (u64::MAX - fr) / 1000,
                    0 <= fr <= 999,
                    iv >= 0,
            ;
        }
        Some(iv * 1000 + fr)
    }
}

/// Parses a decimal `u8`; absent or oversized values yield `None`.
pub fn parse_u8(s: &str) -> (r: Option<u8>)
    ensures
        r == spec_parse_u8(s@),
{
    proof {
        if all_digits(s@) {
            lemma_dec_val_nonneg(s@);
        }
    }
    match parse_u64(s) {
        Some(v) => {
            if v <= u8::MAX as u64 {
                Some(v as u8)
            } else {
                None
            }
        },
        None => None,
    }
}

} // verus!
