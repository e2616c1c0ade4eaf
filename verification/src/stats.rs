//! The statistics snapshot and its decoder.
//!
//! A stats response is a block of `key: value` counter lines. Every counter
//! defaults to zero: an absent key leaves its field at zero, which is also a
//! value the server may legitimately report.

use vstd::prelude::*;
use crate::kv::{has_sep, key_of, val_of, split_kv};
use crate::num::{spec_parse_u32, spec_parse_u64, parse_u32, parse_u64};
use crate::text::str_eq;

verus! {

/// Aggregate library and server counters.
#[derive(Clone, Copy, Debug, PartialEq, Eq, Structural)]
pub struct MPDStats {
    pub artists: u32,
    pub albums: u32,
    pub uptime: u32,
    pub db_playtime: u64,
    pub db_update: u64,
    pub playtime: u32,
}

/// All counters zero: the value of an empty block.
pub open spec fn init_stats() -> MPDStats {
    MPDStats { artists: 0, albums: 0, uptime: 0, db_playtime: 0, db_update: 0, playtime: 0 }
}

/// Effect of one response line on the counters. Lines without a separator,
/// unrecognized keys and unparseable values change nothing.
pub open spec fn apply_stats_line(st: MPDStats, l: Seq<char>) -> MPDStats {
    if !has_sep(l) {
        st
    } else {
        let k = key_of(l);
        let v = val_of(l);
        if k == "artists"@ {
            if spec_parse_u32(v) is Some {
                MPDStats { artists: spec_parse_u32(v)->0, ..st }
            } else {
                st
            }
        } else if k == "albums"@ {
            if spec_parse_u32(v) is Some {
                MPDStats { albums: spec_parse_u32(v)->0, ..st }
            } else {
                st
            }
        } else if k == "uptime"@ {
            if spec_parse_u32(v) is Some {
                MPDStats { uptime: spec_parse_u32(v)->0, ..st }
            } else {
                st
            }
        } else if k == "db_playtime"@ {
            if spec_parse_u64(v) is Some {
                MPDStats { db_playtime: spec_parse_u64(v)->0, ..st }
            } else {
                st
            }
        } else if k == "db_update"@ {
            if spec_parse_u64(v) is Some {
                MPDStats { db_update: spec_parse_u64(v)->0, ..st }
            } else {
                st
            }
        } else if k == "playtime"@ {
            if spec_parse_u32(v) is Some {
                MPDStats { playtime: spec_parse_u32(v)->0, ..st }
            } else {
                st
            }
        } else {
            st
        }
    }
}

/// The counters denoted by a whole response block, lines applied in order.
pub open spec fn stats_of(ls: Seq<Seq<char>>) -> MPDStats
    decreases ls.len(),
{
    if ls.len() == 0 {
        init_stats()
    } else {
        apply_stats_line(stats_of(ls.drop_last()), ls.last())
    }
}

impl Default for MPDStats {
    /// The empty snapshot: every counter zero.
    fn default() -> (r: Self)
        ensures
            r == init_stats(),
    {
        MPDStats { artists: 0, albums: 0, uptime: 0, db_playtime: 0, db_update: 0, playtime: 0 }
    }
}

impl MPDStats {
    /// Decodes a framed stats block. Total: unknown keys and unparseable
    /// values are tolerated, never an error.
    pub fn new(lines: &Vec<String>) -> (r: MPDStats)
        ensures
            r == stats_of(lines.deep_view()),
    {
        let ghost dv = lines.deep_view();
        let mut st = MPDStats::default();
        proof {
            assert(dv.take(0) =~= Seq::<Seq<char>>::empty());
        }
        let n = lines.len();
        let mut i: usize = 0;
        while i < n
            invariant
                n == lines.len(),
                dv == lines.deep_view(),
                0 <= i <= n,
                st == stats_of(dv.take(i as int)),
            decreases n - i,
        {
            let ghost prev = st;
            proof {
                assert(dv[i as int] == lines@[i as int]@);
                assert(dv.take(i as int + 1).drop_last() =~= dv.take(i as int));
                assert(dv.take(i as int + 1).last() == dv[i as int]);
            }
            if let Some((key, val)) = split_kv(lines[i].as_str()) {
                if str_eq(key.as_str(), "artists") {
                    if let Some(x) = parse_u32(val.as_str()) {
                        st.artists = x;
                    }
                } else if str_eq(key.as_str(), "albums") {
                    if let Some(x) = parse_u32(val.as_str()) {
                        st.albums = x;
                    }
                } else if str_eq(key.as_str(), "uptime") {
                    if let Some(x) = parse_u32(val.as_str()) {
                        st.uptime = x;
                    }
                } else if str_eq(key.as_str(), "db_playtime") {
                    if let Some(x) = parse_u64(val.as_str()) {
                        st.db_playtime = x;
                    }
                } else if str_eq(key.as_str(), "db_update") {
                    if let Some(x) = parse_u64(val.as_str()) {
                        st.db_update = x;
                    }
                } else if str_eq(key.as_str(), "playtime") {
                    if let Some(x) = parse_u32(val.as_str()) {
                        st.playtime = x;
                    }
                }
            }
            proof {
                assert(st == apply_stats_line(prev, dv[i as int]));
            }
            i += 1;
        }
        proof {
            assert(dv.take(n as int) =~= dv);
        }
        st
    }
}

} // verus!
