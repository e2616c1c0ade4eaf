//! Command/response framing.
//!
//! A response is a sequence of text lines closed by the literal sentinel
//! line `OK`; a failed command is answered instead with a single line that
//! starts with `ACK [`. The framer turns a transcript of lines into either
//! the body (the lines before the sentinel, in order, sentinel excluded) or
//! a typed protocol error.

use vstd::prelude::*;
use crate::error::MPDError;
use crate::text::{is_prefix, str_eq, str_starts_with};

verus! {

/// The line that closes a successful response body.
pub open spec fn is_sentinel(l: Seq<char>) -> bool {
    l == "OK"@
}

/// A protocol-level error response: the line starts with `ACK [`.
pub open spec fn is_ack(l: Seq<char>) -> bool {
    is_prefix("ACK ["@, l)
}

/// What a transcript of response lines amounts to.
pub ghost enum FrameOutcome {
    /// No sentinel seen yet; the body read so far.
    Incomplete { body: Seq<Seq<char>> },
    /// Sentinel seen: the body lines before it, in order.
    Complete { body: Seq<Seq<char>> },
    /// The first line was an `ACK [` error block.
    Failed,
}

/// Scans lines for the first sentinel, collecting the body before it.
pub open spec fn scan_body(ls: Seq<Seq<char>>) -> FrameOutcome
    decreases ls.len(),
{
    if ls.len() == 0 {
        FrameOutcome::Incomplete { body: seq![] }
    } else if is_sentinel(ls[0]) {
        FrameOutcome::Complete { body: seq![] }
    } else {
        match scan_body(ls.drop_first()) {
            FrameOutcome::Incomplete { body } => FrameOutcome::Incomplete {
                body: seq![ls[0]] + body,
            },
            FrameOutcome::Complete { body } => FrameOutcome::Complete {
                body: seq![ls[0]] + body,
            },
            FrameOutcome::Failed => FrameOutcome::Failed,
        }
    }
}

/// The meaning of one whole response transcript.
pub open spec fn frame_of(ls: Seq<Seq<char>>) -> FrameOutcome {
    if ls.len() > 0 && is_ack(ls[0]) {
        FrameOutcome::Failed
    } else {
        scan_body(ls)
    }
}

/// Feeding one more line to an incomplete scan either closes it (sentinel)
/// or appends the line to the body.
proof fn lemma_scan_body_push(ls: Seq<Seq<char>>, l: Seq<char>)
    requires
        scan_body(ls) is Incomplete,
    ensures
        is_sentinel(l) ==> scan_body(ls.push(l)) == (FrameOutcome::Complete {
            body: scan_body(ls)->Incomplete_body,
        }),
        !is_sentinel(l) ==> scan_body(ls.push(l)) == (FrameOutcome::Incomplete {
            body: scan_body(ls)->Incomplete_body.push(l),
        }),
    decreases ls.len(),
{
    if ls.len() == 0 {
        let p = ls.push(l);
        assert(p[0] == l);
        assert(p.drop_first() =~= Seq::<Seq<char>>::empty());
        if !is_sentinel(l) {
            assert(scan_body(p.drop_first()) == (FrameOutcome::Incomplete {
                body: Seq::<Seq<char>>::empty(),
            }));
            assert(scan_body(p) == (FrameOutcome::Incomplete {
                body: seq![l] + Seq::<Seq<char>>::empty(),
            }));
            assert(seq![l] + Seq::<Seq<char>>::empty() =~= seq![].push(l));
            assert(scan_body(ls) == (FrameOutcome::Incomplete { body: seq![] }));
        }
    } else {
        assert(!is_sentinel(ls[0]));
        assert(ls.push(l).drop_first() =~= ls.drop_first().push(l));
        lemma_scan_body_push(ls.drop_first(), l);
        let b = scan_body(ls.drop_first())->Incomplete_body;
        if !is_sentinel(l) {
            assert(seq![ls[0]] + b.push(l) =~= (seq![ls[0]] + b).push(l));
        }
    }
}

/// Once a scan is complete, later lines do not change its outcome.
proof fn lemma_scan_body_complete_stable(ls: Seq<Seq<char>>, k: int)
    requires
        0 <= k <= ls.len(),
        scan_body(ls.take(k)) is Complete,
    ensures
        scan_body(ls) == scan_body(ls.take(k)),
    decreases ls.len(),
{
    assert(k > 0);
    assert(ls.take(k)[0] == ls[0]);
    if is_sentinel(ls[0]) {
    } else {
        assert(ls.take(k).drop_first() =~= ls.drop_first().take(k - 1));
        lemma_scan_body_complete_stable(ls.drop_first(), k - 1);
    }
}

/// Frames one full response transcript: the lines the reader yielded for one
/// command, in order, including the sentinel line if one arrived.
///
/// Returns the body lines strictly between start and sentinel; a transcript
/// whose first line is an `ACK [` block fails the command; a transcript with
/// no sentinel is a truncated exchange.
pub fn frame_response(lines: &Vec<String>) -> (r: Result<Vec<String>, MPDError>)
    ensures
        (match frame_of(lines.deep_view()) {
            FrameOutcome::Failed => r == Err::<Vec<String>, MPDError>(MPDError::FailedCommand),
            FrameOutcome::Complete { body } => r is Ok && r->Ok_0.deep_view() == body,
            FrameOutcome::Incomplete { body } => r == Err::<Vec<String>, MPDError>(
                MPDError::Truncated,
            ),
        }),
{
    let ghost all = lines.deep_view();
    let n = lines.len();
    if n == 0 {
        return Err(MPDError::Truncated);
    }
    if str_starts_with(lines[0].as_str(), "ACK [") {
        proof {
            assert(all[0] == lines@[0]@);
        }
        return Err(MPDError::FailedCommand);
    }
    proof {
        assert(all[0] == lines@[0]@);
        assert(frame_of(all) == scan_body(all));
    }
    let mut body: Vec<String> = Vec::new();
    proof {
        assert(all.take(0) =~= Seq::<Seq<char>>::empty());
        assert(body.deep_view() =~= Seq::<Seq<char>>::empty());
    }
    let mut i: usize = 0;
    while i < n
        invariant
            n == lines.len(),
            all == lines.deep_view(),
            frame_of(all) == scan_body(all),
            0 <= i <= n,
            scan_body(all.take(i as int)) == (FrameOutcome::Incomplete {
                body: body.deep_view(),
            }),
        decreases n - i,
    {
        proof {
            assert(all.take(i as int + 1) =~= all.take(i as int).push(all[i as int]));
            assert(all[i as int] == lines@[i as int]@);
            lemma_scan_body_push(all.take(i as int), all[i as int]);
        }
        if str_eq(lines[i].as_str(), "OK") {
            proof {
                lemma_scan_body_complete_stable(all, i as int + 1);
            }
            return Ok(body);
        }
        let ghost prev = body.deep_view();
        let line = lines[i].clone();
        body.push(line);
        proof {
            assert(body.deep_view() =~= prev.push(all[i as int]));
        }
        i += 1;
    }
    proof {
        assert(all.take(n as int) =~= all);
    }
    Err(MPDError::Truncated)
}

/// One more line extends an unfinished transcript exactly as the
/// incremental framer decides: an `ACK [` first line fails it, a sentinel
/// completes it with the body collected so far, and anything else joins
/// the body. Feeding a transcript line by line therefore tracks
/// `frame_of` of the lines fed.
pub proof fn lemma_frame_of_step(ls: Seq<Seq<char>>, l: Seq<char>)
    requires
        frame_of(ls) is Incomplete,
    ensures
        ls.len() == 0 && is_ack(l) ==> frame_of(ls.push(l)) is Failed,
        !(ls.len() == 0 && is_ack(l)) && is_sentinel(l) ==> frame_of(ls.push(l))
            == (FrameOutcome::Complete { body: frame_of(ls)->Incomplete_body }),
        !(ls.len() == 0 && is_ack(l)) && !is_sentinel(l) ==> frame_of(ls.push(l))
            == (FrameOutcome::Incomplete { body: frame_of(ls)->Incomplete_body.push(l) }),
{
    if ls.len() == 0 {
        assert(ls.push(l)[0] == l);
        if !is_ack(l) {
            lemma_scan_body_push(ls, l);
        }
    } else {
        assert(ls.push(l)[0] == ls[0]);
        assert(!is_ack(ls[0]));
        lemma_scan_body_push(ls, l);
    }
}

/// Incremental framer for one exchange. The caller owns the transport: it
/// reads one line at a time and feeds each line in, taking every framing
/// decision from here rather than interpreting anything itself.
pub struct Framer {
    /// No line of the response has been fed yet.
    pub first: bool,
    /// Body lines fed so far, in order.
    pub body: Vec<String>,
}

/// The framer's decision after one fed line.
pub enum FramerStep {
    /// The response is not finished: read one more line and feed it.
    NeedLine(Framer),
    /// The sentinel arrived: the body lines, in order, sentinel excluded.
    Done(Vec<String>),
    /// The exchange failed with the given protocol error.
    Failed(MPDError),
}

impl Framer {
    /// A framer ready for the first line of a response.
    pub fn new() -> (f: Framer)
        ensures
            f.first,
            f.body@.len() == 0,
    {
        Framer { first: true, body: Vec::new() }
    }

    /// Feeds the next line the reader yielded. An `ACK [` prefix counts as
    /// an error block only on the first line; the sentinel closes the body
    /// wherever it appears; any other line is body.
    pub fn on_line(self, line: String) -> (r: FramerStep)
        ensures
            self.first && is_ack(line@) ==> r == FramerStep::Failed(MPDError::FailedCommand),
            !(self.first && is_ack(line@)) && is_sentinel(line@) ==> (r matches FramerStep::Done(v)
                && v == self.body),
            !(self.first && is_ack(line@)) && !is_sentinel(line@) ==> (r matches
                FramerStep::NeedLine(f) && f.body@ == self.body@.push(line) && !f.first),
    {
        if self.first && str_starts_with(line.as_str(), "ACK [") {
            return FramerStep::Failed(MPDError::FailedCommand);
        }
        if str_eq(line.as_str(), "OK") {
            return FramerStep::Done(self.body);
        }
        let mut body = self.body;
        body.push(line);
        FramerStep::NeedLine(Framer { first: false, body })
    }

    /// The stream ended or timed out before the sentinel: the exchange is
    /// truncated and the connection must be considered desynchronized.
    pub fn on_close(self) -> (e: MPDError)
        ensures
            e == MPDError::Truncated,
    {
        MPDError::Truncated
    }
}

} // verus!
