//! Incremental parser for the server-sent-event stream of dialectic answers.
//!
//! Bytes arrive in arbitrary chunks. They are decoded as UTF-8 (a character
//! split across chunks waits for the rest; an invalid sequence becomes
//! U+FFFD), split into lines on `\n`, `\r` or `\r\n`, and every `data:` line
//! is read as one JSON object whose `delta.content` string is emitted, until
//! an object carries `"done": true`.

use vstd::prelude::*;
use vstd::string::StringSliceAdditionalSpecFns;

use crate::error::{HonchoError, Result};
use crate::json::{json_decode, member, spec_json_decode, spec_member, spec_text_as_bool, spec_text_as_object, spec_text_as_str, text_as_bool, text_as_object, text_as_str, JsonNode, JsonNodeView};
use crate::text::{law_lossy_prefix_append, law_lossy_prefix_size, lossy_bytes, lossy_prefix, spec_lossy, spec_lossy_prefix};

verus! {

/// Largest unterminated line (with undecoded bytes) the parser keeps.
pub const MAX_SSE_LINE_BYTES: usize = 1048576;

/// Line feed.
pub open spec fn is_break(b: u8) -> bool {
    b == 10 || b == 13
}

/// Index of the first `\n` or `\r`.
pub open spec fn first_break(buf: Seq<u8>) -> Option<int>
    decreases buf.len(),
{
    if buf.len() == 0 {
        None
    } else if is_break(buf[0]) {
        Some(0)
    } else {
        match first_break(buf.drop_first()) {
            Some(i) => Some(i + 1),
            None => None,
        }
    }
}

/// The next complete line and what follows it. Without `flush`, a line is
/// complete only once its terminator is known: a trailing `\r` waits, since
/// a `\n` may follow in the next chunk.
pub open spec fn spec_pop_line(buf: Seq<u8>, flush: bool) -> Option<(Seq<u8>, Seq<u8>)> {
    if buf.len() == 0 {
        None
    } else {
        match first_break(buf) {
            None => if flush {
                Some((buf, seq![]))
            } else {
                None
            },
            Some(t) => if buf[t] == 10 {
                Some((buf.take(t), buf.skip(t + 1)))
            } else if t == buf.len() - 1 && !flush {
                None
            } else {
                let end = if t + 1 < buf.len() && buf[t + 1] == 10 {
                    t + 2
                } else {
                    t + 1
                };
                Some((buf.take(t), buf.skip(end)))
            },
        }
    }
}

/// The JSON part of a `data:` line (one optional space after the colon).
pub open spec fn data_payload(line: Seq<u8>) -> Option<Seq<u8>> {
    if line.len() >= 5 && line.take(5) == seq![100u8, 97u8, 116u8, 97u8, 58u8] {
        let rest = line.skip(5);
        if rest.len() > 0 && rest[0] == 32 {
            Some(rest.drop_first())
        } else {
            Some(rest)
        }
    } else {
        None
    }
}

/// What one line of the stream means.
pub enum LineEvent {
    /// A non-empty `delta.content` string.
    Content(Seq<char>),
    /// The end-of-answer marker (`"done": true`).
    Done,
    /// Nothing to report.
    Skip,
}

/// The meaning of a line.
pub open spec fn spec_handle_line(line: Seq<u8>) -> LineEvent {
    match data_payload(line) {
        None => LineEvent::Skip,
        Some(json) => if json.len() == 0 {
            LineEvent::Skip
        } else {
            match spec_json_decode(json) {
                None => LineEvent::Skip,
                Some(doc) => match doc.node {
                    JsonNodeView::Object(m) => {
                        let done = match spec_member(m, "done"@) {
                            Some(t) => spec_text_as_bool(t) == Some(true),
                            None => false,
                        };
                        if done {
                            LineEvent::Done
                        } else {
                            match spec_member(m, "delta"@) {
                                Some(t) => match spec_text_as_object(t) {
                                    Some(dm) => match spec_member(dm, "content"@) {
                                        Some(c) => match spec_text_as_str(c) {
                                            Some(s) => if s.len() > 0 {
                                                LineEvent::Content(s)
                                            } else {
                                                LineEvent::Skip
                                            },
                                            None => LineEvent::Skip,
                                        },
                                        None => LineEvent::Skip,
                                    },
                                    None => LineEvent::Skip,
                                },
                                None => LineEvent::Skip,
                            }
                        }
                    },
                    _ => LineEvent::Skip,
                },
            }
        },
    }
}

/// Proof that a popped line leaves a shorter buffer.
pub proof fn lemma_pop_line_shrinks(buf: Seq<u8>, flush: bool)
    ensures
        spec_pop_line(buf, flush) matches Some((line, rest)) ==> rest.len() < buf.len(),
{
    lemma_first_break(buf);
}

/// Characterisation of [`first_break`].
pub proof fn lemma_first_break(buf: Seq<u8>)
    ensures
        match first_break(buf) {
            Some(t) => 0 <= t < buf.len() && is_break(buf[t]) && forall|j: int| 0 <= j < t ==> !is_break(#[trigger] buf[j]),
            None => forall|j: int| 0 <= j < buf.len() ==> !is_break(#[trigger] buf[j]),
        },
    decreases buf.len(),
{
    if buf.len() > 0 && !is_break(buf[0]) {
        lemma_first_break(buf.drop_first());
        match first_break(buf.drop_first()) {
            Some(t) => {
                assert forall|j: int| 0 <= j < t + 1 implies !is_break(#[trigger] buf[j]) by {
                    if j > 0 {
                        assert(buf[j] == buf.drop_first()[j - 1]);
                    }
                }
            },
            None => {
                assert forall|j: int| 0 <= j < buf.len() implies !is_break(#[trigger] buf[j]) by {
                    if j > 0 {
                        assert(buf[j] == buf.drop_first()[j - 1]);
                    }
                }
            },
        }
    }
}

#[via_fn]
proof fn spec_drain_decreases(buf: Seq<u8>, flush: bool) {
    lemma_pop_line_shrinks(buf, flush);
}

/// Reading complete lines off `buf` until none is left or the end marker
/// is read: (contents in order, what remains, whether the marker was read).
pub open spec fn spec_drain(buf: Seq<u8>, flush: bool) -> (Seq<Seq<char>>, Seq<u8>, bool)
    decreases buf.len(),
    via spec_drain_decreases
{
    match spec_pop_line(buf, flush) {
        None => (seq![], buf, false),
        Some((line, rest)) => match spec_handle_line(line) {
            LineEvent::Done => (seq![], rest, true),
            LineEvent::Content(s) => {
                let r = spec_drain(rest, flush);
                (seq![s] + r.0, r.1, r.2)
            },
            LineEvent::Skip => spec_drain(rest, flush),
        },
    }
}

/// The state of a parser: decoded text not yet split into lines, bytes not
/// yet decoded, and whether the end marker was read.
pub struct SseState {
    pub buffer: Seq<u8>,
    pub pending: Seq<u8>,
    pub done: bool,
}

/// One chunk fed to a parser in state `s`: the next state, and the contents
/// read (`None` when the unterminated rest grew beyond the limit).
pub open spec fn spec_feed(s: SseState, chunk: Seq<u8>) -> (SseState, Option<Seq<Seq<char>>>) {
    if s.done || chunk.len() == 0 {
        (s, Some(seq![]))
    } else {
        let dec = spec_lossy_prefix(s.pending + chunk);
        let dr = spec_drain(s.buffer + dec.0, false);
        let next = SseState { buffer: dr.1, pending: dec.1, done: dr.2 };
        if dr.1.len() + dec.1.len() > MAX_SSE_LINE_BYTES {
            (next, None)
        } else {
            (next, Some(dr.0))
        }
    }
}

/// The end of the stream reached in state `s`: everything left is decoded
/// (an unfinished character as U+FFFD) and read, the last line unterminated.
pub open spec fn spec_finalize(s: SseState) -> (SseState, Option<Seq<Seq<char>>>) {
    if s.done {
        (s, Some(seq![]))
    } else {
        let all = if s.pending.len() > 0 {
            s.buffer + spec_lossy(s.pending)
        } else {
            s.buffer
        };
        if all.len() > MAX_SSE_LINE_BYTES {
            (SseState { buffer: all, pending: seq![], done: false }, None)
        } else {
            let dr = spec_drain(all, true);
            (SseState { buffer: dr.1, pending: seq![], done: dr.2 }, Some(dr.0))
        }
    }
}

/// Proof that a line read off a buffer is read the same way, with the same
/// rest followed by the new bytes, once more bytes are appended.
pub proof fn lemma_pop_line_append(a: Seq<u8>, b: Seq<u8>)
    ensures
        spec_pop_line(a, false) matches Some((line, rest)) ==> spec_pop_line(a + b, false) == Some((line, rest + b)),
{
    if let Some((line, rest)) = spec_pop_line(a, false) {
        lemma_first_break(a);
        lemma_first_break(a + b);
        let t = first_break(a)->0;
        assert((a + b)[t] == a[t]);
        match first_break(a + b) {
            Some(u) => {
                if u < t {
                    assert((a + b)[u] == a[u]);
                }
                if t < u {
                    assert(!is_break((a + b)[t]));
                }
                assert(u == t);
            },
            None => {
                assert(!is_break((a + b)[t]));
            },
        }
        assert((a + b).take(t) =~= a.take(t));
        if a[t] == 10 {
            assert((a + b).skip(t + 1) =~= a.skip(t + 1) + b);
        } else {
            assert(t + 1 < a.len());
            assert((a + b)[t + 1] == a[t + 1]);
            assert((a + b).skip(t + 1) =~= a.skip(t + 1) + b);
            assert((a + b).skip(t + 2) =~= a.skip(t + 2) + b);
        }
    }
}

/// Law: reading lines off a buffer and then off what remained followed by
/// more bytes reads what reading off the whole at once reads. Once the end
/// marker is read, the new bytes are left unread.
pub proof fn law_drain_split(a: Seq<u8>, b: Seq<u8>)
    ensures
        ({
            let (o1, r1, d1) = spec_drain(a, false);
            let (o, r, d) = spec_drain(a + b, false);
            if d1 {
                o == o1 && r == r1 + b && d
            } else {
                let (o2, r2, d2) = spec_drain(r1 + b, false);
                o == o1 + o2 && r == r2 && d == d2
            }
        }),
    decreases a.len(),
{
    match spec_pop_line(a, false) {
        None => {
            assert(Seq::<Seq<char>>::empty() + spec_drain(a + b, false).0 =~= spec_drain(a + b, false).0);
        },
        Some((line, rest)) => {
            lemma_pop_line_append(a, b);
            lemma_pop_line_shrinks(a, false);
            match spec_handle_line(line) {
                LineEvent::Done => {},
                LineEvent::Content(s) => {
                    law_drain_split(rest, b);
                    let (o1, r1, d1) = spec_drain(rest, false);
                    if !d1 {
                        let o2 = spec_drain(r1 + b, false).0;
                        assert(seq![s] + o1 + o2 =~= seq![s] + (o1 + o2));
                    }
                },
                LineEvent::Skip => {
                    law_drain_split(rest, b);
                },
            }
        },
    }
}

/// Law: once the end marker has been read, neither more bytes nor the end
/// of the stream change the parser or read anything.
pub proof fn law_done_is_absorbing(s: SseState, chunk: Seq<u8>)
    requires
        s.done,
    ensures
        spec_feed(s, chunk) == (s, Some(Seq::<Seq<char>>::empty())),
        spec_finalize(s) == (s, Some(Seq::<Seq<char>>::empty())),
{
}

/// Law: the contents read and the end state reached do not depend on where
/// the bytes are cut into chunks, a cut inside a line, a `\r\n` pair or a
/// character included: bytes fed as `x` then `y` read what they read fed as
/// `x + y` (the second chunk not empty). Once the end marker is read in the first chunk, the second reads
/// nothing.
pub proof fn law_feed_split(s: SseState, x: Seq<u8>, y: Seq<u8>)
    requires
        y.len() > 0,
    ensures
        ({
            let (s1, o1) = spec_feed(s, x);
            let (s2, o2) = spec_feed(s1, y);
            let (t, o) = spec_feed(s, x + y);
            &&& s2.done == t.done
            &&& (o1 is Some && o2 is Some && o is Some) ==> o->0 == o1->0 + o2->0
            &&& !s1.done ==> (s2 == t && (o is Some <==> o2 is Some))
        }),
{
    if s.done {
        return;
    }
    if x.len() == 0 {
        assert(x + y =~= y);
        assert(Seq::<Seq<char>>::empty() + spec_feed(s, y).1->0 =~= spec_feed(s, y).1->0);
        return;
    }
    let px = s.pending + x;
    assert(s.pending + (x + y) =~= px + y);
    law_lossy_prefix_append(px, y);
    let (d1, p1) = spec_lossy_prefix(px);
    let (d2, p2) = spec_lossy_prefix(p1 + y);
    assert(s.buffer + (d1 + d2) =~= (s.buffer + d1) + d2);
    law_drain_split(s.buffer + d1, d2);
    let (s1, o1) = spec_feed(s, x);
    if s1.done {
        let (t, o) = spec_feed(s, x + y);
        if o1 is Some && o is Some {
            assert(o1->0 + Seq::<Seq<char>>::empty() =~= o1->0);
        }
    }
}

/// Proof that reading lines off a buffer leaves no more than it had.
proof fn lemma_drain_rest(buf: Seq<u8>, flush: bool)
    ensures
        spec_drain(buf, flush).1.len() <= buf.len(),
    decreases buf.len(),
{
    lemma_pop_line_shrinks(buf, flush);
    if let Some((line, rest)) = spec_pop_line(buf, flush) {
        lemma_drain_rest(rest, flush);
    }
}

/// The weight of what a parser holds: the decoded text, and three bytes for
/// each byte not yet decoded (the most it can decode to).
pub open spec fn held_weight(s: SseState) -> int {
    (s.buffer.len() + 3 * s.pending.len()) as int
}

/// Law: feeding `x` adds at most three times its length to what the parser
/// holds, and a feed is refused for length only when that weight exceeds
/// the line limit.
pub proof fn law_feed_bound(s: SseState, x: Seq<u8>)
    ensures
        held_weight(spec_feed(s, x).0) <= held_weight(s) + 3 * x.len(),
        held_weight(s) + 3 * x.len() <= MAX_SSE_LINE_BYTES ==> spec_feed(s, x).1 is Some,
{
    if !s.done && x.len() > 0 {
        let dec = spec_lossy_prefix(s.pending + x);
        law_lossy_prefix_size(s.pending + x);
        lemma_drain_rest(s.buffer + dec.0, false);
    }
}

/// Law: a new parser reads the same contents and reaches the same end
/// whether a stream comes in one chunk or is cut in two anywhere, when three
/// times the stream's length fits the line limit; none of the feeds is
/// refused then.
pub proof fn law_chunk_split_from_start(x: Seq<u8>, y: Seq<u8>)
    requires
        3 * (x.len() + y.len()) <= MAX_SSE_LINE_BYTES,
    ensures
        ({
            let s0 = SseState { buffer: seq![], pending: seq![], done: false };
            let (s1, o1) = spec_feed(s0, x);
            let (s2, o2) = spec_feed(s1, y);
            let (t, o) = spec_feed(s0, x + y);
            &&& o1 is Some && o2 is Some && o is Some
            &&& o->0 == o1->0 + o2->0
            &&& s2.done == t.done
        }),
{
    let s0 = SseState { buffer: seq![], pending: seq![], done: false };
    law_feed_bound(s0, x);
    let s1 = spec_feed(s0, x).0;
    law_feed_bound(s1, y);
    law_feed_bound(s0, x + y);
    if y.len() > 0 {
        law_feed_split(s0, x, y);
    } else {
        assert(x + y =~= x);
        let o1 = spec_feed(s0, x).1->0;
        assert(o1 + Seq::<Seq<char>>::empty() =~= o1);
    }
}

/// The state reached by feeding the chunks in `chunks` in order.
pub open spec fn spec_feed_all(s: SseState, chunks: Seq<Seq<u8>>) -> SseState
    decreases chunks.len(),
{
    if chunks.len() == 0 {
        s
    } else {
        spec_feed_all(spec_feed(s, chunks[0]).0, chunks.drop_first())
    }
}

/// The bytes of `chunks`, joined in order.
pub open spec fn joined_bytes(chunks: Seq<Seq<u8>>) -> Seq<u8>
    decreases chunks.len(),
{
    if chunks.len() == 0 {
        seq![]
    } else {
        chunks[0] + joined_bytes(chunks.drop_first())
    }
}

/// The complete lines at the front of `buf`, in order, up to the first one
/// that still waits for its terminator.
pub open spec fn complete_lines(buf: Seq<u8>) -> Seq<Seq<u8>>
    decreases buf.len(),
    via spec_drain_decreases_lines
{
    match spec_pop_line(buf, false) {
        None => seq![],
        Some((line, rest)) => seq![line] + complete_lines(rest),
    }
}

#[via_fn]
proof fn spec_drain_decreases_lines(buf: Seq<u8>) {
    lemma_pop_line_shrinks(buf, false);
}

/// Law: reading lines off a buffer reads the end marker exactly when one of
/// its complete lines is the end marker.
pub proof fn law_drain_done(buf: Seq<u8>)
    ensures
        spec_drain(buf, false).2 <==> exists|i: int|
            0 <= i < complete_lines(buf).len() && spec_handle_line(#[trigger] complete_lines(buf)[i]) is Done,
    decreases buf.len(),
{
    lemma_pop_line_shrinks(buf, false);
    if let Some((line, rest)) = spec_pop_line(buf, false) {
        law_drain_done(rest);
        let ls = complete_lines(buf);
        let lr = complete_lines(rest);
        assert(ls[0] == line);
        assert forall|i: int| 0 <= i < lr.len() implies ls[i + 1] == #[trigger] lr[i] by {}
        if spec_handle_line(line) is Done {
            assert(spec_handle_line(ls[0]) is Done);
        } else if exists|i: int| 0 <= i < ls.len() && spec_handle_line(#[trigger] ls[i]) is Done {
            let i = choose|i: int| 0 <= i < ls.len() && spec_handle_line(#[trigger] ls[i]) is Done;
            assert(i > 0);
            assert(lr[i - 1] == ls[i]);
        }
    }
}

/// Law: whatever way a stream is cut into chunks, the parser fed them in
/// order has read the end marker exactly when a parser fed all the bytes at
/// once has.
pub proof fn law_feed_all_done(s: SseState, chunks: Seq<Seq<u8>>)
    ensures
        spec_feed_all(s, chunks).done == spec_feed(s, joined_bytes(chunks)).0.done,
    decreases chunks.len(),
{
    if chunks.len() == 0 {
        assert(joined_bytes(chunks) =~= Seq::<u8>::empty());
    } else {
        let s1 = spec_feed(s, chunks[0]).0;
        law_feed_all_done(s1, chunks.drop_first());
        let tail = joined_bytes(chunks.drop_first());
        if tail.len() > 0 {
            law_feed_split(s, chunks[0], tail);
        } else {
            assert(chunks[0] + tail =~= chunks[0]);
        }
        if s1.done {
            lemma_feed_all_keeps_done(s1, chunks.drop_first());
        }
    }
}

/// Proof that a parser that has read the end marker keeps it.
proof fn lemma_feed_all_keeps_done(s: SseState, chunks: Seq<Seq<u8>>)
    requires
        s.done,
    ensures
        spec_feed_all(s, chunks) == s,
    decreases chunks.len(),
{
    if chunks.len() > 0 {
        lemma_feed_all_keeps_done(spec_feed(s, chunks[0]).0, chunks.drop_first());
    }
}

/// Law: a new parser fed the chunks of a stream in order has read the end
/// marker exactly when one of the complete lines of the decoded stream is a
/// `data:` line whose JSON object has `"done": true`.
pub proof fn law_done_marks_done_line(chunks: Seq<Seq<u8>>)
    ensures
        ({
            let all = joined_bytes(chunks);
            let lines = complete_lines(spec_lossy_prefix(all).0);
            spec_feed_all(SseState { buffer: seq![], pending: seq![], done: false }, chunks).done <==> all.len() > 0
                && exists|i: int| 0 <= i < lines.len() && spec_handle_line(#[trigger] lines[i]) is Done
        }),
{
    let s0 = SseState { buffer: seq![], pending: seq![], done: false };
    let all = joined_bytes(chunks);
    law_feed_all_done(s0, chunks);
    assert(Seq::<u8>::empty() + all =~= all);
    assert(Seq::<u8>::empty() + spec_lossy_prefix(all).0 =~= spec_lossy_prefix(all).0);
    law_drain_done(spec_lossy_prefix(all).0);
}

/// Whether `e` is the error for an over-long line.
pub open spec fn is_line_too_long(e: HonchoError) -> bool {
    e matches HonchoError::Connection { message } && message@ == "SSE line exceeded maximum length of 1048576 bytes"@
}

/// Incremental SSE parser that extracts `delta.content` strings.
pub struct SseParser {
    buffer: Vec<u8>,
    pending_bytes: Vec<u8>,
    done: bool,
}

impl View for SseParser {
    type V = SseState;

    closed spec fn view(&self) -> SseState {
        SseState { buffer: self.buffer@, pending: self.pending_bytes@, done: self.done }
    }
}

impl SseParser {
    /// Create a new parser.
    pub fn new() -> (p: Self)
        ensures
            p@ == (SseState { buffer: seq![], pending: seq![], done: false }),
    {
        SseParser { buffer: Vec::new(), pending_bytes: Vec::new(), done: false }
    }

    /// Whether the stream has emitted a `done: true` message.
    pub fn done(&self) -> (r: bool)
        ensures
            r == self@.done,
    {
        self.done
    }

    fn decode_pending(&mut self, chunk: &[u8])
        ensures
            final(self).buffer@ == old(self).buffer@ + spec_lossy_prefix(old(self).pending_bytes@ + chunk@).0,
            final(self).pending_bytes@ == spec_lossy_prefix(old(self).pending_bytes@ + chunk@).1,
            final(self).done == old(self).done,
    {
        self.pending_bytes.extend_from_slice(chunk);
        assert(self.pending_bytes@ =~= old(self).pending_bytes@ + chunk@);
        let consumed = lossy_prefix(self.pending_bytes.as_slice(), &mut self.buffer);
        let rest = self.pending_bytes.split_off(consumed);
        self.pending_bytes = rest;
    }

    fn pop_line(&mut self, flush: bool) -> (r: Option<Vec<u8>>)
        ensures
            final(self).done == old(self).done,
            final(self).pending_bytes@ == old(self).pending_bytes@,
            match spec_pop_line(old(self).buffer@, flush) {
                Some((line, rest)) => r matches Some(l) && l@ == line && final(self).buffer@ == rest,
                None => r is None && final(self).buffer@ == old(self).buffer@,
            },
    {
        let len = self.buffer.len();
        if len == 0 {
            return None;
        }
        proof { lemma_first_break(self.buffer@); }
        let mut t: usize = 0;
        while t < len && !(self.buffer[t] == 10 || self.buffer[t] == 13)
            invariant
                len == self.buffer@.len(),
                t <= len,
                forall|j: int| 0 <= j < t ==> !is_break(#[trigger] self.buffer@[j]),
            decreases len - t,
        {
            t = t + 1;
        }
        proof {
            match first_break(self.buffer@) {
                Some(f) => {
                    if f < t {
                        assert(!is_break(self.buffer@[f]));
                    }
                    if t < len && t < f {
                        assert(!is_break(self.buffer@[t as int]));
                    }
                },
                None => {
                    if t < len {
                        assert(!is_break(self.buffer@[t as int]));
                    }
                },
            }
        }
        if t == len {
            if flush {
                let mut line: Vec<u8> = Vec::new();
                std::mem::swap(&mut line, &mut self.buffer);
                return Some(line);
            } else {
                return None;
            }
        }
        let end: usize;
        if self.buffer[t] == 10 {
            end = t + 1;
        } else {
            if t == len - 1 && !flush {
                return None;
            }
            if t + 1 < len && self.buffer[t + 1] == 10 {
                end = t + 2;
            } else {
                end = t + 1;
            }
        }
        let mut line = self.buffer.split_off(end);
        std::mem::swap(&mut line, &mut self.buffer);
        line.truncate(t);
        Some(line)
    }

    fn handle_line(&mut self, line: &[u8]) -> (r: Option<String>)
        ensures
            final(self).buffer@ == old(self).buffer@,
            final(self).pending_bytes@ == old(self).pending_bytes@,
            match spec_handle_line(line@) {
                LineEvent::Done => r is None && final(self).done,
                LineEvent::Content(s) => r matches Some(c) && c@ == s && final(self).done == old(self).done,
                LineEvent::Skip => r is None && final(self).done == old(self).done,
            },
    {
        let n = line.len();
        if n < 5 {
            return None;
        }
        if !(line[0] == 100 && line[1] == 97 && line[2] == 116 && line[3] == 97 && line[4] == 58) {
            assert(line@.take(5) != seq![100u8, 97u8, 116u8, 97u8, 58u8]) by {
                if line@.take(5) == seq![100u8, 97u8, 116u8, 97u8, 58u8] {
                    assert(line@.take(5)[0] == line@[0]);
                    assert(line@.take(5)[1] == line@[1]);
                    assert(line@.take(5)[2] == line@[2]);
                    assert(line@.take(5)[3] == line@[3]);
                    assert(line@.take(5)[4] == line@[4]);
                }
            }
            return None;
        }
        assert(line@.take(5) =~= seq![100u8, 97u8, 116u8, 97u8, 58u8]);
        let start: usize = if n > 5 && line[5] == 32 { 6 } else { 5 };
        let json = vstd::slice::slice_subrange(line, start, n);
        assert(data_payload(line@) == Some(json@)) by {
            let rest = line@.skip(5);
            if rest.len() > 0 && rest[0] == 32 {
                assert(rest.drop_first() =~= json@);
            } else {
                assert(rest =~= json@);
            }
        }
        if json.len() == 0 {
            return None;
        }
        let doc = match json_decode(json) {
            Some(d) => d,
            None => {
                return None;
            },
        };
        let members = match doc.node {
            JsonNode::Object(m) => m,
            _ => {
                return None;
            },
        };
        let done = match member(&members, "done") {
            Some(t) => match text_as_bool(t.as_str()) {
                Some(b) => b,
                None => false,
            },
            None => false,
        };
        if done {
            self.done = true;
            return None;
        }
        let delta = match member(&members, "delta") {
            Some(t) => t,
            None => {
                return None;
            },
        };
        let delta_members = match text_as_object(delta.as_str()) {
            Some(dm) => dm,
            None => {
                return None;
            },
        };
        let content = match member(&delta_members, "content") {
            Some(c) => c,
            None => {
                return None;
            },
        };
        match text_as_str(content.as_str()) {
            Some(s) => {
                if s.as_str().unicode_len() > 0 {
                    Some(s)
                } else {
                    None
                }
            },
            None => None,
        }
    }

    fn drain_lines(&mut self, flush: bool) -> (r: Vec<String>)
        requires
            !old(self).done,
        ensures
            final(self).pending_bytes@ == old(self).pending_bytes@,
            r.deep_view() == spec_drain(old(self).buffer@, flush).0,
            final(self).buffer@ == spec_drain(old(self).buffer@, flush).1,
            final(self).done == spec_drain(old(self).buffer@, flush).2,
    {
        let mut results: Vec<String> = Vec::new();
        let ghost start = self.buffer@;
        while !self.done
            invariant
                self.pending_bytes@ == old(self).pending_bytes@,
                !self.done ==> spec_drain(start, flush) == (
                    results.deep_view() + spec_drain(self.buffer@, flush).0,
                    spec_drain(self.buffer@, flush).1,
                    spec_drain(self.buffer@, flush).2,
                ),
                self.done ==> spec_drain(start, flush) == (results.deep_view(), self.buffer@, true),
            ensures
                self.pending_bytes@ == old(self).pending_bytes@,
                spec_drain(start, flush) == (results.deep_view(), self.buffer@, self.done),
            decreases self.buffer@.len(), if self.done { 0int } else { 1int },
        {
            let ghost before = self.buffer@;
            proof { lemma_pop_line_shrinks(before, flush); }
            let line = match self.pop_line(flush) {
                Some(l) => l,
                None => {
                    assert(spec_drain(self.buffer@, flush) == (Seq::<Seq<char>>::empty(), self.buffer@, false));
                    assert(results.deep_view() + Seq::<Seq<char>>::empty() =~= results.deep_view());
                    break;
                },
            };
            let ghost rv = results.deep_view();
            match self.handle_line(line.as_slice()) {
                Some(c) => {
                    results.push(c);
                    assert(results.deep_view() =~= rv.push(c@));
                    assert(rv + (seq![c@] + spec_drain(self.buffer@, flush).0) =~= rv.push(c@) + spec_drain(self.buffer@, flush).0);
                },
                None => {
                    if self.done {
                        assert(rv + Seq::<Seq<char>>::empty() =~= rv);
                    }
                },
            }
        }
        results
    }

    /// Feed a byte chunk from the SSE stream, returning extracted content strings.
    ///
    /// Returns a `Connection` error once the unterminated remainder exceeds
    /// [`MAX_SSE_LINE_BYTES`].
    pub fn feed(&mut self, chunk: &[u8]) -> (r: Result<Vec<String>>)
        ensures
            final(self)@ == spec_feed(old(self)@, chunk@).0,
            match r {
                Ok(v) => spec_feed(old(self)@, chunk@).1 == Some(v.deep_view()),
                Err(e) => spec_feed(old(self)@, chunk@).1 is None && is_line_too_long(e),
            },
    {
        if self.done || chunk.len() == 0 {
            let v: Vec<String> = Vec::new();
            assert(v.deep_view() =~= Seq::<Seq<char>>::empty());
            return Ok(v);
        }
        self.decode_pending(chunk);
        let lines = self.drain_lines(false);
        let b = self.buffer.len();
        let p = self.pending_bytes.len();
        if b > MAX_SSE_LINE_BYTES || p > MAX_SSE_LINE_BYTES - b {
            return Err(HonchoError::Connection {
                message: String::from_str("SSE line exceeded maximum length of 1048576 bytes"),
            });
        }
        Ok(lines)
    }

    /// Flush remaining bytes and return any final content strings.
    ///
    /// Returns a `Connection` error when the buffered, unterminated line
    /// exceeds [`MAX_SSE_LINE_BYTES`].
    pub fn finalize(&mut self) -> (r: Result<Vec<String>>)
        ensures
            final(self)@ == spec_finalize(old(self)@).0,
            match r {
                Ok(v) => spec_finalize(old(self)@).1 == Some(v.deep_view()),
                Err(e) => spec_finalize(old(self)@).1 is None && is_line_too_long(e),
            },
    {
        if self.done {
            let v: Vec<String> = Vec::new();
            assert(v.deep_view() =~= Seq::<Seq<char>>::empty());
            return Ok(v);
        }
        if self.pending_bytes.len() > 0 {
            let mut lossy = lossy_bytes(self.pending_bytes.as_slice());
            self.buffer.append(&mut lossy);
            self.pending_bytes.clear();
        }
        assert(self.pending_bytes@ =~= Seq::<u8>::empty());
        if self.buffer.len() > MAX_SSE_LINE_BYTES {
            return Err(HonchoError::Connection {
                message: String::from_str("SSE line exceeded maximum length of 1048576 bytes"),
            });
        }
        Ok(self.drain_lines(true))
    }
}

/// What the byte stream under a parser does next.
pub enum SseEvent {
    /// A chunk of bytes arrived.
    Chunk(Vec<u8>),
    /// The byte stream failed, with this description.
    Failed(String),
    /// The byte stream ended.
    End,
}

/// Whether `items` are the contents `contents`, each as `Ok`.
pub open spec fn yields_contents(items: Seq<Result<String>>, contents: Seq<Seq<char>>) -> bool {
    &&& items.len() == contents.len()
    &&& forall|i: int| 0 <= i < items.len() ==> (#[trigger] items[i] matches Ok(s) && s@ == contents[i])
}

/// Whether `items` is the single error for an over-long line.
pub open spec fn yields_line_too_long(items: Seq<Result<String>>) -> bool {
    &&& items.len() == 1
    &&& items[0] matches Err(e) && is_line_too_long(e)
}

/// What reading the rest of the buffer at the end yields, given the
/// contents read (`None`: the over-long line error).
pub open spec fn yields_final(items: Seq<Result<String>>, read: Option<Seq<Seq<char>>>) -> bool {
    match read {
        Some(cs) => yields_contents(items, cs),
        None => yields_line_too_long(items),
    }
}

fn contents_as_items(contents: Vec<String>) -> (r: Vec<Result<String>>)
    ensures
        yields_contents(r@, contents.deep_view()),
{
    let mut out: Vec<Result<String>> = Vec::new();
    let n = contents.len();
    let mut i: usize = 0;
    while i < n
        invariant
            n == contents@.len(),
            i <= n,
            out@.len() == i,
            forall|j: int| 0 <= j < i ==> (#[trigger] out@[j] matches Ok(s) && s@ == contents@[j]@),
        decreases n - i,
    {
        out.push(Ok(contents[i].clone()));
        i = i + 1;
    }
    out
}

impl SseParser {
    /// The step of a stream of contents over a byte stream: what to yield
    /// for `event`, and whether the stream of contents has ended. A chunk
    /// yields what it completes and ends the stream at the end marker or on
    /// an over-long line; a failure or the end of the bytes reads the rest
    /// of the buffer first, and a failure is then reported as a `Connection`
    /// error with its description.
    pub fn on_event(&mut self, event: SseEvent) -> (r: (Vec<Result<String>>, bool))
        ensures
            match event {
                SseEvent::Chunk(bytes) => {
                    let (next, read) = spec_feed(old(self)@, bytes@);
                    &&& final(self)@ == next
                    &&& match read {
                        Some(cs) => yields_contents(r.0@, cs) && r.1 == next.done,
                        None => yields_line_too_long(r.0@) && r.1,
                    }
                },
                SseEvent::Failed(msg) => {
                    let (next, read) = spec_finalize(old(self)@);
                    &&& final(self)@ == next
                    &&& r.1
                    &&& match read {
                        Some(cs) => {
                            &&& r.0@.len() == cs.len() + 1
                            &&& yields_contents(r.0@.drop_last(), cs)
                            &&& r.0@.last() matches Err(HonchoError::Connection { message }) && message@ == msg@
                        },
                        None => yields_line_too_long(r.0@),
                    }
                },
                SseEvent::End => {
                    let (next, read) = spec_finalize(old(self)@);
                    &&& final(self)@ == next
                    &&& r.1
                    &&& yields_final(r.0@, read)
                },
            },
    {
        match event {
            SseEvent::Chunk(bytes) => match self.feed(bytes.as_slice()) {
                Ok(contents) => {
                    let items = contents_as_items(contents);
                    (items, self.done)
                },
                Err(e) => {
                    let mut items: Vec<Result<String>> = Vec::new();
                    items.push(Err(e));
                    (items, true)
                },
            },
            SseEvent::Failed(msg) => match self.finalize() {
                Ok(contents) => {
                    let mut items = contents_as_items(contents);
                    let ghost before = items@;
                    items.push(Err(HonchoError::Connection { message: msg }));
                    assert(items@.drop_last() =~= before);
                    (items, true)
                },
                Err(e) => {
                    let mut items: Vec<Result<String>> = Vec::new();
                    items.push(Err(e));
                    (items, true)
                },
            },
            SseEvent::End => match self.finalize() {
                Ok(contents) => (contents_as_items(contents), true),
                Err(e) => {
                    let mut items: Vec<Result<String>> = Vec::new();
                    items.push(Err(e));
                    (items, true)
                },
            },
        }
    }
}

impl Default for SseParser {
    fn default() -> (p: Self)
        ensures
            p@ == (SseState { buffer: seq![], pending: seq![], done: false }),
    {
        SseParser::new()
    }
}

} // verus!
