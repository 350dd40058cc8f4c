//! Accumulation of the content of a dialectic answer as its chunks stream in.

use vstd::prelude::*;

use crate::error::Result;

verus! {

/// The fully-accumulated content of a completed dialectic stream.
#[derive(Debug, Clone, PartialEq, Eq)]
pub struct FinalResponse {
    content: String,
}

impl View for FinalResponse {
    type V = Seq<char>;

    closed spec fn view(&self) -> Seq<char> {
        self.content@
    }
}

impl FinalResponse {
    /// Create a new `FinalResponse` from the accumulated content.
    pub fn new(content: String) -> (r: Self)
        ensures
            r@ == content@,
    {
        FinalResponse { content }
    }

    /// Access the accumulated response text.
    pub fn content(&self) -> (r: &str)
        ensures
            r@ == self@,
    {
        self.content.as_str()
    }

    /// The accumulated response text, as its display form.
    pub fn to_string(&self) -> (r: String)
        ensures
            r@ == self@,
    {
        self.content.clone()
    }
}

/// What a stream adapter has seen: the content accumulated, whether the
/// stream has ended, and whether it ended on an error.
pub struct DialecticView {
    pub content: Seq<char>,
    pub complete: bool,
    pub errored: bool,
}

/// The state before any item was polled.
pub open spec fn initial_view() -> DialecticView {
    DialecticView { content: Seq::empty(), complete: false, errored: false }
}

/// The state after the inner stream answered a poll with `polled`
/// (`None`: the inner stream ended). Once ended, nothing changes.
pub open spec fn spec_step(s: DialecticView, polled: Option<Result<String>>) -> DialecticView {
    if s.complete {
        s
    } else {
        match polled {
            Some(Ok(c)) => DialecticView { content: s.content + c@, complete: false, errored: s.errored },
            Some(Err(_)) => DialecticView { content: s.content, complete: true, errored: true },
            None => DialecticView { content: s.content, complete: true, errored: s.errored },
        }
    }
}

/// The state after the inner stream answered the polls in `polled`, in order.
pub open spec fn spec_run(s: DialecticView, polled: Seq<Option<Result<String>>>) -> DialecticView
    decreases polled.len(),
{
    if polled.len() == 0 {
        s
    } else {
        spec_run(spec_step(s, polled[0]), polled.drop_first())
    }
}

/// The chunks the inner stream yielded before it first ended or failed,
/// joined.
pub open spec fn joined_chunks(polled: Seq<Option<Result<String>>>) -> Seq<char>
    decreases polled.len(),
{
    if polled.len() == 0 {
        Seq::empty()
    } else {
        match polled[0] {
            Some(Ok(c)) => c@ + joined_chunks(polled.drop_first()),
            _ => Seq::empty(),
        }
    }
}

/// Law: a stream that has ended stays ended and keeps its content.
pub proof fn law_end_is_final(s: DialecticView, polled: Option<Result<String>>)
    requires
        s.complete,
    ensures
        spec_step(s, polled) == s,
{
}

/// Law: each poll keeps what was accumulated as a prefix, and a stream
/// that failed has ended.
pub proof fn law_step_keeps_prefix(s: DialecticView, polled: Option<Result<String>>)
    ensures
        spec_step(s, polled).content.len() >= s.content.len(),
        spec_step(s, polled).content.take(s.content.len() as int) == s.content,
        (s.errored ==> s.complete) ==> (spec_step(s, polled).errored ==> spec_step(s, polled).complete),
{
    let t = spec_step(s, polled);
    assert(t.content.take(s.content.len() as int) =~= s.content);
}

/// Law: the final response of a stream that was polled with `polled` from
/// the start is the concatenation of the chunks the inner stream yielded
/// before it ended or failed.
pub proof fn law_final_response_joins_chunks(polled: Seq<Option<Result<String>>>)
    ensures
        spec_run(initial_view(), polled).content == joined_chunks(polled),
{
    lemma_run_content(initial_view(), polled);
    assert(Seq::<char>::empty() + joined_chunks(polled) =~= joined_chunks(polled));
}

/// Whether the inner stream answered a poll with a chunk.
pub open spec fn is_chunk(polled: Option<Result<String>>) -> bool {
    polled matches Some(Ok(_))
}

/// Whether the inner stream answered a poll with an error.
pub open spec fn is_failure(polled: Option<Result<String>>) -> bool {
    polled matches Some(Err(_))
}

/// Law: after the polls in `polled` from the start, the stream has ended
/// exactly when one of them was not a chunk (the inner stream ended or
/// failed), and it ended on an error exactly when the first such answer was
/// an error. A stream that failed has ended.
pub proof fn law_run_flags(polled: Seq<Option<Result<String>>>)
    ensures
        spec_run(initial_view(), polled).complete <==> exists|i: int|
            0 <= i < polled.len() && !is_chunk(#[trigger] polled[i]),
        spec_run(initial_view(), polled).errored <==> exists|i: int|
            0 <= i < polled.len() && is_failure(#[trigger] polled[i]) && forall|j: int|
                0 <= j < i ==> is_chunk(#[trigger] polled[j]),
        spec_run(initial_view(), polled).errored ==> spec_run(initial_view(), polled).complete,
{
    lemma_run_flags(initial_view(), polled);
}

/// Proof of [`law_run_flags`] from any state that has not ended.
proof fn lemma_run_flags(s: DialecticView, polled: Seq<Option<Result<String>>>)
    requires
        !s.complete,
        !s.errored,
    ensures
        spec_run(s, polled).complete <==> exists|i: int|
            0 <= i < polled.len() && !is_chunk(#[trigger] polled[i]),
        spec_run(s, polled).errored <==> exists|i: int|
            0 <= i < polled.len() && is_failure(#[trigger] polled[i]) && forall|j: int|
                0 <= j < i ==> is_chunk(#[trigger] polled[j]),
        spec_run(s, polled).errored ==> spec_run(s, polled).complete,
    decreases polled.len(),
{
    if polled.len() > 0 {
        let t = spec_step(s, polled[0]);
        let rest = polled.drop_first();
        if is_chunk(polled[0]) {
            lemma_run_flags(t, rest);
            if spec_run(t, rest).complete {
                let k = choose|k: int| 0 <= k < rest.len() && !is_chunk(#[trigger] rest[k]);
                assert(polled[k + 1] == rest[k]);
            }
            if exists|i: int| 0 <= i < polled.len() && !is_chunk(#[trigger] polled[i]) {
                let i = choose|i: int| 0 <= i < polled.len() && !is_chunk(#[trigger] polled[i]);
                assert(i > 0);
                assert(rest[i - 1] == polled[i]);
            }
            if spec_run(t, rest).errored {
                let k = choose|k: int|
                    0 <= k < rest.len() && is_failure(#[trigger] rest[k]) && forall|j: int|
                        0 <= j < k ==> is_chunk(#[trigger] rest[j]);
                assert(polled[k + 1] == rest[k]);
                assert forall|j: int| 0 <= j < k + 1 implies is_chunk(#[trigger] polled[j]) by {
                    if j > 0 {
                        assert(polled[j] == rest[j - 1]);
                    }
                }
            }
            if exists|i: int|
                0 <= i < polled.len() && is_failure(#[trigger] polled[i]) && forall|j: int|
                    0 <= j < i ==> is_chunk(#[trigger] polled[j]) {
                let i = choose|i: int|
                    0 <= i < polled.len() && is_failure(#[trigger] polled[i]) && forall|j: int|
                        0 <= j < i ==> is_chunk(#[trigger] polled[j]);
                assert(i > 0);
                assert(rest[i - 1] == polled[i]);
                assert forall|j: int| 0 <= j < i - 1 implies is_chunk(#[trigger] rest[j]) by {
                    assert(rest[j] == polled[j + 1]);
                }
            }
        } else {
            lemma_run_ended(t, rest);
            assert(!is_chunk(polled[0]));
            if is_failure(polled[0]) {
                assert(forall|j: int| 0 <= j < 0 ==> is_chunk(#[trigger] polled[j]));
            } else {
                if exists|i: int|
                    0 <= i < polled.len() && is_failure(#[trigger] polled[i]) && forall|j: int|
                        0 <= j < i ==> is_chunk(#[trigger] polled[j]) {
                    let i = choose|i: int|
                        0 <= i < polled.len() && is_failure(#[trigger] polled[i]) && forall|j: int|
                            0 <= j < i ==> is_chunk(#[trigger] polled[j]);
                    if i > 0 {
                        assert(is_chunk(polled[0]));
                    }
                }
            }
        }
    }
}

/// Proof that a stream not yet ended appends the joined chunks to what it holds.
proof fn lemma_run_content(s: DialecticView, polled: Seq<Option<Result<String>>>)
    requires
        !s.complete,
    ensures
        spec_run(s, polled).content == s.content + joined_chunks(polled),
    decreases polled.len(),
{
    if polled.len() == 0 {
        assert(s.content + Seq::<char>::empty() =~= s.content);
    } else {
        let t = spec_step(s, polled[0]);
        match polled[0] {
            Some(Ok(c)) => {
                lemma_run_content(t, polled.drop_first());
                assert(s.content + c@ + joined_chunks(polled.drop_first()) =~= s.content + (c@ + joined_chunks(
                    polled.drop_first(),
                )));
            },
            _ => {
                lemma_run_ended(t, polled.drop_first());
                assert(s.content + Seq::<char>::empty() =~= s.content);
            },
        }
    }
}

/// Proof that polls after the end change nothing.
proof fn lemma_run_ended(s: DialecticView, polled: Seq<Option<Result<String>>>)
    requires
        s.complete,
    ensures
        spec_run(s, polled) == s,
    decreases polled.len(),
{
    if polled.len() > 0 {
        lemma_run_ended(spec_step(s, polled[0]), polled.drop_first());
    }
}

/// Stream adapter that accumulates content from a dialectic stream.
///
/// Every chunk the inner stream yields is passed on and appended to the
/// final response; an error, or the end of the inner stream, ends it.
pub struct DialecticStream<S> {
    inner: S,
    final_response: FinalResponse,
    complete: bool,
    errored: bool,
}

impl<S> View for DialecticStream<S> {
    type V = DialecticView;

    closed spec fn view(&self) -> DialecticView {
        DialecticView { content: self.final_response@, complete: self.complete, errored: self.errored }
    }
}

impl<S> DialecticStream<S> {
    /// The wrapped stream.
    pub closed spec fn spec_inner(&self) -> S {
        self.inner
    }

    /// Wrap a stream, accumulating all successful content chunks.
    pub fn new(stream: S) -> (r: Self)
        ensures
            r@ == initial_view(),
            r.spec_inner() == stream,
    {
        DialecticStream {
            inner: stream,
            final_response: FinalResponse { content: String::new() },
            complete: false,
            errored: false,
        }
    }

    /// Returns the accumulated response so far (partial if stream is still in progress).
    pub fn final_response(&self) -> (r: &FinalResponse)
        ensures
            r@ == self@.content,
    {
        &self.final_response
    }

    /// `true` once the stream has terminated, at its end or on an error.
    pub fn is_complete(&self) -> (r: bool)
        ensures
            r == self@.complete,
    {
        self.complete
    }

    /// `true` if the stream terminated because the inner stream yielded an error.
    pub fn is_errored(&self) -> (r: bool)
        ensures
            r == self@.errored,
    {
        self.errored
    }

    /// The wrapped stream.
    pub fn inner(&self) -> (r: &S)
        ensures
            *r == self.spec_inner(),
    {
        &self.inner
    }

    /// The wrapped stream, for polling it.
    pub fn inner_mut(&mut self) -> (r: &mut S)
        ensures
            *r == old(self).spec_inner(),
            final(self)@ == old(self)@,
            final(self).spec_inner() == *final(r),
    {
        &mut self.inner
    }

    /// Take in the answer of the inner stream to a poll and return what the
    /// adapter yields for it: the chunk or the error, passed on, or `None`
    /// at the end. Nothing is passed on once the stream has ended.
    pub fn observe(&mut self, polled: Option<Result<String>>) -> (out: Option<Result<String>>)
        ensures
            final(self)@ == spec_step(old(self)@, polled),
            final(self).spec_inner() == old(self).spec_inner(),
            out == (if old(self)@.complete { None } else { polled }),
    {
        if self.complete {
            return None;
        }
        match polled {
            Some(Ok(content)) => {
                self.final_response.content.append(content.as_str());
                Some(Ok(content))
            },
            Some(Err(e)) => {
                self.complete = true;
                self.errored = true;
                Some(Err(e))
            },
            None => {
                self.complete = true;
                None
            },
        }
    }
}

} // verus!
