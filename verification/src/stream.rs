//! The stream controller: at most one live response stream, told apart from
//! every earlier one by its token.
//!
//! The controller does no I/O. Whoever drives the backend hands it the events
//! of a stream, each with the token that the stream was started under, and
//! does what the controller answers: forward the chunk or stop.

use crate::envelope::Envelope;
use crate::translate::envelope_views;
use vstd::prelude::*;
use vstd::string::StringExecFns;

verus! {

/// Why a response stream did not start, or did not end well.
#[derive(Clone, Copy, Debug, PartialEq, Eq, Structural)]
pub enum StreamError {
    /// A response stream is running already.
    Busy,
    /// No chat that the store holds is loaded.
    NoChat,
    /// Every token has been handed out.
    TokensExhausted,
    /// The backend could not be reached, or the transport failed.
    Backend,
}

/// What to do with a chunk that arrived.
#[derive(Clone, Copy, Debug, PartialEq, Eq, Structural)]
pub enum Verdict {
    /// The chunk belongs to the live stream: forward it to the observer, now.
    Emit,
    /// The stream is cancelled or superseded: forward nothing, and stop.
    Stop,
}

/// How a stream ended.
#[derive(Debug, PartialEq, Eq)]
pub enum StreamOutcome {
    /// The stream ended by itself; this is all of its text.
    Completed(String),
    /// The stream was cancelled or superseded before it ended. Its partial text
    /// is gone.
    Cancelled,
}

/// The mathematical value of a [`StreamOutcome`].
pub enum OutcomeView {
    Completed(Seq<char>),
    Cancelled,
}

impl View for StreamOutcome {
    type V = OutcomeView;

    open spec fn view(&self) -> OutcomeView {
        match self {
            StreamOutcome::Completed(text) => OutcomeView::Completed(text@),
            StreamOutcome::Cancelled => OutcomeView::Cancelled,
        }
    }
}

/// The request that opens a stream: the token to report its events under, the
/// model to ask, and the conversation to send as context.
#[derive(Debug, PartialEq, Eq)]
pub struct StreamRequest {
    pub token: u64,
    pub model: String,
    pub messages: Vec<Envelope>,
}

/// The live stream as a mathematical value.
pub struct LiveView {
    pub token: int,
    pub model: Seq<char>,
    pub text: Seq<char>,
}

/// The controller as a mathematical value: the live stream, if there is one,
/// and the last token handed out.
pub struct StreamView {
    pub live: Option<LiveView>,
    pub last_token: int,
}

impl StreamView {
    /// The controller before any stream was started.
    pub open spec fn idle() -> StreamView {
        StreamView { live: None, last_token: 0 }
    }

    /// The invariant: tokens are positive, and the live one is the last one
    /// handed out or an earlier one.
    pub open spec fn wf(self) -> bool {
        &&& 0 <= self.last_token <= u64::MAX
        &&& self.live matches Some(live) ==> 1 <= live.token <= self.last_token
    }

    /// Whether the token is that of the live stream.
    pub open spec fn is_live(self, token: int) -> bool {
        self.live matches Some(live) && live.token == token
    }

    /// The controller after a stream was started for the model: the stream is
    /// live under a fresh token, with no text yet. A stream that was live
    /// before is superseded.
    pub open spec fn start(self, model: Seq<char>) -> StreamView {
        StreamView {
            live: Some(LiveView { token: self.last_token + 1, model, text: Seq::empty() }),
            last_token: self.last_token + 1,
        }
    }

    /// What to do with a chunk reported under the token.
    pub open spec fn verdict(self, token: int) -> Verdict {
        if self.is_live(token) {
            Verdict::Emit
        } else {
            Verdict::Stop
        }
    }

    /// The controller after a chunk was reported under the token: the text of
    /// the live stream grows by the chunk; a chunk of any other stream changes
    /// nothing.
    pub open spec fn receive(self, token: int, chunk: Seq<char>) -> StreamView {
        if self.is_live(token) {
            StreamView {
                live: Some(LiveView { text: self.live->Some_0.text + chunk, ..self.live->Some_0 }),
                ..self
            }
        } else {
            self
        }
    }

    /// How the stream under the token ended, when its end is reported.
    pub open spec fn outcome(self, token: int) -> OutcomeView {
        if self.is_live(token) {
            OutcomeView::Completed(self.live->Some_0.text)
        } else {
            OutcomeView::Cancelled
        }
    }

    /// The controller after the end, or the failure, of the stream under the
    /// token was reported: if that stream was live, none is; the end of any
    /// other stream changes nothing.
    pub open spec fn close(self, token: int) -> StreamView {
        if self.is_live(token) {
            StreamView { live: None, ..self }
        } else {
            self
        }
    }

    /// The controller after a cancellation: no stream is live.
    pub open spec fn cancel(self) -> StreamView {
        StreamView { live: None, ..self }
    }

    /// The controller after the chunks were reported under the token, one
    /// after the other.
    pub open spec fn receive_all(self, token: int, chunks: Seq<Seq<char>>) -> StreamView
        decreases chunks.len(),
    {
        if chunks.len() == 0 {
            self
        } else {
            self.receive_all(token, chunks.drop_last()).receive(token, chunks.last())
        }
    }
}

/// The chunks laid end to end.
pub open spec fn joined(chunks: Seq<Seq<char>>) -> Seq<char>
    decreases chunks.len(),
{
    if chunks.len() == 0 {
        Seq::empty()
    } else {
        joined(chunks.drop_last()) + chunks.last()
    }
}

/// The stream that is live.
#[derive(Debug)]
struct LiveStream {
    token: u64,
    model: String,
    text: String,
}

/// The owner of the one live response stream.
#[derive(Debug)]
pub struct StreamController {
    live: Option<LiveStream>,
    last_token: u64,
}

impl View for StreamController {
    type V = StreamView;

    closed spec fn view(&self) -> StreamView {
        StreamView {
            live: match self.live {
                Some(live) => Some(
                    LiveView { token: live.token as int, model: live.model@, text: live.text@ },
                ),
                None => None,
            },
            last_token: self.last_token as int,
        }
    }
}

impl StreamController {
    /// The invariant of the controller: that of its model.
    pub open spec fn wf(&self) -> bool {
        self@.wf()
    }

    /// A controller with no live stream.
    pub fn new() -> (controller: Self)
        ensures
            controller@ == StreamView::idle(),
            controller.wf(),
    {
        StreamController { live: None, last_token: 0 }
    }

    /// Whether a stream is live.
    pub fn is_streaming(&self) -> (live: bool)
        ensures
            live == self@.live.is_some(),
    {
        self.live.is_some()
    }

    /// The token of the live stream, if there is one.
    pub fn live_token(&self) -> (token: Option<u64>)
        ensures
            token is Some <==> self@.live is Some,
            token matches Some(t) ==> self@.is_live(t as int),
    {
        match &self.live {
            Some(live) => Some(live.token),
            None => None,
        }
    }

    /// The model of the live stream, if there is one.
    pub fn live_model(&self) -> (model: Option<String>)
        ensures
            model is Some <==> self@.live is Some,
            model matches Some(m) ==> m@ == self@.live->Some_0.model,
    {
        match &self.live {
            Some(live) => Some(live.model.clone()),
            None => None,
        }
    }

    /// Starts a stream for the model over the given context, and hands out the
    /// request that opens it. The stream is live under a fresh token; one that
    /// was live before is superseded, not cancelled. The context is handed on
    /// as it is. Fails, and changes nothing, only when no token is left.
    pub fn start(&mut self, model: String, context: Vec<Envelope>) -> (r: Result<
        StreamRequest,
        StreamError,
    >)
        requires
            old(self).wf(),
        ensures
            final(self).wf(),
            r is Ok <==> old(self)@.last_token < u64::MAX,
            r is Ok ==> final(self)@ == old(self)@.start(model@),
            r matches Ok(request) ==> request.token == old(self)@.last_token + 1 && request.model@
                == model@ && envelope_views(request.messages@) == envelope_views(context@),
            r matches Err(e) ==> e == StreamError::TokensExhausted && final(self)@ == old(self)@,
    {
        if self.last_token == u64::MAX {
            return Err(StreamError::TokensExhausted);
        }
        let token: u64 = self.last_token + 1;
        let request = StreamRequest { token, model: model.clone(), messages: context };
        self.live = Some(LiveStream { token, model, text: String::new() });
        self.last_token = token;
        Ok(request)
    }

    /// Takes a chunk reported under the token. A chunk of the live stream is
    /// added to its text and is to be forwarded; a chunk of any other stream
    /// changes nothing and is not to be forwarded.
    pub fn receive(&mut self, token: u64, chunk: &str) -> (verdict: Verdict)
        requires
            old(self).wf(),
        ensures
            final(self).wf(),
            verdict == old(self)@.verdict(token as int),
            final(self)@ == old(self)@.receive(token as int, chunk@),
    {
        let live = self.live.take();
        match live {
            Some(mut stream) => {
                if stream.token == token {
                    stream.text.append(chunk);
                    self.live = Some(stream);
                    Verdict::Emit
                } else {
                    self.live = Some(stream);
                    Verdict::Stop
                }
            },
            None => Verdict::Stop,
        }
    }

    /// Takes the end of the stream under the token. If that stream is live, it
    /// is completed with all of its text and no stream is live; otherwise it
    /// was cancelled, and nothing changes.
    pub fn finish(&mut self, token: u64) -> (outcome: StreamOutcome)
        requires
            old(self).wf(),
        ensures
            final(self).wf(),
            outcome@ == old(self)@.outcome(token as int),
            final(self)@ == old(self)@.close(token as int),
    {
        let live = self.live.take();
        match live {
            Some(stream) => {
                if stream.token == token {
                    StreamOutcome::Completed(stream.text)
                } else {
                    self.live = Some(stream);
                    StreamOutcome::Cancelled
                }
            },
            None => StreamOutcome::Cancelled,
        }
    }

    /// Takes the failure of the stream under the token. If that stream is
    /// live, its text is dropped, no stream is live, and the failure is
    /// reported; a failure of any other stream changes nothing and is none to
    /// report.
    pub fn fail(&mut self, token: u64) -> (r: Result<(), StreamError>)
        requires
            old(self).wf(),
        ensures
            final(self).wf(),
            r is Err <==> old(self)@.is_live(token as int),
            r matches Err(e) ==> e == StreamError::Backend,
            final(self)@ == old(self)@.close(token as int),
    {
        let live = self.live.take();
        match live {
            Some(stream) => {
                if stream.token == token {
                    Err(StreamError::Backend)
                } else {
                    self.live = Some(stream);
                    Ok(())
                }
            },
            None => Ok(()),
        }
    }

    /// Cancels the live stream and hands out its token, so that whoever drives
    /// it can be woken. With no live stream this does nothing.
    pub fn cancel(&mut self) -> (cancelled: Option<u64>)
        requires
            old(self).wf(),
        ensures
            final(self).wf(),
            final(self)@ == old(self)@.cancel(),
            cancelled is Some <==> old(self)@.live is Some,
            cancelled matches Some(token) ==> old(self)@.is_live(token as int),
    {
        match self.live.take() {
            Some(stream) => Some(stream.token),
            None => None,
        }
    }
}

/// The chunks of the live stream add up to its text in the order in which
/// they arrive, and each of them is forwarded.
pub proof fn lemma_receive_all_live(s: StreamView, token: int, chunks: Seq<Seq<char>>)
    requires
        s.is_live(token),
    ensures
        s.receive_all(token, chunks).is_live(token),
        s.receive_all(token, chunks).last_token == s.last_token,
        s.receive_all(token, chunks).live->Some_0.model == s.live->Some_0.model,
        s.receive_all(token, chunks).live->Some_0.text == s.live->Some_0.text + joined(chunks),
        forall|k: int|
            0 <= k < chunks.len() ==> (#[trigger] s.receive_all(token, chunks.take(k))).verdict(
                token,
            ) == Verdict::Emit,
    decreases chunks.len(),
{
    if chunks.len() == 0 {
        assert(s.live->Some_0.text + joined(chunks) == s.live->Some_0.text);
    } else {
        let front = chunks.drop_last();
        lemma_receive_all_live(s, token, front);
        let mid = s.receive_all(token, front);
        assert(mid.live->Some_0.text + chunks.last() == s.live->Some_0.text + joined(chunks));
        assert forall|k: int| 0 <= k < chunks.len() implies (#[trigger] s.receive_all(
            token,
            chunks.take(k),
        )).verdict(token) == Verdict::Emit by {
            if k < front.len() {
                assert(chunks.take(k) == front.take(k));
            } else {
                assert(chunks.take(k) == front);
            }
        }
    }
}

/// The chunks of a stream that is not live change nothing, and none of them
/// is forwarded.
pub proof fn lemma_receive_all_stale(s: StreamView, token: int, chunks: Seq<Seq<char>>)
    requires
        !s.is_live(token),
    ensures
        s.receive_all(token, chunks) == s,
        s.verdict(token) == Verdict::Stop,
        s.outcome(token) == OutcomeView::Cancelled,
        s.close(token) == s,
    decreases chunks.len(),
{
    if chunks.len() > 0 {
        lemma_receive_all_stale(s, token, chunks.drop_last());
    }
}

/// A stream that ends by itself is completed with all of its chunks, laid end
/// to end in the order in which they arrived.
pub proof fn lemma_completes_with_all_chunks(
    s: StreamView,
    model: Seq<char>,
    chunks: Seq<Seq<char>>,
)
    requires
        s.wf(),
    ensures
        s.start(model).receive_all(s.last_token + 1, chunks).outcome(s.last_token + 1)
            == OutcomeView::Completed(joined(chunks)),
        s.start(model).receive_all(s.last_token + 1, chunks).close(s.last_token + 1).live is None,
{
    let token: int = s.last_token + 1;
    lemma_receive_all_live(s.start(model), token, chunks);
    assert(Seq::<char>::empty() + joined(chunks) == joined(chunks));
}

/// Cancelling is final and can be repeated: after it no stream is live, every
/// chunk is to be dropped, every end reported is that of a cancelled stream,
/// and a second cancellation changes nothing.
pub proof fn lemma_cancel_is_final(s: StreamView, token: int, chunks: Seq<Seq<char>>)
    ensures
        s.cancel().live is None,
        s.cancel().cancel() == s.cancel(),
        s.cancel().receive_all(token, chunks) == s.cancel(),
        s.cancel().verdict(token) == Verdict::Stop,
        s.cancel().outcome(token) == OutcomeView::Cancelled,
        s.cancel().close(token) == s.cancel(),
{
    lemma_receive_all_stale(s.cancel(), token, chunks);
}

/// A stream that was superseded is not live: once a new stream is started,
/// nothing that is reported under an earlier token is forwarded or kept.
pub proof fn lemma_start_supersedes(s: StreamView, model: Seq<char>, token: int)
    requires
        s.wf(),
        token <= s.last_token,
    ensures
        s.start(model).wf() <==> s.last_token < u64::MAX,
        !s.start(model).is_live(token),
        s.start(model).is_live(s.last_token + 1),
{
}

} // verus!
