//! The session as a mathematical value, with each operation as a function from
//! session to session, and the laws that hold of them.

use crate::envelope::lemma_round_trip;
use crate::envelope::parse_spec;
use crate::envelope::role_of_author;
use crate::envelope::serialize_spec;
use crate::envelope::EnvelopeView;
use crate::envelope::MalformedEnvelopeError;
use crate::envelope::Role;
use crate::store::lemma_append_is_listed_last;
use crate::store::lemma_append_message_wf;
use crate::store::lemma_create_chat_wf;
use crate::store::lemma_delete_chat_cascades;
use crate::store::lemma_delete_chat_wf;
use crate::store::lemma_delete_from_wf;
use crate::store::MessageView;
use crate::store::StorageError;
use crate::store::StoreView;
use crate::stream::joined;
use crate::stream::lemma_receive_all_live;
use crate::stream::lemma_receive_all_stale;
use crate::stream::StreamError;
use crate::stream::StreamView;
use crate::stream::Verdict;
use crate::translate::displayed;
use crate::translate::entries_of;
use crate::translate::lemma_translate_push;
use crate::translate::readable;
use crate::translate::shown_with;
use vstd::prelude::*;

verus! {

/// Why the session refused an operation.
#[derive(Clone, Copy, Debug, PartialEq, Eq, Structural)]
pub enum SessionError {
    /// The store refused.
    Storage(StorageError),
    /// The message could not be written as an envelope.
    Envelope(MalformedEnvelopeError),
    /// The stream controller refused, or the stream failed.
    Stream(StreamError),
}

/// The session as a mathematical value: the store, the conversation buffer,
/// the chat that the buffer was loaded from, and the stream controller.
pub struct SessionView {
    pub store: StoreView,
    pub buffer: Seq<EnvelopeView>,
    pub loaded: Option<int>,
    pub stream: StreamView,
}

impl SessionView {
    /// The session over a store, with nothing loaded and no stream.
    pub open spec fn over(store: StoreView) -> SessionView {
        SessionView { store, buffer: Seq::empty(), loaded: None, stream: StreamView::idle() }
    }

    /// Whether a response stream is running.
    pub open spec fn streaming(self) -> bool {
        self.stream.live is Some
    }

    /// What the buffer has to hold while the given chat is loaded: the entries
    /// of the chat's stored messages.
    pub open spec fn context_of(self, chat_id: int) -> Seq<EnvelopeView> {
        entries_of(self.store.messages_of(chat_id))
    }

    /// The invariant of a session. The buffer is a cache of the store: it
    /// holds the entries of the loaded chat's messages, and nothing while no
    /// chat is loaded. A stream runs only for a loaded chat that the store
    /// holds.
    pub open spec fn wf(self) -> bool {
        &&& self.store.wf()
        &&& self.stream.wf()
        &&& match self.loaded {
            Some(chat_id) => self.buffer == self.context_of(chat_id),
            None => self.buffer == Seq::<EnvelopeView>::empty(),
        }
        &&& self.streaming() ==> self.loaded is Some && self.store.has_chat(self.loaded->Some_0)
    }

    /// The session after a chat was created.
    pub open spec fn create_chat(self, name: Seq<char>, created_at: Seq<char>) -> SessionView {
        SessionView { store: self.store.create_chat(name, created_at), ..self }
    }

    /// The stream controller after the given chat was selected: a stream that
    /// runs for another chat is cancelled.
    pub open spec fn stream_after_select(self, chat_id: int) -> StreamView {
        if self.loaded == Some(chat_id) {
            self.stream
        } else {
            self.stream.cancel()
        }
    }

    /// The session after a chat was selected: the buffer is loaded from the
    /// store, and a stream that runs for another chat is cancelled.
    pub open spec fn select(self, chat_id: int) -> SessionView {
        SessionView {
            buffer: self.context_of(chat_id),
            loaded: Some(chat_id),
            stream: self.stream_after_select(chat_id),
            ..self
        }
    }

    /// The session after a chat was deleted: the chat and its messages are
    /// gone from the store; if the chat was loaded, the buffer is empty,
    /// nothing is loaded and its stream is cancelled.
    pub open spec fn delete_chat(self, chat_id: int) -> SessionView {
        if self.loaded == Some(chat_id) {
            SessionView {
                store: self.store.delete_chat(chat_id),
                buffer: Seq::empty(),
                loaded: None,
                stream: self.stream.cancel(),
            }
        } else {
            SessionView { store: self.store.delete_chat(chat_id), ..self }
        }
    }

    /// The session after a message of a chat and every later one were deleted:
    /// the chat is loaded anew, and a stream that runs is cancelled.
    pub open spec fn delete_message(self, chat_id: int, message_id: int) -> SessionView {
        let store = self.store.delete_from(chat_id, message_id);
        SessionView {
            store,
            buffer: entries_of(store.messages_of(chat_id)),
            loaded: Some(chat_id),
            stream: self.stream.cancel(),
        }
    }

    /// Why `send_message` fails, if it does.
    pub open spec fn send_error(
        self,
        chat_id: int,
        text: Seq<char>,
        author_model: Option<Seq<char>>,
    ) -> Option<SessionError> {
        if self.streaming() {
            Some(SessionError::Stream(StreamError::Busy))
        } else if !self.store.has_chat(chat_id) {
            Some(SessionError::Storage(StorageError::UnknownChat))
        } else if serialize_spec(role_of_author(author_model), text) is Err {
            Some(
                SessionError::Envelope(serialize_spec(role_of_author(author_model), text)->Err_0),
            )
        } else if self.store.last_message_id >= i64::MAX {
            Some(SessionError::Storage(StorageError::IdsExhausted))
        } else {
            None
        }
    }

    /// The row that `send_message` stores.
    pub open spec fn sent_row(
        self,
        chat_id: int,
        text: Seq<char>,
        author_model: Option<Seq<char>>,
        created_at: Seq<char>,
    ) -> MessageView {
        self.store.next_message(
            chat_id,
            serialize_spec(role_of_author(author_model), text)->Ok_0,
            author_model,
            created_at,
        )
    }

    /// The session after a message was sent to a chat: the message is stored
    /// as an envelope, and the buffer holds the chat with the message at its
    /// tail.
    pub open spec fn send(
        self,
        chat_id: int,
        text: Seq<char>,
        author_model: Option<Seq<char>>,
        created_at: Seq<char>,
    ) -> SessionView {
        let store = self.store.append_message(
            chat_id,
            serialize_spec(role_of_author(author_model), text)->Ok_0,
            author_model,
            created_at,
        );
        SessionView {
            store,
            buffer: entries_of(store.messages_of(chat_id)),
            loaded: Some(chat_id),
            ..self
        }
    }

    /// Why `start_response_stream` fails, if it does.
    pub open spec fn start_error(self) -> Option<StreamError> {
        if self.streaming() {
            Some(StreamError::Busy)
        } else if self.loaded is None || !self.store.has_chat(self.loaded->Some_0) {
            Some(StreamError::NoChat)
        } else if self.stream.last_token >= u64::MAX {
            Some(StreamError::TokensExhausted)
        } else {
            None
        }
    }

    /// The session after a response stream was started for the model.
    pub open spec fn start(self, model: Seq<char>) -> SessionView {
        SessionView { stream: self.stream.start(model), ..self }
    }

    /// The session after a chunk was reported under the token.
    pub open spec fn receive(self, token: int, chunk: Seq<char>) -> SessionView {
        SessionView { stream: self.stream.receive(token, chunk), ..self }
    }

    /// The session after the chunks were reported under the token, one after
    /// the other.
    pub open spec fn receive_all(self, token: int, chunks: Seq<Seq<char>>) -> SessionView {
        SessionView { stream: self.stream.receive_all(token, chunks), ..self }
    }

    /// The session after a cancellation.
    pub open spec fn cancel(self) -> SessionView {
        SessionView { stream: self.stream.cancel(), ..self }
    }

    /// The session after the failure of the stream under the token was
    /// reported.
    pub open spec fn fail(self, token: int) -> SessionView {
        SessionView { stream: self.stream.close(token), ..self }
    }

    /// Why `finish_response` fails, if it does. It does not fail on the end of
    /// a stream that is not live.
    pub open spec fn finish_error(self, token: int) -> Option<SessionError> {
        if !self.stream.is_live(token) {
            None
        } else if serialize_spec(Role::Assistant, self.stream.live->Some_0.text) is Err {
            Some(
                SessionError::Envelope(
                    serialize_spec(Role::Assistant, self.stream.live->Some_0.text)->Err_0,
                ),
            )
        } else if self.store.last_message_id >= i64::MAX {
            Some(SessionError::Storage(StorageError::IdsExhausted))
        } else {
            None
        }
    }

    /// The row that `finish_response` stores for the live stream.
    pub open spec fn response_row(self, created_at: Seq<char>) -> MessageView {
        self.store.next_message(
            self.loaded->Some_0,
            serialize_spec(Role::Assistant, self.stream.live->Some_0.text)->Ok_0,
            Some(self.stream.live->Some_0.model),
            created_at,
        )
    }

    /// The session after the end of the stream under the token was reported.
    /// The end of the live stream closes it; if its text can be stored, it is
    /// stored as a message of the model and added to the buffer. The end of
    /// any other stream changes nothing.
    pub open spec fn finish(self, token: int, created_at: Seq<char>) -> SessionView {
        if !self.stream.is_live(token) {
            self
        } else if self.finish_error(token) is Some {
            SessionView { stream: self.stream.close(token), ..self }
        } else {
            let store = self.store.append_message(
                self.loaded->Some_0,
                serialize_spec(Role::Assistant, self.stream.live->Some_0.text)->Ok_0,
                Some(self.stream.live->Some_0.model),
                created_at,
            );
            SessionView {
                store,
                buffer: self.buffer.push(
                    EnvelopeView { role: Role::Assistant, content: self.stream.live->Some_0.text },
                ),
                stream: self.stream.close(token),
                ..self
            }
        }
    }
}

/// A message that `serialize` wrote and that is appended to a chat shows up at
/// the tail of the chat's two projections, as the message that was written.
pub proof fn lemma_context_follows_append(
    store: StoreView,
    chat_id: int,
    role: Role,
    text: Seq<char>,
    author_model: Option<Seq<char>>,
    created_at: Seq<char>,
)
    requires
        serialize_spec(role, text) is Ok,
    ensures
        entries_of(
            store.append_message(
                chat_id,
                serialize_spec(role, text)->Ok_0,
                author_model,
                created_at,
            ).messages_of(chat_id),
        ) == entries_of(store.messages_of(chat_id)).push(EnvelopeView { role, content: text }),
        displayed(
            store.append_message(
                chat_id,
                serialize_spec(role, text)->Ok_0,
                author_model,
                created_at,
            ).messages_of(chat_id),
        ) == displayed(store.messages_of(chat_id)).push(
            shown_with(
                store.next_message(
                    chat_id,
                    serialize_spec(role, text)->Ok_0,
                    author_model,
                    created_at,
                ),
                text,
            ),
        ),
{
    let content = serialize_spec(role, text)->Ok_0;
    let row = store.next_message(chat_id, content, author_model, created_at);
    lemma_round_trip(role, text);
    lemma_append_is_listed_last(store, chat_id, content, author_model, created_at);
    lemma_translate_push(store.messages_of(chat_id), row);
    assert(readable()(row));
}

/// Creating a chat keeps the session's invariant.
pub proof fn lemma_session_create_chat_wf(s: SessionView, name: Seq<char>, created_at: Seq<char>)
    requires
        s.wf(),
        s.store.last_chat_id < i64::MAX,
    ensures
        s.create_chat(name, created_at).wf(),
{
    lemma_create_chat_wf(s.store, name, created_at);
}

/// Selecting a chat keeps the session's invariant.
pub proof fn lemma_select_wf(s: SessionView, chat_id: int)
    requires
        s.wf(),
    ensures
        s.select(chat_id).wf(),
{
}

/// Deleting a chat keeps the session's invariant.
pub proof fn lemma_session_delete_chat_wf(s: SessionView, chat_id: int)
    requires
        s.wf(),
    ensures
        s.delete_chat(chat_id).wf(),
{
    lemma_delete_chat_wf(s.store, chat_id);
    lemma_delete_chat_cascades(s.store, chat_id);
    if s.loaded is Some && s.loaded != Some(chat_id) {
        let c = s.loaded->Some_0;
        assert(s.store.delete_chat(chat_id).messages_of(c) == s.store.messages_of(c));
    }
}

/// Deleting from a point of a chat keeps the session's invariant.
pub proof fn lemma_delete_message_wf(s: SessionView, chat_id: int, message_id: int)
    requires
        s.wf(),
    ensures
        s.delete_message(chat_id, message_id).wf(),
{
    lemma_delete_from_wf(s.store, chat_id, message_id);
}

/// Sending a message keeps the session's invariant. Where the chat was loaded
/// already, the buffer grows by the message that was sent and is otherwise as
/// it was.
pub proof fn lemma_send_wf(
    s: SessionView,
    chat_id: int,
    text: Seq<char>,
    author_model: Option<Seq<char>>,
    created_at: Seq<char>,
)
    requires
        s.wf(),
        s.send_error(chat_id, text, author_model) is None,
    ensures
        s.send(chat_id, text, author_model, created_at).wf(),
        s.send(chat_id, text, author_model, created_at).buffer == s.context_of(chat_id).push(
            EnvelopeView { role: role_of_author(author_model), content: text },
        ),
        s.loaded == Some(chat_id) ==> s.send(chat_id, text, author_model, created_at).buffer
            == s.buffer.push(EnvelopeView { role: role_of_author(author_model), content: text }),
{
    let role = role_of_author(author_model);
    lemma_append_message_wf(
        s.store,
        chat_id,
        serialize_spec(role, text)->Ok_0,
        author_model,
        created_at,
    );
    lemma_context_follows_append(s.store, chat_id, role, text, author_model, created_at);
}

/// Starting a stream keeps the session's invariant.
pub proof fn lemma_start_wf(s: SessionView, model: Seq<char>)
    requires
        s.wf(),
        s.start_error() is None,
    ensures
        s.start(model).wf(),
        s.start(model).stream.is_live(s.stream.last_token + 1),
{
}

/// Chunks, cancellations and failures keep the session's invariant, and leave
/// the store and the buffer as they are.
pub proof fn lemma_stream_events_wf(s: SessionView, token: int, chunks: Seq<Seq<char>>)
    requires
        s.wf(),
    ensures
        s.receive_all(token, chunks).wf(),
        s.cancel().wf(),
        s.fail(token).wf(),
{
    if s.stream.is_live(token) {
        lemma_receive_all_live(s.stream, token, chunks);
    } else {
        lemma_receive_all_stale(s.stream, token, chunks);
    }
}

/// The end of a stream keeps the session's invariant, and after it the stream
/// under the token is not live.
pub proof fn lemma_finish_wf(s: SessionView, token: int, created_at: Seq<char>)
    requires
        s.wf(),
    ensures
        s.finish(token, created_at).wf(),
        !s.finish(token, created_at).stream.is_live(token),
{
    if s.stream.is_live(token) && s.finish_error(token) is None {
        let live = s.stream.live->Some_0;
        let chat_id = s.loaded->Some_0;
        lemma_append_message_wf(
            s.store,
            chat_id,
            serialize_spec(Role::Assistant, live.text)->Ok_0,
            Some(live.model),
            created_at,
        );
        lemma_context_follows_append(
            s.store,
            chat_id,
            Role::Assistant,
            live.text,
            Some(live.model),
            created_at,
        );
    }
}

/// Cancellation discards partial output. Start a stream, let any chunks
/// arrive, cancel: the store and the buffer are as they were before the stream
/// was started, and no stream runs. Whatever is reported under the stream's
/// token afterwards (more chunks, then its end) is not forwarded and changes
/// nothing, so no message of the model is stored.
pub proof fn lemma_cancel_discards_partial_output(
    s: SessionView,
    model: Seq<char>,
    chunks: Seq<Seq<char>>,
    late: Seq<Seq<char>>,
    created_at: Seq<char>,
)
    requires
        s.wf(),
        s.start_error() is None,
    ensures
        ({
            let token: int = s.stream.last_token + 1;
            let cancelled = s.start(model).receive_all(token, chunks).cancel();
            &&& cancelled.wf()
            &&& !cancelled.streaming()
            &&& cancelled.store == s.store
            &&& cancelled.buffer == s.buffer
            &&& cancelled.loaded == s.loaded
            &&& cancelled.stream.verdict(token) == Verdict::Stop
            &&& cancelled.receive_all(token, late) == cancelled
            &&& cancelled.finish_error(token) is None
            &&& cancelled.finish(token, created_at) == cancelled
        }),
{
    let token: int = s.stream.last_token + 1;
    lemma_start_wf(s, model);
    lemma_stream_events_wf(s.start(model), token, chunks);
    let cancelled = s.start(model).receive_all(token, chunks).cancel();
    lemma_stream_events_wf(s.start(model).receive_all(token, chunks), token, chunks);
    lemma_receive_all_stale(cancelled.stream, token, late);
}

/// Chat switch in mid-stream. Start a stream for the loaded chat, let any
/// chunks arrive, select another chat: the stream is cancelled, and the buffer
/// holds exactly the entries of the other chat's stored messages. Whatever is
/// reported under the stream's token afterwards is not forwarded and changes
/// nothing.
pub proof fn lemma_switching_chats_cancels_the_stream(
    s: SessionView,
    model: Seq<char>,
    chunks: Seq<Seq<char>>,
    other: int,
    late: Seq<Seq<char>>,
    created_at: Seq<char>,
)
    requires
        s.wf(),
        s.start_error() is None,
        s.loaded != Some(other),
    ensures
        ({
            let token: int = s.stream.last_token + 1;
            let switched = s.start(model).receive_all(token, chunks).select(other);
            &&& switched.wf()
            &&& !switched.streaming()
            &&& switched.store == s.store
            &&& switched.loaded == Some(other)
            &&& switched.buffer == entries_of(s.store.messages_of(other))
            &&& switched.stream.verdict(token) == Verdict::Stop
            &&& switched.receive_all(token, late) == switched
            &&& switched.finish(token, created_at) == switched
        }),
{
    let token: int = s.stream.last_token + 1;
    lemma_start_wf(s, model);
    lemma_stream_events_wf(s.start(model), token, chunks);
    let streamed = s.start(model).receive_all(token, chunks);
    lemma_select_wf(streamed, other);
    lemma_receive_all_stale(streamed.select(other).stream, token, late);
}

/// A response that ends by itself is stored. Start a stream for the loaded
/// chat, let its chunks arrive, report its end: if the text can be stored, the
/// chat lists one message more, written by the model, whose content reads back
/// as the chunks laid end to end; the buffer has that text at its tail; and no
/// stream runs.
pub proof fn lemma_completed_response_is_stored(
    s: SessionView,
    model: Seq<char>,
    chunks: Seq<Seq<char>>,
    created_at: Seq<char>,
)
    requires
        s.wf(),
        s.start_error() is None,
        s.start(model).receive_all(s.stream.last_token + 1, chunks).finish_error(
            s.stream.last_token + 1,
        ) is None,
    ensures
        ({
            let token: int = s.stream.last_token + 1;
            let chat_id = s.loaded->Some_0;
            let done = s.start(model).receive_all(token, chunks).finish(token, created_at);
            let content = serialize_spec(Role::Assistant, joined(chunks))->Ok_0;
            &&& done.wf()
            &&& !done.streaming()
            &&& done.loaded == s.loaded
            &&& serialize_spec(Role::Assistant, joined(chunks)) is Ok
            &&& parse_spec(content) == Ok::<EnvelopeView, MalformedEnvelopeError>(
                EnvelopeView { role: Role::Assistant, content: joined(chunks) },
            )
            &&& done.store.messages_of(chat_id) == s.store.messages_of(chat_id).push(
                MessageView {
                    id: s.store.last_message_id + 1,
                    chat_id,
                    author_model: Some(model),
                    content,
                    created_at,
                },
            )
            &&& done.buffer == s.buffer.push(
                EnvelopeView { role: Role::Assistant, content: joined(chunks) },
            )
        }),
{
    let token: int = s.stream.last_token + 1;
    let chat_id = s.loaded->Some_0;
    lemma_start_wf(s, model);
    lemma_stream_events_wf(s.start(model), token, chunks);
    lemma_receive_all_live(s.start(model).stream, token, chunks);
    let streamed = s.start(model).receive_all(token, chunks);
    assert(Seq::<char>::empty() + joined(chunks) == joined(chunks));
    assert(streamed.stream.live->Some_0.text == joined(chunks));
    lemma_finish_wf(streamed, token, created_at);
    lemma_round_trip(Role::Assistant, joined(chunks));
    lemma_append_is_listed_last(
        s.store,
        chat_id,
        serialize_spec(Role::Assistant, joined(chunks))->Ok_0,
        Some(model),
        created_at,
    );
}

} // verus!
