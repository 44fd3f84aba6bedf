//! The session: one owner for the store, the conversation buffer and the
//! stream controller, and the operations that a caller has on them.
//!
//! The session does no I/O and reads no clock. Creation times come from the
//! caller, and so do the events of a response stream: its chunks, its end, its
//! failure, each under the token that the stream was started with.

use crate::buffer::ConversationBuffer;
use crate::envelope::role_of_author;
use crate::envelope::serialize;
use crate::envelope::Envelope;
use crate::envelope::Role;
use crate::message_store::MessageStore;
use crate::session_model::lemma_delete_message_wf;
use crate::session_model::lemma_finish_wf;
use crate::session_model::lemma_select_wf;
use crate::session_model::lemma_send_wf;
use crate::session_model::lemma_session_create_chat_wf;
use crate::session_model::lemma_session_delete_chat_wf;
use crate::session_model::SessionError;
use crate::session_model::SessionView;
use crate::store::chat_views;
use crate::text::text_view;
use crate::store::Chat;
use crate::store::StorageError;
use crate::store::StoreView;
use crate::stream::StreamController;
use crate::stream::StreamError;
use crate::stream::StreamOutcome;
use crate::stream::StreamRequest;
use crate::stream::Verdict;
use crate::translate::display_views;
use crate::translate::displayed;
use crate::translate::envelope_views;
use crate::translate::show;
use crate::translate::shown_with;
use crate::translate::skipped_of;
use crate::translate::translate;
use crate::translate::DisplayMessage;
use vstd::prelude::*;

verus! {

/// The messages of a chat as the caller is shown them, and the number of
/// stored rows that were left out because their content is not an envelope.
#[derive(Debug, PartialEq, Eq)]
pub struct Listing {
    pub messages: Vec<DisplayMessage>,
    pub skipped: usize,
}

/// The role of a message with the given author tag.
pub fn role_for(author_model: &Option<String>) -> (role: Role)
    ensures
        role == role_of_author(text_view(*author_model)),
{
    match author_model {
        Some(_) => Role::Assistant,
        None => Role::User,
    }
}

/// The view of an optional chat id.
pub open spec fn chat_view(chat_id: Option<i64>) -> Option<int> {
    match chat_id {
        Some(c) => Some(c as int),
        None => None,
    }
}

/// A chat session.
#[derive(Debug)]
pub struct Session {
    store: MessageStore,
    buffer: ConversationBuffer,
    loaded: Option<i64>,
    streams: StreamController,
}

impl View for Session {
    type V = SessionView;

    closed spec fn view(&self) -> SessionView {
        SessionView {
            store: self.store@,
            buffer: self.buffer@,
            loaded: chat_view(self.loaded),
            stream: self.streams@,
        }
    }
}

impl Session {
    /// The invariant of the session: that of its model.
    pub open spec fn wf(&self) -> bool {
        self@.wf()
    }

    /// A session over an empty store.
    pub fn new() -> (session: Self)
        ensures
            session@ == SessionView::over(StoreView::empty()),
            session.wf(),
    {
        Session {
            store: MessageStore::new(),
            buffer: ConversationBuffer::new(),
            loaded: None,
            streams: StreamController::new(),
        }
    }

    /// A session over a store that exists already.
    pub fn over(store: MessageStore) -> (session: Self)
        requires
            store.wf(),
        ensures
            session@ == SessionView::over(store@),
            session.wf(),
    {
        Session {
            store,
            buffer: ConversationBuffer::new(),
            loaded: None,
            streams: StreamController::new(),
        }
    }

    /// The store of the session.
    pub fn store(&self) -> (store: &MessageStore)
        ensures
            store@ == self@.store,
    {
        &self.store
    }

    /// The chat that the buffer was loaded from.
    pub fn loaded_chat(&self) -> (chat_id: Option<i64>)
        ensures
            chat_view(chat_id) == self@.loaded,
    {
        self.loaded
    }

    /// A copy of the conversation buffer.
    pub fn context(&self) -> (entries: Vec<Envelope>)
        ensures
            envelope_views(entries@) == self@.buffer,
    {
        self.buffer.snapshot()
    }

    /// Whether a response stream runs.
    pub fn is_streaming(&self) -> (streaming: bool)
        ensures
            streaming == self@.streaming(),
    {
        self.streams.is_streaming()
    }

    /// The token of the response stream that runs, if one does.
    pub fn live_token(&self) -> (token: Option<u64>)
        ensures
            token is Some <==> self@.streaming(),
            token matches Some(t) ==> self@.stream.is_live(t as int),
    {
        self.streams.live_token()
    }

    /// Creates a chat. Fails, and changes nothing, only when the store has no
    /// id left.
    pub fn create_chat(&mut self, name: String, created_at: String) -> (r: Result<
        Chat,
        SessionError,
    >)
        requires
            old(self).wf(),
        ensures
            final(self).wf(),
            r is Ok <==> old(self)@.store.last_chat_id < i64::MAX,
            r matches Ok(chat) ==> chat@ == old(self)@.store.next_chat(name@, created_at@),
            r is Ok ==> final(self)@ == old(self)@.create_chat(name@, created_at@),
            r matches Ok(chat) ==> final(self)@.store.has_chat(chat.id as int),
            r matches Err(e) ==> e == SessionError::Storage(StorageError::IdsExhausted),
            r is Err ==> final(self)@ == old(self)@,
    {
        proof {
            if self@.store.last_chat_id < i64::MAX {
                lemma_session_create_chat_wf(self@, name@, created_at@);
            }
        }
        match self.store.create_chat(name, created_at) {
            Ok(chat) => Ok(chat),
            Err(e) => Err(SessionError::Storage(e)),
        }
    }

    /// All chats, the most recently created first.
    pub fn list_chats(&self) -> (chats: Vec<Chat>)
        ensures
            chat_views(chats@) == self@.store.chat_list(),
    {
        self.store.list_chats()
    }

    /// Deletes a chat and all its messages. If the chat is loaded, the buffer
    /// is emptied and a response stream that runs is cancelled.
    pub fn delete_chat(&mut self, chat_id: i64)
        requires
            old(self).wf(),
        ensures
            final(self).wf(),
            final(self)@ == old(self)@.delete_chat(chat_id as int),
    {
        proof {
            lemma_session_delete_chat_wf(self@, chat_id as int);
        }
        self.store.delete_chat(chat_id);
        let is_loaded = match self.loaded {
            Some(c) => c == chat_id,
            None => false,
        };
        if is_loaded {
            let _ = self.streams.cancel();
            self.buffer.reset(Vec::new());
            self.loaded = None;
            assert(self@.buffer =~= Seq::empty());
        }
    }

    /// Selects a chat and lists its messages. The buffer is loaded from the
    /// store; a response stream that runs for another chat is cancelled first.
    /// Rows whose content is not an envelope are left out and counted.
    pub fn list_messages(&mut self, chat_id: i64) -> (listing: Listing)
        requires
            old(self).wf(),
        ensures
            final(self).wf(),
            final(self)@ == old(self)@.select(chat_id as int),
            display_views(listing.messages@) == displayed(
                old(self)@.store.messages_of(chat_id as int),
            ),
            listing.skipped == skipped_of(old(self)@.store.messages_of(chat_id as int)),
    {
        proof {
            lemma_select_wf(self@, chat_id as int);
        }
        let rows = self.store.list_messages(chat_id);
        let translation = translate(&rows);
        let is_loaded = match self.loaded {
            Some(c) => c == chat_id,
            None => false,
        };
        if !is_loaded {
            let _ = self.streams.cancel();
        }
        self.buffer.reset(translation.entries);
        self.loaded = Some(chat_id);
        Listing { messages: translation.display, skipped: translation.skipped }
    }

    /// Deletes a message of a chat and every later message of that chat, then
    /// selects the chat and lists what is left of it. A response stream that
    /// runs is cancelled.
    pub fn delete_message(&mut self, chat_id: i64, message_id: i64) -> (listing: Listing)
        requires
            old(self).wf(),
        ensures
            final(self).wf(),
            final(self)@ == old(self)@.delete_message(chat_id as int, message_id as int),
            display_views(listing.messages@) == displayed(
                old(self)@.store.delete_from(chat_id as int, message_id as int).messages_of(
                    chat_id as int,
                ),
            ),
            listing.skipped == skipped_of(
                old(self)@.store.delete_from(chat_id as int, message_id as int).messages_of(
                    chat_id as int,
                ),
            ),
    {
        proof {
            lemma_delete_message_wf(self@, chat_id as int, message_id as int);
        }
        self.store.delete_from(chat_id, message_id);
        let _ = self.streams.cancel();
        let rows = self.store.list_messages(chat_id);
        let translation = translate(&rows);
        self.buffer.reset(translation.entries);
        self.loaded = Some(chat_id);
        Listing { messages: translation.display, skipped: translation.skipped }
    }

    /// Sends a message to a chat: stores it as an envelope, with the author
    /// tag if there is one, and puts it at the tail of the buffer. A chat that
    /// is not loaded is loaded by this. Does not start a response stream.
    ///
    /// Fails, and changes nothing, while a response stream runs, when the
    /// store does not hold the chat, when the text cannot be written as an
    /// envelope, or when the store has no id left.
    pub fn send_message(
        &mut self,
        chat_id: i64,
        text: String,
        author_model: Option<String>,
        created_at: String,
    ) -> (r: Result<DisplayMessage, SessionError>)
        requires
            old(self).wf(),
        ensures
            final(self).wf(),
            r is Ok <==> old(self)@.send_error(chat_id as int, text@, text_view(author_model))
                is None,
            r matches Err(e) ==> Some(e) == old(self)@.send_error(
                chat_id as int,
                text@,
                text_view(author_model),
            ) && final(self)@ == old(self)@,
            r is Ok ==> final(self)@ == old(self)@.send(
                chat_id as int,
                text@,
                text_view(author_model),
                created_at@,
            ),
            r matches Ok(shown) ==> shown@ == shown_with(
                old(self)@.sent_row(chat_id as int, text@, text_view(author_model), created_at@),
                text@,
            ),
    {
        if self.streams.is_streaming() {
            return Err(SessionError::Stream(StreamError::Busy));
        }
        if !self.store.has_chat(chat_id) {
            return Err(SessionError::Storage(StorageError::UnknownChat));
        }
        let role = role_for(&author_model);
        let content = match serialize(role, text.as_str()) {
            Ok(content) => content,
            Err(e) => {
                return Err(SessionError::Envelope(e));
            },
        };
        proof {
            if self@.store.last_message_id < i64::MAX {
                lemma_send_wf(
                    self@,
                    chat_id as int,
                    text@,
                    text_view(author_model),
                    created_at@,
                );
            }
        }
        let row = match self.store.append_message(chat_id, content, author_model, created_at) {
            Ok(row) => row,
            Err(e) => {
                return Err(SessionError::Storage(e));
            },
        };
        let is_loaded = match self.loaded {
            Some(c) => c == chat_id,
            None => false,
        };
        if is_loaded {
            self.buffer.append(Envelope { role, content: text.clone() });
        } else {
            let rows = self.store.list_messages(chat_id);
            let translation = translate(&rows);
            self.buffer.reset(translation.entries);
            self.loaded = Some(chat_id);
        }
        Ok(show(&row, text))
    }

    /// Starts a response stream for the model over the buffer as it is now,
    /// and hands out the request that opens it.
    ///
    /// Fails, and changes nothing, while a response stream runs, when no chat
    /// that the store holds is loaded, or when no token is left.
    pub fn start_response_stream(&mut self, model: String) -> (r: Result<
        StreamRequest,
        StreamError,
    >)
        requires
            old(self).wf(),
        ensures
            final(self).wf(),
            r is Ok <==> old(self)@.start_error() is None,
            r matches Err(e) ==> Some(e) == old(self)@.start_error() && final(self)@ == old(self)@,
            r is Ok ==> final(self)@ == old(self)@.start(model@),
            r matches Ok(request) ==> request.token == old(self)@.stream.last_token + 1
                && request.model@ == model@,
            r matches Ok(request) ==> envelope_views(request.messages@) == old(self)@.buffer,
    {
        if self.streams.is_streaming() {
            return Err(StreamError::Busy);
        }
        let holds_chat = match self.loaded {
            Some(c) => self.store.has_chat(c),
            None => false,
        };
        if !holds_chat {
            return Err(StreamError::NoChat);
        }
        let context = self.buffer.snapshot();
        self.streams.start(model, context)
    }

    /// Takes a chunk of the stream under the token, and says what to do with
    /// it. A chunk of the stream that runs is added to its text and is to be
    /// forwarded at once. After a cancellation every chunk is to be dropped,
    /// also one that arrived together with the cancellation.
    pub fn receive_chunk(&mut self, token: u64, chunk: &str) -> (verdict: Verdict)
        requires
            old(self).wf(),
        ensures
            final(self).wf(),
            verdict == old(self)@.stream.verdict(token as int),
            final(self)@ == old(self)@.receive(token as int, chunk@),
    {
        self.streams.receive(token, chunk)
    }

    /// Cancels the response stream that runs and hands out its token. With no
    /// stream running this does nothing. The text that the stream had so far
    /// is dropped; nothing is stored and the buffer stays as it is.
    pub fn cancel_response_stream(&mut self) -> (cancelled: Option<u64>)
        requires
            old(self).wf(),
        ensures
            final(self).wf(),
            final(self)@ == old(self)@.cancel(),
            cancelled is Some <==> old(self)@.streaming(),
            cancelled matches Some(token) ==> old(self)@.stream.is_live(token as int),
    {
        self.streams.cancel()
    }

    /// Takes the failure of the stream under the token: the backend could not
    /// be reached, or the transport broke. If that stream runs, it is closed,
    /// its text is dropped and the failure is reported. Nothing is stored and
    /// the buffer stays as it is.
    pub fn fail_response(&mut self, token: u64) -> (r: Result<(), StreamError>)
        requires
            old(self).wf(),
        ensures
            final(self).wf(),
            final(self)@ == old(self)@.fail(token as int),
            r is Err <==> old(self)@.stream.is_live(token as int),
            r matches Err(e) ==> e == StreamError::Backend,
    {
        self.streams.fail(token)
    }

    /// Takes the end of the stream under the token. If that stream runs, it is
    /// closed, and its text is stored as a message of the model in the loaded
    /// chat and put at the tail of the buffer; the stored message is handed
    /// out. The end of a stream that was cancelled changes nothing and hands
    /// out nothing.
    ///
    /// Fails when the text cannot be written as an envelope or the store has
    /// no id left; the stream is closed then too, and nothing is stored.
    pub fn finish_response(&mut self, token: u64, created_at: String) -> (r: Result<
        Option<DisplayMessage>,
        SessionError,
    >)
        requires
            old(self).wf(),
        ensures
            final(self).wf(),
            final(self)@ == old(self)@.finish(token as int, created_at@),
            r is Err <==> old(self)@.finish_error(token as int) is Some,
            r matches Err(e) ==> Some(e) == old(self)@.finish_error(token as int),
            r matches Ok(stored) ==> (stored is Some <==> old(self)@.stream.is_live(token as int)),
            r matches Ok(Some(shown)) ==> shown@ == shown_with(
                old(self)@.response_row(created_at@),
                old(self)@.stream.live->Some_0.text,
            ),
    {
        proof {
            lemma_finish_wf(self@, token as int, created_at@);
        }
        let model = self.streams.live_model();
        let chat_id = self.loaded;
        match self.streams.finish(token) {
            StreamOutcome::Cancelled => Ok(None),
            StreamOutcome::Completed(text) => {
                let content = match serialize(Role::Assistant, text.as_str()) {
                    Ok(content) => content,
                    Err(e) => {
                        return Err(SessionError::Envelope(e));
                    },
                };
                let row = match self.store.append_message(
                    chat_id.unwrap(),
                    content,
                    model,
                    created_at,
                ) {
                    Ok(row) => row,
                    Err(e) => {
                        return Err(SessionError::Storage(e));
                    },
                };
                self.buffer.append(Envelope { role: Role::Assistant, content: text.clone() });
                Ok(Some(show(&row, text)))
            },
        }
    }
}

} // verus!
