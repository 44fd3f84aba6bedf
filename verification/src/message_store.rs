//! The executable message store. It holds its chats and messages in memory, in
//! the order in which they were created.

use crate::store::chat_views;
use crate::store::in_chat;
use crate::store::kept_by_delete_from;
use crate::store::lemma_append_message_wf;
use crate::store::lemma_create_chat_wf;
use crate::store::lemma_delete_chat_wf;
use crate::store::lemma_delete_from_wf;
use crate::store::message_views;
use crate::store::not_in_chat;
use crate::store::other_chat;
use crate::text::text_view;
use crate::store::Chat;
use crate::store::ChatView;
use crate::store::Message;
use crate::store::MessageView;
use crate::store::StorageError;
use crate::store::StoreView;
use vstd::prelude::*;

verus! {

/// Which messages a pass over the store keeps.
#[derive(Clone, Copy)]
enum Selection {
    /// The messages of one chat.
    InChat(i64),
    /// The messages of every other chat.
    NotInChat(i64),
    /// The messages that deleting from a point of a chat leaves.
    KeptByDeleteFrom(i64, i64),
}

impl Selection {
    /// The predicate that the selection stands for.
    spec fn pred(self) -> spec_fn(MessageView) -> bool {
        match self {
            Selection::InChat(chat_id) => in_chat(chat_id as int),
            Selection::NotInChat(chat_id) => not_in_chat(chat_id as int),
            Selection::KeptByDeleteFrom(chat_id, message_id) => kept_by_delete_from(
                chat_id as int,
                message_id as int,
            ),
        }
    }

    /// Whether the selection keeps the message.
    fn keeps(self, message: &Message) -> (b: bool)
        ensures
            b == (self.pred())(message@),
    {
        match self {
            Selection::InChat(chat_id) => message.chat_id == chat_id,
            Selection::NotInChat(chat_id) => message.chat_id != chat_id,
            Selection::KeptByDeleteFrom(chat_id, message_id) => !(message.chat_id == chat_id
                && message.id >= message_id),
        }
    }
}

/// Copies the messages that the selection keeps, in their order.
fn select_messages(messages: &Vec<Message>, selection: Selection) -> (out: Vec<Message>)
    ensures
        message_views(out@) == message_views(messages@).filter(selection.pred()),
{
    let ghost views = message_views(messages@);
    let mut out: Vec<Message> = Vec::new();
    let mut i: usize = 0;
    proof {
        reveal(Seq::filter);
        assert(views.take(0).filter(selection.pred()) == Seq::<MessageView>::empty());
        assert(message_views(out@) == Seq::<MessageView>::empty());
    }
    while i < messages.len()
        invariant
            i <= messages.len(),
            views == message_views(messages@),
            message_views(out@) == views.take(i as int).filter(selection.pred()),
        decreases messages.len() - i,
    {
        let ghost before = out@;
        proof {
            assert(views.take(i + 1) == views.take(i as int).push(views[i as int]));
            views.take(i as int).lemma_filter_push(views[i as int], selection.pred());
        }
        if selection.keeps(&messages[i]) {
            out.push(messages[i].clone());
            assert(message_views(out@) == message_views(before).push(views[i as int]));
        }
        i += 1;
    }
    assert(views.take(i as int) == views);
    out
}

/// Whether one of the chats has this id.
fn holds_chat(chats: &Vec<Chat>, chat_id: i64) -> (found: bool)
    ensures
        found == exists|i: int|
            0 <= i < chats@.len() && (#[trigger] chat_views(chats@)[i]).id == chat_id,
{
    let mut i: usize = 0;
    while i < chats.len()
        invariant
            i <= chats.len(),
            forall|k: int| 0 <= k < i ==> (#[trigger] chat_views(chats@)[k]).id != chat_id,
        decreases chats.len() - i,
    {
        if chats[i].id == chat_id {
            assert(chat_views(chats@)[i as int].id == chat_id);
            return true;
        }
        i += 1;
    }
    false
}

/// The store that holds the given rows and has handed out the given ids.
pub open spec fn store_of(
    chats: Seq<Chat>,
    messages: Seq<Message>,
    last_chat_id: i64,
    last_message_id: i64,
) -> StoreView {
    StoreView {
        chats: chat_views(chats),
        messages: message_views(messages),
        last_chat_id: last_chat_id as int,
        last_message_id: last_message_id as int,
    }
}

/// The store of chats and messages.
#[derive(Debug)]
pub struct MessageStore {
    chats: Vec<Chat>,
    messages: Vec<Message>,
    last_chat_id: i64,
    last_message_id: i64,
}

impl View for MessageStore {
    type V = StoreView;

    closed spec fn view(&self) -> StoreView {
        StoreView {
            chats: chat_views(self.chats@),
            messages: message_views(self.messages@),
            last_chat_id: self.last_chat_id as int,
            last_message_id: self.last_message_id as int,
        }
    }
}

impl MessageStore {
    /// The invariant of the store: that of its model.
    pub open spec fn wf(&self) -> bool {
        self@.wf()
    }

    /// A store that holds nothing.
    pub fn new() -> (store: Self)
        ensures
            store@ == StoreView::empty(),
            store.wf(),
    {
        let store = MessageStore {
            chats: Vec::new(),
            messages: Vec::new(),
            last_chat_id: 0,
            last_message_id: 0,
        };
        assert(store@.chats == Seq::<ChatView>::empty());
        assert(store@.messages == Seq::<MessageView>::empty());
        store
    }

    /// Whether the store holds a chat with this id.
    pub fn has_chat(&self, chat_id: i64) -> (found: bool)
        ensures
            found == self@.has_chat(chat_id as int),
    {
        assert(self@.chats.len() == self.chats@.len());
        holds_chat(&self.chats, chat_id)
    }

    /// A store over rows that were kept elsewhere: the chats and the messages
    /// in the order in which they were created, and the last id that was
    /// handed out for each. The rows are taken if and only if they are the
    /// contents of a store: ids positive, ascending and not above the last one
    /// handed out, and every message in a chat that is among the chats.
    pub fn restore(
        chats: Vec<Chat>,
        messages: Vec<Message>,
        last_chat_id: i64,
        last_message_id: i64,
    ) -> (r: Result<MessageStore, StorageError>)
        ensures
            r is Ok <==> store_of(chats@, messages@, last_chat_id, last_message_id).wf(),
            r matches Ok(store) ==> store@ == store_of(
                chats@,
                messages@,
                last_chat_id,
                last_message_id,
            ),
            r matches Err(e) ==> e == StorageError::Corrupt,
    {
        let ghost model = store_of(chats@, messages@, last_chat_id, last_message_id);
        if last_chat_id < 0 || last_message_id < 0 {
            return Err(StorageError::Corrupt);
        }
        let mut i: usize = 0;
        while i < chats.len()
            invariant
                i <= chats.len(),
                model == store_of(chats@, messages@, last_chat_id, last_message_id),
                forall|k: int| 0 <= k < i ==> 1 <= (#[trigger] model.chats[k]).id <= last_chat_id,
                forall|a: int, b: int|
                    0 <= a < b < i ==> (#[trigger] model.chats[a]).id < (
                    #[trigger] model.chats[b]).id,
            decreases chats.len() - i,
        {
            let id: i64 = chats[i].id;
            assert(model.chats[i as int].id == id);
            if id < 1 || id > last_chat_id {
                return Err(StorageError::Corrupt);
            }
            if i > 0 {
                assert(model.chats[i - 1].id == chats@[i - 1].id);
                if chats[i - 1].id >= id {
                    return Err(StorageError::Corrupt);
                }
            }
            i += 1;
        }
        let mut j: usize = 0;
        while j < messages.len()
            invariant
                j <= messages.len(),
                model == store_of(chats@, messages@, last_chat_id, last_message_id),
                forall|k: int|
                    0 <= k < j ==> 1 <= (#[trigger] model.messages[k]).id <= last_message_id,
                forall|a: int, b: int|
                    0 <= a < b < j ==> (#[trigger] model.messages[a]).id < (
                    #[trigger] model.messages[b]).id,
                forall|k: int|
                    0 <= k < j ==> model.has_chat((#[trigger] model.messages[k]).chat_id),
            decreases messages.len() - j,
        {
            let id: i64 = messages[j].id;
            assert(model.messages[j as int].id == id);
            assert(model.messages[j as int].chat_id == messages@[j as int].chat_id);
            if id < 1 || id > last_message_id {
                return Err(StorageError::Corrupt);
            }
            if j > 0 {
                assert(model.messages[j - 1].id == messages@[j - 1].id);
                if messages[j - 1].id >= id {
                    return Err(StorageError::Corrupt);
                }
            }
            assert(model.chats.len() == chats@.len());
            if !holds_chat(&chats, messages[j].chat_id) {
                assert(!model.has_chat(model.messages[j as int].chat_id));
                return Err(StorageError::Corrupt);
            }
            assert(model.has_chat(model.messages[j as int].chat_id));
            j += 1;
        }
        Ok(MessageStore { chats, messages, last_chat_id, last_message_id })
    }

    /// Creates a chat with the given name and creation time, and hands out the
    /// chat with its new id. Fails, and leaves the store as it is, only when
    /// no id is left.
    pub fn create_chat(&mut self, name: String, created_at: String) -> (r: Result<
        Chat,
        StorageError,
    >)
        requires
            old(self).wf(),
        ensures
            final(self).wf(),
            r is Ok <==> old(self)@.last_chat_id < i64::MAX,
            r matches Ok(chat) ==> chat@ == old(self)@.next_chat(name@, created_at@),
            r is Ok ==> final(self)@ == old(self)@.create_chat(name@, created_at@),
            r matches Ok(chat) ==> final(self)@.has_chat(chat.id as int),
            r matches Err(e) ==> e == StorageError::IdsExhausted && final(self)@ == old(self)@,
    {
        if self.last_chat_id == i64::MAX {
            return Err(StorageError::IdsExhausted);
        }
        let id: i64 = self.last_chat_id + 1;
        let chat = Chat { id, name, created_at };
        let handed_out = chat.clone();
        proof {
            lemma_create_chat_wf(self@, name@, created_at@);
        }
        self.chats.push(chat);
        self.last_chat_id = id;
        assert(self@.chats == old(self)@.chats.push(old(self)@.next_chat(name@, created_at@)));
        Ok(handed_out)
    }

    /// All chats, the most recently created first.
    pub fn list_chats(&self) -> (chats: Vec<Chat>)
        ensures
            chat_views(chats@) == self@.chat_list(),
    {
        let mut out: Vec<Chat> = Vec::new();
        let mut i: usize = self.chats.len();
        while i > 0
            invariant
                i <= self.chats.len(),
                out@.len() == self.chats.len() - i,
                forall|k: int|
                    0 <= k < out@.len() ==> (#[trigger] out@[k])@ == self.chats@[self.chats.len()
                        - 1 - k]@,
            decreases i,
        {
            i -= 1;
            out.push(self.chats[i].clone());
        }
        assert(chat_views(out@) =~= self@.chat_list());
        out
    }

    /// Deletes a chat and all its messages. A chat that the store does not
    /// hold is deleted already.
    pub fn delete_chat(&mut self, chat_id: i64)
        requires
            old(self).wf(),
        ensures
            final(self).wf(),
            final(self)@ == old(self)@.delete_chat(chat_id as int),
    {
        let ghost views = chat_views(self.chats@);
        let mut chats: Vec<Chat> = Vec::new();
        let mut i: usize = 0;
        proof {
            reveal(Seq::filter);
            assert(views.take(0).filter(other_chat(chat_id as int)) == Seq::<ChatView>::empty());
            assert(chat_views(chats@) == Seq::<ChatView>::empty());
        }
        while i < self.chats.len()
            invariant
                i <= self.chats.len(),
                views == chat_views(self.chats@),
                chat_views(chats@) == views.take(i as int).filter(other_chat(chat_id as int)),
            decreases self.chats.len() - i,
        {
            let ghost before = chats@;
            proof {
                assert(views.take(i + 1) == views.take(i as int).push(views[i as int]));
                views.take(i as int).lemma_filter_push(views[i as int], other_chat(chat_id as int));
            }
            if self.chats[i].id != chat_id {
                chats.push(self.chats[i].clone());
                assert(chat_views(chats@) == chat_views(before).push(views[i as int]));
            }
            i += 1;
        }
        assert(views.take(i as int) == views);
        let messages = select_messages(&self.messages, Selection::NotInChat(chat_id));
        proof {
            lemma_delete_chat_wf(self@, chat_id as int);
        }
        self.chats = chats;
        self.messages = messages;
    }

    /// Appends a message to a chat and hands out the stored row, with the id
    /// that the store gave it. Fails, and leaves the store as it is, when the
    /// store does not hold the chat or no id is left.
    pub fn append_message(
        &mut self,
        chat_id: i64,
        content: String,
        author_model: Option<String>,
        created_at: String,
    ) -> (r: Result<Message, StorageError>)
        requires
            old(self).wf(),
        ensures
            final(self).wf(),
            r is Ok <==> old(self)@.has_chat(chat_id as int) && old(self)@.last_message_id
                < i64::MAX,
            r matches Ok(message) ==> message@ == old(self)@.next_message(
                chat_id as int,
                content@,
                text_view(author_model),
                created_at@,
            ),
            r is Ok ==> final(self)@ == old(self)@.append_message(
                chat_id as int,
                content@,
                text_view(author_model),
                created_at@,
            ),
            r is Err ==> final(self)@ == old(self)@,
            r matches Err(e) ==> e == (if old(self)@.has_chat(chat_id as int) {
                StorageError::IdsExhausted
            } else {
                StorageError::UnknownChat
            }),
    {
        if !self.has_chat(chat_id) {
            return Err(StorageError::UnknownChat);
        }
        if self.last_message_id == i64::MAX {
            return Err(StorageError::IdsExhausted);
        }
        let id: i64 = self.last_message_id + 1;
        let message = Message { id, chat_id, author_model, content, created_at };
        let handed_out = message.clone();
        proof {
            lemma_append_message_wf(
                self@,
                chat_id as int,
                content@,
                text_view(author_model),
                created_at@,
            );
        }
        self.messages.push(message);
        self.last_message_id = id;
        assert(self@.messages == old(self)@.messages.push(
            old(self)@.next_message(
                chat_id as int,
                content@,
                text_view(author_model),
                created_at@,
            ),
        ));
        Ok(handed_out)
    }

    /// The messages of a chat, in the order in which they were created. A chat
    /// that the store does not hold has none.
    pub fn list_messages(&self, chat_id: i64) -> (messages: Vec<Message>)
        ensures
            message_views(messages@) == self@.messages_of(chat_id as int),
    {
        select_messages(&self.messages, Selection::InChat(chat_id))
    }

    /// Deletes a message of a chat and every later message of that chat.
    pub fn delete_from(&mut self, chat_id: i64, message_id: i64)
        requires
            old(self).wf(),
        ensures
            final(self).wf(),
            final(self)@ == old(self)@.delete_from(chat_id as int, message_id as int),
    {
        let messages = select_messages(
            &self.messages,
            Selection::KeptByDeleteFrom(chat_id, message_id),
        );
        proof {
            lemma_delete_from_wf(self@, chat_id as int, message_id as int);
        }
        self.messages = messages;
    }
}

} // verus!
