//! The message store: chats and their messages, with ids that the store
//! assigns in ascending order and never hands out twice.
//!
//! `StoreView` is the mathematical model, with each operation as a function
//! from store to store, and the laws of the store are proved of it here. The
//! executable store, `MessageStore`, has a module of its own; every method of
//! it states that it does to the store what the model's function does.

use crate::filtering::lemma_filter_keeps;
use crate::filtering::lemma_filter_none;
use crate::filtering::lemma_filter_reverse;
use crate::filtering::lemma_filter_source;
use crate::filtering::lemma_filter_twice;
use crate::filtering::source_index;
use crate::text::clone_text;
use crate::text::text_view;
use vstd::prelude::*;

verus! {

/// A named conversation.
#[derive(Debug, PartialEq, Eq)]
pub struct Chat {
    pub id: i64,
    pub name: String,
    pub created_at: String,
}

/// The mathematical value of a [`Chat`].
pub struct ChatView {
    pub id: int,
    pub name: Seq<char>,
    pub created_at: Seq<char>,
}

impl View for Chat {
    type V = ChatView;

    open spec fn view(&self) -> ChatView {
        ChatView { id: self.id as int, name: self.name@, created_at: self.created_at@ }
    }
}

impl Clone for Chat {
    fn clone(&self) -> (res: Self)
        ensures
            res@ == self@,
    {
        Chat { id: self.id, name: self.name.clone(), created_at: self.created_at.clone() }
    }
}

/// One turn of a chat as it is stored. `content` holds the envelope text, not
/// the bare text of the message; `author_model` names the model that wrote the
/// message and is absent on a message of the user.
#[derive(Debug, PartialEq, Eq)]
pub struct Message {
    pub id: i64,
    pub chat_id: i64,
    pub author_model: Option<String>,
    pub content: String,
    pub created_at: String,
}

/// The mathematical value of a [`Message`].
pub struct MessageView {
    pub id: int,
    pub chat_id: int,
    pub author_model: Option<Seq<char>>,
    pub content: Seq<char>,
    pub created_at: Seq<char>,
}

impl View for Message {
    type V = MessageView;

    open spec fn view(&self) -> MessageView {
        MessageView {
            id: self.id as int,
            chat_id: self.chat_id as int,
            author_model: text_view(self.author_model),
            content: self.content@,
            created_at: self.created_at@,
        }
    }
}

impl Clone for Message {
    fn clone(&self) -> (res: Self)
        ensures
            res@ == self@,
    {
        Message {
            id: self.id,
            chat_id: self.chat_id,
            author_model: clone_text(&self.author_model),
            content: self.content.clone(),
            created_at: self.created_at.clone(),
        }
    }
}

/// Why the store refused an operation.
#[derive(Clone, Copy, Debug, PartialEq, Eq, Structural)]
pub enum StorageError {
    /// The message names a chat that the store does not hold.
    UnknownChat,
    /// Every id has been handed out.
    IdsExhausted,
    /// The rows handed to `restore` are not the contents of a store.
    Corrupt,
}

/// The views of a sequence of chats.
pub open spec fn chat_views(chats: Seq<Chat>) -> Seq<ChatView> {
    chats.map_values(|c: Chat| c@)
}

/// The views of a sequence of messages.
pub open spec fn message_views(messages: Seq<Message>) -> Seq<MessageView> {
    messages.map_values(|m: Message| m@)
}

/// Holds of the messages of the given chat.
pub open spec fn in_chat(chat_id: int) -> spec_fn(MessageView) -> bool {
    |m: MessageView| m.chat_id == chat_id
}

/// Holds of the messages that come before the given point of their chat.
pub open spec fn before(message_id: int) -> spec_fn(MessageView) -> bool {
    |m: MessageView| m.id < message_id
}

/// Holds of the messages that `delete_from` keeps: those of other chats, and
/// those of the chat itself that come before the given point.
pub open spec fn kept_by_delete_from(chat_id: int, message_id: int) -> spec_fn(
    MessageView,
) -> bool {
    |m: MessageView| !(m.chat_id == chat_id && m.id >= message_id)
}

/// Holds of the messages of all chats but the given one.
pub open spec fn not_in_chat(chat_id: int) -> spec_fn(MessageView) -> bool {
    |m: MessageView| m.chat_id != chat_id
}

/// Holds of all chats but the given one.
pub open spec fn other_chat(chat_id: int) -> spec_fn(ChatView) -> bool {
    |c: ChatView| c.id != chat_id
}

/// The store as a mathematical value: chats and messages in the order in which
/// they were created, and the last id handed out for each.
pub struct StoreView {
    pub chats: Seq<ChatView>,
    pub messages: Seq<MessageView>,
    pub last_chat_id: int,
    pub last_message_id: int,
}

impl StoreView {
    /// The store that holds nothing and has handed out no id.
    pub open spec fn empty() -> StoreView {
        StoreView {
            chats: Seq::empty(),
            messages: Seq::empty(),
            last_chat_id: 0,
            last_message_id: 0,
        }
    }

    /// Whether the store holds a chat with this id.
    pub open spec fn has_chat(self, chat_id: int) -> bool {
        exists|i: int| 0 <= i < self.chats.len() && (#[trigger] self.chats[i]).id == chat_id
    }

    /// The invariant of a store: ids are positive, ascend in creation order and
    /// do not exceed the last one handed out, and every message belongs to a
    /// chat that the store holds.
    pub open spec fn wf(self) -> bool {
        &&& 0 <= self.last_chat_id <= i64::MAX
        &&& 0 <= self.last_message_id <= i64::MAX
        &&& forall|i: int|
            0 <= i < self.chats.len() ==> 1 <= (#[trigger] self.chats[i]).id <= self.last_chat_id
        &&& forall|i: int, j: int|
            0 <= i < j < self.chats.len() ==> (#[trigger] self.chats[i]).id < (
            #[trigger] self.chats[j]).id
        &&& forall|i: int|
            0 <= i < self.messages.len() ==> 1 <= (#[trigger] self.messages[i]).id
                <= self.last_message_id
        &&& forall|i: int, j: int|
            0 <= i < j < self.messages.len() ==> (#[trigger] self.messages[i]).id < (
            #[trigger] self.messages[j]).id
        &&& forall|i: int|
            0 <= i < self.messages.len() ==> self.has_chat((#[trigger] self.messages[i]).chat_id)
    }

    /// All chats, the most recently created first.
    pub open spec fn chat_list(self) -> Seq<ChatView> {
        self.chats.reverse()
    }

    /// The messages of a chat, in the order in which they were created.
    pub open spec fn messages_of(self, chat_id: int) -> Seq<MessageView> {
        self.messages.filter(in_chat(chat_id))
    }

    /// The chat that `create_chat` adds.
    pub open spec fn next_chat(self, name: Seq<char>, created_at: Seq<char>) -> ChatView {
        ChatView { id: self.last_chat_id + 1, name, created_at }
    }

    /// The store after a chat was created.
    pub open spec fn create_chat(self, name: Seq<char>, created_at: Seq<char>) -> StoreView {
        StoreView {
            chats: self.chats.push(self.next_chat(name, created_at)),
            last_chat_id: self.last_chat_id + 1,
            ..self
        }
    }

    /// The store after a chat and all its messages were deleted.
    pub open spec fn delete_chat(self, chat_id: int) -> StoreView {
        StoreView {
            chats: self.chats.filter(other_chat(chat_id)),
            messages: self.messages.filter(not_in_chat(chat_id)),
            ..self
        }
    }

    /// The message that `append_message` adds.
    pub open spec fn next_message(
        self,
        chat_id: int,
        content: Seq<char>,
        author_model: Option<Seq<char>>,
        created_at: Seq<char>,
    ) -> MessageView {
        MessageView { id: self.last_message_id + 1, chat_id, author_model, content, created_at }
    }

    /// The store after a message was appended to a chat.
    pub open spec fn append_message(
        self,
        chat_id: int,
        content: Seq<char>,
        author_model: Option<Seq<char>>,
        created_at: Seq<char>,
    ) -> StoreView {
        StoreView {
            messages: self.messages.push(
                self.next_message(chat_id, content, author_model, created_at),
            ),
            last_message_id: self.last_message_id + 1,
            ..self
        }
    }

    /// The store after a message of a chat, and every later message of that
    /// chat, were deleted.
    pub open spec fn delete_from(self, chat_id: int, message_id: int) -> StoreView {
        StoreView {
            messages: self.messages.filter(kept_by_delete_from(chat_id, message_id)),
            ..self
        }
    }

    /// The store after the given messages were appended to a chat, one after
    /// the other.
    pub open spec fn append_all(self, chat_id: int, drafts: Seq<Draft>) -> StoreView
        decreases drafts.len(),
    {
        if drafts.len() == 0 {
            self
        } else {
            self.append_all(chat_id, drafts.drop_last()).append_message(
                chat_id,
                drafts.last().content,
                drafts.last().author_model,
                drafts.last().created_at,
            )
        }
    }
}

/// What a caller hands over for a message that is not stored yet.
pub struct Draft {
    pub content: Seq<char>,
    pub author_model: Option<Seq<char>>,
    pub created_at: Seq<char>,
}

/// Holds of the messages of the given chat that come before the given point.
pub open spec fn in_chat_before(chat_id: int, message_id: int) -> spec_fn(MessageView) -> bool {
    |m: MessageView| m.chat_id == chat_id && m.id < message_id
}

/// Creating a chat keeps the store's invariant, as long as an id is left.
pub proof fn lemma_create_chat_wf(s: StoreView, name: Seq<char>, created_at: Seq<char>)
    requires
        s.wf(),
        s.last_chat_id < i64::MAX,
    ensures
        s.create_chat(name, created_at).wf(),
        s.create_chat(name, created_at).has_chat(s.last_chat_id + 1),
        forall|c: int| s.has_chat(c) ==> s.create_chat(name, created_at).has_chat(c),
{
    let t = s.create_chat(name, created_at);
    assert(t.chats[s.chats.len() as int].id == s.last_chat_id + 1);
    assert forall|c: int| s.has_chat(c) implies t.has_chat(c) by {
        let i = choose|i: int| 0 <= i < s.chats.len() && (#[trigger] s.chats[i]).id == c;
        assert(t.chats[i].id == c);
    }
    assert forall|i: int| 0 <= i < t.messages.len() implies t.has_chat(
        (#[trigger] t.messages[i]).chat_id,
    ) by {
        assert(s.has_chat(s.messages[i].chat_id));
    }
}

/// Appending a message to a chat that the store holds keeps the store's
/// invariant, as long as an id is left.
pub proof fn lemma_append_message_wf(
    s: StoreView,
    chat_id: int,
    content: Seq<char>,
    author_model: Option<Seq<char>>,
    created_at: Seq<char>,
)
    requires
        s.wf(),
        s.has_chat(chat_id),
        s.last_message_id < i64::MAX,
    ensures
        s.append_message(chat_id, content, author_model, created_at).wf(),
{
    let t = s.append_message(chat_id, content, author_model, created_at);
    assert(t.chats == s.chats);
    assert forall|i: int| 0 <= i < t.messages.len() implies t.has_chat(
        (#[trigger] t.messages[i]).chat_id,
    ) by {
        let c = t.messages[i].chat_id;
        if i < s.messages.len() {
            assert(s.has_chat(s.messages[i].chat_id));
        }
        let j = choose|j: int| 0 <= j < s.chats.len() && (#[trigger] s.chats[j]).id == c;
        assert(t.chats[j].id == c);
    }
}

/// Deleting a chat keeps the store's invariant.
pub proof fn lemma_delete_chat_wf(s: StoreView, chat_id: int)
    requires
        s.wf(),
    ensures
        s.delete_chat(chat_id).wf(),
        !s.delete_chat(chat_id).has_chat(chat_id),
        forall|c: int| c != chat_id ==> (s.delete_chat(chat_id).has_chat(c) <==> s.has_chat(c)),
{
    let t = s.delete_chat(chat_id);
    let pc = other_chat(chat_id);
    let pm = not_in_chat(chat_id);
    lemma_filter_source(s.chats, pc);
    lemma_filter_source(s.messages, pm);
    broadcast use Seq::lemma_filter_pred;
    assert forall|i: int| 0 <= i < t.chats.len() implies 1 <= (#[trigger] t.chats[i]).id
        <= t.last_chat_id by {
        assert(t.chats[i] == s.chats[source_index(s.chats, pc, i)]);
    }
    assert forall|i: int, j: int| 0 <= i < j < t.chats.len() implies (#[trigger] t.chats[i]).id < (
    #[trigger] t.chats[j]).id by {
        assert(source_index(s.chats, pc, i) < source_index(s.chats, pc, j));
        assert(t.chats[i] == s.chats[source_index(s.chats, pc, i)]);
        assert(t.chats[j] == s.chats[source_index(s.chats, pc, j)]);
    }
    assert forall|i: int| 0 <= i < t.messages.len() implies 1 <= (#[trigger] t.messages[i]).id
        <= t.last_message_id by {
        assert(t.messages[i] == s.messages[source_index(s.messages, pm, i)]);
    }
    assert forall|i: int, j: int| 0 <= i < j < t.messages.len() implies (
    #[trigger] t.messages[i]).id < (#[trigger] t.messages[j]).id by {
        assert(source_index(s.messages, pm, i) < source_index(s.messages, pm, j));
        assert(t.messages[i] == s.messages[source_index(s.messages, pm, i)]);
        assert(t.messages[j] == s.messages[source_index(s.messages, pm, j)]);
    }
    assert forall|c: int| c != chat_id && s.has_chat(c) implies t.has_chat(c) by {
        let i = choose|i: int| 0 <= i < s.chats.len() && (#[trigger] s.chats[i]).id == c;
        assert(pc(s.chats[i]));
        lemma_filter_keeps(s.chats, pc, i);
        let k = choose|k: int| 0 <= k < t.chats.len() && #[trigger] t.chats[k] == s.chats[i];
        assert(t.chats[k].id == c);
    }
    assert forall|c: int| t.has_chat(c) implies c != chat_id && s.has_chat(c) by {
        let k = choose|k: int| 0 <= k < t.chats.len() && (#[trigger] t.chats[k]).id == c;
        assert(pc(t.chats[k]));
        assert(t.chats[k] == s.chats[source_index(s.chats, pc, k)]);
    }
    assert forall|i: int| 0 <= i < t.messages.len() implies t.has_chat(
        (#[trigger] t.messages[i]).chat_id,
    ) by {
        let j = source_index(s.messages, pm, i);
        assert(t.messages[i] == s.messages[j]);
        assert(pm(t.messages[i]));
        assert(s.has_chat(s.messages[j].chat_id));
    }
}

/// Deleting from a point of a chat keeps the store's invariant.
pub proof fn lemma_delete_from_wf(s: StoreView, chat_id: int, message_id: int)
    requires
        s.wf(),
    ensures
        s.delete_from(chat_id, message_id).wf(),
{
    let t = s.delete_from(chat_id, message_id);
    let pm = kept_by_delete_from(chat_id, message_id);
    lemma_filter_source(s.messages, pm);
    assert forall|i: int| 0 <= i < t.messages.len() implies 1 <= (#[trigger] t.messages[i]).id
        <= t.last_message_id by {
        assert(t.messages[i] == s.messages[source_index(s.messages, pm, i)]);
    }
    assert forall|i: int, j: int| 0 <= i < j < t.messages.len() implies (
    #[trigger] t.messages[i]).id < (#[trigger] t.messages[j]).id by {
        assert(source_index(s.messages, pm, i) < source_index(s.messages, pm, j));
        assert(t.messages[i] == s.messages[source_index(s.messages, pm, i)]);
        assert(t.messages[j] == s.messages[source_index(s.messages, pm, j)]);
    }
    assert forall|i: int| 0 <= i < t.messages.len() implies t.has_chat(
        (#[trigger] t.messages[i]).chat_id,
    ) by {
        let j = source_index(s.messages, pm, i);
        assert(t.messages[i] == s.messages[j]);
        assert(s.has_chat(s.messages[j].chat_id));
        let c = s.messages[j].chat_id;
        let n = choose|n: int| 0 <= n < s.chats.len() && (#[trigger] s.chats[n]).id == c;
        assert(t.chats[n].id == c);
    }
}

/// A message appended to a chat is listed last in that chat, and the listing
/// of every other chat stays as it was.
pub proof fn lemma_append_is_listed_last(
    s: StoreView,
    chat_id: int,
    content: Seq<char>,
    author_model: Option<Seq<char>>,
    created_at: Seq<char>,
)
    ensures
        s.append_message(chat_id, content, author_model, created_at).messages_of(chat_id)
            == s.messages_of(chat_id).push(
            s.next_message(chat_id, content, author_model, created_at),
        ),
        forall|c: int|
            c != chat_id ==> #[trigger] s.append_message(
                chat_id,
                content,
                author_model,
                created_at,
            ).messages_of(c) == s.messages_of(c),
{
    let m = s.next_message(chat_id, content, author_model, created_at);
    s.messages.lemma_filter_push(m, in_chat(chat_id));
    assert forall|c: int| c != chat_id implies #[trigger] s.append_message(
        chat_id,
        content,
        author_model,
        created_at,
    ).messages_of(c) == s.messages_of(c) by {
        s.messages.lemma_filter_push(m, in_chat(c));
    }
}

/// Ordering: messages appended to a chat one after the other are listed in
/// that order, after the messages that the chat held before, each with what
/// was handed over for it, and with ids that count up from the last one handed
/// out.
pub proof fn lemma_listing_keeps_insertion_order(s: StoreView, chat_id: int, drafts: Seq<Draft>)
    ensures
        s.append_all(chat_id, drafts).last_message_id == s.last_message_id + drafts.len(),
        s.append_all(chat_id, drafts).chats == s.chats,
        s.append_all(chat_id, drafts).last_chat_id == s.last_chat_id,
        s.append_all(chat_id, drafts).messages_of(chat_id).len() == s.messages_of(chat_id).len()
            + drafts.len(),
        s.append_all(chat_id, drafts).messages_of(chat_id).take(
            s.messages_of(chat_id).len() as int,
        ) == s.messages_of(chat_id),
        forall|k: int|
            0 <= k < drafts.len() ==> (#[trigger] s.append_all(chat_id, drafts).messages_of(
                chat_id,
            )[s.messages_of(chat_id).len() + k]) == (MessageView {
                id: s.last_message_id + k + 1,
                chat_id,
                author_model: drafts[k].author_model,
                content: drafts[k].content,
                created_at: drafts[k].created_at,
            }),
    decreases drafts.len(),
{
    if drafts.len() > 0 {
        let front = drafts.drop_last();
        let mid = s.append_all(chat_id, front);
        lemma_listing_keeps_insertion_order(s, chat_id, front);
        lemma_append_is_listed_last(
            mid,
            chat_id,
            drafts.last().content,
            drafts.last().author_model,
            drafts.last().created_at,
        );
        let before_len = s.messages_of(chat_id).len() as int;
        let done = s.append_all(chat_id, drafts);
        assert(done.messages_of(chat_id).take(before_len) == mid.messages_of(chat_id).take(
            before_len,
        ));
        assert forall|k: int| 0 <= k < drafts.len() implies (#[trigger] done.messages_of(
            chat_id,
        )[before_len + k]) == (MessageView {
            id: s.last_message_id + k + 1,
            chat_id,
            author_model: drafts[k].author_model,
            content: drafts[k].content,
            created_at: drafts[k].created_at,
        }) by {
            if k < front.len() {
                assert(mid.messages_of(chat_id)[before_len + k] == done.messages_of(
                    chat_id,
                )[before_len + k]);
                assert(front[k] == drafts[k]);
            }
        }
    }
}

/// Cascade: once a chat is deleted, it is not among the chats listed, it has
/// no message left, and every other chat lists the messages it listed before.
pub proof fn lemma_delete_chat_cascades(s: StoreView, chat_id: int)
    ensures
        s.delete_chat(chat_id).messages_of(chat_id) == Seq::<MessageView>::empty(),
        forall|i: int|
            0 <= i < s.delete_chat(chat_id).chat_list().len() ==> (#[trigger] s.delete_chat(
                chat_id,
            ).chat_list()[i]).id != chat_id,
        s.delete_chat(chat_id).chat_list() == s.chat_list().filter(other_chat(chat_id)),
        forall|c: int|
            c != chat_id ==> #[trigger] s.delete_chat(chat_id).messages_of(c) == s.messages_of(c),
{
    let t = s.delete_chat(chat_id);
    let never = |m: MessageView| false;
    lemma_filter_twice(s.messages, not_in_chat(chat_id), in_chat(chat_id), never);
    lemma_filter_none(s.messages, never);
    broadcast use Seq::lemma_filter_pred;

    assert forall|i: int| 0 <= i < t.chat_list().len() implies (#[trigger] t.chat_list()[i]).id
        != chat_id by {
        let j = t.chats.len() - 1 - i;
        assert(t.chat_list()[i] == t.chats[j]);
        assert(other_chat(chat_id)(t.chats[j]));
    }
    lemma_filter_reverse(s.chats, other_chat(chat_id));
    assert forall|c: int| c != chat_id implies #[trigger] t.messages_of(c) == s.messages_of(
        c,
    ) by {
        lemma_filter_twice(s.messages, not_in_chat(chat_id), in_chat(c), in_chat(c));
    }
}

/// Delete from a point: of the chat's messages exactly those with a smaller id
/// than the given one are left, in the order they had, and every other chat
/// lists the messages it listed before.
pub proof fn lemma_delete_from_point(s: StoreView, chat_id: int, message_id: int)
    ensures
        s.delete_from(chat_id, message_id).messages_of(chat_id) == s.messages_of(chat_id).filter(
            before(message_id),
        ),
        forall|c: int|
            c != chat_id ==> #[trigger] s.delete_from(chat_id, message_id).messages_of(c)
                == s.messages_of(c),
        s.delete_from(chat_id, message_id).chats == s.chats,
{
    let both = in_chat_before(chat_id, message_id);
    lemma_filter_twice(
        s.messages,
        kept_by_delete_from(chat_id, message_id),
        in_chat(chat_id),
        both,
    );
    lemma_filter_twice(s.messages, in_chat(chat_id), before(message_id), both);
    assert forall|c: int| c != chat_id implies #[trigger] s.delete_from(
        chat_id,
        message_id,
    ).messages_of(c) == s.messages_of(c) by {
        lemma_filter_twice(
            s.messages,
            kept_by_delete_from(chat_id, message_id),
            in_chat(c),
            in_chat(c),
        );
    }
}

/// In a well-formed store the messages of a chat are listed by ascending id.
pub proof fn lemma_listing_ascends(s: StoreView, chat_id: int)
    requires
        s.wf(),
    ensures
        forall|i: int, j: int|
            0 <= i < j < s.messages_of(chat_id).len() ==> (#[trigger] s.messages_of(
                chat_id,
            )[i]).id < (#[trigger] s.messages_of(chat_id)[j]).id,
        forall|i: int|
            0 <= i < s.messages_of(chat_id).len() ==> (#[trigger] s.messages_of(
                chat_id,
            )[i]).chat_id == chat_id,
{
    let p = in_chat(chat_id);
    lemma_filter_source(s.messages, p);
    broadcast use Seq::lemma_filter_pred;

    assert forall|i: int, j: int| 0 <= i < j < s.messages_of(chat_id).len() implies (
    #[trigger] s.messages_of(chat_id)[i]).id < (#[trigger] s.messages_of(chat_id)[j]).id by {
        assert(source_index(s.messages, p, i) < source_index(s.messages, p, j));
        assert(s.messages_of(chat_id)[i] == s.messages[source_index(s.messages, p, i)]);
        assert(s.messages_of(chat_id)[j] == s.messages[source_index(s.messages, p, j)]);
    }
    assert forall|i: int| 0 <= i < s.messages_of(chat_id).len() implies (
    #[trigger] s.messages_of(chat_id)[i]).chat_id == chat_id by {
        assert(p(s.messages_of(chat_id)[i]));
    }
}

/// In a well-formed store the chats are listed by descending id: the most
/// recently created first.
pub proof fn lemma_chat_list_descends(s: StoreView)
    requires
        s.wf(),
    ensures
        s.chat_list().len() == s.chats.len(),
        forall|i: int, j: int|
            0 <= i < j < s.chat_list().len() ==> (#[trigger] s.chat_list()[i]).id > (
            #[trigger] s.chat_list()[j]).id,
{
    assert forall|i: int, j: int| 0 <= i < j < s.chat_list().len() implies (
    #[trigger] s.chat_list()[i]).id > (#[trigger] s.chat_list()[j]).id by {
        let n = s.chats.len();
        assert(s.chat_list()[i] == s.chats[n - 1 - i]);
        assert(s.chat_list()[j] == s.chats[n - 1 - j]);
    }
}

/// Ids are never reused: no operation lowers the last id handed out, a new
/// chat or message gets an id above it, and in a well-formed store no stored
/// row has an id above it.
pub proof fn lemma_ids_are_never_reused(
    s: StoreView,
    chat_id: int,
    message_id: int,
    name: Seq<char>,
    content: Seq<char>,
    author_model: Option<Seq<char>>,
    created_at: Seq<char>,
)
    ensures
        s.next_chat(name, created_at).id > s.last_chat_id,
        s.next_message(chat_id, content, author_model, created_at).id > s.last_message_id,
        s.create_chat(name, created_at).last_chat_id > s.last_chat_id,
        s.create_chat(name, created_at).last_message_id == s.last_message_id,
        s.append_message(chat_id, content, author_model, created_at).last_message_id
            > s.last_message_id,
        s.append_message(chat_id, content, author_model, created_at).last_chat_id
            == s.last_chat_id,
        s.delete_chat(chat_id).last_chat_id == s.last_chat_id,
        s.delete_chat(chat_id).last_message_id == s.last_message_id,
        s.delete_from(chat_id, message_id).last_chat_id == s.last_chat_id,
        s.delete_from(chat_id, message_id).last_message_id == s.last_message_id,
        s.wf() ==> forall|i: int| 0 <= i < s.chats.len() ==> (#[trigger] s.chats[i]).id < s.next_chat(
            name,
            created_at,
        ).id,
        s.wf() ==> forall|i: int|
            0 <= i < s.messages.len() ==> (#[trigger] s.messages[i]).id < s.next_message(
                chat_id,
                content,
                author_model,
                created_at,
            ).id,
{
}

} // verus!
