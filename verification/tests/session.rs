use chat_engine::envelope::parse;
use chat_engine::envelope::Envelope;
use chat_engine::envelope::MalformedEnvelopeError;
use chat_engine::envelope::Role;
use chat_engine::message_store::MessageStore;
use chat_engine::session::role_for;
use chat_engine::session::Session;
use chat_engine::session_model::SessionError;
use chat_engine::store::Chat;
use chat_engine::store::Message;
use chat_engine::store::StorageError;
use chat_engine::stream::StreamError;
use chat_engine::stream::Verdict;
use chat_engine::translate::DisplayMessage;

fn text(s: &str) -> String {
    s.to_string()
}

fn entry(role: Role, content: &str) -> Envelope {
    Envelope { role, content: text(content) }
}

fn shown(id: i64, chat_id: i64, author: Option<&str>, content: &str, at: &str) -> DisplayMessage {
    DisplayMessage {
        id,
        chat_id,
        author_model: author.map(text),
        content: text(content),
        created_at: text(at),
    }
}

/// A session with chat 1 ("A") holding a user and an assistant message, and
/// chat 2 ("B") holding one user message.
fn two_chats() -> Session {
    let mut session = Session::new();
    session.create_chat(text("A"), text("t0")).unwrap();
    session.create_chat(text("B"), text("t0")).unwrap();
    session.send_message(1, text("question"), None, text("t1")).unwrap();
    session.send_message(1, text("answer"), Some(text("m1")), text("t2")).unwrap();
    session.send_message(2, text("other"), None, text("t3")).unwrap();
    session
}

#[test]
fn new_session_is_idle_and_empty() {
    let session = Session::new();
    assert!(!session.is_streaming());
    assert_eq!(session.live_token(), None);
    assert_eq!(session.loaded_chat(), None);
    assert!(session.context().is_empty());
    assert!(session.list_chats().is_empty());
}

#[test]
fn role_follows_the_author_tag() {
    assert_eq!(role_for(&None), Role::User);
    assert_eq!(role_for(&Some(text("m1"))), Role::Assistant);
    assert_eq!(role_for(&Some(text(""))), Role::Assistant);
}

#[test]
fn create_and_list_chats() {
    let mut session = Session::new();
    let demo = session.create_chat(text("demo"), text("t0")).unwrap();
    assert_eq!(demo, Chat { id: 1, name: text("demo"), created_at: text("t0") });
    session.create_chat(text("next"), text("t1")).unwrap();
    let listed: Vec<i64> = session.list_chats().iter().map(|c| c.id).collect();
    assert_eq!(listed, vec![2, 1]);
}

#[test]
fn send_message_persists_an_envelope_and_shows_the_plain_text() {
    let mut session = Session::new();
    session.create_chat(text("demo"), text("t0")).unwrap();
    let sent = session.send_message(1, text("say \"hi\"\n"), None, text("t1")).unwrap();
    assert_eq!(sent, shown(1, 1, None, "say \"hi\"\n", "t1"));
    let rows = session.store().list_messages(1);
    assert_eq!(rows.len(), 1);
    assert_eq!(rows[0].id, 1);
    assert_eq!(rows[0].chat_id, 1);
    assert_eq!(rows[0].author_model, None);
    assert_eq!(rows[0].created_at, "t1");
    assert_ne!(rows[0].content, "say \"hi\"\n");
    assert_eq!(parse(&rows[0].content).unwrap(), entry(Role::User, "say \"hi\"\n"));
    assert_eq!(session.context(), vec![entry(Role::User, "say \"hi\"\n")]);
    assert_eq!(session.loaded_chat(), Some(1));
    assert!(!session.is_streaming());
}

#[test]
fn send_message_with_author_is_an_assistant_message() {
    let mut session = Session::new();
    session.create_chat(text("demo"), text("t0")).unwrap();
    let sent = session.send_message(1, text("Hi"), Some(text("m1")), text("t1")).unwrap();
    assert_eq!(sent, shown(1, 1, Some("m1"), "Hi", "t1"));
    assert_eq!(session.context(), vec![entry(Role::Assistant, "Hi")]);
    let rows = session.store().list_messages(1);
    assert_eq!(rows[0].author_model, Some(text("m1")));
    assert_eq!(parse(&rows[0].content).unwrap().role, Role::Assistant);
}

#[test]
fn send_message_to_unknown_chat_is_refused() {
    let mut session = two_chats();
    session.list_messages(1);
    let before = session.context();
    assert_eq!(
        session.send_message(9, text("x"), None, text("t")),
        Err(SessionError::Storage(StorageError::UnknownChat))
    );
    assert_eq!(session.context(), before);
    assert_eq!(session.loaded_chat(), Some(1));
}

#[test]
fn send_message_to_another_chat_loads_that_chat() {
    let mut session = two_chats();
    session.list_messages(1);
    session.send_message(2, text("more"), None, text("t4")).unwrap();
    assert_eq!(session.loaded_chat(), Some(2));
    assert_eq!(session.context(), vec![entry(Role::User, "other"), entry(Role::User, "more")]);
}

#[test]
fn list_messages_loads_the_buffer() {
    let mut session = two_chats();
    let listing = session.list_messages(1);
    assert_eq!(
        listing.messages,
        vec![shown(1, 1, None, "question", "t1"), shown(2, 1, Some("m1"), "answer", "t2")]
    );
    assert_eq!(listing.skipped, 0);
    assert_eq!(session.loaded_chat(), Some(1));
    assert_eq!(
        session.context(),
        vec![entry(Role::User, "question"), entry(Role::Assistant, "answer")]
    );
    let listing = session.list_messages(7);
    assert!(listing.messages.is_empty());
    assert!(session.context().is_empty());
    assert_eq!(session.loaded_chat(), Some(7));
}

#[test]
fn list_messages_skips_corrupt_rows_and_reports_their_number() {
    let good = session_row_content(Role::User, "kept");
    let store = MessageStore::restore(
        vec![Chat { id: 1, name: text("demo"), created_at: text("t0") }],
        vec![
            Message {
                id: 1,
                chat_id: 1,
                author_model: None,
                content: text("hand-edited"),
                created_at: text("t1"),
            },
            Message { id: 2, chat_id: 1, author_model: None, content: good, created_at: text("t2") },
        ],
        1,
        2,
    )
    .unwrap();
    let mut session = Session::over(store);
    let listing = session.list_messages(1);
    assert_eq!(listing.messages, vec![shown(2, 1, None, "kept", "t2")]);
    assert_eq!(listing.skipped, 1);
    assert_eq!(session.context(), vec![entry(Role::User, "kept")]);
}

fn session_row_content(role: Role, content: &str) -> String {
    chat_engine::envelope::serialize(role, content).unwrap()
}

#[test]
fn buffer_after_reload_equals_buffer_after_appends() {
    let mut session = Session::new();
    session.create_chat(text("demo"), text("t0")).unwrap();
    session.send_message(1, text("one"), None, text("t1")).unwrap();
    session.send_message(1, text("two"), Some(text("m1")), text("t2")).unwrap();
    session.send_message(1, text(""), None, text("t3")).unwrap();
    let appended = session.context();
    session.list_messages(1);
    assert_eq!(session.context(), appended);
    assert_eq!(
        appended,
        vec![entry(Role::User, "one"), entry(Role::Assistant, "two"), entry(Role::User, "")]
    );
}

#[test]
fn start_needs_a_loaded_chat() {
    let mut session = Session::new();
    assert_eq!(session.start_response_stream(text("m1")).unwrap_err(), StreamError::NoChat);
    session.list_messages(3);
    assert_eq!(session.start_response_stream(text("m1")).unwrap_err(), StreamError::NoChat);
    assert!(!session.is_streaming());
}

#[test]
fn start_sends_the_buffer_as_context() {
    let mut session = two_chats();
    session.list_messages(1);
    let request = session.start_response_stream(text("m1")).unwrap();
    assert_eq!(request.token, 1);
    assert_eq!(request.model, "m1");
    assert_eq!(
        request.messages,
        vec![entry(Role::User, "question"), entry(Role::Assistant, "answer")]
    );
    assert!(session.is_streaming());
    assert_eq!(session.live_token(), Some(1));
}

#[test]
fn only_one_stream_at_a_time() {
    let mut session = two_chats();
    session.list_messages(1);
    session.start_response_stream(text("m1")).unwrap();
    assert_eq!(session.start_response_stream(text("m2")).unwrap_err(), StreamError::Busy);
    assert_eq!(session.live_token(), Some(1));
    assert_eq!(
        session.send_message(1, text("x"), None, text("t")),
        Err(SessionError::Stream(StreamError::Busy))
    );
    assert_eq!(session.store().list_messages(1).len(), 2);
}

#[test]
fn scenario_demo_chat_with_streamed_answer() {
    let mut session = Session::new();
    let demo = session.create_chat(text("demo"), text("2024-05-01 09:00:00")).unwrap();
    assert_eq!(demo.name, "demo");
    session.list_messages(demo.id);
    let hello = session.send_message(demo.id, text("hello"), None, text("2024-05-01 09:00:01")).unwrap();
    assert_eq!(hello, shown(1, demo.id, None, "hello", "2024-05-01 09:00:01"));
    let request = session.start_response_stream(text("m1")).unwrap();
    assert_eq!(request.model, "m1");
    assert_eq!(request.messages, vec![entry(Role::User, "hello")]);
    assert_eq!(session.receive_chunk(request.token, "Hi"), Verdict::Emit);
    assert_eq!(session.receive_chunk(request.token, " there"), Verdict::Emit);
    let stored = session.finish_response(request.token, text("2024-05-01 09:00:05")).unwrap();
    assert_eq!(stored, Some(shown(2, demo.id, Some("m1"), "Hi there", "2024-05-01 09:00:05")));
    assert!(!session.is_streaming());
    let rows = session.store().list_messages(demo.id);
    assert_eq!(rows.len(), 2);
    assert_eq!(rows[1].author_model, Some(text("m1")));
    assert_eq!(parse(&rows[1].content).unwrap(), entry(Role::Assistant, "Hi there"));
    assert_eq!(
        session.context(),
        vec![entry(Role::User, "hello"), entry(Role::Assistant, "Hi there")]
    );
    let listing = session.list_messages(demo.id);
    assert_eq!(
        listing.messages,
        vec![
            shown(1, demo.id, None, "hello", "2024-05-01 09:00:01"),
            shown(2, demo.id, Some("m1"), "Hi there", "2024-05-01 09:00:05"),
        ]
    );
    assert_eq!(listing.skipped, 0);
}

#[test]
fn cancellation_discards_partial_output() {
    let mut session = two_chats();
    session.list_messages(1);
    let rows_before = session.store().list_messages(1);
    let buffer_before = session.context();
    let token = session.start_response_stream(text("m1")).unwrap().token;
    assert_eq!(session.receive_chunk(token, "par"), Verdict::Emit);
    assert_eq!(session.receive_chunk(token, "tial"), Verdict::Emit);
    assert_eq!(session.cancel_response_stream(), Some(token));
    assert!(!session.is_streaming());
    assert_eq!(session.receive_chunk(token, " more"), Verdict::Stop);
    assert_eq!(session.finish_response(token, text("t9")), Ok(None));
    assert_eq!(session.store().list_messages(1), rows_before);
    assert_eq!(session.context(), buffer_before);
    assert_eq!(session.cancel_response_stream(), None);
}

#[test]
fn cancel_with_nothing_running_changes_nothing() {
    let mut session = two_chats();
    session.list_messages(2);
    assert_eq!(session.cancel_response_stream(), None);
    assert_eq!(session.context(), vec![entry(Role::User, "other")]);
    assert_eq!(session.loaded_chat(), Some(2));
}

#[test]
fn chat_switch_mid_stream_cancels_the_stream() {
    let mut session = two_chats();
    session.list_messages(1);
    let token = session.start_response_stream(text("m1")).unwrap().token;
    assert_eq!(session.receive_chunk(token, "for A"), Verdict::Emit);
    let listing = session.list_messages(2);
    assert_eq!(listing.messages, vec![shown(3, 2, None, "other", "t3")]);
    assert!(!session.is_streaming());
    assert_eq!(session.context(), vec![entry(Role::User, "other")]);
    assert_eq!(session.receive_chunk(token, " still"), Verdict::Stop);
    assert_eq!(session.finish_response(token, text("t9")), Ok(None));
    assert_eq!(session.context(), vec![entry(Role::User, "other")]);
    assert_eq!(session.store().list_messages(1).len(), 2);
    assert_eq!(session.store().list_messages(2).len(), 1);
}

#[test]
fn reloading_the_same_chat_keeps_the_stream() {
    let mut session = two_chats();
    session.list_messages(1);
    let token = session.start_response_stream(text("m1")).unwrap().token;
    session.receive_chunk(token, "Hi");
    session.list_messages(1);
    assert_eq!(session.live_token(), Some(token));
    assert_eq!(session.receive_chunk(token, "!"), Verdict::Emit);
    let stored = session.finish_response(token, text("t9")).unwrap();
    assert_eq!(stored, Some(shown(4, 1, Some("m1"), "Hi!", "t9")));
}

#[test]
fn stream_failure_is_reported_and_leaves_no_trace() {
    let mut session = two_chats();
    session.list_messages(1);
    let buffer_before = session.context();
    let token = session.start_response_stream(text("m1")).unwrap().token;
    assert_eq!(session.fail_response(token), Err(StreamError::Backend));
    assert!(!session.is_streaming());
    assert_eq!(session.context(), buffer_before);
    assert_eq!(session.store().list_messages(1).len(), 2);
    let token = session.start_response_stream(text("m1")).unwrap().token;
    session.receive_chunk(token, "partial");
    assert_eq!(session.fail_response(token), Err(StreamError::Backend));
    assert_eq!(session.fail_response(token), Ok(()));
    assert_eq!(session.finish_response(token, text("t9")), Ok(None));
    assert_eq!(session.context(), buffer_before);
    assert_eq!(session.store().list_messages(1).len(), 2);
}

#[test]
fn delete_chat_cascades_and_unloads() {
    let mut session = two_chats();
    session.list_messages(1);
    let token = session.start_response_stream(text("m1")).unwrap().token;
    session.delete_chat(1);
    assert!(!session.is_streaming());
    assert_eq!(session.loaded_chat(), None);
    assert!(session.context().is_empty());
    assert!(session.list_messages(1).messages.is_empty());
    let listed: Vec<i64> = session.list_chats().iter().map(|c| c.id).collect();
    assert_eq!(listed, vec![2]);
    assert_eq!(session.finish_response(token, text("t9")), Ok(None));
    assert!(session.store().list_messages(1).is_empty());
}

#[test]
fn delete_of_another_chat_leaves_the_stream_running() {
    let mut session = two_chats();
    session.list_messages(1);
    let token = session.start_response_stream(text("m1")).unwrap().token;
    session.delete_chat(2);
    assert_eq!(session.live_token(), Some(token));
    assert_eq!(session.loaded_chat(), Some(1));
    assert_eq!(session.context().len(), 2);
    session.receive_chunk(token, "ok");
    assert_eq!(
        session.finish_response(token, text("t9")).unwrap(),
        Some(shown(4, 1, Some("m1"), "ok", "t9"))
    );
}

#[test]
fn delete_message_deletes_from_the_point_and_reloads() {
    let mut session = Session::new();
    session.create_chat(text("demo"), text("t0")).unwrap();
    for n in 1..=4 {
        session.send_message(1, format!("m{}", n), None, format!("t{}", n)).unwrap();
    }
    let listing = session.delete_message(1, 3);
    assert_eq!(
        listing.messages,
        vec![shown(1, 1, None, "m1", "t1"), shown(2, 1, None, "m2", "t2")]
    );
    assert_eq!(listing.skipped, 0);
    assert_eq!(session.context(), vec![entry(Role::User, "m1"), entry(Role::User, "m2")]);
    assert_eq!(session.loaded_chat(), Some(1));
    let sent = session.send_message(1, text("again"), None, text("t5")).unwrap();
    assert_eq!(sent.id, 5);
}

#[test]
fn delete_message_cancels_a_running_stream() {
    let mut session = two_chats();
    session.list_messages(1);
    let token = session.start_response_stream(text("m1")).unwrap().token;
    session.receive_chunk(token, "reply to what is gone");
    let listing = session.delete_message(1, 2);
    assert_eq!(listing.messages, vec![shown(1, 1, None, "question", "t1")]);
    assert!(!session.is_streaming());
    assert_eq!(session.finish_response(token, text("t9")), Ok(None));
    assert_eq!(session.context(), vec![entry(Role::User, "question")]);
}

#[test]
fn finish_fails_when_no_id_is_left_and_stores_nothing() {
    let store = MessageStore::restore(
        vec![Chat { id: 1, name: text("demo"), created_at: text("t0") }],
        vec![],
        1,
        i64::MAX,
    )
    .unwrap();
    let mut session = Session::over(store);
    session.list_messages(1);
    assert_eq!(
        session.send_message(1, text("x"), None, text("t")),
        Err(SessionError::Storage(StorageError::IdsExhausted))
    );
    let token = session.start_response_stream(text("m1")).unwrap().token;
    session.receive_chunk(token, "text");
    assert_eq!(
        session.finish_response(token, text("t9")),
        Err(SessionError::Storage(StorageError::IdsExhausted))
    );
    assert!(!session.is_streaming());
    assert!(session.context().is_empty());
    assert!(session.store().list_messages(1).is_empty());
}

#[test]
fn create_chat_fails_when_no_id_is_left() {
    let store = MessageStore::restore(vec![], vec![], i64::MAX, 0).unwrap();
    let mut session = Session::over(store);
    assert_eq!(
        session.create_chat(text("x"), text("t")),
        Err(SessionError::Storage(StorageError::IdsExhausted))
    );
}

#[test]
fn errors_compare_by_kind() {
    assert_ne!(
        SessionError::Envelope(MalformedEnvelopeError::Unencodable),
        SessionError::Envelope(MalformedEnvelopeError::Unfaithful)
    );
    assert_ne!(
        SessionError::Stream(StreamError::TokensExhausted),
        SessionError::Stream(StreamError::Backend)
    );
}
