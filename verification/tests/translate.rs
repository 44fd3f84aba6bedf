use chat_engine::buffer::copy_entries;
use chat_engine::buffer::ConversationBuffer;
use chat_engine::envelope::serialize;
use chat_engine::envelope::Envelope;
use chat_engine::envelope::MalformedEnvelopeError;
use chat_engine::envelope::Role;
use chat_engine::text::clone_text;
use chat_engine::store::Message;
use chat_engine::translate::show;
use chat_engine::translate::translate;
use chat_engine::translate::translate_row;
use chat_engine::translate::DisplayMessage;

fn row(id: i64, author: Option<&str>, content: &str) -> Message {
    Message {
        id,
        chat_id: 4,
        author_model: author.map(|a| a.to_string()),
        content: content.to_string(),
        created_at: format!("t{}", id),
    }
}

fn shown(id: i64, author: Option<&str>, content: &str) -> DisplayMessage {
    DisplayMessage {
        id,
        chat_id: 4,
        author_model: author.map(|a| a.to_string()),
        content: content.to_string(),
        created_at: format!("t{}", id),
    }
}

fn entry(role: Role, content: &str) -> Envelope {
    Envelope { role, content: content.to_string() }
}

#[test]
fn translate_row_gives_both_projections() {
    let stored = row(7, Some("m1"), "{\"role\":\"assistant\",\"content\":\"Hi \\\"you\\\"\"}");
    let (display, model) = translate_row(&stored).unwrap();
    assert_eq!(display, shown(7, Some("m1"), "Hi \"you\""));
    assert_eq!(model, entry(Role::Assistant, "Hi \"you\""));
}

#[test]
fn translate_row_takes_the_role_from_the_envelope_and_the_author_from_the_row() {
    let stored = row(7, None, "{\"role\":\"assistant\",\"content\":\"x\"}");
    let (display, model) = translate_row(&stored).unwrap();
    assert_eq!(display.author_model, None);
    assert_eq!(model.role, Role::Assistant);
}

#[test]
fn translate_row_refuses_a_corrupt_row() {
    assert_eq!(
        translate_row(&row(1, None, "plain text")).unwrap_err(),
        MalformedEnvelopeError::Undecodable
    );
    assert_eq!(
        translate_row(&row(1, None, "{\"role\":\"system\",\"content\":\"x\"}")).unwrap_err(),
        MalformedEnvelopeError::UnsupportedRole
    );
}

#[test]
fn translate_skips_corrupt_rows_and_counts_them() {
    let rows = vec![
        row(1, None, &serialize(Role::User, "hello").unwrap()),
        row(2, None, "not an envelope"),
        row(3, Some("m1"), &serialize(Role::Assistant, "Hi there").unwrap()),
        row(4, None, "{\"role\":\"tool\",\"content\":\"x\"}"),
        row(5, None, &serialize(Role::User, "").unwrap()),
    ];
    let translation = translate(&rows);
    assert_eq!(
        translation.display,
        vec![shown(1, None, "hello"), shown(3, Some("m1"), "Hi there"), shown(5, None, "")]
    );
    assert_eq!(
        translation.entries,
        vec![entry(Role::User, "hello"), entry(Role::Assistant, "Hi there"), entry(Role::User, "")]
    );
    assert_eq!(translation.skipped, 2);
}

#[test]
fn translate_of_nothing() {
    let translation = translate(&vec![]);
    assert!(translation.display.is_empty());
    assert!(translation.entries.is_empty());
    assert_eq!(translation.skipped, 0);
}

#[test]
fn translate_of_corrupt_rows_only() {
    let translation = translate(&vec![row(1, None, ""), row(2, None, "[]")]);
    assert!(translation.display.is_empty());
    assert!(translation.entries.is_empty());
    assert_eq!(translation.skipped, 2);
}

#[test]
fn projections_agree_on_content() {
    let rows = vec![
        row(1, None, &serialize(Role::User, "a\nb").unwrap()),
        row(2, None, "corrupt"),
        row(3, Some("m"), &serialize(Role::Assistant, "\"c\"").unwrap()),
    ];
    let translation = translate(&rows);
    assert_eq!(translation.display.len(), translation.entries.len());
    assert_eq!(translation.display.len() + translation.skipped, rows.len());
    for (display, model) in translation.display.iter().zip(translation.entries.iter()) {
        assert_eq!(display.content, model.content);
    }
}

#[test]
fn show_puts_the_text_in_place_of_the_content() {
    let stored = row(3, Some("m1"), "{\"role\":\"assistant\",\"content\":\"x\"}");
    assert_eq!(show(&stored, "plain".to_string()), shown(3, Some("m1"), "plain"));
}

#[test]
fn clone_text_copies() {
    assert_eq!(clone_text(&None), None);
    assert_eq!(clone_text(&Some("m1".to_string())), Some("m1".to_string()));
}

#[test]
fn buffer_starts_empty() {
    let buffer = ConversationBuffer::new();
    assert_eq!(buffer.len(), 0);
    assert!(buffer.snapshot().is_empty());
}

#[test]
fn buffer_append_adds_at_the_tail() {
    let mut buffer = ConversationBuffer::new();
    buffer.append(entry(Role::User, "one"));
    buffer.append(entry(Role::Assistant, "two"));
    assert_eq!(buffer.len(), 2);
    assert_eq!(buffer.snapshot(), vec![entry(Role::User, "one"), entry(Role::Assistant, "two")]);
}

#[test]
fn buffer_reset_replaces_everything() {
    let mut buffer = ConversationBuffer::new();
    buffer.append(entry(Role::User, "old"));
    buffer.reset(vec![entry(Role::User, "a"), entry(Role::Assistant, "b")]);
    assert_eq!(buffer.snapshot(), vec![entry(Role::User, "a"), entry(Role::Assistant, "b")]);
    buffer.reset(vec![]);
    assert_eq!(buffer.len(), 0);
}

#[test]
fn buffer_snapshot_is_decoupled_from_later_changes() {
    let mut buffer = ConversationBuffer::new();
    buffer.append(entry(Role::User, "one"));
    let snapshot = buffer.snapshot();
    buffer.append(entry(Role::Assistant, "two"));
    buffer.reset(vec![]);
    assert_eq!(snapshot, vec![entry(Role::User, "one")]);
}

#[test]
fn copy_entries_copies_in_order() {
    let entries = vec![entry(Role::User, "a"), entry(Role::Assistant, "b"), entry(Role::User, "")];
    assert_eq!(copy_entries(&entries), entries);
    assert_eq!(copy_entries(&vec![]), vec![]);
}

#[test]
fn envelope_clone_keeps_role_and_content() {
    let original = entry(Role::Assistant, "text");
    assert_eq!(original.clone(), original);
}
