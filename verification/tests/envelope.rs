use chat_engine::envelope::confirm;
use chat_engine::envelope::from_decoded;
use chat_engine::envelope::parse;
use chat_engine::envelope::serialize;
use chat_engine::envelope::MalformedEnvelopeError;
use chat_engine::envelope::Role;
use chat_engine::envelope::WireRole;
use ollama_rs::generation::chat::ChatMessage;

fn round_trip(role: Role, text: &str) {
    let written = serialize(role, text).expect("the message is written");
    let read = parse(&written).expect("the envelope is read");
    assert_eq!(read.role, role);
    assert_eq!(read.content, text);
}

#[test]
fn round_trip_plain_text() {
    round_trip(Role::User, "hello");
    round_trip(Role::Assistant, "Hi there");
}

#[test]
fn round_trip_empty_text() {
    round_trip(Role::User, "");
    round_trip(Role::Assistant, "");
}

#[test]
fn round_trip_embedded_quotes() {
    round_trip(Role::User, "she said \"hi\" and left");
    round_trip(Role::Assistant, "\"\"\"");
}

#[test]
fn round_trip_newlines_and_control_characters() {
    round_trip(Role::User, "line one\nline two\r\n\ttabbed");
    round_trip(Role::Assistant, "bell \u{7} null \u{0} escape \u{1b} backslash \\ slash /");
}

#[test]
fn round_trip_text_that_looks_like_an_envelope() {
    round_trip(Role::User, "{\"role\":\"assistant\",\"content\":\"nested\"}");
}

#[test]
fn round_trip_non_ascii_text() {
    round_trip(Role::User, "gr\u{fc}\u{df}e \u{1f600} \u{4f60}\u{597d}");
}

#[test]
fn serialize_writes_role_and_content_as_json() {
    let written = serialize(Role::User, "hello").unwrap();
    let value: serde_json::Value = serde_json::from_str(&written).unwrap();
    assert_eq!(value["role"], "user");
    assert_eq!(value["content"], "hello");
    let written = serialize(Role::Assistant, "Hi there").unwrap();
    let value: serde_json::Value = serde_json::from_str(&written).unwrap();
    assert_eq!(value["role"], "assistant");
    assert_eq!(value["content"], "Hi there");
}

#[test]
fn serialize_does_not_hand_back_the_bare_text() {
    let written = serialize(Role::User, "hello").unwrap();
    assert_ne!(written, "hello");
}

#[test]
fn parse_reads_a_minimal_envelope() {
    let read = parse("{\"role\":\"user\",\"content\":\"hello\"}").unwrap();
    assert_eq!(read.role, Role::User);
    assert_eq!(read.content, "hello");
}

#[test]
fn parse_reads_an_envelope_with_further_fields() {
    let read = parse(
        "{ \"content\": \"a\\nb\", \"images\": null, \"tool_calls\": [], \"role\": \"assistant\" }",
    )
    .unwrap();
    assert_eq!(read.role, Role::Assistant);
    assert_eq!(read.content, "a\nb");
}

#[test]
fn parse_refuses_text_that_is_no_json() {
    assert_eq!(parse("hello").unwrap_err(), MalformedEnvelopeError::Undecodable);
    assert_eq!(parse("").unwrap_err(), MalformedEnvelopeError::Undecodable);
}

#[test]
fn parse_refuses_json_without_a_role() {
    assert_eq!(
        parse("{\"content\":\"hello\"}").unwrap_err(),
        MalformedEnvelopeError::Undecodable
    );
}

#[test]
fn parse_refuses_system_and_tool_messages() {
    assert_eq!(
        parse("{\"role\":\"system\",\"content\":\"be brief\"}").unwrap_err(),
        MalformedEnvelopeError::UnsupportedRole
    );
    assert_eq!(
        parse("{\"role\":\"tool\",\"content\":\"42\"}").unwrap_err(),
        MalformedEnvelopeError::UnsupportedRole
    );
}

#[test]
fn from_decoded_keeps_user_and_assistant() {
    let kept = from_decoded(Some((WireRole::User, "a".to_string()))).unwrap();
    assert_eq!(kept.role, Role::User);
    assert_eq!(kept.content, "a");
    let kept = from_decoded(Some((WireRole::Assistant, "b".to_string()))).unwrap();
    assert_eq!(kept.role, Role::Assistant);
    assert_eq!(kept.content, "b");
}

#[test]
fn from_decoded_refuses_the_rest() {
    assert_eq!(from_decoded(None).unwrap_err(), MalformedEnvelopeError::Undecodable);
    assert_eq!(
        from_decoded(Some((WireRole::System, "a".to_string()))).unwrap_err(),
        MalformedEnvelopeError::UnsupportedRole
    );
    assert_eq!(
        from_decoded(Some((WireRole::Tool, "a".to_string()))).unwrap_err(),
        MalformedEnvelopeError::UnsupportedRole
    );
}

#[test]
fn confirm_accepts_a_faithful_text() {
    let accepted = confirm(
        Role::User,
        "hello",
        Some("written".to_string()),
        Some((WireRole::User, "hello".to_string())),
    );
    assert_eq!(accepted, Ok("written".to_string()));
}

#[test]
fn confirm_refuses_an_unfaithful_text() {
    let other_content = confirm(
        Role::User,
        "hello",
        Some("written".to_string()),
        Some((WireRole::User, "hullo".to_string())),
    );
    assert_eq!(other_content, Err(MalformedEnvelopeError::Unfaithful));
    let other_role = confirm(
        Role::User,
        "hello",
        Some("written".to_string()),
        Some((WireRole::Assistant, "hello".to_string())),
    );
    assert_eq!(other_role, Err(MalformedEnvelopeError::Unfaithful));
    let unread = confirm(Role::Assistant, "hello", Some("written".to_string()), None);
    assert_eq!(unread, Err(MalformedEnvelopeError::Unfaithful));
    let foreign = confirm(
        Role::Assistant,
        "hello",
        Some("written".to_string()),
        Some((WireRole::Tool, "hello".to_string())),
    );
    assert_eq!(foreign, Err(MalformedEnvelopeError::Unfaithful));
}

#[test]
fn confirm_has_nothing_to_accept_when_nothing_was_written() {
    let unwritten = confirm(Role::User, "hello", None, None);
    assert_eq!(unwritten, Err(MalformedEnvelopeError::Unencodable));
    let unwritten = confirm(Role::User, "hello", None, Some((WireRole::User, "hello".to_string())));
    assert_eq!(unwritten, Err(MalformedEnvelopeError::Unencodable));
}

#[test]
fn serialize_hands_out_the_text_of_the_chat_message() {
    let text = "a \"quoted\" line\nand a second";
    assert_eq!(
        serialize(Role::User, text).unwrap(),
        serde_json::to_string(&ChatMessage::user(text.to_string())).unwrap()
    );
    assert_eq!(
        serialize(Role::Assistant, text).unwrap(),
        serde_json::to_string(&ChatMessage::assistant(text.to_string())).unwrap()
    );
}

#[test]
fn parse_reads_what_the_chat_message_holds() {
    let written = serde_json::to_string(&ChatMessage::system("be brief".to_string())).unwrap();
    assert_eq!(parse(&written).unwrap_err(), MalformedEnvelopeError::UnsupportedRole);
    let written = serde_json::to_string(&ChatMessage::assistant("\u{0}\t".to_string())).unwrap();
    let read = parse(&written).unwrap();
    assert_eq!(read.role, Role::Assistant);
    assert_eq!(read.content, "\u{0}\t");
}
