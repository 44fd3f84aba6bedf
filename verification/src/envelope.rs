//! The envelope: the `{role, content}` form in which a message is persisted and
//! in which it is replayed to the model backend.
//!
//! The JSON text of an envelope is produced and read by `serde_json` on
//! `ollama_rs`'s `ChatMessage`. Both calls are trusted; what they return is
//! named, not described. Everything around the two calls is verified, and
//! `serialize` never hands out a text that `parse` would not read back as the
//! message that went in.

use ollama_rs::generation::chat::ChatMessage;
use ollama_rs::generation::chat::MessageRole;
use crate::text::text_view;
use vstd::prelude::*;
use vstd::string::StringExecFns;

verus! {

/// Who wrote a message.
#[derive(Clone, Copy, Debug, PartialEq, Eq, Structural)]
pub enum Role {
    User,
    Assistant,
}

/// The role that a decoded chat message carries on the wire. An envelope only
/// ever holds the first two.
#[derive(Clone, Copy, Debug, PartialEq, Eq, Structural)]
pub enum WireRole {
    User,
    Assistant,
    System,
    Tool,
}

/// Why a text is not accepted as an envelope.
#[derive(Clone, Copy, Debug, PartialEq, Eq, Structural)]
pub enum MalformedEnvelopeError {
    /// The text is not the JSON of a chat message.
    Undecodable,
    /// The text is a chat message, written by neither the user nor a model.
    UnsupportedRole,
    /// The encoder produced no text for the message.
    Unencodable,
    /// The encoder produced a text that does not read back as the message.
    Unfaithful,
}

/// One message in model format: who wrote it, and what.
#[derive(Debug, PartialEq, Eq)]
pub struct Envelope {
    pub role: Role,
    pub content: String,
}

/// The mathematical value of an [`Envelope`].
pub struct EnvelopeView {
    pub role: Role,
    pub content: Seq<char>,
}

impl View for Envelope {
    type V = EnvelopeView;

    open spec fn view(&self) -> EnvelopeView {
        EnvelopeView { role: self.role, content: self.content@ }
    }
}

impl Clone for Envelope {
    fn clone(&self) -> (res: Self)
        ensures
            res@ == self@,
    {
        Envelope { role: self.role, content: self.content.clone() }
    }
}

/// The role that a message has when it carries the given author tag: a message
/// with a tag was written by that model, one without by the user.
pub open spec fn role_of_author(author: Option<Seq<char>>) -> Role {
    if author is Some {
        Role::Assistant
    } else {
        Role::User
    }
}

/// Makes `serde_json::Error` known as a type. Nothing is said of its values.
#[verifier::external_type_specification]
#[verifier::external_body]
pub struct ExJsonError(serde_json::Error);

/// The text that `serde_json::to_string` returns for the `ollama_rs` chat
/// message with the given role and content, or `None` where it returns an error.
pub uninterp spec fn encoded_message(role: Role, content: Seq<char>) -> Option<Seq<char>>;

/// The role and content of the `ollama_rs` chat message that
/// `serde_json::from_str` reads from the given text, or `None` where it returns
/// an error.
pub uninterp spec fn decoded_message(text: Seq<char>) -> Option<(WireRole, Seq<char>)>;

/// Calls `serde_json::to_string` on `ChatMessage::new(role, content)`.
///
/// Trusted: the result depends on the two arguments alone. Nothing is claimed
/// about what the text looks like, nor that there is one.
#[verifier::external_body]
fn encode_chat_message(role: Role, content: &str) -> (r: Result<String, serde_json::Error>)
    ensures
        r matches Ok(text) ==> encoded_message(role, content@) == Some(text@),
        r is Err ==> encoded_message(role, content@) is None,
{
    let role = match role {
        Role::User => MessageRole::User,
        Role::Assistant => MessageRole::Assistant,
    };
    serde_json::to_string(&ChatMessage::new(role, content.to_string()))
}

/// Calls `serde_json::from_str` for a `ChatMessage` and hands out its role and
/// content.
///
/// Trusted: the result depends on the text alone. Nothing is claimed about
/// which texts are read, nor as what.
#[verifier::external_body]
fn decode_chat_message(text: &str) -> (r: Result<(WireRole, String), serde_json::Error>)
    ensures
        r matches Ok(m) ==> decoded_message(text@) == Some((m.0, m.1@)),
        r is Err ==> decoded_message(text@) is None,
{
    let message: ChatMessage = serde_json::from_str(text)?;
    let role = match message.role {
        MessageRole::User => WireRole::User,
        MessageRole::Assistant => WireRole::Assistant,
        MessageRole::System => WireRole::System,
        MessageRole::Tool => WireRole::Tool,
    };
    Ok((role, message.content))
}

/// The envelope that a decoded chat message stands for.
pub open spec fn envelope_of(decoded: Option<(WireRole, Seq<char>)>) -> Result<
    EnvelopeView,
    MalformedEnvelopeError,
> {
    match decoded {
        None => Err(MalformedEnvelopeError::Undecodable),
        Some((WireRole::User, content)) => Ok(EnvelopeView { role: Role::User, content }),
        Some((WireRole::Assistant, content)) => Ok(
            EnvelopeView { role: Role::Assistant, content },
        ),
        Some(_) => Err(MalformedEnvelopeError::UnsupportedRole),
    }
}

/// What `parse` returns for a stored text.
pub open spec fn parse_spec(text: Seq<char>) -> Result<EnvelopeView, MalformedEnvelopeError> {
    envelope_of(decoded_message(text))
}

/// The view of a decoded chat message.
pub open spec fn decoded_view(decoded: Option<(WireRole, String)>) -> Option<
    (WireRole, Seq<char>),
> {
    match decoded {
        Some((role, content)) => Some((role, content@)),
        None => None,
    }
}

/// Turns a decoded chat message into an envelope: user and assistant messages
/// are kept, anything else is malformed.
pub fn from_decoded(decoded: Option<(WireRole, String)>) -> (r: Result<
    Envelope,
    MalformedEnvelopeError,
>)
    ensures
        r matches Ok(envelope) ==> envelope_of(decoded_view(decoded)) == Ok::<
            EnvelopeView,
            MalformedEnvelopeError,
        >(envelope@),
        r matches Err(e) ==> envelope_of(decoded_view(decoded)) == Err::<
            EnvelopeView,
            MalformedEnvelopeError,
        >(e),
{
    match decoded {
        None => Err(MalformedEnvelopeError::Undecodable),
        Some((WireRole::User, content)) => Ok(Envelope { role: Role::User, content }),
        Some((WireRole::Assistant, content)) => Ok(Envelope { role: Role::Assistant, content }),
        Some(_) => Err(MalformedEnvelopeError::UnsupportedRole),
    }
}

/// Reads a stored text as an envelope.
pub fn parse(text: &str) -> (r: Result<Envelope, MalformedEnvelopeError>)
    ensures
        r matches Ok(envelope) ==> parse_spec(text@) == Ok::<
            EnvelopeView,
            MalformedEnvelopeError,
        >(envelope@),
        r matches Err(e) ==> parse_spec(text@) == Err::<EnvelopeView, MalformedEnvelopeError>(e),
{
    let decoded = match decode_chat_message(text) {
        Ok(message) => Some(message),
        Err(_) => None,
    };
    from_decoded(decoded)
}

/// What `confirm` returns: the text that was written, if there is one and what
/// was read back from it is the message; otherwise the reason for refusing it.
pub open spec fn confirmed(
    role: Role,
    content: Seq<char>,
    written: Option<Seq<char>>,
    read_back: Option<(WireRole, Seq<char>)>,
) -> Result<Seq<char>, MalformedEnvelopeError> {
    match written {
        None => Err(MalformedEnvelopeError::Unencodable),
        Some(text) => if envelope_of(read_back) == Ok::<EnvelopeView, MalformedEnvelopeError>(
            EnvelopeView { role, content },
        ) {
            Ok(text)
        } else {
            Err(MalformedEnvelopeError::Unfaithful)
        },
    }
}

/// Decides on what the encoder wrote for a message, given what the decoder
/// read back from it: the text is accepted if what was read back is the
/// message, refused as unfaithful if it is anything else, and there is nothing
/// to accept if the encoder wrote nothing.
pub fn confirm(
    role: Role,
    content: &str,
    written: Option<String>,
    read_back: Option<(WireRole, String)>,
) -> (r: Result<String, MalformedEnvelopeError>)
    ensures
        r matches Ok(text) ==> written == Some(text),
        r matches Ok(text) ==> confirmed(
            role,
            content@,
            text_view(written),
            decoded_view(read_back),
        ) == Ok::<Seq<char>, MalformedEnvelopeError>(text@),
        r matches Err(e) ==> confirmed(
            role,
            content@,
            text_view(written),
            decoded_view(read_back),
        ) == Err::<Seq<char>, MalformedEnvelopeError>(e),
{
    let text = match written {
        Some(text) => text,
        None => {
            return Err(MalformedEnvelopeError::Unencodable);
        },
    };
    match from_decoded(read_back) {
        Ok(envelope) => {
            let same_role = match (envelope.role, role) {
                (Role::User, Role::User) => true,
                (Role::Assistant, Role::Assistant) => true,
                _ => false,
            };
            if same_role && envelope.content == String::from_str(content) {
                Ok(text)
            } else {
                Err(MalformedEnvelopeError::Unfaithful)
            }
        },
        Err(_) => Err(MalformedEnvelopeError::Unfaithful),
    }
}

/// What `serialize` returns for a message: the encoder's text where that text
/// reads back as the same message, an error otherwise.
pub open spec fn serialize_spec(role: Role, content: Seq<char>) -> Result<
    Seq<char>,
    MalformedEnvelopeError,
> {
    confirmed(
        role,
        content,
        encoded_message(role, content),
        match encoded_message(role, content) {
            Some(text) => decoded_message(text),
            None => None,
        },
    )
}

/// Writes a message as the text to persist. The text is the encoder's, and it
/// is handed out only after it was read back as the message that went in.
pub fn serialize(role: Role, content: &str) -> (r: Result<String, MalformedEnvelopeError>)
    ensures
        r matches Ok(text) ==> serialize_spec(role, content@) == Ok::<
            Seq<char>,
            MalformedEnvelopeError,
        >(text@),
        r matches Err(e) ==> serialize_spec(role, content@) == Err::<
            Seq<char>,
            MalformedEnvelopeError,
        >(e),
{
    match encode_chat_message(role, content) {
        Err(_) => confirm(role, content, None, None),
        Ok(text) => {
            let read_back = match decode_chat_message(text.as_str()) {
                Ok(message) => Some(message),
                Err(_) => None,
            };
            confirm(role, content, Some(text), read_back)
        },
    }
}

/// Round trip: a text that `serialize` hands out for a role and a content is
/// read by `parse` as exactly that role and that content.
pub proof fn lemma_round_trip(role: Role, content: Seq<char>)
    ensures
        serialize_spec(role, content) matches Ok(text) ==> parse_spec(text) == Ok::<
            EnvelopeView,
            MalformedEnvelopeError,
        >(EnvelopeView { role, content }),
{
}

/// A text is never accepted for two different messages.
pub proof fn lemma_serialize_injective(
    role_a: Role,
    content_a: Seq<char>,
    role_b: Role,
    content_b: Seq<char>,
)
    requires
        serialize_spec(role_a, content_a) is Ok,
        serialize_spec(role_a, content_a) == serialize_spec(role_b, content_b),
    ensures
        role_a == role_b,
        content_a == content_b,
{
}

} // verus!
