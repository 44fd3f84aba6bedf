//! A chat engine: durable chats and messages, the conversation buffer that is
//! replayed to the model backend, and one cancellable response stream at a time.

pub mod buffer;
pub mod envelope;
pub mod filtering;
pub mod message_store;
pub mod session;
pub mod session_model;
pub mod store;
pub mod stream;
pub mod text;
pub mod translate;
