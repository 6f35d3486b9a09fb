//! The core of a chat client for an OpenAI-compatible chat-completion API:
//! the transcript of the conversation, the request that asks for its next
//! message, the reading of the response, and the decisions of the
//! interactive loop. Sending the request is left to the caller.

pub mod json;
pub mod request;
pub mod response;
pub mod session;
pub mod text;
pub mod transcript;
pub mod wire;
