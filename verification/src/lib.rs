//! The request-shaping core of an OpenAI-compatible chat proxy: the Cursor
//! client version, the chat-completion wire model, the adapter that turns a
//! chat request into a conversation plan, and the decision between starting
//! a conversation and continuing a tool call.

pub mod text;
pub mod version;
pub mod model;
pub mod adapter;
pub mod plan;
pub mod completions;
pub mod upstream;
