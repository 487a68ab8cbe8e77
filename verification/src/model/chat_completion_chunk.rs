//! The choice of a streamed chunk, its delta and a tool-call delta.

use vstd::prelude::*;
use super::{EmptyString, FinishReason, Role};

verus! {

/// The single choice of a chunk (its index is always 0).
pub struct Choice {
    pub index: (),
    pub delta: Option<Delta>,
    pub logprobs: (),
    pub finish_reason: Option<FinishReason>,
}

/// What a chunk adds to the message.
pub struct Delta {
    pub content: Option<String>,
    pub role: Option<Role>,
    pub tool_calls: Option<Box<ToolCall>>,
}

/// A piece of a streamed tool call.
pub struct ToolCall {
    pub index: u32,
    pub id: Option<String>,
    pub function: Option<Function>,
}

/// The start of a streamed function call, or a piece of its arguments.
pub enum Function {
    Start { name: String, arguments: EmptyString },
    Partial { arguments: String },
}

} // verus!
