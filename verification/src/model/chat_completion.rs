//! The choice of a non-streamed response.

use vstd::prelude::*;
use super::{ChatCompletionMessage, FinishReason};

verus! {

/// The single choice of a non-streamed response.
pub struct Choice {
    pub finish_reason: FinishReason,
    pub index: i32,
    pub logprobs: (),
    pub message: ChatCompletionMessage,
}

} // verus!
