//! The data-transfer records shared by the per-endpoint payloads: plain
//! shapes with no behavior of their own.

use vstd::prelude::*;

verus! {

/// Token accounting reported by the service.
#[derive(Debug, Clone)]
pub struct Usage {
    pub prompt_tokens: Option<u32>,
    pub completion_tokens: Option<u32>,
    pub total_tokens: Option<u32>,
}

/// One alternative answer in a response.
#[derive(Debug, Clone)]
pub struct Choice {
    pub text: Option<String>,
    pub index: u32,
    pub logprobs: Option<String>,
    pub finish_reason: Option<String>,
    pub message: Option<Message>,
}

/// One conversational message.
#[derive(Debug, Clone)]
pub struct Message {
    pub role: Role,
    pub content: String,
}

/// Who a conversational message speaks for.
#[derive(Debug, Clone, Copy, PartialEq, Eq, Structural)]
pub enum Role {
    System,
    Assistant,
    User,
}

} // verus!
