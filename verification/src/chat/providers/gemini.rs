//! A second backend, so far a stand-in: it answers every conversation with
//! the same assistant turn and reaches no network.

use vstd::prelude::*;
use crate::chat::{ChatMessage, ChatMessageView, ChatRole};
use crate::error::Error;
use crate::tools::ToolDefinition;

verus! {

/// The Gemini backend.
pub struct GeminiChat {
    api_key: String,
}

impl GeminiChat {
    /// The credential that the provider was made with.
    pub closed spec fn api_key(&self) -> Seq<char> {
        self.api_key@
    }

    /// The text of the turn that the stand-in answers with.
    pub open spec fn placeholder() -> Seq<char> {
        "Gemini chat: not implemented yet."@
    }

    /// A provider that holds `api_key`.
    pub fn new(api_key: String) -> (provider: GeminiChat)
        ensures
            provider.api_key() == api_key@,
    {
        GeminiChat { api_key }
    }

    /// Answers a conversation. Whatever the turns and tools, the answer is
    /// the placeholder turn of the assistant, and the call never fails.
    #[allow(unused_variables)]
    pub fn chat(&self, messages: &Vec<ChatMessage>, tools: Vec<ToolDefinition>) -> (r: Result<
        ChatMessage,
        Error,
    >)
        ensures
            r is Ok,
            r->Ok_0@ == ChatMessageView::plain(ChatRole::Assistant, Self::placeholder()),
    {
        Ok(ChatMessage::assistant("Gemini chat: not implemented yet.".to_owned()))
    }
}

} // verus!
