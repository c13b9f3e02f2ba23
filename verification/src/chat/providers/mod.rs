//! The backends that a conversation can be sent to.

pub mod gemini;
pub mod openai;

pub use self::gemini::GeminiChat;
pub use self::openai::{chat_provider, chat_request, chat_response, GPTChat};
