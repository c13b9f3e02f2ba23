//! The OpenAI backend: its wire format, the translation to and from the
//! provider-neutral model, and the shape of its HTTP exchange.

pub mod api;
pub mod laws;
pub mod models;

pub use self::api::{chat, embed, handle_response, post, post_response, url, Post};
pub use self::models::{
    ChatChoice, ChatMessage, ChatRequest, ChatResponse, ChatToolCall, ChatToolDefinition,
    ChatToolFunctionCall, ChatToolFunctionDefinition, ChatUsage, EmbedRequest, EmbedUsage,
    Temperature,
};
