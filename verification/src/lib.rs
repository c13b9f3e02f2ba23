//! A small client library for chat-completion backends: a provider-neutral
//! message and tool model, and its translation to and from the OpenAI wire
//! format.

pub mod chat;
pub mod completion;
pub mod env;
pub mod error;
pub mod json;
pub mod openai;
pub mod tools;
mod text;
