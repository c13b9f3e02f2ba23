//! The OpenAI backend: what it sends for a conversation, and what it makes
//! of the answer.
//!
//! The provider performs no exchange itself. A caller builds the request
//! with `GPTChat::request`, sends it, decodes the answer and hands it to
//! `GPTChat::reply`. The provider returns the assistant's turn and nothing
//! more: where that turn asks for tools, running them and sending the
//! results back in a further call is the caller's part.

use vstd::prelude::*;
use crate::chat::{message_views, ChatMessage, ChatMessageView};
use crate::error::{result_view, Error};
use crate::openai::models::{
    message_from_wire, message_to_wire, tool_to_wire, wire_message_views, wire_tool_views,
    ChatRequest, ChatRequestView, ChatResponse, ChatToolDefinition, Temperature,
};
use crate::text::same;
use crate::tools::{definition_views, ToolDefinition, ToolDefinitionView};

verus! {

/// The OpenAI backend with its fixed configuration: once made, a provider
/// is only read.
pub struct GPTChat {
    /// The model that answers.
    pub model: String,
    /// The sampling temperature.
    pub temperature: Temperature,
    api_key: String,
}

/// A `GPTChat` as plain values.
pub struct GPTChatView {
    pub model: Seq<char>,
    pub temperature: Temperature,
    pub api_key: Seq<char>,
}

impl View for GPTChat {
    type V = GPTChatView;

    closed spec fn view(&self) -> GPTChatView {
        GPTChatView { model: self.model@, temperature: self.temperature, api_key: self.api_key@ }
    }
}

/// The request that a provider sends for a conversation: every turn and
/// every tool in its wire form and in order, the tool list left out where no
/// tool is offered, and no tool forced on the model.
pub open spec fn request_of(
    provider: GPTChatView,
    messages: Seq<ChatMessageView>,
    tools: Seq<ToolDefinitionView>,
) -> ChatRequestView {
    ChatRequestView {
        api_key: provider.api_key,
        model: provider.model,
        messages: messages.map_values(|message: ChatMessageView| message_to_wire(message)),
        temperature: provider.temperature,
        tools: if tools.len() == 0 {
            None
        } else {
            Some(tools.map_values(|tool: ToolDefinitionView| tool_to_wire(tool)))
        },
        tool_choice: None,
    }
}

/// The temperature that `chat_provider` configures, 0.3 as a
/// single-precision bit pattern.
pub const DEFAULT_TEMPERATURE: u32 = 0x3e99_999a;

impl GPTChat {
    /// The model that answers.
    pub fn model(&self) -> (model: &String)
        ensures
            model@ == self@.model,
    {
        &self.model
    }

    /// The sampling temperature.
    pub fn temperature(&self) -> (temperature: Temperature)
        ensures
            temperature == self@.temperature,
    {
        self.temperature
    }

    /// A provider for `model` that authenticates with `api_key`.
    pub fn new(model: String, api_key: String, temperature: Temperature) -> (provider: GPTChat)
        ensures
            provider@ == (GPTChatView { model: model@, temperature, api_key: api_key@ }),
    {
        GPTChat { api_key, model, temperature }
    }

    /// Builds the request that asks the backend to continue `messages`,
    /// with `tools` on offer.
    pub fn request(&self, messages: &Vec<ChatMessage>, tools: &Vec<ToolDefinition>) -> (request:
        ChatRequest)
        ensures
            request@ == request_of(self@, message_views(messages@), definition_views(tools@)),
    {
        let mut wire_messages: Vec<crate::openai::models::ChatMessage> = Vec::new();
        let mut i: usize = 0;
        while i < messages.len()
            invariant
                i <= messages.len(),
                wire_messages@.len() == i,
                forall|j: int|
                    0 <= j < i ==> (#[trigger] wire_messages@[j])@ == message_to_wire(
                        messages@[j]@,
                    ),
            decreases messages.len() - i,
        {
            wire_messages.push(crate::openai::models::ChatMessage::from_vulcan_message(&messages[i]));
            i = i + 1;
        }
        let mut wire_tools: Vec<ChatToolDefinition> = Vec::new();
        let mut k: usize = 0;
        while k < tools.len()
            invariant
                k <= tools.len(),
                wire_tools@.len() == k,
                forall|j: int|
                    0 <= j < k ==> (#[trigger] wire_tools@[j])@ == tool_to_wire(tools@[j]@),
            decreases tools.len() - k,
        {
            wire_tools.push(ChatToolDefinition::from_vulcan_tool(&tools[k]));
            k = k + 1;
        }
        assert(wire_message_views(wire_messages@) =~= message_views(messages@).map_values(
            |message: ChatMessageView| message_to_wire(message),
        ));
        assert(wire_tool_views(wire_tools@) =~= definition_views(tools@).map_values(
            |tool: ToolDefinitionView| tool_to_wire(tool),
        ));
        chat_request(
            self.api_key.clone(),
            self.model.clone(),
            wire_messages,
            self.temperature,
            wire_tools,
        )
    }

    /// Reads the assistant's turn out of a decoded answer. Only the first
    /// choice counts. A turn that cannot be translated fails the call with a
    /// provider error that carries the message of the failure.
    pub fn reply(response: &ChatResponse) -> (r: Result<ChatMessage, Error>)
        requires
            response.choices@.len() > 0,
        ensures
            result_view(r) == match message_from_wire(response@.choices[0].message) {
                Ok(message) => Ok(message),
                Err(e) => Err(e.wrapped()),
            },
    {
        match response.choices[0].message.to_vulcan_message() {
            Ok(message) => Ok(message),
            Err(e) => Err(e.into_provider()),
        }
    }
}

/// Puts a request together from its parts. An empty tool list is left out
/// of the request altogether, and no tool is forced on the model.
pub fn chat_request(
    api_key: String,
    model: String,
    messages: Vec<crate::openai::models::ChatMessage>,
    temperature: Temperature,
    tools: Vec<ChatToolDefinition>,
) -> (request: ChatRequest)
    ensures
        request@ == (ChatRequestView {
            api_key: api_key@,
            model: model@,
            messages: wire_message_views(messages@),
            temperature,
            tools: if tools@.len() == 0 {
                None
            } else {
                Some(wire_tool_views(tools@))
            },
            tool_choice: None,
        }),
{
    let offered = if tools.len() == 0 {
        None
    } else {
        Some(tools)
    };
    ChatRequest { api_key, model, messages, temperature, tools: offered, tool_choice: None }
}

/// What a provider makes of the transport's outcome: an answer is handed
/// on as it is, and a failure of any kind is wrapped as a provider error
/// that carries the failure's whole message.
pub fn chat_response(outcome: Result<ChatResponse, Error>) -> (r: Result<ChatResponse, Error>)
    ensures
        result_view(r) == match outcome {
            Ok(response) => Ok(response@),
            Err(e) => Err(e@.wrapped()),
        },
{
    match outcome {
        Ok(response) => Ok(response),
        Err(e) => Err(e.into_provider()),
    }
}

/// Picks the provider that a name stands for. The one name known is
/// `"openai"`; it gives the OpenAI backend at the default temperature.
pub fn chat_provider(param: &str, model: String, api_key: String) -> (provider: Option<GPTChat>)
    ensures
        param@ == "openai"@ ==> provider is Some && provider->Some_0@ == (GPTChatView {
            model: model@,
            temperature: Temperature { bits: DEFAULT_TEMPERATURE },
            api_key: api_key@,
        }),
        param@ != "openai"@ ==> provider is None,
{
    if same(param, "openai") {
        Some(GPTChat::new(model, api_key, Temperature { bits: DEFAULT_TEMPERATURE }))
    } else {
        None
    }
}

} // verus!
