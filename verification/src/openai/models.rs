//! The wire format of the OpenAI chat API, and its translation to and from
//! the provider-neutral model.
//!
//! Translation is total in the outbound direction. Inbound it fails at two
//! points only: a tool call whose arguments are no JSON text, and a role
//! token that names no role.
//!
//! The arguments of a tool call have one form on each side. In the
//! provider-neutral model they are a structured value; on the wire they are
//! a string that holds that value as JSON text.

use vstd::prelude::*;
use crate::chat::{ChatMessageView, ChatRole};
use crate::error::{result_view, Error, ErrorView};
use crate::json::{json_parse, json_text, parse, parse_view, to_text};
use crate::tools::{call_views, ToolCall, ToolCallView, ToolDefinition, ToolDefinitionView};

verus! {

// ---------------------------------------------------------------------------
// The wire types
// ---------------------------------------------------------------------------

/// The name and arguments of a requested invocation. The arguments are a
/// JSON document written out as text.
#[derive(Clone, Debug)]
pub struct ChatToolFunctionCall {
    pub name: String,
    pub arguments: String,
}

/// A requested invocation, in its typed envelope.
#[derive(Clone, Debug)]
pub struct ChatToolCall {
    pub id: String,
    pub tool_type: String,
    pub function: ChatToolFunctionCall,
}

/// What a tool's schema is nested under in its envelope.
#[derive(Clone, Debug)]
pub struct ChatToolFunctionDefinition {
    pub name: String,
    pub description: Option<String>,
    pub parameters: serde_json::Value,
}

/// A tool offered to the model, in its typed envelope.
#[derive(Clone, Debug)]
pub struct ChatToolDefinition {
    pub tool_type: String,
    pub function: ChatToolFunctionDefinition,
}

/// One turn of a conversation as the backend writes it.
#[derive(Clone, Debug)]
pub struct ChatMessage {
    pub role: String,
    pub content: Option<String>,
    pub tool_calls: Option<Vec<ChatToolCall>>,
    pub tool_call_id: Option<String>,
}

/// The sampling temperature of a request.
///
/// The backend takes a single-precision number. This library only carries
/// it from the caller to the request, so it is held as that number's
/// IEEE 754 bit pattern, which loses nothing.
#[derive(Clone, Copy, Debug, PartialEq, Eq, Structural)]
pub struct Temperature {
    pub bits: u32,
}

/// One request for a chat completion.
///
/// The credential travels with the request so that the transport can attach
/// it as a header; it is no part of the body.
#[derive(Clone, Debug)]
pub struct ChatRequest {
    pub api_key: String,
    pub model: String,
    pub messages: Vec<ChatMessage>,
    pub temperature: Temperature,
    pub tools: Option<Vec<ChatToolDefinition>>,
    pub tool_choice: Option<serde_json::Value>,
}

/// How many tokens an exchange took.
#[derive(Clone, Copy, Debug, PartialEq, Eq, Structural)]
pub struct ChatUsage {
    pub prompt_tokens: i32,
    pub completion_tokens: i32,
    pub total_tokens: i32,
}

/// One of the answers that the backend offers.
#[derive(Clone, Debug)]
pub struct ChatChoice {
    pub message: ChatMessage,
    pub finish_reason: String,
}

/// What the backend answers a chat request with.
#[derive(Debug)]
pub struct ChatResponse {
    pub id: String,
    pub model: String,
    pub choices: Vec<ChatChoice>,
    pub usage: ChatUsage,
}

/// One request for embeddings.
#[derive(Debug)]
pub struct EmbedRequest {
    pub api_key: String,
    pub model: String,
    pub inputs: Vec<String>,
}

/// How many tokens an embedding took.
#[derive(Clone, Copy, Debug, PartialEq, Eq, Structural)]
pub struct EmbedUsage {
    pub prompt_tokens: u32,
    pub total_tokens: u32,
}

// ---------------------------------------------------------------------------
// The wire types as plain values
// ---------------------------------------------------------------------------

/// An optional string as plain values.
pub open spec fn text_view(text: Option<String>) -> Option<Seq<char>> {
    match text {
        Some(text) => Some(text@),
        None => None,
    }
}

/// A `ChatToolCall` as plain values.
pub struct ChatToolCallView {
    pub id: Seq<char>,
    pub tool_type: Seq<char>,
    pub name: Seq<char>,
    pub arguments: Seq<char>,
}

impl View for ChatToolCall {
    type V = ChatToolCallView;

    open spec fn view(&self) -> ChatToolCallView {
        ChatToolCallView {
            id: self.id@,
            tool_type: self.tool_type@,
            name: self.function.name@,
            arguments: self.function.arguments@,
        }
    }
}

/// The wire calls of a list, each as plain values.
pub open spec fn wire_call_views(calls: Seq<ChatToolCall>) -> Seq<ChatToolCallView> {
    calls.map_values(|call: ChatToolCall| call@)
}

/// A `ChatToolDefinition` as plain values.
pub struct ChatToolDefinitionView {
    pub tool_type: Seq<char>,
    pub name: Seq<char>,
    pub description: Option<Seq<char>>,
    pub parameters: serde_json::Value,
}

impl View for ChatToolDefinition {
    type V = ChatToolDefinitionView;

    open spec fn view(&self) -> ChatToolDefinitionView {
        ChatToolDefinitionView {
            tool_type: self.tool_type@,
            name: self.function.name@,
            description: text_view(self.function.description),
            parameters: self.function.parameters,
        }
    }
}

/// The wire tools of a list, each as plain values.
pub open spec fn wire_tool_views(tools: Seq<ChatToolDefinition>) -> Seq<ChatToolDefinitionView> {
    tools.map_values(|tool: ChatToolDefinition| tool@)
}

/// A wire `ChatMessage` as plain values.
pub struct WireMessageView {
    pub role: Seq<char>,
    pub content: Option<Seq<char>>,
    pub tool_calls: Option<Seq<ChatToolCallView>>,
    pub tool_call_id: Option<Seq<char>>,
}

impl View for ChatMessage {
    type V = WireMessageView;

    open spec fn view(&self) -> WireMessageView {
        WireMessageView {
            role: self.role@,
            content: text_view(self.content),
            tool_calls: match self.tool_calls {
                Some(calls) => Some(wire_call_views(calls@)),
                None => None,
            },
            tool_call_id: text_view(self.tool_call_id),
        }
    }
}

/// The wire messages of a list, each as plain values.
pub open spec fn wire_message_views(messages: Seq<ChatMessage>) -> Seq<WireMessageView> {
    messages.map_values(|message: ChatMessage| message@)
}

/// A `ChatRequest` as plain values.
pub struct ChatRequestView {
    pub api_key: Seq<char>,
    pub model: Seq<char>,
    pub messages: Seq<WireMessageView>,
    pub temperature: Temperature,
    pub tools: Option<Seq<ChatToolDefinitionView>>,
    pub tool_choice: Option<serde_json::Value>,
}

impl View for ChatRequest {
    type V = ChatRequestView;

    open spec fn view(&self) -> ChatRequestView {
        ChatRequestView {
            api_key: self.api_key@,
            model: self.model@,
            messages: wire_message_views(self.messages@),
            temperature: self.temperature,
            tools: match self.tools {
                Some(tools) => Some(wire_tool_views(tools@)),
                None => None,
            },
            tool_choice: self.tool_choice,
        }
    }
}

/// A `ChatChoice` as plain values.
pub struct ChatChoiceView {
    pub message: WireMessageView,
    pub finish_reason: Seq<char>,
}

impl View for ChatChoice {
    type V = ChatChoiceView;

    open spec fn view(&self) -> ChatChoiceView {
        ChatChoiceView { message: self.message@, finish_reason: self.finish_reason@ }
    }
}

/// A `ChatResponse` as plain values.
pub struct ChatResponseView {
    pub id: Seq<char>,
    pub model: Seq<char>,
    pub choices: Seq<ChatChoiceView>,
    pub usage: ChatUsage,
}

impl View for ChatResponse {
    type V = ChatResponseView;

    open spec fn view(&self) -> ChatResponseView {
        ChatResponseView {
            id: self.id@,
            model: self.model@,
            choices: self.choices@.map_values(|choice: ChatChoice| choice@),
            usage: self.usage,
        }
    }
}

// ---------------------------------------------------------------------------
// What the translation is
// ---------------------------------------------------------------------------

/// The wire form of a requested invocation: the arguments are written out
/// as JSON text, and the envelope is marked as a function.
pub open spec fn call_to_wire(call: ToolCallView) -> ChatToolCallView {
    ChatToolCallView {
        id: call.id,
        tool_type: "function"@,
        name: call.name,
        arguments: json_text(call.args),
    }
}

/// The invocation that a wire call stands for, given what its arguments
/// were read as: the value, or else a provider error with the message of the
/// failure.
pub open spec fn call_from_parts(
    wire: ChatToolCallView,
    parsed: Result<serde_json::Value, Seq<char>>,
) -> Result<ToolCallView, ErrorView> {
    match parsed {
        Ok(args) => Ok(ToolCallView { id: wire.id, name: wire.name, args }),
        Err(message) => Err(ErrorView::Provider(message)),
    }
}

/// The invocation that a wire call stands for.
pub open spec fn call_from_wire(wire: ChatToolCallView) -> Result<ToolCallView, ErrorView> {
    call_from_parts(wire, json_parse(wire.arguments))
}

/// The invocations that a list of wire calls stands for, in order; or, where
/// some call cannot be read, the error of the first such call.
pub open spec fn calls_from_wire(calls: Seq<ChatToolCallView>) -> Result<
    Seq<ToolCallView>,
    ErrorView,
>
    decreases calls.len(),
{
    if calls.len() == 0 {
        Ok(Seq::empty())
    } else {
        match calls_from_wire(calls.drop_last()) {
            Err(e) => Err(e),
            Ok(front) => match call_from_wire(calls.last()) {
                Err(e) => Err(e),
                Ok(call) => Ok(front.push(call)),
            },
        }
    }
}

/// What the tool calls of a wire message are read as: no list where the
/// message has none, the invocations where every call can be read, and else
/// the error of the first call that cannot.
pub open spec fn tool_calls_from_wire(calls: Option<Seq<ChatToolCallView>>) -> Result<
    Option<Seq<ToolCallView>>,
    ErrorView,
> {
    match calls {
        Some(calls) => match calls_from_wire(calls) {
            Ok(read) => Ok(Some(read)),
            Err(e) => Err(e),
        },
        None => Ok(None),
    }
}

/// The wire form of a tool: its name, description and schema, in an envelope
/// marked as a function.
pub open spec fn tool_to_wire(tool: ToolDefinitionView) -> ChatToolDefinitionView {
    ChatToolDefinitionView {
        tool_type: "function"@,
        name: tool.name,
        description: Some(tool.description),
        parameters: tool.params,
    }
}

/// The wire form of a turn: the role as its token, the text carried
/// through, and the tool fields present exactly where the turn has them.
pub open spec fn message_to_wire(message: ChatMessageView) -> WireMessageView {
    WireMessageView {
        role: message.role.token(),
        content: Some(message.content),
        tool_calls: match message.tool_calls {
            Some(calls) => Some(calls.map_values(|call: ToolCallView| call_to_wire(call))),
            None => None,
        },
        tool_call_id: message.tool_call_id,
    }
}

/// The turn that a wire message stands for, given what its tool calls were
/// read as.
///
/// A failure to read the tool calls is handed on. Else the role is read, and
/// a token that names no role is refused with an error that quotes it. A
/// message without text stands for a turn with empty text.
pub open spec fn message_from_parts(
    wire: WireMessageView,
    tool_calls: Result<Option<Seq<ToolCallView>>, ErrorView>,
) -> Result<ChatMessageView, ErrorView> {
    match tool_calls {
        Err(e) => Err(e),
        Ok(tool_calls) => match ChatRole::parse(wire.role) {
            None => Err(ErrorView::String("Unknown role: "@ + wire.role)),
            Some(role) => Ok(
                ChatMessageView {
                    role,
                    content: match wire.content {
                        Some(text) => text,
                        None => Seq::empty(),
                    },
                    tool_calls,
                    tool_call_id: wire.tool_call_id,
                },
            ),
        },
    }
}

/// The turn that a wire message stands for. The tool calls are read first,
/// so where they cannot be read their error comes before that of the role.
pub open spec fn message_from_wire(wire: WireMessageView) -> Result<ChatMessageView, ErrorView> {
    message_from_parts(wire, tool_calls_from_wire(wire.tool_calls))
}

/// A result that holds a list of calls, with both sides as plain values.
pub open spec fn calls_view(r: Result<Vec<ToolCall>, Error>) -> Result<
    Seq<ToolCallView>,
    ErrorView,
> {
    match r {
        Ok(calls) => Ok(call_views(calls@)),
        Err(e) => Err(e@),
    }
}

/// A result that holds the tool calls of a message, with both sides as
/// plain values.
pub open spec fn tool_calls_view(r: Result<Option<Vec<ToolCall>>, Error>) -> Result<
    Option<Seq<ToolCallView>>,
    ErrorView,
> {
    match r {
        Ok(Some(calls)) => Ok(Some(call_views(calls@))),
        Ok(None) => Ok(None),
        Err(e) => Err(e@),
    }
}

// ---------------------------------------------------------------------------
// The translation
// ---------------------------------------------------------------------------

impl ChatToolCall {
    /// A call of the one type that the backend knows, `"function"`.
    pub fn function(id: String, name: String, arguments: String) -> (wire: ChatToolCall)
        ensures
            wire@ == (ChatToolCallView {
                id: id@,
                tool_type: "function"@,
                name: name@,
                arguments: arguments@,
            }),
    {
        ChatToolCall {
            id,
            tool_type: "function".to_owned(),
            function: ChatToolFunctionCall { name, arguments },
        }
    }

    /// Translates a requested invocation to its wire form.
    pub fn from_vulcan_call(call: &ToolCall) -> (wire: ChatToolCall)
        ensures
            wire@ == call_to_wire(call@),
    {
        let arguments = to_text(&call.args).unwrap();
        ChatToolCall::function(call.id.clone(), call.name.clone(), arguments)
    }

    /// The invocation that this wire call stands for, given what its
    /// arguments were read as.
    pub fn with_arguments(&self, parsed: Result<serde_json::Value, String>) -> (r: Result<
        ToolCall,
        Error,
    >)
        ensures
            result_view(r) == call_from_parts(self@, parse_view(parsed)),
    {
        match parsed {
            Ok(args) => Ok(ToolCall { id: self.id.clone(), name: self.function.name.clone(), args }),
            Err(message) => Err(Error::Provider(message)),
        }
    }

    /// Translates a wire call back. The arguments are read as JSON; where
    /// they are none, the failure is handed on as a provider error.
    pub fn to_vulcan_call(&self) -> (r: Result<ToolCall, Error>)
        ensures
            result_view(r) == call_from_wire(self@),
    {
        let parsed = parse(self.function.arguments.as_str());
        self.with_arguments(parsed)
    }
}

impl ChatToolDefinition {
    /// Translates a tool's schema to its wire form.
    pub fn from_vulcan_tool(tool: &ToolDefinition) -> (wire: ChatToolDefinition)
        ensures
            wire@ == tool_to_wire(tool@),
    {
        ChatToolDefinition {
            tool_type: "function".to_owned(),
            function: ChatToolFunctionDefinition {
                name: tool.name.clone(),
                description: Some(tool.description.clone()),
                parameters: tool.params.clone(),
            },
        }
    }
}

/// A copy of an optional string.
fn copy_of(text: &Option<String>) -> (copy: Option<String>)
    ensures
        copy == *text,
{
    match text {
        Some(s) => Some(s.clone()),
        None => None,
    }
}

/// Translates each call of a list to its wire form.
fn calls_to_wire(calls: &Vec<ToolCall>) -> (wire: Vec<ChatToolCall>)
    ensures
        wire_call_views(wire@) == call_views(calls@).map_values(
            |call: ToolCallView| call_to_wire(call),
        ),
{
    let mut wire: Vec<ChatToolCall> = Vec::new();
    let mut i: usize = 0;
    while i < calls.len()
        invariant
            i <= calls.len(),
            wire@.len() == i,
            forall|j: int| 0 <= j < i ==> (#[trigger] wire@[j])@ == call_to_wire(calls@[j]@),
        decreases calls.len() - i,
    {
        wire.push(ChatToolCall::from_vulcan_call(&calls[i]));
        i = i + 1;
    }
    wire
}

/// Once the calls up to some place cannot all be read, reading further calls
/// does not change the error.
proof fn lemma_first_failure_stays(calls: Seq<ChatToolCallView>, n: int)
    requires
        0 <= n <= calls.len(),
        calls_from_wire(calls.take(n)) is Err,
    ensures
        calls_from_wire(calls) == calls_from_wire(calls.take(n)),
    decreases calls.len() - n,
{
    if n < calls.len() {
        assert(calls.take(n + 1).drop_last() =~= calls.take(n));
        lemma_first_failure_stays(calls, n + 1);
    } else {
        assert(calls.take(n) =~= calls);
    }
}

/// Translates each wire call of a list back, and stops at the first that
/// cannot be read.
fn calls_to_vulcan(calls: &Vec<ChatToolCall>) -> (r: Result<Vec<ToolCall>, Error>)
    ensures
        calls_view(r) == calls_from_wire(wire_call_views(calls@)),
{
    let ghost all = wire_call_views(calls@);
    let mut read: Vec<ToolCall> = Vec::new();
    let mut i: usize = 0;
    assert(call_views(read@) =~= Seq::empty());
    while i < calls.len()
        invariant
            i <= calls.len(),
            all == wire_call_views(calls@),
            calls_from_wire(all.take(i as int)) == Ok::<Seq<ToolCallView>, ErrorView>(
                call_views(read@),
            ),
        decreases calls.len() - i,
    {
        assert(all.take(i + 1).drop_last() =~= all.take(i as int));
        match calls[i].to_vulcan_call() {
            Ok(call) => {
                let ghost seen = call_views(read@);
                read.push(call);
                assert(call_views(read@) =~= seen.push(call@));
            },
            Err(e) => {
                proof {
                    lemma_first_failure_stays(all, i + 1);
                }
                return Err(e);
            },
        }
        i = i + 1;
    }
    assert(all.take(i as int) =~= all);
    Ok(read)
}

impl ChatMessage {
    /// Translates a turn to its wire form.
    pub fn from_vulcan_message(message: &crate::chat::ChatMessage) -> (wire: ChatMessage)
        ensures
            wire@ == message_to_wire(message@),
    {
        let tool_calls: Option<Vec<ChatToolCall>> = match &message.tool_calls {
            Some(calls) => Some(calls_to_wire(calls)),
            None => None,
        };
        ChatMessage {
            role: message.role.to_string(),
            content: Some(message.content.clone()),
            tool_calls,
            tool_call_id: copy_of(&message.tool_call_id),
        }
    }

    /// Reads the tool calls of the message, if it has any. Fails with a
    /// provider error at the first call whose arguments are no JSON text.
    pub fn read_tool_calls(&self) -> (r: Result<Option<Vec<ToolCall>>, Error>)
        ensures
            tool_calls_view(r) == tool_calls_from_wire(self@.tool_calls),
    {
        match &self.tool_calls {
            Some(calls) => match calls_to_vulcan(calls) {
                Ok(read) => Ok(Some(read)),
                Err(e) => Err(e),
            },
            None => Ok(None),
        }
    }

    /// The turn that the message stands for, given what its tool calls were
    /// read as. Fails with the error of the tool calls if there is one, and
    /// else, where the role names no role, with an error that quotes the
    /// token.
    pub fn with_tool_calls(&self, tool_calls: Result<Option<Vec<ToolCall>>, Error>) -> (r: Result<
        crate::chat::ChatMessage,
        Error,
    >)
        ensures
            result_view(r) == message_from_parts(self@, tool_calls_view(tool_calls)),
    {
        let tool_calls = match tool_calls {
            Ok(tool_calls) => tool_calls,
            Err(e) => {
                return Err(e);
            },
        };
        let role = match ChatRole::from_string(self.role.as_str()) {
            Ok(role) => role,
            Err(e) => {
                return Err(e);
            },
        };
        let content = match &self.content {
            Some(text) => text.clone(),
            None => String::new(),
        };
        Ok(
            crate::chat::ChatMessage {
                role,
                content,
                tool_calls,
                tool_call_id: copy_of(&self.tool_call_id),
            },
        )
    }

    /// Translates a wire message back.
    ///
    /// Fails with a provider error where a tool call's arguments are no JSON
    /// text, and with an error that quotes the token where the role names no
    /// role. A message without text is read as one with empty text.
    pub fn to_vulcan_message(&self) -> (r: Result<crate::chat::ChatMessage, Error>)
        ensures
            result_view(r) == message_from_wire(self@),
    {
        let tool_calls = self.read_tool_calls();
        self.with_tool_calls(tool_calls)
    }
}

} // verus!
