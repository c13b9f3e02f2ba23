//! Provider-neutral conversation model.

pub mod providers;

use vstd::prelude::*;
use crate::error::{result_view, Error, ErrorView};
use crate::text::{join, same};
use crate::tools::{call_views, ToolCall, ToolCallView};

verus! {

/// Who a turn of a conversation is attributed to.
#[derive(Clone, Copy, Debug, PartialEq, Eq, Structural)]
pub enum ChatRole {
    User,
    Assistant,
    System,
    Tool,
}

impl ChatRole {
    /// The lowercase token that stands for this role on the wire.
    pub open spec fn token(self) -> Seq<char> {
        match self {
            ChatRole::User => "user"@,
            ChatRole::Assistant => "assistant"@,
            ChatRole::System => "system"@,
            ChatRole::Tool => "tool"@,
        }
    }

    /// The role that a wire token stands for, if any.
    pub open spec fn parse(token: Seq<char>) -> Option<ChatRole> {
        if token == "user"@ {
            Some(ChatRole::User)
        } else if token == "assistant"@ {
            Some(ChatRole::Assistant)
        } else if token == "system"@ {
            Some(ChatRole::System)
        } else if token == "tool"@ {
            Some(ChatRole::Tool)
        } else {
            None
        }
    }

    /// Writes the role as its wire token.
    pub fn to_string(&self) -> (token: String)
        ensures
            token@ == self.token(),
    {
        match self {
            ChatRole::User => "user".to_owned(),
            ChatRole::Assistant => "assistant".to_owned(),
            ChatRole::System => "system".to_owned(),
            ChatRole::Tool => "tool".to_owned(),
        }
    }

    /// Reads a role from its wire token. Any other text is refused, with
    /// an error that quotes it.
    pub fn from_string(role: &str) -> (r: Result<ChatRole, Error>)
        ensures
            match ChatRole::parse(role@) {
                Some(found) => r == Ok::<ChatRole, Error>(found),
                None => r is Err && r->Err_0@ == ErrorView::String("Unknown role: "@ + role@),
            },
    {
        if same(role, "user") {
            Ok(ChatRole::User)
        } else if same(role, "assistant") {
            Ok(ChatRole::Assistant)
        } else if same(role, "system") {
            Ok(ChatRole::System)
        } else if same(role, "tool") {
            Ok(ChatRole::Tool)
        } else {
            Err(Error::String(join("Unknown role: ", role)))
        }
    }
}

/// Reading back the token that a role is written as gives that role.
pub proof fn lemma_role_round_trip(role: ChatRole)
    ensures
        ChatRole::parse(role.token()) == Some(role),
{
    reveal_strlit("user");
    reveal_strlit("assistant");
    reveal_strlit("system");
    reveal_strlit("tool");
    assert("user"@.len() == 4 && "assistant"@.len() == 9 && "system"@.len() == 6);
    assert("user"@[0] == 'u' && "tool"@[0] == 't');
}

/// A token is read as a role only if it is that role's own token.
pub proof fn lemma_role_parse_is_exact(token: Seq<char>, role: ChatRole)
    ensures
        ChatRole::parse(token) == Some(role) <==> token == role.token(),
{
    lemma_role_round_trip(role);
}

/// One turn of a conversation.
#[derive(Clone, Debug)]
pub struct ChatMessage {
    /// Who the turn is attributed to.
    pub role: ChatRole,
    /// The text of the turn; empty where an assistant only asks for tools.
    pub content: String,
    /// The tool invocations that an assistant asks for, in order.
    pub tool_calls: Option<Vec<ToolCall>>,
    /// On a tool's turn, the id of the call that it answers.
    pub tool_call_id: Option<String>,
}

/// A `ChatMessage` as plain values.
pub struct ChatMessageView {
    pub role: ChatRole,
    pub content: Seq<char>,
    pub tool_calls: Option<Seq<ToolCallView>>,
    pub tool_call_id: Option<Seq<char>>,
}

impl ChatMessageView {
    /// A turn that carries text and nothing else.
    pub open spec fn plain(role: ChatRole, content: Seq<char>) -> ChatMessageView {
        ChatMessageView { role, content, tool_calls: None, tool_call_id: None }
    }

    /// What the invariant of a conversation asks of one turn: a tool's turn
    /// names the call that it answers.
    pub open spec fn well_formed(self) -> bool {
        self.role == ChatRole::Tool ==> self.tool_call_id is Some
    }

    /// Whether the turn asks for at least one tool to be run.
    pub open spec fn asks_for_tools(self) -> bool {
        self.tool_calls matches Some(calls) && calls.len() > 0
    }

    /// The turn as it is shown: the role's token in square brackets, then
    /// the text on a line of its own.
    pub open spec fn text(self) -> Seq<char> {
        "["@ + self.role.token() + "]\n"@ + self.content
    }
}

impl View for ChatMessage {
    type V = ChatMessageView;

    open spec fn view(&self) -> ChatMessageView {
        ChatMessageView {
            role: self.role,
            content: self.content@,
            tool_calls: match self.tool_calls {
                Some(calls) => Some(call_views(calls@)),
                None => None,
            },
            tool_call_id: match self.tool_call_id {
                Some(id) => Some(id@),
                None => None,
            },
        }
    }
}

/// The turns of a list, each as plain values.
pub open spec fn message_views(messages: Seq<ChatMessage>) -> Seq<ChatMessageView> {
    messages.map_values(|message: ChatMessage| message@)
}

impl ChatMessage {
    /// A turn of the user.
    pub fn user(content: String) -> (m: ChatMessage)
        ensures
            m@ == ChatMessageView::plain(ChatRole::User, content@),
            m@.well_formed(),
    {
        ChatMessage { role: ChatRole::User, content, tool_calls: None, tool_call_id: None }
    }

    /// A turn of the assistant that carries text only.
    pub fn assistant(content: String) -> (m: ChatMessage)
        ensures
            m@ == ChatMessageView::plain(ChatRole::Assistant, content@),
            m@.well_formed(),
    {
        ChatMessage { role: ChatRole::Assistant, content, tool_calls: None, tool_call_id: None }
    }

    /// A turn that instructs the model.
    pub fn system(content: String) -> (m: ChatMessage)
        ensures
            m@ == ChatMessageView::plain(ChatRole::System, content@),
            m@.well_formed(),
    {
        ChatMessage { role: ChatRole::System, content, tool_calls: None, tool_call_id: None }
    }

    /// The result of a tool, sent back under the id of the call that asked
    /// for it.
    pub fn tool(id: String, content: String) -> (m: ChatMessage)
        ensures
            m@ == (ChatMessageView {
                role: ChatRole::Tool,
                content: content@,
                tool_calls: None,
                tool_call_id: Some(id@),
            }),
            m@.well_formed(),
    {
        ChatMessage { role: ChatRole::Tool, content, tool_calls: None, tool_call_id: Some(id) }
    }

    /// The turn that answers the call `id` with what running its tool gave:
    /// the tool's text as a tool's turn, or the tool's failure as a tool
    /// error with the text of the failure.
    pub fn tool_result(id: String, outcome: Result<String, String>) -> (r: Result<
        ChatMessage,
        Error,
    >)
        ensures
            result_view(r) == match outcome {
                Ok(content) => Ok(
                    ChatMessageView {
                        role: ChatRole::Tool,
                        content: content@,
                        tool_calls: None,
                        tool_call_id: Some(id@),
                    },
                ),
                Err(failure) => Err(ErrorView::Tool(failure@)),
            },
    {
        match outcome {
            Ok(content) => Ok(ChatMessage::tool(id, content)),
            Err(failure) => Err(Error::Tool(failure)),
        }
    }

    /// Whether the turn is one that a conversation may hold: a tool's turn
    /// names the call that it answers.
    pub fn is_well_formed(&self) -> (well_formed: bool)
        ensures
            well_formed == self@.well_formed(),
    {
        match self.role {
            ChatRole::Tool => self.tool_call_id.is_some(),
            _ => true,
        }
    }

    /// Whether the turn asks for at least one tool to be run.
    pub fn asks_for_tools(&self) -> (asks: bool)
        ensures
            asks == self@.asks_for_tools(),
    {
        match &self.tool_calls {
            Some(calls) => calls.len() > 0,
            None => false,
        }
    }

    /// Writes the turn as it is shown.
    pub fn to_string(&self) -> (shown: String)
        ensures
            shown@ == self@.text(),
    {
        let role = self.role.to_string();
        let mut shown = join("[", role.as_str());
        shown.append("]\n");
        shown.append(self.content.as_str());
        shown
    }
}

/// Where a caller stands who lets the model use tools.
///
/// The library sends one request per call and keeps no state between calls.
/// A caller that runs the tools a reply asks for, and sends their results
/// back, moves between these two states until a reply asks for no tool.
#[derive(Clone, Copy, Debug, PartialEq, Eq, Structural)]
pub enum LoopState {
    /// A request is out; the model's reply is awaited.
    AwaitingModel,
    /// The reply asked for tools; their results are awaited.
    AwaitingToolResult,
}

impl LoopState {
    /// The state after a message arrived, or `None` where the exchange is
    /// over.
    ///
    /// While the model is awaited, a reply that asks for tools leads to
    /// awaiting their results, and a reply that asks for none ends the
    /// exchange. While results are awaited, the message is a tool's result,
    /// and with it the model is asked again.
    pub open spec fn after(self, message: ChatMessageView) -> Option<LoopState> {
        match self {
            LoopState::AwaitingModel => if message.asks_for_tools() {
                Some(LoopState::AwaitingToolResult)
            } else {
                None
            },
            LoopState::AwaitingToolResult => Some(LoopState::AwaitingModel),
        }
    }

    /// Moves on from this state with a message that arrived.
    pub fn on_message(self, message: &ChatMessage) -> (next: Option<LoopState>)
        ensures
            next == self.after(message@),
    {
        match self {
            LoopState::AwaitingModel => {
                if message.asks_for_tools() {
                    Some(LoopState::AwaitingToolResult)
                } else {
                    None
                }
            },
            LoopState::AwaitingToolResult => Some(LoopState::AwaitingModel),
        }
    }
}

} // verus!
