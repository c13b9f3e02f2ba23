//! What holds of the translation between the provider-neutral model and
//! the wire format, whatever the values.

use vstd::prelude::*;
use crate::chat::{ChatMessageView, ChatRole};
use crate::error::ErrorView;
use crate::json::{json_parse, json_text};
use crate::openai::models::{
    call_from_wire, call_to_wire, calls_from_wire, message_from_parts, message_from_wire,
    message_to_wire, ChatToolCallView, WireMessageView,
};
use crate::tools::ToolCallView;

verus! {

/// A list of wire calls can be read exactly when each of its calls can, and
/// then the calls come out one for one and in order.
pub proof fn lemma_calls_read_one_for_one(calls: Seq<ChatToolCallView>)
    ensures
        calls_from_wire(calls) is Ok <==> forall|i: int|
            0 <= i < calls.len() ==> (#[trigger] call_from_wire(calls[i])) is Ok,
        calls_from_wire(calls) matches Ok(read) ==> read.len() == calls.len() && forall|i: int|
            0 <= i < calls.len() ==> call_from_wire(calls[i]) == Ok::<ToolCallView, ErrorView>(
                #[trigger] read[i],
            ),
    decreases calls.len(),
{
    if calls.len() > 0 {
        let front = calls.drop_last();
        lemma_calls_read_one_for_one(front);
        if calls_from_wire(calls) is Ok {
            assert forall|i: int| 0 <= i < calls.len() implies (#[trigger] call_from_wire(
                calls[i],
            )) is Ok by {
                if i < front.len() {
                    assert(call_from_wire(front[i]) is Ok);
                }
            }
        }
    }
}

/// Where a list of wire calls cannot be read, the error is that of its first
/// call that cannot be read. The place of that call is returned.
pub proof fn lemma_calls_fail_at_first(calls: Seq<ChatToolCallView>) -> (at: int)
    ensures
        calls_from_wire(calls) is Err ==> ({
            &&& 0 <= at < calls.len()
            &&& forall|j: int| 0 <= j < at ==> (#[trigger] call_from_wire(calls[j])) is Ok
            &&& call_from_wire(calls[at]) is Err
            &&& calls_from_wire(calls)->Err_0 == call_from_wire(calls[at])->Err_0
        }),
    decreases calls.len(),
{
    let front = calls.drop_last();
    if calls_from_wire(calls) is Ok {
        0
    } else if calls_from_wire(front) is Err {
        let at = lemma_calls_fail_at_first(front);
        assert forall|j: int| 0 <= j < at implies (#[trigger] call_from_wire(calls[j])) is Ok by {
            assert(call_from_wire(front[j]) is Ok);
        }
        at
    } else {
        lemma_calls_read_one_for_one(front);
        assert forall|j: int| 0 <= j < front.len() implies (#[trigger] call_from_wire(
            calls[j],
        )) is Ok by {
            assert(call_from_wire(front[j]) is Ok);
        }
        calls.len() - 1
    }
}

/// A requested invocation survives the way to the wire and back, provided
/// that its arguments survive being written as JSON text and read again.
pub proof fn lemma_call_round_trip(call: ToolCallView)
    ensures
        json_parse(json_text(call.args)) == Ok::<serde_json::Value, Seq<char>>(call.args)
            ==> call_from_wire(call_to_wire(call)) == Ok::<ToolCallView, ErrorView>(call),
{
}

/// Whether the arguments of every call of a list survive being written as
/// JSON text and read again.
pub open spec fn arguments_survive(calls: Seq<ToolCallView>) -> bool {
    forall|i: int|
        0 <= i < calls.len() ==> json_parse(json_text((#[trigger] calls[i]).args)) == Ok::<
            serde_json::Value,
            Seq<char>,
        >(calls[i].args)
}

/// A list of invocations survives the way to the wire and back, provided
/// that the arguments of each do.
pub proof fn lemma_calls_round_trip(calls: Seq<ToolCallView>)
    ensures
        arguments_survive(calls) ==> calls_from_wire(
            calls.map_values(|call: ToolCallView| call_to_wire(call)),
        ) == Ok::<Seq<ToolCallView>, ErrorView>(calls),
    decreases calls.len(),
{
    let wire = calls.map_values(|call: ToolCallView| call_to_wire(call));
    if !arguments_survive(calls) {
    } else if calls.len() == 0 {
        assert(calls =~= Seq::empty());
    } else {
        let front = calls.drop_last();
        assert(arguments_survive(front)) by {
            assert forall|i: int| 0 <= i < front.len() implies json_parse(
                json_text((#[trigger] front[i]).args),
            ) == Ok::<serde_json::Value, Seq<char>>(front[i].args) by {
            }
        }
        lemma_calls_round_trip(front);
        assert(wire.drop_last() =~= front.map_values(|call: ToolCallView| call_to_wire(call)));
        lemma_call_round_trip(calls.last());
        assert(front.push(calls.last()) =~= calls);
    }
}

/// A turn survives the way to the wire and back, provided that the
/// arguments of each of its tool calls do.
pub proof fn lemma_message_round_trip(message: ChatMessageView)
    ensures
        (message.tool_calls matches Some(calls) ==> arguments_survive(calls))
            ==> message_from_wire(message_to_wire(message)) == Ok::<ChatMessageView, ErrorView>(
            message,
        ),
{
    crate::chat::lemma_role_round_trip(message.role);
    if let Some(calls) = message.tool_calls {
        lemma_calls_round_trip(calls);
    }
}

/// A turn without tool calls has none on the wire either, and one without a
/// call id has none there; the wire form adds neither field.
pub proof fn lemma_absent_fields_stay_absent(message: ChatMessageView)
    ensures
        message_to_wire(message).tool_calls is None <==> message.tool_calls is None,
        message_to_wire(message).tool_call_id is None <==> message.tool_call_id is None,
{
}

/// A wire message can be read exactly when its role token names a role and
/// each of its tool calls, if it has any, can be read.
pub proof fn lemma_message_is_read_when(wire: WireMessageView)
    ensures
        message_from_wire(wire) is Ok <==> ChatRole::parse(wire.role) is Some && (
        wire.tool_calls matches Some(calls) ==> forall|i: int|
            0 <= i < calls.len() ==> (#[trigger] call_from_wire(calls[i])) is Ok),
{
    if let Some(calls) = wire.tool_calls {
        lemma_calls_read_one_for_one(calls);
    }
}

/// That a wire message has no text is no error: whether it can be read does
/// not depend on its text, and one without text that is read stands for a
/// turn with empty text and with the tool calls as they were read.
pub proof fn lemma_missing_content_reads_empty(
    wire: WireMessageView,
    tool_calls: Option<Seq<ToolCallView>>,
)
    requires
        wire.content is None,
        ChatRole::parse(wire.role) is Some,
    ensures
        message_from_parts(wire, Ok(tool_calls)) is Ok,
        message_from_parts(wire, Ok(tool_calls))->Ok_0.content.len() == 0,
        message_from_parts(wire, Ok(tool_calls))->Ok_0.tool_calls == tool_calls,
        message_from_wire(wire) is Ok <==> message_from_wire(
            WireMessageView { content: Some(Seq::empty()), ..wire },
        ) is Ok,
        message_from_wire(wire) matches Ok(message) ==> message.content.len() == 0,
{
}

/// A wire message whose role token names no role is refused, never read as
/// some role. Where its tool calls can be read, the error quotes the token.
pub proof fn lemma_unknown_role_is_refused(
    wire: WireMessageView,
    tool_calls: Result<Option<Seq<ToolCallView>>, ErrorView>,
)
    requires
        ChatRole::parse(wire.role) is None,
    ensures
        message_from_wire(wire) is Err,
        message_from_parts(wire, tool_calls) is Err,
        tool_calls is Ok ==> message_from_parts(wire, tool_calls) == Err::<
            ChatMessageView,
            ErrorView,
        >(ErrorView::String("Unknown role: "@ + wire.role)),
{
}

} // verus!
