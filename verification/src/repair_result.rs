//! Repairing a tool call inside a serialized generation result.
use crate::error::{AiMuxError, AiMuxErrorView};
use crate::json::{documents, lemma_model, member, put, Json, JsonView};
use crate::parse_tool_call::{
    applied, apply_tool_call_repair, argument_error, repaired_view, reply_view, tool_slice_view, RepairOutcomeView,
    ToolCallRepairReply,
};
use crate::response_messages::{replay_input, response_tool_call_input};
use crate::text::{join2, join3, same_text};
use crate::tool::{Tool, ToolCall, ToolCallView, ToolView};
use crate::wire::{call_doc, call_json, json_array, json_object, json_string};
use crate::wire_read::{get_call, read_call};
use vstd::prelude::*;
use vstd::string::*;

verus! {

/// Whether an entry is the call of an id.
pub open spec fn has_id(entry: JsonView, id: Seq<char>) -> bool {
    entry.at("tool_call_id"@).text() == Some(id)
}

/// The index of the first call of an id, or the number of calls.
pub open spec fn slot_of(calls: Seq<JsonView>, id: Seq<char>) -> int
    decreases calls.len(),
{
    if calls.len() == 0 || has_id(calls[0], id) {
        0
    } else {
        1 + slot_of(calls.drop_first(), id)
    }
}

/// Whether a call other than the one at `p` has an id.
pub open spec fn id_elsewhere(calls: Seq<JsonView>, p: int, id: Seq<char>) -> bool {
    exists|j: int| 0 <= j < calls.len() && j != p && has_id(#[trigger] calls[j], id)
}

/// A transcript part after the repair: the part of the repaired call follows
/// it, every other part stays.
pub open spec fn patched_part(part: JsonView, id: Seq<char>, call: ToolCallView) -> JsonView {
    if part is Object && part.at("type"@).text() == Some("tool_call"@) && has_id(part, id) {
        let f = put(part->Object_0, "tool_call_id"@, JsonView::String(call.tool_call_id));
        let f = put(f, "tool_name"@, JsonView::String(call.tool_name));
        JsonView::Object(put(f, "input"@, replay_input(call.input, call.invalid)))
    } else {
        part
    }
}

pub open spec fn patched_parts(parts: Seq<JsonView>, id: Seq<char>, call: ToolCallView) -> Seq<JsonView> {
    Seq::new(parts.len(), |i: int| patched_part(parts[i], id, call))
}

/// A transcript message after the repair.
pub open spec fn patched_message(message: JsonView, id: Seq<char>, call: ToolCallView) -> JsonView {
    match (message, message.at("content"@)) {
        (JsonView::Object(fields), JsonView::Array(parts)) => JsonView::Object(
            put(fields, "content"@, JsonView::Array(patched_parts(parts, id, call))),
        ),
        _ => message,
    }
}

pub open spec fn patched_messages(messages: Seq<JsonView>, id: Seq<char>, call: ToolCallView) -> Seq<JsonView> {
    Seq::new(messages.len(), |i: int| patched_message(messages[i], id, call))
}

/// A result's members after the call at `p` became `call`, its transcript with
/// it.
pub open spec fn patched_fields(
    fields: Seq<(Seq<char>, JsonView)>,
    calls: Seq<JsonView>,
    p: int,
    id: Seq<char>,
    call: ToolCallView,
) -> Seq<(Seq<char>, JsonView)> {
    let f = put(fields, "tool_calls"@, JsonView::Array(calls.update(p, call_doc(call))));
    match member(f, "response_messages"@) {
        Some(JsonView::Array(messages)) => put(
            f,
            "response_messages"@,
            JsonView::Array(patched_messages(messages, id, call)),
        ),
        _ => f,
    }
}

pub open spec fn no_calls_error() -> AiMuxErrorView {
    argument_error("result: no tool_calls array"@)
}

/// A text result after the call of an id was resolved against an answer.
/// `said` are the words in which the tool's schema is refused, should it not
/// compile.
pub open spec fn patched_target(
    target: JsonView,
    tools: Option<Seq<ToolView>>,
    id: Seq<char>,
    outcome: RepairOutcomeView,
    said: Seq<char>,
) -> Result<JsonView, AiMuxErrorView> {
    match (target, target.at("tool_calls"@)) {
        (JsonView::Object(fields), JsonView::Array(calls)) => {
            let p = slot_of(calls, id);
            if p >= calls.len() {
                Err(argument_error("result: no tool call '"@ + id + "'"@))
            } else if id_elsewhere(calls, p, id) {
                Err(argument_error("result: tool call '"@ + id + "' is not unique"@))
            } else {
                match read_call(calls[p]) {
                    Err(words) => Err(argument_error("result.tool_calls: "@ + words)),
                    Ok(original) => match applied(original, tools, outcome, said) {
                        Err(error) => Err(error),
                        Ok(call) => if id_elsewhere(calls, p, call.tool_call_id) {
                            Err(
                                argument_error(
                                    "result: tool call '"@ + call.tool_call_id + "' already exists"@,
                                ),
                            )
                        } else {
                            Ok(JsonView::Object(patched_fields(fields, calls, p, id, call)))
                        },
                    },
                }
            }
        },
        _ => Err(no_calls_error()),
    }
}

/// A result after the call of an id was resolved against an answer. An object
/// result carries its text result under `raw`.
pub open spec fn patched_result(
    result: JsonView,
    tools: Option<Seq<ToolView>>,
    id: Seq<char>,
    outcome: RepairOutcomeView,
    said: Seq<char>,
) -> Result<JsonView, AiMuxErrorView> {
    if result.field("tool_calls"@) is Some {
        patched_target(result, tools, id, outcome, said)
    } else {
        match (result, result.field("raw"@)) {
            (JsonView::Object(fields), Some(raw)) => match patched_target(raw, tools, id, outcome, said) {
                Ok(patched) => Ok(JsonView::Object(put(fields, "raw"@, patched))),
                Err(error) => Err(error),
            },
            _ => Err(no_calls_error()),
        }
    }
}

/// What patching a document came to.
pub open spec fn doc_outcome(r: Result<Json, AiMuxError>) -> Result<JsonView, AiMuxErrorView> {
    match r {
        Ok(patched) => Ok(patched@),
        Err(error) => Err(error@),
    }
}

/// Whether an answer can make `patched` of a text result.
pub open spec fn target_patches_to(
    target: JsonView,
    tools: Option<Seq<ToolView>>,
    id: Seq<char>,
    outcome: RepairOutcomeView,
    patched: Result<JsonView, AiMuxErrorView>,
) -> bool {
    exists|said: Seq<char>| patched == #[trigger] patched_target(target, tools, id, outcome, said)
}

/// Whether an answer can make `patched` of a result.
pub open spec fn patches_to(
    result: JsonView,
    tools: Option<Seq<ToolView>>,
    id: Seq<char>,
    outcome: RepairOutcomeView,
    patched: Result<JsonView, AiMuxErrorView>,
) -> bool {
    exists|said: Seq<char>| patched == #[trigger] patched_result(result, tools, id, outcome, said)
}

fn entry_has_id(entry: &Json, id: &str) -> (r: bool)
    ensures
        r == has_id(entry@, id@),
{
    match entry.get_str("tool_call_id") {
        Some(text) => same_text(text.as_str(), id),
        None => false,
    }
}

proof fn lemma_slot_is(calls: Seq<JsonView>, id: Seq<char>, p: int)
    requires
        0 <= p <= calls.len(),
        forall|k: int| 0 <= k < p ==> !has_id(#[trigger] calls[k], id),
        p < calls.len() ==> has_id(calls[p], id),
    ensures
        slot_of(calls, id) == p,
    decreases calls.len(),
{
    if p > 0 {
        assert(!has_id(calls[0], id));
        assert forall|k: int| 0 <= k < p - 1 implies !has_id(#[trigger] calls.drop_first()[k], id) by {
            assert(!has_id(calls[k + 1], id));
        }
        lemma_slot_is(calls.drop_first(), id, p - 1);
    }
}

fn find_slot(calls: &Vec<Json>, id: &str) -> (r: usize)
    ensures
        r == slot_of(documents(calls@), id@),
        r <= calls@.len(),
{
    let mut i: usize = 0;
    while i < calls.len()
        invariant
            i <= calls.len(),
            forall|k: int| 0 <= k < i ==> !has_id(#[trigger] documents(calls@)[k], id@),
        decreases calls.len() - i,
    {
        if entry_has_id(&calls[i], id) {
            proof {
                lemma_slot_is(documents(calls@), id@, i as int);
            }
            return i;
        }
        i = i + 1;
    }
    proof {
        lemma_slot_is(documents(calls@), id@, i as int);
    }
    i
}

fn has_elsewhere(calls: &Vec<Json>, p: usize, id: &str) -> (r: bool)
    ensures
        r == id_elsewhere(documents(calls@), p as int, id@),
{
    let mut i: usize = 0;
    while i < calls.len()
        invariant
            i <= calls.len(),
            forall|k: int| 0 <= k < i && k != p ==> !has_id(#[trigger] documents(calls@)[k], id@),
        decreases calls.len() - i,
    {
        if i != p && entry_has_id(&calls[i], id) {
            assert(has_id(documents(calls@)[i as int], id@));
            return true;
        }
        i = i + 1;
    }
    false
}

fn patch_part(part: &Json, id: &str, call: &ToolCall) -> (r: Json)
    ensures
        r@ == patched_part(part@, id@, call@),
{
    broadcast use lemma_model;

    let is_call = match part.get_str("type") {
        Some(text) => same_text(text.as_str(), "tool_call"),
        None => false,
    };
    match part {
        Json::Object(object) => {
            if is_call && entry_has_id(part, id) {
                json_object(
                    object.copy().with("tool_call_id", json_string(call.tool_call_id.as_str())).with(
                        "tool_name",
                        json_string(call.tool_name.as_str()),
                    ).with("input", response_tool_call_input(&call.input, call.invalid)),
                )
            } else {
                part.copy()
            }
        },
        _ => part.copy(),
    }
}

fn patch_parts(parts: &Vec<Json>, id: &str, call: &ToolCall) -> (r: Vec<Json>)
    ensures
        documents(r@) == patched_parts(documents(parts@), id@, call@),
{
    let mut out: Vec<Json> = Vec::new();
    let mut i: usize = 0;
    while i < parts.len()
        invariant
            i <= parts.len(),
            out.len() == i,
            forall|k: int| 0 <= k < i ==> (#[trigger] out@[k])@ == patched_part(parts@[k]@, id@, call@),
        decreases parts.len() - i,
    {
        out.push(patch_part(&parts[i], id, call));
        i = i + 1;
    }
    assert(documents(out@) =~= patched_parts(documents(parts@), id@, call@));
    out
}

fn patch_message(message: &Json, id: &str, call: &ToolCall) -> (r: Json)
    ensures
        r@ == patched_message(message@, id@, call@),
{
    broadcast use lemma_model;

    if let Json::Object(object) = message {
        if let Some(Json::Array(parts)) = object.get("content") {
            return json_object(object.copy().with("content", json_array(patch_parts(parts, id, call))));
        }
    }
    message.copy()
}

fn patch_messages(messages: &Vec<Json>, id: &str, call: &ToolCall) -> (r: Vec<Json>)
    ensures
        documents(r@) == patched_messages(documents(messages@), id@, call@),
{
    let mut out: Vec<Json> = Vec::new();
    let mut i: usize = 0;
    while i < messages.len()
        invariant
            i <= messages.len(),
            out.len() == i,
            forall|k: int| 0 <= k < i ==> (#[trigger] out@[k])@ == patched_message(messages@[k]@, id@, call@),
        decreases messages.len() - i,
    {
        out.push(patch_message(&messages[i], id, call));
        i = i + 1;
    }
    assert(documents(out@) =~= patched_messages(documents(messages@), id@, call@));
    out
}

fn replace_call(calls: &Vec<Json>, p: usize, call: &ToolCall) -> (r: Vec<Json>)
    requires
        p < calls@.len(),
    ensures
        documents(r@) == documents(calls@).update(p as int, call_doc(call@)),
{
    let mut out = crate::json::copy_items(calls);
    let ghost copies = documents(out@);
    assert(copies.len() == out@.len());
    out.set(p, call_json(call));
    assert forall|k: int| 0 <= k < out@.len() implies #[trigger] documents(out@)[k] == documents(
        calls@,
    ).update(p as int, call_doc(call@))[k] by {
        if k != p {
            assert(copies[k] == documents(calls@)[k]);
        }
    }
    assert(documents(out@) =~= documents(calls@).update(p as int, call_doc(call@)));
    out
}

fn no_calls() -> (r: AiMuxError)
    ensures
        r@ == no_calls_error(),
{
    AiMuxError::InvalidArgument("result: no tool_calls array".to_owned())
}

fn patch_target(
    target: &Json,
    tools: Option<&[Tool]>,
    id: &str,
    reply: ToolCallRepairReply,
) -> (r: Result<Json, AiMuxError>)
    ensures
        target_patches_to(
            target@,
            tool_slice_view(tools),
            id@,
            reply_view(reply),
            doc_outcome(r),
        ),
{
    broadcast use lemma_model;

    let ghost outcome = reply_view(reply);
    let ghost told = patched_target(target@, tool_slice_view(tools), id@, outcome, seq![]);

    let object = match target {
        Json::Object(object) => object,
        _ => {
            return Err(no_calls());
        },
    };
    let calls = match object.get("tool_calls") {
        Some(Json::Array(calls)) => calls,
        _ => {
            return Err(no_calls());
        },
    };
    let p: usize = find_slot(calls, id);
    if p >= calls.len() {
        return Err(AiMuxError::InvalidArgument(join3("result: no tool call '", id, "'")));
    }
    if has_elsewhere(calls, p, id) {
        return Err(AiMuxError::InvalidArgument(join3("result: tool call '", id, "' is not unique")));
    }
    let original = match get_call(&calls[p]) {
        Ok(call) => call,
        Err(words) => {
            return Err(AiMuxError::InvalidArgument(join2("result.tool_calls: ", words.as_str())));
        },
    };
    let applied_to = apply_tool_call_repair(&original, tools, reply);
    proof {
        let said = choose|said: Seq<char>|
            repaired_view(applied_to) == #[trigger] applied(original@, tool_slice_view(tools), outcome, said);
        let told = patched_target(target@, tool_slice_view(tools), id@, outcome, said);
    }
    let call = match applied_to {
        Ok(call) => call,
        Err(error) => {
            return Err(error);
        },
    };
    if has_elsewhere(calls, p, call.tool_call_id.as_str()) {
        return Err(
            AiMuxError::InvalidArgument(
                join3("result: tool call '", call.tool_call_id.as_str(), "' already exists"),
            ),
        );
    }
    let patched = object.copy().with("tool_calls", json_array(replace_call(calls, p, &call)));
    let transcript: Option<Vec<Json>> = match patched.get("response_messages") {
        Some(Json::Array(messages)) => Some(patch_messages(messages, id, &call)),
        _ => None,
    };
    match transcript {
        Some(messages) => Ok(json_object(patched.with("response_messages", json_array(messages)))),
        None => Ok(json_object(patched)),
    }
}

/// Words under which a text result was patched as it was.
spec fn said_of(
    target: JsonView,
    tools: Option<Seq<ToolView>>,
    id: Seq<char>,
    outcome: RepairOutcomeView,
    r: Result<Json, AiMuxError>,
) -> Seq<char> {
    choose|said: Seq<char>| doc_outcome(r) == #[trigger] patched_target(target, tools, id, outcome, said)
}

/// Apply a repair reply to a serialized text result or object result.
///
/// Both `tool_calls` and the transcript parts of the call are rewritten; a
/// malformed primitive input is not replayed as a prompt input. An object
/// result is recognised by its nested `raw` result; everything else of the
/// document stays.
pub fn apply_tool_call_repair_to_result(
    result: &Json,
    tools: Option<&[Tool]>,
    tool_call_id: &str,
    reply: ToolCallRepairReply,
) -> (r: Result<Json, AiMuxError>)
    ensures
        patches_to(
            result@,
            tool_slice_view(tools),
            tool_call_id@,
            reply_view(reply),
            doc_outcome(r),
        ),
{
    broadcast use lemma_model;

    let ghost outcome = reply_view(reply);
    let ghost told = patched_result(result@, tool_slice_view(tools), tool_call_id@, outcome, seq![]);
    if result.get("tool_calls").is_some() {
        let patched = patch_target(result, tools, tool_call_id, reply);
        proof {
            let said = said_of(result@, tool_slice_view(tools), tool_call_id@, outcome, patched);
            let told = patched_result(result@, tool_slice_view(tools), tool_call_id@, outcome, said);
        }
        return patched;
    }
    let object = match result {
        Json::Object(object) => object,
        _ => {
            return Err(no_calls());
        },
    };
    match object.get("raw") {
        Some(raw) => {
            let patched = patch_target(raw, tools, tool_call_id, reply);
            proof {
                let said = said_of(raw@, tool_slice_view(tools), tool_call_id@, outcome, patched);
                let told = patched_result(result@, tool_slice_view(tools), tool_call_id@, outcome, said);
            }
            match patched {
                Ok(patched) => Ok(json_object(object.copy().with("raw", patched))),
                Err(error) => Err(error),
            }
        },
        None => Err(no_calls()),
    }
}

} // verus!
