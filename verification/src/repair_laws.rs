//! What holds of tool calls and their repair as a whole.
use crate::error::{AiMuxError, AiMuxErrorView};
use crate::json::{lemma_member_put, lemma_position, member, put, JsonView};
use crate::json_text::{schema_compiles, schema_outcome};
use crate::message::ModelMessageView;
use crate::parse_tool_call::{
    answer_view, answered, applied, applies_to, carried_text, context_of, ends_in, find_tool, first_step, forbidden,
    invalid_call, parsed_input, parses_to, repair_context, repair_error, resolved, resolves_to, validated,
    RepairOutcomeView, StepView, ToolCallRepair, ToolCallRepairContext,
};
use crate::repair_result::{
    has_id, id_elsewhere, patched_messages, patched_part, patched_result, patched_target, slot_of,
};
use crate::response_messages::replay_input;
use crate::tool::{RawToolCall, RawToolCallView, ToolCallView, ToolView};
use crate::wire::{call_doc, no_fields};
use crate::wire_read::read_call;
use vstd::prelude::*;

verus! {

/// A call fails with the provider's own argument text in its error.
pub proof fn law_a_failure_carries_the_argument_text(call: RawToolCallView, tools: Seq<ToolView>, said: Seq<char>)
    ensures
        validated(call, tools, said) matches Err(error) ==> carried_text(error) == Some(call.input),
{
}

/// A host that repairs a call from data gets what a callback with the
/// equivalent answer would have led to: for one failure, one answer, and one
/// wording of a refused schema on both sides.
pub proof fn law_host_and_callback_agree(
    call: RawToolCallView,
    tools: Seq<ToolView>,
    failed_with: Seq<char>,
    outcome: RepairOutcomeView,
    said: Seq<char>,
)
    ensures
        validated(call, tools, failed_with) matches Err(error) ==> applied(
            invalid_call(call, error),
            Some(tools),
            outcome,
            said,
        ) == Ok::<ToolCallView, AiMuxErrorView>(resolved(call, error, tools, outcome, said)),
{
    if let Err(error) = validated(call, tools, failed_with) {
        law_a_failure_carries_the_argument_text(call, tools, failed_with);
    }
}

/// Whatever a callback made of a failed call, a host reaches from the same
/// failure kept without a callback, by the callback's own answer.
pub proof fn law_a_callback_answers_as_a_host<
    F: Fn(ToolCallRepairContext) -> Result<Option<RawToolCall>, AiMuxError>,
>(
    call: RawToolCallView,
    tools: Seq<ToolView>,
    said: Seq<char>,
    repair: &ToolCallRepair<F>,
    messages: Seq<ModelMessageView>,
    instructions: Option<Seq<char>>,
    by_callback: ToolCallView,
    unrepaired: ToolCallView,
)
    requires
        validated(call, tools, said) is Err,
        ends_in(
            first_step(call, Some(tools), said),
            Some(tools),
            Some(repair),
            messages,
            instructions,
            by_callback,
        ),
        ends_in::<F>(first_step(call, Some(tools), said), Some(tools), None, messages, instructions, unrepaired),
    ensures
        exists|asked: ToolCallRepairContext, answer: Result<Option<RawToolCall>, AiMuxError>|
            {
                &&& #[trigger] call_ensures(repair.function(), (asked,), answer)
                &&& applies_to(unrepaired, Some(tools), answer_view(answer), Ok(by_callback))
            },
{
    let error = validated(call, tools, said)->Err_0;
    assert(answered(
        *repair,
        repair_context(call, error, tools, messages, instructions),
        call,
        error,
        tools,
        by_callback,
    ));
    let (asked, answer) = choose|asked: ToolCallRepairContext, answer: Result<Option<RawToolCall>, AiMuxError>|
        {
            &&& asked@ == repair_context(call, error, tools, messages, instructions)
            &&& #[trigger] call_ensures(repair.function(), (asked,), answer)
            &&& resolves_to(call, error, tools, answer_view(answer), by_callback)
        };
    let outcome = answer_view(answer);
    let later = choose|later: Seq<char>| by_callback == #[trigger] resolved(call, error, tools, outcome, later);
    law_host_and_callback_agree(call, tools, said, outcome, later);
    assert(applied(unrepaired, Some(tools), outcome, later) == Ok::<ToolCallView, AiMuxErrorView>(by_callback));
}

/// Whether the words in which a schema is refused play no part when a call is
/// validated: it does not get as far as a schema, or the schema compiles.
pub open spec fn settled_without_words(call: RawToolCallView, tools: Seq<ToolView>) -> bool {
    (find_tool(tools, call.tool_name), parsed_input(call)) matches (
        Some(ToolView::Function { input_schema, .. }),
        Ok(_),
    ) ==> schema_compiles(input_schema)
}

proof fn lemma_settled_without_words(call: RawToolCallView, tools: Seq<ToolView>, a: Seq<char>, b: Seq<char>)
    requires
        settled_without_words(call, tools),
    ensures
        validated(call, tools, a) == validated(call, tools, b),
{
}

/// A host that answers as a callback does comes to the callback's result,
/// though the call was parsed for each of them by itself: whatever the two
/// runs and the reply come to, they come to the same. Left out are the calls
/// and the replacements whose schema does not compile, of which two runs may
/// say why in other words.
pub proof fn law_both_paths_come_to_the_same<
    F: Fn(ToolCallRepairContext) -> Result<Option<RawToolCall>, AiMuxError>,
>(
    call: RawToolCallView,
    tools: Seq<ToolView>,
    repair: &ToolCallRepair<F>,
    messages: Seq<ModelMessageView>,
    instructions: Option<Seq<char>>,
    outcome: RepairOutcomeView,
    unrepaired: ToolCallView,
    by_callback: ToolCallView,
    by_host: Result<ToolCallView, AiMuxErrorView>,
)
    requires
        settled_without_words(call, tools),
        outcome matches RepairOutcomeView::Repaired(repaired) ==> settled_without_words(repaired, tools),
        forall|asked: ToolCallRepairContext, answer: Result<Option<RawToolCall>, AiMuxError>|
            #[trigger] call_ensures(repair.function(), (asked,), answer) ==> answer_view(answer) == outcome,
        parses_to::<F>(call, Some(tools), None, messages, instructions, unrepaired),
        unrepaired.invalid == Some(true),
        parses_to(call, Some(tools), Some(repair), messages, instructions, by_callback),
        applies_to(unrepaired, Some(tools), outcome, by_host),
    ensures
        by_host == Ok::<ToolCallView, AiMuxErrorView>(by_callback),
{
    let alone = choose|said: Seq<char>|
        ends_in::<F>(
            #[trigger] first_step(call, Some(tools), said),
            Some(tools),
            None,
            messages,
            instructions,
            unrepaired,
        );
    let asking = choose|said: Seq<char>|
        ends_in(
            #[trigger] first_step(call, Some(tools), said),
            Some(tools),
            Some(repair),
            messages,
            instructions,
            by_callback,
        );
    lemma_settled_without_words(call, tools, alone, asking);
    let error = validated(call, tools, alone)->Err_0;
    assert(answered(
        *repair,
        repair_context(call, error, tools, messages, instructions),
        call,
        error,
        tools,
        by_callback,
    ));
    let (asked, answer) = choose|asked: ToolCallRepairContext, answer: Result<Option<RawToolCall>, AiMuxError>|
        {
            &&& asked@ == repair_context(call, error, tools, messages, instructions)
            &&& #[trigger] call_ensures(repair.function(), (asked,), answer)
            &&& resolves_to(call, error, tools, answer_view(answer), by_callback)
        };
    let there = choose|said: Seq<char>| by_callback == #[trigger] resolved(call, error, tools, outcome, said);
    let here = choose|said: Seq<char>| by_host == #[trigger] applied(unrepaired, Some(tools), outcome, said);
    law_host_and_callback_agree(call, tools, alone, outcome, here);
    if let RepairOutcomeView::Repaired(repaired) = outcome {
        lemma_settled_without_words(repaired, tools, here, there);
    }
}

/// Whatever made a call invalid, a reply that changes nothing gives the very
/// call back, and a reply that failed gives it back with its own error as the
/// original one and the reply's as the cause.
pub proof fn law_an_unrepaired_call_keeps_its_error<
    F: Fn(ToolCallRepairContext) -> Result<Option<RawToolCall>, AiMuxError>,
>(
    call: RawToolCallView,
    tools: Seq<ToolView>,
    messages: Seq<ModelMessageView>,
    instructions: Option<Seq<char>>,
    unrepaired: ToolCallView,
    message: Seq<char>,
    by_host: Result<ToolCallView, AiMuxErrorView>,
)
    requires
        parses_to::<F>(call, Some(tools), None, messages, instructions, unrepaired),
        unrepaired.invalid == Some(true),
    ensures
        unrepaired.error is Some,
        applies_to(unrepaired, Some(tools), RepairOutcomeView::Unchanged, by_host) ==> by_host == Ok::<
            ToolCallView,
            AiMuxErrorView,
        >(unrepaired),
        applies_to(
            unrepaired,
            Some(tools),
            RepairOutcomeView::Failed(AiMuxErrorView::Other(message)),
            by_host,
        ) ==> by_host == Ok::<ToolCallView, AiMuxErrorView>(
            ToolCallView {
                error: Some(repair_error(unrepaired.error->0, AiMuxErrorView::Other(message))),
                ..unrepaired
            },
        ),
{
    let said = choose|said: Seq<char>|
        ends_in::<F>(
            #[trigger] first_step(call, Some(tools), said),
            Some(tools),
            None,
            messages,
            instructions,
            unrepaired,
        );
    law_a_failure_carries_the_argument_text(call, tools, said);
}

/// A reply that changes nothing gives the same call back.
pub proof fn law_unchanged_keeps_the_call(
    call: RawToolCallView,
    tools: Seq<ToolView>,
    failed_with: Seq<char>,
    said: Seq<char>,
)
    ensures
        validated(call, tools, failed_with) matches Err(error) ==> applied(
            invalid_call(call, error),
            Some(tools),
            RepairOutcomeView::Unchanged,
            said,
        ) == Ok::<ToolCallView, AiMuxErrorView>(invalid_call(call, error)),
{
    law_host_and_callback_agree(call, tools, failed_with, RepairOutcomeView::Unchanged, said);
}

/// A call whose repair failed can be repaired again, from the same text; the
/// earlier failure stays the original error of the next.
pub proof fn law_a_failed_repair_can_be_repeated(
    call: RawToolCallView,
    tools: Seq<ToolView>,
    failed_with: Seq<char>,
    first: RepairOutcomeView,
    first_said: Seq<char>,
    second: RepairOutcomeView,
    second_said: Seq<char>,
)
    requires
        validated(call, tools, failed_with) is Err,
        resolved(call, validated(call, tools, failed_with)->Err_0, tools, first, first_said).invalid == Some(true),
    ensures
        ({
            let failed = resolved(call, validated(call, tools, failed_with)->Err_0, tools, first, first_said);
            &&& failed.error is Some
            &&& applied(failed, Some(tools), second, second_said) == Ok::<ToolCallView, AiMuxErrorView>(
                resolved(call, failed.error->0, tools, second, second_said),
            )
        }),
{
    law_a_failure_carries_the_argument_text(call, tools, failed_with);
    reveal_with_fuel(carried_text, 2);
}

/// Without a tool set nothing is repaired: a callback is not asked, a host is
/// offered no context, and no reply applies.
pub proof fn law_no_tools_no_repair<F: Fn(ToolCallRepairContext) -> Result<Option<RawToolCall>, AiMuxError>>(
    call: RawToolCallView,
    repair: Option<&ToolCallRepair<F>>,
    messages: Seq<ModelMessageView>,
    instructions: Option<Seq<char>>,
    result: ToolCallView,
    outcome: RepairOutcomeView,
    said: Seq<char>,
)
    requires
        parses_to(call, None, repair, messages, instructions, result),
    ensures
        parses_to::<F>(call, None, None, messages, instructions, result),
        context_of(result, None, messages, instructions) == Ok::<Option<JsonView>, AiMuxErrorView>(None),
        applied(result, None, outcome, said) is Err,
{
    let step = first_step(call, None, said);
    assert(ends_in::<F>(step, None, None, messages, instructions, result));
}

/// A call that passes is the same with and without a callback.
pub proof fn law_a_valid_call_is_not_repaired<
    F: Fn(ToolCallRepairContext) -> Result<Option<RawToolCall>, AiMuxError>,
>(
    call: RawToolCallView,
    tools: Seq<ToolView>,
    said: Seq<char>,
    repair: Option<&ToolCallRepair<F>>,
    messages: Seq<ModelMessageView>,
    instructions: Option<Seq<char>>,
    result: ToolCallView,
)
    requires
        validated(call, tools, said) is Ok,
        parses_to(call, Some(tools), repair, messages, instructions, result),
    ensures
        parses_to::<F>(call, Some(tools), None, messages, instructions, result),
        result.invalid is None,
{
    let step = first_step(call, Some(tools), said);
    assert(ends_in::<F>(step, Some(tools), None, messages, instructions, result));
}

/// A call is either valid and says nothing of an error, or marked invalid,
/// dynamic, and carries its error.
pub open spec fn settled(call: ToolCallView) -> bool {
    if call.invalid == Some(true) {
        call.error is Some && call.dynamic == Some(true)
    } else {
        call.invalid is None && call.error is None
    }
}

/// A valid call's input holds no forbidden prototype property; an empty
/// object stands for a blank text.
proof fn lemma_accepted_input(call: RawToolCallView)
    ensures
        parsed_input(call) matches Ok(input) ==> !forbidden(input),
{
    lemma_position(no_fields(), "__proto__"@);
    lemma_position(no_fields(), "constructor"@);
}

/// Every parsed call is settled, and the input of a valid one holds no
/// forbidden prototype property.
pub proof fn law_a_parsed_call_is_settled<
    F: Fn(ToolCallRepairContext) -> Result<Option<RawToolCall>, AiMuxError>,
>(
    call: RawToolCallView,
    tools: Option<Seq<ToolView>>,
    repair: Option<&ToolCallRepair<F>>,
    messages: Seq<ModelMessageView>,
    instructions: Option<Seq<char>>,
    result: ToolCallView,
)
    requires
        parses_to(call, tools, repair, messages, instructions, result),
    ensures
        settled(result),
        result.invalid is None ==> !forbidden(result.input),
{
    lemma_accepted_input(call);
    let said = choose|said: Seq<char>|
        ends_in(#[trigger] first_step(call, tools, said), tools, repair, messages, instructions, result);
    if let StepView::Failed(call, error) = first_step(call, tools, said) {
        if let Some(repair) = repair {
            let context = repair_context(call, error, tools.unwrap(), messages, instructions);
            let (asked, answer) = choose|
                asked: ToolCallRepairContext,
                answer: Result<Option<RawToolCall>, AiMuxError>,
            |
                {
                    &&& asked@ == context
                    &&& #[trigger] call_ensures(repair.function(), (asked,), answer)
                    &&& resolves_to(call, error, tools.unwrap(), answer_view(answer), result)
                };
            if let RepairOutcomeView::Repaired(repaired) = answer_view(answer) {
                lemma_accepted_input(repaired);
            }
        }
    }
}

/// A call that passes against a function tool has an input that meets the
/// tool's schema.
pub proof fn law_a_valid_call_meets_its_schema(call: RawToolCallView, tools: Seq<ToolView>, said: Seq<char>)
    ensures
        (validated(call, tools, said), find_tool(tools, call.tool_name)) matches (
            Ok((input, dynamic)),
            Some(ToolView::Function { input_schema, .. }),
        ) ==> schema_outcome(input_schema, input, said) is Valid,
{
}

/// A replacement is held to the tools from scratch: the repaired call is
/// valid exactly when the replacement passes, and it is then the replacement,
/// id and name included. Otherwise the call keeps its own id and name.
pub proof fn law_a_replacement_is_validated(
    call: RawToolCallView,
    error: AiMuxErrorView,
    tools: Seq<ToolView>,
    repaired: RawToolCallView,
    said: Seq<char>,
)
    ensures
        ({
            let result = resolved(call, error, tools, RepairOutcomeView::Repaired(repaired), said);
            &&& result.invalid is None <==> validated(repaired, tools, said) is Ok
            &&& validated(repaired, tools, said) is Ok ==> result.tool_call_id == repaired.tool_call_id
                && result.tool_name == repaired.tool_name
            &&& validated(repaired, tools, said) matches Err(cause) ==> result.tool_call_id == call.tool_call_id
                && result.tool_name == call.tool_name && result.error == Some(repair_error(error, cause))
        }),
{
}

/// What a patched text result keeps: every member but the calls and the
/// transcript, and every call but the repaired one.
pub proof fn law_a_patch_keeps_the_rest(
    target: JsonView,
    tools: Option<Seq<ToolView>>,
    id: Seq<char>,
    outcome: RepairOutcomeView,
    said: Seq<char>,
    key: Seq<char>,
)
    requires
        patched_target(target, tools, id, outcome, said) is Ok,
    ensures
        ({
            let patched = patched_target(target, tools, id, outcome, said)->Ok_0;
            let calls = target.at("tool_calls"@)->Array_0;
            &&& key != "tool_calls"@ && key != "response_messages"@ ==> patched.field(key) == target.field(key)
            &&& patched.field("tool_calls"@) matches Some(JsonView::Array(after)) && after.len() == calls.len()
                && forall|i: int|
                0 <= i < calls.len() && i != slot_of(calls, id) ==> #[trigger] after[i] == calls[i]
        }),
{
    reveal_strlit("tool_calls");
    reveal_strlit("response_messages");
    let fields = target->Object_0;
    let calls = target.at("tool_calls"@)->Array_0;
    let call = patched_call(calls, tools, id, outcome, said);
    lemma_slot(calls, id);
    let changed = JsonView::Array(calls.update(slot_of(calls, id), call_doc(call)));
    let f = put(fields, "tool_calls"@, changed);
    lemma_member_put(fields, "tool_calls"@, changed, key);
    lemma_member_put(fields, "tool_calls"@, changed, "tool_calls"@);
    if let Some(JsonView::Array(messages)) = member(f, "response_messages"@) {
        let transcript = JsonView::Array(patched_messages(messages, id, call));
        lemma_member_put(f, "response_messages"@, transcript, key);
        lemma_member_put(f, "response_messages"@, transcript, "tool_calls"@);
    }
    assert("tool_calls"@.len() != "response_messages"@.len());
}

/// The call that a patch puts in place of the one of an id.
pub open spec fn patched_call(
    calls: Seq<JsonView>,
    tools: Option<Seq<ToolView>>,
    id: Seq<char>,
    outcome: RepairOutcomeView,
    said: Seq<char>,
) -> ToolCallView {
    applied(read_call(calls[slot_of(calls, id)])->Ok_0, tools, outcome, said)->Ok_0
}

proof fn lemma_slot(calls: Seq<JsonView>, id: Seq<char>)
    ensures
        0 <= slot_of(calls, id) <= calls.len(),
        slot_of(calls, id) < calls.len() ==> has_id(calls[slot_of(calls, id)], id),
    decreases calls.len(),
{
    if calls.len() > 0 && !has_id(calls[0], id) {
        lemma_slot(calls.drop_first(), id);
    }
}

/// After a patch the repaired call's document stands in the place of the
/// call of that id, and no other call has the repaired call's id.
pub proof fn law_a_patch_keeps_ids_apart(
    target: JsonView,
    tools: Option<Seq<ToolView>>,
    id: Seq<char>,
    outcome: RepairOutcomeView,
    said: Seq<char>,
)
    requires
        patched_target(target, tools, id, outcome, said) is Ok,
    ensures
        ({
            let calls = target.at("tool_calls"@)->Array_0;
            let p = slot_of(calls, id);
            let call = patched_call(calls, tools, id, outcome, said);
            &&& has_id(calls[p], id)
            &&& patched_target(target, tools, id, outcome, said)->Ok_0.field("tool_calls"@) matches Some(
                JsonView::Array(after),
            ) && 0 <= p < after.len() && after[p] == call_doc(call) && forall|i: int|
                0 <= i < after.len() && i != p ==> !has_id(#[trigger] after[i], call.tool_call_id)
        }),
{
    let calls = target.at("tool_calls"@)->Array_0;
    let p = slot_of(calls, id);
    let call = patched_call(calls, tools, id, outcome, said);
    lemma_slot(calls, id);
    law_a_patch_keeps_the_rest(target, tools, id, outcome, said, "tool_calls"@);
    reveal_strlit("tool_calls");
    reveal_strlit("response_messages");
    assert("tool_calls"@.len() != "response_messages"@.len());
    let fields = target->Object_0;
    let changed = JsonView::Array(calls.update(p, call_doc(call)));
    let f = put(fields, "tool_calls"@, changed);
    lemma_member_put(fields, "tool_calls"@, changed, "tool_calls"@);
    if let Some(JsonView::Array(messages)) = member(f, "response_messages"@) {
        let transcript = JsonView::Array(patched_messages(messages, id, call));
        lemma_member_put(f, "response_messages"@, transcript, "tool_calls"@);
    }
    let after = patched_target(target, tools, id, outcome, said)->Ok_0.field("tool_calls"@)->0->Array_0;
    assert(after == calls.update(p, call_doc(call)));
    assert forall|i: int| 0 <= i < after.len() && i != p implies !has_id(
        #[trigger] after[i],
        call.tool_call_id,
    ) by {
        if has_id(after[i], call.tool_call_id) {
            assert(has_id(calls[i], call.tool_call_id));
            assert(id_elsewhere(calls, p, call.tool_call_id));
        }
    }
}

/// The transcript follows the calls: a transcript part of the repaired call
/// names its id, its tool and its replayable input; every other part stays.
pub proof fn law_the_transcript_follows(part: JsonView, id: Seq<char>, call: ToolCallView)
    ensures
        ({
            let after = patched_part(part, id, call);
            if part is Object && part.at("type"@).text() == Some("tool_call"@) && has_id(part, id) {
                &&& after.field("tool_call_id"@) == Some(JsonView::String(call.tool_call_id))
                &&& after.field("tool_name"@) == Some(JsonView::String(call.tool_name))
                &&& after.field("input"@) == Some(replay_input(call.input, call.invalid))
            } else {
                after == part
            }
        }),
{
    if part is Object && part.at("type"@).text() == Some("tool_call"@) && has_id(part, id) {
        reveal_strlit("tool_call_id");
        reveal_strlit("tool_name");
        reveal_strlit("input");
        assert("tool_call_id"@.len() == 12 && "tool_name"@.len() == 9 && "input"@.len() == 5);
        let a = part->Object_0;
        let b = put(a, "tool_call_id"@, JsonView::String(call.tool_call_id));
        let c = put(b, "tool_name"@, JsonView::String(call.tool_name));
        let input = replay_input(call.input, call.invalid);
        lemma_member_put(a, "tool_call_id"@, JsonView::String(call.tool_call_id), "tool_call_id"@);
        lemma_member_put(b, "tool_name"@, JsonView::String(call.tool_name), "tool_call_id"@);
        lemma_member_put(b, "tool_name"@, JsonView::String(call.tool_name), "tool_name"@);
        lemma_member_put(c, "input"@, input, "tool_call_id"@);
        lemma_member_put(c, "input"@, input, "tool_name"@);
        lemma_member_put(c, "input"@, input, "input"@);
    }
}

/// A patched object result is the same document around its patched text
/// result: the object in it stays.
pub proof fn law_a_patch_keeps_the_object(
    result: JsonView,
    tools: Option<Seq<ToolView>>,
    id: Seq<char>,
    outcome: RepairOutcomeView,
    said: Seq<char>,
    key: Seq<char>,
)
    requires
        result.field("tool_calls"@) is None,
        patched_result(result, tools, id, outcome, said) is Ok,
    ensures
        ({
            let patched = patched_result(result, tools, id, outcome, said)->Ok_0;
            &&& key != "raw"@ ==> patched.field(key) == result.field(key)
            &&& patched_target(result.at("raw"@), tools, id, outcome, said) matches Ok(raw) && patched.field("raw"@)
                == Some(raw)
        }),
{
    let raw = patched_target(result.at("raw"@), tools, id, outcome, said)->Ok_0;
    lemma_member_put(result->Object_0, "raw"@, raw, key);
    lemma_member_put(result->Object_0, "raw"@, raw, "raw"@);
}

} // verus!
