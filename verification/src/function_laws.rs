//! What the library's functions do, said of what they are given and what they
//! give back.
use crate::answer_laws::{
    breaks_off, brings_output, calls_answered, content_left, files_answered, goes_on, is_made_of,
    law_a_finished_stream_is_made_of_its_parts, law_a_generation_is_retold_in_order,
    law_a_generation_reports_what_the_provider_did, law_a_stream_amounts_to_its_first_error,
    law_a_stream_that_breaks_off, law_pieces_are_collected_by_kind, law_the_reasoning_is_the_reasoning_pieces,
    law_the_text_is_the_text_pieces, leaves_one_message, reasoning_answered, reasoning_texts_answered, retold,
    sources_answered, text_deltas, texts_answered,
};
use crate::call_laws::{
    denotes, denotes_nothing, law_a_call_is_shown_as_it_was_validated, law_a_function_tool_takes_what_its_schema_takes,
    law_a_provider_may_name_its_own_tools, law_a_provider_tool_takes_any_document, law_a_repair_replaces_or_keeps,
    law_a_text_that_denotes_nothing_is_refused, law_only_an_unknown_tool_is_missing, names_first, names_none,
    runs_and_names_itself, same_call, shown_invalid, shown_valid,
};
use crate::error::{AiMuxError, AiMuxErrorView};
use crate::generate::{
    generate_text_result, object_from_parsed, parse_streamed_item, raw_calls_view, raw_streamed_call, raw_tool_calls,
    text_result, GenerateObjectResult, GenerateTextResult,
};
use crate::json::{Json, JsonView};
use crate::json_text::{json_print, schema_compiles, schema_violation};
use crate::message::ModelMessage;
use crate::openai_output::{generate_text_result_to_chat_completion, parsed_tool_call_arguments, ChatCompletion};
use crate::output_laws::{
    law_a_completion_has_every_call, law_a_completion_is_the_providers_answer, law_an_object_is_what_the_text_says,
};
use crate::parse_tool_call::{
    apply_repair_outcome, invalid_tool_call, outcome_of_answer, outcome_of_reply, parse_and_validate_tool_call,
    parse_tool_call, str_view, validated, RepairOutcome, RepairOutcomeView, ToolCallRepair, ToolCallRepairContext,
    ToolCallRepairReply,
};
use crate::rebuild_laws::{
    all_choices, all_entries, beginnings, events_told, is_recorded_as, is_streamed_as,
    law_a_rebuilt_answer_is_the_first_choice, law_a_rebuilt_message_starts_with_its_text,
    law_a_rebuilt_stream_says_what_was_recorded, law_every_recorded_call_is_rebuilt, reasonings_told, texts_told,
    words_of,
};
use crate::replay_stream::stream_parts_of_body;
use crate::replay_wire::{generate_result_of, parse_finish, u32_from_json};
use crate::result::{GenerateContentView, GenerateResult};
use crate::stream_laws::brought;
use crate::stream_part::{item_view, items_view, stream_view, StreamItem, StreamItemView, StreamPart, StreamPartView};
use crate::stream_text::{is_output_chunk, is_terminal_item, StreamTextResult, StreamTextResultAggregated};
use crate::tool::{calls_view, tools_view, RawToolCall, Tool, ToolCall};
use crate::types::FinishReason;
use vstd::prelude::*;

verus! {

// Tool calls.

/// A call is refused for want of a tool exactly when no tool of the set goes by
/// its name and the provider does not run and name it itself.
pub proof fn law_validation_misses_only_unknown_tools(
    call: RawToolCall,
    tools: &[Tool],
    r: Result<(Json, Option<bool>), AiMuxError>,
)
    requires
        call_ensures(parse_and_validate_tool_call, (&call, tools), r),
    ensures
        (r matches Err(error) && error@ is NoSuchTool) <==> names_none(tools_view(tools@), call.tool_name@)
            && !runs_and_names_itself(call@),
{
    let said = choose|said: Seq<char>|
        crate::parse_tool_call::checked_view(r) == #[trigger] validated(call@, tools_view(tools@), said);
    law_only_an_unknown_tool_is_missing(call@, tools_view(tools@), said);
}

/// A call that names a provider tool is valid with whatever its text denotes,
/// an empty object when it is blank; a text that denotes nothing is an invalid
/// input, and nothing else is refused.
pub proof fn law_validation_takes_calls_of_provider_tools(
    call: RawToolCall,
    tools: &[Tool],
    i: int,
    input: JsonView,
    r: Result<(Json, Option<bool>), AiMuxError>,
)
    requires
        call_ensures(parse_and_validate_tool_call, (&call, tools), r),
        names_first(tools_view(tools@), call.tool_name@, i),
        tools@[i] is Provider,
    ensures
        denotes(call.input@, input) ==> (r matches Ok((doc, dynamic)) && doc@ == input && dynamic is None),
        denotes_nothing(call.input@) ==> (r matches Err(error) && (error@ matches AiMuxErrorView::InvalidToolInput {
            tool_name,
            tool_input,
            ..
        } && tool_name == call.tool_name@ && tool_input == call.input@)),
{
    let set = tools_view(tools@);
    let said = choose|said: Seq<char>|
        crate::parse_tool_call::checked_view(r) == #[trigger] validated(call@, set, said);
    assert(set[i] == tools@[i]@);
    law_a_provider_tool_takes_any_document(call@, set, i, input, said);
}

/// A call that names a function tool is valid with the input that its text
/// denotes exactly when the tool's schema compiles and takes it.
pub proof fn law_validation_asks_the_schema(
    call: RawToolCall,
    tools: &[Tool],
    i: int,
    input: JsonView,
    r: Result<(Json, Option<bool>), AiMuxError>,
)
    requires
        call_ensures(parse_and_validate_tool_call, (&call, tools), r),
        names_first(tools_view(tools@), call.tool_name@, i),
        tools@[i] is Function,
        denotes(call.input@, input),
    ensures
        ({
            let schema = tools@[i]->Function_0.input_schema@;
            match r {
                Ok((doc, dynamic)) => {
                    &&& doc@ == input
                    &&& dynamic is None
                    &&& schema_compiles(schema) && schema_violation(schema, input) is None
                },
                Err(error) => {
                    &&& error@ matches AiMuxErrorView::InvalidToolInput { tool_name, tool_input, .. }
                    &&& tool_name == call.tool_name@
                    &&& tool_input == call.input@
                    &&& !(schema_compiles(schema) && schema_violation(schema, input) is None)
                },
            }
        }),
{
    let set = tools_view(tools@);
    let said = choose|said: Seq<char>|
        crate::parse_tool_call::checked_view(r) == #[trigger] validated(call@, set, said);
    assert(set[i] == tools@[i]@);
    law_a_function_tool_takes_what_its_schema_takes(call@, set, i, input, said);
}

/// A text that denotes nothing is refused as an invalid input wherever a tool
/// or the provider itself takes the call; a call that the provider runs and
/// names itself is valid with what its text denotes, as a dynamic call.
pub proof fn law_validation_reads_the_text(
    call: RawToolCall,
    tools: &[Tool],
    input: JsonView,
    r: Result<(Json, Option<bool>), AiMuxError>,
)
    requires
        call_ensures(parse_and_validate_tool_call, (&call, tools), r),
    ensures
        denotes_nothing(call.input@) && (!names_none(tools_view(tools@), call.tool_name@) || runs_and_names_itself(
            call@,
        )) ==> (r matches Err(error) && error@ is InvalidToolInput),
        denotes(call.input@, input) && names_none(tools_view(tools@), call.tool_name@) && runs_and_names_itself(call@)
            ==> (r matches Ok((doc, dynamic)) && doc@ == input && dynamic == Some(true)),
{
    let set = tools_view(tools@);
    let said = choose|said: Seq<char>|
        crate::parse_tool_call::checked_view(r) == #[trigger] validated(call@, set, said);
    if denotes_nothing(call.input@) && (!names_none(set, call.tool_name@) || runs_and_names_itself(call@)) {
        law_a_text_that_denotes_nothing_is_refused(call@, set, said);
    }
    if denotes(call.input@, input) && names_none(set, call.tool_name@) && runs_and_names_itself(call@) {
        law_a_provider_may_name_its_own_tools(call@, set, input, said);
    }
}

/// A call of a provider tool that is parsed without a callback comes out valid
/// with its document, under its own id and name.
pub proof fn law_parsing_takes_calls_of_provider_tools<
    F: Fn(ToolCallRepairContext) -> Result<Option<RawToolCall>, AiMuxError>,
>(
    call: RawToolCall,
    tools: &[Tool],
    messages: &[ModelMessage],
    instructions: Option<&str>,
    i: int,
    input: JsonView,
    r: ToolCall,
)
    requires
        call_ensures(
            parse_tool_call::<F>,
            (call, Some(tools), None::<&ToolCallRepair<F>>, messages, instructions),
            r,
        ),
        names_first(tools_view(tools@), call.tool_name@, i),
        tools@[i] is Provider,
        denotes(call.input@, input),
    ensures
        shown_valid(call@, input, None, r@),
{
    let set = tools_view(tools@);
    law_a_call_is_shown_as_it_was_validated::<F>(
        call@,
        set,
        crate::message::messages_view(messages@),
        str_view(instructions),
        r@,
    );
    let said = choose|said: Seq<char>|
        match #[trigger] validated(call@, set, said) {
            Ok((input, dynamic)) => shown_valid(call@, input, dynamic, r@),
            Err(error) => shown_invalid(call@, error, r@),
        };
    assert(set[i] == tools@[i]@);
    law_a_provider_tool_takes_any_document(call@, set, i, input, said);
}

/// A failed call is marked invalid and dynamic, keeps its error and its
/// identity, and shows its document, or its text where that is none.
pub proof fn law_a_failed_call_is_shown(call: RawToolCall, error: AiMuxError, r: ToolCall)
    requires
        call_ensures(invalid_tool_call, (call, error), r),
    ensures
        shown_invalid(call@, error@, r@),
{
}

/// Keeping a call as it failed keeps its error; a failed attempt keeps it
/// beside its own.
pub proof fn law_a_repair_that_gives_nothing(
    call: RawToolCall,
    error: AiMuxError,
    tools: &[Tool],
    outcome: RepairOutcome,
    r: ToolCall,
)
    requires
        call_ensures(apply_repair_outcome, (call, error, tools, outcome), r),
    ensures
        outcome is Unchanged ==> shown_invalid(call@, error@, r@),
        outcome matches RepairOutcome::Failed(cause) ==> shown_invalid(
            call@,
            AiMuxErrorView::ToolCallRepair { original_error: Box::new(error@), cause: Box::new(cause@) },
            r@,
        ),
        outcome matches RepairOutcome::Repaired(other) ==> same_call(other@, r@) || same_call(call@, r@),
        outcome matches RepairOutcome::Repaired(other) ==> (r@.invalid is None ==> same_call(other@, r@)
            && r@.error is None),
{
    let set = tools_view(tools@);
    let said = choose|said: Seq<char>|
        r@ == #[trigger] crate::parse_tool_call::resolved(call@, error@, set, outcome@, said);
    law_a_repair_replaces_or_keeps(call@, error@, set, outcome@, said);
}

/// What a callback answers and what a host replies come to the same: a call
/// replaces, nothing leaves unchanged, an error fails.
pub proof fn law_answers_and_replies(
    answer: Result<Option<RawToolCall>, AiMuxError>,
    answered: RepairOutcome,
    reply: ToolCallRepairReply,
    replied: RepairOutcome,
)
    requires
        call_ensures(outcome_of_answer, (answer,), answered),
        call_ensures(outcome_of_reply, (reply,), replied),
    ensures
        answer matches Ok(Some(call)) ==> answered@ == RepairOutcomeView::Repaired(call@),
        answer matches Ok(None) ==> answered@ is Unchanged,
        answer matches Err(error) ==> answered@ == RepairOutcomeView::Failed(error@),
        reply matches ToolCallRepairReply::Repaired { tool_call } ==> replied@ == RepairOutcomeView::Repaired(
            tool_call@,
        ),
        reply is Unchanged ==> replied@ is Unchanged,
        reply matches ToolCallRepairReply::Failed { message } ==> replied@ == RepairOutcomeView::Failed(
            AiMuxErrorView::Other(message@),
        ),
{
}

// Generations.

/// The text of a generation is exactly the texts of the answer's text pieces,
/// joined in order, and each of its lists is the answer's pieces of that kind.
pub proof fn law_a_text_result_is_made_of_the_answer(result: GenerateResult, calls: Vec<ToolCall>,
    r: GenerateTextResult)
    requires
        call_ensures(text_result, (result, calls), r),
    ensures
        r.text@ == texts_answered(result@.content).flatten(),
        r@.reasoning == reasoning_answered(result@.content),
        r.reasoning_text@ == reasoning_texts_answered(result@.content).flatten(),
        r@.sources == sources_answered(result@.content),
        r@.files == files_answered(result@.content),
        r@.tool_calls == calls_view(calls@),
        r@.finish_reason == result@.finish_reason,
        r@.usage == result@.usage,
        r@.total_usage == result@.usage,
        r@.warnings == result@.warnings,
        r@.provider_metadata == result@.provider_metadata,
        r@.response == result@.response,
        r@.raw == result@,
        leaves_one_message(r@.response_messages),
        content_left(r@.response_messages) == retold(result@.content, calls_view(calls@)),
{
    law_the_text_is_the_text_pieces(result@, calls_view(calls@));
    law_the_reasoning_is_the_reasoning_pieces(result@, calls_view(calls@));
    law_pieces_are_collected_by_kind(result@, calls_view(calls@));
    law_a_generation_reports_what_the_provider_did(result@, calls_view(calls@));
    law_a_generation_is_retold_in_order(result@, calls_view(calls@));
}

/// The same of a generation whose calls are parsed on the way: it has one call
/// for each of the provider's, in order.
pub proof fn law_a_generated_text_is_made_of_the_answer<
    F: Fn(ToolCallRepairContext) -> Result<Option<RawToolCall>, AiMuxError>,
>(
    result: GenerateResult,
    tools: Option<&[Tool]>,
    repair: Option<&ToolCallRepair<F>>,
    messages: &[ModelMessage],
    instructions: Option<&str>,
    r: GenerateTextResult,
)
    requires
        call_ensures(generate_text_result::<F>, (result, tools, repair, messages, instructions), r),
    ensures
        r.text@ == texts_answered(result@.content).flatten(),
        r.reasoning_text@ == reasoning_texts_answered(result@.content).flatten(),
        r@.sources == sources_answered(result@.content),
        r@.files == files_answered(result@.content),
        r@.usage == result@.usage,
        r@.finish_reason == result@.finish_reason,
        r@.raw == result@,
        r@.tool_calls.len() == calls_answered(result@.content).len(),
        content_left(r@.response_messages) == retold(result@.content, r@.tool_calls),
{
    let calls = r@.tool_calls;
    law_the_text_is_the_text_pieces(result@, calls);
    law_the_reasoning_is_the_reasoning_pieces(result@, calls);
    law_pieces_are_collected_by_kind(result@, calls);
    law_a_generation_reports_what_the_provider_did(result@, calls);
    law_a_generation_is_retold_in_order(result@, calls);
}

/// The calls of an answer are its call pieces, in order.
pub proof fn law_an_answers_calls_are_its_call_pieces(result: GenerateResult, r: Vec<RawToolCall>)
    requires
        call_ensures(raw_tool_calls, (&result,), r),
    ensures
        raw_calls_view(r@) == calls_answered(result@.content),
{
    law_pieces_are_collected_by_kind(result@, seq![]);
}

/// A streamed item that is no call passes as it is.
pub proof fn law_streamed_items_pass<F: Fn(ToolCallRepairContext) -> Result<Option<RawToolCall>, AiMuxError>>(
    item: StreamItem,
    tools: Option<&[Tool]>,
    repair: Option<&ToolCallRepair<F>>,
    messages: &[ModelMessage],
    instructions: Option<&str>,
    r: StreamItem,
)
    requires
        call_ensures(parse_streamed_item::<F>, (item, tools, repair, messages, instructions), r),
    ensures
        !(item matches Ok(StreamPart::ToolCall(_))) ==> item_view(r) == item_view(item),
        item matches Ok(StreamPart::ToolCall(_)) ==> (item_view(r) matches Ok(part) && part is ToolCall),
{
}

/// An object result holds the object that the text parsed to, and reports what
/// the text result did.
pub proof fn law_an_object_result_holds_the_object(
    result: GenerateTextResult,
    parsed: Result<Json, String>,
    r: Result<GenerateObjectResult, AiMuxError>,
)
    requires
        call_ensures(object_from_parsed, (result, parsed), r),
    ensures
        parsed matches Ok(object) ==> (r matches Ok(made) && made.object@ == object@ && made.usage@ == result.usage@
            && made.finish_reason@ == result.finish_reason@ && made@.warnings == result@.warnings),
        parsed is Err ==> (r matches Err(error) && error@ is JsonParse),
{
    law_an_object_is_what_the_text_says(
        result@,
        match parsed {
            Ok(object) => Ok(object@),
            Err(words) => Err(words@),
        },
    );
}

/// A chat completion says what the answer's text pieces say, and lists the
/// parsed calls.
pub proof fn law_a_chat_completion_says_the_text(result: GenerateTextResult, model_id: &str, r: ChatCompletion)
    requires
        call_ensures(generate_text_result_to_chat_completion, (&result, model_id), r),
    ensures
        r.choices@.len() == 1,
        r@.choices[0].content is Some <==> texts_answered(result@.raw.content).len() > 0,
        r@.choices[0].content matches Some(text) ==> text == texts_answered(result@.raw.content).flatten(),
        r@.choices[0].tool_calls is None <==> result@.tool_calls.len() == 0,
        r@.choices[0].tool_calls matches Some(calls) ==> calls.len() == result@.tool_calls.len() && forall|i: int|
            0 <= i < calls.len() ==> (#[trigger] calls[i]).id == result@.tool_calls[i].tool_call_id && calls[i].name
                == result@.tool_calls[i].tool_name,
        r@.choices[0].finish_reason == result@.raw.finish_reason,
        r@.usage == result@.raw.usage,
        r@.id == result@.raw.response.id,
{
    law_a_completion_is_the_providers_answer(result@, model_id@);
    law_a_completion_has_every_call(result@, model_id@);
}

/// The arguments of a valid call are its input in print.
pub proof fn law_valid_arguments_are_printed(
    input: Json,
    invalid: Option<bool>,
    error: Option<&AiMuxError>,
    r: String,
)
    requires
        call_ensures(parsed_tool_call_arguments, (&input, invalid, error), r),
    ensures
        invalid != Some(true) ==> r@ == json_print(input@),
        invalid == Some(true) && error is None ==> r@ == (match input@ {
            JsonView::String(text) => text,
            doc => json_print(doc),
        }),
{
}

// Streams.

/// Whether a stream holds parts that go on, and behind them its finish.
pub open spec fn holds_finished(
    stream: StreamTextResult,
    parts: Seq<StreamPartView>,
    finish: StreamPartView,
    behind: Seq<StreamItemView>,
) -> bool {
    &&& items_view(stream.stream@) == brought(parts).push(Ok(finish)) + behind
    &&& goes_on(parts)
    &&& finish is Finish
}

/// The text of a stream is exactly the deltas of its text parts up to the
/// finish, joined in order; a part of any other kind leaves it as it is.
pub proof fn law_the_text_of_a_stream_is_its_text_deltas(
    stream: StreamTextResult,
    parts: Seq<StreamPartView>,
    finish: StreamPartView,
    behind: Seq<StreamItemView>,
    r: Result<String, AiMuxError>,
)
    requires
        call_ensures(StreamTextResult::text, (stream,), r),
        holds_finished(stream, parts, finish, behind),
        parts.len() < usize::MAX,
    ensures
        r matches Ok(text) && text@ == text_deltas(parts).flatten(),
{
    law_a_finished_stream_is_made_of_its_parts(parts, finish, behind);
}

/// A stream that is read to its finish amounts to its parts, each of its pieces
/// made of the parts of that kind, and to what the finish reports.
pub proof fn law_a_consumed_stream_is_made_of_its_parts(
    stream: StreamTextResult,
    parts: Seq<StreamPartView>,
    finish: StreamPartView,
    behind: Seq<StreamItemView>,
    r: Result<StreamTextResultAggregated, AiMuxError>,
)
    requires
        call_ensures(StreamTextResult::consume, (stream,), r),
        holds_finished(stream, parts, finish, behind),
        parts.len() < usize::MAX,
    ensures
        r matches Ok(made) && {
            &&& made.text@ == text_deltas(parts).flatten()
            &&& is_made_of(made@, parts)
            &&& made@.finish_reason == finish->Finish_finish_reason
            &&& made@.usage == finish->Finish_usage
            &&& made@.provider_metadata == finish->Finish_provider_metadata
        },
{
    law_a_finished_stream_is_made_of_its_parts(parts, finish, behind);
}

/// A stream without a finish is kept when the model made something, with its
/// parts, and is an error when it made nothing.
pub proof fn law_a_stream_without_a_finish(
    stream: StreamTextResult,
    parts: Seq<StreamPartView>,
    text: Result<String, AiMuxError>,
    r: Result<StreamTextResultAggregated, AiMuxError>,
)
    requires
        call_ensures(StreamTextResult::text, (stream,), text),
        call_ensures(StreamTextResult::consume, (stream,), r),
        items_view(stream.stream@) == brought(parts),
        goes_on(parts),
        parts.len() < usize::MAX,
    ensures
        r is Ok <==> exists|i: int| 0 <= i < parts.len() && brings_output(#[trigger] parts[i]),
        text is Ok <==> r is Ok,
        text matches Ok(words) ==> words@ == text_deltas(parts).flatten(),
        r matches Ok(made) ==> is_made_of(made@, parts),
{
    law_a_stream_that_breaks_off(parts);
}

/// A stream that is broken off by an error amounts to that error.
pub proof fn law_a_broken_stream_fails(
    stream: StreamTextResult,
    parts: Seq<StreamPartView>,
    item: StreamItemView,
    behind: Seq<StreamItemView>,
    text: Result<String, AiMuxError>,
    r: Result<StreamTextResultAggregated, AiMuxError>,
)
    requires
        call_ensures(StreamTextResult::text, (stream,), text),
        call_ensures(StreamTextResult::consume, (stream,), r),
        items_view(stream.stream@) == brought(parts).push(item) + behind,
        goes_on(parts),
        breaks_off(item),
        parts.len() < usize::MAX,
    ensures
        r matches Err(error) && error@ == item->Err_0,
        text matches Err(error) && error@ == item->Err_0,
{
    law_a_stream_amounts_to_its_first_error(parts, item, behind);
}

/// Output is what the model made; a stream ends with its finish and with any
/// failure but a malformed frame.
pub proof fn law_output_and_end(part: StreamPart, output: bool, item: StreamItem, last: bool)
    requires
        call_ensures(is_output_chunk, (&part,), output),
        call_ensures(is_terminal_item, (&item,), last),
    ensures
        output == brings_output(part@),
        last == (breaks_off(item_view(item)) || (item_view(item) matches Ok(p) && p is Finish)),
{
}

/// The provider's call behind a streamed one has its id, its name and its text.
pub proof fn law_a_streamed_call_is_read_back(call: ToolCall, r: RawToolCall)
    requires
        call_ensures(raw_streamed_call, (&call,), r),
    ensures
        r.tool_call_id@ == call.tool_call_id@,
        r.tool_name@ == call.tool_name@,
        r.provider_executed == call.provider_executed,
        r.dynamic == call.dynamic,
        call.input@ matches JsonView::String(text) ==> r.input@ == text,
        !(call.input@ is String) ==> r.input@ == json_print(call.input@),
{
}

// Recordings.

/// The content that is rebuilt from a recorded answer starts with the message's
/// text whenever that is not empty, calls or no calls, goes on with one call for
/// each recorded one, in order, and has nothing else.
pub proof fn law_a_recorded_message_is_rebuilt_whole(doc: Json, r: Result<GenerateResult, AiMuxError>)
    requires
        call_ensures(generate_result_of, (&doc,), r),
    ensures
        ({
            let message = doc@.at("choices"@).item(0).at("message"@);
            let text = words_of(message.at("content"@));
            let texts: int = if text.len() > 0 {
                1
            } else {
                0
            };
            r matches Ok(answer) ==> {
                let content = answer@.content;
                &&& text.len() > 0 ==> content.len() > 0 && content[0] == (GenerateContentView::Text {
                    text,
                    provider_metadata: None,
                })
                &&& match message.at("tool_calls"@) {
                    JsonView::Array(entries) => content.len() == texts + entries.len() && forall|i: int|
                        0 <= i < entries.len() ==> ((#[trigger] content[texts + i])
                            matches GenerateContentView::ToolCall(call) && is_recorded_as(call, entries[i])),
                    _ => content.len() == texts,
                }
            }
        }),
{
    law_a_rebuilt_answer_is_the_first_choice(doc@);
    law_a_rebuilt_message_starts_with_its_text(doc@.at("choices"@).item(0).at("message"@));
    law_every_recorded_call_is_rebuilt(doc@.at("choices"@).item(0).at("message"@));
}

/// The parts that are rebuilt from a recorded event stream say the texts and
/// the reasoning of its choices, joined in order, and make its calls.
pub proof fn law_a_recorded_stream_is_rebuilt_whole(body: &str, r: Result<Vec<StreamPart>, AiMuxError>)
    requires
        call_ensures(stream_parts_of_body, (body,), r),
    ensures
        ({
            let choices = all_choices(events_told(crate::text::blocks(body@)));
            let entries = all_entries(choices);
            r matches Ok(made) ==> {
                let parts = stream_view(made@);
                &&& text_deltas(parts).flatten() == texts_told(choices).flatten()
                &&& crate::answer_laws::reasoning_deltas(parts).flatten() == reasonings_told(choices).flatten()
                &&& crate::answer_laws::calls_streamed(parts).len() == beginnings(entries).len()
                &&& forall|k: int|
                    0 <= k < beginnings(entries).len() ==> is_streamed_as(
                        #[trigger] crate::answer_laws::calls_streamed(parts)[k],
                        beginnings(entries)[k],
                        entries,
                    )
            }
        }),
{
    law_a_rebuilt_stream_says_what_was_recorded(body@);
}

/// A finish reason is read by its word, which is kept.
pub proof fn law_a_finish_reason_is_read_by_its_word(raw: Option<&String>, r: FinishReason)
    requires
        call_ensures(parse_finish, (raw,), r),
    ensures
        raw matches Some(word) ==> r@.raw == Some(word@),
        raw is None ==> r.unified is Other && r.raw is None,
        raw matches Some(word) ==> (r.unified is Stop <==> word@ == "stop"@) && (r.unified is Length <==> word@
            == "length"@) && (r.unified is ContentFilter <==> word@ == "content_filter"@) && (r.unified is ToolCalls
            <==> word@ == "tool_calls"@) && (r.unified is Error <==> word@ == "error"@),
{
    if let Some(word) = raw {
        crate::rebuild_laws::law_finish_words(word@);
    }
}

/// A token count is the document's number, where it is one and fits.
pub proof fn law_a_token_count_is_the_number(doc: Json, field: &str, r: Result<Option<u32>, AiMuxError>)
    requires
        call_ensures(u32_from_json, (&doc, field), r),
    ensures
        match r {
            Ok(Some(n)) => doc@.natural() matches Some(m) && m == n,
            Ok(None) => doc@.natural() is None,
            Err(error) => error@ is JsonParse && (doc@.natural() matches Some(m) && m > u32::MAX),
        },
{
    crate::rebuild_laws::law_counts_are_taken_as_they_are(doc@, field@);
}

} // verus!
