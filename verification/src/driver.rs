//! What an operation's driver tells the host, for each mode.
use crate::error::{AiMuxError, AiMuxErrorView};
use crate::generate::{object_of, object_result, GenerateTextResult, TextResultView};
use crate::generate_options::GenerateOptionsView;
use crate::generation::{control_for, GenerationStepView, GenerationView};
use crate::generation_control::ControlView;
use crate::json::{Json, JsonView};
use crate::json_text::json_parse;
use crate::openai_output::{completion_of, generate_text_result_to_chat_completion};
use crate::operation::{driven, part_of_item, OperationView};
use crate::parse_tool_call::RepairOutcomeView;
use crate::protocol::{Event, EventView, Mode};
use crate::result::GenerateResultView;
use crate::result_wire::{
    aggregated_doc, aggregated_json, completion_doc, completion_json, object_result_doc, object_result_json,
    part_of_stream_doc, part_of_stream_json, text_result_doc, text_result_json,
};
use crate::stream_part::{item_view, StreamItem, StreamItemView, StreamPartView};
use crate::stream_text::{is_terminal, AggregatedView, StreamTextResultAggregated};
use vstd::prelude::*;

verus! {

impl Mode {
    /// Whether a mode asks the provider for a stream.
    pub open spec fn asks_for_stream(self) -> bool {
        self is ConsumeStreamText || self is StreamText || self is StreamTextAsOpenai
    }
}

pub open spec fn told_view(told: Result<Event, AiMuxError>) -> Result<EventView, AiMuxErrorView> {
    match told {
        Ok(event) => Ok(event@),
        Err(error) => Err(error@),
    }
}

/// What the host is told of a generated text: in a mode that asks for an
/// object, what the repaired text parsed to.
pub open spec fn generated(
    mode: Mode,
    result: TextResultView,
    parsed: Result<JsonView, Seq<char>>,
    model_id: Seq<char>,
) -> Result<EventView, AiMuxErrorView> {
    match mode {
        Mode::GenerateObject => match object_of(result, parsed) {
            Ok(object) => Ok(EventView::Result { result: object_result_doc(object) }),
            Err(error) => Err(error),
        },
        Mode::GenerateTextAsOpenai => Ok(
            EventView::Result { result: completion_doc(completion_of(result, model_id)) },
        ),
        _ => Ok(EventView::Result { result: text_result_doc(result) }),
    }
}

/// The event of a generated text. `repaired` is its text with its JSON
/// repaired, which only a mode that asks for an object reads.
pub fn generated_event(mode: Mode, result: GenerateTextResult, repaired: &str, model_id: &str) -> (r: Result<
    Event,
    AiMuxError,
>)
    requires
        !mode.asks_for_stream(),
    ensures
        told_view(r) == generated(mode, result@, json_parse(repaired@), model_id@),
{
    match mode {
        Mode::GenerateObject => match object_result(result, repaired) {
            Ok(object) => Ok(Event::Result { result: object_result_json(&object) }),
            Err(error) => Err(error),
        },
        Mode::GenerateTextAsOpenai => Ok(
            Event::Result {
                result: completion_json(&generate_text_result_to_chat_completion(&result, model_id)),
            },
        ),
        _ => Ok(Event::Result { result: text_result_json(&result) }),
    }
}

/// What the host is told of a stream that was read for it.
pub open spec fn consumed(read: Result<AggregatedView, AiMuxErrorView>) -> Result<EventView, AiMuxErrorView> {
    match read {
        Ok(result) => Ok(EventView::Result { result: aggregated_doc(result) }),
        Err(error) => Err(error),
    }
}

/// The event of a stream that was read for the host.
pub fn consumed_event(read: Result<StreamTextResultAggregated, AiMuxError>) -> (r: Result<Event, AiMuxError>)
    ensures
        told_view(r) == consumed(
            match read {
                Ok(result) => Ok(result@),
                Err(error) => Err(error@),
            },
        ),
{
    match read {
        Ok(result) => Ok(Event::Result { result: aggregated_json(&result) }),
        Err(error) => Err(error),
    }
}

/// What the host is told of an item: a malformed frame is a part that says so.
pub open spec fn streamed(item: StreamItemView) -> Result<EventView, AiMuxErrorView> {
    match item {
        Ok(part) => Ok(EventView::Part { part: part_of_stream_doc(part) }),
        Err(error) => if error is JsonParse {
            Ok(EventView::Part { part: part_of_stream_doc(StreamPartView::Error { error }) })
        } else {
            Err(error)
        },
    }
}

/// The event of a stream item.
pub fn item_event(item: StreamItem) -> (r: Result<Event, AiMuxError>)
    ensures
        told_view(r) == streamed(item_view(item)),
{
    match part_of_item(item) {
        Ok(part) => Ok(Event::Part { part: part_of_stream_json(&part) }),
        Err(error) => Err(error),
    }
}

/// The event of an OpenAI chunk: any failure ends the operation.
pub fn chunk_event(chunk: Result<Json, AiMuxError>) -> (r: Result<Event, AiMuxError>)
    ensures
        told_view(r) == (match chunk {
            Ok(part) => Ok(EventView::Part { part: part@ }),
            Err(error) => Err(error@),
        }),
{
    match chunk {
        Ok(part) => Ok(Event::Part { part }),
        Err(error) => Err(error),
    }
}

/// An item that does not end its stream does not end the operation either, and
/// the only items that do are failures.
pub proof fn law_only_fatal_failures_end_an_operation(item: StreamItemView)
    ensures
        streamed(item) is Err <==> item is Err && is_terminal(item),
        streamed(item) matches Err(error) ==> item == Err::<StreamPartView, AiMuxErrorView>(error),
        streamed(item) matches Ok(event) ==> event is Part,
{
}

/// Cancelling an operation, or any control that shares its signal, fails the
/// next step of the generation that was started with the operation's options,
/// and ends the operation where it had not ended.
pub proof fn law_cancelling_an_operation_aborts_its_generation(
    operation: OperationView,
    options: GenerateOptionsView,
    generation: GenerationView,
    answer: Result<GenerateResultView, AiMuxErrorView>,
    repair: RepairOutcomeView,
    aborted: bool,
    start: u64,
    now: u64,
    said: Seq<Seq<char>>,
)
    requires
        operation.wf(),
        control_for(driven(options, operation.control), start) == Ok::<ControlView, AiMuxErrorView>(
            generation.control,
        ),
        !(generation.phase is Ended),
    ensures
        ({
            let cancelled = operation.control.cancelled(aborted);
            let error = AiMuxErrorView::Aborted("request aborted"@);
            let failed = (generation.ended(), GenerationStepView::Failed(error));
            &&& cancelled
            &&& generation.ticked(cancelled, now) == failed
            &&& generation.answered(answer, cancelled, now, said) == failed
            &&& generation.repaired(repair, cancelled, now, said) == failed
            &&& operation.terminal is None ==> operation.observed(cancelled, now) == operation.cancelled()
        }),
{
}

/// A mode that reports one result reports it by one event, or not at all; what
/// is told is the last thing that the host reads before the end.
pub proof fn law_a_result_is_told_last(
    s: OperationView,
    mode: Mode,
    result: TextResultView,
    parsed: Result<JsonView, Seq<char>>,
    model_id: Seq<char>,
    aborted: bool,
    now: u64,
)
    requires
        s.wf(),
        generated(mode, result, parsed, model_id) is Ok,
        s.sent(generated(mode, result, parsed, model_id)->Ok_0, aborted, now).1 is Sent,
    ensures
        s.sent(generated(mode, result, parsed, model_id)->Ok_0, aborted, now).0.finished(Ok(())).output
            == s.output.push(generated(mode, result, parsed, model_id)->Ok_0),
        generated(mode, result, parsed, model_id)->Ok_0 is Result,
{
}

} // verus!
