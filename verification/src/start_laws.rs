//! How generations, operations and replays start, and what their driver tells.
use crate::driver::{chunk_event, consumed_event, generated_event, item_event};
use crate::error::AiMuxError;
use crate::generate::{object_of, GenerateTextResult};
use crate::generate_options::{prompt_messages, sent_messages, GenerateOptionsView, GenerateTextOptions};
use crate::generation::{StreamGeneration, TextGeneration};
use crate::json::Json;
use crate::json_text::json_parse;
use crate::match_laws::{fits, law_the_first_fit_is_taken};
use crate::message::ModelPrompt;
use crate::openai_output::completion_of;
use crate::operation::Operation;
use crate::options::{AbortSignal, CallOptions, CallOptionsView};
use crate::parse_tool_call::ToolCallRepairContext;
use crate::protocol::{Event, Mode, RepairContext, StartRequest};
use crate::recording::Recording;
use crate::replay::{recorded_result, recorded_stream, ExactMatcher, MockReplayModel, ReplayMatcher, ScoreMatcher};
use crate::result::GenerateResult;
use crate::result_wire::{aggregated_doc, completion_doc, object_result_doc, part_of_stream_doc, text_result_doc};
use crate::stream_part::{item_view, stream_view, StreamItem, StreamPart, StreamPartView};
use crate::stream_text::StreamTextResultAggregated;
use crate::tool::ToolChoiceView;
use vstd::prelude::*;

verus! {

// Generations.

/// Whether the call that a provider is sent asks for what the user asked for,
/// each option under its own name.
pub open spec fn asks_for(call: CallOptionsView, user: GenerateOptionsView) -> bool {
    &&& call.max_output_tokens == user.max_output_tokens
    &&& call.temperature == user.temperature
    &&& call.stop_sequences == user.stop_sequences
    &&& call.top_p == user.top_p
    &&& call.top_k == user.top_k
    &&& call.presence_penalty == user.presence_penalty
    &&& call.frequency_penalty == user.frequency_penalty
    &&& call.response_format == user.response_format
    &&& call.seed == user.seed
    &&& call.tools == user.tools
    &&& call.tool_choice == (match user.tool_choice {
        Some(choice) => choice,
        None => ToolChoiceView::Auto,
    })
    &&& call.headers == user.headers
    &&& call.provider_options == user.provider_options
    &&& call.reasoning == user.reasoning
    &&& call.body_overrides == user.body_overrides
    &&& call.session_id == user.session_id
    &&& call.abort_signal == user.abort_signal
    &&& call.include_raw_chunks == user.include_raw_chunks
}

/// A generation starts by calling the provider with the user's prompt and
/// options; it has not failed yet, and parses calls with what the user gave.
pub proof fn law_how_a_generation_starts(
    prompt: ModelPrompt,
    options: GenerateTextOptions,
    repairs: bool,
    default_retries: u32,
    now: u64,
    r: Result<(TextGeneration, CallOptions), AiMuxError>,
)
    requires
        call_ensures(TextGeneration::start, (prompt, options, repairs, default_retries, now), r),
    ensures
        r matches Ok((generation, call)) ==> {
            &&& asks_for(call@, options@)
            &&& call@.prompt == sent_messages(prompt_messages(prompt), options@.instructions)
            &&& generation@.phase is Calling
            &&& generation@.failures.len() == 0
            &&& generation@.parsing.tools == options@.tools
            &&& generation@.parsing.messages == prompt_messages(prompt)
            &&& generation@.parsing.instructions == options@.instructions
            &&& generation@.parsing.repairs == repairs
            &&& generation@.max_retries == (match options@.max_retries {
                Some(n) => n,
                None => default_retries,
            })
            &&& options@.operation_control matches Some(control) ==> generation@.control == control
            &&& options@.operation_control is None ==> generation@.control.signal == options@.abort_signal
        },
        r matches Err(error) ==> error@ is InvalidArgument && options@.timeout is Some
            && options@.operation_control is None,
{
}

/// A streamed generation starts by asking for the stream, with the user's
/// prompt and options and the limit between chunks that the user set.
pub proof fn law_how_a_streamed_generation_starts(
    prompt: ModelPrompt,
    options: GenerateTextOptions,
    repairs: bool,
    default_retries: u32,
    now: u64,
    r: Result<(StreamGeneration, CallOptions), AiMuxError>,
)
    requires
        call_ensures(StreamGeneration::start, (prompt, options, repairs, default_retries, now), r),
    ensures
        r matches Ok((generation, call)) ==> {
            &&& asks_for(call@, options@)
            &&& call@.prompt == sent_messages(prompt_messages(prompt), options@.instructions)
            &&& generation@.phase is Opening
            &&& generation@.failures.len() == 0
            &&& generation@.parsing.tools == options@.tools
            &&& generation@.parsing.messages == prompt_messages(prompt)
            &&& generation@.parsing.instructions == options@.instructions
            &&& generation@.parsing.repairs == repairs
            &&& generation@.max_retries == (match options@.max_retries {
                Some(n) => n,
                None => default_retries,
            })
            &&& generation@.chunk_ms == (match options@.timeout {
                Some(timeout) => timeout.chunk_ms,
                None => None,
            })
            &&& options@.operation_control matches Some(control) ==> generation@.control == control
            &&& options@.operation_control is None ==> generation@.control.signal == options@.abort_signal
        },
        r matches Err(error) ==> error@ is InvalidArgument && options@.timeout is Some
            && options@.operation_control is None,
{
}

// Operations.

/// Whether an operation and the options that drive its generation were started
/// from what was asked: nothing happened yet, both are stopped by the same
/// signal and limits, and nothing else was changed.
pub open spec fn is_started_with(
    operation: Operation,
    driving: GenerateOptionsView,
    asked: GenerateOptionsView,
    signal: AbortSignal,
) -> bool {
    &&& operation@.terminal is None
    &&& operation@.output.len() == 0
    &&& operation@.pending is None
    &&& operation@.control.signal == Some(signal)
    &&& driving.operation_control == Some(operation@.control)
    &&& driving.abort_signal == Some(signal)
    &&& driving.max_output_tokens == asked.max_output_tokens && driving.temperature == asked.temperature
    &&& driving.stop_sequences == asked.stop_sequences && driving.top_p == asked.top_p
    &&& driving.top_k == asked.top_k && driving.presence_penalty == asked.presence_penalty
    &&& driving.frequency_penalty == asked.frequency_penalty && driving.seed == asked.seed
    &&& driving.tools == asked.tools && driving.tool_choice == asked.tool_choice
    &&& driving.instructions == asked.instructions && driving.headers == asked.headers
    &&& driving.timeout == asked.timeout && driving.max_retries == asked.max_retries
}

/// Whether a request may start an operation: its protocol is the one that is
/// spoken, and its options are data.
pub open spec fn may_start(request: &StartRequest) -> bool {
    &&& request.protocol_version == 1
    &&& request.options@.field("repair_tool_call"@) is None
    &&& request.options@.field("repairToolCall"@) is None
    &&& request.options@.field("abort_signal"@) is None
}

/// An operation starts with what its request asked for. A request that may not
/// start one, or whose options cannot be read, is an invalid argument.
pub proof fn law_how_an_operation_starts<F: Fn(&Json) -> Result<GenerateTextOptions, String>>(
    request: &StartRequest,
    decode: &F,
    signal: AbortSignal,
    now: u64,
    r: Result<(Operation, GenerateTextOptions), AiMuxError>,
)
    requires
        call_ensures(Operation::start::<F>, (request, decode, signal, now), r),
    ensures
        !may_start(request) ==> r is Err,
        r matches Err(error) ==> error@ is InvalidArgument,
        may_start(request) && request.options@ is Null ==> {
            &&& r matches Ok((operation, driving))
            &&& operation@.control.deadline is None
            &&& operation@.control.signal == Some(signal)
            &&& driving@.abort_signal == Some(signal)
            &&& driving@.tools is None
        },
        r matches Ok((operation, driving)) ==> (!(request.options@ is Null) ==> exists|options: GenerateTextOptions|
            #[trigger] call_ensures(*decode, (&request.options,), Ok(options)) && is_started_with(
                operation,
                driving@,
                options@,
                signal,
            )),
{
}

/// What a host is told of a call to repair is what a callback would be told,
/// with the schema of the tool that the call names.
pub proof fn law_a_host_is_told_what_a_callback_is(context: ToolCallRepairContext, r: RepairContext, schema: Json)
    requires
        call_ensures(RepairContext::of, (context,), r),
        exists|name: &str|
            name@ == context.tool_call.tool_name@ && #[trigger] call_ensures(
                ToolCallRepairContext::input_schema,
                (&context, name),
                schema,
            ),
    ensures
        r@.tool_call == context@.tool_call,
        r@.error == context@.error,
        r@.tools == context@.tools,
        r@.messages == context@.messages,
        r@.instructions == context@.instructions,
        r@.input_schema == schema@,
{
}

// What the driver tells.

/// A generated text is told as what the mode asks for: the object that its text
/// says, a chat completion, or the text's own result.
pub proof fn law_what_is_told_of_a_text(
    mode: Mode,
    result: GenerateTextResult,
    repaired: &str,
    model_id: &str,
    r: Result<Event, AiMuxError>,
)
    requires
        call_ensures(generated_event, (mode, result, repaired, model_id), r),
    ensures
        mode is GenerateText ==> (r matches Ok(Event::Result { result: told }) && told@ == text_result_doc(result@)),
        mode is GenerateTextAsOpenai ==> (r matches Ok(Event::Result { result: told }) && told@ == completion_doc(
            completion_of(result@, model_id@),
        )),
        mode is GenerateObject ==> match object_of(result@, json_parse(repaired@)) {
            Ok(object) => r matches Ok(Event::Result { result: told }) && told@ == object_result_doc(object),
            Err(error) => r matches Err(told) && told@ == error,
        },
{
}

/// A stream that was read for the host is told as what it amounts to, or fails
/// as its reading did.
pub proof fn law_what_is_told_of_a_read_stream(
    read: Result<StreamTextResultAggregated, AiMuxError>,
    r: Result<Event, AiMuxError>,
)
    requires
        call_ensures(consumed_event, (read,), r),
    ensures
        read matches Ok(result) ==> (r matches Ok(Event::Result { result: told }) && told@ == aggregated_doc(result@)),
        read matches Err(error) ==> (r matches Err(told) && told@ == error@),
{
}

/// An item is told as the part that it is, a malformed frame as a part that
/// says so; any other failure ends the operation. A chunk is told as it is.
pub proof fn law_what_is_told_of_an_item(
    item: StreamItem,
    told: Result<Event, AiMuxError>,
    chunk: Result<Json, AiMuxError>,
    handed: Result<Event, AiMuxError>,
)
    requires
        call_ensures(item_event, (item,), told),
        call_ensures(chunk_event, (chunk,), handed),
    ensures
        item_view(item) matches Ok(part) ==> (told matches Ok(Event::Part { part: doc }) && doc@ == part_of_stream_doc(
            part,
        )),
        item_view(item) matches Err(error) ==> if error is JsonParse {
            told matches Ok(Event::Part { part: doc }) && doc@ == part_of_stream_doc(StreamPartView::Error { error })
        } else {
            told matches Err(end) && end@ == error
        },
        chunk matches Ok(doc) ==> (handed matches Ok(Event::Part { part }) && part@ == doc@),
        chunk matches Err(error) ==> (handed matches Err(end) && end@ == error@),
{
}

// Replays.

/// A replay goes by the name, the model and the recordings that it was made
/// with.
pub proof fn law_what_a_replay_is_made_with<M: ReplayMatcher>(
    provider: &str,
    model_id: &str,
    recordings: Vec<Recording>,
    matcher: M,
    scored: MockReplayModel<ScoreMatcher>,
    own: MockReplayModel<M>,
)
    requires
        call_ensures(MockReplayModel::<ScoreMatcher>::new, (provider, model_id, recordings), scored),
        call_ensures(MockReplayModel::<M>::with_matcher, (provider, model_id, recordings, matcher), own),
    ensures
        scored.provider_name() == provider@ && scored.model_name() == model_id@,
        scored.recorded() == recordings@,
        scored.strategy().provider() == provider@ && scored.strategy().model_id() == model_id@,
        own.provider_name() == provider@ && own.model_name() == model_id@,
        own.recorded() == recordings@,
        own.strategy() == matcher,
{
}

/// A replay tells its own provider, model and recordings.
pub proof fn law_what_a_replay_tells<M: ReplayMatcher>(
    model: &MockReplayModel<M>,
    provider: &str,
    model_id: &str,
    recordings: &[Recording],
)
    requires
        call_ensures(MockReplayModel::<M>::provider, (model,), provider),
        call_ensures(MockReplayModel::<M>::model_id, (model,), model_id),
        call_ensures(MockReplayModel::<M>::recordings, (model,), recordings),
    ensures
        provider@ == model.provider_name(),
        model_id@ == model.model_name(),
        recordings@ == model.recorded(),
{
}

/// An exact replay answers with what the first recording that fits holds, and
/// with nothing where none fits.
pub proof fn law_an_exact_replay_answers_with_the_first_fit(
    model: &MockReplayModel<ExactMatcher>,
    options: &CallOptions,
    r: Result<GenerateResult, AiMuxError>,
    streamed: Result<Vec<StreamPart>, AiMuxError>,
    i: int,
)
    requires
        call_ensures(MockReplayModel::<ExactMatcher>::do_generate, (model, options), r),
        call_ensures(MockReplayModel::<ExactMatcher>::do_stream, (model, options), streamed),
    ensures
        ({
            let provider = model.strategy().provider();
            let id = model.strategy().model_id();
            let list = model.recorded();
            let first = 0 <= i < list.len() && fits(list[i], provider, id, options@) && forall|j: int|
                0 <= j < i ==> !fits(#[trigger] list[j], provider, id, options@);
            let none = forall|j: int| 0 <= j < list.len() ==> !fits(#[trigger] list[j], provider, id, options@);
            &&& first ==> match recorded_result(list[i]) {
                Ok(held) => r matches Ok(told) && told@ == held,
                Err(error) => r matches Err(told) && told@ == error,
            }
            &&& first ==> match recorded_stream(list[i]) {
                Ok(held) => streamed matches Ok(told) && stream_view(told@) == held,
                Err(error) => streamed matches Err(told) && told@ == error,
            }
            &&& none ==> (r matches Err(told) && told@ is InvalidArgument)
            &&& none ==> (streamed matches Err(told) && told@ is InvalidArgument)
        }),
{
    law_the_first_fit_is_taken(model.strategy(), options@, model.recorded());
    let list = model.recorded();
    let verdict = model.strategy().verdict(options@, list);
    if let Ok(k) = verdict {
        assert(fits(list[k], model.strategy().provider(), model.strategy().model_id(), options@));
        if 0 <= i < list.len() && fits(list[i], model.strategy().provider(), model.strategy().model_id(), options@)
            && k < i {
            assert(fits(list[k], model.strategy().provider(), model.strategy().model_id(), options@));
        }
    }
}

} // verus!
