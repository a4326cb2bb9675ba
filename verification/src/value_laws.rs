//! What the small values of the library say: limits, errors, options and
//! documents.
use crate::error::{AiMuxError, AiMuxErrorView, ApiCallError};
use crate::error_text::{next_attempt, RetryStep};
use crate::generate_options::no_options;
use crate::generation_control::{arm_some, min_deadline, GenerationControl, Limit, TimeoutDeadline};
use crate::json::{lemma_member_put, Json, JsonObject, JsonView};
use crate::message::{ContentPart, LanguageModelPromptMessage, MessageContent, ModelMessage};
use crate::options::{AbortSignal, CallOptions, RecordingContext, TimeoutConfiguration};
use crate::response_messages::response_tool_call_input;
use crate::result::{FilePart, SourcePart, ToolResultPart};
use crate::run_laws::{has_come, is_called, is_set, may_be_tried_again};
use crate::text::decimal;
use crate::tool::{FunctionTool, RawToolCall, Tool, ToolCall, ToolChoice};
use crate::types::{FinishReason, ResponseMetadata, TokenUsage, Usage};
use vstd::prelude::*;

verus! {

// Limits.

/// A limit sets its deadline its duration ahead, under its own name; no limit
/// sets none, and what the clock cannot express is an invalid argument.
pub proof fn law_how_a_deadline_is_set(
    limit: Limit,
    duration_ms: u64,
    optional_ms: Option<u64>,
    now: u64,
    r: Result<TimeoutDeadline, AiMuxError>,
    some: Result<Option<TimeoutDeadline>, AiMuxError>,
)
    requires
        call_ensures(TimeoutDeadline::from_now, (limit, duration_ms, now), r),
        call_ensures(arm_some, (limit, optional_ms, now), some),
    ensures
        r is Ok <==> now + duration_ms <= u64::MAX,
        r matches Ok(deadline) ==> is_set(Some(deadline), limit, Some(duration_ms), now),
        r matches Err(error) ==> exists|name: Seq<char>|
            is_called(limit, name) && error@ == AiMuxErrorView::InvalidArgument(
                #[trigger] (name + " timeout of "@) + decimal(duration_ms as nat) + "ms is out of range"@,
            ),
        some is Ok <==> (optional_ms matches Some(ms) ==> now + ms <= u64::MAX),
        some matches Ok(deadline) ==> is_set(deadline, limit, optional_ms, now),
        some matches Err(error) ==> error@ is InvalidArgument,
{
    let name = limit.label();
    assert(is_called(limit, name));
    if let Err(error) = r {
        assert(error@ == AiMuxErrorView::InvalidArgument(
            (name + " timeout of "@) + decimal(duration_ms as nat) + "ms is out of range"@,
        ));
    }
}

/// The earlier of two deadlines is one of them and has come when either has;
/// the first one counts where they coincide.
pub proof fn law_which_deadline_comes_first(
    a: Option<TimeoutDeadline>,
    b: Option<TimeoutDeadline>,
    now: u64,
    r: Option<TimeoutDeadline>,
)
    requires
        call_ensures(min_deadline, (a, b), r),
    ensures
        r == a || r == b,
        has_come(r, now) <==> has_come(a, now) || has_come(b, now),
        a is Some && b is Some && a->0.at == b->0.at ==> r == a,
        r is None <==> a is None && b is None,
{
}

/// A passed deadline is told as a timeout that names the limit and the
/// duration.
pub proof fn law_what_a_passed_deadline_says(deadline: TimeoutDeadline, r: AiMuxError)
    requires
        call_ensures(TimeoutDeadline::error, (deadline,), r),
    ensures
        exists|name: Seq<char>|
            is_called(deadline.limit, name) && r@ == AiMuxErrorView::Timeout(
                #[trigger] (name + " timeout of "@) + decimal(deadline.duration_ms as nat) + "ms exceeded"@,
            ),
{
    let name = deadline.limit.label();
    assert(is_called(deadline.limit, name));
    assert(r@ == AiMuxErrorView::Timeout(
        (name + " timeout of "@) + decimal(deadline.duration_ms as nat) + "ms exceeded"@,
    ));
}

/// A control is bound by the shorter of the total and the step limit, by the
/// limit for the first output, and by the signal that it was given.
pub proof fn law_what_a_control_is_bound_by(
    configuration: TimeoutConfiguration,
    signal: Option<AbortSignal>,
    start: u64,
    r: Result<GenerationControl, AiMuxError>,
)
    requires
        call_ensures(GenerationControl::new, (configuration, signal, start), r),
    ensures
        r is Ok <==> {
            &&& configuration.total_ms matches Some(ms) ==> start + ms <= u64::MAX
            &&& configuration.step_ms matches Some(ms) ==> start + ms <= u64::MAX
            &&& configuration.first_chunk_ms matches Some(ms) ==> start + ms <= u64::MAX
        },
        r matches Err(error) ==> error@ is InvalidArgument,
        r matches Ok(control) ==> {
            &&& control@.signal == signal
            &&& is_set(control@.first_chunk, Limit::FirstChunk, configuration.first_chunk_ms, start)
            &&& match (configuration.total_ms, configuration.step_ms) {
                (Some(total), Some(step)) => if step < total {
                    is_set(control@.deadline, Limit::Step, Some(step), start)
                } else {
                    is_set(control@.deadline, Limit::Total, Some(total), start)
                },
                (total, None) => is_set(control@.deadline, Limit::Total, total, start),
                (None, step) => is_set(control@.deadline, Limit::Step, step, start),
            }
        },
{
}

/// A control stops a generation at an abort that its signal tells, or once its
/// deadline has come, and else lets the phase's own outcome count.
pub proof fn law_what_a_control_stops<T>(
    control: &GenerationControl,
    aborted: bool,
    now: u64,
    outcome: Option<Result<T, AiMuxError>>,
    failure: Option<AiMuxError>,
    settled: Option<Result<T, AiMuxError>>,
    setup: Option<TimeoutDeadline>,
)
    requires
        call_ensures(GenerationControl::failure, (control, aborted, now), failure),
        call_ensures(GenerationControl::settle::<T>, (control, aborted, now, outcome), settled),
        call_ensures(GenerationControl::setup_deadline, (control,), setup),
    ensures
        ({
            let heard = aborted && control@.signal is Some;
            let late = has_come(control@.deadline, now);
            &&& failure is None <==> !heard && !late
            &&& heard ==> (failure matches Some(error) && error@ is Aborted)
            &&& !heard && late ==> (failure matches Some(error) && error@ is Timeout)
            &&& !heard && !late ==> settled == outcome
            &&& heard ==> (settled matches Some(Err(error)) && error@ is Aborted)
            &&& !heard && late ==> (settled matches Some(Err(error)) && error@ is Timeout)
            &&& has_come(setup, now) <==> late || has_come(control@.first_chunk, now)
            &&& setup == control@.deadline || setup == control@.first_chunk
        }),
{
}

/// A control tells what it is bound by, and its copy is bound by the same.
pub proof fn law_a_control_tells_what_it_is_bound_by(
    control: &GenerationControl,
    signal: Option<AbortSignal>,
    deadline: Option<TimeoutDeadline>,
    first_chunk: Option<TimeoutDeadline>,
    copy: GenerationControl,
)
    requires
        call_ensures(GenerationControl::signal, (control,), signal),
        call_ensures(GenerationControl::deadline, (control,), deadline),
        call_ensures(GenerationControl::first_chunk, (control,), first_chunk),
        call_ensures(GenerationControl::copy, (control,), copy),
    ensures
        signal == control@.signal,
        deadline == control@.deadline,
        first_chunk == control@.first_chunk,
        copy@.signal == signal && copy@.deadline == deadline && copy@.first_chunk == first_chunk,
{
}

/// Cancelling a control aborts the signal that it has; a control without one
/// aborts nothing.
pub proof fn law_what_cancelling_a_control_does(control: &GenerationControl, aborted: &mut bool)
    requires
        call_ensures(GenerationControl::cancel, (control, aborted), ()),
    ensures
        control@.signal is Some ==> *final(aborted),
        control@.signal is None ==> *final(aborted) == *old(aborted),
{
}

/// No limits are no limits.
pub proof fn law_no_limits(r: TimeoutConfiguration)
    requires
        call_ensures(TimeoutConfiguration::none, (), r),
    ensures
        r.total_ms is None && r.step_ms is None && r.first_chunk_ms is None && r.chunk_ms is None,
{
}

// Errors.

/// Only a malformed frame lets a stream go on, only a provider's failure may be
/// worth another try, and only a provider's failure and an expired token have a
/// status.
pub proof fn law_what_an_error_is(
    error: &AiMuxError,
    recoverable: bool,
    status: Option<u16>,
    retryable: bool,
    aborted: AiMuxError,
)
    requires
        call_ensures(AiMuxError::is_recoverable_stream_error, (error,), recoverable),
        call_ensures(AiMuxError::status_code, (error,), status),
        call_ensures(AiMuxError::is_retryable, (error,), retryable),
        call_ensures(AiMuxError::aborted, (), aborted),
    ensures
        recoverable <==> error@ is JsonParse,
        retryable <==> may_be_tried_again(error@),
        error@ matches AiMuxErrorView::ApiCall(detail) ==> status == detail.status_code,
        error@ is TokenExpired ==> status == Some(401u16),
        !(error@ is ApiCall) && !(error@ is TokenExpired) ==> status is None,
        aborted@ == AiMuxErrorView::Aborted("request aborted"@),
{
}

/// A failure of which only the request is known knows nothing else, and is not
/// tried again.
pub proof fn law_what_a_new_failure_knows(message: &str, url: &str, body: Json, r: ApiCallError)
    requires
        call_ensures(ApiCallError::new, (message, url, body), r),
    ensures
        r@.message == message@,
        r@.url == url@,
        r@.request_body_values == body@,
        r@.status_code is None && r@.response_headers is None && r@.response_body is None,
        r@.provider_code is None && r@.data is None,
        !r@.is_retryable,
{
}

/// Another attempt is made exactly when the last failure may be tried again and
/// fewer were made than are allowed; one failure is reported as itself, several
/// are reported together.
pub proof fn law_what_follows_failures(failures: &Vec<AiMuxError>, max_retries: u32, r: RetryStep)
    requires
        call_ensures(next_attempt, (failures, max_retries), r),
        failures@.len() > 0,
    ensures
        r is Again <==> may_be_tried_again(failures@[failures@.len() - 1]@) && failures@.len() <= max_retries,
        r matches RetryStep::GiveUp(error) ==> if failures@.len() == 1 {
            error@ == failures@[0]@
        } else {
            &&& error@ matches AiMuxErrorView::Retry(reason, list)
            &&& list.len() == failures@.len()
            &&& forall|i: int| 0 <= i < list.len() ==> #[trigger] list[i] == failures@[i]@
            &&& reason is MaxRetriesExceeded <==> may_be_tried_again(failures@[failures@.len() - 1]@)
        },
{
}

// Options.

/// Options that were not given ask for nothing.
pub proof fn law_no_options_ask_for_nothing()
    ensures
        ({
            let o = no_options();
            &&& o.max_output_tokens is None && o.temperature is None && o.stop_sequences is None
            &&& o.top_p is None && o.top_k is None && o.presence_penalty is None && o.frequency_penalty is None
            &&& o.seed is None && o.tools is None && o.instructions is None && o.headers is None
            &&& o.max_retries is None && o.timeout is None && o.abort_signal is None
            &&& o.operation_control is None
        }),
{
}

/// A call with a prompt and nothing else asks for that prompt, leaves the choice
/// of tools open, and sets nothing.
pub proof fn law_a_plain_call_asks_for_its_prompt(prompt: Vec<LanguageModelPromptMessage>, r: CallOptions)
    requires
        call_ensures(CallOptions::new, (prompt,), r),
    ensures
        r@.prompt.len() == prompt@.len(),
        forall|i: int| 0 <= i < prompt@.len() ==> #[trigger] r@.prompt[i] == prompt@[i]@,
        r@.tool_choice is Auto,
        r@.max_output_tokens is None && r@.temperature is None && r@.stop_sequences is None,
        r@.top_p is None && r@.top_k is None && r@.presence_penalty is None && r@.frequency_penalty is None,
        r@.response_format is None && r@.seed is None && r@.tools is None && r@.headers is None,
        r@.provider_options is None && r@.reasoning is None && r@.body_overrides is None,
        r@.max_retries is None && r@.timeout is None && r@.session_id is None && r@.abort_signal is None,
        r@.call_id is None && r@.recording_context is None && r@.include_raw_chunks is None,
{
}

/// The options of a step are those of the call, but that what is recorded of
/// the step is recorded under its name.
pub proof fn law_a_step_runs_with_its_calls_options(call: &CallOptions, step: &str, r: CallOptions)
    requires
        call_ensures(CallOptions::for_step, (call, step), r),
    ensures
        call@.recording_context is None ==> r@ == call@,
        call@.recording_context matches Some(context) ==> {
            &&& r@.recording_context matches Some(own)
            &&& own.call_id == context.call_id
            &&& own.step == Some(step@)
        },
        r@.prompt == call@.prompt && r@.tools == call@.tools && r@.tool_choice == call@.tool_choice,
        r@.max_output_tokens == call@.max_output_tokens && r@.temperature == call@.temperature,
        r@.stop_sequences == call@.stop_sequences && r@.top_p == call@.top_p && r@.top_k == call@.top_k,
        r@.presence_penalty == call@.presence_penalty && r@.frequency_penalty == call@.frequency_penalty,
        r@.response_format == call@.response_format && r@.seed == call@.seed && r@.headers == call@.headers,
        r@.provider_options == call@.provider_options && r@.reasoning == call@.reasoning,
        r@.body_overrides == call@.body_overrides && r@.max_retries == call@.max_retries,
        r@.timeout == call@.timeout && r@.session_id == call@.session_id,
        r@.abort_signal == call@.abort_signal && r@.call_id == call@.call_id,
        r@.include_raw_chunks == call@.include_raw_chunks,
{
}

/// A step is recorded under its call's id and its own name.
pub proof fn law_a_step_is_recorded_under_its_call(context: &RecordingContext, step: &str, r: RecordingContext)
    requires
        call_ensures(RecordingContext::child, (context, step), r),
    ensures
        r@.call_id == context@.call_id,
        r@.step == Some(step@),
{
}

// Values.

/// Nothing is known of what is unknown.
pub proof fn law_what_is_unknown(tokens: TokenUsage, usage: Usage, response: ResponseMetadata)
    requires
        call_ensures(TokenUsage::unknown, (), tokens),
        call_ensures(Usage::unknown, (), usage),
        call_ensures(ResponseMetadata::unknown, (), response),
    ensures
        tokens.total is None && tokens.no_cache is None && tokens.cache_read is None,
        tokens.cache_write is None && tokens.text is None && tokens.reasoning is None,
        usage.input_tokens.total is None && usage.input_tokens.no_cache is None,
        usage.input_tokens.cache_read is None && usage.input_tokens.cache_write is None,
        usage.output_tokens.total is None && usage.output_tokens.text is None,
        usage.output_tokens.reasoning is None,
        usage@.raw is None,
        response@.id is None && response@.timestamp is None && response@.model_id is None,
{
}

/// A tool is called by its own name, whatever its kind; a new function has the
/// name and the schema that it was given, and no description.
pub proof fn law_what_a_tool_is_called(tool: &Tool, called: &String, name: &str, schema: Json, function: FunctionTool)
    requires
        call_ensures(Tool::name, (tool,), called),
        call_ensures(FunctionTool::new, (name, schema), function),
    ensures
        tool matches Tool::Function(own) ==> called@ == own.name@,
        tool matches Tool::Provider(own) ==> called@ == own.name@,
        function.name@ == name@,
        function.description is None,
        function.input_schema == schema,
{
}

/// A choice is open exactly where it is left to the model.
pub proof fn law_when_a_choice_is_open(choice: &ToolChoice, r: bool)
    requires
        call_ensures(ToolChoice::is_auto, (choice,), r),
    ensures
        r <==> choice is Auto,
{
}

/// A user's message is the user's text.
pub proof fn law_what_a_user_says(text: &str, r: ModelMessage)
    requires
        call_ensures(ModelMessage::user, (text,), r),
    ensures
        r.role is User,
        r.content matches MessageContent::Text(said) && said@ == text@,
{
}

/// The input of a call is told to the next turn as it is; only an invalid one
/// that is neither an object nor a list becomes an empty object.
pub proof fn law_what_is_told_of_an_input(input: &Json, invalid: Option<bool>, r: Json)
    requires
        call_ensures(response_tool_call_input, (input, invalid), r),
    ensures
        invalid != Some(true) ==> r@ == input@,
        input@ is Object || input@ is Array ==> r@ == input@,
        invalid == Some(true) && !(input@ is Object) && !(input@ is Array) ==> r@ == JsonView::Object(Seq::empty()),
{
}

/// A copy says what its original says.
pub proof fn law_copies_say_the_same(
    json: &Json,
    json_copy: Json,
    call: &ToolCall,
    call_copy: ToolCall,
    raw: &RawToolCall,
    raw_copy: RawToolCall,
    tool: &Tool,
    tool_copy: Tool,
    message: &ModelMessage,
    message_copy: ModelMessage,
    part: &ContentPart,
    part_copy: ContentPart,
    error: &AiMuxError,
    error_copy: AiMuxError,
)
    requires
        call_ensures(Json::copy, (json,), json_copy),
        call_ensures(ToolCall::copy, (call,), call_copy),
        call_ensures(RawToolCall::copy, (raw,), raw_copy),
        call_ensures(Tool::copy, (tool,), tool_copy),
        call_ensures(ModelMessage::copy, (message,), message_copy),
        call_ensures(ContentPart::copy, (part,), part_copy),
        call_ensures(AiMuxError::copy, (error,), error_copy),
    ensures
        json_copy@ == json@,
        call_copy@ == call@,
        raw_copy@ == raw@,
        tool_copy@ == tool@,
        message_copy@ == message@,
        part_copy@ == part@,
        error_copy@ == error@,
{
}

/// A copy of what a model gave says what its original says.
pub proof fn law_copies_of_what_was_given_say_the_same(
    source: &SourcePart,
    source_copy: SourcePart,
    file: &FilePart,
    file_copy: FilePart,
    result: &ToolResultPart,
    result_copy: ToolResultPart,
    usage: &Usage,
    usage_copy: Usage,
    finish: &FinishReason,
    finish_copy: FinishReason,
    response: &ResponseMetadata,
    response_copy: ResponseMetadata,
    choice: &ToolChoice,
    choice_copy: ToolChoice,
)
    requires
        call_ensures(SourcePart::copy, (source,), source_copy),
        call_ensures(FilePart::copy, (file,), file_copy),
        call_ensures(ToolResultPart::copy, (result,), result_copy),
        call_ensures(Usage::copy, (usage,), usage_copy),
        call_ensures(FinishReason::copy, (finish,), finish_copy),
        call_ensures(ResponseMetadata::copy, (response,), response_copy),
        call_ensures(ToolChoice::copy, (choice,), choice_copy),
    ensures
        source_copy@ == source@,
        file_copy@ == file@,
        result_copy@ == result@,
        usage_copy@ == usage@,
        finish_copy@ == finish@,
        response_copy@ == response@,
        choice_copy@ == choice@,
{
}

// Documents.

/// A document is asked for a member, an item, a text, a list, a truth or a
/// count, and gives it where it has one.
pub proof fn law_what_a_document_gives(
    json: &Json,
    key: &str,
    i: usize,
    field: Option<&Json>,
    item: Option<&Json>,
    null: bool,
    text: Option<&String>,
    list: Option<&Vec<Json>>,
    truth: Option<bool>,
    member_text: Option<&String>,
)
    requires
        call_ensures(Json::get, (json, key), field),
        call_ensures(Json::get_item, (json, i), item),
        call_ensures(Json::is_null, (json,), null),
        call_ensures(Json::as_str, (json,), text),
        call_ensures(Json::as_array, (json,), list),
        call_ensures(Json::as_bool, (json,), truth),
        call_ensures(Json::get_str, (json, key), member_text),
    ensures
        field matches Some(value) ==> json@.field(key@) == Some(value@),
        field is None ==> json@.field(key@) is None,
        item matches Some(value) ==> json@ is Array && i < json@->Array_0.len() && value@ == json@->Array_0[i as int],
        item is None ==> !(json@ is Array && i < json@->Array_0.len()),
        null <==> json@ is Null,
        text matches Some(said) ==> json@ == JsonView::String(said@),
        text is None ==> !(json@ is String),
        list matches Some(items) ==> {
            &&& json@ is Array
            &&& json@->Array_0.len() == items@.len()
            &&& forall|k: int| 0 <= k < items@.len() ==> json@->Array_0[k] == (#[trigger] items@[k])@
        },
        list is None ==> !(json@ is Array),
        truth matches Some(b) ==> json@ == JsonView::Bool(b),
        truth is None ==> !(json@ is Bool),
        member_text matches Some(said) ==> json@.field(key@) == Some(JsonView::String(said@)),
        member_text is None ==> !(json@.field(key@) matches Some(value) && value is String),
{
}

/// Setting a member gives that name that value and leaves the other members as
/// they are; without a value nothing is set.
pub proof fn law_what_setting_a_member_does(
    object: JsonObject,
    key: &str,
    other: Seq<char>,
    value: Json,
    r: JsonObject,
    unset: JsonObject,
)
    requires
        call_ensures(JsonObject::with, (object, key, value), r),
        call_ensures(JsonObject::with_some, (object, key, None::<Json>), unset),
    ensures
        JsonView::Object(r@).field(key@) == Some(value@),
        other != key@ ==> JsonView::Object(r@).field(other) == JsonView::Object(object@).field(other),
        unset@ == object@,
{
    lemma_member_put(object@, key@, value@, key@);
    lemma_member_put(object@, key@, value@, other);
}

} // verus!
