//! The entry points of the host boundary, as far as they decide something.
use crate::error::{AiMuxError, AiMuxErrorView};
use crate::generate_options::{prompt_messages, tool_call_repair_inputs, GenerateTextOptions};
use crate::handles::{wrong_handle, HandleKind, Registry};
use crate::host_args::{
    bytes_view, check_pointer, decoded, fault_error, options_read, parse_json_arg, parse_opts_arg, parse_prompt_arg,
    prompt_read, required_text, str_arg, wire_failure, WireFault, WireFaultView,
};
use crate::host_error::{AiMuxFfiError, FfiError, FfiErrorView, FfiResult, HostErrorView};
use crate::json::{Json, JsonView};
use crate::json_text::{json_parse, json_print, parse_json, print_json, text_view};
use crate::message::ModelPrompt;
use crate::operation::{part_of_item, ReadStep, ReadView};
use crate::parse_tool_call::{
    applied, apply_tool_call_repair, context_of, repaired_view, reply_view, tool_call_repair_context, tool_slice_view,
    RepairOutcomeView, ToolCallRepairReply,
};
use crate::protocol::{event_doc, Event, Lane, Next, NextView};
use crate::recording::Recording;
use crate::repair_result::{apply_tool_call_repair_to_result, doc_outcome, patched_result};
use crate::replay::{
    all_decode, kept_lines, lines_that_say, numbered, read_recordings, refuses, MockReplayModel, ScoreMatcher,
};
use crate::result_wire::{part_of_stream_doc, part_of_stream_json};
use crate::stream_part::{item_view, StreamItem, StreamItemView, StreamPartView};
use crate::text::{decimal, decimal_text, join2, join4, lines, same_text, trim, trimmed};
use crate::tool::{Tool, ToolCall, ToolCallView, ToolView};
use crate::wire::{call_doc, call_json};
use crate::wire_read::{get_call, read_call};
use vstd::prelude::*;
use vstd::string::*;

verus! {

/// The view of what a call comes to.
pub open spec fn outcome<T>(r: FfiResult<T>) -> Result<T, HostErrorView> {
    match r {
        Ok(value) => Ok(value),
        Err(error) => Err(error@),
    }
}

pub open spec fn text_outcome(r: FfiResult<String>) -> Result<Seq<char>, HostErrorView> {
    match r {
        Ok(text) => Ok(text@),
        Err(error) => Err(error@),
    }
}

// Repairing calls.

pub open spec fn parsed_view(parsed: Result<Json, String>) -> Result<JsonView, Seq<char>> {
    match parsed {
        Ok(json) => Ok(json@),
        Err(words) => Err(words@),
    }
}

/// The tool call of a text that parsed to this.
pub open spec fn call_from(parsed: Result<JsonView, Seq<char>>) -> Result<ToolCallView, HostErrorView> {
    match parsed {
        Err(words) => Err(fault_error("tool_call_json"@, WireFaultView::Text(words))),
        Ok(doc) => match read_call(doc) {
            Err(words) => Err(fault_error("tool_call_json"@, WireFaultView::Shape(words))),
            Ok(call) => Ok(call),
        },
    }
}

/// The tool call of an argument.
pub open spec fn call_of(bytes: Option<Seq<u8>>) -> Result<ToolCallView, HostErrorView> {
    match required_text(bytes, "tool_call_json"@) {
        Err(error) => Err(HostErrorView::Ffi(error)),
        Ok(text) => call_from(json_parse(text)),
    }
}

pub open spec fn call_outcome(r: FfiResult<ToolCall>) -> Result<ToolCallView, HostErrorView> {
    match r {
        Ok(call) => Ok(call@),
        Err(error) => Err(error@),
    }
}

/// The tool call of a text that parsed to this.
pub fn tool_call_of_parsed(parsed: Result<Json, String>) -> (r: FfiResult<ToolCall>)
    ensures
        call_outcome(r) == call_from(parsed_view(parsed)),
{
    match parsed {
        Err(words) => Err(wire_failure("tool_call_json", WireFault::Text(words))),
        Ok(json) => match get_call(&json) {
            Err(words) => Err(wire_failure("tool_call_json", WireFault::Shape(words))),
            Ok(call) => Ok(call),
        },
    }
}

fn tool_call_arg(bytes: Option<&[u8]>) -> (r: FfiResult<ToolCall>)
    ensures
        call_outcome(r) == call_of(bytes_view(bytes)),
{
    match str_arg(bytes, "tool_call_json") {
        Err(error) => Err(AiMuxFfiError::Ffi(error)),
        Ok(text) => tool_call_of_parsed(parse_json(text.as_str())),
    }
}

/// What a reply that was read amounts to.
pub open spec fn reply_outcome(r: FfiResult<ToolCallRepairReply>) -> Result<RepairOutcomeView, HostErrorView> {
    match r {
        Ok(reply) => Ok(reply_view(reply)),
        Err(error) => Err(error@),
    }
}

/// A document, or `null` where there is none, or the library's error.
pub open spec fn written(r: Result<Option<JsonView>, AiMuxErrorView>) -> Result<Seq<char>, HostErrorView> {
    match r {
        Ok(Some(doc)) => Ok(json_print(doc)),
        Ok(None) => Ok(json_print(JsonView::Null)),
        Err(error) => Err(HostErrorView::AiMux(error)),
    }
}

/// What a host repairs an invalid call from, given the prompt and the options
/// that the call was generated with. `null` says that the call was made
/// without tools, and is not repaired.
pub fn aimux_tool_call_repair_context<
    P: Fn(&Json) -> Result<ModelPrompt, WireFault>,
    O: Fn(&str) -> Result<GenerateTextOptions, WireFault>,
>(
    tool_call_json: Option<&[u8]>,
    prompt_json: Option<&[u8]>,
    opts_json: Option<&[u8]>,
    decode_prompt: &P,
    decode_options: &O,
) -> (r: FfiResult<String>)
    requires
        forall|json: &Json| #[trigger] call_requires(*decode_prompt, (json,)),
        forall|text: &str| #[trigger] call_requires(*decode_options, (text,)),
    ensures
        match call_of(bytes_view(tool_call_json)) {
            Err(error) => text_outcome(r) == Err::<Seq<char>, HostErrorView>(error),
            Ok(call) => exists|p: FfiResult<ModelPrompt>|
                {
                    &&& #[trigger] prompt_read(bytes_view(prompt_json), *decode_prompt, p)
                    &&& match p {
                        Err(error) => text_outcome(r) == Err::<Seq<char>, HostErrorView>(error@),
                        Ok(prompt) => exists|o: FfiResult<GenerateTextOptions>|
                            {
                                &&& #[trigger] options_read(bytes_view(opts_json), *decode_options, o)
                                &&& text_outcome(r) == context_written(call, prompt, o)
                            },
                    }
                },
        },
{
    let call = match tool_call_arg(tool_call_json) {
        Err(error) => return Err(error),
        Ok(call) => call,
    };
    let prompt = parse_prompt_arg(prompt_json, decode_prompt);
    let ghost p = prompt;
    assert(prompt_read(bytes_view(prompt_json), *decode_prompt, p));
    let prompt = match prompt {
        Err(error) => return Err(error),
        Ok(prompt) => prompt,
    };
    let ghost asked = prompt;
    let options = parse_opts_arg(opts_json, decode_options);
    let ghost o = options;
    assert(options_read(bytes_view(opts_json), *decode_options, o));
    let options = match options {
        Err(error) => return Err(error),
        Ok(options) => options,
    };
    let (messages, instructions, tools) = tool_call_repair_inputs(prompt, &options);
    let context = tool_call_repair_context(&call, tools, messages.as_slice(), instructions);
    let r: FfiResult<String> = match context {
        Ok(Some(json)) => Ok(print_json(&json)),
        Ok(None) => Ok(print_json(&crate::wire::json_or_null(None))),
        Err(error) => Err(AiMuxFfiError::AiMux(error)),
    };
    assert(text_outcome(r) == context_written(call@, asked, o));
    r
}

/// The repair context of a call, written, once its prompt and options were
/// read.
pub open spec fn context_written(
    call: ToolCallView,
    prompt: ModelPrompt,
    options: FfiResult<GenerateTextOptions>,
) -> Result<Seq<char>, HostErrorView> {
    match options {
        Err(error) => Err(error@),
        Ok(options) => written(
            context_of(call, options@.tools, prompt_messages(prompt), options@.instructions),
        ),
    }
}

/// A repaired call, written, once the reply was read. `said` are the words in
/// which the tool's schema is refused, should it not compile.
pub open spec fn call_written(
    call: ToolCallView,
    tools: Option<Seq<ToolView>>,
    reply: Result<RepairOutcomeView, HostErrorView>,
    said: Seq<char>,
) -> Result<Seq<char>, HostErrorView> {
    match reply {
        Err(error) => Err(error),
        Ok(reply) => match applied(call, tools, reply, said) {
            Ok(call) => Ok(json_print(call_doc(call))),
            Err(error) => Err(HostErrorView::AiMux(error)),
        },
    }
}

/// Whether a repaired call can be written as `text`.
pub open spec fn call_writes_to(
    call: ToolCallView,
    tools: Option<Seq<ToolView>>,
    reply: Result<RepairOutcomeView, HostErrorView>,
    text: Result<Seq<char>, HostErrorView>,
) -> bool {
    exists|said: Seq<char>| text == #[trigger] call_written(call, tools, reply, said)
}

/// Whether a call comes to `text` once its options were read, by a decoder's
/// reading of the reply.
pub open spec fn call_settles<R: Fn(&str) -> Result<ToolCallRepairReply, WireFault>>(
    call: ToolCallView,
    options: FfiResult<GenerateTextOptions>,
    reply_json: Option<Seq<u8>>,
    decode_reply: R,
    text: Result<Seq<char>, HostErrorView>,
) -> bool {
    match options {
        Err(error) => text == Err::<Seq<char>, HostErrorView>(error@),
        Ok(options) => exists|reply: FfiResult<ToolCallRepairReply>|
            {
                &&& #[trigger] decoded(reply_json, "reply_json"@, decode_reply, reply)
                &&& call_writes_to(call, options@.tools, reply_outcome(reply), text)
            },
    }
}

/// Resolve one invalid call against a host's reply.
pub fn aimux_apply_tool_call_repair<
    O: Fn(&str) -> Result<GenerateTextOptions, WireFault>,
    R: Fn(&str) -> Result<ToolCallRepairReply, WireFault>,
>(
    tool_call_json: Option<&[u8]>,
    opts_json: Option<&[u8]>,
    reply_json: Option<&[u8]>,
    decode_options: &O,
    decode_reply: &R,
) -> (r: FfiResult<String>)
    requires
        forall|text: &str| #[trigger] call_requires(*decode_options, (text,)),
        forall|text: &str| #[trigger] call_requires(*decode_reply, (text,)),
    ensures
        match call_of(bytes_view(tool_call_json)) {
            Err(error) => text_outcome(r) == Err::<Seq<char>, HostErrorView>(error),
            Ok(call) => exists|o: FfiResult<GenerateTextOptions>|
                {
                    &&& #[trigger] options_read(bytes_view(opts_json), *decode_options, o)
                    &&& call_settles(call, o, bytes_view(reply_json), *decode_reply, text_outcome(r))
                },
        },
{
    let call = match tool_call_arg(tool_call_json) {
        Err(error) => return Err(error),
        Ok(call) => call,
    };
    let options = parse_opts_arg(opts_json, decode_options);
    let ghost o = options;
    assert(options_read(bytes_view(opts_json), *decode_options, o));
    let options = match options {
        Err(error) => return Err(error),
        Ok(options) => options,
    };
    let reply = parse_json_arg(reply_json, "reply_json", decode_reply);
    let ghost read = reply;
    assert(decoded(bytes_view(reply_json), "reply_json"@, *decode_reply, read));
    let ghost told = call_written(call@, options@.tools, reply_outcome(read), seq![]);
    let reply = match reply {
        Err(error) => return Err(error),
        Ok(reply) => reply,
    };
    let tools: Option<&[Tool]> = match &options.tools {
        Some(tools) => Some(tools.as_slice()),
        None => None,
    };
    let ghost answer = reply_view(reply);
    let applied_to = apply_tool_call_repair(&call, tools, reply);
    proof {
        let said = choose|said: Seq<char>|
            repaired_view(applied_to) == #[trigger] applied(call@, tool_slice_view(tools), answer, said);
        let told = call_written(call@, options@.tools, reply_outcome(read), said);
    }
    match applied_to {
        Ok(call) => Ok(print_json(&call_json(&call))),
        Err(error) => Err(AiMuxFfiError::AiMux(error)),
    }
}

/// The document of a result argument.
pub open spec fn result_of_arg(bytes: Option<Seq<u8>>) -> Result<JsonView, HostErrorView> {
    match required_text(bytes, "result_json"@) {
        Err(error) => Err(HostErrorView::Ffi(error)),
        Ok(text) => match json_parse(text) {
            Err(words) => Err(fault_error("result_json"@, WireFaultView::Text(words))),
            Ok(doc) => Ok(doc),
        },
    }
}

/// A patched result, written, once the reply was read. `said` are the words in
/// which the tool's schema is refused, should it not compile.
pub open spec fn result_written(
    result: JsonView,
    tools: Option<Seq<ToolView>>,
    tool_call_id: Seq<char>,
    reply: Result<RepairOutcomeView, HostErrorView>,
    said: Seq<char>,
) -> Result<Seq<char>, HostErrorView> {
    match reply {
        Err(error) => Err(error),
        Ok(reply) => match patched_result(result, tools, tool_call_id, reply, said) {
            Ok(doc) => Ok(json_print(doc)),
            Err(error) => Err(HostErrorView::AiMux(error)),
        },
    }
}

/// Whether a patched result can be written as `text`.
pub open spec fn result_writes_to(
    result: JsonView,
    tools: Option<Seq<ToolView>>,
    tool_call_id: Seq<char>,
    reply: Result<RepairOutcomeView, HostErrorView>,
    text: Result<Seq<char>, HostErrorView>,
) -> bool {
    exists|said: Seq<char>| text == #[trigger] result_written(result, tools, tool_call_id, reply, said)
}

/// Whether a result comes to `text` once its options were read, by a decoder's
/// reading of the reply. The id is looked at before the reply is.
pub open spec fn result_settles<R: Fn(&str) -> Result<ToolCallRepairReply, WireFault>>(
    result: JsonView,
    options: FfiResult<GenerateTextOptions>,
    tool_call_id: Result<Seq<char>, FfiErrorView>,
    reply_json: Option<Seq<u8>>,
    decode_reply: R,
    text: Result<Seq<char>, HostErrorView>,
) -> bool {
    match (options, tool_call_id) {
        (Err(error), _) => text == Err::<Seq<char>, HostErrorView>(error@),
        (_, Err(error)) => text == Err::<Seq<char>, HostErrorView>(HostErrorView::Ffi(error)),
        (Ok(options), Ok(id)) => exists|reply: FfiResult<ToolCallRepairReply>|
            {
                &&& #[trigger] decoded(reply_json, "reply_json"@, decode_reply, reply)
                &&& result_writes_to(result, options@.tools, id, reply_outcome(reply), text)
            },
    }
}

/// Resolve one invalid call of a whole result against a host's reply.
pub fn aimux_apply_tool_call_repair_to_result<
    O: Fn(&str) -> Result<GenerateTextOptions, WireFault>,
    R: Fn(&str) -> Result<ToolCallRepairReply, WireFault>,
>(
    result_json: Option<&[u8]>,
    opts_json: Option<&[u8]>,
    tool_call_id: Option<&[u8]>,
    reply_json: Option<&[u8]>,
    decode_options: &O,
    decode_reply: &R,
) -> (r: FfiResult<String>)
    requires
        forall|text: &str| #[trigger] call_requires(*decode_options, (text,)),
        forall|text: &str| #[trigger] call_requires(*decode_reply, (text,)),
    ensures
        match result_of_arg(bytes_view(result_json)) {
            Err(error) => text_outcome(r) == Err::<Seq<char>, HostErrorView>(error),
            Ok(result) => exists|o: FfiResult<GenerateTextOptions>|
                {
                    &&& #[trigger] options_read(bytes_view(opts_json), *decode_options, o)
                    &&& result_settles(
                        result,
                        o,
                        required_text(bytes_view(tool_call_id), "tool_call_id"@),
                        bytes_view(reply_json),
                        *decode_reply,
                        text_outcome(r),
                    )
                },
        },
{
    let text = match str_arg(result_json, "result_json") {
        Err(error) => return Err(AiMuxFfiError::Ffi(error)),
        Ok(text) => text,
    };
    let result = match parse_json(text.as_str()) {
        Err(words) => return Err(wire_failure("result_json", WireFault::Text(words))),
        Ok(result) => result,
    };
    let options = parse_opts_arg(opts_json, decode_options);
    let ghost o = options;
    assert(options_read(bytes_view(opts_json), *decode_options, o));
    let options = match options {
        Err(error) => return Err(error),
        Ok(options) => options,
    };
    let id = match str_arg(tool_call_id, "tool_call_id") {
        Err(error) => return Err(AiMuxFfiError::Ffi(error)),
        Ok(id) => id,
    };
    let reply = parse_json_arg(reply_json, "reply_json", decode_reply);
    let ghost read = reply;
    assert(decoded(bytes_view(reply_json), "reply_json"@, *decode_reply, read));
    let ghost told = result_written(result@, options@.tools, id@, reply_outcome(read), seq![]);
    let reply = match reply {
        Err(error) => return Err(error),
        Ok(reply) => reply,
    };
    let tools: Option<&[Tool]> = match &options.tools {
        Some(tools) => Some(tools.as_slice()),
        None => None,
    };
    let ghost answer = reply_view(reply);
    let patched = apply_tool_call_repair_to_result(&result, tools, id.as_str(), reply);
    proof {
        let said = choose|said: Seq<char>|
            doc_outcome(patched) == #[trigger] patched_result(result@, tool_slice_view(tools), id@, answer, said);
        let told = result_written(result@, options@.tools, id@, reply_outcome(read), said);
    }
    match patched {
        Ok(patched) => Ok(print_json(&patched)),
        Err(error) => Err(AiMuxFfiError::AiMux(error)),
    }
}

// Streaming.

/// The text that a part callback gets for a stream item: a malformed frame is
/// told as an error part, any other failure ends the stream.
pub open spec fn pushed(item: StreamItemView) -> Result<Seq<char>, AiMuxErrorView> {
    match item {
        Ok(part) => Ok(json_print(part_of_stream_doc(part))),
        Err(error) => if error is JsonParse {
            Ok(json_print(part_of_stream_doc(StreamPartView::Error { error })))
        } else {
            Err(error)
        },
    }
}

/// The text that a part callback gets for a stream item.
pub fn stream_part_text(item: StreamItem) -> (r: Result<String, AiMuxError>)
    ensures
        pushed(item_view(item)) == (match r {
            Ok(text) => Ok(text@),
            Err(error) => Err(error@),
        }),
{
    match part_of_item(item) {
        Ok(part) => Ok(print_json(&part_of_stream_json(&part))),
        Err(error) => Err(error),
    }
}

/// The chunk that a part callback gets for an item of an OpenAI stream. A
/// malformed frame has no place among chunks and is passed over.
pub fn openai_chunk<C>(item: Result<C, AiMuxError>) -> (r: Result<Option<C>, AiMuxError>)
    ensures
        match item {
            Ok(chunk) => r == Ok::<Option<C>, AiMuxError>(Some(chunk)),
            Err(error) => if error@ is JsonParse {
                r == Ok::<Option<C>, AiMuxError>(None)
            } else {
                r == Err::<Option<C>, AiMuxError>(error)
            },
        },
{
    match item {
        Ok(chunk) => Ok(Some(chunk)),
        Err(error) => if error.is_recoverable_stream_error() {
            Ok(None)
        } else {
            Err(error)
        },
    }
}

/// Check the two callbacks of a stream before anything else is done.
pub fn check_callbacks(on_part: bool, on_done: bool) -> (r: Result<(), FfiError>)
    ensures
        match r {
            Ok(()) => on_part && on_done,
            Err(error) => error@ == (FfiErrorView::NullPointer {
                argument: if !on_part {
                    "on_part"@
                } else {
                    "on_done"@
                },
            }) && !(on_part && on_done),
        },
{
    match check_pointer(on_part, "on_part") {
        Ok(()) => check_pointer(on_done, "on_done"),
        Err(error) => Err(error),
    }
}

// Transcription sessions.

pub const AIMUX_TRANSCRIPTION_NEXT_PART_PART: i32 = 1;

pub const AIMUX_TRANSCRIPTION_NEXT_PART_ENDED: i32 = 2;

pub const AIMUX_TRANSCRIPTION_NEXT_PART_TIMEOUT: i32 = 3;

/// What pulling a part from a session came to: a part, the end, or a failure
/// of the stream; or a failure of the wait itself.
pub type Pulled = Result<Option<Result<String, AiMuxError>>, AiMuxError>;

/// What is told of a pull: its state and the part. Not to have a part in time
/// is a state, not an error; the session lives on.
pub fn next_part_state(pulled: Pulled) -> (r: FfiResult<(i32, Option<String>)>)
    ensures
        match pulled {
            Ok(Some(Ok(part))) => r == Ok::<(i32, Option<String>), AiMuxFfiError>(
                (AIMUX_TRANSCRIPTION_NEXT_PART_PART, Some(part)),
            ),
            Ok(None) => r == Ok::<(i32, Option<String>), AiMuxFfiError>(
                (AIMUX_TRANSCRIPTION_NEXT_PART_ENDED, None),
            ),
            Ok(Some(Err(error))) => r == Err::<(i32, Option<String>), AiMuxFfiError>(
                AiMuxFfiError::AiMux(error),
            ),
            Err(error) => if error is Timeout {
                r == Ok::<(i32, Option<String>), AiMuxFfiError>((AIMUX_TRANSCRIPTION_NEXT_PART_TIMEOUT, None))
            } else {
                r == Err::<(i32, Option<String>), AiMuxFfiError>(AiMuxFfiError::AiMux(error))
            },
        },
{
    match pulled {
        Ok(Some(Ok(part))) => Ok((AIMUX_TRANSCRIPTION_NEXT_PART_PART, Some(part))),
        Ok(None) => Ok((AIMUX_TRANSCRIPTION_NEXT_PART_ENDED, None)),
        Ok(Some(Err(error))) => Err(AiMuxFfiError::AiMux(error)),
        Err(AiMuxError::Timeout(_)) => Ok((AIMUX_TRANSCRIPTION_NEXT_PART_TIMEOUT, None)),
        Err(error) => Err(AiMuxFfiError::AiMux(error)),
    }
}

/// How long a pull waits: a negative time is for ever.
pub fn pull_wait(timeout_ms: i64) -> (r: Option<u64>)
    ensures
        match r {
            Some(ms) => 0 <= timeout_ms == ms,
            None => timeout_ms < 0,
        },
{
    if timeout_ms < 0 {
        None
    } else {
        Some(timeout_ms as u64)
    }
}

/// Whether there is audio to push. Nothing may be absent; something may not.
pub fn audio_to_push(present: bool, len: usize) -> (r: Result<bool, FfiError>)
    ensures
        match r {
            Ok(push) => push == present && (present || len == 0),
            Err(error) => !present && len > 0 && error@ == (FfiErrorView::NullPointer { argument: "data"@ }),
        },
{
    if present {
        Ok(true)
    } else if len == 0 {
        Ok(false)
    } else {
        Err(FfiError::null_pointer("data"))
    }
}

// Operations.

pub const OPERATION_EVENT: i32 = 0;

pub const OPERATION_WAIT_TIMEOUT: i32 = 1;

pub const OPERATION_ENDED: i32 = 2;

pub const OPERATION_READER_BUSY: i32 = 3;

/// The lane and the wait of a read, or why the read is refused.
pub open spec fn read_request(event_out: bool, state_out: bool, lane: i32, wait_ms: i64) -> Result<
    (Lane, Option<u64>),
    HostErrorView,
> {
    if !event_out {
        Err(HostErrorView::Ffi(FfiErrorView::NullPointer { argument: "out_event_json"@ }))
    } else if !state_out {
        Err(HostErrorView::Ffi(FfiErrorView::NullPointer { argument: "out_state"@ }))
    } else if !(0 <= lane <= 3) {
        Err(HostErrorView::AiMux(AiMuxErrorView::InvalidArgument("invalid operation lane"@)))
    } else if wait_ms < -1 {
        Err(HostErrorView::AiMux(AiMuxErrorView::InvalidArgument("wait_ms must be -1 or nonnegative"@)))
    } else {
        Ok(
            (
                if lane == 0 {
                    Lane::Control
                } else if lane == 1 {
                    Lane::Output
                } else if lane == 2 {
                    Lane::Any
                } else {
                    Lane::Terminal
                },
                if wait_ms == -1 {
                    None
                } else {
                    Some(wait_ms as u64)
                },
            ),
        )
    }
}

/// Check the arguments of a read: the lane, and how long to wait, for ever
/// where `None`.
pub fn operation_read_args(event_out: bool, state_out: bool, lane: i32, wait_ms: i64) -> (r: FfiResult<
    (Lane, Option<u64>),
>)
    ensures
        outcome(r) == read_request(event_out, state_out, lane, wait_ms),
{
    if !event_out {
        return Err(AiMuxFfiError::Ffi(FfiError::null_pointer("out_event_json")));
    }
    if !state_out {
        return Err(AiMuxFfiError::Ffi(FfiError::null_pointer("out_state")));
    }
    match Lane::from_number(lane) {
        None => Err(AiMuxFfiError::invalid_argument("invalid operation lane")),
        Some(lane) => if wait_ms < -1 {
            Err(AiMuxFfiError::invalid_argument("wait_ms must be -1 or nonnegative"))
        } else if wait_ms == -1 {
            Ok((lane, None))
        } else {
            Ok((lane, Some(wait_ms as u64)))
        },
    }
}

/// What is told of a read: its state and the event.
pub open spec fn read_told(read: ReadView) -> Result<(i32, Option<Seq<char>>), HostErrorView> {
    match read {
        ReadView::Wait => Ok((OPERATION_WAIT_TIMEOUT, None)),
        ReadView::Ready(NextView::Ended) => Ok((OPERATION_ENDED, None)),
        ReadView::Ready(NextView::ReaderBusy) => Ok((OPERATION_READER_BUSY, None)),
        ReadView::Ready(NextView::Event(event)) => Ok((OPERATION_EVENT, Some(json_print(event_doc(event))))),
        ReadView::Failed(error) => Err(HostErrorView::AiMux(error)),
    }
}

/// What is told of a read that waited as long as it may.
pub fn operation_read_state(read: ReadStep) -> (r: FfiResult<(i32, Option<String>)>)
    ensures
        read_told(read@) == (match r {
            Ok((state, event)) => Ok((state, text_view(event))),
            Err(error) => Err(error@),
        }),
{
    match read {
        ReadStep::Wait => Ok((OPERATION_WAIT_TIMEOUT, None)),
        ReadStep::Ready(Next::Ended) => Ok((OPERATION_ENDED, None)),
        ReadStep::Ready(Next::ReaderBusy) => Ok((OPERATION_READER_BUSY, None)),
        ReadStep::Ready(Next::Event(event)) => Ok((OPERATION_EVENT, Some(print_json(&event.json())))),
        ReadStep::Failed(error) => Err(AiMuxFfiError::AiMux(error)),
    }
}

// Recording, replay and configuration.

/// Check the capacity of a recording ring.
pub fn check_ring_capacity(cap: u64) -> (r: FfiResult<()>)
    ensures
        match r {
            Ok(()) => cap > 0,
            Err(error) => cap == 0 && error@ == HostErrorView::AiMux(
                AiMuxErrorView::InvalidArgument("cap: must be > 0"@),
            ),
        },
{
    if cap == 0 {
        Err(AiMuxFfiError::invalid_argument("cap: must be > 0"))
    } else {
        Ok(())
    }
}

/// Why a registry refused a well-formed configuration: what it could not read
/// is an invalid argument.
pub fn provider_config_error(error: AiMuxError) -> (r: AiMuxError)
    ensures
        r@ == (match error@ {
            AiMuxErrorView::JsonParse(words) => AiMuxErrorView::InvalidArgument("config_json: "@ + words),
            other => other,
        }),
{
    match error {
        AiMuxError::JsonParse(words) => AiMuxError::InvalidArgument(join2("config_json: ", words.as_str())),
        other => other,
    }
}

/// Lines without the blanks at their ends.
pub open spec fn trimmed_lines(kept: Seq<(nat, Seq<char>)>) -> Seq<(nat, Seq<char>)> {
    Seq::new(kept.len(), |i: int| (kept[i].0, trimmed(kept[i].1)))
}

fn trim_lines(kept: &Vec<(usize, String)>) -> (r: Vec<(usize, String)>)
    ensures
        numbered(r@) == trimmed_lines(numbered(kept@)),
{
    let mut out: Vec<(usize, String)> = Vec::new();
    let mut i: usize = 0;
    while i < kept.len()
        invariant
            i <= kept.len(),
            out@.len() == i,
            forall|k: int|
                0 <= k < i ==> (#[trigger] out@[k]).0 == kept@[k].0 && out@[k].1@ == trimmed(kept@[k].1@),
        decreases kept.len() - i,
    {
        out.push((kept[i].0, trim(kept[i].1.as_str()).to_owned()));
        i = i + 1;
    }
    assert(numbered(out@) =~= trimmed_lines(numbered(kept@)));
    out
}

/// A refusal of one line.
pub open spec fn line_fault(number: nat, fault: WireFaultView) -> WireFaultView {
    let lead = "line "@ + decimal(number) + ": "@;
    match fault {
        WireFaultView::Text(words) => WireFaultView::Text(lead + words),
        WireFaultView::Shape(words) => WireFaultView::Shape(lead + words),
    }
}

/// A model that answers from recordings, one to a line.
pub fn aimux_mock_replay_new<F: Fn(&str) -> Result<Recording, WireFault>>(
    recordings_jsonl: Option<&[u8]>,
    decode: &F,
) -> (r: FfiResult<MockReplayModel<ScoreMatcher>>)
    requires
        forall|line: &str| #[trigger] call_requires(*decode, (line,)),
    ensures
        match required_text(bytes_view(recordings_jsonl), "recordings_jsonl"@) {
            Err(error) => r matches Err(e) && e@ == HostErrorView::Ffi(error),
            Ok(text) => {
                let kept = trimmed_lines(kept_lines(lines(text)));
                match r {
                    Ok(model) => {
                        &&& model.recorded().len() > 0
                        &&& all_decode::<WireFault, F>(*decode, kept, model.recorded())
                        &&& model.provider_name() == model.recorded()[0].provider.provider@
                        &&& model.model_name() == model.recorded()[0].provider.model_id@
                        &&& model.strategy().provider() == model.provider_name()
                        &&& model.strategy().model_id() == model.model_name()
                    },
                    Err(error) => {
                        ||| kept.len() == 0 && error@ == HostErrorView::AiMux(
                            AiMuxErrorView::InvalidArgument("recordings_jsonl: no recordings"@),
                        )
                        ||| exists|number: nat, fault: WireFault|
                            #[trigger] refuses(*decode, kept, number, fault) && error@ == fault_error(
                                "recordings_jsonl"@,
                                line_fault(number, fault@),
                            )
                    },
                }
            },
        },
{
    let text = match str_arg(recordings_jsonl, "recordings_jsonl") {
        Err(error) => return Err(AiMuxFfiError::Ffi(error)),
        Ok(text) => text,
    };
    let kept = trim_lines(&lines_that_say(text.as_str()));
    match read_recordings(&kept, decode) {
        Err((number, fault)) => {
            let ghost was = fault;
            assert(refuses(*decode, numbered(kept@), number as nat, was));
            let count = decimal_text(number as u64);
            let told: WireFault = match fault {
                WireFault::Text(words) => WireFault::Text(
                    join4("line ", count.as_str(), ": ", words.as_str()),
                ),
                WireFault::Shape(words) => WireFault::Shape(
                    join4("line ", count.as_str(), ": ", words.as_str()),
                ),
            };
            Err(wire_failure("recordings_jsonl", told))
        },
        Ok(recordings) => {
            if recordings.len() == 0 {
                return Err(AiMuxFfiError::invalid_argument("recordings_jsonl: no recordings"));
            }
            let provider = recordings[0].provider.provider.clone();
            let model_id = recordings[0].provider.model_id.clone();
            Ok(MockReplayModel::new(provider.as_str(), model_id.as_str(), recordings))
        },
    }
}

// Composite models.

/// How a router picks a child.
#[derive(Clone, Copy, PartialEq, Eq, Structural, Debug)]
pub enum RouterKind {
    Rule,
    Weighted,
}

/// Whether a router goes on to another child when one fails.
#[derive(Clone, Copy, PartialEq, Eq, Structural, Debug)]
pub enum FallbackPolicy {
    OnError,
    NoFallback,
}

/// What a router is made with.
pub struct RouterSettings {
    pub router: RouterKind,
    pub fallback: FallbackPolicy,
    pub provider_name: String,
    pub model_id: String,
}

pub open spec fn named(name: Option<Seq<char>>) -> Seq<char> {
    match name {
        Some(name) => name,
        None => "router"@,
    }
}

/// What a router is made with. Anything but `weighted` goes by the rule, and
/// anything but `none` falls back on errors.
pub fn router_settings(
    router: Option<String>,
    fallback: Option<String>,
    provider_name: Option<String>,
    model_id: Option<String>,
) -> (r: RouterSettings)
    ensures
        r.router == (if text_view(router) == Some("weighted"@) {
            RouterKind::Weighted
        } else {
            RouterKind::Rule
        }),
        r.fallback == (if text_view(fallback) == Some("none"@) {
            FallbackPolicy::NoFallback
        } else {
            FallbackPolicy::OnError
        }),
        r.provider_name@ == named(text_view(provider_name)),
        r.model_id@ == named(text_view(model_id)),
{
    let weighted: bool = match &router {
        Some(word) => same_text(word.as_str(), "weighted"),
        None => false,
    };
    let alone: bool = match &fallback {
        Some(word) => same_text(word.as_str(), "none"),
        None => false,
    };
    RouterSettings {
        router: if weighted {
            RouterKind::Weighted
        } else {
            RouterKind::Rule
        },
        fallback: if alone {
            FallbackPolicy::NoFallback
        } else {
            FallbackPolicy::OnError
        },
        provider_name: match provider_name {
            Some(name) => name,
            None => "router".to_owned(),
        },
        model_id: match model_id {
            Some(name) => name,
            None => "router".to_owned(),
        },
    }
}

/// The members of a router: at least one model.
pub fn router_members<T, S>(registry: &Registry<T, S>, handles: Option<&[u64]>, len: usize) -> (r: FfiResult<
    Vec<u64>,
>)
    requires
        handles matches Some(list) ==> list@.len() == len,
    ensures
        match handles {
            None => r matches Err(error) && error@ == HostErrorView::Ffi(
                if len == 0 {
                    wrong_handle("router child"@)
                } else {
                    FfiErrorView::NullPointer { argument: "handles"@ }
                },
            ),
            Some(given) => if given@.len() > 0 && registry@.all_models(given@) {
                r matches Ok(list) && list@ == given@
            } else {
                r matches Err(error) && error@ == HostErrorView::Ffi(wrong_handle("router child"@))
            },
        },
{
    match registry.model_handles(handles, len, "handles", "router child") {
        Err(error) => Err(error),
        Ok(list) => if list.len() == 0 {
            Err(AiMuxFfiError::Ffi(FfiError::invalid_handle("router child")))
        } else {
            Ok(list)
        },
    }
}

/// The references of a mixture of models, which may be none, once its
/// aggregator is a model.
pub fn moa_members<T, S>(
    registry: &Registry<T, S>,
    reference_handles: Option<&[u64]>,
    ref_len: usize,
    aggregator: u64,
) -> (r: FfiResult<Vec<u64>>)
    requires
        reference_handles matches Some(list) ==> list@.len() == ref_len,
    ensures
        if !registry@.holds(aggregator, HandleKind::Language) {
            r matches Err(error) && error@ == HostErrorView::Ffi(wrong_handle("moa aggregator"@))
        } else {
            match reference_handles {
                None => if ref_len == 0 {
                    r matches Ok(list) && list@.len() == 0
                } else {
                    r matches Err(error) && error@ == HostErrorView::Ffi(
                        FfiErrorView::NullPointer { argument: "reference_handles"@ },
                    )
                },
                Some(given) => if registry@.all_models(given@) {
                    r matches Ok(list) && list@ == given@
                } else {
                    r matches Err(error) && error@ == HostErrorView::Ffi(wrong_handle("moa reference"@))
                },
            }
        },
{
    match registry.entry_of(aggregator, HandleKind::Language, "moa aggregator") {
        Err(error) => Err(AiMuxFfiError::Ffi(error)),
        Ok(_) => registry.model_handles(reference_handles, ref_len, "reference_handles", "moa reference"),
    }
}

// Laws.

/// A read tells the end of a successful operation as a state, and the failure
/// of an operation as its own error; only an event carries a text.
pub proof fn law_read_states(read: ReadView)
    ensures
        read_told(read) matches Ok((state, event)) ==> {
            &&& event is Some <==> state == OPERATION_EVENT
            &&& 0 <= state <= 3
        },
        read_told(read) is Err <==> read is Failed,
{
}

/// A malformed frame never ends a stream that is pushed to a host.
pub proof fn law_malformed_frames_do_not_end_a_stream(words: Seq<char>)
    ensures
        pushed(Err::<StreamPartView, AiMuxErrorView>(AiMuxErrorView::JsonParse(words))) is Ok,
{
}

} // verus!
