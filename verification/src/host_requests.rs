//! The arguments of a host's calls, checked in their order: what a call is
//! made with, or the first thing that is wrong.
use crate::constructors::both;
use crate::error::{AiMuxError, AiMuxErrorView};
use crate::generate_options::GenerateTextOptions;
use crate::handles::{wrong_handle, HandleKind, Registry, RegistryView};
use crate::host_args::{
    answered_with, answers, bytes_view, check_pointer, config_text, decoded, decoded_some, fault_error, lifted,
    normalize_config_json, opt_str_arg, options_read, optional_text, parse_json_arg, parse_optional_arg,
    parse_opts_arg, parse_prompt_arg, parse_two_args, prompt_read, required_text, str_arg, wire_failure, WireFault,
    WireFaultView,
};
use crate::host_calls::{check_callbacks, parsed_view};
use crate::host_error::{AiMuxFfiError, FfiError, FfiErrorView, FfiResult, HostErrorView};
use crate::json::{Json, JsonView};
use crate::json_text::{json_parse, parse_json};
use crate::message::ModelPrompt;
use crate::operation::{asked_stream_options, openai_stream_options_of, OpenAiStreamOptions, Operation, OperationView};
use crate::options::AbortSignal;
use crate::protocol::{Reply, ReplyStatus, ReplyView, StartRequest};
use crate::text::join2;
use vstd::prelude::*;
use vstd::string::*;

verus! {

/// What a registry keeps under a handle of one kind, or the error of a handle
/// that is not of that kind.
pub open spec fn kept<T, S>(registry: RegistryView<T, S>, handle: u64, kind: HandleKind) -> Result<T, FfiErrorView> {
    if registry.holds(handle, kind) {
        Ok(registry.entries[handle].value)
    } else {
        Err(wrong_handle(kind.word()))
    }
}

// Generations.

/// What a generation is made with.
pub struct GenerationRequest<'a, T> {
    pub model: &'a T,
    pub prompt: ModelPrompt,
    pub options: GenerateTextOptions,
}

/// Whether `r` is the generation of a prompt that was read, with these options.
pub open spec fn optioned<T, O: Fn(&str) -> Result<GenerateTextOptions, WireFault>>(
    model: T,
    prompt: ModelPrompt,
    opts_json: Option<Seq<u8>>,
    decode_options: O,
    r: FfiResult<GenerationRequest<T>>,
) -> bool {
    exists|options: FfiResult<GenerateTextOptions>|
        #[trigger] options_read(opts_json, decode_options, options) && (match (options, r) {
            (Err(error), Err(e)) => e == error,
            (Ok(options), Ok(request)) => {
                &&& *request.model == model
                &&& request.prompt == prompt
                &&& request.options == options
            },
            _ => false,
        })
}

/// Whether `r` is the generation of a model that is there.
pub open spec fn prompted<
    T,
    P: Fn(&Json) -> Result<ModelPrompt, WireFault>,
    O: Fn(&str) -> Result<GenerateTextOptions, WireFault>,
>(
    model: T,
    prompt_json: Option<Seq<u8>>,
    opts_json: Option<Seq<u8>>,
    decode_prompt: P,
    decode_options: O,
    r: FfiResult<GenerationRequest<T>>,
) -> bool {
    exists|prompt: FfiResult<ModelPrompt>|
        #[trigger] prompt_read(prompt_json, decode_prompt, prompt) && (match prompt {
            Err(error) => r matches Err(e) && e == error,
            Ok(prompt) => optioned(model, prompt, opts_json, decode_options, r),
        })
}

/// Whether `r` is what the arguments of a generation come to: the handle is
/// looked up first, then the prompt is read, then the options.
pub open spec fn generation_read<
    T,
    S,
    P: Fn(&Json) -> Result<ModelPrompt, WireFault>,
    O: Fn(&str) -> Result<GenerateTextOptions, WireFault>,
>(
    registry: RegistryView<T, S>,
    handle: u64,
    prompt_json: Option<Seq<u8>>,
    opts_json: Option<Seq<u8>>,
    decode_prompt: P,
    decode_options: O,
    r: FfiResult<GenerationRequest<T>>,
) -> bool {
    match kept(registry, handle, HandleKind::Language) {
        Err(error) => r matches Err(e) && e@ == HostErrorView::Ffi(error),
        Ok(model) => prompted(model, prompt_json, opts_json, decode_prompt, decode_options, r),
    }
}

/// Read the arguments of a generation.
pub fn generation_request<
    'a,
    T,
    S,
    P: Fn(&Json) -> Result<ModelPrompt, WireFault>,
    O: Fn(&str) -> Result<GenerateTextOptions, WireFault>,
>(
    registry: &'a Registry<T, S>,
    handle: u64,
    prompt_json: Option<&[u8]>,
    opts_json: Option<&[u8]>,
    decode_prompt: &P,
    decode_options: &O,
) -> (r: FfiResult<GenerationRequest<'a, T>>)
    requires
        forall|json: &Json| #[trigger] call_requires(*decode_prompt, (json,)),
        forall|text: &str| #[trigger] call_requires(*decode_options, (text,)),
    ensures
        generation_read(
            registry@,
            handle,
            bytes_view(prompt_json),
            bytes_view(opts_json),
            *decode_prompt,
            *decode_options,
            r,
        ),
{
    let model = match registry.model_of(handle) {
        Err(error) => return Err(AiMuxFfiError::Ffi(error)),
        Ok(model) => model,
    };
    let prompt = parse_prompt_arg(prompt_json, decode_prompt);
    let ghost p = prompt;
    assert(prompt_read(bytes_view(prompt_json), *decode_prompt, p));
    let prompt = match prompt {
        Err(error) => return Err(error),
        Ok(prompt) => prompt,
    };
    let options = parse_opts_arg(opts_json, decode_options);
    let ghost o = options;
    assert(options_read(bytes_view(opts_json), *decode_options, o));
    let r: FfiResult<GenerationRequest<'a, T>> = match options {
        Err(error) => Err(error),
        Ok(options) => Ok(GenerationRequest { model, prompt, options }),
    };
    assert(optioned(*model, p->Ok_0, bytes_view(opts_json), *decode_options, r));
    r
}

/// Read the arguments of a streamed generation: missing callbacks come first,
/// and the call's own abort signal takes the place of any other.
pub fn stream_request<
    'a,
    T,
    S,
    P: Fn(&Json) -> Result<ModelPrompt, WireFault>,
    O: Fn(&str) -> Result<GenerateTextOptions, WireFault>,
>(
    registry: &'a Registry<T, S>,
    callbacks: (bool, bool),
    handle: u64,
    prompt_json: Option<&[u8]>,
    opts_json: Option<&[u8]>,
    abort_signal: Option<AbortSignal>,
    decode_prompt: &P,
    decode_options: &O,
) -> (r: FfiResult<GenerationRequest<'a, T>>)
    requires
        forall|json: &Json| #[trigger] call_requires(*decode_prompt, (json,)),
        forall|text: &str| #[trigger] call_requires(*decode_options, (text,)),
    ensures
        if !callbacks.0 || !callbacks.1 {
            r matches Err(e) && e@ == HostErrorView::Ffi(
                FfiErrorView::NullPointer {
                    argument: if !callbacks.0 {
                        "on_part"@
                    } else {
                        "on_done"@
                    },
                },
            )
        } else {
            exists|read: FfiResult<GenerationRequest<T>>|
                #[trigger] generation_read(
                    registry@,
                    handle,
                    bytes_view(prompt_json),
                    bytes_view(opts_json),
                    *decode_prompt,
                    *decode_options,
                    read,
                ) && (match (read, r) {
                    (Err(error), Err(e)) => e == error,
                    (Ok(read), Ok(request)) => {
                        &&& *request.model == *read.model
                        &&& request.prompt == read.prompt
                        &&& request.options == (GenerateTextOptions { abort_signal, ..read.options })
                    },
                    _ => false,
                })
        },
{
    match check_callbacks(callbacks.0, callbacks.1) {
        Err(error) => return Err(AiMuxFfiError::Ffi(error)),
        Ok(()) => {},
    }
    let read = generation_request(registry, handle, prompt_json, opts_json, decode_prompt, decode_options);
    let ghost was = read;
    assert(generation_read(
        registry@,
        handle,
        bytes_view(prompt_json),
        bytes_view(opts_json),
        *decode_prompt,
        *decode_options,
        was,
    ));
    match read {
        Err(error) => Err(error),
        Ok(request) => {
            let mut options = request.options;
            options.abort_signal = abort_signal;
            Ok(GenerationRequest { model: request.model, prompt: request.prompt, options })
        },
    }
}

/// The stream options that an options argument asks for. One that is missing
/// or is not JSON asks for nothing.
pub open spec fn stream_options_arg(bytes: Option<Seq<u8>>) -> OpenAiStreamOptions {
    match optional_text(bytes, "opts_json"@) {
        Ok(Some(text)) => match json_parse(text) {
            Ok(doc) => asked_stream_options(doc),
            Err(_) => asked_stream_options(JsonView::Null),
        },
        _ => asked_stream_options(JsonView::Null),
    }
}

/// Read the stream options of an options argument.
pub fn openai_stream_arg(opts_json: Option<&[u8]>) -> (r: OpenAiStreamOptions)
    ensures
        r == stream_options_arg(bytes_view(opts_json)),
{
    broadcast use crate::json::lemma_model;

    if let Ok(Some(text)) = opt_str_arg(opts_json, "opts_json") {
        if let Ok(doc) = parse_json(text.as_str()) {
            return openai_stream_options_of(&doc);
        }
    }
    openai_stream_options_of(&Json::Null)
}

// Other models.

/// Whether `r` is a model together with what a decoder makes of an argument.
pub open spec fn with_argument<T, V, F: Fn(&str) -> Result<V, WireFault>>(
    model: T,
    bytes: Option<Seq<u8>>,
    argument: Seq<char>,
    decode: F,
    r: FfiResult<(&T, V)>,
) -> bool {
    exists|value: FfiResult<V>|
        #[trigger] decoded(bytes, argument, decode, value) && (match (value, r) {
            (Err(error), Err(e)) => e == error,
            (Ok(value), Ok((kept, v))) => *kept == model && v == value,
            _ => false,
        })
}

/// Read the arguments of a call on a model of some kind: the handle first, then
/// the options, which are required.
pub fn model_call<'a, T, S, V, F: Fn(&str) -> Result<V, WireFault>>(
    registry: &'a Registry<T, S>,
    handle: u64,
    kind: HandleKind,
    opts_json: Option<&[u8]>,
    decode: &F,
) -> (r: FfiResult<(&'a T, V)>)
    requires
        forall|text: &str| #[trigger] call_requires(*decode, (text,)),
    ensures
        match kept(registry@, handle, kind) {
            Err(error) => r matches Err(e) && e@ == HostErrorView::Ffi(error),
            Ok(model) => with_argument(model, bytes_view(opts_json), "opts_json"@, *decode, r),
        },
{
    let model = match registry.of(handle, kind) {
        Err(error) => return Err(AiMuxFfiError::Ffi(error)),
        Ok(model) => model,
    };
    let value = parse_json_arg(opts_json, "opts_json", decode);
    let ghost read = value;
    assert(decoded(bytes_view(opts_json), "opts_json"@, *decode, read));
    match value {
        Err(error) => Err(error),
        Ok(value) => Ok((model, value)),
    }
}

/// Read the arguments that ask a provider for a model.
pub fn provider_model_request<'a, T, S>(registry: &'a Registry<T, S>, handle: u64, model_id: Option<&[u8]>) -> (r:
    Result<(&'a T, String), FfiError>)
    ensures
        match both(
            kept(registry@, handle, HandleKind::Provider),
            required_text(bytes_view(model_id), "model_id"@),
        ) {
            Err(error) => r matches Err(e) && e@ == error,
            Ok((provider, id)) => r matches Ok(request) && *request.0 == provider && request.1@ == id,
        },
{
    let provider = match registry.of(handle, HandleKind::Provider) {
        Err(error) => return Err(error),
        Ok(provider) => provider,
    };
    match str_arg(model_id, "model_id") {
        Err(error) => Err(error),
        Ok(id) => Ok((provider, id)),
    }
}

/// What an embedding is made with.
pub struct EmbedRequest<'a, T, V, O> {
    pub model: &'a T,
    pub values: V,
    /// `None` leaves the defaults.
    pub options: Option<O>,
}

/// Whether `r` is the embedding of values whose text is there, once the
/// options were read.
pub open spec fn embedding_of<T, V, O, F: Fn(&str) -> Result<V, WireFault>>(
    model: T,
    values_text: Seq<char>,
    options: FfiResult<Option<O>>,
    decode_values: F,
    r: FfiResult<EmbedRequest<T, V, O>>,
) -> bool {
    match options {
        Err(error) => r matches Err(e) && e == error,
        Ok(options) => exists|values: FfiResult<V>|
            #[trigger] answered_with(decode_values, values_text, "values_json"@, values) && (match (values, r) {
                (Err(error), Err(e)) => e == error,
                (Ok(values), Ok(request)) => {
                    &&& *request.model == model
                    &&& request.values == values
                    &&& request.options == options
                },
                _ => false,
            }),
    }
}

/// Whether `r` is the embedding of values whose text is there.
pub open spec fn embedding_read<T, V, O, F: Fn(&str) -> Result<V, WireFault>, G: Fn(&str) -> Result<O, WireFault>>(
    model: T,
    values_text: Seq<char>,
    opts_json: Option<Seq<u8>>,
    decode_values: F,
    decode_options: G,
    r: FfiResult<EmbedRequest<T, V, O>>,
) -> bool {
    exists|options: FfiResult<Option<O>>|
        #[trigger] decoded_some(opts_json, "opts_json"@, decode_options, options) && embedding_of(
            model,
            values_text,
            options,
            decode_values,
            r,
        )
}

/// Read the arguments of an embedding. The options are read before the values
/// are decoded.
pub fn embed_request<'a, T, S, V, O, F: Fn(&str) -> Result<V, WireFault>, G: Fn(&str) -> Result<O, WireFault>>(
    registry: &'a Registry<T, S>,
    handle: u64,
    values_json: Option<&[u8]>,
    opts_json: Option<&[u8]>,
    decode_values: &F,
    decode_options: &G,
) -> (r: FfiResult<EmbedRequest<'a, T, V, O>>)
    requires
        forall|text: &str| #[trigger] call_requires(*decode_values, (text,)),
        forall|text: &str| #[trigger] call_requires(*decode_options, (text,)),
    ensures
        match both(
            kept(registry@, handle, HandleKind::Embedding),
            required_text(bytes_view(values_json), "values_json"@),
        ) {
            Err(error) => r matches Err(e) && e@ == HostErrorView::Ffi(error),
            Ok((model, text)) => embedding_read(
                model,
                text,
                bytes_view(opts_json),
                *decode_values,
                *decode_options,
                r,
            ),
        },
{
    let model = match registry.of(handle, HandleKind::Embedding) {
        Err(error) => return Err(AiMuxFfiError::Ffi(error)),
        Ok(model) => model,
    };
    let text = match str_arg(values_json, "values_json") {
        Err(error) => return Err(AiMuxFfiError::Ffi(error)),
        Ok(text) => text,
    };
    let options = parse_optional_arg(opts_json, "opts_json", decode_options);
    let ghost o = options;
    assert(decoded_some(bytes_view(opts_json), "opts_json"@, *decode_options, o));
    let options = match options {
        Err(error) => return Err(error),
        Ok(options) => options,
    };
    let answer = decode_values(text.as_str());
    let ghost said = answer;
    assert(answers(*decode_values, text@, said));
    let values: FfiResult<V> = match answer {
        Ok(values) => Ok(values),
        Err(fault) => Err(wire_failure("values_json", fault)),
    };
    let ghost v = values;
    assert(lifted(said, "values_json"@, v));
    assert(answered_with(*decode_values, text@, "values_json"@, v));
    let r: FfiResult<EmbedRequest<'a, T, V, O>> = match values {
        Err(error) => Err(error),
        Ok(values) => Ok(EmbedRequest { model, values, options }),
    };
    assert(embedding_of(*model, text@, o, *decode_values, r));
    r
}

/// Read the arguments of a call that hands over data of some media type:
/// `argument` is what the data is called.
pub fn media_request<'a, T, S>(
    registry: &'a Registry<T, S>,
    handle: u64,
    kind: HandleKind,
    argument: &str,
    data: Option<&[u8]>,
    media_type: Option<&[u8]>,
) -> (r: Result<(&'a T, String, String), FfiError>)
    ensures
        match both(
            both(kept(registry@, handle, kind), required_text(bytes_view(data), argument@)),
            required_text(bytes_view(media_type), "media_type"@),
        ) {
            Err(error) => r matches Err(e) && e@ == error,
            Ok(((model, data), media_type)) => r matches Ok(request) && *request.0 == model && request.1@ == data
                && request.2@ == media_type,
        },
{
    let model = match registry.of(handle, kind) {
        Err(error) => return Err(error),
        Ok(model) => model,
    };
    match parse_two_args(data, argument, media_type, "media_type") {
        Err(error) => Err(error),
        Ok((data, media_type)) => Ok((model, data, media_type)),
    }
}

/// What a transcription session is opened with.
pub struct SessionRequest<'a, T, O> {
    pub model: &'a T,
    /// What is kept under the abort handle, where one was given.
    pub abort: Option<&'a T>,
    pub options: O,
}

/// The abort signal of a call: a handle of 0 is none.
pub open spec fn abort_kept<T, S>(registry: RegistryView<T, S>, handle: u64) -> Result<Option<T>, FfiErrorView> {
    if handle == 0 {
        Ok(None)
    } else {
        match kept(registry, handle, HandleKind::Abort) {
            Ok(signal) => Ok(Some(signal)),
            Err(error) => Err(error),
        }
    }
}

pub open spec fn some_kept<T>(value: Option<&T>) -> Option<T> {
    match value {
        Some(value) => Some(*value),
        None => None,
    }
}

/// Whether `r` is the session of a model that is there, with what a decoder
/// makes of its options.
pub open spec fn session_read<T, O, F: Fn(&str) -> Result<O, WireFault>>(
    model: T,
    abort: Option<T>,
    text: Seq<char>,
    decode: F,
    r: FfiResult<SessionRequest<T, O>>,
) -> bool {
    exists|options: FfiResult<O>|
        #[trigger] answered_with(decode, text, "opts_json"@, options) && (match (options, r) {
            (Err(error), Err(e)) => e == error,
            (Ok(options), Ok(request)) => {
                &&& *request.model == model
                &&& some_kept(request.abort) == abort
                &&& request.options == options
            },
            _ => false,
        })
}

/// Read the arguments of a transcription session; options that say nothing are
/// an empty object.
pub fn session_request<'a, T, S, O, F: Fn(&str) -> Result<O, WireFault>>(
    registry: &'a Registry<T, S>,
    model_handle: u64,
    abort_handle: u64,
    opts_json: Option<&[u8]>,
    decode: &F,
) -> (r: FfiResult<SessionRequest<'a, T, O>>)
    requires
        forall|text: &str| #[trigger] call_requires(*decode, (text,)),
    ensures
        match both(
            both(kept(registry@, model_handle, HandleKind::Transcription), abort_kept(registry@, abort_handle)),
            config_text(bytes_view(opts_json), "opts_json"@),
        ) {
            Err(error) => r matches Err(e) && e@ == HostErrorView::Ffi(error),
            Ok(((model, abort), text)) => session_read(model, abort, text, *decode, r),
        },
{
    let model = match registry.of(model_handle, HandleKind::Transcription) {
        Err(error) => return Err(AiMuxFfiError::Ffi(error)),
        Ok(model) => model,
    };
    let abort: Option<&'a T> = if abort_handle == 0 {
        None
    } else {
        match registry.of(abort_handle, HandleKind::Abort) {
            Err(error) => return Err(AiMuxFfiError::Ffi(error)),
            Ok(signal) => Some(signal),
        }
    };
    let text = match normalize_config_json(opts_json, "opts_json") {
        Err(error) => return Err(AiMuxFfiError::Ffi(error)),
        Ok(text) => text,
    };
    let answer = decode(text.as_str());
    let ghost said = answer;
    assert(answers(*decode, text@, said));
    let options: FfiResult<O> = match answer {
        Ok(options) => Ok(options),
        Err(fault) => Err(wire_failure("opts_json", fault)),
    };
    let ghost o = options;
    assert(lifted(said, "opts_json"@, o));
    assert(answered_with(*decode, text@, "opts_json"@, o));
    match options {
        Err(error) => Err(error),
        Ok(options) => Ok(SessionRequest { model, abort, options }),
    }
}

// Operations.

/// Read the arguments that start an operation.
pub fn operation_request<'a, T, S, F: Fn(&str) -> Result<StartRequest, WireFault>>(
    registry: &'a Registry<T, S>,
    model: u64,
    request_json: Option<&[u8]>,
    decode: &F,
) -> (r: FfiResult<(&'a T, StartRequest)>)
    requires
        forall|text: &str| #[trigger] call_requires(*decode, (text,)),
    ensures
        match kept(registry@, model, HandleKind::Language) {
            Err(error) => r matches Err(e) && e@ == HostErrorView::Ffi(error),
            Ok(model) => with_argument(model, bytes_view(request_json), "request_json"@, *decode, r),
        },
{
    let model = match registry.model_of(model) {
        Err(error) => return Err(AiMuxFfiError::Ffi(error)),
        Ok(model) => model,
    };
    let request = parse_json_arg(request_json, "request_json", decode);
    let ghost read = request;
    assert(decoded(bytes_view(request_json), "request_json"@, *decode, read));
    match request {
        Err(error) => Err(error),
        Ok(request) => Ok((model, request)),
    }
}

/// What a reply does to an operation and what the host is told. Nothing that
/// is malformed reaches the operation.
pub open spec fn replied_with(
    operation: OperationView,
    request_id: Result<Seq<char>, FfiErrorView>,
    reply: Result<ReplyView, HostErrorView>,
    aborted: bool,
    now: u64,
) -> (OperationView, Result<ReplyStatus, HostErrorView>) {
    match (request_id, reply) {
        (Err(error), _) => (operation, Err(HostErrorView::Ffi(error))),
        (_, Err(error)) => (operation, Err(error)),
        (Ok(id), Ok(reply)) => {
            let (after, status) = operation.replied(id, reply, aborted, now);
            (after, Ok(status))
        },
    }
}

/// A reply that was read, or why it could not be.
pub open spec fn reply_told(reply: FfiResult<Reply>) -> Result<ReplyView, HostErrorView> {
    match reply {
        Ok(reply) => Ok(reply@),
        Err(error) => Err(error@),
    }
}

/// Whether a reply can lead there, by a decoder's reading of it. The request's
/// id is looked at before the reply is.
pub open spec fn reply_leads_to<R: Fn(&str) -> Result<Reply, WireFault>>(
    operation: OperationView,
    request_id: Result<Seq<char>, FfiErrorView>,
    reply_json: Option<Seq<u8>>,
    decode: R,
    aborted: bool,
    now: u64,
    next: (OperationView, Result<ReplyStatus, HostErrorView>),
) -> bool {
    match request_id {
        Err(error) => next == (operation, Err::<ReplyStatus, HostErrorView>(HostErrorView::Ffi(error))),
        Ok(_) => exists|reply: FfiResult<Reply>|
            {
                &&& #[trigger] decoded(reply_json, "reply_json"@, decode, reply)
                &&& next == replied_with(operation, request_id, reply_told(reply), aborted, now)
            },
    }
}

/// Hand a reply to an operation.
pub fn operation_reply<R: Fn(&str) -> Result<Reply, WireFault>>(
    operation: &mut Operation,
    request_id: Option<&[u8]>,
    reply_json: Option<&[u8]>,
    decode: &R,
    aborted: bool,
    now: u64,
) -> (r: FfiResult<ReplyStatus>)
    requires
        old(operation)@.wf(),
        forall|text: &str| #[trigger] call_requires(*decode, (text,)),
    ensures
        final(operation)@.wf(),
        reply_leads_to(
            old(operation)@,
            required_text(bytes_view(request_id), "request_id"@),
            bytes_view(reply_json),
            *decode,
            aborted,
            now,
            (
                final(operation)@,
                match r {
                    Ok(status) => Ok(status),
                    Err(error) => Err(error@),
                },
            ),
        ),
{
    let id = match str_arg(request_id, "request_id") {
        Err(error) => return Err(AiMuxFfiError::Ffi(error)),
        Ok(id) => id,
    };
    let reply = parse_json_arg(reply_json, "reply_json", decode);
    let ghost read = reply;
    assert(decoded(bytes_view(reply_json), "reply_json"@, *decode, read));
    match reply {
        Err(error) => Err(error),
        Ok(reply) => Ok(operation.reply(id.as_str(), reply, aborted, now)),
    }
}

/// Check where the status of a reply goes, and that there is an operation.
pub fn reply_target<'a, T, S>(registry: &'a Registry<T, S>, status_out: bool, handle: u64) -> (r: Result<
    &'a T,
    FfiError,
>)
    ensures
        if !status_out {
            r matches Err(e) && e@ == (FfiErrorView::NullPointer { argument: "out_status"@ })
        } else {
            match kept(registry@, handle, HandleKind::Operation) {
                Err(error) => r matches Err(e) && e@ == error,
                Ok(operation) => r matches Ok(o) && *o == operation,
            }
        },
{
    match check_pointer(status_out, "out_status") {
        Err(error) => Err(error),
        Ok(()) => registry.of(handle, HandleKind::Operation),
    }
}

// Settings and traces.

/// The level to log at; `warn` where none is said.
pub fn log_level(level: Option<&[u8]>) -> (r: Result<String, FfiError>)
    ensures
        match optional_text(bytes_view(level), "level"@) {
            Err(error) => r matches Err(e) && e@ == error,
            Ok(Some(level)) => r matches Ok(l) && l@ == level,
            Ok(None) => r matches Ok(l) && l@ == "warn"@,
        },
{
    match opt_str_arg(level, "level") {
        Err(error) => Err(error),
        Ok(Some(level)) => Ok(level),
        Ok(None) => Ok("warn".to_owned()),
    }
}

/// Whether a configuration text that parsed to this may go to the registry of
/// providers.
pub fn provider_config_of_parsed(text: String, parsed: Result<Json, String>) -> (r: FfiResult<String>)
    ensures
        match parsed_view(parsed) {
            Err(words) => r matches Err(e) && e@ == fault_error("config_json"@, WireFaultView::Text(words)),
            Ok(_) => r == Ok::<String, AiMuxFfiError>(text),
        },
{
    match parsed {
        Err(words) => Err(wire_failure("config_json", WireFault::Text(words))),
        Ok(_) => Ok(text),
    }
}

/// Read the configuration of providers: text that is no JSON is refused here,
/// the rest is for their registry to judge.
pub fn provider_config(config_json: Option<&[u8]>) -> (r: FfiResult<String>)
    ensures
        match required_text(bytes_view(config_json), "config_json"@) {
            Err(error) => r matches Err(e) && e@ == HostErrorView::Ffi(error),
            Ok(text) => match json_parse(text) {
                Err(words) => r matches Err(e) && e@ == fault_error("config_json"@, WireFaultView::Text(words)),
                Ok(_) => r matches Ok(t) && t@ == text,
            },
        },
{
    match str_arg(config_json, "config_json") {
        Err(error) => Err(AiMuxFfiError::Ffi(error)),
        Ok(text) => {
            let parsed = parse_json(text.as_str());
            provider_config_of_parsed(text, parsed)
        },
    }
}

/// Read the arguments of a query of one session's trace.
pub fn trace_query<'a, T, S>(registry: &'a Registry<T, S>, handle: u64, session_id: Option<&[u8]>) -> (r: Result<
    (&'a S, String),
    FfiError,
>)
    ensures
        if !registry@.traces.dom().contains(handle) {
            r matches Err(e) && e@ == wrong_handle("trace"@)
        } else {
            match required_text(bytes_view(session_id), "session_id"@) {
                Err(error) => r matches Err(e) && e@ == error,
                Ok(id) => r matches Ok(query) && *query.0 == registry@.traces[handle] && query.1@ == id,
            }
        },
{
    let store = match registry.trace_store_of(handle) {
        Err(error) => return Err(error),
        Ok(store) => store,
    };
    match str_arg(session_id, "session_id") {
        Err(error) => Err(error),
        Ok(id) => Ok((store, id)),
    }
}

/// What a query of a session found; a session that is not known is an invalid
/// argument, not an invalid handle.
pub fn found_session<V>(found: Option<V>) -> (r: FfiResult<V>)
    ensures
        match found {
            Some(view) => r == Ok::<V, AiMuxFfiError>(view),
            None => r matches Err(e) && e@ == HostErrorView::AiMux(
                AiMuxErrorView::InvalidArgument("unknown session"@),
            ),
        },
{
    match found {
        Some(view) => Ok(view),
        None => Err(AiMuxFfiError::AiMux(AiMuxError::InvalidArgument("unknown session".to_owned()))),
    }
}

/// The error of a trace that could not be exported.
pub fn export_failure(words: &str) -> (r: FfiError)
    ensures
        r@ == (FfiErrorView::ResultSerialization { message: "export: "@ + words@ }),
{
    FfiError::ResultSerialization { message: join2("export: ", words) }
}

// Laws.

/// A dead handle is reported before anything is read from the other arguments.
pub proof fn law_handles_come_first<
    T,
    S,
    P: Fn(&Json) -> Result<ModelPrompt, WireFault>,
    O: Fn(&str) -> Result<GenerateTextOptions, WireFault>,
>(
    registry: RegistryView<T, S>,
    handle: u64,
    prompt_json: Option<Seq<u8>>,
    opts_json: Option<Seq<u8>>,
    decode_prompt: P,
    decode_options: O,
    r: FfiResult<GenerationRequest<T>>,
)
    requires
        !registry.holds(handle, HandleKind::Language),
        generation_read(registry, handle, prompt_json, opts_json, decode_prompt, decode_options, r),
    ensures
        r matches Err(e) && e@ == HostErrorView::Ffi(wrong_handle("model"@)),
{
}

/// A reply that cannot be read leaves the operation as it is, so that the host
/// may reply again.
pub proof fn law_a_malformed_reply_is_not_a_reply(
    operation: OperationView,
    request_id: Result<Seq<char>, FfiErrorView>,
    reply: Result<ReplyView, HostErrorView>,
    aborted: bool,
    now: u64,
)
    requires
        request_id is Err || reply is Err,
    ensures
        replied_with(operation, request_id, reply, aborted, now).0 == operation,
        replied_with(operation, request_id, reply, aborted, now).1 is Err,
{
}

} // verus!
