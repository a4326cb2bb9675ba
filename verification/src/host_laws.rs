//! What a host is told, and what it may ask.
use crate::call_laws::says_nothing;
use crate::error::{AiMuxError, AiMuxErrorView, RetryErrorReason};
use crate::error_text::{error_words, retry_hint};
use crate::handles::{HandleKind, Registry, Release};
use crate::host_args::{
    check_pointer, normalize_config_json, opt_str_arg, parse_base_url, parse_four_args, parse_two_args,
    prompt_json_value, str_arg, wire_failure, WireFault,
};
use crate::host_calls::{
    audio_to_push, check_callbacks, check_ring_capacity, next_part_state, openai_chunk, operation_read_args,
    operation_read_state, provider_config_error, pull_wait, router_settings, stream_part_text, FallbackPolicy, Pulled,
    RouterKind, RouterSettings,
};
use crate::host_error::{
    aimux_error_available_tools, aimux_error_code, aimux_error_message, aimux_error_model_id, aimux_error_model_type,
    aimux_error_original_error, aimux_error_provider_code, aimux_error_provider_data, aimux_error_provider_id,
    aimux_error_provider_message, aimux_error_request_body_values, aimux_error_response_body,
    aimux_error_response_headers, aimux_error_retry_count, aimux_error_retry_error_at, aimux_error_retry_ms,
    aimux_error_retry_reason, aimux_error_retryable, aimux_error_status, aimux_error_t, aimux_error_tool_input,
    aimux_error_tool_name, aimux_error_url, ffi_words, host_code, recording_words, AiMuxFfiError, FfiError,
    FfiErrorView, FfiResult, HostErrorView,
};
use crate::json::{member, Json, JsonView};
use crate::json_text::json_print;
use crate::operation::{ReadStep, ReadView};
use crate::output_laws::{ends_with, mentions, starts_with};
use crate::protocol::{event_doc, Lane, Mode, NextView, Reply, ReplyStatus};
use crate::result_wire::part_of_stream_doc;
use crate::stream_part::{item_view, StreamItem, StreamPartView};
use crate::text::{law_blank_texts_are_trimmed_to_nothing, nul_free, trimmed};
use crate::wire::{error_doc, pairs_doc, texts_doc};
use vstd::prelude::*;
use vstd::utf8::{decode_utf8, encode_utf8, valid_utf8};

verus! {

// Errors.

/// Whether a getter tells a text: as a NUL-terminated buffer holds it, and
/// nothing where there is none.
pub open spec fn tells_text(r: Option<String>, text: Option<Seq<char>>) -> bool {
    match text {
        Some(text) => r matches Some(told) && told@ == nul_free(text),
        None => r is None,
    }
}

/// Whether an error is a failed provider call.
pub open spec fn is_call_failure(error: &aimux_error_t) -> bool {
    error@ matches HostErrorView::AiMux(inner) && inner is ApiCall
}

/// Whether an error is a report of several attempts.
pub open spec fn is_retry_report(error: &aimux_error_t) -> bool {
    error@ matches HostErrorView::AiMux(inner) && inner is Retry
}

/// The provider's code is told of a failed provider call, and of nothing else.
pub proof fn law_the_provider_code_is_told(error: &aimux_error_t, r: Option<String>)
    requires
        call_ensures(aimux_error_provider_code, (Some(error),), r),
    ensures
        ({
            let source = error@->AiMux_0;
            &&& is_call_failure(error) ==> tells_text(r, source->ApiCall_0.provider_code)
            &&& !(is_call_failure(error)) ==> r is None
        }),
{
}

/// The response body is told of a failed provider call, and of nothing else.
pub proof fn law_the_response_body_is_told(error: &aimux_error_t, r: Option<String>)
    requires
        call_ensures(aimux_error_response_body, (Some(error),), r),
    ensures
        ({
            let source = error@->AiMux_0;
            &&& is_call_failure(error) ==> tells_text(r, source->ApiCall_0.response_body)
            &&& !(is_call_failure(error)) ==> r is None
        }),
{
}

/// The provider's message is told of a failed provider call where it says something.
pub proof fn law_the_provider_message_is_told(error: &aimux_error_t, r: Option<String>)
    requires
        call_ensures(aimux_error_provider_message, (Some(error),), r),
    ensures
        ({
            let source = error@->AiMux_0;
            &&& is_call_failure(error) ==> tells_text(r, if source->ApiCall_0.message.len() > 0 {
                Some(source->ApiCall_0.message)
            } else {
                None
            })
            &&& !(is_call_failure(error)) ==> r is None
        }),
{
}

/// The URL is told of a failed provider call where it says something.
pub proof fn law_the_url_is_told(error: &aimux_error_t, r: Option<String>)
    requires
        call_ensures(aimux_error_url, (Some(error),), r),
    ensures
        ({
            let source = error@->AiMux_0;
            &&& is_call_failure(error) ==> tells_text(r, if source->ApiCall_0.url.len() > 0 {
                Some(source->ApiCall_0.url)
            } else {
                None
            })
            &&& !(is_call_failure(error)) ==> r is None
        }),
{
}

/// The request body is told in print of a failed provider call, unless it is `null`.
pub proof fn law_the_request_body_is_told(error: &aimux_error_t, r: Option<String>)
    requires
        call_ensures(aimux_error_request_body_values, (Some(error),), r),
    ensures
        ({
            let source = error@->AiMux_0;
            &&& is_call_failure(error) ==> tells_text(r, if source->ApiCall_0.request_body_values is Null {
                None
            } else {
                Some(json_print(source->ApiCall_0.request_body_values))
            })
            &&& !(is_call_failure(error)) ==> r is None
        }),
{
}

/// The response headers are told in print of a failed provider call.
pub proof fn law_the_response_headers_are_told(error: &aimux_error_t, r: Option<String>)
    requires
        call_ensures(aimux_error_response_headers, (Some(error),), r),
    ensures
        ({
            let source = error@->AiMux_0;
            &&& is_call_failure(error) ==> tells_text(r, match pairs_doc(source->ApiCall_0.response_headers) {
                Some(doc) => Some(json_print(doc)),
                None => None,
            })
            &&& !(is_call_failure(error)) ==> r is None
        }),
{
}

/// The provider's data are told in print of a failed provider call.
pub proof fn law_the_provider_data_is_told(error: &aimux_error_t, r: Option<String>)
    requires
        call_ensures(aimux_error_provider_data, (Some(error),), r),
    ensures
        ({
            let source = error@->AiMux_0;
            &&& is_call_failure(error) ==> tells_text(r, match source->ApiCall_0.data {
                Some(doc) => Some(json_print(doc)),
                None => None,
            })
            &&& !(is_call_failure(error)) ==> r is None
        }),
{
}

/// The model is told of an error that misses one.
pub proof fn law_the_missing_model_is_told(error: &aimux_error_t, r: Option<String>)
    requires
        call_ensures(aimux_error_model_id, (Some(error),), r),
    ensures
        ({
            let source = error@->AiMux_0;
            &&& error@ is AiMux && error@->AiMux_0 is NoSuchModel ==> tells_text(r, Some(source->NoSuchModel_model_id))
            &&& !(error@ is AiMux && error@->AiMux_0 is NoSuchModel) ==> r is None
        }),
{
}

/// The type of the model is told of an error that misses one.
pub proof fn law_the_missing_models_type_is_told(error: &aimux_error_t, r: Option<String>)
    requires
        call_ensures(aimux_error_model_type, (Some(error),), r),
    ensures
        ({
            let source = error@->AiMux_0;
            &&& error@ is AiMux
                && error@->AiMux_0 is NoSuchModel ==> tells_text(r, Some(source->NoSuchModel_model_type))
            &&& !(error@ is AiMux && error@->AiMux_0 is NoSuchModel) ==> r is None
        }),
{
}

/// The provider is told of an error that misses one.
pub proof fn law_the_missing_provider_is_told(error: &aimux_error_t, r: Option<String>)
    requires
        call_ensures(aimux_error_provider_id, (Some(error),), r),
    ensures
        ({
            let source = error@->AiMux_0;
            &&& error@ is AiMux
                && error@->AiMux_0 is NoSuchProvider ==> tells_text(r, Some(source->NoSuchProvider_provider_id))
            &&& !(error@ is AiMux && error@->AiMux_0 is NoSuchProvider) ==> r is None
        }),
{
}

/// The original error is told in print of a failed repair.
pub proof fn law_the_original_error_is_told(error: &aimux_error_t, r: Option<String>)
    requires
        call_ensures(aimux_error_original_error, (Some(error),), r),
    ensures
        ({
            let source = error@->AiMux_0;
            &&& error@ is AiMux
                && error@->AiMux_0 is ToolCallRepair ==> tells_text(r,
                Some(json_print(error_doc(*source->ToolCallRepair_original_error))))
            &&& !(error@ is AiMux && error@->AiMux_0 is ToolCallRepair) ==> r is None
        }),
{
}

/// Why retrying stopped is told of a report of several attempts.
pub proof fn law_the_retry_reason_is_told(error: &aimux_error_t, r: Option<String>)
    requires
        call_ensures(aimux_error_retry_reason, (Some(error),), r),
    ensures
        ({
            let source = error@->AiMux_0;
            &&& is_retry_report(error) ==> tells_text(r, Some(match source->Retry_0 {
                RetryErrorReason::MaxRetriesExceeded => "maxRetriesExceeded"@,
                RetryErrorReason::ErrorNotRetryable => "errorNotRetryable"@ }))
            &&& !(is_retry_report(error)) ==> r is None
        }),
{
}

/// The tool is told of a call of a missing tool and of an invalid input; the
/// input too, where it is known, and the tools that there are of a missing one.
pub proof fn law_the_called_tool_is_told(
    error: &aimux_error_t,
    name: Option<String>,
    input: Option<String>,
    tools: Option<String>,
)
    requires
        call_ensures(aimux_error_tool_name, (Some(error),), name),
        call_ensures(aimux_error_tool_input, (Some(error),), input),
        call_ensures(aimux_error_available_tools, (Some(error),), tools),
    ensures
        match error@ {
            HostErrorView::AiMux(AiMuxErrorView::NoSuchTool { tool_name, available_tools, tool_input }) => {
                &&& tells_text(name, Some(tool_name))
                &&& tells_text(input, tool_input)
                &&& available_tools matches Some(list) ==> tells_text(tools, Some(json_print(texts_doc(list))))
                &&& available_tools is None ==> tools is None
            },
            HostErrorView::AiMux(AiMuxErrorView::InvalidToolInput { tool_name, tool_input, .. }) => {
                &&& tells_text(name, Some(tool_name))
                &&& tells_text(input, Some(tool_input))
                &&& tools is None
            },
            _ => name is None && input is None && tools is None,
        },
{
}

/// The status of an error is that of the provider call that failed, or none.
pub proof fn law_numbers_are_told(
    error: &aimux_error_t,
    retry_ms: i64,
    retryable: i32,
    count: i32,
)
    requires
        call_ensures(aimux_error_retry_ms, (Some(error),), retry_ms),
        call_ensures(aimux_error_retryable, (Some(error),), retryable),
        call_ensures(aimux_error_retry_count, (Some(error),), count),
    ensures
        error@ matches HostErrorView::AiMux(inner) ==> (retry_hint(inner) matches Some(ms) ==> retry_ms == ms),
        error@ matches HostErrorView::AiMux(inner) ==> (retry_hint(inner) is None ==> retry_ms == -1),
        !(error@ is AiMux) ==> retry_ms == -1,
        retryable == 1 || retryable == 0,
        retryable == 1 <==> is_call_failure(error) && error@->AiMux_0->ApiCall_0.is_retryable,
        !is_retry_report(error) ==> count == 0,
        is_retry_report(error) && error@->AiMux_0->Retry_1.len() <= i32::MAX ==> count
            == error@->AiMux_0->Retry_1.len(),
{
}

/// The errors of a report are told one by one, oldest first, each as an error
/// of its own; there is none outside the report.
pub proof fn law_every_attempt_is_told(error: &aimux_error_t, index: i32, r: Option<aimux_error_t>)
    requires
        call_ensures(aimux_error_retry_error_at, (Some(error), index), r),
    ensures
        is_retry_report(error) && 0 <= index < error@->AiMux_0->Retry_1.len() ==> (r matches Some(attempt) && attempt@
            == HostErrorView::AiMux(error@->AiMux_0->Retry_1[index as int])),
        !(is_retry_report(error) && 0 <= index < error@->AiMux_0->Retry_1.len()) ==> r is None,
{
}

/// No error tells nothing: the code of success, no text, and the sentinels.
pub proof fn law_no_error_tells_nothing(
    code: i32,
    message: Option<String>,
    status: i32,
    retry_ms: i64,
    retryable: i32,
    url: Option<String>,
)
    requires
        call_ensures(aimux_error_code, (None::<&aimux_error_t>,), code),
        call_ensures(aimux_error_message, (None::<&aimux_error_t>,), message),
        call_ensures(aimux_error_status, (None::<&aimux_error_t>,), status),
        call_ensures(aimux_error_retry_ms, (None::<&aimux_error_t>,), retry_ms),
        call_ensures(aimux_error_retryable, (None::<&aimux_error_t>,), retryable),
        call_ensures(aimux_error_url, (None::<&aimux_error_t>,), url),
    ensures
        code == 0,
        message is None,
        status == -1,
        retry_ms == -1,
        retryable == 0,
        url is None,
{
}

/// Every error tells its code and what it says.
pub proof fn law_every_error_tells_its_words(error: &aimux_error_t, code: i32, message: Option<String>)
    requires
        call_ensures(aimux_error_code, (Some(error),), code),
        call_ensures(aimux_error_message, (Some(error),), message),
    ensures
        code == host_code(error@) && code != 0,
        error@ matches HostErrorView::AiMux(inner) ==> tells_text(message, Some(error_words(inner))),
        error@ matches HostErrorView::Recording(inner) ==> tells_text(message, Some(recording_words(inner))),
        error@ matches HostErrorView::Ffi(inner) ==> tells_text(message, Some(ffi_words(inner))),
{
}

/// Each kind of error has its number.
pub proof fn law_codes_by_kind(error: HostErrorView)
    ensures
        match error {
            HostErrorView::AiMux(inner) => {
                &&& inner is Other <==> host_code(error) == 1
                &&& inner is JsonParse <==> host_code(error) == 2
                &&& inner is InvalidResponseData <==> host_code(error) == 3
                &&& inner is InvalidArgument <==> host_code(error) == 5
                &&& inner is InvalidPrompt <==> host_code(error) == 6
                &&& inner is TokenExpired <==> host_code(error) == 7
                &&& inner is UnsupportedFunctionality <==> host_code(error) == 8
                &&& inner is NoSuchModel <==> host_code(error) == 9
                &&& inner is NoSuchProvider <==> host_code(error) == 10
                &&& inner is ApiCall <==> host_code(error) == 11
                &&& inner is Timeout <==> host_code(error) == 12
                &&& inner is Aborted <==> host_code(error) == 13
                &&& inner is Retry <==> host_code(error) == 14
                &&& inner is NoSuchTool <==> host_code(error) == 15
                &&& inner is InvalidToolInput <==> host_code(error) == 16
                &&& inner is ToolCallRepair <==> host_code(error) == 17
            },
            HostErrorView::Recording(inner) => {
                &&& inner is Init <==> host_code(error) == 100
                &&& inner is OpenFile <==> host_code(error) == 101
                &&& inner is Spawn <==> host_code(error) == 102
                &&& inner is WriterGone <==> host_code(error) == 103
                &&& inner is FlushTimeout <==> host_code(error) == 104
                &&& inner is Write <==> host_code(error) == 105
            },
            HostErrorView::Ffi(inner) => {
                &&& inner is NullPointer <==> host_code(error) == 200
                &&& inner is InvalidUtf8 <==> host_code(error) == 201
                &&& inner is InvalidWireJson <==> host_code(error) == 202
                &&& inner is InvalidHandle <==> host_code(error) == 203
                &&& inner is ReentrantCall <==> host_code(error) == 204
                &&& inner is ResultSerialization <==> host_code(error) == 205
                &&& inner is CallbackFailure <==> host_code(error) == 206
            },
        },
{
}

/// An error of the boundary begins with the argument it is about, or names the
/// handle that was expected, and ends with what went wrong.
pub proof fn law_boundary_errors_name_their_argument(error: FfiErrorView)
    ensures
        error matches FfiErrorView::NullPointer { argument } ==> starts_with(ffi_words(error), argument),
        error matches FfiErrorView::InvalidUtf8 { argument } ==> starts_with(ffi_words(error), argument),
        error matches FfiErrorView::InvalidWireJson { argument, message } ==> starts_with(ffi_words(error), argument)
            && ends_with(ffi_words(error), message),
        error matches FfiErrorView::InvalidHandle { expected } ==> mentions(ffi_words(error), expected),
        error matches FfiErrorView::ResultSerialization { message } ==> ends_with(ffi_words(error), message),
        error matches FfiErrorView::CallbackFailure { message } ==> ends_with(ffi_words(error), message),
{
    match error {
        FfiErrorView::NullPointer { argument } => {
            crate::output_laws::lemma_ends_with(argument, ": must not be NULL"@);
        },
        FfiErrorView::InvalidUtf8 { argument } => {
            crate::output_laws::lemma_ends_with(argument, ": must be valid UTF-8"@);
        },
        FfiErrorView::InvalidWireJson { argument, message } => {
            crate::output_laws::lemma_ends_with(argument + ": invalid JSON: "@, message);
            crate::output_laws::lemma_ends_with(argument, ": invalid JSON: "@ + message);
            assert(argument + (": invalid JSON: "@ + message) =~= ffi_words(error));
        },
        FfiErrorView::InvalidHandle { expected } => {
            crate::output_laws::lemma_mentions("invalid or expired "@, expected, " handle"@);
        },
        FfiErrorView::ResultSerialization { message } => {
            crate::output_laws::lemma_ends_with("could not serialize result: "@, message);
        },
        FfiErrorView::CallbackFailure { message } => {
            crate::output_laws::lemma_ends_with("host callback failed: "@, message);
        },
        FfiErrorView::ReentrantCall => {},
    }
}

// Arguments.

/// A text argument is the text that its bytes encode; bytes that encode none
/// and a missing argument are errors that name the argument.
pub proof fn law_a_text_argument_is_its_text(bytes: Option<&[u8]>, argument: &str, r: Result<String, FfiError>)
    requires
        call_ensures(str_arg, (bytes, argument), r),
    ensures
        bytes is None ==> (r matches Err(error) && error@ == (FfiErrorView::NullPointer { argument: argument@ })),
        bytes matches Some(list) ==> (valid_utf8(list@) ==> (r matches Ok(text) && text@ == decode_utf8(list@))),
        bytes matches Some(list) ==> (!valid_utf8(list@) ==> (r matches Err(error) && error@
            == (FfiErrorView::InvalidUtf8 { argument: argument@ }))),
{
}

/// An argument that may be missing may be missing; malformed it is an error.
pub proof fn law_an_optional_argument_may_be_missing(
    bytes: Option<&[u8]>,
    argument: &str,
    r: Result<Option<String>, FfiError>,
)
    requires
        call_ensures(opt_str_arg, (bytes, argument), r),
    ensures
        bytes is None ==> (r matches Ok(text) && text is None),
        bytes matches Some(list) ==> (valid_utf8(list@) ==> (r matches Ok(Some(text)) && text@ == decode_utf8(list@))),
        bytes matches Some(list) ==> (!valid_utf8(list@) ==> (r matches Err(error) && error@ is InvalidUtf8)),
{
}

/// Two arguments are read in their order, each under its own name.
pub proof fn law_two_arguments_keep_their_order(
    a: Option<&[u8]>,
    an: &str,
    b: Option<&[u8]>,
    bn: &str,
    r: Result<(String, String), FfiError>,
)
    requires
        call_ensures(parse_two_args, (a, an, b, bn), r),
    ensures
        a is None ==> (r matches Err(error) && error@ == (FfiErrorView::NullPointer { argument: an@ })),
        a is Some && b is None && valid_utf8(a->0@) ==> (r matches Err(error) && error@ == (FfiErrorView::NullPointer {
            argument: bn@,
        })),
        a is Some && b is Some && valid_utf8(a->0@) && valid_utf8(b->0@) ==> (r matches Ok((first, second)) && first@
            == decode_utf8(a->0@) && second@ == decode_utf8(b->0@)),
{
}

/// Four arguments are read in their order.
pub proof fn law_four_arguments_keep_their_order(
    a: Option<&[u8]>,
    an: &str,
    b: Option<&[u8]>,
    bn: &str,
    c: Option<&[u8]>,
    cn: &str,
    d: Option<&[u8]>,
    dn: &str,
    r: Result<(String, String, String, String), FfiError>,
)
    requires
        call_ensures(parse_four_args, (a, an, b, bn, c, cn, d, dn), r),
    ensures
        a is Some && b is Some && c is Some && d is Some && valid_utf8(a->0@) && valid_utf8(b->0@) && valid_utf8(c->0@)
            && valid_utf8(d->0@) ==> (r matches Ok(texts) && texts.0@ == decode_utf8(a->0@) && texts.1@
            == decode_utf8(b->0@) && texts.2@ == decode_utf8(c->0@) && texts.3@ == decode_utf8(d->0@)),
        a is None ==> (r matches Err(error) && error@ == (FfiErrorView::NullPointer { argument: an@ })),
        r is Ok ==> a is Some && b is Some && c is Some && d is Some,
{
}

/// A base URL that says nothing is none.
pub proof fn law_an_empty_base_url_is_none(bytes: Option<&[u8]>, r: Result<Option<String>, FfiError>)
    requires
        call_ensures(parse_base_url, (bytes,), r),
    ensures
        bytes is None ==> (r matches Ok(url) && url is None),
        bytes matches Some(list) ==> (valid_utf8(list@) && decode_utf8(list@).len() == 0 ==> (r matches Ok(url)
            && url is None)),
        bytes matches Some(list) ==> (valid_utf8(list@) && decode_utf8(list@).len() > 0 ==> (r matches Ok(Some(url))
            && url@ == decode_utf8(list@))),
{
}

/// A configuration that says nothing is an empty object; any other is the text
/// it is.
pub proof fn law_no_configuration_is_an_empty_object(
    bytes: Option<&[u8]>,
    argument: &str,
    r: Result<String, FfiError>,
)
    requires
        call_ensures(normalize_config_json, (bytes, argument), r),
    ensures
        bytes is None ==> (r matches Ok(text) && text@ == "{}"@),
        bytes matches Some(list) ==> (valid_utf8(list@) && says_nothing(decode_utf8(list@)) ==> (r matches Ok(text)
            && text@ == "{}"@)),
        bytes matches Some(list) ==> (valid_utf8(list@) && !says_nothing(decode_utf8(list@)) && trimmed(
            decode_utf8(list@),
        ) != "null"@ ==> (r matches Ok(text) && text@ == decode_utf8(list@))),
        bytes matches Some(list) ==> (valid_utf8(list@) && trimmed(decode_utf8(list@)) == "null"@ ==> (r matches Ok(
            text,
        ) && text@ == "{}"@)),
{
    if let Some(list) = bytes {
        law_blank_texts_are_trimmed_to_nothing(decode_utf8(list@));
    }
}

/// A text that is no document is a fault of the boundary that names the
/// argument; a document of the wrong shape is an invalid argument that says so.
pub proof fn law_a_refused_document_names_its_argument(argument: &str, fault: WireFault, r: AiMuxFfiError)
    requires
        call_ensures(wire_failure, (argument, fault), r),
    ensures
        fault matches WireFault::Text(words) ==> r@ == HostErrorView::Ffi(
            FfiErrorView::InvalidWireJson { argument: argument@, message: words@ },
        ),
        fault matches WireFault::Shape(words) ==>
            (r@ matches HostErrorView::AiMux(AiMuxErrorView::InvalidArgument(text))
            && starts_with(text, argument@) && ends_with(text, words@)),
{
    if let WireFault::Shape(words) = fault {
        crate::output_laws::lemma_ends_with(argument@ + ": "@, words@);
        crate::output_laws::lemma_ends_with(argument@, ": "@ + words@);
        assert(argument@ + (": "@ + words@) =~= argument@ + ": "@ + words@);
    }
}

/// A prompt is the document itself, or the one member of that name of an object
/// that has no other.
pub proof fn law_a_prompt_may_be_wrapped(json: Json, r: &Json)
    requires
        call_ensures(prompt_json_value, (&json,), r),
    ensures
        json@ matches JsonView::Object(fields) ==> (fields.len() == 1
            && fields[0].0 == "prompt"@ ==> r@ == fields[0].1),
        json@ matches JsonView::Object(fields) ==> (fields.len() != 1 ==> r@ == json@),
        !(json@ is Object) ==> r@ == json@,
{
    if let JsonView::Object(fields) = json@ {
        if fields.len() == 1 && fields[0].0 == "prompt"@ {
            crate::json::lemma_position_is(fields, "prompt"@, 0);
        }
    }
}

/// A required pointer that is missing is named; of two missing callbacks the
/// first is.
pub proof fn law_missing_pointers_are_named(
    present: bool,
    argument: &str,
    r: Result<(), FfiError>,
    on_part: bool,
    on_done: bool,
    callbacks: Result<(), FfiError>,
)
    requires
        call_ensures(check_pointer, (present, argument), r),
        call_ensures(check_callbacks, (on_part, on_done), callbacks),
    ensures
        r is Ok <==> present,
        r matches Err(error) ==> error@ == (FfiErrorView::NullPointer { argument: argument@ }),
        callbacks is Ok <==> on_part && on_done,
        callbacks matches Err(error) ==> error@ == (FfiErrorView::NullPointer {
            argument: if on_part {
                "on_done"@
            } else {
                "on_part"@
            },
        }),
{
}

// Streams and reads.

/// A host reads a part as it is written; a malformed frame as an error part;
/// any other failure ends its stream.
pub proof fn law_a_host_reads_every_part(item: StreamItem, r: Result<String, AiMuxError>)
    requires
        call_ensures(stream_part_text, (item,), r),
    ensures
        item_view(item) matches Ok(part) ==> (r matches Ok(text) && text@ == json_print(part_of_stream_doc(part))),
        item_view(item) matches Err(error) && error is JsonParse ==> (r matches Ok(text) && text@ == json_print(
            part_of_stream_doc(StreamPartView::Error { error: item_view(item)->Err_0 }),
        )),
        item_view(item) matches Err(error) && !(error is JsonParse) ==> (r matches Err(e) && e@
            == item_view(item)->Err_0),
{
}

/// A chunk is handed on; a malformed frame is passed over, and any other
/// failure ends the stream.
pub proof fn law_chunks_are_handed_on<C>(item: Result<C, AiMuxError>, r: Result<Option<C>, AiMuxError>)
    requires
        call_ensures(openai_chunk::<C>, (item,), r),
    ensures
        item matches Ok(chunk) ==> r == Ok::<Option<C>, AiMuxError>(Some(chunk)),
        item matches Err(error) && error@ is JsonParse ==> (r matches Ok(none) && none is None),
        item matches Err(error) && !(error@ is JsonParse) ==> r is Err,
{
}

/// A pull tells a part, the end, or that none came in time; every other failure
/// is an error.
pub proof fn law_what_a_pull_tells(pulled: Pulled, r: FfiResult<(i32, Option<String>)>)
    requires
        call_ensures(next_part_state, (pulled,), r),
    ensures
        pulled matches Ok(Some(Ok(part))) ==> (r matches Ok((state, told)) && state == 1 && told == Some(part)),
        pulled matches Ok(None) ==> (r matches Ok((state, told)) && state == 2 && told is None),
        pulled matches Err(error) && error is Timeout ==> (r matches Ok((state, told)) && state == 3 && told is None),
        pulled matches Err(error) && !(error is Timeout) ==> r is Err,
        pulled matches Ok(Some(Err(_))) ==> r is Err,
{
}

/// A wait that is negative is for ever, any other as long as it says.
pub proof fn law_how_long_a_pull_waits(timeout_ms: i64, r: Option<u64>)
    requires
        call_ensures(pull_wait, (timeout_ms,), r),
    ensures
        timeout_ms < 0 <==> r is None,
        r matches Some(ms) ==> ms == timeout_ms,
{
}

/// Audio is pushed when it is there; nothing may be missing, something may not.
pub proof fn law_when_audio_is_pushed(present: bool, len: usize, r: Result<bool, FfiError>)
    requires
        call_ensures(audio_to_push, (present, len), r),
    ensures
        present ==> (r matches Ok(push) && push),
        !present && len == 0 ==> (r matches Ok(push) && !push),
        !present && len > 0 ==> (r matches Err(error) && error@ is NullPointer),
{
}

/// A read goes to the lane of its number and waits as long as it says; what is
/// asked wrongly is refused.
pub proof fn law_what_a_read_asks(
    event_out: bool,
    state_out: bool,
    lane: i32,
    wait_ms: i64,
    r: FfiResult<(Lane, Option<u64>)>,
)
    requires
        call_ensures(operation_read_args, (event_out, state_out, lane, wait_ms), r),
    ensures
        r is Ok <==> event_out && state_out && 0 <= lane <= 3 && wait_ms >= -1,
        r matches Ok((chosen, wait)) ==> {
            &&& lane == 0 <==> chosen is Control
            &&& lane == 1 <==> chosen is Output
            &&& lane == 2 <==> chosen is Any
            &&& lane == 3 <==> chosen is Terminal
            &&& wait_ms == -1 <==> wait is None
            &&& wait matches Some(ms) ==> ms == wait_ms
        },
        r matches Err(error) ==> (event_out && state_out ==> error@ is AiMux),
        r matches Err(error) ==> (!(event_out && state_out) ==> error@ is Ffi),
{
}

/// What a read tells: an event with its text, that none came in time, the end,
/// or that another reader is there; a failed operation is its error.
pub proof fn law_what_a_read_tells(read: ReadStep, r: FfiResult<(i32, Option<String>)>)
    requires
        call_ensures(operation_read_state, (read,), r),
    ensures
        match read@ {
            ReadView::Ready(NextView::Event(event)) => r matches Ok((state, Some(text))) && state == 0 && text@
                == json_print(event_doc(event)),
            ReadView::Wait => r matches Ok((state, text)) && state == 1 && text is None,
            ReadView::Ready(NextView::Ended) => r matches Ok((state, text)) && state == 2 && text is None,
            ReadView::Ready(NextView::ReaderBusy) => r matches Ok((state, text)) && state == 3 && text is None,
            ReadView::Failed(error) => r matches Err(e) && e@ == HostErrorView::AiMux(error),
        },
{
}

// The rest of the boundary.

/// A ring holds something.
pub proof fn law_a_ring_holds_something(cap: u64, r: FfiResult<()>)
    requires
        call_ensures(check_ring_capacity, (cap,), r),
    ensures
        r is Ok <==> cap > 0,
{
}

/// A configuration that a registry could not read is an invalid argument; any
/// other refusal stays what it is.
pub proof fn law_an_unreadable_configuration_is_an_invalid_argument(error: AiMuxError, r: AiMuxError)
    requires
        call_ensures(provider_config_error, (error,), r),
    ensures
        error@ matches AiMuxErrorView::JsonParse(words) ==> (r@ matches AiMuxErrorView::InvalidArgument(text)
            && ends_with(text, words)),
        !(error@ is JsonParse) ==> r@ == error@,
{
    if let AiMuxErrorView::JsonParse(words) = error@ {
        crate::output_laws::lemma_ends_with("config_json: "@, words);
    }
}

/// A router goes by weight, or by rule where it is not said; it falls back on
/// errors unless that is ruled out, and is named as it is told or by default.
pub proof fn law_what_a_router_is_made_with(
    router: Option<String>,
    fallback: Option<String>,
    provider_name: Option<String>,
    model_id: Option<String>,
    r: RouterSettings,
)
    requires
        call_ensures(router_settings, (router, fallback, provider_name, model_id), r),
    ensures
        r.router == RouterKind::Weighted <==> (router matches Some(word) && word@ == "weighted"@),
        r.fallback == FallbackPolicy::NoFallback <==> (fallback matches Some(word) && word@ == "none"@),
        provider_name matches Some(name) ==> r.provider_name@ == name@,
        provider_name is None ==> r.provider_name@ == "router"@,
        model_id matches Some(name) ==> r.model_id@ == name@,
        model_id is None ==> r.model_id@ == "router"@,
{
}

/// A handle gives what is kept under it where it is of the kind that is asked
/// for; any other handle is refused under that kind's name.
pub proof fn law_a_handle_gives_what_it_keeps<T, S>(
    registry: &Registry<T, S>,
    handle: u64,
    kind: HandleKind,
    r: Result<&T, FfiError>,
    model: Result<&T, FfiError>,
)
    requires
        call_ensures(Registry::<T, S>::of, (registry, handle, kind), r),
        call_ensures(Registry::<T, S>::model_of, (registry, handle), model),
    ensures
        registry@.entries.dom().contains(handle) && registry@.entries[handle].kind == kind ==> (r matches Ok(value)
            && *value == registry@.entries[handle].value),
        !(registry@.entries.dom().contains(handle) && registry@.entries[handle].kind == kind) ==> (r matches Err(error)
            && error@ is InvalidHandle),
        model is Ok <==> registry@.entries.dom().contains(handle) && registry@.entries[handle].kind
            == HandleKind::Language,
        model matches Ok(value) ==> *value == registry@.entries[handle].value,
{
}

/// What a dropped handle asks for: a session's task is ended, an operation is
/// cancelled and closed, and nothing else is owed.
pub proof fn law_what_a_dropped_handle_asks_for(kind: HandleKind, r: Release)
    requires
        call_ensures(HandleKind::release, (kind,), r),
    ensures
        r == Release::Terminate <==> kind == HandleKind::TranscriptionSession,
        r == Release::CancelAndClose <==> kind == HandleKind::Operation,
        r == Release::Forget <==> kind != HandleKind::TranscriptionSession && kind != HandleKind::Operation,
{
}

/// A mode is found by its name, each by its own.
pub proof fn law_modes_have_names(name: &str, r: Option<Mode>)
    requires
        call_ensures(Mode::from_name, (name,), r),
    ensures
        name@ == "generate_text"@ ==> r == Some(Mode::GenerateText),
        name@ == "generate_object"@ ==> r == Some(Mode::GenerateObject),
        name@ == "consume_stream_text"@ ==> r == Some(Mode::ConsumeStreamText),
        name@ == "stream_text"@ ==> r == Some(Mode::StreamText),
        name@ == "generate_text_as_openai"@ ==> r == Some(Mode::GenerateTextAsOpenai),
        name@ == "stream_text_as_openai"@ ==> r == Some(Mode::StreamTextAsOpenai),
        r is Some ==> name@ == "generate_text"@ || name@ == "generate_object"@ || name@ == "consume_stream_text"@
            || name@ == "stream_text"@ || name@ == "generate_text_as_openai"@ || name@ == "stream_text_as_openai"@,
{
    reveal_strlit("generate_text");
    reveal_strlit("generate_object");
    reveal_strlit("consume_stream_text");
    reveal_strlit("stream_text");
    reveal_strlit("generate_text_as_openai");
    reveal_strlit("stream_text_as_openai");
    assert("generate_text"@.len() == 13 && "generate_object"@.len() == 15 && "consume_stream_text"@.len() == 19
        && "stream_text"@.len() == 11 && "generate_text_as_openai"@.len() == 23 && "stream_text_as_openai"@.len()
        == 21);
    assert(Mode::GenerateText.name() == "generate_text"@);
    assert(Mode::GenerateObject.name() == "generate_object"@);
    assert(Mode::ConsumeStreamText.name() == "consume_stream_text"@);
    assert(Mode::StreamText.name() == "stream_text"@);
    assert(Mode::GenerateTextAsOpenai.name() == "generate_text_as_openai"@);
    assert(Mode::StreamTextAsOpenai.name() == "stream_text_as_openai"@);
}

/// A host's reply is what a callback would have answered.
pub proof fn law_a_reply_is_an_answer(
    reply: Reply,
    r: Result<Option<crate::tool::RawToolCall>, AiMuxError>,
)
    requires
        call_ensures(Reply::into_core, (reply,), r),
    ensures
        reply matches Reply::Repaired { tool_call } ==> (r matches Ok(Some(call)) && call@ == tool_call@),
        reply is Unchanged ==> (r matches Ok(call) && call is None),
        reply matches Reply::Failed { message } ==> (r matches Err(error) && error@ == AiMuxErrorView::Other(message@)),
{
}

/// What became of a reply is told by number.
pub proof fn law_reply_numbers(status: ReplyStatus, r: i32)
    requires
        call_ensures(ReplyStatus::number, (status,), r),
    ensures
        r == 0 <==> status == ReplyStatus::Accepted,
        r == 1 <==> status == ReplyStatus::AlreadyReplied,
        r == 2 <==> status == ReplyStatus::UnknownRequest,
        r == 3 <==> status == ReplyStatus::OperationEnded,
{
}

} // verus!
