use aimux::error::{AiMuxError, ApiCallError, RetryError, RetryErrorReason};
use aimux::generate_options::GenerateTextOptions;
use aimux::handles::{CallGuard, HandleKind, Registry, Release};
use aimux::host_args::{
    callback_failure, check_pointer, normalize_config_json, opt_str_arg, parse_base_url, parse_four_args,
    parse_json_arg, parse_opts_arg, parse_prompt_arg, parse_two_args, str_arg, unwritable, WireFault,
};
use aimux::host_calls::{
    aimux_apply_tool_call_repair, aimux_apply_tool_call_repair_to_result, aimux_mock_replay_new,
    aimux_tool_call_repair_context, audio_to_push, check_callbacks, check_ring_capacity, moa_members,
    next_part_state, openai_chunk, operation_read_args, operation_read_state, provider_config_error, pull_wait,
    router_members, router_settings, stream_part_text, FallbackPolicy, RouterKind,
    AIMUX_TRANSCRIPTION_NEXT_PART_ENDED, AIMUX_TRANSCRIPTION_NEXT_PART_PART, AIMUX_TRANSCRIPTION_NEXT_PART_TIMEOUT,
};
use aimux::host_error::{
    aimux_error_available_tools, aimux_error_code, aimux_error_message, aimux_error_model_id,
    aimux_error_model_type, aimux_error_original_error, aimux_error_provider_code, aimux_error_provider_data,
    aimux_error_provider_id, aimux_error_provider_message, aimux_error_request_body_values,
    aimux_error_response_body, aimux_error_response_headers, aimux_error_retry_count, aimux_error_retry_error_at,
    aimux_error_retry_ms, aimux_error_retry_reason, aimux_error_retryable, aimux_error_status, aimux_error_t,
    aimux_error_tool_input, aimux_error_tool_name, aimux_error_url, AiMuxFfiError, FfiError, RecordingError,
    AIMUX_E_ABORTED, AIMUX_E_API_CALL, AIMUX_E_FFI_CALLBACK_FAILURE, AIMUX_E_FFI_INVALID_HANDLE,
    AIMUX_E_FFI_INVALID_UTF8, AIMUX_E_FFI_INVALID_WIRE_JSON, AIMUX_E_FFI_NULL_POINTER, AIMUX_E_FFI_REENTRANT_CALL,
    AIMUX_E_FFI_RESULT_SERIALIZATION, AIMUX_E_INVALID_ARGUMENT, AIMUX_E_INVALID_PROMPT,
    AIMUX_E_INVALID_RESPONSE_DATA, AIMUX_E_INVALID_TOOL_INPUT, AIMUX_E_JSON_PARSE, AIMUX_E_NO_SUCH_MODEL,
    AIMUX_E_NO_SUCH_PROVIDER, AIMUX_E_NO_SUCH_TOOL, AIMUX_E_OTHER, AIMUX_E_RECORDING_FLUSH_TIMEOUT,
    AIMUX_E_RECORDING_SPAWN, AIMUX_E_RECORDING_WRITE, AIMUX_E_RECORDING_WRITER_GONE, AIMUX_E_RETRY,
    AIMUX_E_TIMEOUT, AIMUX_E_TOKEN_EXPIRED, AIMUX_E_TOOL_CALL_REPAIR, AIMUX_E_UNSUPPORTED_FUNCTIONALITY, AIMUX_OK,
};
use aimux::host_requests::operation_reply;
use aimux::json::Json;
use aimux::json_text::parse_json;
use aimux::message::ModelPrompt;
use aimux::operation::{Operation, ReadStep};
use aimux::options::AbortSignal;
use aimux::protocol::{Lane, Mode, Next, Reply, ReplyStatus, StartRequest};
use aimux::recording::{InputRecord, ProviderRecord, Recording};
use aimux::stream_part::StreamPart;
use aimux::parse_tool_call::ToolCallRepairReply;
use aimux::tool::{FunctionTool, RawToolCall, Tool};
use aimux::types::{FinishReason, FinishReasonUnified, Usage};

fn json(text: &str) -> Json {
    parse_json(text).unwrap()
}

fn boxed(error: AiMuxError) -> aimux_error_t {
    aimux_error_t::new(AiMuxFfiError::AiMux(error))
}

fn message(error: AiMuxFfiError) -> String {
    aimux_error_message(Some(&aimux_error_t::new(error))).unwrap()
}

fn ffi_message(error: FfiError) -> String {
    message(AiMuxFfiError::Ffi(error))
}

fn api_call(words: &str, url: &str, body: Json) -> ApiCallError {
    ApiCallError::new(words, url, body)
}

/// Each payload getter answers under the codes that own it and says nothing
/// under every other; no error answers as success.
#[test]
fn payload_getters_follow_the_code() {
    let mut detail = api_call("quota", "https://api.example.test/v1", json(r#"{"model":"m"}"#));
    detail.status_code = Some(429);
    detail.provider_code = Some("insufficient_quota".into());
    detail.response_body = Some("{}".into());
    detail.response_headers = Some(vec![("retry-after-ms".into(), "1500".into())]);
    detail.data = Some(json(r#"{"code":"insufficient_quota"}"#));
    detail.is_retryable = true;
    let owner = boxed(AiMuxError::ApiCall(Box::new(detail)));
    let h = Some(&owner);
    assert_eq!(aimux_error_code(h), AIMUX_E_API_CALL);
    assert_eq!(aimux_error_status(h), 429);
    // The retry hint is derived from the response headers.
    assert_eq!(aimux_error_retry_ms(h), 1500);
    assert_eq!(aimux_error_retryable(h), 1);
    assert_eq!(aimux_error_provider_code(h).as_deref(), Some("insufficient_quota"));
    // The variant's own text, not the composed form in the message.
    assert_eq!(aimux_error_provider_message(h).as_deref(), Some("quota"));
    let m = aimux_error_message(h).unwrap();
    assert!(m.contains("quota") && m != "quota", "{m}");
    assert_eq!(aimux_error_response_body(h).as_deref(), Some("{}"));
    assert_eq!(aimux_error_url(h).as_deref(), Some("https://api.example.test/v1"));
    assert_eq!(aimux_error_request_body_values(h).as_deref(), Some(r#"{"model":"m"}"#));
    assert_eq!(aimux_error_response_headers(h).as_deref(), Some(r#"{"retry-after-ms":"1500"}"#));
    assert_eq!(aimux_error_provider_data(h).as_deref(), Some(r#"{"code":"insufficient_quota"}"#));
    assert!(aimux_error_model_id(h).is_none());
    assert!(aimux_error_model_type(h).is_none());
    assert!(aimux_error_provider_id(h).is_none());
    assert!(aimux_error_retry_reason(h).is_none());
    assert_eq!(aimux_error_retry_count(h), 0);
    assert!(aimux_error_retry_error_at(h, 0).is_none());

    // Absent facts are none, not empty strings; a `null` request body too.
    let owner = boxed(AiMuxError::ApiCall(Box::new(api_call("x", "https://api.example.test/v1", Json::Null))));
    let h = Some(&owner);
    assert!(aimux_error_provider_code(h).is_none());
    assert!(aimux_error_response_body(h).is_none());
    assert!(aimux_error_response_headers(h).is_none());
    assert!(aimux_error_provider_data(h).is_none());
    assert!(aimux_error_request_body_values(h).is_none());
    assert_eq!(aimux_error_provider_message(h).as_deref(), Some("x"));

    // Retry owns its reason and its attempts; each attempt is an error of its
    // own, read with the same getters.
    let mut last = api_call("boom", "https://api.example.test/v1", Json::Null);
    last.status_code = Some(500);
    last.is_retryable = true;
    let owner = boxed(AiMuxError::Retry(RetryError {
        reason: RetryErrorReason::MaxRetriesExceeded,
        errors: vec![AiMuxError::Other("first".into()), AiMuxError::ApiCall(Box::new(last))],
    }));
    let h = Some(&owner);
    assert_eq!(aimux_error_code(h), AIMUX_E_RETRY);
    assert_eq!(aimux_error_retry_reason(h).as_deref(), Some("maxRetriesExceeded"));
    assert_eq!(aimux_error_retry_count(h), 2);
    // What belongs to an attempt stays with it.
    assert_eq!(aimux_error_status(h), -1);
    assert_eq!(aimux_error_retryable(h), 0);
    assert!(aimux_error_provider_code(h).is_none());
    let m = aimux_error_message(h).unwrap();
    assert!(m.contains("Failed after 2 attempts"), "{m}");
    let first = aimux_error_retry_error_at(h, 0).unwrap();
    assert_eq!(aimux_error_code(Some(&first)), AIMUX_E_OTHER);
    assert_eq!(aimux_error_message(Some(&first)).as_deref(), Some("first"));
    let last = aimux_error_retry_error_at(h, 1).unwrap();
    assert_eq!(aimux_error_code(Some(&last)), AIMUX_E_API_CALL);
    assert_eq!(aimux_error_status(Some(&last)), 500);
    assert_eq!(aimux_error_retryable(Some(&last)), 1);
    // An attempt outlives its parent.
    drop(owner);
    assert_eq!(aimux_error_provider_message(Some(&last)).as_deref(), Some("boom"));
    let owner = boxed(AiMuxError::Retry(RetryError {
        reason: RetryErrorReason::ErrorNotRetryable,
        errors: vec![AiMuxError::Other("bad".into())],
    }));
    let h = Some(&owner);
    assert_eq!(aimux_error_retry_reason(h).as_deref(), Some("errorNotRetryable"));
    assert!(aimux_error_retry_error_at(h, 1).is_none(), "out of range");
    assert!(aimux_error_retry_error_at(h, -1).is_none());

    let owner = boxed(AiMuxError::NoSuchModel { model_id: "m".into(), model_type: "language".into() });
    let h = Some(&owner);
    assert_eq!(aimux_error_code(h), AIMUX_E_NO_SUCH_MODEL);
    assert_eq!(aimux_error_model_id(h).as_deref(), Some("m"));
    assert_eq!(aimux_error_model_type(h).as_deref(), Some("language"));
    assert!(aimux_error_provider_code(h).is_none());
    assert!(aimux_error_provider_id(h).is_none());
    assert_eq!(aimux_error_status(h), -1);
    assert_eq!(aimux_error_retryable(h), 0);

    let owner = boxed(AiMuxError::NoSuchProvider { provider_id: "p".into() });
    let h = Some(&owner);
    assert_eq!(aimux_error_code(h), AIMUX_E_NO_SUCH_PROVIDER);
    assert_eq!(aimux_error_provider_id(h).as_deref(), Some("p"));
    assert!(aimux_error_model_id(h).is_none());

    let n = None;
    assert_eq!(aimux_error_code(n), AIMUX_OK);
    assert!(aimux_error_message(n).is_none());
    assert_eq!(aimux_error_status(n), -1);
    assert_eq!(aimux_error_retry_ms(n), -1);
    assert_eq!(aimux_error_retryable(n), 0);
    assert!(aimux_error_provider_code(n).is_none());
    assert!(aimux_error_url(n).is_none());
    assert!(aimux_error_request_body_values(n).is_none());
    assert!(aimux_error_response_headers(n).is_none());
    assert!(aimux_error_provider_data(n).is_none());
    assert!(aimux_error_retry_reason(n).is_none());
    assert_eq!(aimux_error_retry_count(n), 0);
    assert!(aimux_error_retry_error_at(n, 0).is_none());
}

/// The retry verdict has its own getter. It does not follow from the status:
/// both cases below report -1, and they disagree.
#[test]
fn retryable_crosses_the_abi_and_status_cannot_stand_in() {
    let mut detail = api_call("connection reset", "https://api.example.test/v1", Json::Null);
    detail.is_retryable = true;
    let transport = boxed(AiMuxError::ApiCall(Box::new(detail)));
    assert_eq!(aimux_error_status(Some(&transport)), -1);
    assert_eq!(aimux_error_retryable(Some(&transport)), 1);

    let detail = api_call("no api key", "https://api.example.test/v1", Json::Null);
    let no_key = boxed(AiMuxError::ApiCall(Box::new(detail)));
    assert_eq!(aimux_error_status(Some(&no_key)), -1);
    assert_eq!(aimux_error_retryable(Some(&no_key)), 0);

    let argument = boxed(AiMuxError::InvalidArgument("bad".into()));
    assert_eq!(aimux_error_retryable(Some(&argument)), 0);
}

#[test]
fn an_expired_token_is_a_401() {
    let expired = boxed(AiMuxError::TokenExpired("old".into()));
    assert_eq!(aimux_error_status(Some(&expired)), 401);
}

/// One code space identifies every source of errors.
#[test]
fn unified_error_codes_cover_every_source() {
    let e = boxed(AiMuxError::Aborted("request aborted".into()));
    assert_eq!(aimux_error_code(Some(&e)), AIMUX_E_ABORTED);
    assert_eq!(aimux_error_message(Some(&e)).as_deref(), Some("request aborted"));

    let e = boxed(AiMuxError::Retry(RetryError {
        reason: RetryErrorReason::ErrorNotRetryable,
        errors: vec![AiMuxError::Other("bad".into())],
    }));
    assert_eq!(aimux_error_code(Some(&e)), AIMUX_E_RETRY);
    assert!(aimux_error_message(Some(&e)).unwrap().contains("non-retryable"));

    let cases = [
        (RecordingError::WriterGone, AIMUX_E_RECORDING_WRITER_GONE),
        (RecordingError::FlushTimeout, AIMUX_E_RECORDING_FLUSH_TIMEOUT),
        (RecordingError::Write("ENOSPC".into()), AIMUX_E_RECORDING_WRITE),
        (RecordingError::Spawn { source: "x".into() }, AIMUX_E_RECORDING_SPAWN),
    ];
    for (error, code) in cases {
        let e = aimux_error_t::new(AiMuxFfiError::Recording(error));
        assert_eq!(aimux_error_code(Some(&e)), code);
        assert!(!aimux_error_message(Some(&e)).unwrap().is_empty());
    }
    assert_eq!(aimux_error_code(None), AIMUX_OK);
    assert!(aimux_error_message(None).is_none());

    let cases: Vec<(FfiError, i32, &str)> = vec![
        (
            FfiError::NullPointer { argument: "api_key".into() },
            AIMUX_E_FFI_NULL_POINTER,
            "api_key: must not be NULL",
        ),
        (
            FfiError::InvalidUtf8 { argument: "model_id".into() },
            AIMUX_E_FFI_INVALID_UTF8,
            "model_id: must be valid UTF-8",
        ),
        (
            FfiError::InvalidWireJson { argument: "opts_json".into(), message: "expected `,`".into() },
            AIMUX_E_FFI_INVALID_WIRE_JSON,
            "opts_json: invalid JSON: expected `,`",
        ),
        (
            FfiError::InvalidHandle { expected: "model".into() },
            AIMUX_E_FFI_INVALID_HANDLE,
            "invalid or expired model handle",
        ),
        (
            FfiError::ReentrantCall,
            AIMUX_E_FFI_REENTRANT_CALL,
            "re-entrant FFI call from within a callback is not allowed",
        ),
        (
            FfiError::ResultSerialization { message: "serialize".into() },
            AIMUX_E_FFI_RESULT_SERIALIZATION,
            "could not serialize result: serialize",
        ),
        (
            FfiError::CallbackFailure { message: "on_part panicked".into() },
            AIMUX_E_FFI_CALLBACK_FAILURE,
            "host callback failed: on_part panicked",
        ),
    ];
    for (error, code, text) in cases {
        let e = aimux_error_t::new(AiMuxFfiError::Ffi(error));
        assert_eq!(aimux_error_code(Some(&e)), code);
        assert_eq!(aimux_error_message(Some(&e)).as_deref(), Some(text));
    }
}

/// Malformed input of a recording call is a boundary error; only the
/// recorder's own failures carry its codes.
#[test]
fn recording_init_reports_ffi_codes_for_invalid_input() {
    assert_eq!(ffi_message(str_arg(None, "dir").err().unwrap()), "dir: must not be NULL");
    assert_eq!(ffi_message(str_arg(Some(&[0xff]), "dir").err().unwrap()), "dir: must be valid UTF-8");
}

#[test]
fn error_code_mapping_covers_all_variants() {
    let s = |t: &str| t.to_string();
    let unknown = || AiMuxError::NoSuchTool { tool_name: "t".into(), available_tools: None, tool_input: None };
    let cases: Vec<(AiMuxError, i32)> = vec![
        (AiMuxError::ApiCall(Box::new(api_call("x", "https://example.test", json("{}")))), AIMUX_E_API_CALL),
        (
            AiMuxError::Retry(RetryError {
                reason: RetryErrorReason::MaxRetriesExceeded,
                errors: vec![AiMuxError::Other(s("first")), AiMuxError::Other(s("last"))],
            }),
            AIMUX_E_RETRY,
        ),
        (AiMuxError::JsonParse(s("x")), AIMUX_E_JSON_PARSE),
        (AiMuxError::InvalidResponseData(s("x")), AIMUX_E_INVALID_RESPONSE_DATA),
        (unknown(), AIMUX_E_NO_SUCH_TOOL),
        (
            AiMuxError::InvalidToolInput { tool_name: s("t"), tool_input: s("{}"), cause: s("x") },
            AIMUX_E_INVALID_TOOL_INPUT,
        ),
        (
            AiMuxError::ToolCallRepair {
                original_error: Box::new(unknown()),
                cause: Box::new(AiMuxError::Other(s("x"))),
            },
            AIMUX_E_TOOL_CALL_REPAIR,
        ),
        (AiMuxError::InvalidArgument(s("x")), AIMUX_E_INVALID_ARGUMENT),
        (AiMuxError::InvalidPrompt(s("x")), AIMUX_E_INVALID_PROMPT),
        (AiMuxError::TokenExpired(s("x")), AIMUX_E_TOKEN_EXPIRED),
        (AiMuxError::UnsupportedFunctionality(s("x")), AIMUX_E_UNSUPPORTED_FUNCTIONALITY),
        (AiMuxError::NoSuchModel { model_id: s("x"), model_type: String::new() }, AIMUX_E_NO_SUCH_MODEL),
        (AiMuxError::NoSuchProvider { provider_id: s("x") }, AIMUX_E_NO_SUCH_PROVIDER),
        (AiMuxError::Timeout(s("x")), AIMUX_E_TIMEOUT),
        (AiMuxError::Aborted("request aborted".into()), AIMUX_E_ABORTED),
        (AiMuxError::Other(s("x")), AIMUX_E_OTHER),
    ];
    for (error, code) in cases {
        let e = boxed(error);
        assert_eq!(aimux_error_code(Some(&e)), code);
        assert!(aimux_error_message(Some(&e)).is_some());
    }
}

#[test]
fn unknown_tool_error_exposes_original_argument_text() {
    let raw = r#""hello""#;
    let error = boxed(AiMuxError::NoSuchTool {
        tool_name: "unknown".into(),
        available_tools: None,
        tool_input: Some(raw.into()),
    });
    assert_eq!(aimux_error_tool_input(Some(&error)).as_deref(), Some(raw));
}

#[test]
fn tool_errors_carry_their_tools() {
    let error = boxed(AiMuxError::NoSuchTool {
        tool_name: "wether".into(),
        available_tools: Some(vec!["weather".into(), "time".into()]),
        tool_input: None,
    });
    assert_eq!(aimux_error_tool_name(Some(&error)).as_deref(), Some("wether"));
    assert_eq!(aimux_error_available_tools(Some(&error)).as_deref(), Some(r#"["weather","time"]"#));
    assert!(aimux_error_tool_input(Some(&error)).is_none());
    let repair = boxed(AiMuxError::ToolCallRepair {
        original_error: Box::new(AiMuxError::Other("a".into())),
        cause: Box::new(AiMuxError::Other("b".into())),
    });
    assert_eq!(aimux_error_original_error(Some(&repair)).as_deref(), Some(r#"{"Other":"a"}"#));
}

/// NUL characters neither corrupt nor cut a text.
#[test]
fn error_message_sanitizes_interior_nul() {
    let e = boxed(AiMuxError::Other("a\0b".into()));
    assert_eq!(aimux_error_message(Some(&e)).as_deref(), Some("a\u{FFFD}b"));
    let model = boxed(AiMuxError::NoSuchModel { model_id: "\0m".into(), model_type: "t\0".into() });
    assert_eq!(aimux_error_model_id(Some(&model)).as_deref(), Some("\u{FFFD}m"));
    assert_eq!(aimux_error_model_type(Some(&model)).as_deref(), Some("t\u{FFFD}"));
}

#[test]
fn null_out_param_is_an_ffi_error() {
    assert_eq!(
        ffi_message(check_pointer(false, "out_handle").err().unwrap()),
        "out_handle: must not be NULL"
    );
    assert_eq!(ffi_message(check_pointer(false, "out_json").err().unwrap()), "out_json: must not be NULL");
    assert!(check_pointer(true, "out_json").is_ok());
}

fn callback_words(name: &str, payload: Option<&str>) -> String {
    match callback_failure(name, payload) {
        FfiError::CallbackFailure { message } => message,
        _ => panic!("expected a callback failure"),
    }
}

#[test]
fn stream_callback_catches_str_panic() {
    let words = callback_words("on_part", Some("callback explosion"));
    assert!(words.contains("on_part") && words.contains("callback explosion"), "{words}");
}

#[test]
fn stream_callback_catches_string_panic() {
    let words = callback_words("on_done", Some(&"dynamic boom".to_string()));
    assert!(words.contains("on_done") && words.contains("dynamic boom"), "{words}");
}

#[test]
fn stream_callback_catches_non_string_panic() {
    let words = callback_words("on_part", None);
    assert!(words.contains("on_part") && words.contains("<non-string panic>"), "{words}");
}

#[test]
fn stream_callback_catches_on_done_panic() {
    assert_eq!(
        callback_words("on_done", Some("done callback failed")),
        "stream callback 'on_done' panicked: done callback failed"
    );
}

#[test]
fn callbacks_are_checked_in_order() {
    assert!(check_callbacks(true, true).is_ok());
    assert_eq!(ffi_message(check_callbacks(false, false).err().unwrap()), "on_part: must not be NULL");
    assert_eq!(ffi_message(check_callbacks(true, false).err().unwrap()), "on_done: must not be NULL");
    assert_eq!(ffi_message(unwritable("nan")), "could not serialize result: serialize: nan");
}

fn frames() -> Vec<Result<StreamPart, AiMuxError>> {
    let delta = |text: &str| StreamPart::TextDelta {
        id: "1".into(),
        delta: text.into(),
        provider_metadata: None,
    };
    vec![
        Ok(delta("a")),
        Err(AiMuxError::JsonParse("bad frame".into())),
        Ok(delta("b")),
        Ok(StreamPart::Finish {
            finish_reason: FinishReason { unified: FinishReasonUnified::Stop, raw: None },
            usage: Usage::unknown(),
            provider_metadata: None,
        }),
    ]
}

/// A malformed frame arrives as an error part; the parts behind it still do.
#[test]
fn recoverable_frame_error_does_not_end_the_ffi_stream() {
    let parts: Vec<String> = frames().into_iter().map(|item| stream_part_text(item).ok().unwrap()).collect();
    let error_index = parts.iter().position(|p| p.contains("\"Error\"")).expect("an error part");
    assert!(parts[error_index + 1..].iter().any(|p| p.contains("\"b\"")), "{parts:?}");
    assert!(parts.last().unwrap().contains("\"Finish\""));
    assert!(stream_part_text(Err(AiMuxError::Other("gone".into()))).is_err());
}

/// Where every item is a chunk, a malformed frame is passed over.
#[test]
fn recoverable_frame_error_is_skipped_on_the_openai_stream() {
    let items: Vec<Result<&str, AiMuxError>> =
        vec![Ok("\"a\""), Err(AiMuxError::JsonParse("bad frame".into())), Ok("\"b\"")];
    let chunks: Vec<&str> = items.into_iter().filter_map(|item| openai_chunk(item).ok().unwrap()).collect();
    assert!(chunks.iter().all(|p| !p.contains("\"error\"")));
    assert_eq!(chunks, vec!["\"a\"", "\"b\""]);
    assert!(openai_chunk::<u8>(Err(AiMuxError::Timeout("t".into()))).is_err());
}

fn registry() -> Registry<&'static str, ()> {
    Registry::new()
}

#[test]
fn router_new_builds_router_model() {
    let mut live = registry();
    let handles =
        [live.intern_handle(HandleKind::Language, "primary"), live.intern_handle(HandleKind::Language, "backup")];
    assert_eq!(router_members(&live, Some(&handles), 2).ok().unwrap(), handles.to_vec());
    let settings = router_settings(None, None, None, None);
    assert_eq!(settings.provider_name, "router");
    assert_eq!(settings.model_id, "router");
    assert!(settings.router == RouterKind::Rule && settings.fallback == FallbackPolicy::OnError);
    let h = live.intern_handle(HandleKind::Language, "router");
    assert!(h != 0);
    assert_eq!(*live.model_of(h).ok().unwrap(), "router");

    let said = router_settings(Some("weighted".into()), Some("none".into()), Some("p".into()), Some("m".into()));
    assert!(said.router == RouterKind::Weighted && said.fallback == FallbackPolicy::NoFallback);
    assert_eq!((said.provider_name.as_str(), said.model_id.as_str()), ("p", "m"));
}

#[test]
fn router_new_rejects_empty_handles() {
    let live = registry();
    assert_eq!(
        message(router_members(&live, None, 0).err().unwrap()),
        "invalid or expired router child handle"
    );
    assert_eq!(message(router_members(&live, None, 2).err().unwrap()), "handles: must not be NULL");
    assert_eq!(
        message(router_members(&live, Some(&[]), 0).err().unwrap()),
        "invalid or expired router child handle"
    );
}

fn read_json(text: &str) -> Result<Json, WireFault> {
    parse_json(text).map_err(WireFault::Text)
}

#[test]
fn router_new_rejects_bad_json() {
    let text = normalize_config_json(Some(b"{not json"), "config_json").ok().unwrap();
    let error = parse_json_arg(Some(text.as_bytes()), "config_json", &read_json).err().unwrap();
    assert!(message(error).starts_with("config_json: invalid JSON:"));
}

#[test]
fn router_new_treats_empty_config_as_defaults() {
    for config in ["", "  ", "null"] {
        assert_eq!(normalize_config_json(Some(config.as_bytes()), "config_json").ok().unwrap(), "{}");
    }
    assert_eq!(normalize_config_json(None, "config_json").ok().unwrap(), "{}");
    assert_eq!(normalize_config_json(Some(b" {\"a\":1}"), "config_json").ok().unwrap(), " {\"a\":1}");
}

#[test]
fn moa_new_builds_moa_model() {
    let mut live = registry();
    let refs = [live.intern_handle(HandleKind::Language, "A"), live.intern_handle(HandleKind::Language, "B")];
    let aggregator = live.intern_handle(HandleKind::Language, "agg");
    assert_eq!(moa_members(&live, Some(&refs), 2, aggregator).ok().unwrap(), refs.to_vec());
    let h = live.intern_handle(HandleKind::Language, "moa");
    assert!(h != 0);
    assert_eq!(*live.model_of(h).ok().unwrap(), "moa");
}

#[test]
fn moa_new_rejects_bad_aggregator() {
    let mut live = registry();
    let refs = [live.intern_handle(HandleKind::Language, "A")];
    assert_eq!(
        message(moa_members(&live, Some(&refs), 1, 999_999).err().unwrap()),
        "invalid or expired moa aggregator handle"
    );
}

#[test]
fn composites_reject_any_dead_member_handle() {
    let mut live = registry();
    let alive = live.intern_handle(HandleKind::Language, "live");
    let dead = live.intern_handle(HandleKind::Language, "dead");
    assert!(live.drop_entry(dead).is_some());
    let handles = [alive, dead];
    assert_eq!(
        message(router_members(&live, Some(&handles), 2).err().unwrap()),
        "invalid or expired router child handle"
    );
    let aggregator = live.intern_handle(HandleKind::Language, "agg");
    assert_eq!(
        message(moa_members(&live, Some(&handles), 2, aggregator).err().unwrap()),
        "invalid or expired moa reference handle"
    );
    assert_eq!(
        message(moa_members(&live, None, 2, aggregator).err().unwrap()),
        "reference_handles: must not be NULL"
    );
}

#[test]
fn moa_new_allows_zero_references() {
    let mut live = registry();
    let aggregator = live.intern_handle(HandleKind::Language, "agg");
    assert!(moa_members(&live, None, 0, aggregator).ok().unwrap().is_empty());
}

#[test]
fn handles_are_not_given_out_twice() {
    let mut live = registry();
    let a = live.intern_handle(HandleKind::Language, "a");
    assert!(live.drop_entry(a).is_some());
    assert!(live.drop_entry(a).is_none());
    let b = live.intern_handle(HandleKind::Language, "b");
    assert!(b != a && b != 0);
    assert!(live.get_handle(a).is_none());
    assert!(live.get_handle(0).is_none());
}

#[test]
fn a_traced_model_has_its_store() {
    let mut live: Registry<&str, &str> = Registry::new();
    let traced = live.intern_traced("model", "store");
    assert_eq!(*live.trace_store_of(traced).ok().unwrap(), "store");
    let plain = live.intern_handle(HandleKind::Language, "plain");
    assert_eq!(ffi_message(live.trace_store_of(plain).err().unwrap()), "invalid or expired trace handle");
    assert!(live.drop_handle(traced).is_some());
    assert!(live.trace_store_of(traced).is_err());
}

#[test]
fn a_call_from_inside_a_call_is_refused() {
    let mut guard = CallGuard::new();
    assert!(guard.enter().is_ok());
    assert!(matches!(guard.enter(), Err(FfiError::ReentrantCall)));
    guard.leave();
    assert!(guard.enter().is_ok());
}

#[test]
fn transcription_session_timeout_is_a_state_not_an_error() {
    let (state, part) = next_part_state(Err(AiMuxError::Timeout("no part yet".into()))).ok().unwrap();
    assert_eq!((state, part), (AIMUX_TRANSCRIPTION_NEXT_PART_TIMEOUT, None));
    let (state, part) = next_part_state(Ok(Some(Ok("part".into())))).ok().unwrap();
    assert_eq!((state, part.as_deref()), (AIMUX_TRANSCRIPTION_NEXT_PART_PART, Some("part")));
    let (state, part) = next_part_state(Ok(None)).ok().unwrap();
    assert_eq!((state, part), (AIMUX_TRANSCRIPTION_NEXT_PART_ENDED, None));
}

#[test]
fn transcription_session_abort_via_signal() {
    let error = next_part_state(Ok(Some(Err(AiMuxError::Aborted("request aborted".into()))))).err().unwrap();
    assert_eq!(aimux_error_code(Some(&aimux_error_t::new(error))), AIMUX_E_ABORTED);
}

#[test]
fn transcription_session_drop_is_safe_and_idempotent() {
    let mut live = registry();
    let session = live.intern_handle(HandleKind::TranscriptionSession, "session");
    assert!(live.drop_entry(session).is_some());
    assert!(live.drop_entry(session).is_none());
    assert!(live.drop_entry(0).is_none());
    assert!(live.drop_entry(999_999).is_none());
    assert_eq!(
        ffi_message(live.of(session, HandleKind::TranscriptionSession).err().unwrap()),
        "invalid or expired transcription session handle"
    );
}

#[test]
fn a_release_by_kind_leaves_other_kinds_alone() {
    let mut live = registry();
    let model = live.intern_handle(HandleKind::Language, "model");
    assert!(live.drop_handle_of(model, HandleKind::Abort).is_none());
    assert!(live.drop_handle_of(model, HandleKind::Operation).is_none());
    assert!(live.model_of(model).is_ok());
    assert!(live.drop_handle_of(model, HandleKind::Language).is_some());
    assert!(live.model_of(model).is_err());
}

#[test]
fn transcription_session_new_rejects_bad_inputs() {
    let error = parse_json_arg(Some(b"{not json"), "opts_json", &read_json).err().unwrap();
    assert!(message(error).starts_with("opts_json: invalid JSON:"));
    let mut live = registry();
    let language = live.intern_handle(HandleKind::Language, "m");
    assert_eq!(
        ffi_message(live.of(language, HandleKind::Transcription).err().unwrap()),
        "invalid or expired transcription handle"
    );
    assert_eq!(
        ffi_message(live.of(999_999, HandleKind::Abort).err().unwrap()),
        "invalid or expired abort handle"
    );
    assert_eq!(ffi_message(check_pointer(false, "out_part").err().unwrap()), "out_part: must not be NULL");
    assert_eq!(ffi_message(check_pointer(false, "out_state").err().unwrap()), "out_state: must not be NULL");
}

#[test]
fn audio_and_waits_are_checked() {
    assert!(audio_to_push(true, 3).ok().unwrap());
    assert!(!audio_to_push(false, 0).ok().unwrap());
    assert_eq!(ffi_message(audio_to_push(false, 3).err().unwrap()), "data: must not be NULL");
    assert_eq!(pull_wait(-1), None);
    assert_eq!(pull_wait(7), Some(7));
    assert!(check_ring_capacity(1).is_ok());
    assert_eq!(
        aimux_error_code(Some(&aimux_error_t::new(check_ring_capacity(0).err().unwrap()))),
        AIMUX_E_INVALID_ARGUMENT
    );
    assert!(matches!(provider_config_error(AiMuxError::JsonParse("x".into())), AiMuxError::InvalidArgument(ref m)
        if m == "config_json: x"));
    assert!(matches!(provider_config_error(AiMuxError::Other("x".into())), AiMuxError::Other(_)));
}

// Operations at the boundary.

const SIGNAL: AbortSignal = AbortSignal { id: 2 };

fn start() -> Operation {
    let request = StartRequest {
        protocol_version: 1,
        mode: Mode::from_name("generate_text").unwrap(),
        prompt: ModelPrompt::Text("hi".into()),
        options: Json::Null,
        repair_tool_call: false,
    };
    let decode = |_: &Json| -> Result<GenerateTextOptions, String> { Ok(GenerateTextOptions::default()) };
    Operation::start(&request, &decode, SIGNAL, 0).ok().unwrap().0
}

fn read(operation: &mut Operation, aborted: bool, lane: i32, wait_ms: i64) -> Result<(i32, Option<String>), AiMuxFfiError> {
    let (lane, _) = operation_read_args(true, true, lane, wait_ms)?;
    operation_read_state(operation.next(lane, aborted, 0))
}

#[test]
fn c_poll_cancel_error_ownership_and_repeated_drop() {
    let mut live: Registry<Operation, ()> = Registry::new();
    let mut operation = start();
    let mut aborted = false;
    let (state, event) = read(&mut operation, aborted, 1, 0).ok().unwrap();
    assert_eq!(state, 1);
    assert!(event.is_none());
    assert_eq!(operation.reply("1", Reply::Unchanged, false, 0).number(), 2);
    operation.cancel(&mut aborted);
    let error = aimux_error_t::new(read(&mut operation, aborted, 1, -1).err().unwrap());
    assert_eq!(aimux_error_code(Some(&error)), AIMUX_E_ABORTED);
    let (state, _) = read(&mut operation, aborted, 1, -1).ok().unwrap();
    assert_eq!(state, 2);
    let handle = live.intern_handle(HandleKind::Operation, operation);
    assert!(live.drop_handle_of(handle, HandleKind::Operation).is_some());
    assert!(live.drop_handle_of(handle, HandleKind::Operation).is_none());
    assert!(live.drop_entry(handle).is_none());
}

#[test]
fn both_drop_paths_wake_in_flight_receivers() {
    for by_kind in [true, false] {
        let mut live: Registry<Operation, ()> = Registry::new();
        let mut operation = start();
        let mut aborted = false;
        assert!(matches!(operation.enter(Lane::Output, aborted, 0), ReadStep::Wait));
        let handle = live.intern_handle(HandleKind::Operation, operation);
        let entry = if by_kind {
            live.drop_handle_of(handle, HandleKind::Operation)
        } else {
            live.drop_entry(handle)
        };
        let entry = entry.unwrap();
        let action = entry.kind.release();
        let mut operation = entry.value;
        match action {
            Release::CancelAndClose => operation.cancel(&mut aborted),
            Release::Terminate | Release::Forget => {}
        }
        assert!(aborted);
        assert!(matches!(operation.next(Lane::Output, aborted, 0), ReadStep::Failed(AiMuxError::Aborted(_))));
        assert!(live.of(handle, HandleKind::Operation).is_err());
    }
}

#[test]
fn a_dropped_handle_is_released_by_its_kind() {
    assert!(HandleKind::Operation.release() == Release::CancelAndClose);
    assert!(HandleKind::TranscriptionSession.release() == Release::Terminate);
    assert!(HandleKind::Language.release() == Release::Forget);
    assert!(HandleKind::Abort.release() == Release::Forget);
}

#[test]
fn malformed_reply_and_null_outputs_do_not_consume_operation() {
    let mut operation = start();
    assert!(operation_read_args(true, false, 1, 0).is_err());
    assert!(operation_read_args(false, true, 1, 0).is_err());
    let decode = |text: &str| -> Result<Reply, WireFault> {
        parse_json(text).map_err(WireFault::Text)?;
        Err(WireFault::Shape("missing field `type`".into()))
    };
    let malformed = operation_reply(&mut operation, Some(b"1"), Some(b"{}"), &decode, false, 0).err().unwrap();
    assert_eq!(message(malformed), "reply_json: missing field `type`");
    assert_eq!(ReplyStatus::OperationEnded.number(), 3);
    // Nothing of this was seen by the operation.
    assert!(matches!(operation.next(Lane::Any, false, 0), ReadStep::Wait));
    assert!(!operation.finished(false, 0));
}

#[test]
fn reads_are_checked() {
    assert!(operation_read_args(true, true, 4, 0).is_err());
    assert!(operation_read_args(true, true, 0, -2).is_err());
    let (lane, wait) = operation_read_args(true, true, 3, -1).ok().unwrap();
    assert!(lane == Lane::Terminal && wait.is_none());
    let (state, _) = operation_read_state(ReadStep::Ready(Next::ReaderBusy)).ok().unwrap();
    assert_eq!(state, 3);
    let event = ReadStep::Ready(Next::Event(aimux::protocol::Event::Part { part: json("[1]") }));
    let (state, text) = operation_read_state(event).ok().unwrap();
    assert_eq!(state, 0);
    assert_eq!(text.as_deref(), Some(r#"{"type":"part","part":[1]}"#));
}

// Repair at the boundary.

const REPAIR_TOOLS: &str = r#"[{"type":"function","name":"weather","input_schema":{"type":"object","properties":{"city":{"type":"string"}},"required":["city"]}}]"#;
const REPAIR_INVALID: &str = r#"{"tool_call_id":"call-1","tool_name":"weather","input":{"town":"SG"},"dynamic":true,"invalid":true,"error":{"InvalidToolInput":{"tool_name":"weather","tool_input":"{\"town\":\"SG\"}","cause":"missing city"}}}"#;
const REPAIR_REPLY: &str = r#"{"type":"repaired","tool_call":{"tool_call_id":"call-1","tool_name":"weather","input":"{\"city\":\"SG\"}"}}"#;

fn decode_options(text: &str) -> Result<GenerateTextOptions, WireFault> {
    let doc = parse_json(text).map_err(WireFault::Text)?;
    let tools = doc.get("tools").and_then(Json::as_array).map(|list| {
        list.iter()
            .map(|tool| {
                Tool::Function(FunctionTool::new(
                    tool.get_str("name").unwrap(),
                    tool.get("input_schema").unwrap().copy(),
                ))
            })
            .collect()
    });
    let instructions = doc.get_str("instructions").cloned();
    Ok(GenerateTextOptions { tools, instructions, ..Default::default() })
}

fn decode_reply(text: &str) -> Result<ToolCallRepairReply, WireFault> {
    let doc = parse_json(text).map_err(WireFault::Text)?;
    let call = doc.get("tool_call");
    match (doc.get_str("type").map(String::as_str), call) {
        (Some("unchanged"), _) => Ok(ToolCallRepairReply::Unchanged),
        (Some("repaired"), Some(call)) => Ok(ToolCallRepairReply::Repaired {
            tool_call: RawToolCall {
                tool_call_id: call.get_str("tool_call_id").unwrap().clone(),
                tool_name: call.get_str("tool_name").unwrap().clone(),
                input: call.get_str("input").unwrap().clone(),
                provider_executed: None,
                dynamic: None,
                thought_signature: None,
                provider_metadata: None,
            },
        }),
        _ => Err(WireFault::Shape("unknown variant".into())),
    }
}

fn decode_prompt(doc: &Json) -> Result<ModelPrompt, WireFault> {
    match doc.as_str() {
        Some(text) => Ok(ModelPrompt::Text(text.clone())),
        None => Err(WireFault::Shape("expected a prompt".into())),
    }
}

fn code_of(error: AiMuxFfiError) -> i32 {
    aimux_error_code(Some(&aimux_error_t::new(error)))
}

#[test]
fn tool_call_repair_exports_round_trip() {
    let opts = format!(r#"{{"tools":{REPAIR_TOOLS},"instructions":"be terse"}}"#);
    let context = aimux_tool_call_repair_context(
        Some(REPAIR_INVALID.as_bytes()),
        Some(br#"{"prompt":"weather in SG?"}"#),
        Some(opts.as_bytes()),
        &decode_prompt,
        &decode_options,
    )
    .ok()
    .unwrap();
    assert!(
        context.contains("\"input_schema\"") && context.contains("{\\\"town\\\":\\\"SG\\\"}"),
        "{context}"
    );
    // The `{"prompt": ...}` wrapper unwrapped into the one user message.
    assert!(
        context.contains(r#""messages":[{"role":"user","content":"weather in SG?"}]"#)
            && context.contains(r#""instructions":"be terse""#),
        "{context}"
    );

    let repaired = aimux_apply_tool_call_repair(
        Some(REPAIR_INVALID.as_bytes()),
        Some(opts.as_bytes()),
        Some(REPAIR_REPLY.as_bytes()),
        &decode_options,
        &decode_reply,
    )
    .ok()
    .unwrap();
    assert!(repaired.contains(r#""input":{"city":"SG"}"#) && !repaired.contains("invalid"), "{repaired}");

    let result = format!(r#"{{"tool_calls":[{REPAIR_INVALID}],"response_messages":[]}}"#);
    let patch = |id: &str| {
        aimux_apply_tool_call_repair_to_result(
            Some(result.as_bytes()),
            Some(opts.as_bytes()),
            Some(id.as_bytes()),
            Some(br#"{"type":"unchanged"}"#),
            &decode_options,
            &decode_reply,
        )
    };
    let patched = patch("call-1").ok().unwrap();
    assert!(patched.contains(r#""invalid":true"#), "{patched}");
    assert_eq!(code_of(patch("call-9").err().unwrap()), AIMUX_E_INVALID_ARGUMENT);
}

#[test]
fn tool_call_repair_without_a_tool_set_yields_null_then_rejects() {
    let texts: [Option<&[u8]>; 3] = [None, Some(b""), Some(br#"{"temperature":0.0}"#)];
    for opts in texts {
        let context = aimux_tool_call_repair_context(
            Some(REPAIR_INVALID.as_bytes()),
            Some(b"\"weather in SG?\""),
            opts,
            &decode_prompt,
            &decode_options,
        )
        .ok()
        .unwrap();
        assert_eq!(context, "null");
    }
    let error = aimux_apply_tool_call_repair(
        Some(REPAIR_INVALID.as_bytes()),
        None,
        Some(br#"{"type":"unchanged"}"#),
        &decode_options,
        &decode_reply,
    )
    .err()
    .unwrap();
    assert_eq!(code_of(error), AIMUX_E_INVALID_ARGUMENT);
}

#[test]
fn tool_call_repair_exports_reject_bad_arguments() {
    let error = aimux_apply_tool_call_repair(None, None, Some(b"{}"), &decode_options, &decode_reply).err().unwrap();
    assert_eq!(message(error), "tool_call_json: must not be NULL");

    let error = aimux_tool_call_repair_context(
        Some(b"{ not json"),
        Some(b"\"hi\""),
        None,
        &decode_prompt,
        &decode_options,
    )
    .err()
    .unwrap();
    assert!(message(error).starts_with("tool_call_json: invalid JSON:"));

    let opts = format!(r#"{{"tools":{REPAIR_TOOLS}}}"#);
    let replied = |reply: Option<&[u8]>| {
        let tool_call = Some(REPAIR_INVALID.as_bytes());
        aimux_apply_tool_call_repair(tool_call, Some(opts.as_bytes()), reply, &decode_options, &decode_reply)
    };
    // What the decoder says of a reply is what the host is told.
    let error = replied(Some(br#"{"type":"nonsense"}"#)).err().unwrap();
    assert!(matches!(error, AiMuxFfiError::AiMux(AiMuxError::InvalidArgument(ref m))
        if m == "reply_json: unknown variant"));
    assert_eq!(code_of(replied(Some(b"{ not json")).err().unwrap()), AIMUX_E_FFI_INVALID_WIRE_JSON);
    assert_eq!(message(replied(None).err().unwrap()), "reply_json: must not be NULL");
}

// Arguments.

#[test]
fn texts_are_read_as_utf8() {
    assert_eq!(str_arg(Some("h\u{e9}".as_bytes()), "a").ok().unwrap(), "h\u{e9}");
    assert!(opt_str_arg(None, "a").ok().unwrap().is_none());
    assert_eq!(opt_str_arg(Some(b"x"), "a").ok().unwrap().as_deref(), Some("x"));
    assert!(matches!(opt_str_arg(Some(&[0xc3]), "a"), Err(FfiError::InvalidUtf8 { .. })));
    let (a, b) = parse_two_args(Some(b"1"), "a", Some(b"2"), "b").ok().unwrap();
    assert_eq!((a.as_str(), b.as_str()), ("1", "2"));
    assert_eq!(
        ffi_message(parse_two_args(Some(b"1"), "a", None, "b").err().unwrap()),
        "b: must not be NULL"
    );
    assert_eq!(
        ffi_message(
            parse_four_args(Some(b"1"), "a", Some(b"2"), "b", None, "c", None, "d").err().unwrap()
        ),
        "c: must not be NULL"
    );
    assert!(parse_base_url(None).ok().unwrap().is_none());
    assert!(parse_base_url(Some(b"")).ok().unwrap().is_none());
    assert_eq!(parse_base_url(Some(b"https://x")).ok().unwrap().as_deref(), Some("https://x"));
}

#[test]
fn prompts_and_options_are_read() {
    let text = |prompt: ModelPrompt| match prompt {
        ModelPrompt::Text(text) => text,
        ModelPrompt::Messages(_) => panic!("expected a text"),
    };
    assert_eq!(text(parse_prompt_arg(Some(b"\"hi\""), &decode_prompt).ok().unwrap()), "hi");
    assert_eq!(text(parse_prompt_arg(Some(br#"{"prompt":"hi"}"#), &decode_prompt).ok().unwrap()), "hi");
    assert!(matches!(parse_prompt_arg(Some(b"7"), &decode_prompt), Err(AiMuxFfiError::AiMux(_))));
    assert!(matches!(
        parse_prompt_arg(Some(b"{"), &decode_prompt),
        Err(AiMuxFfiError::Ffi(FfiError::InvalidWireJson { .. }))
    ));
    assert!(parse_opts_arg(None, &decode_options).ok().unwrap().tools.is_none());
    assert!(matches!(
        parse_opts_arg(Some(b"{"), &decode_options),
        Err(AiMuxFfiError::Ffi(FfiError::InvalidWireJson { .. }))
    ));
}

fn decode_recording(line: &str) -> Result<Recording, WireFault> {
    let doc = parse_json(line).map_err(WireFault::Text)?;
    let provider = doc.get_str("provider").ok_or(WireFault::Shape("missing field `provider`".into()))?;
    Ok(Recording {
        schema: 1,
        call_id: "c".into(),
        recorded_at: "now".into(),
        input: InputRecord { prompt: vec![], options: Json::Null },
        provider: ProviderRecord {
            provider: provider.clone(),
            model_id: "m".into(),
            base_url: None,
            api_key_source: "none".into(),
        },
        exchanges: vec![],
        complete: true,
        transport_closed: true,
        session_id: None,
        step: None,
    })
}

#[test]
fn a_replaying_model_is_made_from_its_recordings() {
    let model = aimux_mock_replay_new(Some(b"{\"provider\":\"p\"}\n\n {\"provider\":\"q\"} \n"), &decode_recording)
        .ok()
        .unwrap();
    assert_eq!(model.provider(), "p");
    assert_eq!(model.recordings().len(), 2);
    assert!(aimux_mock_replay_new(Some(b" \n"), &decode_recording).is_err());
    assert!(aimux_mock_replay_new(Some(b"{}"), &decode_recording).is_err());
    assert_eq!(
        message(aimux_mock_replay_new(None, &decode_recording).err().unwrap()),
        "recordings_jsonl: must not be NULL"
    );
}
