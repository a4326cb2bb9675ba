use aimux::error::AiMuxError;
use aimux::generate::generate_text_result;
use aimux::generate_options::{
    convert_to_language_model_prompt, replay_inputs, split_prompt, GenerateTextOptions, ReplayOverrides,
};
use aimux::json::{Json, JsonObject};
use aimux::json_text::parse_json;
use aimux::message::{ContentPart, LanguageModelPromptMessage, Role};
use aimux::options::CallOptions;
use aimux::parse_tool_call::{ToolCallRepair, ToolCallRepairContext};
use aimux::recording::{HttpExchange, HttpRecord, InputRecord, ProviderRecord, Recording, ResponseRecord};
use aimux::replay::{
    match_score, ExactMatcher, MockReplayModel, PrefixMatcher, ReplayMatcher, ScoreMatcher,
};
use aimux::replay_keys::{canonical_call_key, redaction_aware_eq};
use aimux::result::{GenerateContent, GenerateResult};
use aimux::sampling::Real;
use aimux::stream_part::StreamPart;
use aimux::tool::RawToolCall;
use aimux::types::{FinishReason, FinishReasonUnified, ResponseMetadata, Usage};

type Callback = fn(ToolCallRepairContext) -> Result<Option<RawToolCall>, AiMuxError>;

fn json(text: &str) -> Json {
    parse_json(text).unwrap()
}

fn float(value: f64) -> Real {
    Real::new(&serde_json::Number::from_f64(value).unwrap())
}

fn message(text: &str) -> LanguageModelPromptMessage {
    LanguageModelPromptMessage {
        role: Role::User,
        content: vec![ContentPart::Text { text: text.to_string(), provider_options: None }],
        provider_options: None,
    }
}

fn sample_options(text: &str, temperature: Option<f64>) -> CallOptions {
    GenerateTextOptions { temperature: temperature.map(float), ..Default::default() }
        .into_call_options(vec![message(text)])
}

fn answer(reply: &str, finish: &str) -> String {
    serde_json::to_string(&reply)
        .map(|reply| {
            format!(
                r#"{{"id":"chatcmpl-mock","object":"chat.completion","model":"gpt-4o","choices":[{{"index":0,
                    "message":{{"role":"assistant","content":{reply}}},"finish_reason":"{finish}"}}],
                    "usage":{{"prompt_tokens":5,"completion_tokens":3,"total_tokens":8}}}}"#
            )
        })
        .unwrap()
}

fn exchange(status: u16, body: &str) -> HttpExchange {
    HttpExchange {
        step: None,
        attempt: 0,
        exchange_index: 0,
        request: HttpRecord {
            method: "post".into(),
            url: "https://api.openai.com/v1/chat/completions".into(),
            headers: vec![],
            body: Some("{}".into()),
        },
        response: Some(ResponseRecord {
            status,
            headers: vec![],
            body: Some(body.into()),
            stream_chunks: None,
            ttfb_ms: None,
        }),
        error: None,
        finalized: true,
    }
}

fn openai_recording(trace_id: &str, prompt_text: &str, reply: &str, finish: &str) -> Recording {
    Recording {
        schema: 1,
        call_id: trace_id.to_string(),
        recorded_at: "2026-08-06T00:00:00Z".to_string(),
        input: InputRecord { prompt: vec![message(prompt_text)], options: json(r#"{"temperature":0.7}"#) },
        provider: ProviderRecord {
            provider: "openai".into(),
            model_id: "gpt-4o".into(),
            base_url: None,
            api_key_source: "none".into(),
        },
        exchanges: vec![exchange(200, &answer(reply, finish))],
        complete: true,
        transport_closed: true,
        session_id: None,
        step: None,
    }
}

fn recording_with_body(body: &str) -> Recording {
    let mut rec = openai_recording("t1", "ping", "x", "stop");
    rec.exchanges = vec![exchange(200, body)];
    rec
}

fn model_of(rec: Recording) -> MockReplayModel<ScoreMatcher> {
    MockReplayModel::new("openai", "gpt-4o", vec![rec])
}

fn generated(rec: Recording) -> Result<GenerateResult, AiMuxError> {
    model_of(rec).do_generate(&sample_options("ping", None))
}

fn streamed(rec: Recording) -> Result<Vec<StreamPart>, AiMuxError> {
    model_of(rec).do_stream(&sample_options("ping", None))
}

#[test]
fn exact_matcher_hits_only_identical_prompt() {
    // The recorded options hold a temperature, so a hit needs both the prompt
    // and the temperature.
    let recs = [openai_recording("t1", "ping", "pong", "stop")];
    let matcher = ExactMatcher::new("openai", "gpt-4o");
    assert!(matcher.select(&sample_options("ping", Some(0.7)), &recs).is_ok());
    assert!(matcher.select(&sample_options("pong", Some(0.7)), &recs).is_err());
}

#[test]
fn exact_matcher_different_temperature_misses() {
    let recs = [openai_recording("t1", "ping", "pong", "stop")];
    let matcher = ExactMatcher::new("openai", "gpt-4o");
    assert!(matcher.select(&sample_options("ping", Some(0.1)), &recs).is_err());
    assert!(matcher.select(&sample_options("ping", Some(0.7)), &recs).is_ok());
}

#[test]
fn exact_matcher_different_options_misses() {
    let mut rec = openai_recording("t1", "ping", "pong", "stop");
    let mut call = sample_options("ping", Some(0.7));
    call.max_output_tokens = Some(128);
    rec.input.options = canonical_call_key(&call);
    let recs = [rec];
    let matcher = ExactMatcher::new("openai", "gpt-4o");

    let mut req = sample_options("ping", Some(0.7));
    req.max_output_tokens = Some(256);
    assert!(matcher.select(&req, &recs).is_err());

    let mut req2 = sample_options("ping", Some(0.7));
    req2.max_output_tokens = Some(128);
    assert!(matcher.select(&req2, &recs).is_ok());
}

fn headers(list: &[(&str, &str)]) -> Option<Vec<(String, String)>> {
    Some(list.iter().map(|(name, value)| (name.to_string(), value.to_string())).collect())
}

#[test]
fn exact_matcher_different_headers_misses() {
    let mut rec = openai_recording("t1", "ping", "pong", "stop");
    let mut call = sample_options("ping", Some(0.7));
    call.headers = headers(&[("x-custom", "a")]);
    rec.input.options = canonical_call_key(&call);
    let recs = [rec];
    let matcher = ExactMatcher::new("openai", "gpt-4o");

    let mut req = sample_options("ping", Some(0.7));
    req.headers = headers(&[("x-custom", "b")]);
    assert!(matcher.select(&req, &recs).is_err());

    let mut req2 = sample_options("ping", Some(0.7));
    req2.headers = headers(&[("x-custom", "a")]);
    assert!(matcher.select(&req2, &recs).is_ok());

    // One more header on the request: the names differ.
    let mut req3 = sample_options("ping", Some(0.7));
    req3.headers = headers(&[("x-custom", "a"), ("x-extra", "z")]);
    assert!(matcher.select(&req3, &recs).is_err());
}

fn openai_option(value: &str) -> Option<JsonObject> {
    Some(JsonObject::new().with("openai", json(value)))
}

#[test]
fn exact_matcher_different_provider_options_misses() {
    let mut rec = openai_recording("t1", "ping", "pong", "stop");
    let mut call = sample_options("ping", Some(0.7));
    call.provider_options = openai_option(r#"{"foo":1}"#);
    rec.input.options = canonical_call_key(&call);
    let recs = [rec];
    let matcher = ExactMatcher::new("openai", "gpt-4o");

    let mut req = sample_options("ping", Some(0.7));
    req.provider_options = openai_option(r#"{"foo":2}"#);
    assert!(matcher.select(&req, &recs).is_err());

    let mut req2 = sample_options("ping", Some(0.7));
    req2.provider_options = openai_option(r#"{"foo":1}"#);
    assert!(matcher.select(&req2, &recs).is_ok());
}

#[test]
fn exact_matcher_redacted_values_match_any() {
    let mut rec = openai_recording("t1", "ping", "pong", "stop");
    rec.input.options = json(
        r#"{"temperature":0.7,"headers":{"authorization":"[REDACTED]","content-type":"application/json"}}"#,
    );
    assert_eq!(
        rec.input.options.get("headers").unwrap().get_str("authorization").unwrap(),
        "[REDACTED]"
    );
    let recs = [rec];
    let matcher = ExactMatcher::new("openai", "gpt-4o");

    let mut req = sample_options("ping", Some(0.7));
    req.headers = headers(&[("authorization", "sk-other"), ("content-type", "application/json")]);
    assert!(matcher.select(&req, &recs).is_ok());

    // A value that is not redacted is compared.
    let mut req2 = sample_options("ping", Some(0.7));
    req2.headers = headers(&[("authorization", "sk-other"), ("content-type", "text/plain")]);
    assert!(matcher.select(&req2, &recs).is_err());

    // The redacted header is missing from the request.
    let mut req3 = sample_options("ping", Some(0.7));
    req3.headers = headers(&[("content-type", "application/json")]);
    assert!(matcher.select(&req3, &recs).is_err());

    // No headers at all.
    assert!(matcher.select(&sample_options("ping", Some(0.7)), &recs).is_err());
}

#[test]
fn score_matcher_prefers_longer_prefix_and_ties_to_first() {
    let recs = [
        openai_recording("t1", "hello", "a", "stop"),
        openai_recording("t2", "hello world", "b", "stop"),
    ];
    let matcher = ScoreMatcher::new("openai", "gpt-4o");
    let hit = matcher.select(&sample_options("hello world!", None), &recs).ok().unwrap();
    assert_eq!(hit.call_id, "t2");
    let hit = matcher.select(&sample_options("hello", None), &recs).ok().unwrap();
    assert_eq!(hit.call_id, "t1");
    let hit = matcher.select(&sample_options("hello", Some(0.7)), &recs).ok().unwrap();
    assert_eq!(hit.call_id, "t1");

    let twins = [
        openai_recording("first", "hello", "a", "stop"),
        openai_recording("second", "hello", "b", "stop"),
    ];
    let hit = matcher.select(&sample_options("hello", None), &twins).ok().unwrap();
    assert_eq!(hit.call_id, "first");
}

#[test]
fn match_score_empty_prompt_no_underflow() {
    let rec = openai_recording("t1", "hello", "a", "stop");
    let empty_req = GenerateTextOptions::default().into_call_options(vec![]);
    assert_eq!(match_score(&empty_req, &rec), 0);
    let mut rec_empty = openai_recording("t1", "hello", "a", "stop");
    rec_empty.input.prompt = vec![];
    assert_eq!(match_score(&sample_options("hello", None), &rec_empty), 0);
    assert_eq!(match_score(&empty_req, &rec_empty), 0);
}

#[test]
fn match_score_counts_messages_bytes_and_temperature() {
    let rec = openai_recording("t1", "hello", "a", "stop");
    // One common message and its five bytes.
    assert_eq!(match_score(&sample_options("hello", None), &rec), 105);
    // The same temperature adds one.
    assert_eq!(match_score(&sample_options("hello", Some(0.7)), &rec), 106);
    // No common message; three common bytes.
    assert_eq!(match_score(&sample_options("help", None), &rec), 3);
    // Bytes, not characters.
    let accented = openai_recording("t2", "é!", "a", "stop");
    assert_eq!(match_score(&sample_options("é?", None), &accented), 2);
    assert_eq!(match_score(&sample_options("zzz", Some(0.7)), &rec), 0);
}

#[test]
fn score_matcher_unrelated_prompt_with_matching_temperature_misses() {
    let mut rec = openai_recording("t1", "alpha", "a", "stop");
    rec.input.options = json("{}");
    let matcher = ScoreMatcher::new("openai", "gpt-4o");
    assert!(matcher.select(&sample_options("zzzzz", None), &[rec]).is_err());
}

#[test]
fn score_matcher_related_prompt_with_matching_temperature_hits() {
    let recs = [openai_recording("t1", "hello", "a", "stop")];
    let matcher = ScoreMatcher::new("openai", "gpt-4o");
    let hit = matcher.select(&sample_options("hello", Some(0.7)), &recs).ok().unwrap();
    assert_eq!(hit.call_id, "t1");
}

#[test]
fn prefix_matcher_matches_message_prefix() {
    let recs = [openai_recording("t1", "hello", "a", "stop")];
    let matcher = PrefixMatcher::new("openai", "gpt-4o");
    let opts = GenerateTextOptions::default().into_call_options(vec![message("hello"), message("world")]);
    assert_eq!(matcher.select(&opts, &recs).ok().unwrap().call_id, "t1");

    // Whole messages, not characters.
    let opts2 = GenerateTextOptions::default().into_call_options(vec![message("hi")]);
    assert!(matcher.select(&opts2, &recs).is_err());
}

#[test]
fn prefix_matcher_prefers_longest_prefix() {
    let mut rec_a = openai_recording("ta", "hello", "a", "stop");
    let mut rec_b = openai_recording("tb", "hello world", "b", "stop");
    rec_a.input.prompt = vec![message("hello")];
    rec_b.input.prompt = vec![message("hello"), message("world")];

    let matcher = PrefixMatcher::new("openai", "gpt-4o");
    let opts =
        GenerateTextOptions::default().into_call_options(vec![message("hello"), message("world"), message("!")]);
    let recs = [rec_a, rec_b];
    assert_eq!(matcher.select(&opts, &recs).ok().unwrap().call_id, "tb");
}

#[test]
fn matchers_keep_to_their_provider_and_model() {
    let recs = [openai_recording("t1", "hello", "a", "stop")];
    let call = sample_options("hello", Some(0.7));
    assert!(ExactMatcher::new("other", "gpt-4o").select(&call, &recs).is_err());
    assert!(ScoreMatcher::new("openai", "gpt-5").select(&call, &recs).is_err());
    assert!(PrefixMatcher::new("", "").select(&call, &recs).is_err());
}

#[test]
fn redactions_stand_for_what_is_there() {
    let redacted = json(r#""[REDACTED]""#);
    assert!(redaction_aware_eq(&redacted, &json("5")));
    assert!(redaction_aware_eq(&redacted, &json(r#"{"a":1}"#)));
    assert!(!redaction_aware_eq(&redacted, &Json::Null));
    assert!(redaction_aware_eq(&Json::Null, &Json::Null));
    assert!(!redaction_aware_eq(&json("5"), &redacted));
    assert!(redaction_aware_eq(&json(r#"{"a":["[REDACTED]",1]}"#), &json(r#"{"a":[true,1]}"#)));
    assert!(!redaction_aware_eq(&json(r#"{"a":["[REDACTED]"]}"#), &json(r#"{"a":[true,1]}"#)));
    assert!(redaction_aware_eq(&json(r#"{"a":1,"b":2}"#), &json(r#"{"b":2,"a":1}"#)));
    assert!(!redaction_aware_eq(&json("1"), &json("1.0")));
}

#[test]
fn a_redacted_token_limit_does_not_match() {
    let mut rec = openai_recording("t1", "ping", "pong", "stop");
    rec.input.options = json(r#"{"max_output_tokens":"[REDACTED]"}"#);
    let mut req = sample_options("ping", None);
    req.max_output_tokens = Some(128);
    assert!(ExactMatcher::new("openai", "gpt-4o").select(&req, &[rec]).is_err());
}

#[test]
fn unmatched_returns_clear_error() {
    let model = model_of(openai_recording("t1", "ping", "pong", "stop"));
    let error = model.do_generate(&sample_options("nope", None)).err().unwrap();
    assert!(error.message().contains("mock replay"), "{}", error.message());
}

#[test]
fn mock_model_rebuilds_generate_result_from_openai_body() {
    let result = generated(openai_recording("t1", "ping", "pong", "stop")).ok().unwrap();
    let Some(GenerateContent::Text { text, .. }) = result.content.first() else {
        panic!("expected text content");
    };
    assert_eq!(text, "pong");
    assert!(result.finish_reason.unified == FinishReasonUnified::Stop);
    assert_eq!(result.usage.input_tokens.total, Some(5));
    assert_eq!(result.response.model_id.as_deref(), Some("gpt-4o"));
}

#[test]
fn mock_model_usage_overflow_errors() {
    let error = generated(recording_with_body(
        r#"{"id":"chatcmpl-mock","model":"gpt-4o","choices":[{"index":0,
            "message":{"role":"assistant","content":"pong"},"finish_reason":"stop"}],
            "usage":{"prompt_tokens":5000000000,"completion_tokens":3,"total_tokens":8}}"#,
    ))
    .err()
    .unwrap();
    assert!(matches!(error, AiMuxError::JsonParse(_)));
    assert!(error.message().contains("overflows u32"), "{}", error.message());
}

fn text_deltas(parts: &[StreamPart]) -> Vec<String> {
    parts
        .iter()
        .filter_map(|part| match part {
            StreamPart::TextDelta { delta, .. } => Some(delta.clone()),
            _ => None,
        })
        .collect()
}

#[test]
fn mock_model_rebuilds_stream_from_sse() {
    let sse = "data: {\"choices\":[{\"delta\":{\"role\":\"assistant\",\"content\":\"hel\"}}]}\n\n\
               data: {\"choices\":[{\"delta\":{\"content\":\"lo\"}}]}\n\n\
               data: {\"choices\":[{\"delta\":{},\"finish_reason\":\"stop\"}]}\n\n\
               data: [DONE]\n\n";
    let parts = streamed(recording_with_body(sse)).ok().unwrap();
    assert!(matches!(parts[0], StreamPart::StreamStart { .. }));
    assert_eq!(text_deltas(&parts), vec!["hel", "lo"]);
    assert!(parts.iter().any(|p| matches!(p, StreamPart::Finish { .. })));
}

#[test]
fn non_openai_body_returns_unsupported() {
    let error = generated(recording_with_body(r#"{"foo":"bar"}"#)).err().unwrap();
    assert!(matches!(error, AiMuxError::UnsupportedFunctionality(_)));
}

#[test]
fn non_openai_stream_returns_unsupported() {
    let sse = "event: message_start\ndata: {\"type\":\"message_start\"}\n\n";
    let error = streamed(recording_with_body(sse)).err().unwrap();
    assert!(matches!(error, AiMuxError::UnsupportedFunctionality(_)));
}

fn one_call_body(id: &str, name: &str, arguments: &str) -> String {
    format!(
        r#"{{"id":"chatcmpl-mock","model":"gpt-4o","choices":[{{"index":0,"message":{{"role":"assistant",
            "content":null,"tool_calls":[{{"id":"{id}","type":"function",
            "function":{{"name":"{name}","arguments":{}}}}}]}},"finish_reason":"tool_calls"}}]}}"#,
        serde_json::to_string(arguments).unwrap(),
    )
}

#[test]
fn mock_model_rebuilds_tool_calls_from_openai_body() {
    let result =
        generated(recording_with_body(&one_call_body("call_abc", "get_weather", r#"{"city":"SF"}"#))).ok().unwrap();
    assert_eq!(result.content.len(), 1);
    let Some(GenerateContent::ToolCall(call)) = result.content.first() else {
        panic!("expected a tool call");
    };
    assert_eq!(call.tool_call_id, "call_abc");
    assert_eq!(call.tool_name, "get_weather");
    assert_eq!(call.input, r#"{"city":"SF"}"#);
    assert!(result.finish_reason.unified == FinishReasonUnified::ToolCalls);
}

#[test]
fn mock_model_tool_call_bad_json_arguments_falls_back_to_string() {
    let result = generated(recording_with_body(&one_call_body("call_1", "f", "not-json{"))).ok().unwrap();
    let Some(GenerateContent::ToolCall(call)) = result.content.first() else {
        panic!("expected a tool call");
    };
    assert_eq!(call.input, "not-json{");
}

fn announced(parts: &[StreamPart], id: &str, model: &str) -> bool {
    parts.iter().any(|part| {
        matches!(part, StreamPart::ResponseMetadata(response)
            if response.id.as_deref() == Some(id) && response.model_id.as_deref() == Some(model))
    })
}

#[test]
fn mock_model_rebuilds_stream_tool_calls() {
    let chunk1 = r#"{"id":"chatcmpl-1","model":"gpt-4o","choices":[{"index":0,"delta":{"role":"assistant",
        "tool_calls":[{"index":0,"id":"call_1","type":"function",
        "function":{"name":"get_weather","arguments":""}}]}}]}"#
        .replace('\n', " ");
    let chunk2 = r#"{"choices":[{"index":0,"delta":{"tool_calls":[{"index":0,"function":{"arguments":"{\"city\":\"SF\"}"}}]}}]}"#;
    let chunk3 = r#"{"choices":[{"index":0,"delta":{},"finish_reason":"tool_calls"}]}"#;
    let sse = format!("data: {chunk1}\n\ndata: {chunk2}\n\ndata: {chunk3}\n\ndata: [DONE]\n\n");
    let parts = streamed(recording_with_body(&sse)).ok().unwrap();
    assert!(announced(&parts, "chatcmpl-1", "gpt-4o"));
    assert!(parts
        .iter()
        .any(|p| matches!(p, StreamPart::ToolInputStart { tool_name, .. } if tool_name == "get_weather")));
    // The empty first arguments are not a delta.
    let deltas: Vec<String> = parts
        .iter()
        .filter_map(|p| match p {
            StreamPart::ToolInputDelta { delta, .. } => Some(delta.clone()),
            _ => None,
        })
        .collect();
    assert_eq!(deltas, vec!["{\"city\":\"SF\"}"]);
    assert!(parts.iter().any(|p| matches!(p, StreamPart::ToolInputEnd { .. })));
    let calls: Vec<_> = parts
        .iter()
        .filter_map(|p| match p {
            StreamPart::ToolCall(call) => Some(call),
            _ => None,
        })
        .collect();
    assert_eq!(calls.len(), 1);
    assert_eq!(calls[0].tool_call_id, "call_1");
    assert_eq!(calls[0].tool_name, "get_weather");
    assert_eq!(calls[0].input.as_str().unwrap(), r#"{"city":"SF"}"#);
    assert!(parts.iter().any(|p| matches!(p, StreamPart::Finish { finish_reason, .. }
        if finish_reason.unified == FinishReasonUnified::ToolCalls)));
}

#[test]
fn a_rebuilt_tool_input_becomes_its_call_at_once() {
    let delta = |index: u32, id: &str, arguments: &str| {
        format!(
            r#"data: {{"id":"r","choices":[{{"delta":{{"tool_calls":[{{"index":{index},"id":"{id}","function":{{"name":"f","arguments":"{arguments}"}}}}]}}}}]}}"#
        )
    };
    let events = [delta(0, "a", "1"), delta(1, "b", "x"), delta(0, "a", "2"), delta(1, "b", "y")];
    let parts = streamed(recording_with_body(&events.join("\n\n"))).ok().unwrap();
    let named = parts.iter().filter(|part| matches!(part, StreamPart::ResponseMetadata(_))).count();
    assert_eq!(named, 1);
    let mut made = Vec::new();
    for (i, part) in parts.iter().enumerate() {
        if let StreamPart::ToolInputEnd { id, .. } = part {
            let Some(StreamPart::ToolCall(call)) = parts.get(i + 1) else {
                panic!("expected the call");
            };
            assert_eq!(call.tool_call_id, *id);
            made.push((id.clone(), call.input.as_str().unwrap().to_string()));
        }
    }
    assert_eq!(made, vec![("a".to_string(), "12".to_string()), ("b".to_string(), "xy".to_string())]);
}

#[test]
fn mock_model_rebuilds_stream_metadata_and_usage() {
    let chunk1 = r#"{"id":"chatcmpl-2","model":"gpt-4o","choices":[{"index":0,"delta":{"content":"hi"}}]}"#;
    let chunk2 = r#"{"id":"chatcmpl-2","choices":[],"usage":{"prompt_tokens":7,"completion_tokens":2,"total_tokens":9}}"#;
    let sse = format!("data: {chunk1}\n\ndata: {chunk2}\n\ndata: [DONE]\n\n");
    let parts = streamed(recording_with_body(&sse)).ok().unwrap();
    assert!(announced(&parts, "chatcmpl-2", "gpt-4o"));
    assert_eq!(text_deltas(&parts), vec!["hi"]);
    let Some(StreamPart::Finish { usage, .. }) = parts.last() else {
        panic!("expected a finish");
    };
    assert_eq!(usage.input_tokens.total, Some(7));
    assert_eq!(usage.output_tokens.total, Some(2));
}

#[test]
fn a_rebuilt_stream_brackets_its_segments() {
    let sse = concat_blocks(&[
        r#"{"choices":[{"delta":{"reasoning_content":"hm"}}]}"#,
        r#"{"choices":[{"delta":{"content":"yes"}}]}"#,
        r#"{"choices":[{"delta":{"reasoning":"more"}}]}"#,
        "not json",
    ]);
    let parts = streamed(recording_with_body(&sse)).ok().unwrap();
    let names: Vec<&str> = parts
        .iter()
        .map(|part| match part {
            StreamPart::StreamStart { .. } => "start",
            StreamPart::ReasoningStart { .. } => "reasoning-start",
            StreamPart::ReasoningDelta { .. } => "reasoning",
            StreamPart::ReasoningEnd { .. } => "reasoning-end",
            StreamPart::TextStart { .. } => "text-start",
            StreamPart::TextDelta { .. } => "text",
            StreamPart::TextEnd { .. } => "text-end",
            StreamPart::Finish { .. } => "finish",
            _ => "other",
        })
        .collect();
    assert_eq!(
        names,
        vec![
            "start",
            "reasoning-start",
            "reasoning",
            "reasoning-end",
            "text-start",
            "text",
            "reasoning-start",
            "reasoning",
            "reasoning-end",
            "text-end",
            "finish"
        ]
    );
}

fn concat_blocks(events: &[&str]) -> String {
    events.iter().map(|event| format!("data: {event}\n\n")).collect()
}

#[test]
fn last_response_skips_failed_attempt() {
    let mut rec = openai_recording("t1", "ping", "pong", "stop");
    rec.exchanges[0].response.as_mut().unwrap().status = 500;
    rec.exchanges.push(exchange(
        200,
        r#"{"id":"chatcmpl-ok","model":"gpt-4o","choices":[{"index":0,
            "message":{"role":"assistant","content":"pong"},"finish_reason":"stop"}],
            "usage":{"prompt_tokens":5,"completion_tokens":3,"total_tokens":8}}"#,
    ));
    rec.exchanges[1].attempt = 1;
    rec.exchanges[1].exchange_index = 1;
    let result = generated(rec).ok().unwrap();
    let Some(GenerateContent::Text { text, .. }) = result.content.first() else {
        panic!("expected text");
    };
    assert_eq!(text, "pong");
    assert_eq!(result.response.id.as_deref(), Some("chatcmpl-ok"));
}

#[test]
fn last_response_no_successful_response_errors() {
    let mut rec = openai_recording("t1", "ping", "pong", "stop");
    rec.exchanges[0].response.as_mut().unwrap().status = 500;
    let error = generated(rec).err().unwrap();
    assert!(error.message().contains("no successful"), "{}", error.message());
}

#[test]
fn an_unfinished_or_failed_exchange_is_not_replayed() {
    let mut unfinished = openai_recording("t1", "ping", "pong", "stop");
    unfinished.exchanges[0].finalized = false;
    assert!(generated(unfinished).is_err());
    let mut failed = openai_recording("t1", "ping", "pong", "stop");
    failed.exchanges[0].error = Some("reset".into());
    assert!(generated(failed).is_err());
    let mut bodiless = openai_recording("t1", "ping", "pong", "stop");
    bodiless.exchanges[0].response.as_mut().unwrap().body = None;
    let error = generated(bodiless).err().unwrap();
    assert!(matches!(error, AiMuxError::InvalidArgument(ref m) if m == "mock replay: response has no body"));
}

fn decode(line: &str) -> Result<Recording, String> {
    let doc = parse_json(line)?;
    let prompt = doc.get_str("prompt").ok_or("missing field `prompt`")?;
    Ok(openai_recording("t1", prompt, "pong", "stop"))
}

#[test]
fn from_jsonl_loads_recordings() {
    let model = MockReplayModel::from_jsonl("{\"prompt\":\"ping\"}\n", &decode).ok().unwrap();
    assert_eq!(model.provider(), "openai");
    assert_eq!(model.model_id(), "gpt-4o");
    assert_eq!(model.recordings().len(), 1);

    let two = MockReplayModel::from_jsonl("{\"prompt\":\"a\"}\r\n\n  \n{\"prompt\":\"b\"}", &decode).ok().unwrap();
    assert_eq!(two.recordings().len(), 2);
}

#[test]
fn from_jsonl_names_the_line_that_it_cannot_read() {
    let error = MockReplayModel::from_jsonl("{\"prompt\":\"a\"}\n\n{}\n", &decode).err().unwrap();
    assert!(matches!(error, AiMuxError::JsonParse(ref m) if m == "mock replay line 3: missing field `prompt`"));
    let empty = MockReplayModel::from_jsonl("\n \n", &decode).err().unwrap();
    assert!(matches!(empty, AiMuxError::InvalidArgument(ref m) if m == "mock replay: empty recording file"));
}

/// A model that says what it was asked.
fn echo(options: &CallOptions) -> GenerateResult {
    let text = options
        .prompt
        .iter()
        .filter_map(|m| match m.content.first() {
            Some(ContentPart::Text { text, .. }) => Some(text.clone()),
            _ => None,
        })
        .collect::<Vec<_>>()
        .join(" ");
    GenerateResult {
        content: vec![GenerateContent::Text { text, provider_metadata: None }],
        finish_reason: FinishReason { unified: FinishReasonUnified::Stop, raw: Some("stop".into()) },
        usage: Usage::unknown(),
        warnings: vec![],
        provider_metadata: None,
        response: ResponseMetadata::unknown(),
        request_body: None,
        response_headers: None,
    }
}

fn resend(decoded: Result<CallOptions, String>, overrides: Option<&ReplayOverrides>) -> Result<String, AiMuxError> {
    let (prompt, options) = replay_inputs(decoded, overrides)?;
    let instructions = options.instructions.clone();
    let (messages, instructions) = split_prompt(prompt, instructions.as_deref());
    let sent = convert_to_language_model_prompt(&messages, instructions);
    let call = options.into_call_options(sent);
    let none: Option<&ToolCallRepair<Callback>> = None;
    Ok(generate_text_result(echo(&call), None, none, &messages, None).text)
}

#[test]
fn replay_with_model_rebuilds_input_and_resends() {
    let mut call = sample_options("hello", Some(0.7));
    call.max_output_tokens = Some(128);
    assert_eq!(resend(Ok(call), None).ok().unwrap(), "hello");
}

#[test]
fn replay_with_model_applies_overrides() {
    let overrides =
        ReplayOverrides { prompt: Some(vec![message("overridden")]), temperature: None, max_output_tokens: None };
    assert_eq!(resend(Ok(sample_options("hello", Some(0.7))), Some(&overrides)).ok().unwrap(), "overridden");

    let numbers = ReplayOverrides { prompt: None, temperature: Some(float(0.1)), max_output_tokens: Some(9) };
    let (_, options) = replay_inputs(Ok(sample_options("hello", Some(0.7))), Some(&numbers)).ok().unwrap();
    assert!(options.temperature.unwrap().same(&float(0.1)));
    assert_eq!(options.max_output_tokens, Some(9));
}

#[test]
fn replay_with_model_bad_input_options_errors() {
    let error = resend(Err("missing field `prompt`".into()), None).err().unwrap();
    assert!(matches!(error, AiMuxError::JsonParse(ref m)
        if m == "mock replay: input options invalid: missing field `prompt`"));
}

#[test]
fn a_model_matches_in_the_way_it_was_given() {
    let recs = vec![openai_recording("t1", "ping", "pong", "stop")];
    let exact = MockReplayModel::with_matcher("openai", "gpt-4o", recs, ExactMatcher::new("openai", "gpt-4o"));
    assert_eq!((exact.provider(), exact.model_id()), ("openai", "gpt-4o"));
    assert_eq!(exact.recordings().len(), 1);
    assert!(exact.do_generate(&sample_options("ping", Some(0.7))).is_ok());
    assert!(exact.do_generate(&sample_options("ping", None)).is_err());
}
