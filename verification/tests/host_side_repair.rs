use aimux::error::AiMuxError;
use aimux::generate::GenerateTextResult;
use aimux::json::Json;
use aimux::json_text::{parse_json, print_json};
use aimux::message::{ContentPart, MessageContent, ModelMessage, Role};
use aimux::openai_output::generate_text_result_to_chat_completion;
use aimux::parse_tool_call::{
    apply_tool_call_repair, parse_tool_call, tool_call_repair_context, ToolCallRepair, ToolCallRepairContext,
    ToolCallRepairReply,
};
use aimux::repair_result::apply_tool_call_repair_to_result;
use aimux::result::{GenerateContent, GenerateResult};
use aimux::result_wire::aggregated_json;
use aimux::stream_text::StreamTextResultAggregated;
use aimux::tool::{FunctionTool, RawToolCall, Tool, ToolCall};
use aimux::types::{FinishReason, FinishReasonUnified, ResponseMetadata, Usage};
use aimux::wire::call_json;
use aimux::wire_read::get_call;

type Callback = fn(ToolCallRepairContext) -> Result<Option<RawToolCall>, AiMuxError>;

const BAD: &str = r#"{"town":"Singapore"}"#;

fn json(text: &str) -> Json {
    parse_json(text).unwrap()
}

fn at<'a>(doc: &'a Json, path: &[&str]) -> &'a Json {
    let mut here = doc;
    for step in path {
        here = match step.parse::<usize>() {
            Ok(index) => here.get_item(index).unwrap(),
            Err(_) => here.get(step).unwrap(),
        };
    }
    here
}

fn assert_json(doc: &Json, expected: &str) {
    assert!(doc.same(&json(expected)), "{}", print_json(doc));
}

fn weather_tool() -> Tool {
    Tool::Function(FunctionTool::new(
        "weather",
        json(r#"{"type":"object","properties":{"city":{"type":"string"}},"required":["city"]}"#),
    ))
}

fn raw(name: &str, input: &str) -> RawToolCall {
    RawToolCall {
        tool_call_id: "call-1".into(),
        tool_name: name.into(),
        input: input.into(),
        provider_executed: None,
        dynamic: None,
        thought_signature: None,
        provider_metadata: None,
    }
}

fn invalid_call(input: &str) -> ToolCall {
    let call = parse_tool_call::<Callback>(raw("weather", input), Some(&[weather_tool()]), None, &[], None);
    assert_eq!(call.invalid, Some(true));
    call
}

fn repaired_weather() -> ToolCallRepairReply {
    ToolCallRepairReply::Repaired { tool_call: raw("weather", r#"{"city":"Singapore"}"#) }
}

#[test]
fn host_side_tool_call_repair_test_both_paths_agree_on_every_branch() {
    let replies: Vec<fn() -> (Result<Option<RawToolCall>, AiMuxError>, ToolCallRepairReply)> = vec![
        || (Ok(Some(raw("weather", r#"{"city":"Singapore"}"#))), repaired_weather()),
        || {
            let still_bad = || raw("weather", r#"{"city":42}"#);
            (Ok(Some(still_bad())), ToolCallRepairReply::Repaired { tool_call: still_bad() })
        },
        || (Ok(None), ToolCallRepairReply::Unchanged),
        || {
            (
                Err(AiMuxError::Other("boom".into())),
                ToolCallRepairReply::Failed { message: "boom".into() },
            )
        },
    ];
    for make in replies {
        let repair = ToolCallRepair::new(move |_: ToolCallRepairContext| make().0);
        let from_closure =
            parse_tool_call(raw("weather", BAD), Some(&[weather_tool()]), Some(&repair), &[], None);
        let from_data = apply_tool_call_repair(&invalid_call(BAD), Some(&[weather_tool()]), make().1)
            .ok()
            .unwrap();
        assert!(call_json(&from_closure).same(&call_json(&from_data)));
    }
}

#[test]
fn host_side_tool_call_repair_test_context_of_an_unknown_tool_falls_back_to_an_empty_schema() {
    let unknown = parse_tool_call::<Callback>(
        raw("wether", r#"{"city":"Singapore"}"#),
        Some(&[weather_tool()]),
        None,
        &[],
        None,
    );
    let context = tool_call_repair_context(&unknown, Some(&[weather_tool()]), &[], None)
        .ok()
        .unwrap()
        .expect("a tool set was supplied");
    assert_json(at(&context, &["input_schema", "properties"]), "{}");
    assert!(matches!(at(&context, &["error", "NoSuchTool"]), Json::Object(_)));
}

fn result_with(calls: &[&ToolCall]) -> Json {
    let listed: Vec<String> = calls.iter().map(|call| print_json(&call_json(call))).collect();
    let first = calls[0];
    json(&format!(
        r#"{{"tool_calls":[{}],"response_messages":[{{"role":"assistant","content":[
            {{"type":"text","text":"checking"}},
            {{"type":"tool_call","tool_call_id":"{}","tool_name":"{}","input":{}}}]}}]}}"#,
        listed.join(","),
        first.tool_call_id,
        first.tool_name,
        print_json(&first.input),
    ))
}

#[test]
fn host_side_tool_call_repair_test_patching_a_generate_object_result_reaches_into_raw() {
    let inner = print_json(&result_with(&[&invalid_call(BAD)]));
    let result = json(&format!(r#"{{"object":{{"ok":true}},"raw":{inner}}}"#));
    let patched = apply_tool_call_repair_to_result(&result, Some(&[weather_tool()]), "call-1", repaired_weather())
        .ok()
        .unwrap();
    assert_json(at(&patched, &["object"]), r#"{"ok": true}"#);
    assert_json(at(&patched, &["raw", "tool_calls", "0", "input"]), r#"{"city":"Singapore"}"#);
}

#[test]
fn patching_an_aggregated_stream_result_round_trips_through_its_type() {
    // Hosts patch a consumed stream with the same function; the patched calls
    // must still decode.
    let call = invalid_call(BAD);
    let transcript = ModelMessage {
        role: Role::Assistant,
        content: MessageContent::Parts(vec![
            ContentPart::Text { text: "checking".into(), provider_options: None },
            ContentPart::ToolCall {
                tool_call_id: call.tool_call_id.clone(),
                tool_name: call.tool_name.clone(),
                input: call.input.copy(),
                provider_executed: None,
                thought_signature: None,
                provider_options: None,
            },
        ]),
    };
    let aggregated = StreamTextResultAggregated {
        text: String::new(),
        reasoning: vec![],
        reasoning_text: String::new(),
        tool_calls: vec![call],
        sources: vec![],
        files: vec![],
        finish_reason: FinishReason { unified: FinishReasonUnified::ToolCalls, raw: None },
        raw_finish_reason: None,
        usage: Usage::unknown(),
        total_usage: Usage::unknown(),
        warnings: vec![],
        provider_metadata: None,
        response: None,
        response_messages: vec![transcript],
    };
    let patched = apply_tool_call_repair_to_result(
        &aggregated_json(&aggregated),
        Some(&[weather_tool()]),
        "call-1",
        repaired_weather(),
    )
    .ok()
    .unwrap();
    let decoded = get_call(at(&patched, &["tool_calls", "0"])).ok().unwrap();
    assert_eq!(decoded.invalid, None);
    assert_json(&decoded.input, r#"{"city":"Singapore"}"#);
    let part = at(&patched, &["response_messages", "0", "content", "1"]);
    assert_json(at(part, &["input"]), r#"{"city":"Singapore"}"#);
}

#[test]
fn context_keeps_the_provider_argument_text_verbatim() {
    // A bare JSON string literal parses fine, so `input` holds `Tokyo`
    // without quotes; the host must still see the provider's `"Tokyo"`, or a
    // repair that only renames the tool re-validates the wrong text.
    let call = invalid_call(r#""Tokyo""#);
    assert_json(&call.input, r#""Tokyo""#);
    let context = tool_call_repair_context(&call, Some(&[weather_tool()]), &[], None)
        .ok()
        .unwrap()
        .expect("a tool set was supplied");
    assert_eq!(at(&context, &["tool_call", "input"]).as_str().unwrap(), r#""Tokyo""#);

    let spaced = invalid_call(r#"{ "town" : "Tokyo" }"#);
    let context = tool_call_repair_context(&spaced, Some(&[weather_tool()]), &[], None).ok().unwrap().unwrap();
    assert_eq!(at(&context, &["tool_call", "input"]).as_str().unwrap(), r#"{ "town" : "Tokyo" }"#);
}

#[test]
fn patching_refuses_a_duplicated_tool_call_id() {
    let call = invalid_call(BAD);
    let result = result_with(&[&call, &call]);
    let error = apply_tool_call_repair_to_result(
        &result,
        Some(&[weather_tool()]),
        "call-1",
        ToolCallRepairReply::Unchanged,
    )
    .err()
    .unwrap();
    assert!(matches!(error, AiMuxError::InvalidArgument(ref m) if m.contains("not unique")));
}

#[test]
fn patching_refuses_a_replacement_id_that_already_exists() {
    let call = invalid_call(BAD);
    let mut other = call.copy();
    other.tool_call_id = "call-2".into();
    let result = result_with(&[&call, &other]);

    let error = apply_tool_call_repair_to_result(
        &result,
        Some(&[weather_tool()]),
        "call-1",
        ToolCallRepairReply::Repaired {
            tool_call: RawToolCall {
                tool_call_id: "call-2".into(),
                ..raw("weather", r#"{"city":"Singapore"}"#)
            },
        },
    )
    .err()
    .unwrap();
    assert!(matches!(error, AiMuxError::InvalidArgument(ref m) if m.contains("already exists")));
}

#[test]
fn host_side_tool_call_repair_test_patching_a_primitive_input_is_not_replayed_into_the_transcript() {
    // A still-invalid call whose input is a bare string: `tool_calls` keeps it,
    // the replay transcript must not.
    let result = result_with(&[&invalid_call("not json at all")]);
    let patched = apply_tool_call_repair_to_result(
        &result,
        Some(&[weather_tool()]),
        "call-1",
        ToolCallRepairReply::Unchanged,
    )
    .ok()
    .unwrap();
    assert_json(at(&patched, &["tool_calls", "0", "input"]), r#""not json at all""#);
    assert_json(at(&patched, &["response_messages", "0", "content", "1", "input"]), "{}");
}

#[test]
fn a_patched_result_converts_to_a_chat_completion_that_reflects_the_repair() {
    // The OpenAI non-streaming path on a host: repair the native result, then
    // convert it. The provider's raw text in `raw.content` stays malformed;
    // the completion must take its arguments from the patched `tool_calls`.
    let patched = apply_tool_call_repair_to_result(
        &result_with(&[&invalid_call(BAD)]),
        Some(&[weather_tool()]),
        "call-1",
        repaired_weather(),
    )
    .ok()
    .unwrap();
    let call = get_call(at(&patched, &["tool_calls", "0"])).ok().unwrap();
    let finish = || FinishReason { unified: FinishReasonUnified::ToolCalls, raw: None };
    let result = GenerateTextResult {
        text: String::new(),
        tool_calls: vec![call],
        finish_reason: finish(),
        usage: Usage::unknown(),
        warnings: vec![],
        raw: GenerateResult {
            content: vec![GenerateContent::ToolCall(raw("weather", BAD))],
            finish_reason: finish(),
            usage: Usage::unknown(),
            warnings: vec![],
            provider_metadata: None,
            response: ResponseMetadata::unknown(),
            request_body: None,
            response_headers: None,
        },
        reasoning: vec![],
        reasoning_text: String::new(),
        sources: vec![],
        files: vec![],
        response_messages: vec![],
        raw_finish_reason: None,
        provider_metadata: None,
        response: ResponseMetadata::unknown(),
        total_usage: Usage::unknown(),
    };
    let completion = generate_text_result_to_chat_completion(&result, "fallback-model");

    assert_eq!(completion.model, "fallback-model");
    let calls = completion.choices[0].message.tool_calls.as_ref().unwrap();
    assert_eq!(calls.len(), 1);
    assert_eq!(calls[0].id, "call-1");
    assert_json(&json(&calls[0].function.arguments), r#"{"city":"Singapore"}"#);
}

#[test]
fn an_invalid_call_crosses_to_a_host_and_back() {
    for input in [BAD, "not json", r#"{"__proto__":1}"#] {
        let call = invalid_call(input);
        let text = print_json(&call_json(&call));
        let back = get_call(&json(&text)).ok().unwrap();
        assert!(call_json(&back).same(&call_json(&call)));
        assert_eq!(back.invalid, Some(true));
    }
}

#[test]
fn errors_of_every_kind_read_back() {
    let errors = [
        r#"{"Other":"x"}"#,
        r#"{"JsonParse":"x"}"#,
        r#"{"InvalidResponseData":"x"}"#,
        r#"{"InvalidArgument":"x"}"#,
        r#"{"InvalidPrompt":"x"}"#,
        r#"{"TokenExpired":"x"}"#,
        r#"{"UnsupportedFunctionality":"x"}"#,
        r#"{"Timeout":"x"}"#,
        r#"{"Aborted":"x"}"#,
        r#"{"NoSuchModel":{"model_id":"m","model_type":"t"}}"#,
        r#"{"NoSuchProvider":{"provider_id":"p"}}"#,
        r#"{"NoSuchTool":{"tool_name":"t","available_tools":["a","b"],"tool_input":"{}"}}"#,
        r#"{"NoSuchTool":{"tool_name":"t","available_tools":null,"tool_input":null}}"#,
        r#"{"InvalidToolInput":{"tool_name":"t","tool_input":"i","cause":"c"}}"#,
        r#"{"ToolCallRepair":{"original_error":{"Other":"a"},"cause":{"Timeout":"b"}}}"#,
        r#"{"Retry":{"reason":"errorNotRetryable","errors":[{"Other":"a"},{"Aborted":"b"}]}}"#,
        r#"{"ApiCall":{"message":"m","url":"u","request_body_values":{"a":1},"status_code":429,
            "response_headers":{"retry-after-ms":"5"},"response_body":"b","provider_code":null,
            "data":{"x":true},"is_retryable":true}}"#,
    ];
    for error in errors {
        let text = format!(
            r#"{{"tool_call_id":"c","tool_name":"t","input":{{}},"dynamic":true,"invalid":true,"error":{error}}}"#
        );
        let call = get_call(&json(&text)).ok().unwrap();
        assert!(call_json(&call).same(&json(&text)), "{error}");
    }
    let unknown = json(r#"{"tool_call_id":"c","tool_name":"t","input":{},"error":{"Strange":"x"}}"#);
    assert_eq!(get_call(&unknown).err().unwrap(), "expected one error variant");
}
