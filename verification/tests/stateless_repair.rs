use aimux::error::AiMuxError;
use aimux::generate_options::{tool_call_repair_inputs, GenerateTextOptions};
use aimux::json::Json;
use aimux::json_text::{parse_json, SchemaOutcome};
use aimux::message::{ModelMessage, ModelPrompt};
use aimux::parse_tool_call::{
    apply_tool_call_repair, parse_tool_call, schema_failure, tool_call_repair_context, ToolCallRepair,
    ToolCallRepairContext, ToolCallRepairReply,
};
use aimux::repair_result::apply_tool_call_repair_to_result;
use aimux::tool::{FunctionTool, RawToolCall, Tool, ToolCall};
use aimux::wire::{call_json, raw_call_json};

type Callback = fn(ToolCallRepairContext) -> Result<Option<RawToolCall>, AiMuxError>;

const BAD: &str = r#"{"town":"Singapore"}"#;

fn json(text: &str) -> Json {
    parse_json(text).unwrap()
}

fn at<'a>(doc: &'a Json, path: &[&str]) -> &'a Json {
    let mut here = doc;
    for step in path {
        here = match step.parse::<usize>() {
            Ok(index) => here.get_item(index).unwrap(),
            Err(_) => here.get(step).unwrap(),
        };
    }
    here
}

fn assert_json(doc: &Json, expected: &str) {
    assert!(doc.same(&json(expected)), "{}", aimux::json_text::print_json(doc));
}

fn weather_tool() -> Tool {
    Tool::Function(FunctionTool::new(
        "weather",
        json(r#"{"type":"object","properties":{"city":{"type":"string"}},"required":["city"]}"#),
    ))
}

fn raw(name: &str, input: &str) -> RawToolCall {
    RawToolCall {
        tool_call_id: "call-1".into(),
        tool_name: name.into(),
        input: input.into(),
        provider_executed: None,
        dynamic: None,
        thought_signature: None,
        provider_metadata: None,
    }
}

fn parse(call: RawToolCall, tools: Option<&[Tool]>) -> ToolCall {
    parse_tool_call::<Callback>(call, tools, None, &[], None)
}

fn invalid_call(input: &str) -> ToolCall {
    let call = parse(raw("weather", input), Some(&[weather_tool()]));
    assert_eq!(call.invalid, Some(true));
    call
}

fn via_closure(input: &str, outcome: Result<Option<RawToolCall>, AiMuxError>) -> ToolCall {
    let repair = ToolCallRepair::new(move |_: ToolCallRepairContext| match &outcome {
        Ok(Some(call)) => Ok(Some(call.copy())),
        Ok(None) => Ok(None),
        Err(error) => Err(error.copy()),
    });
    parse_tool_call(raw("weather", input), Some(&[weather_tool()]), Some(&repair), &[], None)
}

#[test]
fn repaired_reply_revalidates_and_yields_a_valid_call() {
    let call = apply_tool_call_repair(
        &invalid_call(BAD),
        Some(&[weather_tool()]),
        ToolCallRepairReply::Repaired { tool_call: raw("weather", r#"{"city":"Singapore"}"#) },
    )
    .ok()
    .unwrap();
    assert_eq!(call.invalid, None);
    assert!(call.error.is_none());
    assert_json(&call.input, r#"{"city": "Singapore"}"#);
}

#[test]
fn repaired_reply_that_still_fails_nests_both_errors() {
    let call = apply_tool_call_repair(
        &invalid_call(BAD),
        Some(&[weather_tool()]),
        ToolCallRepairReply::Repaired { tool_call: raw("weather", r#"{"city":42}"#) },
    )
    .ok()
    .unwrap();
    let Some(AiMuxError::ToolCallRepair { original_error, cause }) = call.error else {
        panic!("expected ToolCallRepair");
    };
    assert!(matches!(*original_error, AiMuxError::InvalidToolInput { .. }));
    assert!(matches!(*cause, AiMuxError::InvalidToolInput { .. }));
}

#[test]
fn unchanged_reply_keeps_the_original_error() {
    let original = invalid_call(BAD);
    let call = apply_tool_call_repair(&original, Some(&[weather_tool()]), ToolCallRepairReply::Unchanged)
        .ok()
        .unwrap();
    assert!(call_json(&call).same(&call_json(&original)));
}

#[test]
fn failed_reply_reports_the_host_message_as_the_cause() {
    let call = apply_tool_call_repair(
        &invalid_call(BAD),
        Some(&[weather_tool()]),
        ToolCallRepairReply::Failed { message: "LLM call failed".into() },
    )
    .ok()
    .unwrap();
    let Some(AiMuxError::ToolCallRepair { cause, .. }) = call.error else {
        panic!("expected ToolCallRepair");
    };
    assert!(matches!(*cause, AiMuxError::Other(ref m) if m == "LLM call failed"));
}

#[test]
fn a_valid_tool_call_is_rejected() {
    let valid = parse(raw("weather", r#"{"city":"Singapore"}"#), Some(&[weather_tool()]));
    let error = apply_tool_call_repair(&valid, Some(&[weather_tool()]), ToolCallRepairReply::Unchanged)
        .err()
        .unwrap();
    assert!(matches!(error, AiMuxError::InvalidArgument(ref m)
        if m == "tool call 'call-1' is not invalid; nothing to repair"));
}

#[test]
fn stateless_tool_call_repair_test_both_paths_agree_on_every_branch() {
    let repaired = raw("weather", r#"{"city":"Singapore"}"#);
    let still_bad = raw("weather", r#"{"city":42}"#);
    let cases: Vec<(Result<Option<RawToolCall>, AiMuxError>, ToolCallRepairReply)> = vec![
        (Ok(Some(repaired.copy())), ToolCallRepairReply::Repaired { tool_call: repaired }),
        (Ok(Some(still_bad.copy())), ToolCallRepairReply::Repaired { tool_call: still_bad }),
        (Ok(None), ToolCallRepairReply::Unchanged),
        (
            Err(AiMuxError::Other("boom".into())),
            ToolCallRepairReply::Failed { message: "boom".into() },
        ),
    ];

    for (outcome, reply) in cases {
        let from_closure = via_closure(BAD, outcome);
        let from_data = apply_tool_call_repair(&invalid_call(BAD), Some(&[weather_tool()]), reply)
            .ok()
            .unwrap();
        assert!(call_json(&from_closure).same(&call_json(&from_data)));
    }
}

#[test]
fn context_carries_the_raw_text_error_and_schema() {
    let messages = vec![ModelMessage::user("weather in Singapore?")];
    let context =
        tool_call_repair_context(&invalid_call(BAD), Some(&[weather_tool()]), &messages, Some("be helpful"))
            .ok()
            .unwrap()
            .expect("a tool set was supplied");

    assert_eq!(at(&context, &["tool_call", "input"]).as_str().unwrap(), BAD);
    assert_eq!(at(&context, &["tool_call", "tool_name"]).as_str().unwrap(), "weather");
    assert_json(at(&context, &["input_schema", "required"]), r#"["city"]"#);
    assert_eq!(at(&context, &["instructions"]).as_str().unwrap(), "be helpful");
    assert_eq!(at(&context, &["tools"]).as_array().unwrap().len(), 1);
    assert_eq!(at(&context, &["messages"]).as_array().unwrap().len(), 1);
    assert!(matches!(at(&context, &["error", "InvalidToolInput"]), Json::Object(_)));
}

#[test]
fn stateless_tool_call_repair_test_context_of_an_unknown_tool_falls_back_to_an_empty_schema() {
    let unknown = parse(raw("wether", r#"{"city":"Singapore"}"#), Some(&[weather_tool()]));
    let context = tool_call_repair_context(&unknown, Some(&[weather_tool()]), &[], None)
        .ok()
        .unwrap()
        .expect("a tool set was supplied");
    assert_json(at(&context, &["input_schema", "properties"]), "{}");
    assert!(matches!(at(&context, &["error", "NoSuchTool"]), Json::Object(_)));
}

fn result_with(call: &ToolCall) -> Json {
    let call_text = aimux::json_text::print_json(&call_json(call));
    let input = aimux::json_text::print_json(&call.input);
    json(&format!(
        r#"{{"tool_calls":[{call_text}],"response_messages":[{{"role":"assistant","content":[
            {{"type":"text","text":"checking"}},
            {{"type":"tool_call","tool_call_id":"{}","tool_name":"{}","input":{input}}}]}}]}}"#,
        call.tool_call_id, call.tool_name,
    ))
}

fn repaired_weather() -> ToolCallRepairReply {
    ToolCallRepairReply::Repaired { tool_call: raw("weather", r#"{"city":"Singapore"}"#) }
}

#[test]
fn patching_updates_tool_calls_and_response_messages() {
    let result = result_with(&invalid_call(BAD));
    let patched = apply_tool_call_repair_to_result(&result, Some(&[weather_tool()]), "call-1", repaired_weather())
        .ok()
        .unwrap();

    assert_json(at(&patched, &["tool_calls", "0", "input"]), r#"{"city":"Singapore"}"#);
    assert!(at(&patched, &["tool_calls", "0"]).get("invalid").is_none());
    let part = at(&patched, &["response_messages", "0", "content", "1"]);
    assert_json(at(part, &["input"]), r#"{"city":"Singapore"}"#);
    assert_json(at(part, &["tool_name"]), r#""weather""#);
    // Unrelated parts and fields survive untouched.
    assert_json(at(&patched, &["response_messages", "0", "content", "0", "text"]), r#""checking""#);
}

#[test]
fn stateless_tool_call_repair_test_patching_a_generate_object_result_reaches_into_raw() {
    let raw_result = aimux::json_text::print_json(&result_with(&invalid_call(BAD)));
    let result = json(&format!(r#"{{"object":{{"ok":true}},"raw":{raw_result}}}"#));
    let patched = apply_tool_call_repair_to_result(&result, Some(&[weather_tool()]), "call-1", repaired_weather())
        .ok()
        .unwrap();
    assert_json(at(&patched, &["object"]), r#"{"ok": true}"#);
    assert_json(at(&patched, &["raw", "tool_calls", "0", "input"]), r#"{"city":"Singapore"}"#);
}

#[test]
fn stateless_tool_call_repair_test_patching_a_primitive_input_is_not_replayed_into_the_transcript() {
    // A still-invalid call whose input is a bare string: `tool_calls` keeps it,
    // the replay transcript must not.
    let result = result_with(&invalid_call("not json at all"));
    let patched = apply_tool_call_repair_to_result(
        &result,
        Some(&[weather_tool()]),
        "call-1",
        ToolCallRepairReply::Unchanged,
    )
    .ok()
    .unwrap();
    assert_json(at(&patched, &["tool_calls", "0", "input"]), r#""not json at all""#);
    assert_json(at(&patched, &["response_messages", "0", "content", "1", "input"]), "{}");
}

#[test]
fn patching_follows_a_repair_that_changes_the_call_id() {
    let result = result_with(&invalid_call(BAD));
    let patched = apply_tool_call_repair_to_result(
        &result,
        Some(&[weather_tool()]),
        "call-1",
        ToolCallRepairReply::Repaired {
            tool_call: RawToolCall {
                tool_call_id: "call-2".into(),
                ..raw("weather", r#"{"city":"Singapore"}"#)
            },
        },
    )
    .ok()
    .unwrap();

    assert_json(at(&patched, &["tool_calls", "0", "tool_call_id"]), r#""call-2""#);
    // The transcript part must follow, or the replayed message points at a
    // call id that is no longer in `tool_calls`.
    let part = at(&patched, &["response_messages", "0", "content", "1"]);
    assert_json(at(part, &["tool_call_id"]), r#""call-2""#);
    assert_json(at(part, &["input"]), r#"{"city":"Singapore"}"#);
}

#[test]
fn patching_an_unknown_id_is_an_error() {
    let result = result_with(&invalid_call(BAD));
    let error = apply_tool_call_repair_to_result(
        &result,
        Some(&[weather_tool()]),
        "call-9",
        ToolCallRepairReply::Unchanged,
    )
    .err()
    .unwrap();
    assert!(matches!(error, AiMuxError::InvalidArgument(ref m) if m == "result: no tool call 'call-9'"));
}

#[test]
fn a_call_made_without_tools_has_no_repair_context() {
    assert!(tool_call_repair_context(&invalid_call(BAD), None, &[], None).ok().unwrap().is_none());
}

#[test]
fn applying_a_reply_without_tools_is_an_error() {
    let error = apply_tool_call_repair(&invalid_call(BAD), None, ToolCallRepairReply::Unchanged).err().unwrap();
    assert!(matches!(error, AiMuxError::InvalidArgument(_)));
}

#[test]
fn repair_inputs_come_from_the_prompt_and_options_the_call_used() {
    let options = GenerateTextOptions {
        tools: Some(vec![weather_tool()]),
        instructions: Some("be terse".into()),
        ..Default::default()
    };
    let (messages, instructions, tools) = tool_call_repair_inputs(ModelPrompt::Text("weather?".into()), &options);
    assert_eq!(messages.len(), 1);
    assert_eq!(instructions, Some("be terse"));
    assert_eq!(tools.map(<[Tool]>::len), Some(1));

    // A messages prompt passes through; options with no tools answer `None`.
    let defaults = GenerateTextOptions::default();
    let (messages, _, tools) = tool_call_repair_inputs(
        ModelPrompt::Messages(vec![ModelMessage::user("a"), ModelMessage::user("b")]),
        &defaults,
    );
    assert_eq!(messages.len(), 2);
    assert!(tools.is_none());
}

// What parsing itself does.

#[test]
fn a_valid_call_is_parsed_against_its_schema() {
    let call = parse(raw("weather", r#"{"city":"Oslo"}"#), Some(&[weather_tool()]));
    assert_eq!(call.invalid, None);
    assert_eq!(call.dynamic, None);
    assert_json(&call.input, r#"{"city":"Oslo"}"#);
}

#[test]
fn a_schema_violation_is_told_with_the_value_and_the_reason() {
    let call = invalid_call(r#"{"city":42}"#);
    let Some(AiMuxError::InvalidToolInput { tool_name, tool_input, cause }) = call.error else {
        panic!("expected InvalidToolInput");
    };
    assert_eq!(tool_name, "weather");
    assert_eq!(tool_input, r#"{"city":42}"#);
    assert_eq!(
        cause,
        "Type validation failed: Value: {\"city\":42}.\nError message: 42 is not of type \"string\""
    );
}

#[test]
fn a_bad_schema_is_told() {
    let tool = Tool::Function(FunctionTool::new("odd", json(r#"{"type":12}"#)));
    let call = parse(raw("odd", "{}"), Some(&[tool]));
    let Some(AiMuxError::InvalidToolInput { cause, .. }) = call.error else {
        panic!("expected InvalidToolInput");
    };
    assert!(cause.starts_with("input schema is invalid: "), "{cause}");
}

#[test]
fn a_host_is_shown_the_whole_call() {
    let call = || raw("weather", "{}");
    let others = [
        RawToolCall { tool_call_id: "call-2".into(), ..call() },
        RawToolCall { input: "{ }".into(), ..call() },
        RawToolCall { provider_executed: Some(false), ..call() },
        RawToolCall { dynamic: Some(true), ..call() },
        RawToolCall { thought_signature: Some("s".into()), ..call() },
        RawToolCall { provider_metadata: Some(Json::Null), ..call() },
    ];
    for other in &others {
        assert!(!raw_call_json(other).same(&raw_call_json(&call())));
    }
    let failed = raw("weather", BAD);
    let shown = tool_call_repair_context(&invalid_call(BAD), Some(&[weather_tool()]), &[], None).ok().unwrap().unwrap();
    let told = RawToolCall { dynamic: Some(true), ..failed };
    assert!(shown.get("tool_call").unwrap().same(&raw_call_json(&told)));
}

#[test]
fn what_a_schema_says_is_the_cause() {
    let call = raw("odd", "{}");
    let cause = |outcome: SchemaOutcome| match schema_failure(&call, &json("{}"), outcome) {
        Some(AiMuxError::InvalidToolInput { tool_name, tool_input, cause }) => {
            assert_eq!((tool_name.as_str(), tool_input.as_str()), ("odd", "{}"));
            Some(cause)
        }
        Some(_) => panic!("expected InvalidToolInput"),
        None => None,
    };
    assert_eq!(cause(SchemaOutcome::BadSchema("no such".into())).unwrap(), "input schema is invalid: no such");
    assert_eq!(
        cause(SchemaOutcome::Violation("missing".into())).unwrap(),
        "Type validation failed: Value: {}.\nError message: missing"
    );
    assert!(cause(SchemaOutcome::Valid).is_none());
}

#[test]
fn malformed_arguments_keep_the_text_and_the_reason() {
    let call = invalid_call(r#"{"city":"#);
    assert_json(&call.input, r#""{\"city\":""#);
    let Some(AiMuxError::InvalidToolInput { cause, .. }) = call.error else {
        panic!("expected InvalidToolInput");
    };
    assert_eq!(
        cause,
        "JSON parsing failed: Text: {\"city\":.\nError message: EOF while parsing a value at line 1 column 8"
    );
}

#[test]
fn blank_arguments_are_an_empty_object() {
    let tool = Tool::Function(FunctionTool::new("now", json(r#"{"type":"object"}"#)));
    let call = parse(raw("now", "  \n"), Some(&[tool]));
    assert_eq!(call.invalid, None);
    assert_json(&call.input, "{}");
}

#[test]
fn prototype_properties_are_refused_at_any_depth() {
    let tool = || Tool::Function(FunctionTool::new("any", json("true")));
    for text in [
        r#"{"__proto__":{}}"#,
        r#"{"a":[{"constructor":{"prototype":1}}]}"#,
        r#"[[{"__proto__":null}]]"#,
    ] {
        let call = parse(raw("any", text), Some(&[tool()]));
        let Some(AiMuxError::InvalidToolInput { cause, .. }) = call.error else {
            panic!("expected InvalidToolInput for {text}");
        };
        assert!(cause.ends_with("Object contains forbidden prototype property"), "{cause}");
    }
    let fine = parse(raw("any", r#"{"constructor":"x","prototype":1}"#), Some(&[tool()]));
    assert_eq!(fine.invalid, None);
}

#[test]
fn an_unknown_tool_lists_the_tools_and_keeps_the_input() {
    let call = parse(raw("wether", r#"{"city":"Oslo"}"#), Some(&[weather_tool()]));
    assert_json(&call.input, r#"{"city":"Oslo"}"#);
    assert_eq!(call.dynamic, Some(true));
    let Some(AiMuxError::NoSuchTool { tool_name, available_tools, tool_input }) = call.error else {
        panic!("expected NoSuchTool");
    };
    assert_eq!(tool_name, "wether");
    assert_eq!(available_tools, Some(vec!["weather".to_string()]));
    assert_eq!(tool_input.as_deref(), Some(r#"{"city":"Oslo"}"#));
}

#[test]
fn a_dynamic_provider_call_needs_no_tool() {
    let dynamic = || RawToolCall {
        provider_executed: Some(true),
        dynamic: Some(true),
        ..raw("search", r#"{"q":"rust"}"#)
    };
    for tools in [None, Some(vec![weather_tool()])] {
        let call = parse(dynamic(), tools.as_deref());
        assert_eq!(call.invalid, None);
        assert_eq!(call.dynamic, Some(true));
        assert_json(&call.input, r#"{"q":"rust"}"#);
    }
    let lone = parse(raw("search", "{}"), None);
    assert!(matches!(lone.error, Some(AiMuxError::NoSuchTool { available_tools: None, .. })));
}

#[test]
fn a_callback_is_asked_with_the_failed_call() {
    let repair = ToolCallRepair::new(|context: ToolCallRepairContext| {
        assert_eq!(context.tool_call.input, BAD);
        assert_eq!(context.instructions.as_deref(), Some("be terse"));
        assert_eq!(context.system.as_deref(), Some("be terse"));
        assert!(matches!(context.error, AiMuxError::InvalidToolInput { .. }));
        assert_json(
            &context.input_schema("nothing"),
            r#"{"type":"object","properties":{},"additionalProperties":false}"#,
        );
        Ok(Some(raw("weather", r#"{"city":"Rome"}"#)))
    });
    let call =
        parse_tool_call(raw("weather", BAD), Some(&[weather_tool()]), Some(&repair), &[], Some("be terse"));
    assert_eq!(call.invalid, None);
    assert_json(&call.input, r#"{"city":"Rome"}"#);
}

#[test]
fn a_failed_repair_can_be_repaired_again() {
    let failed = apply_tool_call_repair(
        &invalid_call(BAD),
        Some(&[weather_tool()]),
        ToolCallRepairReply::Failed { message: "boom".into() },
    )
    .ok()
    .unwrap();
    let context = tool_call_repair_context(&failed, Some(&[weather_tool()]), &[], None).ok().unwrap().unwrap();
    assert_eq!(at(&context, &["tool_call", "input"]).as_str().unwrap(), BAD);
    let call = apply_tool_call_repair(&failed, Some(&[weather_tool()]), repaired_weather()).ok().unwrap();
    assert_eq!(call.invalid, None);
}

#[test]
fn an_invalid_call_without_an_error_cannot_be_repaired() {
    let mut call = invalid_call(BAD);
    call.error = None;
    let error = apply_tool_call_repair(&call, Some(&[weather_tool()]), repaired_weather()).err().unwrap();
    assert!(matches!(error, AiMuxError::InvalidArgument(ref m) if m == "invalid tool call 'call-1' carries no error"));
}

#[test]
fn results_without_calls_are_refused() {
    for text in ["{}", r#"{"tool_calls":7}"#, r#"{"raw":{}}"#, "[]"] {
        let error = apply_tool_call_repair_to_result(
            &json(text),
            Some(&[weather_tool()]),
            "call-1",
            ToolCallRepairReply::Unchanged,
        )
        .err()
        .unwrap();
        assert!(matches!(error, AiMuxError::InvalidArgument(ref m) if m == "result: no tool_calls array"));
    }
    let unreadable = apply_tool_call_repair_to_result(
        &json(r#"{"tool_calls":[{"tool_call_id":"call-1"}]}"#),
        Some(&[weather_tool()]),
        "call-1",
        ToolCallRepairReply::Unchanged,
    )
    .err()
    .unwrap();
    assert!(matches!(unreadable, AiMuxError::InvalidArgument(ref m)
        if m == "result.tool_calls: missing field `tool_name`"));
}
