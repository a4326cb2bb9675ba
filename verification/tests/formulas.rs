use aimux::error::{AiMuxError, ApiCallError, RetryError, RetryErrorReason};
use aimux::generate::{generate_text_result, object_result};
use aimux::generate_options::{convert_to_language_model_prompt, GenerateTextOptions};
use aimux::json::Json;
use aimux::json_text::{check_schema, parse_json, print_json, SchemaOutcome};
use aimux::message::{ContentPart, MessageContent, ModelMessage, Role};
use aimux::openai_output::{generate_text_result_to_chat_completion, parsed_tool_call_arguments};
use aimux::options::CallOptions;
use aimux::parse_tool_call::{ToolCallRepair, ToolCallRepairContext};
use aimux::response_messages::response_tool_call_input;
use aimux::result::{GenerateContent, GenerateResult};
use aimux::result_wire::{completion_json, object_result_json, text_result_json};
use aimux::sampling::Real;
use aimux::text::{
    decimal_text, is_blank_text, read_decimal, shared_bytes, split_blocks, split_lines, strip_prefix, trim,
    without_nul,
};
use aimux::tool::{FunctionTool, RawToolCall, Tool};
use aimux::types::{FinishReason, FinishReasonUnified, ResponseMetadata, Usage};

type Callback = fn(ToolCallRepairContext) -> Result<Option<RawToolCall>, AiMuxError>;

fn json(text: &str) -> Json {
    parse_json(text).unwrap()
}

#[test]
fn documents_keep_their_order_and_their_numbers() {
    let text = r#"{"b":1,"a":[true,null,-2,1.5,"x\ny"],"c":{}}"#;
    assert_eq!(print_json(&json(text)), text);
    assert_eq!(print_json(&json("1e3")), "1000.0");
    assert_eq!(print_json(&json("18446744073709551615")), "18446744073709551615");
    assert_eq!(print_json(&json("-9223372036854775808")), "-9223372036854775808");
    assert_eq!(print_json(&json(r#"{"a":1,"a":2}"#)), r#"{"a":2}"#);
    assert_eq!(parse_json("").err().unwrap(), "EOF while parsing a value at line 1 column 0");
    assert_eq!(parse_json("{} x").err().unwrap(), "trailing characters at line 1 column 4");
}

#[test]
fn documents_are_compared_by_value() {
    assert!(json(r#"{"a":1,"b":2}"#).same(&json(r#"{"b":2,"a":1}"#)));
    assert!(!json("[1,2]").same(&json("[2,1]")));
    assert!(!json("1").same(&json("1.0")));
    assert!(json("0.0").same(&json("-0.0")));
    assert!(json("1.50").same(&json("15e-1")));
    assert!(json("[1,[2]]").copy().same(&json("[1,[2]]")));
}

#[test]
fn schemas_judge_inputs() {
    let schema = json(r#"{"type":"object","required":["a"]}"#);
    assert!(matches!(check_schema(&schema, &json(r#"{"a":1}"#)), SchemaOutcome::Valid));
    assert!(matches!(check_schema(&schema, &json("{}")), SchemaOutcome::Violation(ref m)
        if m == "\"a\" is a required property"));
    assert!(matches!(check_schema(&json(r#"{"type":5}"#), &json("{}")), SchemaOutcome::BadSchema(_)));
}

#[test]
fn reals_are_json_floats() {
    let one = Real::new(&serde_json::Number::from(1));
    assert_eq!(print_json(&one.json()), "1.0");
    let same = Real::new(&serde_json::Number::from_f64(1.0).unwrap());
    assert!(one.same(&same));
    assert!(one.copy().same(&one));
    assert!(!one.same(&Real::new(&serde_json::Number::from_f64(1.25).unwrap())));
}

#[test]
fn texts_are_cut() {
    assert_eq!(trim(" \t\u{a0}a b\r\n"), "a b");
    assert!(is_blank_text("\u{2003}\n"));
    assert!(!is_blank_text(" x "));
    assert_eq!(strip_prefix("data: x", "data:"), " x");
    assert_eq!(strip_prefix("date", "data:"), "date");
    assert_eq!(split_blocks("a\n\nb\n\n"), vec!["a", "b", ""]);
    assert_eq!(split_blocks(""), vec![""]);
    assert_eq!(split_lines("a\r\nb\n\nc"), vec!["a", "b", "", "c"]);
    assert_eq!(split_lines("a\n"), vec!["a"]);
    assert_eq!(decimal_text(0), "0");
    assert_eq!(decimal_text(u64::MAX), "18446744073709551615");
    assert_eq!(read_decimal("18446744073709551615"), Some(u64::MAX));
    assert_eq!(read_decimal("18446744073709551616"), None);
    assert_eq!(shared_bytes("h\u{e9}llo", "h\u{e8}llo"), 2);
    assert_eq!(without_nul("\0"), "\u{FFFD}");
}

#[test]
fn errors_speak() {
    let words = |error: AiMuxError| error.message();
    assert_eq!(words(AiMuxError::Other("x".into())), "x");
    assert_eq!(words(AiMuxError::aborted()), "request aborted");
    let retry = |reason, n: usize| {
        AiMuxError::Retry(RetryError {
            reason,
            errors: (0..n).map(|i| AiMuxError::Other(format!("e{i}"))).collect(),
        })
    };
    assert!(words(retry(RetryErrorReason::MaxRetriesExceeded, 3)).starts_with("Failed after 3 attempts"));
    assert!(words(retry(RetryErrorReason::ErrorNotRetryable, 2)).contains("non-retryable"));
}

#[test]
fn the_retry_hint_is_a_number_of_milliseconds() {
    let hint = |value: &str| {
        let mut detail = ApiCallError::new("x", "u", Json::Null);
        detail.response_headers = Some(vec![("other".into(), "9".into()), ("retry-after-ms".into(), value.into())]);
        AiMuxError::ApiCall(Box::new(detail)).retry_after_hint()
    };
    assert_eq!(hint("1500"), Some(1500));
    assert_eq!(hint("0"), Some(0));
    assert_eq!(hint("soon"), None);
    assert_eq!(AiMuxError::Other("x".into()).retry_after_hint(), None);
}

fn generated(content: Vec<GenerateContent>) -> GenerateResult {
    GenerateResult {
        content,
        finish_reason: FinishReason { unified: FinishReasonUnified::Stop, raw: Some("stop".into()) },
        usage: Usage::unknown(),
        warnings: vec![],
        provider_metadata: None,
        response: ResponseMetadata { id: Some("resp-1".into()), timestamp: None, model_id: Some("gpt".into()) },
        request_body: None,
        response_headers: None,
    }
}

fn text(text: &str) -> GenerateContent {
    GenerateContent::Text { text: text.into(), provider_metadata: None }
}

fn weather_call(input: &str) -> GenerateContent {
    GenerateContent::ToolCall(RawToolCall {
        tool_call_id: "c1".into(),
        tool_name: "weather".into(),
        input: input.into(),
        provider_executed: None,
        dynamic: None,
        thought_signature: None,
        provider_metadata: None,
    })
}

fn no_callback<'a>() -> Option<&'a ToolCallRepair<Callback>> {
    None
}

#[test]
fn a_generation_is_told_as_text_and_calls() {
    let tools = [Tool::Function(FunctionTool::new("weather", json(r#"{"type":"object"}"#)))];
    let content = vec![text("he"), weather_call(r#"{"city":"Oslo"}"#), text("llo"), weather_call("{")];
    let result = generate_text_result(generated(content), Some(&tools), no_callback(), &[], None);
    assert_eq!(result.text, "hello");
    assert_eq!(result.tool_calls.len(), 2);
    assert_eq!(result.tool_calls[0].invalid, None);
    assert_eq!(result.tool_calls[1].invalid, Some(true));
    assert_eq!(result.raw_finish_reason.as_deref(), Some("stop"));
    assert_eq!(result.response.id.as_deref(), Some("resp-1"));
    // The malformed input is not replayed into the next turn.
    let MessageContent::Parts(parts) = &result.response_messages[0].content else {
        panic!("expected parts");
    };
    let inputs: Vec<String> = parts
        .iter()
        .filter_map(|part| match part {
            ContentPart::ToolCall { input, .. } => Some(print_json(input)),
            _ => None,
        })
        .collect();
    assert_eq!(inputs, vec![r#"{"city":"Oslo"}"#, "{}"]);

    let doc = text_result_json(&result);
    assert_eq!(doc.get_str("text").unwrap(), "hello");
    assert!(doc.get("raw").unwrap().get("content").unwrap().as_array().unwrap().len() == 4);
}

#[test]
fn an_object_is_parsed_from_the_text() {
    let result = generate_text_result(generated(vec![text("{\"a\":1")]), None, no_callback(), &[], None);
    let object = object_result(result, r#"{"a":1}"#).ok().unwrap();
    assert_eq!(print_json(&object.object), r#"{"a":1}"#);
    assert_eq!(print_json(object_result_json(&object).get("object").unwrap()), r#"{"a":1}"#);
    let bad = generate_text_result(generated(vec![text("no")]), None, no_callback(), &[], None);
    assert!(matches!(object_result(bad, "no"), Err(AiMuxError::JsonParse(_))));
}

#[test]
fn a_completion_takes_the_model_that_answered() {
    let result = generate_text_result(generated(vec![text("hi")]), None, no_callback(), &[], None);
    let completion = generate_text_result_to_chat_completion(&result, "fallback");
    assert_eq!(completion.model, "gpt");
    assert_eq!(completion.choices[0].message.content.as_deref(), Some("hi"));
    assert!(completion.choices[0].message.tool_calls.is_none());
    let doc = completion_json(&completion);
    assert_eq!(doc.get_str("id").unwrap(), "resp-1");
}

#[test]
fn replayed_inputs_are_structured() {
    assert_eq!(print_json(&response_tool_call_input(&json(r#"{"a":1}"#), Some(true))), r#"{"a":1}"#);
    assert_eq!(print_json(&response_tool_call_input(&json(r#""text""#), Some(true))), "{}");
    assert_eq!(print_json(&response_tool_call_input(&json(r#""text""#), None)), r#""text""#);
    assert_eq!(parsed_tool_call_arguments(&json(r#"{"a":1}"#), None, None), r#"{"a":1}"#);
    let carried = AiMuxError::InvalidToolInput {
        tool_name: "t".into(),
        tool_input: "{ bad".into(),
        cause: "c".into(),
    };
    assert_eq!(parsed_tool_call_arguments(&json(r#""{ bad""#), Some(true), Some(&carried)), "{ bad");
}

#[test]
fn instructions_lead_the_prompt() {
    let prompt = convert_to_language_model_prompt(&[ModelMessage::user("hi")], Some("be terse"));
    assert_eq!(prompt.len(), 2);
    assert!(matches!(prompt[0].role, Role::System));
    assert!(matches!(&prompt[0].content[0], ContentPart::Text { text, .. } if text == "be terse"));
    assert!(matches!(&prompt[1].content[0], ContentPart::Text { text, .. } if text == "hi"));
    assert_eq!(convert_to_language_model_prompt(&[ModelMessage::user("hi")], None).len(), 1);
}

#[test]
fn options_reach_the_provider() {
    let options = GenerateTextOptions {
        max_output_tokens: Some(7),
        seed: Some(3),
        session_id: Some("s".into()),
        ..Default::default()
    };
    let call = options.into_call_options(vec![]);
    assert_eq!(call.max_output_tokens, Some(7));
    assert_eq!(call.seed, Some(3));
    assert_eq!(call.session_id.as_deref(), Some("s"));
    assert!(call.tool_choice.is_auto());
    let step = CallOptions::new(vec![]).for_step("first");
    assert!(step.recording_context.is_none());
}
