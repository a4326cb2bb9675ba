use aimux::driver::{chunk_event, consumed_event, generated_event, item_event};
use aimux::error::{AiMuxError, ApiCallError};
use aimux::generate::GenerateTextResult;
use aimux::generate_options::GenerateTextOptions;
use aimux::generation::{GenerationStep, StreamGeneration, StreamStep, TextGeneration};
use aimux::generation_control::GenerationControl;
use aimux::json::{Json, JsonObject};
use aimux::json_text::parse_json;
use aimux::message::{ModelMessage, ModelPrompt, Role};
use aimux::operation::{Operation, ReadStep, SendStep};
use aimux::options::{AbortSignal, TimeoutConfiguration};
use aimux::parse_tool_call::ToolCallRepairContext;
use aimux::protocol::{Event, Lane, Mode, Next};
use aimux::result::{GenerateContent, GenerateResult};
use aimux::stream_part::StreamPart;
use aimux::stream_pump::{Arrival, PumpStep};
use aimux::stream_text::StreamTextResult;
use aimux::tool::{FunctionTool, RawToolCall, Tool, ToolCall};
use aimux::types::{FinishReason, FinishReasonUnified, ResponseMetadata, Usage};

fn json(text: &str) -> Json {
    parse_json(text).unwrap()
}

fn weather_tool() -> Tool {
    Tool::Function(FunctionTool::new(
        "weather",
        json(r#"{"type":"object","properties":{"city":{"type":"string"}},"required":["city"]}"#),
    ))
}

fn raw(id: &str, input: &str) -> RawToolCall {
    RawToolCall {
        tool_call_id: id.into(),
        tool_name: "weather".into(),
        input: input.into(),
        provider_executed: None,
        dynamic: None,
        thought_signature: None,
        provider_metadata: None,
    }
}

fn text(text: &str) -> GenerateContent {
    GenerateContent::Text { text: text.into(), provider_metadata: None }
}

fn call(id: &str, input: &str) -> GenerateContent {
    GenerateContent::ToolCall(raw(id, input))
}

fn answer(content: Vec<GenerateContent>) -> GenerateResult {
    GenerateResult {
        content,
        finish_reason: FinishReason { unified: FinishReasonUnified::Stop, raw: Some("stop".into()) },
        usage: Usage::unknown(),
        warnings: vec![],
        provider_metadata: None,
        response: ResponseMetadata::unknown(),
        request_body: None,
        response_headers: None,
    }
}

fn options() -> GenerateTextOptions {
    GenerateTextOptions {
        tools: Some(vec![weather_tool()]),
        instructions: Some("Be brief.".into()),
        max_retries: Some(2),
        abort_signal: Some(AbortSignal { id: 7 }),
        ..Default::default()
    }
}

fn within(timeout: TimeoutConfiguration) -> GenerateTextOptions {
    GenerateTextOptions { timeout: Some(timeout), ..options() }
}

fn generation(options: GenerateTextOptions, repairs: bool) -> TextGeneration {
    TextGeneration::start(ModelPrompt::Text("hello".into()), options, repairs, 2, 0).ok().unwrap().0
}

fn stream(options: GenerateTextOptions, repairs: bool) -> StreamGeneration {
    StreamGeneration::start(ModelPrompt::Text("hello".into()), options, repairs, 2, 0).ok().unwrap().0
}

fn api_error(status: u16, retryable: bool) -> AiMuxError {
    let mut detail =
        ApiCallError::new("setup failed", "https://example.test/text", Json::Object(JsonObject::new()));
    detail.status_code = Some(status);
    detail.is_retryable = retryable;
    AiMuxError::ApiCall(Box::new(detail))
}

fn done(step: GenerationStep) -> GenerateTextResult {
    match step {
        GenerationStep::Done(result) => result,
        _ => panic!("expected a result"),
    }
}

fn asked(step: GenerationStep) -> ToolCallRepairContext {
    match step {
        GenerationStep::Ask(context) => context,
        _ => panic!("expected a repair to be asked for"),
    }
}

fn streamed_call(input: Json) -> StreamPart {
    StreamPart::ToolCall(ToolCall {
        tool_call_id: "call-1".into(),
        tool_name: "weather".into(),
        input,
        provider_executed: None,
        dynamic: None,
        thought_signature: None,
        invalid: None,
        error: None,
        provider_metadata: None,
    })
}

fn delta(text: &str) -> StreamPart {
    StreamPart::TextDelta { id: "text-1".into(), delta: text.into(), provider_metadata: None }
}

fn finish() -> StreamPart {
    StreamPart::Finish {
        finish_reason: FinishReason { unified: FinishReasonUnified::Stop, raw: Some("stop".into()) },
        usage: Usage::unknown(),
        provider_metadata: None,
    }
}

#[test]
fn the_provider_is_asked_with_the_instructions_first() {
    let (_, asked) = TextGeneration::start(ModelPrompt::Text("hello".into()), options(), false, 2, 0).ok().unwrap();
    assert_eq!(asked.prompt.len(), 2);
    assert!(matches!(asked.prompt[0].role, Role::System));
    assert!(matches!(asked.prompt[1].role, Role::User));
    assert_eq!(asked.tools.unwrap().len(), 1);
}

#[test]
fn a_time_limit_that_the_clock_cannot_hold_is_refused() {
    let options = within(TimeoutConfiguration { total_ms: Some(u64::MAX), ..TimeoutConfiguration::none() });
    let error = TextGeneration::start(ModelPrompt::Text("hello".into()), options, false, 2, 1).err().unwrap();
    assert!(matches!(error, AiMuxError::InvalidArgument(m)
        if m == "Total timeout of 18446744073709551615ms is out of range"));
}

#[test]
fn an_answer_without_calls_is_the_result() {
    let mut g = generation(options(), true);
    let result = done(g.answered(Ok(answer(vec![text("a"), text("b")])), false, 0));
    assert_eq!(result.text, "ab");
    assert!(result.tool_calls.is_empty());
    assert_eq!(result.response_messages.len(), 1);
    assert!(matches!(g.tick(false, 0), GenerationStep::Stopped));
}

#[test]
fn a_failed_attempt_is_made_again_until_the_retries_are_spent() {
    let mut g = generation(options(), true);
    assert!(matches!(g.answered(Err(api_error(500, true)), false, 0), GenerationStep::Call));
    assert!(matches!(g.answered(Err(api_error(500, true)), false, 0), GenerationStep::Call));
    match g.answered(Err(api_error(503, true)), false, 0) {
        GenerationStep::Failed(AiMuxError::Retry(retry)) => assert_eq!(retry.errors.len(), 3),
        _ => panic!("expected the retries to be spent"),
    }
    assert!(matches!(g.answered(Ok(answer(vec![])), false, 0), GenerationStep::Stopped));
}

#[test]
fn an_error_that_cannot_be_retried_ends_a_generation() {
    let mut g = generation(options(), true);
    assert!(matches!(g.answered(Err(api_error(400, false)), false, 0),
        GenerationStep::Failed(AiMuxError::ApiCall(detail)) if detail.status_code == Some(400)));
}

#[test]
fn the_default_bounds_the_retries_where_the_options_do_not() {
    let unsaid = GenerateTextOptions { max_retries: None, ..options() };
    let mut g = TextGeneration::start(ModelPrompt::Messages(vec![ModelMessage::user("hello")]), unsaid, true, 0, 0)
        .ok()
        .unwrap()
        .0;
    assert!(matches!(g.answered(Err(api_error(500, true)), false, 0), GenerationStep::Failed(AiMuxError::ApiCall(_))));
}

#[test]
fn without_repairs_a_bad_call_is_invalid() {
    let mut g = generation(options(), false);
    let result = done(g.answered(Ok(answer(vec![call("call-1", r#"{"town":"x"}"#)])), false, 0));
    assert_eq!(result.tool_calls[0].invalid, Some(true));
    assert!(matches!(result.tool_calls[0].error, Some(AiMuxError::InvalidToolInput { .. })));
}

#[test]
fn bad_calls_are_asked_for_one_by_one() {
    let mut g = generation(options(), true);
    let content = vec![
        call("call-1", r#"{"town":"a"}"#),
        text("between"),
        call("call-2", r#"{"city":"b"}"#),
        call("call-3", "not json"),
    ];
    let first = asked(g.answered(Ok(answer(content)), false, 0));
    assert_eq!(first.tool_call.tool_call_id, "call-1");
    assert_eq!(first.instructions.as_deref(), Some("Be brief."));
    assert_eq!(first.messages.len(), 1);
    assert!(matches!(g.tick(false, 0), GenerationStep::Wait));
    assert!(matches!(g.answered(Ok(answer(vec![])), false, 0), GenerationStep::Wait));
    let second = asked(g.repaired(Ok(Some(raw("call-1", r#"{"city":"a"}"#))), false, 0));
    assert_eq!(second.tool_call.tool_call_id, "call-3");
    let result = done(g.repaired(Ok(None), false, 0));
    assert_eq!(result.tool_calls.len(), 3);
    assert_eq!(result.tool_calls[0].invalid, None);
    assert!(result.tool_calls[0].input.same(&json(r#"{"city":"a"}"#)));
    assert_eq!(result.tool_calls[1].invalid, None);
    assert_eq!(result.tool_calls[2].invalid, Some(true));
    assert_eq!(result.text, "between");
}

#[test]
fn a_failed_repair_is_reported_with_the_call() {
    let mut g = generation(options(), true);
    asked(g.answered(Ok(answer(vec![call("call-1", "{")])), false, 0));
    let result = done(g.repaired(Err(AiMuxError::Other("no idea".into())), false, 0));
    assert!(matches!(&result.tool_calls[0].error, Some(AiMuxError::ToolCallRepair { .. })));
}

#[test]
fn the_deadline_bounds_calls_and_repairs() {
    let limit = TimeoutConfiguration { total_ms: Some(50), ..TimeoutConfiguration::none() };
    let mut waiting = generation(within(limit), true);
    assert!(matches!(waiting.tick(false, 49), GenerationStep::Wait));
    assert!(matches!(waiting.tick(false, 50), GenerationStep::Failed(AiMuxError::Timeout(m))
        if m == "Total timeout of 50ms exceeded"));
    let mut repairing = generation(within(limit), true);
    asked(repairing.answered(Ok(answer(vec![call("call-1", "{")])), false, 10));
    assert!(matches!(repairing.repaired(Ok(None), false, 60), GenerationStep::Failed(AiMuxError::Timeout(_))));
    assert!(matches!(repairing.repaired(Ok(None), false, 60), GenerationStep::Stopped));
}

#[test]
fn a_cancelled_generation_has_no_result() {
    let signal = Some(AbortSignal { id: 7 });
    let timeout = TimeoutConfiguration { total_ms: Some(5), ..TimeoutConfiguration::none() };
    let control = GenerationControl::new(timeout, signal, 0).ok().unwrap();
    let copy = control.copy();
    let driven = GenerateTextOptions { operation_control: Some(control), ..options() };
    let mut g = generation(driven, true);
    assert!(matches!(g.tick(false, 4), GenerationStep::Wait));
    let mut aborted = false;
    copy.cancel(&mut aborted);
    assert!(aborted);
    assert!(matches!(g.answered(Ok(answer(vec![text("late")])), aborted, 9), GenerationStep::Failed(AiMuxError::Aborted(m))
        if m == "request aborted"));
}

#[test]
fn opening_is_retried_and_an_open_stream_is_not() {
    let mut s = stream(options(), true);
    assert!(matches!(s.opened(Err(api_error(429, true)), false, 0), StreamStep::Call));
    assert!(matches!(s.opened(Ok(()), false, 0), StreamStep::Open(_)));
    assert!(matches!(s.opened(Err(api_error(429, true)), false, 0), StreamStep::Wait));
    let mut refused = stream(options(), true);
    assert!(matches!(refused.opened(Err(api_error(400, false)), false, 0), StreamStep::Failed(AiMuxError::ApiCall(_))));
    assert!(matches!(refused.opened(Ok(()), false, 0), StreamStep::Stopped));
}

#[test]
fn the_first_chunk_limit_bounds_opening() {
    let limit = TimeoutConfiguration { first_chunk_ms: Some(5), ..TimeoutConfiguration::none() };
    let mut s = stream(within(limit), true);
    assert!(matches!(s.tick(false, 4), StreamStep::Wait));
    assert!(matches!(s.tick(false, 5), StreamStep::Failed(AiMuxError::Timeout(m))
        if m == "First chunk timeout of 5ms exceeded"));
}

#[test]
fn a_pump_starts_with_the_limits_of_its_generation() {
    let limit = TimeoutConfiguration {
        total_ms: Some(100),
        first_chunk_ms: Some(5),
        chunk_ms: Some(7),
        ..TimeoutConfiguration::none()
    };
    let mut s = stream(within(limit), true);
    let StreamStep::Open(mut pump) = s.opened(Ok(()), false, 1) else {
        panic!("expected the stream to open");
    };
    assert_eq!(pump.next_deadline().unwrap().at, 5);
    assert!(matches!(pump.turn(false, 4, Arrival::Item(Ok(delta("x")))), PumpStep::Send(_)));
    assert_eq!(pump.next_deadline().unwrap().at, 11);
    assert!(matches!(pump.turn(false, 11, Arrival::Pending), PumpStep::SendLast(Err(AiMuxError::Timeout(m)))
        if m == "Chunk timeout of 7ms exceeded"));
}

#[test]
fn streamed_calls_are_parsed_and_repaired_in_place() {
    let mut s = stream(options(), true);
    s.opened(Ok(()), false, 0);
    assert!(matches!(s.on_item(Ok(delta("hi")), false, 0), StreamStep::Yield(Ok(StreamPart::TextDelta { .. }))));
    assert!(matches!(s.on_item(Ok(streamed_call(json(r#"{"city":"a"}"#))), false, 0),
        StreamStep::Yield(Ok(StreamPart::ToolCall(call))) if call.invalid.is_none()));
    assert!(matches!(s.on_item(Ok(streamed_call(json(r#"{"town":"a"}"#))), false, 0),
        StreamStep::Ask(context) if context.tool_call.input == r#"{"town":"a"}"#));
    assert!(matches!(s.on_item(Ok(finish()), false, 0), StreamStep::Wait));
    assert!(matches!(s.repaired(Ok(Some(raw("call-1", r#"{"city":"b"}"#))), false, 0),
        StreamStep::Yield(Ok(StreamPart::ToolCall(call))) if call.invalid.is_none()
            && call.input.same(&json(r#"{"city":"b"}"#))));
    assert!(matches!(s.on_item(Ok(finish()), false, 0), StreamStep::Yield(Ok(StreamPart::Finish { .. }))));
    assert!(matches!(s.on_item(Ok(delta("late")), false, 0), StreamStep::Stopped));
}

#[test]
fn a_stop_while_a_streamed_call_waits_is_the_last_item() {
    let mut s = stream(options(), true);
    s.opened(Ok(()), false, 0);
    assert!(matches!(s.on_item(Ok(streamed_call(json("{}"))), false, 0), StreamStep::Ask(_)));
    assert!(matches!(s.tick(true, 0), StreamStep::Yield(Err(AiMuxError::Aborted(_)))));
    assert!(matches!(s.repaired(Ok(None), false, 0), StreamStep::Stopped));
}

#[test]
fn a_cancelled_stream_is_not_opened() {
    let mut s = stream(options(), true);
    assert!(matches!(s.opened(Ok(()), true, 0), StreamStep::Failed(AiMuxError::Aborted(_))));
    assert!(matches!(s.opened(Ok(()), true, 0), StreamStep::Stopped));
}

#[test]
fn a_malformed_frame_does_not_end_a_streamed_generation() {
    let mut s = stream(options(), false);
    s.opened(Ok(()), false, 0);
    assert!(matches!(s.on_item(Err(AiMuxError::JsonParse("bad".into())), false, 0), StreamStep::Yield(Err(_))));
    assert!(matches!(s.on_item(Err(AiMuxError::Other("gone".into())), false, 0), StreamStep::Yield(Err(_))));
    assert!(matches!(s.on_item(Ok(delta("late")), false, 0), StreamStep::Stopped));
}

fn told(event: Result<Event, AiMuxError>) -> Json {
    match event.ok().unwrap() {
        Event::Result { result } => result,
        Event::Part { part } => part,
        Event::RepairRequest { .. } => panic!("expected a result or a part"),
    }
}

#[test]
fn each_mode_reports_its_own_result() {
    let result = |words: &str| done(generation(options(), false).answered(Ok(answer(vec![text(words)])), false, 0));
    let plain = told(generated_event(Mode::GenerateText, result("hi"), "", "m-1"));
    assert!(plain.get("text").unwrap().same(&json("\"hi\"")));
    let object = told(generated_event(Mode::GenerateObject, result("{\"a\":1"), "{\"a\":1}", "m-1"));
    assert!(object.get("object").unwrap().same(&json("{\"a\":1}")));
    let completion = told(generated_event(Mode::GenerateTextAsOpenai, result("hi"), "", "m-1"));
    assert!(completion.get("model").unwrap().same(&json("\"m-1\"")));
    assert!(matches!(generated_event(Mode::GenerateObject, result("no"), "no", "m-1"), Err(AiMuxError::JsonParse(m))
        if m.starts_with("generateObject: model output is not valid JSON after repair: ")));
    let read = StreamTextResult {
        stream: vec![Ok(delta("hi")), Ok(finish())],
        request_body: None,
        response_headers: None,
    };
    assert!(told(consumed_event(read.consume())).get("text").unwrap().same(&json("\"hi\"")));
}

#[test]
fn a_malformed_frame_is_a_part_and_any_other_failure_ends_the_operation() {
    let part = told(item_event(Err(AiMuxError::JsonParse("bad".into()))));
    assert!(part.get("Error").unwrap().get("error").unwrap().get("JsonParse").unwrap().same(&json("\"bad\"")));
    assert!(matches!(item_event(Err(AiMuxError::Other("gone".into()))), Err(AiMuxError::Other(m)) if m == "gone"));
    assert!(matches!(chunk_event(Err(AiMuxError::JsonParse("bad".into()))), Err(AiMuxError::JsonParse(_))));
    assert!(told(chunk_event(Ok(json("1")))).same(&json("1")));
}

#[test]
fn a_result_is_the_last_thing_that_a_host_reads() {
    let control =
        GenerationControl::new(TimeoutConfiguration::none(), Some(AbortSignal { id: 7 }), 0).ok().unwrap();
    let mut operation = Operation::new(control);
    let result = done(generation(options(), false).answered(Ok(answer(vec![text("hi")])), false, 0));
    let event = generated_event(Mode::GenerateText, result, "", "m-1").ok().unwrap();
    assert!(matches!(operation.send(event, false, 0), SendStep::Sent));
    operation.conclude(Ok(()), false, 0);
    assert!(matches!(operation.next(Lane::Output, false, 0), ReadStep::Ready(Next::Event(Event::Result { .. }))));
    assert!(matches!(operation.next(Lane::Output, false, 0), ReadStep::Ready(Next::Ended)));
}
