use aimux::error::AiMuxError;
use aimux::generate::{raw_streamed_call, text_result};
use aimux::generate_options::GenerateTextOptions;
use aimux::generation::{GenerationStep, TextGeneration};
use aimux::generation_control::GenerationControl;
use aimux::json::Json;
use aimux::json_text::parse_json;
use aimux::message::{ModelMessage, ModelPrompt};
use aimux::openai_output::parsed_tool_call_arguments;
use aimux::operation::{
    driver_panicked, openai_stream_options, openai_stream_options_of, part_of_item, AnswerStep, OpenAiStreamOptions,
    Operation, ReadStep, SendStep,
};
use aimux::options::{AbortSignal, TimeoutConfiguration};
use aimux::parse_tool_call::{
    apply_repair_outcome, begin_tool_call, outcome_of_answer, ToolCallRepairContext, ToolCallStep,
};
use aimux::protocol::{Event, Lane, Mode, Next, Reply, ReplyStatus, StartRequest};
use aimux::result::{GenerateContent, GenerateResult};
use aimux::result_wire::{part_of_stream_json, text_result_json};
use aimux::stream_part::StreamPart;
use aimux::tool::{FunctionTool, RawToolCall, Tool, ToolCall};
use aimux::types::{FinishReason, FinishReasonUnified, ResponseMetadata, Usage};

fn json(text: &str) -> Json {
    parse_json(text).unwrap()
}

fn at<'a>(doc: &'a Json, path: &[&str]) -> &'a Json {
    let mut here = doc;
    for step in path {
        here = match step.parse::<usize>() {
            Ok(index) => here.get_item(index).unwrap(),
            Err(_) => here.get(step).unwrap(),
        };
    }
    here
}

/// The options that these tests write: tools and a total timeout.
fn decode(options: &Json) -> Result<GenerateTextOptions, String> {
    let mut decoded = GenerateTextOptions::default();
    if let Some(tools) = options.get("tools").and_then(Json::as_array) {
        let tool = |doc: &Json| {
            Tool::Function(FunctionTool::new(
                doc.get_str("name").unwrap(),
                doc.get("input_schema").unwrap().copy(),
            ))
        };
        decoded.tools = Some(tools.iter().map(tool).collect());
    }
    if let Some(timeout) = options.get("timeout") {
        decoded.timeout = Some(TimeoutConfiguration {
            total_ms: timeout.get("total_ms").and_then(Json::as_u64),
            ..TimeoutConfiguration::none()
        });
    }
    if options.get("unreadable").is_some() {
        return Err("unreadable options".into());
    }
    Ok(decoded)
}

const OPTIONS: &str = r#""tools":[{"type":"function","name":"weather","input_schema":{"type":"object"}}]"#;

fn request(mode: Mode, more: &str) -> StartRequest {
    StartRequest {
        protocol_version: 1,
        mode,
        prompt: ModelPrompt::Text("hi".into()),
        options: json(&format!("{{{OPTIONS}{more}}}")),
        repair_tool_call: true,
    }
}

fn bad_call() -> RawToolCall {
    RawToolCall {
        tool_call_id: "c1".into(),
        tool_name: "weather".into(),
        input: "{".into(),
        provider_executed: None,
        dynamic: None,
        thought_signature: None,
        provider_metadata: None,
    }
}

/// An operation whose driver is moved by hand.
struct Driven {
    op: Operation,
    options: GenerateTextOptions,
    asked: Option<(u64, RawToolCall, AiMuxError)>,
    /// What the operation's signal says.
    aborted: bool,
}

const SIGNAL: AbortSignal = AbortSignal { id: 5 };

impl Driven {
    fn start(request: &StartRequest) -> Driven {
        let (op, options) = Operation::start(request, &decode, SIGNAL, 0).ok().unwrap();
        Driven { op, options, asked: None, aborted: false }
    }

    /// The driver meets the bad call and asks for its repair.
    fn meet_bad_call(&mut self) {
        let tools = self.options.tools.as_ref().unwrap();
        let ToolCallStep::Failed { tool_call, error } = begin_tool_call(bad_call(), Some(tools)) else {
            panic!("the call is bad");
        };
        let context = ToolCallRepairContext {
            instructions: None,
            system: None,
            messages: vec![ModelMessage::user("hi")],
            tool_call: tool_call.copy(),
            tools: aimux::tool::copy_tools(tools),
            error: error.copy(),
        };
        let id = self.op.request_repair(context).ok().unwrap();
        self.asked = Some((id, tool_call, error));
    }

    /// The call that the reply leads to.
    fn repaired(&mut self, now: u64) -> Result<ToolCall, AiMuxError> {
        let (id, tool_call, error) = self.asked.take().unwrap();
        let AnswerStep::Answered(answer) = self.op.take_answer(id, self.aborted, now) else {
            panic!("no reply yet");
        };
        // The budget of the operation covers the repair.
        if let Some(failure) = self.op.failure(self.aborted, now) {
            return Err(failure);
        }
        let tools = self.options.tools.as_ref().unwrap();
        Ok(apply_repair_outcome(tool_call, error, tools, outcome_of_answer(answer)))
    }

    /// The driver sends its result and ends.
    fn conclude(&mut self, now: u64) {
        match self.repaired(now) {
            Ok(call) => {
                let result = text_result(generated(), vec![call]);
                assert!(matches!(
                    self.op.send(Event::Result { result: text_result_json(&result) }, self.aborted, now),
                    SendStep::Sent
                ));
                self.op.conclude(Ok(()), self.aborted, now);
            }
            Err(error) => self.op.conclude(Err(error), self.aborted, now),
        }
    }

    fn repair_id(&mut self) -> String {
        match self.op.next(Lane::Control, self.aborted, 0) {
            ReadStep::Ready(Next::Event(Event::RepairRequest { request_id, context })) => {
                assert_eq!(context.tool_call.input, "{");
                assert!(context.input_schema.same(&json(r#"{"type":"object"}"#)));
                request_id
            }
            _ => panic!("expected a repair request"),
        }
    }

    fn result(&mut self) -> Json {
        match self.op.next(Lane::Output, self.aborted, 0) {
            ReadStep::Ready(Next::Event(Event::Result { result })) => result,
            _ => panic!("expected a result"),
        }
    }

    fn ended(&mut self, lane: Lane) -> bool {
        matches!(self.op.next(lane, self.aborted, 0), ReadStep::Ready(Next::Ended))
    }
}

fn generated() -> GenerateResult {
    GenerateResult {
        content: vec![GenerateContent::ToolCall(bad_call())],
        finish_reason: FinishReason { unified: FinishReasonUnified::ToolCalls, raw: None },
        usage: Usage::unknown(),
        warnings: vec![],
        provider_metadata: None,
        response: ResponseMetadata::unknown(),
        request_body: None,
        response_headers: None,
    }
}

fn repaired_to(tool_name: &str) -> Reply {
    let tool_call = RawToolCall { tool_name: tool_name.into(), input: "{}".into(), ..bad_call() };
    Reply::Repaired { tool_call }
}

fn fixed() -> Reply {
    repaired_to("weather")
}

#[test]
fn repair_result_and_stale_replies() {
    let mut run = Driven::start(&request(Mode::GenerateText, ""));
    run.meet_bad_call();
    let id = run.repair_id();
    assert!(run.op.reply("99", Reply::Unchanged, run.aborted, 0) == ReplyStatus::UnknownRequest);
    assert!(run.op.reply(&id, fixed(), run.aborted, 0) == ReplyStatus::Accepted);
    assert!(run.op.reply(&id, Reply::Unchanged, run.aborted, 0) == ReplyStatus::AlreadyReplied);
    run.conclude(0);
    let result = run.result();
    assert!(at(&result, &["tool_calls", "0", "input"]).same(&json("{}")));
    assert!(at(&result, &["tool_calls", "0"]).get("invalid").is_none());
    assert!(run.ended(Lane::Output));
    assert!(run.op.reply(&id, fixed(), run.aborted, 0) == ReplyStatus::OperationEnded);
}

#[test]
fn request_ids_are_plain_numbers() {
    let mut run = Driven::start(&request(Mode::GenerateText, ""));
    run.meet_bad_call();
    let id = run.repair_id();
    assert_eq!(id, "1");
    for other in ["0", "01", "+1", "1 ", "", "x", "2", "18446744073709551616"] {
        assert!(run.op.reply(other, fixed(), run.aborted, 0) == ReplyStatus::UnknownRequest, "{other}");
    }
    assert!(run.op.reply("1", fixed(), run.aborted, 0) == ReplyStatus::Accepted);
}

#[test]
fn cancel_during_host_wait_preserves_error_and_wakes_both_lanes() {
    let mut run = Driven::start(&request(Mode::GenerateText, ""));
    run.meet_bad_call();
    let id = run.repair_id();
    run.op.cancel(&mut run.aborted);
    assert!(run.op.reply(&id, fixed(), run.aborted, 0) == ReplyStatus::OperationEnded);
    assert!(run.ended(Lane::Control));
    assert!(matches!(run.op.next(Lane::Output, run.aborted, 0), ReadStep::Failed(AiMuxError::Aborted(_))));
    assert!(run.ended(Lane::Output));
}

#[test]
fn original_deadline_bounds_repair() {
    let mut run = Driven::start(&request(Mode::GenerateText, r#","timeout":{"total_ms":50}"#));
    run.meet_bad_call();
    let id = run.repair_id();
    assert!(run.op.reply(&id, fixed(), run.aborted, 51) == ReplyStatus::OperationEnded);
    assert!(matches!(run.op.next(Lane::Output, run.aborted, 51), ReadStep::Failed(AiMuxError::Timeout(_))));
}

#[test]
fn host_error_is_a_tool_error_not_an_operation_failure() {
    let mut run = Driven::start(&request(Mode::GenerateText, ""));
    run.meet_bad_call();
    let id = run.repair_id();
    assert!(run.op.reply(&id, Reply::Failed { message: "boom".into() }, run.aborted, 0) == ReplyStatus::Accepted);
    run.conclude(0);
    let result = run.result();
    assert_eq!(
        at(&result, &["tool_calls", "0", "error", "ToolCallRepair", "cause", "Other"]).as_str().unwrap(),
        "boom"
    );
}

fn streamed_call(call: ToolCall) -> Event {
    Event::Part { part: part_of_stream_json(&StreamPart::ToolCall(call)) }
}

#[test]
fn streaming_and_nested_operation_use_same_protocol() {
    let mut outer = Driven::start(&request(Mode::StreamText, ""));
    outer.meet_bad_call();
    let id = outer.repair_id();
    let mut inner = Driven::start(&request(Mode::GenerateText, ""));
    inner.meet_bad_call();
    let inner_id = inner.repair_id();
    assert!(inner.op.reply(&inner_id, fixed(), inner.aborted, 0) == ReplyStatus::Accepted);
    inner.conclude(0);
    inner.result();
    assert!(outer.op.reply(&id, fixed(), outer.aborted, 0) == ReplyStatus::Accepted);
    let call = outer.repaired(0).ok().unwrap();
    assert!(matches!(outer.op.send(streamed_call(call), outer.aborted, 0), SendStep::Sent));
    outer.op.conclude(Ok(()), outer.aborted, 0);
    let mut repaired = false;
    loop {
        match outer.op.next(Lane::Output, outer.aborted, 0) {
            ReadStep::Ready(Next::Event(Event::Part { part })) => {
                assert!(at(&part, &["ToolCall", "input"]).same(&json("{}")));
                repaired = true;
            }
            ReadStep::Ready(Next::Ended) => break,
            _ => panic!("unexpected"),
        }
    }
    assert!(repaired);
}

#[test]
fn direct_rust_repair_has_the_same_deadline() {
    // A repair that does not answer is bounded by the call's own budget.
    let mut options = decode(&request(Mode::GenerateText, "").options).ok().unwrap();
    options.timeout = Some(TimeoutConfiguration { total_ms: Some(50), ..TimeoutConfiguration::none() });
    let prompt = ModelPrompt::Text("hi".into());
    let (mut generation, _) = TextGeneration::start(prompt, options, true, 2, 0).ok().unwrap();
    assert!(matches!(generation.answered(Ok(generated()), false, 0), GenerationStep::Ask(_)));
    assert!(matches!(generation.tick(false, 49), GenerationStep::Wait));
    assert!(matches!(generation.tick(false, 50), GenerationStep::Failed(AiMuxError::Timeout(_))));
}

#[test]
fn cancelling_an_operation_fails_its_generation() {
    let mut run = Driven::start(&request(Mode::GenerateText, ""));
    let options = std::mem::take(&mut run.options);
    let prompt = ModelPrompt::Text("hi".into());
    let (mut generation, _) = TextGeneration::start(prompt, options, true, 2, 0).ok().unwrap();
    assert!(matches!(generation.tick(run.aborted, 0), GenerationStep::Wait));
    run.op.cancel(&mut run.aborted);
    assert!(matches!(generation.answered(Ok(generated()), run.aborted, 0),
        GenerationStep::Failed(AiMuxError::Aborted(ref m)) if m == "request aborted"));
}

#[test]
fn a_generation_cancelled_elsewhere_ends_its_operation() {
    let mut run = Driven::start(&request(Mode::GenerateText, ""));
    run.options.operation_control.as_ref().unwrap().cancel(&mut run.aborted);
    assert!(matches!(run.op.next(Lane::Output, run.aborted, 0), ReadStep::Failed(AiMuxError::Aborted(_))));
}

#[test]
fn openai_stream_options_are_read_from_the_options_document() {
    let of = |text: &str| openai_stream_options_of(&json(text));
    let options =
        |include_usage: bool, include_reasoning: bool| OpenAiStreamOptions { include_usage, include_reasoning };
    assert_eq!(of("{}"), options(true, true));
    assert_eq!(of(r#"{"openai_stream_options":{"include_usage":false}}"#), options(false, true));
    assert_eq!(of(r#"{"openai_stream_options":{"include_reasoning":false}}"#), options(true, false));
    let provider = r#"{"provider_options":{"openai":{"stream_options":{"include_reasoning":false}}}}"#;
    assert_eq!(of(provider), options(true, false));
    let both = r#"{"openai_stream_options":{},
        "provider_options":{"openai":{"stream_options":{"include_reasoning":false}}}}"#;
    assert_eq!(of(both), options(true, true));
}

#[test]
fn invalid_start_has_no_provider_side_effect() {
    let mut version = request(Mode::GenerateText, "");
    version.protocol_version = 99;
    assert!(matches!(Operation::start(&version, &decode, SIGNAL, 0), Err(AiMuxError::InvalidArgument(ref m))
        if m == "unsupported operation protocol version"));
    for name in ["repair_tool_call", "repairToolCall", "abort_signal"] {
        let hooked = request(Mode::GenerateText, &format!(r#","{name}":12"#));
        assert!(matches!(Operation::start(&hooked, &decode, SIGNAL, 0), Err(AiMuxError::InvalidArgument(ref m))
            if *m == format!("{name} is not a data option")));
    }
    let unreadable = request(Mode::GenerateText, r#","unreadable":1"#);
    assert!(matches!(Operation::start(&unreadable, &decode, SIGNAL, 0), Err(AiMuxError::InvalidArgument(ref m))
        if m == "unreadable options"));
    let mut none = request(Mode::GenerateText, "");
    none.options = Json::Null;
    let (_, options) = Operation::start(&none, &decode, SIGNAL, 0).ok().unwrap();
    assert!(options.tools.is_none());
    assert!(options.operation_control.is_some());
    assert!(options.abort_signal.is_some());
}

#[test]
fn unchanged_and_invalid_repair_preserve_tool_error_semantics() {
    for answer in [Reply::Unchanged, repaired_to("missing")] {
        let mut run = Driven::start(&request(Mode::GenerateText, ""));
        run.meet_bad_call();
        let id = run.repair_id();
        let unchanged = matches!(answer, Reply::Unchanged);
        assert!(run.op.reply(&id, answer, run.aborted, 0) == ReplyStatus::Accepted);
        run.conclude(0);
        let result = run.result();
        assert_eq!(at(&result, &["tool_calls", "0", "invalid"]).as_bool(), Some(true));
        assert_eq!(at(&result, &["tool_calls", "0", "error"]).get("ToolCallRepair").is_none(), unchanged);
        assert!(run.ended(Lane::Control));
    }
}

#[test]
fn single_reader_claim_is_released_when_wait_is_dropped() {
    let mut run = Driven::start(&request(Mode::GenerateText, ""));
    run.meet_bad_call();
    run.repair_id();
    assert!(matches!(run.op.enter(Lane::Output, run.aborted, 0), ReadStep::Wait));
    assert!(matches!(run.op.enter(Lane::Output, run.aborted, 0), ReadStep::Ready(Next::ReaderBusy)));
    assert!(matches!(run.op.enter(Lane::Any, run.aborted, 0), ReadStep::Ready(Next::ReaderBusy)));
    assert!(matches!(run.op.enter(Lane::Control, run.aborted, 0), ReadStep::Wait));
    assert!(matches!(run.op.enter(Lane::Terminal, run.aborted, 0), ReadStep::Wait));
    run.op.release(Lane::Control);
    run.op.release(Lane::Output);
    assert!(matches!(run.op.enter(Lane::Any, run.aborted, 0), ReadStep::Wait));
    run.op.cancel(&mut run.aborted);
    assert!(matches!(run.op.next(Lane::Any, run.aborted, 0), ReadStep::Failed(AiMuxError::Aborted(_))));
}

#[test]
fn terminal_observer_never_consumes_results_or_errors() {
    let mut run = Driven::start(&request(Mode::GenerateText, ""));
    run.meet_bad_call();
    let id = run.repair_id();
    assert!(run.op.reply(&id, fixed(), run.aborted, 0) == ReplyStatus::Accepted);
    assert!(matches!(run.op.next(Lane::Terminal, run.aborted, 0), ReadStep::Wait));
    run.conclude(0);
    assert!(run.ended(Lane::Terminal));
    assert!(run.ended(Lane::Terminal));
    run.result();
}

fn filled(n: usize) -> Driven {
    let mut run = Driven::start(&request(Mode::StreamText, ""));
    for _ in 0..n {
        assert!(matches!(run.op.send(Event::Part { part: Json::Null }, run.aborted, 0), SendStep::Sent));
    }
    run
}

#[test]
fn cancellation_and_close_do_not_require_output_drain() {
    let mut run = filled(64);
    assert!(matches!(run.op.next(Lane::Output, run.aborted, 0), ReadStep::Ready(Next::Event(Event::Part { .. }))));
    run.op.cancel(&mut run.aborted);
    run.op.cancel(&mut run.aborted);
    assert!(matches!(run.op.next(Lane::Output, run.aborted, 0), ReadStep::Failed(AiMuxError::Aborted(_))));
}

#[test]
fn control_request_is_available_with_a_full_output_queue() {
    let mut run = filled(64);
    assert!(matches!(run.op.send(Event::Part { part: Json::Null }, run.aborted, 0), SendStep::Full(_)));
    run.meet_bad_call();
    let id = run.repair_id();
    assert!(run.op.reply(&id, fixed(), run.aborted, 0) == ReplyStatus::Accepted);
}

#[test]
fn openai_stream_exposes_only_repaired_arguments() {
    let mut run = Driven::start(&request(Mode::StreamTextAsOpenai, ""));
    run.meet_bad_call();
    let id = run.repair_id();
    assert!(run.op.reply(&id, fixed(), run.aborted, 0) == ReplyStatus::Accepted);
    let call = run.repaired(0).ok().unwrap();
    assert_eq!(parsed_tool_call_arguments(&call.input, call.invalid, call.error.as_ref()), "{}");
}

#[test]
fn no_hook_preserves_invalid_calls_without_control_requests() {
    let mut plain = request(Mode::GenerateText, "");
    plain.repair_tool_call = false;
    let mut run = Driven::start(&plain);
    let tools = run.options.tools.as_ref().unwrap();
    let none: Option<&aimux::parse_tool_call::ToolCallRepair<Callback>> = None;
    let call = aimux::parse_tool_call::parse_tool_call(bad_call(), Some(tools), none, &[], None);
    let result = text_result(generated(), vec![call]);
    run.op.send(Event::Result { result: text_result_json(&result) }, run.aborted, 0);
    run.op.conclude(Ok(()), run.aborted, 0);
    assert!(run.ended(Lane::Control));
    let result = run.result();
    assert_eq!(at(&result, &["tool_calls", "0", "invalid"]).as_bool(), Some(true));
}

type Callback = fn(ToolCallRepairContext) -> Result<Option<RawToolCall>, AiMuxError>;

#[test]
fn cancel_cannot_replace_an_existing_timeout_or_success() {
    let mut run = Driven::start(&request(Mode::GenerateText, r#","timeout":{"total_ms":50}"#));
    run.meet_bad_call();
    run.repair_id();
    assert!(!run.op.finished(run.aborted, 49));
    assert!(run.op.finished(run.aborted, 50));
    run.op.cancel(&mut run.aborted);
    assert!(matches!(run.op.next(Lane::Output, run.aborted, 50), ReadStep::Failed(AiMuxError::Timeout(_))));

    let mut done = Driven::start(&request(Mode::GenerateText, ""));
    done.op.send(Event::Result { result: Json::Null }, done.aborted, 0);
    done.op.conclude(Ok(()), done.aborted, 0);
    assert!(done.op.finished(done.aborted, 0));
    done.op.cancel(&mut done.aborted);
    done.result();
}

#[test]
fn bounded_output_stops_producer_and_cancel_releases_it() {
    let control =
        GenerationControl::new(TimeoutConfiguration::none(), Some(SIGNAL), 0).ok().unwrap();
    let mut op = Operation::new(control);
    let mut sent = 0;
    let blocked = loop {
        match op.send(Event::Part { part: Json::Null }, false, 0) {
            SendStep::Sent => sent += 1,
            SendStep::Full(event) => break event,
            SendStep::Refused(_) => panic!("refused"),
        }
        assert!(sent < 10_000, "output accumulated without backpressure");
    };
    assert_eq!(sent, 64);
    op.finish(Err(AiMuxError::Aborted("stop".into())));
    assert!(matches!(op.send(blocked, false, 0), SendStep::Refused(AiMuxError::Aborted(_))));
}

#[test]
fn a_second_request_waits_for_the_first() {
    let mut run = Driven::start(&request(Mode::GenerateText, ""));
    run.meet_bad_call();
    let tools = run.options.tools.as_ref().unwrap();
    let context = ToolCallRepairContext {
        instructions: None,
        system: None,
        messages: vec![],
        tool_call: bad_call(),
        tools: aimux::tool::copy_tools(tools),
        error: AiMuxError::Other("x".into()),
    };
    assert!(matches!(run.op.request_repair(context), Err(AiMuxError::Other(ref m))
        if m == "concurrent repair requests are unsupported"));
}

#[test]
fn a_driver_after_the_end_is_told_so() {
    let mut run = Driven::start(&request(Mode::GenerateText, ""));
    run.op.conclude(Ok(()), run.aborted, 0);
    assert!(matches!(run.op.send(Event::Part { part: Json::Null }, run.aborted, 0), SendStep::Refused(AiMuxError::Other(ref m))
        if m == "operation ended"));
    assert!(matches!(run.op.take_answer(1, run.aborted, 0), AnswerStep::Answered(Err(AiMuxError::Other(ref m)))
        if m == "repair request ended"));
    assert!(matches!(driver_panicked(), AiMuxError::Other(ref m) if m == "operation driver panicked"));
}

#[test]
fn a_late_success_is_a_failure() {
    let mut run = Driven::start(&request(Mode::GenerateText, r#","timeout":{"total_ms":50}"#));
    run.op.conclude(Ok(()), run.aborted, 50);
    assert!(matches!(run.op.next(Lane::Output, run.aborted, 50), ReadStep::Failed(AiMuxError::Timeout(_))));
}

#[test]
fn events_and_modes_have_their_wire_names() {
    let part = Event::Part { part: json("1") };
    assert!(part.json().same(&json(r#"{"type":"part","part":1}"#)));
    let result = Event::Result { result: json("2") };
    assert!(result.json().same(&json(r#"{"type":"result","result":2}"#)));
    let mut run = Driven::start(&request(Mode::GenerateText, ""));
    run.meet_bad_call();
    let ReadStep::Ready(Next::Event(event)) = run.op.next(Lane::Any, run.aborted, 0) else {
        panic!("expected an event");
    };
    let doc = event.json();
    assert_eq!(doc.get_str("type").unwrap(), "repair_request");
    assert_eq!(doc.get_str("request_id").unwrap(), "1");
    assert_eq!(at(&doc, &["context", "tool_call", "input"]).as_str().unwrap(), "{");
    assert!(at(&doc, &["context"]).get("instructions").is_none());
    assert!(Mode::from_name("stream_text_as_openai") == Some(Mode::StreamTextAsOpenai));
    assert!(Mode::from_name("nothing").is_none());
}

#[test]
fn openai_stream_options_default_to_everything() {
    let mut options = GenerateTextOptions::default();
    let all = openai_stream_options(&options);
    assert!(all.include_usage && all.include_reasoning);
    options.provider_options = Some(
        aimux::json::JsonObject::new()
            .with("openai", json(r#"{"stream_options":{"include_usage":false,"include_reasoning":"no"}}"#)),
    );
    let some = openai_stream_options(&options);
    assert!(!some.include_usage && some.include_reasoning);
}

#[test]
fn malformed_frames_become_error_parts() {
    assert!(matches!(
        part_of_item(Err(AiMuxError::JsonParse("frame".into()))),
        Ok(StreamPart::Error { error: AiMuxError::JsonParse(_) })
    ));
    assert!(matches!(part_of_item(Err(AiMuxError::Other("x".into()))), Err(AiMuxError::Other(_))));
}

#[test]
fn a_streamed_call_is_parsed_from_its_text() {
    let tools = [Tool::Function(FunctionTool::new("weather", json(r#"{"type":"object"}"#)))];
    let mut call = ToolCall {
        tool_call_id: "c1".into(),
        tool_name: "weather".into(),
        input: Json::string(r#"{"city":"Oslo"}"#),
        provider_executed: None,
        dynamic: None,
        thought_signature: None,
        provider_metadata: None,
        invalid: None,
        error: None,
    };
    assert_eq!(raw_streamed_call(&call).input, r#"{"city":"Oslo"}"#);
    let none: Option<&aimux::parse_tool_call::ToolCallRepair<Callback>> = None;
    let item = aimux::generate::parse_streamed_item(
        Ok(StreamPart::ToolCall(call.copy())),
        Some(&tools),
        none,
        &[],
        None,
    );
    let Ok(StreamPart::ToolCall(parsed)) = item else {
        panic!("expected a call");
    };
    assert!(parsed.input.same(&json(r#"{"city":"Oslo"}"#)));
    call.input = json(r#"{"a":1}"#);
    assert_eq!(raw_streamed_call(&call).input, r#"{"a":1}"#);
}
