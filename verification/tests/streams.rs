use aimux::error::{AiMuxError, ApiCallError};
use aimux::error_text::{next_attempt, RetryStep};
use aimux::generation_control::{GenerationControl, Limit, TimeoutDeadline};
use aimux::json::{Json, JsonObject};
use aimux::message::{ContentPart, MessageContent};
use aimux::options::{AbortSignal, TimeoutConfiguration};
use aimux::result::ToolResultPart;
use aimux::stream_part::{StreamItem, StreamPart};
use aimux::stream_pump::{Arrival, PumpStep, StreamPump, StreamTap};
use aimux::stream_text::{is_output_chunk, is_terminal_item, StreamTextResult};
use aimux::tool::ToolCall;
use aimux::types::{FinishReason, FinishReasonUnified, ResponseMetadata, Usage};
use std::collections::VecDeque;

fn delta(text: &str) -> StreamPart {
    StreamPart::TextDelta { id: "text-1".into(), delta: text.into(), provider_metadata: None }
}

fn finish_with(unified: FinishReasonUnified) -> StreamPart {
    StreamPart::Finish {
        finish_reason: FinishReason { unified, raw: Some("stop".into()) },
        usage: Usage::unknown(),
        provider_metadata: None,
    }
}

fn finish() -> StreamPart {
    finish_with(FinishReasonUnified::Stop)
}

fn api_error(status: u16, retryable: bool) -> AiMuxError {
    let mut detail = ApiCallError::new(
        "stream setup failed",
        "https://example.test/stream",
        Json::Object(JsonObject::new()),
    );
    detail.status_code = Some(status);
    detail.response_headers = Some(vec![("retry-after-ms".into(), "0".into())]);
    detail.is_retryable = retryable;
    AiMuxError::ApiCall(Box::new(detail))
}

/// A provider's stream behind its pump, and the consumer's end of it.
struct Generation {
    source: VecDeque<StreamItem>,
    endless: bool,
    pump: StreamPump,
    tap: StreamTap,
    sent: VecDeque<StreamItem>,
    done: bool,
    aborted: bool,
}

impl Generation {
    fn new(source: Vec<StreamItem>, endless: bool, timeout: TimeoutConfiguration) -> Generation {
        let control = GenerationControl::new(timeout, Some(AbortSignal { id: 1 }), 0).ok().unwrap();
        Generation {
            source: source.into(),
            endless,
            pump: StreamPump::new(&control, timeout.chunk_ms),
            tap: StreamTap::new(),
            sent: VecDeque::new(),
            done: false,
            aborted: false,
        }
    }

    /// Everything that the provider has, at one moment.
    fn drain(&mut self, now: u64) {
        while !self.done {
            let arrival = match self.source.pop_front() {
                Some(item) => Arrival::Item(item),
                None if self.endless => Arrival::Pending,
                None => Arrival::End,
            };
            match self.pump.turn(self.aborted, now, arrival) {
                PumpStep::Wait => return,
                PumpStep::Send(item) => self.sent.push_back(item),
                PumpStep::SendLast(item) => {
                    self.sent.push_back(item);
                    self.done = true;
                }
                PumpStep::Stop => self.done = true,
            }
        }
    }

    /// The consumer's next item; `None` at the end.
    fn next(&mut self) -> Option<StreamItem> {
        let arrival = match self.sent.pop_front() {
            Some(item) => Arrival::Item(item),
            None if self.done => Arrival::End,
            None => Arrival::Pending,
        };
        match self.tap.turn(self.aborted, arrival) {
            PumpStep::Send(item) | PumpStep::SendLast(item) => Some(item),
            PumpStep::Stop => None,
            PumpStep::Wait => panic!("the consumer would wait"),
        }
    }
}

#[test]
fn stream_setup_preserves_the_peeked_first_event() {
    let mut stream = Generation::new(vec![Ok(delta("hello"))], false, TimeoutConfiguration::none());
    stream.drain(0);
    assert!(matches!(stream.next(), Some(Ok(StreamPart::TextDelta { delta, .. })) if delta == "hello"));
    assert!(stream.next().is_none());
}

#[test]
fn late_consumer_still_receives_a_first_chunk_delivered_on_time() {
    // The budget measures the arrival, not when the consumer asks.
    let timeout = TimeoutConfiguration { first_chunk_ms: Some(1), ..TimeoutConfiguration::none() };
    let mut stream = Generation::new(vec![Ok(delta("hello"))], false, timeout);
    stream.drain(0);
    stream.drain(20);
    assert!(matches!(stream.next(), Some(Ok(StreamPart::TextDelta { delta, .. })) if delta == "hello"));
    assert!(stream.next().is_none());
}

#[test]
fn caller_abort_still_cancels_the_returned_stream() {
    let mut stream = Generation::new(vec![Ok(delta("hello"))], false, TimeoutConfiguration::none());
    stream.drain(0);
    stream.aborted = true;
    assert!(matches!(stream.next(), Some(Err(AiMuxError::Aborted(message))) if message == "request aborted"));
    assert!(stream.next().is_none());
}

#[test]
fn terminal_stream_part_stops_stream_consumption() {
    let timeout = TimeoutConfiguration { total_ms: Some(50), ..TimeoutConfiguration::none() };
    let mut stream = Generation::new(vec![Ok(finish())], true, timeout);
    stream.drain(0);
    assert!(matches!(stream.next(), Some(Ok(StreamPart::Finish { .. }))));
    stream.drain(60);
    assert!(stream.next().is_none());
}

#[test]
fn provider_error_part_does_not_hide_the_final_finish() {
    let reported = StreamPart::Error { error: AiMuxError::Other("provider error".into()) };
    let mut stream = Generation::new(
        vec![Ok(reported), Ok(finish_with(FinishReasonUnified::Error))],
        true,
        TimeoutConfiguration::none(),
    );
    stream.drain(0);
    assert!(matches!(stream.next(), Some(Ok(StreamPart::Error { .. }))));
    assert!(matches!(stream.next(), Some(Ok(StreamPart::Finish { finish_reason, .. }))
        if finish_reason.unified == FinishReasonUnified::Error));
    stream.aborted = true;
    assert!(stream.next().is_none());
}

fn malformed_then_text() -> Vec<StreamItem> {
    vec![Err(AiMuxError::JsonParse("malformed SSE data".into())), Ok(delta("after-error"))]
}

#[test]
fn timeout_wrapper_continues_after_a_malformed_stream_frame() {
    let timeout = TimeoutConfiguration { total_ms: Some(1_000), ..TimeoutConfiguration::none() };
    let mut stream = Generation::new(malformed_then_text(), false, timeout);
    stream.drain(0);
    assert!(matches!(stream.next(), Some(Err(AiMuxError::JsonParse(_)))));
    assert!(matches!(stream.next(), Some(Ok(StreamPart::TextDelta { delta, .. })) if delta == "after-error"));
}

#[test]
fn abort_wrapper_continues_after_a_malformed_stream_frame() {
    let mut stream = Generation::new(malformed_then_text(), false, TimeoutConfiguration::none());
    stream.drain(0);
    assert!(matches!(stream.next(), Some(Err(AiMuxError::JsonParse(_)))));
    assert!(matches!(stream.next(), Some(Ok(StreamPart::TextDelta { delta, .. })) if delta == "after-error"));
}

#[test]
fn first_chunk_timeout_bounds_the_stream_setup_phase() {
    let timeout = TimeoutConfiguration { first_chunk_ms: Some(5), ..TimeoutConfiguration::none() };
    let control = GenerationControl::new(timeout, None, 100).ok().unwrap();
    let deadline = control.setup_deadline().unwrap();
    assert_eq!(deadline.at, 105);
    assert!(matches!(deadline.error(), AiMuxError::Timeout(ref message)
        if message == "First chunk timeout of 5ms exceeded"));

    // The same budget bounds a stream that was set up and stays silent.
    let mut stream = Generation::new(vec![], true, timeout);
    stream.drain(4);
    assert!(stream.sent.is_empty());
    stream.drain(5);
    assert!(matches!(stream.next(), Some(Err(AiMuxError::Timeout(ref message)))
        if message == "First chunk timeout of 5ms exceeded"));
    assert!(stream.next().is_none());
}

#[test]
fn transport_error_ends_the_wrapped_stream() {
    let mut stream = Generation::new(vec![Err(api_error(500, true))], true, TimeoutConfiguration::none());
    stream.drain(0);
    assert!(matches!(stream.next(), Some(Err(AiMuxError::ApiCall(_)))));
    assert!(stream.next().is_none());
}

#[test]
fn only_output_sets_the_chunk_deadline_anew() {
    let timeout = TimeoutConfiguration {
        first_chunk_ms: Some(10),
        chunk_ms: Some(5),
        ..TimeoutConfiguration::none()
    };
    let mut stream = Generation::new(vec![Ok(delta("")), Ok(delta("a"))], true, timeout);
    stream.drain(8);
    assert_eq!(stream.pump.next_deadline().unwrap().at, 13);
    stream.source.push_back(Ok(StreamPart::TextEnd { id: "text-1".into(), provider_metadata: None }));
    stream.drain(12);
    assert_eq!(stream.pump.next_deadline().unwrap().at, 13);
    stream.drain(13);
    for _ in 0..3 {
        assert!(matches!(stream.next(), Some(Ok(_))));
    }
    assert!(matches!(stream.next(), Some(Err(AiMuxError::Timeout(ref m))) if m == "Chunk timeout of 5ms exceeded"));
}

#[test]
fn budgets_are_absolute_and_named() {
    let timeout = TimeoutConfiguration { total_ms: Some(40), step_ms: Some(30), ..TimeoutConfiguration::none() };
    let control = GenerationControl::new(timeout, None, 7).ok().unwrap();
    assert_eq!(control.deadline().unwrap().at, 37);
    assert!(control.failure(false, 36).is_none());
    assert!(matches!(control.failure(false, 37), Some(AiMuxError::Timeout(ref m)) if m == "Step timeout of 30ms exceeded"));
    let total = TimeoutDeadline::from_now(Limit::Total, 3, 0).ok().unwrap();
    assert!(matches!(total.error(), AiMuxError::Timeout(ref m) if m == "Total timeout of 3ms exceeded"));
    assert!(matches!(TimeoutDeadline::from_now(Limit::Total, 1, u64::MAX), Err(AiMuxError::InvalidArgument(_))));
}

#[test]
fn a_cancelled_control_stops_for_good() {
    let control =
        GenerationControl::new(TimeoutConfiguration::none(), Some(AbortSignal { id: 1 }), 0).ok().unwrap();
    assert!(control.failure(false, 9).is_none());
    let mut aborted = false;
    control.cancel(&mut aborted);
    assert!(matches!(control.failure(aborted, 0), Some(AiMuxError::Aborted(ref m)) if m == "request aborted"));
    assert!(matches!(control.settle(aborted, 0, Some(Ok(5))), Some(Err(AiMuxError::Aborted(_)))));
    assert!(matches!(control.settle(false, 0, Some(Ok(5))), Some(Ok(5))));
}

#[test]
fn cancelling_one_control_stops_its_copies() {
    let timeout = TimeoutConfiguration { total_ms: Some(10), ..TimeoutConfiguration::none() };
    let control = GenerationControl::new(timeout, Some(AbortSignal { id: 1 }), 0).ok().unwrap();
    let copy = control.copy();
    assert!(matches!(copy.failure(false, 10), Some(AiMuxError::Timeout(_))));
    let mut aborted = false;
    control.cancel(&mut aborted);
    control.cancel(&mut aborted);
    assert!(aborted);
    assert!(matches!(copy.failure(aborted, 10), Some(AiMuxError::Aborted(_))));
    assert!(copy.signal() == control.signal());

    let deaf = GenerationControl::new(TimeoutConfiguration::none(), None, 0).ok().unwrap();
    let mut untouched = false;
    deaf.cancel(&mut untouched);
    assert!(!untouched);
    assert!(deaf.failure(true, 10).is_none());
}

#[test]
fn retryable_first_stream_error_retries_before_returning_stream() {
    let failures = vec![api_error(429, true)];
    assert!(matches!(next_attempt(&failures, 2), RetryStep::Again));
}

#[test]
fn non_retryable_first_stream_error_is_returned_unchanged() {
    let failures = vec![api_error(400, false)];
    let RetryStep::GiveUp(error) = next_attempt(&failures, 2) else {
        panic!("tried again");
    };
    assert!(matches!(error, AiMuxError::ApiCall(ref detail) if detail.status_code == Some(400)));
}

#[test]
fn retrying_ends_with_all_failures() {
    let failures = vec![api_error(429, true), api_error(500, true), api_error(503, true)];
    let RetryStep::GiveUp(AiMuxError::Retry(retry)) = next_attempt(&failures, 2) else {
        panic!("expected all failures");
    };
    assert!(retry.reason == aimux::error::RetryErrorReason::MaxRetriesExceeded);
    assert_eq!(retry.errors.len(), 3);
    let mixed = vec![api_error(429, true), api_error(400, false)];
    let RetryStep::GiveUp(AiMuxError::Retry(retry)) = next_attempt(&mixed, 2) else {
        panic!("expected both failures");
    };
    assert!(retry.reason == aimux::error::RetryErrorReason::ErrorNotRetryable);
    assert!(matches!(next_attempt(&vec![api_error(429, true)], 0), RetryStep::GiveUp(AiMuxError::ApiCall(_))));
}

fn result_from(stream: Vec<StreamItem>) -> StreamTextResult {
    StreamTextResult { stream, request_body: None, response_headers: None }
}

#[test]
fn truncated_stream_with_partial_output_does_not_claim_a_normal_stop() {
    let result = result_from(vec![Ok(delta("par"))]).consume().ok().unwrap();
    assert_eq!(result.text, "par");
    assert!(result.finish_reason.unified == FinishReasonUnified::Other);

    let text = result_from(vec![Ok(delta("par"))]).text().ok().unwrap();
    assert_eq!(text, "par");
}

#[test]
fn empty_incomplete_stream_is_an_error() {
    let error = result_from(vec![]).consume().err().unwrap();
    assert!(matches!(&error, AiMuxError::InvalidResponseData(message) if message.contains("without a finish chunk")));
    let error = result_from(vec![]).text().err().unwrap();
    assert!(matches!(error, AiMuxError::InvalidResponseData(_)));
}

#[test]
fn stream_with_finish_still_reports_the_provider_finish_reason() {
    let result = result_from(vec![Ok(delta("hi")), Ok(finish())]).consume().ok().unwrap();
    assert!(result.finish_reason.unified == FinishReasonUnified::Stop);
}

#[test]
fn provider_error_still_wins_after_draining_a_trailing_finish() {
    let parts = || {
        vec![
            Ok(delta("partial")),
            Ok(StreamPart::Error { error: AiMuxError::Other("provider error".into()) }),
            Ok(finish()),
        ]
    };
    let error = result_from(parts()).consume().err().unwrap();
    assert!(matches!(error, AiMuxError::Other(message) if message == "provider error"));
    let error = result_from(parts()).text().err().unwrap();
    assert!(matches!(error, AiMuxError::Other(message) if message == "provider error"));
}

#[test]
fn nothing_behind_the_finish_is_read() {
    let result = result_from(vec![Ok(delta("a")), Ok(finish()), Ok(delta("b")), Err(AiMuxError::Other("late".into()))])
        .consume()
        .ok()
        .unwrap();
    assert_eq!(result.text, "a");
}

#[test]
fn a_malformed_frame_is_reported_at_the_end() {
    let error = result_from(vec![Err(AiMuxError::JsonParse("frame".into())), Ok(delta("a")), Ok(finish())])
        .consume()
        .err()
        .unwrap();
    assert!(matches!(error, AiMuxError::JsonParse(message) if message == "frame"));
    assert!(is_terminal_item(&Err(AiMuxError::Other("x".into()))));
    assert!(!is_terminal_item(&Err(AiMuxError::JsonParse("x".into()))));
    assert!(is_terminal_item(&Ok(finish())));
}

#[test]
fn output_is_what_the_model_says() {
    assert!(is_output_chunk(&delta("a")));
    assert!(!is_output_chunk(&delta("")));
    assert!(!is_output_chunk(&StreamPart::StreamStart { warnings: vec![] }));
    assert!(!is_output_chunk(&finish()));
}

fn call(input: &str) -> ToolCall {
    ToolCall {
        tool_call_id: "c1".into(),
        tool_name: "weather".into(),
        input: aimux::json_text::parse_json(input).unwrap(),
        provider_executed: None,
        dynamic: None,
        thought_signature: None,
        provider_metadata: None,
        invalid: None,
        error: None,
    }
}

#[test]
fn a_consumed_stream_collects_everything() {
    let reasoning = |delta: &str| StreamPart::ReasoningDelta {
        id: "r".into(),
        delta: delta.into(),
        provider_metadata: None,
    };
    let parts: Vec<StreamItem> = vec![
        Ok(StreamPart::StreamStart { warnings: vec![Json::string("careful")] }),
        Ok(StreamPart::ReasoningStart { id: "r".into(), provider_metadata: None }),
        Ok(reasoning("thi")),
        Ok(reasoning("nk")),
        Ok(StreamPart::ReasoningEnd { id: "r".into(), provider_metadata: None }),
        Ok(StreamPart::TextStart { id: "t".into(), provider_metadata: None }),
        Ok(delta("he")),
        Ok(delta("llo")),
        Ok(StreamPart::TextEnd { id: "t".into(), provider_metadata: None }),
        Ok(StreamPart::ToolCall(call(r#"{"city":"Oslo"}"#))),
        Ok(StreamPart::ToolResult(ToolResultPart {
            tool_call_id: "c1".into(),
            tool_name: "weather".into(),
            result: Json::string("sunny"),
            is_error: None,
            dynamic: None,
            preliminary: None,
            provider_metadata: None,
        })),
        Ok(StreamPart::ResponseMetadata(ResponseMetadata {
            id: Some("resp".into()),
            timestamp: None,
            model_id: None,
        })),
        Ok(finish()),
    ];
    let result = result_from(parts).consume().ok().unwrap();
    assert_eq!(result.text, "hello");
    assert_eq!(result.reasoning_text, "think");
    assert_eq!(result.reasoning.len(), 1);
    assert_eq!(result.tool_calls.len(), 1);
    assert_eq!(result.warnings.len(), 1);
    assert_eq!(result.response.unwrap().id.as_deref(), Some("resp"));
    assert_eq!(result.raw_finish_reason.as_deref(), Some("stop"));
    let MessageContent::Parts(parts) = &result.response_messages[0].content else {
        panic!("expected parts");
    };
    assert!(matches!(&parts[0], ContentPart::Reasoning { text, .. } if text == "think"));
    assert!(matches!(&parts[1], ContentPart::Text { text, .. } if text == "hello"));
    assert!(matches!(&parts[2], ContentPart::ToolCall { tool_name, .. } if tool_name == "weather"));
}
