//! What one call does to what it is called on.
use crate::answer_laws::{brings_output, lemma_thoughts, reasoning_among};
use crate::error::{AiMuxError, AiMuxErrorView};
use crate::generate::{calls_in, result_of};
use crate::generation::{
    answer_told, GenerationStep, GenerationStepView, PhaseView, StreamGeneration, StreamPhaseView, StreamStep,
    TextGeneration,
};
use crate::generation_control::Limit;
use crate::handles::{CallGuard, HandleEntry, HandleKind, Registry, RegistryView};
use crate::host_error::FfiError;
use crate::json::Json;
use crate::message::{messages_view, ContentPartView, MessageContentView};
use crate::operation::{AnswerStep, AnswerView, Operation, OperationView, ReadStep, ReadView, SendStep};
use crate::parse_tool_call::ToolCallRepairContext;
use crate::protocol::{core_answer, host_context, Event, EventView, Lane, NextView, Reply, ReplyStatus};
use crate::response_messages::{reasonings_view, spoken, ResponseMessageBuilder, ResponseMessages};
use crate::result::{GenerateResult, ToolResultPart};
use crate::run_laws::{
    has_come, is_last, is_set, law_a_failed_call, law_a_stream_opens, law_an_answer_is_the_result,
    law_an_open_stream_goes_on, may_be_tried_again,
};
use crate::stream_part::{item_view, StreamItem, StreamPartView};
use crate::stream_pump::{Arrival, ArrivalView, PumpStep, PumpStepView, StreamPump, StreamTap};
use crate::stream_text::{AggregateView, StreamAggregator, StreamFinishView, StreamProgress};
use crate::text::decimal;
use crate::tool::ToolCall;
use vstd::prelude::*;

verus! {

// Reading a stream.

/// A stream is read on until its finish, or until a failure that is no
/// malformed frame.
pub proof fn law_how_far_a_stream_is_read(s: &mut StreamAggregator, item: StreamItem, r: StreamProgress)
    requires
        call_ensures(StreamAggregator::on_item, (s, item), r),
    ensures
        r is Finished <==> (item_view(item) matches Ok(part) && part is Finish),
        r is Failed <==> (item_view(item) matches Err(error) && !(error is JsonParse)),
        r matches StreamProgress::Failed(told) ==> item_view(item) == Err::<StreamPartView, AiMuxErrorView>(told@),
{
}

/// One part adds to what is collected of its own kind, and to nothing else: a
/// text delta to the text, a call to the calls, a source to the sources, a file
/// to the files.
pub proof fn law_what_a_part_adds(s: &mut StreamAggregator, item: StreamItem, r: StreamProgress, part: StreamPartView)
    requires
        call_ensures(StreamAggregator::on_item, (s, item), r),
        item_view(item) == Ok::<StreamPartView, AiMuxErrorView>(part),
    ensures
        final(s)@.text == (match part {
            StreamPartView::TextDelta { delta, .. } => old(s)@.text + delta,
            _ => old(s)@.text,
        }),
        final(s)@.tool_calls == (match part {
            StreamPartView::ToolCall(call) => old(s)@.tool_calls.push(call),
            _ => old(s)@.tool_calls,
        }),
        final(s)@.sources == (match part {
            StreamPartView::Source { source, .. } => old(s)@.sources.push(source),
            _ => old(s)@.sources,
        }),
        final(s)@.files == (match part {
            StreamPartView::File { file, .. } => old(s)@.files.push(file),
            _ => old(s)@.files,
        }),
        final(s)@.warnings == (match part {
            StreamPartView::StreamStart { warnings } => warnings,
            _ => old(s)@.warnings,
        }),
        final(s)@.response == (match part {
            StreamPartView::ResponseMetadata(response) => Some(response),
            _ => old(s)@.response,
        }),
        final(s)@.finish == (match part {
            StreamPartView::Finish { finish_reason, usage, provider_metadata } => Some(
                StreamFinishView { finish_reason, usage, provider_metadata },
            ),
            _ => old(s)@.finish,
        }),
        final(s)@.saw_output == (old(s)@.saw_output || brings_output(part)),
        final(s)@.error == (match part {
            StreamPartView::Error { error } => if old(s)@.error is None {
                Some(error)
            } else {
                old(s)@.error
            },
            _ => old(s)@.error,
        }),
{
}

/// A malformed frame is remembered where it is the first error, and adds
/// nothing.
pub proof fn law_a_malformed_frame_adds_nothing(
    s: &mut StreamAggregator,
    item: StreamItem,
    r: StreamProgress,
    error: AiMuxErrorView,
)
    requires
        call_ensures(StreamAggregator::on_item, (s, item), r),
        item_view(item) == Err::<StreamPartView, AiMuxErrorView>(error),
        error is JsonParse,
    ensures
        final(s)@ == (AggregateView {
            error: if old(s)@.error is None {
                Some(error)
            } else {
                old(s)@.error
            },
            ..old(s)@
        }),
{
}

// Collecting what was said.

/// A whole text and a whole reasoning are added at the end as what they are,
/// with their own metadata; no open segment changes.
pub proof fn law_whole_segments_are_added_at_the_end(
    s: &mut ResponseMessageBuilder,
    t: &mut ResponseMessageBuilder,
    text: &str,
    metadata: Option<Json>,
)
    requires
        call_ensures(ResponseMessageBuilder::text, (s, text, metadata), ()),
        call_ensures(ResponseMessageBuilder::reasoning, (t, text, metadata), ()),
    ensures
        final(s)@.parts == old(s)@.parts.push(
            ContentPartView::Text {
                text: text@,
                provider_options: match metadata {
                    Some(json) => Some(json@),
                    None => None,
                },
            },
        ),
        final(s)@.text_at == old(s)@.text_at && final(s)@.reasoning_at == old(s)@.reasoning_at,
        final(t)@.parts == old(t)@.parts.push(
            ContentPartView::Reasoning {
                text: text@,
                provider_options: match metadata {
                    Some(json) => Some(json@),
                    None => None,
                },
            },
        ),
        final(t)@.text_at == old(t)@.text_at && final(t)@.reasoning_at == old(t)@.reasoning_at,
{
}

/// Whether a delta went to the open segment of its kind: it stands behind what
/// that segment said, and every other part is as it was.
pub open spec fn went_on(before: Seq<ContentPartView>, after: Seq<ContentPartView>, i: int, delta: Seq<char>) -> bool {
    &&& 0 <= i < before.len() == after.len()
    &&& forall|k: int| 0 <= k < before.len() && k != i ==> #[trigger] after[k] == before[k]
    &&& match (before[i], after[i]) {
        (ContentPartView::Text { text: was, .. }, ContentPartView::Text { text: now, .. }) => now == was + delta,
        (ContentPartView::Reasoning { text: was, .. }, ContentPartView::Reasoning { text: now, .. }) => now == was
            + delta,
        _ => false,
    }
}

/// A text delta goes to the open text segment, or begins one; it never touches
/// reasoning.
pub proof fn law_where_a_text_delta_goes(s: &mut ResponseMessageBuilder, delta: &str, metadata: Option<Json>)
    requires
        old(s)@.wf(),
        call_ensures(ResponseMessageBuilder::text_delta, (s, delta, metadata), ()),
    ensures
        old(s)@.text_at matches Some(i) ==> {
            &&& went_on(old(s)@.parts, final(s)@.parts, i as int, delta@)
            &&& final(s)@.parts[i as int] is Text
            &&& final(s)@.text_at == Some(i)
        },
        old(s)@.text_at is None ==> {
            &&& final(s)@.parts.len() == old(s)@.parts.len() + 1
            &&& final(s)@.parts.drop_last() == old(s)@.parts
            &&& final(s)@.parts.last() matches ContentPartView::Text { text, .. }
            &&& text == delta@
        },
        final(s)@.reasoning_at == old(s)@.reasoning_at,
{
    assert(final(s)@.parts.len() > 0 && old(s)@.text_at is None ==> final(s)@.parts.drop_last() =~= old(s)@.parts);
}

/// A reasoning delta goes to the open reasoning segment, or begins one; it
/// never touches text.
pub proof fn law_where_a_reasoning_delta_goes(s: &mut ResponseMessageBuilder, delta: &str, metadata: Option<Json>)
    requires
        old(s)@.wf(),
        call_ensures(ResponseMessageBuilder::reasoning_delta, (s, delta, metadata), ()),
    ensures
        old(s)@.reasoning_at matches Some(i) ==> {
            &&& went_on(old(s)@.parts, final(s)@.parts, i as int, delta@)
            &&& final(s)@.parts[i as int] is Reasoning
            &&& final(s)@.reasoning_at == Some(i)
        },
        old(s)@.reasoning_at is None ==> {
            &&& final(s)@.parts.len() == old(s)@.parts.len() + 1
            &&& final(s)@.parts.drop_last() == old(s)@.parts
            &&& final(s)@.parts.last() matches ContentPartView::Reasoning { text, .. }
            &&& text == delta@
        },
        final(s)@.text_at == old(s)@.text_at,
{
    assert(final(s)@.parts.len() > 0 && old(s)@.reasoning_at is None ==> final(s)@.parts.drop_last()
        =~= old(s)@.parts);
}

/// A segment that starts is a new, empty one at the end, and is the open one of
/// its kind; an end leaves none open and takes no text away.
pub proof fn law_segments_start_and_end(
    s: &mut ResponseMessageBuilder,
    t: &mut ResponseMessageBuilder,
    u: &mut ResponseMessageBuilder,
    v: &mut ResponseMessageBuilder,
    metadata: Option<Json>,
)
    requires
        old(u)@.wf(),
        old(v)@.wf(),
        old(s)@.wf(),
        old(t)@.wf(),
        call_ensures(ResponseMessageBuilder::text_start, (s, metadata), ()),
        call_ensures(ResponseMessageBuilder::reasoning_start, (t, metadata), ()),
        call_ensures(ResponseMessageBuilder::text_end, (u, metadata), ()),
        call_ensures(ResponseMessageBuilder::reasoning_end, (v, metadata), ()),
    ensures
        final(s)@.parts.len() == old(s)@.parts.len() + 1,
        final(s)@.parts.last() matches ContentPartView::Text { text, .. } && text.len() == 0,
        final(s)@.text_at == Some(old(s)@.parts.len() as usize),
        final(s)@.reasoning_at == old(s)@.reasoning_at,
        final(t)@.parts.len() == old(t)@.parts.len() + 1,
        final(t)@.parts.last() matches ContentPartView::Reasoning { text, .. } && text.len() == 0,
        final(t)@.reasoning_at == Some(old(t)@.parts.len() as usize),
        final(t)@.text_at == old(t)@.text_at,
        final(u)@.text_at is None,
        final(u)@.reasoning_at == old(u)@.reasoning_at,
        old(u)@.text_at matches Some(i) ==> went_on(old(u)@.parts, final(u)@.parts, i as int, Seq::empty()),
        old(u)@.text_at is None ==> final(u)@ == old(u)@,
        final(v)@.reasoning_at is None,
        final(v)@.text_at == old(v)@.text_at,
        old(v)@.reasoning_at matches Some(i) ==> went_on(old(v)@.parts, final(v)@.parts, i as int, Seq::empty()),
        old(v)@.reasoning_at is None ==> final(v)@ == old(v)@,
{
}

/// A call and a result are added at the end under their own facts; a
/// preliminary result is not.
pub proof fn law_calls_and_results_are_retold(
    s: &mut ResponseMessageBuilder,
    t: &mut ResponseMessageBuilder,
    call: &ToolCall,
    result: &ToolResultPart,
)
    requires
        call_ensures(ResponseMessageBuilder::tool_call, (s, call), ()),
        call_ensures(ResponseMessageBuilder::tool_result, (t, result), ()),
    ensures
        final(s)@.parts.len() == old(s)@.parts.len() + 1,
        final(s)@.parts.drop_last() == old(s)@.parts,
        ({
            &&& final(s)@.parts.last() matches ContentPartView::ToolCall {
                tool_call_id,
                tool_name,
                input,
                provider_executed,
                thought_signature,
                provider_options,
            }
            &&& tool_call_id == call@.tool_call_id
            &&& tool_name == call@.tool_name
            &&& call@.invalid != Some(true) ==> input == call@.input
            &&& provider_executed == call@.provider_executed
            &&& thought_signature == call@.thought_signature
            &&& provider_options == call@.provider_metadata
        }),
        result@.preliminary == Some(true) ==> final(t)@ == old(t)@,
        result@.preliminary != Some(true) ==> {
            &&& final(t)@.parts.len() == old(t)@.parts.len() + 1
            &&& final(t)@.parts.drop_last() == old(t)@.parts
            &&& final(t)@.parts.last() matches ContentPartView::ToolResult {
                tool_call_id,
                tool_name,
                output,
                is_error,
                provider_options,
            }
            &&& tool_call_id == result@.tool_call_id
            &&& tool_name == result@.tool_name
            &&& output == result@.result
            &&& is_error == result@.is_error
            &&& provider_options == result@.provider_metadata
        },
{
    assert(final(s)@.parts.drop_last() =~= old(s)@.parts);
    assert(result@.preliminary != Some(true) ==> final(t)@.parts.drop_last() =~= old(t)@.parts);
}

/// Whether a part says nothing: an empty text.
pub open spec fn is_mute(part: ContentPartView) -> bool {
    part matches ContentPartView::Text { text, .. } && text.len() == 0
}

proof fn lemma_spoken_is_what_is_not_mute(parts: Seq<ContentPartView>)
    ensures
        spoken(parts) == parts.filter(|part: ContentPartView| !is_mute(part)),
    decreases parts.len(),
{
    reveal(Seq::filter);
    if parts.len() > 0 {
        lemma_spoken_is_what_is_not_mute(parts.drop_last());
    }
}

/// What was collected is left as one assistant message with every part but the
/// empty texts, in order, or as none where nothing is left; and its reasoning
/// apart, in order.
pub proof fn law_what_is_left_of_what_was_said(builder: ResponseMessageBuilder, r: ResponseMessages)
    requires
        call_ensures(ResponseMessageBuilder::finish, (builder,), r),
    ensures
        ({
            let left = builder@.parts.filter(|part: ContentPartView| !is_mute(part));
            &&& left.len() == 0 ==> r.messages@.len() == 0
            &&& left.len() > 0 ==> {
                &&& r.messages@.len() == 1
                &&& r.messages@[0].role is Assistant
                &&& r.messages@[0]@.content == MessageContentView::Parts(left)
            }
        }),
        reasonings_view(r.reasoning@) == reasoning_among(builder@.parts),
{
    lemma_spoken_is_what_is_not_mute(builder@.parts);
    lemma_thoughts(builder@.parts);
    assert(messages_view(r.messages@).len() == r.messages@.len());
    if r.messages@.len() > 0 {
        assert(messages_view(r.messages@)[0] == r.messages@[0]@);
    }
}

// Driving a stream.

/// One turn of a pump stops at an abort, fails at a deadline that has come, and
/// hands on what arrived in time.
pub proof fn law_what_a_turn_does(s: &mut StreamPump, aborted: bool, now: u64, arrival: Arrival, r: PumpStep)
    requires
        call_ensures(StreamPump::turn, (s, aborted, now, arrival), r),
        !old(s)@.ended,
    ensures
        aborted ==> final(s)@.ended && r is Stop,
        !aborted && has_come(old(s)@.operation_deadline, now) ==> {
            &&& final(s)@.ended
            &&& r@ == PumpStepView::SendLast(Err(old(s)@.operation_deadline->0.failure()))
        },
        !aborted && !has_come(old(s)@.operation_deadline, now) && has_come(old(s)@.chunk_deadline, now) ==> {
            &&& final(s)@.ended
            &&& r@ == PumpStepView::SendLast(Err(old(s)@.chunk_deadline->0.failure()))
        },
        !aborted && !has_come(old(s)@.operation_deadline, now) && !has_come(old(s)@.chunk_deadline, now) && (
        old(s)@.chunk_ms matches Some(ms) ==> now + ms <= u64::MAX) ==> match arrival@ {
            ArrivalView::Pending => r is Wait && final(s)@ == old(s)@,
            ArrivalView::End => r is Stop && final(s)@.ended,
            ArrivalView::Item(item) => {
                &&& r@ == (if is_last(item) {
                    PumpStepView::SendLast(item)
                } else {
                    PumpStepView::Send(item)
                })
                &&& final(s)@.ended == is_last(item)
                &&& final(s)@.operation_deadline == old(s)@.operation_deadline
                &&& final(s)@.chunk_ms == old(s)@.chunk_ms
                &&& if item matches Ok(part) && brings_output(part) {
                    is_set(final(s)@.chunk_deadline, Limit::Chunk, old(s)@.chunk_ms, now)
                } else {
                    final(s)@.chunk_deadline == old(s)@.chunk_deadline
                }
            },
        },
{
}

/// One turn of a tap reports an abort once, and hands on what arrived.
pub proof fn law_what_a_consumer_reads(s: &mut StreamTap, aborted: bool, arrival: Arrival, r: PumpStep)
    requires
        call_ensures(StreamTap::turn, (s, aborted, arrival), r),
    ensures
        old(s).ended() ==> final(s).ended() && r is Stop,
        !old(s).ended() && aborted ==> {
            &&& final(s).ended()
            &&& r matches PumpStep::SendLast(Err(error))
            &&& error@ is Aborted
        },
        !old(s).ended() && !aborted ==> match arrival@ {
            ArrivalView::Pending => r is Wait && !final(s).ended(),
            ArrivalView::End => r is Stop && final(s).ended(),
            ArrivalView::Item(item) => {
                &&& final(s).ended() == is_last(item)
                &&& r@ == (if is_last(item) {
                    PumpStepView::SendLast(item)
                } else {
                    PumpStepView::Send(item)
                })
            },
        },
{
}

// Generations.

/// Looking at a generation that nothing stops changes nothing; what stops one
/// ends it, and is reported.
pub proof fn law_what_a_look_at_a_generation_does(s: &mut TextGeneration, aborted: bool, now: u64, r: GenerationStep)
    requires
        call_ensures(TextGeneration::tick, (s, aborted, now), r),
        !(old(s)@.phase is Ended),
    ensures
        match old(s)@.control.failure(aborted, now) {
            None => r is Wait && final(s)@ == old(s)@,
            Some(error) => {
                &&& r matches GenerationStep::Failed(told)
                &&& told@ == error
                &&& final(s)@.phase is Ended
            },
        },
{
}

/// A provider's failure is tried again or reported; its answer is the result,
/// or waits for the repair of a call.
pub proof fn law_what_an_answer_does(
    s: &mut TextGeneration,
    answer: Result<GenerateResult, AiMuxError>,
    aborted: bool,
    now: u64,
    r: GenerationStep,
)
    requires
        call_ensures(TextGeneration::answered, (s, answer, aborted, now), r),
        old(s)@.phase is Calling,
        old(s)@.control.failure(aborted, now) is None,
    ensures
        final(s)@.parsing == old(s)@.parsing,
        final(s)@.control == old(s)@.control,
        final(s)@.max_retries == old(s)@.max_retries,
        answer matches Err(error) ==> {
            let again = may_be_tried_again(error@) && old(s)@.failures.len() < old(s)@.max_retries;
            &&& final(s)@.failures == old(s)@.failures.push(error@)
            &&& again ==> r is Call && final(s)@.phase is Calling
            &&& !again ==> {
                &&& final(s)@.phase is Ended
                &&& r matches GenerationStep::Failed(told)
                &&& old(s)@.failures.len() == 0 ==> told@ == error@
                &&& old(s)@.failures.len() > 0 ==> (told@ matches AiMuxErrorView::Retry(_, list) && list
                    == old(s)@.failures.push(error@))
            }
        },
        answer matches Ok(result) ==> {
            &&& final(s)@.failures == old(s)@.failures
            &&& match r@ {
                GenerationStepView::Done(done) => final(s)@.phase is Ended && done == result_of(
                    result@,
                    done.tool_calls,
                ),
                GenerationStepView::Ask(context) => {
                    &&& final(s)@.phase matches PhaseView::Asking { result: held, call, error, .. }
                    &&& held == result@
                    &&& context.tool_call == call
                    &&& context.error == error
                },
                _ => false,
            }
            &&& calls_in(result@.content).len() == 0 ==> r is Done
        },
{
    let said = choose|said: Seq<Seq<char>>|
        (final(s)@, r@) == #[trigger] old(s)@.answered(answer_told(answer), aborted, now, said);
    match answer {
        Ok(result) => law_an_answer_is_the_result(old(s)@, result@, aborted, now, said),
        Err(error) => law_a_failed_call(old(s)@, error@, aborted, now, said),
    }
}

/// A stream that opens runs; one that does not is asked for again or reported.
pub proof fn law_what_an_opening_does(
    s: &mut StreamGeneration,
    answer: Result<(), AiMuxError>,
    aborted: bool,
    now: u64,
    r: StreamStep,
)
    requires
        call_ensures(StreamGeneration::opened, (s, answer, aborted, now), r),
        old(s)@.phase is Opening,
        old(s)@.ticked(aborted, now).1 is Wait,
    ensures
        answer is Ok ==> {
            &&& final(s)@ == old(s)@.in_phase(StreamPhaseView::Open)
            &&& r matches StreamStep::Open(pump)
            &&& pump@.operation_deadline == old(s)@.control.deadline
            &&& pump@.chunk_deadline == old(s)@.control.first_chunk
            &&& pump@.chunk_ms == old(s)@.chunk_ms
            &&& !pump@.ended
        },
        answer matches Err(error) ==> {
            let again = may_be_tried_again(error@) && old(s)@.failures.len() < old(s)@.max_retries;
            &&& final(s)@.failures == old(s)@.failures.push(error@)
            &&& again ==> r is Call && final(s)@.phase is Opening
            &&& !again ==> {
                &&& final(s)@.phase is Ended
                &&& r matches StreamStep::Failed(told)
                &&& old(s)@.failures.len() == 0 ==> told@ == error@
            }
        },
{
    let told: Result<(), AiMuxErrorView> = match answer {
        Ok(_) => Ok(()),
        Err(error) => Err(error@),
    };
    law_a_stream_opens(old(s)@, told, aborted, now);
}

/// An item of an open stream is handed on as it is, unless it is a call; the
/// last one ends the stream.
pub proof fn law_what_an_item_does(s: &mut StreamGeneration, item: StreamItem, aborted: bool, now: u64, r: StreamStep)
    requires
        call_ensures(StreamGeneration::on_item, (s, item, aborted, now), r),
        old(s)@.phase is Open,
        !(item_view(item) matches Ok(part) && part is ToolCall),
    ensures
        r matches StreamStep::Yield(told) && item_view(told) == item_view(item),
        is_last(item_view(item)) ==> final(s)@ == old(s)@.in_phase(StreamPhaseView::Ended),
        !is_last(item_view(item)) ==> final(s)@ == old(s)@,
{
    let said = choose|said: Seq<char>|
        (final(s)@, r@) == #[trigger] old(s)@.on_item(item_view(item), aborted, now, said);
    law_an_open_stream_goes_on(old(s)@, item_view(item), aborted, now, said);
}

// Operations.

/// What ends an operation is its end, unless it had ended before.
pub proof fn law_how_an_operation_ends(
    s: &mut Operation,
    t: &mut Operation,
    result: Result<(), AiMuxError>,
    aborted: bool,
    now: u64,
)
    requires
        call_ensures(Operation::finish, (s, result), ()),
        call_ensures(Operation::conclude, (t, result, aborted, now), ()),
    ensures
        old(s)@.terminal is Some ==> final(s)@ == old(s)@,
        old(s)@.terminal is None ==> {
            &&& final(s)@.terminal matches Some(end)
            &&& result is Ok <==> end is Ok
            &&& result matches Err(error) ==> end == Err::<(), AiMuxErrorView>(error@)
            &&& final(s)@.output == (if result is Ok {
                old(s)@.output
            } else {
                Seq::empty()
            })
            &&& final(s)@.pending is None
            &&& final(s)@.answer == old(s)@.answer
            &&& final(s)@.next_id == old(s)@.next_id
        },
        old(t)@.terminal is Some ==> final(t)@ == old(t)@,
        old(t)@.terminal is None ==> {
            &&& final(t)@.terminal matches Some(end)
            &&& result matches Err(error) ==> end == Err::<(), AiMuxErrorView>(error@)
            &&& result is Ok ==> match old(t)@.control.failure(aborted, now) {
                Some(error) => end == Err::<(), AiMuxErrorView>(error),
                None => end is Ok,
            }
        },
{
}

/// An event is queued behind the others while there is room and the operation
/// goes on; it is handed back where the queue is full.
pub proof fn law_how_an_event_is_sent(s: &mut Operation, event: Event, aborted: bool, now: u64, r: SendStep)
    requires
        call_ensures(Operation::send, (s, event, aborted, now), r),
    ensures
        r is Sent <==> old(s)@.terminal is None && old(s)@.output.len() < 64,
        r is Sent ==> final(s)@ == (OperationView { output: old(s)@.output.push(event@), ..old(s)@ }),
        !(r is Sent) ==> final(s)@ == old(s)@,
        r matches SendStep::Full(back) ==> back == event,
        old(s)@.terminal matches Some(Err(error)) ==> (r matches SendStep::Refused(told) && told@ == error),
        old(s)@.terminal is None && old(s)@.output.len() >= 64 ==> match old(s)@.control.failure(aborted, now) {
            Some(error) => r matches SendStep::Refused(told) && told@ == error,
            None => r is Full,
        },
{
}

/// A request for a repair gets the next number and waits under it.
pub proof fn law_how_a_repair_is_requested(
    s: &mut Operation,
    context: ToolCallRepairContext,
    r: Result<u64, AiMuxError>,
)
    requires
        call_ensures(Operation::request_repair, (s, context), r),
    ensures
        r is Ok <==> old(s)@.terminal is None && old(s)@.pending is None && old(s)@.next_id < u64::MAX,
        r is Err ==> final(s)@ == old(s)@,
        r matches Ok(id) ==> {
            &&& id == old(s)@.next_id
            &&& final(s)@.next_id == id + 1
            &&& final(s)@.pending matches Some(pending)
            &&& pending.id == id
            &&& pending.request matches Some(EventView::RepairRequest { request_id, context: told })
            &&& request_id == decimal(id as nat)
            &&& told == host_context(context@)
            &&& final(s)@.output == old(s)@.output
            &&& final(s)@.terminal is None
        },
{
}

/// The driver hears the reply to its own request, and takes it away.
pub proof fn law_how_an_answer_is_taken(s: &mut Operation, id: u64, aborted: bool, now: u64, r: AnswerStep)
    requires
        call_ensures(Operation::take_answer, (s, id, aborted, now), r),
    ensures
        ({
            let answered = old(s)@.answer matches Some((own, _)) && own == id;
            let waits = old(s)@.pending matches Some(pending) && pending.id == id;
            &&& answered ==> {
                &&& final(s)@ == (OperationView { answer: None, ..old(s)@ })
                &&& r@ == AnswerView::Answered(core_answer((old(s)@.answer->0).1))
            }
            &&& !answered ==> final(s)@ == old(s)@
            &&& !answered && waits ==> r is Wait
            &&& !answered && !waits ==> (r matches AnswerStep::Answered(Err(_)))
        }),
{
}

/// A lane is claimed by one reader: by asking for it where it is free, and for
/// both where both are asked for; releasing it frees it.
pub proof fn law_how_lanes_are_claimed(s: &mut Operation, t: &mut Operation, lane: Lane, r: bool)
    requires
        call_ensures(Operation::claim, (s, lane), r),
        call_ensures(Operation::release, (t, lane), ()),
    ensures
        ({
            let control = lane is Control || lane is Any;
            let output = lane is Output || lane is Any;
            &&& r <==> !(control && old(s)@.control_claimed) && !(output && old(s)@.output_claimed)
            &&& !r ==> final(s)@ == old(s)@
            &&& r ==> {
                &&& final(s)@.control_claimed == (control || old(s)@.control_claimed)
                &&& final(s)@.output_claimed == (output || old(s)@.output_claimed)
            }
            &&& final(s)@.output == old(s)@.output && final(s)@.terminal == old(s)@.terminal && final(s)@.pending
                == old(s)@.pending
            &&& final(t)@.control_claimed == (!control && old(t)@.control_claimed)
            &&& final(t)@.output_claimed == (!output && old(t)@.output_claimed)
            &&& final(t)@.output == old(t)@.output && final(t)@.terminal == old(t)@.terminal && final(t)@.pending
                == old(t)@.pending
        }),
{
}

/// A reader takes the request that waits, where its lane shows control, else
/// the oldest event, where it shows output; it waits while nothing is there and
/// the operation goes on.
pub proof fn law_how_a_lane_is_read(s: &mut Operation, lane: Lane, aborted: bool, now: u64, r: ReadStep)
    requires
        call_ensures(Operation::next, (s, lane, aborted, now), r),
        old(s)@.wf(),
        old(s)@.control.failure(aborted, now) is None,
    ensures
        ({
            let asks = old(s)@.pending matches Some(pending) && pending.request is Some;
            let control = lane is Control || lane is Any;
            let output = lane is Output || lane is Any;
            &&& control && asks ==> r@ == ReadView::Ready(NextView::Event(old(s)@.pending->0.request->0))
                && final(s)@.output == old(s)@.output
            &&& !(control && asks) && output && old(s)@.output.len() > 0 ==> {
                &&& r@ == ReadView::Ready(NextView::Event(old(s)@.output[0]))
                &&& final(s)@ == (OperationView { output: old(s)@.output.drop_first(), ..old(s)@ })
            }
            &&& !(control && asks) && !(output && old(s)@.output.len() > 0) && old(s)@.terminal is None ==> {
                &&& r is Wait
                &&& final(s)@ == old(s)@
            }
            &&& !output && old(s)@.terminal is Some ==> r@ == ReadView::Ready(NextView::Ended)
            &&& output && old(s)@.output.len() == 0 && !old(s)@.terminal_read ==> (old(s)@.terminal matches Some(
                Err(error),
            ) ==> r@ == ReadView::Failed(error))
        }),
{
}

/// A reply answers the request that waits under its id, and no other.
pub proof fn law_how_a_reply_is_taken(
    s: &mut Operation,
    request_id: &str,
    reply: Reply,
    aborted: bool,
    now: u64,
    r: ReplyStatus,
)
    requires
        call_ensures(Operation::reply, (s, request_id, reply, aborted, now), r),
        old(s)@.wf(),
        old(s)@.control.failure(aborted, now) is None,
    ensures
        r is OperationEnded <==> old(s)@.terminal is Some,
        r is Accepted <==> {
            &&& old(s)@.terminal is None
            &&& old(s)@.pending matches Some(pending)
            &&& request_id@ == decimal(pending.id as nat)
        },
        r is Accepted ==> final(s)@ == (OperationView {
            pending: None,
            answer: Some((old(s)@.pending->0.id, reply@)),
            ..old(s)@
        }),
        !(r is Accepted) ==> final(s)@ == old(s)@,
{
    if old(s)@.pending is Some {
        let own = old(s)@.pending->0.id;
        assert(1 <= own < old(s)@.next_id);
        assert(decimal(own as nat) == decimal(own as nat));
    }
}

/// Cancelling an operation aborts its signal and ends it as aborted, unless it
/// had ended.
pub proof fn law_how_an_operation_is_cancelled(s: &mut Operation, aborted: &mut bool)
    requires
        call_ensures(Operation::cancel, (s, aborted), ()),
    ensures
        *final(aborted),
        old(s)@.terminal is Some ==> final(s)@ == old(s)@,
        old(s)@.terminal is None ==> (final(s)@.terminal matches Some(Err(error)) && error is Aborted),
{
}

// Handles.

/// What is kept is kept under a new handle, and nothing else changes; where the
/// numbers have run out nothing is kept and the handle is none.
pub proof fn law_how_a_value_is_kept<T, S>(
    s: &mut Registry<T, S>,
    kind: HandleKind,
    value: T,
    r: u64,
)
    requires
        call_ensures(Registry::<T, S>::intern_handle, (s, kind, value), r),
        old(s)@.wf(),
    ensures
        r == 0 ==> final(s)@ == old(s)@,
        r != 0 ==> {
            &&& !old(s)@.entries.dom().contains(r)
            &&& final(s)@.entries.dom().contains(r)
            &&& final(s)@.entries[r].kind == kind
            &&& final(s)@.entries[r].value == value
            &&& final(s)@.traces == old(s)@.traces
        },
        forall|h: u64|
            h != r ==> (#[trigger] final(s)@.entries.dom().contains(h) <==> old(s)@.entries.dom().contains(h)) && (
            old(s)@.entries.dom().contains(h) ==> final(s)@.entries[h] == old(s)@.entries[h]),
{
}

/// A traced model is kept together with its store, under one handle.
pub proof fn law_how_a_traced_model_is_kept<T, S>(s: &mut Registry<T, S>, value: T, store: S, r: u64)
    requires
        call_ensures(Registry::<T, S>::intern_traced, (s, value, store), r),
        old(s)@.wf(),
    ensures
        r == 0 ==> final(s)@ == old(s)@,
        r != 0 ==> {
            &&& final(s)@.holds(r, HandleKind::Language)
            &&& final(s)@.entries[r].value == value
            &&& final(s)@.traces.dom().contains(r)
            &&& final(s)@.traces[r] == store
        },
{
}

/// Whether two registries keep the same under every handle but one.
pub open spec fn keeps_the_others<T, S>(before: RegistryView<T, S>, after: RegistryView<T, S>, handle: u64) -> bool {
    forall|h: u64|
        h != handle ==> (#[trigger] after.entries.dom().contains(h) <==> before.entries.dom().contains(h)) && (
        before.entries.dom().contains(h) ==> after.entries[h] == before.entries[h])
}

/// A dropped handle gives back what it kept and keeps nothing any more; every
/// other handle lives on, and one of another kind survives.
pub proof fn law_how_handles_are_dropped<T, S>(
    s: &mut Registry<T, S>,
    t: &mut Registry<T, S>,
    u: &mut Registry<T, S>,
    handle: u64,
    kind: HandleKind,
    dropped: Option<HandleEntry<T>>,
    dropped_of: Option<HandleEntry<T>>,
    entry: Option<HandleEntry<T>>,
)
    requires
        call_ensures(Registry::<T, S>::drop_handle, (s, handle), dropped),
        call_ensures(Registry::<T, S>::drop_handle_of, (t, handle, kind), dropped_of),
        call_ensures(Registry::<T, S>::drop_entry, (u, handle), entry),
    ensures
        dropped == (if old(s)@.entries.dom().contains(handle) {
            Some(old(s)@.entries[handle])
        } else {
            None
        }),
        !final(s)@.entries.dom().contains(handle) && !final(s)@.traces.dom().contains(handle),
        keeps_the_others(old(s)@, final(s)@, handle),
        dropped_of == (if old(t)@.entries.dom().contains(handle) && old(t)@.entries[handle].kind == kind {
            Some(old(t)@.entries[handle])
        } else {
            None
        }),
        dropped_of is Some ==> !final(t)@.entries.dom().contains(handle),
        dropped_of is None ==> final(t)@ == old(t)@,
        keeps_the_others(old(t)@, final(t)@, handle),
        entry == (if old(u)@.entries.dom().contains(handle) {
            Some(old(u)@.entries[handle])
        } else {
            None
        }),
        !final(u)@.entries.dom().contains(handle),
        final(u)@.traces == old(u)@.traces,
        keeps_the_others(old(u)@, final(u)@, handle),
{
}

/// A call is entered once; a call from inside it is refused and leaves it under
/// way, until it is left.
pub proof fn law_how_calls_are_guarded(s: &mut CallGuard, t: &mut CallGuard, r: Result<(), FfiError>)
    requires
        call_ensures(CallGuard::enter, (s,), r),
        call_ensures(CallGuard::leave, (t,), ()),
    ensures
        r is Ok <==> !old(s).busy(),
        r matches Err(error) ==> error@ is ReentrantCall,
        final(s).busy(),
        !final(t).busy(),
{
}

} // verus!
