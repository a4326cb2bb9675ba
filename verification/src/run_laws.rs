//! How a generation runs: what bounds it, when it is tried again, and what it
//! hands on.
use crate::answer_laws::{breaks_off, brings_output};
use crate::error::AiMuxErrorView;
use crate::error_text::{after_failures, RetryStepView};
use crate::generate::{calls_in, raw_of, result_of};
use crate::generate_options::{sent_messages, GenerateOptionsView};
use crate::generation::{
    call_for, chunk_limit, control_for, parsing_for, retries_for, GenerationStepView, GenerationView, ParsingView,
    PhaseView, StreamGenerationView, StreamPhaseView, StreamStepView,
};
use crate::generation_control::{armed, earlier, started, ControlView, Limit, TimeoutDeadline};
use crate::message::ModelMessageView;
use crate::options::{AbortSignal, TimeoutConfiguration};
use crate::parse_tool_call::{first_step, RepairOutcomeView, StepView};
use crate::result::GenerateResultView;
use crate::stream_part::{StreamItemView, StreamPartView};
use crate::stream_pump::{tapped, ArrivalView, PumpStepView, PumpView};
use crate::text::decimal;
use crate::tool::{RawToolCallView, ToolCallView};
use vstd::prelude::*;

verus! {

// Deadlines.

/// Whether a deadline is there and has come.
pub open spec fn has_come(deadline: Option<TimeoutDeadline>, now: u64) -> bool {
    deadline matches Some(deadline) && deadline.at <= now
}

/// Whether a deadline is the one that a limit sets from `start`.
pub open spec fn is_set(deadline: Option<TimeoutDeadline>, limit: Limit, duration_ms: Option<u64>, start: u64) -> bool {
    match duration_ms {
        None => deadline is None,
        Some(ms) => deadline matches Some(d) && d.limit == limit && d.duration_ms == ms && d.at == start + ms,
    }
}

/// The earlier of two deadlines is one of them, and neither comes before it;
/// where there is only one it is that one.
pub proof fn law_the_earlier_deadline(a: Option<TimeoutDeadline>, b: Option<TimeoutDeadline>, now: u64)
    ensures
        earlier(a, b) == a || earlier(a, b) == b,
        has_come(earlier(a, b), now) <==> has_come(a, now) || has_come(b, now),
        a is None ==> earlier(a, b) == b,
        b is None ==> earlier(a, b) == a,
        a is Some && b is Some && a->0.at == b->0.at ==> earlier(a, b) == a,
{
}

/// A deadline lies its duration behind the start, and carries the limit that
/// set it; what the clock cannot express is refused.
pub proof fn law_a_deadline_lies_its_duration_ahead(limit: Limit, duration_ms: u64, now: u64)
    ensures
        match armed(limit, duration_ms, now) {
            Ok(deadline) => is_set(Some(deadline), limit, Some(duration_ms), now),
            Err(error) => error is InvalidArgument && now + duration_ms > u64::MAX,
        },
{
}

/// What a control is bound by: the total and the step limit, whichever is
/// shorter, the first output by its own limit, and the signal that it was given.
pub proof fn law_a_control_is_bound_by_its_configuration(
    configuration: TimeoutConfiguration,
    signal: Option<AbortSignal>,
    start: u64,
)
    ensures
        match started(configuration, signal, start) {
            Ok(control) => {
                &&& control.signal == signal
                &&& is_set(control.first_chunk, Limit::FirstChunk, configuration.first_chunk_ms, start)
                &&& match (configuration.total_ms, configuration.step_ms) {
                    (Some(total), Some(step)) => if step < total {
                        is_set(control.deadline, Limit::Step, Some(step), start)
                    } else {
                        is_set(control.deadline, Limit::Total, Some(total), start)
                    },
                    (total, None) => is_set(control.deadline, Limit::Total, total, start),
                    (None, step) => is_set(control.deadline, Limit::Step, step, start),
                }
            },
            Err(error) => {
                &&& error is InvalidArgument
                &&& {
                    ||| configuration.total_ms matches Some(ms) && start + ms > u64::MAX
                    ||| configuration.step_ms matches Some(ms) && start + ms > u64::MAX
                    ||| configuration.first_chunk_ms matches Some(ms) && start + ms > u64::MAX
                }
            },
        },
{
}

/// A generation has to stop when its signal says so or its deadline has come,
/// and only then; the signal counts first.
pub proof fn law_when_a_generation_has_to_stop(control: ControlView, aborted: bool, now: u64)
    ensures
        match control.failure(aborted, now) {
            None => !(aborted && control.signal is Some) && !has_come(control.deadline, now),
            Some(AiMuxErrorView::Aborted(_)) => aborted && control.signal is Some,
            Some(AiMuxErrorView::Timeout(words)) => {
                &&& !(aborted && control.signal is Some)
                &&& has_come(control.deadline, now)
                &&& AiMuxErrorView::Timeout(words) == control.deadline->0.failure()
            },
            Some(_) => false,
        },
{
}

/// What a limit is called.
pub open spec fn is_called(limit: Limit, words: Seq<char>) -> bool {
    ||| limit == Limit::Total && words == "Total"@
    ||| limit == Limit::Step && words == "Step"@
    ||| limit == Limit::FirstChunk && words == "First chunk"@
    ||| limit == Limit::Chunk && words == "Chunk"@
}

/// A deadline that has passed is reported as a timeout that names its limit
/// and its duration.
pub proof fn law_a_timeout_names_its_limit(deadline: TimeoutDeadline)
    ensures
        deadline.failure() matches AiMuxErrorView::Timeout(words) && exists|name: Seq<char>|
            is_called(deadline.limit, name) && words == #[trigger] (name + " timeout of "@) + decimal(
                deadline.duration_ms as nat,
            ) + "ms exceeded"@,
{
    let name = deadline.limit.label();
    assert(is_called(deadline.limit, name));
    assert(deadline.failure() == AiMuxErrorView::Timeout(
        (name + " timeout of "@) + decimal(deadline.duration_ms as nat) + "ms exceeded"@,
    ));
}

// Driving a stream.

/// Whether an item is the last of its stream.
pub open spec fn is_last(item: StreamItemView) -> bool {
    breaks_off(item) || (item matches Ok(part) && part is Finish)
}

/// An abort comes before the deadlines, the operation's deadline before that of
/// the output, and a deadline before what has arrived.
pub proof fn law_what_stops_a_pump(pump: PumpView, aborted: bool, now: u64, arrival: ArrivalView)
    requires
        !pump.ended,
    ensures
        ({
            let (after, step) = pump.turn(aborted, now, arrival);
            &&& aborted ==> after.ended && step is Stop
            &&& !aborted && has_come(pump.operation_deadline, now) ==> {
                &&& after.ended
                &&& step == PumpStepView::SendLast(Err(pump.operation_deadline->0.failure()))
            }
            &&& !aborted && !has_come(pump.operation_deadline, now) && has_come(pump.chunk_deadline, now) ==> {
                &&& after.ended
                &&& step == PumpStepView::SendLast(Err(pump.chunk_deadline->0.failure()))
            }
        }),
{
}

/// What arrives in time is handed on as it is, at once, and the last item of
/// the stream as the last; where nothing arrives the pump waits.
pub proof fn law_a_pump_hands_on_what_arrives_in_time(pump: PumpView, now: u64, arrival: ArrivalView)
    requires
        !pump.ended,
        !has_come(pump.operation_deadline, now),
        !has_come(pump.chunk_deadline, now),
        pump.chunk_ms matches Some(ms) ==> now + ms <= u64::MAX,
    ensures
        ({
            let (after, step) = pump.turn(false, now, arrival);
            match arrival {
                ArrivalView::Pending => step is Wait && after == pump,
                ArrivalView::End => step is Stop && after.ended,
                ArrivalView::Item(item) => {
                    &&& step == (if is_last(item) {
                        PumpStepView::SendLast(item)
                    } else {
                        PumpStepView::Send(item)
                    })
                    &&& after.ended == is_last(item)
                    &&& after.operation_deadline == pump.operation_deadline
                    &&& after.chunk_ms == pump.chunk_ms
                    &&& if item matches Ok(part) && brings_output(part) {
                        is_set(after.chunk_deadline, Limit::Chunk, pump.chunk_ms, now)
                    } else {
                        after.chunk_deadline == pump.chunk_deadline
                    }
                },
            }
        }),
{
}

/// A consumer that aborts reads so at once, unless its stream had ended; what
/// arrives otherwise is handed on as it is.
pub proof fn law_a_tap_hands_on_what_arrives(ended: bool, aborted: bool, arrival: ArrivalView)
    ensures
        ({
            let (after, step) = tapped(ended, aborted, arrival);
            &&& ended ==> after && step is Stop
            &&& !ended && aborted ==> after && (step matches PumpStepView::SendLast(Err(error)) && error is Aborted)
            &&& !ended && !aborted ==> match arrival {
                ArrivalView::Pending => step is Wait && !after,
                ArrivalView::End => step is Stop && after,
                ArrivalView::Item(item) => {
                    &&& after == is_last(item)
                    &&& step == (if is_last(item) {
                        PumpStepView::SendLast(item)
                    } else {
                        PumpStepView::Send(item)
                    })
                },
            }
        }),
{
}

// Trying again.

/// Whether a failure may be tried again: the provider says so of its own
/// failures, and of no other is it said.
pub open spec fn may_be_tried_again(error: AiMuxErrorView) -> bool {
    error matches AiMuxErrorView::ApiCall(detail) && detail.is_retryable
}

/// A failure is tried again exactly when it may be and fewer attempts were
/// made than are allowed; what was given up says why.
pub proof fn law_when_a_failure_is_tried_again(failures: Seq<AiMuxErrorView>, max_retries: u32)
    requires
        failures.len() > 0,
    ensures
        after_failures(failures, max_retries) is Again <==> may_be_tried_again(failures[failures.len() - 1])
            && failures.len() - 1 < max_retries,
        after_failures(failures, max_retries) matches RetryStepView::GiveUp(error) ==> if failures.len() == 1 {
            error == failures[0]
        } else {
            &&& error matches AiMuxErrorView::Retry(reason, reported)
            &&& reported == failures
            &&& reason is MaxRetriesExceeded <==> may_be_tried_again(failures[failures.len() - 1])
        },
{
}

// Starting.

/// A generation runs under the control of the operation that it is part of, or
/// under the user's own limits and signal.
pub proof fn law_what_controls_a_generation(options: GenerateOptionsView, now: u64)
    ensures
        options.operation_control matches Some(control) ==> control_for(options, now) == Ok::<
            ControlView,
            AiMuxErrorView,
        >(control),
        options.operation_control is None ==> (options.timeout matches Some(timeout) ==> control_for(options, now)
            == started(timeout, options.abort_signal, now)),
        options.operation_control is None && options.timeout is None ==> (control_for(options, now) matches Ok(
            control,
        ) && control.deadline is None && control.first_chunk is None && control.signal == options.abort_signal),
{
}

/// A generation is tried again as often as the user allows, or as is usual;
/// between chunks it waits as long as the user allows, or for ever.
pub proof fn law_the_users_limits_hold(options: GenerateOptionsView, default_retries: u32)
    ensures
        options.max_retries matches Some(n) ==> retries_for(options, default_retries) == n,
        options.max_retries is None ==> retries_for(options, default_retries) == default_retries,
        options.timeout matches Some(timeout) ==> chunk_limit(options) == timeout.chunk_ms,
        options.timeout is None ==> chunk_limit(options) is None,
{
}

/// The calls of a generation are parsed with the user's tools, prompt and
/// instructions, and the provider is sent that prompt behind them.
pub proof fn law_a_generation_is_about_what_the_user_asked(
    messages: Seq<ModelMessageView>,
    options: GenerateOptionsView,
    repairs: bool,
)
    ensures
        parsing_for(messages, options, repairs).tools == options.tools,
        parsing_for(messages, options, repairs).messages == messages,
        parsing_for(messages, options, repairs).instructions == options.instructions,
        parsing_for(messages, options, repairs).repairs == repairs,
        call_for(messages, options).prompt == sent_messages(messages, options.instructions),
        call_for(messages, options).tools == options.tools,
{
}

// Answers.

/// A call that fails is left to a repair exactly where one may be asked for;
/// elsewhere it is done, as the invalid call that it is. A call that does not
/// fail is done either way.
pub proof fn law_what_is_left_to_a_repair(p: ParsingView, call: RawToolCallView, said: Seq<char>)
    ensures
        match first_step(call, p.tools, said) {
            StepView::Done(done) => p.judged(call, said) == StepView::Done(done),
            StepView::Failed(failed, error) => if p.repairs {
                p.judged(call, said) == StepView::Failed(failed, error)
            } else {
                p.judged(call, said) matches StepView::Done(done) && done.invalid == Some(true) && done.error == Some(
                    error,
                )
            },
        },
{
}

/// What a repair of a call is told comes from the generation: the call and its
/// error, and the tools, the messages and the instructions that it runs with.
pub proof fn law_a_repair_hears_of_the_generation(p: ParsingView, call: RawToolCallView, error: AiMuxErrorView)
    requires
        p.tools is Some,
    ensures
        p.context(call, error).tool_call == call,
        p.context(call, error).error == error,
        p.context(call, error).tools == p.tools->0,
        p.context(call, error).messages == p.messages,
        p.context(call, error).instructions == p.instructions,
{
}

/// A provider that fails is called again or its failure is reported; every
/// failure is kept, and nothing else about the generation changes.
pub proof fn law_a_failed_call(s: GenerationView, error: AiMuxErrorView, aborted: bool, now: u64, said: Seq<Seq<char>>)
    requires
        s.phase is Calling,
        s.control.failure(aborted, now) is None,
    ensures
        ({
            let (after, step) = s.answered(Err(error), aborted, now, said);
            let failures = s.failures.push(error);
            &&& after.failures == failures
            &&& after.parsing == s.parsing && after.control == s.control && after.max_retries == s.max_retries
            &&& may_be_tried_again(error) && s.failures.len() < s.max_retries ==> step is Call && after.phase is Calling
            &&& !(may_be_tried_again(error) && s.failures.len() < s.max_retries) ==> {
                &&& after.phase is Ended
                &&& step matches GenerationStepView::Failed(reported)
                &&& s.failures.len() == 0 ==> reported == error
                &&& s.failures.len() > 0 ==> (reported matches AiMuxErrorView::Retry(_, list) && list
                    == failures)
            }
        }),
{
    assert(s.failures.push(error).last() == error);
    assert(s.failures.push(error)[s.failures.len() as int] == error);
}

/// An answer whose calls all come through is the generation's result, made of
/// that answer; one whose call fails asks for that call's repair, and waits.
pub proof fn law_an_answer_is_the_result(
    s: GenerationView,
    result: GenerateResultView,
    aborted: bool,
    now: u64,
    said: Seq<Seq<char>>,
)
    requires
        s.phase is Calling,
        s.control.failure(aborted, now) is None,
    ensures
        ({
            let (after, step) = s.answered(Ok(result), aborted, now, said);
            &&& after.failures == s.failures
            &&& after.parsing == s.parsing && after.control == s.control && after.max_retries == s.max_retries
            &&& match step {
                GenerationStepView::Done(done) => {
                    &&& after.phase is Ended
                    &&& done == result_of(result, done.tool_calls)
                },
                GenerationStepView::Ask(context) => {
                    &&& after.phase matches PhaseView::Asking { result: held, call, error, .. }
                    &&& held == result
                    &&& context == s.parsing.context(call, error)
                },
                _ => false,
            }
            &&& calls_in(result.content).len() == 0 ==> step is Done && step->Done_0.tool_calls.len() == 0
        }),
{
}

/// While nothing stops a generation, looking at it changes nothing, and an
/// answer to what was not asked is passed over.
pub proof fn law_a_waiting_generation_waits(
    s: GenerationView,
    answer: Result<GenerateResultView, AiMuxErrorView>,
    repair: RepairOutcomeView,
    aborted: bool,
    now: u64,
    said: Seq<Seq<char>>,
)
    requires
        !(s.phase is Ended),
        s.control.failure(aborted, now) is None,
    ensures
        s.ticked(aborted, now) == (s, GenerationStepView::Wait),
        s.phase is Asking ==> s.answered(answer, aborted, now, said) == (s, GenerationStepView::Wait),
        s.phase is Calling ==> s.repaired(repair, aborted, now, said) == (s, GenerationStepView::Wait),
{
}

// Streamed generations.

/// The opening of a stream fails when the signal says so, or when the budget or
/// the limit for the first output has come, and only then.
pub proof fn law_when_opening_has_to_stop(s: StreamGenerationView, aborted: bool, now: u64)
    requires
        s.phase is Opening,
    ensures
        ({
            let (after, step) = s.ticked(aborted, now);
            let heard = aborted && s.control.signal is Some;
            let late = has_come(s.control.deadline, now) || has_come(s.control.first_chunk, now);
            &&& !heard && !late ==> after == s && step is Wait
            &&& heard || late ==> after == s.in_phase(StreamPhaseView::Ended) && step is Failed
            &&& heard ==> (step matches StreamStepView::Failed(error) && error is Aborted)
            &&& !heard && late ==> (step matches StreamStepView::Failed(error) && (error
                == s.control.deadline->0.failure() || error == s.control.first_chunk->0.failure()))
        }),
{
}

/// A stream that opens in time runs under the generation's budget and limits,
/// with the limit for the first output as it was set; one that does not open is
/// asked for again as a failed call is.
pub proof fn law_a_stream_opens(
    s: StreamGenerationView,
    answer: Result<(), AiMuxErrorView>,
    aborted: bool,
    now: u64,
)
    requires
        s.phase is Opening,
        s.ticked(aborted, now).1 is Wait,
    ensures
        ({
            let (after, step) = s.opened(answer, aborted, now);
            match answer {
                Ok(_) => {
                    &&& after == s.in_phase(StreamPhaseView::Open)
                    &&& step matches StreamStepView::Open(pump)
                    &&& pump.operation_deadline == s.control.deadline
                    &&& pump.chunk_deadline == s.control.first_chunk
                    &&& pump.chunk_ms == s.chunk_ms
                    &&& !pump.ended
                },
                Err(error) => {
                    &&& after.failures == s.failures.push(error)
                    &&& if may_be_tried_again(error) && s.failures.len() < s.max_retries {
                        step is Call && after.phase is Opening
                    } else {
                        &&& after.phase is Ended
                        &&& step matches StreamStepView::Failed(reported)
                        &&& s.failures.len() == 0 ==> reported == error
                        &&& s.failures.len() > 0 ==> (reported matches AiMuxErrorView::Retry(_, list) && list
                            == after.failures)
                    }
                },
            }
        }),
{
    if let Err(error) = answer {
        assert(s.failures.push(error).last() == error);
    }
}

/// An open stream goes on behind every item but its last, and is over behind
/// that.
pub proof fn law_an_open_stream_goes_on(
    s: StreamGenerationView,
    item: StreamItemView,
    aborted: bool,
    now: u64,
    said: Seq<char>,
)
    requires
        s.phase is Open,
        !(item matches Ok(part) && part is ToolCall),
    ensures
        s.on_item(item, aborted, now, said) == (
            if is_last(item) {
                s.in_phase(StreamPhaseView::Ended)
            } else {
                s
            },
            StreamStepView::Yield(item),
        ),
{
}

/// A streamed call that fails is asked about with everything that the
/// generation runs with, and waits; the stream opens again behind it.
pub proof fn law_a_streamed_call_waits_for_its_repair(
    s: StreamGenerationView,
    call: ToolCallView,
    aborted: bool,
    now: u64,
    said: Seq<char>,
)
    requires
        s.phase is Open,
    ensures
        ({
            let (after, step) = s.on_item(Ok(StreamPartView::ToolCall(call)), aborted, now, said);
            match s.parsing.judged(raw_of(call), said) {
                StepView::Done(done) => after == s && step == StreamStepView::Yield(Ok(StreamPartView::ToolCall(done))),
                StepView::Failed(failed, error) => {
                    &&& after == s.in_phase(StreamPhaseView::Asking { call: failed, error })
                    &&& step matches StreamStepView::Ask(context)
                    &&& context.tool_call == failed
                    &&& context.error == error
                    &&& context.messages == s.parsing.messages
                    &&& context.instructions == s.parsing.instructions
                },
            }
        }),
{
}

} // verus!
