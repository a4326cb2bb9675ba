//! One host-driven operation: its output queue, its repair requests, its
//! readers and its one terminal state. Every call is one atomic transition;
//! the driver around it waits and wakes. Transitions that observe a stop are
//! told the time, `now`, and what the operation's cancellation signal says,
//! `aborted`.
use crate::error::{error_view, AiMuxError, AiMuxErrorView};
use crate::generate_options::{no_options, GenerateOptionsView, GenerateTextOptions};
use crate::generation_control::{started, ControlView, GenerationControl, TimeoutDeadline};
use crate::json::{member, Json, JsonView};
use crate::options::{AbortSignal, TimeoutConfiguration};
use crate::parse_tool_call::{RepairContextView, ToolCallRepairContext};
use crate::protocol::{
    callback_view, core_answer, host_context, refusal, Event, EventView, Lane, Next, NextView, RepairContext,
    Reply, ReplyStatus, ReplyView, StartRequest,
};
use crate::stream_part::{item_view, StreamItem, StreamPart, StreamPartView};
use crate::text::{decimal, decimal_text, read_decimal};
use crate::tool::{RawToolCall, RawToolCallView};
use crate::wire::Fields;
use vstd::prelude::*;

verus! {

/// How many events may wait to be read.
pub const OUTPUT_CAPACITY: usize = 64;

struct Pending {
    id: u64,
    request: Option<Event>,
}

#[verifier::ext_equal]
pub struct PendingView {
    pub id: u64,
    /// The request, as long as no host has read it.
    pub request: Option<EventView>,
}

/// One operation.
pub struct Operation {
    terminal: Option<Result<(), AiMuxError>>,
    terminal_read: bool,
    output: Vec<Event>,
    pending: Option<Pending>,
    next_id: u64,
    answer: Option<(u64, Reply)>,
    control_claimed: bool,
    output_claimed: bool,
    control: GenerationControl,
}

pub type Terminal = Result<(), AiMuxErrorView>;

#[verifier::ext_equal]
pub struct OperationView {
    pub terminal: Option<Terminal>,
    pub terminal_read: bool,
    pub output: Seq<EventView>,
    pub pending: Option<PendingView>,
    pub next_id: u64,
    /// The accepted reply, until the driver takes it.
    pub answer: Option<(u64, ReplyView)>,
    pub control_claimed: bool,
    pub output_claimed: bool,
    pub control: ControlView,
}

pub open spec fn events_view(list: Seq<Event>) -> Seq<EventView> {
    Seq::new(list.len(), |i: int| list[i]@)
}

pub open spec fn event_view(event: Option<Event>) -> Option<EventView> {
    match event {
        Some(event) => Some(event@),
        None => None,
    }
}

pub open spec fn terminal_view(result: Result<(), AiMuxError>) -> Terminal {
    match result {
        Ok(()) => Ok(()),
        Err(error) => Err(error@),
    }
}

impl View for Operation {
    type V = OperationView;

    closed spec fn view(&self) -> OperationView {
        OperationView {
            terminal: match self.terminal {
                Some(result) => Some(terminal_view(result)),
                None => None,
            },
            terminal_read: self.terminal_read,
            output: events_view(self.output@),
            pending: match self.pending {
                Some(pending) => Some(
                    PendingView { id: pending.id, request: event_view(pending.request) },
                ),
                None => None,
            },
            next_id: self.next_id,
            answer: match self.answer {
                Some((id, reply)) => Some((id, reply@)),
                None => None,
            },
            control_claimed: self.control_claimed,
            output_claimed: self.output_claimed,
            control: self.control@,
        }
    }
}

/// An operation as it starts.
pub open spec fn fresh_operation(control: ControlView) -> OperationView {
    OperationView {
        terminal: None,
        terminal_read: false,
        output: seq![],
        pending: None,
        next_id: 1,
        answer: None,
        control_claimed: false,
        output_claimed: false,
        control,
    }
}

/// What the driver is told when it goes on after the end.
pub open spec fn ended_error(terminal: Terminal) -> AiMuxErrorView {
    match terminal {
        Err(error) => error,
        Ok(()) => AiMuxErrorView::Other("operation ended"@),
    }
}

/// What reading comes to.
#[verifier::ext_equal]
pub enum ReadView {
    Ready(NextView),
    Failed(AiMuxErrorView),
    Wait,
}

/// What sending comes to.
#[verifier::ext_equal]
pub enum SendView {
    Sent,
    /// The queue is full; the event is to be sent again later.
    Full,
    Refused(AiMuxErrorView),
}

/// What waiting for a reply comes to.
#[verifier::ext_equal]
pub enum AnswerView {
    Wait,
    Answered(Result<Option<RawToolCallView>, AiMuxErrorView>),
}

impl OperationView {
    /// What holds of every operation.
    pub open spec fn wf(self) -> bool {
        &&& self.output.len() <= OUTPUT_CAPACITY
        &&& self.next_id >= 1
        &&& self.pending matches Some(pending) ==> 1 <= pending.id < self.next_id
        &&& self.answer matches Some((id, _)) ==> 1 <= id < self.next_id
        &&& self.terminal is Some ==> self.pending is None
        &&& self.terminal matches Some(Err(_)) ==> self.output.len() == 0
        &&& self.terminal_read ==> self.terminal is Some
        &&& self.control.signal is Some
    }

    /// The first end stays. A failure drops what was not read; any end drops
    /// the request that waits for a reply.
    pub open spec fn finished(self, result: Terminal) -> OperationView {
        if self.terminal is Some {
            self
        } else {
            OperationView {
                output: if result is Err {
                    seq![]
                } else {
                    self.output
                },
                pending: None,
                terminal: Some(result),
                ..self
            }
        }
    }

    /// A cancelled or exhausted generation ends the operation; `aborted` is
    /// what the signal of its control says.
    pub open spec fn observed(self, aborted: bool, now: u64) -> OperationView {
        match self.control.failure(aborted, now) {
            Some(error) => self.finished(Err(error)),
            None => self,
        }
    }

    pub open spec fn sent(self, event: EventView, aborted: bool, now: u64) -> (OperationView, SendView) {
        match self.terminal {
            Some(terminal) => (self, SendView::Refused(ended_error(terminal))),
            None => if self.output.len() < OUTPUT_CAPACITY {
                (OperationView { output: self.output.push(event), ..self }, SendView::Sent)
            } else {
                match self.control.failure(aborted, now) {
                    Some(error) => (self, SendView::Refused(error)),
                    None => (self, SendView::Full),
                }
            },
        }
    }

    /// Ask the host for a repair. One request waits at a time.
    pub open spec fn asked(self, context: RepairContextView) -> (OperationView, Result<u64, AiMuxErrorView>) {
        match self.terminal {
            Some(terminal) => (self, Err(ended_error(terminal))),
            None => if self.pending is Some {
                (self, Err(AiMuxErrorView::Other("concurrent repair requests are unsupported"@)))
            } else if self.next_id == u64::MAX {
                (self, Err(AiMuxErrorView::Other("repair request ID exhausted"@)))
            } else {
                (
                    OperationView {
                        next_id: (self.next_id + 1) as u64,
                        pending: Some(
                            PendingView {
                                id: self.next_id,
                                request: Some(
                                    EventView::RepairRequest {
                                        request_id: decimal(self.next_id as nat),
                                        context: host_context(context),
                                    },
                                ),
                            },
                        ),
                        ..self
                    },
                    Ok(self.next_id),
                )
            },
        }
    }

    /// The driver's wait for the reply to its request.
    pub open spec fn awaited(self, id: u64, aborted: bool, now: u64) -> (OperationView, AnswerView) {
        if self.answer matches Some((answered, _)) && answered == id {
            let (_, reply) = self.answer->0;
            (OperationView { answer: None, ..self }, AnswerView::Answered(core_answer(reply)))
        } else if self.pending matches Some(pending) && pending.id == id {
            (self, AnswerView::Wait)
        } else {
            (
                self,
                AnswerView::Answered(
                    Err(
                        match self.control.failure(aborted, now) {
                            Some(error) => error,
                            None => AiMuxErrorView::Other("repair request ended"@),
                        },
                    ),
                ),
            )
        }
    }

    pub open spec fn free(self, lane: Lane) -> bool {
        match lane {
            Lane::Control => !self.control_claimed,
            Lane::Output => !self.output_claimed,
            Lane::Any => !self.control_claimed && !self.output_claimed,
            Lane::Terminal => true,
        }
    }

    /// The lanes that a reader occupies, claimed or not.
    pub open spec fn occupied(self, lane: Lane, claimed: bool) -> OperationView {
        OperationView {
            control_claimed: if lane is Control || lane is Any {
                claimed
            } else {
                self.control_claimed
            },
            output_claimed: if lane is Output || lane is Any {
                claimed
            } else {
                self.output_claimed
            },
            ..self
        }
    }

    /// What a reader of a lane gets once the stop was observed: a repair
    /// request first, then output, then the end; the error of the end once.
    pub open spec fn read(self, lane: Lane) -> (OperationView, ReadView) {
        if lane is Terminal {
            if self.terminal is Some {
                (self, ReadView::Ready(NextView::Ended))
            } else {
                (self, ReadView::Wait)
            }
        } else if !(lane is Output) && self.terminal is None && (self.pending matches Some(pending)
            && pending.request is Some) {
            (
                OperationView {
                    pending: Some(PendingView { request: None, ..self.pending->0 }),
                    ..self
                },
                ReadView::Ready(NextView::Event(self.pending->0.request->0)),
            )
        } else if !(lane is Control) && self.output.len() > 0 {
            (
                OperationView { output: self.output.drop_first(), ..self },
                ReadView::Ready(NextView::Event(self.output[0])),
            )
        } else {
            match self.terminal {
                None => (self, ReadView::Wait),
                Some(terminal) => if !(lane is Control) && !self.terminal_read {
                    (
                        OperationView { terminal_read: true, ..self },
                        match terminal {
                            Err(error) => ReadView::Failed(error),
                            Ok(()) => ReadView::Ready(NextView::Ended),
                        },
                    )
                } else {
                    (self, ReadView::Ready(NextView::Ended))
                },
            }
        }
    }

    /// What a reader of a lane gets.
    pub open spec fn nexted(self, lane: Lane, aborted: bool, now: u64) -> (OperationView, ReadView) {
        self.observed(aborted, now).read(lane)
    }

    /// What a new reader of a lane gets: where another holds it, or part of it,
    /// that it is busy; otherwise the lane is its own, and it reads.
    pub open spec fn entered(self, lane: Lane, aborted: bool, now: u64) -> (OperationView, ReadView) {
        if !self.free(lane) {
            (self, ReadView::Ready(NextView::ReaderBusy))
        } else {
            self.occupied(lane, true).nexted(lane, aborted, now)
        }
    }

    /// What becomes of a reply once the stop was observed.
    pub open spec fn judged(self, request_id: Seq<char>) -> ReplyStatus {
        if self.terminal is Some {
            ReplyStatus::OperationEnded
        } else if !(exists|id: u64| 1 <= id < self.next_id && request_id == #[trigger] decimal(id as nat)) {
            ReplyStatus::UnknownRequest
        } else if self.pending matches Some(pending) && request_id == decimal(pending.id as nat) {
            ReplyStatus::Accepted
        } else {
            ReplyStatus::AlreadyReplied
        }
    }

    pub open spec fn replied(self, request_id: Seq<char>, reply: ReplyView, aborted: bool, now: u64) -> (
        OperationView,
        ReplyStatus,
    ) {
        let s = self.observed(aborted, now);
        let status = s.judged(request_id);
        if status is Accepted {
            (OperationView { pending: None, answer: Some((s.pending->0.id, reply)), ..s }, status)
        } else {
            (s, status)
        }
    }

    pub open spec fn cancelled(self) -> OperationView {
        self.finished(Err(AiMuxErrorView::Aborted("request aborted"@)))
    }
}

/// What sending comes to.
pub enum SendStep {
    Sent,
    Full(Event),
    Refused(AiMuxError),
}

/// What reading comes to.
pub enum ReadStep {
    Ready(Next),
    Failed(AiMuxError),
    Wait,
}

impl View for ReadStep {
    type V = ReadView;

    open spec fn view(&self) -> ReadView {
        match *self {
            ReadStep::Ready(next) => ReadView::Ready(next@),
            ReadStep::Failed(error) => ReadView::Failed(error@),
            ReadStep::Wait => ReadView::Wait,
        }
    }
}

/// What waiting for a reply comes to.
pub enum AnswerStep {
    Wait,
    Answered(Result<Option<RawToolCall>, AiMuxError>),
}

impl View for AnswerStep {
    type V = AnswerView;

    open spec fn view(&self) -> AnswerView {
        match *self {
            AnswerStep::Wait => AnswerView::Wait,
            AnswerStep::Answered(answer) => AnswerView::Answered(callback_view(answer)),
        }
    }
}

fn error_of_end(terminal: &Result<(), AiMuxError>) -> (r: AiMuxError)
    ensures
        r@ == ended_error(terminal_view(*terminal)),
{
    match terminal {
        Err(error) => error.copy(),
        Ok(()) => AiMuxError::Other("operation ended".to_owned()),
    }
}

/// The options that the generation of an operation runs with.
pub open spec fn driven(options: GenerateOptionsView, control: ControlView) -> GenerateOptionsView {
    GenerateOptionsView { operation_control: Some(control), abort_signal: control.signal, ..options }
}

pub open spec fn limits(options: GenerateOptionsView) -> TimeoutConfiguration {
    match options.timeout {
        Some(timeout) => timeout,
        None => TimeoutConfiguration { total_ms: None, step_ms: None, first_chunk_ms: None, chunk_ms: None },
    }
}

/// Whether an operation and its options come of these options at `now`, both
/// under the one signal.
pub open spec fn starts_with(
    options: GenerateOptionsView,
    signal: AbortSignal,
    now: u64,
    r: Result<(Operation, GenerateTextOptions), AiMuxError>,
) -> bool {
    match started(limits(options), Some(signal), now) {
        Ok(control) => {
            &&& r matches Ok((operation, driving))
            &&& operation@ == fresh_operation(control)
            &&& operation@.wf()
            &&& driving@ == driven(options, control)
        },
        Err(error) => r matches Err(e) && e@ == error,
    }
}

impl Operation {
    /// An operation under a control that can be cancelled.
    pub fn new(control: GenerationControl) -> (r: Operation)
        requires
            control@.signal is Some,
        ensures
            r@ == fresh_operation(control@),
            r@.wf(),
    {
        let r = Operation {
            terminal: None,
            terminal_read: false,
            output: Vec::new(),
            pending: None,
            next_id: 1,
            answer: None,
            control_claimed: false,
            output_claimed: false,
            control,
        };
        assert(r@.output =~= seq![]);
        r
    }

    fn with_options(options: GenerateTextOptions, signal: AbortSignal, now: u64) -> (r: Result<
        (Operation, GenerateTextOptions),
        AiMuxError,
    >)
        ensures
            starts_with(options@, signal, now, r),
    {
        let timeout: TimeoutConfiguration = match options.timeout {
            Some(timeout) => timeout,
            None => TimeoutConfiguration::none(),
        };
        match GenerationControl::new(timeout, Some(signal), now) {
            Ok(control) => {
                let mut options = options;
                options.abort_signal = control.signal();
                options.operation_control = Some(control.copy());
                Ok((Operation::new(control), options))
            },
            Err(error) => Err(error),
        }
    }

    /// Start an operation at `now`: the operation, and the options that its
    /// generation runs with. Both are stopped by `signal`, a signal of the
    /// operation's own. A request that is refused starts nothing.
    pub fn start<F: Fn(&Json) -> Result<GenerateTextOptions, String>>(
        request: &StartRequest,
        decode: &F,
        signal: AbortSignal,
        now: u64,
    ) -> (r: Result<(Operation, GenerateTextOptions), AiMuxError>)
        requires
            forall|json: &Json| #[trigger] call_requires(*decode, (json,)),
        ensures
            match refusal(request.protocol_version, request.options@) {
                Some(error) => r matches Err(e) && e@ == error,
                None => if request.options@ is Null {
                    starts_with(no_options(), signal, now, r)
                } else {
                    ||| exists|words: String|
                        #[trigger] call_ensures(*decode, (&request.options,), Err(words)) && (r matches Err(e)
                            && e@ == AiMuxErrorView::InvalidArgument(words@))
                    ||| exists|options: GenerateTextOptions|
                        #[trigger] call_ensures(*decode, (&request.options,), Ok(options)) && starts_with(
                            options@,
                            signal,
                            now,
                            r,
                        )
                },
            },
    {
        match request.options(decode) {
            Err(error) => Err(error),
            Ok(options) => Operation::with_options(options, signal, now),
        }
    }

    /// End the operation, unless it has ended.
    pub fn finish(&mut self, result: Result<(), AiMuxError>)
        requires
            old(self)@.wf(),
        ensures
            final(self)@ == old(self)@.finished(terminal_view(result)),
            final(self)@.wf(),
    {
        if self.terminal.is_none() {
            if result.is_err() {
                self.output = Vec::new();
                assert(events_view(self.output@) =~= seq![]);
            }
            self.pending = None;
            self.terminal = Some(result);
        }
    }

    /// End the operation when its generation has to stop; `aborted` is what
    /// the signal of its control says.
    pub fn observe_stop(&mut self, aborted: bool, now: u64)
        requires
            old(self)@.wf(),
        ensures
            final(self)@ == old(self)@.observed(aborted, now),
            final(self)@.wf(),
    {
        if let Some(error) = self.control.failure(aborted, now) {
            self.finish(Err(error));
        }
    }

    /// Queue an event.
    pub fn send(&mut self, event: Event, aborted: bool, now: u64) -> (r: SendStep)
        requires
            old(self)@.wf(),
        ensures
            final(self)@.wf(),
            final(self)@ == old(self)@.sent(event@, aborted, now).0,
            match r {
                SendStep::Sent => old(self)@.sent(event@, aborted, now).1 is Sent,
                SendStep::Full(back) => old(self)@.sent(event@, aborted, now).1 is Full && back == event,
                SendStep::Refused(error) => old(self)@.sent(event@, aborted, now).1 == SendView::Refused(error@),
            },
    {
        if let Some(terminal) = &self.terminal {
            return SendStep::Refused(error_of_end(terminal));
        }
        if self.output.len() < OUTPUT_CAPACITY {
            let ghost said = event@;
            let ghost before = events_view(self.output@);
            self.output.push(event);
            assert(events_view(self.output@) =~= before.push(said));
            return SendStep::Sent;
        }
        match self.control.failure(aborted, now) {
            Some(error) => SendStep::Refused(error),
            None => SendStep::Full(event),
        }
    }

    /// Ask the host to repair a call; the number of the request.
    pub fn request_repair(&mut self, context: ToolCallRepairContext) -> (r: Result<u64, AiMuxError>)
        requires
            old(self)@.wf(),
        ensures
            final(self)@.wf(),
            final(self)@ == old(self)@.asked(context@).0,
            old(self)@.asked(context@).1 == (match r {
                Ok(id) => Ok(id),
                Err(error) => Err(error@),
            }),
    {
        if let Some(terminal) = &self.terminal {
            return Err(error_of_end(terminal));
        }
        if self.pending.is_some() {
            return Err(AiMuxError::Other("concurrent repair requests are unsupported".to_owned()));
        }
        let id: u64 = self.next_id;
        if id == u64::MAX {
            return Err(AiMuxError::Other("repair request ID exhausted".to_owned()));
        }
        self.next_id = id + 1;
        self.pending = Some(
            Pending {
                id,
                request: Some(
                    Event::RepairRequest {
                        request_id: decimal_text(id),
                        context: Box::new(RepairContext::of(context)),
                    },
                ),
            },
        );
        Ok(id)
    }

    /// The driver's wait for the reply to its request.
    pub fn take_answer(&mut self, id: u64, aborted: bool, now: u64) -> (r: AnswerStep)
        requires
            old(self)@.wf(),
        ensures
            final(self)@.wf(),
            (final(self)@, r@) == old(self)@.awaited(id, aborted, now),
    {
        let answered: bool = match &self.answer {
            Some((of, _)) => *of == id,
            None => false,
        };
        if answered {
            let mut taken: Option<(u64, Reply)> = None;
            std::mem::swap(&mut self.answer, &mut taken);
            if let Some((_, reply)) = taken {
                return AnswerStep::Answered(reply.into_core());
            }
        }
        let waiting: bool = match &self.pending {
            Some(pending) => pending.id == id,
            None => false,
        };
        if waiting {
            return AnswerStep::Wait;
        }
        AnswerStep::Answered(
            Err(
                match self.control.failure(aborted, now) {
                    Some(error) => error,
                    None => AiMuxError::Other("repair request ended".to_owned()),
                },
            ),
        )
    }

    /// Claim a lane for one reader; `false` when another reader holds it, or
    /// part of it.
    pub fn claim(&mut self, lane: Lane) -> (r: bool)
        requires
            old(self)@.wf(),
        ensures
            final(self)@.wf(),
            r == old(self)@.free(lane),
            final(self)@ == (if r {
                old(self)@.occupied(lane, true)
            } else {
                old(self)@
            }),
    {
        let free: bool = match lane {
            Lane::Control => !self.control_claimed,
            Lane::Output => !self.output_claimed,
            Lane::Any => !self.control_claimed && !self.output_claimed,
            Lane::Terminal => true,
        };
        if free {
            self.occupy(lane, true);
        }
        free
    }

    /// Release a lane that was claimed.
    pub fn release(&mut self, lane: Lane)
        requires
            old(self)@.wf(),
        ensures
            final(self)@.wf(),
            final(self)@ == old(self)@.occupied(lane, false),
    {
        self.occupy(lane, false);
    }

    fn occupy(&mut self, lane: Lane, claimed: bool)
        requires
            old(self)@.wf(),
        ensures
            final(self)@.wf(),
            final(self)@ == old(self)@.occupied(lane, claimed),
    {
        if lane == Lane::Control || lane == Lane::Any {
            self.control_claimed = claimed;
        }
        if lane == Lane::Output || lane == Lane::Any {
            self.output_claimed = claimed;
        }
    }

    /// What the reader of a lane gets, or that it has to wait.
    pub fn next(&mut self, lane: Lane, aborted: bool, now: u64) -> (r: ReadStep)
        requires
            old(self)@.wf(),
        ensures
            final(self)@.wf(),
            (final(self)@, r@) == old(self)@.nexted(lane, aborted, now),
    {
        self.observe_stop(aborted, now);
        let ghost before = self@;
        if lane == Lane::Terminal {
            return if self.terminal.is_some() {
                ReadStep::Ready(Next::Ended)
            } else {
                ReadStep::Wait
            };
        }
        if lane != Lane::Output && self.terminal.is_none() {
            let mut taken: Option<Pending> = None;
            std::mem::swap(&mut self.pending, &mut taken);
            if let Some(pending) = taken {
                let id: u64 = pending.id;
                self.pending = Some(Pending { id, request: None });
                if let Some(event) = pending.request {
                    return ReadStep::Ready(Next::Event(event));
                }
            }
            assert(self@ == before);
        }
        if lane != Lane::Control && self.output.len() > 0 {
            let event = self.output.remove(0);
            assert(events_view(self.output@) =~= before.output.drop_first());
            return ReadStep::Ready(Next::Event(event));
        }
        let end: Option<Option<AiMuxError>> = match &self.terminal {
            None => None,
            Some(Ok(())) => Some(None),
            Some(Err(error)) => Some(Some(error.copy())),
        };
        match end {
            None => ReadStep::Wait,
            Some(error) => {
                if lane != Lane::Control && !self.terminal_read {
                    self.terminal_read = true;
                    if let Some(error) = error {
                        return ReadStep::Failed(error);
                    }
                }
                ReadStep::Ready(Next::Ended)
            },
        }
    }

    /// Claim a lane for a new reader and read; a reader of a lane that another
    /// holds is told so, and nothing changes. The reader that claimed the lane
    /// goes on with `next` and releases it when it is done.
    pub fn enter(&mut self, lane: Lane, aborted: bool, now: u64) -> (r: ReadStep)
        requires
            old(self)@.wf(),
        ensures
            final(self)@.wf(),
            (final(self)@, r@) == old(self)@.entered(lane, aborted, now),
    {
        if !self.claim(lane) {
            return ReadStep::Ready(Next::ReaderBusy);
        }
        self.next(lane, aborted, now)
    }

    /// Whether the operation has ended. Neither output nor the error of the
    /// end is read by asking.
    pub fn finished(&mut self, aborted: bool, now: u64) -> (r: bool)
        requires
            old(self)@.wf(),
        ensures
            final(self)@.wf(),
            final(self)@ == old(self)@.observed(aborted, now),
            r == (final(self)@.terminal is Some),
    {
        self.observe_stop(aborted, now);
        self.terminal.is_some()
    }

    /// Accept a reply to the request that waits for it.
    pub fn reply(&mut self, request_id: &str, reply: Reply, aborted: bool, now: u64) -> (r: ReplyStatus)
        requires
            old(self)@.wf(),
        ensures
            final(self)@.wf(),
            (final(self)@, r) == old(self)@.replied(request_id@, reply@, aborted, now),
    {
        self.observe_stop(aborted, now);
        if self.terminal.is_some() {
            return ReplyStatus::OperationEnded;
        }
        let id: u64 = match read_decimal(request_id) {
            Some(id) => id,
            None => return ReplyStatus::UnknownRequest,
        };
        proof {
            assert forall|other: u64| request_id@ == #[trigger] decimal(other as nat) implies other == id by {
                crate::text::lemma_decimal_injective(other as nat, id as nat);
            }
        }
        if id == 0 || id >= self.next_id {
            return ReplyStatus::UnknownRequest;
        }
        assert(request_id@ == decimal(id as nat) && 1 <= id < self@.next_id);
        let waiting: bool = match &self.pending {
            Some(pending) => pending.id == id,
            None => false,
        };
        if !waiting {
            return ReplyStatus::AlreadyReplied;
        }
        self.pending = None;
        self.answer = Some((id, reply));
        ReplyStatus::Accepted
    }

    /// End the operation as aborted, and abort the signal that its generation
    /// watches: `aborted` is what that signal says.
    pub fn cancel(&mut self, aborted: &mut bool)
        requires
            old(self)@.wf(),
        ensures
            final(self)@.wf(),
            final(self)@ == old(self)@.cancelled(),
            *final(aborted),
    {
        self.finish(Err(AiMuxError::aborted()));
        self.control.cancel(aborted);
    }

    /// Why the generation has to stop, if it has to.
    pub fn failure(&self, aborted: bool, now: u64) -> (r: Option<AiMuxError>)
        ensures
            error_view(r) == self@.control.failure(aborted, now),
    {
        self.control.failure(aborted, now)
    }

    /// The moment at which the operation has to be looked at though nothing
    /// happened.
    pub fn next_deadline(&self) -> (r: Option<TimeoutDeadline>)
        ensures
            r == self@.control.deadline,
    {
        self.control.deadline()
    }

    /// End the operation with what its driver came to. A driver that got
    /// through after the generation had to stop did not succeed.
    pub fn conclude(&mut self, result: Result<(), AiMuxError>, aborted: bool, now: u64)
        requires
            old(self)@.wf(),
        ensures
            final(self)@.wf(),
            final(self)@ == old(self)@.finished(
                match (terminal_view(result), old(self)@.control.failure(aborted, now)) {
                    (Ok(()), Some(error)) => Err(error),
                    (result, _) => result,
                },
            ),
    {
        match result {
            Err(error) => self.finish(Err(error)),
            Ok(()) => match self.control.failure(aborted, now) {
                Some(error) => self.finish(Err(error)),
                None => self.finish(Ok(())),
            },
        }
    }
}

/// The error of a driver that did not come back.
pub fn driver_panicked() -> (r: AiMuxError)
    ensures
        r@ == AiMuxErrorView::Other("operation driver panicked"@),
{
    AiMuxError::Other("operation driver panicked".to_owned())
}

// Driving.

/// What the chunks of an OpenAI stream carry.
#[derive(Clone, Copy, PartialEq, Eq, Structural, Debug)]
pub struct OpenAiStreamOptions {
    pub include_usage: bool,
    pub include_reasoning: bool,
}

/// A flag that is set unless it is said not to be.
pub open spec fn flag(doc: JsonView, name: Seq<char>) -> bool {
    match doc.at(name) {
        JsonView::Bool(value) => value,
        _ => true,
    }
}

pub open spec fn stream_options(provider_options: Option<Fields>) -> OpenAiStreamOptions {
    let doc = match provider_options {
        Some(fields) => match member(fields, "openai"@) {
            Some(openai) => openai.at("stream_options"@),
            None => JsonView::Null,
        },
        None => JsonView::Null,
    };
    OpenAiStreamOptions {
        include_usage: flag(doc, "include_usage"@),
        include_reasoning: flag(doc, "include_reasoning"@),
    }
}

fn read_flag(json: &Json, name: &str) -> (r: bool)
    ensures
        r == flag(json@, name@),
{
    broadcast use crate::json::lemma_model;

    match json.get(name) {
        Some(value) => match value.as_bool() {
            Some(value) => value,
            None => true,
        },
        None => true,
    }
}

/// The stream options among a generation's provider options.
pub fn openai_stream_options(options: &GenerateTextOptions) -> (r: OpenAiStreamOptions)
    ensures
        r == stream_options(options@.provider_options),
{
    broadcast use crate::json::lemma_model;

    let all = OpenAiStreamOptions { include_usage: true, include_reasoning: true };
    let object = match &options.provider_options {
        Some(object) => object,
        None => return all,
    };
    match object.get("openai") {
        Some(openai) => match openai.get("stream_options") {
            Some(doc) => OpenAiStreamOptions {
                include_usage: read_flag(doc, "include_usage"),
                include_reasoning: read_flag(doc, "include_reasoning"),
            },
            None => all,
        },
        None => all,
    }
}

/// The stream options that an options document asks for: those under
/// `openai_stream_options`, or else those among the provider's options.
pub open spec fn asked_stream_options(opts: JsonView) -> OpenAiStreamOptions {
    let doc = match opts.at("openai_stream_options"@) {
        JsonView::Object(fields) => JsonView::Object(fields),
        _ => opts.at("provider_options"@).at("openai"@).at("stream_options"@),
    };
    OpenAiStreamOptions {
        include_usage: flag(doc, "include_usage"@),
        include_reasoning: flag(doc, "include_reasoning"@),
    }
}

/// The stream options that an options document asks for.
pub fn openai_stream_options_of(opts: &Json) -> (r: OpenAiStreamOptions)
    ensures
        r == asked_stream_options(opts@),
{
    broadcast use crate::json::lemma_model;

    if let Some(doc) = opts.get("openai_stream_options") {
        if let Json::Object(_) = doc {
            return OpenAiStreamOptions {
                include_usage: read_flag(doc, "include_usage"),
                include_reasoning: read_flag(doc, "include_reasoning"),
            };
        }
    }
    let all = OpenAiStreamOptions { include_usage: true, include_reasoning: true };
    match opts.get("provider_options") {
        Some(provider) => match provider.get("openai") {
            Some(openai) => match openai.get("stream_options") {
                Some(doc) => OpenAiStreamOptions {
                    include_usage: read_flag(doc, "include_usage"),
                    include_reasoning: read_flag(doc, "include_reasoning"),
                },
                None => all,
            },
            None => all,
        },
        None => all,
    }
}

/// The part that a host gets for a stream item: a malformed frame is a part
/// that says so, any other failure ends the operation.
pub fn part_of_item(item: StreamItem) -> (r: Result<StreamPart, AiMuxError>)
    ensures
        match item_view(item) {
            Ok(part) => r matches Ok(p) && p@ == part,
            Err(error) => if error is JsonParse {
                r matches Ok(p) && p@ == (StreamPartView::Error { error })
            } else {
                r matches Err(e) && e@ == error
            },
        },
{
    match item {
        Ok(part) => Ok(part),
        Err(error) => if error.is_recoverable_stream_error() {
            Ok(StreamPart::Error { error })
        } else {
            Err(error)
        },
    }
}

// Laws.

/// The first end of an operation is its end: nothing that happens later
/// replaces it.
pub proof fn law_first_end_wins(s: OperationView, result: Terminal, aborted: bool, now: u64)
    requires
        s.terminal is Some,
    ensures
        s.finished(result) == s,
        s.observed(aborted, now) == s,
        s.cancelled().terminal == s.terminal,
        s.cancelled().output == s.output,
{
}

/// Output is read in the order in which it was sent.
pub proof fn law_output_is_fifo(s: OperationView, event: EventView, aborted: bool, now: u64)
    requires
        s.wf(),
        s.sent(event, aborted, now).1 is Sent,
    ensures
        s.sent(event, aborted, now).0.output == s.output.push(event),
        s.read(Lane::Output) == (if s.output.len() > 0 {
            (
                OperationView { output: s.output.drop_first(), ..s },
                ReadView::Ready(NextView::Event(s.output[0])),
            )
        } else {
            (s, ReadView::Wait)
        }),
{
}

/// The queue never holds more than its capacity; a full queue takes nothing
/// and loses nothing.
pub proof fn law_output_is_bounded(s: OperationView, event: EventView, aborted: bool, now: u64)
    requires
        s.wf(),
    ensures
        s.sent(event, aborted, now).0.output.len() <= OUTPUT_CAPACITY,
        s.sent(event, aborted, now).1 is Full ==> s.sent(event, aborted, now).0 == s && s.output.len()
            == OUTPUT_CAPACITY,
{
}

/// The error of a failed operation reaches a reader of its output once; from
/// then on reading says that the operation has ended.
pub proof fn law_error_is_read_once(
    s: OperationView,
    error: AiMuxErrorView,
    lane: Lane,
    again: Lane,
    aborted: bool,
    now: u64,
)
    requires
        s.wf(),
        s.terminal == Some(Err::<(), AiMuxErrorView>(error)),
        !s.terminal_read,
        lane is Output || lane is Any,
    ensures
        s.nexted(lane, aborted, now).1 == ReadView::Failed(error),
        s.nexted(lane, aborted, now).0.nexted(again, aborted, now).1 == ReadView::Ready(NextView::Ended),
        s.nexted(lane, aborted, now).0.nexted(again, aborted, now).0 == s.nexted(lane, aborted, now).0,
{
}

/// A successful end does not cut off output: what was sent is still read, and
/// only then the operation has ended.
pub proof fn law_success_keeps_output(s: OperationView, aborted: bool, now: u64)
    requires
        s.wf(),
        s.terminal is None,
    ensures
        s.finished(Ok(())).output == s.output,
        s.output.len() > 0 ==> s.finished(Ok(())).nexted(Lane::Output, aborted, now).1 == ReadView::Ready(
            NextView::Event(s.output[0]),
        ),
        s.output.len() == 0 ==> s.finished(Ok(())).nexted(Lane::Output, aborted, now).1 == ReadView::Ready(
            NextView::Ended,
        ),
{
}

/// Observing the end reads nothing: neither output nor the error is gone.
pub proof fn law_observer_reads_nothing(s: OperationView, aborted: bool, now: u64)
    requires
        s.wf(),
    ensures
        s.nexted(Lane::Terminal, aborted, now).0 == s.observed(aborted, now),
        s.terminal is Some ==> s.nexted(Lane::Terminal, aborted, now) == (s, ReadView::Ready(NextView::Ended)),
{
}

/// A repair request reaches a reader of the control lane however full the
/// output queue is, and leaves the queue alone.
pub proof fn law_control_passes_full_output(s: OperationView, aborted: bool, now: u64)
    requires
        s.wf(),
        s.control.failure(aborted, now) is None,
        s.pending matches Some(pending) && pending.request is Some,
    ensures
        s.nexted(Lane::Control, aborted, now).1 == ReadView::Ready(NextView::Event(s.pending->0.request->0)),
        s.nexted(Lane::Control, aborted, now).0.output == s.output,
{
}

/// Whether a request was made and has no reply to wait for any more.
pub open spec fn spent(s: OperationView, id: u64) -> bool {
    1 <= id < s.next_id && !(s.pending matches Some(pending) && pending.id == id)
}

/// A reply is accepted at most once: accepting spends its request, a spent
/// request accepts nothing, and no transition revives it.
pub proof fn law_reply_is_accepted_once(
    s: OperationView,
    id: u64,
    reply: ReplyView,
    event: EventView,
    context: RepairContextView,
    result: Terminal,
    lane: Lane,
    other: Seq<char>,
    other_id: u64,
    aborted: bool,
    now: u64,
)
    requires
        s.wf(),
        1 <= id < s.next_id,
    ensures
        s.replied(decimal(id as nat), reply, aborted, now).1 is Accepted ==> spent(
            s.replied(decimal(id as nat), reply, aborted, now).0,
            id,
        ),
        spent(s, id) ==> !(s.replied(decimal(id as nat), reply, aborted, now).1 is Accepted),
        spent(s, id) ==> {
            &&& spent(s.finished(result), id)
            &&& spent(s.observed(aborted, now), id)
            &&& spent(s.sent(event, aborted, now).0, id)
            &&& spent(s.asked(context).0, id)
            &&& spent(s.awaited(other_id, aborted, now).0, id)
            &&& spent(s.nexted(lane, aborted, now).0, id)
            &&& spent(s.replied(other, reply, aborted, now).0, id)
            &&& spent(s.cancelled(), id)
            &&& spent(s.occupied(lane, true), id)
            &&& spent(s.occupied(lane, false), id)
        },
{
    let t = s.observed(aborted, now);
    assert(decimal(id as nat) == decimal(id as nat));
    if t.pending is Some && decimal(id as nat) == decimal(t.pending->0.id as nat) {
        crate::text::lemma_decimal_injective(id as nat, t.pending->0.id as nat);
    }
}

/// The reply that was accepted is the one that the driver gets, whatever ends
/// the operation meanwhile.
pub proof fn law_accepted_reply_arrives(
    s: OperationView,
    request_id: Seq<char>,
    reply: ReplyView,
    result: Terminal,
    aborted: bool,
    now: u64,
    stopped: bool,
    later: u64,
)
    requires
        s.wf(),
        s.replied(request_id, reply, aborted, now).1 is Accepted,
    ensures
        ({
            let t = s.replied(request_id, reply, aborted, now).0;
            &&& t.finished(result).awaited(s.pending->0.id, stopped, later).1 == AnswerView::Answered(
                core_answer(reply),
            )
            &&& t.awaited(s.pending->0.id, stopped, later).1 == AnswerView::Answered(core_answer(reply))
        }),
{
    assert(s.observed(aborted, now) == s);
}

/// An ended operation takes no reply and no output, and asks nothing.
pub proof fn law_ended_is_inert(
    s: OperationView,
    request_id: Seq<char>,
    reply: ReplyView,
    event: EventView,
    context: RepairContextView,
    aborted: bool,
    now: u64,
)
    requires
        s.wf(),
        s.terminal is Some,
    ensures
        s.replied(request_id, reply, aborted, now) == (s, ReplyStatus::OperationEnded),
        s.sent(event, aborted, now) == (s, SendView::Refused(ended_error(s.terminal->0))),
        s.asked(context) == (s, Err::<u64, AiMuxErrorView>(ended_error(s.terminal->0))),
        s.nexted(Lane::Control, aborted, now) == (s, ReadView::Ready(NextView::Ended)),
{
}

/// Two readers never share a lane, and a released lane can be claimed again.
pub proof fn law_one_reader_per_lane(s: OperationView, a: Lane, b: Lane)
    requires
        !(a is Terminal),
        !(b is Terminal),
        s.free(a),
    ensures
        s.occupied(a, true).free(b) <==> s.free(b) && ((a is Control && b is Output) || (a is Output
            && b is Control)),
        s.occupied(a, true).occupied(a, false) == s,
{
}

/// A second reader of a taken lane is told that the lane is busy and changes
/// nothing; once the first has released it, it reads like any other. Readers
/// of the control lane and of the end are not held up by a reader of output.
pub proof fn law_a_taken_lane_is_busy(s: OperationView, lane: Lane, aborted: bool, now: u64)
    requires
        !(lane is Terminal),
        s.free(lane),
    ensures
        s.occupied(lane, true).entered(lane, aborted, now) == (
            s.occupied(lane, true),
            ReadView::Ready(NextView::ReaderBusy),
        ),
        s.occupied(lane, true).occupied(lane, false).entered(lane, aborted, now) == s.entered(lane, aborted, now),
        s.occupied(Lane::Output, true).free(Lane::Control) == s.free(Lane::Control),
        s.occupied(lane, true).free(Lane::Terminal),
{
    assert(s.occupied(lane, true).occupied(lane, false) == s);
}

/// Cancelling ends an operation at once, whatever is queued or awaited.
pub proof fn law_cancel_ends(s: OperationView, aborted: bool, now: u64)
    requires
        s.wf(),
    ensures
        s.cancelled().terminal is Some,
        s.cancelled().pending is None,
        s.terminal is None ==> s.cancelled().terminal == Some(
            Err::<(), AiMuxErrorView>(AiMuxErrorView::Aborted("request aborted"@)),
        ),
        s.control.failure(s.control.cancelled(aborted), now) == Some(AiMuxErrorView::Aborted("request aborted"@)),
        s.cancelled().cancelled() == s.cancelled(),
{
}

} // verus!
