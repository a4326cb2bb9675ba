//! Driving a provider stream: deadlines measure when output arrives, and the
//! stream ends right behind its terminal item.
use crate::error::{AiMuxError, AiMuxErrorView};
use crate::generation_control::{arm_some, armed_some, GenerationControl, Limit, TimeoutDeadline};
use crate::stream_part::{item_view, StreamItem, StreamItemView};
use crate::stream_text::{is_output, is_output_chunk, is_terminal, is_terminal_item};
use vstd::prelude::*;

verus! {

/// What a source has at the moment.
pub enum Arrival {
    Pending,
    Item(StreamItem),
    End,
}

#[verifier::ext_equal]
pub enum ArrivalView {
    Pending,
    Item(StreamItemView),
    End,
}

impl View for Arrival {
    type V = ArrivalView;

    open spec fn view(&self) -> ArrivalView {
        match *self {
            Arrival::Pending => ArrivalView::Pending,
            Arrival::Item(item) => ArrivalView::Item(item_view(item)),
            Arrival::End => ArrivalView::End,
        }
    }
}

/// What to do next.
pub enum PumpStep {
    Wait,
    /// Hand an item on and go on.
    Send(StreamItem),
    /// Hand an item on and stop.
    SendLast(StreamItem),
    Stop,
}

#[verifier::ext_equal]
pub enum PumpStepView {
    Wait,
    Send(StreamItemView),
    SendLast(StreamItemView),
    Stop,
}

impl View for PumpStep {
    type V = PumpStepView;

    open spec fn view(&self) -> PumpStepView {
        match *self {
            PumpStep::Wait => PumpStepView::Wait,
            PumpStep::Send(item) => PumpStepView::Send(item_view(item)),
            PumpStep::SendLast(item) => PumpStepView::SendLast(item_view(item)),
            PumpStep::Stop => PumpStepView::Stop,
        }
    }
}

/// Drives the provider's side of a stream.
pub struct StreamPump {
    operation_deadline: Option<TimeoutDeadline>,
    chunk_deadline: Option<TimeoutDeadline>,
    chunk_ms: Option<u64>,
    ended: bool,
}

#[verifier::ext_equal]
pub struct PumpView {
    pub operation_deadline: Option<TimeoutDeadline>,
    pub chunk_deadline: Option<TimeoutDeadline>,
    pub chunk_ms: Option<u64>,
    pub ended: bool,
}

impl View for StreamPump {
    type V = PumpView;

    closed spec fn view(&self) -> PumpView {
        PumpView {
            operation_deadline: self.operation_deadline,
            chunk_deadline: self.chunk_deadline,
            chunk_ms: self.chunk_ms,
            ended: self.ended,
        }
    }
}

pub open spec fn due(deadline: Option<TimeoutDeadline>, now: u64) -> bool {
    deadline matches Some(deadline) && deadline.passed(now)
}

impl PumpView {
    pub open spec fn stopped(self) -> PumpView {
        PumpView { ended: true, ..self }
    }

    /// One turn: an abort comes first, then the operation's deadline, then the
    /// output deadline, then what the source has. Output sets the output
    /// deadline anew.
    pub open spec fn turn(self, aborted: bool, now: u64, arrival: ArrivalView) -> (PumpView, PumpStepView) {
        if self.ended || aborted {
            (self.stopped(), PumpStepView::Stop)
        } else if due(self.operation_deadline, now) {
            (self.stopped(), PumpStepView::SendLast(Err(self.operation_deadline->0.failure())))
        } else if due(self.chunk_deadline, now) {
            (self.stopped(), PumpStepView::SendLast(Err(self.chunk_deadline->0.failure())))
        } else {
            match arrival {
                ArrivalView::Pending => (self, PumpStepView::Wait),
                ArrivalView::End => (self.stopped(), PumpStepView::Stop),
                ArrivalView::Item(item) => {
                    let rearmed = if item matches Ok(part) && is_output(part) {
                        armed_some(Limit::Chunk, self.chunk_ms, now)
                    } else {
                        Ok(self.chunk_deadline)
                    };
                    match rearmed {
                        Err(error) => (self.stopped(), PumpStepView::SendLast(Err(error))),
                        Ok(chunk_deadline) => if is_terminal(item) {
                            (
                                PumpView { chunk_deadline, ended: true, ..self },
                                PumpStepView::SendLast(item),
                            )
                        } else {
                            (PumpView { chunk_deadline, ..self }, PumpStepView::Send(item))
                        },
                    }
                },
            }
        }
    }
}

impl StreamPump {
    /// A pump under a generation's control: the budget for the first output is
    /// already running.
    pub fn new(control: &GenerationControl, chunk_ms: Option<u64>) -> (r: StreamPump)
        ensures
            r@ == (PumpView {
                operation_deadline: control@.deadline,
                chunk_deadline: control@.first_chunk,
                chunk_ms,
                ended: false,
            }),
    {
        StreamPump {
            operation_deadline: control.deadline(),
            chunk_deadline: control.first_chunk(),
            chunk_ms,
            ended: false,
        }
    }

    /// The next moment at which the pump has to be turned though nothing
    /// arrived.
    pub fn next_deadline(&self) -> (r: Option<TimeoutDeadline>)
        ensures
            r == crate::generation_control::earlier(self@.operation_deadline, self@.chunk_deadline),
    {
        crate::generation_control::min_deadline(self.operation_deadline, self.chunk_deadline)
    }

    /// One turn of the pump.
    pub fn turn(&mut self, aborted: bool, now: u64, arrival: Arrival) -> (r: PumpStep)
        ensures
            (final(self)@, r@) == old(self)@.turn(aborted, now, arrival@),
    {
        if self.ended || aborted {
            self.ended = true;
            return PumpStep::Stop;
        }
        if let Some(deadline) = self.operation_deadline {
            if deadline.at <= now {
                self.ended = true;
                return PumpStep::SendLast(Err(deadline.error()));
            }
        }
        if let Some(deadline) = self.chunk_deadline {
            if deadline.at <= now {
                self.ended = true;
                return PumpStep::SendLast(Err(deadline.error()));
            }
        }
        match arrival {
            Arrival::Pending => PumpStep::Wait,
            Arrival::End => {
                self.ended = true;
                PumpStep::Stop
            },
            Arrival::Item(item) => {
                let output: bool = match &item {
                    Ok(part) => is_output_chunk(part),
                    Err(_) => false,
                };
                if output {
                    match arm_some(Limit::Chunk, self.chunk_ms, now) {
                        Ok(deadline) => {
                            self.chunk_deadline = deadline;
                        },
                        Err(error) => {
                            self.ended = true;
                            return PumpStep::SendLast(Err(error));
                        },
                    }
                }
                if is_terminal_item(&item) {
                    self.ended = true;
                    PumpStep::SendLast(item)
                } else {
                    PumpStep::Send(item)
                }
            },
        }
    }
}

/// The consumer's side: whether the stream has ended.
pub struct StreamTap {
    ended: bool,
}

impl StreamTap {
    pub closed spec fn ended(self) -> bool {
        self.ended
    }

    pub fn new() -> (r: StreamTap)
        ensures
            !r.ended(),
    {
        StreamTap { ended: false }
    }

    /// One turn: an abort is reported ahead of what has arrived, but not
    /// behind the item that ended the stream.
    pub fn turn(&mut self, aborted: bool, arrival: Arrival) -> (r: PumpStep)
        ensures
            (final(self).ended(), r@) == tapped(old(self).ended(), aborted, arrival@),
    {
        if self.ended {
            return PumpStep::Stop;
        }
        if aborted {
            self.ended = true;
            return PumpStep::SendLast(Err(AiMuxError::aborted()));
        }
        match arrival {
            Arrival::Pending => PumpStep::Wait,
            Arrival::End => {
                self.ended = true;
                PumpStep::Stop
            },
            Arrival::Item(item) => {
                if is_terminal_item(&item) {
                    self.ended = true;
                    PumpStep::SendLast(item)
                } else {
                    PumpStep::Send(item)
                }
            },
        }
    }
}

pub open spec fn tapped(ended: bool, aborted: bool, arrival: ArrivalView) -> (bool, PumpStepView) {
    if ended {
        (true, PumpStepView::Stop)
    } else if aborted {
        (true, PumpStepView::SendLast(Err(AiMuxErrorView::Aborted("request aborted"@))))
    } else {
        match arrival {
            ArrivalView::Pending => (false, PumpStepView::Wait),
            ArrivalView::End => (true, PumpStepView::Stop),
            ArrivalView::Item(item) => if is_terminal(item) {
                (true, PumpStepView::SendLast(item))
            } else {
                (false, PumpStepView::Send(item))
            },
        }
    }
}

/// The items that a consumer gets of those that arrive, in their order.
pub open spec fn drained(ended: bool, items: Seq<StreamItemView>) -> Seq<StreamItemView>
    decreases items.len(),
{
    if items.len() == 0 {
        seq![]
    } else {
        let (next, step) = tapped(ended, false, ArrivalView::Item(items[0]));
        let got = match step {
            PumpStepView::Send(item) => seq![item],
            PumpStepView::SendLast(item) => seq![item],
            _ => seq![],
        };
        got + drained(next, items.drop_first())
    }
}

proof fn lemma_drained_ended(items: Seq<StreamItemView>)
    ensures
        drained(true, items) == Seq::<StreamItemView>::empty(),
    decreases items.len(),
{
    if items.len() > 0 {
        lemma_drained_ended(items.drop_first());
    }
}

/// A consumer gets the items in order up to the first finish or fatal error,
/// and nothing behind it.
pub proof fn law_stream_ends_at_its_terminal_item(items: Seq<StreamItemView>)
    ensures
        drained(false, items).len() <= items.len(),
        drained(false, items) == items.take(drained(false, items).len() as int),
        forall|i: int|
            0 <= i < drained(false, items).len() - 1 ==> !is_terminal(#[trigger] drained(false, items)[i]),
        drained(false, items).len() < items.len() ==> drained(false, items).len() > 0 && is_terminal(
            drained(false, items).last(),
        ),
    decreases items.len(),
{
    if items.len() > 0 {
        let rest = items.drop_first();
        let got = drained(false, items);
        if is_terminal(items[0]) {
            lemma_drained_ended(rest);
            assert(got =~= items.take(1));
        } else {
            law_stream_ends_at_its_terminal_item(rest);
            let tail = drained(false, rest);
            assert(got =~= seq![items[0]] + tail);
            assert forall|i: int| 0 <= i < got.len() implies got[i] == items[i] by {
                if i > 0 {
                    assert(tail[i - 1] == rest.take(tail.len() as int)[i - 1]);
                }
            }
            assert(got =~= items.take(got.len() as int));
            assert forall|i: int| 0 <= i < got.len() - 1 implies !is_terminal(#[trigger] got[i]) by {
                if i > 0 {
                    assert(got[i] == tail[i - 1]);
                }
            }
            if got.len() < items.len() {
                assert(got.last() == tail.last());
            }
        }
    }
}

/// A pump that has ended neither waits nor sends again, whatever arrives.
pub proof fn law_pump_stays_ended(pump: PumpView, aborted: bool, now: u64, arrival: ArrivalView)
    requires
        pump.ended,
    ensures
        pump.turn(aborted, now, arrival) == (pump, PumpStepView::Stop),
{
}

/// Whatever ends a pump: it says so by its last item, or stops.
pub proof fn law_pump_ends_with_its_last_item(pump: PumpView, aborted: bool, now: u64, arrival: ArrivalView)
    ensures
        pump.turn(aborted, now, arrival).0.ended <==> pump.turn(aborted, now, arrival).1 is SendLast
            || pump.turn(aborted, now, arrival).1 is Stop,
        pump.turn(aborted, now, arrival).1 matches PumpStepView::SendLast(item) ==> is_terminal(item),
        pump.turn(aborted, now, arrival).1 matches PumpStepView::Send(item) ==> {
            &&& !is_terminal(item)
            &&& arrival == ArrivalView::Item(item)
        },
{
}

/// Only output moves the output deadline, and it moves it to the time limit
/// between chunks.
pub proof fn law_only_output_rearms(pump: PumpView, aborted: bool, now: u64, arrival: ArrivalView)
    requires
        !pump.turn(aborted, now, arrival).0.ended,
    ensures
        pump.turn(aborted, now, arrival).0.chunk_deadline != pump.chunk_deadline ==> {
            &&& arrival matches ArrivalView::Item(Ok(part))
            &&& is_output(part)
            &&& Ok::<Option<TimeoutDeadline>, AiMuxErrorView>(
                pump.turn(aborted, now, arrival).0.chunk_deadline,
            ) == armed_some(Limit::Chunk, pump.chunk_ms, now)
        },
        pump.turn(aborted, now, arrival).0.operation_deadline == pump.operation_deadline,
{
}

} // verus!
