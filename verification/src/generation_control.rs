//! The cancellation signal and the absolute budget that a generation and its
//! host driver share.
//!
//! A control names its signal and holds its deadlines; copies of it name the
//! same signal. The signal itself lives outside, once: what it says, `aborted`,
//! is handed to every observation, and cancelling through any copy sets it for
//! all. Times are milliseconds of one clock.
use crate::error::{error_view, AiMuxError, AiMuxErrorView};
use crate::options::{AbortSignal, TimeoutConfiguration};
use crate::text::{decimal, decimal_text, join4};
use vstd::prelude::*;
use vstd::string::*;

verus! {

/// What a deadline bounds.
#[derive(Clone, Copy, PartialEq, Eq, Structural, Debug)]
pub enum Limit {
    Total,
    Step,
    FirstChunk,
    Chunk,
}

impl Limit {
    pub open spec fn label(self) -> Seq<char> {
        match self {
            Limit::Total => "Total"@,
            Limit::Step => "Step"@,
            Limit::FirstChunk => "First chunk"@,
            Limit::Chunk => "Chunk"@,
        }
    }

    pub fn label_text(self) -> (r: &'static str)
        ensures
            r@ == self.label(),
    {
        match self {
            Limit::Total => "Total",
            Limit::Step => "Step",
            Limit::FirstChunk => "First chunk",
            Limit::Chunk => "Chunk",
        }
    }
}

/// A moment by which something has to have happened.
#[derive(Clone, Copy, PartialEq, Eq, Structural, Debug)]
pub struct TimeoutDeadline {
    pub limit: Limit,
    pub duration_ms: u64,
    pub at: u64,
}

/// A deadline that the clock cannot express.
pub open spec fn out_of_range(limit: Limit, duration_ms: u64) -> AiMuxErrorView {
    AiMuxErrorView::InvalidArgument(
        limit.label() + " timeout of "@ + decimal(duration_ms as nat) + "ms is out of range"@,
    )
}

impl TimeoutDeadline {
    /// The error of a deadline that has passed.
    pub open spec fn failure(self) -> AiMuxErrorView {
        AiMuxErrorView::Timeout(
            self.limit.label() + " timeout of "@ + decimal(self.duration_ms as nat) + "ms exceeded"@,
        )
    }

    pub fn error(self) -> (r: AiMuxError)
        ensures
            r@ == self.failure(),
    {
        AiMuxError::Timeout(
            join4(
                self.limit.label_text(),
                " timeout of ",
                decimal_text(self.duration_ms).as_str(),
                "ms exceeded",
            ),
        )
    }

    pub open spec fn passed(self, now: u64) -> bool {
        self.at <= now
    }

    /// The deadline that lies a duration behind `now`.
    pub fn from_now(limit: Limit, duration_ms: u64, now: u64) -> (r: Result<TimeoutDeadline, AiMuxError>)
        ensures
            armed(limit, duration_ms, now) == (match r {
                Ok(deadline) => Ok(deadline),
                Err(error) => Err(error@),
            }),
    {
        match now.checked_add(duration_ms) {
            Some(at) => Ok(TimeoutDeadline { limit, duration_ms, at }),
            None => Err(
                AiMuxError::InvalidArgument(
                    join4(
                        limit.label_text(),
                        " timeout of ",
                        decimal_text(duration_ms).as_str(),
                        "ms is out of range",
                    ),
                ),
            ),
        }
    }
}

/// The deadline that lies a duration behind `now`.
pub open spec fn armed(limit: Limit, duration_ms: u64, now: u64) -> Result<TimeoutDeadline, AiMuxErrorView> {
    if now + duration_ms <= u64::MAX {
        Ok(TimeoutDeadline { limit, duration_ms, at: (now + duration_ms) as u64 })
    } else {
        Err(out_of_range(limit, duration_ms))
    }
}

/// The deadline of an optional limit.
pub open spec fn armed_some(limit: Limit, duration_ms: Option<u64>, now: u64) -> Result<
    Option<TimeoutDeadline>,
    AiMuxErrorView,
> {
    match duration_ms {
        None => Ok(None),
        Some(duration_ms) => match armed(limit, duration_ms, now) {
            Ok(deadline) => Ok(Some(deadline)),
            Err(error) => Err(error),
        },
    }
}

/// The deadline of an optional limit.
pub fn arm_some(limit: Limit, duration_ms: Option<u64>, now: u64) -> (r: Result<
    Option<TimeoutDeadline>,
    AiMuxError,
>)
    ensures
        armed_some(limit, duration_ms, now) == (match r {
            Ok(deadline) => Ok(deadline),
            Err(error) => Err(error@),
        }),
{
    match duration_ms {
        None => Ok(None),
        Some(duration_ms) => match TimeoutDeadline::from_now(limit, duration_ms, now) {
            Ok(deadline) => Ok(Some(deadline)),
            Err(error) => Err(error),
        },
    }
}

/// The earlier of two deadlines, the first where they coincide.
pub open spec fn earlier(a: Option<TimeoutDeadline>, b: Option<TimeoutDeadline>) -> Option<TimeoutDeadline> {
    match (a, b) {
        (Some(x), Some(y)) => if y.at < x.at {
            Some(y)
        } else {
            Some(x)
        },
        (Some(x), None) => Some(x),
        (None, b) => b,
    }
}

/// The earlier of two deadlines.
pub fn min_deadline(a: Option<TimeoutDeadline>, b: Option<TimeoutDeadline>) -> (r: Option<TimeoutDeadline>)
    ensures
        r == earlier(a, b),
{
    match (a, b) {
        (Some(x), Some(y)) => if y.at < x.at {
            Some(y)
        } else {
            Some(x)
        },
        (Some(x), None) => Some(x),
        (None, b) => b,
    }
}

/// The name of one cancellation signal, and one absolute budget.
pub struct GenerationControl {
    deadline: Option<TimeoutDeadline>,
    first_chunk: Option<TimeoutDeadline>,
    signal: Option<AbortSignal>,
}

#[verifier::ext_equal]
pub struct ControlView {
    /// The earlier of the total and the step deadline.
    pub deadline: Option<TimeoutDeadline>,
    pub first_chunk: Option<TimeoutDeadline>,
    pub signal: Option<AbortSignal>,
}

impl View for GenerationControl {
    type V = ControlView;

    closed spec fn view(&self) -> ControlView {
        ControlView { deadline: self.deadline, first_chunk: self.first_chunk, signal: self.signal }
    }
}

/// The control that a generation starts with at `now`.
pub open spec fn started(
    configuration: TimeoutConfiguration,
    signal: Option<AbortSignal>,
    now: u64,
) -> Result<ControlView, AiMuxErrorView> {
    match armed_some(Limit::Total, configuration.total_ms, now) {
        Err(error) => Err(error),
        Ok(total) => match armed_some(Limit::Step, configuration.step_ms, now) {
            Err(error) => Err(error),
            Ok(step) => match armed_some(Limit::FirstChunk, configuration.first_chunk_ms, now) {
                Err(error) => Err(error),
                Ok(first_chunk) => Ok(ControlView { deadline: earlier(total, step), first_chunk, signal }),
            },
        },
    }
}

impl ControlView {
    /// Whether the generation is aborted, by what its signal says. Without a
    /// signal nothing aborts it.
    pub open spec fn heeds(self, aborted: bool) -> bool {
        self.signal is Some && aborted
    }

    /// Why the generation has to stop, if it has to: cancellation comes before
    /// the deadline.
    pub open spec fn failure(self, aborted: bool, now: u64) -> Option<AiMuxErrorView> {
        if self.heeds(aborted) {
            Some(AiMuxErrorView::Aborted("request aborted"@))
        } else {
            match self.deadline {
                Some(deadline) => if deadline.passed(now) {
                    Some(deadline.failure())
                } else {
                    None
                },
                None => None,
            }
        }
    }

    /// What the signal says once this control was cancelled.
    pub open spec fn cancelled(self, aborted: bool) -> bool {
        aborted || self.signal is Some
    }
}

impl GenerationControl {
    /// Start a budget at `now`. One control serves all phases of a generation.
    pub fn new(configuration: TimeoutConfiguration, signal: Option<AbortSignal>, now: u64) -> (r: Result<
        GenerationControl,
        AiMuxError,
    >)
        ensures
            started(configuration, signal, now) == (match r {
                Ok(control) => Ok(control@),
                Err(error) => Err(error@),
            }),
    {
        let total = match arm_some(Limit::Total, configuration.total_ms, now) {
            Ok(total) => total,
            Err(error) => return Err(error),
        };
        let step = match arm_some(Limit::Step, configuration.step_ms, now) {
            Ok(step) => step,
            Err(error) => return Err(error),
        };
        match arm_some(Limit::FirstChunk, configuration.first_chunk_ms, now) {
            Ok(first_chunk) => Ok(
                GenerationControl { deadline: min_deadline(total, step), first_chunk, signal },
            ),
            Err(error) => Err(error),
        }
    }

    pub fn signal(&self) -> (r: Option<AbortSignal>)
        ensures
            r == self@.signal,
    {
        self.signal
    }

    pub fn deadline(&self) -> (r: Option<TimeoutDeadline>)
        ensures
            r == self@.deadline,
    {
        self.deadline
    }

    pub fn first_chunk(&self) -> (r: Option<TimeoutDeadline>)
        ensures
            r == self@.first_chunk,
    {
        self.first_chunk
    }

    /// A copy, which shares the signal.
    pub fn copy(&self) -> (r: GenerationControl)
        ensures
            r@ == self@,
    {
        GenerationControl { deadline: self.deadline, first_chunk: self.first_chunk, signal: self.signal }
    }

    /// Abort the signal, where there is one: `aborted` is what it says.
    pub fn cancel(&self, aborted: &mut bool)
        ensures
            *final(aborted) == self@.cancelled(*old(aborted)),
    {
        if self.signal.is_some() {
            *aborted = true;
        }
    }

    /// Observe cancellation or an exhausted budget, `aborted` being what the
    /// signal says; the deadline stays as it is.
    pub fn failure(&self, aborted: bool, now: u64) -> (r: Option<AiMuxError>)
        ensures
            error_view(r) == self@.failure(aborted, now),
    {
        if self.signal.is_some() && aborted {
            return Some(AiMuxError::aborted());
        }
        match self.deadline {
            Some(deadline) => if deadline.at <= now {
                Some(deadline.error())
            } else {
                None
            },
            None => None,
        }
    }

    /// What a phase run under this control comes to: its own outcome counts
    /// only while nothing stops the generation. `None` means that the phase is
    /// to be awaited.
    pub fn settle<T>(&self, aborted: bool, now: u64, outcome: Option<Result<T, AiMuxError>>) -> (r: Option<
        Result<T, AiMuxError>,
    >)
        ensures
            match self@.failure(aborted, now) {
                Some(failure) => r matches Some(Err(error)) && error@ == failure,
                None => r == outcome,
            },
    {
        match self.failure(aborted, now) {
            Some(error) => Some(Err(error)),
            None => outcome,
        }
    }

    /// The deadline of a stream's setup: the budget, or the first output.
    pub fn setup_deadline(&self) -> (r: Option<TimeoutDeadline>)
        ensures
            r == earlier(self@.deadline, self@.first_chunk),
    {
        min_deadline(self.deadline, self.first_chunk)
    }
}

/// A generation that had to stop has to stop ever after, whatever is cancelled
/// meanwhile.
pub proof fn law_failure_is_final(control: ControlView, aborted: bool, now: u64, later: u64)
    requires
        now <= later,
        control.failure(aborted, now) is Some,
    ensures
        control.failure(aborted, later) == control.failure(aborted, now),
        control.failure(control.cancelled(aborted), later) is Some,
{
}

/// Cancelling through one control stops, at once and ever after, every
/// generation whose control shares its signal, a passed deadline or not.
pub proof fn law_cancel_stops_every_copy(control: ControlView, other: ControlView, aborted: bool, now: u64)
    requires
        control.signal is Some,
        other.signal == control.signal,
    ensures
        control.cancelled(aborted),
        other.failure(control.cancelled(aborted), now) == Some(AiMuxErrorView::Aborted("request aborted"@)),
{
}

/// Cancelling twice is cancelling once; without a signal it changes nothing,
/// and nothing that a signal says matters.
pub proof fn law_cancel_is_idempotent(control: ControlView, aborted: bool, now: u64)
    ensures
        control.cancelled(control.cancelled(aborted)) == control.cancelled(aborted),
        control.signal is None ==> control.cancelled(aborted) == aborted,
        control.signal is None ==> control.failure(true, now) == control.failure(false, now),
{
}

/// A budget is absolute: it runs out exactly when the shorter of its total and
/// step limits has elapsed since its start, and reading it moves nothing.
pub proof fn law_budget_is_absolute(
    configuration: TimeoutConfiguration,
    signal: Option<AbortSignal>,
    start: u64,
    now: u64,
    control: ControlView,
)
    requires
        started(configuration, signal, start) == Ok::<ControlView, AiMuxErrorView>(control),
    ensures
        control.failure(false, now) is Some <==> (configuration.total_ms matches Some(ms) && start + ms <= now) || (
        configuration.step_ms matches Some(ms) && start + ms <= now),
{
}

} // verus!
