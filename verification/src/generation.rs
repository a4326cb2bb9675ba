//! A generation as a machine: what to do next, from what came back.
//!
//! The caller makes the provider calls and asks for the repairs; the machine
//! decides when to call again, when to ask, and what the generation comes to.
//! Each step is told the time, `now`, and what the cancellation signal of the
//! generation's control says, `aborted`.
use crate::error::{error_view, errors, AiMuxError, AiMuxErrorView};
use crate::error_text::{after_failures, next_attempt, RetryStep, RetryStepView};
use crate::generate::{
    calls_in, raw_calls_view, raw_of, raw_streamed_call, raw_tool_calls, result_of, text_result, GenerateTextResult,
    TextResultView,
};
use crate::generate_options::{
    convert_to_language_model_prompt, prompt_messages, provider_options_of, sent_messages, split_prompt,
    GenerateOptionsView, GenerateTextOptions,
};
use crate::generation_control::{earlier, started, ControlView, GenerationControl, TimeoutDeadline};
use crate::json_text::text_view;
use crate::message::{messages_view, ModelMessage, ModelMessageView, ModelPrompt};
use crate::options::{CallOptions, CallOptionsView, TimeoutConfiguration};
use crate::parse_tool_call::{
    answer_view, apply_repair_outcome, begin_tool_call, first_step, invalid_call, make_context, outcome_of_answer,
    invalid_tool_call, repair_context, resolved, resolves_to, tool_slice_view, RepairContextView, RepairOutcomeView,
    StepView, ToolCallRepairContext, ToolCallStep,
};
use crate::result::{GenerateResult, GenerateResultView};
use crate::stream_part::{item_view, StreamItem, StreamItemView, StreamPart, StreamPartView};
use crate::stream_pump::{due, PumpView, StreamPump};
use crate::stream_text::{is_terminal, is_terminal_item};
use crate::text::copy_text;
use crate::tool::{
    calls_view, copy_tools, tool_set_view, RawToolCall, RawToolCallView, Tool, ToolCall, ToolCallView, ToolView,
};
use vstd::prelude::*;

verus! {

// Parsing calls.

/// What the calls of a generation are parsed with.
pub struct CallParsing {
    pub tools: Option<Vec<Tool>>,
    pub messages: Vec<ModelMessage>,
    pub instructions: Option<String>,
    /// Whether a call that fails may be repaired.
    pub repairs: bool,
}

#[verifier::ext_equal]
pub struct ParsingView {
    pub tools: Option<Seq<ToolView>>,
    pub messages: Seq<ModelMessageView>,
    pub instructions: Option<Seq<char>>,
    pub repairs: bool,
}

impl View for CallParsing {
    type V = ParsingView;

    open spec fn view(&self) -> ParsingView {
        ParsingView {
            tools: tool_set_view(self.tools),
            messages: messages_view(self.messages@),
            instructions: text_view(self.instructions),
            repairs: self.repairs,
        }
    }
}

impl ParsingView {
    /// How far a call comes without a repair: where none may be asked for, a
    /// failed call is done. `said` are the words in which the tool's schema is
    /// refused, should it not compile.
    pub open spec fn judged(self, call: RawToolCallView, said: Seq<char>) -> StepView {
        match first_step(call, self.tools, said) {
            StepView::Failed(call, error) => if self.repairs {
                StepView::Failed(call, error)
            } else {
                StepView::Done(invalid_call(call, error))
            },
            done => done,
        }
    }

    /// Whether a call can be judged so.
    pub open spec fn judges(self, call: RawToolCallView, step: StepView) -> bool {
        exists|said: Seq<char>| step == #[trigger] self.judged(call, said)
    }

    pub open spec fn context(self, call: RawToolCallView, error: AiMuxErrorView) -> RepairContextView {
        repair_context(call, error, self.tools.unwrap(), self.messages, self.instructions)
    }

    /// Whether a parsed call is one that this call can come to: as it is
    /// judged, or as one answer resolved it.
    pub open spec fn settles(self, call: RawToolCallView, parsed: ToolCallView) -> bool {
        exists|said: Seq<char>| self.settles_from(#[trigger] self.judged(call, said), parsed)
    }

    /// Whether a call that came as far as `step` can come to `parsed`.
    pub open spec fn settles_from(self, step: StepView, parsed: ToolCallView) -> bool {
        match step {
            StepView::Done(done) => parsed == done,
            StepView::Failed(call, error) => exists|answer: Result<Option<RawToolCall>, AiMuxError>|
                resolves_to(call, error, self.tools.unwrap(), #[trigger] answer_view(answer), parsed),
        }
    }
}

impl CallParsing {
    fn tool_slice(&self) -> (r: Option<&[Tool]>)
        ensures
            tool_slice_view(r) == self@.tools,
    {
        match &self.tools {
            Some(tools) => Some(tools.as_slice()),
            None => None,
        }
    }

    /// Parse a call as far as it comes without a repair.
    pub fn judge(&self, call: RawToolCall) -> (r: ToolCallStep)
        ensures
            self@.judges(call@, r@),
    {
        let ghost raw = call@;
        let step = begin_tool_call(call, self.tool_slice());
        proof {
            let said = choose|said: Seq<char>| step@ == #[trigger] first_step(raw, self@.tools, said);
            let told = self@.judged(raw, said);
        }
        match step {
            ToolCallStep::Done(call) => ToolCallStep::Done(call),
            ToolCallStep::Failed { tool_call, error } => if self.repairs {
                ToolCallStep::Failed { tool_call, error }
            } else {
                ToolCallStep::Done(invalid_tool_call(tool_call, error))
            },
        }
    }

    /// What a repair of a failed call is told.
    pub fn context(&self, call: &RawToolCall, error: &AiMuxError) -> (r: ToolCallRepairContext)
        requires
            self@.tools is Some,
        ensures
            r@ == self@.context(call@, error@),
    {
        let instructions: Option<&str> = match &self.instructions {
            Some(text) => Some(text.as_str()),
            None => None,
        };
        match &self.tools {
            Some(tools) => make_context(call, error, tools.as_slice(), self.messages.as_slice(), instructions),
            None => {
                assert(false);
                make_context(call, error, &[], self.messages.as_slice(), instructions)
            },
        }
    }

    /// The call that an answer leads to.
    pub fn settle(
        &self,
        call: RawToolCall,
        error: AiMuxError,
        answer: Result<Option<RawToolCall>, AiMuxError>,
    ) -> (r: ToolCall)
        requires
            self@.tools is Some,
        ensures
            resolves_to(call@, error@, self@.tools.unwrap(), answer_view(answer), r@),
    {
        let outcome = outcome_of_answer(answer);
        match &self.tools {
            Some(tools) => apply_repair_outcome(call, error, tools.as_slice(), outcome),
            None => {
                assert(false);
                apply_repair_outcome(call, error, &[], outcome)
            },
        }
    }
}

/// How far the calls of an answer come: all are parsed, or one waits for its
/// repair.
#[verifier::ext_equal]
pub enum ParsedView {
    All(Seq<ToolCallView>),
    Ask { done: Seq<ToolCallView>, call: RawToolCallView, error: AiMuxErrorView },
}

/// The calls of an answer, parsed one by one behind those that are done.
/// `said` holds for each call the words in which its tool's schema is refused,
/// should it not compile.
pub open spec fn parsed_on(
    p: ParsingView,
    calls: Seq<RawToolCallView>,
    done: Seq<ToolCallView>,
    said: Seq<Seq<char>>,
) -> ParsedView
    decreases calls.len() - done.len(),
{
    if done.len() >= calls.len() {
        ParsedView::All(done)
    } else {
        match p.judged(calls[done.len() as int], said[done.len() as int]) {
            StepView::Done(call) => parsed_on(p, calls, done.push(call), said),
            StepView::Failed(call, error) => ParsedView::Ask { done, call, error },
        }
    }
}

enum Parsed {
    All(Vec<ToolCall>),
    Ask { done: Vec<ToolCall>, call: RawToolCall, error: AiMuxError },
}

impl Parsed {
    spec fn told(self) -> ParsedView {
        match self {
            Parsed::All(calls) => ParsedView::All(calls_view(calls@)),
            Parsed::Ask { done, call, error } => ParsedView::Ask {
                done: calls_view(done@),
                call: call@,
                error: error@,
            },
        }
    }
}

/// Calls that are judged done under these words are parsed on to.
proof fn lemma_parsed_through(
    p: ParsingView,
    calls: Seq<RawToolCallView>,
    first: Seq<ToolCallView>,
    done: Seq<ToolCallView>,
    said: Seq<Seq<char>>,
)
    requires
        first.is_prefix_of(done),
        done.len() <= calls.len(),
        forall|i: int|
            first.len() <= i < done.len() ==> p.judged(calls[i], #[trigger] said[i]) == StepView::Done(done[i]),
    ensures
        parsed_on(p, calls, first, said) == parsed_on(p, calls, done, said),
    decreases done.len() - first.len(),
{
    if first.len() < done.len() {
        let n = first.len() as int;
        assert(p.judged(calls[n], said[n]) == StepView::Done(done[n]));
        assert(first.push(done[n]).is_prefix_of(done));
        lemma_parsed_through(p, calls, first.push(done[n]), done, said);
    } else {
        assert(first =~= done);
    }
}

/// What the calls can come to when they are parsed on. The words of those that
/// are done stand.
spec fn parses_on(
    p: ParsingView,
    calls: Seq<RawToolCallView>,
    done: Seq<ToolCallView>,
    before: Seq<Seq<char>>,
    parsed: ParsedView,
) -> bool {
    exists|said: Seq<Seq<char>>| before.is_prefix_of(said) && parsed == #[trigger] parsed_on(p, calls, done, said)
}

#[verifier::loop_isolation(false)]
fn parse_on(
    parsing: &CallParsing,
    calls: &Vec<RawToolCall>,
    done: Vec<ToolCall>,
    Ghost(before): Ghost<Seq<Seq<char>>>,
) -> (r: Parsed)
    requires
        before.len() == done@.len(),
        done@.len() <= calls@.len(),
    ensures
        parses_on(parsing@, raw_calls_view(calls@), calls_view(done@), before, r.told()),
{
    let ghost all = raw_calls_view(calls@);
    let ghost first = calls_view(done@);
    let ghost mut said = before;
    let mut done = done;
    while done.len() < calls.len()
        invariant
            all == raw_calls_view(calls@),
            first.is_prefix_of(calls_view(done@)),
            before.is_prefix_of(said),
            said.len() == done@.len() <= calls@.len(),
            forall|k: int|
                first.len() <= k < done@.len() ==> parsing@.judged(all[k], #[trigger] said[k]) == StepView::Done(
                    calls_view(done@)[k],
                ),
        decreases calls.len() - done.len(),
    {
        let i: usize = done.len();
        assert(all[i as int] == calls@[i as int]@);
        let step = parsing.judge(calls[i].copy());
        let ghost words = choose|words: Seq<char>| step@ == #[trigger] parsing@.judged(all[i as int], words);
        let ghost settled = calls_view(done@);
        proof {
            said = said.push(words);
        }
        match step {
            ToolCallStep::Done(call) => {
                let ghost told = call@;
                done.push(call);
                assert(calls_view(done@) =~= settled.push(told));
            },
            ToolCallStep::Failed { tool_call, error } => {
                proof {
                    lemma_parsed_through(parsing@, all, first, settled, said);
                }
                return Parsed::Ask { done, call: tool_call, error };
            },
        }
    }
    proof {
        lemma_parsed_through(parsing@, all, first, calls_view(done@), said);
    }
    Parsed::All(done)
}

// Text generations.

/// An answer whose calls wait for the repair of one of them.
struct Asking {
    result: GenerateResult,
    done: Vec<ToolCall>,
    call: RawToolCall,
    error: AiMuxError,
}

enum Phase {
    Calling,
    Asking(Asking),
    Ended,
}

#[verifier::ext_equal]
pub enum PhaseView {
    /// A provider call is under way.
    Calling,
    /// The provider answered; one of its calls waits for its repair.
    Asking {
        result: GenerateResultView,
        done: Seq<ToolCallView>,
        call: RawToolCallView,
        error: AiMuxErrorView,
    },
    Ended,
}

impl Phase {
    spec fn told(self) -> PhaseView {
        match self {
            Phase::Calling => PhaseView::Calling,
            Phase::Asking(asking) => PhaseView::Asking {
                result: asking.result@,
                done: calls_view(asking.done@),
                call: asking.call@,
                error: asking.error@,
            },
            Phase::Ended => PhaseView::Ended,
        }
    }
}

/// One text generation.
pub struct TextGeneration {
    parsing: CallParsing,
    control: GenerationControl,
    max_retries: u32,
    failures: Vec<AiMuxError>,
    phase: Phase,
}

#[verifier::ext_equal]
pub struct GenerationView {
    pub parsing: ParsingView,
    pub control: ControlView,
    pub max_retries: u32,
    /// The failed attempts, oldest first.
    pub failures: Seq<AiMuxErrorView>,
    pub phase: PhaseView,
}

impl View for TextGeneration {
    type V = GenerationView;

    closed spec fn view(&self) -> GenerationView {
        GenerationView {
            parsing: self.parsing@,
            control: self.control@,
            max_retries: self.max_retries,
            failures: errors(self.failures@),
            phase: self.phase.told(),
        }
    }
}

/// What a provider answered.
pub open spec fn answer_told(answer: Result<GenerateResult, AiMuxError>) -> Result<
    GenerateResultView,
    AiMuxErrorView,
> {
    match answer {
        Ok(result) => Ok(result@),
        Err(error) => Err(error@),
    }
}

/// What to do next.
pub enum GenerationStep {
    /// Call the provider.
    Call,
    /// Ask for the repair of a call.
    Ask(ToolCallRepairContext),
    /// Wait for what is under way.
    Wait,
    Done(GenerateTextResult),
    Failed(AiMuxError),
    /// The generation is over.
    Stopped,
}

#[verifier::ext_equal]
pub enum GenerationStepView {
    Call,
    Ask(RepairContextView),
    Wait,
    Done(TextResultView),
    Failed(AiMuxErrorView),
    Stopped,
}

impl View for GenerationStep {
    type V = GenerationStepView;

    open spec fn view(&self) -> GenerationStepView {
        match *self {
            GenerationStep::Call => GenerationStepView::Call,
            GenerationStep::Ask(context) => GenerationStepView::Ask(context@),
            GenerationStep::Wait => GenerationStepView::Wait,
            GenerationStep::Done(result) => GenerationStepView::Done(result@),
            GenerationStep::Failed(error) => GenerationStepView::Failed(error@),
            GenerationStep::Stopped => GenerationStepView::Stopped,
        }
    }
}

/// The control of a generation: that of the operation it is part of, or one
/// of its own.
pub open spec fn control_for(options: GenerateOptionsView, now: u64) -> Result<ControlView, AiMuxErrorView> {
    match options.operation_control {
        Some(control) => Ok(control),
        None => started(
            match options.timeout {
                Some(timeout) => timeout,
                None => TimeoutConfiguration { total_ms: None, step_ms: None, first_chunk_ms: None, chunk_ms: None },
            },
            options.abort_signal,
            now,
        ),
    }
}

/// How often a generation may call again.
pub open spec fn retries_for(options: GenerateOptionsView, default_retries: u32) -> u32 {
    match options.max_retries {
        Some(n) => n,
        None => default_retries,
    }
}

/// What the calls of a generation are parsed with.
pub open spec fn parsing_for(
    messages: Seq<ModelMessageView>,
    options: GenerateOptionsView,
    repairs: bool,
) -> ParsingView {
    ParsingView { tools: options.tools, messages, instructions: options.instructions, repairs }
}

/// What the provider is asked.
pub open spec fn call_for(messages: Seq<ModelMessageView>, options: GenerateOptionsView) -> CallOptionsView {
    provider_options_of(options, sent_messages(messages, options.instructions))
}

/// What every kind of generation starts from.
struct Plan {
    parsing: CallParsing,
    control: GenerationControl,
    chunk_ms: Option<u64>,
    max_retries: u32,
    call: CallOptions,
}

pub open spec fn chunk_limit(options: GenerateOptionsView) -> Option<u64> {
    match options.timeout {
        Some(timeout) => timeout.chunk_ms,
        None => None,
    }
}

fn plan(
    prompt: ModelPrompt,
    options: GenerateTextOptions,
    repairs: bool,
    default_retries: u32,
    now: u64,
) -> (r: Result<Plan, AiMuxError>)
    ensures
        match r {
            Ok(plan) => {
                &&& control_for(options@, now) == Ok::<ControlView, AiMuxErrorView>(plan.control@)
                &&& plan.parsing@ == parsing_for(prompt_messages(prompt), options@, repairs)
                &&& plan.chunk_ms == chunk_limit(options@)
                &&& plan.max_retries == retries_for(options@, default_retries)
                &&& plan.call@ == call_for(prompt_messages(prompt), options@)
            },
            Err(error) => control_for(options@, now) == Err::<ControlView, AiMuxErrorView>(error@),
        },
{
    let timeout: TimeoutConfiguration = match options.timeout {
        Some(timeout) => timeout,
        None => TimeoutConfiguration::none(),
    };
    let control = match &options.operation_control {
        Some(control) => control.copy(),
        None => match GenerationControl::new(timeout, options.abort_signal, now) {
            Ok(control) => control,
            Err(error) => return Err(error),
        },
    };
    let tools: Option<Vec<Tool>> = match &options.tools {
        Some(tools) => Some(copy_tools(tools.as_slice())),
        None => None,
    };
    let instructions: Option<String> = copy_text(&options.instructions);
    let max_retries: u32 = match options.max_retries {
        Some(n) => n,
        None => default_retries,
    };
    let lead: Option<&str> = match &options.instructions {
        Some(text) => Some(text.as_str()),
        None => None,
    };
    let (messages, lead) = split_prompt(prompt, lead);
    let sent = convert_to_language_model_prompt(messages.as_slice(), lead);
    Ok(
        Plan {
            parsing: CallParsing { tools, messages, instructions, repairs },
            control,
            chunk_ms: timeout.chunk_ms,
            max_retries,
            call: options.into_call_options(sent),
        },
    )
}

impl GenerationView {
    pub open spec fn ended(self) -> GenerationView {
        GenerationView { phase: PhaseView::Ended, ..self }
    }

    /// The answer's calls are parsed behind those that are done. `said` holds
    /// for each call the words in which its tool's schema is refused, should
    /// it not compile.
    pub open spec fn parsing_on(
        self,
        result: GenerateResultView,
        done: Seq<ToolCallView>,
        said: Seq<Seq<char>>,
    ) -> (GenerationView, GenerationStepView) {
        match parsed_on(self.parsing, calls_in(result.content), done, said) {
            ParsedView::All(calls) => (self.ended(), GenerationStepView::Done(result_of(result, calls))),
            ParsedView::Ask { done, call, error } => (
                GenerationView { phase: PhaseView::Asking { result, done, call, error }, ..self },
                GenerationStepView::Ask(self.parsing.context(call, error)),
            ),
        }
    }

    /// What a stop means: cancellation and an exhausted budget end the
    /// generation whatever it waits for. `aborted` is what the signal of its
    /// control says.
    pub open spec fn stops(self, aborted: bool, now: u64) -> Option<(GenerationView, GenerationStepView)> {
        if self.phase is Ended {
            Some((self, GenerationStepView::Stopped))
        } else {
            match self.control.failure(aborted, now) {
                Some(error) => Some((self.ended(), GenerationStepView::Failed(error))),
                None => None,
            }
        }
    }

    pub open spec fn ticked(self, aborted: bool, now: u64) -> (GenerationView, GenerationStepView) {
        match self.stops(aborted, now) {
            Some(stop) => stop,
            None => (self, GenerationStepView::Wait),
        }
    }

    /// The provider answered: a failure is tried again or reported, an answer
    /// is parsed.
    pub open spec fn answered(
        self,
        answer: Result<GenerateResultView, AiMuxErrorView>,
        aborted: bool,
        now: u64,
        said: Seq<Seq<char>>,
    ) -> (GenerationView, GenerationStepView) {
        match (self.stops(aborted, now), self.phase) {
            (Some(stop), _) => stop,
            (None, PhaseView::Calling) => match answer {
                Err(error) => {
                    let s = GenerationView { failures: self.failures.push(error), ..self };
                    match after_failures(s.failures, self.max_retries) {
                        RetryStepView::Again => (s, GenerationStepView::Call),
                        RetryStepView::GiveUp(error) => (s.ended(), GenerationStepView::Failed(error)),
                    }
                },
                Ok(result) => self.parsing_on(result, seq![], said),
            },
            (None, _) => (self, GenerationStepView::Wait),
        }
    }

    /// The repair was answered: the call is settled, and the rest is parsed.
    pub open spec fn repaired(self, answer: RepairOutcomeView, aborted: bool, now: u64, said: Seq<Seq<char>>) -> (
        GenerationView,
        GenerationStepView,
    ) {
        match (self.stops(aborted, now), self.phase) {
            (Some(stop), _) => stop,
            (None, PhaseView::Asking { result, done, call, error }) => self.parsing_on(
                result,
                done.push(resolved(call, error, self.parsing.tools.unwrap(), answer, said[done.len() as int])),
                said,
            ),
            (None, _) => (self, GenerationStepView::Wait),
        }
    }

    /// What holds of every generation: a repair is asked for only where it may
    /// be, of the next call, and the calls before it are settled.
    pub open spec fn wf(self) -> bool {
        self.phase matches PhaseView::Asking { result, done, call, error } ==> {
            let calls = calls_in(result.content);
            &&& self.parsing.tools is Some
            &&& done.len() < calls.len()
            &&& self.parsing.judges(calls[done.len() as int], StepView::Failed(call, error))
            &&& forall|i: int| 0 <= i < done.len() ==> self.parsing.settles(calls[i], #[trigger] done[i])
        }
    }
}

/// Parsing on keeps what is settled settled, and asks only where a repair may
/// be asked for.
proof fn lemma_parsed_on(
    p: ParsingView,
    calls: Seq<RawToolCallView>,
    done: Seq<ToolCallView>,
    said: Seq<Seq<char>>,
)
    requires
        done.len() <= calls.len(),
        forall|i: int| 0 <= i < done.len() ==> p.settles(calls[i], #[trigger] done[i]),
    ensures
        match parsed_on(p, calls, done, said) {
            ParsedView::All(all) => all.len() == calls.len() && forall|i: int|
                0 <= i < all.len() ==> p.settles(calls[i], #[trigger] all[i]),
            ParsedView::Ask { done: more, call, error } => {
                &&& p.tools is Some
                &&& done.len() <= more.len() < calls.len()
                &&& p.judges(calls[more.len() as int], StepView::Failed(call, error))
                &&& forall|i: int| 0 <= i < more.len() ==> p.settles(calls[i], #[trigger] more[i])
            },
        },
    decreases calls.len() - done.len(),
{
    if done.len() < calls.len() {
        let step = p.judged(calls[done.len() as int], said[done.len() as int]);
        if let StepView::Done(call) = step {
            let next = done.push(call);
            assert(p.settles_from(step, call));
            assert forall|i: int| 0 <= i < next.len() implies p.settles(calls[i], #[trigger] next[i]) by {
                if i < done.len() {
                    assert(next[i] == done[i]);
                }
            }
            lemma_parsed_on(p, calls, next, said);
        }
    }
}

/// Whether parsing on behind what is done can lead there. The words of the
/// calls that are done stand.
spec fn goes_on(
    s: GenerationView,
    result: GenerateResultView,
    done: Seq<ToolCallView>,
    before: Seq<Seq<char>>,
    next: (GenerationView, GenerationStepView),
) -> bool {
    exists|said: Seq<Seq<char>>| before.is_prefix_of(said) && next == #[trigger] s.parsing_on(result, done, said)
}

impl TextGeneration {
    /// Start a generation: its machine, and what the provider is to be asked.
    pub fn start(
        prompt: ModelPrompt,
        options: GenerateTextOptions,
        repairs: bool,
        default_retries: u32,
        now: u64,
    ) -> (r: Result<(TextGeneration, CallOptions), AiMuxError>)
        ensures
            match r {
                Ok((generation, call)) => {
                    &&& generation@.wf()
                    &&& control_for(options@, now) == Ok::<ControlView, AiMuxErrorView>(generation@.control)
                    &&& generation@ == (GenerationView {
                        parsing: parsing_for(prompt_messages(prompt), options@, repairs),
                        control: generation@.control,
                        max_retries: retries_for(options@, default_retries),
                        failures: seq![],
                        phase: PhaseView::Calling,
                    })
                    &&& call@ == call_for(prompt_messages(prompt), options@)
                },
                Err(error) => control_for(options@, now) == Err::<ControlView, AiMuxErrorView>(error@),
            },
    {
        match plan(prompt, options, repairs, default_retries, now) {
            Err(error) => Err(error),
            Ok(plan) => {
                let generation = TextGeneration {
                    parsing: plan.parsing,
                    control: plan.control,
                    max_retries: plan.max_retries,
                    failures: Vec::new(),
                    phase: Phase::Calling,
                };
                assert(errors(generation.failures@) =~= seq![]);
                Ok((generation, plan.call))
            },
        }
    }

    fn is_over(&self) -> (r: bool)
        ensures
            r == (self@.phase is Ended),
    {
        match &self.phase {
            Phase::Ended => true,
            _ => false,
        }
    }

    fn stop(&mut self, aborted: bool, now: u64) -> (r: Option<GenerationStep>)
        requires
            old(self)@.wf(),
        ensures
            final(self)@.wf(),
            match old(self)@.stops(aborted, now) {
                Some((after, step)) => final(self)@ == after && (r matches Some(s) && s@ == step),
                None => *final(self) == *old(self) && r is None,
            },
    {
        if self.is_over() {
            return Some(GenerationStep::Stopped);
        }
        match self.control.failure(aborted, now) {
            Some(error) => {
                self.phase = Phase::Ended;
                Some(GenerationStep::Failed(error))
            },
            None => None,
        }
    }

    fn go_on(
        &mut self,
        result: GenerateResult,
        done: Vec<ToolCall>,
        Ghost(before): Ghost<Seq<Seq<char>>>,
    ) -> (r: GenerationStep)
        requires
            before.len() == done@.len(),
            done@.len() <= calls_in(result@.content).len(),
            forall|i: int|
                0 <= i < done@.len() ==> old(self)@.parsing.settles(
                    calls_in(result@.content)[i],
                    #[trigger] calls_view(done@)[i],
                ),
        ensures
            final(self)@.wf(),
            goes_on(old(self)@, result@, calls_view(done@), before, (final(self)@, r@)),
    {
        let calls = raw_tool_calls(&result);
        let ghost raws = calls_in(result@.content);
        let ghost settled = calls_view(done@);
        let ghost answer = result@;
        let parsed = parse_on(&self.parsing, &calls, done, Ghost(before));
        proof {
            let said = choose|said: Seq<Seq<char>>|
                before.is_prefix_of(said) && parsed.told() == #[trigger] parsed_on(
                    self@.parsing,
                    raws,
                    settled,
                    said,
                );
            lemma_parsed_on(self@.parsing, raws, settled, said);
            let told = self@.parsing_on(answer, settled, said);
        }
        match parsed {
            Parsed::All(all) => {
                self.phase = Phase::Ended;
                GenerationStep::Done(text_result(result, all))
            },
            Parsed::Ask { done, call, error } => {
                let context = self.parsing.context(&call, &error);
                self.phase = Phase::Asking(Asking { result, done, call, error });
                GenerationStep::Ask(context)
            },
        }
    }

    /// Nothing came back: look whether the generation has to stop.
    pub fn tick(&mut self, aborted: bool, now: u64) -> (r: GenerationStep)
        requires
            old(self)@.wf(),
        ensures
            final(self)@.wf(),
            (final(self)@, r@) == old(self)@.ticked(aborted, now),
    {
        match self.stop(aborted, now) {
            Some(step) => step,
            None => GenerationStep::Wait,
        }
    }

    /// The provider answered.
    pub fn answered(
        &mut self,
        answer: Result<GenerateResult, AiMuxError>,
        aborted: bool,
        now: u64,
    ) -> (r: GenerationStep)
        requires
            old(self)@.wf(),
        ensures
            final(self)@.wf(),
            exists|said: Seq<Seq<char>>|
                (final(self)@, r@) == #[trigger] old(self)@.answered(answer_told(answer), aborted, now, said),
    {
        let ghost start = self@;
        let ghost came = answer_told(answer);
        let ghost told = start.answered(came, aborted, now, seq![]);
        if let Some(step) = self.stop(aborted, now) {
            return step;
        }
        let calling: bool = match &self.phase {
            Phase::Calling => true,
            _ => false,
        };
        if !calling {
            return GenerationStep::Wait;
        }
        match answer {
            Err(error) => {
                let ghost before = errors(self.failures@);
                let ghost said = error@;
                self.failures.push(error);
                assert(errors(self.failures@) =~= before.push(said));
                match next_attempt(&self.failures, self.max_retries) {
                    RetryStep::Again => GenerationStep::Call,
                    RetryStep::GiveUp(error) => {
                        self.phase = Phase::Ended;
                        GenerationStep::Failed(error)
                    },
                }
            },
            Ok(result) => {
                let none: Vec<ToolCall> = Vec::new();
                assert(calls_view(none@) =~= seq![]);
                let step = self.go_on(result, none, Ghost(Seq::empty()));
                proof {
                    let said = choose|said: Seq<Seq<char>>|
                        (self@, step@) == #[trigger] start.parsing_on(came->Ok_0, seq![], said);
                    let told = start.answered(came, aborted, now, said);
                }
                step
            },
        }
    }

    /// The repair that was asked for was answered.
    pub fn repaired(
        &mut self,
        answer: Result<Option<RawToolCall>, AiMuxError>,
        aborted: bool,
        now: u64,
    ) -> (r: GenerationStep)
        requires
            old(self)@.wf(),
        ensures
            final(self)@.wf(),
            exists|said: Seq<Seq<char>>|
                (final(self)@, r@) == #[trigger] old(self)@.repaired(answer_view(answer), aborted, now, said),
    {
        let ghost told = self@.repaired(answer_view(answer), aborted, now, seq![]);
        if let Some(step) = self.stop(aborted, now) {
            return step;
        }
        let asking: bool = match &self.phase {
            Phase::Asking(_) => true,
            _ => false,
        };
        if !asking {
            return GenerationStep::Wait;
        }
        let ghost before = self@;
        let mut phase = Phase::Ended;
        std::mem::swap(&mut self.phase, &mut phase);
        match phase {
            Phase::Asking(asking) => {
                let ghost said = answer;
                let ghost waiting = asking.call@;
                let ghost why = asking.error@;
                let mut done = asking.done;
                let ghost settled = calls_view(done@);
                let call = self.parsing.settle(asking.call, asking.error, answer);
                let ghost parsed = call@;
                let ghost tools = before.parsing.tools.unwrap();
                let ghost words = choose|words: Seq<char>|
                    parsed == #[trigger] resolved(waiting, why, tools, answer_view(said), words);
                let ghost told = Seq::new(settled.len(), |i: int| Seq::<char>::empty()).push(words);
                let ghost result = asking.result@;
                done.push(call);
                proof {
                    let calls = calls_in(asking.result@.content);
                    assert(calls_view(done@) =~= settled.push(parsed));
                    assert(resolves_to(waiting, why, tools, answer_view(said), parsed));
                    let judged = choose|judged: Seq<char>|
                        StepView::Failed(waiting, why) == #[trigger] before.parsing.judged(
                            calls[settled.len() as int],
                            judged,
                        );
                    assert(before.parsing.settles_from(
                        before.parsing.judged(calls[settled.len() as int], judged),
                        parsed,
                    ));
                    assert(before.parsing.settles(calls[settled.len() as int], parsed));
                    assert forall|i: int| 0 <= i < done@.len() implies before.parsing.settles(
                        calls[i],
                        #[trigger] calls_view(done@)[i],
                    ) by {
                        if i < settled.len() {
                            assert(calls_view(done@)[i] == settled[i]);
                        }
                    }
                }
                let ghost open = self@;
                let step = self.go_on(asking.result, done, Ghost(told));
                proof {
                    let all = choose|all: Seq<Seq<char>>|
                        told.is_prefix_of(all) && (self@, step@) == #[trigger] open.parsing_on(
                            result,
                            settled.push(parsed),
                            all,
                        );
                    assert(all[settled.len() as int] == told[settled.len() as int]);
                    assert(open.parsing_on(result, settled.push(parsed), all) == before.parsing_on(
                        result,
                        settled.push(parsed),
                        all,
                    ));
                    let reached = before.repaired(answer_view(said), aborted, now, all);
                }
                step
            },
            _ => {
                assert(false);
                GenerationStep::Wait
            },
        }
    }

    /// The moment at which the generation has to be looked at though nothing
    /// came back.
    pub fn next_deadline(&self) -> (r: Option<TimeoutDeadline>)
        ensures
            r == self@.control.deadline,
    {
        self.control.deadline()
    }
}

// Laws of text generations. `aborted` is what the signal says that the
// generation's control names, `said` how refused schemas are worded.

/// A generation that ended stays as it is, whatever comes back.
pub proof fn law_an_ended_generation_is_inert(
    s: GenerationView,
    answer: Result<GenerateResultView, AiMuxErrorView>,
    repair: RepairOutcomeView,
    aborted: bool,
    now: u64,
    said: Seq<Seq<char>>,
)
    requires
        s.phase is Ended,
    ensures
        s.ticked(aborted, now) == (s, GenerationStepView::Stopped),
        s.answered(answer, aborted, now, said) == (s, GenerationStepView::Stopped),
        s.repaired(repair, aborted, now, said) == (s, GenerationStepView::Stopped),
{
}

/// Cancellation and the deadline end a generation in every phase, and no
/// result comes out any more.
pub proof fn law_a_stop_wins(
    s: GenerationView,
    answer: Result<GenerateResultView, AiMuxErrorView>,
    repair: RepairOutcomeView,
    aborted: bool,
    now: u64,
    said: Seq<Seq<char>>,
)
    requires
        !(s.phase is Ended),
        s.control.failure(aborted, now) is Some,
    ensures
        s.ticked(aborted, now) == (s.ended(), GenerationStepView::Failed(s.control.failure(aborted, now)->0)),
        s.answered(answer, aborted, now, said) == s.ticked(aborted, now),
        s.repaired(repair, aborted, now, said) == s.ticked(aborted, now),
{
}

/// Cancelling through any control that shares the generation's signal fails
/// the generation's next step, whichever it is, as aborted.
pub proof fn law_a_cancelled_generation_is_aborted(
    s: GenerationView,
    control: ControlView,
    answer: Result<GenerateResultView, AiMuxErrorView>,
    repair: RepairOutcomeView,
    aborted: bool,
    now: u64,
    said: Seq<Seq<char>>,
)
    requires
        !(s.phase is Ended),
        control.signal is Some,
        s.control.signal == control.signal,
    ensures
        ({
            let cancelled = control.cancelled(aborted);
            let failed = (s.ended(), GenerationStepView::Failed(AiMuxErrorView::Aborted("request aborted"@)));
            &&& s.ticked(cancelled, now) == failed
            &&& s.answered(answer, cancelled, now, said) == failed
            &&& s.repaired(repair, cancelled, now, said) == failed
        }),
{
}

/// A generation has one outcome: it ends with its result or its failure, and
/// with nothing else.
pub proof fn law_one_outcome(
    s: GenerationView,
    answer: Result<GenerateResultView, AiMuxErrorView>,
    repair: RepairOutcomeView,
    aborted: bool,
    now: u64,
    said: Seq<Seq<char>>,
)
    requires
        !(s.phase is Ended),
    ensures
        ({
            let (after, step) = s.ticked(aborted, now);
            after.phase is Ended <==> step is Done || step is Failed
        }),
        ({
            let (after, step) = s.answered(answer, aborted, now, said);
            after.phase is Ended <==> step is Done || step is Failed
        }),
        ({
            let (after, step) = s.repaired(repair, aborted, now, said);
            after.phase is Ended <==> step is Done || step is Failed
        }),
{
}

/// What a generation comes to holds one call for each that the provider made,
/// in order, each settled as that call can be.
pub proof fn law_every_call_is_settled(
    s: GenerationView,
    result: GenerateResultView,
    aborted: bool,
    now: u64,
    said: Seq<Seq<char>>,
)
    requires
        s.phase is Calling,
        s.answered(Ok(result), aborted, now, said).1 is Done,
    ensures
        ({
            let calls = calls_in(result.content);
            let done = s.answered(Ok(result), aborted, now, said).1->Done_0;
            &&& done.raw == result
            &&& done.tool_calls.len() == calls.len()
            &&& forall|i: int|
                0 <= i < calls.len() ==> s.parsing.settles(calls[i], #[trigger] done.tool_calls[i])
        }),
{
    lemma_parsed_on(s.parsing, calls_in(result.content), seq![], said);
}

/// A repair settles the call that waited and leaves those before it; what is
/// asked next is a later call, so a call is asked for at most once.
pub proof fn law_a_repair_goes_forward(
    s: GenerationView,
    repair: RepairOutcomeView,
    aborted: bool,
    now: u64,
    said: Seq<Seq<char>>,
)
    requires
        s.phase is Asking,
        s.control.failure(aborted, now) is None,
        s.phase->Asking_done.len() < calls_in(s.phase->Asking_result.content).len(),
    ensures
        ({
            let (after, step) = s.repaired(repair, aborted, now, said);
            let before = s.phase->Asking_done;
            let settled = before.push(
                resolved(
                    s.phase->Asking_call,
                    s.phase->Asking_error,
                    s.parsing.tools.unwrap(),
                    repair,
                    said[before.len() as int],
                ),
            );
            match step {
                GenerationStepView::Done(result) => {
                    &&& after == s.ended()
                    &&& settled.is_prefix_of(result.tool_calls)
                    &&& result.tool_calls.len() == calls_in(s.phase->Asking_result.content).len()
                },
                GenerationStepView::Ask(_) => {
                    &&& after.phase matches PhaseView::Asking { result, done, .. }
                    &&& result == s.phase->Asking_result
                    &&& before.len() < done.len() < calls_in(result.content).len()
                    &&& settled.is_prefix_of(done)
                },
                _ => false,
            }
        }),
{
    let before = s.phase->Asking_done;
    let done = before.push(
        resolved(
            s.phase->Asking_call,
            s.phase->Asking_error,
            s.parsing.tools.unwrap(),
            repair,
            said[before.len() as int],
        ),
    );
    lemma_parsed_on_extends(s.parsing, calls_in(s.phase->Asking_result.content), done, said);
}

proof fn lemma_parsed_on_extends(
    p: ParsingView,
    calls: Seq<RawToolCallView>,
    done: Seq<ToolCallView>,
    said: Seq<Seq<char>>,
)
    requires
        done.len() <= calls.len(),
    ensures
        match parsed_on(p, calls, done, said) {
            ParsedView::All(all) => done.is_prefix_of(all) && all.len() == calls.len(),
            ParsedView::Ask { done: more, .. } => done.is_prefix_of(more) && more.len() < calls.len(),
        },
    decreases calls.len() - done.len(),
{
    if done.len() < calls.len() {
        if let StepView::Done(call) = p.judged(calls[done.len() as int], said[done.len() as int]) {
            lemma_parsed_on_extends(p, calls, done.push(call), said);
            assert(done.is_prefix_of(done.push(call)));
        }
    }
}

/// Where no repair may be asked for, an answer is always parsed to the end.
pub proof fn law_without_repairs_nothing_is_asked(
    s: GenerationView,
    result: GenerateResultView,
    aborted: bool,
    now: u64,
    said: Seq<Seq<char>>,
)
    requires
        s.phase is Calling,
        !s.parsing.repairs,
        s.control.failure(aborted, now) is None,
    ensures
        s.answered(Ok(result), aborted, now, said).1 is Done,
{
    lemma_parsed_on(s.parsing, calls_in(result.content), seq![], said);
}

// Streamed generations.

enum StreamPhase {
    Opening,
    Open,
    Asking { call: RawToolCall, error: AiMuxError },
    Ended,
}

#[verifier::ext_equal]
pub enum StreamPhaseView {
    /// The provider's stream is being opened.
    Opening,
    Open,
    /// A streamed call waits for its repair.
    Asking { call: RawToolCallView, error: AiMuxErrorView },
    Ended,
}

impl StreamPhase {
    spec fn told(self) -> StreamPhaseView {
        match self {
            StreamPhase::Opening => StreamPhaseView::Opening,
            StreamPhase::Open => StreamPhaseView::Open,
            StreamPhase::Asking { call, error } => StreamPhaseView::Asking { call: call@, error: error@ },
            StreamPhase::Ended => StreamPhaseView::Ended,
        }
    }
}

/// One streamed generation, as its consumer meets it.
pub struct StreamGeneration {
    parsing: CallParsing,
    control: GenerationControl,
    chunk_ms: Option<u64>,
    max_retries: u32,
    failures: Vec<AiMuxError>,
    phase: StreamPhase,
}

#[verifier::ext_equal]
pub struct StreamGenerationView {
    pub parsing: ParsingView,
    pub control: ControlView,
    pub chunk_ms: Option<u64>,
    pub max_retries: u32,
    pub failures: Seq<AiMuxErrorView>,
    pub phase: StreamPhaseView,
}

impl View for StreamGeneration {
    type V = StreamGenerationView;

    closed spec fn view(&self) -> StreamGenerationView {
        StreamGenerationView {
            parsing: self.parsing@,
            control: self.control@,
            chunk_ms: self.chunk_ms,
            max_retries: self.max_retries,
            failures: errors(self.failures@),
            phase: self.phase.told(),
        }
    }
}

/// What to do next.
pub enum StreamStep {
    /// Ask the provider for its stream.
    Call,
    /// The stream is open; its provider's side is driven by a pump.
    Open(StreamPump),
    /// Ask for the repair of a call.
    Ask(ToolCallRepairContext),
    /// Hand an item to the consumer.
    Yield(StreamItem),
    Wait,
    /// The stream could not be opened.
    Failed(AiMuxError),
    /// The stream is over.
    Stopped,
}

#[verifier::ext_equal]
pub enum StreamStepView {
    Call,
    Open(PumpView),
    Ask(RepairContextView),
    Yield(StreamItemView),
    Wait,
    Failed(AiMuxErrorView),
    Stopped,
}

impl View for StreamStep {
    type V = StreamStepView;

    open spec fn view(&self) -> StreamStepView {
        match *self {
            StreamStep::Call => StreamStepView::Call,
            StreamStep::Open(pump) => StreamStepView::Open(pump@),
            StreamStep::Ask(context) => StreamStepView::Ask(context@),
            StreamStep::Yield(item) => StreamStepView::Yield(item_view(item)),
            StreamStep::Wait => StreamStepView::Wait,
            StreamStep::Failed(error) => StreamStepView::Failed(error@),
            StreamStep::Stopped => StreamStepView::Stopped,
        }
    }
}

impl StreamGenerationView {
    pub open spec fn in_phase(self, phase: StreamPhaseView) -> StreamGenerationView {
        StreamGenerationView { phase, ..self }
    }

    /// Why the stream cannot be opened any more: the budget for the first
    /// output counts from the start, so it bounds opening as well.
    pub open spec fn setup_failure(self, aborted: bool, now: u64) -> Option<AiMuxErrorView> {
        let deadline = earlier(self.control.deadline, self.control.first_chunk);
        if self.control.heeds(aborted) {
            Some(AiMuxErrorView::Aborted("request aborted"@))
        } else if due(deadline, now) {
            Some(deadline->0.failure())
        } else {
            None
        }
    }

    /// What a stop means: opening fails, and a stream with a waiting call ends
    /// with the error as its last item. An open stream hears of a stop from
    /// its pump and tap.
    pub open spec fn stops(self, aborted: bool, now: u64) -> Option<(StreamGenerationView, StreamStepView)> {
        match self.phase {
            StreamPhaseView::Ended => Some((self, StreamStepView::Stopped)),
            StreamPhaseView::Opening => match self.setup_failure(aborted, now) {
                Some(error) => Some((self.in_phase(StreamPhaseView::Ended), StreamStepView::Failed(error))),
                None => None,
            },
            StreamPhaseView::Asking { .. } => match self.control.failure(aborted, now) {
                Some(error) => Some((self.in_phase(StreamPhaseView::Ended), StreamStepView::Yield(Err(error)))),
                None => None,
            },
            StreamPhaseView::Open => None,
        }
    }

    pub open spec fn ticked(self, aborted: bool, now: u64) -> (StreamGenerationView, StreamStepView) {
        match self.stops(aborted, now) {
            Some(stop) => stop,
            None => (self, StreamStepView::Wait),
        }
    }

    /// The provider answered the request for its stream: only opening is tried
    /// again.
    pub open spec fn opened(self, answer: Result<(), AiMuxErrorView>, aborted: bool, now: u64) -> (
        StreamGenerationView,
        StreamStepView,
    ) {
        match (self.stops(aborted, now), self.phase) {
            (Some(stop), _) => stop,
            (None, StreamPhaseView::Opening) => match answer {
                Err(error) => {
                    let s = StreamGenerationView { failures: self.failures.push(error), ..self };
                    match after_failures(s.failures, self.max_retries) {
                        RetryStepView::Again => (s, StreamStepView::Call),
                        RetryStepView::GiveUp(error) => (
                            s.in_phase(StreamPhaseView::Ended),
                            StreamStepView::Failed(error),
                        ),
                    }
                },
                Ok(_) => (
                    self.in_phase(StreamPhaseView::Open),
                    StreamStepView::Open(
                        PumpView {
                            operation_deadline: self.control.deadline,
                            chunk_deadline: self.control.first_chunk,
                            chunk_ms: self.chunk_ms,
                            ended: false,
                        },
                    ),
                ),
            },
            (None, _) => (self, StreamStepView::Wait),
        }
    }

    /// An item arrived: calls are parsed, everything else is handed on, and
    /// the stream is over behind its terminal item. `said` are the words in
    /// which the tool's schema is refused, should it not compile.
    pub open spec fn on_item(self, item: StreamItemView, aborted: bool, now: u64, said: Seq<char>) -> (
        StreamGenerationView,
        StreamStepView,
    ) {
        match (self.stops(aborted, now), self.phase) {
            (Some(stop), _) => stop,
            (None, StreamPhaseView::Open) => match item {
                Ok(StreamPartView::ToolCall(call)) => match self.parsing.judged(raw_of(call), said) {
                    StepView::Done(parsed) => (self, StreamStepView::Yield(Ok(StreamPartView::ToolCall(parsed)))),
                    StepView::Failed(call, error) => (
                        self.in_phase(StreamPhaseView::Asking { call, error }),
                        StreamStepView::Ask(self.parsing.context(call, error)),
                    ),
                },
                _ => (
                    if is_terminal(item) {
                        self.in_phase(StreamPhaseView::Ended)
                    } else {
                        self
                    },
                    StreamStepView::Yield(item),
                ),
            },
            (None, _) => (self, StreamStepView::Wait),
        }
    }

    /// The repair was answered: the call that waited is handed on.
    pub open spec fn repaired(self, answer: RepairOutcomeView, aborted: bool, now: u64, said: Seq<char>) -> (
        StreamGenerationView,
        StreamStepView,
    ) {
        match (self.stops(aborted, now), self.phase) {
            (Some(stop), _) => stop,
            (None, StreamPhaseView::Asking { call, error }) => (
                self.in_phase(StreamPhaseView::Open),
                StreamStepView::Yield(
                    Ok(StreamPartView::ToolCall(resolved(call, error, self.parsing.tools.unwrap(), answer, said))),
                ),
            ),
            (None, _) => (self, StreamStepView::Wait),
        }
    }

    /// What holds of every streamed generation: a repair is asked for only
    /// where there are tools.
    pub open spec fn wf(self) -> bool {
        self.phase is Asking ==> self.parsing.tools is Some
    }
}

impl StreamGeneration {
    /// Start a streamed generation: its machine, and what the provider is to
    /// be asked.
    pub fn start(
        prompt: ModelPrompt,
        options: GenerateTextOptions,
        repairs: bool,
        default_retries: u32,
        now: u64,
    ) -> (r: Result<(StreamGeneration, CallOptions), AiMuxError>)
        ensures
            match r {
                Ok((generation, call)) => {
                    &&& generation@.wf()
                    &&& control_for(options@, now) == Ok::<ControlView, AiMuxErrorView>(generation@.control)
                    &&& generation@ == (StreamGenerationView {
                        parsing: parsing_for(prompt_messages(prompt), options@, repairs),
                        control: generation@.control,
                        chunk_ms: chunk_limit(options@),
                        max_retries: retries_for(options@, default_retries),
                        failures: seq![],
                        phase: StreamPhaseView::Opening,
                    })
                    &&& call@ == call_for(prompt_messages(prompt), options@)
                },
                Err(error) => control_for(options@, now) == Err::<ControlView, AiMuxErrorView>(error@),
            },
    {
        match plan(prompt, options, repairs, default_retries, now) {
            Err(error) => Err(error),
            Ok(plan) => {
                let generation = StreamGeneration {
                    parsing: plan.parsing,
                    control: plan.control,
                    chunk_ms: plan.chunk_ms,
                    max_retries: plan.max_retries,
                    failures: Vec::new(),
                    phase: StreamPhase::Opening,
                };
                assert(errors(generation.failures@) =~= seq![]);
                Ok((generation, plan.call))
            },
        }
    }

    fn setup_failure(&self, aborted: bool, now: u64) -> (r: Option<AiMuxError>)
        ensures
            error_view(r) == self@.setup_failure(aborted, now),
    {
        if self.control.signal().is_some() && aborted {
            return Some(AiMuxError::aborted());
        }
        match self.control.setup_deadline() {
            Some(deadline) => if deadline.at <= now {
                Some(deadline.error())
            } else {
                None
            },
            None => None,
        }
    }

    fn stop(&mut self, aborted: bool, now: u64) -> (r: Option<StreamStep>)
        requires
            old(self)@.wf(),
        ensures
            final(self)@.wf(),
            match old(self)@.stops(aborted, now) {
                Some((after, step)) => final(self)@ == after && (r matches Some(s) && s@ == step),
                None => *final(self) == *old(self) && r is None,
            },
    {
        match &self.phase {
            StreamPhase::Ended => Some(StreamStep::Stopped),
            StreamPhase::Opening => match self.setup_failure(aborted, now) {
                Some(error) => {
                    self.phase = StreamPhase::Ended;
                    Some(StreamStep::Failed(error))
                },
                None => None,
            },
            StreamPhase::Asking { .. } => match self.control.failure(aborted, now) {
                Some(error) => {
                    self.phase = StreamPhase::Ended;
                    Some(StreamStep::Yield(Err(error)))
                },
                None => None,
            },
            StreamPhase::Open => None,
        }
    }

    /// Nothing came back: look whether the stream has to stop.
    pub fn tick(&mut self, aborted: bool, now: u64) -> (r: StreamStep)
        requires
            old(self)@.wf(),
        ensures
            final(self)@.wf(),
            (final(self)@, r@) == old(self)@.ticked(aborted, now),
    {
        match self.stop(aborted, now) {
            Some(step) => step,
            None => StreamStep::Wait,
        }
    }

    /// The provider answered the request for its stream.
    pub fn opened(&mut self, answer: Result<(), AiMuxError>, aborted: bool, now: u64) -> (r: StreamStep)
        requires
            old(self)@.wf(),
        ensures
            final(self)@.wf(),
            (final(self)@, r@) == old(self)@.opened(
                match answer {
                    Ok(_) => Ok(()),
                    Err(error) => Err(error@),
                },
                aborted,
                now,
            ),
    {
        if let Some(step) = self.stop(aborted, now) {
            return step;
        }
        let opening: bool = match &self.phase {
            StreamPhase::Opening => true,
            _ => false,
        };
        if !opening {
            return StreamStep::Wait;
        }
        match answer {
            Err(error) => {
                let ghost before = errors(self.failures@);
                let ghost said = error@;
                self.failures.push(error);
                assert(errors(self.failures@) =~= before.push(said));
                match next_attempt(&self.failures, self.max_retries) {
                    RetryStep::Again => StreamStep::Call,
                    RetryStep::GiveUp(error) => {
                        self.phase = StreamPhase::Ended;
                        StreamStep::Failed(error)
                    },
                }
            },
            Ok(_) => {
                self.phase = StreamPhase::Open;
                StreamStep::Open(StreamPump::new(&self.control, self.chunk_ms))
            },
        }
    }

    /// An item arrived.
    pub fn on_item(&mut self, item: StreamItem, aborted: bool, now: u64) -> (r: StreamStep)
        requires
            old(self)@.wf(),
        ensures
            final(self)@.wf(),
            exists|said: Seq<char>|
                (final(self)@, r@) == #[trigger] old(self)@.on_item(item_view(item), aborted, now, said),
    {
        let ghost start = self@;
        let ghost arrived = item_view(item);
        let ghost told = start.on_item(arrived, aborted, now, seq![]);
        if let Some(step) = self.stop(aborted, now) {
            return step;
        }
        let open: bool = match &self.phase {
            StreamPhase::Open => true,
            _ => false,
        };
        if !open {
            return StreamStep::Wait;
        }
        match item {
            Ok(StreamPart::ToolCall(call)) => {
                let step = self.parsing.judge(raw_streamed_call(&call));
                proof {
                    let said = choose|said: Seq<char>| step@ == #[trigger] self@.parsing.judged(raw_of(call@), said);
                    let told = start.on_item(arrived, aborted, now, said);
                }
                match step {
                    ToolCallStep::Done(parsed) => StreamStep::Yield(Ok(StreamPart::ToolCall(parsed))),
                    ToolCallStep::Failed { tool_call, error } => {
                        let context = self.parsing.context(&tool_call, &error);
                        self.phase = StreamPhase::Asking { call: tool_call, error };
                        StreamStep::Ask(context)
                    },
                }
            },
            item => {
                if is_terminal_item(&item) {
                    self.phase = StreamPhase::Ended;
                }
                StreamStep::Yield(item)
            },
        }
    }

    /// The repair that was asked for was answered.
    pub fn repaired(
        &mut self,
        answer: Result<Option<RawToolCall>, AiMuxError>,
        aborted: bool,
        now: u64,
    ) -> (r: StreamStep)
        requires
            old(self)@.wf(),
        ensures
            final(self)@.wf(),
            exists|said: Seq<char>|
                (final(self)@, r@) == #[trigger] old(self)@.repaired(answer_view(answer), aborted, now, said),
    {
        let ghost start = self@;
        let ghost outcome = answer_view(answer);
        let ghost told = start.repaired(outcome, aborted, now, seq![]);
        if let Some(step) = self.stop(aborted, now) {
            return step;
        }
        let asking: bool = match &self.phase {
            StreamPhase::Asking { .. } => true,
            _ => false,
        };
        if !asking {
            return StreamStep::Wait;
        }
        let mut phase = StreamPhase::Open;
        std::mem::swap(&mut self.phase, &mut phase);
        match phase {
            StreamPhase::Asking { call, error } => {
                let ghost origin = (call@, error@);
                let settled = self.parsing.settle(call, error, answer);
                proof {
                    let said = choose|said: Seq<char>|
                        settled@ == #[trigger] resolved(
                            origin.0,
                            origin.1,
                            start.parsing.tools.unwrap(),
                            outcome,
                            said,
                        );
                    let told = start.repaired(outcome, aborted, now, said);
                }
                StreamStep::Yield(Ok(StreamPart::ToolCall(settled)))
            },
            _ => {
                assert(false);
                StreamStep::Wait
            },
        }
    }

    /// The moment at which the generation has to be looked at though nothing
    /// came back: an open stream is watched by its pump.
    pub fn next_deadline(&self) -> (r: Option<TimeoutDeadline>)
        ensures
            r == (match self@.phase {
                StreamPhaseView::Opening => earlier(self@.control.deadline, self@.control.first_chunk),
                StreamPhaseView::Asking { .. } => self@.control.deadline,
                _ => None,
            }),
    {
        match &self.phase {
            StreamPhase::Opening => self.control.setup_deadline(),
            StreamPhase::Asking { .. } => self.control.deadline(),
            _ => None,
        }
    }
}

// Laws of streamed generations.

/// Once a stream is open it is never asked for again: nothing that arrives
/// leads to another call of the provider.
pub proof fn law_an_open_stream_is_not_retried(
    s: StreamGenerationView,
    answer: Result<(), AiMuxErrorView>,
    item: StreamItemView,
    repair: RepairOutcomeView,
    aborted: bool,
    now: u64,
    said: Seq<char>,
)
    requires
        !(s.phase is Opening),
    ensures
        ({
            let (after, step) = s.opened(answer, aborted, now);
            !(step is Call) && !(after.phase is Opening)
        }),
        ({
            let (after, step) = s.on_item(item, aborted, now, said);
            !(step is Call) && !(after.phase is Opening)
        }),
        ({
            let (after, step) = s.repaired(repair, aborted, now, said);
            !(step is Call) && !(after.phase is Opening)
        }),
        ({
            let (after, step) = s.ticked(aborted, now);
            !(step is Call) && !(after.phase is Opening)
        }),
{
}

/// Every item is handed on as it is but a call, which is handed on as a call
/// that it can come to, at once or behind one repair.
pub proof fn law_items_are_handed_on(
    s: StreamGenerationView,
    item: StreamItemView,
    said: Seq<char>,
    repair: RepairOutcomeView,
    repair_said: Seq<char>,
    aborted: bool,
    now: u64,
)
    requires
        s.phase is Open,
    ensures
        match item {
            Ok(StreamPartView::ToolCall(call)) => match s.on_item(item, aborted, now, said) {
                (after, StreamStepView::Yield(Ok(StreamPartView::ToolCall(parsed)))) => {
                    &&& after == s
                    &&& s.parsing.judged(raw_of(call), said) == StepView::Done(parsed)
                },
                (after, StreamStepView::Ask(context)) => {
                    &&& s.parsing.judged(raw_of(call), said) is Failed
                    &&& after.control.failure(aborted, now) is None ==> {
                        let (again, step) = after.repaired(repair, aborted, now, repair_said);
                        &&& again == s
                        &&& step == StreamStepView::Yield(
                            Ok(
                                StreamPartView::ToolCall(
                                    resolved(
                                        s.parsing.judged(raw_of(call), said)->Failed_0,
                                        s.parsing.judged(raw_of(call), said)->Failed_1,
                                        s.parsing.tools.unwrap(),
                                        repair,
                                        repair_said,
                                    ),
                                ),
                            ),
                        )
                    }
                },
                _ => false,
            },
            _ => s.on_item(item, aborted, now, said).1 == StreamStepView::Yield(item),
        },
{
}

/// A stop while a call waits for its repair is the stream's last item.
pub proof fn law_a_stop_ends_a_waiting_stream(
    s: StreamGenerationView,
    repair: RepairOutcomeView,
    aborted: bool,
    now: u64,
    said: Seq<char>,
)
    requires
        s.phase is Asking,
        s.control.failure(aborted, now) is Some,
    ensures
        s.repaired(repair, aborted, now, said) == (
            s.in_phase(StreamPhaseView::Ended),
            StreamStepView::Yield(Err(s.control.failure(aborted, now)->0)),
        ),
        s.ticked(aborted, now) == s.repaired(repair, aborted, now, said),
{
}

/// Cancelling through any control that shares the stream's signal fails its
/// opening, and ends it behind the error while a call waits for its repair. An
/// open stream hears of it from its pump and tap.
pub proof fn law_a_cancelled_stream_is_aborted(
    s: StreamGenerationView,
    control: ControlView,
    answer: Result<(), AiMuxErrorView>,
    repair: RepairOutcomeView,
    aborted: bool,
    now: u64,
    said: Seq<char>,
)
    requires
        control.signal is Some,
        s.control.signal == control.signal,
    ensures
        ({
            let cancelled = control.cancelled(aborted);
            let ended = s.in_phase(StreamPhaseView::Ended);
            let error = AiMuxErrorView::Aborted("request aborted"@);
            &&& s.phase is Opening ==> {
                &&& s.ticked(cancelled, now) == (ended, StreamStepView::Failed(error))
                &&& s.opened(answer, cancelled, now) == (ended, StreamStepView::Failed(error))
            }
            &&& s.phase is Asking ==> {
                &&& s.ticked(cancelled, now) == (ended, StreamStepView::Yield(Err(error)))
                &&& s.repaired(repair, cancelled, now, said) == (ended, StreamStepView::Yield(Err(error)))
            }
        }),
{
}

/// The budget for the first output bounds opening: where it has passed, no
/// stream is opened.
pub proof fn law_the_first_output_bounds_opening(
    s: StreamGenerationView,
    answer: Result<(), AiMuxErrorView>,
    aborted: bool,
    now: u64,
)
    requires
        s.phase is Opening,
        due(s.control.first_chunk, now),
    ensures
        s.opened(answer, aborted, now).0.phase is Ended,
        s.opened(answer, aborted, now).1 is Failed,
{
}

} // verus!
