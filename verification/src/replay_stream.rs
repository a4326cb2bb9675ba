//! Rebuilding a streamed generation from a recorded OpenAI event stream.
use crate::error::{AiMuxError, AiMuxErrorView};
use crate::json::{documents, lemma_model, Json, JsonView};
use crate::json_text::{json_parse, parse_json, text_view};
use crate::replay_wire::{finish_of, parse_finish, parse_usage, text_at, usage_of};
use crate::stream_part::{stream_view, StreamPart, StreamPartView};
use crate::text::{blocks, same_text, split_blocks, strip_prefix, texts, trim, trimmed, unprefixed};
use crate::tool::{ToolCall, ToolCallView};
use crate::types::{
    no_usage, FinishReason, FinishReasonUnified, FinishReasonView, ResponseMetadata, ResponseMetadataView, Usage,
    UsageView,
};
use crate::wire::json_string;
use vstd::prelude::*;
use vstd::string::*;

verus! {

/// A tool call that is being put together from its deltas.
pub struct PartialCall {
    pub index: u64,
    pub id: String,
    pub name: String,
    pub arguments: String,
}

#[verifier::ext_equal]
pub struct PartialCallView {
    pub index: u64,
    pub id: Seq<char>,
    pub name: Seq<char>,
    pub arguments: Seq<char>,
}

impl View for PartialCall {
    type V = PartialCallView;

    open spec fn view(&self) -> PartialCallView {
        PartialCallView {
            index: self.index,
            id: self.id@,
            name: self.name@,
            arguments: self.arguments@,
        }
    }
}

pub open spec fn partial_calls(list: Seq<PartialCall>) -> Seq<PartialCallView> {
    Seq::new(list.len(), |i: int| list[i]@)
}

/// A stream as far as it has been rebuilt.
pub struct Rebuild {
    pub parts: Vec<StreamPart>,
    pub text_open: bool,
    pub reasoning_open: bool,
    pub metadata_sent: bool,
    pub usage: Usage,
    pub finish: Option<FinishReason>,
    pub calls: Vec<PartialCall>,
    pub saw_choices: bool,
}

#[verifier::ext_equal]
pub struct RebuildView {
    pub parts: Seq<StreamPartView>,
    pub text_open: bool,
    pub reasoning_open: bool,
    pub metadata_sent: bool,
    pub usage: UsageView,
    pub finish: Option<FinishReasonView>,
    pub calls: Seq<PartialCallView>,
    pub saw_choices: bool,
}

pub open spec fn finish_view(finish: Option<FinishReason>) -> Option<FinishReasonView> {
    match finish {
        Some(finish) => Some(finish@),
        None => None,
    }
}

impl View for Rebuild {
    type V = RebuildView;

    open spec fn view(&self) -> RebuildView {
        RebuildView {
            parts: stream_view(self.parts@),
            text_open: self.text_open,
            reasoning_open: self.reasoning_open,
            metadata_sent: self.metadata_sent,
            usage: self.usage@,
            finish: finish_view(self.finish),
            calls: partial_calls(self.calls@),
            saw_choices: self.saw_choices,
        }
    }
}

pub open spec fn text_segment() -> Seq<char> {
    "0"@
}

pub open spec fn reasoning_segment() -> Seq<char> {
    "reasoning-0"@
}

/// Nothing read yet: the stream has only started.
pub open spec fn fresh() -> RebuildView {
    RebuildView {
        parts: seq![StreamPartView::StreamStart { warnings: Seq::empty() }],
        text_open: false,
        reasoning_open: false,
        metadata_sent: false,
        usage: no_usage(),
        finish: None,
        calls: Seq::empty(),
        saw_choices: false,
    }
}

impl RebuildView {
    pub open spec fn emit(self, part: StreamPartView) -> RebuildView {
        RebuildView { parts: self.parts.push(part), ..self }
    }

    /// An open reasoning segment ends.
    pub open spec fn close_reasoning(self) -> RebuildView {
        if self.reasoning_open {
            RebuildView {
                reasoning_open: false,
                ..self.emit(
                    StreamPartView::ReasoningEnd { id: reasoning_segment(), provider_metadata: None },
                )
            }
        } else {
            self
        }
    }

    /// An open text segment ends.
    pub open spec fn close_text(self) -> RebuildView {
        if self.text_open {
            RebuildView {
                text_open: false,
                ..self.emit(StreamPartView::TextEnd { id: text_segment(), provider_metadata: None })
            }
        } else {
            self
        }
    }

    /// Reasoning arrived: the segment opens with its first text.
    pub open spec fn on_reasoning(self, text: Seq<char>) -> RebuildView {
        if text.len() == 0 {
            self
        } else {
            let opened = if self.reasoning_open {
                self
            } else {
                RebuildView {
                    reasoning_open: true,
                    ..self.emit(
                        StreamPartView::ReasoningStart { id: reasoning_segment(), provider_metadata: None },
                    )
                }
            };
            opened.emit(
                StreamPartView::ReasoningDelta {
                    id: reasoning_segment(),
                    delta: text,
                    provider_metadata: None,
                },
            )
        }
    }

    /// Text arrived: it ends the reasoning, and the segment opens with its
    /// first text.
    pub open spec fn on_text(self, text: Seq<char>) -> RebuildView {
        if text.len() == 0 {
            self
        } else {
            let closed = self.close_reasoning();
            let opened = if closed.text_open {
                closed
            } else {
                RebuildView {
                    text_open: true,
                    ..closed.emit(StreamPartView::TextStart { id: text_segment(), provider_metadata: None })
                }
            };
            opened.emit(
                StreamPartView::TextDelta { id: text_segment(), delta: text, provider_metadata: None },
            )
        }
    }

    /// A tool-call delta arrived. The first of its index starts the call and
    /// is silent about empty arguments; a later one always adds its own.
    pub open spec fn on_call(self, entry: JsonView) -> RebuildView {
        let index = call_index(entry);
        let function = entry.at("function"@);
        let p = call_place(self.calls, index);
        let is_new = p >= self.calls.len();
        let started = if is_new {
            let call = PartialCallView {
                index,
                id: text_at(entry, "id"@),
                name: text_at(function, "name"@),
                arguments: Seq::empty(),
            };
            RebuildView {
                calls: self.calls.push(call),
                ..self.emit(
                    StreamPartView::ToolInputStart {
                        id: call.id,
                        tool_name: call.name,
                        provider_executed: None,
                        dynamic: None,
                        title: None,
                        provider_metadata: None,
                    },
                )
            }
        } else {
            self
        };
        match function.at("arguments"@).text() {
            Some(arguments) if !is_new || arguments.len() > 0 => {
                let call = started.calls[p];
                RebuildView {
                    calls: started.calls.update(
                        p,
                        PartialCallView { arguments: call.arguments + arguments, ..call },
                    ),
                    ..started.emit(
                        StreamPartView::ToolInputDelta {
                            id: call.id,
                            delta: arguments,
                            provider_metadata: None,
                        },
                    )
                }
            },
            _ => started,
        }
    }

    /// Tool-call deltas one by one.
    pub open spec fn on_calls(self, entries: Seq<JsonView>) -> RebuildView
        decreases entries.len(),
    {
        if entries.len() == 0 {
            self
        } else {
            self.on_calls(entries.drop_last()).on_call(entries.last())
        }
    }

    /// The choice says why it stopped: open segments end. Tool calls wait for
    /// the end of the stream.
    pub open spec fn on_finish(self, word: Seq<char>) -> RebuildView {
        RebuildView { finish: Some(finish_of(Some(word))), ..self.close_reasoning().close_text() }
    }

    /// One choice of an event.
    pub open spec fn on_choice(self, choice: JsonView) -> RebuildView {
        let delta = choice.at("delta"@);
        let s = self.on_reasoning(reasoning_text(delta)).on_text(text_at(delta, "content"@));
        let s = match delta.at("tool_calls"@).items() {
            Some(entries) => s.close_reasoning().on_calls(entries),
            None => s,
        };
        match choice.at("finish_reason"@).text() {
            Some(word) => s.on_finish(word),
            None => s,
        }
    }

    pub open spec fn on_choices(self, choices: Seq<JsonView>) -> RebuildView
        decreases choices.len(),
    {
        if choices.len() == 0 {
            self
        } else {
            self.on_choices(choices.drop_last()).on_choice(choices.last())
        }
    }

    /// The first event that names its response announces it.
    pub open spec fn on_metadata(self, event: JsonView) -> RebuildView {
        let id = event.at("id"@).text();
        let model_id = event.at("model"@).text();
        if !self.metadata_sent && (id is Some || model_id is Some) {
            RebuildView {
                metadata_sent: true,
                ..self.emit(
                    StreamPartView::ResponseMetadata(ResponseMetadataView { id, timestamp: None, model_id }),
                )
            }
        } else {
            self
        }
    }

    /// One event: its metadata, its usage, its choices.
    pub open spec fn on_event(self, event: JsonView) -> Result<RebuildView, AiMuxErrorView> {
        let choices = event.at("choices"@).items();
        let s = RebuildView { saw_choices: self.saw_choices || choices is Some, ..self }.on_metadata(event);
        let counted = if event.at("usage"@) is Null {
            Ok(s)
        } else {
            match usage_of(event) {
                Ok(usage) => Ok(RebuildView { usage, ..s }),
                Err(error) => Err(error),
            }
        };
        match (counted, choices) {
            (Err(error), _) => Err(error),
            (Ok(s), Some(choices)) => Ok(s.on_choices(choices)),
            (Ok(s), None) => Ok(s),
        }
    }

    /// One block of the body. What is not an event is passed over.
    pub open spec fn on_block(self, block: Seq<char>) -> Result<RebuildView, AiMuxErrorView> {
        let data = event_data(block);
        if data.len() == 0 || data == "[DONE]"@ {
            Ok(self)
        } else {
            match json_parse(data) {
                Ok(event) => self.on_event(event),
                Err(_) => Ok(self),
            }
        }
    }

    pub open spec fn on_blocks(self, list: Seq<Seq<char>>) -> Result<RebuildView, AiMuxErrorView>
        decreases list.len(),
    {
        if list.len() == 0 {
            Ok(self)
        } else {
            match self.on_blocks(list.drop_last()) {
                Ok(s) => s.on_block(list.last()),
                Err(error) => Err(error),
            }
        }
    }

    /// The calls end, in the order in which they started.
    pub open spec fn flush_calls(self, calls: Seq<PartialCallView>) -> RebuildView
        decreases calls.len(),
    {
        if calls.len() == 0 {
            self
        } else {
            let call = calls.last();
            self.flush_calls(calls.drop_last()).emit(
                StreamPartView::ToolInputEnd { id: call.id, provider_metadata: None },
            ).emit(StreamPartView::ToolCall(streamed_call(call)))
        }
    }

    /// The stream ends: what is open closes, then it finishes. A body without
    /// any choices is not one of this format.
    pub open spec fn flush(self) -> Result<Seq<StreamPartView>, AiMuxErrorView> {
        if !self.saw_choices {
            Err(
                AiMuxErrorView::UnsupportedFunctionality(
                    "mock replay: response is not an OpenAI chat.completions SSE stream"@,
                ),
            )
        } else {
            let finish_reason = match self.finish {
                Some(finish) => finish,
                None => FinishReasonView { unified: FinishReasonUnified::Stop, raw: None },
            };
            Ok(
                self.close_reasoning().close_text().flush_calls(self.calls).emit(
                    StreamPartView::Finish { finish_reason, usage: self.usage, provider_metadata: None },
                ).parts,
            )
        }
    }
}

/// The index under which a tool-call delta belongs; none means the first.
pub open spec fn call_index(entry: JsonView) -> u64 {
    match entry.at("index"@).natural() {
        Some(n) => n,
        None => 0,
    }
}

/// Where the call of an index is, or the number of calls.
pub open spec fn call_place(calls: Seq<PartialCallView>, index: u64) -> int
    decreases calls.len(),
{
    if calls.len() == 0 || calls[0].index == index {
        0
    } else {
        1 + call_place(calls.drop_first(), index)
    }
}

/// The reasoning of a delta, under either of its names.
pub open spec fn reasoning_text(delta: JsonView) -> Seq<char> {
    match delta.at("reasoning_content"@).text() {
        Some(text) => text,
        None => text_at(delta, "reasoning"@),
    }
}

/// The payload of one event block.
pub open spec fn event_data(block: Seq<char>) -> Seq<char> {
    trimmed(unprefixed(trimmed(block), "data:"@))
}

/// A streamed call, its arguments as the provider wrote them.
pub open spec fn streamed_call(call: PartialCallView) -> ToolCallView {
    ToolCallView {
        tool_call_id: call.id,
        tool_name: call.name,
        input: JsonView::String(call.arguments),
        provider_executed: None,
        dynamic: None,
        thought_signature: None,
        provider_metadata: None,
        invalid: None,
        error: None,
    }
}

/// The parts that a recorded event stream stands for.
pub open spec fn stream_of_body(body: Seq<char>) -> Result<Seq<StreamPartView>, AiMuxErrorView> {
    match fresh().on_blocks(blocks(body)) {
        Ok(s) => s.flush(),
        Err(error) => Err(error),
    }
}

proof fn lemma_call_place(calls: Seq<PartialCallView>, index: u64, p: int)
    requires
        0 <= p <= calls.len(),
        forall|k: int| 0 <= k < p ==> (#[trigger] calls[k]).index != index,
        p < calls.len() ==> calls[p].index == index,
    ensures
        call_place(calls, index) == p,
    decreases calls.len(),
{
    if p > 0 {
        assert(calls[0].index != index);
        assert forall|k: int| 0 <= k < p - 1 implies (#[trigger] calls.drop_first()[k]).index != index by {
            assert(calls[k + 1].index != index);
        }
        lemma_call_place(calls.drop_first(), index, p - 1);
    }
}

fn find_call(calls: &Vec<PartialCall>, index: u64) -> (r: usize)
    ensures
        r == call_place(partial_calls(calls@), index),
        r <= calls@.len(),
{
    let mut i: usize = 0;
    while i < calls.len()
        invariant
            i <= calls.len(),
            forall|k: int| 0 <= k < i ==> (#[trigger] partial_calls(calls@)[k]).index != index,
        decreases calls.len() - i,
    {
        if calls[i].index == index {
            proof {
                lemma_call_place(partial_calls(calls@), index, i as int);
            }
            return i;
        }
        i = i + 1;
    }
    proof {
        lemma_call_place(partial_calls(calls@), index, i as int);
    }
    i
}

fn member_text(json: &Json, key: &str) -> (r: String)
    ensures
        r@ == text_at(json@, key@),
{
    match json.get_str(key) {
        Some(text) => text.clone(),
        None => String::new(),
    }
}

fn member_or_null(json: &Json, key: &str) -> (r: Json)
    ensures
        r@ == json@.at(key@),
{
    broadcast use lemma_model;

    match json.get(key) {
        Some(value) => value.copy(),
        None => Json::Null,
    }
}

fn optional_text(json: &Json, key: &str) -> (r: Option<String>)
    ensures
        text_view(r) == json@.at(key@).text(),
{
    match json.get_str(key) {
        Some(text) => Some(text.clone()),
        None => None,
    }
}

impl Rebuild {
    /// A stream that has only started.
    pub fn new() -> (r: Rebuild)
        ensures
            r@ == fresh(),
    {
        let warnings: Vec<Json> = Vec::new();
        assert(documents(warnings@) =~= Seq::<JsonView>::empty());
        let mut parts: Vec<StreamPart> = Vec::new();
        parts.push(StreamPart::StreamStart { warnings });
        let r = Rebuild {
            parts,
            text_open: false,
            reasoning_open: false,
            metadata_sent: false,
            usage: Usage::unknown(),
            finish: None,
            calls: Vec::new(),
            saw_choices: false,
        };
        assert(r@ =~= fresh());
        r
    }

    fn emit(&mut self, part: StreamPart)
        ensures
            final(self)@ == old(self)@.emit(part@),
    {
        let ghost before = self@;
        let ghost said = part@;
        self.parts.push(part);
        assert(self@.parts =~= before.parts.push(said));
    }

    fn close_reasoning(&mut self)
        ensures
            final(self)@ == old(self)@.close_reasoning(),
    {
        if self.reasoning_open {
            self.emit(StreamPart::ReasoningEnd { id: "reasoning-0".to_owned(), provider_metadata: None });
            self.reasoning_open = false;
        }
    }

    fn close_text(&mut self)
        ensures
            final(self)@ == old(self)@.close_text(),
    {
        if self.text_open {
            self.emit(StreamPart::TextEnd { id: "0".to_owned(), provider_metadata: None });
            self.text_open = false;
        }
    }

    fn on_reasoning(&mut self, text: String)
        ensures
            final(self)@ == old(self)@.on_reasoning(text@),
    {
        if !text.as_str().is_empty() {
            if !self.reasoning_open {
                self.emit(
                    StreamPart::ReasoningStart { id: "reasoning-0".to_owned(), provider_metadata: None },
                );
                self.reasoning_open = true;
            }
            self.emit(
                StreamPart::ReasoningDelta {
                    id: "reasoning-0".to_owned(),
                    delta: text,
                    provider_metadata: None,
                },
            );
        }
    }

    fn on_text(&mut self, text: String)
        ensures
            final(self)@ == old(self)@.on_text(text@),
    {
        if !text.as_str().is_empty() {
            self.close_reasoning();
            if !self.text_open {
                self.emit(StreamPart::TextStart { id: "0".to_owned(), provider_metadata: None });
                self.text_open = true;
            }
            self.emit(StreamPart::TextDelta { id: "0".to_owned(), delta: text, provider_metadata: None });
        }
    }

    fn start_call(&mut self, call: PartialCall)
        ensures
            final(self)@ == (RebuildView {
                calls: old(self)@.calls.push(call@),
                ..old(self)@.emit(
                    StreamPartView::ToolInputStart {
                        id: call@.id,
                        tool_name: call@.name,
                        provider_executed: None,
                        dynamic: None,
                        title: None,
                        provider_metadata: None,
                    },
                )
            }),
    {
        self.emit(
            StreamPart::ToolInputStart {
                id: call.id.clone(),
                tool_name: call.name.clone(),
                provider_executed: None,
                dynamic: None,
                title: None,
                provider_metadata: None,
            },
        );
        let ghost before = self@;
        let ghost said = call@;
        self.calls.push(call);
        assert(self@.calls =~= before.calls.push(said));
    }

    fn add_arguments(&mut self, p: usize, arguments: &String)
        requires
            p < old(self)@.calls.len(),
        ensures
            final(self)@ == (RebuildView {
                calls: old(self)@.calls.update(
                    p as int,
                    PartialCallView {
                        arguments: old(self)@.calls[p as int].arguments + arguments@,
                        ..old(self)@.calls[p as int]
                    },
                ),
                ..old(self)@.emit(
                    StreamPartView::ToolInputDelta {
                        id: old(self)@.calls[p as int].id,
                        delta: arguments@,
                        provider_metadata: None,
                    },
                )
            }),
    {
        let ghost before = self@;
        let call = PartialCall {
            index: self.calls[p].index,
            id: self.calls[p].id.clone(),
            name: self.calls[p].name.clone(),
            arguments: self.calls[p].arguments.clone().concat(arguments.as_str()),
        };
        self.emit(
            StreamPart::ToolInputDelta {
                id: call.id.clone(),
                delta: arguments.clone(),
                provider_metadata: None,
            },
        );
        let ghost said = call@;
        let ghost list = self.calls@;
        self.calls.set(p, call);
        assert(self@.calls =~= before.calls.update(p as int, said)) by {
            assert(partial_calls(list) == before.calls);
            assert(self.calls@ == list.update(p as int, call));
        }
    }

    fn on_call(&mut self, entry: &Json)
        ensures
            final(self)@ == old(self)@.on_call(entry@),
    {
        let index: u64 = match entry.get("index") {
            Some(value) => match value.as_u64() {
                Some(n) => n,
                None => 0,
            },
            None => 0,
        };
        let function = member_or_null(entry, "function");
        let p: usize = find_call(&self.calls, index);
        let is_new = p >= self.calls.len();
        if is_new {
            self.start_call(
                PartialCall {
                    index,
                    id: member_text(entry, "id"),
                    name: member_text(&function, "name"),
                    arguments: String::new(),
                },
            );
        }
        if let Some(arguments) = function.get_str("arguments") {
            if !is_new || !arguments.as_str().is_empty() {
                self.add_arguments(p, arguments);
            }
        }
    }

    fn on_calls(&mut self, entries: &Vec<Json>)
        ensures
            final(self)@ == old(self)@.on_calls(documents(entries@)),
    {
        let ghost docs = documents(entries@);
        let ghost before = self@;
        let mut i: usize = 0;
        assert(docs.take(0) =~= Seq::<JsonView>::empty());
        while i < entries.len()
            invariant
                i <= entries.len(),
                docs == documents(entries@),
                self@ == before.on_calls(docs.take(i as int)),
            decreases entries.len() - i,
        {
            assert(docs.take(i + 1).drop_last() =~= docs.take(i as int));
            self.on_call(&entries[i]);
            i = i + 1;
        }
        assert(docs.take(docs.len() as int) =~= docs);
    }

    fn on_choice(&mut self, choice: &Json)
        ensures
            final(self)@ == old(self)@.on_choice(choice@),
    {
        let delta = member_or_null(choice, "delta");
        let reasoning = match delta.get_str("reasoning_content") {
            Some(text) => text.clone(),
            None => member_text(&delta, "reasoning"),
        };
        self.on_reasoning(reasoning);
        self.on_text(member_text(&delta, "content"));
        let list = member_or_null(&delta, "tool_calls");
        if let Some(entries) = list.as_array() {
            self.close_reasoning();
            self.on_calls(entries);
        }
        if let Some(word) = choice.get_str("finish_reason") {
            self.close_reasoning();
            self.close_text();
            self.finish = Some(parse_finish(Some(word)));
        }
    }

    fn on_choices(&mut self, choices: &Vec<Json>)
        ensures
            final(self)@ == old(self)@.on_choices(documents(choices@)),
    {
        let ghost docs = documents(choices@);
        let ghost before = self@;
        let mut i: usize = 0;
        assert(docs.take(0) =~= Seq::<JsonView>::empty());
        while i < choices.len()
            invariant
                i <= choices.len(),
                docs == documents(choices@),
                self@ == before.on_choices(docs.take(i as int)),
            decreases choices.len() - i,
        {
            assert(docs.take(i + 1).drop_last() =~= docs.take(i as int));
            self.on_choice(&choices[i]);
            i = i + 1;
        }
        assert(docs.take(docs.len() as int) =~= docs);
    }

    fn on_metadata(&mut self, event: &Json)
        ensures
            final(self)@ == old(self)@.on_metadata(event@),
    {
        let id = optional_text(event, "id");
        let model_id = optional_text(event, "model");
        if !self.metadata_sent && (id.is_some() || model_id.is_some()) {
            self.emit(StreamPart::ResponseMetadata(ResponseMetadata { id, timestamp: None, model_id }));
            self.metadata_sent = true;
        }
    }

    /// Take one event of the stream.
    pub fn on_event(&mut self, event: &Json) -> (r: Result<(), AiMuxError>)
        ensures
            match r {
                Ok(()) => old(self)@.on_event(event@) == Ok::<RebuildView, AiMuxErrorView>(final(self)@),
                Err(error) => old(self)@.on_event(event@) == Err::<RebuildView, AiMuxErrorView>(error@),
            },
    {
        let list = member_or_null(event, "choices");
        let choices = list.as_array();
        if choices.is_some() {
            self.saw_choices = true;
        }
        self.on_metadata(event);
        if !member_or_null(event, "usage").is_null() {
            match parse_usage(event) {
                Ok(usage) => {
                    self.usage = usage;
                },
                Err(error) => {
                    return Err(error);
                },
            }
        }
        if let Some(choices) = choices {
            self.on_choices(choices);
        }
        Ok(())
    }

    /// Take one block of the body.
    pub fn on_block(&mut self, block: &str) -> (r: Result<(), AiMuxError>)
        ensures
            match r {
                Ok(()) => old(self)@.on_block(block@) == Ok::<RebuildView, AiMuxErrorView>(final(self)@),
                Err(error) => old(self)@.on_block(block@) == Err::<RebuildView, AiMuxErrorView>(error@),
            },
    {
        let data = trim(strip_prefix(trim(block), "data:"));
        if data.is_empty() || same_text(data, "[DONE]") {
            return Ok(());
        }
        match parse_json(data) {
            Ok(event) => self.on_event(&event),
            Err(_) => Ok(()),
        }
    }

    fn flush_calls(&mut self, calls: &Vec<PartialCall>)
        ensures
            final(self)@ == old(self)@.flush_calls(partial_calls(calls@)),
    {
        let ghost list = partial_calls(calls@);
        let ghost before = self@;
        let mut i: usize = 0;
        assert(list.take(0) =~= Seq::<PartialCallView>::empty());
        while i < calls.len()
            invariant
                i <= calls.len(),
                list == partial_calls(calls@),
                self@ == before.flush_calls(list.take(i as int)),
            decreases calls.len() - i,
        {
            assert(list.take(i + 1).drop_last() =~= list.take(i as int));
            let call = &calls[i];
            self.emit(StreamPart::ToolInputEnd { id: call.id.clone(), provider_metadata: None });
            self.emit(
                StreamPart::ToolCall(
                    ToolCall {
                        tool_call_id: call.id.clone(),
                        tool_name: call.name.clone(),
                        input: json_string(call.arguments.as_str()),
                        provider_executed: None,
                        dynamic: None,
                        thought_signature: None,
                        provider_metadata: None,
                        invalid: None,
                        error: None,
                    },
                ),
            );
            i = i + 1;
        }
        assert(list.take(list.len() as int) =~= list);
    }

    /// End the stream.
    pub fn flush(self) -> (r: Result<Vec<StreamPart>, AiMuxError>)
        ensures
            self@.flush() == (match r {
                Ok(parts) => Ok(stream_view(parts@)),
                Err(error) => Err(error@),
            }),
    {
        let mut s = self;
        if !s.saw_choices {
            return Err(
                AiMuxError::UnsupportedFunctionality(
                    "mock replay: response is not an OpenAI chat.completions SSE stream".to_owned(),
                ),
            );
        }
        s.close_reasoning();
        s.close_text();
        let mut calls: Vec<PartialCall> = Vec::new();
        std::mem::swap(&mut calls, &mut s.calls);
        let ghost emptied = s@;
        s.flush_calls(&calls);
        proof {
            lemma_flush_frame(emptied, self@.close_reasoning().close_text(), partial_calls(calls@));
        }
        let finish_reason = match &s.finish {
            Some(finish) => finish.copy(),
            None => FinishReason { unified: FinishReasonUnified::Stop, raw: None },
        };
        let usage = s.usage.copy();
        s.emit(StreamPart::Finish { finish_reason, usage, provider_metadata: None });
        Ok(s.parts)
    }
}

/// Ending calls touches nothing but the parts.
proof fn lemma_flush_frame(a: RebuildView, b: RebuildView, calls: Seq<PartialCallView>)
    requires
        a.parts == b.parts,
    ensures
        a.flush_calls(calls).parts == b.flush_calls(calls).parts,
        a.flush_calls(calls).finish == a.finish,
        a.flush_calls(calls).usage == a.usage,
    decreases calls.len(),
{
    if calls.len() > 0 {
        lemma_flush_frame(a, b, calls.drop_last());
    }
}

proof fn lemma_blocks_prefix(s: RebuildView, list: Seq<Seq<char>>, k: int)
    requires
        0 <= k <= list.len(),
        s.on_blocks(list.take(k)) is Err,
    ensures
        s.on_blocks(list) == s.on_blocks(list.take(k)),
    decreases list.len() - k,
{
    if k < list.len() {
        assert(list.take(k + 1).drop_last() =~= list.take(k));
        lemma_blocks_prefix(s, list, k + 1);
    } else {
        assert(list.take(k) =~= list);
    }
}

/// Rebuild the parts of a stream from its recorded body.
pub fn stream_parts_of_body(body: &str) -> (r: Result<Vec<StreamPart>, AiMuxError>)
    ensures
        stream_of_body(body@) == (match r {
            Ok(parts) => Ok(stream_view(parts@)),
            Err(error) => Err(error@),
        }),
{
    let list = split_blocks(body);
    let ghost all = texts(list@);
    let mut s = Rebuild::new();
    let mut i: usize = 0;
    assert(all.take(0) =~= Seq::<Seq<char>>::empty());
    while i < list.len()
        invariant
            i <= list.len(),
            all == texts(list@),
            all == blocks(body@),
            fresh().on_blocks(all.take(i as int)) == Ok::<RebuildView, AiMuxErrorView>(s@),
        decreases list.len() - i,
    {
        assert(all.take(i + 1).drop_last() =~= all.take(i as int));
        assert(all.take(i + 1).last() == list@[i as int]@);
        match s.on_block(list[i].as_str()) {
            Ok(()) => {},
            Err(error) => {
                proof {
                    lemma_blocks_prefix(fresh(), all, i + 1);
                }
                return Err(error);
            },
        }
        i = i + 1;
    }
    assert(all.take(all.len() as int) =~= all);
    s.flush()
}

} // verus!
