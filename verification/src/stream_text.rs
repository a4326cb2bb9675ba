//! Streamed text: which items end a stream, and what a whole stream amounts to.
use crate::error::{error_view, json_view, AiMuxError, AiMuxErrorView};
use crate::json::{documents, Json, JsonView};
use crate::json_text::text_view;
use crate::message::{messages_view, ModelMessage, ModelMessageView};
use crate::response_messages::{
    assistant_messages, no_content, reasonings_view, thoughts, BuilderView, ResponseMessageBuilder,
};
use crate::result::{
    FilePart, FilePartView, ReasoningPart, ReasoningPartView, SourcePart, SourcePartView,
};
use crate::stream_part::{item_view, items_view, StreamItem, StreamItemView, StreamPart, StreamPartView};
use crate::text::copy_text;
use crate::tool::{calls_view, ToolCall, ToolCallView};
use crate::types::{
    no_usage, FinishReason, FinishReasonUnified, FinishReasonView, ResponseMetadata, ResponseMetadataView, Usage,
    UsageView,
};
use vstd::prelude::*;
use vstd::string::*;

verus! {

/// Whether a part carries model output.
pub open spec fn is_output(part: StreamPartView) -> bool {
    match part {
        StreamPartView::TextDelta { delta, .. } => delta.len() > 0,
        StreamPartView::ReasoningDelta { delta, .. } => delta.len() > 0,
        StreamPartView::ToolInputDelta { delta, .. } => delta.len() > 0,
        StreamPartView::ToolCall(_) => true,
        StreamPartView::File { .. } => true,
        _ => false,
    }
}

/// Whether an item ends its stream: the finish, and any failure but a
/// malformed frame.
pub open spec fn is_terminal(item: StreamItemView) -> bool {
    match item {
        Ok(part) => part is Finish,
        Err(error) => !(error is JsonParse),
    }
}

/// Whether a part carries model output; only such parts start or reset the
/// output timers.
pub fn is_output_chunk(part: &StreamPart) -> (r: bool)
    ensures
        r == is_output(part@),
{
    match part {
        StreamPart::TextDelta { delta, .. } => delta.as_str().unicode_len() > 0,
        StreamPart::ReasoningDelta { delta, .. } => delta.as_str().unicode_len() > 0,
        StreamPart::ToolInputDelta { delta, .. } => delta.as_str().unicode_len() > 0,
        StreamPart::ToolCall(_) => true,
        StreamPart::File { .. } => true,
        _ => false,
    }
}

/// Whether an item ends its stream.
pub fn is_terminal_item(item: &StreamItem) -> (r: bool)
    ensures
        r == is_terminal(item_view(*item)),
{
    match item {
        Ok(StreamPart::Finish { .. }) => true,
        Ok(_) => false,
        Err(error) => !error.is_recoverable_stream_error(),
    }
}

/// How a stream finished.
pub struct StreamFinish {
    pub finish_reason: FinishReason,
    pub usage: Usage,
    pub provider_metadata: Option<Json>,
}

#[verifier::ext_equal]
pub struct StreamFinishView {
    pub finish_reason: FinishReasonView,
    pub usage: UsageView,
    pub provider_metadata: Option<JsonView>,
}

impl View for StreamFinish {
    type V = StreamFinishView;

    open spec fn view(&self) -> StreamFinishView {
        StreamFinishView {
            finish_reason: self.finish_reason@,
            usage: self.usage@,
            provider_metadata: json_view(self.provider_metadata),
        }
    }
}

/// A stream as far as it was read.
pub struct StreamAggregator {
    text: String,
    tool_calls: Vec<ToolCall>,
    sources: Vec<SourcePart>,
    files: Vec<FilePart>,
    warnings: Vec<Json>,
    finish: Option<StreamFinish>,
    response: Option<ResponseMetadata>,
    messages: ResponseMessageBuilder,
    saw_output: bool,
    error: Option<AiMuxError>,
}

#[verifier::ext_equal]
pub struct AggregateView {
    pub text: Seq<char>,
    pub tool_calls: Seq<ToolCallView>,
    pub sources: Seq<SourcePartView>,
    pub files: Seq<FilePartView>,
    pub warnings: Seq<JsonView>,
    pub finish: Option<StreamFinishView>,
    pub response: Option<ResponseMetadataView>,
    pub messages: BuilderView,
    pub saw_output: bool,
    /// The first error that the stream reported as data.
    pub error: Option<AiMuxErrorView>,
}

pub open spec fn sources_view(list: Seq<SourcePart>) -> Seq<SourcePartView> {
    Seq::new(list.len(), |i: int| list[i]@)
}

pub open spec fn files_view(list: Seq<FilePart>) -> Seq<FilePartView> {
    Seq::new(list.len(), |i: int| list[i]@)
}

pub open spec fn stream_finish_view(finish: Option<StreamFinish>) -> Option<StreamFinishView> {
    match finish {
        Some(finish) => Some(finish@),
        None => None,
    }
}

pub open spec fn response_view(response: Option<ResponseMetadata>) -> Option<ResponseMetadataView> {
    match response {
        Some(response) => Some(response@),
        None => None,
    }
}

impl View for StreamAggregator {
    type V = AggregateView;

    closed spec fn view(&self) -> AggregateView {
        AggregateView {
            text: self.text@,
            tool_calls: calls_view(self.tool_calls@),
            sources: sources_view(self.sources@),
            files: files_view(self.files@),
            warnings: documents(self.warnings@),
            finish: stream_finish_view(self.finish),
            response: response_view(self.response),
            messages: self.messages@,
            saw_output: self.saw_output,
            error: error_view(self.error),
        }
    }
}

/// Nothing read yet.
pub open spec fn unread() -> AggregateView {
    AggregateView {
        text: seq![],
        tool_calls: seq![],
        sources: seq![],
        files: seq![],
        warnings: seq![],
        finish: None,
        response: None,
        messages: no_content(),
        saw_output: false,
        error: None,
    }
}

impl AggregateView {
    /// Keep the first error; the stream goes on.
    pub open spec fn note(self, error: AiMuxErrorView) -> AggregateView {
        AggregateView {
            error: match self.error {
                Some(first) => Some(first),
                None => Some(error),
            },
            ..self
        }
    }

    pub open spec fn seen(self, part: StreamPartView) -> AggregateView {
        AggregateView { saw_output: self.saw_output || is_output(part), ..self }
    }

    /// The state after one part.
    pub open spec fn on_part(self, part: StreamPartView) -> AggregateView {
        let s = self.seen(part);
        match part {
            StreamPartView::TextStart { provider_metadata, .. } => AggregateView {
                messages: s.messages.text_start(provider_metadata),
                ..s
            },
            StreamPartView::TextDelta { delta, provider_metadata, .. } => AggregateView {
                text: s.text + delta,
                messages: s.messages.text_delta(delta, provider_metadata),
                ..s
            },
            StreamPartView::TextEnd { provider_metadata, .. } => AggregateView {
                messages: s.messages.text_end(provider_metadata),
                ..s
            },
            StreamPartView::ReasoningStart { provider_metadata, .. } => AggregateView {
                messages: s.messages.reasoning_start(provider_metadata),
                ..s
            },
            StreamPartView::ReasoningDelta { delta, provider_metadata, .. } => AggregateView {
                messages: s.messages.reasoning_delta(delta, provider_metadata),
                ..s
            },
            StreamPartView::ReasoningEnd { provider_metadata, .. } => AggregateView {
                messages: s.messages.reasoning_end(provider_metadata),
                ..s
            },
            StreamPartView::ToolCall(call) => AggregateView {
                tool_calls: s.tool_calls.push(call),
                messages: s.messages.tool_call(call),
                ..s
            },
            StreamPartView::ToolResult(result) => AggregateView {
                messages: s.messages.tool_result(result),
                ..s
            },
            StreamPartView::Source { source, .. } => AggregateView { sources: s.sources.push(source), ..s },
            StreamPartView::File { file, .. } => AggregateView { files: s.files.push(file), ..s },
            StreamPartView::StreamStart { warnings } => AggregateView { warnings, ..s },
            StreamPartView::Finish { finish_reason, usage, provider_metadata } => AggregateView {
                finish: Some(StreamFinishView { finish_reason, usage, provider_metadata }),
                ..s
            },
            StreamPartView::Error { error } => s.note(error),
            StreamPartView::ResponseMetadata(response) => AggregateView { response: Some(response), ..s },
            _ => s,
        }
    }
}

/// Where the reading of a stream stands.
#[verifier::ext_equal]
pub enum Reading {
    /// The stream may go on.
    Running(AggregateView),
    /// The finish was read; nothing after it is.
    Finished(AggregateView),
    /// A failure ended the stream.
    Failed(AiMuxErrorView),
}

/// The state after one item.
pub open spec fn after_item(state: AggregateView, item: StreamItemView) -> Reading {
    match item {
        Ok(part) => if part is Finish {
            Reading::Finished(state.on_part(part))
        } else {
            Reading::Running(state.on_part(part))
        },
        Err(error) => if error is JsonParse {
            Reading::Running(state.note(error))
        } else {
            Reading::Failed(error)
        },
    }
}

/// The state after a stream's items.
pub open spec fn read_items(items: Seq<StreamItemView>) -> Reading
    decreases items.len(),
{
    if items.len() == 0 {
        Reading::Running(unread())
    } else {
        match read_items(items.drop_last()) {
            Reading::Running(state) => after_item(state, items.last()),
            ended => ended,
        }
    }
}

/// Nothing is read behind the item that ended a stream.
pub proof fn lemma_ended(items: Seq<StreamItemView>, n: int)
    requires
        0 <= n <= items.len(),
        !(read_items(items.take(n)) is Running),
    ensures
        read_items(items) == read_items(items.take(n)),
    decreases items.len(),
{
    if n < items.len() {
        assert(items.drop_last().take(n) =~= items.take(n));
        lemma_ended(items.drop_last(), n);
    } else {
        assert(items.take(n) =~= items);
    }
}

/// What a whole stream amounts to.
pub struct StreamTextResultAggregated {
    pub text: String,
    pub reasoning: Vec<ReasoningPart>,
    pub reasoning_text: String,
    pub tool_calls: Vec<ToolCall>,
    pub sources: Vec<SourcePart>,
    pub files: Vec<FilePart>,
    pub finish_reason: FinishReason,
    pub raw_finish_reason: Option<String>,
    pub usage: Usage,
    pub total_usage: Usage,
    pub warnings: Vec<Json>,
    pub provider_metadata: Option<Json>,
    pub response: Option<ResponseMetadata>,
    /// The messages to append for the next turn.
    pub response_messages: Vec<ModelMessage>,
}

#[verifier::ext_equal]
pub struct AggregatedView {
    pub text: Seq<char>,
    pub reasoning: Seq<ReasoningPartView>,
    pub reasoning_text: Seq<char>,
    pub tool_calls: Seq<ToolCallView>,
    pub sources: Seq<SourcePartView>,
    pub files: Seq<FilePartView>,
    pub finish_reason: FinishReasonView,
    pub raw_finish_reason: Option<Seq<char>>,
    pub usage: UsageView,
    pub total_usage: UsageView,
    pub warnings: Seq<JsonView>,
    pub provider_metadata: Option<JsonView>,
    pub response: Option<ResponseMetadataView>,
    pub response_messages: Seq<ModelMessageView>,
}

impl View for StreamTextResultAggregated {
    type V = AggregatedView;

    open spec fn view(&self) -> AggregatedView {
        AggregatedView {
            text: self.text@,
            reasoning: reasonings_view(self.reasoning@),
            reasoning_text: self.reasoning_text@,
            tool_calls: calls_view(self.tool_calls@),
            sources: sources_view(self.sources@),
            files: files_view(self.files@),
            finish_reason: self.finish_reason@,
            raw_finish_reason: text_view(self.raw_finish_reason),
            usage: self.usage@,
            total_usage: self.total_usage@,
            warnings: documents(self.warnings@),
            provider_metadata: json_view(self.provider_metadata),
            response: response_view(self.response),
            response_messages: messages_view(self.response_messages@),
        }
    }
}

/// The reasoning segments as one text.
pub open spec fn joined(list: Seq<ReasoningPartView>) -> Seq<char>
    decreases list.len(),
{
    if list.len() == 0 {
        seq![]
    } else {
        joined(list.drop_last()) + list.last().text
    }
}

/// The reasoning segments as one text.
pub fn join_reasoning(list: &Vec<ReasoningPart>) -> (r: String)
    ensures
        r@ == joined(reasonings_view(list@)),
{
    let mut out = "".to_owned();
    let mut i: usize = 0;
    let ghost all = reasonings_view(list@);
    proof {
        reveal_strlit("");
        assert(all.take(0) =~= seq![]);
        assert(out@ =~= joined(all.take(0)));
    }
    while i < list.len()
        invariant
            i <= list.len(),
            all == reasonings_view(list@),
            out@ == joined(all.take(i as int)),
        decreases list.len() - i,
    {
        assert(all.take(i + 1).drop_last() =~= all.take(i as int));
        assert(all.take(i + 1).last() == list@[i as int]@);
        out.append(list[i].text.as_str());
        i = i + 1;
    }
    assert(all.take(i as int) =~= all);
    out
}

pub open spec fn nothing_generated() -> AiMuxErrorView {
    AiMuxErrorView::InvalidResponseData(
        "No output generated. The model stream ended without a finish chunk."@,
    )
}

/// What a stream that ended in this state amounts to. A reported error wins.
/// A stream without a finish is an error when it brought no output; one that
/// brought some is kept, but is not said to have stopped normally.
pub open spec fn concluded(s: AggregateView) -> Result<AggregatedView, AiMuxErrorView> {
    match s.error {
        Some(error) => Err(error),
        None => if s.finish is None && !s.saw_output {
            Err(nothing_generated())
        } else {
            let finish = match s.finish {
                Some(finish) => finish,
                None => StreamFinishView {
                    finish_reason: FinishReasonView { unified: FinishReasonUnified::Other, raw: None },
                    usage: no_usage(),
                    provider_metadata: None,
                },
            };
            Ok(
                AggregatedView {
                    text: s.text,
                    reasoning: thoughts(s.messages.parts),
                    reasoning_text: joined(thoughts(s.messages.parts)),
                    tool_calls: s.tool_calls,
                    sources: s.sources,
                    files: s.files,
                    finish_reason: finish.finish_reason,
                    raw_finish_reason: finish.finish_reason.raw,
                    usage: finish.usage,
                    total_usage: finish.usage,
                    warnings: s.warnings,
                    provider_metadata: finish.provider_metadata,
                    response: s.response,
                    response_messages: assistant_messages(s.messages.parts),
                },
            )
        },
    }
}

/// What a stream amounts to.
pub open spec fn aggregated(items: Seq<StreamItemView>) -> Result<AggregatedView, AiMuxErrorView> {
    match read_items(items) {
        Reading::Failed(error) => Err(error),
        Reading::Running(state) => concluded(state),
        Reading::Finished(state) => concluded(state),
    }
}

/// What one item means for the reading of a stream.
pub enum StreamProgress {
    More,
    Finished,
    Failed(AiMuxError),
}

impl StreamAggregator {
    pub closed spec fn wf(self) -> bool {
        self.messages@.wf()
    }

    pub fn new() -> (r: StreamAggregator)
        ensures
            r@ == unread(),
            r.wf(),
    {
        let r = StreamAggregator {
            text: "".to_owned(),
            tool_calls: Vec::new(),
            sources: Vec::new(),
            files: Vec::new(),
            warnings: Vec::new(),
            finish: None,
            response: None,
            messages: ResponseMessageBuilder::new(),
            saw_output: false,
            error: None,
        };
        proof {
            reveal_strlit("");
            assert(r@ =~= unread());
        }
        r
    }

    fn note(&mut self, error: AiMuxError)
        requires
            old(self).wf(),
        ensures
            final(self)@ == old(self)@.note(error@),
            final(self).wf(),
    {
        if self.error.is_none() {
            self.error = Some(error);
        }
    }

    fn on_part(&mut self, part: StreamPart)
        requires
            old(self).wf(),
        ensures
            final(self)@ == old(self)@.on_part(part@),
            final(self).wf(),
    {
        let ghost before = self@;
        let output: bool = is_output_chunk(&part);
        self.saw_output = self.saw_output || output;
        assert(self@ == before.seen(part@));
        match part {
            StreamPart::TextStart { provider_metadata, .. } => self.messages.text_start(provider_metadata),
            StreamPart::TextDelta { delta, provider_metadata, .. } => {
                self.text.append(delta.as_str());
                self.messages.text_delta(delta.as_str(), provider_metadata);
            },
            StreamPart::TextEnd { provider_metadata, .. } => self.messages.text_end(provider_metadata),
            StreamPart::ReasoningStart { provider_metadata, .. } => self.messages.reasoning_start(
                provider_metadata,
            ),
            StreamPart::ReasoningDelta { delta, provider_metadata, .. } => self.messages.reasoning_delta(
                delta.as_str(),
                provider_metadata,
            ),
            StreamPart::ReasoningEnd { provider_metadata, .. } => self.messages.reasoning_end(
                provider_metadata,
            ),
            StreamPart::ToolCall(call) => {
                let ghost said = call@;
                let ghost calls = calls_view(self.tool_calls@);
                self.messages.tool_call(&call);
                self.tool_calls.push(call);
                assert(calls_view(self.tool_calls@) =~= calls.push(said));
            },
            StreamPart::ToolResult(result) => self.messages.tool_result(&result),
            StreamPart::Source { source, .. } => {
                let ghost said = source@;
                let ghost list = sources_view(self.sources@);
                self.sources.push(source);
                assert(sources_view(self.sources@) =~= list.push(said));
            },
            StreamPart::File { file, .. } => {
                let ghost said = file@;
                let ghost list = files_view(self.files@);
                self.files.push(file);
                assert(files_view(self.files@) =~= list.push(said));
            },
            StreamPart::StreamStart { warnings } => {
                self.warnings = warnings;
            },
            StreamPart::Finish { finish_reason, usage, provider_metadata } => {
                self.finish = Some(StreamFinish { finish_reason, usage, provider_metadata });
            },
            StreamPart::Error { error } => self.note(error),
            StreamPart::ResponseMetadata(response) => {
                self.response = Some(response);
            },
            _ => {},
        }
        assert(self@ =~= before.on_part(part@));
    }

    /// Read one item.
    pub fn on_item(&mut self, item: StreamItem) -> (r: StreamProgress)
        requires
            old(self).wf(),
        ensures
            final(self).wf(),
            after_item(old(self)@, item_view(item)) == (match r {
                StreamProgress::More => Reading::Running(final(self)@),
                StreamProgress::Finished => Reading::Finished(final(self)@),
                StreamProgress::Failed(error) => Reading::Failed(error@),
            }),
    {
        match item {
            Ok(part) => {
                let done: bool = match &part {
                    StreamPart::Finish { .. } => true,
                    _ => false,
                };
                self.on_part(part);
                if done {
                    StreamProgress::Finished
                } else {
                    StreamProgress::More
                }
            },
            Err(error) => {
                if error.is_recoverable_stream_error() {
                    self.note(error);
                    StreamProgress::More
                } else {
                    StreamProgress::Failed(error)
                }
            },
        }
    }

    /// What was read amounts to this, once the stream has ended.
    pub fn conclude(self) -> (r: Result<StreamTextResultAggregated, AiMuxError>)
        requires
            self.wf(),
        ensures
            concluded(self@) == (match r {
                Ok(result) => Ok(result@),
                Err(error) => Err(error@),
            }),
    {
        if let Some(error) = self.error {
            return Err(error);
        }
        if self.finish.is_none() && !self.saw_output {
            return Err(
                AiMuxError::InvalidResponseData(
                    "No output generated. The model stream ended without a finish chunk.".to_owned(),
                ),
            );
        }
        let finish: StreamFinish = match self.finish {
            Some(finish) => finish,
            None => StreamFinish {
                finish_reason: FinishReason { unified: FinishReasonUnified::Other, raw: None },
                usage: Usage::unknown(),
                provider_metadata: None,
            },
        };
        let left = self.messages.finish();
        let reasoning_text = join_reasoning(&left.reasoning);
        let raw_finish_reason = copy_text(&finish.finish_reason.raw);
        Ok(
            StreamTextResultAggregated {
                text: self.text,
                reasoning: left.reasoning,
                reasoning_text,
                tool_calls: self.tool_calls,
                sources: self.sources,
                files: self.files,
                finish_reason: finish.finish_reason,
                raw_finish_reason,
                total_usage: finish.usage.copy(),
                usage: finish.usage,
                warnings: self.warnings,
                provider_metadata: finish.provider_metadata,
                response: self.response,
                response_messages: left.messages,
            },
        )
    }
}

/// A stream of generated text that has arrived.
pub struct StreamTextResult {
    pub stream: Vec<StreamItem>,
    pub request_body: Option<Json>,
    pub response_headers: Option<Vec<(String, String)>>,
}

/// What a stream says: the text of what it amounts to.
pub open spec fn said(items: Seq<StreamItemView>) -> Result<Seq<char>, AiMuxErrorView> {
    match aggregated(items) {
        Ok(result) => Ok(result.text),
        Err(error) => Err(error),
    }
}

impl StreamTextResult {
    /// The text of the whole stream.
    pub fn text(self) -> (r: Result<String, AiMuxError>)
        ensures
            said(items_view(self.stream@)) == (match r {
                Ok(text) => Ok(text@),
                Err(error) => Err(error@),
            }),
    {
        let ghost all = items_view(self.stream@);
        let ghost mut state = unread();
        let mut result = "".to_owned();
        let mut saw_output: bool = false;
        let mut saw_finish: bool = false;
        let mut provider_error: Option<AiMuxError> = None;
        let mut i: usize = 0;
        proof {
            reveal_strlit("");
            assert(all.take(0) =~= seq![]);
            assert(result@ =~= state.text);
        }
        while i < self.stream.len() && !saw_finish
            invariant
                i <= self.stream.len(),
                all == items_view(self.stream@),
                read_items(all.take(i as int)) == (if saw_finish {
                    Reading::Finished(state)
                } else {
                    Reading::Running(state)
                }),
                saw_finish == (state.finish is Some),
                state.text == result@,
                state.saw_output == saw_output,
                state.error == error_view(provider_error),
            decreases self.stream.len() - i,
        {
            assert(all.take(i + 1).drop_last() =~= all.take(i as int));
            assert(all.take(i + 1).last() == item_view(self.stream@[i as int]));
            match &self.stream[i] {
                Ok(part) => {
                    proof {
                        state = state.on_part(part@);
                    }
                    if is_output_chunk(part) {
                        saw_output = true;
                    }
                    match part {
                        StreamPart::TextDelta { delta, .. } => result.append(delta.as_str()),
                        StreamPart::Finish { .. } => {
                            saw_finish = true;
                        },
                        StreamPart::Error { error } => {
                            if provider_error.is_none() {
                                provider_error = Some(error.copy());
                            }
                        },
                        _ => {},
                    }
                },
                Err(error) => {
                    if !error.is_recoverable_stream_error() {
                        proof {
                            lemma_ended(all, i + 1);
                        }
                        return Err(error.copy());
                    }
                    proof {
                        state = state.note(error@);
                    }
                    if provider_error.is_none() {
                        provider_error = Some(error.copy());
                    }
                },
            }
            i = i + 1;
        }
        proof {
            if saw_finish {
                lemma_ended(all, i as int);
            } else {
                assert(all.take(i as int) =~= all);
            }
        }
        if let Some(error) = provider_error {
            return Err(error);
        }
        if !saw_finish && !saw_output {
            return Err(
                AiMuxError::InvalidResponseData(
                    "No output generated. The model stream ended without a finish chunk.".to_owned(),
                ),
            );
        }
        Ok(result)
    }

    /// What the whole stream amounts to.
    pub fn consume(self) -> (r: Result<StreamTextResultAggregated, AiMuxError>)
        ensures
            aggregated(items_view(self.stream@)) == (match r {
                Ok(result) => Ok(result@),
                Err(error) => Err(error@),
            }),
    {
        let ghost all = items_view(self.stream@);
        let mut rest: Vec<StreamItem> = self.stream;
        let mut state = StreamAggregator::new();
        let mut finished: bool = false;
        let ghost mut i: int = 0;
        reverse_items(&mut rest);
        assert(all.take(0) =~= seq![]);
        while rest.len() > 0 && !finished
            invariant
                state.wf(),
                all == items_view(self.stream@),
                0 <= i <= all.len(),
                rest@.len() == all.len() - i,
                forall|k: int| 0 <= k < rest@.len() ==> item_view(#[trigger] rest@[k]) == all[all.len() - 1 - k],
                read_items(all.take(i)) == (if finished {
                    Reading::Finished(state@)
                } else {
                    Reading::Running(state@)
                }),
            decreases rest.len(),
        {
            let item = rest.pop().unwrap();
            proof {
                assert(item_view(item) == all[i]);
                assert(all.take(i + 1).drop_last() =~= all.take(i));
                assert(all.take(i + 1).last() == all[i]);
            }
            match state.on_item(item) {
                StreamProgress::More => {},
                StreamProgress::Finished => {
                    finished = true;
                },
                StreamProgress::Failed(error) => {
                    proof {
                        lemma_ended(all, i + 1);
                    }
                    return Err(error);
                },
            }
            proof {
                i = i + 1;
            }
        }
        proof {
            if finished {
                lemma_ended(all, i);
            } else {
                assert(all.take(i) =~= all);
            }
        }
        state.conclude()
    }
}

fn reverse_items(list: &mut Vec<StreamItem>)
    ensures
        final(list)@.len() == old(list)@.len(),
        forall|k: int|
            0 <= k < old(list)@.len() ==> #[trigger] final(list)@[k] == old(list)@[old(list)@.len() - 1 - k],
{
    let ghost before = list@;
    let mut out: Vec<StreamItem> = Vec::new();
    while list.len() > 0
        invariant
            list@.len() + out@.len() == before.len(),
            forall|k: int| 0 <= k < list@.len() ==> #[trigger] list@[k] == before[k],
            forall|k: int| 0 <= k < out@.len() ==> #[trigger] out@[k] == before[before.len() - 1 - k],
        decreases list.len(),
    {
        let item = list.pop().unwrap();
        out.push(item);
    }
    std::mem::swap(list, &mut out);
}

} // verus!
