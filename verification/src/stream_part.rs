//! The parts that a streamed generation is made of.
use crate::error::{json_view, AiMuxError, AiMuxErrorView};
use crate::json::{documents, Json, JsonView};
use crate::json_text::text_view;
use crate::result::{FilePart, FilePartView, SourcePart, SourcePartView, ToolResultPart, ToolResultPartView};
use crate::tool::{ToolCall, ToolCallView};
use crate::types::{
    FinishReason, FinishReasonView, ResponseMetadata, ResponseMetadataView, Usage, UsageView,
};
use vstd::prelude::*;

verus! {

#[allow(inconsistent_fields)]
pub enum StreamPart {
    StreamStart { warnings: Vec<Json> },
    TextStart { id: String, provider_metadata: Option<Json> },
    TextDelta { id: String, delta: String, provider_metadata: Option<Json> },
    TextEnd { id: String, provider_metadata: Option<Json> },
    ReasoningStart { id: String, provider_metadata: Option<Json> },
    ReasoningDelta { id: String, delta: String, provider_metadata: Option<Json> },
    ReasoningEnd { id: String, provider_metadata: Option<Json> },
    ToolInputStart {
        id: String,
        tool_name: String,
        provider_executed: Option<bool>,
        dynamic: Option<bool>,
        title: Option<String>,
        provider_metadata: Option<Json>,
    },
    ToolInputDelta { id: String, delta: String, provider_metadata: Option<Json> },
    ToolInputEnd { id: String, provider_metadata: Option<Json> },
    ToolCall(ToolCall),
    ToolResult(ToolResultPart),
    Source { source: SourcePart, provider_metadata: Option<Json> },
    File { file: FilePart, provider_metadata: Option<Json> },
    ResponseMetadata(ResponseMetadata),
    /// A provider event as it came.
    Raw { raw_value: Json },
    Error { error: AiMuxError },
    Finish { finish_reason: FinishReason, usage: Usage, provider_metadata: Option<Json> },
}

#[verifier::ext_equal]
#[allow(inconsistent_fields)]
pub enum StreamPartView {
    StreamStart { warnings: Seq<JsonView> },
    TextStart { id: Seq<char>, provider_metadata: Option<JsonView> },
    TextDelta { id: Seq<char>, delta: Seq<char>, provider_metadata: Option<JsonView> },
    TextEnd { id: Seq<char>, provider_metadata: Option<JsonView> },
    ReasoningStart { id: Seq<char>, provider_metadata: Option<JsonView> },
    ReasoningDelta { id: Seq<char>, delta: Seq<char>, provider_metadata: Option<JsonView> },
    ReasoningEnd { id: Seq<char>, provider_metadata: Option<JsonView> },
    ToolInputStart {
        id: Seq<char>,
        tool_name: Seq<char>,
        provider_executed: Option<bool>,
        dynamic: Option<bool>,
        title: Option<Seq<char>>,
        provider_metadata: Option<JsonView>,
    },
    ToolInputDelta { id: Seq<char>, delta: Seq<char>, provider_metadata: Option<JsonView> },
    ToolInputEnd { id: Seq<char>, provider_metadata: Option<JsonView> },
    ToolCall(ToolCallView),
    ToolResult(ToolResultPartView),
    Source { source: SourcePartView, provider_metadata: Option<JsonView> },
    File { file: FilePartView, provider_metadata: Option<JsonView> },
    ResponseMetadata(ResponseMetadataView),
    Raw { raw_value: JsonView },
    Error { error: AiMuxErrorView },
    Finish { finish_reason: FinishReasonView, usage: UsageView, provider_metadata: Option<JsonView> },
}

impl View for StreamPart {
    type V = StreamPartView;

    open spec fn view(&self) -> StreamPartView {
        match *self {
            StreamPart::StreamStart { warnings } => StreamPartView::StreamStart {
                warnings: documents(warnings@),
            },
            StreamPart::TextStart { id, provider_metadata } => StreamPartView::TextStart {
                id: id@,
                provider_metadata: json_view(provider_metadata),
            },
            StreamPart::TextDelta { id, delta, provider_metadata } => StreamPartView::TextDelta {
                id: id@,
                delta: delta@,
                provider_metadata: json_view(provider_metadata),
            },
            StreamPart::TextEnd { id, provider_metadata } => StreamPartView::TextEnd {
                id: id@,
                provider_metadata: json_view(provider_metadata),
            },
            StreamPart::ReasoningStart { id, provider_metadata } => StreamPartView::ReasoningStart {
                id: id@,
                provider_metadata: json_view(provider_metadata),
            },
            StreamPart::ReasoningDelta { id, delta, provider_metadata } => StreamPartView::ReasoningDelta {
                id: id@,
                delta: delta@,
                provider_metadata: json_view(provider_metadata),
            },
            StreamPart::ReasoningEnd { id, provider_metadata } => StreamPartView::ReasoningEnd {
                id: id@,
                provider_metadata: json_view(provider_metadata),
            },
            StreamPart::ToolInputStart {
                id,
                tool_name,
                provider_executed,
                dynamic,
                title,
                provider_metadata,
            } => StreamPartView::ToolInputStart {
                id: id@,
                tool_name: tool_name@,
                provider_executed,
                dynamic,
                title: text_view(title),
                provider_metadata: json_view(provider_metadata),
            },
            StreamPart::ToolInputDelta { id, delta, provider_metadata } => StreamPartView::ToolInputDelta {
                id: id@,
                delta: delta@,
                provider_metadata: json_view(provider_metadata),
            },
            StreamPart::ToolInputEnd { id, provider_metadata } => StreamPartView::ToolInputEnd {
                id: id@,
                provider_metadata: json_view(provider_metadata),
            },
            StreamPart::ToolCall(call) => StreamPartView::ToolCall(call@),
            StreamPart::ToolResult(result) => StreamPartView::ToolResult(result@),
            StreamPart::Source { source, provider_metadata } => StreamPartView::Source {
                source: source@,
                provider_metadata: json_view(provider_metadata),
            },
            StreamPart::File { file, provider_metadata } => StreamPartView::File {
                file: file@,
                provider_metadata: json_view(provider_metadata),
            },
            StreamPart::ResponseMetadata(response) => StreamPartView::ResponseMetadata(response@),
            StreamPart::Raw { raw_value } => StreamPartView::Raw { raw_value: raw_value@ },
            StreamPart::Error { error } => StreamPartView::Error { error: error@ },
            StreamPart::Finish { finish_reason, usage, provider_metadata } => StreamPartView::Finish {
                finish_reason: finish_reason@,
                usage: usage@,
                provider_metadata: json_view(provider_metadata),
            },
        }
    }
}

/// The views of a list of parts.
pub open spec fn stream_view(list: Seq<StreamPart>) -> Seq<StreamPartView> {
    Seq::new(list.len(), |i: int| list[i]@)
}

/// One item of a stream: a part, or a failure.
pub type StreamItem = Result<StreamPart, AiMuxError>;

pub type StreamItemView = Result<StreamPartView, AiMuxErrorView>;

pub open spec fn item_view(item: StreamItem) -> StreamItemView {
    match item {
        Ok(part) => Ok(part@),
        Err(error) => Err(error@),
    }
}

/// The views of a stream's items.
pub open spec fn items_view(list: Seq<StreamItem>) -> Seq<StreamItemView> {
    Seq::new(list.len(), |i: int| item_view(list[i]))
}

} // verus!
