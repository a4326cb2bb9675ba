//! What a generation returns.
use crate::error::{copy_json, json_view, pairs_view, Pairs};
use crate::json::{documents, Json, JsonView};
use crate::json_text::text_view;
use crate::text::copy_text;
use crate::tool::{RawToolCall, RawToolCallView};
use crate::types::{
    FinishReason, FinishReasonView, ResponseMetadata, ResponseMetadataView, Usage, UsageView,
};
use vstd::prelude::*;

verus! {

/// A citation.
pub struct SourcePart {
    pub id: String,
    pub source_type: String,
    pub url: Option<String>,
    pub title: Option<String>,
}

/// A generated file.
pub struct FilePart {
    pub data: String,
    pub media_type: String,
}

/// A reasoning segment.
pub struct ReasoningPart {
    pub text: String,
    pub provider_metadata: Option<Json>,
}

/// What a tool that the provider ran came back with.
pub struct ToolResultPart {
    pub tool_call_id: String,
    pub tool_name: String,
    pub result: Json,
    pub is_error: Option<bool>,
    pub preliminary: Option<bool>,
    pub dynamic: Option<bool>,
    pub provider_metadata: Option<Json>,
}

/// One piece of a provider's answer.
#[allow(inconsistent_fields)]
pub enum GenerateContent {
    Text { text: String, provider_metadata: Option<Json> },
    Reasoning { text: String, provider_metadata: Option<Json> },
    ToolCall(RawToolCall),
    ToolResult(ToolResultPart),
    Source { source: SourcePart, provider_metadata: Option<Json> },
    File { file: FilePart, provider_metadata: Option<Json> },
}

/// A provider's answer.
pub struct GenerateResult {
    pub content: Vec<GenerateContent>,
    pub finish_reason: FinishReason,
    pub usage: Usage,
    pub warnings: Vec<Json>,
    pub provider_metadata: Option<Json>,
    pub response: ResponseMetadata,
    pub request_body: Option<Json>,
    pub response_headers: Option<Vec<(String, String)>>,
}

#[verifier::ext_equal]
pub struct SourcePartView {
    pub id: Seq<char>,
    pub source_type: Seq<char>,
    pub url: Option<Seq<char>>,
    pub title: Option<Seq<char>>,
}

#[verifier::ext_equal]
pub struct FilePartView {
    pub data: Seq<char>,
    pub media_type: Seq<char>,
}

#[verifier::ext_equal]
pub struct ReasoningPartView {
    pub text: Seq<char>,
    pub provider_metadata: Option<JsonView>,
}

#[verifier::ext_equal]
pub struct ToolResultPartView {
    pub tool_call_id: Seq<char>,
    pub tool_name: Seq<char>,
    pub result: JsonView,
    pub is_error: Option<bool>,
    pub preliminary: Option<bool>,
    pub dynamic: Option<bool>,
    pub provider_metadata: Option<JsonView>,
}

#[verifier::ext_equal]
#[allow(inconsistent_fields)]
pub enum GenerateContentView {
    Text { text: Seq<char>, provider_metadata: Option<JsonView> },
    Reasoning { text: Seq<char>, provider_metadata: Option<JsonView> },
    ToolCall(RawToolCallView),
    ToolResult(ToolResultPartView),
    Source { source: SourcePartView, provider_metadata: Option<JsonView> },
    File { file: FilePartView, provider_metadata: Option<JsonView> },
}

#[verifier::ext_equal]
pub struct GenerateResultView {
    pub content: Seq<GenerateContentView>,
    pub finish_reason: FinishReasonView,
    pub usage: UsageView,
    pub warnings: Seq<JsonView>,
    pub provider_metadata: Option<JsonView>,
    pub response: ResponseMetadataView,
    pub request_body: Option<JsonView>,
    pub response_headers: Option<Pairs>,
}

impl View for SourcePart {
    type V = SourcePartView;

    open spec fn view(&self) -> SourcePartView {
        SourcePartView {
            id: self.id@,
            source_type: self.source_type@,
            url: text_view(self.url),
            title: text_view(self.title),
        }
    }
}

impl View for FilePart {
    type V = FilePartView;

    open spec fn view(&self) -> FilePartView {
        FilePartView { data: self.data@, media_type: self.media_type@ }
    }
}

impl View for ReasoningPart {
    type V = ReasoningPartView;

    open spec fn view(&self) -> ReasoningPartView {
        ReasoningPartView { text: self.text@, provider_metadata: json_view(self.provider_metadata) }
    }
}

impl View for ToolResultPart {
    type V = ToolResultPartView;

    open spec fn view(&self) -> ToolResultPartView {
        ToolResultPartView {
            tool_call_id: self.tool_call_id@,
            tool_name: self.tool_name@,
            result: self.result@,
            is_error: self.is_error,
            preliminary: self.preliminary,
            dynamic: self.dynamic,
            provider_metadata: json_view(self.provider_metadata),
        }
    }
}

impl View for GenerateContent {
    type V = GenerateContentView;

    open spec fn view(&self) -> GenerateContentView {
        match *self {
            GenerateContent::Text { text, provider_metadata } => GenerateContentView::Text {
                text: text@,
                provider_metadata: json_view(provider_metadata),
            },
            GenerateContent::Reasoning { text, provider_metadata } => GenerateContentView::Reasoning {
                text: text@,
                provider_metadata: json_view(provider_metadata),
            },
            GenerateContent::ToolCall(call) => GenerateContentView::ToolCall(call@),
            GenerateContent::ToolResult(result) => GenerateContentView::ToolResult(result@),
            GenerateContent::Source { source, provider_metadata } => GenerateContentView::Source {
                source: source@,
                provider_metadata: json_view(provider_metadata),
            },
            GenerateContent::File { file, provider_metadata } => GenerateContentView::File {
                file: file@,
                provider_metadata: json_view(provider_metadata),
            },
        }
    }
}

/// The views of an answer's pieces.
pub open spec fn contents_view(list: Seq<GenerateContent>) -> Seq<GenerateContentView> {
    Seq::new(list.len(), |i: int| list[i]@)
}

impl View for GenerateResult {
    type V = GenerateResultView;

    open spec fn view(&self) -> GenerateResultView {
        GenerateResultView {
            content: contents_view(self.content@),
            finish_reason: self.finish_reason@,
            usage: self.usage@,
            warnings: documents(self.warnings@),
            provider_metadata: json_view(self.provider_metadata),
            response: self.response@,
            request_body: json_view(self.request_body),
            response_headers: pairs_view(self.response_headers),
        }
    }
}

impl SourcePart {
    pub fn copy(&self) -> (r: SourcePart)
        ensures
            r@ == self@,
    {
        SourcePart {
            id: self.id.clone(),
            source_type: self.source_type.clone(),
            url: copy_text(&self.url),
            title: copy_text(&self.title),
        }
    }
}

impl FilePart {
    pub fn copy(&self) -> (r: FilePart)
        ensures
            r@ == self@,
    {
        FilePart { data: self.data.clone(), media_type: self.media_type.clone() }
    }
}

impl ToolResultPart {
    pub fn copy(&self) -> (r: ToolResultPart)
        ensures
            r@ == self@,
    {
        ToolResultPart {
            tool_call_id: self.tool_call_id.clone(),
            tool_name: self.tool_name.clone(),
            result: self.result.copy(),
            is_error: self.is_error,
            preliminary: self.preliminary,
            dynamic: self.dynamic,
            provider_metadata: copy_json(&self.provider_metadata),
        }
    }
}

} // verus!
