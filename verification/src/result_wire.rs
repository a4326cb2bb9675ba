//! The results of a generation on the wire.
use crate::error::copy_json;
use crate::generate::{GenerateObjectResult, GenerateTextResult, ObjectResultView, TextResultView};
use crate::json::{copy_items, documents, put, put_some, Json, JsonObject, JsonView};
use crate::openai_output::{
    chat_calls_view, ChatCallView, ChatChoiceView, ChatCompletion, ChatCompletionChoice, ChatCompletionToolCall,
    ChatCompletionView,
};
use crate::response_messages::reasonings_view;
use crate::result::{
    contents_view, FilePart, FilePartView, GenerateContent, GenerateContentView, GenerateResult,
    GenerateResultView, ReasoningPart, ReasoningPartView, SourcePart, SourcePartView, ToolResultPart,
    ToolResultPartView,
};
use crate::stream_part::{StreamPart, StreamPartView};
use crate::stream_text::{files_view, sources_view, AggregatedView, StreamTextResultAggregated};
use crate::tool::{calls_view, ToolCall, ToolCallView};
use crate::types::{
    FinishReason, FinishReasonUnified, FinishReasonView, ResponseMetadata, ResponseMetadataView, TokenUsage,
    Usage, UsageView,
};
use crate::wire::{
    bool_doc, call_doc, call_json, error_doc, error_json, json_array, json_bool_option, json_natural, json_object,
    json_or_null, json_pairs, json_string, json_tagged, json_text_option, messages_doc, messages_json, natural_doc,
    no_fields, or_null, pairs_doc, raw_call_doc, raw_call_json, tagged, text_doc,
};
use vstd::prelude::*;

verus! {

/// The name of a finish reason on the wire.
pub open spec fn unified_name(reason: FinishReasonUnified) -> Seq<char> {
    match reason {
        FinishReasonUnified::Stop => "stop"@,
        FinishReasonUnified::Length => "length"@,
        FinishReasonUnified::ContentFilter => "content-filter"@,
        FinishReasonUnified::ToolCalls => "tool-calls"@,
        FinishReasonUnified::Error => "error"@,
        FinishReasonUnified::Other => "other"@,
    }
}

pub fn unified_text(reason: FinishReasonUnified) -> (r: &'static str)
    ensures
        r@ == unified_name(reason),
{
    match reason {
        FinishReasonUnified::Stop => "stop",
        FinishReasonUnified::Length => "length",
        FinishReasonUnified::ContentFilter => "content-filter",
        FinishReasonUnified::ToolCalls => "tool-calls",
        FinishReasonUnified::Error => "error",
        FinishReasonUnified::Other => "other",
    }
}

pub open spec fn count_or_null(n: Option<u32>) -> JsonView {
    match n {
        Some(n) => natural_doc(n as u64),
        None => JsonView::Null,
    }
}

pub fn json_count(n: Option<u32>) -> (r: Json)
    ensures
        r@ == count_or_null(n),
{
    match n {
        Some(n) => json_natural(n as u64),
        None => json_or_null(None),
    }
}

pub fn json_list(items: &Vec<Json>) -> (r: Json)
    ensures
        r@ == JsonView::Array(documents(items@)),
{
    json_array(copy_items(items))
}

fn json_headers(list: &Option<Vec<(String, String)>>) -> (r: Json)
    ensures
        r@ == or_null(pairs_doc(crate::error::pairs_view(*list))),
{
    match list {
        Some(list) => json_pairs(list),
        None => json_or_null(None),
    }
}

/// Why a generation stopped.
pub open spec fn finish_doc(v: FinishReasonView) -> JsonView {
    let f = put(no_fields(), "unified"@, JsonView::String(unified_name(v.unified)));
    JsonView::Object(put(f, "raw"@, or_null(text_doc(v.raw))))
}

pub fn finish_json(v: &FinishReason) -> (r: Json)
    ensures
        r@ == finish_doc(v@),
{
    json_object(
        JsonObject::new().with("unified", json_string(unified_text(v.unified))).with(
            "raw",
            json_or_null(json_text_option(&v.raw)),
        ),
    )
}

/// Token counts.
pub open spec fn tokens_doc(v: TokenUsage) -> JsonView {
    let f = put(no_fields(), "total"@, count_or_null(v.total));
    let f = put(f, "no_cache"@, count_or_null(v.no_cache));
    let f = put(f, "cache_read"@, count_or_null(v.cache_read));
    let f = put(f, "cache_write"@, count_or_null(v.cache_write));
    let f = put(f, "text"@, count_or_null(v.text));
    let f = put(f, "reasoning"@, count_or_null(v.reasoning));
    JsonView::Object(f)
}

pub fn tokens_json(v: &TokenUsage) -> (r: Json)
    ensures
        r@ == tokens_doc(*v),
{
    json_object(
        JsonObject::new()
            .with("total", json_count(v.total))
            .with("no_cache", json_count(v.no_cache))
            .with("cache_read", json_count(v.cache_read))
            .with("cache_write", json_count(v.cache_write))
            .with("text", json_count(v.text))
            .with("reasoning", json_count(v.reasoning)),
    )
}

/// What a generation used.
pub open spec fn usage_doc(v: UsageView) -> JsonView {
    let f = put(no_fields(), "input_tokens"@, tokens_doc(v.input_tokens));
    let f = put(f, "output_tokens"@, tokens_doc(v.output_tokens));
    let f = put(f, "raw"@, or_null(v.raw));
    JsonView::Object(f)
}

pub fn usage_json(v: &Usage) -> (r: Json)
    ensures
        r@ == usage_doc(v@),
{
    json_object(
        JsonObject::new()
            .with("input_tokens", tokens_json(&v.input_tokens))
            .with("output_tokens", tokens_json(&v.output_tokens))
            .with("raw", json_or_null(copy_json(&v.raw))),
    )
}

/// Who answered.
pub open spec fn response_doc(v: ResponseMetadataView) -> JsonView {
    let f = put(no_fields(), "id"@, or_null(text_doc(v.id)));
    let f = put(f, "timestamp"@, or_null(text_doc(v.timestamp)));
    let f = put(f, "model_id"@, or_null(text_doc(v.model_id)));
    JsonView::Object(f)
}

pub fn response_json(v: &ResponseMetadata) -> (r: Json)
    ensures
        r@ == response_doc(v@),
{
    json_object(
        JsonObject::new()
            .with("id", json_or_null(json_text_option(&v.id)))
            .with("timestamp", json_or_null(json_text_option(&v.timestamp)))
            .with("model_id", json_or_null(json_text_option(&v.model_id))),
    )
}

/// A citation.
pub open spec fn source_doc(v: SourcePartView) -> JsonView {
    let f = put(no_fields(), "id"@, JsonView::String(v.id));
    let f = put(f, "source_type"@, JsonView::String(v.source_type));
    let f = put(f, "url"@, or_null(text_doc(v.url)));
    let f = put(f, "title"@, or_null(text_doc(v.title)));
    JsonView::Object(f)
}

pub fn source_json(v: &SourcePart) -> (r: Json)
    ensures
        r@ == source_doc(v@),
{
    json_object(
        JsonObject::new()
            .with("id", json_string(v.id.as_str()))
            .with("source_type", json_string(v.source_type.as_str()))
            .with("url", json_or_null(json_text_option(&v.url)))
            .with("title", json_or_null(json_text_option(&v.title))),
    )
}

/// A generated file.
pub open spec fn file_doc(v: FilePartView) -> JsonView {
    let f = put(no_fields(), "data"@, JsonView::String(v.data));
    let f = put(f, "media_type"@, JsonView::String(v.media_type));
    JsonView::Object(f)
}

pub fn file_json(v: &FilePart) -> (r: Json)
    ensures
        r@ == file_doc(v@),
{
    json_object(
        JsonObject::new()
            .with("data", json_string(v.data.as_str()))
            .with("media_type", json_string(v.media_type.as_str())),
    )
}

/// A reasoning segment.
pub open spec fn reasoning_doc(v: ReasoningPartView) -> JsonView {
    let f = put(no_fields(), "text"@, JsonView::String(v.text));
    let f = put(f, "provider_metadata"@, or_null(v.provider_metadata));
    JsonView::Object(f)
}

pub fn reasoning_json(v: &ReasoningPart) -> (r: Json)
    ensures
        r@ == reasoning_doc(v@),
{
    json_object(
        JsonObject::new()
            .with("text", json_string(v.text.as_str()))
            .with("provider_metadata", json_or_null(copy_json(&v.provider_metadata))),
    )
}

/// What a provider's tool came back with. Absent facts are left out.
pub open spec fn tool_result_doc(v: ToolResultPartView) -> JsonView {
    let f = put(no_fields(), "tool_call_id"@, JsonView::String(v.tool_call_id));
    let f = put(f, "tool_name"@, JsonView::String(v.tool_name));
    let f = put(f, "result"@, v.result);
    let f = put_some(f, "is_error"@, bool_doc(v.is_error));
    let f = put_some(f, "preliminary"@, bool_doc(v.preliminary));
    let f = put_some(f, "dynamic"@, bool_doc(v.dynamic));
    let f = put_some(f, "provider_metadata"@, v.provider_metadata);
    JsonView::Object(f)
}

pub fn tool_result_json(v: &ToolResultPart) -> (r: Json)
    ensures
        r@ == tool_result_doc(v@),
{
    json_object(
        JsonObject::new()
            .with("tool_call_id", json_string(v.tool_call_id.as_str()))
            .with("tool_name", json_string(v.tool_name.as_str()))
            .with("result", v.result.copy())
            .with_some("is_error", json_bool_option(v.is_error))
            .with_some("preliminary", json_bool_option(v.preliminary))
            .with_some("dynamic", json_bool_option(v.dynamic))
            .with_some("provider_metadata", copy_json(&v.provider_metadata)),
    )
}

pub open spec fn sources_doc(list: Seq<SourcePartView>) -> JsonView {
    JsonView::Array(Seq::new(list.len(), |i: int| source_doc(list[i])))
}

pub fn sources_json(list: &Vec<SourcePart>) -> (r: Json)
    ensures
        r@ == sources_doc(sources_view(list@)),
{
    let mut out: Vec<Json> = Vec::new();
    let mut i: usize = 0;
    while i < list.len()
        invariant
            i <= list.len(),
            out.len() == i,
            forall|k: int| 0 <= k < i ==> (#[trigger] out@[k])@ == source_doc(list@[k]@),
        decreases list.len() - i,
    {
        out.push(source_json(&list[i]));
        i = i + 1;
    }
    assert(documents(out@) =~= sources_doc(sources_view(list@))->Array_0);
    json_array(out)
}

pub open spec fn files_doc(list: Seq<FilePartView>) -> JsonView {
    JsonView::Array(Seq::new(list.len(), |i: int| file_doc(list[i])))
}

pub fn files_json(list: &Vec<FilePart>) -> (r: Json)
    ensures
        r@ == files_doc(files_view(list@)),
{
    let mut out: Vec<Json> = Vec::new();
    let mut i: usize = 0;
    while i < list.len()
        invariant
            i <= list.len(),
            out.len() == i,
            forall|k: int| 0 <= k < i ==> (#[trigger] out@[k])@ == file_doc(list@[k]@),
        decreases list.len() - i,
    {
        out.push(file_json(&list[i]));
        i = i + 1;
    }
    assert(documents(out@) =~= files_doc(files_view(list@))->Array_0);
    json_array(out)
}

pub open spec fn reasonings_doc(list: Seq<ReasoningPartView>) -> JsonView {
    JsonView::Array(Seq::new(list.len(), |i: int| reasoning_doc(list[i])))
}

pub fn reasonings_json(list: &Vec<ReasoningPart>) -> (r: Json)
    ensures
        r@ == reasonings_doc(reasonings_view(list@)),
{
    let mut out: Vec<Json> = Vec::new();
    let mut i: usize = 0;
    while i < list.len()
        invariant
            i <= list.len(),
            out.len() == i,
            forall|k: int| 0 <= k < i ==> (#[trigger] out@[k])@ == reasoning_doc(list@[k]@),
        decreases list.len() - i,
    {
        out.push(reasoning_json(&list[i]));
        i = i + 1;
    }
    assert(documents(out@) =~= reasonings_doc(reasonings_view(list@))->Array_0);
    json_array(out)
}

pub open spec fn calls_doc(list: Seq<ToolCallView>) -> JsonView {
    JsonView::Array(Seq::new(list.len(), |i: int| call_doc(list[i])))
}

pub fn calls_json(list: &Vec<ToolCall>) -> (r: Json)
    ensures
        r@ == calls_doc(calls_view(list@)),
{
    let mut out: Vec<Json> = Vec::new();
    let mut i: usize = 0;
    while i < list.len()
        invariant
            i <= list.len(),
            out.len() == i,
            forall|k: int| 0 <= k < i ==> (#[trigger] out@[k])@ == call_doc(list@[k]@),
        decreases list.len() - i,
    {
        out.push(call_json(&list[i]));
        i = i + 1;
    }
    assert(documents(out@) =~= calls_doc(calls_view(list@))->Array_0);
    json_array(out)
}

/// One piece of a provider's answer. Absent facts are left out.
pub open spec fn content_doc(v: GenerateContentView) -> JsonView {
    match v {
        GenerateContentView::Text { text, provider_metadata } => {
            let f = put(no_fields(), "text"@, JsonView::String(text));
            let f = put_some(f, "provider_metadata"@, provider_metadata);
            tagged("Text"@, JsonView::Object(f))
        },
        GenerateContentView::Reasoning { text, provider_metadata } => {
            let f = put(no_fields(), "text"@, JsonView::String(text));
            let f = put_some(f, "provider_metadata"@, provider_metadata);
            tagged("Reasoning"@, JsonView::Object(f))
        },
        GenerateContentView::ToolCall(v) => tagged("ToolCall"@, raw_call_doc(v)),
        GenerateContentView::ToolResult(v) => tagged("ToolResult"@, tool_result_doc(v)),
        GenerateContentView::Source { source, provider_metadata } => {
            let f = put(no_fields(), "id"@, JsonView::String(source.id));
            let f = put(f, "source_type"@, JsonView::String(source.source_type));
            let f = put_some(f, "url"@, text_doc(source.url));
            let f = put_some(f, "title"@, text_doc(source.title));
            let f = put_some(f, "provider_metadata"@, provider_metadata);
            tagged("Source"@, JsonView::Object(f))
        },
        GenerateContentView::File { file, provider_metadata } => {
            let f = put(no_fields(), "data"@, JsonView::String(file.data));
            let f = put(f, "media_type"@, JsonView::String(file.media_type));
            let f = put_some(f, "provider_metadata"@, provider_metadata);
            tagged("File"@, JsonView::Object(f))
        },
    }
}

pub fn content_json(v: &GenerateContent) -> (r: Json)
    ensures
        r@ == content_doc(v@),
{
    match v {
        GenerateContent::Text { text, provider_metadata } => json_tagged(
            "Text",
            json_object(
                JsonObject::new()
                    .with("text", json_string(text.as_str()))
                    .with_some("provider_metadata", copy_json(provider_metadata)),
            ),
        ),
        GenerateContent::Reasoning { text, provider_metadata } => json_tagged(
            "Reasoning",
            json_object(
                JsonObject::new()
                    .with("text", json_string(text.as_str()))
                    .with_some("provider_metadata", copy_json(provider_metadata)),
            ),
        ),
        GenerateContent::ToolCall(v) => json_tagged("ToolCall", raw_call_json(v)),
        GenerateContent::ToolResult(v) => json_tagged("ToolResult", tool_result_json(v)),
        GenerateContent::Source { source, provider_metadata } => json_tagged(
            "Source",
            json_object(
                JsonObject::new()
                    .with("id", json_string(source.id.as_str()))
                    .with("source_type", json_string(source.source_type.as_str()))
                    .with_some("url", json_text_option(&source.url))
                    .with_some("title", json_text_option(&source.title))
                    .with_some("provider_metadata", copy_json(provider_metadata)),
            ),
        ),
        GenerateContent::File { file, provider_metadata } => json_tagged(
            "File",
            json_object(
                JsonObject::new()
                    .with("data", json_string(file.data.as_str()))
                    .with("media_type", json_string(file.media_type.as_str()))
                    .with_some("provider_metadata", copy_json(provider_metadata)),
            ),
        ),
    }
}

pub open spec fn contents_doc(list: Seq<GenerateContentView>) -> JsonView {
    JsonView::Array(Seq::new(list.len(), |i: int| content_doc(list[i])))
}

pub fn contents_json(list: &Vec<GenerateContent>) -> (r: Json)
    ensures
        r@ == contents_doc(contents_view(list@)),
{
    let mut out: Vec<Json> = Vec::new();
    let mut i: usize = 0;
    while i < list.len()
        invariant
            i <= list.len(),
            out.len() == i,
            forall|k: int| 0 <= k < i ==> (#[trigger] out@[k])@ == content_doc(list@[k]@),
        decreases list.len() - i,
    {
        out.push(content_json(&list[i]));
        i = i + 1;
    }
    assert(documents(out@) =~= contents_doc(contents_view(list@))->Array_0);
    json_array(out)
}

/// A provider's answer.
pub open spec fn generate_result_doc(v: GenerateResultView) -> JsonView {
    let f = put(no_fields(), "content"@, contents_doc(v.content));
    let f = put(f, "finish_reason"@, finish_doc(v.finish_reason));
    let f = put(f, "usage"@, usage_doc(v.usage));
    let f = put(f, "warnings"@, JsonView::Array(v.warnings));
    let f = put(f, "provider_metadata"@, or_null(v.provider_metadata));
    let f = put(f, "response"@, response_doc(v.response));
    let f = put(f, "request_body"@, or_null(v.request_body));
    let f = put(f, "response_headers"@, or_null(pairs_doc(v.response_headers)));
    JsonView::Object(f)
}

pub fn generate_result_json(v: &GenerateResult) -> (r: Json)
    ensures
        r@ == generate_result_doc(v@),
{
    json_object(
        JsonObject::new()
            .with("content", contents_json(&v.content))
            .with("finish_reason", finish_json(&v.finish_reason))
            .with("usage", usage_json(&v.usage))
            .with("warnings", json_list(&v.warnings))
            .with("provider_metadata", json_or_null(copy_json(&v.provider_metadata)))
            .with("response", response_json(&v.response))
            .with("request_body", json_or_null(copy_json(&v.request_body)))
            .with("response_headers", json_headers(&v.response_headers)),
    )
}

/// The result of a text generation.
pub open spec fn text_result_doc(v: TextResultView) -> JsonView {
    let f = put(no_fields(), "text"@, JsonView::String(v.text));
    let f = put(f, "tool_calls"@, calls_doc(v.tool_calls));
    let f = put(f, "finish_reason"@, finish_doc(v.finish_reason));
    let f = put(f, "usage"@, usage_doc(v.usage));
    let f = put(f, "warnings"@, JsonView::Array(v.warnings));
    let f = put(f, "raw"@, generate_result_doc(v.raw));
    let f = put(f, "reasoning"@, reasonings_doc(v.reasoning));
    let f = put(f, "reasoning_text"@, JsonView::String(v.reasoning_text));
    let f = put(f, "sources"@, sources_doc(v.sources));
    let f = put(f, "files"@, files_doc(v.files));
    let f = put(f, "response_messages"@, messages_doc(v.response_messages));
    let f = put(f, "raw_finish_reason"@, or_null(text_doc(v.raw_finish_reason)));
    let f = put(f, "provider_metadata"@, or_null(v.provider_metadata));
    let f = put(f, "response"@, response_doc(v.response));
    let f = put(f, "total_usage"@, usage_doc(v.total_usage));
    JsonView::Object(f)
}

pub fn text_result_json(v: &GenerateTextResult) -> (r: Json)
    ensures
        r@ == text_result_doc(v@),
{
    json_object(
        JsonObject::new()
            .with("text", json_string(v.text.as_str()))
            .with("tool_calls", calls_json(&v.tool_calls))
            .with("finish_reason", finish_json(&v.finish_reason))
            .with("usage", usage_json(&v.usage))
            .with("warnings", json_list(&v.warnings))
            .with("raw", generate_result_json(&v.raw))
            .with("reasoning", reasonings_json(&v.reasoning))
            .with("reasoning_text", json_string(v.reasoning_text.as_str()))
            .with("sources", sources_json(&v.sources))
            .with("files", files_json(&v.files))
            .with("response_messages", messages_json(v.response_messages.as_slice()))
            .with("raw_finish_reason", json_or_null(json_text_option(&v.raw_finish_reason)))
            .with("provider_metadata", json_or_null(copy_json(&v.provider_metadata)))
            .with("response", response_json(&v.response))
            .with("total_usage", usage_json(&v.total_usage)),
    )
}

/// The result of an object generation.
pub open spec fn object_result_doc(v: ObjectResultView) -> JsonView {
    let f = put(no_fields(), "object"@, v.object);
    let f = put(f, "finish_reason"@, finish_doc(v.finish_reason));
    let f = put(f, "raw_finish_reason"@, or_null(text_doc(v.raw_finish_reason)));
    let f = put(f, "usage"@, usage_doc(v.usage));
    let f = put(f, "warnings"@, JsonView::Array(v.warnings));
    let f = put(f, "reasoning"@, or_null(text_doc(v.reasoning)));
    let f = put(f, "provider_metadata"@, or_null(v.provider_metadata));
    let f = put(f, "response"@, response_doc(v.response));
    let f = put(f, "raw"@, text_result_doc(v.raw));
    JsonView::Object(f)
}

pub fn object_result_json(v: &GenerateObjectResult) -> (r: Json)
    ensures
        r@ == object_result_doc(v@),
{
    json_object(
        JsonObject::new()
            .with("object", v.object.copy())
            .with("finish_reason", finish_json(&v.finish_reason))
            .with("raw_finish_reason", json_or_null(json_text_option(&v.raw_finish_reason)))
            .with("usage", usage_json(&v.usage))
            .with("warnings", json_list(&v.warnings))
            .with("reasoning", json_or_null(json_text_option(&v.reasoning)))
            .with("provider_metadata", json_or_null(copy_json(&v.provider_metadata)))
            .with("response", response_json(&v.response))
            .with("raw", text_result_json(&v.raw)),
    )
}

pub open spec fn some_response_doc(v: Option<ResponseMetadataView>) -> JsonView {
    match v {
        Some(v) => response_doc(v),
        None => JsonView::Null,
    }
}

fn some_response_json(v: &Option<ResponseMetadata>) -> (r: Json)
    ensures
        r@ == some_response_doc(crate::stream_text::response_view(*v)),
{
    match v {
        Some(v) => response_json(v),
        None => json_or_null(None),
    }
}

/// What a whole stream amounts to.
pub open spec fn aggregated_doc(v: AggregatedView) -> JsonView {
    let f = put(no_fields(), "text"@, JsonView::String(v.text));
    let f = put(f, "reasoning"@, reasonings_doc(v.reasoning));
    let f = put(f, "reasoning_text"@, JsonView::String(v.reasoning_text));
    let f = put(f, "tool_calls"@, calls_doc(v.tool_calls));
    let f = put(f, "sources"@, sources_doc(v.sources));
    let f = put(f, "files"@, files_doc(v.files));
    let f = put(f, "finish_reason"@, finish_doc(v.finish_reason));
    let f = put(f, "raw_finish_reason"@, or_null(text_doc(v.raw_finish_reason)));
    let f = put(f, "usage"@, usage_doc(v.usage));
    let f = put(f, "total_usage"@, usage_doc(v.total_usage));
    let f = put(f, "warnings"@, JsonView::Array(v.warnings));
    let f = put(f, "provider_metadata"@, or_null(v.provider_metadata));
    let f = put(f, "response"@, some_response_doc(v.response));
    let f = put(f, "response_messages"@, messages_doc(v.response_messages));
    JsonView::Object(f)
}

pub fn aggregated_json(v: &StreamTextResultAggregated) -> (r: Json)
    ensures
        r@ == aggregated_doc(v@),
{
    json_object(
        JsonObject::new()
            .with("text", json_string(v.text.as_str()))
            .with("reasoning", reasonings_json(&v.reasoning))
            .with("reasoning_text", json_string(v.reasoning_text.as_str()))
            .with("tool_calls", calls_json(&v.tool_calls))
            .with("sources", sources_json(&v.sources))
            .with("files", files_json(&v.files))
            .with("finish_reason", finish_json(&v.finish_reason))
            .with("raw_finish_reason", json_or_null(json_text_option(&v.raw_finish_reason)))
            .with("usage", usage_json(&v.usage))
            .with("total_usage", usage_json(&v.total_usage))
            .with("warnings", json_list(&v.warnings))
            .with("provider_metadata", json_or_null(copy_json(&v.provider_metadata)))
            .with("response", some_response_json(&v.response))
            .with("response_messages", messages_json(v.response_messages.as_slice())),
    )
}

/// One part of a stream. Absent facts are left out.
pub open spec fn part_of_stream_doc(v: StreamPartView) -> JsonView {
    match v {
        StreamPartView::StreamStart { warnings } => {
            let f = put(no_fields(), "warnings"@, JsonView::Array(warnings));
            tagged("StreamStart"@, JsonView::Object(f))
        },
        StreamPartView::TextStart { id, provider_metadata } => {
            let f = put(no_fields(), "id"@, JsonView::String(id));
            let f = put_some(f, "provider_metadata"@, provider_metadata);
            tagged("TextStart"@, JsonView::Object(f))
        },
        StreamPartView::TextDelta { id, delta, provider_metadata } => {
            let f = put(no_fields(), "id"@, JsonView::String(id));
            let f = put(f, "delta"@, JsonView::String(delta));
            let f = put_some(f, "provider_metadata"@, provider_metadata);
            tagged("TextDelta"@, JsonView::Object(f))
        },
        StreamPartView::TextEnd { id, provider_metadata } => {
            let f = put(no_fields(), "id"@, JsonView::String(id));
            let f = put_some(f, "provider_metadata"@, provider_metadata);
            tagged("TextEnd"@, JsonView::Object(f))
        },
        StreamPartView::ReasoningStart { id, provider_metadata } => {
            let f = put(no_fields(), "id"@, JsonView::String(id));
            let f = put_some(f, "provider_metadata"@, provider_metadata);
            tagged("ReasoningStart"@, JsonView::Object(f))
        },
        StreamPartView::ReasoningDelta { id, delta, provider_metadata } => {
            let f = put(no_fields(), "id"@, JsonView::String(id));
            let f = put(f, "delta"@, JsonView::String(delta));
            let f = put_some(f, "provider_metadata"@, provider_metadata);
            tagged("ReasoningDelta"@, JsonView::Object(f))
        },
        StreamPartView::ReasoningEnd { id, provider_metadata } => {
            let f = put(no_fields(), "id"@, JsonView::String(id));
            let f = put_some(f, "provider_metadata"@, provider_metadata);
            tagged("ReasoningEnd"@, JsonView::Object(f))
        },
        StreamPartView::ToolInputStart { id, tool_name, provider_executed, dynamic, title, provider_metadata } => {
            let f = put(no_fields(), "id"@, JsonView::String(id));
            let f = put(f, "tool_name"@, JsonView::String(tool_name));
            let f = put_some(f, "provider_executed"@, bool_doc(provider_executed));
            let f = put_some(f, "dynamic"@, bool_doc(dynamic));
            let f = put_some(f, "title"@, text_doc(title));
            let f = put_some(f, "provider_metadata"@, provider_metadata);
            tagged("ToolInputStart"@, JsonView::Object(f))
        },
        StreamPartView::ToolInputDelta { id, delta, provider_metadata } => {
            let f = put(no_fields(), "id"@, JsonView::String(id));
            let f = put(f, "delta"@, JsonView::String(delta));
            let f = put_some(f, "provider_metadata"@, provider_metadata);
            tagged("ToolInputDelta"@, JsonView::Object(f))
        },
        StreamPartView::ToolInputEnd { id, provider_metadata } => {
            let f = put(no_fields(), "id"@, JsonView::String(id));
            let f = put_some(f, "provider_metadata"@, provider_metadata);
            tagged("ToolInputEnd"@, JsonView::Object(f))
        },
        StreamPartView::ToolCall(v) => tagged("ToolCall"@, call_doc(v)),
        StreamPartView::ToolResult(v) => tagged("ToolResult"@, tool_result_doc(v)),
        StreamPartView::Source { source, provider_metadata } => {
            let f = put(no_fields(), "id"@, JsonView::String(source.id));
            let f = put(f, "source_type"@, JsonView::String(source.source_type));
            let f = put_some(f, "url"@, text_doc(source.url));
            let f = put_some(f, "title"@, text_doc(source.title));
            let f = put_some(f, "provider_metadata"@, provider_metadata);
            tagged("Source"@, JsonView::Object(f))
        },
        StreamPartView::File { file, provider_metadata } => {
            let f = put(no_fields(), "data"@, JsonView::String(file.data));
            let f = put(f, "media_type"@, JsonView::String(file.media_type));
            let f = put_some(f, "provider_metadata"@, provider_metadata);
            tagged("File"@, JsonView::Object(f))
        },
        StreamPartView::ResponseMetadata(v) => tagged("ResponseMetadata"@, response_doc(v)),
        StreamPartView::Raw { raw_value } => {
            let f = put(no_fields(), "raw_value"@, raw_value);
            tagged("Raw"@, JsonView::Object(f))
        },
        StreamPartView::Error { error } => {
            let f = put(no_fields(), "error"@, error_doc(error));
            tagged("Error"@, JsonView::Object(f))
        },
        StreamPartView::Finish { finish_reason, usage, provider_metadata } => {
            let f = put(no_fields(), "finish_reason"@, finish_doc(finish_reason));
            let f = put(f, "usage"@, usage_doc(usage));
            let f = put_some(f, "provider_metadata"@, provider_metadata);
            tagged("Finish"@, JsonView::Object(f))
        },
    }
}

pub fn part_of_stream_json(v: &StreamPart) -> (r: Json)
    ensures
        r@ == part_of_stream_doc(v@),
{
    match v {
        StreamPart::StreamStart { warnings } => json_tagged(
            "StreamStart",
            json_object(
                JsonObject::new()
                    .with("warnings", json_list(warnings)),
            ),
        ),
        StreamPart::TextStart { id, provider_metadata } => json_tagged(
            "TextStart",
            json_object(
                JsonObject::new()
                    .with("id", json_string(id.as_str()))
                    .with_some("provider_metadata", copy_json(provider_metadata)),
            ),
        ),
        StreamPart::TextDelta { id, delta, provider_metadata } => json_tagged(
            "TextDelta",
            json_object(
                JsonObject::new()
                    .with("id", json_string(id.as_str()))
                    .with("delta", json_string(delta.as_str()))
                    .with_some("provider_metadata", copy_json(provider_metadata)),
            ),
        ),
        StreamPart::TextEnd { id, provider_metadata } => json_tagged(
            "TextEnd",
            json_object(
                JsonObject::new()
                    .with("id", json_string(id.as_str()))
                    .with_some("provider_metadata", copy_json(provider_metadata)),
            ),
        ),
        StreamPart::ReasoningStart { id, provider_metadata } => json_tagged(
            "ReasoningStart",
            json_object(
                JsonObject::new()
                    .with("id", json_string(id.as_str()))
                    .with_some("provider_metadata", copy_json(provider_metadata)),
            ),
        ),
        StreamPart::ReasoningDelta { id, delta, provider_metadata } => json_tagged(
            "ReasoningDelta",
            json_object(
                JsonObject::new()
                    .with("id", json_string(id.as_str()))
                    .with("delta", json_string(delta.as_str()))
                    .with_some("provider_metadata", copy_json(provider_metadata)),
            ),
        ),
        StreamPart::ReasoningEnd { id, provider_metadata } => json_tagged(
            "ReasoningEnd",
            json_object(
                JsonObject::new()
                    .with("id", json_string(id.as_str()))
                    .with_some("provider_metadata", copy_json(provider_metadata)),
            ),
        ),
        StreamPart::ToolInputStart { id, tool_name, provider_executed, dynamic, title, provider_metadata } => json_tagged(
            "ToolInputStart",
            json_object(
                JsonObject::new()
                    .with("id", json_string(id.as_str()))
                    .with("tool_name", json_string(tool_name.as_str()))
                    .with_some("provider_executed", json_bool_option(*provider_executed))
                    .with_some("dynamic", json_bool_option(*dynamic))
                    .with_some("title", json_text_option(title))
                    .with_some("provider_metadata", copy_json(provider_metadata)),
            ),
        ),
        StreamPart::ToolInputDelta { id, delta, provider_metadata } => json_tagged(
            "ToolInputDelta",
            json_object(
                JsonObject::new()
                    .with("id", json_string(id.as_str()))
                    .with("delta", json_string(delta.as_str()))
                    .with_some("provider_metadata", copy_json(provider_metadata)),
            ),
        ),
        StreamPart::ToolInputEnd { id, provider_metadata } => json_tagged(
            "ToolInputEnd",
            json_object(
                JsonObject::new()
                    .with("id", json_string(id.as_str()))
                    .with_some("provider_metadata", copy_json(provider_metadata)),
            ),
        ),
        StreamPart::ToolCall(v) => json_tagged("ToolCall", call_json(v)),
        StreamPart::ToolResult(v) => json_tagged("ToolResult", tool_result_json(v)),
        StreamPart::Source { source, provider_metadata } => json_tagged(
            "Source",
            json_object(
                JsonObject::new()
                    .with("id", json_string(source.id.as_str()))
                    .with("source_type", json_string(source.source_type.as_str()))
                    .with_some("url", json_text_option(&source.url))
                    .with_some("title", json_text_option(&source.title))
                    .with_some("provider_metadata", copy_json(provider_metadata)),
            ),
        ),
        StreamPart::File { file, provider_metadata } => json_tagged(
            "File",
            json_object(
                JsonObject::new()
                    .with("data", json_string(file.data.as_str()))
                    .with("media_type", json_string(file.media_type.as_str()))
                    .with_some("provider_metadata", copy_json(provider_metadata)),
            ),
        ),
        StreamPart::ResponseMetadata(v) => json_tagged("ResponseMetadata", response_json(v)),
        StreamPart::Raw { raw_value } => json_tagged(
            "Raw",
            json_object(
                JsonObject::new()
                    .with("raw_value", raw_value.copy()),
            ),
        ),
        StreamPart::Error { error } => json_tagged(
            "Error",
            json_object(
                JsonObject::new()
                    .with("error", error_json(error)),
            ),
        ),
        StreamPart::Finish { finish_reason, usage, provider_metadata } => json_tagged(
            "Finish",
            json_object(
                JsonObject::new()
                    .with("finish_reason", finish_json(finish_reason))
                    .with("usage", usage_json(usage))
                    .with_some("provider_metadata", copy_json(provider_metadata)),
            ),
        ),
    }
}

pub open spec fn chat_call_doc(v: ChatCallView) -> JsonView {
    let f = put(no_fields(), "name"@, JsonView::String(v.name));
    let function = JsonView::Object(put(f, "arguments"@, JsonView::String(v.arguments)));
    let f = put(no_fields(), "id"@, JsonView::String(v.id));
    let f = put(f, "type"@, JsonView::String(v.tool_type));
    JsonView::Object(put(f, "function"@, function))
}

pub fn chat_call_json(v: &ChatCompletionToolCall) -> (r: Json)
    ensures
        r@ == chat_call_doc(v@),
{
    let function = json_object(
        JsonObject::new().with("name", json_string(v.function.name.as_str())).with(
            "arguments",
            json_string(v.function.arguments.as_str()),
        ),
    );
    json_object(
        JsonObject::new().with("id", json_string(v.id.as_str())).with("type", json_string(v.tool_type.as_str())).with(
            "function",
            function,
        ),
    )
}

pub open spec fn chat_call_docs(list: Seq<ChatCallView>) -> JsonView {
    JsonView::Array(Seq::new(list.len(), |i: int| chat_call_doc(list[i])))
}

pub open spec fn some_calls_doc(list: Option<Seq<ChatCallView>>) -> Option<JsonView> {
    match list {
        Some(list) => Some(chat_call_docs(list)),
        None => None,
    }
}

fn chat_calls_json(list: &Vec<ChatCompletionToolCall>) -> (r: Json)
    ensures
        r@ == chat_call_docs(chat_calls_view(list@)),
{
    let mut out: Vec<Json> = Vec::new();
    let mut i: usize = 0;
    while i < list.len()
        invariant
            i <= list.len(),
            out.len() == i,
            forall|k: int| 0 <= k < i ==> (#[trigger] out@[k])@ == chat_call_doc(list@[k]@),
        decreases list.len() - i,
    {
        out.push(chat_call_json(&list[i]));
        i = i + 1;
    }
    assert(documents(out@) =~= chat_call_docs(chat_calls_view(list@))->Array_0);
    json_array(out)
}

/// The finish reason of a chat completion.
pub open spec fn chat_finish(reason: FinishReasonUnified) -> Seq<char> {
    match reason {
        FinishReasonUnified::Length => "length"@,
        FinishReasonUnified::ContentFilter => "content_filter"@,
        FinishReasonUnified::ToolCalls => "tool_calls"@,
        _ => "stop"@,
    }
}

fn chat_finish_text(reason: FinishReasonUnified) -> (r: &'static str)
    ensures
        r@ == chat_finish(reason),
{
    match reason {
        FinishReasonUnified::Length => "length",
        FinishReasonUnified::ContentFilter => "content_filter",
        FinishReasonUnified::ToolCalls => "tool_calls",
        _ => "stop",
    }
}

pub open spec fn chat_choice_doc(v: ChatChoiceView, index: nat) -> JsonView {
    let f = put(no_fields(), "role"@, JsonView::String("assistant"@));
    let f = put(f, "content"@, or_null(text_doc(v.content)));
    let message = JsonView::Object(put_some(f, "tool_calls"@, some_calls_doc(v.tool_calls)));
    let f = put(no_fields(), "index"@, natural_doc(index as u64));
    let f = put(f, "message"@, message);
    JsonView::Object(put(f, "finish_reason"@, JsonView::String(chat_finish(v.finish_reason.unified))))
}

fn chat_choice_json(v: &ChatCompletionChoice, index: usize) -> (r: Json)
    ensures
        r@ == chat_choice_doc(v@, index as nat),
{
    let calls: Option<Json> = match &v.message.tool_calls {
        Some(list) => Some(chat_calls_json(list)),
        None => None,
    };
    let message = json_object(
        JsonObject::new()
            .with("role", json_string("assistant"))
            .with("content", json_or_null(json_text_option(&v.message.content)))
            .with_some("tool_calls", calls),
    );
    json_object(
        JsonObject::new()
            .with("index", json_natural(index as u64))
            .with("message", message)
            .with("finish_reason", json_string(chat_finish_text(v.finish_reason.unified))),
    )
}

/// A token count, nothing known counting as none.
pub open spec fn known(n: Option<u32>) -> u32 {
    match n {
        Some(n) => n,
        None => 0,
    }
}

fn known_count(n: Option<u32>) -> (r: u32)
    ensures
        r == known(n),
{
    match n {
        Some(n) => n,
        None => 0,
    }
}

/// A chat completion on the wire.
pub open spec fn completion_doc(v: ChatCompletionView) -> JsonView {
    let asked = known(v.usage.input_tokens.total) as u64;
    let said = known(v.usage.output_tokens.total) as u64;
    let f = put(no_fields(), "prompt_tokens"@, natural_doc(asked));
    let f = put(f, "completion_tokens"@, natural_doc(said));
    let usage = JsonView::Object(put(f, "total_tokens"@, natural_doc((asked + said) as u64)));
    let f = put(no_fields(), "id"@, or_null(text_doc(v.id)));
    let f = put(f, "object"@, JsonView::String("chat.completion"@));
    let f = put(f, "model"@, JsonView::String(v.model));
    let f = put(
        f,
        "choices"@,
        JsonView::Array(Seq::new(v.choices.len(), |i: int| chat_choice_doc(v.choices[i], i as nat))),
    );
    JsonView::Object(put(f, "usage"@, usage))
}

pub fn completion_json(v: &ChatCompletion) -> (r: Json)
    ensures
        r@ == completion_doc(v@),
{
    let mut choices: Vec<Json> = Vec::new();
    let mut i: usize = 0;
    while i < v.choices.len()
        invariant
            i <= v.choices.len(),
            choices.len() == i,
            forall|k: int| 0 <= k < i ==> (#[trigger] choices@[k])@ == chat_choice_doc(v.choices@[k]@, k as nat),
        decreases v.choices.len() - i,
    {
        choices.push(chat_choice_json(&v.choices[i], i));
        i = i + 1;
    }
    assert(documents(choices@) =~= Seq::new(
        v@.choices.len(),
        |k: int| chat_choice_doc(v@.choices[k], k as nat),
    ));
    let asked: u64 = known_count(v.usage.input_tokens.total) as u64;
    let said: u64 = known_count(v.usage.output_tokens.total) as u64;
    let usage = json_object(
        JsonObject::new()
            .with("prompt_tokens", json_natural(asked))
            .with("completion_tokens", json_natural(said))
            .with("total_tokens", json_natural(asked + said)),
    );
    json_object(
        JsonObject::new()
            .with("id", json_or_null(json_text_option(&v.id)))
            .with("object", json_string("chat.completion"))
            .with("model", json_string(v.model.as_str()))
            .with("choices", json_array(choices))
            .with("usage", usage),
    )
}

} // verus!
