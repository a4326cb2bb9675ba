//! What is written to a host says each thing under its own name.
use crate::error::{AiMuxErrorView, ApiCallErrorView, RetryErrorReason};
use crate::generate::{ObjectResultView, TextResultView};
use crate::json::{JsonView, NumberView};
use crate::message::{ContentPartView, MessageContentView, ModelMessageView, PromptMessageView, Role};
use crate::openai_output::{ChatCallView, ChatChoiceView, ChatCompletionView};
use crate::parse_tool_call::{context_doc, schema_of, RepairContextView};
use crate::protocol::{event_doc, host_context, host_context_doc, EventView, HostContextView};
use crate::result::{
    FilePartView, GenerateContentView, GenerateResultView, ReasoningPartView, SourcePartView, ToolResultPartView,
};
use crate::result_wire::{
    aggregated_doc, calls_doc, chat_call_doc, chat_choice_doc, completion_doc, content_doc, contents_doc, file_doc,
    files_doc, finish_doc, generate_result_doc, object_result_doc, part_of_stream_doc, reasoning_doc, reasonings_doc,
    response_doc, source_doc, sources_doc, text_result_doc, tokens_doc, tool_result_doc, usage_doc,
};
use crate::stream_part::StreamPartView;
use crate::stream_text::AggregatedView;
use crate::tool::{RawToolCallView, ToolCallView, ToolChoiceView, ToolView};
use crate::types::{FinishReasonUnified, FinishReasonView, ResponseMetadataView, TokenUsage, UsageView};
use crate::wire::{
    api_call_doc, call_doc, choice_doc, error_doc, error_docs, message_doc, messages_doc, pairs_doc, part_doc,
    parts_doc, prompt_message_doc, raw_call_doc, tool_doc, tools_doc,
};
use crate::wire_laws::group_members;
use vstd::prelude::*;

verus! {

// What a value is written as.

/// Whether a document is a text that may be missing: the text, or `null`.
pub open spec fn is_text_or_null(doc: JsonView, text: Option<Seq<char>>) -> bool {
    match text {
        Some(text) => doc == JsonView::String(text),
        None => doc is Null,
    }
}

/// Whether a member is there exactly when its text is, and says it.
pub open spec fn is_text_if_any(member: Option<JsonView>, text: Option<Seq<char>>) -> bool {
    match text {
        Some(text) => member == Some(JsonView::String(text)),
        None => member is None,
    }
}

/// Whether a member is there exactly when its truth is, and says it.
pub open spec fn is_truth_if_any(member: Option<JsonView>, truth: Option<bool>) -> bool {
    match truth {
        Some(truth) => member == Some(JsonView::Bool(truth)),
        None => member is None,
    }
}

/// Whether a document is one that may be missing: itself, or `null`.
pub open spec fn is_or_null(doc: JsonView, value: Option<JsonView>) -> bool {
    match value {
        Some(value) => doc == value,
        None => doc is Null,
    }
}

/// Whether a document is a count that may be missing: the number, or `null`.
pub open spec fn is_count_or_null(doc: JsonView, n: Option<u32>) -> bool {
    match n {
        Some(n) => doc == JsonView::Number(NumberView::PosInt(n as u64)),
        None => doc is Null,
    }
}

/// Each count of tokens is written under its own name.
pub proof fn law_tokens_are_written_by_name(v: TokenUsage)
    ensures
        ({
            let doc = tokens_doc(v);
            &&& is_count_or_null(doc.at("total"@), v.total)
            &&& is_count_or_null(doc.at("no_cache"@), v.no_cache)
            &&& is_count_or_null(doc.at("cache_read"@), v.cache_read)
            &&& is_count_or_null(doc.at("cache_write"@), v.cache_write)
            &&& is_count_or_null(doc.at("text"@), v.text)
            &&& is_count_or_null(doc.at("reasoning"@), v.reasoning)
        }),
{
    broadcast use group_members;

    reveal_strlit("total");
    reveal_strlit("no_cache");
    reveal_strlit("cache_read");
    reveal_strlit("cache_write");
    reveal_strlit("text");
    reveal_strlit("reasoning");
    assert("total"@.len() == 5 && "no_cache"@.len() == 8 && "cache_read"@.len() == 10
        && "cache_write"@.len() == 11 && "text"@.len() == 4 && "reasoning"@.len() == 9);
}

/// What went in and what came out are written apart.
pub proof fn law_usage_is_written_by_name(v: UsageView)
    ensures
        ({
            let doc = usage_doc(v);
            &&& doc.at("input_tokens"@) == tokens_doc(v.input_tokens)
            &&& doc.at("output_tokens"@) == tokens_doc(v.output_tokens)
            &&& is_or_null(doc.at("raw"@), v.raw)
        }),
{
    broadcast use group_members;

    reveal_strlit("input_tokens");
    reveal_strlit("output_tokens");
    reveal_strlit("raw");
    assert("input_tokens"@.len() == 12 && "output_tokens"@.len() == 13 && "raw"@.len() == 3);
}

/// Whether a word names a finish reason.
pub open spec fn names_reason(word: Seq<char>, reason: FinishReasonUnified) -> bool {
    match reason {
        FinishReasonUnified::Stop => word == "stop"@,
        FinishReasonUnified::Length => word == "length"@,
        FinishReasonUnified::ContentFilter => word == "content-filter"@,
        FinishReasonUnified::ToolCalls => word == "tool-calls"@,
        FinishReasonUnified::Error => word == "error"@,
        FinishReasonUnified::Other => word == "other"@,
    }
}

/// A finish reason is written by its name, beside the provider's own word.
pub proof fn law_a_finish_is_written_by_name(v: FinishReasonView)
    ensures
        ({
            let doc = finish_doc(v);
            &&& (doc.at("unified"@) matches JsonView::String(word) && names_reason(word, v.unified))
            &&& is_text_or_null(doc.at("raw"@), v.raw)
        }),
{
    broadcast use group_members;

    reveal_strlit("unified");
    reveal_strlit("raw");
    assert("unified"@.len() == 7 && "raw"@.len() == 3);
}

/// Who answered is written by name.
pub proof fn law_a_response_is_written_by_name(v: ResponseMetadataView)
    ensures
        ({
            let doc = response_doc(v);
            &&& is_text_or_null(doc.at("id"@), v.id)
            &&& is_text_or_null(doc.at("timestamp"@), v.timestamp)
            &&& is_text_or_null(doc.at("model_id"@), v.model_id)
        }),
{
    broadcast use group_members;

    reveal_strlit("id");
    reveal_strlit("timestamp");
    reveal_strlit("model_id");
    assert("id"@.len() == 2 && "timestamp"@.len() == 9 && "model_id"@.len() == 8);
}

/// A source is written by name.
pub proof fn law_a_source_is_written_by_name(v: SourcePartView)
    ensures
        ({
            let doc = source_doc(v);
            &&& doc.at("id"@) == JsonView::String(v.id)
            &&& doc.at("source_type"@) == JsonView::String(v.source_type)
            &&& is_text_or_null(doc.at("url"@), v.url)
            &&& is_text_or_null(doc.at("title"@), v.title)
        }),
{
    broadcast use group_members;

    reveal_strlit("id");
    reveal_strlit("source_type");
    reveal_strlit("url");
    reveal_strlit("title");
    assert("id"@.len() == 2 && "source_type"@.len() == 11 && "url"@.len() == 3 && "title"@.len() == 5);
}

/// A file is written by name.
pub proof fn law_a_file_is_written_by_name(v: FilePartView)
    ensures
        ({
            let doc = file_doc(v);
            &&& doc.at("data"@) == JsonView::String(v.data)
            &&& doc.at("media_type"@) == JsonView::String(v.media_type)
        }),
{
    broadcast use group_members;

    reveal_strlit("data");
    reveal_strlit("media_type");
    assert("data"@.len() == 4 && "media_type"@.len() == 10);
}

/// A reasoning segment is written by name.
pub proof fn law_reasoning_is_written_by_name(v: ReasoningPartView)
    ensures
        ({
            let doc = reasoning_doc(v);
            &&& doc.at("text"@) == JsonView::String(v.text)
            &&& is_or_null(doc.at("provider_metadata"@), v.provider_metadata)
        }),
{
    broadcast use group_members;

    reveal_strlit("text");
    reveal_strlit("provider_metadata");
    assert("text"@.len() == 4 && "provider_metadata"@.len() == 17);
}

/// A tool result is written by name; what is not known of it is left out.
pub proof fn law_a_tool_result_is_written_by_name(v: ToolResultPartView)
    ensures
        ({
            let doc = tool_result_doc(v);
            &&& doc.at("tool_call_id"@) == JsonView::String(v.tool_call_id)
            &&& doc.at("tool_name"@) == JsonView::String(v.tool_name)
            &&& doc.at("result"@) == v.result
            &&& is_truth_if_any(doc.field("is_error"@), v.is_error)
            &&& is_truth_if_any(doc.field("preliminary"@), v.preliminary)
            &&& is_truth_if_any(doc.field("dynamic"@), v.dynamic)
            &&& doc.field("provider_metadata"@) == v.provider_metadata
        }),
{
    broadcast use group_members;

    reveal_strlit("tool_call_id");
    reveal_strlit("tool_name");
    reveal_strlit("result");
    reveal_strlit("is_error");
    reveal_strlit("preliminary");
    reveal_strlit("dynamic");
    reveal_strlit("provider_metadata");
    assert("tool_call_id"@.len() == 12 && "tool_name"@.len() == 9 && "result"@.len() == 6
        && "is_error"@.len() == 8 && "preliminary"@.len() == 11 && "dynamic"@.len() == 7
        && "provider_metadata"@.len() == 17);
}

/// A provider's call is written by name, its input as the text it is.
pub proof fn law_a_providers_call_is_written_by_name(v: RawToolCallView)
    ensures
        ({
            let doc = raw_call_doc(v);
            &&& doc.at("tool_call_id"@) == JsonView::String(v.tool_call_id)
            &&& doc.at("tool_name"@) == JsonView::String(v.tool_name)
            &&& doc.at("input"@) == JsonView::String(v.input)
            &&& is_truth_if_any(doc.field("provider_executed"@), v.provider_executed)
            &&& is_truth_if_any(doc.field("dynamic"@), v.dynamic)
            &&& is_text_if_any(doc.field("thought_signature"@), v.thought_signature)
            &&& doc.field("provider_metadata"@) == v.provider_metadata
        }),
{
    broadcast use group_members;

    reveal_strlit("tool_call_id");
    reveal_strlit("tool_name");
    reveal_strlit("input");
    reveal_strlit("provider_executed");
    reveal_strlit("dynamic");
    reveal_strlit("thought_signature");
    reveal_strlit("provider_metadata");
    assert("tool_call_id"@.len() == 12 && "tool_name"@.len() == 9 && "input"@.len() == 5
        && "provider_executed"@.len() == 17 && "dynamic"@.len() == 7 && "thought_signature"@.len() == 17
        && "provider_metadata"@.len() == 17);
    assert("provider_executed"@[0] == 'p' && "thought_signature"@[0] == 't' && "provider_executed"@[9] == 'e'
        && "provider_metadata"@[9] == 'm' && "provider_metadata"@[0] == 'p');
}

/// A parsed call is written by name, its input as the document it is.
pub proof fn law_a_parsed_call_is_written_by_name(v: ToolCallView)
    ensures
        ({
            let doc = call_doc(v);
            &&& doc.at("tool_call_id"@) == JsonView::String(v.tool_call_id)
            &&& doc.at("tool_name"@) == JsonView::String(v.tool_name)
            &&& doc.at("input"@) == v.input
            &&& is_truth_if_any(doc.field("provider_executed"@), v.provider_executed)
            &&& is_truth_if_any(doc.field("dynamic"@), v.dynamic)
            &&& is_text_if_any(doc.field("thought_signature"@), v.thought_signature)
            &&& doc.field("provider_metadata"@) == v.provider_metadata
            &&& is_truth_if_any(doc.field("invalid"@), v.invalid)
            &&& v.error is None ==> doc.field("error"@) is None
            &&& v.error matches Some(error) ==> doc.field("error"@) == Some(error_doc(error))
        }),
{
    broadcast use group_members;

    reveal_strlit("tool_call_id");
    reveal_strlit("tool_name");
    reveal_strlit("input");
    reveal_strlit("provider_executed");
    reveal_strlit("dynamic");
    reveal_strlit("thought_signature");
    reveal_strlit("provider_metadata");
    reveal_strlit("invalid");
    reveal_strlit("error");
    assert("tool_call_id"@.len() == 12 && "tool_name"@.len() == 9 && "input"@.len() == 5
        && "provider_executed"@.len() == 17 && "dynamic"@.len() == 7 && "thought_signature"@.len() == 17
        && "provider_metadata"@.len() == 17 && "invalid"@.len() == 7 && "error"@.len() == 5);
    assert("input"@[0] == 'i' && "error"@[0] == 'e' && "provider_executed"@[0] == 'p'
        && "thought_signature"@[0] == 't' && "provider_executed"@[9] == 'e' && "provider_metadata"@[9] == 'm'
        && "dynamic"@[0] == 'd' && "invalid"@[0] == 'i' && "provider_metadata"@[0] == 'p');
}

/// Lists are written item by item, in order, and hold nothing else.
pub proof fn law_lists_are_written_item_by_item(
    calls: Seq<ToolCallView>,
    sources: Seq<SourcePartView>,
    files: Seq<FilePartView>,
    reasonings: Seq<ReasoningPartView>,
    contents: Seq<GenerateContentView>,
    messages: Seq<ModelMessageView>,
    parts: Seq<ContentPartView>,
    tools: Seq<ToolView>,
    i: int,
)
    ensures
        calls_doc(calls) matches JsonView::Array(list) && list.len() == calls.len(),
        0 <= i < calls.len() ==> calls_doc(calls).item(i) == call_doc(calls[i]),
        sources_doc(sources) matches JsonView::Array(list) && list.len() == sources.len(),
        0 <= i < sources.len() ==> sources_doc(sources).item(i) == source_doc(sources[i]),
        files_doc(files) matches JsonView::Array(list) && list.len() == files.len(),
        0 <= i < files.len() ==> files_doc(files).item(i) == file_doc(files[i]),
        reasonings_doc(reasonings) matches JsonView::Array(list) && list.len() == reasonings.len(),
        0 <= i < reasonings.len() ==> reasonings_doc(reasonings).item(i) == reasoning_doc(reasonings[i]),
        contents_doc(contents) matches JsonView::Array(list) && list.len() == contents.len(),
        0 <= i < contents.len() ==> contents_doc(contents).item(i) == content_doc(contents[i]),
        messages_doc(messages) matches JsonView::Array(list) && list.len() == messages.len(),
        0 <= i < messages.len() ==> messages_doc(messages).item(i) == message_doc(messages[i]),
        parts_doc(parts) matches JsonView::Array(list) && list.len() == parts.len(),
        0 <= i < parts.len() ==> parts_doc(parts).item(i) == part_doc(parts[i]),
        tools_doc(tools) matches JsonView::Array(list) && list.len() == tools.len(),
        0 <= i < tools.len() ==> tools_doc(tools).item(i) == tool_doc(tools[i]),
{
}

/// A provider's answer is written by name.
pub proof fn law_an_answer_is_written_by_name(v: GenerateResultView)
    ensures
        ({
            let doc = generate_result_doc(v);
            &&& doc.at("content"@) == contents_doc(v.content)
            &&& doc.at("finish_reason"@) == finish_doc(v.finish_reason)
            &&& doc.at("usage"@) == usage_doc(v.usage)
            &&& doc.at("warnings"@) == JsonView::Array(v.warnings)
            &&& is_or_null(doc.at("provider_metadata"@), v.provider_metadata)
            &&& doc.at("response"@) == response_doc(v.response)
            &&& is_or_null(doc.at("request_body"@), v.request_body)
            &&& is_or_null(doc.at("response_headers"@), pairs_doc(v.response_headers))
        }),
{
    broadcast use group_members;

    reveal_strlit("content");
    reveal_strlit("finish_reason");
    reveal_strlit("usage");
    reveal_strlit("warnings");
    reveal_strlit("provider_metadata");
    reveal_strlit("response");
    reveal_strlit("request_body");
    reveal_strlit("response_headers");
    assert("content"@.len() == 7 && "finish_reason"@.len() == 13 && "usage"@.len() == 5
        && "warnings"@.len() == 8 && "provider_metadata"@.len() == 17 && "response"@.len() == 8
        && "request_body"@.len() == 12 && "response_headers"@.len() == 16);
    assert("warnings"@[0] == 'w' && "response"@[0] == 'r');
}

/// The result of a text generation is written by name.
pub proof fn law_a_text_result_is_written_by_name(v: TextResultView)
    ensures
        ({
            let doc = text_result_doc(v);
            &&& doc.at("text"@) == JsonView::String(v.text)
            &&& doc.at("tool_calls"@) == calls_doc(v.tool_calls)
            &&& doc.at("finish_reason"@) == finish_doc(v.finish_reason)
            &&& doc.at("usage"@) == usage_doc(v.usage)
            &&& doc.at("total_usage"@) == usage_doc(v.total_usage)
            &&& doc.at("warnings"@) == JsonView::Array(v.warnings)
            &&& doc.at("reasoning"@) == reasonings_doc(v.reasoning)
            &&& doc.at("reasoning_text"@) == JsonView::String(v.reasoning_text)
            &&& doc.at("sources"@) == sources_doc(v.sources)
            &&& doc.at("files"@) == files_doc(v.files)
            &&& doc.at("response_messages"@) == messages_doc(v.response_messages)
            &&& is_text_or_null(doc.at("raw_finish_reason"@), v.raw_finish_reason)
            &&& is_or_null(doc.at("provider_metadata"@), v.provider_metadata)
            &&& doc.at("raw"@) == generate_result_doc(v.raw)
            &&& doc.at("response"@) == response_doc(v.response)
        }),
{
    broadcast use group_members;

    reveal_strlit("text");
    reveal_strlit("tool_calls");
    reveal_strlit("finish_reason");
    reveal_strlit("usage");
    reveal_strlit("total_usage");
    reveal_strlit("warnings");
    reveal_strlit("reasoning");
    reveal_strlit("reasoning_text");
    reveal_strlit("sources");
    reveal_strlit("files");
    reveal_strlit("response_messages");
    reveal_strlit("raw_finish_reason");
    reveal_strlit("provider_metadata");
    reveal_strlit("response");
    reveal_strlit("raw");
    assert("text"@.len() == 4 && "tool_calls"@.len() == 10 && "finish_reason"@.len() == 13
        && "usage"@.len() == 5 && "total_usage"@.len() == 11 && "warnings"@.len() == 8
        && "reasoning"@.len() == 9 && "reasoning_text"@.len() == 14 && "sources"@.len() == 7
        && "files"@.len() == 5 && "response_messages"@.len() == 17 && "raw_finish_reason"@.len() == 17
        && "provider_metadata"@.len() == 17 && "response"@.len() == 8 && "raw"@.len() == 3);
    assert("usage"@[0] == 'u' && "files"@[0] == 'f' && "warnings"@[0] == 'w' && "response"@[0] == 'r'
        && "response_messages"@[1] == 'e' && "raw_finish_reason"@[1] == 'a' && "response_messages"@[0] == 'r'
        && "provider_metadata"@[0] == 'p' && "raw_finish_reason"@[0] == 'r');
}

/// What a stream amounts to is written by name.
pub proof fn law_a_streams_result_is_written_by_name(v: AggregatedView)
    ensures
        ({
            let doc = aggregated_doc(v);
            &&& doc.at("text"@) == JsonView::String(v.text)
            &&& doc.at("tool_calls"@) == calls_doc(v.tool_calls)
            &&& doc.at("finish_reason"@) == finish_doc(v.finish_reason)
            &&& doc.at("usage"@) == usage_doc(v.usage)
            &&& doc.at("total_usage"@) == usage_doc(v.total_usage)
            &&& doc.at("warnings"@) == JsonView::Array(v.warnings)
            &&& doc.at("reasoning"@) == reasonings_doc(v.reasoning)
            &&& doc.at("reasoning_text"@) == JsonView::String(v.reasoning_text)
            &&& doc.at("sources"@) == sources_doc(v.sources)
            &&& doc.at("files"@) == files_doc(v.files)
            &&& doc.at("response_messages"@) == messages_doc(v.response_messages)
            &&& is_text_or_null(doc.at("raw_finish_reason"@), v.raw_finish_reason)
            &&& is_or_null(doc.at("provider_metadata"@), v.provider_metadata)
            &&& v.response is None ==> doc.at("response"@) is Null
            &&& v.response matches Some(response) ==> doc.at("response"@) == response_doc(response)
        }),
{
    broadcast use group_members;

    reveal_strlit("text");
    reveal_strlit("tool_calls");
    reveal_strlit("finish_reason");
    reveal_strlit("usage");
    reveal_strlit("total_usage");
    reveal_strlit("warnings");
    reveal_strlit("reasoning");
    reveal_strlit("reasoning_text");
    reveal_strlit("sources");
    reveal_strlit("files");
    reveal_strlit("response_messages");
    reveal_strlit("raw_finish_reason");
    reveal_strlit("provider_metadata");
    reveal_strlit("response");
    assert("text"@.len() == 4 && "tool_calls"@.len() == 10 && "finish_reason"@.len() == 13
        && "usage"@.len() == 5 && "total_usage"@.len() == 11 && "warnings"@.len() == 8
        && "reasoning"@.len() == 9 && "reasoning_text"@.len() == 14 && "sources"@.len() == 7
        && "files"@.len() == 5 && "response_messages"@.len() == 17 && "raw_finish_reason"@.len() == 17
        && "provider_metadata"@.len() == 17 && "response"@.len() == 8);
    assert("usage"@[0] == 'u' && "files"@[0] == 'f' && "warnings"@[0] == 'w' && "response"@[0] == 'r'
        && "response_messages"@[1] == 'e' && "raw_finish_reason"@[1] == 'a' && "response_messages"@[0] == 'r'
        && "provider_metadata"@[0] == 'p' && "raw_finish_reason"@[0] == 'r');
}

/// The result of an object generation is written by name.
pub proof fn law_an_object_result_is_written_by_name(v: ObjectResultView)
    ensures
        ({
            let doc = object_result_doc(v);
            &&& doc.at("object"@) == v.object
            &&& doc.at("finish_reason"@) == finish_doc(v.finish_reason)
            &&& is_text_or_null(doc.at("raw_finish_reason"@), v.raw_finish_reason)
            &&& doc.at("usage"@) == usage_doc(v.usage)
            &&& doc.at("warnings"@) == JsonView::Array(v.warnings)
            &&& is_text_or_null(doc.at("reasoning"@), v.reasoning)
            &&& is_or_null(doc.at("provider_metadata"@), v.provider_metadata)
            &&& doc.at("response"@) == response_doc(v.response)
            &&& doc.at("raw"@) == text_result_doc(v.raw)
        }),
{
    broadcast use group_members;

    reveal_strlit("object");
    reveal_strlit("finish_reason");
    reveal_strlit("raw_finish_reason");
    reveal_strlit("usage");
    reveal_strlit("warnings");
    reveal_strlit("reasoning");
    reveal_strlit("provider_metadata");
    reveal_strlit("response");
    reveal_strlit("raw");
    assert("object"@.len() == 6 && "finish_reason"@.len() == 13 && "raw_finish_reason"@.len() == 17
        && "usage"@.len() == 5 && "warnings"@.len() == 8 && "reasoning"@.len() == 9
        && "provider_metadata"@.len() == 17 && "response"@.len() == 8 && "raw"@.len() == 3);
    assert("raw_finish_reason"@[0] == 'r' && "provider_metadata"@[0] == 'p' && "warnings"@[0] == 'w'
        && "response"@[0] == 'r');
}

/// A piece of an answer is written under its kind, by name.
pub proof fn law_a_piece_is_written_under_its_kind(v: GenerateContentView)
    ensures
        ({
            let doc = content_doc(v);
            &&& v matches GenerateContentView::Text { text, provider_metadata } ==>
                (doc.field("Text"@) matches Some(body) && body.at("text"@) == JsonView::String(text)
                && body.field("provider_metadata"@) == provider_metadata)
            &&& v matches GenerateContentView::Reasoning { text, provider_metadata } ==>
                (doc.field("Reasoning"@) matches Some(body) && body.at("text"@) == JsonView::String(text)
                && body.field("provider_metadata"@) == provider_metadata)
            &&& v matches GenerateContentView::ToolCall(call) ==> doc.field("ToolCall"@) == Some(raw_call_doc(call))
            &&& v matches GenerateContentView::ToolResult(result) ==>
                doc.field("ToolResult"@) == Some(tool_result_doc(result))
            &&& v matches GenerateContentView::Source { source, provider_metadata } ==>
                (doc.field("Source"@) matches Some(body) && body.at("id"@) == JsonView::String(source.id)
                && body.at("source_type"@) == JsonView::String(source.source_type)
                && is_text_if_any(body.field("url"@), source.url)
                && is_text_if_any(body.field("title"@), source.title)
                && body.field("provider_metadata"@) == provider_metadata)
            &&& v matches GenerateContentView::File { file, provider_metadata } ==>
                (doc.field("File"@) matches Some(body) && body.at("data"@) == JsonView::String(file.data)
                && body.at("media_type"@) == JsonView::String(file.media_type)
                && body.field("provider_metadata"@) == provider_metadata)
        }),
{
    broadcast use group_members;

    reveal_strlit("text");
    reveal_strlit("provider_metadata");
    reveal_strlit("id");
    reveal_strlit("source_type");
    reveal_strlit("url");
    reveal_strlit("title");
    reveal_strlit("data");
    reveal_strlit("media_type");
    assert("text"@.len() == 4 && "provider_metadata"@.len() == 17 && "id"@.len() == 2
        && "source_type"@.len() == 11 && "url"@.len() == 3 && "title"@.len() == 5 && "data"@.len() == 4
        && "media_type"@.len() == 10);
    assert("text"@[0] == 't' && "data"@[0] == 'd');
}

/// A part of a stream is written under its kind, by name.
pub proof fn law_a_stream_part_is_written_under_its_kind(v: StreamPartView)
    ensures
        ({
            let doc = part_of_stream_doc(v);
            &&& v matches StreamPartView::StreamStart { warnings } ==>
                (doc.field("StreamStart"@) matches Some(body) && body.at("warnings"@) == JsonView::Array(warnings))
            &&& v matches StreamPartView::TextStart { id, provider_metadata } ==>
                (doc.field("TextStart"@) matches Some(body) && body.at("id"@) == JsonView::String(id)
                && body.field("provider_metadata"@) == provider_metadata)
            &&& v matches StreamPartView::TextEnd { id, provider_metadata } ==>
                (doc.field("TextEnd"@) matches Some(body) && body.at("id"@) == JsonView::String(id)
                && body.field("provider_metadata"@) == provider_metadata)
            &&& v matches StreamPartView::ReasoningStart { id, provider_metadata } ==>
                (doc.field("ReasoningStart"@) matches Some(body) && body.at("id"@) == JsonView::String(id)
                && body.field("provider_metadata"@) == provider_metadata)
            &&& v matches StreamPartView::ReasoningEnd { id, provider_metadata } ==>
                (doc.field("ReasoningEnd"@) matches Some(body) && body.at("id"@) == JsonView::String(id)
                && body.field("provider_metadata"@) == provider_metadata)
            &&& v matches StreamPartView::ToolInputEnd { id, provider_metadata } ==>
                (doc.field("ToolInputEnd"@) matches Some(body) && body.at("id"@) == JsonView::String(id)
                && body.field("provider_metadata"@) == provider_metadata)
            &&& v matches StreamPartView::TextDelta { id, delta, provider_metadata } ==>
                (doc.field("TextDelta"@) matches Some(body) && body.at("id"@) == JsonView::String(id)
                && body.at("delta"@) == JsonView::String(delta)
                && body.field("provider_metadata"@) == provider_metadata)
            &&& v matches StreamPartView::ReasoningDelta { id, delta, provider_metadata } ==>
                (doc.field("ReasoningDelta"@) matches Some(body) && body.at("id"@) == JsonView::String(id)
                && body.at("delta"@) == JsonView::String(delta)
                && body.field("provider_metadata"@) == provider_metadata)
            &&& v matches StreamPartView::ToolInputDelta { id, delta, provider_metadata } ==>
                (doc.field("ToolInputDelta"@) matches Some(body) && body.at("id"@) == JsonView::String(id)
                && body.at("delta"@) == JsonView::String(delta)
                && body.field("provider_metadata"@) == provider_metadata)
            &&& v matches StreamPartView::ToolInputStart { id, tool_name, provider_executed, dynamic, title,
                provider_metadata } ==> (doc.field("ToolInputStart"@) matches Some(body)
                && body.at("id"@) == JsonView::String(id)
                && body.at("tool_name"@) == JsonView::String(tool_name)
                && is_truth_if_any(body.field("provider_executed"@), provider_executed)
                && is_truth_if_any(body.field("dynamic"@), dynamic)
                && is_text_if_any(body.field("title"@), title) && body.field("provider_metadata"@) == provider_metadata)
            &&& v matches StreamPartView::ToolCall(call) ==> doc.field("ToolCall"@) == Some(call_doc(call))
            &&& v matches StreamPartView::ToolResult(result) ==>
                doc.field("ToolResult"@) == Some(tool_result_doc(result))
            &&& v matches StreamPartView::ResponseMetadata(response) ==>
                doc.field("ResponseMetadata"@) == Some(response_doc(response))
            &&& v matches StreamPartView::Source { source, provider_metadata } ==>
                (doc.field("Source"@) matches Some(body) && body.at("id"@) == JsonView::String(source.id)
                && body.at("source_type"@) == JsonView::String(source.source_type)
                && is_text_if_any(body.field("url"@), source.url)
                && is_text_if_any(body.field("title"@), source.title)
                && body.field("provider_metadata"@) == provider_metadata)
            &&& v matches StreamPartView::File { file, provider_metadata } ==>
                (doc.field("File"@) matches Some(body) && body.at("data"@) == JsonView::String(file.data)
                && body.at("media_type"@) == JsonView::String(file.media_type)
                && body.field("provider_metadata"@) == provider_metadata)
            &&& v matches StreamPartView::Raw { raw_value } ==> (doc.field("Raw"@) matches Some(body)
                && body.at("raw_value"@) == raw_value)
            &&& v matches StreamPartView::Error { error } ==> (doc.field("Error"@) matches Some(body)
                && body.at("error"@) == error_doc(error))
            &&& v matches StreamPartView::Finish { finish_reason, usage, provider_metadata } ==>
                (doc.field("Finish"@) matches Some(body)
                && body.at("finish_reason"@) == finish_doc(finish_reason)
                && body.at("usage"@) == usage_doc(usage) && body.field("provider_metadata"@) == provider_metadata)
        }),
{
    broadcast use group_members;

    reveal_strlit("id");
    reveal_strlit("delta");
    reveal_strlit("provider_metadata");
    reveal_strlit("tool_name");
    reveal_strlit("provider_executed");
    reveal_strlit("dynamic");
    reveal_strlit("title");
    reveal_strlit("source_type");
    reveal_strlit("url");
    reveal_strlit("data");
    reveal_strlit("media_type");
    reveal_strlit("finish_reason");
    reveal_strlit("usage");
    assert("id"@.len() == 2 && "delta"@.len() == 5 && "provider_metadata"@.len() == 17
        && "tool_name"@.len() == 9 && "provider_executed"@.len() == 17 && "dynamic"@.len() == 7
        && "title"@.len() == 5 && "source_type"@.len() == 11 && "url"@.len() == 3 && "data"@.len() == 4
        && "media_type"@.len() == 10 && "finish_reason"@.len() == 13 && "usage"@.len() == 5);
    assert("delta"@[0] == 'd' && "title"@[0] == 't' && "usage"@[0] == 'u' && "provider_metadata"@[9] == 'm'
        && "provider_executed"@[9] == 'e');
}

/// A call of a completion is written by name, its function apart.
pub proof fn law_a_chat_call_is_written_by_name(v: ChatCallView)
    ensures
        ({
            let doc = chat_call_doc(v);
            &&& doc.at("id"@) == JsonView::String(v.id)
            &&& doc.at("type"@) == JsonView::String(v.tool_type)
            &&& doc.at("function"@).at("name"@) == JsonView::String(v.name)
            &&& doc.at("function"@).at("arguments"@) == JsonView::String(v.arguments)
        }),
{
    broadcast use group_members;

    reveal_strlit("id");
    reveal_strlit("type");
    reveal_strlit("function");
    reveal_strlit("name");
    reveal_strlit("arguments");
    assert("id"@.len() == 2 && "type"@.len() == 4 && "function"@.len() == 8 && "name"@.len() == 4
        && "arguments"@.len() == 9);
    assert("type"@[0] == 't' && "name"@[0] == 'n');
}

/// A choice of a completion is an assistant's message with its text and its calls, and says why
/// it stopped; a reason that the format does not know is an ordinary stop.
pub proof fn law_a_choice_is_written_by_name(v: ChatChoiceView, index: nat)
    ensures
        ({
            let doc = chat_choice_doc(v, index);
            &&& doc.at("index"@) == JsonView::Number(NumberView::PosInt(index as u64))
            &&& doc.at("message"@).at("role"@) == JsonView::String("assistant"@)
            &&& is_text_or_null(doc.at("message"@).at("content"@), v.content)
            &&& v.tool_calls is None ==> doc.at("message"@).field("tool_calls"@) is None
            &&& v.tool_calls matches Some(calls) ==>
                (doc.at("message"@).at("tool_calls"@) matches JsonView::Array(list) && list.len() == calls.len()
                && forall|i: int| 0 <= i < calls.len() ==> #[trigger] list[i] == chat_call_doc(calls[i]))
            &&& doc.at("finish_reason"@) == JsonView::String(match v.finish_reason.unified {
                FinishReasonUnified::Length => "length"@, FinishReasonUnified::ContentFilter => "content_filter"@,
                FinishReasonUnified::ToolCalls => "tool_calls"@, FinishReasonUnified::Stop => "stop"@,
                FinishReasonUnified::Error => "stop"@, FinishReasonUnified::Other => "stop"@ })
        }),
{
    broadcast use group_members;

    reveal_strlit("index");
    reveal_strlit("message");
    reveal_strlit("finish_reason");
    reveal_strlit("role");
    reveal_strlit("content");
    reveal_strlit("tool_calls");
    assert("index"@.len() == 5 && "message"@.len() == 7 && "finish_reason"@.len() == 13 && "role"@.len() == 4
        && "content"@.len() == 7 && "tool_calls"@.len() == 10);
    assert("message"@[0] == 'm' && "content"@[0] == 'c');
}

/// A completion is written by name; its tokens are those that went in, those that came out, and
/// both together, an unknown count being none.
pub proof fn law_a_completion_is_written_by_name(v: ChatCompletionView)
    ensures
        ({
            let doc = completion_doc(v);
            &&& is_text_or_null(doc.at("id"@), v.id)
            &&& doc.at("object"@) == JsonView::String("chat.completion"@)
            &&& doc.at("model"@) == JsonView::String(v.model)
            &&& (doc.at("choices"@) matches JsonView::Array(list) && list.len() == v.choices.len()
                && forall|i: int| 0 <= i < v.choices.len() ==> #[trigger] list[i] == chat_choice_doc(v.choices[i],
                i as nat))
            &&& v.usage.input_tokens.total matches Some(n) ==>
                doc.at("usage"@).at("prompt_tokens"@) == JsonView::Number(NumberView::PosInt(n as u64))
            &&& v.usage.output_tokens.total matches Some(n) ==>
                doc.at("usage"@).at("completion_tokens"@) == JsonView::Number(NumberView::PosInt(n as u64))
            &&& v.usage.input_tokens.total is None ==>
                doc.at("usage"@).at("prompt_tokens"@) == JsonView::Number(NumberView::PosInt(0))
            &&& v.usage.output_tokens.total is None ==>
                doc.at("usage"@).at("completion_tokens"@) == JsonView::Number(NumberView::PosInt(0))
            &&& (doc.at("usage"@).at("total_tokens"@).natural() matches Some(n)
                && doc.at("usage"@).at("prompt_tokens"@).natural() matches Some(asked)
                && doc.at("usage"@).at("completion_tokens"@).natural() matches Some(said) && n == asked + said)
        }),
{
    broadcast use group_members;

    reveal_strlit("id");
    reveal_strlit("object");
    reveal_strlit("model");
    reveal_strlit("choices");
    reveal_strlit("usage");
    reveal_strlit("prompt_tokens");
    reveal_strlit("completion_tokens");
    reveal_strlit("total_tokens");
    assert("id"@.len() == 2 && "object"@.len() == 6 && "model"@.len() == 5 && "choices"@.len() == 7
        && "usage"@.len() == 5 && "prompt_tokens"@.len() == 13 && "completion_tokens"@.len() == 17
        && "total_tokens"@.len() == 12);
    assert("model"@[0] == 'm' && "usage"@[0] == 'u');
}

/// Whether a word names a role.
pub open spec fn names_role(word: Seq<char>, role: Role) -> bool {
    match role {
        Role::System => word == "system"@,
        Role::User => word == "user"@,
        Role::Assistant => word == "assistant"@,
        Role::Tool => word == "tool"@,
    }
}

/// A message is written with its role and its content: a text as it is, parts one by one.
pub proof fn law_a_message_is_written_by_name(v: ModelMessageView)
    ensures
        ({
            let doc = message_doc(v);
            &&& (doc.at("role"@) matches JsonView::String(word) && names_role(word, v.role))
            &&& v.content matches MessageContentView::Text(text) ==> doc.at("content"@) == JsonView::String(text)
            &&& v.content matches MessageContentView::Parts(parts) ==> doc.at("content"@) == parts_doc(parts)
        }),
{
    broadcast use group_members;

    reveal_strlit("role");
    reveal_strlit("content");
    assert("role"@.len() == 4 && "content"@.len() == 7);
}

/// A message of a prompt is written with its role, its parts and its provider options.
pub proof fn law_a_prompt_message_is_written_by_name(v: PromptMessageView)
    ensures
        ({
            let doc = prompt_message_doc(v);
            &&& (doc.at("role"@) matches JsonView::String(word) && names_role(word, v.role))
            &&& doc.at("content"@) == parts_doc(v.content)
            &&& doc.field("provider_options"@) == v.provider_options
        }),
{
    broadcast use group_members;

    reveal_strlit("role");
    reveal_strlit("content");
    reveal_strlit("provider_options");
    assert("role"@.len() == 4 && "content"@.len() == 7 && "provider_options"@.len() == 16);
}

/// A content part is written by name under its type; media are the document they are.
pub proof fn law_a_content_part_is_written_by_name(v: ContentPartView)
    ensures
        ({
            let doc = part_doc(v);
            &&& v matches ContentPartView::Text { text, provider_options } ==>
                doc.at("type"@) == JsonView::String("text"@) && doc.at("text"@) == JsonView::String(text)
                && doc.field("provider_options"@) == provider_options
            &&& v matches ContentPartView::Reasoning { text, provider_options } ==>
                doc.at("type"@) == JsonView::String("reasoning"@) && doc.at("text"@) == JsonView::String(text)
                && doc.field("provider_options"@) == provider_options
            &&& v matches ContentPartView::ToolCall { tool_call_id, tool_name, input, provider_executed,
                thought_signature, provider_options } ==> doc.at("type"@) == JsonView::String("tool_call"@)
                && doc.at("tool_call_id"@) == JsonView::String(tool_call_id)
                && doc.at("tool_name"@) == JsonView::String(tool_name) && doc.at("input"@) == input
                && is_truth_if_any(doc.field("provider_executed"@), provider_executed)
                && is_text_if_any(doc.field("thought_signature"@), thought_signature)
                && doc.field("provider_options"@) == provider_options
            &&& v matches ContentPartView::ToolResult { tool_call_id, tool_name, output, is_error,
                provider_options } ==> doc.at("type"@) == JsonView::String("tool_result"@)
                && doc.at("tool_call_id"@) == JsonView::String(tool_call_id)
                && doc.at("tool_name"@) == JsonView::String(tool_name) && doc.at("output"@) == output
                && is_truth_if_any(doc.field("is_error"@), is_error)
                && doc.field("provider_options"@) == provider_options
            &&& v matches ContentPartView::Media { document } ==> doc == document
        }),
{
    broadcast use group_members;

    reveal_strlit("type");
    reveal_strlit("text");
    reveal_strlit("provider_options");
    reveal_strlit("tool_call_id");
    reveal_strlit("tool_name");
    reveal_strlit("input");
    reveal_strlit("provider_executed");
    reveal_strlit("thought_signature");
    reveal_strlit("output");
    reveal_strlit("is_error");
    assert("type"@.len() == 4 && "text"@.len() == 4 && "provider_options"@.len() == 16
        && "tool_call_id"@.len() == 12 && "tool_name"@.len() == 9 && "input"@.len() == 5
        && "provider_executed"@.len() == 17 && "thought_signature"@.len() == 17 && "output"@.len() == 6
        && "is_error"@.len() == 8);
    assert("type"@[1] == 'y' && "text"@[1] == 'e' && "provider_executed"@[0] == 'p' && "thought_signature"@[0] == 't');
}

/// A tool is written by name under its type.
pub proof fn law_a_tool_is_written_by_name(v: ToolView)
    ensures
        ({
            let doc = tool_doc(v);
            &&& v matches ToolView::Function { name, description, input_schema } ==>
                doc.at("type"@) == JsonView::String("function"@) && doc.at("name"@) == JsonView::String(name)
                && is_text_if_any(doc.field("description"@), description) && doc.at("input_schema"@) == input_schema
            &&& v matches ToolView::Provider { id, name, args } ==>
                doc.at("type"@) == JsonView::String("provider"@) && doc.at("id"@) == JsonView::String(id)
                && doc.at("name"@) == JsonView::String(name) && doc.at("args"@) == args
        }),
{
    broadcast use group_members;

    reveal_strlit("type");
    reveal_strlit("name");
    reveal_strlit("description");
    reveal_strlit("input_schema");
    reveal_strlit("id");
    reveal_strlit("args");
    assert("type"@.len() == 4 && "name"@.len() == 4 && "description"@.len() == 11 && "input_schema"@.len() == 12
        && "id"@.len() == 2 && "args"@.len() == 4);
    assert("type"@[0] == 't' && "name"@[0] == 'n' && "args"@[0] == 'a');
}

/// A choice of tools is written by its type, and a chosen tool by its name.
pub proof fn law_a_tool_choice_is_written_by_its_type(v: ToolChoiceView)
    ensures
        ({
            let doc = choice_doc(v);
            &&& v is Auto ==> doc.at("type"@) == JsonView::String("auto"@)
            &&& v is NoTool ==> doc.at("type"@) == JsonView::String("none"@)
            &&& v is Required ==> doc.at("type"@) == JsonView::String("required"@)
            &&& v matches ToolChoiceView::Tool(name) ==> doc.at("type"@) == JsonView::String("tool"@)
                && doc.at("tool_name"@) == JsonView::String(name)
        }),
{
    broadcast use group_members;

    reveal_strlit("type");
    reveal_strlit("tool_name");
    assert("type"@.len() == 4 && "tool_name"@.len() == 9);
}

/// The failure of a provider call is written by name.
pub proof fn law_a_provider_error_is_written_by_name(v: ApiCallErrorView)
    ensures
        ({
            let doc = api_call_doc(v);
            &&& doc.at("message"@) == JsonView::String(v.message)
            &&& doc.at("url"@) == JsonView::String(v.url)
            &&& doc.at("request_body_values"@) == v.request_body_values
            &&& v.status_code matches Some(status) ==>
                doc.at("status_code"@) == JsonView::Number(NumberView::PosInt(status as u64))
            &&& v.status_code is None ==> doc.at("status_code"@) is Null
            &&& is_or_null(doc.at("response_headers"@), pairs_doc(v.response_headers))
            &&& is_text_or_null(doc.at("response_body"@), v.response_body)
            &&& is_text_or_null(doc.at("provider_code"@), v.provider_code)
            &&& is_or_null(doc.at("data"@), v.data)
            &&& doc.at("is_retryable"@) == JsonView::Bool(v.is_retryable)
        }),
{
    broadcast use group_members;

    reveal_strlit("message");
    reveal_strlit("url");
    reveal_strlit("request_body_values");
    reveal_strlit("status_code");
    reveal_strlit("response_headers");
    reveal_strlit("response_body");
    reveal_strlit("provider_code");
    reveal_strlit("data");
    reveal_strlit("is_retryable");
    assert("message"@.len() == 7 && "url"@.len() == 3 && "request_body_values"@.len() == 19
        && "status_code"@.len() == 11 && "response_headers"@.len() == 16 && "response_body"@.len() == 13
        && "provider_code"@.len() == 13 && "data"@.len() == 4 && "is_retryable"@.len() == 12);
    assert("response_body"@[0] == 'r' && "provider_code"@[0] == 'p');
}

/// What a repair is told is written by name, with the schema of the tool that the call names.
pub proof fn law_a_repair_context_is_written_by_name(v: RepairContextView)
    ensures
        ({
            let doc = context_doc(v);
            &&& doc.at("tool_call"@) == raw_call_doc(v.tool_call)
            &&& doc.at("error"@) == error_doc(v.error)
            &&& doc.at("input_schema"@) == schema_of(v.tools, v.tool_call.tool_name)
            &&& doc.at("tools"@) == tools_doc(v.tools)
            &&& doc.at("messages"@) == messages_doc(v.messages)
            &&& is_text_or_null(doc.at("instructions"@), v.instructions)
        }),
{
    broadcast use group_members;

    reveal_strlit("tool_call");
    reveal_strlit("error");
    reveal_strlit("input_schema");
    reveal_strlit("tools");
    reveal_strlit("messages");
    reveal_strlit("instructions");
    assert("tool_call"@.len() == 9 && "error"@.len() == 5 && "input_schema"@.len() == 12 && "tools"@.len() == 5
        && "messages"@.len() == 8 && "instructions"@.len() == 12);
    assert("error"@[0] == 'e' && "tools"@[0] == 't' && "input_schema"@[2] == 'p' && "instructions"@[2] == 's');
}

/// What a host is told is written by name; instructions that are not there are left out.
pub proof fn law_a_hosts_context_is_written_by_name(v: HostContextView)
    ensures
        ({
            let doc = host_context_doc(v);
            &&& doc.at("tool_call"@) == raw_call_doc(v.tool_call)
            &&& doc.at("error"@) == error_doc(v.error)
            &&& doc.at("input_schema"@) == v.input_schema
            &&& doc.at("tools"@) == tools_doc(v.tools)
            &&& doc.at("messages"@) == messages_doc(v.messages)
            &&& is_text_if_any(doc.field("instructions"@), v.instructions)
        }),
{
    broadcast use group_members;

    reveal_strlit("tool_call");
    reveal_strlit("error");
    reveal_strlit("input_schema");
    reveal_strlit("tools");
    reveal_strlit("messages");
    reveal_strlit("instructions");
    assert("tool_call"@.len() == 9 && "error"@.len() == 5 && "input_schema"@.len() == 12 && "tools"@.len() == 5
        && "messages"@.len() == 8 && "instructions"@.len() == 12);
    assert("error"@[0] == 'e' && "tools"@[0] == 't' && "input_schema"@[2] == 'p' && "instructions"@[2] == 's');
}

/// A host is told of a call what a callback is, with the schema of the tool
/// that the call names.
pub proof fn law_a_host_is_told_what_a_callback_is(context: RepairContextView)
    ensures
        ({
            let told = host_context(context);
            &&& told.tool_call == context.tool_call
            &&& told.error == context.error
            &&& told.tools == context.tools
            &&& told.messages == context.messages
            &&& told.instructions == context.instructions
            &&& told.input_schema == schema_of(context.tools, context.tool_call.tool_name)
        }),
{
}

/// An event is written under its type, with what it brings.
pub proof fn law_an_event_is_written_under_its_type(v: EventView)
    ensures
        ({
            let doc = event_doc(v);
            &&& v matches EventView::RepairRequest { request_id, context } ==>
                doc.at("type"@) == JsonView::String("repair_request"@)
                && doc.at("request_id"@) == JsonView::String(request_id)
                && doc.at("context"@) == host_context_doc(context)
            &&& v matches EventView::Part { part } ==> doc.at("type"@) == JsonView::String("part"@)
                && doc.at("part"@) == part
            &&& v matches EventView::Result { result } ==> doc.at("type"@) == JsonView::String("result"@)
                && doc.at("result"@) == result
        }),
{
    broadcast use group_members;

    reveal_strlit("type");
    reveal_strlit("request_id");
    reveal_strlit("context");
    reveal_strlit("part");
    reveal_strlit("result");
    assert("type"@.len() == 4 && "request_id"@.len() == 10 && "context"@.len() == 7 && "part"@.len() == 4
        && "result"@.len() == 6);
    assert("type"@[0] == 't' && "part"@[0] == 'p');
}

/// An error is written under the name of its kind, with what it carries by name.
pub proof fn law_an_error_is_written_under_its_kind(v: AiMuxErrorView)
    ensures
        ({
            let doc = error_doc(v);
            &&& v matches AiMuxErrorView::ApiCall(detail) ==> doc.field("ApiCall"@) == Some(api_call_doc(detail))
            &&& v matches AiMuxErrorView::Retry(reason, list) ==> {
                &&& doc.field("Retry"@) matches Some(body)
                &&& body.at("reason"@) == JsonView::String(
                    match reason {
                        RetryErrorReason::MaxRetriesExceeded => "maxRetriesExceeded"@,
                        RetryErrorReason::ErrorNotRetryable => "errorNotRetryable"@,
                    },
                )
                &&& body.at("errors"@) matches JsonView::Array(docs)
                &&& docs.len() == list.len()
                &&& forall|i: int| 0 <= i < list.len() ==> #[trigger] docs[i] == error_doc(list[i])
            }
            &&& v matches AiMuxErrorView::NoSuchTool { tool_name, available_tools, tool_input } ==> {
                &&& doc.field("NoSuchTool"@) matches Some(body)
                &&& body.at("tool_name"@) == JsonView::String(tool_name)
                &&& is_text_or_null(body.at("tool_input"@), tool_input)
                &&& available_tools is None ==> body.at("available_tools"@) is Null
                &&& available_tools matches Some(names) ==> (body.at("available_tools"@) matches JsonView::Array(list)
                    && list.len() == names.len() && forall|i: int|
                    0 <= i < names.len() ==> #[trigger] list[i] == JsonView::String(names[i]))
            }
            &&& v matches AiMuxErrorView::InvalidToolInput { tool_name, tool_input, cause } ==> {
                &&& doc.field("InvalidToolInput"@) matches Some(body)
                &&& body.at("tool_name"@) == JsonView::String(tool_name)
                &&& body.at("tool_input"@) == JsonView::String(tool_input)
                &&& body.at("cause"@) == JsonView::String(cause)
            }
            &&& v matches AiMuxErrorView::ToolCallRepair { original_error, cause } ==> {
                &&& doc.field("ToolCallRepair"@) matches Some(body)
                &&& body.at("original_error"@) == error_doc(*original_error)
                &&& body.at("cause"@) == error_doc(*cause)
            }
            &&& v matches AiMuxErrorView::NoSuchModel { model_id, model_type } ==> {
                &&& doc.field("NoSuchModel"@) matches Some(body)
                &&& body.at("model_id"@) == JsonView::String(model_id)
                &&& body.at("model_type"@) == JsonView::String(model_type)
            }
            &&& v matches AiMuxErrorView::NoSuchProvider { provider_id } ==> (doc.field("NoSuchProvider"@) matches Some(
                body,
            ) && body.at("provider_id"@) == JsonView::String(provider_id))
            &&& v matches AiMuxErrorView::JsonParse(text) ==> doc.field("JsonParse"@) == Some(JsonView::String(text))
            &&& v matches AiMuxErrorView::InvalidResponseData(text) ==>
                doc.field("InvalidResponseData"@) == Some(JsonView::String(text))
            &&& v matches AiMuxErrorView::InvalidArgument(text) ==>
                doc.field("InvalidArgument"@) == Some(JsonView::String(text))
            &&& v matches AiMuxErrorView::InvalidPrompt(text) ==>
                doc.field("InvalidPrompt"@) == Some(JsonView::String(text))
            &&& v matches AiMuxErrorView::TokenExpired(text) ==>
                doc.field("TokenExpired"@) == Some(JsonView::String(text))
            &&& v matches AiMuxErrorView::UnsupportedFunctionality(text) ==>
                doc.field("UnsupportedFunctionality"@) == Some(JsonView::String(text))
            &&& v matches AiMuxErrorView::Timeout(text) ==> doc.field("Timeout"@) == Some(JsonView::String(text))
            &&& v matches AiMuxErrorView::Aborted(text) ==> doc.field("Aborted"@) == Some(JsonView::String(text))
            &&& v matches AiMuxErrorView::Other(text) ==> doc.field("Other"@) == Some(JsonView::String(text))
        }),
{
    broadcast use group_members;

    reveal_with_fuel(error_doc, 2);
    reveal_with_fuel(error_docs, 2);
    reveal_strlit("reason");
    reveal_strlit("errors");
    reveal_strlit("tool_name");
    reveal_strlit("available_tools");
    reveal_strlit("tool_input");
    reveal_strlit("cause");
    reveal_strlit("original_error");
    reveal_strlit("model_id");
    reveal_strlit("model_type");
    assert("reason"@.len() == 6 && "errors"@.len() == 6 && "tool_name"@.len() == 9
        && "available_tools"@.len() == 15 && "tool_input"@.len() == 10 && "cause"@.len() == 5
        && "original_error"@.len() == 14 && "model_id"@.len() == 8 && "model_type"@.len() == 10);
    assert("reason"@[0] == 'r' && "errors"@[0] == 'e' && "tool_input"@[0] == 't' && "model_type"@[0] == 'm');
}

/// Pairs are written as members by name; of two pairs of one name the later
/// counts.
pub proof fn law_the_later_pair_counts(list: crate::error::Pairs, i: int)
    requires
        0 <= i < list.len(),
        forall|k: int| i < k < list.len() ==> (#[trigger] list[k]).0 != list[i].0,
    ensures
        pairs_doc(Some(list)) matches Some(doc) && doc.field(list[i].0) == Some(JsonView::String(list[i].1)),
    decreases list.len(),
{
    broadcast use group_members;

    let front = list.drop_last();
    if i < list.len() - 1 {
        assert(list[list.len() - 1].0 != list[i].0);
        assert forall|k: int| i < k < front.len() implies (#[trigger] front[k]).0 != front[i].0 by {
            assert(list[k].0 != list[i].0);
        }
        law_the_later_pair_counts(front, i);
    }
}

} // verus!
