//! What is written to a host reads back as what it was.
use crate::error::{AiMuxErrorView, ApiCallErrorView, Pairs};
use crate::json::{lemma_member_put, lemma_position, lemma_put_new, member, put, put_some, JsonView};
use crate::parse_tool_call::{
    context_doc, invalid_call, resolved, validated, RepairContextView, RepairOutcomeView,
};
use crate::tool::{RawToolCallView, ToolCallView, ToolView};
use crate::wire::{
    api_call_doc, call_doc, error_doc, error_docs, no_fields, pairs_fields, raw_call_doc, reason_name, tagged,
    texts_doc, Fields,
};
use crate::wire_read::{
    not_an_error, read_api_call, read_call, read_error, read_errors, read_pairs, read_texts, record_error, text_error,
    Words,
};
use vstd::prelude::*;

verus! {

/// What a member is after `key` was set.
pub broadcast proof fn lemma_put(fields: Fields, key: Seq<char>, value: JsonView, wanted: Seq<char>)
    ensures
        #[trigger] member(put(fields, key, value), wanted) == (if wanted == key {
            Some(value)
        } else {
            member(fields, wanted)
        }),
{
    lemma_member_put(fields, key, value, wanted);
}

/// What a member is after `key` was set, if there was a value for it.
pub broadcast proof fn lemma_put_some(fields: Fields, key: Seq<char>, value: Option<JsonView>, wanted: Seq<char>)
    ensures
        #[trigger] member(put_some(fields, key, value), wanted) == (if wanted == key && value is Some {
            value
        } else {
            member(fields, wanted)
        }),
{
    if let Some(value) = value {
        lemma_member_put(fields, key, value, wanted);
    }
}

pub broadcast proof fn lemma_no_member(wanted: Seq<char>)
    ensures
        #[trigger] member(no_fields(), wanted) is None,
{
    lemma_position(no_fields(), wanted);
}

pub broadcast group group_members {
    lemma_put,
    lemma_put_some,
    lemma_no_member,
}

/// The names of a call's members differ.
proof fn lemma_call_names()
    ensures
        "tool_call_id"@.len() == 12,
        "tool_name"@.len() == 9,
        "input"@.len() == 5,
        "input"@[0] == 'i',
        "provider_executed"@.len() == 17,
        "provider_executed"@[9] == 'e',
        "dynamic"@.len() == 7,
        "dynamic"@[0] == 'd',
        "thought_signature"@.len() == 17,
        "thought_signature"@[9] == 'i',
        "provider_metadata"@.len() == 17,
        "provider_metadata"@[9] == 'm',
        "invalid"@.len() == 7,
        "invalid"@[0] == 'i',
        "error"@.len() == 5,
        "error"@[0] == 'e',
{
    reveal_strlit("tool_call_id");
    reveal_strlit("tool_name");
    reveal_strlit("input");
    reveal_strlit("provider_executed");
    reveal_strlit("dynamic");
    reveal_strlit("thought_signature");
    reveal_strlit("provider_metadata");
    reveal_strlit("invalid");
    reveal_strlit("error");
}

/// What the document of a provider's call says of the call.
spec fn raw_call_said(doc: JsonView) -> RawToolCallView {
    RawToolCallView {
        tool_call_id: doc.at("tool_call_id"@)->String_0,
        tool_name: doc.at("tool_name"@)->String_0,
        input: doc.at("input"@)->String_0,
        provider_executed: match doc.field("provider_executed"@) {
            Some(value) => Some(value->Bool_0),
            None => None,
        },
        dynamic: match doc.field("dynamic"@) {
            Some(value) => Some(value->Bool_0),
            None => None,
        },
        thought_signature: match doc.field("thought_signature"@) {
            Some(value) => Some(value->String_0),
            None => None,
        },
        provider_metadata: doc.field("provider_metadata"@),
    }
}

proof fn lemma_raw_call_said(call: RawToolCallView)
    ensures
        raw_call_said(raw_call_doc(call)) == call,
{
    broadcast use group_members;

    lemma_call_names();
}

/// The document of a provider's call loses nothing: two calls that are written
/// alike are alike.
pub proof fn law_a_raw_call_is_written_whole(a: RawToolCallView, b: RawToolCallView)
    requires
        raw_call_doc(a) == raw_call_doc(b),
    ensures
        a == b,
{
    lemma_raw_call_said(a);
    lemma_raw_call_said(b);
}

/// A host is shown the provider's call as it is.
pub proof fn law_a_context_shows_the_call(context: RepairContextView)
    ensures
        context_doc(context).field("tool_call"@) == Some(raw_call_doc(context.tool_call)),
{
    broadcast use group_members;

    reveal_strlit("tool_call");
    reveal_strlit("error");
    reveal_strlit("input_schema");
    reveal_strlit("tools");
    reveal_strlit("messages");
    reveal_strlit("instructions");
    assert("tool_call"@.len() == 9 && "error"@.len() == 5 && "input_schema"@.len() == 12 && "tools"@.len() == 5
        && "messages"@.len() == 8 && "instructions"@.len() == 12);
}

/// No two pairs carry the same name.
pub open spec fn pair_names_distinct(list: Pairs) -> bool {
    forall|i: int, j: int| 0 <= i < j < list.len() ==> (#[trigger] list[i]).0 != (#[trigger] list[j]).0
}

/// Errors that lose nothing when written: no header is given twice, and no
/// provider data is a `null` document.
pub open spec fn readable(error: AiMuxErrorView) -> bool
    decreases error,
{
    match error {
        AiMuxErrorView::ApiCall(detail) => {
            &&& detail.data != Some(JsonView::Null)
            &&& detail.response_headers matches Some(list) ==> pair_names_distinct(list)
        },
        AiMuxErrorView::Retry(reason, list) => forall|i: int|
            0 <= i < list.len() ==> readable(#[trigger] list[i]),
        AiMuxErrorView::ToolCallRepair { original_error, cause } => readable(*original_error) && readable(*cause),
        _ => true,
    }
}

proof fn lemma_pairs_fields(list: Pairs)
    requires
        pair_names_distinct(list),
    ensures
        pairs_fields(list).len() == list.len(),
        forall|i: int|
            0 <= i < list.len() ==> #[trigger] pairs_fields(list)[i] == (list[i].0, JsonView::String(list[i].1)),
    decreases list.len(),
{
    if list.len() > 0 {
        let before = list.drop_last();
        lemma_pairs_fields(before);
        assert forall|k: int| 0 <= k < pairs_fields(before).len() implies (#[trigger] pairs_fields(before)[k]).0
            != list.last().0 by {
            assert(before[k].0 == list[k].0);
            assert(list[k].0 != list[list.len() - 1].0);
        }
        lemma_put_new(pairs_fields(before), list.last().0, JsonView::String(list.last().1));
        assert forall|i: int| 0 <= i < list.len() implies #[trigger] pairs_fields(list)[i] == (
            list[i].0,
            JsonView::String(list[i].1),
        ) by {
            if i < before.len() {
                assert(pairs_fields(list)[i] == pairs_fields(before)[i]);
                assert(before[i] == list[i]);
            }
        }
    }
}

proof fn lemma_read_pairs(fields: Fields, list: Pairs)
    requires
        fields.len() == list.len(),
        forall|i: int| 0 <= i < list.len() ==> #[trigger] fields[i] == (list[i].0, JsonView::String(list[i].1)),
    ensures
        read_pairs(fields) == Some(list),
    decreases fields.len(),
{
    if fields.len() > 0 {
        lemma_read_pairs(fields.drop_last(), list.drop_last());
        assert(list.drop_last().push(list.last()) =~= list);
        assert(fields[fields.len() - 1] == fields.last());
    } else {
        assert(list =~= Seq::empty());
    }
}

proof fn lemma_read_texts(list: Seq<Seq<char>>)
    ensures
        read_texts(texts_doc(list)->Array_0) == Some(list),
    decreases list.len(),
{
    let items = texts_doc(list)->Array_0;
    if list.len() > 0 {
        lemma_read_texts(list.drop_last());
        assert(items.drop_last() =~= texts_doc(list.drop_last())->Array_0);
        assert(list.drop_last().push(list.last()) =~= list);
    } else {
        assert(list =~= Seq::empty());
    }
}

proof fn lemma_api_call(detail: ApiCallErrorView)
    requires
        readable(AiMuxErrorView::ApiCall(detail)),
    ensures
        read_api_call(api_call_doc(detail)) == Ok::<ApiCallErrorView, Words>(detail),
{
    broadcast use group_members;

    reveal_strlit("message");
    reveal_strlit("url");
    reveal_strlit("request_body_values");
    reveal_strlit("status_code");
    reveal_strlit("response_headers");
    reveal_strlit("response_body");
    reveal_strlit("provider_code");
    reveal_strlit("data");
    reveal_strlit("is_retryable");
    assert("message"@.len() == 7 && "url"@.len() == 3 && "request_body_values"@.len() == 19
        && "status_code"@.len() == 11 && "response_headers"@.len() == 16 && "response_body"@.len() == 13
        && "provider_code"@.len() == 13 && "data"@.len() == 4 && "is_retryable"@.len() == 12);
    assert("response_body"@[0] == 'r' && "provider_code"@[0] == 'p');
    if let Some(list) = detail.response_headers {
        lemma_pairs_fields(list);
        lemma_read_pairs(pairs_fields(list), list);
    }
}

/// The names of the error variants that carry a record differ.
pub proof fn lemma_record_tags()
    ensures
        "ApiCall"@.len() == 7,
        "NoSuchTool"@.len() == 10,
        "InvalidToolInput"@.len() == 16,
        "NoSuchModel"@.len() == 11,
        "NoSuchProvider"@.len() == 14,
        "NoSuchProvider"@[0] == 'N',
        "ToolCallRepair"@.len() == 14,
        "ToolCallRepair"@[0] == 'T',
        "Retry"@.len() == 5,
{
    reveal_strlit("ApiCall");
    reveal_strlit("NoSuchTool");
    reveal_strlit("InvalidToolInput");
    reveal_strlit("NoSuchModel");
    reveal_strlit("NoSuchProvider");
    reveal_strlit("ToolCallRepair");
    reveal_strlit("Retry");
}

/// The names of the error variants that carry a text differ.
pub proof fn lemma_text_tags()
    ensures
        "JsonParse"@.len() == 9,
        "InvalidResponseData"@.len() == 19,
        "InvalidArgument"@.len() == 15,
        "InvalidPrompt"@.len() == 13,
        "TokenExpired"@.len() == 12,
        "UnsupportedFunctionality"@.len() == 24,
        "Timeout"@.len() == 7,
        "Timeout"@[0] == 'T',
        "Aborted"@.len() == 7,
        "Aborted"@[0] == 'A',
        "Other"@.len() == 5,
{
    reveal_strlit("JsonParse");
    reveal_strlit("InvalidResponseData");
    reveal_strlit("InvalidArgument");
    reveal_strlit("InvalidPrompt");
    reveal_strlit("TokenExpired");
    reveal_strlit("UnsupportedFunctionality");
    reveal_strlit("Timeout");
    reveal_strlit("Aborted");
    reveal_strlit("Other");
}

proof fn lemma_tagged(tag: Seq<char>, value: JsonView)
    ensures
        tagged(tag, value) == JsonView::Object(seq![(tag, value)]),
{
    lemma_position(no_fields(), tag);
    assert(put(no_fields(), tag, value) =~= seq![(tag, value)]);
}

proof fn lemma_text_error(tag: Seq<char>, text: Seq<char>)
    ensures
        read_error(tagged(tag, JsonView::String(text))) == (match text_error(
            tag,
            text,
        ) {
            Some(error) => Ok::<AiMuxErrorView, Words>(error),
            None => Err(not_an_error()),
        }),
{
    lemma_tagged(tag, JsonView::String(text));
}

/// An error reads back from its document, unless what it carries cannot be
/// written apart: a header given twice, or a `null` as the provider's data.
pub proof fn law_error_reads_back(error: AiMuxErrorView)
    requires
        readable(error),
    ensures
        read_error(error_doc(error)) == Ok::<AiMuxErrorView, Words>(error),
    decreases error,
{
    broadcast use group_members;

    lemma_record_tags();
    lemma_text_tags();
    match error {
        AiMuxErrorView::ApiCall(detail) => {
            lemma_api_call(detail);
            lemma_tagged("ApiCall"@, api_call_doc(detail));
            assert(record_error("ApiCall"@, api_call_doc(detail)) == Ok::<AiMuxErrorView, Words>(error));
        },
        AiMuxErrorView::Retry(reason, list) => {
            reveal_strlit("reason");
            reveal_strlit("errors");
            reveal_strlit("maxRetriesExceeded");
            reveal_strlit("errorNotRetryable");
            assert("reason"@[0] == 'r' && "errors"@[0] == 'e');
            assert("maxRetriesExceeded"@.len() == 18 && "errorNotRetryable"@.len() == 17);
            assert(decreases_to!(error => error->Retry_1));
            lemma_errors_read_back(list);
            let f = put(no_fields(), "reason"@, JsonView::String(reason_name(reason)));
            lemma_tagged("Retry"@, JsonView::Object(put(f, "errors"@, JsonView::Array(error_docs(list)))));
        },
        AiMuxErrorView::ToolCallRepair { original_error, cause } => {
            reveal_strlit("original_error");
            reveal_strlit("cause");
            assert("original_error"@.len() == 14 && "cause"@.len() == 5);
            law_error_reads_back(*original_error);
            law_error_reads_back(*cause);
            let f = put(no_fields(), "original_error"@, error_doc(*original_error));
            lemma_tagged("ToolCallRepair"@, JsonView::Object(put(f, "cause"@, error_doc(*cause))));
        },
        AiMuxErrorView::NoSuchTool { tool_name, available_tools, tool_input } => {
            reveal_strlit("tool_name");
            reveal_strlit("available_tools");
            reveal_strlit("tool_input");
            assert("tool_name"@.len() == 9 && "available_tools"@.len() == 15 && "tool_input"@.len() == 10);
            if let Some(list) = available_tools {
                lemma_read_texts(list);
            }
            lemma_tagged("NoSuchTool"@, error_doc(error)->Object_0[0].1);
        },
        AiMuxErrorView::InvalidToolInput { tool_name, tool_input, cause } => {
            reveal_strlit("tool_name");
            reveal_strlit("tool_input");
            reveal_strlit("cause");
            assert("tool_name"@.len() == 9 && "cause"@.len() == 5 && "tool_input"@.len() == 10);
            lemma_tagged("InvalidToolInput"@, error_doc(error)->Object_0[0].1);
        },
        AiMuxErrorView::NoSuchModel { model_id, model_type } => {
            reveal_strlit("model_id");
            reveal_strlit("model_type");
            assert("model_id"@.len() == 8 && "model_type"@.len() == 10);
            lemma_tagged("NoSuchModel"@, error_doc(error)->Object_0[0].1);
        },
        AiMuxErrorView::NoSuchProvider { provider_id } => {
            lemma_tagged("NoSuchProvider"@, error_doc(error)->Object_0[0].1);
        },
        AiMuxErrorView::JsonParse(text) => lemma_text_error("JsonParse"@, text),
        AiMuxErrorView::InvalidResponseData(text) => lemma_text_error("InvalidResponseData"@, text),
        AiMuxErrorView::InvalidArgument(text) => lemma_text_error("InvalidArgument"@, text),
        AiMuxErrorView::InvalidPrompt(text) => lemma_text_error("InvalidPrompt"@, text),
        AiMuxErrorView::TokenExpired(text) => lemma_text_error("TokenExpired"@, text),
        AiMuxErrorView::UnsupportedFunctionality(text) => lemma_text_error("UnsupportedFunctionality"@, text),
        AiMuxErrorView::Timeout(text) => lemma_text_error("Timeout"@, text),
        AiMuxErrorView::Aborted(text) => lemma_text_error("Aborted"@, text),
        AiMuxErrorView::Other(text) => lemma_text_error("Other"@, text),
    }
}

proof fn lemma_errors_read_back(list: Seq<AiMuxErrorView>)
    requires
        forall|i: int| 0 <= i < list.len() ==> readable(#[trigger] list[i]),
    ensures
        read_errors(error_docs(list)) == Ok::<Seq<AiMuxErrorView>, Words>(list),
    decreases list,
{
    let docs = error_docs(list);
    if list.len() > 0 {
        let before = list.drop_last();
        assert(docs.drop_last() =~= error_docs(before));
        assert forall|i: int| 0 <= i < before.len() implies readable(#[trigger] before[i]) by {
            assert(readable(list[i]));
        }
        lemma_errors_read_back(before);
        assert(readable(list[list.len() - 1]));
        law_error_reads_back(list.last());
        assert(before.push(list.last()) =~= list);
    } else {
        assert(list =~= Seq::empty());
    }
}

/// A parsed call reads back from its document, unless its metadata is a
/// `null` document or its error cannot be written apart.
pub proof fn law_call_reads_back(call: ToolCallView)
    requires
        call.provider_metadata != Some(JsonView::Null),
        call.error matches Some(error) ==> readable(error),
    ensures
        read_call(call_doc(call)) == Ok::<ToolCallView, Words>(call),
{
    broadcast use group_members;

    lemma_call_names();
    if let Some(error) = call.error {
        law_error_reads_back(error);
        assert(!(error_doc(error) is Null)) by {
            assert(read_error(error_doc(error)) is Ok);
        }
    }
}

/// An invalid call survives the way to a host and back, whatever the reason
/// of its failure; so does the call that a host failed to repair.
pub proof fn law_an_invalid_call_reads_back(
    call: RawToolCallView,
    tools: Seq<ToolView>,
    said: Seq<char>,
    message: Seq<char>,
)
    requires
        validated(call, tools, said) is Err,
        call.provider_metadata != Some(JsonView::Null),
    ensures
        ({
            let error = validated(call, tools, said)->Err_0;
            let failed = RepairOutcomeView::Failed(AiMuxErrorView::Other(message));
            &&& read_call(call_doc(invalid_call(call, error))) == Ok::<ToolCallView, Words>(
                invalid_call(call, error),
            )
            &&& read_call(call_doc(resolved(call, error, tools, failed, said))) == Ok::<ToolCallView, Words>(
                resolved(call, error, tools, failed, said),
            )
        }),
{
    let error = validated(call, tools, said)->Err_0;
    assert(readable(error));
    reveal_with_fuel(readable, 2);
    law_call_reads_back(invalid_call(call, error));
    let failed = RepairOutcomeView::Failed(AiMuxErrorView::Other(message));
    law_call_reads_back(resolved(call, error, tools, failed, said));
}

} // verus!
