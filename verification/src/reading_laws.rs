//! What is read from documents: each fact from the member of its own name.
use crate::error::{AiMuxError, AiMuxErrorView, ApiCallErrorView};
use crate::json::{Json, JsonView, NumberView};
use crate::tool::ToolCall;
use crate::wire::Fields;
use crate::wire_laws::{lemma_record_tags, lemma_text_tags};
use crate::wire_read::{
    get_any_option, get_bool_option, get_call, get_error, get_text, get_text_option, read_error, read_errors,
    read_pairs, read_texts, Words,
};
use vstd::prelude::*;

verus! {

/// Whether a member is this text.
pub open spec fn has_text(doc: JsonView, name: Seq<char>, text: Seq<char>) -> bool {
    doc.field(name) == Some(JsonView::String(text))
}

/// Whether a member is absent or `null`.
pub open spec fn has_none(doc: JsonView, name: Seq<char>) -> bool {
    doc.field(name) is None || doc.field(name) == Some(JsonView::Null)
}

/// Whether a member is this text, or stands for none.
pub open spec fn has_text_or_none(doc: JsonView, name: Seq<char>, text: Option<Seq<char>>) -> bool {
    match text {
        Some(text) => has_text(doc, name, text),
        None => has_none(doc, name),
    }
}

/// Whether a member is this truth value, or stands for none.
pub open spec fn has_truth_or_none(doc: JsonView, name: Seq<char>, truth: Option<bool>) -> bool {
    match truth {
        Some(truth) => doc.field(name) == Some(JsonView::Bool(truth)),
        None => has_none(doc, name),
    }
}

/// Whether a member is this document, or stands for none.
pub open spec fn has_document_or_none(doc: JsonView, name: Seq<char>, value: Option<JsonView>) -> bool {
    match value {
        Some(value) => doc.field(name) == Some(value) && !(value is Null),
        None => has_none(doc, name),
    }
}

/// Whether a member is a text.
pub open spec fn is_text(doc: JsonView, name: Seq<char>) -> bool {
    doc.field(name) matches Some(value) && value is String
}

/// Whether a member is a text or stands for none.
pub open spec fn is_text_or_none(doc: JsonView, name: Seq<char>) -> bool {
    is_text(doc, name) || has_none(doc, name)
}

/// Whether a member is a truth value or stands for none.
pub open spec fn is_truth_or_none(doc: JsonView, name: Seq<char>) -> bool {
    (doc.field(name) matches Some(value) && value is Bool) || has_none(doc, name)
}

/// A text, a truth value and a document are read from the member that is named;
/// an absent member is `null`, and a member of another kind is refused.
pub proof fn law_a_member_is_read_by_its_name(
    json: &Json,
    name: &str,
    text: Result<String, String>,
    text_option: Result<Option<String>, String>,
    truth_option: Result<Option<bool>, String>,
    any_option: Option<Json>,
)
    requires
        call_ensures(get_text, (json, name), text),
        call_ensures(get_text_option, (json, name), text_option),
        call_ensures(get_bool_option, (json, name), truth_option),
        call_ensures(get_any_option, (json, name), any_option),
    ensures
        text is Ok <==> is_text(json@, name@),
        text matches Ok(value) ==> has_text(json@, name@, value@),
        text_option is Ok <==> is_text_or_none(json@, name@),
        text_option matches Ok(Some(value)) ==> has_text(json@, name@, value@),
        text_option matches Ok(None) ==> has_none(json@, name@),
        truth_option is Ok <==> is_truth_or_none(json@, name@),
        truth_option matches Ok(value) ==> has_truth_or_none(json@, name@, value),
        any_option matches Some(value) ==> has_document_or_none(json@, name@, Some(value@)),
        any_option is None ==> has_none(json@, name@),
{
}

/// A call is read by the names of its facts: it needs an id, a tool's name and
/// an input, and takes the rest where it is there.
pub proof fn law_a_call_is_read_by_its_names(json: &Json, r: Result<ToolCall, String>)
    requires
        call_ensures(get_call, (json,), r),
    ensures
        r is Ok <==> {
            &&& is_text(json@, "tool_call_id"@)
            &&& is_text(json@, "tool_name"@)
            &&& json@.field("input"@) is Some
            &&& is_truth_or_none(json@, "provider_executed"@)
            &&& is_truth_or_none(json@, "dynamic"@)
            &&& is_text_or_none(json@, "thought_signature"@)
            &&& is_truth_or_none(json@, "invalid"@)
            &&& has_none(json@, "error"@) || read_error(json@.at("error"@)) is Ok
        },
        r matches Ok(call) ==> {
            &&& has_text(json@, "tool_call_id"@, call.tool_call_id@)
            &&& has_text(json@, "tool_name"@, call.tool_name@)
            &&& json@.field("input"@) == Some(call.input@)
            &&& has_truth_or_none(json@, "provider_executed"@, call.provider_executed)
            &&& has_truth_or_none(json@, "dynamic"@, call.dynamic)
            &&& has_text_or_none(json@, "thought_signature"@, call@.thought_signature)
            &&& has_document_or_none(json@, "provider_metadata"@, call@.provider_metadata)
            &&& has_truth_or_none(json@, "invalid"@, call.invalid)
            &&& (match call.error {
                Some(error) => read_error(json@.at("error"@)) == Ok::<AiMuxErrorView, Words>(error@),
                None => has_none(json@, "error"@),
            })
        },
{
}

/// Whether a document is an error of one variant: an object with one member.
pub open spec fn is_variant(doc: JsonView, tag: Seq<char>, body: JsonView) -> bool {
    doc == JsonView::Object(seq![(tag, body)])
}

/// An error that carries a text is read by its variant's name.
pub proof fn law_a_text_error_is_read_by_its_tag(
    json: &Json,
    tag: Seq<char>,
    text: Seq<char>,
    r: Result<AiMuxError, String>,
)
    requires
        call_ensures(get_error, (json,), r),
        is_variant(json@, tag, JsonView::String(text)),
    ensures
        tag == "JsonParse"@ ==> (r matches Ok(error) && error@ == AiMuxErrorView::JsonParse(text)),
        tag == "InvalidResponseData"@ ==> (r matches Ok(error) && error@ == AiMuxErrorView::InvalidResponseData(text)),
        tag == "InvalidArgument"@ ==> (r matches Ok(error) && error@ == AiMuxErrorView::InvalidArgument(text)),
        tag == "InvalidPrompt"@ ==> (r matches Ok(error) && error@ == AiMuxErrorView::InvalidPrompt(text)),
        tag == "TokenExpired"@ ==> (r matches Ok(error) && error@ == AiMuxErrorView::TokenExpired(text)),
        tag == "UnsupportedFunctionality"@ ==> (r matches Ok(error) && error@
            == AiMuxErrorView::UnsupportedFunctionality(text)),
        tag == "Timeout"@ ==> (r matches Ok(error) && error@ == AiMuxErrorView::Timeout(text)),
        tag == "Aborted"@ ==> (r matches Ok(error) && error@ == AiMuxErrorView::Aborted(text)),
        tag == "Other"@ ==> (r matches Ok(error) && error@ == AiMuxErrorView::Other(text)),
        r is Ok ==> seq![
            "JsonParse"@,
            "InvalidResponseData"@,
            "InvalidArgument"@,
            "InvalidPrompt"@,
            "TokenExpired"@,
            "UnsupportedFunctionality"@,
            "Timeout"@,
            "Aborted"@,
            "Other"@,
        ].contains(tag),
{
    lemma_text_tags();
    let fields = json@->Object_0;
    assert(fields.len() == 1 && fields[0] == (tag, JsonView::String(text)));
    let tags = seq![
        "JsonParse"@,
        "InvalidResponseData"@,
        "InvalidArgument"@,
        "InvalidPrompt"@,
        "TokenExpired"@,
        "UnsupportedFunctionality"@,
        "Timeout"@,
        "Aborted"@,
        "Other"@,
    ];
    assert(tags[0] == "JsonParse"@ && tags[1] == "InvalidResponseData"@ && tags[2] == "InvalidArgument"@ && tags[3]
        == "InvalidPrompt"@ && tags[4] == "TokenExpired"@ && tags[5] == "UnsupportedFunctionality"@ && tags[6]
        == "Timeout"@ && tags[7] == "Aborted"@ && tags[8] == "Other"@);
}

/// Whether a failed provider call says what a document says.
pub open spec fn is_call_failure_of(doc: JsonView, detail: ApiCallErrorView) -> bool {
    &&& has_text(doc, "message"@, detail.message)
    &&& has_text(doc, "url"@, detail.url)
    &&& doc.field("request_body_values"@) == Some(detail.request_body_values)
    &&& (match detail.status_code {
        Some(status) => doc.field("status_code"@) == Some(JsonView::Number(NumberView::PosInt(status as u64))),
        None => has_none(doc, "status_code"@),
    })
    &&& (match detail.response_headers {
        Some(headers) => {
            &&& doc.field("response_headers"@) matches Some(JsonView::Object(fields))
            &&& fields.len() == headers.len()
            &&& forall|i: int|
                0 <= i < fields.len() ==> #[trigger] fields[i] == (headers[i].0, JsonView::String(headers[i].1))
        },
        None => has_none(doc, "response_headers"@),
    })
    &&& has_text_or_none(doc, "response_body"@, detail.response_body)
    &&& has_text_or_none(doc, "provider_code"@, detail.provider_code)
    &&& has_document_or_none(doc, "data"@, detail.data)
    &&& doc.field("is_retryable"@) == Some(JsonView::Bool(detail.is_retryable))
}

/// An error that carries facts is read by its variant's name and each fact by
/// its own.
pub proof fn law_an_error_is_read_by_its_names(
    json: &Json,
    tag: Seq<char>,
    body: JsonView,
    r: Result<AiMuxError, String>,
)
    requires
        call_ensures(get_error, (json,), r),
        is_variant(json@, tag, body),
        !(body is String),
    ensures
        r matches Ok(error) ==> {
            &&& tag == "ApiCall"@ ==> (error@ matches AiMuxErrorView::ApiCall(detail)
                && is_call_failure_of(body, detail))
            &&& tag == "NoSuchTool"@ ==> {
                &&& error@ matches AiMuxErrorView::NoSuchTool { tool_name, available_tools, tool_input }
                &&& has_text(body, "tool_name"@, tool_name)
                &&& (match available_tools {
                    Some(names) => {
                        &&& body.field("available_tools"@) matches Some(JsonView::Array(items))
                        &&& items.len() == names.len()
                        &&& forall|i: int|
                            0 <= i < items.len() ==> #[trigger] items[i] == JsonView::String(names[i])
                    },
                    None => has_none(body, "available_tools"@),
                })
                &&& has_text_or_none(body, "tool_input"@, tool_input)
            }
            &&& tag == "InvalidToolInput"@ ==> {
                &&& error@ matches AiMuxErrorView::InvalidToolInput { tool_name, tool_input, cause }
                &&& has_text(body, "tool_name"@, tool_name)
                &&& has_text(body, "tool_input"@, tool_input)
                &&& has_text(body, "cause"@, cause)
            }
            &&& tag == "NoSuchModel"@ ==> {
                &&& error@ matches AiMuxErrorView::NoSuchModel { model_id, model_type }
                &&& has_text(body, "model_id"@, model_id)
                &&& has_text(body, "model_type"@, model_type)
            }
            &&& tag == "NoSuchProvider"@ ==> {
                &&& error@ matches AiMuxErrorView::NoSuchProvider { provider_id }
                &&& has_text(body, "provider_id"@, provider_id)
            }
            &&& tag == "ToolCallRepair"@ ==> {
                &&& error@ matches AiMuxErrorView::ToolCallRepair { original_error, cause }
                &&& read_error(body.at("original_error"@)) == Ok::<AiMuxErrorView, Words>(*original_error)
                &&& read_error(body.at("cause"@)) == Ok::<AiMuxErrorView, Words>(*cause)
            }
            &&& tag == "Retry"@ ==> {
                &&& error@ matches AiMuxErrorView::Retry(reason, list)
                &&& reason is MaxRetriesExceeded ==> has_text(body, "reason"@, "maxRetriesExceeded"@)
                &&& reason is ErrorNotRetryable ==> has_text(body, "reason"@, "errorNotRetryable"@)
                &&& body.field("errors"@) matches Some(JsonView::Array(items))
                &&& list.len() == items.len()
                &&& forall|i: int|
                    0 <= i < items.len() ==> read_error(#[trigger] items[i]) == Ok::<AiMuxErrorView, Words>(list[i])
            }
        },
{
    reveal_with_fuel(read_error, 2);
    lemma_record_tags();
    let fields = json@->Object_0;
    assert(fields.len() == 1 && fields[0] == (tag, body));
    if let Some(JsonView::Array(items)) = body.field("errors"@) {
        lemma_errors(items);
    }
    if let Some(JsonView::Object(headers)) = body.field("response_headers"@) {
        lemma_pairs(headers);
    }
    if let Some(JsonView::Array(names)) = body.field("available_tools"@) {
        lemma_texts(names);
    }
}

/// Errors are read one by one.
proof fn lemma_errors(items: Seq<JsonView>)
    ensures
        read_errors(items) matches Ok(list) ==> {
            &&& list.len() == items.len()
            &&& forall|i: int|
                0 <= i < items.len() ==> read_error(#[trigger] items[i]) == Ok::<AiMuxErrorView, Words>(list[i])
        },
    decreases items.len(),
{
    if items.len() > 0 {
        lemma_errors(items.drop_last());
        if read_errors(items) is Ok {
            assert forall|i: int| 0 <= i < items.len() implies read_error(#[trigger] items[i]) == Ok::<
                AiMuxErrorView,
                Words,
            >(read_errors(items)->Ok_0[i]) by {
                if i < items.len() - 1 {
                    assert(items[i] == items.drop_last()[i]);
                }
            }
        }
    }
}

/// Texts are read one by one.
proof fn lemma_texts(items: Seq<JsonView>)
    ensures
        read_texts(items) matches Some(list) ==> {
            &&& list.len() == items.len()
            &&& forall|i: int| 0 <= i < items.len() ==> #[trigger] items[i] == JsonView::String(list[i])
        },
    decreases items.len(),
{
    if items.len() > 0 {
        lemma_texts(items.drop_last());
        if read_texts(items) is Some {
            assert forall|i: int| 0 <= i < items.len() implies #[trigger] items[i] == JsonView::String(
                read_texts(items)->Some_0[i],
            ) by {
                if i < items.len() - 1 {
                    assert(items[i] == items.drop_last()[i]);
                }
            }
        }
    }
}

/// Pairs are read one by one.
proof fn lemma_pairs(fields: Fields)
    ensures
        read_pairs(fields) matches Some(list) ==> {
            &&& list.len() == fields.len()
            &&& forall|i: int|
                0 <= i < fields.len() ==> #[trigger] fields[i] == (list[i].0, JsonView::String(list[i].1))
        },
    decreases fields.len(),
{
    if fields.len() > 0 {
        lemma_pairs(fields.drop_last());
        if read_pairs(fields) is Some {
            assert forall|i: int| 0 <= i < fields.len() implies #[trigger] fields[i] == (
                read_pairs(fields)->Some_0[i].0,
                JsonView::String(read_pairs(fields)->Some_0[i].1),
            ) by {
                if i < fields.len() - 1 {
                    assert(fields[i] == fields.drop_last()[i]);
                }
            }
        }
    }
}

} // verus!
