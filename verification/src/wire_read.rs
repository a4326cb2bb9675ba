//! Reading calls and errors back from their JSON shapes.
use crate::error::{
    error_view, errors, json_view, pairs, pairs_view, texts_view, AiMuxError, AiMuxErrorView, ApiCallError,
    ApiCallErrorView, Pairs, RetryError, RetryErrorReason,
};
use crate::json::{
    documents, lemma_model, lemma_position, position, Json, JsonObject, JsonView, NumberView,
};
use crate::json_text::text_view;
use crate::text::{join3, same_text, texts};
use crate::tool::{ToolCall, ToolCallView};
use crate::wire::Fields;
use vstd::prelude::*;
use vstd::string::*;

verus! {

pub type Words = Seq<char>;

pub open spec fn missing(name: Seq<char>) -> Words {
    "missing field `"@ + name + "`"@
}

pub open spec fn wrong(name: Seq<char>) -> Words {
    "invalid type in field `"@ + name + "`"@
}

fn missing_words(name: &str) -> (r: String)
    ensures
        r@ == missing(name@),
{
    join3("missing field `", name, "`")
}

fn wrong_words(name: &str) -> (r: String)
    ensures
        r@ == wrong(name@),
{
    join3("invalid type in field `", name, "`")
}

/// A member is smaller than the document that holds it.
pub proof fn lemma_field_smaller(doc: JsonView, name: Seq<char>)
    ensures
        doc.field(name) matches Some(value) ==> decreases_to!(doc => value),
{
    if let JsonView::Object(fields) = doc {
        lemma_position(fields, name);
        let p = position(fields, name);
        if p < fields.len() {
            assert(decreases_to!(doc => doc->Object_0));
            assert(decreases_to!(fields => fields[p]));
            assert(decreases_to!(fields[p] => fields[p].1));
        }
    }
}

/// A required text.
pub open spec fn read_text(doc: JsonView, name: Seq<char>) -> Result<Seq<char>, Words> {
    match doc.field(name) {
        Some(JsonView::String(text)) => Ok(text),
        Some(_) => Err(wrong(name)),
        None => Err(missing(name)),
    }
}

/// A text that may be absent or `null`.
pub open spec fn read_text_option(doc: JsonView, name: Seq<char>) -> Result<Option<Seq<char>>, Words> {
    match doc.at(name) {
        JsonView::Null => Ok(None),
        JsonView::String(text) => Ok(Some(text)),
        _ => Err(wrong(name)),
    }
}

/// A truth value that may be absent or `null`.
pub open spec fn read_bool_option(doc: JsonView, name: Seq<char>) -> Result<Option<bool>, Words> {
    match doc.at(name) {
        JsonView::Null => Ok(None),
        JsonView::Bool(value) => Ok(Some(value)),
        _ => Err(wrong(name)),
    }
}

/// A required document of any kind.
pub open spec fn read_any(doc: JsonView, name: Seq<char>) -> Result<JsonView, Words> {
    match doc.field(name) {
        Some(value) => Ok(value),
        None => Err(missing(name)),
    }
}

/// A document that may be absent or `null`.
pub open spec fn read_any_option(doc: JsonView, name: Seq<char>) -> Option<JsonView> {
    match doc.at(name) {
        JsonView::Null => None,
        value => Some(value),
    }
}

pub open spec fn read_bool(doc: JsonView, name: Seq<char>) -> Result<bool, Words> {
    match doc.field(name) {
        Some(JsonView::Bool(value)) => Ok(value),
        Some(_) => Err(wrong(name)),
        None => Err(missing(name)),
    }
}

/// An HTTP status that may be absent or `null`.
pub open spec fn read_status(doc: JsonView, name: Seq<char>) -> Result<Option<u16>, Words> {
    match doc.at(name) {
        JsonView::Null => Ok(None),
        JsonView::Number(NumberView::PosInt(n)) => if n <= u16::MAX {
            Ok(Some(n as u16))
        } else {
            Err(wrong(name))
        },
        _ => Err(wrong(name)),
    }
}

/// The view of a decoded text.
pub open spec fn read_view(r: Result<String, String>) -> Result<Seq<char>, Words> {
    match r {
        Ok(text) => Ok(text@),
        Err(words) => Err(words@),
    }
}

pub fn get_text(json: &Json, name: &str) -> (r: Result<String, String>)
    ensures
        read_view(r) == read_text(json@, name@),
{
    broadcast use lemma_model;

    match json.get(name) {
        Some(Json::String(text)) => Ok(text.clone()),
        Some(_) => Err(wrong_words(name)),
        None => Err(missing_words(name)),
    }
}

pub fn get_text_option(json: &Json, name: &str) -> (r: Result<Option<String>, String>)
    ensures
        read_text_option(json@, name@) == (match r {
            Ok(text) => Ok(text_view(text)),
            Err(words) => Err(words@),
        }),
{
    broadcast use lemma_model;

    match json.get(name) {
        None => Ok(None),
        Some(Json::Null) => Ok(None),
        Some(Json::String(text)) => Ok(Some(text.clone())),
        Some(_) => Err(wrong_words(name)),
    }
}

pub fn get_bool_option(json: &Json, name: &str) -> (r: Result<Option<bool>, String>)
    ensures
        read_bool_option(json@, name@) == (match r {
            Ok(value) => Ok(value),
            Err(words) => Err(words@),
        }),
{
    broadcast use lemma_model;

    match json.get(name) {
        None => Ok(None),
        Some(Json::Null) => Ok(None),
        Some(Json::Bool(value)) => Ok(Some(*value)),
        Some(_) => Err(wrong_words(name)),
    }
}

fn get_any(json: &Json, name: &str) -> (r: Result<Json, String>)
    ensures
        read_any(json@, name@) == (match r {
            Ok(value) => Ok(value@),
            Err(words) => Err(words@),
        }),
{
    match json.get(name) {
        Some(value) => Ok(value.copy()),
        None => Err(missing_words(name)),
    }
}

pub fn get_any_option(json: &Json, name: &str) -> (r: Option<Json>)
    ensures
        json_view(r) == read_any_option(json@, name@),
{
    broadcast use lemma_model;

    match json.get(name) {
        None => None,
        Some(Json::Null) => None,
        Some(value) => Some(value.copy()),
    }
}

fn get_bool(json: &Json, name: &str) -> (r: Result<bool, String>)
    ensures
        read_bool(json@, name@) == (match r {
            Ok(value) => Ok(value),
            Err(words) => Err(words@),
        }),
{
    broadcast use lemma_model;

    match json.get(name) {
        Some(Json::Bool(value)) => Ok(*value),
        Some(_) => Err(wrong_words(name)),
        None => Err(missing_words(name)),
    }
}

fn get_status(json: &Json, name: &str) -> (r: Result<Option<u16>, String>)
    ensures
        read_status(json@, name@) == (match r {
            Ok(value) => Ok(value),
            Err(words) => Err(words@),
        }),
{
    broadcast use lemma_model;

    match json.get(name) {
        None => Ok(None),
        Some(Json::Null) => Ok(None),
        Some(value) => match value.as_u64() {
            Some(n) => {
                if n <= u16::MAX as u64 {
                    Ok(Some(n as u16))
                } else {
                    Err(wrong_words(name))
                }
            },
            None => Err(wrong_words(name)),
        },
    }
}

/// A list of texts.
pub open spec fn read_texts(items: Seq<JsonView>) -> Option<Seq<Seq<char>>>
    decreases items.len(),
{
    if items.len() == 0 {
        Some(Seq::empty())
    } else {
        match (read_texts(items.drop_last()), items.last()) {
            (Some(list), JsonView::String(text)) => Some(list.push(text)),
            _ => None,
        }
    }
}

proof fn lemma_read_texts_prefix(items: Seq<JsonView>, k: int)
    requires
        0 <= k <= items.len(),
        read_texts(items.take(k)) is None,
    ensures
        read_texts(items) is None,
    decreases items.len() - k,
{
    if k < items.len() {
        assert(items.take(k + 1).drop_last() =~= items.take(k));
        lemma_read_texts_prefix(items, k + 1);
    } else {
        assert(items.take(k) =~= items);
    }
}

fn get_texts(items: &Vec<Json>) -> (r: Option<Vec<String>>)
    ensures
        texts_view(r) == read_texts(documents(items@)),
{
    broadcast use lemma_model;

    let ghost docs = documents(items@);
    let mut out: Vec<String> = Vec::new();
    let mut i: usize = 0;
    assert(docs.take(0) =~= Seq::empty());
    assert(texts(out@) =~= Seq::<Seq<char>>::empty());
    while i < items.len()
        invariant
            i <= items.len(),
            docs == documents(items@),
            read_texts(docs.take(i as int)) == Some(texts(out@)),
        decreases items.len() - i,
    {
        proof {
            lemma_model(items@[i as int]);
            assert(docs.take(i + 1).drop_last() =~= docs.take(i as int));
        }
        match items[i].as_str() {
            Some(text) => {
                let ghost before = texts(out@);
                out.push(text.clone());
                assert(texts(out@) =~= before.push(text@));
            },
            None => {
                proof {
                    lemma_read_texts_prefix(docs, i + 1);
                }
                return None;
            },
        }
        i = i + 1;
    }
    assert(docs.take(docs.len() as int) =~= docs);
    Some(out)
}

/// Name/value pairs out of an object of texts.
pub open spec fn read_pairs(fields: Fields) -> Option<Pairs>
    decreases fields.len(),
{
    if fields.len() == 0 {
        Some(Seq::empty())
    } else {
        match (read_pairs(fields.drop_last()), fields.last().1) {
            (Some(list), JsonView::String(text)) => Some(list.push((fields.last().0, text))),
            _ => None,
        }
    }
}

proof fn lemma_read_pairs_prefix(fields: Fields, k: int)
    requires
        0 <= k <= fields.len(),
        read_pairs(fields.take(k)) is None,
    ensures
        read_pairs(fields) is None,
    decreases fields.len() - k,
{
    if k < fields.len() {
        assert(fields.take(k + 1).drop_last() =~= fields.take(k));
        lemma_read_pairs_prefix(fields, k + 1);
    } else {
        assert(fields.take(k) =~= fields);
    }
}

fn get_pairs(object: &JsonObject) -> (r: Option<Vec<(String, String)>>)
    ensures
        pairs_view(r) == read_pairs(object@),
{
    let ghost docs = object@;
    let n: usize = object.len();
    let mut out: Vec<(String, String)> = Vec::new();
    let mut i: usize = 0;
    assert(docs.take(0) =~= Seq::empty());
    assert(pairs(out@) =~= Seq::empty());
    while i < n
        invariant
            i <= n == docs.len(),
            docs == object@,
            read_pairs(docs.take(i as int)) == Some(pairs(out@)),
        decreases n - i,
    {
        assert(docs.take(i + 1).drop_last() =~= docs.take(i as int));
        match object.value_at(i).as_str() {
            Some(text) => {
                let ghost before = pairs(out@);
                out.push((object.name_at(i).clone(), text.clone()));
                assert(pairs(out@) =~= before.push((docs[i as int].0, text@)));
            },
            None => {
                proof {
                    lemma_read_pairs_prefix(docs, i + 1);
                }
                return None;
            },
        }
        i = i + 1;
    }
    assert(docs.take(docs.len() as int) =~= docs);
    Some(out)
}

/// Response headers that may be absent or `null`.
pub open spec fn read_headers(doc: JsonView, name: Seq<char>) -> Result<Option<Pairs>, Words> {
    match doc.at(name) {
        JsonView::Null => Ok(None),
        JsonView::Object(fields) => match read_pairs(fields) {
            Some(list) => Ok(Some(list)),
            None => Err(wrong(name)),
        },
        _ => Err(wrong(name)),
    }
}

fn get_headers(json: &Json, name: &str) -> (r: Result<Option<Vec<(String, String)>>, String>)
    ensures
        read_headers(json@, name@) == (match r {
            Ok(list) => Ok(pairs_view(list)),
            Err(words) => Err(words@),
        }),
{
    broadcast use lemma_model;

    match json.get(name) {
        None => Ok(None),
        Some(Json::Null) => Ok(None),
        Some(Json::Object(object)) => match get_pairs(object) {
            Some(list) => Ok(Some(list)),
            None => Err(wrong_words(name)),
        },
        Some(_) => Err(wrong_words(name)),
    }
}

/// Tool names that may be absent or `null`.
pub open spec fn read_names(doc: JsonView, name: Seq<char>) -> Result<Option<Seq<Seq<char>>>, Words> {
    match doc.at(name) {
        JsonView::Null => Ok(None),
        JsonView::Array(items) => match read_texts(items) {
            Some(list) => Ok(Some(list)),
            None => Err(wrong(name)),
        },
        _ => Err(wrong(name)),
    }
}

fn get_names(json: &Json, name: &str) -> (r: Result<Option<Vec<String>>, String>)
    ensures
        read_names(json@, name@) == (match r {
            Ok(list) => Ok(texts_view(list)),
            Err(words) => Err(words@),
        }),
{
    broadcast use lemma_model;

    match json.get(name) {
        None => Ok(None),
        Some(Json::Null) => Ok(None),
        Some(Json::Array(items)) => match get_texts(items) {
            Some(list) => Ok(Some(list)),
            None => Err(wrong_words(name)),
        },
        Some(_) => Err(wrong_words(name)),
    }
}

pub open spec fn read_api_call(doc: JsonView) -> Result<ApiCallErrorView, Words> {
    match (read_text(doc, "message"@), read_text(doc, "url"@), read_any(doc, "request_body_values"@)) {
        (Err(words), _, _) => Err(words),
        (_, Err(words), _) => Err(words),
        (_, _, Err(words)) => Err(words),
        (Ok(message), Ok(url), Ok(request_body_values)) => match (
            read_status(doc, "status_code"@),
            read_headers(doc, "response_headers"@),
            read_text_option(doc, "response_body"@),
        ) {
            (Err(words), _, _) => Err(words),
            (_, Err(words), _) => Err(words),
            (_, _, Err(words)) => Err(words),
            (Ok(status_code), Ok(response_headers), Ok(response_body)) => match (
                read_text_option(doc, "provider_code"@),
                read_bool(doc, "is_retryable"@),
            ) {
                (Err(words), _) => Err(words),
                (_, Err(words)) => Err(words),
                (Ok(provider_code), Ok(is_retryable)) => Ok(
                    ApiCallErrorView {
                        message,
                        url,
                        request_body_values,
                        status_code,
                        response_headers,
                        response_body,
                        provider_code,
                        data: read_any_option(doc, "data"@),
                        is_retryable,
                    },
                ),
            },
        },
    }
}

fn get_api_call(json: &Json) -> (r: Result<ApiCallError, String>)
    ensures
        read_api_call(json@) == (match r {
            Ok(detail) => Ok(detail@),
            Err(words) => Err(words@),
        }),
{
    let message = match get_text(json, "message") {
        Ok(value) => value,
        Err(words) => {
            return Err(words);
        },
    };
    let url = match get_text(json, "url") {
        Ok(value) => value,
        Err(words) => {
            return Err(words);
        },
    };
    let request_body_values = match get_any(json, "request_body_values") {
        Ok(value) => value,
        Err(words) => {
            return Err(words);
        },
    };
    let status_code = match get_status(json, "status_code") {
        Ok(value) => value,
        Err(words) => {
            return Err(words);
        },
    };
    let response_headers = match get_headers(json, "response_headers") {
        Ok(value) => value,
        Err(words) => {
            return Err(words);
        },
    };
    let response_body = match get_text_option(json, "response_body") {
        Ok(value) => value,
        Err(words) => {
            return Err(words);
        },
    };
    let provider_code = match get_text_option(json, "provider_code") {
        Ok(value) => value,
        Err(words) => {
            return Err(words);
        },
    };
    let is_retryable = match get_bool(json, "is_retryable") {
        Ok(value) => value,
        Err(words) => {
            return Err(words);
        },
    };
    let data = get_any_option(json, "data");
    Ok(
        ApiCallError {
            message,
            url,
            request_body_values,
            status_code,
            response_headers,
            response_body,
            provider_code,
            data,
            is_retryable,
        },
    )
}

/// The errors that carry one text.
pub open spec fn text_error(tag: Seq<char>, text: Seq<char>) -> Option<AiMuxErrorView> {
    if tag == "JsonParse"@ {
        Some(AiMuxErrorView::JsonParse(text))
    } else if tag == "InvalidResponseData"@ {
        Some(AiMuxErrorView::InvalidResponseData(text))
    } else if tag == "InvalidArgument"@ {
        Some(AiMuxErrorView::InvalidArgument(text))
    } else if tag == "InvalidPrompt"@ {
        Some(AiMuxErrorView::InvalidPrompt(text))
    } else if tag == "TokenExpired"@ {
        Some(AiMuxErrorView::TokenExpired(text))
    } else if tag == "UnsupportedFunctionality"@ {
        Some(AiMuxErrorView::UnsupportedFunctionality(text))
    } else if tag == "Timeout"@ {
        Some(AiMuxErrorView::Timeout(text))
    } else if tag == "Aborted"@ {
        Some(AiMuxErrorView::Aborted(text))
    } else if tag == "Other"@ {
        Some(AiMuxErrorView::Other(text))
    } else {
        None
    }
}

fn make_text_error(tag: &str, text: &str) -> (r: Option<AiMuxError>)
    ensures
        error_view(r) == text_error(tag@, text@),
{
    if same_text(tag, "JsonParse") {
        Some(AiMuxError::JsonParse(text.to_owned()))
    } else if same_text(tag, "InvalidResponseData") {
        Some(AiMuxError::InvalidResponseData(text.to_owned()))
    } else if same_text(tag, "InvalidArgument") {
        Some(AiMuxError::InvalidArgument(text.to_owned()))
    } else if same_text(tag, "InvalidPrompt") {
        Some(AiMuxError::InvalidPrompt(text.to_owned()))
    } else if same_text(tag, "TokenExpired") {
        Some(AiMuxError::TokenExpired(text.to_owned()))
    } else if same_text(tag, "UnsupportedFunctionality") {
        Some(AiMuxError::UnsupportedFunctionality(text.to_owned()))
    } else if same_text(tag, "Timeout") {
        Some(AiMuxError::Timeout(text.to_owned()))
    } else if same_text(tag, "Aborted") {
        Some(AiMuxError::Aborted(text.to_owned()))
    } else if same_text(tag, "Other") {
        Some(AiMuxError::Other(text.to_owned()))
    } else {
        None
    }
}

pub open spec fn not_an_error() -> Words {
    "expected one error variant"@
}

/// The errors whose facts are texts.
pub open spec fn record_error(tag: Seq<char>, body: JsonView) -> Result<AiMuxErrorView, Words> {
    if tag == "ApiCall"@ {
        match read_api_call(body) {
            Ok(detail) => Ok(AiMuxErrorView::ApiCall(detail)),
            Err(words) => Err(words),
        }
    } else if tag == "NoSuchTool"@ {
        match (read_text(body, "tool_name"@), read_names(body, "available_tools"@), read_text_option(
            body,
            "tool_input"@,
        )) {
            (Err(words), _, _) => Err(words),
            (_, Err(words), _) => Err(words),
            (_, _, Err(words)) => Err(words),
            (Ok(tool_name), Ok(available_tools), Ok(tool_input)) => Ok(
                AiMuxErrorView::NoSuchTool { tool_name, available_tools, tool_input },
            ),
        }
    } else if tag == "InvalidToolInput"@ {
        match (read_text(body, "tool_name"@), read_text(body, "tool_input"@), read_text(body, "cause"@)) {
            (Err(words), _, _) => Err(words),
            (_, Err(words), _) => Err(words),
            (_, _, Err(words)) => Err(words),
            (Ok(tool_name), Ok(tool_input), Ok(cause)) => Ok(
                AiMuxErrorView::InvalidToolInput { tool_name, tool_input, cause },
            ),
        }
    } else if tag == "NoSuchModel"@ {
        match (read_text(body, "model_id"@), read_text(body, "model_type"@)) {
            (Err(words), _) => Err(words),
            (_, Err(words)) => Err(words),
            (Ok(model_id), Ok(model_type)) => Ok(AiMuxErrorView::NoSuchModel { model_id, model_type }),
        }
    } else if tag == "NoSuchProvider"@ {
        match read_text(body, "provider_id"@) {
            Ok(provider_id) => Ok(AiMuxErrorView::NoSuchProvider { provider_id }),
            Err(words) => Err(words),
        }
    } else {
        Err(not_an_error())
    }
}

/// The view of a decoded error.
pub open spec fn error_result(r: Result<AiMuxError, String>) -> Result<AiMuxErrorView, Words> {
    match r {
        Ok(error) => Ok(error@),
        Err(words) => Err(words@),
    }
}

fn make_record_error(tag: &str, body: &Json) -> (r: Result<AiMuxError, String>)
    ensures
        error_result(r) == record_error(tag@, body@),
{
    if same_text(tag, "ApiCall") {
        match get_api_call(body) {
            Ok(detail) => Ok(AiMuxError::ApiCall(Box::new(detail))),
            Err(words) => Err(words),
        }
    } else if same_text(tag, "NoSuchTool") {
        let tool_name = match get_text(body, "tool_name") {
            Ok(value) => value,
            Err(words) => {
                return Err(words);
            },
        };
        let available_tools = match get_names(body, "available_tools") {
            Ok(value) => value,
            Err(words) => {
                return Err(words);
            },
        };
        let tool_input = match get_text_option(body, "tool_input") {
            Ok(value) => value,
            Err(words) => {
                return Err(words);
            },
        };
        Ok(AiMuxError::NoSuchTool { tool_name, available_tools, tool_input })
    } else if same_text(tag, "InvalidToolInput") {
        let tool_name = match get_text(body, "tool_name") {
            Ok(value) => value,
            Err(words) => {
                return Err(words);
            },
        };
        let tool_input = match get_text(body, "tool_input") {
            Ok(value) => value,
            Err(words) => {
                return Err(words);
            },
        };
        let cause = match get_text(body, "cause") {
            Ok(value) => value,
            Err(words) => {
                return Err(words);
            },
        };
        Ok(AiMuxError::InvalidToolInput { tool_name, tool_input, cause })
    } else if same_text(tag, "NoSuchModel") {
        let model_id = match get_text(body, "model_id") {
            Ok(value) => value,
            Err(words) => {
                return Err(words);
            },
        };
        let model_type = match get_text(body, "model_type") {
            Ok(value) => value,
            Err(words) => {
                return Err(words);
            },
        };
        Ok(AiMuxError::NoSuchModel { model_id, model_type })
    } else if same_text(tag, "NoSuchProvider") {
        match get_text(body, "provider_id") {
            Ok(provider_id) => Ok(AiMuxError::NoSuchProvider { provider_id }),
            Err(words) => Err(words),
        }
    } else {
        Err("expected one error variant".to_owned())
    }
}

pub open spec fn reason_of(name: Seq<char>) -> Result<RetryErrorReason, Words> {
    if name == "maxRetriesExceeded"@ {
        Ok(RetryErrorReason::MaxRetriesExceeded)
    } else if name == "errorNotRetryable"@ {
        Ok(RetryErrorReason::ErrorNotRetryable)
    } else {
        Err(wrong("reason"@))
    }
}

/// An error read back from its variant's name and what the variant carries.
pub open spec fn read_error(doc: JsonView) -> Result<AiMuxErrorView, Words>
    decreases doc,
{
    match doc {
        JsonView::Object(fields) if fields.len() == 1 => {
            let tag = fields[0].0;
            let body = fields[0].1;
            proof {
                lemma_field_smaller(body, "original_error"@);
                lemma_field_smaller(body, "cause"@);
                lemma_field_smaller(body, "errors"@);
                assert(decreases_to!(doc => doc->Object_0));
                assert(decreases_to!(fields => fields[0]));
                assert(decreases_to!(fields[0] => fields[0].1));
            }
            if let JsonView::String(text) = body {
                match text_error(tag, text) {
                    Some(error) => Ok(error),
                    None => Err(not_an_error()),
                }
            } else if tag == "ToolCallRepair"@ {
                match (body.field("original_error"@), body.field("cause"@)) {
                    (None, _) => Err(missing("original_error"@)),
                    (_, None) => Err(missing("cause"@)),
                    (Some(original), Some(cause)) => match (read_error(original), read_error(cause)) {
                        (Err(words), _) => Err(words),
                        (_, Err(words)) => Err(words),
                        (Ok(original), Ok(cause)) => Ok(
                            AiMuxErrorView::ToolCallRepair {
                                original_error: Box::new(original),
                                cause: Box::new(cause),
                            },
                        ),
                    },
                }
            } else if tag == "Retry"@ {
                match read_text(body, "reason"@) {
                    Err(words) => Err(words),
                    Ok(name) => match reason_of(name) {
                        Err(words) => Err(words),
                        Ok(reason) => match body.field("errors"@) {
                            Some(JsonView::Array(items)) => match read_errors(items) {
                                Ok(list) => Ok(AiMuxErrorView::Retry(reason, list)),
                                Err(words) => Err(words),
                            },
                            Some(_) => Err(wrong("errors"@)),
                            None => Err(missing("errors"@)),
                        },
                    },
                }
            } else {
                record_error(tag, body)
            }
        },
        _ => Err(not_an_error()),
    }
}

/// Errors one by one; the first that cannot be read decides.
pub open spec fn read_errors(items: Seq<JsonView>) -> Result<Seq<AiMuxErrorView>, Words>
    decreases items,
{
    if items.len() == 0 {
        Ok(Seq::empty())
    } else {
        match read_errors(items.drop_last()) {
            Err(words) => Err(words),
            Ok(list) => match read_error(items.last()) {
                Ok(error) => Ok(list.push(error)),
                Err(words) => Err(words),
            },
        }
    }
}

proof fn lemma_read_errors_prefix(items: Seq<JsonView>, k: int)
    requires
        0 <= k <= items.len(),
        read_errors(items.take(k)) is Err,
    ensures
        read_errors(items) == read_errors(items.take(k)),
    decreases items.len() - k,
{
    if k < items.len() {
        assert(items.take(k + 1).drop_last() =~= items.take(k));
        lemma_read_errors_prefix(items, k + 1);
    } else {
        assert(items.take(k) =~= items);
    }
}

fn get_errors(items: &Vec<Json>) -> (r: Result<Vec<AiMuxError>, String>)
    ensures
        read_errors(documents(items@)) == (match r {
            Ok(list) => Ok(errors(list@)),
            Err(words) => Err(words@),
        }),
    decreases documents(items@),
{
    let ghost docs = documents(items@);
    let mut out: Vec<AiMuxError> = Vec::new();
    let mut i: usize = 0;
    assert(docs.take(0) =~= Seq::empty());
    assert(errors(out@) =~= Seq::empty());
    while i < items.len()
        invariant
            i <= items.len(),
            docs == documents(items@),
            read_errors(docs.take(i as int)) == Ok::<Seq<AiMuxErrorView>, Words>(errors(out@)),
        decreases items.len() - i,
    {
        assert(docs.take(i + 1).drop_last() =~= docs.take(i as int));
        assert(decreases_to!(docs => docs[i as int]));
        match get_error(&items[i]) {
            Ok(error) => {
                let ghost before = errors(out@);
                let ghost said = error@;
                out.push(error);
                assert(errors(out@) =~= before.push(said));
            },
            Err(words) => {
                proof {
                    lemma_read_errors_prefix(docs, i + 1);
                }
                return Err(words);
            },
        }
        i = i + 1;
    }
    assert(docs.take(docs.len() as int) =~= docs);
    Ok(out)
}

pub fn get_error(json: &Json) -> (r: Result<AiMuxError, String>)
    ensures
        error_result(r) == read_error(json@),
    decreases json@,
{
    broadcast use lemma_model;

    match json {
        Json::Object(object) => {
            if object.len() != 1 {
                return Err("expected one error variant".to_owned());
            }
            let tag = object.name_at(0).as_str();
            let body = object.value_at(0);
            proof {
                let fields = object@;
                lemma_field_smaller(body@, "original_error"@);
                lemma_field_smaller(body@, "cause"@);
                lemma_field_smaller(body@, "errors"@);
                assert(decreases_to!(json@ => json@->Object_0));
                assert(decreases_to!(fields => fields[0]));
                assert(decreases_to!(fields[0] => fields[0].1));
            }
            if let Json::String(text) = body {
                return match make_text_error(tag, text.as_str()) {
                    Some(error) => Ok(error),
                    None => Err("expected one error variant".to_owned()),
                };
            }
            if same_text(tag, "ToolCallRepair") {
                let original_json = match body.get("original_error") {
                    Some(value) => value,
                    None => {
                        return Err(missing_words("original_error"));
                    },
                };
                let cause_json = match body.get("cause") {
                    Some(value) => value,
                    None => {
                        return Err(missing_words("cause"));
                    },
                };
                let original = match get_error(original_json) {
                    Ok(value) => value,
                    Err(words) => {
                        return Err(words);
                    },
                };
                let cause = match get_error(cause_json) {
                    Ok(value) => value,
                    Err(words) => {
                        return Err(words);
                    },
                };
                return Ok(
                    AiMuxError::ToolCallRepair { original_error: Box::new(original), cause: Box::new(cause) },
                );
            }
            if same_text(tag, "Retry") {
                let name = match get_text(body, "reason") {
                    Ok(value) => value,
                    Err(words) => {
                        return Err(words);
                    },
                };
                let reason = if same_text(name.as_str(), "maxRetriesExceeded") {
                    RetryErrorReason::MaxRetriesExceeded
                } else if same_text(name.as_str(), "errorNotRetryable") {
                    RetryErrorReason::ErrorNotRetryable
                } else {
                    return Err(wrong_words("reason"));
                };
                return match body.get("errors") {
                    Some(Json::Array(items)) => match get_errors(items) {
                        Ok(list) => {
                            let retry = RetryError { reason, errors: list };
                            proof {
                                crate::error::lemma_retry_model(retry);
                            }
                            Ok(AiMuxError::Retry(retry))
                        },
                        Err(words) => Err(words),
                    },
                    Some(_) => Err(wrong_words("errors")),
                    None => Err(missing_words("errors")),
                };
            }
            make_record_error(tag, body)
        },
        _ => Err("expected one error variant".to_owned()),
    }
}

/// A call's error, which may be absent or `null`.
pub open spec fn read_error_option(doc: JsonView, name: Seq<char>) -> Result<Option<AiMuxErrorView>, Words> {
    match doc.at(name) {
        JsonView::Null => Ok(None),
        value => match read_error(value) {
            Ok(error) => Ok(Some(error)),
            Err(words) => Err(words),
        },
    }
}

fn get_error_option(json: &Json, name: &str) -> (r: Result<Option<AiMuxError>, String>)
    ensures
        read_error_option(json@, name@) == (match r {
            Ok(error) => Ok(error_view(error)),
            Err(words) => Err(words@),
        }),
{
    broadcast use lemma_model;

    match json.get(name) {
        None => Ok(None),
        Some(Json::Null) => Ok(None),
        Some(value) => match get_error(value) {
            Ok(error) => Ok(Some(error)),
            Err(words) => Err(words),
        },
    }
}

/// A parsed call read back from its shape.
pub open spec fn read_call(doc: JsonView) -> Result<ToolCallView, Words> {
    match (read_text(doc, "tool_call_id"@), read_text(doc, "tool_name"@), read_any(doc, "input"@)) {
        (Err(words), _, _) => Err(words),
        (_, Err(words), _) => Err(words),
        (_, _, Err(words)) => Err(words),
        (Ok(tool_call_id), Ok(tool_name), Ok(input)) => match (
            read_bool_option(doc, "provider_executed"@),
            read_bool_option(doc, "dynamic"@),
            read_text_option(doc, "thought_signature"@),
        ) {
            (Err(words), _, _) => Err(words),
            (_, Err(words), _) => Err(words),
            (_, _, Err(words)) => Err(words),
            (Ok(provider_executed), Ok(dynamic), Ok(thought_signature)) => match (
                read_bool_option(doc, "invalid"@),
                read_error_option(doc, "error"@),
            ) {
                (Err(words), _) => Err(words),
                (_, Err(words)) => Err(words),
                (Ok(invalid), Ok(error)) => Ok(
                    ToolCallView {
                        tool_call_id,
                        tool_name,
                        input,
                        provider_executed,
                        dynamic,
                        thought_signature,
                        provider_metadata: read_any_option(doc, "provider_metadata"@),
                        invalid,
                        error,
                    },
                ),
            },
        },
    }
}

pub fn get_call(json: &Json) -> (r: Result<ToolCall, String>)
    ensures
        read_call(json@) == (match r {
            Ok(call) => Ok(call@),
            Err(words) => Err(words@),
        }),
{
    let tool_call_id = match get_text(json, "tool_call_id") {
        Ok(value) => value,
        Err(words) => {
            return Err(words);
        },
    };
    let tool_name = match get_text(json, "tool_name") {
        Ok(value) => value,
        Err(words) => {
            return Err(words);
        },
    };
    let input = match get_any(json, "input") {
        Ok(value) => value,
        Err(words) => {
            return Err(words);
        },
    };
    let provider_executed = match get_bool_option(json, "provider_executed") {
        Ok(value) => value,
        Err(words) => {
            return Err(words);
        },
    };
    let dynamic = match get_bool_option(json, "dynamic") {
        Ok(value) => value,
        Err(words) => {
            return Err(words);
        },
    };
    let thought_signature = match get_text_option(json, "thought_signature") {
        Ok(value) => value,
        Err(words) => {
            return Err(words);
        },
    };
    let invalid = match get_bool_option(json, "invalid") {
        Ok(value) => value,
        Err(words) => {
            return Err(words);
        },
    };
    let error = match get_error_option(json, "error") {
        Ok(value) => value,
        Err(words) => {
            return Err(words);
        },
    };
    let provider_metadata = get_any_option(json, "provider_metadata");
    Ok(
        ToolCall {
            tool_call_id,
            tool_name,
            input,
            provider_executed,
            dynamic,
            thought_signature,
            provider_metadata,
            invalid,
            error,
        },
    )
}

} // verus!
