//! The JSON shapes in which calls, tools, messages and errors cross to a host.
use crate::error::{
    copy_json, json_view, pairs, AiMuxError, AiMuxErrorView, ApiCallError, ApiCallErrorView, Pairs,
    RetryErrorReason,
};
use crate::json::{documents, lemma_model, put, put_some, Json, JsonObject, JsonView, NumberView};
use crate::json_text::{number_from, text_view};
use crate::message::{
    messages_view, parts_view, ContentPart, ContentPartView, LanguageModelPromptMessage, MessageContent,
    MessageContentView, ModelMessage, ModelMessageView, PromptMessageView, Role,
};
use crate::text::texts;
use crate::tool::{
    tools_view, RawToolCall, RawToolCallView, Tool, ToolCall, ToolCallView, ToolChoice, ToolChoiceView, ToolView,
};
use vstd::prelude::*;
use vstd::string::*;

verus! {

pub type Fields = Seq<(Seq<char>, JsonView)>;

pub open spec fn no_fields() -> Fields {
    Seq::empty()
}

pub open spec fn text_doc(text: Option<Seq<char>>) -> Option<JsonView> {
    match text {
        Some(text) => Some(JsonView::String(text)),
        None => None,
    }
}

pub open spec fn bool_doc(value: Option<bool>) -> Option<JsonView> {
    match value {
        Some(value) => Some(JsonView::Bool(value)),
        None => None,
    }
}

/// A value that is written as `null` when absent.
pub open spec fn or_null(value: Option<JsonView>) -> JsonView {
    match value {
        Some(value) => value,
        None => JsonView::Null,
    }
}

pub open spec fn natural_doc(n: u64) -> JsonView {
    JsonView::Number(NumberView::PosInt(n))
}

pub fn json_string(text: &str) -> (r: Json)
    ensures
        r@ == JsonView::String(text@),
{
    Json::string(text)
}

pub fn json_text_option(text: &Option<String>) -> (r: Option<Json>)
    ensures
        json_view(r) == text_doc(text_view(*text)),
{
    match text {
        Some(text) => Some(Json::string(text.as_str())),
        None => None,
    }
}

pub fn json_bool_option(value: Option<bool>) -> (r: Option<Json>)
    ensures
        json_view(r) == bool_doc(value),
{
    broadcast use lemma_model;

    match value {
        Some(value) => Some(Json::Bool(value)),
        None => None,
    }
}

pub fn json_or_null(value: Option<Json>) -> (r: Json)
    ensures
        r@ == or_null(json_view(value)),
{
    broadcast use lemma_model;

    match value {
        Some(value) => value,
        None => Json::Null,
    }
}

pub fn json_natural(n: u64) -> (r: Json)
    ensures
        r@ == natural_doc(n),
{
    broadcast use lemma_model;

    Json::Number(number_from(n))
}

pub fn json_object(object: JsonObject) -> (r: Json)
    ensures
        r@ == JsonView::Object(object@),
{
    broadcast use lemma_model;

    Json::Object(object)
}

pub fn json_array(items: Vec<Json>) -> (r: Json)
    ensures
        r@ == JsonView::Array(documents(items@)),
{
    broadcast use lemma_model;

    Json::Array(items)
}

/// A list of texts as an array of strings.
pub open spec fn texts_doc(list: Seq<Seq<char>>) -> JsonView {
    JsonView::Array(Seq::new(list.len(), |i: int| JsonView::String(list[i])))
}

pub fn json_texts(list: &Vec<String>) -> (r: Json)
    ensures
        r@ == texts_doc(texts(list@)),
{
    let mut out: Vec<Json> = Vec::new();
    let mut i: usize = 0;
    while i < list.len()
        invariant
            i <= list.len(),
            out.len() == i,
            forall|k: int| 0 <= k < i ==> (#[trigger] out@[k])@ == JsonView::String(list@[k]@),
        decreases list.len() - i,
    {
        out.push(Json::string(list[i].as_str()));
        i = i + 1;
    }
    assert(documents(out@) =~= texts_doc(texts(list@))->Array_0);
    json_array(out)
}

/// A raw call. Absent facts are left out.
pub open spec fn raw_call_doc(call: RawToolCallView) -> JsonView {
    let f = put(no_fields(), "tool_call_id"@, JsonView::String(call.tool_call_id));
    let f = put(f, "tool_name"@, JsonView::String(call.tool_name));
    let f = put(f, "input"@, JsonView::String(call.input));
    let f = put_some(f, "provider_executed"@, bool_doc(call.provider_executed));
    let f = put_some(f, "dynamic"@, bool_doc(call.dynamic));
    let f = put_some(f, "thought_signature"@, text_doc(call.thought_signature));
    let f = put_some(f, "provider_metadata"@, call.provider_metadata);
    JsonView::Object(f)
}

pub fn raw_call_json(call: &RawToolCall) -> (r: Json)
    ensures
        r@ == raw_call_doc(call@),
{
    json_object(
        JsonObject::new().with("tool_call_id", json_string(call.tool_call_id.as_str())).with(
            "tool_name",
            json_string(call.tool_name.as_str()),
        ).with("input", json_string(call.input.as_str())).with_some(
            "provider_executed",
            json_bool_option(call.provider_executed),
        ).with_some("dynamic", json_bool_option(call.dynamic)).with_some(
            "thought_signature",
            json_text_option(&call.thought_signature),
        ).with_some("provider_metadata", copy_json(&call.provider_metadata)),
    )
}

/// Name/value pairs as an object; a later pair replaces an earlier one of the
/// same name.
pub open spec fn pairs_fields(list: Pairs) -> Fields
    decreases list.len(),
{
    if list.len() == 0 {
        no_fields()
    } else {
        put(pairs_fields(list.drop_last()), list.last().0, JsonView::String(list.last().1))
    }
}

pub open spec fn pairs_doc(list: Option<Pairs>) -> Option<JsonView> {
    match list {
        Some(list) => Some(JsonView::Object(pairs_fields(list))),
        None => None,
    }
}

pub fn json_pairs(list: &Vec<(String, String)>) -> (r: Json)
    ensures
        r@ == JsonView::Object(pairs_fields(pairs(list@))),
{
    let mut object = JsonObject::new();
    let mut i: usize = 0;
    assert(pairs(list@).take(0) =~= Seq::empty());
    while i < list.len()
        invariant
            i <= list.len(),
            object@ == pairs_fields(pairs(list@).take(i as int)),
        decreases list.len() - i,
    {
        assert(pairs(list@).take(i + 1).drop_last() =~= pairs(list@).take(i as int));
        object = object.with(list[i].0.as_str(), Json::string(list[i].1.as_str()));
        i = i + 1;
    }
    assert(pairs(list@).take(list@.len() as int) =~= pairs(list@));
    json_object(object)
}

pub open spec fn reason_name(reason: RetryErrorReason) -> Seq<char> {
    match reason {
        RetryErrorReason::MaxRetriesExceeded => "maxRetriesExceeded"@,
        RetryErrorReason::ErrorNotRetryable => "errorNotRetryable"@,
    }
}

pub fn reason_text(reason: RetryErrorReason) -> (r: &'static str)
    ensures
        r@ == reason_name(reason),
{
    match reason {
        RetryErrorReason::MaxRetriesExceeded => "maxRetriesExceeded",
        RetryErrorReason::ErrorNotRetryable => "errorNotRetryable",
    }
}

pub open spec fn status_doc(status: Option<u16>) -> Option<JsonView> {
    match status {
        Some(status) => Some(natural_doc(status as u64)),
        None => None,
    }
}

pub open spec fn api_call_doc(detail: ApiCallErrorView) -> JsonView {
    let f = put(no_fields(), "message"@, JsonView::String(detail.message));
    let f = put(f, "url"@, JsonView::String(detail.url));
    let f = put(f, "request_body_values"@, detail.request_body_values);
    let f = put(f, "status_code"@, or_null(status_doc(detail.status_code)));
    let f = put(f, "response_headers"@, or_null(pairs_doc(detail.response_headers)));
    let f = put(f, "response_body"@, or_null(text_doc(detail.response_body)));
    let f = put(f, "provider_code"@, or_null(text_doc(detail.provider_code)));
    let f = put(f, "data"@, or_null(detail.data));
    let f = put(f, "is_retryable"@, JsonView::Bool(detail.is_retryable));
    JsonView::Object(f)
}

pub fn api_call_json(detail: &ApiCallError) -> (r: Json)
    ensures
        r@ == api_call_doc(detail@),
{
    broadcast use lemma_model;

    let status: Option<Json> = match detail.status_code {
        Some(status) => Some(json_natural(status as u64)),
        None => None,
    };
    let headers: Option<Json> = match &detail.response_headers {
        Some(list) => Some(json_pairs(list)),
        None => None,
    };
    json_object(
        JsonObject::new().with("message", json_string(detail.message.as_str())).with(
            "url",
            json_string(detail.url.as_str()),
        ).with("request_body_values", detail.request_body_values.copy()).with(
            "status_code",
            json_or_null(status),
        ).with("response_headers", json_or_null(headers)).with(
            "response_body",
            json_or_null(json_text_option(&detail.response_body)),
        ).with("provider_code", json_or_null(json_text_option(&detail.provider_code))).with(
            "data",
            json_or_null(copy_json(&detail.data)),
        ).with("is_retryable", Json::Bool(detail.is_retryable)),
    )
}

/// One tag and what it carries.
pub open spec fn tagged(tag: Seq<char>, value: JsonView) -> JsonView {
    JsonView::Object(put(no_fields(), tag, value))
}

pub fn json_tagged(tag: &str, value: Json) -> (r: Json)
    ensures
        r@ == tagged(tag@, value@),
{
    json_object(JsonObject::new().with(tag, value))
}

pub open spec fn names_doc(list: Option<Seq<Seq<char>>>) -> Option<JsonView> {
    match list {
        Some(list) => Some(texts_doc(list)),
        None => None,
    }
}

/// An error: its variant's name, and what the variant carries.
pub open spec fn error_doc(error: AiMuxErrorView) -> JsonView
    decreases error,
{
    match error {
        AiMuxErrorView::ApiCall(detail) => tagged("ApiCall"@, api_call_doc(detail)),
        AiMuxErrorView::Retry(reason, list) => {
            let f = put(no_fields(), "reason"@, JsonView::String(reason_name(reason)));
            tagged("Retry"@, JsonView::Object(put(f, "errors"@, JsonView::Array(error_docs(list)))))
        },
        AiMuxErrorView::JsonParse(text) => tagged("JsonParse"@, JsonView::String(text)),
        AiMuxErrorView::InvalidResponseData(text) => tagged("InvalidResponseData"@, JsonView::String(text)),
        AiMuxErrorView::NoSuchTool { tool_name, available_tools, tool_input } => {
            let f = put(no_fields(), "tool_name"@, JsonView::String(tool_name));
            let f = put(f, "available_tools"@, or_null(names_doc(available_tools)));
            let f = put(f, "tool_input"@, or_null(text_doc(tool_input)));
            tagged("NoSuchTool"@, JsonView::Object(f))
        },
        AiMuxErrorView::InvalidToolInput { tool_name, tool_input, cause } => {
            let f = put(no_fields(), "tool_name"@, JsonView::String(tool_name));
            let f = put(f, "tool_input"@, JsonView::String(tool_input));
            let f = put(f, "cause"@, JsonView::String(cause));
            tagged("InvalidToolInput"@, JsonView::Object(f))
        },
        AiMuxErrorView::ToolCallRepair { original_error, cause } => {
            let f = put(no_fields(), "original_error"@, error_doc(*original_error));
            let f = put(f, "cause"@, error_doc(*cause));
            tagged("ToolCallRepair"@, JsonView::Object(f))
        },
        AiMuxErrorView::InvalidArgument(text) => tagged("InvalidArgument"@, JsonView::String(text)),
        AiMuxErrorView::InvalidPrompt(text) => tagged("InvalidPrompt"@, JsonView::String(text)),
        AiMuxErrorView::TokenExpired(text) => tagged("TokenExpired"@, JsonView::String(text)),
        AiMuxErrorView::UnsupportedFunctionality(text) => tagged(
            "UnsupportedFunctionality"@,
            JsonView::String(text),
        ),
        AiMuxErrorView::NoSuchModel { model_id, model_type } => {
            let f = put(no_fields(), "model_id"@, JsonView::String(model_id));
            let f = put(f, "model_type"@, JsonView::String(model_type));
            tagged("NoSuchModel"@, JsonView::Object(f))
        },
        AiMuxErrorView::NoSuchProvider { provider_id } => {
            tagged("NoSuchProvider"@, JsonView::Object(put(no_fields(), "provider_id"@, JsonView::String(provider_id))))
        },
        AiMuxErrorView::Timeout(text) => tagged("Timeout"@, JsonView::String(text)),
        AiMuxErrorView::Aborted(text) => tagged("Aborted"@, JsonView::String(text)),
        AiMuxErrorView::Other(text) => tagged("Other"@, JsonView::String(text)),
    }
}

/// Errors one by one.
pub open spec fn error_docs(list: Seq<AiMuxErrorView>) -> Seq<JsonView>
    decreases list,
{
    Seq::new(
        list.len(),
        |i: int|
            if 0 <= i < list.len() {
                error_doc(list[i])
            } else {
                JsonView::Null
            },
    )
}

fn errors_json(list: &Vec<AiMuxError>) -> (r: Vec<Json>)
    ensures
        r@.len() == list@.len(),
        forall|i: int| 0 <= i < r@.len() ==> (#[trigger] r@[i])@ == error_doc(list@[i]@),
    decreases list,
{
    let mut out: Vec<Json> = Vec::new();
    let mut i: usize = 0;
    while i < list.len()
        invariant
            i <= list.len(),
            out.len() == i,
            forall|k: int| 0 <= k < i ==> (#[trigger] out@[k])@ == error_doc(list@[k]@),
        decreases list.len() - i,
    {
        assert(decreases_to!(*list => list@));
        assert(decreases_to!(list@ => list@[i as int]));
        out.push(error_json(&list[i]));
        i = i + 1;
    }
    out
}

pub fn error_json(error: &AiMuxError) -> (r: Json)
    ensures
        r@ == error_doc(error@),
    decreases error,
{
    match error {
        AiMuxError::ApiCall(detail) => json_tagged("ApiCall", api_call_json(detail)),
        AiMuxError::Retry(retry) => {
            assert(decreases_to!(*error => error->Retry_0));
            assert(decreases_to!(*retry => retry.errors));
            let list = errors_json(&retry.errors);
            assert(documents(list@) =~= error_docs(error@->Retry_1));
            json_tagged(
                "Retry",
                json_object(
                    JsonObject::new().with("reason", json_string(reason_text(retry.reason))).with(
                        "errors",
                        json_array(list),
                    ),
                ),
            )
        },
        AiMuxError::JsonParse(text) => json_tagged("JsonParse", json_string(text.as_str())),
        AiMuxError::InvalidResponseData(text) => json_tagged("InvalidResponseData", json_string(text.as_str())),
        AiMuxError::NoSuchTool { tool_name, available_tools, tool_input } => {
            let names: Option<Json> = match available_tools {
                Some(list) => Some(json_texts(list)),
                None => None,
            };
            json_tagged(
                "NoSuchTool",
                json_object(
                    JsonObject::new().with("tool_name", json_string(tool_name.as_str())).with(
                        "available_tools",
                        json_or_null(names),
                    ).with("tool_input", json_or_null(json_text_option(tool_input))),
                ),
            )
        },
        AiMuxError::InvalidToolInput { tool_name, tool_input, cause } => json_tagged(
            "InvalidToolInput",
            json_object(
                JsonObject::new().with("tool_name", json_string(tool_name.as_str())).with(
                    "tool_input",
                    json_string(tool_input.as_str()),
                ).with("cause", json_string(cause.as_str())),
            ),
        ),
        AiMuxError::ToolCallRepair { original_error, cause } => json_tagged(
            "ToolCallRepair",
            json_object(
                JsonObject::new().with("original_error", error_json(original_error)).with(
                    "cause",
                    error_json(cause),
                ),
            ),
        ),
        AiMuxError::InvalidArgument(text) => json_tagged("InvalidArgument", json_string(text.as_str())),
        AiMuxError::InvalidPrompt(text) => json_tagged("InvalidPrompt", json_string(text.as_str())),
        AiMuxError::TokenExpired(text) => json_tagged("TokenExpired", json_string(text.as_str())),
        AiMuxError::UnsupportedFunctionality(text) => json_tagged(
            "UnsupportedFunctionality",
            json_string(text.as_str()),
        ),
        AiMuxError::NoSuchModel { model_id, model_type } => json_tagged(
            "NoSuchModel",
            json_object(
                JsonObject::new().with("model_id", json_string(model_id.as_str())).with(
                    "model_type",
                    json_string(model_type.as_str()),
                ),
            ),
        ),
        AiMuxError::NoSuchProvider { provider_id } => json_tagged(
            "NoSuchProvider",
            json_object(JsonObject::new().with("provider_id", json_string(provider_id.as_str()))),
        ),
        AiMuxError::Timeout(text) => json_tagged("Timeout", json_string(text.as_str())),
        AiMuxError::Aborted(text) => json_tagged("Aborted", json_string(text.as_str())),
        AiMuxError::Other(text) => json_tagged("Other", json_string(text.as_str())),
    }
}

pub open spec fn optional_error_doc(error: Option<AiMuxErrorView>) -> Option<JsonView> {
    match error {
        Some(error) => Some(error_doc(error)),
        None => None,
    }
}

/// A parsed call. Absent facts are left out.
pub open spec fn call_doc(call: ToolCallView) -> JsonView {
    let f = put(no_fields(), "tool_call_id"@, JsonView::String(call.tool_call_id));
    let f = put(f, "tool_name"@, JsonView::String(call.tool_name));
    let f = put(f, "input"@, call.input);
    let f = put_some(f, "provider_executed"@, bool_doc(call.provider_executed));
    let f = put_some(f, "dynamic"@, bool_doc(call.dynamic));
    let f = put_some(f, "thought_signature"@, text_doc(call.thought_signature));
    let f = put_some(f, "provider_metadata"@, call.provider_metadata);
    let f = put_some(f, "invalid"@, bool_doc(call.invalid));
    let f = put_some(f, "error"@, optional_error_doc(call.error));
    JsonView::Object(f)
}

pub fn call_json(call: &ToolCall) -> (r: Json)
    ensures
        r@ == call_doc(call@),
{
    let error: Option<Json> = match &call.error {
        Some(error) => Some(error_json(error)),
        None => None,
    };
    json_object(
        JsonObject::new().with("tool_call_id", json_string(call.tool_call_id.as_str())).with(
            "tool_name",
            json_string(call.tool_name.as_str()),
        ).with("input", call.input.copy()).with_some(
            "provider_executed",
            json_bool_option(call.provider_executed),
        ).with_some("dynamic", json_bool_option(call.dynamic)).with_some(
            "thought_signature",
            json_text_option(&call.thought_signature),
        ).with_some("provider_metadata", copy_json(&call.provider_metadata)).with_some(
            "invalid",
            json_bool_option(call.invalid),
        ).with_some("error", error),
    )
}

pub open spec fn tool_doc(tool: ToolView) -> JsonView {
    match tool {
        ToolView::Function { name, description, input_schema } => {
            let f = put(no_fields(), "type"@, JsonView::String("function"@));
            let f = put(f, "name"@, JsonView::String(name));
            let f = put_some(f, "description"@, text_doc(description));
            JsonView::Object(put(f, "input_schema"@, input_schema))
        },
        ToolView::Provider { id, name, args } => {
            let f = put(no_fields(), "type"@, JsonView::String("provider"@));
            let f = put(f, "id"@, JsonView::String(id));
            let f = put(f, "name"@, JsonView::String(name));
            JsonView::Object(put(f, "args"@, args))
        },
    }
}

pub fn tool_json(tool: &Tool) -> (r: Json)
    ensures
        r@ == tool_doc(tool@),
{
    match tool {
        Tool::Function(tool) => json_object(
            JsonObject::new().with("type", json_string("function")).with(
                "name",
                json_string(tool.name.as_str()),
            ).with_some("description", json_text_option(&tool.description)).with(
                "input_schema",
                tool.input_schema.copy(),
            ),
        ),
        Tool::Provider(tool) => json_object(
            JsonObject::new().with("type", json_string("provider")).with("id", json_string(tool.id.as_str())).with(
                "name",
                json_string(tool.name.as_str()),
            ).with("args", tool.args.copy()),
        ),
    }
}

pub open spec fn tools_doc(tools: Seq<ToolView>) -> JsonView {
    JsonView::Array(Seq::new(tools.len(), |i: int| tool_doc(tools[i])))
}

pub fn tools_json(tools: &[Tool]) -> (r: Json)
    ensures
        r@ == tools_doc(tools_view(tools@)),
{
    let mut out: Vec<Json> = Vec::new();
    let mut i: usize = 0;
    while i < tools.len()
        invariant
            i <= tools.len(),
            out.len() == i,
            forall|k: int| 0 <= k < i ==> (#[trigger] out@[k])@ == tool_doc(tools@[k]@),
        decreases tools.len() - i,
    {
        out.push(tool_json(&tools[i]));
        i = i + 1;
    }
    assert(documents(out@) =~= tools_doc(tools_view(tools@))->Array_0);
    json_array(out)
}

pub open spec fn choice_doc(choice: ToolChoiceView) -> JsonView {
    match choice {
        ToolChoiceView::Auto => tagged("type"@, JsonView::String("auto"@)),
        ToolChoiceView::NoTool => tagged("type"@, JsonView::String("none"@)),
        ToolChoiceView::Required => tagged("type"@, JsonView::String("required"@)),
        ToolChoiceView::Tool(name) => {
            let f = put(no_fields(), "type"@, JsonView::String("tool"@));
            JsonView::Object(put(f, "tool_name"@, JsonView::String(name)))
        },
    }
}

pub fn choice_json(choice: &ToolChoice) -> (r: Json)
    ensures
        r@ == choice_doc(choice@),
{
    match choice {
        ToolChoice::Auto => json_tagged("type", json_string("auto")),
        ToolChoice::NoTool => json_tagged("type", json_string("none")),
        ToolChoice::Required => json_tagged("type", json_string("required")),
        ToolChoice::Tool { tool_name } => json_object(
            JsonObject::new().with("type", json_string("tool")).with("tool_name", json_string(tool_name.as_str())),
        ),
    }
}

pub open spec fn role_name(role: Role) -> Seq<char> {
    match role {
        Role::System => "system"@,
        Role::User => "user"@,
        Role::Assistant => "assistant"@,
        Role::Tool => "tool"@,
    }
}

pub fn role_text(role: Role) -> (r: &'static str)
    ensures
        r@ == role_name(role),
{
    match role {
        Role::System => "system",
        Role::User => "user",
        Role::Assistant => "assistant",
        Role::Tool => "tool",
    }
}

pub open spec fn part_doc(part: ContentPartView) -> JsonView {
    match part {
        ContentPartView::Text { text, provider_options } => {
            let f = put(no_fields(), "type"@, JsonView::String("text"@));
            let f = put(f, "text"@, JsonView::String(text));
            JsonView::Object(put_some(f, "provider_options"@, provider_options))
        },
        ContentPartView::Reasoning { text, provider_options } => {
            let f = put(no_fields(), "type"@, JsonView::String("reasoning"@));
            let f = put(f, "text"@, JsonView::String(text));
            JsonView::Object(put_some(f, "provider_options"@, provider_options))
        },
        ContentPartView::ToolCall {
            tool_call_id,
            tool_name,
            input,
            provider_executed,
            thought_signature,
            provider_options,
        } => {
            let f = put(no_fields(), "type"@, JsonView::String("tool_call"@));
            let f = put(f, "tool_call_id"@, JsonView::String(tool_call_id));
            let f = put(f, "tool_name"@, JsonView::String(tool_name));
            let f = put(f, "input"@, input);
            let f = put_some(f, "provider_executed"@, bool_doc(provider_executed));
            let f = put_some(f, "thought_signature"@, text_doc(thought_signature));
            JsonView::Object(put_some(f, "provider_options"@, provider_options))
        },
        ContentPartView::ToolResult { tool_call_id, tool_name, output, is_error, provider_options } => {
            let f = put(no_fields(), "type"@, JsonView::String("tool_result"@));
            let f = put(f, "tool_call_id"@, JsonView::String(tool_call_id));
            let f = put(f, "tool_name"@, JsonView::String(tool_name));
            let f = put(f, "output"@, output);
            let f = put_some(f, "is_error"@, bool_doc(is_error));
            JsonView::Object(put_some(f, "provider_options"@, provider_options))
        },
        ContentPartView::Media { document } => document,
    }
}

pub fn part_json(part: &ContentPart) -> (r: Json)
    ensures
        r@ == part_doc(part@),
{
    match part {
        ContentPart::Text { text, provider_options } => json_object(
            JsonObject::new().with("type", json_string("text")).with("text", json_string(text.as_str())).with_some(
                "provider_options",
                copy_json(provider_options),
            ),
        ),
        ContentPart::Reasoning { text, provider_options } => json_object(
            JsonObject::new().with("type", json_string("reasoning")).with(
                "text",
                json_string(text.as_str()),
            ).with_some("provider_options", copy_json(provider_options)),
        ),
        ContentPart::ToolCall {
            tool_call_id,
            tool_name,
            input,
            provider_executed,
            thought_signature,
            provider_options,
        } => json_object(
            JsonObject::new().with("type", json_string("tool_call")).with(
                "tool_call_id",
                json_string(tool_call_id.as_str()),
            ).with("tool_name", json_string(tool_name.as_str())).with("input", input.copy()).with_some(
                "provider_executed",
                json_bool_option(*provider_executed),
            ).with_some("thought_signature", json_text_option(thought_signature)).with_some(
                "provider_options",
                copy_json(provider_options),
            ),
        ),
        ContentPart::ToolResult { tool_call_id, tool_name, output, is_error, provider_options } => json_object(
            JsonObject::new().with("type", json_string("tool_result")).with(
                "tool_call_id",
                json_string(tool_call_id.as_str()),
            ).with("tool_name", json_string(tool_name.as_str())).with("output", output.copy()).with_some(
                "is_error",
                json_bool_option(*is_error),
            ).with_some("provider_options", copy_json(provider_options)),
        ),
        ContentPart::Media { document } => document.copy(),
    }
}

pub open spec fn parts_doc(parts: Seq<ContentPartView>) -> JsonView {
    JsonView::Array(Seq::new(parts.len(), |i: int| part_doc(parts[i])))
}

pub fn parts_json(parts: &Vec<ContentPart>) -> (r: Json)
    ensures
        r@ == parts_doc(parts_view(parts@)),
{
    let mut out: Vec<Json> = Vec::new();
    let mut i: usize = 0;
    while i < parts.len()
        invariant
            i <= parts.len(),
            out.len() == i,
            forall|k: int| 0 <= k < i ==> (#[trigger] out@[k])@ == part_doc(parts@[k]@),
        decreases parts.len() - i,
    {
        out.push(part_json(&parts[i]));
        i = i + 1;
    }
    assert(documents(out@) =~= parts_doc(parts_view(parts@))->Array_0);
    json_array(out)
}

pub open spec fn message_doc(message: ModelMessageView) -> JsonView {
    let f = put(no_fields(), "role"@, JsonView::String(role_name(message.role)));
    let content = match message.content {
        MessageContentView::Text(text) => JsonView::String(text),
        MessageContentView::Parts(parts) => parts_doc(parts),
    };
    JsonView::Object(put(f, "content"@, content))
}

pub fn message_json(message: &ModelMessage) -> (r: Json)
    ensures
        r@ == message_doc(message@),
{
    let content: Json = match &message.content {
        MessageContent::Text(text) => json_string(text.as_str()),
        MessageContent::Parts(parts) => parts_json(parts),
    };
    json_object(
        JsonObject::new().with("role", json_string(role_text(message.role))).with("content", content),
    )
}

pub open spec fn messages_doc(messages: Seq<ModelMessageView>) -> JsonView {
    JsonView::Array(Seq::new(messages.len(), |i: int| message_doc(messages[i])))
}

pub fn messages_json(messages: &[ModelMessage]) -> (r: Json)
    ensures
        r@ == messages_doc(messages_view(messages@)),
{
    let mut out: Vec<Json> = Vec::new();
    let mut i: usize = 0;
    while i < messages.len()
        invariant
            i <= messages.len(),
            out.len() == i,
            forall|k: int| 0 <= k < i ==> (#[trigger] out@[k])@ == message_doc(messages@[k]@),
        decreases messages.len() - i,
    {
        out.push(message_json(&messages[i]));
        i = i + 1;
    }
    assert(documents(out@) =~= messages_doc(messages_view(messages@))->Array_0);
    json_array(out)
}

pub open spec fn prompt_message_doc(message: PromptMessageView) -> JsonView {
    let f = put(no_fields(), "role"@, JsonView::String(role_name(message.role)));
    let f = put(f, "content"@, parts_doc(message.content));
    JsonView::Object(put_some(f, "provider_options"@, message.provider_options))
}

pub fn prompt_message_json(message: &LanguageModelPromptMessage) -> (r: Json)
    ensures
        r@ == prompt_message_doc(message@),
{
    json_object(
        JsonObject::new().with("role", json_string(role_text(message.role))).with(
            "content",
            parts_json(&message.content),
        ).with_some("provider_options", copy_json(&message.provider_options)),
    )
}

} // verus!
