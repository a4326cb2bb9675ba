//! The errors of the library, and the facts that callers read off them.
use crate::json::{Json, JsonView};
use crate::json_text::text_view;
use crate::text::{copy_text, texts};
use vstd::prelude::*;
use vstd::string::*;

verus! {

/// A provider call that failed.
pub struct ApiCallError {
    pub message: String,
    pub url: String,
    pub request_body_values: Json,
    pub status_code: Option<u16>,
    pub response_headers: Option<Vec<(String, String)>>,
    pub response_body: Option<String>,
    pub provider_code: Option<String>,
    pub data: Option<Json>,
    pub is_retryable: bool,
}

#[derive(Clone, Copy, PartialEq, Eq, Structural, Debug)]
pub enum RetryErrorReason {
    MaxRetriesExceeded,
    ErrorNotRetryable,
}

/// Retrying stopped; the attempts' errors, oldest first.
pub struct RetryError {
    pub reason: RetryErrorReason,
    pub errors: Vec<AiMuxError>,
}

#[allow(inconsistent_fields)]
pub enum AiMuxError {
    ApiCall(Box<ApiCallError>),
    Retry(RetryError),
    JsonParse(String),
    InvalidResponseData(String),
    NoSuchTool {
        tool_name: String,
        available_tools: Option<Vec<String>>,
        tool_input: Option<String>,
    },
    InvalidToolInput { tool_name: String, tool_input: String, cause: String },
    ToolCallRepair { original_error: Box<AiMuxError>, cause: Box<AiMuxError> },
    InvalidArgument(String),
    InvalidPrompt(String),
    TokenExpired(String),
    UnsupportedFunctionality(String),
    NoSuchModel { model_id: String, model_type: String },
    NoSuchProvider { provider_id: String },
    Timeout(String),
    Aborted(String),
    Other(String),
}

pub type Pairs = Seq<(Seq<char>, Seq<char>)>;

#[verifier::ext_equal]
pub struct ApiCallErrorView {
    pub message: Seq<char>,
    pub url: Seq<char>,
    pub request_body_values: JsonView,
    pub status_code: Option<u16>,
    pub response_headers: Option<Pairs>,
    pub response_body: Option<Seq<char>>,
    pub provider_code: Option<Seq<char>>,
    pub data: Option<JsonView>,
    pub is_retryable: bool,
}

#[verifier::ext_equal]
#[allow(inconsistent_fields)]
pub enum AiMuxErrorView {
    ApiCall(ApiCallErrorView),
    Retry(RetryErrorReason, Seq<AiMuxErrorView>),
    JsonParse(Seq<char>),
    InvalidResponseData(Seq<char>),
    NoSuchTool {
        tool_name: Seq<char>,
        available_tools: Option<Seq<Seq<char>>>,
        tool_input: Option<Seq<char>>,
    },
    InvalidToolInput { tool_name: Seq<char>, tool_input: Seq<char>, cause: Seq<char> },
    ToolCallRepair { original_error: Box<AiMuxErrorView>, cause: Box<AiMuxErrorView> },
    InvalidArgument(Seq<char>),
    InvalidPrompt(Seq<char>),
    TokenExpired(Seq<char>),
    UnsupportedFunctionality(Seq<char>),
    NoSuchModel { model_id: Seq<char>, model_type: Seq<char> },
    NoSuchProvider { provider_id: Seq<char> },
    Timeout(Seq<char>),
    Aborted(Seq<char>),
    Other(Seq<char>),
}

/// The view of an optional document.
pub open spec fn json_view(json: Option<Json>) -> Option<JsonView> {
    match json {
        Some(json) => Some(json@),
        None => None,
    }
}

/// The views of name/value pairs.
pub open spec fn pairs(list: Seq<(String, String)>) -> Pairs {
    Seq::new(list.len(), |i: int| (list[i].0@, list[i].1@))
}

pub open spec fn pairs_view(list: Option<Vec<(String, String)>>) -> Option<Pairs> {
    match list {
        Some(list) => Some(pairs(list@)),
        None => None,
    }
}

pub open spec fn texts_view(list: Option<Vec<String>>) -> Option<Seq<Seq<char>>> {
    match list {
        Some(list) => Some(texts(list@)),
        None => None,
    }
}

impl View for ApiCallError {
    type V = ApiCallErrorView;

    open spec fn view(&self) -> ApiCallErrorView {
        ApiCallErrorView {
            message: self.message@,
            url: self.url@,
            request_body_values: self.request_body_values@,
            status_code: self.status_code,
            response_headers: pairs_view(self.response_headers),
            response_body: text_view(self.response_body),
            provider_code: text_view(self.provider_code),
            data: json_view(self.data),
            is_retryable: self.is_retryable,
        }
    }
}

impl AiMuxError {
    pub open spec fn model(self) -> AiMuxErrorView
        decreases self,
    {
        match self {
            AiMuxError::ApiCall(detail) => AiMuxErrorView::ApiCall(detail@),
            AiMuxError::Retry(retry) => AiMuxErrorView::Retry(
                retry.reason,
                Seq::new(
                    retry.errors@.len(),
                    |i: int|
                        if 0 <= i < retry.errors@.len() {
                            retry.errors@[i].model()
                        } else {
                            AiMuxErrorView::Other(Seq::empty())
                        },
                ),
            ),
            AiMuxError::JsonParse(text) => AiMuxErrorView::JsonParse(text@),
            AiMuxError::InvalidResponseData(text) => AiMuxErrorView::InvalidResponseData(text@),
            AiMuxError::NoSuchTool { tool_name, available_tools, tool_input } => AiMuxErrorView::NoSuchTool {
                tool_name: tool_name@,
                available_tools: texts_view(available_tools),
                tool_input: text_view(tool_input),
            },
            AiMuxError::InvalidToolInput { tool_name, tool_input, cause } => AiMuxErrorView::InvalidToolInput {
                tool_name: tool_name@,
                tool_input: tool_input@,
                cause: cause@,
            },
            AiMuxError::ToolCallRepair { original_error, cause } => AiMuxErrorView::ToolCallRepair {
                original_error: Box::new(original_error.model()),
                cause: Box::new(cause.model()),
            },
            AiMuxError::InvalidArgument(text) => AiMuxErrorView::InvalidArgument(text@),
            AiMuxError::InvalidPrompt(text) => AiMuxErrorView::InvalidPrompt(text@),
            AiMuxError::TokenExpired(text) => AiMuxErrorView::TokenExpired(text@),
            AiMuxError::UnsupportedFunctionality(text) => AiMuxErrorView::UnsupportedFunctionality(text@),
            AiMuxError::NoSuchModel { model_id, model_type } => AiMuxErrorView::NoSuchModel {
                model_id: model_id@,
                model_type: model_type@,
            },
            AiMuxError::NoSuchProvider { provider_id } => AiMuxErrorView::NoSuchProvider {
                provider_id: provider_id@,
            },
            AiMuxError::Timeout(text) => AiMuxErrorView::Timeout(text@),
            AiMuxError::Aborted(text) => AiMuxErrorView::Aborted(text@),
            AiMuxError::Other(text) => AiMuxErrorView::Other(text@),
        }
    }
}

impl View for AiMuxError {
    type V = AiMuxErrorView;

    open spec fn view(&self) -> AiMuxErrorView {
        self.model()
    }
}

/// The views of a list of errors.
pub open spec fn errors(list: Seq<AiMuxError>) -> Seq<AiMuxErrorView> {
    Seq::new(list.len(), |i: int| list[i]@)
}

pub open spec fn error_view(error: Option<AiMuxError>) -> Option<AiMuxErrorView> {
    match error {
        Some(error) => Some(error@),
        None => None,
    }
}

pub fn copy_texts(list: &Vec<String>) -> (r: Vec<String>)
    ensures
        texts(r@) == texts(list@),
{
    let mut out: Vec<String> = Vec::new();
    let mut i: usize = 0;
    while i < list.len()
        invariant
            i <= list.len(),
            out.len() == i,
            forall|k: int| 0 <= k < i ==> (#[trigger] out@[k])@ == list@[k]@,
        decreases list.len() - i,
    {
        out.push(list[i].clone());
        i = i + 1;
    }
    assert(texts(out@) =~= texts(list@));
    out
}

pub fn copy_pairs(list: &Vec<(String, String)>) -> (r: Vec<(String, String)>)
    ensures
        pairs(r@) == pairs(list@),
{
    let mut out: Vec<(String, String)> = Vec::new();
    let mut i: usize = 0;
    while i < list.len()
        invariant
            i <= list.len(),
            out.len() == i,
            forall|k: int|
                0 <= k < i ==> (#[trigger] out@[k]).0@ == list@[k].0@ && out@[k].1@ == list@[k].1@,
        decreases list.len() - i,
    {
        out.push((list[i].0.clone(), list[i].1.clone()));
        i = i + 1;
    }
    assert(pairs(out@) =~= pairs(list@));
    out
}

pub fn copy_json(json: &Option<Json>) -> (r: Option<Json>)
    ensures
        json_view(r) == json_view(*json),
{
    match json {
        Some(json) => Some(json.copy()),
        None => None,
    }
}

impl ApiCallError {
    /// A failure of which nothing but the request is known.
    pub fn new(message: &str, url: &str, request_body_values: Json) -> (r: ApiCallError)
        ensures
            r@ == (ApiCallErrorView {
                message: message@,
                url: url@,
                request_body_values: request_body_values@,
                status_code: None,
                response_headers: None,
                response_body: None,
                provider_code: None,
                data: None,
                is_retryable: false,
            }),
    {
        ApiCallError {
            message: message.to_owned(),
            url: url.to_owned(),
            request_body_values,
            status_code: None,
            response_headers: None,
            response_body: None,
            provider_code: None,
            data: None,
            is_retryable: false,
        }
    }

    pub fn copy(&self) -> (r: ApiCallError)
        ensures
            r@ == self@,
    {
        ApiCallError {
            message: self.message.clone(),
            url: self.url.clone(),
            request_body_values: self.request_body_values.copy(),
            status_code: self.status_code,
            response_headers: match &self.response_headers {
                Some(list) => Some(copy_pairs(list)),
                None => None,
            },
            response_body: copy_text(&self.response_body),
            provider_code: copy_text(&self.provider_code),
            data: copy_json(&self.data),
            is_retryable: self.is_retryable,
        }
    }
}

pub fn copy_errors(list: &Vec<AiMuxError>) -> (r: Vec<AiMuxError>)
    ensures
        errors(r@) == errors(list@),
    decreases list,
{
    let mut out: Vec<AiMuxError> = Vec::new();
    let mut i: usize = 0;
    while i < list.len()
        invariant
            i <= list.len(),
            out.len() == i,
            forall|k: int| 0 <= k < i ==> (#[trigger] out@[k])@ == list@[k]@,
        decreases list.len() - i,
    {
        assert(decreases_to!(*list => list@));
        assert(decreases_to!(list@ => list@[i as int]));
        out.push(list[i].copy());
        i = i + 1;
    }
    assert(errors(out@) =~= errors(list@));
    out
}

/// What a retry failure says.
pub proof fn lemma_retry_model(retry: RetryError)
    ensures
        AiMuxError::Retry(retry)@ == AiMuxErrorView::Retry(retry.reason, errors(retry.errors@)),
{
    assert(AiMuxError::Retry(retry)@->Retry_1 =~= errors(retry.errors@));
}

impl AiMuxError {
    pub fn copy(&self) -> (r: AiMuxError)
        ensures
            r@ == self@,
        decreases self,
    {
        match self {
            AiMuxError::ApiCall(detail) => AiMuxError::ApiCall(Box::new(detail.copy())),
            AiMuxError::Retry(retry) => {
                assert(decreases_to!(*self => self->Retry_0));
                assert(decreases_to!(*retry => retry.errors));
                let copied = RetryError { reason: retry.reason, errors: copy_errors(&retry.errors) };
                proof {
                    lemma_retry_model(*retry);
                    lemma_retry_model(copied);
                }
                AiMuxError::Retry(copied)
            },
            AiMuxError::JsonParse(text) => AiMuxError::JsonParse(text.clone()),
            AiMuxError::InvalidResponseData(text) => AiMuxError::InvalidResponseData(text.clone()),
            AiMuxError::NoSuchTool { tool_name, available_tools, tool_input } => AiMuxError::NoSuchTool {
                tool_name: tool_name.clone(),
                available_tools: match available_tools {
                    Some(list) => Some(copy_texts(list)),
                    None => None,
                },
                tool_input: copy_text(tool_input),
            },
            AiMuxError::InvalidToolInput { tool_name, tool_input, cause } => AiMuxError::InvalidToolInput {
                tool_name: tool_name.clone(),
                tool_input: tool_input.clone(),
                cause: cause.clone(),
            },
            AiMuxError::ToolCallRepair { original_error, cause } => AiMuxError::ToolCallRepair {
                original_error: Box::new(original_error.copy()),
                cause: Box::new(cause.copy()),
            },
            AiMuxError::InvalidArgument(text) => AiMuxError::InvalidArgument(text.clone()),
            AiMuxError::InvalidPrompt(text) => AiMuxError::InvalidPrompt(text.clone()),
            AiMuxError::TokenExpired(text) => AiMuxError::TokenExpired(text.clone()),
            AiMuxError::UnsupportedFunctionality(text) => AiMuxError::UnsupportedFunctionality(text.clone()),
            AiMuxError::NoSuchModel { model_id, model_type } => AiMuxError::NoSuchModel {
                model_id: model_id.clone(),
                model_type: model_type.clone(),
            },
            AiMuxError::NoSuchProvider { provider_id } => AiMuxError::NoSuchProvider {
                provider_id: provider_id.clone(),
            },
            AiMuxError::Timeout(text) => AiMuxError::Timeout(text.clone()),
            AiMuxError::Aborted(text) => AiMuxError::Aborted(text.clone()),
            AiMuxError::Other(text) => AiMuxError::Other(text.clone()),
        }
    }

    /// A malformed frame does not end a stream; any other error does.
    pub fn is_recoverable_stream_error(&self) -> (r: bool)
        ensures
            r == (self@ is JsonParse),
    {
        match self {
            AiMuxError::JsonParse(_) => true,
            _ => false,
        }
    }

    /// The HTTP status behind the error: the observed one of a provider call,
    /// 401 for an expired token.
    pub fn status_code(&self) -> (r: Option<u16>)
        ensures
            r == self@.status(),
    {
        match self {
            AiMuxError::ApiCall(detail) => detail.status_code,
            AiMuxError::TokenExpired(_) => Some(401),
            _ => None,
        }
    }

    /// Whether retrying may help.
    pub fn is_retryable(&self) -> (r: bool)
        ensures
            r == (self@ is ApiCall && self@->ApiCall_0.is_retryable),
    {
        match self {
            AiMuxError::ApiCall(detail) => detail.is_retryable,
            _ => false,
        }
    }

    /// The error of a cancelled request.
    pub fn aborted() -> (r: AiMuxError)
        ensures
            r@ == AiMuxErrorView::Aborted("request aborted"@),
    {
        AiMuxError::Aborted("request aborted".to_owned())
    }
}

impl AiMuxErrorView {
    pub open spec fn status(self) -> Option<u16> {
        match self {
            AiMuxErrorView::ApiCall(detail) => detail.status_code,
            AiMuxErrorView::TokenExpired(_) => Some(401),
            _ => None,
        }
    }
}

} // verus!
