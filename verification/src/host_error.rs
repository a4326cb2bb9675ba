//! Errors at the host boundary: one code space, one message, and one getter
//! per fact.
use crate::error::{errors, lemma_retry_model, AiMuxError, AiMuxErrorView};
use crate::error_text::{error_words, retry_hint};
use crate::json_text::{json_print, print_json, text_view};
use crate::text::{copy_text, join2, join3, nul_free, without_nul};
use crate::wire::{
    error_doc, error_json, json_pairs, json_texts, pairs_doc, reason_name, reason_text, texts_doc,
};
use vstd::prelude::*;
use vstd::string::*;

verus! {

pub const AIMUX_OK: i32 = 0;

pub const AIMUX_E_OTHER: i32 = 1;

pub const AIMUX_E_JSON_PARSE: i32 = 2;

pub const AIMUX_E_INVALID_RESPONSE_DATA: i32 = 3;

pub const AIMUX_E_INVALID_ARGUMENT: i32 = 5;

pub const AIMUX_E_INVALID_PROMPT: i32 = 6;

pub const AIMUX_E_TOKEN_EXPIRED: i32 = 7;

pub const AIMUX_E_UNSUPPORTED_FUNCTIONALITY: i32 = 8;

pub const AIMUX_E_NO_SUCH_MODEL: i32 = 9;

pub const AIMUX_E_NO_SUCH_PROVIDER: i32 = 10;

pub const AIMUX_E_API_CALL: i32 = 11;

pub const AIMUX_E_TIMEOUT: i32 = 12;

pub const AIMUX_E_ABORTED: i32 = 13;

pub const AIMUX_E_RETRY: i32 = 14;

pub const AIMUX_E_NO_SUCH_TOOL: i32 = 15;

pub const AIMUX_E_INVALID_TOOL_INPUT: i32 = 16;

pub const AIMUX_E_TOOL_CALL_REPAIR: i32 = 17;

pub const AIMUX_E_RECORDING_INIT: i32 = 100;

pub const AIMUX_E_RECORDING_OPEN_FILE: i32 = 101;

pub const AIMUX_E_RECORDING_SPAWN: i32 = 102;

pub const AIMUX_E_RECORDING_WRITER_GONE: i32 = 103;

pub const AIMUX_E_RECORDING_FLUSH_TIMEOUT: i32 = 104;

pub const AIMUX_E_RECORDING_WRITE: i32 = 105;

pub const AIMUX_E_FFI_NULL_POINTER: i32 = 200;

pub const AIMUX_E_FFI_INVALID_UTF8: i32 = 201;

pub const AIMUX_E_FFI_INVALID_WIRE_JSON: i32 = 202;

pub const AIMUX_E_FFI_INVALID_HANDLE: i32 = 203;

pub const AIMUX_E_FFI_REENTRANT_CALL: i32 = 204;

pub const AIMUX_E_FFI_RESULT_SERIALIZATION: i32 = 205;

pub const AIMUX_E_FFI_CALLBACK_FAILURE: i32 = 206;

/// A failure found while crossing the boundary: in the arguments, the handles,
/// the callbacks or the result.
#[allow(inconsistent_fields)]
pub enum FfiError {
    NullPointer { argument: String },
    InvalidUtf8 { argument: String },
    /// The text of a JSON argument does not parse.
    InvalidWireJson { argument: String, message: String },
    /// The handle is 0, released or of another kind.
    InvalidHandle { expected: String },
    /// The boundary was entered from inside one of its own callbacks.
    ReentrantCall,
    ResultSerialization { message: String },
    CallbackFailure { message: String },
}

#[verifier::ext_equal]
#[allow(inconsistent_fields)]
pub enum FfiErrorView {
    NullPointer { argument: Seq<char> },
    InvalidUtf8 { argument: Seq<char> },
    InvalidWireJson { argument: Seq<char>, message: Seq<char> },
    InvalidHandle { expected: Seq<char> },
    ReentrantCall,
    ResultSerialization { message: Seq<char> },
    CallbackFailure { message: Seq<char> },
}

impl View for FfiError {
    type V = FfiErrorView;

    open spec fn view(&self) -> FfiErrorView {
        match *self {
            FfiError::NullPointer { argument } => FfiErrorView::NullPointer { argument: argument@ },
            FfiError::InvalidUtf8 { argument } => FfiErrorView::InvalidUtf8 { argument: argument@ },
            FfiError::InvalidWireJson { argument, message } => FfiErrorView::InvalidWireJson {
                argument: argument@,
                message: message@,
            },
            FfiError::InvalidHandle { expected } => FfiErrorView::InvalidHandle { expected: expected@ },
            FfiError::ReentrantCall => FfiErrorView::ReentrantCall,
            FfiError::ResultSerialization { message } => FfiErrorView::ResultSerialization { message: message@ },
            FfiError::CallbackFailure { message } => FfiErrorView::CallbackFailure { message: message@ },
        }
    }
}

/// A failure of the recorder.
#[allow(inconsistent_fields)]
pub enum RecordingError {
    Init { source: String },
    OpenFile { source: String },
    Spawn { source: String },
    WriterGone,
    FlushTimeout,
    Write(String),
}

#[verifier::ext_equal]
#[allow(inconsistent_fields)]
pub enum RecordingErrorView {
    Init { source: Seq<char> },
    OpenFile { source: Seq<char> },
    Spawn { source: Seq<char> },
    WriterGone,
    FlushTimeout,
    Write(Seq<char>),
}

impl View for RecordingError {
    type V = RecordingErrorView;

    open spec fn view(&self) -> RecordingErrorView {
        match *self {
            RecordingError::Init { source } => RecordingErrorView::Init { source: source@ },
            RecordingError::OpenFile { source } => RecordingErrorView::OpenFile { source: source@ },
            RecordingError::Spawn { source } => RecordingErrorView::Spawn { source: source@ },
            RecordingError::WriterGone => RecordingErrorView::WriterGone,
            RecordingError::FlushTimeout => RecordingErrorView::FlushTimeout,
            RecordingError::Write(text) => RecordingErrorView::Write(text@),
        }
    }
}

/// The errors that a host can get.
pub enum AiMuxFfiError {
    AiMux(AiMuxError),
    Recording(RecordingError),
    Ffi(FfiError),
}

#[verifier::ext_equal]
pub enum HostErrorView {
    AiMux(AiMuxErrorView),
    Recording(RecordingErrorView),
    Ffi(FfiErrorView),
}

impl View for AiMuxFfiError {
    type V = HostErrorView;

    open spec fn view(&self) -> HostErrorView {
        match *self {
            AiMuxFfiError::AiMux(error) => HostErrorView::AiMux(error@),
            AiMuxFfiError::Recording(error) => HostErrorView::Recording(error@),
            AiMuxFfiError::Ffi(error) => HostErrorView::Ffi(error@),
        }
    }
}

pub type FfiResult<T> = Result<T, AiMuxFfiError>;

/// The owned error of a failed call.
#[allow(non_camel_case_types)]
pub struct aimux_error_t {
    error: AiMuxFfiError,
}

impl View for aimux_error_t {
    type V = HostErrorView;

    closed spec fn view(&self) -> HostErrorView {
        self.error@
    }
}

impl aimux_error_t {
    pub fn new(error: AiMuxFfiError) -> (r: aimux_error_t)
        ensures
            r@ == error@,
    {
        aimux_error_t { error }
    }
}

pub open spec fn host_error(error: Option<&aimux_error_t>) -> Option<HostErrorView> {
    match error {
        Some(error) => Some(error@),
        None => None,
    }
}

/// The library error behind an error, where there is one.
pub open spec fn inner(error: Option<&aimux_error_t>) -> Option<AiMuxErrorView> {
    match host_error(error) {
        Some(HostErrorView::AiMux(error)) => Some(error),
        _ => None,
    }
}

// Codes.

pub open spec fn aimux_code(error: AiMuxErrorView) -> i32 {
    match error {
        AiMuxErrorView::ApiCall(_) => AIMUX_E_API_CALL,
        AiMuxErrorView::Retry(_, _) => AIMUX_E_RETRY,
        AiMuxErrorView::JsonParse(_) => AIMUX_E_JSON_PARSE,
        AiMuxErrorView::InvalidResponseData(_) => AIMUX_E_INVALID_RESPONSE_DATA,
        AiMuxErrorView::NoSuchTool { .. } => AIMUX_E_NO_SUCH_TOOL,
        AiMuxErrorView::InvalidToolInput { .. } => AIMUX_E_INVALID_TOOL_INPUT,
        AiMuxErrorView::ToolCallRepair { .. } => AIMUX_E_TOOL_CALL_REPAIR,
        AiMuxErrorView::InvalidArgument(_) => AIMUX_E_INVALID_ARGUMENT,
        AiMuxErrorView::InvalidPrompt(_) => AIMUX_E_INVALID_PROMPT,
        AiMuxErrorView::TokenExpired(_) => AIMUX_E_TOKEN_EXPIRED,
        AiMuxErrorView::UnsupportedFunctionality(_) => AIMUX_E_UNSUPPORTED_FUNCTIONALITY,
        AiMuxErrorView::NoSuchModel { .. } => AIMUX_E_NO_SUCH_MODEL,
        AiMuxErrorView::NoSuchProvider { .. } => AIMUX_E_NO_SUCH_PROVIDER,
        AiMuxErrorView::Timeout(_) => AIMUX_E_TIMEOUT,
        AiMuxErrorView::Aborted(_) => AIMUX_E_ABORTED,
        AiMuxErrorView::Other(_) => AIMUX_E_OTHER,
    }
}

pub fn aimux_error_code_of(error: &AiMuxError) -> (r: i32)
    ensures
        r == aimux_code(error@),
{
    match error {
        AiMuxError::ApiCall(_) => AIMUX_E_API_CALL,
        AiMuxError::Retry(_) => AIMUX_E_RETRY,
        AiMuxError::JsonParse(_) => AIMUX_E_JSON_PARSE,
        AiMuxError::InvalidResponseData(_) => AIMUX_E_INVALID_RESPONSE_DATA,
        AiMuxError::NoSuchTool { .. } => AIMUX_E_NO_SUCH_TOOL,
        AiMuxError::InvalidToolInput { .. } => AIMUX_E_INVALID_TOOL_INPUT,
        AiMuxError::ToolCallRepair { .. } => AIMUX_E_TOOL_CALL_REPAIR,
        AiMuxError::InvalidArgument(_) => AIMUX_E_INVALID_ARGUMENT,
        AiMuxError::InvalidPrompt(_) => AIMUX_E_INVALID_PROMPT,
        AiMuxError::TokenExpired(_) => AIMUX_E_TOKEN_EXPIRED,
        AiMuxError::UnsupportedFunctionality(_) => AIMUX_E_UNSUPPORTED_FUNCTIONALITY,
        AiMuxError::NoSuchModel { .. } => AIMUX_E_NO_SUCH_MODEL,
        AiMuxError::NoSuchProvider { .. } => AIMUX_E_NO_SUCH_PROVIDER,
        AiMuxError::Timeout(_) => AIMUX_E_TIMEOUT,
        AiMuxError::Aborted(_) => AIMUX_E_ABORTED,
        AiMuxError::Other(_) => AIMUX_E_OTHER,
    }
}

pub open spec fn recording_code(error: RecordingErrorView) -> i32 {
    match error {
        RecordingErrorView::Init { .. } => AIMUX_E_RECORDING_INIT,
        RecordingErrorView::OpenFile { .. } => AIMUX_E_RECORDING_OPEN_FILE,
        RecordingErrorView::Spawn { .. } => AIMUX_E_RECORDING_SPAWN,
        RecordingErrorView::WriterGone => AIMUX_E_RECORDING_WRITER_GONE,
        RecordingErrorView::FlushTimeout => AIMUX_E_RECORDING_FLUSH_TIMEOUT,
        RecordingErrorView::Write(_) => AIMUX_E_RECORDING_WRITE,
    }
}

pub fn recording_error_code_of(error: &RecordingError) -> (r: i32)
    ensures
        r == recording_code(error@),
{
    match error {
        RecordingError::Init { .. } => AIMUX_E_RECORDING_INIT,
        RecordingError::OpenFile { .. } => AIMUX_E_RECORDING_OPEN_FILE,
        RecordingError::Spawn { .. } => AIMUX_E_RECORDING_SPAWN,
        RecordingError::WriterGone => AIMUX_E_RECORDING_WRITER_GONE,
        RecordingError::FlushTimeout => AIMUX_E_RECORDING_FLUSH_TIMEOUT,
        RecordingError::Write(_) => AIMUX_E_RECORDING_WRITE,
    }
}

pub open spec fn ffi_code(error: FfiErrorView) -> i32 {
    match error {
        FfiErrorView::NullPointer { .. } => AIMUX_E_FFI_NULL_POINTER,
        FfiErrorView::InvalidUtf8 { .. } => AIMUX_E_FFI_INVALID_UTF8,
        FfiErrorView::InvalidWireJson { .. } => AIMUX_E_FFI_INVALID_WIRE_JSON,
        FfiErrorView::InvalidHandle { .. } => AIMUX_E_FFI_INVALID_HANDLE,
        FfiErrorView::ReentrantCall => AIMUX_E_FFI_REENTRANT_CALL,
        FfiErrorView::ResultSerialization { .. } => AIMUX_E_FFI_RESULT_SERIALIZATION,
        FfiErrorView::CallbackFailure { .. } => AIMUX_E_FFI_CALLBACK_FAILURE,
    }
}

pub fn ffi_error_code_of(error: &FfiError) -> (r: i32)
    ensures
        r == ffi_code(error@),
{
    match error {
        FfiError::NullPointer { .. } => AIMUX_E_FFI_NULL_POINTER,
        FfiError::InvalidUtf8 { .. } => AIMUX_E_FFI_INVALID_UTF8,
        FfiError::InvalidWireJson { .. } => AIMUX_E_FFI_INVALID_WIRE_JSON,
        FfiError::InvalidHandle { .. } => AIMUX_E_FFI_INVALID_HANDLE,
        FfiError::ReentrantCall => AIMUX_E_FFI_REENTRANT_CALL,
        FfiError::ResultSerialization { .. } => AIMUX_E_FFI_RESULT_SERIALIZATION,
        FfiError::CallbackFailure { .. } => AIMUX_E_FFI_CALLBACK_FAILURE,
    }
}

pub open spec fn host_code(error: HostErrorView) -> i32 {
    match error {
        HostErrorView::AiMux(error) => aimux_code(error),
        HostErrorView::Recording(error) => recording_code(error),
        HostErrorView::Ffi(error) => ffi_code(error),
    }
}

pub fn error_code_of(error: &AiMuxFfiError) -> (r: i32)
    ensures
        r == host_code(error@),
{
    match error {
        AiMuxFfiError::AiMux(error) => aimux_error_code_of(error),
        AiMuxFfiError::Recording(error) => recording_error_code_of(error),
        AiMuxFfiError::Ffi(error) => ffi_error_code_of(error),
    }
}

// Messages.

pub open spec fn ffi_words(error: FfiErrorView) -> Seq<char> {
    match error {
        FfiErrorView::NullPointer { argument } => argument + ": must not be NULL"@,
        FfiErrorView::InvalidUtf8 { argument } => argument + ": must be valid UTF-8"@,
        FfiErrorView::InvalidWireJson { argument, message } => argument + ": invalid JSON: "@ + message,
        FfiErrorView::InvalidHandle { expected } => "invalid or expired "@ + expected + " handle"@,
        FfiErrorView::ReentrantCall => "re-entrant FFI call from within a callback is not allowed"@,
        FfiErrorView::ResultSerialization { message } => "could not serialize result: "@ + message,
        FfiErrorView::CallbackFailure { message } => "host callback failed: "@ + message,
    }
}

impl FfiError {
    pub fn message(&self) -> (r: String)
        ensures
            r@ == ffi_words(self@),
    {
        match self {
            FfiError::NullPointer { argument } => join2(argument.as_str(), ": must not be NULL"),
            FfiError::InvalidUtf8 { argument } => join2(argument.as_str(), ": must be valid UTF-8"),
            FfiError::InvalidWireJson { argument, message } => join3(
                argument.as_str(),
                ": invalid JSON: ",
                message.as_str(),
            ),
            FfiError::InvalidHandle { expected } => join3("invalid or expired ", expected.as_str(), " handle"),
            FfiError::ReentrantCall => "re-entrant FFI call from within a callback is not allowed".to_owned(),
            FfiError::ResultSerialization { message } => join2("could not serialize result: ", message.as_str()),
            FfiError::CallbackFailure { message } => join2("host callback failed: ", message.as_str()),
        }
    }

    pub fn null_pointer(argument: &str) -> (r: FfiError)
        ensures
            r@ == (FfiErrorView::NullPointer { argument: argument@ }),
    {
        FfiError::NullPointer { argument: argument.to_owned() }
    }

    pub fn invalid_handle(expected: &str) -> (r: FfiError)
        ensures
            r@ == (FfiErrorView::InvalidHandle { expected: expected@ }),
    {
        FfiError::InvalidHandle { expected: expected.to_owned() }
    }
}

pub open spec fn recording_words(error: RecordingErrorView) -> Seq<char> {
    match error {
        RecordingErrorView::Init { source } => "recording directory could not be created: "@ + source,
        RecordingErrorView::OpenFile { source } => "recording file could not be opened: "@ + source,
        RecordingErrorView::Spawn { source } => "recording writer could not be started: "@ + source,
        RecordingErrorView::WriterGone => "recording writer is gone"@,
        RecordingErrorView::FlushTimeout => "recording flush timed out"@,
        RecordingErrorView::Write(text) => "recording write failed: "@ + text,
    }
}

impl RecordingError {
    pub fn message(&self) -> (r: String)
        ensures
            r@ == recording_words(self@),
    {
        match self {
            RecordingError::Init { source } => join2(
                "recording directory could not be created: ",
                source.as_str(),
            ),
            RecordingError::OpenFile { source } => join2("recording file could not be opened: ", source.as_str()),
            RecordingError::Spawn { source } => join2("recording writer could not be started: ", source.as_str()),
            RecordingError::WriterGone => "recording writer is gone".to_owned(),
            RecordingError::FlushTimeout => "recording flush timed out".to_owned(),
            RecordingError::Write(text) => join2("recording write failed: ", text.as_str()),
        }
    }
}

pub open spec fn host_words(error: HostErrorView) -> Seq<char> {
    match error {
        HostErrorView::AiMux(error) => error_words(error),
        HostErrorView::Recording(error) => recording_words(error),
        HostErrorView::Ffi(error) => ffi_words(error),
    }
}

impl AiMuxFfiError {
    pub fn message(&self) -> (r: String)
        ensures
            r@ == host_words(self@),
    {
        match self {
            AiMuxFfiError::AiMux(error) => error.message(),
            AiMuxFfiError::Recording(error) => error.message(),
            AiMuxFfiError::Ffi(error) => error.message(),
        }
    }

    pub fn invalid_argument(words: &str) -> (r: AiMuxFfiError)
        ensures
            r@ == HostErrorView::AiMux(AiMuxErrorView::InvalidArgument(words@)),
    {
        AiMuxFfiError::AiMux(AiMuxError::InvalidArgument(words.to_owned()))
    }
}

// Getters. Code and message answer for every error; the rest belong to some
// codes and answer with a sentinel under every other.

/// A text as a NUL-terminated buffer can hold it.
pub open spec fn c_text(text: Option<Seq<char>>) -> Option<Seq<char>> {
    match text {
        Some(text) => Some(nul_free(text)),
        None => None,
    }
}

fn c_string(text: Option<String>) -> (r: Option<String>)
    ensures
        text_view(r) == c_text(text_view(text)),
{
    match text {
        Some(text) => Some(without_nul(text.as_str())),
        None => None,
    }
}

fn library_error(error: Option<&aimux_error_t>) -> (r: Option<&AiMuxError>)
    ensures
        (match r {
            Some(error) => Some(error@),
            None => None,
        }) == inner(error),
{
    match error {
        Some(error) => match &error.error {
            AiMuxFfiError::AiMux(error) => Some(error),
            _ => None,
        },
        None => None,
    }
}

/// The code of an error; no error is [`AIMUX_OK`].
pub fn aimux_error_code(error: Option<&aimux_error_t>) -> (r: i32)
    ensures
        r == (match host_error(error) {
            Some(error) => host_code(error),
            None => AIMUX_OK,
        }),
{
    match error {
        Some(error) => error_code_of(&error.error),
        None => AIMUX_OK,
    }
}

/// The message of an error.
pub fn aimux_error_message(error: Option<&aimux_error_t>) -> (r: Option<String>)
    ensures
        text_view(r) == c_text(match host_error(error) {
            Some(error) => Some(host_words(error)),
            None => None,
        }),
{
    let text: Option<String> = match error {
        Some(error) => Some(error.error.message()),
        None => None,
    };
    c_string(text)
}

/// The HTTP status behind an error, or -1.
pub fn aimux_error_status(error: Option<&aimux_error_t>) -> (r: i32)
    ensures
        r == (match inner(error) {
            Some(error) => match error.status() {
                Some(status) => status as int,
                None => -1,
            },
            None => -1,
        }),
{
    match library_error(error) {
        Some(error) => match error.status_code() {
            Some(status) => status as i32,
            None => -1,
        },
        None => -1,
    }
}

/// When to retry, in milliseconds, or -1.
pub fn aimux_error_retry_ms(error: Option<&aimux_error_t>) -> (r: i64)
    ensures
        r == (match inner(error) {
            Some(error) => match retry_hint(error) {
                Some(ms) => ms as int,
                None => -1,
            },
            None => -1,
        }),
{
    match library_error(error) {
        Some(error) => match error.retry_after_hint() {
            Some(ms) => ms,
            None => -1,
        },
        None => -1,
    }
}

/// 1 when retrying may help, else 0.
pub fn aimux_error_retryable(error: Option<&aimux_error_t>) -> (r: i32)
    ensures
        r == (match inner(error) {
            Some(AiMuxErrorView::ApiCall(detail)) => if detail.is_retryable {
                1int
            } else {
                0int
            },
            _ => 0int,
        }),
{
    match library_error(error) {
        Some(error) => if error.is_retryable() {
            1
        } else {
            0
        },
        None => 0,
    }
}

/// A provider call's own error code.
pub fn aimux_error_provider_code(error: Option<&aimux_error_t>) -> (r: Option<String>)
    ensures
        text_view(r) == c_text(match inner(error) {
            Some(AiMuxErrorView::ApiCall(detail)) => detail.provider_code,
            _ => None,
        }),
{
    let text: Option<String> = match library_error(error) {
        Some(AiMuxError::ApiCall(detail)) => copy_text(&detail.provider_code),
        _ => None,
    };
    c_string(text)
}

/// A text where there is one; an empty text is none.
pub open spec fn filled(text: Seq<char>) -> Option<Seq<char>> {
    if text.len() == 0 {
        None
    } else {
        Some(text)
    }
}

fn filled_text(text: &String) -> (r: Option<String>)
    ensures
        text_view(r) == filled(text@),
{
    if text.as_str().unicode_len() == 0 {
        None
    } else {
        Some(text.clone())
    }
}

/// A provider call's own message.
pub fn aimux_error_provider_message(error: Option<&aimux_error_t>) -> (r: Option<String>)
    ensures
        text_view(r) == c_text(match inner(error) {
            Some(AiMuxErrorView::ApiCall(detail)) => filled(detail.message),
            _ => None,
        }),
{
    let text: Option<String> = match library_error(error) {
        Some(AiMuxError::ApiCall(detail)) => filled_text(&detail.message),
        _ => None,
    };
    c_string(text)
}

/// A provider call's response body.
pub fn aimux_error_response_body(error: Option<&aimux_error_t>) -> (r: Option<String>)
    ensures
        text_view(r) == c_text(match inner(error) {
            Some(AiMuxErrorView::ApiCall(detail)) => detail.response_body,
            _ => None,
        }),
{
    let text: Option<String> = match library_error(error) {
        Some(AiMuxError::ApiCall(detail)) => copy_text(&detail.response_body),
        _ => None,
    };
    c_string(text)
}

/// A provider call's URL.
pub fn aimux_error_url(error: Option<&aimux_error_t>) -> (r: Option<String>)
    ensures
        text_view(r) == c_text(match inner(error) {
            Some(AiMuxErrorView::ApiCall(detail)) => filled(detail.url),
            _ => None,
        }),
{
    let text: Option<String> = match library_error(error) {
        Some(AiMuxError::ApiCall(detail)) => filled_text(&detail.url),
        _ => None,
    };
    c_string(text)
}

/// A provider call's request body as JSON; none where it was `null`.
pub fn aimux_error_request_body_values(error: Option<&aimux_error_t>) -> (r: Option<String>)
    ensures
        text_view(r) == c_text(match inner(error) {
            Some(AiMuxErrorView::ApiCall(detail)) => if detail.request_body_values is Null {
                None
            } else {
                Some(json_print(detail.request_body_values))
            },
            _ => None,
        }),
{
    let text: Option<String> = match library_error(error) {
        Some(AiMuxError::ApiCall(detail)) => if detail.request_body_values.is_null() {
            None
        } else {
            Some(print_json(&detail.request_body_values))
        },
        _ => None,
    };
    c_string(text)
}

/// A provider call's response headers as one JSON object.
pub fn aimux_error_response_headers(error: Option<&aimux_error_t>) -> (r: Option<String>)
    ensures
        text_view(r) == c_text(match inner(error) {
            Some(AiMuxErrorView::ApiCall(detail)) => match pairs_doc(detail.response_headers) {
                Some(doc) => Some(json_print(doc)),
                None => None,
            },
            _ => None,
        }),
{
    let text: Option<String> = match library_error(error) {
        Some(AiMuxError::ApiCall(detail)) => match &detail.response_headers {
            Some(list) => Some(print_json(&json_pairs(list))),
            None => None,
        },
        _ => None,
    };
    c_string(text)
}

/// A provider call's parsed error data as JSON.
pub fn aimux_error_provider_data(error: Option<&aimux_error_t>) -> (r: Option<String>)
    ensures
        text_view(r) == c_text(match inner(error) {
            Some(AiMuxErrorView::ApiCall(detail)) => match detail.data {
                Some(doc) => Some(json_print(doc)),
                None => None,
            },
            _ => None,
        }),
{
    let text: Option<String> = match library_error(error) {
        Some(AiMuxError::ApiCall(detail)) => match &detail.data {
            Some(data) => Some(print_json(data)),
            None => None,
        },
        _ => None,
    };
    c_string(text)
}

/// Why retrying stopped.
pub fn aimux_error_retry_reason(error: Option<&aimux_error_t>) -> (r: Option<String>)
    ensures
        text_view(r) == c_text(match inner(error) {
            Some(AiMuxErrorView::Retry(reason, _)) => Some(reason_name(reason)),
            _ => None,
        }),
{
    let text: Option<String> = match library_error(error) {
        Some(AiMuxError::Retry(retry)) => Some(reason_text(retry.reason).to_owned()),
        _ => None,
    };
    c_string(text)
}

/// How many attempts failed.
pub fn aimux_error_retry_count(error: Option<&aimux_error_t>) -> (r: i32)
    ensures
        r == (match inner(error) {
            Some(AiMuxErrorView::Retry(_, list)) => list.len() as i32,
            _ => 0,
        }),
{
    match library_error(error) {
        Some(AiMuxError::Retry(retry)) => {
            proof {
                lemma_retry_model(*retry);
            }
            #[verifier::truncate] (retry.errors.len() as i32)
        },
        _ => 0,
    }
}

/// The error of one attempt, oldest first, as an error of its own.
pub fn aimux_error_retry_error_at(error: Option<&aimux_error_t>, index: i32) -> (r: Option<aimux_error_t>)
    ensures
        (match r {
            Some(error) => Some(error@),
            None => None,
        }) == (match inner(error) {
            Some(AiMuxErrorView::Retry(_, list)) => if 0 <= index < list.len() {
                Some(HostErrorView::AiMux(list[index as int]))
            } else {
                None
            },
            _ => None,
        }),
{
    match library_error(error) {
        Some(AiMuxError::Retry(retry)) => {
            proof {
                lemma_retry_model(*retry);
            }
            if index < 0 || index as usize >= retry.errors.len() {
                None
            } else {
                let attempt = &retry.errors[index as usize];
                assert(errors(retry.errors@)[index as int] == attempt@);
                Some(aimux_error_t { error: AiMuxFfiError::AiMux(attempt.copy()) })
            }
        },
        _ => None,
    }
}

/// The model that was asked for.
pub fn aimux_error_model_id(error: Option<&aimux_error_t>) -> (r: Option<String>)
    ensures
        text_view(r) == c_text(match inner(error) {
            Some(AiMuxErrorView::NoSuchModel { model_id, .. }) => Some(model_id),
            _ => None,
        }),
{
    let text: Option<String> = match library_error(error) {
        Some(AiMuxError::NoSuchModel { model_id, .. }) => Some(model_id.clone()),
        _ => None,
    };
    c_string(text)
}

/// The type that a model was asked for as.
pub fn aimux_error_model_type(error: Option<&aimux_error_t>) -> (r: Option<String>)
    ensures
        text_view(r) == c_text(match inner(error) {
            Some(AiMuxErrorView::NoSuchModel { model_type, .. }) => Some(model_type),
            _ => None,
        }),
{
    let text: Option<String> = match library_error(error) {
        Some(AiMuxError::NoSuchModel { model_type, .. }) => Some(model_type.clone()),
        _ => None,
    };
    c_string(text)
}

/// The provider that was asked for.
pub fn aimux_error_provider_id(error: Option<&aimux_error_t>) -> (r: Option<String>)
    ensures
        text_view(r) == c_text(match inner(error) {
            Some(AiMuxErrorView::NoSuchProvider { provider_id }) => Some(provider_id),
            _ => None,
        }),
{
    let text: Option<String> = match library_error(error) {
        Some(AiMuxError::NoSuchProvider { provider_id }) => Some(provider_id.clone()),
        _ => None,
    };
    c_string(text)
}

/// The tool that the model called.
pub fn aimux_error_tool_name(error: Option<&aimux_error_t>) -> (r: Option<String>)
    ensures
        text_view(r) == c_text(match inner(error) {
            Some(AiMuxErrorView::NoSuchTool { tool_name, .. }) => Some(tool_name),
            Some(AiMuxErrorView::InvalidToolInput { tool_name, .. }) => Some(tool_name),
            _ => None,
        }),
{
    let text: Option<String> = match library_error(error) {
        Some(AiMuxError::NoSuchTool { tool_name, .. }) => Some(tool_name.clone()),
        Some(AiMuxError::InvalidToolInput { tool_name, .. }) => Some(tool_name.clone()),
        _ => None,
    };
    c_string(text)
}

/// The names of the tools that there are, as a JSON array.
pub fn aimux_error_available_tools(error: Option<&aimux_error_t>) -> (r: Option<String>)
    ensures
        text_view(r) == c_text(match inner(error) {
            Some(AiMuxErrorView::NoSuchTool { available_tools: Some(list), .. }) => Some(
                json_print(texts_doc(list)),
            ),
            _ => None,
        }),
{
    let text: Option<String> = match library_error(error) {
        Some(AiMuxError::NoSuchTool { available_tools: Some(list), .. }) => Some(print_json(&json_texts(list))),
        _ => None,
    };
    c_string(text)
}

/// The argument text that the model produced.
pub fn aimux_error_tool_input(error: Option<&aimux_error_t>) -> (r: Option<String>)
    ensures
        text_view(r) == c_text(match inner(error) {
            Some(AiMuxErrorView::InvalidToolInput { tool_input, .. }) => Some(tool_input),
            Some(AiMuxErrorView::NoSuchTool { tool_input, .. }) => tool_input,
            _ => None,
        }),
{
    let text: Option<String> = match library_error(error) {
        Some(AiMuxError::InvalidToolInput { tool_input, .. }) => Some(tool_input.clone()),
        Some(AiMuxError::NoSuchTool { tool_input, .. }) => copy_text(tool_input),
        _ => None,
    };
    c_string(text)
}

/// The error that a failed repair started from, as JSON.
pub fn aimux_error_original_error(error: Option<&aimux_error_t>) -> (r: Option<String>)
    ensures
        text_view(r) == c_text(match inner(error) {
            Some(AiMuxErrorView::ToolCallRepair { original_error, .. }) => Some(
                json_print(error_doc(*original_error)),
            ),
            _ => None,
        }),
{
    let text: Option<String> = match library_error(error) {
        Some(AiMuxError::ToolCallRepair { original_error, .. }) => Some(print_json(&error_json(original_error))),
        _ => None,
    };
    c_string(text)
}

// Laws.

/// The code of an error tells its source: library errors lie in 1..=17,
/// recorder errors in 100..=105, boundary errors in 200..=206, and none of
/// them is the code of success.
pub proof fn law_codes_tell_the_source(error: HostErrorView)
    ensures
        error is AiMux <==> 1 <= host_code(error) <= 17,
        error is Recording <==> 100 <= host_code(error) <= 105,
        error is Ffi <==> 200 <= host_code(error) <= 206,
        host_code(error) != AIMUX_OK,
{
}

/// Two library errors have one code exactly when they are of one variant.
pub proof fn law_codes_are_distinct(a: AiMuxErrorView, b: AiMuxErrorView)
    requires
        aimux_code(a) == aimux_code(b),
    ensures
        a is ApiCall <==> b is ApiCall,
        a is Retry <==> b is Retry,
        a is JsonParse <==> b is JsonParse,
        a is InvalidResponseData <==> b is InvalidResponseData,
        a is NoSuchTool <==> b is NoSuchTool,
        a is InvalidToolInput <==> b is InvalidToolInput,
        a is ToolCallRepair <==> b is ToolCallRepair,
        a is InvalidArgument <==> b is InvalidArgument,
        a is InvalidPrompt <==> b is InvalidPrompt,
        a is TokenExpired <==> b is TokenExpired,
        a is UnsupportedFunctionality <==> b is UnsupportedFunctionality,
        a is NoSuchModel <==> b is NoSuchModel,
        a is NoSuchProvider <==> b is NoSuchProvider,
        a is Timeout <==> b is Timeout,
        a is Aborted <==> b is Aborted,
        a is Other <==> b is Other,
{
}

} // verus!
