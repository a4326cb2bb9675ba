//! What a host passes and gets back: texts, JSON arguments and callbacks.
use crate::error::{AiMuxError, AiMuxErrorView};
use crate::generate_options::{no_options, GenerateTextOptions};
use crate::host_error::{AiMuxFfiError, FfiError, FfiErrorView, FfiResult, HostErrorView};
use crate::json::{lemma_model, member, Json, JsonView};
use crate::json_text::{json_parse, parse_json, text_view};
use crate::message::ModelPrompt;
use crate::text::{join2, join4, same_text, trim, trimmed};
use vstd::prelude::*;
use vstd::string::*;
use vstd::utf8::{decode_utf8, valid_utf8};

verus! {

/// The text that bytes encode in UTF-8, where they do.
///
/// Calls `std::str::from_utf8`: it takes exactly the byte strings that are
/// valid UTF-8, and gives the text that they encode.
#[verifier::external_body]
fn utf8_text(bytes: &[u8]) -> (r: Option<String>)
    ensures
        match r {
            Some(text) => valid_utf8(bytes@) && text@ == decode_utf8(bytes@),
            None => !valid_utf8(bytes@),
        },
{
    match std::str::from_utf8(bytes) {
        Ok(text) => Some(text.to_owned()),
        Err(_) => None,
    }
}

pub open spec fn bytes_view(bytes: Option<&[u8]>) -> Option<Seq<u8>> {
    match bytes {
        Some(bytes) => Some(bytes@),
        None => None,
    }
}

/// The text of a required argument.
pub open spec fn required_text(bytes: Option<Seq<u8>>, argument: Seq<char>) -> Result<Seq<char>, FfiErrorView> {
    match bytes {
        None => Err(FfiErrorView::NullPointer { argument }),
        Some(bytes) => if valid_utf8(bytes) {
            Ok(decode_utf8(bytes))
        } else {
            Err(FfiErrorView::InvalidUtf8 { argument })
        },
    }
}

/// The text of an argument that may be absent; malformed is not absent.
pub open spec fn optional_text(bytes: Option<Seq<u8>>, argument: Seq<char>) -> Result<
    Option<Seq<char>>,
    FfiErrorView,
> {
    match bytes {
        None => Ok(None),
        Some(_) => match required_text(bytes, argument) {
            Ok(text) => Ok(Some(text)),
            Err(error) => Err(error),
        },
    }
}

/// Read a required text argument.
pub fn str_arg(bytes: Option<&[u8]>, argument: &str) -> (r: Result<String, FfiError>)
    ensures
        required_text(bytes_view(bytes), argument@) == (match r {
            Ok(text) => Ok(text@),
            Err(error) => Err(error@),
        }),
{
    match bytes {
        None => Err(FfiError::NullPointer { argument: argument.to_owned() }),
        Some(bytes) => match utf8_text(bytes) {
            Some(text) => Ok(text),
            None => Err(FfiError::InvalidUtf8 { argument: argument.to_owned() }),
        },
    }
}

/// Read a text argument that may be absent.
pub fn opt_str_arg(bytes: Option<&[u8]>, argument: &str) -> (r: Result<Option<String>, FfiError>)
    ensures
        optional_text(bytes_view(bytes), argument@) == (match r {
            Ok(text) => Ok(text_view(text)),
            Err(error) => Err(error@),
        }),
{
    match bytes {
        None => Ok(None),
        Some(_) => match str_arg(bytes, argument) {
            Ok(text) => Ok(Some(text)),
            Err(error) => Err(error),
        },
    }
}

/// Read two required text arguments; the first that fails is reported.
pub fn parse_two_args(a: Option<&[u8]>, an: &str, b: Option<&[u8]>, bn: &str) -> (r: Result<
    (String, String),
    FfiError,
>)
    ensures
        match (required_text(bytes_view(a), an@), required_text(bytes_view(b), bn@)) {
            (Err(error), _) => r matches Err(e) && e@ == error,
            (_, Err(error)) => r matches Err(e) && e@ == error,
            (Ok(first), Ok(second)) => r matches Ok((x, y)) && x@ == first && y@ == second,
        },
{
    match str_arg(a, an) {
        Err(error) => Err(error),
        Ok(first) => match str_arg(b, bn) {
            Err(error) => Err(error),
            Ok(second) => Ok((first, second)),
        },
    }
}

/// Read four required text arguments; the first that fails is reported.
pub fn parse_four_args(
    a: Option<&[u8]>,
    an: &str,
    b: Option<&[u8]>,
    bn: &str,
    c: Option<&[u8]>,
    cn: &str,
    d: Option<&[u8]>,
    dn: &str,
) -> (r: Result<(String, String, String, String), FfiError>)
    ensures
        match (
            required_text(bytes_view(a), an@),
            required_text(bytes_view(b), bn@),
            required_text(bytes_view(c), cn@),
            required_text(bytes_view(d), dn@),
        ) {
            (Err(error), _, _, _) => r matches Err(e) && e@ == error,
            (_, Err(error), _, _) => r matches Err(e) && e@ == error,
            (_, _, Err(error), _) => r matches Err(e) && e@ == error,
            (_, _, _, Err(error)) => r matches Err(e) && e@ == error,
            (Ok(w), Ok(x), Ok(y), Ok(z)) => r matches Ok(texts) && texts.0@ == w && texts.1@ == x && texts.2@ == y
                && texts.3@ == z,
        },
{
    match parse_two_args(a, an, b, bn) {
        Err(error) => Err(error),
        Ok((w, x)) => match parse_two_args(c, cn, d, dn) {
            Err(error) => Err(error),
            Ok((y, z)) => Ok((w, x, y, z)),
        },
    }
}

/// A base URL; an empty one is none.
pub open spec fn base_url_of(bytes: Option<Seq<u8>>) -> Result<Option<Seq<char>>, FfiErrorView> {
    match optional_text(bytes, "base_url"@) {
        Ok(Some(url)) => if url.len() == 0 {
            Ok(None)
        } else {
            Ok(Some(url))
        },
        other => other,
    }
}

/// Read a base URL.
pub fn parse_base_url(bytes: Option<&[u8]>) -> (r: Result<Option<String>, FfiError>)
    ensures
        base_url_of(bytes_view(bytes)) == (match r {
            Ok(url) => Ok(text_view(url)),
            Err(error) => Err(error@),
        }),
{
    match opt_str_arg(bytes, "base_url") {
        Ok(Some(url)) => if url.as_str().unicode_len() == 0 {
            Ok(None)
        } else {
            Ok(Some(url))
        },
        other => other,
    }
}

// JSON arguments.

/// Why a JSON argument was refused.
pub enum WireFault {
    /// The text is not JSON.
    Text(String),
    /// The JSON is not of the shape that was asked for.
    Shape(String),
}

#[verifier::ext_equal]
pub enum WireFaultView {
    Text(Seq<char>),
    Shape(Seq<char>),
}

impl View for WireFault {
    type V = WireFaultView;

    open spec fn view(&self) -> WireFaultView {
        match *self {
            WireFault::Text(words) => WireFaultView::Text(words@),
            WireFault::Shape(words) => WireFaultView::Shape(words@),
        }
    }
}

/// The error of a refused JSON argument: malformed text is the boundary's
/// finding, a wrong shape is an invalid argument.
pub open spec fn fault_error(argument: Seq<char>, fault: WireFaultView) -> HostErrorView {
    match fault {
        WireFaultView::Text(message) => HostErrorView::Ffi(FfiErrorView::InvalidWireJson { argument, message }),
        WireFaultView::Shape(words) => HostErrorView::AiMux(
            AiMuxErrorView::InvalidArgument(argument + ": "@ + words),
        ),
    }
}

/// The error of a refused JSON argument.
pub fn wire_failure(argument: &str, fault: WireFault) -> (r: AiMuxFfiError)
    ensures
        r@ == fault_error(argument@, fault@),
{
    match fault {
        WireFault::Text(message) => AiMuxFfiError::Ffi(
            FfiError::InvalidWireJson { argument: argument.to_owned(), message },
        ),
        WireFault::Shape(words) => AiMuxFfiError::AiMux(
            AiMuxError::InvalidArgument(crate::text::join3(argument, ": ", words.as_str())),
        ),
    }
}

/// Whether a decoder answers a text in this way.
pub open spec fn answers<T, F: Fn(&str) -> Result<T, WireFault>>(
    decode: F,
    text: Seq<char>,
    answer: Result<T, WireFault>,
) -> bool {
    exists|s: &str| s@ == text && #[trigger] call_ensures(decode, (s,), answer)
}

/// Whether a result is what an answer comes to for an argument.
pub open spec fn lifted<T>(answer: Result<T, WireFault>, argument: Seq<char>, r: FfiResult<T>) -> bool {
    match answer {
        Ok(value) => r == Ok::<T, AiMuxFfiError>(value),
        Err(fault) => r matches Err(error) && error@ == fault_error(argument, fault@),
    }
}

/// Whether `r` is what a decoder makes of the text of an argument.
pub open spec fn answered_with<T, F: Fn(&str) -> Result<T, WireFault>>(
    decode: F,
    text: Seq<char>,
    argument: Seq<char>,
    r: FfiResult<T>,
) -> bool {
    exists|answer: Result<T, WireFault>|
        #[trigger] answers(decode, text, answer) && lifted(answer, argument, r)
}

/// Whether `r` is what a decoder makes of a required JSON argument.
pub open spec fn decoded<T, F: Fn(&str) -> Result<T, WireFault>>(
    bytes: Option<Seq<u8>>,
    argument: Seq<char>,
    decode: F,
    r: FfiResult<T>,
) -> bool {
    match required_text(bytes, argument) {
        Err(error) => r matches Err(e) && e@ == HostErrorView::Ffi(error),
        Ok(text) => answered_with(decode, text, argument, r),
    }
}

/// Read a required JSON argument.
pub fn parse_json_arg<T, F: Fn(&str) -> Result<T, WireFault>>(
    bytes: Option<&[u8]>,
    argument: &str,
    decode: &F,
) -> (r: FfiResult<T>)
    requires
        forall|text: &str| #[trigger] call_requires(*decode, (text,)),
    ensures
        decoded(bytes_view(bytes), argument@, *decode, r),
{
    match str_arg(bytes, argument) {
        Err(error) => Err(AiMuxFfiError::Ffi(error)),
        Ok(text) => {
            let answer = decode(text.as_str());
            let ghost said = answer;
            assert(answers(*decode, text@, said));
            let r: FfiResult<T> = match answer {
                Ok(value) => Ok(value),
                Err(fault) => Err(wire_failure(argument, fault)),
            };
            assert(lifted(said, argument@, r));
            assert(answered_with(*decode, text@, argument@, r));
            r
        },
    }
}

/// Whether a text says something: not blank, and not `null`.
pub open spec fn says(text: Seq<char>) -> bool {
    trimmed(text).len() > 0 && trimmed(text) != "null"@
}

fn says_something(text: &str) -> (r: bool)
    ensures
        r == says(text@),
{
    let inner = trim(text);
    !inner.is_empty() && !same_text(inner, "null")
}

/// Whether `r` is what a decoder makes of a JSON argument that may be absent,
/// blank or `null`.
pub open spec fn decoded_some<T, F: Fn(&str) -> Result<T, WireFault>>(
    bytes: Option<Seq<u8>>,
    argument: Seq<char>,
    decode: F,
    r: FfiResult<Option<T>>,
) -> bool {
    match optional_text(bytes, argument) {
        Err(error) => r matches Err(e) && e@ == HostErrorView::Ffi(error),
        Ok(None) => r == Ok::<Option<T>, AiMuxFfiError>(None),
        Ok(Some(text)) => if !says(text) {
            r == Ok::<Option<T>, AiMuxFfiError>(None)
        } else {
            exists|answer: Result<T, WireFault>|
                #[trigger] answers(decode, text, answer) && (match answer {
                    Ok(value) => r == Ok::<Option<T>, AiMuxFfiError>(Some(value)),
                    Err(fault) => r matches Err(e) && e@ == fault_error(argument, fault@),
                })
        },
    }
}

/// Read a JSON argument that may be absent, blank or `null`.
pub fn parse_optional_arg<T, F: Fn(&str) -> Result<T, WireFault>>(
    bytes: Option<&[u8]>,
    argument: &str,
    decode: &F,
) -> (r: FfiResult<Option<T>>)
    requires
        forall|text: &str| #[trigger] call_requires(*decode, (text,)),
    ensures
        decoded_some(bytes_view(bytes), argument@, *decode, r),
{
    match opt_str_arg(bytes, argument) {
        Err(error) => Err(AiMuxFfiError::Ffi(error)),
        Ok(None) => Ok(None),
        Ok(Some(text)) => {
            if !says_something(text.as_str()) {
                return Ok(None);
            }
            let answer = decode(text.as_str());
            let ghost said = answer;
            assert(answers(*decode, text@, said));
            match answer {
                Ok(value) => Ok(Some(value)),
                Err(fault) => Err(wire_failure(argument, fault)),
            }
        },
    }
}

/// Whether `r` is what a decoder makes of generation options.
pub open spec fn options_read<F: Fn(&str) -> Result<GenerateTextOptions, WireFault>>(
    bytes: Option<Seq<u8>>,
    decode: F,
    r: FfiResult<GenerateTextOptions>,
) -> bool {
    exists|some: FfiResult<Option<GenerateTextOptions>>|
        #[trigger] decoded_some(bytes, "opts_json"@, decode, some) && (match some {
            Ok(Some(options)) => r == Ok::<GenerateTextOptions, AiMuxFfiError>(options),
            Ok(None) => r matches Ok(options) && options@ == no_options(),
            Err(error) => r == Err::<GenerateTextOptions, AiMuxFfiError>(error),
        })
}

/// Read generation options; absent ones are the default.
pub fn parse_opts_arg<F: Fn(&str) -> Result<GenerateTextOptions, WireFault>>(
    bytes: Option<&[u8]>,
    decode: &F,
) -> (r: FfiResult<GenerateTextOptions>)
    requires
        forall|text: &str| #[trigger] call_requires(*decode, (text,)),
    ensures
        options_read(bytes_view(bytes), *decode, r),
{
    let some = parse_optional_arg(bytes, "opts_json", decode);
    let ghost read = some;
    assert(decoded_some(bytes_view(bytes), "opts_json"@, *decode, read));
    match some {
        Ok(Some(options)) => Ok(options),
        Ok(None) => Ok(GenerateTextOptions::default()),
        Err(error) => Err(error),
    }
}

/// The configuration that a text stands for: nothing said is an empty object.
pub open spec fn config_text(bytes: Option<Seq<u8>>, argument: Seq<char>) -> Result<Seq<char>, FfiErrorView> {
    match optional_text(bytes, argument) {
        Err(error) => Err(error),
        Ok(Some(text)) => if says(text) {
            Ok(text)
        } else {
            Ok("{}"@)
        },
        Ok(None) => Ok("{}"@),
    }
}

/// Read a configuration text.
pub fn normalize_config_json(bytes: Option<&[u8]>, argument: &str) -> (r: Result<String, FfiError>)
    ensures
        config_text(bytes_view(bytes), argument@) == (match r {
            Ok(text) => Ok(text@),
            Err(error) => Err(error@),
        }),
{
    match opt_str_arg(bytes, argument) {
        Err(error) => Err(error),
        Ok(Some(text)) => if says_something(text.as_str()) {
            Ok(text)
        } else {
            Ok("{}".to_owned())
        },
        Ok(None) => Ok("{}".to_owned()),
    }
}

/// The prompt inside a document: bare, or the one member of an object.
pub open spec fn prompt_value(doc: JsonView) -> JsonView {
    match doc {
        JsonView::Object(fields) => match member(fields, "prompt"@) {
            Some(value) => if fields.len() == 1 {
                value
            } else {
                doc
            },
            None => doc,
        },
        _ => doc,
    }
}

/// The prompt inside a document.
pub fn prompt_json_value(json: &Json) -> (r: &Json)
    ensures
        r@ == prompt_value(json@),
{
    broadcast use lemma_model;

    match json {
        Json::Object(object) => match object.get("prompt") {
            Some(value) => if object.len() == 1 {
                value
            } else {
                json
            },
            None => json,
        },
        _ => json,
    }
}

/// Whether a decoder answers a document in this way.
pub open spec fn answers_doc<T, F: Fn(&Json) -> Result<T, WireFault>>(
    decode: F,
    doc: JsonView,
    answer: Result<T, WireFault>,
) -> bool {
    exists|json: &Json| json@ == doc && #[trigger] call_ensures(decode, (json,), answer)
}

/// Whether `r` is what a decoder makes of a prompt whose text parsed to this.
pub open spec fn prompt_from<F: Fn(&Json) -> Result<ModelPrompt, WireFault>>(
    parsed: Result<JsonView, Seq<char>>,
    decode: F,
    r: FfiResult<ModelPrompt>,
) -> bool {
    match parsed {
        Err(words) => r matches Err(e) && e@ == fault_error("prompt_json"@, WireFaultView::Text(words)),
        Ok(doc) => exists|answer: Result<ModelPrompt, WireFault>|
            #[trigger] answers_doc(decode, prompt_value(doc), answer) && lifted(answer, "prompt_json"@, r),
    }
}

/// Whether `r` is what a decoder makes of a prompt argument.
pub open spec fn prompt_read<F: Fn(&Json) -> Result<ModelPrompt, WireFault>>(
    bytes: Option<Seq<u8>>,
    decode: F,
    r: FfiResult<ModelPrompt>,
) -> bool {
    match required_text(bytes, "prompt_json"@) {
        Err(error) => r matches Err(e) && e@ == HostErrorView::Ffi(error),
        Ok(text) => prompt_from(json_parse(text), decode, r),
    }
}

/// The prompt of a text that parsed to this.
pub fn prompt_of_parsed<F: Fn(&Json) -> Result<ModelPrompt, WireFault>>(
    parsed: Result<Json, String>,
    decode: &F,
) -> (r: FfiResult<ModelPrompt>)
    requires
        forall|json: &Json| #[trigger] call_requires(*decode, (json,)),
    ensures
        prompt_from(
            match parsed {
                Ok(json) => Ok(json@),
                Err(words) => Err(words@),
            },
            *decode,
            r,
        ),
{
    match parsed {
        Err(words) => Err(wire_failure("prompt_json", WireFault::Text(words))),
        Ok(json) => {
            let value = prompt_json_value(&json);
            let answer = decode(value);
            let ghost said = answer;
            assert(answers_doc(*decode, prompt_value(json@), said));
            match answer {
                Ok(prompt) => Ok(prompt),
                Err(fault) => Err(wire_failure("prompt_json", fault)),
            }
        },
    }
}

/// Read a prompt argument: bare, or wrapped in an object.
pub fn parse_prompt_arg<F: Fn(&Json) -> Result<ModelPrompt, WireFault>>(bytes: Option<&[u8]>, decode: &F) -> (r:
    FfiResult<ModelPrompt>)
    requires
        forall|json: &Json| #[trigger] call_requires(*decode, (json,)),
    ensures
        prompt_read(bytes_view(bytes), *decode, r),
{
    match str_arg(bytes, "prompt_json") {
        Err(error) => Err(AiMuxFfiError::Ffi(error)),
        Ok(text) => prompt_of_parsed(parse_json(text.as_str()), decode),
    }
}

// Results and callbacks.

/// The error of a callback that did not return, from what it said.
pub fn callback_failure(callback_name: &str, payload: Option<&str>) -> (r: FfiError)
    ensures
        r@ == (FfiErrorView::CallbackFailure {
            message: "stream callback '"@ + callback_name@ + "' panicked: "@ + (match payload {
                Some(words) => words@,
                None => "<non-string panic>"@,
            }),
        }),
{
    let words: &str = match payload {
        Some(words) => words,
        None => "<non-string panic>",
    };
    FfiError::CallbackFailure { message: join4("stream callback '", callback_name, "' panicked: ", words) }
}

/// The error of a result that could not be written.
pub fn unwritable(words: &str) -> (r: FfiError)
    ensures
        r@ == (FfiErrorView::ResultSerialization { message: "serialize: "@ + words@ }),
{
    FfiError::ResultSerialization { message: join2("serialize: ", words) }
}

/// Check that a required pointer is there.
pub fn check_pointer(present: bool, argument: &str) -> (r: Result<(), FfiError>)
    ensures
        match r {
            Ok(()) => present,
            Err(error) => !present && error@ == (FfiErrorView::NullPointer { argument: argument@ }),
        },
{
    if present {
        Ok(())
    } else {
        Err(FfiError::null_pointer(argument))
    }
}

} // verus!
