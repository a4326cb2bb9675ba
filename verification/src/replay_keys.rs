//! Comparing a call with a recorded one, secrets redacted on the recorded side.
use crate::error::{copy_json, json_view};
use crate::json::{documents, lemma_model, member, put, Json, JsonObject, JsonView, NumberView};
use crate::message::{prompt_view, LanguageModelPromptMessage, PromptMessageView};
use crate::options::{format_view, CallOptions, CallOptionsView, ResponseFormat, ResponseFormatView};
use crate::recording::Recording;
use crate::tool::{ToolChoice, ToolChoiceView, ToolView};
use crate::wire::{
    choice_doc, choice_json, json_array, json_natural, json_object, json_or_null, json_pairs, json_string,
    json_text_option, natural_doc, no_fields, or_null, pairs_doc, prompt_message_doc, prompt_message_json,
    text_doc, tools_doc, tools_json, Fields,
};
use vstd::prelude::*;

verus! {

// Redaction-aware comparison.

/// The sentinel that redaction leaves in place of a secret.
pub open spec fn redacted() -> Seq<char> {
    "[REDACTED]"@
}

/// Whether a recorded document stands for a requested one. A recorded
/// redaction stands for any explicit value; everything else must be equal,
/// with the same members and the same lengths.
pub open spec fn stands_for(rec: JsonView, req: JsonView) -> bool
    decreases rec,
{
    if rec == JsonView::String(redacted()) {
        !(req is Null)
    } else if rec is Null || req is Null {
        rec is Null && req is Null
    } else {
        match (rec, req) {
            (JsonView::Object(a), JsonView::Object(b)) => {
                a.len() == b.len() && forall|i: int|
                    0 <= i < a.len() ==> match member(b, (#[trigger] a[i]).0) {
                        Some(value) => stands_for(a[i].1, value),
                        None => false,
                    }
            },
            (JsonView::Array(a), JsonView::Array(b)) => {
                a.len() == b.len() && forall|i: int| 0 <= i < a.len() ==> stands_for(#[trigger] a[i], b[i])
            },
            _ => rec.same(req),
        }
    }
}

/// Compare a recorded document with a requested one, redactions as wildcards.
pub fn redaction_aware_eq(rec: &Json, req: &Json) -> (r: bool)
    ensures
        r == stands_for(rec@, req@),
    decreases rec,
{
    broadcast use lemma_model;

    if let Json::String(text) = rec {
        if *text == "[REDACTED]".to_owned() {
            return !req.is_null();
        }
    }
    if rec.is_null() || req.is_null() {
        return rec.is_null() && req.is_null();
    }
    match (rec, req) {
        (Json::Object(a), Json::Object(b)) => {
            if a.len() != b.len() {
                return false;
            }
            let mut i: usize = 0;
            while i < a.len()
                invariant
                    i <= a@.len() == b@.len(),
                    *rec == Json::Object(*a),
                    rec@ == JsonView::Object(a@),
                    req@ == JsonView::Object(b@),
                    forall|k: int|
                        0 <= k < i ==> match member(b@, (#[trigger] a@[k]).0) {
                            Some(value) => stands_for(a@[k].1, value),
                            None => false,
                        },
                decreases a@.len() - i,
            {
                assert(decreases_to!(*rec => rec->Object_0));
                let value = a.value_at(i);
                match b.get(a.name_at(i).as_str()) {
                    Some(other) => {
                        if !redaction_aware_eq(value, other) {
                            assert(!stands_for(a@[i as int].1, other@));
                            return false;
                        }
                    },
                    None => {
                        assert(member(b@, a@[i as int].0) is None);
                        return false;
                    },
                }
                i = i + 1;
            }
            true
        },
        (Json::Array(a), Json::Array(b)) => {
            if a.len() != b.len() {
                return false;
            }
            let mut i: usize = 0;
            while i < a.len()
                invariant
                    i <= a@.len() == b@.len(),
                    *rec == Json::Array(*a),
                    rec@ == JsonView::Array(documents(a@)),
                    req@ == JsonView::Array(documents(b@)),
                    forall|k: int|
                        0 <= k < i ==> stands_for(#[trigger] documents(a@)[k], documents(b@)[k]),
                decreases a@.len() - i,
            {
                assert(decreases_to!(*rec => rec->Array_0));
                assert(decreases_to!(*a => a@));
                assert(decreases_to!(a@ => a@[i as int]));
                if !redaction_aware_eq(&a[i], &b[i]) {
                    assert(!stands_for(rec@->Array_0[i as int], req@->Array_0[i as int]));
                    return false;
                }
                i = i + 1;
            }
            true
        },
        _ => rec.same(req),
    }
}

// Canonical keys.

pub open spec fn format_doc(format: Option<ResponseFormatView>) -> Option<JsonView> {
    match format {
        Some(ResponseFormatView::Text) => Some(JsonView::String("Text"@)),
        Some(ResponseFormatView::Json { schema, name, description }) => {
            let f = put(no_fields(), "schema"@, or_null(schema));
            let f = put(f, "name"@, or_null(text_doc(name)));
            let f = put(f, "description"@, or_null(text_doc(description)));
            Some(JsonView::Object(put(no_fields(), "Json"@, JsonView::Object(f))))
        },
        None => None,
    }
}

fn format_json(format: &Option<ResponseFormat>) -> (r: Option<Json>)
    ensures
        json_view(r) == format_doc(format_view(*format)),
{
    match format {
        Some(ResponseFormat::Text) => Some(json_string("Text")),
        Some(ResponseFormat::Json { schema, name, description }) => Some(
            json_object(
                JsonObject::new().with(
                    "Json",
                    json_object(
                        JsonObject::new().with("schema", json_or_null(copy_json(schema))).with(
                            "name",
                            json_or_null(json_text_option(name)),
                        ).with("description", json_or_null(json_text_option(description))),
                    ),
                ),
            ),
        ),
        None => None,
    }
}

pub open spec fn prompt_doc(prompt: Seq<PromptMessageView>) -> JsonView {
    JsonView::Array(Seq::new(prompt.len(), |i: int| prompt_message_doc(prompt[i])))
}

fn prompt_json(prompt: &Vec<LanguageModelPromptMessage>) -> (r: Json)
    ensures
        r@ == prompt_doc(prompt_view(prompt@)),
{
    let mut out: Vec<Json> = Vec::new();
    let mut i: usize = 0;
    while i < prompt.len()
        invariant
            i <= prompt.len(),
            out.len() == i,
            forall|k: int| 0 <= k < i ==> (#[trigger] out@[k])@ == prompt_message_doc(prompt@[k]@),
        decreases prompt.len() - i,
    {
        out.push(prompt_message_json(&prompt[i]));
        i = i + 1;
    }
    assert(documents(out@) =~= prompt_doc(prompt_view(prompt@))->Array_0);
    json_array(out)
}

pub open spec fn real_doc(value: Option<Seq<char>>) -> Option<JsonView> {
    match value {
        Some(text) => Some(JsonView::Number(NumberView::Float(text))),
        None => None,
    }
}

pub open spec fn count_doc(value: Option<u64>) -> Option<JsonView> {
    match value {
        Some(n) => Some(natural_doc(n)),
        None => None,
    }
}

pub open spec fn widen(value: Option<u32>) -> Option<u64> {
    match value {
        Some(n) => Some(n as u64),
        None => None,
    }
}

pub open spec fn set_doc(tools: Option<Seq<ToolView>>) -> Option<JsonView> {
    match tools {
        Some(tools) => Some(tools_doc(tools)),
        None => None,
    }
}

pub open spec fn fields_doc(fields: Option<Fields>) -> Option<JsonView> {
    match fields {
        Some(fields) => Some(JsonView::Object(fields)),
        None => None,
    }
}

/// What of a call decides its answer: the prompt and the replayable options.
pub open spec fn call_key(options: CallOptionsView) -> JsonView {
    let f = put(no_fields(), "prompt"@, prompt_doc(options.prompt));
    let f = put(f, "temperature"@, or_null(real_doc(options.temperature)));
    let f = put(f, "max_output_tokens"@, or_null(count_doc(widen(options.max_output_tokens))));
    let f = put(f, "seed"@, or_null(count_doc(options.seed)));
    let f = put(f, "response_format"@, or_null(format_doc(options.response_format)));
    let f = put(f, "tools"@, or_null(set_doc(options.tools)));
    let f = put(f, "tool_choice"@, choice_doc(options.tool_choice));
    let f = put(f, "headers"@, or_null(pairs_doc(options.headers)));
    let f = put(f, "provider_options"@, or_null(fields_doc(options.provider_options)));
    JsonView::Object(put(f, "body_overrides"@, or_null(options.body_overrides)))
}

/// The same of a recorded call. A missing option is `null`; a missing tool
/// choice is the default one.
pub open spec fn recording_key(prompt: Seq<PromptMessageView>, options: JsonView) -> JsonView {
    let f = put(no_fields(), "prompt"@, prompt_doc(prompt));
    let f = put(f, "temperature"@, options.at("temperature"@));
    let f = put(f, "max_output_tokens"@, options.at("max_output_tokens"@));
    let f = put(f, "seed"@, options.at("seed"@));
    let f = put(f, "response_format"@, options.at("response_format"@));
    let f = put(f, "tools"@, options.at("tools"@));
    let f = put(
        f,
        "tool_choice"@,
        match options.field("tool_choice"@) {
            Some(choice) => choice,
            None => choice_doc(ToolChoiceView::Auto),
        },
    );
    let f = put(f, "headers"@, options.at("headers"@));
    let f = put(f, "provider_options"@, options.at("provider_options"@));
    JsonView::Object(put(f, "body_overrides"@, options.at("body_overrides"@)))
}

fn json_count(value: Option<u64>) -> (r: Option<Json>)
    ensures
        json_view(r) == count_doc(value),
{
    match value {
        Some(n) => Some(json_natural(n)),
        None => None,
    }
}

/// The canonical key of a call.
pub fn canonical_call_key(options: &CallOptions) -> (r: Json)
    ensures
        r@ == call_key(options@),
{
    let temperature: Option<Json> = match &options.temperature {
        Some(value) => Some(value.json()),
        None => None,
    };
    let max_output_tokens: Option<u64> = match options.max_output_tokens {
        Some(n) => Some(n as u64),
        None => None,
    };
    let tools: Option<Json> = match &options.tools {
        Some(tools) => Some(tools_json(tools.as_slice())),
        None => None,
    };
    let headers: Option<Json> = match &options.headers {
        Some(list) => Some(json_pairs(list)),
        None => None,
    };
    let provider_options: Option<Json> = match &options.provider_options {
        Some(object) => Some(json_object(object.copy())),
        None => None,
    };
    json_object(
        JsonObject::new().with("prompt", prompt_json(&options.prompt)).with(
            "temperature",
            json_or_null(temperature),
        ).with("max_output_tokens", json_or_null(json_count(max_output_tokens))).with(
            "seed",
            json_or_null(json_count(options.seed)),
        ).with("response_format", json_or_null(format_json(&options.response_format))).with(
            "tools",
            json_or_null(tools),
        ).with("tool_choice", choice_json(&options.tool_choice)).with("headers", json_or_null(headers)).with(
            "provider_options",
            json_or_null(provider_options),
        ).with("body_overrides", json_or_null(copy_json(&options.body_overrides))),
    )
}

fn member_or_null(json: &Json, key: &str) -> (r: Json)
    ensures
        r@ == json@.at(key@),
{
    broadcast use lemma_model;

    match json.get(key) {
        Some(value) => value.copy(),
        None => Json::Null,
    }
}

/// The canonical key of a recorded call.
pub fn canonical_recording_key(rec: &Recording) -> (r: Json)
    ensures
        r@ == recording_key(prompt_view(rec.input.prompt@), rec.input.options@),
{
    let o = &rec.input.options;
    let choice: Json = match o.get("tool_choice") {
        Some(choice) => choice.copy(),
        None => choice_json(&ToolChoice::Auto),
    };
    json_object(
        JsonObject::new().with("prompt", prompt_json(&rec.input.prompt)).with(
            "temperature",
            member_or_null(o, "temperature"),
        ).with("max_output_tokens", member_or_null(o, "max_output_tokens")).with(
            "seed",
            member_or_null(o, "seed"),
        ).with("response_format", member_or_null(o, "response_format")).with(
            "tools",
            member_or_null(o, "tools"),
        ).with("tool_choice", choice).with("headers", member_or_null(o, "headers")).with(
            "provider_options",
            member_or_null(o, "provider_options"),
        ).with("body_overrides", member_or_null(o, "body_overrides")),
    )
}

/// The fields that a recording may hold redacted.
pub open spec fn is_redacted_field(name: Seq<char>) -> bool {
    name == "headers"@ || name == "provider_options"@ || name == "body_overrides"@
}

/// One field of two keys.
pub open spec fn field_matches(name: Seq<char>, rec: JsonView, req: JsonView) -> bool {
    if is_redacted_field(name) {
        stands_for(rec, req)
    } else {
        rec.same(req)
    }
}

/// Two keys match when their fields do.
pub open spec fn keys_match(rec: JsonView, req: JsonView) -> bool {
    match (rec, req) {
        (JsonView::Object(a), JsonView::Object(b)) => {
            a.len() == b.len() && forall|i: int|
                0 <= i < a.len() ==> match member(b, (#[trigger] a[i]).0) {
                    Some(value) => field_matches(a[i].0, a[i].1, value),
                    None => false,
                }
        },
        _ => rec.same(req),
    }
}

fn field_equal(name: &String, rec: &Json, req: &Json) -> (r: bool)
    ensures
        r == field_matches(name@, rec@, req@),
{
    if *name == "headers".to_owned() || *name == "provider_options".to_owned() || *name
        == "body_overrides".to_owned() {
        redaction_aware_eq(rec, req)
    } else {
        rec.same(req)
    }
}

/// Compare two canonical keys.
pub fn canonical_keys_match(rec_key: &Json, call_key: &Json) -> (r: bool)
    ensures
        r == keys_match(rec_key@, call_key@),
{
    broadcast use lemma_model;

    match (rec_key, call_key) {
        (Json::Object(a), Json::Object(b)) => {
            if a.len() != b.len() {
                return false;
            }
            let mut i: usize = 0;
            while i < a.len()
                invariant
                    i <= a@.len() == b@.len(),
                    rec_key@ == JsonView::Object(a@),
                    call_key@ == JsonView::Object(b@),
                    forall|k: int|
                        0 <= k < i ==> match member(b@, (#[trigger] a@[k]).0) {
                            Some(value) => field_matches(a@[k].0, a@[k].1, value),
                            None => false,
                        },
                decreases a@.len() - i,
            {
                match b.get(a.name_at(i).as_str()) {
                    Some(other) => {
                        if !field_equal(a.name_at(i), a.value_at(i), other) {
                            assert(!field_matches(a@[i as int].0, a@[i as int].1, other@));
                            return false;
                        }
                    },
                    None => {
                        assert(member(b@, a@[i as int].0) is None);
                        return false;
                    },
                }
                i = i + 1;
            }
            true
        },
        _ => rec_key.same(call_key),
    }
}

} // verus!
