//! Rebuilding a generation from a recorded OpenAI chat-completions body.
use crate::error::{AiMuxError, AiMuxErrorView};
use crate::json::{documents, lemma_model, Json, JsonView};
use crate::json_text::{json_parse, parse_json, text_view};
use crate::result::{contents_view, GenerateContent, GenerateContentView, GenerateResult, GenerateResultView};
use crate::text::{decimal, decimal_text, join2, join4, same_text};
use crate::tool::{RawToolCall, RawToolCallView, ToolCall};
use crate::types::{
    no_tokens, no_usage, FinishReason, FinishReasonUnified, FinishReasonView, ResponseMetadata,
    ResponseMetadataView, TokenUsage, Usage, UsageView,
};
use vstd::prelude::*;
use vstd::string::*;

verus! {

/// The unified reason behind a provider's word.
pub open spec fn finish_of(word: Option<Seq<char>>) -> FinishReasonView {
    let unified = match word {
        Some(word) => if word == "stop"@ {
            FinishReasonUnified::Stop
        } else if word == "length"@ {
            FinishReasonUnified::Length
        } else if word == "content_filter"@ {
            FinishReasonUnified::ContentFilter
        } else if word == "tool_calls"@ {
            FinishReasonUnified::ToolCalls
        } else if word == "error"@ {
            FinishReasonUnified::Error
        } else {
            FinishReasonUnified::Other
        },
        None => FinishReasonUnified::Other,
    };
    FinishReasonView { unified, raw: word }
}

/// Read a provider's finish reason.
pub fn parse_finish(raw: Option<&String>) -> (r: FinishReason)
    ensures
        r@ == finish_of(
            match raw {
                Some(word) => Some(word@),
                None => None,
            },
        ),
{
    match raw {
        None => FinishReason { unified: FinishReasonUnified::Other, raw: None },
        Some(word) => {
            let text = word.as_str();
            let unified = if same_text(text, "stop") {
                FinishReasonUnified::Stop
            } else if same_text(text, "length") {
                FinishReasonUnified::Length
            } else if same_text(text, "content_filter") {
                FinishReasonUnified::ContentFilter
            } else if same_text(text, "tool_calls") {
                FinishReasonUnified::ToolCalls
            } else if same_text(text, "error") {
                FinishReasonUnified::Error
            } else {
                FinishReasonUnified::Other
            };
            FinishReason { unified, raw: Some(word.clone()) }
        },
    }
}

/// A token count. A document that is no count says nothing; a count that does
/// not fit is an error.
pub open spec fn count_of(doc: JsonView, field: Seq<char>) -> Result<Option<u32>, AiMuxErrorView> {
    match doc.natural() {
        None => Ok(None),
        Some(n) => if n <= u32::MAX {
            Ok(Some(n as u32))
        } else {
            Err(
                AiMuxErrorView::JsonParse(
                    "mock replay: usage '"@ + field + "' overflows u32: "@ + decimal(n as nat),
                ),
            )
        },
    }
}

/// The view of a fallible result.
pub open spec fn outcome<T>(r: Result<T, AiMuxError>) -> Result<T, AiMuxErrorView> {
    match r {
        Ok(value) => Ok(value),
        Err(error) => Err(error@),
    }
}

/// Read a token count.
pub fn u32_from_json(v: &Json, field: &str) -> (r: Result<Option<u32>, AiMuxError>)
    ensures
        outcome(r) == count_of(v@, field@),
{
    match v.as_u64() {
        None => Ok(None),
        Some(n) => {
            if n <= u32::MAX as u64 {
                Ok(Some(n as u32))
            } else {
                Err(
                    AiMuxError::JsonParse(
                        join4(
                            "mock replay: usage '",
                            field,
                            "' overflows u32: ",
                            decimal_text(n).as_str(),
                        ),
                    ),
                )
            }
        },
    }
}

/// A member, with `null` standing for a missing one.
fn at(json: &Json, key: &str) -> (r: Json)
    ensures
        r@ == json@.at(key@),
{
    broadcast use lemma_model;

    match json.get(key) {
        Some(value) => value.copy(),
        None => Json::Null,
    }
}

/// What an answer reports of its tokens.
pub open spec fn usage_of(doc: JsonView) -> Result<UsageView, AiMuxErrorView> {
    let usage = doc.at("usage"@);
    if usage is Null {
        Ok(no_usage())
    } else {
        match (
            count_of(usage.at("prompt_tokens"@), "prompt_tokens"@),
            count_of(
                usage.at("prompt_tokens_details"@).at("cached_tokens"@),
                "prompt_tokens_details.cached_tokens"@,
            ),
            count_of(usage.at("completion_tokens"@), "completion_tokens"@),
            count_of(
                usage.at("completion_tokens_details"@).at("reasoning_tokens"@),
                "completion_tokens_details.reasoning_tokens"@,
            ),
        ) {
            (Err(error), _, _, _) => Err(error),
            (_, Err(error), _, _) => Err(error),
            (_, _, Err(error), _) => Err(error),
            (_, _, _, Err(error)) => Err(error),
            (Ok(prompt), Ok(cached), Ok(completion), Ok(reasoning)) => Ok(
                UsageView {
                    input_tokens: TokenUsage { total: prompt, cache_read: cached, ..no_tokens() },
                    output_tokens: TokenUsage { total: completion, reasoning, ..no_tokens() },
                    raw: Some(usage),
                },
            ),
        }
    }
}

/// Read what an answer reports of its tokens.
pub fn parse_usage(v: &Json) -> (r: Result<Usage, AiMuxError>)
    ensures
        usage_of(v@) == (match r {
            Ok(usage) => Ok(usage@),
            Err(error) => Err(error@),
        }),
{
    let usage = at(v, "usage");
    if usage.is_null() {
        return Ok(Usage::unknown());
    }
    let prompt = match u32_from_json(&at(&usage, "prompt_tokens"), "prompt_tokens") {
        Ok(count) => count,
        Err(error) => {
            return Err(error);
        },
    };
    let cached = match u32_from_json(
        &at(&at(&usage, "prompt_tokens_details"), "cached_tokens"),
        "prompt_tokens_details.cached_tokens",
    ) {
        Ok(count) => count,
        Err(error) => {
            return Err(error);
        },
    };
    let completion = match u32_from_json(&at(&usage, "completion_tokens"), "completion_tokens") {
        Ok(count) => count,
        Err(error) => {
            return Err(error);
        },
    };
    let reasoning = match u32_from_json(
        &at(&at(&usage, "completion_tokens_details"), "reasoning_tokens"),
        "completion_tokens_details.reasoning_tokens",
    ) {
        Ok(count) => count,
        Err(error) => {
            return Err(error);
        },
    };
    Ok(
        Usage {
            input_tokens: TokenUsage {
                total: prompt,
                no_cache: None,
                cache_read: cached,
                cache_write: None,
                text: None,
                reasoning: None,
            },
            output_tokens: TokenUsage {
                total: completion,
                no_cache: None,
                cache_read: None,
                cache_write: None,
                text: None,
                reasoning,
            },
            raw: Some(usage),
        },
    )
}

/// A text member, empty when there is none.
pub open spec fn text_at(doc: JsonView, key: Seq<char>) -> Seq<char> {
    match doc.at(key).text() {
        Some(text) => text,
        None => Seq::empty(),
    }
}

fn get_text_at(json: &Json, key: &str) -> (r: String)
    ensures
        r@ == text_at(json@, key@),
{
    match json.get_str(key) {
        Some(text) => text.clone(),
        None => String::new(),
    }
}

fn option_text(json: &Json, key: &str) -> (r: Option<String>)
    ensures
        text_view(r) == json@.at(key@).text(),
{
    match json.get_str(key) {
        Some(text) => Some(text.clone()),
        None => None,
    }
}

/// A recorded tool call, its argument text as it was.
pub open spec fn recorded_call(entry: JsonView) -> RawToolCallView {
    let function = entry.at("function"@);
    RawToolCallView {
        tool_call_id: text_at(entry, "id"@),
        tool_name: text_at(function, "name"@),
        input: text_at(function, "arguments"@),
        provider_executed: None,
        dynamic: None,
        thought_signature: None,
        provider_metadata: None,
    }
}

/// The pieces of a recorded message: its text unless empty, then its calls.
pub open spec fn message_content(message: JsonView) -> Seq<GenerateContentView> {
    let text = text_at(message, "content"@);
    let before = if text.len() > 0 {
        seq![GenerateContentView::Text { text, provider_metadata: None }]
    } else {
        Seq::empty()
    };
    match message.at("tool_calls"@).items() {
        Some(calls) => before + Seq::new(
            calls.len(),
            |i: int| GenerateContentView::ToolCall(recorded_call(calls[i])),
        ),
        None => before,
    }
}

fn content_of_message(message: &Json) -> (r: Vec<GenerateContent>)
    ensures
        contents_view(r@) == message_content(message@),
{
    let mut content: Vec<GenerateContent> = Vec::new();
    let text = get_text_at(message, "content");
    if !text.as_str().is_empty() {
        content.push(GenerateContent::Text { text, provider_metadata: None });
    }
    let ghost before = contents_view(content@);
    assert(before =~= (if text_at(message@, "content"@).len() > 0 {
        seq![GenerateContentView::Text { text: text_at(message@, "content"@), provider_metadata: None }]
    } else {
        Seq::empty()
    }));
    let list = at(message, "tool_calls");
    if let Some(calls) = list.as_array() {
        let ghost docs = documents(calls@);
        let mut i: usize = 0;
        while i < calls.len()
            invariant
                i <= calls.len(),
                docs == documents(calls@),
                contents_view(content@) == before + Seq::new(
                    i as nat,
                    |k: int| GenerateContentView::ToolCall(recorded_call(docs[k])),
                ),
            decreases calls.len() - i,
        {
            let entry = &calls[i];
            let function = at(entry, "function");
            let ghost earlier = contents_view(content@);
            let call = RawToolCall {
                tool_call_id: get_text_at(entry, "id"),
                tool_name: get_text_at(&function, "name"),
                input: get_text_at(&function, "arguments"),
                provider_executed: None,
                dynamic: None,
                thought_signature: None,
                provider_metadata: None,
            };
            assert(call@ == recorded_call(docs[i as int]));
            content.push(GenerateContent::ToolCall(call));
            assert(contents_view(content@) =~= earlier.push(
                GenerateContentView::ToolCall(recorded_call(docs[i as int])),
            ));
            i = i + 1;
            assert(contents_view(content@) =~= before + Seq::new(
                i as nat,
                |k: int| GenerateContentView::ToolCall(recorded_call(docs[k])),
            ));
        }
    }
    assert(contents_view(content@) =~= message_content(message@));
    content
}

/// The answer that a recorded document stands for. A document without a
/// message in its first choice is not one of this format.
pub open spec fn generate_of(doc: JsonView) -> Result<GenerateResultView, AiMuxErrorView> {
    let choice = doc.at("choices"@).item(0);
    match choice.field("message"@) {
        None => Err(
            AiMuxErrorView::UnsupportedFunctionality(
                "mock replay: response is not an OpenAI chat.completions body (no choices[0].message)"@,
            ),
        ),
        Some(message) => match usage_of(doc) {
            Err(error) => Err(error),
            Ok(usage) => Ok(
                GenerateResultView {
                    content: message_content(message),
                    finish_reason: finish_of(choice.at("finish_reason"@).text()),
                    usage,
                    warnings: Seq::empty(),
                    provider_metadata: None,
                    response: ResponseMetadataView {
                        id: doc.at("id"@).text(),
                        timestamp: None,
                        model_id: doc.at("model"@).text(),
                    },
                    request_body: None,
                    response_headers: None,
                },
            ),
        },
    }
}

fn first_choice(v: &Json) -> (r: Json)
    ensures
        r@ == v@.at("choices"@).item(0),
{
    broadcast use lemma_model;

    match v.get("choices") {
        Some(choices) => match choices.get_item(0) {
            Some(choice) => choice.copy(),
            None => Json::Null,
        },
        None => Json::Null,
    }
}

/// Rebuild an answer from its recorded document.
pub fn generate_result_of(v: &Json) -> (r: Result<GenerateResult, AiMuxError>)
    ensures
        generate_of(v@) == (match r {
            Ok(result) => Ok(result@),
            Err(error) => Err(error@),
        }),
{
    let choice = first_choice(v);
    let content = match choice.get("message") {
        Some(message) => content_of_message(message),
        None => {
            return Err(
                AiMuxError::UnsupportedFunctionality(
                    "mock replay: response is not an OpenAI chat.completions body (no choices[0].message)".to_owned(),
                ),
            );
        },
    };
    let finish_reason = parse_finish(choice.get_str("finish_reason"));
    let usage = match parse_usage(v) {
        Ok(usage) => usage,
        Err(error) => {
            return Err(error);
        },
    };
    let warnings: Vec<Json> = Vec::new();
    assert(documents(warnings@) =~= Seq::<JsonView>::empty());
    Ok(
        GenerateResult {
            content,
            finish_reason,
            usage,
            warnings,
            provider_metadata: None,
            response: ResponseMetadata {
                id: option_text(v, "id"),
                timestamp: None,
                model_id: option_text(v, "model"),
            },
            request_body: None,
            response_headers: None,
        },
    )
}

/// The answer that a recorded body stands for.
pub open spec fn generate_of_body(body: Seq<char>) -> Result<GenerateResultView, AiMuxErrorView> {
    match json_parse(body) {
        Err(words) => Err(AiMuxErrorView::JsonParse("mock replay: "@ + words)),
        Ok(doc) => generate_of(doc),
    }
}

/// Rebuild an answer from its recorded body.
pub fn generate_result_of_body(body: &str) -> (r: Result<GenerateResult, AiMuxError>)
    ensures
        generate_of_body(body@) == (match r {
            Ok(result) => Ok(result@),
            Err(error) => Err(error@),
        }),
{
    match parse_json(body) {
        Err(words) => Err(AiMuxError::JsonParse(join2("mock replay: ", words.as_str()))),
        Ok(doc) => generate_result_of(&doc),
    }
}

} // verus!
