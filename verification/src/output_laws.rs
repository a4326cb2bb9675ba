//! What a generation looks like from outside: as a chat completion, as an
//! object, and in words.
use crate::answer_laws::texts_answered;
use crate::error::{AiMuxErrorView, RetryErrorReason};
use crate::error_text::{api_call_words, available_words, error_words, header, listed, retry_hint};
use crate::generate::{object_of, raw_of, TextResultView};
use crate::json::JsonView;
use crate::json_text::json_print;
use crate::openai_output::{answer_text, argument_text, completion_of};
use crate::parse_tool_call::carried_text;
use crate::result::GenerateContentView;
use crate::text::decimal;
use crate::tool::ToolCallView;
use vstd::prelude::*;

verus! {

// Chat completions.

proof fn lemma_answer_text(content: Seq<GenerateContentView>)
    ensures
        answer_text(content) is Some <==> texts_answered(content).len() > 0,
        answer_text(content) matches Some(text) ==> text == texts_answered(content).flatten(),
    decreases content.len(),
{
    broadcast use Seq::lemma_flatten_push;

    if content.len() > 0 {
        let front = content.drop_last();
        lemma_answer_text(front);
        if let GenerateContentView::Text { text, .. } = content.last() {
            assert(texts_answered(content) =~= texts_answered(front).push(text));
            if texts_answered(front).len() == 0 {
                assert(texts_answered(front) =~= seq![]);
                assert(Seq::<char>::empty() + text =~= text);
            }
        }
    }
}

/// A completion has one choice. Its text is the answer's texts joined, where
/// there are any; why it stopped, its tokens and its id are the provider's, and
/// it names the model that the provider named, or the one that was asked.
pub proof fn law_a_completion_is_the_providers_answer(result: TextResultView, model_id: Seq<char>)
    ensures
        ({
            let completion = completion_of(result, model_id);
            let choice = completion.choices[0];
            &&& completion.choices.len() == 1
            &&& choice.content is Some <==> texts_answered(result.raw.content).len() > 0
            &&& choice.content matches Some(text) ==> text == texts_answered(result.raw.content).flatten()
            &&& choice.finish_reason == result.raw.finish_reason
            &&& completion.usage == result.raw.usage
            &&& completion.id == result.raw.response.id
            &&& result.raw.response.model_id matches Some(model) ==> completion.model == model
            &&& result.raw.response.model_id is None ==> completion.model == model_id
        }),
{
    lemma_answer_text(result.raw.content);
}

/// A completion has one call for each parsed call, in order, by its id and name,
/// and no list where there is none.
pub proof fn law_a_completion_has_every_call(result: TextResultView, model_id: Seq<char>)
    ensures
        ({
            let listed = completion_of(result, model_id).choices[0].tool_calls;
            &&& listed is None <==> result.tool_calls.len() == 0
            &&& listed matches Some(calls) ==> calls.len() == result.tool_calls.len() && forall|i: int|
                0 <= i < calls.len() ==> {
                    &&& (#[trigger] calls[i]).id == result.tool_calls[i].tool_call_id
                    &&& calls[i].name == result.tool_calls[i].tool_name
                    &&& calls[i].tool_type == "function"@
                    &&& calls[i].arguments == argument_text(
                        result.tool_calls[i].input,
                        result.tool_calls[i].invalid,
                        result.tool_calls[i].error,
                    )
                }
        }),
{
}

/// The argument text of a valid call is its input in print. That of an invalid
/// call is what the provider wrote: as its error carries it, or else its input,
/// a text as it is.
pub proof fn law_arguments_are_the_providers(input: JsonView, invalid: Option<bool>, error: Option<AiMuxErrorView>)
    ensures
        invalid != Some(true) ==> argument_text(input, invalid, error) == json_print(input),
        invalid == Some(true) && (error matches Some(e) && carried_text(e) is Some) ==> argument_text(
            input,
            invalid,
            error,
        ) == carried_text(error->0)->0,
        invalid == Some(true) && !(error matches Some(e) && carried_text(e) is Some) ==> argument_text(
            input,
            invalid,
            error,
        ) == (match input {
            JsonView::String(text) => text,
            _ => json_print(input),
        }),
{
}

/// A streamed call stands for the provider's call of the same id, name and
/// marks; its input is the provider's text, or the document in print.
pub proof fn law_a_streamed_call_stands_for_the_providers(call: ToolCallView)
    ensures
        ({
            let raw = raw_of(call);
            &&& raw.tool_call_id == call.tool_call_id
            &&& raw.tool_name == call.tool_name
            &&& raw.provider_executed == call.provider_executed
            &&& raw.dynamic == call.dynamic
            &&& raw.thought_signature == call.thought_signature
            &&& raw.provider_metadata == call.provider_metadata
            &&& call.input matches JsonView::String(text) ==> raw.input == text
            &&& !(call.input is String) ==> raw.input == json_print(call.input)
        }),
{
}

// Objects.

/// An object generation gives the object that the text parsed to, and reports
/// what the text generation did; text that is no document is an error.
pub proof fn law_an_object_is_what_the_text_says(raw: TextResultView, parsed: Result<JsonView, Seq<char>>)
    ensures
        match (object_of(raw, parsed), parsed) {
            (Ok(r), Ok(object)) => {
                &&& r.object == object
                &&& r.finish_reason == raw.finish_reason
                &&& r.raw_finish_reason == raw.raw_finish_reason
                &&& r.usage == raw.usage
                &&& r.warnings == raw.warnings
                &&& r.response == raw.raw.response
                &&& r.provider_metadata == raw.raw.provider_metadata
                &&& r.raw == raw
                &&& raw.reasoning_text.len() == 0 ==> r.reasoning is None
                &&& raw.reasoning_text.len() > 0 ==> r.reasoning == Some(raw.reasoning_text)
            },
            (Err(error), Err(words)) => error matches AiMuxErrorView::JsonParse(told) && ends_with(told, words),
            _ => false,
        },
{
    if let Err(words) = parsed {
        lemma_ends_with("generateObject: model output is not valid JSON after repair: "@, words);
    }
}

// Words.

/// Whether a text is another one behind something.
pub open spec fn ends_with(text: Seq<char>, tail: Seq<char>) -> bool {
    tail.len() <= text.len() && text.skip(text.len() - tail.len()) == tail
}

/// Whether a text begins with another one.
pub open spec fn starts_with(text: Seq<char>, head: Seq<char>) -> bool {
    head.len() <= text.len() && text.take(head.len() as int) == head
}

/// Whether a text holds another one at some place.
pub open spec fn mentions(text: Seq<char>, part: Seq<char>) -> bool {
    exists|i: int| 0 <= i <= text.len() - part.len() && #[trigger] text.subrange(i, i + part.len()) == part
}

pub proof fn lemma_ends_with(head: Seq<char>, tail: Seq<char>)
    ensures
        ends_with(head + tail, tail),
        starts_with(head + tail, head),
{
    assert((head + tail).skip(head.len() as int) =~= tail);
    assert((head + tail).take(head.len() as int) =~= head);
}

pub proof fn lemma_mentions(head: Seq<char>, part: Seq<char>, tail: Seq<char>)
    ensures
        mentions(head + part + tail, part),
{
    let n = head.len() as int;
    assert((head + part + tail).subrange(n, n + part.len()) =~= part);
}

proof fn lemma_mentions_more(text: Seq<char>, part: Seq<char>, head: Seq<char>, tail: Seq<char>)
    requires
        mentions(text, part),
    ensures
        mentions(head + text + tail, part),
{
    let i = choose|i: int| 0 <= i <= text.len() - part.len() && #[trigger] text.subrange(i, i + part.len()) == part;
    let n = head.len() as int;
    assert((head + text + tail).subrange(n + i, n + i + part.len()) =~= part);
}

proof fn lemma_listed(list: Seq<Seq<char>>, i: int)
    requires
        0 <= i < list.len(),
    ensures
        mentions(listed(list), list[i]),
    decreases list.len(),
{
    let none = Seq::<char>::empty();
    if list.len() == 1 {
        lemma_mentions(none, list[0], none);
        assert(none + list[0] + none =~= list[0]);
    } else {
        let front = listed(list.drop_last());
        if i == list.len() - 1 {
            lemma_mentions(front + ", "@, list.last(), none);
            assert(front + ", "@ + list.last() + none =~= listed(list));
        } else {
            lemma_listed(list.drop_last(), i);
            lemma_mentions_more(front, list[i], none, ", "@ + list.last());
            assert(none + front + (", "@ + list.last()) =~= listed(list));
        }
    }
}

/// An error that says nothing but its text says its text.
pub proof fn law_plain_errors_say_their_text(text: Seq<char>)
    ensures
        error_words(AiMuxErrorView::JsonParse(text)) == text,
        error_words(AiMuxErrorView::InvalidResponseData(text)) == text,
        error_words(AiMuxErrorView::InvalidArgument(text)) == text,
        error_words(AiMuxErrorView::InvalidPrompt(text)) == text,
        error_words(AiMuxErrorView::TokenExpired(text)) == text,
        error_words(AiMuxErrorView::UnsupportedFunctionality(text)) == text,
        error_words(AiMuxErrorView::Timeout(text)) == text,
        error_words(AiMuxErrorView::Aborted(text)) == text,
        error_words(AiMuxErrorView::Other(text)) == text,
{
}

/// A failed provider call says its message, and its status where it has one.
pub proof fn law_a_provider_error_says_its_message(error: AiMuxErrorView)
    requires
        error is ApiCall,
    ensures
        ends_with(error_words(error), error->ApiCall_0.message),
        error->ApiCall_0.status_code matches Some(status) ==> mentions(error_words(error), decimal(status as nat)),
{
    let detail = error->ApiCall_0;
    match detail.status_code {
        Some(status) => {
            lemma_ends_with("API call error: HTTP "@ + decimal(status as nat) + ": "@, detail.message);
            lemma_mentions("API call error: HTTP "@, decimal(status as nat), ": "@ + detail.message);
            assert("API call error: HTTP "@ + decimal(status as nat) + (": "@ + detail.message)
                =~= api_call_words(detail));
        },
        None => {
            lemma_ends_with("API call error: "@, detail.message);
        },
    }
}

/// The report of several attempts ends with the words of the last, and says how
/// many there were.
pub proof fn law_a_retry_error_says_its_last_error(reason: RetryErrorReason, list: Seq<AiMuxErrorView>)
    requires
        list.len() > 0,
    ensures
        ends_with(error_words(AiMuxErrorView::Retry(reason, list)), error_words(list[list.len() - 1])),
        mentions(error_words(AiMuxErrorView::Retry(reason, list)), decimal(list.len())),
{
    let words = error_words(AiMuxErrorView::Retry(reason, list));
    let last = error_words(list[list.len() - 1]);
    let middle = match reason {
        RetryErrorReason::MaxRetriesExceeded => " attempts. Last error: "@,
        RetryErrorReason::ErrorNotRetryable => " attempts with non-retryable error: "@,
    };
    lemma_ends_with("Failed after "@ + decimal(list.len()) + middle, last);
    lemma_mentions("Failed after "@, decimal(list.len()), middle + last);
    assert("Failed after "@ + decimal(list.len()) + (middle + last) =~= words);
}

/// A call of a missing tool says which tool, and every tool that there is.
pub proof fn law_a_missing_tool_is_named(error: AiMuxErrorView, i: int)
    requires
        error is NoSuchTool,
    ensures
        mentions(error_words(error), error->NoSuchTool_tool_name),
        error->NoSuchTool_available_tools matches Some(list) ==> (0 <= i < list.len() ==> mentions(
            error_words(error),
            list[i],
        )),
{
    let name = error->NoSuchTool_tool_name;
    let tools = error->NoSuchTool_available_tools;
    let lead = "Model tried to call unavailable tool '"@;
    let words = error_words(error);
    lemma_mentions(lead, name, "'. "@ + available_words(tools));
    assert(lead + name + ("'. "@ + available_words(tools)) =~= words);
    if let Some(list) = tools {
        if 0 <= i < list.len() {
            lemma_listed(list, i);
            let head = lead + name + "'. "@ + "Available tools: "@;
            lemma_mentions_more(listed(list), list[i], head, "."@);
            assert(head + listed(list) + "."@ =~= words);
        }
    }
}

/// An invalid input names its tool and ends with the cause; a failed repair
/// ends with the words of what failed.
pub proof fn law_causes_are_told(error: AiMuxErrorView)
    ensures
        error is InvalidToolInput ==> ends_with(error_words(error), error->InvalidToolInput_cause) && mentions(
            error_words(error),
            error->InvalidToolInput_tool_name,
        ),
        error is ToolCallRepair ==> ends_with(error_words(error), error_words(*error->ToolCallRepair_cause)),
        error is NoSuchModel ==> ends_with(error_words(error), error->NoSuchModel_model_id) && mentions(
            error_words(error),
            error->NoSuchModel_model_type,
        ),
        error is NoSuchProvider ==> ends_with(error_words(error), error->NoSuchProvider_provider_id),
{
    match error {
        AiMuxErrorView::InvalidToolInput { tool_name, cause, .. } => {
            lemma_ends_with("Invalid input for tool "@ + tool_name + ": "@, cause);
            lemma_mentions("Invalid input for tool "@, tool_name, ": "@ + cause);
            assert("Invalid input for tool "@ + tool_name + (": "@ + cause) =~= error_words(error));
        },
        AiMuxErrorView::ToolCallRepair { cause, .. } => {
            lemma_ends_with("Error repairing tool call: "@, error_words(*cause));
        },
        AiMuxErrorView::NoSuchModel { model_id, model_type } => {
            lemma_ends_with("No such "@ + model_type + " model: "@, model_id);
            lemma_mentions("No such "@, model_type, " model: "@ + model_id);
            assert("No such "@ + model_type + (" model: "@ + model_id) =~= error_words(error));
        },
        AiMuxErrorView::NoSuchProvider { provider_id } => {
            lemma_ends_with("No such provider: "@, provider_id);
        },
        _ => {},
    }
}

/// When to retry is what the first header of that name says, in milliseconds,
/// where it is a count; no other error and no other header says it.
pub proof fn law_the_retry_hint_is_the_headers(error: AiMuxErrorView, i: int, n: i64)
    requires
        error is ApiCall,
        error->ApiCall_0.response_headers is Some,
        0 <= i < error->ApiCall_0.response_headers->0.len(),
        error->ApiCall_0.response_headers->0[i] == ("retry-after-ms"@, decimal(n as nat)),
        0 <= n,
        forall|k: int|
            0 <= k < i ==> (#[trigger] error->ApiCall_0.response_headers->0[k]).0 != "retry-after-ms"@,
    ensures
        retry_hint(error) == Some(n),
{
    let list = error->ApiCall_0.response_headers->0;
    lemma_header_found(list, "retry-after-ms"@, i);
    let chosen = choose|m: i64| 0 <= m && decimal(n as nat) == #[trigger] decimal(m as nat);
    crate::text::lemma_decimal_injective(chosen as nat, n as nat);
}

proof fn lemma_header_found(list: Seq<(Seq<char>, Seq<char>)>, name: Seq<char>, i: int)
    requires
        0 <= i < list.len(),
        list[i].0 == name,
        forall|k: int| 0 <= k < i ==> (#[trigger] list[k]).0 != name,
    ensures
        header(list, name) == Some(list[i].1),
    decreases i,
{
    if i > 0 {
        assert(list[0].0 != name);
        let rest = list.drop_first();
        assert forall|k: int| 0 <= k < i - 1 implies (#[trigger] rest[k]).0 != name by {
            assert(list[k + 1].0 != name);
        }
        lemma_header_found(rest, name, i - 1);
    }
}

/// Where no header of that name is there, or it is no count, nothing is said of
/// when to retry.
pub proof fn law_no_header_no_retry_hint(error: AiMuxErrorView)
    ensures
        retry_hint(error) matches Some(n) ==> {
            &&& 0 <= n
            &&& error matches AiMuxErrorView::ApiCall(detail)
            &&& detail.response_headers matches Some(list)
            &&& exists|i: int|
                0 <= i < list.len() && #[trigger] list[i] == ("retry-after-ms"@, decimal(n as nat))
        },
{
    if let Some(n) = retry_hint(error) {
        let list = error->ApiCall_0.response_headers->0;
        lemma_header_is_there(list, "retry-after-ms"@);
        let text = header(list, "retry-after-ms"@)->0;
        let chosen = choose|m: i64| 0 <= m && text == #[trigger] decimal(m as nat);
        assert(chosen == n);
    }
}

proof fn lemma_header_is_there(list: Seq<(Seq<char>, Seq<char>)>, name: Seq<char>)
    ensures
        header(list, name) matches Some(text) ==> exists|i: int|
            0 <= i < list.len() && #[trigger] list[i] == (name, text),
    decreases list.len(),
{
    if list.len() > 0 {
        if list[0].0 == name {
            assert(list[0] == (name, list[0].1));
        } else {
            let rest = list.drop_first();
            lemma_header_is_there(rest, name);
            if let Some(text) = header(list, name) {
                let i = choose|i: int| 0 <= i < rest.len() && #[trigger] rest[i] == (name, text);
                assert(list[i + 1] == (name, text));
            }
        }
    }
}

} // verus!
