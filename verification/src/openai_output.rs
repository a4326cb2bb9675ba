//! A generation in the shape of an OpenAI chat completion.
use crate::error::{AiMuxError, AiMuxErrorView};
use crate::generate::{GenerateTextResult, TextResultView};
use crate::json::{Json, JsonView};
use crate::json_text::{json_print, print_json, text_view};
use crate::parse_tool_call::{carried_input, carried_text, raw_text, raw_tool_input};
use crate::result::{contents_view, GenerateContent, GenerateContentView};
use crate::text::copy_text;
use crate::tool::{calls_view, ToolCall, ToolCallView};
use crate::types::{FinishReason, FinishReasonView, Usage, UsageView};
use vstd::prelude::*;
use vstd::string::*;

verus! {

pub struct ChatCompletionFunction {
    pub name: String,
    /// The arguments as JSON text.
    pub arguments: String,
}

pub struct ChatCompletionToolCall {
    pub id: String,
    pub tool_type: String,
    pub function: ChatCompletionFunction,
}

pub struct ChatCompletionMessage {
    pub content: Option<String>,
    pub tool_calls: Option<Vec<ChatCompletionToolCall>>,
}

pub struct ChatCompletionChoice {
    pub message: ChatCompletionMessage,
    pub finish_reason: FinishReason,
}

/// A chat completion.
pub struct ChatCompletion {
    pub id: Option<String>,
    pub model: String,
    pub choices: Vec<ChatCompletionChoice>,
    pub usage: Usage,
}

#[verifier::ext_equal]
pub struct ChatCallView {
    pub id: Seq<char>,
    pub tool_type: Seq<char>,
    pub name: Seq<char>,
    pub arguments: Seq<char>,
}

#[verifier::ext_equal]
pub struct ChatChoiceView {
    pub content: Option<Seq<char>>,
    pub tool_calls: Option<Seq<ChatCallView>>,
    pub finish_reason: FinishReasonView,
}

#[verifier::ext_equal]
pub struct ChatCompletionView {
    pub id: Option<Seq<char>>,
    pub model: Seq<char>,
    pub choices: Seq<ChatChoiceView>,
    pub usage: UsageView,
}

impl View for ChatCompletionToolCall {
    type V = ChatCallView;

    open spec fn view(&self) -> ChatCallView {
        ChatCallView {
            id: self.id@,
            tool_type: self.tool_type@,
            name: self.function.name@,
            arguments: self.function.arguments@,
        }
    }
}

pub open spec fn chat_calls_view(list: Seq<ChatCompletionToolCall>) -> Seq<ChatCallView> {
    Seq::new(list.len(), |i: int| list[i]@)
}

impl View for ChatCompletionChoice {
    type V = ChatChoiceView;

    open spec fn view(&self) -> ChatChoiceView {
        ChatChoiceView {
            content: text_view(self.message.content),
            tool_calls: match self.message.tool_calls {
                Some(list) => Some(chat_calls_view(list@)),
                None => None,
            },
            finish_reason: self.finish_reason@,
        }
    }
}

impl View for ChatCompletion {
    type V = ChatCompletionView;

    open spec fn view(&self) -> ChatCompletionView {
        ChatCompletionView {
            id: text_view(self.id),
            model: self.model@,
            choices: Seq::new(self.choices@.len(), |i: int| self.choices@[i]@),
            usage: self.usage@,
        }
    }
}

/// The argument text of a parsed call: the provider's own text for an invalid
/// call, the printed input for a valid one.
pub open spec fn argument_text(input: JsonView, invalid: Option<bool>, error: Option<AiMuxErrorView>) -> Seq<char> {
    if invalid == Some(true) {
        match error {
            Some(error) => match carried_text(error) {
                Some(text) => text,
                None => raw_text(input),
            },
            None => raw_text(input),
        }
    } else {
        json_print(input)
    }
}

/// The argument text of a parsed call.
pub fn parsed_tool_call_arguments(input: &Json, invalid: Option<bool>, error: Option<&AiMuxError>) -> (r: String)
    ensures
        r@ == argument_text(
            input@,
            invalid,
            match error {
                Some(error) => Some(error@),
                None => None,
            },
        ),
{
    if invalid == Some(true) {
        if let Some(error) = error {
            if let Some(text) = carried_input(error) {
                return text;
            }
        }
        raw_tool_input(input)
    } else {
        print_json(input)
    }
}

pub open spec fn chat_call(call: ToolCallView) -> ChatCallView {
    ChatCallView {
        id: call.tool_call_id,
        tool_type: "function"@,
        name: call.tool_name,
        arguments: argument_text(call.input, call.invalid, call.error),
    }
}

/// The calls of a completion; no calls are no list.
pub open spec fn chat_calls(calls: Seq<ToolCallView>) -> Option<Seq<ChatCallView>> {
    if calls.len() == 0 {
        None
    } else {
        Some(Seq::new(calls.len(), |i: int| chat_call(calls[i])))
    }
}

/// The text of an answer, where it has any.
pub open spec fn answer_text(content: Seq<GenerateContentView>) -> Option<Seq<char>>
    decreases content.len(),
{
    if content.len() == 0 {
        None
    } else {
        let front = answer_text(content.drop_last());
        match content.last() {
            GenerateContentView::Text { text, .. } => match front {
                Some(before) => Some(before + text),
                None => Some(text),
            },
            _ => front,
        }
    }
}

/// A completion: the calls as they were parsed and repaired, everything else
/// from the provider's answer.
pub open spec fn completion_of(result: TextResultView, model_id: Seq<char>) -> ChatCompletionView {
    ChatCompletionView {
        id: result.raw.response.id,
        model: match result.raw.response.model_id {
            Some(model) => model,
            None => model_id,
        },
        choices: seq![
            ChatChoiceView {
                content: answer_text(result.raw.content),
                tool_calls: chat_calls(result.tool_calls),
                finish_reason: result.raw.finish_reason,
            },
        ],
        usage: result.raw.usage,
    }
}

fn text_of_answer(content: &Vec<GenerateContent>) -> (r: Option<String>)
    ensures
        text_view(r) == answer_text(contents_view(content@)),
{
    let ghost all = contents_view(content@);
    let mut out: Option<String> = None;
    let mut i: usize = 0;
    assert(all.take(0) =~= seq![]);
    while i < content.len()
        invariant
            i <= content.len(),
            all == contents_view(content@),
            text_view(out) == answer_text(all.take(i as int)),
        decreases content.len() - i,
    {
        assert(all.take(i + 1).drop_last() =~= all.take(i as int));
        assert(all.take(i + 1).last() == content@[i as int]@);
        if let GenerateContent::Text { text, .. } = &content[i] {
            out = match out {
                Some(before) => {
                    let mut longer = before;
                    longer.append(text.as_str());
                    Some(longer)
                },
                None => Some(text.clone()),
            };
        }
        i = i + 1;
    }
    assert(all.take(i as int) =~= all);
    out
}

fn calls_of_completion(calls: &Vec<ToolCall>) -> (r: Option<Vec<ChatCompletionToolCall>>)
    ensures
        (match r {
            Some(list) => Some(chat_calls_view(list@)),
            None => None,
        }) == chat_calls(calls_view(calls@)),
{
    if calls.len() == 0 {
        return None;
    }
    let mut out: Vec<ChatCompletionToolCall> = Vec::new();
    let mut i: usize = 0;
    while i < calls.len()
        invariant
            i <= calls.len(),
            out@.len() == i,
            forall|k: int| 0 <= k < i ==> (#[trigger] out@[k])@ == chat_call(calls@[k]@),
        decreases calls.len() - i,
    {
        let call = &calls[i];
        out.push(
            ChatCompletionToolCall {
                id: call.tool_call_id.clone(),
                tool_type: "function".to_owned(),
                function: ChatCompletionFunction {
                    name: call.tool_name.clone(),
                    arguments: parsed_tool_call_arguments(&call.input, call.invalid, call.error.as_ref()),
                },
            },
        );
        i = i + 1;
    }
    assert(chat_calls_view(out@) =~= Seq::new(
        calls_view(calls@).len(),
        |k: int| chat_call(calls_view(calls@)[k]),
    ));
    Some(out)
}

/// A result as a chat completion. `model_id` names the model when the provider
/// did not.
pub fn generate_text_result_to_chat_completion(result: &GenerateTextResult, model_id: &str) -> (r: ChatCompletion)
    ensures
        r@ == completion_of(result@, model_id@),
{
    let choice = ChatCompletionChoice {
        message: ChatCompletionMessage {
            content: text_of_answer(&result.raw.content),
            tool_calls: calls_of_completion(&result.tool_calls),
        },
        finish_reason: result.raw.finish_reason.copy(),
    };
    let ghost said = choice@;
    let mut choices: Vec<ChatCompletionChoice> = Vec::new();
    choices.push(choice);
    let r = ChatCompletion {
        id: copy_text(&result.raw.response.id),
        model: match &result.raw.response.model_id {
            Some(model) => model.clone(),
            None => model_id.to_owned(),
        },
        choices,
        usage: result.raw.usage.copy(),
    };
    assert(r@.choices =~= seq![said]);
    r
}

} // verus!
