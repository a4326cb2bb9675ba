//! Prompts: what the user side writes, and what a provider is sent.
use crate::error::{copy_json, json_view};
use crate::json::{Json, JsonView};
use crate::json_text::text_view;
use crate::text::copy_text;
use vstd::prelude::*;
use vstd::string::*;

verus! {

#[derive(Clone, Copy, PartialEq, Eq, Structural, Debug)]
pub enum Role {
    System,
    User,
    Assistant,
    Tool,
}

/// One part of a message's content.
pub enum ContentPart {
    Text { text: String, provider_options: Option<Json> },
    Reasoning { text: String, provider_options: Option<Json> },
    ToolCall {
        tool_call_id: String,
        tool_name: String,
        input: Json,
        provider_executed: Option<bool>,
        thought_signature: Option<String>,
        provider_options: Option<Json>,
    },
    ToolResult {
        tool_call_id: String,
        tool_name: String,
        output: Json,
        is_error: Option<bool>,
        provider_options: Option<Json>,
    },
    /// Any other part, as its wire document.
    Media { document: Json },
}

pub enum MessageContent {
    Text(String),
    Parts(Vec<ContentPart>),
}

/// A message as the user side writes it.
pub struct ModelMessage {
    pub role: Role,
    pub content: MessageContent,
}

pub enum ModelPrompt {
    Text(String),
    Messages(Vec<ModelMessage>),
}

/// A message as a provider is sent it.
pub struct LanguageModelPromptMessage {
    pub role: Role,
    pub content: Vec<ContentPart>,
    pub provider_options: Option<Json>,
}

#[verifier::ext_equal]
pub enum ContentPartView {
    Text { text: Seq<char>, provider_options: Option<JsonView> },
    Reasoning { text: Seq<char>, provider_options: Option<JsonView> },
    ToolCall {
        tool_call_id: Seq<char>,
        tool_name: Seq<char>,
        input: JsonView,
        provider_executed: Option<bool>,
        thought_signature: Option<Seq<char>>,
        provider_options: Option<JsonView>,
    },
    ToolResult {
        tool_call_id: Seq<char>,
        tool_name: Seq<char>,
        output: JsonView,
        is_error: Option<bool>,
        provider_options: Option<JsonView>,
    },
    Media { document: JsonView },
}

#[verifier::ext_equal]
pub enum MessageContentView {
    Text(Seq<char>),
    Parts(Seq<ContentPartView>),
}

#[verifier::ext_equal]
pub struct ModelMessageView {
    pub role: Role,
    pub content: MessageContentView,
}

#[verifier::ext_equal]
pub struct PromptMessageView {
    pub role: Role,
    pub content: Seq<ContentPartView>,
    pub provider_options: Option<JsonView>,
}

impl View for ContentPart {
    type V = ContentPartView;

    open spec fn view(&self) -> ContentPartView {
        match *self {
            ContentPart::Text { text, provider_options } => ContentPartView::Text {
                text: text@,
                provider_options: json_view(provider_options),
            },
            ContentPart::Reasoning { text, provider_options } => ContentPartView::Reasoning {
                text: text@,
                provider_options: json_view(provider_options),
            },
            ContentPart::ToolCall {
                tool_call_id,
                tool_name,
                input,
                provider_executed,
                thought_signature,
                provider_options,
            } => ContentPartView::ToolCall {
                tool_call_id: tool_call_id@,
                tool_name: tool_name@,
                input: input@,
                provider_executed,
                thought_signature: text_view(thought_signature),
                provider_options: json_view(provider_options),
            },
            ContentPart::ToolResult { tool_call_id, tool_name, output, is_error, provider_options } =>
                ContentPartView::ToolResult {
                tool_call_id: tool_call_id@,
                tool_name: tool_name@,
                output: output@,
                is_error,
                provider_options: json_view(provider_options),
            },
            ContentPart::Media { document } => ContentPartView::Media { document: document@ },
        }
    }
}

/// The views of a message's parts.
pub open spec fn parts_view(list: Seq<ContentPart>) -> Seq<ContentPartView> {
    Seq::new(list.len(), |i: int| list[i]@)
}

impl View for MessageContent {
    type V = MessageContentView;

    open spec fn view(&self) -> MessageContentView {
        match *self {
            MessageContent::Text(text) => MessageContentView::Text(text@),
            MessageContent::Parts(parts) => MessageContentView::Parts(parts_view(parts@)),
        }
    }
}

impl View for ModelMessage {
    type V = ModelMessageView;

    open spec fn view(&self) -> ModelMessageView {
        ModelMessageView { role: self.role, content: self.content@ }
    }
}

impl View for LanguageModelPromptMessage {
    type V = PromptMessageView;

    open spec fn view(&self) -> PromptMessageView {
        PromptMessageView {
            role: self.role,
            content: parts_view(self.content@),
            provider_options: json_view(self.provider_options),
        }
    }
}

/// The views of a list of user-side messages.
pub open spec fn messages_view(list: Seq<ModelMessage>) -> Seq<ModelMessageView> {
    Seq::new(list.len(), |i: int| list[i]@)
}

/// The views of a provider-side prompt.
pub open spec fn prompt_view(list: Seq<LanguageModelPromptMessage>) -> Seq<PromptMessageView> {
    Seq::new(list.len(), |i: int| list[i]@)
}

impl ModelMessage {
    /// A message that the user wrote.
    pub fn user(text: &str) -> (r: ModelMessage)
        ensures
            r@ == (ModelMessageView { role: Role::User, content: MessageContentView::Text(text@) }),
    {
        ModelMessage { role: Role::User, content: MessageContent::Text(text.to_owned()) }
    }

    pub fn copy(&self) -> (r: ModelMessage)
        ensures
            r@ == self@,
    {
        ModelMessage {
            role: self.role,
            content: match &self.content {
                MessageContent::Text(text) => MessageContent::Text(text.clone()),
                MessageContent::Parts(parts) => MessageContent::Parts(copy_parts(parts)),
            },
        }
    }
}

impl ContentPart {
    pub fn copy(&self) -> (r: ContentPart)
        ensures
            r@ == self@,
    {
        match self {
            ContentPart::Text { text, provider_options } => ContentPart::Text {
                text: text.clone(),
                provider_options: copy_json(provider_options),
            },
            ContentPart::Reasoning { text, provider_options } => ContentPart::Reasoning {
                text: text.clone(),
                provider_options: copy_json(provider_options),
            },
            ContentPart::ToolCall {
                tool_call_id,
                tool_name,
                input,
                provider_executed,
                thought_signature,
                provider_options,
            } => ContentPart::ToolCall {
                tool_call_id: tool_call_id.clone(),
                tool_name: tool_name.clone(),
                input: input.copy(),
                provider_executed: *provider_executed,
                thought_signature: copy_text(thought_signature),
                provider_options: copy_json(provider_options),
            },
            ContentPart::ToolResult { tool_call_id, tool_name, output, is_error, provider_options } =>
                ContentPart::ToolResult {
                tool_call_id: tool_call_id.clone(),
                tool_name: tool_name.clone(),
                output: output.copy(),
                is_error: *is_error,
                provider_options: copy_json(provider_options),
            },
            ContentPart::Media { document } => ContentPart::Media { document: document.copy() },
        }
    }
}

pub fn copy_parts(list: &Vec<ContentPart>) -> (r: Vec<ContentPart>)
    ensures
        parts_view(r@) == parts_view(list@),
{
    let mut out: Vec<ContentPart> = Vec::new();
    let mut i: usize = 0;
    while i < list.len()
        invariant
            i <= list.len(),
            out.len() == i,
            forall|k: int| 0 <= k < i ==> (#[trigger] out@[k])@ == list@[k]@,
        decreases list.len() - i,
    {
        out.push(list[i].copy());
        i = i + 1;
    }
    assert(parts_view(out@) =~= parts_view(list@));
    out
}

pub fn copy_messages(list: &[ModelMessage]) -> (r: Vec<ModelMessage>)
    ensures
        messages_view(r@) == messages_view(list@),
{
    let mut out: Vec<ModelMessage> = Vec::new();
    let mut i: usize = 0;
    while i < list.len()
        invariant
            i <= list.len(),
            out.len() == i,
            forall|k: int| 0 <= k < i ==> (#[trigger] out@[k])@ == list@[k]@,
        decreases list.len() - i,
    {
        out.push(list[i].copy());
        i = i + 1;
    }
    assert(messages_view(out@) =~= messages_view(list@));
    out
}

} // verus!
