//! What a user asks a generation with, and what the provider is asked then.
use crate::error::{json_view, pairs_view, texts_view, AiMuxError, AiMuxErrorView, Pairs};
use crate::generation_control::{ControlView, GenerationControl};
use crate::json::{Json, JsonObject, JsonView};
use crate::json_text::text_view;
use crate::message::{
    copy_parts, messages_view, prompt_view, ContentPart, ContentPartView, LanguageModelPromptMessage,
    MessageContent, MessageContentView, ModelMessage, ModelMessageView, ModelPrompt, PromptMessageView, Role,
};
use crate::options::{
    copy_prompt, format_view, object_view, AbortSignal, CallOptions, CallOptionsView, ResponseFormat,
    ResponseFormatView, TimeoutConfiguration,
};
use crate::parse_tool_call::{str_view, tool_slice_view};
use crate::sampling::{copy_real, real_view, Real};
use crate::text::join2;
use crate::tool::{tool_set_view, Tool, ToolChoice, ToolChoiceView, ToolView};
use crate::wire::Fields;
use vstd::prelude::*;

verus! {

/// Options of a text generation. The prompt and the repair callback travel
/// beside them.
pub struct GenerateTextOptions {
    pub max_output_tokens: Option<u32>,
    pub temperature: Option<Real>,
    pub stop_sequences: Option<Vec<String>>,
    pub top_p: Option<Real>,
    pub top_k: Option<Real>,
    pub presence_penalty: Option<Real>,
    pub frequency_penalty: Option<Real>,
    pub response_format: Option<ResponseFormat>,
    pub seed: Option<u64>,
    pub tools: Option<Vec<Tool>>,
    pub tool_choice: Option<ToolChoice>,
    pub headers: Option<Vec<(String, String)>>,
    pub provider_options: Option<JsonObject>,
    /// The reasoning effort.
    pub reasoning: Option<String>,
    /// System instructions, prepended to the prompt.
    pub instructions: Option<String>,
    pub body_overrides: Option<Json>,
    /// `None` leaves retrying to the provider, `Some(0)` disables it.
    pub max_retries: Option<u32>,
    pub timeout: Option<TimeoutConfiguration>,
    pub session_id: Option<String>,
    pub abort_signal: Option<AbortSignal>,
    pub include_raw_chunks: Option<bool>,
    /// The budget of the host's operation that this generation is part of.
    pub operation_control: Option<GenerationControl>,
}

#[verifier::ext_equal]
pub struct GenerateOptionsView {
    pub max_output_tokens: Option<u32>,
    pub temperature: Option<Seq<char>>,
    pub stop_sequences: Option<Seq<Seq<char>>>,
    pub top_p: Option<Seq<char>>,
    pub top_k: Option<Seq<char>>,
    pub presence_penalty: Option<Seq<char>>,
    pub frequency_penalty: Option<Seq<char>>,
    pub response_format: Option<ResponseFormatView>,
    pub seed: Option<u64>,
    pub tools: Option<Seq<ToolView>>,
    pub tool_choice: Option<ToolChoiceView>,
    pub headers: Option<Pairs>,
    pub provider_options: Option<Fields>,
    pub reasoning: Option<Seq<char>>,
    pub instructions: Option<Seq<char>>,
    pub body_overrides: Option<JsonView>,
    pub max_retries: Option<u32>,
    pub timeout: Option<TimeoutConfiguration>,
    pub session_id: Option<Seq<char>>,
    pub abort_signal: Option<AbortSignal>,
    pub include_raw_chunks: Option<bool>,
    pub operation_control: Option<ControlView>,
}

pub open spec fn choice_view(choice: Option<ToolChoice>) -> Option<ToolChoiceView> {
    match choice {
        Some(choice) => Some(choice@),
        None => None,
    }
}

pub open spec fn control_view(control: Option<GenerationControl>) -> Option<ControlView> {
    match control {
        Some(control) => Some(control@),
        None => None,
    }
}

impl View for GenerateTextOptions {
    type V = GenerateOptionsView;

    open spec fn view(&self) -> GenerateOptionsView {
        GenerateOptionsView {
            max_output_tokens: self.max_output_tokens,
            temperature: real_view(self.temperature),
            stop_sequences: texts_view(self.stop_sequences),
            top_p: real_view(self.top_p),
            top_k: real_view(self.top_k),
            presence_penalty: real_view(self.presence_penalty),
            frequency_penalty: real_view(self.frequency_penalty),
            response_format: format_view(self.response_format),
            seed: self.seed,
            tools: tool_set_view(self.tools),
            tool_choice: choice_view(self.tool_choice),
            headers: pairs_view(self.headers),
            provider_options: object_view(self.provider_options),
            reasoning: text_view(self.reasoning),
            instructions: text_view(self.instructions),
            body_overrides: json_view(self.body_overrides),
            max_retries: self.max_retries,
            timeout: self.timeout,
            session_id: text_view(self.session_id),
            abort_signal: self.abort_signal,
            include_raw_chunks: self.include_raw_chunks,
            operation_control: control_view(self.operation_control),
        }
    }
}

/// Options of which none is set.
pub open spec fn no_options() -> GenerateOptionsView {
    GenerateOptionsView {
        max_output_tokens: None,
        temperature: None,
        stop_sequences: None,
        top_p: None,
        top_k: None,
        presence_penalty: None,
        frequency_penalty: None,
        response_format: None,
        seed: None,
        tools: None,
        tool_choice: None,
        headers: None,
        provider_options: None,
        reasoning: None,
        instructions: None,
        body_overrides: None,
        max_retries: None,
        timeout: None,
        session_id: None,
        abort_signal: None,
        include_raw_chunks: None,
        operation_control: None,
    }
}

impl Default for GenerateTextOptions {
    fn default() -> (r: GenerateTextOptions)
        ensures
            r@ == no_options(),
    {
        GenerateTextOptions {
            max_output_tokens: None,
            temperature: None,
            stop_sequences: None,
            top_p: None,
            top_k: None,
            presence_penalty: None,
            frequency_penalty: None,
            response_format: None,
            seed: None,
            tools: None,
            tool_choice: None,
            headers: None,
            provider_options: None,
            reasoning: None,
            instructions: None,
            body_overrides: None,
            max_retries: None,
            timeout: None,
            session_id: None,
            abort_signal: None,
            include_raw_chunks: None,
            operation_control: None,
        }
    }
}

/// What the provider is asked when a user asks with these options.
pub open spec fn provider_options_of(o: GenerateOptionsView, prompt: Seq<PromptMessageView>) -> CallOptionsView {
    CallOptionsView {
        prompt,
        max_output_tokens: o.max_output_tokens,
        temperature: o.temperature,
        stop_sequences: o.stop_sequences,
        top_p: o.top_p,
        top_k: o.top_k,
        presence_penalty: o.presence_penalty,
        frequency_penalty: o.frequency_penalty,
        response_format: o.response_format,
        seed: o.seed,
        tools: o.tools,
        tool_choice: match o.tool_choice {
            Some(choice) => choice,
            None => ToolChoiceView::Auto,
        },
        headers: o.headers,
        provider_options: o.provider_options,
        reasoning: o.reasoning,
        body_overrides: o.body_overrides,
        max_retries: o.max_retries,
        timeout: o.timeout,
        session_id: o.session_id,
        abort_signal: o.abort_signal,
        call_id: None,
        recording_context: None,
        include_raw_chunks: o.include_raw_chunks,
    }
}

impl GenerateTextOptions {
    /// The provider-facing options.
    pub fn into_call_options(self, prompt: Vec<LanguageModelPromptMessage>) -> (r: CallOptions)
        ensures
            r@ == provider_options_of(self@, prompt_view(prompt@)),
    {
        CallOptions {
            prompt,
            max_output_tokens: self.max_output_tokens,
            temperature: self.temperature,
            stop_sequences: self.stop_sequences,
            top_p: self.top_p,
            top_k: self.top_k,
            presence_penalty: self.presence_penalty,
            frequency_penalty: self.frequency_penalty,
            response_format: self.response_format,
            seed: self.seed,
            tools: self.tools,
            tool_choice: match self.tool_choice {
                Some(choice) => choice,
                None => ToolChoice::Auto,
            },
            headers: self.headers,
            provider_options: self.provider_options,
            reasoning: self.reasoning,
            body_overrides: self.body_overrides,
            max_retries: self.max_retries,
            timeout: self.timeout,
            session_id: self.session_id,
            abort_signal: self.abort_signal,
            call_id: None,
            recording_context: None,
            include_raw_chunks: self.include_raw_chunks,
        }
    }
}

// Prompts.

/// The messages of a prompt: a text is one user message.
pub open spec fn prompt_messages(prompt: ModelPrompt) -> Seq<ModelMessageView> {
    match prompt {
        ModelPrompt::Text(text) => seq![
            ModelMessageView { role: Role::User, content: MessageContentView::Text(text@) },
        ],
        ModelPrompt::Messages(messages) => messages_view(messages@),
    }
}

/// Split a prompt into messages and instructions; the instructions pass
/// through.
pub fn split_prompt<'a>(prompt: ModelPrompt, instructions: Option<&'a str>) -> (r: (
    Vec<ModelMessage>,
    Option<&'a str>,
))
    ensures
        messages_view(r.0@) == prompt_messages(prompt),
        r.1 == instructions,
{
    match prompt {
        ModelPrompt::Text(text) => {
            let message = ModelMessage::user(text.as_str());
            let ghost said = message@;
            let mut messages: Vec<ModelMessage> = Vec::new();
            messages.push(message);
            assert(messages_view(messages@) =~= seq![said]);
            (messages, instructions)
        },
        ModelPrompt::Messages(messages) => (messages, instructions),
    }
}

/// The content of a message as parts.
pub open spec fn content_parts(content: MessageContentView) -> Seq<ContentPartView> {
    match content {
        MessageContentView::Text(text) => seq![ContentPartView::Text { text, provider_options: None }],
        MessageContentView::Parts(parts) => parts,
    }
}

/// The messages that a provider is sent.
pub open spec fn sent_messages(messages: Seq<ModelMessageView>, instructions: Option<Seq<char>>) -> Seq<
    PromptMessageView,
> {
    let plain = Seq::new(
        messages.len(),
        |i: int| sent_message(messages[i]),
    );
    match instructions {
        Some(text) => seq![system_message(text)] + plain,
        None => plain,
    }
}

pub open spec fn sent_message(message: ModelMessageView) -> PromptMessageView {
    PromptMessageView {
        role: message.role,
        content: content_parts(message.content),
        provider_options: None,
    }
}

pub open spec fn system_message(text: Seq<char>) -> PromptMessageView {
    PromptMessageView {
        role: Role::System,
        content: seq![ContentPartView::Text { text, provider_options: None }],
        provider_options: None,
    }
}

fn text_parts(text: &str) -> (r: Vec<ContentPart>)
    ensures
        crate::message::parts_view(r@) == seq![ContentPartView::Text { text: text@, provider_options: None }],
{
    let part = ContentPart::Text { text: text.to_owned(), provider_options: None };
    let ghost said = part@;
    let mut parts: Vec<ContentPart> = Vec::new();
    parts.push(part);
    assert(crate::message::parts_view(parts@) =~= seq![said]);
    parts
}

/// The messages that a provider is sent; instructions come first, as a system
/// message.
pub fn convert_to_language_model_prompt(messages: &[ModelMessage], instructions: Option<&str>) -> (r: Vec<
    LanguageModelPromptMessage,
>)
    ensures
        prompt_view(r@) == sent_messages(messages_view(messages@), str_view(instructions)),
{
    let mut out: Vec<LanguageModelPromptMessage> = Vec::new();
    let mut lead: usize = 0;
    if let Some(text) = instructions {
        out.push(
            LanguageModelPromptMessage { role: Role::System, content: text_parts(text), provider_options: None },
        );
        lead = 1;
    }
    let mut i: usize = 0;
    while i < messages.len()
        invariant
            i <= messages@.len(),
            lead == (if instructions is Some {
                1int
            } else {
                0int
            }),
            out@.len() == lead + i,
            instructions matches Some(text) ==> out@[0]@ == system_message(text@),
            forall|k: int| 0 <= k < i ==> (#[trigger] out@[lead + k])@ == sent_message(messages@[k]@),
        decreases messages.len() - i,
    {
        let content = match &messages[i].content {
            MessageContent::Text(text) => text_parts(text.as_str()),
            MessageContent::Parts(parts) => copy_parts(parts),
        };
        let message = LanguageModelPromptMessage { role: messages[i].role, content, provider_options: None };
        assert(message@ == sent_message(messages@[i as int]@));
        out.push(message);
        i = i + 1;
    }
    proof {
        let want = sent_messages(messages_view(messages@), str_view(instructions));
        assert forall|k: int| 0 <= k < out@.len() implies prompt_view(out@)[k] == want[k] by {
            if k >= lead {
                assert(out@[lead + (k - lead)]@ == sent_message(messages@[k - lead]@));
            }
        }
        assert(prompt_view(out@) =~= want);
    }
    out
}

/// What the repair of a call needs of the prompt and the options that the call
/// was generated with.
pub fn tool_call_repair_inputs<'a>(prompt: ModelPrompt, options: &'a GenerateTextOptions) -> (r: (
    Vec<ModelMessage>,
    Option<&'a str>,
    Option<&'a [Tool]>,
))
    ensures
        messages_view(r.0@) == prompt_messages(prompt),
        str_view(r.1) == options@.instructions,
        tool_slice_view(r.2) == options@.tools,
{
    let instructions: Option<&'a str> = match &options.instructions {
        Some(text) => Some(text.as_str()),
        None => None,
    };
    let (messages, instructions) = split_prompt(prompt, instructions);
    let tools: Option<&'a [Tool]> = match &options.tools {
        Some(tools) => Some(tools.as_slice()),
        None => None,
    };
    (messages, instructions, tools)
}

// Asking again what a recorded call asked.

/// What replaces recorded values when a recorded call is sent again.
pub struct ReplayOverrides {
    pub prompt: Option<Vec<LanguageModelPromptMessage>>,
    pub temperature: Option<Real>,
    pub max_output_tokens: Option<u32>,
}

#[verifier::ext_equal]
pub struct OverridesView {
    pub prompt: Option<Seq<PromptMessageView>>,
    pub temperature: Option<Seq<char>>,
    pub max_output_tokens: Option<u32>,
}

impl View for ReplayOverrides {
    type V = OverridesView;

    open spec fn view(&self) -> OverridesView {
        OverridesView {
            prompt: match self.prompt {
                Some(prompt) => Some(prompt_view(prompt@)),
                None => None,
            },
            temperature: real_view(self.temperature),
            max_output_tokens: self.max_output_tokens,
        }
    }
}

pub open spec fn overrides_view(overrides: Option<&ReplayOverrides>) -> Option<OverridesView> {
    match overrides {
        Some(overrides) => Some(overrides@),
        None => None,
    }
}

/// Options with the values that were given replaced.
pub open spec fn overridden(o: CallOptionsView, overrides: Option<OverridesView>) -> CallOptionsView {
    match overrides {
        None => o,
        Some(v) => CallOptionsView {
            prompt: match v.prompt {
                Some(prompt) => prompt,
                None => o.prompt,
            },
            temperature: match v.temperature {
                Some(temperature) => Some(temperature),
                None => o.temperature,
            },
            max_output_tokens: match v.max_output_tokens {
                Some(n) => Some(n),
                None => o.max_output_tokens,
            },
            ..o
        },
    }
}

fn apply_overrides(options: CallOptions, overrides: Option<&ReplayOverrides>) -> (r: CallOptions)
    ensures
        r@ == overridden(options@, overrides_view(overrides)),
{
    let mut options = options;
    if let Some(overrides) = overrides {
        if let Some(prompt) = &overrides.prompt {
            options.prompt = copy_prompt(prompt);
        }
        if overrides.temperature.is_some() {
            options.temperature = copy_real(&overrides.temperature);
        }
        if overrides.max_output_tokens.is_some() {
            options.max_output_tokens = overrides.max_output_tokens;
        }
    }
    options
}

/// The user-side messages of a provider-side prompt; per-message provider
/// options have no place there.
pub open spec fn asked_messages(prompt: Seq<PromptMessageView>) -> Seq<ModelMessageView> {
    Seq::new(
        prompt.len(),
        |i: int| ModelMessageView { role: prompt[i].role, content: MessageContentView::Parts(prompt[i].content) },
    )
}

/// The user-side prompt of a provider-side prompt.
pub fn model_prompt_from_lm(prompt: &Vec<LanguageModelPromptMessage>) -> (r: ModelPrompt)
    ensures
        r is Messages,
        prompt_messages(r) == asked_messages(prompt_view(prompt@)),
{
    let mut out: Vec<ModelMessage> = Vec::new();
    let mut i: usize = 0;
    while i < prompt.len()
        invariant
            i <= prompt@.len(),
            out@.len() == i,
            forall|k: int|
                0 <= k < i ==> (#[trigger] out@[k])@ == (ModelMessageView {
                    role: prompt@[k]@.role,
                    content: MessageContentView::Parts(prompt@[k]@.content),
                }),
        decreases prompt.len() - i,
    {
        out.push(
            ModelMessage {
                role: prompt[i].role,
                content: MessageContent::Parts(copy_parts(&prompt[i].content)),
            },
        );
        i = i + 1;
    }
    assert(messages_view(out@) =~= asked_messages(prompt_view(prompt@)));
    ModelPrompt::Messages(out)
}

/// The user-side options of provider-side options. Instructions are part of
/// the prompt there, and a signal does not outlive its call.
pub open spec fn user_options_of(o: CallOptionsView) -> GenerateOptionsView {
    GenerateOptionsView {
        max_output_tokens: o.max_output_tokens,
        temperature: o.temperature,
        stop_sequences: o.stop_sequences,
        top_p: o.top_p,
        top_k: o.top_k,
        presence_penalty: o.presence_penalty,
        frequency_penalty: o.frequency_penalty,
        response_format: o.response_format,
        seed: o.seed,
        tools: o.tools,
        tool_choice: if o.tool_choice is Auto {
            None
        } else {
            Some(o.tool_choice)
        },
        headers: o.headers,
        provider_options: o.provider_options,
        reasoning: o.reasoning,
        instructions: None,
        body_overrides: o.body_overrides,
        max_retries: o.max_retries,
        timeout: o.timeout,
        session_id: o.session_id,
        abort_signal: None,
        include_raw_chunks: o.include_raw_chunks,
        operation_control: None,
    }
}

/// The user-side options of provider-side options.
pub fn generate_options_from_call_options(o: CallOptions) -> (r: GenerateTextOptions)
    ensures
        r@ == user_options_of(o@),
{
    GenerateTextOptions {
        max_output_tokens: o.max_output_tokens,
        temperature: o.temperature,
        stop_sequences: o.stop_sequences,
        top_p: o.top_p,
        top_k: o.top_k,
        presence_penalty: o.presence_penalty,
        frequency_penalty: o.frequency_penalty,
        response_format: o.response_format,
        seed: o.seed,
        tools: o.tools,
        tool_choice: if o.tool_choice.is_auto() {
            None
        } else {
            Some(o.tool_choice)
        },
        headers: o.headers,
        provider_options: o.provider_options,
        reasoning: o.reasoning,
        instructions: None,
        body_overrides: o.body_overrides,
        max_retries: o.max_retries,
        timeout: o.timeout,
        session_id: o.session_id,
        abort_signal: None,
        include_raw_chunks: o.include_raw_chunks,
        operation_control: None,
    }
}

/// The prompt and options with which a recorded call is sent again, given the
/// options as they were decoded from the recording.
pub fn replay_inputs(decoded: Result<CallOptions, String>, overrides: Option<&ReplayOverrides>) -> (r: Result<
    (ModelPrompt, GenerateTextOptions),
    AiMuxError,
>)
    ensures
        match decoded {
            Err(words) => r matches Err(error) && error@ == AiMuxErrorView::JsonParse(
                "mock replay: input options invalid: "@ + words@,
            ),
            Ok(options) => {
                let asked = overridden(options@, overrides_view(overrides));
                &&& r matches Ok((prompt, options))
                &&& prompt_messages(prompt) == asked_messages(asked.prompt)
                &&& options@ == user_options_of(asked)
            },
        },
{
    match decoded {
        Err(words) => Err(
            AiMuxError::JsonParse(join2("mock replay: input options invalid: ", words.as_str())),
        ),
        Ok(options) => {
            let options = apply_overrides(options, overrides);
            let prompt = model_prompt_from_lm(&options.prompt);
            Ok((prompt, generate_options_from_call_options(options)))
        },
    }
}

/// Sending a recorded call again asks what was recorded: everything but the
/// signal and the identity of the recorded call survives the way through the
/// user's options.
pub proof fn law_replay_asks_the_same(o: CallOptionsView)
    ensures
        provider_options_of(user_options_of(o), o.prompt) == (CallOptionsView {
            abort_signal: None,
            call_id: None,
            recording_context: None,
            ..o
        }),
{
}

/// A prompt survives the way through the user's messages, but for per-message
/// provider options.
pub proof fn law_replay_sends_the_same_messages(prompt: Seq<PromptMessageView>)
    ensures
        sent_messages(asked_messages(prompt), None) == Seq::new(
            prompt.len(),
            |i: int| PromptMessageView { provider_options: None, ..prompt[i] },
        ),
{
    assert(sent_messages(asked_messages(prompt), None) =~= Seq::new(
        prompt.len(),
        |i: int| PromptMessageView { provider_options: None, ..prompt[i] },
    ));
}

} // verus!
