//! What a call is made with: the provider-facing options.
use crate::error::{copy_json, copy_pairs, copy_texts, json_view, pairs_view, texts_view, Pairs};
use crate::json::{Json, JsonObject, JsonView};
use crate::json_text::text_view;
use crate::message::{copy_parts, prompt_view, LanguageModelPromptMessage, PromptMessageView};
use crate::sampling::{copy_real, real_view, Real};
use crate::text::copy_text;
use crate::tool::{copy_tools, tool_set_view, Tool, ToolChoice, ToolChoiceView, ToolView};
use crate::wire::Fields;
use vstd::prelude::*;
use vstd::string::*;

verus! {

/// How the model should format its response.
pub enum ResponseFormat {
    Text,
    Json { schema: Option<Json>, name: Option<String>, description: Option<String> },
}

#[verifier::ext_equal]
pub enum ResponseFormatView {
    Text,
    Json { schema: Option<JsonView>, name: Option<Seq<char>>, description: Option<Seq<char>> },
}

/// Time limits of a call in milliseconds; `None` disables a limit.
#[derive(Clone, Copy, PartialEq, Eq, Structural, Debug)]
pub struct TimeoutConfiguration {
    /// The entire call: retries, and a streamed response to its end.
    pub total_ms: Option<u64>,
    /// One generation step with its attempts.
    pub step_ms: Option<u64>,
    /// From the start of the operation to the first output of its stream.
    pub first_chunk_ms: Option<u64>,
    /// Between consecutive output chunks of a stream.
    pub chunk_ms: Option<u64>,
}

impl TimeoutConfiguration {
    /// No limits.
    pub fn none() -> (r: TimeoutConfiguration)
        ensures
            r == (TimeoutConfiguration { total_ms: None, step_ms: None, first_chunk_ms: None, chunk_ms: None }),
    {
        TimeoutConfiguration { total_ms: None, step_ms: None, first_chunk_ms: None, chunk_ms: None }
    }
}

/// A cancellation signal, by its number. All holders of one number share one
/// signal; whether it has been aborted is observed where the signal lives.
#[derive(Clone, Copy, PartialEq, Eq, Structural, Debug)]
pub struct AbortSignal {
    pub id: u64,
}

/// Which recorded call, and which of its steps, an exchange belongs to.
pub struct RecordingContext {
    pub call_id: String,
    pub step: Option<String>,
}

#[verifier::ext_equal]
pub struct RecordingContextView {
    pub call_id: Seq<char>,
    pub step: Option<Seq<char>>,
}

/// Options of one provider call.
pub struct CallOptions {
    pub prompt: Vec<LanguageModelPromptMessage>,
    pub max_output_tokens: Option<u32>,
    pub temperature: Option<Real>,
    pub stop_sequences: Option<Vec<String>>,
    pub top_p: Option<Real>,
    pub top_k: Option<Real>,
    pub presence_penalty: Option<Real>,
    pub frequency_penalty: Option<Real>,
    pub response_format: Option<ResponseFormat>,
    pub seed: Option<u64>,
    pub tools: Option<Vec<Tool>>,
    pub tool_choice: ToolChoice,
    pub headers: Option<Vec<(String, String)>>,
    /// Provider-specific options by provider name.
    pub provider_options: Option<JsonObject>,
    pub reasoning: Option<String>,
    pub body_overrides: Option<Json>,
    pub max_retries: Option<u32>,
    pub timeout: Option<TimeoutConfiguration>,
    pub session_id: Option<String>,
    pub abort_signal: Option<AbortSignal>,
    pub call_id: Option<String>,
    pub recording_context: Option<RecordingContext>,
    pub include_raw_chunks: Option<bool>,
}

#[verifier::ext_equal]
pub struct CallOptionsView {
    pub prompt: Seq<PromptMessageView>,
    pub max_output_tokens: Option<u32>,
    pub temperature: Option<Seq<char>>,
    pub stop_sequences: Option<Seq<Seq<char>>>,
    pub top_p: Option<Seq<char>>,
    pub top_k: Option<Seq<char>>,
    pub presence_penalty: Option<Seq<char>>,
    pub frequency_penalty: Option<Seq<char>>,
    pub response_format: Option<ResponseFormatView>,
    pub seed: Option<u64>,
    pub tools: Option<Seq<ToolView>>,
    pub tool_choice: ToolChoiceView,
    pub headers: Option<Pairs>,
    pub provider_options: Option<Fields>,
    pub reasoning: Option<Seq<char>>,
    pub body_overrides: Option<JsonView>,
    pub max_retries: Option<u32>,
    pub timeout: Option<TimeoutConfiguration>,
    pub session_id: Option<Seq<char>>,
    pub abort_signal: Option<AbortSignal>,
    pub call_id: Option<Seq<char>>,
    pub recording_context: Option<RecordingContextView>,
    pub include_raw_chunks: Option<bool>,
}

impl View for ResponseFormat {
    type V = ResponseFormatView;

    open spec fn view(&self) -> ResponseFormatView {
        match *self {
            ResponseFormat::Text => ResponseFormatView::Text,
            ResponseFormat::Json { schema, name, description } => ResponseFormatView::Json {
                schema: json_view(schema),
                name: text_view(name),
                description: text_view(description),
            },
        }
    }
}

impl View for RecordingContext {
    type V = RecordingContextView;

    open spec fn view(&self) -> RecordingContextView {
        RecordingContextView { call_id: self.call_id@, step: text_view(self.step) }
    }
}

pub open spec fn format_view(format: Option<ResponseFormat>) -> Option<ResponseFormatView> {
    match format {
        Some(format) => Some(format@),
        None => None,
    }
}

pub open spec fn object_view(object: Option<JsonObject>) -> Option<Fields> {
    match object {
        Some(object) => Some(object@),
        None => None,
    }
}

pub open spec fn recording_view(context: Option<RecordingContext>) -> Option<RecordingContextView> {
    match context {
        Some(context) => Some(context@),
        None => None,
    }
}

impl View for CallOptions {
    type V = CallOptionsView;

    open spec fn view(&self) -> CallOptionsView {
        CallOptionsView {
            prompt: prompt_view(self.prompt@),
            max_output_tokens: self.max_output_tokens,
            temperature: real_view(self.temperature),
            stop_sequences: texts_view(self.stop_sequences),
            top_p: real_view(self.top_p),
            top_k: real_view(self.top_k),
            presence_penalty: real_view(self.presence_penalty),
            frequency_penalty: real_view(self.frequency_penalty),
            response_format: format_view(self.response_format),
            seed: self.seed,
            tools: tool_set_view(self.tools),
            tool_choice: self.tool_choice@,
            headers: pairs_view(self.headers),
            provider_options: object_view(self.provider_options),
            reasoning: text_view(self.reasoning),
            body_overrides: json_view(self.body_overrides),
            max_retries: self.max_retries,
            timeout: self.timeout,
            session_id: text_view(self.session_id),
            abort_signal: self.abort_signal,
            call_id: text_view(self.call_id),
            recording_context: recording_view(self.recording_context),
            include_raw_chunks: self.include_raw_chunks,
        }
    }
}

/// Options of which only the prompt is set.
pub open spec fn plain_options(prompt: Seq<PromptMessageView>) -> CallOptionsView {
    CallOptionsView {
        prompt,
        max_output_tokens: None,
        temperature: None,
        stop_sequences: None,
        top_p: None,
        top_k: None,
        presence_penalty: None,
        frequency_penalty: None,
        response_format: None,
        seed: None,
        tools: None,
        tool_choice: ToolChoiceView::Auto,
        headers: None,
        provider_options: None,
        reasoning: None,
        body_overrides: None,
        max_retries: None,
        timeout: None,
        session_id: None,
        abort_signal: None,
        call_id: None,
        recording_context: None,
        include_raw_chunks: None,
    }
}

pub fn copy_prompt(prompt: &Vec<LanguageModelPromptMessage>) -> (r: Vec<LanguageModelPromptMessage>)
    ensures
        prompt_view(r@) == prompt_view(prompt@),
{
    let mut out: Vec<LanguageModelPromptMessage> = Vec::new();
    let mut i: usize = 0;
    while i < prompt.len()
        invariant
            i <= prompt.len(),
            out.len() == i,
            forall|k: int| 0 <= k < i ==> (#[trigger] out@[k])@ == prompt@[k]@,
        decreases prompt.len() - i,
    {
        out.push(
            LanguageModelPromptMessage {
                role: prompt[i].role,
                content: copy_parts(&prompt[i].content),
                provider_options: copy_json(&prompt[i].provider_options),
            },
        );
        i = i + 1;
    }
    assert(prompt_view(out@) =~= prompt_view(prompt@));
    out
}

impl ResponseFormat {
    pub fn copy(&self) -> (r: ResponseFormat)
        ensures
            r@ == self@,
    {
        match self {
            ResponseFormat::Text => ResponseFormat::Text,
            ResponseFormat::Json { schema, name, description } => ResponseFormat::Json {
                schema: copy_json(schema),
                name: copy_text(name),
                description: copy_text(description),
            },
        }
    }
}

impl RecordingContext {
    /// The context of one step of the same call.
    pub fn child(&self, step: &str) -> (r: RecordingContext)
        ensures
            r@ == (RecordingContextView { call_id: self@.call_id, step: Some(step@) }),
    {
        RecordingContext { call_id: self.call_id.clone(), step: Some(step.to_owned()) }
    }
}

impl CallOptions {
    /// Options with a prompt and nothing else.
    pub fn new(prompt: Vec<LanguageModelPromptMessage>) -> (r: CallOptions)
        ensures
            r@ == plain_options(prompt_view(prompt@)),
    {
        CallOptions {
            prompt,
            max_output_tokens: None,
            temperature: None,
            stop_sequences: None,
            top_p: None,
            top_k: None,
            presence_penalty: None,
            frequency_penalty: None,
            response_format: None,
            seed: None,
            tools: None,
            tool_choice: ToolChoice::Auto,
            headers: None,
            provider_options: None,
            reasoning: None,
            body_overrides: None,
            max_retries: None,
            timeout: None,
            session_id: None,
            abort_signal: None,
            call_id: None,
            recording_context: None,
            include_raw_chunks: None,
        }
    }

    /// These options for one child step: a recording context, when there is
    /// one, becomes that of the step.
    pub fn for_step(&self, step: &str) -> (r: CallOptions)
        ensures
            r@ == (CallOptionsView {
                recording_context: match self@.recording_context {
                    Some(context) => Some(
                        RecordingContextView { call_id: context.call_id, step: Some(step@) },
                    ),
                    None => None,
                },
                ..self@
            }),
    {
        CallOptions {
            prompt: copy_prompt(&self.prompt),
            max_output_tokens: self.max_output_tokens,
            temperature: copy_real(&self.temperature),
            stop_sequences: match &self.stop_sequences {
                Some(list) => Some(copy_texts(list)),
                None => None,
            },
            top_p: copy_real(&self.top_p),
            top_k: copy_real(&self.top_k),
            presence_penalty: copy_real(&self.presence_penalty),
            frequency_penalty: copy_real(&self.frequency_penalty),
            response_format: match &self.response_format {
                Some(format) => Some(format.copy()),
                None => None,
            },
            seed: self.seed,
            tools: match &self.tools {
                Some(tools) => Some(copy_tools(tools.as_slice())),
                None => None,
            },
            tool_choice: self.tool_choice.copy(),
            headers: match &self.headers {
                Some(list) => Some(copy_pairs(list)),
                None => None,
            },
            provider_options: match &self.provider_options {
                Some(object) => Some(object.copy()),
                None => None,
            },
            reasoning: copy_text(&self.reasoning),
            body_overrides: copy_json(&self.body_overrides),
            max_retries: self.max_retries,
            timeout: self.timeout,
            session_id: copy_text(&self.session_id),
            abort_signal: self.abort_signal,
            call_id: copy_text(&self.call_id),
            recording_context: match &self.recording_context {
                Some(context) => Some(context.child(step)),
                None => None,
            },
            include_raw_chunks: self.include_raw_chunks,
        }
    }
}

} // verus!
