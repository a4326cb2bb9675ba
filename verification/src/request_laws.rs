//! What a provider is asked is what the user asked.
use crate::error::{json_view, pairs_view, texts_view, AiMuxError};
use crate::generate_options::{
    asked_messages, convert_to_language_model_prompt, generate_options_from_call_options, overridden, overrides_view,
    prompt_messages, replay_inputs, sent_messages, tool_call_repair_inputs, GenerateTextOptions, ReplayOverrides,
};
use crate::json_text::text_view;
use crate::message::{
    messages_view, prompt_view, ContentPartView, LanguageModelPromptMessage, MessageContentView, ModelMessage,
    ModelMessageView, ModelPrompt, PromptMessageView, Role,
};
use crate::options::{format_view, object_view, CallOptions, CallOptionsView};
use crate::parse_tool_call::str_view;
use crate::sampling::real_view;
use crate::tool::{tool_set_view, Tool};
use vstd::prelude::*;

verus! {

/// Each option of the call that a provider is sent is the user's option of the
/// same name; a choice of tools that the user left open is automatic.
pub proof fn law_each_option_is_sent_under_its_own_name(
    user: GenerateTextOptions,
    prompt: Vec<LanguageModelPromptMessage>,
    sent: CallOptions,
)
    requires
        call_ensures(GenerateTextOptions::into_call_options, (user, prompt), sent),
    ensures
        prompt_view(sent.prompt@) == prompt_view(prompt@),
        sent.max_output_tokens == user.max_output_tokens,
        real_view(sent.temperature) == real_view(user.temperature),
        texts_view(sent.stop_sequences) == texts_view(user.stop_sequences),
        real_view(sent.top_p) == real_view(user.top_p),
        real_view(sent.top_k) == real_view(user.top_k),
        real_view(sent.presence_penalty) == real_view(user.presence_penalty),
        real_view(sent.frequency_penalty) == real_view(user.frequency_penalty),
        format_view(sent.response_format) == format_view(user.response_format),
        sent.seed == user.seed,
        tool_set_view(sent.tools) == tool_set_view(user.tools),
        user.tool_choice matches Some(choice) ==> sent.tool_choice@ == choice@,
        user.tool_choice is None ==> sent.tool_choice is Auto,
        pairs_view(sent.headers) == pairs_view(user.headers),
        object_view(sent.provider_options) == object_view(user.provider_options),
        text_view(sent.reasoning) == text_view(user.reasoning),
        json_view(sent.body_overrides) == json_view(user.body_overrides),
        sent.max_retries == user.max_retries,
        sent.timeout == user.timeout,
        text_view(sent.session_id) == text_view(user.session_id),
        sent.abort_signal == user.abort_signal,
        sent.include_raw_chunks == user.include_raw_chunks,
        sent.call_id is None,
        sent.recording_context is None,
{
}

/// Each option with which a recorded call is sent again is the recorded option
/// of the same name. Instructions are already in the prompt, and what belonged
/// to the recorded run does not come back.
pub proof fn law_each_recorded_option_is_asked_under_its_own_name(recorded: CallOptions, user: GenerateTextOptions)
    requires
        call_ensures(generate_options_from_call_options, (recorded,), user),
    ensures
        user.max_output_tokens == recorded.max_output_tokens,
        real_view(user.temperature) == real_view(recorded.temperature),
        texts_view(user.stop_sequences) == texts_view(recorded.stop_sequences),
        real_view(user.top_p) == real_view(recorded.top_p),
        real_view(user.top_k) == real_view(recorded.top_k),
        real_view(user.presence_penalty) == real_view(recorded.presence_penalty),
        real_view(user.frequency_penalty) == real_view(recorded.frequency_penalty),
        format_view(user.response_format) == format_view(recorded.response_format),
        user.seed == recorded.seed,
        tool_set_view(user.tools) == tool_set_view(recorded.tools),
        recorded.tool_choice is Auto ==> user.tool_choice is None,
        !(recorded.tool_choice is Auto) ==> (user.tool_choice matches Some(choice) && choice@
            == recorded.tool_choice@),
        pairs_view(user.headers) == pairs_view(recorded.headers),
        object_view(user.provider_options) == object_view(recorded.provider_options),
        text_view(user.reasoning) == text_view(recorded.reasoning),
        user.instructions is None,
        json_view(user.body_overrides) == json_view(recorded.body_overrides),
        user.max_retries == recorded.max_retries,
        user.timeout == recorded.timeout,
        text_view(user.session_id) == text_view(recorded.session_id),
        user.abort_signal is None,
        user.include_raw_chunks == recorded.include_raw_chunks,
        user.operation_control is None,
{
}

/// A value that is given for a replay replaces the recorded one of the same
/// name; nothing else changes.
pub proof fn law_overrides_replace_what_they_name(o: CallOptionsView, given: ReplayOverrides)
    ensures
        ({
            let r = overridden(o, Some(given@));
            &&& r.prompt == (match given.prompt {
                Some(prompt) => prompt_view(prompt@),
                None => o.prompt,
            })
            &&& given.temperature is Some ==> r.temperature == real_view(given.temperature)
            &&& given.temperature is None ==> r.temperature == o.temperature
            &&& given.max_output_tokens is Some ==> r.max_output_tokens == given.max_output_tokens
            &&& given.max_output_tokens is None ==> r.max_output_tokens == o.max_output_tokens
            &&& r == (CallOptionsView {
                prompt: r.prompt,
                temperature: r.temperature,
                max_output_tokens: r.max_output_tokens,
                ..o
            })
        }),
        overridden(o, None) == o,
        overrides_view(None) is None,
        overrides_view(Some(&given)) == Some(given@),
{
}

/// A prompt that is a text is one user message that says it; any other prompt
/// is its messages.
pub proof fn law_a_prompt_is_its_messages(prompt: ModelPrompt)
    ensures
        match prompt {
            ModelPrompt::Text(text) => {
                &&& prompt_messages(prompt).len() == 1
                &&& prompt_messages(prompt)[0].role == Role::User
                &&& prompt_messages(prompt)[0].content == MessageContentView::Text(text@)
            },
            ModelPrompt::Messages(messages) => {
                &&& prompt_messages(prompt).len() == messages@.len()
                &&& forall|i: int|
                    0 <= i < messages@.len() ==> (#[trigger] prompt_messages(prompt)[i]).role == messages@[i].role
                &&& forall|i: int|
                    0 <= i < messages@.len() ==> (#[trigger] prompt_messages(prompt)[i]).content
                        == messages@[i].content@
            },
        },
{
}

/// Whether content that is sent is what a message says: a text as one piece,
/// pieces as they are.
pub open spec fn is_said_by(content: Seq<ContentPartView>, message: MessageContentView) -> bool {
    match message {
        MessageContentView::Text(text) => content.len() == 1 && content[0] == (ContentPartView::Text {
            text,
            provider_options: None,
        }),
        MessageContentView::Parts(parts) => content == parts,
    }
}

/// A provider is sent the instructions, if any, as a first system message, and
/// behind them every message of the user, in order, with its role and content.
pub proof fn law_every_message_is_sent(messages: Seq<ModelMessageView>, instructions: Option<Seq<char>>)
    ensures
        ({
            let sent = sent_messages(messages, instructions);
            let lead: int = if instructions is Some {
                1
            } else {
                0
            };
            &&& sent.len() == lead + messages.len()
            &&& instructions matches Some(text) ==> sent[0].role == Role::System && is_said_by(
                sent[0].content,
                MessageContentView::Text(text),
            )
            &&& forall|i: int|
                0 <= i < messages.len() ==> (#[trigger] sent[lead + i]).role == messages[i].role && is_said_by(
                    sent[lead + i].content,
                    messages[i].content,
                )
            &&& forall|i: int| 0 <= i < sent.len() ==> (#[trigger] sent[i]).provider_options is None
        }),
{
}

/// A recorded prompt is asked again message by message, each with its role and
/// its content.
pub proof fn law_every_recorded_message_is_asked(prompt: Seq<PromptMessageView>)
    ensures
        asked_messages(prompt).len() == prompt.len(),
        forall|i: int|
            0 <= i < prompt.len() ==> (#[trigger] asked_messages(prompt)[i]).role == prompt[i].role
                && asked_messages(prompt)[i].content == MessageContentView::Parts(prompt[i].content),
{
}

/// The prompt that a provider is sent has the instructions first, where there
/// are any, and then every message with its role and its content.
pub proof fn law_the_prompt_sent_is_the_users(
    messages: &[ModelMessage],
    instructions: Option<&str>,
    i: int,
    r: Vec<LanguageModelPromptMessage>,
)
    requires
        call_ensures(convert_to_language_model_prompt, (messages, instructions), r),
    ensures
        instructions is None ==> r@.len() == messages@.len(),
        instructions is None && 0 <= i < messages@.len() ==> r@[i].role == messages@[i].role && is_said_by(
            r@[i]@.content,
            messages@[i].content@,
        ),
        instructions matches Some(text) ==> r@.len() == messages@.len() + 1 && r@[0].role == Role::System
            && is_said_by(r@[0]@.content, MessageContentView::Text(text@)),
        instructions is Some && 0 <= i < messages@.len() ==> r@[i + 1].role == messages@[i].role && is_said_by(
            r@[i + 1]@.content,
            messages@[i].content@,
        ),
{
    let sent = sent_messages(messages_view(messages@), str_view(instructions));
    law_every_message_is_sent(messages_view(messages@), str_view(instructions));
    let lead: int = if instructions is Some {
        1
    } else {
        0
    };
    assert(prompt_view(r@).len() == r@.len());
    if instructions is Some {
        assert(prompt_view(r@)[0] == r@[0]@);
    }
    if 0 <= i < messages@.len() {
        assert(sent[lead + i] == prompt_view(r@)[lead + i]);
        assert(prompt_view(r@)[lead + i] == r@[lead + i]@);
        assert(messages_view(messages@)[i] == messages@[i]@);
    }
}

/// A prompt is split into its messages, and the instructions pass through; the
/// repair of a call is given those, the user's own instructions and tools.
pub proof fn law_a_repair_is_given_the_users_inputs<'a>(
    prompt: ModelPrompt,
    options: GenerateTextOptions,
    r: (Vec<ModelMessage>, Option<&'a str>, Option<&'a [Tool]>),
)
    requires
        call_ensures(tool_call_repair_inputs, (prompt, &options), r),
    ensures
        prompt matches ModelPrompt::Messages(messages) ==> messages_view(r.0@) == messages_view(messages@),
        prompt matches ModelPrompt::Text(text) ==> r.0@.len() == 1 && r.0@[0].role == Role::User
            && r.0@[0].content@ == MessageContentView::Text(text@),
        str_view(r.1) == text_view(options.instructions),
        crate::parse_tool_call::tool_slice_view(r.2) == tool_set_view(options.tools),
{
    law_a_prompt_is_its_messages(prompt);
    if let ModelPrompt::Text(_) = prompt {
        assert(messages_view(r.0@)[0] == r.0@[0]@);
    }
}

/// A recorded call is asked again with the recorded options, but for what is
/// given in their place; options that cannot be decoded are an error.
pub proof fn law_a_recorded_call_is_asked_again(
    decoded: Result<CallOptions, String>,
    given: ReplayOverrides,
    r: Result<(ModelPrompt, GenerateTextOptions), AiMuxError>,
)
    requires
        call_ensures(replay_inputs, (decoded, Some(&given)), r),
    ensures
        decoded is Err ==> (r matches Err(error) && error@ is JsonParse),
        decoded matches Ok(recorded) ==> {
            &&& r matches Ok((prompt, user))
            &&& given.prompt is None ==> prompt_messages(prompt) == asked_messages(prompt_view(recorded.prompt@))
            &&& given.prompt matches Some(other) ==> prompt_messages(prompt) == asked_messages(prompt_view(other@))
            &&& given.temperature is None ==> real_view(user.temperature) == real_view(recorded.temperature)
            &&& given.temperature is Some ==> real_view(user.temperature) == real_view(given.temperature)
            &&& given.max_output_tokens is None ==> user.max_output_tokens == recorded.max_output_tokens
            &&& given.max_output_tokens is Some ==> user.max_output_tokens == given.max_output_tokens
            &&& real_view(user.top_p) == real_view(recorded.top_p)
            &&& real_view(user.top_k) == real_view(recorded.top_k)
            &&& real_view(user.presence_penalty) == real_view(recorded.presence_penalty)
            &&& real_view(user.frequency_penalty) == real_view(recorded.frequency_penalty)
            &&& texts_view(user.stop_sequences) == texts_view(recorded.stop_sequences)
            &&& user.seed == recorded.seed
            &&& tool_set_view(user.tools) == tool_set_view(recorded.tools)
        },
{
    if let Ok(recorded) = decoded {
        law_overrides_replace_what_they_name(recorded@, given);
    }
}

} // verus!
