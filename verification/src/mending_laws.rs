//! How calls are read, repaired and told, said of what the functions are given
//! and what they give back.
use crate::asking_laws::{
    are_options_of, blames, is_prompt_of, is_read_from, lemma_decoded, lemma_options, lemma_prompt, readable,
};
use crate::call_laws::{
    denotes, denotes_nothing, first_error, is_function_of, law_a_repair_replaces_or_keeps,
    law_a_repair_works_on_the_providers_text, law_the_schema_told_is_the_functions, lemma_denotes, shown_invalid,
    shown_valid,
};
use crate::error::{AiMuxError, AiMuxErrorView};
use crate::generate_options::{prompt_messages, GenerateOptionsView, GenerateTextOptions};
use crate::generation::CallParsing;
use crate::host_args::{bytes_view, decoded, options_read, prompt_read, required_text, WireFault};
use crate::host_calls::{
    aimux_apply_tool_call_repair, aimux_apply_tool_call_repair_to_result, aimux_tool_call_repair_context, call_of,
    call_settles, call_writes_to, call_written, context_written, reply_outcome, result_of_arg, result_settles,
    result_writes_to, result_written, text_outcome,
};
use crate::host_error::{FfiResult, HostErrorView};
use crate::json::{Json, JsonView};
use crate::json_text::{json_parse, json_print};
use crate::message::{messages_view, ModelMessage, ModelPrompt};
use crate::parse_tool_call::{
    answer_view, applied, apply_tool_call_repair, begin_tool_call, carried_input, carried_text, context_doc,
    first_step, make_context, parse_json_input, raw_from_invalid, raw_tool_input, recovered, repaired_view, reply_view,
    resolved, str_view, tool_call_repair_context, tool_slice_view, validated, RepairContextView, ToolCallRepairContext,
    ToolCallRepairReply, ToolCallStep,
};
use crate::repair_result::patched_result;
use crate::tool::{tools_view, RawToolCall, RawToolCallView, Tool, ToolCall, ToolCallView, ToolView};
use crate::wire::call_doc;
use crate::wire_read::{read_call, Words};
use vstd::prelude::*;
use vstd::utf8::{decode_utf8, valid_utf8};

verus! {

// Reading a call.

/// The input of a call is what its text denotes; a text that denotes nothing is
/// an invalid input of that tool.
pub proof fn law_an_input_is_what_its_text_denotes(call: &RawToolCall, input: JsonView, r: Result<Json, AiMuxError>)
    requires
        call_ensures(parse_json_input, (call,), r),
    ensures
        denotes(call.input@, input) ==> (r matches Ok(doc) && doc@ == input),
        denotes_nothing(call.input@) ==> {
            &&& r matches Err(error)
            &&& error@ matches AiMuxErrorView::InvalidToolInput { tool_name, tool_input, .. }
            &&& tool_name == call.tool_name@
            &&& tool_input == call.input@
        },
{
    lemma_denotes(call@, input);
}

/// Against a tool set a call is done where it is valid, and is otherwise handed
/// back as it came, with its error; nothing is decided about it.
pub proof fn law_how_far_a_call_comes(call: RawToolCall, tools: &[Tool], r: ToolCallStep)
    requires
        call_ensures(begin_tool_call, (call, Some(tools)), r),
    ensures
        exists|said: Seq<char>|
            match #[trigger] validated(call@, tools_view(tools@), said) {
                Ok((input, dynamic)) => r matches ToolCallStep::Done(done) && shown_valid(
                    call@,
                    input,
                    dynamic,
                    done@,
                ),
                Err(error) => r matches ToolCallStep::Failed { tool_call, error: told } && tool_call@ == call@ && told@
                    == error,
            },
{
    let said = choose|said: Seq<char>|
        r@ == #[trigger] first_step(call@, tool_slice_view(Some(tools)), said);
    let checked = validated(call@, tools_view(tools@), said);
}

/// The text that a failed call is known by is the one that its first error
/// tells of, or else its input: a text as it is, a document in print.
pub proof fn law_which_text_a_failed_call_had(
    error: &AiMuxError,
    carried: Option<String>,
    input: &Json,
    text: String,
)
    requires
        call_ensures(carried_input, (error,), carried),
        call_ensures(raw_tool_input, (input,), text),
    ensures
        match first_error(error@) {
            AiMuxErrorView::InvalidToolInput { tool_input, .. } => carried matches Some(told) && told@ == tool_input,
            AiMuxErrorView::NoSuchTool { tool_input: Some(own), .. } => carried matches Some(told) && told@ == own,
            _ => carried is None,
        },
        input@ matches JsonView::String(own) ==> text@ == own,
        !(input@ is String) ==> text@ == json_print(input@),
{
    lemma_carried_text(error@);
}

proof fn lemma_carried_text(error: AiMuxErrorView)
    ensures
        match first_error(error) {
            AiMuxErrorView::InvalidToolInput { tool_input, .. } => carried_text(error) == Some(tool_input),
            AiMuxErrorView::NoSuchTool { tool_input, .. } => carried_text(error) == tool_input,
            _ => carried_text(error) is None,
        },
    decreases error,
{
    if let AiMuxErrorView::ToolCallRepair { original_error, .. } = error {
        lemma_carried_text(*original_error);
    }
}

/// The call behind an invalid one is the provider's own, with its text and its
/// error; a call that is not invalid, or carries no error, has none.
pub proof fn law_the_call_behind_an_invalid_one(call: &ToolCall, r: Result<(RawToolCall, AiMuxError), AiMuxError>)
    requires
        call_ensures(raw_from_invalid, (call,), r),
    ensures
        r is Ok <==> call.invalid == Some(true) && call.error is Some,
        r matches Err(error) ==> error@ is InvalidArgument,
        r matches Ok((raw, error)) ==> {
            &&& call@.error == Some(error@)
            &&& raw.tool_call_id@ == call.tool_call_id@
            &&& raw.tool_name@ == call.tool_name@
            &&& raw.provider_executed == call.provider_executed
            &&& raw.dynamic == call.dynamic
            &&& raw@.thought_signature == call@.thought_signature
            &&& raw@.provider_metadata == call@.provider_metadata
            &&& match first_error(error@) {
                AiMuxErrorView::InvalidToolInput { tool_input, .. } => raw.input@ == tool_input,
                AiMuxErrorView::NoSuchTool { tool_input: Some(text), .. } => raw.input@ == text,
                _ => match call.input@ {
                    JsonView::String(text) => raw.input@ == text,
                    other => raw.input@ == json_print(other),
                },
            }
        },
{
    law_a_repair_works_on_the_providers_text(call@);
}

// Repairing a call.

/// A repair is told the call, its error, the tools, the messages and the
/// instructions, each as it is.
pub proof fn law_what_a_repair_is_told(
    call: &RawToolCall,
    error: &AiMuxError,
    tools: &[Tool],
    messages: &[ModelMessage],
    instructions: Option<&str>,
    r: ToolCallRepairContext,
)
    requires
        call_ensures(make_context, (call, error, tools, messages, instructions), r),
    ensures
        r.tool_call@ == call@,
        r.error@ == error@,
        r.tools@.len() == tools@.len(),
        forall|i: int| 0 <= i < tools@.len() ==> #[trigger] r.tools@[i]@ == tools@[i]@,
        r.messages@.len() == messages@.len(),
        forall|i: int| 0 <= i < messages@.len() ==> #[trigger] r.messages@[i]@ == messages@[i]@,
        match instructions {
            Some(text) => (r.instructions matches Some(own) && own@ == text@) && (r.system matches Some(own) && own@
                == text@),
            None => r.instructions is None && r.system is None,
        },
{
    assert(tools_view(r.tools@) == tools_view(tools@));
    assert(messages_view(r.messages@) == messages_view(messages@));
    assert forall|i: int| 0 <= i < tools@.len() implies #[trigger] r.tools@[i]@ == tools@[i]@ by {
        assert(tools_view(r.tools@)[i] == tools_view(tools@)[i]);
    }
    assert(tools_view(r.tools@).len() == tools_view(tools@).len());
    assert forall|i: int| 0 <= i < messages@.len() implies #[trigger] r.messages@[i]@ == messages@[i]@ by {
        assert(messages_view(r.messages@)[i] == messages_view(messages@)[i]);
    }
    assert(messages_view(r.messages@).len() == messages_view(messages@).len());
}

/// The schema that a repair is told is that of the first function of the name,
/// and that of an empty object where there is none.
pub proof fn law_which_schema_a_repair_is_told(context: &ToolCallRepairContext, name: &str, i: int, r: Json)
    requires
        call_ensures(ToolCallRepairContext::input_schema, (context, name), r),
        0 <= i <= context@.tools.len(),
        forall|k: int| 0 <= k < i ==> !is_function_of(#[trigger] context@.tools[k], name@),
        i < context@.tools.len() ==> is_function_of(context@.tools[i], name@),
    ensures
        i < context@.tools.len() ==> r@ == context@.tools[i]->input_schema,
        i == context@.tools.len() ==> r@.field("type"@) == Some(JsonView::String("object"@)) && r@.field(
            "properties"@,
        ) == Some(JsonView::Object(seq![])),
{
    law_the_schema_told_is_the_functions(context@.tools, name@, i);
}

/// A host is shown the context of an invalid call, and nothing where the call
/// was made without tools; a call that is not invalid is refused.
pub proof fn law_what_a_host_is_shown(
    call: &ToolCall,
    tools: Option<&[Tool]>,
    messages: &[ModelMessage],
    instructions: Option<&str>,
    r: Result<Option<Json>, AiMuxError>,
)
    requires
        call_ensures(tool_call_repair_context, (call, tools, messages, instructions), r),
    ensures
        tools is None ==> (r matches Ok(shown) && shown is None),
        tools is Some && (call.invalid != Some(true) || call.error is None) ==> (r matches Err(error) && error@
            is InvalidArgument),
        tools matches Some(set) ==> (call.invalid == Some(true) && call.error is Some ==> {
            &&& r matches Ok(Some(shown))
            &&& exists|raw: RawToolCallView|
                {
                    &&& raw.tool_call_id == call.tool_call_id@
                    &&& raw.tool_name == call.tool_name@
                    &&& shown@ == #[trigger] context_doc(
                        RepairContextView {
                            instructions: str_view(instructions),
                            system: str_view(instructions),
                            messages: messages_view(messages@),
                            tool_call: raw,
                            tools: tools_view(set@),
                            error: call@.error->0,
                        },
                    )
                }
        }),
{
    law_a_repair_works_on_the_providers_text(call@);
    if tools is Some && call.invalid == Some(true) && call.error is Some {
        let raw = recovered(call@)->Ok_0.0;
        let shown = r->Ok_0->Some_0;
        assert(shown@ == context_doc(
            RepairContextView {
                instructions: str_view(instructions),
                system: str_view(instructions),
                messages: messages_view(messages@),
                tool_call: raw,
                tools: tools_view(tools->0@),
                error: call@.error->0,
            },
        ));
    }
}

/// Whether a call stands for the provider's call behind an invalid one.
pub open spec fn stands_behind(raw: RawToolCallView, call: ToolCallView) -> bool {
    &&& raw.tool_call_id == call.tool_call_id
    &&& raw.tool_name == call.tool_name
    &&& raw.provider_executed == call.provider_executed
    &&& raw.thought_signature == call.thought_signature
    &&& raw.provider_metadata == call.provider_metadata
}

/// Whether a replacement was held to the tools: it counts where it is valid,
/// and else its failure is told together with the first one.
pub open spec fn is_replaced(
    raw: RawToolCallView,
    error: AiMuxErrorView,
    tools: Seq<ToolView>,
    other: RawToolCallView,
    done: ToolCallView,
) -> bool {
    exists|said: Seq<char>|
        match #[trigger] validated(other, tools, said) {
            Ok((input, dynamic)) => shown_valid(other, input, dynamic, done),
            Err(cause) => shown_invalid(
                raw,
                AiMuxErrorView::ToolCallRepair { original_error: Box::new(error), cause: Box::new(cause) },
                done,
            ),
        }
}

/// Whether a call is what a reply makes of it.
pub open spec fn is_mended(
    raw: RawToolCallView,
    error: AiMuxErrorView,
    tools: Seq<ToolView>,
    reply: ToolCallRepairReply,
    done: ToolCallView,
) -> bool {
    match reply {
        ToolCallRepairReply::Unchanged => shown_invalid(raw, error, done),
        ToolCallRepairReply::Failed { message } => shown_invalid(
            raw,
            AiMuxErrorView::ToolCallRepair {
                original_error: Box::new(error),
                cause: Box::new(AiMuxErrorView::Other(message@)),
            },
            done,
        ),
        ToolCallRepairReply::Repaired { tool_call } => is_replaced(raw, error, tools, tool_call@, done),
    }
}

/// A host's reply repairs an invalid call as the callback's answer would:
/// unchanged keeps the error, a failure is told with the error, and a
/// replacement counts where it is valid. Without tools, or where nothing is
/// invalid, nothing is repaired.
pub proof fn law_what_a_reply_does_to_a_call(
    call: &ToolCall,
    tools: Option<&[Tool]>,
    reply: ToolCallRepairReply,
    r: Result<ToolCall, AiMuxError>,
)
    requires
        call_ensures(apply_tool_call_repair, (call, tools, reply), r),
    ensures
        r is Ok <==> tools is Some && call.invalid == Some(true) && call.error is Some,
        r matches Err(error) ==> error@ is InvalidArgument,
        r matches Ok(done) ==> exists|raw: RawToolCallView|
            #[trigger] stands_behind(raw, call@) && is_mended(
                raw,
                call@.error->0,
                tools_view(tools->0@),
                reply,
                done@,
            ),
{
    law_a_repair_works_on_the_providers_text(call@);
    let said = choose|said: Seq<char>|
        repaired_view(r) == #[trigger] applied(call@, tool_slice_view(tools), reply_view(reply), said);
    if r is Ok {
        let (raw, error) = recovered(call@)->Ok_0;
        law_a_repair_replaces_or_keeps(raw, error, tools_view(tools->0@), reply_view(reply), said);
        assert(stands_behind(raw, call@));
        if let ToolCallRepairReply::Repaired { tool_call: other } = reply {
            let checked = validated(other@, tools_view(tools->0@), said);
        }
    }
}

/// What a generation asks a repair about is told from what it runs with, and an
/// answer settles the call as a callback's answer would.
pub proof fn law_a_generations_repairs(
    parsing: &CallParsing,
    call: &RawToolCall,
    error: &AiMuxError,
    told: ToolCallRepairContext,
)
    requires
        parsing@.tools is Some,
        call_ensures(CallParsing::context, (parsing, call, error), told),
    ensures
        told@.tool_call == call@,
        told@.error == error@,
        told@.tools == parsing@.tools->0,
        told@.messages == parsing@.messages,
        told@.instructions == parsing@.instructions,
        told@.system == parsing@.instructions,
{
}

/// Without an answer a call keeps its error; an answer that fails is told with
/// it.
pub proof fn law_how_a_generation_settles_a_call(
    parsing: &CallParsing,
    call: RawToolCall,
    error: AiMuxError,
    answer: Result<Option<RawToolCall>, AiMuxError>,
    r: ToolCall,
)
    requires
        parsing@.tools is Some,
        call_ensures(CallParsing::settle, (parsing, call, error, answer), r),
    ensures
        answer matches Ok(None) ==> shown_invalid(call@, error@, r@),
        answer matches Err(cause) ==> shown_invalid(
            call@,
            AiMuxErrorView::ToolCallRepair { original_error: Box::new(error@), cause: Box::new(cause@) },
            r@,
        ),
        answer matches Ok(Some(other)) ==> is_replaced(call@, error@, parsing@.tools->0, other@, r@),
{
    let said = choose|said: Seq<char>|
        r@ == #[trigger] resolved(call@, error@, parsing@.tools.unwrap(), answer_view(answer), said);
    law_a_repair_replaces_or_keeps(call@, error@, parsing@.tools->0, answer_view(answer), said);
    if let Ok(Some(other)) = answer {
        let checked = validated(other@, parsing@.tools->0, said);
    }
}

// Repairs that a host asks for.

/// Whether an argument's text is a document from which this call is read.
pub open spec fn is_call_of(bytes: Option<&[u8]>, call: ToolCallView) -> bool {
    &&& bytes matches Some(list)
    &&& valid_utf8(list@)
    &&& json_parse(decode_utf8(list@)) matches Ok(doc)
    &&& read_call(doc) == Ok::<ToolCallView, Words>(call)
}

/// Whether a reply is what a decoder makes of an argument.
pub open spec fn is_reply_of<R: Fn(&str) -> Result<ToolCallRepairReply, WireFault>>(
    bytes: Option<&[u8]>,
    decode: R,
    reply: ToolCallRepairReply,
) -> bool {
    is_read_from(bytes, decode, reply)
}

/// What a host gets for an invalid call and its reply is the call that the reply
/// makes of it, printed: the call is read from the call argument, the tools from
/// the options, the reply from the reply argument.
pub proof fn law_what_a_hosts_reply_comes_to<
    O: Fn(&str) -> Result<GenerateTextOptions, WireFault>,
    R: Fn(&str) -> Result<ToolCallRepairReply, WireFault>,
>(
    tool_call_json: Option<&[u8]>,
    opts_json: Option<&[u8]>,
    reply_json: Option<&[u8]>,
    decode_options: &O,
    decode_reply: &R,
    r: FfiResult<String>,
)
    requires
        call_ensures(
            aimux_apply_tool_call_repair::<O, R>,
            (tool_call_json, opts_json, reply_json, decode_options, decode_reply),
            r,
        ),
    ensures
        r matches Ok(text) ==> exists|
            call: ToolCallView,
            options: GenerateTextOptions,
            reply: ToolCallRepairReply,
            raw: RawToolCallView,
            done: ToolCallView,
        |
            {
                &&& is_call_of(tool_call_json, call)
                &&& #[trigger] are_options_of(opts_json, *decode_options, options)
                &&& #[trigger] is_reply_of(reply_json, *decode_reply, reply)
                &&& #[trigger] stands_behind(raw, call)
                &&& options@.tools is Some
                &&& call.error is Some
                &&& #[trigger] is_mended(raw, call.error->0, options@.tools->0, reply, done)
                &&& text@ == json_print(call_doc(done))
            },
        !readable(tool_call_json) ==> (r matches Err(error) && (error@ matches HostErrorView::Ffi(fault) && blames(
            fault,
            tool_call_json,
            "tool_call_json"@,
        ))),
{
    if r is Ok {
        let text = r->Ok_0;
        let call = call_of(bytes_view(tool_call_json))->Ok_0;
        let o = choose|o: FfiResult<GenerateTextOptions>|
            {
                &&& #[trigger] options_read(bytes_view(opts_json), *decode_options, o)
                &&& call_settles(call, o, bytes_view(reply_json), *decode_reply, text_outcome(r))
            };
        lemma_options(opts_json, *decode_options, o);
        let options = o->Ok_0;
        let read = choose|read: FfiResult<ToolCallRepairReply>|
            {
                &&& #[trigger] decoded(bytes_view(reply_json), "reply_json"@, *decode_reply, read)
                &&& call_writes_to(call, options@.tools, reply_outcome(read), text_outcome(r))
            };
        lemma_decoded(reply_json, "reply_json"@, *decode_reply, read);
        let reply = read->Ok_0;
        let said = choose|said: Seq<char>|
            text_outcome(r) == #[trigger] call_written(call, options@.tools, reply_outcome(read), said);
        let done = applied(call, options@.tools, reply_view(reply), said)->Ok_0;
        law_a_repair_works_on_the_providers_text(call);
        let (raw, error) = recovered(call)->Ok_0;
        law_a_repair_replaces_or_keeps(raw, error, options@.tools->0, reply_view(reply), said);
        if let ToolCallRepairReply::Repaired { tool_call: other } = reply {
            let checked = validated(other@, options@.tools->0, said);
        }
        assert(is_call_of(tool_call_json, call));
        assert(are_options_of(opts_json, *decode_options, options));
        assert(is_reply_of(reply_json, *decode_reply, reply));
        assert(stands_behind(raw, call));
        assert(is_mended(raw, call.error->0, options@.tools->0, reply, done));
    }
}

/// Whether a text shows a call to a host: its context in print, or `null`
/// where there are no tools.
pub open spec fn shows_to_a_host(
    text: Seq<char>,
    call: ToolCallView,
    prompt: ModelPrompt,
    options: GenerateOptionsView,
) -> bool {
    match options.tools {
        None => text == json_print(JsonView::Null),
        Some(tools) => exists|raw: RawToolCallView|
            {
                &&& #[trigger] stands_behind(raw, call)
                &&& call.error is Some
                &&& text == json_print(
                    context_doc(
                        RepairContextView {
                            instructions: options.instructions,
                            system: options.instructions,
                            messages: prompt_messages(prompt),
                            tool_call: raw,
                            tools,
                            error: call.error->0,
                        },
                    ),
                )
            },
    }
}

/// A host repairs a call from what the arguments say: the call, the prompt and
/// the options that it was generated with.
pub proof fn law_what_a_host_repairs_from<
    P: Fn(&Json) -> Result<ModelPrompt, WireFault>,
    O: Fn(&str) -> Result<GenerateTextOptions, WireFault>,
>(
    tool_call_json: Option<&[u8]>,
    prompt_json: Option<&[u8]>,
    opts_json: Option<&[u8]>,
    decode_prompt: &P,
    decode_options: &O,
    r: FfiResult<String>,
)
    requires
        call_ensures(
            aimux_tool_call_repair_context::<P, O>,
            (tool_call_json, prompt_json, opts_json, decode_prompt, decode_options),
            r,
        ),
    ensures
        r matches Ok(text) ==> exists|call: ToolCallView, prompt: ModelPrompt, options: GenerateTextOptions|
            {
                &&& is_call_of(tool_call_json, call)
                &&& #[trigger] is_prompt_of(prompt_json, *decode_prompt, prompt)
                &&& #[trigger] are_options_of(opts_json, *decode_options, options)
                &&& #[trigger] shows_to_a_host(text@, call, prompt, options@)
            },
        !readable(tool_call_json) ==> (r matches Err(error) && (error@ matches HostErrorView::Ffi(fault) && blames(
            fault,
            tool_call_json,
            "tool_call_json"@,
        ))),
{
    if r is Ok {
        let text = r->Ok_0;
        let call = call_of(bytes_view(tool_call_json))->Ok_0;
        let p = choose|p: FfiResult<ModelPrompt>|
            {
                &&& #[trigger] prompt_read(bytes_view(prompt_json), *decode_prompt, p)
                &&& match p {
                    Err(error) => text_outcome(r) == Err::<Seq<char>, HostErrorView>(error@),
                    Ok(prompt) => exists|o: FfiResult<GenerateTextOptions>|
                        {
                            &&& #[trigger] options_read(bytes_view(opts_json), *decode_options, o)
                            &&& text_outcome(r) == context_written(call, prompt, o)
                        },
                }
            };
        lemma_prompt(prompt_json, *decode_prompt, p);
        let prompt = p->Ok_0;
        let o = choose|o: FfiResult<GenerateTextOptions>|
            {
                &&& #[trigger] options_read(bytes_view(opts_json), *decode_options, o)
                &&& text_outcome(r) == context_written(call, prompt, o)
            };
        lemma_options(opts_json, *decode_options, o);
        let options = o->Ok_0;
        law_a_repair_works_on_the_providers_text(call);
        if options@.tools is Some {
            let raw = recovered(call)->Ok_0.0;
            assert(stands_behind(raw, call));
        }
        assert(is_call_of(tool_call_json, call));
        assert(is_prompt_of(prompt_json, *decode_prompt, prompt));
        assert(are_options_of(opts_json, *decode_options, options));
        assert(shows_to_a_host(text@, call, prompt, options@));
    }
}

/// Whether a text is a result in print that a reply made of another.
pub open spec fn mends_the_result(
    text: Seq<char>,
    result: JsonView,
    tools: Option<Seq<ToolView>>,
    id: Seq<char>,
    reply: ToolCallRepairReply,
) -> bool {
    exists|said: Seq<char>|
        #[trigger] patched_result(result, tools, id, reply_view(reply), said) matches Ok(doc) && text == json_print(doc)
}

/// A whole result is repaired under the id that the id argument says, with the
/// tools of the options and the reply of the reply argument.
pub proof fn law_what_a_hosts_reply_makes_of_a_result<
    O: Fn(&str) -> Result<GenerateTextOptions, WireFault>,
    R: Fn(&str) -> Result<ToolCallRepairReply, WireFault>,
>(
    result_json: Option<&[u8]>,
    opts_json: Option<&[u8]>,
    tool_call_id: Option<&[u8]>,
    reply_json: Option<&[u8]>,
    decode_options: &O,
    decode_reply: &R,
    r: FfiResult<String>,
)
    requires
        call_ensures(
            aimux_apply_tool_call_repair_to_result::<O, R>,
            (result_json, opts_json, tool_call_id, reply_json, decode_options, decode_reply),
            r,
        ),
    ensures
        r matches Ok(text) ==> readable(result_json) && readable(tool_call_id) && exists|
            options: GenerateTextOptions,
            reply: ToolCallRepairReply,
        |
            {
                &&& json_parse(decode_utf8(result_json->Some_0@)) is Ok
                &&& #[trigger] are_options_of(opts_json, *decode_options, options)
                &&& #[trigger] is_reply_of(reply_json, *decode_reply, reply)
                &&& mends_the_result(
                    text@,
                    json_parse(decode_utf8(result_json->Some_0@))->Ok_0,
                    options@.tools,
                    decode_utf8(tool_call_id->Some_0@),
                    reply,
                )
            },
        !readable(result_json) ==> (r matches Err(error) && (error@ matches HostErrorView::Ffi(fault) && blames(
            fault,
            result_json,
            "result_json"@,
        ))),
{
    if r is Ok {
        let text = r->Ok_0;
        let result = result_of_arg(bytes_view(result_json))->Ok_0;
        let id = required_text(bytes_view(tool_call_id), "tool_call_id"@);
        let o = choose|o: FfiResult<GenerateTextOptions>|
            {
                &&& #[trigger] options_read(bytes_view(opts_json), *decode_options, o)
                &&& result_settles(result, o, id, bytes_view(reply_json), *decode_reply, text_outcome(r))
            };
        lemma_options(opts_json, *decode_options, o);
        let options = o->Ok_0;
        let read = choose|read: FfiResult<ToolCallRepairReply>|
            {
                &&& #[trigger] decoded(bytes_view(reply_json), "reply_json"@, *decode_reply, read)
                &&& result_writes_to(result, options@.tools, id->Ok_0, reply_outcome(read), text_outcome(r))
            };
        lemma_decoded(reply_json, "reply_json"@, *decode_reply, read);
        let reply = read->Ok_0;
        let said = choose|said: Seq<char>|
            text_outcome(r) == #[trigger] result_written(result, options@.tools, id->Ok_0, reply_outcome(read), said);
        let made = patched_result(result, options@.tools, id->Ok_0, reply_view(reply), said);
        assert(mends_the_result(text@, result, options@.tools, id->Ok_0, reply));
        assert(are_options_of(opts_json, *decode_options, options));
        assert(is_reply_of(reply_json, *decode_reply, reply));
    }
}

} // verus!
