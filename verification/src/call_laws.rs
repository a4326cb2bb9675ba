//! What a tool call has to satisfy to be valid, and what becomes of each call,
//! said of the call, the tools and the result alone.
use crate::error::{AiMuxError, AiMuxErrorView};
use crate::json::{member, JsonView};
use crate::json_text::{json_parse, json_print, schema_compiles, schema_violation};
use crate::message::ModelMessageView;
use crate::parse_tool_call::{
    carried_text, ends_in, find_tool, first_step, forbidden, parses_to, recovered, repair_context, resolved, schema_of,
    validated, RepairOutcomeView, ToolCallRepair, ToolCallRepairContext,
};
use crate::text::{is_blank, law_blank_texts_are_trimmed_to_nothing, trimmed};
use crate::tool::{RawToolCall, RawToolCallView, ToolCallView, ToolView};
use vstd::prelude::*;

verus! {

// Which tool a call names.

/// Whether a tool goes by a name.
pub open spec fn goes_by(tool: ToolView, name: Seq<char>) -> bool {
    match tool {
        ToolView::Function { name: own, .. } => own == name,
        ToolView::Provider { name: own, .. } => own == name,
    }
}

/// Whether `i` is the first tool of a set that goes by a name.
pub open spec fn names_first(tools: Seq<ToolView>, name: Seq<char>, i: int) -> bool {
    &&& 0 <= i < tools.len()
    &&& goes_by(tools[i], name)
    &&& forall|k: int| 0 <= k < i ==> !goes_by(#[trigger] tools[k], name)
}

/// Whether no tool of a set goes by a name.
pub open spec fn names_none(tools: Seq<ToolView>, name: Seq<char>) -> bool {
    forall|k: int| 0 <= k < tools.len() ==> !goes_by(#[trigger] tools[k], name)
}

proof fn lemma_found(tools: Seq<ToolView>, name: Seq<char>, i: int)
    requires
        names_first(tools, name, i),
    ensures
        find_tool(tools, name) == Some(tools[i]),
    decreases tools.len(),
{
    assert(goes_by(tools[i], name));
    if i > 0 {
        assert(!goes_by(tools[0], name));
        assert forall|k: int| 0 <= k < i - 1 implies !goes_by(#[trigger] tools.drop_first()[k], name) by {
            assert(!goes_by(tools[k + 1], name));
        }
        lemma_found(tools.drop_first(), name, i - 1);
    }
}

proof fn lemma_not_found(tools: Seq<ToolView>, name: Seq<char>)
    requires
        names_none(tools, name),
    ensures
        find_tool(tools, name) is None,
    decreases tools.len(),
{
    if tools.len() > 0 {
        assert(!goes_by(tools[0], name));
        assert forall|k: int| 0 <= k < tools.drop_first().len() implies !goes_by(
            #[trigger] tools.drop_first()[k],
            name,
        ) by {
            assert(!goes_by(tools[k + 1], name));
        }
        lemma_not_found(tools.drop_first(), name);
    }
}

proof fn lemma_first_or_none(tools: Seq<ToolView>, name: Seq<char>) -> (i: int)
    ensures
        names_first(tools, name, i) || names_none(tools, name),
    decreases tools.len(),
{
    if tools.len() == 0 {
        0
    } else {
        let front = tools.drop_last();
        let i = lemma_first_or_none(front, name);
        if names_first(front, name, i) {
            assert(goes_by(front[i], name));
            assert forall|k: int| 0 <= k < i implies !goes_by(#[trigger] tools[k], name) by {
                assert(!goes_by(front[k], name));
            }
            i
        } else {
            assert forall|k: int| 0 <= k < tools.len() - 1 implies !goes_by(#[trigger] tools[k], name) by {
                assert(!goes_by(front[k], name));
            }
            tools.len() - 1
        }
    }
}

// What a text says.

/// Whether a text holds nothing but blanks.
pub open spec fn says_nothing(text: Seq<char>) -> bool {
    forall|k: int| 0 <= k < text.len() ==> is_blank(#[trigger] text[k])
}

proof fn lemma_says_nothing(text: Seq<char>)
    ensures
        says_nothing(text) <==> trimmed(text).len() == 0,
{
    law_blank_texts_are_trimmed_to_nothing(text);
}

/// The document inside a document that a path of positions leads to: members
/// of an object and items of an array are counted from the front.
pub open spec fn inside(doc: JsonView, path: Seq<int>) -> Option<JsonView>
    decreases path.len(),
{
    if path.len() == 0 {
        Some(doc)
    } else {
        let i = path[0];
        match doc {
            JsonView::Object(fields) if 0 <= i < fields.len() => inside(fields[i].1, path.drop_first()),
            JsonView::Array(items) if 0 <= i < items.len() => inside(items[i], path.drop_first()),
            _ => None,
        }
    }
}

/// Whether a document itself names a prototype: it has a member `__proto__`,
/// or its member `constructor` has one called `prototype`.
pub open spec fn names_a_prototype(doc: JsonView) -> bool {
    ||| doc.field("__proto__"@) is Some
    ||| doc.field("constructor"@) matches Some(constructor) && constructor.field("prototype"@) is Some
}

/// Whether a path leads to a document that names a prototype.
pub open spec fn leads_to_a_prototype(doc: JsonView, path: Seq<int>) -> bool {
    inside(doc, path) matches Some(found) && names_a_prototype(found)
}

proof fn lemma_forbidden_inside(doc: JsonView, path: Seq<int>)
    requires
        leads_to_a_prototype(doc, path),
    ensures
        forbidden(doc),
    decreases path.len(),
{
    if path.len() > 0 {
        let i = path[0];
        match doc {
            JsonView::Object(fields) => {
                lemma_forbidden_inside(fields[i].1, path.drop_first());
                assert(forbidden(fields[i].1));
            },
            JsonView::Array(items) => {
                lemma_forbidden_inside(items[i], path.drop_first());
                assert(forbidden(items[i]));
            },
            _ => {},
        }
    }
}

proof fn lemma_forbidden_path(doc: JsonView) -> (path: Seq<int>)
    requires
        forbidden(doc),
    ensures
        leads_to_a_prototype(doc, path),
    decreases doc,
{
    if names_a_prototype(doc) {
        assert(inside(doc, seq![]) == Some(doc));
        seq![]
    } else {
        match doc {
            JsonView::Object(fields) => {
                let i = choose|i: int| 0 <= i < fields.len() && forbidden((#[trigger] fields[i]).1);
                assert(decreases_to!(doc => doc->Object_0));
                assert(decreases_to!(fields => fields[i]));
                assert(decreases_to!(fields[i] => fields[i].1));
                let rest = lemma_forbidden_path(fields[i].1);
                let path = seq![i] + rest;
                assert(path.drop_first() =~= rest);
                path
            },
            JsonView::Array(items) => {
                let i = choose|i: int| 0 <= i < items.len() && forbidden(#[trigger] items[i]);
                assert(decreases_to!(doc => doc->Array_0));
                assert(decreases_to!(items => items[i]));
                let rest = lemma_forbidden_path(items[i]);
                let path = seq![i] + rest;
                assert(path.drop_first() =~= rest);
                path
            },
            _ => seq![],
        }
    }
}

/// A document is refused exactly when some document inside it, at whatever
/// depth, names a prototype.
pub proof fn law_a_prototype_is_found_at_any_depth(doc: JsonView)
    ensures
        forbidden(doc) <==> exists|path: Seq<int>| #[trigger] leads_to_a_prototype(doc, path),
{
    if forbidden(doc) {
        let path = lemma_forbidden_path(doc);
        assert(leads_to_a_prototype(doc, path));
    }
    if exists|path: Seq<int>| #[trigger] leads_to_a_prototype(doc, path) {
        let path = choose|path: Seq<int>| #[trigger] leads_to_a_prototype(doc, path);
        lemma_forbidden_inside(doc, path);
    }
}

/// Whether a document may be an input: nowhere in it is a prototype named.
pub open spec fn is_clean(doc: JsonView) -> bool {
    forall|path: Seq<int>| !(#[trigger] leads_to_a_prototype(doc, path))
}

/// Whether an argument text denotes an input: a blank text is an empty object,
/// any other has to be a clean document.
pub open spec fn denotes(text: Seq<char>, input: JsonView) -> bool {
    if says_nothing(text) {
        input == JsonView::Object(seq![])
    } else {
        json_parse(text) == Ok::<JsonView, Seq<char>>(input) && is_clean(input)
    }
}

/// Whether an argument text denotes no input at all.
pub open spec fn denotes_nothing(text: Seq<char>) -> bool {
    &&& !says_nothing(text)
    &&& json_parse(text) matches Ok(doc) ==> !is_clean(doc)
}

/// Why an argument text that denotes nothing is refused.
pub open spec fn refusal_cause(text: Seq<char>) -> Seq<char> {
    match json_parse(text) {
        Err(words) => "JSON parsing failed: Text: "@ + text + ".\nError message: "@ + words,
        Ok(_) => "JSON parsing failed: Text: "@ + text
            + ".\nError message: "@ + "Object contains forbidden prototype property"@,
    }
}

// Validation.

/// Whether the provider both runs and names a call itself.
pub open spec fn runs_and_names_itself(call: RawToolCallView) -> bool {
    call.provider_executed == Some(true) && call.dynamic == Some(true)
}

/// A call fails for want of a tool exactly when no tool of the set goes by its
/// name and the provider does not run and name it itself. The error then names
/// the tool, every tool there is in the order of the set, and the text.
pub proof fn law_only_an_unknown_tool_is_missing(call: RawToolCallView, tools: Seq<ToolView>, said: Seq<char>)
    ensures
        (validated(call, tools, said) matches Err(error) && error is NoSuchTool) <==> names_none(
            tools,
            call.tool_name,
        ) && !runs_and_names_itself(call),
        validated(call, tools, said) matches Err(
            AiMuxErrorView::NoSuchTool { tool_name, available_tools, tool_input },
        ) ==> {
            &&& tool_name == call.tool_name
            &&& tool_input == Some(call.input)
            &&& available_tools matches Some(names) && names.len() == tools.len() && forall|i: int|
                0 <= i < tools.len() ==> goes_by(tools[i], #[trigger] names[i])
        },
{
    let i = lemma_first_or_none(tools, call.tool_name);
    if names_first(tools, call.tool_name, i) {
        lemma_found(tools, call.tool_name, i);
        assert(goes_by(tools[i], call.tool_name));
    } else {
        lemma_not_found(tools, call.tool_name);
    }
}

/// A call that names a provider tool is valid exactly when its text denotes an
/// input, with that input, and is no dynamic call; whatever the input holds,
/// no schema is asked.
pub proof fn law_a_provider_tool_takes_any_document(
    call: RawToolCallView,
    tools: Seq<ToolView>,
    i: int,
    input: JsonView,
    said: Seq<char>,
)
    requires
        names_first(tools, call.tool_name, i),
        tools[i] is Provider,
    ensures
        denotes(call.input, input) ==> validated(call, tools, said) == Ok::<
            (JsonView, Option<bool>),
            AiMuxErrorView,
        >((input, None)),
        denotes_nothing(call.input) ==> validated(call, tools, said) == Err::<
            (JsonView, Option<bool>),
            AiMuxErrorView,
        >(
            AiMuxErrorView::InvalidToolInput {
                tool_name: call.tool_name,
                tool_input: call.input,
                cause: refusal_cause(call.input),
            },
        ),
{
    lemma_found(tools, call.tool_name, i);
    lemma_denotes(call, input);
}

/// A call that names a function tool is valid exactly when its text denotes an
/// input, the tool's schema compiles and the input does not violate it. Where
/// it is not, the error names the tool and the text, and says which of the
/// three failed.
pub proof fn law_a_function_tool_takes_what_its_schema_takes(
    call: RawToolCallView,
    tools: Seq<ToolView>,
    i: int,
    input: JsonView,
    said: Seq<char>,
)
    requires
        names_first(tools, call.tool_name, i),
        tools[i] is Function,
        denotes(call.input, input),
    ensures
        ({
            let schema = tools[i]->input_schema;
            match validated(call, tools, said) {
                Ok((accepted, dynamic)) => {
                    &&& accepted == input
                    &&& dynamic is None
                    &&& schema_compiles(schema)
                    &&& schema_violation(schema, input) is None
                },
                Err(error) => {
                    &&& error matches AiMuxErrorView::InvalidToolInput { tool_name, tool_input, cause }
                    &&& tool_name == call.tool_name
                    &&& tool_input == call.input
                    &&& if !schema_compiles(schema) {
                        cause == "input schema is invalid: "@ + said
                    } else {
                        schema_violation(schema, input) matches Some(words) && cause
                            == "Type validation failed: Value: "@ + json_print(input) + ".\nError message: "@ + words
                    }
                },
            }
        }),
{
    lemma_found(tools, call.tool_name, i);
    lemma_denotes(call, input);
}

/// A text that denotes nothing fails a call of any tool there is, and a call
/// that the provider runs and names itself, before a schema is asked.
pub proof fn law_a_text_that_denotes_nothing_is_refused(
    call: RawToolCallView,
    tools: Seq<ToolView>,
    said: Seq<char>,
)
    requires
        denotes_nothing(call.input),
        !names_none(tools, call.tool_name) || runs_and_names_itself(call),
    ensures
        validated(call, tools, said) == Err::<(JsonView, Option<bool>), AiMuxErrorView>(
            AiMuxErrorView::InvalidToolInput {
                tool_name: call.tool_name,
                tool_input: call.input,
                cause: refusal_cause(call.input),
            },
        ),
{
    lemma_denotes(call, JsonView::Null);
    let i = lemma_first_or_none(tools, call.tool_name);
    if names_first(tools, call.tool_name, i) {
        lemma_found(tools, call.tool_name, i);
    } else {
        lemma_not_found(tools, call.tool_name);
    }
}

/// A call of no known tool that the provider runs and names itself is valid
/// with whatever input its text denotes, and is dynamic.
pub proof fn law_a_provider_may_name_its_own_tools(
    call: RawToolCallView,
    tools: Seq<ToolView>,
    input: JsonView,
    said: Seq<char>,
)
    requires
        names_none(tools, call.tool_name),
        runs_and_names_itself(call),
        denotes(call.input, input),
    ensures
        validated(call, tools, said) == Ok::<(JsonView, Option<bool>), AiMuxErrorView>((input, Some(true))),
{
    lemma_not_found(tools, call.tool_name);
    lemma_denotes(call, input);
}

/// Only the first tool of a name counts: the tools around it do not matter to
/// a call that names it.
pub proof fn law_the_first_tool_of_a_name_counts(
    call: RawToolCallView,
    tools: Seq<ToolView>,
    i: int,
    said: Seq<char>,
)
    requires
        names_first(tools, call.tool_name, i),
    ensures
        validated(call, tools, said) == validated(call, seq![tools[i]], said),
{
    lemma_found(tools, call.tool_name, i);
    let alone = seq![tools[i]];
    assert(alone[0] == tools[i]);
    lemma_found(alone, call.tool_name, 0);
}

pub proof fn lemma_denotes(call: RawToolCallView, input: JsonView)
    ensures
        denotes(call.input, input) ==> crate::parse_tool_call::parsed_input(call) == Ok::<JsonView, AiMuxErrorView>(
            input,
        ),
        denotes_nothing(call.input) ==> crate::parse_tool_call::parsed_input(call) == Err::<
            JsonView,
            AiMuxErrorView,
        >(
            AiMuxErrorView::InvalidToolInput {
                tool_name: call.tool_name,
                tool_input: call.input,
                cause: refusal_cause(call.input),
            },
        ),
{
    lemma_says_nothing(call.input);
    if let Ok(doc) = json_parse(call.input) {
        law_a_prototype_is_found_at_any_depth(doc);
    }
    assert(crate::wire::no_fields() =~= seq![]);
}

// Calls.

/// Whether two calls agree in what parsing must not touch.
pub open spec fn same_call(call: RawToolCallView, parsed: ToolCallView) -> bool {
    &&& parsed.tool_call_id == call.tool_call_id
    &&& parsed.tool_name == call.tool_name
    &&& parsed.provider_executed == call.provider_executed
    &&& parsed.thought_signature == call.thought_signature
    &&& parsed.provider_metadata == call.provider_metadata
}

/// Whether a call is shown as invalid: marked so, dynamic, with its error, and
/// with its document where its text is one, its text otherwise.
pub open spec fn shown_invalid(call: RawToolCallView, error: AiMuxErrorView, parsed: ToolCallView) -> bool {
    &&& same_call(call, parsed)
    &&& parsed.invalid == Some(true)
    &&& parsed.dynamic == Some(true)
    &&& parsed.error == Some(error)
    &&& match json_parse(call.input) {
        Ok(doc) => parsed.input == doc,
        Err(_) => parsed.input == JsonView::String(call.input),
    }
}

/// Whether a call is shown as valid: with the input it denotes, no mark and no
/// error.
pub open spec fn shown_valid(
    call: RawToolCallView,
    input: JsonView,
    dynamic: Option<bool>,
    parsed: ToolCallView,
) -> bool {
    &&& same_call(call, parsed)
    &&& parsed.invalid is None
    &&& parsed.error is None
    &&& parsed.input == input
    &&& parsed.dynamic == dynamic
}

/// Without a callback a call against a tool set keeps its identity, and is
/// shown as it was validated: valid with its input, or invalid with its error.
pub proof fn law_a_call_is_shown_as_it_was_validated<
    F: Fn(ToolCallRepairContext) -> Result<Option<RawToolCall>, AiMuxError>,
>(
    call: RawToolCallView,
    tools: Seq<ToolView>,
    messages: Seq<ModelMessageView>,
    instructions: Option<Seq<char>>,
    parsed: ToolCallView,
)
    requires
        parses_to::<F>(call, Some(tools), None, messages, instructions, parsed),
    ensures
        exists|said: Seq<char>|
            match #[trigger] validated(call, tools, said) {
                Ok((input, dynamic)) => shown_valid(call, input, dynamic, parsed),
                Err(error) => shown_invalid(call, error, parsed),
            },
{
    let said = choose|said: Seq<char>|
        ends_in::<F>(
            #[trigger] first_step(call, Some(tools), said),
            Some(tools),
            None,
            messages,
            instructions,
            parsed,
        );
    let checked = validated(call, tools, said);
}

/// Without a tool set only a call that the provider runs and names itself can
/// be valid, with the input that its text denotes; every other is invalid for
/// want of any tool.
pub proof fn law_without_tools_only_the_provider_calls<
    F: Fn(ToolCallRepairContext) -> Result<Option<RawToolCall>, AiMuxError>,
>(
    call: RawToolCallView,
    repair: Option<&ToolCallRepair<F>>,
    messages: Seq<ModelMessageView>,
    instructions: Option<Seq<char>>,
    input: JsonView,
    parsed: ToolCallView,
)
    requires
        parses_to(call, None, repair, messages, instructions, parsed),
    ensures
        if !runs_and_names_itself(call) {
            shown_invalid(
                call,
                AiMuxErrorView::NoSuchTool {
                    tool_name: call.tool_name,
                    available_tools: None,
                    tool_input: Some(call.input),
                },
                parsed,
            )
        } else {
            &&& denotes(call.input, input) ==> shown_valid(call, input, Some(true), parsed)
            &&& denotes_nothing(call.input) ==> shown_invalid(
                call,
                AiMuxErrorView::InvalidToolInput {
                    tool_name: call.tool_name,
                    tool_input: call.input,
                    cause: refusal_cause(call.input),
                },
                parsed,
            )
        },
{
    lemma_denotes(call, input);
}

// Repair.

/// What a repair leads to: a replacement that is valid stands in the call's
/// place, with its own identity; one that is not, and an attempt that failed,
/// leave the call invalid, its first error kept beside the new one; no
/// replacement leaves it as it was.
pub proof fn law_a_repair_replaces_or_keeps(
    call: RawToolCallView,
    error: AiMuxErrorView,
    tools: Seq<ToolView>,
    outcome: RepairOutcomeView,
    said: Seq<char>,
)
    ensures
        ({
            let result = resolved(call, error, tools, outcome, said);
            match outcome {
                RepairOutcomeView::Unchanged => shown_invalid(call, error, result),
                RepairOutcomeView::Failed(cause) => shown_invalid(
                    call,
                    AiMuxErrorView::ToolCallRepair { original_error: Box::new(error), cause: Box::new(cause) },
                    result,
                ),
                RepairOutcomeView::Repaired(other) => match validated(other, tools, said) {
                    Ok((input, dynamic)) => shown_valid(other, input, dynamic, result),
                    Err(cause) => shown_invalid(
                        call,
                        AiMuxErrorView::ToolCallRepair { original_error: Box::new(error), cause: Box::new(cause) },
                        result,
                    ),
                },
            }
        }),
{
}

/// The error under every failed repair: the one that the call failed with
/// first.
pub open spec fn first_error(error: AiMuxErrorView) -> AiMuxErrorView
    decreases error,
{
    match error {
        AiMuxErrorView::ToolCallRepair { original_error, .. } => first_error(*original_error),
        _ => error,
    }
}

/// A repair works on the provider's own call: whatever an invalid call shows
/// as its input, its text is the one that its first error tells of. Where that
/// error tells of none, the text is the shown input, printed unless it is a
/// text itself.
pub proof fn law_a_repair_works_on_the_providers_text(call: ToolCallView)
    ensures
        match recovered(call) {
            Ok((raw, error)) => {
                &&& call.invalid == Some(true)
                &&& call.error == Some(error)
                &&& raw.tool_call_id == call.tool_call_id
                &&& raw.tool_name == call.tool_name
                &&& raw.provider_executed == call.provider_executed
                &&& raw.dynamic == call.dynamic
                &&& raw.thought_signature == call.thought_signature
                &&& raw.provider_metadata == call.provider_metadata
                &&& match first_error(error) {
                    AiMuxErrorView::InvalidToolInput { tool_input, .. } => raw.input == tool_input,
                    AiMuxErrorView::NoSuchTool { tool_input: Some(text), .. } => raw.input == text,
                    _ => match call.input {
                        JsonView::String(text) => raw.input == text,
                        other => raw.input == json_print(other),
                    },
                }
            },
            Err(error) => {
                &&& call.invalid != Some(true) || call.error is None
                &&& error is InvalidArgument
            },
        },
{
    if let Some(error) = call.error {
        lemma_carried(error);
    }
}

proof fn lemma_carried(error: AiMuxErrorView)
    ensures
        carried_text(error) == (match first_error(error) {
            AiMuxErrorView::InvalidToolInput { tool_input, .. } => Some(tool_input),
            AiMuxErrorView::NoSuchTool { tool_input, .. } => tool_input,
            _ => None,
        }),
    decreases error,
{
    if let AiMuxErrorView::ToolCallRepair { original_error, .. } = error {
        lemma_carried(*original_error);
    }
}

/// A repair is told of the call and its error, of the tools, the messages and
/// the instructions of its generation, the instructions under both names.
pub proof fn law_a_repair_is_told_everything(
    call: RawToolCallView,
    error: AiMuxErrorView,
    tools: Seq<ToolView>,
    messages: Seq<ModelMessageView>,
    instructions: Option<Seq<char>>,
)
    ensures
        ({
            let context = repair_context(call, error, tools, messages, instructions);
            &&& context.tool_call == call
            &&& context.error == error
            &&& context.tools == tools
            &&& context.messages == messages
            &&& context.instructions == instructions
            &&& context.system == instructions
        }),
{
}

/// Whether a tool is a function of a name.
pub open spec fn is_function_of(tool: ToolView, name: Seq<char>) -> bool {
    tool is Function && goes_by(tool, name)
}

proof fn lemma_schema(tools: Seq<ToolView>, name: Seq<char>, i: int)
    requires
        0 <= i <= tools.len(),
        forall|k: int| 0 <= k < i ==> !is_function_of(#[trigger] tools[k], name),
        i < tools.len() ==> is_function_of(tools[i], name),
    ensures
        i < tools.len() ==> schema_of(tools, name) == tools[i]->input_schema,
        i == tools.len() ==> schema_of(tools, name) == crate::parse_tool_call::empty_schema(),
    decreases tools.len(),
{
    if i > 0 {
        assert(!is_function_of(tools[0], name));
        assert forall|k: int| 0 <= k < i - 1 implies !is_function_of(#[trigger] tools.drop_first()[k], name) by {
            assert(!is_function_of(tools[k + 1], name));
        }
        lemma_schema(tools.drop_first(), name, i - 1);
    }
}

/// The schema that a repair is told is that of the first function of the
/// call's name; a name that no function goes by has the schema of an object
/// that takes nothing.
pub proof fn law_the_schema_told_is_the_functions(tools: Seq<ToolView>, name: Seq<char>, i: int)
    requires
        0 <= i <= tools.len(),
        forall|k: int| 0 <= k < i ==> !is_function_of(#[trigger] tools[k], name),
        i < tools.len() ==> is_function_of(tools[i], name),
    ensures
        if i < tools.len() {
            schema_of(tools, name) == tools[i]->input_schema
        } else {
            let schema = schema_of(tools, name);
            &&& schema.field("type"@) == Some(JsonView::String("object"@))
            &&& schema.field("properties"@) == Some(JsonView::Object(seq![]))
            &&& schema.field("additionalProperties"@) == Some(JsonView::Bool(false))
        },
{
    lemma_schema(tools, name, i);
    if i == tools.len() {
        reveal_strlit("type");
        reveal_strlit("properties");
        reveal_strlit("additionalProperties");
        assert("type"@.len() == 4 && "properties"@.len() == 10 && "additionalProperties"@.len() == 20);
        let none = crate::wire::no_fields();
        assert(none =~= seq![]);
        let a = crate::json::put(none, "type"@, JsonView::String("object"@));
        let b = crate::json::put(a, "properties"@, JsonView::Object(none));
        crate::json::lemma_member_put(none, "type"@, JsonView::String("object"@), "type"@);
        crate::json::lemma_member_put(a, "properties"@, JsonView::Object(none), "type"@);
        crate::json::lemma_member_put(a, "properties"@, JsonView::Object(none), "properties"@);
        crate::json::lemma_member_put(b, "additionalProperties"@, JsonView::Bool(false), "type"@);
        crate::json::lemma_member_put(b, "additionalProperties"@, JsonView::Bool(false), "properties"@);
        crate::json::lemma_member_put(b, "additionalProperties"@, JsonView::Bool(false), "additionalProperties"@);
    }
}

} // verus!
