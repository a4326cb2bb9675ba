//! Parse and validate provider tool calls, and repair the invalid ones.
//!
//! Providers deliver the model's raw argument text. This module owns JSON
//! parsing, prototype-pollution rejection, schema validation and the one-shot
//! repair of a call that fails.
use crate::error::{copy_json, error_view, AiMuxError, AiMuxErrorView};
use crate::json::{documents, lemma_model, member, put, Json, JsonObject, JsonView};
use crate::json_text::{
    check_schema, json_parse, json_print, parse_json, print_json, schema_outcome, text_view, SchemaOutcome,
    SchemaOutcomeView,
};
use crate::message::{copy_messages, messages_view, ModelMessage, ModelMessageView};
use crate::text::{copy_text, is_blank_text, join2, join3, join4, texts, trimmed};
use crate::tool::{
    copy_tools, tools_view, RawToolCall, RawToolCallView, Tool, ToolCall, ToolCallView, ToolView,
};
use crate::wire::{
    error_doc, error_json, json_object, json_or_null, json_string, json_text_option, messages_doc, messages_json,
    no_fields, or_null, raw_call_doc, raw_call_json, text_doc, tools_doc, tools_json,
};
use vstd::prelude::*;
use vstd::string::*;

verus! {

/// A document that must not reach a host with prototypes: a `__proto__`
/// member, or a `constructor` object with a `prototype` member, anywhere.
pub open spec fn forbidden(doc: JsonView) -> bool
    decreases doc,
{
    match doc {
        JsonView::Object(fields) => {
            ||| member(fields, "__proto__"@) is Some
            ||| doc.at("constructor"@).field("prototype"@) is Some
            ||| exists|i: int| 0 <= i < fields.len() && forbidden((#[trigger] fields[i]).1)
        },
        JsonView::Array(items) => exists|i: int| 0 <= i < items.len() && forbidden(#[trigger] items[i]),
        _ => false,
    }
}

/// Whether a document holds a forbidden prototype property.
pub fn contains_forbidden_prototype(value: &Json) -> (r: bool)
    ensures
        r == forbidden(value@),
    decreases value,
{
    broadcast use lemma_model;

    match value {
        Json::Object(object) => {
            if object.get("__proto__").is_some() {
                return true;
            }
            let pollutes = match object.get("constructor") {
                Some(constructor) => constructor.get("prototype").is_some(),
                None => false,
            };
            if pollutes {
                return true;
            }
            let mut i: usize = 0;
            while i < object.len()
                invariant
                    i <= object@.len(),
                    *value == Json::Object(*object),
                    value@ == JsonView::Object(object@),
                    forall|k: int| 0 <= k < i ==> !forbidden((#[trigger] object@[k]).1),
                decreases object@.len() - i,
            {
                assert(decreases_to!(*value => value->Object_0));
                if contains_forbidden_prototype(object.value_at(i)) {
                    assert(forbidden(object@[i as int].1));
                    return true;
                }
                i = i + 1;
            }
            false
        },
        Json::Array(items) => {
            let mut i: usize = 0;
            while i < items.len()
                invariant
                    i <= items.len(),
                    *value == Json::Array(*items),
                    value@ == JsonView::Array(documents(items@)),
                    forall|k: int| 0 <= k < i ==> !forbidden(#[trigger] documents(items@)[k]),
                decreases items.len() - i,
            {
                assert(decreases_to!(*value => value->Array_0));
                assert(decreases_to!(*items => items@));
                assert(decreases_to!(items@ => items@[i as int]));
                if contains_forbidden_prototype(&items[i]) {
                    assert(forbidden(value@->Array_0[i as int]));
                    return true;
                }
                i = i + 1;
            }
            false
        },
        _ => false,
    }
}

/// The error of an input that a tool cannot take.
pub open spec fn bad_input(call: RawToolCallView, cause: Seq<char>) -> AiMuxErrorView {
    AiMuxErrorView::InvalidToolInput { tool_name: call.tool_name, tool_input: call.input, cause }
}

fn bad_input_error(call: &RawToolCall, cause: String) -> (r: AiMuxError)
    ensures
        r@ == bad_input(call@, cause@),
{
    AiMuxError::InvalidToolInput { tool_name: call.tool_name.clone(), tool_input: call.input.clone(), cause }
}

/// Why a text is not an input.
pub open spec fn parse_cause(text: Seq<char>, words: Seq<char>) -> Seq<char> {
    "JSON parsing failed: Text: "@ + text + ".\nError message: "@ + words
}

/// The input that a raw call's text denotes. A blank text is an empty object.
pub open spec fn parsed_input(call: RawToolCallView) -> Result<JsonView, AiMuxErrorView> {
    if trimmed(call.input).len() == 0 {
        Ok(JsonView::Object(no_fields()))
    } else {
        parsed_input_from(call, json_parse(call.input))
    }
}

/// Parse the argument text of a call.
pub fn parse_json_input(tool_call: &RawToolCall) -> (r: Result<Json, AiMuxError>)
    ensures
        parsed_input(tool_call@) == (match r {
            Ok(input) => Ok(input@),
            Err(error) => Err(error@),
        }),
{
    if is_blank_text(tool_call.input.as_str()) {
        return Ok(json_object(JsonObject::new()));
    }
    let parsed = parse_json(tool_call.input.as_str());
    parsed_json_input(tool_call, parsed)
}

/// What the parser's answer on a call's text means for the call.
pub open spec fn parsed_input_from(
    call: RawToolCallView,
    parsed: Result<JsonView, Seq<char>>,
) -> Result<JsonView, AiMuxErrorView> {
    match parsed {
        Err(words) => Err(bad_input(call, parse_cause(call.input, words))),
        Ok(doc) => if forbidden(doc) {
            Err(bad_input(call, parse_cause(call.input, "Object contains forbidden prototype property"@)))
        } else {
            Ok(doc)
        },
    }
}

/// Judge what the parser made of a call's text.
pub fn parsed_json_input(tool_call: &RawToolCall, parsed: Result<Json, String>) -> (r: Result<Json, AiMuxError>)
    ensures
        parsed_input_from(
            tool_call@,
            match parsed {
                Ok(doc) => Ok(doc@),
                Err(words) => Err(words@),
            },
        ) == (match r {
            Ok(input) => Ok(input@),
            Err(error) => Err(error@),
        }),
{
    match parsed {
        Err(words) => Err(
            bad_input_error(
                tool_call,
                join4(
                    "JSON parsing failed: Text: ",
                    tool_call.input.as_str(),
                    ".\nError message: ",
                    words.as_str(),
                ),
            ),
        ),
        Ok(value) => {
            if contains_forbidden_prototype(&value) {
                Err(
                    bad_input_error(
                        tool_call,
                        join4(
                            "JSON parsing failed: Text: ",
                            tool_call.input.as_str(),
                            ".\nError message: ",
                            "Object contains forbidden prototype property",
                        ),
                    ),
                )
            } else {
                Ok(value)
            }
        },
    }
}

/// The first tool of a name.
pub open spec fn find_tool(tools: Seq<ToolView>, name: Seq<char>) -> Option<ToolView>
    decreases tools.len(),
{
    if tools.len() == 0 {
        None
    } else if tools[0].tool_name() == name {
        Some(tools[0])
    } else {
        find_tool(tools.drop_first(), name)
    }
}

proof fn lemma_find_tool(tools: Seq<ToolView>, name: Seq<char>, i: int)
    requires
        0 <= i <= tools.len(),
        forall|k: int| 0 <= k < i ==> (#[trigger] tools[k]).tool_name() != name,
    ensures
        i == tools.len() ==> find_tool(tools, name) is None,
        i < tools.len() && tools[i].tool_name() == name ==> find_tool(tools, name) == Some(tools[i]),
    decreases i,
{
    if i > 0 {
        assert(tools[0].tool_name() != name);
        assert forall|k: int| 0 <= k < i - 1 implies (#[trigger] tools.drop_first()[k]).tool_name() != name by {
            assert(tools[k + 1].tool_name() != name);
        }
        lemma_find_tool(tools.drop_first(), name, i - 1);
    }
}

/// The names of a tool set, in order.
pub open spec fn tool_names(tools: Seq<ToolView>) -> Seq<Seq<char>> {
    Seq::new(tools.len(), |i: int| tools[i].tool_name())
}

fn names_of(tools: &[Tool]) -> (r: Vec<String>)
    ensures
        texts(r@) == tool_names(tools_view(tools@)),
{
    let mut names: Vec<String> = Vec::new();
    let mut i: usize = 0;
    while i < tools.len()
        invariant
            i <= tools.len(),
            names.len() == i,
            forall|k: int| 0 <= k < i ==> (#[trigger] names@[k])@ == tools@[k]@.tool_name(),
        decreases tools.len() - i,
    {
        names.push(tools[i].name().clone());
        i = i + 1;
    }
    assert(texts(names@) =~= tool_names(tools_view(tools@)));
    names
}

fn tool_named<'a>(tools: &'a [Tool], name: &String) -> (r: Option<&'a Tool>)
    ensures
        find_tool(tools_view(tools@), name@) == (match r {
            Some(tool) => Some(tool@),
            None => None,
        }),
{
    let mut i: usize = 0;
    while i < tools.len()
        invariant
            i <= tools.len(),
            forall|k: int| 0 <= k < i ==> (#[trigger] tools_view(tools@)[k]).tool_name() != name@,
        decreases tools.len() - i,
    {
        if *tools[i].name() == *name {
            proof {
                lemma_find_tool(tools_view(tools@), name@, i as int);
            }
            return Some(&tools[i]);
        }
        i = i + 1;
    }
    proof {
        lemma_find_tool(tools_view(tools@), name@, i as int);
    }
    None
}

/// A call that the provider runs and names itself.
pub open spec fn provider_dynamic(call: RawToolCallView) -> bool {
    call.provider_executed == Some(true) && call.dynamic == Some(true)
}

/// What a function tool's schema says of an input.
pub open spec fn schema_error(call: RawToolCallView, input: JsonView, outcome: SchemaOutcomeView) -> Option<
    AiMuxErrorView,
> {
    match outcome {
        SchemaOutcomeView::BadSchema(words) => Some(bad_input(call, "input schema is invalid: "@ + words)),
        SchemaOutcomeView::Violation(words) => Some(
            bad_input(
                call,
                "Type validation failed: Value: "@ + json_print(input) + ".\nError message: "@ + words,
            ),
        ),
        SchemaOutcomeView::Valid => None,
    }
}

/// The input of a call to one of `tools`, and whether the call is dynamic; or
/// why it is invalid. An unknown tool is looked at before the input is; `said`
/// are the words in which the tool's schema is refused, should it not compile.
pub open spec fn validated(call: RawToolCallView, tools: Seq<ToolView>, said: Seq<char>) -> Result<
    (JsonView, Option<bool>),
    AiMuxErrorView,
> {
    match find_tool(tools, call.tool_name) {
        None => if provider_dynamic(call) {
            match parsed_input(call) {
                Ok(input) => Ok((input, Some(true))),
                Err(error) => Err(error),
            }
        } else {
            Err(
                AiMuxErrorView::NoSuchTool {
                    tool_name: call.tool_name,
                    available_tools: Some(tool_names(tools)),
                    tool_input: Some(call.input),
                },
            )
        },
        Some(tool) => match parsed_input(call) {
            Err(error) => Err(error),
            Ok(input) => match tool {
                ToolView::Provider { .. } => Ok((input, None)),
                ToolView::Function { input_schema, .. } => match schema_error(
                    call,
                    input,
                    schema_outcome(input_schema, input, said),
                ) {
                    Some(error) => Err(error),
                    None => Ok((input, None)),
                },
            },
        },
    }
}

/// Whether validating a call can come to `result`, whatever words a refused
/// schema is refused in.
pub open spec fn validates_to(
    call: RawToolCallView,
    tools: Seq<ToolView>,
    result: Result<(JsonView, Option<bool>), AiMuxErrorView>,
) -> bool {
    exists|said: Seq<char>| result == #[trigger] validated(call, tools, said)
}

/// What validating a call came to.
pub open spec fn checked_view(r: Result<(Json, Option<bool>), AiMuxError>) -> Result<
    (JsonView, Option<bool>),
    AiMuxErrorView,
> {
    match r {
        Ok((input, dynamic)) => Ok((input@, dynamic)),
        Err(error) => Err(error@),
    }
}

/// The failure of a call whose input its tool's schema was asked about.
pub fn schema_failure(call: &RawToolCall, input: &Json, outcome: SchemaOutcome) -> (r: Option<AiMuxError>)
    ensures
        error_view(r) == schema_error(call@, input@, outcome@),
{
    match outcome {
        SchemaOutcome::BadSchema(words) => Some(
            bad_input_error(call, join2("input schema is invalid: ", words.as_str())),
        ),
        SchemaOutcome::Violation(words) => Some(
            bad_input_error(
                call,
                join4(
                    "Type validation failed: Value: ",
                    print_json(input).as_str(),
                    ".\nError message: ",
                    words.as_str(),
                ),
            ),
        ),
        SchemaOutcome::Valid => None,
    }
}

/// Parse a call's input and hold it to the tool that it names.
pub fn parse_and_validate_tool_call(tool_call: &RawToolCall, tools: &[Tool]) -> (r: Result<
    (Json, Option<bool>),
    AiMuxError,
>)
    ensures
        validates_to(tool_call@, tools_view(tools@), checked_view(r)),
{
    let ghost told = validated(tool_call@, tools_view(tools@), seq![]);
    let tool = match tool_named(tools, &tool_call.tool_name) {
        Some(tool) => tool,
        None => {
            let dynamic = tool_call.provider_executed == Some(true) && tool_call.dynamic == Some(true);
            if dynamic {
                return match parse_json_input(tool_call) {
                    Ok(input) => Ok((input, Some(true))),
                    Err(error) => Err(error),
                };
            }
            return Err(
                AiMuxError::NoSuchTool {
                    tool_name: tool_call.tool_name.clone(),
                    available_tools: Some(names_of(tools)),
                    tool_input: Some(tool_call.input.clone()),
                },
            );
        },
    };
    let input = match parse_json_input(tool_call) {
        Ok(input) => input,
        Err(error) => {
            return Err(error);
        },
    };
    if let Tool::Function(function) = tool {
        let outcome = check_schema(&function.input_schema, &input);
        proof {
            let said = choose|said: Seq<char>|
                outcome@ == #[trigger] schema_outcome(function.input_schema@, input@, said);
            let told = validated(tool_call@, tools_view(tools@), said);
        }
        if let Some(error) = schema_failure(tool_call, &input, outcome) {
            return Err(error);
        }
    }
    Ok((input, None))
}

/// The call that a raw call becomes once its input is accepted.
pub open spec fn valid_call(call: RawToolCallView, input: JsonView, dynamic: Option<bool>) -> ToolCallView {
    ToolCallView {
        tool_call_id: call.tool_call_id,
        tool_name: call.tool_name,
        input,
        provider_executed: call.provider_executed,
        dynamic,
        thought_signature: call.thought_signature,
        provider_metadata: call.provider_metadata,
        invalid: None,
        error: None,
    }
}

fn valid_tool_call(tool_call: RawToolCall, input: Json, dynamic: Option<bool>) -> (r: ToolCall)
    ensures
        r@ == valid_call(tool_call@, input@, dynamic),
{
    ToolCall {
        tool_call_id: tool_call.tool_call_id,
        tool_name: tool_call.tool_name,
        input,
        provider_executed: tool_call.provider_executed,
        dynamic,
        thought_signature: tool_call.thought_signature,
        provider_metadata: tool_call.provider_metadata,
        invalid: None,
        error: None,
    }
}

/// The input that an invalid call shows: the document when its text is JSON,
/// the text itself otherwise.
pub open spec fn best_input(text: Seq<char>) -> JsonView {
    match json_parse(text) {
        Ok(doc) => doc,
        Err(_) => JsonView::String(text),
    }
}

/// The call that a raw call becomes when it fails.
pub open spec fn invalid_call(call: RawToolCallView, error: AiMuxErrorView) -> ToolCallView {
    ToolCallView {
        tool_call_id: call.tool_call_id,
        tool_name: call.tool_name,
        input: best_input(call.input),
        provider_executed: call.provider_executed,
        dynamic: Some(true),
        thought_signature: call.thought_signature,
        provider_metadata: call.provider_metadata,
        invalid: Some(true),
        error: Some(error),
    }
}

/// The call that a raw call becomes when it fails.
pub fn invalid_tool_call(tool_call: RawToolCall, error: AiMuxError) -> (r: ToolCall)
    ensures
        r@ == invalid_call(tool_call@, error@),
{
    let input = match parse_json(tool_call.input.as_str()) {
        Ok(doc) => doc,
        Err(_) => json_string(tool_call.input.as_str()),
    };
    ToolCall {
        tool_call_id: tool_call.tool_call_id,
        tool_name: tool_call.tool_name,
        input,
        provider_executed: tool_call.provider_executed,
        dynamic: Some(true),
        thought_signature: tool_call.thought_signature,
        provider_metadata: tool_call.provider_metadata,
        invalid: Some(true),
        error: Some(error),
    }
}

/// What a repair attempt produced, however it was obtained.
pub enum RepairOutcome {
    Repaired(RawToolCall),
    Unchanged,
    Failed(AiMuxError),
}

#[verifier::ext_equal]
pub enum RepairOutcomeView {
    Repaired(RawToolCallView),
    Unchanged,
    Failed(AiMuxErrorView),
}

impl View for RepairOutcome {
    type V = RepairOutcomeView;

    open spec fn view(&self) -> RepairOutcomeView {
        match *self {
            RepairOutcome::Repaired(call) => RepairOutcomeView::Repaired(call@),
            RepairOutcome::Unchanged => RepairOutcomeView::Unchanged,
            RepairOutcome::Failed(error) => RepairOutcomeView::Failed(error@),
        }
    }
}

/// The error of a call whose repair did not help.
pub open spec fn repair_error(original: AiMuxErrorView, cause: AiMuxErrorView) -> AiMuxErrorView {
    AiMuxErrorView::ToolCallRepair { original_error: Box::new(original), cause: Box::new(cause) }
}

/// The call after one repair attempt: a replacement is validated from scratch
/// and never repaired again. `said` are the words in which its tool's schema is
/// refused, should it not compile.
pub open spec fn resolved(
    call: RawToolCallView,
    error: AiMuxErrorView,
    tools: Seq<ToolView>,
    outcome: RepairOutcomeView,
    said: Seq<char>,
) -> ToolCallView {
    match outcome {
        RepairOutcomeView::Repaired(repaired) => match validated(repaired, tools, said) {
            Ok((input, dynamic)) => valid_call(repaired, input, dynamic),
            Err(cause) => invalid_call(call, repair_error(error, cause)),
        },
        RepairOutcomeView::Unchanged => invalid_call(call, error),
        RepairOutcomeView::Failed(cause) => invalid_call(call, repair_error(error, cause)),
    }
}

/// Whether a repair attempt can make `result` of a failed call.
pub open spec fn resolves_to(
    call: RawToolCallView,
    error: AiMuxErrorView,
    tools: Seq<ToolView>,
    outcome: RepairOutcomeView,
    result: ToolCallView,
) -> bool {
    exists|said: Seq<char>| result == #[trigger] resolved(call, error, tools, outcome, said)
}

/// Resolve a failed call against what its repair attempt produced.
pub fn apply_repair_outcome(
    tool_call: RawToolCall,
    original_error: AiMuxError,
    tools: &[Tool],
    outcome: RepairOutcome,
) -> (r: ToolCall)
    ensures
        resolves_to(tool_call@, original_error@, tools_view(tools@), outcome@, r@),
{
    let ghost attempt = outcome@;
    let ghost told = resolved(tool_call@, original_error@, tools_view(tools@), attempt, seq![]);
    let cause = match outcome {
        RepairOutcome::Repaired(repaired) => {
            let checked = parse_and_validate_tool_call(&repaired, tools);
            proof {
                let said = choose|said: Seq<char>|
                    checked_view(checked) == #[trigger] validated(repaired@, tools_view(tools@), said);
                let told = resolved(tool_call@, original_error@, tools_view(tools@), attempt, said);
            }
            match checked {
                Ok((input, dynamic)) => {
                    return valid_tool_call(repaired, input, dynamic);
                },
                Err(repaired_error) => repaired_error,
            }
        },
        RepairOutcome::Unchanged => {
            return invalid_tool_call(tool_call, original_error);
        },
        RepairOutcome::Failed(repair_error) => repair_error,
    };
    invalid_tool_call(
        tool_call,
        AiMuxError::ToolCallRepair { original_error: Box::new(original_error), cause: Box::new(cause) },
    )
}

/// What a repair is told of the call that failed.
pub struct ToolCallRepairContext {
    pub instructions: Option<String>,
    /// The same text as `instructions`, under its older name.
    pub system: Option<String>,
    pub messages: Vec<ModelMessage>,
    pub tool_call: RawToolCall,
    pub tools: Vec<Tool>,
    pub error: AiMuxError,
}

#[verifier::ext_equal]
pub struct RepairContextView {
    pub instructions: Option<Seq<char>>,
    pub system: Option<Seq<char>>,
    pub messages: Seq<ModelMessageView>,
    pub tool_call: RawToolCallView,
    pub tools: Seq<ToolView>,
    pub error: AiMuxErrorView,
}

impl View for ToolCallRepairContext {
    type V = RepairContextView;

    open spec fn view(&self) -> RepairContextView {
        RepairContextView {
            instructions: text_view(self.instructions),
            system: text_view(self.system),
            messages: messages_view(self.messages@),
            tool_call: self.tool_call@,
            tools: tools_view(self.tools@),
            error: self.error@,
        }
    }
}

/// The context of a failed call.
pub open spec fn repair_context(
    call: RawToolCallView,
    error: AiMuxErrorView,
    tools: Seq<ToolView>,
    messages: Seq<ModelMessageView>,
    instructions: Option<Seq<char>>,
) -> RepairContextView {
    RepairContextView { instructions, system: instructions, messages, tool_call: call, tools, error }
}

/// The view of an optional borrowed text.
pub open spec fn str_view(text: Option<&str>) -> Option<Seq<char>> {
    match text {
        Some(text) => Some(text@),
        None => None,
    }
}

fn own_text(text: Option<&str>) -> (r: Option<String>)
    ensures
        text_view(r) == str_view(text),
{
    match text {
        Some(text) => Some(text.to_owned()),
        None => None,
    }
}

/// The context of a failed call.
pub fn make_context(
    tool_call: &RawToolCall,
    error: &AiMuxError,
    tools: &[Tool],
    messages: &[ModelMessage],
    instructions: Option<&str>,
) -> (r: ToolCallRepairContext)
    ensures
        r@ == repair_context(
            tool_call@,
            error@,
            tools_view(tools@),
            messages_view(messages@),
            str_view(instructions),
        ),
{
    ToolCallRepairContext {
        instructions: own_text(instructions),
        system: own_text(instructions),
        messages: copy_messages(messages),
        tool_call: tool_call.copy(),
        tools: copy_tools(tools),
        error: error.copy(),
    }
}

/// The schema of an object that takes nothing.
pub open spec fn empty_schema() -> JsonView {
    let f = put(no_fields(), "type"@, JsonView::String("object"@));
    let f = put(f, "properties"@, JsonView::Object(no_fields()));
    JsonView::Object(put(f, "additionalProperties"@, JsonView::Bool(false)))
}

/// The schema of the first function tool of a name; a name that resolves to
/// none has the schema of an empty object.
pub open spec fn schema_of(tools: Seq<ToolView>, name: Seq<char>) -> JsonView
    decreases tools.len(),
{
    if tools.len() == 0 {
        empty_schema()
    } else {
        match tools[0] {
            ToolView::Function { name: own, input_schema, .. } if own == name => input_schema,
            _ => schema_of(tools.drop_first(), name),
        }
    }
}

pub open spec fn is_function_named(tool: ToolView, name: Seq<char>) -> bool {
    tool is Function && tool.tool_name() == name
}

proof fn lemma_schema_of(tools: Seq<ToolView>, name: Seq<char>, i: int)
    requires
        0 <= i <= tools.len(),
        forall|k: int| 0 <= k < i ==> !is_function_named(#[trigger] tools[k], name),
    ensures
        i == tools.len() ==> schema_of(tools, name) == empty_schema(),
        i < tools.len() && is_function_named(tools[i], name) ==> schema_of(tools, name)
            == tools[i]->input_schema,
    decreases i,
{
    if i > 0 {
        assert(!is_function_named(tools[0], name));
        assert forall|k: int| 0 <= k < i - 1 implies !is_function_named(
            #[trigger] tools.drop_first()[k],
            name,
        ) by {
            assert(!is_function_named(tools[k + 1], name));
        }
        lemma_schema_of(tools.drop_first(), name, i - 1);
    }
}

impl ToolCallRepairContext {
    /// The schema of a named function tool. Never fails: a name that resolves
    /// to no function tool has the schema of an empty object.
    pub fn input_schema(&self, tool_name: &str) -> (r: Json)
        ensures
            r@ == schema_of(self@.tools, tool_name@),
    {
        broadcast use lemma_model;

        let wanted = tool_name.to_owned();
        let mut i: usize = 0;
        while i < self.tools.len()
            invariant
                i <= self.tools.len(),
                wanted@ == tool_name@,
                forall|k: int| 0 <= k < i ==> !is_function_named(#[trigger] self@.tools[k], tool_name@),
            decreases self.tools.len() - i,
        {
            if let Tool::Function(tool) = &self.tools[i] {
                if tool.name == wanted {
                    proof {
                        assert(is_function_named(self@.tools[i as int], tool_name@));
                        lemma_schema_of(self@.tools, tool_name@, i as int);
                    }
                    return tool.input_schema.copy();
                }
            }
            assert(!is_function_named(self@.tools[i as int], tool_name@));
            i = i + 1;
        }
        proof {
            lemma_schema_of(self@.tools, tool_name@, i as int);
        }
        json_object(
            JsonObject::new().with("type", json_string("object")).with(
                "properties",
                json_object(JsonObject::new()),
            ).with("additionalProperties", Json::Bool(false)),
        )
    }
}

/// How far a call comes before a repair may be asked for.
pub enum ToolCallStep {
    Done(ToolCall),
    /// The call failed against a tool set, which may be worth one repair.
    Failed { tool_call: RawToolCall, error: AiMuxError },
}

#[verifier::ext_equal]
pub enum StepView {
    Done(ToolCallView),
    Failed(RawToolCallView, AiMuxErrorView),
}

impl View for ToolCallStep {
    type V = StepView;

    open spec fn view(&self) -> StepView {
        match *self {
            ToolCallStep::Done(call) => StepView::Done(call@),
            ToolCallStep::Failed { tool_call, error } => StepView::Failed(tool_call@, error@),
        }
    }
}

/// Without a tool set only a dynamic call of the provider is valid, and
/// nothing is repaired. `said` are the words in which the tool's schema is
/// refused, should it not compile.
pub open spec fn first_step(call: RawToolCallView, tools: Option<Seq<ToolView>>, said: Seq<char>) -> StepView {
    match tools {
        None => if provider_dynamic(call) {
            match parsed_input(call) {
                Ok(input) => StepView::Done(valid_call(call, input, Some(true))),
                Err(error) => StepView::Done(invalid_call(call, error)),
            }
        } else {
            StepView::Done(
                invalid_call(
                    call,
                    AiMuxErrorView::NoSuchTool {
                        tool_name: call.tool_name,
                        available_tools: None,
                        tool_input: Some(call.input),
                    },
                ),
            )
        },
        Some(tools) => match validated(call, tools, said) {
            Ok((input, dynamic)) => StepView::Done(valid_call(call, input, dynamic)),
            Err(error) => StepView::Failed(call, error),
        },
    }
}

/// Whether a call can come as far as `step`.
pub open spec fn steps_to(call: RawToolCallView, tools: Option<Seq<ToolView>>, step: StepView) -> bool {
    exists|said: Seq<char>| step == #[trigger] first_step(call, tools, said)
}

/// The views of an optional borrowed tool set.
pub open spec fn tool_slice_view(tools: Option<&[Tool]>) -> Option<Seq<ToolView>> {
    match tools {
        Some(tools) => Some(tools_view(tools@)),
        None => None,
    }
}

/// Parse and validate a call, up to the point where a repair may be asked for.
pub fn begin_tool_call(tool_call: RawToolCall, tools: Option<&[Tool]>) -> (r: ToolCallStep)
    ensures
        steps_to(tool_call@, tool_slice_view(tools), r@),
{
    let ghost told = first_step(tool_call@, tool_slice_view(tools), seq![]);
    match tools {
        None => {
            let dynamic = tool_call.provider_executed == Some(true) && tool_call.dynamic == Some(true);
            if dynamic {
                match parse_json_input(&tool_call) {
                    Ok(input) => ToolCallStep::Done(valid_tool_call(tool_call, input, Some(true))),
                    Err(error) => ToolCallStep::Done(invalid_tool_call(tool_call, error)),
                }
            } else {
                let error = AiMuxError::NoSuchTool {
                    tool_name: tool_call.tool_name.clone(),
                    available_tools: None,
                    tool_input: Some(tool_call.input.clone()),
                };
                ToolCallStep::Done(invalid_tool_call(tool_call, error))
            }
        },
        Some(set) => {
            let checked = parse_and_validate_tool_call(&tool_call, set);
            proof {
                let said = choose|said: Seq<char>|
                    checked_view(checked) == #[trigger] validated(tool_call@, tools_view(set@), said);
                let told = first_step(tool_call@, tool_slice_view(tools), said);
            }
            match checked {
                Ok((input, dynamic)) => ToolCallStep::Done(valid_tool_call(tool_call, input, dynamic)),
                Err(error) => ToolCallStep::Failed { tool_call, error },
            }
        },
    }
}

/// A callback that may replace one invalid call. It is asked at most once per
/// call; `None` keeps the original error.
pub struct ToolCallRepair<F> {
    callback: F,
}

/// What a callback's answer amounts to.
pub open spec fn answer_view(answer: Result<Option<RawToolCall>, AiMuxError>) -> RepairOutcomeView {
    match answer {
        Ok(Some(call)) => RepairOutcomeView::Repaired(call@),
        Ok(None) => RepairOutcomeView::Unchanged,
        Err(error) => RepairOutcomeView::Failed(error@),
    }
}

/// What a callback's answer amounts to.
pub fn outcome_of_answer(answer: Result<Option<RawToolCall>, AiMuxError>) -> (r: RepairOutcome)
    ensures
        r@ == answer_view(answer),
{
    match answer {
        Ok(Some(call)) => RepairOutcome::Repaired(call),
        Ok(None) => RepairOutcome::Unchanged,
        Err(error) => RepairOutcome::Failed(error),
    }
}

impl<F: Fn(ToolCallRepairContext) -> Result<Option<RawToolCall>, AiMuxError>> ToolCallRepair<F> {
    pub closed spec fn function(self) -> F {
        self.callback
    }

    pub fn new(repair: F) -> (r: Self)
        ensures
            r.function() == repair,
    {
        ToolCallRepair { callback: repair }
    }

    /// Ask the callback.
    pub fn repair(&self, context: ToolCallRepairContext) -> (r: Result<Option<RawToolCall>, AiMuxError>)
        requires
            call_requires(self.function(), (context,)),
        ensures
            call_ensures(self.function(), (context,), r),
    {
        (self.callback)(context)
    }
}

/// The call that one answer of a callback leads to.
pub open spec fn answered<F: Fn(ToolCallRepairContext) -> Result<Option<RawToolCall>, AiMuxError>>(
    repair: ToolCallRepair<F>,
    context: RepairContextView,
    call: RawToolCallView,
    error: AiMuxErrorView,
    tools: Seq<ToolView>,
    result: ToolCallView,
) -> bool {
    exists|asked: ToolCallRepairContext, answer: Result<Option<RawToolCall>, AiMuxError>|
        {
            &&& asked@ == context
            &&& #[trigger] call_ensures(repair.function(), (asked,), answer)
            &&& resolves_to(call, error, tools, answer_view(answer), result)
        }
}

/// Whether a call that came as far as `step` comes to `result`.
pub open spec fn ends_in<F: Fn(ToolCallRepairContext) -> Result<Option<RawToolCall>, AiMuxError>>(
    step: StepView,
    tools: Option<Seq<ToolView>>,
    repair: Option<&ToolCallRepair<F>>,
    messages: Seq<ModelMessageView>,
    instructions: Option<Seq<char>>,
    result: ToolCallView,
) -> bool {
    match step {
        StepView::Done(call) => result == call,
        StepView::Failed(call, error) => match repair {
            None => result == invalid_call(call, error),
            Some(repair) => answered(
                *repair,
                repair_context(call, error, tools.unwrap(), messages, instructions),
                call,
                error,
                tools.unwrap(),
                result,
            ),
        },
    }
}

/// Whether a provider's call comes to `result`: valid, or invalid with its
/// error, or what the one answer of a callback makes of it.
pub open spec fn parses_to<F: Fn(ToolCallRepairContext) -> Result<Option<RawToolCall>, AiMuxError>>(
    call: RawToolCallView,
    tools: Option<Seq<ToolView>>,
    repair: Option<&ToolCallRepair<F>>,
    messages: Seq<ModelMessageView>,
    instructions: Option<Seq<char>>,
    result: ToolCallView,
) -> bool {
    exists|said: Seq<char>|
        ends_in(#[trigger] first_step(call, tools, said), tools, repair, messages, instructions, result)
}

/// Parse and validate a provider's tool call.
///
/// JSON is parsed exactly. When a tool set was supplied, a failure of lookup,
/// parsing or validation gives the optional callback one attempt; a call made
/// without a tool set is not repaired. A remaining failure is carried by the
/// returned call.
pub fn parse_tool_call<F: Fn(ToolCallRepairContext) -> Result<Option<RawToolCall>, AiMuxError>>(
    tool_call: RawToolCall,
    tools: Option<&[Tool]>,
    repair_tool_call: Option<&ToolCallRepair<F>>,
    messages: &[ModelMessage],
    instructions: Option<&str>,
) -> (r: ToolCall)
    requires
        repair_tool_call matches Some(repair) ==> forall|context: ToolCallRepairContext|
            #[trigger] call_requires(repair.function(), (context,)),
    ensures
        parses_to(
            tool_call@,
            tool_slice_view(tools),
            repair_tool_call,
            messages_view(messages@),
            str_view(instructions),
            r@,
        ),
{
    let ghost raw = tool_call@;
    let step = begin_tool_call(tool_call, tools);
    let ghost reached = step@;
    proof {
        let said = choose|said: Seq<char>| reached == #[trigger] first_step(raw, tool_slice_view(tools), said);
        let told = first_step(raw, tool_slice_view(tools), said);
    }
    match step {
        ToolCallStep::Done(call) => call,
        ToolCallStep::Failed { tool_call, error } => match (repair_tool_call, tools) {
            (Some(repair), Some(tools)) => {
                let context = make_context(&tool_call, &error, tools, messages, instructions);
                let ghost asked = context;
                let answer = repair.repair(context);
                let ghost said = answer;
                assert(call_ensures(repair.function(), (asked,), said));
                apply_repair_outcome(tool_call, error, tools, outcome_of_answer(answer))
            },
            _ => invalid_tool_call(tool_call, error),
        },
    }
}

/// The argument text that a failure carries, under a failed repair too.
pub open spec fn carried_text(error: AiMuxErrorView) -> Option<Seq<char>>
    decreases error,
{
    match error {
        AiMuxErrorView::NoSuchTool { tool_input, .. } => tool_input,
        AiMuxErrorView::InvalidToolInput { tool_input, .. } => Some(tool_input),
        AiMuxErrorView::ToolCallRepair { original_error, .. } => carried_text(*original_error),
        _ => None,
    }
}

pub fn carried_input(error: &AiMuxError) -> (r: Option<String>)
    ensures
        text_view(r) == carried_text(error@),
    decreases error,
{
    match error {
        AiMuxError::NoSuchTool { tool_input, .. } => copy_text(tool_input),
        AiMuxError::InvalidToolInput { tool_input, .. } => Some(tool_input.clone()),
        AiMuxError::ToolCallRepair { original_error, .. } => carried_input(original_error),
        _ => None,
    }
}

/// A string input is a provider's text as it stands; a structured input is
/// printed again.
pub open spec fn raw_text(input: JsonView) -> Seq<char> {
    match input {
        JsonView::String(text) => text,
        _ => json_print(input),
    }
}

/// The argument text of an input.
pub fn raw_tool_input(input: &Json) -> (r: String)
    ensures
        r@ == raw_text(input@),
{
    broadcast use lemma_model;

    match input {
        Json::String(text) => text.clone(),
        _ => print_json(input),
    }
}

pub open spec fn argument_error(words: Seq<char>) -> AiMuxErrorView {
    AiMuxErrorView::InvalidArgument(words)
}

/// The raw call and the error behind an invalid call. The argument text is
/// the provider's own, as the error carries it.
pub open spec fn recovered(call: ToolCallView) -> Result<(RawToolCallView, AiMuxErrorView), AiMuxErrorView> {
    if call.invalid != Some(true) {
        Err(argument_error("tool call '"@ + call.tool_call_id + "' is not invalid; nothing to repair"@))
    } else {
        match call.error {
            None => Err(argument_error("invalid tool call '"@ + call.tool_call_id + "' carries no error"@)),
            Some(error) => Ok(
                (
                    RawToolCallView {
                        tool_call_id: call.tool_call_id,
                        tool_name: call.tool_name,
                        input: match carried_text(error) {
                            Some(text) => text,
                            None => raw_text(call.input),
                        },
                        provider_executed: call.provider_executed,
                        dynamic: call.dynamic,
                        thought_signature: call.thought_signature,
                        provider_metadata: call.provider_metadata,
                    },
                    error,
                ),
            ),
        }
    }
}

/// Recover the raw call that an invalid call was built from.
pub fn raw_from_invalid(tool_call: &ToolCall) -> (r: Result<(RawToolCall, AiMuxError), AiMuxError>)
    ensures
        recovered(tool_call@) == (match r {
            Ok((raw, error)) => Ok((raw@, error@)),
            Err(error) => Err(error@),
        }),
{
    if tool_call.invalid != Some(true) {
        return Err(
            AiMuxError::InvalidArgument(
                join3(
                    "tool call '",
                    tool_call.tool_call_id.as_str(),
                    "' is not invalid; nothing to repair",
                ),
            ),
        );
    }
    let error = match &tool_call.error {
        Some(error) => error.copy(),
        None => {
            return Err(
                AiMuxError::InvalidArgument(
                    join3("invalid tool call '", tool_call.tool_call_id.as_str(), "' carries no error"),
                ),
            );
        },
    };
    let input = match carried_input(&error) {
        Some(text) => text,
        None => raw_tool_input(&tool_call.input),
    };
    Ok(
        (
            RawToolCall {
                tool_call_id: tool_call.tool_call_id.clone(),
                tool_name: tool_call.tool_name.clone(),
                input,
                provider_executed: tool_call.provider_executed,
                dynamic: tool_call.dynamic,
                thought_signature: copy_text(&tool_call.thought_signature),
                provider_metadata: copy_json(&tool_call.provider_metadata),
            },
            error,
        ),
    )
}

/// The document that a host repairs a call from.
pub open spec fn context_doc(context: RepairContextView) -> JsonView {
    let f = put(no_fields(), "tool_call"@, raw_call_doc(context.tool_call));
    let f = put(f, "error"@, error_doc(context.error));
    let f = put(f, "input_schema"@, schema_of(context.tools, context.tool_call.tool_name));
    let f = put(f, "tools"@, tools_doc(context.tools));
    let f = put(f, "messages"@, messages_doc(context.messages));
    JsonView::Object(put(f, "instructions"@, or_null(text_doc(context.instructions))))
}

fn context_json(context: &ToolCallRepairContext) -> (r: Json)
    ensures
        r@ == context_doc(context@),
{
    json_object(
        JsonObject::new().with("tool_call", raw_call_json(&context.tool_call)).with(
            "error",
            error_json(&context.error),
        ).with("input_schema", context.input_schema(context.tool_call.tool_name.as_str())).with(
            "tools",
            tools_json(context.tools.as_slice()),
        ).with("messages", messages_json(context.messages.as_slice())).with(
            "instructions",
            json_or_null(json_text_option(&context.instructions)),
        ),
    )
}

/// The repair document of a call, when a tool set makes it repairable.
pub open spec fn context_of(
    call: ToolCallView,
    tools: Option<Seq<ToolView>>,
    messages: Seq<ModelMessageView>,
    instructions: Option<Seq<char>>,
) -> Result<Option<JsonView>, AiMuxErrorView> {
    match tools {
        None => Ok(None),
        Some(tools) => match recovered(call) {
            Ok((raw, error)) => Ok(
                Some(context_doc(repair_context(raw, error, tools, messages, instructions))),
            ),
            Err(error) => Err(error),
        },
    }
}

/// The document that a host repairs an invalid call from: the provider's call,
/// its error, the schema of the named tool, the tools, the messages and the
/// instructions. Without a tool set there is nothing to repair.
pub fn tool_call_repair_context(
    tool_call: &ToolCall,
    tools: Option<&[Tool]>,
    messages: &[ModelMessage],
    instructions: Option<&str>,
) -> (r: Result<Option<Json>, AiMuxError>)
    ensures
        context_of(tool_call@, tool_slice_view(tools), messages_view(messages@), str_view(instructions))
            == (match r {
            Ok(Some(context)) => Ok(Some(context@)),
            Ok(None) => Ok(None),
            Err(error) => Err(error@),
        }),
{
    match tools {
        None => Ok(None),
        Some(tools) => match raw_from_invalid(tool_call) {
            Ok((raw, error)) => Ok(
                Some(context_json(&make_context(&raw, &error, tools, messages, instructions))),
            ),
            Err(error) => Err(error),
        },
    }
}

/// A host's answer to one repair request.
pub enum ToolCallRepairReply {
    /// Validate this replacement, as the callback's own replacement would be.
    Repaired { tool_call: RawToolCall },
    /// Keep the original failure.
    Unchanged,
    /// The attempt itself failed.
    Failed { message: String },
}

/// What a host's answer amounts to.
pub open spec fn reply_view(reply: ToolCallRepairReply) -> RepairOutcomeView {
    match reply {
        ToolCallRepairReply::Repaired { tool_call } => RepairOutcomeView::Repaired(tool_call@),
        ToolCallRepairReply::Unchanged => RepairOutcomeView::Unchanged,
        ToolCallRepairReply::Failed { message } => RepairOutcomeView::Failed(AiMuxErrorView::Other(message@)),
    }
}

/// What a host's answer amounts to.
pub fn outcome_of_reply(reply: ToolCallRepairReply) -> (r: RepairOutcome)
    ensures
        r@ == reply_view(reply),
{
    match reply {
        ToolCallRepairReply::Repaired { tool_call } => RepairOutcome::Repaired(tool_call),
        ToolCallRepairReply::Unchanged => RepairOutcome::Unchanged,
        ToolCallRepairReply::Failed { message } => RepairOutcome::Failed(AiMuxError::Other(message)),
    }
}

/// An invalid call resolved against an answer. Without a tool set no answer
/// applies. `said` are the words in which the tool's schema is refused, should
/// it not compile.
pub open spec fn applied(
    call: ToolCallView,
    tools: Option<Seq<ToolView>>,
    outcome: RepairOutcomeView,
    said: Seq<char>,
) -> Result<ToolCallView, AiMuxErrorView> {
    match tools {
        None => Err(argument_error("no tool set was supplied; nothing to repair against"@)),
        Some(tools) => match recovered(call) {
            Ok((raw, error)) => Ok(resolved(raw, error, tools, outcome, said)),
            Err(error) => Err(error),
        },
    }
}

/// What repairing a call came to.
pub open spec fn repaired_view(r: Result<ToolCall, AiMuxError>) -> Result<ToolCallView, AiMuxErrorView> {
    match r {
        Ok(call) => Ok(call@),
        Err(error) => Err(error@),
    }
}

/// Whether an answer can make `result` of an invalid call.
pub open spec fn applies_to(
    call: ToolCallView,
    tools: Option<Seq<ToolView>>,
    outcome: RepairOutcomeView,
    result: Result<ToolCallView, AiMuxErrorView>,
) -> bool {
    exists|said: Seq<char>| result == #[trigger] applied(call, tools, outcome, said)
}

/// Resolve one invalid call against a host's reply, as the callback with the
/// equivalent answer would have.
pub fn apply_tool_call_repair(
    tool_call: &ToolCall,
    tools: Option<&[Tool]>,
    reply: ToolCallRepairReply,
) -> (r: Result<ToolCall, AiMuxError>)
    ensures
        applies_to(tool_call@, tool_slice_view(tools), reply_view(reply), repaired_view(r)),
{
    let ghost outcome = reply_view(reply);
    let ghost told = applied(tool_call@, tool_slice_view(tools), outcome, seq![]);
    match tools {
        None => Err(
            AiMuxError::InvalidArgument("no tool set was supplied; nothing to repair against".to_owned()),
        ),
        Some(set) => match raw_from_invalid(tool_call) {
            Ok((raw, error)) => {
                let ghost origin = (raw@, error@);
                let call = apply_repair_outcome(raw, error, set, outcome_of_reply(reply));
                proof {
                    let said = choose|said: Seq<char>|
                        call@ == #[trigger] resolved(origin.0, origin.1, tools_view(set@), outcome, said);
                    let told = applied(tool_call@, tool_slice_view(tools), outcome, said);
                }
                Ok(call)
            },
            Err(error) => Err(error),
        },
    }
}

} // verus!
