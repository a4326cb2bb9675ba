//! Tools, and the calls that models make of them.
use crate::error::{copy_json, error_view, json_view, AiMuxError, AiMuxErrorView};
use crate::json::{Json, JsonView};
use crate::json_text::text_view;
use crate::text::copy_text;
use vstd::prelude::*;
use vstd::string::*;

verus! {

/// A tool that the caller runs.
pub struct FunctionTool {
    pub name: String,
    pub description: Option<String>,
    pub input_schema: Json,
}

/// A tool that the provider runs.
pub struct ProviderTool {
    pub id: String,
    pub name: String,
    pub args: Json,
}

pub enum Tool {
    Function(FunctionTool),
    Provider(ProviderTool),
}

/// How the model should choose among its tools.
pub enum ToolChoice {
    Auto,
    NoTool,
    Required,
    Tool { tool_name: String },
}

/// A provider's tool call before its input is parsed: `input` is the raw
/// argument text.
pub struct RawToolCall {
    pub tool_call_id: String,
    pub tool_name: String,
    pub input: String,
    pub provider_executed: Option<bool>,
    pub dynamic: Option<bool>,
    pub thought_signature: Option<String>,
    pub provider_metadata: Option<Json>,
}

/// A tool call with its input parsed. An invalid one carries its error.
pub struct ToolCall {
    pub tool_call_id: String,
    pub tool_name: String,
    pub input: Json,
    pub provider_executed: Option<bool>,
    pub dynamic: Option<bool>,
    pub thought_signature: Option<String>,
    pub provider_metadata: Option<Json>,
    pub invalid: Option<bool>,
    pub error: Option<AiMuxError>,
}

#[verifier::ext_equal]
pub enum ToolView {
    Function { name: Seq<char>, description: Option<Seq<char>>, input_schema: JsonView },
    Provider { id: Seq<char>, name: Seq<char>, args: JsonView },
}

#[verifier::ext_equal]
pub enum ToolChoiceView {
    Auto,
    NoTool,
    Required,
    Tool(Seq<char>),
}

#[verifier::ext_equal]
pub struct RawToolCallView {
    pub tool_call_id: Seq<char>,
    pub tool_name: Seq<char>,
    pub input: Seq<char>,
    pub provider_executed: Option<bool>,
    pub dynamic: Option<bool>,
    pub thought_signature: Option<Seq<char>>,
    pub provider_metadata: Option<JsonView>,
}

#[verifier::ext_equal]
pub struct ToolCallView {
    pub tool_call_id: Seq<char>,
    pub tool_name: Seq<char>,
    pub input: JsonView,
    pub provider_executed: Option<bool>,
    pub dynamic: Option<bool>,
    pub thought_signature: Option<Seq<char>>,
    pub provider_metadata: Option<JsonView>,
    pub invalid: Option<bool>,
    pub error: Option<AiMuxErrorView>,
}

impl View for Tool {
    type V = ToolView;

    open spec fn view(&self) -> ToolView {
        match *self {
            Tool::Function(tool) => ToolView::Function {
                name: tool.name@,
                description: text_view(tool.description),
                input_schema: tool.input_schema@,
            },
            Tool::Provider(tool) => ToolView::Provider { id: tool.id@, name: tool.name@, args: tool.args@ },
        }
    }
}

impl ToolView {
    pub open spec fn tool_name(self) -> Seq<char> {
        match self {
            ToolView::Function { name, .. } => name,
            ToolView::Provider { name, .. } => name,
        }
    }
}

impl View for ToolChoice {
    type V = ToolChoiceView;

    open spec fn view(&self) -> ToolChoiceView {
        match *self {
            ToolChoice::Auto => ToolChoiceView::Auto,
            ToolChoice::NoTool => ToolChoiceView::NoTool,
            ToolChoice::Required => ToolChoiceView::Required,
            ToolChoice::Tool { tool_name } => ToolChoiceView::Tool(tool_name@),
        }
    }
}

impl View for RawToolCall {
    type V = RawToolCallView;

    open spec fn view(&self) -> RawToolCallView {
        RawToolCallView {
            tool_call_id: self.tool_call_id@,
            tool_name: self.tool_name@,
            input: self.input@,
            provider_executed: self.provider_executed,
            dynamic: self.dynamic,
            thought_signature: text_view(self.thought_signature),
            provider_metadata: json_view(self.provider_metadata),
        }
    }
}

impl View for ToolCall {
    type V = ToolCallView;

    open spec fn view(&self) -> ToolCallView {
        ToolCallView {
            tool_call_id: self.tool_call_id@,
            tool_name: self.tool_name@,
            input: self.input@,
            provider_executed: self.provider_executed,
            dynamic: self.dynamic,
            thought_signature: text_view(self.thought_signature),
            provider_metadata: json_view(self.provider_metadata),
            invalid: self.invalid,
            error: error_view(self.error),
        }
    }
}

/// The views of a list of tools.
pub open spec fn tools_view(list: Seq<Tool>) -> Seq<ToolView> {
    Seq::new(list.len(), |i: int| list[i]@)
}

/// The views of an optional tool set.
pub open spec fn tool_set_view(list: Option<Vec<Tool>>) -> Option<Seq<ToolView>> {
    match list {
        Some(list) => Some(tools_view(list@)),
        None => None,
    }
}

/// The views of a list of calls.
pub open spec fn calls_view(list: Seq<ToolCall>) -> Seq<ToolCallView> {
    Seq::new(list.len(), |i: int| list[i]@)
}

impl FunctionTool {
    pub fn new(name: &str, input_schema: Json) -> (r: FunctionTool)
        ensures
            r.name@ == name@,
            r.description is None,
            r.input_schema == input_schema,
    {
        FunctionTool { name: name.to_owned(), description: None, input_schema }
    }
}

impl Tool {
    pub fn name(&self) -> (r: &String)
        ensures
            r@ == self@.tool_name(),
    {
        match self {
            Tool::Function(tool) => &tool.name,
            Tool::Provider(tool) => &tool.name,
        }
    }

    pub fn copy(&self) -> (r: Tool)
        ensures
            r@ == self@,
    {
        match self {
            Tool::Function(tool) => Tool::Function(
                FunctionTool {
                    name: tool.name.clone(),
                    description: copy_text(&tool.description),
                    input_schema: tool.input_schema.copy(),
                },
            ),
            Tool::Provider(tool) => Tool::Provider(
                ProviderTool { id: tool.id.clone(), name: tool.name.clone(), args: tool.args.copy() },
            ),
        }
    }
}

pub fn copy_tools(list: &[Tool]) -> (r: Vec<Tool>)
    ensures
        tools_view(r@) == tools_view(list@),
{
    let mut out: Vec<Tool> = Vec::new();
    let mut i: usize = 0;
    while i < list.len()
        invariant
            i <= list.len(),
            out.len() == i,
            forall|k: int| 0 <= k < i ==> (#[trigger] out@[k])@ == list@[k]@,
        decreases list.len() - i,
    {
        out.push(list[i].copy());
        i = i + 1;
    }
    assert(tools_view(out@) =~= tools_view(list@));
    out
}

impl ToolChoice {
    pub fn copy(&self) -> (r: ToolChoice)
        ensures
            r@ == self@,
    {
        match self {
            ToolChoice::Auto => ToolChoice::Auto,
            ToolChoice::NoTool => ToolChoice::NoTool,
            ToolChoice::Required => ToolChoice::Required,
            ToolChoice::Tool { tool_name } => ToolChoice::Tool { tool_name: tool_name.clone() },
        }
    }

    pub fn is_auto(&self) -> (r: bool)
        ensures
            r == (self@ is Auto),
    {
        match self {
            ToolChoice::Auto => true,
            _ => false,
        }
    }
}

impl RawToolCall {
    pub fn copy(&self) -> (r: RawToolCall)
        ensures
            r@ == self@,
    {
        RawToolCall {
            tool_call_id: self.tool_call_id.clone(),
            tool_name: self.tool_name.clone(),
            input: self.input.clone(),
            provider_executed: self.provider_executed,
            dynamic: self.dynamic,
            thought_signature: copy_text(&self.thought_signature),
            provider_metadata: copy_json(&self.provider_metadata),
        }
    }
}

impl ToolCall {
    pub fn copy(&self) -> (r: ToolCall)
        ensures
            r@ == self@,
    {
        ToolCall {
            tool_call_id: self.tool_call_id.clone(),
            tool_name: self.tool_name.clone(),
            input: self.input.copy(),
            provider_executed: self.provider_executed,
            dynamic: self.dynamic,
            thought_signature: copy_text(&self.thought_signature),
            provider_metadata: copy_json(&self.provider_metadata),
            invalid: self.invalid,
            error: match &self.error {
                Some(error) => Some(error.copy()),
                None => None,
            },
        }
    }
}

} // verus!
