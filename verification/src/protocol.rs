//! What travels between a host and an operation. Host functions never cross
//! this boundary; only data does.
use crate::error::{AiMuxError, AiMuxErrorView};
use crate::generate_options::{no_options, GenerateTextOptions};
use crate::json::{lemma_model, put, put_some, Json, JsonObject, JsonView};
use crate::json_text::text_view;
use crate::message::{messages_view, ModelMessage, ModelMessageView, ModelPrompt};
use crate::parse_tool_call::{schema_of, RepairContextView, ToolCallRepairContext};
use crate::text::{join2, same_text};
use crate::tool::{tools_view, RawToolCall, RawToolCallView, Tool, ToolView};
use crate::wire::{
    error_doc, error_json, json_object, json_string, json_text_option, messages_doc, messages_json, no_fields,
    raw_call_doc, raw_call_json, text_doc, tools_doc, tools_json,
};
use vstd::prelude::*;
use vstd::string::*;

verus! {

/// What an operation does.
#[derive(Clone, Copy, PartialEq, Eq, Structural, Debug)]
pub enum Mode {
    GenerateText,
    GenerateObject,
    ConsumeStreamText,
    StreamText,
    GenerateTextAsOpenai,
    StreamTextAsOpenai,
}

impl Mode {
    /// The name of a mode on the wire.
    pub open spec fn name(self) -> Seq<char> {
        match self {
            Mode::GenerateText => "generate_text"@,
            Mode::GenerateObject => "generate_object"@,
            Mode::ConsumeStreamText => "consume_stream_text"@,
            Mode::StreamText => "stream_text"@,
            Mode::GenerateTextAsOpenai => "generate_text_as_openai"@,
            Mode::StreamTextAsOpenai => "stream_text_as_openai"@,
        }
    }

    /// The mode of a name.
    pub fn from_name(name: &str) -> (r: Option<Mode>)
        ensures
            match r {
                Some(mode) => name@ == mode.name(),
                None => forall|mode: Mode| #![trigger mode.name()] name@ != mode.name(),
            },
    {
        if same_text(name, "generate_text") {
            Some(Mode::GenerateText)
        } else if same_text(name, "generate_object") {
            Some(Mode::GenerateObject)
        } else if same_text(name, "consume_stream_text") {
            Some(Mode::ConsumeStreamText)
        } else if same_text(name, "stream_text") {
            Some(Mode::StreamText)
        } else if same_text(name, "generate_text_as_openai") {
            Some(Mode::GenerateTextAsOpenai)
        } else if same_text(name, "stream_text_as_openai") {
            Some(Mode::StreamTextAsOpenai)
        } else {
            None
        }
    }
}

/// What an operation is started with.
pub struct StartRequest {
    pub protocol_version: u32,
    pub mode: Mode,
    pub prompt: ModelPrompt,
    pub options: Json,
    /// Whether the host takes repair requests.
    pub repair_tool_call: bool,
}

pub open spec fn not_data(name: Seq<char>) -> AiMuxErrorView {
    AiMuxErrorView::InvalidArgument(name + " is not a data option"@)
}

/// Why a request is refused before its options are decoded, if it is.
pub open spec fn refusal(protocol_version: u32, options: JsonView) -> Option<AiMuxErrorView> {
    if protocol_version != 1 {
        Some(AiMuxErrorView::InvalidArgument("unsupported operation protocol version"@))
    } else if options.field("repair_tool_call"@) is Some {
        Some(not_data("repair_tool_call"@))
    } else if options.field("repairToolCall"@) is Some {
        Some(not_data("repairToolCall"@))
    } else if options.field("abort_signal"@) is Some {
        Some(not_data("abort_signal"@))
    } else {
        None
    }
}

fn not_a_data_option(name: &str) -> (r: AiMuxError)
    ensures
        r@ == not_data(name@),
{
    AiMuxError::InvalidArgument(join2(name, " is not a data option"))
}

impl StartRequest {
    /// The options of a request. A decoder is asked only about options that
    /// are data and there.
    pub fn options<F: Fn(&Json) -> Result<GenerateTextOptions, String>>(&self, decode: &F) -> (r: Result<
        GenerateTextOptions,
        AiMuxError,
    >)
        requires
            forall|json: &Json| #[trigger] call_requires(*decode, (json,)),
        ensures
            match refusal(self.protocol_version, self.options@) {
                Some(error) => r matches Err(e) && e@ == error,
                None => if self.options@ is Null {
                    r matches Ok(options) && options@ == no_options()
                } else {
                    match r {
                        Ok(options) => call_ensures(*decode, (&self.options,), Ok(options)),
                        Err(error) => exists|words: String|
                            #[trigger] call_ensures(*decode, (&self.options,), Err(words)) && error@
                                == AiMuxErrorView::InvalidArgument(words@),
                    }
                },
            },
    {
        broadcast use lemma_model;

        if self.protocol_version != 1 {
            return Err(AiMuxError::InvalidArgument("unsupported operation protocol version".to_owned()));
        }
        if self.options.get("repair_tool_call").is_some() {
            return Err(not_a_data_option("repair_tool_call"));
        }
        if self.options.get("repairToolCall").is_some() {
            return Err(not_a_data_option("repairToolCall"));
        }
        if self.options.get("abort_signal").is_some() {
            return Err(not_a_data_option("abort_signal"));
        }
        if self.options.is_null() {
            return Ok(GenerateTextOptions::default());
        }
        match decode(&self.options) {
            Ok(options) => Ok(options),
            Err(words) => {
                assert(call_ensures(*decode, (&self.options,), Err(words)));
                Err(AiMuxError::InvalidArgument(words))
            },
        }
    }
}

/// What a host is told of the call that it may repair.
pub struct RepairContext {
    pub tool_call: RawToolCall,
    pub error: AiMuxError,
    pub input_schema: Json,
    pub tools: Vec<Tool>,
    pub messages: Vec<ModelMessage>,
    pub instructions: Option<String>,
}

#[verifier::ext_equal]
pub struct HostContextView {
    pub tool_call: RawToolCallView,
    pub error: AiMuxErrorView,
    pub input_schema: JsonView,
    pub tools: Seq<ToolView>,
    pub messages: Seq<ModelMessageView>,
    pub instructions: Option<Seq<char>>,
}

impl View for RepairContext {
    type V = HostContextView;

    open spec fn view(&self) -> HostContextView {
        HostContextView {
            tool_call: self.tool_call@,
            error: self.error@,
            input_schema: self.input_schema@,
            tools: tools_view(self.tools@),
            messages: messages_view(self.messages@),
            instructions: text_view(self.instructions),
        }
    }
}

/// A callback's context as a host sees it: with the schema of the named tool.
pub open spec fn host_context(context: RepairContextView) -> HostContextView {
    HostContextView {
        tool_call: context.tool_call,
        error: context.error,
        input_schema: schema_of(context.tools, context.tool_call.tool_name),
        tools: context.tools,
        messages: context.messages,
        instructions: context.instructions,
    }
}

impl RepairContext {
    /// A callback's context as a host sees it.
    pub fn of(context: ToolCallRepairContext) -> (r: RepairContext)
        ensures
            r@ == host_context(context@),
    {
        let input_schema = context.input_schema(context.tool_call.tool_name.as_str());
        RepairContext {
            tool_call: context.tool_call,
            error: context.error,
            input_schema,
            tools: context.tools,
            messages: context.messages,
            instructions: context.instructions,
        }
    }

    /// The context on the wire.
    pub fn json(&self) -> (r: Json)
        ensures
            r@ == host_context_doc(self@),
    {
        json_object(
            JsonObject::new().with("tool_call", raw_call_json(&self.tool_call)).with(
                "error",
                error_json(&self.error),
            ).with("input_schema", self.input_schema.copy()).with("tools", tools_json(self.tools.as_slice())).with(
                "messages",
                messages_json(self.messages.as_slice()),
            ).with_some("instructions", json_text_option(&self.instructions)),
        )
    }
}

pub open spec fn host_context_doc(context: HostContextView) -> JsonView {
    let f = put(no_fields(), "tool_call"@, raw_call_doc(context.tool_call));
    let f = put(f, "error"@, error_doc(context.error));
    let f = put(f, "input_schema"@, context.input_schema);
    let f = put(f, "tools"@, tools_doc(context.tools));
    let f = put(f, "messages"@, messages_doc(context.messages));
    JsonView::Object(put_some(f, "instructions"@, text_doc(context.instructions)))
}

/// What an operation tells its host.
pub enum Event {
    RepairRequest { request_id: String, context: Box<RepairContext> },
    Part { part: Json },
    Result { result: Json },
}

#[verifier::ext_equal]
pub enum EventView {
    RepairRequest { request_id: Seq<char>, context: HostContextView },
    Part { part: JsonView },
    Result { result: JsonView },
}

impl View for Event {
    type V = EventView;

    open spec fn view(&self) -> EventView {
        match *self {
            Event::RepairRequest { request_id, context } => EventView::RepairRequest {
                request_id: request_id@,
                context: context@,
            },
            Event::Part { part } => EventView::Part { part: part@ },
            Event::Result { result } => EventView::Result { result: result@ },
        }
    }
}

pub open spec fn event_doc(event: EventView) -> JsonView {
    match event {
        EventView::RepairRequest { request_id, context } => {
            let f = put(no_fields(), "type"@, JsonView::String("repair_request"@));
            let f = put(f, "request_id"@, JsonView::String(request_id));
            JsonView::Object(put(f, "context"@, host_context_doc(context)))
        },
        EventView::Part { part } => JsonView::Object(
            put(put(no_fields(), "type"@, JsonView::String("part"@)), "part"@, part),
        ),
        EventView::Result { result } => JsonView::Object(
            put(put(no_fields(), "type"@, JsonView::String("result"@)), "result"@, result),
        ),
    }
}

impl Event {
    /// The event on the wire.
    pub fn json(&self) -> (r: Json)
        ensures
            r@ == event_doc(self@),
    {
        match self {
            Event::RepairRequest { request_id, context } => json_object(
                JsonObject::new().with("type", json_string("repair_request")).with(
                    "request_id",
                    json_string(request_id.as_str()),
                ).with("context", context.json()),
            ),
            Event::Part { part } => json_object(
                JsonObject::new().with("type", json_string("part")).with("part", part.copy()),
            ),
            Event::Result { result } => json_object(
                JsonObject::new().with("type", json_string("result")).with("result", result.copy()),
            ),
        }
    }
}

/// A host's answer to a repair request.
pub enum Reply {
    Repaired { tool_call: RawToolCall },
    Unchanged,
    Failed { message: String },
}

#[verifier::ext_equal]
pub enum ReplyView {
    Repaired { tool_call: RawToolCallView },
    Unchanged,
    Failed { message: Seq<char> },
}

impl View for Reply {
    type V = ReplyView;

    open spec fn view(&self) -> ReplyView {
        match *self {
            Reply::Repaired { tool_call } => ReplyView::Repaired { tool_call: tool_call@ },
            Reply::Unchanged => ReplyView::Unchanged,
            Reply::Failed { message } => ReplyView::Failed { message: message@ },
        }
    }
}

/// The answer that a callback would have given.
pub open spec fn core_answer(reply: ReplyView) -> Result<Option<RawToolCallView>, AiMuxErrorView> {
    match reply {
        ReplyView::Repaired { tool_call } => Ok(Some(tool_call)),
        ReplyView::Unchanged => Ok(None),
        ReplyView::Failed { message } => Err(AiMuxErrorView::Other(message)),
    }
}

/// The view of a callback's answer.
pub open spec fn callback_view(answer: Result<Option<RawToolCall>, AiMuxError>) -> Result<
    Option<RawToolCallView>,
    AiMuxErrorView,
> {
    match answer {
        Ok(Some(call)) => Ok(Some(call@)),
        Ok(None) => Ok(None),
        Err(error) => Err(error@),
    }
}

impl Reply {
    /// The answer that a callback would have given.
    pub fn into_core(self) -> (r: Result<Option<RawToolCall>, AiMuxError>)
        ensures
            callback_view(r) == core_answer(self@),
    {
        match self {
            Reply::Repaired { tool_call } => Ok(Some(tool_call)),
            Reply::Unchanged => Ok(None),
            Reply::Failed { message } => Err(AiMuxError::Other(message)),
        }
    }

}

/// Which events a host reads.
#[derive(Clone, Copy, PartialEq, Eq, Structural, Debug)]
pub enum Lane {
    Control,
    Output,
    Any,
    Terminal,
}

impl Lane {
    /// The number of a lane at the host boundary.
    pub open spec fn number(self) -> int {
        match self {
            Lane::Control => 0,
            Lane::Output => 1,
            Lane::Any => 2,
            Lane::Terminal => 3,
        }
    }

    /// The lane of a number.
    pub fn from_number(number: i32) -> (r: Option<Lane>)
        ensures
            match r {
                Some(lane) => lane.number() == number,
                None => !(0 <= number <= 3),
            },
    {
        if number == 0 {
            Some(Lane::Control)
        } else if number == 1 {
            Some(Lane::Output)
        } else if number == 2 {
            Some(Lane::Any)
        } else if number == 3 {
            Some(Lane::Terminal)
        } else {
            None
        }
    }
}

/// What became of a reply.
#[derive(Clone, Copy, PartialEq, Eq, Structural, Debug)]
pub enum ReplyStatus {
    Accepted,
    AlreadyReplied,
    UnknownRequest,
    OperationEnded,
}

impl ReplyStatus {
    /// The number of a status at the host boundary.
    pub fn number(self) -> (r: i32)
        ensures
            r == (match self {
                ReplyStatus::Accepted => 0int,
                ReplyStatus::AlreadyReplied => 1,
                ReplyStatus::UnknownRequest => 2,
                ReplyStatus::OperationEnded => 3,
            }),
    {
        match self {
            ReplyStatus::Accepted => 0,
            ReplyStatus::AlreadyReplied => 1,
            ReplyStatus::UnknownRequest => 2,
            ReplyStatus::OperationEnded => 3,
        }
    }
}

/// What a host reads next.
pub enum Next {
    Event(Event),
    Ended,
    ReaderBusy,
}

#[verifier::ext_equal]
pub enum NextView {
    Event(EventView),
    Ended,
    ReaderBusy,
}

impl View for Next {
    type V = NextView;

    open spec fn view(&self) -> NextView {
        match *self {
            Next::Event(event) => NextView::Event(event@),
            Next::Ended => NextView::Ended,
            Next::ReaderBusy => NextView::ReaderBusy,
        }
    }
}

} // verus!
