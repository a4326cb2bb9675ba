//! What a text generation comes to: the parts of a provider's answer, parsed
//! and collected.
use crate::error::{copy_json, json_view, AiMuxError, AiMuxErrorView};
use crate::json::{copy_items, documents, Json, JsonView};
use crate::json_text::{json_parse, parse_json, text_view};
use crate::message::{messages_view, ModelMessage, ModelMessageView};
use crate::parse_tool_call::{
    parse_tool_call, parses_to, raw_text, raw_tool_input, str_view, tool_slice_view, ToolCallRepair,
    ToolCallRepairContext,
};
use crate::response_messages::{
    assistant_messages, no_content, reasonings_view, thoughts, BuilderView, ResponseMessageBuilder,
};
use crate::result::{
    contents_view, FilePart, FilePartView, GenerateContent, GenerateContentView, GenerateResult,
    GenerateResultView, ReasoningPart, ReasoningPartView, SourcePart, SourcePartView,
};
use crate::stream_part::{item_view, StreamItem, StreamPart, StreamPartView};
use crate::stream_text::{files_view, join_reasoning, joined, sources_view};
use crate::text::{copy_text, join2};
use crate::tool::{calls_view, RawToolCall, RawToolCallView, Tool, ToolCall, ToolCallView};
use crate::types::{
    FinishReason, FinishReasonView, ResponseMetadata, ResponseMetadataView, Usage, UsageView,
};
use vstd::prelude::*;
use vstd::string::*;

verus! {

/// The result of a text generation.
pub struct GenerateTextResult {
    /// All text of the answer.
    pub text: String,
    pub tool_calls: Vec<ToolCall>,
    pub finish_reason: FinishReason,
    pub usage: Usage,
    pub warnings: Vec<Json>,
    /// The provider's answer.
    pub raw: GenerateResult,
    pub reasoning: Vec<ReasoningPart>,
    /// All reasoning text of the answer.
    pub reasoning_text: String,
    pub sources: Vec<SourcePart>,
    pub files: Vec<FilePart>,
    /// The messages to append for the next turn.
    pub response_messages: Vec<ModelMessage>,
    pub raw_finish_reason: Option<String>,
    pub provider_metadata: Option<Json>,
    pub response: ResponseMetadata,
    /// The usage of all steps; there is one.
    pub total_usage: Usage,
}

#[verifier::ext_equal]
pub struct TextResultView {
    pub text: Seq<char>,
    pub tool_calls: Seq<ToolCallView>,
    pub finish_reason: FinishReasonView,
    pub usage: UsageView,
    pub warnings: Seq<JsonView>,
    pub raw: GenerateResultView,
    pub reasoning: Seq<ReasoningPartView>,
    pub reasoning_text: Seq<char>,
    pub sources: Seq<SourcePartView>,
    pub files: Seq<FilePartView>,
    pub response_messages: Seq<ModelMessageView>,
    pub raw_finish_reason: Option<Seq<char>>,
    pub provider_metadata: Option<JsonView>,
    pub response: ResponseMetadataView,
    pub total_usage: UsageView,
}

impl View for GenerateTextResult {
    type V = TextResultView;

    open spec fn view(&self) -> TextResultView {
        TextResultView {
            text: self.text@,
            tool_calls: calls_view(self.tool_calls@),
            finish_reason: self.finish_reason@,
            usage: self.usage@,
            warnings: documents(self.warnings@),
            raw: self.raw@,
            reasoning: reasonings_view(self.reasoning@),
            reasoning_text: self.reasoning_text@,
            sources: sources_view(self.sources@),
            files: files_view(self.files@),
            response_messages: messages_view(self.response_messages@),
            raw_finish_reason: text_view(self.raw_finish_reason),
            provider_metadata: json_view(self.provider_metadata),
            response: self.response@,
            total_usage: self.total_usage@,
        }
    }
}

/// The tool calls of an answer, as the provider made them.
pub open spec fn calls_in(content: Seq<GenerateContentView>) -> Seq<RawToolCallView>
    decreases content.len(),
{
    if content.len() == 0 {
        seq![]
    } else {
        match content.last() {
            GenerateContentView::ToolCall(call) => calls_in(content.drop_last()).push(call),
            _ => calls_in(content.drop_last()),
        }
    }
}

/// What is collected from an answer.
#[verifier::ext_equal]
pub struct Collected {
    pub text: Seq<char>,
    pub sources: Seq<SourcePartView>,
    pub files: Seq<FilePartView>,
    pub messages: BuilderView,
}

/// What is collected from an answer whose calls were parsed to `calls`.
pub open spec fn collected(content: Seq<GenerateContentView>, calls: Seq<ToolCallView>) -> Collected
    decreases content.len(),
{
    if content.len() == 0 {
        Collected { text: seq![], sources: seq![], files: seq![], messages: no_content() }
    } else {
        let front = content.drop_last();
        let s = collected(front, calls);
        match content.last() {
            GenerateContentView::Text { text, provider_metadata } => Collected {
                text: s.text + text,
                messages: s.messages.text(text, provider_metadata),
                ..s
            },
            GenerateContentView::Reasoning { text, provider_metadata } => Collected {
                messages: s.messages.reasoning(text, provider_metadata),
                ..s
            },
            GenerateContentView::ToolCall(_) => Collected {
                messages: s.messages.tool_call(calls[calls_in(front).len() as int]),
                ..s
            },
            GenerateContentView::ToolResult(result) => Collected {
                messages: s.messages.tool_result(result),
                ..s
            },
            GenerateContentView::Source { source, .. } => Collected { sources: s.sources.push(source), ..s },
            GenerateContentView::File { file, .. } => Collected { files: s.files.push(file), ..s },
        }
    }
}

/// The result of a generation that was answered with `raw`, whose calls were
/// parsed to `calls`.
pub open spec fn result_of(raw: GenerateResultView, calls: Seq<ToolCallView>) -> TextResultView {
    let c = collected(raw.content, calls);
    TextResultView {
        text: c.text,
        tool_calls: calls,
        finish_reason: raw.finish_reason,
        usage: raw.usage,
        warnings: raw.warnings,
        raw,
        reasoning: thoughts(c.messages.parts),
        reasoning_text: joined(thoughts(c.messages.parts)),
        sources: c.sources,
        files: c.files,
        response_messages: assistant_messages(c.messages.parts),
        raw_finish_reason: raw.finish_reason.raw,
        provider_metadata: raw.provider_metadata,
        response: raw.response,
        total_usage: raw.usage,
    }
}

pub open spec fn raw_calls_view(list: Seq<RawToolCall>) -> Seq<RawToolCallView> {
    Seq::new(list.len(), |i: int| list[i]@)
}

/// The tool calls of an answer.
pub fn raw_tool_calls(result: &GenerateResult) -> (r: Vec<RawToolCall>)
    ensures
        raw_calls_view(r@) == calls_in(result@.content),
{
    let ghost all = contents_view(result.content@);
    let mut out: Vec<RawToolCall> = Vec::new();
    let mut i: usize = 0;
    assert(all.take(0) =~= seq![]);
    assert(raw_calls_view(out@) =~= calls_in(all.take(0)));
    while i < result.content.len()
        invariant
            i <= result.content.len(),
            all == contents_view(result.content@),
            raw_calls_view(out@) == calls_in(all.take(i as int)),
        decreases result.content.len() - i,
    {
        assert(all.take(i + 1).drop_last() =~= all.take(i as int));
        assert(all.take(i + 1).last() == result.content@[i as int]@);
        if let GenerateContent::ToolCall(call) = &result.content[i] {
            let ghost before = raw_calls_view(out@);
            out.push(call.copy());
            assert(raw_calls_view(out@) =~= before.push(call@));
        }
        i = i + 1;
    }
    assert(all.take(i as int) =~= all);
    out
}

proof fn lemma_calls_prefix(content: Seq<GenerateContentView>, n: int)
    requires
        0 <= n <= content.len(),
    ensures
        calls_in(content.take(n)).len() <= calls_in(content).len(),
    decreases content.len(),
{
    if n == content.len() {
        assert(content.take(n) =~= content);
    } else {
        lemma_calls_prefix(content.drop_last(), n);
        assert(content.drop_last().take(n) =~= content.take(n));
    }
}

/// The result of a generation, from the provider's answer and its parsed
/// calls.
pub fn text_result(result: GenerateResult, tool_calls: Vec<ToolCall>) -> (r: GenerateTextResult)
    requires
        tool_calls@.len() == calls_in(result@.content).len(),
    ensures
        r@ == result_of(result@, calls_view(tool_calls@)),
{
    let ghost all = contents_view(result.content@);
    let ghost calls = calls_view(tool_calls@);
    let mut text = "".to_owned();
    let mut sources: Vec<SourcePart> = Vec::new();
    let mut files: Vec<FilePart> = Vec::new();
    let mut messages = ResponseMessageBuilder::new();
    let mut used: usize = 0;
    let mut i: usize = 0;
    proof {
        reveal_strlit("");
        assert(all.take(0) =~= seq![]);
        assert(text@ =~= seq![]);
        assert(sources_view(sources@) =~= seq![]);
        assert(files_view(files@) =~= seq![]);
    }
    while i < result.content.len()
        invariant
            i <= result.content.len(),
            all == contents_view(result.content@),
            calls == calls_view(tool_calls@),
            tool_calls@.len() == calls_in(all).len(),
            used == calls_in(all.take(i as int)).len(),
            messages@.wf(),
            collected(all.take(i as int), calls) == (Collected {
                text: text@,
                sources: sources_view(sources@),
                files: files_view(files@),
                messages: messages@,
            }),
        decreases result.content.len() - i,
    {
        proof {
            assert(all.take(i + 1).drop_last() =~= all.take(i as int));
            assert(all.take(i + 1).last() == result.content@[i as int]@);
            lemma_calls_prefix(all, i + 1);
        }
        match &result.content[i] {
            GenerateContent::Text { text: said, provider_metadata } => {
                text.append(said.as_str());
                messages.text(said.as_str(), copy_json(provider_metadata));
            },
            GenerateContent::Reasoning { text: thought, provider_metadata } => {
                messages.reasoning(thought.as_str(), copy_json(provider_metadata));
            },
            GenerateContent::ToolCall(_) => {
                assert(used < tool_calls.len());
                messages.tool_call(&tool_calls[used]);
                used = used + 1;
            },
            GenerateContent::ToolResult(part) => {
                messages.tool_result(part);
            },
            GenerateContent::Source { source, .. } => {
                let ghost before = sources_view(sources@);
                sources.push(source.copy());
                assert(sources_view(sources@) =~= before.push(source@));
            },
            GenerateContent::File { file, .. } => {
                let ghost before = files_view(files@);
                files.push(file.copy());
                assert(files_view(files@) =~= before.push(file@));
            },
        }
        i = i + 1;
    }
    assert(all.take(i as int) =~= all);
    let left = messages.finish();
    GenerateTextResult {
        text,
        tool_calls,
        finish_reason: result.finish_reason.copy(),
        usage: result.usage.copy(),
        warnings: copy_items(&result.warnings),
        reasoning_text: join_reasoning(&left.reasoning),
        reasoning: left.reasoning,
        sources,
        files,
        response_messages: left.messages,
        raw_finish_reason: copy_text(&result.finish_reason.raw),
        provider_metadata: copy_json(&result.provider_metadata),
        response: result.response.copy(),
        total_usage: result.usage.copy(),
        raw: result,
    }
}

/// Parse the calls of a provider's answer and collect its parts. Every call is
/// parsed, in order, with at most one answer of the callback each.
pub fn generate_text_result<F: Fn(ToolCallRepairContext) -> Result<Option<RawToolCall>, AiMuxError>>(
    result: GenerateResult,
    tools: Option<&[Tool]>,
    repair_tool_call: Option<&ToolCallRepair<F>>,
    messages: &[ModelMessage],
    instructions: Option<&str>,
) -> (r: GenerateTextResult)
    requires
        repair_tool_call matches Some(repair) ==> forall|context: ToolCallRepairContext|
            #[trigger] call_requires(repair.function(), (context,)),
    ensures
        r@ == result_of(result@, r@.tool_calls),
        r@.tool_calls.len() == calls_in(result@.content).len(),
        forall|i: int|
            0 <= i < r@.tool_calls.len() ==> parses_to(
                calls_in(result@.content)[i],
                tool_slice_view(tools),
                repair_tool_call,
                messages_view(messages@),
                str_view(instructions),
                #[trigger] r@.tool_calls[i],
            ),
{
    let raws = raw_tool_calls(&result);
    let mut calls: Vec<ToolCall> = Vec::new();
    let mut i: usize = 0;
    while i < raws.len()
        invariant
            i <= raws.len(),
            calls@.len() == i,
            repair_tool_call matches Some(repair) ==> forall|context: ToolCallRepairContext|
                #[trigger] call_requires(repair.function(), (context,)),
            forall|k: int|
                0 <= k < i ==> parses_to(
                    raws@[k]@,
                    tool_slice_view(tools),
                    repair_tool_call,
                    messages_view(messages@),
                    str_view(instructions),
                    (#[trigger] calls@[k])@,
                ),
        decreases raws.len() - i,
    {
        let call = parse_tool_call(raws[i].copy(), tools, repair_tool_call, messages, instructions);
        calls.push(call);
        i = i + 1;
    }
    let ghost parsed = calls@;
    let ghost answer = result@;
    let r = text_result(result, calls);
    proof {
        assert(r@.tool_calls == calls_view(parsed));
        assert forall|k: int| 0 <= k < r@.tool_calls.len() implies parses_to(
            calls_in(answer.content)[k],
            tool_slice_view(tools),
            repair_tool_call,
            messages_view(messages@),
            str_view(instructions),
            #[trigger] r@.tool_calls[k],
        ) by {
            assert(parsed[k]@ == r@.tool_calls[k]);
            assert(raw_calls_view(raws@)[k] == raws@[k]@);
        }
    }
    r
}

// Streamed calls.

/// The provider's call behind a streamed one: its input is the text that
/// arrived.
pub open spec fn raw_of(call: ToolCallView) -> RawToolCallView {
    RawToolCallView {
        tool_call_id: call.tool_call_id,
        tool_name: call.tool_name,
        input: raw_text(call.input),
        provider_executed: call.provider_executed,
        dynamic: call.dynamic,
        thought_signature: call.thought_signature,
        provider_metadata: call.provider_metadata,
    }
}

/// The provider's call behind a streamed one.
pub fn raw_streamed_call(call: &ToolCall) -> (r: RawToolCall)
    ensures
        r@ == raw_of(call@),
{
    RawToolCall {
        tool_call_id: call.tool_call_id.clone(),
        tool_name: call.tool_name.clone(),
        input: raw_tool_input(&call.input),
        provider_executed: call.provider_executed,
        dynamic: call.dynamic,
        thought_signature: copy_text(&call.thought_signature),
        provider_metadata: copy_json(&call.provider_metadata),
    }
}

/// One item of the stream that a user gets: a tool call is parsed, everything
/// else passes.
pub fn parse_streamed_item<F: Fn(ToolCallRepairContext) -> Result<Option<RawToolCall>, AiMuxError>>(
    item: StreamItem,
    tools: Option<&[Tool]>,
    repair_tool_call: Option<&ToolCallRepair<F>>,
    messages: &[ModelMessage],
    instructions: Option<&str>,
) -> (r: StreamItem)
    requires
        repair_tool_call matches Some(repair) ==> forall|context: ToolCallRepairContext|
            #[trigger] call_requires(repair.function(), (context,)),
    ensures
        match item_view(item) {
            Ok(StreamPartView::ToolCall(call)) => {
                &&& item_view(r) matches Ok(StreamPartView::ToolCall(parsed))
                &&& parses_to(
                    raw_of(call),
                    tool_slice_view(tools),
                    repair_tool_call,
                    messages_view(messages@),
                    str_view(instructions),
                    parsed,
                )
            },
            other => item_view(r) == other,
        },
{
    match item {
        Ok(StreamPart::ToolCall(call)) => Ok(
            StreamPart::ToolCall(
                parse_tool_call(raw_streamed_call(&call), tools, repair_tool_call, messages, instructions),
            ),
        ),
        other => other,
    }
}

// Objects.

/// The result of an object generation.
pub struct GenerateObjectResult {
    pub object: Json,
    pub finish_reason: FinishReason,
    pub raw_finish_reason: Option<String>,
    pub usage: Usage,
    pub warnings: Vec<Json>,
    /// All reasoning text, where there is some.
    pub reasoning: Option<String>,
    pub provider_metadata: Option<Json>,
    pub response: ResponseMetadata,
    pub raw: GenerateTextResult,
}

#[verifier::ext_equal]
pub struct ObjectResultView {
    pub object: JsonView,
    pub finish_reason: FinishReasonView,
    pub raw_finish_reason: Option<Seq<char>>,
    pub usage: UsageView,
    pub warnings: Seq<JsonView>,
    pub reasoning: Option<Seq<char>>,
    pub provider_metadata: Option<JsonView>,
    pub response: ResponseMetadataView,
    pub raw: TextResultView,
}

impl View for GenerateObjectResult {
    type V = ObjectResultView;

    open spec fn view(&self) -> ObjectResultView {
        ObjectResultView {
            object: self.object@,
            finish_reason: self.finish_reason@,
            raw_finish_reason: text_view(self.raw_finish_reason),
            usage: self.usage@,
            warnings: documents(self.warnings@),
            reasoning: text_view(self.reasoning),
            provider_metadata: json_view(self.provider_metadata),
            response: self.response@,
            raw: self.raw@,
        }
    }
}

/// The result of an object generation whose text parsed to this.
pub open spec fn object_of(raw: TextResultView, parsed: Result<JsonView, Seq<char>>) -> Result<
    ObjectResultView,
    AiMuxErrorView,
> {
    match parsed {
        Err(words) => Err(
            AiMuxErrorView::JsonParse(
                "generateObject: model output is not valid JSON after repair: "@ + words,
            ),
        ),
        Ok(object) => Ok(
            ObjectResultView {
                object,
                finish_reason: raw.finish_reason,
                raw_finish_reason: raw.raw_finish_reason,
                usage: raw.usage,
                warnings: raw.warnings,
                reasoning: if raw.reasoning_text.len() == 0 {
                    None
                } else {
                    Some(raw.reasoning_text)
                },
                provider_metadata: raw.raw.provider_metadata,
                response: raw.raw.response,
                raw,
            },
        ),
    }
}

/// The result of an object generation, from its text result and what its text
/// parsed to.
pub fn object_from_parsed(result: GenerateTextResult, parsed: Result<Json, String>) -> (r: Result<
    GenerateObjectResult,
    AiMuxError,
>)
    ensures
        object_of(
            result@,
            match parsed {
                Ok(object) => Ok(object@),
                Err(words) => Err(words@),
            },
        ) == (match r {
            Ok(object) => Ok(object@),
            Err(error) => Err(error@),
        }),
{
    match parsed {
        Err(words) => Err(
            AiMuxError::JsonParse(
                join2("generateObject: model output is not valid JSON after repair: ", words.as_str()),
            ),
        ),
        Ok(object) => Ok(
            GenerateObjectResult {
                object,
                finish_reason: result.finish_reason.copy(),
                raw_finish_reason: copy_text(&result.raw_finish_reason),
                usage: result.usage.copy(),
                warnings: copy_items(&result.warnings),
                reasoning: if result.reasoning_text.as_str().unicode_len() == 0 {
                    None
                } else {
                    Some(result.reasoning_text.clone())
                },
                provider_metadata: copy_json(&result.raw.provider_metadata),
                response: result.raw.response.copy(),
                raw: result,
            },
        ),
    }
}

/// The result of an object generation, from its text result and the repaired
/// text.
pub fn object_result(result: GenerateTextResult, repaired: &str) -> (r: Result<
    GenerateObjectResult,
    AiMuxError,
>)
    ensures
        object_of(result@, json_parse(repaired@)) == (match r {
            Ok(object) => Ok(object@),
            Err(error) => Err(error@),
        }),
{
    object_from_parsed(result, parse_json(repaired))
}

} // verus!
