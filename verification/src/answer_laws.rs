//! What a generated answer and a streamed one amount to, said of the parts
//! that came in and the result that comes out.
use crate::error::AiMuxErrorView;
use crate::generate::{calls_in, collected, result_of};
use crate::json::JsonView;
use crate::message::{ContentPartView, ModelMessageView, Role};
use crate::response_messages::{assistant_messages, extended, replay_input, spoken, thoughts, BuilderView};
use crate::result::{
    FilePartView, GenerateContentView, GenerateResultView, ReasoningPartView, SourcePartView, ToolResultPartView,
};
use crate::stream_laws::brought;
use crate::stream_part::{StreamItemView, StreamPartView};
use crate::stream_text::{
    aggregated, is_output, is_terminal, joined, read_items, said, AggregateView, AggregatedView, Reading,
};
use crate::tool::{RawToolCallView, ToolCallView};
use crate::types::{FinishReasonUnified, ResponseMetadataView};
use vstd::prelude::*;

verus! {

// What the content of a message tells.

/// The texts among content, in order.
pub open spec fn texts_among(content: Seq<ContentPartView>) -> Seq<Seq<char>> {
    content.filter_map(
        |part: ContentPartView|
            match part {
                ContentPartView::Text { text, .. } => Some(text),
                _ => None,
            },
    )
}

/// The reasoning among content, in order.
pub open spec fn reasoning_among(content: Seq<ContentPartView>) -> Seq<ReasoningPartView> {
    content.filter_map(
        |part: ContentPartView|
            match part {
                ContentPartView::Reasoning { text, provider_options } => Some(
                    ReasoningPartView { text, provider_metadata: provider_options },
                ),
                _ => None,
            },
    )
}

/// The texts of reasoning segments, in order.
pub open spec fn reasoning_texts(content: Seq<ContentPartView>) -> Seq<Seq<char>> {
    content.filter_map(
        |part: ContentPartView|
            match part {
                ContentPartView::Reasoning { text, .. } => Some(text),
                _ => None,
            },
    )
}

/// The tool calls and tool results among content, in order.
pub open spec fn tooling_among(content: Seq<ContentPartView>) -> Seq<ContentPartView> {
    content.filter(|part: ContentPartView| part is ToolCall || part is ToolResult)
}

/// What a message tells of a tool call: all of it but its error, with the
/// malformed primitive input of an invalid call replaced by an empty object.
pub open spec fn retold_call(call: ToolCallView) -> ContentPartView {
    ContentPartView::ToolCall {
        tool_call_id: call.tool_call_id,
        tool_name: call.tool_name,
        input: match (call.invalid, call.input) {
            (Some(true), JsonView::Null) => JsonView::Object(seq![]),
            (Some(true), JsonView::Bool(_)) => JsonView::Object(seq![]),
            (Some(true), JsonView::Number(_)) => JsonView::Object(seq![]),
            (Some(true), JsonView::String(_)) => JsonView::Object(seq![]),
            (_, input) => input,
        },
        provider_executed: call.provider_executed,
        thought_signature: call.thought_signature,
        provider_options: call.provider_metadata,
    }
}

/// What a message tells of a tool result: a preliminary one is not told.
pub open spec fn retold_result(result: ToolResultPartView) -> Option<ContentPartView> {
    if result.preliminary == Some(true) {
        None
    } else {
        Some(
            ContentPartView::ToolResult {
                tool_call_id: result.tool_call_id,
                tool_name: result.tool_name,
                output: result.result,
                is_error: result.is_error,
                provider_options: result.provider_metadata,
            },
        )
    }
}

/// The content that an answer leaves for the next turn: that of its one
/// message, or none.
pub open spec fn content_left(messages: Seq<ModelMessageView>) -> Seq<ContentPartView> {
    if messages.len() == 0 {
        seq![]
    } else {
        messages[0].content->Parts_0
    }
}

/// Whether messages are what an answer may leave: one assistant message whose
/// content says something in every text, or none.
pub open spec fn leaves_one_message(messages: Seq<ModelMessageView>) -> bool {
    &&& messages.len() <= 1
    &&& messages.len() == 1 ==> {
        &&& messages[0].role == Role::Assistant
        &&& messages[0].content is Parts
        &&& content_left(messages).len() > 0
        &&& forall|i: int|
            0 <= i < content_left(messages).len() ==> (#[trigger] content_left(messages)[i]
                matches ContentPartView::Text { text, .. } ==> text.len() > 0)
    }
}

proof fn lemma_content_push(content: Seq<ContentPartView>, part: ContentPartView)
    ensures
        texts_among(content.push(part)) == (match part {
            ContentPartView::Text { text, .. } => texts_among(content).push(text),
            _ => texts_among(content),
        }),
        texts_among(content.push(part)).flatten() == (match part {
            ContentPartView::Text { text, .. } => texts_among(content).flatten() + text,
            _ => texts_among(content).flatten(),
        }),
        reasoning_among(content.push(part)) == (match part {
            ContentPartView::Reasoning { text, provider_options } => reasoning_among(content).push(
                ReasoningPartView { text, provider_metadata: provider_options },
            ),
            _ => reasoning_among(content),
        }),
        reasoning_texts(content.push(part)).flatten() == (match part {
            ContentPartView::Reasoning { text, .. } => reasoning_texts(content).flatten() + text,
            _ => reasoning_texts(content).flatten(),
        }),
        tooling_among(content.push(part)) == (if part is ToolCall || part is ToolResult {
            tooling_among(content).push(part)
        } else {
            tooling_among(content)
        }),
{
    broadcast use Seq::lemma_flatten_push;

    reveal(Seq::filter);
    assert(content.push(part).drop_last() =~= content);
    if let ContentPartView::Text { text, .. } = part {
        assert(texts_among(content.push(part)) =~= texts_among(content).push(text));
    }
    if let ContentPartView::Reasoning { text, provider_options } = part {
        assert(reasoning_texts(content.push(part)) =~= reasoning_texts(content).push(text));
        assert(reasoning_among(content.push(part)) =~= reasoning_among(content).push(
            ReasoningPartView { text, provider_metadata: provider_options },
        ));
    }
}

proof fn lemma_no_content()
    ensures
        texts_among(seq![]).flatten() == Seq::<char>::empty(),
        reasoning_texts(seq![]).flatten() == Seq::<char>::empty(),
        reasoning_among(seq![]) == Seq::<ReasoningPartView>::empty(),
        tooling_among(seq![]) == Seq::<ContentPartView>::empty(),
{
    reveal(Seq::filter);
    assert(texts_among(seq![]) =~= seq![]);
    assert(reasoning_texts(seq![]) =~= seq![]);
}

/// Empty texts are left out of a message; nothing else is.
proof fn lemma_spoken(content: Seq<ContentPartView>)
    ensures
        texts_among(spoken(content)).flatten() == texts_among(content).flatten(),
        reasoning_among(spoken(content)) == reasoning_among(content),
        tooling_among(spoken(content)) == tooling_among(content),
        forall|i: int|
            0 <= i < spoken(content).len() ==> (#[trigger] spoken(content)[i] matches ContentPartView::Text {
                text,
                ..
            } ==> text.len() > 0),
    decreases content.len(),
{
    if content.len() > 0 {
        let front = content.drop_last();
        lemma_spoken(front);
        assert(front.push(content.last()) =~= content);
        lemma_content_push(front, content.last());
        lemma_content_push(spoken(front), content.last());
        if let ContentPartView::Text { text, .. } = content.last() {
            if text.len() == 0 {
                assert(texts_among(front).flatten() + text =~= texts_among(front).flatten());
            }
        }
    }
}

pub proof fn lemma_thoughts(content: Seq<ContentPartView>)
    ensures
        thoughts(content) == reasoning_among(content),
        joined(thoughts(content)) == reasoning_texts(content).flatten(),
    decreases content.len(),
{
    lemma_no_content();
    if content.len() > 0 {
        let front = content.drop_last();
        lemma_thoughts(front);
        assert(front.push(content.last()) =~= content);
        lemma_content_push(front, content.last());
        if let ContentPartView::Reasoning { text, provider_options } = content.last() {
            let part = ReasoningPartView { text, provider_metadata: provider_options };
            assert(thoughts(front).push(part).drop_last() =~= thoughts(front));
        }
    } else {
        assert(content =~= seq![]);
    }
}

proof fn lemma_left(content: Seq<ContentPartView>)
    ensures
        leaves_one_message(assistant_messages(content)),
        texts_among(content_left(assistant_messages(content))).flatten() == texts_among(content).flatten(),
        reasoning_among(content_left(assistant_messages(content))) == reasoning_among(content),
        tooling_among(content_left(assistant_messages(content))) == tooling_among(content),
        content_left(assistant_messages(content)) == spoken(content),
{
    lemma_spoken(content);
    if spoken(content).len() == 0 {
        assert(spoken(content) =~= seq![]);
    }
}

// Generated answers.

/// The texts of an answer's text pieces, in order.
pub open spec fn texts_answered(content: Seq<GenerateContentView>) -> Seq<Seq<char>> {
    content.filter_map(
        |piece: GenerateContentView|
            match piece {
                GenerateContentView::Text { text, .. } => Some(text),
                _ => None,
            },
    )
}

/// The reasoning pieces of an answer, in order.
pub open spec fn reasoning_answered(content: Seq<GenerateContentView>) -> Seq<ReasoningPartView> {
    content.filter_map(
        |piece: GenerateContentView|
            match piece {
                GenerateContentView::Reasoning { text, provider_metadata } => Some(
                    ReasoningPartView { text, provider_metadata },
                ),
                _ => None,
            },
    )
}

/// The texts of an answer's reasoning pieces, in order.
pub open spec fn reasoning_texts_answered(content: Seq<GenerateContentView>) -> Seq<Seq<char>> {
    content.filter_map(
        |piece: GenerateContentView|
            match piece {
                GenerateContentView::Reasoning { text, .. } => Some(text),
                _ => None,
            },
    )
}

/// The provider's calls in an answer, in order.
pub open spec fn calls_answered(content: Seq<GenerateContentView>) -> Seq<RawToolCallView> {
    content.filter_map(
        |piece: GenerateContentView|
            match piece {
                GenerateContentView::ToolCall(call) => Some(call),
                _ => None,
            },
    )
}

pub open spec fn sources_answered(content: Seq<GenerateContentView>) -> Seq<SourcePartView> {
    content.filter_map(
        |piece: GenerateContentView|
            match piece {
                GenerateContentView::Source { source, .. } => Some(source),
                _ => None,
            },
    )
}

pub open spec fn files_answered(content: Seq<GenerateContentView>) -> Seq<FilePartView> {
    content.filter_map(
        |piece: GenerateContentView|
            match piece {
                GenerateContentView::File { file, .. } => Some(file),
                _ => None,
            },
    )
}

/// What an answer leaves for the next turn, piece by piece, `calls` being what
/// its calls were parsed to.
pub open spec fn retold(content: Seq<GenerateContentView>, calls: Seq<ToolCallView>) -> Seq<ContentPartView>
    decreases content.len(),
{
    if content.len() == 0 {
        seq![]
    } else {
        let front = content.drop_last();
        let before = retold(front, calls);
        match content.last() {
            GenerateContentView::Text { text, provider_metadata } => if text.len() == 0 {
                before
            } else {
                before.push(ContentPartView::Text { text, provider_options: provider_metadata })
            },
            GenerateContentView::Reasoning { text, provider_metadata } => before.push(
                ContentPartView::Reasoning { text, provider_options: provider_metadata },
            ),
            GenerateContentView::ToolCall(_) => before.push(retold_call(calls[calls_answered(front).len() as int])),
            GenerateContentView::ToolResult(result) => match retold_result(result) {
                Some(part) => before.push(part),
                None => before,
            },
            _ => before,
        }
    }
}

proof fn lemma_retold_call(call: ToolCallView)
    ensures
        (ContentPartView::ToolCall {
            tool_call_id: call.tool_call_id,
            tool_name: call.tool_name,
            input: replay_input(call.input, call.invalid),
            provider_executed: call.provider_executed,
            thought_signature: call.thought_signature,
            provider_options: call.provider_metadata,
        }) == retold_call(call),
{
    assert(crate::wire::no_fields() =~= seq![]);
}

proof fn lemma_collected(content: Seq<GenerateContentView>, calls: Seq<ToolCallView>)
    ensures
        calls_in(content) == calls_answered(content),
        ({
            let c = collected(content, calls);
            &&& c.text == texts_answered(content).flatten()
            &&& c.sources == sources_answered(content)
            &&& c.files == files_answered(content)
            &&& thoughts(c.messages.parts) == reasoning_answered(content)
            &&& joined(thoughts(c.messages.parts)) == reasoning_texts_answered(content).flatten()
            &&& spoken(c.messages.parts) == retold(content, calls)
        }),
    decreases content.len(),
{
    broadcast use Seq::lemma_flatten_push;

    lemma_no_content();
    if content.len() > 0 {
        let front = content.drop_last();
        let piece = content.last();
        lemma_collected(front, calls);
        let s = collected(front, calls);
        let before = s.messages.parts;
        let after = collected(content, calls).messages.parts;
        if let GenerateContentView::Text { text, .. } = piece {
            assert(texts_answered(content) =~= texts_answered(front).push(text));
        }
        if let GenerateContentView::Reasoning { text, provider_metadata } = piece {
            assert(reasoning_texts_answered(content) =~= reasoning_texts_answered(front).push(text));
            let part = ReasoningPartView { text, provider_metadata };
            assert(reasoning_answered(content) =~= reasoning_answered(front).push(part));
            assert(thoughts(before).push(part).drop_last() =~= thoughts(before));
        }
        if let GenerateContentView::ToolCall(call) = piece {
            assert(calls_answered(content) =~= calls_answered(front).push(call));
            lemma_retold_call(calls[calls_answered(front).len() as int]);
        }
        if let GenerateContentView::Source { source, .. } = piece {
            assert(sources_answered(content) =~= sources_answered(front).push(source));
        }
        if let GenerateContentView::File { file, .. } = piece {
            assert(files_answered(content) =~= files_answered(front).push(file));
        }
        if after != before {
            assert(after.drop_last() =~= before);
        }
    } else {
        assert(texts_answered(content) =~= seq![]);
        assert(reasoning_texts_answered(content) =~= seq![]);
        assert(calls_answered(content) =~= seq![]);
        assert(sources_answered(content) =~= seq![]);
        assert(files_answered(content) =~= seq![]);
        assert(reasoning_answered(content) =~= seq![]);
    }
}

/// The text of a generation is its text pieces, joined in order; no piece of
/// another kind adds to it.
pub proof fn law_the_text_is_the_text_pieces(raw: GenerateResultView, calls: Seq<ToolCallView>)
    ensures
        result_of(raw, calls).text == texts_answered(raw.content).flatten(),
{
    lemma_collected(raw.content, calls);
}

/// The reasoning of a generation is its reasoning pieces, one by one with
/// their metadata, and as one text joined in order.
pub proof fn law_the_reasoning_is_the_reasoning_pieces(raw: GenerateResultView, calls: Seq<ToolCallView>)
    ensures
        result_of(raw, calls).reasoning == reasoning_answered(raw.content),
        result_of(raw, calls).reasoning_text == reasoning_texts_answered(raw.content).flatten(),
{
    lemma_collected(raw.content, calls);
}

/// Sources and files are collected in order, each from its own pieces; the
/// calls to be parsed are the provider's, in order.
pub proof fn law_pieces_are_collected_by_kind(raw: GenerateResultView, calls: Seq<ToolCallView>)
    ensures
        result_of(raw, calls).sources == sources_answered(raw.content),
        result_of(raw, calls).files == files_answered(raw.content),
        calls_in(raw.content) == calls_answered(raw.content),
        result_of(raw, calls).tool_calls == calls,
{
    lemma_collected(raw.content, calls);
}

/// What a generation reports beside its content is what the provider reported;
/// there is one step, so its usage is the total.
pub proof fn law_a_generation_reports_what_the_provider_did(raw: GenerateResultView, calls: Seq<ToolCallView>)
    ensures
        ({
            let r = result_of(raw, calls);
            &&& r.raw == raw
            &&& r.finish_reason == raw.finish_reason
            &&& r.raw_finish_reason == raw.finish_reason.raw
            &&& r.usage == raw.usage
            &&& r.total_usage == raw.usage
            &&& r.warnings == raw.warnings
            &&& r.provider_metadata == raw.provider_metadata
            &&& r.response == raw.response
        }),
{
}

/// What a generation leaves for the next turn retells its answer piece by
/// piece, in order: texts that say something, reasoning, the parsed calls and
/// the final tool results, and nothing of sources and files.
pub proof fn law_a_generation_is_retold_in_order(raw: GenerateResultView, calls: Seq<ToolCallView>)
    ensures
        ({
            let messages = result_of(raw, calls).response_messages;
            &&& leaves_one_message(messages)
            &&& content_left(messages) == retold(raw.content, calls)
        }),
{
    lemma_collected(raw.content, calls);
    lemma_left(collected(raw.content, calls).messages.parts);
}

// Streams.

/// The deltas of a stream's text, in order.
pub open spec fn text_deltas(parts: Seq<StreamPartView>) -> Seq<Seq<char>> {
    parts.filter_map(
        |part: StreamPartView|
            match part {
                StreamPartView::TextDelta { delta, .. } => Some(delta),
                _ => None,
            },
    )
}

/// The deltas of a stream's reasoning, in order.
pub open spec fn reasoning_deltas(parts: Seq<StreamPartView>) -> Seq<Seq<char>> {
    parts.filter_map(
        |part: StreamPartView|
            match part {
                StreamPartView::ReasoningDelta { delta, .. } => Some(delta),
                _ => None,
            },
    )
}

pub open spec fn calls_streamed(parts: Seq<StreamPartView>) -> Seq<ToolCallView> {
    parts.filter_map(
        |part: StreamPartView|
            match part {
                StreamPartView::ToolCall(call) => Some(call),
                _ => None,
            },
    )
}

pub open spec fn sources_streamed(parts: Seq<StreamPartView>) -> Seq<SourcePartView> {
    parts.filter_map(
        |part: StreamPartView|
            match part {
                StreamPartView::Source { source, .. } => Some(source),
                _ => None,
            },
    )
}

pub open spec fn files_streamed(parts: Seq<StreamPartView>) -> Seq<FilePartView> {
    parts.filter_map(
        |part: StreamPartView|
            match part {
                StreamPartView::File { file, .. } => Some(file),
                _ => None,
            },
    )
}

/// The warnings that a stream started with, each time that it did.
pub open spec fn warnings_streamed(parts: Seq<StreamPartView>) -> Seq<Seq<JsonView>> {
    parts.filter_map(
        |part: StreamPartView|
            match part {
                StreamPartView::StreamStart { warnings } => Some(warnings),
                _ => None,
            },
    )
}

/// The responses that a stream announced.
pub open spec fn responses_streamed(parts: Seq<StreamPartView>) -> Seq<ResponseMetadataView> {
    parts.filter_map(
        |part: StreamPartView|
            match part {
                StreamPartView::ResponseMetadata(response) => Some(response),
                _ => None,
            },
    )
}

/// The tool calls and final tool results of a stream, as the next turn is told
/// of them, in order.
pub open spec fn tooling_streamed(parts: Seq<StreamPartView>) -> Seq<ContentPartView> {
    parts.filter_map(
        |part: StreamPartView|
            match part {
                StreamPartView::ToolCall(call) => Some(retold_call(call)),
                StreamPartView::ToolResult(result) => retold_result(result),
                _ => None,
            },
    )
}

/// Whether a part brings something that the model made: words of text,
/// reasoning or tool input, a call, a file.
pub open spec fn brings_output(part: StreamPartView) -> bool {
    ||| part matches StreamPartView::TextDelta { delta, .. } && delta.len() > 0
    ||| part matches StreamPartView::ReasoningDelta { delta, .. } && delta.len() > 0
    ||| part matches StreamPartView::ToolInputDelta { delta, .. } && delta.len() > 0
    ||| part is ToolCall
    ||| part is File
}

/// Only what the model made is output.
pub proof fn law_output_is_what_the_model_made(part: StreamPartView)
    ensures
        is_output(part) <==> brings_output(part),
{
}

/// A stream ends with its finish, and with any failure but a malformed frame.
pub proof fn law_what_ends_a_stream(part: StreamPartView, error: AiMuxErrorView)
    ensures
        is_terminal(Ok(part)) <==> part is Finish,
        is_terminal(Err(error)) <==> !(error is JsonParse),
{
}

/// Whether the open segments of content are the last of their kind.
spec fn open_last(b: BuilderView) -> bool {
    &&& b.text_at matches Some(i) ==> {
        &&& 0 <= i < b.parts.len()
        &&& b.parts[i as int] is Text
        &&& forall|k: int| i < k < b.parts.len() ==> !(#[trigger] b.parts[k] is Text)
    }
    &&& b.reasoning_at matches Some(i) ==> {
        &&& 0 <= i < b.parts.len()
        &&& b.parts[i as int] is Reasoning
        &&& forall|k: int| i < k < b.parts.len() ==> !(#[trigger] b.parts[k] is Reasoning)
    }
}

proof fn lemma_text_extended(content: Seq<ContentPartView>, i: int, delta: Seq<char>, metadata: Option<JsonView>)
    requires
        0 <= i < content.len(),
        content[i] is Text,
        forall|k: int| i < k < content.len() ==> !(#[trigger] content[k] is Text),
    ensures
        ({
            let after = content.update(i, extended(content[i], delta, metadata));
            &&& texts_among(after).flatten() == texts_among(content).flatten() + delta
            &&& reasoning_among(after) == reasoning_among(content)
            &&& reasoning_texts(after).flatten() == reasoning_texts(content).flatten()
            &&& tooling_among(after) == tooling_among(content)
        }),
    decreases content.len(),
{
    let front = content.drop_last();
    let part = extended(content[i], delta, metadata);
    let after = content.update(i, part);
    assert(front.push(content.last()) =~= content);
    lemma_content_push(front, content.last());
    if i == content.len() - 1 {
        assert(after =~= front.push(part));
        lemma_content_push(front, part);
        let text = content[i]->Text_text;
        assert(texts_among(front).flatten() + (text + delta) =~= texts_among(front).flatten() + text + delta);
    } else {
        assert(after =~= front.update(i, part).push(content.last()));
        lemma_text_extended(front, i, delta, metadata);
        lemma_content_push(front.update(i, part), content.last());
        assert(!(content[content.len() - 1] is Text));
    }
}

proof fn lemma_reasoning_extended(
    content: Seq<ContentPartView>,
    i: int,
    delta: Seq<char>,
    metadata: Option<JsonView>,
)
    requires
        0 <= i < content.len(),
        content[i] is Reasoning,
        forall|k: int| i < k < content.len() ==> !(#[trigger] content[k] is Reasoning),
    ensures
        ({
            let after = content.update(i, extended(content[i], delta, metadata));
            &&& reasoning_texts(after).flatten() == reasoning_texts(content).flatten() + delta
            &&& texts_among(after).flatten() == texts_among(content).flatten()
            &&& tooling_among(after) == tooling_among(content)
        }),
    decreases content.len(),
{
    let front = content.drop_last();
    let part = extended(content[i], delta, metadata);
    let after = content.update(i, part);
    assert(front.push(content.last()) =~= content);
    lemma_content_push(front, content.last());
    if i == content.len() - 1 {
        assert(after =~= front.push(part));
        lemma_content_push(front, part);
        let text = content[i]->Reasoning_text;
        assert(reasoning_texts(front).flatten() + (text + delta) =~= reasoning_texts(front).flatten() + text
            + delta);
    } else {
        assert(after =~= front.update(i, part).push(content.last()));
        lemma_reasoning_extended(front, i, delta, metadata);
        lemma_content_push(front.update(i, part), content.last());
        assert(!(content[content.len() - 1] is Reasoning));
    }
}

/// What reading keeps of the parts it has read.
spec fn tells(s: AggregateView, parts: Seq<StreamPartView>) -> bool {
    &&& s.text == text_deltas(parts).flatten()
    &&& s.tool_calls == calls_streamed(parts)
    &&& s.sources == sources_streamed(parts)
    &&& s.files == files_streamed(parts)
    &&& s.warnings == (if warnings_streamed(parts).len() > 0 {
        warnings_streamed(parts).last()
    } else {
        seq![]
    })
    &&& s.response == (if responses_streamed(parts).len() > 0 {
        Some(responses_streamed(parts).last())
    } else {
        None
    })
    &&& s.saw_output == (exists|i: int| 0 <= i < parts.len() && brings_output(#[trigger] parts[i]))
}

/// What the messages under way keep of the parts that were read.
spec fn retells(b: BuilderView, parts: Seq<StreamPartView>) -> bool {
    &&& b.parts.len() <= parts.len()
    &&& open_last(b)
    &&& texts_among(b.parts).flatten() == text_deltas(parts).flatten()
    &&& reasoning_texts(b.parts).flatten() == reasoning_deltas(parts).flatten()
    &&& tooling_among(b.parts) == tooling_streamed(parts)
}

proof fn lemma_tells_on(s: AggregateView, parts: Seq<StreamPartView>, part: StreamPartView)
    requires
        tells(s, parts),
    ensures
        tells(s.on_part(part), parts.push(part)),
{
    broadcast use Seq::lemma_flatten_push;

    let more = parts.push(part);
    assert(more.drop_last() =~= parts);
    match part {
        StreamPartView::TextDelta { delta, .. } => {
            assert(text_deltas(more) =~= text_deltas(parts).push(delta));
        },
        StreamPartView::ToolCall(call) => {
            assert(calls_streamed(more) =~= calls_streamed(parts).push(call));
        },
        StreamPartView::Source { source, .. } => {
            assert(sources_streamed(more) =~= sources_streamed(parts).push(source));
        },
        StreamPartView::File { file, .. } => {
            assert(files_streamed(more) =~= files_streamed(parts).push(file));
        },
        _ => {},
    }
    if brings_output(part) {
        assert(more[parts.len() as int] == part);
    }
    if exists|i: int| 0 <= i < parts.len() && brings_output(#[trigger] parts[i]) {
        let i = choose|i: int| 0 <= i < parts.len() && brings_output(#[trigger] parts[i]);
        assert(more[i] == parts[i]);
    }
    if exists|i: int| 0 <= i < more.len() && brings_output(#[trigger] more[i]) {
        let i = choose|i: int| 0 <= i < more.len() && brings_output(#[trigger] more[i]);
        if i < parts.len() {
            assert(parts[i] == more[i]);
        }
    }
}

proof fn lemma_retells_on(s: AggregateView, parts: Seq<StreamPartView>, part: StreamPartView)
    requires
        retells(s.messages, parts),
        parts.len() < usize::MAX,
    ensures
        retells(s.on_part(part).messages, parts.push(part)),
{
    broadcast use Seq::lemma_flatten_push;

    let more = parts.push(part);
    assert(more.drop_last() =~= parts);
    let b = s.messages;
    let after = s.on_part(part).messages;
    match part {
        StreamPartView::TextStart { provider_metadata, .. } => {
            let new = ContentPartView::Text { text: seq![], provider_options: provider_metadata };
            lemma_content_push(b.parts, new);
            assert(texts_among(b.parts).flatten() + seq![] =~= texts_among(b.parts).flatten());
        },
        StreamPartView::TextDelta { delta, provider_metadata, .. } => {
            assert(text_deltas(more) =~= text_deltas(parts).push(delta));
            match b.text_at {
                Some(i) => {
                    lemma_text_extended(b.parts, i as int, delta, provider_metadata);
                },
                None => {
                    let new = ContentPartView::Text { text: delta, provider_options: provider_metadata };
                    lemma_content_push(b.parts, new);
                },
            }
        },
        StreamPartView::TextEnd { provider_metadata, .. } => {
            if let Some(i) = b.text_at {
                lemma_text_extended(b.parts, i as int, seq![], provider_metadata);
                assert(texts_among(b.parts).flatten() + seq![] =~= texts_among(b.parts).flatten());
            }
        },
        StreamPartView::ReasoningStart { provider_metadata, .. } => {
            let new = ContentPartView::Reasoning { text: seq![], provider_options: provider_metadata };
            lemma_content_push(b.parts, new);
            assert(reasoning_texts(b.parts).flatten() + seq![] =~= reasoning_texts(b.parts).flatten());
        },
        StreamPartView::ReasoningDelta { delta, provider_metadata, .. } => {
            assert(reasoning_deltas(more) =~= reasoning_deltas(parts).push(delta));
            match b.reasoning_at {
                Some(i) => {
                    lemma_reasoning_extended(b.parts, i as int, delta, provider_metadata);
                },
                None => {
                    let new = ContentPartView::Reasoning { text: delta, provider_options: provider_metadata };
                    lemma_content_push(b.parts, new);
                },
            }
        },
        StreamPartView::ReasoningEnd { provider_metadata, .. } => {
            if let Some(i) = b.reasoning_at {
                lemma_reasoning_extended(b.parts, i as int, seq![], provider_metadata);
                assert(reasoning_texts(b.parts).flatten() + seq![] =~= reasoning_texts(b.parts).flatten());
            }
        },
        StreamPartView::ToolCall(call) => {
            lemma_retold_call(call);
            lemma_content_push(b.parts, retold_call(call));
            assert(tooling_streamed(more) =~= tooling_streamed(parts).push(retold_call(call)));
        },
        StreamPartView::ToolResult(result) => {
            if let Some(told) = retold_result(result) {
                lemma_content_push(b.parts, told);
                assert(tooling_streamed(more) =~= tooling_streamed(parts).push(told));
            }
        },
        _ => {},
    }
}

/// Whether parts go on without an end: no finish and no error among them.
pub open spec fn goes_on(parts: Seq<StreamPartView>) -> bool {
    forall|i: int| 0 <= i < parts.len() ==> !(#[trigger] parts[i] is Finish) && !(parts[i] is Error)
}

proof fn lemma_reading(parts: Seq<StreamPartView>)
    requires
        goes_on(parts),
        parts.len() < usize::MAX,
    ensures
        read_items(brought(parts)) matches Reading::Running(s) && tells(s, parts) && retells(s.messages, parts)
            && s.error is None && s.finish is None,
    decreases parts.len(),
{
    if parts.len() > 0 {
        let front = parts.drop_last();
        assert forall|i: int| 0 <= i < front.len() implies !(#[trigger] front[i] is Finish) && !(
        front[i] is Error) by {
            assert(front[i] == parts[i]);
        }
        lemma_reading(front);
        assert(brought(parts).drop_last() =~= brought(front));
        assert(parts[parts.len() - 1] == parts.last());
        assert(front.push(parts.last()) =~= parts);
        let s = read_items(brought(front))->Running_0;
        lemma_tells_on(s, front, parts.last());
        lemma_retells_on(s, front, parts.last());
    } else {
        lemma_no_content();
        assert(parts =~= seq![]);
        assert(text_deltas(parts) =~= seq![]);
        assert(reasoning_deltas(parts) =~= seq![]);
        assert(calls_streamed(parts) =~= seq![]);
        assert(sources_streamed(parts) =~= seq![]);
        assert(files_streamed(parts) =~= seq![]);
        assert(tooling_streamed(parts) =~= seq![]);
    }
}

/// Whether a result is made of the parts of a stream: each of its pieces from
/// the parts of its own kind, in order, and from no other.
pub open spec fn is_made_of(r: AggregatedView, parts: Seq<StreamPartView>) -> bool {
    &&& r.text == text_deltas(parts).flatten()
    &&& r.reasoning_text == reasoning_deltas(parts).flatten()
    &&& r.tool_calls == calls_streamed(parts)
    &&& r.sources == sources_streamed(parts)
    &&& r.files == files_streamed(parts)
    &&& r.warnings == (if warnings_streamed(parts).len() > 0 {
        warnings_streamed(parts).last()
    } else {
        seq![]
    })
    &&& r.response == (if responses_streamed(parts).len() > 0 {
        Some(responses_streamed(parts).last())
    } else {
        None
    })
    &&& leaves_one_message(r.response_messages)
    &&& texts_among(content_left(r.response_messages)).flatten() == r.text
    &&& reasoning_among(content_left(r.response_messages)) == r.reasoning
    &&& tooling_among(content_left(r.response_messages)) == tooling_streamed(parts)
}

/// A stream that finishes amounts to its parts before the finish and to what
/// the finish reports, whatever follows.
pub proof fn law_a_finished_stream_is_made_of_its_parts(
    parts: Seq<StreamPartView>,
    finish: StreamPartView,
    behind: Seq<StreamItemView>,
)
    requires
        goes_on(parts),
        finish is Finish,
        parts.len() < usize::MAX,
    ensures
        aggregated(brought(parts).push(Ok(finish)) + behind) matches Ok(r) && {
            &&& is_made_of(r, parts)
            &&& r.finish_reason == finish->Finish_finish_reason
            &&& r.raw_finish_reason == finish->Finish_finish_reason.raw
            &&& r.usage == finish->Finish_usage
            &&& r.total_usage == finish->Finish_usage
            &&& r.provider_metadata == finish->Finish_provider_metadata
        },
        said(brought(parts).push(Ok(finish)) + behind) == Ok::<Seq<char>, AiMuxErrorView>(
            text_deltas(parts).flatten(),
        ),
{
    lemma_reading(parts);
    let told = brought(parts).push(Ok::<StreamPartView, AiMuxErrorView>(finish));
    assert(told.drop_last() =~= brought(parts));
    let s = read_items(brought(parts))->Running_0;
    let done = s.on_part(finish);
    assert(read_items(told) == Reading::Finished(done));
    let all = told + behind;
    assert(all.take(told.len() as int) =~= told);
    crate::stream_text::lemma_ended(all, told.len() as int);
    lemma_thoughts(done.messages.parts);
    lemma_left(done.messages.parts);
}

/// A stream that breaks off amounts to its parts when the model made
/// something, but is not said to have stopped normally; when the model made
/// nothing it is an error.
pub proof fn law_a_stream_that_breaks_off(parts: Seq<StreamPartView>)
    requires
        goes_on(parts),
        parts.len() < usize::MAX,
    ensures
        match aggregated(brought(parts)) {
            Ok(r) => {
                &&& exists|i: int| 0 <= i < parts.len() && brings_output(#[trigger] parts[i])
                &&& is_made_of(r, parts)
                &&& r.finish_reason.unified == FinishReasonUnified::Other
                &&& r.finish_reason.raw is None
                &&& r.raw_finish_reason is None
                &&& r.provider_metadata is None
                &&& r.total_usage == r.usage
                &&& r.usage.raw is None
                &&& r.usage.input_tokens.total is None
                &&& r.usage.output_tokens.total is None
                &&& said(brought(parts)) == Ok::<Seq<char>, AiMuxErrorView>(text_deltas(parts).flatten())
            },
            Err(error) => {
                &&& error is InvalidResponseData
                &&& said(brought(parts)) == Err::<Seq<char>, AiMuxErrorView>(error)
                &&& forall|i: int| 0 <= i < parts.len() ==> !brings_output(#[trigger] parts[i])
            },
        },
{
    lemma_reading(parts);
    let s = read_items(brought(parts))->Running_0;
    lemma_thoughts(s.messages.parts);
    lemma_left(s.messages.parts);
}

/// What an item reports as an error, and lets the stream go on after.
pub open spec fn reported(item: StreamItemView) -> Option<AiMuxErrorView> {
    match item {
        Ok(StreamPartView::Error { error }) => Some(error),
        Ok(_) => None,
        Err(AiMuxErrorView::JsonParse(words)) => Some(AiMuxErrorView::JsonParse(words)),
        Err(_) => None,
    }
}

/// Whether an item breaks its stream off with an error.
pub open spec fn breaks_off(item: StreamItemView) -> bool {
    item matches Err(error) && !(error is JsonParse)
}

proof fn lemma_error_stays(items: Seq<StreamItemView>, behind: Seq<StreamItemView>, error: AiMuxErrorView)
    requires
        match read_items(items) {
            Reading::Running(s) => s.error == Some(error),
            Reading::Finished(s) => s.error == Some(error),
            Reading::Failed(_) => false,
        },
        forall|k: int| 0 <= k < behind.len() ==> !breaks_off(#[trigger] behind[k]),
    ensures
        match read_items(items + behind) {
            Reading::Running(s) => s.error == Some(error),
            Reading::Finished(s) => s.error == Some(error),
            Reading::Failed(_) => false,
        },
    decreases behind.len(),
{
    if behind.len() == 0 {
        assert(items + behind =~= items);
    } else {
        let front = behind.drop_last();
        assert forall|k: int| 0 <= k < front.len() implies !breaks_off(#[trigger] front[k]) by {
            assert(front[k] == behind[k]);
        }
        lemma_error_stays(items, front, error);
        assert((items + behind).drop_last() =~= items + front);
        assert(!breaks_off(behind[behind.len() - 1]));
    }
}

/// A stream amounts to the first error that it reports, or to the failure that
/// breaks it off; what was read before does not make up for it.
pub proof fn law_a_stream_amounts_to_its_first_error(
    parts: Seq<StreamPartView>,
    item: StreamItemView,
    behind: Seq<StreamItemView>,
)
    requires
        goes_on(parts),
        parts.len() < usize::MAX,
    ensures
        ({
            let items = brought(parts).push(item) + behind;
            &&& breaks_off(item) ==> {
                &&& aggregated(items) == Err::<AggregatedView, AiMuxErrorView>(item->Err_0)
                &&& said(items) == Err::<Seq<char>, AiMuxErrorView>(item->Err_0)
            }
            &&& reported(item) is Some && (forall|k: int|
                0 <= k < behind.len() ==> !breaks_off(#[trigger] behind[k])) ==> {
                &&& aggregated(items) == Err::<AggregatedView, AiMuxErrorView>(reported(item)->0)
                &&& said(items) == Err::<Seq<char>, AiMuxErrorView>(reported(item)->0)
            }
        }),
{
    lemma_reading(parts);
    let told = brought(parts).push(item);
    assert(told.drop_last() =~= brought(parts));
    let items = told + behind;
    assert(items.take(told.len() as int) =~= told);
    if breaks_off(item) {
        crate::stream_text::lemma_ended(items, told.len() as int);
    }
    if reported(item) is Some {
        if forall|k: int| 0 <= k < behind.len() ==> !breaks_off(#[trigger] behind[k]) {
            lemma_error_stays(told, behind, reported(item)->0);
        }
    }
}

// The messages of a stream, part by part.

/// Content grows at its end only: whatever part arrives, the segments that
/// there were keep their places and kinds, and at most one is added.
pub proof fn law_segments_stand_in_the_order_of_their_beginning(s: AggregateView, part: StreamPartView)
    requires
        s.messages.wf(),
    ensures
        ({
            let before = s.messages.parts;
            let after = s.on_part(part).messages.parts;
            &&& before.len() <= after.len() <= before.len() + 1
            &&& forall|i: int|
                0 <= i < before.len() ==> {
                    &&& (#[trigger] after[i] is Text <==> before[i] is Text)
                    &&& (after[i] is Reasoning <==> before[i] is Reasoning)
                    &&& !(before[i] is Text) && !(before[i] is Reasoning) ==> after[i] == before[i]
                }
        }),
{
}

/// A segment takes its deltas and its latest metadata, and leaves every other
/// segment alone: what a delta or an end says goes to the open segment of its
/// kind.
pub proof fn law_deltas_go_to_the_open_segment(
    s: AggregateView,
    id: Seq<char>,
    delta: Seq<char>,
    metadata: Option<JsonView>,
    k: int,
)
    requires
        s.messages.wf(),
        0 <= k < s.messages.parts.len(),
    ensures
        s.messages.text_at matches Some(i) ==> {
            let part = StreamPartView::TextDelta { id, delta, provider_metadata: metadata };
            let before = s.messages.parts;
            let after = s.on_part(part).messages;
            &&& after.text_at == Some(i)
            &&& after.parts.len() == before.len()
            &&& k != i ==> after.parts[k] == before[k]
            &&& after.parts[i as int] matches ContentPartView::Text { text, provider_options }
            &&& text == before[i as int]->Text_text + delta
            &&& metadata is Some ==> provider_options == metadata
            &&& metadata is None ==> provider_options == before[i as int]->Text_provider_options
        },
        s.messages.reasoning_at matches Some(i) ==> {
            let part = StreamPartView::ReasoningDelta { id, delta, provider_metadata: metadata };
            let before = s.messages.parts;
            let after = s.on_part(part).messages;
            &&& after.reasoning_at == Some(i)
            &&& after.parts.len() == before.len()
            &&& k != i ==> after.parts[k] == before[k]
            &&& after.parts[i as int] matches ContentPartView::Reasoning { text, provider_options }
            &&& text == before[i as int]->Reasoning_text + delta
            &&& metadata is Some ==> provider_options == metadata
            &&& metadata is None ==> provider_options == before[i as int]->Reasoning_provider_options
        },
        s.messages.text_at matches Some(i) ==> {
            let part = StreamPartView::TextEnd { id, provider_metadata: metadata };
            let before = s.messages.parts;
            let after = s.on_part(part).messages;
            &&& after.text_at is None
            &&& k != i ==> after.parts[k] == before[k]
            &&& after.parts[i as int] matches ContentPartView::Text { text, provider_options }
            &&& text == before[i as int]->Text_text
            &&& metadata is Some ==> provider_options == metadata
            &&& metadata is None ==> provider_options == before[i as int]->Text_provider_options
        },
        s.messages.reasoning_at matches Some(i) ==> {
            let part = StreamPartView::ReasoningEnd { id, provider_metadata: metadata };
            let before = s.messages.parts;
            let after = s.on_part(part).messages;
            &&& after.reasoning_at is None
            &&& k != i ==> after.parts[k] == before[k]
            &&& after.parts[i as int] matches ContentPartView::Reasoning { text, provider_options }
            &&& text == before[i as int]->Reasoning_text
            &&& metadata is Some ==> provider_options == metadata
            &&& metadata is None ==> provider_options == before[i as int]->Reasoning_provider_options
        },
{
    if let Some(i) = s.messages.text_at {
        let text = s.messages.parts[i as int]->Text_text;
        assert(text + Seq::<char>::empty() =~= text);
    }
    if let Some(i) = s.messages.reasoning_at {
        let text = s.messages.parts[i as int]->Reasoning_text;
        assert(text + Seq::<char>::empty() =~= text);
    }
}

/// A start, and a delta while no segment is open, begin a segment at the end,
/// which is then the open one; an end while none is open says nothing.
pub proof fn law_segments_begin_at_the_end(
    s: AggregateView,
    id: Seq<char>,
    delta: Seq<char>,
    metadata: Option<JsonView>,
)
    requires
        s.messages.wf(),
        s.messages.parts.len() < usize::MAX,
    ensures
        ({
            let n = s.messages.parts.len();
            let after = s.on_part(StreamPartView::TextStart { id, provider_metadata: metadata }).messages;
            &&& after.text_at == Some(n as usize)
            &&& after.parts == s.messages.parts.push(
                ContentPartView::Text { text: seq![], provider_options: metadata },
            )
        }),
        ({
            let n = s.messages.parts.len();
            let after = s.on_part(StreamPartView::ReasoningStart { id, provider_metadata: metadata }).messages;
            &&& after.reasoning_at == Some(n as usize)
            &&& after.parts == s.messages.parts.push(
                ContentPartView::Reasoning { text: seq![], provider_options: metadata },
            )
        }),
        s.messages.text_at is None ==> {
            let n = s.messages.parts.len();
            let after = s.on_part(StreamPartView::TextDelta { id, delta, provider_metadata: metadata }).messages;
            &&& after.text_at == Some(n as usize)
            &&& after.parts == s.messages.parts.push(
                ContentPartView::Text { text: delta, provider_options: metadata },
            )
            &&& s.on_part(StreamPartView::TextEnd { id, provider_metadata: metadata }).messages == s.messages
        },
        s.messages.reasoning_at is None ==> {
            let n = s.messages.parts.len();
            let after = s.on_part(StreamPartView::ReasoningDelta { id, delta, provider_metadata: metadata }).messages;
            &&& after.reasoning_at == Some(n as usize)
            &&& after.parts == s.messages.parts.push(
                ContentPartView::Reasoning { text: delta, provider_options: metadata },
            )
            &&& s.on_part(StreamPartView::ReasoningEnd { id, provider_metadata: metadata }).messages == s.messages
        },
{
}

} // verus!
