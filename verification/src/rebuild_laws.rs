//! What is rebuilt from a recording is what was recorded.
use crate::answer_laws::{calls_streamed, reasoning_deltas, responses_streamed, text_deltas};
use crate::error::AiMuxErrorView;
use crate::json::{JsonView, NumberView};
use crate::json_text::json_parse;
use crate::replay_stream::{call_index, call_place, fresh, stream_of_body, streamed_call, PartialCallView, RebuildView};
use crate::replay_wire::{count_of, finish_of, generate_of, message_content, usage_of};
use crate::result::GenerateContentView;
use crate::stream_part::StreamPartView;
use crate::text::{blocks, trimmed, unprefixed};
use crate::tool::{RawToolCallView, ToolCallView};
use crate::types::{no_usage, FinishReasonUnified, FinishReasonView, ResponseMetadataView, UsageView};
use vstd::prelude::*;

verus! {

/// The words of a document: its text, or none when it is no text.
pub open spec fn words_of(doc: JsonView) -> Seq<char> {
    match doc {
        JsonView::String(text) => text,
        _ => seq![],
    }
}

/// Whether a call is the one that an entry recorded.
pub open spec fn is_recorded_as(call: RawToolCallView, entry: JsonView) -> bool {
    &&& call.tool_call_id == words_of(entry.at("id"@))
    &&& call.tool_name == words_of(entry.at("function"@).at("name"@))
    &&& call.input == words_of(entry.at("function"@).at("arguments"@))
    &&& call.provider_executed is None
    &&& call.dynamic is None
    &&& call.thought_signature is None
    &&& call.provider_metadata is None
}

/// The content rebuilt from a message starts with the message's text whenever
/// that is not empty, calls or no calls, and goes on with calls only.
pub proof fn law_a_rebuilt_message_starts_with_its_text(message: JsonView)
    ensures
        ({
            let content = message_content(message);
            let text = words_of(message.at("content"@));
            &&& text.len() > 0 ==> {
                &&& content.len() > 0
                &&& content[0] == GenerateContentView::Text { text, provider_metadata: None }
                &&& forall|i: int| 0 < i < content.len() ==> (#[trigger] content[i]) is ToolCall
            }
            &&& text.len() == 0 ==> forall|i: int| 0 <= i < content.len() ==> (#[trigger] content[i]) is ToolCall
        }),
{
}

/// Every recorded call is rebuilt, in order, and nothing else is a call.
pub proof fn law_every_recorded_call_is_rebuilt(message: JsonView)
    ensures
        ({
            let content = message_content(message);
            let texts: int = if words_of(message.at("content"@)).len() > 0 {
                1
            } else {
                0
            };
            match message.at("tool_calls"@) {
                JsonView::Array(entries) => content.len() == texts + entries.len() && forall|i: int|
                    0 <= i < entries.len() ==> ((#[trigger] content[texts + i]) matches GenerateContentView::ToolCall(
                        call,
                    ) && is_recorded_as(call, entries[i])),
                _ => content.len() == texts,
            }
        }),
{
}

/// Each provider word has its own reason, and every other word is another
/// reason; the word itself is kept.
pub proof fn law_finish_words(word: Seq<char>)
    ensures
        ({
            let unified = finish_of(Some(word)).unified;
            &&& unified is Stop <==> word == "stop"@
            &&& unified is Length <==> word == "length"@
            &&& unified is ContentFilter <==> word == "content_filter"@
            &&& unified is ToolCalls <==> word == "tool_calls"@
            &&& unified is Error <==> word == "error"@
            &&& finish_of(Some(word)).raw == Some(word)
        }),
        finish_of(None).unified is Other,
        finish_of(None).raw is None,
{
    reveal_strlit("stop");
    reveal_strlit("length");
    reveal_strlit("content_filter");
    reveal_strlit("tool_calls");
    reveal_strlit("error");
    assert("stop"@.len() == 4 && "length"@.len() == 6 && "content_filter"@.len() == 14 && "tool_calls"@.len() == 10
        && "error"@.len() == 5);
}

/// A count is taken as it is when it fits; a document that is no count says
/// nothing, and a count that does not fit is an error.
pub proof fn law_counts_are_taken_as_they_are(doc: JsonView, field: Seq<char>)
    ensures
        match count_of(doc, field) {
            Ok(Some(n)) => doc.natural() matches Some(m) && m == n,
            Ok(None) => doc.natural() is None,
            Err(error) => (error is JsonParse) && (doc.natural() matches Some(m) && m > u32::MAX),
        },
{
}

/// Whether a reported number is the count that a document gives.
pub open spec fn counts(total: Option<u32>, doc: JsonView) -> bool {
    match doc.natural() {
        Some(m) => total matches Some(n) && n == m,
        None => total is None,
    }
}

/// What an answer reports of its tokens: prompt tokens go in, completion
/// tokens come out, cached ones were read and reasoning was written; the
/// report itself is kept. Without one nothing is known.
pub proof fn law_usage_is_what_was_reported(doc: JsonView)
    ensures
        ({
            let report = doc.at("usage"@);
            usage_of(doc) matches Ok(usage) ==> {
                &&& usage.raw == (if report is Null {
                    None
                } else {
                    Some(report)
                })
                &&& counts(usage.input_tokens.total, report.at("prompt_tokens"@))
                &&& counts(usage.input_tokens.cache_read, report.at("prompt_tokens_details"@).at("cached_tokens"@))
                &&& counts(usage.output_tokens.total, report.at("completion_tokens"@))
                &&& counts(
                    usage.output_tokens.reasoning,
                    report.at("completion_tokens_details"@).at("reasoning_tokens"@),
                )
                &&& usage.input_tokens.no_cache is None
                &&& usage.input_tokens.cache_write is None
                &&& usage.input_tokens.text is None
                &&& usage.input_tokens.reasoning is None
                &&& usage.output_tokens.no_cache is None
                &&& usage.output_tokens.cache_read is None
                &&& usage.output_tokens.cache_write is None
                &&& usage.output_tokens.text is None
            }
        }),
        usage_of(doc) is Err <==> {
            let report = doc.at("usage"@);
            ||| does_not_fit(report.at("prompt_tokens"@))
            ||| does_not_fit(report.at("prompt_tokens_details"@).at("cached_tokens"@))
            ||| does_not_fit(report.at("completion_tokens"@))
            ||| does_not_fit(report.at("completion_tokens_details"@).at("reasoning_tokens"@))
        },
{
}

pub open spec fn does_not_fit(doc: JsonView) -> bool {
    doc.natural() matches Some(n) && n > u32::MAX
}

/// A rebuilt answer is that of the first choice, under the names that the
/// document gives it. It is rebuilt whenever there is a message there and the
/// counts fit.
pub proof fn law_a_rebuilt_answer_is_the_first_choice(doc: JsonView)
    ensures
        ({
            let choice = doc.at("choices"@).item(0);
            &&& generate_of(doc) is Ok <==> choice.field("message"@) is Some && usage_of(doc) is Ok
            &&& choice.field("message"@) is None ==> (generate_of(doc) matches Err(error) && error is
                UnsupportedFunctionality)
            &&& generate_of(doc) matches Ok(answer) ==> {
                &&& answer.content == message_content(choice.at("message"@))
                &&& answer.finish_reason == (match choice.at("finish_reason"@) {
                    JsonView::String(word) => finish_of(Some(word)),
                    _ => finish_of(None),
                })
                &&& usage_of(doc) == Ok::<_, AiMuxErrorView>(answer.usage)
                &&& answer.warnings.len() == 0
                &&& answer.provider_metadata is None
                &&& answer.response.timestamp is None
                &&& answer.response.id == (match doc.at("id"@) {
                    JsonView::String(id) => Some(id),
                    _ => None,
                })
                &&& answer.response.model_id == (match doc.at("model"@) {
                    JsonView::String(id) => Some(id),
                    _ => None,
                })
            }
        }),
{
}

// Recorded event streams.

/// The event of a block, if it has one: what is behind `data:`, unless that
/// says nothing, marks the end, or is no document.
pub open spec fn event_told(block: Seq<char>) -> Option<JsonView> {
    let data = trimmed(unprefixed(trimmed(block), "data:"@));
    if data.len() == 0 || data == "[DONE]"@ {
        None
    } else {
        match json_parse(data) {
            Ok(event) => Some(event),
            Err(_) => None,
        }
    }
}

/// The events of a body, in order.
pub open spec fn events_told(list: Seq<Seq<char>>) -> Seq<JsonView> {
    list.filter_map(|block: Seq<char>| event_told(block))
}

/// The choices of an event.
pub open spec fn choices_told(event: JsonView) -> Seq<JsonView> {
    match event.at("choices"@) {
        JsonView::Array(choices) => choices,
        _ => seq![],
    }
}

/// The choices of all events, in order.
pub open spec fn all_choices(events: Seq<JsonView>) -> Seq<JsonView> {
    events.map_values(|event: JsonView| choices_told(event)).flatten()
}

/// The text that each choice adds.
pub open spec fn texts_told(choices: Seq<JsonView>) -> Seq<Seq<char>> {
    choices.map_values(|choice: JsonView| words_of(choice.at("delta"@).at("content"@)))
}

/// The reasoning of a choice, under the newer of its two names when it has it.
pub open spec fn reasoning_told(choice: JsonView) -> Seq<char> {
    let delta = choice.at("delta"@);
    match delta.at("reasoning_content"@) {
        JsonView::String(text) => text,
        _ => words_of(delta.at("reasoning"@)),
    }
}

/// The reasoning that each choice adds.
pub open spec fn reasonings_told(choices: Seq<JsonView>) -> Seq<Seq<char>> {
    choices.map_values(|choice: JsonView| reasoning_told(choice))
}

/// The call deltas of a choice.
pub open spec fn entries_told(choice: JsonView) -> Seq<JsonView> {
    match choice.at("delta"@).at("tool_calls"@) {
        JsonView::Array(entries) => entries,
        _ => seq![],
    }
}

/// The call deltas of all choices, in order.
pub open spec fn all_entries(choices: Seq<JsonView>) -> Seq<JsonView> {
    choices.map_values(|choice: JsonView| entries_told(choice)).flatten()
}

/// The words with which choices say why they stopped.
pub open spec fn reasons_told(choices: Seq<JsonView>) -> Seq<Seq<char>> {
    choices.filter_map(
        |choice: JsonView|
            match choice.at("finish_reason"@) {
                JsonView::String(word) => Some(word),
                _ => None,
            },
    )
}

/// The events that report their tokens.
pub open spec fn reports_told(events: Seq<JsonView>) -> Seq<JsonView> {
    events.filter(|event: JsonView| !(event.at("usage"@) is Null))
}

/// The names that events give their response.
pub open spec fn responses_told(events: Seq<JsonView>) -> Seq<ResponseMetadataView> {
    events.filter_map(
        |event: JsonView|
            match (event.at("id"@), event.at("model"@)) {
                (JsonView::String(id), JsonView::String(model)) => Some(
                    ResponseMetadataView { id: Some(id), timestamp: None, model_id: Some(model) },
                ),
                (JsonView::String(id), _) => Some(
                    ResponseMetadataView { id: Some(id), timestamp: None, model_id: None },
                ),
                (_, JsonView::String(model)) => Some(
                    ResponseMetadataView { id: None, timestamp: None, model_id: Some(model) },
                ),
                _ => None,
            },
    )
}

/// The index under which a call delta belongs.
pub open spec fn index_told(entry: JsonView) -> u64 {
    match entry.at("index"@) {
        JsonView::Number(NumberView::PosInt(n)) => n,
        _ => 0,
    }
}

/// Whether a delta belongs under this index.
pub open spec fn is_indexed(entries: Seq<JsonView>, index: u64) -> bool {
    exists|i: int| 0 <= i < entries.len() && index_told(#[trigger] entries[i]) == index
}

/// The deltas that begin a call: the first of each index.
pub open spec fn beginnings(entries: Seq<JsonView>) -> Seq<JsonView>
    decreases entries.len(),
{
    if entries.len() == 0 {
        seq![]
    } else if is_indexed(entries.drop_last(), index_told(entries.last())) {
        beginnings(entries.drop_last())
    } else {
        beginnings(entries.drop_last()).push(entries.last())
    }
}

/// The argument texts under an index, in order.
pub open spec fn arguments_told(entries: Seq<JsonView>, index: u64) -> Seq<Seq<char>> {
    entries.filter_map(
        |entry: JsonView|
            if index_told(entry) == index {
                Some(words_of(entry.at("function"@).at("arguments"@)))
            } else {
                None
            },
    )
}

/// Whether a call is the one whose first delta is `first`: its id and name come
/// from there, and its arguments from all deltas of its index.
pub open spec fn is_streamed_as(call: ToolCallView, first: JsonView, entries: Seq<JsonView>) -> bool {
    &&& call.tool_call_id == words_of(first.at("id"@))
    &&& call.tool_name == words_of(first.at("function"@).at("name"@))
    &&& call.input == JsonView::String(arguments_told(entries, index_told(first)).flatten())
    &&& call.provider_executed is None
    &&& call.dynamic is None
    &&& call.thought_signature is None
    &&& call.provider_metadata is None
    &&& call.invalid is None
    &&& call.error is None
}

/// Whether parts tell as much more than others as is said here.
spec fn tells_more(
    after: Seq<StreamPartView>,
    before: Seq<StreamPartView>,
    text: Seq<char>,
    reasoning: Seq<char>,
) -> bool {
    &&& text_deltas(after).flatten() == text_deltas(before).flatten() + text
    &&& reasoning_deltas(after).flatten() == reasoning_deltas(before).flatten() + reasoning
    &&& calls_streamed(after) == calls_streamed(before)
    &&& responses_streamed(after) == responses_streamed(before)
}

proof fn lemma_emitted(parts: Seq<StreamPartView>, part: StreamPartView)
    ensures
        tells_more(
            parts.push(part),
            parts,
            match part {
                StreamPartView::TextDelta { delta, .. } => delta,
                _ => seq![],
            },
            match part {
                StreamPartView::ReasoningDelta { delta, .. } => delta,
                _ => seq![],
            },
        ) || part is ToolCall || part is ResponseMetadata,
        text_deltas(parts.push(part)).flatten() == text_deltas(parts).flatten() || part is TextDelta,
        reasoning_deltas(parts.push(part)).flatten() == reasoning_deltas(parts).flatten() || part is ReasoningDelta,
        calls_streamed(parts.push(part)) == (match part {
            StreamPartView::ToolCall(call) => calls_streamed(parts).push(call),
            _ => calls_streamed(parts),
        }),
        responses_streamed(parts.push(part)) == (match part {
            StreamPartView::ResponseMetadata(response) => responses_streamed(parts).push(response),
            _ => responses_streamed(parts),
        }),
{
    broadcast use Seq::lemma_flatten_push;

    let more = parts.push(part);
    assert(more.drop_last() =~= parts);
    let none = Seq::<char>::empty();
    assert(text_deltas(parts).flatten() + none =~= text_deltas(parts).flatten());
    assert(reasoning_deltas(parts).flatten() + none =~= reasoning_deltas(parts).flatten());
    match part {
        StreamPartView::TextDelta { delta, .. } => {
            assert(text_deltas(more) =~= text_deltas(parts).push(delta));
        },
        StreamPartView::ReasoningDelta { delta, .. } => {
            assert(reasoning_deltas(more) =~= reasoning_deltas(parts).push(delta));
        },
        StreamPartView::ToolCall(call) => {
            assert(calls_streamed(more) =~= calls_streamed(parts).push(call));
        },
        StreamPartView::ResponseMetadata(response) => {
            assert(responses_streamed(more) =~= responses_streamed(parts).push(response));
        },
        _ => {},
    }
}

/// Whether a rebuild differs from another in its parts and open segments only.
spec fn same_but_parts(a: RebuildView, b: RebuildView) -> bool {
    &&& a.calls == b.calls
    &&& a.finish == b.finish
    &&& a.usage == b.usage
    &&& a.metadata_sent == b.metadata_sent
    &&& a.saw_choices == b.saw_choices
}

proof fn lemma_closed(s: RebuildView)
    ensures
        tells_more(s.close_reasoning().parts, s.parts, seq![], seq![]),
        same_but_parts(s.close_reasoning(), s),
        tells_more(s.close_text().parts, s.parts, seq![], seq![]),
        same_but_parts(s.close_text(), s),
{
    let none = Seq::<char>::empty();
    assert(text_deltas(s.parts).flatten() + none =~= text_deltas(s.parts).flatten());
    assert(reasoning_deltas(s.parts).flatten() + none =~= reasoning_deltas(s.parts).flatten());
    if s.reasoning_open {
        lemma_emitted(s.parts, s.close_reasoning().parts.last());
    }
    if s.text_open {
        lemma_emitted(s.parts, s.close_text().parts.last());
    }
}

proof fn lemma_reasoning_told(s: RebuildView, text: Seq<char>)
    ensures
        tells_more(s.on_reasoning(text).parts, s.parts, seq![], text),
        same_but_parts(s.on_reasoning(text), s),
{
    let none = Seq::<char>::empty();
    assert(text_deltas(s.parts).flatten() + none =~= text_deltas(s.parts).flatten());
    assert(reasoning_deltas(s.parts).flatten() + none =~= reasoning_deltas(s.parts).flatten());
    if text.len() == 0 {
        assert(text =~= none);
    } else {
        let done = s.on_reasoning(text).parts;
        let opened = done.drop_last();
        if s.reasoning_open {
            assert(opened =~= s.parts);
        } else {
            assert(opened =~= s.parts.push(opened.last()));
            lemma_emitted(s.parts, opened.last());
        }
        assert(done =~= opened.push(done.last()));
        lemma_emitted(opened, done.last());
    }
}

proof fn lemma_text_told(s: RebuildView, text: Seq<char>)
    ensures
        tells_more(s.on_text(text).parts, s.parts, text, seq![]),
        same_but_parts(s.on_text(text), s),
{
    let none = Seq::<char>::empty();
    assert(text_deltas(s.parts).flatten() + none =~= text_deltas(s.parts).flatten());
    assert(reasoning_deltas(s.parts).flatten() + none =~= reasoning_deltas(s.parts).flatten());
    if text.len() == 0 {
        assert(text =~= none);
    } else {
        lemma_closed(s);
        let closed = s.close_reasoning();
        let done = s.on_text(text).parts;
        let opened = done.drop_last();
        if closed.text_open {
            assert(opened =~= closed.parts);
        } else {
            assert(opened =~= closed.parts.push(opened.last()));
            lemma_emitted(closed.parts, opened.last());
        }
        assert(done =~= opened.push(done.last()));
        lemma_emitted(opened, done.last());
    }
}

/// Whether calls under way are those that call deltas tell.
spec fn are_built(calls: Seq<PartialCallView>, entries: Seq<JsonView>) -> bool {
    let firsts = beginnings(entries);
    &&& calls.len() == firsts.len()
    &&& forall|k: int|
        0 <= k < calls.len() ==> {
            &&& (#[trigger] calls[k]).index == index_told(firsts[k])
            &&& calls[k].id == words_of(firsts[k].at("id"@))
            &&& calls[k].name == words_of(firsts[k].at("function"@).at("name"@))
            &&& calls[k].arguments == arguments_told(entries, calls[k].index).flatten()
        }
    &&& forall|j: int, k: int|
        0 <= j < k < calls.len() ==> (#[trigger] calls[j]).index != (#[trigger] calls[k]).index
    &&& forall|k: int| 0 <= k < calls.len() ==> is_indexed(entries, (#[trigger] calls[k]).index)
    &&& forall|i: int|
        0 <= i < entries.len() ==> exists|k: int|
            0 <= k < calls.len() && (#[trigger] calls[k]).index == index_told(#[trigger] entries[i])
}

proof fn lemma_place(calls: Seq<PartialCallView>, index: u64)
    ensures
        0 <= call_place(calls, index) <= calls.len(),
        forall|k: int| 0 <= k < call_place(calls, index) ==> (#[trigger] calls[k]).index != index,
        call_place(calls, index) < calls.len() ==> calls[call_place(calls, index)].index == index,
    decreases calls.len(),
{
    if calls.len() > 0 && calls[0].index != index {
        lemma_place(calls.drop_first(), index);
        assert forall|k: int| 0 <= k < call_place(calls, index) implies (#[trigger] calls[k]).index != index by {
            if k > 0 {
                assert(calls[k] == calls.drop_first()[k - 1]);
            }
        }
    }
}

proof fn lemma_arguments(entries: Seq<JsonView>, entry: JsonView, index: u64)
    ensures
        arguments_told(entries.push(entry), index).flatten() == (if index_told(entry) == index {
            arguments_told(entries, index).flatten() + words_of(entry.at("function"@).at("arguments"@))
        } else {
            arguments_told(entries, index).flatten()
        }),
{
    broadcast use Seq::lemma_flatten_push;

    let more = entries.push(entry);
    assert(more.drop_last() =~= entries);
    if index_told(entry) == index {
        assert(arguments_told(more, index) =~= arguments_told(entries, index).push(
            words_of(entry.at("function"@).at("arguments"@)),
        ));
    }
}

proof fn lemma_no_arguments(entries: Seq<JsonView>, index: u64)
    requires
        !is_indexed(entries, index),
    ensures
        arguments_told(entries, index).flatten() == Seq::<char>::empty(),
    decreases entries.len(),
{
    if entries.len() > 0 {
        let front = entries.drop_last();
        assert(entries[entries.len() - 1] == entries.last());
        assert(index_told(entries.last()) != index);
        assert forall|i: int| 0 <= i < front.len() implies index_told(#[trigger] front[i]) != index by {
            assert(front[i] == entries[i]);
        }
        lemma_no_arguments(front, index);
        assert(entries =~= front.push(entries.last()));
        lemma_arguments(front, entries.last(), index);
    } else {
        assert(arguments_told(entries, index) =~= seq![]);
    }
}

proof fn lemma_call_told(s: RebuildView, entries: Seq<JsonView>, entry: JsonView)
    requires
        are_built(s.calls, entries),
    ensures
        are_built(s.on_call(entry).calls, entries.push(entry)),
        tells_more(s.on_call(entry).parts, s.parts, seq![], seq![]),
        s.on_call(entry).finish == s.finish,
        s.on_call(entry).usage == s.usage,
        s.on_call(entry).metadata_sent == s.metadata_sent,
        s.on_call(entry).saw_choices == s.saw_choices,
{
    let none = Seq::<char>::empty();
    let more = entries.push(entry);
    let index = call_index(entry);
    let calls = s.calls;
    let after = s.on_call(entry);
    let p = call_place(calls, index);
    let arguments = words_of(entry.at("function"@).at("arguments"@));
    assert(index == index_told(entry));
    assert(more.drop_last() =~= entries);
    lemma_place(calls, index);
    // What is told.
    assert(text_deltas(s.parts).flatten() + none =~= text_deltas(s.parts).flatten());
    assert(reasoning_deltas(s.parts).flatten() + none =~= reasoning_deltas(s.parts).flatten());
    let is_new = p >= calls.len();
    let spoke = entry.at("function"@).at("arguments"@) is String && (!is_new || arguments.len() > 0);
    let started = if is_new {
        after.parts.take((s.parts.len() + 1) as int)
    } else {
        s.parts
    };
    if is_new {
        assert(started =~= s.parts.push(started.last()));
        lemma_emitted(s.parts, started.last());
    }
    if spoke {
        assert(after.parts =~= started.push(after.parts.last()));
        lemma_emitted(started, after.parts.last());
    } else {
        assert(after.parts =~= started);
    }
    // What is built.
    if is_indexed(entries, index) {
        let i = choose|i: int| 0 <= i < entries.len() && index_told(#[trigger] entries[i]) == index;
        let k = choose|k: int| 0 <= k < calls.len() && (#[trigger] calls[k]).index == index_told(entries[i]);
        assert(!is_new);
    } else {
        if !is_new {
            assert(is_indexed(entries, calls[p].index));
        }
        lemma_no_arguments(entries, index);
    }
    let built = after.calls;
    assert forall|k: int| 0 <= k < built.len() implies {
        &&& (#[trigger] built[k]).index == index_told(beginnings(more)[k])
        &&& built[k].id == words_of(beginnings(more)[k].at("id"@))
        &&& built[k].name == words_of(beginnings(more)[k].at("function"@).at("name"@))
        &&& built[k].arguments == arguments_told(more, built[k].index).flatten()
    } by {
        lemma_arguments(entries, entry, built[k].index);
        if k < calls.len() {
            assert(calls[k].index == built[k].index);
            if k != p && !is_new {
                assert(calls[k].index != calls[p].index);
            }
        }
        if k == p {
            assert(none + arguments =~= arguments);
            if !spoke {
                assert(arguments =~= none);
                if k < calls.len() {
                    assert(calls[k].arguments + none =~= calls[k].arguments);
                }
            }
        }
    }
    assert forall|j: int, k: int| 0 <= j < k < built.len() implies (#[trigger] built[j]).index != (
    #[trigger] built[k]).index by {
        assert(calls[j].index == built[j].index);
        if k < calls.len() {
            assert(calls[k].index == built[k].index);
        }
    }
    assert forall|k: int| 0 <= k < built.len() implies is_indexed(more, (#[trigger] built[k]).index) by {
        if k < calls.len() {
            assert(calls[k].index == built[k].index);
            let i = choose|i: int| 0 <= i < entries.len() && index_told(#[trigger] entries[i]) == calls[k].index;
            assert(more[i] == entries[i]);
        } else {
            assert(more[entries.len() as int] == entry);
        }
    }
    assert forall|i: int| 0 <= i < more.len() implies exists|k: int|
        0 <= k < built.len() && (#[trigger] built[k]).index == index_told(#[trigger] more[i]) by {
        if i < entries.len() {
            assert(more[i] == entries[i]);
            let k = choose|k: int| 0 <= k < calls.len() && (#[trigger] calls[k]).index == index_told(entries[i]);
            assert(built[k].index == calls[k].index);
        } else {
            assert(built[p].index == index);
        }
    }
}

proof fn lemma_calls_told(s: RebuildView, prior: Seq<JsonView>, entries: Seq<JsonView>)
    requires
        are_built(s.calls, prior),
    ensures
        are_built(s.on_calls(entries).calls, prior + entries),
        tells_more(s.on_calls(entries).parts, s.parts, seq![], seq![]),
        s.on_calls(entries).finish == s.finish,
        s.on_calls(entries).usage == s.usage,
        s.on_calls(entries).metadata_sent == s.metadata_sent,
        s.on_calls(entries).saw_choices == s.saw_choices,
    decreases entries.len(),
{
    let none = Seq::<char>::empty();
    assert(text_deltas(s.parts).flatten() + none =~= text_deltas(s.parts).flatten());
    assert(reasoning_deltas(s.parts).flatten() + none =~= reasoning_deltas(s.parts).flatten());
    if entries.len() == 0 {
        assert(prior + entries =~= prior);
    } else {
        let front = entries.drop_last();
        lemma_calls_told(s, prior, front);
        lemma_call_told(s.on_calls(front), prior + front, entries.last());
        assert(prior + entries =~= (prior + front).push(entries.last()));
    }
}

/// Whether a rebuild tells what choices said.
spec fn tells_choices(s: RebuildView, choices: Seq<JsonView>) -> bool {
    &&& text_deltas(s.parts).flatten() == texts_told(choices).flatten()
    &&& reasoning_deltas(s.parts).flatten() == reasonings_told(choices).flatten()
    &&& calls_streamed(s.parts).len() == 0
    &&& are_built(s.calls, all_entries(choices))
    &&& s.finish == (if reasons_told(choices).len() > 0 {
        Some(finish_of(Some(reasons_told(choices).last())))
    } else {
        None
    })
}

proof fn lemma_choice_told(s: RebuildView, choices: Seq<JsonView>, choice: JsonView)
    requires
        tells_choices(s, choices),
    ensures
        tells_choices(s.on_choice(choice), choices.push(choice)),
        responses_streamed(s.on_choice(choice).parts) == responses_streamed(s.parts),
        s.on_choice(choice).usage == s.usage,
        s.on_choice(choice).metadata_sent == s.metadata_sent,
        s.on_choice(choice).saw_choices == s.saw_choices,
{
    broadcast use Seq::lemma_flatten_push;

    let none = Seq::<char>::empty();
    let more = choices.push(choice);
    assert(more.drop_last() =~= choices);
    let delta = choice.at("delta"@);
    let reasoning = reasoning_told(choice);
    let text = words_of(delta.at("content"@));
    assert(texts_told(more) =~= texts_told(choices).push(text));
    assert(reasonings_told(more) =~= reasonings_told(choices).push(reasoning));
    let lists = choices.map_values(|choice: JsonView| entries_told(choice));
    assert(more.map_values(|choice: JsonView| entries_told(choice)) =~= lists.push(entries_told(choice)));
    assert(all_entries(more) == all_entries(choices) + entries_told(choice));
    let s1 = s.on_reasoning(reasoning);
    lemma_reasoning_told(s, reasoning);
    let s2 = s1.on_text(text);
    lemma_text_told(s1, text);
    let t = text_deltas(s.parts).flatten();
    let r = reasoning_deltas(s.parts).flatten();
    assert(t + none =~= t);
    assert(t + text + none =~= t + text);
    assert(r + reasoning + none =~= r + reasoning);
    let s3 = match delta.at("tool_calls"@) {
        JsonView::Array(entries) => s2.close_reasoning().on_calls(entries),
        _ => s2,
    };
    if let JsonView::Array(entries) = delta.at("tool_calls"@) {
        lemma_closed(s2);
        lemma_calls_told(s2.close_reasoning(), all_entries(choices), entries);
    } else {
        assert(all_entries(choices) + entries_told(choice) =~= all_entries(choices));
    }
    assert(are_built(s3.calls, all_entries(more)));
    if let JsonView::String(word) = choice.at("finish_reason"@) {
        lemma_closed(s3);
        lemma_closed(s3.close_reasoning());
        assert(reasons_told(more) =~= reasons_told(choices).push(word));
    }
}

proof fn lemma_choices_told(s: RebuildView, prior: Seq<JsonView>, choices: Seq<JsonView>)
    requires
        tells_choices(s, prior),
    ensures
        tells_choices(s.on_choices(choices), prior + choices),
        responses_streamed(s.on_choices(choices).parts) == responses_streamed(s.parts),
        s.on_choices(choices).usage == s.usage,
        s.on_choices(choices).metadata_sent == s.metadata_sent,
        s.on_choices(choices).saw_choices == s.saw_choices,
    decreases choices.len(),
{
    if choices.len() == 0 {
        assert(prior + choices =~= prior);
    } else {
        let front = choices.drop_last();
        lemma_choices_told(s, prior, front);
        lemma_choice_told(s.on_choices(front), prior + front, choices.last());
        assert(prior + choices =~= (prior + front).push(choices.last()));
    }
}

/// Whether some event has a list of choices.
pub open spec fn has_choices(events: Seq<JsonView>) -> bool {
    exists|i: int| 0 <= i < events.len() && (#[trigger] events[i]).at("choices"@) is Array
}

/// Whether the tokens of every event can be counted.
pub open spec fn can_be_counted(events: Seq<JsonView>) -> bool {
    forall|i: int| 0 <= i < events.len() ==> usage_of(#[trigger] events[i]) is Ok
}

/// Whether a rebuild tells what events said.
spec fn tells_events(s: RebuildView, events: Seq<JsonView>) -> bool {
    &&& tells_choices(s, all_choices(events))
    &&& responses_streamed(s.parts) == responses_told(events).take(
        if responses_told(events).len() > 0 {
            1
        } else {
            0
        },
    )
    &&& s.metadata_sent == (responses_told(events).len() > 0)
    &&& s.saw_choices == has_choices(events)
    &&& can_be_counted(events)
    &&& if reports_told(events).len() > 0 {
        usage_of(reports_told(events).last()) == Ok::<UsageView, AiMuxErrorView>(s.usage)
    } else {
        s.usage == no_usage()
    }
}

proof fn lemma_event_told(s: RebuildView, events: Seq<JsonView>, event: JsonView)
    requires
        tells_events(s, events),
    ensures
        match s.on_event(event) {
            Ok(after) => tells_events(after, events.push(event)),
            Err(error) => usage_of(event) == Err::<UsageView, AiMuxErrorView>(error),
        },
{
    broadcast use Seq::lemma_flatten_push;

    reveal(Seq::filter);
    let more = events.push(event);
    assert(more.drop_last() =~= events);
    let lists = events.map_values(|event: JsonView| choices_told(event));
    assert(more.map_values(|event: JsonView| choices_told(event)) =~= lists.push(choices_told(event)));
    assert(all_choices(more) == all_choices(events) + choices_told(event));
    let s0 = RebuildView { saw_choices: s.saw_choices || event.at("choices"@).items() is Some, ..s };
    let s1 = s0.on_metadata(event);
    let told = responses_told(events);
    if responses_told(more) != told {
        assert(responses_told(more) =~= told.push(responses_told(more).last()));
    }
    if s1.parts != s.parts {
        lemma_emitted(s.parts, s1.parts.last());
        assert(s1.parts =~= s.parts.push(s1.parts.last()));
        assert(responses_streamed(s1.parts) =~= responses_told(more).take(1));
    } else if told.len() > 0 {
        assert(responses_told(more).take(1) =~= told.take(1));
    }
    assert(tells_choices(s1, all_choices(events)));
    if event.at("choices"@) is Array {
        assert(more[events.len() as int] == event);
    }
    assert(has_choices(more) == (has_choices(events) || event.at("choices"@) is Array)) by {
        if has_choices(events) {
            let i = choose|i: int| 0 <= i < events.len() && (#[trigger] events[i]).at("choices"@) is Array;
            assert(more[i] == events[i]);
        }
        if has_choices(more) {
            let i = choose|i: int| 0 <= i < more.len() && (#[trigger] more[i]).at("choices"@) is Array;
            if i < events.len() {
                assert(events[i] == more[i]);
            }
        }
    }
    if usage_of(event) is Ok {
        assert forall|i: int| 0 <= i < more.len() implies usage_of(#[trigger] more[i]) is Ok by {
            if i < events.len() {
                assert(more[i] == events[i]);
            }
        }
        let s2 = if event.at("usage"@) is Null {
            s1
        } else {
            RebuildView { usage: usage_of(event)->Ok_0, ..s1 }
        };
        lemma_choices_told(s2, all_choices(events), choices_told(event));
        if !(event.at("choices"@) is Array) {
            assert(all_choices(events) + choices_told(event) =~= all_choices(events));
        }
    }
}

proof fn lemma_blocks_told(list: Seq<Seq<char>>)
    ensures
        match fresh().on_blocks(list) {
            Ok(s) => tells_events(s, events_told(list)),
            Err(error) => exists|i: int|
                0 <= i < events_told(list).len() && usage_of(#[trigger] events_told(list)[i]) == Err::<
                    UsageView,
                    AiMuxErrorView,
                >(error),
        },
    decreases list.len(),
{
    reveal(Seq::filter);
    if list.len() == 0 {
        let events = events_told(list);
        let none = Seq::<JsonView>::empty();
        assert(events =~= none);
        assert(none.map_values(|event: JsonView| choices_told(event)) =~= seq![]);
        assert(all_choices(none) =~= seq![]);
        assert(texts_told(none) =~= seq![]);
        assert(reasonings_told(none) =~= seq![]);
        assert(none.map_values(|choice: JsonView| entries_told(choice)) =~= seq![]);
        assert(all_entries(none) =~= seq![]);
        assert(reasons_told(none) =~= seq![]);
        assert(responses_told(none) =~= seq![]);
        let start = fresh().parts[0];
        let before = Seq::<StreamPartView>::empty();
        assert(fresh().parts =~= before.push(start));
        lemma_emitted(before, start);
        assert(text_deltas(before) =~= seq![]);
        assert(reasoning_deltas(before) =~= seq![]);
        assert(calls_streamed(before) =~= seq![]);
        assert(responses_streamed(before) =~= seq![]);
        assert(responses_told(none).take(0) =~= seq![]);
    } else {
        let front = list.drop_last();
        lemma_blocks_told(front);
        let events = events_told(front);
        let more = events_told(list);
        match fresh().on_blocks(front) {
            Ok(s) => {
                if let Some(event) = event_told(list.last()) {
                    assert(more =~= events.push(event));
                    lemma_event_told(s, events, event);
                    assert(more[events.len() as int] == event);
                } else {
                    assert(more == events);
                }
            },
            Err(error) => {
                let i = choose|i: int|
                    0 <= i < events.len() && usage_of(#[trigger] events[i]) == Err::<UsageView, AiMuxErrorView>(
                        error,
                    );
                assert(more[i] == events[i]);
            },
        }
    }
}

proof fn lemma_calls_flushed(s: RebuildView, calls: Seq<PartialCallView>)
    ensures
        text_deltas(s.flush_calls(calls).parts).flatten() == text_deltas(s.parts).flatten(),
        reasoning_deltas(s.flush_calls(calls).parts).flatten() == reasoning_deltas(s.parts).flatten(),
        responses_streamed(s.flush_calls(calls).parts) == responses_streamed(s.parts),
        calls_streamed(s.flush_calls(calls).parts) == calls_streamed(s.parts) + Seq::new(
            calls.len(),
            |k: int| streamed_call(calls[k]),
        ),
    decreases calls.len(),
{
    if calls.len() == 0 {
        assert(calls_streamed(s.parts) + Seq::new(calls.len(), |k: int| streamed_call(calls[k]))
            =~= calls_streamed(s.parts));
    } else {
        let front = calls.drop_last();
        lemma_calls_flushed(s, front);
        let before = s.flush_calls(front);
        let call = calls.last();
        let end = StreamPartView::ToolInputEnd { id: call.id, provider_metadata: None };
        lemma_emitted(before.parts, end);
        lemma_emitted(before.parts.push(end), StreamPartView::ToolCall(streamed_call(call)));
        assert(calls_streamed(s.parts) + Seq::new(calls.len(), |k: int| streamed_call(calls[k])) =~= (
        calls_streamed(s.parts) + Seq::new(front.len(), |k: int| streamed_call(front[k]))).push(
            streamed_call(call),
        ));
    }
}

/// A recorded event stream is rebuilt exactly when it has choices somewhere
/// and every count in it fits.
pub proof fn law_which_event_streams_are_rebuilt(body: Seq<char>)
    ensures
        ({
            let events = events_told(blocks(body));
            &&& stream_of_body(body) is Ok <==> has_choices(events) && can_be_counted(events)
            &&& can_be_counted(events) && !has_choices(events) ==> (stream_of_body(body) matches Err(error) && error
                is UnsupportedFunctionality)
            &&& !can_be_counted(events) ==> exists|i: int|
                0 <= i < events.len() && (usage_of(#[trigger] events[i]) matches Err(error) && stream_of_body(body)
                    == Err::<Seq<StreamPartView>, AiMuxErrorView>(error))
        }),
{
    lemma_blocks_told(blocks(body));
    let events = events_told(blocks(body));
    if let Err(error) = fresh().on_blocks(blocks(body)) {
        let i = choose|i: int|
            0 <= i < events.len() && usage_of(#[trigger] events[i]) == Err::<UsageView, AiMuxErrorView>(error);
        assert(usage_of(events[i]) is Err);
    }
}

/// A rebuilt stream says what the recorded choices said: their texts and their
/// reasoning, joined in order; a call for each index, in the order in which
/// they began, named by its first delta and with the arguments of all; the
/// first name of the response; and at the end the last reason to stop and the
/// last report of tokens.
pub proof fn law_a_rebuilt_stream_says_what_was_recorded(body: Seq<char>)
    ensures
        ({
            let events = events_told(blocks(body));
            let choices = all_choices(events);
            let entries = all_entries(choices);
            stream_of_body(body) matches Ok(parts) ==> {
                &&& text_deltas(parts).flatten() == texts_told(choices).flatten()
                &&& reasoning_deltas(parts).flatten() == reasonings_told(choices).flatten()
                &&& calls_streamed(parts).len() == beginnings(entries).len()
                &&& forall|k: int|
                    0 <= k < beginnings(entries).len() ==> is_streamed_as(
                        #[trigger] calls_streamed(parts)[k],
                        beginnings(entries)[k],
                        entries,
                    )
                &&& responses_streamed(parts).len() <= 1
                &&& responses_streamed(parts).len() == 0 <==> responses_told(events).len() == 0
                &&& responses_told(events).len() > 0 ==> responses_streamed(parts)[0] == responses_told(events)[0]
                &&& parts.last() matches StreamPartView::Finish { finish_reason, usage, provider_metadata }
                &&& provider_metadata is None
                &&& finish_reason == (if reasons_told(choices).len() > 0 {
                    finish_of(Some(reasons_told(choices).last()))
                } else {
                    FinishReasonView { unified: FinishReasonUnified::Stop, raw: None }
                })
                &&& if reports_told(events).len() > 0 {
                    usage_of(reports_told(events).last()) == Ok::<UsageView, AiMuxErrorView>(usage)
                } else {
                    usage.raw is None && usage.input_tokens.total is None && usage.output_tokens.total is None
                }
            }
        }),
{
    lemma_blocks_told(blocks(body));
    if let Ok(s) = fresh().on_blocks(blocks(body)) {
        if s.saw_choices {
            let parts = s.flush()->Ok_0;
            lemma_closed(s);
            let s1 = s.close_reasoning();
            lemma_closed(s1);
            let s2 = s1.close_text();
            lemma_calls_flushed(s2, s.calls);
            let s3 = s2.flush_calls(s.calls);
            lemma_emitted(s3.parts, parts.last());
            assert(parts =~= s3.parts.push(parts.last()));
            let none = Seq::<char>::empty();
            assert(text_deltas(s.parts).flatten() + none =~= text_deltas(s.parts).flatten());
            assert(reasoning_deltas(s.parts).flatten() + none =~= reasoning_deltas(s.parts).flatten());
            assert(calls_streamed(s.parts) =~= seq![]);
            assert(calls_streamed(parts) =~= Seq::new(s.calls.len(), |k: int| streamed_call(s.calls[k])));
            let entries = all_entries(all_choices(events_told(blocks(body))));
            assert forall|k: int| 0 <= k < beginnings(entries).len() implies is_streamed_as(
                #[trigger] calls_streamed(parts)[k],
                beginnings(entries)[k],
                entries,
            ) by {
                assert(calls_streamed(parts)[k] == streamed_call(s.calls[k]));
            }
        }
    }
}

} // verus!
