//! What holds of streams: rebuilt ones are complete and well bracketed, and
//! reading one ends where it ends.
use crate::error::AiMuxErrorView;
use crate::json::JsonView;
use crate::json_text::json_parse;
use crate::replay_stream::{
    call_index, call_place, event_data, fresh, reasoning_segment, reasoning_text, stream_of_body, streamed_call,
    text_segment, PartialCallView, RebuildView,
};
use crate::replay_wire::{text_at, usage_of};
use crate::stream_part::{StreamItemView, StreamPartView};
use crate::stream_text::{
    aggregated, concluded, is_output, is_terminal, lemma_ended, nothing_generated, read_items, said, AggregateView,
    AggregatedView, Reading,
};
use crate::text::blocks;
use vstd::prelude::*;

verus! {

/// Whether a text segment is open after a list of parts; nothing when a
/// segment was opened twice, or spoke or ended while closed.
pub open spec fn text_state(parts: Seq<StreamPartView>) -> Option<bool>
    decreases parts.len(),
{
    if parts.len() == 0 {
        Some(false)
    } else {
        match (text_state(parts.drop_last()), parts.last()) {
            (Some(false), StreamPartView::TextStart { .. }) => Some(true),
            (_, StreamPartView::TextStart { .. }) => None,
            (Some(true), StreamPartView::TextDelta { .. }) => Some(true),
            (_, StreamPartView::TextDelta { .. }) => None,
            (Some(true), StreamPartView::TextEnd { .. }) => Some(false),
            (_, StreamPartView::TextEnd { .. }) => None,
            (state, _) => state,
        }
    }
}

/// The same of a reasoning segment.
pub open spec fn reasoning_state(parts: Seq<StreamPartView>) -> Option<bool>
    decreases parts.len(),
{
    if parts.len() == 0 {
        Some(false)
    } else {
        match (reasoning_state(parts.drop_last()), parts.last()) {
            (Some(false), StreamPartView::ReasoningStart { .. }) => Some(true),
            (_, StreamPartView::ReasoningStart { .. }) => None,
            (Some(true), StreamPartView::ReasoningDelta { .. }) => Some(true),
            (_, StreamPartView::ReasoningDelta { .. }) => None,
            (Some(true), StreamPartView::ReasoningEnd { .. }) => Some(false),
            (_, StreamPartView::ReasoningEnd { .. }) => None,
            (state, _) => state,
        }
    }
}

/// How many tool inputs were started, ended, and became calls.
pub open spec fn call_counts(parts: Seq<StreamPartView>) -> (nat, nat, nat)
    decreases parts.len(),
{
    if parts.len() == 0 {
        (0, 0, 0)
    } else {
        let (started, ended, made) = call_counts(parts.drop_last());
        match parts.last() {
            StreamPartView::ToolInputStart { .. } => (started + 1, ended, made),
            StreamPartView::ToolInputEnd { .. } => (started, ended + 1, made),
            StreamPartView::ToolCall(_) => (started, ended, made + 1),
            _ => (started, ended, made),
        }
    }
}

/// How many tool inputs of an id were started.
pub open spec fn starts(parts: Seq<StreamPartView>, id: Seq<char>) -> nat
    decreases parts.len(),
{
    if parts.len() == 0 {
        0
    } else {
        let before = starts(parts.drop_last(), id);
        match parts.last() {
            StreamPartView::ToolInputStart { id: own, .. } if own == id => before + 1,
            _ => before,
        }
    }
}

/// How many tool inputs of an id ended.
pub open spec fn ends(parts: Seq<StreamPartView>, id: Seq<char>) -> nat
    decreases parts.len(),
{
    if parts.len() == 0 {
        0
    } else {
        let before = ends(parts.drop_last(), id);
        match parts.last() {
            StreamPartView::ToolInputEnd { id: own, .. } if own == id => before + 1,
            _ => before,
        }
    }
}

/// How many calls of an id were made.
pub open spec fn calls_made(parts: Seq<StreamPartView>, id: Seq<char>) -> nat
    decreases parts.len(),
{
    if parts.len() == 0 {
        0
    } else {
        let before = calls_made(parts.drop_last(), id);
        match parts.last() {
            StreamPartView::ToolCall(call) if call.tool_call_id == id => before + 1,
            _ => before,
        }
    }
}

/// The deltas of a tool input, joined.
pub open spec fn joined(parts: Seq<StreamPartView>, id: Seq<char>) -> Seq<char>
    decreases parts.len(),
{
    if parts.len() == 0 {
        Seq::empty()
    } else {
        let before = joined(parts.drop_last(), id);
        match parts.last() {
            StreamPartView::ToolInputDelta { id: own, delta, .. } if own == id => before + delta,
            _ => before,
        }
    }
}

/// How often the response was announced.
pub open spec fn announcements(parts: Seq<StreamPartView>) -> nat
    decreases parts.len(),
{
    if parts.len() == 0 {
        0
    } else {
        announcements(parts.drop_last()) + if parts.last() is ResponseMetadata {
            1nat
        } else {
            0nat
        }
    }
}

/// Whether the tool input that ends at `i` becomes a call at once: the next
/// part is the call of its id, and where no other input was started under that
/// id, its argument text is what the deltas say.
pub open spec fn becomes_a_call(parts: Seq<StreamPartView>, i: int) -> bool {
    &&& parts[i] matches StreamPartView::ToolInputEnd { id, .. }
    &&& i + 1 < parts.len()
    &&& parts[i + 1] matches StreamPartView::ToolCall(call)
    &&& call.tool_call_id == id
    &&& starts(parts, id) == 1 ==> call.input == JsonView::String(joined(parts, id))
}

/// A part that neither starts nor ends a stream, nor reports an error.
pub open spec fn is_inner(part: StreamPartView) -> bool {
    !(part is StreamStart) && !(part is Finish) && !(part is Error)
}

/// An inner part that ends no tool input.
pub open spec fn is_early(part: StreamPartView) -> bool {
    is_inner(part) && !(part is ToolInputEnd) && !(part is ToolCall)
}

/// How many calls have an id.
pub open spec fn with_id(calls: Seq<PartialCallView>, id: Seq<char>) -> nat
    decreases calls.len(),
{
    if calls.len() == 0 {
        0
    } else {
        with_id(calls.drop_last(), id) + if calls.last().id == id {
            1nat
        } else {
            0nat
        }
    }
}

/// Whether the parts tell of exactly these calls: each was started, and its
/// deltas are its arguments.
#[verifier::opaque]
pub open spec fn accounted(parts: Seq<StreamPartView>, calls: Seq<PartialCallView>, announced: bool) -> bool {
    &&& announcements(parts) == if announced {
        1nat
    } else {
        0nat
    }
    &&& forall|id: Seq<char>| #[trigger] starts(parts, id) == with_id(calls, id)
    &&& forall|id: Seq<char>| with_id(calls, id) == 0 ==> #[trigger] joined(parts, id) == Seq::<char>::empty()
    &&& forall|k: int|
        0 <= k < calls.len() && with_id(calls, calls[k].id) == 1 ==> joined(parts, (#[trigger] calls[k]).id)
            == calls[k].arguments
}

proof fn lemma_with_id_found(calls: Seq<PartialCallView>, a: int, b: int)
    requires
        0 <= a < b < calls.len(),
        calls[a].id == calls[b].id,
    ensures
        with_id(calls, calls[a].id) >= 2,
    decreases calls.len(),
{
    let id = calls[a].id;
    if b == calls.len() - 1 {
        lemma_with_id_some(calls.drop_last(), a);
    } else {
        lemma_with_id_found(calls.drop_last(), a, b);
    }
}

proof fn lemma_with_id_some(calls: Seq<PartialCallView>, a: int)
    requires
        0 <= a < calls.len(),
    ensures
        with_id(calls, calls[a].id) >= 1,
    decreases calls.len(),
{
    if a < calls.len() - 1 {
        lemma_with_id_some(calls.drop_last(), a);
    }
}

proof fn lemma_with_id_update(calls: Seq<PartialCallView>, p: int, call: PartialCallView, id: Seq<char>)
    requires
        0 <= p < calls.len(),
        call.id == calls[p].id,
    ensures
        with_id(calls.update(p, call), id) == with_id(calls, id),
    decreases calls.len(),
{
    let after = calls.update(p, call);
    if p < calls.len() - 1 {
        assert(after.drop_last() =~= calls.drop_last().update(p, call));
        lemma_with_id_update(calls.drop_last(), p, call, id);
    } else {
        assert(after.drop_last() =~= calls.drop_last());
    }
}

/// What one more part adds to the account.
proof fn lemma_counts(parts: Seq<StreamPartView>, part: StreamPartView)
    ensures
        announcements(parts.push(part)) == announcements(parts) + if part is ResponseMetadata {
            1nat
        } else {
            0nat
        },
        forall|id: Seq<char>|
            #[trigger] starts(parts.push(part), id) == (match part {
                StreamPartView::ToolInputStart { id: own, .. } if own == id => starts(parts, id) + 1,
                _ => starts(parts, id),
            }),
        forall|id: Seq<char>|
            #[trigger] joined(parts.push(part), id) == (match part {
                StreamPartView::ToolInputDelta { id: own, delta, .. } if own == id => joined(parts, id) + delta,
                _ => joined(parts, id),
            }),
{
    assert(parts.push(part).drop_last() =~= parts);
}

/// Whether a part says nothing of calls or of the response.
spec fn is_aside(part: StreamPartView) -> bool {
    !(part is ToolInputStart) && !(part is ToolInputDelta) && !(part is ResponseMetadata)
}

proof fn lemma_account_aside(
    parts: Seq<StreamPartView>,
    part: StreamPartView,
    calls: Seq<PartialCallView>,
    announced: bool,
)
    requires
        accounted(parts, calls, announced),
        is_aside(part),
    ensures
        accounted(parts.push(part), calls, announced),
{
    reveal(accounted);
    lemma_counts(parts, part);
}

proof fn lemma_account_response(parts: Seq<StreamPartView>, part: StreamPartView, calls: Seq<PartialCallView>)
    requires
        accounted(parts, calls, false),
        part is ResponseMetadata,
    ensures
        accounted(parts.push(part), calls, true),
{
    reveal(accounted);
    lemma_counts(parts, part);
}

proof fn lemma_account_start(
    parts: Seq<StreamPartView>,
    part: StreamPartView,
    calls: Seq<PartialCallView>,
    call: PartialCallView,
    announced: bool,
)
    requires
        accounted(parts, calls, announced),
        part matches StreamPartView::ToolInputStart { id, .. } && id == call.id,
        call.arguments.len() == 0,
    ensures
        accounted(parts.push(part), calls.push(call), announced),
{
    reveal(accounted);
    lemma_counts(parts, part);
    let more = calls.push(call);
    assert(more.drop_last() =~= calls);
    assert forall|k: int| 0 <= k < more.len() && with_id(more, more[k].id) == 1 implies joined(
        parts.push(part),
        (#[trigger] more[k]).id,
    ) == more[k].arguments by {
        if k < calls.len() {
            assert(more[k] == calls[k]);
            if calls[k].id == call.id {
                lemma_with_id_found(more, k, calls.len() as int);
            }
        } else {
            assert(joined(parts, call.id) == Seq::<char>::empty());
            assert(call.arguments =~= Seq::<char>::empty());
        }
    }
}

proof fn lemma_account_delta(
    parts: Seq<StreamPartView>,
    part: StreamPartView,
    calls: Seq<PartialCallView>,
    p: int,
    announced: bool,
)
    requires
        accounted(parts, calls, announced),
        0 <= p < calls.len(),
        part matches StreamPartView::ToolInputDelta { id, .. } && id == calls[p].id,
    ensures
        ({
            let call = PartialCallView {
                arguments: calls[p].arguments + part->ToolInputDelta_delta,
                ..calls[p]
            };
            accounted(parts.push(part), calls.update(p, call), announced)
        }),
{
    reveal(accounted);
    lemma_counts(parts, part);
    let call = PartialCallView { arguments: calls[p].arguments + part->ToolInputDelta_delta, ..calls[p] };
    let after = calls.update(p, call);
    assert forall|id: Seq<char>| #[trigger] with_id(after, id) == with_id(calls, id) by {
        lemma_with_id_update(calls, p, call, id);
    }
    lemma_with_id_some(calls, p);
    assert forall|id: Seq<char>| #[trigger] starts(parts.push(part), id) == with_id(after, id) by {
        assert(starts(parts, id) == with_id(calls, id));
    }
    assert forall|k: int| 0 <= k < after.len() && with_id(after, after[k].id) == 1 implies joined(
        parts.push(part),
        (#[trigger] after[k]).id,
    ) == after[k].arguments by {
        assert(with_id(calls, calls[k].id) == 1);
        assert(joined(parts, calls[k].id) == calls[k].arguments);
        if k != p && calls[k].id == calls[p].id {
            if k < p {
                lemma_with_id_found(calls, k, p);
            } else {
                lemma_with_id_found(calls, p, k);
            }
        }
    }
}

/// What rebuilding a stream keeps: it has started and not ended, and its
/// segments and calls are as the state says.
pub open spec fn in_order(s: RebuildView) -> bool {
    &&& s.parts.len() > 0
    &&& s.parts[0] is StreamStart
    &&& forall|i: int| 0 < i < s.parts.len() ==> is_early(#[trigger] s.parts[i])
    &&& text_state(s.parts) == Some(s.text_open)
    &&& reasoning_state(s.parts) == Some(s.reasoning_open)
    &&& call_counts(s.parts) == (s.calls.len(), 0nat, 0nat)
    &&& accounted(s.parts, s.calls, s.metadata_sent)
}

proof fn lemma_push(parts: Seq<StreamPartView>, part: StreamPartView)
    ensures
        parts.push(part).drop_last() == parts,
        parts.push(part).last() == part,
{
    assert(parts.push(part).drop_last() =~= parts);
}

proof fn lemma_emit(parts: Seq<StreamPartView>, part: StreamPartView)
    ensures
        text_state(parts.push(part)) == (match (text_state(parts), part) {
            (Some(false), StreamPartView::TextStart { .. }) => Some(true),
            (_, StreamPartView::TextStart { .. }) => None,
            (Some(true), StreamPartView::TextDelta { .. }) => Some(true),
            (_, StreamPartView::TextDelta { .. }) => None,
            (Some(true), StreamPartView::TextEnd { .. }) => Some(false),
            (_, StreamPartView::TextEnd { .. }) => None,
            (state, _) => state,
        }),
        reasoning_state(parts.push(part)) == (match (reasoning_state(parts), part) {
            (Some(false), StreamPartView::ReasoningStart { .. }) => Some(true),
            (_, StreamPartView::ReasoningStart { .. }) => None,
            (Some(true), StreamPartView::ReasoningDelta { .. }) => Some(true),
            (_, StreamPartView::ReasoningDelta { .. }) => None,
            (Some(true), StreamPartView::ReasoningEnd { .. }) => Some(false),
            (_, StreamPartView::ReasoningEnd { .. }) => None,
            (state, _) => state,
        }),
        ({
            let (started, ended, made) = call_counts(parts);
            call_counts(parts.push(part)) == (match part {
                StreamPartView::ToolInputStart { .. } => (started + 1, ended, made),
                StreamPartView::ToolInputEnd { .. } => (started, ended + 1, made),
                StreamPartView::ToolCall(_) => (started, ended, made + 1),
                _ => (started, ended, made),
            })
        }),
        is_aside(part) ==> forall|calls: Seq<PartialCallView>, announced: bool|
            accounted(parts, calls, announced) ==> #[trigger] accounted(parts.push(part), calls, announced),
{
    lemma_push(parts, part);
    if is_aside(part) {
        assert forall|calls: Seq<PartialCallView>, announced: bool| accounted(parts, calls, announced) implies
            #[trigger] accounted(parts.push(part), calls, announced) by {
            lemma_account_aside(parts, part, calls, announced);
        }
    }
}

proof fn lemma_close_reasoning(s: RebuildView)
    requires
        in_order(s),
    ensures
        in_order(s.close_reasoning()),
        !s.close_reasoning().reasoning_open,
        s.close_reasoning().text_open == s.text_open,
        s.close_reasoning().calls == s.calls,
        s.close_reasoning().usage == s.usage,
{
    if s.reasoning_open {
        let part = StreamPartView::ReasoningEnd {
            id: reasoning_segment(),
            provider_metadata: None,
        };
        lemma_emit(s.parts, part);
    }
}

proof fn lemma_close_text(s: RebuildView)
    requires
        in_order(s),
    ensures
        in_order(s.close_text()),
        !s.close_text().text_open,
        s.close_text().reasoning_open == s.reasoning_open,
        s.close_text().calls == s.calls,
{
    if s.text_open {
        let part = StreamPartView::TextEnd { id: text_segment(), provider_metadata: None };
        lemma_emit(s.parts, part);
    }
}

proof fn lemma_on_reasoning(s: RebuildView, text: Seq<char>)
    requires
        in_order(s),
    ensures
        in_order(s.on_reasoning(text)),
{
    if text.len() > 0 {
        let id = reasoning_segment();
        let start = StreamPartView::ReasoningStart { id, provider_metadata: None };
        let delta = StreamPartView::ReasoningDelta { id, delta: text, provider_metadata: None };
        lemma_emit(s.parts, start);
        lemma_emit(s.parts.push(start), delta);
        lemma_emit(s.parts, delta);
    }
}

proof fn lemma_on_text(s: RebuildView, text: Seq<char>)
    requires
        in_order(s),
    ensures
        in_order(s.on_text(text)),
{
    if text.len() > 0 {
        lemma_close_reasoning(s);
        let closed = s.close_reasoning();
        let id = text_segment();
        let start = StreamPartView::TextStart { id, provider_metadata: None };
        let delta = StreamPartView::TextDelta { id, delta: text, provider_metadata: None };
        lemma_emit(closed.parts, start);
        lemma_emit(closed.parts.push(start), delta);
        lemma_emit(closed.parts, delta);
    }
}

proof fn lemma_call_place_bounds(calls: Seq<PartialCallView>, index: u64)
    ensures
        0 <= call_place(calls, index) <= calls.len(),
    decreases calls.len(),
{
    if calls.len() > 0 && calls[0].index != index {
        lemma_call_place_bounds(calls.drop_first(), index);
    }
}

proof fn lemma_on_call(s: RebuildView, entry: JsonView)
    requires
        in_order(s),
    ensures
        in_order(s.on_call(entry)),
{
    let after = s.on_call(entry);
    let index = call_index(entry);
    let function = entry.at("function"@);
    let p = call_place(s.calls, index);
    lemma_call_place_bounds(s.calls, index);
    let call = PartialCallView {
        index,
        id: text_at(entry, "id"@),
        name: text_at(function, "name"@),
        arguments: Seq::empty(),
    };
    let start = StreamPartView::ToolInputStart {
        id: call.id,
        tool_name: call.name,
        provider_executed: None,
        dynamic: None,
        title: None,
        provider_metadata: None,
    };
    let is_new = p >= s.calls.len();
    let started = if is_new {
        RebuildView { calls: s.calls.push(call), ..s.emit(start) }
    } else {
        s
    };
    if is_new {
        lemma_emit(s.parts, start);
        lemma_account_start(s.parts, start, s.calls, call, s.metadata_sent);
    }
    assert(in_order(started));
    match function.at("arguments"@).text() {
        Some(arguments) if !is_new || arguments.len() > 0 => {
            let delta = StreamPartView::ToolInputDelta {
                id: started.calls[p].id,
                delta: arguments,
                provider_metadata: None,
            };
            lemma_emit(started.parts, delta);
            lemma_account_delta(started.parts, delta, started.calls, p, s.metadata_sent);
            assert(after.parts == started.parts.push(delta));
        },
        _ => {},
    }
}

proof fn lemma_on_calls(s: RebuildView, entries: Seq<JsonView>)
    requires
        in_order(s),
    ensures
        in_order(s.on_calls(entries)),
    decreases entries.len(),
{
    if entries.len() > 0 {
        lemma_on_calls(s, entries.drop_last());
        lemma_on_call(s.on_calls(entries.drop_last()), entries.last());
    }
}

proof fn lemma_on_choice(s: RebuildView, choice: JsonView)
    requires
        in_order(s),
    ensures
        in_order(s.on_choice(choice)),
{
    let delta = choice.at("delta"@);
    let a = s.on_reasoning(reasoning_text(delta));
    lemma_on_reasoning(s, reasoning_text(delta));
    let b = a.on_text(text_at(delta, "content"@));
    lemma_on_text(a, text_at(delta, "content"@));
    let c = match delta.at("tool_calls"@).items() {
        Some(entries) => {
            lemma_close_reasoning(b);
            lemma_on_calls(b.close_reasoning(), entries);
            b.close_reasoning().on_calls(entries)
        },
        None => b,
    };
    if choice.at("finish_reason"@).text() is Some {
        lemma_close_reasoning(c);
        lemma_close_text(c.close_reasoning());
    }
}

proof fn lemma_on_choices(s: RebuildView, choices: Seq<JsonView>)
    requires
        in_order(s),
    ensures
        in_order(s.on_choices(choices)),
    decreases choices.len(),
{
    if choices.len() > 0 {
        lemma_on_choices(s, choices.drop_last());
        lemma_on_choice(s.on_choices(choices.drop_last()), choices.last());
    }
}

proof fn lemma_on_event(s: RebuildView, event: JsonView)
    requires
        in_order(s),
    ensures
        s.on_event(event) matches Ok(after) ==> in_order(after),
{
    let choices = event.at("choices"@).items();
    let seen = RebuildView { saw_choices: s.saw_choices || choices is Some, ..s };
    let named = seen.on_metadata(event);
    if named.parts.len() == s.parts.len() + 1 {
        let part = named.parts.last();
        assert(named.parts =~= s.parts.push(part));
        lemma_emit(s.parts, part);
        lemma_account_response(s.parts, part, s.calls);
    }
    assert(in_order(named));
    let counted = match usage_of(event) {
        Ok(usage) if !(event.at("usage"@) is Null) => RebuildView { usage, ..named },
        _ => named,
    };
    if let Some(choices) = choices {
        lemma_on_choices(counted, choices);
    }
}

proof fn lemma_on_blocks(s: RebuildView, list: Seq<Seq<char>>)
    requires
        in_order(s),
    ensures
        s.on_blocks(list) matches Ok(after) ==> in_order(after),
    decreases list.len(),
{
    if list.len() > 0 {
        lemma_on_blocks(s, list.drop_last());
        if let Ok(before) = s.on_blocks(list.drop_last()) {
            if let Ok(event) = json_parse(event_data(list.last())) {
                lemma_on_event(before, event);
            }
        }
    }
}

proof fn lemma_nothing_ended(parts: Seq<StreamPartView>, id: Seq<char>)
    requires
        forall|i: int| 0 <= i < parts.len() ==> !(#[trigger] parts[i] is ToolInputEnd) && !(parts[i] is ToolCall),
    ensures
        ends(parts, id) == 0,
        calls_made(parts, id) == 0,
    decreases parts.len(),
{
    if parts.len() > 0 {
        let before = parts.drop_last();
        assert forall|i: int| 0 <= i < before.len() implies !(#[trigger] before[i] is ToolInputEnd) && !(
        before[i] is ToolCall) by {
            assert(before[i] == parts[i]);
        }
        assert(parts.last() == parts[parts.len() - 1]);
        lemma_nothing_ended(before, id);
    }
}

/// Each call that is flushed ends once and is made once.
proof fn lemma_flush_ends(s: RebuildView, calls: Seq<PartialCallView>, id: Seq<char>)
    requires
        in_order(s),
    ensures
        ends(s.flush_calls(calls).parts, id) == with_id(calls, id),
        calls_made(s.flush_calls(calls).parts, id) == with_id(calls, id),
    decreases calls.len(),
{
    if calls.len() == 0 {
        assert forall|i: int| 0 <= i < s.parts.len() implies !(#[trigger] s.parts[i] is ToolInputEnd) && !(
        s.parts[i] is ToolCall) by {
            if i > 0 {
                assert(is_early(s.parts[i]));
            }
        }
        lemma_nothing_ended(s.parts, id);
    } else {
        lemma_flush_ends(s, calls.drop_last(), id);
        let before = s.flush_calls(calls.drop_last()).parts;
        let parts = s.flush_calls(calls).parts;
        let middle = parts.drop_last();
        let call = calls.last();
        assert(middle.drop_last() =~= before);
        assert(middle.last() == StreamPartView::ToolInputEnd { id: call.id, provider_metadata: None });
        assert(ends(middle, id) == with_id(calls, id));
        assert(calls_made(middle, id) == with_id(calls.drop_last(), id));
        assert(parts.last() == StreamPartView::ToolCall(streamed_call(call)));
    }
}

/// Whether the input that ends at `i` is one of these calls, made next.
spec fn ends_as(parts: Seq<StreamPartView>, i: int, calls: Seq<PartialCallView>) -> bool {
    &&& i + 1 < parts.len()
    &&& exists|k: int|
        0 <= k < calls.len() && parts[i] == (StreamPartView::ToolInputEnd {
            id: (#[trigger] calls[k]).id,
            provider_metadata: None,
        }) && parts[i + 1] == StreamPartView::ToolCall(streamed_call(calls[k]))
}

proof fn lemma_flush_calls(s: RebuildView, calls: Seq<PartialCallView>)
    requires
        in_order(s),
        !s.text_open,
        !s.reasoning_open,
    ensures
        ({
            let parts = s.flush_calls(calls).parts;
            &&& parts.len() > 0
            &&& parts[0] is StreamStart
            &&& forall|i: int| 0 < i < parts.len() ==> is_inner(#[trigger] parts[i])
            &&& text_state(parts) == Some(false)
            &&& reasoning_state(parts) == Some(false)
            &&& call_counts(parts) == (s.calls.len(), calls.len(), calls.len())
            &&& accounted(parts, s.calls, s.metadata_sent)
            &&& forall|i: int|
                0 <= i < parts.len() && (#[trigger] parts[i]) is ToolInputEnd ==> ends_as(parts, i, calls)
        }),
    decreases calls.len(),
{
    if calls.len() > 0 {
        lemma_flush_calls(s, calls.drop_last());
        let before = s.flush_calls(calls.drop_last()).parts;
        let parts = s.flush_calls(calls).parts;
        let middle = parts.drop_last();
        assert(middle.drop_last() =~= before);
        lemma_emit(before, middle.last());
        lemma_emit(middle, parts.last());
        assert(middle =~= before.push(middle.last()));
        assert(parts =~= middle.push(parts.last()));
        assert forall|i: int| 0 <= i < parts.len() && (#[trigger] parts[i]) is ToolInputEnd implies ends_as(
            parts,
            i,
            calls,
        ) by {
            if i < before.len() {
                assert(parts[i] == before[i]);
                assert(ends_as(before, i, calls.drop_last()));
                let k = choose|k: int|
                    0 <= k < calls.drop_last().len() && before[i] == (StreamPartView::ToolInputEnd {
                        id: (#[trigger] calls.drop_last()[k]).id,
                        provider_metadata: None,
                    }) && before[i + 1] == StreamPartView::ToolCall(streamed_call(calls.drop_last()[k]));
                assert(calls[k] == calls.drop_last()[k]);
                assert(parts[i + 1] == before[i + 1]);
            } else {
                assert(i == before.len());
                assert(calls[calls.len() - 1] == calls.last());
            }
        }
    }
}

/// A rebuilt stream starts once, at its start, and finishes once, at its end;
/// in between every segment that opens closes, nothing speaks while closed,
/// the response is announced at most once, and every started tool input ends
/// as one call: under each id there are as many starts as ends and calls. The
/// part behind an end is the call of its id; where no other input was started
/// under that id, its argument text is the joined deltas.
pub proof fn law_a_rebuilt_stream_is_well_formed(body: Seq<char>)
    ensures
        stream_of_body(body) matches Ok(parts) ==> {
            &&& parts.len() >= 2
            &&& parts[0] is StreamStart
            &&& parts.last() is Finish
            &&& forall|i: int| 0 < i < parts.len() - 1 ==> is_inner(#[trigger] parts[i])
            &&& text_state(parts) == Some(false)
            &&& reasoning_state(parts) == Some(false)
            &&& call_counts(parts) matches (started, ended, made) && started == ended && ended == made
            &&& forall|id: Seq<char>|
                #![trigger starts(parts, id)]
                #![trigger ends(parts, id)]
                #![trigger calls_made(parts, id)]
                starts(parts, id) == ends(parts, id) && ends(parts, id) == calls_made(parts, id)
            &&& announcements(parts) <= 1
            &&& forall|i: int|
                0 <= i < parts.len() && (#[trigger] parts[i]) is ToolInputEnd ==> becomes_a_call(parts, i)
        },
{
    let s = fresh();
    assert(s.parts =~= Seq::empty().push(s.parts[0]));
    assert(accounted(Seq::empty(), s.calls, false)) by {
        reveal(accounted);
    }
    lemma_emit(Seq::empty(), s.parts[0]);
    lemma_on_blocks(s, blocks(body));
    if let (Ok(read), Ok(parts)) = (s.on_blocks(blocks(body)), stream_of_body(body)) {
        lemma_close_reasoning(read);
        lemma_close_text(read.close_reasoning());
        let closed = read.close_reasoning().close_text();
        lemma_flush_calls(closed, read.calls);
        let before = closed.flush_calls(read.calls).parts;
        assert(parts.drop_last() =~= before);
        assert(parts =~= before.push(parts.last()));
        lemma_emit(before, parts.last());
        assert(accounted(parts, read.calls, closed.metadata_sent));
        reveal(accounted);
        assert forall|id: Seq<char>|
            #![trigger starts(parts, id)]
            #![trigger ends(parts, id)]
            #![trigger calls_made(parts, id)]
            starts(parts, id) == ends(parts, id) && ends(parts, id) == calls_made(parts, id) by {
            lemma_flush_ends(closed, read.calls, id);
            assert(starts(parts, id) == with_id(read.calls, id));
        }
        assert forall|i: int| 0 <= i < parts.len() && (#[trigger] parts[i]) is ToolInputEnd implies becomes_a_call(
            parts,
            i,
        ) by {
            assert(parts[i] == before[i]);
            assert(ends_as(before, i, read.calls));
            let k = choose|k: int|
                0 <= k < read.calls.len() && before[i] == (StreamPartView::ToolInputEnd {
                    id: (#[trigger] read.calls[k]).id,
                    provider_metadata: None,
                }) && before[i + 1] == StreamPartView::ToolCall(streamed_call(read.calls[k]));
            assert(parts[i + 1] == before[i + 1]);
            let id = read.calls[k].id;
            assert(starts(parts, id) == with_id(read.calls, id));
        }
    }
}

/// The items of a stream that brings parts and no failure.
pub open spec fn brought(parts: Seq<StreamPartView>) -> Seq<StreamItemView> {
    Seq::new(parts.len(), |i: int| Ok::<StreamPartView, AiMuxErrorView>(parts[i]))
}

proof fn lemma_reading_parts(parts: Seq<StreamPartView>)
    requires
        forall|i: int| 0 <= i < parts.len() ==> !(#[trigger] parts[i] is Finish) && !(parts[i] is Error),
    ensures
        read_items(brought(parts)) matches Reading::Running(state) && state.error is None && state.finish is None,
    decreases parts.len(),
{
    if parts.len() > 0 {
        let before = parts.drop_last();
        assert forall|i: int| 0 <= i < before.len() implies !(#[trigger] before[i] is Finish) && !(
        before[i] is Error) by {
            assert(before[i] == parts[i]);
        }
        lemma_reading_parts(before);
        assert(brought(parts).drop_last() =~= brought(before));
        assert(parts[parts.len() - 1] == parts.last());
    }
}

/// A rebuilt stream, when it is read, amounts to a result.
pub proof fn law_a_rebuilt_stream_can_be_read(body: Seq<char>)
    ensures
        stream_of_body(body) matches Ok(parts) ==> aggregated(brought(parts)) is Ok,
{
    law_a_rebuilt_stream_is_well_formed(body);
    if let Ok(parts) = stream_of_body(body) {
        let before = parts.drop_last();
        assert forall|i: int| 0 <= i < before.len() implies !(#[trigger] before[i] is Finish) && !(
        before[i] is Error) by {
            if i > 0 {
                assert(is_inner(parts[i]));
            }
        }
        lemma_reading_parts(before);
        assert(brought(parts).drop_last() =~= brought(before));
    }
}

/// Nothing behind a finish is read: what a stream amounts to is decided by
/// its items up to the first that ends it.
pub proof fn law_reading_stops_at_the_end(items: Seq<StreamItemView>, n: int)
    requires
        0 <= n < items.len(),
        is_terminal(items[n]),
    ensures
        aggregated(items) == aggregated(items.take(n + 1)),
        said(items) == said(items.take(n + 1)),
{
    let head = items.take(n + 1);
    assert(head.last() == items[n]);
    lemma_ended(items, n + 1);
}

proof fn lemma_error_stays(items: Seq<StreamItemView>)
    requires
        items.len() > 0,
    ensures
        (read_items(items.drop_last()), read_items(items)) matches (
            Reading::Running(before),
            Reading::Running(after),
        ) ==> (before.error is Some ==> after.error == before.error),
        (read_items(items.drop_last()), read_items(items)) matches (
            Reading::Running(before),
            Reading::Finished(after),
        ) ==> (before.error is Some ==> after.error == before.error),
{
}

proof fn lemma_first_error(items: Seq<StreamItemView>, n: int)
    requires
        0 < n <= items.len(),
        read_items(items.take(n)) matches Reading::Running(state) && state.error is Some,
    ensures
        match read_items(items) {
            Reading::Running(state) => state.error == read_items(items.take(n))->Running_0.error,
            Reading::Finished(state) => state.error == read_items(items.take(n))->Running_0.error,
            Reading::Failed(_) => true,
        },
    decreases items.len(),
{
    if n < items.len() {
        assert(items.drop_last().take(n) =~= items.take(n));
        lemma_first_error(items.drop_last(), n);
        lemma_error_stays(items);
    } else {
        assert(items.take(n) =~= items);
    }
}

/// An error that the stream reported wins over everything behind it: a
/// finish does not turn it into a success.
pub proof fn law_a_reported_error_wins(items: Seq<StreamItemView>, n: int, error: AiMuxErrorView)
    requires
        0 <= n < items.len(),
        read_items(items.take(n)) matches Reading::Running(state) && state.error is None,
        items[n] == Ok::<StreamPartView, AiMuxErrorView>(StreamPartView::Error { error }),
    ensures
        aggregated(items) is Err,
        (forall|k: int| n < k < items.len() ==> !(#[trigger] items[k] is Err)) ==> aggregated(items)
            == Err::<AggregatedView, AiMuxErrorView>(error),
{
    let head = items.take(n + 1);
    assert(head.drop_last() =~= items.take(n));
    assert(head.last() == items[n]);
    lemma_first_error(items, n + 1);
    if forall|k: int| n < k < items.len() ==> !(#[trigger] items[k] is Err) {
        lemma_no_failure(items, n + 1);
    }
}

proof fn lemma_no_failure(items: Seq<StreamItemView>, n: int)
    requires
        0 <= n <= items.len(),
        !(read_items(items.take(n)) is Failed),
        forall|k: int| n <= k < items.len() ==> !(#[trigger] items[k] is Err),
    ensures
        !(read_items(items) is Failed),
    decreases items.len(),
{
    if n < items.len() {
        assert(items.drop_last().take(n) =~= items.take(n));
        assert forall|k: int| n <= k < items.len() - 1 implies !(#[trigger] items.drop_last()[k] is Err) by {
            assert(!(items[k] is Err));
        }
        lemma_no_failure(items.drop_last(), n);
        assert(!(items[items.len() - 1] is Err));
    } else {
        assert(items.take(n) =~= items);
    }
}

proof fn lemma_silent(items: Seq<StreamItemView>)
    requires
        forall|k: int|
            0 <= k < items.len() ==> ((#[trigger] items[k]) matches Ok(part) && !is_output(part) && !(
            part is Finish) && !(part is Error)),
    ensures
        read_items(items) matches Reading::Running(state) && state.error is None && state.finish is None
            && !state.saw_output,
    decreases items.len(),
{
    if items.len() > 0 {
        assert forall|k: int| 0 <= k < items.len() - 1 implies ((#[trigger] items.drop_last()[k]) matches Ok(
            part,
        ) && !is_output(part) && !(part is Finish) && !(part is Error)) by {
            assert(items[k] is Ok);
        }
        lemma_silent(items.drop_last());
        assert(items[items.len() - 1] is Ok);
    }
}

/// A stream that ends without output and without a finish is an error.
pub proof fn law_a_silent_stream_is_an_error(items: Seq<StreamItemView>)
    requires
        forall|k: int|
            0 <= k < items.len() ==> ((#[trigger] items[k]) matches Ok(part) && !is_output(part) && !(
            part is Finish) && !(part is Error)),
    ensures
        aggregated(items) == Err::<AggregatedView, AiMuxErrorView>(nothing_generated()),
{
    lemma_silent(items);
}

/// A stream that broke off after some output is kept, and is not said to have
/// stopped normally.
pub proof fn law_a_broken_off_stream_is_kept(state: AggregateView)
    requires
        state.error is None,
        state.finish is None,
        state.saw_output,
    ensures
        concluded(state) matches Ok(result) && result.text == state.text && result.finish_reason.unified
            is Other,
{
}

} // verus!
