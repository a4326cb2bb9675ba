//! How an operation runs between its driver and its host, and what a repair of
//! its result changes.
use crate::answer_laws::retold_call;
use crate::error::{AiMuxError, AiMuxErrorView};
use crate::generate_options::{GenerateOptionsView, GenerateTextOptions};
use crate::generation_control::ControlView;
use crate::json::{Json, JsonView};
use crate::operation::{
    driven, fresh_operation, openai_stream_options, openai_stream_options_of, part_of_item, stream_options, AnswerView,
    OpenAiStreamOptions, OperationView, ReadView, SendView, Terminal,
};
use crate::parse_tool_call::{applied, RepairContextView, RepairOutcomeView};
use crate::protocol::{core_answer, host_context, refusal, EventView, Lane, NextView, ReplyView};
use crate::repair_result::{
    has_id, id_elsewhere, patched_messages, patched_part, patched_parts, patched_result, patched_target, slot_of,
};
use crate::stream_part::{item_view, StreamItem, StreamPart, StreamPartView};
use crate::text::decimal;
use crate::tool::{ToolCallView, ToolView};
use crate::wire::call_doc;
use crate::wire_laws::group_members;
use crate::wire_read::read_call;
use vstd::prelude::*;

verus! {

// Operations.

/// An operation starts with nothing sent, asked, answered or claimed, and has
/// not ended.
pub proof fn law_an_operation_starts_empty(control: ControlView)
    ensures
        ({
            let s = fresh_operation(control);
            &&& s.terminal is None
            &&& !s.terminal_read
            &&& s.output.len() == 0
            &&& s.pending is None
            &&& s.answer is None
            &&& !s.control_claimed && !s.output_claimed
            &&& s.control == control
            &&& s.next_id == 1
        }),
{
}

/// Ending an operation that has not ended ends it with that result. A success
/// keeps what was sent, a failure drops it; the request that waits is dropped
/// either way, and nothing else changes.
pub proof fn law_what_an_end_does(s: OperationView, result: Terminal)
    requires
        s.terminal is None,
    ensures
        ({
            let after = s.finished(result);
            &&& after.terminal == Some(result)
            &&& result is Ok ==> after.output == s.output
            &&& result is Err ==> after.output.len() == 0
            &&& after.pending is None
            &&& after.answer == s.answer
            &&& after.next_id == s.next_id
            &&& after.terminal_read == s.terminal_read
            &&& after.control_claimed == s.control_claimed && after.output_claimed == s.output_claimed
            &&& after.control == s.control
        }),
{
}

/// A stop ends an operation with its error; without one nothing changes.
pub proof fn law_a_stop_ends_an_operation(s: OperationView, aborted: bool, now: u64)
    requires
        s.terminal is None,
    ensures
        s.control.failure(aborted, now) matches Some(error) ==> s.observed(aborted, now).terminal == Some(
            Err::<(), AiMuxErrorView>(error),
        ),
        s.control.failure(aborted, now) is None ==> s.observed(aborted, now) == s,
{
}

/// An event is taken behind those that wait, as long as there is room and the
/// operation goes on; a full queue is waited for unless the generation has to
/// stop.
pub proof fn law_when_an_event_is_taken(s: OperationView, event: EventView, aborted: bool, now: u64)
    ensures
        ({
            let (after, step) = s.sent(event, aborted, now);
            &&& step is Sent <==> s.terminal is None && s.output.len() < 64
            &&& step is Sent ==> after == (OperationView { output: s.output.push(event), ..s })
            &&& !(step is Sent) ==> after == s
            &&& step is Full <==> s.terminal is None && s.output.len() >= 64 && s.control.failure(aborted, now) is None
            &&& s.terminal is None ==> (step matches SendView::Refused(error) ==> s.control.failure(aborted, now)
                == Some(error))
            &&& s.terminal matches Some(Err(error)) ==> step == SendView::Refused(error)
            &&& s.terminal matches Some(Ok(_)) ==> step is Refused
        }),
{
}

/// A request for a repair waits under the next number, which is its id, and
/// tells the host what a callback would be told; while one waits, or once the
/// operation ended, none is made.
pub proof fn law_when_a_repair_is_asked_for(s: OperationView, context: RepairContextView)
    ensures
        ({
            let (after, r) = s.asked(context);
            &&& r is Ok <==> s.terminal is None && s.pending is None && s.next_id < u64::MAX
            &&& r is Err ==> after == s
            &&& r matches Ok(id) ==> {
                &&& id == s.next_id
                &&& after.next_id == id + 1
                &&& after.pending matches Some(pending)
                &&& pending.id == id
                &&& pending.request matches Some(EventView::RepairRequest { request_id, context: told })
                &&& request_id == decimal(id as nat)
                &&& told == host_context(context)
                &&& after.output == s.output && after.terminal == s.terminal && after.answer == s.answer
            }
            &&& s.terminal matches Some(Err(error)) ==> r == Err::<u64, AiMuxErrorView>(error)
        }),
{
}

/// A driver gets the reply to its own request, once; it waits while the request
/// does, and is told why where neither is there.
pub proof fn law_what_a_driver_hears(s: OperationView, id: u64, aborted: bool, now: u64)
    ensures
        ({
            let (after, heard) = s.awaited(id, aborted, now);
            let answered = s.answer matches Some((own, _)) && own == id;
            let waits = s.pending matches Some(pending) && pending.id == id;
            &&& answered ==> after == (OperationView { answer: None, ..s }) && heard == AnswerView::Answered(
                core_answer((s.answer->0).1),
            )
            &&& !answered ==> after == s
            &&& !answered && waits ==> heard is Wait
            &&& !answered && !waits ==> (heard matches AnswerView::Answered(Err(error)) && (s.control.failure(
                aborted,
                now,
            ) matches Some(stop) ==> error == stop))
        }),
{
}

/// Reading takes one thing at most: the request that waits, where the lane
/// shows control; else the oldest event, where it shows output; else the end.
/// An error of the end is told once, and only where output is read.
pub proof fn law_what_a_reader_gets(s: OperationView, lane: Lane)
    requires
        s.wf(),
    ensures
        ({
            let (after, read) = s.read(lane);
            let asks = s.pending matches Some(pending) && pending.request is Some;
            let shows_control = lane is Control || lane is Any;
            let shows_output = lane is Output || lane is Any;
            &&& shows_control && asks ==> {
                &&& read == ReadView::Ready(NextView::Event(s.pending->0.request->0))
                &&& after.output == s.output
                &&& after.pending matches Some(pending) && pending.id == s.pending->0.id && pending.request is None
            }
            &&& !(shows_control && asks) && shows_output && s.output.len() > 0 ==> {
                &&& read == ReadView::Ready(NextView::Event(s.output[0]))
                &&& after == (OperationView { output: s.output.drop_first(), ..s })
            }
            &&& !(shows_control && asks) && !(shows_output && s.output.len() > 0) && s.terminal is None ==> {
                &&& read is Wait
                &&& after == s
            }
            &&& shows_output && !asks && s.output.len() == 0
                && !s.terminal_read ==> (s.terminal matches Some(Err(error))
                ==> read == ReadView::Failed(error) && after.terminal_read)
            &&& !shows_output && s.terminal is Some ==> read == ReadView::Ready(NextView::Ended) && after == s
        }),
{
}

/// What becomes of a reply: an ended operation takes none; the request that
/// waits is answered by its id; an id that was given out and does not wait was
/// answered before; any other is unknown.
pub proof fn law_what_becomes_of_a_reply(s: OperationView, request_id: Seq<char>, id: u64, reply: ReplyView, now: u64)
    requires
        s.wf(),
        s.control.failure(false, now) is None,
    ensures
        ({
            let (after, status) = s.replied(request_id, reply, false, now);
            &&& s.terminal is Some <==> status is OperationEnded
            &&& s.terminal is None ==> (s.pending matches Some(pending) ==> (request_id == decimal(pending.id as nat)
                <==> status is Accepted))
            &&& s.pending is None ==> !(status is Accepted)
            &&& status is Accepted ==> after == (OperationView {
                pending: None,
                answer: Some((s.pending->0.id, reply)),
                ..s
            })
            &&& !(status is Accepted) ==> after == s
            &&& s.terminal is None && 1 <= id < s.next_id && request_id == decimal(id as nat) ==> !(status
                is UnknownRequest)
            &&& s.terminal is None && status is AlreadyReplied ==> exists|k: u64|
                1 <= k < s.next_id && request_id == #[trigger] decimal(k as nat)
        }),
{
    if s.pending is Some {
        let own = s.pending->0.id;
        assert(1 <= own < s.next_id);
        assert(decimal(own as nat) == decimal(own as nat));
    }
    assert(decimal(id as nat) == decimal(id as nat));
}

/// The generation of an operation runs with the options that were asked for,
/// under the operation's control and signal.
pub proof fn law_an_operation_drives_what_was_asked(options: GenerateOptionsView, control: ControlView)
    ensures
        ({
            let d = driven(options, control);
            &&& d.operation_control == Some(control)
            &&& d.abort_signal == control.signal
            &&& d == (GenerateOptionsView {
                operation_control: d.operation_control,
                abort_signal: d.abort_signal,
                ..options
            })
        }),
{
}

/// A request is refused unless its protocol is the one that is spoken and its
/// options hold nothing that is no data; the refusal is an invalid argument.
pub proof fn law_what_is_refused(protocol_version: u32, options: JsonView)
    ensures
        refusal(protocol_version, options) is None <==> {
            &&& protocol_version == 1
            &&& options.field("repair_tool_call"@) is None
            &&& options.field("repairToolCall"@) is None
            &&& options.field("abort_signal"@) is None
        },
        refusal(protocol_version, options) matches Some(error) ==> error is InvalidArgument,
{
}

/// Whether a flag of a document is set: it is, unless it says that it is not.
pub open spec fn is_set_unless_denied(doc: JsonView, name: Seq<char>, r: bool) -> bool {
    !r <==> doc.at(name) == JsonView::Bool(false)
}

/// The chunks of a stream carry usage and reasoning, each unless it is denied
/// under its own name.
pub proof fn law_stream_flags(opts: Json, r: OpenAiStreamOptions)
    requires
        call_ensures(openai_stream_options_of, (&opts,), r),
    ensures
        ({
            let own = opts@.at("openai_stream_options"@);
            let shared = opts@.at("provider_options"@).at("openai"@).at("stream_options"@);
            let doc = if own is Object {
                own
            } else {
                shared
            };
            &&& is_set_unless_denied(doc, "include_usage"@, r.include_usage)
            &&& is_set_unless_denied(doc, "include_reasoning"@, r.include_reasoning)
        }),
{
}

/// The same of the provider options of a generation.
pub proof fn law_provider_stream_flags(options: GenerateTextOptions, r: OpenAiStreamOptions)
    requires
        call_ensures(openai_stream_options, (&options,), r),
    ensures
        options@.provider_options is None ==> r.include_usage && r.include_reasoning,
        options@.provider_options matches Some(fields) ==> {
            let doc = JsonView::Object(fields).at("openai"@).at("stream_options"@);
            &&& is_set_unless_denied(doc, "include_usage"@, r.include_usage)
            &&& is_set_unless_denied(doc, "include_reasoning"@, r.include_reasoning)
        },
{
}

/// An item is handed to a host as its part; a malformed frame as an error part,
/// and any other failure as the end.
pub proof fn law_the_part_of_an_item(item: StreamItem, made: Result<StreamPart, AiMuxError>)
    requires
        call_ensures(part_of_item, (item,), made),
    ensures
        item_view(item) matches Ok(part) ==> (made matches Ok(p) && p@ == part),
        item_view(item) matches Err(error) ==> (error is JsonParse ==> (made matches Ok(p) && p@
            == (StreamPartView::Error { error }))),
        item_view(item) matches Err(error) ==> (!(error is JsonParse) ==> (made matches Err(e) && e@ == error)),
{
}

// Repaired results.

/// Whether an entry is the call of an id.
pub open spec fn is_call_of(entry: JsonView, id: Seq<char>) -> bool {
    entry.at("tool_call_id"@) == JsonView::String(id)
}

/// Whether `p` is the one place of the call of an id.
pub open spec fn is_only_place(calls: Seq<JsonView>, id: Seq<char>, p: int) -> bool {
    &&& 0 <= p < calls.len()
    &&& is_call_of(calls[p], id)
    &&& forall|k: int| 0 <= k < calls.len() && k != p ==> !is_call_of(#[trigger] calls[k], id)
}

proof fn lemma_has_id(entry: JsonView, id: Seq<char>)
    ensures
        has_id(entry, id) == is_call_of(entry, id),
{
}

proof fn lemma_place_found(calls: Seq<JsonView>, id: Seq<char>)
    ensures
        0 <= slot_of(calls, id) <= calls.len(),
        slot_of(calls, id) < calls.len() ==> is_call_of(calls[slot_of(calls, id)], id),
        forall|k: int| 0 <= k < slot_of(calls, id) ==> !is_call_of(#[trigger] calls[k], id),
    decreases calls.len(),
{
    if calls.len() > 0 && !has_id(calls[0], id) {
        lemma_place_found(calls.drop_first(), id);
        assert forall|k: int| 0 <= k < slot_of(calls, id) implies !is_call_of(#[trigger] calls[k], id) by {
            if k > 0 {
                assert(calls[k] == calls.drop_first()[k - 1]);
            }
        }
    }
}

/// A result is repaired only where its call of that id is there, once, and
/// reads as a call that the answer applies to; the repaired call's id must not
/// be that of another call. Every other result is refused.
pub proof fn law_when_a_result_is_repaired(
    target: JsonView,
    tools: Option<Seq<ToolView>>,
    id: Seq<char>,
    outcome: RepairOutcomeView,
    said: Seq<char>,
    p: int,
)
    ensures
        !(target.at("tool_calls"@) is Array) ==> (patched_target(target, tools, id, outcome, said) matches Err(error)
            && error is InvalidArgument),
        target.at("tool_calls"@) matches JsonView::Array(calls) ==> (patched_target(target, tools, id, outcome, said)
            is Ok ==> exists|q: int| #[trigger] is_only_place(calls, id, q)),
        target.at("tool_calls"@) matches JsonView::Array(calls) ==> (is_only_place(calls, id, p) ==> (match read_call(
            calls[p],
        ) {
            Err(_) => patched_target(target, tools, id, outcome, said) matches Err(error) && error is InvalidArgument,
            Ok(original) => match applied(original, tools, outcome, said) {
                Err(error) => patched_target(target, tools, id, outcome, said) == Err::<JsonView, AiMuxErrorView>(
                    error,
                ),
                Ok(call) => patched_target(target, tools, id, outcome, said) is Ok <==> forall|k: int|
                    0 <= k < calls.len() && k != p ==> !is_call_of(#[trigger] calls[k], call.tool_call_id),
            },
        })),
{
    if let JsonView::Array(calls) = target.at("tool_calls"@) {
        lemma_place_found(calls, id);
        let q = slot_of(calls, id);
        if patched_target(target, tools, id, outcome, said) is Ok {
            assert forall|k: int| 0 <= k < calls.len() && k != q implies !is_call_of(#[trigger] calls[k], id) by {
                if is_call_of(calls[k], id) {
                    assert(has_id(calls[k], id));
                    assert(id_elsewhere(calls, q, id));
                }
            }
            assert(is_only_place(calls, id, q));
        }
        if is_only_place(calls, id, p) {
            if q < p {
                assert(is_call_of(calls[q], id));
            }
            assert(q == p);
            assert(!id_elsewhere(calls, p, id)) by {
                if id_elsewhere(calls, p, id) {
                    let j = choose|j: int| 0 <= j < calls.len() && j != p && has_id(#[trigger] calls[j], id);
                    assert(is_call_of(calls[j], id));
                }
            }
            if let Ok(original) = read_call(calls[p]) {
                if let Ok(call) = applied(original, tools, outcome, said) {
                    if id_elsewhere(calls, p, call.tool_call_id) {
                        let j = choose|j: int|
                            0 <= j < calls.len() && j != p && has_id(#[trigger] calls[j], call.tool_call_id);
                        assert(is_call_of(calls[j], call.tool_call_id));
                    } else {
                        assert forall|k: int| 0 <= k < calls.len() && k != p implies !is_call_of(
                            #[trigger] calls[k],
                            call.tool_call_id,
                        ) by {
                            if is_call_of(calls[k], call.tool_call_id) {
                                assert(has_id(calls[k], call.tool_call_id));
                            }
                        }
                    }
                }
            }
        }
    }
}

/// A repaired result holds the repaired call in the place of the one of that
/// id, and every other call as it was.
pub proof fn law_a_repaired_result_holds_the_repaired_call(
    target: JsonView,
    tools: Option<Seq<ToolView>>,
    id: Seq<char>,
    outcome: RepairOutcomeView,
    said: Seq<char>,
    p: int,
    k: int,
)
    requires
        patched_target(target, tools, id, outcome, said) is Ok,
        is_only_place(target.at("tool_calls"@)->Array_0, id, p),
        0 <= k < target.at("tool_calls"@)->Array_0.len(),
    ensures
        ({
            let calls = target.at("tool_calls"@)->Array_0;
            let patched = patched_target(target, tools, id, outcome, said)->Ok_0;
            let call = applied(read_call(calls[p])->Ok_0, tools, outcome, said)->Ok_0;
            &&& patched.at("tool_calls"@) matches JsonView::Array(after)
            &&& after.len() == calls.len()
            &&& after[p] == call_doc(call)
            &&& k != p ==> after[k] == calls[k]
        }),
{
    broadcast use group_members;

    let calls = target.at("tool_calls"@)->Array_0;
    lemma_place_found(calls, id);
    let q = slot_of(calls, id);
    if q < p {
        assert(is_call_of(calls[q], id));
    }
    reveal_strlit("tool_calls");
    reveal_strlit("response_messages");
    assert("tool_calls"@.len() == 10 && "response_messages"@.len() == 17);
}

/// The transcript of a repaired result keeps its messages and their parts, one
/// by one; a message is touched in its list of parts only, and a part only
/// where it is the call of that id. Such a part then names the repaired call and
/// its input as the next turn is told of it.
pub proof fn law_a_repaired_transcript_tells_the_repaired_call(
    messages: Seq<JsonView>,
    id: Seq<char>,
    call: ToolCallView,
    i: int,
    j: int,
    key: Seq<char>,
)
    requires
        0 <= i < messages.len(),
    ensures
        patched_messages(messages, id, call).len() == messages.len(),
        ({
            let before = messages[i];
            let after = patched_messages(messages, id, call)[i];
            &&& key != "content"@ ==> after.field(key) == before.field(key)
            &&& !(before.at("content"@) is Array) ==> after == before
            &&& before.at("content"@) matches JsonView::Array(parts) ==> {
                &&& after.at("content"@) matches JsonView::Array(told)
                &&& told.len() == parts.len()
                &&& 0 <= j < parts.len() ==> {
                    let is_its = parts[j].at("type"@) == JsonView::String("tool_call"@) && is_call_of(parts[j], id);
                    &&& !is_its ==> told[j] == parts[j]
                    &&& is_its ==> {
                        &&& told[j].at("tool_call_id"@) == JsonView::String(call.tool_call_id)
                        &&& told[j].at("tool_name"@) == JsonView::String(call.tool_name)
                        &&& told[j].at("input"@) == retold_call(call)->ToolCall_input
                        &&& key != "tool_call_id"@ && key != "tool_name"@ && key != "input"@ ==> told[j].field(key)
                            == parts[j].field(key)
                    }
                }
            }
        }),
{
    broadcast use group_members;

    reveal_strlit("tool_call_id");
    reveal_strlit("tool_name");
    reveal_strlit("input");
    assert("tool_call_id"@.len() == 12 && "tool_name"@.len() == 9 && "input"@.len() == 5);
    assert(crate::wire::no_fields() =~= seq![]);
    if let JsonView::Array(parts) = messages[i].at("content"@) {
        if 0 <= j < parts.len() {
            assert(patched_parts(parts, id, call)[j] == patched_part(parts[j], id, call));
        }
    }
}

/// Whether a repair is of the result itself or of the text result inside it is
/// told by where the calls are.
pub proof fn law_where_a_result_is_repaired(
    result: JsonView,
    tools: Option<Seq<ToolView>>,
    id: Seq<char>,
    outcome: RepairOutcomeView,
    said: Seq<char>,
)
    ensures
        result.field("tool_calls"@) is Some ==> patched_result(result, tools, id, outcome, said) == patched_target(
            result,
            tools,
            id,
            outcome,
            said,
        ),
        result.field("tool_calls"@) is None && result.field("raw"@) is Some ==> (patched_result(
            result,
            tools,
            id,
            outcome,
            said,
        ) is Ok <==> patched_target(result.at("raw"@), tools, id, outcome, said) is Ok),
        result.field("tool_calls"@) is None && result.field("raw"@) is None ==> patched_result(
            result,
            tools,
            id,
            outcome,
            said,
        ) is Err,
{
}

} // verus!
