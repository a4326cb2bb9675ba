//! Which recording answers a call, and what it answers.
use crate::error::AiMuxError;
use crate::json::{same_float, Json, JsonView, NumberView};
use crate::json_text::json_print;
use crate::message::{prompt_view, ContentPartView, LanguageModelPromptMessage, PromptMessageView};
use crate::options::{CallOptions, CallOptionsView, ResponseFormatView};
use crate::recording::{HttpExchange, Recording, ResponseRecord};
use crate::replay::{
    common_messages, exact_ranks, kept_lines, last_response, lemma_last_success, lemma_winner, match_score,
    message_text, message_words, prefix_ranks, rebuild_generate_result, rebuild_stream_result, same_message,
    same_option, same_part, score, score_ranks, succeeded, ExactMatcher, PrefixMatcher, ReplayMatcher, ScoreMatcher,
};
use crate::replay_keys::{
    call_key, count_doc, fields_doc, format_doc, keys_match, prompt_doc, real_doc, recording_key, redaction_aware_eq,
    set_doc, stands_for,
};
use crate::replay_stream::stream_of_body;
use crate::replay_wire::generate_of_body;
use crate::result::GenerateResult;
use crate::stream_part::{stream_view, StreamPart};
use crate::text::{law_blank_texts_are_trimmed_to_nothing, lemma_shared_prefix_is};
use crate::tool::ToolChoiceView;
use crate::wire::{choice_doc, pairs_doc, parts_doc};
use crate::wire_laws::group_members;
use vstd::prelude::*;
use vstd::utf8::encode_utf8;

verus! {

// Prompts.

/// Content parts are the same only when they are of one kind and say the same.
pub proof fn law_the_same_part_says_the_same(a: ContentPartView, b: ContentPartView)
    requires
        same_part(a, b),
    ensures
        match (a, b) {
            (ContentPartView::Text { text, provider_options }, ContentPartView::Text { text: t, provider_options: o })
                => text == t && same_option(provider_options, o),
            (
                ContentPartView::Reasoning { text, provider_options },
                ContentPartView::Reasoning { text: t, provider_options: o },
            ) => text == t && same_option(provider_options, o),
            (ContentPartView::ToolCall { .. }, ContentPartView::ToolCall { .. }) => {
                &&& a->ToolCall_tool_call_id == b->ToolCall_tool_call_id
                &&& a->ToolCall_tool_name == b->ToolCall_tool_name
                &&& a->ToolCall_input.same(b->ToolCall_input)
                &&& a->ToolCall_provider_executed == b->ToolCall_provider_executed
                &&& a->ToolCall_thought_signature == b->ToolCall_thought_signature
                &&& same_option(a->ToolCall_provider_options, b->ToolCall_provider_options)
            },
            (ContentPartView::ToolResult { .. }, ContentPartView::ToolResult { .. }) => {
                &&& a->ToolResult_tool_call_id == b->ToolResult_tool_call_id
                &&& a->ToolResult_tool_name == b->ToolResult_tool_name
                &&& a->ToolResult_output.same(b->ToolResult_output)
                &&& a->ToolResult_is_error == b->ToolResult_is_error
                &&& same_option(a->ToolResult_provider_options, b->ToolResult_provider_options)
            },
            (ContentPartView::Media { document }, ContentPartView::Media { document: d }) => document.same(d),
            _ => false,
        },
{
}

/// Texts that say the same are the same part, as are media of the same
/// document; options that are not there are the same.
pub proof fn law_what_says_the_same_is_the_same_part(text: Seq<char>, a: JsonView, b: JsonView)
    ensures
        same_part(
            ContentPartView::Text { text, provider_options: None },
            ContentPartView::Text { text, provider_options: None },
        ),
        same_part(
            ContentPartView::Reasoning { text, provider_options: None },
            ContentPartView::Reasoning { text, provider_options: None },
        ),
        a.same(b) ==> same_part(ContentPartView::Media { document: a }, ContentPartView::Media { document: b }),
        same_option(Some(a), Some(b)) <==> a.same(b),
        same_option(None, None),
        !same_option(Some(a), None) && !same_option(None, Some(b)),
{
}

/// Messages are the same when they have one role and the same parts, one by
/// one, and only then.
pub proof fn law_the_same_message_has_the_same_parts(a: PromptMessageView, b: PromptMessageView)
    ensures
        same_message(a, b) <==> {
            &&& a.role == b.role
            &&& a.content.len() == b.content.len()
            &&& forall|i: int| 0 <= i < a.content.len() ==> same_part(#[trigger] a.content[i], b.content[i])
        },
{
}

/// Whether two prompts share exactly their first `n` messages.
pub open spec fn shares(a: Seq<PromptMessageView>, b: Seq<PromptMessageView>, n: int) -> bool {
    &&& 0 <= n <= a.len()
    &&& n <= b.len()
    &&& forall|k: int| 0 <= k < n ==> same_message(#[trigger] a[k], b[k])
    &&& n < a.len() && n < b.len() ==> !same_message(a[n], b[n])
}

proof fn lemma_shares(a: Seq<PromptMessageView>, b: Seq<PromptMessageView>)
    ensures
        shares(a, b, common_messages(a, b) as int),
    decreases a.len(),
{
    if a.len() > 0 && b.len() > 0 && same_message(a[0], b[0]) {
        lemma_shares(a.drop_first(), b.drop_first());
        let n = common_messages(a, b) as int;
        assert forall|k: int| 0 <= k < n implies same_message(#[trigger] a[k], b[k]) by {
            if k > 0 {
                assert(same_message(a.drop_first()[k - 1], b.drop_first()[k - 1]));
            }
        }
        if n < a.len() && n < b.len() {
            assert(a.drop_first()[n - 1] == a[n]);
            assert(b.drop_first()[n - 1] == b[n]);
        }
    }
}

/// The messages that two prompts share are all those before the first that
/// differ.
pub proof fn law_shared_messages_come_first(a: Seq<PromptMessageView>, b: Seq<PromptMessageView>, n: int)
    ensures
        shares(a, b, common_messages(a, b) as int),
        shares(a, b, n) ==> n == common_messages(a, b),
{
    lemma_shares(a, b);
    let m = common_messages(a, b) as int;
    if shares(a, b, n) {
        if n < m {
            assert(same_message(a[n], b[n]));
        }
        if m < n {
            assert(same_message(a[m], b[m]));
        }
    }
}

/// What a message says for the sake of comparison: its first part where that is
/// a text, or all its content in print.
pub proof fn law_what_a_message_says(message: LanguageModelPromptMessage, r: String)
    requires
        call_ensures(message_text, (&message,), r),
    ensures
        message@.content.len() > 0 ==> (message@.content[0] matches ContentPartView::Text { text, .. } ==> r@
            == text),
        !(message@.content.len() > 0 && message@.content[0] is Text) ==> r@ == json_print(
            parts_doc(message@.content),
        ),
{
}

// Scores.

/// Whether two sequences agree in exactly their first `n` items.
pub open spec fn agree<T>(a: Seq<T>, b: Seq<T>, n: int) -> bool {
    &&& 0 <= n <= a.len()
    &&& n <= b.len()
    &&& forall|k: int| 0 <= k < n ==> #[trigger] a[k] == b[k]
    &&& n < a.len() && n < b.len() ==> a[n] != b[n]
}

/// Whether a recorded temperature is the one that is asked for.
pub open spec fn is_as_warm(asked: Option<Seq<char>>, options: JsonView) -> bool {
    match (asked, options.at("temperature"@)) {
        (Some(text), JsonView::Number(n)) => same_float(text, n.as_float()),
        (None, JsonView::Number(_)) => false,
        (Some(_), _) => false,
        (None, _) => true,
    }
}

/// A recording scores a hundred for each message that it shares with the call,
/// and one for each byte that the first differing messages share, or the last
/// where none differ; the same temperature adds one to a score that is there.
pub proof fn law_what_a_recording_scores(
    prompt: Seq<PromptMessageView>,
    temperature: Option<Seq<char>>,
    recorded: Seq<PromptMessageView>,
    options: JsonView,
    n: int,
    k: int,
    bytes: int,
)
    requires
        shares(prompt, recorded, n),
        0 <= k < prompt.len(),
        k < recorded.len(),
        n < prompt.len() && n < recorded.len() ==> k == n,
        n == prompt.len() || n == recorded.len() ==> k == n - 1,
        agree(encode_utf8(message_words(prompt[k])), encode_utf8(message_words(recorded[k])), bytes),
    ensures
        ({
            let base = 100 * n + bytes;
            score(prompt, temperature, recorded, options) == (if base == 0 {
                0
            } else if is_as_warm(temperature, options) {
                base + 1
            } else {
                base
            })
        }),
{
    law_shared_messages_come_first(prompt, recorded, n);
    lemma_shared_prefix_is(
        encode_utf8(message_words(prompt[k])),
        encode_utf8(message_words(recorded[k])),
        bytes,
    );
}

/// The score of a recording is that of its prompt and its options.
pub proof fn law_a_score_is_of_prompt_and_temperature(options: CallOptions, rec: Recording, r: u128)
    requires
        call_ensures(match_score, (&options, &rec), r),
    ensures
        r == score(
            prompt_view(options.prompt@),
            crate::sampling::real_view(options.temperature),
            prompt_view(rec.input.prompt@),
            rec.input.options@,
        ),
{
}

// Keys.

proof fn lemma_key_names()
    ensures
        "prompt"@.len() == 6,
        "temperature"@.len() == 11,
        "temperature"@[1] == 'e',
        "max_output_tokens"@.len() == 17,
        "seed"@.len() == 4,
        "response_format"@.len() == 15,
        "tools"@.len() == 5,
        "tool_choice"@.len() == 11,
        "tool_choice"@[1] == 'o',
        "headers"@.len() == 7,
        "provider_options"@.len() == 16,
        "body_overrides"@.len() == 14,
{
    reveal_strlit("prompt");
    reveal_strlit("temperature");
    reveal_strlit("max_output_tokens");
    reveal_strlit("seed");
    reveal_strlit("response_format");
    reveal_strlit("tools");
    reveal_strlit("tool_choice");
    reveal_strlit("headers");
    reveal_strlit("provider_options");
    reveal_strlit("body_overrides");
}

/// A document or, where there is none, `null`.
pub open spec fn or_nothing(doc: Option<JsonView>) -> JsonView {
    match doc {
        Some(doc) => doc,
        None => JsonView::Null,
    }
}

/// What a recording was asked under each name is what the call asks.
pub open spec fn asks_the_same(
    recorded: Seq<PromptMessageView>,
    options: JsonView,
    call: CallOptionsView,
) -> bool {
    &&& prompt_doc(recorded).same(prompt_doc(call.prompt))
    &&& options.at("temperature"@).same(or_nothing(real_doc(call.temperature)))
    &&& options.at("max_output_tokens"@).same(
        or_nothing(
            count_doc(
                match call.max_output_tokens {
                    Some(n) => Some(n as u64),
                    None => None,
                },
            ),
        ),
    )
    &&& options.at("seed"@).same(or_nothing(count_doc(call.seed)))
    &&& options.at("response_format"@).same(or_nothing(format_doc(call.response_format)))
    &&& options.at("tools"@).same(or_nothing(set_doc(call.tools)))
    &&& (match options.field("tool_choice"@) {
        Some(choice) => choice,
        None => choice_doc(ToolChoiceView::Auto),
    }).same(choice_doc(call.tool_choice))
    &&& stands_for(options.at("headers"@), or_nothing(pairs_doc(call.headers)))
    &&& stands_for(options.at("provider_options"@), or_nothing(fields_doc(call.provider_options)))
    &&& stands_for(options.at("body_overrides"@), or_nothing(call.body_overrides))
}

/// A recording matches a call exactly when it was asked the same under each
/// name; headers, provider options and body overrides may stand redacted there.
#[verifier::spinoff_prover]
#[verifier::rlimit(40)]
pub proof fn law_a_recording_matches_what_it_was_asked(
    recorded: Seq<PromptMessageView>,
    options: JsonView,
    call: CallOptionsView,
)
    ensures
        keys_match(recording_key(recorded, options), call_key(call)) <==> asks_the_same(recorded, options, call),
{
    broadcast use group_members;

    lemma_key_names();
    let rec = recording_key(recorded, options)->Object_0;
    let key = call_key(call)->Object_0;
    assert(rec.len() == 10 && key.len() == 10) by {
        lemma_fields(recorded, options, call);
    }
    lemma_fields(recorded, options, call);
    assert(rec[0].0 == "prompt"@ && rec[1].0 == "temperature"@ && rec[2].0 == "max_output_tokens"@);
    assert(rec[3].0 == "seed"@ && rec[4].0 == "response_format"@ && rec[5].0 == "tools"@);
    assert(rec[6].0 == "tool_choice"@ && rec[7].0 == "headers"@ && rec[8].0 == "provider_options"@);
    assert(rec[9].0 == "body_overrides"@);
}

/// The members of the two keys, in their order.
proof fn lemma_fields(recorded: Seq<PromptMessageView>, options: JsonView, call: CallOptionsView)
    ensures
        recording_key(recorded, options) is Object,
        call_key(call) is Object,
        ({
            let rec = recording_key(recorded, options)->Object_0;
            let key = call_key(call)->Object_0;
            &&& rec.len() == 10
            &&& key.len() == 10
            &&& rec[0] == ("prompt"@, prompt_doc(recorded))
            &&& rec[1] == ("temperature"@, options.at("temperature"@))
            &&& rec[2] == ("max_output_tokens"@, options.at("max_output_tokens"@))
            &&& rec[3] == ("seed"@, options.at("seed"@))
            &&& rec[4] == ("response_format"@, options.at("response_format"@))
            &&& rec[5] == ("tools"@, options.at("tools"@))
            &&& rec[6] == (
                "tool_choice"@,
                match options.field("tool_choice"@) {
                    Some(choice) => choice,
                    None => choice_doc(ToolChoiceView::Auto),
                },
            )
            &&& rec[7] == ("headers"@, options.at("headers"@))
            &&& rec[8] == ("provider_options"@, options.at("provider_options"@))
            &&& rec[9] == ("body_overrides"@, options.at("body_overrides"@))
        }),
{
    broadcast use lemma_put_at_end;

    lemma_key_names();
}

/// A name that is not there is set at the end.
broadcast proof fn lemma_put_at_end(fields: crate::wire::Fields, key: Seq<char>, value: JsonView)
    requires
        forall|k: int| 0 <= k < fields.len() ==> (#[trigger] fields[k]).0 != key,
    ensures
        #[trigger] crate::json::put(fields, key, value) == fields.push((key, value)),
{
    crate::json::lemma_put_new(fields, key, value);
}

/// A recorded redaction stands for any value that is there. Anything else
/// stands for what is the same: item by item, member by member, and for nothing
/// only where nothing was recorded.
pub proof fn law_what_a_recorded_value_stands_for(rec: &Json, req: &Json, r: bool)
    requires
        call_ensures(redaction_aware_eq, (rec, req), r),
    ensures
        rec@ == JsonView::String("[REDACTED]"@) ==> (r <==> !(req@ is Null)),
        rec@ is Null ==> (r <==> req@ is Null),
        rec@ is Bool || rec@ is Number ==> (r <==> rec@.same(req@)),
        rec@ matches JsonView::String(text) ==> (text != "[REDACTED]"@ ==> (r <==> req@ == JsonView::String(text))),
        rec@ is Array && r ==> req@ is Array && rec@->Array_0.len() == req@->Array_0.len() && forall|i: int|
            0 <= i < rec@->Array_0.len() ==> stands_for(#[trigger] rec@->Array_0[i], req@->Array_0[i]),
        rec@ is Array && req@ is Array && rec@->Array_0.len() == req@->Array_0.len() && (forall|i: int|
            0 <= i < rec@->Array_0.len() ==> stands_for(#[trigger] rec@->Array_0[i], req@->Array_0[i])) ==> r,
        rec@ is Object && r ==> req@ is Object && rec@->Object_0.len() == req@->Object_0.len() && forall|i: int|
            0 <= i < rec@->Object_0.len() ==> (req@.field((#[trigger] rec@->Object_0[i]).0) matches Some(value)
                && stands_for(rec@->Object_0[i].1, value)),
        rec@ is Object && req@ is Object && rec@->Object_0.len() == req@->Object_0.len() && (forall|i: int|
            0 <= i < rec@->Object_0.len() ==> (req@.field((#[trigger] rec@->Object_0[i]).0) matches Some(value)
                && stands_for(rec@->Object_0[i].1, value))) ==> r,
{
}

/// Options are compared as documents that say them: a real number as a number,
/// a count as a count, a format by its kind and each of its facts by its name.
pub proof fn law_what_option_documents_say(
    share: Option<Seq<char>>,
    count: Option<u64>,
    schema: Option<JsonView>,
    name: Option<Seq<char>>,
    description: Option<Seq<char>>,
)
    ensures
        share is None ==> real_doc(share) is None,
        share matches Some(text) ==> real_doc(share) == Some(JsonView::Number(NumberView::Float(text))),
        count is None ==> count_doc(count) is None,
        count matches Some(n) ==> count_doc(count) == Some(JsonView::Number(NumberView::PosInt(n))),
        format_doc(None) is None,
        format_doc(Some(ResponseFormatView::Text)) == Some(JsonView::String("Text"@)),
        ({
            let doc = format_doc(Some(ResponseFormatView::Json { schema, name, description }))->0;
            let body = doc.at("Json"@);
            &&& body is Object
            &&& body.at("schema"@) == or_nothing(schema)
            &&& body.at("name"@) == (match name {
                Some(text) => JsonView::String(text),
                None => JsonView::Null,
            })
            &&& body.at("description"@) == (match description {
                Some(text) => JsonView::String(text),
                None => JsonView::Null,
            })
        }),
{
    broadcast use group_members;

    reveal_strlit("schema");
    reveal_strlit("name");
    reveal_strlit("description");
    assert("schema"@.len() == 6 && "name"@.len() == 4 && "description"@.len() == 11);
}

// Matchers.

/// Whether a recording was made with the provider and model.
pub open spec fn is_of(rec: Recording, provider: Seq<char>, model_id: Seq<char>) -> bool {
    rec.provider.provider@ == provider && rec.provider.model_id@ == model_id
}

/// Whether a recording of the provider and model was asked what the call asks.
pub open spec fn fits(rec: Recording, provider: Seq<char>, model_id: Seq<char>, call: CallOptionsView) -> bool {
    is_of(rec, provider, model_id) && asks_the_same(prompt_view(rec.input.prompt@), rec.input.options@, call)
}

/// The exact matcher takes the first recording that fits, and refuses a call
/// exactly when none does.
pub proof fn law_the_first_fit_is_taken(matcher: ExactMatcher, call: CallOptionsView, recordings: Seq<Recording>)
    ensures
        match matcher.verdict(call, recordings) {
            Ok(i) => {
                &&& 0 <= i < recordings.len()
                &&& fits(recordings[i], matcher.provider(), matcher.model_id(), call)
                &&& forall|j: int|
                    0 <= j < i ==> !fits(#[trigger] recordings[j], matcher.provider(), matcher.model_id(), call)
            },
            Err(error) => {
                &&& error is InvalidArgument
                &&& forall|j: int|
                    0 <= j < recordings.len() ==> !fits(
                        #[trigger] recordings[j],
                        matcher.provider(),
                        matcher.model_id(),
                        call,
                    )
            },
        },
{
    let ranks = exact_ranks(recordings, matcher.provider(), matcher.model_id(), call);
    lemma_winner(ranks);
    assert forall|j: int| 0 <= j < recordings.len() implies (ranks[j] == 1 <==> fits(
        #[trigger] recordings[j],
        matcher.provider(),
        matcher.model_id(),
        call,
    )) && ranks[j] <= 1 by {
        law_a_recording_matches_what_it_was_asked(
            prompt_view(recordings[j].input.prompt@),
            recordings[j].input.options@,
            call,
        );
    }
    if let Ok(i) = matcher.verdict(call, recordings) {
        assert(fits(recordings[i], matcher.provider(), matcher.model_id(), call));
        assert forall|j: int| 0 <= j < i implies !fits(
            #[trigger] recordings[j],
            matcher.provider(),
            matcher.model_id(),
            call,
        ) by {
            assert(ranks[j] < ranks[i]);
        }
    } else {
        assert forall|j: int| 0 <= j < recordings.len() implies !fits(
            #[trigger] recordings[j],
            matcher.provider(),
            matcher.model_id(),
            call,
        ) by {
            assert(ranks[j] == 0);
        }
    }
}

/// What a recording scores for a call.
pub open spec fn scored(rec: Recording, call: CallOptionsView) -> nat {
    score(call.prompt, call.temperature, prompt_view(rec.input.prompt@), rec.input.options@)
}

/// The scoring matcher takes a recording of its provider and model that scores
/// something, with none before it that scores as much and none behind it that
/// scores more; it refuses a call exactly when none of them scores anything.
pub proof fn law_the_best_score_is_taken(matcher: ScoreMatcher, call: CallOptionsView, recordings: Seq<Recording>)
    ensures
        match matcher.verdict(call, recordings) {
            Ok(i) => {
                &&& 0 <= i < recordings.len()
                &&& is_of(recordings[i], matcher.provider(), matcher.model_id())
                &&& scored(recordings[i], call) > 0
                &&& forall|j: int|
                    0 <= j < i && is_of(#[trigger] recordings[j], matcher.provider(), matcher.model_id()) ==> scored(
                        recordings[j],
                        call,
                    ) < scored(recordings[i], call)
                &&& forall|j: int|
                    i < j < recordings.len() && is_of(
                        #[trigger] recordings[j],
                        matcher.provider(),
                        matcher.model_id(),
                    ) ==> scored(recordings[j], call) <= scored(recordings[i], call)
            },
            Err(error) => {
                &&& error is InvalidArgument
                &&& forall|j: int|
                    0 <= j < recordings.len() && is_of(
                        #[trigger] recordings[j],
                        matcher.provider(),
                        matcher.model_id(),
                    ) ==> scored(recordings[j], call) == 0
            },
        },
{
    let ranks = score_ranks(recordings, matcher.provider(), matcher.model_id(), call);
    lemma_winner(ranks);
    assert forall|j: int| 0 <= j < recordings.len() implies ranks[j] == (if is_of(
        #[trigger] recordings[j],
        matcher.provider(),
        matcher.model_id(),
    ) {
        scored(recordings[j], call)
    } else {
        0
    }) by {}
}

/// Whether a recording of the provider and model has a prompt that the call's
/// prompt starts with.
pub open spec fn leads(rec: Recording, provider: Seq<char>, model_id: Seq<char>, call: CallOptionsView) -> bool {
    let prompt = prompt_view(rec.input.prompt@);
    &&& is_of(rec, provider, model_id)
    &&& 0 < prompt.len() <= call.prompt.len()
    &&& forall|k: int| 0 <= k < prompt.len() ==> same_message(#[trigger] call.prompt[k], prompt[k])
}

/// The prefix matcher takes a recording whose prompt leads the call's, with
/// none before it as long and none behind it longer; it refuses a call exactly
/// when none leads.
pub proof fn law_the_longest_lead_is_taken(matcher: PrefixMatcher, call: CallOptionsView, recordings: Seq<Recording>)
    ensures
        match matcher.verdict(call, recordings) {
            Ok(i) => {
                &&& 0 <= i < recordings.len()
                &&& leads(recordings[i], matcher.provider(), matcher.model_id(), call)
                &&& forall|j: int|
                    0 <= j < i && leads(#[trigger] recordings[j], matcher.provider(), matcher.model_id(), call)
                        ==> recordings[j].input.prompt@.len() < recordings[i].input.prompt@.len()
                &&& forall|j: int|
                    i < j < recordings.len() && leads(
                        #[trigger] recordings[j],
                        matcher.provider(),
                        matcher.model_id(),
                        call,
                    ) ==> recordings[j].input.prompt@.len() <= recordings[i].input.prompt@.len()
            },
            Err(error) => {
                &&& error is InvalidArgument
                &&& forall|j: int|
                    0 <= j < recordings.len() ==> !leads(
                        #[trigger] recordings[j],
                        matcher.provider(),
                        matcher.model_id(),
                        call,
                    )
            },
        },
{
    let ranks = prefix_ranks(recordings, matcher.provider(), matcher.model_id(), call);
    lemma_winner(ranks);
    assert forall|j: int| 0 <= j < recordings.len() implies ranks[j] == (if leads(
        #[trigger] recordings[j],
        matcher.provider(),
        matcher.model_id(),
        call,
    ) {
        recordings[j].input.prompt@.len()
    } else {
        0
    }) by {
        let prompt = prompt_view(recordings[j].input.prompt@);
        lemma_shares(call.prompt, prompt);
        if leads(recordings[j], matcher.provider(), matcher.model_id(), call) {
            law_shared_messages_come_first(call.prompt, prompt, prompt.len() as int);
        }
    }
}

// Answers.

/// Whether an exchange ended well: it was finalized without an error, and its
/// response has a status of success.
pub open spec fn ended_well(exchange: HttpExchange) -> bool {
    &&& exchange.finalized
    &&& exchange.error is None
    &&& exchange.response matches Some(response)
    &&& response.status / 100 == 2
}

/// Whether a response is that of the last exchange that ended well.
pub open spec fn is_last_good(rec: Recording, i: int, response: ResponseRecord) -> bool {
    &&& 0 <= i < rec.exchanges@.len()
    &&& ended_well(rec.exchanges@[i])
    &&& rec.exchanges@[i].response == Some(response)
    &&& forall|k: int| i < k < rec.exchanges@.len() ==> !ended_well(#[trigger] rec.exchanges@[k])
}

/// Whether no exchange of a recording ended well.
pub open spec fn never_ended_well(rec: Recording) -> bool {
    forall|k: int| 0 <= k < rec.exchanges@.len() ==> !ended_well(#[trigger] rec.exchanges@[k])
}

proof fn lemma_succeeded(rec: Recording)
    ensures
        forall|k: int| 0 <= k < rec.exchanges@.len() ==> succeeded(#[trigger] rec.exchanges@[k]) == ended_well(
            rec.exchanges@[k],
        ),
{
    lemma_last_success(rec.exchanges@);
}

/// A recording answers with the last response that ended well, and refuses to
/// answer exactly when none did.
pub proof fn law_the_last_good_response_answers<'a>(rec: Recording, r: Result<&'a ResponseRecord, AiMuxError>)
    requires
        call_ensures(last_response, (&rec,), r),
    ensures
        r matches Ok(response) ==> exists|i: int| #[trigger] is_last_good(rec, i, *response),
        r is Err <==> never_ended_well(rec),
{
    lemma_succeeded(rec);
    lemma_last_success(rec.exchanges@);
    let i = crate::replay::last_success(rec.exchanges@);
    if let Ok(response) = r {
        assert(is_last_good(rec, i, *response));
    }
}

/// What is rebuilt is rebuilt from the body of that response; a recording
/// without one is refused.
pub proof fn law_what_is_rebuilt_is_the_last_good_body(
    rec: Recording,
    i: int,
    response: ResponseRecord,
    result: Result<GenerateResult, AiMuxError>,
    stream: Result<Vec<StreamPart>, AiMuxError>,
)
    requires
        call_ensures(rebuild_generate_result, (&rec,), result),
        call_ensures(rebuild_stream_result, (&rec,), stream),
    ensures
        never_ended_well(rec) ==> (result matches Err(error) && error@ is InvalidArgument) && (stream matches Err(
            error,
        ) && error@ is InvalidArgument),
        is_last_good(rec, i, response) && response.body is None ==> (result matches Err(error) && error@
            is InvalidArgument) && (stream matches Err(error) && error@ is InvalidArgument),
        is_last_good(rec, i, response) ==> (response.body matches Some(body) ==> {
            &&& generate_of_body(body@) == (match result {
                Ok(made) => Ok(made@),
                Err(error) => Err(error@),
            })
            &&& stream_of_body(body@) == (match stream {
                Ok(made) => Ok(stream_view(made@)),
                Err(error) => Err(error@),
            })
        }),
{
    lemma_succeeded(rec);
    lemma_last_success(rec.exchanges@);
    let last = crate::replay::last_success(rec.exchanges@);
    if is_last_good(rec, i, response) {
        if last < i {
            assert(!succeeded(rec.exchanges@[i]));
        }
        if i < last {
            assert(!ended_well(rec.exchanges@[last]));
        }
        assert(last == i);
    }
}

// Recording files.

/// Every line that holds something is kept, under its number, in order; blank
/// lines are not.
pub proof fn law_lines_that_say_something_are_kept(list: Seq<Seq<char>>, i: int)
    ensures
        forall|k: int|
            0 <= k < kept_lines(list).len() ==> {
                &&& 1 <= (#[trigger] kept_lines(list)[k]).0 <= list.len()
                &&& kept_lines(list)[k].1 == list[kept_lines(list)[k].0 - 1]
                &&& !crate::call_laws::says_nothing(kept_lines(list)[k].1)
            },
        forall|j: int, k: int|
            0 <= j < k < kept_lines(list).len() ==> (#[trigger] kept_lines(list)[j]).0 < (#[trigger] kept_lines(
                list,
            )[k]).0,
        0 <= i < list.len() && !crate::call_laws::says_nothing(list[i]) ==> kept_lines(list).contains(
            ((i + 1) as nat, list[i]),
        ),
    decreases list.len(),
{
    if list.len() > 0 {
        let front = list.drop_last();
        let kept = kept_lines(front);
        law_lines_that_say_something_are_kept(front, i);
        law_blank_texts_are_trimmed_to_nothing(list.last());
        assert forall|k: int| 0 <= k < kept_lines(list).len() implies {
            &&& 1 <= (#[trigger] kept_lines(list)[k]).0 <= list.len()
            &&& kept_lines(list)[k].1 == list[kept_lines(list)[k].0 - 1]
            &&& !crate::call_laws::says_nothing(kept_lines(list)[k].1)
        } by {
            if k < kept.len() {
                assert(kept_lines(list)[k] == kept[k]);
                assert(front[kept[k].0 - 1] == list[kept[k].0 - 1]);
            }
        }
        assert forall|j: int, k: int| 0 <= j < k < kept_lines(list).len() implies (#[trigger] kept_lines(list)[j]).0 < (
        #[trigger] kept_lines(list)[k]).0 by {
            assert(kept_lines(list)[j] == kept[j]);
            if k < kept.len() {
                assert(kept_lines(list)[k] == kept[k]);
            }
        }
        if 0 <= i < list.len() && !crate::call_laws::says_nothing(list[i]) {
            if i < front.len() {
                let k = choose|k: int| 0 <= k < kept.len() && kept[k] == ((i + 1) as nat, front[i]);
                assert(kept_lines(list)[k] == kept[k]);
            } else {
                assert(kept_lines(list)[kept.len() as int] == (list.len(), list.last()));
            }
        }
    }
}

} // verus!
