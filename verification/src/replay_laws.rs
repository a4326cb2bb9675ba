//! What holds of answering calls from recordings.
use crate::error::AiMuxErrorView;
use crate::json::{lemma_member_put, lemma_position, lemma_position_is, member, names_distinct, position, put, JsonView};
use crate::message::{prompt_view, PromptMessageView};
use crate::options::CallOptionsView;
use crate::recording::Recording;
use crate::replay::{
    common_messages, exact_rank, exact_ranks, is_best, last_success, lcp, lemma_last_success, lemma_winner,
    lemma_winner_is, made_with, prefix_rank, prefix_ranks, recorded_body, same_message, score, score_rank,
    score_ranks, succeeded, ExactMatcher, PrefixMatcher, ReplayMatcher, ScoreMatcher,
};
use crate::replay_keys::{
    call_key, field_matches, is_redacted_field, keys_match, recording_key, redacted, stands_for,
};
use crate::wire::Fields;
use vstd::prelude::*;

verus! {

/// A document whose objects, at any depth, have distinct member names, as
/// every parsed document's do.
pub open spec fn sound(doc: JsonView) -> bool
    decreases doc,
{
    match doc {
        JsonView::Object(fields) => names_distinct(fields) && forall|i: int|
            0 <= i < fields.len() ==> sound((#[trigger] fields[i]).1),
        JsonView::Array(items) => forall|i: int| 0 <= i < items.len() ==> sound(#[trigger] items[i]),
        _ => true,
    }
}

proof fn lemma_own_member(fields: Fields, i: int)
    requires
        names_distinct(fields),
        0 <= i < fields.len(),
    ensures
        member(fields, fields[i].0) == Some(fields[i].1),
{
    lemma_position_is(fields, fields[i].0, i);
}

/// A document equals itself.
pub proof fn law_a_document_is_itself(doc: JsonView)
    requires
        sound(doc),
    ensures
        doc.same(doc),
    decreases doc,
{
    match doc {
        JsonView::Object(fields) => {
            assert forall|i: int| 0 <= i < fields.len() implies match member(fields, (#[trigger] fields[i]).0) {
                Some(value) => fields[i].1.same(value),
                None => false,
            } by {
                lemma_own_member(fields, i);
                assert(decreases_to!(doc => doc->Object_0));
                assert(decreases_to!(fields => fields[i]));
                assert(decreases_to!(fields[i] => fields[i].1));
                law_a_document_is_itself(fields[i].1);
            }
        },
        JsonView::Array(items) => {
            assert forall|i: int| 0 <= i < items.len() implies (#[trigger] items[i]).same(items[i]) by {
                law_a_document_is_itself(items[i]);
            }
        },
        _ => {},
    }
}

/// A recorded document stands for itself, redacted or not.
pub proof fn law_a_document_stands_for_itself(doc: JsonView)
    requires
        sound(doc),
    ensures
        stands_for(doc, doc),
    decreases doc,
{
    match doc {
        JsonView::Object(fields) => {
            assert forall|i: int| 0 <= i < fields.len() implies match member(fields, (#[trigger] fields[i]).0) {
                Some(value) => stands_for(fields[i].1, value),
                None => false,
            } by {
                lemma_own_member(fields, i);
                assert(decreases_to!(doc => doc->Object_0));
                assert(decreases_to!(fields => fields[i]));
                assert(decreases_to!(fields[i] => fields[i].1));
                law_a_document_stands_for_itself(fields[i].1);
            }
        },
        JsonView::Array(items) => {
            assert forall|i: int| 0 <= i < items.len() implies stands_for(#[trigger] items[i], items[i]) by {
                law_a_document_stands_for_itself(items[i]);
            }
        },
        _ => law_a_document_is_itself(doc),
    }
}

/// A recorded redaction stands for every value that is there, and only for
/// those; an absent value stands for an absent one alone; a redaction on the
/// requested side is an ordinary text.
pub proof fn law_redaction(rec: JsonView, req: JsonView)
    ensures
        stands_for(JsonView::String(redacted()), req) <==> !(req is Null),
        stands_for(JsonView::Null, req) <==> req is Null,
        stands_for(rec, JsonView::Null) <==> rec is Null,
        stands_for(rec, JsonView::String(redacted())) ==> rec == JsonView::String(redacted()),
{
}

/// Redacting one member of a recorded object loses no match: it still stands
/// for what it stood for, as long as the member's value is there.
pub proof fn law_redacting_a_member_keeps_a_match(rec: Fields, req: Fields, key: Seq<char>)
    requires
        names_distinct(rec),
        stands_for(JsonView::Object(rec), JsonView::Object(req)),
        member(rec, key) is Some,
        member(req, key) matches Some(value) ==> !(value is Null),
    ensures
        stands_for(JsonView::Object(put(rec, key, JsonView::String(redacted()))), JsonView::Object(req)),
{
    let after = put(rec, key, JsonView::String(redacted()));
    lemma_position(rec, key);
    let p = position(rec, key);
    assert(rec[p].0 == key);
    assert forall|i: int| 0 <= i < after.len() implies match member(req, (#[trigger] after[i]).0) {
        Some(value) => stands_for(after[i].1, value),
        None => false,
    } by {
        assert(after[i].0 == rec[i].0);
        assert(match member(req, rec[i].0) {
            Some(value) => stands_for(rec[i].1, value),
            None => false,
        });
    }
}

/// Only headers, provider options and body overrides may be redacted: every
/// other field must be the same, so a redacted one does not match a value.
pub proof fn law_other_fields_are_not_wild(name: Seq<char>, rec: JsonView, req: JsonView)
    requires
        !is_redacted_field(name),
    ensures
        field_matches(name, rec, req) == rec.same(req),
        rec == JsonView::String(redacted()) && req != rec ==> !field_matches(name, rec, req),
{
}

/// Whether a recording's options are those that a call was made with, each
/// under its name.
pub open spec fn options_of(recorded: JsonView, key: JsonView) -> bool {
    &&& recorded.at("temperature"@) == key.at("temperature"@)
    &&& recorded.at("max_output_tokens"@) == key.at("max_output_tokens"@)
    &&& recorded.at("seed"@) == key.at("seed"@)
    &&& recorded.at("response_format"@) == key.at("response_format"@)
    &&& recorded.at("tools"@) == key.at("tools"@)
    &&& recorded.field("tool_choice"@) == Some(key.at("tool_choice"@))
    &&& recorded.at("headers"@) == key.at("headers"@)
    &&& recorded.at("provider_options"@) == key.at("provider_options"@)
    &&& recorded.at("body_overrides"@) == key.at("body_overrides"@)
}

broadcast proof fn lemma_put(fields: Fields, key: Seq<char>, value: JsonView, wanted: Seq<char>)
    ensures
        #[trigger] member(put(fields, key, value), wanted) == (if wanted == key {
            Some(value)
        } else {
            member(fields, wanted)
        }),
{
    lemma_member_put(fields, key, value, wanted);
}

proof fn lemma_key_names()
    ensures
        "prompt"@.len() == 6,
        "temperature"@.len() == 11,
        "temperature"@[1] == 'e',
        "max_output_tokens"@.len() == 17,
        "seed"@.len() == 4,
        "response_format"@.len() == 15,
        "tools"@.len() == 5,
        "tool_choice"@.len() == 11,
        "tool_choice"@[1] == 'o',
        "headers"@.len() == 7,
        "provider_options"@.len() == 16,
        "body_overrides"@.len() == 14,
{
    reveal_strlit("prompt");
    reveal_strlit("temperature");
    reveal_strlit("max_output_tokens");
    reveal_strlit("seed");
    reveal_strlit("response_format");
    reveal_strlit("tools");
    reveal_strlit("tool_choice");
    reveal_strlit("headers");
    reveal_strlit("provider_options");
    reveal_strlit("body_overrides");
}

/// A call matches the recording of the same prompt and options.
pub proof fn law_a_call_matches_its_own_recording(options: CallOptionsView, recorded: JsonView)
    requires
        sound(call_key(options)),
        options_of(recorded, call_key(options)),
    ensures
        keys_match(recording_key(options.prompt, recorded), call_key(options)),
{
    broadcast use lemma_put;

    lemma_key_names();
    let key = call_key(options);
    assert(recording_key(options.prompt, recorded) == key);
    let fields = key->Object_0;
    assert forall|i: int| 0 <= i < fields.len() implies match member(fields, (#[trigger] fields[i]).0) {
        Some(value) => field_matches(fields[i].0, fields[i].1, value),
        None => false,
    } by {
        lemma_own_member(fields, i);
        law_a_document_is_itself(fields[i].1);
        law_a_document_stands_for_itself(fields[i].1);
    }
}

/// The exact matcher takes the first recording of its provider and model
/// whose key matches, and refuses when there is none.
pub proof fn law_exact_match(matcher: ExactMatcher, options: CallOptionsView, recordings: Seq<Recording>)
    ensures
        match matcher.verdict(options, recordings) {
            Ok(i) => {
                &&& 0 <= i < recordings.len()
                &&& made_with(recordings[i], matcher.provider(), matcher.model_id())
                &&& keys_match(
                    recording_key(prompt_view(recordings[i].input.prompt@), recordings[i].input.options@),
                    call_key(options),
                )
                &&& forall|j: int|
                    0 <= j < i ==> exact_rank(
                        #[trigger] recordings[j],
                        matcher.provider(),
                        matcher.model_id(),
                        options,
                    ) == 0
            },
            Err(_) => forall|j: int|
                0 <= j < recordings.len() ==> exact_rank(
                    #[trigger] recordings[j],
                    matcher.provider(),
                    matcher.model_id(),
                    options,
                ) == 0,
        },
{
    let ranks = exact_ranks(recordings, matcher.provider(), matcher.model_id(), options);
    lemma_winner(ranks);
    match matcher.verdict(options, recordings) {
        Ok(i) => {
            assert forall|j: int| 0 <= j < i implies exact_rank(
                #[trigger] recordings[j],
                matcher.provider(),
                matcher.model_id(),
                options,
            ) == 0 by {
                assert(ranks[j] < ranks[i]);
            }
        },
        Err(_) => {
            assert forall|j: int| 0 <= j < recordings.len() implies exact_rank(
                #[trigger] recordings[j],
                matcher.provider(),
                matcher.model_id(),
                options,
            ) == 0 by {
                assert(ranks[j] == 0);
            }
        },
    }
}

/// An unrelated prompt scores nothing whatever the temperature, and a related
/// one scores something.
pub proof fn law_only_related_prompts_score(
    prompt: Seq<PromptMessageView>,
    temperature: Option<Seq<char>>,
    recorded: Seq<PromptMessageView>,
    options: JsonView,
)
    ensures
        score(prompt, temperature, recorded, options) == 0 <==> common_messages(prompt, recorded) == 0 && lcp(
            prompt,
            recorded,
        ) == 0,
{
}

/// The scoring matcher takes a recording of its provider and model with the
/// highest score, the first among equals; one that scores nothing is never
/// taken.
pub proof fn law_score_match(matcher: ScoreMatcher, options: CallOptionsView, recordings: Seq<Recording>)
    ensures
        match matcher.verdict(options, recordings) {
            Ok(i) => {
                &&& 0 <= i < recordings.len()
                &&& made_with(recordings[i], matcher.provider(), matcher.model_id())
                &&& is_best(score_ranks(recordings, matcher.provider(), matcher.model_id(), options), i)
            },
            Err(_) => forall|j: int|
                0 <= j < recordings.len() ==> score_rank(
                    #[trigger] recordings[j],
                    matcher.provider(),
                    matcher.model_id(),
                    options,
                ) == 0,
        },
{
    let ranks = score_ranks(recordings, matcher.provider(), matcher.model_id(), options);
    lemma_winner(ranks);
    if matcher.verdict(options, recordings) is Err {
        assert forall|j: int| 0 <= j < recordings.len() implies score_rank(
            #[trigger] recordings[j],
            matcher.provider(),
            matcher.model_id(),
            options,
        ) == 0 by {
            assert(ranks[j] == 0);
        }
    }
}

proof fn lemma_common_messages(a: Seq<PromptMessageView>, b: Seq<PromptMessageView>)
    ensures
        common_messages(a, b) <= a.len(),
        common_messages(a, b) <= b.len(),
        forall|k: int| 0 <= k < common_messages(a, b) ==> same_message(#[trigger] a[k], b[k]),
    decreases a.len(),
{
    if a.len() > 0 && b.len() > 0 && same_message(a[0], b[0]) {
        lemma_common_messages(a.drop_first(), b.drop_first());
        assert forall|k: int| 0 <= k < common_messages(a, b) implies same_message(#[trigger] a[k], b[k]) by {
            if k > 0 {
                assert(same_message(a.drop_first()[k - 1], b.drop_first()[k - 1]));
            }
        }
    }
}

/// The prefix matcher takes a recording whose prompt, message by message, is
/// what the call's prompt starts with; none with a longer such prompt is
/// there, and none earlier with one as long. An empty prompt never matches.
pub proof fn law_prefix_match(matcher: PrefixMatcher, options: CallOptionsView, recordings: Seq<Recording>)
    ensures
        match matcher.verdict(options, recordings) {
            Ok(i) => {
                let prompt = prompt_view(recordings[i].input.prompt@);
                &&& 0 <= i < recordings.len()
                &&& made_with(recordings[i], matcher.provider(), matcher.model_id())
                &&& 0 < prompt.len() <= options.prompt.len()
                &&& forall|k: int| 0 <= k < prompt.len() ==> same_message(#[trigger] options.prompt[k], prompt[k])
                &&& is_best(prefix_ranks(recordings, matcher.provider(), matcher.model_id(), options), i)
            },
            Err(_) => forall|j: int|
                0 <= j < recordings.len() ==> prefix_rank(
                    #[trigger] recordings[j],
                    matcher.provider(),
                    matcher.model_id(),
                    options,
                ) == 0,
        },
{
    let ranks = prefix_ranks(recordings, matcher.provider(), matcher.model_id(), options);
    lemma_winner(ranks);
    match matcher.verdict(options, recordings) {
        Ok(i) => {
            lemma_common_messages(options.prompt, prompt_view(recordings[i].input.prompt@));
        },
        Err(_) => {
            assert forall|j: int| 0 <= j < recordings.len() implies prefix_rank(
                #[trigger] recordings[j],
                matcher.provider(),
                matcher.model_id(),
                options,
            ) == 0 by {
                assert(ranks[j] == 0);
            }
        },
    }
}

/// A recording that the exact matcher would take alone answers its own call,
/// when no earlier one does.
pub proof fn law_a_recorded_call_is_replayed(
    matcher: ExactMatcher,
    options: CallOptionsView,
    recordings: Seq<Recording>,
    i: int,
)
    requires
        0 <= i < recordings.len(),
        sound(call_key(options)),
        made_with(recordings[i], matcher.provider(), matcher.model_id()),
        prompt_view(recordings[i].input.prompt@) == options.prompt,
        options_of(recordings[i].input.options@, call_key(options)),
        forall|j: int|
            0 <= j < i ==> exact_rank(#[trigger] recordings[j], matcher.provider(), matcher.model_id(), options)
                == 0,
    ensures
        matcher.verdict(options, recordings) == Ok::<int, AiMuxErrorView>(i),
{
    law_a_call_matches_its_own_recording(options, recordings[i].input.options@);
    let ranks = exact_ranks(recordings, matcher.provider(), matcher.model_id(), options);
    assert(ranks[i] == 1);
    assert forall|j: int| 0 <= j < i implies #[trigger] ranks[j] < ranks[i] by {
        assert(exact_rank(recordings[j], matcher.provider(), matcher.model_id(), options) == 0);
    }
    assert(is_best(ranks, i));
    lemma_winner_is(ranks, i);
}

/// A recording answers with the body of its last exchange that ended well; a
/// failed, unfinished or refused exchange is never replayed.
pub proof fn law_only_a_success_is_replayed(rec: Recording)
    ensures
        recorded_body(rec) matches Ok(body) ==> {
            let i = last_success(rec.exchanges@);
            &&& 0 <= i < rec.exchanges@.len()
            &&& succeeded(rec.exchanges@[i])
            &&& rec.exchanges@[i].response matches Some(response) && response.body matches Some(text) && text@
                == body
            &&& forall|k: int| i < k < rec.exchanges@.len() ==> !succeeded(#[trigger] rec.exchanges@[k])
        },
        (forall|k: int| 0 <= k < rec.exchanges@.len() ==> !succeeded(#[trigger] rec.exchanges@[k]))
            ==> recorded_body(rec) is Err,
{
    lemma_last_success(rec.exchanges@);
}

} // verus!
