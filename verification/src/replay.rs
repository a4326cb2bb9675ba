//! Answering a call from recordings: matching, and rebuilding the answer.
use crate::error::{json_view, AiMuxError, AiMuxErrorView};
use crate::json::{same_float, Json, JsonView};
use crate::json_text::{json_print, print_json};
use crate::message::{
    prompt_view, ContentPart, ContentPartView, LanguageModelPromptMessage, PromptMessageView,
};
use crate::options::{CallOptions, CallOptionsView};
use crate::recording::{HttpExchange, Recording, ResponseRecord};
use crate::replay_keys::{
    call_key, canonical_call_key, canonical_keys_match, canonical_recording_key, keys_match, recording_key,
};
use crate::replay_stream::{stream_of_body, stream_parts_of_body};
use crate::replay_wire::{generate_of_body, generate_result_of_body};
use crate::result::{GenerateResult, GenerateResultView};
use crate::sampling::{real_view, Real};
use crate::stream_part::{stream_view, StreamPart, StreamPartView};
use crate::text::{
    decimal, decimal_text, is_blank_text, join4, lines, shared_bytes, shared_prefix, split_lines, texts, trimmed,
};
use crate::wire::{parts_doc, parts_json};
use vstd::prelude::*;
use vstd::string::*;
use vstd::utf8::encode_utf8;

verus! {

// Comparing prompts.

pub open spec fn same_option(a: Option<JsonView>, b: Option<JsonView>) -> bool {
    match (a, b) {
        (None, None) => true,
        (Some(a), Some(b)) => a.same(b),
        _ => false,
    }
}

/// Whether two content parts are the same.
pub open spec fn same_part(a: ContentPartView, b: ContentPartView) -> bool {
    match (a, b) {
        (
            ContentPartView::Text { text, provider_options },
            ContentPartView::Text { text: other, provider_options: other_options },
        ) => text == other && same_option(provider_options, other_options),
        (
            ContentPartView::Reasoning { text, provider_options },
            ContentPartView::Reasoning { text: other, provider_options: other_options },
        ) => text == other && same_option(provider_options, other_options),
        (
            ContentPartView::ToolCall {
                tool_call_id,
                tool_name,
                input,
                provider_executed,
                thought_signature,
                provider_options,
            },
            ContentPartView::ToolCall {
                tool_call_id: other_id,
                tool_name: other_name,
                input: other_input,
                provider_executed: other_executed,
                thought_signature: other_signature,
                provider_options: other_options,
            },
        ) => tool_call_id == other_id && tool_name == other_name && input.same(other_input)
            && provider_executed == other_executed && thought_signature == other_signature && same_option(
            provider_options,
            other_options,
        ),
        (
            ContentPartView::ToolResult { tool_call_id, tool_name, output, is_error, provider_options },
            ContentPartView::ToolResult {
                tool_call_id: other_id,
                tool_name: other_name,
                output: other_output,
                is_error: other_error,
                provider_options: other_options,
            },
        ) => tool_call_id == other_id && tool_name == other_name && output.same(other_output) && is_error
            == other_error && same_option(provider_options, other_options),
        (ContentPartView::Media { document }, ContentPartView::Media { document: other }) => document.same(
            other,
        ),
        _ => false,
    }
}

/// Whether two messages have the same role and content.
pub open spec fn same_message(a: PromptMessageView, b: PromptMessageView) -> bool {
    a.role == b.role && a.content.len() == b.content.len() && forall|i: int|
        0 <= i < a.content.len() ==> same_part(#[trigger] a.content[i], b.content[i])
}

/// How many messages two prompts share at their start.
pub open spec fn common_messages(a: Seq<PromptMessageView>, b: Seq<PromptMessageView>) -> nat
    decreases a.len(),
{
    if a.len() > 0 && b.len() > 0 && same_message(a[0], b[0]) {
        1 + common_messages(a.drop_first(), b.drop_first())
    } else {
        0
    }
}

fn option_equal(a: &Option<Json>, b: &Option<Json>) -> (r: bool)
    ensures
        r == same_option(json_view(*a), json_view(*b)),
{
    match (a, b) {
        (None, None) => true,
        (Some(a), Some(b)) => a.same(b),
        _ => false,
    }
}

fn text_option_equal(a: &Option<String>, b: &Option<String>) -> (r: bool)
    ensures
        r == (crate::json_text::text_view(*a) == crate::json_text::text_view(*b)),
{
    match (a, b) {
        (None, None) => true,
        (Some(a), Some(b)) => *a == *b,
        _ => false,
    }
}

fn part_equal(a: &ContentPart, b: &ContentPart) -> (r: bool)
    ensures
        r == same_part(a@, b@),
{
    match (a, b) {
        (
            ContentPart::Text { text, provider_options },
            ContentPart::Text { text: other, provider_options: other_options },
        ) => *text == *other && option_equal(provider_options, other_options),
        (
            ContentPart::Reasoning { text, provider_options },
            ContentPart::Reasoning { text: other, provider_options: other_options },
        ) => *text == *other && option_equal(provider_options, other_options),
        (
            ContentPart::ToolCall {
                tool_call_id,
                tool_name,
                input,
                provider_executed,
                thought_signature,
                provider_options,
            },
            ContentPart::ToolCall {
                tool_call_id: other_id,
                tool_name: other_name,
                input: other_input,
                provider_executed: other_executed,
                thought_signature: other_signature,
                provider_options: other_options,
            },
        ) => *tool_call_id == *other_id && *tool_name == *other_name && input.same(other_input)
            && *provider_executed == *other_executed && text_option_equal(thought_signature, other_signature)
            && option_equal(provider_options, other_options),
        (
            ContentPart::ToolResult { tool_call_id, tool_name, output, is_error, provider_options },
            ContentPart::ToolResult {
                tool_call_id: other_id,
                tool_name: other_name,
                output: other_output,
                is_error: other_error,
                provider_options: other_options,
            },
        ) => *tool_call_id == *other_id && *tool_name == *other_name && output.same(other_output) && *is_error
            == *other_error && option_equal(provider_options, other_options),
        (ContentPart::Media { document }, ContentPart::Media { document: other }) => document.same(other),
        _ => false,
    }
}

fn message_equal(a: &LanguageModelPromptMessage, b: &LanguageModelPromptMessage) -> (r: bool)
    ensures
        r == same_message(a@, b@),
{
    if a.role != b.role || a.content.len() != b.content.len() {
        return false;
    }
    let mut i: usize = 0;
    while i < a.content.len()
        invariant
            i <= a.content.len() == b.content.len(),
            forall|k: int| 0 <= k < i ==> same_part(#[trigger] a@.content[k], b@.content[k]),
        decreases a.content.len() - i,
    {
        if !part_equal(&a.content[i], &b.content[i]) {
            assert(!same_part(a@.content[i as int], b@.content[i as int]));
            return false;
        }
        i = i + 1;
    }
    true
}

proof fn lemma_common(a: Seq<PromptMessageView>, b: Seq<PromptMessageView>, n: int)
    requires
        0 <= n <= a.len(),
        n <= b.len(),
        forall|k: int| 0 <= k < n ==> same_message(#[trigger] a[k], b[k]),
        n < a.len() && n < b.len() ==> !same_message(a[n], b[n]),
    ensures
        common_messages(a, b) == n,
    decreases n,
{
    if n > 0 {
        assert(same_message(a[0], b[0]));
        assert forall|k: int| 0 <= k < n - 1 implies same_message(
            #[trigger] a.drop_first()[k],
            b.drop_first()[k],
        ) by {
            assert(same_message(a[k + 1], b[k + 1]));
        }
        lemma_common(a.drop_first(), b.drop_first(), n - 1);
    }
}

fn count_common(a: &Vec<LanguageModelPromptMessage>, b: &Vec<LanguageModelPromptMessage>) -> (r: usize)
    ensures
        r == common_messages(prompt_view(a@), prompt_view(b@)),
        r <= a@.len(),
        r <= b@.len(),
{
    let mut i: usize = 0;
    while i < a.len() && i < b.len() && message_equal(&a[i], &b[i])
        invariant
            i <= a.len(),
            i <= b.len(),
            forall|k: int| 0 <= k < i ==> same_message(#[trigger] prompt_view(a@)[k], prompt_view(b@)[k]),
        decreases a.len() - i,
    {
        i = i + 1;
    }
    proof {
        lemma_common(prompt_view(a@), prompt_view(b@), i as int);
    }
    i
}

/// What a message says: its leading text, or its content printed.
pub open spec fn message_words(message: PromptMessageView) -> Seq<char> {
    if message.content.len() > 0 && message.content[0] is Text {
        message.content[0]->Text_text
    } else {
        json_print(parts_doc(message.content))
    }
}

/// What a message says.
pub fn message_text(message: &LanguageModelPromptMessage) -> (r: String)
    ensures
        r@ == message_words(message@),
{
    if message.content.len() > 0 {
        if let ContentPart::Text { text, .. } = &message.content[0] {
            assert(message@.content[0] == message.content@[0]@);
            return text.clone();
        }
        assert(message@.content[0] == message.content@[0]@);
    }
    print_json(&parts_json(&message.content))
}

// Scores.

/// How many bytes the first differing messages share, or the last common ones
/// when none differ.
pub open spec fn lcp(a: Seq<PromptMessageView>, b: Seq<PromptMessageView>) -> nat {
    let least = if a.len() < b.len() {
        a.len()
    } else {
        b.len()
    };
    if least == 0 {
        0
    } else {
        let common = common_messages(a, b);
        let k = if common < least - 1 {
            common as int
        } else {
            least - 1
        };
        shared_prefix(encode_utf8(message_words(a[k])), encode_utf8(message_words(b[k])))
    }
}

/// The temperature that a recording was made with.
pub open spec fn recorded_temperature(options: JsonView) -> Option<Seq<char>> {
    match options.at("temperature"@) {
        JsonView::Number(n) => Some(n.as_float()),
        _ => None,
    }
}

pub open spec fn same_temperature(a: Option<Seq<char>>, b: Option<Seq<char>>) -> bool {
    match (a, b) {
        (None, None) => true,
        (Some(a), Some(b)) => same_float(a, b),
        _ => false,
    }
}

/// How well a recording fits a call. An unrelated prompt scores nothing,
/// whatever the temperature.
pub open spec fn score(
    prompt: Seq<PromptMessageView>,
    temperature: Option<Seq<char>>,
    recorded: Seq<PromptMessageView>,
    options: JsonView,
) -> nat {
    let relevance = common_messages(prompt, recorded) * 100 + lcp(prompt, recorded);
    if relevance == 0 {
        0
    } else if same_temperature(temperature, recorded_temperature(options)) {
        relevance + 1
    } else {
        relevance
    }
}

fn temperature_equal(a: &Option<Real>, options: &Json) -> (r: bool)
    ensures
        r == same_temperature(real_view(*a), recorded_temperature(options@)),
{
    broadcast use crate::json::lemma_model;

    let recorded: Option<Real> = match options.get("temperature") {
        Some(Json::Number(n)) => Some(Real::new(n)),
        _ => None,
    };
    match (a, &recorded) {
        (None, None) => true,
        (Some(a), Some(b)) => a.same(b),
        _ => false,
    }
}

/// How well a recording fits a call.
pub fn match_score(options: &CallOptions, rec: &Recording) -> (r: u128)
    ensures
        r == score(
            options@.prompt,
            options@.temperature,
            prompt_view(rec.input.prompt@),
            rec.input.options@,
        ),
{
    let a = &options.prompt;
    let b = &rec.input.prompt;
    let common: usize = count_common(a, b);
    let least: usize = if a.len() < b.len() {
        a.len()
    } else {
        b.len()
    };
    let mut bytes: u64 = 0;
    if least > 0 {
        let k: usize = if common < least - 1 {
            common
        } else {
            least - 1
        };
        assert(prompt_view(a@)[k as int] == a@[k as int]@);
        assert(prompt_view(b@)[k as int] == b@[k as int]@);
        let x = message_text(&a[k]);
        let y = message_text(&b[k]);
        bytes = shared_bytes(x.as_str(), y.as_str());
    }
    let relevance: u128 = (common as u128) * 100 + (bytes as u128);
    if relevance == 0 {
        return 0;
    }
    if temperature_equal(&options.temperature, &rec.input.options) {
        relevance + 1
    } else {
        relevance
    }
}

// Matchers.

/// The place of the first of the highest ranks; a rank of nothing never wins.
pub open spec fn is_best(ranks: Seq<nat>, i: int) -> bool {
    &&& 0 <= i < ranks.len()
    &&& ranks[i] > 0
    &&& forall|j: int| 0 <= j < i ==> #[trigger] ranks[j] < ranks[i]
    &&& forall|j: int| i < j < ranks.len() ==> #[trigger] ranks[j] <= ranks[i]
}

pub open spec fn winner(ranks: Seq<nat>) -> Option<int> {
    if exists|i: int| is_best(ranks, i) {
        Some(choose|i: int| is_best(ranks, i))
    } else {
        None
    }
}

/// At most one place is the best.
pub proof fn lemma_winner_is(ranks: Seq<nat>, i: int)
    requires
        is_best(ranks, i),
    ensures
        winner(ranks) == Some(i),
{
    let k = choose|k: int| is_best(ranks, k);
    assert(is_best(ranks, k));
    if k < i {
        assert(ranks[k] < ranks[i]);
    } else if i < k {
        assert(ranks[i] < ranks[k]);
    }
}

/// There is a winner exactly when something ranks above nothing.
pub proof fn lemma_winner(ranks: Seq<nat>)
    ensures
        winner(ranks) is Some <==> exists|i: int| 0 <= i < ranks.len() && #[trigger] ranks[i] > 0,
        winner(ranks) is Some ==> is_best(ranks, winner(ranks)->0),
    decreases ranks.len(),
{
    if exists|i: int| 0 <= i < ranks.len() && #[trigger] ranks[i] > 0 {
        let front = ranks.drop_last();
        lemma_winner(front);
        if exists|i: int| 0 <= i < front.len() && #[trigger] front[i] > 0 {
            let b = winner(front)->0;
            assert(is_best(front, b));
            assert forall|j: int| 0 <= j < front.len() implies #[trigger] ranks[j] == front[j] by {}
            if ranks.last() <= ranks[b] {
                assert(is_best(ranks, b));
            } else {
                assert forall|j: int| 0 <= j < ranks.len() - 1 implies #[trigger] ranks[j] < ranks.last() by {
                    assert(front[j] <= front[b]);
                }
                assert(is_best(ranks, ranks.len() - 1));
            }
        } else {
            assert forall|j: int| 0 <= j < ranks.len() - 1 implies #[trigger] ranks[j] == 0 by {
                assert(front[j] == ranks[j]);
            }
            assert(is_best(ranks, ranks.len() - 1));
        }
    }
}

fn first_best(ranks: &Vec<u128>) -> (r: Option<usize>)
    ensures
        match r {
            Some(i) => winner(numbers(ranks@)) == Some(i as int) && i < ranks@.len(),
            None => winner(numbers(ranks@)) is None,
        },
{
    let ghost all = numbers(ranks@);
    let mut best: Option<usize> = None;
    let mut i: usize = 0;
    while i < ranks.len()
        invariant
            i <= ranks.len(),
            all == numbers(ranks@),
            match best {
                Some(b) => b < i && ranks@[b as int] > 0 && (forall|j: int|
                    0 <= j < b ==> #[trigger] all[j] < all[b as int]) && (forall|j: int|
                    b < j < i ==> #[trigger] all[j] <= all[b as int]),
                None => forall|j: int| 0 <= j < i ==> #[trigger] all[j] == 0,
            },
        decreases ranks.len() - i,
    {
        let better: bool = match best {
            Some(b) => ranks[i] > ranks[b],
            None => ranks[i] > 0,
        };
        if better {
            best = Some(i);
        }
        i = i + 1;
    }
    proof {
        lemma_winner(all);
        if best is Some {
            assert(is_best(all, best->0 as int));
            lemma_winner_is(all, best->0 as int);
        }
    }
    best
}

pub open spec fn numbers(ranks: Seq<u128>) -> Seq<nat> {
    Seq::new(ranks.len(), |i: int| ranks[i] as nat)
}

/// What is chosen by rank, or a refusal in the given words.
pub open spec fn chosen(ranks: Seq<nat>, words: Seq<char>) -> Result<int, AiMuxErrorView> {
    match winner(ranks) {
        Some(i) => Ok(i),
        None => Err(AiMuxErrorView::InvalidArgument(words)),
    }
}

/// Whether a recording was made with this provider and model.
pub open spec fn made_with(rec: Recording, provider: Seq<char>, model_id: Seq<char>) -> bool {
    rec.provider.provider@ == provider && rec.provider.model_id@ == model_id
}

/// A way to choose the recording that answers a call.
pub trait ReplayMatcher {
    /// The place of the recording that answers the call, or why none does.
    spec fn verdict(&self, options: CallOptionsView, recordings: Seq<Recording>) -> Result<int, AiMuxErrorView>;

    /// The recording that answers the call.
    fn select<'a>(&self, options: &CallOptions, recordings: &'a [Recording]) -> (r: Result<
        &'a Recording,
        AiMuxError,
    >)
        ensures
            match r {
                Ok(rec) => self.verdict(options@, recordings@) matches Ok(i) && 0 <= i < recordings@.len()
                    && *rec == recordings@[i],
                Err(error) => self.verdict(options@, recordings@) == Err::<int, AiMuxErrorView>(error@),
            },
    ;
}

/// Takes the first recording of the same provider and model whose prompt and
/// replayable options are those of the call; redacted header, provider option
/// and body override values match any value that is there.
pub struct ExactMatcher {
    provider: String,
    model_id: String,
}

/// Takes the recording with the highest score, the first among equals.
pub struct ScoreMatcher {
    provider: String,
    model_id: String,
}

/// Takes the recording with the longest prompt that the call's prompt starts
/// with, the first among equals.
pub struct PrefixMatcher {
    provider: String,
    model_id: String,
}

pub open spec fn exact_rank(
    rec: Recording,
    provider: Seq<char>,
    model_id: Seq<char>,
    options: CallOptionsView,
) -> nat {
    if made_with(rec, provider, model_id) && keys_match(
        recording_key(prompt_view(rec.input.prompt@), rec.input.options@),
        call_key(options),
    ) {
        1
    } else {
        0
    }
}

pub open spec fn score_rank(
    rec: Recording,
    provider: Seq<char>,
    model_id: Seq<char>,
    options: CallOptionsView,
) -> nat {
    if made_with(rec, provider, model_id) {
        score(options.prompt, options.temperature, prompt_view(rec.input.prompt@), rec.input.options@)
    } else {
        0
    }
}

pub open spec fn prefix_rank(
    rec: Recording,
    provider: Seq<char>,
    model_id: Seq<char>,
    options: CallOptionsView,
) -> nat {
    let common = common_messages(options.prompt, prompt_view(rec.input.prompt@));
    if made_with(rec, provider, model_id) && common == rec.input.prompt@.len() {
        common
    } else {
        0
    }
}

impl ExactMatcher {
    pub closed spec fn provider(self) -> Seq<char> {
        self.provider@
    }

    pub closed spec fn model_id(self) -> Seq<char> {
        self.model_id@
    }

    pub fn new(provider: &str, model_id: &str) -> (r: ExactMatcher)
        ensures
            r.provider() == provider@,
            r.model_id() == model_id@,
    {
        ExactMatcher { provider: provider.to_owned(), model_id: model_id.to_owned() }
    }
}

impl ScoreMatcher {
    pub closed spec fn provider(self) -> Seq<char> {
        self.provider@
    }

    pub closed spec fn model_id(self) -> Seq<char> {
        self.model_id@
    }

    pub fn new(provider: &str, model_id: &str) -> (r: ScoreMatcher)
        ensures
            r.provider() == provider@,
            r.model_id() == model_id@,
    {
        ScoreMatcher { provider: provider.to_owned(), model_id: model_id.to_owned() }
    }
}

impl PrefixMatcher {
    pub closed spec fn provider(self) -> Seq<char> {
        self.provider@
    }

    pub closed spec fn model_id(self) -> Seq<char> {
        self.model_id@
    }

    pub fn new(provider: &str, model_id: &str) -> (r: PrefixMatcher)
        ensures
            r.provider() == provider@,
            r.model_id() == model_id@,
    {
        PrefixMatcher { provider: provider.to_owned(), model_id: model_id.to_owned() }
    }
}

pub open spec fn exact_ranks(
    recordings: Seq<Recording>,
    provider: Seq<char>,
    model_id: Seq<char>,
    options: CallOptionsView,
) -> Seq<nat> {
    Seq::new(recordings.len(), |i: int| exact_rank(recordings[i], provider, model_id, options))
}

pub open spec fn score_ranks(
    recordings: Seq<Recording>,
    provider: Seq<char>,
    model_id: Seq<char>,
    options: CallOptionsView,
) -> Seq<nat> {
    Seq::new(recordings.len(), |i: int| score_rank(recordings[i], provider, model_id, options))
}

pub open spec fn prefix_ranks(
    recordings: Seq<Recording>,
    provider: Seq<char>,
    model_id: Seq<char>,
    options: CallOptionsView,
) -> Seq<nat> {
    Seq::new(recordings.len(), |i: int| prefix_rank(recordings[i], provider, model_id, options))
}

fn was_made_with(rec: &Recording, provider: &String, model_id: &String) -> (r: bool)
    ensures
        r == made_with(*rec, provider@, model_id@),
{
    rec.provider.provider == *provider && rec.provider.model_id == *model_id
}

fn take_best<'a>(recordings: &'a [Recording], ranks: &Vec<u128>, words: &str) -> (r: Result<
    &'a Recording,
    AiMuxError,
>)
    requires
        ranks@.len() == recordings@.len(),
    ensures
        match r {
            Ok(rec) => chosen(numbers(ranks@), words@) matches Ok(i) && 0 <= i < recordings@.len() && *rec
                == recordings@[i],
            Err(error) => chosen(numbers(ranks@), words@) == Err::<int, AiMuxErrorView>(error@),
        },
{
    match first_best(ranks) {
        Some(i) => Ok(&recordings[i]),
        None => Err(AiMuxError::InvalidArgument(words.to_owned())),
    }
}

impl ReplayMatcher for ExactMatcher {
    open spec fn verdict(&self, options: CallOptionsView, recordings: Seq<Recording>) -> Result<
        int,
        AiMuxErrorView,
    > {
        chosen(
            exact_ranks(recordings, self.provider(), self.model_id(), options),
            "mock replay: no exact matching recording"@,
        )
    }

    fn select<'a>(&self, options: &CallOptions, recordings: &'a [Recording]) -> (r: Result<
        &'a Recording,
        AiMuxError,
    >) {
        let needle = canonical_call_key(options);
        let mut ranks: Vec<u128> = Vec::new();
        let mut i: usize = 0;
        while i < recordings.len()
            invariant
                i <= recordings@.len(),
                ranks@.len() == i,
                needle@ == call_key(options@),
                forall|k: int|
                    0 <= k < i ==> #[trigger] ranks@[k] == exact_rank(
                        recordings@[k],
                        self.provider@,
                        self.model_id@,
                        options@,
                    ),
            decreases recordings.len() - i,
        {
            let rec = &recordings[i];
            let rank: u128 = if was_made_with(rec, &self.provider, &self.model_id) && canonical_keys_match(
                &canonical_recording_key(rec),
                &needle,
            ) {
                1
            } else {
                0
            };
            ranks.push(rank);
            i = i + 1;
        }
        assert(numbers(ranks@) =~= exact_ranks(recordings@, self.provider(), self.model_id(), options@));
        take_best(recordings, &ranks, "mock replay: no exact matching recording")
    }
}

impl ReplayMatcher for ScoreMatcher {
    open spec fn verdict(&self, options: CallOptionsView, recordings: Seq<Recording>) -> Result<
        int,
        AiMuxErrorView,
    > {
        chosen(
            score_ranks(recordings, self.provider(), self.model_id(), options),
            "mock replay: no scoring match for this input"@,
        )
    }

    fn select<'a>(&self, options: &CallOptions, recordings: &'a [Recording]) -> (r: Result<
        &'a Recording,
        AiMuxError,
    >) {
        let mut ranks: Vec<u128> = Vec::new();
        let mut i: usize = 0;
        while i < recordings.len()
            invariant
                i <= recordings@.len(),
                ranks@.len() == i,
                forall|k: int|
                    0 <= k < i ==> #[trigger] ranks@[k] == score_rank(
                        recordings@[k],
                        self.provider@,
                        self.model_id@,
                        options@,
                    ),
            decreases recordings.len() - i,
        {
            let rec = &recordings[i];
            let rank: u128 = if was_made_with(rec, &self.provider, &self.model_id) {
                match_score(options, rec)
            } else {
                0
            };
            ranks.push(rank);
            i = i + 1;
        }
        assert(numbers(ranks@) =~= score_ranks(recordings@, self.provider(), self.model_id(), options@));
        take_best(recordings, &ranks, "mock replay: no scoring match for this input")
    }
}

impl ReplayMatcher for PrefixMatcher {
    open spec fn verdict(&self, options: CallOptionsView, recordings: Seq<Recording>) -> Result<
        int,
        AiMuxErrorView,
    > {
        chosen(
            prefix_ranks(recordings, self.provider(), self.model_id(), options),
            "mock replay: no prefix match for this input"@,
        )
    }

    fn select<'a>(&self, options: &CallOptions, recordings: &'a [Recording]) -> (r: Result<
        &'a Recording,
        AiMuxError,
    >) {
        let mut ranks: Vec<u128> = Vec::new();
        let mut i: usize = 0;
        while i < recordings.len()
            invariant
                i <= recordings@.len(),
                ranks@.len() == i,
                forall|k: int|
                    0 <= k < i ==> #[trigger] ranks@[k] == prefix_rank(
                        recordings@[k],
                        self.provider@,
                        self.model_id@,
                        options@,
                    ),
            decreases recordings.len() - i,
        {
            let rec = &recordings[i];
            let common: usize = count_common(&options.prompt, &rec.input.prompt);
            let rank: u128 = if was_made_with(rec, &self.provider, &self.model_id) && common
                == rec.input.prompt.len() {
                common as u128
            } else {
                0
            };
            ranks.push(rank);
            i = i + 1;
        }
        assert(numbers(ranks@) =~= prefix_ranks(recordings@, self.provider(), self.model_id(), options@));
        take_best(recordings, &ranks, "mock replay: no prefix match for this input")
    }
}

// Recorded answers.

/// Whether an exchange ended well: finalized, without an error, and with a
/// success status.
pub open spec fn succeeded(exchange: HttpExchange) -> bool {
    exchange.finalized && exchange.error is None && (exchange.response matches Some(response) && 200
        <= response.status < 300)
}

/// The place of the last exchange that ended well, or -1.
pub open spec fn last_success(exchanges: Seq<HttpExchange>) -> int
    decreases exchanges.len(),
{
    if exchanges.len() == 0 {
        -1
    } else if succeeded(exchanges.last()) {
        exchanges.len() - 1
    } else {
        last_success(exchanges.drop_last())
    }
}

pub proof fn lemma_last_success(exchanges: Seq<HttpExchange>)
    ensures
        -1 <= last_success(exchanges) < exchanges.len(),
        last_success(exchanges) >= 0 ==> succeeded(exchanges[last_success(exchanges)]),
        forall|k: int| last_success(exchanges) < k < exchanges.len() ==> !succeeded(#[trigger] exchanges[k]),
    decreases exchanges.len(),
{
    if exchanges.len() > 0 && !succeeded(exchanges.last()) {
        lemma_last_success(exchanges.drop_last());
        assert forall|k: int| last_success(exchanges) < k < exchanges.len() implies !succeeded(
            #[trigger] exchanges[k],
        ) by {
            if k < exchanges.len() - 1 {
                assert(exchanges.drop_last()[k] == exchanges[k]);
            }
        }
    }
}

pub open spec fn no_response() -> AiMuxErrorView {
    AiMuxErrorView::InvalidArgument(
        "mock replay: recording has no successful (2xx, finalized, error-free) response"@,
    )
}

/// The response of the last exchange that ended well.
pub fn last_response(rec: &Recording) -> (r: Result<&ResponseRecord, AiMuxError>)
    ensures
        match r {
            Ok(response) => 0 <= last_success(rec.exchanges@) < rec.exchanges@.len() && rec.exchanges@[last_success(
                rec.exchanges@,
            )].response == Some(*response),
            Err(error) => last_success(rec.exchanges@) == -1 && error@ == no_response(),
        },
{
    let mut i: usize = rec.exchanges.len();
    let ghost all = rec.exchanges@;
    assert(all.take(i as int) =~= all);
    while i > 0
        invariant
            i <= all.len(),
            all == rec.exchanges@,
            last_success(all) == last_success(all.take(i as int)),
        decreases i,
    {
        i = i - 1;
        assert(all.take(i + 1).last() == all[i as int]);
        assert(all.take(i + 1).drop_last() =~= all.take(i as int));
        let exchange = &rec.exchanges[i];
        if exchange.finalized && exchange.error.is_none() {
            if let Some(response) = &exchange.response {
                if 200 <= response.status && response.status < 300 {
                    return Ok(response);
                }
            }
        }
    }
    Err(
        AiMuxError::InvalidArgument(
            "mock replay: recording has no successful (2xx, finalized, error-free) response".to_owned(),
        ),
    )
}

/// The body that a recording answers with.
pub open spec fn recorded_body(rec: Recording) -> Result<Seq<char>, AiMuxErrorView> {
    let i = last_success(rec.exchanges@);
    if i < 0 {
        Err(no_response())
    } else {
        match rec.exchanges@[i].response {
            Some(response) => match response.body {
                Some(body) => Ok(body@),
                None => Err(AiMuxErrorView::InvalidArgument("mock replay: response has no body"@)),
            },
            None => Err(no_response()),
        }
    }
}

fn body_of(rec: &Recording) -> (r: Result<&String, AiMuxError>)
    ensures
        recorded_body(*rec) == (match r {
            Ok(body) => Ok(body@),
            Err(error) => Err(error@),
        }),
{
    match last_response(rec) {
        Ok(response) => match &response.body {
            Some(body) => Ok(body),
            None => Err(AiMuxError::InvalidArgument("mock replay: response has no body".to_owned())),
        },
        Err(error) => Err(error),
    }
}

/// The result that a recording answers with.
pub open spec fn recorded_result(rec: Recording) -> Result<GenerateResultView, AiMuxErrorView> {
    match recorded_body(rec) {
        Ok(body) => generate_of_body(body),
        Err(error) => Err(error),
    }
}

/// The stream that a recording answers with.
pub open spec fn recorded_stream(rec: Recording) -> Result<Seq<StreamPartView>, AiMuxErrorView> {
    match recorded_body(rec) {
        Ok(body) => stream_of_body(body),
        Err(error) => Err(error),
    }
}

/// Rebuild the result of a recorded call.
pub fn rebuild_generate_result(rec: &Recording) -> (r: Result<GenerateResult, AiMuxError>)
    ensures
        recorded_result(*rec) == (match r {
            Ok(result) => Ok(result@),
            Err(error) => Err(error@),
        }),
{
    match body_of(rec) {
        Ok(body) => generate_result_of_body(body.as_str()),
        Err(error) => Err(error),
    }
}

/// Rebuild the stream of a recorded call.
pub fn rebuild_stream_result(rec: &Recording) -> (r: Result<Vec<StreamPart>, AiMuxError>)
    ensures
        recorded_stream(*rec) == (match r {
            Ok(parts) => Ok(stream_view(parts@)),
            Err(error) => Err(error@),
        }),
{
    match body_of(rec) {
        Ok(body) => stream_parts_of_body(body.as_str()),
        Err(error) => Err(error),
    }
}

// Recording files.

/// The lines that hold something, with their numbers.
pub open spec fn kept_lines(list: Seq<Seq<char>>) -> Seq<(nat, Seq<char>)>
    decreases list.len(),
{
    if list.len() == 0 {
        seq![]
    } else if trimmed(list.last()).len() == 0 {
        kept_lines(list.drop_last())
    } else {
        kept_lines(list.drop_last()).push((list.len(), list.last()))
    }
}

/// The views of numbered lines.
pub open spec fn numbered(list: Seq<(usize, String)>) -> Seq<(nat, Seq<char>)> {
    Seq::new(list.len(), |i: int| (list[i].0 as nat, list[i].1@))
}

/// The lines of a text that hold something, with their numbers.
pub fn lines_that_say(content: &str) -> (r: Vec<(usize, String)>)
    ensures
        numbered(r@) == kept_lines(lines(content@)),
{
    let list = split_lines(content);
    let ghost all = texts(list@);
    let mut out: Vec<(usize, String)> = Vec::new();
    let mut i: usize = 0;
    assert(all.take(0) =~= Seq::<Seq<char>>::empty());
    assert(numbered(out@) =~= kept_lines(all.take(0)));
    while i < list.len()
        invariant
            i <= list.len(),
            all == texts(list@),
            numbered(out@) == kept_lines(all.take(i as int)),
        decreases list.len() - i,
    {
        assert(all.take(i + 1).drop_last() =~= all.take(i as int));
        assert(all.take(i + 1).last() == list@[i as int]@);
        if !is_blank_text(list[i].as_str()) {
            let ghost before = numbered(out@);
            out.push((i + 1, list[i].clone()));
            assert(numbered(out@) =~= before.push(((i + 1) as nat, all[i as int])));
        }
        i = i + 1;
    }
    assert(all.take(i as int) =~= all);
    out
}

/// Whether a decoder answers a line in this way.
pub open spec fn decodes<E, F: Fn(&str) -> Result<Recording, E>>(
    decode: F,
    line: Seq<char>,
    answer: Result<Recording, E>,
) -> bool {
    exists|text: &str| text@ == line && #[trigger] call_ensures(decode, (text,), answer)
}

/// Whether these recordings are what a decoder reads from the lines.
pub open spec fn all_decode<E, F: Fn(&str) -> Result<Recording, E>>(
    decode: F,
    kept: Seq<(nat, Seq<char>)>,
    recordings: Seq<Recording>,
) -> bool {
    kept.len() == recordings.len() && forall|i: int|
        0 <= i < kept.len() ==> decodes::<E, F>(decode, kept[i].1, Ok(#[trigger] recordings[i]))
}

/// Whether a decoder reads the lines before line `number` and refuses that one
/// for this cause.
pub open spec fn refuses<E, F: Fn(&str) -> Result<Recording, E>>(
    decode: F,
    kept: Seq<(nat, Seq<char>)>,
    number: nat,
    cause: E,
) -> bool {
    exists|i: int, before: Seq<Recording>|
        0 <= i < kept.len() && kept[i].0 == number && #[trigger] all_decode::<E, F>(decode, kept.take(i), before)
            && decodes::<E, F>(decode, kept[i].1, Err(cause))
}

/// Read recordings, one to a line. The first line that is refused ends the
/// reading, with its number.
pub fn read_recordings<E, F: Fn(&str) -> Result<Recording, E>>(kept: &Vec<(usize, String)>, decode: &F) -> (r:
    Result<Vec<Recording>, (usize, E)>)
    requires
        forall|line: &str| #[trigger] call_requires(*decode, (line,)),
    ensures
        match r {
            Ok(list) => all_decode::<E, F>(*decode, numbered(kept@), list@),
            Err((number, cause)) => refuses(*decode, numbered(kept@), number as nat, cause),
        },
{
    let ghost all = numbered(kept@);
    let mut out: Vec<Recording> = Vec::new();
    let mut i: usize = 0;
    while i < kept.len()
        invariant
            i <= kept.len(),
            all == numbered(kept@),
            all_decode::<E, F>(*decode, all.take(i as int), out@),
            forall|line: &str| #[trigger] call_requires(*decode, (line,)),
        decreases kept.len() - i,
    {
        match decode(kept[i].1.as_str()) {
            Ok(rec) => {
                let ghost before = out@;
                out.push(rec);
                assert(decodes::<E, F>(*decode, all[i as int].1, Ok(rec)));
                proof {
                    let now = all.take(i + 1);
                    assert forall|k: int| 0 <= k < now.len() implies decodes::<E, F>(
                        *decode,
                        now[k].1,
                        Ok(#[trigger] out@[k]),
                    ) by {
                        if k < i {
                            assert(out@[k] == before[k]);
                            assert(now[k] == all.take(i as int)[k]);
                        }
                    }
                }
            },
            Err(cause) => {
                assert(decodes::<E, F>(*decode, all[i as int].1, Err(cause)));
                assert(all_decode::<E, F>(*decode, all.take(i as int), out@));
                return Err((kept[i].0, cause));
            },
        }
        i = i + 1;
    }
    assert(all.take(i as int) =~= all);
    Ok(out)
}

// The replaying model.

/// A model that answers every call from recordings.
pub struct MockReplayModel<M> {
    provider: String,
    model_id: String,
    recordings: Vec<Recording>,
    matcher: M,
}

impl MockReplayModel<ScoreMatcher> {
    /// Answer from recordings by score.
    pub fn new(provider: &str, model_id: &str, recordings: Vec<Recording>) -> (r: Self)
        ensures
            r.provider_name() == provider@,
            r.model_name() == model_id@,
            r.recorded() == recordings@,
            r.strategy().provider() == provider@,
            r.strategy().model_id() == model_id@,
    {
        MockReplayModel {
            provider: provider.to_owned(),
            model_id: model_id.to_owned(),
            recordings,
            matcher: ScoreMatcher::new(provider, model_id),
        }
    }

    /// Answer from a recording file, with the provider and model of its first
    /// recording.
    pub fn from_jsonl<F: Fn(&str) -> Result<Recording, String>>(content: &str, decode: &F) -> (r: Result<
        Self,
        AiMuxError,
    >)
        requires
            forall|line: &str| #[trigger] call_requires(*decode, (line,)),
        ensures
            match r {
                Ok(model) => {
                    &&& model.recorded().len() > 0
                    &&& all_decode::<String, F>(*decode, kept_lines(lines(content@)), model.recorded())
                    &&& model.provider_name() == model.recorded()[0].provider.provider@
                    &&& model.model_name() == model.recorded()[0].provider.model_id@
                    &&& model.strategy().provider() == model.provider_name()
                    &&& model.strategy().model_id() == model.model_name()
                },
                Err(AiMuxError::InvalidArgument(words)) => words@ == "mock replay: empty recording file"@
                    && kept_lines(lines(content@)).len() == 0,
                Err(AiMuxError::JsonParse(words)) => exists|number: nat, cause: String|
                    #[trigger] refuses(*decode, kept_lines(lines(content@)), number, cause) && words@
                        == "mock replay line "@ + decimal(number) + ": "@ + cause@,
                Err(_) => false,
            },
    {
        let kept = lines_that_say(content);
        match read_recordings(&kept, decode) {
            Err((number, cause)) => {
                let text = join4(
                    "mock replay line ",
                    decimal_text(number as u64).as_str(),
                    ": ",
                    cause.as_str(),
                );
                assert(refuses(*decode, kept_lines(lines(content@)), number as nat, cause));
                Err(AiMuxError::JsonParse(text))
            },
            Ok(recordings) => {
                if recordings.len() == 0 {
                    return Err(AiMuxError::InvalidArgument("mock replay: empty recording file".to_owned()));
                }
                let provider = recordings[0].provider.provider.clone();
                let model_id = recordings[0].provider.model_id.clone();
                Ok(MockReplayModel::new(provider.as_str(), model_id.as_str(), recordings))
            },
        }
    }
}

impl<M> MockReplayModel<M> {
    pub closed spec fn provider_name(self) -> Seq<char> {
        self.provider@
    }

    pub closed spec fn model_name(self) -> Seq<char> {
        self.model_id@
    }

    pub closed spec fn recorded(self) -> Seq<Recording> {
        self.recordings@
    }

    pub closed spec fn strategy(self) -> M {
        self.matcher
    }
}

impl<M: ReplayMatcher> MockReplayModel<M> {
    /// Answer from recordings in the matcher's way.
    pub fn with_matcher(provider: &str, model_id: &str, recordings: Vec<Recording>, matcher: M) -> (r: Self)
        ensures
            r.provider_name() == provider@,
            r.model_name() == model_id@,
            r.recorded() == recordings@,
            r.strategy() == matcher,
    {
        MockReplayModel {
            provider: provider.to_owned(),
            model_id: model_id.to_owned(),
            recordings,
            matcher,
        }
    }

    pub fn recordings(&self) -> (r: &[Recording])
        ensures
            r@ == self.recorded(),
    {
        self.recordings.as_slice()
    }

    pub fn provider(&self) -> (r: &str)
        ensures
            r@ == self.provider_name(),
    {
        self.provider.as_str()
    }

    pub fn model_id(&self) -> (r: &str)
        ensures
            r@ == self.model_name(),
    {
        self.model_id.as_str()
    }

    /// The result of the recording that the matcher takes.
    pub fn do_generate(&self, options: &CallOptions) -> (r: Result<GenerateResult, AiMuxError>)
        ensures
            (match r {
                Ok(result) => Ok(result@),
                Err(error) => Err(error@),
            }) == (match self.strategy().verdict(options@, self.recorded()) {
                Ok(i) => recorded_result(self.recorded()[i]),
                Err(error) => Err(error),
            }),
    {
        match self.matcher.select(options, self.recordings.as_slice()) {
            Ok(rec) => rebuild_generate_result(rec),
            Err(error) => Err(error),
        }
    }

    /// The stream of the recording that the matcher takes.
    pub fn do_stream(&self, options: &CallOptions) -> (r: Result<Vec<StreamPart>, AiMuxError>)
        ensures
            (match r {
                Ok(parts) => Ok(stream_view(parts@)),
                Err(error) => Err(error@),
            }) == (match self.strategy().verdict(options@, self.recorded()) {
                Ok(i) => recorded_stream(self.recorded()[i]),
                Err(error) => Err(error),
            }),
    {
        match self.matcher.select(options, self.recordings.as_slice()) {
            Ok(rec) => rebuild_stream_result(rec),
            Err(error) => Err(error),
        }
    }
}

} // verus!
