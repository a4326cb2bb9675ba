//! What errors say to a reader.
use crate::error::{
    copy_errors, errors, lemma_retry_model, pairs, AiMuxError, AiMuxErrorView, ApiCallError, ApiCallErrorView,
    Pairs, RetryErrorReason,
};
use crate::text::{decimal, decimal_text, join2, join3, join4, read_decimal, same_text, texts};
use vstd::prelude::*;
use vstd::string::*;

verus! {

/// The message of a failed provider call.
pub open spec fn api_call_words(detail: ApiCallErrorView) -> Seq<char> {
    match detail.status_code {
        Some(status) => "API call error: HTTP "@ + decimal(status as nat) + ": "@ + detail.message,
        None => "API call error: "@ + detail.message,
    }
}

/// Texts behind one another, separated by a comma.
pub open spec fn listed(list: Seq<Seq<char>>) -> Seq<char>
    decreases list.len(),
{
    if list.len() == 0 {
        ""@
    } else if list.len() == 1 {
        list[0]
    } else {
        listed(list.drop_last()) + ", "@ + list.last()
    }
}

/// What is said of the tools that there are.
pub open spec fn available_words(tools: Option<Seq<Seq<char>>>) -> Seq<char> {
    match tools {
        Some(list) => "Available tools: "@ + listed(list) + "."@,
        None => "No tools are available."@,
    }
}

/// The message of an error.
pub open spec fn error_words(error: AiMuxErrorView) -> Seq<char>
    decreases error,
{
    match error {
        AiMuxErrorView::ApiCall(detail) => api_call_words(detail),
        AiMuxErrorView::Retry(reason, list) => {
            let last = if list.len() > 0 {
                error_words(list[list.len() - 1])
            } else {
                ""@
            };
            match reason {
                RetryErrorReason::MaxRetriesExceeded => "Failed after "@ + decimal(list.len())
                    + " attempts. Last error: "@ + last,
                RetryErrorReason::ErrorNotRetryable => "Failed after "@ + decimal(list.len())
                    + " attempts with non-retryable error: "@ + last,
            }
        },
        AiMuxErrorView::JsonParse(text) => text,
        AiMuxErrorView::InvalidResponseData(text) => text,
        AiMuxErrorView::NoSuchTool { tool_name, available_tools, .. } => "Model tried to call unavailable tool '"@
            + tool_name + "'. "@ + available_words(available_tools),
        AiMuxErrorView::InvalidToolInput { tool_name, cause, .. } => "Invalid input for tool "@ + tool_name + ": "@
            + cause,
        AiMuxErrorView::ToolCallRepair { cause, .. } => "Error repairing tool call: "@ + error_words(*cause),
        AiMuxErrorView::InvalidArgument(text) => text,
        AiMuxErrorView::InvalidPrompt(text) => text,
        AiMuxErrorView::TokenExpired(text) => text,
        AiMuxErrorView::UnsupportedFunctionality(text) => text,
        AiMuxErrorView::NoSuchModel { model_id, model_type } => "No such "@ + model_type + " model: "@ + model_id,
        AiMuxErrorView::NoSuchProvider { provider_id } => "No such provider: "@ + provider_id,
        AiMuxErrorView::Timeout(text) => text,
        AiMuxErrorView::Aborted(text) => text,
        AiMuxErrorView::Other(text) => text,
    }
}

fn list_texts(list: &Vec<String>) -> (r: String)
    ensures
        r@ == listed(texts(list@)),
{
    let ghost all = texts(list@);
    if list.len() == 0 {
        return "".to_owned();
    }
    let mut out = list[0].clone();
    let mut i: usize = 1;
    assert(all.take(1) =~= seq![all[0]]);
    while i < list.len()
        invariant
            1 <= i <= list.len(),
            all == texts(list@),
            out@ == listed(all.take(i as int)),
        decreases list.len() - i,
    {
        assert(all.take(i + 1).drop_last() =~= all.take(i as int));
        assert(all.take(i + 1).last() == list@[i as int]@);
        out = join3(out.as_str(), ", ", list[i].as_str());
        i = i + 1;
    }
    assert(all.take(i as int) =~= all);
    out
}

fn api_call_message(detail: &ApiCallError) -> (r: String)
    ensures
        r@ == api_call_words(detail@),
{
    match detail.status_code {
        Some(status) => join4(
            "API call error: HTTP ",
            decimal_text(status as u64).as_str(),
            ": ",
            detail.message.as_str(),
        ),
        None => join2("API call error: ", detail.message.as_str()),
    }
}

impl AiMuxError {
    /// The message of the error.
    pub fn message(&self) -> (r: String)
        ensures
            r@ == error_words(self@),
        decreases self,
    {
        match self {
            AiMuxError::ApiCall(detail) => api_call_message(detail),
            AiMuxError::Retry(retry) => {
                proof {
                    lemma_retry_model(*retry);
                    assert(decreases_to!(*self => self->Retry_0));
                    assert(decreases_to!(*retry => retry.errors));
                }
                let n: usize = retry.errors.len();
                let last: String = if n > 0 {
                    proof {
                        assert(decreases_to!(retry.errors => retry.errors@));
                        assert(decreases_to!(retry.errors@ => retry.errors@[n - 1]));
                    }
                    retry.errors[n - 1].message()
                } else {
                    "".to_owned()
                };
                let count = decimal_text(n as u64);
                match retry.reason {
                    RetryErrorReason::MaxRetriesExceeded => join4(
                        "Failed after ",
                        count.as_str(),
                        " attempts. Last error: ",
                        last.as_str(),
                    ),
                    RetryErrorReason::ErrorNotRetryable => join4(
                        "Failed after ",
                        count.as_str(),
                        " attempts with non-retryable error: ",
                        last.as_str(),
                    ),
                }
            },
            AiMuxError::JsonParse(text) => text.clone(),
            AiMuxError::InvalidResponseData(text) => text.clone(),
            AiMuxError::NoSuchTool { tool_name, available_tools, .. } => {
                let available: String = match available_tools {
                    Some(list) => join3("Available tools: ", list_texts(list).as_str(), "."),
                    None => "No tools are available.".to_owned(),
                };
                join4("Model tried to call unavailable tool '", tool_name.as_str(), "'. ", available.as_str())
            },
            AiMuxError::InvalidToolInput { tool_name, cause, .. } => join4(
                "Invalid input for tool ",
                tool_name.as_str(),
                ": ",
                cause.as_str(),
            ),
            AiMuxError::ToolCallRepair { cause, .. } => join2(
                "Error repairing tool call: ",
                cause.message().as_str(),
            ),
            AiMuxError::InvalidArgument(text) => text.clone(),
            AiMuxError::InvalidPrompt(text) => text.clone(),
            AiMuxError::TokenExpired(text) => text.clone(),
            AiMuxError::UnsupportedFunctionality(text) => text.clone(),
            AiMuxError::NoSuchModel { model_id, model_type } => join4(
                "No such ",
                model_type.as_str(),
                " model: ",
                model_id.as_str(),
            ),
            AiMuxError::NoSuchProvider { provider_id } => join2("No such provider: ", provider_id.as_str()),
            AiMuxError::Timeout(text) => text.clone(),
            AiMuxError::Aborted(text) => text.clone(),
            AiMuxError::Other(text) => text.clone(),
        }
    }

    /// When to retry a provider call, in milliseconds, where the provider
    /// said so.
    pub fn retry_after_hint(&self) -> (r: Option<i64>)
        ensures
            r == retry_hint(self@),
    {
        match self {
            AiMuxError::ApiCall(detail) => match &detail.response_headers {
                Some(list) => header_hint(list),
                None => None,
            },
            _ => None,
        }
    }
}

/// The value of a header.
pub open spec fn header(list: Pairs, name: Seq<char>) -> Option<Seq<char>>
    decreases list.len(),
{
    if list.len() == 0 {
        None
    } else if list[0].0 == name {
        Some(list[0].1)
    } else {
        header(list.drop_first(), name)
    }
}

/// The number of milliseconds that a text is the decimal of.
pub open spec fn millis(text: Seq<char>) -> Option<i64> {
    if exists|n: i64| 0 <= n && text == #[trigger] decimal(n as nat) {
        Some(choose|n: i64| 0 <= n && text == #[trigger] decimal(n as nat))
    } else {
        None
    }
}

/// When to retry, in milliseconds, as the response headers of a provider call
/// say.
pub open spec fn retry_hint(error: AiMuxErrorView) -> Option<i64> {
    match error {
        AiMuxErrorView::ApiCall(detail) => match detail.response_headers {
            Some(list) => match header(list, "retry-after-ms"@) {
                Some(text) => millis(text),
                None => None,
            },
            None => None,
        },
        _ => None,
    }
}

fn read_millis(text: &str) -> (r: Option<i64>)
    ensures
        r == millis(text@),
{
    match read_decimal(text) {
        Some(n) => {
            if n <= 9223372036854775807 {
                let value: i64 = n as i64;
                proof {
                    assert(text@ == decimal(value as nat));
                    let chosen = choose|n: i64| 0 <= n && text@ == #[trigger] decimal(n as nat);
                    crate::text::lemma_decimal_injective(chosen as nat, value as nat);
                }
                Some(value)
            } else {
                assert forall|k: i64| 0 <= k implies text@ != #[trigger] decimal(k as nat) by {
                    if text@ == decimal(k as nat) {
                        crate::text::lemma_decimal_injective(k as nat, n as nat);
                    }
                }
                None
            }
        },
        None => {
            assert forall|k: i64| 0 <= k implies text@ != #[trigger] decimal(k as nat) by {
                assert(text@ != decimal((k as u64) as nat));
            }
            None
        },
    }
}

proof fn lemma_header(list: Pairs, name: Seq<char>, i: int)
    requires
        0 <= i <= list.len(),
        forall|k: int| 0 <= k < i ==> (#[trigger] list[k]).0 != name,
        i < list.len() ==> list[i].0 == name,
    ensures
        header(list, name) == (if i < list.len() {
            Some(list[i].1)
        } else {
            None
        }),
    decreases i,
{
    if i > 0 {
        assert(list[0].0 != name);
        assert forall|k: int| 0 <= k < i - 1 implies (#[trigger] list.drop_first()[k]).0 != name by {
            assert(list[k + 1].0 != name);
        }
        lemma_header(list.drop_first(), name, i - 1);
    }
}

fn header_hint(list: &Vec<(String, String)>) -> (r: Option<i64>)
    ensures
        r == (match header(pairs(list@), "retry-after-ms"@) {
            Some(text) => millis(text),
            None => None,
        }),
{
    let mut i: usize = 0;
    while i < list.len()
        invariant
            i <= list.len(),
            forall|k: int| 0 <= k < i ==> (#[trigger] pairs(list@)[k]).0 != "retry-after-ms"@,
        decreases list.len() - i,
    {
        assert(pairs(list@)[i as int] == (list@[i as int].0@, list@[i as int].1@));
        if same_text(list[i].0.as_str(), "retry-after-ms") {
            proof {
                lemma_header(pairs(list@), "retry-after-ms"@, i as int);
            }
            return read_millis(list[i].1.as_str());
        }
        i = i + 1;
    }
    proof {
        lemma_header(pairs(list@), "retry-after-ms"@, i as int);
    }
    None
}

// Retrying.

/// What follows a failed attempt.
pub enum RetryStep {
    Again,
    GiveUp(AiMuxError),
}

#[verifier::ext_equal]
pub enum RetryStepView {
    Again,
    GiveUp(AiMuxErrorView),
}

impl View for RetryStep {
    type V = RetryStepView;

    open spec fn view(&self) -> RetryStepView {
        match *self {
            RetryStep::Again => RetryStepView::Again,
            RetryStep::GiveUp(error) => RetryStepView::GiveUp(error@),
        }
    }
}

/// What follows the last of these failed attempts. Only a retryable failure is
/// tried again, as often as is allowed; a first failure that is not tried
/// again is reported as it is.
pub open spec fn after_failures(failures: Seq<AiMuxErrorView>, max_retries: u32) -> RetryStepView {
    let last = failures.last();
    let retryable = last is ApiCall && last->ApiCall_0.is_retryable;
    if retryable && failures.len() <= max_retries {
        RetryStepView::Again
    } else if failures.len() == 1 {
        RetryStepView::GiveUp(last)
    } else if retryable {
        RetryStepView::GiveUp(AiMuxErrorView::Retry(RetryErrorReason::MaxRetriesExceeded, failures))
    } else {
        RetryStepView::GiveUp(AiMuxErrorView::Retry(RetryErrorReason::ErrorNotRetryable, failures))
    }
}

/// What follows the last of these failed attempts.
pub fn next_attempt(failures: &Vec<AiMuxError>, max_retries: u32) -> (r: RetryStep)
    requires
        failures@.len() > 0,
    ensures
        r@ == after_failures(errors(failures@), max_retries),
{
    let n: usize = failures.len();
    let last = &failures[n - 1];
    assert(errors(failures@).last() == last@);
    let retryable: bool = last.is_retryable();
    if retryable && n as u64 <= max_retries as u64 {
        return RetryStep::Again;
    }
    if n == 1 {
        return RetryStep::GiveUp(last.copy());
    }
    let reason: RetryErrorReason = if retryable {
        RetryErrorReason::MaxRetriesExceeded
    } else {
        RetryErrorReason::ErrorNotRetryable
    };
    let retry = crate::error::RetryError { reason, errors: copy_errors(failures) };
    proof {
        lemma_retry_model(retry);
    }
    RetryStep::GiveUp(AiMuxError::Retry(retry))
}

/// Retrying ends: no more than the allowed number of failures is tried again,
/// none at all when none is allowed.
pub proof fn law_retries_are_bounded(failures: Seq<AiMuxErrorView>, max_retries: u32)
    requires
        failures.len() > 0,
    ensures
        failures.len() > max_retries ==> after_failures(failures, max_retries) is GiveUp,
        max_retries == 0 ==> after_failures(failures, max_retries) is GiveUp,
{
}

/// A first failure that is not tried again is reported as it is; later ones
/// are reported together, oldest first.
pub proof fn law_failures_are_reported(failures: Seq<AiMuxErrorView>, max_retries: u32)
    requires
        failures.len() > 0,
    ensures
        after_failures(failures, max_retries) matches RetryStepView::GiveUp(error) ==> if failures.len() == 1 {
            error == failures[0]
        } else {
            error matches AiMuxErrorView::Retry(_, reported) && reported == failures
        },
{
}

} // verus!
