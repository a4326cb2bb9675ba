//! Small facts about a generation: why it stopped, what it used, who answered.
use crate::error::{copy_json, json_view};
use crate::json::{Json, JsonView};
use crate::json_text::text_view;
use crate::text::copy_text;
use vstd::prelude::*;

verus! {

#[derive(Clone, Copy, PartialEq, Eq, Structural, Debug)]
pub enum FinishReasonUnified {
    Stop,
    Length,
    ContentFilter,
    ToolCalls,
    Error,
    Other,
}

/// Why generation stopped, and the provider's own word for it.
pub struct FinishReason {
    pub unified: FinishReasonUnified,
    pub raw: Option<String>,
}

#[derive(Clone, Copy, PartialEq, Eq, Structural, Debug)]
pub struct TokenUsage {
    pub total: Option<u32>,
    pub no_cache: Option<u32>,
    pub cache_read: Option<u32>,
    pub cache_write: Option<u32>,
    pub text: Option<u32>,
    pub reasoning: Option<u32>,
}

pub struct Usage {
    pub input_tokens: TokenUsage,
    pub output_tokens: TokenUsage,
    /// What the provider reported, as it reported it.
    pub raw: Option<Json>,
}

pub struct ResponseMetadata {
    pub id: Option<String>,
    pub timestamp: Option<String>,
    pub model_id: Option<String>,
}

#[verifier::ext_equal]
pub struct FinishReasonView {
    pub unified: FinishReasonUnified,
    pub raw: Option<Seq<char>>,
}

#[verifier::ext_equal]
pub struct UsageView {
    pub input_tokens: TokenUsage,
    pub output_tokens: TokenUsage,
    pub raw: Option<JsonView>,
}

#[verifier::ext_equal]
pub struct ResponseMetadataView {
    pub id: Option<Seq<char>>,
    pub timestamp: Option<Seq<char>>,
    pub model_id: Option<Seq<char>>,
}

impl View for FinishReason {
    type V = FinishReasonView;

    open spec fn view(&self) -> FinishReasonView {
        FinishReasonView { unified: self.unified, raw: text_view(self.raw) }
    }
}

impl View for Usage {
    type V = UsageView;

    open spec fn view(&self) -> UsageView {
        UsageView {
            input_tokens: self.input_tokens,
            output_tokens: self.output_tokens,
            raw: json_view(self.raw),
        }
    }
}

impl View for ResponseMetadata {
    type V = ResponseMetadataView;

    open spec fn view(&self) -> ResponseMetadataView {
        ResponseMetadataView {
            id: text_view(self.id),
            timestamp: text_view(self.timestamp),
            model_id: text_view(self.model_id),
        }
    }
}

/// Nothing known of the tokens.
pub open spec fn no_tokens() -> TokenUsage {
    TokenUsage { total: None, no_cache: None, cache_read: None, cache_write: None, text: None, reasoning: None }
}

pub open spec fn no_usage() -> UsageView {
    UsageView { input_tokens: no_tokens(), output_tokens: no_tokens(), raw: None }
}

impl TokenUsage {
    pub fn unknown() -> (r: TokenUsage)
        ensures
            r == no_tokens(),
    {
        TokenUsage {
            total: None,
            no_cache: None,
            cache_read: None,
            cache_write: None,
            text: None,
            reasoning: None,
        }
    }
}

impl Usage {
    pub fn unknown() -> (r: Usage)
        ensures
            r@ == no_usage(),
    {
        Usage { input_tokens: TokenUsage::unknown(), output_tokens: TokenUsage::unknown(), raw: None }
    }

    pub fn copy(&self) -> (r: Usage)
        ensures
            r@ == self@,
    {
        Usage {
            input_tokens: self.input_tokens,
            output_tokens: self.output_tokens,
            raw: copy_json(&self.raw),
        }
    }
}

impl FinishReason {
    pub fn copy(&self) -> (r: FinishReason)
        ensures
            r@ == self@,
    {
        FinishReason { unified: self.unified, raw: copy_text(&self.raw) }
    }
}

impl ResponseMetadata {
    pub fn unknown() -> (r: ResponseMetadata)
        ensures
            r@ == (ResponseMetadataView { id: None, timestamp: None, model_id: None }),
    {
        ResponseMetadata { id: None, timestamp: None, model_id: None }
    }

    pub fn copy(&self) -> (r: ResponseMetadata)
        ensures
            r@ == self@,
    {
        ResponseMetadata {
            id: copy_text(&self.id),
            timestamp: copy_text(&self.timestamp),
            model_id: copy_text(&self.model_id),
        }
    }
}

} // verus!
