//! Recorded calls.
use crate::json::Json;
use crate::message::LanguageModelPromptMessage;
use vstd::prelude::*;

verus! {

/// What a recorded call was asked.
pub struct InputRecord {
    pub prompt: Vec<LanguageModelPromptMessage>,
    /// The options as they were written, secrets redacted.
    pub options: Json,
}

/// Who a recorded call was sent to.
pub struct ProviderRecord {
    pub provider: String,
    pub model_id: String,
    pub base_url: Option<String>,
    pub api_key_source: String,
}

pub struct HttpRecord {
    pub method: String,
    pub url: String,
    pub headers: Vec<(String, String)>,
    pub body: Option<String>,
}

pub struct ResponseRecord {
    pub status: u16,
    pub headers: Vec<(String, String)>,
    pub body: Option<String>,
    pub stream_chunks: Option<u64>,
    pub ttfb_ms: Option<u64>,
}

/// One attempt at the provider.
pub struct HttpExchange {
    pub step: Option<String>,
    pub attempt: u32,
    pub exchange_index: u32,
    pub request: HttpRecord,
    pub response: Option<ResponseRecord>,
    pub error: Option<String>,
    pub finalized: bool,
}

/// A recorded call: what it was asked, who it was sent to, what came back.
pub struct Recording {
    pub schema: u32,
    pub call_id: String,
    pub recorded_at: String,
    pub input: InputRecord,
    pub provider: ProviderRecord,
    pub exchanges: Vec<HttpExchange>,
    pub complete: bool,
    pub transport_closed: bool,
    pub session_id: Option<String>,
    pub step: Option<String>,
}

} // verus!
