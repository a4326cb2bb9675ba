//! The assistant messages that a generation leaves for the next turn.
use crate::error::{copy_json, json_view};
use crate::json::{lemma_model, Json, JsonObject, JsonView};
use crate::message::{
    messages_view, parts_view, ContentPart, ContentPartView, MessageContent, MessageContentView, ModelMessage,
    ModelMessageView, Role,
};
use crate::result::{ReasoningPart, ReasoningPartView, ToolResultPart, ToolResultPartView};
use crate::text::copy_text;
use crate::tool::{ToolCall, ToolCallView};
use crate::wire::{json_object, no_fields};
use vstd::prelude::*;
use vstd::string::*;

verus! {

/// The input under which a call is replayed: the malformed primitive input of
/// an invalid call is replayed as an empty object.
pub open spec fn replay_input(input: JsonView, invalid: Option<bool>) -> JsonView {
    if invalid == Some(true) && !(input is Object) && !(input is Array) {
        JsonView::Object(no_fields())
    } else {
        input
    }
}

/// The input under which a call is replayed in the next turn's prompt.
pub fn response_tool_call_input(input: &Json, invalid: Option<bool>) -> (r: Json)
    ensures
        r@ == replay_input(input@, invalid),
{
    broadcast use lemma_model;

    if invalid == Some(true) {
        match input {
            Json::Object(_) => input.copy(),
            Json::Array(_) => input.copy(),
            _ => json_object(JsonObject::new()),
        }
    } else {
        input.copy()
    }
}

/// Collects the content of the assistant message in the order in which its
/// segments begin.
pub struct ResponseMessageBuilder {
    parts: Vec<ContentPart>,
    text_at: Option<usize>,
    reasoning_at: Option<usize>,
}

#[verifier::ext_equal]
pub struct BuilderView {
    pub parts: Seq<ContentPartView>,
    /// The text segment that deltas go to.
    pub text_at: Option<usize>,
    /// The reasoning segment that deltas go to.
    pub reasoning_at: Option<usize>,
}

impl View for ResponseMessageBuilder {
    type V = BuilderView;

    closed spec fn view(&self) -> BuilderView {
        BuilderView {
            parts: parts_view(self.parts@),
            text_at: self.text_at,
            reasoning_at: self.reasoning_at,
        }
    }
}

/// What a generation leaves for the next turn.
pub struct ResponseMessages {
    pub messages: Vec<ModelMessage>,
    pub reasoning: Vec<ReasoningPart>,
}

pub open spec fn no_content() -> BuilderView {
    BuilderView { parts: seq![], text_at: None, reasoning_at: None }
}

/// The later metadata where there is some.
pub open spec fn later(new: Option<JsonView>, earlier: Option<JsonView>) -> Option<JsonView> {
    match new {
        Some(json) => Some(json),
        None => earlier,
    }
}

/// A segment with more text and the later metadata.
pub open spec fn extended(part: ContentPartView, delta: Seq<char>, metadata: Option<JsonView>) -> ContentPartView {
    match part {
        ContentPartView::Text { text, provider_options } => ContentPartView::Text {
            text: text + delta,
            provider_options: later(metadata, provider_options),
        },
        ContentPartView::Reasoning { text, provider_options } => ContentPartView::Reasoning {
            text: text + delta,
            provider_options: later(metadata, provider_options),
        },
        other => other,
    }
}

impl BuilderView {
    /// Open segments are segments of their kind.
    pub open spec fn wf(self) -> bool {
        &&& self.text_at matches Some(i) ==> i < self.parts.len() && self.parts[i as int] is Text
        &&& self.reasoning_at matches Some(i) ==> i < self.parts.len() && self.parts[i as int] is Reasoning
        &&& self.parts.len() <= usize::MAX
    }

    pub open spec fn text(self, text: Seq<char>, metadata: Option<JsonView>) -> BuilderView {
        BuilderView { parts: self.parts.push(ContentPartView::Text { text, provider_options: metadata }), ..self }
    }

    pub open spec fn reasoning(self, text: Seq<char>, metadata: Option<JsonView>) -> BuilderView {
        BuilderView {
            parts: self.parts.push(ContentPartView::Reasoning { text, provider_options: metadata }),
            ..self
        }
    }

    pub open spec fn text_start(self, metadata: Option<JsonView>) -> BuilderView {
        BuilderView { text_at: Some(self.parts.len() as usize), ..self.text(seq![], metadata) }
    }

    /// A delta outside a segment begins one.
    pub open spec fn text_delta(self, delta: Seq<char>, metadata: Option<JsonView>) -> BuilderView {
        match self.text_at {
            Some(i) => BuilderView {
                parts: self.parts.update(i as int, extended(self.parts[i as int], delta, metadata)),
                ..self
            },
            None => BuilderView {
                text_at: Some(self.parts.len() as usize),
                ..self.text(delta, metadata)
            },
        }
    }

    pub open spec fn text_end(self, metadata: Option<JsonView>) -> BuilderView {
        match self.text_at {
            Some(i) => BuilderView { text_at: None, ..self.text_delta(seq![], metadata) },
            None => self,
        }
    }

    pub open spec fn reasoning_start(self, metadata: Option<JsonView>) -> BuilderView {
        BuilderView { reasoning_at: Some(self.parts.len() as usize), ..self.reasoning(seq![], metadata) }
    }

    pub open spec fn reasoning_delta(self, delta: Seq<char>, metadata: Option<JsonView>) -> BuilderView {
        match self.reasoning_at {
            Some(i) => BuilderView {
                parts: self.parts.update(i as int, extended(self.parts[i as int], delta, metadata)),
                ..self
            },
            None => BuilderView {
                reasoning_at: Some(self.parts.len() as usize),
                ..self.reasoning(delta, metadata)
            },
        }
    }

    pub open spec fn reasoning_end(self, metadata: Option<JsonView>) -> BuilderView {
        match self.reasoning_at {
            Some(i) => BuilderView { reasoning_at: None, ..self.reasoning_delta(seq![], metadata) },
            None => self,
        }
    }

    pub open spec fn tool_call(self, call: ToolCallView) -> BuilderView {
        BuilderView {
            parts: self.parts.push(
                ContentPartView::ToolCall {
                    tool_call_id: call.tool_call_id,
                    tool_name: call.tool_name,
                    input: replay_input(call.input, call.invalid),
                    provider_executed: call.provider_executed,
                    thought_signature: call.thought_signature,
                    provider_options: call.provider_metadata,
                },
            ),
            ..self
        }
    }

    /// A preliminary result is not replayed.
    pub open spec fn tool_result(self, result: ToolResultPartView) -> BuilderView {
        if result.preliminary == Some(true) {
            self
        } else {
            BuilderView {
                parts: self.parts.push(
                    ContentPartView::ToolResult {
                        tool_call_id: result.tool_call_id,
                        tool_name: result.tool_name,
                        output: result.result,
                        is_error: result.is_error,
                        provider_options: result.provider_metadata,
                    },
                ),
                ..self
            }
        }
    }
}

/// Content without the text segments that stayed empty.
pub open spec fn spoken(parts: Seq<ContentPartView>) -> Seq<ContentPartView>
    decreases parts.len(),
{
    if parts.len() == 0 {
        seq![]
    } else {
        match parts.last() {
            ContentPartView::Text { text, .. } => if text.len() == 0 {
                spoken(parts.drop_last())
            } else {
                spoken(parts.drop_last()).push(parts.last())
            },
            _ => spoken(parts.drop_last()).push(parts.last()),
        }
    }
}

/// The reasoning segments of content.
pub open spec fn thoughts(parts: Seq<ContentPartView>) -> Seq<ReasoningPartView>
    decreases parts.len(),
{
    if parts.len() == 0 {
        seq![]
    } else {
        match parts.last() {
            ContentPartView::Reasoning { text, provider_options } => thoughts(parts.drop_last()).push(
                ReasoningPartView { text, provider_metadata: provider_options },
            ),
            _ => thoughts(parts.drop_last()),
        }
    }
}

/// One assistant message, or none where nothing was said.
pub open spec fn assistant_messages(parts: Seq<ContentPartView>) -> Seq<ModelMessageView> {
    if spoken(parts).len() == 0 {
        seq![]
    } else {
        seq![ModelMessageView { role: Role::Assistant, content: MessageContentView::Parts(spoken(parts)) }]
    }
}

pub open spec fn reasonings_view(list: Seq<ReasoningPart>) -> Seq<ReasoningPartView> {
    Seq::new(list.len(), |i: int| list[i]@)
}

fn later_metadata(new: Option<Json>, earlier: &Option<Json>) -> (r: Option<Json>)
    ensures
        json_view(r) == later(json_view(new), json_view(*earlier)),
{
    match new {
        Some(json) => Some(json),
        None => copy_json(earlier),
    }
}

impl ResponseMessageBuilder {
    pub fn new() -> (r: ResponseMessageBuilder)
        ensures
            r@ == no_content(),
            r@.wf(),
    {
        let parts: Vec<ContentPart> = Vec::new();
        assert(parts_view(parts@) =~= seq![]);
        ResponseMessageBuilder { parts, text_at: None, reasoning_at: None }
    }

    fn append(&mut self, part: ContentPart)
        requires
            old(self)@.wf(),
        ensures
            final(self)@ == (BuilderView { parts: old(self)@.parts.push(part@), ..old(self)@ }),
            final(self)@.wf(),
            final(self).parts@.len() == old(self).parts@.len() + 1,
    {
        let ghost said = part@;
        let ghost before = parts_view(self.parts@);
        self.parts.push(part);
        assert(self.parts.len() <= usize::MAX);
        assert(parts_view(self.parts@) =~= before.push(said));
    }

    fn extend(&mut self, i: usize, delta: &str, metadata: Option<Json>)
        requires
            old(self)@.wf(),
            i < old(self)@.parts.len(),
        ensures
            final(self)@ == (BuilderView {
                parts: old(self)@.parts.update(
                    i as int,
                    extended(old(self)@.parts[i as int], delta@, json_view(metadata)),
                ),
                ..old(self)@
            }),
            final(self)@.wf(),
    {
        let ghost before = parts_view(self.parts@);
        let ghost more = json_view(metadata);
        let mut part = ContentPart::Media { document: Json::Null };
        std::mem::swap(&mut self.parts[i], &mut part);
        assert(part@ == before[i as int]);
        let part = match part {
            ContentPart::Text { text, provider_options } => {
                let mut longer = text;
                longer.append(delta);
                ContentPart::Text { text: longer, provider_options: later_metadata(metadata, &provider_options) }
            },
            ContentPart::Reasoning { text, provider_options } => {
                let mut longer = text;
                longer.append(delta);
                ContentPart::Reasoning {
                    text: longer,
                    provider_options: later_metadata(metadata, &provider_options),
                }
            },
            other => other,
        };
        let ghost now = part@;
        assert(now == extended(before[i as int], delta@, more));
        self.parts.set(i, part);
        assert(parts_view(self.parts@) =~= before.update(i as int, now));
    }

    /// Add a whole text segment.
    pub fn text(&mut self, text: &str, metadata: Option<Json>)
        requires
            old(self)@.wf(),
        ensures
            final(self)@ == old(self)@.text(text@, json_view(metadata)),
            final(self)@.wf(),
    {
        self.append(ContentPart::Text { text: text.to_owned(), provider_options: metadata });
    }

    /// Add a whole reasoning segment.
    pub fn reasoning(&mut self, text: &str, metadata: Option<Json>)
        requires
            old(self)@.wf(),
        ensures
            final(self)@ == old(self)@.reasoning(text@, json_view(metadata)),
            final(self)@.wf(),
    {
        self.append(ContentPart::Reasoning { text: text.to_owned(), provider_options: metadata });
    }

    pub fn text_start(&mut self, metadata: Option<Json>)
        requires
            old(self)@.wf(),
        ensures
            final(self)@ == old(self)@.text_start(json_view(metadata)),
            final(self)@.wf(),
    {
        let at: usize = self.parts.len();
        proof {
            reveal_strlit("");
            assert(""@ =~= seq![]);
        }
        self.append(ContentPart::Text { text: "".to_owned(), provider_options: metadata });
        self.text_at = Some(at);
    }

    pub fn text_delta(&mut self, delta: &str, metadata: Option<Json>)
        requires
            old(self)@.wf(),
        ensures
            final(self)@ == old(self)@.text_delta(delta@, json_view(metadata)),
            final(self)@.wf(),
    {
        match self.text_at {
            Some(i) => self.extend(i, delta, metadata),
            None => {
                let at: usize = self.parts.len();
                self.append(ContentPart::Text { text: delta.to_owned(), provider_options: metadata });
                self.text_at = Some(at);
            },
        }
    }

    pub fn text_end(&mut self, metadata: Option<Json>)
        requires
            old(self)@.wf(),
        ensures
            final(self)@ == old(self)@.text_end(json_view(metadata)),
            final(self)@.wf(),
    {
        proof {
            reveal_strlit("");
            assert(""@ =~= seq![]);
        }
        if let Some(i) = self.text_at {
            self.extend(i, "", metadata);
            self.text_at = None;
        }
    }

    pub fn reasoning_start(&mut self, metadata: Option<Json>)
        requires
            old(self)@.wf(),
        ensures
            final(self)@ == old(self)@.reasoning_start(json_view(metadata)),
            final(self)@.wf(),
    {
        let at: usize = self.parts.len();
        proof {
            reveal_strlit("");
            assert(""@ =~= seq![]);
        }
        self.append(ContentPart::Reasoning { text: "".to_owned(), provider_options: metadata });
        self.reasoning_at = Some(at);
    }

    pub fn reasoning_delta(&mut self, delta: &str, metadata: Option<Json>)
        requires
            old(self)@.wf(),
        ensures
            final(self)@ == old(self)@.reasoning_delta(delta@, json_view(metadata)),
            final(self)@.wf(),
    {
        match self.reasoning_at {
            Some(i) => self.extend(i, delta, metadata),
            None => {
                let at: usize = self.parts.len();
                self.append(ContentPart::Reasoning { text: delta.to_owned(), provider_options: metadata });
                self.reasoning_at = Some(at);
            },
        }
    }

    pub fn reasoning_end(&mut self, metadata: Option<Json>)
        requires
            old(self)@.wf(),
        ensures
            final(self)@ == old(self)@.reasoning_end(json_view(metadata)),
            final(self)@.wf(),
    {
        proof {
            reveal_strlit("");
            assert(""@ =~= seq![]);
        }
        if let Some(i) = self.reasoning_at {
            self.extend(i, "", metadata);
            self.reasoning_at = None;
        }
    }

    pub fn tool_call(&mut self, call: &ToolCall)
        requires
            old(self)@.wf(),
        ensures
            final(self)@ == old(self)@.tool_call(call@),
            final(self)@.wf(),
    {
        self.append(
            ContentPart::ToolCall {
                tool_call_id: call.tool_call_id.clone(),
                tool_name: call.tool_name.clone(),
                input: response_tool_call_input(&call.input, call.invalid),
                provider_executed: call.provider_executed,
                thought_signature: copy_text(&call.thought_signature),
                provider_options: copy_json(&call.provider_metadata),
            },
        );
    }

    pub fn tool_result(&mut self, result: &ToolResultPart)
        requires
            old(self)@.wf(),
        ensures
            final(self)@ == old(self)@.tool_result(result@),
            final(self)@.wf(),
    {
        if result.preliminary != Some(true) {
            self.append(
                ContentPart::ToolResult {
                    tool_call_id: result.tool_call_id.clone(),
                    tool_name: result.tool_name.clone(),
                    output: result.result.copy(),
                    is_error: result.is_error,
                    provider_options: copy_json(&result.provider_metadata),
                },
            );
        }
    }

    /// The messages and reasoning of what was collected.
    pub fn finish(self) -> (r: ResponseMessages)
        ensures
            messages_view(r.messages@) == assistant_messages(self@.parts),
            reasonings_view(r.reasoning@) == thoughts(self@.parts),
    {
        let mut kept: Vec<ContentPart> = Vec::new();
        let mut reasoning: Vec<ReasoningPart> = Vec::new();
        let mut i: usize = 0;
        let ghost all = parts_view(self.parts@);
        assert(all.take(0) =~= seq![]);
        assert(parts_view(kept@) =~= spoken(all.take(0)));
        assert(reasonings_view(reasoning@) =~= thoughts(all.take(0)));
        while i < self.parts.len()
            invariant
                i <= self.parts.len(),
                all == parts_view(self.parts@),
                parts_view(kept@) == spoken(all.take(i as int)),
                reasonings_view(reasoning@) == thoughts(all.take(i as int)),
            decreases self.parts.len() - i,
        {
            let part = &self.parts[i];
            assert(all.take(i + 1).drop_last() =~= all.take(i as int));
            assert(all.take(i + 1).last() == part@);
            let keep: bool = match part {
                ContentPart::Text { text, .. } => text.as_str().unicode_len() > 0,
                _ => true,
            };
            if let ContentPart::Reasoning { text, provider_options } = part {
                let thought = ReasoningPart {
                    text: text.clone(),
                    provider_metadata: copy_json(provider_options),
                };
                let ghost before = reasonings_view(reasoning@);
                let ghost said = thought@;
                reasoning.push(thought);
                assert(reasonings_view(reasoning@) =~= before.push(said));
            }
            if keep {
                let ghost before = parts_view(kept@);
                kept.push(part.copy());
                assert(parts_view(kept@) =~= before.push(part@));
            }
            i = i + 1;
        }
        assert(all.take(i as int) =~= all);
        let mut messages: Vec<ModelMessage> = Vec::new();
        if kept.len() > 0 {
            let message = ModelMessage { role: Role::Assistant, content: MessageContent::Parts(kept) };
            let ghost said = message@;
            messages.push(message);
            assert(messages_view(messages@) =~= seq![said]);
        } else {
            assert(messages_view(messages@) =~= seq![]);
        }
        ResponseMessages { messages, reasoning }
    }
}

} // verus!
