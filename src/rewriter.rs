//! Rewriting of the model's reply: the tool exchange of this turn is shown
//! to a streaming client as two leading chunks, and handed to a
//! non-streaming one as continuation state in the reply's metadata.

use vstd::prelude::*;
use vstd::string::StringExecFns;
use crate::message::{Role, Message, MessageView, role_text, message_views};
use crate::orchestrator::{Orchestration, Stage};
use crate::state::{encode_state, state_text, STATE_KEY};

verus! {

/// The model name that the synthetic chunks carry.
pub const TOOL_MODEL_NAME: &'static str = "Curve-Function-1.5B";

/// The JSON string literal that serde_json writes for a text.
pub uninterp spec fn json_quoted(s: Seq<char>) -> Seq<char>;

/// Relies on serde_json::to_string: a str is written as a quoted JSON string
/// literal. Writing into memory does not fail for a str.
#[verifier::external_body]
fn quote_json(s: &str) -> (r: String)
    ensures
        r@ == json_quoted(s@),
{
    serde_json::to_string(s).unwrap_or_default()
}

/// One server-sent event carrying a stream chunk with this role and content.
pub open spec fn sse_chunk(role: Role, content: Seq<char>) -> Seq<char> {
    "data: {\"model\":"@ + json_quoted(TOOL_MODEL_NAME@) + ",\"choices\":[{\"index\":0,\"delta\":{\"role\":"@
        + json_quoted(role_text(role)) + ",\"content\":"@ + json_quoted(content) + "}}]}\n\n"@
}

/// Writes one stream chunk event.
pub fn stream_chunk(role: Role, content: &str) -> (r: String)
    ensures
        r@ == sse_chunk(role, content@),
{
    let mut out = String::from_str("data: {\"model\":");
    out.append(quote_json(TOOL_MODEL_NAME).as_str());
    out.append(",\"choices\":[{\"index\":0,\"delta\":{\"role\":");
    out.append(quote_json(role.name()).as_str());
    out.append(",\"content\":");
    out.append(quote_json(content).as_str());
    out.append("}}]}\n\n");
    assert(out@ =~= sse_chunk(role, content@));
    out
}

/// How the reply body is to be changed.
pub enum ResponseEdit {
    /// Leave the body as it is.
    Unchanged,
    /// Replace the body by this text.
    Replace(String),
    /// Set this entry in the reply's `metadata` object, creating the object
    /// when it is absent or null.
    InjectState { key: String, value: String },
}

impl Orchestration {
    /// Whether a tool exchange of this turn is still to be reported.
    pub open spec fn has_pending_tool_call(&self) -> bool {
        self.tool_calls@.len() > 0
    }

    /// The reply of the tool call, or nothing.
    pub open spec fn tool_reply(&self) -> Seq<char> {
        match self.tool_response {
            Some(s) => s@,
            None => Seq::empty(),
        }
    }

    /// The two messages that report the tool exchange.
    pub open spec fn exchange(&self) -> Seq<MessageView> {
        seq![(Role::Assistant, self.tool_call_text@), (Role::Tool, self.tool_reply())]
    }

    /// Decides how a chunk or the whole of the model's reply is rewritten.
    /// With no pending tool exchange, or outside the chat-completions route,
    /// the body stays as it is and nothing changes; otherwise the exchange is
    /// reported once and then cleared.
    pub fn rewrite_response(&mut self, body: &str) -> (r: ResponseEdit)
        requires
            old(self).wf(),
        ensures
            final(self).wf(),
            !old(self).is_chat_completions || !old(self).has_pending_tool_call() ==> r is Unchanged && *final(self)
                == *old(self),
            old(self).is_chat_completions && old(self).has_pending_tool_call() ==> {
                &&& !final(self).has_pending_tool_call()
                &&& final(self).stage == Stage::Done
                &&& final(self).callouts@ == old(self).callouts@
                &&& old(self).streaming ==> (r matches ResponseEdit::Replace(s) && s@ == sse_chunk(
                    Role::Assistant,
                    old(self).tool_call_text@,
                ) + sse_chunk(Role::Tool, old(self).tool_reply()) + body@)
                &&& !old(self).streaming ==> match r {
                    ResponseEdit::InjectState { key, value } => key@ == STATE_KEY@ && value@ == state_text(
                        old(self).exchange(),
                    ),
                    _ => false,
                }
            },
    {
        if !self.is_chat_completions || self.tool_calls.len() == 0 {
            return ResponseEdit::Unchanged;
        }
        let reply = match &self.tool_response {
            Some(s) => s.clone(),
            None => String::new(),
        };
        let edit = if self.streaming {
            let mut out = stream_chunk(Role::Assistant, self.tool_call_text.as_str());
            out.append(stream_chunk(Role::Tool, reply.as_str()).as_str());
            out.append(body);
            ResponseEdit::Replace(out)
        } else {
            let mut msgs: Vec<Message> = Vec::new();
            msgs.push(Message::new(Role::Assistant, self.tool_call_text.clone()));
            msgs.push(Message::new(Role::Tool, reply));
            assert(message_views(msgs@) =~= self.exchange());
            ResponseEdit::InjectState { key: String::from_str(STATE_KEY), value: encode_state(&msgs) }
        };
        self.tool_calls = Vec::new();
        self.stage = Stage::Done;
        edit
    }
}

} // verus!
