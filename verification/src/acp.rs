//! ACP agent side types: what the agent sends us.

use vstd::prelude::*;
use crate::json::{Json, JsonV, jstring};

verus! {

broadcast use vstd::string::group_string_axioms;

/// A message arriving on the agent's stdout: request, response, or notification.
#[derive(Debug)]
pub enum Inbound {
    /// Agent → gateway request (e.g. `session/request_permission`,
    /// `fs/read_text_file`). Has an `id` and MUST be answered.
    Request { id: Id, method: String, params: Json },
    /// Response to one of our requests (`initialize`, `session/new`,
    /// `session/prompt`).
    Response { id: Id, result: Option<Json>, error: Option<Error> },
    /// One-way notification (e.g. `session/update`).
    Notification { method: String, params: Json },
}

/// JSON-RPC id: number or string; notification-style absent ids normalize to Null.
#[derive(Debug)]
pub enum Id {
    Num(i64),
    Str(String),
    Null,
}

/// The mathematical value of an [`Id`].
pub enum IdV {
    Num(int),
    Str(Seq<char>),
    Null,
}

impl View for Id {
    type V = IdV;

    open spec fn view(&self) -> IdV {
        match self {
            Id::Num(n) => IdV::Num(*n as int),
            Id::Str(s) => IdV::Str(s@),
            Id::Null => IdV::Null,
        }
    }
}

/// The JSON form of an id: its number, its string, or `null`.
pub open spec fn id_json(id: IdV) -> JsonV {
    match id {
        IdV::Num(n) => JsonV::Number(n),
        IdV::Str(s) => JsonV::Str(s),
        IdV::Null => JsonV::Null,
    }
}

impl Id {
    /// The id as it is written in a JSON-RPC frame.
    pub fn to_value(&self) -> (r: Json)
        ensures
            r@ == id_json(self@),
    {
        match self {
            Id::Num(n) => Json::Number(*n as i128),
            Id::Str(s) => jstring(s.as_str()),
            Id::Null => Json::Null,
        }
    }

    /// A copy of this id.
    pub fn copy(&self) -> (r: Id)
        ensures
            r@ == self@,
    {
        match self {
            Id::Num(n) => Id::Num(*n),
            Id::Str(s) => Id::Str(s.clone()),
            Id::Null => Id::Null,
        }
    }
}

impl PartialEq for Id {
    fn eq(&self, other: &Id) -> (r: bool) {
        match (self, other) {
            (Id::Num(a), Id::Num(b)) => *a == *b,
            (Id::Str(a), Id::Str(b)) => *a == *b,
            (Id::Null, Id::Null) => true,
            _ => false,
        }
    }
}

impl vstd::std_specs::cmp::PartialEqSpecImpl for Id {
    open spec fn obeys_eq_spec() -> bool {
        true
    }

    open spec fn eq_spec(&self, other: &Id) -> bool {
        self@ == other@
    }
}

/// A JSON-RPC error object.
#[derive(Debug)]
pub struct Error {
    pub code: i64,
    pub message: String,
}

/// Token accounting reported by the agent (`session/prompt` response `usage`).
#[derive(Debug, Clone, Copy)]
pub struct Usage {
    pub total_tokens: u64,
    pub input_tokens: u64,
    pub output_tokens: u64,
    pub thought_tokens: u64,
    pub cached_read_tokens: u64,
}

impl Default for Usage {
    fn default() -> (r: Usage)
        ensures
            r == (Usage {
                total_tokens: 0,
                input_tokens: 0,
                output_tokens: 0,
                thought_tokens: 0,
                cached_read_tokens: 0,
            }),
    {
        Usage {
            total_tokens: 0,
            input_tokens: 0,
            output_tokens: 0,
            thought_tokens: 0,
            cached_read_tokens: 0,
        }
    }
}

/// `session/update` notification payloads we care about.
#[derive(Debug)]
pub enum Update {
    /// Text chunk of the agent's answer.
    AgentMessageChunk { content: Content },
    /// Text chunk of the agent's visible reasoning stream.
    AgentThoughtChunk { content: Content },
    /// Anything else (tool calls, usage snapshots, ...).
    Other,
}

/// ACP content blocks. Only text blocks carry payload for us.
#[derive(Debug)]
pub struct Content {
    /// The block's `type` (`"text"`, `"image"`, ...).
    pub content_type: String,
    pub text: String,
}

/// `session/prompt` response: why the turn stopped.
#[derive(Debug)]
pub struct PromptResponse {
    pub stop_reason: String,
    pub usage: Option<Usage>,
}

/// Result of driving one full prompt turn.
#[derive(Debug)]
pub struct TurnOutcome {
    /// Concatenated agent text chunks.
    pub text: String,
    pub stop_reason: String,
    /// Token accounting from the prompt response, when the agent reports it.
    pub usage: Option<Usage>,
}

} // verus!
