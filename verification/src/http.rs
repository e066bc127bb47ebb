//! What the HTTP handlers answer: the decisions that bridge OpenAI-compatible
//! requests to ACP turns, independent of the server that carries them.

use vstd::prelude::*;
use crate::acp::{TurnOutcome, Usage};
use crate::agent::{ModelInfo, Policy};
use crate::json::{
    Json, JsonV, jarray, jget, jstr, jstring, lemma_field_lookup_first, object, object1, push_member,
};
use crate::openai::{
    ChatMessage, ChatRequest, MODEL_NAME, chat_chunk, chat_chunk_value, chat_response,
    chat_response_value, error_response, error_value, finish_reason, flatten_messages,
    flatten_spec, models_response, models_value,
};
use crate::text::{concat, to_string};

verus! {

broadcast use vstd::string::group_string_axioms;

/// The policy a turn runs under: with the sandbox on, permission requests
/// that escalate beyond it are denied; otherwise they are approved.
pub fn turn_policy(sandbox: bool) -> (r: Policy)
    ensures
        sandbox ==> r is Sandbox,
        !sandbox ==> r is ApproveAll,
{
    if sandbox {
        Policy::Sandbox
    } else {
        Policy::ApproveAll
    }
}

/// The prompt a chat request asks for, or the `400` error body when it has
/// no messages.
pub fn chat_prompt(req: &ChatRequest) -> (r: Result<String, Json>)
    ensures
        req.messages@.len() == 0 ==> (r matches Err(e) && e@ == error_value(
            "messages must not be empty"@,
            400,
        )),
        req.messages@.len() > 0 ==> (r matches Ok(p) && p@ == flatten_spec(
            req.messages@.map_values(|m: ChatMessage| m@),
        )),
{
    if req.messages.len() == 0 {
        Err(error_response("messages must not be empty", 400))
    } else {
        Ok(flatten_messages(req.messages.as_slice()))
    }
}

/// One server-sent event of a streamed completion.
pub enum SseEvent {
    /// A `data:` event carrying a JSON body.
    Data(Json),
    /// The closing `data: [DONE]` event.
    Done,
    /// An `error` event carrying an error body.
    Error(Json),
}

/// The value of an [`SseEvent`].
pub enum SseEventV {
    Data(JsonV),
    Done,
    Error(JsonV),
}

impl View for SseEvent {
    type V = SseEventV;

    open spec fn view(&self) -> SseEventV {
        match self {
            SseEvent::Data(j) => SseEventV::Data(j@),
            SseEvent::Done => SseEventV::Done,
            SseEvent::Error(j) => SseEventV::Error(j@),
        }
    }
}

/// The `finish_reason` for an ACP stop reason.
pub open spec fn finish_spec(stop_reason: Seq<char>) -> Seq<char> {
    if stop_reason == "max_tokens"@ {
        "length"@
    } else {
        "stop"@
    }
}

/// The first choice of a completion or chunk body.
pub open spec fn first_choice(body: JsonV) -> Option<JsonV> {
    match jarray(jget(body, "choices"@)) {
        Some(cs) => if cs.len() > 0 {
            Some(cs[0])
        } else {
            None
        },
        None => None,
    }
}

/// The `finish_reason` of the first choice, when it is a string.
pub open spec fn finish_of(body: JsonV) -> Option<Seq<char>> {
    match first_choice(body) {
        Some(c) => jstr(jget(c, "finish_reason"@)),
        None => None,
    }
}

/// The message text of the first choice of a completion body.
pub open spec fn message_text(body: JsonV) -> Option<Seq<char>> {
    match first_choice(body) {
        Some(c) => match jget(c, "message"@) {
            Some(m) => jstr(jget(m, "content"@)),
            None => None,
        },
        None => None,
    }
}

/// The `delta` of the first choice of a chunk body.
pub open spec fn chunk_delta(body: JsonV) -> Option<JsonV> {
    match first_choice(body) {
        Some(c) => jget(c, "delta"@),
        None => None,
    }
}

/// The text a client appends for one chunk: its `delta.content` when that
/// is a string, nothing otherwise.
pub open spec fn delta_text(body: JsonV) -> Seq<char> {
    match chunk_delta(body) {
        Some(d) => match jstr(jget(d, "content"@)) {
            Some(t) => t,
            None => Seq::empty(),
        },
        None => Seq::empty(),
    }
}

/// The text a client assembles from a stream: the `delta.content` of every
/// data event, in order.
pub open spec fn assembled_text(events: Seq<SseEventV>) -> Seq<char>
    decreases events.len(),
{
    if events.len() == 0 {
        Seq::empty()
    } else {
        assembled_text(events.drop_last()) + match events.last() {
            SseEventV::Data(b) => delta_text(b),
            _ => Seq::empty(),
        }
    }
}

/// An ACP stop reason becomes `length` exactly when it is `max_tokens`;
/// every other stop reason, `end_turn` among them, becomes `stop`.
pub proof fn lemma_finish_reason_mapping(stop_reason: Seq<char>)
    ensures
        (finish_spec(stop_reason) == "length"@) <==> (stop_reason == "max_tokens"@),
        stop_reason != "max_tokens"@ ==> finish_spec(stop_reason) == "stop"@,
        finish_spec("end_turn"@) == "stop"@,
{
    reveal_strlit("length");
    reveal_strlit("stop");
    reveal_strlit("max_tokens");
    reveal_strlit("end_turn");
    assert("stop"@.len() == 4 && "length"@.len() == 6);
    assert("end_turn"@.len() == 8 && "max_tokens"@.len() == 10);
}

/// What a client reads of a chunk: the `delta` it was built with and its
/// finish reason.
pub proof fn lemma_chunk_reads(
    id: Seq<char>,
    created: u64,
    delta: JsonV,
    finish: Option<Seq<char>>,
    usage: Option<Usage>,
)
    ensures
        chunk_delta(chat_chunk_value(id, created, delta, finish, usage)) == Some(delta),
        finish_of(chat_chunk_value(id, created, delta, finish, usage)) == finish,
{
    reveal_strlit("id");
    reveal_strlit("object");
    reveal_strlit("created");
    reveal_strlit("model");
    reveal_strlit("choices");
    reveal_strlit("usage");
    reveal_strlit("index");
    reveal_strlit("message");
    reveal_strlit("delta");
    reveal_strlit("finish_reason");
    reveal_strlit("role");
    reveal_strlit("content");
    reveal_strlit("reasoning_content");
    let v = chat_chunk_value(id, created, delta, finish, usage);
    let fields = match v {
        JsonV::Object(f) => f,
        _ => Seq::empty(),
    };
    assert("id"@.len() == 2 && "object"@.len() == 6 && "model"@.len() == 5);
    assert("created"@[1] != "choices"@[1]);
    assert(forall|j: int| 0 <= j < 4 ==> fields[j].0 != "choices"@);
    lemma_field_lookup_first(fields, "choices"@, 4);
    let choice = first_choice(v)->0;
    let cf = match choice {
        JsonV::Object(f) => f,
        _ => Seq::empty(),
    };
    assert("index"@[0] != "delta"@[0] && "finish_reason"@.len() == 13);
    assert(forall|j: int| 0 <= j < 1 ==> cf[j].0 != "delta"@);
    assert(forall|j: int| 0 <= j < 2 ==> cf[j].0 != "finish_reason"@);
    lemma_field_lookup_first(cf, "delta"@, 1);
    lemma_field_lookup_first(cf, "finish_reason"@, 2);
}

/// What a client reads of a completion: the message text and the finish
/// reason it was built with.
pub proof fn lemma_completion_reads(
    id: Seq<char>,
    created: u64,
    text: Seq<char>,
    finish: Seq<char>,
    usage: Option<Usage>,
)
    ensures
        message_text(chat_response_value(id, created, text, finish, usage)) == Some(text),
        finish_of(chat_response_value(id, created, text, finish, usage)) == Some(finish),
{
    reveal_strlit("id");
    reveal_strlit("object");
    reveal_strlit("created");
    reveal_strlit("model");
    reveal_strlit("choices");
    reveal_strlit("usage");
    reveal_strlit("index");
    reveal_strlit("message");
    reveal_strlit("delta");
    reveal_strlit("finish_reason");
    reveal_strlit("role");
    reveal_strlit("content");
    reveal_strlit("reasoning_content");
    let v = chat_response_value(id, created, text, finish, usage);
    let fields = match v {
        JsonV::Object(f) => f,
        _ => Seq::empty(),
    };
    assert("id"@.len() == 2 && "object"@.len() == 6 && "model"@.len() == 5);
    assert("created"@[1] != "choices"@[1]);
    assert(forall|j: int| 0 <= j < 4 ==> fields[j].0 != "choices"@);
    lemma_field_lookup_first(fields, "choices"@, 4);
    let choice = first_choice(v)->0;
    let cf = match choice {
        JsonV::Object(f) => f,
        _ => Seq::empty(),
    };
    assert("index"@.len() == 5 && "message"@.len() == 7 && "finish_reason"@.len() == 13);
    assert(forall|j: int| 0 <= j < 1 ==> cf[j].0 != "message"@);
    assert(forall|j: int| 0 <= j < 2 ==> cf[j].0 != "finish_reason"@);
    lemma_field_lookup_first(cf, "message"@, 1);
    lemma_field_lookup_first(cf, "finish_reason"@, 2);
    let mf = match jget(choice, "message"@)->0 {
        JsonV::Object(f) => f,
        _ => Seq::empty(),
    };
    assert("role"@.len() == 4 && "content"@.len() == 7);
    assert(forall|j: int| 0 <= j < 1 ==> mf[j].0 != "content"@);
    lemma_field_lookup_first(mf, "content"@, 1);
}

/// A non-streamed completion for a finished turn carries the turn's text
/// unchanged, and finishes with `length` exactly when the turn stopped at
/// `max_tokens`, with `stop` otherwise.
pub proof fn lemma_buffered_completion(id: Seq<char>, created: u64, outcome: TurnOutcome)
    ensures
        message_text(
            chat_response_value(
                id,
                created,
                outcome.text@,
                finish_spec(outcome.stop_reason@),
                outcome.usage,
            ),
        ) == Some(outcome.text@),
        finish_of(
            chat_response_value(
                id,
                created,
                outcome.text@,
                finish_spec(outcome.stop_reason@),
                outcome.usage,
            ),
        ) == Some(
            if outcome.stop_reason@ == "max_tokens"@ {
                "length"@
            } else {
                "stop"@
            },
        ),
{
    lemma_completion_reads(
        id,
        created,
        outcome.text@,
        finish_spec(outcome.stop_reason@),
        outcome.usage,
    );
}

/// A streamed finished turn: the contents of its data chunks put together
/// are exactly the turn's text; the last data chunk has an empty delta and
/// finishes with `length` exactly when the turn stopped at `max_tokens`,
/// with `stop` otherwise; the earlier ones carry no finish reason; `[DONE]`
/// closes the stream.
pub proof fn lemma_stream_assembles_text(id: Seq<char>, created: u64, outcome: TurnOutcome)
    ensures
        ({
            let ev = stream_events_spec(id, created, Ok(outcome));
            &&& assembled_text(ev) == outcome.text@
            &&& ev.len() == 4
            &&& ev[3] is Done
            &&& ev[0] matches SseEventV::Data(b0) && finish_of(b0) is None
            &&& ev[1] matches SseEventV::Data(b1) && finish_of(b1) is None
            &&& ev[2] matches SseEventV::Data(b2) && chunk_delta(b2) == Some(
                JsonV::Object(Seq::empty()),
            ) && finish_of(b2) == Some(
                if outcome.stop_reason@ == "max_tokens"@ {
                    "length"@
                } else {
                    "stop"@
                },
            )
        }),
{
    reveal_strlit("id");
    reveal_strlit("object");
    reveal_strlit("created");
    reveal_strlit("model");
    reveal_strlit("choices");
    reveal_strlit("usage");
    reveal_strlit("index");
    reveal_strlit("message");
    reveal_strlit("delta");
    reveal_strlit("finish_reason");
    reveal_strlit("role");
    reveal_strlit("content");
    reveal_strlit("reasoning_content");
    reveal_strlit("assistant");
    reveal_strlit("");
    let role = JsonV::Object(seq![("role"@, JsonV::Str("assistant"@)), ("content"@, JsonV::Str(""@))]);
    let content = JsonV::Object(seq![("content"@, JsonV::Str(outcome.text@))]);
    let fin = JsonV::Object(Seq::empty());
    lemma_chunk_reads(id, created, role, None, None);
    lemma_chunk_reads(id, created, content, None, None);
    lemma_chunk_reads(id, created, fin, Some(finish_spec(outcome.stop_reason@)), outcome.usage);
    assert("role"@.len() == 4 && "content"@.len() == 7 && ""@.len() == 0);
    assert(""@ =~= Seq::<char>::empty());
    match role {
        JsonV::Object(f) => lemma_field_lookup_first(f, "content"@, 1),
        _ => {},
    }
    match content {
        JsonV::Object(f) => lemma_field_lookup_first(f, "content"@, 0),
        _ => {},
    }
    let ev = stream_events_spec(id, created, Ok(outcome));
    assert(delta_text(chat_chunk_value(id, created, role, None, None)) == Seq::<char>::empty());
    assert(delta_text(chat_chunk_value(id, created, content, None, None)) == outcome.text@);
    assert(assembled_text(Seq::<SseEventV>::empty()) == Seq::<char>::empty());
    assert(ev[0] == SseEventV::Data(chat_chunk_value(id, created, role, None, None)));
    assert(ev[1] == SseEventV::Data(chat_chunk_value(id, created, content, None, None)));
    assert(assembled_text(ev.take(1)) == Seq::<char>::empty()) by {
        assert(ev.take(1).drop_last() =~= Seq::<SseEventV>::empty());
        assert(ev.take(1).last() == ev[0]);
        assert(Seq::<char>::empty() + Seq::<char>::empty() =~= Seq::<char>::empty());
    }
    assert(assembled_text(ev.take(2)) == outcome.text@) by {
        assert(ev.take(2).drop_last() =~= ev.take(1));
        assert(ev.take(2).last() == ev[1]);
        assert(Seq::<char>::empty() + outcome.text@ =~= outcome.text@);
    }
    assert(assembled_text(ev.take(3)) == outcome.text@) by {
        assert(ev.take(3).drop_last() =~= ev.take(2));
        assert(ev.take(3).last() == ev[2]);
        assert(outcome.text@ + Seq::<char>::empty() =~= outcome.text@);
    }
    assert(assembled_text(ev) == outcome.text@) by {
        assert(ev.drop_last() =~= ev.take(3));
        assert(outcome.text@ + Seq::<char>::empty() =~= outcome.text@);
    }
}

/// The events a streamed completion sends for a finished turn: the
/// assistant role, the whole text, the finish reason with the usage, then
/// `[DONE]`. A failed turn sends one error event.
pub open spec fn stream_events_spec(
    id: Seq<char>,
    created: u64,
    result: Result<TurnOutcome, Seq<char>>,
) -> Seq<SseEventV> {
    match result {
        Ok(outcome) => seq![
            SseEventV::Data(
                chat_chunk_value(
                    id,
                    created,
                    JsonV::Object(seq![("role"@, JsonV::Str("assistant"@)), ("content"@, JsonV::Str(""@))]),
                    None,
                    None,
                ),
            ),
            SseEventV::Data(
                chat_chunk_value(
                    id,
                    created,
                    JsonV::Object(seq![("content"@, JsonV::Str(outcome.text@))]),
                    None,
                    None,
                ),
            ),
            SseEventV::Data(
                chat_chunk_value(
                    id,
                    created,
                    JsonV::Object(Seq::empty()),
                    Some(finish_spec(outcome.stop_reason@)),
                    outcome.usage,
                ),
            ),
            SseEventV::Done,
        ],
        Err(message) => seq![SseEventV::Error(error_value(message, 500))],
    }
}

/// The events of a streamed completion with id `completion_id`, created at
/// Unix time `created`, for a turn's outcome or its error message.
pub fn stream_events(completion_id: &str, created: u64, result: Result<TurnOutcome, String>) -> (r:
    Vec<SseEvent>)
    ensures
        r@.map_values(|e: SseEvent| e@) == stream_events_spec(
            completion_id@,
            created,
            match result {
                Ok(o) => Ok(o),
                Err(m) => Err(m@),
            },
        ),
        result matches Ok(o) ==> ({
            let ev = r@.map_values(|e: SseEvent| e@);
            &&& assembled_text(ev) == o.text@
            &&& ev.len() == 4
            &&& ev[3] is Done
            &&& ev[2] matches SseEventV::Data(b) && chunk_delta(b) == Some(JsonV::Object(Seq::empty()))
                && finish_of(b) == Some(
                if o.stop_reason@ == "max_tokens"@ {
                    "length"@
                } else {
                    "stop"@
                },
            )
        }),
{
    let ghost given = result;
    let mut out: Vec<SseEvent> = Vec::new();
    match result {
        Ok(outcome) => {
            let mut role: Vec<(String, Json)> = Vec::new();
            push_member(&mut role, "role", jstring("assistant"));
            push_member(&mut role, "content", jstring(""));
            assert(crate::json::Json::members(role@) =~= seq![
                ("role"@, JsonV::Str("assistant"@)),
                ("content"@, JsonV::Str(""@)),
            ]);
            out.push(SseEvent::Data(chat_chunk(completion_id, created, object(role), None, None)));
            let content = object1("content", jstring(outcome.text.as_str()));
            out.push(SseEvent::Data(chat_chunk(completion_id, created, content, None, None)));
            let none: Vec<(String, Json)> = Vec::new();
            assert(crate::json::Json::members(none@) =~= Seq::<(Seq<char>, JsonV)>::empty());
            let finish = finish_reason(outcome.stop_reason.as_str());
            let usage = match &outcome.usage {
                Some(u) => Some(u),
                None => None,
            };
            out.push(
                SseEvent::Data(chat_chunk(completion_id, created, object(none), Some(finish), usage)),
            );
            out.push(SseEvent::Done);
        },
        Err(message) => {
            out.push(SseEvent::Error(error_response(message.as_str(), 500)));
        },
    }
    assert(out@.map_values(|e: SseEvent| e@) =~= stream_events_spec(
        completion_id@,
        created,
        match result {
            Ok(o) => Ok(o),
            Err(m) => Err(m@),
        },
    ));
    proof {
        match given {
            Ok(o) => lemma_stream_assembles_text(completion_id@, created, o),
            Err(_) => {},
        }
    }
    out
}

/// The body of a non-streamed completion: the completion for a finished
/// turn, or the `500` error body for a failed one.
pub fn buffered_body(completion_id: &str, created: u64, result: Result<TurnOutcome, String>) -> (r:
    Result<Json, Json>)
    ensures
        match result {
            Ok(o) => r matches Ok(b) && b@ == chat_response_value(
                completion_id@,
                created,
                o.text@,
                finish_spec(o.stop_reason@),
                o.usage,
            ),
            Err(m) => r matches Err(b) && b@ == error_value(m@, 500),
        },
        result matches Ok(o) ==> (r matches Ok(b) && message_text(b@) == Some(o.text@) && finish_of(
            b@,
        ) == Some(
            if o.stop_reason@ == "max_tokens"@ {
                "length"@
            } else {
                "stop"@
            },
        )),
{
    let ghost given = result;
    proof {
        match given {
            Ok(o) => lemma_buffered_completion(completion_id@, created, o),
            Err(_) => {},
        }
    }
    match result {
        Ok(outcome) => {
            let finish = finish_reason(outcome.stop_reason.as_str());
            let usage = match &outcome.usage {
                Some(u) => Some(u),
                None => None,
            };
            Ok(chat_response(completion_id, created, outcome.text.as_str(), finish, usage))
        },
        Err(message) => Err(error_response(message.as_str(), 500)),
    }
}

/// The `/v1/models` answer for what model discovery found: the discovered
/// models; the gateway's own placeholder when the agent advertises none; the
/// `500` error body when discovery failed.
pub fn models_body(discovered: Result<Vec<ModelInfo>, String>, created: u64) -> (r: Result<
    Json,
    Json,
>)
    ensures
        match discovered {
            Ok(list) => r matches Ok(b) && b@ == models_value(
                if list@.len() > 0 {
                    list@.map_values(|m: ModelInfo| m.id@)
                } else {
                    seq![MODEL_NAME@]
                },
                created,
            ),
            Err(e) => r matches Err(b) && b@ == error_value("model discovery failed: "@ + e@, 500),
        },
{
    match discovered {
        Ok(list) => {
            if list.len() > 0 {
                Ok(models_response(list.as_slice(), created))
            } else {
                let mut placeholder: Vec<ModelInfo> = Vec::new();
                placeholder.push(
                    ModelInfo { id: to_string(MODEL_NAME), name: to_string(MODEL_NAME) },
                );
                assert(placeholder@.map_values(|m: ModelInfo| m.id@) =~= seq![MODEL_NAME@]);
                Ok(models_response(placeholder.as_slice(), created))
            }
        },
        Err(e) => {
            let m = concat("model discovery failed: ", e.as_str());
            Err(error_response(m.as_str(), 500))
        },
    }
}

} // verus!
