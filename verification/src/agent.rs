//! Agent protocol logic: answering agent requests, reading `session/new`
//! results, and the per-turn event handling of one ACP connection.
//!
//! Ordering invariant: the connection's events are handled strictly in the
//! order the agent wrote them. ACP agents emit all `session/update`
//! notifications for a turn before the `session/prompt` response, so
//! collecting text by handling events until the response is race-free.

use vstd::prelude::*;
use crate::json::{
    Json, JsonV, jarray, jget, jstr, jstring, number, object, object1, object2, push_member,
    lemma_values_index, lemma_values_len,
};
use crate::text::{concat, is_prefix, starts_with, str_eq, to_string};
use crate::acp::{Error, Id, IdV, Inbound, PromptResponse, TurnOutcome, Update, id_json};

verus! {

broadcast use vstd::string::group_string_axioms;

/// How the driver answers agent-initiated requests.
pub enum Policy {
    /// Auto-approve permission requests by picking the first `allow_*` option.
    ApproveAll,
    /// Keep the agent inside its sandbox: pick the first `reject_*` option so
    /// sandbox-escape escalations are denied and the agent adapts instead.
    Sandbox,
}

/// A JSON-RPC error object `{code, message}`.
pub open spec fn error_result_value(code: int, message: Seq<char>) -> JsonV {
    JsonV::Object(seq![("code"@, JsonV::Number(code)), ("message"@, JsonV::Str(message))])
}

/// The permission outcome selecting option `option_id`.
pub open spec fn selected_value(option_id: Seq<char>) -> JsonV {
    JsonV::Object(
        seq![
            ("outcome"@, JsonV::Object(
                seq![("outcome"@, JsonV::Str("selected"@)), ("optionId"@, JsonV::Str(option_id))],
            )),
        ],
    )
}

/// The options listed in a permission request (none when `options` is not
/// an array).
pub open spec fn permission_options(params: JsonV) -> Seq<JsonV> {
    match jarray(jget(params, "options"@)) {
        Some(a) => a,
        None => Seq::empty(),
    }
}

/// Whether option `o`'s `kind` starts with `want`.
pub open spec fn option_wanted(o: JsonV, want: Seq<char>) -> bool {
    match jstr(jget(o, "kind"@)) {
        Some(k) => is_prefix(want, k),
        None => false,
    }
}

/// The first option whose kind starts with `want`.
pub open spec fn first_wanted(opts: Seq<JsonV>, want: Seq<char>) -> Option<JsonV>
    decreases opts.len(),
{
    if opts.len() == 0 {
        None
    } else if option_wanted(opts[0], want) {
        Some(opts[0])
    } else {
        first_wanted(opts.drop_first(), want)
    }
}

/// The option a permission answer picks: the first wanted one, else the
/// first listed one.
pub open spec fn chosen_option(opts: Seq<JsonV>, want: Seq<char>) -> Option<JsonV> {
    match first_wanted(opts, want) {
        Some(o) => Some(o),
        None => if opts.len() > 0 {
            Some(opts[0])
        } else {
            None
        },
    }
}

/// The answer to a permission request: the chosen option's id, or an
/// invalid-params error when no option (or no option id) is there.
pub open spec fn permission_answer(params: JsonV, want: Seq<char>) -> JsonV {
    match chosen_option(permission_options(params), want) {
        Some(o) => match jstr(jget(o, "optionId"@)) {
            Some(id) => selected_value(id),
            None => error_result_value(-32602, "no permission options provided"@),
        },
        None => error_result_value(-32602, "no permission options provided"@),
    }
}

/// How a policy answers an agent request.
pub open spec fn answer_spec(policy: Policy, method: Seq<char>, params: JsonV) -> JsonV {
    if method == "session/request_permission"@ {
        match policy {
            Policy::ApproveAll => permission_answer(params, "allow"@),
            Policy::Sandbox => permission_answer(params, "reject"@),
        }
    } else {
        error_result_value(-32601, "gateway does not support `"@ + method + "`"@)
    }
}

impl Policy {
    /// Answer an agent-initiated request. Permission requests pick an option
    /// by policy; anything else (fs/terminal/elicitation, which the gateway
    /// advertises as off) gets a method-not-found error so a non-compliant
    /// agent fails fast instead of hanging.
    pub fn answer(&self, method: &str, params: &Json) -> (r: Json)
        ensures
            r@ == answer_spec(*self, method@, params@),
    {
        if str_eq(method, "session/request_permission") {
            match self {
                Policy::ApproveAll => choose_permission_option(params, "allow"),
                Policy::Sandbox => choose_permission_option(params, "reject"),
            }
        } else {
            let m = concat("gateway does not support `", method);
            let m = concat(m.as_str(), "`");
            error_result(-32601, m.as_str())
        }
    }
}

proof fn lemma_first_wanted_skip(opts: Seq<JsonV>, want: Seq<char>, i: int)
    requires
        0 <= i <= opts.len(),
        forall|j: int| 0 <= j < i ==> !option_wanted(opts[j], want),
    ensures
        first_wanted(opts, want) == first_wanted(opts.skip(i), want),
    decreases i,
{
    if i > 0 {
        assert(opts.drop_first().skip(i - 1) =~= opts.skip(i));
        lemma_first_wanted_skip(opts.drop_first(), want, i - 1);
    } else {
        assert(opts.skip(0) =~= opts);
    }
}

/// Whether option `o` has a `kind` starting with `want`.
fn option_is_wanted(o: &Json, want: &str) -> (r: bool)
    ensures
        r == option_wanted(o@, want@),
{
    match o.get("kind") {
        Some(k) => match k.as_str() {
            Some(s) => starts_with(s.as_str(), want),
            None => false,
        },
        None => false,
    }
}

/// Pick the first option whose `kind` starts with `want` (allow_/reject_),
/// falling back to the first listed option. Never hardcode ids.
pub fn choose_permission_option(params: &Json, want: &str) -> (r: Json)
    ensures
        r@ == permission_answer(params@, want@),
{
    let empty: Vec<Json> = Vec::new();
    let options: &Vec<Json> = match params.get("options") {
        Some(o) => match o.as_array() {
            Some(a) => a,
            None => &empty,
        },
        None => &empty,
    };
    let ghost opts = Json::values(options@);
    proof {
        lemma_values_len(options@);
        assert(opts == permission_options(params@));
    }
    let mut i: usize = 0;
    let mut found: Option<usize> = None;
    while i < options.len()
        invariant_except_break
            found is None,
        invariant
            i <= options.len(),
            opts == Json::values(options@),
            opts.len() == options.len(),
            forall|j: int| 0 <= j < i ==> !option_wanted(opts[j], want@),
        ensures
            (found == Some(i) && i < options.len() && option_wanted(opts[i as int], want@)) || (
            found is None && i == options.len()),
        decreases options.len() - i,
    {
        proof {
            lemma_values_index(options@, i as int);
        }
        if option_is_wanted(&options[i], want) {
            found = Some(i);
            break;
        }
        i += 1;
    }
    proof {
        lemma_first_wanted_skip(opts, want@, i as int);
        if i < opts.len() {
            assert(opts.skip(i as int)[0] == opts[i as int]);
        } else {
            assert(opts.skip(i as int).len() == 0);
        }
    }
    let chosen: Option<&Json> = match found {
        Some(k) => Some(&options[k]),
        None => if options.len() > 0 {
            proof {
                lemma_values_index(options@, 0);
            }
            Some(&options[0])
        } else {
            None
        },
    };
    assert(match chosen {
        Some(c) => chosen_option(opts, want@) == Some(c@),
        None => chosen_option(opts, want@) is None,
    }) by {
        if found is Some {
            lemma_values_index(options@, i as int);
        } else if options.len() > 0 {
            lemma_values_index(options@, 0);
        }
    }
    let option_id: Option<&String> = match chosen {
        Some(c) => match c.get("optionId") {
            Some(v) => v.as_str(),
            None => None,
        },
        None => None,
    };
    match option_id {
        Some(id) => {
            let inner = object2("outcome", jstring("selected"), "optionId", jstring(id.as_str()));
            object1("outcome", inner)
        },
        None => error_result(-32602, "no permission options provided"),
    }
}

/// A JSON-RPC error object `{code, message}`.
pub fn error_result(code: i64, message: &str) -> (r: Json)
    ensures
        r@ == error_result_value(code as int, message@),
{
    object2("code", Json::Number(code as i128), "message", jstring(message))
}

/// One selectable model from a `configOptions` entry with `category: "model"`.
#[derive(Debug, Clone, PartialEq, Eq)]
pub struct ModelInfo {
    /// Stable value id — what an OpenAI client would send as `model`.
    pub id: String,
    pub name: String,
}


/// What one `configOptions[].options` entry advertises: its `value` as the
/// id and its `name` (the id when absent); nothing without a string value.
pub open spec fn entry_model(e: JsonV) -> Option<(Seq<char>, Seq<char>)> {
    match jstr(jget(e, "value"@)) {
        Some(id) => Some(
            (
                id,
                match jstr(jget(e, "name"@)) {
                    Some(n) => n,
                    None => id,
                },
            ),
        ),
        None => None,
    }
}

/// The models advertised by a list of option entries, in order.
pub open spec fn entries_models(es: Seq<JsonV>) -> Seq<(Seq<char>, Seq<char>)>
    decreases es.len(),
{
    if es.len() == 0 {
        Seq::empty()
    } else {
        entries_models(es.drop_last()) + match entry_model(es.last()) {
            Some(m) => seq![m],
            None => Seq::empty(),
        }
    }
}

/// Whether a config option is a model selector: category `model`, type `select`.
pub open spec fn is_model_selector(opt: JsonV) -> bool {
    jstr(jget(opt, "category"@)) == Some("model"@) && jstr(jget(opt, "type"@)) == Some("select"@)
}

/// The models one config option advertises.
pub open spec fn option_models(opt: JsonV) -> Seq<(Seq<char>, Seq<char>)> {
    if is_model_selector(opt) {
        match jarray(jget(opt, "options"@)) {
            Some(es) => entries_models(es),
            None => Seq::empty(),
        }
    } else {
        Seq::empty()
    }
}

/// The models a list of config options advertises, in order.
pub open spec fn options_models(opts: Seq<JsonV>) -> Seq<(Seq<char>, Seq<char>)>
    decreases opts.len(),
{
    if opts.len() == 0 {
        Seq::empty()
    } else {
        options_models(opts.drop_last()) + option_models(opts.last())
    }
}

/// The models a `session/new` result advertises.
pub open spec fn advertised_models(result: JsonV) -> Seq<(Seq<char>, Seq<char>)> {
    match jarray(jget(result, "configOptions"@)) {
        Some(opts) => options_models(opts),
        None => Seq::empty(),
    }
}

/// The `(id, name)` pairs of a model list.
pub open spec fn model_pairs(ms: Seq<ModelInfo>) -> Seq<(Seq<char>, Seq<char>)> {
    ms.map_values(|m: ModelInfo| (m.id@, m.name@))
}

/// The string member `key` of `v`, if it is one.
fn get_str<'a>(v: &'a Json, key: &str) -> (r: Option<&'a String>)
    ensures
        match r {
            Some(s) => jstr(jget(v@, key@)) == Some(s@),
            None => jstr(jget(v@, key@)) is None,
        },
{
    match v.get(key) {
        Some(x) => x.as_str(),
        None => None,
    }
}

/// The array member `key` of `v`, if it is one.
fn get_array<'a>(v: &'a Json, key: &str) -> (r: Option<&'a Vec<Json>>)
    ensures
        match r {
            Some(a) => jarray(jget(v@, key@)) == Some(Json::values(a@)),
            None => jarray(jget(v@, key@)) is None,
        },
{
    match v.get(key) {
        Some(x) => x.as_array(),
        None => None,
    }
}

/// Appends the models advertised by `entries` to `out`.
fn push_entry_models(entries: &Vec<Json>, out: &mut Vec<ModelInfo>)
    ensures
        model_pairs(final(out)@) == model_pairs(old(out)@) + entries_models(Json::values(entries@)),
{
    let ghost es = Json::values(entries@);
    proof {
        lemma_values_len(entries@);
        assert(es.take(0) =~= Seq::<JsonV>::empty());
        assert(model_pairs(out@) + entries_models(es.take(0)) =~= model_pairs(out@));
    }
    let mut j: usize = 0;
    while j < entries.len()
        invariant
            j <= entries.len(),
            es == Json::values(entries@),
            es.len() == entries.len(),
            model_pairs(out@) == model_pairs(old(out)@) + entries_models(es.take(j as int)),
        decreases entries.len() - j,
    {
        let e = &entries[j];
        proof {
            lemma_values_index(entries@, j as int);
            assert(es.take(j + 1).drop_last() =~= es.take(j as int));
        }
        let ghost before = out@;
        match get_str(e, "value") {
            Some(id) => {
                let name = match get_str(e, "name") {
                    Some(n) => n.clone(),
                    None => id.clone(),
                };
                out.push(ModelInfo { id: id.clone(), name });
                assert(model_pairs(out@) =~= model_pairs(before).push((id@, name@)));
                assert(model_pairs(out@) =~= model_pairs(old(out)@) + entries_models(
                    es.take(j + 1),
                ));
            },
            None => {
                assert(model_pairs(out@) =~= model_pairs(old(out)@) + entries_models(
                    es.take(j + 1),
                ));
            },
        }
        j += 1;
    }
    assert(es.take(entries.len() as int) =~= es);
}

/// Pull `(id, name)` pairs from every select-type `configOptions` entry whose
/// category is `model`. Per the ACP spec (session-config-options) this is the
/// standard place agents advertise their models. Unknown/missing categories
/// and non-select entries are ignored.
pub fn extract_models(session_new_result: &Json) -> (r: Vec<ModelInfo>)
    ensures
        model_pairs(r@) == advertised_models(session_new_result@),
{
    let mut out: Vec<ModelInfo> = Vec::new();
    let options = match get_array(session_new_result, "configOptions") {
        Some(a) => a,
        None => {
            assert(model_pairs(out@) =~= Seq::<(Seq<char>, Seq<char>)>::empty());
            return out;
        },
    };
    let ghost opts = Json::values(options@);
    proof {
        lemma_values_len(options@);
        assert(opts.take(0) =~= Seq::<JsonV>::empty());
        assert(model_pairs(out@) =~= Seq::<(Seq<char>, Seq<char>)>::empty());
    }
    let mut i: usize = 0;
    while i < options.len()
        invariant
            i <= options.len(),
            opts == Json::values(options@),
            opts.len() == options.len(),
            model_pairs(out@) == options_models(opts.take(i as int)),
        decreases options.len() - i,
    {
        let opt = &options[i];
        proof {
            lemma_values_index(options@, i as int);
            assert(opts.take(i + 1).drop_last() =~= opts.take(i as int));
        }
        let is_model = match get_str(opt, "category") {
            Some(c) => str_eq(c.as_str(), "model"),
            None => false,
        };
        let is_select = match get_str(opt, "type") {
            Some(t) => str_eq(t.as_str(), "select"),
            None => false,
        };
        if is_model && is_select {
            match get_array(opt, "options") {
                Some(entries) => {
                    push_entry_models(entries, &mut out);
                },
                None => {
                    assert(model_pairs(out@) + Seq::<(Seq<char>, Seq<char>)>::empty()
                        =~= model_pairs(out@));
                },
            }
        } else {
            assert(model_pairs(out@) + Seq::<(Seq<char>, Seq<char>)>::empty() =~= model_pairs(
                out@,
            ));
        }
        i += 1;
    }
    assert(opts.take(options.len() as int) =~= opts);
    out
}

/// What `session/new` tells us about a fresh session.
#[derive(Debug)]
pub struct SessionInfo {
    pub session_id: String,
    /// Models the agent advertises as selectable for this session, in agent
    /// order. Empty when the agent exposes no model selector.
    pub models: Vec<ModelInfo>,
}

/// The `session/new` result names no session.
pub struct MissingSessionId;

/// Read a `session/new` result: the session id plus, when the agent
/// advertises them, its selectable models. A result without a string
/// `sessionId` is an error.
pub fn session_info(result: &Json) -> (r: Result<SessionInfo, MissingSessionId>)
    ensures
        match r {
            Ok(info) => jstr(jget(result@, "sessionId"@)) == Some(info.session_id@) && model_pairs(
                info.models@,
            ) == advertised_models(result@),
            Err(_) => jstr(jget(result@, "sessionId"@)) is None,
        },
{
    match get_str(result, "sessionId") {
        Some(id) => Ok(SessionInfo { session_id: id.clone(), models: extract_models(result) }),
        None => Err(MissingSessionId),
    }
}


/// Every inbound message the pump can deliver, in agent order.
pub enum Event {
    /// Response to one of OUR requests.
    Response(Id, Result<Json, Error>),
    /// `session/update` notification.
    Update(Update),
    /// Agent-initiated request that MUST be answered.
    AgentRequest(Id, String, Json),
}

/// What the stdout pump does with one parsed message.
pub enum Pumped {
    /// Deliver this event to the connection, in order.
    Deliver(Event),
    /// A `session/update` notification; its `update` payload (or `null`)
    /// still has to be read as an [`Update`].
    SessionUpdate(Json),
    /// An ignorable notification.
    Skip,
}

/// Classify one message from the agent's stdout. A response carries its
/// `result` when there is one, else its `error`, else `null`.
pub fn classify(msg: Inbound) -> (r: Pumped)
    ensures
        match msg {
            Inbound::Response { id, result, error } => match r {
                Pumped::Deliver(Event::Response(rid, payload)) => rid == id && match result {
                    Some(v) => payload == Ok::<Json, Error>(v),
                    None => match error {
                        Some(e) => payload == Err::<Json, Error>(e),
                        None => payload matches Ok(j) && j@ == JsonV::Null,
                    },
                },
                _ => false,
            },
            Inbound::Request { id, method, params } => r == Pumped::Deliver(
                Event::AgentRequest(id, method, params),
            ),
            Inbound::Notification { method, params } => if method@ == "session/update"@ {
                (r matches Pumped::SessionUpdate(u) && match jget(params@, "update"@) {
                    Some(v) => u@ == v,
                    None => u@ == JsonV::Null,
                })
            } else {
                r is Skip
            },
        },
{
    match msg {
        Inbound::Response { id, result, error } => {
            let payload = match result {
                Some(v) => Ok(v),
                None => match error {
                    Some(e) => Err(e),
                    None => Ok(Json::Null),
                },
            };
            Pumped::Deliver(Event::Response(id, payload))
        },
        Inbound::Request { id, method, params } => Pumped::Deliver(
            Event::AgentRequest(id, method, params),
        ),
        Inbound::Notification { method, params } => {
            if str_eq(method.as_str(), "session/update") {
                let update = match params.get("update") {
                    Some(u) => u.deep_clone(),
                    None => Json::Null,
                };
                Pumped::SessionUpdate(update)
            } else {
                Pumped::Skip
            }
        },
    }
}

/// What the prompt loop streams out live.
#[derive(Debug)]
pub enum TurnEvent {
    /// Visible answer text chunk.
    Message(String),
    /// Visible reasoning text chunk.
    Thought(String),
}

/// The value of a [`TurnEvent`].
pub enum TurnEventV {
    Message(Seq<char>),
    Thought(Seq<char>),
}

impl View for TurnEvent {
    type V = TurnEventV;

    open spec fn view(&self) -> TurnEventV {
        match self {
            TurnEvent::Message(s) => TurnEventV::Message(s@),
            TurnEvent::Thought(s) => TurnEventV::Thought(s@),
        }
    }
}

/// The answer text one update contributes: a text-typed message chunk's text.
pub open spec fn update_text(u: Update) -> Seq<char> {
    match u {
        Update::AgentMessageChunk { content } => if content.content_type@ == "text"@ {
            content.text@
        } else {
            Seq::empty()
        },
        _ => Seq::empty(),
    }
}

/// What one update streams out live: text-typed message and thought chunks.
pub open spec fn update_event(u: Update) -> Option<TurnEventV> {
    match u {
        Update::AgentMessageChunk { content } => if content.content_type@ == "text"@ {
            Some(TurnEventV::Message(content.text@))
        } else {
            None
        },
        Update::AgentThoughtChunk { content } => if content.content_type@ == "text"@ {
            Some(TurnEventV::Thought(content.text@))
        } else {
            None
        },
        Update::Other => None,
    }
}

/// The answer text of a run of updates, in order.
pub open spec fn updates_text(us: Seq<Update>) -> Seq<char>
    decreases us.len(),
{
    if us.len() == 0 {
        Seq::empty()
    } else {
        updates_text(us.drop_last()) + update_text(us.last())
    }
}

/// What a run of updates streams out live, in order.
pub open spec fn updates_events(us: Seq<Update>) -> Seq<TurnEventV>
    decreases us.len(),
{
    if us.len() == 0 {
        Seq::empty()
    } else {
        updates_events(us.drop_last()) + match update_event(us.last()) {
            Some(e) => seq![e],
            None => Seq::empty(),
        }
    }
}

/// One update: append message text to `text_out`, and say what to stream.
pub fn handle_live(update: Update, text_out: &mut String) -> (r: Option<TurnEvent>)
    ensures
        final(text_out)@ == old(text_out)@ + update_text(update),
        match r {
            Some(e) => update_event(update) == Some(e@),
            None => update_event(update) is None,
        },
{
    match update {
        Update::AgentMessageChunk { content } => {
            if str_eq(content.content_type.as_str(), "text") {
                text_out.append(content.text.as_str());
                Some(TurnEvent::Message(content.text))
            } else {
                assert(old(text_out)@ + Seq::<char>::empty() =~= old(text_out)@);
                None
            }
        },
        Update::AgentThoughtChunk { content } => {
            assert(old(text_out)@ + Seq::<char>::empty() =~= old(text_out)@);
            if str_eq(content.content_type.as_str(), "text") {
                Some(TurnEvent::Thought(content.text))
            } else {
                None
            }
        },
        Update::Other => {
            assert(old(text_out)@ + Seq::<char>::empty() =~= old(text_out)@);
            None
        },
    }
}

/// A JSON-RPC request frame.
pub open spec fn request_frame(id: int, method: Seq<char>, params: JsonV) -> JsonV {
    JsonV::Object(
        seq![
            ("jsonrpc"@, JsonV::Str("2.0"@)),
            ("id"@, JsonV::Number(id)),
            ("method"@, JsonV::Str(method)),
            ("params"@, params),
        ],
    )
}

/// A JSON-RPC result frame answering request `id`.
pub open spec fn reply_frame(id: IdV, result: JsonV) -> JsonV {
    JsonV::Object(
        seq![("jsonrpc"@, JsonV::Str("2.0"@)), ("id"@, id_json(id)), ("result"@, result)],
    )
}

/// The frame answering agent request `id` with `result`.
pub fn reply(id: &Id, result: Json) -> (r: Json)
    ensures
        r@ == reply_frame(id@, result@),
{
    let mut m: Vec<(String, Json)> = Vec::new();
    push_member(&mut m, "jsonrpc", jstring("2.0"));
    push_member(&mut m, "id", id.to_value());
    push_member(&mut m, "result", result);
    assert(Json::members(m@) =~= seq![
        ("jsonrpc"@, JsonV::Str("2.0"@)),
        ("id"@, id_json(id@)),
        ("result"@, result@),
    ]);
    object(m)
}

/// Why a request or a turn failed on the agent's side.
pub enum RpcFailure {
    /// The agent answered some other request than the one awaited.
    IdMismatch { got: Id, want: Id },
    /// The agent answered with a JSON-RPC error.
    AgentError { code: i64, message: String },
}

/// What to do after one event while awaiting a response.
pub enum RequestStep {
    /// The awaited response arrived with this result.
    Answered(Json),
    /// The request failed.
    Failed(RpcFailure),
    /// Write this frame to the agent, then keep waiting.
    Reply(Json),
    /// Keep waiting.
    Continue,
}

/// What to do after one event of a prompt turn.
pub enum TurnStep {
    /// Stream this event out, then keep going.
    Emit(TurnEvent),
    /// Nothing to stream; keep going.
    Quiet,
    /// Write this frame to the agent, then keep going.
    Reply(Json),
    /// The turn failed.
    Failed(RpcFailure),
    /// The prompt response arrived with this result.
    Finished(Json),
}

/// The request-side state of one ACP connection: the next request id and
/// the updates seen while servicing some other request than a prompt.
pub struct Connection {
    pub next_id: i64,
    /// Updates seen while servicing a different request; prepended to the
    /// next turn's text (agents only emit them inside a turn, but ordering
    /// with respect to a stray response must hold anyway).
    pub queued_updates: Vec<Update>,
}

/// An ongoing prompt turn: the id of its `session/prompt` request and the
/// answer text collected so far.
pub struct Turn {
    pub prompt_id: Id,
    pub text: String,
}

/// The failure an unexpected response or an error payload means.
fn response_failure(got: Id, want: &Id, payload: Result<Json, Error>) -> (r: Result<Json, RpcFailure>)
    ensures
        got@ != want@ ==> (r matches Err(RpcFailure::IdMismatch { got: g, want: w }) && g@ == got@
            && w@ == want@),
        got@ == want@ ==> match payload {
            Ok(v) => r == Ok::<Json, RpcFailure>(v),
            Err(e) => r matches Err(RpcFailure::AgentError { code, message }) && code == e.code
                && message@ == e.message@,
        },
{
    if got != *want {
        Err(RpcFailure::IdMismatch { got, want: want.copy() })
    } else {
        match payload {
            Ok(v) => Ok(v),
            Err(e) => Err(RpcFailure::AgentError { code: e.code, message: e.message }),
        }
    }
}

impl Connection {
    /// A fresh connection: ids start at 0, nothing queued.
    pub fn new() -> (r: Connection)
        ensures
            r.next_id == 0,
            r.queued_updates@ == Seq::<Update>::empty(),
    {
        Connection { next_id: 0, queued_updates: Vec::new() }
    }

    /// Allocate the next request id and frame a request with it.
    pub fn send_request(&mut self, method: &str, params: Json) -> (r: (Id, Json))
        requires
            old(self).next_id < i64::MAX,
        ensures
            r.0@ == IdV::Num(old(self).next_id as int),
            final(self).next_id == old(self).next_id + 1,
            final(self).queued_updates@ == old(self).queued_updates@,
            r.1@ == request_frame(old(self).next_id as int, method@, params@),
    {
        let n: i64 = self.next_id;
        self.next_id = n + 1;
        let id = Id::Num(n);
        let mut m: Vec<(String, Json)> = Vec::new();
        push_member(&mut m, "jsonrpc", jstring("2.0"));
        push_member(&mut m, "id", id.to_value());
        push_member(&mut m, "method", jstring(method));
        push_member(&mut m, "params", params);
        assert(Json::members(m@) =~= seq![
            ("jsonrpc"@, JsonV::Str("2.0"@)),
            ("id"@, JsonV::Number(n as int)),
            ("method"@, JsonV::Str(method@)),
            ("params"@, params@),
        ]);
        (id, object(m))
    }

    /// One event while awaiting the response to request `want` (sent by
    /// `method`): the response ends the wait, updates are queued for the
    /// next turn, agent requests are answered by approving.
    pub fn on_request_event(&mut self, want: &Id, event: Event) -> (r: RequestStep)
        ensures
            final(self).next_id == old(self).next_id,
            match event {
                Event::Response(got, payload) => final(self).queued_updates@ == old(
                    self,
                ).queued_updates@ && if got@ != want@ {
                    r matches RequestStep::Failed(RpcFailure::IdMismatch { got: g, want: w })
                        && g@ == got@ && w@ == want@
                } else {
                    match payload {
                        Ok(v) => r == RequestStep::Answered(v),
                        Err(e) => r matches RequestStep::Failed(
                            RpcFailure::AgentError { code, message },
                        ) && code == e.code && message@ == e.message@,
                    }
                },
                Event::Update(u) => final(self).queued_updates@ == old(self).queued_updates@.push(u)
                    && r is Continue,
                Event::AgentRequest(id, method, params) => final(self).queued_updates@ == old(
                    self,
                ).queued_updates@ && (r matches RequestStep::Reply(f) && f@ == reply_frame(
                    id@,
                    answer_spec(Policy::ApproveAll, method@, params@),
                )),
            },
    {
        match event {
            Event::Response(got, payload) => match response_failure(got, want, payload) {
                Ok(v) => RequestStep::Answered(v),
                Err(f) => RequestStep::Failed(f),
            },
            Event::Update(u) => {
                self.queued_updates.push(u);
                RequestStep::Continue
            },
            Event::AgentRequest(id, method, params) => {
                let result = Policy::ApproveAll.answer(method.as_str(), &params);
                RequestStep::Reply(reply(&id, result))
            },
        }
    }

    /// Start the turn awaiting `prompt_id`: updates queued before it belong
    /// to this turn's stream, so they are handled first, in order.
    pub fn begin_turn(&mut self, prompt_id: Id) -> (r: (Turn, Vec<TurnEvent>))
        ensures
            final(self).next_id == old(self).next_id,
            final(self).queued_updates@ == Seq::<Update>::empty(),
            r.0.prompt_id == prompt_id,
            r.0.text@ == updates_text(old(self).queued_updates@),
            r.1@.map_values(|e: TurnEvent| e@) == updates_events(old(self).queued_updates@),
    {
        let mut queued: Vec<Update> = Vec::new();
        std::mem::swap(&mut queued, &mut self.queued_updates);
        let ghost us = queued@;
        let mut text = String::new();
        let mut events: Vec<TurnEvent> = Vec::new();
        assert(us.take(0) =~= Seq::<Update>::empty());
        assert(events@.map_values(|e: TurnEvent| e@) =~= Seq::<TurnEventV>::empty());
        for u in it: queued
            invariant
                us == it.seq(),
                text@ == updates_text(us.take(it.index())),
                events@.map_values(|e: TurnEvent| e@) == updates_events(us.take(it.index())),
        {
            let ghost k = it.index();
            let ghost before = events@;
            assert(us.take(k + 1).drop_last() =~= us.take(k));
            assert(us.take(k + 1).last() == u);
            match handle_live(u, &mut text) {
                Some(e) => {
                    events.push(e);
                    assert(events@.map_values(|e: TurnEvent| e@) =~= before.map_values(
                        |e: TurnEvent| e@,
                    ) + seq![e@]);
                },
                None => {
                    assert(events@.map_values(|e: TurnEvent| e@) =~= before.map_values(
                        |e: TurnEvent| e@,
                    ) + Seq::<TurnEventV>::empty());
                },
            }
        }
        assert(us.take(us.len() as int) =~= us);
        (Turn { prompt_id, text }, events)
    }
}

impl Turn {
    /// One event of the turn: updates stream out (message text is also
    /// collected), agent requests are answered by `policy`, and the response
    /// to the prompt ends the turn.
    pub fn on_event(&mut self, policy: &Policy, event: Event) -> (r: TurnStep)
        ensures
            final(self).prompt_id == old(self).prompt_id,
            match event {
                Event::Update(u) => final(self).text@ == old(self).text@ + update_text(u) && match r {
                    TurnStep::Emit(e) => update_event(u) == Some(e@),
                    TurnStep::Quiet => update_event(u) is None,
                    _ => false,
                },
                Event::AgentRequest(id, method, params) => final(self).text@ == old(self).text@ && (
                r matches TurnStep::Reply(f) && f@ == reply_frame(
                    id@,
                    answer_spec(*policy, method@, params@),
                )),
                Event::Response(got, payload) => final(self).text@ == old(self).text@ && if got@
                    != old(self).prompt_id@ {
                    r matches TurnStep::Failed(RpcFailure::IdMismatch { got: g, want: w }) && g@
                        == got@ && w@ == old(self).prompt_id@
                } else {
                    match payload {
                        Ok(v) => r == TurnStep::Finished(v),
                        Err(e) => r matches TurnStep::Failed(
                            RpcFailure::AgentError { code, message },
                        ) && code == e.code && message@ == e.message@,
                    }
                },
            },
    {
        match event {
            Event::Update(u) => match handle_live(u, &mut self.text) {
                Some(e) => TurnStep::Emit(e),
                None => TurnStep::Quiet,
            },
            Event::AgentRequest(id, method, params) => {
                let result = policy.answer(method.as_str(), &params);
                TurnStep::Reply(reply(&id, result))
            },
            Event::Response(got, payload) => match response_failure(got, &self.prompt_id, payload) {
                Ok(v) => TurnStep::Finished(v),
                Err(f) => TurnStep::Failed(f),
            },
        }
    }

    /// The outcome of a finished turn, given the prompt response as read
    /// from the agent's result (`None` when it could not be read: the stop
    /// reason is then `unknown`).
    pub fn finish(self, response: Option<PromptResponse>) -> (r: TurnOutcome)
        ensures
            r.text@ == self.text@,
            match response {
                Some(p) => r.stop_reason@ == p.stop_reason@ && r.usage == p.usage,
                None => r.stop_reason@ == "unknown"@ && r.usage is None,
            },
    {
        match response {
            Some(p) => TurnOutcome { text: self.text, stop_reason: p.stop_reason, usage: p.usage },
            None => TurnOutcome { text: self.text, stop_reason: to_string("unknown"), usage: None },
        }
    }
}

/// The `initialize` parameters: protocol version 1, no fs or terminal
/// capabilities, and the gateway's name and `version`.
pub open spec fn initialize_params_value(version: Seq<char>) -> JsonV {
    JsonV::Object(
        seq![
            ("protocolVersion"@, JsonV::Number(1)),
            ("clientCapabilities"@, JsonV::Object(
                seq![
                    ("fs"@, JsonV::Object(
                        seq![
                            ("readTextFile"@, JsonV::Bool(false)),
                            ("writeTextFile"@, JsonV::Bool(false)),
                        ],
                    )),
                    ("terminal"@, JsonV::Bool(false)),
                ],
            )),
            ("clientInfo"@, JsonV::Object(
                seq![("name"@, JsonV::Str("trae_acp_gateway"@)), ("version"@, JsonV::Str(version))],
            )),
        ],
    )
}

/// The `initialize` request parameters.
pub fn initialize_params(version: &str) -> (r: Json)
    ensures
        r@ == initialize_params_value(version@),
{
    let fs = object2("readTextFile", Json::Bool(false), "writeTextFile", Json::Bool(false));
    let caps = object2("fs", fs, "terminal", Json::Bool(false));
    let info = object2("name", jstring("trae_acp_gateway"), "version", jstring(version));
    let mut m: Vec<(String, Json)> = Vec::new();
    push_member(&mut m, "protocolVersion", number(1));
    push_member(&mut m, "clientCapabilities", caps);
    push_member(&mut m, "clientInfo", info);
    assert(Json::members(m@) =~= match initialize_params_value(version@) {
        JsonV::Object(f) => f,
        _ => Seq::empty(),
    });
    object(m)
}

/// The `session/new` request parameters: the working directory, no MCP servers.
pub fn session_new_params(cwd: &str) -> (r: Json)
    ensures
        r@ == JsonV::Object(
            seq![("cwd"@, JsonV::Str(cwd@)), ("mcpServers"@, JsonV::Array(Seq::empty()))],
        ),
{
    let servers: Vec<Json> = Vec::new();
    assert(Json::values(servers@) =~= Seq::<JsonV>::empty());
    object2("cwd", jstring(cwd), "mcpServers", Json::Array(servers))
}

/// The `session/prompt` parameters: one text block.
pub open spec fn prompt_params_value(session_id: Seq<char>, text: Seq<char>) -> JsonV {
    JsonV::Object(
        seq![
            ("sessionId"@, JsonV::Str(session_id)),
            ("prompt"@, JsonV::Array(
                seq![
                    JsonV::Object(
                        seq![("type"@, JsonV::Str("text"@)), ("text"@, JsonV::Str(text))],
                    ),
                ],
            )),
        ],
    )
}

/// The `session/prompt` request parameters.
pub fn prompt_params(session_id: &str, text: &str) -> (r: Json)
    ensures
        r@ == prompt_params_value(session_id@, text@),
{
    let block = object2("type", jstring("text"), "text", jstring(text));
    let mut blocks: Vec<Json> = Vec::new();
    blocks.push(block);
    assert(Json::values(blocks@) =~= seq![block@]) by {
        crate::json::lemma_values_push(Seq::empty(), block);
        assert(Seq::<Json>::empty().push(block) =~= blocks@);
    }
    object2("sessionId", jstring(session_id), "prompt", Json::Array(blocks))
}

/// A permission answer picks a wanted option whenever one is listed: the
/// sandbox policy rejects if it can, the approving policy approves if it can,
/// wherever that option stands in the list.
pub proof fn lemma_wanted_option_preferred(opts: Seq<JsonV>, want: Seq<char>, i: int)
    requires
        0 <= i < opts.len(),
        option_wanted(opts[i], want),
    ensures
        chosen_option(opts, want) matches Some(o) && option_wanted(o, want),
    decreases i,
{
    if !option_wanted(opts[0], want) {
        lemma_wanted_option_preferred(opts.drop_first(), want, i - 1);
    }
}

/// The text of a turn is the answer text of the queued updates followed by
/// that of the live ones, in agent order.
pub proof fn lemma_turn_text_in_order(queued: Seq<Update>, live: Seq<Update>)
    ensures
        updates_text(queued + live) == updates_text(queued) + updates_text(live),
    decreases live.len(),
{
    if live.len() == 0 {
        assert(queued + live =~= queued);
        assert(updates_text(queued) + Seq::<char>::empty() =~= updates_text(queued));
    } else {
        lemma_turn_text_in_order(queued, live.drop_last());
        assert((queued + live).drop_last() =~= queued + live.drop_last());
        assert((queued + live).last() == live.last());
        assert(updates_text(queued) + updates_text(live.drop_last()) + update_text(live.last())
            =~= updates_text(queued) + (updates_text(live.drop_last()) + update_text(live.last())));
    }
}

} // verus!
