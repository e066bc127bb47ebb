//! OpenAI-compatible HTTP surface: request flattening and response bodies.

use vstd::prelude::*;
use crate::acp::Usage;
use crate::agent::ModelInfo;
use crate::json::{
    Json, JsonV, jget, jstr, array, jstring, number, object, push_member, lemma_values_index,
    lemma_values_len, lemma_values_push,
};
use crate::text::{concat, push_char, push_decimal, str_eq, to_string};

verus! {

broadcast use vstd::string::group_string_axioms;

/// The model id the gateway reports for itself.
pub const MODEL_NAME: &'static str = "trae";

/// OpenAI chat request. We keep only what we consume; `model` is accepted but
/// ignored (trae decides its own model), `stream` switches the response mode.
pub struct ChatRequest {
    pub messages: Vec<ChatMessage>,
    pub stream: bool,
}

/// One chat message: its role and its content (a string for plain text, an
/// array of parts for multimodal callers).
pub struct ChatMessage {
    pub role: String,
    pub content: Json,
}

/// The value of a [`ChatMessage`]: role and content.
pub struct ChatMessageV {
    pub role: Seq<char>,
    pub content: JsonV,
}

impl View for ChatMessage {
    type V = ChatMessageV;

    open spec fn view(&self) -> ChatMessageV {
        ChatMessageV { role: self.role@, content: self.content@ }
    }
}

/// The text one content part contributes: its `text` when its `type` is `"text"`.
pub open spec fn part_text(p: JsonV) -> Seq<char> {
    if jstr(jget(p, "type"@)) == Some("text"@) {
        match jstr(jget(p, "text"@)) {
            Some(t) => t,
            None => Seq::empty(),
        }
    } else {
        Seq::empty()
    }
}

/// The text parts of a content array, concatenated in order.
pub open spec fn parts_text(ps: Seq<JsonV>) -> Seq<char>
    decreases ps.len(),
{
    if ps.len() == 0 {
        Seq::empty()
    } else {
        parts_text(ps.drop_last()) + part_text(ps.last())
    }
}

/// Plain text of a message content: the string itself, the concatenated text
/// parts of an array, nothing otherwise.
pub open spec fn content_text(c: JsonV) -> Seq<char> {
    match c {
        JsonV::Str(s) => s,
        JsonV::Array(ps) => parts_text(ps),
        _ => Seq::empty(),
    }
}

impl ChatMessage {
    /// Extract plain text from string or content-parts-array forms.
    pub fn text(&self) -> (r: String)
        ensures
            r@ == content_text(self.content@),
    {
        match &self.content {
            Json::Str(s) => s.clone(),
            Json::Array(parts) => {
                let mut out = String::new();
                let mut i: usize = 0;
                proof {
                    lemma_values_len(parts@);
                    assert(Json::values(parts@).take(0) =~= Seq::<JsonV>::empty());
                }
                while i < parts.len()
                    invariant
                        i <= parts.len(),
                        Json::values(parts@).len() == parts.len(),
                        out@ == parts_text(Json::values(parts@).take(i as int)),
                    decreases parts.len() - i,
                {
                    let p = &parts[i];
                    proof {
                        lemma_values_index(parts@, i as int);
                        assert(Json::values(parts@).take(i + 1).drop_last() =~= Json::values(
                            parts@,
                        ).take(i as int));
                    }
                    let is_text = match p.get("type") {
                        Some(t) => match t.as_str() {
                            Some(s) => str_eq(s.as_str(), "text"),
                            None => false,
                        },
                        None => false,
                    };
                    if is_text {
                        match p.get("text") {
                            Some(t) => match t.as_str() {
                                Some(s) => {
                                    out.append(s.as_str());
                                },
                                None => {
                                    assert(out@ + Seq::<char>::empty() =~= out@);
                                },
                            },
                            None => {
                                assert(out@ + Seq::<char>::empty() =~= out@);
                            },
                        }
                    } else {
                        assert(out@ + Seq::<char>::empty() =~= out@);
                    }
                    i += 1;
                }
                proof {
                    assert(Json::values(parts@).take(parts.len() as int) =~= Json::values(parts@));
                }
                out
            },
            _ => String::new(),
        }
    }
}

/// `system` and `developer` messages are instructions, not conversation.
pub open spec fn is_system_role(role: Seq<char>) -> bool {
    role == "system"@ || role == "developer"@
}

/// The conversation line of a non-system message.
pub open spec fn body_line(m: ChatMessageV) -> Seq<char> {
    if m.role == "assistant"@ {
        "[assistant]: "@ + content_text(m.content)
    } else {
        "[user]: "@ + content_text(m.content)
    }
}

/// The system texts, in order, each after a newline unless nothing precedes it.
pub open spec fn system_text(ms: Seq<ChatMessageV>) -> Seq<char>
    decreases ms.len(),
{
    if ms.len() == 0 {
        Seq::empty()
    } else {
        let out = system_text(ms.drop_last());
        let m = ms.last();
        if is_system_role(m.role) {
            if out.len() == 0 {
                content_text(m.content)
            } else {
                out.push('\n') + content_text(m.content)
            }
        } else {
            out
        }
    }
}

/// The conversation lines of the non-system messages, in order.
pub open spec fn body_lines(ms: Seq<ChatMessageV>) -> Seq<Seq<char>>
    decreases ms.len(),
{
    if ms.len() == 0 {
        Seq::empty()
    } else {
        let rest = body_lines(ms.drop_last());
        if is_system_role(ms.last().role) {
            rest
        } else {
            rest.push(body_line(ms.last()))
        }
    }
}

/// `lines` joined by newlines.
pub open spec fn join_lines(lines: Seq<Seq<char>>) -> Seq<char>
    decreases lines.len(),
{
    if lines.len() == 0 {
        Seq::empty()
    } else if lines.len() == 1 {
        lines[0]
    } else {
        join_lines(lines.drop_last()).push('\n') + lines.last()
    }
}

/// The single prompt a message list flattens to: the system texts first,
/// then a newline if there were any, then the conversation lines.
pub open spec fn flatten_spec(ms: Seq<ChatMessageV>) -> Seq<char> {
    let out = system_text(ms);
    let head = if out.len() == 0 {
        out
    } else {
        out.push('\n')
    };
    head + join_lines(body_lines(ms))
}

/// `lines[0..n]` joined by newlines, as a new `String`.
fn join_with_newlines(lines: &Vec<String>) -> (r: String)
    ensures
        r@ == join_lines(lines@.map_values(|l: String| l@)),
{
    let ghost ls = lines@.map_values(|l: String| l@);
    let mut out = String::new();
    let mut i: usize = 0;
    assert(ls.take(0) =~= Seq::<Seq<char>>::empty());
    while i < lines.len()
        invariant
            i <= lines.len(),
            ls == lines@.map_values(|l: String| l@),
            out@ == join_lines(ls.take(i as int)),
        decreases lines.len() - i,
    {
        assert(ls.take(i + 1).drop_last() =~= ls.take(i as int));
        if i > 0 {
            push_char(&mut out, '\n');
        } else {
            assert(Seq::<char>::empty() + ls[0] =~= ls[0]);
        }
        out.append(lines[i].as_str());
        i += 1;
    }
    assert(ls.take(lines.len() as int) =~= ls);
    out
}

/// Flatten the OpenAI message list into a single prompt string.
/// `system` messages go first verbatim; the rest are role-prefixed and
/// newline-joined. ACP turns are single-shot here (session per request).
pub fn flatten_messages(messages: &[ChatMessage]) -> (r: String)
    ensures
        r@ == flatten_spec(messages@.map_values(|m: ChatMessage| m@)),
{
    let ghost ms = messages@.map_values(|m: ChatMessage| m@);
    let mut out = String::new();
    let mut body: Vec<String> = Vec::new();
    let mut i: usize = 0;
    assert(ms.take(0) =~= Seq::<ChatMessageV>::empty());
    assert(body@.map_values(|l: String| l@) =~= Seq::<Seq<char>>::empty());
    while i < messages.len()
        invariant
            i <= messages.len(),
            ms == messages@.map_values(|m: ChatMessage| m@),
            out@ == system_text(ms.take(i as int)),
            body@.map_values(|l: String| l@) == body_lines(ms.take(i as int)),
        decreases messages.len() - i,
    {
        let m = &messages[i];
        let text = m.text();
        proof {
            assert(ms.take(i + 1).drop_last() =~= ms.take(i as int));
            assert(ms.take(i + 1).last() == m@);
        }
        let ghost old_body = body@;
        if str_eq(m.role.as_str(), "system") || str_eq(m.role.as_str(), "developer") {
            if !out.as_str().is_empty() {
                push_char(&mut out, '\n');
            } else {
                assert(out@.len() == 0);
                assert(out@ + text@ =~= text@);
            }
            out.append(text.as_str());
        } else if str_eq(m.role.as_str(), "assistant") {
            body.push(concat("[assistant]: ", text.as_str()));
            assert(body@.map_values(|l: String| l@) =~= old_body.map_values(|l: String| l@).push(
                body_line(m@),
            ));
        } else {
            body.push(concat("[user]: ", text.as_str()));
            assert(body@.map_values(|l: String| l@) =~= old_body.map_values(|l: String| l@).push(
                body_line(m@),
            ));
        }
        i += 1;
    }
    assert(ms.take(messages.len() as int) =~= ms);
    if !out.as_str().is_empty() {
        push_char(&mut out, '\n');
    } else {
        assert(out@.len() == 0);
    }
    let joined = join_with_newlines(&body);
    out.append(joined.as_str());
    out
}

/// The system and developer messages of `ms`, in order.
pub open spec fn system_messages(ms: Seq<ChatMessageV>) -> Seq<ChatMessageV>
    decreases ms.len(),
{
    if ms.len() == 0 {
        Seq::empty()
    } else if is_system_role(ms.last().role) {
        system_messages(ms.drop_last()).push(ms.last())
    } else {
        system_messages(ms.drop_last())
    }
}

/// The conversation messages of `ms` (all but system and developer), in order.
pub open spec fn conversation_messages(ms: Seq<ChatMessageV>) -> Seq<ChatMessageV>
    decreases ms.len(),
{
    if ms.len() == 0 {
        Seq::empty()
    } else if is_system_role(ms.last().role) {
        conversation_messages(ms.drop_last())
    } else {
        conversation_messages(ms.drop_last()).push(ms.last())
    }
}

proof fn lemma_system_text_of_systems(ms: Seq<ChatMessageV>)
    ensures
        system_text(system_messages(ms)) == system_text(ms),
        body_lines(conversation_messages(ms)) == body_lines(ms),
        forall|k: int| 0 <= k < system_messages(ms).len() ==> is_system_role(#[trigger] system_messages(ms)[k].role),
        forall|k: int|
            0 <= k < conversation_messages(ms).len() ==> !is_system_role(
                #[trigger] conversation_messages(ms)[k].role,
            ),
    decreases ms.len(),
{
    if ms.len() > 0 {
        let dl = ms.drop_last();
        lemma_system_text_of_systems(dl);
        if is_system_role(ms.last().role) {
            assert(system_messages(ms).drop_last() =~= system_messages(dl));
        } else {
            assert(conversation_messages(ms).drop_last() =~= conversation_messages(dl));
        }
    }
}

proof fn lemma_system_text_conversation_suffix(a: Seq<ChatMessageV>, b: Seq<ChatMessageV>)
    requires
        forall|k: int| 0 <= k < b.len() ==> !is_system_role(#[trigger] b[k].role),
    ensures
        system_text(a + b) == system_text(a),
    decreases b.len(),
{
    if b.len() == 0 {
        assert(a + b =~= a);
    } else {
        assert((a + b).drop_last() =~= a + b.drop_last());
        assert((a + b).last() == b[b.len() - 1]);
        lemma_system_text_conversation_suffix(a, b.drop_last());
    }
}

proof fn lemma_body_lines_system_prefix(a: Seq<ChatMessageV>, b: Seq<ChatMessageV>)
    requires
        forall|k: int| 0 <= k < a.len() ==> is_system_role(#[trigger] a[k].role),
    ensures
        body_lines(a + b) == body_lines(b),
    decreases a.len() + b.len(),
{
    if b.len() == 0 {
        assert(a + b =~= a);
        if a.len() > 0 {
            assert(a.drop_last() + b =~= a.drop_last());
            lemma_body_lines_system_prefix(a.drop_last(), b);
            assert(is_system_role(a[a.len() - 1].role));
        }
    } else {
        assert((a + b).drop_last() =~= a + b.drop_last());
        assert((a + b).last() == b[b.len() - 1]);
        lemma_body_lines_system_prefix(a, b.drop_last());
    }
}

/// System and developer messages go first wherever they stand: flattening a
/// message list gives the same prompt as flattening its system messages
/// followed by its conversation messages.
pub proof fn lemma_flatten_systems_first(ms: Seq<ChatMessageV>)
    ensures
        flatten_spec(ms) == flatten_spec(system_messages(ms) + conversation_messages(ms)),
{
    lemma_system_text_of_systems(ms);
    lemma_system_text_conversation_suffix(system_messages(ms), conversation_messages(ms));
    lemma_body_lines_system_prefix(system_messages(ms), conversation_messages(ms));
}

/// The text of a message is its string content character for character;
/// of an array content, the texts of its `text` parts in order.
pub proof fn lemma_message_text_unchanged(s: Seq<char>, ps: Seq<JsonV>, p: JsonV)
    ensures
        content_text(JsonV::Str(s)) == s,
        content_text(JsonV::Array(Seq::empty())) == Seq::<char>::empty(),
        content_text(JsonV::Array(ps.push(p))) == content_text(JsonV::Array(ps)) + part_text(p),
        jstr(jget(p, "type"@)) == Some("text"@) ==> part_text(p) == match jstr(jget(p, "text"@)) {
            Some(t) => t,
            None => Seq::<char>::empty(),
        },
        jstr(jget(p, "type"@)) != Some("text"@) ==> part_text(p) == Seq::<char>::empty(),
{
    assert(ps.push(p).drop_last() =~= ps);
}

/// Every conversation message gives one line of the prompt, in order: the
/// role prefix (`[assistant]: ` for the assistant, `[user]: ` for any other
/// role) followed by the message's text unchanged.
pub proof fn lemma_conversation_lines(ms: Seq<ChatMessageV>)
    ensures
        body_lines(ms).len() == conversation_messages(ms).len(),
        forall|i: int|
            0 <= i < body_lines(ms).len() ==> #[trigger] body_lines(ms)[i] == (if conversation_messages(
                ms,
            )[i].role == "assistant"@ {
                "[assistant]: "@
            } else {
                "[user]: "@
            }) + content_text(conversation_messages(ms)[i].content),
    decreases ms.len(),
{
    if ms.len() > 0 {
        lemma_conversation_lines(ms.drop_last());
        let prev = ms.drop_last();
        if !is_system_role(ms.last().role) {
            assert forall|i: int| 0 <= i < body_lines(ms).len() implies #[trigger] body_lines(ms)[i] == (
            if conversation_messages(ms)[i].role == "assistant"@ {
                "[assistant]: "@
            } else {
                "[user]: "@
            }) + content_text(conversation_messages(ms)[i].content) by {
                if i < body_lines(prev).len() {
                    assert(body_lines(ms)[i] == body_lines(prev)[i]);
                    assert(conversation_messages(ms)[i] == conversation_messages(prev)[i]);
                }
            }
        }
    }
}

/// Appending a conversation message to a chat appends one line to its
/// prompt: a newline when the chat already had conversation lines, then the
/// role prefix and the message's text unchanged; nothing before it moves.
pub proof fn lemma_flatten_append_message(ms: Seq<ChatMessageV>, m: ChatMessageV)
    requires
        !is_system_role(m.role),
    ensures
        flatten_spec(ms.push(m)) == flatten_spec(ms) + (if conversation_messages(ms).len() > 0 {
            seq!['\n']
        } else {
            Seq::empty()
        }) + (if m.role == "assistant"@ {
            "[assistant]: "@
        } else {
            "[user]: "@
        }) + content_text(m.content),
{
    lemma_conversation_lines(ms);
    let ms2 = ms.push(m);
    assert(ms2.drop_last() =~= ms);
    assert(ms2.last() == m);
    let lines = body_lines(ms);
    assert(body_lines(ms2) == lines.push(body_line(m)));
    assert(system_text(ms2) == system_text(ms));
    assert(lines.push(body_line(m)).drop_last() =~= lines);
    let out = system_text(ms);
    let head = if out.len() == 0 {
        out
    } else {
        out.push('\n')
    };
    if lines.len() == 0 {
        assert(join_lines(lines.push(body_line(m))) == body_line(m));
        assert(head + join_lines(lines) =~= head);
        assert(head + body_line(m) =~= head + Seq::<char>::empty() + body_line(m));
    } else {
        assert(join_lines(lines.push(body_line(m))) == join_lines(lines).push('\n') + body_line(m));
        assert(head + (join_lines(lines).push('\n') + body_line(m)) =~= (head + join_lines(lines))
            + seq!['\n'] + body_line(m));
    }
    if m.role == "assistant"@ {
        assert((flatten_spec(ms) + (if lines.len() > 0 {
            seq!['\n']
        } else {
            Seq::empty()
        })) + ("[assistant]: "@ + content_text(m.content)) =~= flatten_spec(ms) + (if lines.len()
            > 0 {
            seq!['\n']
        } else {
            Seq::empty()
        }) + "[assistant]: "@ + content_text(m.content));
    } else {
        assert((flatten_spec(ms) + (if lines.len() > 0 {
            seq!['\n']
        } else {
            Seq::empty()
        })) + ("[user]: "@ + content_text(m.content)) =~= flatten_spec(ms) + (if lines.len() > 0 {
            seq!['\n']
        } else {
            Seq::empty()
        }) + "[user]: "@ + content_text(m.content));
    }
}

/// Map ACP stop reasons to OpenAI finish_reason: `max_tokens` is a length
/// cut-off; every other reason (end of turn, agent-loop limits, refusals,
/// cancellation) has no better OpenAI equivalent than `stop`.
pub fn finish_reason(stop_reason: &str) -> (r: &'static str)
    ensures
        r@ == (if stop_reason@ == "max_tokens"@ {
            "length"@
        } else {
            "stop"@
        }),
{
    if str_eq(stop_reason, "max_tokens") {
        "length"
    } else {
        "stop"
    }
}

/// The usage numbers reported when the agent gave none: all zero.
pub open spec fn zero_usage() -> Usage {
    Usage { total_tokens: 0, input_tokens: 0, output_tokens: 0, thought_tokens: 0, cached_read_tokens: 0 }
}

/// OpenAI `usage` object for the agent's numbers.
pub open spec fn usage_value(u: Usage) -> JsonV {
    JsonV::Object(
        seq![
            ("prompt_tokens"@, JsonV::Number(u.input_tokens as int)),
            ("completion_tokens"@, JsonV::Number(u.output_tokens as int)),
            ("total_tokens"@, JsonV::Number(u.total_tokens as int)),
            ("prompt_tokens_details"@, JsonV::Object(
                seq![
                    ("cached_tokens"@, JsonV::Number(u.cached_read_tokens as int)),
                    ("reasoning_tokens"@, JsonV::Number(u.thought_tokens as int)),
                ],
            )),
            ("completion_tokens_details"@, JsonV::Object(
                seq![("reasoning_tokens"@, JsonV::Number(u.thought_tokens as int))],
            )),
        ],
    )
}

/// The usage an optional report stands for.
pub open spec fn usage_or_zero(usage: Option<Usage>) -> Usage {
    match usage {
        Some(u) => u,
        None => zero_usage(),
    }
}

/// OpenAI `usage` object. Without agent numbers we report the shape with
/// zeros — a missing/null `usage` makes streaming clients show a bogus
/// context figure instead of an honest value.
pub fn usage_json(usage: Option<&Usage>) -> (r: Json)
    ensures
        r@ == usage_value(usage_or_zero(match usage {
            Some(u) => Some(*u),
            None => None,
        })),
{
    let u = match usage {
        Some(u) => *u,
        None => Usage::default(),
    };
    let mut details: Vec<(String, Json)> = Vec::new();
    push_member(&mut details, "cached_tokens", number(u.cached_read_tokens));
    push_member(&mut details, "reasoning_tokens", number(u.thought_tokens));
    assert(Json::members(details@) =~= seq![
        ("cached_tokens"@, JsonV::Number(u.cached_read_tokens as int)),
        ("reasoning_tokens"@, JsonV::Number(u.thought_tokens as int)),
    ]);
    let mut completion_details: Vec<(String, Json)> = Vec::new();
    push_member(&mut completion_details, "reasoning_tokens", number(u.thought_tokens));
    assert(Json::members(completion_details@) =~= seq![
        ("reasoning_tokens"@, JsonV::Number(u.thought_tokens as int)),
    ]);
    let mut m: Vec<(String, Json)> = Vec::new();
    push_member(&mut m, "prompt_tokens", number(u.input_tokens));
    push_member(&mut m, "completion_tokens", number(u.output_tokens));
    push_member(&mut m, "total_tokens", number(u.total_tokens));
    push_member(&mut m, "prompt_tokens_details", object(details));
    push_member(&mut m, "completion_tokens_details", object(completion_details));
    assert(Json::members(m@) =~= match usage_value(u) { JsonV::Object(f) => f, _ => Seq::empty() });
    let r = object(m);
    r
}

/// The choice list of a non-streamed completion: one assistant message.
pub open spec fn completion_choices(text: Seq<char>, finish: Seq<char>) -> JsonV {
    JsonV::Array(
        seq![
            JsonV::Object(
                seq![
                    ("index"@, JsonV::Number(0)),
                    ("message"@, JsonV::Object(
                        seq![
                            ("role"@, JsonV::Str("assistant"@)),
                            ("content"@, JsonV::Str(text)),
                            ("reasoning_content"@, JsonV::Null),
                        ],
                    )),
                    ("finish_reason"@, JsonV::Str(finish)),
                ],
            ),
        ],
    )
}

/// A complete `chat.completion` body.
pub open spec fn chat_response_value(
    id: Seq<char>,
    created: u64,
    text: Seq<char>,
    finish: Seq<char>,
    usage: Option<Usage>,
) -> JsonV {
    JsonV::Object(
        seq![
            ("id"@, JsonV::Str(id)),
            ("object"@, JsonV::Str("chat.completion"@)),
            ("created"@, JsonV::Number(created as int)),
            ("model"@, JsonV::Str(MODEL_NAME@)),
            ("choices"@, completion_choices(text, finish)),
            ("usage"@, usage_value(usage_or_zero(usage))),
        ],
    )
}

/// The non-streamed completion body for one finished turn; `created` is the
/// Unix time in seconds.
pub fn chat_response(id: &str, created: u64, text: &str, finish: &str, usage: Option<&Usage>) -> (r:
    Json)
    ensures
        r@ == chat_response_value(
            id@,
            created,
            text@,
            finish@,
            match usage {
                Some(u) => Some(*u),
                None => None,
            },
        ),
{
    let mut message: Vec<(String, Json)> = Vec::new();
    push_member(&mut message, "role", jstring("assistant"));
    push_member(&mut message, "content", jstring(text));
    push_member(&mut message, "reasoning_content", Json::Null);
    assert(Json::members(message@) =~= seq![
        ("role"@, JsonV::Str("assistant"@)),
        ("content"@, JsonV::Str(text@)),
        ("reasoning_content"@, JsonV::Null),
    ]);
    let mut choice: Vec<(String, Json)> = Vec::new();
    push_member(&mut choice, "index", number(0));
    push_member(&mut choice, "message", object(message));
    push_member(&mut choice, "finish_reason", jstring(finish));
    let c = object(choice);
    assert(Json::members(choice@) =~= match completion_choices(text@, finish@) {
        JsonV::Array(a) => match a[0] { JsonV::Object(f) => f, _ => Seq::empty() },
        _ => Seq::empty(),
    });
    let mut choices: Vec<Json> = Vec::new();
    proof {
        lemma_values_push(choices@, c);
    }
    choices.push(c);
    assert(Json::values(choices@) =~= match completion_choices(text@, finish@) {
        JsonV::Array(a) => a,
        _ => Seq::empty(),
    });
    let mut m: Vec<(String, Json)> = Vec::new();
    push_member(&mut m, "id", jstring(id));
    push_member(&mut m, "object", jstring("chat.completion"));
    push_member(&mut m, "created", number(created));
    push_member(&mut m, "model", jstring(MODEL_NAME));
    push_member(&mut m, "choices", array(choices));
    push_member(&mut m, "usage", usage_json(usage));
    assert(Json::members(m@) =~= match chat_response_value(
        id@,
        created,
        text@,
        finish@,
        match usage {
            Some(u) => Some(*u),
            None => None,
        },
    ) { JsonV::Object(f) => f, _ => Seq::empty() });
    object(m)
}

/// One `chat.completion.chunk` body. `usage` attaches only when given (the
/// final chunk).
pub open spec fn chat_chunk_value(
    id: Seq<char>,
    created: u64,
    delta: JsonV,
    finish: Option<Seq<char>>,
    usage: Option<Usage>,
) -> JsonV {
    let choice = JsonV::Object(
        seq![
            ("index"@, JsonV::Number(0)),
            ("delta"@, delta),
            ("finish_reason"@, match finish {
                Some(f) => JsonV::Str(f),
                None => JsonV::Null,
            }),
        ],
    );
    let base = seq![
        ("id"@, JsonV::Str(id)),
        ("object"@, JsonV::Str("chat.completion.chunk"@)),
        ("created"@, JsonV::Number(created as int)),
        ("model"@, JsonV::Str(MODEL_NAME@)),
        ("choices"@, JsonV::Array(seq![choice])),
    ];
    match usage {
        Some(u) => JsonV::Object(base.push(("usage"@, usage_value(u)))),
        None => JsonV::Object(base),
    }
}

/// One SSE chunk of a streamed chat completion. `usage` attaches only to the
/// final chunk (OpenAI `stream_options.include_usage` shape).
pub fn chat_chunk(
    id: &str,
    created: u64,
    delta: Json,
    finish: Option<&str>,
    usage: Option<&Usage>,
) -> (r: Json)
    ensures
        r@ == chat_chunk_value(
            id@,
            created,
            delta@,
            match finish {
                Some(f) => Some(f@),
                None => None,
            },
            match usage {
                Some(u) => Some(*u),
                None => None,
            },
        ),
{
    let ghost fin = match finish {
        Some(f) => Some(f@),
        None => None,
    };
    let mut choice: Vec<(String, Json)> = Vec::new();
    push_member(&mut choice, "index", number(0));
    push_member(&mut choice, "delta", delta);
    let f = match finish {
        Some(f) => jstring(f),
        None => Json::Null,
    };
    push_member(&mut choice, "finish_reason", f);
    assert(Json::members(choice@) =~= seq![
        ("index"@, JsonV::Number(0)),
        ("delta"@, delta@),
        ("finish_reason"@, match fin {
            Some(f) => JsonV::Str(f),
            None => JsonV::Null,
        }),
    ]);
    let mut choices: Vec<Json> = Vec::new();
    let c = object(choice);
    assert(c@ == JsonV::Object(seq![
        ("index"@, JsonV::Number(0)),
        ("delta"@, delta@),
        ("finish_reason"@, match fin {
            Some(f) => JsonV::Str(f),
            None => JsonV::Null,
        }),
    ]));
    proof {
        lemma_values_push(choices@, c);
    }
    choices.push(c);
    let mut m: Vec<(String, Json)> = Vec::new();
    push_member(&mut m, "id", jstring(id));
    push_member(&mut m, "object", jstring("chat.completion.chunk"));
    push_member(&mut m, "created", number(created));
    push_member(&mut m, "model", jstring(MODEL_NAME));
    assert(Json::values(choices@) =~= seq![c@]);
    push_member(&mut m, "choices", array(choices));
    let ghost base = Json::members(m@);
    assert(base =~= seq![
        ("id"@, JsonV::Str(id@)),
        ("object"@, JsonV::Str("chat.completion.chunk"@)),
        ("created"@, JsonV::Number(created as int)),
        ("model"@, JsonV::Str(MODEL_NAME@)),
        ("choices"@, JsonV::Array(seq![c@])),
    ]);
    match usage {
        Some(u) => {
            push_member(&mut m, "usage", usage_json(Some(u)));
            assert(Json::members(m@) =~= base.push(("usage"@, usage_value(*u))));
            let r = object(m);
            assert(r@ == chat_chunk_value(id@, created, delta@, fin, Some(*u)));
            r
        },
        None => {
            let r = object(m);
            assert(r@ == chat_chunk_value(id@, created, delta@, fin, None));
            r
        },
    }
}

/// An OpenAI-style error body.
pub open spec fn error_value(message: Seq<char>, code: u16) -> JsonV {
    JsonV::Object(
        seq![
            ("error"@, JsonV::Object(
                seq![
                    ("message"@, JsonV::Str(message)),
                    ("type"@, JsonV::Str("gateway_error"@)),
                    ("code"@, JsonV::Number(code as int)),
                ],
            )),
        ],
    )
}

/// An OpenAI-style error body with the given message and HTTP status code.
pub fn error_response(message: &str, code: u16) -> (r: Json)
    ensures
        r@ == error_value(message@, code),
{
    let mut e: Vec<(String, Json)> = Vec::new();
    push_member(&mut e, "message", jstring(message));
    push_member(&mut e, "type", jstring("gateway_error"));
    push_member(&mut e, "code", number(code as u64));
    assert(Json::members(e@) =~= seq![
                    ("message"@, JsonV::Str(message@)),
                    ("type"@, JsonV::Str("gateway_error"@)),
                    ("code"@, JsonV::Number(code as int)),
                ]);
    let o = object(e);
    let mut m: Vec<(String, Json)> = Vec::new();
    push_member(&mut m, "error", o);
    assert(Json::members(m@) =~= seq![("error"@, o@)]);
    object(m)
}

/// The `/v1/models` entry of one model.
pub open spec fn model_entry(id: Seq<char>, created: u64) -> JsonV {
    JsonV::Object(
        seq![
            ("id"@, JsonV::Str(id)),
            ("object"@, JsonV::Str("model"@)),
            ("created"@, JsonV::Number(created as int)),
            ("owned_by"@, JsonV::Str("trae-acp-gateway"@)),
        ],
    )
}

/// The `/v1/models` body: one entry per model, in order.
pub open spec fn models_value(ids: Seq<Seq<char>>, created: u64) -> JsonV {
    JsonV::Object(
        seq![
            ("object"@, JsonV::Str("list"@)),
            ("data"@, JsonV::Array(ids.map_values(|id: Seq<char>| model_entry(id, created)))),
        ],
    )
}

fn model_entry_json(id: &str, created: u64) -> (r: Json)
    ensures
        r@ == model_entry(id@, created),
{
    let mut m: Vec<(String, Json)> = Vec::new();
    push_member(&mut m, "id", jstring(id));
    push_member(&mut m, "object", jstring("model"));
    push_member(&mut m, "created", number(created));
    push_member(&mut m, "owned_by", jstring("trae-acp-gateway"));
    assert(Json::members(m@) =~= match model_entry(id@, created) { JsonV::Object(f) => f, _ => Seq::empty() });
    object(m)
}

/// The `/v1/models` body for the given models; `created` is the Unix time
/// in seconds.
pub fn models_response(models: &[ModelInfo], created: u64) -> (r: Json)
    ensures
        r@ == models_value(models@.map_values(|m: ModelInfo| m.id@), created),
{
    let ghost ids = models@.map_values(|m: ModelInfo| m.id@);
    let ghost want = ids.map_values(|id: Seq<char>| model_entry(id, created));
    let mut data: Vec<Json> = Vec::new();
    let mut i: usize = 0;
    while i < models.len()
        invariant
            i <= models.len(),
            ids == models@.map_values(|m: ModelInfo| m.id@),
            want == ids.map_values(|id: Seq<char>| model_entry(id, created)),
            Json::values(data@) == want.take(i as int),
        decreases models.len() - i,
    {
        let e = model_entry_json(models[i].id.as_str(), created);
        proof {
            lemma_values_push(data@, e);
            assert(want.take(i + 1) =~= want.take(i as int).push(e@));
        }
        data.push(e);
        i += 1;
    }
    assert(want.take(models.len() as int) =~= want);
    let mut m: Vec<(String, Json)> = Vec::new();
    push_member(&mut m, "object", jstring("list"));
    push_member(&mut m, "data", array(data));
    assert(Json::members(m@) =~= match models_value(ids, created) { JsonV::Object(f) => f, _ => Seq::empty() });
    object(m)
}

/// A completion id from the current time in nanoseconds:
/// `chatcmpl-<nanos>`.
pub fn new_completion_id(nanos: u128) -> (r: String)
    ensures
        r@ == "chatcmpl-"@ + crate::text::decimal(nanos as nat),
{
    let mut r = to_string("chatcmpl-");
    push_decimal(&mut r, nanos);
    r
}

} // verus!
