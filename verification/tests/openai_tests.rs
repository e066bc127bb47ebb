use trae_acp_gateway::acp::Usage;
use trae_acp_gateway::agent::ModelInfo;
use trae_acp_gateway::json::Json;
use trae_acp_gateway::openai::{
    chat_chunk, chat_response, error_response, finish_reason, flatten_messages, models_response,
    new_completion_id, usage_json, ChatMessage,
};

fn s(text: &str) -> Json {
    Json::Str(text.to_string())
}

fn obj(members: Vec<(&str, Json)>) -> Json {
    Json::Object(members.into_iter().map(|(k, v)| (k.to_string(), v)).collect())
}

fn msg(role: &str, content: Json) -> ChatMessage {
    ChatMessage { role: role.to_string(), content }
}

fn num(j: Option<&Json>) -> i128 {
    match j {
        Some(Json::Number(n)) => *n,
        _ => panic!("expected a number"),
    }
}

fn text(j: Option<&Json>) -> String {
    j.and_then(|v| v.as_str()).expect("expected a string").clone()
}

#[test]
fn flatten_puts_system_first() {
    let messages = vec![
        msg("user", s("hi")),
        msg("system", s("be brief")),
        msg("assistant", s("hello")),
        msg("developer", s("no tools")),
        msg("tool", s("ignored role")),
    ];
    assert_eq!(
        flatten_messages(&messages),
        "be brief\nno tools\n[user]: hi\n[assistant]: hello\n[user]: ignored role"
    );
}

#[test]
fn flatten_without_system_or_body() {
    assert_eq!(flatten_messages(&[msg("user", s("q"))]), "[user]: q");
    assert_eq!(flatten_messages(&[msg("system", s("only"))]), "only\n");
    assert_eq!(flatten_messages(&[]), "");
    // An empty system text does not start a new line.
    assert_eq!(flatten_messages(&[msg("system", s("")), msg("system", s("b"))]), "b\n");
}

#[test]
fn message_text_from_parts() {
    let parts = Json::Array(vec![
        obj(vec![("type", s("text")), ("text", s("a"))]),
        obj(vec![("type", s("image_url")), ("text", s("skip"))]),
        obj(vec![("type", s("text")), ("text", Json::Number(1))]),
        obj(vec![("type", s("text")), ("text", s("b"))]),
    ]);
    assert_eq!(msg("user", parts).text(), "ab");
    assert_eq!(msg("user", Json::Null).text(), "");
}

#[test]
fn finish_reason_mapping() {
    assert_eq!(finish_reason("end_turn"), "stop");
    assert_eq!(finish_reason("max_tokens"), "length");
    assert_eq!(finish_reason("max_turn_requests"), "stop");
    assert_eq!(finish_reason("refusal"), "stop");
    assert_eq!(finish_reason("cancelled"), "stop");
    assert_eq!(finish_reason("whatever"), "stop");
}

#[test]
fn usage_json_maps_fields() {
    let u = Usage { total_tokens: 21330, input_tokens: 21311, output_tokens: 19, thought_tokens: 16, cached_read_tokens: 7 };
    let j = usage_json(Some(&u));
    assert_eq!(num(j.get("prompt_tokens")), 21311);
    assert_eq!(num(j.get("completion_tokens")), 19);
    assert_eq!(num(j.get("total_tokens")), 21330);
    assert_eq!(num(j.get("prompt_tokens_details").and_then(|d| d.get("cached_tokens"))), 7);
    assert_eq!(num(j.get("prompt_tokens_details").and_then(|d| d.get("reasoning_tokens"))), 16);
    assert_eq!(num(j.get("completion_tokens_details").and_then(|d| d.get("reasoning_tokens"))), 16);
}

#[test]
fn usage_json_without_numbers_is_zero() {
    let j = usage_json(None);
    assert_eq!(num(j.get("prompt_tokens")), 0);
    assert_eq!(num(j.get("total_tokens")), 0);
}

#[test]
fn chat_response_shape() {
    let r = chat_response("chatcmpl-1", 42, "answer", "stop", None);
    assert_eq!(text(r.get("object")), "chat.completion");
    assert_eq!(num(r.get("created")), 42);
    assert_eq!(text(r.get("model")), "trae");
    let choice = match r.get("choices") {
        Some(Json::Array(c)) => &c[0],
        _ => panic!("expected choices"),
    };
    assert_eq!(text(choice.get("message").and_then(|m| m.get("content"))), "answer");
    assert!(matches!(choice.get("message").and_then(|m| m.get("reasoning_content")), Some(Json::Null)));
    assert_eq!(text(choice.get("finish_reason")), "stop");
    assert_eq!(num(r.get("usage").and_then(|u| u.get("completion_tokens"))), 0);
}

#[test]
fn chat_chunk_usage_only_when_given() {
    let c = chat_chunk("id", 1, obj(vec![]), None, None);
    assert!(c.get("usage").is_none());
    let choice = match c.get("choices") {
        Some(Json::Array(ch)) => &ch[0],
        _ => panic!("expected choices"),
    };
    assert!(matches!(choice.get("finish_reason"), Some(Json::Null)));
    let u = Usage { total_tokens: 5, input_tokens: 3, output_tokens: 2, thought_tokens: 0, cached_read_tokens: 0 };
    let last = chat_chunk("id", 1, obj(vec![]), Some("length"), Some(&u));
    assert_eq!(num(last.get("usage").and_then(|x| x.get("total_tokens"))), 5);
    assert_eq!(text(last.get("object")), "chat.completion.chunk");
}

#[test]
fn error_response_shape() {
    let e = error_response("bad", 400);
    let inner = e.get("error").unwrap();
    assert_eq!(text(inner.get("message")), "bad");
    assert_eq!(text(inner.get("type")), "gateway_error");
    assert_eq!(num(inner.get("code")), 400);
}

#[test]
fn models_response_lists_ids() {
    let models = vec![
        ModelInfo { id: "m1".to_string(), name: "M1".to_string() },
        ModelInfo { id: "m2".to_string(), name: "M2".to_string() },
    ];
    let r = models_response(&models, 9);
    assert_eq!(text(r.get("object")), "list");
    match r.get("data") {
        Some(Json::Array(d)) => {
            assert_eq!(d.len(), 2);
            assert_eq!(text(d[1].get("id")), "m2");
            assert_eq!(text(d[0].get("owned_by")), "trae-acp-gateway");
            assert_eq!(num(d[0].get("created")), 9);
        }
        _ => panic!("expected data"),
    }
}

#[test]
fn completion_id_from_nanos() {
    assert_eq!(new_completion_id(0), "chatcmpl-0");
    assert_eq!(new_completion_id(1731234567890123456), "chatcmpl-1731234567890123456");
}
