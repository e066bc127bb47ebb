use trae_acp_gateway::acp::{Content, Error, Id, Inbound, PromptResponse, Update, Usage};
use trae_acp_gateway::agent::{
    classify, extract_models, handle_live, initialize_params, prompt_params, reply, session_info,
    session_new_params, Connection, Event, Policy, Pumped, RequestStep, RpcFailure, TurnEvent,
    TurnStep,
};
use trae_acp_gateway::json::Json;

fn s(text: &str) -> Json {
    Json::Str(text.to_string())
}

fn obj(members: Vec<(&str, Json)>) -> Json {
    Json::Object(members.into_iter().map(|(k, v)| (k.to_string(), v)).collect())
}

fn option(id: &str, name: &str, kind: &str) -> Json {
    obj(vec![("optionId", s(id)), ("name", s(name)), ("kind", s(kind))])
}

fn perm_request(options: Json) -> Json {
    obj(vec![
        ("sessionId", s("s1")),
        ("toolCall", obj(vec![("toolCallId", s("call_1"))])),
        ("options", options),
    ])
}

fn outcome_option_id(answer: &Json) -> String {
    answer
        .get("outcome")
        .and_then(|o| o.get("optionId"))
        .and_then(|v| v.as_str())
        .expect("selected outcome with optionId")
        .clone()
}

fn code_of(answer: &Json) -> Option<i128> {
    match answer.get("code") {
        Some(Json::Number(n)) => Some(*n),
        _ => None,
    }
}

#[test]
fn sandbox_policy_rejects_even_when_reject_listed_last() {
    let params = perm_request(Json::Array(vec![
        option("approved", "Yes, proceed", "allow_once"),
        option("approved-amendment", "Yes, always", "allow_always"),
        option("abort", "No", "reject_once"),
    ]));
    let answer = Policy::Sandbox.answer("session/request_permission", &params);
    assert_eq!(outcome_option_id(&answer), "abort");
}

#[test]
fn approve_all_policy_still_picks_allow_over_first_listed() {
    let params = perm_request(Json::Array(vec![
        option("reject-once", "Reject", "reject_once"),
        option("allow-once", "Allow once", "allow_once"),
    ]));
    let answer = Policy::ApproveAll.answer("session/request_permission", &params);
    assert_eq!(outcome_option_id(&answer), "allow-once");
}

#[test]
fn sandbox_policy_without_reject_option_falls_back_to_first_listed() {
    let params = perm_request(Json::Array(vec![
        option("approved", "Yes, proceed", "allow_once"),
        option("approved-always", "Yes, always", "allow_always"),
    ]));
    let answer = Policy::Sandbox.answer("session/request_permission", &params);
    assert_eq!(outcome_option_id(&answer), "approved");
}

#[test]
fn no_options_yields_invalid_params_error() {
    let answer = Policy::ApproveAll.answer("session/request_permission", &obj(vec![]));
    assert_eq!(code_of(&answer), Some(-32602));
}

#[test]
fn unknown_agent_request_is_rejected_with_method_not_found() {
    let answer = Policy::Sandbox.answer("fs/read_text_file", &obj(vec![("path", s("/etc/passwd"))]));
    assert_eq!(code_of(&answer), Some(-32601));
    let message = answer.get("message").and_then(|m| m.as_str()).unwrap().clone();
    assert_eq!(message, "gateway does not support `fs/read_text_file`");
}

#[test]
fn extracts_model_category_select_options() {
    let result = obj(vec![
        ("sessionId", s("s1")),
        (
            "configOptions",
            Json::Array(vec![
                obj(vec![
                    ("id", s("mode")),
                    ("name", s("Session Mode")),
                    ("category", s("mode")),
                    ("type", s("select")),
                    ("currentValue", s("ask")),
                    ("options", Json::Array(vec![obj(vec![("value", s("ask")), ("name", s("Ask"))])])),
                ]),
                obj(vec![
                    ("id", s("model")),
                    ("name", s("Model")),
                    ("category", s("model")),
                    ("type", s("select")),
                    ("currentValue", s("glm-4.6")),
                    (
                        "options",
                        Json::Array(vec![
                            obj(vec![("value", s("glm-4.6")), ("name", s("GLM-4.6"))]),
                            obj(vec![
                                ("value", s("glm-4.5-air")),
                                ("name", s("GLM-4.5-Air")),
                                ("description", s("cheaper")),
                            ]),
                        ]),
                    ),
                ]),
            ]),
        ),
    ]);
    let models = extract_models(&result);
    assert_eq!(models.len(), 2);
    assert_eq!(models[0].id, "glm-4.6");
    assert_eq!(models[0].name, "GLM-4.6");
    assert_eq!(models[1].id, "glm-4.5-air");
    assert_eq!(models[1].name, "GLM-4.5-Air");
}

#[test]
fn ignores_non_model_and_non_select_options() {
    let result = obj(vec![
        ("sessionId", s("s1")),
        (
            "configOptions",
            Json::Array(vec![
                obj(vec![
                    ("id", s("model")),
                    ("name", s("Model")),
                    ("category", s("model")),
                    ("type", s("boolean")),
                    ("currentValue", Json::Bool(true)),
                ]),
                obj(vec![
                    ("id", s("mode")),
                    ("name", s("Mode")),
                    ("type", s("select")),
                    ("currentValue", s("ask")),
                    ("options", Json::Array(vec![obj(vec![("value", s("ask")), ("name", s("Ask"))])])),
                ]),
            ]),
        ),
    ]);
    assert!(extract_models(&result).is_empty());
}

#[test]
fn missing_config_options_yields_empty() {
    assert!(extract_models(&obj(vec![("sessionId", s("s1"))])).is_empty());
    assert!(extract_models(&obj(vec![("sessionId", s("s1")), ("configOptions", Json::Null)])).is_empty());
}

#[test]
fn model_name_defaults_to_value() {
    let result = obj(vec![(
        "configOptions",
        Json::Array(vec![obj(vec![
            ("category", s("model")),
            ("type", s("select")),
            ("options", Json::Array(vec![obj(vec![("value", s("m1"))]), obj(vec![("name", s("no value"))])])),
        ])]),
    )]);
    let models = extract_models(&result);
    assert_eq!(models.len(), 1);
    assert_eq!(models[0].id, "m1");
    assert_eq!(models[0].name, "m1");
}

#[test]
fn option_without_id_is_invalid_params() {
    let params = perm_request(Json::Array(vec![obj(vec![("kind", s("allow_once"))])]));
    let answer = Policy::ApproveAll.answer("session/request_permission", &params);
    assert_eq!(code_of(&answer), Some(-32602));
}

#[test]
fn session_info_reads_id_and_models() {
    let info = session_info(&obj(vec![("sessionId", s("abc"))])).ok().unwrap();
    assert_eq!(info.session_id, "abc");
    assert!(info.models.is_empty());
    assert!(session_info(&obj(vec![("sessionId", Json::Number(3))])).is_err());
}

fn text_update(message: bool, kind: &str, text: &str) -> Update {
    let content = Content { content_type: kind.to_string(), text: text.to_string() };
    if message {
        Update::AgentMessageChunk { content }
    } else {
        Update::AgentThoughtChunk { content }
    }
}

#[test]
fn handle_live_collects_only_message_text() {
    let mut text = String::from("a");
    match handle_live(text_update(true, "text", "b"), &mut text) {
        Some(TurnEvent::Message(m)) => assert_eq!(m, "b"),
        _ => panic!("expected a message event"),
    }
    match handle_live(text_update(false, "text", "think"), &mut text) {
        Some(TurnEvent::Thought(m)) => assert_eq!(m, "think"),
        _ => panic!("expected a thought event"),
    }
    assert!(handle_live(text_update(true, "image", "x"), &mut text).is_none());
    assert!(handle_live(Update::Other, &mut text).is_none());
    assert_eq!(text, "ab");
}

#[test]
fn request_ids_count_up_from_zero() {
    let mut conn = Connection::new();
    let (id0, frame0) = conn.send_request("initialize", Json::Null);
    let (id1, _) = conn.send_request("session/new", Json::Null);
    assert!(matches!(id0, Id::Num(0)));
    assert!(matches!(id1, Id::Num(1)));
    assert!(id0 != id1);
    assert!(matches!(frame0.get("id"), Some(Json::Number(0))));
    assert_eq!(frame0.get("method").and_then(|m| m.as_str()).unwrap(), "initialize");
    assert_eq!(frame0.get("jsonrpc").and_then(|m| m.as_str()).unwrap(), "2.0");
}

#[test]
fn queued_updates_lead_the_next_turn() {
    let mut conn = Connection::new();
    let (id, _) = conn.send_request("session/new", Json::Null);
    match conn.on_request_event(&id, Event::Update(text_update(true, "text", "early "))) {
        RequestStep::Continue => {}
        _ => panic!("expected to keep waiting"),
    }
    match conn.on_request_event(&id, Event::Response(Id::Num(0), Ok(Json::Null))) {
        RequestStep::Answered(Json::Null) => {}
        _ => panic!("expected the answer"),
    }
    let (prompt_id, _) = conn.send_request("session/prompt", Json::Null);
    let (mut turn, events) = conn.begin_turn(prompt_id);
    assert_eq!(events.len(), 1);
    assert!(conn.queued_updates.is_empty());
    match turn.on_event(&Policy::ApproveAll, Event::Update(text_update(true, "text", "late"))) {
        TurnStep::Emit(TurnEvent::Message(m)) => assert_eq!(m, "late"),
        _ => panic!("expected a message"),
    }
    match turn.on_event(&Policy::ApproveAll, Event::Response(Id::Num(1), Ok(Json::Null))) {
        TurnStep::Finished(_) => {}
        _ => panic!("expected the end of the turn"),
    }
    let outcome = turn.finish(Some(PromptResponse { stop_reason: "end_turn".to_string(), usage: None }));
    assert_eq!(outcome.text, "early late");
    assert_eq!(outcome.stop_reason, "end_turn");
}

#[test]
fn mismatched_response_id_fails() {
    let mut conn = Connection::new();
    let (id, _) = conn.send_request("initialize", Json::Null);
    match conn.on_request_event(&id, Event::Response(Id::Num(7), Ok(Json::Null))) {
        RequestStep::Failed(RpcFailure::IdMismatch { got: Id::Num(7), want: Id::Num(0) }) => {}
        _ => panic!("expected an id mismatch"),
    }
    let (mut turn, _) = conn.begin_turn(Id::Num(3));
    match turn.on_event(&Policy::Sandbox, Event::Response(Id::Num(3), Err(Error { code: -1, message: "boom".to_string() }))) {
        TurnStep::Failed(RpcFailure::AgentError { code: -1, message }) => assert_eq!(message, "boom"),
        _ => panic!("expected an agent error"),
    }
}

#[test]
fn agent_requests_are_answered_by_policy() {
    let mut conn = Connection::new();
    let params = perm_request(Json::Array(vec![
        option("ok", "Allow", "allow_once"),
        option("no", "Reject", "reject_once"),
    ]));
    let (mut turn, _) = conn.begin_turn(Id::Num(0));
    match turn.on_event(&Policy::Sandbox, Event::AgentRequest(Id::Str("r1".to_string()), "session/request_permission".to_string(), params)) {
        TurnStep::Reply(frame) => {
            assert_eq!(frame.get("id").and_then(|i| i.as_str()).unwrap(), "r1");
            assert_eq!(outcome_option_id(frame.get("result").unwrap()), "no");
        }
        _ => panic!("expected a reply"),
    }
}

#[test]
fn unreadable_prompt_response_stops_as_unknown() {
    let mut conn = Connection::new();
    let (turn, _) = conn.begin_turn(Id::Num(0));
    let outcome = turn.finish(None);
    assert_eq!(outcome.stop_reason, "unknown");
    assert!(outcome.usage.is_none());
    let (turn, _) = conn.begin_turn(Id::Num(1));
    let usage = Usage { total_tokens: 3, input_tokens: 2, output_tokens: 1, thought_tokens: 0, cached_read_tokens: 0 };
    let outcome = turn.finish(Some(PromptResponse { stop_reason: "max_tokens".to_string(), usage: Some(usage) }));
    assert_eq!(outcome.usage.unwrap().total_tokens, 3);
}

#[test]
fn classify_routes_messages() {
    match classify(Inbound::Response { id: Id::Num(1), result: None, error: None }) {
        Pumped::Deliver(Event::Response(Id::Num(1), Ok(Json::Null))) => {}
        _ => panic!("expected a null result"),
    }
    match classify(Inbound::Response { id: Id::Num(1), result: None, error: Some(Error { code: 5, message: "x".to_string() }) }) {
        Pumped::Deliver(Event::Response(_, Err(e))) => assert_eq!(e.code, 5),
        _ => panic!("expected an error"),
    }
    match classify(Inbound::Notification { method: "session/update".to_string(), params: obj(vec![("update", s("u"))]) }) {
        Pumped::SessionUpdate(Json::Str(u)) => assert_eq!(u, "u"),
        _ => panic!("expected the update payload"),
    }
    assert!(matches!(
        classify(Inbound::Notification { method: "other".to_string(), params: Json::Null }),
        Pumped::Skip
    ));
}

#[test]
fn frames_have_the_protocol_shape() {
    let init = initialize_params("1.2.3");
    assert!(matches!(init.get("protocolVersion"), Some(Json::Number(1))));
    assert_eq!(
        init.get("clientInfo").and_then(|c| c.get("version")).and_then(|v| v.as_str()).unwrap(),
        "1.2.3"
    );
    let new = session_new_params("/w");
    assert_eq!(new.get("cwd").and_then(|c| c.as_str()).unwrap(), "/w");
    let p = prompt_params("s1", "hi");
    let block = match p.get("prompt") {
        Some(Json::Array(blocks)) => &blocks[0],
        _ => panic!("expected prompt blocks"),
    };
    assert_eq!(block.get("text").and_then(|t| t.as_str()).unwrap(), "hi");
    let r = reply(&Id::Null, Json::Bool(true));
    assert!(matches!(r.get("id"), Some(Json::Null)));
    assert!(matches!(r.get("result"), Some(Json::Bool(true))));
}
