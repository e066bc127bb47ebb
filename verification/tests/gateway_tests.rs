use trae_acp_gateway::acp::TurnOutcome;
use trae_acp_gateway::agent::{ModelInfo, Policy};
use trae_acp_gateway::desktop::{
    is_running, start_step, stop_found_server, toggle_step, tray_status_text, tray_toggle_text,
    watch_step, AppConfig, StartStep, ToggleStep, WatchStep,
};
use trae_acp_gateway::http::{buffered_body, chat_prompt, models_body, stream_events, turn_policy, SseEvent};
use trae_acp_gateway::json::Json;
use trae_acp_gateway::logs::{LogBuffer, LOG_CAP};
use trae_acp_gateway::openai::{ChatMessage, ChatRequest};

fn outcome(text: &str, stop: &str) -> TurnOutcome {
    TurnOutcome { text: text.to_string(), stop_reason: stop.to_string(), usage: None }
}

fn text(j: Option<&Json>) -> String {
    j.and_then(|v| v.as_str()).expect("expected a string").clone()
}

#[test]
fn empty_chat_is_bad_request() {
    let req = ChatRequest { messages: vec![], stream: false };
    match chat_prompt(&req) {
        Err(body) => assert_eq!(text(body.get("error").and_then(|e| e.get("message"))), "messages must not be empty"),
        Ok(_) => panic!("expected an error"),
    }
    let req = ChatRequest {
        messages: vec![ChatMessage { role: "user".to_string(), content: Json::Str("q".to_string()) }],
        stream: true,
    };
    assert_eq!(chat_prompt(&req).ok().unwrap(), "[user]: q");
}

#[test]
fn stream_of_finished_turn() {
    let events = stream_events("c1", 7, Ok(outcome("hello", "max_tokens")));
    assert_eq!(events.len(), 4);
    let delta = |e: &SseEvent| match e {
        SseEvent::Data(j) => match j.get("choices") {
            Some(Json::Array(c)) => c[0].get("delta").unwrap().get("content").and_then(|x| x.as_str()).cloned(),
            _ => panic!("expected choices"),
        },
        _ => panic!("expected data"),
    };
    assert_eq!(delta(&events[0]).unwrap(), "");
    assert_eq!(delta(&events[1]).unwrap(), "hello");
    match &events[2] {
        SseEvent::Data(j) => match j.get("choices") {
            Some(Json::Array(c)) => assert_eq!(text(c[0].get("finish_reason")), "length"),
            _ => panic!("expected choices"),
        },
        _ => panic!("expected data"),
    }
    assert!(matches!(events[3], SseEvent::Done));
}

#[test]
fn stream_of_failed_turn() {
    let events = stream_events("c1", 7, Err("agent died".to_string()));
    assert_eq!(events.len(), 1);
    match &events[0] {
        SseEvent::Error(j) => assert_eq!(text(j.get("error").and_then(|e| e.get("message"))), "agent died"),
        _ => panic!("expected an error event"),
    }
}

#[test]
fn buffered_bodies() {
    let ok = buffered_body("c", 1, Ok(outcome("t", "end_turn"))).ok().unwrap();
    assert_eq!(text(ok.get("id")), "c");
    match buffered_body("c", 1, Err("x".to_string())) {
        Err(e) => assert!(matches!(e.get("error").and_then(|i| i.get("code")), Some(Json::Number(500)))),
        Ok(_) => panic!("expected an error"),
    }
}

#[test]
fn models_fallback_and_failure() {
    let placeholder = models_body(Ok(vec![]), 1).ok().unwrap();
    match placeholder.get("data") {
        Some(Json::Array(d)) => {
            assert_eq!(d.len(), 1);
            assert_eq!(text(d[0].get("id")), "trae");
        }
        _ => panic!("expected data"),
    }
    let listed = models_body(Ok(vec![ModelInfo { id: "glm".to_string(), name: "GLM".to_string() }]), 1).ok().unwrap();
    match listed.get("data") {
        Some(Json::Array(d)) => assert_eq!(text(d[0].get("id")), "glm"),
        _ => panic!("expected data"),
    }
    match models_body(Err("spawn failed".to_string()), 1) {
        Err(e) => assert_eq!(text(e.get("error").and_then(|i| i.get("message"))), "model discovery failed: spawn failed"),
        Ok(_) => panic!("expected an error"),
    }
}

#[test]
fn sandbox_flag_selects_policy() {
    assert!(matches!(turn_policy(true), Policy::Sandbox));
    assert!(matches!(turn_policy(false), Policy::ApproveAll));
}

#[test]
fn log_keeps_complete_trimmed_lines() {
    let mut log = LogBuffer::new();
    log.push(b"first line  \nsec");
    assert_eq!(log.snapshot(), vec!["first line".to_string()]);
    log.push(b"ond\n\n   \nthird\r\n");
    assert_eq!(log.snapshot(), vec!["first line".to_string(), "second".to_string(), "third".to_string()]);
}

#[test]
fn log_drops_oldest_beyond_cap() {
    let mut log = LogBuffer::new();
    for i in 0..(LOG_CAP + 3) {
        log.push_text(&format!("line {i}\n"));
    }
    let lines = log.snapshot();
    assert_eq!(lines.len(), LOG_CAP);
    assert_eq!(lines[0], "line 3");
    assert_eq!(lines[LOG_CAP - 1], format!("line {}", LOG_CAP + 2));
}

#[test]
fn log_replaces_invalid_utf8() {
    let mut log = LogBuffer::new();
    log.push(&[b'a', 0xff, b'\n']);
    assert_eq!(log.snapshot(), vec!["a\u{FFFD}".to_string()]);
}

#[test]
fn app_defaults_and_gateway_config() {
    let mut cfg = AppConfig::defaults(Some("/home/u"), false);
    assert_eq!(cfg.port, 60111);
    assert_eq!(cfg.workdir, "/home/u/trae-acp-gateway");
    assert_eq!(cfg.trae_args, vec!["acp".to_string(), "serve".to_string()]);
    assert!(cfg.sandbox && !cfg.debug && !cfg.autostart && !cfg.auto_check_update);
    cfg.workdir = " . ".to_string();
    cfg.normalize_workdir(Some("/h"), false);
    assert_eq!(cfg.workdir, "/h/trae-acp-gateway");
    cfg.workdir = "/data".to_string();
    cfg.normalize_workdir(Some("/h"), false);
    assert_eq!(cfg.workdir, "/data");
    let g = cfg.to_gateway();
    assert_eq!(g.workdir, "/data");
    assert_eq!(g.trae_cmd, "traecli");
    assert!(!g.auto_check_update && !g.no_auto_check_update);
}

#[test]
fn tray_labels() {
    assert_eq!(tray_status_text(true, 60111), "Gateway: Running :60111");
    assert_eq!(tray_status_text(false, 60111), "Gateway: Stopped");
    assert_eq!(tray_toggle_text(true), "Stop Gateway");
    assert_eq!(tray_toggle_text(false), "Start Gateway");
}

#[test]
fn log_chunking_does_not_matter() {
    let mut once = LogBuffer::new();
    once.push_text("alpha\nbeta \ngam");
    let mut pieces = LogBuffer::new();
    pieces.push_text("al");
    pieces.push_text("pha\nbe");
    pieces.push_text("ta \ngam");
    assert_eq!(once.snapshot(), pieces.snapshot());
    assert_eq!(once.snapshot(), vec!["alpha".to_string(), "beta".to_string()]);
}

#[test]
fn normalizing_twice_is_normalizing_once() {
    let mut cfg = AppConfig::defaults(None, false);
    cfg.workdir = "~".to_string();
    cfg.normalize_workdir(None, false);
    let once = cfg.workdir.clone();
    cfg.normalize_workdir(None, false);
    assert_eq!(cfg.workdir, once);
    assert_eq!(once, ".");
}

#[test]
fn supervision_stops_on_request_first() {
    assert!(matches!(watch_step(true, Some(true)), WatchStep::Stop));
    assert!(matches!(watch_step(true, Some(false)), WatchStep::Stop));
    assert!(matches!(watch_step(true, None), WatchStep::Stop));
    assert!(matches!(watch_step(false, Some(true)), WatchStep::Crashed));
    assert!(matches!(watch_step(false, Some(false)), WatchStep::Continue));
    assert!(matches!(watch_step(false, None), WatchStep::Continue));
}

#[test]
fn start_stop_and_toggle_decisions() {
    assert!(is_running(Some(false)));
    assert!(!is_running(Some(true)));
    assert!(!is_running(None));
    assert!(matches!(start_step(Some(false)), StartStep::AlreadyRunning));
    assert!(matches!(start_step(Some(true)), StartStep::Launch));
    assert!(matches!(start_step(None), StartStep::Launch));
    assert!(matches!(toggle_step(Some(false)), ToggleStep::Stop));
    assert!(matches!(toggle_step(Some(true)), ToggleStep::Start));
    assert!(matches!(toggle_step(None), ToggleStep::Start));
    assert!(stop_found_server(Some(false)));
    assert!(stop_found_server(Some(true)));
    assert!(!stop_found_server(None));
}

#[test]
fn log_window_keeps_last_lines_and_pending_tail() {
    let mut log = LogBuffer::new();
    for i in 0..(LOG_CAP - 1) {
        log.push_text(&format!("old {i}\n"));
    }
    log.push_text("tail");
    log.push_text(" a \n\n b\nc\t\nrest");
    let lines = log.snapshot();
    assert_eq!(lines.len(), LOG_CAP);
    assert_eq!(lines[0], "old 2");
    assert_eq!(lines[LOG_CAP - 3], "tail a");
    assert_eq!(lines[LOG_CAP - 2], " b");
    assert_eq!(lines[LOG_CAP - 1], "c");
    log.push_text("\n");
    let lines = log.snapshot();
    assert_eq!(lines[0], "old 3");
    assert_eq!(lines[LOG_CAP - 1], "rest");
}
