use std::path::PathBuf;
use zeroclaw::acp_server::{
    extract_prompt_text, finish_prompt, params_as_object, required_non_empty_string, respond,
    AcpServerState,
};
use zeroclaw::cwd::{resolve_cwd, CwdStep};
use zeroclaw::dispatch::Step;
use zeroclaw::json::{Json, JsonObject};
use zeroclaw::json_text::{decode_json, encode_json_line};
use zeroclaw::rpc::{
    parse_json_rpc_request, JsonRpcErrorObject, JSONRPC_INTERNAL_ERROR, JSONRPC_INVALID_PARAMS,
    JSONRPC_INVALID_REQUEST, JSONRPC_SESSION_NOT_FOUND,
};

fn json(text: &str) -> Json {
    decode_json(text).expect("valid JSON")
}

fn object(text: &str) -> JsonObject {
    match json(text) {
        Json::Object(object) => object,
        _ => panic!("object"),
    }
}

fn reply(step: Step) -> String {
    match step {
        Step::Reply { payload } => encode_json_line(payload),
        other => panic!("no reply: {:?}", other),
    }
}

fn request_error(text: &str) -> (i64, String) {
    let error = parse_json_rpc_request(json(text)).expect_err("should fail");
    (error.code, error.message)
}

fn prompt_error(text: &str) -> (i64, String) {
    let error = extract_prompt_text(&object(text)).expect_err("should fail");
    (error.code, error.message)
}

fn opened_id(created: &Json) -> String {
    created
        .get("session_id")
        .and_then(|id| id.as_str())
        .expect("session id must be string")
        .to_string()
}

#[test]
fn parse_json_rpc_request_accepts_notification_without_id() {
    let request = parse_json_rpc_request(json(
        r#"{"jsonrpc": "2.0", "method": "initialize", "params": {}}"#,
    ))
    .expect("valid JSON-RPC notification should parse");
    assert!(request.id.is_none());
    assert_eq!(request.method, "initialize");
}

#[test]
fn parse_json_rpc_request_rejects_invalid_jsonrpc_version() {
    let error = parse_json_rpc_request(json(
        r#"{"jsonrpc": "1.0", "id": 1, "method": "initialize"}"#,
    ))
    .expect_err("invalid JSON-RPC version should fail");
    assert_eq!(error.code, JSONRPC_INVALID_REQUEST);
}

#[test]
fn parse_json_rpc_request_rejects_non_scalar_id() {
    let error = parse_json_rpc_request(json(
        r#"{"jsonrpc": "2.0", "id": {"nested": true}, "method": "initialize"}"#,
    ))
    .expect_err("non scalar id should fail");
    assert_eq!(error.code, JSONRPC_INVALID_REQUEST);
}

#[test]
fn extract_prompt_text_supports_string_and_array_payloads() {
    let string_prompt = extract_prompt_text(&object(r#"{"prompt": "hello"}"#))
        .expect("string prompt should parse");
    assert_eq!(string_prompt, "hello");

    let array_prompt = extract_prompt_text(&object(
        r#"{"prompt": [{"type": "text", "text": "hello"}, {"type": "text", "text": "world"}]}"#,
    ))
    .expect("array prompt should parse");
    assert_eq!(array_prompt, "hello\nworld");
}

#[test]
fn create_and_stop_session_roundtrip() {
    let mut state = AcpServerState::default();
    let path = match resolve_cwd(Some(&json(r#"{"cwd": "/"}"#))) {
        CwdStep::Directory { path } => path,
        other => panic!("session/new should succeed: {:?}", other),
    };
    let created = state.create_session(path);
    assert_eq!(created.get("cwd").and_then(|cwd| cwd.as_str()), Some("/"));
    let session_id = opened_id(&created);
    assert!(state.sessions.contains_key(&session_id));

    let params = json(&format!(r#"{{"session_id": "{}"}}"#, session_id));
    let stopped_once = state
        .stop_session(Some(&params))
        .expect("first stop should succeed");
    assert!(matches!(stopped_once.get("stopped"), Some(Json::Bool(true))));

    let stopped_twice = state
        .stop_session(Some(&params))
        .expect("second stop should still succeed");
    assert!(matches!(stopped_twice.get("stopped"), Some(Json::Bool(false))));
}

#[test]
fn resolve_prompt_request_requires_existing_session() {
    let state = AcpServerState::default();
    let error = state
        .resolve_prompt_request(Some(&json(
            r#"{"session_id": "missing", "prompt": "hello"}"#,
        )))
        .expect_err("missing session should fail");
    assert_eq!(error.code, JSONRPC_SESSION_NOT_FOUND);
    assert_eq!(error.message, "Session not found: missing");
}

#[test]
fn request_errors_name_what_is_wrong() {
    let expected = |message: &str| (JSONRPC_INVALID_REQUEST, message.to_string());
    assert_eq!(request_error("[]"), expected("Request must be a JSON object"));
    assert_eq!(request_error("{}"), expected("Missing jsonrpc version"));
    assert_eq!(
        request_error(r#"{"jsonrpc": 2}"#),
        expected("Missing jsonrpc version")
    );
    assert_eq!(
        request_error(r#"{"jsonrpc": "1.0"}"#),
        expected("Unsupported jsonrpc version: 1.0")
    );
    assert_eq!(
        request_error(r#"{"jsonrpc": "2.0", "id": true}"#),
        expected("id must be a string, number, or null")
    );
    assert_eq!(
        request_error(r#"{"jsonrpc": "2.0", "method": "  "}"#),
        expected("method must be a non-empty string")
    );
    assert_eq!(
        request_error(r#"{"jsonrpc": "2.0", "id": 1}"#),
        expected("method must be a non-empty string")
    );
}

#[test]
fn method_is_trimmed_and_ids_are_kept() {
    for id in ["null", "1.5", "-7", "18446744073709551615", "\"a\""] {
        let text = format!(r#"{{"jsonrpc": "2.0", "id": {}, "method": " m "}}"#, id);
        let request = parse_json_rpc_request(json(&text)).expect("valid request");
        assert_eq!(request.method, "m");
        assert_eq!(
            encode_json_line(request.id.expect("id")),
            format!("{}\n", id)
        );
        assert!(request.params.is_none());
    }
}

#[test]
fn params_must_be_an_object() {
    let error = params_as_object(None).expect_err("missing");
    assert_eq!(error.code, JSONRPC_INVALID_PARAMS);
    assert_eq!(error.message, "Missing params object");
    let error = params_as_object(Some(&json("[]"))).expect_err("array");
    assert_eq!(error.message, "params must be an object");
    assert!(params_as_object(Some(&json("{}"))).is_ok());
}

#[test]
fn required_string_is_kept_as_it_is() {
    let params = object(r#"{"a": " x ", "b": "  ", "c": 1}"#);
    assert_eq!(required_non_empty_string(&params, "a").expect("a"), " x ");
    for key in ["b", "c", "d"] {
        let error = required_non_empty_string(&params, key).expect_err("blank");
        assert_eq!(error.code, JSONRPC_INVALID_PARAMS);
        assert_eq!(
            error.message,
            format!("params.{} must be a non-empty string", key)
        );
    }
}

#[test]
fn prompt_errors_name_what_is_wrong() {
    let expected = |message: &str| (JSONRPC_INVALID_PARAMS, message.to_string());
    assert_eq!(prompt_error("{}"), expected("params.prompt must be present"));
    assert_eq!(
        prompt_error(r#"{"prompt": " \n"}"#),
        expected("params.prompt must not be empty")
    );
    assert_eq!(
        prompt_error(r#"{"prompt": [" ", {"text": 1}, 2, {"text": ""}]}"#),
        expected("params.prompt must contain text items")
    );
    assert_eq!(
        prompt_error(r#"{"prompt": null, "input": "x"}"#),
        expected("params.prompt must be a string or array of text items")
    );
}

#[test]
fn prompt_falls_back_to_input_and_skips_blank_items() {
    assert_eq!(
        extract_prompt_text(&object(r#"{"input": " hi "}"#)).expect("input"),
        " hi "
    );
    assert_eq!(
        extract_prompt_text(&object(
            r#"{"prompt": ["a", " ", {"text": "b"}, {"text": " "}, null, ["c"]], "input": "x"}"#
        ))
        .expect("items"),
        "a\nb"
    );
}

#[test]
fn blank_lines_are_skipped() {
    let mut state = AcpServerState::default();
    assert!(matches!(state.receive_line("", "1"), Step::Skip));
    assert!(matches!(state.receive_line(" \t\u{3000}", "1"), Step::Skip));
}

#[test]
fn unreadable_lines_are_answered_under_the_null_id() {
    let mut state = AcpServerState::default();
    let text = reply(state.receive_line("{", "1"));
    assert!(text.starts_with(
        r#"{"error":{"code":-32700,"data":{"detail":"EOF while parsing an object"#
    ));
    assert!(text.ends_with("\"message\":\"Parse error\"},\"id\":null,\"jsonrpc\":\"2.0\"}\n"));
    assert_eq!(
        reply(state.receive_line("3", "1")),
        "{\"error\":{\"code\":-32600,\"message\":\"Request must be a JSON object\"},\"id\":null,\"jsonrpc\":\"2.0\"}\n"
    );
}

#[test]
fn initialize_describes_the_server() {
    let mut state = AcpServerState::default();
    assert_eq!(
        reply(state.receive_line(
            r#" {"jsonrpc": "2.0", "id": 7, "method": "initialize"} "#,
            "1.2.3"
        )),
        "{\"id\":7,\"jsonrpc\":\"2.0\",\"result\":{\"capabilities\":{\"methods\":[\"initialize\",\"session/new\",\"session/prompt\",\"session/stop\"],\"session\":true,\"streaming_notifications\":true},\"protocol_version\":1,\"server_info\":{\"name\":\"zeroclaw\",\"title\":\"ZeroClaw ACP Server\",\"version\":\"1.2.3\"}}}\n"
    );
}

#[test]
fn unknown_methods_are_refused() {
    let mut state = AcpServerState::default();
    assert_eq!(
        reply(state.receive_line(r#"{"jsonrpc": "2.0", "id": "x", "method": "nope"}"#, "1")),
        "{\"error\":{\"code\":-32601,\"message\":\"Method not found: nope\"},\"id\":\"x\",\"jsonrpc\":\"2.0\"}\n"
    );
}

#[test]
fn notifications_are_not_answered() {
    let mut state = AcpServerState::default();
    for method in ["initialize", "session/stop", "session/prompt", "nope"] {
        let line = format!(r#"{{"jsonrpc": "2.0", "method": "{}"}}"#, method);
        assert!(matches!(state.receive_line(&line, "1"), Step::Skip));
    }
    assert!(respond(None, Ok(Json::Null)).is_none());
}

#[test]
fn session_new_asks_for_the_directory() {
    let mut state = AcpServerState::default();
    let step = state.receive_line(r#"{"jsonrpc": "2.0", "id": 1, "method": "session/new"}"#, "1");
    let reply_to = match step {
        Step::OpenSession {
            reply_to,
            cwd: CwdStep::CurrentDir { relative: None },
        } => reply_to,
        other => panic!("{:?}", other),
    };
    let written = state
        .finish_session(reply_to, Ok(PathBuf::from("/tmp")))
        .expect("a reply");
    assert_eq!(
        written
            .get("result")
            .and_then(|result| result.get("cwd"))
            .and_then(|cwd| cwd.as_str()),
        Some("/tmp")
    );
    let id = written
        .get("result")
        .map(opened_id)
        .expect("a result");
    assert!(id.starts_with("zc-"));
    assert_eq!(id.len(), 39);
    assert_eq!(id.as_bytes()[17], b'4');
    assert!(state.sessions.contains_key(&id));

    let line = format!(
        r#"{{"jsonrpc": "2.0", "id": 2, "method": "session/prompt", "params": {{"session_id": "{}", "prompt": "hi"}}}}"#,
        id
    );
    match state.receive_line(&line, "1") {
        Step::RunPrompt {
            started, request, ..
        } => {
            assert_eq!(request.session_id, id);
            assert_eq!(request.prompt, "hi");
            assert_eq!(request.cwd, PathBuf::from("/tmp"));
            assert_eq!(
                encode_json_line(started),
                format!("{{\"jsonrpc\":\"2.0\",\"method\":\"session/progress\",\"params\":{{\"event\":\"started\",\"session_id\":\"{}\"}}}}\n", id)
            );
        }
        other => panic!("{:?}", other),
    }
}

#[test]
fn session_new_refuses_wrong_parameters() {
    let mut state = AcpServerState::default();
    assert_eq!(
        reply(state.receive_line(
            r#"{"jsonrpc": "2.0", "id": 1, "method": "session/new", "params": {"cwd": 5}}"#,
            "1"
        )),
        "{\"error\":{\"code\":-32602,\"message\":\"params.cwd must be a string\"},\"id\":1,\"jsonrpc\":\"2.0\"}\n"
    );
    let error = JsonRpcErrorObject::new(JSONRPC_INVALID_PARAMS, "no".to_string());
    let written = state
        .finish_session(Some(Json::Null), Err(error))
        .expect("a reply");
    assert_eq!(
        encode_json_line(written),
        "{\"error\":{\"code\":-32602,\"message\":\"no\"},\"id\":null,\"jsonrpc\":\"2.0\"}\n"
    );
}

#[test]
fn two_sessions_have_two_ids() {
    let mut state = AcpServerState::default();
    let a = opened_id(&state.create_session(PathBuf::from("/a")));
    let b = opened_id(&state.create_session(PathBuf::from("/b")));
    assert_ne!(a, b);
    assert_eq!(state.sessions.len(), 2);
}

#[test]
fn opening_answers_with_id_and_directory() {
    let mut state = AcpServerState::default();
    let result = state.open_session("zc-1".to_string(), PathBuf::from("/a"));
    assert_eq!(
        encode_json_line(result),
        "{\"cwd\":\"/a\",\"session_id\":\"zc-1\"}\n"
    );
}

#[test]
fn stopping_needs_an_id() {
    let mut state = AcpServerState::default();
    let error = state
        .stop_session(Some(&json(r#"{"session_id": ""}"#)))
        .expect_err("blank id");
    assert_eq!(error.message, "params.session_id must be a non-empty string");
    let error = state.stop_session(None).expect_err("no params");
    assert_eq!(error.message, "Missing params object");
}

#[test]
fn finished_prompts_are_reported_before_the_reply() {
    let written = finish_prompt(Some(json("3")), "s", Ok("hi".to_string()));
    let lines: Vec<String> = written.into_iter().map(encode_json_line).collect();
    assert_eq!(lines, vec![
        "{\"jsonrpc\":\"2.0\",\"method\":\"session/content\",\"params\":{\"delta\":\"hi\",\"session_id\":\"s\"}}\n",
        "{\"jsonrpc\":\"2.0\",\"method\":\"session/progress\",\"params\":{\"event\":\"completed\",\"session_id\":\"s\"}}\n",
        "{\"id\":3,\"jsonrpc\":\"2.0\",\"result\":{\"content\":[{\"text\":\"hi\",\"type\":\"text\"}],\"response\":\"hi\",\"session_id\":\"s\"}}\n",
    ]);
    assert_eq!(finish_prompt(None, "s", Ok("hi".to_string())).len(), 2);
}

#[test]
fn failed_prompts_are_reported_before_the_reply() {
    let written = finish_prompt(Some(json("3")), "s", Err("boom".to_string()));
    let lines: Vec<String> = written.into_iter().map(encode_json_line).collect();
    assert_eq!(lines, vec![
        "{\"jsonrpc\":\"2.0\",\"method\":\"session/progress\",\"params\":{\"error\":\"boom\",\"event\":\"failed\",\"session_id\":\"s\"}}\n".to_string(),
        format!("{{\"error\":{{\"code\":{},\"data\":{{\"detail\":\"boom\"}},\"message\":\"Agent processing failed\"}},\"id\":3,\"jsonrpc\":\"2.0\"}}\n", JSONRPC_INTERNAL_ERROR),
    ]);
    assert_eq!(finish_prompt(None, "s", Err("boom".to_string())).len(), 1);
}

#[test]
fn stopped_sessions_take_no_prompts_and_others_stay() {
    let mut state = AcpServerState::default();
    state.open_session("a".to_string(), PathBuf::from("/a"));
    state.open_session("b".to_string(), PathBuf::from("/b"));
    let prompt = |id: &str| {
        format!(
            r#"{{"jsonrpc": "2.0", "id": 1, "method": "session/prompt", "params": {{"session_id": "{}", "prompt": "hi"}}}}"#,
            id
        )
    };
    let stop = r#"{"jsonrpc": "2.0", "id": 2, "method": "session/stop", "params": {"session_id": "a"}}"#;
    assert!(matches!(state.receive_line(&prompt("a"), "1"), Step::RunPrompt { .. }));
    assert_eq!(
        reply(state.receive_line(stop, "1")),
        "{\"id\":2,\"jsonrpc\":\"2.0\",\"result\":{\"session_id\":\"a\",\"stopped\":true}}\n"
    );
    assert_eq!(
        reply(state.receive_line(&prompt("a"), "1")),
        "{\"error\":{\"code\":-32004,\"message\":\"Session not found: a\"},\"id\":1,\"jsonrpc\":\"2.0\"}\n"
    );
    match state.receive_line(&prompt("b"), "1") {
        Step::RunPrompt { request, .. } => assert_eq!(request.cwd, PathBuf::from("/b")),
        other => panic!("{:?}", other),
    }
}

#[test]
fn what_the_server_writes_is_read_back() {
    let mut state = AcpServerState::default();
    let text = "a \"b\"\n\u{1}\u{1f600}";
    let mut lines = vec![
        reply(state.receive_line("{", "1")),
        reply(state.receive_line(r#"{"jsonrpc": "2.0", "id": [1.5], "method": "m"}"#, "1")),
        reply(state.receive_line(r#"{"jsonrpc": "2.0", "id": -7, "method": "initialize"}"#, text)),
        encode_json_line(state.open_session(text.to_string(), PathBuf::from("/a b"))),
    ];
    for outcome in [Ok(text.to_string()), Err(text.to_string())] {
        let written = finish_prompt(Some(Json::Text(text.to_string())), text, outcome);
        lines.extend(written.into_iter().map(encode_json_line));
    }
    assert_eq!(lines.len(), 9);
    for line in lines {
        assert_eq!(encode_json_line(json(&line[..line.len() - 1])), line);
    }
    let written = finish_prompt(Some(json("3")), text, Ok(text.to_string()));
    let back = json(&encode_json_line(written.into_iter().next().expect("content")));
    let delta = back.get("params").and_then(|params| params.get("delta"));
    assert_eq!(delta.and_then(|delta| delta.as_str()), Some(text));
}
