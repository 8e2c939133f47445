use mcp_poc::actor::{Actor, Output};
use mcp_poc::message::{InitState, McpActorRequest, McpError, McpRequest, McpResponse};
use mcp_poc::process::OutputMode;
use mcp_poc::state::{AppState, Delivery, Effect};
use mcp_poc::turn::{Outcome, Step};
use serde_json::Value;
use std::collections::HashMap;

type Reply = Result<(), String>;

fn waiting(id: &str) -> McpRequest {
    McpRequest {
        jsonrpc: "2.0".to_string(),
        id: id.to_string(),
        method: "m".to_string(),
        params: None,
    }
}

fn state(initialized: bool, unsent: &[&str]) -> AppState {
    AppState {
        id: "self".to_string(),
        server_pid: Some(42),
        server_initialized: initialized,
        unsent_requests: unsent.iter().map(|id| waiting(id)).collect(),
        pending_requests: HashMap::new(),
        server_capabilities: None,
    }
}

fn stored() -> Option<Vec<u8>> {
    Some(b"stored".to_vec())
}

fn response(id: &str) -> McpResponse {
    McpResponse {
        jsonrpc: "2.0".to_string(),
        id: id.to_string(),
        result: Some(Value::from(true)),
        error: None,
    }
}

fn failed_response(id: &str) -> McpResponse {
    McpResponse {
        jsonrpc: "2.0".to_string(),
        id: id.to_string(),
        result: None,
        error: Some(McpError { code: -1, message: "no".to_string(), data: None }),
    }
}

/// An effect in one line.
fn show(effect: &Effect) -> String {
    match effect {
        Effect::WriteStdin { pid, data } => {
            format!("write {} {}", pid, String::from_utf8(data.clone()).unwrap())
        }
        Effect::Send { actor_id, data } => {
            format!("send {} {}", actor_id, String::from_utf8(data.clone()).unwrap())
        }
        Effect::Respond { request_id, data } => {
            format!("respond {} {}", request_id, String::from_utf8(data.clone()).unwrap())
        }
    }
}

fn written(id: &str) -> String {
    format!("write 42 {{\"jsonrpc\":\"2.0\",\"id\":\"{}\",\"method\":\"m\"}}\n", id)
}

const REMINDER: &str = "send self null";
const NOTIFICATION: &str =
    "write 42 {\"jsonrpc\":\"2.0\",\"method\":\"notifications/initialized\"}\n";

/// Runs a turn with a host that replies in this way, and otherwise does all.
fn run(step: Step, replies: &[Reply]) -> (Vec<String>, Outcome) {
    let mut effects = Vec::new();
    let mut step = step;
    loop {
        match step {
            Step::Finish(outcome) => return (effects, outcome),
            Step::Perform { effect, turn } => {
                let reply = replies.get(effects.len()).cloned().unwrap_or(Ok(()));
                effects.push(show(&effect));
                step = turn.resume(reply);
            }
        }
    }
}

fn ids(state: &AppState) -> Vec<String> {
    state.unsent_requests.iter().map(|r| r.id.clone()).collect()
}

fn refused() -> Reply {
    Err("no".to_string())
}

fn failure(outcome: Outcome) -> String {
    match outcome {
        Outcome::Failed(message) => message,
        other => panic!("{:?}", other),
    }
}

fn updated(outcome: Outcome) -> AppState {
    match outcome {
        Outcome::Updated(state) => state,
        other => panic!("{:?}", other),
    }
}

fn answered(outcome: Outcome) -> AppState {
    match outcome {
        Outcome::Answered { state, reply: None } => state,
        other => panic!("{:?}", other),
    }
}

fn unchanged(outcome: Outcome) -> Option<Vec<u8>> {
    match outcome {
        Outcome::Unchanged(bytes) => bytes,
        other => panic!("{:?}", other),
    }
}

fn list() -> Option<McpActorRequest> {
    Some(McpActorRequest::ToolsList {})
}

fn call() -> Option<McpActorRequest> {
    let args = serde_json::from_str("{\"path\": \"/tmp\"}").unwrap();
    Some(McpActorRequest::ToolsCall { name: "read".to_string(), args })
}

fn requested(
    state: Result<AppState, String>,
    id: &str,
    request: Option<McpActorRequest>,
    replies: &[Reply],
) -> (Vec<String>, Outcome) {
    run(Actor::handle_request(stored(), state, (id.to_string(), request)), replies)
}

fn reminded(state: Result<AppState, String>, replies: &[Reply]) -> (Vec<String>, Outcome) {
    run(Actor::handle_send(stored(), state, (b"null".to_vec(),)), replies)
}

fn answered_by_server(
    state: Result<AppState, String>,
    response: Option<McpResponse>,
    replies: &[Reply],
) -> (Vec<String>, Outcome) {
    run(Actor::handle_process_stdout(stored(), state, response), replies)
}

#[test]
fn init_starts_the_server() {
    let server = InitState {
        command: "fs-mcp-server".to_string(),
        args: vec!["--root".to_string(), "/tmp".to_string()],
    };
    let launch = Actor::init(Ok(server), "self".to_string()).unwrap();
    assert_eq!(launch.id, "self");
    assert_eq!(launch.config.program, "fs-mcp-server");
    assert_eq!(launch.config.args, ["--root", "/tmp"]);
    assert!(launch.config.env.is_empty());
    assert_eq!(launch.config.cwd, None);
    assert_eq!(launch.config.buffer_size, 1073741824);
    assert_eq!(launch.config.chunk_size, None);
    assert_eq!(launch.config.stdout_mode, OutputMode::Raw);
    assert_eq!(launch.config.stderr_mode, OutputMode::Raw);
}

#[test]
fn init_opens_the_connection() {
    let server = InitState { command: "s".to_string(), args: vec![] };
    let launch = Actor::init(Ok(server), "self".to_string()).unwrap();
    let (state, effect) = launch.spawned(Ok(42)).unwrap();
    assert_eq!(state.id, "self");
    assert_eq!(state.server_pid, Some(42));
    assert!(!state.server_initialized);
    assert!(state.unsent_requests.is_empty());
    assert!(state.pending_requests.is_empty());
    assert!(state.server_capabilities.is_none());
    assert_eq!(
        show(&effect),
        "write 42 {\"jsonrpc\":\"2.0\",\"id\":\"initialize\",\"method\":\"initialize\",\"params\":{\"capabilities\":{\"tools\":{\"supportsFileOperations\":true}},\"clientInfo\":{\"name\":\"mcp-poc\",\"version\":\"0.1.0\"},\"protocolVersion\":\"2024-11-05\"}}\n"
    );
}

#[test]
fn init_fails_on_a_bad_initial_state() {
    let error = Actor::init(Err("bad".to_string()), "self".to_string()).unwrap_err();
    assert_eq!(error, "Failed to deserialize init state: bad");
}

#[test]
fn init_fails_with_the_spawn() {
    let server = InitState { command: "s".to_string(), args: vec![] };
    let launch = Actor::init(Ok(server), "self".to_string()).unwrap();
    assert_eq!(launch.spawned(Err("no".to_string())).unwrap_err(), "no");
}

#[test]
fn exit_of_the_server_with_an_error() {
    let outcome = Actor::handle_exit(stored(), Ok(state(true, &[])), (42, -9));
    assert_eq!(
        failure(outcome),
        "MCP server process 42 terminated unexpectedly with exit code -9"
    );
}

#[test]
fn exit_with_extreme_numbers() {
    let mut app_state = state(true, &[]);
    app_state.server_pid = Some(u64::MAX);
    let outcome = Actor::handle_exit(stored(), Ok(app_state), (u64::MAX, i32::MIN));
    assert_eq!(
        failure(outcome),
        "MCP server process 18446744073709551615 terminated unexpectedly with exit code -2147483648"
    );
    let mut app_state = state(true, &[]);
    app_state.server_pid = Some(0);
    let outcome = Actor::handle_exit(stored(), Ok(app_state), (0, 100));
    assert_eq!(
        failure(outcome),
        "MCP server process 0 terminated unexpectedly with exit code 100"
    );
}

#[test]
fn other_exits_keep_the_state() {
    let outcome = Actor::handle_exit(stored(), Ok(state(true, &[])), (42, 0));
    assert_eq!(unchanged(outcome), stored());
    let outcome = Actor::handle_exit(stored(), Ok(state(true, &[])), (43, 1));
    assert_eq!(unchanged(outcome), stored());
    let mut app_state = state(false, &[]);
    app_state.server_pid = None;
    let outcome = Actor::handle_exit(stored(), Ok(app_state), (42, 1));
    assert_eq!(unchanged(outcome), stored());
}

#[test]
fn exit_with_a_bad_state() {
    let outcome = Actor::handle_exit(stored(), Err("bad".to_string()), (42, 0));
    assert_eq!(failure(outcome), "Failed to deserialize state: bad");
}

#[test]
fn stdout_is_read_as_text() {
    match Actor::handle_stdout(stored(), (42, "é\n".as_bytes().to_vec())) {
        Output::Text { state, text } => {
            assert_eq!(state, stored());
            assert_eq!(text, "é\n");
        }
        other => panic!("{:?}", other),
    }
}

#[test]
fn stdout_that_is_no_text_is_passed_over() {
    match Actor::handle_stdout(stored(), (42, vec![0x61, 0xff])) {
        Output::Done(outcome) => assert_eq!(unchanged(outcome), stored()),
        other => panic!("{:?}", other),
    }
}

#[test]
fn stderr_keeps_the_state() {
    assert_eq!(unchanged(Actor::handle_stderr(stored(), (42, vec![1]))), stored());
    assert_eq!(unchanged(Actor::handle_stderr(None, (42, vec![]))), None);
}

#[test]
fn channels_keep_the_state() {
    let (outcome, accept) = Actor::handle_channel_open(stored(), (vec![1],));
    assert_eq!(unchanged(outcome), stored());
    assert!(accept.accepted);
    assert!(accept.message.is_none());
    let outcome = Actor::handle_channel_close(stored(), ("c".to_string(),));
    assert_eq!(unchanged(outcome), stored());
    let outcome = Actor::handle_channel_message(stored(), ("c".to_string(), vec![1]));
    assert_eq!(unchanged(outcome), stored());
}

#[test]
fn reminder_with_white_space_is_known() {
    assert!(Actor::is_reminder(b"null"));
    assert!(Actor::is_reminder(b" \t\r\nnull\n\r\t "));
    for other in ["", " ", "nul", "nullx", "null null", "NULL", "{}", "[]", "0", "\"null\""] {
        assert!(!Actor::is_reminder(other.as_bytes()), "{}", other);
    }
    assert!(!Actor::is_reminder(b"\x0bnull"));
    assert!(!Actor::is_reminder(&[0xff]));
}

#[test]
fn messages_need_a_state() {
    for none in [None, Some(vec![])] {
        let step = Actor::handle_send(none, Ok(state(true, &["a"])), (b"null".to_vec(),));
        let (effects, outcome) = run(step, &[]);
        assert!(effects.is_empty());
        assert_eq!(failure(outcome), "Invalid state");
    }
    let (_, outcome) = reminded(Err("bad".to_string()), &[]);
    assert_eq!(failure(outcome), "Failed to deserialize state: bad");
}

#[test]
fn other_messages_are_refused() {
    let step = Actor::handle_send(stored(), Ok(state(true, &["a"])), (b"{}".to_vec(),));
    let (effects, outcome) = run(step, &[]);
    assert!(effects.is_empty());
    assert_eq!(failure(outcome), "Unknown request format");
}

#[test]
fn reminder_without_requests() {
    let mut app_state = state(false, &[]);
    app_state.server_pid = None;
    let (effects, outcome) = reminded(Ok(app_state), &[]);
    assert!(effects.is_empty());
    let after = updated(outcome);
    assert!(ids(&after).is_empty());
    assert_eq!(after.server_pid, None);
}

#[test]
fn reminder_sends_the_latest_request() {
    let (effects, outcome) = reminded(Ok(state(true, &["a", "b"])), &[]);
    assert_eq!(effects, [written("b"), REMINDER.to_string()]);
    assert_eq!(ids(&updated(outcome)), ["a"]);
    let (effects, outcome) = reminded(Ok(state(true, &["a"])), &[]);
    assert_eq!(effects, [written("a")]);
    assert!(ids(&updated(outcome)).is_empty());
}

#[test]
fn reminders_send_all_requests() {
    let mut app_state = state(true, &["a", "b", "c"]);
    let mut sent = Vec::new();
    loop {
        let (effects, outcome) = reminded(Ok(app_state), &[]);
        app_state = updated(outcome);
        let more = effects.last().map(|e| e == REMINDER).unwrap_or(false);
        sent.extend(effects);
        if !more {
            break;
        }
    }
    let reminder = REMINDER.to_string();
    assert_eq!(sent, [written("c"), reminder.clone(), written("b"), reminder, written("a")]);
    assert!(ids(&app_state).is_empty());
}

#[test]
fn message_fails_when_a_request_cannot_be_sent() {
    let (effects, outcome) = reminded(Ok(state(true, &["a", "b"])), &[refused()]);
    assert_eq!(effects, [written("b")]);
    assert_eq!(failure(outcome), "Failed to send next unsent request");
    let (effects, outcome) = reminded(Ok(state(true, &["a", "b"])), &[Ok(()), refused()]);
    assert_eq!(effects.len(), 2);
    assert_eq!(failure(outcome), "Failed to send next unsent request");
}

#[test]
fn requests_need_a_state() {
    for none in [None, Some(vec![])] {
        let step = Actor::handle_request(none, Ok(state(true, &[])), ("7".to_string(), list()));
        let (effects, outcome) = run(step, &[]);
        assert!(effects.is_empty());
        assert_eq!(failure(outcome), "Invalid state");
    }
    let (_, outcome) = requested(Err("bad".to_string()), "7", None, &[]);
    assert_eq!(failure(outcome), "Failed to deserialize state: bad");
}

#[test]
fn unknown_requests_are_refused() {
    let (effects, outcome) = requested(Ok(state(true, &["a"])), "7", None, &[]);
    assert!(effects.is_empty());
    assert_eq!(failure(outcome), "Unknown request format");
}

#[test]
fn list_is_sent_when_the_connection_is_open() {
    let (effects, outcome) = requested(Ok(state(true, &[])), "7", list(), &[]);
    assert_eq!(
        effects,
        ["write 42 {\"jsonrpc\":\"2.0\",\"id\":\"7\",\"method\":\"tools/list\"}\n"]
    );
    assert!(ids(&answered(outcome)).is_empty());
}

#[test]
fn call_is_sent_when_the_connection_is_open() {
    let (effects, outcome) = requested(Ok(state(true, &["a"])), "7", call(), &[]);
    assert_eq!(
        effects,
        [
            "write 42 {\"jsonrpc\":\"2.0\",\"id\":\"7\",\"method\":\"tools/call\",\"params\":{\"arguments\":{\"path\":\"/tmp\"},\"name\":\"read\"}}\n",
            REMINDER
        ]
    );
    let after = answered(outcome);
    assert_eq!(ids(&after), ["a"]);
    assert!(after.server_initialized);
}

#[test]
fn list_waits_until_the_connection_is_open() {
    let mut app_state = state(false, &["a"]);
    app_state.server_pid = None;
    let (effects, outcome) = requested(Ok(app_state), "7", list(), &[]);
    assert!(effects.is_empty());
    let after = answered(outcome);
    assert_eq!(ids(&after), ["a", "7"]);
    assert_eq!(after.unsent_requests[1].method, "tools/list");
    assert!(!after.server_initialized);
}

#[test]
fn call_is_refused_until_the_connection_is_open() {
    let (effects, outcome) = requested(Ok(state(false, &[])), "7", call(), &[]);
    assert!(effects.is_empty());
    assert_eq!(failure(outcome), "MCP server not initialized");
}

#[test]
fn request_fails_when_it_cannot_be_sent() {
    let (_, outcome) = requested(Ok(state(true, &["a"])), "7", list(), &[refused()]);
    assert_eq!(failure(outcome), "Failed to write to stdin: no");
    let (_, outcome) = requested(Ok(state(true, &["a"])), "7", list(), &[Ok(()), refused()]);
    assert_eq!(failure(outcome), "Failed to send message: no");
}

#[test]
fn output_without_a_state_is_passed_over() {
    for none in [None, Some(vec![])] {
        let step = Actor::handle_process_stdout(none, Ok(state(true, &[])), Some(response("7")));
        let (effects, outcome) = run(step, &[]);
        assert!(effects.is_empty());
        assert_eq!(unchanged(outcome), None);
    }
}

#[test]
fn output_with_a_bad_state() {
    let (_, outcome) = answered_by_server(Err("bad".to_string()), Some(response("7")), &[]);
    assert_eq!(failure(outcome), "Failed to deserialize state: bad");
}

#[test]
fn output_that_is_no_response() {
    let (effects, outcome) = answered_by_server(Ok(state(false, &["a"])), None, &[]);
    assert!(effects.is_empty());
    let after = updated(outcome);
    assert_eq!(ids(&after), ["a"]);
    assert!(!after.server_initialized);
}

#[test]
fn response_is_relayed() {
    let (effects, outcome) = answered_by_server(Ok(state(true, &["a"])), Some(response("7")), &[]);
    assert_eq!(effects, ["respond 7 {\"jsonrpc\":\"2.0\",\"id\":\"7\",\"result\":true}"]);
    assert_eq!(unchanged(outcome), stored());
    let (effects, _) = answered_by_server(Ok(state(true, &[])), Some(failed_response("8")), &[]);
    assert_eq!(
        effects,
        ["respond 8 {\"jsonrpc\":\"2.0\",\"id\":\"8\",\"error\":{\"code\":-1,\"message\":\"no\"}}"]
    );
}

#[test]
fn response_that_cannot_be_relayed() {
    let (_, outcome) =
        answered_by_server(Ok(state(true, &[])), Some(response("7")), &[refused()]);
    assert_eq!(failure(outcome), "Failed to respond to request: no");
}

#[test]
fn opening_sends_the_notification() {
    let (effects, outcome) =
        answered_by_server(Ok(state(false, &[])), Some(response("initialize")), &[]);
    assert_eq!(effects, [NOTIFICATION]);
    assert_eq!(unchanged(outcome), stored());
}

#[test]
fn opening_sends_what_waits() {
    let opening = || Some(response("initialize"));
    let (effects, outcome) = answered_by_server(Ok(state(false, &["a"])), opening(), &[]);
    assert_eq!(effects, [NOTIFICATION.to_string(), written("a")]);
    assert_eq!(unchanged(outcome), stored());
    let (effects, outcome) = answered_by_server(Ok(state(false, &["a", "b"])), opening(), &[]);
    assert_eq!(effects, [NOTIFICATION.to_string(), written("b"), REMINDER.to_string()]);
    assert_eq!(unchanged(outcome), stored());
}

#[test]
fn early_list_is_sent_on_opening() {
    let (_, outcome) = requested(Ok(state(false, &["a"])), "7", list(), &[]);
    let (effects, _) =
        answered_by_server(Ok(answered(outcome)), Some(response("initialize")), &[]);
    assert_eq!(
        effects[1],
        "write 42 {\"jsonrpc\":\"2.0\",\"id\":\"7\",\"method\":\"tools/list\"}\n"
    );
}

#[test]
fn opening_fails_with_the_host() {
    let opening = || Some(response("initialize"));
    let (_, outcome) = answered_by_server(Ok(state(false, &["a"])), opening(), &[refused()]);
    assert_eq!(failure(outcome), "Failed to send notification: no");
    let (_, outcome) =
        answered_by_server(Ok(state(false, &["a"])), opening(), &[Ok(()), refused()]);
    assert_eq!(failure(outcome), "Failed to write to stdin: no");
    let replies = [Ok(()), Ok(()), refused()];
    let (_, outcome) = answered_by_server(Ok(state(false, &["a", "b"])), opening(), &replies);
    assert_eq!(failure(outcome), "Failed to send message: no");
}

#[test]
fn opening_refused_by_the_server() {
    let (effects, outcome) =
        answered_by_server(Ok(state(false, &["a"])), Some(failed_response("initialize")), &[]);
    assert!(effects.is_empty());
    assert_eq!(unchanged(outcome), stored());
}

#[test]
fn messages_are_sent_to_the_server() {
    let effect = state(true, &[]).send_message("7", "ping", Some(Value::from(false)));
    assert_eq!(
        show(&effect),
        "write 42 {\"jsonrpc\":\"2.0\",\"id\":\"7\",\"method\":\"ping\",\"params\":false}\n"
    );
}

#[test]
fn sending_takes_the_latest_request() {
    let mut app_state = state(true, &["a", "b"]);
    match app_state.send_next_unsent() {
        Delivery::Perform(effect) => assert_eq!(show(&effect), written("b")),
        other => panic!("{:?}", other),
    }
    assert_eq!(ids(&app_state), ["a"]);
    match app_state.unsent_written(Ok(())) {
        Delivery::Perform(effect) => assert_eq!(show(&effect), REMINDER),
        other => panic!("{:?}", other),
    }
    assert_eq!(AppState::reminder_sent(Ok(())), Ok(()));
}

#[test]
fn sending_without_requests() {
    let mut app_state = state(true, &[]);
    assert!(matches!(app_state.send_next_unsent(), Delivery::Done(Ok(()))));
    assert!(matches!(app_state.unsent_written(Ok(())), Delivery::Done(Ok(()))));
}
