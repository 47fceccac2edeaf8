use studio_bridge::helper::connections::sync_remote_connections;
use studio_bridge::helper::records::{ClaimedTask, HelperState, PluginCommand};
use studio_bridge::helper::session::task_connection_key;
use studio_bridge::helper::timing::REMOTE_WS_PONG_TIMEOUT;
use studio_bridge::helper::ws_session::{
    apply_other_frame, apply_ping, apply_pong, apply_server_message, apply_unreadable_message,
    await_upload, close_ws_session, forget_upload, hello_message, official_reply, open_ws_session,
    ping_due, ping_due_as, session_heartbeat_message, session_outcome, tool_reply,
    ws_session_may_open, WsAction, WsSession,
};
use studio_bridge::helper_ws::{
    ArtifactCommitted, HelperToServerMessage, OfficialMcpRequest, ServerToHelperMessage,
};

const NOW: u128 = 10_000_000_000_000;

fn test_claimed_task(task_id: &str, place_id: &str) -> ClaimedTask {
    ClaimedTask {
        task_id: task_id.to_owned(),
        place_id: place_id.to_owned(),
        universe_id: Some("999".to_owned()),
        mcp_base_url: "https://example.com".to_owned(),
        rojo_base_url: Some("https://example.com".to_owned()),
        runtime_log_base_url: Some("https://example.com".to_owned()),
        claimed_at: NOW,
    }
}

fn opened() -> (HelperState, WsSession) {
    let mut state = HelperState::new();
    state
        .claimed_tasks
        .insert("t".to_owned(), test_claimed_task("t", "1"));
    sync_remote_connections(&mut state, NOW);
    let key = task_connection_key("t");
    let worker = state.remote_connections.get(&key).unwrap().worker_id.clone();
    assert!(ws_session_may_open(&state, &key, &worker, false));
    assert!(!ws_session_may_open(&state, &key, &worker, true));
    assert!(!ws_session_may_open(&state, &key, "another", false));
    let session = open_ws_session(&mut state, &key, &worker, "1", Some("t"), NOW);
    (state, session)
}

fn tool_call() -> ServerToHelperMessage {
    ServerToHelperMessage::ToolCall {
        request_id: "q".to_owned(),
        command: PluginCommand {
            id: Some("q".to_owned()),
            args: None,
            text: "{}".to_owned(),
        },
    }
}

fn official_request() -> ServerToHelperMessage {
    ServerToHelperMessage::OfficialMcpRequest(OfficialMcpRequest {
        request_id: "q".to_owned(),
        task_id: "t".to_owned(),
        place_id: "1".to_owned(),
        action: "generate_mesh".to_owned(),
        arguments: "{}".to_owned(),
        timeout_ms: 5,
    })
}

fn ack(place_id: &str, task_id: Option<&str>) -> ServerToHelperMessage {
    ServerToHelperMessage::ReadyAck {
        connection_id: "c1".to_owned(),
        place_id: place_id.to_owned(),
        task_id: task_id.map(str::to_owned),
    }
}

fn committed(upload_id: &str) -> ServerToHelperMessage {
    ServerToHelperMessage::ArtifactCommitted(ArtifactCommitted {
        upload_id: upload_id.to_owned(),
        request_id: "q".to_owned(),
        session_id: "s".to_owned(),
        runtime_id: "r".to_owned(),
        place_id: "1".to_owned(),
        task_id: Some("t".to_owned()),
        screenshot_path: "p".to_owned(),
        screenshot_rel_path: "rel".to_owned(),
        artifact_dir: "d".to_owned(),
        session_metadata_path: "m".to_owned(),
        bytes_written: 5,
    })
}

fn aborted(action: WsAction) -> String {
    match action {
        WsAction::Abort(error) => error,
        _ => panic!("the session should be left"),
    }
}

#[test]
fn nothing_runs_before_the_acknowledgement() {
    let (mut state, mut session) = opened();
    assert_eq!(
        aborted(apply_server_message(&mut state, &mut session, tool_call(), NOW)),
        "remote MCP server sent tool call before ready ack"
    );
    assert_eq!(
        aborted(apply_server_message(&mut state, &mut session, official_request(), NOW)),
        "remote MCP server sent official MCP request before ready ack"
    );
    await_upload(&mut session, "u");
    assert_eq!(
        aborted(apply_server_message(&mut state, &mut session, committed("u"), NOW)),
        "remote MCP server sent artifact committed before ready ack"
    );
}

#[test]
fn acknowledged_session_runs_commands() {
    let (mut state, mut session) = opened();
    assert!(aborted(apply_server_message(
        &mut state,
        &mut session,
        ack("2", Some("t")),
        NOW
    ))
    .contains("place_id mismatch"));
    assert!(!session.ready_acknowledged);
    match apply_server_message(&mut state, &mut session, ack("1", Some("t")), NOW) {
        WsAction::Acknowledged(task) => assert_eq!(task.as_deref(), Some("t")),
        _ => panic!("the acknowledgement fits"),
    }
    let connection = state.remote_connections.get(&task_connection_key("t")).unwrap();
    assert_eq!(connection.connection_id.as_deref(), Some("c1"));
    assert_eq!(connection.last_ready_at, Some(NOW));
    match apply_server_message(&mut state, &mut session, tool_call(), NOW + 1) {
        WsAction::RunTool { request_id, .. } => assert_eq!(request_id, "q"),
        _ => panic!("the command should run"),
    }
    match apply_server_message(&mut state, &mut session, official_request(), NOW + 2) {
        WsAction::RunOfficial(request) => assert_eq!(request.action, "generate_mesh"),
        _ => panic!("the request should run"),
    }
    let connection = state.remote_connections.get(&task_connection_key("t")).unwrap();
    assert_eq!(connection.last_server_message_at, Some(NOW + 2));
    assert_eq!(
        aborted(apply_server_message(
            &mut state,
            &mut session,
            ServerToHelperMessage::CloseReason {
                reason: "bye".to_owned()
            },
            NOW
        )),
        "remote MCP server closed helper websocket: bye"
    );
}

#[test]
fn uploads_are_settled_once() {
    let (mut state, mut session) = opened();
    session.ready_acknowledged = true;
    await_upload(&mut session, "u");
    await_upload(&mut session, "v");
    await_upload(&mut session, "w");
    assert!(matches!(
        apply_server_message(&mut state, &mut session, committed("u"), NOW),
        WsAction::UploadStored(_)
    ));
    assert!(matches!(
        apply_server_message(&mut state, &mut session, committed("u"), NOW),
        WsAction::Nothing
    ));
    match apply_server_message(
        &mut state,
        &mut session,
        ServerToHelperMessage::ArtifactFailed {
            upload_id: "v".to_owned(),
            request_id: "q".to_owned(),
            error: "full".to_owned(),
        },
        NOW,
    ) {
        WsAction::UploadFailed { upload_id, error } => {
            assert_eq!(upload_id, "v");
            assert_eq!(error, "full");
        }
        _ => panic!("the upload has failed"),
    }
    await_upload(&mut session, "x");
    forget_upload(&mut session, "x");
    state.official_adapters.insert("t".to_owned());
    let (left, stopped) = close_ws_session(&mut state, &mut session);
    assert_eq!(left, vec!["w".to_owned()]);
    assert!(stopped);
    assert!(session.uploads.is_empty());
    assert!(!state.official_adapters.contains("t"));
}

#[test]
fn silent_server_is_left() {
    let (mut state, mut session) = opened();
    match ping_due_as(&session, vec![7], NOW + REMOTE_WS_PONG_TIMEOUT) {
        WsAction::Ping(payload) => assert_eq!(payload, vec![7]),
        _ => panic!("the time is not yet over"),
    }
    match ping_due(&session, NOW) {
        WsAction::Ping(payload) => assert_eq!(payload.len(), 16),
        _ => panic!("the time is not yet over"),
    }
    match ping_due(&session, NOW + REMOTE_WS_PONG_TIMEOUT + 1_000_000) {
        WsAction::End(error) => {
            assert_eq!(error, "remote websocket pong timed out after 45001ms")
        }
        _ => panic!("the server has not answered"),
    }
    apply_pong(&mut state, &mut session, NOW + 5);
    assert_eq!(session.last_pong_at, NOW + 5);
    match apply_ping(&mut state, &session, vec![1, 2], NOW + 6) {
        WsAction::Pong(payload) => assert_eq!(payload, vec![1, 2]),
        _ => panic!("a ping is answered"),
    }
    apply_other_frame(&mut state, &session, NOW + 7);
    assert_eq!(
        aborted(apply_unreadable_message(
            &mut state,
            &session,
            "bad".to_owned(),
            NOW + 8
        )),
        "bad"
    );
    let connection = state.remote_connections.get(&task_connection_key("t")).unwrap();
    assert_eq!(connection.last_server_message_at, Some(NOW + 8));
}

#[test]
fn session_introduces_itself() {
    let (state, session) = opened();
    match hello_message(&state, "h", "1.0", &session, NOW) {
        HelperToServerMessage::Hello(hello) => {
            assert_eq!(hello.helper_id, "h");
            assert_eq!(hello.place_id, "1");
            assert_eq!(hello.task_id.as_deref(), Some("t"));
            assert_eq!(hello.plugin_instance_count, 0);
            assert_eq!(hello.capabilities.len(), 5);
            assert_eq!(
                hello.task_status.unwrap().studio_session_state.as_deref(),
                Some("none_connected")
            );
        }
        _ => panic!("a session starts with a hello"),
    }
    assert!(matches!(
        session_heartbeat_message(&state, "h", &session, NOW),
        HelperToServerMessage::Heartbeat { .. }
    ));
    assert!(matches!(
        tool_reply("q".to_owned(), Ok("r".to_owned())),
        HelperToServerMessage::ToolResult { .. }
    ));
    assert!(matches!(
        tool_reply("q".to_owned(), Err("e".to_owned())),
        HelperToServerMessage::ToolError { .. }
    ));
    assert!(matches!(
        official_reply("q".to_owned(), Ok("r".to_owned())),
        HelperToServerMessage::OfficialMcpResponse(_)
    ));
    assert!(matches!(
        official_reply("q".to_owned(), Err("e".to_owned())),
        HelperToServerMessage::OfficialMcpError { .. }
    ));
    assert_eq!(session_outcome(true, Some("x".to_owned())), Ok(()));
    assert_eq!(session_outcome(false, Some("x".to_owned())), Err("x".to_owned()));
    assert_eq!(
        session_outcome(false, None),
        Err("remote websocket session ended unexpectedly".to_owned())
    );
}
