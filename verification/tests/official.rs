use studio_bridge::helper::official::{
    allowed_official_mcp_tools, check_official_request, ensure_official_adapter,
    ensure_official_image_magic, give_up_on_adapter, is_transient_official_readiness_error,
    judge_rpc_line, judge_rpc_response, listed_tools, missing_allowed_tools,
    official_adapter_error_keeps_ready, official_process_is_due,
    official_adapter_error_preserves_state, official_image_extension_for_mime,
    official_request_timeout, official_text, official_tool_error, official_tool_for_action,
    prepare_official_store_image_arguments, prepare_official_tool_arguments, prewarm_request,
    prewarm_request_as, sanitize_image_file_hint, select_official_studio, settle_official_request,
    settle_prewarm, should_restart_official_process_after_error, stop_and_remove_official_adapter,
    validate_official_adapter_request, AdapterLoss, ImageArguments, OfficialContentItem,
    OfficialStudioInfo, OfficialStudioList, PrewarmOutcome, RpcStep,
};
use studio_bridge::helper::connections::{
    set_remote_connection_connected, sync_remote_connections,
};
use studio_bridge::helper::records::{ClaimedTask, HelperState};
use studio_bridge::helper::timing::OFFICIAL_MCP_REQUEST_TIMEOUT;
use studio_bridge::table::IdSet;

const NOW: u128 = 10_000_000_000_000;

fn restarts(message: &str) -> bool {
    should_restart_official_process_after_error(message)
}

fn keeps_ready(message: &str) -> bool {
    official_adapter_error_keeps_ready(message)
}

#[test]
fn official_adapter_allows_only_curated_actions() {
    let allowed = allowed_official_mcp_tools();
    let contains = |tool: &str| allowed.iter().any(|item| item == tool);
    assert!(contains("generate_mesh"));
    assert!(contains("search_creator_store"));
    assert!(!contains("execute_luau"));
    assert!(!contains("script_read"));
    assert_eq!(
        official_tool_for_action("generate_mesh").unwrap(),
        "generate_mesh"
    );
    assert_eq!(
        official_tool_for_action("search_creator_store").unwrap(),
        "search_creator_store"
    );
    assert!(official_tool_for_action("execute_luau").is_err());
    assert!(official_tool_for_action("script_read").is_err());
}

#[test]
fn official_adapter_keeps_process_while_studio_ws_host_is_starting() {
    let transient =
        "official MCP tool list_roblox_studios returned error: Not connected to the WS host";
    assert!(!restarts(transient));
    assert!(!keeps_ready(transient));

    let no_connected_studio = "official MCP found no connected Roblox Studio instances";
    assert!(!restarts(no_connected_studio));
    assert!(!keeps_ready(no_connected_studio));

    let opening_place = "official MCP tool search_creator_store returned error: Execution is prevented because previously active Studio has disconnected or doesn't have a place opened.";
    assert!(!restarts(opening_place));
    assert!(!keeps_ready(opening_place));
    assert!(is_transient_official_readiness_error(opening_place));

    let fatal = "official MCP process closed stdout";
    assert!(restarts(fatal));
    assert!(!keeps_ready(fatal));
}

#[test]
fn official_adapter_keeps_ready_for_tool_and_request_failures() {
    let workflow_failed = "official MCP tool wait_job_finished returned error: Workflow failed";
    assert!(!restarts(workflow_failed));
    assert!(keeps_ready(workflow_failed));

    let missing_generation = "official MCP tool wait_job_finished returned error: No job found with generation ID: generation-id-does-not-exist";
    assert!(!restarts(missing_generation));
    assert!(keeps_ready(missing_generation));

    let required_generation_id =
        "official MCP tool wait_job_finished returned error: generationId required";
    assert!(!restarts(required_generation_id));
    assert!(keeps_ready(required_generation_id));

    let missing_generation_id =
        "official MCP tool wait_job_finished returned error: generation_id missing";
    assert!(!restarts(missing_generation_id));
    assert!(keeps_ready(missing_generation_id));

    let required_job_id = "official MCP tool wait_job_finished returned error: job id required";
    assert!(!restarts(required_job_id));
    assert!(keeps_ready(required_job_id));

    let poll_generation_failed =
        "official MCP tool wait_job_finished returned error: failed to poll generation ID result";
    assert!(restarts(poll_generation_failed));
    assert!(!keeps_ready(poll_generation_failed));

    let generate_failed = "official MCP tool generate_mesh returned error: policy rejected input";
    assert!(!restarts(generate_failed));
    assert!(keeps_ready(generate_failed));

    let generate_channel_failed =
        "official MCP tool generate_mesh returned error: Studio connection lost";
    assert!(restarts(generate_channel_failed));
    assert!(!keeps_ready(generate_channel_failed));

    let search_channel_failed =
        "official MCP tool search_creator_store returned error: Studio connection lost";
    assert!(restarts(search_channel_failed));
    assert!(!keeps_ready(search_channel_failed));

    let insert_channel_failed =
        "official MCP tool insert_from_creator_store returned error: Roblox Studio unavailable";
    assert!(restarts(insert_channel_failed));
    assert!(!keeps_ready(insert_channel_failed));

    let store_image_channel_failed =
        "official MCP tool store_image returned error: internal adapter failure";
    assert!(restarts(store_image_channel_failed));
    assert!(!keeps_ready(store_image_channel_failed));

    let store_image_file_failed = "official MCP tool store_image returned error: file not found";
    assert!(!restarts(store_image_file_failed));
    assert!(keeps_ready(store_image_file_failed));

    let internal_studio_tool_failed =
        "official MCP tool list_roblox_studios returned error: unexpected failure";
    assert!(restarts(internal_studio_tool_failed));
    assert!(!keeps_ready(internal_studio_tool_failed));

    let bad_image = "store_image imageBase64 content does not match mimeType";
    assert!(!restarts(bad_image));
    assert!(keeps_ready(bad_image));

    let unsupported_action = "unsupported official MCP adapter action: unknown_action";
    assert!(!restarts(unsupported_action));
    assert!(!keeps_ready(unsupported_action));
    assert!(official_adapter_error_preserves_state(unsupported_action));
}

#[test]
fn store_image_legacy_file_path_passes_through() {
    let prepared = prepare_official_store_image_arguments(
        "t_example",
        "req_example",
        "{ \"filePath\": \"C:\\\\tmp\\\\probe.png\" }",
    )
    .ok()
    .expect("legacy Windows filePath should pass through");
    match prepared {
        ImageArguments::File(path) => assert_eq!(path, "C:\\tmp\\probe.png"),
        ImageArguments::Write(_) => panic!("a file that is there is not written"),
    }
}

#[test]
fn store_image_base64_writes_task_scoped_temp_file() {
    let png_base64 =
        "iVBORw0KGgoAAAANSUhEUgAAAAEAAAABCAQAAAC1HAwCAAAAC0lEQVR42mP8/x8AAwMCAO+/p9sAAAAASUVORK5CYII=";
    let arguments = format!(
        "{{\"imageBase64\":\"{png_base64}\",\"mimeType\":\"image/png\",\"fileName\":\"..\\\\bad name.png\"}}"
    );
    let prepared = prepare_official_store_image_arguments("t_example", "req_example", &arguments)
        .ok()
        .expect("base64 image should be written to helper temp storage");
    match prepared {
        ImageArguments::File(_) => panic!("an image that is handed over is written"),
        ImageArguments::Write(image) => {
            assert_eq!(image.task_id, "t_example");
            assert!(image.file_name.ends_with(".png"));
            assert!(!image.file_name.contains('\\'));
            assert!(!image.file_name.contains(' '));
            assert_eq!(&image.bytes[..8], &[0x89, b'P', b'N', b'G', 13, 10, 26, 10]);
            assert_eq!(image.bytes.len(), 68);
        }
    }
}

#[test]
fn store_image_base64_rejects_mime_mismatch() {
    let error = match prepare_official_store_image_arguments(
        "t_example",
        "req_example",
        "{\"imageBase64\":\"/9j/AA==\",\"mimeType\":\"image/png\"}",
    ) {
        Ok(_) => panic!("the image is none of that kind"),
        Err(error) => error,
    };
    assert!(error.contains("does not match mimeType"));
}

#[test]
fn store_image_arguments_must_be_an_object() {
    for text in ["[]", "not json", "\"text\""] {
        assert!(prepare_official_store_image_arguments("t", "r", text).is_err());
    }
    assert!(prepare_official_store_image_arguments("t", "r", "{}").is_err());
    assert!(prepare_official_store_image_arguments(
        "t",
        "r",
        "{\"imageBase64\":\"%%%\",\"mimeType\":\"image/png\"}"
    )
    .is_err());
    match prepare_official_tool_arguments("t", "r", "generate_mesh", "{}") {
        Ok(None) => {}
        _ => panic!("only images are prepared"),
    }
}

#[test]
fn image_kinds_are_told_by_their_first_bytes() {
    assert_eq!(official_image_extension_for_mime("image/png"), Ok("png"));
    assert_eq!(official_image_extension_for_mime("image/jpeg"), Ok("jpg"));
    assert!(official_image_extension_for_mime("text/plain").is_err());
    assert!(ensure_official_image_magic("image/jpeg", &vec![0xff, 0xd8, 0xff]).is_ok());
    assert!(ensure_official_image_magic("image/jpeg", &vec![0xff, 0xd8]).is_err());
    let hint = sanitize_image_file_hint("a/b c.png");
    assert!(hint
        .chars()
        .all(|c| c.is_ascii_alphanumeric() || c == '-' || c == '_' || c == '.'));
}

#[test]
fn stop_and_remove_official_adapter_drops_stale_handle() {
    let mut state = HelperState::new();
    state.official_adapters.insert("task-a".to_owned());
    assert!(stop_and_remove_official_adapter(&mut state, "task-a"));
    assert!(!state.official_adapters.contains("task-a"));
    assert!(!stop_and_remove_official_adapter(&mut state, "task-a"));
}

#[test]
fn request_outcome_settles_the_adapter_state() {
    let mut state = HelperState::new();
    assert!(!settle_official_request(&mut state, "t", None, NOW));
    assert_eq!(state.official_adapter_states.get("t").unwrap().state, "ready");
    assert!(settle_official_request(
        &mut state,
        "t",
        Some("official MCP process closed stdout"),
        NOW
    ));
    let record = state.official_adapter_states.get("t").unwrap();
    assert_eq!(record.state, "error");
    assert_eq!(
        record.last_error.as_deref(),
        Some("official MCP process closed stdout")
    );
    assert!(!settle_official_request(
        &mut state,
        "t",
        Some("official MCP tool wait_job_finished returned error: Workflow failed"),
        NOW
    ));
    assert_eq!(state.official_adapter_states.get("t").unwrap().state, "ready");
}

#[test]
fn request_time_is_bounded() {
    assert_eq!(official_request_timeout(0), 1_000_000);
    assert_eq!(official_request_timeout(250), 250_000_000);
    assert_eq!(official_request_timeout(u64::MAX), OFFICIAL_MCP_REQUEST_TIMEOUT);
}

#[test]
fn only_studio_is_chosen() {
    let studio = |id: &str, active: Option<bool>| OfficialStudioInfo {
        id: id.to_owned(),
        name: None,
        active,
    };
    let list = |studios: Vec<OfficialStudioInfo>| OfficialStudioList {
        note: None,
        studios,
    };
    let chosen = |studios: Vec<OfficialStudioInfo>| {
        select_official_studio(&list(studios)).map(|studio| studio.id)
    };
    assert_eq!(
        chosen(vec![studio("a", None), studio("b", Some(true))]),
        Err("official MCP found multiple Studio instances and cannot bind safely in v1".to_owned())
    );
    assert_eq!(chosen(vec![studio("a", None)]), Ok("a".to_owned()));
    assert!(chosen(Vec::new())
        .err()
        .unwrap()
        .contains("no connected Roblox Studio instances"));
}

#[test]
fn tools_that_are_missing_are_told() {
    let mut available = IdSet::new();
    for tool in allowed_official_mcp_tools() {
        if tool != "store_image" {
            available.insert(tool);
        }
    }
    assert_eq!(
        missing_allowed_tools(&available),
        vec!["store_image".to_owned()]
    );
}

#[test]
fn tool_errors_quote_their_content() {
    let item = |kind: &str, text: Option<&str>| OfficialContentItem {
        item_type: kind.to_owned(),
        text: text.map(str::to_owned),
    };
    let content = vec![item("text", Some("Workflow failed"))];
    assert_eq!(
        official_tool_error("wait_job_finished", &content),
        "official MCP tool wait_job_finished returned error: Workflow failed"
    );
    assert_eq!(official_text(&content), Ok("Workflow failed".to_owned()));
    assert!(official_text(&vec![item("image", None)]).is_err());
}

#[test]
fn official_request_must_be_for_its_connection() {
    let request = prewarm_request_as("q", "task-a", "12");
    assert_eq!(check_official_request("12", Some("task-a"), &request), Ok(()));
    assert_eq!(
        check_official_request("12", None, &request),
        Err("official MCP request requires task_id-bound remote connection".to_owned())
    );
    assert_eq!(
        check_official_request("12", Some("task-b"), &request),
        Err("official MCP request task_id mismatch: expected task-b, got task-a".to_owned())
    );
    assert_eq!(
        check_official_request("13", Some("task-a"), &request),
        Err("official MCP request place_id mismatch: expected 13, got 12".to_owned())
    );
}

#[test]
fn adapter_needs_a_claim_and_a_connection() {
    let mut state = HelperState::new();
    assert_eq!(
        ensure_official_adapter(&mut state, "task-a", "12"),
        Err("helper has not claimed task_id task-a".to_owned())
    );
    state.claimed_tasks.insert(
        "task-a".to_owned(),
        ClaimedTask {
            task_id: "task-a".to_owned(),
            place_id: "12".to_owned(),
            universe_id: None,
            mcp_base_url: "https://example.com".to_owned(),
            rojo_base_url: None,
            runtime_log_base_url: None,
            claimed_at: NOW,
        },
    );
    assert_eq!(
        ensure_official_adapter(&mut state, "task-a", "13"),
        Err("claimed task place_id mismatch for task_id task-a: expected 12, got 13".to_owned())
    );
    assert_eq!(
        ensure_official_adapter(&mut state, "task-a", "12"),
        Err("official MCP adapter requires active remote connection".to_owned())
    );
    sync_remote_connections(&mut state, NOW);
    assert_eq!(
        ensure_official_adapter(&mut state, "task-a", "12"),
        Err("official MCP adapter requires ready remote connection for task_id task-a".to_owned())
    );
    let key = state.remote_connections.key_at(0).to_owned();
    let worker = state.remote_connections.value_at(0).worker_id.clone();
    set_remote_connection_connected(&mut state, &key, &worker, "c1", NOW);
    assert_eq!(ensure_official_adapter(&mut state, "task-a", "12"), Ok(true));
    assert_eq!(ensure_official_adapter(&mut state, "task-a", "12"), Ok(false));
    assert_eq!(
        give_up_on_adapter(&mut state, "task-a", &AdapterLoss::TimedOut),
        "official MCP adapter request timed out"
    );
    assert!(!state.official_adapters.contains("task-a"));
    assert_eq!(
        give_up_on_adapter(&mut state, "task-a", &AdapterLoss::WorkerGone),
        "official MCP adapter worker is not running"
    );
    assert_eq!(
        give_up_on_adapter(&mut state, "task-a", &AdapterLoss::ChannelClosed),
        "official MCP adapter response channel closed"
    );
}

#[test]
fn first_request_settles_the_adapter_state() {
    let request = prewarm_request("task-a", "12");
    assert_eq!(request.action, "ping");
    assert_eq!(request.timeout_ms, 30_000);
    assert_ne!(request.request_id, prewarm_request("task-a", "12").request_id);
    assert_eq!(validate_official_adapter_request(&request), Ok(()));
    let mut other = prewarm_request_as("q", "task-a", "12");
    other.action = "execute_luau".to_owned();
    assert_eq!(
        validate_official_adapter_request(&other),
        Err("unsupported official MCP adapter action: execute_luau".to_owned())
    );

    let mut state = HelperState::new();
    let mut settled = |outcome: PrewarmOutcome| {
        settle_prewarm(&mut state, "task-a", &outcome, NOW);
        let record = state.official_adapter_states.get("task-a").unwrap();
        (record.state.clone(), record.last_error.clone())
    };
    let failed = |text: &str| ("error".to_owned(), Some(text.to_owned()));
    assert_eq!(settled(PrewarmOutcome::Ready), ("ready".to_owned(), None));
    assert_eq!(
        settled(PrewarmOutcome::Failed("no process".to_owned())),
        failed("no process")
    );
    assert_eq!(
        settled(PrewarmOutcome::WorkerGone),
        failed("official MCP adapter worker is not running")
    );
    assert_eq!(
        settled(PrewarmOutcome::ChannelClosed),
        failed("official MCP adapter response channel closed")
    );
    assert_eq!(
        settled(PrewarmOutcome::TimedOut),
        failed("official MCP adapter prewarm timed out")
    );
}

#[test]
fn rpc_responses_are_judged_by_their_number() {
    let judged = |id: Option<u64>, error: Option<&str>, has_result: bool| {
        match judge_rpc_response(7, "tools/list", id, error, has_result) {
            RpcStep::Skip => "skip".to_owned(),
            RpcStep::Done => "done".to_owned(),
            RpcStep::Fail(message) => message,
        }
    };
    assert_eq!(judged(None, None, true), "skip");
    assert_eq!(judged(Some(6), Some("{}"), true), "skip");
    assert_eq!(judged(Some(7), None, true), "done");
    assert_eq!(judged(Some(7), Some("{}"), true), "official MCP tools/list failed: {}");
    assert_eq!(
        judged(Some(7), None, false),
        "official MCP tools/list response missing result"
    );
}

#[test]
fn lines_of_the_process_are_judged() {
    let judged = |line: &str| match judge_rpc_line(7, "tools/list", line) {
        (RpcStep::Skip, _) => "skip".to_owned(),
        (RpcStep::Done, result) => format!("done {}", result.expect("a result is there")),
        (RpcStep::Fail(message), _) => message,
    };
    assert_eq!(
        judged("starting up"),
        "official MCP returned non-JSON line: starting up"
    );
    assert_eq!(judged("[1]"), "skip");
    assert_eq!(judged("{\"id\":6,\"result\":{}}"), "skip");
    assert_eq!(judged("{\"id\":\"7\",\"result\":{}}"), "skip");
    assert_eq!(
        judged("{\"id\":7,\"result\":{},\"error\":{\"code\": 1}}"),
        "official MCP tools/list failed: {\"code\":1}"
    );
    assert_eq!(
        judged("{\"id\":7}"),
        "official MCP tools/list response missing result"
    );
    assert_eq!(judged("{\"id\":7,\"result\":{\"a\": 1}}"), "done {\"a\":1}");
    assert_eq!(judged("{\"id\":7,\"result\":null}"), "done null");
}

#[test]
fn tools_are_listed_by_name() {
    let (count, names) =
        listed_tools("{\"tools\":[{\"name\":\"b\"},{\"title\":\"x\"},{\"name\":\"a\"}]}");
    assert_eq!(count, 3);
    assert_eq!(names, vec!["b", "a"]);
    assert_eq!(listed_tools("{\"tools\":{}}"), (0, Vec::new()));
    assert_eq!(listed_tools("{}"), (0, Vec::new()));
}

#[test]
fn process_is_started_where_none_runs() {
    assert!(official_process_is_due(None, false));
    assert!(official_process_is_due(Some(true), true));
    assert!(!official_process_is_due(Some(true), false));
    assert!(!official_process_is_due(Some(false), true));
}
