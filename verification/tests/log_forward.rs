use studio_bridge::helper::forward::{
    hub_endpoint, hub_failure, parse_helper_id_conflict, settle_runtime_log, take_runtime_log,
    HubErrorResponse, LogIntake, RuntimeLogForwardJob,
};
use studio_bridge::helper::records::{ClaimedTask, HelperState};
use studio_bridge::helper::routing::release_claimed_task;
use studio_bridge::helper::task_status::{
    helper_task_status_snapshot, runtime_log_forward_status_snapshot,
};
use studio_bridge::helper::timing::RUNTIME_LOG_FORWARD_QUEUE_CAPACITY;

const NOW: u128 = 10_000_000_000_000;

fn test_claimed_task(task_id: &str, place_id: &str) -> ClaimedTask {
    ClaimedTask {
        task_id: task_id.to_owned(),
        place_id: place_id.to_owned(),
        universe_id: Some("999".to_owned()),
        mcp_base_url: "https://example.com".to_owned(),
        rojo_base_url: Some("https://example.com".to_owned()),
        runtime_log_base_url: Some("https://example.com".to_owned()),
        claimed_at: NOW,
    }
}

const PLACE: &str = "134795435066737";

fn state_with_log_base(runtime_log_base_url: &str) -> HelperState {
    let mut task = test_claimed_task("task-a", PLACE);
    task.runtime_log_base_url = Some(runtime_log_base_url.to_owned());
    let mut state = HelperState::new();
    state.claimed_tasks.insert("task-a".to_owned(), task);
    state
}

fn call(state: &mut HelperState, path: &str, query: Option<&str>, waiting: usize) -> LogIntake {
    take_runtime_log(state, PLACE, "task-a", path, query, waiting, NOW)
        .ok()
        .expect("the route should be known")
}

fn accepted(intake: LogIntake) -> RuntimeLogForwardJob {
    match intake {
        LogIntake::Accepted(job) => job,
        LogIntake::QueueFull(text) => panic!("not taken: {text}"),
        LogIntake::UnknownPath(text) => panic!("not taken: {text}"),
    }
}

#[test]
fn runtime_log_forward_fast_acks_slow_upstream() {
    let mut state = state_with_log_base("http://127.0.0.1:9");
    let job = accepted(call(&mut state, "v1/runtime-logs", None, 0));
    assert_eq!(job.target_url, "http://127.0.0.1:9/v1/runtime-logs");
    let status = runtime_log_forward_status_snapshot(&state, "task-a", NOW);
    assert_eq!(status.state, "forwarding");
    settle_runtime_log(&mut state, &job, Some(204), NOW);
    let status = runtime_log_forward_status_snapshot(&state, "task-a", NOW);
    assert_eq!(status.accepted_count, 1);
    assert_eq!(status.forwarded_count, 1);
    assert_eq!(status.failed_count, 0);
    assert_eq!(status.state, "ready");
}

#[test]
fn runtime_log_forward_allows_upload_query_and_forwards_it() {
    let mut state = state_with_log_base("http://127.0.0.1:9/");
    let job = accepted(call(&mut state, "v1/runtime-logs", Some("cursor=abc"), 0));
    assert_eq!(job.target_path, "/v1/runtime-logs?cursor=abc");
    assert_eq!(
        job.target_url,
        "http://127.0.0.1:9/v1/runtime-logs?cursor=abc"
    );
}

#[test]
fn runtime_log_forward_completion_after_release_does_not_recreate_status() {
    let mut state = state_with_log_base("http://127.0.0.1:9");
    let job = accepted(call(&mut state, "v1/runtime-logs", None, 0));
    assert!(state.runtime_log_forward_statuses.contains_key("task-a"));
    let _ = release_claimed_task(&mut state, "task-a", false);
    assert!(!state.runtime_log_forward_statuses.contains_key("task-a"));
    settle_runtime_log(&mut state, &job, Some(204), NOW);
    assert!(
        !state.runtime_log_forward_statuses.contains_key("task-a"),
        "released task must not be recreated by a late runtime-log forward completion"
    );
}

#[test]
fn completion_for_an_earlier_claim_is_passed_over() {
    let mut state = state_with_log_base("http://127.0.0.1:9");
    let job = accepted(call(&mut state, "v1/runtime-logs", None, 0));
    let mut again = test_claimed_task("task-a", PLACE);
    again.claimed_at = NOW + 1;
    state.claimed_tasks.insert("task-a".to_owned(), again);
    settle_runtime_log(&mut state, &job, Some(204), NOW);
    let status = runtime_log_forward_status_snapshot(&state, "task-a", NOW);
    assert_eq!(status.forwarded_count, 0);
}

#[test]
fn runtime_log_forward_records_background_http_failure() {
    let sink_base_url = "http://127.0.0.1:9";
    let mut state = state_with_log_base(sink_base_url);
    let job = accepted(call(&mut state, "v1/runtime-logs", None, 0));
    settle_runtime_log(&mut state, &job, Some(503), NOW);
    let status = runtime_log_forward_status_snapshot(&state, "task-a", NOW);
    assert_eq!(status.failed_count, 1);
    assert_eq!(status.state, "error");
    assert_eq!(status.last_http_status, Some(503));
    let last_error = status.last_error.as_deref().unwrap_or_default();
    assert!(last_error.contains("HTTP 503"));
    assert!(
        !last_error.contains(sink_base_url),
        "runtime-log status must not expose upstream URL"
    );
}

#[test]
fn runtime_log_forward_records_background_connection_failure() {
    let sink_base_url = "http://127.0.0.1:9";
    let mut state = state_with_log_base(sink_base_url);
    let job = accepted(call(&mut state, "v1/runtime-logs", None, 0));
    settle_runtime_log(&mut state, &job, None, NOW);
    let status = runtime_log_forward_status_snapshot(&state, "task-a", NOW);
    assert_eq!(status.failed_count, 1);
    assert_eq!(status.state, "error");
    assert_eq!(status.last_http_status, None);
    let last_error = status.last_error.as_deref().unwrap_or_default();
    assert!(last_error.contains("runtime-log forward failed"));
    assert!(
        !last_error.contains(sink_base_url),
        "runtime-log status must not expose upstream URL"
    );
}

#[test]
fn runtime_log_forward_queue_full_does_not_decrement_existing_queue() {
    let mut state = state_with_log_base("http://127.0.0.1:9");
    for waiting in 0..RUNTIME_LOG_FORWARD_QUEUE_CAPACITY {
        let _ = accepted(call(&mut state, "v1/runtime-logs", None, waiting));
    }
    let refused = call(
        &mut state,
        "v1/runtime-logs",
        None,
        RUNTIME_LOG_FORWARD_QUEUE_CAPACITY,
    );
    assert!(matches!(refused, LogIntake::QueueFull(_)));
    let status = runtime_log_forward_status_snapshot(&state, "task-a", NOW);
    assert_eq!(
        status.queued_count, RUNTIME_LOG_FORWARD_QUEUE_CAPACITY as u64,
        "queue_full must not decrement jobs that were already queued"
    );
    assert_eq!(
        status.accepted_count,
        RUNTIME_LOG_FORWARD_QUEUE_CAPACITY as u64
    );
    assert_eq!(status.failed_count, 1);
    assert!(status
        .last_error
        .as_deref()
        .unwrap_or_default()
        .contains("queue is full"));
}

#[test]
fn runtime_log_forward_rejects_non_upload_proxy_paths() {
    let mut state = state_with_log_base("http://127.0.0.1:1");
    let refused = call(&mut state, "v1/not-runtime-log", None, 0);
    assert!(matches!(refused, LogIntake::UnknownPath(_)));
    let status = runtime_log_forward_status_snapshot(&state, "task-a", NOW);
    assert_eq!(status.accepted_count, 0);
    assert_eq!(status.failed_count, 0);
    assert_eq!(status.state, "idle");
}

#[test]
fn logs_without_a_sink_are_refused() {
    let mut task = test_claimed_task("task-a", PLACE);
    task.runtime_log_base_url = None;
    let mut state = HelperState::new();
    state.claimed_tasks.insert("task-a".to_owned(), task);
    let refused = |state: &mut HelperState, place: &str, task: &str| {
        take_runtime_log(state, place, task, "v1/runtime-logs", None, 0, NOW)
            .err()
            .expect("the log should be refused")
    };
    assert_eq!(
        refused(&mut state, PLACE, "task-a"),
        "claimed task has no runtime_log_base_url"
    );
    assert_eq!(
        refused(&mut state, PLACE, "task-b"),
        "helper has no claimed task for task_id task-b"
    );
    assert_eq!(refused(&mut state, "", "task-a"), "placeId must be digits only");
    assert_eq!(
        refused(&mut state, PLACE, ""),
        "task_id must use [A-Za-z0-9_-] only"
    );
}

/// What the hub's body says, where it can be read.
fn parsed(body: &str) -> Option<HubErrorResponse> {
    let value: serde_json::Value = serde_json::from_str(body).ok()?;
    let field = |name: &str| value.get(name).and_then(|v| v.as_str()).map(str::to_owned);
    Some(HubErrorResponse {
        code: field("code"),
        message: field("message"),
    })
}

#[test]
fn parse_helper_id_conflict_extracts_message() {
    let body = r#"{"code":"helper_id_conflict","message":"helper_id already active"}"#;
    let message = parse_helper_id_conflict(409, None, body, &parsed(body))
        .expect("helper_id_conflict should parse");
    assert_eq!(message, "helper_id already active");
    let body = "helper_id already active";
    let header_message =
        parse_helper_id_conflict(409, Some("helper_id_conflict"), body, &parsed(body))
            .expect("helper_id_conflict header should parse");
    assert_eq!(header_message, "helper_id already active");
    assert!(parse_helper_id_conflict(400, None, "{}", &parsed("{}")).is_none());
}

#[test]
fn conflict_without_a_message_has_a_usual_one() {
    let body = r#"{"code":"helper_id_conflict"}"#;
    assert_eq!(
        parse_helper_id_conflict(409, None, body, &parsed(body)).as_deref(),
        Some("helper_id already active")
    );
    let other = r#"{"code":"other"}"#;
    assert_eq!(parse_helper_id_conflict(409, None, other, &parsed(other)), None);
    assert_eq!(parse_helper_id_conflict(409, None, "?", &parsed("?")), None);
}

#[test]
fn hub_addresses_and_failures_are_spelled_out() {
    assert_eq!(
        hub_endpoint(Some("https://hub/"), "/v1/helpers/claim"),
        Ok("https://hub/v1/helpers/claim".to_owned())
    );
    assert_eq!(
        hub_endpoint(None, "/v1/helpers/claim"),
        Err("hub_base_url is not configured".to_owned())
    );
    assert_eq!(
        hub_failure("/v1/helpers/claim", "500 Internal Server Error", "boom"),
        "hub request /v1/helpers/claim failed with 500 Internal Server Error: boom"
    );
}

#[test]
fn log_forwarding_is_told_with_the_status_of_the_task() {
    let mut state = state_with_log_base("http://127.0.0.1:9");
    let told = helper_task_status_snapshot(&state, "task-a", NOW)
        .runtime_log_forward
        .expect("the forwarding should be told");
    assert_eq!(told.state, "idle");
    assert_eq!(told.accepted_count, 0);
    let job = accepted(call(&mut state, "v1/runtime-logs", None, 0));
    settle_runtime_log(&mut state, &job, Some(204), NOW);
    let told = helper_task_status_snapshot(&state, "task-a", NOW + 7_000_000)
        .runtime_log_forward
        .expect("the forwarding should be told");
    assert_eq!(told.state, "ready");
    assert_eq!(told.accepted_count, 1);
    assert_eq!(told.forwarded_count, 1);
    assert_eq!(told.last_forwarded_age_ms, Some(7));
    assert_eq!(told.last_http_status, Some(204));
}
