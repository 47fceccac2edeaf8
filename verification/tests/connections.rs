use studio_bridge::helper::connections::{
    begin_remote_session, build_active_remote_targets, cleanup_stale_instances,
    drop_connection_of_worker, fail_remote_session, note_remote_connection_activity,
    remote_connection_should_release, remote_connection_should_restart,
    set_remote_connection_connected, set_remote_connection_error, sync_remote_connections,
    sync_remote_connections_as, take_stop_signals,
};
use studio_bridge::helper::hub_loop::{
    accept_claim, apply_claim_answer, apply_claim_failure, apply_heartbeat_answer,
    apply_heartbeat_failure, claim_is_due, mark_hub_claim_ok, mark_hub_reachable, next_hub_request,
    note_registration_refused, record_hub_claim_error, ClaimStep, ClaimedTaskHubPayload,
    ClaimedTaskRoutes, HubRequest, RegisterHelperError,
};
use studio_bridge::helper::launch::{
    connect_failed, connect_timed_out, needs_universe_id, official_server_paths, token_to_keep,
    universe_lookup_failed, universe_lookup_timed_out, universe_lookup_url,
};
use studio_bridge::helper::config::{studio_launch_args_for_claim, ResolvedToken};
use studio_bridge::helper::records::{
    ClaimedTask, HelperState, LaunchProcessRecord, PendingPluginResponse, PluginInstance,
    RemoteConnectionHandle, RemoteConnectionState,
};
use studio_bridge::helper::routing::release_claimed_task;
use studio_bridge::helper::session::task_connection_key;
use studio_bridge::helper::status::{debug_task, helper_status, refresh, HelperIdentity};
use studio_bridge::helper::task_status::{
    heartbeat_task_status, heartbeat_task_statuses, helper_task_status_snapshot,
    queue_remote_task_status_heartbeat,
    remote_connection_state_name,
};
use studio_bridge::helper::timing::{
    INSTANCE_STALE_AFTER, REMOTE_WS_STALE_RELEASE_AFTER, REMOTE_WS_STALE_RESTART_AFTER,
};
use studio_bridge::helper_ws::HelperToServerMessage;
use studio_bridge::table::Table;

const NOW: u128 = 10_000_000_000_000;
const MS: u128 = 1_000_000;

fn test_instance(place_id: &str, task_id: Option<&str>, age_ms: u128) -> PluginInstance {
    PluginInstance {
        place_id: place_id.to_owned(),
        task_id: task_id.map(str::to_owned),
        remote_base_url: "https://example.com".to_owned(),
        studio_pid: Some(123),
        studio_mode: Some("stop".to_owned()),
        studio_mode_observed_at: Some(NOW),
        studio_mode_source: "edit_plugin".to_owned(),
        studio_control_state: "none".to_owned(),
        studio_transition_phase: "idle".to_owned(),
        studio_transition_started_at: None,
        studio_control_observed_at: None,
        edit_runtime_observed_at: Some(NOW),
        edit_runtime_unavailable_reason: None,
        studio_control_last_error: None,
        stop_request_id: 0,
        stop_request_recorded_at: None,
        stop_request_last_polled_at: None,
        stop_request_last_poll_id: None,
        stop_result_phase: None,
        stop_result_error: None,
        stop_result_observed_at: None,
        last_seen_at: NOW - age_ms * MS,
        queue: Vec::new(),
    }
}

fn test_claimed_task(task_id: &str, place_id: &str) -> ClaimedTask {
    ClaimedTask {
        task_id: task_id.to_owned(),
        place_id: place_id.to_owned(),
        universe_id: Some("999".to_owned()),
        mcp_base_url: "https://example.com".to_owned(),
        rojo_base_url: Some("https://example.com".to_owned()),
        runtime_log_base_url: Some("https://example.com".to_owned()),
        claimed_at: NOW,
    }
}

const SECOND: u128 = 1_000_000_000;

fn test_remote_connection_handle(
    state: RemoteConnectionState,
    state_age: u128,
    retrying_age: Option<u128>,
) -> RemoteConnectionHandle {
    RemoteConnectionHandle {
        worker_id: "worker".to_owned(),
        remote_base_url: "https://example.com".to_owned(),
        place_id: "93795519121520".to_owned(),
        task_id: Some("task-a".to_owned()),
        connection_state: state,
        state_changed_at: NOW - state_age,
        retrying_since: retrying_age.map(|age| NOW - age),
        consecutive_failures: 1,
        connection_id: None,
        last_ready_at: None,
        last_server_message_at: None,
    }
}

fn claimed() -> HelperState {
    let mut state = HelperState::new();
    state.claimed_tasks.insert(
        "task-a".to_owned(),
        test_claimed_task("task-a", "93795519121520"),
    );
    state
}

#[test]
fn studio_launch_args_include_place_and_universe_ids() {
    let task = test_claimed_task("task-a", "134795435066737");
    let args = studio_launch_args_for_claim(&task).unwrap();
    assert_eq!(
        args,
        vec![
            "-task",
            "EditPlace",
            "-placeId",
            "134795435066737",
            "-universeId",
            "999"
        ]
    );
}

#[test]
fn studio_launch_args_reject_missing_universe_id() {
    let mut task = test_claimed_task("task-a", "134795435066737");
    task.universe_id = None;
    let error = studio_launch_args_for_claim(&task).unwrap_err();
    assert!(error.contains("without universeId"));
}

#[test]
fn hub_reachable_keeps_claim_error_until_claim_result() {
    let mut state = HelperState::new();
    state.hub_last_error = Some("heartbeat failed".to_owned());
    state.hub_last_claim_error = Some("claim failed".to_owned());
    state.hub_last_ready_at = None;

    mark_hub_reachable(&mut state, NOW);

    assert!(state.hub_last_error.is_none());
    assert_eq!(state.hub_last_claim_error.as_deref(), Some("claim failed"));
    assert!(state.hub_last_ready_at.is_some());

    mark_hub_claim_ok(&mut state, NOW);

    assert!(state.hub_last_claim_error.is_none());
    assert!(state.hub_last_ready_at.is_some());
}

#[test]
fn record_hub_claim_error_keeps_active_task_health_separate() {
    let mut idle_state = HelperState::new();
    record_hub_claim_error(&mut idle_state, "claim failed".to_owned());

    assert_eq!(idle_state.hub_last_error.as_deref(), Some("claim failed"));
    assert_eq!(
        idle_state.hub_last_claim_error.as_deref(),
        Some("claim failed")
    );

    let mut active_state = HelperState::new();
    active_state.claimed_tasks.insert(
        "task-a".to_owned(),
        test_claimed_task("task-a", "134795435066737"),
    );
    record_hub_claim_error(&mut active_state, "claim failed".to_owned());

    assert!(active_state.hub_last_error.is_none());
    assert_eq!(
        active_state.hub_last_claim_error.as_deref(),
        Some("claim failed")
    );
}

#[test]
fn cleanup_stale_instances_keeps_instance_waiting_for_plugin_response() {
    let mut state = HelperState::new();
    state.instances.insert(
        "instance-a".to_owned(),
        test_instance(
            "93795519121520",
            Some("task-a"),
            INSTANCE_STALE_AFTER / MS + 1_000,
        ),
    );
    state.waiting_for_plugin.insert(
        "request-a".to_owned(),
        PendingPluginResponse {
            instance_id: "instance-a".to_owned(),
            tool_name: "RunCode".to_owned(),
        },
    );

    cleanup_stale_instances(&mut state, NOW);

    assert!(state.instances.contains_key("instance-a"));
}

#[test]
fn cleanup_stale_instances_drops_stale_instance_without_pending_response() {
    let mut state = HelperState::new();
    state.instances.insert(
        "instance-a".to_owned(),
        test_instance(
            "93795519121520",
            Some("task-a"),
            INSTANCE_STALE_AFTER / MS + 1_000,
        ),
    );

    cleanup_stale_instances(&mut state, NOW);

    assert!(!state.instances.contains_key("instance-a"));
}

#[test]
fn immediate_task_status_update_queues_remote_snapshot_and_hub_notify() {
    let mut state = claimed();
    let mut instance = test_instance("93795519121520", Some("task-a"), 0);
    instance.studio_mode = Some("start_play".to_owned());
    instance.studio_mode_source = "play_control".to_owned();
    instance.studio_control_state = "ready".to_owned();
    instance.studio_transition_phase = "running".to_owned();
    instance.studio_control_observed_at = Some(NOW);
    state.instances.insert("instance-a".to_owned(), instance);
    let mut connection =
        test_remote_connection_handle(RemoteConnectionState::Connected, 0, None);
    connection.remote_base_url = "http://127.0.0.1:44880".to_owned();
    connection.consecutive_failures = 0;
    connection.connection_id = Some("connection-a".to_owned());
    connection.last_ready_at = Some(NOW);
    connection.last_server_message_at = Some(NOW);
    state
        .remote_connections
        .insert(task_connection_key("task-a"), connection);

    let queued = queue_remote_task_status_heartbeat(&state, "h_test", "task-a", NOW)
        .expect("heartbeat frame should be queued");
    assert_eq!(queued.connection_key, task_connection_key("task-a"));
    match queued.message {
        HelperToServerMessage::Heartbeat {
            helper_id,
            task_id,
            plugin_instance_count,
            task_status,
            ..
        } => {
            assert_eq!(helper_id, "h_test");
            assert_eq!(task_id.as_deref(), Some("task-a"));
            assert_eq!(plugin_instance_count, 1);
            let status = task_status.expect("the status of the task should be told");
            assert_eq!(status.studio_mode.as_deref(), Some("start_play"));
            assert_eq!(status.studio_mode_source.as_deref(), Some("play_control"));
            assert_eq!(status.studio_control_state.as_deref(), Some("ready"));
            assert_eq!(status.studio_transition_phase.as_deref(), Some("running"));
            assert_eq!(status.edit_runtime_state.as_deref(), Some("ready"));
        }
        _ => panic!("expected text heartbeat frame"),
    }
}

#[test]
fn task_status_update_notifies_hub_without_remote_connection() {
    let state = claimed();
    assert!(queue_remote_task_status_heartbeat(&state, "h_test", "task-a", NOW).is_none());
}

#[test]
fn remote_connection_watchdog_restarts_stale_retrying_connection() {
    let fresh_retrying = test_remote_connection_handle(
        RemoteConnectionState::Retrying,
        REMOTE_WS_STALE_RESTART_AFTER - SECOND,
        Some(SECOND),
    );
    assert!(!remote_connection_should_restart(&fresh_retrying, NOW));
    assert!(!remote_connection_should_release(&fresh_retrying, NOW));

    let stale_retrying = test_remote_connection_handle(
        RemoteConnectionState::Retrying,
        REMOTE_WS_STALE_RESTART_AFTER + SECOND,
        Some(10 * SECOND),
    );
    assert!(remote_connection_should_restart(&stale_retrying, NOW));
    assert!(!remote_connection_should_release(&stale_retrying, NOW));
}

#[test]
fn remote_connection_watchdog_restarts_stale_connecting_connection() {
    let stale_connecting = test_remote_connection_handle(
        RemoteConnectionState::Connecting,
        REMOTE_WS_STALE_RESTART_AFTER + SECOND,
        Some(10 * SECOND),
    );
    assert!(remote_connection_should_restart(&stale_connecting, NOW));
    assert!(!remote_connection_should_release(&stale_connecting, NOW));
}

#[test]
fn remote_connection_watchdog_keeps_connected_connection_without_server_chatter() {
    let mut connected = test_remote_connection_handle(RemoteConnectionState::Connected, 0, None);
    connected.last_server_message_at = Some(NOW - 60 * SECOND);
    assert!(!remote_connection_should_restart(&connected, NOW));
    assert!(!remote_connection_should_release(&connected, NOW));
}

#[test]
fn remote_connection_watchdog_releases_long_unrecovered_retrying_connection() {
    let stale_retrying = test_remote_connection_handle(
        RemoteConnectionState::Retrying,
        REMOTE_WS_STALE_RESTART_AFTER + SECOND,
        Some(REMOTE_WS_STALE_RELEASE_AFTER + SECOND),
    );
    assert!(remote_connection_should_restart(&stale_retrying, NOW));
    assert!(remote_connection_should_release(&stale_retrying, NOW));
}

#[test]
fn release_claimed_task_stops_remote_connection_worker() {
    let mut state = claimed();
    state.remote_connections.insert(
        task_connection_key("task-a"),
        test_remote_connection_handle(RemoteConnectionState::Retrying, 0, Some(0)),
    );
    let pending = release_claimed_task(&mut state, "task-a", false);
    assert!(pending.is_none());
    assert!(!state.claimed_tasks.contains_key("task-a"));
    assert!(!state
        .remote_connections
        .contains_key(&task_connection_key("task-a")));
    assert_eq!(take_stop_signals(&mut state), vec![task_connection_key("task-a")]);
    assert!(take_stop_signals(&mut state).is_empty());
}

#[test]
fn remote_connection_state_name_reports_error_state() {
    let error_connection = test_remote_connection_handle(RemoteConnectionState::Error, 0, None);
    assert_eq!(remote_connection_state_name(Some(&error_connection)), "error");
    assert_eq!(remote_connection_state_name(None), "disconnected");
}

#[test]
fn upkeep_connects_and_prunes() {
    let mut state = claimed();
    state.remote_connections.insert(
        task_connection_key("task-x"),
        test_remote_connection_handle(RemoteConnectionState::Connected, 0, None),
    );
    sync_remote_connections(&mut state, NOW);
    assert!(!state
        .remote_connections
        .contains_key(&task_connection_key("task-x")));
    let connection = state
        .remote_connections
        .get(&task_connection_key("task-a"))
        .expect("every task should have a connection");
    assert_eq!(connection.worker_id.len(), 36);
    assert_eq!(remote_connection_state_name(Some(connection)), "connecting");
    let worker = connection.worker_id.clone();
    sync_remote_connections(&mut state, NOW + SECOND);
    assert_eq!(
        state
            .remote_connections
            .get(&task_connection_key("task-a"))
            .unwrap()
            .worker_id,
        worker,
        "a connection that is coming up is left alone"
    );
    let targets = build_active_remote_targets(&state);
    assert_eq!(targets.len(), 1);
    assert_eq!(targets[0].connection_key, "task:task-a");
    assert_eq!(targets[0].remote_base_url, "https://example.com");
}

#[test]
fn upkeep_restarts_stale_and_releases_hopeless_connections() {
    let key = task_connection_key("task-a");
    let mut workers: Table<String> = Table::new();
    workers.insert(key.clone(), "fresh".to_owned());

    let mut state = claimed();
    state.remote_connections.insert(
        key.clone(),
        test_remote_connection_handle(
            RemoteConnectionState::Retrying,
            REMOTE_WS_STALE_RESTART_AFTER,
            Some(40 * SECOND),
        ),
    );
    sync_remote_connections_as(&mut state, &workers, NOW);
    let connection = state.remote_connections.get(&key).unwrap();
    assert_eq!(connection.worker_id, "fresh");
    assert_eq!(connection.retrying_since, Some(NOW - 40 * SECOND));
    assert_eq!(
        state.last_remote_errors.get(&key).map(String::as_str),
        Some("remote websocket retry watchdog restarted stale connection")
    );

    let mut state = claimed();
    state.remote_connections.insert(
        key.clone(),
        test_remote_connection_handle(
            RemoteConnectionState::Retrying,
            0,
            Some(REMOTE_WS_STALE_RELEASE_AFTER),
        ),
    );
    sync_remote_connections_as(&mut state, &workers, NOW);
    assert!(state.claimed_tasks.is_empty());
    assert!(state.remote_connections.is_empty());
}

#[test]
fn upkeep_stops_the_workers_of_dropped_and_replaced_connections() {
    let tasks = ["task-good", "task-stale", "task-hopeless"];
    let mut state = HelperState::new();
    let mut workers: Table<String> = Table::new();
    for task in tasks {
        state
            .claimed_tasks
            .insert(task.to_owned(), test_claimed_task(task, "93795519121520"));
        workers.insert(task_connection_key(task), format!("new-{task}"));
    }
    for (task, connection_state, state_age, retrying_age) in [
        ("task-good", RemoteConnectionState::Connected, 0, None),
        (
            "task-stale",
            RemoteConnectionState::Retrying,
            REMOTE_WS_STALE_RESTART_AFTER,
            Some(40 * SECOND),
        ),
        (
            "task-hopeless",
            RemoteConnectionState::Retrying,
            0,
            Some(REMOTE_WS_STALE_RELEASE_AFTER),
        ),
        ("task-gone", RemoteConnectionState::Connected, 0, None),
    ] {
        let mut connection =
            test_remote_connection_handle(connection_state, state_age, retrying_age);
        connection.worker_id = format!("old-{task}");
        state
            .remote_connections
            .insert(task_connection_key(task), connection);
    }
    sync_remote_connections_as(&mut state, &workers, NOW);
    assert_eq!(
        take_stop_signals(&mut state),
        vec!["task:task-gone", "task:task-hopeless", "task:task-stale"]
    );
    let good = state
        .remote_connections
        .get(&task_connection_key("task-good"))
        .unwrap();
    assert_eq!(good.worker_id, "old-task-good");
    let stale = state
        .remote_connections
        .get(&task_connection_key("task-stale"))
        .unwrap();
    assert_eq!(stale.worker_id, "new-task-stale");
    assert_eq!(stale.consecutive_failures, 1);
    sync_remote_connections_as(&mut state, &workers, NOW);
    assert!(take_stop_signals(&mut state).is_empty());
}

#[test]
fn restarted_connection_is_stopped_even_under_the_same_worker_identifier() {
    let key = task_connection_key("task-a");
    let mut state = claimed();
    let mut connection = test_remote_connection_handle(
        RemoteConnectionState::Connecting,
        REMOTE_WS_STALE_RESTART_AFTER,
        Some(REMOTE_WS_STALE_RESTART_AFTER),
    );
    connection.worker_id = "same".to_owned();
    state.remote_connections.insert(key.clone(), connection);
    let mut workers: Table<String> = Table::new();
    workers.insert(key.clone(), "same".to_owned());
    sync_remote_connections_as(&mut state, &workers, NOW);
    assert_eq!(state.remote_connections.get(&key).unwrap().worker_id, "same");
    assert_eq!(take_stop_signals(&mut state), vec![key]);
}

#[test]
fn stop_under_way_is_told_whichever_plugin_was_seen_last() {
    let mut state = claimed();
    let mut stopping = test_instance("93795519121520", Some("task-a"), 5);
    stopping.studio_control_state = "stopping".to_owned();
    stopping.studio_transition_phase = "stopping_requested".to_owned();
    stopping.studio_control_observed_at = Some(NOW);
    stopping.stop_request_id = 3;
    stopping.studio_mode = Some("start_play".to_owned());
    stopping.studio_mode_source = "play_control".to_owned();
    stopping.studio_control_last_error = Some("old".to_owned());
    state.instances.insert("instance-a".to_owned(), stopping);
    state.instances.insert(
        "edit-instance".to_owned(),
        test_instance("93795519121520", Some("task-a"), 0),
    );
    let status = helper_task_status_snapshot(&state, "task-a", NOW);
    assert_eq!(status.studio_session_state.as_deref(), Some("stopping"));
    assert_eq!(status.studio_control_state.as_deref(), Some("stopping"));
    assert_eq!(
        status.studio_transition_phase.as_deref(),
        Some("stopping_requested")
    );
    assert_eq!(status.active_stop_request_id, Some(3));
    assert_eq!(status.studio_mode.as_deref(), Some("stop"));
    assert_eq!(status.studio_mode_source.as_deref(), Some("edit_plugin"));
    assert!(status.studio_control_last_error.is_none());
    let reported = heartbeat_task_statuses(&state, NOW);
    assert_eq!(reported[0].studio_control_state, "stopping");
    assert_eq!(reported[0].studio_transition_phase, "stopping_requested");
}

#[test]
fn worker_takes_down_how_its_connection_fares() {
    let key = task_connection_key("task-a");
    let mut state = claimed();
    sync_remote_connections(&mut state, NOW);
    let worker = state.remote_connections.get(&key).unwrap().worker_id.clone();
    assert!(begin_remote_session(&mut state, &key, &worker, NOW));
    fail_remote_session(&mut state, &key, &worker, "refused", NOW);
    {
        let connection = state.remote_connections.get(&key).unwrap();
        assert_eq!(remote_connection_state_name(Some(connection)), "retrying");
        assert_eq!(connection.consecutive_failures, 1);
        assert_eq!(connection.retrying_since, Some(NOW));
    }
    set_remote_connection_connected(&mut state, &key, &worker, "c1", NOW + SECOND);
    note_remote_connection_activity(&mut state, &key, &worker, NOW + 2 * SECOND);
    {
        let connection = state.remote_connections.get(&key).unwrap();
        assert_eq!(connection.connection_id.as_deref(), Some("c1"));
        assert_eq!(connection.consecutive_failures, 0);
        assert_eq!(connection.retrying_since, None);
        assert_eq!(connection.last_server_message_at, Some(NOW + 2 * SECOND));
    }
    set_remote_connection_error(&mut state, &key, "closed", NOW + 3 * SECOND);
    assert_eq!(
        state.last_remote_errors.get(&key).map(String::as_str),
        Some("closed")
    );
    drop_connection_of_worker(&mut state, &key, "another");
    assert!(state.remote_connections.contains_key(&key));
    drop_connection_of_worker(&mut state, &key, &worker);
    assert!(state.remote_connections.is_empty());
}

fn hub_payload(universe_id: Option<&str>, game_id: Option<&str>) -> ClaimedTaskHubPayload {
    ClaimedTaskHubPayload {
        task_id: "t_example".to_owned(),
        place_id: "93795519121520".to_owned(),
        universe_id: universe_id.map(str::to_owned),
        game_id: game_id.map(str::to_owned),
        routes: ClaimedTaskRoutes {
            rojo_base_url: None,
            mcp_base_url: Some("https://mcp".to_owned()),
            runtime_log_base_url: None,
        },
    }
}

#[test]
fn claim_is_taken_from_the_hub() {
    let mut state = HelperState::new();
    assert!(claim_is_due(&mut state, 1));
    let task = match apply_claim_answer(
        &mut state,
        Some(hub_payload(Some("9838206573"), Some("1"))),
        true,
        NOW,
    ) {
        ClaimStep::Accept(task) => task,
        _ => panic!("without a launch the task is taken as it is"),
    };
    assert_eq!(task.universe_id.as_deref(), Some("9838206573"));
    accept_claim(&mut state, task, None, NOW);
    assert!(state.claimed_tasks.contains_key("t_example"));
    assert!(!claim_is_due(&mut state, 1));
    assert!(claim_is_due(&mut state, 2));
    match apply_claim_answer(&mut state, None, true, NOW) {
        ClaimStep::Done => {}
        _ => panic!("there was no task"),
    }
}

#[test]
fn legacy_game_id_stands_for_the_universe() {
    let mut state = HelperState::new();
    match apply_claim_answer(&mut state, Some(hub_payload(None, Some("77"))), false, NOW) {
        ClaimStep::Launch(task) => assert_eq!(task.universe_id.as_deref(), Some("77")),
        _ => panic!("the universe is known"),
    }
    match apply_claim_answer(&mut state, Some(hub_payload(None, None)), false, NOW) {
        ClaimStep::ResolveUniverse(task) => assert!(needs_universe_id(&task)),
        _ => panic!("the universe is to be looked up"),
    }
    let mut task = test_claimed_task("t", "1");
    assert!(!needs_universe_id(&task));
    task.universe_id = Some("  ".to_owned());
    assert!(needs_universe_id(&task));
}

#[test]
fn hub_is_told_of_the_tasks_and_answers_with_releases() {
    let mut state = claimed();
    match next_hub_request(&state, false, NOW) {
        HubRequest::Register => {}
        _ => panic!("an unknown helper registers first"),
    }
    match next_hub_request(&state, true, NOW) {
        HubRequest::Heartbeat {
            active_task_ids,
            active_tasks,
        } => {
            assert_eq!(active_task_ids, vec!["task-a".to_owned()]);
            assert_eq!(active_tasks.len(), 1);
            assert_eq!(active_tasks[0].remote_state, "disconnected");
        }
        _ => panic!("a known helper reports"),
    }
    state.launch_processes.insert(
        "task-a".to_owned(),
        LaunchProcessRecord {
            task_id: "task-a".to_owned(),
            place_id: "93795519121520".to_owned(),
            universe_id: None,
            studio_pid: 5,
            launched_by_helper: true,
            has_child: true,
        },
    );
    let pending = apply_heartbeat_answer(&mut state, true, &vec!["task-a".to_owned()], NOW);
    assert_eq!(pending.len(), 1);
    assert!(state.claimed_tasks.is_empty());
    assert!(apply_heartbeat_failure(&mut state, "down"));
    assert_eq!(state.hub_last_error.as_deref(), Some("down"));
    assert!(
        !apply_heartbeat_failure(&mut state, "helper not found"),
        "a hub that does not know the helper is registered with again"
    );
    apply_claim_failure(&mut state, "no claim");
    assert_eq!(state.hub_last_claim_error.as_deref(), Some("no claim"));
    note_registration_refused(
        &mut state,
        &RegisterHelperError::HelperIdConflict("taken".to_owned()),
    );
    assert_eq!(
        state.hub_last_error.as_deref(),
        Some("helper_id_conflict: taken")
    );
}

#[test]
fn status_tells_tasks_places_and_plugins() {
    let mut state = claimed();
    state.instances.insert(
        "instance-a".to_owned(),
        test_instance("93795519121520", Some("task-a"), 7),
    );
    refresh(&mut state, &Vec::new(), NOW);
    let who = HelperIdentity {
        port: 44750,
        helper_id: "h_test".to_owned(),
        user_name: "user".to_owned(),
        capacity: 2,
        hub_base_url: Some("https://hub".to_owned()),
    };
    let status = helper_status(&state, &who, NOW);
    assert_eq!(status.helper_id, "h_test");
    assert_eq!(status.claimed_task_count, 1);
    assert_eq!(status.active_instances, 1);
    assert_eq!(status.active_places, vec!["93795519121520".to_owned()]);
    assert_eq!(status.claimed_tasks.len(), 1);
    assert_eq!(status.instances.len(), 1);
    assert_eq!(status.place_statuses.len(), 1);
    let told = debug_task(&state, "task-a", 44750, NOW)
        .ok_or("missing")
        .ok()
        .expect("the task is held");
    assert_eq!(told.task_status.task_id, "task-a");
    assert_eq!(told.instances.len(), 1);
    assert!(told.launch_process.is_none());
    assert!(debug_task(&state, "task-b", 44750, NOW).is_none());
    let statuses = heartbeat_task_statuses(&state, NOW);
    assert_eq!(statuses.len(), 1);
    let one = heartbeat_task_status(&state, "task-a", NOW);
    assert_eq!(one.studio_session_state, "stop");
    assert_eq!(one.edit_runtime_state, "ready");
    assert_eq!(one.official_mcp_adapter_state, "not_started");
}

#[test]
fn universe_is_looked_up_by_place() {
    assert_eq!(
        universe_lookup_url(" 12 "),
        Ok("https://apis.roblox.com/universes/v1/places/12/universe".to_owned())
    );
    assert!(universe_lookup_url("1a").is_err());
    assert_eq!(
        universe_lookup_timed_out("12"),
        "timed out resolving universeId for placeId 12 after 10s"
    );
    assert_eq!(
        universe_lookup_failed("12", "404 Not Found", " none "),
        "failed to resolve universeId for placeId 12: HTTP 404 Not Found: none"
    );
}

#[test]
fn connection_failures_are_spelled_out() {
    assert_eq!(connect_timed_out(), "websocket connect timed out after 15s");
    assert_eq!(connect_failed(None), "websocket connect failed");
    assert_eq!(connect_failed(Some("refused")), "refused");
    let token = ResolvedToken {
        value: "b".to_owned(),
        source: "file".to_owned(),
    };
    assert!(token_to_keep(&token, "b").is_none());
    assert_eq!(token_to_keep(&token, "a").unwrap().source, "file");
}

#[test]
fn start_script_names_the_tool_server() {
    assert_eq!(
        official_server_paths("@echo off\n\"C:\\R\\StudioMCP.exe\" --stdio \"D:\\x.exe\""),
        vec!["C:\\R\\StudioMCP.exe".to_owned()]
    );
    assert_eq!(official_server_paths(""), Vec::<String>::new());
}

#[test]
fn helper_that_is_turned_away_holds_no_task() {
    let mut state = HelperState::new();
    for task in ["task-a", "task-b"] {
        state
            .claimed_tasks
            .insert(task.to_owned(), test_claimed_task(task, "123"));
    }
    let asked_back = vec!["task-a".to_owned(), "task-unknown".to_owned()];
    apply_heartbeat_answer(&mut state, true, &asked_back, NOW);
    assert!(!state.claimed_tasks.contains_key("task-a"));
    assert!(state.claimed_tasks.contains_key("task-b"));
    apply_heartbeat_answer(&mut state, false, &Vec::new(), NOW);
    assert!(state.claimed_tasks.is_empty());
    assert_eq!(
        state.hub_last_error.as_deref(),
        Some("hub rejected helper heartbeat")
    );
}
