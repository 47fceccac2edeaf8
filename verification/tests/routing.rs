use studio_bridge::helper::connections::validate_remote_ready_ack;
use studio_bridge::helper::forward::{
    resolve_rojo_forward_target_base_url, rojo_config, rojo_forward_socket_target,
    rojo_forward_target,
};
use studio_bridge::helper::records::{
    ClaimedTask, HelperState, LaunchProcessRecord, PluginInstance,
};
use studio_bridge::helper::routing::{
    bind_launch_process_to_pid, launch_process_is_active_for_status, reconcile_launch_processes,
    release_all_claimed_tasks, release_claimed_task, release_listed_tasks,
    resolve_claimed_task_for_plugin_request, resolve_claimed_task_for_request,
    resolve_plugin_routing_decision, select_active_stop_request_for_route, select_claimed_task,
    select_claimed_task_for_pid, select_instance_for_place, select_instance_for_route,
    select_known_runtime_session_for_route, select_runtime_actuator_for_route,
    task_active_studio_pid, task_instance_pids,
};
use studio_bridge::helper::session::{set_edit_runtime_unavailable, task_connection_key};
use studio_bridge::helper::timing::STUDIO_CONTROL_HEARTBEAT_STALE_AFTER;
use studio_bridge::table::Table;

const NOW: u128 = 10_000_000_000_000;
const MS: u128 = 1_000_000;

fn test_instance(place_id: &str, task_id: Option<&str>, age_ms: u128) -> PluginInstance {
    PluginInstance {
        place_id: place_id.to_owned(),
        task_id: task_id.map(str::to_owned),
        remote_base_url: "https://example.com".to_owned(),
        studio_pid: Some(123),
        studio_mode: Some("stop".to_owned()),
        studio_mode_observed_at: Some(NOW),
        studio_mode_source: "edit_plugin".to_owned(),
        studio_control_state: "none".to_owned(),
        studio_transition_phase: "idle".to_owned(),
        studio_transition_started_at: None,
        studio_control_observed_at: None,
        edit_runtime_observed_at: Some(NOW),
        edit_runtime_unavailable_reason: None,
        studio_control_last_error: None,
        stop_request_id: 0,
        stop_request_recorded_at: None,
        stop_request_last_polled_at: None,
        stop_request_last_poll_id: None,
        stop_result_phase: None,
        stop_result_error: None,
        stop_result_observed_at: None,
        last_seen_at: NOW - age_ms * MS,
        queue: Vec::new(),
    }
}

fn test_claimed_task(task_id: &str, place_id: &str) -> ClaimedTask {
    ClaimedTask {
        task_id: task_id.to_owned(),
        place_id: place_id.to_owned(),
        universe_id: Some("999".to_owned()),
        mcp_base_url: "https://example.com".to_owned(),
        rojo_base_url: Some("https://example.com".to_owned()),
        runtime_log_base_url: Some("https://example.com".to_owned()),
        claimed_at: NOW,
    }
}

fn test_launch(task_id: &str, studio_pid: u32, launched_by_helper: bool) -> LaunchProcessRecord {
    LaunchProcessRecord {
        task_id: task_id.to_owned(),
        place_id: "93795519121520".to_owned(),
        universe_id: Some("999".to_owned()),
        studio_pid,
        launched_by_helper,
        has_child: false,
    }
}

fn state_with_tasks(task_ids: &[&str]) -> HelperState {
    let mut state = HelperState::new();
    for id in task_ids {
        state
            .claimed_tasks
            .insert((*id).to_owned(), test_claimed_task(id, "93795519121520"));
    }
    state
}

#[test]
fn select_instance_for_route_uses_full_identity() {
    let mut instances = Table::new();
    instances.insert(
        "older".to_owned(),
        test_instance("93795519121520", Some("t1"), 50),
    );
    instances.insert(
        "newer".to_owned(),
        test_instance("93795519121520", Some("t1"), 5),
    );

    let selected = select_instance_for_route("93795519121520", Some("t1"), &instances);
    assert_eq!(selected.as_deref(), Some("newer"));

    let missing = select_instance_for_route("93795519121520", Some("missing"), &instances);
    assert!(
        missing.is_none(),
        "unknown task_id should not fall back by place"
    );
}

#[test]
fn place_selection_takes_the_newest_plugin() {
    let mut instances = Table::new();
    instances.insert("b".to_owned(), test_instance("1", Some("t1"), 5));
    instances.insert("a".to_owned(), test_instance("1", Some("t2"), 9));
    instances.insert("c".to_owned(), test_instance("2", Some("t3"), 0));
    assert_eq!(
        select_instance_for_place("1", &instances).as_deref(),
        Some("b")
    );
    assert_eq!(select_instance_for_place("3", &instances), None);
}

#[test]
fn resolve_plugin_routing_decision_allows_explicit_task_hint() {
    let state = state_with_tasks(&["task_a"]);
    let decision =
        resolve_plugin_routing_decision(&state, "93795519121520", Some("task_a"), Some(999))
            .ok()
            .expect("explicit task hint should resolve to managed task");
    assert_eq!(decision.task_id, "task_a");
}

#[test]
fn resolve_plugin_routing_decision_accepts_helper_launched_pid() {
    let mut state = state_with_tasks(&["task_a"]);
    state
        .launch_processes
        .insert("task_a".to_owned(), test_launch("task_a", 222, true));
    let decision = resolve_plugin_routing_decision(&state, "93795519121520", None, Some(222))
        .ok()
        .expect("helper-launched Studio should stay managed");
    assert_eq!(decision.task_id, "task_a");
}

#[test]
fn resolve_claimed_task_for_request_prefers_pid_binding() {
    let mut state = state_with_tasks(&["task_a", "task_b"]);
    state
        .launch_processes
        .insert("task_a".to_owned(), test_launch("task_a", 111, true));
    state
        .launch_processes
        .insert("task_b".to_owned(), test_launch("task_b", 222, true));

    let selected = resolve_claimed_task_for_request(&state, "93795519121520", None, Some(222))
        .ok()
        .expect("pid-bound task should resolve");
    assert_eq!(selected.task_id, "task_b");
}

#[test]
fn resolve_claimed_task_for_request_requires_identity_without_pid_binding() {
    let state = state_with_tasks(&["task_a"]);
    let error = match resolve_claimed_task_for_request(&state, "93795519121520", None, Some(999)) {
        Ok(_) => panic!("expected unbound Studio pid without explicit identity to fail"),
        Err(error) => error,
    };
    assert!(
        error.contains("task_id is required unless the Studio pid was launched by helper")
    );
}

#[test]
fn resolve_claimed_task_for_plugin_request_accepts_unique_place_binding() {
    let state = state_with_tasks(&["task_a"]);
    let selected =
        resolve_claimed_task_for_plugin_request(&state, "93795519121520", None, Some(999))
            .ok()
            .expect("unique claimed task for place should resolve without plugin task hint");
    assert_eq!(selected.task_id, "task_a");
}

#[test]
fn resolve_claimed_task_for_plugin_request_accepts_task_hint_without_extra_fields() {
    let state = state_with_tasks(&["task_a"]);
    let selected = resolve_claimed_task_for_plugin_request(
        &state,
        "93795519121520",
        Some("task_a"),
        Some(999),
    )
    .ok()
    .expect("task hint should resolve with task_id only");
    assert_eq!(selected.task_id, "task_a");
}

#[test]
fn resolve_claimed_task_for_plugin_request_rejects_ambiguous_place_binding() {
    let state = state_with_tasks(&["task_a", "task_b"]);
    let error =
        match resolve_claimed_task_for_plugin_request(&state, "93795519121520", None, Some(999)) {
            Ok(_) => panic!(
                "expected ambiguous place binding without helper pid or explicit task to fail"
            ),
            Err(error) => error,
        };
    assert!(error.contains("multiple claimed tasks found for place_id 93795519121520"));
}

#[test]
fn task_scoped_rojo_forward_resolves_ambiguous_place_binding() {
    let state = state_with_tasks(&["task_a", "task_b"]);
    let selected = select_claimed_task(&state, "93795519121520", Some("task_b"))
        .ok()
        .expect("task-scoped Rojo forward should not depend on place uniqueness");
    assert_eq!(selected.task_id, "task_b");
}

#[test]
fn refused_routes_say_why() {
    let state = state_with_tasks(&["task_a"]);
    let refused = |place: &str, task: Option<&str>| match select_claimed_task(&state, place, task) {
        Ok(_) => panic!("the route should be refused"),
        Err(error) => error,
    };
    assert_eq!(
        refused("93795519121520", Some("task_b")),
        "helper has no claimed task for task_id task_b"
    );
    assert_eq!(
        refused("1", Some("task_a")),
        "task_id task_a does not match place_id 1"
    );
    assert_eq!(
        refused("1", None),
        "helper has no claimed task for place_id 1; wait for hub claim first"
    );
}

#[test]
fn pid_of_another_place_is_not_routed() {
    let mut state = state_with_tasks(&["task_a"]);
    state
        .launch_processes
        .insert("task_a".to_owned(), test_launch("task_a", 222, true));
    assert!(select_claimed_task_for_pid(&state, 222, "1").is_none());
    assert!(select_claimed_task_for_pid(&state, 223, "93795519121520").is_none());
    assert!(select_claimed_task_for_pid(&state, 222, "93795519121520").is_some());
}

#[test]
fn bind_launch_process_preserves_helper_launch_ownership() {
    let mut state = HelperState::new();
    let claimed_task = test_claimed_task("task_a", "93795519121520");
    state
        .launch_processes
        .insert("task_a".to_owned(), test_launch("task_a", 111, true));

    bind_launch_process_to_pid(&mut state, &claimed_task, 222)
        .expect("plugin registration should update pid binding");

    let launch = state
        .launch_processes
        .get("task_a")
        .expect("launch process should stay tracked");
    assert_eq!(launch.studio_pid, 222);
    assert!(launch.launched_by_helper);
}

#[test]
fn release_claimed_task_cleans_exact_route_state() {
    let mut state = state_with_tasks(&["task_a"]);
    state.instances.insert(
        "instance_a".to_owned(),
        test_instance("93795519121520", Some("task_a"), 5),
    );
    state
        .launch_processes
        .insert("task_a".to_owned(), test_launch("task_a", 111, false));
    state
        .last_remote_errors
        .insert(task_connection_key("task_a"), "boom".to_owned());

    let pending_termination = release_claimed_task(&mut state, "task_a", false);

    assert!(state.claimed_tasks.is_empty());
    assert!(state.instances.is_empty());
    assert!(state.launch_processes.is_empty());
    assert!(state.last_remote_errors.is_empty());
    assert!(pending_termination.is_none());
}

#[test]
fn release_leaves_other_tasks_alone() {
    let mut state = state_with_tasks(&["task_a", "task_b"]);
    state.instances.insert(
        "instance_b".to_owned(),
        test_instance("93795519121520", Some("task_b"), 5),
    );
    state
        .last_remote_errors
        .insert(task_connection_key("task_b"), "boom".to_owned());
    let mut owned = test_launch("task_a", 111, true);
    owned.has_child = true;
    state.launch_processes.insert("task_a".to_owned(), owned);

    let pending = release_claimed_task(&mut state, "task_a", true)
        .expect("a Studio that the helper launched is to be terminated");
    assert_eq!(pending.task_id, "task_a");
    assert_eq!(pending.studio_pid, 111);
    assert!(release_claimed_task(&mut state, "task_a", true).is_none());
    assert!(state.claimed_tasks.contains_key("task_b"));
    assert!(state.instances.contains_key("instance_b"));
    assert!(state
        .last_remote_errors
        .contains_key(&task_connection_key("task_b")));
}

#[test]
fn several_tasks_are_released_together() {
    let mut state = state_with_tasks(&["task_a", "task_b", "task_c"]);
    for id in ["task_a", "task_b"] {
        let mut owned = test_launch(id, 7, true);
        owned.has_child = true;
        state.launch_processes.insert(id.to_owned(), owned);
    }
    let pending = release_listed_tasks(
        &mut state,
        &vec!["task_b".to_owned(), "task_x".to_owned(), "task_b".to_owned()],
        true,
    );
    assert_eq!(pending.len(), 1);
    assert_eq!(pending[0].task_id, "task_b");
    assert_eq!(state.claimed_tasks.len(), 2);
    let pending = release_all_claimed_tasks(&mut state, true);
    assert_eq!(pending.len(), 1);
    assert_eq!(pending[0].task_id, "task_a");
    assert!(state.claimed_tasks.is_empty());
}

#[test]
fn validate_remote_ready_ack_checks_full_route_identity() {
    validate_remote_ready_ack(
        "93795519121520",
        Some("t_example"),
        "93795519121520",
        Some("t_example"),
    )
    .expect("exact ready ack should pass");

    let missing_task =
        validate_remote_ready_ack("93795519121520", Some("t_example"), "93795519121520", None)
            .expect_err("missing task identity should fail");
    assert!(missing_task.contains("remote MCP ready ack task_id mismatch"));

    let wrong_task = validate_remote_ready_ack(
        "93795519121520",
        Some("t_example"),
        "93795519121520",
        Some("t_other"),
    )
    .expect_err("task mismatch should fail");
    assert!(wrong_task.contains("remote MCP ready ack task_id mismatch"));

    let wrong_place = validate_remote_ready_ack(
        "93795519121520",
        Some("t_example"),
        "111",
        Some("t_example"),
    )
    .expect_err("place mismatch should fail");
    assert!(wrong_place.contains("remote MCP ready ack place_id mismatch"));
}

#[test]
fn active_stop_request_selection_reuses_stopping_instance_without_fresh_control() {
    let mut instances = Table::new();
    let mut stopping_instance = test_instance("93795519121520", Some("task-a"), 0);
    stopping_instance.studio_control_state = "stopping".to_owned();
    stopping_instance.studio_transition_phase = "stopping_requested".to_owned();
    stopping_instance.studio_control_observed_at = None;
    stopping_instance.stop_request_id = 7;
    instances.insert("stopping-instance".to_owned(), stopping_instance);

    let selected =
        select_active_stop_request_for_route("93795519121520", Some("task-a"), &instances);

    assert_eq!(selected, Some(("stopping-instance".to_owned(), 7)));
    assert!(
        select_runtime_actuator_for_route("93795519121520", Some("task-a"), &instances, NOW)
            .is_none()
    );
}

#[test]
fn known_runtime_session_selection_blocks_unsafe_edit_stop_fallback() {
    let mut instances = Table::new();
    let mut runtime_instance = test_instance("93795519121520", Some("task-a"), 0);
    runtime_instance.studio_control_state = "ready".to_owned();
    runtime_instance.studio_transition_phase = "running".to_owned();
    runtime_instance.studio_control_observed_at =
        Some(NOW - STUDIO_CONTROL_HEARTBEAT_STALE_AFTER - MS);
    set_edit_runtime_unavailable(&mut runtime_instance, "runtime");
    instances.insert("runtime-instance".to_owned(), runtime_instance);

    assert!(
        select_runtime_actuator_for_route("93795519121520", Some("task-a"), &instances, NOW)
            .is_none()
    );
    assert_eq!(
        select_known_runtime_session_for_route("93795519121520", Some("task-a"), &instances, NOW),
        Some("runtime-instance".to_owned())
    );
}

#[test]
fn launch_failed_session_selection_blocks_unsafe_edit_stop_fallback() {
    let mut instances = Table::new();
    let mut launch_failed_instance = test_instance("93795519121520", Some("task-a"), 0);
    launch_failed_instance.studio_control_state = "ready".to_owned();
    launch_failed_instance.studio_transition_phase = "idle".to_owned();
    launch_failed_instance.studio_control_observed_at =
        Some(NOW - STUDIO_CONTROL_HEARTBEAT_STALE_AFTER - MS);
    set_edit_runtime_unavailable(&mut launch_failed_instance, "launch_failed");
    instances.insert("launch-failed-instance".to_owned(), launch_failed_instance);

    assert!(
        select_runtime_actuator_for_route("93795519121520", Some("task-a"), &instances, NOW)
            .is_none()
    );
    assert_eq!(
        select_known_runtime_session_for_route("93795519121520", Some("task-a"), &instances, NOW),
        Some("launch-failed-instance".to_owned())
    );
}

#[test]
fn launching_session_selection_blocks_unsafe_edit_stop_fallback() {
    let mut instances = Table::new();
    let mut launching_instance = test_instance("93795519121520", Some("task-a"), 0);
    launching_instance.studio_control_state = "lost".to_owned();
    launching_instance.studio_transition_phase = "starting".to_owned();
    launching_instance.studio_control_observed_at = None;
    set_edit_runtime_unavailable(&mut launching_instance, "launching");
    instances.insert("launching-instance".to_owned(), launching_instance);

    assert!(
        select_runtime_actuator_for_route("93795519121520", Some("task-a"), &instances, NOW)
            .is_none()
    );
    assert_eq!(
        select_known_runtime_session_for_route("93795519121520", Some("task-a"), &instances, NOW),
        Some("launching-instance".to_owned())
    );
}

#[test]
fn reported_play_mode_selection_blocks_unsafe_edit_stop_fallback() {
    let mut instances = Table::new();
    let mut play_instance = test_instance("93795519121520", Some("task-a"), 0);
    play_instance.studio_mode = Some("start_play".to_owned());
    play_instance.studio_mode_observed_at = Some(NOW);
    play_instance.studio_mode_source = "diagnostic".to_owned();
    play_instance.studio_control_state = "lost".to_owned();
    play_instance.studio_transition_phase = "idle".to_owned();
    play_instance.studio_control_observed_at = None;
    instances.insert("play-instance".to_owned(), play_instance);

    assert!(
        select_runtime_actuator_for_route("93795519121520", Some("task-a"), &instances, NOW)
            .is_none()
    );
    assert_eq!(
        select_known_runtime_session_for_route("93795519121520", Some("task-a"), &instances, NOW),
        Some("play-instance".to_owned())
    );
}

#[test]
fn edit_session_is_no_known_runtime_session() {
    let mut instances = Table::new();
    instances.insert(
        "edit".to_owned(),
        test_instance("93795519121520", Some("task-a"), 0),
    );
    assert_eq!(
        select_known_runtime_session_for_route("93795519121520", Some("task-a"), &instances, NOW),
        None
    );
    assert_eq!(
        select_active_stop_request_for_route("93795519121520", Some("task-a"), &instances),
        None
    );
}

#[test]
fn task_active_studio_pid_prefers_registered_plugin_pid() {
    let mut state = state_with_tasks(&["task-a"]);
    state
        .launch_processes
        .insert("task-a".to_owned(), test_launch("task-a", 21632, true));
    let mut instance = test_instance("93795519121520", Some("task-a"), 0);
    instance.studio_pid = Some(19180);
    state.instances.insert("instance-a".to_owned(), instance);

    assert_eq!(task_active_studio_pid(&state, "task-a"), Some(19180));
    let launch = state.launch_processes.get("task-a").unwrap();
    assert!(!launch_process_is_active_for_status(&state, launch));
    assert_eq!(task_instance_pids(&state, "task-a"), vec![19180]);
}

#[test]
fn launch_process_counts_while_no_plugin_is_there() {
    let mut state = state_with_tasks(&["task-a"]);
    let mut launch = test_launch("task-a", 21632, true);
    launch.has_child = true;
    state.launch_processes.insert("task-a".to_owned(), launch);
    assert_eq!(task_active_studio_pid(&state, "task-a"), Some(21632));
    let launch = state.launch_processes.get("task-a").unwrap();
    assert!(launch_process_is_active_for_status(&state, launch));
    reconcile_launch_processes(&mut state, &vec!["task-a".to_owned()]);
    assert_eq!(task_active_studio_pid(&state, "task-a"), None);
}

#[test]
fn rojo_server_is_told_to_the_plugin() {
    let mut state = state_with_tasks(&["task_a"]);
    let told = rojo_config(
        &mut state,
        "93795519121520",
        None,
        Some(7),
        44750,
        "secret",
    )
    .ok()
    .expect("the only task of the place should be told");
    assert_eq!(told.place_id, "93795519121520");
    assert_eq!(told.task_id.as_deref(), Some("task_a"));
    assert_eq!(
        told.base_url,
        "http://127.0.0.1:44750/rojo-forward/93795519121520/task/task_a"
    );
    assert_eq!(told.auth_header, "Bearer secret");
    assert_eq!(
        state.launch_processes.get("task_a").unwrap().studio_pid,
        7,
        "the process of the plugin is bound to the task"
    );

    let mut bare = test_claimed_task("task_b", "1");
    bare.rojo_base_url = None;
    state.claimed_tasks.insert("task_b".to_owned(), bare);
    let error = match rojo_config(&mut state, "1", None, None, 44750, "secret") {
        Ok(_) => panic!("a task without a server should be refused"),
        Err(error) => error,
    };
    assert_eq!(error, "claimed task has no rojo_base_url");
    assert_eq!(
        resolve_rojo_forward_target_base_url(&state, "1", Some("task_b")),
        Err("claimed task has no rojo_base_url".to_owned())
    );
}

#[test]
fn rojo_requests_are_sent_on_to_the_task() {
    let mut state = state_with_tasks(&["task_a"]);
    let mut other = test_claimed_task("task_b", "1");
    other.rojo_base_url = Some("ftp://example.com".to_owned());
    state.claimed_tasks.insert("task_b".to_owned(), other);
    let target = rojo_forward_target(
        &state,
        " 93795519121520 ",
        &Some(" task_a ".to_owned()),
        "api/rojo",
        Some("x=1"),
    )
    .ok()
    .expect("the route should be forwarded");
    assert_eq!(target.place_id, "93795519121520");
    assert_eq!(target.task_id.as_deref(), Some("task_a"));
    assert_eq!(target.target_path, "/api/rojo?x=1");
    assert_eq!(target.target_url, "https://example.com/api/rojo?x=1");
    let fault = |place: &str, task: &str| {
        rojo_forward_target(&state, place, &Some(task.to_owned()), "", None)
            .err()
            .expect("the route should be refused")
    };
    assert_eq!(fault("place", "task_a"), "placeId must be digits only");
    assert_eq!(fault("1", "a b"), "task_id must use [A-Za-z0-9_-] only");

    let task = Some("task_a".to_owned());
    assert_eq!(
        rojo_forward_socket_target(&state, "93795519121520", &task, " 7 ", Some("y=2")),
        Ok("wss://example.com/api/socket/7?y=2".to_owned())
    );
    assert_eq!(
        rojo_forward_socket_target(&state, "93795519121520", &task, "a/b", None),
        Err("cursor must use [A-Za-z0-9_-] only".to_owned())
    );
    assert_eq!(
        rojo_forward_socket_target(&state, "1", &Some("task_b".to_owned()), "0", None),
        Err("Rojo forward base_url must use http(s) or ws(s)".to_owned())
    );
}
