use studio_bridge::clock::Now;
use studio_bridge::hub::cleanup::{
    cleanup_stale_state, clear_helper_claims, clear_helper_task_claim,
};
use studio_bridge::hub::helpers::{
    block_helper, claim_task, helper_heartbeat, register_helper, unblock_helper,
};
use studio_bridge::hub::messages::{
    BlockHelperRequest, ClaimTaskRequest, CreateTaskRequest, HelperHeartbeatHubResponse,
    HelperHeartbeatRequest, HubError, RecoverTaskRequest, RegisterHelperRequest,
    ReleaseTaskRequest, TaskHeartbeatRequest, UnblockHelperRequest,
};
use studio_bridge::hub::persist::{
    build_persist_snapshot, load_persisted_state, snapshot_is_current,
};
use studio_bridge::hub::records::{
    BlockedHelperRecord, HelperActiveTaskRecord, HelperRecord, HubConfig, HubState, TaskRecord,
    TaskRoutes,
};
use studio_bridge::hub::status::{
    blocked_helper_payload, can_tell_helper, can_tell_hub, debug_helper, helper_list, hub_status,
    task_status,
};
use studio_bridge::hub::tasks::{create_task, recover_task, release_task, task_heartbeat};
use studio_bridge::table::{IdSet, Table};

const NOW: Now = Now {
    unix_ms: 1_700_000_000_000,
    instant: 10_000_000_000_000,
};
const SECOND: u128 = 1_000_000_000;

fn later(seconds: u64) -> Now {
    Now {
        unix_ms: NOW.unix_ms + seconds * 1000,
        instant: NOW.instant + seconds as u128 * SECOND,
    }
}

fn test_config() -> HubConfig {
    HubConfig {
        task_heartbeat_timeout_sec: 30,
        helper_heartbeat_timeout_sec: 30,
        heartbeat_interval_sec: 5,
    }
}

fn test_task(task_id: &str, helper_id: Option<&str>) -> TaskRecord {
    TaskRecord {
        task_id: task_id.to_owned(),
        cluster_key: "cluster".to_owned(),
        task_token: "task-token".to_owned(),
        recover_token: "recover-token".to_owned(),
        place_id: "place".to_owned(),
        universe_id: Some("universe".to_owned()),
        owner_user: "user".to_owned(),
        repo: "repo".to_owned(),
        worktree_name: "worktree".to_owned(),
        service_state: "ready".to_owned(),
        accepting_launches: true,
        services: Table::new(),
        routes: TaskRoutes {
            rojo_base_url: None,
            mcp_base_url: Some("http://127.0.0.1:1".to_owned()),
            runtime_log_base_url: None,
        },
        created_at_unix_ms: NOW.unix_ms,
        updated_at_unix_ms: NOW.unix_ms,
        last_task_heartbeat_at_unix_ms: NOW.unix_ms,
        last_seen_at: NOW.instant,
        claimed_by_helper_id: helper_id.map(str::to_owned),
        released: false,
    }
}

fn ids(list: &[&str]) -> IdSet {
    IdSet::from_vec(list.iter().map(|id| (*id).to_owned()).collect())
}

fn test_helper(helper_id: &str, active_task_ids: &[&str]) -> HelperRecord {
    HelperRecord {
        helper_id: helper_id.to_owned(),
        owner_user: "user".to_owned(),
        platform: "test".to_owned(),
        capacity: 4,
        labels: Vec::new(),
        active_task_ids: ids(active_task_ids),
        active_tasks: Table::new(),
        registered_at_unix_ms: NOW.unix_ms,
        last_seen_at: NOW.instant,
    }
}

fn seeded(helper_id: &str, task_id: &str) -> HubState {
    let mut state = HubState::new(test_config());
    state
        .tasks
        .insert(task_id.to_owned(), test_task(task_id, Some(helper_id)));
    state
        .helpers
        .insert(helper_id.to_owned(), test_helper(helper_id, &[task_id]));
    state
}

fn block(state: &mut HubState, reason: Option<&str>) {
    let reply = block_helper(
        state,
        true,
        &BlockHelperRequest {
            helper_id: "h_test".to_owned(),
            reason: reason.map(str::to_owned),
        },
        NOW,
    );
    assert!(reply.result.is_ok(), "block helper should succeed");
    assert!(reply.snapshot.is_some());
}

fn heartbeat(
    state: &mut HubState,
    active_task_ids: &[&str],
    active_tasks: Vec<HelperActiveTaskRecord>,
) -> HelperHeartbeatHubResponse {
    helper_heartbeat(
        state,
        &HelperHeartbeatRequest {
            helper_id: "h_test".to_owned(),
            active_task_ids: active_task_ids.iter().map(|id| (*id).to_owned()).collect(),
            active_tasks,
        },
        NOW,
    )
    .result
    .ok()
    .expect("heartbeat should respond")
}

fn claimed_by<'a>(state: &'a HubState, task_id: &str) -> Option<&'a str> {
    state.tasks.get(task_id).unwrap().claimed_by_helper_id.as_deref()
}

fn blocked(state: &HubState) -> &BlockedHelperRecord {
    state.blocked_helpers.get("h_test").unwrap()
}

fn refusal<T>(result: Result<T, HubError>) -> (u16, Option<String>, String) {
    match result {
        Ok(_) => panic!("the request should be refused"),
        Err(error) => (error.status, error.code, error.message),
    }
}

fn active_record(task_id: &str) -> HelperActiveTaskRecord {
    HelperActiveTaskRecord {
        task_id: task_id.to_owned(),
        remote_state: "retrying".to_owned(),
        remote_connection_id: None,
        remote_last_error: Some("still active".to_owned()),
        remote_last_ready_age_ms: None,
        remote_last_server_message_age_ms: None,
        studio_session_state: Some("play".to_owned()),
        studio_session_state_age_ms: Some(15),
        studio_mode: Some("start_play".to_owned()),
        studio_mode_age_ms: Some(15),
        studio_mode_source: Some("play_control".to_owned()),
        studio_control_state: Some("ready".to_owned()),
        studio_transition_phase: Some("running".to_owned()),
        studio_transition_age_ms: None,
        edit_runtime_state: Some("stale".to_owned()),
        edit_runtime_age_ms: Some(20_000),
        studio_control_last_error: None,
        last_stop_request_id: 0,
        last_stop_request_age_ms: None,
        last_stop_request_source: None,
        last_stop_request_error: None,
        stop_intent_recorded: false,
        stop_request_available: false,
        stop_request_consumed: false,
        end_test_requested: false,
        runtime_actuator_last_poll_id: 0,
        runtime_actuator_last_poll_age_ms: None,
        runtime_actuator_last_error: None,
        official_mcp_adapter_state: Some("blocked_by_studio_mode".to_owned()),
        official_mcp_adapter_age_ms: Some(15),
        official_mcp_adapter_last_error: None,
    }
}

#[test]
fn helper_admin_endpoints_are_disabled_by_default() {
    let mut state = HubState::new(test_config());
    let reply = block_helper(
        &mut state,
        false,
        &BlockHelperRequest {
            helper_id: "h_test".to_owned(),
            reason: None,
        },
        NOW,
    );
    let (status, code, _) = refusal(reply.result);
    assert_eq!(status, 403);
    assert_eq!(code.as_deref(), Some("helper_admin_disabled"));

    let reply = unblock_helper(
        &mut state,
        false,
        &UnblockHelperRequest {
            helper_id: "h_test".to_owned(),
        },
        NOW,
    );
    let (status, code, _) = refusal(reply.result);
    assert_eq!(status, 403);
    assert_eq!(code.as_deref(), Some("helper_admin_disabled"));
}

#[test]
fn blocked_helper_drains_by_heartbeat_ack() {
    let mut state = seeded("h_test", "t1");
    block(&mut state, Some("test"));
    assert_eq!(claimed_by(&state, "t1"), Some("h_test"));
    assert!(!state.helpers.contains_key("h_test"));
    assert!(blocked(&state).pending_task_ids.contains("t1"));

    let response = heartbeat(&mut state, &["t1"], Vec::new());
    assert!(!response.ok);
    assert_eq!(response.release_task_ids, vec!["t1".to_owned()]);
    assert_eq!(claimed_by(&state, "t1"), Some("h_test"));
    assert!(!state.helpers.contains_key("h_test"));

    let response = heartbeat(&mut state, &[], Vec::new());
    assert!(!response.ok);
    assert!(response.release_task_ids.is_empty());
    assert!(claimed_by(&state, "t1").is_none());
    assert!(blocked(&state).pending_task_ids.is_empty());
}

#[test]
fn blocked_helper_active_tasks_field_counts_as_active_report() {
    let mut state = seeded("h_test", "t1");
    block(&mut state, None);
    let response = heartbeat(&mut state, &[], vec![active_record("t1")]);
    assert_eq!(response.release_task_ids, vec!["t1".to_owned()]);
    assert_eq!(claimed_by(&state, "t1"), Some("h_test"));
    assert!(blocked(&state).pending_task_ids.contains("t1"));
    assert!(blocked(&state).last_reported_task_ids.contains("t1"));
}

#[test]
fn pending_drain_survives_hub_reload_before_deadline() {
    let mut state = seeded("h_test", "t1");
    block(&mut state, Some("reload"));
    let snapshot = build_persist_snapshot(&state);
    let (tasks, blocked_helpers) = load_persisted_state(&snapshot.payload, &test_config(), NOW);
    assert_eq!(
        tasks.get("t1").unwrap().claimed_by_helper_id.as_deref(),
        Some("h_test")
    );
    let blocked = blocked_helpers.get("h_test").unwrap();
    assert!(blocked.pending_task_ids.contains("t1"));
    assert!(!blocked.force_released_task_ids.contains("t1"));
}

#[test]
fn blocked_helper_force_releases_after_drain_deadline() {
    let mut state = seeded("h_test", "t1");
    state.blocked_helpers.insert(
        "h_test".to_owned(),
        BlockedHelperRecord {
            helper_id: "h_test".to_owned(),
            reason: Some("test".to_owned()),
            blocked_at_unix_ms: NOW.unix_ms - 10_000,
            drain_started_at_unix_ms: NOW.unix_ms - 10_000,
            drain_deadline_at_unix_ms: NOW.unix_ms - 1,
            pending_task_ids: ids(&["t1"]),
            last_reported_task_ids: ids(&["t1"]),
            last_release_requested_at_unix_ms: Some(NOW.unix_ms - 5_000),
            last_seen_at_unix_ms: Some(NOW.unix_ms - 5_000),
            force_released_task_ids: ids(&[]),
        },
    );
    assert!(cleanup_stale_state(&mut state, NOW));
    assert!(claimed_by(&state, "t1").is_none());
    assert!(blocked(&state).pending_task_ids.is_empty());
    assert!(blocked(&state).force_released_task_ids.contains("t1"));
    let payload = blocked_helper_payload(blocked(&state), NOW.unix_ms);
    assert_eq!(payload.drain_status, "force_released");
    assert!(payload.drain_deadline_elapsed);

    let response = heartbeat(&mut state, &["t1"], Vec::new());
    assert_eq!(response.release_task_ids, vec!["t1".to_owned()]);
    assert!(
        !cleanup_stale_state(&mut state, NOW),
        "a second cleanup finds nothing to do"
    );
}

fn drain(helper_id: &str, task_id: &str, deadline_at_unix_ms: u64) -> BlockedHelperRecord {
    BlockedHelperRecord {
        helper_id: helper_id.to_owned(),
        reason: None,
        blocked_at_unix_ms: NOW.unix_ms - 10_000,
        drain_started_at_unix_ms: NOW.unix_ms - 10_000,
        drain_deadline_at_unix_ms: deadline_at_unix_ms,
        pending_task_ids: ids(&[task_id]),
        last_reported_task_ids: ids(&[]),
        last_release_requested_at_unix_ms: None,
        last_seen_at_unix_ms: None,
        force_released_task_ids: ids(&[]),
    }
}

/// A helper in a drain, one whose drain is over, one that is silent and one that is well.
fn hub_of_four() -> HubState {
    let mut state = seeded("h_well", "t4");
    for (task_id, helper_id) in [("t1", "h_test"), ("t2", "h_due"), ("t3", "h_silent")] {
        state
            .tasks
            .insert(task_id.to_owned(), test_task(task_id, Some(helper_id)));
    }
    let mut silent = test_helper("h_silent", &["t3"]);
    silent.last_seen_at = NOW.instant - 31 * SECOND;
    state.helpers.insert("h_silent".to_owned(), silent);
    state.blocked_helpers.insert(
        "h_test".to_owned(),
        drain("h_test", "t1", NOW.unix_ms + 20_000),
    );
    state
        .blocked_helpers
        .insert("h_due".to_owned(), drain("h_due", "t2", NOW.unix_ms - 1));
    state
}

fn check_others_left_to_time(state: &HubState) {
    assert!(claimed_by(state, "t2").is_none());
    let due = state.blocked_helpers.get("h_due").unwrap();
    assert!(due.pending_task_ids.is_empty());
    assert!(due.force_released_task_ids.contains("t2"));
    assert!(claimed_by(state, "t3").is_none());
    assert!(!state.helpers.contains_key("h_silent"));
    assert_eq!(claimed_by(state, "t4"), Some("h_well"));
    assert!(state.helpers.contains_key("h_well"));
}

#[test]
fn second_block_keeps_the_drain_and_leaves_others_to_time() {
    let mut state = hub_of_four();
    block(&mut state, Some("again"));
    assert_eq!(blocked(&state).drain_started_at_unix_ms, NOW.unix_ms - 10_000);
    assert_eq!(blocked(&state).drain_deadline_at_unix_ms, NOW.unix_ms + 20_000);
    assert!(blocked(&state).pending_task_ids.contains("t1"));
    assert_eq!(claimed_by(&state, "t1"), Some("h_test"));
    check_others_left_to_time(&state);
}

#[test]
fn report_of_a_blocked_helper_leaves_others_to_time() {
    let mut state = hub_of_four();
    let response = heartbeat(&mut state, &["t1"], Vec::new());
    assert_eq!(response.release_task_ids, vec!["t1".to_owned()]);
    assert_eq!(claimed_by(&state, "t1"), Some("h_test"));
    check_others_left_to_time(&state);
}

#[test]
fn unblock_rejects_pending_drain() {
    let mut state = seeded("h_test", "t1");
    block(&mut state, None);
    let reply = unblock_helper(
        &mut state,
        true,
        &UnblockHelperRequest {
            helper_id: "h_test".to_owned(),
        },
        NOW,
    );
    let (status, code, _) = refusal(reply.result);
    assert_eq!(status, 409);
    assert_eq!(code.as_deref(), Some("helper_drain_pending"));
}

#[test]
fn unblocked_helper_may_register_again() {
    let mut state = seeded("h_test", "t1");
    block(&mut state, None);
    let register = RegisterHelperRequest {
        helper_id: "h_test".to_owned(),
        owner_user: "user".to_owned(),
        platform: "test".to_owned(),
        capacity: 2,
        labels: Vec::new(),
    };
    assert!(register_helper(&mut state, &register, NOW).result.is_err());
    let _ = heartbeat(&mut state, &[], Vec::new());
    assert!(unblock_helper(
        &mut state,
        true,
        &UnblockHelperRequest {
            helper_id: "h_test".to_owned(),
        },
        NOW,
    )
    .result
    .is_ok());
    let told = register_helper(&mut state, &register, NOW).result.ok().unwrap();
    assert_eq!(told.helper_id, "h_test");
    assert_eq!(told.heartbeat_interval_sec, 5);
    assert_eq!(told.heartbeat_timeout_sec, 30);
}

#[test]
fn second_helper_under_one_name_is_refused() {
    let mut state = HubState::new(test_config());
    let register = RegisterHelperRequest {
        helper_id: "h_test".to_owned(),
        owner_user: "user".to_owned(),
        platform: "test".to_owned(),
        capacity: 2,
        labels: Vec::new(),
    };
    assert!(register_helper(&mut state, &register, NOW).result.is_ok());
    let (status, code, _) = refusal(register_helper(&mut state, &register, NOW).result);
    assert_eq!(status, 409);
    assert_eq!(code.as_deref(), Some("helper_id_conflict"));
    assert!(
        register_helper(&mut state, &register, later(31)).result.is_ok(),
        "a helper that fell silent is replaced"
    );
}

fn create(state: &mut HubState) -> (String, String, String) {
    let told = create_task(
        state,
        &CreateTaskRequest {
            cluster_key: "cluster".to_owned(),
            owner_user: "user".to_owned(),
            repo: "repo".to_owned(),
            worktree_name: "worktree".to_owned(),
            place_id: "12".to_owned(),
            universe_id: None,
            legacy_game_id: Some("34".to_owned()),
        },
        NOW,
    )
    .result
    .ok()
    .expect("the task should be created");
    (told.task_id, told.task_token, told.recover_token)
}

fn announce(state: &mut HubState, task_id: &str, task_token: &str) -> bool {
    task_heartbeat(
        state,
        &TaskHeartbeatRequest {
            task_id: task_id.to_owned(),
            task_token: task_token.to_owned(),
            service_state: "ready".to_owned(),
            accepting_launches: true,
            routes: TaskRoutes {
                rojo_base_url: None,
                mcp_base_url: Some("http://mcp".to_owned()),
                runtime_log_base_url: None,
            },
            services: Table::new(),
        },
        NOW,
    )
    .result
    .is_ok()
}

#[test]
fn task_is_created_claimed_and_released() {
    let mut state = HubState::new(test_config());
    let (task_id, task_token, _) = create(&mut state);
    assert!(task_id.starts_with('t'));
    assert_eq!(task_id.len(), 11);
    assert_eq!(task_token.len(), 36);
    assert!(!announce(&mut state, &task_id, "wrong"));
    assert!(announce(&mut state, &task_id, &task_token));

    state
        .helpers
        .insert("h_test".to_owned(), test_helper("h_test", &[]));
    let claim = ClaimTaskRequest {
        helper_id: "h_test".to_owned(),
    };
    let told = claim_task(&mut state, &claim, NOW).result.ok().unwrap();
    assert!(told.claimed);
    let task = told.task.expect("the free task should be handed out");
    assert_eq!(task.task_id, task_id);
    assert_eq!(task.universe_id.as_deref(), Some("34"));
    assert_eq!(claimed_by(&state, &task_id), Some("h_test"));
    let again = claim_task(&mut state, &claim, NOW).result.ok().unwrap();
    assert!(!again.claimed);

    let release = |token: &str| ReleaseTaskRequest {
        task_id: task_id.clone(),
        task_token: token.to_owned(),
    };
    assert!(release_task(&mut state, &release("wrong"), NOW).result.is_err());
    assert!(release_task(&mut state, &release(&task_token), NOW).result.is_ok());
    assert!(state.tasks.get(&task_id).unwrap().released);
    assert!(claimed_by(&state, &task_id).is_none());
}

#[test]
fn silent_task_expires_and_is_recovered() {
    let mut state = HubState::new(test_config());
    let (task_id, task_token, recover_token) = create(&mut state);
    assert!(announce(&mut state, &task_id, &task_token));
    assert!(cleanup_stale_state(&mut state, later(31)));
    let recover = |token: &str| RecoverTaskRequest {
        cluster_key: "cluster".to_owned(),
        task_id: task_id.clone(),
        recover_token: token.to_owned(),
        universe_id: None,
        legacy_game_id: None,
    };
    assert!(recover_task(&mut state, &recover("wrong"), later(31)).result.is_err());
    let told = recover_task(&mut state, &recover(&recover_token), later(31))
        .result
        .ok()
        .expect("the owner may recover the task");
    assert_eq!(told.task_id, task_id);
    assert_ne!(told.task_token, task_token);
    assert_eq!(told.recover_token, recover_token);
}

#[test]
fn blank_fields_are_refused() {
    let mut state = HubState::new(test_config());
    let (status, _, message) = refusal(
        register_helper(
            &mut state,
            &RegisterHelperRequest {
                helper_id: "  ".to_owned(),
                owner_user: "user".to_owned(),
                platform: "test".to_owned(),
                capacity: 1,
                labels: Vec::new(),
            },
            NOW,
        )
        .result,
    );
    assert_eq!(status, 400);
    assert_eq!(message, "helper_id must not be empty");
}

#[test]
fn status_counts_tasks_and_helpers() {
    let mut state = seeded("h_test", "t1");
    let told = heartbeat(&mut state, &["t1"], vec![active_record("t1")]);
    assert!(told.ok);
    assert!(can_tell_hub(&state, NOW));
    assert!(can_tell_helper(state.helpers.get("h_test").unwrap(), NOW));
    let status = hub_status(&state, later(2));
    assert_eq!(status.helper_count, 1);
    assert_eq!(status.task_count, 1);
    assert_eq!(status.tasks[0].last_seen_age_ms, 2000);
    assert_eq!(status.helpers[0].active_tasks.len(), 1);
    assert_eq!(
        status.helpers[0].active_tasks[0].studio_mode_age_ms,
        Some(2015)
    );
    let list = helper_list(&state, NOW);
    assert_eq!(list.helper_count, 1);
    assert_eq!(list.blocked_helper_count, 0);
    assert!(debug_helper(&state, "h_test", NOW).is_ok());
    assert!(debug_helper(&state, "h_other", NOW).is_err());
    assert!(task_status(&state, "t1", NOW).is_ok());
    assert!(task_status(&state, "t2", NOW).is_err());
}

#[test]
fn older_snapshots_are_passed_over() {
    let mut state = seeded("h_test", "t1");
    let first = build_persist_snapshot(&state);
    block(&mut state, None);
    assert!(state.state_revision > first.revision);
    assert!(!snapshot_is_current(&first, state.state_revision));
    let second = build_persist_snapshot(&state);
    assert!(snapshot_is_current(&second, state.state_revision));
    assert_eq!(second.payload.tasks.len(), 1);
    assert_eq!(second.payload.blocked_helpers.len(), 1);
}

#[test]
fn claims_of_a_helper_are_cleared() {
    let mut state = seeded("h_test", "t_one");
    state
        .tasks
        .insert("t_two".to_owned(), test_task("t_two", Some("h_test")));
    state
        .tasks
        .insert("t_other".to_owned(), test_task("t_other", Some("h_other")));
    assert!(!clear_helper_claims(&mut state, "h_unknown", 7));
    assert!(clear_helper_claims(&mut state, "h_test", 7));
    for id in ["t_one", "t_two"] {
        let task = state.tasks.get(id).expect("task should stay");
        assert_eq!(task.claimed_by_helper_id, None);
        assert_eq!(task.updated_at_unix_ms, 7);
    }
    let other = state.tasks.get("t_other").expect("task should stay");
    assert_eq!(other.claimed_by_helper_id.as_deref(), Some("h_other"));
    assert_eq!(other.updated_at_unix_ms, NOW.unix_ms);
    assert!(!clear_helper_claims(&mut state, "h_test", 8));
}

#[test]
fn one_claim_of_a_helper_is_cleared() {
    let mut state = seeded("h_test", "t_one");
    assert!(!clear_helper_task_claim(&mut state, "h_other", "t_one", 7));
    assert!(clear_helper_task_claim(&mut state, "h_test", "t_one", 7));
    let task = state.tasks.get("t_one").expect("task should stay");
    assert_eq!(task.claimed_by_helper_id, None);
    assert_eq!(task.updated_at_unix_ms, 7);
    let helper = state.helpers.get("h_test").expect("helper should stay");
    assert!(helper.active_task_ids.is_empty());
    assert!(!clear_helper_task_claim(&mut state, "h_test", "t_one", 8));
}

fn create_again(state: &mut HubState) -> Option<String> {
    create_task(
        state,
        &CreateTaskRequest {
            cluster_key: " cluster ".to_owned(),
            owner_user: "user".to_owned(),
            repo: "repo".to_owned(),
            worktree_name: "worktree".to_owned(),
            place_id: "12".to_owned(),
            universe_id: None,
            legacy_game_id: None,
        },
        NOW,
    )
    .result
    .err()
    .map(|error| error.message)
}

#[test]
fn cluster_has_one_task_at_a_time() {
    let mut state = HubState::new(test_config());
    let (task_id, task_token, _) = create(&mut state);
    assert_eq!(
        create_again(&mut state).as_deref(),
        Some("active task already exists for cluster_key cluster; use recover")
    );
    let release = ReleaseTaskRequest {
        task_id,
        task_token,
    };
    assert!(release_task(&mut state, &release, NOW).result.is_ok());
    assert_eq!(create_again(&mut state), None);
}

#[test]
fn recovered_task_goes_by_its_new_token() {
    let mut state = HubState::new(test_config());
    let (task_id, task_token, recover_token) = create(&mut state);
    let recover = RecoverTaskRequest {
        cluster_key: "cluster".to_owned(),
        task_id: task_id.clone(),
        recover_token,
        universe_id: None,
        legacy_game_id: None,
    };
    let told = recover_task(&mut state, &recover, NOW)
        .result
        .ok()
        .expect("the owner may recover the task");
    assert!(!announce(&mut state, &task_id, &task_token));
    assert!(announce(&mut state, &task_id, &told.task_token));
}

#[test]
fn restored_records_stand_under_their_identifiers() {
    let mut state = seeded("h_test", "t_one");
    block(&mut state, None);
    let mut written = build_persist_snapshot(&state).payload;
    written.blocked_helpers[0].helper_id = "  h_other ".to_owned();
    let (tasks, blocked) = load_persisted_state(&written, &test_config(), NOW);
    assert_eq!(tasks.get("t_one").unwrap().task_id, "t_one");
    assert_eq!(blocked.get("h_other").unwrap().helper_id, "h_other");
    assert!(blocked.get("  h_other ").is_none());
}
