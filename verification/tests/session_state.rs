use studio_bridge::helper::records::{HelperState, PluginInstance};
use studio_bridge::helper::session::{
    active_stop_request_id_for_instance, edit_runtime_state, initial_control_state_for_mode,
    is_stop_request_deliverable_phase, mark_runtime_stop_timeout, set_edit_runtime_unavailable,
    task_studio_mode_snapshot,
};
use studio_bridge::helper::timing::STUDIO_CONTROL_HEARTBEAT_STALE_AFTER;

const NOW: u128 = 10_000_000_000_000;
const MS: u128 = 1_000_000;

fn test_instance(place_id: &str, task_id: Option<&str>, age_ms: u128) -> PluginInstance {
    PluginInstance {
        place_id: place_id.to_owned(),
        task_id: task_id.map(str::to_owned),
        remote_base_url: "https://example.com".to_owned(),
        studio_pid: Some(123),
        studio_mode: Some("stop".to_owned()),
        studio_mode_observed_at: Some(NOW),
        studio_mode_source: "edit_plugin".to_owned(),
        studio_control_state: "none".to_owned(),
        studio_transition_phase: "idle".to_owned(),
        studio_transition_started_at: None,
        studio_control_observed_at: None,
        edit_runtime_observed_at: Some(NOW),
        edit_runtime_unavailable_reason: None,
        studio_control_last_error: None,
        stop_request_id: 0,
        stop_request_recorded_at: None,
        stop_request_last_polled_at: None,
        stop_request_last_poll_id: None,
        stop_result_phase: None,
        stop_result_error: None,
        stop_result_observed_at: None,
        last_seen_at: NOW - age_ms * MS,
        queue: Vec::new(),
    }
}

#[test]
fn initial_control_state_is_idle_without_reported_mode() {
    let (control_state, transition_phase, observed_at) = initial_control_state_for_mode(None);
    assert_eq!(control_state, "none");
    assert_eq!(transition_phase, "idle");
    assert!(observed_at.is_none());
}

#[test]
fn task_studio_control_snapshot_reports_idle_edit_without_runtime_control() {
    let mut state = HelperState::new();
    let instance = test_instance("93795519121520", Some("task-a"), 0);
    state.instances.insert("instance-a".to_owned(), instance);

    let snapshot = task_studio_mode_snapshot(&state, "task-a", NOW);

    assert_eq!(snapshot.studio_control_state, "none");
    assert_eq!(snapshot.studio_transition_phase, "idle");
    assert_eq!(snapshot.edit_runtime_state, "ready");
}

#[test]
fn task_studio_control_snapshot_reports_idle_edit_without_reported_mode() {
    let mut state = HelperState::new();
    let mut instance = test_instance("93795519121520", Some("task-a"), 0);
    instance.studio_mode = None;
    instance.studio_mode_observed_at = None;
    instance.studio_mode_source = "none".to_owned();
    state.instances.insert("instance-a".to_owned(), instance);

    let snapshot = task_studio_mode_snapshot(&state, "task-a", NOW);

    assert_eq!(snapshot.studio_control_state, "none");
    assert_eq!(snapshot.studio_transition_phase, "idle");
    assert_eq!(snapshot.edit_runtime_state, "ready");
}

#[test]
fn task_studio_control_snapshot_reports_none_connected_without_instances() {
    let state = HelperState::new();
    let snapshot = task_studio_mode_snapshot(&state, "task-a", NOW);

    assert_eq!(snapshot.studio_control_state, "none");
    assert_eq!(snapshot.studio_transition_phase, "idle");
    assert_eq!(snapshot.edit_runtime_state, "missing");
}

#[test]
fn task_studio_control_snapshot_reports_stop_for_ready_edit_runtime() {
    let mut state = HelperState::new();
    let mut edit_instance = test_instance("93795519121520", Some("task-a"), 0);
    edit_instance.studio_mode = None;
    edit_instance.studio_mode_source = "none".to_owned();
    edit_instance.edit_runtime_observed_at = Some(NOW);
    state
        .instances
        .insert("edit-instance".to_owned(), edit_instance);

    let snapshot = task_studio_mode_snapshot(&state, "task-a", NOW);

    assert_eq!(snapshot.studio_control_state, "none");
    assert_eq!(snapshot.studio_transition_phase, "idle");
    assert_eq!(snapshot.edit_runtime_state, "ready");
}

#[test]
fn task_studio_control_snapshot_prioritizes_stopping_over_play() {
    let mut state = HelperState::new();
    let mut instance = test_instance("93795519121520", Some("task-a"), 0);
    instance.studio_mode = Some("start_play".to_owned());
    instance.studio_mode_source = "play_control".to_owned();
    instance.studio_control_state = "stopping".to_owned();
    instance.studio_transition_phase = "stopping_requested".to_owned();
    instance.studio_control_observed_at = Some(NOW);
    instance.stop_request_id = 3;
    instance.stop_request_recorded_at = Some(NOW);
    let mut edit_instance = test_instance("93795519121520", Some("task-a"), 0);
    edit_instance.studio_mode = Some("stop".to_owned());
    edit_instance.studio_mode_source = "edit_plugin".to_owned();
    edit_instance.edit_runtime_observed_at = Some(NOW);
    edit_instance.last_seen_at = NOW + 1;
    state.instances.insert("instance-a".to_owned(), instance);
    state
        .instances
        .insert("edit-instance".to_owned(), edit_instance);

    let snapshot = task_studio_mode_snapshot(&state, "task-a", NOW + 1);

    assert_eq!(snapshot.studio_control_state, "stopping");
    assert_eq!(snapshot.studio_transition_phase, "stopping_requested");
    assert_eq!(snapshot.active_stop_request_id, Some(3));
}

#[test]
fn task_studio_control_snapshot_reports_ready_while_control_heartbeat_is_fresh() {
    let mut state = HelperState::new();
    let mut instance = test_instance("93795519121520", Some("task-a"), 0);
    instance.studio_mode = Some("start_play".to_owned());
    instance.studio_mode_observed_at = Some(NOW);
    instance.studio_control_state = "ready".to_owned();
    instance.studio_transition_phase = "running".to_owned();
    instance.studio_control_observed_at = Some(NOW);
    state.instances.insert("instance-a".to_owned(), instance);

    let snapshot = task_studio_mode_snapshot(&state, "task-a", NOW);

    assert_eq!(snapshot.studio_control_state, "ready");
    assert_eq!(snapshot.studio_transition_phase, "running");
}

#[test]
fn task_studio_control_snapshot_reports_lost_after_control_heartbeat_expires() {
    let mut state = HelperState::new();
    let mut instance = test_instance("93795519121520", Some("task-a"), 0);
    instance.studio_mode = Some("start_play".to_owned());
    instance.studio_mode_observed_at = Some(NOW);
    instance.studio_control_state = "ready".to_owned();
    instance.studio_transition_phase = "running".to_owned();
    instance.studio_control_observed_at = Some(NOW - STUDIO_CONTROL_HEARTBEAT_STALE_AFTER - MS);
    state.instances.insert("instance-a".to_owned(), instance);

    let snapshot = task_studio_mode_snapshot(&state, "task-a", NOW);

    assert_eq!(snapshot.studio_control_state, "lost");
    assert_eq!(snapshot.studio_transition_phase, "running");
}

#[test]
fn runtime_actuator_heartbeat_does_not_clobber_edit_heartbeat() {
    let mut instance = test_instance("93795519121520", Some("task-a"), 0);
    instance.studio_mode = None;
    instance.studio_mode_source = "none".to_owned();
    instance.studio_control_state = "ready".to_owned();
    instance.studio_transition_phase = "running".to_owned();
    instance.studio_control_observed_at = Some(NOW);
    instance.edit_runtime_observed_at = Some(NOW);

    assert_eq!(instance.studio_control_state, "ready");
    assert_eq!(instance.studio_transition_phase, "running");
    assert_eq!(edit_runtime_state(&instance, NOW), "ready");
}

#[test]
fn runtime_stop_timeout_converges_to_error_and_disables_delivery() {
    let mut instance = test_instance("93795519121520", Some("task-a"), 0);
    instance.studio_control_state = "stopping".to_owned();
    instance.studio_transition_phase = "stopping_requested".to_owned();
    instance.stop_request_id = 4;

    mark_runtime_stop_timeout(&mut instance, 4, "phase=stopping_requested".to_owned(), NOW);

    assert_eq!(instance.studio_control_state, "lost");
    assert_eq!(instance.studio_transition_phase, "error");
    assert_eq!(active_stop_request_id_for_instance(&instance), None);
    assert!(!is_stop_request_deliverable_phase(
        &instance.studio_transition_phase
    ));
    assert_eq!(instance.stop_result_phase.as_deref(), Some("failed"));
    assert!(instance
        .studio_control_last_error
        .as_deref()
        .unwrap_or_default()
        .contains("runtime_stop_timeout"));
}

#[test]
fn edit_runtime_reason_outweighs_recent_heartbeat() {
    let mut instance = test_instance("93795519121520", Some("task-a"), 0);
    set_edit_runtime_unavailable(&mut instance, "runtime");
    assert_eq!(edit_runtime_state(&instance, NOW), "runtime");
}
