use studio_bridge::helper::commands::{
    begin_live_query, begin_runtime_stop, check_runtime_stop, classify_tool, dispatch_to_plugin,
    extract_command_id, extract_tool_name_and_args, give_up_on_answer, give_up_on_stop,
    is_studio_control_tool, judge_launch, judge_live_answer, judge_stop, live_query_command,
    live_query_failed, new_live_query_command, plugin_answer, plugin_request_timeout_for_tool,
    read_plugin_command, settle_launch, stop_wait_is_over, validate_launch_studio_session_mode, validate_start_stop_play_mode, CommandKind,
    PluginStudioSessionStatePayload, StopDecision, StopProgress,
};
use studio_bridge::helper::plugin::{
    apply_control_heartbeat, apply_edit_heartbeat, apply_plugin_response, apply_plugin_stop_result,
    check_plugin_route, poll_plugin_stop, register_plugin, register_plugin_as, request_plugin_stop,
    take_plugin_command, unregister_plugin, CommandPoll, Delivery, PluginResponsePayload,
    PluginStopResultPayload, ReportReply,
};
use studio_bridge::helper::records::{
    ClaimedTask, CommandArg, HelperState, PendingPluginResponse, PluginCommand, PluginInstance,
};
use studio_bridge::helper::session::{
    active_stop_request_id_for_instance, edit_runtime_state, effective_studio_control_state,
    effective_studio_transition_phase, set_edit_runtime_unavailable, task_studio_mode_snapshot,
};
use studio_bridge::helper::timing::{
    EDIT_RUNTIME_STALE_AFTER, PLUGIN_REQUEST_TIMEOUT, PLUGIN_STUDIO_CONTROL_REQUEST_TIMEOUT,
    STUDIO_CONTROL_HEARTBEAT_STALE_AFTER,
};

const NOW: u128 = 10_000_000_000_000;
const MS: u128 = 1_000_000;

fn test_instance(place_id: &str, task_id: Option<&str>, age_ms: u128) -> PluginInstance {
    PluginInstance {
        place_id: place_id.to_owned(),
        task_id: task_id.map(str::to_owned),
        remote_base_url: "https://example.com".to_owned(),
        studio_pid: Some(123),
        studio_mode: Some("stop".to_owned()),
        studio_mode_observed_at: Some(NOW),
        studio_mode_source: "edit_plugin".to_owned(),
        studio_control_state: "none".to_owned(),
        studio_transition_phase: "idle".to_owned(),
        studio_transition_started_at: None,
        studio_control_observed_at: None,
        edit_runtime_observed_at: Some(NOW),
        edit_runtime_unavailable_reason: None,
        studio_control_last_error: None,
        stop_request_id: 0,
        stop_request_recorded_at: None,
        stop_request_last_polled_at: None,
        stop_request_last_poll_id: None,
        stop_result_phase: None,
        stop_result_error: None,
        stop_result_observed_at: None,
        last_seen_at: NOW - age_ms * MS,
        queue: Vec::new(),
    }
}

fn test_claimed_task(task_id: &str, place_id: &str) -> ClaimedTask {
    ClaimedTask {
        task_id: task_id.to_owned(),
        place_id: place_id.to_owned(),
        universe_id: Some("999".to_owned()),
        mcp_base_url: "https://example.com".to_owned(),
        rojo_base_url: Some("https://example.com".to_owned()),
        runtime_log_base_url: Some("https://example.com".to_owned()),
        claimed_at: NOW,
    }
}

const FIRST_QUERY: &str = "6f1a1c52-0d5e-4b7a-9c1e-2b8f4d3a7e01";
const SECOND_QUERY: &str = "6f1a1c52-0d5e-4b7a-9c1e-2b8f4d3a7e02";
const THIRD_QUERY: &str = "6f1a1c52-0d5e-4b7a-9c1e-2b8f4d3a7e03";
const PLACE: &str = "93795519121520";
const STALE: u128 = NOW - STUDIO_CONTROL_HEARTBEAT_STALE_AFTER - MS;

fn state_with(instance: PluginInstance) -> HelperState {
    let mut state = HelperState::new();
    state.instances.insert("instance-a".to_owned(), instance);
    state
}

fn quiet_instance() -> PluginInstance {
    let mut instance = test_instance(PLACE, Some("task-a"), 0);
    instance.studio_mode = None;
    instance.studio_mode_source = "none".to_owned();
    instance
}

fn playing_instance() -> PluginInstance {
    let mut instance = test_instance(PLACE, Some("task-a"), 0);
    instance.studio_mode = Some("start_play".to_owned());
    instance.studio_mode_source = "play_control".to_owned();
    instance.studio_mode_observed_at = Some(NOW);
    instance.studio_control_state = "ready".to_owned();
    instance.studio_transition_phase = "running".to_owned();
    instance.studio_control_observed_at = Some(NOW);
    instance
}

fn set_instance(state: &mut HelperState, change: impl Fn(&mut PluginInstance)) {
    let mut instance = state.instances.remove("instance-a").unwrap();
    change(&mut instance);
    state.instances.insert("instance-a".to_owned(), instance);
}

fn instance(state: &HelperState) -> &PluginInstance {
    state.instances.get("instance-a").unwrap()
}

fn is_taken(reply: ReportReply) -> bool {
    matches!(reply, ReportReply::Taken(_))
}

fn command(id: &str, tool: &str, payload: &str) -> PluginCommand {
    read_plugin_command(&format!(
        "{{\"args\":{{\"{tool}\":{payload}}},\"id\":\"{id}\"}}"
    ))
}

/// A JSON object with the given fields.
fn concat_json(fields: &[(&str, &str)]) -> String {
    let fields: Vec<String> = fields
        .iter()
        .map(|(name, value)| format!("\"{name}\":{value}"))
        .collect();
    format!("{{{}}}", fields.join(","))
}

fn stop_result(id: u64, phase: &str, error: Option<&str>) -> PluginStopResultPayload {
    PluginStopResultPayload {
        instance_id: "instance-a".to_owned(),
        stop_request_id: id,
        phase: phase.to_owned(),
        error: error.map(str::to_owned),
    }
}

/// Asks the plugin for the state of its session and lets it answer.
fn live_state(
    state: &mut HelperState,
    told_instance: &str,
    told_state: &str,
) -> studio_bridge::helper::commands::LiveStudioSessionState {
    assert!(begin_live_query(state, PLACE, Some("task-a"), NOW).is_none());
    let query = new_live_query_command();
    let sent = dispatch_to_plugin(state, PLACE, Some("task-a"), query, None, None, NOW)
        .ok()
        .expect("the query should be handed to the plugin");
    assert_eq!(sent.instance_id, "instance-a");
    assert_eq!(sent.tool_name, "GetStudioSessionState");
    match take_plugin_command(state, "instance-a", NOW) {
        CommandPoll::Command(taken) => assert_eq!(taken.id.as_deref(), Some(sent.request_id.as_str())),
        _ => panic!("the query should be waiting"),
    }
    let answer = PluginResponsePayload {
        instance_id: Some("instance-a".to_owned()),
        id: sent.request_id,
        success: true,
        response: "{}".to_owned(),
    };
    assert!(matches!(
        apply_plugin_response(state, &answer),
        Delivery::Delivered(_)
    ));
    judge_live_answer(
        Some("task-a"),
        "instance-a",
        true,
        "{}",
        &Ok(PluginStudioSessionStatePayload {
            studio_session_state: told_state.to_owned(),
            instance_id: Some(told_instance.to_owned()),
            task_id: Some("task-a".to_owned()),
        }),
    )
}

#[test]
fn edit_heartbeat_only_refreshes_edit_runtime_visibility() {
    let mut state = state_with(quiet_instance());
    assert!(is_taken(apply_edit_heartbeat(&mut state, "instance-a", NOW)));
    let i = instance(&state);
    assert!(i.studio_mode.is_none());
    assert_eq!(i.studio_mode_source, "none");
    assert_eq!(i.studio_transition_phase, "idle");
    assert_eq!(i.studio_control_state, "none");
    assert_eq!(edit_runtime_state(i, NOW), "ready");
}

#[test]
fn edit_heartbeat_completes_pending_stop_without_reporting_stop_mode() {
    let mut i = quiet_instance();
    i.studio_control_state = "stopping".to_owned();
    i.studio_transition_phase = "stopping_observed".to_owned();
    i.studio_transition_started_at = Some(NOW);
    i.studio_control_observed_at = Some(STALE);
    i.stop_request_id = 4;
    i.stop_result_phase = Some("observed".to_owned());
    i.stop_result_observed_at = Some(NOW);
    let mut state = state_with(i);
    assert!(is_taken(apply_edit_heartbeat(&mut state, "instance-a", NOW)));
    let i = instance(&state);
    assert!(i.studio_mode.is_none());
    assert_eq!(i.studio_mode_source, "none");
    assert_eq!(i.studio_control_state, "none");
    assert_eq!(i.studio_transition_phase, "idle");
    assert_eq!(i.stop_result_phase.as_deref(), Some("completed"));
    assert!(i.studio_control_observed_at.is_none());
    assert!(i.edit_runtime_observed_at.is_some());
    let snapshot = task_studio_mode_snapshot(&state, "task-a", NOW);
    assert_eq!(snapshot.studio_control_state, "none");
    assert_eq!(snapshot.studio_transition_phase, "idle");
    assert_eq!(snapshot.edit_runtime_state, "ready");
}

#[test]
fn edit_heartbeat_does_not_complete_stop_before_runtime_observes_it() {
    let mut i = quiet_instance();
    i.studio_control_state = "stopping".to_owned();
    i.studio_transition_phase = "stopping_requested".to_owned();
    i.studio_transition_started_at = Some(NOW);
    i.studio_control_observed_at = Some(NOW);
    i.stop_request_id = 4;
    let mut state = state_with(i);
    assert!(is_taken(apply_edit_heartbeat(&mut state, "instance-a", NOW)));
    let i = instance(&state);
    assert_eq!(i.studio_control_state, "stopping");
    assert_eq!(i.studio_transition_phase, "stopping_requested");
    assert_eq!(i.stop_result_phase, None);
    assert_eq!(edit_runtime_state(i, NOW), "stopping");
    assert_eq!(active_stop_request_id_for_instance(i), Some(4));
}

#[test]
fn edit_heartbeat_does_not_complete_observed_stop_while_runtime_control_is_fresh() {
    let mut i = quiet_instance();
    i.studio_control_state = "stopping".to_owned();
    i.studio_transition_phase = "stopping_observed".to_owned();
    i.studio_transition_started_at = Some(NOW);
    i.studio_control_observed_at = Some(NOW);
    i.stop_request_id = 4;
    i.stop_result_phase = Some("observed".to_owned());
    i.stop_result_observed_at = Some(NOW);
    let mut state = state_with(i);
    assert!(is_taken(apply_edit_heartbeat(&mut state, "instance-a", NOW)));
    let i = instance(&state);
    assert_eq!(i.studio_control_state, "stopping");
    assert_eq!(i.studio_transition_phase, "stopping_observed");
    assert_eq!(i.stop_result_phase.as_deref(), Some("observed"));
    assert_eq!(edit_runtime_state(i, NOW), "stopping");
    assert_eq!(active_stop_request_id_for_instance(i), Some(4));
}

#[test]
fn control_heartbeat_rejects_invalid_or_stopped_modes_without_mutating_instance() {
    let mut state = state_with(test_instance(PLACE, Some("task-a"), 0));
    assert!(matches!(
        apply_control_heartbeat(&mut state, "instance-a", "bogus", NOW),
        ReportReply::Invalid(_)
    ));
    assert!(matches!(
        apply_control_heartbeat(&mut state, "instance-a", "stop", NOW),
        ReportReply::Invalid(_)
    ));
    let i = instance(&state);
    assert_eq!(i.studio_mode.as_deref(), Some("stop"));
    assert_eq!(i.studio_control_state, "none");
    assert_eq!(i.studio_transition_phase, "idle");
    assert!(i.studio_control_observed_at.is_none());
}

#[test]
fn control_heartbeat_keeps_edit_runtime_unavailable_during_runtime() {
    let mut state = state_with(quiet_instance());
    assert!(is_taken(apply_control_heartbeat(
        &mut state,
        "instance-a",
        "start_play",
        NOW
    )));
    assert_eq!(edit_runtime_state(instance(&state), NOW), "runtime");
    assert!(is_taken(apply_edit_heartbeat(&mut state, "instance-a", NOW)));
    assert_eq!(edit_runtime_state(instance(&state), NOW), "runtime");
}

#[test]
fn edit_heartbeat_recovers_runtime_latch_after_manual_stop() {
    let mut i = test_instance(PLACE, Some("task-a"), 0);
    i.studio_control_state = "ready".to_owned();
    i.studio_transition_phase = "running".to_owned();
    i.studio_control_observed_at = Some(STALE);
    set_edit_runtime_unavailable(&mut i, "runtime");
    let mut state = state_with(i);
    assert!(is_taken(apply_edit_heartbeat(&mut state, "instance-a", NOW)));
    let i = instance(&state);
    assert_eq!(i.studio_control_state, "none");
    assert_eq!(i.studio_transition_phase, "idle");
    assert_eq!(edit_runtime_state(i, NOW), "ready");
}

#[test]
fn edit_heartbeat_recovers_launch_failed_latch_after_manual_stop() {
    let mut i = test_instance(PLACE, Some("task-a"), 0);
    i.studio_control_state = "ready".to_owned();
    i.studio_transition_phase = "running".to_owned();
    i.studio_control_observed_at = Some(STALE);
    set_edit_runtime_unavailable(&mut i, "launch_failed");
    let mut state = state_with(i);
    assert!(is_taken(apply_edit_heartbeat(&mut state, "instance-a", NOW)));
    let i = instance(&state);
    assert_eq!(i.studio_control_state, "none");
    assert_eq!(i.studio_transition_phase, "idle");
    assert_eq!(edit_runtime_state(i, NOW), "ready");
}

#[test]
fn reports_of_unknown_plugins_expire() {
    let mut state = HelperState::new();
    assert!(matches!(
        apply_edit_heartbeat(&mut state, "x", NOW),
        ReportReply::Expired
    ));
    assert!(matches!(
        apply_control_heartbeat(&mut state, "x", "start_play", NOW),
        ReportReply::Expired
    ));
    assert!(matches!(
        apply_plugin_stop_result(&mut state, &stop_result(1, "observed", None), NOW),
        ReportReply::Expired
    ));
    assert!(matches!(
        take_plugin_command(&mut state, "x", NOW),
        CommandPoll::Expired
    ));
    assert!(poll_plugin_stop(&mut state, "x", None, NOW).is_none());
    match request_plugin_stop(&mut state, "x", NOW) {
        Err((status, message)) => {
            assert_eq!(status, 400);
            assert_eq!(message, "plugin instance expired: x");
        }
        Ok(_) => panic!("there is no such plugin"),
    }
}

#[test]
fn invalid_launch_mode_rejects_before_stop_request() {
    let state = state_with(playing_instance());
    let launch = command("request-a", "LaunchStudioSession", "{\"mode\":\"bogus\"}");
    let (tool, _) = extract_tool_name_and_args(&launch).ok().unwrap();
    assert!(matches!(classify_tool(&tool), CommandKind::LaunchSession));
    let error = validate_launch_studio_session_mode("bogus")
        .expect_err("invalid launch mode must reject before stopping Studio");
    assert!(error.contains("must be start_play or run_server"));
    let i = instance(&state);
    assert_eq!(i.stop_request_id, 0);
    assert_eq!(i.studio_control_state, "ready");
    assert_eq!(i.studio_transition_phase, "running");
    assert!(validate_launch_studio_session_mode("start_play").is_ok());
    assert!(validate_launch_studio_session_mode("run_server").is_ok());
    assert!(validate_start_stop_play_mode("stop").is_ok());
    assert!(validate_start_stop_play_mode("start_play").is_err());
}

#[test]
fn stop_request_records_poll_and_completion_diagnostics() {
    let mut i = quiet_instance();
    i.studio_mode_observed_at = None;
    i.studio_control_state = "ready".to_owned();
    i.studio_transition_phase = "running".to_owned();
    i.studio_control_observed_at = Some(NOW);
    let mut state = state_with(i);

    assert!(request_plugin_stop(&mut state, "instance-a", NOW).is_ok());
    {
        let i = instance(&state);
        assert_eq!(i.stop_request_id, 1);
        assert_eq!(i.studio_control_state, "stopping");
        assert_eq!(i.studio_transition_phase, "stopping_requested");
        assert!(i.stop_request_recorded_at.is_some());
        assert_eq!(active_stop_request_id_for_instance(i), Some(1));
        assert!(i.stop_result_phase.is_none());
    }
    let polled = poll_plugin_stop(&mut state, "instance-a", Some(0), NOW).unwrap();
    assert!(polled.stop_requested);
    assert_eq!(polled.stop_request_id, 1);
    assert!(instance(&state).stop_request_last_polled_at.is_some());
    assert_eq!(instance(&state).stop_request_last_poll_id, Some(1));

    let snapshot = task_studio_mode_snapshot(&state, "task-a", NOW);
    assert_eq!(snapshot.studio_transition_phase, "stopping_requested");
    assert_eq!(snapshot.studio_control_state, "stopping");
    assert_eq!(snapshot.active_stop_request_id, Some(1));
    assert_eq!(snapshot.last_stop_request_id, 1);
    assert_eq!(snapshot.runtime_actuator_last_poll_id, Some(1));

    assert!(is_taken(apply_plugin_stop_result(
        &mut state,
        &stop_result(1, "observed", None),
        NOW
    )));
    set_instance(&mut state, |i| i.studio_control_observed_at = Some(STALE));
    assert!(is_taken(apply_edit_heartbeat(&mut state, "instance-a", NOW)));
    let i = instance(&state);
    assert!(i.studio_mode.is_none());
    assert_eq!(i.studio_control_state, "none");
    assert_eq!(i.studio_transition_phase, "idle");
    assert_eq!(i.stop_result_phase.as_deref(), Some("completed"));
    assert!(i.stop_result_error.is_none());
    assert!(i.stop_result_observed_at.is_some());
}

#[test]
fn stop_request_rejects_stale_runtime_actuator_without_recording() {
    let mut i = test_instance(PLACE, Some("task-a"), 0);
    i.studio_control_state = "ready".to_owned();
    i.studio_transition_phase = "running".to_owned();
    i.studio_control_observed_at = Some(STALE);
    set_edit_runtime_unavailable(&mut i, "runtime");
    let mut state = state_with(i);
    match request_plugin_stop(&mut state, "instance-a", NOW) {
        Err((status, message)) => {
            assert_eq!(status, 409);
            assert_eq!(
                message,
                "runtime_stop_actuator_unavailable: studio_control_state=ready studio_transition_phase=running control_age_ms=Some(2001) edit_runtime_state=runtime unavailable_reason=Some(\"runtime\")"
            );
        }
        Ok(_) => panic!("a stale runtime cannot be stopped"),
    }
    let i = instance(&state);
    assert_eq!(i.stop_request_id, 0);
    assert_eq!(i.studio_transition_phase, "running");
    assert_eq!(edit_runtime_state(i, NOW), "runtime");
}

#[test]
fn stop_live_query_stop_returns_already_stopped_even_if_edit_runtime_is_stale() {
    let mut i = test_instance(PLACE, Some("task-a"), 0);
    i.edit_runtime_observed_at = Some(NOW - EDIT_RUNTIME_STALE_AFTER - MS);
    i.studio_control_state = "none".to_owned();
    i.studio_transition_phase = "idle".to_owned();
    let mut state = state_with(i);
    let live = live_state(&mut state, "instance-a", "stop");
    match judge_stop(&live) {
        StopDecision::AlreadyStopped(text) => assert!(text.contains("already_stopped")),
        _ => panic!("stable stop should be an already_stopped success"),
    }
    assert!(instance(&state).queue.is_empty());
    assert_eq!(instance(&state).stop_request_id, 0);
}

#[test]
fn stop_live_query_rejects_instance_id_mismatch_without_recording_stop() {
    let mut i = test_instance(PLACE, Some("task-a"), 0);
    i.studio_control_state = "ready".to_owned();
    i.studio_transition_phase = "running".to_owned();
    i.studio_control_observed_at = Some(NOW);
    let mut state = state_with(i);
    let live = live_state(&mut state, "other-instance", "play");
    match judge_stop(&live) {
        StopDecision::Refuse(error) => assert!(error.contains("instance_id mismatch")),
        _ => panic!("mismatched live query instance must fail"),
    }
    assert_eq!(instance(&state).stop_request_id, 0);
}

#[test]
fn plugin_response_rejects_wrong_instance_id_without_consuming_pending_request() {
    let mut state = state_with(test_instance(PLACE, Some("task-a"), 0));
    state.instances.insert(
        "instance-b".to_owned(),
        test_instance(PLACE, Some("task-a"), 0),
    );
    state.waiting_for_plugin.insert(
        "request-a".to_owned(),
        PendingPluginResponse {
            instance_id: "instance-a".to_owned(),
            tool_name: "GetStudioSessionState".to_owned(),
        },
    );
    let mut answer = PluginResponsePayload {
        instance_id: Some("instance-b".to_owned()),
        id: "request-a".to_owned(),
        success: true,
        response: "{}".to_owned(),
    };
    assert!(matches!(
        apply_plugin_response(&mut state, &answer),
        Delivery::Dropped
    ));
    assert!(state.waiting_for_plugin.contains_key("request-a"));
    answer.instance_id = Some("instance-a".to_owned());
    assert!(matches!(
        apply_plugin_response(&mut state, &answer),
        Delivery::Delivered(_)
    ));
    assert!(matches!(
        apply_plugin_response(&mut state, &answer),
        Delivery::Dropped
    ));
}

#[test]
fn stop_live_query_play_records_runtime_stop_request() {
    let mut i = playing_instance();
    set_edit_runtime_unavailable(&mut i, "runtime");
    let mut state = state_with(i);
    let live = live_state(&mut state, "instance-a", "play");
    assert!(matches!(judge_stop(&live), StopDecision::Proceed));
    let begun = begin_runtime_stop(
        &mut state,
        PLACE,
        Some("task-a"),
        live.instance_id.as_deref(),
        NOW,
    )
    .ok()
    .expect("stop request should be recorded after live play state");
    assert_eq!(begun.stop_request_id, 1);
    assert_eq!(instance(&state).stop_request_id, 1);

    assert!(is_taken(apply_plugin_stop_result(
        &mut state,
        &stop_result(1, "observed", None),
        NOW
    )));
    assert!(
        matches!(
            check_runtime_stop(&state, "instance-a", 1, NOW),
            StopProgress::Waiting
        ),
        "remote stop must keep waiting after observed until edit heartbeat completes stop"
    );
    set_instance(&mut state, |i| i.studio_control_observed_at = Some(STALE));
    assert!(is_taken(apply_edit_heartbeat(&mut state, "instance-a", NOW)));
    assert!(matches!(
        check_runtime_stop(&state, "instance-a", 1, NOW),
        StopProgress::Stopped
    ));
}

#[test]
fn stop_that_takes_too_long_is_given_up() {
    let mut state = state_with(playing_instance());
    let begun = begin_runtime_stop(&mut state, PLACE, Some("task-a"), None, NOW)
        .ok()
        .expect("the running session should be stopped");
    let (message, task) = give_up_on_stop(&mut state, "instance-a", begun.stop_request_id, NOW);
    assert!(message.starts_with("runtime_stop_timeout: stop_request_id=1 "));
    assert_eq!(task.as_deref(), Some("task-a"));
    let i = instance(&state);
    assert_eq!(i.studio_transition_phase, "error");
    assert_eq!(active_stop_request_id_for_instance(i), None);
    match check_runtime_stop(&state, "instance-a", 1, NOW) {
        StopProgress::Failed(_) => {}
        _ => panic!("a stop that was given up has failed"),
    }
    assert!(matches!(
        apply_plugin_stop_result(&mut state, &stop_result(1, "observed", None), NOW),
        ReportReply::Ignored
    ));
    let polled = poll_plugin_stop(&mut state, "instance-a", Some(0), NOW).unwrap();
    assert!(!polled.stop_requested);
}

#[test]
fn runtime_stop_result_acknowledges_and_fails_active_stop_request() {
    let mut i = test_instance(PLACE, Some("task-a"), 0);
    i.studio_mode = Some("start_play".to_owned());
    i.studio_mode_source = "play_control".to_owned();
    i.studio_mode_observed_at = Some(NOW);
    i.studio_control_state = "stopping".to_owned();
    i.studio_transition_phase = "stopping_requested".to_owned();
    i.studio_control_observed_at = Some(NOW);
    i.stop_request_id = 2;
    let mut state = state_with(i);

    assert!(is_taken(apply_plugin_stop_result(
        &mut state,
        &stop_result(2, "observed", None),
        NOW
    )));
    assert_eq!(instance(&state).studio_control_state, "stopping");
    assert_eq!(instance(&state).studio_transition_phase, "stopping_observed");
    assert!(instance(&state).studio_control_last_error.is_none());

    let polled = poll_plugin_stop(&mut state, "instance-a", Some(0), NOW).unwrap();
    assert!(!polled.stop_requested);
    assert_eq!(polled.stop_request_id, 2);

    assert!(is_taken(apply_plugin_stop_result(
        &mut state,
        &stop_result(2, "failed", Some("EndTest: can only be called once")),
        NOW
    )));
    {
        let i = instance(&state);
        assert_eq!(effective_studio_control_state(i, NOW), "lost");
        assert_eq!(effective_studio_transition_phase(i, NOW), "error");
        assert!(i
            .studio_control_last_error
            .as_deref()
            .unwrap_or_default()
            .contains("EndTest: can only be called once"));
    }
    assert!(is_taken(apply_control_heartbeat(
        &mut state,
        "instance-a",
        "start_play",
        NOW
    )));
    let i = instance(&state);
    assert_eq!(effective_studio_control_state(i, NOW), "lost");
    assert_eq!(effective_studio_transition_phase(i, NOW), "error");
    assert_eq!(
        i.studio_control_last_error.as_deref(),
        Some("runtime_stop_failed: play runtime failed to execute stop_request_id=2: EndTest: can only be called once")
    );
}

#[test]
fn stop_results_with_other_phases_are_invalid() {
    let mut i = playing_instance();
    i.studio_transition_phase = "stopping_requested".to_owned();
    i.stop_request_id = 2;
    let mut state = state_with(i);
    match apply_plugin_stop_result(&mut state, &stop_result(2, "done", None), NOW) {
        ReportReply::Invalid(message) => assert_eq!(message, "invalid stop result phase"),
        _ => panic!("there is no such phase"),
    }
    assert!(matches!(
        apply_plugin_stop_result(&mut state, &stop_result(1, "observed", None), NOW),
        ReportReply::Ignored
    ));
}

#[test]
fn helper_launch_rejects_play_state_without_recording_stop_request() {
    let mut state = state_with(playing_instance());
    let live = live_state(&mut state, "instance-a", "play");
    let error = judge_launch(&live)
        .expect_err("helper must reject relaunching an existing play session");
    assert!(error.contains("studio_already_playing"));
    let i = instance(&state);
    assert_eq!(i.stop_request_id, 0);
    assert_eq!(edit_runtime_state(i, NOW), "ready");
    assert_eq!(i.studio_transition_phase, "running");
    assert!(i.queue.is_empty());
    assert!(state.waiting_for_plugin.is_empty());
}

#[test]
fn helper_launch_forwards_from_stop_without_rewriting_response() {
    let mut state = state_with(test_instance(PLACE, Some("task-a"), 0));
    let expected_response = concat_json(&[
        ("actions", "[\"start_play\"]"),
        ("final_mode", "\"start_play\""),
        ("message", "\"Launched Studio session in start_play.\""),
        ("previous_mode", "\"stop\""),
        ("requested_mode", "\"start_play\""),
        ("restart_applied", "false"),
    ]);
    let live = live_state(&mut state, "instance-a", "stop");
    judge_launch(&live).expect("a stopped session may be launched");
    let sent = dispatch_to_plugin(
        &mut state,
        PLACE,
        Some("task-a"),
        command("request-a", "LaunchStudioSession", "{\"mode\":\"start_play\"}"),
        Some("launching"),
        live.instance_id.as_deref(),
        NOW,
    )
    .ok()
    .expect("the launch should be handed to the plugin");
    assert_eq!(sent.task_id.as_deref(), Some("task-a"));
    let taken = match take_plugin_command(&mut state, "instance-a", NOW) {
        CommandPoll::Command(taken) => taken,
        _ => panic!("the launch should be waiting"),
    };
    {
        let i = instance(&state);
        assert_eq!(i.stop_request_id, 0);
        assert_eq!(edit_runtime_state(i, NOW), "launching");
        assert!(i.queue.is_empty());
    }
    assert!(is_taken(apply_edit_heartbeat(&mut state, "instance-a", NOW)));
    assert_eq!(edit_runtime_state(instance(&state), NOW), "launching");
    let (tool, payload) = extract_tool_name_and_args(&taken).ok().unwrap();
    assert_eq!(tool, "LaunchStudioSession");
    assert_eq!(payload, "{\"mode\":\"start_play\"}");

    let answer = PluginResponsePayload {
        instance_id: Some("instance-a".to_owned()),
        id: extract_command_id(&taken).unwrap(),
        success: true,
        response: expected_response.clone(),
    };
    assert!(matches!(
        apply_plugin_response(&mut state, &answer),
        Delivery::Delivered(_)
    ));
    assert_eq!(
        settle_launch(&mut state, "instance-a", answer.success).as_deref(),
        Some("task-a")
    );
    assert_eq!(plugin_answer(answer), Ok(expected_response));
    assert_eq!(instance(&state).stop_request_id, 0);
    assert_eq!(edit_runtime_state(instance(&state), NOW), "runtime");
    assert!(is_taken(apply_edit_heartbeat(&mut state, "instance-a", NOW)));
    assert_eq!(edit_runtime_state(instance(&state), NOW), "runtime");
}

#[test]
fn studio_control_tools_use_extended_plugin_timeout() {
    assert_eq!(
        plugin_request_timeout_for_tool("RunCode"),
        PLUGIN_REQUEST_TIMEOUT
    );
    assert_eq!(
        plugin_request_timeout_for_tool("LaunchStudioSession"),
        PLUGIN_STUDIO_CONTROL_REQUEST_TIMEOUT
    );
    assert_eq!(
        plugin_request_timeout_for_tool("StartStopPlay"),
        PLUGIN_STUDIO_CONTROL_REQUEST_TIMEOUT
    );
    assert!(PLUGIN_STUDIO_CONTROL_REQUEST_TIMEOUT > PLUGIN_REQUEST_TIMEOUT);
    assert!(is_studio_control_tool("StartStopPlay"));
    assert!(!is_studio_control_tool("RunCode"));
}

#[test]
fn tools_are_sorted_by_who_serves_them() {
    assert!(matches!(classify_tool("TakeScreenshot"), CommandKind::TakeScreenshot));
    assert!(matches!(classify_tool("ReadStudioLog"), CommandKind::ReadStudioLog));
    assert!(matches!(classify_tool("StartStopPlay"), CommandKind::StopPlay));
    assert!(matches!(classify_tool("RunCode"), CommandKind::Forward));
}

#[test]
fn commands_without_plugin_or_name_are_refused() {
    let mut state = HelperState::new();
    let refusal = |state: &mut HelperState, command: PluginCommand| {
        dispatch_to_plugin(state, PLACE, Some("task-a"), command, None, None, NOW)
            .err()
            .expect("the command should be refused")
    };
    assert!(
        refusal(&mut state, command("r", "RunCode", "{}")).contains("no active Studio plugin")
    );
    let mut nameless = command("r", "RunCode", "{}");
    nameless.id = None;
    assert!(extract_command_id(&nameless).is_err());
    let nameless_error = refusal(&mut state, nameless);
    let mut toolless = command("r", "RunCode", "{}");
    toolless.args = None;
    let toolless_error = refusal(&mut state, toolless);
    assert_ne!(nameless_error, toolless_error);
    assert!(state.waiting_for_plugin.is_empty());
    let told = begin_live_query(&mut state, PLACE, Some("task-a"), NOW)
        .expect("without a plugin there is nobody to ask");
    assert_eq!(told.state, "none_connected");
}

#[test]
fn answers_that_come_too_late_are_dropped() {
    let mut state = state_with(test_instance(PLACE, Some("task-a"), 0));
    let sent = dispatch_to_plugin(
        &mut state,
        PLACE,
        Some("task-a"),
        command("r", "RunCode", "{}"),
        None,
        None,
        NOW,
    )
    .ok()
    .unwrap();
    let message = give_up_on_answer(&mut state, &sent.request_id, &sent.tool_name);
    assert!(message.contains("RunCode"));
    let answer = PluginResponsePayload {
        instance_id: Some("instance-a".to_owned()),
        id: "r".to_owned(),
        success: false,
        response: "late".to_owned(),
    };
    assert!(matches!(
        apply_plugin_response(&mut state, &answer),
        Delivery::Dropped
    ));
    assert_eq!(plugin_answer(answer), Err("late".to_owned()));
}

#[test]
fn failed_live_query_is_no_response() {
    let told = live_query_failed("gone");
    assert_eq!(told.state, "none_response");
    assert!(told.instance_id.is_none());
    assert!(matches!(judge_stop(&told), StopDecision::Refuse(_)));
    assert!(judge_launch(&told).is_err());
    let query = live_query_command(FIRST_QUERY);
    assert_eq!(
        query.text,
        "{\"args\":{\"GetStudioSessionState\":{}},\"id\":\"6f1a1c52-0d5e-4b7a-9c1e-2b8f4d3a7e01\"}"
    );
}

fn claimed(task_id: &str) -> HelperState {
    let mut state = HelperState::new();
    state
        .claimed_tasks
        .insert(task_id.to_owned(), test_claimed_task(task_id, PLACE));
    state
}

#[test]
fn plugin_registers_and_leaves() {
    let mut state = claimed("task-a");
    let told = register_plugin_as(
        &mut state,
        "instance-a",
        PLACE,
        None,
        Some(77),
        44750,
        NOW,
    )
    .ok()
    .expect("the only task of the place should take the plugin");
    assert_eq!(told.instance_id, "instance-a");
    assert_eq!(told.task_id.as_deref(), Some("task-a"));
    assert_eq!(told.remote_base_url, "https://example.com");
    assert_eq!(
        told.runtime_log_upload_url.as_deref(),
        Some("http://127.0.0.1:44750/runtime-log-forward/93795519121520/task/task-a/v1/runtime-logs")
    );
    let i = instance(&state);
    assert_eq!(i.studio_pid, Some(77));
    assert_eq!(edit_runtime_state(i, NOW), "ready");
    assert!(state.remote_connections.contains_key("task:task-a"));
    unregister_plugin(&mut state, "instance-a", NOW);
    assert!(state.instances.is_empty());
    assert!(state.claimed_tasks.contains_key("task-a"));
}

#[test]
fn plugin_ids_are_fresh() {
    let mut state = claimed("task-a");
    let first = register_plugin(&mut state, PLACE, None, None, 44750, NOW).ok().unwrap();
    let second = register_plugin(&mut state, PLACE, None, None, 44750, NOW).ok().unwrap();
    assert_ne!(first.instance_id, second.instance_id);
    assert_eq!(first.instance_id.len(), 36);
    assert_eq!(state.instances.len(), 2);
    assert!(register_plugin(&mut state, "1", None, None, 44750, NOW).is_err());
}

#[test]
fn plugin_routes_are_checked() {
    assert_eq!(
        check_plugin_route(" 12 ", &Some(" t-1 ".to_owned())),
        Ok(("12".to_owned(), Some("t-1".to_owned())))
    );
    assert_eq!(
        check_plugin_route("x", &None),
        Err("placeId must be digits only".to_owned())
    );
    assert_eq!(
        check_plugin_route("1", &Some("a b".to_owned())),
        Err("task_id must use [A-Za-z0-9_-] only".to_owned())
    );
}

#[test]
fn session_is_told_only_as_its_plugin_tells_it() {
    let judged = |task: Option<&str>, told_task: Option<&str>, told_state: &str| {
        judge_live_answer(
            task,
            "instance-a",
            true,
            "{}",
            &Ok(PluginStudioSessionStatePayload {
                studio_session_state: told_state.to_owned(),
                instance_id: Some("instance-a".to_owned()),
                task_id: told_task.map(str::to_owned),
            }),
        )
    };
    assert_eq!(judged(Some("task-a"), Some("task-a"), "play").state, "play");
    assert_eq!(judged(None, Some("task-b"), "stop").state, "stop");
    assert_eq!(
        judged(Some("task-a"), Some("task-b"), "play").reason.as_deref(),
        Some("studio_plugin_no_response: plugin live state task_id mismatch, expected task-a, got Some(\"task-b\")")
    );
    assert_eq!(judged(Some("task-a"), None, "play").state, "none_response");
    assert_eq!(
        judged(None, None, "paused").reason.as_deref(),
        Some("studio_plugin_no_response: invalid studio_session_state paused")
    );
    for state in ["stop", "play", "starting_play", "stopping", "paused"] {
        let live = judged(None, None, state);
        assert_eq!(
            matches!(judge_stop(&live), StopDecision::Proceed),
            state == "play"
        );
        assert_eq!(judge_launch(&live).is_ok(), state == "stop");
    }
}

#[test]
fn commands_stay_on_their_route_and_in_order() {
    let mut state = HelperState::new();
    for task in ["task-a", "task-b"] {
        state
            .claimed_tasks
            .insert(task.to_owned(), test_claimed_task(task, PLACE));
        state.instances.insert(
            format!("instance-{task}"),
            test_instance(PLACE, Some(task), 0),
        );
    }
    let first = live_query_command(FIRST_QUERY);
    let second = live_query_command(SECOND_QUERY);
    for command in [first, second] {
        let sent = dispatch_to_plugin(&mut state, PLACE, Some("task-b"), command, None, None, NOW)
            .ok()
            .expect("the command should be handed to the plugin");
        assert_eq!(sent.instance_id, "instance-task-b");
    }
    assert!(matches!(
        take_plugin_command(&mut state, "instance-task-a", NOW),
        CommandPoll::Waiting
    ));
    for id in [FIRST_QUERY, SECOND_QUERY] {
        match take_plugin_command(&mut state, "instance-task-b", NOW) {
            CommandPoll::Command(command) => assert_eq!(command.id.as_deref(), Some(id)),
            _ => panic!("a command should be waiting"),
        }
    }
    let astray = dispatch_to_plugin(
        &mut state,
        PLACE,
        Some("task-a"),
        live_query_command(THIRD_QUERY),
        None,
        Some("instance-task-b"),
        NOW,
    );
    assert_eq!(
        astray.err().as_deref(),
        Some("studio_plugin_identity_mismatch: selected plugin instance instance-task-b no longer matches place/task route")
    );
}


#[test]
fn command_is_read_from_its_text() {
    let text = "{\"id\":\"request-a\",\"args\":{\"RunCode\":{\"code\":\"print(1)\"}}}";
    let read = read_plugin_command(text);
    assert_eq!(read.text, text);
    assert_eq!(extract_command_id(&read), Ok("request-a".to_owned()));
    assert_eq!(
        extract_tool_name_and_args(&read),
        Ok(("RunCode".to_owned(), "{\"code\":\"print(1)\"}".to_owned()))
    );
    let bare = read_plugin_command("{\"id\":7,\"args\":[]}");
    assert_eq!(
        extract_command_id(&bare),
        Err("command payload missing string id".to_owned())
    );
    assert_eq!(
        extract_tool_name_and_args(&bare),
        Err("command payload missing args object".to_owned())
    );
    assert_eq!(
        extract_tool_name_and_args(&read_plugin_command("{\"args\":{}}")),
        Err("command args object was empty".to_owned())
    );
    assert!(read_plugin_command("no json").id.is_none());
}

#[test]
fn stop_is_waited_for_as_long_as_a_plugin_may_take() {
    assert!(!stop_wait_is_over(NOW, NOW));
    assert!(!stop_wait_is_over(NOW, NOW + PLUGIN_STUDIO_CONTROL_REQUEST_TIMEOUT - 1));
    assert!(stop_wait_is_over(NOW, NOW + PLUGIN_STUDIO_CONTROL_REQUEST_TIMEOUT));
    assert!(!stop_wait_is_over(u128::MAX, u128::MAX));
}
