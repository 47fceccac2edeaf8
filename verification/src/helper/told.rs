//! What a helper tells of itself: each number and word of a status is read off one record, and of the
//! right one.
use vstd::prelude::*;

use super::records::{
    ClaimedTaskView, HelperStateView, LaunchProcessRecordView, PluginInstanceView,
    RemoteConnectionState,
};
use super::status::HelperIdentityView;

verus! {

/// How many milliseconds ago that was; nought for what is yet to come.
pub open spec fn age(now: u128, at: Option<u128>) -> Option<u128> {
    match at {
        Some(then) => Some(
            if now >= then {
                ((now - then) / 1_000_000) as u128
            } else {
                0
            },
        ),
        None => None,
    }
}

/// The number, or the largest that fits where it does not fit.
pub open spec fn short(ms: Option<u128>) -> Option<u64> {
    match ms {
        Some(n) => Some(
            if n <= u64::MAX {
                n as u64
            } else {
                u64::MAX
            },
        ),
        None => None,
    }
}

/// How many milliseconds ago that was, as it is sent to a server.
pub open spec fn short_age(now: u128, at: Option<u128>) -> Option<u64> {
    short(age(now, at))
}

/// The word for the state of a connection.
pub open spec fn line_state(s: HelperStateView, key: Seq<char>) -> Seq<char> {
    if !s.remote_connections.contains_key(key) {
        "disconnected"@
    } else if s.remote_connections[key].connection_state == RemoteConnectionState::Connecting {
        "connecting"@
    } else if s.remote_connections[key].connection_state == RemoteConnectionState::Connected {
        "connected"@
    } else if s.remote_connections[key].connection_state == RemoteConnectionState::Retrying {
        "retrying"@
    } else {
        "error"@
    }
}

/// Ages are whole milliseconds, and shortened to what is sent.
pub proof fn law_ages_are_milliseconds(now: u128, at: Option<u128>, ms: Option<u128>)
    ensures
        crate::clock::age_of(now, at) == age(now, at),
        super::task_status::ws_age(ms) == short(ms),
{
}

/// What is told of the mode of a task is read off the plugin of the task that was seen last.
pub proof fn law_newest_plugin_is_told(
    instances: Map<Seq<char>, PluginInstanceView>,
    task_id: Seq<char>,
    j: Seq<char>,
    now: u128,
)
    requires
        instances.dom().finite(),
        instances.contains_key(j),
        instances[j].task_id == Some(task_id),
    ensures
        ({
            let told = super::session::task_snapshot(instances, task_id, now);
            exists|k: Seq<char>| #[trigger]
                instances.contains_key(k) && instances[k].task_id == Some(task_id)
                    && instances[k].last_seen_at >= instances[j].last_seen_at && told.studio_mode
                    == instances[k].studio_mode && told.studio_mode_age_ms == age(
                    now,
                    instances[k].studio_mode_observed_at,
                ) && told.studio_mode_source == instances[k].studio_mode_source
                    && told.studio_transition_age_ms == age(
                    now,
                    instances[k].studio_transition_started_at,
                ) && told.studio_control_last_error == instances[k].studio_control_last_error
        }),
{
    crate::table::lemma_best_exists(
        instances,
        |k: Seq<char>, i: PluginInstanceView| super::session::of_task(i, task_id),
        |i: PluginInstanceView| (i.last_seen_at, 0u128, 0u128),
        true,
        j,
    );
    let k = super::session::newest_instance(instances, task_id)->0;
    assert(instances.contains_key(k));
}

/// What is told of the stop of a task is read off one plugin of the task: off one whose stop is under way
/// where there is one, and among those off the one with the latest stop.
pub proof fn law_latest_stop_is_told(
    instances: Map<Seq<char>, PluginInstanceView>,
    task_id: Seq<char>,
    j: Seq<char>,
    now: u128,
)
    requires
        instances.dom().finite(),
        instances.contains_key(j),
        instances[j].task_id == Some(task_id),
    ensures
        ({
            let told = super::session::task_snapshot(instances, task_id, now);
            let asked = |i: PluginInstanceView|
                i.stop_request_id > 0 && super::session_duties::stopping(i);
            exists|k: Seq<char>| #[trigger]
                instances.contains_key(k) && instances[k].task_id == Some(task_id) && (asked(
                    instances[j],
                ) ==> asked(instances[k])) && (asked(instances[j]) == asked(instances[k])
                    ==> instances[k].stop_request_id >= instances[j].stop_request_id)
                    && told.active_stop_request_id == (if asked(instances[k]) {
                    Some(instances[k].stop_request_id)
                } else {
                    None
                }) && told.last_stop_request_id == instances[k].stop_request_id
                    && told.stop_request_recorded_age_ms == age(
                    now,
                    instances[k].stop_request_recorded_at,
                ) && told.runtime_actuator_last_poll_id == instances[k].stop_request_last_poll_id
                    && told.runtime_actuator_last_poll_age_ms == age(
                    now,
                    instances[k].stop_request_last_polled_at,
                ) && told.stop_result_phase == instances[k].stop_result_phase
                    && told.stop_result_age_ms == age(now, instances[k].stop_result_observed_at)
                    && told.stop_result_error == instances[k].stop_result_error && (asked(
                    instances[k],
                ) ==> told.studio_transition_phase == super::session::effective_phase(
                    instances[k],
                    now,
                ) && told.studio_control_state == super::session::effective_control(
                    instances[k],
                    now,
                ))
        }),
{
    crate::table::lemma_best_exists(
        instances,
        |k: Seq<char>, i: PluginInstanceView| super::session::of_task(i, task_id),
        |i: PluginInstanceView| super::session::stop_rank(i),
        true,
        j,
    );
    let k = super::session::stop_instance(instances, task_id)->0;
    assert(instances.contains_key(k));
}

/// A task without a plugin is told of with nothing in it.
pub proof fn law_absent_plugin_is_told(
    instances: Map<Seq<char>, PluginInstanceView>,
    task_id: Seq<char>,
    now: u128,
)
    requires
        forall|k: Seq<char>| #[trigger]
            instances.contains_key(k) ==> instances[k].task_id != Some(task_id),
    ensures
        ({
            let told = super::session::task_snapshot(instances, task_id, now);
            &&& told.studio_session_state == "none_connected"@
            &&& told.last_known_session_state is None
            &&& told.last_session_error_reason == Some("studio_plugin_not_connected"@)
            &&& told.studio_mode is None
            &&& told.studio_mode_age_ms is None
            &&& told.studio_mode_source == "none"@
            &&& told.studio_control_state == "none"@
            &&& told.studio_transition_phase == "idle"@
            &&& told.edit_runtime_state == "missing"@
            &&& told.edit_runtime_age_ms is None
            &&& told.active_stop_request_id is None
            &&& told.last_stop_request_id == 0
            &&& told.stop_result_phase is None
        }),
{
    assert(!super::session::some_instance(instances, task_id));
}

/// What a server is told of a task is what the helper knows of it, age by age.
pub proof fn law_server_is_told(s: HelperStateView, task_id: Seq<char>, now: u128)
    ensures
        ({
            let told = super::task_status::task_status_told(s, task_id, now);
            let t = super::session::task_snapshot(s.instances, task_id, now);
            let known = s.official_adapter_states.contains_key(task_id);
            let record = s.official_adapter_states[task_id];
            let adapter = if !known {
                "not_started"@
            } else if record.state == "ready"@ && t.edit_runtime_state != "ready"@ {
                "stale"@
            } else {
                record.state
            };
            &&& told.task_id == task_id
            &&& told.studio_session_state == Some(t.studio_session_state)
            &&& told.last_known_session_state == t.last_known_session_state
            &&& told.last_session_error_reason == t.last_session_error_reason
            &&& told.studio_mode == t.studio_mode
            &&& told.studio_mode_age_ms == short(t.studio_mode_age_ms)
            &&& told.studio_mode_source == Some(t.studio_mode_source)
            &&& told.studio_control_state == Some(t.studio_control_state)
            &&& told.studio_transition_phase == Some(t.studio_transition_phase)
            &&& told.studio_transition_age_ms == short(t.studio_transition_age_ms)
            &&& told.edit_runtime_state == Some(t.edit_runtime_state)
            &&& told.edit_runtime_age_ms == short(t.edit_runtime_age_ms)
            &&& told.studio_control_last_error == t.studio_control_last_error
            &&& told.active_stop_request_id == t.active_stop_request_id
            &&& told.last_stop_request_id == Some(t.last_stop_request_id)
            &&& told.stop_request_recorded_age_ms == short(t.stop_request_recorded_age_ms)
            &&& told.runtime_actuator_last_poll_id == t.runtime_actuator_last_poll_id
            &&& told.runtime_actuator_last_poll_age_ms == short(t.runtime_actuator_last_poll_age_ms)
            &&& told.stop_result_phase == t.stop_result_phase
            &&& told.stop_result_age_ms == short(t.stop_result_age_ms)
            &&& told.stop_result_error == t.stop_result_error
            &&& told.official_mcp_adapter_state == Some(adapter)
            &&& told.official_mcp_adapter_age_ms == if known {
                short_age(now, Some(record.observed_at))
            } else {
                None
            }
            &&& told.official_mcp_adapter_last_error == if known {
                record.last_error
            } else {
                None
            }
            &&& told.runtime_log_forward == Some(
                super::task_status::forward_told(super::forward_duties::counts(s, task_id), now),
            )
        }),
{
}

/// What the hub is told of a task is what the helper knows of it and of its connection.
pub proof fn law_hub_is_told(s: HelperStateView, task_id: Seq<char>, now: u128)
    ensures
        ({
            let told = super::task_status::report_told(s, task_id, now);
            let t = super::session::task_snapshot(s.instances, task_id, now);
            let key = "task:"@ + task_id;
            let there = s.remote_connections.contains_key(key);
            let c = s.remote_connections[key];
            let known = s.official_adapter_states.contains_key(task_id);
            let record = s.official_adapter_states[task_id];
            let adapter = if !known {
                "not_started"@
            } else if record.state == "ready"@ && t.edit_runtime_state != "ready"@ {
                "stale"@
            } else {
                record.state
            };
            &&& told.task_id == task_id
            &&& told.remote_state == line_state(s, key)
            &&& told.remote_connection_id == if there {
                c.connection_id
            } else {
                None
            }
            &&& told.remote_last_ready_age_ms == if there {
                age(now, c.last_ready_at)
            } else {
                None
            }
            &&& told.remote_last_server_message_age_ms == if there {
                age(now, c.last_server_message_at)
            } else {
                None
            }
            &&& told.remote_last_error is Some <==> s.last_remote_errors.contains_key(key)
            &&& told.remote_last_error matches Some(error) ==> error == s.last_remote_errors[key]
            &&& told.studio_session_state == t.studio_session_state
            &&& told.last_known_session_state == t.last_known_session_state
            &&& told.last_session_error_reason == t.last_session_error_reason
            &&& told.studio_mode == t.studio_mode
            &&& told.studio_mode_age_ms == t.studio_mode_age_ms
            &&& told.studio_mode_source == t.studio_mode_source
            &&& told.studio_control_state == t.studio_control_state
            &&& told.studio_transition_phase == t.studio_transition_phase
            &&& told.studio_transition_age_ms == t.studio_transition_age_ms
            &&& told.edit_runtime_state == t.edit_runtime_state
            &&& told.edit_runtime_age_ms == t.edit_runtime_age_ms
            &&& told.studio_control_last_error == t.studio_control_last_error
            &&& told.active_stop_request_id == t.active_stop_request_id
            &&& told.last_stop_request_id == t.last_stop_request_id
            &&& told.stop_request_recorded_age_ms == t.stop_request_recorded_age_ms
            &&& told.runtime_actuator_last_poll_id == t.runtime_actuator_last_poll_id
            &&& told.runtime_actuator_last_poll_age_ms == t.runtime_actuator_last_poll_age_ms
            &&& told.stop_result_phase == t.stop_result_phase
            &&& told.stop_result_age_ms == t.stop_result_age_ms
            &&& told.stop_result_error == t.stop_result_error
            &&& told.official_mcp_adapter_state == adapter
            &&& told.official_mcp_adapter_age_ms == if known {
                age(now, Some(record.observed_at))
            } else {
                None
            }
            &&& told.official_mcp_adapter_last_error == if known {
                record.last_error
            } else {
                None
            }
            &&& told.runtime_log_forward == super::task_status::forward_told(
                super::forward_duties::counts(s, task_id),
                now,
            )
        }),
{
}

/// What is told of a claim is the claim itself, the helper's own addresses for it, and what the helper
/// knows of its task, its connection and its process.
pub proof fn law_claim_is_told(s: HelperStateView, task: ClaimedTaskView, port: u16, now: u128)
    ensures
        ({
            let told = super::status::claim_told(s, task, port, now);
            let task_id = task.task_id;
            let t = super::session::task_snapshot(s.instances, task_id, now);
            let key = "task:"@ + task_id;
            let there = s.remote_connections.contains_key(key);
            let c = s.remote_connections[key];
            let own = super::forward_duties::own_address(
                port,
                "runtime-log-forward"@,
                task.place_id,
                task_id,
            );
            let known = s.official_adapter_states.contains_key(task_id);
            let record = s.official_adapter_states[task_id];
            let adapter = if !known {
                "not_started"@
            } else if record.state == "ready"@ && t.edit_runtime_state != "ready"@ {
                "stale"@
            } else {
                record.state
            };
            &&& told.task_id == task.task_id
            &&& told.place_id == task.place_id
            &&& told.universe_id == task.universe_id
            &&& told.mcp_base_url == task.mcp_base_url
            &&& told.rojo_base_url == task.rojo_base_url
            &&& told.runtime_log_base_url is Some <==> task.runtime_log_base_url is Some
            &&& told.runtime_log_base_url matches Some(url) ==> url == own
            &&& told.runtime_log_upload_url is Some <==> task.runtime_log_base_url is Some
            &&& told.runtime_log_upload_url matches Some(url) ==> url == own + "/v1/runtime-logs"@
            &&& Some(told.claimed_age_ms) == age(now, Some(task.claimed_at))
            &&& told.launched_by_helper ==> s.launch_processes.contains_key(task_id)
                && s.launch_processes[task_id].launched_by_helper
            &&& told.remote_state == line_state(s, key)
            &&& told.remote_connection_id == if there {
                c.connection_id
            } else {
                None
            }
            &&& told.remote_last_ready_age_ms == if there {
                age(now, c.last_ready_at)
            } else {
                None
            }
            &&& told.remote_last_server_message_age_ms == if there {
                age(now, c.last_server_message_at)
            } else {
                None
            }
            &&& told.remote_last_error is Some <==> s.last_remote_errors.contains_key(key)
            &&& told.remote_last_error matches Some(error) ==> error == s.last_remote_errors[key]
            &&& told.studio_session_state == t.studio_session_state
            &&& told.last_known_session_state == t.last_known_session_state
            &&& told.last_session_error_reason == t.last_session_error_reason
            &&& told.studio_mode == t.studio_mode
            &&& told.studio_mode_age_ms == t.studio_mode_age_ms
            &&& told.studio_mode_source == t.studio_mode_source
            &&& told.studio_control_state == t.studio_control_state
            &&& told.studio_transition_phase == t.studio_transition_phase
            &&& told.studio_transition_age_ms == t.studio_transition_age_ms
            &&& told.edit_runtime_state == t.edit_runtime_state
            &&& told.edit_runtime_age_ms == t.edit_runtime_age_ms
            &&& told.studio_control_last_error == t.studio_control_last_error
            &&& told.active_stop_request_id == t.active_stop_request_id
            &&& told.last_stop_request_id == t.last_stop_request_id
            &&& told.stop_request_recorded_age_ms == t.stop_request_recorded_age_ms
            &&& told.runtime_actuator_last_poll_id == t.runtime_actuator_last_poll_id
            &&& told.runtime_actuator_last_poll_age_ms == t.runtime_actuator_last_poll_age_ms
            &&& told.stop_result_phase == t.stop_result_phase
            &&& told.stop_result_age_ms == t.stop_result_age_ms
            &&& told.stop_result_error == t.stop_result_error
            &&& told.official_mcp_adapter_state == adapter
            &&& told.official_mcp_adapter_age_ms == if known {
                age(now, Some(record.observed_at))
            } else {
                None
            }
            &&& told.official_mcp_adapter_last_error == if known {
                record.last_error
            } else {
                None
            }
            &&& told.runtime_log_forward == super::task_status::forward_told(
                super::forward_duties::counts(s, task_id),
                now,
            )
        }),
{
    let own = super::forward_duties::own_address(
        port,
        "runtime-log-forward"@,
        task.place_id,
        task.task_id,
    );
    assert(own + Seq::<char>::empty() =~= own);
}

/// A plugin of the task tells the process.
pub open spec fn tells_process(s: HelperStateView, task_id: Seq<char>, pid: u32) -> bool {
    exists|k: Seq<char>| #[trigger]
        s.instances.contains_key(k) && s.instances[k].task_id == Some(task_id)
            && s.instances[k].studio_pid == Some(pid)
}

/// The process of a task is one that a plugin of the task tells, the least of them; where no plugin tells
/// one, it is the one that was launched for the task.
pub proof fn law_process_of_a_task(s: HelperStateView, task_id: Seq<char>, pid: Option<u32>, p: u32)
    requires
        super::task_status::records_wf(s),
        super::routing::is_active_pid(s, task_id, pid),
    ensures
        tells_process(s, task_id, p) ==> pid is Some && tells_process(s, task_id, pid->0) && pid->0
            <= p,
        (forall|q: u32| !#[trigger] tells_process(s, task_id, q)) ==> pid
            == if s.launch_processes.contains_key(task_id) {
            Some(s.launch_processes[task_id].studio_pid)
        } else {
            None
        },
{
    assert forall|q: u32| #[trigger]
        tells_process(s, task_id, q) <==> super::routing::pid_of_task(s, task_id, q) by {
        if tells_process(s, task_id, q) {
            let k = choose|k: Seq<char>| #[trigger]
                s.instances.contains_key(k) && s.instances[k].task_id == Some(task_id)
                    && s.instances[k].studio_pid == Some(q);
            assert(super::routing::tells(s.instances[k], task_id, q));
        }
        if super::routing::pid_of_task(s, task_id, q) {
            let k = choose|k: Seq<char>| #[trigger]
                s.instances.contains_key(k) && super::routing::tells(s.instances[k], task_id, q);
            assert(s.instances.contains_key(k));
        }
    }
    if tells_process(s, task_id, p) {
        assert(super::routing::pid_of_task(s, task_id, p));
        assert(tells_process(s, task_id, pid->0));
    }
    if forall|q: u32| !#[trigger] tells_process(s, task_id, q) {
        assert forall|q: u32| !#[trigger] super::routing::pid_of_task(s, task_id, q) by {
            assert(!tells_process(s, task_id, q));
        }
    }
}

/// What is told of a plugin is read off its record.
pub proof fn law_plugin_is_told(id: Seq<char>, i: PluginInstanceView, now: u128)
    ensures
        ({
            let told = super::status::instance_told(id, i, now);
            let brief = super::status::debug_instance_told(id, i, now);
            &&& told.instance_id == id
            &&& told.place_id == i.place_id
            &&& told.task_id == i.task_id
            &&& told.remote_base_url == i.remote_base_url
            &&& told.studio_pid == i.studio_pid
            &&& told.studio_session_state == super::session::reported_session(i, now)
            &&& told.last_known_session_state == super::session::current_session(i, now)
            &&& told.last_session_error_reason == i.studio_control_last_error
            &&& told.studio_mode == i.studio_mode
            &&& told.studio_mode_age_ms == age(now, i.studio_mode_observed_at)
            &&& told.studio_mode_source == i.studio_mode_source
            &&& told.studio_control_state == super::session::effective_control(i, now)
            &&& told.studio_transition_phase == super::session::effective_phase(i, now)
            &&& told.studio_transition_age_ms == age(now, i.studio_transition_started_at)
            &&& told.edit_runtime_state == super::session::edit_state(i, now)
            &&& told.edit_runtime_age_ms == age(now, i.edit_runtime_observed_at)
            &&& told.studio_control_last_error == i.studio_control_last_error
            &&& told.last_stop_request_id == i.stop_request_id
            &&& told.stop_request_recorded_age_ms == age(now, i.stop_request_recorded_at)
            &&& told.runtime_actuator_last_poll_id == i.stop_request_last_poll_id
            &&& told.runtime_actuator_last_poll_age_ms == age(now, i.stop_request_last_polled_at)
            &&& told.stop_result_phase == i.stop_result_phase
            &&& told.stop_result_age_ms == age(now, i.stop_result_observed_at)
            &&& told.stop_result_error == i.stop_result_error
            &&& told.active_stop_request_id == if i.stop_request_id > 0
                && super::session_duties::stopping(i) {
                Some(i.stop_request_id)
            } else {
                None
            }
            &&& brief.instance_id == id
            &&& brief.place_id == i.place_id
            &&& brief.task_id == i.task_id
            &&& brief.remote_base_url == i.remote_base_url
            &&& brief.studio_pid == i.studio_pid
            &&& brief.studio_mode == i.studio_mode
            &&& brief.studio_mode_age_ms == age(now, i.studio_mode_observed_at)
            &&& brief.studio_mode_source == i.studio_mode_source
            &&& brief.studio_control_state == super::session::effective_control(i, now)
            &&& brief.studio_transition_phase == super::session::effective_phase(i, now)
            &&& brief.studio_transition_age_ms == age(now, i.studio_transition_started_at)
            &&& brief.edit_runtime_state == super::session::edit_state(i, now)
            &&& brief.edit_runtime_age_ms == age(now, i.edit_runtime_observed_at)
            &&& brief.studio_control_last_error == i.studio_control_last_error
        }),
{
}

/// What is told of a process is read off its record.
pub proof fn law_process_is_told(launch: LaunchProcessRecordView)
    ensures
        ({
            let told = super::status::launch_told(launch);
            &&& told.task_id == launch.task_id
            &&& told.place_id == launch.place_id
            &&& told.universe_id == launch.universe_id
            &&& told.studio_pid == launch.studio_pid
            &&& told.launched_by_helper == launch.launched_by_helper
        }),
{
}

/// A place is told with its claim where it has just one, and with no claim where it has none or more.
pub proof fn law_place_is_told(
    s: HelperStateView,
    place_id: Seq<char>,
    a: Seq<char>,
    b: Seq<char>,
    port: u16,
    now: u128,
)
    requires
        super::task_status::records_wf(s),
        s.claimed_tasks.dom().finite(),
        s.instances.dom().finite(),
    ensures
        ({
            let told = super::status::place_told(s, place_id, port, now);
            let task = s.claimed_tasks[a];
            let only = s.claimed_tasks.contains_key(a) && task.place_id == place_id && forall|
                k: Seq<char>,
            | #[trigger]
                s.claimed_tasks.contains_key(k) && s.claimed_tasks[k].place_id == place_id ==> k
                    == a;
            let two = a != b && s.claimed_tasks.contains_key(a) && s.claimed_tasks.contains_key(b)
                && s.claimed_tasks[a].place_id == place_id && s.claimed_tasks[b].place_id
                == place_id;
            let none = forall|k: Seq<char>| #[trigger]
                s.claimed_tasks.contains_key(k) ==> s.claimed_tasks[k].place_id != place_id;
            let key = "task:"@ + a;
            let there = s.remote_connections.contains_key(key);
            let c = s.remote_connections[key];
            let own = super::forward_duties::own_address(
                port,
                "runtime-log-forward"@,
                place_id,
                a,
            );
            &&& told.place_id == place_id
            &&& told.registered_instance_ids.contains(b) <==> s.instances.contains_key(b)
                && s.instances[b].place_id == place_id
            &&& only ==> {
                &&& told.task_id == Some(a)
                &&& told.remote_base_url == task.mcp_base_url
                &&& told.runtime_log_base_url == if task.runtime_log_base_url is Some {
                    Some(own)
                } else {
                    None
                }
                &&& told.runtime_log_upload_url == if task.runtime_log_base_url is Some {
                    Some(own + "/v1/runtime-logs"@)
                } else {
                    None
                }
                &&& told.runtime_screenshot_upload_url == if task.runtime_log_base_url is Some {
                    Some(own + "/v1/runtime-screenshots"@)
                } else {
                    None
                }
                &&& told.remote_state == line_state(s, key)
                &&& told.remote_connection_id == if there {
                    c.connection_id
                } else {
                    None
                }
                &&& told.remote_last_ready_age_ms == if there {
                    age(now, c.last_ready_at)
                } else {
                    None
                }
                &&& told.remote_last_server_message_age_ms == if there {
                    age(now, c.last_server_message_at)
                } else {
                    None
                }
                &&& told.remote_last_error is Some <==> s.last_remote_errors.contains_key(key)
                &&& told.remote_last_error matches Some(error) ==> error == s.last_remote_errors[key]
            }
            &&& two || none ==> told.task_id is None && told.remote_base_url.len() == 0
                && told.runtime_log_base_url is None && told.runtime_log_upload_url is None
                && told.runtime_screenshot_upload_url is None && told.remote_state
                == "disconnected"@ && told.remote_connection_id is None
        }),
{
    let here = super::routing::claims_at(s, place_id);
    vstd::set_lib::lemma_set_subset_finite(s.claimed_tasks.dom(), here);
    let plugins = super::status::instances_at(s, place_id);
    vstd::set_lib::lemma_set_subset_finite(s.instances.dom(), plugins);
    crate::table::lemma_sorted_to_set(plugins);
    assert(crate::table::sorted(plugins).to_set().contains(b) == crate::table::sorted(
        plugins,
    ).contains(b));
    if s.claimed_tasks.contains_key(a) && s.claimed_tasks[a].place_id == place_id && forall|
        k: Seq<char>,
    | #[trigger]
        s.claimed_tasks.contains_key(k) && s.claimed_tasks[k].place_id == place_id ==> k == a {
        assert forall|k: Seq<char>| here.contains(k) <==> set![a].contains(k) by {
            if here.contains(k) {
                assert(s.claimed_tasks.contains_key(k));
            }
        }
        assert(here =~= set![a]);
        assert(here.contains(here.choose()));
        let own = super::forward_duties::own_address(port, "runtime-log-forward"@, place_id, a);
        assert(own + Seq::<char>::empty() =~= own);
    }
    if here.contains(a) && here.contains(b) && a != b {
        vstd::set_lib::lemma_len_subset(set![a, b], here);
        assert(set![a, b].len() == 2);
    }
    if forall|k: Seq<char>| #[trigger]
        s.claimed_tasks.contains_key(k) ==> s.claimed_tasks[k].place_id != place_id {
        assert forall|k: Seq<char>| !here.contains(k) by {
            if here.contains(k) {
                assert(s.claimed_tasks.contains_key(k));
            }
        }
        assert(here =~= Set::<Seq<char>>::empty());
    }
}

/// What a helper tells of itself is who it is, how it stands with the hub, and all that it holds.
pub proof fn law_helper_is_told(s: HelperStateView, who: HelperIdentityView, k: Seq<char>, now: u128)
    requires
        s.claimed_tasks.dom().finite(),
        s.instances.dom().finite(),
        s.claimed_tasks.dom().len() <= usize::MAX,
        s.instances.dom().len() <= usize::MAX,
    ensures
        ({
            let told = super::status::status_told(s, who, now);
            &&& told.helper_port == who.port
            &&& told.helper_id == who.helper_id
            &&& told.user_name == who.user_name
            &&& told.capacity == who.capacity
            &&& told.hub_base_url == who.hub_base_url
            &&& told.hub_last_error == s.hub_last_error
            &&& told.hub_last_claim_error == s.hub_last_claim_error
            &&& told.hub_last_ready_age_ms == age(now, s.hub_last_ready_at)
            &&& told.active_instances == s.instances.dom().len()
            &&& told.claimed_task_count == s.claimed_tasks.dom().len()
            &&& told.last_remote_errors == s.last_remote_errors
            &&& s.claimed_tasks.contains_key(k) ==> told.claimed_tasks.contains(
                super::status::claim_told(s, s.claimed_tasks[k], who.port, now),
            )
            &&& s.instances.contains_key(k) ==> told.instances.contains(
                super::status::instance_told(k, s.instances[k], now),
            )
            &&& told.active_places.contains(k) <==> (exists|i: Seq<char>| #[trigger]
                s.instances.contains_key(i) && s.instances[i].place_id == k) || (exists|
                c: Seq<char>,
            | #[trigger]
                s.claimed_tasks.contains_key(c) && s.claimed_tasks[c].place_id == k)
        }),
{
    let told = super::status::status_told(s, who, now);
    let claims = s.claimed_tasks.dom();
    let plugins = s.instances.dom();
    let places = super::status::known_places(s);
    crate::table::lemma_finite_sorted(claims);
    crate::table::lemma_finite_sorted(plugins);
    if claims.contains(k) {
        let list = crate::table::sorted(claims);
        assert(list.contains(k));
        let p = list.index_of(k);
        assert(told.claimed_tasks[p] == super::status::claim_told(
            s,
            s.claimed_tasks[k],
            who.port,
            now,
        ));
    }
    if plugins.contains(k) {
        let list = crate::table::sorted(plugins);
        assert(list.contains(k));
        let p = list.index_of(k);
        assert(told.instances[p] == super::status::instance_told(k, s.instances[k], now));
    }
    let by_plugin = plugins.map(|i: Seq<char>| s.instances[i].place_id);
    let by_claim = claims.map(|c: Seq<char>| s.claimed_tasks[c].place_id);
    plugins.lemma_map_finite(|i: Seq<char>| s.instances[i].place_id);
    claims.lemma_map_finite(|c: Seq<char>| s.claimed_tasks[c].place_id);
    assert(places.finite());
    crate::table::lemma_sorted_to_set(places);
    assert(crate::table::sorted(places).to_set().contains(k) == crate::table::sorted(
        places,
    ).contains(k));
    if by_plugin.contains(k) {
        let i = choose|i: Seq<char>| plugins.contains(i) && s.instances[i].place_id == k;
        assert(s.instances.contains_key(i));
    }
    if by_claim.contains(k) {
        let c = choose|c: Seq<char>| claims.contains(c) && s.claimed_tasks[c].place_id == k;
        assert(s.claimed_tasks.contains_key(c));
    }
    if exists|i: Seq<char>| #[trigger]
        s.instances.contains_key(i) && s.instances[i].place_id == k {
        let i = choose|i: Seq<char>| #[trigger]
            s.instances.contains_key(i) && s.instances[i].place_id == k;
        assert(plugins.contains(i));
        assert(by_plugin.contains(k));
    }
    if exists|c: Seq<char>| #[trigger]
        s.claimed_tasks.contains_key(c) && s.claimed_tasks[c].place_id == k {
        let c = choose|c: Seq<char>| #[trigger]
            s.claimed_tasks.contains_key(c) && s.claimed_tasks[c].place_id == k;
        assert(claims.contains(c));
        assert(by_claim.contains(k));
    }
}

/// What is told of a claim for those who look closer is the claim, its process, its connection and its
/// plugins.
pub proof fn law_claim_is_told_in_full(s: HelperStateView, task_id: Seq<char>, port: u16, now: u128)
    requires
        super::task_status::records_wf(s),
        s.claimed_tasks.contains_key(task_id),
    ensures
        ({
            let told = super::status::debug_told(s, task_id, port, now);
            let task = s.claimed_tasks[task_id];
            let key = "task:"@ + task_id;
            let there = s.remote_connections.contains_key(key);
            let c = s.remote_connections[key];
            let own = super::forward_duties::own_address(
                port,
                "runtime-log-forward"@,
                task.place_id,
                task_id,
            );
            &&& told.claimed_task.task_id == task_id
            &&& told.claimed_task.place_id == task.place_id
            &&& told.claimed_task.universe_id == task.universe_id
            &&& told.claimed_task.mcp_base_url == task.mcp_base_url
            &&& told.claimed_task.rojo_base_url == task.rojo_base_url
            &&& told.claimed_task.runtime_log_base_url == if task.runtime_log_base_url is Some {
                Some(own)
            } else {
                None
            }
            &&& told.claimed_task.runtime_log_upload_url == if task.runtime_log_base_url is Some {
                Some(own + "/v1/runtime-logs"@)
            } else {
                None
            }
            &&& Some(told.claimed_task.claimed_age_ms) == age(now, Some(task.claimed_at))
            &&& told.launch_process is Some <==> s.launch_processes.contains_key(task_id)
            &&& told.launch_process matches Some(l) ==> l.studio_pid
                == s.launch_processes[task_id].studio_pid && l.launched_by_helper
                == s.launch_processes[task_id].launched_by_helper
            &&& told.remote_connection is Some <==> there
            &&& told.remote_connection matches Some(line) ==> {
                &&& line.state == line_state(s, key)
                &&& line.connection_id == c.connection_id
                &&& line.last_ready_age_ms == age(now, c.last_ready_at)
                &&& line.last_server_message_age_ms == age(now, c.last_server_message_at)
                &&& line.last_error is Some <==> s.last_remote_errors.contains_key(key)
                &&& line.last_error matches Some(error) ==> error == s.last_remote_errors[key]
            }
            &&& told.task_status == super::task_status::task_status_told(s, task_id, now)
        }),
{
    let own = super::forward_duties::own_address(
        port,
        "runtime-log-forward"@,
        s.claimed_tasks[task_id].place_id,
        task_id,
    );
    assert(own + Seq::<char>::empty() =~= own);
}

/// The processes at a place are those that the plugins there tell, and the one that was launched for its
/// only claim where no plugin of the claim tells another.
pub proof fn law_processes_at_a_place(s: HelperStateView, place_id: Seq<char>, k: Seq<char>, pid: u32)
    requires
        s.claimed_tasks.dom().finite(),
    ensures
        s.instances.contains_key(k) && s.instances[k].place_id == place_id
            && s.instances[k].studio_pid == Some(pid) ==> super::status::place_pid(s, place_id, pid),
        super::status::place_pid(s, place_id, pid) ==> (exists|i: Seq<char>| #[trigger]
            s.instances.contains_key(i) && s.instances[i].place_id == place_id
                && s.instances[i].studio_pid == Some(pid)) || (exists|c: Seq<char>| #[trigger]
            s.claimed_tasks.contains_key(c) && s.claimed_tasks[c].place_id == place_id
                && s.launch_processes.contains_key(s.claimed_tasks[c].task_id)
                && s.launch_processes[s.claimed_tasks[c].task_id].studio_pid == pid),
{
    let claims = super::routing::claims_at(s, place_id);
    if claims.len() == 1 {
        let c = claims.choose();
        vstd::set::axiom_set_choose_len(claims);
        assert(claims.contains(c));
        assert(s.claimed_tasks.contains_key(c));
    }
}

/// The moment that the error of a plugin belongs to: when it began to change its state, else when it was last
/// in control, else when its mode was last seen.
pub open spec fn troubled_at(i: PluginInstanceView) -> Option<u128> {
    match i.studio_transition_started_at {
        Some(at) => Some(at),
        None => match i.studio_control_observed_at {
            Some(at) => Some(at),
            None => i.studio_mode_observed_at,
        },
    }
}

/// The error of a task is the error of one of its plugins where one has any: of the one that is troubled for
/// the shortest time, to the millisecond. Where none has any, that no plugin is there, or that none answers,
/// is told as the error; else there is none.
pub proof fn law_error_of_a_task_is_told(
    instances: Map<Seq<char>, PluginInstanceView>,
    task_id: Seq<char>,
    j: Seq<char>,
    now: u128,
)
    requires
        instances.dom().finite(),
    ensures
        ({
            let told = super::session::task_session_error(instances, task_id, now);
            let state = super::session::task_session(instances, task_id, now);
            let troubled = instances.contains_key(j) && instances[j].task_id == Some(task_id)
                && instances[j].studio_control_last_error is Some;
            let calm = forall|k: Seq<char>| #[trigger]
                instances.contains_key(k) ==> instances[k].task_id != Some(task_id)
                    || instances[k].studio_control_last_error is None;
            &&& troubled ==> exists|k: Seq<char>| #[trigger]
                instances.contains_key(k) && instances[k].task_id == Some(task_id)
                    && instances[k].studio_control_last_error == told && told is Some && (
                troubled_at(instances[j]) is Some ==> troubled_at(instances[k]) is Some && age(
                    now,
                    troubled_at(instances[k]),
                )->0 <= age(now, troubled_at(instances[j]))->0)
            &&& calm && state == "none_connected"@ ==> told == Some("studio_plugin_not_connected"@)
            &&& calm && state == "none_response"@ ==> told == Some("studio_plugin_no_response"@)
            &&& calm && state != "none_connected"@ && state != "none_response"@ ==> told is None
        }),
{
    let test = |k: Seq<char>, i: PluginInstanceView| super::session::of_task(i, task_id)
        && i.studio_control_last_error is Some;
    let rank = |i: PluginInstanceView|
        (super::session::recency(now, super::session::error_moment(i)), 0u128, 0u128);
    if instances.contains_key(j) && instances[j].task_id == Some(task_id)
        && instances[j].studio_control_last_error is Some {
        assert(test(j, instances[j]));
        crate::table::lemma_best_exists(instances, test, rank, false, j);
        let k = super::session::newest_error(instances, task_id, now)->0;
        assert(super::session::newest_error(instances, task_id, now) == crate::table::best(
            instances,
            test,
            rank,
            false,
        ));
        assert(instances.contains_key(k) && test(k, instances[k]));
    } else if let Some(k) = super::session::newest_error(instances, task_id, now) {
        assert(crate::table::is_best(instances, test, rank, false, k));
        assert(instances.contains_key(k) && test(k, instances[k]));
    }
    reveal_strlit("none_connected");
    reveal_strlit("none_response");
    assert("none_connected"@.len() != "none_response"@.len());
}

/// How long ago the edit side of a task was heard of is told of the plugin that was heard last; nothing is
/// told where none was heard.
pub proof fn law_edit_side_is_aged(
    instances: Map<Seq<char>, PluginInstanceView>,
    task_id: Seq<char>,
    j: Seq<char>,
    now: u128,
)
    requires
        instances.dom().finite(),
    ensures
        ({
            let told = super::session::task_edit_age(instances, task_id, now);
            let heard = instances.contains_key(j) && instances[j].task_id == Some(task_id)
                && instances[j].edit_runtime_observed_at is Some;
            &&& heard ==> told is Some && told->0 <= age(
                now,
                instances[j].edit_runtime_observed_at,
            )->0
            &&& told is Some ==> exists|k: Seq<char>| #[trigger]
                instances.contains_key(k) && instances[k].task_id == Some(task_id)
                    && instances[k].edit_runtime_observed_at is Some && told == age(
                    now,
                    instances[k].edit_runtime_observed_at,
                )
        }),
{
    let test = |k: Seq<char>, i: PluginInstanceView| super::session::of_task(i, task_id)
        && i.edit_runtime_observed_at is Some;
    let rank = |i: PluginInstanceView|
        (super::session::recency(now, i.edit_runtime_observed_at), 0u128, 0u128);
    if instances.contains_key(j) && instances[j].task_id == Some(task_id)
        && instances[j].edit_runtime_observed_at is Some {
        assert(test(j, instances[j]));
        crate::table::lemma_best_exists(instances, test, rank, false, j);
    }
    if let Some(k) = super::session::newest_edit(instances, task_id, now) {
        assert(crate::table::is_best(instances, test, rank, false, k));
        assert(instances.contains_key(k) && test(k, instances[k]));
    }
}

/// The edit side of a task is hindered by what hinders one of its plugins: a stop comes before a launch, that
/// before a session that runs, and that before a launch that failed. Where nothing hinders it, it is ready for
/// five seconds after it was heard of, then stale, and missing where it was never heard of.
pub proof fn law_edit_side_is_told(
    instances: Map<Seq<char>, PluginInstanceView>,
    task_id: Seq<char>,
    j: Seq<char>,
    now: u128,
)
    requires
        instances.dom().finite(),
    ensures
        ({
            let told = super::session::task_edit(instances, task_id, now);
            let heard = super::session::task_edit_age(instances, task_id, now);
            let reason = instances[j].edit_runtime_unavailable_reason;
            let hindered = instances.contains_key(j) && instances[j].task_id == Some(task_id)
                && reason is Some;
            let free = forall|k: Seq<char>| #[trigger]
                instances.contains_key(k) ==> instances[k].task_id != Some(task_id)
                    || instances[k].edit_runtime_unavailable_reason is None;
            &&& hindered ==> exists|k: Seq<char>| #[trigger]
                instances.contains_key(k) && instances[k].task_id == Some(task_id)
                    && instances[k].edit_runtime_unavailable_reason == Some(told)
            &&& hindered && reason == Some("stopping"@) ==> told == "stopping"@
            &&& hindered && reason == Some("launching"@) ==> told == "stopping"@ || told
                == "launching"@
            &&& hindered && reason == Some("runtime"@) ==> told == "stopping"@ || told
                == "launching"@ || told == "runtime"@
            &&& hindered && reason == Some("launch_failed"@) ==> told == "stopping"@ || told
                == "launching"@ || told == "runtime"@ || told == "launch_failed"@
            &&& free && heard is None ==> told == "missing"@
            &&& free && heard is Some && heard->0 <= 5_000 ==> told == "ready"@
            &&& free && heard is Some && heard->0 > 5_000 ==> told == "stale"@
        }),
{
    let test = |k: Seq<char>, i: PluginInstanceView| super::session::of_task(i, task_id)
        && i.edit_runtime_unavailable_reason is Some;
    let rank = |i: PluginInstanceView| (super::session::hindrance(i) as u128, 0u128, 0u128);
    if instances.contains_key(j) && instances[j].task_id == Some(task_id)
        && instances[j].edit_runtime_unavailable_reason is Some {
        assert(test(j, instances[j]));
        crate::table::lemma_best_exists(instances, test, rank, false, j);
        let k = super::session::weightiest_reason(instances, task_id)->0;
        assert(crate::table::is_best(instances, test, rank, false, k));
        assert(instances.contains_key(k) && test(k, instances[k]));
    } else if let Some(k) = super::session::weightiest_reason(instances, task_id) {
        assert(crate::table::is_best(instances, test, rank, false, k));
        assert(instances.contains_key(k) && test(k, instances[k]));
    }
    reveal_strlit("stopping");
    reveal_strlit("launching");
    reveal_strlit("runtime");
    reveal_strlit("launch_failed");
    assert("launching"@.len() != "stopping"@.len());
    assert("runtime"@.len() != "stopping"@.len());
    assert("runtime"@.len() != "launching"@.len());
    assert("launch_failed"@.len() != "stopping"@.len());
    assert("launch_failed"@.len() != "launching"@.len());
    assert("launch_failed"@.len() != "runtime"@.len());
}

/// The processes at a place are told in rising order, each once.
pub proof fn law_processes_are_told_in_order(
    s: HelperStateView,
    place_id: Seq<char>,
    pids: Seq<u32>,
    i: int,
    j: int,
)
    requires
        super::status::lists_pids(s, place_id, pids),
        0 <= i < j < pids.len(),
    ensures
        pids[i] < pids[j],
        super::status::place_pid(s, place_id, pids[i]),
{
    assert(pids.contains(pids[i]));
}

} // verus!
