//! The session in a Studio: what mode it is in, who controls it, and how a stop goes.
use vstd::prelude::*;

use super::records::{HelperState, PluginInstance};
use super::timing::{EDIT_RUNTIME_STALE_AFTER, STUDIO_CONTROL_HEARTBEAT_STALE_AFTER};
use crate::clock::{age_ms, elapsed, elapsed_ms};
use crate::debug::{opt_number, opt_text};
use crate::order::same_text;
use crate::table::{dup_text, Dup, Table};
use crate::text::{concat, decimal_text, trim};

verus! {

use super::records::{HelperStateView, PluginInstanceView};

/// What is known of the session of a task.
pub struct StudioTaskStatusSnapshot {
    pub studio_session_state: String,
    pub last_known_session_state: Option<String>,
    pub last_session_error_reason: Option<String>,
    pub studio_mode: Option<String>,
    pub studio_mode_age_ms: Option<u128>,
    pub studio_mode_source: String,
    pub studio_control_state: String,
    pub studio_transition_phase: String,
    pub studio_transition_age_ms: Option<u128>,
    pub edit_runtime_state: String,
    pub edit_runtime_age_ms: Option<u128>,
    pub studio_control_last_error: Option<String>,
    pub active_stop_request_id: Option<u64>,
    pub last_stop_request_id: u64,
    pub stop_request_recorded_age_ms: Option<u128>,
    pub runtime_actuator_last_poll_id: Option<u64>,
    pub runtime_actuator_last_poll_age_ms: Option<u128>,
    pub stop_result_phase: Option<String>,
    pub stop_result_age_ms: Option<u128>,
    pub stop_result_error: Option<String>,
}

/// What a [`StudioTaskStatusSnapshot`] stands for.
#[verifier::ext_equal]
pub struct StudioTaskStatusSnapshotView {
    pub studio_session_state: Seq<char>,
    pub last_known_session_state: Option<Seq<char>>,
    pub last_session_error_reason: Option<Seq<char>>,
    pub studio_mode: Option<Seq<char>>,
    pub studio_mode_age_ms: Option<u128>,
    pub studio_mode_source: Seq<char>,
    pub studio_control_state: Seq<char>,
    pub studio_transition_phase: Seq<char>,
    pub studio_transition_age_ms: Option<u128>,
    pub edit_runtime_state: Seq<char>,
    pub edit_runtime_age_ms: Option<u128>,
    pub studio_control_last_error: Option<Seq<char>>,
    pub active_stop_request_id: Option<u64>,
    pub last_stop_request_id: u64,
    pub stop_request_recorded_age_ms: Option<u128>,
    pub runtime_actuator_last_poll_id: Option<u64>,
    pub runtime_actuator_last_poll_age_ms: Option<u128>,
    pub stop_result_phase: Option<Seq<char>>,
    pub stop_result_age_ms: Option<u128>,
    pub stop_result_error: Option<Seq<char>>,
}

impl View for StudioTaskStatusSnapshot {
    type V = StudioTaskStatusSnapshotView;

    open spec fn view(&self) -> StudioTaskStatusSnapshotView {
        StudioTaskStatusSnapshotView {
            studio_session_state: self.studio_session_state@,
            last_known_session_state: self.last_known_session_state.deep_view(),
            last_session_error_reason: self.last_session_error_reason.deep_view(),
            studio_mode: self.studio_mode.deep_view(),
            studio_mode_age_ms: self.studio_mode_age_ms,
            studio_mode_source: self.studio_mode_source@,
            studio_control_state: self.studio_control_state@,
            studio_transition_phase: self.studio_transition_phase@,
            studio_transition_age_ms: self.studio_transition_age_ms,
            edit_runtime_state: self.edit_runtime_state@,
            edit_runtime_age_ms: self.edit_runtime_age_ms,
            studio_control_last_error: self.studio_control_last_error.deep_view(),
            active_stop_request_id: self.active_stop_request_id,
            last_stop_request_id: self.last_stop_request_id,
            stop_request_recorded_age_ms: self.stop_request_recorded_age_ms,
            runtime_actuator_last_poll_id: self.runtime_actuator_last_poll_id,
            runtime_actuator_last_poll_age_ms: self.runtime_actuator_last_poll_age_ms,
            stop_result_phase: self.stop_result_phase.deep_view(),
            stop_result_age_ms: self.stop_result_age_ms,
            stop_result_error: self.stop_result_error.deep_view(),
        }
    }
}

impl Dup for StudioTaskStatusSnapshot {
    fn dup(&self) -> (copy: Self) {
        StudioTaskStatusSnapshot {
            studio_session_state: self.studio_session_state.clone(),
            last_known_session_state: dup_text(&self.last_known_session_state),
            last_session_error_reason: dup_text(&self.last_session_error_reason),
            studio_mode: dup_text(&self.studio_mode),
            studio_mode_age_ms: self.studio_mode_age_ms,
            studio_mode_source: self.studio_mode_source.clone(),
            studio_control_state: self.studio_control_state.clone(),
            studio_transition_phase: self.studio_transition_phase.clone(),
            studio_transition_age_ms: self.studio_transition_age_ms,
            edit_runtime_state: self.edit_runtime_state.clone(),
            edit_runtime_age_ms: self.edit_runtime_age_ms,
            studio_control_last_error: dup_text(&self.studio_control_last_error),
            active_stop_request_id: self.active_stop_request_id,
            last_stop_request_id: self.last_stop_request_id,
            stop_request_recorded_age_ms: self.stop_request_recorded_age_ms,
            runtime_actuator_last_poll_id: self.runtime_actuator_last_poll_id,
            runtime_actuator_last_poll_age_ms: self.runtime_actuator_last_poll_age_ms,
            stop_result_phase: dup_text(&self.stop_result_phase),
            stop_result_age_ms: self.stop_result_age_ms,
            stop_result_error: dup_text(&self.stop_result_error),
        }
    }
}

/// What is known of the last request to stop a session.
pub struct StudioStopRequestSnapshot {
    pub active_stop_request_id: Option<u64>,
    pub last_stop_request_id: u64,
    pub stop_request_recorded_age_ms: Option<u128>,
    pub runtime_actuator_last_poll_id: Option<u64>,
    pub runtime_actuator_last_poll_age_ms: Option<u128>,
    pub stop_result_phase: Option<String>,
    pub stop_result_age_ms: Option<u128>,
    pub stop_result_error: Option<String>,
}

/// What a [`StudioStopRequestSnapshot`] stands for.
#[verifier::ext_equal]
pub struct StudioStopRequestSnapshotView {
    pub active_stop_request_id: Option<u64>,
    pub last_stop_request_id: u64,
    pub stop_request_recorded_age_ms: Option<u128>,
    pub runtime_actuator_last_poll_id: Option<u64>,
    pub runtime_actuator_last_poll_age_ms: Option<u128>,
    pub stop_result_phase: Option<Seq<char>>,
    pub stop_result_age_ms: Option<u128>,
    pub stop_result_error: Option<Seq<char>>,
}

impl View for StudioStopRequestSnapshot {
    type V = StudioStopRequestSnapshotView;

    open spec fn view(&self) -> StudioStopRequestSnapshotView {
        StudioStopRequestSnapshotView {
            active_stop_request_id: self.active_stop_request_id,
            last_stop_request_id: self.last_stop_request_id,
            stop_request_recorded_age_ms: self.stop_request_recorded_age_ms,
            runtime_actuator_last_poll_id: self.runtime_actuator_last_poll_id,
            runtime_actuator_last_poll_age_ms: self.runtime_actuator_last_poll_age_ms,
            stop_result_phase: self.stop_result_phase.deep_view(),
            stop_result_age_ms: self.stop_result_age_ms,
            stop_result_error: self.stop_result_error.deep_view(),
        }
    }
}

impl Dup for StudioStopRequestSnapshot {
    fn dup(&self) -> (copy: Self) {
        StudioStopRequestSnapshot {
            active_stop_request_id: self.active_stop_request_id,
            last_stop_request_id: self.last_stop_request_id,
            stop_request_recorded_age_ms: self.stop_request_recorded_age_ms,
            runtime_actuator_last_poll_id: self.runtime_actuator_last_poll_id,
            runtime_actuator_last_poll_age_ms: self.runtime_actuator_last_poll_age_ms,
            stop_result_phase: dup_text(&self.stop_result_phase),
            stop_result_age_ms: self.stop_result_age_ms,
            stop_result_error: dup_text(&self.stop_result_error),
        }
    }
}

/// A request to stop a session that was taken down.
pub struct RecordedStopRequest {
    pub place_id: String,
    pub task_id: Option<String>,
    pub stop_request_id: u64,
}

/// What a [`RecordedStopRequest`] stands for.
#[verifier::ext_equal]
pub struct RecordedStopRequestView {
    pub place_id: Seq<char>,
    pub task_id: Option<Seq<char>>,
    pub stop_request_id: u64,
}

impl View for RecordedStopRequest {
    type V = RecordedStopRequestView;

    open spec fn view(&self) -> RecordedStopRequestView {
        RecordedStopRequestView {
            place_id: self.place_id@,
            task_id: self.task_id.deep_view(),
            stop_request_id: self.stop_request_id,
        }
    }
}

/// Why a request to stop a session was not taken down.
pub enum StopRequestRecordError {
    MissingInstance,
    RuntimeActuatorUnavailable(String),
}

/// The key under which the connection of a task stands.
pub open spec fn connection_key(task_id: Seq<char>) -> Seq<char> {
    "task:"@ + task_id
}

/// The modes that a plugin may report.
pub open spec fn known_mode(mode: Seq<char>) -> bool {
    mode == "stop"@ || mode == "start_play"@ || mode == "run_server"@ || mode == "unknown"@
}

/// A reported mode, where it is a known one.
pub open spec fn mode_normalized(value: Option<Seq<char>>) -> Option<Seq<char>> {
    match value {
        Some(text) if known_mode(crate::text::trimmed(text)) => Some(crate::text::trimmed(text)),
        _ => None,
    }
}

/// The mode is one in which a session runs.
pub open spec fn running_mode(mode: Option<Seq<char>>) -> bool {
    mode == Some("start_play"@) || mode == Some("run_server"@)
}

/// The phase is one in which a stop is under way.
pub open spec fn stopping_phase(phase: Seq<char>) -> bool {
    phase == "stopping_requested"@ || phase == "stopping_observed"@
}

/// The stop that is under way.
pub open spec fn active_stop(i: PluginInstanceView) -> Option<u64> {
    if i.stop_request_id > 0 && stopping_phase(i.studio_transition_phase) {
        Some(i.stop_request_id)
    } else {
        None
    }
}

/// A heartbeat of the runtime control came within the last moments.
pub open spec fn control_recent(i: PluginInstanceView, now: u128) -> bool {
    i.studio_control_observed_at matches Some(at) && crate::clock::since(now, at)
        <= STUDIO_CONTROL_HEARTBEAT_STALE_AFTER
}

/// The runtime control is there and was heard of just now.
pub open spec fn fresh_control(i: PluginInstanceView, now: u128) -> bool {
    i.studio_control_state == "ready"@ && control_recent(i, now)
}

/// The phase as it is told: fresh control means that the session runs, unless it is being stopped
/// or has failed.
pub open spec fn effective_phase(i: PluginInstanceView, now: u128) -> Seq<char> {
    if i.studio_transition_phase == "error"@ || stopping_phase(i.studio_transition_phase) {
        i.studio_transition_phase
    } else if fresh_control(i, now) {
        "running"@
    } else {
        i.studio_transition_phase
    }
}

/// The control as it is told.
pub open spec fn effective_control(i: PluginInstanceView, now: u128) -> Seq<char> {
    let phase = effective_phase(i, now);
    if phase == "error"@ {
        "lost"@
    } else if stopping_phase(phase) {
        "stopping"@
    } else if fresh_control(i, now) {
        "ready"@
    } else if i.studio_control_state == "none"@ && phase == "idle"@ {
        "none"@
    } else {
        "lost"@
    }
}

/// How the edit side of a Studio is doing: the reason that it is unavailable, or whether it was
/// heard of lately.
pub open spec fn edit_state(i: PluginInstanceView, now: u128) -> Seq<char> {
    match i.edit_runtime_unavailable_reason {
        Some(reason) => reason,
        None => match i.edit_runtime_observed_at {
            None => "missing"@,
            Some(at) => if crate::clock::since(now, at) <= EDIT_RUNTIME_STALE_AFTER {
                "ready"@
            } else {
                "stale"@
            },
        },
    }
}

/// How much a reason for being unavailable weighs.
pub open spec fn reason_weight(reason: Seq<char>) -> u8 {
    if reason == "stopping"@ {
        4
    } else if reason == "launching"@ {
        3
    } else if reason == "runtime"@ {
        2
    } else if reason == "launch_failed"@ {
        1
    } else {
        0
    }
}

/// What the session is doing, as far as the plugin tells.
pub open spec fn current_session(i: PluginInstanceView, now: u128) -> Option<Seq<char>> {
    if stopping_phase(effective_phase(i, now)) {
        Some("stopping"@)
    } else if i.edit_runtime_unavailable_reason == Some("launching"@) {
        Some("starting_play"@)
    } else if fresh_control(i, now) {
        Some("play"@)
    } else {
        None
    }
}

/// What the session is doing, as it is told.
pub open spec fn reported_session(i: PluginInstanceView, now: u128) -> Seq<char> {
    match current_session(i, now) {
        Some(state) => state,
        None => if edit_state(i, now) == "ready"@ {
            "stop"@
        } else {
            "none_response"@
        },
    }
}

/// The plugin serves the task.
pub open spec fn of_task(i: PluginInstanceView, task_id: Seq<char>) -> bool {
    i.task_id == Some(task_id)
}

/// Some plugin of the task says that its session is doing `state`.
pub open spec fn some_session(
    instances: Map<Seq<char>, PluginInstanceView>,
    task_id: Seq<char>,
    state: Seq<char>,
    now: u128,
) -> bool {
    exists|k: Seq<char>| #[trigger]
        instances.contains_key(k) && of_task(instances[k], task_id) && current_session(
            instances[k],
            now,
        ) == Some(state)
}

/// The edit side of some plugin of the task is in the state `state`.
pub open spec fn some_edit(
    instances: Map<Seq<char>, PluginInstanceView>,
    task_id: Seq<char>,
    state: Seq<char>,
    now: u128,
) -> bool {
    exists|k: Seq<char>| #[trigger]
        instances.contains_key(k) && of_task(instances[k], task_id) && edit_state(instances[k], now)
            == state
}

/// Some plugin serves the task.
pub open spec fn some_instance(instances: Map<Seq<char>, PluginInstanceView>, task_id: Seq<char>) -> bool {
    exists|k: Seq<char>| #[trigger] instances.contains_key(k) && of_task(instances[k], task_id)
}

/// What the session of a task is doing: a stop outweighs a start, a start outweighs a running
/// session, and a session that is known to run but does not answer outweighs a stopped one.
pub open spec fn task_session(
    instances: Map<Seq<char>, PluginInstanceView>,
    task_id: Seq<char>,
    now: u128,
) -> Seq<char> {
    if !some_instance(instances, task_id) {
        "none_connected"@
    } else if some_session(instances, task_id, "stopping"@, now) {
        "stopping"@
    } else if some_session(instances, task_id, "starting_play"@, now) {
        "starting_play"@
    } else if some_session(instances, task_id, "play"@, now) {
        "play"@
    } else if some_edit(instances, task_id, "runtime"@, now) {
        "none_response"@
    } else if some_edit(instances, task_id, "ready"@, now) {
        "stop"@
    } else {
        "none_response"@
    }
}

/// The session state that was last known for certain.
pub open spec fn task_known_session(
    instances: Map<Seq<char>, PluginInstanceView>,
    task_id: Seq<char>,
    now: u128,
) -> Option<Seq<char>> {
    let state = task_session(instances, task_id, now);
    if state == "none_connected"@ || state == "none_response"@ {
        None
    } else {
        Some(state)
    }
}

/// The moment to which the last error of a plugin belongs.
pub open spec fn error_moment(i: PluginInstanceView) -> Option<u128> {
    if i.studio_transition_started_at is Some {
        i.studio_transition_started_at
    } else if i.studio_control_observed_at is Some {
        i.studio_control_observed_at
    } else {
        i.studio_mode_observed_at
    }
}

/// How recent a moment is: the greater, the later; none at all comes last.
pub open spec fn recency(now: u128, at: Option<u128>) -> u128 {
    match at {
        Some(t) => (u128::MAX - crate::clock::since_ms(now, t)) as u128,
        None => 0,
    }
}

/// The plugin of the task with the most recent error.
pub open spec fn newest_error(
    instances: Map<Seq<char>, PluginInstanceView>,
    task_id: Seq<char>,
    now: u128,
) -> Option<Seq<char>> {
    crate::table::best(
        instances,
        |k: Seq<char>, i: PluginInstanceView| of_task(i, task_id)
            && i.studio_control_last_error is Some,
        |i: PluginInstanceView| (recency(now, error_moment(i)), 0u128, 0u128),
        false,
    )
}

/// Why the session of a task is not as it should be: the most recent error, or that no plugin is
/// connected or answers.
pub open spec fn task_session_error(
    instances: Map<Seq<char>, PluginInstanceView>,
    task_id: Seq<char>,
    now: u128,
) -> Option<Seq<char>> {
    let state = task_session(instances, task_id, now);
    match newest_error(instances, task_id, now) {
        Some(k) => instances[k].studio_control_last_error,
        None => if state == "none_connected"@ {
            Some("studio_plugin_not_connected"@)
        } else if state == "none_response"@ {
            Some("studio_plugin_no_response"@)
        } else {
            None
        },
    }
}

/// The plugin after it went into `phase`.
pub open spec fn with_phase(i: PluginInstanceView, phase: Seq<char>, now: u128) -> PluginInstanceView {
    PluginInstanceView {
        studio_transition_started_at: if i.studio_transition_phase == phase {
            i.studio_transition_started_at
        } else if phase == "idle"@ || phase == "running"@ {
            None
        } else {
            Some(now)
        },
        studio_transition_phase: phase,
        ..i
    }
}

/// The plugin after a request to stop its session was taken down.
pub open spec fn stop_recorded(i: PluginInstanceView, now: u128) -> PluginInstanceView {
    PluginInstanceView {
        stop_request_id: crate::clock::more(i.stop_request_id, 1),
        studio_control_state: "stopping"@,
        studio_control_last_error: None,
        stop_request_recorded_at: Some(now),
        stop_request_last_polled_at: None,
        stop_request_last_poll_id: None,
        stop_result_phase: None,
        stop_result_error: None,
        stop_result_observed_at: None,
        edit_runtime_unavailable_reason: Some("stopping"@),
        last_seen_at: now,
        ..with_phase(i, "stopping_requested"@, now)
    }
}

/// What is said of a plugin whose runtime control cannot be reached.
pub open spec fn unavailable_detail(i: PluginInstanceView, now: u128) -> Seq<char> {
    "studio_control_state="@ + i.studio_control_state + " studio_transition_phase="@
        + i.studio_transition_phase + " control_age_ms="@ + crate::debug::debug_number(
        crate::clock::age_of(now, i.studio_control_observed_at),
    ) + " edit_runtime_state="@ + edit_state(i, now) + " unavailable_reason="@
        + crate::debug::debug_text(i.edit_runtime_unavailable_reason)
}

/// The message that a stop took too long.
pub open spec fn stop_timeout_message(stop_request_id: u64, detail: Seq<char>) -> Seq<char> {
    "runtime_stop_timeout: stop_request_id="@ + crate::text::decimal(stop_request_id as nat) + " "@
        + detail
}

/// The plugin after a stop took too long: the stop has failed and the control is lost.
pub open spec fn stop_timed_out(
    i: PluginInstanceView,
    stop_request_id: u64,
    detail: Seq<char>,
    now: u128,
) -> PluginInstanceView {
    PluginInstanceView {
        studio_control_state: "lost"@,
        studio_control_last_error: Some(stop_timeout_message(stop_request_id, detail)),
        stop_result_phase: Some("failed"@),
        stop_result_error: Some(stop_timeout_message(stop_request_id, detail)),
        stop_result_observed_at: Some(now),
        edit_runtime_unavailable_reason: Some("runtime"@),
        last_seen_at: now,
        ..with_phase(i, "error"@, now)
    }
}

/// What is known of the last stop of a plugin.
pub open spec fn stop_snapshot(i: PluginInstanceView, now: u128) -> StudioStopRequestSnapshotView {
    StudioStopRequestSnapshotView {
        active_stop_request_id: active_stop(i),
        last_stop_request_id: i.stop_request_id,
        stop_request_recorded_age_ms: crate::clock::age_of(now, i.stop_request_recorded_at),
        runtime_actuator_last_poll_id: i.stop_request_last_poll_id,
        runtime_actuator_last_poll_age_ms: crate::clock::age_of(now, i.stop_request_last_polled_at),
        stop_result_phase: i.stop_result_phase,
        stop_result_age_ms: crate::clock::age_of(now, i.stop_result_observed_at),
        stop_result_error: i.stop_result_error,
    }
}

/// What is known of stops where no plugin serves the task.
pub open spec fn no_stop() -> StudioStopRequestSnapshotView {
    StudioStopRequestSnapshotView {
        active_stop_request_id: None,
        last_stop_request_id: 0,
        stop_request_recorded_age_ms: None,
        runtime_actuator_last_poll_id: None,
        runtime_actuator_last_poll_age_ms: None,
        stop_result_phase: None,
        stop_result_age_ms: None,
        stop_result_error: None,
    }
}

/// The rank of a plugin by its stop: one under way first, then the later request, then the plugin
/// that was seen last.
pub open spec fn stop_rank(i: PluginInstanceView) -> (u128, u128, u128) {
    (
        if active_stop(i) is Some {
            1
        } else {
            0
        },
        i.stop_request_id as u128,
        i.last_seen_at,
    )
}

/// The plugin of the task whose stop counts.
pub open spec fn stop_instance(instances: Map<Seq<char>, PluginInstanceView>, task_id: Seq<char>) -> Option<
    Seq<char>,
> {
    crate::table::best(
        instances,
        |k: Seq<char>, i: PluginInstanceView| of_task(i, task_id),
        |i: PluginInstanceView| stop_rank(i),
        true,
    )
}

/// The plugin of the task that was seen last.
pub open spec fn newest_instance(instances: Map<Seq<char>, PluginInstanceView>, task_id: Seq<char>) -> Option<
    Seq<char>,
> {
    crate::table::best(
        instances,
        |k: Seq<char>, i: PluginInstanceView| of_task(i, task_id),
        |i: PluginInstanceView| (i.last_seen_at, 0u128, 0u128),
        true,
    )
}

/// How much the reason weighs for which the edit side of a plugin is unavailable.
pub open spec fn hindrance(i: PluginInstanceView) -> u8 {
    match i.edit_runtime_unavailable_reason {
        Some(reason) => reason_weight(reason),
        None => 0,
    }
}

/// The plugin of the task whose reason for being unavailable weighs most.
pub open spec fn weightiest_reason(
    instances: Map<Seq<char>, PluginInstanceView>,
    task_id: Seq<char>,
) -> Option<Seq<char>> {
    crate::table::best(
        instances,
        |k: Seq<char>, i: PluginInstanceView| of_task(i, task_id)
            && i.edit_runtime_unavailable_reason is Some,
        |i: PluginInstanceView| (hindrance(i) as u128, 0u128, 0u128),
        false,
    )
}

/// The plugin of the task whose edit side was heard of last.
pub open spec fn newest_edit(
    instances: Map<Seq<char>, PluginInstanceView>,
    task_id: Seq<char>,
    now: u128,
) -> Option<Seq<char>> {
    crate::table::best(
        instances,
        |k: Seq<char>, i: PluginInstanceView| of_task(i, task_id)
            && i.edit_runtime_observed_at is Some,
        |i: PluginInstanceView| (recency(now, i.edit_runtime_observed_at), 0u128, 0u128),
        false,
    )
}

/// How long ago the edit side of a task was heard of.
pub open spec fn task_edit_age(
    instances: Map<Seq<char>, PluginInstanceView>,
    task_id: Seq<char>,
    now: u128,
) -> Option<u128> {
    match newest_edit(instances, task_id, now) {
        Some(k) => crate::clock::age_of(now, instances[k].edit_runtime_observed_at),
        None => None,
    }
}

/// How the edit side of a task is doing.
pub open spec fn task_edit(
    instances: Map<Seq<char>, PluginInstanceView>,
    task_id: Seq<char>,
    now: u128,
) -> Seq<char> {
    match weightiest_reason(instances, task_id) {
        Some(k) => instances[k].edit_runtime_unavailable_reason->0,
        None => match task_edit_age(instances, task_id, now) {
            None => "missing"@,
            Some(age) => if age <= EDIT_RUNTIME_STALE_AFTER / crate::clock::NANOS_PER_MILLI {
                "ready"@
            } else {
                "stale"@
            },
        },
    }
}

/// What is known of the session of a task: the control and the phase are those of the plugin that
/// speaks for the control, the mode and the last error those of the plugin that was seen last.
pub open spec fn task_snapshot(
    instances: Map<Seq<char>, PluginInstanceView>,
    task_id: Seq<char>,
    now: u128,
) -> StudioTaskStatusSnapshotView {
    let from = newest_instance(instances, task_id);
    let control = control_instance(instances, task_id);
    let stop = match stop_instance(instances, task_id) {
        Some(k) => stop_snapshot(instances[k], now),
        None => no_stop(),
    };
    let i = instances[from->0];
    StudioTaskStatusSnapshotView {
        studio_session_state: task_session(instances, task_id, now),
        last_known_session_state: task_known_session(instances, task_id, now),
        last_session_error_reason: task_session_error(instances, task_id, now),
        studio_mode: if from is Some {
            i.studio_mode
        } else {
            None
        },
        studio_mode_age_ms: if from is Some {
            crate::clock::age_of(now, i.studio_mode_observed_at)
        } else {
            None
        },
        studio_mode_source: if from is Some {
            i.studio_mode_source
        } else {
            "none"@
        },
        studio_control_state: match control {
            Some(k) => effective_control(instances[k], now),
            None => "none"@,
        },
        studio_transition_phase: match control {
            Some(k) => effective_phase(instances[k], now),
            None => "idle"@,
        },
        studio_transition_age_ms: if from is Some {
            crate::clock::age_of(now, i.studio_transition_started_at)
        } else {
            None
        },
        edit_runtime_state: task_edit(instances, task_id, now),
        edit_runtime_age_ms: task_edit_age(instances, task_id, now),
        studio_control_last_error: if from is Some {
            i.studio_control_last_error
        } else {
            None
        },
        active_stop_request_id: stop.active_stop_request_id,
        last_stop_request_id: stop.last_stop_request_id,
        stop_request_recorded_age_ms: stop.stop_request_recorded_age_ms,
        runtime_actuator_last_poll_id: stop.runtime_actuator_last_poll_id,
        runtime_actuator_last_poll_age_ms: stop.runtime_actuator_last_poll_age_ms,
        stop_result_phase: stop.stop_result_phase,
        stop_result_age_ms: stop.stop_result_age_ms,
        stop_result_error: stop.stop_result_error,
    }
}

/// The plugin of the task that speaks for its control: the one whose stop is under way, else the
/// one that was seen last.
pub open spec fn control_instance(instances: Map<Seq<char>, PluginInstanceView>, task_id: Seq<char>) -> Option<
    Seq<char>,
> {
    match stop_instance(instances, task_id) {
        Some(k) if active_stop(instances[k]) is Some => Some(k),
        _ => newest_instance(instances, task_id),
    }
}

/// The key under which the connection of a task stands.
pub fn task_connection_key(task_id: &str) -> (key: String)
    ensures
        key@ == connection_key(task_id@),
{
    concat("task:", task_id)
}

/// A reported mode, where it is a known one.
pub fn normalize_studio_mode(value: Option<&str>) -> (mode: Option<String>)
    ensures
        mode.deep_view() == mode_normalized(value.deep_view()),
{
    match value {
        Some(text) => {
            let mode = trim(text);
            if same_text(mode, "stop") || same_text(mode, "start_play") || same_text(
                mode,
                "run_server",
            ) || same_text(mode, "unknown") {
                Some(mode.to_owned())
            } else {
                None
            }
        },
        None => None,
    }
}

/// Whether a session runs in the mode.
pub fn studio_mode_is_running(mode: Option<&str>) -> (running: bool)
    ensures
        running == running_mode(mode.deep_view()),
{
    match mode {
        Some(text) => same_text(text, "start_play") || same_text(text, "run_server"),
        None => false,
    }
}

/// Whether a stop is under way in the phase.
pub fn is_stopping_transition_phase(phase: &str) -> (stopping: bool)
    ensures
        stopping == stopping_phase(phase@),
{
    same_text(phase, "stopping_requested") || same_text(phase, "stopping_observed")
}

/// The stop that is under way.
pub fn active_stop_request_id_for_instance(instance: &PluginInstance) -> (id: Option<u64>)
    ensures
        id == active_stop(instance@),
{
    if instance.stop_request_id > 0 && is_stopping_transition_phase(
        instance.studio_transition_phase.as_str(),
    ) {
        Some(instance.stop_request_id)
    } else {
        None
    }
}

/// What is known of the last stop of a plugin.
pub fn stop_request_snapshot_for_instance(instance: &PluginInstance, now: u128) -> (snapshot:
    StudioStopRequestSnapshot)
    ensures
        snapshot@ == stop_snapshot(instance@, now),
{
    StudioStopRequestSnapshot {
        active_stop_request_id: active_stop_request_id_for_instance(instance),
        last_stop_request_id: instance.stop_request_id,
        stop_request_recorded_age_ms: age_ms(now, instance.stop_request_recorded_at),
        runtime_actuator_last_poll_id: instance.stop_request_last_poll_id,
        runtime_actuator_last_poll_age_ms: age_ms(now, instance.stop_request_last_polled_at),
        stop_result_phase: dup_text(&instance.stop_result_phase),
        stop_result_age_ms: age_ms(now, instance.stop_result_observed_at),
        stop_result_error: dup_text(&instance.stop_result_error),
    }
}

/// What is known of stops where no plugin serves the task.
pub fn empty_stop_request_snapshot() -> (snapshot: StudioStopRequestSnapshot)
    ensures
        snapshot@ == no_stop(),
{
    StudioStopRequestSnapshot {
        active_stop_request_id: None,
        last_stop_request_id: 0,
        stop_request_recorded_age_ms: None,
        runtime_actuator_last_poll_id: None,
        runtime_actuator_last_poll_age_ms: None,
        stop_result_phase: None,
        stop_result_age_ms: None,
        stop_result_error: None,
    }
}

/// Whether a stop in the phase is still to be handed to the plugin.
pub fn is_stop_request_deliverable_phase(phase: &str) -> (deliverable: bool)
    ensures
        deliverable == (phase@ == "stopping_requested"@),
{
    same_text(phase, "stopping_requested")
}

/// Whether the phase is that of a failure.
pub fn is_error_transition_phase(phase: &str) -> (failed: bool)
    ensures
        failed == (phase@ == "error"@),
{
    same_text(phase, "error")
}

/// Takes down that the edit side is there.
pub fn set_edit_runtime_available(instance: &mut PluginInstance, now: u128)
    ensures
        final(instance)@ == (PluginInstanceView {
            edit_runtime_observed_at: Some(now),
            edit_runtime_unavailable_reason: None,
            ..old(instance)@
        }),
{
    instance.edit_runtime_observed_at = Some(now);
    instance.edit_runtime_unavailable_reason = None;
}

/// Takes down why the edit side cannot be used.
pub fn set_edit_runtime_unavailable(instance: &mut PluginInstance, reason: &str)
    ensures
        final(instance)@ == (PluginInstanceView {
            edit_runtime_unavailable_reason: Some(reason@),
            ..old(instance)@
        }),
{
    instance.edit_runtime_unavailable_reason = Some(reason.to_owned());
}

/// How much a reason for being unavailable weighs.
pub fn edit_unavailable_reason_priority(reason: &str) -> (weight: u8)
    ensures
        weight == reason_weight(reason@),
{
    if same_text(reason, "stopping") {
        4
    } else if same_text(reason, "launching") {
        3
    } else if same_text(reason, "runtime") {
        2
    } else if same_text(reason, "launch_failed") {
        1
    } else {
        0
    }
}

fn heard_of_control(instance: &PluginInstance, now: u128) -> (recent: bool)
    ensures
        recent == control_recent(instance@, now),
{
    match instance.studio_control_observed_at {
        Some(at) => elapsed(now, at) <= STUDIO_CONTROL_HEARTBEAT_STALE_AFTER,
        None => false,
    }
}

/// Whether the runtime control is there and was heard of just now.
pub fn instance_has_fresh_control(instance: &PluginInstance, now: u128) -> (fresh: bool)
    ensures
        fresh == fresh_control(instance@, now),
{
    same_text(instance.studio_control_state.as_str(), "ready") && heard_of_control(instance, now)
}

/// Whether the runtime control was not heard of lately.
pub fn runtime_control_heartbeat_is_stale(instance: &PluginInstance, now: u128) -> (stale: bool)
    ensures
        stale == !control_recent(instance@, now),
{
    !heard_of_control(instance, now)
}

/// Whether the runtime control was heard of, but not lately.
pub fn runtime_control_heartbeat_expired_after_observation(instance: &PluginInstance, now: u128) -> (
    expired: bool)
    ensures
        expired == (instance@.studio_control_observed_at is Some && !control_recent(instance@, now)),
{
    instance.studio_control_observed_at.is_some() && !heard_of_control(instance, now)
}

/// The phase as it is told.
pub fn effective_studio_transition_phase(instance: &PluginInstance, now: u128) -> (phase: String)
    ensures
        phase@ == effective_phase(instance@, now),
{
    if is_error_transition_phase(instance.studio_transition_phase.as_str())
        || is_stopping_transition_phase(instance.studio_transition_phase.as_str()) {
        return instance.studio_transition_phase.clone();
    }
    if instance_has_fresh_control(instance, now) {
        "running".to_owned()
    } else {
        instance.studio_transition_phase.clone()
    }
}

/// The control as it is told.
pub fn effective_studio_control_state(instance: &PluginInstance, now: u128) -> (state: String)
    ensures
        state@ == effective_control(instance@, now),
{
    let phase = effective_studio_transition_phase(instance, now);
    if is_error_transition_phase(phase.as_str()) {
        "lost".to_owned()
    } else if is_stopping_transition_phase(phase.as_str()) {
        "stopping".to_owned()
    } else if instance_has_fresh_control(instance, now) {
        "ready".to_owned()
    } else if same_text(instance.studio_control_state.as_str(), "none") && same_text(
        phase.as_str(),
        "idle",
    ) {
        "none".to_owned()
    } else {
        "lost".to_owned()
    }
}

/// How the edit side of a Studio is doing.
pub fn edit_runtime_state(instance: &PluginInstance, now: u128) -> (state: String)
    ensures
        state@ == edit_state(instance@, now),
{
    match &instance.edit_runtime_unavailable_reason {
        Some(reason) => reason.clone(),
        None => match instance.edit_runtime_observed_at {
            None => "missing".to_owned(),
            Some(at) => {
                if elapsed(now, at) <= EDIT_RUNTIME_STALE_AFTER {
                    "ready".to_owned()
                } else {
                    "stale".to_owned()
                }
            },
        },
    }
}

/// `value` is `text`.
pub(crate) fn opt_is(value: &Option<String>, text: &str) -> (same: bool)
    ensures
        same == (value.deep_view() == Some(text@)),
{
    match value {
        Some(v) => same_text(v.as_str(), text),
        None => false,
    }
}

/// What the session is doing, as far as the plugin tells.
pub fn current_session_state_for_instance(instance: &PluginInstance, now: u128) -> (state: Option<
    &'static str,
>)
    ensures
        state.deep_view() == current_session(instance@, now),
{
    let phase = effective_studio_transition_phase(instance, now);
    if is_stopping_transition_phase(phase.as_str()) {
        Some("stopping")
    } else if opt_is(&instance.edit_runtime_unavailable_reason, "launching") {
        Some("starting_play")
    } else if instance_has_fresh_control(instance, now) {
        Some("play")
    } else {
        None
    }
}

/// What the session was last known to do.
pub fn last_known_session_state_for_instance(instance: &PluginInstance, now: u128) -> (state: Option<
    &'static str,
>)
    ensures
        state.deep_view() == current_session(instance@, now),
{
    current_session_state_for_instance(instance, now)
}

/// What the session is doing, as it is told.
pub fn reported_session_state_for_instance(instance: &PluginInstance, now: u128) -> (state:
    &'static str)
    ensures
        state@ == reported_session(instance@, now),
{
    match current_session_state_for_instance(instance, now) {
        Some(state) => state,
        None => {
            if same_text(edit_runtime_state(instance, now).as_str(), "ready") {
                "stop"
            } else {
                "none_response"
            }
        },
    }
}

/// The plugin serves the task.
pub(crate) fn serves_task(instance: &PluginInstance, task_id: &str) -> (serves: bool)
    ensures
        serves == of_task(instance@, task_id@),
{
    opt_is(&instance.task_id, task_id)
}

fn any_session(instances: &Table<PluginInstance>, task_id: &str, state: &str, now: u128) -> (found:
    bool)
    ensures
        found == some_session(instances@, task_id@, state@, now),
{
    let test = |k: &str, i: &PluginInstance| -> (r: bool)
        ensures
            r == (of_task(i@, task_id@) && current_session(i@, now) == Some(state@)),
    {
        serves_task(i, task_id) && match current_session_state_for_instance(i, now) {
            Some(s) => same_text(s, state),
            None => false,
        }
    };
    instances.any(
        test,
        Ghost(
            |k: Seq<char>, i: PluginInstanceView|
                of_task(i, task_id@) && current_session(i, now) == Some(state@),
        ),
    )
}

fn any_edit(instances: &Table<PluginInstance>, task_id: &str, state: &str, now: u128) -> (found:
    bool)
    ensures
        found == some_edit(instances@, task_id@, state@, now),
{
    let test = |k: &str, i: &PluginInstance| -> (r: bool)
        ensures
            r == (of_task(i@, task_id@) && edit_state(i@, now) == state@),
    { serves_task(i, task_id) && same_text(edit_runtime_state(i, now).as_str(), state) };
    instances.any(
        test,
        Ghost(
            |k: Seq<char>, i: PluginInstanceView|
                of_task(i, task_id@) && edit_state(i, now) == state@,
        ),
    )
}

fn session_of_task(instances: &Table<PluginInstance>, task_id: &str, now: u128) -> (state:
    &'static str)
    ensures
        state@ == task_session(instances@, task_id@, now),
{
    let test = |k: &str, i: &PluginInstance| -> (r: bool)
        ensures
            r == of_task(i@, task_id@),
    { serves_task(i, task_id) };
    let connected = instances.any(
        test,
        Ghost(|k: Seq<char>, i: PluginInstanceView| of_task(i, task_id@)),
    );
    if !connected {
        "none_connected"
    } else if any_session(instances, task_id, "stopping", now) {
        "stopping"
    } else if any_session(instances, task_id, "starting_play", now) {
        "starting_play"
    } else if any_session(instances, task_id, "play", now) {
        "play"
    } else if any_edit(instances, task_id, "runtime", now) {
        "none_response"
    } else if any_edit(instances, task_id, "ready", now) {
        "stop"
    } else {
        "none_response"
    }
}

fn rank_of_moment(now: u128, at: Option<u128>) -> (rank: u128)
    ensures
        rank == recency(now, at),
{
    match at {
        Some(t) => u128::MAX - elapsed_ms(now, t),
        None => 0,
    }
}

fn error_of_task(instances: &Table<PluginInstance>, task_id: &str, now: u128) -> (error: Option<
    String,
>)
    ensures
        error.deep_view() == match newest_error(instances@, task_id@, now) {
            Some(k) => instances@[k].studio_control_last_error,
            None => None,
        },
        newest_error(instances@, task_id@, now) is Some <==> error is Some,
{
    let test = |k: &str, i: &PluginInstance| -> (r: bool)
        ensures
            r == (of_task(i@, task_id@) && i@.studio_control_last_error is Some),
    { serves_task(i, task_id) && i.studio_control_last_error.is_some() };
    let rank = |i: &PluginInstance| -> (r: (u128, u128, u128))
        ensures
            r == (recency(now, error_moment(i@)), 0u128, 0u128),
    {
        let at = if i.studio_transition_started_at.is_some() {
            i.studio_transition_started_at
        } else if i.studio_control_observed_at.is_some() {
            i.studio_control_observed_at
        } else {
            i.studio_mode_observed_at
        };
        (rank_of_moment(now, at), 0, 0)
    };
    let found = instances.find_best(
        test,
        rank,
        false,
        Ghost(
            |k: Seq<char>, i: PluginInstanceView|
                of_task(i, task_id@) && i.studio_control_last_error is Some,
        ),
        Ghost(|i: PluginInstanceView| (recency(now, error_moment(i)), 0u128, 0u128)),
    );
    match found {
        Some(key) => match instances.get(key.as_str()) {
            Some(i) => dup_text(&i.studio_control_last_error),
            None => None,
        },
        None => None,
    }
}

/// What the session of a task is doing, what it was last known to do, and why it is not as it should
/// be.
pub fn task_studio_session_state_snapshot(state: &HelperState, task_id: &str, now: u128) -> (snapshot: (
    String,
    Option<String>,
    Option<String>,
))
    ensures
        snapshot.0@ == task_session(state@.instances, task_id@, now),
        snapshot.1.deep_view() == task_known_session(state@.instances, task_id@, now),
        snapshot.2.deep_view() == task_session_error(state@.instances, task_id@, now),
{
    let session = session_of_task(&state.instances, task_id, now);
    let unconnected = same_text(session, "none_connected");
    let silent = same_text(session, "none_response");
    let known = if unconnected || silent {
        None
    } else {
        Some(session.to_owned())
    };
    let error = match error_of_task(&state.instances, task_id, now) {
        Some(error) => Some(error),
        None => {
            if unconnected {
                Some("studio_plugin_not_connected".to_owned())
            } else if silent {
                Some("studio_plugin_no_response".to_owned())
            } else {
                None
            }
        },
    };
    (session.to_owned(), known, error)
}

/// Takes the plugin into `phase`.
pub fn set_studio_transition_phase(instance: &mut PluginInstance, phase: &str, now: u128)
    ensures
        final(instance)@ == with_phase(old(instance)@, phase@, now),
{
    if !same_text(instance.studio_transition_phase.as_str(), phase) {
        instance.studio_transition_started_at = if same_text(phase, "idle") || same_text(
            phase,
            "running",
        ) {
            None
        } else {
            Some(now)
        };
    }
    instance.studio_transition_phase = phase.to_owned();
}

/// What is said of a plugin whose runtime control cannot be reached.
pub fn runtime_actuator_unavailable_detail(instance: &PluginInstance, now: u128) -> (detail: String)
    ensures
        detail@ == unavailable_detail(instance@, now),
{
    let mut detail = concat("studio_control_state=", instance.studio_control_state.as_str());
    detail.append(" studio_transition_phase=");
    detail.append(instance.studio_transition_phase.as_str());
    detail.append(" control_age_ms=");
    detail.append(opt_number(age_ms(now, instance.studio_control_observed_at)).as_str());
    detail.append(" edit_runtime_state=");
    detail.append(edit_runtime_state(instance, now).as_str());
    detail.append(" unavailable_reason=");
    detail.append(opt_text(&instance.edit_runtime_unavailable_reason).as_str());
    detail
}

/// What is told of a stop that is recorded.
pub open spec fn stop_told(i: PluginInstanceView) -> RecordedStopRequestView {
    RecordedStopRequestView {
        place_id: i.place_id,
        task_id: i.task_id,
        stop_request_id: crate::clock::more(i.stop_request_id, 1),
    }
}

/// Takes down a request to stop the session of a plugin whose runtime control is fresh.
pub fn record_stop_request_for_instance(state: &mut HelperState, instance_id: &str, now: u128) -> (
    result: Result<RecordedStopRequest, StopRequestRecordError>)
    ensures
        match result {
            Ok(recorded) => {
                let before = old(state)@.instances[instance_id@];
                &&& old(state)@.instances.contains_key(instance_id@)
                &&& fresh_control(before, now)
                &&& final(state)@ == (HelperStateView {
                    instances: old(state)@.instances.insert(
                        instance_id@,
                        stop_recorded(before, now),
                    ),
                    ..old(state)@
                })
                &&& recorded@ == stop_told(before)
            },
            Err(StopRequestRecordError::MissingInstance) => {
                &&& !old(state)@.instances.contains_key(instance_id@)
                &&& final(state)@ == old(state)@
            },
            Err(StopRequestRecordError::RuntimeActuatorUnavailable(detail)) => {
                &&& old(state)@.instances.contains_key(instance_id@)
                &&& !fresh_control(old(state)@.instances[instance_id@], now)
                &&& detail@ == unavailable_detail(old(state)@.instances[instance_id@], now)
                &&& final(state)@ == old(state)@
            },
        },
{
    let ghost before = state@.instances;
    match state.instances.get(instance_id) {
        None => return Err(StopRequestRecordError::MissingInstance),
        Some(instance) => {
            if !instance_has_fresh_control(instance, now) {
                return Err(
                    StopRequestRecordError::RuntimeActuatorUnavailable(
                        runtime_actuator_unavailable_detail(instance, now),
                    ),
                );
            }
        },
    }
    match state.instances.remove(instance_id) {
        None => Err(StopRequestRecordError::MissingInstance),
        Some(instance) => {
            let mut instance = instance;
            instance.stop_request_id = instance.stop_request_id.saturating_add(1);
            instance.studio_control_state = "stopping".to_owned();
            set_studio_transition_phase(&mut instance, "stopping_requested", now);
            instance.studio_control_last_error = None;
            instance.stop_request_recorded_at = Some(now);
            instance.stop_request_last_polled_at = None;
            instance.stop_request_last_poll_id = None;
            instance.stop_result_phase = None;
            instance.stop_result_error = None;
            instance.stop_result_observed_at = None;
            set_edit_runtime_unavailable(&mut instance, "stopping");
            instance.last_seen_at = now;
            let recorded = RecordedStopRequest {
                place_id: instance.place_id.clone(),
                task_id: dup_text(&instance.task_id),
                stop_request_id: instance.stop_request_id,
            };
            let ghost after = instance@;
            state.instances.insert(instance_id.to_owned(), instance);
            assert(state.instances@ =~= before.insert(instance_id@, after));
            Ok(recorded)
        },
    }
}

/// Takes down that a stop took too long.
pub fn mark_runtime_stop_timeout(
    instance: &mut PluginInstance,
    stop_request_id: u64,
    detail: String,
    now: u128,
)
    ensures
        final(instance)@ == stop_timed_out(old(instance)@, stop_request_id, detail@, now),
{
    let mut message = concat(
        "runtime_stop_timeout: stop_request_id=",
        decimal_text(stop_request_id as u128).as_str(),
    );
    message.append(" ");
    message.append(detail.as_str());
    instance.studio_control_state = "lost".to_owned();
    set_studio_transition_phase(instance, "error", now);
    instance.studio_control_last_error = Some(message.clone());
    instance.stop_result_phase = Some("failed".to_owned());
    instance.stop_result_error = Some(message);
    instance.stop_result_observed_at = Some(now);
    set_edit_runtime_unavailable(instance, "runtime");
    instance.last_seen_at = now;
}

/// The control, the phase and the last control heartbeat that a plugin starts with when it reports
/// `mode`.
pub fn initial_control_state_for_mode(mode: Option<&str>) -> (initial: (
    String,
    String,
    Option<u128>,
))
    ensures
        initial.0@ == if mode is None || mode.deep_view() == Some("stop"@) {
            "none"@
        } else {
            "lost"@
        },
        initial.1@ == if mode is None || mode.deep_view() == Some("stop"@) {
            "idle"@
        } else if running_mode(mode.deep_view()) {
            "starting"@
        } else {
            "error"@
        },
        initial.2 is None,
{
    let idle = match mode {
        None => true,
        Some(text) => same_text(text, "stop"),
    };
    if idle {
        ("none".to_owned(), "idle".to_owned(), None)
    } else if studio_mode_is_running(mode) {
        ("lost".to_owned(), "starting".to_owned(), None)
    } else {
        ("lost".to_owned(), "error".to_owned(), None)
    }
}

/// How the edit side of a task is doing, and how long ago it was heard of.
pub fn task_edit_runtime_snapshot(instances: &Table<PluginInstance>, task_id: &str, now: u128) -> (
    snapshot: (String, Option<u128>))
    ensures
        snapshot.0@ == task_edit(instances@, task_id@, now),
        snapshot.1 == task_edit_age(instances@, task_id@, now),
{
    let hindered = |k: &str, i: &PluginInstance| -> (r: bool)
        ensures
            r == (of_task(i@, task_id@) && i@.edit_runtime_unavailable_reason is Some),
    { serves_task(i, task_id) && i.edit_runtime_unavailable_reason.is_some() };
    let weight = |i: &PluginInstance| -> (r: (u128, u128, u128))
        ensures
            r == (hindrance(i@) as u128, 0u128, 0u128),
    {
        match &i.edit_runtime_unavailable_reason {
            Some(reason) => (edit_unavailable_reason_priority(reason.as_str()) as u128, 0, 0),
            None => (0, 0, 0),
        }
    };
    let reason = instances.find_best(
        hindered,
        weight,
        false,
        Ghost(
            |k: Seq<char>, i: PluginInstanceView|
                of_task(i, task_id@) && i.edit_runtime_unavailable_reason is Some,
        ),
        Ghost(|i: PluginInstanceView| (hindrance(i) as u128, 0u128, 0u128)),
    );
    let heard = |k: &str, i: &PluginInstance| -> (r: bool)
        ensures
            r == (of_task(i@, task_id@) && i@.edit_runtime_observed_at is Some),
    { serves_task(i, task_id) && i.edit_runtime_observed_at.is_some() };
    let rank = |i: &PluginInstance| -> (r: (u128, u128, u128))
        ensures
            r == (recency(now, i@.edit_runtime_observed_at), 0u128, 0u128),
    { (rank_of_moment(now, i.edit_runtime_observed_at), 0, 0) };
    let newest = instances.find_best(
        heard,
        rank,
        false,
        Ghost(
            |k: Seq<char>, i: PluginInstanceView|
                of_task(i, task_id@) && i.edit_runtime_observed_at is Some,
        ),
        Ghost(|i: PluginInstanceView| (recency(now, i.edit_runtime_observed_at), 0u128, 0u128)),
    );
    let age: Option<u128> = match newest {
        Some(key) => match instances.get(key.as_str()) {
            Some(i) => age_ms(now, i.edit_runtime_observed_at),
            None => None,
        },
        None => None,
    };
    let mut state = match age {
        None => "missing".to_owned(),
        Some(ms) => {
            if ms <= EDIT_RUNTIME_STALE_AFTER / crate::clock::NANOS_PER_MILLI {
                "ready".to_owned()
            } else {
                "stale".to_owned()
            }
        },
    };
    if let Some(key) = reason {
        if let Some(i) = instances.get(key.as_str()) {
            if let Some(text) = &i.edit_runtime_unavailable_reason {
                state = text.clone();
            }
        }
    }
    (state, age)
}

fn find_stop_instance(instances: &Table<PluginInstance>, task_id: &str) -> (key: Option<String>)
    ensures
        key.deep_view() == stop_instance(instances@, task_id@),
        key matches Some(k) ==> instances@.contains_key(k@),
{
    let test = |k: &str, i: &PluginInstance| -> (r: bool)
        ensures
            r == of_task(i@, task_id@),
    { serves_task(i, task_id) };
    let rank = |i: &PluginInstance| -> (r: (u128, u128, u128))
        ensures
            r == stop_rank(i@),
    {
        let active: u128 = if active_stop_request_id_for_instance(i).is_some() {
            1
        } else {
            0
        };
        (active, i.stop_request_id as u128, i.last_seen_at)
    };
    instances.find_best(
        test,
        rank,
        true,
        Ghost(|k: Seq<char>, i: PluginInstanceView| of_task(i, task_id@)),
        Ghost(|i: PluginInstanceView| stop_rank(i)),
    )
}

fn find_newest_instance(instances: &Table<PluginInstance>, task_id: &str) -> (key: Option<String>)
    ensures
        key.deep_view() == newest_instance(instances@, task_id@),
        key matches Some(k) ==> instances@.contains_key(k@),
{
    let test = |k: &str, i: &PluginInstance| -> (r: bool)
        ensures
            r == of_task(i@, task_id@),
    { serves_task(i, task_id) };
    let rank = |i: &PluginInstance| -> (r: (u128, u128, u128))
        ensures
            r == (i@.last_seen_at, 0u128, 0u128),
    { (i.last_seen_at, 0, 0) };
    instances.find_best(
        test,
        rank,
        true,
        Ghost(|k: Seq<char>, i: PluginInstanceView| of_task(i, task_id@)),
        Ghost(|i: PluginInstanceView| (i.last_seen_at, 0u128, 0u128)),
    )
}

fn find_control_instance(instances: &Table<PluginInstance>, task_id: &str) -> (key: Option<String>)
    ensures
        key.deep_view() == control_instance(instances@, task_id@),
        key matches Some(k) ==> instances@.contains_key(k@),
{
    let stopping = match find_stop_instance(instances, task_id) {
        Some(key) => match instances.get(key.as_str()) {
            Some(i) => if active_stop_request_id_for_instance(i).is_some() {
                Some(key)
            } else {
                None
            },
            None => None,
        },
        None => None,
    };
    match stopping {
        Some(key) => Some(key),
        None => find_newest_instance(instances, task_id),
    }
}

/// What is known of the session of a task; a stop that is under way speaks for the control and the
/// phase of the task, whichever of its plugins was seen last.
pub fn task_studio_mode_snapshot(state: &HelperState, task_id: &str, now: u128) -> (snapshot:
    StudioTaskStatusSnapshot)
    ensures
        snapshot@ == task_snapshot(state@.instances, task_id@, now),
{
    let (session, known, error) = task_studio_session_state_snapshot(state, task_id, now);
    let (edit, edit_age) = task_edit_runtime_snapshot(&state.instances, task_id, now);
    let stop = match find_stop_instance(&state.instances, task_id) {
        Some(key) => match state.instances.get(key.as_str()) {
            Some(i) => stop_request_snapshot_for_instance(i, now),
            None => empty_stop_request_snapshot(),
        },
        None => empty_stop_request_snapshot(),
    };
    let newest = find_newest_instance(&state.instances, task_id);
    let speaker = match find_control_instance(&state.instances, task_id) {
        Some(key) => state.instances.get(key.as_str()),
        None => None,
    };
    let (control_state, transition_phase) = match speaker {
        Some(i) => (
            effective_studio_control_state(i, now),
            effective_studio_transition_phase(i, now),
        ),
        None => ("none".to_owned(), "idle".to_owned()),
    };
    let last_seen = match &newest {
        Some(key) => state.instances.get(key.as_str()),
        None => None,
    };
    match last_seen {
        Some(i) => StudioTaskStatusSnapshot {
            studio_session_state: session,
            last_known_session_state: known,
            last_session_error_reason: error,
            studio_mode: dup_text(&i.studio_mode),
            studio_mode_age_ms: age_ms(now, i.studio_mode_observed_at),
            studio_mode_source: i.studio_mode_source.clone(),
            studio_control_state: control_state,
            studio_transition_phase: transition_phase,
            studio_transition_age_ms: age_ms(now, i.studio_transition_started_at),
            edit_runtime_state: edit,
            edit_runtime_age_ms: edit_age,
            studio_control_last_error: dup_text(&i.studio_control_last_error),
            active_stop_request_id: stop.active_stop_request_id,
            last_stop_request_id: stop.last_stop_request_id,
            stop_request_recorded_age_ms: stop.stop_request_recorded_age_ms,
            runtime_actuator_last_poll_id: stop.runtime_actuator_last_poll_id,
            runtime_actuator_last_poll_age_ms: stop.runtime_actuator_last_poll_age_ms,
            stop_result_phase: stop.stop_result_phase,
            stop_result_age_ms: stop.stop_result_age_ms,
            stop_result_error: stop.stop_result_error,
        },
        None => StudioTaskStatusSnapshot {
            studio_session_state: session,
            last_known_session_state: known,
            last_session_error_reason: error,
            studio_mode: None,
            studio_mode_age_ms: None,
            studio_mode_source: "none".to_owned(),
            studio_control_state: control_state,
            studio_transition_phase: transition_phase,
            studio_transition_age_ms: None,
            edit_runtime_state: edit,
            edit_runtime_age_ms: edit_age,
            studio_control_last_error: None,
            active_stop_request_id: stop.active_stop_request_id,
            last_stop_request_id: stop.last_stop_request_id,
            stop_request_recorded_age_ms: stop.stop_request_recorded_age_ms,
            runtime_actuator_last_poll_id: stop.runtime_actuator_last_poll_id,
            runtime_actuator_last_poll_age_ms: stop.runtime_actuator_last_poll_age_ms,
            stop_result_phase: stop.stop_result_phase,
            stop_result_age_ms: stop.stop_result_age_ms,
            stop_result_error: stop.stop_result_error,
        },
    }
}

/// What is told of the adapter to the official tools: a ready one counts as stale while the edit
/// side is not ready.
pub open spec fn adapter_told(
    records: Map<Seq<char>, super::records::OfficialAdapterStateRecordView>,
    task_id: Seq<char>,
    edit_ready: bool,
) -> Seq<char> {
    if !records.contains_key(task_id) {
        "not_started"@
    } else if records[task_id].state == "ready"@ && !edit_ready {
        "stale"@
    } else {
        records[task_id].state
    }
}

/// What is told of the adapter to the official tools: its state, its age and its last error.
pub open spec fn adapter_snapshot(
    records: Map<Seq<char>, super::records::OfficialAdapterStateRecordView>,
    task_id: Seq<char>,
    edit_ready: bool,
    now: u128,
) -> (Seq<char>, Option<u128>, Option<Seq<char>>) {
    let there = records.contains_key(task_id);
    (
        adapter_told(records, task_id, edit_ready),
        if there {
            Some(crate::clock::since_ms(now, records[task_id].observed_at))
        } else {
            None
        },
        if there {
            records[task_id].last_error
        } else {
            None
        },
    )
}

/// The state of the adapter to the official tools, its age and its last error.
pub fn task_official_adapter_snapshot(
    state: &HelperState,
    task_id: &str,
    edit_runtime_ready: bool,
    now: u128,
) -> (snapshot: (String, Option<u128>, Option<String>))
    ensures
        (snapshot.0@, snapshot.1, snapshot.2.deep_view()) == adapter_snapshot(
            state@.official_adapter_states,
            task_id@,
            edit_runtime_ready,
            now,
        ),
{
    match state.official_adapter_states.get(task_id) {
        None => ("not_started".to_owned(), None, None),
        Some(record) => {
            let name = if same_text(record.state.as_str(), "ready") {
                if edit_runtime_ready {
                    "ready".to_owned()
                } else {
                    "stale".to_owned()
                }
            } else {
                record.state.clone()
            };
            (name, Some(elapsed_ms(now, record.observed_at)), dup_text(&record.last_error))
        },
    }
}

} // verus!
