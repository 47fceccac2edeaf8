//! What a helper tells of its tasks, and how the forwarding of runtime logs is counted.
use vstd::prelude::*;

use super::records::{
    ClaimedTask, HelperState, PluginInstance, RemoteConnectionHandle, RemoteConnectionState,
    RuntimeLogForwardStatusRecord,
};
use super::session::{
    task_connection_key, task_official_adapter_snapshot, task_studio_mode_snapshot,
};
use crate::clock::age_ms;
use crate::helper_ws::{
    HelperTaskStatusSnapshot, HelperToServerMessage, RuntimeLogForwardStatusSnapshot,
};
use crate::order::same_text;
use crate::table::dup_text;

verus! {

use super::records::{
    ClaimedTaskView, HelperStateView, PluginInstanceView,
    RuntimeLogForwardStatusRecordView,
};
use super::session::StudioTaskStatusSnapshotView;
use crate::helper_ws::{
    HelperTaskStatusSnapshotView, HelperToServerMessageView, RuntimeLogForwardStatusSnapshotView,
};

/// What a helper reports to the hub of one of its tasks.
pub struct HelperHeartbeatTaskStatus {
    pub task_id: String,
    pub remote_state: String,
    pub remote_connection_id: Option<String>,
    pub remote_last_error: Option<String>,
    pub remote_last_ready_age_ms: Option<u128>,
    pub remote_last_server_message_age_ms: Option<u128>,
    pub studio_session_state: String,
    pub last_known_session_state: Option<String>,
    pub last_session_error_reason: Option<String>,
    pub studio_mode: Option<String>,
    pub studio_mode_age_ms: Option<u128>,
    pub studio_mode_source: String,
    pub studio_control_state: String,
    pub studio_transition_phase: String,
    pub studio_transition_age_ms: Option<u128>,
    pub edit_runtime_state: String,
    pub edit_runtime_age_ms: Option<u128>,
    pub studio_control_last_error: Option<String>,
    pub active_stop_request_id: Option<u64>,
    pub last_stop_request_id: u64,
    pub stop_request_recorded_age_ms: Option<u128>,
    pub runtime_actuator_last_poll_id: Option<u64>,
    pub runtime_actuator_last_poll_age_ms: Option<u128>,
    pub stop_result_phase: Option<String>,
    pub stop_result_age_ms: Option<u128>,
    pub stop_result_error: Option<String>,
    pub official_mcp_adapter_state: String,
    pub official_mcp_adapter_age_ms: Option<u128>,
    pub official_mcp_adapter_last_error: Option<String>,
    pub runtime_log_forward: RuntimeLogForwardStatusSnapshot,
}

/// What a [`HelperHeartbeatTaskStatus`] stands for.
#[verifier::ext_equal]
pub struct HelperHeartbeatTaskStatusView {
    pub task_id: Seq<char>,
    pub remote_state: Seq<char>,
    pub remote_connection_id: Option<Seq<char>>,
    pub remote_last_error: Option<Seq<char>>,
    pub remote_last_ready_age_ms: Option<u128>,
    pub remote_last_server_message_age_ms: Option<u128>,
    pub studio_session_state: Seq<char>,
    pub last_known_session_state: Option<Seq<char>>,
    pub last_session_error_reason: Option<Seq<char>>,
    pub studio_mode: Option<Seq<char>>,
    pub studio_mode_age_ms: Option<u128>,
    pub studio_mode_source: Seq<char>,
    pub studio_control_state: Seq<char>,
    pub studio_transition_phase: Seq<char>,
    pub studio_transition_age_ms: Option<u128>,
    pub edit_runtime_state: Seq<char>,
    pub edit_runtime_age_ms: Option<u128>,
    pub studio_control_last_error: Option<Seq<char>>,
    pub active_stop_request_id: Option<u64>,
    pub last_stop_request_id: u64,
    pub stop_request_recorded_age_ms: Option<u128>,
    pub runtime_actuator_last_poll_id: Option<u64>,
    pub runtime_actuator_last_poll_age_ms: Option<u128>,
    pub stop_result_phase: Option<Seq<char>>,
    pub stop_result_age_ms: Option<u128>,
    pub stop_result_error: Option<Seq<char>>,
    pub official_mcp_adapter_state: Seq<char>,
    pub official_mcp_adapter_age_ms: Option<u128>,
    pub official_mcp_adapter_last_error: Option<Seq<char>>,
    pub runtime_log_forward: RuntimeLogForwardStatusSnapshotView,
}

impl View for HelperHeartbeatTaskStatus {
    type V = HelperHeartbeatTaskStatusView;

    open spec fn view(&self) -> HelperHeartbeatTaskStatusView {
        HelperHeartbeatTaskStatusView {
            task_id: self.task_id@,
            remote_state: self.remote_state@,
            remote_connection_id: self.remote_connection_id.deep_view(),
            remote_last_error: self.remote_last_error.deep_view(),
            remote_last_ready_age_ms: self.remote_last_ready_age_ms,
            remote_last_server_message_age_ms: self.remote_last_server_message_age_ms,
            studio_session_state: self.studio_session_state@,
            last_known_session_state: self.last_known_session_state.deep_view(),
            last_session_error_reason: self.last_session_error_reason.deep_view(),
            studio_mode: self.studio_mode.deep_view(),
            studio_mode_age_ms: self.studio_mode_age_ms,
            studio_mode_source: self.studio_mode_source@,
            studio_control_state: self.studio_control_state@,
            studio_transition_phase: self.studio_transition_phase@,
            studio_transition_age_ms: self.studio_transition_age_ms,
            edit_runtime_state: self.edit_runtime_state@,
            edit_runtime_age_ms: self.edit_runtime_age_ms,
            studio_control_last_error: self.studio_control_last_error.deep_view(),
            active_stop_request_id: self.active_stop_request_id,
            last_stop_request_id: self.last_stop_request_id,
            stop_request_recorded_age_ms: self.stop_request_recorded_age_ms,
            runtime_actuator_last_poll_id: self.runtime_actuator_last_poll_id,
            runtime_actuator_last_poll_age_ms: self.runtime_actuator_last_poll_age_ms,
            stop_result_phase: self.stop_result_phase.deep_view(),
            stop_result_age_ms: self.stop_result_age_ms,
            stop_result_error: self.stop_result_error.deep_view(),
            official_mcp_adapter_state: self.official_mcp_adapter_state@,
            official_mcp_adapter_age_ms: self.official_mcp_adapter_age_ms,
            official_mcp_adapter_last_error: self.official_mcp_adapter_last_error.deep_view(),
            runtime_log_forward: self.runtime_log_forward@,
        }
    }
}

/// A message for the connection under a key.
pub struct QueuedHeartbeat {
    pub connection_key: String,
    pub message: HelperToServerMessage,
}

/// What a [`QueuedHeartbeat`] stands for.
#[verifier::ext_equal]
pub struct QueuedHeartbeatView {
    pub connection_key: Seq<char>,
    pub message: HelperToServerMessageView,
}

impl View for QueuedHeartbeat {
    type V = QueuedHeartbeatView;

    open spec fn view(&self) -> QueuedHeartbeatView {
        QueuedHeartbeatView {
            connection_key: self.connection_key@,
            message: self.message@,
        }
    }
}

/// Each claimed task and each launch stands under the identifier of its task.
pub open spec fn records_wf(s: HelperStateView) -> bool {
    &&& forall|k: Seq<char>| #[trigger]
        s.claimed_tasks.contains_key(k) ==> s.claimed_tasks[k].task_id == k
    &&& forall|k: Seq<char>| #[trigger]
        s.launch_processes.contains_key(k) ==> s.launch_processes[k].task_id == k
}

/// An age in the width that messages have: at most the largest `u64`.
pub open spec fn ws_age(age: Option<u128>) -> Option<u64> {
    match age {
        Some(a) => Some(
            if a <= u64::MAX {
                a as u64
            } else {
                u64::MAX
            },
        ),
        None => None,
    }
}

/// The record on the forwarding for a task; a fresh one where there is none.
pub open spec fn forward_record(s: HelperStateView, task_id: Seq<char>) -> RuntimeLogForwardStatusRecordView {
    if s.runtime_log_forward_statuses.contains_key(task_id) {
        s.runtime_log_forward_statuses[task_id]
    } else {
        super::records::no_forwards()
    }
}

/// How the forwarding goes, in a word.
pub open spec fn forward_state(r: RuntimeLogForwardStatusRecordView) -> Seq<char> {
    if r.queued_count > 0 {
        "forwarding"@
    } else if r.last_error is Some {
        "error"@
    } else if r.forwarded_count > 0 {
        "ready"@
    } else {
        "idle"@
    }
}

/// How the forwarding goes, as it is told.
pub open spec fn forward_told(r: RuntimeLogForwardStatusRecordView, now: u128) -> RuntimeLogForwardStatusSnapshotView {
    RuntimeLogForwardStatusSnapshotView {
        state: forward_state(r),
        queued_count: r.queued_count,
        accepted_count: r.accepted_count,
        forwarded_count: r.forwarded_count,
        failed_count: r.failed_count,
        last_accepted_age_ms: ws_age(crate::clock::age_of(now, r.last_accepted_at)),
        last_forwarded_age_ms: ws_age(crate::clock::age_of(now, r.last_forwarded_at)),
        last_attempt_age_ms: ws_age(crate::clock::age_of(now, r.last_attempt_at)),
        last_target_path: r.last_target_path,
        last_http_status: r.last_http_status,
        last_error: r.last_error,
        last_error_age_ms: ws_age(crate::clock::age_of(now, r.last_error_at)),
    }
}

/// The record after an upload was taken to be forwarded.
pub open spec fn forward_accepted(
    r: RuntimeLogForwardStatusRecordView,
    target_path: Seq<char>,
    now: u128,
) -> RuntimeLogForwardStatusRecordView {
    RuntimeLogForwardStatusRecordView {
        queued_count: crate::clock::more(r.queued_count, 1),
        accepted_count: crate::clock::more(r.accepted_count, 1),
        last_accepted_at: Some(now),
        last_target_path: Some(target_path),
        last_http_status: None,
        ..r
    }
}

/// The record after an upload was forwarded.
pub open spec fn forward_succeeded(
    r: RuntimeLogForwardStatusRecordView,
    target_path: Seq<char>,
    http_status: u16,
    now: u128,
) -> RuntimeLogForwardStatusRecordView {
    RuntimeLogForwardStatusRecordView {
        queued_count: crate::clock::less(r.queued_count, 1),
        forwarded_count: crate::clock::more(r.forwarded_count, 1),
        last_forwarded_at: Some(now),
        last_attempt_at: Some(now),
        last_target_path: Some(target_path),
        last_http_status: Some(http_status),
        last_error: None,
        last_error_at: None,
        ..r
    }
}

/// The record after forwarding an upload failed.
pub open spec fn forward_failed(
    r: RuntimeLogForwardStatusRecordView,
    target_path: Seq<char>,
    http_status: Option<u16>,
    error: Seq<char>,
    now: u128,
) -> RuntimeLogForwardStatusRecordView {
    RuntimeLogForwardStatusRecordView {
        queued_count: crate::clock::less(r.queued_count, 1),
        ..forward_refused(r, target_path, http_status, error, now)
    }
}

/// The record after an upload failed that was never queued.
pub open spec fn forward_refused(
    r: RuntimeLogForwardStatusRecordView,
    target_path: Seq<char>,
    http_status: Option<u16>,
    error: Seq<char>,
    now: u128,
) -> RuntimeLogForwardStatusRecordView {
    RuntimeLogForwardStatusRecordView {
        failed_count: crate::clock::more(r.failed_count, 1),
        last_attempt_at: Some(now),
        last_target_path: Some(target_path),
        last_http_status: http_status,
        last_error: Some(error),
        last_error_at: Some(now),
        ..r
    }
}

/// The helper with the record `r` on the forwarding for a task.
pub open spec fn with_forward(
    s: HelperStateView,
    task_id: Seq<char>,
    r: RuntimeLogForwardStatusRecordView,
) -> HelperStateView {
    HelperStateView {
        runtime_log_forward_statuses: s.runtime_log_forward_statuses.insert(task_id, r),
        ..s
    }
}

/// The task is still the one that was claimed at that moment for that place.
pub open spec fn claim_current(
    s: HelperStateView,
    task_id: Seq<char>,
    place_id: Seq<char>,
    claimed_at: u128,
) -> bool {
    &&& s.claimed_tasks.contains_key(task_id)
    &&& s.claimed_tasks[task_id].place_id == place_id
    &&& s.claimed_tasks[task_id].claimed_at == claimed_at
}

/// The name of the state of a connection.
pub open spec fn connection_state_name(state: RemoteConnectionState) -> Seq<char> {
    match state {
        RemoteConnectionState::Connecting => "connecting"@,
        RemoteConnectionState::Connected => "connected"@,
        RemoteConnectionState::Retrying => "retrying"@,
        RemoteConnectionState::Error => "error"@,
    }
}

/// The name of the state of a connection that may be missing.
pub open spec fn remote_state(s: HelperStateView, key: Seq<char>) -> Seq<char> {
    if s.remote_connections.contains_key(key) {
        connection_state_name(s.remote_connections[key].connection_state)
    } else {
        "disconnected"@
    }
}

/// What is known of the session of a task.
pub open spec fn session_snapshot(s: HelperStateView, task_id: Seq<char>, now: u128) -> StudioTaskStatusSnapshotView {
    super::session::task_snapshot(s.instances, task_id, now)
}

/// The state of the adapter to the official tools, as it is told with the session of the task.
pub open spec fn adapter_state(s: HelperStateView, task_id: Seq<char>, now: u128) -> Seq<char> {
    super::session::adapter_told(
        s.official_adapter_states,
        task_id,
        session_snapshot(s, task_id, now).edit_runtime_state == "ready"@,
    )
}

/// The age of what is known of the adapter.
pub open spec fn adapter_age(s: HelperStateView, task_id: Seq<char>, now: u128) -> Option<u128> {
    if s.official_adapter_states.contains_key(task_id) {
        Some(crate::clock::since_ms(now, s.official_adapter_states[task_id].observed_at))
    } else {
        None
    }
}

/// The last error of the adapter.
pub open spec fn adapter_error(s: HelperStateView, task_id: Seq<char>) -> Option<Seq<char>> {
    if s.official_adapter_states.contains_key(task_id) {
        s.official_adapter_states[task_id].last_error
    } else {
        None
    }
}

/// What a helper tells of the session of a task on its connection.
pub open spec fn task_status_told(s: HelperStateView, task_id: Seq<char>, now: u128) -> HelperTaskStatusSnapshotView {
    let t = session_snapshot(s, task_id, now);
    HelperTaskStatusSnapshotView {
        task_id,
        studio_session_state: Some(t.studio_session_state),
        last_known_session_state: t.last_known_session_state,
        last_session_error_reason: t.last_session_error_reason,
        studio_mode: t.studio_mode,
        studio_mode_age_ms: ws_age(t.studio_mode_age_ms),
        studio_mode_source: Some(t.studio_mode_source),
        studio_control_state: Some(t.studio_control_state),
        studio_transition_phase: Some(t.studio_transition_phase),
        studio_transition_age_ms: ws_age(t.studio_transition_age_ms),
        edit_runtime_state: Some(t.edit_runtime_state),
        edit_runtime_age_ms: ws_age(t.edit_runtime_age_ms),
        studio_control_last_error: t.studio_control_last_error,
        active_stop_request_id: t.active_stop_request_id,
        last_stop_request_id: Some(t.last_stop_request_id),
        stop_request_recorded_age_ms: ws_age(t.stop_request_recorded_age_ms),
        runtime_actuator_last_poll_id: t.runtime_actuator_last_poll_id,
        runtime_actuator_last_poll_age_ms: ws_age(t.runtime_actuator_last_poll_age_ms),
        stop_result_phase: t.stop_result_phase,
        stop_result_age_ms: ws_age(t.stop_result_age_ms),
        stop_result_error: t.stop_result_error,
        official_mcp_adapter_state: Some(adapter_state(s, task_id, now)),
        official_mcp_adapter_age_ms: ws_age(adapter_age(s, task_id, now)),
        official_mcp_adapter_last_error: adapter_error(s, task_id),
        runtime_log_forward: Some(forward_told(forward_record(s, task_id), now)),
    }
}

/// The plugins that serve a task.
pub open spec fn plugins_of(s: HelperStateView, task_id: Seq<char>) -> Set<Seq<char>> {
    s.instances.dom().filter(|k: Seq<char>| super::session::of_task(s.instances[k], task_id))
}

/// The heartbeat for a task on its connection.
pub open spec fn heartbeat_told(
    s: HelperStateView,
    helper_id: Seq<char>,
    task: ClaimedTaskView,
    now: u128,
) -> HelperToServerMessageView {
    HelperToServerMessageView::Heartbeat {
        helper_id,
        place_id: task.place_id,
        task_id: Some(task.task_id),
        plugin_instance_count: plugins_of(s, task.task_id).len() as usize,
        task_status: Some(task_status_told(s, task.task_id, now)),
    }
}

/// What a helper reports to the hub of the task `task_id`.
pub open spec fn report_told(s: HelperStateView, task_id: Seq<char>, now: u128) -> HelperHeartbeatTaskStatusView {
    let t = session_snapshot(s, task_id, now);
    let key = super::session::connection_key(task_id);
    let connected = s.remote_connections.contains_key(key);
    let c = s.remote_connections[key];
    HelperHeartbeatTaskStatusView {
        task_id,
        remote_state: remote_state(s, key),
        remote_connection_id: if connected {
            c.connection_id
        } else {
            None
        },
        remote_last_error: if s.last_remote_errors.contains_key(key) {
            Some(s.last_remote_errors[key])
        } else {
            None
        },
        remote_last_ready_age_ms: if connected {
            crate::clock::age_of(now, c.last_ready_at)
        } else {
            None
        },
        remote_last_server_message_age_ms: if connected {
            crate::clock::age_of(now, c.last_server_message_at)
        } else {
            None
        },
        studio_session_state: t.studio_session_state,
        last_known_session_state: t.last_known_session_state,
        last_session_error_reason: t.last_session_error_reason,
        studio_mode: t.studio_mode,
        studio_mode_age_ms: t.studio_mode_age_ms,
        studio_mode_source: t.studio_mode_source,
        studio_control_state: t.studio_control_state,
        studio_transition_phase: t.studio_transition_phase,
        studio_transition_age_ms: t.studio_transition_age_ms,
        edit_runtime_state: t.edit_runtime_state,
        edit_runtime_age_ms: t.edit_runtime_age_ms,
        studio_control_last_error: t.studio_control_last_error,
        active_stop_request_id: t.active_stop_request_id,
        last_stop_request_id: t.last_stop_request_id,
        stop_request_recorded_age_ms: t.stop_request_recorded_age_ms,
        runtime_actuator_last_poll_id: t.runtime_actuator_last_poll_id,
        runtime_actuator_last_poll_age_ms: t.runtime_actuator_last_poll_age_ms,
        stop_result_phase: t.stop_result_phase,
        stop_result_age_ms: t.stop_result_age_ms,
        stop_result_error: t.stop_result_error,
        official_mcp_adapter_state: adapter_state(s, task_id, now),
        official_mcp_adapter_age_ms: adapter_age(s, task_id, now),
        official_mcp_adapter_last_error: adapter_error(s, task_id),
        runtime_log_forward: forward_told(forward_record(s, task_id), now),
    }
}

/// An age in the width that messages have.
pub fn ws_age_ms(value: Option<u128>) -> (age: Option<u64>)
    ensures
        age == ws_age(value),
{
    match value {
        Some(a) => {
            if a <= u64::MAX as u128 {
                Some(a as u64)
            } else {
                Some(u64::MAX)
            }
        },
        None => None,
    }
}

fn ws_age_since(now: u128, at: Option<u128>) -> (age: Option<u64>)
    ensures
        age == ws_age(crate::clock::age_of(now, at)),
{
    ws_age_ms(age_ms(now, at))
}

fn tell_forward(record: &RuntimeLogForwardStatusRecord, now: u128) -> (snapshot:
    RuntimeLogForwardStatusSnapshot)
    ensures
        snapshot@ == forward_told(record@, now),
{
    let state = if record.queued_count > 0 {
        "forwarding"
    } else if record.last_error.is_some() {
        "error"
    } else if record.forwarded_count > 0 {
        "ready"
    } else {
        "idle"
    };
    RuntimeLogForwardStatusSnapshot {
        state: state.to_owned(),
        queued_count: record.queued_count,
        accepted_count: record.accepted_count,
        forwarded_count: record.forwarded_count,
        failed_count: record.failed_count,
        last_accepted_age_ms: ws_age_since(now, record.last_accepted_at),
        last_forwarded_age_ms: ws_age_since(now, record.last_forwarded_at),
        last_attempt_age_ms: ws_age_since(now, record.last_attempt_at),
        last_target_path: dup_text(&record.last_target_path),
        last_http_status: record.last_http_status,
        last_error: dup_text(&record.last_error),
        last_error_age_ms: ws_age_since(now, record.last_error_at),
    }
}

/// How the forwarding of the runtime logs of a task goes.
pub fn runtime_log_forward_status_snapshot(state: &HelperState, task_id: &str, now: u128) -> (snapshot:
    RuntimeLogForwardStatusSnapshot)
    ensures
        snapshot@ == forward_told(forward_record(state@, task_id@), now),
{
    match state.runtime_log_forward_statuses.get(task_id) {
        Some(record) => tell_forward(record, now),
        None => tell_forward(&RuntimeLogForwardStatusRecord::default(), now),
    }
}

fn take_forward(state: &mut HelperState, task_id: &str) -> (record: RuntimeLogForwardStatusRecord)
    ensures
        record@ == forward_record(old(state)@, task_id@),
        final(state)@ == (HelperStateView {
            runtime_log_forward_statuses: old(state)@.runtime_log_forward_statuses.remove(task_id@),
            ..old(state)@
        }),
{
    match state.runtime_log_forward_statuses.remove(task_id) {
        Some(record) => record,
        None => RuntimeLogForwardStatusRecord::default(),
    }
}

fn put_forward(state: &mut HelperState, task_id: &str, record: RuntimeLogForwardStatusRecord)
    ensures
        final(state)@ == with_forward(old(state)@, task_id@, record@),
{
    state.runtime_log_forward_statuses.insert(task_id.to_owned(), record);
}

/// Counts an upload that was taken to be forwarded.
pub fn mark_runtime_log_forward_accepted(
    state: &mut HelperState,
    task_id: &str,
    target_path: String,
    now: u128,
)
    ensures
        final(state)@ == with_forward(
            old(state)@,
            task_id@,
            forward_accepted(forward_record(old(state)@, task_id@), target_path@, now),
        ),
{
    let ghost before = state@;
    let mut record = take_forward(state, task_id);
    record.queued_count = record.queued_count.saturating_add(1);
    record.accepted_count = record.accepted_count.saturating_add(1);
    record.last_accepted_at = Some(now);
    record.last_target_path = Some(target_path);
    record.last_http_status = None;
    let ghost after = record@;
    put_forward(state, task_id, record);
    assert(state@.runtime_log_forward_statuses
        =~= before.runtime_log_forward_statuses.insert(task_id@, after));
}

/// Counts an upload that was forwarded.
pub fn mark_runtime_log_forward_succeeded(
    state: &mut HelperState,
    task_id: &str,
    target_path: String,
    http_status: u16,
    now: u128,
)
    ensures
        final(state)@ == with_forward(
            old(state)@,
            task_id@,
            forward_succeeded(forward_record(old(state)@, task_id@), target_path@, http_status, now),
        ),
{
    let ghost before = state@;
    let mut record = take_forward(state, task_id);
    record.queued_count = record.queued_count.saturating_sub(1);
    record.forwarded_count = record.forwarded_count.saturating_add(1);
    record.last_forwarded_at = Some(now);
    record.last_attempt_at = record.last_forwarded_at;
    record.last_target_path = Some(target_path);
    record.last_http_status = Some(http_status);
    record.last_error = None;
    record.last_error_at = None;
    let ghost after = record@;
    put_forward(state, task_id, record);
    assert(state@.runtime_log_forward_statuses
        =~= before.runtime_log_forward_statuses.insert(task_id@, after));
}

/// Counts an upload that could not be forwarded.
pub fn mark_runtime_log_forward_failed(
    state: &mut HelperState,
    task_id: &str,
    target_path: String,
    http_status: Option<u16>,
    error: String,
    now: u128,
)
    ensures
        final(state)@ == with_forward(
            old(state)@,
            task_id@,
            forward_failed(
                forward_record(old(state)@, task_id@),
                target_path@,
                http_status,
                error@,
                now,
            ),
        ),
{
    let ghost before = state@;
    let mut record = take_forward(state, task_id);
    record.queued_count = record.queued_count.saturating_sub(1);
    record.failed_count = record.failed_count.saturating_add(1);
    record.last_attempt_at = Some(now);
    record.last_target_path = Some(target_path);
    record.last_http_status = http_status;
    record.last_error = Some(error);
    record.last_error_at = record.last_attempt_at;
    let ghost after = record@;
    put_forward(state, task_id, record);
    assert(state@.runtime_log_forward_statuses
        =~= before.runtime_log_forward_statuses.insert(task_id@, after));
}

/// Counts an upload that was turned away before it was queued.
pub fn mark_runtime_log_forward_rejected(
    state: &mut HelperState,
    task_id: &str,
    target_path: String,
    error: String,
    now: u128,
)
    ensures
        final(state)@ == with_forward(
            old(state)@,
            task_id@,
            forward_refused(
                forward_record(old(state)@, task_id@),
                target_path@,
                None,
                error@,
                now,
            ),
        ),
{
    let ghost before = state@;
    let mut record = take_forward(state, task_id);
    record.failed_count = record.failed_count.saturating_add(1);
    record.last_attempt_at = Some(now);
    record.last_target_path = Some(target_path);
    record.last_http_status = None;
    record.last_error = Some(error);
    record.last_error_at = record.last_attempt_at;
    let ghost after = record@;
    put_forward(state, task_id, record);
    assert(state@.runtime_log_forward_statuses
        =~= before.runtime_log_forward_statuses.insert(task_id@, after));
}

/// Whether the task is still the one that was claimed at that moment for that place.
pub fn runtime_log_forward_task_is_current(
    state: &HelperState,
    task_id: &str,
    place_id: &str,
    claimed_at: u128,
) -> (current: bool)
    ensures
        current == claim_current(state@, task_id@, place_id@, claimed_at),
{
    match state.claimed_tasks.get(task_id) {
        Some(task) => same_text(task.place_id.as_str(), place_id) && task.claimed_at == claimed_at,
        None => false,
    }
}

/// The state after an upload was forwarded for a claim.
pub open spec fn forward_kept(
    s: HelperStateView,
    task_id: Seq<char>,
    place_id: Seq<char>,
    claimed_at: u128,
    target_path: Seq<char>,
    http_status: u16,
    now: u128,
) -> HelperStateView {
    if claim_current(s, task_id, place_id, claimed_at) {
        with_forward(
            s,
            task_id,
            forward_succeeded(forward_record(s, task_id), target_path, http_status, now),
        )
    } else {
        s
    }
}

/// The state after an upload could not be forwarded for a claim.
pub open spec fn forward_lost(
    s: HelperStateView,
    task_id: Seq<char>,
    place_id: Seq<char>,
    claimed_at: u128,
    target_path: Seq<char>,
    http_status: Option<u16>,
    error: Seq<char>,
    now: u128,
) -> HelperStateView {
    if claim_current(s, task_id, place_id, claimed_at) {
        with_forward(
            s,
            task_id,
            forward_failed(forward_record(s, task_id), target_path, http_status, error, now),
        )
    } else {
        s
    }
}

/// Counts an upload that was forwarded, unless the task has changed hands since.
pub fn mark_runtime_log_forward_succeeded_if_current(
    state: &mut HelperState,
    task_id: &str,
    place_id: &str,
    claimed_at: u128,
    target_path: String,
    http_status: u16,
    now: u128,
) -> (counted: bool)
    ensures
        counted == claim_current(old(state)@, task_id@, place_id@, claimed_at),
        final(state)@ == forward_kept(
            old(state)@,
            task_id@,
            place_id@,
            claimed_at,
            target_path@,
            http_status,
            now,
        ),
{
    if !runtime_log_forward_task_is_current(state, task_id, place_id, claimed_at) {
        return false;
    }
    mark_runtime_log_forward_succeeded(state, task_id, target_path, http_status, now);
    true
}

/// Counts an upload that could not be forwarded, unless the task has changed hands since.
pub fn mark_runtime_log_forward_failed_if_current(
    state: &mut HelperState,
    task_id: &str,
    place_id: &str,
    claimed_at: u128,
    target_path: String,
    http_status: Option<u16>,
    error: String,
    now: u128,
) -> (counted: bool)
    ensures
        counted == claim_current(old(state)@, task_id@, place_id@, claimed_at),
        final(state)@ == forward_lost(
            old(state)@,
            task_id@,
            place_id@,
            claimed_at,
            target_path@,
            http_status,
            error@,
            now,
        ),
{
    if !runtime_log_forward_task_is_current(state, task_id, place_id, claimed_at) {
        return false;
    }
    mark_runtime_log_forward_failed(state, task_id, target_path, http_status, error, now);
    true
}

/// What a helper tells of the session of a task on its connection.
pub fn helper_task_status_snapshot(state: &HelperState, task_id: &str, now: u128) -> (snapshot:
    HelperTaskStatusSnapshot)
    ensures
        snapshot@ == task_status_told(state@, task_id@, now),
{
    let t = task_studio_mode_snapshot(state, task_id, now);
    let edit_ready = same_text(t.edit_runtime_state.as_str(), "ready");
    let (official_state, official_age, official_error) = task_official_adapter_snapshot(
        state,
        task_id,
        edit_ready,
        now,
    );
    HelperTaskStatusSnapshot {
        task_id: task_id.to_owned(),
        studio_session_state: Some(t.studio_session_state),
        last_known_session_state: t.last_known_session_state,
        last_session_error_reason: t.last_session_error_reason,
        studio_mode: t.studio_mode,
        studio_mode_age_ms: ws_age_ms(t.studio_mode_age_ms),
        studio_mode_source: Some(t.studio_mode_source),
        studio_control_state: Some(t.studio_control_state),
        studio_transition_phase: Some(t.studio_transition_phase),
        studio_transition_age_ms: ws_age_ms(t.studio_transition_age_ms),
        edit_runtime_state: Some(t.edit_runtime_state),
        edit_runtime_age_ms: ws_age_ms(t.edit_runtime_age_ms),
        studio_control_last_error: t.studio_control_last_error,
        active_stop_request_id: t.active_stop_request_id,
        last_stop_request_id: Some(t.last_stop_request_id),
        stop_request_recorded_age_ms: ws_age_ms(t.stop_request_recorded_age_ms),
        runtime_actuator_last_poll_id: t.runtime_actuator_last_poll_id,
        runtime_actuator_last_poll_age_ms: ws_age_ms(t.runtime_actuator_last_poll_age_ms),
        stop_result_phase: t.stop_result_phase,
        stop_result_age_ms: ws_age_ms(t.stop_result_age_ms),
        stop_result_error: t.stop_result_error,
        official_mcp_adapter_state: Some(official_state),
        official_mcp_adapter_age_ms: ws_age_ms(official_age),
        official_mcp_adapter_last_error: official_error,
        runtime_log_forward: Some(runtime_log_forward_status_snapshot(state, task_id, now)),
    }
}

/// How many plugins serve a task.
pub fn plugin_instance_count(state: &HelperState, task_id: &str) -> (count: usize)
    ensures
        count == plugins_of(state@, task_id@).len(),
{
    let test = |k: &str, i: &PluginInstance| -> (r: bool)
        ensures
            r == super::session::of_task(i@, task_id@),
    {
        match &i.task_id {
            Some(id) => same_text(id.as_str(), task_id),
            None => false,
        }
    };
    let keys = state.instances.keys_where(
        test,
        Ghost(|k: Seq<char>, i: PluginInstanceView| super::session::of_task(i, task_id@)),
    );
    assert(keys@ =~= plugins_of(state@, task_id@));
    keys.len()
}

/// The heartbeat that is due on the connection of a task.
pub open spec fn heartbeat_due(s: HelperStateView, helper_id: Seq<char>, task_id: Seq<char>, now: u128) -> Option<
    QueuedHeartbeatView,
> {
    let key = super::session::connection_key(task_id);
    if s.claimed_tasks.contains_key(task_id) && s.remote_connections.contains_key(key) {
        Some(
            QueuedHeartbeatView {
                connection_key: key,
                message: heartbeat_told(s, helper_id, s.claimed_tasks[task_id], now),
            },
        )
    } else {
        None
    }
}

/// The heartbeat that is due on the connection of a task; nothing where the task is not claimed or
/// not connected.
pub fn queue_remote_task_status_heartbeat(
    state: &HelperState,
    helper_id: &str,
    task_id: &str,
    now: u128,
) -> (queued: Option<QueuedHeartbeat>)
    requires
        records_wf(state@),
    ensures
        crate::table::opt_view(queued) == heartbeat_due(state@, helper_id@, task_id@, now),
{
    match state.claimed_tasks.get(task_id) {
        None => None,
        Some(task) => {
            let connection_key = task_connection_key(task.task_id.as_str());
            assert(state@.claimed_tasks.contains_key(task_id@));
            if !state.remote_connections.contains_key(connection_key.as_str()) {
                return None;
            }
            let message = HelperToServerMessage::Heartbeat {
                helper_id: helper_id.to_owned(),
                place_id: task.place_id.clone(),
                task_id: Some(task.task_id.clone()),
                plugin_instance_count: plugin_instance_count(state, task_id),
                task_status: Some(helper_task_status_snapshot(state, task_id, now)),
            };
            Some(QueuedHeartbeat { connection_key, message })
        },
    }
}

/// The name of the state of a connection that may be missing.
pub fn remote_connection_state_name(connection: Option<&RemoteConnectionHandle>) -> (name:
    &'static str)
    ensures
        name@ == match connection {
            Some(c) => connection_state_name(c@.connection_state),
            None => "disconnected"@,
        },
{
    match connection {
        Some(c) => match c.connection_state {
            RemoteConnectionState::Connecting => "connecting",
            RemoteConnectionState::Connected => "connected",
            RemoteConnectionState::Retrying => "retrying",
            RemoteConnectionState::Error => "error",
        },
        None => "disconnected",
    }
}

/// What a helper reports to the hub of one of its tasks.
pub fn heartbeat_task_status(state: &HelperState, task_id: &str, now: u128) -> (status:
    HelperHeartbeatTaskStatus)
    ensures
        status@ == report_told(state@, task_id@, now),
{
    let key = task_connection_key(task_id);
    let connection = state.remote_connections.get(key.as_str());
    let t = task_studio_mode_snapshot(state, task_id, now);
    let edit_ready = same_text(t.edit_runtime_state.as_str(), "ready");
    let (official_state, official_age, official_error) = task_official_adapter_snapshot(
        state,
        task_id,
        edit_ready,
        now,
    );
    HelperHeartbeatTaskStatus {
        task_id: task_id.to_owned(),
        remote_state: remote_connection_state_name(connection).to_owned(),
        remote_connection_id: match connection {
            Some(c) => dup_text(&c.connection_id),
            None => None,
        },
        remote_last_error: match state.last_remote_errors.get(key.as_str()) {
            Some(error) => Some(error.clone()),
            None => None,
        },
        remote_last_ready_age_ms: match connection {
            Some(c) => age_ms(now, c.last_ready_at),
            None => None,
        },
        remote_last_server_message_age_ms: match connection {
            Some(c) => age_ms(now, c.last_server_message_at),
            None => None,
        },
        studio_session_state: t.studio_session_state,
        last_known_session_state: t.last_known_session_state,
        last_session_error_reason: t.last_session_error_reason,
        studio_mode: t.studio_mode,
        studio_mode_age_ms: t.studio_mode_age_ms,
        studio_mode_source: t.studio_mode_source,
        studio_control_state: t.studio_control_state,
        studio_transition_phase: t.studio_transition_phase,
        studio_transition_age_ms: t.studio_transition_age_ms,
        edit_runtime_state: t.edit_runtime_state,
        edit_runtime_age_ms: t.edit_runtime_age_ms,
        studio_control_last_error: t.studio_control_last_error,
        active_stop_request_id: t.active_stop_request_id,
        last_stop_request_id: t.last_stop_request_id,
        stop_request_recorded_age_ms: t.stop_request_recorded_age_ms,
        runtime_actuator_last_poll_id: t.runtime_actuator_last_poll_id,
        runtime_actuator_last_poll_age_ms: t.runtime_actuator_last_poll_age_ms,
        stop_result_phase: t.stop_result_phase,
        stop_result_age_ms: t.stop_result_age_ms,
        stop_result_error: t.stop_result_error,
        official_mcp_adapter_state: official_state,
        official_mcp_adapter_age_ms: official_age,
        official_mcp_adapter_last_error: official_error,
        runtime_log_forward: runtime_log_forward_status_snapshot(state, task_id, now),
    }
}

/// What a helper reports to the hub of its tasks, in the order of their identifiers.
pub fn heartbeat_task_statuses(state: &HelperState, now: u128) -> (statuses: Vec<
    HelperHeartbeatTaskStatus,
>)
    requires
        records_wf(state@),
    ensures
        crate::table::views(statuses@) == crate::table::sorted(
            state@.claimed_tasks.dom(),
        ).map_values(|k: Seq<char>| report_told(state@, k, now)),
{
    let tell = |k: &str, t: &ClaimedTask| -> (r: HelperHeartbeatTaskStatus)
        ensures
            r@ == report_told(state@, k@, now),
    { heartbeat_task_status(state, k, now) };
    let statuses = state.claimed_tasks.collect(
        tell,
        Ghost(|k: Seq<char>, t: ClaimedTaskView| report_told(state@, k, now)),
    );
    assert(crate::table::views(statuses@) =~= crate::table::sorted(
        state@.claimed_tasks.dom(),
    ).map_values(|k: Seq<char>| report_told(state@, k, now)));
    statuses
}

/// An upload that was taken and then forwarded leaves as many uploads waiting as before, unless
/// the counter is used up; the same holds of one that failed.
pub proof fn law_forward_counts_balance(
    r: RuntimeLogForwardStatusRecordView,
    path: Seq<char>,
    http_status: u16,
    failure: Option<u16>,
    error: Seq<char>,
    first: u128,
    second: u128,
)
    requires
        r.queued_count < u64::MAX,
    ensures
        forward_succeeded(forward_accepted(r, path, first), path, http_status, second).queued_count
            == r.queued_count,
        forward_failed(forward_accepted(r, path, first), path, failure, error, second).queued_count
            == r.queued_count,
        forward_refused(r, path, failure, error, first).queued_count == r.queued_count,
        forward_refused(r, path, failure, error, first).accepted_count == r.accepted_count,
{
}

/// What becomes of an upload of a task that was released in the meantime leaves no trace.
pub proof fn law_late_forward_leaves_no_trace(
    s: HelperStateView,
    task_id: Seq<char>,
    place_id: Seq<char>,
    claimed_at: u128,
)
    requires
        !s.claimed_tasks.contains_key(task_id),
    ensures
        !claim_current(s, task_id, place_id, claimed_at),
{
}

} // verus!
