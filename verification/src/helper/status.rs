//! What the helper tells of itself: its tasks, plugins, processes, places and connections.
use vstd::prelude::*;

use super::connections::{cleanup_stale_instances, sync_remote_connections};
use super::records::{ClaimedTask, HelperState, LaunchProcessRecord, PluginInstance};
use super::routing::{
    add_pid, launch_process_is_active_for_status, reconcile_launch_processes, task_active_studio_pid,
};
use super::session::{
    edit_runtime_state, effective_studio_control_state, effective_studio_transition_phase,
    last_known_session_state_for_instance, reported_session_state_for_instance, serves_task,
    stop_request_snapshot_for_instance, task_connection_key, task_official_adapter_snapshot,
    task_studio_mode_snapshot,
};
use super::task_status::{
    helper_task_status_snapshot, remote_connection_state_name, runtime_log_forward_status_snapshot,
};
use crate::clock::{age_ms, elapsed_ms};
use crate::helper_ws::{HelperTaskStatusSnapshot, RuntimeLogForwardStatusSnapshot};
use crate::order::same_text;
use crate::table::{dup_text, map_ids, Dup, IdSet, Table};
use crate::urls::{
    runtime_log_forward_base_url, runtime_log_forward_upload_url,
    runtime_screenshot_helper_upload_url,
};

verus! {

use super::records::{
    ClaimedTaskView, HelperStateView, LaunchProcessRecordView, PluginInstanceView,
};
use crate::helper_ws::{HelperTaskStatusSnapshotView, RuntimeLogForwardStatusSnapshotView};

/// Who the helper is.
pub struct HelperIdentity {
    pub port: u16,
    pub helper_id: String,
    pub user_name: String,
    pub capacity: usize,
    pub hub_base_url: Option<String>,
}

/// What a [`HelperIdentity`] stands for.
#[verifier::ext_equal]
pub struct HelperIdentityView {
    pub port: u16,
    pub helper_id: Seq<char>,
    pub user_name: Seq<char>,
    pub capacity: usize,
    pub hub_base_url: Option<Seq<char>>,
}

impl View for HelperIdentity {
    type V = HelperIdentityView;

    open spec fn view(&self) -> HelperIdentityView {
        HelperIdentityView {
            port: self.port,
            helper_id: self.helper_id@,
            user_name: self.user_name@,
            capacity: self.capacity,
            hub_base_url: self.hub_base_url.deep_view(),
        }
    }
}

/// How a task goes.
pub struct ClaimedTaskStatus {
    pub task_id: String,
    pub place_id: String,
    pub universe_id: Option<String>,
    pub mcp_base_url: String,
    pub rojo_base_url: Option<String>,
    pub runtime_log_base_url: Option<String>,
    pub runtime_log_upload_url: Option<String>,
    pub runtime_log_forward: RuntimeLogForwardStatusSnapshot,
    pub studio_pid: Option<u32>,
    pub launched_by_helper: bool,
    pub claimed_age_ms: u128,
    pub remote_state: String,
    pub remote_connection_id: Option<String>,
    pub remote_last_error: Option<String>,
    pub remote_last_ready_age_ms: Option<u128>,
    pub remote_last_server_message_age_ms: Option<u128>,
    pub studio_session_state: String,
    pub last_known_session_state: Option<String>,
    pub last_session_error_reason: Option<String>,
    pub studio_mode: Option<String>,
    pub studio_mode_age_ms: Option<u128>,
    pub studio_mode_source: String,
    pub studio_control_state: String,
    pub studio_transition_phase: String,
    pub studio_transition_age_ms: Option<u128>,
    pub edit_runtime_state: String,
    pub edit_runtime_age_ms: Option<u128>,
    pub studio_control_last_error: Option<String>,
    pub active_stop_request_id: Option<u64>,
    pub last_stop_request_id: u64,
    pub stop_request_recorded_age_ms: Option<u128>,
    pub runtime_actuator_last_poll_id: Option<u64>,
    pub runtime_actuator_last_poll_age_ms: Option<u128>,
    pub stop_result_phase: Option<String>,
    pub stop_result_age_ms: Option<u128>,
    pub stop_result_error: Option<String>,
    pub official_mcp_adapter_state: String,
    pub official_mcp_adapter_age_ms: Option<u128>,
    pub official_mcp_adapter_last_error: Option<String>,
}

/// What a [`ClaimedTaskStatus`] stands for.
#[verifier::ext_equal]
pub struct ClaimedTaskStatusView {
    pub task_id: Seq<char>,
    pub place_id: Seq<char>,
    pub universe_id: Option<Seq<char>>,
    pub mcp_base_url: Seq<char>,
    pub rojo_base_url: Option<Seq<char>>,
    pub runtime_log_base_url: Option<Seq<char>>,
    pub runtime_log_upload_url: Option<Seq<char>>,
    pub runtime_log_forward: RuntimeLogForwardStatusSnapshotView,
    pub studio_pid: Option<u32>,
    pub launched_by_helper: bool,
    pub claimed_age_ms: u128,
    pub remote_state: Seq<char>,
    pub remote_connection_id: Option<Seq<char>>,
    pub remote_last_error: Option<Seq<char>>,
    pub remote_last_ready_age_ms: Option<u128>,
    pub remote_last_server_message_age_ms: Option<u128>,
    pub studio_session_state: Seq<char>,
    pub last_known_session_state: Option<Seq<char>>,
    pub last_session_error_reason: Option<Seq<char>>,
    pub studio_mode: Option<Seq<char>>,
    pub studio_mode_age_ms: Option<u128>,
    pub studio_mode_source: Seq<char>,
    pub studio_control_state: Seq<char>,
    pub studio_transition_phase: Seq<char>,
    pub studio_transition_age_ms: Option<u128>,
    pub edit_runtime_state: Seq<char>,
    pub edit_runtime_age_ms: Option<u128>,
    pub studio_control_last_error: Option<Seq<char>>,
    pub active_stop_request_id: Option<u64>,
    pub last_stop_request_id: u64,
    pub stop_request_recorded_age_ms: Option<u128>,
    pub runtime_actuator_last_poll_id: Option<u64>,
    pub runtime_actuator_last_poll_age_ms: Option<u128>,
    pub stop_result_phase: Option<Seq<char>>,
    pub stop_result_age_ms: Option<u128>,
    pub stop_result_error: Option<Seq<char>>,
    pub official_mcp_adapter_state: Seq<char>,
    pub official_mcp_adapter_age_ms: Option<u128>,
    pub official_mcp_adapter_last_error: Option<Seq<char>>,
}

impl View for ClaimedTaskStatus {
    type V = ClaimedTaskStatusView;

    open spec fn view(&self) -> ClaimedTaskStatusView {
        ClaimedTaskStatusView {
            task_id: self.task_id@,
            place_id: self.place_id@,
            universe_id: self.universe_id.deep_view(),
            mcp_base_url: self.mcp_base_url@,
            rojo_base_url: self.rojo_base_url.deep_view(),
            runtime_log_base_url: self.runtime_log_base_url.deep_view(),
            runtime_log_upload_url: self.runtime_log_upload_url.deep_view(),
            runtime_log_forward: self.runtime_log_forward@,
            studio_pid: self.studio_pid,
            launched_by_helper: self.launched_by_helper,
            claimed_age_ms: self.claimed_age_ms,
            remote_state: self.remote_state@,
            remote_connection_id: self.remote_connection_id.deep_view(),
            remote_last_error: self.remote_last_error.deep_view(),
            remote_last_ready_age_ms: self.remote_last_ready_age_ms,
            remote_last_server_message_age_ms: self.remote_last_server_message_age_ms,
            studio_session_state: self.studio_session_state@,
            last_known_session_state: self.last_known_session_state.deep_view(),
            last_session_error_reason: self.last_session_error_reason.deep_view(),
            studio_mode: self.studio_mode.deep_view(),
            studio_mode_age_ms: self.studio_mode_age_ms,
            studio_mode_source: self.studio_mode_source@,
            studio_control_state: self.studio_control_state@,
            studio_transition_phase: self.studio_transition_phase@,
            studio_transition_age_ms: self.studio_transition_age_ms,
            edit_runtime_state: self.edit_runtime_state@,
            edit_runtime_age_ms: self.edit_runtime_age_ms,
            studio_control_last_error: self.studio_control_last_error.deep_view(),
            active_stop_request_id: self.active_stop_request_id,
            last_stop_request_id: self.last_stop_request_id,
            stop_request_recorded_age_ms: self.stop_request_recorded_age_ms,
            runtime_actuator_last_poll_id: self.runtime_actuator_last_poll_id,
            runtime_actuator_last_poll_age_ms: self.runtime_actuator_last_poll_age_ms,
            stop_result_phase: self.stop_result_phase.deep_view(),
            stop_result_age_ms: self.stop_result_age_ms,
            stop_result_error: self.stop_result_error.deep_view(),
            official_mcp_adapter_state: self.official_mcp_adapter_state@,
            official_mcp_adapter_age_ms: self.official_mcp_adapter_age_ms,
            official_mcp_adapter_last_error: self.official_mcp_adapter_last_error.deep_view(),
        }
    }
}

/// A Studio process that serves a task.
pub struct LaunchProcessStatus {
    pub task_id: String,
    pub place_id: String,
    pub universe_id: Option<String>,
    pub studio_pid: u32,
    pub launched_by_helper: bool,
}

/// What a [`LaunchProcessStatus`] stands for.
#[verifier::ext_equal]
pub struct LaunchProcessStatusView {
    pub task_id: Seq<char>,
    pub place_id: Seq<char>,
    pub universe_id: Option<Seq<char>>,
    pub studio_pid: u32,
    pub launched_by_helper: bool,
}

impl View for LaunchProcessStatus {
    type V = LaunchProcessStatusView;

    open spec fn view(&self) -> LaunchProcessStatusView {
        LaunchProcessStatusView {
            task_id: self.task_id@,
            place_id: self.place_id@,
            universe_id: self.universe_id.deep_view(),
            studio_pid: self.studio_pid,
            launched_by_helper: self.launched_by_helper,
        }
    }
}

/// How a plugin goes.
pub struct HelperInstanceStatus {
    pub instance_id: String,
    pub place_id: String,
    pub task_id: Option<String>,
    pub remote_base_url: String,
    pub studio_pid: Option<u32>,
    pub studio_session_state: String,
    pub last_known_session_state: Option<String>,
    pub last_session_error_reason: Option<String>,
    pub studio_mode: Option<String>,
    pub studio_mode_age_ms: Option<u128>,
    pub studio_mode_source: String,
    pub studio_control_state: String,
    pub studio_transition_phase: String,
    pub studio_transition_age_ms: Option<u128>,
    pub edit_runtime_state: String,
    pub edit_runtime_age_ms: Option<u128>,
    pub studio_control_last_error: Option<String>,
    pub active_stop_request_id: Option<u64>,
    pub last_stop_request_id: u64,
    pub stop_request_recorded_age_ms: Option<u128>,
    pub runtime_actuator_last_poll_id: Option<u64>,
    pub runtime_actuator_last_poll_age_ms: Option<u128>,
    pub stop_result_phase: Option<String>,
    pub stop_result_age_ms: Option<u128>,
    pub stop_result_error: Option<String>,
}

/// What a [`HelperInstanceStatus`] stands for.
#[verifier::ext_equal]
pub struct HelperInstanceStatusView {
    pub instance_id: Seq<char>,
    pub place_id: Seq<char>,
    pub task_id: Option<Seq<char>>,
    pub remote_base_url: Seq<char>,
    pub studio_pid: Option<u32>,
    pub studio_session_state: Seq<char>,
    pub last_known_session_state: Option<Seq<char>>,
    pub last_session_error_reason: Option<Seq<char>>,
    pub studio_mode: Option<Seq<char>>,
    pub studio_mode_age_ms: Option<u128>,
    pub studio_mode_source: Seq<char>,
    pub studio_control_state: Seq<char>,
    pub studio_transition_phase: Seq<char>,
    pub studio_transition_age_ms: Option<u128>,
    pub edit_runtime_state: Seq<char>,
    pub edit_runtime_age_ms: Option<u128>,
    pub studio_control_last_error: Option<Seq<char>>,
    pub active_stop_request_id: Option<u64>,
    pub last_stop_request_id: u64,
    pub stop_request_recorded_age_ms: Option<u128>,
    pub runtime_actuator_last_poll_id: Option<u64>,
    pub runtime_actuator_last_poll_age_ms: Option<u128>,
    pub stop_result_phase: Option<Seq<char>>,
    pub stop_result_age_ms: Option<u128>,
    pub stop_result_error: Option<Seq<char>>,
}

impl View for HelperInstanceStatus {
    type V = HelperInstanceStatusView;

    open spec fn view(&self) -> HelperInstanceStatusView {
        HelperInstanceStatusView {
            instance_id: self.instance_id@,
            place_id: self.place_id@,
            task_id: self.task_id.deep_view(),
            remote_base_url: self.remote_base_url@,
            studio_pid: self.studio_pid,
            studio_session_state: self.studio_session_state@,
            last_known_session_state: self.last_known_session_state.deep_view(),
            last_session_error_reason: self.last_session_error_reason.deep_view(),
            studio_mode: self.studio_mode.deep_view(),
            studio_mode_age_ms: self.studio_mode_age_ms,
            studio_mode_source: self.studio_mode_source@,
            studio_control_state: self.studio_control_state@,
            studio_transition_phase: self.studio_transition_phase@,
            studio_transition_age_ms: self.studio_transition_age_ms,
            edit_runtime_state: self.edit_runtime_state@,
            edit_runtime_age_ms: self.edit_runtime_age_ms,
            studio_control_last_error: self.studio_control_last_error.deep_view(),
            active_stop_request_id: self.active_stop_request_id,
            last_stop_request_id: self.last_stop_request_id,
            stop_request_recorded_age_ms: self.stop_request_recorded_age_ms,
            runtime_actuator_last_poll_id: self.runtime_actuator_last_poll_id,
            runtime_actuator_last_poll_age_ms: self.runtime_actuator_last_poll_age_ms,
            stop_result_phase: self.stop_result_phase.deep_view(),
            stop_result_age_ms: self.stop_result_age_ms,
            stop_result_error: self.stop_result_error.deep_view(),
        }
    }
}

/// How a place goes.
pub struct HelperPlaceStatus {
    pub place_id: String,
    pub remote_base_url: String,
    pub task_id: Option<String>,
    pub runtime_log_base_url: Option<String>,
    pub runtime_log_upload_url: Option<String>,
    pub runtime_screenshot_upload_url: Option<String>,
    pub runtime_log_forward: Option<RuntimeLogForwardStatusSnapshot>,
    pub registered_instance_count: usize,
    pub registered_instance_ids: Vec<String>,
    pub studio_pids: Vec<u32>,
    pub remote_state: String,
    pub remote_connection_id: Option<String>,
    pub remote_last_error: Option<String>,
    pub remote_last_ready_age_ms: Option<u128>,
    pub remote_last_server_message_age_ms: Option<u128>,
}

/// What a [`HelperPlaceStatus`] stands for.
#[verifier::ext_equal]
pub struct HelperPlaceStatusView {
    pub place_id: Seq<char>,
    pub remote_base_url: Seq<char>,
    pub task_id: Option<Seq<char>>,
    pub runtime_log_base_url: Option<Seq<char>>,
    pub runtime_log_upload_url: Option<Seq<char>>,
    pub runtime_screenshot_upload_url: Option<Seq<char>>,
    pub runtime_log_forward: Option<RuntimeLogForwardStatusSnapshotView>,
    pub registered_instance_count: usize,
    pub registered_instance_ids: Seq<Seq<char>>,
    pub studio_pids: Seq<u32>,
    pub remote_state: Seq<char>,
    pub remote_connection_id: Option<Seq<char>>,
    pub remote_last_error: Option<Seq<char>>,
    pub remote_last_ready_age_ms: Option<u128>,
    pub remote_last_server_message_age_ms: Option<u128>,
}

impl View for HelperPlaceStatus {
    type V = HelperPlaceStatusView;

    open spec fn view(&self) -> HelperPlaceStatusView {
        HelperPlaceStatusView {
            place_id: self.place_id@,
            remote_base_url: self.remote_base_url@,
            task_id: self.task_id.deep_view(),
            runtime_log_base_url: self.runtime_log_base_url.deep_view(),
            runtime_log_upload_url: self.runtime_log_upload_url.deep_view(),
            runtime_screenshot_upload_url: self.runtime_screenshot_upload_url.deep_view(),
            runtime_log_forward: crate::table::opt_view(self.runtime_log_forward),
            registered_instance_count: self.registered_instance_count,
            registered_instance_ids: self.registered_instance_ids.deep_view(),
            studio_pids: self.studio_pids@,
            remote_state: self.remote_state@,
            remote_connection_id: self.remote_connection_id.deep_view(),
            remote_last_error: self.remote_last_error.deep_view(),
            remote_last_ready_age_ms: self.remote_last_ready_age_ms,
            remote_last_server_message_age_ms: self.remote_last_server_message_age_ms,
        }
    }
}

/// How the helper goes.
pub struct HelperStatusResponse {
    pub helper_port: u16,
    pub helper_id: String,
    pub user_name: String,
    pub capacity: usize,
    pub hub_base_url: Option<String>,
    pub hub_last_error: Option<String>,
    pub hub_last_claim_error: Option<String>,
    pub hub_last_ready_age_ms: Option<u128>,
    pub active_instances: usize,
    pub claimed_task_count: usize,
    pub active_places: Vec<String>,
    pub claimed_tasks: Vec<ClaimedTaskStatus>,
    pub launched_studios: Vec<LaunchProcessStatus>,
    pub instances: Vec<HelperInstanceStatus>,
    pub place_statuses: Vec<HelperPlaceStatus>,
    pub last_remote_errors: Table<String>,
}

/// What a [`HelperStatusResponse`] stands for.
#[verifier::ext_equal]
pub struct HelperStatusResponseView {
    pub helper_port: u16,
    pub helper_id: Seq<char>,
    pub user_name: Seq<char>,
    pub capacity: usize,
    pub hub_base_url: Option<Seq<char>>,
    pub hub_last_error: Option<Seq<char>>,
    pub hub_last_claim_error: Option<Seq<char>>,
    pub hub_last_ready_age_ms: Option<u128>,
    pub active_instances: usize,
    pub claimed_task_count: usize,
    pub active_places: Seq<Seq<char>>,
    pub claimed_tasks: Seq<ClaimedTaskStatusView>,
    pub launched_studios: Seq<LaunchProcessStatusView>,
    pub instances: Seq<HelperInstanceStatusView>,
    pub place_statuses: Seq<HelperPlaceStatusView>,
    pub last_remote_errors: Map<Seq<char>, Seq<char>>,
}

impl View for HelperStatusResponse {
    type V = HelperStatusResponseView;

    open spec fn view(&self) -> HelperStatusResponseView {
        HelperStatusResponseView {
            helper_port: self.helper_port,
            helper_id: self.helper_id@,
            user_name: self.user_name@,
            capacity: self.capacity,
            hub_base_url: self.hub_base_url.deep_view(),
            hub_last_error: self.hub_last_error.deep_view(),
            hub_last_claim_error: self.hub_last_claim_error.deep_view(),
            hub_last_ready_age_ms: self.hub_last_ready_age_ms,
            active_instances: self.active_instances,
            claimed_task_count: self.claimed_task_count,
            active_places: self.active_places.deep_view(),
            claimed_tasks: crate::table::views(self.claimed_tasks@),
            launched_studios: crate::table::views(self.launched_studios@),
            instances: crate::table::views(self.instances@),
            place_statuses: crate::table::views(self.place_statuses@),
            last_remote_errors: self.last_remote_errors@,
        }
    }
}

/// A plugin of a task, in detail.
pub struct DebugInstance {
    pub instance_id: String,
    pub place_id: String,
    pub task_id: Option<String>,
    pub remote_base_url: String,
    pub studio_pid: Option<u32>,
    pub studio_mode: Option<String>,
    pub studio_mode_age_ms: Option<u128>,
    pub studio_mode_source: String,
    pub studio_control_state: String,
    pub studio_transition_phase: String,
    pub studio_transition_age_ms: Option<u128>,
    pub edit_runtime_state: String,
    pub edit_runtime_age_ms: Option<u128>,
    pub studio_control_last_error: Option<String>,
}

/// What a [`DebugInstance`] stands for.
#[verifier::ext_equal]
pub struct DebugInstanceView {
    pub instance_id: Seq<char>,
    pub place_id: Seq<char>,
    pub task_id: Option<Seq<char>>,
    pub remote_base_url: Seq<char>,
    pub studio_pid: Option<u32>,
    pub studio_mode: Option<Seq<char>>,
    pub studio_mode_age_ms: Option<u128>,
    pub studio_mode_source: Seq<char>,
    pub studio_control_state: Seq<char>,
    pub studio_transition_phase: Seq<char>,
    pub studio_transition_age_ms: Option<u128>,
    pub edit_runtime_state: Seq<char>,
    pub edit_runtime_age_ms: Option<u128>,
    pub studio_control_last_error: Option<Seq<char>>,
}

impl View for DebugInstance {
    type V = DebugInstanceView;

    open spec fn view(&self) -> DebugInstanceView {
        DebugInstanceView {
            instance_id: self.instance_id@,
            place_id: self.place_id@,
            task_id: self.task_id.deep_view(),
            remote_base_url: self.remote_base_url@,
            studio_pid: self.studio_pid,
            studio_mode: self.studio_mode.deep_view(),
            studio_mode_age_ms: self.studio_mode_age_ms,
            studio_mode_source: self.studio_mode_source@,
            studio_control_state: self.studio_control_state@,
            studio_transition_phase: self.studio_transition_phase@,
            studio_transition_age_ms: self.studio_transition_age_ms,
            edit_runtime_state: self.edit_runtime_state@,
            edit_runtime_age_ms: self.edit_runtime_age_ms,
            studio_control_last_error: self.studio_control_last_error.deep_view(),
        }
    }
}

/// A task that the helper holds, in detail.
pub struct DebugClaim {
    pub task_id: String,
    pub place_id: String,
    pub universe_id: Option<String>,
    pub mcp_base_url: String,
    pub rojo_base_url: Option<String>,
    pub runtime_log_base_url: Option<String>,
    pub runtime_log_upload_url: Option<String>,
    pub claimed_age_ms: u128,
}

/// What a [`DebugClaim`] stands for.
#[verifier::ext_equal]
pub struct DebugClaimView {
    pub task_id: Seq<char>,
    pub place_id: Seq<char>,
    pub universe_id: Option<Seq<char>>,
    pub mcp_base_url: Seq<char>,
    pub rojo_base_url: Option<Seq<char>>,
    pub runtime_log_base_url: Option<Seq<char>>,
    pub runtime_log_upload_url: Option<Seq<char>>,
    pub claimed_age_ms: u128,
}

impl View for DebugClaim {
    type V = DebugClaimView;

    open spec fn view(&self) -> DebugClaimView {
        DebugClaimView {
            task_id: self.task_id@,
            place_id: self.place_id@,
            universe_id: self.universe_id.deep_view(),
            mcp_base_url: self.mcp_base_url@,
            rojo_base_url: self.rojo_base_url.deep_view(),
            runtime_log_base_url: self.runtime_log_base_url.deep_view(),
            runtime_log_upload_url: self.runtime_log_upload_url.deep_view(),
            claimed_age_ms: self.claimed_age_ms,
        }
    }
}

/// The connection of a task, in detail.
pub struct DebugConnection {
    pub state: String,
    pub connection_id: Option<String>,
    pub last_ready_age_ms: Option<u128>,
    pub last_server_message_age_ms: Option<u128>,
    pub last_error: Option<String>,
}

/// What a [`DebugConnection`] stands for.
#[verifier::ext_equal]
pub struct DebugConnectionView {
    pub state: Seq<char>,
    pub connection_id: Option<Seq<char>>,
    pub last_ready_age_ms: Option<u128>,
    pub last_server_message_age_ms: Option<u128>,
    pub last_error: Option<Seq<char>>,
}

impl View for DebugConnection {
    type V = DebugConnectionView;

    open spec fn view(&self) -> DebugConnectionView {
        DebugConnectionView {
            state: self.state@,
            connection_id: self.connection_id.deep_view(),
            last_ready_age_ms: self.last_ready_age_ms,
            last_server_message_age_ms: self.last_server_message_age_ms,
            last_error: self.last_error.deep_view(),
        }
    }
}

/// All that the helper knows of a task.
pub struct DebugTask {
    pub claimed_task: DebugClaim,
    pub launch_process: Option<LaunchProcessStatus>,
    pub remote_connection: Option<DebugConnection>,
    pub runtime_log_forward: RuntimeLogForwardStatusSnapshot,
    pub instances: Vec<DebugInstance>,
    pub task_status: HelperTaskStatusSnapshot,
}

/// What a [`DebugTask`] stands for.
#[verifier::ext_equal]
pub struct DebugTaskView {
    pub claimed_task: DebugClaimView,
    pub launch_process: Option<LaunchProcessStatusView>,
    pub remote_connection: Option<DebugConnectionView>,
    pub runtime_log_forward: RuntimeLogForwardStatusSnapshotView,
    pub instances: Seq<DebugInstanceView>,
    pub task_status: HelperTaskStatusSnapshotView,
}

impl View for DebugTask {
    type V = DebugTaskView;

    open spec fn view(&self) -> DebugTaskView {
        DebugTaskView {
            claimed_task: self.claimed_task@,
            launch_process: crate::table::opt_view(self.launch_process),
            remote_connection: crate::table::opt_view(self.remote_connection),
            runtime_log_forward: self.runtime_log_forward@,
            instances: crate::table::views(self.instances@),
            task_status: self.task_status@,
        }
    }
}

/// The state after a round of tidying: plugins that were not seen for too long and tasks whose process
/// has exited are gone, but for the upkeep of the connections.
pub open spec fn reconciled(s: HelperStateView, exited: Seq<Seq<char>>, now: u128) -> HelperStateView {
    let t = super::connections::tidied(s, now);
    super::routing::released(t, super::routing::held(t, super::routing::with_child(t, exited)))
}

/// What is told of a plugin.
pub open spec fn instance_told(id: Seq<char>, i: PluginInstanceView, now: u128) -> HelperInstanceStatusView {
    HelperInstanceStatusView {
        instance_id: id,
        place_id: i.place_id,
        task_id: i.task_id,
        remote_base_url: i.remote_base_url,
        studio_pid: i.studio_pid,
        studio_session_state: super::session::reported_session(i, now),
        last_known_session_state: super::session::current_session(i, now),
        last_session_error_reason: i.studio_control_last_error,
        studio_mode: i.studio_mode,
        studio_mode_age_ms: crate::clock::age_of(now, i.studio_mode_observed_at),
        studio_mode_source: i.studio_mode_source,
        studio_control_state: super::session::effective_control(i, now),
        studio_transition_phase: super::session::effective_phase(i, now),
        studio_transition_age_ms: crate::clock::age_of(now, i.studio_transition_started_at),
        edit_runtime_state: super::session::edit_state(i, now),
        edit_runtime_age_ms: crate::clock::age_of(now, i.edit_runtime_observed_at),
        studio_control_last_error: i.studio_control_last_error,
        active_stop_request_id: super::session::active_stop(i),
        last_stop_request_id: i.stop_request_id,
        stop_request_recorded_age_ms: crate::clock::age_of(now, i.stop_request_recorded_at),
        runtime_actuator_last_poll_id: i.stop_request_last_poll_id,
        runtime_actuator_last_poll_age_ms: crate::clock::age_of(now, i.stop_request_last_polled_at),
        stop_result_phase: i.stop_result_phase,
        stop_result_age_ms: crate::clock::age_of(now, i.stop_result_observed_at),
        stop_result_error: i.stop_result_error,
    }
}

/// The address under which the helper forwards runtime logs, for a task that has them.
pub open spec fn log_address(task: ClaimedTaskView, port: u16, tail: Seq<char>) -> Option<Seq<char>> {
    if task.runtime_log_base_url is Some {
        Some(
            crate::urls::forward_url(port, "runtime-log-forward"@, task.place_id, task.task_id)
                + tail,
        )
    } else {
        None
    }
}

/// The process of the task.
pub open spec fn active_pid(s: HelperStateView, task_id: Seq<char>) -> Option<u32> {
    choose|pid: Option<u32>| super::routing::is_active_pid(s, task_id, pid)
}

/// The process that serves the task was launched by the helper.
pub open spec fn helper_launched(s: HelperStateView, task_id: Seq<char>) -> bool {
    s.launch_processes.contains_key(task_id) && super::routing::launch_active(
        s,
        s.launch_processes[task_id],
    ) && s.launch_processes[task_id].launched_by_helper
}

/// What is told of the connection under a key: its identifier, its last error, and how long ago it was
/// acknowledged and heard of.
pub open spec fn connection_told(s: HelperStateView, key: Seq<char>, now: u128) -> (
    Option<Seq<char>>,
    Option<Seq<char>>,
    Option<u128>,
    Option<u128>,
) {
    let c = s.remote_connections[key];
    let error = if s.last_remote_errors.contains_key(key) {
        Some(s.last_remote_errors[key])
    } else {
        None
    };
    if s.remote_connections.contains_key(key) {
        (
            c.connection_id,
            error,
            crate::clock::age_of(now, c.last_ready_at),
            crate::clock::age_of(now, c.last_server_message_at),
        )
    } else {
        (None, error, None, None)
    }
}

/// What is told of a task.
pub open spec fn claim_told(s: HelperStateView, task: ClaimedTaskView, port: u16, now: u128) -> ClaimedTaskStatusView {
    let t = super::task_status::session_snapshot(s, task.task_id, now);
    let key = super::session::connection_key(task.task_id);
    let c = connection_told(s, key, now);
    ClaimedTaskStatusView {
        task_id: task.task_id,
        place_id: task.place_id,
        universe_id: task.universe_id,
        mcp_base_url: task.mcp_base_url,
        rojo_base_url: task.rojo_base_url,
        runtime_log_base_url: log_address(task, port, Seq::empty()),
        runtime_log_upload_url: log_address(task, port, "/v1/runtime-logs"@),
        runtime_log_forward: super::task_status::forward_told(
            super::task_status::forward_record(s, task.task_id),
            now,
        ),
        studio_pid: active_pid(s, task.task_id),
        launched_by_helper: helper_launched(s, task.task_id),
        claimed_age_ms: crate::clock::since_ms(now, task.claimed_at),
        remote_state: super::task_status::remote_state(s, key),
        remote_connection_id: c.0,
        remote_last_error: c.1,
        remote_last_ready_age_ms: c.2,
        remote_last_server_message_age_ms: c.3,
        studio_session_state: t.studio_session_state,
        last_known_session_state: t.last_known_session_state,
        last_session_error_reason: t.last_session_error_reason,
        studio_mode: t.studio_mode,
        studio_mode_age_ms: t.studio_mode_age_ms,
        studio_mode_source: t.studio_mode_source,
        studio_control_state: t.studio_control_state,
        studio_transition_phase: t.studio_transition_phase,
        studio_transition_age_ms: t.studio_transition_age_ms,
        edit_runtime_state: t.edit_runtime_state,
        edit_runtime_age_ms: t.edit_runtime_age_ms,
        studio_control_last_error: t.studio_control_last_error,
        active_stop_request_id: t.active_stop_request_id,
        last_stop_request_id: t.last_stop_request_id,
        stop_request_recorded_age_ms: t.stop_request_recorded_age_ms,
        runtime_actuator_last_poll_id: t.runtime_actuator_last_poll_id,
        runtime_actuator_last_poll_age_ms: t.runtime_actuator_last_poll_age_ms,
        stop_result_phase: t.stop_result_phase,
        stop_result_age_ms: t.stop_result_age_ms,
        stop_result_error: t.stop_result_error,
        official_mcp_adapter_state: super::task_status::adapter_state(s, task.task_id, now),
        official_mcp_adapter_age_ms: super::task_status::adapter_age(s, task.task_id, now),
        official_mcp_adapter_last_error: super::task_status::adapter_error(s, task.task_id),
    }
}

/// What is told of a process.
pub open spec fn launch_told(launch: LaunchProcessRecordView) -> LaunchProcessStatusView {
    LaunchProcessStatusView {
        task_id: launch.task_id,
        place_id: launch.place_id,
        universe_id: launch.universe_id,
        studio_pid: launch.studio_pid,
        launched_by_helper: launch.launched_by_helper,
    }
}

/// The processes that count.
pub open spec fn active_launches(s: HelperStateView) -> Set<Seq<char>> {
    s.launch_processes.dom().filter(
        |k: Seq<char>| super::routing::launch_active(s, s.launch_processes[k]),
    )
}

/// The places of the plugins and the tasks.
pub open spec fn known_places(s: HelperStateView) -> Set<Seq<char>> {
    s.instances.dom().map(|k: Seq<char>| s.instances[k].place_id).union(
        s.claimed_tasks.dom().map(|k: Seq<char>| s.claimed_tasks[k].place_id),
    )
}

/// The plugins at a place.
pub open spec fn instances_at(s: HelperStateView, place_id: Seq<char>) -> Set<Seq<char>> {
    s.instances.dom().filter(|k: Seq<char>| s.instances[k].place_id == place_id)
}

/// The only task at a place.
pub open spec fn only_claim(s: HelperStateView, place_id: Seq<char>) -> Option<ClaimedTaskView> {
    if super::routing::claims_at(s, place_id).len() == 1 {
        Some(s.claimed_tasks[super::routing::claims_at(s, place_id).choose()])
    } else {
        None
    }
}

/// The process runs at the place: a plugin there tells it, or it counts for the only task there.
pub open spec fn place_pid(s: HelperStateView, place_id: Seq<char>, pid: u32) -> bool {
    ||| exists|k: Seq<char>| #[trigger]
        s.instances.contains_key(k) && s.instances[k].place_id == place_id
            && s.instances[k].studio_pid == Some(pid)
    ||| {
        let task = only_claim(s, place_id);
        &&& task is Some
        &&& s.launch_processes.contains_key(task->0.task_id)
        &&& super::routing::launch_active(s, s.launch_processes[task->0.task_id])
        &&& s.launch_processes[task->0.task_id].studio_pid == pid
    }
}

/// The list holds the processes at the place, each once and in rising order.
pub open spec fn lists_pids(s: HelperStateView, place_id: Seq<char>, pids: Seq<u32>) -> bool {
    &&& super::routing::rising(pids)
    &&& forall|pid: u32| #[trigger] pids.contains(pid) <==> place_pid(s, place_id, pid)
}

/// The processes at the place.
pub open spec fn place_pids(s: HelperStateView, place_id: Seq<char>) -> Seq<u32> {
    choose|pids: Seq<u32>| lists_pids(s, place_id, pids)
}

/// What is told of a place. Only one task there is spoken of.
pub open spec fn place_told(s: HelperStateView, place_id: Seq<char>, port: u16, now: u128) -> HelperPlaceStatusView {
    let task = only_claim(s, place_id);
    let t = task->0;
    let key = super::session::connection_key(t.task_id);
    let c = connection_told(s, key, now);
    HelperPlaceStatusView {
        place_id,
        remote_base_url: if task is Some {
            t.mcp_base_url
        } else {
            Seq::empty()
        },
        task_id: if task is Some {
            Some(t.task_id)
        } else {
            None
        },
        runtime_log_base_url: if task is Some {
            log_address(t, port, Seq::empty())
        } else {
            None
        },
        runtime_log_upload_url: if task is Some {
            log_address(t, port, "/v1/runtime-logs"@)
        } else {
            None
        },
        runtime_screenshot_upload_url: if task is Some {
            log_address(t, port, "/v1/runtime-screenshots"@)
        } else {
            None
        },
        runtime_log_forward: if task is Some {
            Some(
                super::task_status::forward_told(
                    super::task_status::forward_record(s, t.task_id),
                    now,
                ),
            )
        } else {
            None
        },
        registered_instance_count: instances_at(s, place_id).len() as usize,
        registered_instance_ids: crate::table::sorted(instances_at(s, place_id)),
        studio_pids: place_pids(s, place_id),
        remote_state: if task is Some {
            super::task_status::remote_state(s, key)
        } else {
            "disconnected"@
        },
        remote_connection_id: if task is Some {
            c.0
        } else {
            None
        },
        remote_last_error: if task is Some {
            c.1
        } else {
            None
        },
        remote_last_ready_age_ms: if task is Some {
            c.2
        } else {
            None
        },
        remote_last_server_message_age_ms: if task is Some {
            c.3
        } else {
            None
        },
    }
}

/// What the helper tells of itself.
pub open spec fn status_told(s: HelperStateView, who: HelperIdentityView, now: u128) -> HelperStatusResponseView {
    HelperStatusResponseView {
        helper_port: who.port,
        helper_id: who.helper_id,
        user_name: who.user_name,
        capacity: who.capacity,
        hub_base_url: who.hub_base_url,
        hub_last_error: s.hub_last_error,
        hub_last_claim_error: s.hub_last_claim_error,
        hub_last_ready_age_ms: crate::clock::age_of(now, s.hub_last_ready_at),
        active_instances: s.instances.dom().len() as usize,
        claimed_task_count: s.claimed_tasks.dom().len() as usize,
        active_places: crate::table::sorted(known_places(s)),
        claimed_tasks: crate::table::sorted(s.claimed_tasks.dom()).map_values(
            |k: Seq<char>| claim_told(s, s.claimed_tasks[k], who.port, now),
        ),
        launched_studios: crate::table::sorted(active_launches(s)).map_values(
            |k: Seq<char>| launch_told(s.launch_processes[k]),
        ),
        instances: crate::table::sorted(s.instances.dom()).map_values(
            |k: Seq<char>| instance_told(k, s.instances[k], now),
        ),
        place_statuses: crate::table::sorted(known_places(s)).map_values(
            |p: Seq<char>| place_told(s, p, who.port, now),
        ),
        last_remote_errors: s.last_remote_errors,
    }
}

/// What is told of a plugin in detail.
pub open spec fn debug_instance_told(id: Seq<char>, i: PluginInstanceView, now: u128) -> DebugInstanceView {
    let t = instance_told(id, i, now);
    DebugInstanceView {
        instance_id: id,
        place_id: t.place_id,
        task_id: t.task_id,
        remote_base_url: t.remote_base_url,
        studio_pid: t.studio_pid,
        studio_mode: t.studio_mode,
        studio_mode_age_ms: t.studio_mode_age_ms,
        studio_mode_source: t.studio_mode_source,
        studio_control_state: t.studio_control_state,
        studio_transition_phase: t.studio_transition_phase,
        studio_transition_age_ms: t.studio_transition_age_ms,
        edit_runtime_state: t.edit_runtime_state,
        edit_runtime_age_ms: t.edit_runtime_age_ms,
        studio_control_last_error: t.studio_control_last_error,
    }
}

/// All that is told of a task in detail.
pub open spec fn debug_told(s: HelperStateView, task_id: Seq<char>, port: u16, now: u128) -> DebugTaskView {
    let task = s.claimed_tasks[task_id];
    let key = super::session::connection_key(task.task_id);
    let c = connection_told(s, key, now);
    DebugTaskView {
        claimed_task: DebugClaimView {
            task_id: task.task_id,
            place_id: task.place_id,
            universe_id: task.universe_id,
            mcp_base_url: task.mcp_base_url,
            rojo_base_url: task.rojo_base_url,
            runtime_log_base_url: log_address(task, port, Seq::empty()),
            runtime_log_upload_url: log_address(task, port, "/v1/runtime-logs"@),
            claimed_age_ms: crate::clock::since_ms(now, task.claimed_at),
        },
        launch_process: if s.launch_processes.contains_key(task.task_id) {
            Some(launch_told(s.launch_processes[task.task_id]))
        } else {
            None
        },
        remote_connection: if s.remote_connections.contains_key(key) {
            Some(
                DebugConnectionView {
                    state: super::task_status::remote_state(s, key),
                    connection_id: c.0,
                    last_ready_age_ms: c.2,
                    last_server_message_age_ms: c.3,
                    last_error: c.1,
                },
            )
        } else {
            None
        },
        runtime_log_forward: super::task_status::forward_told(
            super::task_status::forward_record(s, task.task_id),
            now,
        ),
        instances: crate::table::sorted(super::task_status::plugins_of(s, task_id)).map_values(
            |k: Seq<char>| debug_instance_told(k, s.instances[k], now),
        ),
        task_status: super::task_status::task_status_told(s, task.task_id, now),
    }
}

/// Two rising lists of the same numbers are the same.
proof fn lemma_rising_unique(a: Seq<u32>, b: Seq<u32>)
    requires
        super::routing::rising(a),
        super::routing::rising(b),
        forall|pid: u32| #[trigger] a.contains(pid) <==> b.contains(pid),
    ensures
        a == b,
    decreases a.len(),
{
    if a.len() == 0 {
        if b.len() > 0 {
            assert(b.contains(b[0]));
            assert(a.contains(b[0]));
        }
        assert(a =~= b);
    } else {
        assert(a.contains(a[0]));
        assert(b.len() > 0);
        assert(b.contains(b[0]));
        assert(a.contains(b[0]));
        let i = a.index_of(b[0]);
        let j = b.index_of(a[0]);
        assert(a[i] == b[0] && b[j] == a[0]);
        if i > 0 {
            assert(a[0] < a[i]);
        }
        if j > 0 {
            assert(b[0] < b[j]);
        }
        assert(a[0] == b[0]);
        let x = a.drop_first();
        let y = b.drop_first();
        assert forall|pid: u32| #[trigger] x.contains(pid) <==> y.contains(pid) by {
            if x.contains(pid) {
                let k = x.index_of(pid);
                assert(a[k + 1] == pid);
                assert(a[0] < a[k + 1]);
                assert(a.contains(pid));
                let l = b.index_of(pid);
                assert(l > 0);
                assert(y[l - 1] == pid);
            }
            if y.contains(pid) {
                let k = y.index_of(pid);
                assert(b[k + 1] == pid);
                assert(b[0] < b[k + 1]);
                assert(b.contains(pid));
                assert(a.contains(pid));
                let l = a.index_of(pid);
                assert(l > 0);
                assert(x[l - 1] == pid);
            }
        }
        assert forall|i: int, j: int| 0 <= i < j < x.len() implies #[trigger] x[i] < #[trigger] x[j] by {
            assert(a[i + 1] < a[j + 1]);
        }
        assert forall|i: int, j: int| 0 <= i < j < y.len() implies #[trigger] y[i] < #[trigger] y[j] by {
            assert(b[i + 1] < b[j + 1]);
        }
        lemma_rising_unique(x, y);
        assert(a =~= seq![a[0]] + x);
        assert(b =~= seq![b[0]] + y);
    }
}

/// A task has one process at most.
proof fn lemma_active_pid(s: HelperStateView, task_id: Seq<char>, pid: Option<u32>)
    requires
        super::routing::is_active_pid(s, task_id, pid),
    ensures
        active_pid(s, task_id) == pid,
{
    let other = active_pid(s, task_id);
    assert(super::routing::is_active_pid(s, task_id, other));
}

/// Lets plugins go that were not seen for too long and tasks whose process has exited, and keeps the
/// connections up.
pub fn refresh(state: &mut HelperState, exited: &Vec<String>, now: u128)
    requires
        super::task_status::records_wf(old(state)@),
    ensures
        exists|workers: Map<Seq<char>, Seq<char>>| #[trigger]
            super::connections::fresh(workers) && final(state)@ == super::connections::synced(
                reconciled(old(state)@, exited.deep_view(), now),
                workers,
                now,
            ),
        super::task_status::records_wf(final(state)@),
{
    cleanup_stale_instances(state, now);
    reconcile_launch_processes(state, exited);
    sync_remote_connections(state, now);
}

/// What is told of a plugin.
fn tell_instance(id: &str, i: &PluginInstance, now: u128) -> (status: HelperInstanceStatus)
    ensures
        status@ == instance_told(id@, i@, now),
{
    let stop = stop_request_snapshot_for_instance(i, now);
    HelperInstanceStatus {
        instance_id: id.to_owned(),
        place_id: i.place_id.clone(),
        task_id: dup_text(&i.task_id),
        remote_base_url: i.remote_base_url.clone(),
        studio_pid: i.studio_pid,
        studio_session_state: reported_session_state_for_instance(i, now).to_owned(),
        last_known_session_state: match last_known_session_state_for_instance(i, now) {
            Some(state) => Some(state.to_owned()),
            None => None,
        },
        last_session_error_reason: dup_text(&i.studio_control_last_error),
        studio_mode: dup_text(&i.studio_mode),
        studio_mode_age_ms: age_ms(now, i.studio_mode_observed_at),
        studio_mode_source: i.studio_mode_source.clone(),
        studio_control_state: effective_studio_control_state(i, now),
        studio_transition_phase: effective_studio_transition_phase(i, now),
        studio_transition_age_ms: age_ms(now, i.studio_transition_started_at),
        edit_runtime_state: edit_runtime_state(i, now),
        edit_runtime_age_ms: age_ms(now, i.edit_runtime_observed_at),
        studio_control_last_error: dup_text(&i.studio_control_last_error),
        active_stop_request_id: stop.active_stop_request_id,
        last_stop_request_id: stop.last_stop_request_id,
        stop_request_recorded_age_ms: stop.stop_request_recorded_age_ms,
        runtime_actuator_last_poll_id: stop.runtime_actuator_last_poll_id,
        runtime_actuator_last_poll_age_ms: stop.runtime_actuator_last_poll_age_ms,
        stop_result_phase: stop.stop_result_phase,
        stop_result_age_ms: stop.stop_result_age_ms,
        stop_result_error: stop.stop_result_error,
    }
}

/// The address under which the helper forwards the runtime logs of a task.
fn tell_log_base(task: &ClaimedTask, port: u16) -> (url: Option<String>)
    ensures
        url.deep_view() == log_address(task@, port, Seq::empty()),
{
    match &task.runtime_log_base_url {
        Some(_) => {
            let url = runtime_log_forward_base_url(
                port,
                task.place_id.as_str(),
                task.task_id.as_str(),
            );
            assert(url@ + Seq::<char>::empty() =~= url@);
            Some(url)
        },
        None => None,
    }
}

/// The address to which the runtime logs of a task are sent.
fn tell_log_upload(task: &ClaimedTask, port: u16) -> (url: Option<String>)
    ensures
        url.deep_view() == log_address(task@, port, "/v1/runtime-logs"@),
{
    match &task.runtime_log_base_url {
        Some(_) => Some(
            runtime_log_forward_upload_url(port, task.place_id.as_str(), task.task_id.as_str()),
        ),
        None => None,
    }
}

/// The address to which the screenshots of a task are sent.
fn tell_screenshot_upload(task: &ClaimedTask, port: u16) -> (url: Option<String>)
    ensures
        url.deep_view() == log_address(task@, port, "/v1/runtime-screenshots"@),
{
    match &task.runtime_log_base_url {
        Some(_) => Some(
            runtime_screenshot_helper_upload_url(
                port,
                task.place_id.as_str(),
                task.task_id.as_str(),
            ),
        ),
        None => None,
    }
}

/// What is told of the connection under a key.
fn tell_connection(state: &HelperState, key: &str, now: u128) -> (told: (
    Option<String>,
    Option<String>,
    Option<u128>,
    Option<u128>,
))
    ensures
        told.0.deep_view() == connection_told(state@, key@, now).0,
        told.1.deep_view() == connection_told(state@, key@, now).1,
        told.2 == connection_told(state@, key@, now).2,
        told.3 == connection_told(state@, key@, now).3,
{
    let error = match state.last_remote_errors.get(key) {
        Some(text) => Some(text.clone()),
        None => None,
    };
    match state.remote_connections.get(key) {
        Some(c) => (
            dup_text(&c.connection_id),
            error,
            age_ms(now, c.last_ready_at),
            age_ms(now, c.last_server_message_at),
        ),
        None => (None, error, None, None),
    }
}

/// What is told of a task.
fn tell_claim(state: &HelperState, task: &ClaimedTask, port: u16, now: u128) -> (status:
    ClaimedTaskStatus)
    ensures
        status@ == claim_told(state@, task@, port, now),
{
    let task_id = task.task_id.as_str();
    let key = task_connection_key(task_id);
    let (connection_id, last_error, ready_age, message_age) = tell_connection(
        state,
        key.as_str(),
        now,
    );
    let snapshot = task_studio_mode_snapshot(state, task_id, now);
    let edit_ready = same_text(snapshot.edit_runtime_state.as_str(), "ready");
    let (adapter, adapter_age, adapter_error) = task_official_adapter_snapshot(
        state,
        task_id,
        edit_ready,
        now,
    );
    let studio_pid = task_active_studio_pid(state, task_id);
    proof {
        lemma_active_pid(state@, task_id@, studio_pid);
    }
    let launched_by_helper = match state.launch_processes.get(task_id) {
        Some(launch) => launch_process_is_active_for_status(state, launch)
            && launch.launched_by_helper,
        None => false,
    };
    ClaimedTaskStatus {
        task_id: task.task_id.clone(),
        place_id: task.place_id.clone(),
        universe_id: dup_text(&task.universe_id),
        mcp_base_url: task.mcp_base_url.clone(),
        rojo_base_url: dup_text(&task.rojo_base_url),
        runtime_log_base_url: tell_log_base(task, port),
        runtime_log_upload_url: tell_log_upload(task, port),
        runtime_log_forward: runtime_log_forward_status_snapshot(state, task_id, now),
        studio_pid,
        launched_by_helper,
        claimed_age_ms: elapsed_ms(now, task.claimed_at),
        remote_state: remote_connection_state_name(
            state.remote_connections.get(key.as_str()),
        ).to_owned(),
        remote_connection_id: connection_id,
        remote_last_error: last_error,
        remote_last_ready_age_ms: ready_age,
        remote_last_server_message_age_ms: message_age,
        studio_session_state: snapshot.studio_session_state,
        last_known_session_state: snapshot.last_known_session_state,
        last_session_error_reason: snapshot.last_session_error_reason,
        studio_mode: snapshot.studio_mode,
        studio_mode_age_ms: snapshot.studio_mode_age_ms,
        studio_mode_source: snapshot.studio_mode_source,
        studio_control_state: snapshot.studio_control_state,
        studio_transition_phase: snapshot.studio_transition_phase,
        studio_transition_age_ms: snapshot.studio_transition_age_ms,
        edit_runtime_state: snapshot.edit_runtime_state,
        edit_runtime_age_ms: snapshot.edit_runtime_age_ms,
        studio_control_last_error: snapshot.studio_control_last_error,
        active_stop_request_id: snapshot.active_stop_request_id,
        last_stop_request_id: snapshot.last_stop_request_id,
        stop_request_recorded_age_ms: snapshot.stop_request_recorded_age_ms,
        runtime_actuator_last_poll_id: snapshot.runtime_actuator_last_poll_id,
        runtime_actuator_last_poll_age_ms: snapshot.runtime_actuator_last_poll_age_ms,
        stop_result_phase: snapshot.stop_result_phase,
        stop_result_age_ms: snapshot.stop_result_age_ms,
        stop_result_error: snapshot.stop_result_error,
        official_mcp_adapter_state: adapter,
        official_mcp_adapter_age_ms: adapter_age,
        official_mcp_adapter_last_error: adapter_error,
    }
}

/// What is told of a process.
fn tell_launch(launch: &LaunchProcessRecord) -> (status: LaunchProcessStatus)
    ensures
        status@ == launch_told(launch@),
{
    LaunchProcessStatus {
        task_id: launch.task_id.clone(),
        place_id: launch.place_id.clone(),
        universe_id: dup_text(&launch.universe_id),
        studio_pid: launch.studio_pid,
        launched_by_helper: launch.launched_by_helper,
    }
}

/// The places of the plugins and the tasks.
fn collect_places(state: &HelperState) -> (places: IdSet)
    ensures
        places@ == known_places(state@),
{
    let mut places = IdSet::new();
    let n: usize = state.instances.len();
    let mut i: usize = 0;
    while i < n
        invariant
            i <= n,
            n == state.instances.key_list().len(),
            forall|p: Seq<char>| #[trigger]
                places@.contains(p) <==> exists|j: int|
                    0 <= j < i && state@.instances[#[trigger] state.instances.key_list()[j]].place_id
                        == p,
        decreases n - i,
    {
        let ghost before = places@;
        let instance = state.instances.value_at(i);
        places.insert(instance.place_id.clone());
        assert forall|p: Seq<char>| #[trigger] places@.contains(p) <==> exists|j: int|
            0 <= j < i + 1 && state@.instances[#[trigger] state.instances.key_list()[j]].place_id
                == p by {
            if before.contains(p) {
                let j = choose|j: int|
                    0 <= j < i
                        && state@.instances[#[trigger] state.instances.key_list()[j]].place_id == p;
                assert(state@.instances[state.instances.key_list()[j]].place_id == p);
            }
            assert(state@.instances[state.instances.key_list()[i as int]].place_id
                == instance@.place_id);
        }
        i = i + 1;
    }
    let ghost first = places@;
    let m: usize = state.claimed_tasks.len();
    let mut j: usize = 0;
    while j < m
        invariant
            j <= m,
            m == state.claimed_tasks.key_list().len(),
            forall|p: Seq<char>| #[trigger]
                places@.contains(p) <==> first.contains(p) || exists|l: int|
                    0 <= l < j
                        && state@.claimed_tasks[#[trigger] state.claimed_tasks.key_list()[l]].place_id
                        == p,
        decreases m - j,
    {
        let ghost before = places@;
        let task = state.claimed_tasks.value_at(j);
        places.insert(task.place_id.clone());
        assert forall|p: Seq<char>| #[trigger]
            places@.contains(p) <==> first.contains(p) || exists|l: int|
                0 <= l < j + 1
                    && state@.claimed_tasks[#[trigger] state.claimed_tasks.key_list()[l]].place_id
                    == p by {
            if before.contains(p) && !first.contains(p) {
                let l = choose|l: int|
                    0 <= l < j
                        && state@.claimed_tasks[#[trigger] state.claimed_tasks.key_list()[l]].place_id
                        == p;
                assert(state@.claimed_tasks[state.claimed_tasks.key_list()[l]].place_id == p);
            }
            assert(state@.claimed_tasks[state.claimed_tasks.key_list()[j as int]].place_id
                == task@.place_id);
        }
        j = j + 1;
    }
    proof {
        let keys = state.instances.key_list();
        let tasks = state.claimed_tasks.key_list();
        let of_instances = state@.instances.dom().map(
            |k: Seq<char>| state@.instances[k].place_id,
        );
        let of_tasks = state@.claimed_tasks.dom().map(
            |k: Seq<char>| state@.claimed_tasks[k].place_id,
        );
        assert forall|p: Seq<char>| first.contains(p) <==> #[trigger] of_instances.contains(p) by {
            if first.contains(p) {
                let i = choose|i: int|
                    0 <= i < n && state@.instances[#[trigger] keys[i]].place_id == p;
                assert(keys.contains(keys[i]));
                assert(state@.instances.dom().contains(keys[i]));
            }
            if of_instances.contains(p) {
                let k = choose|k: Seq<char>| #[trigger]
                    state@.instances.dom().contains(k) && state@.instances[k].place_id == p;
                let i = keys.index_of(k);
                assert(keys[i] == k);
            }
        }
        assert forall|p: Seq<char>| #[trigger] places@.contains(p) <==> known_places(
            state@,
        ).contains(p) by {
            assert(first.contains(p) <==> of_instances.contains(p));
            if places@.contains(p) && !first.contains(p) {
                let l = choose|l: int|
                    0 <= l < m && state@.claimed_tasks[#[trigger] tasks[l]].place_id == p;
                assert(tasks.contains(tasks[l]));
                assert(state@.claimed_tasks.dom().contains(tasks[l]));
                assert(of_tasks.contains(p));
            }
            if of_tasks.contains(p) {
                let k = choose|k: Seq<char>| #[trigger]
                    state@.claimed_tasks.dom().contains(k) && state@.claimed_tasks[k].place_id == p;
                let l = tasks.index_of(k);
                assert(tasks[l] == k);
            }
        }
        assert(places@ =~= known_places(state@));
    }
    places
}

/// The only task at a place.
fn find_only_claim<'a>(state: &'a HelperState, place_id: &str) -> (task: Option<&'a ClaimedTask>)
    ensures
        match task {
            Some(t) => only_claim(state@, place_id@) == Some(t@),
            None => only_claim(state@, place_id@) is None,
        },
{
    let test = |k: &str, t: &ClaimedTask| -> (r: bool)
        ensures
            r == (t@.place_id == place_id@),
    { same_text(t.place_id.as_str(), place_id) };
    let found = state.claimed_tasks.keys_where(
        test,
        Ghost(|k: Seq<char>, t: ClaimedTaskView| t.place_id == place_id@),
    );
    assert(found@ =~= super::routing::claims_at(state@, place_id@));
    if found.len() != 1 {
        return None;
    }
    let ids = found.to_sorted_vec();
    proof {
        let only = super::routing::claims_at(state@, place_id@).choose();
        assert(found@.contains(only));
        assert(ids.deep_view().contains(only));
        assert forall|k: Seq<char>| #[trigger] found@.contains(k) implies k == only by {
            if k != only {
                assert(found@.remove(only).contains(k));
                assert(found@.remove(only).len() == 0);
            }
        }
        assert(ids.deep_view().contains(ids.deep_view()[0]));
        assert(found@.contains(ids.deep_view()[0]));
    }
    state.claimed_tasks.get(ids[0].as_str())
}

/// The processes at a place.
fn collect_place_pids(state: &HelperState, place_id: &str, task: Option<&ClaimedTask>) -> (pids: Vec<
    u32,
>)
    requires
        match task {
            Some(t) => only_claim(state@, place_id@) == Some(t@),
            None => only_claim(state@, place_id@) is None,
        },
    ensures
        pids@ == place_pids(state@, place_id@),
{
    let mut pids: Vec<u32> = Vec::new();
    let n: usize = state.instances.len();
    let ghost keys = state.instances.key_list();
    let mut i: usize = 0;
    while i < n
        invariant
            i <= n,
            keys == state.instances.key_list(),
            n == keys.len(),
            super::routing::rising(pids@),
            forall|pid: u32| #[trigger]
                pids@.contains(pid) <==> exists|j: int|
                    0 <= j < i && tells_at(state@.instances[#[trigger] keys[j]], place_id@, pid),
        decreases n - i,
    {
        let instance = state.instances.value_at(i);
        let ghost before = pids@;
        if same_text(instance.place_id.as_str(), place_id) {
            if let Some(pid) = instance.studio_pid {
                add_pid(&mut pids, pid);
            }
        }
        assert forall|pid: u32| #[trigger] pids@.contains(pid) <==> exists|j: int|
            0 <= j < i + 1 && tells_at(state@.instances[#[trigger] keys[j]], place_id@, pid) by {
            if pids@.contains(pid) && !before.contains(pid) {
                assert(tells_at(state@.instances[keys[i as int]], place_id@, pid));
            }
            if before.contains(pid) {
                let j = choose|j: int|
                    0 <= j < i && tells_at(state@.instances[#[trigger] keys[j]], place_id@, pid);
                assert(tells_at(state@.instances[keys[j]], place_id@, pid));
            }
        }
        i = i + 1;
    }
    let ghost told = pids@;
    assert forall|pid: u32| #[trigger] told.contains(pid) <==> (exists|k: Seq<char>| #[trigger]
        state@.instances.contains_key(k) && state@.instances[k].place_id == place_id@
            && state@.instances[k].studio_pid == Some(pid)) by {
        if told.contains(pid) {
            let j = choose|j: int|
                0 <= j < n && tells_at(state@.instances[#[trigger] keys[j]], place_id@, pid);
            assert(keys.contains(keys[j]));
            assert(state@.instances.dom().contains(keys[j]));
            assert(state@.instances.contains_key(keys[j]));
        }
        if exists|k: Seq<char>| #[trigger]
            state@.instances.contains_key(k) && state@.instances[k].place_id == place_id@
                && state@.instances[k].studio_pid == Some(pid) {
            let k = choose|k: Seq<char>| #[trigger]
                state@.instances.contains_key(k) && state@.instances[k].place_id == place_id@
                    && state@.instances[k].studio_pid == Some(pid);
            assert(state@.instances.dom().contains(k));
            let j = keys.index_of(k);
            assert(keys[j] == k);
            assert(tells_at(state@.instances[keys[j]], place_id@, pid));
        }
    }
    if let Some(t) = task {
        if let Some(launch) = state.launch_processes.get(t.task_id.as_str()) {
            if launch_process_is_active_for_status(state, launch) {
                add_pid(&mut pids, launch.studio_pid);
            }
        }
    }
    proof {
        assert(lists_pids(state@, place_id@, pids@)) by {
            assert forall|pid: u32| #[trigger] pids@.contains(pid) <==> place_pid(
                state@,
                place_id@,
                pid,
            ) by {
                assert(told.contains(pid) <==> (exists|k: Seq<char>| #[trigger]
                    state@.instances.contains_key(k) && state@.instances[k].place_id == place_id@
                        && state@.instances[k].studio_pid == Some(pid)));
            }
        }
        let listed = place_pids(state@, place_id@);
        assert(lists_pids(state@, place_id@, listed));
        assert forall|pid: u32| #[trigger] pids@.contains(pid) <==> listed.contains(pid) by {
            assert(place_pid(state@, place_id@, pid) <==> listed.contains(pid));
        }
        lemma_rising_unique(pids@, listed);
    }
    pids
}

/// The plugin is at the place and tells the process.
pub open spec fn tells_at(i: PluginInstanceView, place_id: Seq<char>, pid: u32) -> bool {
    i.place_id == place_id && i.studio_pid == Some(pid)
}

/// What is told of a place.
fn tell_place(state: &HelperState, place_id: &str, port: u16, now: u128) -> (status: HelperPlaceStatus)
    ensures
        status@ == place_told(state@, place_id@, port, now),
{
    let task = find_only_claim(state, place_id);
    let test = |k: &str, i: &PluginInstance| -> (r: bool)
        ensures
            r == (i@.place_id == place_id@),
    { same_text(i.place_id.as_str(), place_id) };
    let ids = state.instances.keys_where(
        test,
        Ghost(|k: Seq<char>, i: PluginInstanceView| i.place_id == place_id@),
    );
    assert(ids@ =~= instances_at(state@, place_id@));
    let studio_pids = collect_place_pids(state, place_id, task);
    assert(""@ =~= Seq::<char>::empty()) by {
        reveal_strlit("");
    }
    match task {
        Some(t) => {
            let key = task_connection_key(t.task_id.as_str());
            let (connection_id, last_error, ready_age, message_age) = tell_connection(
                state,
                key.as_str(),
                now,
            );
            HelperPlaceStatus {
                place_id: place_id.to_owned(),
                remote_base_url: t.mcp_base_url.clone(),
                task_id: Some(t.task_id.clone()),
                runtime_log_base_url: tell_log_base(t, port),
                runtime_log_upload_url: tell_log_upload(t, port),
                runtime_screenshot_upload_url: tell_screenshot_upload(t, port),
                runtime_log_forward: Some(
                    runtime_log_forward_status_snapshot(state, t.task_id.as_str(), now),
                ),
                registered_instance_count: ids.len(),
                registered_instance_ids: ids.to_sorted_vec(),
                studio_pids,
                remote_state: remote_connection_state_name(
                    state.remote_connections.get(key.as_str()),
                ).to_owned(),
                remote_connection_id: connection_id,
                remote_last_error: last_error,
                remote_last_ready_age_ms: ready_age,
                remote_last_server_message_age_ms: message_age,
            }
        },
        None => HelperPlaceStatus {
            place_id: place_id.to_owned(),
            remote_base_url: "".to_owned(),
            task_id: None,
            runtime_log_base_url: None,
            runtime_log_upload_url: None,
            runtime_screenshot_upload_url: None,
            runtime_log_forward: None,
            registered_instance_count: ids.len(),
            registered_instance_ids: ids.to_sorted_vec(),
            studio_pids,
            remote_state: "disconnected".to_owned(),
            remote_connection_id: None,
            remote_last_error: None,
            remote_last_ready_age_ms: None,
            remote_last_server_message_age_ms: None,
        },
    }
}

/// What the helper tells of itself.
pub fn helper_status(state: &HelperState, who: &HelperIdentity, now: u128) -> (status:
    HelperStatusResponse)
    ensures
        status@ == status_told(state@, who@, now),
{
    let port: u16 = who.port;
    let places = collect_places(state);
    let place_ids = places.to_sorted_vec();
    let make_claim = |k: &str, t: &ClaimedTask| -> (r: ClaimedTaskStatus)
        ensures
            r@ == claim_told(state@, t@, port, now),
    { tell_claim(state, t, port, now) };
    let claimed_tasks = state.claimed_tasks.collect(
        make_claim,
        Ghost(|k: Seq<char>, t: ClaimedTaskView| claim_told(state@, t, port, now)),
    );
    let make_instance = |k: &str, i: &PluginInstance| -> (r: HelperInstanceStatus)
        ensures
            r@ == instance_told(k@, i@, now),
    { tell_instance(k, i, now) };
    let instances = state.instances.collect(
        make_instance,
        Ghost(|k: Seq<char>, i: PluginInstanceView| instance_told(k, i, now)),
    );
    let test = |k: &str, l: &LaunchProcessRecord| -> (r: bool)
        ensures
            r == super::routing::launch_active(state@, l@),
    { launch_process_is_active_for_status(state, l) };
    let launches = state.launch_processes.keys_where(
        test,
        Ghost(
            |k: Seq<char>, l: LaunchProcessRecordView| super::routing::launch_active(state@, l),
        ),
    );
    assert(launches@ =~= active_launches(state@));
    let launch_ids = launches.to_sorted_vec();
    let make_launch = |k: &str| -> (r: LaunchProcessStatus)
        requires
            state@.launch_processes.contains_key(k@),
        ensures
            r@ == launch_told(state@.launch_processes[k@]),
    {
        let found = state.launch_processes.get(k);
        tell_launch(found.unwrap())
    };
    assert forall|k: &str| launch_ids.deep_view().contains(k@) implies #[trigger] call_requires(
        make_launch,
        (k,),
    ) by {
        assert(launches@.contains(k@));
    }
    let launched_studios = map_ids(
        &launch_ids,
        make_launch,
        Ghost(|k: Seq<char>| launch_told(state@.launch_processes[k])),
    );
    let make_place = |p: &str| -> (r: HelperPlaceStatus)
        ensures
            r@ == place_told(state@, p@, port, now),
    { tell_place(state, p, port, now) };
    let place_statuses = map_ids(
        &place_ids,
        make_place,
        Ghost(|p: Seq<char>| place_told(state@, p, port, now)),
    );
    let status = HelperStatusResponse {
        helper_port: port,
        helper_id: who.helper_id.clone(),
        user_name: who.user_name.clone(),
        capacity: who.capacity,
        hub_base_url: dup_text(&who.hub_base_url),
        hub_last_error: dup_text(&state.hub_last_error),
        hub_last_claim_error: dup_text(&state.hub_last_claim_error),
        hub_last_ready_age_ms: age_ms(now, state.hub_last_ready_at),
        active_instances: state.instances.len(),
        claimed_task_count: claimed_tasks.len(),
        active_places: place_ids,
        claimed_tasks,
        launched_studios,
        instances,
        place_statuses,
        last_remote_errors: state.last_remote_errors.dup(),
    };
    proof {
        let want = status_told(state@, who@, now);
        assert(status@.claimed_tasks =~= want.claimed_tasks);
        assert(status@.instances =~= want.instances);
        assert(status@.launched_studios =~= want.launched_studios);
        assert(status@.place_statuses =~= want.place_statuses);
    }
    status
}

/// All that the helper knows of a task that it holds.
pub fn debug_task(state: &HelperState, task_id: &str, port: u16, now: u128) -> (told: Option<DebugTask>)
    ensures
        crate::table::opt_view(told) == if state@.claimed_tasks.contains_key(task_id@) {
            Some(debug_told(state@, task_id@, port, now))
        } else {
            None
        },
{
    let task = match state.claimed_tasks.get(task_id) {
        Some(task) => task,
        None => return None,
    };
    let id = task.task_id.as_str();
    let key = task_connection_key(id);
    let (connection_id, last_error, ready_age, message_age) = tell_connection(
        state,
        key.as_str(),
        now,
    );
    let test = |k: &str, i: &PluginInstance| -> (r: bool)
        ensures
            r == super::session::of_task(i@, task_id@),
    { serves_task(i, task_id) };
    let found = state.instances.keys_where(
        test,
        Ghost(|k: Seq<char>, i: PluginInstanceView| super::session::of_task(i, task_id@)),
    );
    assert(found@ =~= super::task_status::plugins_of(state@, task_id@));
    let ids = found.to_sorted_vec();
    let make = |k: &str| -> (r: DebugInstance)
        requires
            state@.instances.contains_key(k@),
        ensures
            r@ == debug_instance_told(k@, state@.instances[k@], now),
    { tell_debug_instance(state, k, now) };
    assert forall|k: &str| ids.deep_view().contains(k@) implies #[trigger] call_requires(
        make,
        (k,),
    ) by {
        assert(found@.contains(k@));
    }
    let instances = map_ids(
        &ids,
        make,
        Ghost(|k: Seq<char>| debug_instance_told(k, state@.instances[k], now)),
    );
    let launch_process = match state.launch_processes.get(id) {
        Some(launch) => Some(tell_launch(launch)),
        None => None,
    };
    let connection = state.remote_connections.get(key.as_str());
    let remote_connection = match connection {
        Some(_) => Some(
            DebugConnection {
                state: remote_connection_state_name(connection).to_owned(),
                connection_id,
                last_ready_age_ms: ready_age,
                last_server_message_age_ms: message_age,
                last_error,
            },
        ),
        None => None,
    };
    let told = DebugTask {
        claimed_task: DebugClaim {
            task_id: task.task_id.clone(),
            place_id: task.place_id.clone(),
            universe_id: dup_text(&task.universe_id),
            mcp_base_url: task.mcp_base_url.clone(),
            rojo_base_url: dup_text(&task.rojo_base_url),
            runtime_log_base_url: tell_log_base(task, port),
            runtime_log_upload_url: tell_log_upload(task, port),
            claimed_age_ms: elapsed_ms(now, task.claimed_at),
        },
        launch_process,
        remote_connection,
        runtime_log_forward: runtime_log_forward_status_snapshot(state, id, now),
        instances,
        task_status: helper_task_status_snapshot(state, id, now),
    };
    assert(told@.instances =~= debug_told(state@, task_id@, port, now).instances);
    Some(told)
}

/// What is told of a plugin in detail.
fn tell_debug_instance(state: &HelperState, id: &str, now: u128) -> (told: DebugInstance)
    requires
        state@.instances.contains_key(id@),
    ensures
        told@ == debug_instance_told(id@, state@.instances[id@], now),
{
    let found = state.instances.get(id);
    let i = found.unwrap();
    DebugInstance {
        instance_id: id.to_owned(),
        place_id: i.place_id.clone(),
        task_id: dup_text(&i.task_id),
        remote_base_url: i.remote_base_url.clone(),
        studio_pid: i.studio_pid,
        studio_mode: dup_text(&i.studio_mode),
        studio_mode_age_ms: age_ms(now, i.studio_mode_observed_at),
        studio_mode_source: i.studio_mode_source.clone(),
        studio_control_state: effective_studio_control_state(i, now),
        studio_transition_phase: effective_studio_transition_phase(i, now),
        studio_transition_age_ms: age_ms(now, i.studio_transition_started_at),
        edit_runtime_state: edit_runtime_state(i, now),
        edit_runtime_age_ms: age_ms(now, i.edit_runtime_observed_at),
        studio_control_last_error: dup_text(&i.studio_control_last_error),
    }
}

} // verus!
