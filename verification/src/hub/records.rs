//! The records of the hub: helpers, tasks, drains, and what is written of them to disk.
use vstd::prelude::*;

use crate::table::{dup_text, Dup, IdSet, Table};

verus! {

/// The timing rules of a hub.
pub struct HubConfig {
    pub task_heartbeat_timeout_sec: u64,
    pub helper_heartbeat_timeout_sec: u64,
    pub heartbeat_interval_sec: u64,
}

/// What a [`HubConfig`] stands for.
#[verifier::ext_equal]
pub struct HubConfigView {
    pub task_heartbeat_timeout_sec: u64,
    pub helper_heartbeat_timeout_sec: u64,
    pub heartbeat_interval_sec: u64,
}

impl View for HubConfig {
    type V = HubConfigView;

    open spec fn view(&self) -> HubConfigView {
        HubConfigView {
            task_heartbeat_timeout_sec: self.task_heartbeat_timeout_sec,
            helper_heartbeat_timeout_sec: self.helper_heartbeat_timeout_sec,
            heartbeat_interval_sec: self.heartbeat_interval_sec,
        }
    }
}

impl Dup for HubConfig {
    fn dup(&self) -> (copy: Self) {
        HubConfig {
            task_heartbeat_timeout_sec: self.task_heartbeat_timeout_sec,
            helper_heartbeat_timeout_sec: self.helper_heartbeat_timeout_sec,
            heartbeat_interval_sec: self.heartbeat_interval_sec,
        }
    }
}

/// What a helper reports of one task that it serves, with ages as of the report.
pub struct HelperActiveTaskRecord {
    pub task_id: String,
    pub remote_state: String,
    pub remote_connection_id: Option<String>,
    pub remote_last_error: Option<String>,
    pub remote_last_ready_age_ms: Option<u128>,
    pub remote_last_server_message_age_ms: Option<u128>,
    pub studio_session_state: Option<String>,
    pub studio_session_state_age_ms: Option<u128>,
    pub studio_mode: Option<String>,
    pub studio_mode_age_ms: Option<u128>,
    pub studio_mode_source: Option<String>,
    pub studio_control_state: Option<String>,
    pub studio_transition_phase: Option<String>,
    pub studio_transition_age_ms: Option<u128>,
    pub edit_runtime_state: Option<String>,
    pub edit_runtime_age_ms: Option<u128>,
    pub studio_control_last_error: Option<String>,
    pub last_stop_request_id: u64,
    pub last_stop_request_age_ms: Option<u128>,
    pub last_stop_request_source: Option<String>,
    pub last_stop_request_error: Option<String>,
    pub stop_intent_recorded: bool,
    pub stop_request_available: bool,
    pub stop_request_consumed: bool,
    pub end_test_requested: bool,
    pub runtime_actuator_last_poll_id: u64,
    pub runtime_actuator_last_poll_age_ms: Option<u128>,
    pub runtime_actuator_last_error: Option<String>,
    pub official_mcp_adapter_state: Option<String>,
    pub official_mcp_adapter_age_ms: Option<u128>,
    pub official_mcp_adapter_last_error: Option<String>,
}

/// What a [`HelperActiveTaskRecord`] stands for.
#[verifier::ext_equal]
pub struct HelperActiveTaskRecordView {
    pub task_id: Seq<char>,
    pub remote_state: Seq<char>,
    pub remote_connection_id: Option<Seq<char>>,
    pub remote_last_error: Option<Seq<char>>,
    pub remote_last_ready_age_ms: Option<u128>,
    pub remote_last_server_message_age_ms: Option<u128>,
    pub studio_session_state: Option<Seq<char>>,
    pub studio_session_state_age_ms: Option<u128>,
    pub studio_mode: Option<Seq<char>>,
    pub studio_mode_age_ms: Option<u128>,
    pub studio_mode_source: Option<Seq<char>>,
    pub studio_control_state: Option<Seq<char>>,
    pub studio_transition_phase: Option<Seq<char>>,
    pub studio_transition_age_ms: Option<u128>,
    pub edit_runtime_state: Option<Seq<char>>,
    pub edit_runtime_age_ms: Option<u128>,
    pub studio_control_last_error: Option<Seq<char>>,
    pub last_stop_request_id: u64,
    pub last_stop_request_age_ms: Option<u128>,
    pub last_stop_request_source: Option<Seq<char>>,
    pub last_stop_request_error: Option<Seq<char>>,
    pub stop_intent_recorded: bool,
    pub stop_request_available: bool,
    pub stop_request_consumed: bool,
    pub end_test_requested: bool,
    pub runtime_actuator_last_poll_id: u64,
    pub runtime_actuator_last_poll_age_ms: Option<u128>,
    pub runtime_actuator_last_error: Option<Seq<char>>,
    pub official_mcp_adapter_state: Option<Seq<char>>,
    pub official_mcp_adapter_age_ms: Option<u128>,
    pub official_mcp_adapter_last_error: Option<Seq<char>>,
}

impl View for HelperActiveTaskRecord {
    type V = HelperActiveTaskRecordView;

    open spec fn view(&self) -> HelperActiveTaskRecordView {
        HelperActiveTaskRecordView {
            task_id: self.task_id@,
            remote_state: self.remote_state@,
            remote_connection_id: self.remote_connection_id.deep_view(),
            remote_last_error: self.remote_last_error.deep_view(),
            remote_last_ready_age_ms: self.remote_last_ready_age_ms,
            remote_last_server_message_age_ms: self.remote_last_server_message_age_ms,
            studio_session_state: self.studio_session_state.deep_view(),
            studio_session_state_age_ms: self.studio_session_state_age_ms,
            studio_mode: self.studio_mode.deep_view(),
            studio_mode_age_ms: self.studio_mode_age_ms,
            studio_mode_source: self.studio_mode_source.deep_view(),
            studio_control_state: self.studio_control_state.deep_view(),
            studio_transition_phase: self.studio_transition_phase.deep_view(),
            studio_transition_age_ms: self.studio_transition_age_ms,
            edit_runtime_state: self.edit_runtime_state.deep_view(),
            edit_runtime_age_ms: self.edit_runtime_age_ms,
            studio_control_last_error: self.studio_control_last_error.deep_view(),
            last_stop_request_id: self.last_stop_request_id,
            last_stop_request_age_ms: self.last_stop_request_age_ms,
            last_stop_request_source: self.last_stop_request_source.deep_view(),
            last_stop_request_error: self.last_stop_request_error.deep_view(),
            stop_intent_recorded: self.stop_intent_recorded,
            stop_request_available: self.stop_request_available,
            stop_request_consumed: self.stop_request_consumed,
            end_test_requested: self.end_test_requested,
            runtime_actuator_last_poll_id: self.runtime_actuator_last_poll_id,
            runtime_actuator_last_poll_age_ms: self.runtime_actuator_last_poll_age_ms,
            runtime_actuator_last_error: self.runtime_actuator_last_error.deep_view(),
            official_mcp_adapter_state: self.official_mcp_adapter_state.deep_view(),
            official_mcp_adapter_age_ms: self.official_mcp_adapter_age_ms,
            official_mcp_adapter_last_error: self.official_mcp_adapter_last_error.deep_view(),
        }
    }
}

impl Dup for HelperActiveTaskRecord {
    fn dup(&self) -> (copy: Self) {
        HelperActiveTaskRecord {
            task_id: self.task_id.clone(),
            remote_state: self.remote_state.clone(),
            remote_connection_id: dup_text(&self.remote_connection_id),
            remote_last_error: dup_text(&self.remote_last_error),
            remote_last_ready_age_ms: self.remote_last_ready_age_ms,
            remote_last_server_message_age_ms: self.remote_last_server_message_age_ms,
            studio_session_state: dup_text(&self.studio_session_state),
            studio_session_state_age_ms: self.studio_session_state_age_ms,
            studio_mode: dup_text(&self.studio_mode),
            studio_mode_age_ms: self.studio_mode_age_ms,
            studio_mode_source: dup_text(&self.studio_mode_source),
            studio_control_state: dup_text(&self.studio_control_state),
            studio_transition_phase: dup_text(&self.studio_transition_phase),
            studio_transition_age_ms: self.studio_transition_age_ms,
            edit_runtime_state: dup_text(&self.edit_runtime_state),
            edit_runtime_age_ms: self.edit_runtime_age_ms,
            studio_control_last_error: dup_text(&self.studio_control_last_error),
            last_stop_request_id: self.last_stop_request_id,
            last_stop_request_age_ms: self.last_stop_request_age_ms,
            last_stop_request_source: dup_text(&self.last_stop_request_source),
            last_stop_request_error: dup_text(&self.last_stop_request_error),
            stop_intent_recorded: self.stop_intent_recorded,
            stop_request_available: self.stop_request_available,
            stop_request_consumed: self.stop_request_consumed,
            end_test_requested: self.end_test_requested,
            runtime_actuator_last_poll_id: self.runtime_actuator_last_poll_id,
            runtime_actuator_last_poll_age_ms: self.runtime_actuator_last_poll_age_ms,
            runtime_actuator_last_error: dup_text(&self.runtime_actuator_last_error),
            official_mcp_adapter_state: dup_text(&self.official_mcp_adapter_state),
            official_mcp_adapter_age_ms: self.official_mcp_adapter_age_ms,
            official_mcp_adapter_last_error: dup_text(&self.official_mcp_adapter_last_error),
        }
    }
}

/// A helper that registered and has not gone stale.
pub struct HelperRecord {
    pub helper_id: String,
    pub owner_user: String,
    pub platform: String,
    pub capacity: usize,
    pub labels: Vec<String>,
    pub active_task_ids: IdSet,
    pub active_tasks: Table<HelperActiveTaskRecord>,
    pub registered_at_unix_ms: u64,
    pub last_seen_at: u128,
}

/// What a [`HelperRecord`] stands for.
#[verifier::ext_equal]
pub struct HelperRecordView {
    pub helper_id: Seq<char>,
    pub owner_user: Seq<char>,
    pub platform: Seq<char>,
    pub capacity: usize,
    pub labels: Seq<Seq<char>>,
    pub active_task_ids: Set<Seq<char>>,
    pub active_tasks: Map<Seq<char>, HelperActiveTaskRecordView>,
    pub registered_at_unix_ms: u64,
    pub last_seen_at: u128,
}

impl View for HelperRecord {
    type V = HelperRecordView;

    open spec fn view(&self) -> HelperRecordView {
        HelperRecordView {
            helper_id: self.helper_id@,
            owner_user: self.owner_user@,
            platform: self.platform@,
            capacity: self.capacity,
            labels: self.labels.deep_view(),
            active_task_ids: self.active_task_ids@,
            active_tasks: self.active_tasks@,
            registered_at_unix_ms: self.registered_at_unix_ms,
            last_seen_at: self.last_seen_at,
        }
    }
}

impl Dup for HelperRecord {
    fn dup(&self) -> (copy: Self) {
        HelperRecord {
            helper_id: self.helper_id.clone(),
            owner_user: self.owner_user.clone(),
            platform: self.platform.clone(),
            capacity: self.capacity,
            labels: self.labels.clone(),
            active_task_ids: self.active_task_ids.dup(),
            active_tasks: self.active_tasks.dup(),
            registered_at_unix_ms: self.registered_at_unix_ms,
            last_seen_at: self.last_seen_at,
        }
    }
}

/// A helper that may claim nothing more, and the drain of the tasks that it held.
pub struct BlockedHelperRecord {
    pub helper_id: String,
    pub reason: Option<String>,
    pub blocked_at_unix_ms: u64,
    pub drain_started_at_unix_ms: u64,
    pub drain_deadline_at_unix_ms: u64,
    pub pending_task_ids: IdSet,
    pub last_reported_task_ids: IdSet,
    pub last_release_requested_at_unix_ms: Option<u64>,
    pub last_seen_at_unix_ms: Option<u64>,
    pub force_released_task_ids: IdSet,
}

/// What a [`BlockedHelperRecord`] stands for.
#[verifier::ext_equal]
pub struct BlockedHelperRecordView {
    pub helper_id: Seq<char>,
    pub reason: Option<Seq<char>>,
    pub blocked_at_unix_ms: u64,
    pub drain_started_at_unix_ms: u64,
    pub drain_deadline_at_unix_ms: u64,
    pub pending_task_ids: Set<Seq<char>>,
    pub last_reported_task_ids: Set<Seq<char>>,
    pub last_release_requested_at_unix_ms: Option<u64>,
    pub last_seen_at_unix_ms: Option<u64>,
    pub force_released_task_ids: Set<Seq<char>>,
}

impl View for BlockedHelperRecord {
    type V = BlockedHelperRecordView;

    open spec fn view(&self) -> BlockedHelperRecordView {
        BlockedHelperRecordView {
            helper_id: self.helper_id@,
            reason: self.reason.deep_view(),
            blocked_at_unix_ms: self.blocked_at_unix_ms,
            drain_started_at_unix_ms: self.drain_started_at_unix_ms,
            drain_deadline_at_unix_ms: self.drain_deadline_at_unix_ms,
            pending_task_ids: self.pending_task_ids@,
            last_reported_task_ids: self.last_reported_task_ids@,
            last_release_requested_at_unix_ms: self.last_release_requested_at_unix_ms,
            last_seen_at_unix_ms: self.last_seen_at_unix_ms,
            force_released_task_ids: self.force_released_task_ids@,
        }
    }
}

impl Dup for BlockedHelperRecord {
    fn dup(&self) -> (copy: Self) {
        BlockedHelperRecord {
            helper_id: self.helper_id.clone(),
            reason: dup_text(&self.reason),
            blocked_at_unix_ms: self.blocked_at_unix_ms,
            drain_started_at_unix_ms: self.drain_started_at_unix_ms,
            drain_deadline_at_unix_ms: self.drain_deadline_at_unix_ms,
            pending_task_ids: self.pending_task_ids.dup(),
            last_reported_task_ids: self.last_reported_task_ids.dup(),
            last_release_requested_at_unix_ms: self.last_release_requested_at_unix_ms,
            last_seen_at_unix_ms: self.last_seen_at_unix_ms,
            force_released_task_ids: self.force_released_task_ids.dup(),
        }
    }
}

/// The base URLs under which the services of a task are reached.
pub struct TaskRoutes {
    pub rojo_base_url: Option<String>,
    pub mcp_base_url: Option<String>,
    pub runtime_log_base_url: Option<String>,
}

/// What a [`TaskRoutes`] stands for.
#[verifier::ext_equal]
pub struct TaskRoutesView {
    pub rojo_base_url: Option<Seq<char>>,
    pub mcp_base_url: Option<Seq<char>>,
    pub runtime_log_base_url: Option<Seq<char>>,
}

impl View for TaskRoutes {
    type V = TaskRoutesView;

    open spec fn view(&self) -> TaskRoutesView {
        TaskRoutesView {
            rojo_base_url: self.rojo_base_url.deep_view(),
            mcp_base_url: self.mcp_base_url.deep_view(),
            runtime_log_base_url: self.runtime_log_base_url.deep_view(),
        }
    }
}

impl Dup for TaskRoutes {
    fn dup(&self) -> (copy: Self) {
        TaskRoutes {
            rojo_base_url: dup_text(&self.rojo_base_url),
            mcp_base_url: dup_text(&self.mcp_base_url),
            runtime_log_base_url: dup_text(&self.runtime_log_base_url),
        }
    }
}

/// A task that was created and what its owner last said of it.
pub struct TaskRecord {
    pub task_id: String,
    pub cluster_key: String,
    pub task_token: String,
    pub recover_token: String,
    pub place_id: String,
    pub universe_id: Option<String>,
    pub owner_user: String,
    pub repo: String,
    pub worktree_name: String,
    pub service_state: String,
    pub accepting_launches: bool,
    pub services: Table<String>,
    pub routes: TaskRoutes,
    pub created_at_unix_ms: u64,
    pub updated_at_unix_ms: u64,
    pub last_task_heartbeat_at_unix_ms: u64,
    pub last_seen_at: u128,
    pub claimed_by_helper_id: Option<String>,
    pub released: bool,
}

/// What a [`TaskRecord`] stands for.
#[verifier::ext_equal]
pub struct TaskRecordView {
    pub task_id: Seq<char>,
    pub cluster_key: Seq<char>,
    pub task_token: Seq<char>,
    pub recover_token: Seq<char>,
    pub place_id: Seq<char>,
    pub universe_id: Option<Seq<char>>,
    pub owner_user: Seq<char>,
    pub repo: Seq<char>,
    pub worktree_name: Seq<char>,
    pub service_state: Seq<char>,
    pub accepting_launches: bool,
    pub services: Map<Seq<char>, Seq<char>>,
    pub routes: TaskRoutesView,
    pub created_at_unix_ms: u64,
    pub updated_at_unix_ms: u64,
    pub last_task_heartbeat_at_unix_ms: u64,
    pub last_seen_at: u128,
    pub claimed_by_helper_id: Option<Seq<char>>,
    pub released: bool,
}

impl View for TaskRecord {
    type V = TaskRecordView;

    open spec fn view(&self) -> TaskRecordView {
        TaskRecordView {
            task_id: self.task_id@,
            cluster_key: self.cluster_key@,
            task_token: self.task_token@,
            recover_token: self.recover_token@,
            place_id: self.place_id@,
            universe_id: self.universe_id.deep_view(),
            owner_user: self.owner_user@,
            repo: self.repo@,
            worktree_name: self.worktree_name@,
            service_state: self.service_state@,
            accepting_launches: self.accepting_launches,
            services: self.services@,
            routes: self.routes@,
            created_at_unix_ms: self.created_at_unix_ms,
            updated_at_unix_ms: self.updated_at_unix_ms,
            last_task_heartbeat_at_unix_ms: self.last_task_heartbeat_at_unix_ms,
            last_seen_at: self.last_seen_at,
            claimed_by_helper_id: self.claimed_by_helper_id.deep_view(),
            released: self.released,
        }
    }
}

impl Dup for TaskRecord {
    fn dup(&self) -> (copy: Self) {
        TaskRecord {
            task_id: self.task_id.clone(),
            cluster_key: self.cluster_key.clone(),
            task_token: self.task_token.clone(),
            recover_token: self.recover_token.clone(),
            place_id: self.place_id.clone(),
            universe_id: dup_text(&self.universe_id),
            owner_user: self.owner_user.clone(),
            repo: self.repo.clone(),
            worktree_name: self.worktree_name.clone(),
            service_state: self.service_state.clone(),
            accepting_launches: self.accepting_launches,
            services: self.services.dup(),
            routes: self.routes.dup(),
            created_at_unix_ms: self.created_at_unix_ms,
            updated_at_unix_ms: self.updated_at_unix_ms,
            last_task_heartbeat_at_unix_ms: self.last_task_heartbeat_at_unix_ms,
            last_seen_at: self.last_seen_at,
            claimed_by_helper_id: dup_text(&self.claimed_by_helper_id),
            released: self.released,
        }
    }
}

/// The state of a hub.
pub struct HubState {
    pub config: HubConfig,
    pub helpers: Table<HelperRecord>,
    pub blocked_helpers: Table<BlockedHelperRecord>,
    pub tasks: Table<TaskRecord>,
    pub state_revision: u64,
}

/// What a [`HubState`] stands for.
#[verifier::ext_equal]
pub struct HubStateView {
    pub config: HubConfigView,
    pub helpers: Map<Seq<char>, HelperRecordView>,
    pub blocked_helpers: Map<Seq<char>, BlockedHelperRecordView>,
    pub tasks: Map<Seq<char>, TaskRecordView>,
    pub state_revision: u64,
}

impl View for HubState {
    type V = HubStateView;

    open spec fn view(&self) -> HubStateView {
        HubStateView {
            config: self.config@,
            helpers: self.helpers@,
            blocked_helpers: self.blocked_helpers@,
            tasks: self.tasks@,
            state_revision: self.state_revision,
        }
    }
}

/// A blocked helper as it is written to disk; a zero drain time was not recorded.
pub struct PersistedBlockedHelperRecord {
    pub helper_id: String,
    pub reason: Option<String>,
    pub blocked_at_unix_ms: u64,
    pub drain_started_at_unix_ms: u64,
    pub drain_deadline_at_unix_ms: u64,
    pub pending_task_ids: Vec<String>,
    pub last_reported_task_ids: Vec<String>,
    pub last_release_requested_at_unix_ms: Option<u64>,
    pub last_seen_at_unix_ms: Option<u64>,
    pub force_released_task_ids: Vec<String>,
}

/// What a [`PersistedBlockedHelperRecord`] stands for.
#[verifier::ext_equal]
pub struct PersistedBlockedHelperRecordView {
    pub helper_id: Seq<char>,
    pub reason: Option<Seq<char>>,
    pub blocked_at_unix_ms: u64,
    pub drain_started_at_unix_ms: u64,
    pub drain_deadline_at_unix_ms: u64,
    pub pending_task_ids: Seq<Seq<char>>,
    pub last_reported_task_ids: Seq<Seq<char>>,
    pub last_release_requested_at_unix_ms: Option<u64>,
    pub last_seen_at_unix_ms: Option<u64>,
    pub force_released_task_ids: Seq<Seq<char>>,
}

impl View for PersistedBlockedHelperRecord {
    type V = PersistedBlockedHelperRecordView;

    open spec fn view(&self) -> PersistedBlockedHelperRecordView {
        PersistedBlockedHelperRecordView {
            helper_id: self.helper_id@,
            reason: self.reason.deep_view(),
            blocked_at_unix_ms: self.blocked_at_unix_ms,
            drain_started_at_unix_ms: self.drain_started_at_unix_ms,
            drain_deadline_at_unix_ms: self.drain_deadline_at_unix_ms,
            pending_task_ids: self.pending_task_ids.deep_view(),
            last_reported_task_ids: self.last_reported_task_ids.deep_view(),
            last_release_requested_at_unix_ms: self.last_release_requested_at_unix_ms,
            last_seen_at_unix_ms: self.last_seen_at_unix_ms,
            force_released_task_ids: self.force_released_task_ids.deep_view(),
        }
    }
}

/// A task as it is written to disk; a zero heartbeat time was not recorded.
pub struct PersistedTaskRecord {
    pub task_id: String,
    pub cluster_key: String,
    pub task_token: String,
    pub recover_token: String,
    pub place_id: String,
    pub universe_id: Option<String>,
    pub owner_user: String,
    pub repo: String,
    pub worktree_name: String,
    pub service_state: String,
    pub accepting_launches: bool,
    pub services: Table<String>,
    pub routes: TaskRoutes,
    pub created_at_unix_ms: u64,
    pub updated_at_unix_ms: u64,
    pub last_task_heartbeat_at_unix_ms: u64,
    pub claimed_by_helper_id: Option<String>,
    pub released: bool,
}

/// What a [`PersistedTaskRecord`] stands for.
#[verifier::ext_equal]
pub struct PersistedTaskRecordView {
    pub task_id: Seq<char>,
    pub cluster_key: Seq<char>,
    pub task_token: Seq<char>,
    pub recover_token: Seq<char>,
    pub place_id: Seq<char>,
    pub universe_id: Option<Seq<char>>,
    pub owner_user: Seq<char>,
    pub repo: Seq<char>,
    pub worktree_name: Seq<char>,
    pub service_state: Seq<char>,
    pub accepting_launches: bool,
    pub services: Map<Seq<char>, Seq<char>>,
    pub routes: TaskRoutesView,
    pub created_at_unix_ms: u64,
    pub updated_at_unix_ms: u64,
    pub last_task_heartbeat_at_unix_ms: u64,
    pub claimed_by_helper_id: Option<Seq<char>>,
    pub released: bool,
}

impl View for PersistedTaskRecord {
    type V = PersistedTaskRecordView;

    open spec fn view(&self) -> PersistedTaskRecordView {
        PersistedTaskRecordView {
            task_id: self.task_id@,
            cluster_key: self.cluster_key@,
            task_token: self.task_token@,
            recover_token: self.recover_token@,
            place_id: self.place_id@,
            universe_id: self.universe_id.deep_view(),
            owner_user: self.owner_user@,
            repo: self.repo@,
            worktree_name: self.worktree_name@,
            service_state: self.service_state@,
            accepting_launches: self.accepting_launches,
            services: self.services@,
            routes: self.routes@,
            created_at_unix_ms: self.created_at_unix_ms,
            updated_at_unix_ms: self.updated_at_unix_ms,
            last_task_heartbeat_at_unix_ms: self.last_task_heartbeat_at_unix_ms,
            claimed_by_helper_id: self.claimed_by_helper_id.deep_view(),
            released: self.released,
        }
    }
}

/// What is written to disk of a hub.
pub struct PersistedHubState {
    pub tasks: Vec<PersistedTaskRecord>,
    pub blocked_helpers: Vec<PersistedBlockedHelperRecord>,
}

/// What a [`PersistedHubState`] stands for.
#[verifier::ext_equal]
pub struct PersistedHubStateView {
    pub tasks: Seq<PersistedTaskRecordView>,
    pub blocked_helpers: Seq<PersistedBlockedHelperRecordView>,
}

impl View for PersistedHubState {
    type V = PersistedHubStateView;

    open spec fn view(&self) -> PersistedHubStateView {
        PersistedHubStateView {
            tasks: crate::table::views(self.tasks@),
            blocked_helpers: crate::table::views(self.blocked_helpers@),
        }
    }
}

/// The state to write to disk, with the revision it was taken at.
pub struct PersistSnapshot {
    pub revision: u64,
    pub payload: PersistedHubState,
}

/// What a [`PersistSnapshot`] stands for.
#[verifier::ext_equal]
pub struct PersistSnapshotView {
    pub revision: u64,
    pub payload: PersistedHubStateView,
}

impl View for PersistSnapshot {
    type V = PersistSnapshotView;

    open spec fn view(&self) -> PersistSnapshotView {
        PersistSnapshotView {
            revision: self.revision,
            payload: self.payload@,
        }
    }
}

/// Each record stands under its own identifier.
pub open spec fn hub_wf(s: HubStateView) -> bool {
    &&& forall|k: Seq<char>| #[trigger] s.tasks.contains_key(k) ==> s.tasks[k].task_id == k
    &&& forall|k: Seq<char>| #[trigger]
        s.helpers.contains_key(k) ==> s.helpers[k].helper_id == k && helper_wf(s.helpers[k])
    &&& forall|k: Seq<char>| #[trigger]
        s.blocked_helpers.contains_key(k) ==> s.blocked_helpers[k].helper_id == k
}

/// The report on each task stands under the identifier of the task.
pub open spec fn helper_wf(h: HelperRecordView) -> bool {
    forall|k: Seq<char>| #[trigger] h.active_tasks.contains_key(k) ==> h.active_tasks[k].task_id == k
}

impl HubState {
    /// Each record of the state stands under its own identifier.
    pub open spec fn wf(&self) -> bool {
        hub_wf(self@)
    }

    /// A hub without helpers and tasks.
    pub fn new(config: HubConfig) -> (state: Self)
        ensures
            state.wf(),
            state@ == (HubStateView {
                config: config@,
                helpers: Map::empty(),
                blocked_helpers: Map::empty(),
                tasks: Map::empty(),
                state_revision: 0,
            }),
    {
        HubState {
            config,
            helpers: Table::new(),
            blocked_helpers: Table::new(),
            tasks: Table::new(),
            state_revision: 0,
        }
    }
}

/// No routes.
pub open spec fn no_routes() -> TaskRoutesView {
    TaskRoutesView { rojo_base_url: None, mcp_base_url: None, runtime_log_base_url: None }
}

impl Default for TaskRoutes {
    fn default() -> (routes: Self)
        ensures
            routes@ == no_routes(),
    {
        TaskRoutes { rojo_base_url: None, mcp_base_url: None, runtime_log_base_url: None }
    }
}

impl TaskRoutes {
    /// Whether no route is set.
    pub fn is_unset(&self) -> (unset: bool)
        ensures
            unset == (self@ == no_routes()),
    {
        self.rojo_base_url.is_none() && self.mcp_base_url.is_none()
            && self.runtime_log_base_url.is_none()
    }
}

} // verus!
