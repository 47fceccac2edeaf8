//! The records of a helper: plugins, claimed tasks, processes and connections.
use vstd::prelude::*;

use crate::table::{dup_all, dup_text, Dup, IdSet, Table};

verus! {

/// How far a connection to a remote server has come.
#[derive(Clone, Copy, PartialEq, Eq, Structural)]
pub enum RemoteConnectionState {
    Connecting,
    Connected,
    Retrying,
    Error,
}

/// A command for a plugin: its identifier and its arguments where they were given, and the JSON text
/// that the plugin receives. An argument is a tool name with the JSON text of its payload.
pub struct PluginCommand {
    pub id: Option<String>,
    pub args: Option<Vec<CommandArg>>,
    pub text: String,
}

/// What a [`PluginCommand`] stands for.
#[verifier::ext_equal]
pub struct PluginCommandView {
    pub id: Option<Seq<char>>,
    pub args: Option<Seq<CommandArgView>>,
    pub text: Seq<char>,
}

impl View for PluginCommand {
    type V = PluginCommandView;

    open spec fn view(&self) -> PluginCommandView {
        PluginCommandView {
            id: self.id.deep_view(),
            args: opt_args(self.args),
            text: self.text@,
        }
    }
}

impl Dup for PluginCommand {
    fn dup(&self) -> (copy: Self) {
        PluginCommand {
            id: dup_text(&self.id),
            args: match &self.args {
                Some(args) => Some(dup_all(args)),
                None => None,
            },
            text: self.text.clone(),
        }
    }
}

/// One entry of the arguments of a command.
pub struct CommandArg {
    pub name: String,
    pub payload: String,
}

/// What a [`CommandArg`] stands for.
#[verifier::ext_equal]
pub struct CommandArgView {
    pub name: Seq<char>,
    pub payload: Seq<char>,
}

impl View for CommandArg {
    type V = CommandArgView;

    open spec fn view(&self) -> CommandArgView {
        CommandArgView {
            name: self.name@,
            payload: self.payload@,
        }
    }
}

impl Dup for CommandArg {
    fn dup(&self) -> (copy: Self) {
        CommandArg {
            name: self.name.clone(),
            payload: self.payload.clone(),
        }
    }
}

/// A plugin that runs in some Studio, with all that is known of the session there.
pub struct PluginInstance {
    pub place_id: String,
    pub task_id: Option<String>,
    pub remote_base_url: String,
    pub studio_pid: Option<u32>,
    pub studio_mode: Option<String>,
    pub studio_mode_observed_at: Option<u128>,
    pub studio_mode_source: String,
    pub studio_control_state: String,
    pub studio_transition_phase: String,
    pub studio_transition_started_at: Option<u128>,
    pub studio_control_observed_at: Option<u128>,
    pub edit_runtime_observed_at: Option<u128>,
    pub edit_runtime_unavailable_reason: Option<String>,
    pub studio_control_last_error: Option<String>,
    pub stop_request_id: u64,
    pub stop_request_recorded_at: Option<u128>,
    pub stop_request_last_polled_at: Option<u128>,
    pub stop_request_last_poll_id: Option<u64>,
    pub stop_result_phase: Option<String>,
    pub stop_result_error: Option<String>,
    pub stop_result_observed_at: Option<u128>,
    pub last_seen_at: u128,
    pub queue: Vec<PluginCommand>,
}

/// What a [`PluginInstance`] stands for.
#[verifier::ext_equal]
pub struct PluginInstanceView {
    pub place_id: Seq<char>,
    pub task_id: Option<Seq<char>>,
    pub remote_base_url: Seq<char>,
    pub studio_pid: Option<u32>,
    pub studio_mode: Option<Seq<char>>,
    pub studio_mode_observed_at: Option<u128>,
    pub studio_mode_source: Seq<char>,
    pub studio_control_state: Seq<char>,
    pub studio_transition_phase: Seq<char>,
    pub studio_transition_started_at: Option<u128>,
    pub studio_control_observed_at: Option<u128>,
    pub edit_runtime_observed_at: Option<u128>,
    pub edit_runtime_unavailable_reason: Option<Seq<char>>,
    pub studio_control_last_error: Option<Seq<char>>,
    pub stop_request_id: u64,
    pub stop_request_recorded_at: Option<u128>,
    pub stop_request_last_polled_at: Option<u128>,
    pub stop_request_last_poll_id: Option<u64>,
    pub stop_result_phase: Option<Seq<char>>,
    pub stop_result_error: Option<Seq<char>>,
    pub stop_result_observed_at: Option<u128>,
    pub last_seen_at: u128,
    pub queue: Seq<PluginCommandView>,
}

impl View for PluginInstance {
    type V = PluginInstanceView;

    open spec fn view(&self) -> PluginInstanceView {
        PluginInstanceView {
            place_id: self.place_id@,
            task_id: self.task_id.deep_view(),
            remote_base_url: self.remote_base_url@,
            studio_pid: self.studio_pid,
            studio_mode: self.studio_mode.deep_view(),
            studio_mode_observed_at: self.studio_mode_observed_at,
            studio_mode_source: self.studio_mode_source@,
            studio_control_state: self.studio_control_state@,
            studio_transition_phase: self.studio_transition_phase@,
            studio_transition_started_at: self.studio_transition_started_at,
            studio_control_observed_at: self.studio_control_observed_at,
            edit_runtime_observed_at: self.edit_runtime_observed_at,
            edit_runtime_unavailable_reason: self.edit_runtime_unavailable_reason.deep_view(),
            studio_control_last_error: self.studio_control_last_error.deep_view(),
            stop_request_id: self.stop_request_id,
            stop_request_recorded_at: self.stop_request_recorded_at,
            stop_request_last_polled_at: self.stop_request_last_polled_at,
            stop_request_last_poll_id: self.stop_request_last_poll_id,
            stop_result_phase: self.stop_result_phase.deep_view(),
            stop_result_error: self.stop_result_error.deep_view(),
            stop_result_observed_at: self.stop_result_observed_at,
            last_seen_at: self.last_seen_at,
            queue: crate::table::views(self.queue@),
        }
    }
}

/// A request to a plugin that waits for its answer.
pub struct PendingPluginResponse {
    pub instance_id: String,
    pub tool_name: String,
}

/// What a [`PendingPluginResponse`] stands for.
#[verifier::ext_equal]
pub struct PendingPluginResponseView {
    pub instance_id: Seq<char>,
    pub tool_name: Seq<char>,
}

impl View for PendingPluginResponse {
    type V = PendingPluginResponseView;

    open spec fn view(&self) -> PendingPluginResponseView {
        PendingPluginResponseView {
            instance_id: self.instance_id@,
            tool_name: self.tool_name@,
        }
    }
}

/// How the forwarding of the runtime logs of a task goes.
pub struct RuntimeLogForwardStatusRecord {
    pub queued_count: u64,
    pub accepted_count: u64,
    pub forwarded_count: u64,
    pub failed_count: u64,
    pub last_accepted_at: Option<u128>,
    pub last_forwarded_at: Option<u128>,
    pub last_attempt_at: Option<u128>,
    pub last_target_path: Option<String>,
    pub last_http_status: Option<u16>,
    pub last_error: Option<String>,
    pub last_error_at: Option<u128>,
}

/// What a [`RuntimeLogForwardStatusRecord`] stands for.
#[verifier::ext_equal]
pub struct RuntimeLogForwardStatusRecordView {
    pub queued_count: u64,
    pub accepted_count: u64,
    pub forwarded_count: u64,
    pub failed_count: u64,
    pub last_accepted_at: Option<u128>,
    pub last_forwarded_at: Option<u128>,
    pub last_attempt_at: Option<u128>,
    pub last_target_path: Option<Seq<char>>,
    pub last_http_status: Option<u16>,
    pub last_error: Option<Seq<char>>,
    pub last_error_at: Option<u128>,
}

impl View for RuntimeLogForwardStatusRecord {
    type V = RuntimeLogForwardStatusRecordView;

    open spec fn view(&self) -> RuntimeLogForwardStatusRecordView {
        RuntimeLogForwardStatusRecordView {
            queued_count: self.queued_count,
            accepted_count: self.accepted_count,
            forwarded_count: self.forwarded_count,
            failed_count: self.failed_count,
            last_accepted_at: self.last_accepted_at,
            last_forwarded_at: self.last_forwarded_at,
            last_attempt_at: self.last_attempt_at,
            last_target_path: self.last_target_path.deep_view(),
            last_http_status: self.last_http_status,
            last_error: self.last_error.deep_view(),
            last_error_at: self.last_error_at,
        }
    }
}

impl Dup for RuntimeLogForwardStatusRecord {
    fn dup(&self) -> (copy: Self) {
        RuntimeLogForwardStatusRecord {
            queued_count: self.queued_count,
            accepted_count: self.accepted_count,
            forwarded_count: self.forwarded_count,
            failed_count: self.failed_count,
            last_accepted_at: self.last_accepted_at,
            last_forwarded_at: self.last_forwarded_at,
            last_attempt_at: self.last_attempt_at,
            last_target_path: dup_text(&self.last_target_path),
            last_http_status: self.last_http_status,
            last_error: dup_text(&self.last_error),
            last_error_at: self.last_error_at,
        }
    }
}

/// The last known state of the adapter to the official tools.
pub struct OfficialAdapterStateRecord {
    pub state: String,
    pub last_error: Option<String>,
    pub observed_at: u128,
}

/// What a [`OfficialAdapterStateRecord`] stands for.
#[verifier::ext_equal]
pub struct OfficialAdapterStateRecordView {
    pub state: Seq<char>,
    pub last_error: Option<Seq<char>>,
    pub observed_at: u128,
}

impl View for OfficialAdapterStateRecord {
    type V = OfficialAdapterStateRecordView;

    open spec fn view(&self) -> OfficialAdapterStateRecordView {
        OfficialAdapterStateRecordView {
            state: self.state@,
            last_error: self.last_error.deep_view(),
            observed_at: self.observed_at,
        }
    }
}

/// A task that the hub gave to this helper.
pub struct ClaimedTask {
    pub task_id: String,
    pub place_id: String,
    pub universe_id: Option<String>,
    pub mcp_base_url: String,
    pub rojo_base_url: Option<String>,
    pub runtime_log_base_url: Option<String>,
    pub claimed_at: u128,
}

/// What a [`ClaimedTask`] stands for.
#[verifier::ext_equal]
pub struct ClaimedTaskView {
    pub task_id: Seq<char>,
    pub place_id: Seq<char>,
    pub universe_id: Option<Seq<char>>,
    pub mcp_base_url: Seq<char>,
    pub rojo_base_url: Option<Seq<char>>,
    pub runtime_log_base_url: Option<Seq<char>>,
    pub claimed_at: u128,
}

impl View for ClaimedTask {
    type V = ClaimedTaskView;

    open spec fn view(&self) -> ClaimedTaskView {
        ClaimedTaskView {
            task_id: self.task_id@,
            place_id: self.place_id@,
            universe_id: self.universe_id.deep_view(),
            mcp_base_url: self.mcp_base_url@,
            rojo_base_url: self.rojo_base_url.deep_view(),
            runtime_log_base_url: self.runtime_log_base_url.deep_view(),
            claimed_at: self.claimed_at,
        }
    }
}

impl Dup for ClaimedTask {
    fn dup(&self) -> (copy: Self) {
        ClaimedTask {
            task_id: self.task_id.clone(),
            place_id: self.place_id.clone(),
            universe_id: dup_text(&self.universe_id),
            mcp_base_url: self.mcp_base_url.clone(),
            rojo_base_url: dup_text(&self.rojo_base_url),
            runtime_log_base_url: dup_text(&self.runtime_log_base_url),
            claimed_at: self.claimed_at,
        }
    }
}

/// A Studio process that serves a task; `has_child` says that the helper holds the process.
pub struct LaunchProcessRecord {
    pub task_id: String,
    pub place_id: String,
    pub universe_id: Option<String>,
    pub studio_pid: u32,
    pub launched_by_helper: bool,
    pub has_child: bool,
}

/// What a [`LaunchProcessRecord`] stands for.
#[verifier::ext_equal]
pub struct LaunchProcessRecordView {
    pub task_id: Seq<char>,
    pub place_id: Seq<char>,
    pub universe_id: Option<Seq<char>>,
    pub studio_pid: u32,
    pub launched_by_helper: bool,
    pub has_child: bool,
}

impl View for LaunchProcessRecord {
    type V = LaunchProcessRecordView;

    open spec fn view(&self) -> LaunchProcessRecordView {
        LaunchProcessRecordView {
            task_id: self.task_id@,
            place_id: self.place_id@,
            universe_id: self.universe_id.deep_view(),
            studio_pid: self.studio_pid,
            launched_by_helper: self.launched_by_helper,
            has_child: self.has_child,
        }
    }
}

impl Dup for LaunchProcessRecord {
    fn dup(&self) -> (copy: Self) {
        LaunchProcessRecord {
            task_id: self.task_id.clone(),
            place_id: self.place_id.clone(),
            universe_id: dup_text(&self.universe_id),
            studio_pid: self.studio_pid,
            launched_by_helper: self.launched_by_helper,
            has_child: self.has_child,
        }
    }
}

/// A Studio process that is to be ended.
pub struct PendingLaunchTermination {
    pub task_id: String,
    pub studio_pid: u32,
}

/// What a [`PendingLaunchTermination`] stands for.
#[verifier::ext_equal]
pub struct PendingLaunchTerminationView {
    pub task_id: Seq<char>,
    pub studio_pid: u32,
}

impl View for PendingLaunchTermination {
    type V = PendingLaunchTerminationView;

    open spec fn view(&self) -> PendingLaunchTerminationView {
        PendingLaunchTerminationView {
            task_id: self.task_id@,
            studio_pid: self.studio_pid,
        }
    }
}

impl Dup for PendingLaunchTermination {
    fn dup(&self) -> (copy: Self) {
        PendingLaunchTermination {
            task_id: self.task_id.clone(),
            studio_pid: self.studio_pid,
        }
    }
}

/// A remote server that is to be connected to.
pub struct RemoteTarget {
    pub connection_key: String,
    pub place_id: String,
    pub task_id: Option<String>,
    pub remote_base_url: String,
}

/// What a [`RemoteTarget`] stands for.
#[verifier::ext_equal]
pub struct RemoteTargetView {
    pub connection_key: Seq<char>,
    pub place_id: Seq<char>,
    pub task_id: Option<Seq<char>>,
    pub remote_base_url: Seq<char>,
}

impl View for RemoteTarget {
    type V = RemoteTargetView;

    open spec fn view(&self) -> RemoteTargetView {
        RemoteTargetView {
            connection_key: self.connection_key@,
            place_id: self.place_id@,
            task_id: self.task_id.deep_view(),
            remote_base_url: self.remote_base_url@,
        }
    }
}

impl Dup for RemoteTarget {
    fn dup(&self) -> (copy: Self) {
        RemoteTarget {
            connection_key: self.connection_key.clone(),
            place_id: self.place_id.clone(),
            task_id: dup_text(&self.task_id),
            remote_base_url: self.remote_base_url.clone(),
        }
    }
}

/// A connection to a remote server, and the worker that runs it.
pub struct RemoteConnectionHandle {
    pub worker_id: String,
    pub remote_base_url: String,
    pub place_id: String,
    pub task_id: Option<String>,
    pub connection_state: RemoteConnectionState,
    pub state_changed_at: u128,
    pub retrying_since: Option<u128>,
    pub consecutive_failures: u32,
    pub connection_id: Option<String>,
    pub last_ready_at: Option<u128>,
    pub last_server_message_at: Option<u128>,
}

/// What a [`RemoteConnectionHandle`] stands for.
#[verifier::ext_equal]
pub struct RemoteConnectionHandleView {
    pub worker_id: Seq<char>,
    pub remote_base_url: Seq<char>,
    pub place_id: Seq<char>,
    pub task_id: Option<Seq<char>>,
    pub connection_state: RemoteConnectionState,
    pub state_changed_at: u128,
    pub retrying_since: Option<u128>,
    pub consecutive_failures: u32,
    pub connection_id: Option<Seq<char>>,
    pub last_ready_at: Option<u128>,
    pub last_server_message_at: Option<u128>,
}

impl View for RemoteConnectionHandle {
    type V = RemoteConnectionHandleView;

    open spec fn view(&self) -> RemoteConnectionHandleView {
        RemoteConnectionHandleView {
            worker_id: self.worker_id@,
            remote_base_url: self.remote_base_url@,
            place_id: self.place_id@,
            task_id: self.task_id.deep_view(),
            connection_state: self.connection_state,
            state_changed_at: self.state_changed_at,
            retrying_since: self.retrying_since,
            consecutive_failures: self.consecutive_failures,
            connection_id: self.connection_id.deep_view(),
            last_ready_at: self.last_ready_at,
            last_server_message_at: self.last_server_message_at,
        }
    }
}

/// The state of a helper.
pub struct HelperState {
    pub instances: Table<PluginInstance>,
    pub claimed_tasks: Table<ClaimedTask>,
    pub launch_processes: Table<LaunchProcessRecord>,
    pub waiting_for_plugin: Table<PendingPluginResponse>,
    pub remote_connections: Table<RemoteConnectionHandle>,
    /// The keys of the connections that were dropped or replaced and whose worker is still to be told
    /// to stop.
    pub stop_signals: IdSet,
    pub official_adapters: IdSet,
    pub official_adapter_states: Table<OfficialAdapterStateRecord>,
    pub runtime_log_forward_statuses: Table<RuntimeLogForwardStatusRecord>,
    pub last_remote_errors: Table<String>,
    pub hub_last_error: Option<String>,
    pub hub_last_claim_error: Option<String>,
    pub hub_last_ready_at: Option<u128>,
}

/// What a [`HelperState`] stands for.
#[verifier::ext_equal]
pub struct HelperStateView {
    pub instances: Map<Seq<char>, PluginInstanceView>,
    pub claimed_tasks: Map<Seq<char>, ClaimedTaskView>,
    pub launch_processes: Map<Seq<char>, LaunchProcessRecordView>,
    pub waiting_for_plugin: Map<Seq<char>, PendingPluginResponseView>,
    pub remote_connections: Map<Seq<char>, RemoteConnectionHandleView>,
    pub stop_signals: Set<Seq<char>>,
    pub official_adapters: Set<Seq<char>>,
    pub official_adapter_states: Map<Seq<char>, OfficialAdapterStateRecordView>,
    pub runtime_log_forward_statuses: Map<Seq<char>, RuntimeLogForwardStatusRecordView>,
    pub last_remote_errors: Map<Seq<char>, Seq<char>>,
    pub hub_last_error: Option<Seq<char>>,
    pub hub_last_claim_error: Option<Seq<char>>,
    pub hub_last_ready_at: Option<u128>,
}

impl View for HelperState {
    type V = HelperStateView;

    open spec fn view(&self) -> HelperStateView {
        HelperStateView {
            instances: self.instances@,
            claimed_tasks: self.claimed_tasks@,
            launch_processes: self.launch_processes@,
            waiting_for_plugin: self.waiting_for_plugin@,
            remote_connections: self.remote_connections@,
            stop_signals: self.stop_signals@,
            official_adapters: self.official_adapters@,
            official_adapter_states: self.official_adapter_states@,
            runtime_log_forward_statuses: self.runtime_log_forward_statuses@,
            last_remote_errors: self.last_remote_errors@,
            hub_last_error: self.hub_last_error.deep_view(),
            hub_last_claim_error: self.hub_last_claim_error.deep_view(),
            hub_last_ready_at: self.hub_last_ready_at,
        }
    }
}

/// What the arguments of a command stand for.
pub open spec fn opt_args(args: Option<Vec<CommandArg>>) -> Option<Seq<CommandArgView>> {
    match args {
        Some(list) => Some(crate::table::views(list@)),
        None => None,
    }
}

impl HelperState {
    /// A helper that has just started.
    pub fn new() -> (state: Self)
        ensures
            state@ == (HelperStateView {
                instances: Map::empty(),
                claimed_tasks: Map::empty(),
                launch_processes: Map::empty(),
                waiting_for_plugin: Map::empty(),
                remote_connections: Map::empty(),
                stop_signals: Set::empty(),
                official_adapters: Set::empty(),
                official_adapter_states: Map::empty(),
                runtime_log_forward_statuses: Map::empty(),
                last_remote_errors: Map::empty(),
                hub_last_error: None,
                hub_last_claim_error: None,
                hub_last_ready_at: None,
            }),
    {
        HelperState {
            instances: Table::new(),
            claimed_tasks: Table::new(),
            launch_processes: Table::new(),
            waiting_for_plugin: Table::new(),
            remote_connections: Table::new(),
            stop_signals: IdSet::new(),
            official_adapters: IdSet::new(),
            official_adapter_states: Table::new(),
            runtime_log_forward_statuses: Table::new(),
            last_remote_errors: Table::new(),
            hub_last_error: None,
            hub_last_claim_error: None,
            hub_last_ready_at: None,
        }
    }
}

/// The status of a task whose logs were never forwarded.
pub open spec fn no_forwards() -> RuntimeLogForwardStatusRecordView {
    RuntimeLogForwardStatusRecordView {
        queued_count: 0,
        accepted_count: 0,
        forwarded_count: 0,
        failed_count: 0,
        last_accepted_at: None,
        last_forwarded_at: None,
        last_attempt_at: None,
        last_target_path: None,
        last_http_status: None,
        last_error: None,
        last_error_at: None,
    }
}

impl Default for RuntimeLogForwardStatusRecord {
    fn default() -> (record: Self)
        ensures
            record@ == no_forwards(),
    {
        RuntimeLogForwardStatusRecord {
            queued_count: 0,
            accepted_count: 0,
            forwarded_count: 0,
            failed_count: 0,
            last_accepted_at: None,
            last_forwarded_at: None,
            last_attempt_at: None,
            last_target_path: None,
            last_http_status: None,
            last_error: None,
            last_error_at: None,
        }
    }
}

} // verus!
