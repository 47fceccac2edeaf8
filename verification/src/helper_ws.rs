//! The messages between a helper and a remote server.
use vstd::prelude::*;

use crate::helper::records::PluginCommand;
use crate::table::{dup_text, Dup};

verus! {

use crate::helper::records::PluginCommandView;

/// The path of the helper's web socket.
pub const HELPER_WS_PATH: &'static str = "/ws/helper";

/// The capability to serve requests to the official tools.
pub const OFFICIAL_MCP_ADAPTER_CAPABILITY: &'static str = "official_mcp_adapter_v1";

/// The capability to store images that come as base64.
pub const OFFICIAL_MCP_STORE_IMAGE_BASE64_CAPABILITY: &'static str =
    "official_mcp_store_image_base64_v1";

/// How long the message with a piece of an upload may be.
pub const MAX_ARTIFACT_CHUNK_MESSAGE_BYTES: usize = 500 * 1024;

/// How many bytes a piece of an upload may hold.
pub const MAX_ARTIFACT_CHUNK_PAYLOAD_BYTES: usize = 360 * 1024;

/// How a helper introduces itself on a connection.
pub struct HelperHello {
    pub helper_id: String,
    pub place_id: String,
    pub task_id: Option<String>,
    pub helper_version: String,
    pub capabilities: Vec<String>,
    pub plugin_instance_count: usize,
    pub task_status: Option<HelperTaskStatusSnapshot>,
}

/// What a [`HelperHello`] stands for.
#[verifier::ext_equal]
pub struct HelperHelloView {
    pub helper_id: Seq<char>,
    pub place_id: Seq<char>,
    pub task_id: Option<Seq<char>>,
    pub helper_version: Seq<char>,
    pub capabilities: Seq<Seq<char>>,
    pub plugin_instance_count: usize,
    pub task_status: Option<HelperTaskStatusSnapshotView>,
}

impl View for HelperHello {
    type V = HelperHelloView;

    open spec fn view(&self) -> HelperHelloView {
        HelperHelloView {
            helper_id: self.helper_id@,
            place_id: self.place_id@,
            task_id: self.task_id.deep_view(),
            helper_version: self.helper_version@,
            capabilities: self.capabilities.deep_view(),
            plugin_instance_count: self.plugin_instance_count,
            task_status: crate::table::opt_view(self.task_status),
        }
    }
}

/// What a helper tells of the session of its task.
pub struct HelperTaskStatusSnapshot {
    pub task_id: String,
    pub studio_session_state: Option<String>,
    pub last_known_session_state: Option<String>,
    pub last_session_error_reason: Option<String>,
    pub studio_mode: Option<String>,
    pub studio_mode_age_ms: Option<u64>,
    pub studio_mode_source: Option<String>,
    pub studio_control_state: Option<String>,
    pub studio_transition_phase: Option<String>,
    pub studio_transition_age_ms: Option<u64>,
    pub edit_runtime_state: Option<String>,
    pub edit_runtime_age_ms: Option<u64>,
    pub studio_control_last_error: Option<String>,
    pub active_stop_request_id: Option<u64>,
    pub last_stop_request_id: Option<u64>,
    pub stop_request_recorded_age_ms: Option<u64>,
    pub runtime_actuator_last_poll_id: Option<u64>,
    pub runtime_actuator_last_poll_age_ms: Option<u64>,
    pub stop_result_phase: Option<String>,
    pub stop_result_age_ms: Option<u64>,
    pub stop_result_error: Option<String>,
    pub official_mcp_adapter_state: Option<String>,
    pub official_mcp_adapter_age_ms: Option<u64>,
    pub official_mcp_adapter_last_error: Option<String>,
    pub runtime_log_forward: Option<RuntimeLogForwardStatusSnapshot>,
}

/// What a [`HelperTaskStatusSnapshot`] stands for.
#[verifier::ext_equal]
pub struct HelperTaskStatusSnapshotView {
    pub task_id: Seq<char>,
    pub studio_session_state: Option<Seq<char>>,
    pub last_known_session_state: Option<Seq<char>>,
    pub last_session_error_reason: Option<Seq<char>>,
    pub studio_mode: Option<Seq<char>>,
    pub studio_mode_age_ms: Option<u64>,
    pub studio_mode_source: Option<Seq<char>>,
    pub studio_control_state: Option<Seq<char>>,
    pub studio_transition_phase: Option<Seq<char>>,
    pub studio_transition_age_ms: Option<u64>,
    pub edit_runtime_state: Option<Seq<char>>,
    pub edit_runtime_age_ms: Option<u64>,
    pub studio_control_last_error: Option<Seq<char>>,
    pub active_stop_request_id: Option<u64>,
    pub last_stop_request_id: Option<u64>,
    pub stop_request_recorded_age_ms: Option<u64>,
    pub runtime_actuator_last_poll_id: Option<u64>,
    pub runtime_actuator_last_poll_age_ms: Option<u64>,
    pub stop_result_phase: Option<Seq<char>>,
    pub stop_result_age_ms: Option<u64>,
    pub stop_result_error: Option<Seq<char>>,
    pub official_mcp_adapter_state: Option<Seq<char>>,
    pub official_mcp_adapter_age_ms: Option<u64>,
    pub official_mcp_adapter_last_error: Option<Seq<char>>,
    pub runtime_log_forward: Option<RuntimeLogForwardStatusSnapshotView>,
}

impl View for HelperTaskStatusSnapshot {
    type V = HelperTaskStatusSnapshotView;

    open spec fn view(&self) -> HelperTaskStatusSnapshotView {
        HelperTaskStatusSnapshotView {
            task_id: self.task_id@,
            studio_session_state: self.studio_session_state.deep_view(),
            last_known_session_state: self.last_known_session_state.deep_view(),
            last_session_error_reason: self.last_session_error_reason.deep_view(),
            studio_mode: self.studio_mode.deep_view(),
            studio_mode_age_ms: self.studio_mode_age_ms,
            studio_mode_source: self.studio_mode_source.deep_view(),
            studio_control_state: self.studio_control_state.deep_view(),
            studio_transition_phase: self.studio_transition_phase.deep_view(),
            studio_transition_age_ms: self.studio_transition_age_ms,
            edit_runtime_state: self.edit_runtime_state.deep_view(),
            edit_runtime_age_ms: self.edit_runtime_age_ms,
            studio_control_last_error: self.studio_control_last_error.deep_view(),
            active_stop_request_id: self.active_stop_request_id,
            last_stop_request_id: self.last_stop_request_id,
            stop_request_recorded_age_ms: self.stop_request_recorded_age_ms,
            runtime_actuator_last_poll_id: self.runtime_actuator_last_poll_id,
            runtime_actuator_last_poll_age_ms: self.runtime_actuator_last_poll_age_ms,
            stop_result_phase: self.stop_result_phase.deep_view(),
            stop_result_age_ms: self.stop_result_age_ms,
            stop_result_error: self.stop_result_error.deep_view(),
            official_mcp_adapter_state: self.official_mcp_adapter_state.deep_view(),
            official_mcp_adapter_age_ms: self.official_mcp_adapter_age_ms,
            official_mcp_adapter_last_error: self.official_mcp_adapter_last_error.deep_view(),
            runtime_log_forward: crate::table::opt_view(self.runtime_log_forward),
        }
    }
}

/// How the forwarding of the runtime logs of a task goes, as it is told.
pub struct RuntimeLogForwardStatusSnapshot {
    pub state: String,
    pub queued_count: u64,
    pub accepted_count: u64,
    pub forwarded_count: u64,
    pub failed_count: u64,
    pub last_accepted_age_ms: Option<u64>,
    pub last_forwarded_age_ms: Option<u64>,
    pub last_attempt_age_ms: Option<u64>,
    pub last_target_path: Option<String>,
    pub last_http_status: Option<u16>,
    pub last_error: Option<String>,
    pub last_error_age_ms: Option<u64>,
}

/// What a [`RuntimeLogForwardStatusSnapshot`] stands for.
#[verifier::ext_equal]
pub struct RuntimeLogForwardStatusSnapshotView {
    pub state: Seq<char>,
    pub queued_count: u64,
    pub accepted_count: u64,
    pub forwarded_count: u64,
    pub failed_count: u64,
    pub last_accepted_age_ms: Option<u64>,
    pub last_forwarded_age_ms: Option<u64>,
    pub last_attempt_age_ms: Option<u64>,
    pub last_target_path: Option<Seq<char>>,
    pub last_http_status: Option<u16>,
    pub last_error: Option<Seq<char>>,
    pub last_error_age_ms: Option<u64>,
}

impl View for RuntimeLogForwardStatusSnapshot {
    type V = RuntimeLogForwardStatusSnapshotView;

    open spec fn view(&self) -> RuntimeLogForwardStatusSnapshotView {
        RuntimeLogForwardStatusSnapshotView {
            state: self.state@,
            queued_count: self.queued_count,
            accepted_count: self.accepted_count,
            forwarded_count: self.forwarded_count,
            failed_count: self.failed_count,
            last_accepted_age_ms: self.last_accepted_age_ms,
            last_forwarded_age_ms: self.last_forwarded_age_ms,
            last_attempt_age_ms: self.last_attempt_age_ms,
            last_target_path: self.last_target_path.deep_view(),
            last_http_status: self.last_http_status,
            last_error: self.last_error.deep_view(),
            last_error_age_ms: self.last_error_age_ms,
        }
    }
}

impl Dup for RuntimeLogForwardStatusSnapshot {
    fn dup(&self) -> (copy: Self) {
        RuntimeLogForwardStatusSnapshot {
            state: self.state.clone(),
            queued_count: self.queued_count,
            accepted_count: self.accepted_count,
            forwarded_count: self.forwarded_count,
            failed_count: self.failed_count,
            last_accepted_age_ms: self.last_accepted_age_ms,
            last_forwarded_age_ms: self.last_forwarded_age_ms,
            last_attempt_age_ms: self.last_attempt_age_ms,
            last_target_path: dup_text(&self.last_target_path),
            last_http_status: self.last_http_status,
            last_error: dup_text(&self.last_error),
            last_error_age_ms: self.last_error_age_ms,
        }
    }
}

/// The start of an upload.
pub struct ArtifactBegin {
    pub upload_id: String,
    pub request_id: String,
    pub session_id: String,
    pub runtime_id: String,
    pub place_id: String,
    pub task_id: Option<String>,
    pub tag: Option<String>,
    pub content_type: String,
    pub total_bytes: usize,
}

/// What a [`ArtifactBegin`] stands for.
#[verifier::ext_equal]
pub struct ArtifactBeginView {
    pub upload_id: Seq<char>,
    pub request_id: Seq<char>,
    pub session_id: Seq<char>,
    pub runtime_id: Seq<char>,
    pub place_id: Seq<char>,
    pub task_id: Option<Seq<char>>,
    pub tag: Option<Seq<char>>,
    pub content_type: Seq<char>,
    pub total_bytes: usize,
}

impl View for ArtifactBegin {
    type V = ArtifactBeginView;

    open spec fn view(&self) -> ArtifactBeginView {
        ArtifactBeginView {
            upload_id: self.upload_id@,
            request_id: self.request_id@,
            session_id: self.session_id@,
            runtime_id: self.runtime_id@,
            place_id: self.place_id@,
            task_id: self.task_id.deep_view(),
            tag: self.tag.deep_view(),
            content_type: self.content_type@,
            total_bytes: self.total_bytes,
        }
    }
}

/// The end of an upload.
pub struct ArtifactFinish {
    pub upload_id: String,
    pub request_id: String,
    pub total_chunks: u32,
}

/// What a [`ArtifactFinish`] stands for.
#[verifier::ext_equal]
pub struct ArtifactFinishView {
    pub upload_id: Seq<char>,
    pub request_id: Seq<char>,
    pub total_chunks: u32,
}

impl View for ArtifactFinish {
    type V = ArtifactFinishView;

    open spec fn view(&self) -> ArtifactFinishView {
        ArtifactFinishView {
            upload_id: self.upload_id@,
            request_id: self.request_id@,
            total_chunks: self.total_chunks,
        }
    }
}

/// A piece of an upload.
pub struct ArtifactChunk {
    pub upload_id: String,
    pub seq: u32,
    pub data_base64: String,
}

/// What a [`ArtifactChunk`] stands for.
#[verifier::ext_equal]
pub struct ArtifactChunkView {
    pub upload_id: Seq<char>,
    pub seq: u32,
    pub data_base64: Seq<char>,
}

impl View for ArtifactChunk {
    type V = ArtifactChunkView;

    open spec fn view(&self) -> ArtifactChunkView {
        ArtifactChunkView {
            upload_id: self.upload_id@,
            seq: self.seq,
            data_base64: self.data_base64@,
        }
    }
}

/// An upload that was given up.
pub struct ArtifactAbort {
    pub upload_id: String,
    pub request_id: String,
    pub error: String,
}

/// What a [`ArtifactAbort`] stands for.
#[verifier::ext_equal]
pub struct ArtifactAbortView {
    pub upload_id: Seq<char>,
    pub request_id: Seq<char>,
    pub error: Seq<char>,
}

impl View for ArtifactAbort {
    type V = ArtifactAbortView;

    open spec fn view(&self) -> ArtifactAbortView {
        ArtifactAbortView {
            upload_id: self.upload_id@,
            request_id: self.request_id@,
            error: self.error@,
        }
    }
}

/// An upload that the server has stored.
pub struct ArtifactCommitted {
    pub upload_id: String,
    pub request_id: String,
    pub session_id: String,
    pub runtime_id: String,
    pub place_id: String,
    pub task_id: Option<String>,
    pub screenshot_path: String,
    pub screenshot_rel_path: String,
    pub artifact_dir: String,
    pub session_metadata_path: String,
    pub bytes_written: usize,
}

/// What a [`ArtifactCommitted`] stands for.
#[verifier::ext_equal]
pub struct ArtifactCommittedView {
    pub upload_id: Seq<char>,
    pub request_id: Seq<char>,
    pub session_id: Seq<char>,
    pub runtime_id: Seq<char>,
    pub place_id: Seq<char>,
    pub task_id: Option<Seq<char>>,
    pub screenshot_path: Seq<char>,
    pub screenshot_rel_path: Seq<char>,
    pub artifact_dir: Seq<char>,
    pub session_metadata_path: Seq<char>,
    pub bytes_written: usize,
}

impl View for ArtifactCommitted {
    type V = ArtifactCommittedView;

    open spec fn view(&self) -> ArtifactCommittedView {
        ArtifactCommittedView {
            upload_id: self.upload_id@,
            request_id: self.request_id@,
            session_id: self.session_id@,
            runtime_id: self.runtime_id@,
            place_id: self.place_id@,
            task_id: self.task_id.deep_view(),
            screenshot_path: self.screenshot_path@,
            screenshot_rel_path: self.screenshot_rel_path@,
            artifact_dir: self.artifact_dir@,
            session_metadata_path: self.session_metadata_path@,
            bytes_written: self.bytes_written,
        }
    }
}

impl Dup for ArtifactCommitted {
    fn dup(&self) -> (copy: Self) {
        ArtifactCommitted {
            upload_id: self.upload_id.clone(),
            request_id: self.request_id.clone(),
            session_id: self.session_id.clone(),
            runtime_id: self.runtime_id.clone(),
            place_id: self.place_id.clone(),
            task_id: dup_text(&self.task_id),
            screenshot_path: self.screenshot_path.clone(),
            screenshot_rel_path: self.screenshot_rel_path.clone(),
            artifact_dir: self.artifact_dir.clone(),
            session_metadata_path: self.session_metadata_path.clone(),
            bytes_written: self.bytes_written,
        }
    }
}

/// A request to the official tools; the arguments are JSON text.
pub struct OfficialMcpRequest {
    pub request_id: String,
    pub task_id: String,
    pub place_id: String,
    pub action: String,
    pub arguments: String,
    pub timeout_ms: u64,
}

/// What a [`OfficialMcpRequest`] stands for.
#[verifier::ext_equal]
pub struct OfficialMcpRequestView {
    pub request_id: Seq<char>,
    pub task_id: Seq<char>,
    pub place_id: Seq<char>,
    pub action: Seq<char>,
    pub arguments: Seq<char>,
    pub timeout_ms: u64,
}

impl View for OfficialMcpRequest {
    type V = OfficialMcpRequestView;

    open spec fn view(&self) -> OfficialMcpRequestView {
        OfficialMcpRequestView {
            request_id: self.request_id@,
            task_id: self.task_id@,
            place_id: self.place_id@,
            action: self.action@,
            arguments: self.arguments@,
            timeout_ms: self.timeout_ms,
        }
    }
}

impl Dup for OfficialMcpRequest {
    fn dup(&self) -> (copy: Self) {
        OfficialMcpRequest {
            request_id: self.request_id.clone(),
            task_id: self.task_id.clone(),
            place_id: self.place_id.clone(),
            action: self.action.clone(),
            arguments: self.arguments.clone(),
            timeout_ms: self.timeout_ms,
        }
    }
}

/// An answer of the official tools.
pub struct OfficialMcpResponse {
    pub request_id: String,
    pub response: String,
}

/// What a [`OfficialMcpResponse`] stands for.
#[verifier::ext_equal]
pub struct OfficialMcpResponseView {
    pub request_id: Seq<char>,
    pub response: Seq<char>,
}

impl View for OfficialMcpResponse {
    type V = OfficialMcpResponseView;

    open spec fn view(&self) -> OfficialMcpResponseView {
        OfficialMcpResponseView {
            request_id: self.request_id@,
            response: self.response@,
        }
    }
}

/// What a helper says.
pub enum HelperToServerMessage {
    Hello(HelperHello),
    Heartbeat {
        helper_id: String,
        place_id: String,
        task_id: Option<String>,
        plugin_instance_count: usize,
        task_status: Option<HelperTaskStatusSnapshot>,
    },
    ToolResult { request_id: String, response: String },
    ToolError { request_id: String, error: String },
    ArtifactBegin(ArtifactBegin),
    ArtifactChunk(ArtifactChunk),
    ArtifactFinish(ArtifactFinish),
    ArtifactAbort(ArtifactAbort),
    OfficialMcpResponse(OfficialMcpResponse),
    OfficialMcpError { request_id: String, error: String },
}

/// What a [`HelperToServerMessage`] stands for.
#[verifier::ext_equal]
pub enum HelperToServerMessageView {
    Hello(HelperHelloView),
    Heartbeat {
        helper_id: Seq<char>,
        place_id: Seq<char>,
        task_id: Option<Seq<char>>,
        plugin_instance_count: usize,
        task_status: Option<HelperTaskStatusSnapshotView>,
    },
    ToolResult { request_id: Seq<char>, response: Seq<char> },
    ToolError { request_id: Seq<char>, error: Seq<char> },
    ArtifactBegin(ArtifactBeginView),
    ArtifactChunk(ArtifactChunkView),
    ArtifactFinish(ArtifactFinishView),
    ArtifactAbort(ArtifactAbortView),
    OfficialMcpResponse(OfficialMcpResponseView),
    OfficialMcpError { request_id: Seq<char>, error: Seq<char> },
}

impl View for HelperToServerMessage {
    type V = HelperToServerMessageView;

    open spec fn view(&self) -> HelperToServerMessageView {
        match self {
            HelperToServerMessage::Hello(m) => HelperToServerMessageView::Hello(m@),
            HelperToServerMessage::Heartbeat {
                helper_id,
                place_id,
                task_id,
                plugin_instance_count,
                task_status,
            } => HelperToServerMessageView::Heartbeat {
                helper_id: helper_id@,
                place_id: place_id@,
                task_id: task_id.deep_view(),
                plugin_instance_count: *plugin_instance_count,
                task_status: crate::table::opt_view(*task_status),
            },
            HelperToServerMessage::ToolResult { request_id, response } => {
                HelperToServerMessageView::ToolResult { request_id: request_id@, response: response@ }
            },
            HelperToServerMessage::ToolError { request_id, error } => {
                HelperToServerMessageView::ToolError { request_id: request_id@, error: error@ }
            },
            HelperToServerMessage::ArtifactBegin(m) => HelperToServerMessageView::ArtifactBegin(m@),
            HelperToServerMessage::ArtifactChunk(m) => HelperToServerMessageView::ArtifactChunk(m@),
            HelperToServerMessage::ArtifactFinish(m) => HelperToServerMessageView::ArtifactFinish(
                m@,
            ),
            HelperToServerMessage::ArtifactAbort(m) => HelperToServerMessageView::ArtifactAbort(m@),
            HelperToServerMessage::OfficialMcpResponse(m) => {
                HelperToServerMessageView::OfficialMcpResponse(m@)
            },
            HelperToServerMessage::OfficialMcpError { request_id, error } => {
                HelperToServerMessageView::OfficialMcpError { request_id: request_id@, error: error@ }
            },
        }
    }
}

/// What a remote server says.
pub enum ServerToHelperMessage {
    ReadyAck { connection_id: String, place_id: String, task_id: Option<String> },
    ToolCall { request_id: String, command: PluginCommand },
    ArtifactCommitted(ArtifactCommitted),
    ArtifactFailed { upload_id: String, request_id: String, error: String },
    OfficialMcpRequest(OfficialMcpRequest),
    CloseReason { reason: String },
}

/// What a [`ServerToHelperMessage`] stands for.
#[verifier::ext_equal]
pub enum ServerToHelperMessageView {
    ReadyAck { connection_id: Seq<char>, place_id: Seq<char>, task_id: Option<Seq<char>> },
    ToolCall { request_id: Seq<char>, command: PluginCommandView },
    ArtifactCommitted(ArtifactCommittedView),
    ArtifactFailed { upload_id: Seq<char>, request_id: Seq<char>, error: Seq<char> },
    OfficialMcpRequest(OfficialMcpRequestView),
    CloseReason { reason: Seq<char> },
}

impl View for ServerToHelperMessage {
    type V = ServerToHelperMessageView;

    open spec fn view(&self) -> ServerToHelperMessageView {
        match self {
            ServerToHelperMessage::ReadyAck { connection_id, place_id, task_id } => {
                ServerToHelperMessageView::ReadyAck {
                    connection_id: connection_id@,
                    place_id: place_id@,
                    task_id: task_id.deep_view(),
                }
            },
            ServerToHelperMessage::ToolCall { request_id, command } => {
                ServerToHelperMessageView::ToolCall { request_id: request_id@, command: command@ }
            },
            ServerToHelperMessage::ArtifactCommitted(m) => {
                ServerToHelperMessageView::ArtifactCommitted(m@)
            },
            ServerToHelperMessage::ArtifactFailed { upload_id, request_id, error } => {
                ServerToHelperMessageView::ArtifactFailed {
                    upload_id: upload_id@,
                    request_id: request_id@,
                    error: error@,
                }
            },
            ServerToHelperMessage::OfficialMcpRequest(m) => {
                ServerToHelperMessageView::OfficialMcpRequest(m@)
            },
            ServerToHelperMessage::CloseReason { reason } => {
                ServerToHelperMessageView::CloseReason { reason: reason@ }
            },
        }
    }
}

} // verus!
