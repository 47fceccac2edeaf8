//! A session on a connection to a remote server: how it opens, what each message leads to, and how it
//! ends.
use vstd::prelude::*;

use super::connections::{
    note_remote_connection_activity, remote_connection_matches_worker,
    set_remote_connection_connected, set_remote_connection_connecting, validate_remote_ready_ack,
};
use super::records::{HelperState, PluginCommand, PluginInstance};
use super::routing::stop_removed_official_adapter;
use super::session::serves_task;
use super::task_status::helper_task_status_snapshot;
use super::timing::REMOTE_WS_PONG_TIMEOUT;
use crate::clock::{elapsed, elapsed_ms};
use crate::helper_ws::{
    ArtifactCommitted, HelperHello, HelperTaskStatusSnapshot, HelperToServerMessage,
    OfficialMcpRequest, OfficialMcpResponse, ServerToHelperMessage,
    OFFICIAL_MCP_ADAPTER_CAPABILITY, OFFICIAL_MCP_STORE_IMAGE_BASE64_CAPABILITY,
};
use crate::ids::random_uuid;
use crate::order::same_text;
use crate::table::{dup_text, IdSet};
use crate::text::{borrowed, concat, concat3, decimal_text, owned};

verus! {

use super::records::{HelperStateView, PluginCommandView, PluginInstanceView};
use crate::helper_ws::{
    ArtifactCommittedView, HelperHelloView, HelperTaskStatusSnapshotView,
    HelperToServerMessageView, OfficialMcpRequestView, OfficialMcpResponseView,
    ServerToHelperMessageView,
};

/// A session on a connection: whose it is, whether the server has acknowledged it, when it last
/// answered a ping, and which uploads wait for its word.
pub struct WsSession {
    pub connection_key: String,
    pub worker_id: String,
    pub place_id: String,
    pub task_id: Option<String>,
    pub ready_acknowledged: bool,
    pub last_pong_at: u128,
    pub uploads: IdSet,
}

/// What a [`WsSession`] stands for.
#[verifier::ext_equal]
pub struct WsSessionView {
    pub connection_key: Seq<char>,
    pub worker_id: Seq<char>,
    pub place_id: Seq<char>,
    pub task_id: Option<Seq<char>>,
    pub ready_acknowledged: bool,
    pub last_pong_at: u128,
    pub uploads: Set<Seq<char>>,
}

impl View for WsSession {
    type V = WsSessionView;

    open spec fn view(&self) -> WsSessionView {
        WsSessionView {
            connection_key: self.connection_key@,
            worker_id: self.worker_id@,
            place_id: self.place_id@,
            task_id: self.task_id.deep_view(),
            ready_acknowledged: self.ready_acknowledged,
            last_pong_at: self.last_pong_at,
            uploads: self.uploads@,
        }
    }
}

/// What a message, or the time, calls for.
pub enum WsAction {
    /// Nothing is to be done.
    Nothing,
    /// A ping is to be sent.
    Ping(Vec<u8>),
    /// A ping is to be answered.
    Pong(Vec<u8>),
    /// The server has acknowledged the session; the adapter of the task is to be started.
    Acknowledged(Option<String>),
    /// A command is to be carried out.
    RunTool { request_id: String, command: PluginCommand },
    /// A request to the official tools is to be carried out.
    RunOfficial(OfficialMcpRequest),
    /// An upload was stored.
    UploadStored(ArtifactCommitted),
    /// An upload was not stored.
    UploadFailed { upload_id: String, error: String },
    /// The session is to be left with an error, its end aside.
    Abort(String),
    /// The session is to be ended with an error.
    End(String),
}

/// What a [`WsAction`] stands for.
#[verifier::ext_equal]
pub enum WsActionView {
    Nothing,
    Ping(Seq<u8>),
    Pong(Seq<u8>),
    Acknowledged(Option<Seq<char>>),
    RunTool { request_id: Seq<char>, command: PluginCommandView },
    RunOfficial(OfficialMcpRequestView),
    UploadStored(ArtifactCommittedView),
    UploadFailed { upload_id: Seq<char>, error: Seq<char> },
    Abort(Seq<char>),
    End(Seq<char>),
}

impl View for WsAction {
    type V = WsActionView;

    open spec fn view(&self) -> WsActionView {
        match self {
            WsAction::Nothing => WsActionView::Nothing,
            WsAction::Ping(payload) => WsActionView::Ping(payload@),
            WsAction::Pong(payload) => WsActionView::Pong(payload@),
            WsAction::Acknowledged(task_id) => WsActionView::Acknowledged(task_id.deep_view()),
            WsAction::RunTool { request_id, command } => WsActionView::RunTool {
                request_id: request_id@,
                command: command@,
            },
            WsAction::RunOfficial(request) => WsActionView::RunOfficial(request@),
            WsAction::UploadStored(committed) => WsActionView::UploadStored(committed@),
            WsAction::UploadFailed { upload_id, error } => WsActionView::UploadFailed {
                upload_id: upload_id@,
                error: error@,
            },
            WsAction::Abort(error) => WsActionView::Abort(error@),
            WsAction::End(error) => WsActionView::End(error@),
        }
    }
}

/// The state after a message has come over the connection of the session.
pub open spec fn active(s: HelperStateView, session: WsSessionView, now: u128) -> HelperStateView {
    let key = session.connection_key;
    if super::connections::run_by(s, key, session.worker_id) {
        super::connections::with_connection(
            s,
            key,
            super::records::RemoteConnectionHandleView {
                last_server_message_at: Some(now),
                ..s.remote_connections[key]
            },
        )
    } else {
        s
    }
}

/// The state after the server has acknowledged the session.
pub open spec fn acknowledged(
    s: HelperStateView,
    session: WsSessionView,
    connection_id: Seq<char>,
    now: u128,
) -> HelperStateView {
    let key = session.connection_key;
    if super::connections::run_by(s, key, session.worker_id) {
        super::connections::without_remote_error(
            super::connections::with_connection(
                s,
                key,
                super::connections::connected(s.remote_connections[key], connection_id, now),
            ),
            key,
        )
    } else if s.remote_connections.contains_key(key) {
        s
    } else {
        super::connections::without_remote_error(s, key)
    }
}

/// The state after a session was opened.
pub open spec fn opened(s: HelperStateView, key: Seq<char>, worker_id: Seq<char>, now: u128) -> HelperStateView {
    super::connections::without_remote_error(
        if super::connections::run_by(s, key, worker_id) {
            super::connections::with_connection(
                s,
                key,
                super::connections::connecting(s.remote_connections[key], now),
            )
        } else {
            s
        },
        key,
    )
}

/// What is said of a message that comes before the acknowledgement.
pub open spec fn too_early(what: Seq<char>) -> Seq<char> {
    "remote MCP server sent "@ + what + " before ready ack"@
}

/// The message is for a session that the server has acknowledged, by its kind.
pub open spec fn needs_ack(message: ServerToHelperMessageView) -> Option<Seq<char>> {
    match message {
        ServerToHelperMessageView::ReadyAck { .. } => None,
        ServerToHelperMessageView::ToolCall { .. } => Some("tool call"@),
        ServerToHelperMessageView::OfficialMcpRequest(_) => Some("official MCP request"@),
        ServerToHelperMessageView::ArtifactCommitted(_) => Some("artifact committed"@),
        ServerToHelperMessageView::ArtifactFailed { .. } => Some("artifact failed"@),
        ServerToHelperMessageView::CloseReason { .. } => None,
    }
}

/// What a message of the server calls for.
pub open spec fn message_action(session: WsSessionView, message: ServerToHelperMessageView) -> WsActionView {
    if needs_ack(message) is Some && !session.ready_acknowledged {
        WsActionView::Abort(too_early(needs_ack(message)->0))
    } else {
        match message {
            ServerToHelperMessageView::ReadyAck { connection_id, place_id, task_id } => {
                match super::connections::ack_error(
                    session.place_id,
                    session.task_id,
                    place_id,
                    task_id,
                ) {
                    Some(error) => WsActionView::Abort(error),
                    None => WsActionView::Acknowledged(session.task_id),
                }
            },
            ServerToHelperMessageView::ToolCall { request_id, command } => {
                WsActionView::RunTool { request_id, command }
            },
            ServerToHelperMessageView::OfficialMcpRequest(request) => {
                WsActionView::RunOfficial(request)
            },
            ServerToHelperMessageView::ArtifactCommitted(committed) => {
                if session.uploads.contains(committed.upload_id) {
                    WsActionView::UploadStored(committed)
                } else {
                    WsActionView::Nothing
                }
            },
            ServerToHelperMessageView::ArtifactFailed { upload_id, request_id, error } => {
                if session.uploads.contains(upload_id) {
                    WsActionView::UploadFailed { upload_id, error }
                } else {
                    WsActionView::Nothing
                }
            },
            ServerToHelperMessageView::CloseReason { reason } => WsActionView::Abort(
                "remote MCP server closed helper websocket: "@ + reason,
            ),
        }
    }
}

/// The session after a message of the server.
pub open spec fn message_session(session: WsSessionView, message: ServerToHelperMessageView) -> WsSessionView {
    match message_action(session, message) {
        WsActionView::Acknowledged(_) => WsSessionView { ready_acknowledged: true, ..session },
        WsActionView::UploadStored(committed) => WsSessionView {
            uploads: session.uploads.remove(committed.upload_id),
            ..session
        },
        WsActionView::UploadFailed { upload_id, error } => WsSessionView {
            uploads: session.uploads.remove(upload_id),
            ..session
        },
        _ => session,
    }
}

/// The state after a message of the server.
pub open spec fn message_state(
    s: HelperStateView,
    session: WsSessionView,
    message: ServerToHelperMessageView,
    now: u128,
) -> HelperStateView {
    let seen = active(s, session, now);
    match message {
        ServerToHelperMessageView::ReadyAck { connection_id, place_id, task_id } => {
            if super::connections::ack_error(
                session.place_id,
                session.task_id,
                place_id,
                task_id,
            ) is None {
                acknowledged(seen, session, connection_id, now)
            } else {
                seen
            }
        },
        _ => seen,
    }
}

/// The plugins that a session is for: those of its task, or else those at its place.
pub open spec fn session_plugins(
    s: HelperStateView,
    place_id: Seq<char>,
    task_id: Option<Seq<char>>,
) -> Set<Seq<char>> {
    s.instances.dom().filter(
        |k: Seq<char>|
            match task_id {
                Some(id) => super::session::of_task(s.instances[k], id),
                None => s.instances[k].place_id == place_id,
            },
    )
}

/// The status of the task of a session.
pub open spec fn session_status(s: HelperStateView, task_id: Option<Seq<char>>, now: u128) -> Option<
    HelperTaskStatusSnapshotView,
> {
    match task_id {
        Some(id) => Some(super::task_status::task_status_told(s, id, now)),
        None => None,
    }
}

/// What the helper can do.
pub open spec fn capabilities() -> Seq<Seq<char>> {
    seq![
        "ws_tool_dispatch_v1"@,
        "runtime_screenshot_stream_v1"@,
        "read_studio_log_v1"@,
        OFFICIAL_MCP_ADAPTER_CAPABILITY@,
        OFFICIAL_MCP_STORE_IMAGE_BASE64_CAPABILITY@,
    ]
}

/// A session may be opened: nobody has asked to stop it, and the worker still runs the connection.
pub fn ws_session_may_open(
    state: &HelperState,
    connection_key: &str,
    worker_id: &str,
    stop_requested: bool,
) -> (open: bool)
    ensures
        open == (!stop_requested && super::connections::run_by(
            state@,
            connection_key@,
            worker_id@,
        )),
{
    !stop_requested && remote_connection_matches_worker(state, connection_key, worker_id)
}

/// A session as it is opened.
pub open spec fn session_begun(
    key: Seq<char>,
    worker_id: Seq<char>,
    place_id: Seq<char>,
    task_id: Option<Seq<char>>,
    now: u128,
) -> WsSessionView {
    WsSessionView {
        connection_key: key,
        worker_id,
        place_id,
        task_id,
        ready_acknowledged: false,
        last_pong_at: now,
        uploads: Set::empty(),
    }
}

/// Opens a session on a connection.
pub fn open_ws_session(
    state: &mut HelperState,
    connection_key: &str,
    worker_id: &str,
    place_id: &str,
    task_id: Option<&str>,
    now: u128,
) -> (session: WsSession)
    ensures
        final(state)@ == opened(old(state)@, connection_key@, worker_id@, now),
        session@ == session_begun(
            connection_key@,
            worker_id@,
            place_id@,
            task_id.deep_view(),
            now,
        ),
{
    set_remote_connection_connecting(state, connection_key, worker_id, now);
    state.last_remote_errors.remove(connection_key);
    WsSession {
        connection_key: connection_key.to_owned(),
        worker_id: worker_id.to_owned(),
        place_id: place_id.to_owned(),
        task_id: owned(task_id),
        ready_acknowledged: false,
        last_pong_at: now,
        uploads: IdSet::new(),
    }
}

/// How many plugins a session is for.
pub fn session_plugin_count(state: &HelperState, place_id: &str, task_id: Option<&str>) -> (count:
    usize)
    ensures
        count == session_plugins(state@, place_id@, task_id.deep_view()).len(),
{
    let test = |k: &str, i: &PluginInstance| -> (r: bool)
        ensures
            r == match task_id.deep_view() {
                Some(id) => super::session::of_task(i@, id),
                None => i@.place_id == place_id@,
            },
    {
        match task_id {
            Some(id) => serves_task(i, id),
            None => same_text(i.place_id.as_str(), place_id),
        }
    };
    let found = state.instances.keys_where(
        test,
        Ghost(
            |k: Seq<char>, i: PluginInstanceView|
                match task_id.deep_view() {
                    Some(id) => super::session::of_task(i, id),
                    None => i.place_id == place_id@,
                },
        ),
    );
    assert(found@ =~= session_plugins(state@, place_id@, task_id.deep_view()));
    found.len()
}

/// The status of the task of a session.
fn tell_status(state: &HelperState, task_id: Option<&str>, now: u128) -> (status: Option<
    HelperTaskStatusSnapshot,
>)
    ensures
        crate::table::opt_view(status) == session_status(state@, task_id.deep_view(), now),
{
    match task_id {
        Some(id) => Some(helper_task_status_snapshot(state, id, now)),
        None => None,
    }
}

/// What the helper says of itself when a session is opened.
pub open spec fn hello_told(
    s: HelperStateView,
    helper_id: Seq<char>,
    helper_version: Seq<char>,
    session: WsSessionView,
    now: u128,
) -> HelperHelloView {
    HelperHelloView {
        helper_id,
        place_id: session.place_id,
        task_id: session.task_id,
        helper_version,
        capabilities: capabilities(),
        plugin_instance_count: session_plugins(s, session.place_id, session.task_id).len() as usize,
        task_status: session_status(s, session.task_id, now),
    }
}

/// The message that introduces the helper.
pub fn hello_message(
    state: &HelperState,
    helper_id: &str,
    helper_version: &str,
    session: &WsSession,
    now: u128,
) -> (message: HelperToServerMessage)
    ensures
        message@ == HelperToServerMessageView::Hello(
            hello_told(state@, helper_id@, helper_version@, session@, now),
        ),
{
    let mut list: Vec<String> = Vec::new();
    list.push("ws_tool_dispatch_v1".to_owned());
    list.push("runtime_screenshot_stream_v1".to_owned());
    list.push("read_studio_log_v1".to_owned());
    list.push(OFFICIAL_MCP_ADAPTER_CAPABILITY.to_owned());
    list.push(OFFICIAL_MCP_STORE_IMAGE_BASE64_CAPABILITY.to_owned());
    assert(list.deep_view() =~= capabilities());
    HelperToServerMessage::Hello(
        HelperHello {
            helper_id: helper_id.to_owned(),
            place_id: session.place_id.clone(),
            task_id: dup_text(&session.task_id),
            helper_version: helper_version.to_owned(),
            capabilities: list,
            plugin_instance_count: session_plugin_count(
                state,
                session.place_id.as_str(),
                borrowed(&session.task_id),
            ),
            task_status: tell_status(state, borrowed(&session.task_id), now),
        },
    )
}

/// What the helper says of the task of a session.
pub open spec fn session_told(
    s: HelperStateView,
    helper_id: Seq<char>,
    session: WsSessionView,
    now: u128,
) -> HelperToServerMessageView {
    HelperToServerMessageView::Heartbeat {
        helper_id,
        place_id: session.place_id,
        task_id: session.task_id,
        plugin_instance_count: session_plugins(s, session.place_id, session.task_id).len() as usize,
        task_status: session_status(s, session.task_id, now),
    }
}

/// The message that tells how the task of a session goes.
pub fn session_heartbeat_message(
    state: &HelperState,
    helper_id: &str,
    session: &WsSession,
    now: u128,
) -> (message: HelperToServerMessage)
    ensures
        message@ == session_told(state@, helper_id@, session@, now),
{
    HelperToServerMessage::Heartbeat {
        helper_id: helper_id.to_owned(),
        place_id: session.place_id.clone(),
        task_id: dup_text(&session.task_id),
        plugin_instance_count: session_plugin_count(
            state,
            session.place_id.as_str(),
            borrowed(&session.task_id),
        ),
        task_status: tell_status(state, borrowed(&session.task_id), now),
    }
}

/// The server has not answered a ping for too long.
pub open spec fn pong_overdue(session: WsSessionView, now: u128) -> bool {
    crate::clock::since(now, session.last_pong_at) > REMOTE_WS_PONG_TIMEOUT
}

/// What is to be done when a ping is due.
pub open spec fn ping_action(session: WsSessionView, payload: Seq<u8>, now: u128) -> WsActionView {
    if pong_overdue(session, now) {
        WsActionView::End(
            "remote websocket pong timed out after "@ + crate::text::decimal(
                crate::clock::since_ms(now, session.last_pong_at) as nat,
            ) + "ms"@,
        )
    } else {
        WsActionView::Ping(payload)
    }
}

/// What the time for a ping calls for, with the payload of the ping.
pub fn ping_due_as(session: &WsSession, payload: Vec<u8>, now: u128) -> (action: WsAction)
    ensures
        action@ == ping_action(session@, payload@, now),
{
    if elapsed(now, session.last_pong_at) > REMOTE_WS_PONG_TIMEOUT {
        return WsAction::End(
            concat3(
                "remote websocket pong timed out after ",
                decimal_text(elapsed_ms(now, session.last_pong_at)).as_str(),
                "ms",
            ),
        );
    }
    WsAction::Ping(payload)
}

/// What the time for a ping calls for; the ping carries a random UUID.
pub fn ping_due(session: &WsSession, now: u128) -> (action: WsAction)
    ensures
        if pong_overdue(session@, now) {
            action@ == WsActionView::End(
                "remote websocket pong timed out after "@ + crate::text::decimal(
                    crate::clock::since_ms(now, session@.last_pong_at) as nat,
                ) + "ms"@,
            )
        } else {
            action@ matches WsActionView::Ping(payload) && crate::ids::is_uuid(payload, 4)
        },
{
    let bytes = random_uuid();
    let mut payload: Vec<u8> = Vec::new();
    let mut i: usize = 0;
    while i < 16
        invariant
            i <= 16,
            payload@ == bytes@.take(i as int),
        decreases 16 - i,
    {
        payload.push(bytes[i]);
        assert(payload@ =~= bytes@.take(i + 1));
        i = i + 1;
    }
    assert(payload@ =~= bytes@);
    ping_due_as(session, payload, now)
}

/// A message of the server has come.
pub fn apply_server_message(
    state: &mut HelperState,
    session: &mut WsSession,
    message: ServerToHelperMessage,
    now: u128,
) -> (action: WsAction)
    ensures
        action@ == message_action(old(session)@, message@),
        final(session)@ == message_session(old(session)@, message@),
        final(state)@ == message_state(old(state)@, old(session)@, message@, now),
{
    note_remote_connection_activity(
        state,
        session.connection_key.as_str(),
        session.worker_id.as_str(),
        now,
    );
    match message {
        ServerToHelperMessage::ReadyAck { connection_id, place_id, task_id } => {
            match validate_remote_ready_ack(
                session.place_id.as_str(),
                borrowed(&session.task_id),
                place_id.as_str(),
                borrowed(&task_id),
            ) {
                Err(error) => WsAction::Abort(error),
                Ok(_) => {
                    set_remote_connection_connected(
                        state,
                        session.connection_key.as_str(),
                        session.worker_id.as_str(),
                        connection_id.as_str(),
                        now,
                    );
                    session.ready_acknowledged = true;
                    WsAction::Acknowledged(dup_text(&session.task_id))
                },
            }
        },
        ServerToHelperMessage::ToolCall { request_id, command } => {
            if !session.ready_acknowledged {
                return early("tool call");
            }
            WsAction::RunTool { request_id, command }
        },
        ServerToHelperMessage::OfficialMcpRequest(request) => {
            if !session.ready_acknowledged {
                return early("official MCP request");
            }
            WsAction::RunOfficial(request)
        },
        ServerToHelperMessage::ArtifactCommitted(committed) => {
            if !session.ready_acknowledged {
                return early("artifact committed");
            }
            if session.uploads.contains(committed.upload_id.as_str()) {
                session.uploads.remove(committed.upload_id.as_str());
                WsAction::UploadStored(committed)
            } else {
                WsAction::Nothing
            }
        },
        ServerToHelperMessage::ArtifactFailed { upload_id, request_id: _, error } => {
            if !session.ready_acknowledged {
                return early("artifact failed");
            }
            if session.uploads.contains(upload_id.as_str()) {
                session.uploads.remove(upload_id.as_str());
                WsAction::UploadFailed { upload_id, error }
            } else {
                WsAction::Nothing
            }
        },
        ServerToHelperMessage::CloseReason { reason } => WsAction::Abort(
            concat("remote MCP server closed helper websocket: ", reason.as_str()),
        ),
    }
}

/// What a message calls for that comes before the acknowledgement.
fn early(what: &str) -> (action: WsAction)
    ensures
        action@ == WsActionView::Abort(too_early(what@)),
{
    WsAction::Abort(concat3("remote MCP server sent ", what, " before ready ack"))
}

/// A text has come that is no message; `error` says why.
pub fn apply_unreadable_message(
    state: &mut HelperState,
    session: &WsSession,
    error: String,
    now: u128,
) -> (action: WsAction)
    ensures
        action@ == WsActionView::Abort(error@),
        final(state)@ == active(old(state)@, session@, now),
{
    note_remote_connection_activity(
        state,
        session.connection_key.as_str(),
        session.worker_id.as_str(),
        now,
    );
    WsAction::Abort(error)
}

/// The server has sent a ping.
pub fn apply_ping(state: &mut HelperState, session: &WsSession, payload: Vec<u8>, now: u128) -> (action:
    WsAction)
    ensures
        action@ == WsActionView::Pong(payload@),
        final(state)@ == active(old(state)@, session@, now),
{
    note_remote_connection_activity(
        state,
        session.connection_key.as_str(),
        session.worker_id.as_str(),
        now,
    );
    WsAction::Pong(payload)
}

/// The server has answered a ping.
pub fn apply_pong(state: &mut HelperState, session: &mut WsSession, now: u128)
    ensures
        final(session)@ == (WsSessionView { last_pong_at: now, ..old(session)@ }),
        final(state)@ == active(old(state)@, old(session)@, now),
{
    session.last_pong_at = now;
    note_remote_connection_activity(
        state,
        session.connection_key.as_str(),
        session.worker_id.as_str(),
        now,
    );
}

/// The server has sent something without a meaning for the helper.
pub fn apply_other_frame(state: &mut HelperState, session: &WsSession, now: u128)
    ensures
        final(state)@ == active(old(state)@, session@, now),
{
    note_remote_connection_activity(
        state,
        session.connection_key.as_str(),
        session.worker_id.as_str(),
        now,
    );
}

/// An upload waits for the word of the server.
pub fn await_upload(session: &mut WsSession, upload_id: &str)
    ensures
        final(session)@ == (WsSessionView {
            uploads: old(session)@.uploads.insert(upload_id@),
            ..old(session)@
        }),
{
    session.uploads.insert(upload_id.to_owned());
}

/// An upload no longer waits for the word of the server.
pub fn forget_upload(session: &mut WsSession, upload_id: &str)
    ensures
        final(session)@ == (WsSessionView {
            uploads: old(session)@.uploads.remove(upload_id@),
            ..old(session)@
        }),
{
    session.uploads.remove(upload_id);
}

/// The state after a session was closed.
pub open spec fn closed(s: HelperStateView, task_id: Option<Seq<char>>) -> HelperStateView {
    match task_id {
        Some(id) => super::official::adapter_gone(s, id),
        None => s,
    }
}

/// Ends a session. Gives the uploads that still waited for the word of the server, and whether the
/// adapter of the task was stopped.
pub fn close_ws_session(state: &mut HelperState, session: &mut WsSession) -> (left: (Vec<String>, bool))
    ensures
        left.0.deep_view() == crate::table::sorted(old(session)@.uploads),
        final(session)@ == (WsSessionView { uploads: Set::empty(), ..old(session)@ }),
        left.1 == (old(session)@.task_id matches Some(id) && old(state)@.official_adapters.contains(
            id,
        )),
        final(state)@ == closed(old(state)@, old(session)@.task_id),
{
    let pending = session.uploads.to_sorted_vec();
    session.uploads = IdSet::new();
    let stopped = match &session.task_id {
        Some(id) => stop_removed_official_adapter(state, id.as_str()),
        None => false,
    };
    (pending, stopped)
}

/// How a session ended: well where it was asked to stop, else with its error.
pub fn session_outcome(stopped_by_request: bool, error: Option<String>) -> (result: Result<(), String>)
    ensures
        crate::table::outcome(result) == if stopped_by_request {
            Ok(())
        } else {
            Err(
                match error {
                    Some(text) => text@,
                    None => "remote websocket session ended unexpectedly"@,
                },
            )
        },
{
    if stopped_by_request {
        return Ok(());
    }
    match error {
        Some(text) => Err(text),
        None => Err("remote websocket session ended unexpectedly".to_owned()),
    }
}

/// The message with the result of a command.
pub fn tool_reply(request_id: String, result: Result<String, String>) -> (message:
    HelperToServerMessage)
    ensures
        message@ == match result {
            Ok(body) => HelperToServerMessageView::ToolResult {
                request_id: request_id@,
                response: body@,
            },
            Err(error) => HelperToServerMessageView::ToolError {
                request_id: request_id@,
                error: error@,
            },
        },
{
    match result {
        Ok(body) => HelperToServerMessage::ToolResult { request_id, response: body },
        Err(error) => HelperToServerMessage::ToolError { request_id, error },
    }
}

/// The message with the result of a request to the official tools.
pub fn official_reply(request_id: String, result: Result<String, String>) -> (message:
    HelperToServerMessage)
    ensures
        message@ == match result {
            Ok(body) => HelperToServerMessageView::OfficialMcpResponse(
                OfficialMcpResponseView { request_id: request_id@, response: body@ },
            ),
            Err(error) => HelperToServerMessageView::OfficialMcpError {
                request_id: request_id@,
                error: error@,
            },
        },
{
    match result {
        Ok(response) => HelperToServerMessage::OfficialMcpResponse(
            OfficialMcpResponse { request_id, response },
        ),
        Err(error) => HelperToServerMessage::OfficialMcpError { request_id, error },
    }
}

/// A command, a request to the official tools or word of an upload is never acted on before the
/// server has acknowledged the session.
pub proof fn law_nothing_runs_before_the_acknowledgement(
    session: WsSessionView,
    message: ServerToHelperMessageView,
)
    requires
        !session.ready_acknowledged,
    ensures
        message_action(session, message) is Abort || message_action(session, message) is Acknowledged,
        !(message is ReadyAck) ==> message_session(session, message) == session,
{
}

/// An acknowledgement for another place or another task never takes a session up.
pub proof fn law_foreign_acknowledgement_is_refused(
    session: WsSessionView,
    connection_id: Seq<char>,
    place_id: Seq<char>,
    task_id: Option<Seq<char>>,
)
    requires
        place_id != session.place_id || task_id != session.task_id,
    ensures
        ({
            let message = ServerToHelperMessageView::ReadyAck { connection_id, place_id, task_id };
            message_action(session, message) is Abort && message_session(session, message) == session
        }),
{
}

} // verus!
