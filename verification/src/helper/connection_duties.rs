//! How the connections to the servers of the tasks are kept, and what is done with what comes over them,
//! said of the records of the connections themselves.
use vstd::prelude::*;

use super::records::{
    ClaimedTaskView, HelperStateView, RemoteConnectionHandleView, RemoteConnectionState,
};
use super::ws_session::{WsActionView, WsSessionView};
use crate::helper_ws::{HelperToServerMessageView, ServerToHelperMessageView};

verus! {

/// The connection leads to the server of the task, for the task, at its place.
pub open spec fn leads_to(c: RemoteConnectionHandleView, task: ClaimedTaskView) -> bool {
    &&& c.remote_base_url == task.mcp_base_url
    &&& c.place_id == task.place_id
    &&& c.task_id == Some(task.task_id)
}

/// Where the connection leads and who runs it is the same.
pub open spec fn same_line(a: RemoteConnectionHandleView, b: RemoteConnectionHandleView) -> bool {
    &&& a.worker_id == b.worker_id
    &&& a.remote_base_url == b.remote_base_url
    &&& a.place_id == b.place_id
    &&& a.task_id == b.task_id
}

/// A connection that is begun, made, lost or broken says so, from then on. It is without a partner unless
/// it is made; how long and how often it is retried is counted until it is made.
pub proof fn law_connection_states(c: RemoteConnectionHandleView, id: Seq<char>, now: u128)
    ensures
        ({
            let begun = super::connections::connecting(c, now);
            let made = super::connections::connected(c, id, now);
            let lost = super::connections::retrying(c, now);
            let broken = super::connections::errored(c, now);
            let since = if c.retrying_since is Some {
                c.retrying_since
            } else {
                Some(now)
            };
            &&& begun.connection_state == RemoteConnectionState::Connecting
            &&& made.connection_state == RemoteConnectionState::Connected
            &&& lost.connection_state == RemoteConnectionState::Retrying
            &&& broken.connection_state == RemoteConnectionState::Error
            &&& begun.state_changed_at == now
            &&& made.state_changed_at == now
            &&& lost.state_changed_at == now
            &&& broken.state_changed_at == now
            &&& begun.connection_id is None
            &&& made.connection_id == Some(id)
            &&& lost.connection_id is None
            &&& broken.connection_id is None
            &&& begun.retrying_since == since
            &&& made.retrying_since is None
            &&& lost.retrying_since == since
            &&& broken.retrying_since == c.retrying_since
            &&& begun.consecutive_failures == c.consecutive_failures
            &&& made.consecutive_failures == 0
            &&& c.consecutive_failures < u32::MAX ==> lost.consecutive_failures
                == c.consecutive_failures + 1
            &&& c.consecutive_failures == u32::MAX ==> lost.consecutive_failures == u32::MAX
            &&& broken.consecutive_failures == c.consecutive_failures
            &&& begun.last_ready_at == c.last_ready_at
            &&& made.last_ready_at == Some(now)
            &&& lost.last_ready_at == c.last_ready_at
            &&& broken.last_ready_at == c.last_ready_at
            &&& begun.last_server_message_at is None
            &&& made.last_server_message_at == Some(now)
            &&& lost.last_server_message_at == c.last_server_message_at
            &&& broken.last_server_message_at == c.last_server_message_at
            &&& same_line(begun, c)
            &&& same_line(made, c)
            &&& same_line(lost, c)
            &&& same_line(broken, c)
        }),
{
}

/// An upkeep gives each claimed task its connection: one that leads to its server. A connection that is
/// begun or retried for half a minute without success is started anew, by another worker, without
/// forgetting its failures; after three minutes of retries its task is given up, and with it the
/// connection. Any other is left alone.
pub proof fn law_upkeep_of_a_connection(
    s: HelperStateView,
    workers: Map<Seq<char>, Seq<char>>,
    id: Seq<char>,
    now: u128,
)
    requires
        super::task_status::records_wf(s),
        s.claimed_tasks.contains_key(id),
    ensures
        ({
            let key = "task:"@ + id;
            let after = super::connections::synced(s, workers, now);
            let c = s.remote_connections[key];
            let a = after.remote_connections[key];
            let there = s.remote_connections.contains_key(key);
            let tired = there && (c.connection_state == RemoteConnectionState::Connecting
                || c.connection_state == RemoteConnectionState::Retrying) && now
                - c.state_changed_at >= 30_000_000_000;
            let hopeless = there && c.retrying_since is Some && now - c.retrying_since->0
                >= 180_000_000_000;
            &&& hopeless ==> !after.claimed_tasks.contains_key(id)
                && !after.remote_connections.contains_key(key)
                && !after.launch_processes.contains_key(id) && after.stop_signals.contains(key)
            &&& !hopeless ==> {
                &&& after.claimed_tasks.contains_key(id)
                &&& after.claimed_tasks[id] == s.claimed_tasks[id]
                &&& after.remote_connections.contains_key(key)
                &&& s.launch_processes.contains_key(id) ==> after.launch_processes.contains_key(id)
                    && after.launch_processes[id] == s.launch_processes[id]
            }
            &&& !there || (tired && !hopeless) ==> {
                &&& a.worker_id == workers[key]
                &&& leads_to(a, s.claimed_tasks[id])
                &&& a.connection_state == RemoteConnectionState::Connecting
                &&& a.state_changed_at == now
                &&& a.connection_id is None
                &&& a.last_ready_at is None
                &&& a.last_server_message_at is None
            }
            &&& !there ==> a.retrying_since is None && a.consecutive_failures == 0
            &&& tired && !hopeless ==> a.retrying_since == c.retrying_since
                && a.consecutive_failures == c.consecutive_failures && after.stop_signals.contains(
                key,
            ) && after.last_remote_errors.contains_key(key) && after.last_remote_errors[key]
                == "remote websocket retry watchdog restarted stale connection"@
            &&& there && !tired && !hopeless ==> a == c
            &&& !tired && !hopeless ==> after.last_remote_errors.contains_key(key)
                == s.last_remote_errors.contains_key(key)
            &&& !tired && !hopeless && s.last_remote_errors.contains_key(key)
                ==> after.last_remote_errors[key] == s.last_remote_errors[key]
        }),
{
    let key = super::session::connection_key(id);
    let tasks = s.claimed_tasks.dom();
    let gone = super::connections::all_given_up(s, now);
    super::connections::lemma_key_of_task(id);
    assert(tasks.contains(id));
    assert(super::routing::key_of_one(key, tasks));
    if super::connections::given_up(s, id, now) {
        assert(gone.contains(id));
        assert(super::routing::key_of_one(key, gone));
    }
    super::laws::law_upkeep_stops_workers(s, workers, now, key);
}

/// The server's word that it is ready counts only where it names the place and the task of the session.
pub proof fn law_ready_word_names_the_session(
    place_id: Seq<char>,
    task_id: Option<Seq<char>>,
    told_place: Seq<char>,
    told_task: Option<Seq<char>>,
)
    ensures
        super::connections::ack_error(place_id, task_id, told_place, told_task) is None
            <==> told_place == place_id && told_task == task_id,
{
}

/// A worker that begins a session marks its own connection as begun, and drops it where no task needs it
/// any more; it never touches a connection that another worker runs.
pub proof fn law_workers_keep_to_their_own(
    s: HelperStateView,
    id: Seq<char>,
    worker_id: Seq<char>,
    now: u128,
)
    requires
        super::task_status::records_wf(s),
    ensures
        ({
            let key = "task:"@ + id;
            let after = super::connections::session_begun(s, key, worker_id, now);
            let c = s.remote_connections[key];
            let own = s.remote_connections.contains_key(key) && c.worker_id == worker_id;
            let needed = s.claimed_tasks.contains_key(id);
            &&& super::connections::key_claimed(s, key) <==> needed
            &&& super::connections::run_by(s, key, worker_id) <==> own
            &&& !own ==> after.remote_connections == s.remote_connections && after.last_remote_errors
                == s.last_remote_errors
            &&& own && needed ==> after.remote_connections.contains_key(key)
                && after.remote_connections[key].connection_state
                == RemoteConnectionState::Connecting && after.remote_connections[key].worker_id
                == worker_id && after.remote_connections[key].state_changed_at == now
            &&& own && !needed ==> !after.remote_connections.contains_key(key)
                && !after.last_remote_errors.contains_key(key)
            &&& after.claimed_tasks == s.claimed_tasks
        }),
{
    let key = super::session::connection_key(id);
    super::connections::lemma_key_of_task(id);
    if super::connections::key_claimed(s, key) {
        let k = choose|k: Seq<char>| #[trigger]
            s.claimed_tasks.contains_key(k) && super::session::connection_key(
                s.claimed_tasks[k].task_id,
            ) == key;
        super::connections::lemma_key_of_task(k);
        assert(super::connections::id_of_key(key) == k);
    }
}

/// What the server asks for is done as it asks, once it has said that it is ready: tools and requests are
/// run under the names that they came with, and word of an upload goes to the upload that waits for it. A
/// server that closes the session ends it.
pub proof fn law_server_messages_are_carried_out(
    session: WsSessionView,
    message: ServerToHelperMessageView,
)
    ensures
        ({
            let action = super::ws_session::message_action(session, message);
            let after = super::ws_session::message_session(session, message);
            &&& after.connection_key == session.connection_key
            &&& after.worker_id == session.worker_id
            &&& after.place_id == session.place_id
            &&& after.task_id == session.task_id
            &&& after.last_pong_at == session.last_pong_at
            &&& session.ready_acknowledged ==> after.ready_acknowledged
            &&& match message {
                ServerToHelperMessageView::ReadyAck { connection_id, place_id, task_id } => {
                    let fits = place_id == session.place_id && task_id == session.task_id;
                    &&& fits ==> action == WsActionView::Acknowledged(session.task_id)
                        && after.ready_acknowledged
                    &&& !fits ==> action is Abort && after.ready_acknowledged
                        == session.ready_acknowledged
                    &&& after.uploads == session.uploads
                },
                ServerToHelperMessageView::ToolCall { request_id, command } => if session.ready_acknowledged {
                    action == (WsActionView::RunTool { request_id, command }) && after == session
                } else {
                    action is Abort && after == session
                },
                ServerToHelperMessageView::OfficialMcpRequest(request) => if session.ready_acknowledged {
                    action == WsActionView::RunOfficial(request) && after == session
                } else {
                    action is Abort && after == session
                },
                ServerToHelperMessageView::ArtifactCommitted(committed) => {
                    let awaited = session.uploads.contains(committed.upload_id);
                    &&& !session.ready_acknowledged ==> action is Abort && after == session
                    &&& session.ready_acknowledged && awaited ==> action == WsActionView::UploadStored(
                        committed,
                    ) && after.uploads == session.uploads.remove(committed.upload_id)
                    &&& session.ready_acknowledged && !awaited ==> action is Nothing && after
                        == session
                },
                ServerToHelperMessageView::ArtifactFailed { upload_id, request_id, error } => {
                    let awaited = session.uploads.contains(upload_id);
                    &&& !session.ready_acknowledged ==> action is Abort && after == session
                    &&& session.ready_acknowledged && awaited ==> action == (
                    WsActionView::UploadFailed { upload_id, error }) && after.uploads
                        == session.uploads.remove(upload_id)
                    &&& session.ready_acknowledged && !awaited ==> action is Nothing && after
                        == session
                },
                ServerToHelperMessageView::CloseReason { reason } => action == WsActionView::Abort(
                    "remote MCP server closed helper websocket: "@ + reason,
                ) && after == session,
            }
        }),
{
}

/// Whatever the server says is noted as a sign of life on the connection that the session's worker runs;
/// word that it is ready makes the connection, under the name that the server gives it, and clears what
/// was noted against it. Connections of other workers are not touched.
pub proof fn law_server_messages_are_signs_of_life(
    s: HelperStateView,
    session: WsSessionView,
    message: ServerToHelperMessageView,
    other: Seq<char>,
    now: u128,
)
    ensures
        ({
            let key = session.connection_key;
            let after = super::ws_session::message_state(s, session, message, now);
            let c = s.remote_connections[key];
            let a = after.remote_connections[key];
            let own = s.remote_connections.contains_key(key) && c.worker_id == session.worker_id;
            let ready = message is ReadyAck && message->ReadyAck_place_id == session.place_id
                && message->ReadyAck_task_id == session.task_id;
            &&& own ==> after.remote_connections.contains_key(key) && a.last_server_message_at
                == Some(now) && same_line(a, c)
            &&& own && ready ==> {
                &&& a.connection_state == RemoteConnectionState::Connected
                &&& a.connection_id == Some(message->ReadyAck_connection_id)
                &&& a.last_ready_at == Some(now)
                &&& a.consecutive_failures == 0
                &&& a.retrying_since is None
                &&& !after.last_remote_errors.contains_key(key)
            }
            &&& own && !ready ==> {
                &&& a.connection_state == c.connection_state
                &&& a.connection_id == c.connection_id
                &&& a.last_ready_at == c.last_ready_at
                &&& a.consecutive_failures == c.consecutive_failures
                &&& a.retrying_since == c.retrying_since
                &&& after.last_remote_errors == s.last_remote_errors
            }
            &&& !own ==> after.remote_connections == s.remote_connections
            &&& !own && (s.remote_connections.contains_key(key) || !ready) ==> after == s
            &&& !s.remote_connections.contains_key(key) && ready
                ==> !after.last_remote_errors.contains_key(key)
            &&& other != key ==> after.remote_connections.contains_key(other)
                == s.remote_connections.contains_key(other) && after.remote_connections[other]
                == s.remote_connections[other] && after.last_remote_errors.contains_key(other)
                == s.last_remote_errors.contains_key(other)
            &&& after.instances == s.instances
            &&& after.claimed_tasks == s.claimed_tasks
        }),
{
}

/// A session whose server left a ping unanswered for more than three quarters of a minute is over.
pub proof fn law_silent_servers_are_left(session: WsSessionView, now: u128)
    ensures
        super::ws_session::pong_overdue(session, now) <==> now - session.last_pong_at
            > 45_000_000_000,
{
}

/// The plugins of a session are those of its task; where it has none, those at its place.
pub proof fn law_plugins_of_a_session(
    s: HelperStateView,
    place_id: Seq<char>,
    task_id: Option<Seq<char>>,
    k: Seq<char>,
)
    ensures
        super::ws_session::session_plugins(s, place_id, task_id).contains(k)
            <==> s.instances.contains_key(k) && if task_id is Some {
            s.instances[k].task_id == task_id
        } else {
            s.instances[k].place_id == place_id
        },
{
}

/// An error is noted against its connection and against no other, in place of the one before it.
pub proof fn law_errors_are_noted(
    s: HelperStateView,
    key: Seq<char>,
    error: Seq<char>,
    other: Seq<char>,
)
    ensures
        ({
            let after = super::connections::with_remote_error(s, key, error);
            let cleared = super::connections::without_remote_error(s, key);
            &&& after.last_remote_errors.contains_key(key)
            &&& after.last_remote_errors[key] == error
            &&& !cleared.last_remote_errors.contains_key(key)
            &&& other != key ==> after.last_remote_errors.contains_key(other)
                == s.last_remote_errors.contains_key(other) && after.last_remote_errors[other]
                == s.last_remote_errors[other] && cleared.last_remote_errors.contains_key(other)
                == s.last_remote_errors.contains_key(other) && cleared.last_remote_errors[other]
                == s.last_remote_errors[other]
            &&& after == (HelperStateView { last_remote_errors: after.last_remote_errors, ..s })
            &&& cleared == (HelperStateView { last_remote_errors: cleared.last_remote_errors, ..s })
        }),
{
}

/// A session that opens clears what was noted against its connection and, where its worker runs the
/// connection, marks it as begun.
pub proof fn law_opened_session_begins(
    s: HelperStateView,
    key: Seq<char>,
    worker_id: Seq<char>,
    now: u128,
)
    ensures
        ({
            let after = super::ws_session::opened(s, key, worker_id, now);
            let c = s.remote_connections[key];
            let own = s.remote_connections.contains_key(key) && c.worker_id == worker_id;
            &&& !after.last_remote_errors.contains_key(key)
            &&& own ==> after.remote_connections.contains_key(key)
                && after.remote_connections[key].connection_state
                == RemoteConnectionState::Connecting
                && after.remote_connections[key].state_changed_at == now && same_line(
                after.remote_connections[key],
                c,
            )
            &&& !own ==> after.remote_connections == s.remote_connections
            &&& after.claimed_tasks == s.claimed_tasks
            &&& after.instances == s.instances
        }),
{
}

/// A server is told of the task of the session, where it has one.
pub proof fn law_session_tells_its_task(s: HelperStateView, task_id: Option<Seq<char>>, now: u128)
    ensures
        super::ws_session::session_status(s, task_id, now) is Some <==> task_id is Some,
        task_id matches Some(id) ==> super::ws_session::session_status(s, task_id, now)
            == Some(super::task_status::task_status_told(s, id, now)),
{
}

/// A helper offers a server five things.
pub proof fn law_helper_offers()
    ensures
        super::ws_session::capabilities() == seq![
            "ws_tool_dispatch_v1"@,
            "runtime_screenshot_stream_v1"@,
            "read_studio_log_v1"@,
            "official_mcp_adapter_v1"@,
            "official_mcp_store_image_base64_v1"@,
        ],
{
}

/// The heartbeat of a task goes out in the helper's name, for the claim's place and task, with the number
/// of its plugins and its status.
pub proof fn law_heartbeat_is_of_the_claim(
    s: HelperStateView,
    helper_id: Seq<char>,
    task: ClaimedTaskView,
    k: Seq<char>,
    now: u128,
)
    requires
        s.instances.dom().finite(),
        s.instances.dom().len() <= usize::MAX,
    ensures
        ({
            let plugins = super::task_status::plugins_of(s, task.task_id);
            &&& plugins.contains(k) <==> s.instances.contains_key(k) && s.instances[k].task_id
                == Some(task.task_id)
            &&& super::task_status::heartbeat_told(s, helper_id, task, now) == (
            HelperToServerMessageView::Heartbeat {
                helper_id,
                place_id: task.place_id,
                task_id: Some(task.task_id),
                plugin_instance_count: plugins.len() as usize,
                task_status: Some(super::task_status::task_status_told(s, task.task_id, now)),
            })
        }),
{
}

/// What a worker says of its connection is noted with that connection, and only where the worker runs it:
/// that it is begun, made, alive, lost or left. What was noted against a connection goes once it is made or
/// left, and the error of one that is lost or broken is noted in short. Other connections are not touched.
pub proof fn law_workers_mark_their_own(
    s: HelperStateView,
    key: Seq<char>,
    worker_id: Seq<char>,
    id: Seq<char>,
    error: Seq<char>,
    other: Seq<char>,
    now: u128,
)
    ensures
        ({
            let begun = super::connections::marked_connecting(s, key, worker_id, now);
            let made = super::connections::marked_connected(s, key, worker_id, id, now);
            let alive = super::connections::marked_active(s, key, worker_id, now);
            let lost = super::connections::marked_retrying(s, key, worker_id, error, now);
            let left = super::connections::worker_left(s, key, worker_id);
            let c = s.remote_connections[key];
            let there = s.remote_connections.contains_key(key);
            let own = there && c.worker_id == worker_id;
            &&& !own ==> begun == s && alive == s && lost == s && left == s
                && made.remote_connections == s.remote_connections
            &&& there && !own ==> made == s
            &&& !there ==> !made.last_remote_errors.contains_key(key)
            &&& own ==> {
                &&& begun.remote_connections[key] == super::connections::connecting(c, now)
                &&& made.remote_connections[key] == super::connections::connected(c, id, now)
                &&& alive.remote_connections[key] == (RemoteConnectionHandleView {
                    last_server_message_at: Some(now),
                    ..c
                })
                &&& lost.remote_connections[key] == super::connections::retrying(c, now)
                &&& !left.remote_connections.contains_key(key)
                &&& begun.remote_connections.contains_key(key)
                &&& made.remote_connections.contains_key(key)
                &&& alive.remote_connections.contains_key(key)
                &&& lost.remote_connections.contains_key(key)
                &&& begun.last_remote_errors == s.last_remote_errors
                &&& alive.last_remote_errors == s.last_remote_errors
                &&& !made.last_remote_errors.contains_key(key)
                &&& !left.last_remote_errors.contains_key(key)
                &&& lost.last_remote_errors.contains_key(key)
                &&& lost.last_remote_errors[key] == crate::sanitize::summary(error)
            }
            &&& other != key ==> {
                &&& begun.remote_connections[other] == s.remote_connections[other]
                &&& made.remote_connections[other] == s.remote_connections[other]
                &&& alive.remote_connections[other] == s.remote_connections[other]
                &&& lost.remote_connections[other] == s.remote_connections[other]
                &&& left.remote_connections[other] == s.remote_connections[other]
                &&& left.remote_connections.contains_key(other)
                    == s.remote_connections.contains_key(other)
                &&& lost.last_remote_errors.contains_key(other)
                    == s.last_remote_errors.contains_key(other)
            }
        }),
{
}

/// A connection that broke is marked so, whoever runs it, and its error is noted; a session that failed
/// counts only while a task needs the connection.
pub proof fn law_broken_connections_are_marked(
    s: HelperStateView,
    key: Seq<char>,
    worker_id: Seq<char>,
    error: Seq<char>,
    now: u128,
)
    ensures
        ({
            let broken = super::connections::marked_broken(s, key, error, now);
            let failed = super::connections::session_failed(s, key, worker_id, error, now);
            let there = s.remote_connections.contains_key(key);
            &&& broken.last_remote_errors.contains_key(key)
            &&& broken.last_remote_errors[key] == crate::sanitize::summary(error)
            &&& there ==> broken.remote_connections.contains_key(key)
                && broken.remote_connections[key] == super::connections::errored(
                s.remote_connections[key],
                now,
            )
            &&& !there ==> broken.remote_connections == s.remote_connections
            &&& super::connections::key_claimed(s, key) ==> failed
                == super::connections::marked_retrying(s, key, worker_id, error, now)
            &&& !super::connections::key_claimed(s, key) ==> failed == s
        }),
{
}

/// When a ping is due it is sent, unless the last one went unanswered for more than three quarters of a
/// minute: the session ends then, and says how long.
pub proof fn law_ping_is_sent(session: WsSessionView, payload: Seq<u8>, now: u128)
    ensures
        ({
            let action = super::ws_session::ping_action(session, payload, now);
            let silent = now - session.last_pong_at > 45_000_000_000;
            &&& !silent ==> action == WsActionView::Ping(payload)
            &&& silent ==> action == WsActionView::End(
                "remote websocket pong timed out after "@ + crate::text::decimal(
                    ((now - session.last_pong_at) / 1_000_000) as nat,
                ) + "ms"@,
            )
        }),
{
}

/// A session begins on its own connection and worker, for its own place and task, without the server's word
/// and with nothing that waits; the time that the server has to answer runs from then on.
pub proof fn law_session_begins_afresh(
    key: Seq<char>,
    worker_id: Seq<char>,
    place_id: Seq<char>,
    task_id: Option<Seq<char>>,
    upload: Seq<char>,
    now: u128,
)
    ensures
        ({
            let session = super::ws_session::session_begun(key, worker_id, place_id, task_id, now);
            &&& session.connection_key == key
            &&& session.worker_id == worker_id
            &&& session.place_id == place_id
            &&& session.task_id == task_id
            &&& !session.ready_acknowledged
            &&& session.last_pong_at == now
            &&& !session.uploads.contains(upload)
        }),
{
}

/// A helper introduces itself with its own name and version, and tells a server of the place and task of the
/// session and of the plugins there; what it says later differs in nothing but what it introduced.
pub proof fn law_helper_introduces_itself(
    s: HelperStateView,
    helper_id: Seq<char>,
    helper_version: Seq<char>,
    session: WsSessionView,
    now: u128,
)
    requires
        s.instances.dom().finite(),
        s.instances.dom().len() <= usize::MAX,
    ensures
        ({
            let hello = super::ws_session::hello_told(s, helper_id, helper_version, session, now);
            let told = super::ws_session::session_told(s, helper_id, session, now);
            let plugins = s.instances.dom().filter(
                |k: Seq<char>|
                    match session.task_id {
                        Some(id) => s.instances[k].task_id == Some(id),
                        None => s.instances[k].place_id == session.place_id,
                    },
            );
            &&& hello.helper_id == helper_id
            &&& hello.helper_version == helper_version
            &&& hello.place_id == session.place_id
            &&& hello.task_id == session.task_id
            &&& hello.plugin_instance_count == plugins.len()
            &&& hello.task_status is Some <==> session.task_id is Some
            &&& session.task_id matches Some(id) ==> hello.task_status == Some(
                super::task_status::task_status_told(s, id, now),
            )
            &&& told == (HelperToServerMessageView::Heartbeat {
                helper_id: hello.helper_id,
                place_id: hello.place_id,
                task_id: hello.task_id,
                plugin_instance_count: hello.plugin_instance_count,
                task_status: hello.task_status,
            })
        }),
{
    let plugins = s.instances.dom().filter(
        |k: Seq<char>|
            match session.task_id {
                Some(id) => s.instances[k].task_id == Some(id),
                None => s.instances[k].place_id == session.place_id,
            },
    );
    assert(plugins =~= super::ws_session::session_plugins(s, session.place_id, session.task_id));
    vstd::set_lib::lemma_len_subset(plugins, s.instances.dom());
}

/// A heartbeat is due for a task that is claimed and has a connection, and goes over that connection, for
/// the claim; none is due for another.
pub proof fn law_heartbeat_is_due(
    s: HelperStateView,
    helper_id: Seq<char>,
    task_id: Seq<char>,
    now: u128,
)
    ensures
        ({
            let due = super::task_status::heartbeat_due(s, helper_id, task_id, now);
            let key = "task:"@ + task_id;
            &&& due is Some <==> s.claimed_tasks.contains_key(task_id)
                && s.remote_connections.contains_key(key)
            &&& due matches Some(queued) ==> queued.connection_key == key && queued.message
                == super::task_status::heartbeat_told(
                s,
                helper_id,
                s.claimed_tasks[task_id],
                now,
            )
        }),
{
}

} // verus!
