//! The connections to the remote servers: who runs them, how far they have come, and which of them
//! are started anew or given up.
use vstd::prelude::*;

use super::records::{
    ClaimedTask, HelperState, PendingPluginResponse, PluginInstance, RemoteConnectionHandle,
    RemoteConnectionState, RemoteTarget,
};
use super::routing::release_listed_tasks;
use super::session::task_connection_key;
use super::timing::{
    INSTANCE_STALE_AFTER, REMOTE_WS_STALE_RELEASE_AFTER, REMOTE_WS_STALE_RESTART_AFTER,
};
use crate::clock::elapsed;
use crate::debug::opt_text;
use crate::ids::new_token;
use crate::order::same_text;
use crate::sanitize::summarize_error;
use crate::table::{dup_text, IdSet, Table};
use crate::text::{concat3, owned, same_option};

verus! {

use super::records::{
    ClaimedTaskView, HelperStateView, PendingPluginResponseView, PluginInstanceView,
    RemoteConnectionHandleView, RemoteTargetView,
};

/// What is said of an acknowledgement for another place or task.
pub open spec fn ack_error(
    expected_place_id: Seq<char>,
    expected_task_id: Option<Seq<char>>,
    ack_place_id: Seq<char>,
    ack_task_id: Option<Seq<char>>,
) -> Option<Seq<char>> {
    if ack_place_id != expected_place_id {
        Some(
            "remote MCP ready ack place_id mismatch: expected "@ + expected_place_id + ", got "@
                + ack_place_id,
        )
    } else if ack_task_id != expected_task_id {
        Some(
            "remote MCP ready ack task_id mismatch: expected "@ + crate::debug::debug_text(
                expected_task_id,
            ) + ", got "@ + crate::debug::debug_text(ack_task_id),
        )
    } else {
        None
    }
}

/// The remote server of a task.
pub open spec fn target_of(task: ClaimedTaskView) -> RemoteTargetView {
    RemoteTargetView {
        connection_key: super::session::connection_key(task.task_id),
        place_id: task.place_id,
        task_id: Some(task.task_id),
        remote_base_url: task.mcp_base_url,
    }
}

/// The connection key is that of a task that the helper holds.
pub open spec fn key_claimed(s: HelperStateView, key: Seq<char>) -> bool {
    exists|k: Seq<char>| #[trigger]
        s.claimed_tasks.contains_key(k) && super::session::connection_key(
            s.claimed_tasks[k].task_id,
        ) == key
}

/// The worker runs the connection.
pub open spec fn run_by(s: HelperStateView, key: Seq<char>, worker_id: Seq<char>) -> bool {
    s.remote_connections.contains_key(key) && s.remote_connections[key].worker_id == worker_id
}

/// The state with another record of a connection.
pub open spec fn with_connection(
    s: HelperStateView,
    key: Seq<char>,
    c: RemoteConnectionHandleView,
) -> HelperStateView {
    HelperStateView { remote_connections: s.remote_connections.insert(key, c), ..s }
}

/// The state without the last error of a connection.
pub open spec fn without_remote_error(s: HelperStateView, key: Seq<char>) -> HelperStateView {
    HelperStateView { last_remote_errors: s.last_remote_errors.remove(key), ..s }
}

/// The state with the last error of a connection.
pub open spec fn with_remote_error(s: HelperStateView, key: Seq<char>, error: Seq<char>) -> HelperStateView {
    HelperStateView { last_remote_errors: s.last_remote_errors.insert(key, error), ..s }
}

/// The state without the connection and its last error.
pub open spec fn without_connection(s: HelperStateView, key: Seq<char>) -> HelperStateView {
    HelperStateView {
        remote_connections: s.remote_connections.remove(key),
        ..without_remote_error(s, key)
    }
}

/// A connection that is being set up.
pub open spec fn connecting(c: RemoteConnectionHandleView, now: u128) -> RemoteConnectionHandleView {
    RemoteConnectionHandleView {
        connection_state: RemoteConnectionState::Connecting,
        state_changed_at: now,
        retrying_since: if c.retrying_since is None {
            Some(now)
        } else {
            c.retrying_since
        },
        connection_id: None,
        last_server_message_at: None,
        ..c
    }
}

/// A connection that the server has acknowledged.
pub open spec fn connected(c: RemoteConnectionHandleView, connection_id: Seq<char>, now: u128) -> RemoteConnectionHandleView {
    RemoteConnectionHandleView {
        connection_state: RemoteConnectionState::Connected,
        state_changed_at: now,
        retrying_since: None,
        consecutive_failures: 0,
        connection_id: Some(connection_id),
        last_ready_at: Some(now),
        last_server_message_at: Some(now),
        ..c
    }
}

/// A connection that failed and is tried again.
pub open spec fn retrying(c: RemoteConnectionHandleView, now: u128) -> RemoteConnectionHandleView {
    RemoteConnectionHandleView {
        connection_state: RemoteConnectionState::Retrying,
        state_changed_at: now,
        retrying_since: if c.retrying_since is None {
            Some(now)
        } else {
            c.retrying_since
        },
        consecutive_failures: if c.consecutive_failures < u32::MAX {
            (c.consecutive_failures + 1) as u32
        } else {
            u32::MAX
        },
        connection_id: None,
        ..c
    }
}

/// A connection that has come to an end with an error.
pub open spec fn errored(c: RemoteConnectionHandleView, now: u128) -> RemoteConnectionHandleView {
    RemoteConnectionHandleView {
        connection_state: RemoteConnectionState::Error,
        state_changed_at: now,
        connection_id: None,
        ..c
    }
}

/// The connection has not come about for so long that it is to be started anew.
pub open spec fn stale(c: RemoteConnectionHandleView, now: u128) -> bool {
    &&& c.connection_state == RemoteConnectionState::Connecting || c.connection_state
        == RemoteConnectionState::Retrying
    &&& crate::clock::since(now, c.state_changed_at) >= REMOTE_WS_STALE_RESTART_AFTER
}

/// The connection has been tried for so long that its task is to be let go.
pub open spec fn hopeless(c: RemoteConnectionHandleView, now: u128) -> bool {
    c.retrying_since matches Some(at) && crate::clock::since(now, at)
        >= REMOTE_WS_STALE_RELEASE_AFTER
}

/// A connection that has just been started.
pub open spec fn spawned(
    target: RemoteTargetView,
    worker_id: Seq<char>,
    retrying_since: Option<u128>,
    consecutive_failures: u32,
    now: u128,
) -> RemoteConnectionHandleView {
    RemoteConnectionHandleView {
        worker_id,
        remote_base_url: target.remote_base_url,
        place_id: target.place_id,
        task_id: target.task_id,
        connection_state: RemoteConnectionState::Connecting,
        state_changed_at: now,
        retrying_since,
        consecutive_failures,
        connection_id: None,
        last_ready_at: None,
        last_server_message_at: None,
    }
}

/// The plugin may stay: it was seen lately, or an answer of it is awaited.
pub open spec fn may_stay(s: HelperStateView, k: Seq<char>, i: PluginInstanceView, now: u128) -> bool {
    awaited(s, k) || crate::clock::since(now, i.last_seen_at) <= INSTANCE_STALE_AFTER
}

/// An answer of the plugin is awaited.
pub open spec fn awaited(s: HelperStateView, instance_id: Seq<char>) -> bool {
    exists|r: Seq<char>| #[trigger]
        s.waiting_for_plugin.contains_key(r) && s.waiting_for_plugin[r].instance_id == instance_id
}

/// The state without the plugins that were not seen for too long.
pub open spec fn tidied(s: HelperStateView, now: u128) -> HelperStateView {
    HelperStateView {
        instances: crate::table::kept(
            s.instances,
            |k: Seq<char>, i: PluginInstanceView| may_stay(s, k, i, now),
        ),
        ..s
    }
}

/// An acknowledgement must be for the place and the task of the connection.
pub fn validate_remote_ready_ack(
    expected_place_id: &str,
    expected_task_id: Option<&str>,
    ack_place_id: &str,
    ack_task_id: Option<&str>,
) -> (result: Result<(), String>)
    ensures
        match result {
            Ok(_) => ack_error(
                expected_place_id@,
                expected_task_id.deep_view(),
                ack_place_id@,
                ack_task_id.deep_view(),
            ) is None,
            Err(message) => ack_error(
                expected_place_id@,
                expected_task_id.deep_view(),
                ack_place_id@,
                ack_task_id.deep_view(),
            ) == Some(message@),
        },
{
    if !same_text(ack_place_id, expected_place_id) {
        let mut message = concat3(
            "remote MCP ready ack place_id mismatch: expected ",
            expected_place_id,
            ", got ",
        );
        message.append(ack_place_id);
        return Err(message);
    }
    if !same_option(ack_task_id, expected_task_id) {
        let mut message = concat3(
            "remote MCP ready ack task_id mismatch: expected ",
            opt_text(&owned(expected_task_id)).as_str(),
            ", got ",
        );
        message.append(opt_text(&owned(ack_task_id)).as_str());
        return Err(message);
    }
    Ok(())
}

/// The remote servers of the tasks that the helper holds.
pub fn build_active_remote_targets(state: &HelperState) -> (targets: Vec<RemoteTarget>)
    ensures
        crate::table::views(targets@) == crate::table::sorted(
            state@.claimed_tasks.dom(),
        ).map_values(|k: Seq<char>| target_of(state@.claimed_tasks[k])),
{
    let make = |k: &str, t: &ClaimedTask| -> (r: RemoteTarget)
        ensures
            r@ == target_of(t@),
    {
        RemoteTarget {
            connection_key: task_connection_key(t.task_id.as_str()),
            place_id: t.place_id.clone(),
            task_id: Some(t.task_id.clone()),
            remote_base_url: t.mcp_base_url.clone(),
        }
    };
    state.claimed_tasks.collect(make, Ghost(|k: Seq<char>, t: ClaimedTaskView| target_of(t)))
}

/// The connection key is that of a task that the helper holds.
pub fn remote_connection_is_active(state: &HelperState, connection_key: &str) -> (active: bool)
    ensures
        active == key_claimed(state@, connection_key@),
{
    let test = |k: &str, t: &ClaimedTask| -> (r: bool)
        ensures
            r == (super::session::connection_key(t@.task_id) == connection_key@),
    { same_text(task_connection_key(t.task_id.as_str()).as_str(), connection_key) };
    state.claimed_tasks.any(
        test,
        Ghost(
            |k: Seq<char>, t: ClaimedTaskView|
                super::session::connection_key(t.task_id) == connection_key@,
        ),
    )
}

/// The worker runs the connection.
pub fn remote_connection_matches_worker(state: &HelperState, connection_key: &str, worker_id: &str) -> (
    same: bool)
    ensures
        same == run_by(state@, connection_key@, worker_id@),
{
    match state.remote_connections.get(connection_key) {
        Some(connection) => same_text(connection.worker_id.as_str(), worker_id),
        None => false,
    }
}

/// Puts back the record of a connection that was there before.
fn put_connection(
    state: &mut HelperState,
    connection_key: &str,
    connection: RemoteConnectionHandle,
    Ghost(before): Ghost<HelperStateView>,
)
    requires
        old(state)@ == (HelperStateView {
            remote_connections: before.remote_connections.remove(connection_key@),
            ..before
        }),
    ensures
        final(state)@ == with_connection(before, connection_key@, connection@),
{
    let ghost after = connection@;
    state.remote_connections.insert(connection_key.to_owned(), connection);
    assert(state@.remote_connections =~= before.remote_connections.insert(connection_key@, after));
}

/// The state once the worker has begun to connect.
pub open spec fn marked_connecting(
    s: HelperStateView,
    key: Seq<char>,
    worker_id: Seq<char>,
    now: u128,
) -> HelperStateView {
    if run_by(s, key, worker_id) {
        with_connection(s, key, connecting(s.remote_connections[key], now))
    } else {
        s
    }
}

/// The state once the server has acknowledged the connection of the worker.
pub open spec fn marked_connected(
    s: HelperStateView,
    key: Seq<char>,
    worker_id: Seq<char>,
    connection_id: Seq<char>,
    now: u128,
) -> HelperStateView {
    if run_by(s, key, worker_id) {
        without_remote_error(
            with_connection(s, key, connected(s.remote_connections[key], connection_id, now)),
            key,
        )
    } else if s.remote_connections.contains_key(key) {
        s
    } else {
        without_remote_error(s, key)
    }
}

/// The state once a message has come over the connection of the worker.
pub open spec fn marked_active(
    s: HelperStateView,
    key: Seq<char>,
    worker_id: Seq<char>,
    now: u128,
) -> HelperStateView {
    if run_by(s, key, worker_id) {
        with_connection(
            s,
            key,
            RemoteConnectionHandleView {
                last_server_message_at: Some(now),
                ..s.remote_connections[key]
            },
        )
    } else {
        s
    }
}

/// The state once the connection of the worker has failed and will be tried again.
pub open spec fn marked_retrying(
    s: HelperStateView,
    key: Seq<char>,
    worker_id: Seq<char>,
    error: Seq<char>,
    now: u128,
) -> HelperStateView {
    if run_by(s, key, worker_id) {
        with_remote_error(
            with_connection(s, key, retrying(s.remote_connections[key], now)),
            key,
            crate::sanitize::summary(error),
        )
    } else {
        s
    }
}

/// The state once the connection has come to an end with an error.
pub open spec fn marked_broken(
    s: HelperStateView,
    key: Seq<char>,
    error: Seq<char>,
    now: u128,
) -> HelperStateView {
    with_remote_error(
        if s.remote_connections.contains_key(key) {
            with_connection(s, key, errored(s.remote_connections[key], now))
        } else {
            s
        },
        key,
        crate::sanitize::summary(error),
    )
}

/// The state once a session of the worker has failed.
pub open spec fn session_failed(
    s: HelperStateView,
    key: Seq<char>,
    worker_id: Seq<char>,
    error: Seq<char>,
    now: u128,
) -> HelperStateView {
    if key_claimed(s, key) {
        marked_retrying(s, key, worker_id, error, now)
    } else {
        s
    }
}

/// The state once the worker has dropped its connection.
pub open spec fn worker_left(s: HelperStateView, key: Seq<char>, worker_id: Seq<char>) -> HelperStateView {
    if run_by(s, key, worker_id) {
        without_connection(s, key)
    } else {
        s
    }
}

/// The worker sets the connection up.
pub fn set_remote_connection_connecting(
    state: &mut HelperState,
    connection_key: &str,
    worker_id: &str,
    now: u128,
)
    ensures
        final(state)@ == marked_connecting(old(state)@, connection_key@, worker_id@, now),
{
    let ghost before = state@;
    if !remote_connection_matches_worker(state, connection_key, worker_id) {
        return;
    }
    if let Some(connection) = state.remote_connections.remove(connection_key) {
        let mut connection = connection;
        connection.connection_state = RemoteConnectionState::Connecting;
        connection.state_changed_at = now;
        if connection.retrying_since.is_none() {
            connection.retrying_since = Some(now);
        }
        connection.connection_id = None;
        connection.last_server_message_at = None;
        put_connection(state, connection_key, connection, Ghost(before));
    }
}

/// The server has acknowledged the connection of the worker.
pub fn set_remote_connection_connected(
    state: &mut HelperState,
    connection_key: &str,
    worker_id: &str,
    connection_id: &str,
    now: u128,
)
    ensures
        final(state)@ == marked_connected(
            old(state)@,
            connection_key@,
            worker_id@,
            connection_id@,
            now,
        ),
{
    let ghost before = state@;
    if state.remote_connections.contains_key(connection_key) {
        if !remote_connection_matches_worker(state, connection_key, worker_id) {
            return;
        }
        if let Some(connection) = state.remote_connections.remove(connection_key) {
            let mut connection = connection;
            connection.connection_state = RemoteConnectionState::Connected;
            connection.state_changed_at = now;
            connection.retrying_since = None;
            connection.consecutive_failures = 0;
            connection.connection_id = Some(connection_id.to_owned());
            connection.last_ready_at = Some(now);
            connection.last_server_message_at = Some(now);
            put_connection(state, connection_key, connection, Ghost(before));
        }
    }
    state.last_remote_errors.remove(connection_key);
}

/// A message has come over the connection of the worker.
pub fn note_remote_connection_activity(
    state: &mut HelperState,
    connection_key: &str,
    worker_id: &str,
    now: u128,
)
    ensures
        final(state)@ == marked_active(old(state)@, connection_key@, worker_id@, now),
{
    let ghost before = state@;
    if !remote_connection_matches_worker(state, connection_key, worker_id) {
        return;
    }
    if let Some(connection) = state.remote_connections.remove(connection_key) {
        let mut connection = connection;
        connection.last_server_message_at = Some(now);
        put_connection(state, connection_key, connection, Ghost(before));
    }
}

/// The connection of the worker has failed and will be tried again.
pub fn set_remote_connection_retrying(
    state: &mut HelperState,
    connection_key: &str,
    worker_id: &str,
    error: &str,
    now: u128,
)
    requires
        run_by(old(state)@, connection_key@, worker_id@) ==> crate::sanitize::can_summarize(error@),
    ensures
        final(state)@ == marked_retrying(old(state)@, connection_key@, worker_id@, error@, now),
{
    let ghost before = state@;
    if !remote_connection_matches_worker(state, connection_key, worker_id) {
        return;
    }
    if let Some(connection) = state.remote_connections.remove(connection_key) {
        let mut connection = connection;
        connection.connection_state = RemoteConnectionState::Retrying;
        connection.state_changed_at = now;
        if connection.retrying_since.is_none() {
            connection.retrying_since = Some(now);
        }
        connection.consecutive_failures = connection.consecutive_failures.saturating_add(1);
        connection.connection_id = None;
        put_connection(state, connection_key, connection, Ghost(before));
    }
    state.last_remote_errors.insert(connection_key.to_owned(), summarize_error(error));
}

/// The connection has come to an end with an error.
pub fn set_remote_connection_error(
    state: &mut HelperState,
    connection_key: &str,
    error: &str,
    now: u128,
)
    requires
        crate::sanitize::can_summarize(error@),
    ensures
        final(state)@ == marked_broken(old(state)@, connection_key@, error@, now),
{
    let ghost before = state@;
    match state.remote_connections.remove(connection_key) {
        Some(connection) => {
            let mut connection = connection;
            connection.connection_state = RemoteConnectionState::Error;
            connection.state_changed_at = now;
            connection.connection_id = None;
            put_connection(state, connection_key, connection, Ghost(before));
        },
        None => {
            assert(state@.remote_connections =~= before.remote_connections);
        },
    }
    state.last_remote_errors.insert(connection_key.to_owned(), summarize_error(error));
}

/// The connection is to be started anew.
pub fn remote_connection_should_restart(connection: &RemoteConnectionHandle, now: u128) -> (restart:
    bool)
    ensures
        restart == stale(connection@, now),
{
    match connection.connection_state {
        RemoteConnectionState::Connecting | RemoteConnectionState::Retrying => {
            elapsed(now, connection.state_changed_at) >= REMOTE_WS_STALE_RESTART_AFTER
        },
        RemoteConnectionState::Connected | RemoteConnectionState::Error => false,
    }
}

/// The task of the connection is to be let go.
pub fn remote_connection_should_release(connection: &RemoteConnectionHandle, now: u128) -> (release:
    bool)
    ensures
        release == hopeless(connection@, now),
{
    match connection.retrying_since {
        Some(at) => elapsed(now, at) >= REMOTE_WS_STALE_RELEASE_AFTER,
        None => false,
    }
}

/// Starts a connection under the identifier of its worker.
pub fn spawn_remote_connection(
    state: &mut HelperState,
    target: &RemoteTarget,
    worker_id: &str,
    retrying_since: Option<u128>,
    consecutive_failures: u32,
    now: u128,
)
    ensures
        final(state)@ == with_connection(
            old(state)@,
            target@.connection_key,
            spawned(target@, worker_id@, retrying_since, consecutive_failures, now),
        ),
{
    let connection = RemoteConnectionHandle {
        worker_id: worker_id.to_owned(),
        remote_base_url: target.remote_base_url.clone(),
        place_id: target.place_id.clone(),
        task_id: dup_text(&target.task_id),
        connection_state: RemoteConnectionState::Connecting,
        state_changed_at: now,
        retrying_since,
        consecutive_failures,
        connection_id: None,
        last_ready_at: None,
        last_server_message_at: None,
    };
    state.remote_connections.insert(target.connection_key.clone(), connection);
}

/// Drops the plugins that were not seen for too long, but for those whose answer is awaited.
pub fn cleanup_stale_instances(state: &mut HelperState, now: u128)
    ensures
        final(state)@ == tidied(old(state)@, now),
{
    let waiting = &state.waiting_for_plugin;
    let keep = |k: &str, i: &PluginInstance| -> (r: bool)
        ensures
            r == ((exists|r: Seq<char>| #[trigger]
                waiting@.contains_key(r) && waiting@[r].instance_id == k@) || crate::clock::since(
                now,
                i@.last_seen_at,
            ) <= INSTANCE_STALE_AFTER),
    {
        let test = |r: &str, p: &PendingPluginResponse| -> (b: bool)
            ensures
                b == (p@.instance_id == k@),
        { same_text(p.instance_id.as_str(), k) };
        waiting.any(
            test,
            Ghost(|r: Seq<char>, p: PendingPluginResponseView| p.instance_id == k@),
        ) || elapsed(now, i.last_seen_at) <= INSTANCE_STALE_AFTER
    };
    let ghost before = state@;
    state.instances.retain(
        keep,
        Ghost(|k: Seq<char>, i: PluginInstanceView| may_stay(before, k, i, now)),
    );
}

/// The task that a connection key stands for.
pub open spec fn id_of_key(key: Seq<char>) -> Seq<char> {
    choose|id: Seq<char>| key == super::session::connection_key(id)
}

/// The connection of a task after a round of upkeep: started where there is none, started anew where
/// it is stale, and else as it was.
pub open spec fn upkept(
    s: HelperStateView,
    id: Seq<char>,
    workers: Map<Seq<char>, Seq<char>>,
    now: u128,
) -> RemoteConnectionHandleView {
    let key = super::session::connection_key(id);
    let c = s.remote_connections[key];
    let target = target_of(s.claimed_tasks[id]);
    if !s.remote_connections.contains_key(key) {
        spawned(target, workers[key], None, 0, now)
    } else if stale(c, now) && !hopeless(c, now) {
        spawned(target, workers[key], c.retrying_since, c.consecutive_failures, now)
    } else {
        c
    }
}

/// The connection of the task is started anew in a round of upkeep.
pub open spec fn restarted(s: HelperStateView, id: Seq<char>, now: u128) -> bool {
    let key = super::session::connection_key(id);
    s.remote_connections.contains_key(key) && stale(s.remote_connections[key], now) && !hopeless(
        s.remote_connections[key],
        now,
    )
}

/// The task is let go in a round of upkeep.
pub open spec fn given_up(s: HelperStateView, id: Seq<char>, now: u128) -> bool {
    let key = super::session::connection_key(id);
    s.claimed_tasks.contains_key(id) && s.remote_connections.contains_key(key) && hopeless(
        s.remote_connections[key],
        now,
    )
}

/// The tasks that are let go in a round of upkeep.
pub open spec fn all_given_up(s: HelperStateView, now: u128) -> Set<Seq<char>> {
    s.claimed_tasks.dom().filter(|id: Seq<char>| given_up(s, id, now))
}

/// The state without the connections that no task needs.
pub open spec fn pruned(s: HelperStateView) -> HelperStateView {
    let needed = s.claimed_tasks.dom();
    HelperStateView {
        remote_connections: crate::table::kept(
            s.remote_connections,
            |k: Seq<char>, c: RemoteConnectionHandleView| super::routing::key_of_one(k, needed),
        ),
        stop_signals: s.stop_signals.union(
            s.remote_connections.dom().filter(
                |k: Seq<char>| !super::routing::key_of_one(k, needed),
            ),
        ),
        last_remote_errors: crate::table::kept(
            s.last_remote_errors,
            |k: Seq<char>, e: Seq<char>|
                super::routing::key_of_one(k, needed) || !s.remote_connections.contains_key(k),
        ),
        ..s
    }
}

/// The state after the upkeep of the connections of `done`.
pub open spec fn upkept_for(
    s: HelperStateView,
    done: Set<Seq<char>>,
    workers: Map<Seq<char>, Seq<char>>,
    now: u128,
) -> HelperStateView {
    HelperStateView {
        remote_connections: Map::new(
            |k: Seq<char>|
                s.remote_connections.contains_key(k) || super::routing::key_of_one(k, done),
            |k: Seq<char>|
                if super::routing::key_of_one(k, done) {
                    upkept(s, id_of_key(k), workers, now)
                } else {
                    s.remote_connections[k]
                },
        ),
        stop_signals: s.stop_signals.union(
            s.remote_connections.dom().filter(
                |k: Seq<char>|
                    super::routing::key_of_one(k, done) && restarted(s, id_of_key(k), now),
            ),
        ),
        last_remote_errors: Map::new(
            |k: Seq<char>|
                s.last_remote_errors.contains_key(k) || (super::routing::key_of_one(k, done)
                    && restarted(s, id_of_key(k), now)),
            |k: Seq<char>|
                if super::routing::key_of_one(k, done) && restarted(s, id_of_key(k), now) {
                    "remote websocket retry watchdog restarted stale connection"@
                } else {
                    s.last_remote_errors[k]
                },
        ),
        ..s
    }
}

/// The state after a round of upkeep: connections that no task needs are gone, every task has one,
/// stale ones are started anew under the given worker identifiers, and tasks whose connection has
/// been tried for too long are let go.
pub open spec fn synced(
    s: HelperStateView,
    workers: Map<Seq<char>, Seq<char>>,
    now: u128,
) -> HelperStateView {
    super::routing::released(
        upkept_for(pruned(s), s.claimed_tasks.dom(), workers, now),
        all_given_up(s, now),
    )
}

/// Every key has a random worker identifier.
pub open spec fn fresh(workers: Map<Seq<char>, Seq<char>>) -> bool {
    forall|k: Seq<char>| #[trigger]
        workers.contains_key(k) && crate::ids::is_token(workers[k])
}

/// The key of a task stands for that task alone.
pub proof fn lemma_key_of_task(id: Seq<char>)
    ensures
        id_of_key(super::session::connection_key(id)) == id,
        forall|other: Seq<char>|
            super::session::connection_key(other) == super::session::connection_key(id) ==> other
                == id,
{
    let key = super::session::connection_key(id);
    let n = "task:"@.len();
    assert(key.skip(n as int) =~= id);
    assert forall|other: Seq<char>| super::session::connection_key(other) == key implies other
        == id by {
        assert(super::session::connection_key(other).skip(n as int) =~= other);
    }
    let found = id_of_key(key);
    assert(key == super::session::connection_key(found));
    assert(super::session::connection_key(found).skip(n as int) =~= found);
}

/// One more task in the upkeep.
proof fn lemma_upkept_more(
    s: HelperStateView,
    done: Set<Seq<char>>,
    id: Seq<char>,
    workers: Map<Seq<char>, Seq<char>>,
    now: u128,
)
    requires
        !done.contains(id),
    ensures
        ({
            let key = super::session::connection_key(id);
            let before = upkept_for(s, done, workers, now);
            let after = upkept_for(s, done.insert(id), workers, now);
            &&& before.remote_connections.contains_key(key) == s.remote_connections.contains_key(key)
            &&& before.remote_connections.contains_key(key) ==> before.remote_connections[key]
                == s.remote_connections[key]
            &&& after == (HelperStateView {
                remote_connections: before.remote_connections.insert(
                    key,
                    upkept(s, id, workers, now),
                ),
                stop_signals: if restarted(s, id, now) {
                    before.stop_signals.insert(key)
                } else {
                    before.stop_signals
                },
                last_remote_errors: if restarted(s, id, now) {
                    before.last_remote_errors.insert(
                        key,
                        "remote websocket retry watchdog restarted stale connection"@,
                    )
                } else {
                    before.last_remote_errors
                },
                ..before
            })
        }),
{
    let key = super::session::connection_key(id);
    let more = done.insert(id);
    let before = upkept_for(s, done, workers, now);
    let after = upkept_for(s, more, workers, now);
    lemma_key_of_task(id);
    assert(!super::routing::key_of_one(key, done));
    assert forall|k: Seq<char>| #[trigger] super::routing::key_of_one(k, more) <==> k == key
        || super::routing::key_of_one(k, done) by {
        if super::routing::key_of_one(k, done) {
            let other = choose|other: Seq<char>| #[trigger]
                done.contains(other) && k == super::session::connection_key(other);
            assert(more.contains(other));
        }
        if k == key {
            assert(more.contains(id));
        }
    }
    assert(after.remote_connections =~= before.remote_connections.insert(
        key,
        upkept(s, id, workers, now),
    ));
    assert(after.stop_signals =~= if restarted(s, id, now) {
        before.stop_signals.insert(key)
    } else {
        before.stop_signals
    });
    assert(after.last_remote_errors =~= if restarted(s, id, now) {
        before.last_remote_errors.insert(
            key,
            "remote websocket retry watchdog restarted stale connection"@,
        )
    } else {
        before.last_remote_errors
    });
}

/// Drops the connections that no task needs, with their errors.
fn prune_connections(state: &mut HelperState)
    requires
        super::task_status::records_wf(old(state)@),
    ensures
        final(state)@ == pruned(old(state)@),
{
    let ghost before = state@;
    proof {
        assert forall|k: Seq<char>| #[trigger] key_claimed(before, k) <==> super::routing::key_of_one(
            k,
            before.claimed_tasks.dom(),
        ) by {
            if key_claimed(before, k) {
                let id = choose|id: Seq<char>| #[trigger]
                    before.claimed_tasks.contains_key(id) && super::session::connection_key(
                        before.claimed_tasks[id].task_id,
                    ) == k;
                assert(before.claimed_tasks.dom().contains(id));
            }
            if super::routing::key_of_one(k, before.claimed_tasks.dom()) {
                let id = choose|id: Seq<char>| #[trigger]
                    before.claimed_tasks.dom().contains(id) && k
                        == super::session::connection_key(id);
                assert(before.claimed_tasks.contains_key(id));
            }
        }
    }
    let view: &HelperState = state;
    let test = |k: &str, c: &RemoteConnectionHandle| -> (r: bool)
        ensures
            r == !key_claimed(view@, k@),
    { !remote_connection_is_active(view, k) };
    let gone = view.remote_connections.keys_where(
        test,
        Ghost(|k: Seq<char>, c: RemoteConnectionHandleView| !key_claimed(before, k)),
    );
    let keep_connection = |k: &str, c: &RemoteConnectionHandle| -> (r: bool)
        ensures
            r == !gone@.contains(k@),
    { !gone.contains(k) };
    state.remote_connections.retain(
        keep_connection,
        Ghost(|k: Seq<char>, c: RemoteConnectionHandleView| !gone@.contains(k)),
    );
    let keep_error = |k: &str, e: &String| -> (r: bool)
        ensures
            r == !gone@.contains(k@),
    { !gone.contains(k) };
    state.last_remote_errors.retain(
        keep_error,
        Ghost(|k: Seq<char>, e: Seq<char>| !gone@.contains(k)),
    );
    state.stop_signals = state.stop_signals.union(&gone);
    assert(state@.remote_connections =~= pruned(before).remote_connections);
    assert(state@.stop_signals =~= pruned(before).stop_signals);
    assert(state@.last_remote_errors =~= pruned(before).last_remote_errors);
}

/// A round of upkeep of the connections under given worker identifiers.
pub fn sync_remote_connections_as(state: &mut HelperState, workers: &Table<String>, now: u128)
    requires
        super::task_status::records_wf(old(state)@),
        forall|id: Seq<char>| #[trigger]
            old(state)@.claimed_tasks.contains_key(id) ==> workers@.contains_key(
                super::session::connection_key(id),
            ),
    ensures
        final(state)@ == synced(old(state)@, workers@, now),
        super::task_status::records_wf(final(state)@),
{
    let ghost start = state@;
    let targets = build_active_remote_targets(state);
    prune_connections(state);
    let ghost base = state@;
    let ghost ids = crate::table::sorted(start.claimed_tasks.dom());
    let mut given_up_ids: Vec<String> = Vec::new();
    let count: usize = state.claimed_tasks.len();
    proof {
        assert(ids.len() == count);
        assert(crate::table::lists(ids, start.claimed_tasks.dom()));
        crate::table::lemma_increasing_distinct(ids);
        assert(crate::table::views(targets@).len() == targets@.len());
        assert(upkept_for(base, Set::empty(), workers@, now) =~= base) by {
            let empty = upkept_for(base, Set::empty(), workers@, now);
            assert(empty.remote_connections =~= base.remote_connections);
            assert(empty.stop_signals =~= base.stop_signals);
            assert(empty.last_remote_errors =~= base.last_remote_errors);
        }
        assert(ids.take(0).to_set() =~= Set::empty());
        assert(given_up_ids.deep_view() =~= Seq::<Seq<char>>::empty());
    }
    let mut i: usize = 0;
    while i < targets.len()
        invariant
            i <= targets@.len(),
            targets@.len() == ids.len(),
            base == pruned(start),
            ids.no_duplicates(),
            super::task_status::records_wf(start),
            crate::table::lists(ids, start.claimed_tasks.dom()),
            crate::table::views(targets@) == ids.map_values(
                |k: Seq<char>| target_of(start.claimed_tasks[k]),
            ),
            forall|id: Seq<char>| #[trigger]
                start.claimed_tasks.contains_key(id) ==> workers@.contains_key(
                    super::session::connection_key(id),
                ),
            state@ == upkept_for(base, ids.take(i as int).to_set(), workers@, now),
            forall|id: Seq<char>| #[trigger]
                given_up_ids.deep_view().contains(id) <==> ids.take(i as int).contains(id)
                    && given_up(base, id, now),
        decreases targets@.len() - i,
    {
        let target = &targets[i];
        let ghost id = ids[i as int];
        let ghost done = ids.take(i as int).to_set();
        let ghost before = state@;
        let ghost listed = given_up_ids.deep_view();
        proof {
            assert(target@ == crate::table::views(targets@)[i as int]);
            assert(ids.contains(id));
            assert(start.claimed_tasks.dom().contains(id));
            assert(start.claimed_tasks.contains_key(id));
            assert(target@ == target_of(start.claimed_tasks[id]));
            assert(!ids.take(i as int).contains(id)) by {
                if ids.take(i as int).contains(id) {
                    let j = ids.take(i as int).index_of(id);
                    assert(ids[j] == id);
                }
            }
            lemma_upkept_more(base, done, id, workers@, now);
            assert(ids.take(i + 1) =~= ids.take(i as int).push(id));
            assert(ids.take(i + 1).to_set() =~= done.insert(id)) by {
                assert forall|k: Seq<char>| #[trigger] ids.take(i + 1).contains(k) <==> k == id
                    || ids.take(i as int).contains(k) by {
                    if ids.take(i as int).contains(k) {
                        let j = ids.take(i as int).index_of(k);
                        assert(ids.take(i + 1)[j] == k);
                    }
                    assert(ids.take(i + 1)[i as int] == id);
                    if ids.take(i + 1).contains(k) && k != id {
                        let j = ids.take(i + 1).index_of(k);
                        assert(ids.take(i as int)[j] == k);
                    }
                }
            }
        }
        let worker: &str = match workers.get(target.connection_key.as_str()) {
            Some(worker) => worker.as_str(),
            None => "",
        };
        let known: Option<(bool, bool, Option<u128>, u32)> = match state.remote_connections.get(
            target.connection_key.as_str(),
        ) {
            Some(c) => Some(
                (
                    remote_connection_should_release(c, now),
                    remote_connection_should_restart(c, now),
                    c.retrying_since,
                    c.consecutive_failures,
                ),
            ),
            None => None,
        };
        match known {
            Some((release, restart, retrying_since, failures)) => {
                if release {
                    if let Some(task_id) = &target.task_id {
                        given_up_ids.push(task_id.clone());
                        assert(given_up_ids.deep_view() =~= listed.push(id));
                    }
                    assert(state@.remote_connections =~= state@.remote_connections.insert(
                        target@.connection_key,
                        base.remote_connections[target@.connection_key],
                    ));
                } else if restart {
                    state.stop_signals.insert(target.connection_key.clone());
                    state.last_remote_errors.insert(
                        target.connection_key.clone(),
                        "remote websocket retry watchdog restarted stale connection".to_owned(),
                    );
                    spawn_remote_connection(state, target, worker, retrying_since, failures, now);
                } else {
                    assert(state@.remote_connections =~= state@.remote_connections.insert(
                        target@.connection_key,
                        base.remote_connections[target@.connection_key],
                    ));
                }
            },
            None => {
                spawn_remote_connection(state, target, worker, None, 0, now);
            },
        }
        proof {
            assert(state@ == upkept_for(base, done.insert(id), workers@, now));
            assert forall|k: Seq<char>| #[trigger]
                given_up_ids.deep_view().contains(k) <==> ids.take(i + 1).contains(k) && given_up(
                    base,
                    k,
                    now,
                ) by {
                assert(ids.take(i + 1).contains(k) <==> k == id || ids.take(i as int).contains(k))
                    by {
                    assert(ids.take(i + 1).to_set().contains(k) <==> done.insert(id).contains(k));
                }
                if given_up_ids.deep_view() == listed.push(id) {
                    if listed.contains(k) {
                        assert(given_up_ids.deep_view()[listed.index_of(k)] == k);
                    }
                    assert(given_up_ids.deep_view()[listed.len() as int] == id);
                    if given_up_ids.deep_view().contains(k) && k != id {
                        assert(listed[given_up_ids.deep_view().index_of(k)] == k);
                    }
                }
            }
        }
        i = i + 1;
    }
    proof {
        assert(ids.take(ids.len() as int) =~= ids);
        assert(ids.to_set() =~= start.claimed_tasks.dom()) by {
            assert forall|k: Seq<char>| #[trigger] start.claimed_tasks.dom().contains(k)
                <==> ids.to_set().contains(k) by {}
        }
        assert(super::routing::held(state@, given_up_ids.deep_view()) =~= all_given_up(start, now))
            by {
            assert forall|k: Seq<char>| #[trigger] given_up(base, k, now) <==> given_up(start, k, now)
                by {
                if start.claimed_tasks.contains_key(k) {
                    assert(start.claimed_tasks.dom().contains(k));
                    assert(super::routing::key_of_one(
                        super::session::connection_key(k),
                        start.claimed_tasks.dom(),
                    ));
                }
            }
        }
    }
    release_listed_tasks(state, &given_up_ids, false);
}

/// A round of upkeep looks at the worker identifiers of the held tasks alone.
proof fn lemma_workers_agree(
    s: HelperStateView,
    a: Map<Seq<char>, Seq<char>>,
    b: Map<Seq<char>, Seq<char>>,
    now: u128,
)
    requires
        forall|id: Seq<char>| #[trigger]
            s.claimed_tasks.contains_key(id) ==> a[super::session::connection_key(id)]
                == b[super::session::connection_key(id)],
    ensures
        synced(s, a, now) == synced(s, b, now),
{
    let done = s.claimed_tasks.dom();
    let x = upkept_for(pruned(s), done, a, now);
    let y = upkept_for(pruned(s), done, b, now);
    assert forall|k: Seq<char>| #[trigger] super::routing::key_of_one(k, done) implies upkept(
        pruned(s),
        id_of_key(k),
        a,
        now,
    ) == upkept(pruned(s), id_of_key(k), b, now) by {
        let id = choose|id: Seq<char>| #[trigger]
            done.contains(id) && k == super::session::connection_key(id);
        lemma_key_of_task(id);
        assert(s.claimed_tasks.contains_key(id));
    }
    assert(x.remote_connections =~= y.remote_connections);
    assert(x.stop_signals =~= y.stop_signals);
    assert(x.last_remote_errors =~= y.last_remote_errors);
}

/// Some text is the text of a random UUID.
proof fn lemma_some_token() -> (token: Seq<char>)
    ensures
        crate::ids::is_token(token),
{
    let bytes = Seq::new(
        16,
        |i: int|
            if i == 6 {
                0x40u8
            } else if i == 8 {
                0x80u8
            } else {
                0u8
            },
    );
    assert(crate::ids::is_uuid(bytes, 4));
    crate::ids::hyphenated(bytes)
}

/// Takes the signals to stop: gives the keys of the connections that were dropped or replaced since
/// the signals were last taken, in order. The worker that ran such a connection is to be told to stop
/// before another is started for it.
pub fn take_stop_signals(state: &mut HelperState) -> (keys: Vec<String>)
    ensures
        keys.deep_view() == crate::table::sorted(old(state)@.stop_signals),
        final(state)@ == (HelperStateView { stop_signals: Set::empty(), ..old(state)@ }),
{
    let keys = state.stop_signals.to_sorted_vec();
    state.stop_signals = IdSet::new();
    keys
}

/// A round of upkeep of the connections, each new one under a random worker identifier.
pub fn sync_remote_connections(state: &mut HelperState, now: u128)
    requires
        super::task_status::records_wf(old(state)@),
    ensures
        exists|workers: Map<Seq<char>, Seq<char>>| #[trigger]
            fresh(workers) && final(state)@ == synced(old(state)@, workers, now),
        super::task_status::records_wf(final(state)@),
{
    let ghost start = state@;
    let mut workers: Table<String> = Table::new();
    let count: usize = state.claimed_tasks.len();
    let ghost ids = state.claimed_tasks.key_list();
    let mut i: usize = 0;
    while i < count
        invariant
            i <= count,
            state@ == start,
            ids == state.claimed_tasks.key_list(),
            count == ids.len(),
            crate::table::lists(ids, start.claimed_tasks.dom()),
            forall|k: Seq<char>| #[trigger]
                workers@.contains_key(k) ==> crate::ids::is_token(workers@[k]),
            forall|j: int|
                0 <= j < i ==> workers@.contains_key(
                    super::session::connection_key(#[trigger] ids[j]),
                ),
        decreases count - i,
    {
        let key = task_connection_key(state.claimed_tasks.key_at(i));
        workers.insert(key, new_token());
        i = i + 1;
    }
    let ghost token = lemma_some_token();
    let ghost total = Map::new(
        |k: Seq<char>| true,
        |k: Seq<char>|
            if workers@.contains_key(k) {
                workers@[k]
            } else {
                token
            },
    );
    proof {
        assert forall|id: Seq<char>| #[trigger] start.claimed_tasks.contains_key(id) implies workers@
            .contains_key(super::session::connection_key(id)) by {
            assert(start.claimed_tasks.dom().contains(id));
            let j = ids.index_of(id);
            assert(ids[j] == id);
        }
        lemma_workers_agree(start, workers@, total, now);
        assert(fresh(total));
    }
    sync_remote_connections_as(state, &workers, now);
}

/// Begins a turn of the loop that runs a connection: plugins that were not seen for too long go, and
/// the connection is set up where a task needs it; else it is dropped where the worker runs it. Tells
/// whether a session is to be run.
pub fn begin_remote_session(
    state: &mut HelperState,
    connection_key: &str,
    worker_id: &str,
    now: u128,
) -> (run: bool)
    ensures
        run == key_claimed(old(state)@, connection_key@),
        final(state)@ == session_begun(old(state)@, connection_key@, worker_id@, now),
{
    cleanup_stale_instances(state, now);
    if !remote_connection_is_active(state, connection_key) {
        drop_connection_of_worker(state, connection_key, worker_id);
        return false;
    }
    set_remote_connection_connecting(state, connection_key, worker_id, now);
    true
}

/// The state after a turn of the loop of a connection has begun.
pub open spec fn session_begun(
    s: HelperStateView,
    key: Seq<char>,
    worker_id: Seq<char>,
    now: u128,
) -> HelperStateView {
    let t = tidied(s, now);
    if !run_by(s, key, worker_id) {
        t
    } else if key_claimed(s, key) {
        with_connection(t, key, connecting(s.remote_connections[key], now))
    } else {
        without_connection(t, key)
    }
}

/// Takes down that a session has failed, where a task still needs its connection.
pub fn fail_remote_session(
    state: &mut HelperState,
    connection_key: &str,
    worker_id: &str,
    error: &str,
    now: u128,
)
    requires
        key_claimed(old(state)@, connection_key@) && run_by(
            old(state)@,
            connection_key@,
            worker_id@,
        ) ==> crate::sanitize::can_summarize(error@),
    ensures
        final(state)@ == session_failed(old(state)@, connection_key@, worker_id@, error@, now),
{
    if remote_connection_is_active(state, connection_key) {
        set_remote_connection_retrying(state, connection_key, worker_id, error, now);
    }
}

/// Drops the connection where the worker runs it.
pub fn drop_connection_of_worker(state: &mut HelperState, connection_key: &str, worker_id: &str)
    ensures
        final(state)@ == worker_left(old(state)@, connection_key@, worker_id@),
{
    if remote_connection_matches_worker(state, connection_key, worker_id) {
        state.remote_connections.remove(connection_key);
        state.last_remote_errors.remove(connection_key);
    }
}

} // verus!
