//! The life of a task: created, kept alive, recovered, released.
use vstd::prelude::*;

use super::cleanup::{clear_task_claim_state, clear_task_route_state, cleanup_stale_state};
use super::messages::{
    CreateTaskRequest, CreateTaskResponse, HubError, RecoverTaskRequest, ReleaseTaskRequest, Reply,
    TaskHeartbeatRequest,
};
use super::persist::bump_state_revision;
use super::records::{HubState, TaskRecord, TaskRoutes};
use crate::clock::Now;
use crate::fields::{require_non_empty, request_universe_id};
use crate::ids::{new_task_id, new_token};
use crate::order::same_text;
use crate::table::{dup_text, Dup, Table};
use crate::text::{concat, concat3};

verus! {

use super::messages::{
    CreateTaskRequestView, CreateTaskResponseView, RecoverTaskRequestView, ReleaseTaskRequestView,
    Step, TaskHeartbeatRequestView,
};
use super::records::{HelperRecordView, HubStateView, TaskRecordView};

/// The identity that a new task is given.
pub struct TaskIdentity {
    pub task_id: String,
    pub task_token: String,
    pub recover_token: String,
}

/// A task that is neither released nor expired serves the cluster.
pub open spec fn cluster_active(s: HubStateView, cluster_key: Seq<char>) -> bool {
    exists|k: Seq<char>| #[trigger]
        s.tasks.contains_key(k) && serves_cluster(s.tasks[k], cluster_key)
}

/// The task is neither released nor expired and serves the cluster.
pub open spec fn serves_cluster(task: TaskRecordView, cluster_key: Seq<char>) -> bool {
    !task.released && task.service_state != "expired"@ && task.cluster_key == cluster_key
}

/// The message that a cluster already has its task.
pub open spec fn cluster_message(cluster_key: Seq<char>) -> Seq<char> {
    "active task already exists for cluster_key "@ + cluster_key + "; use recover"@
}

/// The first of the fields that a new task needs, in the order in which they are read, that is
/// blank.
pub open spec fn missing_field(request: CreateTaskRequestView) -> Option<Seq<char>> {
    if crate::fields::required(request.place_id) is None {
        Some("place_id"@)
    } else if crate::fields::required(request.owner_user) is None {
        Some("owner_user"@)
    } else if crate::fields::required(request.repo) is None {
        Some("repo"@)
    } else if crate::fields::required(request.worktree_name) is None {
        Some("worktree_name"@)
    } else {
        None
    }
}

/// The record of a new task.
pub open spec fn new_task(
    request: CreateTaskRequestView,
    task_id: Seq<char>,
    task_token: Seq<char>,
    recover_token: Seq<char>,
    now: Now,
) -> TaskRecordView {
    TaskRecordView {
        task_id,
        cluster_key: crate::text::trimmed(request.cluster_key),
        task_token,
        recover_token,
        place_id: crate::text::trimmed(request.place_id),
        universe_id: crate::fields::universe(request.universe_id, request.legacy_game_id),
        owner_user: crate::text::trimmed(request.owner_user),
        repo: crate::text::trimmed(request.repo),
        worktree_name: crate::text::trimmed(request.worktree_name),
        service_state: "starting"@,
        accepting_launches: false,
        services: Map::empty(),
        routes: super::records::no_routes(),
        created_at_unix_ms: now.unix_ms,
        updated_at_unix_ms: now.unix_ms,
        last_task_heartbeat_at_unix_ms: now.unix_ms,
        last_seen_at: now.instant,
        claimed_by_helper_id: None,
        released: false,
    }
}

/// What the hub says of a task to its owner.
pub open spec fn identity_of(s: HubStateView, task: TaskRecordView) -> CreateTaskResponseView {
    CreateTaskResponseView {
        task_id: task.task_id,
        task_token: task.task_token,
        recover_token: task.recover_token,
        heartbeat_interval_sec: s.config.heartbeat_interval_sec,
        heartbeat_timeout_sec: s.config.task_heartbeat_timeout_sec,
    }
}

/// The hub with the task, one revision on.
pub open spec fn with_task(s: HubStateView, task: TaskRecordView) -> HubStateView {
    super::persist::bumped(HubStateView { tasks: s.tasks.insert(task.task_id, task), ..s })
}

/// What a request for a new task does, given the identity that the task would get.
pub open spec fn create_step(
    s: HubStateView,
    request: CreateTaskRequestView,
    task_id: Seq<char>,
    task_token: Seq<char>,
    recover_token: Seq<char>,
    now: Now,
) -> Step<CreateTaskResponseView> {
    let c = super::cleanup::cleaned(s, now);
    let task = new_task(request, task_id, task_token, recover_token, now);
    match crate::fields::required(request.cluster_key) {
        None => super::messages::refused(
            c,
            super::messages::bad_request(crate::fields::empty_message("cluster_key"@)),
        ),
        Some(cluster_key) => {
            if cluster_active(c, cluster_key) {
                super::messages::refused(
                    c,
                    super::messages::bad_request(cluster_message(cluster_key)),
                )
            } else {
                match missing_field(request) {
                    Some(label) => super::messages::refused(
                        c,
                        super::messages::bad_request(crate::fields::empty_message(label)),
                    ),
                    None => Step {
                        state: with_task(c, task),
                        result: Ok(identity_of(c, task)),
                        persist: true,
                    },
                }
            }
        },
    }
}

/// The message that there is no such task.
pub open spec fn no_task_message(task_id: Seq<char>) -> Seq<char> {
    "task not found: "@ + task_id
}

/// Why a request to recover the task is refused.
pub open spec fn recover_refusal(task: TaskRecordView, request: RecoverTaskRequestView) -> Option<
    Seq<char>,
> {
    if task.cluster_key != request.cluster_key {
        Some("cluster_key mismatch for recover"@)
    } else if task.recover_token != request.recover_token {
        Some("recover_token mismatch"@)
    } else if task.released {
        Some("released task cannot be recovered: "@ + request.task_id)
    } else {
        None
    }
}

/// The task after its owner took it over again.
pub open spec fn task_recovered(
    task: TaskRecordView,
    request: RecoverTaskRequestView,
    task_token: Seq<char>,
    now: Now,
) -> TaskRecordView {
    let named = crate::fields::universe(request.universe_id, request.legacy_game_id);
    TaskRecordView {
        task_token,
        universe_id: if named is Some {
            named
        } else {
            task.universe_id
        },
        service_state: "recovering"@,
        updated_at_unix_ms: now.unix_ms,
        last_task_heartbeat_at_unix_ms: now.unix_ms,
        last_seen_at: now.instant,
        ..super::cleanup::cleared(task)
    }
}

/// What a request to recover a task does, given the token that the task would get.
pub open spec fn recover_step(
    s: HubStateView,
    request: RecoverTaskRequestView,
    task_token: Seq<char>,
    now: Now,
) -> Step<CreateTaskResponseView> {
    let c = super::cleanup::cleaned(s, now);
    if !c.tasks.contains_key(request.task_id) {
        super::messages::refused(
            c,
            super::messages::bad_request(no_task_message(request.task_id)),
        )
    } else {
        let task = c.tasks[request.task_id];
        let after = task_recovered(task, request, task_token, now);
        match recover_refusal(task, request) {
            Some(message) => super::messages::refused(c, super::messages::bad_request(message)),
            None => Step {
                state: with_task(c, after),
                result: Ok(identity_of(c, after)),
                persist: true,
            },
        }
    }
}

/// Why a heartbeat for the task is refused.
pub open spec fn heartbeat_refusal(task: TaskRecordView, request: TaskHeartbeatRequestView) -> Option<
    Seq<char>,
> {
    if task.task_token != request.task_token {
        Some("task token mismatch"@)
    } else if task.released {
        Some("released task cannot accept heartbeat"@)
    } else if task.service_state == "expired"@ {
        Some("expired task requires recover before heartbeat"@)
    } else if crate::fields::required(request.service_state) is None {
        Some(crate::fields::empty_message("service_state"@))
    } else {
        None
    }
}

/// The task after a heartbeat.
pub open spec fn task_heard(task: TaskRecordView, request: TaskHeartbeatRequestView, now: Now) -> TaskRecordView {
    TaskRecordView {
        service_state: crate::text::trimmed(request.service_state),
        accepting_launches: request.accepting_launches,
        routes: request.routes,
        services: request.services,
        updated_at_unix_ms: now.unix_ms,
        last_task_heartbeat_at_unix_ms: now.unix_ms,
        last_seen_at: now.instant,
        ..task
    }
}

/// What a heartbeat for a task does.
pub open spec fn heartbeat_step(s: HubStateView, request: TaskHeartbeatRequestView, now: Now) -> Step<
    (),
> {
    let c = super::cleanup::cleaned(s, now);
    if !c.tasks.contains_key(request.task_id) {
        super::messages::refused(
            c,
            super::messages::bad_request(no_task_message(request.task_id)),
        )
    } else {
        let task = c.tasks[request.task_id];
        match heartbeat_refusal(task, request) {
            Some(message) => super::messages::refused(c, super::messages::bad_request(message)),
            None => Step {
                state: with_task(c, task_heard(task, request, now)),
                result: Ok(()),
                persist: true,
            },
        }
    }
}

/// The task after its release.
pub open spec fn task_released(task: TaskRecordView, now: Now) -> TaskRecordView {
    TaskRecordView {
        service_state: "released"@,
        released: true,
        updated_at_unix_ms: now.unix_ms,
        ..super::cleanup::cleared(task)
    }
}

/// The helpers after the one that held the task let it go.
pub open spec fn task_dropped(
    helpers: Map<Seq<char>, HelperRecordView>,
    holder: Option<Seq<char>>,
    task_id: Seq<char>,
) -> Map<Seq<char>, HelperRecordView> {
    match holder {
        Some(h) if helpers.contains_key(h) => helpers.insert(
            h,
            HelperRecordView {
                active_task_ids: helpers[h].active_task_ids.remove(task_id),
                active_tasks: helpers[h].active_tasks.remove(task_id),
                ..helpers[h]
            },
        ),
        _ => helpers,
    }
}

/// What a request to release a task does.
pub open spec fn release_step(s: HubStateView, request: ReleaseTaskRequestView, now: Now) -> Step<()> {
    let c = super::cleanup::cleaned(s, now);
    if !c.tasks.contains_key(request.task_id) {
        super::messages::refused(
            c,
            super::messages::bad_request(no_task_message(request.task_id)),
        )
    } else {
        let task = c.tasks[request.task_id];
        if task.task_token != request.task_token {
            super::messages::refused(c, super::messages::bad_request("task token mismatch"@))
        } else {
            let dropped = HubStateView {
                helpers: task_dropped(c.helpers, task.claimed_by_helper_id, request.task_id),
                ..c
            };
            Step {
                state: with_task(dropped, task_released(task, now)),
                result: Ok(()),
                persist: true,
            }
        }
    }
}

fn refuse<T: View>(message: String) -> (reply: Reply<T>)
    ensures
        super::messages::result_view(reply.result) == Err::<T::V, super::messages::HubErrorView>(
            super::messages::bad_request(message@),
        ),
        reply.snapshot is None,
{
    Reply::refusal(HubError::bad_request(message))
}

/// Serves a request for a new task that would get the given identity.
pub fn create_task_as(
    state: &mut HubState,
    request: &CreateTaskRequest,
    identity: TaskIdentity,
    now: Now,
) -> (reply: Reply<CreateTaskResponse>)
    requires
        old(state).wf(),
    ensures
        final(state).wf(),
        super::messages::agrees(
            reply,
            final(state)@,
            create_step(
                old(state)@,
                request@,
                identity.task_id@,
                identity.task_token@,
                identity.recover_token@,
                now,
            ),
        ),
{
    let _ = cleanup_stale_state(state, now);
    let cluster_key = match require_non_empty(request.cluster_key.as_str(), "cluster_key") {
        Ok(text) => text,
        Err(message) => return refuse(message),
    };
    let wanted = cluster_key.as_str();
    let test = |k: &str, t: &TaskRecord| -> (r: bool)
        ensures
            r == serves_cluster(t@, wanted@),
    {
        !t.released && !same_text(t.service_state.as_str(), "expired") && same_text(
            t.cluster_key.as_str(),
            wanted,
        )
    };
    if state.tasks.any(test, Ghost(|k: Seq<char>, t: TaskRecordView| serves_cluster(t, wanted@))) {
        return refuse(
            concat3(
                "active task already exists for cluster_key ",
                cluster_key.as_str(),
                "; use recover",
            ),
        );
    }
    let place_id = match require_non_empty(request.place_id.as_str(), "place_id") {
        Ok(text) => text,
        Err(message) => return refuse(message),
    };
    let owner_user = match require_non_empty(request.owner_user.as_str(), "owner_user") {
        Ok(text) => text,
        Err(message) => return refuse(message),
    };
    let repo = match require_non_empty(request.repo.as_str(), "repo") {
        Ok(text) => text,
        Err(message) => return refuse(message),
    };
    let worktree_name = match require_non_empty(request.worktree_name.as_str(), "worktree_name") {
        Ok(text) => text,
        Err(message) => return refuse(message),
    };
    let TaskIdentity { task_id, task_token, recover_token } = identity;
    let ghost c = state@;
    let task = TaskRecord {
        task_id: task_id.clone(),
        cluster_key,
        task_token: task_token.clone(),
        recover_token: recover_token.clone(),
        place_id,
        universe_id: request_universe_id(&request.universe_id, &request.legacy_game_id),
        owner_user,
        repo,
        worktree_name,
        service_state: "starting".to_owned(),
        accepting_launches: false,
        services: Table::new(),
        routes: TaskRoutes::default(),
        created_at_unix_ms: now.unix_ms,
        updated_at_unix_ms: now.unix_ms,
        last_task_heartbeat_at_unix_ms: now.unix_ms,
        last_seen_at: now.instant,
        claimed_by_helper_id: None,
        released: false,
    };
    state.tasks.insert(task_id.clone(), task);
    let snapshot = bump_state_revision(state);
    Reply {
        result: Ok(
            CreateTaskResponse {
                task_id,
                task_token,
                recover_token,
                heartbeat_interval_sec: state.config.heartbeat_interval_sec,
                heartbeat_timeout_sec: state.config.task_heartbeat_timeout_sec,
            },
        ),
        snapshot: Some(snapshot),
    }
}

/// Serves a request for a new task with a fresh identity.
///
/// Nothing is said of the bits of the identity that chance decides.
pub fn create_task(state: &mut HubState, request: &CreateTaskRequest, now: Now) -> (reply: Reply<
    CreateTaskResponse,
>)
    requires
        old(state).wf(),
    ensures
        final(state).wf(),
        exists|task_id: Seq<char>, task_token: Seq<char>, recover_token: Seq<char>|
            {
                &&& crate::ids::is_short_id(task_id, "t"@)
                &&& crate::ids::is_token(task_token)
                &&& crate::ids::is_token(recover_token)
                &&& super::messages::agrees(
                    reply,
                    final(state)@,
                    #[trigger] create_step(
                        old(state)@,
                        request@,
                        task_id,
                        task_token,
                        recover_token,
                        now,
                    ),
                )
            },
{
    let identity = TaskIdentity {
        task_id: new_task_id(),
        task_token: new_token(),
        recover_token: new_token(),
    };
    create_task_as(state, request, identity, now)
}

/// Serves a request to recover a task that would get the given token.
pub fn recover_task_as(
    state: &mut HubState,
    request: &RecoverTaskRequest,
    task_token: String,
    now: Now,
) -> (reply: Reply<CreateTaskResponse>)
    requires
        old(state).wf(),
    ensures
        final(state).wf(),
        super::messages::agrees(
            reply,
            final(state)@,
            recover_step(old(state)@, request@, task_token@, now),
        ),
{
    let _ = cleanup_stale_state(state, now);
    let ghost c = state@;
    let refusal = match state.tasks.get(request.task_id.as_str()) {
        None => Some(concat("task not found: ", request.task_id.as_str())),
        Some(task) => {
            if !same_text(task.cluster_key.as_str(), request.cluster_key.as_str()) {
                Some("cluster_key mismatch for recover".to_owned())
            } else if !same_text(task.recover_token.as_str(), request.recover_token.as_str()) {
                Some("recover_token mismatch".to_owned())
            } else if task.released {
                Some(concat("released task cannot be recovered: ", request.task_id.as_str()))
            } else {
                None
            }
        },
    };
    if let Some(message) = refusal {
        return refuse(message);
    }
    match state.tasks.remove(request.task_id.as_str()) {
        None => refuse(concat("task not found: ", request.task_id.as_str())),
        Some(task) => {
            let mut task = task;
            task.task_token = task_token;
            let named = request_universe_id(&request.universe_id, &request.legacy_game_id);
            if named.is_some() {
                task.universe_id = named;
            }
            task.service_state = "recovering".to_owned();
            clear_task_claim_state(&mut task);
            clear_task_route_state(&mut task);
            task.updated_at_unix_ms = now.unix_ms;
            task.last_task_heartbeat_at_unix_ms = now.unix_ms;
            task.last_seen_at = now.instant;
            let response = CreateTaskResponse {
                task_id: task.task_id.clone(),
                task_token: task.task_token.clone(),
                recover_token: task.recover_token.clone(),
                heartbeat_interval_sec: state.config.heartbeat_interval_sec,
                heartbeat_timeout_sec: state.config.task_heartbeat_timeout_sec,
            };
            let ghost after = task@;
            state.tasks.insert(request.task_id.clone(), task);
            assert(state.tasks@ =~= c.tasks.insert(after.task_id, after));
            let snapshot = bump_state_revision(state);
            Reply { result: Ok(response), snapshot: Some(snapshot) }
        },
    }
}

/// Serves a request to recover a task, which gets a fresh token.
///
/// Nothing is said of the bits of the token that chance decides.
pub fn recover_task(state: &mut HubState, request: &RecoverTaskRequest, now: Now) -> (reply: Reply<
    CreateTaskResponse,
>)
    requires
        old(state).wf(),
    ensures
        final(state).wf(),
        exists|task_token: Seq<char>|
            {
                &&& crate::ids::is_token(task_token)
                &&& super::messages::agrees(
                    reply,
                    final(state)@,
                    #[trigger] recover_step(old(state)@, request@, task_token, now),
                )
            },
{
    let task_token = new_token();
    recover_task_as(state, request, task_token, now)
}

/// Serves a heartbeat for a task.
pub fn task_heartbeat(state: &mut HubState, request: &TaskHeartbeatRequest, now: Now) -> (reply:
    Reply<()>)
    requires
        old(state).wf(),
    ensures
        final(state).wf(),
        super::messages::agrees(reply, final(state)@, heartbeat_step(old(state)@, request@, now)),
{
    let _ = cleanup_stale_state(state, now);
    let ghost c = state@;
    let refusal = match state.tasks.get(request.task_id.as_str()) {
        None => Some(concat("task not found: ", request.task_id.as_str())),
        Some(task) => {
            if !same_text(task.task_token.as_str(), request.task_token.as_str()) {
                Some("task token mismatch".to_owned())
            } else if task.released {
                Some("released task cannot accept heartbeat".to_owned())
            } else if same_text(task.service_state.as_str(), "expired") {
                Some("expired task requires recover before heartbeat".to_owned())
            } else {
                None
            }
        },
    };
    if let Some(message) = refusal {
        return refuse(message);
    }
    let service_state = match require_non_empty(request.service_state.as_str(), "service_state") {
        Ok(text) => text,
        Err(message) => return refuse(message),
    };
    match state.tasks.remove(request.task_id.as_str()) {
        None => refuse(concat("task not found: ", request.task_id.as_str())),
        Some(task) => {
            let mut task = task;
            task.service_state = service_state;
            task.accepting_launches = request.accepting_launches;
            task.routes = request.routes.dup();
            task.services = request.services.dup();
            task.updated_at_unix_ms = now.unix_ms;
            task.last_task_heartbeat_at_unix_ms = now.unix_ms;
            task.last_seen_at = now.instant;
            let ghost after = task@;
            state.tasks.insert(request.task_id.clone(), task);
            assert(state.tasks@ =~= c.tasks.insert(after.task_id, after));
            let snapshot = bump_state_revision(state);
            Reply { result: Ok(()), snapshot: Some(snapshot) }
        },
    }
}

/// Serves a request to release a task.
pub fn release_task(state: &mut HubState, request: &ReleaseTaskRequest, now: Now) -> (reply: Reply<()>)
    requires
        old(state).wf(),
    ensures
        final(state).wf(),
        super::messages::agrees(reply, final(state)@, release_step(old(state)@, request@, now)),
{
    let _ = cleanup_stale_state(state, now);
    let ghost c = state@;
    let refusal = match state.tasks.get(request.task_id.as_str()) {
        None => Some(concat("task not found: ", request.task_id.as_str())),
        Some(task) => {
            if !same_text(task.task_token.as_str(), request.task_token.as_str()) {
                Some("task token mismatch".to_owned())
            } else {
                None
            }
        },
    };
    if let Some(message) = refusal {
        return refuse(message);
    }
    match state.tasks.remove(request.task_id.as_str()) {
        None => refuse(concat("task not found: ", request.task_id.as_str())),
        Some(task) => {
            let mut task = task;
            let holder = dup_text(&task.claimed_by_helper_id);
            task.service_state = "released".to_owned();
            clear_task_claim_state(&mut task);
            clear_task_route_state(&mut task);
            task.released = true;
            task.updated_at_unix_ms = now.unix_ms;
            let ghost after = task@;
            state.tasks.insert(request.task_id.clone(), task);
            assert(state.tasks@ =~= c.tasks.insert(after.task_id, after));
            if let Some(helper_id) = &holder {
                if let Some(helper) = state.helpers.remove(helper_id.as_str()) {
                    let mut helper = helper;
                    helper.active_task_ids.remove(request.task_id.as_str());
                    helper.active_tasks.remove(request.task_id.as_str());
                    state.helpers.insert(helper_id.clone(), helper);
                }
            }
            assert(state.helpers@ =~= task_dropped(c.helpers, holder.deep_view(), request.task_id@));
            let snapshot = bump_state_revision(state);
            Reply { result: Ok(()), snapshot: Some(snapshot) }
        },
    }
}

} // verus!
