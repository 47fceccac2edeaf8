//! The life of a helper: it registers, reports, claims tasks, and may be blocked and drained.
use vstd::prelude::*;

use super::cleanup::{claimed_by, cleanup_stale_state, force_due_blocked_helper_drains};
use super::messages::{
    BlockHelperRequest, BlockHelperResponse, ClaimTaskRequest, ClaimTaskResponse,
    ClaimedTaskPayload, HelperHeartbeatHubResponse, HelperHeartbeatRequest, HubError,
    RegisterHelperRequest, RegisterHelperResponse, Reply, UnblockHelperRequest,
};
use super::persist::{bump_if, bump_state_revision, sorted_strings};
use super::records::{
    BlockedHelperRecord, HelperActiveTaskRecord, HelperRecord, HubState, TaskRecord,
};
use crate::clock::{duration_ms, elapsed_ms, Now};
use crate::debug::list_text;
use crate::fields::{normalize_optional_text, require_non_empty};
use crate::order::same_text;
use crate::table::{dup_text, Dup, IdSet, Table};
use crate::text::{concat, concat3, decimal_text};

verus! {

use super::messages::{
    BlockHelperRequestView, BlockHelperResponseView, ClaimTaskRequestView, ClaimTaskResponseView,
    ClaimedTaskPayloadView, HelperHeartbeatHubResponseView, HelperHeartbeatRequestView,
    HubErrorView, RegisterHelperRequestView, RegisterHelperResponseView, Step,
    UnblockHelperRequestView,
};
use super::records::{
    BlockedHelperRecordView, HelperActiveTaskRecordView, HelperRecordView, HubStateView,
    TaskRecordView,
};

/// The message that a helper is blocked.
pub open spec fn blocked_message(helper_id: Seq<char>) -> Seq<char> {
    "helper_id is blocked: "@ + helper_id
}

/// The message that a helper of this name is alive.
pub open spec fn alive_message(helper_id: Seq<char>, age_ms: u128) -> Seq<char> {
    "helper_id already active: "@ + helper_id
        + "; existing helper is still alive (last_seen_age_ms="@ + crate::text::decimal(age_ms as nat)
        + ")"@
}

/// The record of a helper that has just registered.
pub open spec fn new_helper(request: RegisterHelperRequestView, now: Now) -> HelperRecordView {
    HelperRecordView {
        helper_id: crate::text::trimmed(request.helper_id),
        owner_user: crate::text::trimmed(request.owner_user),
        platform: crate::text::trimmed(request.platform),
        capacity: request.capacity,
        labels: request.labels,
        active_task_ids: Set::empty(),
        active_tasks: Map::empty(),
        registered_at_unix_ms: now.unix_ms,
        last_seen_at: now.instant,
    }
}

/// What a registration does: a blocked helper and the name of a live helper are refused.
pub open spec fn register_step(s: HubStateView, request: RegisterHelperRequestView, now: Now) -> Step<
    RegisterHelperResponseView,
> {
    let c = super::cleanup::cleaned(s, now);
    let changed = super::cleanup::cleanup_changes(s, now);
    let saved = super::persist::bumped_if(c, changed);
    match crate::fields::required(request.helper_id) {
        None => super::messages::refused(
            c,
            super::messages::bad_request(crate::fields::empty_message("helper_id"@)),
        ),
        Some(id) => {
            if c.blocked_helpers.contains_key(id) {
                Step {
                    state: saved,
                    result: Err(
                        super::messages::forbidden("helper_id_blocked"@, blocked_message(id)),
                    ),
                    persist: changed,
                }
            } else if c.helpers.contains_key(id) {
                Step {
                    state: saved,
                    result: Err(
                        super::messages::conflict(
                            "helper_id_conflict"@,
                            alive_message(
                                id,
                                crate::clock::since_ms(now.instant, c.helpers[id].last_seen_at),
                            ),
                        ),
                    ),
                    persist: changed,
                }
            } else if crate::fields::required(request.owner_user) is None {
                super::messages::refused(
                    c,
                    super::messages::bad_request(crate::fields::empty_message("owner_user"@)),
                )
            } else if crate::fields::required(request.platform) is None {
                super::messages::refused(
                    c,
                    super::messages::bad_request(crate::fields::empty_message("platform"@)),
                )
            } else {
                Step {
                    state: super::persist::bumped_if(
                        HubStateView {
                            helpers: c.helpers.insert(id, new_helper(request, now)),
                            ..c
                        },
                        changed,
                    ),
                    result: Ok(
                        RegisterHelperResponseView {
                            helper_id: id,
                            heartbeat_interval_sec: c.config.heartbeat_interval_sec,
                            heartbeat_timeout_sec: c.config.helper_heartbeat_timeout_sec,
                        },
                    ),
                    persist: changed,
                }
            }
        },
    }
}

/// The refusal of a hub whose administration is switched off.
pub open spec fn admin_disabled() -> HubErrorView {
    super::messages::forbidden(
        "helper_admin_disabled"@,
        "helper admin endpoints are server-admin-only and disabled for this hub process"@,
    )
}

/// The tasks that `helper_id` claims.
pub open spec fn claims_of(tasks: Map<Seq<char>, TaskRecordView>, helper_id: Seq<char>) -> Set<
    Seq<char>,
> {
    Set::new(|k: Seq<char>| super::persist::holds(tasks, helper_id, k))
}

/// The record of the helper `id` once it is blocked: the drain of an earlier block goes on, and
/// waits for every task that the helper claims.
pub open spec fn block_record(
    c: HubStateView,
    id: Seq<char>,
    reason: Option<Seq<char>>,
    now: Now,
) -> BlockedHelperRecordView {
    let reported = if c.helpers.contains_key(id) {
        c.helpers[id].active_task_ids
    } else {
        Set::empty()
    };
    let given = crate::fields::optional(reason);
    if c.blocked_helpers.contains_key(id) {
        let earlier = c.blocked_helpers[id];
        BlockedHelperRecordView {
            helper_id: id,
            reason: if given is Some {
                given
            } else {
                earlier.reason
            },
            blocked_at_unix_ms: now.unix_ms,
            drain_started_at_unix_ms: earlier.drain_started_at_unix_ms,
            drain_deadline_at_unix_ms: earlier.drain_deadline_at_unix_ms,
            pending_task_ids: claims_of(c.tasks, id),
            last_reported_task_ids: if reported == Set::<Seq<char>>::empty() {
                earlier.last_reported_task_ids
            } else {
                reported
            },
            last_release_requested_at_unix_ms: earlier.last_release_requested_at_unix_ms,
            last_seen_at_unix_ms: earlier.last_seen_at_unix_ms,
            force_released_task_ids: earlier.force_released_task_ids,
        }
    } else {
        BlockedHelperRecordView {
            helper_id: id,
            reason: given,
            blocked_at_unix_ms: now.unix_ms,
            drain_started_at_unix_ms: now.unix_ms,
            drain_deadline_at_unix_ms: crate::clock::more(
                now.unix_ms,
                crate::clock::seconds_ms(c.config.helper_heartbeat_timeout_sec),
            ),
            pending_task_ids: claims_of(c.tasks, id),
            last_reported_task_ids: reported,
            last_release_requested_at_unix_ms: None,
            last_seen_at_unix_ms: None,
            force_released_task_ids: Set::empty(),
        }
    }
}

/// What a request to block a helper does.
pub open spec fn block_step(
    s: HubStateView,
    allow_helper_admin: bool,
    request: BlockHelperRequestView,
    now: Now,
) -> Step<BlockHelperResponseView> {
    let c = super::cleanup::cleaned(s, now);
    if !allow_helper_admin {
        super::messages::refused(s, admin_disabled())
    } else {
        match crate::fields::required(request.helper_id) {
            None => super::messages::refused(
                c,
                super::messages::bad_request(crate::fields::empty_message("helper_id"@)),
            ),
            Some(id) => Step {
                state: super::persist::bumped(
                    HubStateView {
                        helpers: c.helpers.remove(id),
                        blocked_helpers: c.blocked_helpers.insert(
                            id,
                            block_record(c, id, request.reason, now),
                        ),
                        ..c
                    },
                ),
                result: Ok(BlockHelperResponseView { ok: true, helper_id: id, blocked: true }),
                persist: true,
            },
        }
    }
}

/// The message that a drain goes on.
pub open spec fn draining_message(id: Seq<char>, pending: Set<Seq<char>>) -> Seq<char> {
    "helper drain is still pending: "@ + id + "; pending_task_ids="@ + crate::debug::debug_list(
        crate::table::sorted(pending),
    )
}

/// What a request to unblock a helper does: while its drain waits for tasks it is refused.
pub open spec fn unblock_step(
    s: HubStateView,
    allow_helper_admin: bool,
    request: UnblockHelperRequestView,
    now: Now,
) -> Step<BlockHelperResponseView> {
    let c = super::cleanup::cleaned(s, now);
    let changed = super::cleanup::cleanup_changes(s, now);
    if !allow_helper_admin {
        super::messages::refused(s, admin_disabled())
    } else {
        match crate::fields::required(request.helper_id) {
            None => super::messages::refused(
                c,
                super::messages::bad_request(crate::fields::empty_message("helper_id"@)),
            ),
            Some(id) => {
                let blocked = c.blocked_helpers.contains_key(id);
                let pending = c.blocked_helpers[id].pending_task_ids;
                if blocked && pending != Set::<Seq<char>>::empty() {
                    Step {
                        state: super::persist::bumped_if(c, changed),
                        result: Err(
                            super::messages::conflict(
                                "helper_drain_pending"@,
                                draining_message(id, pending),
                            ),
                        ),
                        persist: changed,
                    }
                } else {
                    Step {
                        state: super::persist::bumped_if(
                            HubStateView { blocked_helpers: c.blocked_helpers.remove(id), ..c },
                            changed || blocked,
                        ),
                        result: Ok(
                            BlockHelperResponseView { ok: true, helper_id: id, blocked: false },
                        ),
                        persist: changed || blocked,
                    }
                }
            },
        }
    }
}

/// The tasks that a helper reports, by identifier alone or with details.
pub open spec fn reported_tasks(request: HelperHeartbeatRequestView) -> Set<Seq<char>> {
    request.active_task_ids.to_set().union(
        request.active_tasks.map_values(|t: HelperActiveTaskRecordView| t.task_id).to_set(),
    )
}

/// The hub after a blocked helper reported: the tasks that its drain waited for and that it no
/// longer has are free.
pub open spec fn blocked_heard(
    c: HubStateView,
    id: Seq<char>,
    reported: Set<Seq<char>>,
    now: Now,
) -> HubStateView {
    let drain = c.blocked_helpers[id];
    let acked = drain.pending_task_ids.difference(reported);
    let after = HubStateView {
        tasks: c.tasks.map_entries(
            |k: Seq<char>, t: TaskRecordView|
                if acked.contains(k) {
                    super::cleanup::freed_from(t, id, now.unix_ms)
                } else {
                    t
                },
        ),
        helpers: c.helpers.remove(id),
        blocked_helpers: c.blocked_helpers.insert(
            id,
            BlockedHelperRecordView {
                pending_task_ids: drain.pending_task_ids.intersect(reported),
                last_seen_at_unix_ms: Some(now.unix_ms),
                last_reported_task_ids: reported,
                last_release_requested_at_unix_ms: if reported != Set::<Seq<char>>::empty() {
                    Some(now.unix_ms)
                } else {
                    drain.last_release_requested_at_unix_ms
                },
                ..drain
            },
        ),
        ..c
    };
    super::cleanup::drains_forced(after, now.unix_ms)
}

/// The task, free if `id` claims it and does not report it.
pub open spec fn task_heard_of(
    task: TaskRecordView,
    id: Seq<char>,
    reported: Set<Seq<char>>,
    now: Now,
) -> TaskRecordView {
    if reported.contains(task.task_id) {
        task
    } else {
        super::cleanup::freed_from(task, id, now.unix_ms)
    }
}

/// The tasks after `id` reported: those it claims and does not report are free.
pub open spec fn tasks_heard_of(
    tasks: Map<Seq<char>, TaskRecordView>,
    id: Seq<char>,
    reported: Set<Seq<char>>,
    now: Now,
) -> Map<Seq<char>, TaskRecordView> {
    tasks.map_entries(|k: Seq<char>, t: TaskRecordView| task_heard_of(t, id, reported, now))
}

/// The task is the live task `task_id` that `helper_id` claims.
pub open spec fn serves(task: TaskRecordView, helper_id: Seq<char>, task_id: Seq<char>) -> bool {
    &&& !task.released
    &&& task.service_state != "expired"@
    &&& task.task_id == task_id
    &&& task.claimed_by_helper_id == Some(helper_id)
}

/// The tasks that `id` claims and does not report.
pub open spec fn lost_claims(
    tasks: Map<Seq<char>, TaskRecordView>,
    id: Seq<char>,
    reported: Set<Seq<char>>,
) -> Set<Seq<char>> {
    claims_of(tasks, id).difference(reported)
}

/// The tasks that `id` has to let go: those it claims and does not report, and those it reports and
/// does not serve.
pub open spec fn to_release(
    tasks: Map<Seq<char>, TaskRecordView>,
    id: Seq<char>,
    reported: Set<Seq<char>>,
) -> Set<Seq<char>> {
    lost_claims(tasks, id, reported).union(
        reported.filter(|t: Seq<char>| !(tasks.contains_key(t) && serves(tasks[t], id, t))),
    )
}

/// The detailed reports on the tasks in `ids`, by task; the last report on a task counts.
pub open spec fn reports_on(list: Seq<HelperActiveTaskRecordView>, ids: Set<Seq<char>>) -> Map<
    Seq<char>,
    HelperActiveTaskRecordView,
>
    decreases list.len(),
{
    if list.len() == 0 {
        Map::empty()
    } else {
        let rest = reports_on(list.drop_last(), ids);
        if ids.contains(list.last().task_id) {
            rest.insert(list.last().task_id, list.last())
        } else {
            rest
        }
    }
}

/// The helper after its report.
pub open spec fn helper_heard(
    helper: HelperRecordView,
    request: HelperHeartbeatRequestView,
    kept: Set<Seq<char>>,
    now: Now,
) -> HelperRecordView {
    HelperRecordView {
        last_seen_at: now.instant,
        active_task_ids: kept,
        active_tasks: reports_on(request.active_tasks, kept),
        ..helper
    }
}

/// The message that there is no such helper.
pub open spec fn no_helper_message(helper_id: Seq<char>) -> Seq<char> {
    "helper not found: "@ + helper_id
}

/// What a report of a helper does.
pub open spec fn report_step(s: HubStateView, request: HelperHeartbeatRequestView, now: Now) -> Step<
    HelperHeartbeatHubResponseView,
> {
    let c = super::cleanup::cleaned(s, now);
    let id = request.helper_id;
    let reported = reported_tasks(request);
    if c.blocked_helpers.contains_key(id) {
        Step {
            state: super::persist::bumped(blocked_heard(c, id, reported, now)),
            result: Ok(
                HelperHeartbeatHubResponseView {
                    ok: false,
                    release_task_ids: crate::table::sorted(reported),
                },
            ),
            persist: true,
        }
    } else {
        let heard = HubStateView { tasks: tasks_heard_of(c.tasks, id, reported, now), ..c };
        let changed = super::cleanup::cleanup_changes(s, now) || lost_claims(c.tasks, id, reported)
            != Set::<Seq<char>>::empty();
        let release = to_release(c.tasks, id, reported);
        if !c.helpers.contains_key(id) {
            Step {
                state: super::persist::bumped_if(heard, changed),
                result: Err(super::messages::bad_request(no_helper_message(id))),
                persist: changed,
            }
        } else {
            let kept = reported.difference(release);
            Step {
                state: super::persist::bumped_if(
                    HubStateView {
                        helpers: c.helpers.insert(
                            id,
                            helper_heard(c.helpers[id], request, kept, now),
                        ),
                        ..heard
                    },
                    changed,
                ),
                result: Ok(
                    HelperHeartbeatHubResponseView {
                        ok: true,
                        release_task_ids: crate::table::sorted(release),
                    },
                ),
                persist: changed,
            }
        }
    }
}

/// The task waits for a helper of `owner`.
pub open spec fn claimable(task: TaskRecordView, owner: Seq<char>) -> bool {
    &&& !task.released
    &&& task.service_state == "ready"@
    &&& task.accepting_launches
    &&& task.claimed_by_helper_id is None
    &&& task.owner_user == owner
    &&& task.routes.mcp_base_url is Some
}

/// Among the tasks that wait for a helper of `owner`, `k` is the one to give out: the one that was
/// created first, and of several such the one whose identifier comes first.
pub open spec fn next_claim(tasks: Map<Seq<char>, TaskRecordView>, owner: Seq<char>, k: Seq<char>) -> bool {
    &&& tasks.contains_key(k)
    &&& claimable(tasks[k], owner)
    &&& forall|j: Seq<char>| #[trigger]
        tasks.contains_key(j) && claimable(tasks[j], owner) && j != k ==> tasks[k].created_at_unix_ms
            < tasks[j].created_at_unix_ms || (tasks[k].created_at_unix_ms
            == tasks[j].created_at_unix_ms && crate::order::lex_lt(k, j))
}

/// What a helper is told of the task that it was given.
pub open spec fn claim_payload(task: TaskRecordView) -> ClaimedTaskPayloadView {
    ClaimedTaskPayloadView {
        task_id: task.task_id,
        place_id: task.place_id,
        universe_id: task.universe_id,
        owner_user: task.owner_user,
        repo: task.repo,
        worktree_name: task.worktree_name,
        routes: task.routes,
    }
}

/// The answer that there is nothing to do.
pub open spec fn no_claim(c: HubStateView, changed: bool, id: Seq<char>) -> Step<ClaimTaskResponseView> {
    Step {
        state: super::persist::bumped_if(c, changed),
        result: Ok(ClaimTaskResponseView { claimed: false, helper_id: id, task: None }),
        persist: changed,
    }
}

/// The hub after `id` was given the task `k`.
pub open spec fn claim_made(c: HubStateView, id: Seq<char>, k: Seq<char>, now: Now) -> HubStateView {
    let helper = c.helpers[id];
    HubStateView {
        tasks: c.tasks.insert(
            k,
            TaskRecordView {
                claimed_by_helper_id: Some(id),
                updated_at_unix_ms: now.unix_ms,
                ..c.tasks[k]
            },
        ),
        helpers: c.helpers.insert(
            id,
            HelperRecordView {
                last_seen_at: now.instant,
                active_task_ids: helper.active_task_ids.insert(k),
                ..helper
            },
        ),
        ..c
    }
}

/// What a claim does: a blocked helper and one that is full get nothing.
pub open spec fn claim_step(s: HubStateView, request: ClaimTaskRequestView, now: Now) -> Step<
    ClaimTaskResponseView,
> {
    let c = super::cleanup::cleaned(s, now);
    let changed = super::cleanup::cleanup_changes(s, now);
    let id = request.helper_id;
    if c.blocked_helpers.contains_key(id) {
        no_claim(c, changed, id)
    } else if !c.helpers.contains_key(id) {
        super::messages::refused(c, super::messages::bad_request(no_helper_message(id)))
    } else if c.helpers[id].active_task_ids.len() >= c.helpers[id].capacity {
        no_claim(c, changed, id)
    } else if !(exists|k: Seq<char>| next_claim(c.tasks, c.helpers[id].owner_user, k)) {
        no_claim(c, changed, id)
    } else {
        let k = choose|k: Seq<char>| next_claim(c.tasks, c.helpers[id].owner_user, k);
        Step {
            state: super::persist::bumped(claim_made(c, id, k, now)),
            result: Ok(
                ClaimTaskResponseView {
                    claimed: true,
                    helper_id: id,
                    task: Some(claim_payload(c.tasks[k])),
                },
            ),
            persist: true,
        }
    }
}

/// Serves a registration.
pub fn register_helper(state: &mut HubState, request: &RegisterHelperRequest, now: Now) -> (reply:
    Reply<RegisterHelperResponse>)
    requires
        old(state).wf(),
    ensures
        final(state).wf(),
        super::messages::agrees(reply, final(state)@, register_step(old(state)@, request@, now)),
{
    let changed = cleanup_stale_state(state, now);
    let ghost c = state@;
    let helper_id = match require_non_empty(request.helper_id.as_str(), "helper_id") {
        Ok(text) => text,
        Err(message) => return Reply::refusal(HubError::bad_request(message)),
    };
    if state.blocked_helpers.contains_key(helper_id.as_str()) {
        let error = HubError::forbidden(
            "helper_id_blocked",
            concat("helper_id is blocked: ", helper_id.as_str()),
        );
        let snapshot = bump_if(state, changed);
        return Reply { result: Err(error), snapshot };
    }
    if let Some(existing) = state.helpers.get(helper_id.as_str()) {
        let mut message = concat3(
            "helper_id already active: ",
            helper_id.as_str(),
            "; existing helper is still alive (last_seen_age_ms=",
        );
        message.append(decimal_text(elapsed_ms(now.instant, existing.last_seen_at)).as_str());
        message.append(")");
        let error = HubError::conflict("helper_id_conflict", message);
        let snapshot = bump_if(state, changed);
        return Reply { result: Err(error), snapshot };
    }
    let owner_user = match require_non_empty(request.owner_user.as_str(), "owner_user") {
        Ok(text) => text,
        Err(message) => return Reply::refusal(HubError::bad_request(message)),
    };
    let platform = match require_non_empty(request.platform.as_str(), "platform") {
        Ok(text) => text,
        Err(message) => return Reply::refusal(HubError::bad_request(message)),
    };
    let helper = HelperRecord {
        helper_id: helper_id.clone(),
        owner_user,
        platform,
        capacity: request.capacity,
        labels: request.labels.clone(),
        active_task_ids: IdSet::new(),
        active_tasks: Table::new(),
        registered_at_unix_ms: now.unix_ms,
        last_seen_at: now.instant,
    };
    let ghost after = helper@;
    state.helpers.insert(helper_id.clone(), helper);
    assert(after == new_helper(request@, now));
    let snapshot = bump_if(state, changed);
    Reply {
        result: Ok(
            RegisterHelperResponse {
                helper_id,
                heartbeat_interval_sec: state.config.heartbeat_interval_sec,
                heartbeat_timeout_sec: state.config.helper_heartbeat_timeout_sec,
            },
        ),
        snapshot,
    }
}

fn refuse_admin() -> (error: HubError)
    ensures
        error@ == admin_disabled(),
{
    HubError::forbidden(
        "helper_admin_disabled",
        "helper admin endpoints are server-admin-only and disabled for this hub process".to_owned(),
    )
}

fn claims(tasks: &Table<TaskRecord>, helper_id: &str) -> (ids: IdSet)
    ensures
        ids@ == claims_of(tasks@, helper_id@),
{
    let test = |k: &str, t: &TaskRecord| -> (r: bool)
        ensures
            r == (t@.claimed_by_helper_id == Some(helper_id@)),
    { claimed_by(t, helper_id) };
    let ids = tasks.keys_where(
        test,
        Ghost(|k: Seq<char>, t: TaskRecordView| t.claimed_by_helper_id == Some(helper_id@)),
    );
    assert(ids@ =~= claims_of(tasks@, helper_id@));
    ids
}

/// Serves a request to block a helper.
pub fn block_helper(
    state: &mut HubState,
    allow_helper_admin: bool,
    request: &BlockHelperRequest,
    now: Now,
) -> (reply: Reply<BlockHelperResponse>)
    requires
        old(state).wf(),
    ensures
        final(state).wf(),
        super::messages::agrees(
            reply,
            final(state)@,
            block_step(old(state)@, allow_helper_admin, request@, now),
        ),
{
    if !allow_helper_admin {
        return Reply::refusal(refuse_admin());
    }
    let _ = cleanup_stale_state(state, now);
    let ghost c = state@;
    let helper_id = match require_non_empty(request.helper_id.as_str(), "helper_id") {
        Ok(text) => text,
        Err(message) => return Reply::refusal(HubError::bad_request(message)),
    };
    let pending_task_ids = claims(&state.tasks, helper_id.as_str());
    let reported = match state.helpers.remove(helper_id.as_str()) {
        Some(helper) => helper.active_task_ids,
        None => IdSet::new(),
    };
    let reason = normalize_optional_text(&request.reason);
    let record = match state.blocked_helpers.remove(helper_id.as_str()) {
        Some(earlier) => BlockedHelperRecord {
            helper_id: helper_id.clone(),
            reason: if reason.is_some() {
                reason
            } else {
                earlier.reason
            },
            blocked_at_unix_ms: now.unix_ms,
            drain_started_at_unix_ms: earlier.drain_started_at_unix_ms,
            drain_deadline_at_unix_ms: earlier.drain_deadline_at_unix_ms,
            pending_task_ids,
            last_reported_task_ids: if reported.is_empty() {
                earlier.last_reported_task_ids
            } else {
                reported
            },
            last_release_requested_at_unix_ms: earlier.last_release_requested_at_unix_ms,
            last_seen_at_unix_ms: earlier.last_seen_at_unix_ms,
            force_released_task_ids: earlier.force_released_task_ids,
        },
        None => BlockedHelperRecord {
            helper_id: helper_id.clone(),
            reason,
            blocked_at_unix_ms: now.unix_ms,
            drain_started_at_unix_ms: now.unix_ms,
            drain_deadline_at_unix_ms: now.unix_ms.saturating_add(
                duration_ms(state.config.helper_heartbeat_timeout_sec),
            ),
            pending_task_ids,
            last_reported_task_ids: reported,
            last_release_requested_at_unix_ms: None,
            last_seen_at_unix_ms: None,
            force_released_task_ids: IdSet::new(),
        },
    };
    let ghost after = record@;
    state.blocked_helpers.insert(helper_id.clone(), record);
    proof {
        assert(after == block_record(c, helper_id@, request@.reason, now));
        assert(state.blocked_helpers@ =~= c.blocked_helpers.insert(helper_id@, after));
    }
    let snapshot = bump_state_revision(state);
    Reply {
        result: Ok(BlockHelperResponse { ok: true, helper_id, blocked: true }),
        snapshot: Some(snapshot),
    }
}

/// Serves a request to unblock a helper.
pub fn unblock_helper(
    state: &mut HubState,
    allow_helper_admin: bool,
    request: &UnblockHelperRequest,
    now: Now,
) -> (reply: Reply<BlockHelperResponse>)
    requires
        old(state).wf(),
    ensures
        final(state).wf(),
        super::messages::agrees(
            reply,
            final(state)@,
            unblock_step(old(state)@, allow_helper_admin, request@, now),
        ),
{
    if !allow_helper_admin {
        return Reply::refusal(refuse_admin());
    }
    let changed = cleanup_stale_state(state, now);
    let ghost c = state@;
    let helper_id = match require_non_empty(request.helper_id.as_str(), "helper_id") {
        Ok(text) => text,
        Err(message) => return Reply::refusal(HubError::bad_request(message)),
    };
    if let Some(helper) = state.blocked_helpers.get(helper_id.as_str()) {
        if !helper.pending_task_ids.is_empty() {
            let mut message = concat3(
                "helper drain is still pending: ",
                helper_id.as_str(),
                "; pending_task_ids=",
            );
            message.append(list_text(&sorted_strings(&helper.pending_task_ids)).as_str());
            let snapshot = bump_if(state, changed);
            return Reply {
                result: Err(HubError::conflict("helper_drain_pending", message)),
                snapshot,
            };
        }
    }
    let removed = state.blocked_helpers.remove(helper_id.as_str()).is_some();
    let snapshot = bump_if(state, changed || removed);
    Reply {
        result: Ok(BlockHelperResponse { ok: true, helper_id, blocked: false }),
        snapshot,
    }
}

/// The tasks that a helper reports, by identifier alone or with details.
pub fn reported_task_ids(request: &HelperHeartbeatRequest) -> (ids: IdSet)
    ensures
        ids@ == reported_tasks(request@),
{
    let mut ids = IdSet::from_vec(request.active_task_ids.clone());
    let ghost first = ids@;
    let ghost detailed = request@.active_tasks.map_values(|t: HelperActiveTaskRecordView| t.task_id);
    let mut i: usize = 0;
    while i < request.active_tasks.len()
        invariant
            i <= request.active_tasks.len(),
            detailed == request@.active_tasks.map_values(|t: HelperActiveTaskRecordView| t.task_id),
            forall|k: Seq<char>| #[trigger]
                ids@.contains(k) <==> first.contains(k) || detailed.take(i as int).contains(k),
        decreases request.active_tasks.len() - i,
    {
        let ghost before = ids@;
        ids.insert(request.active_tasks[i].task_id.clone());
        proof {
            let key = request.active_tasks@[i as int].task_id@;
            assert(detailed[i as int] == key);
            assert(detailed.take(i + 1) =~= detailed.take(i as int).push(key));
            assert forall|k: Seq<char>| #[trigger] ids@.contains(k) <==> first.contains(k)
                || detailed.take(i + 1).contains(k) by {
                assert(before.contains(k) <==> first.contains(k) || detailed.take(i as int).contains(k));
                if detailed.take(i as int).contains(k) {
                    let p = detailed.take(i as int).index_of(k);
                    assert(detailed.take(i + 1)[p] == k);
                }
                assert(detailed.take(i + 1)[i as int] == key);
            }
        }
        i += 1;
    }
    assert(detailed.take(detailed.len() as int) =~= detailed);
    assert(ids@ =~= reported_tasks(request@));
    ids
}

/// Whether the task is the live task `task_id` that `helper_id` claims.
pub fn task_matches_claimed_helper(task: &TaskRecord, helper_id: &str, task_id: &str) -> (matching:
    bool)
    ensures
        matching == serves(task@, helper_id@, task_id@),
{
    !task.released && !same_text(task.service_state.as_str(), "expired") && same_text(
        task.task_id.as_str(),
        task_id,
    ) && claimed_by(task, helper_id)
}

fn blocked_report(state: &mut HubState, helper_id: &str, reported: IdSet, now: Now)
    requires
        old(state).wf(),
        old(state)@.blocked_helpers.contains_key(helper_id@),
    ensures
        final(state).wf(),
        final(state)@ == blocked_heard(old(state)@, helper_id@, reported@, now),
{
    let ghost c = state@;
    let ghost ids = reported@;
    if let Some(drain) = state.blocked_helpers.remove(helper_id) {
        let mut drain = drain;
        let ghost pending = drain.pending_task_ids@;
        let ghost acked_set = pending.difference(ids);
        let seen = &reported;
        let lost = |id: &str| -> (r: bool)
            ensures
                r == !seen@.contains(id@),
        { !seen.contains(id) };
        let acked = drain.pending_task_ids.filter(lost, Ghost(|id: Seq<char>| !ids.contains(id)));
        assert(acked@ =~= acked_set);
        let had = |id: &str| -> (r: bool)
            ensures
                r == seen@.contains(id@),
        { seen.contains(id) };
        drain.pending_task_ids = drain.pending_task_ids.filter(
            had,
            Ghost(|id: Seq<char>| ids.contains(id)),
        );
        assert(drain.pending_task_ids@ =~= pending.intersect(ids));
        let freed = &acked;
        let unix_ms: u64 = now.unix_ms;
        let change = |k: &str, t: TaskRecord| -> (r: TaskRecord)
            ensures
                r@ == if freed@.contains(k@) {
                    super::cleanup::freed_from(t@, helper_id@, unix_ms)
                } else {
                    t@
                },
        {
            let mut t = t;
            if freed.contains(k) && claimed_by(&t, helper_id) {
                t.claimed_by_helper_id = None;
                t.updated_at_unix_ms = unix_ms;
            }
            t
        };
        state.tasks.update_all(
            change,
            Ghost(
                |k: Seq<char>, t: TaskRecordView|
                    if acked_set.contains(k) {
                        super::cleanup::freed_from(t, helper_id@, now.unix_ms)
                    } else {
                        t
                    },
            ),
        );
        state.helpers.remove(helper_id);
        drain.last_seen_at_unix_ms = Some(now.unix_ms);
        if !reported.is_empty() {
            drain.last_release_requested_at_unix_ms = Some(now.unix_ms);
        }
        drain.last_reported_task_ids = reported;
        let ghost after = drain@;
        state.blocked_helpers.insert(helper_id.to_owned(), drain);
        assert(state.blocked_helpers@ =~= c.blocked_helpers.insert(helper_id@, after));
        assert(super::records::hub_wf(state@)) by {
            assert forall|k: Seq<char>| #[trigger] state@.tasks.contains_key(
                k,
            ) implies state@.tasks[k].task_id == k by {
                assert(c.tasks.contains_key(k));
            }
            assert forall|k: Seq<char>| #[trigger] state@.helpers.contains_key(
                k,
            ) implies state@.helpers[k].helper_id == k && super::records::helper_wf(
                state@.helpers[k],
            ) by {
                assert(c.helpers.contains_key(k));
            }
            assert forall|k: Seq<char>| #[trigger] state@.blocked_helpers.contains_key(
                k,
            ) implies state@.blocked_helpers[k].helper_id == k by {
                assert(c.blocked_helpers.contains_key(k));
            }
        }
    }
    let _ = force_due_blocked_helper_drains(state, now.unix_ms);
}

fn reports_table(list: &Vec<HelperActiveTaskRecord>, ids: &IdSet) -> (table: Table<
    HelperActiveTaskRecord,
>)
    ensures
        table@ == reports_on(crate::table::views(list@), ids@),
        forall|k: Seq<char>| #[trigger] table@.contains_key(k) ==> table@[k].task_id == k,
{
    let mut table: Table<HelperActiveTaskRecord> = Table::new();
    let ghost all = crate::table::views(list@);
    let mut i: usize = 0;
    while i < list.len()
        invariant
            i <= list.len(),
            all == crate::table::views(list@),
            table@ == reports_on(all.take(i as int), ids@),
            forall|k: Seq<char>| #[trigger] table@.contains_key(k) ==> table@[k].task_id == k,
        decreases list.len() - i,
    {
        let item = &list[i];
        assert(all.take(i + 1).drop_last() =~= all.take(i as int));
        assert(all.take(i + 1).last() == item@);
        if ids.contains(item.task_id.as_str()) {
            table.insert(item.task_id.clone(), item.dup());
        }
        i += 1;
    }
    assert(all.take(all.len() as int) =~= all);
    table
}

/// Serves a report of a helper.
pub fn helper_heartbeat(state: &mut HubState, request: &HelperHeartbeatRequest, now: Now) -> (reply:
    Reply<HelperHeartbeatHubResponse>)
    requires
        old(state).wf(),
    ensures
        final(state).wf(),
        super::messages::agrees(reply, final(state)@, report_step(old(state)@, request@, now)),
{
    let cleanup_changed = cleanup_stale_state(state, now);
    let ghost c = state@;
    let helper_id = request.helper_id.as_str();
    let reported = reported_task_ids(request);
    let ghost ids = reported@;
    if state.blocked_helpers.contains_key(helper_id) {
        let release_task_ids = sorted_strings(&reported);
        blocked_report(state, helper_id, reported, now);
        let snapshot = bump_state_revision(state);
        return Reply {
            result: Ok(HelperHeartbeatHubResponse { ok: false, release_task_ids }),
            snapshot: Some(snapshot),
        };
    }
    let seen = &reported;
    let held = claims(&state.tasks, helper_id);
    let unseen = |id: &str| -> (r: bool)
        ensures
            r == !seen@.contains(id@),
    { !seen.contains(id) };
    let lost = held.filter(unseen, Ghost(|id: Seq<char>| !ids.contains(id)));
    assert(lost@ =~= lost_claims(c.tasks, helper_id@, ids));
    let changed = cleanup_changed || !lost.is_empty();
    let tasks = &state.tasks;
    let stray = |id: &str| -> (r: bool)
        ensures
            r == !(tasks@.contains_key(id@) && serves(tasks@[id@], helper_id@, id@)),
    {
        match tasks.get(id) {
            Some(task) => !task_matches_claimed_helper(task, helper_id, id),
            None => true,
        }
    };
    let strays = reported.filter(
        stray,
        Ghost(
            |t: Seq<char>| !(c.tasks.contains_key(t) && serves(c.tasks[t], helper_id@, t)),
        ),
    );
    let release = lost.union(&strays);
    assert(release@ =~= to_release(c.tasks, helper_id@, ids));
    let change = |k: &str, t: TaskRecord| -> (r: TaskRecord)
        ensures
            r@ == task_heard_of(t@, helper_id@, seen@, now),
    {
        let mut t = t;
        if !seen.contains(t.task_id.as_str()) && claimed_by(&t, helper_id) {
            t.claimed_by_helper_id = None;
            t.updated_at_unix_ms = now.unix_ms;
        }
        t
    };
    state.tasks.update_all(
        change,
        Ghost(|k: Seq<char>, t: TaskRecordView| task_heard_of(t, helper_id@, ids, now)),
    );
    match state.helpers.remove(helper_id) {
        None => {
            assert(state.helpers@ =~= c.helpers);
            let snapshot = bump_if(state, changed);
            Reply {
                result: Err(HubError::bad_request(concat("helper not found: ", helper_id))),
                snapshot,
            }
        },
        Some(helper) => {
            let mut helper = helper;
            let leaving = &release;
            let stays = |id: &str| -> (r: bool)
                ensures
                    r == !leaving@.contains(id@),
            { !leaving.contains(id) };
            let kept = reported.filter(stays, Ghost(|id: Seq<char>| !leaving@.contains(id)));
            assert(kept@ =~= ids.difference(to_release(c.tasks, helper_id@, ids)));
            helper.last_seen_at = now.instant;
            helper.active_tasks = reports_table(&request.active_tasks, &kept);
            helper.active_task_ids = kept;
            let ghost after = helper@;
            state.helpers.insert(helper_id.to_owned(), helper);
            assert(state.helpers@ =~= c.helpers.insert(helper_id@, after));
            let snapshot = bump_if(state, changed);
            Reply {
                result: Ok(
                    HelperHeartbeatHubResponse {
                        ok: true,
                        release_task_ids: sorted_strings(&release),
                    },
                ),
                snapshot,
            }
        },
    }
}

fn is_claimable(task: &TaskRecord, owner: &str) -> (waits: bool)
    ensures
        waits == claimable(task@, owner@),
{
    !task.released && same_text(task.service_state.as_str(), "ready") && task.accepting_launches
        && task.claimed_by_helper_id.is_none() && same_text(task.owner_user.as_str(), owner)
        && task.routes.mcp_base_url.is_some()
}

/// The task to give out next to a helper of `owner`.
pub fn find_claim(tasks: &Table<TaskRecord>, owner: &str) -> (found: Option<String>)
    ensures
        match found {
            Some(k) => next_claim(tasks@, owner@, k@),
            None => forall|k: Seq<char>| #[trigger]
                tasks@.contains_key(k) ==> !claimable(tasks@[k], owner@),
        },
{
    let n: usize = tasks.len();
    let ghost list = tasks.key_list();
    let mut best: Option<usize> = None;
    let mut i: usize = 0;
    while i < n
        invariant
            i <= n,
            n == tasks.key_list().len(),
            list == tasks.key_list(),
            crate::table::lists(list, tasks@.dom()),
            match best {
                Some(b) => {
                    &&& b < i
                    &&& tasks@.contains_key(list[b as int])
                    &&& claimable(tasks@[list[b as int]], owner@)
                    &&& forall|j: int|
                        0 <= j < i && j != b && claimable(tasks@[#[trigger] list[j]], owner@)
                            ==> tasks@[list[b as int]].created_at_unix_ms
                            < tasks@[list[j]].created_at_unix_ms || (
                        tasks@[list[b as int]].created_at_unix_ms
                            == tasks@[list[j]].created_at_unix_ms && crate::order::lex_lt(
                            list[b as int],
                            list[j],
                        ))
                },
                None => forall|j: int|
                    0 <= j < i ==> !claimable(tasks@[#[trigger] list[j]], owner@),
            },
        decreases n - i,
    {
        let task = tasks.value_at(i);
        if is_claimable(task, owner) {
            let better = match best {
                Some(b) => task.created_at_unix_ms < tasks.value_at(b).created_at_unix_ms,
                None => true,
            };
            if better {
                best = Some(i);
            } else {
                proof {
                    assert(crate::order::lex_lt(list[best->0 as int], list[i as int]));
                }
            }
        }
        i += 1;
    }
    match best {
        Some(b) => {
            let key = tasks.key_at(b).to_owned();
            proof {
                crate::table::lemma_increasing_distinct(list);
                assert forall|j: Seq<char>| #[trigger] tasks@.contains_key(j) && claimable(
                    tasks@[j],
                    owner@,
                ) && j != key@ implies tasks@[key@].created_at_unix_ms
                    < tasks@[j].created_at_unix_ms || (tasks@[key@].created_at_unix_ms
                    == tasks@[j].created_at_unix_ms && crate::order::lex_lt(key@, j)) by {
                    assert(tasks@.dom().contains(j));
                    let p = list.index_of(j);
                    assert(list[p] == j);
                }
            }
            Some(key)
        },
        None => {
            assert forall|k: Seq<char>| #[trigger] tasks@.contains_key(k) implies !claimable(
                tasks@[k],
                owner@,
            ) by {
                assert(tasks@.dom().contains(k));
                let p = list.index_of(k);
                assert(list[p] == k);
            }
            None
        },
    }
}

proof fn lemma_next_claim_unique(
    tasks: Map<Seq<char>, TaskRecordView>,
    owner: Seq<char>,
    a: Seq<char>,
    b: Seq<char>,
)
    requires
        next_claim(tasks, owner, a),
        next_claim(tasks, owner, b),
    ensures
        a == b,
{
    if a != b {
        assert(tasks.contains_key(a) && tasks.contains_key(b));
        if crate::order::lex_lt(a, b) && crate::order::lex_lt(b, a) {
            crate::order::lemma_lex_transitive(a, b, a);
            crate::order::lemma_lex_irreflexive(a);
        }
    }
}

/// Serves a claim.
pub fn claim_task(state: &mut HubState, request: &ClaimTaskRequest, now: Now) -> (reply: Reply<
    ClaimTaskResponse,
>)
    requires
        old(state).wf(),
    ensures
        final(state).wf(),
        super::messages::agrees(reply, final(state)@, claim_step(old(state)@, request@, now)),
{
    let changed = cleanup_stale_state(state, now);
    let ghost c = state@;
    let helper_id = request.helper_id.as_str();
    if state.blocked_helpers.contains_key(helper_id) {
        let snapshot = bump_if(state, changed);
        return Reply {
            result: Ok(
                ClaimTaskResponse { claimed: false, helper_id: helper_id.to_owned(), task: None },
            ),
            snapshot,
        };
    }
    let (owner, full) = match state.helpers.get(helper_id) {
        Some(helper) => (
            helper.owner_user.clone(),
            helper.active_task_ids.len() >= helper.capacity,
        ),
        None => {
            return Reply::refusal(HubError::bad_request(concat("helper not found: ", helper_id)));
        },
    };
    let found = if full {
        None
    } else {
        find_claim(&state.tasks, owner.as_str())
    };
    let key = match found {
        Some(key) => key,
        None => {
            proof {
                if !full {
                    assert forall|k: Seq<char>| !next_claim(c.tasks, owner@, k) by {
                        assert(c.tasks.contains_key(k) ==> !claimable(c.tasks[k], owner@));
                    }
                }
            }
            let snapshot = bump_if(state, changed);
            return Reply {
                result: Ok(
                    ClaimTaskResponse {
                        claimed: false,
                        helper_id: helper_id.to_owned(),
                        task: None,
                    },
                ),
                snapshot,
            };
        },
    };
    proof {
        assert(next_claim(c.tasks, owner@, key@));
        let chosen = choose|k: Seq<char>| next_claim(c.tasks, owner@, k);
        lemma_next_claim_unique(c.tasks, owner@, chosen, key@);
    }
    let mut payload: Option<ClaimedTaskPayload> = None;
    if let Some(task) = state.tasks.remove(key.as_str()) {
        let mut task = task;
        payload = Some(
            ClaimedTaskPayload {
                task_id: task.task_id.clone(),
                place_id: task.place_id.clone(),
                universe_id: dup_text(&task.universe_id),
                owner_user: task.owner_user.clone(),
                repo: task.repo.clone(),
                worktree_name: task.worktree_name.clone(),
                routes: task.routes.dup(),
            },
        );
        task.claimed_by_helper_id = Some(helper_id.to_owned());
        task.updated_at_unix_ms = now.unix_ms;
        let ghost after = task@;
        state.tasks.insert(key.clone(), task);
        assert(state.tasks@ =~= c.tasks.insert(key@, after));
    }
    if let Some(helper) = state.helpers.remove(helper_id) {
        let mut helper = helper;
        helper.last_seen_at = now.instant;
        helper.active_task_ids.insert(key.clone());
        let ghost after = helper@;
        state.helpers.insert(helper_id.to_owned(), helper);
        assert(state.helpers@ =~= c.helpers.insert(helper_id@, after));
    }
    assert(state@ == claim_made(c, helper_id@, key@, now));
    let snapshot = bump_state_revision(state);
    Reply {
        result: Ok(
            ClaimTaskResponse { claimed: true, helper_id: helper_id.to_owned(), task: payload },
        ),
        snapshot: Some(snapshot),
    }
}

} // verus!
