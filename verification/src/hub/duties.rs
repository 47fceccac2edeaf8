//! What a hub owes the owners of tasks and the helpers: what each request leaves behind, said of the
//! records before and after it.
use vstd::prelude::*;

use super::messages::{
    ClaimTaskRequestView, CreateTaskRequestView, RecoverTaskRequestView, ReleaseTaskRequestView,
    TaskHeartbeatRequestView,
};
use super::records::{HubStateView, TaskRecordView};
use crate::clock::Now;

verus! {

/// Nothing was heard since `seen` for more than `timeout_sec` seconds.
pub open spec fn silent(seen: u128, timeout_sec: u64, now: Now) -> bool {
    now.instant - seen > timeout_sec * 1_000_000_000
}

/// What a task is and whom it belongs to is the same; its tokens are among that.
pub open spec fn same_task(a: TaskRecordView, b: TaskRecordView) -> bool {
    &&& a.task_id == b.task_id
    &&& a.cluster_key == b.cluster_key
    &&& a.recover_token == b.recover_token
    &&& a.place_id == b.place_id
    &&& a.owner_user == b.owner_user
    &&& a.repo == b.repo
    &&& a.worktree_name == b.worktree_name
    &&& a.created_at_unix_ms == b.created_at_unix_ms
}

/// What a task offers is the same.
pub open spec fn same_service(a: TaskRecordView, b: TaskRecordView) -> bool {
    &&& a.service_state == b.service_state
    &&& a.accepting_launches == b.accepting_launches
    &&& a.routes.mcp_base_url == b.routes.mcp_base_url
    &&& a.routes.rojo_base_url == b.routes.rojo_base_url
    &&& a.routes.runtime_log_base_url == b.routes.runtime_log_base_url
    &&& a.services == b.services
}

/// The task offers nothing: no route, no service, no launch, and nobody holds it.
pub open spec fn bare(task: TaskRecordView) -> bool {
    &&& !task.accepting_launches
    &&& task.routes.mcp_base_url is None
    &&& task.routes.rojo_base_url is None
    &&& task.routes.runtime_log_base_url is None
    &&& task.services == Map::<Seq<char>, Seq<char>>::empty()
    &&& task.claimed_by_helper_id is None
}

/// The helper that held a task has lost it to time: its drain waited for the task and its deadline has
/// come, or it is not blocked and has been silent for too long.
pub open spec fn holder_lost(s: HubStateView, holder: Seq<char>, task_id: Seq<char>, now: Now) -> bool {
    ||| {
        &&& s.blocked_helpers.contains_key(holder)
        &&& s.blocked_helpers[holder].pending_task_ids.contains(task_id)
        &&& now.unix_ms >= s.blocked_helpers[holder].drain_deadline_at_unix_ms
    }
    ||| {
        &&& !s.blocked_helpers.contains_key(holder)
        &&& s.helpers.contains_key(holder)
        &&& silent(s.helpers[holder].last_seen_at, s.config.helper_heartbeat_timeout_sec, now)
    }
}

/// Time does this to a task and no more: one that is not released and was not heard of for longer than
/// the task timeout expires and offers nothing any more; any other keeps what it offers, and keeps its
/// holder unless that has lost it. No task comes or goes.
pub proof fn law_time_and_tasks(s: HubStateView, k: Seq<char>, now: Now)
    ensures
        ({
            let c = super::cleanup::cleaned(s, now);
            let t = s.tasks[k];
            let a = c.tasks[k];
            let lapsed = !t.released && silent(
                t.last_seen_at,
                s.config.task_heartbeat_timeout_sec,
                now,
            );
            &&& c.config == s.config
            &&& c.state_revision == s.state_revision
            &&& c.tasks.contains_key(k) == s.tasks.contains_key(k)
            &&& s.tasks.contains_key(k) ==> {
                &&& same_task(a, t)
                &&& a.task_token == t.task_token
                &&& a.universe_id == t.universe_id
                &&& a.released == t.released
                &&& a.last_seen_at == t.last_seen_at
                &&& a.last_task_heartbeat_at_unix_ms == t.last_task_heartbeat_at_unix_ms
                &&& a != t ==> a.updated_at_unix_ms == now.unix_ms
                &&& lapsed ==> a.service_state == "expired"@ && bare(a)
                &&& !lapsed ==> {
                    &&& same_service(a, t)
                    &&& t.claimed_by_helper_id is None ==> a.claimed_by_helper_id is None
                    &&& t.claimed_by_helper_id matches Some(h) ==> a.claimed_by_helper_id
                        == if holder_lost(s, h, k, now) {
                        None
                    } else {
                        Some(h)
                    }
                }
            }
        }),
{
    if s.tasks.contains_key(k) {
        let d = super::cleanup::drains_forced(s, now.unix_ms);
        assert(d.tasks.contains_key(k));
        if let Some(h) = s.tasks[k].claimed_by_helper_id {
            assert(d.helpers.contains_key(h) == s.helpers.contains_key(h));
            assert(d.blocked_helpers.contains_key(h) == s.blocked_helpers.contains_key(h));
        }
    }
}

/// Time does this to a helper and no more: one that was not heard of for longer than the helper timeout
/// is forgotten; any other stays as it is, but for what a drain took from it.
pub proof fn law_time_and_helpers(s: HubStateView, id: Seq<char>, now: Now)
    ensures
        ({
            let c = super::cleanup::cleaned(s, now);
            let h = s.helpers[id];
            let a = c.helpers[id];
            &&& c.helpers.contains_key(id) <==> s.helpers.contains_key(id) && !silent(
                h.last_seen_at,
                s.config.helper_heartbeat_timeout_sec,
                now,
            )
            &&& c.helpers.contains_key(id) ==> {
                &&& a.helper_id == h.helper_id
                &&& a.owner_user == h.owner_user
                &&& a.platform == h.platform
                &&& a.capacity == h.capacity
                &&& a.labels == h.labels
                &&& a.registered_at_unix_ms == h.registered_at_unix_ms
                &&& a.last_seen_at == h.last_seen_at
                &&& !s.blocked_helpers.contains_key(id) ==> a.active_task_ids == h.active_task_ids
                    && a.active_tasks == h.active_tasks
            }
        }),
{
}

/// Time does this to a blocked helper and no more: once its deadline has come, what its drain waited
/// for counts as released by force and is waited for no more.
pub proof fn law_time_and_drains(s: HubStateView, id: Seq<char>, now: Now)
    ensures
        ({
            let c = super::cleanup::cleaned(s, now);
            let b = s.blocked_helpers[id];
            let a = c.blocked_helpers[id];
            let over = now.unix_ms >= b.drain_deadline_at_unix_ms;
            &&& c.blocked_helpers.contains_key(id) == s.blocked_helpers.contains_key(id)
            &&& s.blocked_helpers.contains_key(id) ==> {
                &&& a.helper_id == b.helper_id
                &&& a.reason == b.reason
                &&& a.blocked_at_unix_ms == b.blocked_at_unix_ms
                &&& a.drain_started_at_unix_ms == b.drain_started_at_unix_ms
                &&& a.drain_deadline_at_unix_ms == b.drain_deadline_at_unix_ms
                &&& a.last_reported_task_ids == b.last_reported_task_ids
                &&& a.last_release_requested_at_unix_ms == b.last_release_requested_at_unix_ms
                &&& a.last_seen_at_unix_ms == b.last_seen_at_unix_ms
                &&& !over ==> a.pending_task_ids == b.pending_task_ids
                    && a.force_released_task_ids == b.force_released_task_ids
                &&& over ==> (forall|k: Seq<char>| !#[trigger] a.pending_task_ids.contains(k))
                &&& over ==> (forall|k: Seq<char>| #[trigger]
                    a.force_released_task_ids.contains(k) <==> b.force_released_task_ids.contains(k)
                        || b.pending_task_ids.contains(k))
            }
        }),
{
}

/// A cleanup says that there is something to write exactly where it changed a task or a blocked helper.
pub proof fn law_cleanup_tells_of_changes(s: HubStateView, now: Now)
    ensures
        super::cleanup::cleanup_changes(s, now) <==> super::cleanup::cleaned(s, now).tasks != s.tasks
            || super::cleanup::cleaned(s, now).blocked_helpers != s.blocked_helpers,
{
    let c = super::cleanup::cleaned(s, now);
    let d = super::cleanup::drains_forced(s, now.unix_ms);
    let e = super::cleanup::stale_helpers_dropped(d, now);
    if !super::cleanup::cleanup_changes(s, now) {
        assert forall|k: Seq<char>| #[trigger] s.blocked_helpers.contains_key(k) implies
            !super::cleanup::drain_due(s.blocked_helpers[k], now.unix_ms) by {
            assert(!super::cleanup::some_drain_due(s, now.unix_ms));
        }
        assert(d.blocked_helpers =~= s.blocked_helpers);
        assert(c.blocked_helpers =~= s.blocked_helpers);
        assert forall|k: Seq<char>| #[trigger] s.tasks.contains_key(k) implies c.tasks[k]
            == s.tasks[k] by {
            assert(d.tasks.contains_key(k));
            assert(e.tasks.contains_key(k));
        }
        assert(c.tasks =~= s.tasks);
    } else if super::cleanup::some_drain_due(s, now.unix_ms) {
        let k = choose|k: Seq<char>| #[trigger]
            s.blocked_helpers.contains_key(k) && super::cleanup::drain_due(
                s.blocked_helpers[k],
                now.unix_ms,
            );
        assert(c.blocked_helpers[k].pending_task_ids != s.blocked_helpers[k].pending_task_ids);
    } else if exists|k: Seq<char>| #[trigger]
        d.tasks.contains_key(k) && super::cleanup::freed_by_cleanup(d, d.tasks[k], now) {
        let k = choose|k: Seq<char>| #[trigger]
            d.tasks.contains_key(k) && super::cleanup::freed_by_cleanup(d, d.tasks[k], now);
        assert(s.tasks.contains_key(k) && s.tasks[k].claimed_by_helper_id is Some);
        assert(c.tasks[k].claimed_by_helper_id is None);
    } else {
        let k = choose|k: Seq<char>| #[trigger]
            e.tasks.contains_key(k) && super::cleanup::task_lapses(
                e.tasks[k],
                s.config.task_heartbeat_timeout_sec,
                now,
            ) && !super::cleanup::already_expired(e.tasks[k]);
        assert(d.tasks.contains_key(k));
        assert(e.tasks[k] == s.tasks[k]);
        assert(super::cleanup::already_expired(c.tasks[k]));
    }
}

/// The task waits for a helper of `owner`.
pub open spec fn waits_for(task: TaskRecordView, owner: Seq<char>) -> bool {
    &&& task.owner_user == owner
    &&& task.service_state == "ready"@
    &&& task.accepting_launches
    &&& !task.released
    &&& task.claimed_by_helper_id is None
    &&& task.routes.mcp_base_url is Some
}

/// The task that a claim gives out belongs to the owner of the helper, is ready, takes launches, is not
/// released, has a route to its tools and was held by nobody; the helper is told of just that task, holds
/// it from then on, and no task that waited as long or longer was passed over but for its identifier.
pub proof fn law_claim_gives_a_task_of_the_owner(
    s: HubStateView,
    request: ClaimTaskRequestView,
    now: Now,
)
    requires
        super::records::hub_wf(s),
    ensures
        ({
            let id = request.helper_id;
            let c = super::cleanup::cleaned(s, now);
            let step = super::helpers::claim_step(s, request, now);
            step.result matches Ok(answer) ==> {
                &&& answer.helper_id == id
                &&& answer.claimed == (answer.task is Some)
                &&& !answer.claimed ==> step.state.tasks == c.tasks && step.state.helpers
                    == c.helpers
                &&& answer.task matches Some(given) ==> {
                    let k = given.task_id;
                    let before = s.tasks[k];
                    let after = step.state.tasks[k];
                    &&& s.helpers.contains_key(id)
                    &&& !s.blocked_helpers.contains_key(id)
                    &&& s.tasks.contains_key(k)
                    &&& before.owner_user == s.helpers[id].owner_user
                    &&& before.service_state == "ready"@
                    &&& before.accepting_launches
                    &&& !before.released
                    &&& before.routes.mcp_base_url is Some
                    &&& c.tasks[k].claimed_by_helper_id is None
                    &&& before.claimed_by_helper_id matches Some(h) ==> holder_lost(s, h, k, now)
                    &&& !silent(before.last_seen_at, s.config.task_heartbeat_timeout_sec, now)
                    &&& given.place_id == before.place_id
                    &&& given.universe_id == before.universe_id
                    &&& given.owner_user == before.owner_user
                    &&& given.repo == before.repo
                    &&& given.worktree_name == before.worktree_name
                    &&& given.routes.mcp_base_url == before.routes.mcp_base_url
                    &&& given.routes.rojo_base_url == before.routes.rojo_base_url
                    &&& given.routes.runtime_log_base_url == before.routes.runtime_log_base_url
                    &&& step.state.tasks.contains_key(k)
                    &&& after.claimed_by_helper_id == Some(id)
                    &&& same_task(after, before)
                    &&& after.task_token == before.task_token
                    &&& same_service(after, before)
                    &&& after.last_seen_at == before.last_seen_at
                    &&& !after.released
                    &&& step.state.helpers[id].active_task_ids.contains(k)
                    &&& step.state.helpers[id].last_seen_at == now.instant
                    &&& step.persist
                    &&& forall|j: Seq<char>| #[trigger]
                        c.tasks.contains_key(j) && waits_for(c.tasks[j], s.helpers[id].owner_user)
                            && j != k ==> before.created_at_unix_ms < c.tasks[j].created_at_unix_ms
                            || (before.created_at_unix_ms == c.tasks[j].created_at_unix_ms
                            && crate::order::lex_lt(k, j))
                }
            }
        }),
{
    let c = super::cleanup::cleaned(s, now);
    let id = request.helper_id;
    law_time_and_helpers(s, id, now);
    lemma_cleanup_blocked(s, id, now);
    let owner = c.helpers[id].owner_user;
    if exists|k: Seq<char>| super::helpers::next_claim(c.tasks, owner, k) {
        let k = choose|k: Seq<char>| super::helpers::next_claim(c.tasks, owner, k);
        law_time_and_tasks(s, k, now);
        assert(s.tasks.contains_key(k));
        assert(c.tasks[k].task_id == k);
        reveal_strlit("ready");
        reveal_strlit("expired");
        assert("ready"@.len() != "expired"@.len());
        assert forall|j: Seq<char>| #[trigger]
            c.tasks.contains_key(j) && waits_for(c.tasks[j], owner) && j
            != k implies c.tasks[k].created_at_unix_ms < c.tasks[j].created_at_unix_ms || (
        c.tasks[k].created_at_unix_ms == c.tasks[j].created_at_unix_ms && crate::order::lex_lt(k, j)) by {
            assert(super::helpers::claimable(c.tasks[j], owner));
        }
    }
}

proof fn lemma_cleanup_blocked(s: HubStateView, id: Seq<char>, now: Now)
    ensures
        super::cleanup::cleaned(s, now).blocked_helpers.contains_key(id)
            == s.blocked_helpers.contains_key(id),
{
}

/// A helper that is there, is not blocked and has room is given a task whenever one waits for a helper
/// of its owner. One that is blocked or full is given none, and one that is not there is told so.
pub proof fn law_claim_is_served(s: HubStateView, request: ClaimTaskRequestView, j: Seq<char>, now: Now)
    requires
        s.tasks.dom().finite(),
    ensures
        ({
            let id = request.helper_id;
            let c = super::cleanup::cleaned(s, now);
            let step = super::helpers::claim_step(s, request, now);
            let room = c.helpers[id].active_task_ids.len() < c.helpers[id].capacity;
            let blocked = s.blocked_helpers.contains_key(id);
            let there = s.helpers.contains_key(id) && !silent(
                s.helpers[id].last_seen_at,
                s.config.helper_heartbeat_timeout_sec,
                now,
            );
            &&& !blocked && there && room && c.tasks.contains_key(j) && waits_for(
                c.tasks[j],
                s.helpers[id].owner_user,
            ) ==> step.result is Ok && step.result->Ok_0.claimed
            &&& blocked || (there && !room) ==> step.result is Ok && !step.result->Ok_0.claimed
            &&& step.result is Err <==> !blocked && !there
            &&& step.result matches Err(error) ==> error.status == 400 && error.message
                == "helper not found: "@ + id
        }),
{
    let c = super::cleanup::cleaned(s, now);
    let id = request.helper_id;
    law_time_and_helpers(s, id, now);
    lemma_cleanup_blocked(s, id, now);
    let owner = c.helpers[id].owner_user;
    if c.tasks.contains_key(j) && waits_for(c.tasks[j], owner) {
        let test = |k: Seq<char>, t: TaskRecordView| super::helpers::claimable(t, owner);
        let rank = |t: TaskRecordView| ((u64::MAX - t.created_at_unix_ms) as u128, 0u128, 0u128);
        assert(c.tasks.dom() =~= s.tasks.dom());
        assert(super::helpers::claimable(c.tasks[j], owner));
        crate::table::lemma_best_exists(c.tasks, test, rank, false, j);
        let top = crate::table::best(c.tasks, test, rank, false)->0;
        assert(super::helpers::next_claim(c.tasks, owner, top));
    }
}

/// A claim touches the task that it gives out and the helper that asked, and nothing else.
pub proof fn law_claim_leaves_the_rest(s: HubStateView, request: ClaimTaskRequestView, now: Now)
    ensures
        ({
            let c = super::cleanup::cleaned(s, now);
            let step = super::helpers::claim_step(s, request, now);
            let k = step.result->Ok_0.task->0.task_id;
            &&& step.state.blocked_helpers == c.blocked_helpers
            &&& step.state.config == c.config
            &&& forall|h: Seq<char>| #[trigger]
                step.state.helpers.contains_key(h) == c.helpers.contains_key(h)
            &&& forall|h: Seq<char>| h != request.helper_id && #[trigger] c.helpers.contains_key(h)
                ==> step.state.helpers[h] == c.helpers[h]
            &&& step.result is Err ==> step.state.tasks == c.tasks
        }),
{
    let c = super::cleanup::cleaned(s, now);
}

/// A heartbeat is taken exactly where the task is there, the token is its own, the task is neither
/// released nor expired and a state is given; what it says of the task stands from then on, what the
/// task is and who holds it stays, and other tasks are not touched.
pub proof fn law_heartbeat_is_taken_down(
    s: HubStateView,
    request: TaskHeartbeatRequestView,
    j: Seq<char>,
    now: Now,
)
    requires
        super::records::hub_wf(s),
    ensures
        ({
            let k = request.task_id;
            let c = super::cleanup::cleaned(s, now);
            let step = super::tasks::heartbeat_step(s, request, now);
            let t = s.tasks[k];
            let a = step.state.tasks[k];
            &&& step.result is Ok <==> {
                &&& s.tasks.contains_key(k)
                &&& t.task_token == request.task_token
                &&& !t.released
                &&& t.service_state != "expired"@
                &&& !silent(t.last_seen_at, s.config.task_heartbeat_timeout_sec, now)
                &&& crate::text::trimmed(request.service_state).len() > 0
            }
            &&& step.result is Ok ==> {
                &&& step.persist
                &&& step.state.tasks.contains_key(k)
                &&& a.service_state == crate::text::trimmed(request.service_state)
                &&& a.accepting_launches == request.accepting_launches
                &&& a.routes.mcp_base_url == request.routes.mcp_base_url
                &&& a.routes.rojo_base_url == request.routes.rojo_base_url
                &&& a.routes.runtime_log_base_url == request.routes.runtime_log_base_url
                &&& a.services == request.services
                &&& same_task(a, t)
                &&& a.task_token == t.task_token
                &&& a.universe_id == t.universe_id
                &&& !a.released
                &&& a.last_seen_at == now.instant
                &&& a.last_task_heartbeat_at_unix_ms == now.unix_ms
                &&& a.updated_at_unix_ms == now.unix_ms
                &&& a.claimed_by_helper_id == c.tasks[k].claimed_by_helper_id
            }
            &&& step.result matches Err(error) ==> error.status == 400 && !step.persist
                && step.state == c
            &&& j != k || step.result is Err ==> step.state.tasks.contains_key(j)
                == c.tasks.contains_key(j) && step.state.tasks[j] == c.tasks[j]
            &&& step.state.helpers == c.helpers
            &&& step.state.blocked_helpers == c.blocked_helpers
        }),
{
    law_time_and_tasks(s, request.task_id, now);
}

/// A task that is heard of stays alive: after a heartbeat that was taken, and as long as no more than
/// the task timeout has gone by, the task is not expired but offers what the heartbeat said, keeps its
/// holder unless that has lost it, and a further heartbeat with the same token is taken.
pub proof fn law_heartbeat_keeps_the_task_alive(
    s: HubStateView,
    request: TaskHeartbeatRequestView,
    next: TaskHeartbeatRequestView,
    now: Now,
    later: Now,
)
    requires
        super::records::hub_wf(s),
        super::tasks::heartbeat_step(s, request, now).result is Ok,
        crate::text::trimmed(request.service_state) != "expired"@,
        later.instant - now.instant <= s.config.task_heartbeat_timeout_sec * 1_000_000_000,
        next.task_id == request.task_id,
        next.task_token == request.task_token,
        crate::text::trimmed(next.service_state).len() > 0,
    ensures
        ({
            let after = super::tasks::heartbeat_step(s, request, now).state;
            let k = request.task_id;
            let a = super::cleanup::cleaned(after, later).tasks[k];
            &&& super::cleanup::cleaned(after, later).tasks.contains_key(k)
            &&& a.service_state == crate::text::trimmed(request.service_state)
            &&& a.accepting_launches == request.accepting_launches
            &&& a.routes.mcp_base_url == request.routes.mcp_base_url
            &&& a.routes.rojo_base_url == request.routes.rojo_base_url
            &&& a.routes.runtime_log_base_url == request.routes.runtime_log_base_url
            &&& a.services == request.services
            &&& after.tasks[k].claimed_by_helper_id matches Some(h) ==> (!holder_lost(
                after,
                h,
                k,
                later,
            ) ==> a.claimed_by_helper_id == Some(h))
            &&& super::tasks::heartbeat_step(after, next, later).result is Ok
        }),
{
    law_heartbeat_is_taken_down(s, request, request.task_id, now);
    let after = super::tasks::heartbeat_step(s, request, now).state;
    law_time_and_tasks(after, request.task_id, later);
    law_time_and_tasks(s, request.task_id, now);
    assert(after.config == s.config);
}

/// A task of which nothing is heard for longer than the task timeout after its last heartbeat is
/// refused further heartbeats until it is recovered, and is given to no helper.
pub proof fn law_task_that_falls_silent_needs_recovery(
    s: HubStateView,
    request: TaskHeartbeatRequestView,
    claim: ClaimTaskRequestView,
    now: Now,
)
    requires
        super::records::hub_wf(s),
        s.tasks.contains_key(request.task_id),
        silent(
            s.tasks[request.task_id].last_seen_at,
            s.config.task_heartbeat_timeout_sec,
            now,
        ),
    ensures
        super::tasks::heartbeat_step(s, request, now).result is Err,
        super::helpers::claim_step(s, claim, now).result matches Ok(answer) ==> (answer.task matches Some(
            given,
        ) ==> given.task_id != request.task_id),
{
    law_heartbeat_is_taken_down(s, request, request.task_id, now);
    law_claim_gives_a_task_of_the_owner(s, claim, now);
}

/// A new task is taken exactly where every field is given and no live task serves the cluster; it
/// belongs to whom the request names, waits to be heard of, offers nothing yet, and is told with its
/// tokens. Other tasks are not touched.
pub proof fn law_new_task_is_the_one_asked_for(
    s: HubStateView,
    request: CreateTaskRequestView,
    task_id: Seq<char>,
    task_token: Seq<char>,
    recover_token: Seq<char>,
    j: Seq<char>,
    now: Now,
)
    ensures
        ({
            let c = super::cleanup::cleaned(s, now);
            let step = super::tasks::create_step(
                s,
                request,
                task_id,
                task_token,
                recover_token,
                now,
            );
            let a = step.state.tasks[task_id];
            &&& step.result is Ok <==> {
                &&& crate::text::trimmed(request.cluster_key).len() > 0
                &&& crate::text::trimmed(request.place_id).len() > 0
                &&& crate::text::trimmed(request.owner_user).len() > 0
                &&& crate::text::trimmed(request.repo).len() > 0
                &&& crate::text::trimmed(request.worktree_name).len() > 0
                &&& !exists|k: Seq<char>| #[trigger]
                    c.tasks.contains_key(k) && !c.tasks[k].released && c.tasks[k].service_state
                        != "expired"@ && c.tasks[k].cluster_key == crate::text::trimmed(
                        request.cluster_key,
                    )
            }
            &&& step.result matches Ok(told) ==> {
                &&& told.task_id == task_id
                &&& told.task_token == task_token
                &&& told.recover_token == recover_token
                &&& told.heartbeat_interval_sec == s.config.heartbeat_interval_sec
                &&& told.heartbeat_timeout_sec == s.config.task_heartbeat_timeout_sec
                &&& step.persist
                &&& step.state.tasks.contains_key(task_id)
                &&& a.task_id == task_id
                &&& a.task_token == task_token
                &&& a.recover_token == recover_token
                &&& a.cluster_key == crate::text::trimmed(request.cluster_key)
                &&& a.place_id == crate::text::trimmed(request.place_id)
                &&& a.owner_user == crate::text::trimmed(request.owner_user)
                &&& a.repo == crate::text::trimmed(request.repo)
                &&& a.worktree_name == crate::text::trimmed(request.worktree_name)
                &&& a.service_state == "starting"@
                &&& bare(a)
                &&& !a.released
                &&& a.created_at_unix_ms == now.unix_ms
                &&& a.updated_at_unix_ms == now.unix_ms
                &&& a.last_task_heartbeat_at_unix_ms == now.unix_ms
                &&& a.last_seen_at == now.instant
                &&& universe_of(a.universe_id, request.universe_id, request.legacy_game_id, None)
            }
            &&& step.result matches Err(error) ==> error.status == 400 && !step.persist
                && step.state == c
            &&& j != task_id ==> step.state.tasks.contains_key(j) == c.tasks.contains_key(j)
                && step.state.tasks[j] == c.tasks[j]
            &&& step.state.helpers == c.helpers
            &&& step.state.blocked_helpers == c.blocked_helpers
        }),
{
    let c = super::cleanup::cleaned(s, now);
    let key = crate::text::trimmed(request.cluster_key);
    assert(super::tasks::cluster_active(c, key) <==> exists|k: Seq<char>| #[trigger]
        c.tasks.contains_key(k) && !c.tasks[k].released && c.tasks[k].service_state != "expired"@
            && c.tasks[k].cluster_key == key) by {
        if super::tasks::cluster_active(c, key) {
            let k = choose|k: Seq<char>| #[trigger]
                c.tasks.contains_key(k) && super::tasks::serves_cluster(c.tasks[k], key);
            assert(c.tasks.contains_key(k));
        }
        if exists|k: Seq<char>| #[trigger]
            c.tasks.contains_key(k) && !c.tasks[k].released && c.tasks[k].service_state
                != "expired"@ && c.tasks[k].cluster_key == key {
            let k = choose|k: Seq<char>| #[trigger]
                c.tasks.contains_key(k) && !c.tasks[k].released && c.tasks[k].service_state
                    != "expired"@ && c.tasks[k].cluster_key == key;
            assert(super::tasks::serves_cluster(c.tasks[k], key));
        }
    }
}

/// The universe is the one that a request names, by the newer field before the older one, and `before`
/// where it names none. A blank text names none.
pub open spec fn universe_of(
    universe: Option<Seq<char>>,
    newer: Option<Seq<char>>,
    older: Option<Seq<char>>,
    before: Option<Seq<char>>,
) -> bool {
    let named = if newer is Some {
        newer
    } else {
        older
    };
    universe == if named is Some && crate::text::trimmed(named->0).len() > 0 {
        named
    } else {
        before
    }
}

/// A task is recovered exactly where it is there and not released, and both its cluster and its
/// recovery token are given; it is then nobody's, offers nothing until it is heard of, goes by the new
/// token, and is otherwise the task that it was.
pub proof fn law_recovered_task_is_the_same(
    s: HubStateView,
    request: RecoverTaskRequestView,
    task_token: Seq<char>,
    j: Seq<char>,
    now: Now,
)
    requires
        super::records::hub_wf(s),
    ensures
        ({
            let k = request.task_id;
            let c = super::cleanup::cleaned(s, now);
            let step = super::tasks::recover_step(s, request, task_token, now);
            let t = s.tasks[k];
            let a = step.state.tasks[k];
            &&& step.result is Ok <==> {
                &&& s.tasks.contains_key(k)
                &&& t.cluster_key == request.cluster_key
                &&& t.recover_token == request.recover_token
                &&& !t.released
            }
            &&& step.result matches Ok(told) ==> {
                &&& told.task_id == k
                &&& told.task_token == task_token
                &&& told.recover_token == t.recover_token
                &&& told.heartbeat_interval_sec == s.config.heartbeat_interval_sec
                &&& told.heartbeat_timeout_sec == s.config.task_heartbeat_timeout_sec
                &&& step.persist
                &&& step.state.tasks.contains_key(k)
                &&& same_task(a, t)
                &&& a.task_token == task_token
                &&& a.service_state == "recovering"@
                &&& bare(a)
                &&& !a.released
                &&& a.last_seen_at == now.instant
                &&& a.last_task_heartbeat_at_unix_ms == now.unix_ms
                &&& universe_of(
                    a.universe_id,
                    request.universe_id,
                    request.legacy_game_id,
                    t.universe_id,
                )
            }
            &&& step.result matches Err(error) ==> error.status == 400 && !step.persist
                && step.state == c
            &&& j != k ==> step.state.tasks.contains_key(j) == c.tasks.contains_key(j)
                && step.state.tasks[j] == c.tasks[j]
            &&& step.state.helpers == c.helpers
            &&& step.state.blocked_helpers == c.blocked_helpers
        }),
{
    law_time_and_tasks(s, request.task_id, now);
}

/// A task that is created or recovered is not expired before the task timeout has gone by, and a
/// heartbeat with its token is taken in that time.
pub proof fn law_new_task_has_time_to_be_heard_of(
    s: HubStateView,
    create: CreateTaskRequestView,
    recover: RecoverTaskRequestView,
    task_id: Seq<char>,
    task_token: Seq<char>,
    recover_token: Seq<char>,
    next: TaskHeartbeatRequestView,
    now: Now,
    later: Now,
)
    requires
        super::records::hub_wf(s),
        later.instant - now.instant <= s.config.task_heartbeat_timeout_sec * 1_000_000_000,
        next.task_token == task_token,
        crate::text::trimmed(next.service_state).len() > 0,
    ensures
        ({
            let created = super::tasks::create_step(
                s,
                create,
                task_id,
                task_token,
                recover_token,
                now,
            );
            let recovered = super::tasks::recover_step(s, recover, task_token, now);
            &&& created.result is Ok && next.task_id == task_id
                ==> super::tasks::heartbeat_step(created.state, next, later).result is Ok
            &&& recovered.result is Ok && next.task_id == recover.task_id
                ==> super::tasks::heartbeat_step(recovered.state, next, later).result is Ok
        }),
{
    law_new_task_is_the_one_asked_for(s, create, task_id, task_token, recover_token, task_id, now);
    law_recovered_task_is_the_same(s, recover, task_token, recover.task_id, now);
    let created = super::tasks::create_step(s, create, task_id, task_token, recover_token, now).state;
    let recovered = super::tasks::recover_step(s, recover, task_token, now).state;
    law_time_and_tasks(created, task_id, later);
    law_time_and_tasks(recovered, recover.task_id, later);
    reveal_strlit("starting");
    reveal_strlit("recovering");
    reveal_strlit("expired");
    assert("starting"@.len() != "expired"@.len());
    assert("recovering"@.len() != "expired"@.len());
    law_time_and_tasks(s, recover.task_id, now);
}

/// A task is released exactly where it is there and its token is given; it then offers nothing, is
/// held by nobody, also by the account of the helper that had it, and stays the task that it was.
pub proof fn law_release_ends_the_task(
    s: HubStateView,
    request: ReleaseTaskRequestView,
    j: Seq<char>,
    h: Seq<char>,
    now: Now,
)
    requires
        super::records::hub_wf(s),
    ensures
        ({
            let k = request.task_id;
            let c = super::cleanup::cleaned(s, now);
            let step = super::tasks::release_step(s, request, now);
            let t = s.tasks[k];
            let a = step.state.tasks[k];
            &&& step.result is Ok <==> s.tasks.contains_key(k) && t.task_token == request.task_token
            &&& step.result is Ok ==> {
                &&& step.persist
                &&& step.state.tasks.contains_key(k)
                &&& same_task(a, t)
                &&& a.task_token == t.task_token
                &&& a.universe_id == t.universe_id
                &&& a.released
                &&& a.service_state == "released"@
                &&& bare(a)
                &&& c.tasks[k].claimed_by_helper_id == Some(h) && c.helpers.contains_key(h)
                    ==> !step.state.helpers[h].active_task_ids.contains(k)
                    && !step.state.helpers[h].active_tasks.contains_key(k)
            }
            &&& step.result matches Err(error) ==> error.status == 400 && !step.persist
                && step.state == c
            &&& j != k ==> step.state.tasks.contains_key(j) == c.tasks.contains_key(j)
                && step.state.tasks[j] == c.tasks[j]
            &&& step.state.helpers.contains_key(h) == c.helpers.contains_key(h)
            &&& c.helpers.contains_key(h) ==> {
                let after = step.state.helpers[h];
                let before = c.helpers[h];
                &&& after.owner_user == before.owner_user
                &&& after.capacity == before.capacity
                &&& after.last_seen_at == before.last_seen_at
                &&& j != k ==> after.active_task_ids.contains(j)
                    == before.active_task_ids.contains(j)
            }
            &&& step.state.blocked_helpers == c.blocked_helpers
        }),
{
    law_time_and_tasks(s, request.task_id, now);
}

/// The claims of a helper are cleared, one or all: the tasks are held by nobody then, and stay what they
/// are; the claims of other helpers are not touched.
pub proof fn law_claims_are_cleared(
    s: HubStateView,
    id: Seq<char>,
    task_id: Seq<char>,
    k: Seq<char>,
    now: u64,
)
    requires
        s.tasks.contains_key(k),
    ensures
        ({
            let all = super::cleanup::claims_cleared(s, id, now);
            let one = super::cleanup::task_claim_cleared(s, id, task_id, now);
            let t = s.tasks[k];
            let own = t.claimed_by_helper_id == Some(id);
            &&& all.tasks.contains_key(k)
            &&& own ==> all.tasks[k] == (TaskRecordView {
                claimed_by_helper_id: None,
                updated_at_unix_ms: now,
                ..t
            })
            &&& !own ==> all.tasks[k] == t
            &&& one.tasks.contains_key(k)
            &&& own && k == task_id ==> one.tasks[k] == all.tasks[k]
            &&& !own || k != task_id ==> one.tasks[k] == t
            &&& s.helpers.contains_key(id) ==> !one.helpers[id].active_task_ids.contains(task_id)
                && !one.helpers[id].active_tasks.contains_key(task_id) && (k != task_id
                ==> one.helpers[id].active_task_ids.contains(k)
                == s.helpers[id].active_task_ids.contains(k))
            &&& all.helpers == s.helpers
            &&& all.blocked_helpers == s.blocked_helpers
            &&& one.blocked_helpers == s.blocked_helpers
        }),
{
}

/// A task that is ready, takes launches, is not released, has a route to its tools, is held by nobody and was
/// heard of in time is not kept waiting: a helper of its owner that was heard of in time, is not blocked and
/// has room is given a task.
pub proof fn law_waiting_task_is_not_kept_waiting(
    s: HubStateView,
    request: ClaimTaskRequestView,
    j: Seq<char>,
    now: Now,
)
    requires
        s.tasks.dom().finite(),
        s.helpers.contains_key(request.helper_id),
        !s.blocked_helpers.contains_key(request.helper_id),
        now.instant - s.helpers[request.helper_id].last_seen_at
            <= s.config.helper_heartbeat_timeout_sec * 1_000_000_000,
        s.helpers[request.helper_id].active_task_ids.len() < s.helpers[request.helper_id].capacity,
        s.tasks.contains_key(j),
        s.tasks[j].owner_user == s.helpers[request.helper_id].owner_user,
        s.tasks[j].service_state == "ready"@,
        s.tasks[j].accepting_launches,
        !s.tasks[j].released,
        s.tasks[j].claimed_by_helper_id is None,
        s.tasks[j].routes.mcp_base_url is Some,
        now.instant - s.tasks[j].last_seen_at <= s.config.task_heartbeat_timeout_sec
            * 1_000_000_000,
    ensures
        ({
            let step = super::helpers::claim_step(s, request, now);
            &&& step.result is Ok
            &&& step.result->Ok_0.claimed
            &&& step.result->Ok_0.task is Some
        }),
{
    law_time_and_tasks(s, j, now);
    law_time_and_helpers(s, request.helper_id, now);
    law_claim_is_served(s, request, j, now);
}

/// A task that a request changes is marked as changed at that moment.
pub proof fn law_changed_tasks_are_dated(
    s: HubStateView,
    claim: ClaimTaskRequestView,
    heartbeat: TaskHeartbeatRequestView,
    release: ReleaseTaskRequestView,
    recovery: RecoverTaskRequestView,
    task_token: Seq<char>,
    k: Seq<char>,
    now: Now,
)
    requires
        s.tasks.contains_key(k),
    ensures
        ({
            let claimed = super::helpers::claim_step(s, claim, now).state.tasks[k];
            let heard = super::tasks::heartbeat_step(s, heartbeat, now).state.tasks[k];
            let released = super::tasks::release_step(s, release, now).state.tasks[k];
            let recovered = super::tasks::recover_step(s, recovery, task_token, now).state.tasks[k];
            &&& claimed != s.tasks[k] ==> claimed.updated_at_unix_ms == now.unix_ms
            &&& heard != s.tasks[k] ==> heard.updated_at_unix_ms == now.unix_ms
            &&& released != s.tasks[k] ==> released.updated_at_unix_ms == now.unix_ms
            &&& recovered != s.tasks[k] ==> recovered.updated_at_unix_ms == now.unix_ms
        }),
{
    law_time_and_tasks(s, k, now);
}

} // verus!
