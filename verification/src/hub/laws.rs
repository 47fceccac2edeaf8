//! What holds of a hub across requests.
use vstd::prelude::*;

use super::messages::{
    BlockHelperRequestView, ClaimTaskRequestView, ClaimTaskResponseView, CreateTaskRequestView,
    CreateTaskResponseView, HelperHeartbeatRequestView, RecoverTaskRequestView, RegisterHelperRequestView,
    ReleaseTaskRequestView, TaskHeartbeatRequestView, UnblockHelperRequestView,
};
use super::records::{HubStateView, TaskRecordView};
use crate::clock::Now;

verus! {

/// A task that has expired does not change when it expires again.
pub proof fn law_expiry_settles(task: TaskRecordView, first: u64, second: u64)
    ensures
        super::cleanup::expired(super::cleanup::expired(task, first), second)
            == super::cleanup::expired(task, first),
        super::cleanup::already_expired(super::cleanup::expired(task, first)),
{
}

/// Cleaning up twice at one moment is cleaning up once, and the second time changes nothing that
/// is written.
pub proof fn law_cleanup_settles(s: HubStateView, now: Now)
    ensures
        super::cleanup::cleaned(super::cleanup::cleaned(s, now), now) == super::cleanup::cleaned(
            s,
            now,
        ),
        !super::cleanup::cleanup_changes(super::cleanup::cleaned(s, now), now),
{
    let c = super::cleanup::cleaned(s, now);
    let d = super::cleanup::drains_forced(c, now.unix_ms);
    assert forall|k: Seq<char>| #[trigger] c.blocked_helpers.contains_key(
        k,
    ) implies !super::cleanup::drain_due(c.blocked_helpers[k], now.unix_ms) by {
        assert(s.blocked_helpers.contains_key(k));
    }
    assert(d.blocked_helpers =~= c.blocked_helpers);
    assert(d.tasks =~= c.tasks);
    assert(d.helpers =~= c.helpers);
    assert(d == c);
    let e = super::cleanup::stale_helpers_dropped(c, now);
    assert(e.helpers =~= c.helpers);
    assert(e.tasks =~= c.tasks);
    assert(e == c);
    let f = super::cleanup::stale_tasks_expired(c, now);
    assert forall|k: Seq<char>| #[trigger] c.tasks.contains_key(k) implies f.tasks[k]
        == c.tasks[k] by {}
    assert(f.tasks =~= c.tasks);
    assert(f == c);
}

/// Once its deadline has come a drain waits for nothing: what it waited for is recorded as released
/// by force, and none of it is still held by the helper.
pub proof fn law_drain_ends_at_its_deadline(s: HubStateView, id: Seq<char>, task_id: Seq<char>, now: Now)
    requires
        s.blocked_helpers.contains_key(id),
        now.unix_ms >= s.blocked_helpers[id].drain_deadline_at_unix_ms,
        s.blocked_helpers[id].pending_task_ids.contains(task_id),
    ensures
        super::cleanup::cleaned(s, now).blocked_helpers.contains_key(id),
        super::cleanup::cleaned(s, now).blocked_helpers[id].pending_task_ids == Set::<
            Seq<char>,
        >::empty(),
        super::cleanup::cleaned(s, now).blocked_helpers[id].force_released_task_ids.contains(
            task_id,
        ),
        !super::persist::holds(super::cleanup::cleaned(s, now).tasks, id, task_id),
        super::cleanup::cleanup_changes(s, now),
{
    assert(super::cleanup::drain_due(s.blocked_helpers[id], now.unix_ms));
    assert(super::cleanup::some_drain_due(s, now.unix_ms));
    let c = super::cleanup::cleaned(s, now);
    if c.tasks.contains_key(task_id) {
        assert(s.tasks.contains_key(task_id));
    }
}

/// Cleaning up keeps the blocked helpers blocked.
pub proof fn law_cleanup_keeps_blocks(s: HubStateView, now: Now)
    ensures
        super::cleanup::cleaned(s, now).blocked_helpers.dom() == s.blocked_helpers.dom(),
{
    assert(super::cleanup::cleaned(s, now).blocked_helpers.dom() =~= s.blocked_helpers.dom());
}

/// A blocked helper gets no task, and no task changes hands on its request.
pub proof fn law_blocked_helper_claims_nothing(s: HubStateView, request: ClaimTaskRequestView, now: Now)
    requires
        s.blocked_helpers.contains_key(request.helper_id),
    ensures
        super::helpers::claim_step(s, request, now).result matches Ok(answer) && !answer.claimed
            && answer.task is None,
        super::helpers::claim_step(s, request, now).state.tasks == super::cleanup::cleaned(
            s,
            now,
        ).tasks,
{
    law_cleanup_keeps_blocks(s, now);
    assert(super::cleanup::cleaned(s, now).blocked_helpers.dom().contains(request.helper_id));
}

/// The task in the answer waited for a helper of the owner of `id`, is now held by `id` within its
/// capacity, and is the only task that changed.
pub open spec fn claim_fair(
    c: HubStateView,
    after: HubStateView,
    id: Seq<char>,
    answer: ClaimTaskResponseView,
) -> bool {
    let helper = c.helpers[id];
    let k = answer.task->0.task_id;
    &&& answer.task is Some
    &&& c.tasks.contains_key(k)
    &&& super::helpers::claimable(c.tasks[k], helper.owner_user)
    &&& super::persist::holds(after.tasks, id, k)
    &&& forall|j: Seq<char>| j != k && #[trigger] c.tasks.contains_key(j) ==> after.tasks[j]
        == c.tasks[j]
    &&& after.helpers[id].active_task_ids.contains(k)
    &&& after.helpers[id].active_task_ids.len() <= helper.capacity
}

/// A claim gives out a task that waited for a helper of that owner and that nobody held; from then
/// on the helper holds it, every other task stays as it was, and the helper stays within its
/// capacity.
pub proof fn law_claim_takes_a_free_task(s: HubStateView, request: ClaimTaskRequestView, now: Now)
    requires
        super::records::hub_wf(s),
        super::cleanup::cleaned(s, now).helpers.contains_key(request.helper_id) ==> super::cleanup::cleaned(
            s,
            now,
        ).helpers[request.helper_id].active_task_ids.finite(),
    ensures
        super::helpers::claim_step(s, request, now).result matches Ok(answer) ==> (answer.claimed
            ==> claim_fair(
            super::cleanup::cleaned(s, now),
            super::helpers::claim_step(s, request, now).state,
            request.helper_id,
            answer,
        )),
{
    let c = super::cleanup::cleaned(s, now);
    let id = request.helper_id;
    if !c.blocked_helpers.contains_key(id) && c.helpers.contains_key(id)
        && c.helpers[id].active_task_ids.len() < c.helpers[id].capacity && (exists|k: Seq<char>|
        super::helpers::next_claim(c.tasks, c.helpers[id].owner_user, k)) {
        let k = choose|k: Seq<char>| super::helpers::next_claim(c.tasks, c.helpers[id].owner_user, k);
        assert(s.tasks.contains_key(k));
        assert(c.tasks[k].task_id == k);
        let ids = c.helpers[id].active_task_ids;
        assert(ids.insert(k).len() <= ids.len() + 1);
    }
}

/// While the drain of a helper waits for tasks the helper cannot be unblocked, and stays blocked.
pub proof fn law_unblock_waits_for_the_drain(
    s: HubStateView,
    request: UnblockHelperRequestView,
    id: Seq<char>,
    now: Now,
)
    requires
        crate::fields::required(request.helper_id) == Some(id),
        super::cleanup::cleaned(s, now).blocked_helpers.contains_key(id),
        super::cleanup::cleaned(s, now).blocked_helpers[id].pending_task_ids != Set::<
            Seq<char>,
        >::empty(),
    ensures
        super::helpers::unblock_step(s, true, request, now).result matches Err(error)
            && error.status == 409 && error.code == Some("helper_drain_pending"@),
        super::helpers::unblock_step(s, true, request, now).state.blocked_helpers.contains_key(id),
{
}

/// A block takes the helper off the hub and leaves every task as it was: the tasks that the helper
/// holds stay held until the helper reports or the drain is over, and the drain waits for them all.
pub proof fn law_block_keeps_claims(
    s: HubStateView,
    request: BlockHelperRequestView,
    id: Seq<char>,
    now: Now,
)
    requires
        crate::fields::required(request.helper_id) == Some(id),
    ensures
        super::helpers::block_step(s, true, request, now).state.tasks == super::cleanup::cleaned(
            s,
            now,
        ).tasks,
        !super::helpers::block_step(s, true, request, now).state.helpers.contains_key(id),
        super::helpers::block_step(s, true, request, now).state.blocked_helpers.contains_key(id),
        forall|k: Seq<char>| #[trigger]
            super::helpers::block_step(s, true, request, now).state.blocked_helpers[id].pending_task_ids.contains(
                k,
            ) <==> super::persist::holds(
                super::helpers::block_step(s, true, request, now).state.tasks,
                id,
                k,
            ),
{
}

/// Blocking a helper again starts no new drain: the start and the deadline stay, and what was
/// released by force is what it would be without the second block.
pub proof fn law_second_block_keeps_the_drain(
    s: HubStateView,
    request: BlockHelperRequestView,
    id: Seq<char>,
    now: Now,
)
    requires
        crate::fields::required(request.helper_id) == Some(id),
        s.blocked_helpers.contains_key(id),
    ensures
        ({
            let before = super::cleanup::blocked_after_drain(s.blocked_helpers[id], now.unix_ms);
            let after = super::helpers::block_step(s, true, request, now).state;
            &&& after.blocked_helpers.contains_key(id)
            &&& after.blocked_helpers[id].drain_started_at_unix_ms
                == s.blocked_helpers[id].drain_started_at_unix_ms
            &&& after.blocked_helpers[id].drain_deadline_at_unix_ms
                == s.blocked_helpers[id].drain_deadline_at_unix_ms
            &&& after.blocked_helpers[id].force_released_task_ids == before.force_released_task_ids
        }),
{
    assert(super::cleanup::cleaned(s, now).blocked_helpers.contains_key(id));
}

/// The task `key` after all that time does to it: free where its helper was due to give it up or has
/// been silent for too long, and expired where the task itself has.
pub open spec fn task_after_time(s: HubStateView, key: Seq<char>, now: Now) -> TaskRecordView {
    let task = s.tasks[key];
    let kept = if super::cleanup::held_by_due_drain(s.blocked_helpers, key, task, now.unix_ms)
        || super::cleanup::freed_by_cleanup(s, task, now) {
        super::cleanup::unclaimed(task, now.unix_ms)
    } else {
        task
    };
    if super::cleanup::task_lapses(kept, s.config.task_heartbeat_timeout_sec, now) {
        super::cleanup::expired(kept, now.unix_ms)
    } else {
        kept
    }
}

/// From `s` to `after` the helper `other` and the tasks that it held have met with nothing but time:
/// a due drain of it was forced, it was dropped where it had been silent for too long, and its tasks
/// are as time leaves them.
pub open spec fn left_to_time(s: HubStateView, after: HubStateView, other: Seq<char>, now: Now) -> bool {
    &&& after.blocked_helpers.contains_key(other) == s.blocked_helpers.contains_key(other)
    &&& s.blocked_helpers.contains_key(other) ==> after.blocked_helpers[other]
        == super::cleanup::blocked_after_drain(s.blocked_helpers[other], now.unix_ms)
    &&& after.helpers.contains_key(other) == (s.helpers.contains_key(other)
        && !super::cleanup::helper_stale(
        s.helpers[other],
        s.config.helper_heartbeat_timeout_sec,
        now,
    ))
    &&& after.helpers.contains_key(other) ==> after.helpers[other]
        == super::cleanup::helper_after_drains(
        s.blocked_helpers,
        other,
        s.helpers[other],
        now.unix_ms,
    )
    &&& forall|k: Seq<char>| #[trigger]
        super::persist::holds(s.tasks, other, k) ==> after.tasks.contains_key(k) && after.tasks[k]
            == task_after_time(s, k, now)
}

/// Cleaning up leaves every helper and its tasks as time leaves them.
proof fn lemma_cleanup_is_time(s: HubStateView, other: Seq<char>, now: Now)
    ensures
        left_to_time(s, super::cleanup::cleaned(s, now), other, now),
{
    let c = super::cleanup::cleaned(s, now);
    assert forall|k: Seq<char>| #[trigger] super::persist::holds(
        s.tasks,
        other,
        k,
    ) implies c.tasks.contains_key(k) && c.tasks[k] == task_after_time(s, k, now) by {
        let d = super::cleanup::drains_forced(s, now.unix_ms);
        assert(d.tasks.contains_key(k));
        assert(d.helpers.contains_key(other) == s.helpers.contains_key(other));
    }
}

/// To block a helper, for the first time or again, and to take the report of a blocked one, leaves
/// every other helper and what it holds to time: another drain whose deadline has come is forced in
/// the same call, another helper that has been silent for too long is dropped and its tasks are
/// free, and whoever has time left keeps what it has.
pub proof fn law_other_helpers_are_left_to_time(
    s: HubStateView,
    block: BlockHelperRequestView,
    report: HelperHeartbeatRequestView,
    id: Seq<char>,
    other: Seq<char>,
    now: Now,
)
    requires
        other != id,
        crate::fields::required(block.helper_id) == Some(id),
        report.helper_id == id,
    ensures
        left_to_time(s, super::helpers::block_step(s, true, block, now).state, other, now),
        s.blocked_helpers.contains_key(id) ==> left_to_time(
            s,
            super::helpers::report_step(s, report, now).state,
            other,
            now,
        ),
{
    let c = super::cleanup::cleaned(s, now);
    lemma_cleanup_is_time(s, other, now);
    if s.blocked_helpers.contains_key(id) {
        law_cleanup_keeps_blocks(s, now);
        assert(c.blocked_helpers.dom().contains(id));
        let after = super::helpers::report_step(s, report, now).state;
        if s.blocked_helpers.contains_key(other) {
            assert(c.blocked_helpers.contains_key(other));
            assert(!super::cleanup::drain_due(c.blocked_helpers[other], now.unix_ms));
        }
        assert forall|k: Seq<char>| #[trigger] super::persist::holds(
            s.tasks,
            other,
            k,
        ) implies after.tasks.contains_key(k) && after.tasks[k] == task_after_time(s, k, now) by {
            assert(c.tasks.contains_key(k) && c.tasks[k] == task_after_time(s, k, now));
            assert(c.tasks[k].claimed_by_helper_id is None || c.tasks[k].claimed_by_helper_id
                == Some(other));
        }
    }
}

/// When a blocked helper reports and no longer has a task that its drain waits for, the task is
/// free and the drain waits for it no more; a task that the helper still has stays held while the
/// drain has time left.
pub proof fn law_report_acknowledges_the_drain(
    s: HubStateView,
    request: HelperHeartbeatRequestView,
    task_id: Seq<char>,
    now: Now,
)
    requires
        super::cleanup::cleaned(s, now).blocked_helpers.contains_key(request.helper_id),
        super::cleanup::cleaned(s, now).blocked_helpers[request.helper_id].pending_task_ids.contains(
            task_id,
        ),
    ensures
        ({
            let c = super::cleanup::cleaned(s, now);
            let after = super::helpers::report_step(s, request, now).state;
            let reported = super::helpers::reported_tasks(request);
            &&& after.blocked_helpers.contains_key(request.helper_id)
            &&& !reported.contains(task_id) ==> {
                &&& !after.blocked_helpers[request.helper_id].pending_task_ids.contains(task_id)
                &&& !super::persist::holds(after.tasks, request.helper_id, task_id)
            }
            &&& reported.contains(task_id) && now.unix_ms
                < c.blocked_helpers[request.helper_id].drain_deadline_at_unix_ms ==> {
                &&& after.blocked_helpers[request.helper_id].pending_task_ids.contains(task_id)
                &&& super::persist::holds(after.tasks, request.helper_id, task_id)
                    == super::persist::holds(c.tasks, request.helper_id, task_id)
            }
        }),
{
    let c = super::cleanup::cleaned(s, now);
    let id = request.helper_id;
    let reported = super::helpers::reported_tasks(request);
    let after = super::helpers::report_step(s, request, now).state;
    if after.tasks.contains_key(task_id) {
        assert(c.tasks.contains_key(task_id));
    }
    if c.tasks.contains_key(task_id) {
        assert(after.tasks.contains_key(task_id));
    }
}

/// No request takes the revision back, and one whose outcome is written moves it on, until the
/// counter is used up.
pub proof fn law_revision_grows(
    s: HubStateView,
    create: CreateTaskRequestView,
    task_id: Seq<char>,
    task_token: Seq<char>,
    recover_token: Seq<char>,
    recover: RecoverTaskRequestView,
    heartbeat: TaskHeartbeatRequestView,
    release: ReleaseTaskRequestView,
    register: RegisterHelperRequestView,
    block: BlockHelperRequestView,
    unblock: UnblockHelperRequestView,
    report: HelperHeartbeatRequestView,
    claim: ClaimTaskRequestView,
    admin: bool,
    now: Now,
)
    ensures
        ({
            let step = super::tasks::create_step(
                s,
                create,
                task_id,
                task_token,
                recover_token,
                now,
            );
            revision_kept(s, step.state, step.persist)
        }),
        ({
            let step = super::tasks::recover_step(s, recover, task_token, now);
            revision_kept(s, step.state, step.persist)
        }),
        ({
            let step = super::tasks::heartbeat_step(s, heartbeat, now);
            revision_kept(s, step.state, step.persist)
        }),
        ({
            let step = super::tasks::release_step(s, release, now);
            revision_kept(s, step.state, step.persist)
        }),
        ({
            let step = super::helpers::register_step(s, register, now);
            revision_kept(s, step.state, step.persist)
        }),
        ({
            let step = super::helpers::block_step(s, admin, block, now);
            revision_kept(s, step.state, step.persist)
        }),
        ({
            let step = super::helpers::unblock_step(s, admin, unblock, now);
            revision_kept(s, step.state, step.persist)
        }),
        ({
            let step = super::helpers::report_step(s, report, now);
            revision_kept(s, step.state, step.persist)
        }),
        ({
            let step = super::helpers::claim_step(s, claim, now);
            revision_kept(s, step.state, step.persist)
        }),
{
}

/// The revision after a request: one on if the outcome is written, else the same.
pub open spec fn revision_kept(before: HubStateView, after: HubStateView, written: bool) -> bool {
    after.state_revision == if written {
        crate::clock::more(before.state_revision, 1)
    } else {
        before.state_revision
    }
}

/// No helper is both registered and blocked.
pub open spec fn blocked_apart(s: HubStateView) -> bool {
    forall|k: Seq<char>| #[trigger] s.helpers.contains_key(k) ==> !s.blocked_helpers.contains_key(k)
}

/// Every request keeps registered and blocked helpers apart.
pub proof fn law_blocked_helpers_stay_apart(
    s: HubStateView,
    create: CreateTaskRequestView,
    task_id: Seq<char>,
    task_token: Seq<char>,
    recover_token: Seq<char>,
    recover: RecoverTaskRequestView,
    heartbeat: TaskHeartbeatRequestView,
    release: ReleaseTaskRequestView,
    register: RegisterHelperRequestView,
    block: BlockHelperRequestView,
    unblock: UnblockHelperRequestView,
    report: HelperHeartbeatRequestView,
    claim: ClaimTaskRequestView,
    admin: bool,
    now: Now,
)
    requires
        blocked_apart(s),
    ensures
        blocked_apart(
            super::tasks::create_step(s, create, task_id, task_token, recover_token, now).state,
        ),
        blocked_apart(super::tasks::recover_step(s, recover, task_token, now).state),
        blocked_apart(super::tasks::heartbeat_step(s, heartbeat, now).state),
        blocked_apart(super::tasks::release_step(s, release, now).state),
        blocked_apart(super::helpers::register_step(s, register, now).state),
        blocked_apart(super::helpers::block_step(s, admin, block, now).state),
        blocked_apart(super::helpers::unblock_step(s, admin, unblock, now).state),
        blocked_apart(super::helpers::report_step(s, report, now).state),
        blocked_apart(super::helpers::claim_step(s, claim, now).state),
{
    let c = super::cleanup::cleaned(s, now);
    assert(blocked_apart(c)) by {
        assert forall|k: Seq<char>| #[trigger] c.helpers.contains_key(
            k,
        ) implies !c.blocked_helpers.contains_key(k) by {
            assert(s.helpers.contains_key(k));
        }
    }
    let released = super::tasks::release_step(s, release, now).state;
    assert forall|k: Seq<char>| #[trigger] released.helpers.contains_key(
        k,
    ) implies !released.blocked_helpers.contains_key(k) by {
        assert(c.helpers.contains_key(k));
    }
    let registered = super::helpers::register_step(s, register, now).state;
    assert forall|k: Seq<char>| #[trigger] registered.helpers.contains_key(
        k,
    ) implies !registered.blocked_helpers.contains_key(k) by {
        if c.helpers.contains_key(k) {
        }
    }
    let blocked = super::helpers::block_step(s, admin, block, now).state;
    assert forall|k: Seq<char>| #[trigger] blocked.helpers.contains_key(
        k,
    ) implies !blocked.blocked_helpers.contains_key(k) by {
        if c.helpers.contains_key(k) {
        }
    }
    let reported = super::helpers::report_step(s, report, now).state;
    assert forall|k: Seq<char>| #[trigger] reported.helpers.contains_key(
        k,
    ) implies !reported.blocked_helpers.contains_key(k) by {
        if c.helpers.contains_key(k) {
        }
    }
    let claimed = super::helpers::claim_step(s, claim, now).state;
    assert forall|k: Seq<char>| #[trigger] claimed.helpers.contains_key(
        k,
    ) implies !claimed.blocked_helpers.contains_key(k) by {
        if c.helpers.contains_key(k) {
        }
    }
}

/// A released task stays released, whatever is asked of the hub, unless chance gives its identifier
/// to a new task.
pub proof fn law_released_tasks_stay_released(
    s: HubStateView,
    k: Seq<char>,
    create: CreateTaskRequestView,
    task_id: Seq<char>,
    task_token: Seq<char>,
    recover_token: Seq<char>,
    recover: RecoverTaskRequestView,
    heartbeat: TaskHeartbeatRequestView,
    release: ReleaseTaskRequestView,
    report: HelperHeartbeatRequestView,
    claim: ClaimTaskRequestView,
    now: Now,
)
    requires
        super::records::hub_wf(s),
        s.tasks.contains_key(k),
        s.tasks[k].released,
        task_id != k,
    ensures
        released_in(
            super::tasks::create_step(s, create, task_id, task_token, recover_token, now).state,
            k,
        ),
        released_in(super::tasks::recover_step(s, recover, task_token, now).state, k),
        released_in(super::tasks::heartbeat_step(s, heartbeat, now).state, k),
        released_in(super::tasks::release_step(s, release, now).state, k),
        released_in(super::helpers::report_step(s, report, now).state, k),
        released_in(super::helpers::claim_step(s, claim, now).state, k),
{
    let c = super::cleanup::cleaned(s, now);
    assert(c.tasks.contains_key(k) && c.tasks[k].released && c.tasks[k].task_id == k);
    assert forall|j: Seq<char>| #[trigger] c.tasks.contains_key(j) implies c.tasks[j].task_id == j by {
        assert(s.tasks.contains_key(j));
    }
    let claimed = super::helpers::claim_step(s, claim, now).state;
    if claimed.tasks != c.tasks {
        let owner = c.helpers[claim.helper_id].owner_user;
        let chosen = choose|j: Seq<char>| super::helpers::next_claim(c.tasks, owner, j);
        assert(chosen != k);
    }
}

/// The task is there and released.
pub open spec fn released_in(s: HubStateView, k: Seq<char>) -> bool {
    s.tasks.contains_key(k) && s.tasks[k].released
}

/// No two tasks serve one cluster.
pub open spec fn clusters_apart(s: HubStateView) -> bool {
    forall|j: Seq<char>, k: Seq<char>, key: Seq<char>|
        #![trigger super::tasks::serves_cluster(s.tasks[j], key), super::tasks::serves_cluster(
            s.tasks[k],
            key,
        )]
        s.tasks.contains_key(j) && s.tasks.contains_key(k) && super::tasks::serves_cluster(
            s.tasks[j],
            key,
        ) && super::tasks::serves_cluster(s.tasks[k], key) ==> j == k
}

/// What serves a cluster afterwards served it before.
proof fn lemma_fewer_serve(before: HubStateView, after: HubStateView)
    requires
        clusters_apart(before),
        forall|k: Seq<char>, key: Seq<char>|
            #![trigger super::tasks::serves_cluster(after.tasks[k], key)]
            after.tasks.contains_key(k) && super::tasks::serves_cluster(after.tasks[k], key)
                ==> before.tasks.contains_key(k) && super::tasks::serves_cluster(
                before.tasks[k],
                key,
            ),
    ensures
        clusters_apart(after),
{
}

/// Every request keeps the clusters of the tasks apart, but for the recovery of a task that has
/// expired, whose cluster may have another task by then.
pub proof fn law_clusters_stay_apart(
    s: HubStateView,
    create: CreateTaskRequestView,
    task_id: Seq<char>,
    task_token: Seq<char>,
    recover_token: Seq<char>,
    recover: RecoverTaskRequestView,
    heartbeat: TaskHeartbeatRequestView,
    release: ReleaseTaskRequestView,
    register: RegisterHelperRequestView,
    block: BlockHelperRequestView,
    unblock: UnblockHelperRequestView,
    report: HelperHeartbeatRequestView,
    claim: ClaimTaskRequestView,
    admin: bool,
    now: Now,
)
    requires
        super::records::hub_wf(s),
        clusters_apart(s),
    ensures
        clusters_apart(
            super::tasks::create_step(s, create, task_id, task_token, recover_token, now).state,
        ),
        super::cleanup::cleaned(s, now).tasks[recover.task_id].service_state != "expired"@
            ==> clusters_apart(super::tasks::recover_step(s, recover, task_token, now).state),
        clusters_apart(super::tasks::heartbeat_step(s, heartbeat, now).state),
        clusters_apart(super::tasks::release_step(s, release, now).state),
        clusters_apart(super::helpers::register_step(s, register, now).state),
        clusters_apart(super::helpers::block_step(s, admin, block, now).state),
        clusters_apart(super::helpers::unblock_step(s, admin, unblock, now).state),
        clusters_apart(super::helpers::report_step(s, report, now).state),
        clusters_apart(super::helpers::claim_step(s, claim, now).state),
{
    reveal_strlit("expired");
    reveal_strlit("released");
    let c = super::cleanup::cleaned(s, now);
    lemma_fewer_serve(s, c);
    assert forall|k: Seq<char>| #[trigger] c.tasks.contains_key(k) implies c.tasks[k].task_id == k by {
        assert(s.tasks.contains_key(k));
    }
    let created = super::tasks::create_step(s, create, task_id, task_token, recover_token, now).state;
    assert(clusters_apart(created));
    if super::cleanup::cleaned(s, now).tasks[recover.task_id].service_state != "expired"@ {
        lemma_fewer_serve(c, super::tasks::recover_step(s, recover, task_token, now).state);
    }
    lemma_fewer_serve(c, super::tasks::heartbeat_step(s, heartbeat, now).state);
    lemma_fewer_serve(c, super::tasks::release_step(s, release, now).state);
    lemma_fewer_serve(c, super::helpers::register_step(s, register, now).state);
    if admin {
        lemma_fewer_serve(c, super::helpers::block_step(s, admin, block, now).state);
        lemma_fewer_serve(c, super::helpers::unblock_step(s, admin, unblock, now).state);
    }
    lemma_fewer_serve(c, super::helpers::report_step(s, report, now).state);
    lemma_fewer_serve(c, super::helpers::claim_step(s, claim, now).state);
}

/// A cluster that has just got a task gets no second one at that moment.
pub proof fn law_new_cluster_is_taken(
    s: HubStateView,
    first: CreateTaskRequestView,
    task_id: Seq<char>,
    task_token: Seq<char>,
    recover_token: Seq<char>,
    second: CreateTaskRequestView,
    other_id: Seq<char>,
    other_token: Seq<char>,
    other_recover_token: Seq<char>,
    now: Now,
)
    requires
        super::tasks::create_step(s, first, task_id, task_token, recover_token, now).result is Ok,
        crate::text::trimmed(second.cluster_key) == crate::text::trimmed(first.cluster_key),
    ensures
        ({
            let taken = super::tasks::create_step(
                s,
                first,
                task_id,
                task_token,
                recover_token,
                now,
            ).state;
            let step = super::tasks::create_step(
                taken,
                second,
                other_id,
                other_token,
                other_recover_token,
                now,
            );
            step.result == Err::<CreateTaskResponseView, super::messages::HubErrorView>(
                super::messages::bad_request(
                    super::tasks::cluster_message(crate::text::trimmed(first.cluster_key)),
                ),
            ) && !step.persist
        }),
{
    let taken = super::tasks::create_step(s, first, task_id, task_token, recover_token, now).state;
    let c = super::cleanup::cleaned(taken, now);
    reveal_strlit("starting");
    reveal_strlit("expired");
    assert("starting"@.len() != "expired"@.len());
    assert(taken.tasks.contains_key(task_id));
    assert(c.tasks.contains_key(task_id));
    assert(super::tasks::serves_cluster(
        c.tasks[task_id],
        crate::text::trimmed(first.cluster_key),
    ));
    assert(super::tasks::cluster_active(c, crate::text::trimmed(first.cluster_key)));
}

/// A request with the wrong token is refused and changes nothing beyond what time asks for.
pub proof fn law_wrong_token_is_refused(
    s: HubStateView,
    heartbeat: TaskHeartbeatRequestView,
    release: ReleaseTaskRequestView,
    recover: RecoverTaskRequestView,
    task_token: Seq<char>,
    now: Now,
)
    requires
        s.tasks.contains_key(heartbeat.task_id),
        s.tasks[heartbeat.task_id].task_token != heartbeat.task_token,
        s.tasks.contains_key(release.task_id),
        s.tasks[release.task_id].task_token != release.task_token,
        s.tasks.contains_key(recover.task_id),
        s.tasks[recover.task_id].recover_token != recover.recover_token,
    ensures
        super::tasks::heartbeat_step(s, heartbeat, now) == super::messages::refused::<()>(
            super::cleanup::cleaned(s, now),
            super::messages::bad_request("task token mismatch"@),
        ),
        super::tasks::release_step(s, release, now) == super::messages::refused::<()>(
            super::cleanup::cleaned(s, now),
            super::messages::bad_request("task token mismatch"@),
        ),
        super::tasks::recover_step(s, recover, task_token, now).result is Err,
        super::tasks::recover_step(s, recover, task_token, now).state == super::cleanup::cleaned(
            s,
            now,
        ),
{
    let c = super::cleanup::cleaned(s, now);
    assert(c.tasks.contains_key(heartbeat.task_id));
    assert(c.tasks.contains_key(release.task_id));
    assert(c.tasks.contains_key(recover.task_id));
}

/// A task that is recovered goes by its new token: at that moment a heartbeat with the new one is
/// taken, and one with the old one is refused.
pub proof fn law_recovery_replaces_the_token(
    s: HubStateView,
    recover: RecoverTaskRequestView,
    task_token: Seq<char>,
    heartbeat: TaskHeartbeatRequestView,
    now: Now,
)
    requires
        super::records::hub_wf(s),
        super::tasks::recover_step(s, recover, task_token, now).result is Ok,
        heartbeat.task_id == recover.task_id,
        crate::fields::required(heartbeat.service_state) is Some,
    ensures
        ({
            let after = super::tasks::recover_step(s, recover, task_token, now).state;
            super::tasks::heartbeat_step(after, heartbeat, now).result is Ok
                <==> heartbeat.task_token == task_token
        }),
{
    let after = super::tasks::recover_step(s, recover, task_token, now).state;
    let c = super::cleanup::cleaned(after, now);
    reveal_strlit("recovering");
    reveal_strlit("expired");
    assert("recovering"@.len() != "expired"@.len());
    assert(s.tasks.contains_key(recover.task_id));
    assert(super::cleanup::cleaned(s, now).tasks[recover.task_id].task_id == recover.task_id);
    assert(after.tasks.contains_key(recover.task_id));
    assert(c.tasks.contains_key(recover.task_id));
}

} // verus!
