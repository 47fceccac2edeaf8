//! What a hub owes its helpers and those who administer them, said of the records before and after each
//! request.
use vstd::prelude::*;

use super::duties::silent;
use super::messages::{
    BlockHelperRequestView, ClaimTaskRequestView, HelperHeartbeatRequestView,
    RegisterHelperRequestView, UnblockHelperRequestView,
};
use super::records::{HelperActiveTaskRecordView, HubStateView, TaskRecordView};
use crate::clock::Now;

verus! {

/// The helper is known and was heard of within the helper timeout.
pub open spec fn present(s: HubStateView, id: Seq<char>, now: Now) -> bool {
    s.helpers.contains_key(id) && !silent(
        s.helpers[id].last_seen_at,
        s.config.helper_heartbeat_timeout_sec,
        now,
    )
}

/// The task is held by the helper.
pub open spec fn held(s: HubStateView, id: Seq<char>, k: Seq<char>) -> bool {
    s.tasks.contains_key(k) && s.tasks[k].claimed_by_helper_id == Some(id)
}

/// The task is the same but for its holder and the moment it was written to.
pub open spec fn same_but_holder(a: TaskRecordView, b: TaskRecordView) -> bool {
    a == (TaskRecordView {
        claimed_by_helper_id: a.claimed_by_helper_id,
        updated_at_unix_ms: a.updated_at_unix_ms,
        ..b
    })
}

/// The report names the task, in either of its two lists.
pub open spec fn names(request: HelperHeartbeatRequestView, k: Seq<char>) -> bool {
    ||| request.active_task_ids.contains(k)
    ||| exists|i: int|
        0 <= i < request.active_tasks.len() && #[trigger] request.active_tasks[i].task_id == k
}

/// The `i`th item of the report is the last one on the task.
pub open spec fn last_on(list: Seq<HelperActiveTaskRecordView>, k: Seq<char>, i: int) -> bool {
    &&& 0 <= i < list.len()
    &&& list[i].task_id == k
    &&& forall|j: int| i < j < list.len() ==> #[trigger] list[j].task_id != k
}

proof fn lemma_names(request: HelperHeartbeatRequestView, k: Seq<char>)
    ensures
        names(request, k) <==> super::helpers::reported_tasks(request).contains(k),
        super::helpers::reported_tasks(request).finite(),
{
    let ids = request.active_tasks.map_values(|t: HelperActiveTaskRecordView| t.task_id);
    broadcast use vstd::seq_lib::seq_to_set_is_finite;

    assert(ids.contains(k) <==> exists|i: int|
        0 <= i < request.active_tasks.len() && #[trigger] request.active_tasks[i].task_id == k) by {
        if ids.contains(k) {
            let i = ids.index_of(k);
            assert(request.active_tasks[i].task_id == k);
        }
        if exists|i: int|
            0 <= i < request.active_tasks.len() && #[trigger] request.active_tasks[i].task_id == k {
            let i = choose|i: int|
                0 <= i < request.active_tasks.len() && #[trigger] request.active_tasks[i].task_id == k;
            assert(ids[i] == k);
        }
    }
}

/// A helper is taken in exactly where it says who it is, is not blocked, no helper of that name is there
/// and all fields are given. It is then known as it said it is, serves nothing yet, and is told how often
/// to report. Nothing else changes but what time changes.
pub proof fn law_registration_is_taken_down(
    s: HubStateView,
    request: RegisterHelperRequestView,
    now: Now,
)
    ensures
        ({
            let id = crate::text::trimmed(request.helper_id);
            let c = super::cleanup::cleaned(s, now);
            let step = super::helpers::register_step(s, request, now);
            let h = step.state.helpers[id];
            &&& step.result is Ok <==> {
                &&& id.len() > 0
                &&& !s.blocked_helpers.contains_key(id)
                &&& !present(s, id, now)
                &&& crate::text::trimmed(request.owner_user).len() > 0
                &&& crate::text::trimmed(request.platform).len() > 0
            }
            &&& step.result matches Ok(told) ==> {
                &&& told.helper_id == id
                &&& told.heartbeat_interval_sec == s.config.heartbeat_interval_sec
                &&& told.heartbeat_timeout_sec == s.config.helper_heartbeat_timeout_sec
                &&& step.state.helpers.contains_key(id)
                &&& h.helper_id == id
                &&& h.owner_user == crate::text::trimmed(request.owner_user)
                &&& h.platform == crate::text::trimmed(request.platform)
                &&& h.capacity == request.capacity
                &&& h.labels == request.labels
                &&& h.active_task_ids == Set::<Seq<char>>::empty()
                &&& h.active_tasks == Map::<Seq<char>, HelperActiveTaskRecordView>::empty()
                &&& h.registered_at_unix_ms == now.unix_ms
                &&& h.last_seen_at == now.instant
            }
            &&& step.result matches Err(error) ==> {
                &&& step.state.helpers == c.helpers
                &&& id.len() > 0 && s.blocked_helpers.contains_key(id) ==> error.status == 403
                    && error.code == Some("helper_id_blocked"@) && error.message
                    == "helper_id is blocked: "@ + id
                &&& id.len() > 0 && !s.blocked_helpers.contains_key(id) && present(s, id, now)
                    ==> error.status == 409 && error.code == Some("helper_id_conflict"@)
                &&& id.len() == 0 || (!s.blocked_helpers.contains_key(id) && !present(s, id, now))
                    ==> error.status == 400 && error.code is None
            }
            &&& forall|k: Seq<char>| #[trigger]
                c.helpers.contains_key(k) && k != id ==> step.state.helpers.contains_key(k)
                    && step.state.helpers[k] == c.helpers[k]
            &&& forall|k: Seq<char>| #[trigger]
                step.state.helpers.contains_key(k) && k != id ==> c.helpers.contains_key(k)
            &&& step.state.tasks == c.tasks
            &&& step.state.blocked_helpers == c.blocked_helpers
        }),
{
    let id = crate::text::trimmed(request.helper_id);
    super::duties::law_time_and_helpers(s, id, now);
    super::duties::law_time_and_drains(s, id, now);
}

/// A helper that registered, reported or was given a task stays known as long as no more than the helper
/// timeout has gone by: its claims stay with it, and nobody else can take its name.
pub proof fn law_heard_helper_stays(
    s: HubStateView,
    register: RegisterHelperRequestView,
    report: HelperHeartbeatRequestView,
    claim: ClaimTaskRequestView,
    other: RegisterHelperRequestView,
    now: Now,
    later: Now,
)
    requires
        later.instant - now.instant <= s.config.helper_heartbeat_timeout_sec * 1_000_000_000,
        crate::text::trimmed(other.helper_id).len() > 0,
    ensures
        ({
            let id = crate::text::trimmed(other.helper_id);
            let step = super::helpers::register_step(s, register, now);
            step.result is Ok && crate::text::trimmed(register.helper_id) == id ==> {
                &&& super::cleanup::cleaned(step.state, later).helpers.contains_key(id)
                &&& super::helpers::register_step(step.state, other, later).result is Err
                &&& super::helpers::register_step(step.state, other, later).result->Err_0.status
                    == 409
            }
        }),
        ({
            let id = crate::text::trimmed(other.helper_id);
            let step = super::helpers::report_step(s, report, now);
            step.result is Ok && step.result->Ok_0.ok && report.helper_id == id ==> {
                &&& super::cleanup::cleaned(step.state, later).helpers.contains_key(id)
                &&& super::helpers::register_step(step.state, other, later).result is Err
                &&& super::helpers::register_step(step.state, other, later).result->Err_0.status
                    == 409
            }
        }),
        ({
            let id = crate::text::trimmed(other.helper_id);
            let step = super::helpers::claim_step(s, claim, now);
            step.result is Ok && step.result->Ok_0.claimed && claim.helper_id == id ==> {
                &&& super::cleanup::cleaned(step.state, later).helpers.contains_key(id)
                &&& super::helpers::register_step(step.state, other, later).result is Err
                &&& super::helpers::register_step(step.state, other, later).result->Err_0.status
                    == 409
            }
        }),
{
    let id = crate::text::trimmed(other.helper_id);
    let first = super::helpers::register_step(s, register, now).state;
    let second = super::helpers::report_step(s, report, now).state;
    let third = super::helpers::claim_step(s, claim, now).state;
    assert(first.config == s.config && second.config == s.config && third.config == s.config);
    law_registration_is_taken_down(s, register, now);
    law_registration_is_taken_down(first, other, later);
    law_registration_is_taken_down(second, other, later);
    law_registration_is_taken_down(third, other, later);
    super::duties::law_time_and_helpers(first, id, later);
    super::duties::law_time_and_helpers(second, id, later);
    super::duties::law_time_and_helpers(third, id, later);
    super::duties::law_time_and_drains(s, id, now);
}

proof fn lemma_reports(list: Seq<HelperActiveTaskRecordView>, ids: Set<Seq<char>>, k: Seq<char>)
    ensures
        ({
            let reports = super::helpers::reports_on(list, ids);
            &&& reports.contains_key(k) <==> ids.contains(k) && exists|i: int| last_on(list, k, i)
            &&& forall|i: int| #[trigger] last_on(list, k, i) && ids.contains(k) ==> reports[k]
                == list[i]
        }),
    decreases list.len(),
{
    if list.len() > 0 {
        let shorter = list.drop_last();
        lemma_reports(shorter, ids, k);
        if list.last().task_id == k {
            assert(last_on(list, k, list.len() - 1));
        } else {
            if exists|i: int| last_on(shorter, k, i) {
                let i = choose|i: int| last_on(shorter, k, i);
                assert forall|j: int| i < j < list.len() implies #[trigger] list[j].task_id != k by {
                    if j < list.len() - 1 {
                        assert(shorter[j].task_id != k);
                    }
                }
                assert(last_on(list, k, i));
            }
        }
        assert forall|i: int| #[trigger] last_on(list, k, i) && ids.contains(k) implies super::helpers::reports_on(
            list,
            ids,
        )[k] == list[i] by {
            if i < list.len() - 1 {
                assert(list[list.len() - 1].task_id != k);
                assert(last_on(shorter, k, i)) by {
                    assert forall|j: int| i < j < shorter.len() implies #[trigger] shorter[j].task_id
                        != k by {
                        assert(shorter[j] == list[j]);
                    }
                }
            }
        }
        if exists|i: int| last_on(list, k, i) {
            let i = choose|i: int| last_on(list, k, i);
            if i < list.len() - 1 {
                assert(list[list.len() - 1].task_id != k);
                assert(last_on(shorter, k, i)) by {
                    assert forall|j: int| i < j < shorter.len() implies #[trigger] shorter[j].task_id
                        != k by {
                        assert(shorter[j] == list[j]);
                    }
                }
            }
        }
    }
}

/// A helper that reports keeps the tasks that it names and holds, and what it says of them last. What it
/// holds and does not name is free again; it is told to let go of that, and of what it names and does not
/// hold, of what is released and of what is expired, and of nothing else.
pub proof fn law_report_is_taken_down(
    s: HubStateView,
    request: HelperHeartbeatRequestView,
    k: Seq<char>,
    now: Now,
)
    requires
        super::records::hub_wf(s),
        s.tasks.dom().finite(),
        !s.blocked_helpers.contains_key(request.helper_id),
    ensures
        ({
            let id = request.helper_id;
            let c = super::cleanup::cleaned(s, now);
            let step = super::helpers::report_step(s, request, now);
            let h = step.state.helpers[id];
            let lost = held(c, id, k) && !names(request, k);
            let kept = held(c, id, k) && names(request, k) && !c.tasks[k].released
                && c.tasks[k].service_state != "expired"@;
            &&& step.result is Ok <==> present(s, id, now)
            &&& step.result matches Err(error) ==> error.status == 400 && error.message
                == "helper not found: "@ + id && step.state.helpers == c.helpers
            &&& step.state.tasks.contains_key(k) == c.tasks.contains_key(k)
            &&& c.tasks.contains_key(k) ==> {
                &&& same_but_holder(step.state.tasks[k], c.tasks[k])
                &&& step.state.tasks[k].claimed_by_helper_id == if lost {
                    None
                } else {
                    c.tasks[k].claimed_by_helper_id
                }
                &&& !lost ==> step.state.tasks[k] == c.tasks[k]
            }
            &&& lost ==> step.persist
            &&& step.result matches Ok(answer) ==> {
                &&& answer.ok
                &&& answer.release_task_ids.contains(k) <==> lost || (names(request, k) && !kept)
                &&& step.state.helpers.contains_key(id)
                &&& h.active_task_ids.contains(k) <==> kept
                &&& h.active_tasks.contains_key(k) <==> kept && exists|i: int|
                    last_on(request.active_tasks, k, i)
                &&& forall|i: int| #[trigger]
                    last_on(request.active_tasks, k, i) && kept ==> h.active_tasks[k]
                        == request.active_tasks[i]
                &&& h.last_seen_at == now.instant
                &&& h.helper_id == s.helpers[id].helper_id
                &&& h.owner_user == s.helpers[id].owner_user
                &&& h.platform == s.helpers[id].platform
                &&& h.capacity == s.helpers[id].capacity
                &&& h.labels == s.helpers[id].labels
                &&& h.registered_at_unix_ms == s.helpers[id].registered_at_unix_ms
            }
            &&& step.state.blocked_helpers == c.blocked_helpers
            &&& forall|o: Seq<char>| #[trigger]
                c.helpers.contains_key(o) && o != id ==> step.state.helpers.contains_key(o)
                    && step.state.helpers[o] == c.helpers[o]
            &&& forall|o: Seq<char>| #[trigger]
                step.state.helpers.contains_key(o) ==> c.helpers.contains_key(o)
        }),
{
    let id = request.helper_id;
    let c = super::cleanup::cleaned(s, now);
    let reported = super::helpers::reported_tasks(request);
    let release = super::helpers::to_release(c.tasks, id, reported);
    super::duties::law_time_and_helpers(s, id, now);
    super::duties::law_time_and_drains(s, id, now);
    super::duties::law_time_and_tasks(s, k, now);
    lemma_names(request, k);
    lemma_reports(request.active_tasks, reported.difference(release), k);
    assert(c.tasks.dom() =~= s.tasks.dom());
    assert(release.finite()) by {
        assert(super::helpers::claims_of(c.tasks, id).subset_of(c.tasks.dom()));
        vstd::set_lib::lemma_set_subset_finite(c.tasks.dom(), super::helpers::claims_of(c.tasks, id));
        let rest = reported.filter(
            |t: Seq<char>| !(c.tasks.contains_key(t) && super::helpers::serves(c.tasks[t], id, t)),
        );
        vstd::set_lib::lemma_set_subset_finite(reported, rest);
    }
    crate::table::lemma_sorted_to_set(release);
    assert(crate::table::sorted(release).to_set().contains(k) == crate::table::sorted(
        release,
    ).contains(k));
    if held(c, id, k) && !names(request, k) {
        assert(super::helpers::lost_claims(c.tasks, id, reported).contains(k));
    }
}

/// A blocked helper that reports is told to let go of all that it names. What its drain waited for and it
/// does not name any more is free again and waited for no more; the rest is waited for still.
pub proof fn law_blocked_report_drains(
    s: HubStateView,
    request: HelperHeartbeatRequestView,
    k: Seq<char>,
    now: Now,
)
    requires
        s.blocked_helpers.contains_key(request.helper_id),
    ensures
        ({
            let id = request.helper_id;
            let c = super::cleanup::cleaned(s, now);
            let step = super::helpers::report_step(s, request, now);
            let before = c.blocked_helpers[id];
            let b = step.state.blocked_helpers[id];
            let freed = before.pending_task_ids.contains(k) && !names(request, k) && held(c, id, k);
            &&& step.persist
            &&& step.result is Ok
            &&& !step.result->Ok_0.ok
            &&& step.result->Ok_0.release_task_ids.contains(k) <==> names(request, k)
            &&& !step.state.helpers.contains_key(id)
            &&& step.state.blocked_helpers.contains_key(id)
            &&& b.pending_task_ids.contains(k) <==> before.pending_task_ids.contains(k) && names(
                request,
                k,
            )
            &&& b.last_reported_task_ids.contains(k) <==> names(request, k)
            &&& b.last_seen_at_unix_ms == Some(now.unix_ms)
            &&& names(request, k) ==> b.last_release_requested_at_unix_ms == Some(now.unix_ms)
            &&& b.last_release_requested_at_unix_ms == Some(now.unix_ms)
                || b.last_release_requested_at_unix_ms == before.last_release_requested_at_unix_ms
            &&& b.force_released_task_ids == before.force_released_task_ids
            &&& b.reason == before.reason
            &&& b.blocked_at_unix_ms == before.blocked_at_unix_ms
            &&& b.drain_started_at_unix_ms == before.drain_started_at_unix_ms
            &&& b.drain_deadline_at_unix_ms == before.drain_deadline_at_unix_ms
            &&& step.state.tasks.contains_key(k) == c.tasks.contains_key(k)
            &&& c.tasks.contains_key(k) ==> {
                &&& same_but_holder(step.state.tasks[k], c.tasks[k])
                &&& step.state.tasks[k].claimed_by_helper_id == if freed {
                    None
                } else {
                    c.tasks[k].claimed_by_helper_id
                }
            }
        }),
{
    let id = request.helper_id;
    let c = super::cleanup::cleaned(s, now);
    let reported = super::helpers::reported_tasks(request);
    super::duties::law_time_and_drains(s, id, now);
    lemma_names(request, k);
    crate::table::lemma_sorted_to_set(reported);
    assert(crate::table::sorted(reported).to_set().contains(k) == crate::table::sorted(
        reported,
    ).contains(k));
    if c.tasks.contains_key(k) {
        if let Some(h) = c.tasks[k].claimed_by_helper_id {
            super::duties::law_time_and_drains(s, h, now);
        }
    }
}

/// An administrator, and nobody else, blocks a helper that they name. It is known no more, and its claims
/// are what its drain waits for: until the deadline of the drain that was under way, or for the helper
/// timeout.
pub proof fn law_block_starts_a_drain(
    s: HubStateView,
    admin: bool,
    request: BlockHelperRequestView,
    k: Seq<char>,
    now: Now,
)
    ensures
        ({
            let id = crate::text::trimmed(request.helper_id);
            let c = super::cleanup::cleaned(s, now);
            let step = super::helpers::block_step(s, admin, request, now);
            let given = request.reason is Some && crate::text::trimmed(request.reason->0).len() > 0;
            let before = s.blocked_helpers[id];
            let again = s.blocked_helpers.contains_key(id);
            let b = step.state.blocked_helpers[id];
            let wait = s.config.helper_heartbeat_timeout_sec * 1000;
            &&& step.result is Ok <==> admin && id.len() > 0
            &&& !admin ==> step.result is Err && step.result->Err_0.status == 403
                && step.result->Err_0.code == Some("helper_admin_disabled"@) && step.state == s
                && !step.persist
            &&& admin && id.len() == 0 ==> step.result is Err && step.result->Err_0.status == 400
                && !step.persist
            &&& step.result matches Ok(answer) ==> {
                &&& answer.ok
                &&& answer.blocked
                &&& answer.helper_id == id
                &&& step.persist
                &&& !step.state.helpers.contains_key(id)
                &&& step.state.tasks == c.tasks
                &&& step.state.blocked_helpers.contains_key(id)
                &&& b.helper_id == id
                &&& given ==> b.reason == Some(crate::text::trimmed(request.reason->0))
                &&& !given && again ==> b.reason == before.reason
                &&& !given && !again ==> b.reason is None
                &&& b.blocked_at_unix_ms == now.unix_ms
                &&& b.pending_task_ids.contains(k) <==> held(c, id, k)
                &&& again ==> {
                    &&& b.drain_started_at_unix_ms == before.drain_started_at_unix_ms
                    &&& b.drain_deadline_at_unix_ms == before.drain_deadline_at_unix_ms
                    &&& b.last_release_requested_at_unix_ms
                        == before.last_release_requested_at_unix_ms
                    &&& b.last_seen_at_unix_ms == before.last_seen_at_unix_ms
                    &&& before.force_released_task_ids.contains(k)
                        ==> b.force_released_task_ids.contains(k)
                }
                &&& !again ==> {
                    &&& b.drain_started_at_unix_ms == now.unix_ms
                    &&& now.unix_ms + wait <= u64::MAX ==> b.drain_deadline_at_unix_ms == now.unix_ms
                        + wait
                    &&& now.unix_ms + wait > u64::MAX ==> b.drain_deadline_at_unix_ms == u64::MAX
                    &&& b.last_release_requested_at_unix_ms is None
                    &&& b.last_seen_at_unix_ms is None
                    &&& !b.force_released_task_ids.contains(k)
                    &&& b.last_reported_task_ids.contains(k) <==> present(s, id, now)
                        && s.helpers[id].active_task_ids.contains(k)
                }
            }
            &&& forall|o: Seq<char>| #[trigger]
                c.helpers.contains_key(o) && o != id && step.result is Ok
                    ==> step.state.helpers.contains_key(o) && step.state.helpers[o] == c.helpers[o]
            &&& forall|o: Seq<char>| #[trigger]
                c.blocked_helpers.contains_key(o) && o != id && step.result is Ok
                    ==> step.state.blocked_helpers.contains_key(o) && step.state.blocked_helpers[o]
                    == c.blocked_helpers[o]
        }),
{
    let id = crate::text::trimmed(request.helper_id);
    super::duties::law_time_and_drains(s, id, now);
    super::duties::law_time_and_helpers(s, id, now);
}

/// An administrator, and nobody else, unblocks a helper that they name, as soon as its drain waits for
/// nothing; until then it is told that the drain is under way. One that is not blocked may be unblocked.
pub proof fn law_unblock_lets_the_helper_return(
    s: HubStateView,
    admin: bool,
    request: UnblockHelperRequestView,
    register: RegisterHelperRequestView,
    now: Now,
)
    ensures
        ({
            let id = crate::text::trimmed(request.helper_id);
            let c = super::cleanup::cleaned(s, now);
            let step = super::helpers::unblock_step(s, admin, request, now);
            let waits = s.blocked_helpers.contains_key(id) && now.unix_ms
                < s.blocked_helpers[id].drain_deadline_at_unix_ms
                && s.blocked_helpers[id].pending_task_ids != Set::<Seq<char>>::empty();
            &&& step.result is Ok <==> admin && id.len() > 0 && !waits
            &&& !admin ==> step.result is Err && step.result->Err_0.status == 403
                && step.result->Err_0.code == Some("helper_admin_disabled"@) && step.state == s
                && !step.persist
            &&& admin && id.len() == 0 ==> step.result is Err && step.result->Err_0.status == 400
            &&& admin && id.len() > 0 && waits ==> step.result is Err
                && step.result->Err_0.status == 409 && step.result->Err_0.code == Some(
                "helper_drain_pending"@,
            ) && step.state.blocked_helpers == c.blocked_helpers
            &&& step.result matches Ok(answer) ==> {
                &&& answer.ok
                &&& !answer.blocked
                &&& answer.helper_id == id
                &&& !step.state.blocked_helpers.contains_key(id)
                &&& step.state.tasks == c.tasks
                &&& step.state.helpers == c.helpers
                &&& s.blocked_helpers.contains_key(id) ==> step.persist
                &&& crate::text::trimmed(register.helper_id) == id && !present(s, id, now)
                    && crate::text::trimmed(register.owner_user).len() > 0 && crate::text::trimmed(
                    register.platform,
                ).len() > 0 ==> super::helpers::register_step(step.state, register, now).result is Ok
            }
            &&& forall|o: Seq<char>| #[trigger]
                c.blocked_helpers.contains_key(o) && o != id && admin
                    ==> step.state.blocked_helpers.contains_key(o) && step.state.blocked_helpers[o]
                    == c.blocked_helpers[o]
        }),
{
    let id = crate::text::trimmed(request.helper_id);
    let step = super::helpers::unblock_step(s, admin, request, now);
    super::duties::law_time_and_drains(s, id, now);
    super::duties::law_time_and_helpers(s, id, now);
    if s.blocked_helpers.contains_key(id) && now.unix_ms
        >= s.blocked_helpers[id].drain_deadline_at_unix_ms {
        assert(super::cleanup::cleaned(s, now).blocked_helpers[id].pending_task_ids =~= Set::<
            Seq<char>,
        >::empty());
    }
    law_registration_is_taken_down(step.state, register, now);
    assert(step.state.config == s.config);
}

/// A task is served by a helper under a name where that is its name, the helper holds it, and it is neither
/// released nor expired.
pub proof fn law_served_task(task: TaskRecordView, helper_id: Seq<char>, task_id: Seq<char>)
    ensures
        super::helpers::serves(task, helper_id, task_id) <==> task.task_id == task_id
            && task.claimed_by_helper_id == Some(helper_id) && !task.released && task.service_state
            != "expired"@,
{
}

/// A helper whose drain is over by force serves no more what the drain waited for, where it is known still.
pub proof fn law_forced_drain_takes_the_tasks(s: HubStateView, id: Seq<char>, k: Seq<char>, now: Now)
    requires
        s.blocked_helpers.contains_key(id),
        s.blocked_helpers[id].pending_task_ids.contains(k),
        now.unix_ms >= s.blocked_helpers[id].drain_deadline_at_unix_ms,
        present(s, id, now),
    ensures
        ({
            let h = super::cleanup::cleaned(s, now).helpers[id];
            &&& !h.active_task_ids.contains(k)
            &&& !h.active_tasks.contains_key(k)
        }),
{
    super::duties::law_time_and_helpers(s, id, now);
}

/// A task that a report or a block of a helper changes is marked as changed at that moment.
pub proof fn law_tasks_of_helpers_are_dated(
    s: HubStateView,
    report: HelperHeartbeatRequestView,
    allow_helper_admin: bool,
    block: BlockHelperRequestView,
    k: Seq<char>,
    now: Now,
)
    requires
        s.tasks.contains_key(k),
    ensures
        ({
            let reported = super::helpers::report_step(s, report, now).state.tasks[k];
            let blocked = super::helpers::block_step(s, allow_helper_admin, block, now).state.tasks[k];
            &&& reported != s.tasks[k] ==> reported.updated_at_unix_ms == now.unix_ms
            &&& blocked != s.tasks[k] ==> blocked.updated_at_unix_ms == now.unix_ms
        }),
{
    super::duties::law_time_and_tasks(s, k, now);
}

} // verus!
