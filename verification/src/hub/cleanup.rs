//! What time does to a hub: due drains are forced, silent helpers are dropped, silent tasks expire.
use vstd::prelude::*;

use super::records::{
    BlockedHelperRecord, HelperActiveTaskRecord, HelperRecord, HubState, TaskRecord, TaskRoutes,
};
use crate::clock::{older_than, Now};
use crate::order::same_text;
use crate::table::{IdSet, Table};

verus! {

use super::records::{
    BlockedHelperRecordView, HelperActiveTaskRecordView, HelperRecordView,
    HubStateView, TaskRecordView,
};

/// The drain still waits for tasks and its deadline has come.
pub open spec fn drain_due(helper: BlockedHelperRecordView, now: u64) -> bool {
    helper.pending_task_ids != Set::<Seq<char>>::empty() && now >= helper.drain_deadline_at_unix_ms
}

/// The task without its claim, changed at `now`.
pub open spec fn unclaimed(task: TaskRecordView, now: u64) -> TaskRecordView {
    TaskRecordView { claimed_by_helper_id: None, updated_at_unix_ms: now, ..task }
}

/// The task `key` is held by a helper whose due drain waits for it.
pub open spec fn held_by_due_drain(
    blocked: Map<Seq<char>, BlockedHelperRecordView>,
    key: Seq<char>,
    task: TaskRecordView,
    now: u64,
) -> bool {
    match task.claimed_by_helper_id {
        Some(holder) => {
            &&& blocked.contains_key(holder)
            &&& drain_due(blocked[holder], now)
            &&& blocked[holder].pending_task_ids.contains(key)
        },
        None => false,
    }
}

/// The helper without the tasks in `ids`.
pub open spec fn without_tasks(helper: HelperRecordView, ids: Set<Seq<char>>) -> HelperRecordView {
    HelperRecordView {
        active_task_ids: helper.active_task_ids.difference(ids),
        active_tasks: helper.active_tasks.remove_keys(ids),
        ..helper
    }
}

/// The task `key` after the due drains.
pub open spec fn task_after_drains(
    blocked: Map<Seq<char>, BlockedHelperRecordView>,
    key: Seq<char>,
    task: TaskRecordView,
    now: u64,
) -> TaskRecordView {
    if held_by_due_drain(blocked, key, task, now) {
        unclaimed(task, now)
    } else {
        task
    }
}

/// The helper `key` after the due drains.
pub open spec fn helper_after_drains(
    blocked: Map<Seq<char>, BlockedHelperRecordView>,
    key: Seq<char>,
    helper: HelperRecordView,
    now: u64,
) -> HelperRecordView {
    if blocked.contains_key(key) && drain_due(blocked[key], now) {
        without_tasks(helper, blocked[key].pending_task_ids)
    } else {
        helper
    }
}

/// The blocked helper after its drain, where that is due.
pub open spec fn blocked_after_drain(helper: BlockedHelperRecordView, now: u64) -> BlockedHelperRecordView {
    if drain_due(helper, now) {
        BlockedHelperRecordView {
            pending_task_ids: Set::empty(),
            force_released_task_ids: helper.force_released_task_ids.union(helper.pending_task_ids),
            ..helper
        }
    } else {
        helper
    }
}

/// The hub after every due drain has been forced: the tasks that a drain waited for are free, and
/// are recorded as released by force.
pub open spec fn drains_forced(s: HubStateView, now: u64) -> HubStateView {
    HubStateView {
        tasks: s.tasks.map_entries(
            |k: Seq<char>, t: TaskRecordView| task_after_drains(s.blocked_helpers, k, t, now),
        ),
        helpers: s.helpers.map_entries(
            |k: Seq<char>, h: HelperRecordView| helper_after_drains(s.blocked_helpers, k, h, now),
        ),
        blocked_helpers: s.blocked_helpers.map_entries(
            |k: Seq<char>, b: BlockedHelperRecordView| blocked_after_drain(b, now),
        ),
        ..s
    }
}

/// Some drain is due.
pub open spec fn some_drain_due(s: HubStateView, now: u64) -> bool {
    exists|k: Seq<char>| #[trigger]
        s.blocked_helpers.contains_key(k) && drain_due(s.blocked_helpers[k], now)
}

/// The helper has been silent for longer than a helper may be.
pub open spec fn helper_stale(helper: HelperRecordView, timeout_sec: u64, now: Now) -> bool {
    crate::clock::since(now.instant, helper.last_seen_at) > timeout_sec * crate::clock::NANOS_PER_SEC
}

/// The task is held by a stale helper that is not blocked.
pub open spec fn held_by_stale(
    helpers: Map<Seq<char>, HelperRecordView>,
    blocked: Map<Seq<char>, BlockedHelperRecordView>,
    timeout_sec: u64,
    task: TaskRecordView,
    now: Now,
) -> bool {
    match task.claimed_by_helper_id {
        Some(holder) => {
            &&& helpers.contains_key(holder)
            &&& helper_stale(helpers[holder], timeout_sec, now)
            &&& !blocked.contains_key(holder)
        },
        None => false,
    }
}

/// The task of the hub is held by a stale helper that is not blocked.
pub open spec fn freed_by_cleanup(s: HubStateView, task: TaskRecordView, now: Now) -> bool {
    held_by_stale(
        s.helpers,
        s.blocked_helpers,
        s.config.helper_heartbeat_timeout_sec,
        task,
        now,
    )
}

/// The hub after stale helpers are dropped and the claims of those that are not blocked are freed.
pub open spec fn stale_helpers_dropped(s: HubStateView, now: Now) -> HubStateView {
    HubStateView {
        helpers: crate::table::kept(
            s.helpers,
            |k: Seq<char>, h: HelperRecordView|
                !helper_stale(h, s.config.helper_heartbeat_timeout_sec, now),
        ),
        tasks: s.tasks.map_entries(
            |k: Seq<char>, t: TaskRecordView|
                if freed_by_cleanup(s, t, now) {
                    unclaimed(t, now.unix_ms)
                } else {
                    t
                },
        ),
        ..s
    }
}

/// The task has been silent for longer than a task may be.
pub open spec fn task_stale(task: TaskRecordView, timeout_sec: u64, now: Now) -> bool {
    crate::clock::since(now.instant, task.last_seen_at) > timeout_sec * crate::clock::NANOS_PER_SEC
}

/// The task is neither released nor heard of in time.
pub open spec fn task_lapses(task: TaskRecordView, timeout_sec: u64, now: Now) -> bool {
    !task.released && task_stale(task, timeout_sec, now)
}

/// Expiring the task would change nothing.
pub open spec fn already_expired(task: TaskRecordView) -> bool {
    &&& task.service_state == "expired"@
    &&& !task.accepting_launches
    &&& task.claimed_by_helper_id is None
    &&& task.routes == super::records::no_routes()
    &&& task.services == Map::<Seq<char>, Seq<char>>::empty()
}

/// The task without claim and without routes, and taking no launches.
pub open spec fn cleared(task: TaskRecordView) -> TaskRecordView {
    TaskRecordView {
        accepting_launches: false,
        claimed_by_helper_id: None,
        routes: super::records::no_routes(),
        services: Map::empty(),
        ..task
    }
}

/// The task once it has expired at `now`.
pub open spec fn expired(task: TaskRecordView, now: u64) -> TaskRecordView {
    if already_expired(task) {
        task
    } else {
        TaskRecordView {
            service_state: "expired"@,
            updated_at_unix_ms: now,
            ..cleared(task)
        }
    }
}

/// The hub after stale tasks have expired.
pub open spec fn stale_tasks_expired(s: HubStateView, now: Now) -> HubStateView {
    HubStateView {
        tasks: s.tasks.map_entries(
            |k: Seq<char>, t: TaskRecordView|
                if task_lapses(t, s.config.task_heartbeat_timeout_sec, now) {
                    expired(t, now.unix_ms)
                } else {
                    t
                },
        ),
        ..s
    }
}

/// The hub after all that time does to it by `now`.
pub open spec fn cleaned(s: HubStateView, now: Now) -> HubStateView {
    let drained = drains_forced(s, now.unix_ms);
    stale_tasks_expired(stale_helpers_dropped(drained, now), now)
}

/// Cleaning up at `now` changes something that is written to disk.
pub open spec fn cleanup_changes(s: HubStateView, now: Now) -> bool {
    let drained = drains_forced(s, now.unix_ms);
    let dropped = stale_helpers_dropped(drained, now);
    ||| some_drain_due(s, now.unix_ms)
    ||| exists|k: Seq<char>| #[trigger]
        drained.tasks.contains_key(k) && freed_by_cleanup(drained, drained.tasks[k], now)
    ||| exists|k: Seq<char>| #[trigger]
        dropped.tasks.contains_key(k) && task_lapses(
            dropped.tasks[k],
            s.config.task_heartbeat_timeout_sec,
            now,
        ) && !already_expired(dropped.tasks[k])
}

/// Whether the task is claimed by `helper_id`.
pub fn claimed_by(task: &TaskRecord, helper_id: &str) -> (claimed: bool)
    ensures
        claimed == (task@.claimed_by_helper_id == Some(helper_id@)),
{
    match &task.claimed_by_helper_id {
        Some(holder) => same_text(holder.as_str(), helper_id),
        None => false,
    }
}

/// Frees the task from its claim and stops launches.
pub fn clear_task_claim_state(task: &mut TaskRecord)
    ensures
        final(task)@ == (TaskRecordView {
            accepting_launches: false,
            claimed_by_helper_id: None,
            ..old(task)@
        }),
{
    task.accepting_launches = false;
    task.claimed_by_helper_id = None;
}

/// Forgets the routes and services of the task.
pub fn clear_task_route_state(task: &mut TaskRecord)
    ensures
        final(task)@ == (TaskRecordView {
            routes: super::records::no_routes(),
            services: Map::empty(),
            ..old(task)@
        }),
{
    task.routes = TaskRoutes::default();
    task.services = Table::new();
}

/// Expires the task; says whether that changed it.
pub fn expire_task(task: &mut TaskRecord, now: u64) -> (changed: bool)
    ensures
        final(task)@ == expired(old(task)@, now),
        changed == !already_expired(old(task)@),
{
    if same_text(task.service_state.as_str(), "expired") && !task.accepting_launches
        && task.claimed_by_helper_id.is_none() && task.routes.is_unset() && task.services.is_empty() {
        return false;
    }
    task.service_state = "expired".to_owned();
    clear_task_claim_state(task);
    clear_task_route_state(task);
    task.updated_at_unix_ms = now;
    true
}

fn is_drain_due(helper: &BlockedHelperRecord, now: u64) -> (due: bool)
    ensures
        due == drain_due(helper@, now),
{
    !helper.pending_task_ids.is_empty() && now >= helper.drain_deadline_at_unix_ms
}

fn drain_task(blocked: &Table<BlockedHelperRecord>, key: &str, task: TaskRecord, now: u64) -> (after:
    TaskRecord)
    ensures
        after@ == task_after_drains(blocked@, key@, task@, now),
{
    let mut task = task;
    let due = match &task.claimed_by_helper_id {
        Some(holder) => match blocked.get(holder.as_str()) {
            Some(helper) => is_drain_due(helper, now) && helper.pending_task_ids.contains(key),
            None => false,
        },
        None => false,
    };
    if due {
        task.claimed_by_helper_id = None;
        task.updated_at_unix_ms = now;
    }
    task
}

/// Takes the tasks in `ids` off the helper.
pub fn forget_tasks(helper: HelperRecord, ids: &IdSet) -> (after: HelperRecord)
    ensures
        after@ == without_tasks(helper@, ids@),
{
    let mut helper = helper;
    let ghost had = helper@;
    let keep_id = |id: &str| -> (keep: bool)
        ensures
            keep == !ids@.contains(id@),
    { !ids.contains(id) };
    helper.active_task_ids = helper.active_task_ids.filter(
        keep_id,
        Ghost(|id: Seq<char>| !ids@.contains(id)),
    );
    let keep_task = |id: &str, task: &HelperActiveTaskRecord| -> (keep: bool)
        ensures
            keep == !ids@.contains(id@),
    { !ids.contains(id) };
    helper.active_tasks.retain(
        keep_task,
        Ghost(|id: Seq<char>, task: HelperActiveTaskRecordView| !ids@.contains(id)),
    );
    assert(helper.active_tasks@ =~= had.active_tasks.remove_keys(ids@));
    assert(helper.active_task_ids@ =~= had.active_task_ids.difference(ids@));
    helper
}


fn drain_helper(
    blocked: &Table<BlockedHelperRecord>,
    key: &str,
    helper: HelperRecord,
    now: u64,
) -> (after: HelperRecord)
    ensures
        after@ == helper_after_drains(blocked@, key@, helper@, now),
{
    match blocked.get(key) {
        Some(drain) => {
            if is_drain_due(drain, now) {
                forget_tasks(helper, &drain.pending_task_ids)
            } else {
                helper
            }
        },
        None => helper,
    }
}

fn drain_blocked(helper: BlockedHelperRecord, now: u64) -> (after: BlockedHelperRecord)
    ensures
        after@ == blocked_after_drain(helper@, now),
{
    let mut helper = helper;
    if is_drain_due(&helper, now) {
        helper.force_released_task_ids = helper.force_released_task_ids.union(
            &helper.pending_task_ids,
        );
        helper.pending_task_ids = IdSet::new();
    }
    helper
}

/// Forces every due drain; says whether there was one.
pub fn force_due_blocked_helper_drains(state: &mut HubState, now: u64) -> (changed: bool)
    ensures
        final(state)@ == drains_forced(old(state)@, now),
        changed == some_drain_due(old(state)@, now),
        old(state).wf() ==> final(state).wf(),
{
    let ghost s = state@;
    let due = |k: &str, b: &BlockedHelperRecord| -> (r: bool)
        ensures
            r == drain_due(b@, now),
    { is_drain_due(b, now) };
    let changed = state.blocked_helpers.any(
        due,
        Ghost(|k: Seq<char>, b: BlockedHelperRecordView| drain_due(b, now)),
    );
    let blocked = &state.blocked_helpers;
    let change_task = |k: &str, t: TaskRecord| -> (r: TaskRecord)
        ensures
            r@ == task_after_drains(blocked@, k@, t@, now),
    { drain_task(blocked, k, t, now) };
    state.tasks.update_all(
        change_task,
        Ghost(|k: Seq<char>, t: TaskRecordView| task_after_drains(s.blocked_helpers, k, t, now)),
    );
    let change_helper = |k: &str, h: HelperRecord| -> (r: HelperRecord)
        ensures
            r@ == helper_after_drains(blocked@, k@, h@, now),
    { drain_helper(blocked, k, h, now) };
    state.helpers.update_all(
        change_helper,
        Ghost(|k: Seq<char>, h: HelperRecordView| helper_after_drains(s.blocked_helpers, k, h, now)),
    );
    let change_blocked = |k: &str, b: BlockedHelperRecord| -> (r: BlockedHelperRecord)
        ensures
            r@ == blocked_after_drain(b@, now),
    { drain_blocked(b, now) };
    state.blocked_helpers.update_all(
        change_blocked,
        Ghost(|k: Seq<char>, b: BlockedHelperRecordView| blocked_after_drain(b, now)),
    );
    proof {
        if super::records::hub_wf(s) {
            assert forall|k: Seq<char>| #[trigger] state@.helpers.contains_key(k) implies super::records::helper_wf(
                state@.helpers[k],
            ) && state@.helpers[k].helper_id == k by {
                assert(s.helpers.contains_key(k));
                assert forall|j: Seq<char>| #[trigger]
                    state@.helpers[k].active_tasks.contains_key(
                        j,
                    ) implies state@.helpers[k].active_tasks[j].task_id == j by {
                    assert(s.helpers[k].active_tasks.contains_key(j));
                }
            }
        }
    }
    changed
}

/// The task, free if `helper_id` claimed it.
pub open spec fn freed_from(task: TaskRecordView, helper_id: Seq<char>, now: u64) -> TaskRecordView {
    if task.claimed_by_helper_id == Some(helper_id) {
        unclaimed(task, now)
    } else {
        task
    }
}

/// The hub without the claims of `helper_id`.
pub open spec fn claims_cleared(s: HubStateView, helper_id: Seq<char>, now: u64) -> HubStateView {
    HubStateView {
        tasks: s.tasks.map_entries(
            |k: Seq<char>, t: TaskRecordView| freed_from(t, helper_id, now),
        ),
        ..s
    }
}

/// Frees every task that `helper_id` claims; says whether there was one.
pub fn clear_helper_claims(state: &mut HubState, helper_id: &str, now: u64) -> (changed: bool)
    ensures
        final(state)@ == claims_cleared(old(state)@, helper_id@, now),
        changed == exists|k: Seq<char>| #[trigger]
            old(state)@.tasks.contains_key(k) && old(state)@.tasks[k].claimed_by_helper_id == Some(
                helper_id@,
            ),
        old(state).wf() ==> final(state).wf(),
{
    let claims = |k: &str, t: &TaskRecord| -> (r: bool)
        ensures
            r == (t@.claimed_by_helper_id == Some(helper_id@)),
    { claimed_by(t, helper_id) };
    let changed = state.tasks.any(
        claims,
        Ghost(|k: Seq<char>, t: TaskRecordView| t.claimed_by_helper_id == Some(helper_id@)),
    );
    let change = |k: &str, t: TaskRecord| -> (r: TaskRecord)
        ensures
            r@ == freed_from(t@, helper_id@, now),
    {
        let mut t = t;
        if claimed_by(&t, helper_id) {
            t.claimed_by_helper_id = None;
            t.updated_at_unix_ms = now;
        }
        t
    };
    state.tasks.update_all(
        change,
        Ghost(|k: Seq<char>, t: TaskRecordView| freed_from(t, helper_id@, now)),
    );
    changed
}

/// The hub after `helper_id` gave up the task `task_id`.
pub open spec fn task_claim_cleared(
    s: HubStateView,
    helper_id: Seq<char>,
    task_id: Seq<char>,
    now: u64,
) -> HubStateView {
    HubStateView {
        tasks: if s.tasks.contains_key(task_id) && s.tasks[task_id].claimed_by_helper_id == Some(
            helper_id,
        ) {
            s.tasks.insert(task_id, unclaimed(s.tasks[task_id], now))
        } else {
            s.tasks
        },
        helpers: if s.helpers.contains_key(helper_id) {
            s.helpers.insert(
                helper_id,
                HelperRecordView {
                    active_task_ids: s.helpers[helper_id].active_task_ids.remove(task_id),
                    active_tasks: s.helpers[helper_id].active_tasks.remove(task_id),
                    ..s.helpers[helper_id]
                },
            )
        } else {
            s.helpers
        },
        ..s
    }
}

/// Frees the task `task_id` where `helper_id` claims it, and takes it off that helper; says whether
/// a claim was freed.
pub fn clear_helper_task_claim(state: &mut HubState, helper_id: &str, task_id: &str, now: u64) -> (
    changed: bool)
    ensures
        final(state)@ == task_claim_cleared(old(state)@, helper_id@, task_id@, now),
        changed == (old(state)@.tasks.contains_key(task_id@)
            && old(state)@.tasks[task_id@].claimed_by_helper_id == Some(helper_id@)),
        old(state).wf() ==> final(state).wf(),
{
    let mut changed = false;
    let claimed = match state.tasks.get(task_id) {
        Some(task) => claimed_by(task, helper_id),
        None => false,
    };
    if claimed {
        if let Some(task) = state.tasks.remove(task_id) {
            let mut task = task;
            task.claimed_by_helper_id = None;
            task.updated_at_unix_ms = now;
            let ghost after = task@;
            state.tasks.insert(task_id.to_owned(), task);
            assert(state.tasks@ =~= old(state)@.tasks.insert(task_id@, after));
            changed = true;
        }
    }
    if let Some(helper) = state.helpers.remove(helper_id) {
        let mut helper = helper;
        helper.active_task_ids.remove(task_id);
        helper.active_tasks.remove(task_id);
        let ghost after = helper@;
        state.helpers.insert(helper_id.to_owned(), helper);
        assert(state.helpers@ =~= old(state)@.helpers.insert(helper_id@, after));
    } else {
        assert(state.helpers@ =~= old(state)@.helpers);
    }
    changed
}

fn is_held_by_stale(
    helpers: &Table<HelperRecord>,
    blocked: &Table<BlockedHelperRecord>,
    timeout_sec: u64,
    task: &TaskRecord,
    now: Now,
) -> (held: bool)
    ensures
        held == held_by_stale(helpers@, blocked@, timeout_sec, task@, now),
{
    match &task.claimed_by_helper_id {
        Some(holder) => match helpers.get(holder.as_str()) {
            Some(helper) => older_than(now.instant, helper.last_seen_at, timeout_sec)
                && !blocked.contains_key(holder.as_str()),
            None => false,
        },
        None => false,
    }
}

fn drop_stale_helpers(state: &mut HubState, now: Now) -> (changed: bool)
    ensures
        final(state)@ == stale_helpers_dropped(old(state)@, now),
        changed == exists|k: Seq<char>| #[trigger]
            old(state)@.tasks.contains_key(k) && freed_by_cleanup(
                old(state)@,
                old(state)@.tasks[k],
                now,
            ),
        old(state).wf() ==> final(state).wf(),
{
    let ghost s = state@;
    let timeout: u64 = state.config.helper_heartbeat_timeout_sec;
    let helpers = &state.helpers;
    let blocked = &state.blocked_helpers;
    let test = |k: &str, t: &TaskRecord| -> (r: bool)
        ensures
            r == held_by_stale(helpers@, blocked@, timeout, t@, now),
    { is_held_by_stale(helpers, blocked, timeout, t, now) };
    let changed = state.tasks.any(
        test,
        Ghost(|k: Seq<char>, t: TaskRecordView| freed_by_cleanup(s, t, now)),
    );
    let change = |k: &str, t: TaskRecord| -> (r: TaskRecord)
        ensures
            r@ == if held_by_stale(helpers@, blocked@, timeout, t@, now) {
                unclaimed(t@, now.unix_ms)
            } else {
                t@
            },
    {
        let mut t = t;
        if is_held_by_stale(helpers, blocked, timeout, &t, now) {
            t.claimed_by_helper_id = None;
            t.updated_at_unix_ms = now.unix_ms;
        }
        t
    };
    state.tasks.update_all(
        change,
        Ghost(
            |k: Seq<char>, t: TaskRecordView|
                if freed_by_cleanup(s, t, now) {
                    unclaimed(t, now.unix_ms)
                } else {
                    t
                },
        ),
    );
    let keep = |k: &str, h: &HelperRecord| -> (r: bool)
        ensures
            r == !helper_stale(h@, timeout, now),
    { !older_than(now.instant, h.last_seen_at, timeout) };
    state.helpers.retain(
        keep,
        Ghost(
            |k: Seq<char>, h: HelperRecordView|
                !helper_stale(h, s.config.helper_heartbeat_timeout_sec, now),
        ),
    );
    changed
}

fn expire_stale_tasks(state: &mut HubState, now: Now) -> (changed: bool)
    ensures
        final(state)@ == stale_tasks_expired(old(state)@, now),
        changed == exists|k: Seq<char>| #[trigger]
            old(state)@.tasks.contains_key(k) && task_lapses(
                old(state)@.tasks[k],
                old(state)@.config.task_heartbeat_timeout_sec,
                now,
            ) && !already_expired(old(state)@.tasks[k]),
        old(state).wf() ==> final(state).wf(),
{
    let timeout: u64 = state.config.task_heartbeat_timeout_sec;
    let test = |k: &str, t: &TaskRecord| -> (r: bool)
        ensures
            r == (task_lapses(t@, timeout, now) && !already_expired(t@)),
    {
        let settled = same_text(t.service_state.as_str(), "expired") && !t.accepting_launches
            && t.claimed_by_helper_id.is_none() && t.routes.is_unset() && t.services.is_empty();
        !t.released && older_than(now.instant, t.last_seen_at, timeout) && !settled
    };
    let changed = state.tasks.any(
        test,
        Ghost(|k: Seq<char>, t: TaskRecordView| task_lapses(t, timeout, now) && !already_expired(t)),
    );
    let change = |k: &str, t: TaskRecord| -> (r: TaskRecord)
        ensures
            r@ == if task_lapses(t@, timeout, now) {
                expired(t@, now.unix_ms)
            } else {
                t@
            },
    {
        let mut t = t;
        if !t.released && older_than(now.instant, t.last_seen_at, timeout) {
            let _ = expire_task(&mut t, now.unix_ms);
        }
        t
    };
    state.tasks.update_all(
        change,
        Ghost(
            |k: Seq<char>, t: TaskRecordView|
                if task_lapses(t, timeout, now) {
                    expired(t, now.unix_ms)
                } else {
                    t
                },
        ),
    );
    changed
}

/// Does what time asks for; says whether something changed that is written to disk.
pub fn cleanup_stale_state(state: &mut HubState, now: Now) -> (changed: bool)
    ensures
        final(state)@ == cleaned(old(state)@, now),
        changed == cleanup_changes(old(state)@, now),
        old(state).wf() ==> final(state).wf(),
{
    let drained = force_due_blocked_helper_drains(state, now.unix_ms);
    let freed = drop_stale_helpers(state, now);
    let expired = expire_stale_tasks(state, now);
    drained || freed || expired
}

} // verus!
