//! What holds between a hub, what is written of it, and the hub that is restored from that.
use vstd::prelude::*;

use super::records::{
    BlockedHelperRecordView, HubConfigView, HubStateView, PersistedBlockedHelperRecordView,
    PersistedHubStateView, PersistedTaskRecordView, TaskRecordView,
};
use crate::clock::Now;

verus! {

/// The hub holds finitely many tasks and blocked helpers, the identifiers of the blocked helpers
/// have no white space around them, and their drains list finitely many tasks.
pub open spec fn writable(s: HubStateView) -> bool {
    &&& super::records::hub_wf(s)
    &&& s.tasks.dom().finite()
    &&& s.blocked_helpers.dom().finite()
    &&& forall|k: Seq<char>| #[trigger]
        s.blocked_helpers.contains_key(k) ==> crate::fields::required(k) == Some(k)
            && drain_writable(s.blocked_helpers[k])
}

/// The drain lists finitely many tasks.
pub open spec fn drain_writable(b: BlockedHelperRecordView) -> bool {
    &&& b.pending_task_ids.finite()
    &&& b.last_reported_task_ids.finite()
    &&& b.force_released_task_ids.finite()
}

proof fn lemma_blocked_prefix(s: HubStateView, config: HubConfigView, keys: Seq<Seq<char>>, n: int)
    requires
        writable(s),
        keys == crate::table::sorted(s.blocked_helpers.dom()),
        0 <= n <= keys.len(),
    ensures
        ({
            let list = super::persist::hub_written(s).blocked_helpers;
            let restored = super::persist::all_blocked_restored(list.take(n), config);
            &&& list.len() == keys.len()
            &&& forall|k: Seq<char>| #[trigger]
                restored.contains_key(k) <==> keys.take(n).contains(k)
            &&& forall|k: Seq<char>| #[trigger]
                restored.contains_key(k) ==> restored[k] == super::persist::blocked_restored(
                    super::persist::blocked_written(s.blocked_helpers[k]),
                    k,
                    config,
                )
        }),
    decreases n,
{
    crate::table::lemma_finite_sorted(s.blocked_helpers.dom());
    let list = super::persist::hub_written(s).blocked_helpers;
    if n > 0 {
        lemma_blocked_prefix(s, config, keys, n - 1);
        let key = keys[n - 1];
        assert(keys.contains(key));
        assert(s.blocked_helpers.dom().contains(key));
        assert(list.take(n).drop_last() =~= list.take(n - 1));
        assert(list.take(n).last() == super::persist::blocked_written(s.blocked_helpers[key]));
        assert(keys.take(n) =~= keys.take(n - 1).push(key));
        let restored = super::persist::all_blocked_restored(list.take(n), config);
        assert forall|k: Seq<char>| #[trigger] restored.contains_key(k) <==> keys.take(n).contains(k) by {
            if keys.take(n - 1).contains(k) {
                let p = keys.take(n - 1).index_of(k);
                assert(keys.take(n)[p] == k);
            }
            assert(keys.take(n)[n - 1] == key);
        }
    } else {
        assert(list.take(0) =~= Seq::<PersistedBlockedHelperRecordView>::empty());
        assert(keys.take(0) =~= Seq::<Seq<char>>::empty());
    }
}

/// The blocked helpers that are read back are those that were written.
pub proof fn lemma_blocked_read_back(s: HubStateView, config: HubConfigView)
    requires
        writable(s),
    ensures
        super::persist::all_blocked_restored(
            super::persist::hub_written(s).blocked_helpers,
            config,
        ) == s.blocked_helpers.map_entries(
            |k: Seq<char>, b: BlockedHelperRecordView|
                super::persist::blocked_restored(super::persist::blocked_written(b), k, config),
        ),
{
    let keys = crate::table::sorted(s.blocked_helpers.dom());
    let list = super::persist::hub_written(s).blocked_helpers;
    crate::table::lemma_finite_sorted(s.blocked_helpers.dom());
    lemma_blocked_prefix(s, config, keys, keys.len() as int);
    assert(list.take(keys.len() as int) =~= list);
    assert(keys.take(keys.len() as int) =~= keys);
    let restored = super::persist::all_blocked_restored(list, config);
    let want = s.blocked_helpers.map_entries(
        |k: Seq<char>, b: BlockedHelperRecordView|
            super::persist::blocked_restored(super::persist::blocked_written(b), k, config),
    );
    assert forall|k: Seq<char>| restored.dom().contains(k) <==> want.dom().contains(k) by {
        assert(restored.contains_key(k) <==> keys.contains(k));
        assert(s.blocked_helpers.dom().contains(k) <==> keys.contains(k));
    }
    assert(restored =~= want);
}

proof fn lemma_tasks_prefix(
    s: HubStateView,
    blocked: Map<Seq<char>, BlockedHelperRecordView>,
    now: Now,
    keys: Seq<Seq<char>>,
    n: int,
)
    requires
        writable(s),
        keys == crate::table::sorted(s.tasks.dom()),
        0 <= n <= keys.len(),
    ensures
        ({
            let list = super::persist::hub_written(s).tasks;
            let restored = super::persist::all_tasks_restored(list.take(n), blocked, now);
            &&& list.len() == keys.len()
            &&& forall|k: Seq<char>| #[trigger]
                restored.contains_key(k) <==> keys.take(n).contains(k)
            &&& forall|k: Seq<char>| #[trigger]
                restored.contains_key(k) ==> restored[k] == super::persist::task_restored(
                    super::persist::task_written(s.tasks[k]),
                    blocked,
                    now,
                )
        }),
    decreases n,
{
    crate::table::lemma_finite_sorted(s.tasks.dom());
    let list = super::persist::hub_written(s).tasks;
    if n > 0 {
        lemma_tasks_prefix(s, blocked, now, keys, n - 1);
        let key = keys[n - 1];
        assert(keys.contains(key));
        assert(s.tasks.dom().contains(key));
        assert(list.take(n).drop_last() =~= list.take(n - 1));
        assert(list.take(n).last() == super::persist::task_written(s.tasks[key]));
        assert(keys.take(n) =~= keys.take(n - 1).push(key));
        let restored = super::persist::all_tasks_restored(list.take(n), blocked, now);
        assert forall|k: Seq<char>| #[trigger] restored.contains_key(k) <==> keys.take(n).contains(k) by {
            if keys.take(n - 1).contains(k) {
                let p = keys.take(n - 1).index_of(k);
                assert(keys.take(n)[p] == k);
            }
            assert(keys.take(n)[n - 1] == key);
        }
    } else {
        assert(list.take(0) =~= Seq::<PersistedTaskRecordView>::empty());
        assert(keys.take(0) =~= Seq::<Seq<char>>::empty());
    }
}

/// The tasks that are read back are those that were written.
pub proof fn lemma_tasks_read_back(
    s: HubStateView,
    blocked: Map<Seq<char>, BlockedHelperRecordView>,
    now: Now,
)
    requires
        writable(s),
    ensures
        super::persist::all_tasks_restored(super::persist::hub_written(s).tasks, blocked, now)
            == s.tasks.map_entries(
            |k: Seq<char>, t: TaskRecordView|
                super::persist::task_restored(super::persist::task_written(t), blocked, now),
        ),
{
    let keys = crate::table::sorted(s.tasks.dom());
    let list = super::persist::hub_written(s).tasks;
    crate::table::lemma_finite_sorted(s.tasks.dom());
    lemma_tasks_prefix(s, blocked, now, keys, keys.len() as int);
    assert(list.take(keys.len() as int) =~= list);
    assert(keys.take(keys.len() as int) =~= keys);
    let restored = super::persist::all_tasks_restored(list, blocked, now);
    let want = s.tasks.map_entries(
        |k: Seq<char>, t: TaskRecordView|
            super::persist::task_restored(super::persist::task_written(t), blocked, now),
    );
    assert forall|k: Seq<char>| restored.dom().contains(k) <==> want.dom().contains(k) by {
        assert(restored.contains_key(k) <==> keys.contains(k));
        assert(s.tasks.dom().contains(k) <==> keys.contains(k));
    }
    assert(restored =~= want);
}

/// A hub that is restarted has the tasks that it was written with, each as it was but for the
/// claim, which only a pending drain keeps, and the moment it was last seen at.
pub proof fn law_reload_keeps_tasks(s: HubStateView, config: HubConfigView, k: Seq<char>, now: Now)
    requires
        writable(s),
    ensures
        ({
            let loaded = super::persist::tasks_loaded(super::persist::hub_written(s), config, now);
            &&& loaded.contains_key(k) <==> s.tasks.contains_key(k)
            &&& s.tasks.contains_key(k) && s.tasks[k].last_task_heartbeat_at_unix_ms != 0
                ==> loaded[k] == (TaskRecordView {
                claimed_by_helper_id: loaded[k].claimed_by_helper_id,
                last_seen_at: loaded[k].last_seen_at,
                ..s.tasks[k]
            })
            &&& s.tasks.contains_key(k) && loaded[k].claimed_by_helper_id is Some
                ==> loaded[k].claimed_by_helper_id == s.tasks[k].claimed_by_helper_id
                && s.blocked_helpers.contains_key(loaded[k].claimed_by_helper_id->0)
        }),
{
    let disk = super::persist::hub_written(s);
    let blocked = super::persist::all_blocked_restored(disk.blocked_helpers, config);
    lemma_blocked_read_back(s, config);
    lemma_tasks_read_back(s, blocked, now);
}

/// A drain that still waits for a task and has time left goes on over a restart: the task stays
/// held and awaited, and is not recorded as released by force on that account.
pub proof fn law_pending_drain_survives_reload(
    s: HubStateView,
    config: HubConfigView,
    id: Seq<char>,
    task_id: Seq<char>,
    now: Now,
)
    requires
        writable(s),
        s.blocked_helpers.contains_key(id),
        s.blocked_helpers[id].pending_task_ids.contains(task_id),
        super::persist::holds(s.tasks, id, task_id),
        !s.tasks[task_id].released,
        s.tasks[task_id].service_state != "expired"@,
        now.unix_ms < s.blocked_helpers[id].drain_deadline_at_unix_ms,
    ensures
        ({
            let disk = super::persist::hub_written(s);
            let tasks = super::persist::tasks_loaded(disk, config, now);
            let blocked = super::persist::blocked_loaded(disk, config, now);
            &&& super::persist::holds(tasks, id, task_id)
            &&& blocked.contains_key(id)
            &&& blocked[id].pending_task_ids.contains(task_id)
            &&& blocked[id].force_released_task_ids.contains(task_id)
                ==> s.blocked_helpers[id].force_released_task_ids.contains(task_id)
            &&& blocked[id].drain_deadline_at_unix_ms
                == s.blocked_helpers[id].drain_deadline_at_unix_ms
        }),
{
    let disk = super::persist::hub_written(s);
    let b = s.blocked_helpers[id];
    let blocked = super::persist::all_blocked_restored(disk.blocked_helpers, config);
    lemma_blocked_read_back(s, config);
    lemma_tasks_read_back(s, blocked, now);
    crate::table::lemma_sorted_to_set(b.pending_task_ids);
    crate::table::lemma_sorted_to_set(b.force_released_task_ids);
    assert(blocked[id].pending_task_ids == b.pending_task_ids);
    let tasks = super::persist::tasks_loaded(disk, config, now);
    assert(super::persist::claim_survives(
        super::persist::task_written(s.tasks[task_id]),
        blocked,
        now.unix_ms,
    ));
    assert(super::persist::holds(tasks, id, task_id));
}

/// What a drain waited for and the restarted hub does not hold for the helper is recorded as
/// released by force; afterwards the drain waits only for tasks that the helper holds.
pub proof fn law_reload_settles_drains(
    s: HubStateView,
    config: HubConfigView,
    id: Seq<char>,
    task_id: Seq<char>,
    now: Now,
)
    requires
        writable(s),
        s.blocked_helpers.contains_key(id),
        s.blocked_helpers[id].pending_task_ids.contains(task_id),
    ensures
        ({
            let disk = super::persist::hub_written(s);
            let tasks = super::persist::tasks_loaded(disk, config, now);
            let blocked = super::persist::blocked_loaded(disk, config, now);
            &&& blocked.contains_key(id)
            &&& blocked[id].pending_task_ids.contains(task_id) <==> super::persist::holds(
                tasks,
                id,
                task_id,
            )
            &&& !super::persist::holds(tasks, id, task_id)
                ==> blocked[id].force_released_task_ids.contains(task_id)
        }),
{
    let disk = super::persist::hub_written(s);
    lemma_blocked_read_back(s, config);
    crate::table::lemma_sorted_to_set(s.blocked_helpers[id].pending_task_ids);
}

proof fn lemma_tasks_in_order(
    list: Seq<PersistedTaskRecordView>,
    blocked: Map<Seq<char>, BlockedHelperRecordView>,
    now: Now,
    k: Seq<char>,
)
    ensures
        ({
            let tasks = super::persist::all_tasks_restored(list, blocked, now);
            tasks.contains_key(k) ==> tasks[k].task_id == k
        }),
    decreases list.len(),
{
    if list.len() > 0 {
        lemma_tasks_in_order(list.drop_last(), blocked, now, k);
    }
}

proof fn lemma_blocked_in_order(
    list: Seq<PersistedBlockedHelperRecordView>,
    config: HubConfigView,
    k: Seq<char>,
)
    ensures
        ({
            let blocked = super::persist::all_blocked_restored(list, config);
            blocked.contains_key(k) ==> blocked[k].helper_id == k
        }),
    decreases list.len(),
{
    if list.len() > 0 {
        lemma_blocked_in_order(list.drop_last(), config, k);
    }
}

/// Whatever was written, the hub that is restored from it is in order: each record stands under its
/// own identifier.
pub proof fn law_restored_hub_is_in_order(
    disk: PersistedHubStateView,
    config: HubConfigView,
    now: Now,
)
    ensures
        super::records::hub_wf(
            HubStateView {
                config,
                helpers: Map::empty(),
                blocked_helpers: super::persist::blocked_loaded(disk, config, now),
                tasks: super::persist::tasks_loaded(disk, config, now),
                state_revision: 0,
            },
        ),
{
    let blocked = super::persist::all_blocked_restored(disk.blocked_helpers, config);
    let tasks = super::persist::tasks_loaded(disk, config, now);
    assert forall|k: Seq<char>| #[trigger] tasks.contains_key(k) implies tasks[k].task_id == k by {
        lemma_tasks_in_order(disk.tasks, blocked, now, k);
    }
    let settled = super::persist::blocked_loaded(disk, config, now);
    assert forall|k: Seq<char>| #[trigger] settled.contains_key(k) implies settled[k].helper_id
        == k by {
        lemma_blocked_in_order(disk.blocked_helpers, config, k);
        assert(blocked.contains_key(k));
    }
}

} // verus!
