//! What is written to disk of a hub, and how a hub is restored from it.
use vstd::prelude::*;

use super::records::{
    BlockedHelperRecord, HubConfig, HubState, PersistSnapshot, PersistedBlockedHelperRecord,
    PersistedHubState, PersistedTaskRecord, TaskRecord,
};
use crate::clock::{duration_ms, Now};
use crate::fields::{normalize_optional_text, require_non_empty};
use crate::order::same_text;
use crate::table::{dup_text, Dup, IdSet, Table};

verus! {

use super::records::{
    BlockedHelperRecordView, HubConfigView, HubStateView, PersistSnapshotView,
    PersistedBlockedHelperRecordView, PersistedHubStateView, PersistedTaskRecordView, TaskRecordView,
};

/// The task as it is written.
pub open spec fn task_written(t: TaskRecordView) -> PersistedTaskRecordView {
    PersistedTaskRecordView {
        task_id: t.task_id,
        cluster_key: t.cluster_key,
        task_token: t.task_token,
        recover_token: t.recover_token,
        place_id: t.place_id,
        universe_id: t.universe_id,
        owner_user: t.owner_user,
        repo: t.repo,
        worktree_name: t.worktree_name,
        service_state: t.service_state,
        accepting_launches: t.accepting_launches,
        services: t.services,
        routes: t.routes,
        created_at_unix_ms: t.created_at_unix_ms,
        updated_at_unix_ms: t.updated_at_unix_ms,
        last_task_heartbeat_at_unix_ms: t.last_task_heartbeat_at_unix_ms,
        claimed_by_helper_id: t.claimed_by_helper_id,
        released: t.released,
    }
}

/// The blocked helper as it is written.
pub open spec fn blocked_written(b: BlockedHelperRecordView) -> PersistedBlockedHelperRecordView {
    PersistedBlockedHelperRecordView {
        helper_id: b.helper_id,
        reason: b.reason,
        blocked_at_unix_ms: b.blocked_at_unix_ms,
        drain_started_at_unix_ms: b.drain_started_at_unix_ms,
        drain_deadline_at_unix_ms: b.drain_deadline_at_unix_ms,
        pending_task_ids: crate::table::sorted(b.pending_task_ids),
        last_reported_task_ids: crate::table::sorted(b.last_reported_task_ids),
        last_release_requested_at_unix_ms: b.last_release_requested_at_unix_ms,
        last_seen_at_unix_ms: b.last_seen_at_unix_ms,
        force_released_task_ids: crate::table::sorted(b.force_released_task_ids),
    }
}

/// The hub as it is written: tasks and blocked helpers in the order of their identifiers.
pub open spec fn hub_written(s: HubStateView) -> PersistedHubStateView {
    PersistedHubStateView {
        tasks: crate::table::sorted(s.tasks.dom()).map_values(
            |k: Seq<char>| task_written(s.tasks[k]),
        ),
        blocked_helpers: crate::table::sorted(s.blocked_helpers.dom()).map_values(
            |k: Seq<char>| blocked_written(s.blocked_helpers[k]),
        ),
    }
}

/// What is handed on to be written of the hub.
pub open spec fn snapshot_of(s: HubStateView) -> PersistSnapshotView {
    PersistSnapshotView { revision: s.state_revision, payload: hub_written(s) }
}

/// The hub one revision on.
pub open spec fn bumped(s: HubStateView) -> HubStateView {
    HubStateView { state_revision: crate::clock::more(s.state_revision, 1), ..s }
}

/// The hub one revision on if `change`.
pub open spec fn bumped_if(s: HubStateView, change: bool) -> HubStateView {
    if change {
        bumped(s)
    } else {
        s
    }
}

/// The record of a blocked helper that stood on disk under the identifier `id`.
pub open spec fn blocked_restored(
    b: PersistedBlockedHelperRecordView,
    id: Seq<char>,
    config: HubConfigView,
) -> BlockedHelperRecordView {
    BlockedHelperRecordView {
        helper_id: id,
        reason: crate::fields::optional(b.reason),
        blocked_at_unix_ms: b.blocked_at_unix_ms,
        drain_started_at_unix_ms: if b.drain_started_at_unix_ms == 0 {
            b.blocked_at_unix_ms
        } else {
            b.drain_started_at_unix_ms
        },
        drain_deadline_at_unix_ms: if b.drain_deadline_at_unix_ms == 0 {
            crate::clock::more(
                b.blocked_at_unix_ms,
                crate::clock::seconds_ms(config.helper_heartbeat_timeout_sec),
            )
        } else {
            b.drain_deadline_at_unix_ms
        },
        pending_task_ids: b.pending_task_ids.to_set(),
        last_reported_task_ids: b.last_reported_task_ids.to_set(),
        last_release_requested_at_unix_ms: b.last_release_requested_at_unix_ms,
        last_seen_at_unix_ms: b.last_seen_at_unix_ms,
        force_released_task_ids: b.force_released_task_ids.to_set(),
    }
}

/// The blocked helpers on disk, by identifier; a blank identifier is passed over, and the later of
/// two records with one identifier counts.
pub open spec fn all_blocked_restored(
    list: Seq<PersistedBlockedHelperRecordView>,
    config: HubConfigView,
) -> Map<Seq<char>, BlockedHelperRecordView>
    decreases list.len(),
{
    if list.len() == 0 {
        Map::empty()
    } else {
        let rest = all_blocked_restored(list.drop_last(), config);
        match crate::fields::required(list.last().helper_id) {
            Some(id) => rest.insert(id, blocked_restored(list.last(), id, config)),
            None => rest,
        }
    }
}

/// The task keeps its claim over a restart: its holder is blocked, the drain still waits for the
/// task and has time left, and the task is neither released nor expired.
pub open spec fn claim_survives(
    t: PersistedTaskRecordView,
    blocked: Map<Seq<char>, BlockedHelperRecordView>,
    now: u64,
) -> bool {
    match t.claimed_by_helper_id {
        Some(holder) => {
            &&& blocked.contains_key(holder)
            &&& blocked[holder].pending_task_ids.contains(t.task_id)
            &&& now < blocked[holder].drain_deadline_at_unix_ms
            &&& !t.released
            &&& t.service_state != "expired"@
        },
        None => false,
    }
}

/// The last heartbeat of a task on disk; the last change stands in where none was recorded.
pub open spec fn heartbeat_restored(t: PersistedTaskRecordView) -> u64 {
    if t.last_task_heartbeat_at_unix_ms == 0 {
        t.updated_at_unix_ms
    } else {
        t.last_task_heartbeat_at_unix_ms
    }
}

/// The monotonic moment that lies as far back as the calendar moment `then`; `now` itself where the
/// monotonic clock does not reach that far back.
pub open spec fn moment_restored(then: u64, now: Now) -> u128 {
    let nanos = crate::clock::less(now.unix_ms, then) * crate::clock::NANOS_PER_MILLI;
    if nanos <= now.instant {
        (now.instant - nanos) as u128
    } else {
        now.instant
    }
}

/// The record of a task that stood on disk.
pub open spec fn task_restored(
    t: PersistedTaskRecordView,
    blocked: Map<Seq<char>, BlockedHelperRecordView>,
    now: Now,
) -> TaskRecordView {
    TaskRecordView {
        task_id: t.task_id,
        cluster_key: t.cluster_key,
        task_token: t.task_token,
        recover_token: t.recover_token,
        place_id: t.place_id,
        universe_id: t.universe_id,
        owner_user: t.owner_user,
        repo: t.repo,
        worktree_name: t.worktree_name,
        service_state: t.service_state,
        accepting_launches: t.accepting_launches,
        services: t.services,
        routes: t.routes,
        created_at_unix_ms: t.created_at_unix_ms,
        updated_at_unix_ms: t.updated_at_unix_ms,
        last_task_heartbeat_at_unix_ms: heartbeat_restored(t),
        last_seen_at: moment_restored(heartbeat_restored(t), now),
        claimed_by_helper_id: if claim_survives(t, blocked, now.unix_ms) {
            t.claimed_by_helper_id
        } else {
            None
        },
        released: t.released,
    }
}

/// The tasks on disk, by identifier; the later of two records with one identifier counts.
pub open spec fn all_tasks_restored(
    list: Seq<PersistedTaskRecordView>,
    blocked: Map<Seq<char>, BlockedHelperRecordView>,
    now: Now,
) -> Map<Seq<char>, TaskRecordView>
    decreases list.len(),
{
    if list.len() == 0 {
        Map::empty()
    } else {
        all_tasks_restored(list.drop_last(), blocked, now).insert(
            list.last().task_id,
            task_restored(list.last(), blocked, now),
        )
    }
}

/// The task `id` is held by `helper_id`.
pub open spec fn holds(
    tasks: Map<Seq<char>, TaskRecordView>,
    helper_id: Seq<char>,
    id: Seq<char>,
) -> bool {
    tasks.contains_key(id) && tasks[id].claimed_by_helper_id == Some(helper_id)
}

/// The blocked helper once the restored tasks are known: a task that it no longer holds has been
/// released by force.
pub open spec fn drain_settled(
    b: BlockedHelperRecordView,
    tasks: Map<Seq<char>, TaskRecordView>,
) -> BlockedHelperRecordView {
    BlockedHelperRecordView {
        pending_task_ids: b.pending_task_ids.filter(|id: Seq<char>| holds(tasks, b.helper_id, id)),
        force_released_task_ids: b.force_released_task_ids.union(
            b.pending_task_ids.filter(|id: Seq<char>| !holds(tasks, b.helper_id, id)),
        ),
        ..b
    }
}

/// The tasks that a hub starts with.
pub open spec fn tasks_loaded(disk: PersistedHubStateView, config: HubConfigView, now: Now) -> Map<
    Seq<char>,
    TaskRecordView,
> {
    all_tasks_restored(disk.tasks, all_blocked_restored(disk.blocked_helpers, config), now)
}

/// The blocked helpers that a hub starts with.
pub open spec fn blocked_loaded(disk: PersistedHubStateView, config: HubConfigView, now: Now) -> Map<
    Seq<char>,
    BlockedHelperRecordView,
> {
    all_blocked_restored(disk.blocked_helpers, config).map_entries(
        |k: Seq<char>, b: BlockedHelperRecordView| drain_settled(b, tasks_loaded(disk, config, now)),
    )
}

/// The identifiers in increasing order.
pub fn sorted_strings(values: &IdSet) -> (ids: Vec<String>)
    ensures
        ids.deep_view() == crate::table::sorted(values@),
        crate::table::lists(ids.deep_view(), values@),
{
    values.to_sorted_vec()
}

fn write_task(task: &TaskRecord) -> (out: PersistedTaskRecord)
    ensures
        out@ == task_written(task@),
{
    PersistedTaskRecord {
        task_id: task.task_id.clone(),
        cluster_key: task.cluster_key.clone(),
        task_token: task.task_token.clone(),
        recover_token: task.recover_token.clone(),
        place_id: task.place_id.clone(),
        universe_id: dup_text(&task.universe_id),
        owner_user: task.owner_user.clone(),
        repo: task.repo.clone(),
        worktree_name: task.worktree_name.clone(),
        service_state: task.service_state.clone(),
        accepting_launches: task.accepting_launches,
        services: task.services.dup(),
        routes: task.routes.dup(),
        created_at_unix_ms: task.created_at_unix_ms,
        updated_at_unix_ms: task.updated_at_unix_ms,
        last_task_heartbeat_at_unix_ms: task.last_task_heartbeat_at_unix_ms,
        claimed_by_helper_id: dup_text(&task.claimed_by_helper_id),
        released: task.released,
    }
}

fn write_blocked(helper: &BlockedHelperRecord) -> (out: PersistedBlockedHelperRecord)
    ensures
        out@ == blocked_written(helper@),
{
    PersistedBlockedHelperRecord {
        helper_id: helper.helper_id.clone(),
        reason: dup_text(&helper.reason),
        blocked_at_unix_ms: helper.blocked_at_unix_ms,
        drain_started_at_unix_ms: helper.drain_started_at_unix_ms,
        drain_deadline_at_unix_ms: helper.drain_deadline_at_unix_ms,
        pending_task_ids: sorted_strings(&helper.pending_task_ids),
        last_reported_task_ids: sorted_strings(&helper.last_reported_task_ids),
        last_release_requested_at_unix_ms: helper.last_release_requested_at_unix_ms,
        last_seen_at_unix_ms: helper.last_seen_at_unix_ms,
        force_released_task_ids: sorted_strings(&helper.force_released_task_ids),
    }
}

/// What is written to disk of the hub.
pub fn build_persisted_state_payload(state: &HubState) -> (payload: PersistedHubState)
    ensures
        payload@ == hub_written(state@),
{
    let task = |k: &str, t: &TaskRecord| -> (r: PersistedTaskRecord)
        ensures
            r@ == task_written(t@),
    { write_task(t) };
    let blocked = |k: &str, b: &BlockedHelperRecord| -> (r: PersistedBlockedHelperRecord)
        ensures
            r@ == blocked_written(b@),
    { write_blocked(b) };
    let tasks = state.tasks.collect(
        task,
        Ghost(|k: Seq<char>, t: TaskRecordView| task_written(t)),
    );
    let blocked_helpers = state.blocked_helpers.collect(
        blocked,
        Ghost(|k: Seq<char>, b: BlockedHelperRecordView| blocked_written(b)),
    );
    let payload = PersistedHubState { tasks, blocked_helpers };
    assert(payload@.tasks =~= hub_written(state@).tasks);
    assert(payload@.blocked_helpers =~= hub_written(state@).blocked_helpers);
    payload
}

/// What is written to disk of the hub, with its revision.
pub fn build_persist_snapshot(state: &HubState) -> (snapshot: PersistSnapshot)
    ensures
        snapshot@ == snapshot_of(state@),
{
    PersistSnapshot {
        revision: state.state_revision,
        payload: build_persisted_state_payload(state),
    }
}

/// Moves the hub one revision on and says what to write.
pub fn bump_state_revision(state: &mut HubState) -> (snapshot: PersistSnapshot)
    ensures
        final(state)@ == bumped(old(state)@),
        snapshot@ == snapshot_of(final(state)@),
        old(state).wf() ==> final(state).wf(),
{
    state.state_revision = state.state_revision.saturating_add(1);
    assert(state@ == bumped(old(state)@));
    build_persist_snapshot(state)
}

/// Moves the hub one revision on if `change`, and says what to write then.
pub fn bump_if(state: &mut HubState, change: bool) -> (snapshot: Option<PersistSnapshot>)
    ensures
        final(state)@ == bumped_if(old(state)@, change),
        snapshot is Some <==> change,
        snapshot matches Some(taken) ==> taken@ == snapshot_of(final(state)@),
        old(state).wf() ==> final(state).wf(),
{
    if change {
        Some(bump_state_revision(state))
    } else {
        None
    }
}

/// Whether a snapshot is still to be written when the hub has reached `latest_revision`: an older
/// one is not.
pub fn snapshot_is_current(snapshot: &PersistSnapshot, latest_revision: u64) -> (current: bool)
    ensures
        current == (snapshot@.revision >= latest_revision),
{
    snapshot.revision >= latest_revision
}

fn restore_blocked(
    helper: &PersistedBlockedHelperRecord,
    helper_id: String,
    config: &HubConfig,
) -> (out: BlockedHelperRecord)
    ensures
        out@ == blocked_restored(helper@, helper_id@, config@),
{
    BlockedHelperRecord {
        helper_id,
        reason: normalize_optional_text(&helper.reason),
        blocked_at_unix_ms: helper.blocked_at_unix_ms,
        drain_started_at_unix_ms: if helper.drain_started_at_unix_ms == 0 {
            helper.blocked_at_unix_ms
        } else {
            helper.drain_started_at_unix_ms
        },
        drain_deadline_at_unix_ms: if helper.drain_deadline_at_unix_ms == 0 {
            helper.blocked_at_unix_ms.saturating_add(
                duration_ms(config.helper_heartbeat_timeout_sec),
            )
        } else {
            helper.drain_deadline_at_unix_ms
        },
        pending_task_ids: IdSet::from_vec(helper.pending_task_ids.clone()),
        last_reported_task_ids: IdSet::from_vec(helper.last_reported_task_ids.clone()),
        last_release_requested_at_unix_ms: helper.last_release_requested_at_unix_ms,
        last_seen_at_unix_ms: helper.last_seen_at_unix_ms,
        force_released_task_ids: IdSet::from_vec(helper.force_released_task_ids.clone()),
    }
}

fn restore_task(
    task: &PersistedTaskRecord,
    blocked: &Table<BlockedHelperRecord>,
    now: Now,
) -> (out: TaskRecord)
    ensures
        out@ == task_restored(task@, blocked@, now),
{
    let heartbeat: u64 = if task.last_task_heartbeat_at_unix_ms == 0 {
        task.updated_at_unix_ms
    } else {
        task.last_task_heartbeat_at_unix_ms
    };
    let back_ms: u64 = now.unix_ms.saturating_sub(heartbeat);
    let back: u128 = back_ms as u128 * crate::clock::NANOS_PER_MILLI;
    let last_seen_at: u128 = if back <= now.instant {
        now.instant - back
    } else {
        now.instant
    };
    let survives = match &task.claimed_by_helper_id {
        Some(holder) => match blocked.get(holder.as_str()) {
            Some(helper) => helper.pending_task_ids.contains(task.task_id.as_str()) && now.unix_ms
                < helper.drain_deadline_at_unix_ms && !task.released && !same_text(
                task.service_state.as_str(),
                "expired",
            ),
            None => false,
        },
        None => false,
    };
    TaskRecord {
        task_id: task.task_id.clone(),
        cluster_key: task.cluster_key.clone(),
        task_token: task.task_token.clone(),
        recover_token: task.recover_token.clone(),
        place_id: task.place_id.clone(),
        universe_id: dup_text(&task.universe_id),
        owner_user: task.owner_user.clone(),
        repo: task.repo.clone(),
        worktree_name: task.worktree_name.clone(),
        service_state: task.service_state.clone(),
        accepting_launches: task.accepting_launches,
        services: task.services.dup(),
        routes: task.routes.dup(),
        created_at_unix_ms: task.created_at_unix_ms,
        updated_at_unix_ms: task.updated_at_unix_ms,
        last_task_heartbeat_at_unix_ms: heartbeat,
        last_seen_at,
        claimed_by_helper_id: if survives {
            dup_text(&task.claimed_by_helper_id)
        } else {
            None
        },
        released: task.released,
    }
}

fn task_held(tasks: &Table<TaskRecord>, helper_id: &str, id: &str) -> (held: bool)
    ensures
        held == holds(tasks@, helper_id@, id@),
{
    match tasks.get(id) {
        Some(task) => super::cleanup::claimed_by(task, helper_id),
        None => false,
    }
}

fn settle_drain(helper: BlockedHelperRecord, tasks: &Table<TaskRecord>) -> (out: BlockedHelperRecord)
    ensures
        out@ == drain_settled(helper@, tasks@),
{
    let mut helper = helper;
    let ghost had = helper@;
    let holder = helper.helper_id.clone();
    let keep = |id: &str| -> (r: bool)
        ensures
            r == holds(tasks@, holder@, id@),
    { task_held(tasks, holder.as_str(), id) };
    let kept = helper.pending_task_ids.filter(keep, Ghost(|id: Seq<char>| holds(tasks@, holder@, id)));
    let lose = |id: &str| -> (r: bool)
        ensures
            r == !holds(tasks@, holder@, id@),
    { !task_held(tasks, holder.as_str(), id) };
    let lost = helper.pending_task_ids.filter(
        lose,
        Ghost(|id: Seq<char>| !holds(tasks@, holder@, id)),
    );
    helper.force_released_task_ids = helper.force_released_task_ids.union(&lost);
    helper.pending_task_ids = kept;
    assert(helper@ == drain_settled(had, tasks@));
    helper
}

/// The tasks and blocked helpers that a hub starts with, from what stood on disk.
pub fn load_persisted_state(persisted: &PersistedHubState, config: &HubConfig, now: Now) -> (loaded: (
    Table<TaskRecord>,
    Table<BlockedHelperRecord>,
))
    ensures
        loaded.0@ == tasks_loaded(persisted@, config@, now),
        loaded.1@ == blocked_loaded(persisted@, config@, now),
{
    let mut blocked: Table<BlockedHelperRecord> = Table::new();
    let ghost helpers = persisted@.blocked_helpers;
    let mut i: usize = 0;
    while i < persisted.blocked_helpers.len()
        invariant
            i <= persisted.blocked_helpers.len(),
            helpers == persisted@.blocked_helpers,
            blocked@ == all_blocked_restored(helpers.take(i as int), config@),
        decreases persisted.blocked_helpers.len() - i,
    {
        let helper = &persisted.blocked_helpers[i];
        assert(helpers.take(i + 1).drop_last() =~= helpers.take(i as int));
        assert(helpers.take(i + 1).last() == helper@);
        if let Ok(helper_id) = require_non_empty(helper.helper_id.as_str(), "helper_id") {
            let record = restore_blocked(helper, helper_id.clone(), config);
            blocked.insert(helper_id, record);
        }
        i += 1;
    }
    assert(helpers.take(helpers.len() as int) =~= helpers);
    let mut tasks: Table<TaskRecord> = Table::new();
    let ghost written = persisted@.tasks;
    let mut i: usize = 0;
    while i < persisted.tasks.len()
        invariant
            i <= persisted.tasks.len(),
            written == persisted@.tasks,
            tasks@ == all_tasks_restored(written.take(i as int), blocked@, now),
        decreases persisted.tasks.len() - i,
    {
        let task = &persisted.tasks[i];
        assert(written.take(i + 1).drop_last() =~= written.take(i as int));
        assert(written.take(i + 1).last() == task@);
        tasks.insert(task.task_id.clone(), restore_task(task, &blocked, now));
        i += 1;
    }
    assert(written.take(written.len() as int) =~= written);
    let loaded = &tasks;
    let change = |k: &str, b: BlockedHelperRecord| -> (r: BlockedHelperRecord)
        ensures
            r@ == drain_settled(b@, loaded@),
    { settle_drain(b, loaded) };
    blocked.update_all(
        change,
        Ghost(|k: Seq<char>, b: BlockedHelperRecordView| drain_settled(b, loaded@)),
    );
    assert(blocked@ =~= blocked_loaded(persisted@, config@, now));
    (tasks, blocked)
}

} // verus!
