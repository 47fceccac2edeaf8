//! What a hub tells of its records and what it keeps of them over a restart: each number and word is read
//! off one record, and of the right one.
use vstd::prelude::*;

use super::records::{
    BlockedHelperRecordView, HelperActiveTaskRecordView, HelperRecordView, HubConfigView,
    HubStateView, TaskRecordView,
};
use crate::clock::Now;

verus! {

/// How many milliseconds went by since that moment; nought for one that is yet to come.
pub open spec fn gone_by(now: Now, then: u128) -> int {
    if now.instant >= then {
        (now.instant - then) / 1_000_000
    } else {
        0
    }
}

/// The time from the one to the other; nought where the other comes first.
pub open spec fn from_to(from: u64, to: u64) -> int {
    if to >= from {
        to - from
    } else {
        0
    }
}

/// An age that was told grew by that much since; what was not told is not told now.
pub open spec fn grown(told: Option<u128>, now_told: Option<u128>, delta: u128) -> bool {
    match told {
        Some(age) => now_told is Some && now_told->0 == age + delta,
        None => now_told is None,
    }
}

/// What is told of a task is read off its record, and how long it was not heard of off the moment that it
/// was.
pub proof fn law_task_is_told(t: TaskRecordView, now: Now)
    ensures
        ({
            let told = super::status::task_told(t, now);
            &&& told.task_id == t.task_id
            &&& told.cluster_key == t.cluster_key
            &&& told.place_id == t.place_id
            &&& told.universe_id == t.universe_id
            &&& told.owner_user == t.owner_user
            &&& told.repo == t.repo
            &&& told.worktree_name == t.worktree_name
            &&& told.service_state == t.service_state
            &&& told.accepting_launches == t.accepting_launches
            &&& told.claimed_by_helper_id == t.claimed_by_helper_id
            &&& told.released == t.released
            &&& told.services == t.services
            &&& told.created_at_unix_ms == t.created_at_unix_ms
            &&& told.updated_at_unix_ms == t.updated_at_unix_ms
            &&& told.last_task_heartbeat_at_unix_ms == t.last_task_heartbeat_at_unix_ms
            &&& told.routes.mcp_base_url == t.routes.mcp_base_url
            &&& told.routes.rojo_base_url == t.routes.rojo_base_url
            &&& told.routes.runtime_log_base_url == t.routes.runtime_log_base_url
            &&& told.last_seen_age_ms == gone_by(now, t.last_seen_at)
        }),
{
}

/// What a helper reported of a task is told as it was reported, but that the ages grow with the time since
/// the report.
pub proof fn law_reports_age(t: HelperActiveTaskRecordView, delta: u128)
    requires
        super::status::ages_fit(t, delta),
    ensures
        ({
            let told = super::status::aged(t, delta);
            &&& told.task_id == t.task_id
            &&& told.remote_state == t.remote_state
            &&& told.remote_connection_id == t.remote_connection_id
            &&& told.remote_last_error == t.remote_last_error
            &&& told.remote_last_ready_age_ms == t.remote_last_ready_age_ms
            &&& told.remote_last_server_message_age_ms == t.remote_last_server_message_age_ms
            &&& told.studio_session_state == t.studio_session_state
            &&& grown(t.studio_session_state_age_ms, told.studio_session_state_age_ms, delta)
            &&& told.studio_mode == t.studio_mode
            &&& grown(t.studio_mode_age_ms, told.studio_mode_age_ms, delta)
            &&& told.studio_mode_source == t.studio_mode_source
            &&& told.studio_control_state == t.studio_control_state
            &&& told.studio_transition_phase == t.studio_transition_phase
            &&& grown(t.studio_transition_age_ms, told.studio_transition_age_ms, delta)
            &&& told.edit_runtime_state == t.edit_runtime_state
            &&& grown(t.edit_runtime_age_ms, told.edit_runtime_age_ms, delta)
            &&& told.studio_control_last_error == t.studio_control_last_error
            &&& told.last_stop_request_id == t.last_stop_request_id
            &&& grown(t.last_stop_request_age_ms, told.last_stop_request_age_ms, delta)
            &&& told.last_stop_request_source == t.last_stop_request_source
            &&& told.last_stop_request_error == t.last_stop_request_error
            &&& told.stop_intent_recorded == t.stop_intent_recorded
            &&& told.stop_request_available == t.stop_request_available
            &&& told.stop_request_consumed == t.stop_request_consumed
            &&& told.end_test_requested == t.end_test_requested
            &&& told.runtime_actuator_last_poll_id == t.runtime_actuator_last_poll_id
            &&& grown(t.runtime_actuator_last_poll_age_ms, told.runtime_actuator_last_poll_age_ms, delta)
            &&& told.runtime_actuator_last_error == t.runtime_actuator_last_error
            &&& told.official_mcp_adapter_state == t.official_mcp_adapter_state
            &&& grown(t.official_mcp_adapter_age_ms, told.official_mcp_adapter_age_ms, delta)
            &&& told.official_mcp_adapter_last_error == t.official_mcp_adapter_last_error
        }),
{
}

/// What is told of a helper is read off its record, with a line for each task that it serves: what it last
/// reported of the task, aged, or that nothing is known of it.
pub proof fn law_helper_is_told(h: HelperRecordView, blocked: bool, k: Seq<char>, now: Now)
    requires
        h.active_task_ids.finite(),
        h.active_task_ids.len() <= usize::MAX,
        super::records::helper_wf(h),
    ensures
        ({
            let told = super::status::helper_told(h, blocked, now);
            &&& told.helper_id == h.helper_id
            &&& told.owner_user == h.owner_user
            &&& told.platform == h.platform
            &&& told.capacity == h.capacity
            &&& told.labels == h.labels
            &&& told.blocked == blocked
            &&& told.registered_at_unix_ms == h.registered_at_unix_ms
            &&& told.last_seen_age_ms == gone_by(now, h.last_seen_at)
            &&& told.active_launch_count == h.active_task_ids.len()
            &&& h.active_task_ids.contains(k) <==> exists|i: int|
                0 <= i < told.active_tasks.len() && #[trigger] told.active_tasks[i].task_id == k
            &&& forall|i: int|
                0 <= i < told.active_tasks.len() && #[trigger] told.active_tasks[i].task_id == k ==> {
                    &&& h.active_tasks.contains_key(k) ==> told.active_tasks[i]
                        == super::status::aged(
                        h.active_tasks[k],
                        crate::clock::since_ms(now.instant, h.last_seen_at),
                    )
                    &&& !h.active_tasks.contains_key(k) ==> told.active_tasks[i].remote_state
                        == "unknown"@ && told.active_tasks[i].studio_session_state is None
                        && told.active_tasks[i].studio_mode is None
                }
        }),
{
    let told = super::status::helper_told(h, blocked, now);
    let list = crate::table::sorted(h.active_task_ids);
    crate::table::lemma_finite_sorted(h.active_task_ids);
    assert forall|i: int| 0 <= i < list.len() implies #[trigger] told.active_tasks[i].task_id
        == list[i] by {
        assert(list.contains(list[i]));
    }
    if h.active_task_ids.contains(k) {
        assert(list.contains(k));
        let p = list.index_of(k);
        assert(told.active_tasks[p].task_id == k);
    }
    if exists|i: int|
        0 <= i < told.active_tasks.len() && #[trigger] told.active_tasks[i].task_id == k {
        let i = choose|i: int|
            0 <= i < told.active_tasks.len() && #[trigger] told.active_tasks[i].task_id == k;
        assert(list[i] == k);
        assert(list.contains(k));
    }
}

/// What is told of a blocked helper is read off its record: it drains while its drain waits for a task, was
/// drained by force where it was, and is drained else; its times are counted to now and to the deadline.
pub proof fn law_blocked_helper_is_told(b: BlockedHelperRecordView, k: Seq<char>, now: u64)
    requires
        super::reload::drain_writable(b),
    ensures
        ({
            let told = super::status::blocked_told(b, now);
            &&& told.helper_id == b.helper_id
            &&& told.reason == b.reason
            &&& told.blocked_at_unix_ms == b.blocked_at_unix_ms
            &&& told.drain_started_at_unix_ms == b.drain_started_at_unix_ms
            &&& told.drain_deadline_at_unix_ms == b.drain_deadline_at_unix_ms
            &&& told.drain_deadline_elapsed <==> now >= b.drain_deadline_at_unix_ms
            &&& told.drain_deadline_remaining_ms == from_to(now, b.drain_deadline_at_unix_ms)
            &&& told.drain_age_ms == from_to(b.drain_started_at_unix_ms, now)
            &&& told.last_release_requested_at_unix_ms == b.last_release_requested_at_unix_ms
            &&& told.last_seen_age_ms is Some <==> b.last_seen_at_unix_ms is Some
            &&& told.last_seen_age_ms matches Some(age) ==> age == from_to(
                b.last_seen_at_unix_ms->0,
                now,
            )
            &&& told.pending_task_ids.contains(k) <==> b.pending_task_ids.contains(k)
            &&& told.last_reported_task_ids.contains(k) <==> b.last_reported_task_ids.contains(k)
            &&& told.force_released_task_ids.contains(k) <==> b.force_released_task_ids.contains(k)
            &&& b.pending_task_ids.contains(k) ==> told.drain_status == "draining"@
            &&& b.pending_task_ids == Set::<Seq<char>>::empty()
                && b.force_released_task_ids.contains(k) ==> told.drain_status == "force_released"@
            &&& b.pending_task_ids == Set::<Seq<char>>::empty() && b.force_released_task_ids
                == Set::<Seq<char>>::empty() ==> told.drain_status == "drained"@
        }),
{
    crate::table::lemma_finite_sorted(b.pending_task_ids);
    crate::table::lemma_finite_sorted(b.last_reported_task_ids);
    crate::table::lemma_finite_sorted(b.force_released_task_ids);
}

/// A hub tells of each helper, each blocked helper and each task that it has.
pub proof fn law_hub_tells_of_all(s: HubStateView, k: Seq<char>, now: Now)
    requires
        super::records::hub_wf(s),
        s.helpers.dom().finite(),
        s.blocked_helpers.dom().finite(),
        s.tasks.dom().finite(),
    ensures
        s.helpers.contains_key(k) ==> super::status::helpers_told(s, now).contains(
            super::status::helper_told(s.helpers[k], s.blocked_helpers.contains_key(k), now),
        ),
        s.blocked_helpers.contains_key(k) ==> super::status::all_blocked_told(s, now).contains(
            super::status::blocked_told(s.blocked_helpers[k], now.unix_ms),
        ),
        s.tasks.contains_key(k) ==> super::status::tasks_told(s, now).contains(
            super::status::task_told(s.tasks[k], now),
        ),
{
    crate::table::lemma_finite_sorted(s.helpers.dom());
    crate::table::lemma_finite_sorted(s.blocked_helpers.dom());
    crate::table::lemma_finite_sorted(s.tasks.dom());
    if s.helpers.contains_key(k) {
        let list = crate::table::sorted(s.helpers.dom());
        assert(s.helpers.dom().contains(k));
        assert(list.contains(k));
        let p = list.index_of(k);
        assert(super::status::helpers_told(s, now)[p] == super::status::helper_told(
            s.helpers[k],
            s.blocked_helpers.contains_key(k),
            now,
        ));
    }
    if s.blocked_helpers.contains_key(k) {
        let list = crate::table::sorted(s.blocked_helpers.dom());
        assert(s.blocked_helpers.dom().contains(k));
        assert(list.contains(k));
        let p = list.index_of(k);
        assert(super::status::all_blocked_told(s, now)[p] == super::status::blocked_told(
            s.blocked_helpers[k],
            now.unix_ms,
        ));
    }
    if s.tasks.contains_key(k) {
        let list = crate::table::sorted(s.tasks.dom());
        assert(s.tasks.dom().contains(k));
        assert(list.contains(k));
        let p = list.index_of(k);
        assert(super::status::tasks_told(s, now)[p] == super::status::task_told(s.tasks[k], now));
    }
}

/// A task is the same after a restart. It was last heard of when it last sent a heartbeat, told by the
/// clock; it keeps its claim exactly where the drain of its holder still waits for it: the holder is
/// blocked, its deadline is yet to come, and the task is neither released nor expired.
pub proof fn law_restart_keeps_the_task(s: HubStateView, config: HubConfigView, k: Seq<char>, now: Now)
    requires
        super::reload::writable(s),
        s.tasks.contains_key(k),
        s.tasks[k].last_task_heartbeat_at_unix_ms != 0,
    ensures
        ({
            let loaded = super::persist::tasks_loaded(super::persist::hub_written(s), config, now);
            let t = s.tasks[k];
            let a = loaded[k];
            let since = from_to(t.last_task_heartbeat_at_unix_ms, now.unix_ms) * 1_000_000;
            let h = t.claimed_by_helper_id->0;
            let b = s.blocked_helpers[h];
            let waited_for = t.claimed_by_helper_id is Some && s.blocked_helpers.contains_key(h)
                && b.pending_task_ids.contains(k) && b.drain_deadline_at_unix_ms != 0 && now.unix_ms
                < b.drain_deadline_at_unix_ms && !t.released && t.service_state != "expired"@;
            &&& loaded.contains_key(k)
            &&& a.task_id == t.task_id
            &&& a.cluster_key == t.cluster_key
            &&& a.task_token == t.task_token
            &&& a.recover_token == t.recover_token
            &&& a.place_id == t.place_id
            &&& a.universe_id == t.universe_id
            &&& a.owner_user == t.owner_user
            &&& a.repo == t.repo
            &&& a.worktree_name == t.worktree_name
            &&& a.service_state == t.service_state
            &&& a.accepting_launches == t.accepting_launches
            &&& a.services == t.services
            &&& a.created_at_unix_ms == t.created_at_unix_ms
            &&& a.updated_at_unix_ms == t.updated_at_unix_ms
            &&& a.released == t.released
            &&& a.routes.mcp_base_url == t.routes.mcp_base_url
            &&& a.routes.rojo_base_url == t.routes.rojo_base_url
            &&& a.routes.runtime_log_base_url == t.routes.runtime_log_base_url
            &&& a.last_task_heartbeat_at_unix_ms == t.last_task_heartbeat_at_unix_ms
            &&& since <= now.instant ==> a.last_seen_at == now.instant - since
            &&& since > now.instant ==> a.last_seen_at == now.instant
            &&& b.drain_deadline_at_unix_ms != 0 || t.claimed_by_helper_id is None
                || !s.blocked_helpers.contains_key(h) ==> a.claimed_by_helper_id == if waited_for {
                t.claimed_by_helper_id
            } else {
                None
            }
        }),
{
    let disk = super::persist::hub_written(s);
    let blocked = super::persist::all_blocked_restored(disk.blocked_helpers, config);
    super::reload::lemma_blocked_read_back(s, config);
    super::reload::lemma_tasks_read_back(s, blocked, now);
    if let Some(h) = s.tasks[k].claimed_by_helper_id {
        if s.blocked_helpers.contains_key(h) {
            crate::table::lemma_sorted_to_set(s.blocked_helpers[h].pending_task_ids);
        }
    }
}

/// A blocked helper is still blocked after a restart, for the same reason, with the same drain; its drain
/// waits for what it waited for and still holds, and the rest counts as released by force.
pub proof fn law_restart_keeps_the_block(
    s: HubStateView,
    config: HubConfigView,
    id: Seq<char>,
    k: Seq<char>,
    now: Now,
)
    requires
        super::reload::writable(s),
        s.blocked_helpers.contains_key(id),
    ensures
        ({
            let disk = super::persist::hub_written(s);
            let tasks = super::persist::tasks_loaded(disk, config, now);
            let blocked = super::persist::blocked_loaded(disk, config, now);
            let b = s.blocked_helpers[id];
            let a = blocked[id];
            let holds = tasks.contains_key(k) && tasks[k].claimed_by_helper_id == Some(id);
            let wait = config.helper_heartbeat_timeout_sec * 1000;
            &&& blocked.contains_key(id)
            &&& a.helper_id == id
            &&& b.reason is None ==> a.reason is None
            &&& b.reason matches Some(reason) ==> a.reason == if crate::text::trimmed(reason).len()
                > 0 {
                Some(crate::text::trimmed(reason))
            } else {
                None
            }
            &&& a.blocked_at_unix_ms == b.blocked_at_unix_ms
            &&& b.drain_started_at_unix_ms != 0 ==> a.drain_started_at_unix_ms
                == b.drain_started_at_unix_ms
            &&& b.drain_started_at_unix_ms == 0 ==> a.drain_started_at_unix_ms
                == b.blocked_at_unix_ms
            &&& b.drain_deadline_at_unix_ms != 0 ==> a.drain_deadline_at_unix_ms
                == b.drain_deadline_at_unix_ms
            &&& b.drain_deadline_at_unix_ms == 0 && b.blocked_at_unix_ms + wait <= u64::MAX
                ==> a.drain_deadline_at_unix_ms == b.blocked_at_unix_ms + wait
            &&& a.last_release_requested_at_unix_ms == b.last_release_requested_at_unix_ms
            &&& a.last_seen_at_unix_ms == b.last_seen_at_unix_ms
            &&& a.last_reported_task_ids.contains(k) <==> b.last_reported_task_ids.contains(k)
            &&& a.pending_task_ids.contains(k) <==> b.pending_task_ids.contains(k) && holds
            &&& a.force_released_task_ids.contains(k) <==> b.force_released_task_ids.contains(k) || (
            b.pending_task_ids.contains(k) && !holds)
        }),
{
    let b = s.blocked_helpers[id];
    super::reload::lemma_blocked_read_back(s, config);
    crate::table::lemma_sorted_to_set(b.pending_task_ids);
    crate::table::lemma_sorted_to_set(b.last_reported_task_ids);
    crate::table::lemma_sorted_to_set(b.force_released_task_ids);
}

/// What is written to disk carries the number of the change that it is of; of two writes the one with the
/// smaller number is the older one.
pub proof fn law_writes_are_numbered(s: HubStateView)
    ensures
        super::persist::snapshot_of(s).revision == s.state_revision,
        super::persist::snapshot_of(s).payload == super::persist::hub_written(s),
        s.state_revision < u64::MAX ==> super::persist::snapshot_of(
            super::persist::bumped(s),
        ).revision == s.state_revision + 1,
        super::persist::bumped(s).tasks == s.tasks,
        super::persist::bumped(s).helpers == s.helpers,
        super::persist::bumped(s).blocked_helpers == s.blocked_helpers,
{
}

/// A hub can be told of where no age that was reported grows past the largest number.
pub proof fn law_ages_that_fit(s: HubStateView, id: Seq<char>, k: Seq<char>, now: Now)
    requires
        super::status::hub_ages_fit(s, now),
        s.helpers.contains_key(id),
        s.helpers[id].active_task_ids.contains(k),
        s.helpers[id].active_tasks.contains_key(k),
    ensures
        super::status::helper_ages_fit(s.helpers[id], now),
        super::status::ages_fit(
            s.helpers[id].active_tasks[k],
            gone_by(now, s.helpers[id].last_seen_at) as u128,
        ),
        s.helpers[id].active_tasks[k].studio_mode_age_ms matches Some(age) ==> age + gone_by(
            now,
            s.helpers[id].last_seen_at,
        ) <= u128::MAX,
{
}

/// What is told of a hub counts what it has; what is told of one helper or one task is told of that one,
/// and one that is not there is told to be unknown.
pub proof fn law_hub_is_told(s: HubStateView, k: Seq<char>, now: Now)
    requires
        s.helpers.dom().len() <= usize::MAX,
        s.tasks.dom().len() <= usize::MAX,
        s.blocked_helpers.dom().len() <= usize::MAX,
    ensures
        ({
            let all = super::status::hub_told(s, now);
            let list = super::status::list_told(s, now);
            let helper = super::status::one_helper_told(s, k, now);
            let task = super::status::one_task_told(s, k, now);
            &&& all.ok
            &&& all.helper_count == s.helpers.dom().len()
            &&& all.task_count == s.tasks.dom().len()
            &&& all.helpers == super::status::helpers_told(s, now)
            &&& all.blocked_helpers == super::status::all_blocked_told(s, now)
            &&& all.tasks == super::status::tasks_told(s, now)
            &&& list.ok
            &&& list.helper_count == s.helpers.dom().len()
            &&& list.blocked_helper_count == s.blocked_helpers.dom().len()
            &&& list.helpers == super::status::helpers_told(s, now)
            &&& list.blocked_helpers == super::status::all_blocked_told(s, now)
            &&& helper is Ok <==> s.helpers.contains_key(k)
            &&& helper matches Ok(told) ==> told.helper_id == s.helpers[k].helper_id && told.blocked
                == s.blocked_helpers.contains_key(k) && told.owner_user == s.helpers[k].owner_user
            &&& helper matches Err(error) ==> error.status == 400 && error.message
                == "helper not found: "@ + k
            &&& task is Ok <==> s.tasks.contains_key(k)
            &&& task matches Ok(told) ==> told.task_id == s.tasks[k].task_id && told.service_state
                == s.tasks[k].service_state
            &&& task matches Err(error) ==> error.status == 400 && error.message
                == "task not found: "@ + k
        }),
{
}

/// Of a task that its helper holds and did not report on, nothing is told but its name.
pub proof fn law_unreported_task_is_told(task_id: Seq<char>)
    ensures
        ({
            let told = super::status::unreported(task_id);
            &&& told.task_id == task_id
            &&& told.remote_state == "unknown"@
            &&& told.remote_connection_id is None
            &&& told.remote_last_error is None
            &&& told.remote_last_ready_age_ms is None
            &&& told.remote_last_server_message_age_ms is None
            &&& told.studio_session_state is None
            &&& told.studio_session_state_age_ms is None
            &&& told.studio_mode is None
            &&& told.studio_mode_age_ms is None
            &&& told.studio_mode_source is None
            &&& told.studio_control_state is None
            &&& told.studio_transition_phase is None
            &&& told.studio_transition_age_ms is None
            &&& told.edit_runtime_state is None
            &&& told.edit_runtime_age_ms is None
            &&& told.studio_control_last_error is None
            &&& told.last_stop_request_id == 0
            &&& told.last_stop_request_age_ms is None
            &&& told.last_stop_request_source is None
            &&& told.last_stop_request_error is None
            &&& !told.stop_intent_recorded
            &&& !told.stop_request_available
            &&& !told.stop_request_consumed
            &&& !told.end_test_requested
            &&& told.runtime_actuator_last_poll_id == 0
            &&& told.runtime_actuator_last_poll_age_ms is None
            &&& told.runtime_actuator_last_error is None
            &&& told.official_mcp_adapter_state is None
            &&& told.official_mcp_adapter_age_ms is None
            &&& told.official_mcp_adapter_last_error is None
        }),
{
}

} // verus!
