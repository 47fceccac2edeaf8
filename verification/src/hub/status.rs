//! What a hub tells of itself.
use vstd::prelude::*;

use super::messages::HubError;
use super::persist::sorted_strings;
use super::records::{
    BlockedHelperRecord, HelperActiveTaskRecord, HelperRecord, HubState, TaskRecord, TaskRoutes,
};
use crate::clock::{elapsed_ms, Now};
use crate::table::{dup_text, Dup, Table};
use crate::text::concat;

verus! {

use super::records::{
    BlockedHelperRecordView, HelperActiveTaskRecordView, HelperRecordView, HubStateView,
    TaskRecordView, TaskRoutesView,
};

/// What is told of a task.
pub struct TaskStatusPayload {
    pub task_id: String,
    pub cluster_key: String,
    pub place_id: String,
    pub universe_id: Option<String>,
    pub owner_user: String,
    pub repo: String,
    pub worktree_name: String,
    pub service_state: String,
    pub accepting_launches: bool,
    pub claimed_by_helper_id: Option<String>,
    pub released: bool,
    pub routes: TaskRoutes,
    pub services: Table<String>,
    pub created_at_unix_ms: u64,
    pub updated_at_unix_ms: u64,
    pub last_task_heartbeat_at_unix_ms: u64,
    pub last_seen_age_ms: u128,
}

/// What a [`TaskStatusPayload`] stands for.
#[verifier::ext_equal]
pub struct TaskStatusPayloadView {
    pub task_id: Seq<char>,
    pub cluster_key: Seq<char>,
    pub place_id: Seq<char>,
    pub universe_id: Option<Seq<char>>,
    pub owner_user: Seq<char>,
    pub repo: Seq<char>,
    pub worktree_name: Seq<char>,
    pub service_state: Seq<char>,
    pub accepting_launches: bool,
    pub claimed_by_helper_id: Option<Seq<char>>,
    pub released: bool,
    pub routes: TaskRoutesView,
    pub services: Map<Seq<char>, Seq<char>>,
    pub created_at_unix_ms: u64,
    pub updated_at_unix_ms: u64,
    pub last_task_heartbeat_at_unix_ms: u64,
    pub last_seen_age_ms: u128,
}

impl View for TaskStatusPayload {
    type V = TaskStatusPayloadView;

    open spec fn view(&self) -> TaskStatusPayloadView {
        TaskStatusPayloadView {
            task_id: self.task_id@,
            cluster_key: self.cluster_key@,
            place_id: self.place_id@,
            universe_id: self.universe_id.deep_view(),
            owner_user: self.owner_user@,
            repo: self.repo@,
            worktree_name: self.worktree_name@,
            service_state: self.service_state@,
            accepting_launches: self.accepting_launches,
            claimed_by_helper_id: self.claimed_by_helper_id.deep_view(),
            released: self.released,
            routes: self.routes@,
            services: self.services@,
            created_at_unix_ms: self.created_at_unix_ms,
            updated_at_unix_ms: self.updated_at_unix_ms,
            last_task_heartbeat_at_unix_ms: self.last_task_heartbeat_at_unix_ms,
            last_seen_age_ms: self.last_seen_age_ms,
        }
    }
}

/// What is told of a helper.
pub struct HelperStatusPayload {
    pub helper_id: String,
    pub owner_user: String,
    pub platform: String,
    pub capacity: usize,
    pub active_launch_count: usize,
    pub active_tasks: Vec<HelperActiveTaskRecord>,
    pub labels: Vec<String>,
    pub blocked: bool,
    pub registered_at_unix_ms: u64,
    pub last_seen_age_ms: u128,
}

/// What a [`HelperStatusPayload`] stands for.
#[verifier::ext_equal]
pub struct HelperStatusPayloadView {
    pub helper_id: Seq<char>,
    pub owner_user: Seq<char>,
    pub platform: Seq<char>,
    pub capacity: usize,
    pub active_launch_count: usize,
    pub active_tasks: Seq<HelperActiveTaskRecordView>,
    pub labels: Seq<Seq<char>>,
    pub blocked: bool,
    pub registered_at_unix_ms: u64,
    pub last_seen_age_ms: u128,
}

impl View for HelperStatusPayload {
    type V = HelperStatusPayloadView;

    open spec fn view(&self) -> HelperStatusPayloadView {
        HelperStatusPayloadView {
            helper_id: self.helper_id@,
            owner_user: self.owner_user@,
            platform: self.platform@,
            capacity: self.capacity,
            active_launch_count: self.active_launch_count,
            active_tasks: crate::table::views(self.active_tasks@),
            labels: self.labels.deep_view(),
            blocked: self.blocked,
            registered_at_unix_ms: self.registered_at_unix_ms,
            last_seen_age_ms: self.last_seen_age_ms,
        }
    }
}

/// What is told of a blocked helper.
pub struct BlockedHelperPayload {
    pub helper_id: String,
    pub reason: Option<String>,
    pub blocked_at_unix_ms: u64,
    pub drain_status: String,
    pub drain_started_at_unix_ms: u64,
    pub drain_deadline_at_unix_ms: u64,
    pub drain_deadline_elapsed: bool,
    pub drain_deadline_remaining_ms: u64,
    pub drain_age_ms: u64,
    pub pending_task_ids: Vec<String>,
    pub last_reported_task_ids: Vec<String>,
    pub last_release_requested_at_unix_ms: Option<u64>,
    pub last_seen_age_ms: Option<u64>,
    pub force_released_task_ids: Vec<String>,
}

/// What a [`BlockedHelperPayload`] stands for.
#[verifier::ext_equal]
pub struct BlockedHelperPayloadView {
    pub helper_id: Seq<char>,
    pub reason: Option<Seq<char>>,
    pub blocked_at_unix_ms: u64,
    pub drain_status: Seq<char>,
    pub drain_started_at_unix_ms: u64,
    pub drain_deadline_at_unix_ms: u64,
    pub drain_deadline_elapsed: bool,
    pub drain_deadline_remaining_ms: u64,
    pub drain_age_ms: u64,
    pub pending_task_ids: Seq<Seq<char>>,
    pub last_reported_task_ids: Seq<Seq<char>>,
    pub last_release_requested_at_unix_ms: Option<u64>,
    pub last_seen_age_ms: Option<u64>,
    pub force_released_task_ids: Seq<Seq<char>>,
}

impl View for BlockedHelperPayload {
    type V = BlockedHelperPayloadView;

    open spec fn view(&self) -> BlockedHelperPayloadView {
        BlockedHelperPayloadView {
            helper_id: self.helper_id@,
            reason: self.reason.deep_view(),
            blocked_at_unix_ms: self.blocked_at_unix_ms,
            drain_status: self.drain_status@,
            drain_started_at_unix_ms: self.drain_started_at_unix_ms,
            drain_deadline_at_unix_ms: self.drain_deadline_at_unix_ms,
            drain_deadline_elapsed: self.drain_deadline_elapsed,
            drain_deadline_remaining_ms: self.drain_deadline_remaining_ms,
            drain_age_ms: self.drain_age_ms,
            pending_task_ids: self.pending_task_ids.deep_view(),
            last_reported_task_ids: self.last_reported_task_ids.deep_view(),
            last_release_requested_at_unix_ms: self.last_release_requested_at_unix_ms,
            last_seen_age_ms: self.last_seen_age_ms,
            force_released_task_ids: self.force_released_task_ids.deep_view(),
        }
    }
}

/// What is told of a hub.
pub struct HubStatusResponse {
    pub ok: bool,
    pub helper_count: usize,
    pub task_count: usize,
    pub helpers: Vec<HelperStatusPayload>,
    pub blocked_helpers: Vec<BlockedHelperPayload>,
    pub tasks: Vec<TaskStatusPayload>,
}

/// What a [`HubStatusResponse`] stands for.
#[verifier::ext_equal]
pub struct HubStatusResponseView {
    pub ok: bool,
    pub helper_count: usize,
    pub task_count: usize,
    pub helpers: Seq<HelperStatusPayloadView>,
    pub blocked_helpers: Seq<BlockedHelperPayloadView>,
    pub tasks: Seq<TaskStatusPayloadView>,
}

impl View for HubStatusResponse {
    type V = HubStatusResponseView;

    open spec fn view(&self) -> HubStatusResponseView {
        HubStatusResponseView {
            ok: self.ok,
            helper_count: self.helper_count,
            task_count: self.task_count,
            helpers: crate::table::views(self.helpers@),
            blocked_helpers: crate::table::views(self.blocked_helpers@),
            tasks: crate::table::views(self.tasks@),
        }
    }
}

/// What is told of the helpers of a hub.
pub struct HelperListResponse {
    pub ok: bool,
    pub helper_count: usize,
    pub blocked_helper_count: usize,
    pub helpers: Vec<HelperStatusPayload>,
    pub blocked_helpers: Vec<BlockedHelperPayload>,
}

/// What a [`HelperListResponse`] stands for.
#[verifier::ext_equal]
pub struct HelperListResponseView {
    pub ok: bool,
    pub helper_count: usize,
    pub blocked_helper_count: usize,
    pub helpers: Seq<HelperStatusPayloadView>,
    pub blocked_helpers: Seq<BlockedHelperPayloadView>,
}

impl View for HelperListResponse {
    type V = HelperListResponseView;

    open spec fn view(&self) -> HelperListResponseView {
        HelperListResponseView {
            ok: self.ok,
            helper_count: self.helper_count,
            blocked_helper_count: self.blocked_helper_count,
            helpers: crate::table::views(self.helpers@),
            blocked_helpers: crate::table::views(self.blocked_helpers@),
        }
    }
}

/// The age once `delta` more milliseconds have gone by.
pub open spec fn older(age: Option<u128>, delta: u128) -> Option<u128> {
    match age {
        Some(a) => Some((a + delta) as u128),
        None => None,
    }
}

/// The age can be counted once `delta` more milliseconds have gone by.
pub open spec fn age_fits(age: Option<u128>, delta: u128) -> bool {
    age matches Some(a) ==> a + delta <= u128::MAX
}

/// The report on a task once `delta` more milliseconds have gone by.
pub open spec fn aged(t: HelperActiveTaskRecordView, delta: u128) -> HelperActiveTaskRecordView {
    HelperActiveTaskRecordView {
        studio_session_state_age_ms: older(t.studio_session_state_age_ms, delta),
        studio_mode_age_ms: older(t.studio_mode_age_ms, delta),
        studio_transition_age_ms: older(t.studio_transition_age_ms, delta),
        edit_runtime_age_ms: older(t.edit_runtime_age_ms, delta),
        last_stop_request_age_ms: older(t.last_stop_request_age_ms, delta),
        runtime_actuator_last_poll_age_ms: older(t.runtime_actuator_last_poll_age_ms, delta),
        official_mcp_adapter_age_ms: older(t.official_mcp_adapter_age_ms, delta),
        ..t
    }
}

/// Every age in the report can be counted once `delta` more milliseconds have gone by.
pub open spec fn ages_fit(t: HelperActiveTaskRecordView, delta: u128) -> bool {
    &&& age_fits(t.studio_session_state_age_ms, delta)
    &&& age_fits(t.studio_mode_age_ms, delta)
    &&& age_fits(t.studio_transition_age_ms, delta)
    &&& age_fits(t.edit_runtime_age_ms, delta)
    &&& age_fits(t.last_stop_request_age_ms, delta)
    &&& age_fits(t.runtime_actuator_last_poll_age_ms, delta)
    &&& age_fits(t.official_mcp_adapter_age_ms, delta)
}

/// What is told of a task that was claimed and not reported on yet.
pub open spec fn unreported(task_id: Seq<char>) -> HelperActiveTaskRecordView {
    HelperActiveTaskRecordView {
        task_id,
        remote_state: "unknown"@,
        remote_connection_id: None,
        remote_last_error: None,
        remote_last_ready_age_ms: None,
        remote_last_server_message_age_ms: None,
        studio_session_state: None,
        studio_session_state_age_ms: None,
        studio_mode: None,
        studio_mode_age_ms: None,
        studio_mode_source: None,
        studio_control_state: None,
        studio_transition_phase: None,
        studio_transition_age_ms: None,
        edit_runtime_state: None,
        edit_runtime_age_ms: None,
        studio_control_last_error: None,
        last_stop_request_id: 0,
        last_stop_request_age_ms: None,
        last_stop_request_source: None,
        last_stop_request_error: None,
        stop_intent_recorded: false,
        stop_request_available: false,
        stop_request_consumed: false,
        end_test_requested: false,
        runtime_actuator_last_poll_id: 0,
        runtime_actuator_last_poll_age_ms: None,
        runtime_actuator_last_error: None,
        official_mcp_adapter_state: None,
        official_mcp_adapter_age_ms: None,
        official_mcp_adapter_last_error: None,
    }
}

/// Every age that is told of the helper at `now` can be counted.
pub open spec fn helper_ages_fit(h: HelperRecordView, now: Now) -> bool {
    forall|k: Seq<char>| #[trigger]
        h.active_tasks.contains_key(k) && h.active_task_ids.contains(k) ==> ages_fit(
            h.active_tasks[k],
            crate::clock::since_ms(now.instant, h.last_seen_at),
        )
}

/// What is told of the task `id` of the helper.
pub open spec fn active_task_told(h: HelperRecordView, id: Seq<char>, now: Now) -> HelperActiveTaskRecordView {
    if h.active_tasks.contains_key(id) {
        aged(h.active_tasks[id], crate::clock::since_ms(now.instant, h.last_seen_at))
    } else {
        unreported(id)
    }
}

/// What is told of a helper; its tasks stand in the order of their identifiers.
pub open spec fn helper_told(h: HelperRecordView, blocked: bool, now: Now) -> HelperStatusPayloadView {
    HelperStatusPayloadView {
        helper_id: h.helper_id,
        owner_user: h.owner_user,
        platform: h.platform,
        capacity: h.capacity,
        active_launch_count: h.active_task_ids.len() as usize,
        active_tasks: crate::table::sorted(h.active_task_ids).map_values(
            |id: Seq<char>| active_task_told(h, id, now),
        ),
        labels: h.labels,
        blocked,
        registered_at_unix_ms: h.registered_at_unix_ms,
        last_seen_age_ms: crate::clock::since_ms(now.instant, h.last_seen_at),
    }
}

/// How far a drain has come.
pub open spec fn drain_status(b: BlockedHelperRecordView) -> Seq<char> {
    if b.pending_task_ids != Set::<Seq<char>>::empty() {
        "draining"@
    } else if b.force_released_task_ids != Set::<Seq<char>>::empty() {
        "force_released"@
    } else {
        "drained"@
    }
}

/// What is told of a blocked helper.
pub open spec fn blocked_told(b: BlockedHelperRecordView, now: u64) -> BlockedHelperPayloadView {
    BlockedHelperPayloadView {
        helper_id: b.helper_id,
        reason: b.reason,
        blocked_at_unix_ms: b.blocked_at_unix_ms,
        drain_status: drain_status(b),
        drain_started_at_unix_ms: b.drain_started_at_unix_ms,
        drain_deadline_at_unix_ms: b.drain_deadline_at_unix_ms,
        drain_deadline_elapsed: now >= b.drain_deadline_at_unix_ms,
        drain_deadline_remaining_ms: crate::clock::less(b.drain_deadline_at_unix_ms, now),
        drain_age_ms: crate::clock::less(now, b.drain_started_at_unix_ms),
        pending_task_ids: crate::table::sorted(b.pending_task_ids),
        last_reported_task_ids: crate::table::sorted(b.last_reported_task_ids),
        last_release_requested_at_unix_ms: b.last_release_requested_at_unix_ms,
        last_seen_age_ms: match b.last_seen_at_unix_ms {
            Some(seen) => Some(crate::clock::less(now, seen)),
            None => None,
        },
        force_released_task_ids: crate::table::sorted(b.force_released_task_ids),
    }
}

/// What is told of a task.
pub open spec fn task_told(t: TaskRecordView, now: Now) -> TaskStatusPayloadView {
    TaskStatusPayloadView {
        task_id: t.task_id,
        cluster_key: t.cluster_key,
        place_id: t.place_id,
        universe_id: t.universe_id,
        owner_user: t.owner_user,
        repo: t.repo,
        worktree_name: t.worktree_name,
        service_state: t.service_state,
        accepting_launches: t.accepting_launches,
        claimed_by_helper_id: t.claimed_by_helper_id,
        released: t.released,
        routes: t.routes,
        services: t.services,
        created_at_unix_ms: t.created_at_unix_ms,
        updated_at_unix_ms: t.updated_at_unix_ms,
        last_task_heartbeat_at_unix_ms: t.last_task_heartbeat_at_unix_ms,
        last_seen_age_ms: crate::clock::since_ms(now.instant, t.last_seen_at),
    }
}

/// Every age that is told of the hub at `now` can be counted.
pub open spec fn hub_ages_fit(s: HubStateView, now: Now) -> bool {
    forall|k: Seq<char>| #[trigger] s.helpers.contains_key(k) ==> helper_ages_fit(s.helpers[k], now)
}

/// What is told of the helpers of a hub, in the order of their identifiers.
pub open spec fn helpers_told(s: HubStateView, now: Now) -> Seq<HelperStatusPayloadView> {
    crate::table::sorted(s.helpers.dom()).map_values(
        |k: Seq<char>|
            helper_told(s.helpers[k], s.blocked_helpers.contains_key(s.helpers[k].helper_id), now),
    )
}

/// What is told of the blocked helpers of a hub, in the order of their identifiers.
pub open spec fn all_blocked_told(s: HubStateView, now: Now) -> Seq<BlockedHelperPayloadView> {
    crate::table::sorted(s.blocked_helpers.dom()).map_values(
        |k: Seq<char>| blocked_told(s.blocked_helpers[k], now.unix_ms),
    )
}

/// What is told of the tasks of a hub, in the order of their identifiers.
pub open spec fn tasks_told(s: HubStateView, now: Now) -> Seq<TaskStatusPayloadView> {
    crate::table::sorted(s.tasks.dom()).map_values(|k: Seq<char>| task_told(s.tasks[k], now))
}

fn age_in(age: Option<u128>, delta: u128) -> (later: Option<u128>)
    requires
        age_fits(age, delta),
    ensures
        later == older(age, delta),
{
    match age {
        Some(a) => Some(a + delta),
        None => None,
    }
}

fn fits(age: Option<u128>, delta: u128) -> (countable: bool)
    ensures
        countable == age_fits(age, delta),
{
    match age {
        Some(a) => a <= u128::MAX - delta,
        None => true,
    }
}

fn task_ages_fit(t: &HelperActiveTaskRecord, delta: u128) -> (countable: bool)
    ensures
        countable == ages_fit(t@, delta),
{
    fits(t.studio_session_state_age_ms, delta)
        && fits(t.studio_mode_age_ms, delta)
        && fits(t.studio_transition_age_ms, delta)
        && fits(t.edit_runtime_age_ms, delta)
        && fits(t.last_stop_request_age_ms, delta)
        && fits(t.runtime_actuator_last_poll_age_ms, delta)
        && fits(t.official_mcp_adapter_age_ms, delta)
}

fn age_task(t: &HelperActiveTaskRecord, delta: u128) -> (told: HelperActiveTaskRecord)
    requires
        ages_fit(t@, delta),
    ensures
        told@ == aged(t@, delta),
{
    let mut told = t.dup();
    told.studio_session_state_age_ms = age_in(t.studio_session_state_age_ms, delta);
    told.studio_mode_age_ms = age_in(t.studio_mode_age_ms, delta);
    told.studio_transition_age_ms = age_in(t.studio_transition_age_ms, delta);
    told.edit_runtime_age_ms = age_in(t.edit_runtime_age_ms, delta);
    told.last_stop_request_age_ms = age_in(t.last_stop_request_age_ms, delta);
    told.runtime_actuator_last_poll_age_ms = age_in(t.runtime_actuator_last_poll_age_ms, delta);
    told.official_mcp_adapter_age_ms = age_in(t.official_mcp_adapter_age_ms, delta);
    told
}

fn unreported_task(task_id: &str) -> (told: HelperActiveTaskRecord)
    ensures
        told@ == unreported(task_id@),
{
    HelperActiveTaskRecord {
        task_id: task_id.to_owned(),
        remote_state: "unknown".to_owned(),
        remote_connection_id: None,
        remote_last_error: None,
        remote_last_ready_age_ms: None,
        remote_last_server_message_age_ms: None,
        studio_session_state: None,
        studio_session_state_age_ms: None,
        studio_mode: None,
        studio_mode_age_ms: None,
        studio_mode_source: None,
        studio_control_state: None,
        studio_transition_phase: None,
        studio_transition_age_ms: None,
        edit_runtime_state: None,
        edit_runtime_age_ms: None,
        studio_control_last_error: None,
        last_stop_request_id: 0,
        last_stop_request_age_ms: None,
        last_stop_request_source: None,
        last_stop_request_error: None,
        stop_intent_recorded: false,
        stop_request_available: false,
        stop_request_consumed: false,
        end_test_requested: false,
        runtime_actuator_last_poll_id: 0,
        runtime_actuator_last_poll_age_ms: None,
        runtime_actuator_last_error: None,
        official_mcp_adapter_state: None,
        official_mcp_adapter_age_ms: None,
        official_mcp_adapter_last_error: None,
    }
}

/// What is told of a task.
pub fn task_status_payload(task: &TaskRecord, now: Now) -> (payload: TaskStatusPayload)
    ensures
        payload@ == task_told(task@, now),
{
    TaskStatusPayload {
        task_id: task.task_id.clone(),
        cluster_key: task.cluster_key.clone(),
        place_id: task.place_id.clone(),
        universe_id: dup_text(&task.universe_id),
        owner_user: task.owner_user.clone(),
        repo: task.repo.clone(),
        worktree_name: task.worktree_name.clone(),
        service_state: task.service_state.clone(),
        accepting_launches: task.accepting_launches,
        claimed_by_helper_id: dup_text(&task.claimed_by_helper_id),
        released: task.released,
        routes: task.routes.dup(),
        services: task.services.dup(),
        created_at_unix_ms: task.created_at_unix_ms,
        updated_at_unix_ms: task.updated_at_unix_ms,
        last_task_heartbeat_at_unix_ms: task.last_task_heartbeat_at_unix_ms,
        last_seen_age_ms: elapsed_ms(now.instant, task.last_seen_at),
    }
}

/// Whether every age that is told of the helper at `now` can be counted.
pub fn can_tell_helper(helper: &HelperRecord, now: Now) -> (countable: bool)
    ensures
        countable == helper_ages_fit(helper@, now),
{
    let delta: u128 = elapsed_ms(now.instant, helper.last_seen_at);
    let ids = &helper.active_task_ids;
    let test = |k: &str, t: &HelperActiveTaskRecord| -> (r: bool)
        ensures
            r == (ids@.contains(k@) && !ages_fit(t@, delta)),
    { ids.contains(k) && !task_ages_fit(t, delta) };
    let broken = helper.active_tasks.any(
        test,
        Ghost(
            |k: Seq<char>, t: HelperActiveTaskRecordView|
                ids@.contains(k) && !ages_fit(t, delta),
        ),
    );
    let ghost h = helper@;
    assert(h.active_tasks == helper.active_tasks@ && h.active_task_ids == ids@);
    assert(delta == crate::clock::since_ms(now.instant, h.last_seen_at));
    proof {
        if broken {
            let k = choose|k: Seq<char>| #[trigger]
                helper.active_tasks@.contains_key(k) && ids@.contains(k) && !ages_fit(
                    helper.active_tasks@[k],
                    delta,
                );
            assert(h.active_tasks.contains_key(k));
        } else {
            assert forall|k: Seq<char>| #[trigger]
                h.active_tasks.contains_key(k) && h.active_task_ids.contains(k) implies ages_fit(
                h.active_tasks[k],
                delta,
            ) by {
                assert(helper.active_tasks@.contains_key(k));
            }
        }
    }
    !broken
}

/// Whether every age that is told of the hub at `now` can be counted.
pub fn can_tell_hub(state: &HubState, now: Now) -> (countable: bool)
    ensures
        countable == hub_ages_fit(state@, now),
{
    let test = |k: &str, h: &HelperRecord| -> (r: bool)
        ensures
            r == !helper_ages_fit(h@, now),
    { !can_tell_helper(h, now) };
    let broken = state.helpers.any(
        test,
        Ghost(|k: Seq<char>, h: HelperRecordView| !helper_ages_fit(h, now)),
    );
    let ghost s = state@;
    assert(s.helpers == state.helpers@);
    proof {
        if broken {
            let k = choose|k: Seq<char>| #[trigger]
                state.helpers@.contains_key(k) && !helper_ages_fit(state.helpers@[k], now);
            assert(s.helpers.contains_key(k));
        } else {
            assert forall|k: Seq<char>| #[trigger] s.helpers.contains_key(k) implies helper_ages_fit(
                s.helpers[k],
                now,
            ) by {
                assert(state.helpers@.contains_key(k));
            }
        }
    }
    !broken
}

/// What is told of a helper.
pub fn helper_status_payload(helper: &HelperRecord, blocked: bool, now: Now) -> (payload:
    HelperStatusPayload)
    requires
        helper_ages_fit(helper@, now),
    ensures
        payload@ == helper_told(helper@, blocked, now),
{
    let age: u128 = elapsed_ms(now.instant, helper.last_seen_at);
    let ids = sorted_strings(&helper.active_task_ids);
    let count: usize = helper.active_task_ids.len();
    let mut active_tasks: Vec<HelperActiveTaskRecord> = Vec::new();
    let ghost want = helper_told(helper@, blocked, now).active_tasks;
    let mut i: usize = 0;
    while i < ids.len()
        invariant
            i <= ids.len(),
            ids.deep_view() == crate::table::sorted(helper.active_task_ids@),
            crate::table::lists(ids.deep_view(), helper.active_task_ids@),
            helper_ages_fit(helper@, now),
            age == crate::clock::since_ms(now.instant, helper.last_seen_at),
            want == crate::table::sorted(helper@.active_task_ids).map_values(
                |id: Seq<char>| active_task_told(helper@, id, now),
            ),
            crate::table::views(active_tasks@) =~= want.take(i as int),
        decreases ids.len() - i,
    {
        let id = ids[i].as_str();
        let ghost before = crate::table::views(active_tasks@);
        assert(ids.deep_view()[i as int] == id@);
        assert(ids.deep_view().contains(id@));
        assert(helper.active_task_ids@.contains(id@));
        let told = match helper.active_tasks.get(id) {
            Some(task) => {
                let ghost h = helper@;
                assert(h.active_tasks.contains_key(id@) && h.active_task_ids.contains(id@));
                age_task(task, age)
            },
            None => unreported_task(id),
        };
        active_tasks.push(told);
        assert(crate::table::views(active_tasks@) =~= before.push(told@));
        assert(want[i as int] == told@);
        i += 1;
    }
    assert(want.take(want.len() as int) =~= want);
    HelperStatusPayload {
        helper_id: helper.helper_id.clone(),
        owner_user: helper.owner_user.clone(),
        platform: helper.platform.clone(),
        capacity: helper.capacity,
        active_launch_count: count,
        active_tasks,
        labels: helper.labels.clone(),
        blocked,
        registered_at_unix_ms: helper.registered_at_unix_ms,
        last_seen_age_ms: age,
    }
}

/// How far the drain of a blocked helper has come.
pub fn blocked_helper_drain_status(helper: &BlockedHelperRecord) -> (status: &'static str)
    ensures
        status@ == drain_status(helper@),
{
    if !helper.pending_task_ids.is_empty() {
        "draining"
    } else if !helper.force_released_task_ids.is_empty() {
        "force_released"
    } else {
        "drained"
    }
}

/// What is told of a blocked helper.
pub fn blocked_helper_payload(helper: &BlockedHelperRecord, now: u64) -> (payload:
    BlockedHelperPayload)
    ensures
        payload@ == blocked_told(helper@, now),
{
    BlockedHelperPayload {
        helper_id: helper.helper_id.clone(),
        reason: dup_text(&helper.reason),
        blocked_at_unix_ms: helper.blocked_at_unix_ms,
        drain_status: blocked_helper_drain_status(helper).to_owned(),
        drain_started_at_unix_ms: helper.drain_started_at_unix_ms,
        drain_deadline_at_unix_ms: helper.drain_deadline_at_unix_ms,
        drain_deadline_elapsed: now >= helper.drain_deadline_at_unix_ms,
        drain_deadline_remaining_ms: helper.drain_deadline_at_unix_ms.saturating_sub(now),
        drain_age_ms: now.saturating_sub(helper.drain_started_at_unix_ms),
        pending_task_ids: sorted_strings(&helper.pending_task_ids),
        last_reported_task_ids: sorted_strings(&helper.last_reported_task_ids),
        last_release_requested_at_unix_ms: helper.last_release_requested_at_unix_ms,
        last_seen_age_ms: match helper.last_seen_at_unix_ms {
            Some(seen) => Some(now.saturating_sub(seen)),
            None => None,
        },
        force_released_task_ids: sorted_strings(&helper.force_released_task_ids),
    }
}

fn tell_helpers(state: &HubState, now: Now) -> (told: Vec<HelperStatusPayload>)
    requires
        hub_ages_fit(state@, now),
    ensures
        crate::table::views(told@) == helpers_told(state@, now),
        told@.len() == state@.helpers.dom().len(),
{
    let blocked = &state.blocked_helpers;
    let tell = |k: &str, h: &HelperRecord| -> (r: HelperStatusPayload)
        requires
            helper_ages_fit(h@, now),
        ensures
            r@ == helper_told(h@, blocked@.contains_key(h@.helper_id), now),
    { helper_status_payload(h, blocked.contains_key(h.helper_id.as_str()), now) };
    proof {
        let s = state@;
        assert(s.helpers == state.helpers@);
        assert forall|k: &str, h: &HelperRecord|
            state.helpers@.contains_key(k@) && h@ == state.helpers@[k@] implies #[trigger] call_requires(
            tell,
            (k, h),
        ) by {
            assert(s.helpers.contains_key(k@));
        }
    }
    let told = state.helpers.collect(
        tell,
        Ghost(
            |k: Seq<char>, h: HelperRecordView|
                helper_told(h, blocked@.contains_key(h.helper_id), now),
        ),
    );
    assert(crate::table::views(told@) =~= helpers_told(state@, now));
    told
}

fn tell_blocked(state: &HubState, now: Now) -> (told: Vec<BlockedHelperPayload>)
    ensures
        crate::table::views(told@) == all_blocked_told(state@, now),
        told@.len() == state@.blocked_helpers.dom().len(),
{
    let tell = |k: &str, b: &BlockedHelperRecord| -> (r: BlockedHelperPayload)
        ensures
            r@ == blocked_told(b@, now.unix_ms),
    { blocked_helper_payload(b, now.unix_ms) };
    let told = state.blocked_helpers.collect(
        tell,
        Ghost(|k: Seq<char>, b: BlockedHelperRecordView| blocked_told(b, now.unix_ms)),
    );
    assert(crate::table::views(told@) =~= all_blocked_told(state@, now));
    told
}

fn tell_tasks(state: &HubState, now: Now) -> (told: Vec<TaskStatusPayload>)
    ensures
        crate::table::views(told@) == tasks_told(state@, now),
        told@.len() == state@.tasks.dom().len(),
{
    let tell = |k: &str, t: &TaskRecord| -> (r: TaskStatusPayload)
        ensures
            r@ == task_told(t@, now),
    { task_status_payload(t, now) };
    let told = state.tasks.collect(tell, Ghost(|k: Seq<char>, t: TaskRecordView| task_told(t, now)));
    assert(crate::table::views(told@) =~= tasks_told(state@, now));
    told
}

/// What is told of a hub.
pub open spec fn hub_told(s: HubStateView, now: Now) -> HubStatusResponseView {
    HubStatusResponseView {
        ok: true,
        helper_count: s.helpers.dom().len() as usize,
        task_count: s.tasks.dom().len() as usize,
        helpers: helpers_told(s, now),
        blocked_helpers: all_blocked_told(s, now),
        tasks: tasks_told(s, now),
    }
}

/// What is told of the helpers of a hub.
pub open spec fn list_told(s: HubStateView, now: Now) -> HelperListResponseView {
    HelperListResponseView {
        ok: true,
        helper_count: s.helpers.dom().len() as usize,
        blocked_helper_count: s.blocked_helpers.dom().len() as usize,
        helpers: helpers_told(s, now),
        blocked_helpers: all_blocked_told(s, now),
    }
}

/// What is told of one helper.
pub open spec fn one_helper_told(s: HubStateView, helper_id: Seq<char>, now: Now) -> Result<
    HelperStatusPayloadView,
    super::messages::HubErrorView,
> {
    if s.helpers.contains_key(helper_id) {
        Ok(helper_told(s.helpers[helper_id], s.blocked_helpers.contains_key(helper_id), now))
    } else {
        Err(super::messages::bad_request(super::helpers::no_helper_message(helper_id)))
    }
}

/// What is told of one task.
pub open spec fn one_task_told(s: HubStateView, task_id: Seq<char>, now: Now) -> Result<
    TaskStatusPayloadView,
    super::messages::HubErrorView,
> {
    if s.tasks.contains_key(task_id) {
        Ok(task_told(s.tasks[task_id], now))
    } else {
        Err(super::messages::bad_request(super::tasks::no_task_message(task_id)))
    }
}

/// What is told of the hub.
pub fn hub_status(state: &HubState, now: Now) -> (status: HubStatusResponse)
    requires
        hub_ages_fit(state@, now),
    ensures
        status@ == hub_told(state@, now),
{
    let helpers = tell_helpers(state, now);
    let tasks = tell_tasks(state, now);
    HubStatusResponse {
        ok: true,
        helper_count: helpers.len(),
        task_count: tasks.len(),
        helpers,
        blocked_helpers: tell_blocked(state, now),
        tasks,
    }
}

/// What is told of the helpers of the hub.
pub fn helper_list(state: &HubState, now: Now) -> (list: HelperListResponse)
    requires
        hub_ages_fit(state@, now),
    ensures
        list@ == list_told(state@, now),
{
    let helpers = tell_helpers(state, now);
    let blocked_helpers = tell_blocked(state, now);
    HelperListResponse {
        ok: true,
        helper_count: helpers.len(),
        blocked_helper_count: blocked_helpers.len(),
        helpers,
        blocked_helpers,
    }
}

/// What is told of the helper `helper_id`.
pub fn debug_helper(state: &HubState, helper_id: &str, now: Now) -> (result: Result<
    HelperStatusPayload,
    HubError,
>)
    requires
        state@.helpers.contains_key(helper_id@) ==> helper_ages_fit(
            state@.helpers[helper_id@],
            now,
        ),
    ensures
        super::messages::result_view(result) == one_helper_told(state@, helper_id@, now),
{
    match state.helpers.get(helper_id) {
        Some(helper) => Ok(
            helper_status_payload(helper, state.blocked_helpers.contains_key(helper_id), now),
        ),
        None => Err(HubError::bad_request(concat("helper not found: ", helper_id))),
    }
}

/// What is told of the task `task_id`.
pub fn task_status(state: &HubState, task_id: &str, now: Now) -> (result: Result<
    TaskStatusPayload,
    HubError,
>)
    ensures
        super::messages::result_view(result) == one_task_told(state@, task_id@, now),
{
    match state.tasks.get(task_id) {
        Some(task) => Ok(task_status_payload(task, now)),
        None => Err(HubError::bad_request(concat("task not found: ", task_id))),
    }
}

} // verus!
