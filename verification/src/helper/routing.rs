//! Which task and which plugin a request is for, and how a task is let go.
use vstd::prelude::*;

use super::records::{
    ClaimedTask, HelperState, LaunchProcessRecord, PendingLaunchTermination, PluginInstance,
};
use super::session::{
    active_stop_request_id_for_instance, instance_has_fresh_control, opt_is, serves_task,
    task_connection_key,
};
use crate::order::same_text;
use crate::table::{dup_text, Dup, Table};
use crate::text::{concat, concat3};

verus! {

use super::records::{
    ClaimedTaskView, HelperStateView, LaunchProcessRecordView, PendingLaunchTerminationView,
    PluginInstanceView,
};

/// The tasks that the helper holds for a place.
pub open spec fn claims_at(s: HelperStateView, place_id: Seq<char>) -> Set<Seq<char>> {
    s.claimed_tasks.dom().filter(|k: Seq<char>| s.claimed_tasks[k].place_id == place_id)
}

/// The task that a place and, where it is given, a task identifier stand for.
pub open spec fn claim_selected(
    s: HelperStateView,
    place_id: Seq<char>,
    task_id: Option<Seq<char>>,
) -> Result<ClaimedTaskView, Seq<char>> {
    match task_id {
        Some(id) => if !s.claimed_tasks.contains_key(id) {
            Err("helper has no claimed task for task_id "@ + id)
        } else if s.claimed_tasks[id].place_id != place_id {
            Err("task_id "@ + id + " does not match place_id "@ + place_id)
        } else {
            Ok(s.claimed_tasks[id])
        },
        None => if claims_at(s, place_id).len() == 0 {
            Err(
                "helper has no claimed task for place_id "@ + place_id
                    + "; wait for hub claim first"@,
            )
        } else if claims_at(s, place_id).len() == 1 {
            Ok(s.claimed_tasks[claims_at(s, place_id).choose()])
        } else {
            Err(
                "multiple claimed tasks found for place_id "@ + place_id
                    + "; task_id is required"@,
            )
        },
    }
}

/// The first process in the order of the keys that has the process identifier.
pub open spec fn launch_of_pid(s: HelperStateView, studio_pid: u32) -> Option<Seq<char>> {
    crate::table::best(
        s.launch_processes,
        |k: Seq<char>, l: LaunchProcessRecordView| l.studio_pid == studio_pid,
        |l: LaunchProcessRecordView| (0u128, 0u128, 0u128),
        false,
    )
}

/// The task at the place whose process has the process identifier.
pub open spec fn claim_of_pid(s: HelperStateView, studio_pid: u32, place_id: Seq<char>) -> Option<
    ClaimedTaskView,
> {
    match launch_of_pid(s, studio_pid) {
        Some(k) => {
            let id = s.launch_processes[k].task_id;
            if s.claimed_tasks.contains_key(id) && s.claimed_tasks[id].place_id == place_id {
                Some(s.claimed_tasks[id])
            } else {
                None
            }
        },
        None => None,
    }
}

/// The task that a plugin works for: the one of its process, else the one that it names.
pub open spec fn claim_routed(
    s: HelperStateView,
    place_id: Seq<char>,
    task_id: Option<Seq<char>>,
    studio_pid: Option<u32>,
) -> Result<ClaimedTaskView, Seq<char>> {
    let by_process = match studio_pid {
        Some(pid) => claim_of_pid(s, pid, place_id),
        None => None,
    };
    match by_process {
        Some(task) => Ok(task),
        None => claim_selected(s, place_id, task_id),
    }
}

/// What is said of a request that names neither its process nor its task.
pub open spec fn unmapped_message(place_id: Seq<char>) -> Seq<char> {
    "helper could not map Studio for place_id "@ + place_id
        + " to a claimed launch; task_id is required unless the Studio pid was launched by helper"@
}

/// The plugin is at the place and, where a task is given, serves it.
pub open spec fn on_route(i: PluginInstanceView, place_id: Seq<char>, task_id: Option<Seq<char>>) -> bool {
    i.place_id == place_id && (task_id matches Some(id) ==> super::session::of_task(i, id))
}

/// The plugin on the route that was seen last.
pub open spec fn route_instance(
    instances: Map<Seq<char>, PluginInstanceView>,
    place_id: Seq<char>,
    task_id: Option<Seq<char>>,
) -> Option<Seq<char>> {
    crate::table::best(
        instances,
        |k: Seq<char>, i: PluginInstanceView| on_route(i, place_id, task_id),
        |i: PluginInstanceView| (i.last_seen_at, 0u128, 0u128),
        true,
    )
}

/// A moment as a rank: none comes before all others.
pub open spec fn moment_rank(at: Option<u128>) -> (u128, u128, u128) {
    match at {
        Some(t) => (1u128, t, 0u128),
        None => (0u128, 0u128, 0u128),
    }
}

/// The plugin on the route with fresh runtime control that was heard of last.
pub open spec fn route_actuator(
    instances: Map<Seq<char>, PluginInstanceView>,
    place_id: Seq<char>,
    task_id: Option<Seq<char>>,
    now: u128,
) -> Option<Seq<char>> {
    crate::table::best(
        instances,
        |k: Seq<char>, i: PluginInstanceView| on_route(i, place_id, task_id)
            && super::session::fresh_control(i, now),
        |i: PluginInstanceView| moment_rank(i.studio_control_observed_at),
        true,
    )
}

/// The plugin is known to be in a running session, or to enter one.
pub open spec fn known_runtime(i: PluginInstanceView, now: u128) -> bool {
    ||| i.edit_runtime_unavailable_reason == Some("runtime"@)
    ||| i.edit_runtime_unavailable_reason == Some("launch_failed"@)
    ||| i.edit_runtime_unavailable_reason == Some("launching"@)
    ||| super::session::running_mode(i.studio_mode)
    ||| i.studio_transition_phase == "running"@
    ||| super::session::fresh_control(i, now)
}

/// The plugin on the route in a known running session that was seen last.
pub open spec fn route_runtime(
    instances: Map<Seq<char>, PluginInstanceView>,
    place_id: Seq<char>,
    task_id: Option<Seq<char>>,
    now: u128,
) -> Option<Seq<char>> {
    crate::table::best(
        instances,
        |k: Seq<char>, i: PluginInstanceView| on_route(i, place_id, task_id) && known_runtime(i, now),
        |i: PluginInstanceView| (i.last_seen_at, 0u128, 0u128),
        true,
    )
}

/// The plugin on the route with the latest stop under way.
pub open spec fn route_stop(
    instances: Map<Seq<char>, PluginInstanceView>,
    place_id: Seq<char>,
    task_id: Option<Seq<char>>,
) -> Option<Seq<char>> {
    crate::table::best(
        instances,
        |k: Seq<char>, i: PluginInstanceView| on_route(i, place_id, task_id)
            && super::session::active_stop(i) is Some,
        |i: PluginInstanceView| (i.stop_request_id as u128, i.last_seen_at, 0u128),
        true,
    )
}

/// The plugin serves the task and tells the process.
pub open spec fn tells(i: PluginInstanceView, task_id: Seq<char>, pid: u32) -> bool {
    super::session::of_task(i, task_id) && i.studio_pid == Some(pid)
}

/// Some plugin of the task tells the process.
pub open spec fn pid_of_task(s: HelperStateView, task_id: Seq<char>, pid: u32) -> bool {
    exists|k: Seq<char>| #[trigger]
        s.instances.contains_key(k) && tells(s.instances[k], task_id, pid)
}

/// No plugin of the task tells its process.
pub open spec fn no_pid(s: HelperStateView, task_id: Seq<char>) -> bool {
    forall|pid: u32| !#[trigger] pid_of_task(s, task_id, pid)
}

/// The numbers stand in strictly increasing order.
pub open spec fn rising(pids: Seq<u32>) -> bool {
    forall|i: int, j: int| 0 <= i < j < pids.len() ==> #[trigger] pids[i] < #[trigger] pids[j]
}

/// The process counts: no plugin of its task tells another one alone.
pub open spec fn launch_active(s: HelperStateView, launch: LaunchProcessRecordView) -> bool {
    no_pid(s, launch.task_id) || pid_of_task(s, launch.task_id, launch.studio_pid)
}

/// `pid` is the process of the task: the least one that its plugins tell, else the one that was
/// launched for it.
pub open spec fn is_active_pid(s: HelperStateView, task_id: Seq<char>, pid: Option<u32>) -> bool {
    if !no_pid(s, task_id) {
        &&& pid is Some
        &&& pid_of_task(s, task_id, pid->0)
        &&& forall|other: u32| #[trigger] pid_of_task(s, task_id, other) ==> pid->0 <= other
    } else if s.launch_processes.contains_key(task_id) && launch_active(
        s,
        s.launch_processes[task_id],
    ) {
        pid == Some(s.launch_processes[task_id].studio_pid)
    } else {
        pid is None
    }
}

/// The state after a process was bound to a task.
pub open spec fn bound(s: HelperStateView, task: ClaimedTaskView, studio_pid: u32) -> HelperStateView {
    let known = s.launch_processes.contains_key(task.task_id);
    let before = s.launch_processes[task.task_id];
    HelperStateView {
        launch_processes: s.launch_processes.insert(
            task.task_id,
            LaunchProcessRecordView {
                task_id: if known {
                    before.task_id
                } else {
                    task.task_id
                },
                place_id: task.place_id,
                universe_id: task.universe_id,
                studio_pid,
                launched_by_helper: known && before.launched_by_helper,
                has_child: known && before.has_child,
            },
        ),
        ..s
    }
}

/// The plugin serves one of the tasks.
pub open spec fn serves_one(i: PluginInstanceView, ids: Set<Seq<char>>) -> bool {
    i.task_id is Some && ids.contains(i.task_id->0)
}

/// The connection key is that of one of the tasks.
pub open spec fn key_of_one(key: Seq<char>, ids: Set<Seq<char>>) -> bool {
    exists|id: Seq<char>| #[trigger] ids.contains(id) && key == super::session::connection_key(id)
}

/// The state without the tasks and all that was kept for them.
pub open spec fn released(s: HelperStateView, ids: Set<Seq<char>>) -> HelperStateView {
    HelperStateView {
        instances: crate::table::kept(
            s.instances,
            |k: Seq<char>, i: PluginInstanceView| !serves_one(i, ids),
        ),
        claimed_tasks: s.claimed_tasks.remove_keys(ids),
        launch_processes: s.launch_processes.remove_keys(ids),
        remote_connections: crate::table::kept(
            s.remote_connections,
            |k: Seq<char>, c: super::records::RemoteConnectionHandleView| !key_of_one(k, ids),
        ),
        stop_signals: s.stop_signals.union(
            s.remote_connections.dom().filter(|k: Seq<char>| key_of_one(k, ids)),
        ),
        official_adapters: s.official_adapters.difference(ids),
        official_adapter_states: s.official_adapter_states.remove_keys(ids),
        runtime_log_forward_statuses: s.runtime_log_forward_statuses.remove_keys(ids),
        last_remote_errors: crate::table::kept(
            s.last_remote_errors,
            |k: Seq<char>, e: Seq<char>| !key_of_one(k, ids),
        ),
        ..s
    }
}

/// The process to end when the task is let go: one that the helper launched and still holds.
pub open spec fn termination(s: HelperStateView, task_id: Seq<char>, terminate: bool) -> Option<
    PendingLaunchTerminationView,
> {
    let launch = s.launch_processes[task_id];
    if s.launch_processes.contains_key(task_id) && terminate && launch.launched_by_helper
        && launch.has_child {
        Some(
            PendingLaunchTerminationView {
                task_id: launch.task_id,
                studio_pid: launch.studio_pid,
            },
        )
    } else {
        None
    }
}

/// The processes to end when the tasks of a list are let go, in the order of the list.
pub open spec fn terminations(s: HelperStateView, ids: Seq<Seq<char>>, terminate: bool) -> Seq<
    PendingLaunchTerminationView,
>
    decreases ids.len(),
{
    if ids.len() == 0 {
        Seq::empty()
    } else {
        let before = terminations(s, ids.drop_last(), terminate);
        let id = ids.last();
        if s.claimed_tasks.contains_key(id) && !ids.drop_last().contains(id) {
            match termination(s, id, terminate) {
                Some(pending) => before.push(pending),
                None => before,
            }
        } else {
            before
        }
    }
}

/// The tasks of a list that the helper holds.
pub open spec fn held(s: HelperStateView, ids: Seq<Seq<char>>) -> Set<Seq<char>> {
    ids.to_set().intersect(s.claimed_tasks.dom())
}

/// The tasks of a list whose process the helper holds.
pub open spec fn with_child(s: HelperStateView, ids: Seq<Seq<char>>) -> Seq<Seq<char>> {
    ids.filter(
        |id: Seq<char>| s.launch_processes.contains_key(id) && s.launch_processes[id].has_child,
    )
}

/// The task that a place and, where it is given, a task identifier stand for.
pub fn select_claimed_task(state: &HelperState, place_id: &str, task_id: Option<&str>) -> (result:
    Result<ClaimedTask, String>)
    ensures
        crate::table::outcome(result) == claim_selected(state@, place_id@, task_id.deep_view()),
{
    if let Some(id) = task_id {
        return match state.claimed_tasks.get(id) {
            None => Err(concat("helper has no claimed task for task_id ", id)),
            Some(task) => {
                if !same_text(task.place_id.as_str(), place_id) {
                    let mut message = concat3("task_id ", id, " does not match place_id ");
                    message.append(place_id);
                    Err(message)
                } else {
                    Ok(task.dup())
                }
            },
        };
    }
    let test = |k: &str, t: &ClaimedTask| -> (r: bool)
        ensures
            r == (t@.place_id == place_id@),
    { same_text(t.place_id.as_str(), place_id) };
    let found = state.claimed_tasks.keys_where(
        test,
        Ghost(|k: Seq<char>, t: ClaimedTaskView| t.place_id == place_id@),
    );
    assert(found@ =~= claims_at(state@, place_id@));
    let count: usize = found.len();
    if count == 0 {
        Err(
            concat3(
                "helper has no claimed task for place_id ",
                place_id,
                "; wait for hub claim first",
            ),
        )
    } else if count == 1 {
        let ids = found.to_sorted_vec();
        proof {
            let only = claims_at(state@, place_id@).choose();
            assert(found@.contains(only));
            assert(ids.deep_view().contains(only));
            vstd::set_lib::lemma_set_subset_finite(found@, found@.remove(only));
            assert forall|k: Seq<char>| #[trigger] found@.contains(k) implies k == only by {
                if k != only {
                    assert(found@.remove(only).contains(k));
                    assert(found@.remove(only).len() == 0);
                }
            }
            assert(found@.contains(ids.deep_view()[0])) by {
                assert(ids.deep_view().contains(ids.deep_view()[0]));
            }
        }
        match state.claimed_tasks.get(ids[0].as_str()) {
            Some(task) => Ok(task.dup()),
            None => Err(String::new()),
        }
    } else {
        Err(
            concat3(
                "multiple claimed tasks found for place_id ",
                place_id,
                "; task_id is required",
            ),
        )
    }
}

/// The plugin serves the task, where one is given.
pub fn route_identity_matches(instance: &PluginInstance, task_id: Option<&str>) -> (same: bool)
    ensures
        same == (task_id.deep_view() matches Some(id) ==> super::session::of_task(instance@, id)),
{
    match task_id {
        Some(id) => serves_task(instance, id),
        None => true,
    }
}

/// The task at the place whose process has the process identifier.
pub fn select_claimed_task_for_pid(state: &HelperState, studio_pid: u32, place_id: &str) -> (task:
    Option<ClaimedTask>)
    ensures
        crate::table::opt_view(task) == claim_of_pid(state@, studio_pid, place_id@),
{
    let test = |k: &str, l: &LaunchProcessRecord| -> (r: bool)
        ensures
            r == (l@.studio_pid == studio_pid),
    { l.studio_pid == studio_pid };
    let rank = |l: &LaunchProcessRecord| -> (r: (u128, u128, u128))
        ensures
            r == (0u128, 0u128, 0u128),
    { (0, 0, 0) };
    let found = state.launch_processes.find_best(
        test,
        rank,
        false,
        Ghost(|k: Seq<char>, l: LaunchProcessRecordView| l.studio_pid == studio_pid),
        Ghost(|l: LaunchProcessRecordView| (0u128, 0u128, 0u128)),
    );
    let key = match found {
        Some(key) => key,
        None => return None,
    };
    match state.launch_processes.get(key.as_str()) {
        None => None,
        Some(launch) => match state.claimed_tasks.get(launch.task_id.as_str()) {
            None => None,
            Some(task) => {
                if same_text(task.place_id.as_str(), place_id) {
                    Some(task.dup())
                } else {
                    None
                }
            },
        },
    }
}

/// The claim that a request is for, where it names its task or comes from a process that was launched for
/// one.
pub open spec fn claim_requested(
    s: HelperStateView,
    place_id: Seq<char>,
    task_id: Option<Seq<char>>,
    studio_pid: Option<u32>,
) -> Result<ClaimedTaskView, Seq<char>> {
    if task_id is None && (studio_pid is None || claim_of_pid(s, studio_pid->0, place_id) is None) {
        Err(unmapped_message(place_id))
    } else {
        claim_routed(s, place_id, task_id, studio_pid)
    }
}

/// The task of a request: the one of its process, else the one that it names; a request that does
/// neither is refused.
pub fn resolve_claimed_task_for_request(
    state: &HelperState,
    place_id: &str,
    task_id: Option<&str>,
    studio_pid: Option<u32>,
) -> (result: Result<ClaimedTask, String>)
    ensures
        crate::table::outcome(result) == claim_requested(
            state@,
            place_id@,
            task_id.deep_view(),
            studio_pid,
        ),
{
    if let Some(pid) = studio_pid {
        if let Some(task) = select_claimed_task_for_pid(state, pid, place_id) {
            return Ok(task);
        }
    }
    if task_id.is_none() {
        return Err(
            concat3(
                "helper could not map Studio for place_id ",
                place_id,
                " to a claimed launch; task_id is required unless the Studio pid was launched by helper",
            ),
        );
    }
    select_claimed_task(state, place_id, task_id)
}

/// The task that a plugin works for.
pub fn resolve_claimed_task_for_plugin_request(
    state: &HelperState,
    place_id: &str,
    task_id: Option<&str>,
    studio_pid: Option<u32>,
) -> (result: Result<ClaimedTask, String>)
    ensures
        crate::table::outcome(result) == claim_routed(
            state@,
            place_id@,
            task_id.deep_view(),
            studio_pid,
        ),
{
    if let Some(pid) = studio_pid {
        if let Some(task) = select_claimed_task_for_pid(state, pid, place_id) {
            return Ok(task);
        }
    }
    select_claimed_task(state, place_id, task_id)
}

/// The task that a plugin works for.
pub fn resolve_plugin_routing_decision(
    state: &HelperState,
    place_id: &str,
    task_id: Option<&str>,
    studio_pid: Option<u32>,
) -> (result: Result<ClaimedTask, String>)
    ensures
        crate::table::outcome(result) == claim_routed(
            state@,
            place_id@,
            task_id.deep_view(),
            studio_pid,
        ),
{
    resolve_claimed_task_for_plugin_request(state, place_id, task_id, studio_pid)
}

/// Binds the process to the task.
pub fn bind_launch_process_to_pid(state: &mut HelperState, task: &ClaimedTask, studio_pid: u32) -> (
    result: Result<(), String>)
    ensures
        result is Ok,
        final(state)@ == bound(old(state)@, task@, studio_pid),
{
    let ghost before = state.launch_processes@;
    let record = match state.launch_processes.remove(task.task_id.as_str()) {
        Some(existing) => LaunchProcessRecord {
            task_id: existing.task_id,
            place_id: task.place_id.clone(),
            universe_id: dup_text(&task.universe_id),
            studio_pid,
            launched_by_helper: existing.launched_by_helper,
            has_child: existing.has_child,
        },
        None => LaunchProcessRecord {
            task_id: task.task_id.clone(),
            place_id: task.place_id.clone(),
            universe_id: dup_text(&task.universe_id),
            studio_pid,
            launched_by_helper: false,
            has_child: false,
        },
    };
    let ghost after = record@;
    state.launch_processes.insert(task.task_id.clone(), record);
    assert(state.launch_processes@ =~= before.insert(task@.task_id, after));
    Ok(())
}

/// The plugin is at the place and, where a task is given, serves it.
fn stands_on_route(instance: &PluginInstance, place_id: &str, task_id: Option<&str>) -> (fits: bool)
    ensures
        fits == on_route(instance@, place_id@, task_id.deep_view()),
{
    same_text(instance.place_id.as_str(), place_id) && route_identity_matches(instance, task_id)
}

/// The plugin at the place that was seen last.
pub fn select_instance_for_place(place_id: &str, instances: &Table<PluginInstance>) -> (key: Option<
    String,
>)
    ensures
        key.deep_view() == route_instance(instances@, place_id@, None),
        key matches Some(k) ==> instances@.contains_key(k@) && on_route(
            instances@[k@],
            place_id@,
            None,
        ),
{
    select_instance_for_route(place_id, None, instances)
}

/// The plugin on the route that was seen last.
pub fn select_instance_for_route(
    place_id: &str,
    task_id: Option<&str>,
    instances: &Table<PluginInstance>,
) -> (key: Option<String>)
    ensures
        key.deep_view() == route_instance(instances@, place_id@, task_id.deep_view()),
        key matches Some(k) ==> instances@.contains_key(k@) && on_route(
            instances@[k@],
            place_id@,
            task_id.deep_view(),
        ),
{
    let test = |k: &str, i: &PluginInstance| -> (r: bool)
        ensures
            r == on_route(i@, place_id@, task_id.deep_view()),
    { stands_on_route(i, place_id, task_id) };
    let rank = |i: &PluginInstance| -> (r: (u128, u128, u128))
        ensures
            r == (i@.last_seen_at, 0u128, 0u128),
    { (i.last_seen_at, 0, 0) };
    instances.find_best(
        test,
        rank,
        true,
        Ghost(
            |k: Seq<char>, i: PluginInstanceView| on_route(i, place_id@, task_id.deep_view()),
        ),
        Ghost(|i: PluginInstanceView| (i.last_seen_at, 0u128, 0u128)),
    )
}

/// The plugin on the route with fresh runtime control that was heard of last.
pub fn select_runtime_actuator_for_route(
    place_id: &str,
    task_id: Option<&str>,
    instances: &Table<PluginInstance>,
    now: u128,
) -> (key: Option<String>)
    ensures
        key.deep_view() == route_actuator(instances@, place_id@, task_id.deep_view(), now),
{
    let test = |k: &str, i: &PluginInstance| -> (r: bool)
        ensures
            r == (on_route(i@, place_id@, task_id.deep_view()) && super::session::fresh_control(
                i@,
                now,
            )),
    { stands_on_route(i, place_id, task_id) && instance_has_fresh_control(i, now) };
    let rank = |i: &PluginInstance| -> (r: (u128, u128, u128))
        ensures
            r == moment_rank(i@.studio_control_observed_at),
    {
        match i.studio_control_observed_at {
            Some(t) => (1, t, 0),
            None => (0, 0, 0),
        }
    };
    instances.find_best(
        test,
        rank,
        true,
        Ghost(
            |k: Seq<char>, i: PluginInstanceView|
                on_route(i, place_id@, task_id.deep_view()) && super::session::fresh_control(i, now),
        ),
        Ghost(|i: PluginInstanceView| moment_rank(i.studio_control_observed_at)),
    )
}

/// The plugin is known to be in a running session, or to enter one.
pub fn instance_is_known_runtime_session(instance: &PluginInstance, now: u128) -> (known: bool)
    ensures
        known == known_runtime(instance@, now),
{
    opt_is(&instance.edit_runtime_unavailable_reason, "runtime") || opt_is(
        &instance.edit_runtime_unavailable_reason,
        "launch_failed",
    ) || opt_is(&instance.edit_runtime_unavailable_reason, "launching") || opt_is(
        &instance.studio_mode,
        "start_play",
    ) || opt_is(&instance.studio_mode, "run_server") || same_text(
        instance.studio_transition_phase.as_str(),
        "running",
    ) || instance_has_fresh_control(instance, now)
}

/// The plugin on the route in a known running session that was seen last.
pub fn select_known_runtime_session_for_route(
    place_id: &str,
    task_id: Option<&str>,
    instances: &Table<PluginInstance>,
    now: u128,
) -> (key: Option<String>)
    ensures
        key.deep_view() == route_runtime(instances@, place_id@, task_id.deep_view(), now),
{
    let test = |k: &str, i: &PluginInstance| -> (r: bool)
        ensures
            r == (on_route(i@, place_id@, task_id.deep_view()) && known_runtime(i@, now)),
    { stands_on_route(i, place_id, task_id) && instance_is_known_runtime_session(i, now) };
    let rank = |i: &PluginInstance| -> (r: (u128, u128, u128))
        ensures
            r == (i@.last_seen_at, 0u128, 0u128),
    { (i.last_seen_at, 0, 0) };
    instances.find_best(
        test,
        rank,
        true,
        Ghost(
            |k: Seq<char>, i: PluginInstanceView|
                on_route(i, place_id@, task_id.deep_view()) && known_runtime(i, now),
        ),
        Ghost(|i: PluginInstanceView| (i.last_seen_at, 0u128, 0u128)),
    )
}

/// The plugin on the route with the latest stop under way, and the identifier of that stop.
pub fn select_active_stop_request_for_route(
    place_id: &str,
    task_id: Option<&str>,
    instances: &Table<PluginInstance>,
) -> (found: Option<(String, u64)>)
    ensures
        found.deep_view() == match route_stop(instances@, place_id@, task_id.deep_view()) {
            Some(k) => Some((k, instances@[k].stop_request_id)),
            None => None,
        },
{
    let test = |k: &str, i: &PluginInstance| -> (r: bool)
        ensures
            r == (on_route(i@, place_id@, task_id.deep_view()) && super::session::active_stop(
                i@,
            ) is Some),
    { stands_on_route(i, place_id, task_id) && active_stop_request_id_for_instance(i).is_some() };
    let rank = |i: &PluginInstance| -> (r: (u128, u128, u128))
        ensures
            r == (i@.stop_request_id as u128, i@.last_seen_at, 0u128),
    { (i.stop_request_id as u128, i.last_seen_at, 0) };
    let found = instances.find_best(
        test,
        rank,
        true,
        Ghost(
            |k: Seq<char>, i: PluginInstanceView|
                on_route(i, place_id@, task_id.deep_view()) && super::session::active_stop(
                    i,
                ) is Some,
        ),
        Ghost(|i: PluginInstanceView| (i.stop_request_id as u128, i.last_seen_at, 0u128)),
    );
    match found {
        Some(key) => match instances.get(key.as_str()) {
            Some(instance) => {
                let id: u64 = instance.stop_request_id;
                Some((key, id))
            },
            None => None,
        },
        None => None,
    }
}

/// Adds `pid` to a rising list.
pub(crate) fn add_pid(pids: &mut Vec<u32>, pid: u32)
    requires
        rising(old(pids)@),
    ensures
        rising(final(pids)@),
        forall|p: u32| #[trigger]
            final(pids)@.contains(p) <==> p == pid || old(pids)@.contains(p),
{
    let mut at: usize = 0;
    while at < pids.len() && pids[at] < pid
        invariant
            at <= pids@.len(),
            pids@ == old(pids)@,
            forall|j: int| 0 <= j < at ==> #[trigger] pids@[j] < pid,
        decreases pids@.len() - at,
    {
        at = at + 1;
    }
    if at < pids.len() && pids[at] == pid {
        assert(old(pids)@.contains(pid));
        return;
    }
    let ghost before = pids@;
    pids.insert(at, pid);
    assert forall|p: u32| #[trigger] pids@.contains(p) <==> p == pid || before.contains(p) by {
        if before.contains(p) {
            let j = before.index_of(p);
            if j < at {
                assert(pids@[j] == p);
            } else {
                assert(pids@[j + 1] == p);
            }
        }
        if p == pid {
            assert(pids@[at as int] == p);
        }
        if pids@.contains(p) && p != pid {
            let j = pids@.index_of(p);
            if j < at {
                assert(before[j] == p);
            } else {
                assert(before[j - 1] == p);
            }
        }
    }
}

/// The processes that the plugins of a task tell, each once and in rising order.
pub fn task_instance_pids(state: &HelperState, task_id: &str) -> (pids: Vec<u32>)
    ensures
        rising(pids@),
        forall|pid: u32| #[trigger] pids@.contains(pid) <==> pid_of_task(state@, task_id@, pid),
{
    let mut pids: Vec<u32> = Vec::new();
    let count: usize = state.instances.len();
    let mut i: usize = 0;
    while i < count
        invariant
            i <= count,
            count == state.instances.key_list().len(),
            crate::table::lists(state.instances.key_list(), state.instances@.dom()),
            rising(pids@),
            forall|pid: u32| #[trigger]
                pids@.contains(pid) <==> exists|j: int|
                    0 <= j < i && tells(
                        state.instances@[#[trigger] state.instances.key_list()[j]],
                        task_id@,
                        pid,
                    ),
        decreases count - i,
    {
        let instance = state.instances.value_at(i);
        let ghost before = pids@;
        if serves_task(instance, task_id) {
            if let Some(pid) = instance.studio_pid {
                add_pid(&mut pids, pid);
            }
        }
        assert forall|pid: u32| #[trigger] pids@.contains(pid) <==> exists|j: int|
            0 <= j < i + 1 && tells(
                state.instances@[#[trigger] state.instances.key_list()[j]],
                task_id@,
                pid,
            ) by {
            if pids@.contains(pid) && !before.contains(pid) {
                assert(tells(
                    state.instances@[state.instances.key_list()[i as int]],
                    task_id@,
                    pid,
                ));
            }
            if before.contains(pid) {
                let j = choose|j: int|
                    0 <= j < i && tells(
                        state.instances@[#[trigger] state.instances.key_list()[j]],
                        task_id@,
                        pid,
                    );
                assert(tells(state.instances@[state.instances.key_list()[j]], task_id@, pid));
            }
        }
        i = i + 1;
    }
    assert forall|pid: u32| #[trigger] pids@.contains(pid) <==> pid_of_task(state@, task_id@, pid) by {
        if pids@.contains(pid) {
            let j = choose|j: int|
                0 <= j < count && tells(
                    state.instances@[#[trigger] state.instances.key_list()[j]],
                    task_id@,
                    pid,
                );
            let k = state.instances.key_list()[j];
            assert(state.instances.key_list().contains(k));
            assert(state.instances@.dom().contains(k));
            assert(state@.instances.contains_key(k));
        }
        if pid_of_task(state@, task_id@, pid) {
            let k = choose|k: Seq<char>| #[trigger]
                state@.instances.contains_key(k) && tells(state@.instances[k], task_id@, pid);
            assert(state.instances@.dom().contains(k));
            let j = state.instances.key_list().index_of(k);
            assert(state.instances.key_list()[j] == k);
            assert(tells(state.instances@[state.instances.key_list()[j]], task_id@, pid));
        }
    }
    pids
}

/// The process counts: no plugin of its task tells another one alone.
pub fn launch_process_is_active_for_status(state: &HelperState, launch: &LaunchProcessRecord) -> (
    active: bool)
    ensures
        active == launch_active(state@, launch@),
{
    let pids = task_instance_pids(state, launch.task_id.as_str());
    let mut i: usize = 0;
    while i < pids.len()
        invariant
            i <= pids@.len(),
            forall|j: int| 0 <= j < i ==> #[trigger] pids@[j] != launch.studio_pid,
            forall|pid: u32| #[trigger]
                pids@.contains(pid) <==> pid_of_task(state@, launch@.task_id, pid),
        decreases pids@.len() - i,
    {
        if pids[i] == launch.studio_pid {
            assert(pids@.contains(launch.studio_pid));
            return true;
        }
        i = i + 1;
    }
    proof {
        assert(!pids@.contains(launch.studio_pid));
        if pids@.len() > 0 {
            assert(pids@.contains(pids@[0]));
        } else {
            assert forall|pid: u32| !#[trigger] pid_of_task(state@, launch@.task_id, pid) by {
                assert(!pids@.contains(pid));
            }
        }
    }
    pids.len() == 0
}

/// The process of the task: the least one that its plugins tell, else the one that was launched for
/// it.
pub fn task_active_studio_pid(state: &HelperState, task_id: &str) -> (pid: Option<u32>)
    ensures
        is_active_pid(state@, task_id@, pid),
{
    let pids = task_instance_pids(state, task_id);
    if pids.len() > 0 {
        proof {
            assert(pids@.contains(pids@[0]));
            assert forall|other: u32| #[trigger] pid_of_task(state@, task_id@, other) implies pids@[0]
                <= other by {
                assert(pids@.contains(other));
                let j = pids@.index_of(other);
                if j > 0 {
                    assert(pids@[0] < pids@[j]);
                }
            }
        }
        return Some(pids[0]);
    }
    assert(no_pid(state@, task_id@)) by {
        assert forall|pid: u32| !#[trigger] pid_of_task(state@, task_id@, pid) by {
            assert(!pids@.contains(pid));
        }
    }
    match state.launch_processes.get(task_id) {
        Some(launch) => {
            if launch_process_is_active_for_status(state, launch) {
                Some(launch.studio_pid)
            } else {
                None
            }
        },
        None => None,
    }
}

/// Drops the plugins of the task.
pub fn remove_instances_for_claimed_task(state: &mut HelperState, task_id: &str)
    ensures
        final(state)@ == (HelperStateView {
            instances: crate::table::kept(
                old(state)@.instances,
                |k: Seq<char>, i: PluginInstanceView| !super::session::of_task(i, task_id@),
            ),
            ..old(state)@
        }),
{
    let keep = |k: &str, i: &PluginInstance| -> (r: bool)
        ensures
            r == !super::session::of_task(i@, task_id@),
    { !route_identity_matches(i, Some(task_id)) };
    state.instances.retain(
        keep,
        Ghost(|k: Seq<char>, i: PluginInstanceView| !super::session::of_task(i, task_id@)),
    );
}

/// Forgets the adapter of the task; tells whether there was one.
pub fn stop_removed_official_adapter(state: &mut HelperState, task_id: &str) -> (stopped: bool)
    ensures
        stopped == old(state)@.official_adapters.contains(task_id@),
        final(state)@ == (HelperStateView {
            official_adapters: old(state)@.official_adapters.remove(task_id@),
            official_adapter_states: old(state)@.official_adapter_states.remove(task_id@),
            ..old(state)@
        }),
{
    state.official_adapter_states.remove(task_id);
    let stopped = state.official_adapters.contains(task_id);
    state.official_adapters.remove(task_id);
    stopped
}

/// Lets a task go that the helper holds. Gives the process to end: with `terminate_helper_spawned`,
/// one that the helper launched and still holds.
pub fn release_claimed_task(state: &mut HelperState, task_id: &str, terminate_helper_spawned: bool) -> (
    pending: Option<PendingLaunchTermination>)
    ensures
        final(state)@ == released(old(state)@, held(old(state)@, seq![task_id@])),
        crate::table::opt_view(pending) == if old(state)@.claimed_tasks.contains_key(task_id@) {
            termination(old(state)@, task_id@, terminate_helper_spawned)
        } else {
            None
        },
{
    let ghost before = state@;
    let ghost ids = held(before, seq![task_id@]);
    proof {
        assert(seq![task_id@].contains(task_id@)) by {
            assert(seq![task_id@][0] == task_id@);
        }
        assert forall|k: Seq<char>| #[trigger] ids.contains(k) <==> k == task_id@
            && before.claimed_tasks.contains_key(k) by {}
    }
    if !state.claimed_tasks.contains_key(task_id) {
        proof {
            assert(ids =~= Set::empty());
            lemma_release_nothing(before, ids);
        }
        return None;
    }
    let pending = match state.launch_processes.remove(task_id) {
        Some(launch) => {
            if terminate_helper_spawned && launch.launched_by_helper && launch.has_child {
                Some(
                    PendingLaunchTermination {
                        task_id: launch.task_id,
                        studio_pid: launch.studio_pid,
                    },
                )
            } else {
                None
            }
        },
        None => None,
    };
    remove_instances_for_claimed_task(state, task_id);
    let key = task_connection_key(task_id);
    if state.remote_connections.remove(key.as_str()).is_some() {
        state.stop_signals.insert(key.clone());
    }
    state.claimed_tasks.remove(task_id);
    state.runtime_log_forward_statuses.remove(task_id);
    stop_removed_official_adapter(state, task_id);
    state.last_remote_errors.remove(key.as_str());
    proof {
        let after = released(before, ids);
        assert(ids.contains(task_id@));
        assert forall|k: Seq<char>| #[trigger] key_of_one(k, ids) <==> k == key@ by {}
        assert(state@.instances =~= after.instances);
        assert(state@.claimed_tasks =~= after.claimed_tasks);
        assert(state@.launch_processes =~= after.launch_processes);
        assert(state@.remote_connections =~= after.remote_connections);
        assert(state@.stop_signals =~= after.stop_signals);
        assert(state@.official_adapters =~= after.official_adapters);
        assert(state@.official_adapter_states =~= after.official_adapter_states);
        assert(state@.runtime_log_forward_statuses =~= after.runtime_log_forward_statuses);
        assert(state@.last_remote_errors =~= after.last_remote_errors);
    }
    pending
}

/// Letting no task go changes nothing.
proof fn lemma_release_nothing(s: HelperStateView, ids: Set<Seq<char>>)
    requires
        ids == Set::<Seq<char>>::empty(),
    ensures
        released(s, ids) == s,
{
    let after = released(s, ids);
    assert(after.instances =~= s.instances);
    assert(after.claimed_tasks =~= s.claimed_tasks);
    assert(after.launch_processes =~= s.launch_processes);
    assert(after.remote_connections =~= s.remote_connections);
    assert(after.stop_signals =~= s.stop_signals);
    assert(after.official_adapters =~= s.official_adapters);
    assert(after.official_adapter_states =~= s.official_adapter_states);
    assert(after.runtime_log_forward_statuses =~= s.runtime_log_forward_statuses);
    assert(after.last_remote_errors =~= s.last_remote_errors);
}

/// Letting tasks go one set after the other is letting all of them go.
proof fn lemma_release_more(s: HelperStateView, first: Set<Seq<char>>, more: Set<Seq<char>>)
    ensures
        released(released(s, first), more) == released(s, first.union(more)),
{
    let both = first.union(more);
    let a = released(released(s, first), more);
    let b = released(s, both);
    assert forall|k: Seq<char>| #[trigger] key_of_one(k, both) <==> key_of_one(k, first) || key_of_one(
        k,
        more,
    ) by {
        if key_of_one(k, first) {
            let id = choose|id: Seq<char>| #[trigger]
                first.contains(id) && k == super::session::connection_key(id);
            assert(both.contains(id));
        }
        if key_of_one(k, more) {
            let id = choose|id: Seq<char>| #[trigger]
                more.contains(id) && k == super::session::connection_key(id);
            assert(both.contains(id));
        }
    }
    assert(a.instances =~= b.instances);
    assert(a.claimed_tasks =~= b.claimed_tasks);
    assert(a.launch_processes =~= b.launch_processes);
    assert(a.remote_connections =~= b.remote_connections);
    assert(a.stop_signals =~= b.stop_signals);
    assert(a.official_adapters =~= b.official_adapters);
    assert(a.official_adapter_states =~= b.official_adapter_states);
    assert(a.runtime_log_forward_statuses =~= b.runtime_log_forward_statuses);
    assert(a.last_remote_errors =~= b.last_remote_errors);
}

/// Lets the tasks of a list go, one after the other.
pub fn release_listed_tasks(
    state: &mut HelperState,
    task_ids: &Vec<String>,
    terminate_helper_spawned: bool,
) -> (pending: Vec<PendingLaunchTermination>)
    ensures
        final(state)@ == released(old(state)@, held(old(state)@, task_ids.deep_view())),
        crate::table::views(pending@) == terminations(
            old(state)@,
            task_ids.deep_view(),
            terminate_helper_spawned,
        ),
{
    let ghost start = state@;
    let ghost ids = task_ids.deep_view();
    let mut pending: Vec<PendingLaunchTermination> = Vec::new();
    let mut i: usize = 0;
    proof {
        assert(held(start, ids.take(0)) =~= Set::empty());
        lemma_release_nothing(start, held(start, ids.take(0)));
        assert(crate::table::views(pending@) =~= Seq::empty());
    }
    while i < task_ids.len()
        invariant
            i <= task_ids@.len(),
            ids == task_ids.deep_view(),
            state@ == released(start, held(start, ids.take(i as int))),
            crate::table::views(pending@) == terminations(
                start,
                ids.take(i as int),
                terminate_helper_spawned,
            ),
        decreases task_ids@.len() - i,
    {
        let ghost prefix = ids.take(i as int);
        let ghost longer = ids.take(i + 1);
        let ghost id = ids[i as int];
        let ghost done = held(start, prefix);
        let ghost listed = pending@;
        let found = release_claimed_task(state, task_ids[i].as_str(), terminate_helper_spawned);
        proof {
            assert(longer.drop_last() =~= prefix);
            assert(longer.last() == id);
            assert(longer =~= prefix.push(id));
            let next = held(released(start, done), seq![id]);
            lemma_release_more(start, done, next);
            assert(seq![id].contains(id)) by {
                assert(seq![id][0] == id);
            }
            assert forall|k: Seq<char>| #[trigger] longer.contains(k) <==> k == id
                || prefix.contains(k) by {
                if prefix.contains(k) {
                    assert(longer[prefix.index_of(k)] == k);
                }
                assert(longer[i as int] == id);
                if longer.contains(k) && k != id {
                    assert(prefix[longer.index_of(k)] == k);
                }
            }
            assert(done.union(next) =~= held(start, longer));
        }
        if let Some(termination) = found {
            pending.push(termination);
            assert(crate::table::views(pending@) =~= crate::table::views(listed).push(
                termination@,
            ));
        }
        i = i + 1;
    }
    assert(ids.take(ids.len() as int) =~= ids);
    pending
}

/// Lets every task go.
pub fn release_all_claimed_tasks(state: &mut HelperState, terminate_helper_spawned: bool) -> (pending:
    Vec<PendingLaunchTermination>)
    ensures
        final(state)@ == released(old(state)@, old(state)@.claimed_tasks.dom()),
        crate::table::views(pending@) == terminations(
            old(state)@,
            crate::table::sorted(old(state)@.claimed_tasks.dom()),
            terminate_helper_spawned,
        ),
{
    let test = |k: &str, t: &ClaimedTask| -> (r: bool)
        ensures
            r,
    { true };
    let all = state.claimed_tasks.keys_where(test, Ghost(|k: Seq<char>, t: ClaimedTaskView| true));
    assert(all@ =~= state@.claimed_tasks.dom());
    let ids = all.to_sorted_vec();
    assert(held(state@, ids.deep_view()) =~= state@.claimed_tasks.dom()) by {
        assert forall|k: Seq<char>| #[trigger]
            state@.claimed_tasks.dom().contains(k) implies ids.deep_view().contains(k) by {
            assert(all@.contains(k));
        }
    }
    release_listed_tasks(state, &ids, terminate_helper_spawned)
}

/// Lets the tasks go whose process has exited, of those whose process the helper holds.
pub fn reconcile_launch_processes(state: &mut HelperState, exited: &Vec<String>)
    ensures
        final(state)@ == released(
            old(state)@,
            held(old(state)@, with_child(old(state)@, exited.deep_view())),
        ),
{
    let mut ids: Vec<String> = Vec::new();
    let ghost listed = exited.deep_view();
    let ghost keep = |id: Seq<char>|
        state@.launch_processes.contains_key(id) && state@.launch_processes[id].has_child;
    let mut i: usize = 0;
    assert(listed.take(0).filter(keep) =~= Seq::<Seq<char>>::empty()) by {
        reveal(Seq::filter);
    }
    assert(ids.deep_view() =~= Seq::<Seq<char>>::empty());
    while i < exited.len()
        invariant
            i <= exited@.len(),
            listed == exited.deep_view(),
            keep == (|id: Seq<char>|
                state@.launch_processes.contains_key(id) && state@.launch_processes[id].has_child),
            ids.deep_view() == listed.take(i as int).filter(keep),
        decreases exited@.len() - i,
    {
        proof {
            assert(listed.take(i + 1).drop_last() =~= listed.take(i as int));
            assert(listed.take(i + 1).last() == listed[i as int]);
            reveal(Seq::filter);
        }
        let ghost before = ids.deep_view();
        let holds_child = match state.launch_processes.get(exited[i].as_str()) {
            Some(launch) => launch.has_child,
            None => false,
        };
        if holds_child {
            ids.push(exited[i].clone());
            assert(ids.deep_view() =~= before.push(listed[i as int]));
        }
        i = i + 1;
    }
    assert(listed.take(listed.len() as int) =~= listed);
    release_listed_tasks(state, &ids, false);
}

} // verus!
