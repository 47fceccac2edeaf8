//! What a helper owes the tasks that it holds and the plugins that serve them: which claim, which plugin
//! and which process a request is served by, said of the records themselves.
use vstd::prelude::*;

use super::hub_loop::{ClaimStepView, ClaimedTaskHubPayloadView, RegisterHelperError};
use super::records::{
    ClaimedTaskView, HelperStateView, LaunchProcessRecordView, PendingLaunchTerminationView,
    PluginInstanceView,
};

verus! {

/// The plugin stands at the place and, where a task is named, serves that task.
pub open spec fn stands(i: PluginInstanceView, place_id: Seq<char>, task_id: Option<Seq<char>>) -> bool {
    i.place_id == place_id && (task_id is Some ==> i.task_id == task_id)
}

/// The task is the one that the hub told of, as claimed at `now`.
pub open spec fn told_by(task: ClaimedTaskView, payload: ClaimedTaskHubPayloadView, now: u128) -> bool {
    &&& task.task_id == payload.task_id
    &&& task.place_id == payload.place_id
    &&& Some(task.mcp_base_url) == payload.routes.mcp_base_url
    &&& task.rojo_base_url == payload.routes.rojo_base_url
    &&& task.runtime_log_base_url == payload.routes.runtime_log_base_url
    &&& payload.universe_id is Some ==> task.universe_id == payload.universe_id
    &&& payload.universe_id is None ==> task.universe_id == payload.game_id
    &&& task.claimed_at == now
}

/// The hub named a universe for the task.
pub open spec fn universe_told(payload: ClaimedTaskHubPayloadView) -> bool {
    let named = if payload.universe_id is Some {
        payload.universe_id
    } else {
        payload.game_id
    };
    named is Some && crate::text::trimmed(named->0).len() > 0
}

/// An answered claim leads to the task that the hub told of, with the routes that it told: to take it as
/// it is where nothing is launched, else to launch Studio for it, after a look at its universe where the
/// hub told none. It leads to nothing exactly where there is no task or no route to its tools.
pub proof fn law_claim_answer_keeps_the_payload(
    task: Option<ClaimedTaskHubPayloadView>,
    skip_launch: bool,
    now: u128,
)
    ensures
        match super::hub_loop::claim_step(task, skip_launch, now) {
            ClaimStepView::Done => task is None || task->0.routes.mcp_base_url is None,
            ClaimStepView::Accept(claim) => task is Some && skip_launch && told_by(claim, task->0, now),
            ClaimStepView::ResolveUniverse(claim) => task is Some && !skip_launch && !universe_told(
                task->0,
            ) && told_by(claim, task->0, now),
            ClaimStepView::Launch(claim) => task is Some && !skip_launch && universe_told(task->0)
                && told_by(claim, task->0, now),
        },
{
}

/// A claim that is taken is held just as it was described, with the process that was launched for it;
/// other claims and processes stay, and the hub counts as reachable, without an error.
pub proof fn law_taken_claim_is_held(
    s: HelperStateView,
    task: ClaimedTaskView,
    launch: Option<LaunchProcessRecordView>,
    other: Seq<char>,
    now: u128,
)
    ensures
        ({
            let after = super::hub_loop::taken(s, task, launch, now);
            &&& after.claimed_tasks.contains_key(task.task_id)
            &&& after.claimed_tasks[task.task_id] == task
            &&& other != task.task_id ==> after.claimed_tasks.contains_key(other)
                == s.claimed_tasks.contains_key(other) && after.claimed_tasks[other]
                == s.claimed_tasks[other]
            &&& launch matches Some(l) ==> after.launch_processes.contains_key(l.task_id)
                && after.launch_processes[l.task_id] == l
            &&& launch is None || launch->0.task_id != other ==> after.launch_processes.contains_key(
                other,
            ) == s.launch_processes.contains_key(other) && after.launch_processes[other]
                == s.launch_processes[other]
            &&& after.hub_last_error is None
            &&& after.hub_last_claim_error is None
            &&& after.hub_last_ready_at == Some(now)
            &&& after.instances == s.instances
            &&& after.waiting_for_plugin == s.waiting_for_plugin
            &&& after.remote_connections == s.remote_connections
        }),
{
}

/// What the hub says of a report: that it was taken makes the hub reachable and leaves every claim that
/// it does not name; that it was refused lets go of all claims.
pub proof fn law_report_answer_is_heeded(
    s: HelperStateView,
    ok: bool,
    release_task_ids: Seq<Seq<char>>,
    id: Seq<char>,
    now: u128,
)
    ensures
        ({
            let after = super::hub_loop::heard(s, ok, release_task_ids, now);
            let kept = ok && s.claimed_tasks.contains_key(id) && !release_task_ids.contains(id);
            &&& after.claimed_tasks.contains_key(id) <==> kept
            &&& kept ==> after.claimed_tasks[id] == s.claimed_tasks[id]
            &&& kept && s.launch_processes.contains_key(id)
                ==> after.launch_processes.contains_key(id) && after.launch_processes[id]
                == s.launch_processes[id]
            &&& s.claimed_tasks.contains_key(id) && !kept
                ==> !after.launch_processes.contains_key(id)
            &&& ok ==> after.hub_last_error is None && after.hub_last_ready_at == Some(now)
            &&& !ok ==> after.hub_last_error == Some("hub rejected helper heartbeat"@)
                && after.hub_last_ready_at is None
            &&& after.hub_last_claim_error == s.hub_last_claim_error
            &&& after.waiting_for_plugin == s.waiting_for_plugin
        }),
{
    super::hub_loop::law_answer_lets_go(s, ok, release_task_ids, now, id);
    assert(release_task_ids.to_set().contains(id) == release_task_ids.contains(id));
}

/// A failed claim is kept as the last error of claiming; it is an error of the hub only while the helper
/// holds no task.
pub proof fn law_claim_failure_is_noted(s: HelperStateView, error: Seq<char>, id: Seq<char>)
    ensures
        ({
            let after = super::hub_loop::claim_failed(s, error);
            &&& after.hub_last_claim_error == Some(error)
            &&& s.claimed_tasks.contains_key(id) ==> after.hub_last_error == s.hub_last_error
            &&& (forall|k: Seq<char>| !#[trigger] s.claimed_tasks.contains_key(k))
                ==> after.hub_last_error == Some(error)
            &&& after.hub_last_ready_at == s.hub_last_ready_at
            &&& after.claimed_tasks == s.claimed_tasks
        }),
{
    if forall|k: Seq<char>| !#[trigger] s.claimed_tasks.contains_key(k) {
        assert(s.claimed_tasks =~= Map::<Seq<char>, ClaimedTaskView>::empty());
    }
    if s.claimed_tasks.contains_key(id) {
        assert(s.claimed_tasks != Map::<Seq<char>, ClaimedTaskView>::empty());
    }
}

/// A helper that is not registered asks to be; one that is reports on just the tasks that it holds.
pub proof fn law_report_covers_the_claims(s: HelperStateView, registered: bool, id: Seq<char>, now: u128)
    requires
        s.claimed_tasks.dom().finite(),
    ensures
        match super::hub_loop::hub_request(s, registered, now) {
            super::hub_loop::HubRequestView::Register => !registered,
            super::hub_loop::HubRequestView::Heartbeat { active_task_ids, active_tasks } => {
                &&& registered
                &&& active_task_ids.contains(id) <==> s.claimed_tasks.contains_key(id)
                &&& active_tasks.len() == active_task_ids.len()
                &&& forall|i: int|
                    0 <= i < active_tasks.len() ==> #[trigger] active_tasks[i].task_id
                        == active_task_ids[i]
            },
        },
{
    let set = s.claimed_tasks.dom();
    crate::table::lemma_sorted_to_set(set);
    assert(crate::table::sorted(set).to_set().contains(id) == crate::table::sorted(set).contains(
        id,
    ));
}

/// A claim is found by the process that it was launched with before it is found by its name, and only at
/// the place that is asked for; without either, only the one claim at the place will do.
pub proof fn law_claims_are_routed(
    s: HelperStateView,
    place_id: Seq<char>,
    task_id: Option<Seq<char>>,
    studio_pid: Option<u32>,
    a: Seq<char>,
    b: Seq<char>,
)
    requires
        s.claimed_tasks.dom().finite(),
        s.launch_processes.dom().finite(),
    ensures
        ({
            let found = super::routing::claim_routed(s, place_id, task_id, studio_pid);
            let by_process = exists|k: Seq<char>| #[trigger]
                s.launch_processes.contains_key(k) && Some(s.launch_processes[k].studio_pid)
                    == studio_pid;
            &&& found matches Ok(task) ==> {
                &&& task.place_id == place_id
                &&& exists|k: Seq<char>| #[trigger]
                    s.claimed_tasks.contains_key(k) && s.claimed_tasks[k] == task
                &&& task_id is Some ==> s.claimed_tasks.contains_key(task_id->0) && task
                    == s.claimed_tasks[task_id->0] || exists|k: Seq<char>| #[trigger]
                    s.launch_processes.contains_key(k) && Some(s.launch_processes[k].studio_pid)
                        == studio_pid && s.claimed_tasks[s.launch_processes[k].task_id] == task
            }
            &&& !by_process && task_id is Some ==> (found is Ok <==> s.claimed_tasks.contains_key(
                task_id->0,
            ) && s.claimed_tasks[task_id->0].place_id == place_id)
            &&& !by_process && task_id is None && s.claimed_tasks.contains_key(a)
                && s.claimed_tasks[a].place_id == place_id && (forall|k: Seq<char>| #[trigger]
                s.claimed_tasks.contains_key(k) && s.claimed_tasks[k].place_id == place_id ==> k
                    == a) ==> found == Ok::<ClaimedTaskView, Seq<char>>(s.claimed_tasks[a])
            &&& !by_process && task_id is None && a != b && s.claimed_tasks.contains_key(a)
                && s.claimed_tasks.contains_key(b) && s.claimed_tasks[a].place_id == place_id
                && s.claimed_tasks[b].place_id == place_id ==> found is Err
            &&& s.launch_processes.contains_key(a) && Some(s.launch_processes[a].studio_pid)
                == studio_pid && (forall|k: Seq<char>| #[trigger]
                s.launch_processes.contains_key(k) && Some(s.launch_processes[k].studio_pid)
                    == studio_pid ==> k == a) && s.claimed_tasks.contains_key(
                s.launch_processes[a].task_id,
            ) && s.claimed_tasks[s.launch_processes[a].task_id].place_id == place_id ==> found
                == Ok::<ClaimedTaskView, Seq<char>>(s.claimed_tasks[s.launch_processes[a].task_id])
        }),
{
    let here = super::routing::claims_at(s, place_id);
    vstd::set_lib::lemma_set_subset_finite(s.claimed_tasks.dom(), here);
    if studio_pid is Some {
        let pid = studio_pid->0;
        let test = |k: Seq<char>, l: LaunchProcessRecordView| l.studio_pid == pid;
        let rank = |l: LaunchProcessRecordView| (0u128, 0u128, 0u128);
        if s.launch_processes.contains_key(a) && s.launch_processes[a].studio_pid == pid {
            crate::table::lemma_best_exists(s.launch_processes, test, rank, false, a);
        }
        if let Some(k) = super::routing::launch_of_pid(s, pid) {
            assert(s.launch_processes.contains_key(k) && s.launch_processes[k].studio_pid == pid);
        }
    }
    if task_id is None {
        if here.len() == 1 {
            vstd::set_lib::lemma_len_subset(set![here.choose()], here);
            assert(here.contains(here.choose())) by {
                if here =~= Set::<Seq<char>>::empty() {
                }
            }
            if here.contains(a) && here.contains(b) && a != b {
                vstd::set_lib::lemma_len_subset(set![a, b], here);
                assert(set![a, b].len() == 2);
            }
            if here.contains(a) && forall|k: Seq<char>| #[trigger] here.contains(k) ==> k == a {
                assert(here.choose() == a);
            }
        }
        if here.contains(a) && (forall|k: Seq<char>| #[trigger] here.contains(k) ==> k == a) {
            assert(here =~= set![a]);
        }
        if here.len() == 0 {
            assert(!here.contains(a)) by {
                if here.contains(a) {
                    vstd::set_lib::lemma_len_subset(set![a], here);
                }
            }
        }
    }
}

/// A plugin that is told of its process binds the process to its claim: under the claim's name, at the
/// claim's place; who launched the process is remembered.
pub proof fn law_process_is_bound_to_its_claim(
    s: HelperStateView,
    task: ClaimedTaskView,
    studio_pid: u32,
    other: Seq<char>,
)
    requires
        super::task_status::records_wf(s),
    ensures
        ({
            let after = super::routing::bound(s, task, studio_pid);
            let known = s.launch_processes.contains_key(task.task_id);
            let l = after.launch_processes[task.task_id];
            &&& after.launch_processes.contains_key(task.task_id)
            &&& l.task_id == task.task_id
            &&& l.place_id == task.place_id
            &&& l.universe_id == task.universe_id
            &&& l.studio_pid == studio_pid
            &&& l.launched_by_helper <==> known
                && s.launch_processes[task.task_id].launched_by_helper
            &&& l.has_child <==> known && s.launch_processes[task.task_id].has_child
            &&& other != task.task_id ==> after.launch_processes.contains_key(other)
                == s.launch_processes.contains_key(other) && after.launch_processes[other]
                == s.launch_processes[other]
            &&& after.claimed_tasks == s.claimed_tasks
            &&& after.instances == s.instances
        }),
{
}

/// A plugin that a request is routed to stands on the route and was seen last of all that do; there is
/// one wherever some plugin stands on the route.
pub proof fn law_newest_plugin_is_routed_to(
    instances: Map<Seq<char>, PluginInstanceView>,
    place_id: Seq<char>,
    task_id: Option<Seq<char>>,
    j: Seq<char>,
)
    requires
        instances.dom().finite(),
    ensures
        ({
            let found = super::routing::route_instance(instances, place_id, task_id);
            &&& found matches Some(k) ==> instances.contains_key(k) && stands(
                instances[k],
                place_id,
                task_id,
            )
            &&& instances.contains_key(j) && stands(instances[j], place_id, task_id)
                ==> found is Some && instances[found->0].last_seen_at >= instances[j].last_seen_at
        }),
{
    if instances.contains_key(j) && stands(instances[j], place_id, task_id) {
        crate::table::lemma_best_exists(
            instances,
            |k: Seq<char>, i: PluginInstanceView| super::routing::on_route(i, place_id, task_id),
            |i: PluginInstanceView| (i.last_seen_at, 0u128, 0u128),
            true,
            j,
        );
    }
}

/// A plugin that is asked to stop play has said within the last two seconds that it is ready to, and no
/// other on the route has said so later.
pub proof fn law_actuator_is_ready(
    instances: Map<Seq<char>, PluginInstanceView>,
    place_id: Seq<char>,
    task_id: Option<Seq<char>>,
    j: Seq<char>,
    now: u128,
)
    requires
        instances.dom().finite(),
    ensures
        ({
            let found = super::routing::route_actuator(instances, place_id, task_id, now);
            let ready = |i: PluginInstanceView|
                stands(i, place_id, task_id) && i.studio_control_state == "ready"@
                    && i.studio_control_observed_at is Some && now - i.studio_control_observed_at->0
                    <= 2_000_000_000;
            &&& found matches Some(k) ==> instances.contains_key(k) && ready(instances[k])
            &&& instances.contains_key(j) && ready(instances[j]) ==> found is Some
                && instances[found->0].studio_control_observed_at->0
                >= instances[j].studio_control_observed_at->0
        }),
{
    if instances.contains_key(j) && stands(instances[j], place_id, task_id)
        && super::session::fresh_control(instances[j], now) {
        crate::table::lemma_best_exists(
            instances,
            |k: Seq<char>, i: PluginInstanceView|
                super::routing::on_route(i, place_id, task_id) && super::session::fresh_control(
                    i,
                    now,
                ),
            |i: PluginInstanceView| super::routing::moment_rank(i.studio_control_observed_at),
            true,
            j,
        );
    }
}

/// A screenshot is taken of the process of a plugin that stands at the place and, where a task is named,
/// serves that task: of the one that was seen last. Where no plugin does, or that one does not tell its
/// process, there is none.
pub proof fn law_screenshot_stays_on_its_route(
    s: HelperStateView,
    place_id: Seq<char>,
    task_id: Option<Seq<char>>,
    j: Seq<char>,
)
    requires
        s.instances.dom().finite(),
    ensures
        ({
            let found = super::capture::captured_process(s, Some(place_id), task_id);
            &&& found matches Ok((place, pid)) ==> {
                &&& place == Some(place_id)
                &&& exists|k: Seq<char>| #[trigger]
                    s.instances.contains_key(k) && s.instances[k].place_id == place_id && (
                    task_id is Some ==> s.instances[k].task_id == task_id)
                        && s.instances[k].studio_pid == Some(pid) && (s.instances.contains_key(j)
                        && stands(s.instances[j], place_id, task_id)
                        ==> s.instances[k].last_seen_at >= s.instances[j].last_seen_at)
            }
            &&& (forall|k: Seq<char>| #[trigger]
                s.instances.contains_key(k) ==> s.instances[k].place_id != place_id || (
                task_id is Some && s.instances[k].task_id != task_id)) ==> found == Err::<
                (Option<Seq<char>>, u32),
                Seq<char>,
            >("no active Studio plugin registered for placeId "@ + place_id)
            &&& s.instances.contains_key(j) && stands(s.instances[j], place_id, task_id) && (forall|
                k: Seq<char>,
            | #[trigger]
                s.instances.contains_key(k) && stands(s.instances[k], place_id, task_id)
                    ==> s.instances[k].studio_pid is Some) ==> found is Ok
        }),
{
    law_newest_plugin_is_routed_to(s.instances, place_id, task_id, j);
    if let Some(k) = super::routing::route_instance(s.instances, place_id, task_id) {
        assert(s.instances.contains_key(k) && stands(s.instances[k], place_id, task_id));
    }
}

/// Without a place, a screenshot is taken of the one plugin that there is, and told with its place; there
/// is none where there is no plugin, or more than one.
pub proof fn law_screenshot_of_the_only_plugin(
    s: HelperStateView,
    task_id: Option<Seq<char>>,
    a: Seq<char>,
    b: Seq<char>,
)
    requires
        s.instances.dom().finite(),
    ensures
        ({
            let found = super::capture::captured_process(s, None, task_id);
            &&& s.instances.contains_key(a) && (forall|k: Seq<char>| #[trigger]
                s.instances.contains_key(k) ==> k == a) ==> match s.instances[a].studio_pid {
                Some(pid) => found == Ok::<(Option<Seq<char>>, u32), Seq<char>>(
                    (Some(s.instances[a].place_id), pid),
                ),
                None => found is Err,
            }
            &&& s.instances.contains_key(a) && s.instances.contains_key(b) && a != b
                ==> found is Err
            &&& (forall|k: Seq<char>| !#[trigger] s.instances.contains_key(k)) ==> found is Err
        }),
{
    let keys = s.instances.dom();
    crate::table::lemma_finite_sorted(keys);
    if s.instances.contains_key(a) && (forall|k: Seq<char>| #[trigger]
        s.instances.contains_key(k) ==> k == a) {
        assert forall|k: Seq<char>| #[trigger] keys.contains(k) implies k == a by {
            assert(s.instances.contains_key(k));
        }
        assert(keys =~= set![a]);
        let list = crate::table::sorted(keys);
        assert(keys.contains(a));
        assert(list.contains(a));
        assert(list.len() > 0);
        assert(list.contains(list[0]));
        assert(keys.contains(list[0]));
    }
    if keys.contains(a) && keys.contains(b) && a != b {
        assert(set![a, b].subset_of(keys));
        vstd::set_lib::lemma_len_subset(set![a, b], keys);
        assert(set![a, b].len() == 2);
    }
    if forall|k: Seq<char>| !#[trigger] s.instances.contains_key(k) {
        assert forall|k: Seq<char>| !keys.contains(k) by {
            assert(!s.instances.contains_key(k));
        }
        assert(keys =~= Set::<Seq<char>>::empty());
    }
}

/// A process that is to be ended was launched by this helper, which still has hold of it, for a claim
/// that is let go; each such process is ended.
pub proof fn law_only_own_processes_are_ended(
    s: HelperStateView,
    ids: Seq<Seq<char>>,
    terminate: bool,
    id: Seq<char>,
    pending: PendingLaunchTerminationView,
)
    requires
        super::task_status::records_wf(s),
    ensures
        ({
            let ended = super::routing::terminations(s, ids, terminate);
            &&& ended.contains(pending) ==> {
                let l = s.launch_processes[pending.task_id];
                &&& terminate
                &&& ids.contains(pending.task_id)
                &&& s.claimed_tasks.contains_key(pending.task_id)
                &&& s.launch_processes.contains_key(pending.task_id)
                &&& l.launched_by_helper
                &&& l.has_child
                &&& l.studio_pid == pending.studio_pid
            }
            &&& terminate && ids.contains(id) && s.claimed_tasks.contains_key(id)
                && s.launch_processes.contains_key(id) && s.launch_processes[id].launched_by_helper
                && s.launch_processes[id].has_child ==> ended.contains(
                PendingLaunchTerminationView {
                    task_id: id,
                    studio_pid: s.launch_processes[id].studio_pid,
                },
            )
        }),
    decreases ids.len(),
{
    if ids.len() > 0 {
        let front = ids.drop_last();
        let before = super::routing::terminations(s, front, terminate);
        law_only_own_processes_are_ended(s, front, terminate, id, pending);
        assert(ids.contains(ids.last()));
        if front.contains(pending.task_id) {
            let p = front.index_of(pending.task_id);
            assert(ids[p] == pending.task_id);
        }
        if ids.contains(id) && !front.contains(id) {
            let p = ids.index_of(id);
            if p < front.len() {
                assert(front[p] == id);
            }
            assert(ids.last() == id);
        }
        if let Some(last) = super::routing::termination(s, ids.last(), terminate) {
            let after = before.push(last);
            assert(after[before.len() as int] == last);
            let own = PendingLaunchTerminationView {
                task_id: id,
                studio_pid: s.launch_processes[id].studio_pid,
            };
            if before.contains(own) {
                let p = before.index_of(own);
                assert(after[p] == own);
            }
            if after.contains(pending) && pending != last {
                let p = after.index_of(pending);
                assert(before[p] == pending);
            }
        }
    }
}

/// What the hub says of itself is noted: an error in place of the one before it; and a refused name is told
/// as such, any other refusal in short.
pub proof fn law_hub_errors_are_noted(s: HelperStateView, error: Seq<char>, refusal: RegisterHelperError)
    ensures
        ({
            let after = super::hub_loop::with_hub_error(s, error);
            &&& after.hub_last_error == Some(error)
            &&& after == (HelperStateView { hub_last_error: after.hub_last_error, ..s })
            &&& refusal matches RegisterHelperError::HelperIdConflict(message)
                ==> super::hub_loop::registration_error(refusal) == "helper_id_conflict: "@
                + message@
            &&& refusal matches RegisterHelperError::Other(text)
                ==> super::hub_loop::registration_error(refusal) == crate::sanitize::summary(text@)
        }),
{
}

/// What the hub's answer lets go of is ended where the helper launched it: all of it where the report was
/// refused, else what the answer names.
pub proof fn law_answer_ends_own_processes(
    s: HelperStateView,
    ok: bool,
    release_task_ids: Seq<Seq<char>>,
    id: Seq<char>,
    now: u128,
)
    requires
        super::task_status::records_wf(s),
        s.claimed_tasks.dom().finite(),
        s.claimed_tasks.contains_key(id),
    ensures
        ({
            let ended = super::hub_loop::heard_terminations(s, ok, release_task_ids, now);
            let l = s.launch_processes[id];
            let own = PendingLaunchTerminationView { task_id: id, studio_pid: l.studio_pid };
            let launched = s.launch_processes.contains_key(id) && l.launched_by_helper
                && l.has_child;
            &&& launched && (!ok || release_task_ids.contains(id)) ==> ended.contains(own)
            &&& ok && ended.contains(own) ==> release_task_ids.contains(id) && launched
        }),
{
    let l = s.launch_processes[id];
    let own = PendingLaunchTerminationView { task_id: id, studio_pid: l.studio_pid };
    let all = crate::table::sorted(s.claimed_tasks.dom());
    let first = if ok {
        Seq::empty()
    } else {
        super::routing::terminations(s, all, true)
    };
    let j = super::hub_loop::judged(s, ok, now);
    let second = super::routing::terminations(j, release_task_ids, true);
    let ended = first + second;
    crate::table::lemma_finite_sorted(s.claimed_tasks.dom());
    assert(s.claimed_tasks.dom().contains(id));
    assert(all.contains(id));
    law_only_own_processes_are_ended(s, all, true, id, own);
    if ok {
        assert(super::task_status::records_wf(j));
        law_only_own_processes_are_ended(j, release_task_ids, true, id, own);
        assert(ended =~= second);
    }
    if first.contains(own) {
        let p = first.index_of(own);
        assert(ended[p] == own);
    }
}

/// A claim whose process has exited is let go, where the helper had hold of the process.
pub proof fn law_exited_processes_let_go(
    s: HelperStateView,
    exited: Seq<Seq<char>>,
    id: Seq<char>,
    now: u128,
)
    requires
        s.claimed_tasks.contains_key(id),
    ensures
        ({
            let after = super::status::reconciled(s, exited, now);
            let gone = exited.contains(id) && s.launch_processes.contains_key(id)
                && s.launch_processes[id].has_child;
            &&& after.claimed_tasks.contains_key(id) <==> !gone
            &&& !gone ==> after.claimed_tasks[id] == s.claimed_tasks[id]
            &&& gone ==> !after.launch_processes.contains_key(id)
            &&& !gone && s.launch_processes.contains_key(id)
                ==> after.launch_processes.contains_key(id) && after.launch_processes[id]
                == s.launch_processes[id]
        }),
{
    let t = super::connections::tidied(s, now);
    let test = |id: Seq<char>|
        t.launch_processes.contains_key(id) && t.launch_processes[id].has_child;
    crate::basics::lemma_picked(exited, test, id);
    let picked = super::routing::with_child(t, exited);
    assert(picked == exited.filter(test));
    assert(picked.to_set().contains(id) == picked.contains(id));
}

/// A request for a claim that names neither a task nor a process that was launched for one is refused,
/// since any claim at the place would do.
pub proof fn law_unmapped_studio_is_told(place_id: Seq<char>)
    ensures
        super::routing::unmapped_message(place_id) == "helper could not map Studio for place_id "@
            + place_id
            + " to a claimed launch; task_id is required unless the Studio pid was launched by helper"@,
{
}

/// A helper asks for a task while it holds fewer than it has room for; that the hub does not know it any
/// more is read off the hub's words.
pub proof fn law_room_for_a_task(s: HelperStateView, capacity: usize, error: Seq<char>)
    ensures
        super::hub_loop::has_room(s, capacity) <==> s.claimed_tasks.dom().len() < capacity,
        super::hub_loop::still_known(error) <==> !crate::text::holds_text(
            error,
            "helper not found"@,
        ),
{
}

/// An answered claim makes the hub reachable and clears the last error of claiming; a task without a route
/// to its tools is an error of the hub. The claims do not change yet.
pub proof fn law_claim_answer_is_noted(
    s: HelperStateView,
    task: Option<ClaimedTaskHubPayloadView>,
    now: u128,
)
    ensures
        ({
            let after = super::hub_loop::claim_answered(s, task, now);
            let lacking = task is Some && task->0.routes.mcp_base_url is None;
            &&& after.hub_last_claim_error is None
            &&& after.hub_last_ready_at == Some(now)
            &&& lacking ==> after.hub_last_error == Some("hub claimed task missing mcp_base_url"@)
            &&& !lacking ==> after.hub_last_error is None
            &&& after == (HelperStateView {
                hub_last_error: after.hub_last_error,
                hub_last_claim_error: after.hub_last_claim_error,
                hub_last_ready_at: after.hub_last_ready_at,
                ..s
            })
        }),
{
}

/// A request that names its task is for that claim, one that comes from a launched process for the claim of
/// the process; one that does neither is refused, even where the place has a single claim.
pub proof fn law_requests_name_their_claim(
    s: HelperStateView,
    place_id: Seq<char>,
    task_id: Option<Seq<char>>,
    studio_pid: Option<u32>,
)
    requires
        s.claimed_tasks.dom().finite(),
        s.launch_processes.dom().finite(),
    ensures
        ({
            let found = super::routing::claim_requested(s, place_id, task_id, studio_pid);
            let by_process = exists|k: Seq<char>| #[trigger]
                s.launch_processes.contains_key(k) && Some(s.launch_processes[k].studio_pid)
                    == studio_pid;
            &&& found matches Ok(task) ==> task.place_id == place_id && exists|k: Seq<char>| #[trigger]
                s.claimed_tasks.contains_key(k) && s.claimed_tasks[k] == task
            &&& !by_process && task_id is None ==> found is Err
            &&& !by_process && task_id is Some ==> (found is Ok <==> s.claimed_tasks.contains_key(
                task_id->0,
            ) && s.claimed_tasks[task_id->0].place_id == place_id)
            &&& !by_process && found is Ok ==> found->Ok_0 == s.claimed_tasks[task_id->0]
        }),
{
    law_claims_are_routed(s, place_id, task_id, studio_pid, place_id, place_id);
    if studio_pid is Some {
        if let Some(k) = super::routing::launch_of_pid(s, studio_pid->0) {
            assert(s.launch_processes.contains_key(k));
        }
    }
}

} // verus!
