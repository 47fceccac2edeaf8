//! What holds of a helper as a whole.
use vstd::prelude::*;

use super::timing::{
    REMOTE_WS_PING_INTERVAL, REMOTE_WS_PONG_TIMEOUT, REMOTE_WS_STALE_RELEASE_AFTER,
    REMOTE_WS_STALE_RESTART_AFTER,
};

verus! {

use super::plugin::{PluginResponsePayloadView, ReportReplyView};
use super::records::{
    ClaimedTaskView, HelperStateView, LaunchProcessRecordView, PluginInstanceView,
    RemoteConnectionState,
};

/// The words for the phases of a session are all different.
proof fn lemma_phases()
    ensures
        "error"@ != "stopping_requested"@,
        "error"@ != "stopping_observed"@,
        "error"@ != "idle"@,
        "error"@ != "running"@,
        "idle"@ != "running"@,
        "idle"@ != "stopping_requested"@,
        "idle"@ != "stopping_observed"@,
        "running"@ != "stopping_requested"@,
        "running"@ != "stopping_observed"@,
        "stopping_requested"@ != "stopping_observed"@,
{
    reveal_strlit("error");
    reveal_strlit("idle");
    reveal_strlit("running");
    reveal_strlit("stopping_requested");
    reveal_strlit("stopping_observed");
    assert("error"@[0] != "stopping_requested"@[0]);
    assert("error"@[0] != "stopping_observed"@[0]);
    assert("error"@.len() != "idle"@.len());
    assert("error"@.len() != "running"@.len());
    assert("idle"@.len() != "running"@.len());
    assert("idle"@.len() != "stopping_requested"@.len());
    assert("idle"@.len() != "stopping_observed"@.len());
    assert("running"@.len() != "stopping_requested"@.len());
    assert("running"@.len() != "stopping_observed"@.len());
    assert("stopping_requested"@.len() != "stopping_observed"@.len());
}

/// The words for the results of a stop, and for what a control says of itself, are all different.
proof fn lemma_results()
    ensures
        "completed"@ != "observed"@,
        "completed"@ != "failed"@,
        "observed"@ != "failed"@,
        "none"@ != "ready"@,
        "lost"@ != "ready"@,
        "stopping"@ != "ready"@,
        "stopping"@ != "launching"@,
{
    reveal_strlit("completed");
    reveal_strlit("observed");
    reveal_strlit("failed");
    reveal_strlit("none");
    reveal_strlit("lost");
    reveal_strlit("ready");
    reveal_strlit("stopping");
    reveal_strlit("launching");
    assert("completed"@.len() != "observed"@.len());
    assert("completed"@.len() != "failed"@.len());
    assert("observed"@.len() != "failed"@.len());
    assert("none"@.len() != "ready"@.len());
    assert("lost"@.len() != "ready"@.len());
    assert("stopping"@.len() != "ready"@.len());
    assert("stopping"@.len() != "launching"@.len());
}

/// A task that is let go leaves nothing behind: no claim, process, connection, adapter or status, and
/// no plugin that serves it.
pub proof fn law_released_task_leaves_nothing(s: HelperStateView, ids: Set<Seq<char>>, id: Seq<char>)
    requires
        ids.contains(id),
    ensures
        ({
            let after = super::routing::released(s, ids);
            let key = super::session::connection_key(id);
            &&& !after.claimed_tasks.contains_key(id)
            &&& !after.launch_processes.contains_key(id)
            &&& !after.official_adapters.contains(id)
            &&& !after.official_adapter_states.contains_key(id)
            &&& !after.runtime_log_forward_statuses.contains_key(id)
            &&& !after.remote_connections.contains_key(key)
            &&& !after.last_remote_errors.contains_key(key)
            &&& forall|k: Seq<char>| #[trigger]
                after.instances.contains_key(k) ==> after.instances[k].task_id != Some(id)
        }),
{
    assert(super::routing::key_of_one(super::session::connection_key(id), ids));
}

/// A task that is not let go keeps its claim, its process, its connection, its adapter and its status,
/// and the plugins that serve it stay.
pub proof fn law_release_keeps_other_tasks(s: HelperStateView, ids: Set<Seq<char>>, other: Seq<char>)
    requires
        !ids.contains(other),
    ensures
        ({
            let after = super::routing::released(s, ids);
            let key = super::session::connection_key(other);
            &&& after.claimed_tasks.contains_key(other) == s.claimed_tasks.contains_key(other)
            &&& s.claimed_tasks.contains_key(other) ==> after.claimed_tasks[other]
                == s.claimed_tasks[other]
            &&& s.launch_processes.contains_key(other) ==> after.launch_processes.contains_key(
                other,
            ) && after.launch_processes[other] == s.launch_processes[other]
            &&& s.official_adapters.contains(other) ==> after.official_adapters.contains(other)
            &&& s.remote_connections.contains_key(key) ==> after.remote_connections.contains_key(
                key,
            ) && after.remote_connections[key] == s.remote_connections[key]
            &&& forall|k: Seq<char>| #[trigger]
                s.instances.contains_key(k) && s.instances[k].task_id == Some(other)
                    ==> after.instances.contains_key(k) && after.instances[k] == s.instances[k]
        }),
{
    let key = super::session::connection_key(other);
    assert(!super::routing::key_of_one(key, ids)) by {
        if super::routing::key_of_one(key, ids) {
            let id = choose|id: Seq<char>| #[trigger]
                ids.contains(id) && key == super::session::connection_key(id);
            assert(key.skip("task:"@.len() as int) =~= id);
            assert(key.skip("task:"@.len() as int) =~= other);
        }
    }
}

/// To let a task go twice is to let it go once.
pub proof fn law_release_settles(s: HelperStateView, ids: Set<Seq<char>>)
    ensures
        super::routing::released(super::routing::released(s, ids), ids) == super::routing::released(
            s,
            ids,
        ),
{
    let once = super::routing::released(s, ids);
    let twice = super::routing::released(once, ids);
    assert(twice.instances =~= once.instances);
    assert(twice.claimed_tasks =~= once.claimed_tasks);
    assert(twice.launch_processes =~= once.launch_processes);
    assert(twice.remote_connections =~= once.remote_connections);
    assert(twice.stop_signals =~= once.stop_signals);
    assert(twice.official_adapters =~= once.official_adapters);
    assert(twice.official_adapter_states =~= once.official_adapter_states);
    assert(twice.runtime_log_forward_statuses =~= once.runtime_log_forward_statuses);
    assert(twice.last_remote_errors =~= once.last_remote_errors);
}

/// Each claimed task and each launch stays under the identifier of its task: when tasks are let go,
/// when a process is bound to a task, when a task is taken with the process that was launched for it,
/// and through an upkeep of the connections.
pub proof fn law_records_stay_under_their_tasks(
    s: HelperStateView,
    ids: Set<Seq<char>>,
    task: ClaimedTaskView,
    studio_pid: u32,
    launch: Option<LaunchProcessRecordView>,
    workers: Map<Seq<char>, Seq<char>>,
    now: u128,
)
    requires
        super::task_status::records_wf(s),
    ensures
        super::task_status::records_wf(super::routing::released(s, ids)),
        super::task_status::records_wf(super::routing::bound(s, task, studio_pid)),
        super::task_status::records_wf(super::hub_loop::taken(s, task, launch, now)),
        super::task_status::records_wf(super::connections::synced(s, workers, now)),
{
}

/// The tasks, the processes and the places in the status of a helper go by identifier.
pub proof fn law_status_is_in_order(s: HelperStateView, who: super::status::HelperIdentityView, now: u128)
    requires
        super::task_status::records_wf(s),
        s.claimed_tasks.dom().finite(),
        s.launch_processes.dom().finite(),
        s.instances.dom().finite(),
    ensures
        ({
            let told = super::status::status_told(s, who, now);
            &&& crate::table::increasing(
                told.claimed_tasks.map_values(
                    |t: super::status::ClaimedTaskStatusView| t.task_id,
                ),
            )
            &&& crate::table::increasing(
                told.launched_studios.map_values(
                    |l: super::status::LaunchProcessStatusView| l.task_id,
                ),
            )
            &&& crate::table::increasing(
                told.instances.map_values(
                    |i: super::status::HelperInstanceStatusView| i.instance_id,
                ),
            )
            &&& crate::table::increasing(told.active_places)
        }),
{
    let told = super::status::status_told(s, who, now);
    let tasks = crate::table::sorted(s.claimed_tasks.dom());
    let launches = crate::table::sorted(super::status::active_launches(s));
    let instances = crate::table::sorted(s.instances.dom());
    crate::table::lemma_finite_sorted(s.claimed_tasks.dom());
    crate::table::lemma_finite_sorted(super::status::active_launches(s));
    crate::table::lemma_finite_sorted(s.instances.dom());
    s.instances.dom().lemma_map_finite(|k: Seq<char>| s.instances[k].place_id);
    s.claimed_tasks.dom().lemma_map_finite(|k: Seq<char>| s.claimed_tasks[k].place_id);
    crate::table::lemma_finite_sorted(super::status::known_places(s));
    assert forall|i: int| 0 <= i < tasks.len() implies told.claimed_tasks.map_values(
        |t: super::status::ClaimedTaskStatusView| t.task_id,
    )[i] == #[trigger] tasks[i] by {
        assert(tasks.contains(tasks[i]));
        assert(s.claimed_tasks.dom().contains(tasks[i]));
        assert(s.claimed_tasks.contains_key(tasks[i]));
    }
    assert(told.claimed_tasks.map_values(|t: super::status::ClaimedTaskStatusView| t.task_id)
        =~= tasks);
    assert forall|i: int| 0 <= i < launches.len() implies told.launched_studios.map_values(
        |l: super::status::LaunchProcessStatusView| l.task_id,
    )[i] == #[trigger] launches[i] by {
        assert(launches.contains(launches[i]));
        assert(super::status::active_launches(s).contains(launches[i]));
        assert(s.launch_processes.contains_key(launches[i]));
    }
    assert(told.launched_studios.map_values(|l: super::status::LaunchProcessStatusView| l.task_id)
        =~= launches);
    assert(told.instances.map_values(|i: super::status::HelperInstanceStatusView| i.instance_id)
        =~= instances);
}

/// A claim that a route selects is one that is held, and stands on the route.
pub proof fn law_selected_claim_is_held(
    s: HelperStateView,
    place_id: Seq<char>,
    task_id: Option<Seq<char>>,
)
    requires
        super::routing::claim_selected(s, place_id, task_id) is Ok,
    ensures
        ({
            let task = super::routing::claim_selected(s, place_id, task_id)->Ok_0;
            &&& exists|k: Seq<char>| #[trigger]
                s.claimed_tasks.contains_key(k) && s.claimed_tasks[k] == task
            &&& task.place_id == place_id
            &&& task_id matches Some(id) ==> s.claimed_tasks.contains_key(id) && task
                == s.claimed_tasks[id]
        }),
{
    let task = super::routing::claim_selected(s, place_id, task_id)->Ok_0;
    match task_id {
        Some(id) => {
            assert(s.claimed_tasks.contains_key(id));
        },
        None => {
            let held = super::routing::claims_at(s, place_id);
            assert(held.contains(held.choose())) by {
                if forall|k: Seq<char>| !held.contains(k) {
                    assert(held =~= Set::empty());
                }
            }
            assert(s.claimed_tasks.contains_key(held.choose()));
        },
    }
}

/// A stop that is recorded has a number that no earlier stop of the plugin had. It is the active one,
/// the session counts as stopping, and a plugin that knows only earlier stops is handed it.
pub proof fn law_recorded_stop_is_new(i: PluginInstanceView, now: u128, later: u128)
    requires
        i.stop_request_id < u64::MAX,
    ensures
        ({
            let after = super::session::stop_recorded(i, now);
            &&& after.stop_request_id == i.stop_request_id + 1
            &&& super::session::active_stop(after) == Some(after.stop_request_id)
            &&& super::plugin::stop_deliverable(after, Some(i.stop_request_id))
            &&& !super::plugin::stop_deliverable(after, Some(after.stop_request_id))
            &&& super::session::current_session(after, later) == Some("stopping"@)
        }),
{
    lemma_phases();
}

/// A stop counts as completed only once it was observed and the session's own control is gone.
pub proof fn law_stop_completes_after_it_was_observed(i: PluginInstanceView, now: u128)
    requires
        super::session::active_stop(i) is Some,
    ensures
        ({
            let after = super::plugin::edit_heard(i, now);
            let done = i.stop_result_phase == Some("observed"@) && !super::session::control_recent(
                i,
                now,
            );
            &&& done ==> after.stop_result_phase == Some("completed"@)
                && super::session::active_stop(after) is None
            &&& !done ==> after.stop_result_phase == i.stop_result_phase
                && super::session::active_stop(after) == super::session::active_stop(i)
                && super::session::edit_state(after, now) == "stopping"@
        }),
{
    lemma_phases();
}

/// A stop that is recorded, observed by the running session, and followed by an edit heartbeat when
/// the session's control is gone, leaves the plugin in edit mode.
pub proof fn law_stop_leads_back_to_edit(i: PluginInstanceView, t0: u128, t1: u128, t2: u128)
    requires
        i.stop_request_id < u64::MAX,
        !super::session::control_recent(i, t2),
    ensures
        ({
            let asked = super::session::stop_recorded(i, t0);
            let observed = super::plugin::stop_result_step(
                asked,
                asked.stop_request_id,
                "observed"@,
                None,
                t1,
            ).0;
            let back = super::plugin::edit_heard(observed, t2);
            &&& back.studio_transition_phase == "idle"@
            &&& back.stop_result_phase == Some("completed"@)
            &&& super::session::active_stop(back) is None
            &&& super::session::reported_session(back, t2) == "stop"@
        }),
{
    lemma_phases();
    lemma_results();
    let asked = super::session::stop_recorded(i, t0);
    let observed = super::plugin::stop_result_step(
        asked,
        asked.stop_request_id,
        "observed"@,
        None,
        t1,
    ).0;
    assert(super::plugin::stop_result_current(asked, asked.stop_request_id));
    assert(observed == super::plugin::stop_observed(asked, t1));
    assert(super::session::active_stop(observed) is Some);
    let back = super::plugin::edit_heard(observed, t2);
    assert(back.edit_runtime_observed_at == Some(t2));
    assert(super::session::edit_state(back, t2) == "ready"@);
}

/// A stop that was given up is never handed out any more, its result is not taken any more, and a
/// heartbeat of the running session does not undo the failure.
pub proof fn law_failed_stop_stays_failed(
    i: PluginInstanceView,
    detail: Seq<char>,
    known: Option<u64>,
    phase: Seq<char>,
    error: Option<Seq<char>>,
    now: u128,
    later: u128,
)
    ensures
        ({
            let failed = super::session::stop_timed_out(i, i.stop_request_id, detail, now);
            &&& super::session::active_stop(failed) is None
            &&& !super::plugin::stop_deliverable(failed, known)
            &&& super::plugin::stop_result_step(failed, i.stop_request_id, phase, error, later) == (
                failed,
                ReportReplyView::Ignored,
            )
            &&& super::plugin::control_heard(failed, later).studio_transition_phase == "error"@
            &&& super::session::effective_control(
                super::plugin::control_heard(failed, later),
                later,
            ) == "lost"@
        }),
{
    lemma_phases();
}

/// A heartbeat of a running session never ends a stop that is under way, nor clears an error.
pub proof fn law_control_heartbeat_keeps_the_phase(i: PluginInstanceView, now: u128)
    requires
        i.studio_transition_phase == "error"@ || super::session::stopping_phase(
            i.studio_transition_phase,
        ),
    ensures
        super::plugin::control_heard(i, now).studio_transition_phase == i.studio_transition_phase,
        super::session::active_stop(super::plugin::control_heard(i, now))
            == super::session::active_stop(i),
        super::plugin::control_heard(i, now).studio_control_last_error
            == i.studio_control_last_error,
{
    lemma_phases();
}

/// A heartbeat of a running session, where no stop is under way and nothing failed, makes the session
/// count as playing.
pub proof fn law_control_heartbeat_means_play(i: PluginInstanceView, now: u128)
    requires
        i.studio_transition_phase != "error"@,
        !super::session::stopping_phase(i.studio_transition_phase),
    ensures
        super::session::reported_session(super::plugin::control_heard(i, now), now) == "play"@,
        super::session::effective_control(super::plugin::control_heard(i, now), now) == "ready"@,
{
    lemma_phases();
    reveal_strlit("runtime");
    reveal_strlit("launching");
    assert("runtime"@.len() != "launching"@.len());
}

/// A plugin that has just registered is in edit mode.
pub proof fn law_newcomer_is_in_edit_mode(
    place_id: Seq<char>,
    task: ClaimedTaskView,
    studio_pid: Option<u32>,
    now: u128,
)
    ensures
        super::session::reported_session(
            super::plugin::newcomer(place_id, task, studio_pid, now),
            now,
        ) == "stop"@,
{
    lemma_phases();
    lemma_results();
}

/// A plugin that registers and leaves again leaves the other plugins as they were.
pub proof fn law_registration_is_undone(
    s: HelperStateView,
    instance_id: Seq<char>,
    place_id: Seq<char>,
    task: ClaimedTaskView,
    studio_pid: Option<u32>,
    now: u128,
)
    requires
        !s.instances.contains_key(instance_id),
    ensures
        super::plugin::unregistered(
            super::plugin::registered(s, instance_id, place_id, task, studio_pid, now),
            instance_id,
        ).instances == s.instances,
{
    let joined = super::plugin::registered(s, instance_id, place_id, task, studio_pid, now);
    assert(joined.instances.remove(instance_id) =~= s.instances);
}

/// A request is answered once, and only by the plugin that it was handed to: any other answer changes
/// nothing, and so does a second one.
pub proof fn law_requests_are_answered_once(
    s: HelperStateView,
    answer: PluginResponsePayloadView,
    other: PluginResponsePayloadView,
)
    requires
        other.id == answer.id,
    ensures
        s.waiting_for_plugin.contains_key(answer.id) && answer.instance_id != Some(
            s.waiting_for_plugin[answer.id].instance_id,
        ) ==> super::plugin::answered(s, answer) == s && super::plugin::delivery(s, answer)
            is Dropped,
        super::plugin::answer_fits(s, answer) ==> super::plugin::delivery(s, answer) is Delivered
            && super::plugin::delivery(super::plugin::answered(s, answer), other) is Dropped
            && super::plugin::answered(super::plugin::answered(s, answer), other)
            == super::plugin::answered(s, answer),
{
}

/// After an upkeep every task that is held has a connection, and every connection is that of a task
/// that is held.
pub proof fn law_upkeep_connects_every_task(
    s: HelperStateView,
    workers: Map<Seq<char>, Seq<char>>,
    now: u128,
)
    ensures
        ({
            let after = super::connections::synced(s, workers, now);
            &&& forall|id: Seq<char>| #[trigger]
                after.claimed_tasks.contains_key(id) ==> after.remote_connections.contains_key(
                    super::session::connection_key(id),
                )
            &&& forall|k: Seq<char>| #[trigger]
                after.remote_connections.contains_key(k) ==> super::routing::key_of_one(
                    k,
                    after.claimed_tasks.dom(),
                )
        }),
{
    let after = super::connections::synced(s, workers, now);
    let gone = super::connections::all_given_up(s, now);
    let tasks = s.claimed_tasks.dom();
    assert forall|id: Seq<char>| #[trigger]
        after.claimed_tasks.contains_key(id) implies after.remote_connections.contains_key(
        super::session::connection_key(id),
    ) by {
        let key = super::session::connection_key(id);
        assert(tasks.contains(id) && !gone.contains(id));
        assert(super::routing::key_of_one(key, tasks));
        if super::routing::key_of_one(key, gone) {
            let other = choose|other: Seq<char>| #[trigger]
                gone.contains(other) && key == super::session::connection_key(other);
            assert(key.skip("task:"@.len() as int) =~= id);
            assert(key.skip("task:"@.len() as int) =~= other);
        }
    }
    assert forall|k: Seq<char>| #[trigger]
        after.remote_connections.contains_key(k) implies super::routing::key_of_one(
        k,
        after.claimed_tasks.dom(),
    ) by {
        assert(super::routing::key_of_one(k, tasks) && !super::routing::key_of_one(k, gone));
        let id = choose|id: Seq<char>| #[trigger]
            tasks.contains(id) && k == super::session::connection_key(id);
        assert(!gone.contains(id));
        assert(after.claimed_tasks.dom().contains(id));
    }
}

/// An upkeep lets go exactly the tasks whose connection has failed for too long.
pub proof fn law_upkeep_gives_up_hopeless_tasks(
    s: HelperStateView,
    workers: Map<Seq<char>, Seq<char>>,
    now: u128,
    id: Seq<char>,
)
    requires
        s.claimed_tasks.contains_key(id),
    ensures
        super::connections::synced(s, workers, now).claimed_tasks.contains_key(id)
            == !super::connections::given_up(s, id, now),
{
}

/// An upkeep starts the connection of a task that has none, and starts one anew that is stale, with
/// what is known of its failures; every other connection of a task that is not given up stays as it
/// was, among them one that is connected and has nothing to retry.
pub proof fn law_upkeep_keeps_good_connections(
    s: HelperStateView,
    workers: Map<Seq<char>, Seq<char>>,
    now: u128,
    id: Seq<char>,
)
    requires
        s.claimed_tasks.contains_key(id),
        !super::connections::given_up(s, id, now),
    ensures
        ({
            let key = super::session::connection_key(id);
            let before = s.remote_connections[key];
            let after = super::connections::synced(s, workers, now).remote_connections;
            &&& after.contains_key(key)
            &&& !s.remote_connections.contains_key(key) ==> after[key].worker_id == workers[key]
                && after[key].retrying_since is None && after[key].consecutive_failures == 0
            &&& super::connections::restarted(s, id, now) ==> after[key].worker_id == workers[key]
                && after[key].retrying_since == before.retrying_since
                && after[key].consecutive_failures == before.consecutive_failures
            &&& s.remote_connections.contains_key(key) && !super::connections::restarted(
                s,
                id,
                now,
            ) ==> after[key] == before
            &&& s.remote_connections.contains_key(key) && before.connection_state
                == RemoteConnectionState::Connected && before.retrying_since is None
                ==> after[key] == before
        }),
{
    let key = super::session::connection_key(id);
    let tasks = s.claimed_tasks.dom();
    super::connections::lemma_key_of_task(id);
    assert(tasks.contains(id));
    assert(super::routing::key_of_one(key, tasks));
    assert(!super::routing::key_of_one(key, super::connections::all_given_up(s, now)));
}

/// An upkeep signals the worker of a connection to stop exactly where no task needs the connection,
/// where its task was given up and where it was started anew; signals that were not yet taken stay.
pub proof fn law_upkeep_stops_workers(
    s: HelperStateView,
    workers: Map<Seq<char>, Seq<char>>,
    now: u128,
    key: Seq<char>,
)
    ensures
        super::connections::synced(s, workers, now).stop_signals.contains(key) <==> {
            ||| s.stop_signals.contains(key)
            ||| s.remote_connections.contains_key(key) && (!super::routing::key_of_one(
                key,
                s.claimed_tasks.dom(),
            ) || super::connections::given_up(s, super::connections::id_of_key(key), now)
                || super::connections::restarted(s, super::connections::id_of_key(key), now))
        },
{
    let after = super::connections::synced(s, workers, now);
    let tasks = s.claimed_tasks.dom();
    let gone = super::connections::all_given_up(s, now);
    let id = super::connections::id_of_key(key);
    if super::routing::key_of_one(key, tasks) {
        let a = choose|a: Seq<char>| #[trigger]
            tasks.contains(a) && key == super::session::connection_key(a);
        super::connections::lemma_key_of_task(a);
        assert(id == a);
        if super::connections::given_up(s, a, now) {
            assert(gone.contains(a));
            assert(super::routing::key_of_one(key, gone));
        }
        if super::routing::key_of_one(key, gone) {
            let b = choose|b: Seq<char>| #[trigger]
                gone.contains(b) && key == super::session::connection_key(b);
            assert(b == a);
        }
    } else {
        if super::routing::key_of_one(key, gone) {
            let b = choose|b: Seq<char>| #[trigger]
                gone.contains(b) && key == super::session::connection_key(b);
            assert(tasks.contains(b));
        }
    }
}

/// When tasks are let go, the workers of their connections are signalled to stop, and no others are.
pub proof fn law_release_stops_workers(s: HelperStateView, ids: Set<Seq<char>>, key: Seq<char>)
    ensures
        super::routing::released(s, ids).stop_signals.contains(key) <==> {
            ||| s.stop_signals.contains(key)
            ||| s.remote_connections.contains_key(key) && super::routing::key_of_one(key, ids)
        },
{
}

/// A connection that was there before an upkeep and is not signalled to stop is there after it, run
/// by the same worker.
pub proof fn law_upkeep_keeps_workers_that_go_on(
    s: HelperStateView,
    workers: Map<Seq<char>, Seq<char>>,
    now: u128,
    key: Seq<char>,
)
    requires
        s.remote_connections.contains_key(key),
        !super::connections::synced(s, workers, now).stop_signals.contains(key),
    ensures
        ({
            let after = super::connections::synced(s, workers, now).remote_connections;
            after.contains_key(key) && after[key] == s.remote_connections[key]
        }),
{
    law_upkeep_stops_workers(s, workers, now, key);
    let id = super::connections::id_of_key(key);
    let a = choose|a: Seq<char>| #[trigger]
        s.claimed_tasks.dom().contains(a) && key == super::session::connection_key(a);
    super::connections::lemma_key_of_task(a);
    law_upkeep_keeps_good_connections(s, workers, now, id);
}

/// A connection is probed more often than an answer may take, and is started anew long before its task
/// is given up.
pub proof fn law_limits_are_in_order()
    ensures
        REMOTE_WS_PING_INTERVAL < REMOTE_WS_PONG_TIMEOUT,
        REMOTE_WS_STALE_RESTART_AFTER < REMOTE_WS_STALE_RELEASE_AFTER,
{
}

/// Where one plugin of a task is stopping, the task counts as stopping, whatever its other plugins do.
pub proof fn law_stopping_wins(
    instances: Map<Seq<char>, PluginInstanceView>,
    task_id: Seq<char>,
    key: Seq<char>,
    now: u128,
)
    requires
        instances.contains_key(key),
        instances[key].task_id == Some(task_id),
        super::session::current_session(instances[key], now) == Some("stopping"@),
    ensures
        super::session::task_session(instances, task_id, now) == "stopping"@,
{
    assert(super::session::of_task(instances[key], task_id));
}

/// Where the stop of one plugin of a task is under way, the task is told as stopping through and
/// through: its session, its control, its phase and the stop itself, whatever its other plugins do.
pub proof fn law_stop_under_way_is_told(s: HelperStateView, task_id: Seq<char>, key: Seq<char>, now: u128)
    requires
        s.instances.dom().finite(),
        s.instances.contains_key(key),
        s.instances[key].task_id == Some(task_id),
        super::session::active_stop(s.instances[key]) is Some,
    ensures
        ({
            let told = super::task_status::session_snapshot(s, task_id, now);
            &&& told.studio_session_state == "stopping"@
            &&& told.studio_control_state == "stopping"@
            &&& super::session::stopping_phase(told.studio_transition_phase)
            &&& told.active_stop_request_id is Some
        }),
{
    lemma_phases();
    assert(super::session::of_task(s.instances[key], task_id));
    law_stopping_wins(s.instances, task_id, key, now);
    crate::table::lemma_best_exists(
        s.instances,
        |k: Seq<char>, i: PluginInstanceView| super::session::of_task(i, task_id),
        |i: PluginInstanceView| super::session::stop_rank(i),
        true,
        key,
    );
    let top = super::session::stop_instance(s.instances, task_id)->0;
    assert(super::session::active_stop(s.instances[top]) is Some);
}

/// A task without a plugin is told apart from one whose plugin says nothing.
pub proof fn law_silence_is_not_absence(
    instances: Map<Seq<char>, PluginInstanceView>,
    task_id: Seq<char>,
    now: u128,
)
    ensures
        (super::session::task_session(instances, task_id, now) == "none_connected"@)
            == !super::session::some_instance(instances, task_id),
{
    reveal_strlit("none_connected");
    reveal_strlit("none_response");
    reveal_strlit("stopping");
    reveal_strlit("starting_play");
    reveal_strlit("play");
    reveal_strlit("stop");
    assert("none_connected"@.len() != "none_response"@.len());
    assert("none_connected"@.len() != "stopping"@.len());
    assert("none_connected"@.len() != "starting_play"@.len());
    assert("none_connected"@.len() != "play"@.len());
    assert("none_connected"@.len() != "stop"@.len());
}

} // verus!
