//! What a helper tells of the sessions of its plugins and how it stops and starts them, said of the
//! records of the plugins themselves.
use vstd::prelude::*;

use super::plugin::{
    CommandPollView, DeliveryView, PluginResponsePayloadView, PluginStopResultPayloadView,
    ReportReplyView,
};
use super::records::{ClaimedTaskView, HelperStateView, PluginInstanceView};

verus! {

/// The plugin said within the last two seconds that it can stop play.
pub open spec fn ready_to_stop(i: PluginInstanceView, now: u128) -> bool {
    &&& i.studio_control_state == "ready"@
    &&& i.studio_control_observed_at is Some
    &&& now - i.studio_control_observed_at->0 <= 2_000_000_000
}

/// A stop was asked for and is neither done nor failed.
pub open spec fn stopping(i: PluginInstanceView) -> bool {
    i.studio_transition_phase == "stopping_requested"@ || i.studio_transition_phase
        == "stopping_observed"@
}

/// The plugin serves in edit mode: it was heard of within the last five seconds and nothing is in the way.
pub open spec fn edits(i: PluginInstanceView, now: u128) -> bool {
    ||| i.edit_runtime_unavailable_reason == Some("ready"@)
    ||| {
        &&& i.edit_runtime_unavailable_reason is None
        &&& i.edit_runtime_observed_at is Some
        &&& now - i.edit_runtime_observed_at->0 <= 5_000_000_000
    }
}

/// What the plugin is and what waits for it is the same.
pub open spec fn same_plugin(a: PluginInstanceView, b: PluginInstanceView) -> bool {
    &&& a.place_id == b.place_id
    &&& a.task_id == b.task_id
    &&& a.remote_base_url == b.remote_base_url
    &&& a.studio_pid == b.studio_pid
    &&& a.studio_mode == b.studio_mode
    &&& a.studio_mode_observed_at == b.studio_mode_observed_at
    &&& a.studio_mode_source == b.studio_mode_source
    &&& a.queue == b.queue
}

/// The words for the phases and states are told apart.
proof fn lemma_words()
    ensures
        "running"@ != "error"@,
        "running"@ != "stopping_requested"@,
        "running"@ != "stopping_observed"@,
        "running"@ != "idle"@,
        "error"@ != "stopping_requested"@,
        "error"@ != "stopping_observed"@,
        "error"@ != "idle"@,
        "idle"@ != "stopping_requested"@,
        "idle"@ != "stopping_observed"@,
        "stopping_requested"@ != "stopping_observed"@,
        "ready"@ != "missing"@,
        "ready"@ != "stale"@,
        "ready"@ != "runtime"@,
        "missing"@ != "runtime"@,
        "stale"@ != "runtime"@,
        "observed"@ != "failed"@,
        "observed"@ != "completed"@,
        "none_connected"@ != "none_response"@,
        "none_connected"@ != "stopping"@,
        "none_connected"@ != "starting_play"@,
        "none_connected"@ != "play"@,
        "none_connected"@ != "stop"@,
        "none_response"@ != "stopping"@,
        "none_response"@ != "starting_play"@,
        "none_response"@ != "play"@,
        "none_response"@ != "stop"@,
        "stopping"@ != "starting_play"@,
        "stopping"@ != "play"@,
        "stopping"@ != "stop"@,
        "starting_play"@ != "play"@,
        "starting_play"@ != "stop"@,
        "play"@ != "stop"@,
{
    reveal_strlit("running");
    reveal_strlit("error");
    reveal_strlit("stopping_requested");
    reveal_strlit("stopping_observed");
    reveal_strlit("idle");
    reveal_strlit("ready");
    reveal_strlit("missing");
    reveal_strlit("stale");
    reveal_strlit("runtime");
    reveal_strlit("observed");
    reveal_strlit("failed");
    reveal_strlit("completed");
    reveal_strlit("none_connected");
    reveal_strlit("none_response");
    reveal_strlit("stopping");
    reveal_strlit("starting_play");
    reveal_strlit("play");
    reveal_strlit("stop");
    assert("running"@[0] != "error"@[0]);
    assert("running"@[0] != "idle"@[0]);
    assert("running"@.len() != "stopping_requested"@.len());
    assert("running"@.len() != "stopping_observed"@.len());
    assert("error"@.len() != "stopping_requested"@.len());
    assert("error"@.len() != "stopping_observed"@.len());
    assert("error"@[0] != "idle"@[0]);
    assert("idle"@.len() != "stopping_requested"@.len());
    assert("idle"@.len() != "stopping_observed"@.len());
    assert("stopping_requested"@.len() != "stopping_observed"@.len());
    assert("ready"@.len() != "missing"@.len());
    assert("ready"@[0] != "stale"@[0]);
    assert("ready"@.len() != "runtime"@.len());
    assert("missing"@[0] != "runtime"@[0]);
    assert("stale"@[0] != "runtime"@[0]);
    assert("observed"@[0] != "failed"@[0]);
    assert("observed"@[0] != "completed"@[0]);
    assert("none_connected"@.len() != "none_response"@.len());
    assert("none_connected"@[0] != "stopping"@[0]);
    assert("none_connected"@[0] != "starting_play"@[0]);
    assert("none_connected"@[0] != "play"@[0]);
    assert("none_connected"@[0] != "stop"@[0]);
    assert("none_response"@[0] != "stopping"@[0]);
    assert("none_response"@[0] != "starting_play"@[0]);
    assert("none_response"@[0] != "play"@[0]);
    assert("none_response"@[0] != "stop"@[0]);
    assert("stopping"@.len() != "starting_play"@.len());
    assert("stopping"@[0] != "play"@[0]);
    assert("stopping"@.len() != "stop"@.len());
    assert("starting_play"@[0] != "play"@[0]);
    assert("starting_play"@.len() != "stop"@.len());
    assert("play"@[0] != "stop"@[0]);
}

/// The session of a plugin: it is stopping while a stop is under way, starting while it is launched,
/// playing while the plugin can stop it, and stopped while the plugin serves in edit mode; otherwise the
/// plugin does not respond. The first that fits is told.
pub proof fn law_session_of_a_plugin(i: PluginInstanceView, now: u128)
    ensures
        ({
            let told = super::session::reported_session(i, now);
            let current = super::session::current_session(i, now);
            let launching = i.edit_runtime_unavailable_reason == Some("launching"@);
            &&& stopping(i) ==> told == "stopping"@ && current == Some("stopping"@)
            &&& !stopping(i) && launching ==> told == "starting_play"@ && current == Some(
                "starting_play"@,
            )
            &&& !stopping(i) && !launching && ready_to_stop(i, now) ==> told == "play"@ && current
                == Some("play"@)
            &&& !stopping(i) && !launching && !ready_to_stop(i, now) ==> current is None && told
                == if edits(i, now) {
                "stop"@
            } else {
                "none_response"@
            }
        }),
{
    lemma_words();
}

/// The phase of a plugin is the one that was set, but that a plugin that can stop play counts as running
/// unless it is stopping or has failed; and what it controls follows the phase.
pub proof fn law_phase_and_control(i: PluginInstanceView, now: u128)
    ensures
        ({
            let phase = super::session::effective_phase(i, now);
            let control = super::session::effective_control(i, now);
            let failed = i.studio_transition_phase == "error"@;
            let ready = ready_to_stop(i, now);
            &&& failed ==> phase == "error"@ && control == "lost"@
            &&& stopping(i) ==> phase == i.studio_transition_phase && control == "stopping"@
            &&& !failed && !stopping(i) && ready ==> phase == "running"@ && control == "ready"@
            &&& !failed && !stopping(i) && !ready ==> phase == i.studio_transition_phase && control
                == if i.studio_control_state == "none"@ && i.studio_transition_phase == "idle"@ {
                "none"@
            } else {
                "lost"@
            }
        }),
{
    lemma_words();
}

/// The edit mode of a plugin is what stands in its way, else whether it was heard of in the last five
/// seconds, longer ago, or never.
pub proof fn law_edit_mode_of_a_plugin(i: PluginInstanceView, now: u128)
    ensures
        ({
            let told = super::session::edit_state(i, now);
            &&& i.edit_runtime_unavailable_reason matches Some(reason) ==> told == reason
            &&& i.edit_runtime_unavailable_reason is None ==> match i.edit_runtime_observed_at {
                None => told == "missing"@,
                Some(at) => told == if now - at <= 5_000_000_000 {
                    "ready"@
                } else {
                    "stale"@
                },
            }
            &&& told == "ready"@ <==> edits(i, now)
        }),
{
    lemma_words();
}

/// Some plugin of the task meets the test.
pub open spec fn some_plugin(
    instances: Map<Seq<char>, PluginInstanceView>,
    task_id: Seq<char>,
    test: spec_fn(PluginInstanceView) -> bool,
) -> bool {
    exists|k: Seq<char>| #[trigger]
        instances.contains_key(k) && instances[k].task_id == Some(task_id) && test(instances[k])
}

/// The session of a task is that of its plugins: stopping before starting before playing; it counts as
/// stopped only where a plugin serves in edit mode and none is taken up by a runtime.
pub proof fn law_session_of_a_task(
    instances: Map<Seq<char>, PluginInstanceView>,
    task_id: Seq<char>,
    now: u128,
)
    ensures
        ({
            let told = super::session::task_session(instances, task_id, now);
            let any = some_plugin(instances, task_id, |i: PluginInstanceView| true);
            let stops = some_plugin(instances, task_id, |i: PluginInstanceView| stopping(i));
            let starts = some_plugin(
                instances,
                task_id,
                |i: PluginInstanceView|
                    !stopping(i) && i.edit_runtime_unavailable_reason == Some("launching"@),
            );
            let plays = some_plugin(
                instances,
                task_id,
                |i: PluginInstanceView|
                    !stopping(i) && i.edit_runtime_unavailable_reason != Some("launching"@)
                        && ready_to_stop(i, now),
            );
            let busy = some_plugin(
                instances,
                task_id,
                |i: PluginInstanceView| i.edit_runtime_unavailable_reason == Some("runtime"@),
            );
            let edited = some_plugin(instances, task_id, |i: PluginInstanceView| edits(i, now));
            &&& told == "none_connected"@ <==> !any
            &&& told == "stopping"@ <==> stops
            &&& told == "starting_play"@ <==> starts && !stops
            &&& told == "play"@ <==> plays && !starts && !stops
            &&& told == "stop"@ <==> edited && !busy && !plays && !starts && !stops
            &&& any && !stops && !starts && !plays && (busy || !edited) ==> told == "none_response"@
        }),
{
    lemma_words();
    assert forall|k: Seq<char>| #[trigger] instances.contains_key(k) implies {
        let i = instances[k];
        &&& super::session::current_session(i, now) == Some("stopping"@) <==> stopping(i)
        &&& super::session::current_session(i, now) == Some("starting_play"@) <==> !stopping(i)
            && i.edit_runtime_unavailable_reason == Some("launching"@)
        &&& super::session::current_session(i, now) == Some("play"@) <==> !stopping(i)
            && i.edit_runtime_unavailable_reason != Some("launching"@) && ready_to_stop(i, now)
        &&& super::session::edit_state(i, now) == "ready"@ <==> edits(i, now)
        &&& super::session::edit_state(i, now) == "runtime"@ <==> i.edit_runtime_unavailable_reason
            == Some("runtime"@)
    } by {
        law_session_of_a_plugin(instances[k], now);
        law_edit_mode_of_a_plugin(instances[k], now);
    }
    let stops = |i: PluginInstanceView| stopping(i);
    assert(some_plugin(instances, task_id, stops) <==> super::session::some_session(
        instances,
        task_id,
        "stopping"@,
        now,
    ));
}

/// A stop that is asked for is new: it takes the next number, waits to be handed out and has no result
/// yet; the plugin is stopping from then on, and stays what it is.
pub proof fn law_stop_is_recorded(i: PluginInstanceView, now: u128)
    ensures
        ({
            let after = super::session::stop_recorded(i, now);
            &&& i.stop_request_id < u64::MAX ==> after.stop_request_id == i.stop_request_id + 1
            &&& i.stop_request_id == u64::MAX ==> after.stop_request_id == u64::MAX
            &&& after.studio_transition_phase == "stopping_requested"@
            &&& i.studio_transition_phase != "stopping_requested"@
                ==> after.studio_transition_started_at == Some(now)
            &&& after.studio_control_state == "stopping"@
            &&& after.studio_control_last_error is None
            &&& after.studio_control_observed_at == i.studio_control_observed_at
            &&& after.edit_runtime_unavailable_reason == Some("stopping"@)
            &&& after.edit_runtime_observed_at == i.edit_runtime_observed_at
            &&& after.stop_request_recorded_at == Some(now)
            &&& after.stop_request_last_polled_at is None
            &&& after.stop_request_last_poll_id is None
            &&& after.stop_result_phase is None
            &&& after.stop_result_error is None
            &&& after.stop_result_observed_at is None
            &&& after.last_seen_at == now
            &&& same_plugin(after, i)
        }),
{
    lemma_words();
}

/// A stop is handed to the plugin that asks for it while it is new to it and waits to be taken up; that it
/// asked is remembered, with the number that it now knows, and nothing else changes.
pub proof fn law_stop_is_handed_out(i: PluginInstanceView, after_id: Option<u64>, now: u128)
    ensures
        ({
            let handed = super::plugin::stop_deliverable(i, after_id);
            let after = super::plugin::stop_polled(i, after_id, now);
            let known: u64 = match after_id {
                Some(id) => id,
                None => 0,
            };
            &&& handed <==> i.stop_request_id > known && i.studio_transition_phase
                == "stopping_requested"@
            &&& after.stop_request_last_polled_at == Some(now)
            &&& after.stop_request_last_poll_id == Some(
                if handed {
                    i.stop_request_id
                } else {
                    known
                },
            )
            &&& after == (PluginInstanceView {
                stop_request_last_polled_at: after.stop_request_last_polled_at,
                stop_request_last_poll_id: after.stop_request_last_poll_id,
                ..i
            })
        }),
{
}

/// What a plugin says of a stop counts only for the stop that is under way. That it was observed keeps the
/// plugin stopping; that it failed ends the stop with an error that says so.
pub proof fn law_stop_result_is_taken(
    i: PluginInstanceView,
    stop_request_id: u64,
    phase: Seq<char>,
    error: Option<Seq<char>>,
    now: u128,
)
    ensures
        ({
            let step = super::plugin::stop_result_step(i, stop_request_id, phase, error, now);
            let after = step.0;
            let current = i.stop_request_id == stop_request_id && stopping(i);
            let message = "runtime_stop_failed: play runtime failed to execute stop_request_id="@
                + crate::text::decimal(stop_request_id as nat) + ": "@ + match error {
                Some(text) => text,
                None => "unknown runtime stop failure"@,
            };
            &&& !current ==> step.1 is Ignored && after == i
            &&& current && phase == "observed"@ ==> {
                &&& step.1 == ReportReplyView::Taken(
                    if i.studio_transition_phase == "stopping_requested"@ {
                        i.task_id
                    } else {
                        None
                    },
                )
                &&& after.studio_transition_phase == "stopping_observed"@
                &&& i.studio_transition_phase != "stopping_observed"@
                    ==> after.studio_transition_started_at == Some(now)
                &&& after.studio_control_state == "stopping"@
                &&& after.studio_control_last_error is None
                &&& after.stop_result_phase == Some("observed"@)
                &&& after.stop_result_error is None
                &&& after.stop_result_observed_at == Some(now)
                &&& after.stop_request_id == i.stop_request_id
                &&& after.edit_runtime_unavailable_reason == i.edit_runtime_unavailable_reason
                &&& after.studio_control_observed_at == i.studio_control_observed_at
                &&& after.last_seen_at == now
                &&& same_plugin(after, i)
            }
            &&& current && phase == "failed"@ ==> {
                &&& step.1 == ReportReplyView::Taken(i.task_id)
                &&& after.studio_transition_phase == "error"@
                &&& after.studio_transition_started_at == Some(now)
                &&& after.studio_control_state == "lost"@
                &&& after.studio_control_observed_at is None
                &&& after.studio_control_last_error == Some(message)
                &&& after.stop_result_phase == Some("failed"@)
                &&& after.stop_result_error == Some(message)
                &&& after.stop_result_observed_at == Some(now)
                &&& after.stop_request_id == i.stop_request_id
                &&& after.edit_runtime_unavailable_reason == i.edit_runtime_unavailable_reason
                &&& after.last_seen_at == now
                &&& same_plugin(after, i)
            }
            &&& current && phase != "observed"@ && phase != "failed"@ ==> step.1 is Invalid && after
                == i
        }),
{
    lemma_words();
}

/// A stop that takes too long ends with an error that says so: the plugin has failed and is taken up by
/// its runtime.
pub proof fn law_late_stop_fails(
    i: PluginInstanceView,
    stop_request_id: u64,
    detail: Seq<char>,
    now: u128,
)
    ensures
        ({
            let after = super::session::stop_timed_out(i, stop_request_id, detail, now);
            let message = "runtime_stop_timeout: stop_request_id="@ + crate::text::decimal(
                stop_request_id as nat,
            ) + " "@ + detail;
            &&& after.studio_transition_phase == "error"@
            &&& i.studio_transition_phase != "error"@ ==> after.studio_transition_started_at == Some(
                now,
            )
            &&& after.studio_control_state == "lost"@
            &&& after.studio_control_last_error == Some(message)
            &&& after.stop_result_phase == Some("failed"@)
            &&& after.stop_result_error == Some(message)
            &&& after.stop_result_observed_at == Some(now)
            &&& after.edit_runtime_unavailable_reason == Some("runtime"@)
            &&& after.stop_request_id == i.stop_request_id
            &&& after.last_seen_at == now
            &&& same_plugin(after, i)
        }),
{
    lemma_words();
}

/// A plugin that says that play runs is heard of, and runs from then on unless it is stopping or has
/// failed; a phase that is left is timed anew.
pub proof fn law_control_is_heard(i: PluginInstanceView, now: u128)
    ensures
        ({
            let after = super::plugin::control_heard(i, now);
            let failed = i.studio_transition_phase == "error"@;
            &&& after.studio_control_observed_at == Some(now)
            &&& after.last_seen_at == now
            &&& same_plugin(after, i)
            &&& after.edit_runtime_observed_at == i.edit_runtime_observed_at
            &&& after.stop_request_id == i.stop_request_id
            &&& after.stop_result_phase == i.stop_result_phase
            &&& failed || stopping(i) ==> {
                &&& after.studio_transition_phase == i.studio_transition_phase
                &&& after.studio_transition_started_at == i.studio_transition_started_at
                &&& after.studio_control_last_error == i.studio_control_last_error
                &&& after.edit_runtime_unavailable_reason == i.edit_runtime_unavailable_reason
            }
            &&& failed ==> after.studio_control_state == "lost"@
            &&& stopping(i) ==> after.studio_control_state == "stopping"@
            &&& !failed && !stopping(i) ==> {
                &&& after.studio_control_state == "ready"@
                &&& after.studio_control_last_error is None
                &&& after.edit_runtime_unavailable_reason == Some("runtime"@)
                &&& after.studio_transition_phase == "running"@
                &&& i.studio_transition_phase != "running"@
                    ==> after.studio_transition_started_at is None
            }
        }),
{
    lemma_words();
}

/// A report that play runs is taken from a plugin that is there and in a mode that runs; the status of its
/// task is sent on where it did not run, or was not ready, before.
pub proof fn law_control_report_is_judged(
    s: HelperStateView,
    instance_id: Seq<char>,
    mode: Seq<char>,
    now: u128,
)
    ensures
        ({
            let reply = super::plugin::control_reply(s, instance_id, mode, now);
            let word = crate::text::trimmed(mode);
            let runs = word == "start_play"@ || word == "run_server"@;
            let i = s.instances[instance_id];
            let known = s.instances.contains_key(instance_id);
            &&& !runs && word != "stop"@ && word != "unknown"@ ==> reply == ReportReplyView::Invalid(
                "invalid studio mode"@,
            )
            &&& !runs && (word == "stop"@ || word == "unknown"@) ==> reply == ReportReplyView::Invalid(
                "control heartbeat requires a running mode"@,
            )
            &&& runs && !known ==> reply is Expired
            &&& runs && known ==> reply == ReportReplyView::Taken(
                if i.studio_transition_phase != "error"@ && !stopping(i) && ready_to_stop(i, now) {
                    None
                } else {
                    i.task_id
                },
            )
        }),
{
    lemma_words();
    law_phase_and_control(s.instances[instance_id], now);
    reveal_strlit("lost");
    reveal_strlit("ready");
    reveal_strlit("stopping");
    reveal_strlit("none");
    assert("lost"@.len() != "ready"@.len());
    assert("stopping"@.len() != "ready"@.len());
    assert("none"@.len() != "ready"@.len());
}

/// A plugin that reports from edit mode is heard of. A stop that it observed is done once two seconds went
/// by without a word of play; until then it stops on. A session that it launched or ran is over once play
/// fell silent; while it is launched, nothing changes. Otherwise nothing stands in the way of edit mode.
pub proof fn law_edit_is_heard(i: PluginInstanceView, now: u128)
    ensures
        ({
            let after = super::plugin::edit_heard(i, now);
            let asked = i.stop_request_id > 0 && stopping(i);
            let silent = i.studio_control_observed_at is None || now
                - i.studio_control_observed_at->0 > 2_000_000_000;
            let done = asked && i.stop_result_phase == Some("observed"@) && silent;
            let reason = i.edit_runtime_unavailable_reason;
            let ran = reason == Some("launch_failed"@) || reason == Some("runtime"@);
            let over = !asked && ran && silent && i.studio_control_observed_at is Some;
            &&& after.last_seen_at == now
            &&& after.edit_runtime_observed_at == Some(now)
            &&& same_plugin(after, i)
            &&& after.stop_request_id == i.stop_request_id
            &&& done || over ==> {
                &&& after.studio_transition_phase == "idle"@
                &&& after.studio_control_state == "none"@
                &&& after.studio_control_observed_at is None
                &&& after.studio_control_last_error is None
                &&& after.edit_runtime_unavailable_reason is None
                &&& i.studio_transition_phase != "idle"@
                    ==> after.studio_transition_started_at is None
            }
            &&& done ==> after.stop_result_phase == Some("completed"@)
                && after.stop_result_error is None && after.stop_result_observed_at == Some(now)
            &&& !done ==> after.stop_result_phase == i.stop_result_phase && after.stop_result_error
                == i.stop_result_error && after.stop_result_observed_at == i.stop_result_observed_at
            &&& !done && !over ==> {
                &&& after.studio_transition_phase == i.studio_transition_phase
                &&& after.studio_control_state == i.studio_control_state
                &&& after.studio_control_observed_at == i.studio_control_observed_at
                &&& after.studio_control_last_error == i.studio_control_last_error
            }
            &&& asked && !done ==> after.edit_runtime_unavailable_reason == Some("stopping"@)
            &&& !asked && !over && (ran || reason == Some("launching"@))
                ==> after.edit_runtime_unavailable_reason == reason
            &&& !asked && !ran && reason != Some("launching"@)
                ==> after.edit_runtime_unavailable_reason is None
        }),
{
    lemma_words();
    reveal_strlit("launching");
    reveal_strlit("launch_failed");
    reveal_strlit("runtime");
    assert("launching"@.len() != "launch_failed"@.len());
    assert("launching"@.len() != "runtime"@.len());
}

/// A plugin that registers serves the claim that it was routed to: at the claim's place, for the claim's
/// task, with the tools that the claim names; nothing was seen of it but that it is there, in edit mode.
pub proof fn law_newcomer_serves_its_claim(
    s: HelperStateView,
    instance_id: Seq<char>,
    place_id: Seq<char>,
    task: ClaimedTaskView,
    studio_pid: Option<u32>,
    other: Seq<char>,
    now: u128,
)
    ensures
        ({
            let after = super::plugin::registered(s, instance_id, place_id, task, studio_pid, now);
            let i = after.instances[instance_id];
            &&& after.instances.contains_key(instance_id)
            &&& i.place_id == place_id
            &&& i.task_id == Some(task.task_id)
            &&& i.remote_base_url == task.mcp_base_url
            &&& i.studio_pid == studio_pid
            &&& i.last_seen_at == now
            &&& i.edit_runtime_observed_at == Some(now)
            &&& i.edit_runtime_unavailable_reason is None
            &&& i.studio_control_state == "none"@
            &&& i.studio_control_observed_at is None
            &&& i.studio_control_last_error is None
            &&& i.studio_transition_phase == "idle"@
            &&& i.stop_request_id == 0
            &&& i.stop_result_phase is None
            &&& i.queue.len() == 0
            &&& i.studio_mode is None
            &&& other != instance_id ==> after.instances.contains_key(other)
                == s.instances.contains_key(other) && after.instances[other] == s.instances[other]
            &&& after.claimed_tasks == s.claimed_tasks
            &&& studio_pid matches Some(pid) ==> after.launch_processes.contains_key(task.task_id)
                && after.launch_processes[task.task_id].studio_pid == pid
            &&& studio_pid is None ==> after.launch_processes == s.launch_processes
        }),
{
}

/// A plugin is told whom it serves: its own number, the claim's task and tools and, where the claim takes
/// logs, the helper's own address for them.
pub proof fn law_registration_tells_the_claim(
    instance_id: Seq<char>,
    place_id: Seq<char>,
    task: ClaimedTaskView,
    port: u16,
)
    ensures
        ({
            let told = super::plugin::registration(instance_id, place_id, task, port);
            &&& told.instance_id == instance_id
            &&& told.place_id == place_id
            &&& told.task_id == Some(task.task_id)
            &&& told.remote_base_url == task.mcp_base_url
            &&& told.runtime_log_upload_url is Some <==> task.runtime_log_base_url is Some
            &&& told.runtime_log_upload_url matches Some(url) ==> url == "http://127.0.0.1:"@
                + crate::text::decimal(port as nat) + "/"@ + "runtime-log-forward"@ + "/"@ + place_id
                + "/task/"@ + task.task_id + "/v1/runtime-logs"@
        }),
{
}

/// A plugin that leaves is gone; all others stay. What was noted against its place goes with the last
/// plugin there.
pub proof fn law_leaving_plugin_is_gone(s: HelperStateView, instance_id: Seq<char>, other: Seq<char>)
    ensures
        ({
            let after = super::plugin::unregistered(s, instance_id);
            let place = s.instances[instance_id].place_id;
            let last = s.instances.contains_key(instance_id) && forall|k: Seq<char>| #[trigger]
                s.instances.contains_key(k) && k != instance_id ==> s.instances[k].place_id
                    != place;
            &&& !after.instances.contains_key(instance_id)
            &&& other != instance_id ==> after.instances.contains_key(other)
                == s.instances.contains_key(other) && after.instances[other] == s.instances[other]
            &&& after.last_remote_errors.contains_key(other) <==> s.last_remote_errors.contains_key(
                other,
            ) && !(last && other == place)
            &&& after.last_remote_errors.contains_key(other) ==> after.last_remote_errors[other]
                == s.last_remote_errors[other]
            &&& after.claimed_tasks == s.claimed_tasks
            &&& after.launch_processes == s.launch_processes
            &&& after.remote_connections == s.remote_connections
            &&& after.waiting_for_plugin == s.waiting_for_plugin
        }),
{
    let left = HelperStateView { instances: s.instances.remove(instance_id), ..s };
    let place = s.instances[instance_id].place_id;
    if super::plugin::place_served(left, place) {
        let k = choose|k: Seq<char>| #[trigger]
            left.instances.contains_key(k) && left.instances[k].place_id == place;
        assert(s.instances.contains_key(k) && k != instance_id);
    } else {
        assert forall|k: Seq<char>| #[trigger]
            s.instances.contains_key(k) && k != instance_id implies s.instances[k].place_id
            != place by {
            assert(left.instances.contains_key(k));
        }
    }
}

/// An answer reaches the one who waits for it only where it comes from the plugin that was asked, and then
/// nobody waits for it any more; who waits for other answers waits on.
pub proof fn law_answers_reach_those_who_wait(
    s: HelperStateView,
    payload: PluginResponsePayloadView,
    other: Seq<char>,
)
    ensures
        ({
            let after = super::plugin::answered(s, payload);
            let asked = s.waiting_for_plugin[payload.id].instance_id;
            let fits = s.waiting_for_plugin.contains_key(payload.id) && payload.instance_id == Some(
                asked,
            );
            &&& super::plugin::delivery(s, payload) is Delivered <==> fits
            &&& super::plugin::delivery(s, payload) matches DeliveryView::Delivered(task) ==> task
                == if s.instances.contains_key(asked) {
                s.instances[asked].task_id
            } else {
                None
            }
            &&& after.waiting_for_plugin.contains_key(other) <==> s.waiting_for_plugin.contains_key(
                other,
            ) && !(fits && other == payload.id)
            &&& after.waiting_for_plugin.contains_key(other) ==> after.waiting_for_plugin[other]
                == s.waiting_for_plugin[other]
            &&& after.instances == s.instances
            &&& after.claimed_tasks == s.claimed_tasks
        }),
{
}

/// A stop is asked of a plugin that is there and has said within the last two seconds that it can stop; the
/// stop is then recorded with that plugin, under the next number, and told with its place and task. Else it
/// is refused, and nothing changes.
pub proof fn law_stop_is_asked_of_a_plugin(
    s: HelperStateView,
    instance_id: Seq<char>,
    other: Seq<char>,
    now: u128,
)
    ensures
        ({
            let step = super::plugin::stop_asked(s, instance_id, now);
            let after = step.0;
            let i = s.instances[instance_id];
            let there = s.instances.contains_key(instance_id);
            &&& step.1 is Ok <==> there && ready_to_stop(i, now)
            &&& !there ==> step.1 is Err && step.1->Err_0.0 == 400
            &&& there && !ready_to_stop(i, now) ==> step.1 is Err && step.1->Err_0.0 == 409
            &&& step.1 is Err ==> after == s
            &&& step.1 matches Ok(recorded) ==> {
                &&& recorded.place_id == i.place_id
                &&& recorded.task_id == i.task_id
                &&& i.stop_request_id < u64::MAX ==> recorded.stop_request_id == i.stop_request_id
                    + 1
                &&& after.instances.contains_key(instance_id)
                &&& after.instances[instance_id].stop_request_id == recorded.stop_request_id
                &&& after.instances[instance_id].studio_transition_phase == "stopping_requested"@
            }
            &&& other != instance_id ==> after.instances.contains_key(other)
                == s.instances.contains_key(other) && after.instances[other] == s.instances[other]
            &&& after == (HelperStateView { instances: after.instances, ..s })
        }),
{
}

/// A plugin that asks whether it is to stop is told its own stop; one that is not there is told nothing.
pub proof fn law_stop_is_told_to_its_plugin(
    s: HelperStateView,
    instance_id: Seq<char>,
    after_id: Option<u64>,
    other: Seq<char>,
    now: u128,
)
    ensures
        ({
            let step = super::plugin::stop_poll(s, instance_id, after_id, now);
            let i = s.instances[instance_id];
            let known: u64 = match after_id {
                Some(id) => id,
                None => 0,
            };
            &&& step.1 is Some <==> s.instances.contains_key(instance_id)
            &&& step.1 is None ==> step.0 == s
            &&& step.1 matches Some(told) ==> {
                &&& told.stop_requested <==> i.stop_request_id > known && i.studio_transition_phase
                    == "stopping_requested"@
                &&& told.stop_request_id == i.stop_request_id
                &&& told.task_id == i.task_id
                &&& step.0.instances.contains_key(instance_id)
                &&& step.0.instances[instance_id].stop_request_last_polled_at == Some(now)
            }
            &&& other != instance_id ==> step.0.instances.contains_key(other)
                == s.instances.contains_key(other) && step.0.instances[other] == s.instances[other]
            &&& step.0 == (HelperStateView { instances: step.0.instances, ..s })
        }),
{
}

/// A plugin that asks for its next command is seen, and is handed the first of those that wait for it,
/// which then waits no more; the rest keep their order.
pub proof fn law_commands_are_handed_out(
    s: HelperStateView,
    instance_id: Seq<char>,
    other: Seq<char>,
    now: u128,
)
    ensures
        ({
            let step = super::plugin::command_poll(s, instance_id, now);
            let i = s.instances[instance_id];
            let a = step.0.instances[instance_id];
            let there = s.instances.contains_key(instance_id);
            &&& step.1 is Expired <==> !there
            &&& step.1 is Waiting <==> there && i.queue.len() == 0
            &&& step.1 is Expired ==> step.0 == s
            &&& there ==> step.0.instances.contains_key(instance_id) && a.last_seen_at == now
                && a.stop_request_id == i.stop_request_id && a.studio_transition_phase
                == i.studio_transition_phase && a.task_id == i.task_id && a.place_id == i.place_id
            &&& step.1 matches CommandPollView::Command(command) ==> seq![command] + a.queue
                == i.queue
            &&& step.1 is Waiting ==> a.queue.len() == 0
            &&& other != instance_id ==> step.0.instances.contains_key(other)
                == s.instances.contains_key(other) && step.0.instances[other] == s.instances[other]
            &&& step.0 == (HelperStateView { instances: step.0.instances, ..s })
        }),
{
    let i = s.instances[instance_id];
    if i.queue.len() > 0 {
        assert(seq![i.queue[0]] + i.queue.drop_first() =~= i.queue);
    }
}

/// What a plugin reports is noted with that plugin and no other, and only where the plugin is there.
pub proof fn law_reports_are_noted_with_their_plugin(
    s: HelperStateView,
    instance_id: Seq<char>,
    mode: Seq<char>,
    payload: PluginStopResultPayloadView,
    other: Seq<char>,
    now: u128,
)
    requires
        payload.instance_id == instance_id,
        other != instance_id,
    ensures
        ({
            let control = super::plugin::control_reported(s, instance_id, mode, now);
            let edit = super::plugin::edit_reported(s, instance_id, now);
            let stop = super::plugin::stop_reported(s, payload, now);
            let there = s.instances.contains_key(instance_id);
            let word = crate::text::trimmed(mode);
            let heard = there && (word == "start_play"@ || word == "run_server"@);
            &&& heard ==> control.instances.contains_key(instance_id)
                && control.instances[instance_id] == super::plugin::control_heard(
                s.instances[instance_id],
                now,
            )
            &&& !heard ==> control == s
            &&& there ==> edit.1 == ReportReplyView::Taken(s.instances[instance_id].task_id)
                && edit.0.instances.contains_key(instance_id) && edit.0.instances[instance_id]
                == super::plugin::edit_heard(s.instances[instance_id], now)
            &&& !there ==> edit.1 is Expired && edit.0 == s && stop.1 is Expired && stop.0 == s
            &&& there ==> stop.0.instances.contains_key(instance_id) && (
            stop.0.instances[instance_id], stop.1) == super::plugin::stop_result_step(
                s.instances[instance_id],
                payload.stop_request_id,
                payload.phase,
                payload.error,
                now,
            )
            &&& control.instances.contains_key(other) == s.instances.contains_key(other)
            &&& edit.0.instances.contains_key(other) == s.instances.contains_key(other)
            &&& stop.0.instances.contains_key(other) == s.instances.contains_key(other)
            &&& control.instances[other] == s.instances[other]
            &&& edit.0.instances[other] == s.instances[other]
            &&& stop.0.instances[other] == s.instances[other]
            &&& control == (HelperStateView { instances: control.instances, ..s })
            &&& edit.0 == (HelperStateView { instances: edit.0.instances, ..s })
            &&& stop.0 == (HelperStateView { instances: stop.0.instances, ..s })
        }),
{
    law_control_report_is_judged(s, instance_id, mode, now);
}

/// A plugin whose launch was answered is taken up by its runtime, or by the failure to launch it.
pub proof fn law_launch_is_settled(
    s: HelperStateView,
    instance_id: Seq<char>,
    success: bool,
    other: Seq<char>,
)
    ensures
        ({
            let step = super::commands::launch_settled(s, instance_id, success);
            let i = s.instances[instance_id];
            let a = step.0.instances[instance_id];
            let there = s.instances.contains_key(instance_id);
            &&& there ==> step.1 == i.task_id && step.0.instances.contains_key(instance_id)
            &&& there && success ==> a.edit_runtime_unavailable_reason == Some("runtime"@)
            &&& there && !success ==> a.edit_runtime_unavailable_reason == Some("launch_failed"@)
            &&& there ==> a == (PluginInstanceView {
                edit_runtime_unavailable_reason: a.edit_runtime_unavailable_reason,
                ..i
            })
            &&& !there ==> step.1 is None && step.0 == s
            &&& other != instance_id ==> step.0.instances.contains_key(other)
                == s.instances.contains_key(other) && step.0.instances[other] == s.instances[other]
            &&& step.0 == (HelperStateView { instances: step.0.instances, ..s })
        }),
{
}

/// A stop has two and a half minutes; one that took longer fails its plugin where it is still the last stop
/// there, and the plugin's task is told of then.
pub proof fn law_stop_is_given_up(
    s: HelperStateView,
    instance_id: Seq<char>,
    stop_request_id: u64,
    begun_at: u128,
    other: Seq<char>,
    now: u128,
)
    ensures
        ({
            let step = super::commands::stop_given_up(s, instance_id, stop_request_id, now);
            let i = s.instances[instance_id];
            let a = step.0.instances[instance_id];
            let last = s.instances.contains_key(instance_id) && i.stop_request_id
                == stop_request_id;
            &&& super::commands::waited_out(begun_at, now) <==> now - begun_at >= 150_000_000_000
            &&& last ==> step.1 == i.task_id && step.0.instances.contains_key(instance_id)
                && a.studio_transition_phase == "error"@ && a.stop_result_phase == Some("failed"@)
                && a.studio_control_state == "lost"@ && a.edit_runtime_unavailable_reason == Some(
                "runtime"@,
            ) && a.stop_result_error is Some && same_plugin(a, i)
            &&& !last ==> step.1 is None && step.0 == s
            &&& other != instance_id ==> step.0.instances.contains_key(other)
                == s.instances.contains_key(other) && step.0.instances[other] == s.instances[other]
            &&& step.0 == (HelperStateView { instances: step.0.instances, ..s })
        }),
{
}

/// A newcomer has no past: no mode, no stop and no result is known of it.
pub proof fn law_newcomer_has_no_past(
    place_id: Seq<char>,
    task: ClaimedTaskView,
    studio_pid: Option<u32>,
    now: u128,
)
    ensures
        ({
            let i = super::plugin::newcomer(place_id, task, studio_pid, now);
            &&& i.studio_mode is None
            &&& i.studio_mode_observed_at is None
            &&& i.studio_mode_source == "none"@
            &&& i.studio_transition_started_at is None
            &&& i.studio_control_observed_at is None
            &&& i.studio_control_last_error is None
            &&& i.stop_request_id == 0
            &&& i.stop_request_recorded_at is None
            &&& i.stop_request_last_polled_at is None
            &&& i.stop_request_last_poll_id is None
            &&& i.stop_result_phase is None
            &&& i.stop_result_error is None
            &&& i.stop_result_observed_at is None
            &&& i.queue.len() == 0
        }),
{
}

/// A stop that is recorded is told with the plugin's place and task, under the number that the plugin then
/// bears.
pub proof fn law_recorded_stop_is_told(i: PluginInstanceView, now: u128)
    ensures
        ({
            let told = super::session::stop_told(i);
            &&& told.place_id == i.place_id
            &&& told.task_id == i.task_id
            &&& told.stop_request_id == super::session::stop_recorded(i, now).stop_request_id
            &&& i.stop_request_id < u64::MAX ==> told.stop_request_id == i.stop_request_id + 1
        }),
{
}

} // verus!
