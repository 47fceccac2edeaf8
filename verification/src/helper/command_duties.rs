//! How commands reach the plugins and what comes of them, said of the records of the plugins themselves.
use vstd::prelude::*;

use super::commands::{
    CommandKind, LiveStudioSessionStateView, PluginStudioSessionStatePayloadView, StopDecisionView,
    StopProgressView,
};
use super::duties::stands;
use super::records::{HelperStateView, PluginCommandView, PluginInstanceView};
use super::session_duties::{edits, ready_to_stop};

verus! {

/// A command says who it is and, first of its arguments, what it is for; one that lacks either is at fault.
pub proof fn law_commands_name_their_tool(command: PluginCommandView)
    ensures
        ({
            let id = super::commands::command_id(command);
            let tool = super::commands::command_tool(command);
            let fault = super::commands::command_fault(command);
            &&& id is Ok <==> command.id is Some
            &&& id matches Ok(text) ==> Some(text) == command.id
            &&& tool is Ok <==> command.args is Some && command.args->0.len() > 0
            &&& tool matches Ok(arg) ==> arg.name == command.args->0[0].name && arg.payload
                == command.args->0[0].payload
            &&& fault is None <==> command.id is Some && command.args is Some
                && command.args->0.len() > 0
        }),
{
}

/// A tool that launches or stops a session has two and a half minutes, any other has one.
pub proof fn law_tools_have_their_time(tool: Seq<char>)
    ensures
        ({
            let control = tool == "LaunchStudioSession"@ || tool == "StartStopPlay"@ || tool
                == "launch_studio_session"@ || tool == "start_stop_play"@;
            let ms: nat = if control {
                150_000
            } else {
                60_000
            };
            &&& super::commands::controls_session(tool) <==> control
            &&& super::commands::tool_timeout(tool) == ms * 1_000_000
            &&& super::commands::late_message(tool) == "timed out waiting "@ + crate::text::decimal(
                ms,
            ) + "ms for local plugin response to "@ + tool
        }),
{
}

/// Each tool is known by two names; the rest is for the plugins.
pub proof fn law_tools_are_told_apart(tool: Seq<char>)
    ensures
        ({
            let kind = super::commands::kind_of_tool(tool);
            &&& kind == CommandKind::TakeScreenshot <==> tool == "TakeScreenshot"@ || tool
                == "take_screenshot"@
            &&& kind == CommandKind::ReadStudioLog <==> tool == "ReadStudioLog"@ || tool
                == "read_studio_log"@
            &&& kind == CommandKind::StopPlay <==> tool == "StartStopPlay"@ || tool
                == "start_stop_play"@
            &&& kind == CommandKind::LaunchSession <==> tool == "LaunchStudioSession"@ || tool
                == "launch_studio_session"@
            &&& kind == CommandKind::StopPlay || kind == CommandKind::LaunchSession
                <==> super::commands::controls_session(tool)
        }),
{
    reveal_strlit("TakeScreenshot");
    reveal_strlit("take_screenshot");
    reveal_strlit("ReadStudioLog");
    reveal_strlit("read_studio_log");
    reveal_strlit("StartStopPlay");
    reveal_strlit("start_stop_play");
    reveal_strlit("LaunchStudioSession");
    reveal_strlit("launch_studio_session");
    assert("TakeScreenshot"@[0] != "take_screenshot"@[0]);
    assert("TakeScreenshot"@[0] != "ReadStudioLog"@[0]);
    assert("TakeScreenshot"@[0] != "read_studio_log"@[0]);
    assert("TakeScreenshot"@[0] != "StartStopPlay"@[0]);
    assert("TakeScreenshot"@[0] != "start_stop_play"@[0]);
    assert("TakeScreenshot"@[0] != "LaunchStudioSession"@[0]);
    assert("TakeScreenshot"@[0] != "launch_studio_session"@[0]);
    assert("take_screenshot"@[0] != "ReadStudioLog"@[0]);
    assert("take_screenshot"@[0] != "read_studio_log"@[0]);
    assert("take_screenshot"@[0] != "StartStopPlay"@[0]);
    assert("take_screenshot"@[0] != "start_stop_play"@[0]);
    assert("take_screenshot"@[0] != "LaunchStudioSession"@[0]);
    assert("take_screenshot"@[0] != "launch_studio_session"@[0]);
    assert("ReadStudioLog"@[0] != "StartStopPlay"@[0]);
    assert("ReadStudioLog"@[0] != "start_stop_play"@[0]);
    assert("ReadStudioLog"@[0] != "LaunchStudioSession"@[0]);
    assert("ReadStudioLog"@[0] != "launch_studio_session"@[0]);
    assert("read_studio_log"@[0] != "StartStopPlay"@[0]);
    assert("read_studio_log"@[0] != "start_stop_play"@[0]);
    assert("read_studio_log"@[0] != "LaunchStudioSession"@[0]);
    assert("read_studio_log"@[0] != "launch_studio_session"@[0]);
    assert("StartStopPlay"@[0] != "LaunchStudioSession"@[0]);
    assert("StartStopPlay"@[0] != "launch_studio_session"@[0]);
    assert("start_stop_play"@[0] != "LaunchStudioSession"@[0]);
    assert("start_stop_play"@[0] != "launch_studio_session"@[0]);
}

/// A plugin's word on its session is believed exactly where the plugin answered with success, as itself,
/// for the task that is asked for, and with a state that is known; the state is then told as it was given.
/// Otherwise the plugin counts as not responding, and the reason says so.
pub proof fn law_live_answer_is_judged(
    task_id: Option<Seq<char>>,
    instance_id: Seq<char>,
    success: bool,
    response: Seq<char>,
    parsed: Result<PluginStudioSessionStatePayloadView, Seq<char>>,
)
    ensures
        ({
            let told = super::commands::live_judged(task_id, instance_id, success, response, parsed);
            let p = parsed->Ok_0;
            let state = p.studio_session_state;
            let believed = success && parsed is Ok && (task_id is None || p.task_id == task_id)
                && p.instance_id == Some(instance_id) && (state == "stop"@ || state
                == "starting_play"@ || state == "play"@ || state == "stopping"@);
            &&& told.instance_id == Some(instance_id)
            &&& believed ==> told.state == state && told.reason is None
            &&& !believed ==> told.state == "none_response"@ && told.reason is Some
            &&& !success ==> told.reason == Some("studio_plugin_no_response: "@ + response)
        }),
{
}

/// A session that plays is stopped, one that has stopped is left so, and any other state is a reason not
/// to; a session is launched only where none is under way.
pub proof fn law_sessions_are_stopped_and_launched(live: LiveStudioSessionStateView)
    ensures
        ({
            let stop = super::commands::stop_judged(live);
            let launch = super::commands::launch_refusal(live);
            &&& stop is AlreadyStopped <==> live.state == "stop"@
            &&& stop is Proceed <==> live.state == "play"@
            &&& launch is None <==> live.state == "stop"@
            &&& (live.state == "none_connected"@ || live.state == "none_response"@)
                && live.reason is Some ==> stop == StopDecisionView::Refuse(live.reason->0) && launch
                == live.reason
            &&& live.state == "none_connected"@ && live.reason is None ==> launch == Some(
                "studio_plugin_not_connected"@,
            )
            &&& live.state == "none_response"@ && live.reason is None ==> launch == Some(
                "studio_plugin_no_response"@,
            )
            &&& live.state == "play"@ ==> launch == Some(
                "studio_already_playing: Studio is already in play/run mode"@,
            )
            &&& live.state == "starting_play"@ ==> launch == Some(
                "launch_already_in_progress: Studio is already entering play/run mode"@,
            )
            &&& live.state == "stopping"@ ==> launch == Some(
                "studio_stop_in_progress: Studio stop is already in progress"@,
            )
            &&& live.state != "stop"@ && live.state != "play"@ && live.state != "starting_play"@
                && live.state != "stopping"@ && live.state != "none_connected"@ && live.state
                != "none_response"@ ==> launch == Some(
                "studio_session_state_not_launchable: current_state="@ + live.state,
            )
        }),
{
    reveal_strlit("stop");
    reveal_strlit("play");
    reveal_strlit("stopping");
    reveal_strlit("starting_play");
    reveal_strlit("none_connected");
    reveal_strlit("none_response");
    assert("stop"@[0] != "play"@[0]);
    assert("none_connected"@[0] != "stop"@[0]);
    assert("none_connected"@[0] != "play"@[0]);
    assert("none_connected"@[0] != "stopping"@[0]);
    assert("none_connected"@[0] != "starting_play"@[0]);
    assert("none_response"@[0] != "stop"@[0]);
    assert("none_response"@[0] != "play"@[0]);
    assert("none_response"@[0] != "stopping"@[0]);
    assert("none_response"@[0] != "starting_play"@[0]);
    assert("none_response"@.len() != "none_connected"@.len());
    assert("stop"@.len() != "stopping"@.len());
    assert("stop"@.len() != "starting_play"@.len());
    assert("stopping"@.len() != "starting_play"@.len());
    assert("play"@.len() != "stopping"@.len());
    assert("play"@.len() != "starting_play"@.len());
}

/// A command goes to the plugin that was picked where that is still there and on the route, and nowhere
/// else; where none was picked, to the plugin on the route that was seen last, where there is one.
pub proof fn law_command_finds_its_plugin(
    s: HelperStateView,
    place_id: Seq<char>,
    task_id: Option<Seq<char>>,
    expected: Option<Seq<char>>,
    j: Seq<char>,
)
    requires
        s.instances.dom().finite(),
    ensures
        ({
            let target = super::commands::dispatch_target(s, place_id, task_id, expected);
            &&& expected matches Some(id) ==> (target is Ok <==> s.instances.contains_key(id) && stands(
                s.instances[id],
                place_id,
                task_id,
            ))
            &&& target matches Ok(id) ==> {
                &&& s.instances.contains_key(id)
                &&& stands(s.instances[id], place_id, task_id)
                &&& expected is Some ==> expected == Some(id)
                &&& expected is None && s.instances.contains_key(j) && stands(
                    s.instances[j],
                    place_id,
                    task_id,
                ) ==> s.instances[id].last_seen_at >= s.instances[j].last_seen_at
            }
            &&& expected is None && s.instances.contains_key(j) && stands(
                s.instances[j],
                place_id,
                task_id,
            ) ==> target is Ok
        }),
{
    super::duties::law_newest_plugin_is_routed_to(s.instances, place_id, task_id, j);
}

/// A command that is sent waits in the queue of its plugin, behind all others, and its answer is awaited
/// from that plugin, under the command's name; a reason against edit mode is noted where one is given.
/// Other plugins and other answers are not touched.
pub proof fn law_sent_command_is_awaited(
    s: HelperStateView,
    instance_id: Seq<char>,
    command: PluginCommandView,
    reason: Option<Seq<char>>,
    other: Seq<char>,
)
    requires
        command.id is Some,
        command.args is Some,
        command.args->0.len() > 0,
        s.instances.contains_key(instance_id),
    ensures
        ({
            let after = super::commands::dispatched(s, instance_id, command, reason);
            let i = s.instances[instance_id];
            let a = after.instances[instance_id];
            &&& after.waiting_for_plugin.contains_key(command.id->0)
            &&& after.waiting_for_plugin[command.id->0].instance_id == instance_id
            &&& after.waiting_for_plugin[command.id->0].tool_name == command.args->0[0].name
            &&& other != command.id->0 ==> after.waiting_for_plugin.contains_key(other)
                == s.waiting_for_plugin.contains_key(other) && after.waiting_for_plugin[other]
                == s.waiting_for_plugin[other]
            &&& after.instances.contains_key(instance_id)
            &&& a.queue.len() == i.queue.len() + 1
            &&& a.queue.last() == command
            &&& a.queue.drop_last() == i.queue
            &&& a.edit_runtime_unavailable_reason == if reason is Some {
                reason
            } else {
                i.edit_runtime_unavailable_reason
            }
            &&& a == (PluginInstanceView {
                queue: a.queue,
                edit_runtime_unavailable_reason: a.edit_runtime_unavailable_reason,
                ..i
            })
            &&& other != instance_id ==> after.instances.contains_key(other)
                == s.instances.contains_key(other) && after.instances[other] == s.instances[other]
            &&& after.claimed_tasks == s.claimed_tasks
        }),
{
    assert(s.instances[instance_id].queue.push(command).drop_last()
        =~= s.instances[instance_id].queue);
}

/// The plugin that is asked to stop has said within the last two seconds that it can; it is the one that
/// told its state where there is one, else the one on the route that was seen last.
pub proof fn law_stop_finds_its_plugin(
    s: HelperStateView,
    place_id: Seq<char>,
    task_id: Option<Seq<char>>,
    live_instance: Option<Seq<char>>,
    j: Seq<char>,
    now: u128,
)
    requires
        s.instances.dom().finite(),
    ensures
        ({
            let target = super::commands::stop_target(s, place_id, task_id, live_instance, now);
            &&& target matches Ok(id) ==> {
                &&& s.instances.contains_key(id)
                &&& ready_to_stop(s.instances[id], now)
                &&& live_instance is Some ==> live_instance == Some(id)
                &&& live_instance is None ==> stands(s.instances[id], place_id, task_id)
                &&& live_instance is None && s.instances.contains_key(j) && stands(
                    s.instances[j],
                    place_id,
                    task_id,
                ) ==> s.instances[id].last_seen_at >= s.instances[j].last_seen_at
            }
            &&& live_instance matches Some(id) ==> (target is Ok <==> s.instances.contains_key(id)
                && ready_to_stop(s.instances[id], now))
        }),
{
    super::duties::law_newest_plugin_is_routed_to(s.instances, place_id, task_id, j);
}

/// A stop has come to nothing where its plugin is gone, where a later stop was asked for, and where it
/// failed; it is done once it is completed and the plugin serves in edit mode again; else it is waited
/// for.
pub proof fn law_stop_is_followed(
    s: HelperStateView,
    instance_id: Seq<char>,
    stop_request_id: u64,
    now: u128,
)
    ensures
        ({
            let told = super::commands::stop_progress(s, instance_id, stop_request_id, now);
            let i = s.instances[instance_id];
            let there = s.instances.contains_key(instance_id);
            let same = i.stop_request_id == stop_request_id;
            let failed = !there || i.stop_request_id > stop_request_id || (same
                && i.stop_result_phase == Some("failed"@));
            let idle = i.studio_transition_phase == "idle"@ && !ready_to_stop(i, now);
            let done = there && same && i.stop_result_phase == Some("completed"@) && idle && edits(
                i,
                now,
            );
            &&& told is Failed <==> failed
            &&& told is Stopped <==> done && !failed
            &&& there && same && failed && i.stop_result_error is Some ==> told
                == StopProgressView::Failed(i.stop_result_error->0)
        }),
{
    super::session_duties::law_phase_and_control(s.instances[instance_id], now);
    super::session_duties::law_edit_mode_of_a_plugin(s.instances[instance_id], now);
    reveal_strlit("idle");
    reveal_strlit("running");
    reveal_strlit("error");
    reveal_strlit("stopping_requested");
    reveal_strlit("stopping_observed");
    assert("idle"@.len() != "running"@.len());
    assert("idle"@.len() != "error"@.len());
    assert("idle"@.len() != "stopping_requested"@.len());
    assert("idle"@.len() != "stopping_observed"@.len());
}

/// A plugin that was not seen for three quarters of a minute is forgotten unless an answer of it is
/// awaited; all others stay as they are.
pub proof fn law_silent_plugins_are_forgotten(s: HelperStateView, k: Seq<char>, now: u128)
    ensures
        ({
            let after = super::connections::tidied(s, now);
            let awaited = exists|r: Seq<char>| #[trigger]
                s.waiting_for_plugin.contains_key(r) && s.waiting_for_plugin[r].instance_id == k;
            &&& after.instances.contains_key(k) <==> s.instances.contains_key(k) && (awaited || now
                - s.instances[k].last_seen_at <= 45_000_000_000)
            &&& after.instances.contains_key(k) ==> after.instances[k] == s.instances[k]
            &&& after == (HelperStateView { instances: after.instances, ..s })
        }),
{
}

/// A plugin whose runtime is known to be up, or was asked to be.
pub open spec fn runs(i: PluginInstanceView, now: u128) -> bool {
    ||| i.edit_runtime_unavailable_reason == Some("runtime"@)
    ||| i.edit_runtime_unavailable_reason == Some("launch_failed"@)
    ||| i.edit_runtime_unavailable_reason == Some("launching"@)
    ||| i.studio_mode == Some("start_play"@)
    ||| i.studio_mode == Some("run_server"@)
    ||| i.studio_transition_phase == "running"@
    ||| ready_to_stop(i, now)
}

/// A plugin that is known to run is one on the route that does, and of those the one that was seen last;
/// there is one wherever some plugin on the route runs.
pub proof fn law_running_plugin_is_found(
    instances: Map<Seq<char>, PluginInstanceView>,
    place_id: Seq<char>,
    task_id: Option<Seq<char>>,
    j: Seq<char>,
    now: u128,
)
    requires
        instances.dom().finite(),
    ensures
        ({
            let found = super::routing::route_runtime(instances, place_id, task_id, now);
            &&& super::routing::known_runtime(instances[j], now) <==> runs(instances[j], now)
            &&& found matches Some(k) ==> instances.contains_key(k) && stands(
                instances[k],
                place_id,
                task_id,
            ) && runs(instances[k], now)
            &&& instances.contains_key(j) && stands(instances[j], place_id, task_id) && runs(
                instances[j],
                now,
            ) ==> found is Some && instances[found->0].last_seen_at >= instances[j].last_seen_at
        }),
{
    if instances.contains_key(j) && stands(instances[j], place_id, task_id) && runs(
        instances[j],
        now,
    ) {
        crate::table::lemma_best_exists(
            instances,
            |k: Seq<char>, i: PluginInstanceView|
                super::routing::on_route(i, place_id, task_id) && super::routing::known_runtime(
                    i,
                    now,
                ),
            |i: PluginInstanceView| (i.last_seen_at, 0u128, 0u128),
            true,
            j,
        );
    }
    if let Some(k) = super::routing::route_runtime(instances, place_id, task_id, now) {
        assert(super::routing::known_runtime(instances[k], now));
    }
}

/// A stop that is under way is found on its route: the latest one, wherever there is one.
pub proof fn law_stop_under_way_is_found(
    instances: Map<Seq<char>, PluginInstanceView>,
    place_id: Seq<char>,
    task_id: Option<Seq<char>>,
    j: Seq<char>,
)
    requires
        instances.dom().finite(),
    ensures
        ({
            let found = super::routing::route_stop(instances, place_id, task_id);
            let asked = |i: PluginInstanceView|
                i.stop_request_id > 0 && super::session_duties::stopping(i);
            &&& found matches Some(k) ==> instances.contains_key(k) && stands(
                instances[k],
                place_id,
                task_id,
            ) && asked(instances[k])
            &&& instances.contains_key(j) && stands(instances[j], place_id, task_id) && asked(
                instances[j],
            ) ==> found is Some && instances[found->0].stop_request_id
                >= instances[j].stop_request_id
        }),
{
    if instances.contains_key(j) && stands(instances[j], place_id, task_id)
        && super::session::active_stop(instances[j]) is Some {
        crate::table::lemma_best_exists(
            instances,
            |k: Seq<char>, i: PluginInstanceView|
                super::routing::on_route(i, place_id, task_id) && super::session::active_stop(
                    i,
                ) is Some,
            |i: PluginInstanceView| (i.stop_request_id as u128, i.last_seen_at, 0u128),
            true,
            j,
        );
    }
}

/// Where no plugin is on the route, the session counts as not connected, and the place is named.
pub proof fn law_absent_plugin_is_told(place_id: Seq<char>, task: Option<Seq<char>>, detail: Seq<char>)
    ensures
        ({
            let absent = super::commands::unconnected(place_id);
            let silent = super::commands::unanswered(task, detail);
            &&& absent.instance_id is None
            &&& absent.state == "none_connected"@
            &&& absent.reason == Some(
                "studio_plugin_not_connected: no active Studio plugin registered for placeId "@
                    + place_id,
            )
            &&& silent.instance_id == task
            &&& silent.state == "none_response"@
            &&& silent.reason == Some("studio_plugin_no_response: "@ + detail)
        }),
{
}

/// A stop that is given up on is marked as failed only while it is still the last one of its plugin.
pub proof fn law_only_the_last_stop_is_given_up(
    s: HelperStateView,
    instance_id: Seq<char>,
    stop_request_id: u64,
    now: u128,
)
    ensures
        super::commands::stop_is_last(s, instance_id, stop_request_id)
            <==> s.instances.contains_key(instance_id) && s.instances[instance_id].stop_request_id
            == stop_request_id,
        s.instances.contains_key(instance_id) ==> super::commands::stop_delay_of(
            s,
            instance_id,
            now,
        ) == "phase="@ + super::session::effective_phase(s.instances[instance_id], now)
            + " stop_result_phase="@ + match s.instances[instance_id].stop_result_phase {
            Some(phase) => phase,
            None => "none"@,
        } + " runtime_actuator_last_poll_id="@ + crate::debug::debug_number(
            match s.instances[instance_id].stop_request_last_poll_id {
                Some(id) => Some(id as u128),
                None => None,
            },
        ) + " runtime_actuator_last_poll_age_ms="@ + crate::debug::debug_number(
            super::told::age(now, s.instances[instance_id].stop_request_last_polled_at),
        ) + " edit_runtime_state="@ + super::session::edit_state(s.instances[instance_id], now),
{
}

/// A command is read off its text: its name, and its arguments in their order.
pub proof fn law_commands_are_read(text: Seq<char>, i: int)
    ensures
        ({
            let command = super::commands::command_read(text);
            let entries = crate::json::json_entries(text, "args"@);
            &&& command.text == text
            &&& command.id == crate::json::json_field(text, "id"@)
            &&& command.args is Some <==> entries is Some
            &&& entries matches Some(list) ==> command.args->0.len() == list.len() && (0 <= i
                < list.len() ==> command.args->0[i].name == list[i].0 && command.args->0[i].payload
                == list[i].1)
        }),
{
}

/// Before a command goes out, plugins that were not seen for three quarters of a minute are forgotten and
/// the connections are kept up; a plugin stays unless it is one of those or its task is given up.
pub proof fn law_plugins_are_tidied_first(
    s: HelperStateView,
    workers: Map<Seq<char>, Seq<char>>,
    k: Seq<char>,
    now: u128,
)
    ensures
        ({
            let after = super::commands::prepared(s, workers, now);
            let i = s.instances[k];
            let awaited = exists|r: Seq<char>| #[trigger]
                s.waiting_for_plugin.contains_key(r) && s.waiting_for_plugin[r].instance_id == k;
            let fresh = s.instances.contains_key(k) && (awaited || now - i.last_seen_at
                <= 45_000_000_000);
            &&& after.instances.contains_key(k) ==> fresh && after.instances[k] == i
            &&& fresh && (i.task_id is None || !s.claimed_tasks.contains_key(i.task_id->0) || (
            s.claimed_tasks.contains_key(i.task_id->0) && after.claimed_tasks.contains_key(
                i.task_id->0,
            ))) ==> after.instances.contains_key(k)
            &&& after.waiting_for_plugin == s.waiting_for_plugin
        }),
{
    let t = super::connections::tidied(s, now);
    let i = s.instances[k];
    law_silent_plugins_are_forgotten(s, k, now);
    if i.task_id is Some && s.claimed_tasks.contains_key(i.task_id->0) {
        super::laws::law_upkeep_gives_up_hopeless_tasks(t, workers, now, i.task_id->0);
    }
}

/// A stop that is begun is recorded with the plugin that was found for it, under the next number, and told
/// with it; where none was found, nothing changes and the reason is told.
pub proof fn law_begun_stop_is_recorded(
    s: HelperStateView,
    target: Result<Seq<char>, Seq<char>>,
    other: Seq<char>,
    now: u128,
)
    ensures
        ({
            let step = super::commands::stop_begun(s, target, now);
            let after = step.0.instances;
            &&& target matches Err(message) ==> step.0 == s && step.1 is Err && step.1->Err_0
                == message
            &&& target matches Ok(id) ==> {
                &&& step.1 is Ok
                &&& step.1->Ok_0.instance_id == id
                &&& step.1->Ok_0.task_id == s.instances[id].task_id
                &&& step.1->Ok_0.stop_request_id == after[id].stop_request_id
                &&& s.instances[id].stop_request_id < u64::MAX ==> after[id].stop_request_id
                    == s.instances[id].stop_request_id + 1
                &&& after.contains_key(id)
                &&& after[id].studio_transition_phase == "stopping_requested"@
                &&& other != id ==> after.contains_key(other) == s.instances.contains_key(other)
                    && after[other] == s.instances[other]
                &&& step.0 == (HelperStateView { instances: after, ..s })
            }
        }),
{
}

} // verus!
