//! Commands from a remote server: which of them the helper serves itself, how the others reach a
//! plugin, and how a session is stopped or launched.
use vstd::prelude::*;

use super::connections::{cleanup_stale_instances, sync_remote_connections};
use super::plugin::{put_instance, PluginResponsePayload};
use super::records::{CommandArg, HelperState, PendingPluginResponse, PluginCommand, PluginInstance};
use super::routing::{route_identity_matches, select_instance_for_route};
use super::session::{
    edit_runtime_state, effective_studio_transition_phase, mark_runtime_stop_timeout, opt_is,
    record_stop_request_for_instance, set_edit_runtime_unavailable, StopRequestRecordError,
};
use super::timing::{PLUGIN_REQUEST_TIMEOUT, PLUGIN_STUDIO_CONTROL_REQUEST_TIMEOUT};
use crate::clock::{age_ms, elapsed, NANOS_PER_MILLI};
use crate::debug::{opt_number, opt_text};
use crate::ids::new_token;
use crate::json::{json_member_entries, json_string_field};
use crate::order::same_text;
use crate::table::dup_text;
use crate::text::{borrowed, concat, concat3, decimal_text, owned, same_option};

verus! {

use super::records::{
    CommandArgView, HelperStateView, PendingPluginResponseView, PluginCommandView,
    PluginInstanceView,
};

/// What a plugin tells of the session in its Studio when it is asked.
pub struct LiveStudioSessionState {
    pub instance_id: Option<String>,
    pub state: String,
    pub reason: Option<String>,
}

/// What a [`LiveStudioSessionState`] stands for.
#[verifier::ext_equal]
pub struct LiveStudioSessionStateView {
    pub instance_id: Option<Seq<char>>,
    pub state: Seq<char>,
    pub reason: Option<Seq<char>>,
}

impl View for LiveStudioSessionState {
    type V = LiveStudioSessionStateView;

    open spec fn view(&self) -> LiveStudioSessionStateView {
        LiveStudioSessionStateView {
            instance_id: self.instance_id.deep_view(),
            state: self.state@,
            reason: self.reason.deep_view(),
        }
    }
}

/// The answer of a plugin that is asked for the state of its session.
pub struct PluginStudioSessionStatePayload {
    pub studio_session_state: String,
    pub instance_id: Option<String>,
    pub task_id: Option<String>,
}

/// What a [`PluginStudioSessionStatePayload`] stands for.
#[verifier::ext_equal]
pub struct PluginStudioSessionStatePayloadView {
    pub studio_session_state: Seq<char>,
    pub instance_id: Option<Seq<char>>,
    pub task_id: Option<Seq<char>>,
}

impl View for PluginStudioSessionStatePayload {
    type V = PluginStudioSessionStatePayloadView;

    open spec fn view(&self) -> PluginStudioSessionStatePayloadView {
        PluginStudioSessionStatePayloadView {
            studio_session_state: self.studio_session_state@,
            instance_id: self.instance_id.deep_view(),
            task_id: self.task_id.deep_view(),
        }
    }
}

/// A command that was put into the queue of a plugin; `task_id` is the task whose status is to be
/// sent on.
pub struct DispatchedCommand {
    pub instance_id: String,
    pub request_id: String,
    pub tool_name: String,
    pub task_id: Option<String>,
}

/// What a [`DispatchedCommand`] stands for.
#[verifier::ext_equal]
pub struct DispatchedCommandView {
    pub instance_id: Seq<char>,
    pub request_id: Seq<char>,
    pub tool_name: Seq<char>,
    pub task_id: Option<Seq<char>>,
}

impl View for DispatchedCommand {
    type V = DispatchedCommandView;

    open spec fn view(&self) -> DispatchedCommandView {
        DispatchedCommandView {
            instance_id: self.instance_id@,
            request_id: self.request_id@,
            tool_name: self.tool_name@,
            task_id: self.task_id.deep_view(),
        }
    }
}

/// A stop that was taken down, to be waited for; `task_id` is the task whose status is to be sent on.
pub struct BegunStop {
    pub instance_id: String,
    pub stop_request_id: u64,
    pub task_id: Option<String>,
}

/// What a [`BegunStop`] stands for.
#[verifier::ext_equal]
pub struct BegunStopView {
    pub instance_id: Seq<char>,
    pub stop_request_id: u64,
    pub task_id: Option<Seq<char>>,
}

impl View for BegunStop {
    type V = BegunStopView;

    open spec fn view(&self) -> BegunStopView {
        BegunStopView {
            instance_id: self.instance_id@,
            stop_request_id: self.stop_request_id,
            task_id: self.task_id.deep_view(),
        }
    }
}

/// Who serves a command.
#[derive(Clone, Copy, PartialEq, Eq, Structural)]
pub enum CommandKind {
    /// The helper takes a screenshot.
    TakeScreenshot,
    /// The helper reads the log of Studio.
    ReadStudioLog,
    /// The helper stops the session.
    StopPlay,
    /// The helper lets a plugin launch a session.
    LaunchSession,
    /// A plugin serves the command.
    Forward,
}

/// What is to be done about a request to stop.
pub enum StopDecision {
    /// The session has stopped already; the text answers the request.
    AlreadyStopped(String),
    /// The session runs and is to be stopped.
    Proceed,
    /// The session cannot be stopped; the text says why.
    Refuse(String),
}

/// What a [`StopDecision`] stands for.
pub enum StopDecisionView {
    AlreadyStopped(Seq<char>),
    Proceed,
    Refuse(Seq<char>),
}

impl View for StopDecision {
    type V = StopDecisionView;

    open spec fn view(&self) -> StopDecisionView {
        match self {
            StopDecision::AlreadyStopped(text) => StopDecisionView::AlreadyStopped(text@),
            StopDecision::Proceed => StopDecisionView::Proceed,
            StopDecision::Refuse(text) => StopDecisionView::Refuse(text@),
        }
    }
}

/// How far a stop has come.
pub enum StopProgress {
    /// The stop is still under way.
    Waiting,
    /// The session has stopped.
    Stopped,
    /// The stop came to nothing; the text says why.
    Failed(String),
}

/// What a [`StopProgress`] stands for.
pub enum StopProgressView {
    Waiting,
    Stopped,
    Failed(Seq<char>),
}

impl View for StopProgress {
    type V = StopProgressView;

    open spec fn view(&self) -> StopProgressView {
        match self {
            StopProgress::Waiting => StopProgressView::Waiting,
            StopProgress::Stopped => StopProgressView::Stopped,
            StopProgress::Failed(text) => StopProgressView::Failed(text@),
        }
    }
}

/// The identifier of a command.
pub open spec fn command_id(command: PluginCommandView) -> Result<Seq<char>, Seq<char>> {
    match command.id {
        Some(id) => Ok(id),
        None => Err("command payload missing string id"@),
    }
}

/// The tool of a command and its payload: the first entry of the arguments.
pub open spec fn command_tool(command: PluginCommandView) -> Result<CommandArgView, Seq<char>> {
    match command.args {
        None => Err("command payload missing args object"@),
        Some(args) => if args.len() == 0 {
            Err("command args object was empty"@)
        } else {
            Ok(args[0])
        },
    }
}

/// The tool controls the session.
pub open spec fn controls_session(tool: Seq<char>) -> bool {
    tool == "LaunchStudioSession"@ || tool == "StartStopPlay"@ || tool == "launch_studio_session"@
        || tool == "start_stop_play"@
}

/// How long the answer of a plugin is waited for.
pub open spec fn tool_timeout(tool: Seq<char>) -> u128 {
    if controls_session(tool) {
        PLUGIN_STUDIO_CONTROL_REQUEST_TIMEOUT
    } else {
        PLUGIN_REQUEST_TIMEOUT
    }
}

/// Who serves a tool.
pub open spec fn kind_of_tool(tool: Seq<char>) -> CommandKind {
    if tool == "TakeScreenshot"@ || tool == "take_screenshot"@ {
        CommandKind::TakeScreenshot
    } else if tool == "ReadStudioLog"@ || tool == "read_studio_log"@ {
        CommandKind::ReadStudioLog
    } else if tool == "StartStopPlay"@ || tool == "start_stop_play"@ {
        CommandKind::StopPlay
    } else if tool == "LaunchStudioSession"@ || tool == "launch_studio_session"@ {
        CommandKind::LaunchSession
    } else {
        CommandKind::Forward
    }
}

/// The state after plugins that were not seen for too long have gone and the connections were kept
/// up.
pub open spec fn prepared(
    s: HelperStateView,
    workers: Map<Seq<char>, Seq<char>>,
    now: u128,
) -> HelperStateView {
    super::connections::synced(super::connections::tidied(s, now), workers, now)
}

/// What is said where no plugin is at the place.
pub open spec fn unconnected_reason(place_id: Seq<char>) -> Seq<char> {
    "studio_plugin_not_connected: no active Studio plugin registered for placeId "@ + place_id
}

/// What is told of a session without a plugin.
pub open spec fn unconnected(place_id: Seq<char>) -> LiveStudioSessionStateView {
    LiveStudioSessionStateView {
        instance_id: None,
        state: "none_connected"@,
        reason: Some(unconnected_reason(place_id)),
    }
}

/// What is told of a session whose plugin did not answer as it should.
pub open spec fn unanswered(instance_id: Option<Seq<char>>, detail: Seq<char>) -> LiveStudioSessionStateView {
    LiveStudioSessionStateView {
        instance_id,
        state: "none_response"@,
        reason: Some("studio_plugin_no_response: "@ + detail),
    }
}

/// The state is one that a session can be in.
pub open spec fn live_state_known(state: Seq<char>) -> bool {
    state == "stop"@ || state == "starting_play"@ || state == "play"@ || state == "stopping"@
}

/// What is told of a session after the plugin has answered; `parsed` is the answer where it could be
/// read, else the reason why not.
pub open spec fn live_judged(
    task_id: Option<Seq<char>>,
    instance_id: Seq<char>,
    success: bool,
    response: Seq<char>,
    parsed: Result<PluginStudioSessionStatePayloadView, Seq<char>>,
) -> LiveStudioSessionStateView {
    if !success {
        unanswered(Some(instance_id), response)
    } else {
        match parsed {
            Err(error) => unanswered(
                Some(instance_id),
                "invalid GetStudioSessionState payload: "@ + error,
            ),
            Ok(payload) => if task_id is Some && payload.task_id != task_id {
                unanswered(
                    Some(instance_id),
                    "plugin live state task_id mismatch, expected "@ + task_id->0 + ", got "@
                        + crate::debug::debug_text(payload.task_id),
                )
            } else if payload.instance_id != Some(instance_id) {
                unanswered(
                    Some(instance_id),
                    "plugin live state instance_id mismatch, expected "@ + instance_id + ", got "@
                        + crate::debug::debug_text(payload.instance_id),
                )
            } else if !live_state_known(payload.studio_session_state) {
                unanswered(
                    Some(instance_id),
                    "invalid studio_session_state "@ + payload.studio_session_state,
                )
            } else {
                LiveStudioSessionStateView {
                    instance_id: Some(instance_id),
                    state: payload.studio_session_state,
                    reason: None,
                }
            },
        }
    }
}

/// The reason that a state carries, or what is said without one.
pub open spec fn reason_or(live: LiveStudioSessionStateView, otherwise: Seq<char>) -> Seq<char> {
    match live.reason {
        Some(reason) => reason,
        None => otherwise,
    }
}

/// What is to be done about a request to stop.
pub open spec fn stop_judged(live: LiveStudioSessionStateView) -> StopDecisionView {
    if live.state == "stop"@ {
        StopDecisionView::AlreadyStopped(already_stopped())
    } else if live.state == "play"@ {
        StopDecisionView::Proceed
    } else if live.state == "stopping"@ {
        StopDecisionView::Refuse("studio_stop_in_progress: Studio stop is already in progress"@)
    } else if live.state == "starting_play"@ {
        StopDecisionView::Refuse("studio_starting_play: Studio is still entering play mode"@)
    } else if live.state == "none_connected"@ {
        StopDecisionView::Refuse(reason_or(live, "studio_plugin_not_connected"@))
    } else if live.state == "none_response"@ {
        StopDecisionView::Refuse(reason_or(live, "studio_plugin_no_response"@))
    } else {
        StopDecisionView::Refuse("studio_session_state_not_stoppable: current_state="@ + live.state)
    }
}

/// The answer to a request to stop a session that has stopped already.
pub open spec fn already_stopped() -> Seq<char> {
    "{\"message\":\"Stopped\",\"reason\":\"already_stopped\",\"studio_session_state\":\"stop\",\"success\":true}"@
}

/// Why a session cannot be launched.
pub open spec fn launch_refusal(live: LiveStudioSessionStateView) -> Option<Seq<char>> {
    if live.state == "stop"@ {
        None
    } else if live.state == "play"@ {
        Some("studio_already_playing: Studio is already in play/run mode"@)
    } else if live.state == "starting_play"@ {
        Some("launch_already_in_progress: Studio is already entering play/run mode"@)
    } else if live.state == "stopping"@ {
        Some("studio_stop_in_progress: Studio stop is already in progress"@)
    } else if live.state == "none_connected"@ {
        Some(reason_or(live, "studio_plugin_not_connected"@))
    } else if live.state == "none_response"@ {
        Some(reason_or(live, "studio_plugin_no_response"@))
    } else {
        Some("studio_session_state_not_launchable: current_state="@ + live.state)
    }
}

/// The plugin that a command goes to.
pub open spec fn dispatch_target(
    s: HelperStateView,
    place_id: Seq<char>,
    task_id: Option<Seq<char>>,
    expected: Option<Seq<char>>,
) -> Result<Seq<char>, Seq<char>> {
    match expected {
        Some(id) => if !s.instances.contains_key(id) {
            Err(
                "studio_plugin_not_connected: selected plugin instance "@ + id
                    + " disappeared before command dispatch"@,
            )
        } else if !super::routing::on_route(s.instances[id], place_id, task_id) {
            Err(
                "studio_plugin_identity_mismatch: selected plugin instance "@ + id
                    + " no longer matches place/task route"@,
            )
        } else {
            Ok(id)
        },
        None => match super::routing::route_instance(s.instances, place_id, task_id) {
            Some(id) => Ok(id),
            None => Err("no active Studio plugin registered for placeId "@ + place_id),
        },
    }
}

/// The state with a command in the queue of a plugin, and its answer awaited.
pub open spec fn dispatched(
    s: HelperStateView,
    instance_id: Seq<char>,
    command: PluginCommandView,
    reason: Option<Seq<char>>,
) -> HelperStateView {
    let i = s.instances[instance_id];
    HelperStateView {
        instances: s.instances.insert(
            instance_id,
            PluginInstanceView {
                edit_runtime_unavailable_reason: if reason is Some {
                    reason
                } else {
                    i.edit_runtime_unavailable_reason
                },
                queue: i.queue.push(command),
                ..i
            },
        ),
        waiting_for_plugin: s.waiting_for_plugin.insert(
            command_id(command)->Ok_0,
            PendingPluginResponseView {
                instance_id,
                tool_name: command_tool(command)->Ok_0.name,
            },
        ),
        ..s
    }
}

/// The command carries an identifier and a tool.
pub open spec fn command_fault(command: PluginCommandView) -> Option<Seq<char>> {
    match command_id(command) {
        Err(message) => Some(message),
        Ok(_) => match command_tool(command) {
            Err(message) => Some(message),
            Ok(_) => None,
        },
    }
}

/// What is said of a plugin that has not answered in time.
pub open spec fn late_message(tool: Seq<char>) -> Seq<char> {
    "timed out waiting "@ + crate::text::decimal((tool_timeout(tool) / NANOS_PER_MILLI) as nat)
        + "ms for local plugin response to "@ + tool
}

/// The plugin whose session is to be stopped.
pub open spec fn stop_target(
    s: HelperStateView,
    place_id: Seq<char>,
    task_id: Option<Seq<char>>,
    live_instance: Option<Seq<char>>,
    now: u128,
) -> Result<Seq<char>, Seq<char>> {
    let chosen = if live_instance is Some {
        live_instance
    } else {
        super::routing::route_instance(s.instances, place_id, task_id)
    };
    match chosen {
        None => Err(unconnected_reason(place_id)),
        Some(id) => if !s.instances.contains_key(id) {
            Err(
                "studio_plugin_not_connected: live query selected plugin instance "@ + id
                    + ", but it is no longer registered"@,
            )
        } else if !super::session::fresh_control(s.instances[id], now) {
            Err(
                "runtime_stop_actuator_unavailable: instance_id="@ + id + "; live_state=play; "@
                    + super::session::unavailable_detail(s.instances[id], now),
            )
        } else {
            Ok(id)
        },
    }
}

/// How far a stop has come.
pub open spec fn stop_progress(
    s: HelperStateView,
    instance_id: Seq<char>,
    stop_request_id: u64,
    now: u128,
) -> StopProgressView {
    let i = s.instances[instance_id];
    if !s.instances.contains_key(instance_id) {
        StopProgressView::Failed(
            "runtime_stop_instance_disappeared: instance_id="@ + instance_id + " stop_request_id="@
                + crate::text::decimal(stop_request_id as nat),
        )
    } else if i.stop_request_id > stop_request_id {
        StopProgressView::Failed(
            "runtime_stop_superseded: instance_id="@ + instance_id + " stop_request_id="@
                + crate::text::decimal(stop_request_id as nat) + " current_stop_request_id="@
                + crate::text::decimal(i.stop_request_id as nat),
        )
    } else if i.stop_request_id == stop_request_id && i.stop_result_phase == Some("failed"@) {
        StopProgressView::Failed(
            match i.stop_result_error {
                Some(text) => text,
                None => "runtime_stop_failed"@,
            },
        )
    } else if i.stop_request_id == stop_request_id && i.stop_result_phase == Some("completed"@)
        && super::session::effective_phase(i, now) == "idle"@ && super::session::edit_state(i, now)
        == "ready"@ {
        StopProgressView::Stopped
    } else {
        StopProgressView::Waiting
    }
}

/// What is said of a stop that took too long.
pub open spec fn stop_delay(i: PluginInstanceView, now: u128) -> Seq<char> {
    "phase="@ + super::session::effective_phase(i, now) + " stop_result_phase="@ + match i.stop_result_phase {
        Some(phase) => phase,
        None => "none"@,
    } + " runtime_actuator_last_poll_id="@ + crate::debug::debug_number(
        wide(i.stop_request_last_poll_id),
    ) + " runtime_actuator_last_poll_age_ms="@ + crate::debug::debug_number(
        crate::clock::age_of(now, i.stop_request_last_polled_at),
    ) + " edit_runtime_state="@ + super::session::edit_state(i, now)
}

/// The number, where there is one, as a wide one.
pub open spec fn wide(n: Option<u64>) -> Option<u128> {
    match n {
        Some(m) => Some(m as u128),
        None => None,
    }
}

/// What is said of the plugin of a stop that took too long, where it is still there.
pub open spec fn stop_delay_of(s: HelperStateView, instance_id: Seq<char>, now: u128) -> Seq<char> {
    if s.instances.contains_key(instance_id) {
        stop_delay(s.instances[instance_id], now)
    } else {
        "instance_missing"@
    }
}

/// The stop is the last one of the plugin.
pub open spec fn stop_is_last(s: HelperStateView, instance_id: Seq<char>, stop_request_id: u64) -> bool {
    s.instances.contains_key(instance_id) && s.instances[instance_id].stop_request_id
        == stop_request_id
}

/// The arguments that stand under their names.
pub open spec fn args_named(entries: Seq<(Seq<char>, Seq<char>)>) -> Seq<CommandArgView> {
    entries.map_values(
        |entry: (Seq<char>, Seq<char>)| CommandArgView { name: entry.0, payload: entry.1 },
    )
}

/// The command that a JSON text stands for.
pub open spec fn command_read(text: Seq<char>) -> PluginCommandView {
    PluginCommandView {
        id: crate::json::json_field(text, "id"@),
        args: match crate::json::json_entries(text, "args"@) {
            Some(entries) => Some(args_named(entries)),
            None => None,
        },
        text,
    }
}

fn named_args(entries: Vec<(String, String)>) -> (args: Vec<CommandArg>)
    ensures
        crate::table::views(args@) == args_named(entries.deep_view()),
{
    let ghost all = entries.deep_view();
    let mut args: Vec<CommandArg> = Vec::new();
    let mut i: usize = 0;
    while i < entries.len()
        invariant
            i <= entries@.len(),
            all == entries.deep_view(),
            args@.len() == i,
            forall|j: int|
                0 <= j < i ==> (#[trigger] args@[j])@ == (CommandArgView {
                    name: all[j].0,
                    payload: all[j].1,
                }),
        decreases entries@.len() - i,
    {
        args.push(CommandArg { name: entries[i].0.clone(), payload: entries[i].1.clone() });
        i = i + 1;
    }
    assert(crate::table::views(args@) =~= args_named(all));
    args
}

/// The command that a JSON text stands for.
pub fn read_plugin_command(text: &str) -> (command: PluginCommand)
    ensures
        command@ == command_read(text@),
{
    PluginCommand {
        id: json_string_field(text, "id"),
        args: match json_member_entries(text, "args") {
            Some(entries) => Some(named_args(entries)),
            None => None,
        },
        text: text.to_owned(),
    }
}

/// The identifier of a command.
pub fn extract_command_id(command: &PluginCommand) -> (result: Result<String, String>)
    ensures
        crate::table::outcome(result) == command_id(command@),
{
    match &command.id {
        Some(id) => Ok(id.clone()),
        None => Err("command payload missing string id".to_owned()),
    }
}

/// The tool of a command and its payload.
pub fn extract_tool_name_and_args(command: &PluginCommand) -> (result: Result<
    (String, String),
    String,
>)
    ensures
        crate::table::outcome(result) == match command_tool(command@) {
            Ok(arg) => Ok((arg.name, arg.payload)),
            Err(message) => Err(message),
        },
{
    match &command.args {
        None => Err("command payload missing args object".to_owned()),
        Some(args) => {
            if args.len() == 0 {
                Err("command args object was empty".to_owned())
            } else {
                assert(crate::table::views(args@)[0] == args@[0]@);
                Ok((args[0].name.clone(), args[0].payload.clone()))
            }
        },
    }
}

/// The tool controls the session.
pub fn is_studio_control_tool(tool_name: &str) -> (controls: bool)
    ensures
        controls == controls_session(tool_name@),
{
    same_text(tool_name, "LaunchStudioSession") || same_text(tool_name, "StartStopPlay")
        || same_text(tool_name, "launch_studio_session") || same_text(tool_name, "start_stop_play")
}

/// How long the answer of a plugin is waited for, in nanoseconds.
pub fn plugin_request_timeout_for_tool(tool_name: &str) -> (nanos: u128)
    ensures
        nanos == tool_timeout(tool_name@),
{
    if is_studio_control_tool(tool_name) {
        PLUGIN_STUDIO_CONTROL_REQUEST_TIMEOUT
    } else {
        PLUGIN_REQUEST_TIMEOUT
    }
}

/// Who serves a tool.
pub fn classify_tool(tool_name: &str) -> (kind: CommandKind)
    ensures
        kind == kind_of_tool(tool_name@),
{
    if same_text(tool_name, "TakeScreenshot") || same_text(tool_name, "take_screenshot") {
        CommandKind::TakeScreenshot
    } else if same_text(tool_name, "ReadStudioLog") || same_text(tool_name, "read_studio_log") {
        CommandKind::ReadStudioLog
    } else if same_text(tool_name, "StartStopPlay") || same_text(tool_name, "start_stop_play") {
        CommandKind::StopPlay
    } else if same_text(tool_name, "LaunchStudioSession") || same_text(
        tool_name,
        "launch_studio_session",
    ) {
        CommandKind::LaunchSession
    } else {
        CommandKind::Forward
    }
}

/// The control of the session only stops it.
pub fn validate_start_stop_play_mode(mode: &str) -> (result: Result<(), String>)
    ensures
        result is Ok <==> mode@ == "stop"@,
        result matches Err(message) ==> message@
            == "start_stop_play is stop-only. Use launch_studio_session to enter start_play or run_server."@,
{
    if same_text(mode, "stop") {
        Ok(())
    } else {
        Err(
            "start_stop_play is stop-only. Use launch_studio_session to enter start_play or run_server.".to_owned(),
        )
    }
}

/// A session is launched to play or to run a server.
pub fn validate_launch_studio_session_mode(mode: &str) -> (result: Result<(), String>)
    ensures
        result is Ok <==> mode@ == "start_play"@ || mode@ == "run_server"@,
        result matches Err(message) ==> message@
            == "Invalid mode in LaunchStudioSession, must be start_play or run_server"@,
{
    if same_text(mode, "start_play") || same_text(mode, "run_server") {
        Ok(())
    } else {
        Err("Invalid mode in LaunchStudioSession, must be start_play or run_server".to_owned())
    }
}

/// Lets plugins go that were not seen for too long, and keeps the connections up.
fn prepare(state: &mut HelperState, now: u128)
    requires
        super::task_status::records_wf(old(state)@),
    ensures
        exists|workers: Map<Seq<char>, Seq<char>>| #[trigger]
            super::connections::fresh(workers) && final(state)@ == prepared(
                old(state)@,
                workers,
                now,
            ),
        super::task_status::records_wf(final(state)@),
{
    cleanup_stale_instances(state, now);
    sync_remote_connections(state, now);
}

/// Begins to ask for the state of a session. Gives what is told where no plugin can be asked.
pub fn begin_live_query(
    state: &mut HelperState,
    place_id: &str,
    task_id: Option<&str>,
    now: u128,
) -> (told: Option<LiveStudioSessionState>)
    requires
        super::task_status::records_wf(old(state)@),
    ensures
        exists|workers: Map<Seq<char>, Seq<char>>| #[trigger]
            super::connections::fresh(workers) && final(state)@ == prepared(
                old(state)@,
                workers,
                now,
            ),
        super::task_status::records_wf(final(state)@),
        crate::table::opt_view(told) == if super::routing::route_instance(
            final(state)@.instances,
            place_id@,
            task_id.deep_view(),
        ) is None {
            Some(unconnected(place_id@))
        } else {
            None
        },
{
    prepare(state, now);
    if select_instance_for_route(place_id, task_id, &state.instances).is_none() {
        return Some(
            LiveStudioSessionState {
                instance_id: None,
                state: "none_connected".to_owned(),
                reason: Some(
                    concat(
                        "studio_plugin_not_connected: no active Studio plugin registered for placeId ",
                        place_id,
                    ),
                ),
            },
        );
    }
    None
}

/// The command that asks a plugin for the state of its session, under the given identifier.
pub fn live_query_command(request_id: &str) -> (command: PluginCommand)
    requires
        crate::ids::is_token(request_id@),
    ensures
        command@ == (PluginCommandView {
            id: Some(request_id@),
            args: Some(
                seq![CommandArgView { name: "GetStudioSessionState"@, payload: "{}"@ }],
            ),
            text: "{\"args\":{\"GetStudioSessionState\":{}},\"id\":\""@ + request_id@ + "\"}"@,
        }),
{
    let mut args: Vec<CommandArg> = Vec::new();
    args.push(
        CommandArg { name: "GetStudioSessionState".to_owned(), payload: "{}".to_owned() },
    );
    assert(crate::table::views(args@) =~= seq![
        CommandArgView { name: "GetStudioSessionState"@, payload: "{}"@ },
    ]);
    PluginCommand {
        id: Some(request_id.to_owned()),
        args: Some(args),
        text: concat3("{\"args\":{\"GetStudioSessionState\":{}},\"id\":\"", request_id, "\"}"),
    }
}

/// The command that asks a plugin for the state of its session, under a random identifier.
pub fn new_live_query_command() -> (command: PluginCommand)
    ensures
        command@.id matches Some(id) && crate::ids::is_token(id),
        command@.args == Some(
            seq![CommandArgView { name: "GetStudioSessionState"@, payload: "{}"@ }],
        ),
        command@.text == "{\"args\":{\"GetStudioSessionState\":{}},\"id\":\""@ + command@.id->0
            + "\"}"@,
{
    let id = new_token();
    live_query_command(id.as_str())
}

/// A stop that began then has had its time.
pub open spec fn waited_out(begun_at: u128, now: u128) -> bool {
    now >= begun_at + PLUGIN_STUDIO_CONTROL_REQUEST_TIMEOUT
}

/// Whether a stop that began to be waited for at `begun_at` is given up.
pub fn stop_wait_is_over(begun_at: u128, now: u128) -> (over: bool)
    ensures
        over == waited_out(begun_at, now),
{
    elapsed(now, begun_at) >= PLUGIN_STUDIO_CONTROL_REQUEST_TIMEOUT
}

/// What is told of a session whose plugin did not answer as it should.
fn not_answered(instance_id: Option<&str>, detail: &str) -> (told: LiveStudioSessionState)
    ensures
        told@ == unanswered(instance_id.deep_view(), detail@),
{
    LiveStudioSessionState {
        instance_id: owned(instance_id),
        state: "none_response".to_owned(),
        reason: Some(concat("studio_plugin_no_response: ", detail)),
    }
}

/// What is told of a session whose plugin could not be asked.
pub fn live_query_failed(error: &str) -> (told: LiveStudioSessionState)
    ensures
        told@ == unanswered(None, error@),
{
    not_answered(None, error)
}

/// What is told of a session after the plugin has answered.
pub fn judge_live_answer(
    task_id: Option<&str>,
    instance_id: &str,
    success: bool,
    response: &str,
    parsed: &Result<PluginStudioSessionStatePayload, String>,
) -> (told: LiveStudioSessionState)
    ensures
        told@ == live_judged(
            task_id.deep_view(),
            instance_id@,
            success,
            response@,
            match *parsed {
                Ok(payload) => Ok(payload@),
                Err(error) => Err(error@),
            },
        ),
{
    if !success {
        return not_answered(Some(instance_id), response);
    }
    let payload = match parsed {
        Err(error) => {
            let detail = concat("invalid GetStudioSessionState payload: ", error.as_str());
            return not_answered(Some(instance_id), detail.as_str());
        },
        Ok(payload) => payload,
    };
    if let Some(expected) = task_id {
        if !same_option(borrowed(&payload.task_id), Some(expected)) {
            let mut detail = concat3(
                "plugin live state task_id mismatch, expected ",
                expected,
                ", got ",
            );
            detail.append(opt_text(&payload.task_id).as_str());
            return not_answered(Some(instance_id), detail.as_str());
        }
    }
    if !same_option(borrowed(&payload.instance_id), Some(instance_id)) {
        let mut detail = concat3(
            "plugin live state instance_id mismatch, expected ",
            instance_id,
            ", got ",
        );
        detail.append(opt_text(&payload.instance_id).as_str());
        return not_answered(Some(instance_id), detail.as_str());
    }
    let live = payload.studio_session_state.as_str();
    if !(same_text(live, "stop") || same_text(live, "starting_play") || same_text(live, "play")
        || same_text(live, "stopping")) {
        let detail = concat("invalid studio_session_state ", live);
        return not_answered(Some(instance_id), detail.as_str());
    }
    LiveStudioSessionState {
        instance_id: Some(instance_id.to_owned()),
        state: live.to_owned(),
        reason: None,
    }
}

/// The reason that a state carries, or what is said without one.
fn reason_text(live: &LiveStudioSessionState, otherwise: &str) -> (text: String)
    ensures
        text@ == reason_or(live@, otherwise@),
{
    match &live.reason {
        Some(reason) => reason.clone(),
        None => otherwise.to_owned(),
    }
}

/// What is to be done about a request to stop.
pub fn judge_stop(live: &LiveStudioSessionState) -> (decision: StopDecision)
    ensures
        decision@ == stop_judged(live@),
{
    let state = live.state.as_str();
    if same_text(state, "stop") {
        StopDecision::AlreadyStopped(
            "{\"message\":\"Stopped\",\"reason\":\"already_stopped\",\"studio_session_state\":\"stop\",\"success\":true}".to_owned(),
        )
    } else if same_text(state, "play") {
        StopDecision::Proceed
    } else if same_text(state, "stopping") {
        StopDecision::Refuse(
            "studio_stop_in_progress: Studio stop is already in progress".to_owned(),
        )
    } else if same_text(state, "starting_play") {
        StopDecision::Refuse("studio_starting_play: Studio is still entering play mode".to_owned())
    } else if same_text(state, "none_connected") {
        StopDecision::Refuse(reason_text(live, "studio_plugin_not_connected"))
    } else if same_text(state, "none_response") {
        StopDecision::Refuse(reason_text(live, "studio_plugin_no_response"))
    } else {
        StopDecision::Refuse(concat("studio_session_state_not_stoppable: current_state=", state))
    }
}

/// A session is launched only from edit mode.
pub fn judge_launch(live: &LiveStudioSessionState) -> (result: Result<(), String>)
    ensures
        match result {
            Ok(_) => launch_refusal(live@) is None,
            Err(message) => launch_refusal(live@) == Some(message@),
        },
{
    let state = live.state.as_str();
    if same_text(state, "stop") {
        Ok(())
    } else if same_text(state, "play") {
        Err("studio_already_playing: Studio is already in play/run mode".to_owned())
    } else if same_text(state, "starting_play") {
        Err("launch_already_in_progress: Studio is already entering play/run mode".to_owned())
    } else if same_text(state, "stopping") {
        Err("studio_stop_in_progress: Studio stop is already in progress".to_owned())
    } else if same_text(state, "none_connected") {
        Err(reason_text(live, "studio_plugin_not_connected"))
    } else if same_text(state, "none_response") {
        Err(reason_text(live, "studio_plugin_no_response"))
    } else {
        Err(concat("studio_session_state_not_launchable: current_state=", state))
    }
}

/// The plugin that a command goes to.
fn find_dispatch_target(
    state: &HelperState,
    place_id: &str,
    task_id: Option<&str>,
    expected: Option<&str>,
) -> (result: Result<String, String>)
    ensures
        crate::table::outcome(result) == dispatch_target(
            state@,
            place_id@,
            task_id.deep_view(),
            expected.deep_view(),
        ),
        result matches Ok(id) ==> state@.instances.contains_key(id@),
{
    match expected {
        Some(id) => match state.instances.get(id) {
            None => Err(
                concat3(
                    "studio_plugin_not_connected: selected plugin instance ",
                    id,
                    " disappeared before command dispatch",
                ),
            ),
            Some(instance) => {
                if !same_text(instance.place_id.as_str(), place_id) || !route_identity_matches(
                    instance,
                    task_id,
                ) {
                    Err(
                        concat3(
                            "studio_plugin_identity_mismatch: selected plugin instance ",
                            id,
                            " no longer matches place/task route",
                        ),
                    )
                } else {
                    Ok(id.to_owned())
                }
            },
        },
        None => match select_instance_for_route(place_id, task_id, &state.instances) {
            Some(id) => Ok(id),
            None => Err(concat("no active Studio plugin registered for placeId ", place_id)),
        },
    }
}

/// Puts a command into the queue of a plugin and awaits its answer.
pub fn dispatch_to_plugin(
    state: &mut HelperState,
    place_id: &str,
    task_id: Option<&str>,
    command: PluginCommand,
    edit_unavailable_reason: Option<&str>,
    expected_instance_id: Option<&str>,
    now: u128,
) -> (result: Result<DispatchedCommand, String>)
    requires
        super::task_status::records_wf(old(state)@),
    ensures
        match command_fault(command@) {
            Some(message) => crate::table::outcome(result) == Err::<DispatchedCommandView, _>(
                message,
            ) && final(state)@ == old(state)@,
            None => exists|workers: Map<Seq<char>, Seq<char>>|
                #![trigger super::connections::fresh(workers)]
                {
                    let ready = prepared(old(state)@, workers, now);
                    let target = dispatch_target(
                        ready,
                        place_id@,
                        task_id.deep_view(),
                        expected_instance_id.deep_view(),
                    );
                    &&& super::connections::fresh(workers)
                    &&& crate::table::outcome(result) == match target {
                        Ok(id) => Ok(
                            DispatchedCommandView {
                                instance_id: id,
                                request_id: command_id(command@)->Ok_0,
                                tool_name: command_tool(command@)->Ok_0.name,
                                task_id: if edit_unavailable_reason is Some {
                                    ready.instances[id].task_id
                                } else {
                                    None
                                },
                            },
                        ),
                        Err(message) => Err(message),
                    }
                    &&& final(state)@ == match target {
                        Ok(id) => dispatched(
                            ready,
                            id,
                            command@,
                            edit_unavailable_reason.deep_view(),
                        ),
                        Err(_) => ready,
                    }
                },
        },
        super::task_status::records_wf(final(state)@),
{
    let request_id = match extract_command_id(&command) {
        Ok(id) => id,
        Err(message) => return Err(message),
    };
    let tool_name = match extract_tool_name_and_args(&command) {
        Ok((name, _)) => name,
        Err(message) => return Err(message),
    };
    prepare(state, now);
    let ghost ready = state@;
    let id = match find_dispatch_target(state, place_id, task_id, expected_instance_id) {
        Ok(id) => id,
        Err(message) => return Err(message),
    };
    match state.instances.remove(id.as_str()) {
        None => Err("selected helper instance disappeared".to_owned()),
        Some(instance) => {
            let mut instance = instance;
            let ghost queue = instance.queue@;
            let mut status_task_id: Option<String> = None;
            if let Some(reason) = edit_unavailable_reason {
                set_edit_runtime_unavailable(&mut instance, reason);
                status_task_id = dup_text(&instance.task_id);
            }
            instance.queue.push(command);
            assert(crate::table::views(instance.queue@) =~= crate::table::views(queue).push(
                command@,
            ));
            put_instance(state, id.as_str(), instance, Ghost(ready));
            let pending = PendingPluginResponse {
                instance_id: id.clone(),
                tool_name: tool_name.clone(),
            };
            state.waiting_for_plugin.insert(request_id.clone(), pending);
            assert(state@ =~= dispatched(ready, id@, command@, edit_unavailable_reason.deep_view()));
            Ok(DispatchedCommand { instance_id: id, request_id, tool_name, task_id: status_task_id })
        },
    }
}

/// The answer of a plugin is no longer waited for. Gives what is said of it.
pub fn give_up_on_answer(state: &mut HelperState, request_id: &str, tool_name: &str) -> (message:
    String)
    ensures
        message@ == late_message(tool_name@),
        final(state)@ == (HelperStateView {
            waiting_for_plugin: old(state)@.waiting_for_plugin.remove(request_id@),
            ..old(state)@
        }),
{
    state.waiting_for_plugin.remove(request_id);
    let mut message = concat3(
        "timed out waiting ",
        decimal_text(plugin_request_timeout_for_tool(tool_name) / NANOS_PER_MILLI).as_str(),
        "ms for local plugin response to ",
    );
    message.append(tool_name);
    message
}

/// The answer of a plugin is the result of the command, or its error.
pub fn plugin_answer(response: PluginResponsePayload) -> (result: Result<String, String>)
    ensures
        crate::table::outcome(result) == if response@.success {
            Ok(response@.response)
        } else {
            Err(response@.response)
        },
{
    if response.success {
        Ok(response.response)
    } else {
        Err(response.response)
    }
}

/// What comes of a launch that a plugin answered.
pub open spec fn launch_settled(s: HelperStateView, instance_id: Seq<char>, success: bool) -> (
    HelperStateView,
    Option<Seq<char>>,
) {
    if s.instances.contains_key(instance_id) {
        (
            super::plugin::with_instance(
                s,
                instance_id,
                PluginInstanceView {
                    edit_runtime_unavailable_reason: Some(
                        if success {
                            "runtime"@
                        } else {
                            "launch_failed"@
                        },
                    ),
                    ..s.instances[instance_id]
                },
            ),
            s.instances[instance_id].task_id,
        )
    } else {
        (s, None)
    }
}

/// A plugin has answered the command to launch a session. Gives the task whose status is to be sent
/// on.
pub fn settle_launch(state: &mut HelperState, instance_id: &str, success: bool) -> (task_id: Option<
    String,
>)
    ensures
        final(state)@ == launch_settled(old(state)@, instance_id@, success).0,
        task_id.deep_view() == launch_settled(old(state)@, instance_id@, success).1,
{
    let ghost before = state@;
    match state.instances.remove(instance_id) {
        None => {
            assert(state@.instances =~= before.instances);
            None
        },
        Some(instance) => {
            let mut instance = instance;
            if success {
                set_edit_runtime_unavailable(&mut instance, "runtime");
            } else {
                set_edit_runtime_unavailable(&mut instance, "launch_failed");
            }
            let task_id = dup_text(&instance.task_id);
            put_instance(state, instance_id, instance, Ghost(before));
            task_id
        },
    }
}

/// The stop that is begun on a plugin, and the state then.
pub open spec fn stop_begun(
    s: HelperStateView,
    target: Result<Seq<char>, Seq<char>>,
    now: u128,
) -> (HelperStateView, Result<BegunStopView, Seq<char>>) {
    match target {
        Ok(id) => (
            super::plugin::with_instance(
                s,
                id,
                super::session::stop_recorded(s.instances[id], now),
            ),
            Ok(
                BegunStopView {
                    instance_id: id,
                    stop_request_id: crate::clock::more(s.instances[id].stop_request_id, 1),
                    task_id: s.instances[id].task_id,
                },
            ),
        ),
        Err(message) => (s, Err(message)),
    }
}

/// Takes down the stop of a running session.
pub fn begin_runtime_stop(
    state: &mut HelperState,
    place_id: &str,
    task_id: Option<&str>,
    live_instance_id: Option<&str>,
    now: u128,
) -> (result: Result<BegunStop, String>)
    requires
        super::task_status::records_wf(old(state)@),
    ensures
        exists|workers: Map<Seq<char>, Seq<char>>|
            #![trigger super::connections::fresh(workers)]
            {
                let ready = prepared(old(state)@, workers, now);
                let target = stop_target(
                    ready,
                    place_id@,
                    task_id.deep_view(),
                    live_instance_id.deep_view(),
                    now,
                );
                &&& super::connections::fresh(workers)
                &&& crate::table::outcome(result) == stop_begun(ready, target, now).1
                &&& final(state)@ == stop_begun(ready, target, now).0
            },
        super::task_status::records_wf(final(state)@),
{
    prepare(state, now);
    let chosen = match live_instance_id {
        Some(id) => Some(id.to_owned()),
        None => select_instance_for_route(place_id, task_id, &state.instances),
    };
    let id = match chosen {
        Some(id) => id,
        None => return Err(
            concat(
                "studio_plugin_not_connected: no active Studio plugin registered for placeId ",
                place_id,
            ),
        ),
    };
    match record_stop_request_for_instance(state, id.as_str(), now) {
        Ok(recorded) => Ok(
            BegunStop {
                instance_id: id,
                stop_request_id: recorded.stop_request_id,
                task_id: recorded.task_id,
            },
        ),
        Err(StopRequestRecordError::MissingInstance) => Err(
            concat3(
                "studio_plugin_not_connected: live query selected plugin instance ",
                id.as_str(),
                ", but it is no longer registered",
            ),
        ),
        Err(StopRequestRecordError::RuntimeActuatorUnavailable(detail)) => {
            let mut message = concat3(
                "runtime_stop_actuator_unavailable: instance_id=",
                id.as_str(),
                "; live_state=play; ",
            );
            message.append(detail.as_str());
            Err(message)
        },
    }
}

/// How far a stop has come.
pub fn check_runtime_stop(state: &HelperState, instance_id: &str, stop_request_id: u64, now: u128) -> (
    progress: StopProgress)
    ensures
        progress@ == stop_progress(state@, instance_id@, stop_request_id, now),
{
    let instance = match state.instances.get(instance_id) {
        None => {
            let mut message = concat3(
                "runtime_stop_instance_disappeared: instance_id=",
                instance_id,
                " stop_request_id=",
            );
            message.append(decimal_text(stop_request_id as u128).as_str());
            return StopProgress::Failed(message);
        },
        Some(instance) => instance,
    };
    if instance.stop_request_id > stop_request_id {
        let mut message = concat3(
            "runtime_stop_superseded: instance_id=",
            instance_id,
            " stop_request_id=",
        );
        message.append(decimal_text(stop_request_id as u128).as_str());
        message.append(" current_stop_request_id=");
        message.append(decimal_text(instance.stop_request_id as u128).as_str());
        return StopProgress::Failed(message);
    }
    if instance.stop_request_id == stop_request_id {
        if opt_is(&instance.stop_result_phase, "failed") {
            return StopProgress::Failed(
                match &instance.stop_result_error {
                    Some(text) => text.clone(),
                    None => "runtime_stop_failed".to_owned(),
                },
            );
        }
        if opt_is(&instance.stop_result_phase, "completed") && same_text(
            effective_studio_transition_phase(instance, now).as_str(),
            "idle",
        ) && same_text(edit_runtime_state(instance, now).as_str(), "ready") {
            return StopProgress::Stopped;
        }
    }
    StopProgress::Waiting
}

/// What is said of a stop that took too long.
fn delay_text(instance: &PluginInstance, now: u128) -> (detail: String)
    ensures
        detail@ == stop_delay(instance@, now),
{
    let mut detail = concat("phase=", effective_studio_transition_phase(instance, now).as_str());
    detail.append(" stop_result_phase=");
    match &instance.stop_result_phase {
        Some(phase) => detail.append(phase.as_str()),
        None => detail.append("none"),
    }
    detail.append(" runtime_actuator_last_poll_id=");
    let poll_id: Option<u128> = match instance.stop_request_last_poll_id {
        Some(id) => Some(id as u128),
        None => None,
    };
    detail.append(opt_number(poll_id).as_str());
    detail.append(" runtime_actuator_last_poll_age_ms=");
    detail.append(opt_number(age_ms(now, instance.stop_request_last_polled_at)).as_str());
    detail.append(" edit_runtime_state=");
    detail.append(edit_runtime_state(instance, now).as_str());
    detail
}

/// What comes of a stop that took too long.
pub open spec fn stop_given_up(
    s: HelperStateView,
    instance_id: Seq<char>,
    stop_request_id: u64,
    now: u128,
) -> (HelperStateView, Option<Seq<char>>) {
    if stop_is_last(s, instance_id, stop_request_id) {
        (
            super::plugin::with_instance(
                s,
                instance_id,
                super::session::stop_timed_out(
                    s.instances[instance_id],
                    stop_request_id,
                    stop_delay(s.instances[instance_id], now),
                    now,
                ),
            ),
            s.instances[instance_id].task_id,
        )
    } else {
        (s, None)
    }
}

/// A stop took too long. Gives what is said of it, and the task whose status is to be sent on.
pub fn give_up_on_stop(
    state: &mut HelperState,
    instance_id: &str,
    stop_request_id: u64,
    now: u128,
) -> (given_up: (String, Option<String>))
    ensures
        given_up.0@ == super::session::stop_timeout_message(
            stop_request_id,
            stop_delay_of(old(state)@, instance_id@, now),
        ),
        given_up.1.deep_view() == stop_given_up(
            old(state)@,
            instance_id@,
            stop_request_id,
            now,
        ).1,
        final(state)@ == stop_given_up(old(state)@, instance_id@, stop_request_id, now).0,
{
    let ghost before = state@;
    let mut status_task_id: Option<String> = None;
    let detail = match state.instances.remove(instance_id) {
        None => {
            assert(state@.instances =~= before.instances);
            "instance_missing".to_owned()
        },
        Some(instance) => {
            let mut instance = instance;
            let detail = delay_text(&instance, now);
            if instance.stop_request_id == stop_request_id {
                mark_runtime_stop_timeout(&mut instance, stop_request_id, detail.clone(), now);
                status_task_id = dup_text(&instance.task_id);
            }
            put_instance(state, instance_id, instance, Ghost(before));
            assert(state@.instances =~= if stop_is_last(before, instance_id@, stop_request_id) {
                state@.instances
            } else {
                before.instances
            });
            detail
        },
    };
    let mut message = concat(
        "runtime_stop_timeout: stop_request_id=",
        decimal_text(stop_request_id as u128).as_str(),
    );
    message.append(" ");
    message.append(detail.as_str());
    (message, status_task_id)
}

/// The words for the states of a session are all different.
proof fn lemma_live_states()
    ensures
        "stop"@ != "play"@,
        "stop"@ != "stopping"@,
        "stop"@ != "starting_play"@,
        "stop"@ != "none_response"@,
        "play"@ != "stopping"@,
        "play"@ != "starting_play"@,
        "play"@ != "none_response"@,
        "stopping"@ != "none_response"@,
        "starting_play"@ != "none_response"@,
{
    reveal_strlit("stop");
    reveal_strlit("play");
    reveal_strlit("stopping");
    reveal_strlit("starting_play");
    reveal_strlit("none_response");
    assert("stop"@[0] != "play"@[0]);
    assert("stop"@.len() != "stopping"@.len());
    assert("stop"@.len() != "starting_play"@.len());
    assert("stop"@.len() != "none_response"@.len());
    assert("play"@.len() != "stopping"@.len());
    assert("play"@.len() != "starting_play"@.len());
    assert("play"@.len() != "none_response"@.len());
    assert("stopping"@.len() != "none_response"@.len());
    assert("starting_play"@[0] != "none_response"@[0]);
}

/// A session is told to be in a state only where the plugin that was asked has said so of itself and,
/// where a task is asked for, of that task.
pub proof fn law_live_state_is_confirmed(
    task_id: Option<Seq<char>>,
    instance_id: Seq<char>,
    success: bool,
    response: Seq<char>,
    parsed: Result<PluginStudioSessionStatePayloadView, Seq<char>>,
)
    requires
        live_judged(task_id, instance_id, success, response, parsed).state != "none_response"@,
    ensures
        ({
            let told = live_judged(task_id, instance_id, success, response, parsed);
            &&& success
            &&& parsed matches Ok(payload) && payload.instance_id == Some(instance_id) && (
            task_id is Some ==> payload.task_id == task_id) && told.state
                == payload.studio_session_state
            &&& live_state_known(told.state)
            &&& told.instance_id == Some(instance_id)
        }),
{
}

/// A session is stopped only while it plays and launched only while it does not, so that no state
/// allows both.
pub proof fn law_control_fits_the_state(live: LiveStudioSessionStateView)
    ensures
        stop_judged(live) == StopDecisionView::Proceed <==> live.state == "play"@,
        launch_refusal(live) is None <==> live.state == "stop"@,
        !(stop_judged(live) == StopDecisionView::Proceed && launch_refusal(live) is None),
{
    lemma_live_states();
}

/// A command goes to a plugin of the place that it is for and, where it is for a task, of that task.
pub proof fn law_commands_stay_on_their_route(
    s: HelperStateView,
    place_id: Seq<char>,
    task_id: Option<Seq<char>>,
    expected: Option<Seq<char>>,
)
    ensures
        dispatch_target(s, place_id, task_id, expected) matches Ok(id) ==> {
            &&& s.instances.contains_key(id)
            &&& s.instances[id].place_id == place_id
            &&& task_id is Some ==> s.instances[id].task_id == task_id
            &&& expected is Some ==> expected == Some(id)
        },
{
}

/// A command is handed out after all those that were there before it, which keep their order.
pub proof fn law_commands_come_in_order(
    s: HelperStateView,
    instance_id: Seq<char>,
    command: PluginCommandView,
    reason: Option<Seq<char>>,
)
    requires
        s.instances.contains_key(instance_id),
    ensures
        ({
            let earlier = s.instances[instance_id].queue;
            let later = dispatched(s, instance_id, command, reason).instances[instance_id].queue;
            &&& later.len() == earlier.len() + 1
            &&& later.take(earlier.len() as int) == earlier
            &&& later.skip(earlier.len() as int)[0] == command
        }),
{
    let earlier = s.instances[instance_id].queue;
    assert(earlier.push(command).take(earlier.len() as int) =~= earlier);
}

} // verus!
