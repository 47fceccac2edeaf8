//! What plugins ask of the helper: they register, take commands, answer them, and report how the
//! session in their Studio goes.
use vstd::prelude::*;

use super::connections::sync_remote_connections;
use super::records::{HelperState, PluginCommand, PluginInstance};
use super::routing::{bind_launch_process_to_pid, resolve_plugin_routing_decision};
use super::session::{
    effective_studio_control_state, effective_studio_transition_phase, is_error_transition_phase,
    is_stop_request_deliverable_phase, is_stopping_transition_phase, normalize_studio_mode, opt_is,
    record_stop_request_for_instance, runtime_control_heartbeat_expired_after_observation,
    runtime_control_heartbeat_is_stale, set_edit_runtime_available, set_edit_runtime_unavailable,
    set_studio_transition_phase, studio_mode_is_running, RecordedStopRequest,
    StopRequestRecordError,
};
use crate::ids::new_token;
use crate::order::same_text;
use crate::sanitize::{maybe_sanitize_identifier, sanitize_place_id};
use crate::table::dup_text;
use crate::text::{borrowed, concat, decimal_text};
use crate::urls::runtime_log_forward_upload_url;

verus! {

use super::records::{ClaimedTaskView, HelperStateView, PluginCommandView, PluginInstanceView};
use super::session::RecordedStopRequestView;

/// The answer to a plugin that has registered.
pub struct RegisterPluginResponse {
    pub instance_id: String,
    pub place_id: String,
    pub task_id: Option<String>,
    pub remote_base_url: String,
    pub runtime_log_upload_url: Option<String>,
}

/// What a [`RegisterPluginResponse`] stands for.
#[verifier::ext_equal]
pub struct RegisterPluginResponseView {
    pub instance_id: Seq<char>,
    pub place_id: Seq<char>,
    pub task_id: Option<Seq<char>>,
    pub remote_base_url: Seq<char>,
    pub runtime_log_upload_url: Option<Seq<char>>,
}

impl View for RegisterPluginResponse {
    type V = RegisterPluginResponseView;

    open spec fn view(&self) -> RegisterPluginResponseView {
        RegisterPluginResponseView {
            instance_id: self.instance_id@,
            place_id: self.place_id@,
            task_id: self.task_id.deep_view(),
            remote_base_url: self.remote_base_url@,
            runtime_log_upload_url: self.runtime_log_upload_url.deep_view(),
        }
    }
}

/// The answer to a plugin that asks for a stop, and the task that it serves.
pub struct PolledStop {
    pub stop_requested: bool,
    pub stop_request_id: u64,
    pub task_id: Option<String>,
}

/// What a [`PolledStop`] stands for.
#[verifier::ext_equal]
pub struct PolledStopView {
    pub stop_requested: bool,
    pub stop_request_id: u64,
    pub task_id: Option<Seq<char>>,
}

impl View for PolledStop {
    type V = PolledStopView;

    open spec fn view(&self) -> PolledStopView {
        PolledStopView {
            stop_requested: self.stop_requested,
            stop_request_id: self.stop_request_id,
            task_id: self.task_id.deep_view(),
        }
    }
}

/// How a stop went, as the runtime tells it.
pub struct PluginStopResultPayload {
    pub instance_id: String,
    pub stop_request_id: u64,
    pub phase: String,
    pub error: Option<String>,
}

/// What a [`PluginStopResultPayload`] stands for.
#[verifier::ext_equal]
pub struct PluginStopResultPayloadView {
    pub instance_id: Seq<char>,
    pub stop_request_id: u64,
    pub phase: Seq<char>,
    pub error: Option<Seq<char>>,
}

impl View for PluginStopResultPayload {
    type V = PluginStopResultPayloadView;

    open spec fn view(&self) -> PluginStopResultPayloadView {
        PluginStopResultPayloadView {
            instance_id: self.instance_id@,
            stop_request_id: self.stop_request_id,
            phase: self.phase@,
            error: self.error.deep_view(),
        }
    }
}

/// The answer of a plugin to a command.
pub struct PluginResponsePayload {
    pub instance_id: Option<String>,
    pub id: String,
    pub success: bool,
    pub response: String,
}

/// What a [`PluginResponsePayload`] stands for.
#[verifier::ext_equal]
pub struct PluginResponsePayloadView {
    pub instance_id: Option<Seq<char>>,
    pub id: Seq<char>,
    pub success: bool,
    pub response: Seq<char>,
}

impl View for PluginResponsePayload {
    type V = PluginResponsePayloadView;

    open spec fn view(&self) -> PluginResponsePayloadView {
        PluginResponsePayloadView {
            instance_id: self.instance_id.deep_view(),
            id: self.id@,
            success: self.success,
            response: self.response@,
        }
    }
}

/// The answer to a report of a plugin.
pub enum ReportReply {
    /// The plugin is not registered.
    Expired,
    /// The report does not fit.
    Invalid(String),
    /// The report came too late and was passed over.
    Ignored,
    /// The report was taken; the status of the task is to be sent on.
    Taken(Option<String>),
}

/// What a [`ReportReply`] stands for.
pub enum ReportReplyView {
    Expired,
    Invalid(Seq<char>),
    Ignored,
    Taken(Option<Seq<char>>),
}

impl View for ReportReply {
    type V = ReportReplyView;

    open spec fn view(&self) -> ReportReplyView {
        match self {
            ReportReply::Expired => ReportReplyView::Expired,
            ReportReply::Invalid(message) => ReportReplyView::Invalid(message@),
            ReportReply::Ignored => ReportReplyView::Ignored,
            ReportReply::Taken(task_id) => ReportReplyView::Taken(task_id.deep_view()),
        }
    }
}

/// The answer to a plugin that asks for a command.
pub enum CommandPoll {
    /// The plugin is not registered.
    Expired,
    /// There is no command yet.
    Waiting,
    /// The next command.
    Command(PluginCommand),
}

/// What a [`CommandPoll`] stands for.
pub enum CommandPollView {
    Expired,
    Waiting,
    Command(PluginCommandView),
}

impl View for CommandPoll {
    type V = CommandPollView;

    open spec fn view(&self) -> CommandPollView {
        match self {
            CommandPoll::Expired => CommandPollView::Expired,
            CommandPoll::Waiting => CommandPollView::Waiting,
            CommandPoll::Command(command) => CommandPollView::Command(command@),
        }
    }
}

/// What becomes of an answer of a plugin.
pub enum Delivery {
    /// Nobody waits for the answer, or it comes from another plugin.
    Dropped,
    /// The answer goes to the one who waits; the status of the task is to be sent on.
    Delivered(Option<String>),
}

/// What a [`Delivery`] stands for.
pub enum DeliveryView {
    Dropped,
    Delivered(Option<Seq<char>>),
}

impl View for Delivery {
    type V = DeliveryView;

    open spec fn view(&self) -> DeliveryView {
        match self {
            Delivery::Dropped => DeliveryView::Dropped,
            Delivery::Delivered(task_id) => DeliveryView::Delivered(task_id.deep_view()),
        }
    }
}

/// The state with another record of a plugin.
pub open spec fn with_instance(s: HelperStateView, id: Seq<char>, i: PluginInstanceView) -> HelperStateView {
    HelperStateView { instances: s.instances.insert(id, i), ..s }
}

/// A plugin that has just registered.
pub open spec fn newcomer(
    place_id: Seq<char>,
    task: ClaimedTaskView,
    studio_pid: Option<u32>,
    now: u128,
) -> PluginInstanceView {
    PluginInstanceView {
        place_id,
        task_id: Some(task.task_id),
        remote_base_url: task.mcp_base_url,
        studio_pid,
        studio_mode: None,
        studio_mode_observed_at: None,
        studio_mode_source: "none"@,
        studio_control_state: "none"@,
        studio_transition_phase: "idle"@,
        studio_transition_started_at: None,
        studio_control_observed_at: None,
        edit_runtime_observed_at: Some(now),
        edit_runtime_unavailable_reason: None,
        studio_control_last_error: None,
        stop_request_id: 0,
        stop_request_recorded_at: None,
        stop_request_last_polled_at: None,
        stop_request_last_poll_id: None,
        stop_result_phase: None,
        stop_result_error: None,
        stop_result_observed_at: None,
        last_seen_at: now,
        queue: Seq::empty(),
    }
}

/// The state with a new plugin, but for the upkeep of the connections.
pub open spec fn registered(
    s: HelperStateView,
    instance_id: Seq<char>,
    place_id: Seq<char>,
    task: ClaimedTaskView,
    studio_pid: Option<u32>,
    now: u128,
) -> HelperStateView {
    let joined = with_instance(s, instance_id, newcomer(place_id, task, studio_pid, now));
    match studio_pid {
        Some(pid) => super::routing::bound(joined, task, pid),
        None => joined,
    }
}

/// The answer to a plugin that has registered.
pub open spec fn registration(
    instance_id: Seq<char>,
    place_id: Seq<char>,
    task: ClaimedTaskView,
    helper_port: u16,
) -> RegisterPluginResponseView {
    RegisterPluginResponseView {
        instance_id,
        place_id,
        task_id: Some(task.task_id),
        remote_base_url: task.mcp_base_url,
        runtime_log_upload_url: if task.runtime_log_base_url is Some {
            Some(
                crate::urls::forward_url(
                    helper_port,
                    "runtime-log-forward"@,
                    place_id,
                    task.task_id,
                ) + "/v1/runtime-logs"@,
            )
        } else {
            None
        },
    }
}

/// Some plugin is at the place.
pub open spec fn place_served(s: HelperStateView, place_id: Seq<char>) -> bool {
    exists|k: Seq<char>| #[trigger] s.instances.contains_key(k) && s.instances[k].place_id == place_id
}

/// The state without a plugin, but for the upkeep of the connections: the error of its place goes
/// with the last plugin there.
pub open spec fn unregistered(s: HelperStateView, instance_id: Seq<char>) -> HelperStateView {
    let left = HelperStateView { instances: s.instances.remove(instance_id), ..s };
    if s.instances.contains_key(instance_id) && !place_served(
        left,
        s.instances[instance_id].place_id,
    ) {
        HelperStateView {
            last_remote_errors: s.last_remote_errors.remove(s.instances[instance_id].place_id),
            ..left
        }
    } else {
        left
    }
}

/// A stop is to be handed to the plugin that knows of those up to `after_id`.
pub open spec fn stop_deliverable(i: PluginInstanceView, after_id: Option<u64>) -> bool {
    i.stop_request_id > known_stop(after_id) && i.studio_transition_phase == "stopping_requested"@
}

/// The last stop that a plugin knows of.
pub open spec fn known_stop(after_id: Option<u64>) -> u64 {
    match after_id {
        Some(id) => id,
        None => 0,
    }
}

/// A plugin after it has asked for a stop.
pub open spec fn stop_polled(i: PluginInstanceView, after_id: Option<u64>, now: u128) -> PluginInstanceView {
    PluginInstanceView {
        stop_request_last_polled_at: Some(now),
        stop_request_last_poll_id: Some(
            if stop_deliverable(i, after_id) {
                i.stop_request_id
            } else {
                known_stop(after_id)
            },
        ),
        ..i
    }
}

/// What is said of a stop that the runtime could not execute.
pub open spec fn stop_failure(stop_request_id: u64, error: Option<Seq<char>>) -> Seq<char> {
    "runtime_stop_failed: play runtime failed to execute stop_request_id="@ + crate::text::decimal(
        stop_request_id as nat,
    ) + ": "@ + match error {
        Some(text) => text,
        None => "unknown runtime stop failure"@,
    }
}

/// The report of a stop is for the stop that is under way.
pub open spec fn stop_result_current(i: PluginInstanceView, stop_request_id: u64) -> bool {
    i.stop_request_id == stop_request_id && super::session::stopping_phase(i.studio_transition_phase)
}

/// A plugin whose runtime has seen the stop.
pub open spec fn stop_observed(i: PluginInstanceView, now: u128) -> PluginInstanceView {
    PluginInstanceView {
        studio_control_state: "stopping"@,
        studio_control_last_error: None,
        stop_result_phase: Some("observed"@),
        stop_result_error: None,
        stop_result_observed_at: Some(now),
        last_seen_at: now,
        ..super::session::with_phase(i, "stopping_observed"@, now)
    }
}

/// A plugin whose runtime could not execute the stop.
pub open spec fn stop_failed(
    i: PluginInstanceView,
    stop_request_id: u64,
    error: Option<Seq<char>>,
    now: u128,
) -> PluginInstanceView {
    PluginInstanceView {
        studio_control_state: "lost"@,
        studio_control_observed_at: None,
        studio_control_last_error: Some(stop_failure(stop_request_id, error)),
        stop_result_phase: Some("failed"@),
        stop_result_error: Some(stop_failure(stop_request_id, error)),
        stop_result_observed_at: Some(now),
        last_seen_at: now,
        ..super::session::with_phase(i, "error"@, now)
    }
}

/// The answer to the report of a stop, and the plugin after it.
pub open spec fn stop_result_step(
    i: PluginInstanceView,
    stop_request_id: u64,
    phase: Seq<char>,
    error: Option<Seq<char>>,
    now: u128,
) -> (PluginInstanceView, ReportReplyView) {
    if !stop_result_current(i, stop_request_id) {
        (i, ReportReplyView::Ignored)
    } else if phase == "observed"@ {
        (
            stop_observed(i, now),
            ReportReplyView::Taken(
                if i.studio_transition_phase != "stopping_observed"@ {
                    i.task_id
                } else {
                    None
                },
            ),
        )
    } else if phase == "failed"@ {
        (
            stop_failed(i, stop_request_id, error, now),
            ReportReplyView::Taken(
                if i.studio_transition_phase != "error"@ {
                    i.task_id
                } else {
                    None
                },
            ),
        )
    } else {
        (i, ReportReplyView::Invalid("invalid stop result phase"@))
    }
}

/// A plugin after its runtime control was heard of.
pub open spec fn control_heard(i: PluginInstanceView, now: u128) -> PluginInstanceView {
    let seen = PluginInstanceView {
        studio_control_observed_at: Some(now),
        last_seen_at: now,
        ..i
    };
    if i.studio_transition_phase == "error"@ {
        PluginInstanceView { studio_control_state: "lost"@, ..seen }
    } else if super::session::stopping_phase(i.studio_transition_phase) {
        PluginInstanceView { studio_control_state: "stopping"@, ..seen }
    } else {
        PluginInstanceView {
            studio_control_state: "ready"@,
            studio_control_last_error: None,
            edit_runtime_unavailable_reason: Some("runtime"@),
            ..super::session::with_phase(seen, "running"@, now)
        }
    }
}

/// The status of the plugin is news after its runtime control was heard of.
pub open spec fn control_news(i: PluginInstanceView, now: u128) -> bool {
    super::session::effective_control(i, now) != "ready"@ || super::session::effective_phase(i, now)
        != "running"@
}

/// The answer to a control heartbeat.
pub open spec fn control_reply(
    s: HelperStateView,
    instance_id: Seq<char>,
    mode: Seq<char>,
    now: u128,
) -> ReportReplyView {
    let known = super::session::mode_normalized(Some(mode));
    if known is None {
        ReportReplyView::Invalid("invalid studio mode"@)
    } else if !super::session::running_mode(known) {
        ReportReplyView::Invalid("control heartbeat requires a running mode"@)
    } else if !s.instances.contains_key(instance_id) {
        ReportReplyView::Expired
    } else {
        ReportReplyView::Taken(
            if control_news(s.instances[instance_id], now) {
                s.instances[instance_id].task_id
            } else {
                None
            },
        )
    }
}

/// A plugin back in edit mode.
pub open spec fn back_in_edit(i: PluginInstanceView, now: u128) -> PluginInstanceView {
    PluginInstanceView {
        studio_control_state: "none"@,
        studio_control_observed_at: None,
        studio_control_last_error: None,
        edit_runtime_observed_at: Some(now),
        edit_runtime_unavailable_reason: None,
        ..super::session::with_phase(i, "idle"@, now)
    }
}

/// The runtime control of the plugin was heard of, but not lately.
pub open spec fn control_lost(i: PluginInstanceView, now: u128) -> bool {
    i.studio_control_observed_at is Some && !super::session::control_recent(i, now)
}

/// A plugin after its edit side was heard of. A stop under way is completed once the runtime has seen
/// it and is silent; a running or failed session is over once its runtime control is lost.
pub open spec fn edit_heard(i: PluginInstanceView, now: u128) -> PluginInstanceView {
    let seen = PluginInstanceView { last_seen_at: now, ..i };
    let edit_seen = PluginInstanceView { edit_runtime_observed_at: Some(now), ..seen };
    if super::session::active_stop(i) is Some {
        if i.stop_result_phase == Some("observed"@) && !super::session::control_recent(i, now) {
            PluginInstanceView {
                stop_result_phase: Some("completed"@),
                stop_result_error: None,
                stop_result_observed_at: Some(now),
                ..back_in_edit(seen, now)
            }
        } else {
            PluginInstanceView {
                edit_runtime_unavailable_reason: Some("stopping"@),
                ..edit_seen
            }
        }
    } else if i.edit_runtime_unavailable_reason == Some("launching"@) {
        edit_seen
    } else if i.edit_runtime_unavailable_reason == Some("launch_failed"@)
        || i.edit_runtime_unavailable_reason == Some("runtime"@) {
        if control_lost(i, now) {
            back_in_edit(seen, now)
        } else {
            edit_seen
        }
    } else {
        PluginInstanceView { edit_runtime_unavailable_reason: None, ..edit_seen }
    }
}

/// The answer is from the plugin that was asked.
pub open spec fn answer_fits(s: HelperStateView, payload: PluginResponsePayloadView) -> bool {
    s.waiting_for_plugin.contains_key(payload.id) && payload.instance_id == Some(
        s.waiting_for_plugin[payload.id].instance_id,
    )
}

/// The state after an answer was handed in: a request that is answered by its own plugin waits no
/// more.
pub open spec fn answered(s: HelperStateView, payload: PluginResponsePayloadView) -> HelperStateView {
    if answer_fits(s, payload) {
        HelperStateView { waiting_for_plugin: s.waiting_for_plugin.remove(payload.id), ..s }
    } else {
        s
    }
}

/// What becomes of an answer of a plugin.
pub open spec fn delivery(s: HelperStateView, payload: PluginResponsePayloadView) -> DeliveryView {
    let id = s.waiting_for_plugin[payload.id].instance_id;
    if !answer_fits(s, payload) {
        DeliveryView::Dropped
    } else if s.instances.contains_key(id) {
        DeliveryView::Delivered(s.instances[id].task_id)
    } else {
        DeliveryView::Delivered(None)
    }
}

/// Puts back the record of a plugin that was there before.
pub(crate) fn put_instance(
    state: &mut HelperState,
    instance_id: &str,
    instance: PluginInstance,
    Ghost(before): Ghost<HelperStateView>,
)
    requires
        old(state)@ == (HelperStateView {
            instances: before.instances.remove(instance_id@),
            ..before
        }),
    ensures
        final(state)@ == with_instance(before, instance_id@, instance@),
{
    let ghost after = instance@;
    state.instances.insert(instance_id.to_owned(), instance);
    assert(state@.instances =~= before.instances.insert(instance_id@, after));
}

/// The place and the task that a plugin names, in the form that they are kept in.
pub fn check_plugin_route(place_id: &str, task_id: &Option<String>) -> (result: Result<
    (String, Option<String>),
    String,
>)
    ensures
        match result {
            Ok((place, task)) => {
                &&& crate::sanitize::is_place_id(crate::text::trimmed(place_id@))
                &&& place@ == crate::text::trimmed(place_id@)
                &&& crate::sanitize::optional_name(task_id.deep_view())
                &&& task.deep_view() == match task_id.deep_view() {
                    Some(text) => Some(crate::text::trimmed(text)),
                    None => None,
                }
            },
            Err(message) => if !crate::sanitize::is_place_id(crate::text::trimmed(place_id@)) {
                message@ == "placeId must be digits only"@
            } else {
                &&& !crate::sanitize::optional_name(task_id.deep_view())
                &&& message@ == crate::sanitize::name_message("task_id"@)
            },
        },
{
    let place = match sanitize_place_id(place_id) {
        Ok(place) => place,
        Err(message) => return Err(message),
    };
    match maybe_sanitize_identifier("task_id", task_id) {
        Ok(task) => Ok((place, task)),
        Err(message) => Err(message),
    }
}

/// Registers a plugin under the given identifier, for the task that it works for.
pub fn register_plugin_as(
    state: &mut HelperState,
    instance_id: &str,
    place_id: &str,
    task_id: Option<&str>,
    studio_pid: Option<u32>,
    helper_port: u16,
    now: u128,
) -> (result: Result<RegisterPluginResponse, String>)
    requires
        super::task_status::records_wf(old(state)@),
    ensures
        crate::table::outcome(result) == match super::routing::claim_routed(
            old(state)@,
            place_id@,
            task_id.deep_view(),
            studio_pid,
        ) {
            Ok(task) => Ok(registration(instance_id@, place_id@, task, helper_port)),
            Err(message) => Err(message),
        },
        match super::routing::claim_routed(
            old(state)@,
            place_id@,
            task_id.deep_view(),
            studio_pid,
        ) {
            Ok(task) => exists|workers: Map<Seq<char>, Seq<char>>| #[trigger]
                super::connections::fresh(workers) && final(state)@ == super::connections::synced(
                    registered(old(state)@, instance_id@, place_id@, task, studio_pid, now),
                    workers,
                    now,
                ),
            Err(_) => final(state)@ == old(state)@,
        },
        super::task_status::records_wf(final(state)@),
{
    let task = match resolve_plugin_routing_decision(state, place_id, task_id, studio_pid) {
        Ok(task) => task,
        Err(message) => return Err(message),
    };
    let instance = PluginInstance {
        place_id: place_id.to_owned(),
        task_id: Some(task.task_id.clone()),
        remote_base_url: task.mcp_base_url.clone(),
        studio_pid,
        studio_mode: None,
        studio_mode_observed_at: None,
        studio_mode_source: "none".to_owned(),
        studio_control_state: "none".to_owned(),
        studio_transition_phase: "idle".to_owned(),
        studio_transition_started_at: None,
        studio_control_observed_at: None,
        edit_runtime_observed_at: Some(now),
        edit_runtime_unavailable_reason: None,
        studio_control_last_error: None,
        stop_request_id: 0,
        stop_request_recorded_at: None,
        stop_request_last_polled_at: None,
        stop_request_last_poll_id: None,
        stop_result_phase: None,
        stop_result_error: None,
        stop_result_observed_at: None,
        last_seen_at: now,
        queue: Vec::new(),
    };
    assert(instance@ =~= newcomer(place_id@, task@, studio_pid, now));
    state.instances.insert(instance_id.to_owned(), instance);
    if let Some(pid) = studio_pid {
        match bind_launch_process_to_pid(state, &task, pid) {
            Ok(_) => {},
            Err(message) => return Err(message),
        }
    }
    sync_remote_connections(state, now);
    let runtime_log_upload_url = match &task.runtime_log_base_url {
        Some(_) => Some(
            runtime_log_forward_upload_url(helper_port, place_id, task.task_id.as_str()),
        ),
        None => None,
    };
    Ok(
        RegisterPluginResponse {
            instance_id: instance_id.to_owned(),
            place_id: place_id.to_owned(),
            task_id: Some(task.task_id),
            remote_base_url: task.mcp_base_url,
            runtime_log_upload_url,
        },
    )
}

/// Registers a plugin under a random identifier, for the task that it works for.
pub fn register_plugin(
    state: &mut HelperState,
    place_id: &str,
    task_id: Option<&str>,
    studio_pid: Option<u32>,
    helper_port: u16,
    now: u128,
) -> (result: Result<RegisterPluginResponse, String>)
    requires
        super::task_status::records_wf(old(state)@),
    ensures
        match super::routing::claim_routed(
            old(state)@,
            place_id@,
            task_id.deep_view(),
            studio_pid,
        ) {
            Ok(task) => exists|id: Seq<char>, workers: Map<Seq<char>, Seq<char>>|
                crate::ids::is_token(id) && #[trigger] super::connections::fresh(workers)
                    && crate::table::outcome(result) == Ok::<_, Seq<char>>(
                    #[trigger] registration(id, place_id@, task, helper_port),
                ) && final(state)@ == super::connections::synced(
                    registered(old(state)@, id, place_id@, task, studio_pid, now),
                    workers,
                    now,
                ),
            Err(message) => crate::table::outcome(result) == Err::<RegisterPluginResponseView, _>(
                message,
            ) && final(state)@ == old(state)@,
        },
        super::task_status::records_wf(final(state)@),
{
    let id = new_token();
    register_plugin_as(state, id.as_str(), place_id, task_id, studio_pid, helper_port, now)
}

/// Forgets a plugin.
pub fn unregister_plugin(state: &mut HelperState, instance_id: &str, now: u128)
    requires
        super::task_status::records_wf(old(state)@),
    ensures
        exists|workers: Map<Seq<char>, Seq<char>>| #[trigger]
            super::connections::fresh(workers) && final(state)@ == super::connections::synced(
                unregistered(old(state)@, instance_id@),
                workers,
                now,
            ),
        super::task_status::records_wf(final(state)@),
{
    if let Some(instance) = state.instances.remove(instance_id) {
        let place_id = instance.place_id;
        let test = |k: &str, i: &PluginInstance| -> (r: bool)
            ensures
                r == (i@.place_id == place_id@),
        { same_text(i.place_id.as_str(), place_id.as_str()) };
        let still_active = state.instances.any(
            test,
            Ghost(|k: Seq<char>, i: PluginInstanceView| i.place_id == place_id@),
        );
        if !still_active {
            state.last_remote_errors.remove(place_id.as_str());
        }
    }
    sync_remote_connections(state, now);
}

/// What comes of a request to stop the session of a plugin.
pub open spec fn stop_asked(s: HelperStateView, instance_id: Seq<char>, now: u128) -> (
    HelperStateView,
    Result<RecordedStopRequestView, (u16, Seq<char>)>,
) {
    let before = s.instances[instance_id];
    if !s.instances.contains_key(instance_id) {
        (s, Err((400, "plugin instance expired: "@ + instance_id)))
    } else if !super::session::fresh_control(before, now) {
        (
            s,
            Err(
                (
                    409,
                    "runtime_stop_actuator_unavailable: "@ + super::session::unavailable_detail(
                        before,
                        now,
                    ),
                ),
            ),
        )
    } else {
        (
            with_instance(s, instance_id, super::session::stop_recorded(before, now)),
            Ok(
                RecordedStopRequestView {
                    place_id: before.place_id,
                    task_id: before.task_id,
                    stop_request_id: crate::clock::more(before.stop_request_id, 1),
                },
            ),
        )
    }
}

/// What a plugin is told that asks whether it is to stop.
pub open spec fn stop_poll(
    s: HelperStateView,
    instance_id: Seq<char>,
    after_id: Option<u64>,
    now: u128,
) -> (HelperStateView, Option<PolledStopView>) {
    let before = s.instances[instance_id];
    if s.instances.contains_key(instance_id) {
        (
            with_instance(s, instance_id, stop_polled(before, after_id, now)),
            Some(
                PolledStopView {
                    stop_requested: stop_deliverable(before, after_id),
                    stop_request_id: before.stop_request_id,
                    task_id: before.task_id,
                },
            ),
        )
    } else {
        (s, None)
    }
}

/// What a plugin is told that asks for its next command.
pub open spec fn command_poll(s: HelperStateView, instance_id: Seq<char>, now: u128) -> (
    HelperStateView,
    CommandPollView,
) {
    let before = s.instances[instance_id];
    if !s.instances.contains_key(instance_id) {
        (s, CommandPollView::Expired)
    } else if before.queue.len() == 0 {
        (
            with_instance(s, instance_id, PluginInstanceView { last_seen_at: now, ..before }),
            CommandPollView::Waiting,
        )
    } else {
        (
            with_instance(
                s,
                instance_id,
                PluginInstanceView {
                    last_seen_at: now,
                    queue: before.queue.drop_first(),
                    ..before
                },
            ),
            CommandPollView::Command(before.queue[0]),
        )
    }
}

/// Takes down a request of a plugin to stop its session. A plugin that is not registered is told so
/// with the status 400, one whose runtime control is not fresh with the status 409.
pub fn request_plugin_stop(state: &mut HelperState, instance_id: &str, now: u128) -> (result: Result<
    RecordedStopRequest,
    (u16, String),
>)
    ensures
        final(state)@ == stop_asked(old(state)@, instance_id@, now).0,
        match result {
            Ok(recorded) => stop_asked(old(state)@, instance_id@, now).1 == Ok::<
                RecordedStopRequestView,
                (u16, Seq<char>),
            >(recorded@),
            Err((status, message)) => stop_asked(old(state)@, instance_id@, now).1 == Err::<
                RecordedStopRequestView,
                (u16, Seq<char>),
            >((status, message@)),
        },
{
    match record_stop_request_for_instance(state, instance_id, now) {
        Ok(recorded) => Ok(recorded),
        Err(StopRequestRecordError::MissingInstance) => Err(
            (400, concat("plugin instance expired: ", instance_id)),
        ),
        Err(StopRequestRecordError::RuntimeActuatorUnavailable(detail)) => Err(
            (409, concat("runtime_stop_actuator_unavailable: ", detail.as_str())),
        ),
    }
}

/// A plugin asks for a stop that it does not know of yet.
pub fn poll_plugin_stop(
    state: &mut HelperState,
    instance_id: &str,
    after_id: Option<u64>,
    now: u128,
) -> (polled: Option<PolledStop>)
    ensures
        final(state)@ == stop_poll(old(state)@, instance_id@, after_id, now).0,
        crate::table::opt_view(polled) == stop_poll(old(state)@, instance_id@, after_id, now).1,
{
    let ghost before = state@;
    match state.instances.remove(instance_id) {
        None => {
            assert(state@.instances =~= before.instances);
            None
        },
        Some(instance) => {
            let mut instance = instance;
            let known: u64 = match after_id {
                Some(id) => id,
                None => 0,
            };
            let stop_request_id: u64 = instance.stop_request_id;
            let stop_requested = stop_request_id > known && is_stop_request_deliverable_phase(
                instance.studio_transition_phase.as_str(),
            );
            instance.stop_request_last_polled_at = Some(now);
            instance.stop_request_last_poll_id = Some(
                if stop_requested {
                    stop_request_id
                } else {
                    known
                },
            );
            let task_id = dup_text(&instance.task_id);
            put_instance(state, instance_id, instance, Ghost(before));
            Some(PolledStop { stop_requested, stop_request_id, task_id })
        },
    }
}

/// The runtime reports how a stop went.
pub fn apply_plugin_stop_result(
    state: &mut HelperState,
    payload: &PluginStopResultPayload,
    now: u128,
) -> (reply: ReportReply)
    ensures
        final(state)@ == stop_reported(old(state)@, payload@, now).0,
        reply@ == stop_reported(old(state)@, payload@, now).1,
{
    let ghost before = state@;
    let instance_id = payload.instance_id.as_str();
    let instance = match state.instances.remove(instance_id) {
        None => {
            assert(state@.instances =~= before.instances);
            return ReportReply::Expired;
        },
        Some(instance) => instance,
    };
    let mut instance = instance;
    if instance.stop_request_id != payload.stop_request_id || !is_stopping_transition_phase(
        instance.studio_transition_phase.as_str(),
    ) {
        put_instance(state, instance_id, instance, Ghost(before));
        return ReportReply::Ignored;
    }
    let reply;
    if same_text(payload.phase.as_str(), "observed") {
        let news = !same_text(instance.studio_transition_phase.as_str(), "stopping_observed");
        instance.studio_control_state = "stopping".to_owned();
        set_studio_transition_phase(&mut instance, "stopping_observed", now);
        instance.studio_control_last_error = None;
        instance.stop_result_phase = Some("observed".to_owned());
        instance.stop_result_error = None;
        instance.stop_result_observed_at = Some(now);
        instance.last_seen_at = now;
        reply = ReportReply::Taken(
            if news {
                dup_text(&instance.task_id)
            } else {
                None
            },
        );
    } else if same_text(payload.phase.as_str(), "failed") {
        let mut message = concat(
            "runtime_stop_failed: play runtime failed to execute stop_request_id=",
            decimal_text(payload.stop_request_id as u128).as_str(),
        );
        message.append(": ");
        match &payload.error {
            Some(text) => message.append(text.as_str()),
            None => message.append("unknown runtime stop failure"),
        }
        let news = !same_text(instance.studio_transition_phase.as_str(), "error");
        instance.studio_control_state = "lost".to_owned();
        set_studio_transition_phase(&mut instance, "error", now);
        instance.studio_control_observed_at = None;
        instance.studio_control_last_error = Some(message.clone());
        instance.stop_result_phase = Some("failed".to_owned());
        instance.stop_result_error = Some(message);
        instance.stop_result_observed_at = Some(now);
        instance.last_seen_at = now;
        reply = ReportReply::Taken(
            if news {
                dup_text(&instance.task_id)
            } else {
                None
            },
        );
    } else {
        reply = ReportReply::Invalid("invalid stop result phase".to_owned());
    }
    put_instance(state, instance_id, instance, Ghost(before));
    reply
}

/// The state after a plugin reported that play runs.
pub open spec fn control_reported(
    s: HelperStateView,
    instance_id: Seq<char>,
    mode: Seq<char>,
    now: u128,
) -> HelperStateView {
    if control_reply(s, instance_id, mode, now) is Taken {
        with_instance(s, instance_id, control_heard(s.instances[instance_id], now))
    } else {
        s
    }
}

/// What comes of a report from edit mode.
pub open spec fn edit_reported(s: HelperStateView, instance_id: Seq<char>, now: u128) -> (
    HelperStateView,
    ReportReplyView,
) {
    if s.instances.contains_key(instance_id) {
        (
            with_instance(s, instance_id, edit_heard(s.instances[instance_id], now)),
            ReportReplyView::Taken(s.instances[instance_id].task_id),
        )
    } else {
        (s, ReportReplyView::Expired)
    }
}

/// What comes of what a plugin says of a stop.
pub open spec fn stop_reported(
    s: HelperStateView,
    payload: PluginStopResultPayloadView,
    now: u128,
) -> (HelperStateView, ReportReplyView) {
    let id = payload.instance_id;
    let step = stop_result_step(
        s.instances[id],
        payload.stop_request_id,
        payload.phase,
        payload.error,
        now,
    );
    if s.instances.contains_key(id) {
        (with_instance(s, id, step.0), step.1)
    } else {
        (s, ReportReplyView::Expired)
    }
}

/// The runtime control of a plugin reports.
pub fn apply_control_heartbeat(state: &mut HelperState, instance_id: &str, mode: &str, now: u128) -> (
    reply: ReportReply)
    ensures
        reply@ == control_reply(old(state)@, instance_id@, mode@, now),
        final(state)@ == control_reported(old(state)@, instance_id@, mode@, now),
{
    let known = match normalize_studio_mode(Some(mode)) {
        Some(known) => known,
        None => return ReportReply::Invalid("invalid studio mode".to_owned()),
    };
    if !studio_mode_is_running(Some(known.as_str())) {
        return ReportReply::Invalid("control heartbeat requires a running mode".to_owned());
    }
    let ghost before = state@;
    match state.instances.remove(instance_id) {
        None => {
            assert(state@.instances =~= before.instances);
            ReportReply::Expired
        },
        Some(instance) => {
            let mut instance = instance;
            let news = !same_text(
                effective_studio_control_state(&instance, now).as_str(),
                "ready",
            ) || !same_text(
                effective_studio_transition_phase(&instance, now).as_str(),
                "running",
            );
            instance.studio_control_observed_at = Some(now);
            if is_error_transition_phase(instance.studio_transition_phase.as_str()) {
                instance.studio_control_state = "lost".to_owned();
            } else if is_stopping_transition_phase(instance.studio_transition_phase.as_str()) {
                instance.studio_control_state = "stopping".to_owned();
            } else {
                instance.studio_control_state = "ready".to_owned();
                set_studio_transition_phase(&mut instance, "running", now);
                instance.studio_control_last_error = None;
                set_edit_runtime_unavailable(&mut instance, "runtime");
            }
            instance.last_seen_at = now;
            let task_id = if news {
                dup_text(&instance.task_id)
            } else {
                None
            };
            put_instance(state, instance_id, instance, Ghost(before));
            ReportReply::Taken(task_id)
        },
    }
}

/// A plugin asks for its next command.
pub fn take_plugin_command(state: &mut HelperState, instance_id: &str, now: u128) -> (poll:
    CommandPoll)
    ensures
        final(state)@ == command_poll(old(state)@, instance_id@, now).0,
        poll@ == command_poll(old(state)@, instance_id@, now).1,
{
    let ghost before = state@;
    match state.instances.remove(instance_id) {
        None => {
            assert(state@.instances =~= before.instances);
            CommandPoll::Expired
        },
        Some(instance) => {
            let mut instance = instance;
            instance.last_seen_at = now;
            if instance.queue.len() == 0 {
                put_instance(state, instance_id, instance, Ghost(before));
                CommandPoll::Waiting
            } else {
                let ghost queue = instance.queue@;
                let command = instance.queue.remove(0);
                assert(crate::table::views(instance.queue@) =~= crate::table::views(
                    queue,
                ).drop_first());
                put_instance(state, instance_id, instance, Ghost(before));
                CommandPoll::Command(command)
            }
        },
    }
}

/// Brings a plugin back to edit mode.
fn return_to_edit(instance: &mut PluginInstance, now: u128)
    ensures
        final(instance)@ == back_in_edit(old(instance)@, now),
{
    instance.studio_control_state = "none".to_owned();
    set_studio_transition_phase(instance, "idle", now);
    instance.studio_control_observed_at = None;
    instance.studio_control_last_error = None;
    set_edit_runtime_available(instance, now);
}

/// The edit side of a plugin reports. Gives the task whose status is to be sent on.
pub fn apply_edit_heartbeat(state: &mut HelperState, instance_id: &str, now: u128) -> (reply:
    ReportReply)
    ensures
        final(state)@ == edit_reported(old(state)@, instance_id@, now).0,
        reply@ == edit_reported(old(state)@, instance_id@, now).1,
{
    let ghost before = state@;
    let instance = match state.instances.remove(instance_id) {
        None => {
            assert(state@.instances =~= before.instances);
            return ReportReply::Expired;
        },
        Some(instance) => instance,
    };
    let mut instance = instance;
    let ghost first = instance@;
    if is_stopping_transition_phase(instance.studio_transition_phase.as_str())
        && instance.stop_request_id > 0 {
        instance.edit_runtime_observed_at = Some(now);
        if opt_is(&instance.stop_result_phase, "observed") && runtime_control_heartbeat_is_stale(
            &instance,
            now,
        ) {
            return_to_edit(&mut instance, now);
            instance.stop_result_phase = Some("completed".to_owned());
            instance.stop_result_error = None;
            instance.stop_result_observed_at = Some(now);
        } else {
            set_edit_runtime_unavailable(&mut instance, "stopping");
        }
    } else if opt_is(&instance.edit_runtime_unavailable_reason, "launching") {
        instance.edit_runtime_observed_at = Some(now);
    } else if opt_is(&instance.edit_runtime_unavailable_reason, "launch_failed") || opt_is(
        &instance.edit_runtime_unavailable_reason,
        "runtime",
    ) {
        if runtime_control_heartbeat_expired_after_observation(&instance, now) {
            return_to_edit(&mut instance, now);
        } else {
            instance.edit_runtime_observed_at = Some(now);
        }
    } else {
        set_edit_runtime_available(&mut instance, now);
    }
    instance.last_seen_at = now;
    assert(instance@ =~= edit_heard(first, now));
    let task_id = dup_text(&instance.task_id);
    put_instance(state, instance_id, instance, Ghost(before));
    ReportReply::Taken(task_id)
}

/// A plugin answers a command. The request stops waiting where the answer is from the plugin that was
/// asked.
pub fn apply_plugin_response(state: &mut HelperState, payload: &PluginResponsePayload) -> (outcome:
    Delivery)
    ensures
        outcome@ == delivery(old(state)@, payload@),
        final(state)@ == answered(old(state)@, payload@),
{
    let expected = match state.waiting_for_plugin.get(payload.id.as_str()) {
        None => return Delivery::Dropped,
        Some(pending) => pending.instance_id.clone(),
    };
    match borrowed(&payload.instance_id) {
        None => return Delivery::Dropped,
        Some(id) => {
            if !same_text(id, expected.as_str()) {
                return Delivery::Dropped;
            }
        },
    }
    let task_id = match state.instances.get(expected.as_str()) {
        Some(instance) => dup_text(&instance.task_id),
        None => None,
    };
    state.waiting_for_plugin.remove(payload.id.as_str());
    Delivery::Delivered(task_id)
}

} // verus!
