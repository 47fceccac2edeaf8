//! Requests that the helper sends on: to the Rojo server and the runtime log sink of a task, and to
//! the hub.
use vstd::prelude::*;

use super::records::HelperState;
use super::routing::{
    bind_launch_process_to_pid, resolve_plugin_routing_decision, select_claimed_task,
};
use super::task_status::{
    mark_runtime_log_forward_accepted, mark_runtime_log_forward_failed_if_current,
    mark_runtime_log_forward_rejected, mark_runtime_log_forward_succeeded_if_current,
};
use super::timing::RUNTIME_LOG_FORWARD_QUEUE_CAPACITY;
use crate::order::same_text;
use crate::sanitize::{maybe_sanitize_identifier, sanitize_identifier, sanitize_place_id};
use crate::text::{borrowed, concat, concat3, decimal_text, trim};
use crate::urls::{
    rojo_forward_base_url, rojo_forward_target_path, rojo_forward_target_ws_url, trim_end_slashes,
};

verus! {

use super::records::HelperStateView;

/// Where the Rojo server of a task is reached through the helper.
pub struct RojoConfigResponse {
    pub place_id: String,
    pub task_id: Option<String>,
    pub base_url: String,
    pub auth_header: String,
}

/// What a [`RojoConfigResponse`] stands for.
#[verifier::ext_equal]
pub struct RojoConfigResponseView {
    pub place_id: Seq<char>,
    pub task_id: Option<Seq<char>>,
    pub base_url: Seq<char>,
    pub auth_header: Seq<char>,
}

impl View for RojoConfigResponse {
    type V = RojoConfigResponseView;

    open spec fn view(&self) -> RojoConfigResponseView {
        RojoConfigResponseView {
            place_id: self.place_id@,
            task_id: self.task_id.deep_view(),
            base_url: self.base_url@,
            auth_header: self.auth_header@,
        }
    }
}

/// Where a request is sent on to.
pub struct ForwardTarget {
    pub place_id: String,
    pub task_id: Option<String>,
    pub target_path: String,
    pub target_url: String,
}

/// What a [`ForwardTarget`] stands for.
#[verifier::ext_equal]
pub struct ForwardTargetView {
    pub place_id: Seq<char>,
    pub task_id: Option<Seq<char>>,
    pub target_path: Seq<char>,
    pub target_url: Seq<char>,
}

impl View for ForwardTarget {
    type V = ForwardTargetView;

    open spec fn view(&self) -> ForwardTargetView {
        ForwardTargetView {
            place_id: self.place_id@,
            task_id: self.task_id.deep_view(),
            target_path: self.target_path@,
            target_url: self.target_url@,
        }
    }
}

/// A runtime log that is to be sent on, for a task as it was claimed.
pub struct RuntimeLogForwardJob {
    pub task_id: String,
    pub place_id: String,
    pub claimed_at: u128,
    pub target_path: String,
    pub target_url: String,
}

/// What a [`RuntimeLogForwardJob`] stands for.
#[verifier::ext_equal]
pub struct RuntimeLogForwardJobView {
    pub task_id: Seq<char>,
    pub place_id: Seq<char>,
    pub claimed_at: u128,
    pub target_path: Seq<char>,
    pub target_url: Seq<char>,
}

impl View for RuntimeLogForwardJob {
    type V = RuntimeLogForwardJobView;

    open spec fn view(&self) -> RuntimeLogForwardJobView {
        RuntimeLogForwardJobView {
            task_id: self.task_id@,
            place_id: self.place_id@,
            claimed_at: self.claimed_at,
            target_path: self.target_path@,
            target_url: self.target_url@,
        }
    }
}

/// What the hub says with an error.
pub struct HubErrorResponse {
    pub code: Option<String>,
    pub message: Option<String>,
}

/// What a [`HubErrorResponse`] stands for.
#[verifier::ext_equal]
pub struct HubErrorResponseView {
    pub code: Option<Seq<char>>,
    pub message: Option<Seq<char>>,
}

impl View for HubErrorResponse {
    type V = HubErrorResponseView;

    open spec fn view(&self) -> HubErrorResponseView {
        HubErrorResponseView {
            code: self.code.deep_view(),
            message: self.message.deep_view(),
        }
    }
}

/// What becomes of a runtime log that is handed to the helper.
pub enum LogIntake {
    /// The log is taken and is to be sent on.
    Accepted(RuntimeLogForwardJob),
    /// Too many logs wait; the text says so.
    QueueFull(String),
    /// The path is none to which logs are sent; the text says so.
    UnknownPath(String),
}

/// What a [`LogIntake`] stands for.
pub enum LogIntakeView {
    Accepted(RuntimeLogForwardJobView),
    QueueFull(Seq<char>),
    UnknownPath(Seq<char>),
}

impl View for LogIntake {
    type V = LogIntakeView;

    open spec fn view(&self) -> LogIntakeView {
        match self {
            LogIntake::Accepted(job) => LogIntakeView::Accepted(job@),
            LogIntake::QueueFull(text) => LogIntakeView::QueueFull(text@),
            LogIntake::UnknownPath(text) => LogIntakeView::UnknownPath(text@),
        }
    }
}

/// The Rojo server of the task that a route stands for.
pub open spec fn rojo_target(s: HelperStateView, place_id: Seq<char>, task_id: Option<Seq<char>>) -> Result<
    Seq<char>,
    Seq<char>,
> {
    match super::routing::claim_selected(s, place_id, task_id) {
        Err(message) => Err(message),
        Ok(task) => match task.rojo_base_url {
            Some(url) => Ok(url),
            None => Err("claimed task has no rojo_base_url"@),
        },
    }
}

/// The answer to a plugin that asks for its Rojo server.
pub open spec fn rojo_config_told(
    s: HelperStateView,
    place_id: Seq<char>,
    task_id: Option<Seq<char>>,
    studio_pid: Option<u32>,
    port: u16,
    token: Seq<char>,
) -> Result<RojoConfigResponseView, Seq<char>> {
    match super::routing::claim_routed(s, place_id, task_id, studio_pid) {
        Err(message) => Err(message),
        Ok(task) => if task.rojo_base_url is None {
            Err("claimed task has no rojo_base_url"@)
        } else {
            Ok(
                RojoConfigResponseView {
                    place_id,
                    task_id: Some(task.task_id),
                    base_url: crate::urls::forward_url(
                        port,
                        "rojo-forward"@,
                        place_id,
                        task.task_id,
                    ),
                    auth_header: "Bearer "@ + token,
                },
            )
        },
    }
}

/// The state after a plugin has asked for its Rojo server.
pub open spec fn rojo_config_state(
    s: HelperStateView,
    place_id: Seq<char>,
    task_id: Option<Seq<char>>,
    studio_pid: Option<u32>,
) -> HelperStateView {
    match super::routing::claim_routed(s, place_id, task_id, studio_pid) {
        Ok(task) if studio_pid is Some => super::routing::bound(s, task, studio_pid->0),
        _ => s,
    }
}

/// Why a route is refused for its form.
pub open spec fn route_fault(place_id: Seq<char>, task_id: Option<Seq<char>>) -> Option<Seq<char>> {
    if !crate::sanitize::is_place_id(crate::text::trimmed(place_id)) {
        Some("placeId must be digits only"@)
    } else if !crate::sanitize::optional_name(task_id) {
        Some(crate::sanitize::name_message("task_id"@))
    } else {
        None
    }
}

/// The text without the white space around it.
pub open spec fn trimmed_option(text: Option<Seq<char>>) -> Option<Seq<char>> {
    match text {
        Some(t) => Some(crate::text::trimmed(t)),
        None => None,
    }
}

/// Where a request to a Rojo server is sent on to.
pub open spec fn rojo_forward_told(
    s: HelperStateView,
    place_id: Seq<char>,
    task_id: Option<Seq<char>>,
    path: Seq<char>,
    query: Option<Seq<char>>,
) -> Result<ForwardTargetView, Seq<char>> {
    let place = crate::text::trimmed(place_id);
    let task = trimmed_option(task_id);
    match route_fault(place_id, task_id) {
        Some(message) => Err(message),
        None => match rojo_target(s, place, task) {
            Err(message) => Err(message),
            Ok(base) => Ok(
                ForwardTargetView {
                    place_id: place,
                    task_id: task,
                    target_path: crate::urls::target_path(path, query),
                    target_url: crate::urls::unslashed_end(base) + crate::urls::target_path(
                        path,
                        query,
                    ),
                },
            ),
        },
    }
}

/// Where a web socket to a Rojo server is sent on to.
pub open spec fn rojo_socket_told(
    s: HelperStateView,
    place_id: Seq<char>,
    task_id: Option<Seq<char>>,
    cursor: Seq<char>,
    query: Option<Seq<char>>,
) -> Result<Seq<char>, Seq<char>> {
    match route_fault(place_id, task_id) {
        Some(message) => Err(message),
        None => if !crate::sanitize::is_name(crate::text::trimmed(cursor)) {
            Err(crate::sanitize::name_message("cursor"@))
        } else {
            match rojo_target(s, crate::text::trimmed(place_id), trimmed_option(task_id)) {
                Err(message) => Err(message),
                Ok(base) => match crate::urls::ws_base(base) {
                    None => Err("Rojo forward base_url must use http(s) or ws(s)"@),
                    Some(url) => Ok(
                        crate::urls::unslashed_end(url) + crate::urls::target_path(
                            "api/socket/"@ + crate::text::trimmed(cursor),
                            query,
                        ),
                    ),
                },
            }
        },
    }
}

/// The only path to which runtime logs are sent.
pub open spec fn log_path(path: Seq<char>) -> bool {
    crate::urls::unslashed_start(path) == "v1/runtime-logs"@
}

/// What becomes of a runtime log, where its route is in order.
pub open spec fn log_intake(
    task: super::records::ClaimedTaskView,
    base: Seq<char>,
    path: Seq<char>,
    query: Option<Seq<char>>,
    waiting: nat,
) -> LogIntakeView {
    let target = crate::urls::target_path(path, query);
    if !log_path(path) {
        LogIntakeView::UnknownPath("unsupported runtime-log forward path"@)
    } else if waiting >= RUNTIME_LOG_FORWARD_QUEUE_CAPACITY {
        LogIntakeView::QueueFull("runtime-log forward queue is full"@)
    } else {
        LogIntakeView::Accepted(
            RuntimeLogForwardJobView {
                task_id: task.task_id,
                place_id: task.place_id,
                claimed_at: task.claimed_at,
                target_path: target,
                target_url: crate::urls::unslashed_end(base) + target,
            },
        )
    }
}

/// The answer to a runtime log that is handed to the helper.
pub open spec fn log_told(
    s: HelperStateView,
    place_id: Seq<char>,
    task_id: Seq<char>,
    path: Seq<char>,
    query: Option<Seq<char>>,
    waiting: nat,
) -> Result<LogIntakeView, Seq<char>> {
    match route_fault(place_id, Some(task_id)) {
        Some(message) => Err(message),
        None => match super::routing::claim_selected(
            s,
            crate::text::trimmed(place_id),
            Some(crate::text::trimmed(task_id)),
        ) {
            Err(message) => Err(message),
            Ok(task) => match task.runtime_log_base_url {
                None => Err("claimed task has no runtime_log_base_url"@),
                Some(base) => Ok(log_intake(task, base, path, query, waiting)),
            },
        },
    }
}

/// The state after a runtime log was handed to the helper.
pub open spec fn log_state(
    s: HelperStateView,
    task_id: Seq<char>,
    path: Seq<char>,
    query: Option<Seq<char>>,
    told: Result<LogIntakeView, Seq<char>>,
    now: u128,
) -> HelperStateView {
    let id = crate::text::trimmed(task_id);
    let record = super::task_status::forward_record(s, id);
    let target = crate::urls::target_path(path, query);
    match told {
        Ok(LogIntakeView::Accepted(_)) => super::task_status::with_forward(
            s,
            id,
            super::task_status::forward_accepted(record, target, now),
        ),
        Ok(LogIntakeView::QueueFull(error)) => super::task_status::with_forward(
            s,
            id,
            super::task_status::forward_refused(record, target, None, error, now),
        ),
        _ => s,
    }
}

/// The request was answered well.
pub open spec fn is_success(status: u16) -> bool {
    200 <= status < 300
}

/// The state after a runtime log was sent on, or not: `status` is the answer, where there was one.
/// Nothing is taken down where the task was let go, or claimed anew, in between.
pub open spec fn log_settled(
    s: HelperStateView,
    job: RuntimeLogForwardJobView,
    status: Option<u16>,
    now: u128,
) -> HelperStateView {
    let record = super::task_status::forward_record(s, job.task_id);
    if !super::task_status::claim_current(s, job.task_id, job.place_id, job.claimed_at) {
        s
    } else {
        super::task_status::with_forward(
            s,
            job.task_id,
            match status {
                Some(code) => if is_success(code) {
                    super::task_status::forward_succeeded(record, job.target_path, code, now)
                } else {
                    super::task_status::forward_failed(
                        record,
                        job.target_path,
                        Some(code),
                        "runtime-log forward failed: HTTP "@ + crate::text::decimal(code as nat),
                        now,
                    )
                },
                None => super::task_status::forward_failed(
                    record,
                    job.target_path,
                    None,
                    "runtime-log forward failed"@,
                    now,
                ),
            },
        )
    }
}

/// The message of a hub that holds another helper under the same identifier; `parsed` is what the body
/// says, where it can be read.
pub open spec fn conflict_message(
    status: u16,
    error_code: Option<Seq<char>>,
    body: Seq<char>,
    parsed: Option<HubErrorResponseView>,
) -> Option<Seq<char>> {
    if status != 409 {
        None
    } else if error_code == Some("helper_id_conflict"@) {
        Some(crate::text::trimmed(body))
    } else {
        match parsed {
            Some(response) if response.code == Some("helper_id_conflict"@) => Some(
                match response.message {
                    Some(message) => message,
                    None => "helper_id already active"@,
                },
            ),
            _ => None,
        }
    }
}

/// The address of a path of the hub.
pub open spec fn hub_address(base: Option<Seq<char>>, path: Seq<char>) -> Result<Seq<char>, Seq<char>> {
    match base {
        Some(url) => Ok(crate::urls::unslashed_end(url) + path),
        None => Err("hub_base_url is not configured"@),
    }
}

/// Where the Rojo server of a task is reached through the helper. The place and the task are in the
/// form that they are kept in.
pub fn rojo_config(
    state: &mut HelperState,
    place_id: &str,
    task_id: Option<&str>,
    studio_pid: Option<u32>,
    helper_port: u16,
    bearer_token: &str,
) -> (result: Result<RojoConfigResponse, String>)
    ensures
        crate::table::outcome(result) == rojo_config_told(
            old(state)@,
            place_id@,
            task_id.deep_view(),
            studio_pid,
            helper_port,
            bearer_token@,
        ),
        final(state)@ == rojo_config_state(
            old(state)@,
            place_id@,
            task_id.deep_view(),
            studio_pid,
        ),
{
    let task = match resolve_plugin_routing_decision(state, place_id, task_id, studio_pid) {
        Ok(task) => task,
        Err(message) => return Err(message),
    };
    if let Some(pid) = studio_pid {
        match bind_launch_process_to_pid(state, &task, pid) {
            Ok(_) => {},
            Err(message) => return Err(message),
        }
    }
    if task.rojo_base_url.is_none() {
        return Err("claimed task has no rojo_base_url".to_owned());
    }
    let base_url = rojo_forward_base_url(helper_port, place_id, task.task_id.as_str());
    Ok(
        RojoConfigResponse {
            place_id: place_id.to_owned(),
            task_id: Some(task.task_id),
            base_url,
            auth_header: concat("Bearer ", bearer_token),
        },
    )
}

/// The Rojo server of the task that a route stands for.
pub fn resolve_rojo_forward_target_base_url(
    state: &HelperState,
    place_id: &str,
    task_id: Option<&str>,
) -> (result: Result<String, String>)
    ensures
        crate::table::outcome(result) == rojo_target(state@, place_id@, task_id.deep_view()),
{
    match select_claimed_task(state, place_id, task_id) {
        Err(message) => Err(message),
        Ok(task) => match task.rojo_base_url {
            Some(url) => Ok(url),
            None => Err("claimed task has no rojo_base_url".to_owned()),
        },
    }
}

/// The place and the task of a route, in the form that they are kept in.
fn check_route(place_id: &str, task_id: &Option<String>) -> (result: Result<
    (String, Option<String>),
    String,
>)
    ensures
        match result {
            Ok((place, task)) => {
                &&& route_fault(place_id@, task_id.deep_view()) is None
                &&& place@ == crate::text::trimmed(place_id@)
                &&& task.deep_view() == trimmed_option(task_id.deep_view())
            },
            Err(message) => route_fault(place_id@, task_id.deep_view()) == Some(message@),
        },
{
    let place = match sanitize_place_id(place_id) {
        Ok(place) => place,
        Err(message) => return Err(message),
    };
    match maybe_sanitize_identifier("task_id", task_id) {
        Ok(task) => Ok((place, task)),
        Err(message) => Err(message),
    }
}

/// Where a request to a Rojo server is sent on to.
pub fn rojo_forward_target(
    state: &HelperState,
    place_id: &str,
    task_id: &Option<String>,
    path: &str,
    query: Option<&str>,
) -> (result: Result<ForwardTarget, String>)
    ensures
        crate::table::outcome(result) == rojo_forward_told(
            state@,
            place_id@,
            task_id.deep_view(),
            path@,
            query.deep_view(),
        ),
{
    let (place, task) = match check_route(place_id, task_id) {
        Ok(route) => route,
        Err(message) => return Err(message),
    };
    let base = match resolve_rojo_forward_target_base_url(state, place.as_str(), borrowed(&task)) {
        Ok(base) => base,
        Err(message) => return Err(message),
    };
    let target_path = rojo_forward_target_path(path, query);
    let target_url = concat(trim_end_slashes(base.as_str()), target_path.as_str());
    Ok(ForwardTarget { place_id: place, task_id: task, target_path, target_url })
}

/// Where a web socket to a Rojo server is sent on to.
pub fn rojo_forward_socket_target(
    state: &HelperState,
    place_id: &str,
    task_id: &Option<String>,
    cursor: &str,
    query: Option<&str>,
) -> (result: Result<String, String>)
    ensures
        crate::table::outcome(result) == rojo_socket_told(
            state@,
            place_id@,
            task_id.deep_view(),
            cursor@,
            query.deep_view(),
        ),
{
    let (place, task) = match check_route(place_id, task_id) {
        Ok(route) => route,
        Err(message) => return Err(message),
    };
    let cursor = match sanitize_identifier("cursor", cursor) {
        Ok(cursor) => cursor,
        Err(message) => return Err(message),
    };
    let base = match resolve_rojo_forward_target_base_url(state, place.as_str(), borrowed(&task)) {
        Ok(base) => base,
        Err(message) => return Err(message),
    };
    let path = concat("api/socket/", cursor.as_str());
    rojo_forward_target_ws_url(base.as_str(), path.as_str(), query)
}

/// The text without the slashes at its start is the path to which logs are sent.
fn is_log_path(path: &str) -> (is: bool)
    ensures
        is == log_path(path@),
{
    same_text(crate::urls::trim_start_slashes(path), "v1/runtime-logs")
}

/// Takes a runtime log to be sent on; `waiting` is how many wait already.
pub fn take_runtime_log(
    state: &mut HelperState,
    place_id: &str,
    task_id: &str,
    path: &str,
    query: Option<&str>,
    waiting: usize,
    now: u128,
) -> (result: Result<LogIntake, String>)
    requires
        super::task_status::records_wf(old(state)@),
    ensures
        crate::table::outcome(result) == log_told(
            old(state)@,
            place_id@,
            task_id@,
            path@,
            query.deep_view(),
            waiting as nat,
        ),
        final(state)@ == log_state(
            old(state)@,
            task_id@,
            path@,
            query.deep_view(),
            crate::table::outcome(result),
            now,
        ),
{
    let given = Some(task_id.to_owned());
    let (place, id) = match check_route(place_id, &given) {
        Ok((place, Some(id))) => (place, id),
        Ok((place, None)) => (place, String::new()),
        Err(message) => return Err(message),
    };
    let task = match select_claimed_task(state, place.as_str(), Some(id.as_str())) {
        Ok(task) => task,
        Err(message) => return Err(message),
    };
    let base = match task.runtime_log_base_url {
        Some(base) => base,
        None => return Err("claimed task has no runtime_log_base_url".to_owned()),
    };
    if !is_log_path(path) {
        return Ok(LogIntake::UnknownPath("unsupported runtime-log forward path".to_owned()));
    }
    let target_path = rojo_forward_target_path(path, query);
    if waiting >= RUNTIME_LOG_FORWARD_QUEUE_CAPACITY {
        mark_runtime_log_forward_rejected(
            state,
            id.as_str(),
            target_path,
            "runtime-log forward queue is full".to_owned(),
            now,
        );
        return Ok(LogIntake::QueueFull("runtime-log forward queue is full".to_owned()));
    }
    let target_url = concat(trim_end_slashes(base.as_str()), target_path.as_str());
    mark_runtime_log_forward_accepted(state, id.as_str(), target_path.clone(), now);
    Ok(
        LogIntake::Accepted(
            RuntimeLogForwardJob {
                task_id: task.task_id,
                place_id: task.place_id,
                claimed_at: task.claimed_at,
                target_path,
                target_url,
            },
        ),
    )
}

/// Takes down how the sending of a runtime log went: `status` is the answer, where there was one.
pub fn settle_runtime_log(
    state: &mut HelperState,
    job: &RuntimeLogForwardJob,
    status: Option<u16>,
    now: u128,
)
    ensures
        final(state)@ == log_settled(old(state)@, job@, status, now),
{
    match status {
        Some(code) => {
            if 200 <= code && code < 300 {
                mark_runtime_log_forward_succeeded_if_current(
                    state,
                    job.task_id.as_str(),
                    job.place_id.as_str(),
                    job.claimed_at,
                    job.target_path.clone(),
                    code,
                    now,
                );
            } else {
                let error = concat(
                    "runtime-log forward failed: HTTP ",
                    decimal_text(code as u128).as_str(),
                );
                mark_runtime_log_forward_failed_if_current(
                    state,
                    job.task_id.as_str(),
                    job.place_id.as_str(),
                    job.claimed_at,
                    job.target_path.clone(),
                    Some(code),
                    error,
                    now,
                );
            }
        },
        None => {
            mark_runtime_log_forward_failed_if_current(
                state,
                job.task_id.as_str(),
                job.place_id.as_str(),
                job.claimed_at,
                job.target_path.clone(),
                None,
                "runtime-log forward failed".to_owned(),
                now,
            );
        },
    }
}

/// The message of a hub that holds another helper under the same identifier.
pub fn parse_helper_id_conflict(
    status: u16,
    error_code: Option<&str>,
    body: &str,
    parsed: &Option<HubErrorResponse>,
) -> (message: Option<String>)
    ensures
        message.deep_view() == conflict_message(
            status,
            error_code.deep_view(),
            body@,
            crate::table::opt_view(*parsed),
        ),
{
    if status != 409 {
        return None;
    }
    if let Some(code) = error_code {
        if same_text(code, "helper_id_conflict") {
            return Some(trim(body).to_owned());
        }
    }
    match parsed {
        None => None,
        Some(response) => match &response.code {
            None => None,
            Some(code) => {
                if !same_text(code.as_str(), "helper_id_conflict") {
                    return None;
                }
                match &response.message {
                    Some(message) => Some(message.clone()),
                    None => Some("helper_id already active".to_owned()),
                }
            },
        },
    }
}

/// The address of a path of the hub.
pub fn hub_endpoint(hub_base_url: Option<&str>, path: &str) -> (result: Result<String, String>)
    ensures
        crate::table::outcome(result) == hub_address(hub_base_url.deep_view(), path@),
{
    match hub_base_url {
        Some(url) => Ok(concat(trim_end_slashes(url), path)),
        None => Err("hub_base_url is not configured".to_owned()),
    }
}

/// What is said of a request that the hub has not answered well.
pub fn hub_failure(path: &str, status: &str, body: &str) -> (message: String)
    ensures
        message@ == "hub request "@ + path@ + " failed with "@ + status@ + ": "@ + body@,
{
    let mut message = concat3("hub request ", path, " failed with ");
    message.append(status);
    message.append(": ");
    message.append(body);
    message
}

/// A runtime log that comes to nothing after its task was let go leaves the state as it is.
pub proof fn law_late_log_changes_nothing(
    s: HelperStateView,
    job: RuntimeLogForwardJobView,
    status: Option<u16>,
    now: u128,
)
    requires
        !s.claimed_tasks.contains_key(job.task_id),
    ensures
        log_settled(s, job, status, now) == s,
{
}

/// A log that finds the queue full is counted as failed and leaves those that wait as they are.
pub proof fn law_full_queue_keeps_those_that_wait(
    s: HelperStateView,
    task_id: Seq<char>,
    path: Seq<char>,
    query: Option<Seq<char>>,
    now: u128,
)
    ensures
        ({
            let id = crate::text::trimmed(task_id);
            let told = Ok::<LogIntakeView, Seq<char>>(
                LogIntakeView::QueueFull("runtime-log forward queue is full"@),
            );
            let before = super::task_status::forward_record(s, id);
            let after = super::task_status::forward_record(
                log_state(s, task_id, path, query, told, now),
                id,
            );
            &&& after.queued_count == before.queued_count
            &&& after.accepted_count == before.accepted_count
            &&& after.failed_count == crate::clock::more(before.failed_count, 1)
        }),
{
}

} // verus!
