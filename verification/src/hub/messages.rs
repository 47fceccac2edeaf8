//! The requests that a hub takes and the answers that it gives.
use vstd::prelude::*;

use super::records::{HelperActiveTaskRecord, PersistSnapshot, TaskRoutes};
use crate::table::Table;

verus! {

use super::records::{HelperActiveTaskRecordView, HubStateView, TaskRoutesView};

/// A refusal: the HTTP status, the error code where the refusal has one, and the message.
pub struct HubError {
    pub status: u16,
    pub code: Option<String>,
    pub message: String,
}

/// What a [`HubError`] stands for.
#[verifier::ext_equal]
pub struct HubErrorView {
    pub status: u16,
    pub code: Option<Seq<char>>,
    pub message: Seq<char>,
}

impl View for HubError {
    type V = HubErrorView;

    open spec fn view(&self) -> HubErrorView {
        HubErrorView {
            status: self.status,
            code: self.code.deep_view(),
            message: self.message@,
        }
    }
}

/// A request for a new task.
pub struct CreateTaskRequest {
    pub cluster_key: String,
    pub owner_user: String,
    pub repo: String,
    pub worktree_name: String,
    pub place_id: String,
    pub universe_id: Option<String>,
    pub legacy_game_id: Option<String>,
}

/// What a [`CreateTaskRequest`] stands for.
#[verifier::ext_equal]
pub struct CreateTaskRequestView {
    pub cluster_key: Seq<char>,
    pub owner_user: Seq<char>,
    pub repo: Seq<char>,
    pub worktree_name: Seq<char>,
    pub place_id: Seq<char>,
    pub universe_id: Option<Seq<char>>,
    pub legacy_game_id: Option<Seq<char>>,
}

impl View for CreateTaskRequest {
    type V = CreateTaskRequestView;

    open spec fn view(&self) -> CreateTaskRequestView {
        CreateTaskRequestView {
            cluster_key: self.cluster_key@,
            owner_user: self.owner_user@,
            repo: self.repo@,
            worktree_name: self.worktree_name@,
            place_id: self.place_id@,
            universe_id: self.universe_id.deep_view(),
            legacy_game_id: self.legacy_game_id.deep_view(),
        }
    }
}

/// The identity of a task and the timing that its owner keeps to.
pub struct CreateTaskResponse {
    pub task_id: String,
    pub task_token: String,
    pub recover_token: String,
    pub heartbeat_interval_sec: u64,
    pub heartbeat_timeout_sec: u64,
}

/// What a [`CreateTaskResponse`] stands for.
#[verifier::ext_equal]
pub struct CreateTaskResponseView {
    pub task_id: Seq<char>,
    pub task_token: Seq<char>,
    pub recover_token: Seq<char>,
    pub heartbeat_interval_sec: u64,
    pub heartbeat_timeout_sec: u64,
}

impl View for CreateTaskResponse {
    type V = CreateTaskResponseView;

    open spec fn view(&self) -> CreateTaskResponseView {
        CreateTaskResponseView {
            task_id: self.task_id@,
            task_token: self.task_token@,
            recover_token: self.recover_token@,
            heartbeat_interval_sec: self.heartbeat_interval_sec,
            heartbeat_timeout_sec: self.heartbeat_timeout_sec,
        }
    }
}

/// A request to take a task over again.
pub struct RecoverTaskRequest {
    pub cluster_key: String,
    pub task_id: String,
    pub recover_token: String,
    pub universe_id: Option<String>,
    pub legacy_game_id: Option<String>,
}

/// What a [`RecoverTaskRequest`] stands for.
#[verifier::ext_equal]
pub struct RecoverTaskRequestView {
    pub cluster_key: Seq<char>,
    pub task_id: Seq<char>,
    pub recover_token: Seq<char>,
    pub universe_id: Option<Seq<char>>,
    pub legacy_game_id: Option<Seq<char>>,
}

impl View for RecoverTaskRequest {
    type V = RecoverTaskRequestView;

    open spec fn view(&self) -> RecoverTaskRequestView {
        RecoverTaskRequestView {
            cluster_key: self.cluster_key@,
            task_id: self.task_id@,
            recover_token: self.recover_token@,
            universe_id: self.universe_id.deep_view(),
            legacy_game_id: self.legacy_game_id.deep_view(),
        }
    }
}

/// What the owner of a task reports of it.
pub struct TaskHeartbeatRequest {
    pub task_id: String,
    pub task_token: String,
    pub service_state: String,
    pub accepting_launches: bool,
    pub routes: TaskRoutes,
    pub services: Table<String>,
}

/// What a [`TaskHeartbeatRequest`] stands for.
#[verifier::ext_equal]
pub struct TaskHeartbeatRequestView {
    pub task_id: Seq<char>,
    pub task_token: Seq<char>,
    pub service_state: Seq<char>,
    pub accepting_launches: bool,
    pub routes: TaskRoutesView,
    pub services: Map<Seq<char>, Seq<char>>,
}

impl View for TaskHeartbeatRequest {
    type V = TaskHeartbeatRequestView;

    open spec fn view(&self) -> TaskHeartbeatRequestView {
        TaskHeartbeatRequestView {
            task_id: self.task_id@,
            task_token: self.task_token@,
            service_state: self.service_state@,
            accepting_launches: self.accepting_launches,
            routes: self.routes@,
            services: self.services@,
        }
    }
}

/// A request to end a task.
pub struct ReleaseTaskRequest {
    pub task_id: String,
    pub task_token: String,
}

/// What a [`ReleaseTaskRequest`] stands for.
#[verifier::ext_equal]
pub struct ReleaseTaskRequestView {
    pub task_id: Seq<char>,
    pub task_token: Seq<char>,
}

impl View for ReleaseTaskRequest {
    type V = ReleaseTaskRequestView;

    open spec fn view(&self) -> ReleaseTaskRequestView {
        ReleaseTaskRequestView {
            task_id: self.task_id@,
            task_token: self.task_token@,
        }
    }
}

/// A request of a helper to join.
pub struct RegisterHelperRequest {
    pub helper_id: String,
    pub owner_user: String,
    pub platform: String,
    pub capacity: usize,
    pub labels: Vec<String>,
}

/// What a [`RegisterHelperRequest`] stands for.
#[verifier::ext_equal]
pub struct RegisterHelperRequestView {
    pub helper_id: Seq<char>,
    pub owner_user: Seq<char>,
    pub platform: Seq<char>,
    pub capacity: usize,
    pub labels: Seq<Seq<char>>,
}

impl View for RegisterHelperRequest {
    type V = RegisterHelperRequestView;

    open spec fn view(&self) -> RegisterHelperRequestView {
        RegisterHelperRequestView {
            helper_id: self.helper_id@,
            owner_user: self.owner_user@,
            platform: self.platform@,
            capacity: self.capacity,
            labels: self.labels.deep_view(),
        }
    }
}

/// The timing that a helper keeps to.
pub struct RegisterHelperResponse {
    pub helper_id: String,
    pub heartbeat_interval_sec: u64,
    pub heartbeat_timeout_sec: u64,
}

/// What a [`RegisterHelperResponse`] stands for.
#[verifier::ext_equal]
pub struct RegisterHelperResponseView {
    pub helper_id: Seq<char>,
    pub heartbeat_interval_sec: u64,
    pub heartbeat_timeout_sec: u64,
}

impl View for RegisterHelperResponse {
    type V = RegisterHelperResponseView;

    open spec fn view(&self) -> RegisterHelperResponseView {
        RegisterHelperResponseView {
            helper_id: self.helper_id@,
            heartbeat_interval_sec: self.heartbeat_interval_sec,
            heartbeat_timeout_sec: self.heartbeat_timeout_sec,
        }
    }
}

/// What a helper reports of its tasks.
pub struct HelperHeartbeatRequest {
    pub helper_id: String,
    pub active_task_ids: Vec<String>,
    pub active_tasks: Vec<HelperActiveTaskRecord>,
}

/// What a [`HelperHeartbeatRequest`] stands for.
#[verifier::ext_equal]
pub struct HelperHeartbeatRequestView {
    pub helper_id: Seq<char>,
    pub active_task_ids: Seq<Seq<char>>,
    pub active_tasks: Seq<HelperActiveTaskRecordView>,
}

impl View for HelperHeartbeatRequest {
    type V = HelperHeartbeatRequestView;

    open spec fn view(&self) -> HelperHeartbeatRequestView {
        HelperHeartbeatRequestView {
            helper_id: self.helper_id@,
            active_task_ids: self.active_task_ids.deep_view(),
            active_tasks: crate::table::views(self.active_tasks@),
        }
    }
}

/// What a helper is told: the tasks that it has to let go.
pub struct HelperHeartbeatHubResponse {
    pub ok: bool,
    pub release_task_ids: Vec<String>,
}

/// What a [`HelperHeartbeatHubResponse`] stands for.
#[verifier::ext_equal]
pub struct HelperHeartbeatHubResponseView {
    pub ok: bool,
    pub release_task_ids: Seq<Seq<char>>,
}

impl View for HelperHeartbeatHubResponse {
    type V = HelperHeartbeatHubResponseView;

    open spec fn view(&self) -> HelperHeartbeatHubResponseView {
        HelperHeartbeatHubResponseView {
            ok: self.ok,
            release_task_ids: self.release_task_ids.deep_view(),
        }
    }
}

/// A request to block a helper.
pub struct BlockHelperRequest {
    pub helper_id: String,
    pub reason: Option<String>,
}

/// What a [`BlockHelperRequest`] stands for.
#[verifier::ext_equal]
pub struct BlockHelperRequestView {
    pub helper_id: Seq<char>,
    pub reason: Option<Seq<char>>,
}

impl View for BlockHelperRequest {
    type V = BlockHelperRequestView;

    open spec fn view(&self) -> BlockHelperRequestView {
        BlockHelperRequestView {
            helper_id: self.helper_id@,
            reason: self.reason.deep_view(),
        }
    }
}

/// A request to let a blocked helper join again.
pub struct UnblockHelperRequest {
    pub helper_id: String,
}

/// What a [`UnblockHelperRequest`] stands for.
#[verifier::ext_equal]
pub struct UnblockHelperRequestView {
    pub helper_id: Seq<char>,
}

impl View for UnblockHelperRequest {
    type V = UnblockHelperRequestView;

    open spec fn view(&self) -> UnblockHelperRequestView {
        UnblockHelperRequestView {
            helper_id: self.helper_id@,
        }
    }
}

/// Whether a helper is blocked now.
pub struct BlockHelperResponse {
    pub ok: bool,
    pub helper_id: String,
    pub blocked: bool,
}

/// What a [`BlockHelperResponse`] stands for.
#[verifier::ext_equal]
pub struct BlockHelperResponseView {
    pub ok: bool,
    pub helper_id: Seq<char>,
    pub blocked: bool,
}

impl View for BlockHelperResponse {
    type V = BlockHelperResponseView;

    open spec fn view(&self) -> BlockHelperResponseView {
        BlockHelperResponseView {
            ok: self.ok,
            helper_id: self.helper_id@,
            blocked: self.blocked,
        }
    }
}

/// A request of a helper for a task.
pub struct ClaimTaskRequest {
    pub helper_id: String,
}

/// What a [`ClaimTaskRequest`] stands for.
#[verifier::ext_equal]
pub struct ClaimTaskRequestView {
    pub helper_id: Seq<char>,
}

impl View for ClaimTaskRequest {
    type V = ClaimTaskRequestView;

    open spec fn view(&self) -> ClaimTaskRequestView {
        ClaimTaskRequestView {
            helper_id: self.helper_id@,
        }
    }
}

/// The task that a helper was given.
pub struct ClaimedTaskPayload {
    pub task_id: String,
    pub place_id: String,
    pub universe_id: Option<String>,
    pub owner_user: String,
    pub repo: String,
    pub worktree_name: String,
    pub routes: TaskRoutes,
}

/// What a [`ClaimedTaskPayload`] stands for.
#[verifier::ext_equal]
pub struct ClaimedTaskPayloadView {
    pub task_id: Seq<char>,
    pub place_id: Seq<char>,
    pub universe_id: Option<Seq<char>>,
    pub owner_user: Seq<char>,
    pub repo: Seq<char>,
    pub worktree_name: Seq<char>,
    pub routes: TaskRoutesView,
}

impl View for ClaimedTaskPayload {
    type V = ClaimedTaskPayloadView;

    open spec fn view(&self) -> ClaimedTaskPayloadView {
        ClaimedTaskPayloadView {
            task_id: self.task_id@,
            place_id: self.place_id@,
            universe_id: self.universe_id.deep_view(),
            owner_user: self.owner_user@,
            repo: self.repo@,
            worktree_name: self.worktree_name@,
            routes: self.routes@,
        }
    }
}

/// The answer to a claim.
pub struct ClaimTaskResponse {
    pub claimed: bool,
    pub helper_id: String,
    pub task: Option<ClaimedTaskPayload>,
}

/// What a [`ClaimTaskResponse`] stands for.
#[verifier::ext_equal]
pub struct ClaimTaskResponseView {
    pub claimed: bool,
    pub helper_id: Seq<char>,
    pub task: Option<ClaimedTaskPayloadView>,
}

impl View for ClaimTaskResponse {
    type V = ClaimTaskResponseView;

    open spec fn view(&self) -> ClaimTaskResponseView {
        ClaimTaskResponseView {
            claimed: self.claimed,
            helper_id: self.helper_id@,
            task: crate::table::opt_view(self.task),
        }
    }
}

/// The answer to a request, and what is to be written to disk before it is sent.
pub struct Reply<T> {
    pub result: Result<T, HubError>,
    pub snapshot: Option<PersistSnapshot>,
}

/// What a request does: the hub after it, the answer, and whether the hub is to be written.
pub struct Step<R> {
    pub state: HubStateView,
    pub result: Result<R, HubErrorView>,
    pub persist: bool,
}

/// The view of an answer.
pub open spec fn result_view<T: View>(result: Result<T, HubError>) -> Result<T::V, HubErrorView> {
    match result {
        Ok(value) => Ok(value@),
        Err(error) => Err(error@),
    }
}

/// The reply and the hub after it are those of `step`.
pub open spec fn agrees<T: View>(reply: Reply<T>, after: HubStateView, step: Step<T::V>) -> bool {
    &&& after == step.state
    &&& result_view(reply.result) == step.result
    &&& crate::table::opt_view(reply.snapshot) == if step.persist {
        Some(super::persist::snapshot_of(step.state))
    } else {
        None
    }
}

/// A request that was refused, with the hub as it is then.
pub open spec fn refused<R>(state: HubStateView, error: HubErrorView) -> Step<R> {
    Step { state, result: Err(error), persist: false }
}

/// A request that cannot be served.
pub open spec fn bad_request(message: Seq<char>) -> HubErrorView {
    HubErrorView { status: 400, code: None, message }
}

/// A request that is not allowed.
pub open spec fn forbidden(code: Seq<char>, message: Seq<char>) -> HubErrorView {
    HubErrorView { status: 403, code: Some(code), message }
}

/// A request that the state of the hub rules out.
pub open spec fn conflict(code: Seq<char>, message: Seq<char>) -> HubErrorView {
    HubErrorView { status: 409, code: Some(code), message }
}

impl HubError {
    /// A request that cannot be served.
    pub fn bad_request(message: String) -> (error: Self)
        ensures
            error@ == bad_request(message@),
    {
        HubError { status: 400, code: None, message }
    }

    /// A request that is not allowed.
    pub fn forbidden(code: &str, message: String) -> (error: Self)
        ensures
            error@ == forbidden(code@, message@),
    {
        HubError { status: 403, code: Some(code.to_owned()), message }
    }

    /// A request that the state of the hub rules out.
    pub fn conflict(code: &str, message: String) -> (error: Self)
        ensures
            error@ == conflict(code@, message@),
    {
        HubError { status: 409, code: Some(code.to_owned()), message }
    }
}

impl<T: View> Reply<T> {
    /// A refusal with nothing to write.
    pub fn refusal(error: HubError) -> (reply: Self)
        ensures
            result_view(reply.result) == Err::<T::V, HubErrorView>(error@),
            reply.snapshot is None,
    {
        Reply { result: Err(error), snapshot: None }
    }
}

} // verus!
