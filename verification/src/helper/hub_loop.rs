//! The exchange with the hub: registration, heartbeats and claims, each answer with what it changes
//! and what is to be done next.
use vstd::prelude::*;

use super::connections::sync_remote_connections;
use super::records::{ClaimedTask, HelperState, LaunchProcessRecord, PendingLaunchTermination};
use super::routing::{release_all_claimed_tasks, release_listed_tasks};
use super::task_status::{heartbeat_task_statuses, HelperHeartbeatTaskStatus};
use crate::sanitize::summarize_error;
use crate::text::{concat, contains, is_blank};

verus! {

use super::records::{
    ClaimedTaskView, HelperStateView, LaunchProcessRecordView, PendingLaunchTerminationView,
};
use super::task_status::HelperHeartbeatTaskStatusView;

/// The addresses of a task that the hub gives.
pub struct ClaimedTaskRoutes {
    pub rojo_base_url: Option<String>,
    pub mcp_base_url: Option<String>,
    pub runtime_log_base_url: Option<String>,
}

/// What a [`ClaimedTaskRoutes`] stands for.
#[verifier::ext_equal]
pub struct ClaimedTaskRoutesView {
    pub rojo_base_url: Option<Seq<char>>,
    pub mcp_base_url: Option<Seq<char>>,
    pub runtime_log_base_url: Option<Seq<char>>,
}

impl View for ClaimedTaskRoutes {
    type V = ClaimedTaskRoutesView;

    open spec fn view(&self) -> ClaimedTaskRoutesView {
        ClaimedTaskRoutesView {
            rojo_base_url: self.rojo_base_url.deep_view(),
            mcp_base_url: self.mcp_base_url.deep_view(),
            runtime_log_base_url: self.runtime_log_base_url.deep_view(),
        }
    }
}

/// A task that the hub gives.
pub struct ClaimedTaskHubPayload {
    pub task_id: String,
    pub place_id: String,
    pub universe_id: Option<String>,
    pub game_id: Option<String>,
    pub routes: ClaimedTaskRoutes,
}

/// What a [`ClaimedTaskHubPayload`] stands for.
#[verifier::ext_equal]
pub struct ClaimedTaskHubPayloadView {
    pub task_id: Seq<char>,
    pub place_id: Seq<char>,
    pub universe_id: Option<Seq<char>>,
    pub game_id: Option<Seq<char>>,
    pub routes: ClaimedTaskRoutesView,
}

impl View for ClaimedTaskHubPayload {
    type V = ClaimedTaskHubPayloadView;

    open spec fn view(&self) -> ClaimedTaskHubPayloadView {
        ClaimedTaskHubPayloadView {
            task_id: self.task_id@,
            place_id: self.place_id@,
            universe_id: self.universe_id.deep_view(),
            game_id: self.game_id.deep_view(),
            routes: self.routes@,
        }
    }
}

/// Why the hub did not register the helper.
pub enum RegisterHelperError {
    HelperIdConflict(String),
    Other(String),
}

/// What is to be asked of the hub.
pub enum HubRequest {
    Register,
    Heartbeat {
        active_task_ids: Vec<String>,
        active_tasks: Vec<HelperHeartbeatTaskStatus>,
    },
}

/// What a [`HubRequest`] stands for.
pub enum HubRequestView {
    Register,
    Heartbeat {
        active_task_ids: Seq<Seq<char>>,
        active_tasks: Seq<HelperHeartbeatTaskStatusView>,
    },
}

impl View for HubRequest {
    type V = HubRequestView;

    open spec fn view(&self) -> HubRequestView {
        match self {
            HubRequest::Register => HubRequestView::Register,
            HubRequest::Heartbeat { active_task_ids, active_tasks } => HubRequestView::Heartbeat {
                active_task_ids: active_task_ids.deep_view(),
                active_tasks: crate::table::views(active_tasks@),
            },
        }
    }
}

/// What is to be done with the answer to a claim.
pub enum ClaimStep {
    /// Nothing is to be done.
    Done,
    /// The task is taken without a process.
    Accept(ClaimedTask),
    /// The universe of the task is to be looked up first.
    ResolveUniverse(ClaimedTask),
    /// Studio is to be launched for the task.
    Launch(ClaimedTask),
}

/// What a [`ClaimStep`] stands for.
pub enum ClaimStepView {
    Done,
    Accept(ClaimedTaskView),
    ResolveUniverse(ClaimedTaskView),
    Launch(ClaimedTaskView),
}

impl View for ClaimStep {
    type V = ClaimStepView;

    open spec fn view(&self) -> ClaimStepView {
        match self {
            ClaimStep::Done => ClaimStepView::Done,
            ClaimStep::Accept(task) => ClaimStepView::Accept(task@),
            ClaimStep::ResolveUniverse(task) => ClaimStepView::ResolveUniverse(task@),
            ClaimStep::Launch(task) => ClaimStepView::Launch(task@),
        }
    }
}

/// The state after the hub has answered.
pub open spec fn reachable(s: HelperStateView, now: u128) -> HelperStateView {
    HelperStateView { hub_last_error: None, hub_last_ready_at: Some(now), ..s }
}

/// The state after a claim was answered.
pub open spec fn claim_ok(s: HelperStateView, now: u128) -> HelperStateView {
    HelperStateView { hub_last_claim_error: None, ..reachable(s, now) }
}

/// The state with an error of the hub.
pub open spec fn with_hub_error(s: HelperStateView, error: Seq<char>) -> HelperStateView {
    HelperStateView { hub_last_error: Some(error), ..s }
}

/// The state after a claim has failed: the error stands for the hub only where no task is held.
pub open spec fn claim_failed(s: HelperStateView, error: Seq<char>) -> HelperStateView {
    HelperStateView {
        hub_last_claim_error: Some(error),
        hub_last_error: if s.claimed_tasks == Map::<Seq<char>, ClaimedTaskView>::empty() {
            Some(error)
        } else {
            s.hub_last_error
        },
        ..s
    }
}

/// What is to be asked of the hub in a round: a helper that is not registered registers, another one
/// reports its tasks.
pub open spec fn hub_request(s: HelperStateView, registered: bool, now: u128) -> HubRequestView {
    if registered {
        HubRequestView::Heartbeat {
            active_task_ids: crate::table::sorted(s.claimed_tasks.dom()),
            active_tasks: crate::table::sorted(s.claimed_tasks.dom()).map_values(
                |k: Seq<char>| super::task_status::report_told(s, k, now),
            ),
        }
    } else {
        HubRequestView::Register
    }
}

/// The text of a refused registration.
pub open spec fn registration_error(error: RegisterHelperError) -> Seq<char> {
    match error {
        RegisterHelperError::HelperIdConflict(message) => "helper_id_conflict: "@ + message@,
        RegisterHelperError::Other(text) => crate::sanitize::summary(text@),
    }
}

/// The state after the first part of the answer to a heartbeat: the hub is there, or it has turned
/// the helper away and every task is let go.
pub open spec fn judged(s: HelperStateView, ok: bool, now: u128) -> HelperStateView {
    if ok {
        reachable(s, now)
    } else {
        super::routing::released(
            HelperStateView {
                hub_last_error: Some("hub rejected helper heartbeat"@),
                hub_last_ready_at: None,
                ..s
            },
            s.claimed_tasks.dom(),
        )
    }
}

/// The state after the answer to a heartbeat, but for the upkeep of the connections.
pub open spec fn heard(
    s: HelperStateView,
    ok: bool,
    release_task_ids: Seq<Seq<char>>,
    now: u128,
) -> HelperStateView {
    let j = judged(s, ok, now);
    super::routing::released(j, super::routing::held(j, release_task_ids))
}

/// The processes to end after the answer to a heartbeat.
pub open spec fn heard_terminations(
    s: HelperStateView,
    ok: bool,
    release_task_ids: Seq<Seq<char>>,
    now: u128,
) -> Seq<PendingLaunchTerminationView> {
    let first = if ok {
        Seq::empty()
    } else {
        super::routing::terminations(s, crate::table::sorted(s.claimed_tasks.dom()), true)
    };
    first + super::routing::terminations(judged(s, ok, now), release_task_ids, true)
}

/// The task that a payload of the hub describes.
pub open spec fn claim_described(task: ClaimedTaskHubPayloadView, now: u128) -> ClaimedTaskView {
    ClaimedTaskView {
        task_id: task.task_id,
        place_id: task.place_id,
        universe_id: if task.universe_id is Some {
            task.universe_id
        } else {
            task.game_id
        },
        mcp_base_url: task.routes.mcp_base_url->0,
        rojo_base_url: task.routes.rojo_base_url,
        runtime_log_base_url: task.routes.runtime_log_base_url,
        claimed_at: now,
    }
}

/// The universe of the task is known.
pub open spec fn has_universe(task: ClaimedTaskView) -> bool {
    task.universe_id matches Some(id) && crate::text::trimmed(id).len() > 0
}

/// What is to be done with the answer to a claim.
pub open spec fn claim_step(
    task: Option<ClaimedTaskHubPayloadView>,
    skip_launch: bool,
    now: u128,
) -> ClaimStepView {
    match task {
        None => ClaimStepView::Done,
        Some(payload) => {
            let claim = claim_described(payload, now);
            if payload.routes.mcp_base_url is None {
                ClaimStepView::Done
            } else if skip_launch {
                ClaimStepView::Accept(claim)
            } else if has_universe(claim) {
                ClaimStepView::Launch(claim)
            } else {
                ClaimStepView::ResolveUniverse(claim)
            }
        },
    }
}

/// The state with a task taken, but for the upkeep of the connections.
pub open spec fn taken(
    s: HelperStateView,
    task: ClaimedTaskView,
    launch: Option<LaunchProcessRecordView>,
    now: u128,
) -> HelperStateView {
    claim_ok(
        HelperStateView {
            claimed_tasks: s.claimed_tasks.insert(task.task_id, task),
            launch_processes: match launch {
                Some(l) => s.launch_processes.insert(l.task_id, l),
                None => s.launch_processes,
            },
            ..s
        },
        now,
    )
}

/// The hub has answered.
pub fn mark_hub_reachable(state: &mut HelperState, now: u128)
    ensures
        final(state)@ == reachable(old(state)@, now),
{
    state.hub_last_error = None;
    state.hub_last_ready_at = Some(now);
}

/// The hub has answered a claim.
pub fn mark_hub_claim_ok(state: &mut HelperState, now: u128)
    ensures
        final(state)@ == claim_ok(old(state)@, now),
{
    mark_hub_reachable(state, now);
    state.hub_last_claim_error = None;
}

/// A claim has failed.
pub fn record_hub_claim_error(state: &mut HelperState, claim_error: String)
    ensures
        final(state)@ == claim_failed(old(state)@, claim_error@),
{
    if state.claimed_tasks.is_empty() {
        state.hub_last_error = Some(claim_error.clone());
    }
    state.hub_last_claim_error = Some(claim_error);
}

/// What is to be asked of the hub in a round.
pub fn next_hub_request(state: &HelperState, registered: bool, now: u128) -> (request: HubRequest)
    requires
        super::task_status::records_wf(state@),
    ensures
        request@ == hub_request(state@, registered, now),
{
    if !registered {
        return HubRequest::Register;
    }
    let test = |k: &str, t: &ClaimedTask| -> (r: bool)
        ensures
            r,
    { true };
    let ids = state.claimed_tasks.keys_where(test, Ghost(|k: Seq<char>, t: ClaimedTaskView| true));
    assert(ids@ =~= state@.claimed_tasks.dom());
    HubRequest::Heartbeat {
        active_task_ids: ids.to_sorted_vec(),
        active_tasks: heartbeat_task_statuses(state, now),
    }
}

/// The hub has not registered the helper.
pub fn note_registration_refused(state: &mut HelperState, error: &RegisterHelperError)
    requires
        error matches RegisterHelperError::Other(text) ==> crate::sanitize::can_summarize(text@),
    ensures
        final(state)@ == with_hub_error(old(state)@, registration_error(*error)),
{
    let text = match error {
        RegisterHelperError::HelperIdConflict(message) => concat(
            "helper_id_conflict: ",
            message.as_str(),
        ),
        RegisterHelperError::Other(text) => summarize_error(text.as_str()),
    };
    state.hub_last_error = Some(text);
}

/// An exchange with the hub, or work for a claim, has failed.
pub fn note_hub_error(state: &mut HelperState, error: &str)
    requires
        crate::sanitize::can_summarize(error@),
    ensures
        final(state)@ == with_hub_error(old(state)@, crate::sanitize::summary(error@)),
{
    state.hub_last_error = Some(summarize_error(error));
}

/// The hub has answered a heartbeat. Gives the processes to end.
pub fn apply_heartbeat_answer(
    state: &mut HelperState,
    ok: bool,
    release_task_ids: &Vec<String>,
    now: u128,
) -> (pending: Vec<PendingLaunchTermination>)
    requires
        super::task_status::records_wf(old(state)@),
    ensures
        exists|workers: Map<Seq<char>, Seq<char>>| #[trigger]
            super::connections::fresh(workers) && final(state)@ == super::connections::synced(
                heard(old(state)@, ok, release_task_ids.deep_view(), now),
                workers,
                now,
            ),
        crate::table::views(pending@) == heard_terminations(
            old(state)@,
            ok,
            release_task_ids.deep_view(),
            now,
        ),
        super::task_status::records_wf(final(state)@),
{
    let ghost start = state@;
    let mut pending: Vec<PendingLaunchTermination> = Vec::new();
    assert(crate::table::views(pending@) =~= Seq::empty());
    if ok {
        mark_hub_reachable(state, now);
    } else {
        state.hub_last_error = Some("hub rejected helper heartbeat".to_owned());
        state.hub_last_ready_at = None;
        let ghost rejected = state@;
        pending = release_all_claimed_tasks(state, true);
        proof {
            lemma_terminations_agree(
                rejected,
                start,
                crate::table::sorted(start.claimed_tasks.dom()),
                true,
            );
        }
    }
    let mut more = release_listed_tasks(state, release_task_ids, true);
    let ghost first = pending@;
    let ghost second = more@;
    pending.append(&mut more);
    assert(crate::table::views(first + second) =~= crate::table::views(first)
        + crate::table::views(second));
    sync_remote_connections(state, now);
    pending
}

/// The processes to end depend on the held tasks and their processes alone.
proof fn lemma_terminations_agree(
    a: HelperStateView,
    b: HelperStateView,
    ids: Seq<Seq<char>>,
    terminate: bool,
)
    requires
        a.claimed_tasks == b.claimed_tasks,
        a.launch_processes == b.launch_processes,
    ensures
        super::routing::terminations(a, ids, terminate) == super::routing::terminations(
            b,
            ids,
            terminate,
        ),
    decreases ids.len(),
{
    if ids.len() > 0 {
        lemma_terminations_agree(a, b, ids.drop_last(), terminate);
    }
}

/// A heartbeat has failed. Tells whether the helper is still registered: it is not where the hub does
/// not know it.
pub fn apply_heartbeat_failure(state: &mut HelperState, error: &str) -> (registered: bool)
    requires
        crate::sanitize::can_summarize(error@),
    ensures
        final(state)@ == with_hub_error(old(state)@, crate::sanitize::summary(error@)),
        registered == still_known(error@),
{
    note_hub_error(state, error);
    !contains(error, "helper not found")
}

/// The helper has room for another task.
pub open spec fn has_room(s: HelperStateView, capacity: usize) -> bool {
    s.claimed_tasks.dom().len() < capacity
}

/// The state after the hub answered a claim.
pub open spec fn claim_answered(
    s: HelperStateView,
    task: Option<ClaimedTaskHubPayloadView>,
    now: u128,
) -> HelperStateView {
    if task is Some && task->0.routes.mcp_base_url is None {
        with_hub_error(claim_ok(s, now), "hub claimed task missing mcp_base_url"@)
    } else {
        claim_ok(s, now)
    }
}

/// The hub still knows the helper, by what it says of a failed report.
pub open spec fn still_known(error: Seq<char>) -> bool {
    !crate::text::holds_text(error, "helper not found"@)
}

/// Whether another task is to be claimed: where the helper has room for it. An error of an earlier
/// claim is forgotten where it has none.
pub fn claim_is_due(state: &mut HelperState, capacity: usize) -> (due: bool)
    ensures
        due == has_room(old(state)@, capacity),
        final(state)@ == if due {
            old(state)@
        } else {
            HelperStateView { hub_last_claim_error: None, ..old(state)@ }
        },
{
    let due = state.claimed_tasks.len() < capacity;
    if !due {
        state.hub_last_claim_error = None;
    }
    due
}

/// The hub has answered a claim. Tells what is to be done with the task.
pub fn apply_claim_answer(
    state: &mut HelperState,
    task: Option<ClaimedTaskHubPayload>,
    skip_launch: bool,
    now: u128,
) -> (step: ClaimStep)
    ensures
        step@ == claim_step(crate::table::opt_view(task), skip_launch, now),
        final(state)@ == claim_answered(old(state)@, crate::table::opt_view(task), now),
{
    mark_hub_claim_ok(state, now);
    let payload = match task {
        None => return ClaimStep::Done,
        Some(payload) => payload,
    };
    let mcp_base_url = match payload.routes.mcp_base_url {
        None => {
            state.hub_last_error = Some("hub claimed task missing mcp_base_url".to_owned());
            return ClaimStep::Done;
        },
        Some(url) => url,
    };
    let universe_id = match payload.universe_id {
        Some(id) => Some(id),
        None => payload.game_id,
    };
    let known = match &universe_id {
        Some(id) => !is_blank(id.as_str()),
        None => false,
    };
    let claim = ClaimedTask {
        task_id: payload.task_id,
        place_id: payload.place_id,
        universe_id,
        mcp_base_url,
        rojo_base_url: payload.routes.rojo_base_url,
        runtime_log_base_url: payload.routes.runtime_log_base_url,
        claimed_at: now,
    };
    if skip_launch {
        ClaimStep::Accept(claim)
    } else if known {
        ClaimStep::Launch(claim)
    } else {
        ClaimStep::ResolveUniverse(claim)
    }
}

/// A claim has failed.
pub fn apply_claim_failure(state: &mut HelperState, error: &str)
    requires
        crate::sanitize::can_summarize(error@),
    ensures
        final(state)@ == claim_failed(old(state)@, crate::sanitize::summary(error@)),
{
    record_hub_claim_error(state, summarize_error(error));
}

/// Takes a task, with the process that was launched for it.
pub fn accept_claim(
    state: &mut HelperState,
    task: ClaimedTask,
    launch: Option<LaunchProcessRecord>,
    now: u128,
)
    requires
        super::task_status::records_wf(old(state)@),
    ensures
        exists|workers: Map<Seq<char>, Seq<char>>| #[trigger]
            super::connections::fresh(workers) && final(state)@ == super::connections::synced(
                taken(old(state)@, task@, crate::table::opt_view(launch), now),
                workers,
                now,
            ),
        super::task_status::records_wf(final(state)@),
{
    state.claimed_tasks.insert(task.task_id.clone(), task);
    if let Some(record) = launch {
        state.launch_processes.insert(record.task_id.clone(), record);
    }
    mark_hub_claim_ok(state, now);
    sync_remote_connections(state, now);
}

/// A helper that the hub has turned away holds no task any more, and no task that the hub has asked
/// back is held; the others are.
pub proof fn law_answer_lets_go(
    s: HelperStateView,
    ok: bool,
    release_task_ids: Seq<Seq<char>>,
    now: u128,
    id: Seq<char>,
)
    ensures
        heard(s, ok, release_task_ids, now).claimed_tasks.contains_key(id) <==> ok
            && s.claimed_tasks.contains_key(id) && !release_task_ids.contains(id),
        ok && s.claimed_tasks.contains_key(id) && !release_task_ids.contains(id) ==> heard(
            s,
            ok,
            release_task_ids,
            now,
        ).claimed_tasks[id] == s.claimed_tasks[id],
{
    let j = judged(s, ok, now);
    let held = super::routing::held(j, release_task_ids);
    assert(held.contains(id) <==> release_task_ids.contains(id) && j.claimed_tasks.contains_key(id));
}

} // verus!
