//! Where sources, logs and screenshots are sent on to and how that is counted, said of the claims and the
//! counts themselves.
use vstd::prelude::*;

use super::artifacts::{ScreenshotLabelView, TakeScreenshotToolArgsView};
use super::config::ResolvedTokenView;
use super::forward::{HubErrorResponseView, LogIntakeView, RuntimeLogForwardJobView};
use super::records::{ClaimedTaskView, HelperStateView, RuntimeLogForwardStatusRecordView};
use super::upload::{
    RuntimeScreenshotRequestView, RuntimeScreenshotSinkResponseView, UploadStepView,
};
use crate::helper_ws::{ArtifactCommittedView, HelperToServerMessageView};

verus! {

/// The text is made of digits, and is not empty.
pub open spec fn all_digits(s: Seq<char>) -> bool {
    s.len() > 0 && forall|i: int| 0 <= i < s.len() ==> '0' <= #[trigger] s[i] && s[i] <= '9'
}

/// The text is made of letters, digits, `_` and `-`, and is not empty.
pub open spec fn plain_name(s: Seq<char>) -> bool {
    s.len() > 0 && forall|i: int|
        0 <= i < s.len() ==> ('0' <= #[trigger] s[i] && s[i] <= '9') || ('a' <= s[i] && s[i] <= 'z')
            || ('A' <= s[i] && s[i] <= 'Z') || s[i] == '_' || s[i] == '-'
}

/// The address of a service of the helper for the claim.
pub open spec fn own_address(
    port: u16,
    service: Seq<char>,
    place_id: Seq<char>,
    task_id: Seq<char>,
) -> Seq<char> {
    "http://127.0.0.1:"@ + crate::text::decimal(port as nat) + "/"@ + service + "/"@ + place_id
        + "/task/"@ + task_id
}

/// Sources are fetched from the address that the claim names for them: the claim of the task that is
/// asked for, at the place that is asked for.
pub proof fn law_sources_come_from_the_claim(
    s: HelperStateView,
    place_id: Seq<char>,
    task_id: Option<Seq<char>>,
)
    requires
        s.claimed_tasks.dom().finite(),
    ensures
        ({
            let found = super::forward::rojo_target(s, place_id, task_id);
            &&& found matches Ok(url) ==> exists|k: Seq<char>| #[trigger]
                s.claimed_tasks.contains_key(k) && s.claimed_tasks[k].place_id == place_id
                    && s.claimed_tasks[k].rojo_base_url == Some(url) && (task_id is Some ==> task_id
                    == Some(k))
            &&& task_id matches Some(id) ==> (found is Ok <==> s.claimed_tasks.contains_key(id)
                && s.claimed_tasks[id].place_id == place_id
                && s.claimed_tasks[id].rojo_base_url is Some)
        }),
{
    let here = super::routing::claims_at(s, place_id);
    vstd::set_lib::lemma_set_subset_finite(s.claimed_tasks.dom(), here);
    if task_id is None && here.len() == 1 {
        let k = here.choose();
        assert(here.contains(k)) by {
            if here =~= Set::<Seq<char>>::empty() {
            }
        }
        assert(s.claimed_tasks.contains_key(k));
    } else if task_id is Some {
        assert(s.claimed_tasks.contains_key(task_id->0) || !s.claimed_tasks.contains_key(
            task_id->0,
        ));
    }
}

/// Studio is told to fetch sources from the helper itself, for the claim that it was routed to, with the
/// helper's own token; and only where the claim has sources.
pub proof fn law_studio_fetches_from_the_helper(
    s: HelperStateView,
    place_id: Seq<char>,
    task_id: Option<Seq<char>>,
    studio_pid: Option<u32>,
    port: u16,
    token: Seq<char>,
)
    ensures
        ({
            let claim = super::routing::claim_routed(s, place_id, task_id, studio_pid);
            let told = super::forward::rojo_config_told(
                s,
                place_id,
                task_id,
                studio_pid,
                port,
                token,
            );
            &&& told is Ok <==> claim is Ok && claim->Ok_0.rojo_base_url is Some
            &&& told matches Ok(config) ==> {
                &&& config.place_id == place_id
                &&& config.task_id == Some(claim->Ok_0.task_id)
                &&& config.auth_header == "Bearer "@ + token
                &&& config.base_url == own_address(
                    port,
                    "rojo-forward"@,
                    place_id,
                    claim->Ok_0.task_id,
                )
            }
        }),
{
}

/// What is fetched for Studio is fetched from the claim's own address, at the path that was asked for.
pub proof fn law_fetches_go_to_the_claim(
    s: HelperStateView,
    place_id: Seq<char>,
    task_id: Option<Seq<char>>,
    path: Seq<char>,
    query: Option<Seq<char>>,
)
    requires
        s.claimed_tasks.dom().finite(),
    ensures
        super::forward::rojo_forward_told(s, place_id, task_id, path, query) matches Ok(target) ==> {
            &&& all_digits(target.place_id)
            &&& target.place_id == crate::text::trimmed(place_id)
            &&& task_id is Some ==> target.task_id == Some(crate::text::trimmed(task_id->0))
                && plain_name(target.task_id->0)
            &&& task_id is None ==> target.task_id is None
            &&& target.target_path == crate::urls::target_path(path, query)
            &&& exists|k: Seq<char>| #[trigger]
                s.claimed_tasks.contains_key(k) && s.claimed_tasks[k].place_id == target.place_id && (
                task_id is Some ==> target.task_id == Some(k))
                    && s.claimed_tasks[k].rojo_base_url is Some && target.target_url
                    == crate::urls::unslashed_end(s.claimed_tasks[k].rojo_base_url->0)
                    + target.target_path
        },
{
    law_sources_come_from_the_claim(
        s,
        crate::text::trimmed(place_id),
        super::forward::trimmed_option(task_id),
    );
    assert forall|c: char| #[trigger] crate::sanitize::is_digit(c) <==> '0' <= c && c <= '9' by {}
}

/// A log is taken for the claim that it names, under the one path for logs, while fewer than sixty-four
/// wait; it is sent on to the address that the claim names for logs.
pub proof fn law_logs_go_to_the_claim(
    s: HelperStateView,
    place_id: Seq<char>,
    task_id: Seq<char>,
    path: Seq<char>,
    query: Option<Seq<char>>,
    waiting: nat,
)
    ensures
        ({
            let told = super::forward::log_told(s, place_id, task_id, path, query, waiting);
            let place = crate::text::trimmed(place_id);
            let id = crate::text::trimmed(task_id);
            let claim = s.claimed_tasks[id];
            let for_logs = crate::urls::unslashed_start(path) == "v1/runtime-logs"@;
            &&& told is Ok <==> all_digits(place) && plain_name(id) && s.claimed_tasks.contains_key(
                id,
            ) && claim.place_id == place && claim.runtime_log_base_url is Some
            &&& told matches Ok(intake) ==> {
                &&& intake is UnknownPath <==> !for_logs
                &&& intake is QueueFull <==> for_logs && waiting >= 64
                &&& intake matches LogIntakeView::Accepted(job) ==> {
                    &&& job.task_id == claim.task_id
                    &&& job.place_id == claim.place_id
                    &&& job.claimed_at == claim.claimed_at
                    &&& job.target_path == crate::urls::target_path(path, query)
                    &&& job.target_url == crate::urls::unslashed_end(
                        claim.runtime_log_base_url->0,
                    ) + job.target_path
                }
            }
        }),
{
    let place = crate::text::trimmed(place_id);
    let id = crate::text::trimmed(task_id);
    assert(crate::sanitize::is_place_id(place) <==> all_digits(place)) by {
        if all_digits(place) {
            assert forall|i: int| 0 <= i < place.len() implies crate::sanitize::is_digit(
                #[trigger] place[i],
            ) by {}
        }
    }
    assert(crate::sanitize::is_name(id) <==> plain_name(id)) by {
        if plain_name(id) {
            assert forall|i: int| 0 <= i < id.len() implies crate::sanitize::is_name_char(
                #[trigger] id[i],
            ) by {}
        }
    }
}

/// The counts of a task's logs: one that is taken waits and is counted as taken; one that went through
/// waits no more, is counted as sent and clears the last error; one that failed waits no more and leaves
/// its error; one that was turned away never waited.
pub proof fn law_logs_are_counted(
    r: RuntimeLogForwardStatusRecordView,
    path: Seq<char>,
    status: u16,
    failure: Option<u16>,
    error: Seq<char>,
    now: u128,
)
    requires
        0 < r.queued_count < u64::MAX,
        r.accepted_count < u64::MAX,
        r.forwarded_count < u64::MAX,
        r.failed_count < u64::MAX,
    ensures
        ({
            let taken = super::task_status::forward_accepted(r, path, now);
            let sent = super::task_status::forward_succeeded(r, path, status, now);
            let failed = super::task_status::forward_failed(r, path, failure, error, now);
            let refused = super::task_status::forward_refused(r, path, failure, error, now);
            &&& taken == (RuntimeLogForwardStatusRecordView {
                queued_count: (r.queued_count + 1) as u64,
                accepted_count: (r.accepted_count + 1) as u64,
                last_accepted_at: Some(now),
                last_target_path: Some(path),
                last_http_status: None,
                ..r
            })
            &&& sent == (RuntimeLogForwardStatusRecordView {
                queued_count: (r.queued_count - 1) as u64,
                forwarded_count: (r.forwarded_count + 1) as u64,
                last_forwarded_at: Some(now),
                last_attempt_at: Some(now),
                last_target_path: Some(path),
                last_http_status: Some(status),
                last_error: None,
                last_error_at: None,
                ..r
            })
            &&& failed == (RuntimeLogForwardStatusRecordView {
                queued_count: (r.queued_count - 1) as u64,
                failed_count: (r.failed_count + 1) as u64,
                last_attempt_at: Some(now),
                last_target_path: Some(path),
                last_http_status: failure,
                last_error: Some(error),
                last_error_at: Some(now),
                ..r
            })
            &&& refused == (RuntimeLogForwardStatusRecordView {
                queued_count: r.queued_count,
                ..failed
            })
        }),
{
}

/// The record of a task's logs, or one that counts nothing.
pub open spec fn counts(s: HelperStateView, task_id: Seq<char>) -> RuntimeLogForwardStatusRecordView {
    if s.runtime_log_forward_statuses.contains_key(task_id) {
        s.runtime_log_forward_statuses[task_id]
    } else {
        super::records::no_forwards()
    }
}

/// How a log fared is counted for its task while the claim that it was taken for is still held, at the
/// same place and since the same moment, and not at all after that. Only a status from 200 to 299 is a
/// success. Other tasks are not touched.
pub proof fn law_logs_are_settled(
    s: HelperStateView,
    job: RuntimeLogForwardJobView,
    status: Option<u16>,
    other: Seq<char>,
    now: u128,
)
    ensures
        ({
            let after = super::forward::log_settled(s, job, status, now);
            let claim = s.claimed_tasks[job.task_id];
            let held = s.claimed_tasks.contains_key(job.task_id) && claim.place_id == job.place_id
                && claim.claimed_at == job.claimed_at;
            let before = counts(s, job.task_id);
            let now_counts = counts(after, job.task_id);
            let success = status is Some && 200 <= status->0 && status->0 < 300;
            &&& !held ==> after == s
            &&& held && before.queued_count > 0 ==> now_counts.queued_count == before.queued_count
                - 1
            &&& held && success ==> {
                &&& before.forwarded_count < u64::MAX ==> now_counts.forwarded_count
                    == before.forwarded_count + 1
                &&& now_counts.failed_count == before.failed_count
                &&& now_counts.last_error is None
                &&& now_counts.last_http_status == status
                &&& now_counts.last_forwarded_at == Some(now)
                &&& now_counts.last_target_path == Some(job.target_path)
            }
            &&& held && !success ==> {
                &&& before.failed_count < u64::MAX ==> now_counts.failed_count
                    == before.failed_count + 1
                &&& now_counts.forwarded_count == before.forwarded_count
                &&& now_counts.last_error is Some
                &&& now_counts.last_error_at == Some(now)
                &&& now_counts.last_http_status == status
                &&& now_counts.last_target_path == Some(job.target_path)
            }
            &&& other != job.task_id ==> counts(after, other) == counts(s, other)
            &&& after.claimed_tasks == s.claimed_tasks
        }),
{
}

/// A log that is taken, or turned away for want of room, is counted for its task; nothing else is.
pub proof fn law_taken_logs_are_counted(
    s: HelperStateView,
    task_id: Seq<char>,
    path: Seq<char>,
    query: Option<Seq<char>>,
    told: Result<LogIntakeView, Seq<char>>,
    other: Seq<char>,
    now: u128,
)
    ensures
        ({
            let id = crate::text::trimmed(task_id);
            let after = super::forward::log_state(s, task_id, path, query, told, now);
            let before = counts(s, id);
            let c = counts(after, id);
            let taken = told is Ok && told->Ok_0 is Accepted;
            let full = told is Ok && told->Ok_0 is QueueFull;
            &&& !taken && !full ==> after == s
            &&& taken && before.queued_count < u64::MAX && before.accepted_count < u64::MAX
                ==> c.queued_count == before.queued_count + 1 && c.accepted_count
                == before.accepted_count + 1
            &&& taken ==> c.last_accepted_at == Some(now) && c.failed_count == before.failed_count
            &&& full ==> c.queued_count == before.queued_count && c.accepted_count
                == before.accepted_count && c.last_error is Some
            &&& full && before.failed_count < u64::MAX ==> c.failed_count == before.failed_count + 1
            &&& other != id ==> counts(after, other) == counts(s, other)
            &&& after.claimed_tasks == s.claimed_tasks
        }),
{
}

/// A task's logs are told as being sent while some wait, else as failing while the last one failed, else
/// as in order once one went through.
pub proof fn law_log_state_is_told(r: RuntimeLogForwardStatusRecordView, now: u128)
    ensures
        ({
            let told = super::task_status::forward_told(r, now);
            &&& told.state == if r.queued_count > 0 {
                "forwarding"@
            } else if r.last_error is Some {
                "error"@
            } else if r.forwarded_count > 0 {
                "ready"@
            } else {
                "idle"@
            }
            &&& told.queued_count == r.queued_count
            &&& told.accepted_count == r.accepted_count
            &&& told.forwarded_count == r.forwarded_count
            &&& told.failed_count == r.failed_count
            &&& told.last_target_path == r.last_target_path
            &&& told.last_http_status == r.last_http_status
            &&& told.last_error == r.last_error
            &&& told.last_accepted_age_ms == super::told::short_age(now, r.last_accepted_at)
            &&& told.last_forwarded_age_ms == super::told::short_age(now, r.last_forwarded_at)
            &&& told.last_attempt_age_ms == super::told::short_age(now, r.last_attempt_at)
            &&& told.last_error_age_ms == super::told::short_age(now, r.last_error_at)
        }),
{
}

/// A screenshot is sent to the address that the claim names for logs, and only where the runtime named the
/// helper's own address for that claim.
pub proof fn law_screenshots_go_to_the_claim(
    s: HelperStateView,
    upload_url: Seq<char>,
    place_id: Seq<char>,
    task_id: Seq<char>,
    port: u16,
)
    requires
        super::task_status::records_wf(s),
    ensures
        ({
            let found = super::upload::upload_target(s, upload_url, place_id, Some(task_id), port);
            let claim = s.claimed_tasks[task_id];
            &&& found is Ok ==> {
                &&& s.claimed_tasks.contains_key(task_id)
                &&& claim.place_id == place_id
                &&& claim.runtime_log_base_url is Some
                &&& crate::text::trimmed(upload_url) == own_address(
                    port,
                    "runtime-log-forward"@,
                    place_id,
                    task_id,
                ) + "/v1/runtime-screenshots"@
                &&& found->Ok_0 == crate::urls::unslashed_end(claim.runtime_log_base_url->0)
                    + "/v1/runtime-screenshots"@
            }
            &&& crate::text::trimmed(upload_url).len() > 0 && s.claimed_tasks.contains_key(task_id)
                && claim.place_id == place_id && claim.runtime_log_base_url is Some
                && crate::text::trimmed(upload_url) == own_address(
                port,
                "runtime-log-forward"@,
                place_id,
                task_id,
            ) + "/v1/runtime-screenshots"@ ==> found is Ok
        }),
{
}

/// A screenshot is asked for by names that are plain; they are taken without the white space around them.
pub proof fn law_screenshot_request_is_checked(request: RuntimeScreenshotRequestView)
    ensures
        ({
            let route = super::upload::request_route(request);
            let session = crate::text::trimmed(request.session_id);
            let runtime = crate::text::trimmed(request.runtime_id);
            &&& route is Ok <==> plain_name(session) && plain_name(runtime) && (
            request.place_id is Some ==> all_digits(crate::text::trimmed(request.place_id->0))) && (
            request.task_id is Some ==> plain_name(crate::text::trimmed(request.task_id->0)))
            &&& route matches Ok(r) ==> {
                &&& r.session_id == session
                &&& r.runtime_id == runtime
                &&& r.place_id is Some == request.place_id is Some
                &&& r.place_id matches Some(place) ==> place == crate::text::trimmed(
                    request.place_id->0,
                )
                &&& r.task_id is Some == request.task_id is Some
                &&& r.task_id matches Some(id) ==> id == crate::text::trimmed(request.task_id->0)
            }
        }),
{
    lemma_names(crate::text::trimmed(request.session_id));
    lemma_names(crate::text::trimmed(request.runtime_id));
    lemma_names(crate::text::trimmed(request.task_id->0));
    lemma_names(crate::text::trimmed(request.place_id->0));
}

proof fn lemma_names(s: Seq<char>)
    ensures
        crate::sanitize::is_place_id(s) <==> all_digits(s),
        crate::sanitize::is_name(s) <==> plain_name(s),
{
    if all_digits(s) {
        assert forall|i: int| 0 <= i < s.len() implies crate::sanitize::is_digit(#[trigger] s[i]) by {}
    }
    if plain_name(s) {
        assert forall|i: int| 0 <= i < s.len() implies crate::sanitize::is_name_char(
            #[trigger] s[i],
        ) by {}
    }
}

/// Names are plain and places are numbers, as the helper checks them.
pub proof fn law_names_are_plain(s: Seq<char>)
    ensures
        crate::sanitize::is_place_id(s) <==> all_digits(s),
        crate::sanitize::is_name(s) <==> plain_name(s),
{
    lemma_names(s);
}

/// A screenshot counts as stored exactly where the server says so with success, for the session and the
/// runtime that it was taken for; only a refused token is a reason to try the next one, and a token that
/// went through is kept where it is new.
pub proof fn law_upload_is_judged(
    candidate: ResolvedTokenView,
    current: Seq<char>,
    status: u16,
    status_text: Seq<char>,
    parsed: Option<RuntimeScreenshotSinkResponseView>,
    session_id: Seq<char>,
    runtime_id: Seq<char>,
)
    ensures
        ({
            let step = super::upload::upload_judged(
                candidate,
                current,
                status,
                status_text,
                parsed,
                session_id,
                runtime_id,
            );
            let stored = 200 <= status && status < 300 && parsed is Some && parsed->0.ok
                && parsed->0.session_id == session_id && parsed->0.runtime_id == runtime_id;
            &&& step is NextToken <==> status == 401
            &&& step is Stored <==> stored
            &&& step matches UploadStepView::Stored(kept) ==> kept == if candidate.value != current {
                Some(candidate)
            } else {
                None
            }
        }),
{
}

/// A screenshot tool needs a session, takes the runtime to be the server where none is named, and takes
/// plain names only.
pub proof fn law_screenshot_label(args: TakeScreenshotToolArgsView)
    ensures
        ({
            let label = super::artifacts::label_of(args);
            let runtime = if args.runtime_id is Some {
                crate::text::trimmed(args.runtime_id->0)
            } else {
                crate::text::trimmed("server"@)
            };
            &&& label is Ok <==> args.session_id is Some && plain_name(
                crate::text::trimmed(args.session_id->0),
            ) && plain_name(runtime) && (args.tag is Some ==> plain_name(
                crate::text::trimmed(args.tag->0),
            ))
            &&& label matches Ok(l) ==> {
                &&& l.session_id == crate::text::trimmed(args.session_id->0)
                &&& l.runtime_id == runtime
                &&& l.tag is Some == args.tag is Some
                &&& l.tag matches Some(tag) ==> tag == crate::text::trimmed(args.tag->0)
            }
        }),
{
    lemma_names(crate::text::trimmed(args.session_id->0));
    lemma_names(crate::text::trimmed(args.runtime_id->0));
    lemma_names(crate::text::trimmed("server"@));
    lemma_names(crate::text::trimmed(args.tag->0));
}

/// An upload is announced, sent in pieces that are numbered from nought, each of at most 360 KiB, and
/// ended with the number of pieces; all of it under one name, and announced with what it is of.
pub proof fn law_upload_is_sent_in_order(
    upload_id: Seq<char>,
    request_id: Seq<char>,
    place_id: Seq<char>,
    task_id: Option<Seq<char>>,
    label: ScreenshotLabelView,
    bytes: Seq<u8>,
    i: int,
)
    requires
        0 < bytes.len() <= u32::MAX,
        0 <= i < (bytes.len() + 368_639) / 368_640,
    ensures
        ({
            let sent = super::artifacts::upload_messages(
                upload_id,
                request_id,
                place_id,
                task_id,
                label,
                bytes,
            );
            let pieces = (bytes.len() + 368_639) / 368_640;
            let end = if (i + 1) * 368_640 <= bytes.len() {
                (i + 1) * 368_640
            } else {
                bytes.len() as int
            };
            &&& sent.len() == pieces + 2
            &&& sent[0] matches HelperToServerMessageView::ArtifactBegin(begin) && {
                &&& begin.upload_id == upload_id
                &&& begin.request_id == request_id
                &&& begin.session_id == label.session_id
                &&& begin.runtime_id == label.runtime_id
                &&& begin.place_id == place_id
                &&& begin.task_id == task_id
                &&& begin.tag == label.tag
                &&& begin.content_type == "image/png"@
                &&& begin.total_bytes == bytes.len()
            }
            &&& sent[i + 1] matches HelperToServerMessageView::ArtifactChunk(chunk) && {
                &&& chunk.upload_id == upload_id
                &&& chunk.seq == i
                &&& chunk.data_base64 == crate::encoding::base64_text(
                    bytes.subrange(i * 368_640, end),
                )
            }
            &&& sent[sent.len() - 1] matches HelperToServerMessageView::ArtifactFinish(finish) && {
                &&& finish.upload_id == upload_id
                &&& finish.request_id == request_id
                &&& finish.total_chunks == pieces
            }
        }),
{
}

/// A stored screenshot is told as the server stored it.
pub proof fn law_stored_screenshot_is_told(committed: ArtifactCommittedView)
    ensures
        ({
            let told = super::artifacts::stored(committed);
            &&& told.session_id == committed.session_id
            &&& told.runtime_id == committed.runtime_id
            &&& told.place_id == committed.place_id
            &&& told.screenshot_path == committed.screenshot_path
            &&& told.screenshot_rel_path == Some(committed.screenshot_rel_path)
            &&& told.artifact_dir == committed.artifact_dir
            &&& told.session_metadata_path == committed.session_metadata_path
            &&& told.bytes_written == committed.bytes_written
        }),
{
}

/// The hub says that a helper's name is taken with the status for a conflict and its code, in the header
/// or in the body; nothing else is taken to say so.
pub proof fn law_name_conflict_is_told_apart(
    status: u16,
    error_code: Option<Seq<char>>,
    body: Seq<char>,
    parsed: Option<HubErrorResponseView>,
)
    ensures
        super::forward::conflict_message(status, error_code, body, parsed) is Some <==> status == 409
            && (error_code == Some("helper_id_conflict"@) || (parsed is Some && parsed->0.code
            == Some("helper_id_conflict"@))),
{
}

/// The claim that a log is for, as the helper still knows it.
pub proof fn law_claim_is_current(
    s: HelperStateView,
    task_id: Seq<char>,
    place_id: Seq<char>,
    claimed_at: u128,
    task: ClaimedTaskView,
)
    requires
        s.claimed_tasks.contains_key(task_id),
        s.claimed_tasks[task_id] == task,
    ensures
        super::task_status::claim_current(s, task_id, place_id, claimed_at) <==> task.place_id
            == place_id && task.claimed_at == claimed_at,
{
}

/// A web socket for sources goes to the claim's own address for them, as a web socket.
pub proof fn law_sockets_go_to_the_claim(
    s: HelperStateView,
    place_id: Seq<char>,
    task_id: Option<Seq<char>>,
    cursor: Seq<char>,
    query: Option<Seq<char>>,
)
    requires
        s.claimed_tasks.dom().finite(),
    ensures
        super::forward::rojo_socket_told(s, place_id, task_id, cursor, query) matches Ok(url) ==> {
            &&& all_digits(crate::text::trimmed(place_id))
            &&& plain_name(crate::text::trimmed(cursor))
            &&& task_id is Some ==> plain_name(crate::text::trimmed(task_id->0))
            &&& exists|k: Seq<char>| #[trigger]
                s.claimed_tasks.contains_key(k) && s.claimed_tasks[k].place_id
                    == crate::text::trimmed(place_id) && (task_id is Some ==> crate::text::trimmed(
                    task_id->0,
                ) == k) && s.claimed_tasks[k].rojo_base_url is Some && crate::urls::ws_base(
                    s.claimed_tasks[k].rojo_base_url->0,
                ) is Some && url == crate::urls::unslashed_end(
                    crate::urls::ws_base(s.claimed_tasks[k].rojo_base_url->0)->0,
                ) + crate::urls::target_path("api/socket/"@ + crate::text::trimmed(cursor), query)
        },
{
    lemma_names(crate::text::trimmed(place_id));
    lemma_names(crate::text::trimmed(cursor));
    lemma_names(crate::text::trimmed(task_id->0));
    law_sources_come_from_the_claim(
        s,
        crate::text::trimmed(place_id),
        super::forward::trimmed_option(task_id),
    );
}

/// A Studio that asks where to fetch from, and tells its process, is bound to the claim that it was routed
/// to; nothing changes else.
pub proof fn law_asking_studio_is_bound(
    s: HelperStateView,
    place_id: Seq<char>,
    task_id: Option<Seq<char>>,
    studio_pid: Option<u32>,
)
    ensures
        ({
            let after = super::forward::rojo_config_state(s, place_id, task_id, studio_pid);
            let claim = super::routing::claim_routed(s, place_id, task_id, studio_pid);
            let id = claim->Ok_0.task_id;
            &&& claim is Ok && studio_pid is Some ==> after.launch_processes.contains_key(id)
                && Some(after.launch_processes[id].studio_pid) == studio_pid
                && after.launch_processes[id].place_id == claim->Ok_0.place_id
            &&& claim is Err || studio_pid is None ==> after == s
            &&& after.claimed_tasks == s.claimed_tasks
            &&& after.instances == s.instances
        }),
{
}

/// The hub is reached at its address, without the slashes at its end, and the path; without an address it
/// is not reached.
pub proof fn law_hub_is_reached(base: Option<Seq<char>>, path: Seq<char>)
    ensures
        super::forward::hub_address(base, path) is Ok <==> base is Some,
        base matches Some(url) ==> super::forward::hub_address(base, path) == Ok::<
            Seq<char>,
            Seq<char>,
        >(crate::urls::unslashed_end(url) + path),
{
}

/// The file of a screenshot is named after its place, where it has one, and its moment.
pub proof fn law_screenshot_is_named(place_id: Seq<char>, stamp: Seq<char>)
    ensures
        super::capture::screenshot_file(Some(place_id), stamp) == "studio-"@ + place_id + "-"@ + stamp
            + ".png"@,
        super::capture::screenshot_file(None, stamp) == "studio-"@ + stamp + ".png"@,
{
}

/// A piece of an upload leaves room for the rest of its message.
pub proof fn law_pieces_leave_room(text: Seq<char>, n: nat)
    requires
        n <= 368_640,
        text.len() == crate::encoding::base64_len(n),
    ensures
        super::artifacts::leaves_room(text),
        text.len() + 20_480 <= 512_000,
        3 * text.len() >= 4 * n,
{
}

/// An upload that breaks off says how far it came: before its start, before its end, or between.
pub proof fn law_broken_upload_is_told(sent: usize, total: usize)
    requires
        sent < total,
    ensures
        ({
            let told = super::artifacts::broken_off(sent, total);
            &&& sent == 0 ==> told == "remote websocket sender dropped before artifact begin"@
            &&& sent > 0 && sent == total - 1 ==> told
                == "remote websocket sender dropped before artifact finish"@
            &&& 0 < sent && sent < total - 1 ==> told
                == "remote websocket sender dropped during artifact upload"@
        }),
{
}

/// Of a task whose logs never came, nothing is counted.
pub proof fn law_nothing_is_counted_at_first(s: HelperStateView, task_id: Seq<char>)
    requires
        !s.runtime_log_forward_statuses.contains_key(task_id),
    ensures
        ({
            let r = super::task_status::forward_record(s, task_id);
            &&& r.queued_count == 0
            &&& r.accepted_count == 0
            &&& r.forwarded_count == 0
            &&& r.failed_count == 0
            &&& r.last_accepted_at is None
            &&& r.last_forwarded_at is None
            &&& r.last_attempt_at is None
            &&& r.last_target_path is None
            &&& r.last_http_status is None
            &&& r.last_error is None
            &&& r.last_error_at is None
        }),
{
}

/// What became of a log is counted while its claim is held, at the same place and since the same moment, and
/// only for its task.
pub proof fn law_forwards_keep_to_their_claim(
    s: HelperStateView,
    task_id: Seq<char>,
    place_id: Seq<char>,
    claimed_at: u128,
    path: Seq<char>,
    status: u16,
    failure: Option<u16>,
    error: Seq<char>,
    other: Seq<char>,
    now: u128,
)
    ensures
        ({
            let kept = super::task_status::forward_kept(
                s,
                task_id,
                place_id,
                claimed_at,
                path,
                status,
                now,
            );
            let lost = super::task_status::forward_lost(
                s,
                task_id,
                place_id,
                claimed_at,
                path,
                failure,
                error,
                now,
            );
            let held = s.claimed_tasks.contains_key(task_id) && s.claimed_tasks[task_id].place_id
                == place_id && s.claimed_tasks[task_id].claimed_at == claimed_at;
            let k = counts(kept, task_id);
            let l = counts(lost, task_id);
            &&& !held ==> kept == s && lost == s
            &&& held ==> k.last_http_status == Some(status) && k.last_error is None
                && k.last_forwarded_at == Some(now) && k.last_target_path == Some(path)
            &&& held && counts(s, task_id).forwarded_count < u64::MAX ==> k.forwarded_count
                == counts(s, task_id).forwarded_count + 1
            &&& held ==> l.last_http_status == failure && l.last_error == Some(error)
                && l.last_error_at == Some(now) && l.last_target_path == Some(path)
            &&& held && counts(s, task_id).failed_count < u64::MAX ==> l.failed_count == counts(
                s,
                task_id,
            ).failed_count + 1
            &&& other != task_id ==> counts(kept, other) == counts(s, other) && counts(lost, other)
                == counts(s, other)
            &&& kept.claimed_tasks == s.claimed_tasks
            &&& lost.claimed_tasks == s.claimed_tasks
        }),
{
}

/// A screenshot that was uploaded is told as the receiver stored it, at the place that it was filed under.
pub proof fn law_uploaded_screenshot_is_told(
    told: RuntimeScreenshotSinkResponseView,
    place_id: Seq<char>,
)
    ensures
        ({
            let r = super::upload::screenshot_told(told, place_id);
            &&& r.session_id == told.session_id
            &&& r.runtime_id == told.runtime_id
            &&& r.place_id == place_id
            &&& r.screenshot_path == told.screenshot_path
            &&& r.screenshot_rel_path is None
            &&& r.artifact_dir == told.artifact_dir
            &&& r.session_metadata_path == told.session_metadata_path
            &&& r.bytes_written == told.bytes_written
        }),
{
}

} // verus!
