//! Screenshots that are sent to where a task keeps its runtime logs.
use vstd::prelude::*;

use super::artifacts::RuntimeScreenshotResponse;
use super::config::ResolvedToken;
use super::records::HelperState;
use super::routing::select_claimed_task;
use crate::order::same_text;
use crate::sanitize::{maybe_sanitize_identifier, sanitize_identifier, sanitize_place_id};
use crate::table::Dup;
use crate::text::{concat, concat3, is_blank, trim};
use crate::urls::{
    runtime_screenshot_helper_upload_url, runtime_screenshot_upload_url_for_base_url,
};

verus! {

use super::artifacts::RuntimeScreenshotResponseView;
use super::config::ResolvedTokenView;
use super::records::HelperStateView;

/// A request for a screenshot of a running session.
pub struct RuntimeScreenshotRequest {
    pub place_id: Option<String>,
    pub task_id: Option<String>,
    pub session_id: String,
    pub runtime_id: String,
    pub tag: Option<String>,
    pub upload_url: String,
}

/// What a [`RuntimeScreenshotRequest`] stands for.
#[verifier::ext_equal]
pub struct RuntimeScreenshotRequestView {
    pub place_id: Option<Seq<char>>,
    pub task_id: Option<Seq<char>>,
    pub session_id: Seq<char>,
    pub runtime_id: Seq<char>,
    pub tag: Option<Seq<char>>,
    pub upload_url: Seq<char>,
}

impl View for RuntimeScreenshotRequest {
    type V = RuntimeScreenshotRequestView;

    open spec fn view(&self) -> RuntimeScreenshotRequestView {
        RuntimeScreenshotRequestView {
            place_id: self.place_id.deep_view(),
            task_id: self.task_id.deep_view(),
            session_id: self.session_id@,
            runtime_id: self.runtime_id@,
            tag: self.tag.deep_view(),
            upload_url: self.upload_url@,
        }
    }
}

/// What a screenshot is taken of and filed under, in the form that is kept.
pub struct ScreenshotRoute {
    pub place_id: Option<String>,
    pub task_id: Option<String>,
    pub session_id: String,
    pub runtime_id: String,
}

/// What a [`ScreenshotRoute`] stands for.
#[verifier::ext_equal]
pub struct ScreenshotRouteView {
    pub place_id: Option<Seq<char>>,
    pub task_id: Option<Seq<char>>,
    pub session_id: Seq<char>,
    pub runtime_id: Seq<char>,
}

impl View for ScreenshotRoute {
    type V = ScreenshotRouteView;

    open spec fn view(&self) -> ScreenshotRouteView {
        ScreenshotRouteView {
            place_id: self.place_id.deep_view(),
            task_id: self.task_id.deep_view(),
            session_id: self.session_id@,
            runtime_id: self.runtime_id@,
        }
    }
}

/// The answer to a screenshot that was sent.
pub struct RuntimeScreenshotSinkResponse {
    pub ok: bool,
    pub session_id: String,
    pub runtime_id: String,
    pub artifact_dir: String,
    pub screenshot_path: String,
    pub session_metadata_path: String,
    pub bytes_written: usize,
}

/// What a [`RuntimeScreenshotSinkResponse`] stands for.
#[verifier::ext_equal]
pub struct RuntimeScreenshotSinkResponseView {
    pub ok: bool,
    pub session_id: Seq<char>,
    pub runtime_id: Seq<char>,
    pub artifact_dir: Seq<char>,
    pub screenshot_path: Seq<char>,
    pub session_metadata_path: Seq<char>,
    pub bytes_written: usize,
}

impl View for RuntimeScreenshotSinkResponse {
    type V = RuntimeScreenshotSinkResponseView;

    open spec fn view(&self) -> RuntimeScreenshotSinkResponseView {
        RuntimeScreenshotSinkResponseView {
            ok: self.ok,
            session_id: self.session_id@,
            runtime_id: self.runtime_id@,
            artifact_dir: self.artifact_dir@,
            screenshot_path: self.screenshot_path@,
            session_metadata_path: self.session_metadata_path@,
            bytes_written: self.bytes_written,
        }
    }
}

impl Dup for RuntimeScreenshotSinkResponse {
    fn dup(&self) -> (copy: Self) {
        RuntimeScreenshotSinkResponse {
            ok: self.ok,
            session_id: self.session_id.clone(),
            runtime_id: self.runtime_id.clone(),
            artifact_dir: self.artifact_dir.clone(),
            screenshot_path: self.screenshot_path.clone(),
            session_metadata_path: self.session_metadata_path.clone(),
            bytes_written: self.bytes_written,
        }
    }
}

/// What follows from the answer to a screenshot that was sent with one of the tokens.
pub enum UploadStep {
    /// The token is refused: send the screenshot with the next one.
    NextToken,
    /// The screenshot is given up; the text says why.
    Failed(String),
    /// The screenshot is stored. The helper goes on with that token, where one is given.
    Stored(Option<ResolvedToken>),
}

/// What an [`UploadStep`] stands for.
pub enum UploadStepView {
    NextToken,
    Failed(Seq<char>),
    Stored(Option<ResolvedTokenView>),
}

impl View for UploadStep {
    type V = UploadStepView;

    open spec fn view(&self) -> UploadStepView {
        match self {
            UploadStep::NextToken => UploadStepView::NextToken,
            UploadStep::Failed(message) => UploadStepView::Failed(message@),
            UploadStep::Stored(token) => UploadStepView::Stored(crate::table::opt_view(*token)),
        }
    }
}

/// Where a screenshot is sent, or why it is not: it must be addressed to the helper's own address for
/// the task.
pub open spec fn upload_target(
    s: HelperStateView,
    upload_url: Seq<char>,
    place_id: Seq<char>,
    task_id: Option<Seq<char>>,
    port: u16,
) -> Result<Seq<char>, Seq<char>> {
    let given = crate::text::trimmed(upload_url);
    if given.len() == 0 {
        Err("upload_url must not be empty"@)
    } else {
        match super::routing::claim_selected(s, place_id, task_id) {
            Err(message) => Err(message),
            Ok(task) => match task.runtime_log_base_url {
                None => Err("claimed task has no runtime_log_base_url"@),
                Some(base) => {
                    let own = crate::urls::forward_url(
                        port,
                        "runtime-log-forward"@,
                        place_id,
                        task.task_id,
                    ) + "/v1/runtime-screenshots"@;
                    if given != own {
                        Err(
                            "upload_url must use local helper runtime screenshot forward for placeId "@
                                + place_id + ": "@ + own,
                        )
                    } else {
                        Ok(crate::urls::unslashed_end(base) + "/v1/runtime-screenshots"@)
                    }
                },
            },
        }
    }
}

/// What a request for a screenshot stands for, or why it is refused for its form.
pub open spec fn request_route(request: RuntimeScreenshotRequestView) -> Result<
    ScreenshotRouteView,
    Seq<char>,
> {
    if request.place_id is Some && !crate::sanitize::is_place_id(
        crate::text::trimmed(request.place_id->0),
    ) {
        Err("placeId must be digits only"@)
    } else if !crate::sanitize::is_name(crate::text::trimmed(request.session_id)) {
        Err(crate::sanitize::name_message("session_id"@))
    } else if !crate::sanitize::is_name(crate::text::trimmed(request.runtime_id)) {
        Err(crate::sanitize::name_message("runtime_id"@))
    } else if !crate::sanitize::optional_name(request.task_id) {
        Err(crate::sanitize::name_message("task_id"@))
    } else {
        Ok(
            ScreenshotRouteView {
                place_id: super::forward::trimmed_option(request.place_id),
                task_id: super::forward::trimmed_option(request.task_id),
                session_id: crate::text::trimmed(request.session_id),
                runtime_id: crate::text::trimmed(request.runtime_id),
            },
        )
    }
}

/// What follows from the answer to a screenshot; `parsed` is what its body says, where it can be read.
pub open spec fn upload_judged(
    candidate: ResolvedTokenView,
    current: Seq<char>,
    status: u16,
    status_text: Seq<char>,
    parsed: Option<RuntimeScreenshotSinkResponseView>,
    session_id: Seq<char>,
    runtime_id: Seq<char>,
) -> UploadStepView {
    if status == 401 {
        UploadStepView::NextToken
    } else if !super::forward::is_success(status) {
        UploadStepView::Failed("runtime screenshot upload returned "@ + status_text)
    } else {
        match parsed {
            None => UploadStepView::Failed("runtime screenshot upload returned invalid JSON"@),
            Some(told) => if !told.ok {
                UploadStepView::Failed("runtime screenshot upload returned ok=false"@)
            } else if told.session_id != session_id {
                UploadStepView::Failed(
                    "runtime screenshot upload returned mismatched session_id: expected "@
                        + session_id + ", got "@ + told.session_id,
                )
            } else if told.runtime_id != runtime_id {
                UploadStepView::Failed(
                    "runtime screenshot upload returned mismatched runtime_id: expected "@
                        + runtime_id + ", got "@ + told.runtime_id,
                )
            } else {
                UploadStepView::Stored(
                    if candidate.value != current {
                        Some(candidate)
                    } else {
                        None
                    },
                )
            },
        }
    }
}

/// Where a screenshot is sent.
pub fn validate_runtime_screenshot_upload_url(
    upload_url: &str,
    place_id: &str,
    task_id: Option<&str>,
    state: &HelperState,
    helper_port: u16,
) -> (result: Result<String, String>)
    ensures
        crate::table::outcome(result) == upload_target(
            state@,
            upload_url@,
            place_id@,
            task_id.deep_view(),
            helper_port,
        ),
{
    let given = trim(upload_url);
    if is_blank(upload_url) {
        return Err("upload_url must not be empty".to_owned());
    }
    let task = match select_claimed_task(state, place_id, task_id) {
        Ok(task) => task,
        Err(message) => return Err(message),
    };
    let base = match &task.runtime_log_base_url {
        Some(base) => base,
        None => return Err("claimed task has no runtime_log_base_url".to_owned()),
    };
    let own = runtime_screenshot_helper_upload_url(helper_port, place_id, task.task_id.as_str());
    if !same_text(given, own.as_str()) {
        let head = concat3(
            "upload_url must use local helper runtime screenshot forward for placeId ",
            place_id,
            ": ",
        );
        return Err(concat(head.as_str(), own.as_str()));
    }
    Ok(runtime_screenshot_upload_url_for_base_url(base.as_str()))
}

/// What a request for a screenshot stands for.
pub fn check_screenshot_request(request: &RuntimeScreenshotRequest) -> (result: Result<
    ScreenshotRoute,
    String,
>)
    ensures
        crate::table::outcome(result) == request_route(request@),
{
    let place_id = match &request.place_id {
        Some(place) => match sanitize_place_id(place.as_str()) {
            Ok(place) => Some(place),
            Err(message) => return Err(message),
        },
        None => None,
    };
    let session_id = match sanitize_identifier("session_id", request.session_id.as_str()) {
        Ok(id) => id,
        Err(message) => return Err(message),
    };
    let runtime_id = match sanitize_identifier("runtime_id", request.runtime_id.as_str()) {
        Ok(id) => id,
        Err(message) => return Err(message),
    };
    let task_id = match maybe_sanitize_identifier("task_id", &request.task_id) {
        Ok(id) => id,
        Err(message) => return Err(message),
    };
    Ok(ScreenshotRoute { place_id, task_id, session_id, runtime_id })
}

/// The tag of a screenshot, where it says anything.
pub fn screenshot_tag(tag: Option<&str>) -> (text: Option<String>)
    ensures
        text.deep_view() == crate::fields::optional(tag.deep_view()),
{
    match tag {
        Some(text) => {
            if is_blank(text) {
                None
            } else {
                Some(trim(text).to_owned())
            }
        },
        None => None,
    }
}

/// The place that a screenshot is filed under: the one that was captured, or else the one asked for.
pub fn screenshot_place(captured: Option<&str>, asked: Option<&str>) -> (result: Result<
    String,
    String,
>)
    ensures
        crate::table::outcome(result) == (match (captured.deep_view(), asked.deep_view()) {
            (Some(place), _) => Ok(place),
            (None, Some(place)) => Ok(place),
            (None, None) => Err(
                "helper could not resolve placeId for runtime screenshot upload"@,
            ),
        }),
{
    match captured {
        Some(place) => Ok(place.to_owned()),
        None => match asked {
            Some(place) => Ok(place.to_owned()),
            None => Err(
                "helper could not resolve placeId for runtime screenshot upload".to_owned(),
            ),
        },
    }
}

/// Two texts of which the second is not the one expected.
fn mismatch(what: &str, expected: &str, got: &str) -> (message: String)
    ensures
        message@ == what@ + expected@ + ", got "@ + got@,
{
    let head = concat3(what, expected, ", got ");
    concat(head.as_str(), got)
}

/// What follows from the answer to a screenshot that was sent with one of the tokens.
pub fn judge_screenshot_upload(
    candidate: &ResolvedToken,
    current_token: &str,
    status: u16,
    status_text: &str,
    parsed: &Option<RuntimeScreenshotSinkResponse>,
    session_id: &str,
    runtime_id: &str,
) -> (step: UploadStep)
    ensures
        step@ == upload_judged(
            candidate@,
            current_token@,
            status,
            status_text@,
            crate::table::opt_view(*parsed),
            session_id@,
            runtime_id@,
        ),
{
    if status == 401 {
        return UploadStep::NextToken;
    }
    if status < 200 || status >= 300 {
        return UploadStep::Failed(concat("runtime screenshot upload returned ", status_text));
    }
    let told = match parsed {
        Some(told) => told,
        None => return UploadStep::Failed(
            "runtime screenshot upload returned invalid JSON".to_owned(),
        ),
    };
    if !told.ok {
        return UploadStep::Failed("runtime screenshot upload returned ok=false".to_owned());
    }
    if !same_text(told.session_id.as_str(), session_id) {
        return UploadStep::Failed(
            mismatch(
                "runtime screenshot upload returned mismatched session_id: expected ",
                session_id,
                told.session_id.as_str(),
            ),
        );
    }
    if !same_text(told.runtime_id.as_str(), runtime_id) {
        return UploadStep::Failed(
            mismatch(
                "runtime screenshot upload returned mismatched runtime_id: expected ",
                runtime_id,
                told.runtime_id.as_str(),
            ),
        );
    }
    if !same_text(candidate.value.as_str(), current_token) {
        return UploadStep::Stored(Some(candidate.dup()));
    }
    UploadStep::Stored(None)
}

/// What is said where no token is left.
pub fn uploads_exhausted(saw_unauthorized: bool) -> (message: String)
    ensures
        message@ == (if saw_unauthorized {
            "runtime screenshot upload returned unauthorized for all token candidates"@
        } else {
            "runtime screenshot upload could not complete"@
        }),
{
    if saw_unauthorized {
        "runtime screenshot upload returned unauthorized for all token candidates".to_owned()
    } else {
        "runtime screenshot upload could not complete".to_owned()
    }
}

/// What a screenshot is told to be once it is stored.
pub open spec fn screenshot_told(told: RuntimeScreenshotSinkResponseView, place_id: Seq<char>) -> RuntimeScreenshotResponseView {
    RuntimeScreenshotResponseView {
        session_id: told.session_id,
        runtime_id: told.runtime_id,
        place_id,
        screenshot_path: told.screenshot_path,
        screenshot_rel_path: None,
        artifact_dir: told.artifact_dir,
        session_metadata_path: told.session_metadata_path,
        bytes_written: told.bytes_written,
    }
}

/// What is told of a screenshot that was stored.
pub fn screenshot_uploaded(told: &RuntimeScreenshotSinkResponse, place_id: &str) -> (response:
    RuntimeScreenshotResponse)
    ensures
        response@ == screenshot_told(told@, place_id@),
{
    RuntimeScreenshotResponse {
        session_id: told.session_id.clone(),
        runtime_id: told.runtime_id.clone(),
        place_id: place_id.to_owned(),
        screenshot_path: told.screenshot_path.clone(),
        screenshot_rel_path: None,
        artifact_dir: told.artifact_dir.clone(),
        session_metadata_path: told.session_metadata_path.clone(),
        bytes_written: told.bytes_written,
    }
}

/// Only the helper's own address for the task is taken as the target of a screenshot, and the target
/// that is used does not depend on the address that was given.
pub proof fn law_only_the_helpers_address_is_taken(
    s: HelperStateView,
    first: Seq<char>,
    second: Seq<char>,
    place_id: Seq<char>,
    task_id: Option<Seq<char>>,
    port: u16,
)
    requires
        upload_target(s, first, place_id, task_id, port) is Ok,
        upload_target(s, second, place_id, task_id, port) is Ok,
    ensures
        crate::text::trimmed(first) == crate::text::trimmed(second),
        upload_target(s, first, place_id, task_id, port) == upload_target(
            s,
            second,
            place_id,
            task_id,
            port,
        ),
{
}

/// A refused token never ends an upload, and an upload that is stored names the session asked for.
pub proof fn law_stored_for_the_session(
    candidate: ResolvedTokenView,
    current: Seq<char>,
    status: u16,
    status_text: Seq<char>,
    parsed: Option<RuntimeScreenshotSinkResponseView>,
    session_id: Seq<char>,
    runtime_id: Seq<char>,
)
    ensures
        ({
            let step = upload_judged(
                candidate,
                current,
                status,
                status_text,
                parsed,
                session_id,
                runtime_id,
            );
            &&& step is NextToken <==> status == 401
            &&& step is Stored ==> parsed is Some && parsed->0.ok && parsed->0.session_id
                == session_id && parsed->0.runtime_id == runtime_id
            &&& step matches UploadStepView::Stored(Some(token)) ==> token == candidate
        }),
{
}

} // verus!
