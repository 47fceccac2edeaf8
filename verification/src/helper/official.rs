//! The adapter to the official tools: which requests it takes, what its errors mean, and how its
//! arguments are prepared.
use vstd::prelude::*;

use super::records::{HelperState, OfficialAdapterStateRecord, RemoteConnectionState};
use super::routing::stop_removed_official_adapter;
use super::session::task_connection_key;
use super::timing::OFFICIAL_MCP_REQUEST_TIMEOUT;
use crate::clock::NANOS_PER_MILLI;
use crate::encoding::decode_base64;
use crate::helper_ws::OfficialMcpRequest;
use crate::ids::new_token;
use crate::json::{
    is_json, is_json_object, json_member_items, json_member_text, json_number_field,
    json_string_field,
};
use crate::order::{chars_of, same_text};
use crate::sanitize::{name_char, sanitize_identifier, summarize_error};
use crate::table::{dup_text, Dup};
use crate::text::{
    borrowed, concat, concat3, contains, cut_ends, decimal_text, is_blank, join, split_once, starts_with,
    strip_prefix, text_of, to_ascii_lowercase, trim,
};

verus! {

use super::records::{HelperStateView, OfficialAdapterStateRecordView};
use crate::helper_ws::OfficialMcpRequestView;

/// How many bytes an image may have.
pub const OFFICIAL_STORE_IMAGE_MAX_DECODED_BYTES: usize = 20_971_520;

/// How many characters the base64 text of an image may have.
pub const OFFICIAL_STORE_IMAGE_MAX_BASE64_CHARS: usize = 27_962_028;

/// A part of an answer of the official tools.
pub struct OfficialContentItem {
    pub item_type: String,
    pub text: Option<String>,
}

/// What a [`OfficialContentItem`] stands for.
#[verifier::ext_equal]
pub struct OfficialContentItemView {
    pub item_type: Seq<char>,
    pub text: Option<Seq<char>>,
}

impl View for OfficialContentItem {
    type V = OfficialContentItemView;

    open spec fn view(&self) -> OfficialContentItemView {
        OfficialContentItemView {
            item_type: self.item_type@,
            text: self.text.deep_view(),
        }
    }
}

/// A Studio that the official tools see.
pub struct OfficialStudioInfo {
    pub id: String,
    pub name: Option<String>,
    pub active: Option<bool>,
}

/// What a [`OfficialStudioInfo`] stands for.
#[verifier::ext_equal]
pub struct OfficialStudioInfoView {
    pub id: Seq<char>,
    pub name: Option<Seq<char>>,
    pub active: Option<bool>,
}

impl View for OfficialStudioInfo {
    type V = OfficialStudioInfoView;

    open spec fn view(&self) -> OfficialStudioInfoView {
        OfficialStudioInfoView {
            id: self.id@,
            name: self.name.deep_view(),
            active: self.active,
        }
    }
}

impl Dup for OfficialStudioInfo {
    fn dup(&self) -> (copy: Self) {
        OfficialStudioInfo {
            id: self.id.clone(),
            name: dup_text(&self.name),
            active: self.active,
        }
    }
}

/// The Studios that the official tools see.
pub struct OfficialStudioList {
    pub note: Option<String>,
    pub studios: Vec<OfficialStudioInfo>,
}

/// What a [`OfficialStudioList`] stands for.
#[verifier::ext_equal]
pub struct OfficialStudioListView {
    pub note: Option<Seq<char>>,
    pub studios: Seq<OfficialStudioInfoView>,
}

impl View for OfficialStudioList {
    type V = OfficialStudioListView;

    open spec fn view(&self) -> OfficialStudioListView {
        OfficialStudioListView {
            note: self.note.deep_view(),
            studios: crate::table::views(self.studios@),
        }
    }
}

/// An image that is to be written for the official tools: the task that it is kept under, the name
/// of its file, and its bytes.
pub struct StoredImage {
    pub task_id: String,
    pub file_name: String,
    pub bytes: Vec<u8>,
}

/// What a [`StoredImage`] stands for.
#[verifier::ext_equal]
pub struct StoredImageView {
    pub task_id: Seq<char>,
    pub file_name: Seq<char>,
    pub bytes: Seq<u8>,
}

impl View for StoredImage {
    type V = StoredImageView;

    open spec fn view(&self) -> StoredImageView {
        StoredImageView {
            task_id: self.task_id@,
            file_name: self.file_name@,
            bytes: self.bytes@,
        }
    }
}

/// What is to become of the arguments of a request to store an image.
pub enum ImageArguments {
    /// The image is in a file already.
    File(String),
    /// The image is to be written to a file first.
    Write(StoredImage),
}

/// What an [`ImageArguments`] stands for.
pub enum ImageArgumentsView {
    File(Seq<char>),
    Write(StoredImageView),
}

impl View for ImageArguments {
    type V = ImageArgumentsView;

    open spec fn view(&self) -> ImageArgumentsView {
        match self {
            ImageArguments::File(path) => ImageArgumentsView::File(path@),
            ImageArguments::Write(image) => ImageArgumentsView::Write(image@),
        }
    }
}

/// How the first request to a new adapter went.
pub enum PrewarmOutcome {
    Ready,
    Failed(String),
    WorkerGone,
    ChannelClosed,
    TimedOut,
}

/// How an adapter was lost while a request waited for it.
pub enum AdapterLoss {
    WorkerGone,
    ChannelClosed,
    TimedOut,
}

/// What a response of the official tools is to the request that waits.
pub enum RpcStep {
    /// It answers another request.
    Skip,
    /// It is an error.
    Fail(String),
    /// It is the result.
    Done,
}

/// What an [`RpcStep`] stands for.
pub enum RpcStepView {
    Skip,
    Fail(Seq<char>),
    Done,
}

impl View for RpcStep {
    type V = RpcStepView;

    open spec fn view(&self) -> RpcStepView {
        match self {
            RpcStep::Skip => RpcStepView::Skip,
            RpcStep::Fail(text) => RpcStepView::Fail(text@),
            RpcStep::Done => RpcStepView::Done,
        }
    }
}

/// The tools that may be used.
pub open spec fn allowed_tools() -> Seq<Seq<char>> {
    seq![
        "generate_mesh"@,
        "search_creator_store"@,
        "insert_from_creator_store"@,
        "store_image"@,
        "generate_procedural_model"@,
        "wait_job_finished"@,
    ]
}

/// The tool may be used.
pub open spec fn allowed(tool: Seq<char>) -> bool {
    ||| tool == "generate_mesh"@
    ||| tool == "search_creator_store"@
    ||| tool == "insert_from_creator_store"@
    ||| tool == "store_image"@
    ||| tool == "generate_procedural_model"@
    ||| tool == "wait_job_finished"@
}

/// How long a request may take, in nanoseconds.
pub open spec fn request_timeout(timeout_ms: u64) -> u128 {
    let nanos = (if timeout_ms >= 1 {
        timeout_ms
    } else {
        1
    }) * NANOS_PER_MILLI;
    if nanos <= OFFICIAL_MCP_REQUEST_TIMEOUT {
        nanos as u128
    } else {
        OFFICIAL_MCP_REQUEST_TIMEOUT
    }
}

/// Why a request does not belong to a connection.
pub open spec fn request_fault(
    place_id: Seq<char>,
    task_id: Option<Seq<char>>,
    request: OfficialMcpRequestView,
) -> Option<Seq<char>> {
    match task_id {
        None => Some("official MCP request requires task_id-bound remote connection"@),
        Some(id) => if request.task_id != id {
            Some(
                "official MCP request task_id mismatch: expected "@ + id + ", got "@
                    + request.task_id,
            )
        } else if request.place_id != place_id {
            Some(
                "official MCP request place_id mismatch: expected "@ + place_id + ", got "@
                    + request.place_id,
            )
        } else {
            None
        },
    }
}

/// The state with what is known of an adapter.
pub open spec fn with_adapter_state(
    s: HelperStateView,
    task_id: Seq<char>,
    status: Seq<char>,
    last_error: Option<Seq<char>>,
    now: u128,
) -> HelperStateView {
    HelperStateView {
        official_adapter_states: s.official_adapter_states.insert(
            task_id,
            OfficialAdapterStateRecordView { state: status, last_error, observed_at: now },
        ),
        ..s
    }
}

/// Why a task can have no adapter.
pub open spec fn adapter_fault(s: HelperStateView, task_id: Seq<char>, place_id: Seq<char>) -> Option<
    Seq<char>,
> {
    let key = super::session::connection_key(task_id);
    if !s.claimed_tasks.contains_key(task_id) {
        Some("helper has not claimed task_id "@ + task_id)
    } else if s.claimed_tasks[task_id].place_id != place_id {
        Some(
            "claimed task place_id mismatch for task_id "@ + task_id + ": expected "@
                + s.claimed_tasks[task_id].place_id + ", got "@ + place_id,
        )
    } else if !s.remote_connections.contains_key(key) {
        Some("official MCP adapter requires active remote connection"@)
    } else if s.remote_connections[key].connection_state != RemoteConnectionState::Connected {
        Some("official MCP adapter requires ready remote connection for task_id "@ + task_id)
    } else {
        None
    }
}

/// The text of a failed first request.
pub open spec fn prewarm_error(outcome: PrewarmOutcome) -> Option<Seq<char>> {
    match outcome {
        PrewarmOutcome::Ready => None,
        PrewarmOutcome::Failed(error) => Some(crate::sanitize::summary(error@)),
        PrewarmOutcome::WorkerGone => Some("official MCP adapter worker is not running"@),
        PrewarmOutcome::ChannelClosed => Some("official MCP adapter response channel closed"@),
        PrewarmOutcome::TimedOut => Some("official MCP adapter prewarm timed out"@),
    }
}

/// The error says that Studio is not there yet.
pub open spec fn transient(message: Seq<char>) -> bool {
    ||| crate::text::holds_text(message, "Not connected to the WS host"@)
    ||| crate::text::holds_text(
        message,
        "official MCP found no connected Roblox Studio instances"@,
    )
    ||| crate::text::holds_text(
        message,
        "previously active Studio has disconnected or doesn't have a place opened"@,
    )
}

/// The error is about the arguments of a request.
pub open spec fn argument_error(message: Seq<char>) -> bool {
    "store_image "@.is_prefix_of(message)
}

/// The error says nothing of the adapter.
pub open spec fn preserves_state(message: Seq<char>) -> bool {
    "unsupported official MCP adapter action:"@.is_prefix_of(message)
        || "Invalid official MCP"@.is_prefix_of(message)
}

/// The summary speaks of the way to Studio, in lower case.
pub open spec fn about_channel(summary: Seq<char>) -> bool {
    let text = crate::text::ascii_lower(summary);
    ||| crate::text::holds_text(text, "not connected"@)
    ||| crate::text::holds_text(text, "connection"@)
    ||| crate::text::holds_text(text, "ws host"@)
    ||| crate::text::holds_text(text, "websocket"@)
    ||| crate::text::holds_text(text, "active studio"@)
    ||| crate::text::holds_text(text, "studio unavailable"@)
    ||| crate::text::holds_text(text, "studio has disconnected"@)
    ||| crate::text::holds_text(text, "no connected roblox studio"@)
    ||| crate::text::holds_text(text, "adapter failure"@)
    ||| crate::text::holds_text(text, "internal adapter"@)
    ||| crate::text::holds_text(text, "timed out"@)
    ||| crate::text::holds_text(text, "timeout"@)
    ||| crate::text::holds_text(text, "stdio"@)
    ||| crate::text::holds_text(text, "json-rpc"@)
    ||| crate::text::holds_text(text, "protocol"@)
    ||| crate::text::holds_text(text, "closed stdout"@)
    ||| crate::text::holds_text(text, "process closed"@)
}

/// The summary speaks of what was asked for.
pub open spec fn about_business(text: Seq<char>) -> bool {
    ||| crate::text::holds_text(text, "policy"@)
    ||| crate::text::holds_text(text, "moderation"@)
    ||| crate::text::holds_text(text, "prompt"@)
    ||| crate::text::holds_text(text, "input"@)
    ||| crate::text::holds_text(text, "argument"@)
    ||| crate::text::holds_text(text, "parameter"@)
    ||| crate::text::holds_text(text, "invalid"@)
    ||| crate::text::holds_text(text, "malformed"@)
    ||| crate::text::holds_text(text, "not found"@)
    ||| crate::text::holds_text(text, "no result"@)
    ||| crate::text::holds_text(text, "file"@)
    ||| crate::text::holds_text(text, "image"@)
    ||| crate::text::holds_text(text, "mime"@)
    ||| crate::text::holds_text(text, "content"@)
    ||| crate::text::holds_text(text, "asset"@)
}

/// The character parts words: a space, an underscore or a hyphen.
pub open spec fn parts_words(c: char) -> bool {
    c == ' ' || c == '_' || c == '-'
}

/// The text without what parts words.
pub open spec fn squashed(text: Seq<char>) -> Seq<char> {
    text.filter(|c: char| !parts_words(c))
}

/// The summary speaks of the job that was waited for.
pub open spec fn about_job(text: Seq<char>) -> bool {
    ||| crate::text::holds_text(text, "workflow failed"@)
    ||| crate::text::holds_text(text, "no job found"@)
    ||| {
        &&& crate::text::holds_text(text, "job id"@) || crate::text::holds_text(
            squashed(text),
            "jobid"@,
        ) || crate::text::holds_text(squashed(text), "generationid"@)
        &&& crate::text::holds_text(text, "invalid"@) || crate::text::holds_text(text, "missing"@)
            || crate::text::holds_text(text, "required"@) || crate::text::holds_text(
            text,
            "malformed"@,
        )
    }
}

/// The error comes from a tool and is about what was asked of it.
pub open spec fn business_error(message: Seq<char>) -> bool {
    match crate::text::without_prefix(message, "official MCP tool "@) {
        None => false,
        Some(rest) => match crate::text::split_first(rest, " returned error:"@) {
            None => false,
            Some((tool, summary)) => {
                let text = crate::text::ascii_lower(summary);
                if about_channel(summary) {
                    false
                } else if tool == "wait_job_finished"@ {
                    about_job(text)
                } else {
                    allowed(tool) && about_business(text)
                }
            },
        },
    }
}

/// The adapter stays ready after the error.
pub open spec fn keeps_ready(message: Seq<char>) -> bool {
    !transient(message) && (business_error(message) || argument_error(message))
}

/// The process of the adapter is to be started anew after the error.
pub open spec fn needs_restart(message: Seq<char>) -> bool {
    !transient(message) && !keeps_ready(message) && !preserves_state(message)
}

/// The state after a request was carried out.
pub open spec fn request_settled(
    s: HelperStateView,
    task_id: Seq<char>,
    error: Option<Seq<char>>,
    now: u128,
) -> HelperStateView {
    match error {
        None => with_adapter_state(s, task_id, "ready"@, None, now),
        Some(message) => if keeps_ready(message) {
            with_adapter_state(s, task_id, "ready"@, None, now)
        } else {
            with_adapter_state(
                s,
                task_id,
                "error"@,
                Some(crate::sanitize::summary(message)),
                now,
            )
        },
    }
}

/// The first of two fields of the arguments that holds a text.
pub open spec fn either_field(arguments: Seq<char>, first: Seq<char>, second: Seq<char>) -> Option<
    Seq<char>,
> {
    if crate::json::json_field(arguments, first) is Some {
        crate::json::json_field(arguments, first)
    } else {
        crate::json::json_field(arguments, second)
    }
}

/// The text is there and not blank.
pub open spec fn given(text: Option<Seq<char>>) -> bool {
    text matches Some(t) && crate::text::trimmed(t).len() > 0
}

/// The ending of the file of an image.
pub open spec fn extension_of(mime_type: Seq<char>) -> Option<Seq<char>> {
    if mime_type == "image/png"@ {
        Some("png"@)
    } else if mime_type == "image/jpeg"@ || mime_type == "image/jpg"@ {
        Some("jpg"@)
    } else {
        None
    }
}

/// The bytes begin like an image of the kind.
pub open spec fn has_magic(mime_type: Seq<char>, bytes: Seq<u8>) -> bool {
    if mime_type == "image/png"@ {
        seq![0x89u8, 0x50, 0x4e, 0x47, 0x0d, 0x0a, 0x1a, 0x0a].is_prefix_of(bytes)
    } else if mime_type == "image/jpeg"@ || mime_type == "image/jpg"@ {
        seq![0xffu8, 0xd8, 0xff].is_prefix_of(bytes)
    } else {
        false
    }
}

/// The text as part of the name of a file: other characters than those of a name become underscores,
/// at most forty are kept, and none of the two kinds of lines stands at an end.
pub open spec fn file_hint(value: Seq<char>) -> Seq<char> {
    let named = crate::text::trimmed(value).map_values(
        |c: char|
            if crate::sanitize::is_name_char(c) {
                c
            } else {
                '_'
            },
    );
    let short = if named.len() > 40 {
        named.take(40)
    } else {
        named
    };
    crate::text::without_ends(crate::text::without_ends(short, '_'), '-')
}

/// The hint in the name of the file of an image.
pub open spec fn hint_of(file_name: Option<Seq<char>>) -> Seq<char> {
    match file_name {
        Some(name) if file_hint(name).len() > 0 => file_hint(name),
        _ => "image"@,
    }
}

/// What becomes of an image that comes as base64, where its kind and its bytes are known.
pub open spec fn image_written(
    task_id: Seq<char>,
    request_id: Seq<char>,
    mime_type: Seq<char>,
    file_name: Option<Seq<char>>,
    bytes: Seq<u8>,
) -> Result<ImageArgumentsView, Seq<char>> {
    let task = crate::text::trimmed(task_id);
    let request = crate::text::trimmed(request_id);
    if bytes.len() > OFFICIAL_STORE_IMAGE_MAX_DECODED_BYTES {
        Err(
            "store_image decoded image exceeds "@ + crate::text::decimal(
                OFFICIAL_STORE_IMAGE_MAX_DECODED_BYTES as nat,
            ) + " bytes"@,
        )
    } else if !has_magic(mime_type, bytes) {
        Err("store_image imageBase64 content does not match mimeType"@)
    } else if !crate::sanitize::is_name(task) {
        Err(crate::sanitize::name_message("task_id"@))
    } else if !crate::sanitize::is_name(request) {
        Err(crate::sanitize::name_message("request_id"@))
    } else {
        Ok(
            ImageArgumentsView::Write(
                StoredImageView {
                    task_id: task,
                    file_name: request + "-"@ + hint_of(file_name) + "."@ + extension_of(
                        mime_type,
                    )->0,
                    bytes,
                },
            ),
        )
    }
}

/// What becomes of the fields of a request to store an image.
pub open spec fn image_prepared(
    task_id: Seq<char>,
    request_id: Seq<char>,
    file_path: Option<Seq<char>>,
    image_base64: Option<Seq<char>>,
    mime_type: Option<Seq<char>>,
    file_name: Option<Seq<char>>,
) -> Result<ImageArgumentsView, Seq<char>> {
    let text = crate::text::trimmed(image_base64->0);
    let mime = crate::text::trimmed(mime_type->0);
    if given(file_path) && given(image_base64) {
        Err("store_image requires exactly one of filePath or imageBase64"@)
    } else if !given(file_path) && !given(image_base64) {
        Err("store_image requires filePath or imageBase64"@)
    } else if file_path is Some {
        if mime_type is Some || file_name is Some {
            Err("store_image mimeType/fileName are only valid with imageBase64"@)
        } else {
            Ok(ImageArgumentsView::File(crate::text::trimmed(file_path->0)))
        }
    } else if vstd::utf8::encode_utf8(text).len() > OFFICIAL_STORE_IMAGE_MAX_BASE64_CHARS {
        Err(
            "store_image imageBase64 exceeds "@ + crate::text::decimal(
                OFFICIAL_STORE_IMAGE_MAX_DECODED_BYTES as nat,
            ) + " decoded bytes"@,
        )
    } else if mime_type is None {
        Err("store_image mimeType is required with imageBase64"@)
    } else if extension_of(mime) is None {
        Err("store_image mimeType must be image/png, image/jpeg, or image/jpg"@)
    } else {
        match crate::encoding::base64_bytes(text) {
            Err(error) => Err("store_image imageBase64 decode failed: "@ + error),
            Ok(bytes) => image_written(task_id, request_id, mime, file_name, bytes),
        }
    }
}

/// What becomes of the arguments of a request to store an image.
pub open spec fn image_arguments(
    task_id: Seq<char>,
    request_id: Seq<char>,
    arguments: Seq<char>,
) -> Result<ImageArgumentsView, Seq<char>> {
    if !crate::json::json_object(arguments) {
        Err("store_image arguments must be a JSON object"@)
    } else {
        image_prepared(
            task_id,
            request_id,
            either_field(arguments, "filePath"@, "file_path"@),
            either_field(arguments, "imageBase64"@, "image_base64"@),
            either_field(arguments, "mimeType"@, "mime_type"@),
            either_field(arguments, "fileName"@, "file_name"@),
        )
    }
}

/// The texts of an answer.
pub open spec fn content_texts(content: Seq<OfficialContentItemView>) -> Seq<Seq<char>>
    decreases content.len(),
{
    if content.len() == 0 {
        Seq::empty()
    } else {
        let before = content_texts(content.drop_last());
        match content.last().text {
            Some(text) => before.push(text),
            None => before,
        }
    }
}

/// The first text of an answer that is marked as text.
pub open spec fn first_text(content: Seq<OfficialContentItemView>) -> Option<Seq<char>>
    decreases content.len(),
{
    if content.len() == 0 {
        None
    } else if content[0].item_type == "text"@ && content[0].text is Some {
        content[0].text
    } else {
        first_text(content.drop_first())
    }
}

/// The allowed tools that are not among `available`.
pub open spec fn missing_tools(available: Set<Seq<char>>) -> Seq<Seq<char>> {
    allowed_tools().filter(|tool: Seq<char>| !available.contains(tool))
}

/// How long a request may take, in nanoseconds.
pub fn official_request_timeout(timeout_ms: u64) -> (nanos: u128)
    ensures
        nanos == request_timeout(timeout_ms),
{
    let ms: u64 = if timeout_ms >= 1 {
        timeout_ms
    } else {
        1
    };
    let nanos: u128 = ms as u128 * NANOS_PER_MILLI;
    if nanos <= OFFICIAL_MCP_REQUEST_TIMEOUT {
        nanos
    } else {
        OFFICIAL_MCP_REQUEST_TIMEOUT
    }
}

/// A request must belong to the task and the place of its connection.
pub fn check_official_request(
    expected_place_id: &str,
    expected_task_id: Option<&str>,
    request: &OfficialMcpRequest,
) -> (result: Result<(), String>)
    ensures
        match result {
            Ok(_) => request_fault(
                expected_place_id@,
                expected_task_id.deep_view(),
                request@,
            ) is None,
            Err(message) => request_fault(
                expected_place_id@,
                expected_task_id.deep_view(),
                request@,
            ) == Some(message@),
        },
{
    let id = match expected_task_id {
        None => return Err(
            "official MCP request requires task_id-bound remote connection".to_owned(),
        ),
        Some(id) => id,
    };
    if !same_text(request.task_id.as_str(), id) {
        let mut message = concat3(
            "official MCP request task_id mismatch: expected ",
            id,
            ", got ",
        );
        message.append(request.task_id.as_str());
        return Err(message);
    }
    if !same_text(request.place_id.as_str(), expected_place_id) {
        let mut message = concat3(
            "official MCP request place_id mismatch: expected ",
            expected_place_id,
            ", got ",
        );
        message.append(request.place_id.as_str());
        return Err(message);
    }
    Ok(())
}

/// Takes down what is known of an adapter.
pub fn set_official_adapter_state(
    state: &mut HelperState,
    task_id: &str,
    status: &str,
    last_error: Option<String>,
    now: u128,
)
    ensures
        final(state)@ == with_adapter_state(
            old(state)@,
            task_id@,
            status@,
            last_error.deep_view(),
            now,
        ),
{
    let record = OfficialAdapterStateRecord {
        state: status.to_owned(),
        last_error,
        observed_at: now,
    };
    state.official_adapter_states.insert(task_id.to_owned(), record);
}

/// Forgets the adapter of a task; tells whether there was one.
pub fn stop_and_remove_official_adapter(state: &mut HelperState, task_id: &str) -> (stopped: bool)
    ensures
        stopped == old(state)@.official_adapters.contains(task_id@),
        final(state)@ == adapter_gone(old(state)@, task_id@),
{
    stop_removed_official_adapter(state, task_id)
}

/// What is said of a request whose adapter was lost.
pub open spec fn loss_told(loss: AdapterLoss) -> Seq<char> {
    match loss {
        AdapterLoss::WorkerGone => "official MCP adapter worker is not running"@,
        AdapterLoss::ChannelClosed => "official MCP adapter response channel closed"@,
        AdapterLoss::TimedOut => "official MCP adapter request timed out"@,
    }
}

/// Forgets an adapter that was lost while a request waited for it. Gives what is said of the request.
pub fn give_up_on_adapter(state: &mut HelperState, task_id: &str, loss: &AdapterLoss) -> (message:
    String)
    ensures
        message@ == loss_told(*loss),
        final(state)@ == adapter_gone(old(state)@, task_id@),
{
    let _ = stop_and_remove_official_adapter(state, task_id);
    match loss {
        AdapterLoss::WorkerGone => "official MCP adapter worker is not running".to_owned(),
        AdapterLoss::ChannelClosed => "official MCP adapter response channel closed".to_owned(),
        AdapterLoss::TimedOut => "official MCP adapter request timed out".to_owned(),
    }
}

/// The state once the tools of a task are to be there.
pub open spec fn adapter_kept(s: HelperStateView, task_id: Seq<char>) -> HelperStateView {
    HelperStateView { official_adapters: s.official_adapters.insert(task_id), ..s }
}

/// The state once the tools of a task are gone.
pub open spec fn adapter_gone(s: HelperStateView, task_id: Seq<char>) -> HelperStateView {
    HelperStateView {
        official_adapters: s.official_adapters.remove(task_id),
        official_adapter_states: s.official_adapter_states.remove(task_id),
        ..s
    }
}

/// The state after a first call of the tools.
pub open spec fn prewarmed(
    s: HelperStateView,
    task_id: Seq<char>,
    outcome: PrewarmOutcome,
    now: u128,
) -> HelperStateView {
    with_adapter_state(
        s,
        task_id,
        if outcome is Ready {
            "ready"@
        } else {
            "error"@
        },
        prewarm_error(outcome),
        now,
    )
}

/// The one Studio that the tools work on.
pub open spec fn only_studio(studios: Seq<OfficialStudioInfoView>) -> Result<
    OfficialStudioInfoView,
    Seq<char>,
> {
    if studios.len() == 0 {
        Err("official MCP found no connected Roblox Studio instances"@)
    } else if studios.len() == 1 {
        Ok(studios[0])
    } else {
        Err("official MCP found multiple Studio instances and cannot bind safely in v1"@)
    }
}

/// The process of the tools is to be started.
pub open spec fn process_due(initialized: Option<bool>, exited: bool) -> bool {
    match initialized {
        None => true,
        Some(initialized) => initialized && exited,
    }
}

/// Gives a task an adapter, where it can have one. Tells whether it is a new one.
pub fn ensure_official_adapter(state: &mut HelperState, task_id: &str, place_id: &str) -> (result: Result<
    bool,
    String,
>)
    ensures
        match result {
            Ok(new) => {
                &&& adapter_fault(old(state)@, task_id@, place_id@) is None
                &&& new == !old(state)@.official_adapters.contains(task_id@)
                &&& final(state)@ == adapter_kept(old(state)@, task_id@)
            },
            Err(message) => adapter_fault(old(state)@, task_id@, place_id@) == Some(message@)
                && final(state)@ == old(state)@,
        },
{
    match state.claimed_tasks.get(task_id) {
        None => return Err(concat("helper has not claimed task_id ", task_id)),
        Some(task) => {
            if !same_text(task.place_id.as_str(), place_id) {
                let mut message = concat3(
                    "claimed task place_id mismatch for task_id ",
                    task_id,
                    ": expected ",
                );
                message.append(task.place_id.as_str());
                message.append(", got ");
                message.append(place_id);
                return Err(message);
            }
        },
    }
    let key = task_connection_key(task_id);
    match state.remote_connections.get(key.as_str()) {
        None => return Err("official MCP adapter requires active remote connection".to_owned()),
        Some(connection) => match connection.connection_state {
            RemoteConnectionState::Connected => {},
            _ => return Err(
                concat(
                    "official MCP adapter requires ready remote connection for task_id ",
                    task_id,
                ),
            ),
        },
    }
    let known = state.official_adapters.contains(task_id);
    if !known {
        state.official_adapters.insert(task_id.to_owned());
    } else {
        assert(state@.official_adapters =~= state@.official_adapters.insert(task_id@));
    }
    Ok(!known)
}

/// The first request to a new adapter, under the given identifier.
pub fn prewarm_request_as(request_id: &str, task_id: &str, place_id: &str) -> (request:
    OfficialMcpRequest)
    ensures
        request@ == (OfficialMcpRequestView {
            request_id: request_id@,
            task_id: task_id@,
            place_id: place_id@,
            action: "ping"@,
            arguments: "null"@,
            timeout_ms: 30_000,
        }),
{
    OfficialMcpRequest {
        request_id: request_id.to_owned(),
        task_id: task_id.to_owned(),
        place_id: place_id.to_owned(),
        action: "ping".to_owned(),
        arguments: "null".to_owned(),
        timeout_ms: 30_000,
    }
}

/// The first request to a new adapter, under a random identifier.
pub fn prewarm_request(task_id: &str, place_id: &str) -> (request: OfficialMcpRequest)
    ensures
        crate::ids::is_token(request@.request_id),
        request@ == (OfficialMcpRequestView {
            request_id: request@.request_id,
            task_id: task_id@,
            place_id: place_id@,
            action: "ping"@,
            arguments: "null"@,
            timeout_ms: 30_000,
        }),
{
    let id = new_token();
    prewarm_request_as(id.as_str(), task_id, place_id)
}

/// Takes down how the first request to a new adapter went.
pub fn settle_prewarm(state: &mut HelperState, task_id: &str, outcome: &PrewarmOutcome, now: u128)
    requires
        outcome matches PrewarmOutcome::Failed(error) ==> crate::sanitize::can_summarize(error@),
    ensures
        final(state)@ == prewarmed(old(state)@, task_id@, *outcome, now),
{
    let error = match outcome {
        PrewarmOutcome::Ready => None,
        PrewarmOutcome::Failed(error) => Some(summarize_error(error.as_str())),
        PrewarmOutcome::WorkerGone => Some("official MCP adapter worker is not running".to_owned()),
        PrewarmOutcome::ChannelClosed => Some(
            "official MCP adapter response channel closed".to_owned(),
        ),
        PrewarmOutcome::TimedOut => Some("official MCP adapter prewarm timed out".to_owned()),
    };
    let status: &str = match outcome {
        PrewarmOutcome::Ready => "ready",
        _ => "error",
    };
    set_official_adapter_state(state, task_id, status, error, now);
}

/// The tool of an action.
pub fn official_tool_for_action(action: &str) -> (result: Result<&'static str, String>)
    ensures
        match result {
            Ok(tool) => allowed(action@) && tool@ == action@,
            Err(message) => !allowed(action@) && message@
                == "unsupported official MCP adapter action: "@ + action@,
        },
{
    if same_text(action, "generate_mesh") {
        Ok("generate_mesh")
    } else if same_text(action, "search_creator_store") {
        Ok("search_creator_store")
    } else if same_text(action, "insert_from_creator_store") {
        Ok("insert_from_creator_store")
    } else if same_text(action, "store_image") {
        Ok("store_image")
    } else if same_text(action, "generate_procedural_model") {
        Ok("generate_procedural_model")
    } else if same_text(action, "wait_job_finished") {
        Ok("wait_job_finished")
    } else {
        Err(concat("unsupported official MCP adapter action: ", action))
    }
}

/// The tools that may be used.
pub fn allowed_official_mcp_tools() -> (tools: Vec<String>)
    ensures
        tools.deep_view() == allowed_tools(),
{
    let mut tools: Vec<String> = Vec::new();
    tools.push("generate_mesh".to_owned());
    tools.push("search_creator_store".to_owned());
    tools.push("insert_from_creator_store".to_owned());
    tools.push("store_image".to_owned());
    tools.push("generate_procedural_model".to_owned());
    tools.push("wait_job_finished".to_owned());
    assert(tools.deep_view() =~= allowed_tools());
    tools
}

/// A request is a ping or asks for an allowed tool.
pub fn validate_official_adapter_request(request: &OfficialMcpRequest) -> (result: Result<(), String>)
    ensures
        result is Ok <==> request@.action == "ping"@ || allowed(request@.action),
        result matches Err(message) ==> message@ == "unsupported official MCP adapter action: "@
            + request@.action,
{
    if same_text(request.action.as_str(), "ping") {
        return Ok(());
    }
    match official_tool_for_action(request.action.as_str()) {
        Ok(_) => Ok(()),
        Err(message) => Err(message),
    }
}

/// The error says that Studio is not there yet.
pub fn is_transient_official_readiness_error(message: &str) -> (is: bool)
    ensures
        is == transient(message@),
{
    contains(message, "Not connected to the WS host") || contains(
        message,
        "official MCP found no connected Roblox Studio instances",
    ) || contains(
        message,
        "previously active Studio has disconnected or doesn't have a place opened",
    )
}

/// The error is about the arguments of a request.
pub fn is_official_request_argument_error(message: &str) -> (is: bool)
    ensures
        is == argument_error(message@),
{
    starts_with(message, "store_image ")
}

/// The error says nothing of the adapter.
pub fn official_adapter_error_preserves_state(message: &str) -> (is: bool)
    ensures
        is == preserves_state(message@),
{
    starts_with(message, "unsupported official MCP adapter action:") || starts_with(
        message,
        "Invalid official MCP",
    )
}

/// The summary speaks of the way to Studio.
pub fn is_official_channel_error_summary(summary: &str) -> (is: bool)
    ensures
        is == about_channel(summary@),
{
    let lower = to_ascii_lowercase(summary);
    let text = lower.as_str();
    contains(text, "not connected") || contains(text, "connection") || contains(text, "ws host")
        || contains(text, "websocket") || contains(text, "active studio") || contains(
        text,
        "studio unavailable",
    ) || contains(text, "studio has disconnected") || contains(text, "no connected roblox studio")
        || contains(text, "adapter failure") || contains(text, "internal adapter") || contains(
        text,
        "timed out",
    ) || contains(text, "timeout") || contains(text, "stdio") || contains(text, "json-rpc")
        || contains(text, "protocol") || contains(text, "closed stdout") || contains(
        text,
        "process closed",
    )
}

/// The summary speaks of what was asked for.
pub fn is_official_business_error_summary(summary: &str) -> (is: bool)
    ensures
        is == about_business(summary@),
{
    contains(summary, "policy") || contains(summary, "moderation") || contains(summary, "prompt")
        || contains(summary, "input") || contains(summary, "argument") || contains(
        summary,
        "parameter",
    ) || contains(summary, "invalid") || contains(summary, "malformed") || contains(
        summary,
        "not found",
    ) || contains(summary, "no result") || contains(summary, "file") || contains(summary, "image")
        || contains(summary, "mime") || contains(summary, "content") || contains(summary, "asset")
}

/// The text without what parts words.
fn squash(text: &str) -> (short: String)
    ensures
        short@ == squashed(text@),
{
    let chars = chars_of(text);
    let ghost keep = |c: char| !parts_words(c);
    let mut short = String::new();
    let mut i: usize = 0;
    proof {
        reveal(Seq::filter);
        assert(chars@.take(0).filter(keep) =~= Seq::empty());
    }
    while i < chars.len()
        invariant
            i <= chars@.len(),
            keep == (|c: char| !parts_words(c)),
            short@ == chars@.take(i as int).filter(keep),
        decreases chars@.len() - i,
    {
        proof {
            reveal(Seq::filter);
            assert(chars@.take(i + 1).drop_last() =~= chars@.take(i as int));
            assert(chars@.take(i + 1).last() == chars@[i as int]);
        }
        let c = chars[i];
        if !(c == ' ' || c == '_' || c == '-') {
            short.push(c);
        }
        i = i + 1;
    }
    assert(chars@.take(chars@.len() as int) =~= chars@);
    short
}

/// The summary speaks of the job that was waited for.
pub fn is_official_wait_job_business_error_summary(summary: &str) -> (is: bool)
    ensures
        is == about_job(summary@),
{
    if contains(summary, "workflow failed") || contains(summary, "no job found") {
        return true;
    }
    let short = squash(summary);
    let names_job = contains(summary, "job id") || contains(short.as_str(), "jobid") || contains(
        short.as_str(),
        "generationid",
    );
    names_job && (contains(summary, "invalid") || contains(summary, "missing") || contains(
        summary,
        "required",
    ) || contains(summary, "malformed"))
}

/// The error comes from a tool and is about what was asked of it.
pub fn is_official_business_tool_error(message: &str) -> (is: bool)
    ensures
        is == business_error(message@),
{
    let rest = match strip_prefix(message, "official MCP tool ") {
        None => return false,
        Some(rest) => rest,
    };
    let (tool, summary) = match split_once(rest, " returned error:") {
        None => return false,
        Some(parts) => parts,
    };
    if is_official_channel_error_summary(summary) {
        return false;
    }
    let lower = to_ascii_lowercase(summary);
    if same_text(tool, "wait_job_finished") {
        is_official_wait_job_business_error_summary(lower.as_str())
    } else {
        (same_text(tool, "generate_mesh") || same_text(tool, "generate_procedural_model")
            || same_text(tool, "search_creator_store") || same_text(
            tool,
            "insert_from_creator_store",
        ) || same_text(tool, "store_image")) && is_official_business_error_summary(lower.as_str())
    }
}

/// The adapter stays ready after the error.
pub fn official_adapter_error_keeps_ready(message: &str) -> (is: bool)
    ensures
        is == keeps_ready(message@),
{
    !is_transient_official_readiness_error(message) && (is_official_business_tool_error(message)
        || is_official_request_argument_error(message))
}

/// The process of the adapter is to be started anew after the error.
pub fn should_restart_official_process_after_error(message: &str) -> (is: bool)
    ensures
        is == needs_restart(message@),
{
    !is_transient_official_readiness_error(message) && !official_adapter_error_keeps_ready(message)
        && !official_adapter_error_preserves_state(message)
}

/// Takes down how a request was carried out. Tells whether the process of the adapter is to be started
/// anew.
pub fn settle_official_request(
    state: &mut HelperState,
    task_id: &str,
    error: Option<&str>,
    now: u128,
) -> (restart: bool)
    requires
        error matches Some(message) ==> keeps_ready(message@) || crate::sanitize::can_summarize(
            message@,
        ),
    ensures
        restart == (error.deep_view() matches Some(message) && needs_restart(message)),
        final(state)@ == request_settled(old(state)@, task_id@, error.deep_view(), now),
{
    match error {
        None => {
            set_official_adapter_state(state, task_id, "ready", None, now);
            false
        },
        Some(message) => {
            if official_adapter_error_keeps_ready(message) {
                set_official_adapter_state(state, task_id, "ready", None, now);
            } else {
                set_official_adapter_state(
                    state,
                    task_id,
                    "error",
                    Some(summarize_error(message)),
                    now,
                );
            }
            should_restart_official_process_after_error(message)
        },
    }
}

/// The first of two fields of the arguments that holds a text.
fn find_either(arguments: &str, first: &str, second: &str) -> (field: Option<String>)
    ensures
        field.deep_view() == either_field(arguments@, first@, second@),
{
    match json_string_field(arguments, first) {
        Some(text) => Some(text),
        None => json_string_field(arguments, second),
    }
}

/// The ending of the file of an image.
pub fn official_image_extension_for_mime(mime_type: &str) -> (result: Result<&'static str, String>)
    ensures
        match result {
            Ok(ending) => extension_of(mime_type@) == Some(ending@),
            Err(message) => extension_of(mime_type@) is None && message@
                == "store_image mimeType must be image/png, image/jpeg, or image/jpg"@,
        },
{
    if same_text(mime_type, "image/png") {
        Ok("png")
    } else if same_text(mime_type, "image/jpeg") || same_text(mime_type, "image/jpg") {
        Ok("jpg")
    } else {
        Err("store_image mimeType must be image/png, image/jpeg, or image/jpg".to_owned())
    }
}

/// An image must begin as its kind does.
pub fn ensure_official_image_magic(mime_type: &str, bytes: &Vec<u8>) -> (result: Result<(), String>)
    ensures
        result is Ok <==> has_magic(mime_type@, bytes@),
        result matches Err(message) ==> message@
            == "store_image imageBase64 content does not match mimeType"@,
{
    let valid = if same_text(mime_type, "image/png") {
        let png = bytes.len() >= 8 && bytes[0] == 0x89 && bytes[1] == 0x50 && bytes[2] == 0x4e
            && bytes[3] == 0x47 && bytes[4] == 0x0d && bytes[5] == 0x0a && bytes[6] == 0x1a
            && bytes[7] == 0x0a;
        assert(png == seq![0x89u8, 0x50, 0x4e, 0x47, 0x0d, 0x0a, 0x1a, 0x0a].is_prefix_of(bytes@))
            by {
            let magic = seq![0x89u8, 0x50, 0x4e, 0x47, 0x0d, 0x0a, 0x1a, 0x0a];
            if png {
                assert(bytes@.subrange(0, 8) =~= magic);
            }
            if magic.is_prefix_of(bytes@) {
                assert(bytes@.subrange(0, 8) == magic);
                assert(magic[0] == bytes@[0] && magic[1] == bytes@[1] && magic[2] == bytes@[2]
                    && magic[3] == bytes@[3] && magic[4] == bytes@[4] && magic[5] == bytes@[5]
                    && magic[6] == bytes@[6] && magic[7] == bytes@[7]);
            }
        }
        png
    } else if same_text(mime_type, "image/jpeg") || same_text(mime_type, "image/jpg") {
        let jpeg = bytes.len() >= 3 && bytes[0] == 0xff && bytes[1] == 0xd8 && bytes[2] == 0xff;
        assert(jpeg == seq![0xffu8, 0xd8, 0xff].is_prefix_of(bytes@)) by {
            let magic = seq![0xffu8, 0xd8, 0xff];
            if jpeg {
                assert(bytes@.subrange(0, 3) =~= magic);
            }
            if magic.is_prefix_of(bytes@) {
                assert(bytes@.subrange(0, 3) == magic);
                assert(magic[0] == bytes@[0] && magic[1] == bytes@[1] && magic[2] == bytes@[2]);
            }
        }
        jpeg
    } else {
        false
    };
    if valid {
        Ok(())
    } else {
        Err("store_image imageBase64 content does not match mimeType".to_owned())
    }
}

/// The text as part of the name of a file.
pub fn sanitize_image_file_hint(value: &str) -> (hint: String)
    ensures
        hint@ == file_hint(value@),
{
    let chars = chars_of(trim(value));
    let ghost named = chars@.map_values(
        |c: char|
            if crate::sanitize::is_name_char(c) {
                c
            } else {
                '_'
            },
    );
    let mut short: Vec<char> = Vec::new();
    let mut i: usize = 0;
    assert(short@ =~= named.take(0));
    while i < chars.len() && i < 40
        invariant
            i <= chars@.len(),
            i <= 40,
            named == chars@.map_values(
                |c: char|
                    if crate::sanitize::is_name_char(c) {
                        c
                    } else {
                        '_'
                    },
            ),
            short@ == named.take(i as int),
        decreases chars@.len() - i,
    {
        let c = chars[i];
        short.push(
            if name_char(c) {
                c
            } else {
                '_'
            },
        );
        assert(short@ =~= named.take(i + 1));
        i = i + 1;
    }
    assert(named.len() <= 40 ==> named.take(i as int) =~= named);
    let inner = cut_ends(&short, '_');
    let core = cut_ends(&inner, '-');
    text_of(&core)
}

/// Prepares the fields of a request to store an image.
pub fn prepare_store_image_fields(
    task_id: &str,
    request_id: &str,
    file_path: &Option<String>,
    image_base64: &Option<String>,
    mime_type: &Option<String>,
    file_name: &Option<String>,
) -> (result: Result<ImageArguments, String>)
    ensures
        crate::table::outcome(result) == image_prepared(
            task_id@,
            request_id@,
            file_path.deep_view(),
            image_base64.deep_view(),
            mime_type.deep_view(),
            file_name.deep_view(),
        ),
{
    let has_path = match file_path {
        Some(text) => !is_blank(text.as_str()),
        None => false,
    };
    let has_image = match image_base64 {
        Some(text) => !is_blank(text.as_str()),
        None => false,
    };
    if has_path && has_image {
        return Err("store_image requires exactly one of filePath or imageBase64".to_owned());
    }
    if !has_path && !has_image {
        return Err("store_image requires filePath or imageBase64".to_owned());
    }
    if let Some(path) = file_path {
        if mime_type.is_some() || file_name.is_some() {
            return Err("store_image mimeType/fileName are only valid with imageBase64".to_owned());
        }
        return Ok(ImageArguments::File(trim(path.as_str()).to_owned()));
    }
    let encoded: &str = match image_base64 {
        Some(text) => trim(text.as_str()),
        None => "",
    };
    if encoded.as_bytes().len() > OFFICIAL_STORE_IMAGE_MAX_BASE64_CHARS {
        return Err(
            concat3(
                "store_image imageBase64 exceeds ",
                decimal_text(OFFICIAL_STORE_IMAGE_MAX_DECODED_BYTES as u128).as_str(),
                " decoded bytes",
            ),
        );
    }
    let mime: &str = match mime_type {
        None => return Err("store_image mimeType is required with imageBase64".to_owned()),
        Some(text) => trim(text.as_str()),
    };
    let ending = match official_image_extension_for_mime(mime) {
        Ok(ending) => ending,
        Err(message) => return Err(message),
    };
    let bytes = match decode_base64(encoded) {
        Ok(bytes) => bytes,
        Err(error) => return Err(
            concat("store_image imageBase64 decode failed: ", error.as_str()),
        ),
    };
    if bytes.len() > OFFICIAL_STORE_IMAGE_MAX_DECODED_BYTES {
        return Err(
            concat3(
                "store_image decoded image exceeds ",
                decimal_text(OFFICIAL_STORE_IMAGE_MAX_DECODED_BYTES as u128).as_str(),
                " bytes",
            ),
        );
    }
    match ensure_official_image_magic(mime, &bytes) {
        Ok(_) => {},
        Err(message) => return Err(message),
    }
    let task = match sanitize_identifier("task_id", task_id) {
        Ok(id) => id,
        Err(message) => return Err(message),
    };
    let request = match sanitize_identifier("request_id", request_id) {
        Ok(id) => id,
        Err(message) => return Err(message),
    };
    let hint = match file_name {
        Some(name) => {
            let hint = sanitize_image_file_hint(name.as_str());
            if chars_of(hint.as_str()).len() > 0 {
                hint
            } else {
                "image".to_owned()
            }
        },
        None => "image".to_owned(),
    };
    let mut name = concat3(request.as_str(), "-", hint.as_str());
    name.append(".");
    name.append(ending);
    Ok(ImageArguments::Write(StoredImage { task_id: task, file_name: name, bytes }))
}

/// Prepares the arguments of a request to store an image.
pub fn prepare_official_store_image_arguments(task_id: &str, request_id: &str, arguments: &str) -> (
    result: Result<ImageArguments, String>)
    ensures
        crate::table::outcome(result) == image_arguments(task_id@, request_id@, arguments@),
{
    if !is_json_object(arguments) {
        return Err("store_image arguments must be a JSON object".to_owned());
    }
    let file_path = find_either(arguments, "filePath", "file_path");
    let image_base64 = find_either(arguments, "imageBase64", "image_base64");
    let mime_type = find_either(arguments, "mimeType", "mime_type");
    let file_name = find_either(arguments, "fileName", "file_name");
    prepare_store_image_fields(
        task_id,
        request_id,
        &file_path,
        &image_base64,
        &mime_type,
        &file_name,
    )
}

/// Prepares the arguments of a tool: those to store an image; others are left as they are.
pub fn prepare_official_tool_arguments(
    task_id: &str,
    request_id: &str,
    action: &str,
    arguments: &str,
) -> (result: Result<Option<ImageArguments>, String>)
    ensures
        if action@ == "store_image"@ {
            match image_arguments(task_id@, request_id@, arguments@) {
                Ok(prepared) => result matches Ok(Some(p)) && p@ == prepared,
                Err(message) => result matches Err(m) && m@ == message,
            }
        } else {
            result matches Ok(None)
        },
{
    if !same_text(action, "store_image") {
        return Ok(None);
    }
    match prepare_official_store_image_arguments(task_id, request_id, arguments) {
        Ok(prepared) => Ok(Some(prepared)),
        Err(message) => Err(message),
    }
}

/// The texts of an answer, on lines of their own.
pub fn summarize_official_content(content: &Vec<OfficialContentItem>) -> (summary: String)
    ensures
        summary@ == crate::text::joined(
            content_texts(crate::table::views(content@)),
            "\n"@,
        ),
{
    let ghost items = crate::table::views(content@);
    let mut texts: Vec<String> = Vec::new();
    let mut i: usize = 0;
    assert(texts.deep_view() =~= content_texts(items.take(0)));
    while i < content.len()
        invariant
            i <= content@.len(),
            items == crate::table::views(content@),
            texts.deep_view() == content_texts(items.take(i as int)),
        decreases content@.len() - i,
    {
        let ghost before = texts.deep_view();
        assert(items.take(i + 1).drop_last() =~= items.take(i as int));
        assert(items.take(i + 1).last() == content@[i as int]@);
        if let Some(text) = &content[i].text {
            texts.push(text.clone());
            assert(texts.deep_view() =~= before.push(text@));
        }
        i = i + 1;
    }
    assert(items.take(items.len() as int) =~= items);
    join(&texts, "\n")
}

/// What is said of a tool that has failed.
pub fn official_tool_error(tool: &str, content: &Vec<OfficialContentItem>) -> (message: String)
    ensures
        message@ == "official MCP tool "@ + tool@ + " returned error: "@ + crate::text::joined(
            content_texts(crate::table::views(content@)),
            "\n"@,
        ),
{
    let mut message = concat3("official MCP tool ", tool, " returned error: ");
    message.append(summarize_official_content(content).as_str());
    message
}

/// The text of an answer.
pub fn official_text(content: &Vec<OfficialContentItem>) -> (result: Result<String, String>)
    ensures
        match first_text(crate::table::views(content@)) {
            Some(text) => result matches Ok(t) && t@ == text,
            None => result matches Err(message) && message@
                == "official MCP response did not include text content"@,
        },
{
    let ghost items = crate::table::views(content@);
    let mut i: usize = 0;
    assert(items.skip(0) =~= items);
    while i < content.len()
        invariant
            i <= content@.len(),
            items == crate::table::views(content@),
            first_text(items.skip(i as int)) == first_text(items),
        decreases content@.len() - i,
    {
        assert(items.skip(i as int)[0] == content@[i as int]@);
        if same_text(content[i].item_type.as_str(), "text") {
            if let Some(text) = &content[i].text {
                return Ok(text.clone());
            }
        }
        assert(items.skip(i as int).drop_first() =~= items.skip(i + 1));
        i = i + 1;
    }
    Err("official MCP response did not include text content".to_owned())
}

/// The Studio to work with: the only one.
pub fn select_official_studio(list: &OfficialStudioList) -> (result: Result<OfficialStudioInfo, String>)
    ensures
        crate::table::outcome(result) == only_studio(list@.studios),
{
    if list.studios.len() == 0 {
        Err("official MCP found no connected Roblox Studio instances".to_owned())
    } else if list.studios.len() == 1 {
        assert(list@.studios[0] == list.studios@[0]@);
        Ok(list.studios[0].dup())
    } else {
        Err("official MCP found multiple Studio instances and cannot bind safely in v1".to_owned())
    }
}

/// The allowed tools that are not among those that are there.
pub fn missing_allowed_tools(available: &crate::table::IdSet) -> (missing: Vec<String>)
    ensures
        missing.deep_view() == missing_tools(available@),
{
    let tools = allowed_official_mcp_tools();
    let ghost all = tools.deep_view();
    let ghost keep = |tool: Seq<char>| !available@.contains(tool);
    let mut missing: Vec<String> = Vec::new();
    let mut i: usize = 0;
    proof {
        reveal(Seq::filter);
        assert(all.take(0).filter(keep) =~= Seq::<Seq<char>>::empty());
        assert(missing.deep_view() =~= Seq::<Seq<char>>::empty());
    }
    while i < tools.len()
        invariant
            i <= tools@.len(),
            all == tools.deep_view(),
            keep == (|tool: Seq<char>| !available@.contains(tool)),
            missing.deep_view() == all.take(i as int).filter(keep),
        decreases tools@.len() - i,
    {
        proof {
            reveal(Seq::filter);
            assert(all.take(i + 1).drop_last() =~= all.take(i as int));
            assert(all.take(i + 1).last() == all[i as int]);
        }
        let ghost before = missing.deep_view();
        if !available.contains(tools[i].as_str()) {
            missing.push(tools[i].clone());
            assert(missing.deep_view() =~= before.push(all[i as int]));
        }
        i = i + 1;
    }
    assert(all.take(all.len() as int) =~= all);
    missing
}

/// What a response is to the request that waits: its number, its error and its result where it has
/// them.
pub open spec fn rpc_step(
    expected_id: u64,
    method: Seq<char>,
    id: Option<u64>,
    error: Option<Seq<char>>,
    has_result: bool,
) -> RpcStepView {
    if id != Some(expected_id) {
        RpcStepView::Skip
    } else if error is Some {
        RpcStepView::Fail("official MCP "@ + method + " failed: "@ + error->0)
    } else if !has_result {
        RpcStepView::Fail("official MCP "@ + method + " response missing result"@)
    } else {
        RpcStepView::Done
    }
}

/// What a line of the process is to the request that waits.
pub open spec fn rpc_line_step(expected_id: u64, method: Seq<char>, line: Seq<char>) -> RpcStepView {
    if !crate::json::json_valid(line) {
        RpcStepView::Fail("official MCP returned non-JSON line: "@ + line)
    } else {
        rpc_step(
            expected_id,
            method,
            crate::json::json_number(line, "id"@),
            crate::json::json_member(line, "error"@),
            crate::json::json_member(line, "result"@) is Some,
        )
    }
}

/// What a response is to the request that waits.
pub fn judge_rpc_response(
    expected_id: u64,
    method: &str,
    id: Option<u64>,
    error: Option<&str>,
    has_result: bool,
) -> (step: RpcStep)
    ensures
        step@ == rpc_step(expected_id, method@, id, error.deep_view(), has_result),
{
    match id {
        Some(found) => {
            if found != expected_id {
                return RpcStep::Skip;
            }
        },
        None => return RpcStep::Skip,
    }
    if let Some(text) = error {
        let mut message = concat3("official MCP ", method, " failed: ");
        message.append(text);
        return RpcStep::Fail(message);
    }
    if !has_result {
        return RpcStep::Fail(concat3("official MCP ", method, " response missing result"));
    }
    RpcStep::Done
}

/// What a line of the process is to the request that waits, and the JSON text of the result in it.
pub fn judge_rpc_line(expected_id: u64, method: &str, line: &str) -> (answer: (
    RpcStep,
    Option<String>,
))
    ensures
        answer.0@ == rpc_line_step(expected_id, method@, line@),
        answer.1.deep_view() == crate::json::json_member(line@, "result"@),
{
    let result = json_member_text(line, "result");
    if !is_json(line) {
        return (RpcStep::Fail(concat("official MCP returned non-JSON line: ", line)), result);
    }
    let id = json_number_field(line, "id");
    let error = json_member_text(line, "error");
    let step = judge_rpc_response(expected_id, method, id, borrowed(&error), result.is_some());
    (step, result)
}

/// The names that the tools in a list have.
pub open spec fn tool_names(tools: Seq<Seq<char>>) -> Seq<Seq<char>>
    decreases tools.len(),
{
    if tools.len() == 0 {
        Seq::empty()
    } else {
        let before = tool_names(tools.drop_last());
        match crate::json::json_field(tools.last(), "name"@) {
            Some(name) => before.push(name),
            None => before,
        }
    }
}

/// The tools that are listed in the result of a request for them; none where there is no list.
pub open spec fn tools_in(result: Seq<char>) -> Seq<Seq<char>> {
    match crate::json::json_items(result, "tools"@) {
        Some(tools) => tools,
        None => Seq::empty(),
    }
}

/// How many tools are listed in the result of a request for them, and the names that they have.
pub fn listed_tools(result: &str) -> (tools: (usize, Vec<String>))
    ensures
        tools.0 == tools_in(result@).len(),
        tools.1.deep_view() == tool_names(tools_in(result@)),
{
    let listed = match json_member_items(result, "tools") {
        Some(listed) => listed,
        None => Vec::new(),
    };
    let ghost all = listed.deep_view();
    assert(all =~= tools_in(result@));
    let mut names: Vec<String> = Vec::new();
    let mut i: usize = 0;
    assert(names.deep_view() =~= tool_names(all.take(0)));
    while i < listed.len()
        invariant
            i <= listed@.len(),
            all == listed.deep_view(),
            names.deep_view() == tool_names(all.take(i as int)),
        decreases listed@.len() - i,
    {
        let ghost before = names.deep_view();
        assert(all.take(i + 1).drop_last() =~= all.take(i as int));
        assert(all.take(i + 1).last() == listed@[i as int]@);
        if let Some(name) = json_string_field(listed[i].as_str(), "name") {
            let ghost added = name@;
            names.push(name);
            assert(names.deep_view() =~= before.push(added));
        }
        i = i + 1;
    }
    assert(all.take(all.len() as int) =~= all);
    (listed.len(), names)
}

/// Whether a process is to be started: where there is none, or where the one that is there was
/// initialized and has exited.
pub fn official_process_is_due(initialized: Option<bool>, exited: bool) -> (due: bool)
    ensures
        due == process_due(initialized, exited),
{
    match initialized {
        None => true,
        Some(initialized) => initialized && exited,
    }
}

/// An error that Studio is not there yet never lets the process be started anew, and never counts as a
/// failure of the request alone.
pub proof fn law_waiting_for_studio_keeps_the_process(message: Seq<char>)
    requires
        transient(message),
    ensures
        !needs_restart(message),
        !keeps_ready(message),
{
}

/// The process is never started anew after an error that leaves the adapter ready or says nothing of
/// it.
pub proof fn law_restart_is_for_failures_of_the_adapter(message: Seq<char>)
    requires
        needs_restart(message),
    ensures
        !transient(message),
        !keeps_ready(message),
        !preserves_state(message),
        !business_error(message),
        !argument_error(message),
{
}

/// An image that is written has the bytes that its base64 text stands for, and they begin as its kind
/// does.
pub proof fn law_written_images_are_checked(
    task_id: Seq<char>,
    request_id: Seq<char>,
    image_base64: Seq<char>,
    mime_type: Seq<char>,
    file_name: Option<Seq<char>>,
)
    ensures
        image_prepared(
            task_id,
            request_id,
            None,
            Some(image_base64),
            Some(mime_type),
            file_name,
        ) matches Ok(prepared) ==> {
            &&& prepared matches ImageArgumentsView::Write(image)
            &&& crate::encoding::stands_for(crate::text::trimmed(image_base64), image.bytes)
            &&& has_magic(crate::text::trimmed(mime_type), image.bytes)
            &&& image.bytes.len() <= OFFICIAL_STORE_IMAGE_MAX_DECODED_BYTES
            &&& crate::sanitize::is_name(image.task_id)
        },
{
}

} // verus!
