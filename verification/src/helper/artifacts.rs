//! Screenshots on their way to a remote server: an upload is announced, sent in pieces and finished,
//! and the server tells whether it has stored it.
use vstd::prelude::*;

use crate::encoding::encode_base64;
use crate::helper_ws::{
    ArtifactAbort, ArtifactBegin, ArtifactChunk, ArtifactCommitted, ArtifactFinish,
    HelperToServerMessage, MAX_ARTIFACT_CHUNK_MESSAGE_BYTES, MAX_ARTIFACT_CHUNK_PAYLOAD_BYTES,
};
use crate::ids::new_token;
use crate::sanitize::sanitize_identifier;
use crate::table::dup_text;
use crate::text::owned;

verus! {

use crate::helper_ws::{
    ArtifactAbortView, ArtifactBeginView, ArtifactChunkView, ArtifactCommittedView,
    ArtifactFinishView, HelperToServerMessageView,
};

/// What a command to take a screenshot may name.
pub struct TakeScreenshotToolArgs {
    pub session_id: Option<String>,
    pub runtime_id: Option<String>,
    pub tag: Option<String>,
}

/// What a [`TakeScreenshotToolArgs`] stands for.
#[verifier::ext_equal]
pub struct TakeScreenshotToolArgsView {
    pub session_id: Option<Seq<char>>,
    pub runtime_id: Option<Seq<char>>,
    pub tag: Option<Seq<char>>,
}

impl View for TakeScreenshotToolArgs {
    type V = TakeScreenshotToolArgsView;

    open spec fn view(&self) -> TakeScreenshotToolArgsView {
        TakeScreenshotToolArgsView {
            session_id: self.session_id.deep_view(),
            runtime_id: self.runtime_id.deep_view(),
            tag: self.tag.deep_view(),
        }
    }
}

/// What a screenshot is filed under.
pub struct ScreenshotLabel {
    pub session_id: String,
    pub runtime_id: String,
    pub tag: Option<String>,
}

/// What a [`ScreenshotLabel`] stands for.
#[verifier::ext_equal]
pub struct ScreenshotLabelView {
    pub session_id: Seq<char>,
    pub runtime_id: Seq<char>,
    pub tag: Option<Seq<char>>,
}

impl View for ScreenshotLabel {
    type V = ScreenshotLabelView;

    open spec fn view(&self) -> ScreenshotLabelView {
        ScreenshotLabelView {
            session_id: self.session_id@,
            runtime_id: self.runtime_id@,
            tag: self.tag.deep_view(),
        }
    }
}

/// Where a screenshot was stored.
pub struct RuntimeScreenshotResponse {
    pub session_id: String,
    pub runtime_id: String,
    pub place_id: String,
    pub screenshot_path: String,
    pub screenshot_rel_path: Option<String>,
    pub artifact_dir: String,
    pub session_metadata_path: String,
    pub bytes_written: usize,
}

/// What a [`RuntimeScreenshotResponse`] stands for.
#[verifier::ext_equal]
pub struct RuntimeScreenshotResponseView {
    pub session_id: Seq<char>,
    pub runtime_id: Seq<char>,
    pub place_id: Seq<char>,
    pub screenshot_path: Seq<char>,
    pub screenshot_rel_path: Option<Seq<char>>,
    pub artifact_dir: Seq<char>,
    pub session_metadata_path: Seq<char>,
    pub bytes_written: usize,
}

impl View for RuntimeScreenshotResponse {
    type V = RuntimeScreenshotResponseView;

    open spec fn view(&self) -> RuntimeScreenshotResponseView {
        RuntimeScreenshotResponseView {
            session_id: self.session_id@,
            runtime_id: self.runtime_id@,
            place_id: self.place_id@,
            screenshot_path: self.screenshot_path@,
            screenshot_rel_path: self.screenshot_rel_path.deep_view(),
            artifact_dir: self.artifact_dir@,
            session_metadata_path: self.session_metadata_path@,
            bytes_written: self.bytes_written,
        }
    }
}

/// What a screenshot is filed under, for the names that were given.
pub open spec fn label_of(args: TakeScreenshotToolArgsView) -> Result<ScreenshotLabelView, Seq<char>> {
    let runtime = match args.runtime_id {
        Some(text) => text,
        None => "server"@,
    };
    if args.session_id is None {
        Err("take_screenshot requires session_id"@)
    } else if !crate::sanitize::is_name(crate::text::trimmed(args.session_id->0)) {
        Err(crate::sanitize::name_message("session_id"@))
    } else if !crate::sanitize::is_name(crate::text::trimmed(runtime)) {
        Err(crate::sanitize::name_message("runtime_id"@))
    } else if args.tag is Some && !crate::sanitize::is_name(crate::text::trimmed(args.tag->0)) {
        Err(crate::sanitize::name_message("tag"@))
    } else {
        Ok(
            ScreenshotLabelView {
                session_id: crate::text::trimmed(args.session_id->0),
                runtime_id: crate::text::trimmed(runtime),
                tag: match args.tag {
                    Some(text) => Some(crate::text::trimmed(text)),
                    None => None,
                },
            },
        )
    }
}

/// How many pieces an upload of `len` bytes has.
pub open spec fn chunk_count(len: nat) -> nat {
    ((len + MAX_ARTIFACT_CHUNK_PAYLOAD_BYTES - 1) / (MAX_ARTIFACT_CHUNK_PAYLOAD_BYTES as int)) as nat
}

/// Piece `i` of an upload.
pub open spec fn chunk_at(bytes: Seq<u8>, i: int) -> Seq<u8> {
    let from = i * MAX_ARTIFACT_CHUNK_PAYLOAD_BYTES;
    let to = from + MAX_ARTIFACT_CHUNK_PAYLOAD_BYTES;
    bytes.subrange(
        from,
        if to <= bytes.len() {
            to
        } else {
            bytes.len() as int
        },
    )
}

/// The message with a piece of an upload.
pub open spec fn chunk_message(upload_id: Seq<char>, i: int, chunk: Seq<u8>) -> HelperToServerMessageView {
    HelperToServerMessageView::ArtifactChunk(
        ArtifactChunkView {
            upload_id,
            seq: i as u32,
            data_base64: crate::encoding::base64_text(chunk),
        },
    )
}

/// The text of a piece leaves room in its message for all else that the message says.
pub open spec fn leaves_room(text: Seq<char>) -> bool {
    text.len() + 20 * 1024 <= MAX_ARTIFACT_CHUNK_MESSAGE_BYTES
}

/// The messages with the pieces of an upload, in order.
pub open spec fn chunk_messages(upload_id: Seq<char>, bytes: Seq<u8>) -> Seq<HelperToServerMessageView> {
    Seq::new(
        chunk_count(bytes.len()),
        |i: int| chunk_message(upload_id, i, chunk_at(bytes, i)),
    )
}

/// The message that announces an upload.
pub open spec fn begin_message(
    upload_id: Seq<char>,
    request_id: Seq<char>,
    place_id: Seq<char>,
    task_id: Option<Seq<char>>,
    label: ScreenshotLabelView,
    total_bytes: usize,
) -> HelperToServerMessageView {
    HelperToServerMessageView::ArtifactBegin(
        ArtifactBeginView {
            upload_id,
            request_id,
            session_id: label.session_id,
            runtime_id: label.runtime_id,
            place_id,
            task_id,
            tag: label.tag,
            content_type: "image/png"@,
            total_bytes,
        },
    )
}

/// The message that finishes an upload.
pub open spec fn finish_message(upload_id: Seq<char>, request_id: Seq<char>, len: nat) -> HelperToServerMessageView {
    HelperToServerMessageView::ArtifactFinish(
        ArtifactFinishView { upload_id, request_id, total_chunks: chunk_count(len) as u32 },
    )
}

/// The messages of an upload, in order: it is announced, sent in pieces, and finished.
pub open spec fn upload_messages(
    upload_id: Seq<char>,
    request_id: Seq<char>,
    place_id: Seq<char>,
    task_id: Option<Seq<char>>,
    label: ScreenshotLabelView,
    bytes: Seq<u8>,
) -> Seq<HelperToServerMessageView> {
    seq![begin_message(upload_id, request_id, place_id, task_id, label, bytes.len() as usize)]
        + chunk_messages(upload_id, bytes) + seq![
        finish_message(upload_id, request_id, bytes.len()),
    ]
}

/// Where a screenshot was stored, as the server tells it.
pub open spec fn stored(committed: ArtifactCommittedView) -> RuntimeScreenshotResponseView {
    RuntimeScreenshotResponseView {
        session_id: committed.session_id,
        runtime_id: committed.runtime_id,
        place_id: committed.place_id,
        screenshot_path: committed.screenshot_path,
        screenshot_rel_path: Some(committed.screenshot_rel_path),
        artifact_dir: committed.artifact_dir,
        session_metadata_path: committed.session_metadata_path,
        bytes_written: committed.bytes_written,
    }
}

/// What a screenshot is filed under, for the names that were given.
pub fn screenshot_label(args: &TakeScreenshotToolArgs) -> (result: Result<ScreenshotLabel, String>)
    ensures
        crate::table::outcome(result) == label_of(args@),
{
    let session_id = match &args.session_id {
        None => return Err("take_screenshot requires session_id".to_owned()),
        Some(text) => match sanitize_identifier("session_id", text.as_str()) {
            Ok(id) => id,
            Err(message) => return Err(message),
        },
    };
    let runtime: &str = match &args.runtime_id {
        Some(text) => text.as_str(),
        None => "server",
    };
    let runtime_id = match sanitize_identifier("runtime_id", runtime) {
        Ok(id) => id,
        Err(message) => return Err(message),
    };
    let tag = match &args.tag {
        None => None,
        Some(text) => match sanitize_identifier("tag", text.as_str()) {
            Ok(tag) => Some(tag),
            Err(message) => return Err(message),
        },
    };
    Ok(ScreenshotLabel { session_id, runtime_id, tag })
}

/// The message with piece `seq` of an upload.
pub fn build_artifact_chunk_message(upload_id: &str, seq: u32, chunk: &[u8]) -> (message:
    HelperToServerMessage)
    requires
        chunk@.len() <= usize::MAX / 4,
    ensures
        message@ == HelperToServerMessageView::ArtifactChunk(
            ArtifactChunkView {
                upload_id: upload_id@,
                seq,
                data_base64: crate::encoding::base64_text(chunk@),
            },
        ),
        crate::encoding::stands_for(crate::encoding::base64_text(chunk@), chunk@),
        chunk@.len() <= MAX_ARTIFACT_CHUNK_PAYLOAD_BYTES ==> leaves_room(
            crate::encoding::base64_text(chunk@),
        ),
{
    HelperToServerMessage::ArtifactChunk(
        ArtifactChunk { upload_id: upload_id.to_owned(), seq, data_base64: encode_base64(chunk) },
    )
}

/// The message that gives an upload up.
pub fn artifact_abort_message(upload_id: &str, request_id: &str, error: &str) -> (message:
    HelperToServerMessage)
    ensures
        message@ == HelperToServerMessageView::ArtifactAbort(
            ArtifactAbortView { upload_id: upload_id@, request_id: request_id@, error: error@ },
        ),
{
    HelperToServerMessage::ArtifactAbort(
        ArtifactAbort {
            upload_id: upload_id.to_owned(),
            request_id: request_id.to_owned(),
            error: error.to_owned(),
        },
    )
}

/// The messages of an upload under the given identifier. Every piece can be read back from its
/// message, which it does not fill.
pub fn artifact_messages(
    upload_id: &str,
    request_id: &str,
    place_id: &str,
    task_id: Option<&str>,
    label: &ScreenshotLabel,
    png_bytes: &Vec<u8>,
) -> (messages: Vec<HelperToServerMessage>)
    ensures
        crate::table::views(messages@) == upload_messages(
            upload_id@,
            request_id@,
            place_id@,
            task_id.deep_view(),
            label@,
            png_bytes@,
        ),
        forall|i: int|
            0 <= i < chunk_count(png_bytes@.len()) ==> crate::encoding::stands_for(
                crate::encoding::base64_text(#[trigger] chunk_at(png_bytes@, i)),
                chunk_at(png_bytes@, i),
            ) && leaves_room(crate::encoding::base64_text(chunk_at(png_bytes@, i))),
{
    let total: usize = png_bytes.len();
    let mut messages: Vec<HelperToServerMessage> = Vec::new();
    messages.push(
        HelperToServerMessage::ArtifactBegin(
            ArtifactBegin {
                upload_id: upload_id.to_owned(),
                request_id: request_id.to_owned(),
                session_id: label.session_id.clone(),
                runtime_id: label.runtime_id.clone(),
                place_id: place_id.to_owned(),
                task_id: owned(task_id),
                tag: dup_text(&label.tag),
                content_type: "image/png".to_owned(),
                total_bytes: total,
            },
        ),
    );
    let ghost begin = begin_message(
        upload_id@,
        request_id@,
        place_id@,
        task_id.deep_view(),
        label@,
        total,
    );
    let mut from: usize = 0;
    let mut count: usize = 0;
    let ghost pieces = chunk_messages(upload_id@, png_bytes@);
    assert(crate::table::views(messages@) =~= seq![begin] + pieces.take(0));
    while from < total
        invariant
            total == png_bytes@.len(),
            pieces == chunk_messages(upload_id@, png_bytes@),
            count <= chunk_count(total as nat),
            from == (if count * MAX_ARTIFACT_CHUNK_PAYLOAD_BYTES <= total {
                count * MAX_ARTIFACT_CHUNK_PAYLOAD_BYTES
            } else {
                total as int
            }),
            count <= from,
            crate::table::views(messages@) == seq![begin] + pieces.take(count as int),
            forall|i: int|
                0 <= i < count ==> crate::encoding::stands_for(
                    crate::encoding::base64_text(#[trigger] chunk_at(png_bytes@, i)),
                    chunk_at(png_bytes@, i),
                ) && leaves_room(crate::encoding::base64_text(chunk_at(png_bytes@, i))),
        decreases total - from,
    {
        let to: usize = if total - from > MAX_ARTIFACT_CHUNK_PAYLOAD_BYTES {
            from + MAX_ARTIFACT_CHUNK_PAYLOAD_BYTES
        } else {
            total
        };
        proof {
            lemma_chunk_count(total as nat, count as nat);
            assert(chunk_at(png_bytes@, count as int) =~= png_bytes@.subrange(
                from as int,
                to as int,
            ));
        }
        let ghost before = messages@;
        let chunk = vstd::slice::slice_subrange(png_bytes.as_slice(), from, to);
        let message = build_artifact_chunk_message(upload_id, count as u32, chunk);
        proof {
            assert(message@ == pieces[count as int]);
            assert(crate::table::views(before.push(message)) =~= crate::table::views(before).push(
                message@,
            ));
            assert(pieces.take(count + 1) =~= pieces.take(count as int).push(pieces[count as int]));
            assert((seq![begin] + pieces.take(count as int)).push(pieces[count as int]) =~= seq![
                begin,
            ] + pieces.take(count + 1));
        }
        messages.push(message);
        from = to;
        count = count + 1;
    }
    proof {
        lemma_chunk_count(total as nat, count as nat);
    }
    let ghost before = messages@;
    let finish = HelperToServerMessage::ArtifactFinish(
        ArtifactFinish {
            upload_id: upload_id.to_owned(),
            request_id: request_id.to_owned(),
            total_chunks: count as u32,
        },
    );
    proof {
        assert(crate::table::views(before.push(finish)) =~= crate::table::views(before).push(
            finish@,
        ));
        assert(pieces.take(count as int) =~= pieces);
        assert((seq![begin] + pieces).push(finish@) =~= seq![begin] + pieces + seq![finish@]);
    }
    messages.push(finish);
    messages
}

/// What is said of an upload that broke off after `sent` of its `total` messages.
pub open spec fn broken_off(sent: usize, total: usize) -> Seq<char> {
    if sent == 0 {
        "remote websocket sender dropped before artifact begin"@
    } else if sent + 1 == total {
        "remote websocket sender dropped before artifact finish"@
    } else {
        "remote websocket sender dropped during artifact upload"@
    }
}

/// What is said of an upload that broke off after `sent` of its `total` messages, and whether it is to
/// be given up before the server, which knows of it once it was announced.
pub fn upload_broken_off(sent: usize, total: usize) -> (told: (String, bool))
    ensures
        told.0@ == broken_off(sent, total),
        told.1 == (sent > 0),
{
    if sent == 0 {
        ("remote websocket sender dropped before artifact begin".to_owned(), false)
    } else if total > 0 && sent == total - 1 {
        ("remote websocket sender dropped before artifact finish".to_owned(), true)
    } else {
        ("remote websocket sender dropped during artifact upload".to_owned(), true)
    }
}

/// A new identifier for an upload.
pub fn new_upload_id() -> (id: String)
    ensures
        crate::ids::is_token(id@),
{
    new_token()
}

/// Where a screenshot was stored, as the server tells it.
pub fn screenshot_stored(committed: ArtifactCommitted) -> (response: RuntimeScreenshotResponse)
    ensures
        response@ == stored(committed@),
{
    RuntimeScreenshotResponse {
        session_id: committed.session_id,
        runtime_id: committed.runtime_id,
        place_id: committed.place_id,
        screenshot_path: committed.screenshot_path,
        screenshot_rel_path: Some(committed.screenshot_rel_path),
        artifact_dir: committed.artifact_dir,
        session_metadata_path: committed.session_metadata_path,
        bytes_written: committed.bytes_written,
    }
}

/// Piece `n` is there where some byte stands at or after its start.
proof fn lemma_chunk_count(len: nat, n: nat)
    ensures
        n < chunk_count(len) <==> n * MAX_ARTIFACT_CHUNK_PAYLOAD_BYTES < len,
        (n + 1) * MAX_ARTIFACT_CHUNK_PAYLOAD_BYTES == n * MAX_ARTIFACT_CHUNK_PAYLOAD_BYTES
            + MAX_ARTIFACT_CHUNK_PAYLOAD_BYTES,
        n <= n * MAX_ARTIFACT_CHUNK_PAYLOAD_BYTES,
{
    let m = MAX_ARTIFACT_CHUNK_PAYLOAD_BYTES as int;
    let q = (len + m - 1) / m;
    vstd::arithmetic::div_mod::lemma_fundamental_div_mod(len + m - 1, m);
    vstd::arithmetic::div_mod::lemma_mod_bound(len + m - 1, m);
    assert(n < q <==> n * m < len) by (nonlinear_arith)
        requires
            m > 0,
            m * q <= len + m - 1 < m * q + m,
    {
        if n < q {
            assert((n + 1) * m <= q * m);
        } else {
            assert(n * m >= q * m);
        }
    }
    assert((n + 1) * m == n * m + m) by (nonlinear_arith);
    assert(n <= n * m) by (nonlinear_arith)
        requires
            m >= 1,
    ;
    assert(q >= 0) by (nonlinear_arith)
        requires
            len + m - 1 < m * q + m,
            m > 0,
            len >= 0,
    {
        if q < 0 {
            assert(m * q <= -m);
        }
    }
}

/// The pieces `0..n` of an upload, put together.
pub open spec fn assembled(bytes: Seq<u8>, n: nat) -> Seq<u8>
    decreases n,
{
    if n == 0 {
        Seq::empty()
    } else {
        assembled(bytes, (n - 1) as nat) + chunk_at(bytes, n - 1)
    }
}

/// The pieces of an upload, put together in order, are the bytes that were sent.
pub proof fn law_pieces_make_the_whole(bytes: Seq<u8>)
    ensures
        assembled(bytes, chunk_count(bytes.len())) == bytes,
{
    lemma_assembled(bytes, chunk_count(bytes.len()));
    lemma_chunk_count(bytes.len(), chunk_count(bytes.len()));
    assert(bytes.take(bytes.len() as int) =~= bytes);
}

proof fn lemma_assembled(bytes: Seq<u8>, n: nat)
    requires
        n <= chunk_count(bytes.len()),
    ensures
        assembled(bytes, n) == bytes.take(
            if n * MAX_ARTIFACT_CHUNK_PAYLOAD_BYTES <= bytes.len() {
                n * MAX_ARTIFACT_CHUNK_PAYLOAD_BYTES
            } else {
                bytes.len() as int
            },
        ),
        n < chunk_count(bytes.len()) ==> n * MAX_ARTIFACT_CHUNK_PAYLOAD_BYTES < bytes.len(),
    decreases n,
{
    lemma_chunk_count(bytes.len(), n);
    if n > 0 {
        lemma_assembled(bytes, (n - 1) as nat);
        lemma_chunk_count(bytes.len(), (n - 1) as nat);
    } else {
        assert(n * MAX_ARTIFACT_CHUNK_PAYLOAD_BYTES == 0) by (nonlinear_arith)
            requires
                n == 0,
        ;
    }
    assert(assembled(bytes, n) =~= bytes.take(
        if n * MAX_ARTIFACT_CHUNK_PAYLOAD_BYTES <= bytes.len() {
            n * MAX_ARTIFACT_CHUNK_PAYLOAD_BYTES
        } else {
            bytes.len() as int
        },
    ));
}

} // verus!
