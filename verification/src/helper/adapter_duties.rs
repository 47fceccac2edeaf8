//! How the official tools are asked and what their answers mean, said of the words and the records
//! themselves.
use vstd::prelude::*;

use super::official::{
    AdapterLoss, ImageArgumentsView, OfficialContentItemView, OfficialStudioInfoView, PrewarmOutcome,
    RpcStepView,
};
use super::records::{HelperStateView, RemoteConnectionState};
use crate::helper_ws::OfficialMcpRequestView;

verus! {

/// The six tools that may be asked for.
pub open spec fn six_tools() -> Seq<Seq<char>> {
    seq![
        "generate_mesh"@,
        "search_creator_store"@,
        "insert_from_creator_store"@,
        "store_image"@,
        "generate_procedural_model"@,
        "wait_job_finished"@,
    ]
}

/// A request has the time that it asks for, but at least a millisecond and at most half an hour.
pub proof fn law_requests_have_their_time(timeout_ms: u64)
    ensures
        ({
            let nanos = super::official::request_timeout(timeout_ms);
            &&& 1 <= timeout_ms <= 1_800_000 ==> nanos == timeout_ms * 1_000_000
            &&& timeout_ms == 0 ==> nanos == 1_000_000
            &&& timeout_ms > 1_800_000 ==> nanos == 1_800_000_000_000
        }),
{
}

/// A request is taken only on a connection that is for a task, for just that task and its place.
pub proof fn law_requests_keep_to_their_task(
    place_id: Seq<char>,
    task_id: Option<Seq<char>>,
    request: OfficialMcpRequestView,
)
    ensures
        super::official::request_fault(place_id, task_id, request) is None <==> task_id is Some
            && request.task_id == task_id->0 && request.place_id == place_id,
{
}

/// The official tools are started for a task only where it is claimed, at that place, and its server has
/// said that it is ready.
pub proof fn law_tools_need_a_server(s: HelperStateView, task_id: Seq<char>, place_id: Seq<char>)
    ensures
        ({
            let key = "task:"@ + task_id;
            super::official::adapter_fault(s, task_id, place_id) is None
                <==> s.claimed_tasks.contains_key(task_id) && s.claimed_tasks[task_id].place_id
                == place_id && s.remote_connections.contains_key(key)
                && s.remote_connections[key].connection_state == RemoteConnectionState::Connected
        }),
{
}

/// How the tools of a task stand is noted for that task, with the moment, and for no other.
pub proof fn law_state_of_the_tools_is_noted(
    s: HelperStateView,
    task_id: Seq<char>,
    status: Seq<char>,
    last_error: Option<Seq<char>>,
    other: Seq<char>,
    now: u128,
)
    ensures
        ({
            let after = super::official::with_adapter_state(s, task_id, status, last_error, now);
            let a = after.official_adapter_states;
            &&& a.contains_key(task_id)
            &&& a[task_id].state == status
            &&& a[task_id].last_error == last_error
            &&& a[task_id].observed_at == now
            &&& other != task_id ==> a.contains_key(other)
                == s.official_adapter_states.contains_key(other) && a[other]
                == s.official_adapter_states[other]
            &&& after.official_adapters == s.official_adapters
            &&& after.claimed_tasks == s.claimed_tasks
        }),
{
}

/// Six tools may be asked for, and no other.
pub proof fn law_allowed_tools(tool: Seq<char>)
    ensures
        super::official::allowed(tool) <==> six_tools().contains(tool),
        super::official::allowed_tools() == six_tools(),
{
    let six = six_tools();
    if super::official::allowed(tool) {
        assert(six[0] == "generate_mesh"@);
        assert(six[1] == "search_creator_store"@);
        assert(six[2] == "insert_from_creator_store"@);
        assert(six[3] == "store_image"@);
        assert(six[4] == "generate_procedural_model"@);
        assert(six[5] == "wait_job_finished"@);
    }
    assert(super::official::allowed_tools() =~= six);
}

/// A tool is missing where it may be asked for and is not there.
pub proof fn law_missing_tools(available: Set<Seq<char>>, tool: Seq<char>)
    ensures
        super::official::missing_tools(available).contains(tool) <==> six_tools().contains(tool)
            && !available.contains(tool),
{
    law_allowed_tools(tool);
    let six = super::official::allowed_tools();
    let test = |tool: Seq<char>| !available.contains(tool);
    crate::basics::lemma_picked(six, test, tool);
}

/// That Studio is not there yet passes by itself; an error of the channel to it is told by its words.
pub proof fn law_errors_of_the_channel(message: Seq<char>, summary: Seq<char>)
    ensures
        super::official::transient(message) <==> {
            ||| crate::text::holds_text(message, "Not connected to the WS host"@)
            ||| crate::text::holds_text(
                message,
                "official MCP found no connected Roblox Studio instances"@,
            )
            ||| crate::text::holds_text(
                message,
                "previously active Studio has disconnected or doesn't have a place opened"@,
            )
        },
        super::official::argument_error(message) <==> "store_image "@.is_prefix_of(message),
        super::official::preserves_state(message) <==> {
            ||| "unsupported official MCP adapter action:"@.is_prefix_of(message)
            ||| "Invalid official MCP"@.is_prefix_of(message)
        },
        super::official::about_channel(summary) <==> {
            let text = crate::text::ascii_lower(summary);
            ||| crate::text::holds_text(text, "not connected"@)
            ||| crate::text::holds_text(text, "connection"@)
            ||| crate::text::holds_text(text, "ws host"@)
            ||| crate::text::holds_text(text, "websocket"@)
            ||| crate::text::holds_text(text, "active studio"@)
            ||| crate::text::holds_text(text, "studio unavailable"@)
            ||| crate::text::holds_text(text, "studio has disconnected"@)
            ||| crate::text::holds_text(text, "no connected roblox studio"@)
            ||| crate::text::holds_text(text, "adapter failure"@)
            ||| crate::text::holds_text(text, "internal adapter"@)
            ||| crate::text::holds_text(text, "timed out"@)
            ||| crate::text::holds_text(text, "timeout"@)
            ||| crate::text::holds_text(text, "stdio"@)
            ||| crate::text::holds_text(text, "json-rpc"@)
            ||| crate::text::holds_text(text, "protocol"@)
            ||| crate::text::holds_text(text, "closed stdout"@)
            ||| crate::text::holds_text(text, "process closed"@)
        },
        super::official::about_business(summary) <==> {
            ||| crate::text::holds_text(summary, "policy"@)
            ||| crate::text::holds_text(summary, "moderation"@)
            ||| crate::text::holds_text(summary, "prompt"@)
            ||| crate::text::holds_text(summary, "input"@)
            ||| crate::text::holds_text(summary, "argument"@)
            ||| crate::text::holds_text(summary, "parameter"@)
            ||| crate::text::holds_text(summary, "invalid"@)
            ||| crate::text::holds_text(summary, "malformed"@)
            ||| crate::text::holds_text(summary, "not found"@)
            ||| crate::text::holds_text(summary, "no result"@)
            ||| crate::text::holds_text(summary, "file"@)
            ||| crate::text::holds_text(summary, "image"@)
            ||| crate::text::holds_text(summary, "mime"@)
            ||| crate::text::holds_text(summary, "content"@)
            ||| crate::text::holds_text(summary, "asset"@)
        },
{
}

/// The name of a tool is one word.
proof fn lemma_no_space(tool: Seq<char>, i: int)
    requires
        six_tools().contains(tool),
        0 <= i < tool.len(),
    ensures
        tool[i] != ' ',
{
    reveal_strlit("generate_mesh");
    reveal_strlit("search_creator_store");
    reveal_strlit("insert_from_creator_store");
    reveal_strlit("store_image");
    reveal_strlit("generate_procedural_model");
    reveal_strlit("wait_job_finished");
    let p = six_tools().index_of(tool);
    assert(six_tools()[p] == tool);
}

/// An error of a tool that lies in what was asked, and not in the way to it, leaves the tools ready: they
/// are noted as in error, and started anew, for no such error. What passes by itself and what asks for an
/// unknown tool starts nothing anew either.
pub proof fn law_errors_of_the_asker(
    s: HelperStateView,
    task_id: Seq<char>,
    tool: Seq<char>,
    summary: Seq<char>,
    message: Seq<char>,
    now: u128,
)
    requires
        message == "official MCP tool "@ + tool + " returned error:"@ + summary,
        six_tools().contains(tool),
    ensures
        ({
            let text = crate::text::ascii_lower(summary);
            let after = super::official::request_settled(s, task_id, Some(message), now);
            let own = !super::official::about_channel(summary) && if tool == "wait_job_finished"@ {
                super::official::about_job(text)
            } else {
                super::official::about_business(text)
            };
            &&& super::official::business_error(message) <==> own
            &&& own && !super::official::transient(message) ==> !super::official::needs_restart(
                message,
            ) && after.official_adapter_states[task_id].state == "ready"@
                && after.official_adapter_states[task_id].last_error is None
            &&& super::official::transient(message) ==> !super::official::needs_restart(message)
                && after.official_adapter_states[task_id].state == "error"@
        }),
{
    reveal_strlit("official MCP tool ");
    reveal_strlit(" returned error:");
    reveal_strlit("store_image ");
    let prefix = "official MCP tool "@;
    let sep = " returned error:"@;
    let rest = tool + sep + summary;
    assert(message =~= prefix + rest);
    assert(message.skip(prefix.len() as int) =~= rest);
    assert(prefix.is_prefix_of(message)) by {
        assert(message.subrange(0, prefix.len() as int) =~= prefix);
    }
    assert(crate::text::without_prefix(message, prefix) == Some(rest));
    assert(crate::text::occurs_at(rest, sep, tool.len() as int)) by {
        assert(rest.subrange(tool.len() as int, (tool.len() + sep.len()) as int) =~= sep);
    }
    assert(crate::text::holds_text(rest, sep));
    assert forall|j: int| 0 <= j < tool.len() implies !crate::text::occurs_at(rest, sep, j) by {
        lemma_no_space(tool, j);
        if crate::text::occurs_at(rest, sep, j) {
            assert(rest.subrange(j, j + sep.len())[0] == tool[j]);
            assert(sep[0] == ' ');
        }
    }
    assert(crate::text::first_at(rest, sep, tool.len() as int));
    let at = choose|at: int| crate::text::first_at(rest, sep, at);
    assert(at == tool.len()) by {
        if at < tool.len() {
            assert(!crate::text::occurs_at(rest, sep, at));
        }
        if at > tool.len() {
            assert(!crate::text::occurs_at(rest, sep, tool.len() as int));
        }
    }
    assert(rest.take(at) =~= tool);
    assert(rest.skip(at + sep.len()) =~= summary);
    law_allowed_tools(tool);
    assert(!super::official::argument_error(message)) by {
        if "store_image "@.is_prefix_of(message) {
            assert(message.subrange(0, 12)[0] == message[0]);
            assert(message[0] == 'o');
        }
    }
}

/// How a request went is noted for its task: in order where it went through or where the error leaves the
/// tools ready, else in error, with the error.
pub proof fn law_requests_are_settled(
    s: HelperStateView,
    task_id: Seq<char>,
    error: Option<Seq<char>>,
    now: u128,
)
    ensures
        ({
            let after = super::official::request_settled(s, task_id, error, now);
            let a = after.official_adapter_states[task_id];
            let fine = error is None || super::official::keeps_ready(error->0);
            &&& after.official_adapter_states.contains_key(task_id)
            &&& a.observed_at == now
            &&& fine ==> a.state == "ready"@ && a.last_error is None
            &&& !fine ==> a.state == "error"@ && a.last_error == Some(
                crate::sanitize::summary(error->0),
            )
            &&& error matches Some(message) ==> (super::official::keeps_ready(message)
                <==> !super::official::transient(message) && (super::official::business_error(
                message,
            ) || super::official::argument_error(message)))
            &&& error matches Some(message) ==> (super::official::needs_restart(message)
                <==> !super::official::transient(message) && !super::official::business_error(
                message,
            ) && !super::official::argument_error(message) && !super::official::preserves_state(
                message,
            ))
        }),
{
}

/// Images are PNG or JPEG, are named so, and start as such images do.
pub proof fn law_kinds_of_images(mime_type: Seq<char>, bytes: Seq<u8>)
    ensures
        ({
            let png = mime_type == "image/png"@;
            let jpeg = mime_type == "image/jpeg"@ || mime_type == "image/jpg"@;
            let ending = super::official::extension_of(mime_type);
            &&& ending is Some <==> png || jpeg
            &&& png ==> ending == Some("png"@)
            &&& jpeg ==> ending == Some("jpg"@)
            &&& super::official::has_magic(mime_type, bytes) && png ==> bytes.len() >= 8 && bytes[0]
                == 0x89 && bytes[1] == 0x50 && bytes[2] == 0x4e && bytes[3] == 0x47 && bytes[4]
                == 0x0d && bytes[5] == 0x0a && bytes[6] == 0x1a && bytes[7] == 0x0a
            &&& super::official::has_magic(mime_type, bytes) && jpeg ==> bytes.len() >= 3 && bytes[0]
                == 0xff && bytes[1] == 0xd8 && bytes[2] == 0xff
            &&& super::official::has_magic(mime_type, bytes) ==> png || jpeg
            &&& jpeg && bytes.len() >= 3 && bytes[0] == 0xff && bytes[1] == 0xd8 && bytes[2] == 0xff
                ==> super::official::has_magic(mime_type, bytes)
        }),
{
    reveal_strlit("image/png");
    reveal_strlit("image/jpeg");
    reveal_strlit("image/jpg");
    assert("image/png"@.len() != "image/jpeg"@.len());
    assert("image/png"@[6] != "image/jpg"@[6]);
    let png = seq![0x89u8, 0x50, 0x4e, 0x47, 0x0d, 0x0a, 0x1a, 0x0a];
    let jpeg = seq![0xffu8, 0xd8, 0xff];
    if png.is_prefix_of(bytes) {
        assert forall|i: int| 0 <= i < 8 implies png[i] == bytes[i] by {
            assert(bytes.subrange(0, 8)[i] == bytes[i]);
        }
    }
    if jpeg.is_prefix_of(bytes) {
        assert forall|i: int| 0 <= i < 3 implies jpeg[i] == bytes[i] by {
            assert(bytes.subrange(0, 3)[i] == bytes[i]);
        }
    }
    if bytes.len() >= 3 && bytes[0] == 0xff && bytes[1] == 0xd8 && bytes[2] == 0xff {
        assert(bytes.subrange(0, 3) =~= jpeg);
        assert(jpeg.is_prefix_of(bytes));
    }
}

/// An image is given by its path or by its bytes, and by one of them only; its kind and its name are for
/// bytes only. An image of more than 20 MiB is refused.
pub proof fn law_images_are_given_one_way(
    task_id: Seq<char>,
    request_id: Seq<char>,
    file_path: Option<Seq<char>>,
    image_base64: Option<Seq<char>>,
    mime_type: Option<Seq<char>>,
    file_name: Option<Seq<char>>,
)
    ensures
        ({
            let by_path = file_path is Some && crate::text::trimmed(file_path->0).len() > 0;
            let by_bytes = image_base64 is Some && crate::text::trimmed(image_base64->0).len() > 0;
            let found = super::official::image_prepared(
                task_id,
                request_id,
                file_path,
                image_base64,
                mime_type,
                file_name,
            );
            &&& by_path == by_bytes ==> found is Err
            &&& by_path && !by_bytes ==> (found is Ok <==> mime_type is None && file_name is None)
            &&& found matches Ok(ImageArgumentsView::File(path)) ==> file_path is Some && path
                == crate::text::trimmed(file_path->0)
            &&& by_path && found is Ok ==> found->Ok_0 is File
            &&& found matches Ok(ImageArgumentsView::Write(image)) ==> {
                &&& by_bytes && !by_path
                &&& mime_type is Some
                &&& image.bytes.len() <= 20_971_520
                &&& image.task_id == crate::text::trimmed(task_id)
                &&& super::official::has_magic(crate::text::trimmed(mime_type->0), image.bytes)
                &&& crate::encoding::base64_bytes(crate::text::trimmed(image_base64->0)) == Ok::<
                    Seq<u8>,
                    Seq<char>,
                >(image.bytes)
                &&& image.file_name == crate::text::trimmed(request_id) + "-"@
                    + super::official::hint_of(file_name) + "."@ + super::official::extension_of(
                    crate::text::trimmed(mime_type->0),
                )->0
                &&& super::forward_duties::plain_name(image.task_id)
                &&& super::forward_duties::plain_name(crate::text::trimmed(request_id))
            }
        }),
{
    super::forward_duties::law_names_are_plain(crate::text::trimmed(task_id));
    super::forward_duties::law_names_are_plain(crate::text::trimmed(request_id));
}

/// A line of an answer counts only where it answers the request; an error in it, or no result, fails the
/// request.
pub proof fn law_answers_are_matched(
    expected_id: u64,
    method: Seq<char>,
    id: Option<u64>,
    error: Option<Seq<char>>,
    has_result: bool,
)
    ensures
        ({
            let step = super::official::rpc_step(expected_id, method, id, error, has_result);
            &&& step is Skip <==> id != Some(expected_id)
            &&& step is Done <==> id == Some(expected_id) && error is None && has_result
            &&& id == Some(expected_id) && error is Some ==> step == RpcStepView::Fail(
                "official MCP "@ + method + " failed: "@ + error->0,
            )
        }),
{
}

/// An argument is found under either of its two names, the newer one first.
pub proof fn law_arguments_have_two_names(
    task_id: Seq<char>,
    request_id: Seq<char>,
    arguments: Seq<char>,
    first: Seq<char>,
    second: Seq<char>,
)
    ensures
        ({
            let a = crate::json::json_field(arguments, first);
            let b = crate::json::json_field(arguments, second);
            &&& a is Some ==> super::official::either_field(arguments, first, second) == a
            &&& a is None ==> super::official::either_field(arguments, first, second) == b
        }),
        crate::json::json_object(arguments) ==> super::official::image_arguments(
            task_id,
            request_id,
            arguments,
        ) == super::official::image_prepared(
            task_id,
            request_id,
            super::official::either_field(arguments, "filePath"@, "file_path"@),
            super::official::either_field(arguments, "imageBase64"@, "image_base64"@),
            super::official::either_field(arguments, "mimeType"@, "mime_type"@),
            super::official::either_field(arguments, "fileName"@, "file_name"@),
        ),
        !crate::json::json_object(arguments) ==> super::official::image_arguments(
            task_id,
            request_id,
            arguments,
        ) is Err,
{
}

/// The text of an answer is the first of its items that is a text.
pub proof fn law_first_text_counts(content: Seq<OfficialContentItemView>, i: int)
    requires
        0 <= i < content.len(),
        content[i].item_type == "text"@,
        content[i].text is Some,
        forall|j: int|
            0 <= j < i ==> (#[trigger] content[j]).item_type != "text"@ || content[j].text is None,
    ensures
        super::official::first_text(content) == content[i].text,
    decreases content.len(),
{
    if i > 0 {
        let rest = content.drop_first();
        assert(content[0].item_type != "text"@ || content[0].text is None);
        assert(rest[i - 1] == content[i]);
        assert forall|j: int| 0 <= j < i - 1 implies (#[trigger] rest[j]).item_type != "text"@
            || rest[j].text is None by {
            assert(rest[j] == content[j + 1]);
        }
        law_first_text_counts(rest, i - 1);
    }
}

/// The texts of an answer are those of its items that have one, in their order.
pub proof fn law_texts_are_collected(
    content: Seq<OfficialContentItemView>,
    item: OfficialContentItemView,
)
    ensures
        ({
            let texts = super::official::content_texts(content);
            let more = super::official::content_texts(content.push(item));
            &&& super::official::content_texts(Seq::empty()).len() == 0
            &&& item.text matches Some(text) ==> more == texts.push(text)
            &&& item.text is None ==> more == texts
        }),
{
    assert(content.push(item).drop_last() =~= content);
}

/// The names of the tools are those that have one, in their order.
pub proof fn law_tool_names_are_collected(tools: Seq<Seq<char>>, tool: Seq<char>, result: Seq<char>)
    ensures
        ({
            let names = super::official::tool_names(tools);
            let more = super::official::tool_names(tools.push(tool));
            let listed = crate::json::json_items(result, "tools"@);
            &&& super::official::tool_names(Seq::empty()).len() == 0
            &&& crate::json::json_field(tool, "name"@) matches Some(name) ==> more == names.push(
                name,
            )
            &&& crate::json::json_field(tool, "name"@) is None ==> more == names
            &&& listed matches Some(list) ==> super::official::tools_in(result) == list
            &&& listed is None ==> super::official::tools_in(result).len() == 0
        }),
{
    assert(tools.push(tool).drop_last() =~= tools);
}

/// A line of an answer is judged by its number, its error and its result; one that cannot be read fails
/// the request.
pub proof fn law_lines_are_judged(expected_id: u64, method: Seq<char>, line: Seq<char>)
    ensures
        ({
            let step = super::official::rpc_line_step(expected_id, method, line);
            let own = crate::json::json_number(line, "id"@) == Some(expected_id);
            let error = crate::json::json_member(line, "error"@);
            let result = crate::json::json_member(line, "result"@);
            &&& !crate::json::json_valid(line) ==> step == RpcStepView::Fail(
                "official MCP returned non-JSON line: "@ + line,
            )
            &&& crate::json::json_valid(line) ==> {
                &&& step is Skip <==> !own
                &&& step is Done <==> own && error is None && result is Some
                &&& step is Fail <==> own && (error is Some || result is None)
            }
        }),
{
}

/// How a first call of the tools failed, and how they were lost, is told apart.
pub proof fn law_losses_are_told_apart(error: String)
    ensures
        super::official::prewarm_error(PrewarmOutcome::Ready) is None,
        super::official::prewarm_error(PrewarmOutcome::Failed(error)) == Some(
            crate::sanitize::summary(error@),
        ),
        super::official::prewarm_error(PrewarmOutcome::WorkerGone) == Some(
            "official MCP adapter worker is not running"@,
        ),
        super::official::prewarm_error(PrewarmOutcome::ChannelClosed) == Some(
            "official MCP adapter response channel closed"@,
        ),
        super::official::prewarm_error(PrewarmOutcome::TimedOut) == Some(
            "official MCP adapter prewarm timed out"@,
        ),
        super::official::loss_told(AdapterLoss::WorkerGone)
            == "official MCP adapter worker is not running"@,
        super::official::loss_told(AdapterLoss::ChannelClosed)
            == "official MCP adapter response channel closed"@,
        super::official::loss_told(AdapterLoss::TimedOut)
            == "official MCP adapter request timed out"@,
{
}

/// The tools of a task are there once they are to be, and gone with all that was noted of them once they are
/// lost; those of other tasks are not touched.
pub proof fn law_tools_come_and_go(s: HelperStateView, task_id: Seq<char>, other: Seq<char>)
    ensures
        ({
            let kept = super::official::adapter_kept(s, task_id);
            let gone = super::official::adapter_gone(s, task_id);
            let closed = super::ws_session::closed(s, Some(task_id));
            &&& kept.official_adapters.contains(task_id)
            &&& kept.official_adapter_states == s.official_adapter_states
            &&& !gone.official_adapters.contains(task_id)
            &&& !gone.official_adapter_states.contains_key(task_id)
            &&& closed == gone
            &&& super::ws_session::closed(s, None) == s
            &&& other != task_id ==> {
                &&& kept.official_adapters.contains(other) == s.official_adapters.contains(other)
                &&& gone.official_adapters.contains(other) == s.official_adapters.contains(other)
                &&& gone.official_adapter_states.contains_key(other)
                    == s.official_adapter_states.contains_key(other)
                &&& gone.official_adapter_states[other] == s.official_adapter_states[other]
            }
            &&& kept.claimed_tasks == s.claimed_tasks
            &&& gone.claimed_tasks == s.claimed_tasks
            &&& gone.remote_connections == s.remote_connections
        }),
{
}

/// After a first call the tools are ready where it went through, else in error, with the error; the work on
/// Studio needs just one Studio; and a process that was never started, or was and has exited, is started.
pub proof fn law_tools_are_made_ready(
    s: HelperStateView,
    task_id: Seq<char>,
    outcome: PrewarmOutcome,
    studios: Seq<OfficialStudioInfoView>,
    exited: bool,
    now: u128,
)
    ensures
        ({
            let a = super::official::prewarmed(s, task_id, outcome, now).official_adapter_states;
            &&& a.contains_key(task_id)
            &&& a[task_id].observed_at == now
            &&& outcome is Ready ==> a[task_id].state == "ready"@ && a[task_id].last_error is None
            &&& !(outcome is Ready) ==> a[task_id].state == "error"@ && a[task_id].last_error is Some
        }),
        super::official::only_studio(studios) is Ok <==> studios.len() == 1,
        studios.len() == 1 ==> super::official::only_studio(studios)->Ok_0 == studios[0],
        studios.len() == 0 ==> super::official::only_studio(studios) == Err::<
            OfficialStudioInfoView,
            Seq<char>,
        >("official MCP found no connected Roblox Studio instances"@),
        super::official::process_due(None, exited),
        super::official::process_due(Some(true), exited) <==> exited,
        !super::official::process_due(Some(false), exited),
{
}

/// An error about a job is told by its words, or by a word for the job and one for what is wrong with it.
pub proof fn law_errors_of_jobs(text: Seq<char>)
    ensures
        super::official::about_job(text) <==> {
            let bare = text.filter(|c: char| c != ' ' && c != '_' && c != '-');
            let named = crate::text::holds_text(text, "job id"@) || crate::text::holds_text(
                bare,
                "jobid"@,
            ) || crate::text::holds_text(bare, "generationid"@);
            let wrong = crate::text::holds_text(text, "invalid"@) || crate::text::holds_text(
                text,
                "missing"@,
            ) || crate::text::holds_text(text, "required"@) || crate::text::holds_text(
                text,
                "malformed"@,
            );
            crate::text::holds_text(text, "workflow failed"@) || crate::text::holds_text(
                text,
                "no job found"@,
            ) || (named && wrong)
        },
{
    let mine = |c: char| c != ' ' && c != '_' && c != '-';
    let own = |c: char| !super::official::parts_words(c);
    assert(mine =~= own);
}

/// An image that is given by more text than 20 MiB can need is refused before it is read.
pub proof fn law_long_images_are_refused(
    task_id: Seq<char>,
    request_id: Seq<char>,
    image_base64: Seq<char>,
    mime_type: Option<Seq<char>>,
    file_name: Option<Seq<char>>,
)
    ensures
        ({
            let text = crate::text::trimmed(image_base64);
            let found = super::official::image_prepared(
                task_id,
                request_id,
                None,
                Some(image_base64),
                mime_type,
                file_name,
            );
            let mime = crate::text::trimmed(mime_type->0);
            let bytes = crate::encoding::base64_bytes(text);
            &&& vstd::utf8::encode_utf8(text).len() > 27_962_028 ==> found is Err
            &&& text.len() > 0 && vstd::utf8::encode_utf8(text).len() <= 27_962_028
                && mime_type is Some && (mime == "image/png"@ || mime == "image/jpeg"@ || mime
                == "image/jpg"@) && bytes is Ok && bytes->Ok_0.len() <= 20_971_520
                && super::official::has_magic(mime, bytes->Ok_0)
                && super::forward_duties::plain_name(crate::text::trimmed(task_id))
                && super::forward_duties::plain_name(crate::text::trimmed(request_id))
                ==> found is Ok
        }),
{
    super::forward_duties::law_names_are_plain(crate::text::trimmed(task_id));
    super::forward_duties::law_names_are_plain(crate::text::trimmed(request_id));
}

/// The name that is suggested for a file is cut to forty characters, keeps plain ones only, and neither
/// starts nor ends in a hyphen; where nothing is left of it, the file is an image.
pub proof fn law_file_names_are_plain(value: Seq<char>)
    ensures
        ({
            let hint = super::official::file_hint(value);
            &&& hint.len() <= 40
            &&& hint.len() > 0 ==> hint[0] != '-' && hint.last() != '-'
            &&& super::official::hint_of(Some(value)) == if hint.len() > 0 {
                hint
            } else {
                "image"@
            }
            &&& super::official::hint_of(None) == "image"@
        }),
{
    let named = crate::text::trimmed(value).map_values(
        |c: char|
            if crate::sanitize::is_name_char(c) {
                c
            } else {
                '_'
            },
    );
    let short = if named.len() > 40 {
        named.take(40)
    } else {
        named
    };
    let once = crate::text::without_ends(short, '_');
    lemma_ends(short, '_');
    lemma_ends(once, '-');
}

proof fn lemma_leading(s: Seq<char>, c: char)
    ensures
        crate::text::without_leading(s, c).len() <= s.len(),
        crate::text::without_leading(s, c).len() > 0 ==> crate::text::without_leading(s, c)[0] != c,
    decreases s.len(),
{
    if s.len() > 0 && s[0] == c {
        lemma_leading(s.drop_first(), c);
    }
}

proof fn lemma_trailing(s: Seq<char>, c: char)
    ensures
        crate::text::without_trailing(s, c).len() <= s.len(),
        crate::text::without_trailing(s, c).len() > 0 ==> crate::text::without_trailing(s, c).last()
            != c && crate::text::without_trailing(s, c)[0] == s[0],
    decreases s.len(),
{
    if s.len() > 0 && s.last() == c {
        lemma_trailing(s.drop_last(), c);
    }
}

proof fn lemma_ends(s: Seq<char>, c: char)
    ensures
        crate::text::without_ends(s, c).len() <= s.len(),
        crate::text::without_ends(s, c).len() > 0 ==> crate::text::without_ends(s, c)[0] != c
            && crate::text::without_ends(s, c).last() != c,
{
    lemma_leading(s, c);
    lemma_trailing(crate::text::without_leading(s, c), c);
}

/// The tools of a task are told by what was noted of them last: nothing else is known of tools that were
/// never started, and tools that were ready are stale while the plugin does not serve in edit mode.
pub proof fn law_tools_are_told(s: HelperStateView, task_id: Seq<char>, edit_ready: bool, now: u128)
    ensures
        ({
            let told = super::session::adapter_snapshot(
                s.official_adapter_states,
                task_id,
                edit_ready,
                now,
            );
            let r = s.official_adapter_states[task_id];
            let there = s.official_adapter_states.contains_key(task_id);
            &&& !there ==> told == ("not_started"@, None::<u128>, None::<Seq<char>>)
            &&& there && r.state == "ready"@ && !edit_ready ==> told.0 == "stale"@
            &&& there && (r.state != "ready"@ || edit_ready) ==> told.0 == r.state
            &&& there ==> told.2 == r.last_error
            &&& there && now >= r.observed_at ==> told.1 == Some(
                ((now - r.observed_at) / 1_000_000) as u128,
            )
            &&& there && now < r.observed_at ==> told.1 == Some(0u128)
        }),
{
}

} // verus!
