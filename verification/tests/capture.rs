use studio_bridge::helper::artifacts::{
    artifact_abort_message, artifact_messages, build_artifact_chunk_message, new_upload_id,
    screenshot_label, screenshot_stored, upload_broken_off, TakeScreenshotToolArgs,
};
use studio_bridge::helper::capture::{
    after_peer_lookup, choose_content_area, choose_studio_window, choose_viewport,
    decode_ipv4_addr, decode_ipv4_port, large_child_windows, resolve_capture_pid,
    resolve_peer_process_id, screenshot_file_name, ChildWindowCandidate, PeerLookup, TcpRow,
    WindowCandidate, MIN_CHILD_HEIGHT, MIN_CHILD_WIDTH,
};
use studio_bridge::helper::config::ResolvedToken;
use studio_bridge::helper::records::{ClaimedTask, HelperState, PluginInstance};
use studio_bridge::helper::studio_log::{
    list_candidate_log_files, newest_studio, read_studio_log, select_log_lines,
    unread_logs_message, DatedFile, ReadStudioLogArgs,
};
use studio_bridge::helper::upload::{
    check_screenshot_request, judge_screenshot_upload, screenshot_place, screenshot_tag,
    screenshot_uploaded, uploads_exhausted, validate_runtime_screenshot_upload_url,
    RuntimeScreenshotRequest, RuntimeScreenshotSinkResponse, UploadStep,
};
use studio_bridge::helper_ws::{
    ArtifactCommitted, HelperToServerMessage, MAX_ARTIFACT_CHUNK_MESSAGE_BYTES,
    MAX_ARTIFACT_CHUNK_PAYLOAD_BYTES,
};

const NOW: u128 = 10_000_000_000_000;
const MS: u128 = 1_000_000;

fn test_instance(place_id: &str, task_id: Option<&str>, age_ms: u128) -> PluginInstance {
    PluginInstance {
        place_id: place_id.to_owned(),
        task_id: task_id.map(str::to_owned),
        remote_base_url: "https://example.com".to_owned(),
        studio_pid: Some(123),
        studio_mode: Some("stop".to_owned()),
        studio_mode_observed_at: Some(NOW),
        studio_mode_source: "edit_plugin".to_owned(),
        studio_control_state: "none".to_owned(),
        studio_transition_phase: "idle".to_owned(),
        studio_transition_started_at: None,
        studio_control_observed_at: None,
        edit_runtime_observed_at: Some(NOW),
        edit_runtime_unavailable_reason: None,
        studio_control_last_error: None,
        stop_request_id: 0,
        stop_request_recorded_at: None,
        stop_request_last_polled_at: None,
        stop_request_last_poll_id: None,
        stop_result_phase: None,
        stop_result_error: None,
        stop_result_observed_at: None,
        last_seen_at: NOW - age_ms * MS,
        queue: Vec::new(),
    }
}

fn test_claimed_task(task_id: &str, place_id: &str) -> ClaimedTask {
    ClaimedTask {
        task_id: task_id.to_owned(),
        place_id: place_id.to_owned(),
        universe_id: Some("999".to_owned()),
        mcp_base_url: "https://example.com".to_owned(),
        rojo_base_url: Some("https://example.com".to_owned()),
        runtime_log_base_url: Some("https://example.com".to_owned()),
        claimed_at: NOW,
    }
}

fn window(hwnd: usize, process_id: u32, title: &str, width: i32, height: i32) -> WindowCandidate {
    WindowCandidate {
        hwnd,
        process_id,
        title: title.to_owned(),
        width,
        height,
    }
}

fn child(hwnd: usize, width: i32, height: i32) -> ChildWindowCandidate {
    ChildWindowCandidate {
        hwnd,
        width,
        height,
    }
}

#[test]
fn window_of_the_process_is_chosen() {
    let windows = vec![
        window(1, 7, "Splash", 4000, 4000),
        window(2, 7, "Place1 - Roblox Studio", 100, 100),
        window(3, 8, "Place2 - Roblox Studio", 500, 500),
        window(4, 7, "Other - Roblox Studio", 100, 100),
    ];
    let chosen = |pid: u32| choose_studio_window(&windows, pid).map(|w| w.hwnd);
    assert_eq!(chosen(7), Ok(4), "of windows that are alike the last is taken");
    assert_eq!(chosen(8), Ok(3));
    assert_eq!(
        chosen(9),
        Err("could not find an exact visible Roblox Studio window for pid 9; visible Studio windows: pid=7 title=Place1 - Roblox Studio | pid=8 title=Place2 - Roblox Studio | pid=7 title=Other - Roblox Studio".to_owned())
    );
    let only = vec![window(3, 8, "Place2 - Roblox Studio", 500, 500)];
    assert_eq!(choose_studio_window(&only, 9).map(|w| w.hwnd), Ok(3));
    assert_eq!(
        choose_studio_window(&Vec::new(), 9).map(|w| w.hwnd),
        Err("could not find any visible Roblox Studio window while resolving pid 9".to_owned())
    );
}

#[test]
fn content_and_viewport_are_chosen_by_size() {
    assert_eq!(choose_content_area(&vec![child(1, 3000, 900), child(2, 2100, 700)], 9), 2);
    assert_eq!(choose_content_area(&vec![child(1, 900, 600), child(2, 600, 900)], 9), 1);
    assert_eq!(choose_content_area(&vec![child(2, 600, 900)], 9), 9);
    assert_eq!(choose_viewport(&vec![child(1, 2000, 900), child(2, 1500, 600)], 9), 2);
    assert_eq!(choose_viewport(&vec![child(1, 2000, 900)], 9), 1);
    assert_eq!(choose_viewport(&vec![child(1, 900, 900)], 9), 9);
    let all = vec![child(1, 499, 900), child(2, 500, 400), child(3, 600, 399)];
    let large = large_child_windows(&all, MIN_CHILD_WIDTH, MIN_CHILD_HEIGHT);
    assert_eq!(large.len(), 1);
    assert_eq!(large[0].hwnd, 2);
}

#[test]
fn process_behind_a_connection_is_found() {
    let local = u32::from_le_bytes([127, 0, 0, 1]);
    let port = |p: u16| u16::from_le_bytes(p.to_be_bytes()) as u32;
    let row = |local_port: u16, remote_port: u16, pid: u32| TcpRow {
        local_addr: local,
        local_port: port(local_port),
        remote_addr: local,
        remote_port: port(remote_port),
        owning_pid: pid,
    };
    assert_eq!(decode_ipv4_addr(local), 0x7f00_0001);
    assert_eq!(decode_ipv4_addr(decode_ipv4_addr(0x1234_5678)), 0x1234_5678);
    assert_eq!(decode_ipv4_port(port(44750)), 44750);
    let rows = vec![row(5000, 80, 1), row(5000, 44750, 2), row(5000, 44750, 3)];
    assert_eq!(
        resolve_peer_process_id(&rows, 0x7f00_0001, 5000, 44750),
        Some(2)
    );
    assert_eq!(
        resolve_peer_process_id(&rows, 0x7f00_0001, 5001, 44750),
        None
    );
    assert!(matches!(after_peer_lookup(0, Some(2)), PeerLookup::Found(2)));
    assert!(matches!(after_peer_lookup(8, None), PeerLookup::LookAgain));
    assert!(matches!(after_peer_lookup(9, None), PeerLookup::GiveUp));
}

#[test]
fn captured_process_is_that_of_the_route() {
    let mut state = HelperState::new();
    assert_eq!(
        resolve_capture_pid(&state, None, None),
        Err("no active Studio plugin registered".to_owned())
    );
    state
        .instances
        .insert("a".to_owned(), test_instance("1", Some("t"), 0));
    assert_eq!(
        resolve_capture_pid(&state, None, None),
        Ok((Some("1".to_owned()), 123))
    );
    assert_eq!(
        resolve_capture_pid(&state, Some("2"), None),
        Err("no active Studio plugin registered for placeId 2".to_owned())
    );
    let mut other = test_instance("2", Some("t"), 0);
    other.studio_pid = None;
    state.instances.insert("b".to_owned(), other);
    assert_eq!(
        resolve_capture_pid(&state, None, None),
        Err("multiple Studio instances are active; pass placeId explicitly".to_owned())
    );
    assert_eq!(
        resolve_capture_pid(&state, Some("2"), Some("t")),
        Err(
            "helper could not resolve a Studio process id for the selected plugin instance"
                .to_owned()
        )
    );
    assert_eq!(screenshot_file_name(Some("1"), "99"), "studio-1-99.png");
    assert_eq!(screenshot_file_name(None, "99"), "studio-99.png");
}

fn file(name: &str, modified: i128) -> DatedFile {
    DatedFile {
        path: format!("logs/{name}"),
        name: name.to_owned(),
        extension: name.rsplit_once('.').map(|(_, extension)| extension.to_owned()),
        modified,
    }
}

#[test]
fn newest_studio_log_comes_first() {
    let files = vec![
        file("a_Studio_1.log", 5),
        file("player.log", 9),
        file("b_Studio_2.log", 7),
        file("c_Studio_3.log", 7),
    ];
    assert_eq!(
        list_candidate_log_files(&files, "logs"),
        Ok(vec![
            "logs/c_Studio_3.log".to_owned(),
            "logs/b_Studio_2.log".to_owned(),
            "logs/a_Studio_1.log".to_owned()
        ])
    );
    assert_eq!(
        list_candidate_log_files(&vec![file("x.log", 1), file("y.log", 2)], "logs"),
        Ok(vec!["logs/y.log".to_owned(), "logs/x.log".to_owned()])
    );
    assert_eq!(
        list_candidate_log_files(
            &vec![
                file("c_Studio_3.txt", 9),
                file("x.log", -5),
                file("y.log", 2),
                file("log", 1),
                file("z.log", -7)
            ],
            "logs"
        ),
        Ok(vec![
            "logs/y.log".to_owned(),
            "logs/x.log".to_owned(),
            "logs/z.log".to_owned()
        ])
    );
    assert_eq!(
        list_candidate_log_files(&Vec::new(), "logs"),
        Err("no Studio log file found in logs".to_owned())
    );
    assert_eq!(newest_studio(&files, "v"), Ok("logs/player.log".to_owned()));
    assert_eq!(
        newest_studio(&Vec::new(), "v"),
        Err("could not locate RobloxStudioBeta.exe under v".to_owned())
    );
    assert_eq!(
        unread_logs_message("logs", Some("x: denied")),
        "failed to read any Studio log file in logs; last error: x: denied"
    );
    assert_eq!(
        unread_logs_message("logs", None),
        "failed to read any Studio log file in logs"
    );
}

#[test]
fn log_lines_are_chosen_by_range_and_pattern() {
    let content = b"one\r\ntwo\nthree\nfour";
    let read = |start_line: Option<i64>, line_count: Option<usize>, regex: Option<&str>| {
        match read_studio_log(
            "p",
            content,
            &ReadStudioLogArgs {
                start_line,
                line_count,
                regex: regex.map(str::to_owned),
            },
        ) {
            Ok(told) => {
                assert_eq!(told.path, "p");
                (told.total_lines, told.range_start, told.range_end, told.lines.join(","))
            }
            Err(error) => panic!("{error}"),
        }
    };
    let told = |a: usize, b: usize, c: usize, text: &str| (a, b, c, text.to_owned());
    assert_eq!(read(None, None, None), told(4, 1, 4, "one,two,three,four"));
    assert_eq!(read(Some(2), Some(2), None), told(4, 2, 3, "two,three"));
    assert_eq!(read(Some(-2), None, None), told(4, 3, 4, "three,four"));
    assert_eq!(read(Some(-9), Some(1), None), told(4, 1, 1, "one"));
    assert_eq!(read(Some(9), Some(0), None), told(4, 4, 4, "four"));
    assert_eq!(read(Some(2), Some(usize::MAX), None), told(4, 2, 4, "two,three,four"));
    assert_eq!(read(None, None, Some("^t")), told(2, 1, 2, "two,three"));
    assert_eq!(read(None, None, Some("^z")), told(0, 0, 0, ""));
    let bad = read_studio_log(
        "p",
        content,
        &ReadStudioLogArgs {
            start_line: None,
            line_count: None,
            regex: Some("(".to_owned()),
        },
    );
    assert!(bad.err().unwrap().contains("regex parse error"));
    let damaged = read_studio_log(
        "p",
        b"a\xffb\nc",
        &ReadStudioLogArgs {
            start_line: None,
            line_count: None,
            regex: None,
        },
    );
    assert_eq!(damaged.ok().unwrap().lines, vec!["a\u{fffd}b", "c"]);
    let none = select_log_lines("p", &Vec::new(), Some(3), Some(4));
    assert_eq!((none.total_lines, none.range_start, none.range_end), (0, 0, 0));
}

fn upload_state() -> HelperState {
    let mut state = HelperState::new();
    state
        .claimed_tasks
        .insert("t".to_owned(), test_claimed_task("t", "1"));
    state
}

#[test]
fn screenshots_go_to_the_helper_first() {
    let state = upload_state();
    let own = "http://127.0.0.1:44750/runtime-log-forward/1/task/t/v1/runtime-screenshots";
    assert_eq!(
        validate_runtime_screenshot_upload_url(&format!(" {own} "), "1", Some("t"), &state, 44750),
        Ok("https://example.com/v1/runtime-screenshots".to_owned())
    );
    assert_eq!(
        validate_runtime_screenshot_upload_url("https://evil", "1", Some("t"), &state, 44750),
        Err(format!(
            "upload_url must use local helper runtime screenshot forward for placeId 1: {own}"
        ))
    );
    assert_eq!(
        validate_runtime_screenshot_upload_url(" ", "1", Some("t"), &state, 44750),
        Err("upload_url must not be empty".to_owned())
    );
    assert!(validate_runtime_screenshot_upload_url(own, "1", Some("u"), &state, 44750).is_err());
}

fn sink(session_id: &str, runtime_id: &str, ok: bool) -> RuntimeScreenshotSinkResponse {
    RuntimeScreenshotSinkResponse {
        ok,
        session_id: session_id.to_owned(),
        runtime_id: runtime_id.to_owned(),
        artifact_dir: "d".to_owned(),
        screenshot_path: "p".to_owned(),
        session_metadata_path: "m".to_owned(),
        bytes_written: 3,
    }
}

#[test]
fn answers_to_screenshots_are_judged() {
    let candidate = ResolvedToken {
        value: "b".to_owned(),
        source: "file".to_owned(),
    };
    let judge = |status: u16, parsed: Option<RuntimeScreenshotSinkResponse>, current: &str| {
        judge_screenshot_upload(&candidate, current, status, "text", &parsed, "s", "r")
    };
    let failed = |step: UploadStep| match step {
        UploadStep::Failed(message) => message,
        _ => panic!("the upload should fail"),
    };
    assert!(matches!(judge(401, None, "a"), UploadStep::NextToken));
    assert_eq!(
        failed(judge(500, None, "a")),
        "runtime screenshot upload returned text"
    );
    assert_eq!(
        failed(judge(200, None, "a")),
        "runtime screenshot upload returned invalid JSON"
    );
    assert_eq!(
        failed(judge(200, Some(sink("s", "r", false)), "a")),
        "runtime screenshot upload returned ok=false"
    );
    assert_eq!(
        failed(judge(200, Some(sink("x", "r", true)), "a")),
        "runtime screenshot upload returned mismatched session_id: expected s, got x"
    );
    assert_eq!(
        failed(judge(200, Some(sink("s", "x", true)), "a")),
        "runtime screenshot upload returned mismatched runtime_id: expected r, got x"
    );
    match judge(200, Some(sink("s", "r", true)), "a") {
        UploadStep::Stored(Some(token)) => assert_eq!(token.value, "b"),
        _ => panic!("the helper should go on with the other token"),
    }
    assert!(matches!(
        judge(200, Some(sink("s", "r", true)), "b"),
        UploadStep::Stored(None)
    ));
    assert_eq!(
        uploads_exhausted(true),
        "runtime screenshot upload returned unauthorized for all token candidates"
    );
    assert_eq!(
        uploads_exhausted(false),
        "runtime screenshot upload could not complete"
    );
    let told = screenshot_uploaded(&sink("s", "r", true), "1");
    assert_eq!(told.place_id, "1");
    assert_eq!(told.screenshot_rel_path, None);
    assert_eq!(told.bytes_written, 3);
}

#[test]
fn screenshot_requests_are_checked() {
    let request = |place: Option<&str>, session: &str, runtime: &str, task: Option<&str>| {
        RuntimeScreenshotRequest {
            place_id: place.map(str::to_owned),
            task_id: task.map(str::to_owned),
            session_id: session.to_owned(),
            runtime_id: runtime.to_owned(),
            tag: None,
            upload_url: "u".to_owned(),
        }
    };
    let refused = |r: RuntimeScreenshotRequest| {
        check_screenshot_request(&r)
            .err()
            .expect("the request should be refused")
    };
    let route = check_screenshot_request(&request(Some(" 1 "), " s ", "r", None))
        .ok()
        .expect("the request is in order");
    assert_eq!(route.place_id.as_deref(), Some("1"));
    assert_eq!(route.session_id, "s");
    assert_eq!(refused(request(Some("x"), "s", "r", None)), "placeId must be digits only");
    assert_eq!(
        refused(request(None, "", "r", None)),
        "session_id must use [A-Za-z0-9_-] only"
    );
    assert_eq!(
        refused(request(None, "s", "?", None)),
        "runtime_id must use [A-Za-z0-9_-] only"
    );
    assert_eq!(
        refused(request(None, "s", "r", Some("a b"))),
        "task_id must use [A-Za-z0-9_-] only"
    );
    assert_eq!(screenshot_tag(Some(" x ")).as_deref(), Some("x"));
    assert_eq!(screenshot_tag(Some(" ")), None);
    assert_eq!(screenshot_place(None, Some("2")), Ok("2".to_owned()));
    assert_eq!(screenshot_place(Some("1"), Some("2")), Ok("1".to_owned()));
    assert!(screenshot_place(None, None).is_err());
}

#[test]
fn screenshot_is_sent_in_pieces() {
    let label = screenshot_label(&TakeScreenshotToolArgs {
        session_id: Some("s1".to_owned()),
        runtime_id: Some("r1".to_owned()),
        tag: Some("before".to_owned()),
    })
    .ok()
    .expect("the label is in order");
    let bytes: Vec<u8> = (0..700_000u32).map(|i| (i % 251) as u8).collect();
    let messages = artifact_messages("u1", "q1", "1", Some("t"), &label, &bytes);
    let mut total = 0usize;
    let mut chunks = 0u32;
    for (i, message) in messages.iter().enumerate() {
        match message {
            HelperToServerMessage::ArtifactBegin(begin) => {
                assert_eq!(i, 0);
                assert_eq!(begin.total_bytes, bytes.len());
                assert_eq!(begin.upload_id, "u1");
            }
            HelperToServerMessage::ArtifactChunk(chunk) => {
                assert_eq!(chunk.seq, chunks);
                chunks += 1;
                let padding = chunk.data_base64.bytes().filter(|b| *b == b'=').count();
                total += chunk.data_base64.len() / 4 * 3 - padding;
            }
            HelperToServerMessage::ArtifactFinish(finish) => {
                assert_eq!(i, messages.len() - 1);
                assert_eq!(finish.total_chunks, chunks);
            }
            _ => panic!("no other message belongs to an upload"),
        }
    }
    assert_eq!(total, bytes.len());
    match build_artifact_chunk_message("u", 0, b"hello") {
        HelperToServerMessage::ArtifactChunk(chunk) => assert_eq!(chunk.data_base64, "aGVsbG8="),
        _ => panic!("a piece is sent as a piece"),
    }
    match artifact_abort_message("u", "q", "no") {
        HelperToServerMessage::ArtifactAbort(abort) => assert_eq!(abort.error, "no"),
        _ => panic!("an abort is sent as an abort"),
    }
    assert_ne!(new_upload_id(), new_upload_id());
    let stored = screenshot_stored(ArtifactCommitted {
        upload_id: "u".to_owned(),
        request_id: "q".to_owned(),
        session_id: "s".to_owned(),
        runtime_id: "r".to_owned(),
        place_id: "1".to_owned(),
        task_id: None,
        screenshot_path: "p".to_owned(),
        screenshot_rel_path: "rel".to_owned(),
        artifact_dir: "d".to_owned(),
        session_metadata_path: "m".to_owned(),
        bytes_written: 5,
    });
    assert_eq!(stored.screenshot_rel_path.as_deref(), Some("rel"));
}

#[test]
fn full_piece_leaves_room_in_its_message() {
    let bytes = vec![7u8; MAX_ARTIFACT_CHUNK_PAYLOAD_BYTES];
    match build_artifact_chunk_message("u", 0, &bytes) {
        HelperToServerMessage::ArtifactChunk(chunk) => {
            assert_eq!(chunk.data_base64.len(), 491_520);
            assert!(chunk.data_base64.len() + 20 * 1024 <= MAX_ARTIFACT_CHUNK_MESSAGE_BYTES);
        }
        _ => panic!("a piece is sent as a piece"),
    }
}

#[test]
fn broken_off_upload_says_where_it_stood() {
    let told = |sent: usize| upload_broken_off(sent, 4);
    let announced = "remote websocket sender dropped during artifact upload";
    assert_eq!(
        told(0),
        (
            "remote websocket sender dropped before artifact begin".to_owned(),
            false
        )
    );
    assert_eq!(told(1), (announced.to_owned(), true));
    assert_eq!(told(2), (announced.to_owned(), true));
    assert_eq!(
        told(3),
        (
            "remote websocket sender dropped before artifact finish".to_owned(),
            true
        )
    );
}
