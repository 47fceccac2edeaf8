use studio_bridge::helper::timing::{
    REMOTE_WS_CONNECT_TIMEOUT, REMOTE_WS_PING_INTERVAL, REMOTE_WS_PONG_TIMEOUT,
};
use studio_bridge::urls::{
    derive_remote_helper_ws_url_from_base_url, rojo_forward_base_url, rojo_forward_target_path,
    rojo_forward_target_ws_url, runtime_log_forward_upload_url,
    runtime_screenshot_helper_upload_url, runtime_screenshot_upload_url_for_base_url,
};

#[test]
fn derive_remote_helper_ws_url_supports_http_and_https() {
    assert_eq!(
        derive_remote_helper_ws_url_from_base_url("https://example.com"),
        "wss://example.com/ws/helper"
    );
    assert_eq!(
        derive_remote_helper_ws_url_from_base_url("http://127.0.0.1:44756"),
        "ws://127.0.0.1:44756/ws/helper"
    );
    assert_eq!(
        derive_remote_helper_ws_url_from_base_url("ws://127.0.0.1:44756/"),
        "ws://127.0.0.1:44756/ws/helper"
    );
}

#[test]
fn remote_ws_pong_timeout_exceeds_ping_interval() {
    assert!(REMOTE_WS_PONG_TIMEOUT > REMOTE_WS_PING_INTERVAL);
    assert!(REMOTE_WS_PONG_TIMEOUT > REMOTE_WS_CONNECT_TIMEOUT);
}

#[test]
fn rojo_forward_base_url_uses_single_helper_port_and_task_path() {
    assert_eq!(
        rojo_forward_base_url(44750, "93795519121520", "tff2f06bc6a"),
        "http://127.0.0.1:44750/rojo-forward/93795519121520/task/tff2f06bc6a"
    );
}

#[test]
fn runtime_log_forward_upload_url_uses_single_helper_port_and_task_path() {
    assert_eq!(
        runtime_log_forward_upload_url(44750, "93795519121520", "tff2f06bc6a"),
        "http://127.0.0.1:44750/runtime-log-forward/93795519121520/task/tff2f06bc6a/v1/runtime-logs"
    );
}

#[test]
fn rojo_forward_target_path_preserves_path_and_query() {
    assert_eq!(rojo_forward_target_path("", None), "/");
    assert_eq!(rojo_forward_target_path("api/rojo", None), "/api/rojo");
    assert_eq!(
        rojo_forward_target_path("/api/read/abc", Some("x=1&y=2")),
        "/api/read/abc?x=1&y=2"
    );
}

#[test]
fn rojo_forward_target_ws_url_uses_websocket_scheme() {
    assert_eq!(
        rojo_forward_target_ws_url(
            "https://93795519121520-t_example-rojo-sunjun-user.dev.clock-p.com",
            "api/socket/0",
            Some("cursor=next"),
        )
        .unwrap(),
        "wss://93795519121520-t_example-rojo-sunjun-user.dev.clock-p.com/api/socket/0?cursor=next"
    );
    assert_eq!(
        rojo_forward_target_ws_url(
            "http://93795519121520-t_example-rojo-sunjun-user.dev.clock-p.com",
            "/api/socket/1",
            None,
        )
        .unwrap(),
        "ws://93795519121520-t_example-rojo-sunjun-user.dev.clock-p.com/api/socket/1"
    );
}

#[test]
fn rojo_forward_target_ws_url_refuses_other_schemes() {
    assert_eq!(
        rojo_forward_target_ws_url("ftp://example.com", "x", None).unwrap_err(),
        "Rojo forward base_url must use http(s) or ws(s)"
    );
    assert_eq!(
        rojo_forward_target_ws_url("ws://example.com//", "", Some("")).unwrap(),
        "ws://example.com/"
    );
}

#[test]
fn trailing_slashes_of_a_base_url_make_no_difference() {
    assert_eq!(
        derive_remote_helper_ws_url_from_base_url("https://example.com///"),
        derive_remote_helper_ws_url_from_base_url("https://example.com")
    );
}

#[test]
fn screenshots_go_beside_the_runtime_logs() {
    assert_eq!(
        runtime_screenshot_helper_upload_url(44750, "1", "t"),
        "http://127.0.0.1:44750/runtime-log-forward/1/task/t/v1/runtime-screenshots"
    );
    assert_eq!(
        runtime_screenshot_upload_url_for_base_url("https://example.com/"),
        "https://example.com/v1/runtime-screenshots"
    );
}
