//! The limits that a helper keeps to. Durations are in nanoseconds.
use vstd::prelude::*;

verus! {

/// How long a plugin's request for work is held open.
pub const LOCAL_LONG_POLL_TIMEOUT: u128 = 15_000_000_000;

/// How long a plugin may take for an ordinary request.
pub const PLUGIN_REQUEST_TIMEOUT: u128 = 60_000_000_000;

/// How long a plugin may take for a request that starts or stops a session.
pub const PLUGIN_STUDIO_CONTROL_REQUEST_TIMEOUT: u128 = 150_000_000_000;

/// How long a control heartbeat counts as fresh.
pub const STUDIO_CONTROL_HEARTBEAT_STALE_AFTER: u128 = 2_000_000_000;

/// How long an edit heartbeat counts as fresh.
pub const EDIT_RUNTIME_STALE_AFTER: u128 = 5_000_000_000;

/// How long the lookup of the universe of a place may take.
pub const ROBLOX_PLACE_UNIVERSE_LOOKUP_TIMEOUT: u128 = 10_000_000_000;

/// How long a request to the official tools may take.
pub const OFFICIAL_MCP_REQUEST_TIMEOUT: u128 = 1_800_000_000_000;

/// When an upstream counts as slow.
pub const OBSERVABLE_UPSTREAM_SLOW_AFTER: u128 = 5_000_000_000;

/// How many log uploads may wait to be forwarded.
pub const RUNTIME_LOG_FORWARD_QUEUE_CAPACITY: usize = 64;

/// How long a plugin may be silent.
pub const INSTANCE_STALE_AFTER: u128 = 45_000_000_000;

/// How long connecting to a remote server may take.
pub const REMOTE_WS_CONNECT_TIMEOUT: u128 = 15_000_000_000;

/// How long a connection may fail to come up before its worker is replaced.
pub const REMOTE_WS_STALE_RESTART_AFTER: u128 = 30_000_000_000;

/// How long a connection may keep failing before its task is given up.
pub const REMOTE_WS_STALE_RELEASE_AFTER: u128 = 180_000_000_000;

/// How often a connection is probed.
pub const REMOTE_WS_PING_INTERVAL: u128 = 15_000_000_000;

/// How long the answer to a probe may take.
pub const REMOTE_WS_PONG_TIMEOUT: u128 = 45_000_000_000;

/// The port of a helper.
pub const DEFAULT_HELPER_PORT: u16 = 44750;

} // verus!
