//! The helper that runs beside Studio: plugins, sessions, routing and connections.
pub mod adapter_duties;
pub mod artifacts;
pub mod capture;
pub mod command_duties;
pub mod commands;
pub mod config;
pub mod connection_duties;
pub mod connections;
pub mod duties;
pub mod forward;
pub mod forward_duties;
pub mod hub_loop;
pub mod launch;
pub mod laws;
pub mod official;
pub mod plugin;
pub mod records;
pub mod routing;
pub mod session;
pub mod session_duties;
pub mod status;
pub mod studio_log;
pub mod surroundings;
pub mod task_status;
pub mod timing;
pub mod told;
pub mod upload;
pub mod ws_session;
