//! The control plane: tasks, the helpers that serve them, and the drains of blocked helpers.
pub mod cleanup;
pub mod duties;
pub mod helper_duties;
pub mod helpers;
pub mod laws;
pub mod messages;
pub mod persist;
pub mod records;
pub mod reload;
pub mod status;
pub mod tasks;
pub mod told;
