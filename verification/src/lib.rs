//! The logic of a bridge between Roblox Studio and remote tools: the hub that hands tasks out, the
//! helper that serves them beside Studio, and what the two keep and say. All of it is plain
//! computation on the state that it is given; reading, sending and waiting are left to its users.
pub mod auth;
pub mod basics;
pub mod clock;
pub mod debug;
pub mod encoding;
pub mod fields;
pub mod folders;
pub mod helper;
pub mod helper_ws;
pub mod hub;
pub mod ids;
pub mod install;
pub mod json;
pub mod order;
pub mod pattern;
pub mod sanitize;
pub mod table;
pub mod text;
pub mod urls;
