//! Verified core of a bridge that exposes a Matrix account as a OneBot
//! implementation: identifier handling, message and notice construction,
//! routing decisions, action checks, retry policy and configuration defaults.

pub mod text;
pub mod config;
pub mod table;
pub mod ids;
pub mod retry;
pub mod events;
pub mod routing;
pub mod actions;
