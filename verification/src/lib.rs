//! Player-statistics lookups for a chat bot: command routing, normalising the
//! statistics service's JSON answer, and rendering outbound chat messages.

pub mod command;
pub mod config;
pub mod handler;
pub mod json;
pub mod message;
pub mod platform;
pub mod request;
pub mod stats;
pub mod text;
