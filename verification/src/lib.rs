//! Verified core of the mania client: the sign-server wire format, the
//! video download request/response logic, message chain resolution and the
//! dispatch of incoming system events.

pub mod buffer;
pub mod chain;
pub mod client;
pub mod config;
pub mod events;
pub mod hex;
pub mod media;
pub mod sign;
pub mod video;
