//! Decision logic of a small chat bot: command dispatch, voice-channel
//! selection, configuration validation, and the join/play/leave flow,
//! each stated and proved as a contract. The gateway, voice transport
//! and process plumbing live outside the library.

pub mod command;
pub mod config;
pub mod bing;
pub mod dispatch;
pub mod ping;
pub mod shutdown;
