//! Request handling logic of the recording server: bearer tokens, Redis
//! commands, stream locations, JSON framing of room records and the
//! start/stop recording workflows.

pub mod text;
pub mod json;
pub mod commands;
pub mod room;
pub mod auth;
pub mod stream;
pub mod pricing;
pub mod request;
pub mod start;
pub mod stop;
