//! Core logic of a chat bot that drives a single game-server instance
//! through a hosting panel's REST API: command dispatch, response
//! parsing, unit conversions and reply rendering, all verified.
//! Network and chat transport live outside this crate.

pub mod command;
pub mod dispatch;
pub mod duration;
pub mod error;
pub mod json;
pub mod numfmt;
pub mod parse;
pub mod render;
pub mod units;
