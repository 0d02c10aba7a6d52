//! A Model Context Protocol server for time and time zones: the protocol
//! dispatcher, the catalog of what it offers, and the time computation
//! engine behind it, each with a contract that Verus proves.
//!
//! Calendar arithmetic and zone rules come from `chrono` and `chrono-tz`,
//! string escaping from `serde_json`; the calls into them are in `calendar`
//! and `json`.
pub mod auth;
pub mod calendar;
pub mod config;
pub mod handlers;
pub mod json;
pub mod mcp;
pub mod models;
pub mod text;
pub mod time_tools;
pub mod tools;
pub mod transports;
