//! The bindings' decisions: what each endpoint answers, given what the
//! transport read.
pub mod http;
pub mod mcp;
pub mod stdio;
