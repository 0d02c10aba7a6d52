//! What the transports decide before and after they move bytes.
pub mod http;
