//! Daemon-owned MCP pin checks, policy gates and redaction.

pub mod error;
pub mod gateway;
pub mod http;
pub mod pin;
pub mod policy;
pub mod redaction;
pub mod stdio;
