//! Daemon-side rules: telemetry, runtime paths, provider runtime checks,
//! workflow steps, session decisions, the events each command appends, the
//! status reply and the rules of one client connection.

pub mod ipc;
pub mod plan;
pub mod providers;
pub mod runtime_paths;
pub mod session;
pub mod status;
pub mod subscription;
pub mod workflow;
pub mod telemetry;
