//! Verified core of the multi-agent workbench daemon: protocol validation,
//! session state folding, policy gates, budgets, and bounded telemetry.

pub mod daemon;
pub mod digest;
pub mod failure;
pub mod json;
pub mod mcp;
pub mod openrouter;
pub mod protocol;
pub mod text;
