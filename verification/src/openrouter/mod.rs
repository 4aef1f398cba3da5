//! `OpenRouter` Chat Completions support: redacted errors, cost controls,
//! stream framing and endpoint parsing.
//!
//! Protocol identity: `openrouter-chat-completions/1`.

pub mod adapter;
pub mod attempts;
pub mod error;
pub mod budget;
pub mod protocol;
pub mod transport;
pub mod credential;
pub mod platform_secret;
