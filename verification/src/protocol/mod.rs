//! Versioned local client protocol: commands, replies, events, framing and
//! bounded subscriber queues.

pub mod codec;
pub mod event;
pub mod command;
pub mod ids;
pub mod response;
pub mod subscription;


pub use ids::PROTOCOL_V1;
