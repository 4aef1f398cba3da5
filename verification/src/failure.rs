//! Closed failure taxonomy shared by the gateway, the adapters and the daemon.

use vstd::prelude::*;

verus! {

/// Domain failure categories that every component maps its errors into.
#[derive(Clone, Copy, Debug, PartialEq, Eq, Structural)]
pub enum FailureCategory {
    InvalidRequest,
    InvalidTransition,
    CapabilityUnavailable,
    PolicyDenied,
    ApprovalRequired,
    ProviderUnavailable,
    ProviderTimeout,
    OutcomeUnknown,
    Internal,
}

/// A categorized, user-safe failure.
#[derive(Debug)]
pub struct CoreError {
    pub category: FailureCategory,
    pub message: String,
}

/// A provider failure together with whether its outcome is definite.
#[derive(Debug)]
pub struct ProviderFailure {
    pub category: FailureCategory,
    pub user_safe_message: String,
    pub definite: bool,
}

} // verus!
