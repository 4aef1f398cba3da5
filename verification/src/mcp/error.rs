//! Stable, redacted MCP gateway error categories.

use vstd::prelude::*;

use crate::failure::FailureCategory;

verus! {

/// Default maximum encoded MCP frame or HTTP response size.
pub const MAX_ENCODED_BYTES: usize = 8_388_608;

/// Public error categories for MCP lifecycle and tool dispatch.
#[derive(Clone, Copy, Debug, PartialEq, Eq, Structural)]
pub enum McpErrorKind {
    InvalidConfiguration,
    PinMismatch,
    Unavailable,
    PolicyDenied,
    ApprovalRequired,
    ApprovalDenied,
    TransportFailed,
    ResponseTooLarge,
    RedirectRejected,
    Timeout,
    Cancelled,
    OutcomeUnknown,
    ShuttingDown,
    ReapFailed,
    Internal,
}

/// Category in the closed domain taxonomy for each MCP error kind.
pub open spec fn spec_failure_category(kind: McpErrorKind) -> FailureCategory {
    match kind {
        McpErrorKind::InvalidConfiguration => FailureCategory::InvalidRequest,
        McpErrorKind::PinMismatch | McpErrorKind::Unavailable | McpErrorKind::TransportFailed => {
            FailureCategory::ProviderUnavailable
        },
        McpErrorKind::PolicyDenied | McpErrorKind::ApprovalDenied => FailureCategory::PolicyDenied,
        McpErrorKind::ApprovalRequired => FailureCategory::ApprovalRequired,
        McpErrorKind::ResponseTooLarge | McpErrorKind::RedirectRejected => {
            FailureCategory::InvalidRequest
        },
        McpErrorKind::Timeout => FailureCategory::ProviderTimeout,
        McpErrorKind::Cancelled | McpErrorKind::OutcomeUnknown => FailureCategory::OutcomeUnknown,
        McpErrorKind::ShuttingDown => FailureCategory::InvalidTransition,
        McpErrorKind::ReapFailed | McpErrorKind::Internal => FailureCategory::Internal,
    }
}

impl McpErrorKind {
    /// Maps to the closed domain failure taxonomy.
    #[must_use]
    pub fn failure_category(self) -> (r: FailureCategory)
        ensures
            r == spec_failure_category(self),
    {
        match self {
            Self::InvalidConfiguration => FailureCategory::InvalidRequest,
            Self::PinMismatch | Self::Unavailable | Self::TransportFailed => {
                FailureCategory::ProviderUnavailable
            },
            Self::PolicyDenied | Self::ApprovalDenied => FailureCategory::PolicyDenied,
            Self::ApprovalRequired => FailureCategory::ApprovalRequired,
            Self::ResponseTooLarge | Self::RedirectRejected => FailureCategory::InvalidRequest,
            Self::Timeout => FailureCategory::ProviderTimeout,
            Self::Cancelled | Self::OutcomeUnknown => FailureCategory::OutcomeUnknown,
            Self::ShuttingDown => FailureCategory::InvalidTransition,
            Self::ReapFailed | Self::Internal => FailureCategory::Internal,
        }
    }
}

/// Redacted gateway failure. Never carries secrets, paths, or raw payloads.
#[derive(Clone, Copy, Debug)]
pub struct McpError {
    kind: McpErrorKind,
    message: &'static str,
}

impl McpError {
    /// The category of this failure.
    pub closed spec fn spec_kind(&self) -> McpErrorKind {
        self.kind
    }

    /// The fixed public message of this failure.
    pub closed spec fn spec_message(&self) -> Seq<char> {
        self.message@
    }

    #[must_use]
    pub fn new(kind: McpErrorKind, message: &'static str) -> (r: Self)
        ensures
            r.spec_kind() == kind,
            r.spec_message() == message@,
    {
        Self { kind, message }
    }

    #[must_use]
    pub fn kind(&self) -> (r: McpErrorKind)
        ensures
            r == self.spec_kind(),
    {
        self.kind
    }

    #[must_use]
    pub fn message(&self) -> (r: &'static str)
        ensures
            r@ == self.spec_message(),
    {
        self.message
    }

    #[must_use]
    pub fn failure_category(&self) -> (r: FailureCategory)
        ensures
            r == spec_failure_category(self.spec_kind()),
    {
        self.kind.failure_category()
    }
}

/// The lock pin of an MCP artifact does not match.
pub fn pin_mismatch() -> (r: McpError)
    ensures
        r.spec_kind() == McpErrorKind::PinMismatch,
        r.spec_message() == "MCP artifact pin mismatch"@,
{
    McpError::new(McpErrorKind::PinMismatch, "MCP artifact pin mismatch")
}

/// The MCP server cannot be used.
pub fn unavailable() -> (r: McpError)
    ensures
        r.spec_kind() == McpErrorKind::Unavailable,
        r.spec_message() == "MCP server is unavailable"@,
{
    McpError::new(McpErrorKind::Unavailable, "MCP server is unavailable")
}

/// The effective policy denies the tool.
pub fn policy_denied() -> (r: McpError)
    ensures
        r.spec_kind() == McpErrorKind::PolicyDenied,
        r.spec_message() == "tool denied by policy"@,
{
    McpError::new(McpErrorKind::PolicyDenied, "tool denied by policy")
}

/// The tool needs a human approval first.
pub fn approval_required() -> (r: McpError)
    ensures
        r.spec_kind() == McpErrorKind::ApprovalRequired,
        r.spec_message() == "tool requires human approval"@,
{
    McpError::new(McpErrorKind::ApprovalRequired, "tool requires human approval")
}

/// A human denied the tool.
pub fn approval_denied() -> (r: McpError)
    ensures
        r.spec_kind() == McpErrorKind::ApprovalDenied,
        r.spec_message() == "tool approval was denied"@,
{
    McpError::new(McpErrorKind::ApprovalDenied, "tool approval was denied")
}

/// A response exceeded its size ceiling.
pub fn response_too_large() -> (r: McpError)
    ensures
        r.spec_kind() == McpErrorKind::ResponseTooLarge,
        r.spec_message() == "MCP response exceeded size ceiling"@,
{
    McpError::new(McpErrorKind::ResponseTooLarge, "MCP response exceeded size ceiling")
}

/// A redirect pointed away from the pinned endpoint.
pub fn redirect_rejected() -> (r: McpError)
    ensures
        r.spec_kind() == McpErrorKind::RedirectRejected,
        r.spec_message() == "MCP redirect to unpinned host rejected"@,
{
    McpError::new(McpErrorKind::RedirectRejected, "MCP redirect to unpinned host rejected")
}

/// The transport failed.
pub fn transport_failed() -> (r: McpError)
    ensures
        r.spec_kind() == McpErrorKind::TransportFailed,
        r.spec_message() == "MCP transport failed"@,
{
    McpError::new(McpErrorKind::TransportFailed, "MCP transport failed")
}

/// The gateway refuses new work while shutting down.
pub fn shutting_down() -> (r: McpError)
    ensures
        r.spec_kind() == McpErrorKind::ShuttingDown,
        r.spec_message() == "MCP gateway is shutting down"@,
{
    McpError::new(McpErrorKind::ShuttingDown, "MCP gateway is shutting down")
}

/// A supervised child could not be reaped.
pub fn reap_failed() -> (r: McpError)
    ensures
        r.spec_kind() == McpErrorKind::ReapFailed,
        r.spec_message() == "MCP child could not be reaped"@,
{
    McpError::new(McpErrorKind::ReapFailed, "MCP child could not be reaped")
}

/// A started call has no definite outcome.
pub fn outcome_unknown() -> (r: McpError)
    ensures
        r.spec_kind() == McpErrorKind::OutcomeUnknown,
        r.spec_message() == "MCP call outcome is unknown after start"@,
{
    McpError::new(McpErrorKind::OutcomeUnknown, "MCP call outcome is unknown after start")
}

/// The MCP configuration is invalid.
pub fn invalid_configuration() -> (r: McpError)
    ensures
        r.spec_kind() == McpErrorKind::InvalidConfiguration,
        r.spec_message() == "MCP configuration is invalid"@,
{
    McpError::new(McpErrorKind::InvalidConfiguration, "MCP configuration is invalid")
}

} // verus!
