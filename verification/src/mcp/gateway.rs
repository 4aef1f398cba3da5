//! Gateway rules that need no transport: audit facts, the lifecycle a
//! failure is reported with, and diagnostic labels.

use vstd::prelude::*;

use crate::json::JsonValue;
use crate::mcp::error::{McpError, McpErrorKind};
use crate::mcp::pin::McpTransport;
use crate::mcp::policy::{PermissionMode, PolicyDecision, PolicySource, gate_before_transport};
use crate::mcp::redaction::{PublicToolEvent, ToolLifecycle, error_kind_label, policy_source_label};

verus! {

/// Redacted audit fact recorded for a tool attempt.
#[derive(Debug, Clone, PartialEq, Eq)]
pub struct ToolAuditFact {
    pub event: PublicToolEvent,
    pub transport: Option<&'static str>,
}

/// Wire name of an MCP transport.
pub fn transport_name(transport: McpTransport) -> (r: &'static str)
    ensures
        transport == McpTransport::Stdio ==> r@ == "stdio"@,
        transport == McpTransport::Http ==> r@ == "http"@,
{
    match transport {
        McpTransport::Stdio => "stdio",
        McpTransport::Http => "http",
    }
}

/// The layer whose deny stays authoritative when the repository tries to
/// widen it.
pub fn user_deny_authoritative() -> (r: PolicySource)
    ensures
        r == PolicySource::User,
{
    PolicySource::User
}

/// Maps a permission mode for diagnostics.
pub fn permission_label(mode: PermissionMode) -> (r: &'static str)
    ensures
        mode == PermissionMode::ReadOnly ==> r@ == "read-only"@,
        mode == PermissionMode::ApprovalRequired ==> r@ == "approval-required"@,
        mode == PermissionMode::Denied ==> r@ == "denied"@,
{
    match mode {
        PermissionMode::ReadOnly => "read-only",
        PermissionMode::ApprovalRequired => "approval-required",
        PermissionMode::Denied => "denied",
    }
}

/// The lifecycle a gate refusal is published with: a missing approval is
/// reported as such, a denial as denied, anything else as failed.
pub fn gate_refusal_lifecycle(kind: McpErrorKind) -> (r: ToolLifecycle)
    ensures
        kind == McpErrorKind::ApprovalRequired ==> r == ToolLifecycle::ApprovalRequired,
        kind == McpErrorKind::ApprovalDenied || kind == McpErrorKind::PolicyDenied ==> r
            == ToolLifecycle::Denied,
        !(kind == McpErrorKind::ApprovalRequired || kind == McpErrorKind::ApprovalDenied || kind
            == McpErrorKind::PolicyDenied) ==> r == ToolLifecycle::Failed,
{
    match kind {
        McpErrorKind::ApprovalRequired => ToolLifecycle::ApprovalRequired,
        McpErrorKind::ApprovalDenied | McpErrorKind::PolicyDenied => ToolLifecycle::Denied,
        _ => ToolLifecycle::Failed,
    }
}

/// The lifecycle a transport failure is published with: only an unknown
/// outcome stays uncertain, every other failure is definite.
pub fn transport_failure_lifecycle(kind: McpErrorKind) -> (r: ToolLifecycle)
    ensures
        kind == McpErrorKind::OutcomeUnknown ==> r == ToolLifecycle::OutcomeUnknown,
        kind != McpErrorKind::OutcomeUnknown ==> r == ToolLifecycle::Failed,
{
    match kind {
        McpErrorKind::OutcomeUnknown => ToolLifecycle::OutcomeUnknown,
        _ => ToolLifecycle::Failed,
    }
}


/// How a dispatched tool call ends: the public event it is recorded with,
/// and what the caller gets back. A success keeps its content; an unknown
/// outcome is no error but carries no content; any other failure is
/// returned. The event names the tool, attempt and correlation, says `ok`
/// or the failure's message, and for a failure its kind.
pub fn finish_outcome(
    tool_id: String,
    attempt_id: String,
    correlation_id: String,
    content: Result<JsonValue, McpError>,
) -> (r: (PublicToolEvent, Result<Option<JsonValue>, McpError>))
    ensures
        r.0.tool_name@ == tool_id@,
        r.0.attempt_id@ == attempt_id@,
        r.0.correlation_id@ == correlation_id@,
        r.0.policy_source is None,
        match content {
            Ok(v) => {
                &&& r.0.lifecycle == ToolLifecycle::Succeeded
                &&& r.0.outcome@ == "ok"@
                &&& r.0.error_kind is None
                &&& r.1 == Ok::<Option<JsonValue>, McpError>(Some(v))
            },
            Err(e) => {
                &&& r.0.outcome@ == e.spec_message()
                &&& r.0.error_kind matches Some(k) && k@ == error_kind_label(e.spec_kind())
                &&& if e.spec_kind() == McpErrorKind::OutcomeUnknown {
                    r.0.lifecycle == ToolLifecycle::OutcomeUnknown && r.1 == Ok::<
                        Option<JsonValue>,
                        McpError,
                    >(None)
                } else {
                    r.0.lifecycle == ToolLifecycle::Failed && r.1 == Err::<
                        Option<JsonValue>,
                        McpError,
                    >(e)
                }
            },
        },
{
    match content {
        Ok(value) => {
            let public = PublicToolEvent::new(
                tool_id,
                ToolLifecycle::Succeeded,
                "ok".to_owned(),
                attempt_id,
                correlation_id,
            );
            (public, Ok(Some(value)))
        },
        Err(error) => {
            let kind = error.kind();
            let public = PublicToolEvent::new(
                tool_id,
                transport_failure_lifecycle(kind),
                error.message().to_owned(),
                attempt_id,
                correlation_id,
            ).with_error_kind(kind);
            if kind == McpErrorKind::OutcomeUnknown {
                (public, Ok(None))
            } else {
                (public, Err(error))
            }
        },
    }
}


/// The lifecycle a gate refusal of `kind` is published with.
pub open spec fn refusal_lifecycle(kind: McpErrorKind) -> ToolLifecycle {
    if kind == McpErrorKind::ApprovalRequired {
        ToolLifecycle::ApprovalRequired
    } else if kind == McpErrorKind::ApprovalDenied || kind == McpErrorKind::PolicyDenied {
        ToolLifecycle::Denied
    } else {
        ToolLifecycle::Failed
    }
}

/// An audit fact naming the call, with no transport.
pub open spec fn names_call(
    fact: ToolAuditFact,
    tool_id: Seq<char>,
    attempt_id: Seq<char>,
    correlation_id: Seq<char>,
    source: PolicySource,
) -> bool {
    &&& fact.transport is None
    &&& fact.event.tool_name@ == tool_id
    &&& fact.event.attempt_id@ == attempt_id
    &&& fact.event.correlation_id@ == correlation_id
    &&& fact.event.policy_source matches Some(p) && p@ == policy_source_label(source)
}

/// Audits a tool call before any transport starts: a planned fact, then,
/// when the policy gate refuses, a fact that names the refusal. The
/// gate's decision comes back beside the facts.
pub fn gate_invocation(
    tool_id: &str,
    attempt_id: &str,
    correlation_id: &str,
    decision: &PolicyDecision,
    granted: Option<bool>,
) -> (r: (Vec<ToolAuditFact>, Result<(), McpError>))
    ensures
        r.0@.len() >= 1,
        names_call(r.0@[0], tool_id@, attempt_id@, correlation_id@, decision.authoritative_source),
        r.0@[0].event.lifecycle == ToolLifecycle::Planned,
        r.0@[0].event.outcome@ == "planned"@,
        r.0@[0].event.error_kind is None,
        match r.1 {
            Ok(()) => r.0@.len() == 1,
            Err(e) => {
                &&& r.0@.len() == 2
                &&& names_call(
                    r.0@[1],
                    tool_id@,
                    attempt_id@,
                    correlation_id@,
                    decision.authoritative_source,
                )
                &&& r.0@[1].event.lifecycle == refusal_lifecycle(e.spec_kind())
                &&& r.0@[1].event.outcome@ == e.spec_message()
                &&& r.0@[1].event.error_kind matches Some(k) && k@ == error_kind_label(e.spec_kind())
            },
        },
        decision.mode == PermissionMode::ReadOnly ==> r.1 is Ok,
        decision.mode == PermissionMode::Denied ==> (r.1 matches Err(e) && e.spec_kind()
            == McpErrorKind::PolicyDenied),
        decision.mode == PermissionMode::ApprovalRequired ==> match granted {
            Some(true) => r.1 is Ok,
            Some(false) => r.1 matches Err(e) && e.spec_kind() == McpErrorKind::ApprovalDenied,
            None => r.1 matches Err(e) && e.spec_kind() == McpErrorKind::ApprovalRequired,
        },
{
    let mut facts: Vec<ToolAuditFact> = Vec::new();
    let planned = PublicToolEvent::new(
        tool_id.to_owned(),
        ToolLifecycle::Planned,
        "planned".to_owned(),
        attempt_id.to_owned(),
        correlation_id.to_owned(),
    ).with_policy_source(decision.authoritative_source);
    facts.push(ToolAuditFact { event: planned, transport: None });
    let gate = gate_before_transport(decision, granted);
    match gate {
        Ok(()) => (facts, Ok(())),
        Err(error) => {
            let kind = error.kind();
            let refused = PublicToolEvent::new(
                tool_id.to_owned(),
                gate_refusal_lifecycle(kind),
                error.message().to_owned(),
                attempt_id.to_owned(),
                correlation_id.to_owned(),
            ).with_policy_source(decision.authoritative_source).with_error_kind(kind);
            facts.push(ToolAuditFact { event: refused, transport: None });
            (facts, Err(error))
        },
    }
}

} // verus!
