//! Public tool event redaction helpers.

use vstd::prelude::*;

use crate::json::JsonValue;
use crate::mcp::error::McpErrorKind;
use crate::mcp::policy::PolicySource;
use crate::text::{chars_of, contains_seq, find_exec, str_eq};

verus! {

/// Bounded lifecycle categories exposed on the public protocol.
#[derive(Debug, Clone, Copy, PartialEq, Eq, Structural)]
pub enum ToolLifecycle {
    Planned,
    Allowed,
    Denied,
    ApprovalRequired,
    Approved,
    Started,
    Succeeded,
    Failed,
    Cancelled,
    OutcomeUnknown,
}

/// Redacted public tool event payload: no arguments, results, paths or
/// secrets, only labels and identifiers.
#[derive(Debug, Clone, PartialEq, Eq)]
pub struct PublicToolEvent {
    pub tool_name: String,
    pub lifecycle: ToolLifecycle,
    pub outcome: String,
    pub attempt_id: String,
    pub correlation_id: String,
    pub policy_source: Option<String>,
    pub error_kind: Option<String>,
}

/// Public name of a policy source.
pub open spec fn policy_source_label(source: PolicySource) -> Seq<char> {
    match source {
        PolicySource::BuiltIn => "built_in"@,
        PolicySource::User => "user"@,
        PolicySource::Repository => "repository"@,
        PolicySource::Session => "session"@,
        PolicySource::Role => "role"@,
        PolicySource::Workflow => "workflow"@,
        PolicySource::EffectClass => "effect_class"@,
    }
}

/// Public name of an MCP failure kind.
pub open spec fn error_kind_label(kind: McpErrorKind) -> Seq<char> {
    match kind {
        McpErrorKind::InvalidConfiguration => "invalid_configuration"@,
        McpErrorKind::PinMismatch => "pin_mismatch"@,
        McpErrorKind::Unavailable => "unavailable"@,
        McpErrorKind::PolicyDenied => "policy_denied"@,
        McpErrorKind::ApprovalRequired => "approval_required"@,
        McpErrorKind::ApprovalDenied => "approval_denied"@,
        McpErrorKind::TransportFailed => "transport_failed"@,
        McpErrorKind::ResponseTooLarge => "response_too_large"@,
        McpErrorKind::RedirectRejected => "redirect_rejected"@,
        McpErrorKind::Timeout => "timeout"@,
        McpErrorKind::Cancelled => "cancelled"@,
        McpErrorKind::OutcomeUnknown => "outcome_unknown"@,
        McpErrorKind::ShuttingDown => "shutting_down"@,
        McpErrorKind::ReapFailed => "reap_failed"@,
        McpErrorKind::Internal => "internal"@,
    }
}

fn policy_source_name(source: PolicySource) -> (r: &'static str)
    ensures
        r@ == policy_source_label(source),
{
    match source {
        PolicySource::BuiltIn => "built_in",
        PolicySource::User => "user",
        PolicySource::Repository => "repository",
        PolicySource::Session => "session",
        PolicySource::Role => "role",
        PolicySource::Workflow => "workflow",
        PolicySource::EffectClass => "effect_class",
    }
}

fn error_kind_name(kind: McpErrorKind) -> (r: &'static str)
    ensures
        r@ == error_kind_label(kind),
{
    match kind {
        McpErrorKind::InvalidConfiguration => "invalid_configuration",
        McpErrorKind::PinMismatch => "pin_mismatch",
        McpErrorKind::Unavailable => "unavailable",
        McpErrorKind::PolicyDenied => "policy_denied",
        McpErrorKind::ApprovalRequired => "approval_required",
        McpErrorKind::ApprovalDenied => "approval_denied",
        McpErrorKind::TransportFailed => "transport_failed",
        McpErrorKind::ResponseTooLarge => "response_too_large",
        McpErrorKind::RedirectRejected => "redirect_rejected",
        McpErrorKind::Timeout => "timeout",
        McpErrorKind::Cancelled => "cancelled",
        McpErrorKind::OutcomeUnknown => "outcome_unknown",
        McpErrorKind::ShuttingDown => "shutting_down",
        McpErrorKind::ReapFailed => "reap_failed",
        McpErrorKind::Internal => "internal",
    }
}

impl PublicToolEvent {
    /// An event without policy source or error kind.
    pub fn new(
        tool_name: String,
        lifecycle: ToolLifecycle,
        outcome: String,
        attempt_id: String,
        correlation_id: String,
    ) -> (r: Self)
        ensures
            r.tool_name@ == tool_name@,
            r.lifecycle == lifecycle,
            r.outcome@ == outcome@,
            r.attempt_id@ == attempt_id@,
            r.correlation_id@ == correlation_id@,
            r.policy_source is None,
            r.error_kind is None,
    {
        Self {
            tool_name,
            lifecycle,
            outcome,
            attempt_id,
            correlation_id,
            policy_source: None,
            error_kind: None,
        }
    }

    /// The same event naming the authoritative policy source.
    pub fn with_policy_source(self, source: PolicySource) -> (r: Self)
        ensures
            r.policy_source matches Some(s) && s@ == policy_source_label(source),
            r.tool_name == self.tool_name,
            r.lifecycle == self.lifecycle,
            r.outcome == self.outcome,
            r.attempt_id == self.attempt_id,
            r.correlation_id == self.correlation_id,
            r.error_kind == self.error_kind,
    {
        let mut event = self;
        event.policy_source = Some(policy_source_name(source).to_owned());
        event
    }

    /// The same event naming the failure kind.
    pub fn with_error_kind(self, kind: McpErrorKind) -> (r: Self)
        ensures
            r.error_kind matches Some(s) && s@ == error_kind_label(kind),
            r.tool_name == self.tool_name,
            r.lifecycle == self.lifecycle,
            r.outcome == self.outcome,
            r.attempt_id == self.attempt_id,
            r.correlation_id == self.correlation_id,
            r.policy_source == self.policy_source,
    {
        let mut event = self;
        event.error_kind = Some(error_kind_name(kind).to_owned());
        event
    }
}

/// Whether any forbidden marker appears in a public surface string.
pub fn contains_marker(surface: &str, markers: &[&str]) -> (r: bool)
    ensures
        r == exists|i: int| 0 <= i < markers@.len() && contains_seq(surface@, #[trigger] markers@[i]@),
{
    let text = chars_of(surface);
    let n = markers.len();
    let mut i: usize = 0;
    while i < n
        invariant
            n == markers@.len(),
            i <= n,
            text@ == surface@,
            forall|j: int| 0 <= j < i ==> !contains_seq(surface@, #[trigger] markers@[j]@),
        decreases n - i,
    {
        if find_exec(&text, &chars_of(markers[i])).is_some() {
            return true;
        }
        i += 1;
    }
    false
}

/// Object keys whose values never leave a diagnostic tree unredacted.
pub open spec fn is_sensitive_key(key: Seq<char>) -> bool {
    ||| key == "arguments"@
    ||| key == "result"@
    ||| key == "env"@
    ||| key == "headers"@
    ||| key == "executable"@
    ||| key == "url"@
    ||| key == "token"@
    ||| key == "password"@
    ||| key == "secret"@
    ||| key == "credential"@
    ||| key == "credential_ref"@
}

/// The text that stands in place of a redacted value.
pub open spec fn redacted_marker() -> Seq<char> {
    "[redacted]"@
}

/// Whether a value is the redaction marker.
pub open spec fn is_redacted(v: JsonValue) -> bool {
    v matches JsonValue::Text(s) && s@ == redacted_marker()
}

/// `after` is `before` with every member under a sensitive key replaced by
/// the marker, at every depth; all else, keys and order included, is kept.
pub open spec fn scrubbed_from(before: JsonValue, after: JsonValue) -> bool
    decreases before,
{
    match before {
        JsonValue::Object(members) => after matches JsonValue::Object(out) && out@.len()
            == members@.len() && forall|i: int|
            0 <= i < members@.len() ==> {
                &&& (#[trigger] out@[i]).0 == members@[i].0
                &&& if is_sensitive_key(members@[i].0@) {
                    is_redacted(out@[i].1)
                } else {
                    scrubbed_from(members@[i].1, out@[i].1)
                }
            },
        JsonValue::Array(items) => after matches JsonValue::Array(out) && out@.len()
            == items@.len() && forall|i: int|
            0 <= i < items@.len() ==> scrubbed_from(items@[i], #[trigger] out@[i]),
        _ => after == before,
    }
}

/// No member under a sensitive key, at any depth, holds anything but the
/// marker.
pub open spec fn leaks_nothing(v: JsonValue) -> bool
    decreases v,
{
    match v {
        JsonValue::Object(members) => forall|i: int|
            0 <= i < members@.len() ==> if is_sensitive_key((#[trigger] members@[i]).0@) {
                is_redacted(members@[i].1)
            } else {
                leaks_nothing(members@[i].1)
            },
        JsonValue::Array(items) => forall|i: int|
            0 <= i < items@.len() ==> leaks_nothing(#[trigger] items@[i]),
        _ => true,
    }
}

fn is_sensitive(key: &str) -> (r: bool)
    ensures
        r == is_sensitive_key(key@),
{
    str_eq(key, "arguments") || str_eq(key, "result") || str_eq(key, "env") || str_eq(key, "headers")
        || str_eq(key, "executable") || str_eq(key, "url") || str_eq(key, "token") || str_eq(
        key,
        "password",
    ) || str_eq(key, "secret") || str_eq(key, "credential") || str_eq(key, "credential_ref")
}

fn scrubbed(value: &JsonValue) -> (r: JsonValue)
    ensures
        scrubbed_from(*value, r),
    decreases value,
{
    match value {
        JsonValue::Null => JsonValue::Null,
        JsonValue::Bool(flag) => JsonValue::Bool(*flag),
        JsonValue::Number(text) => JsonValue::Number(text.clone()),
        JsonValue::Text(text) => JsonValue::Text(text.clone()),
        JsonValue::Array(items) => {
            let mut out: Vec<JsonValue> = Vec::new();
            let n = items.len();
            let mut i: usize = 0;
            while i < n
                invariant
                    *value == JsonValue::Array(*items),
                    n == items@.len(),
                    i <= n,
                    out@.len() == i,
                    forall|j: int| 0 <= j < i ==> scrubbed_from(items@[j], #[trigger] out@[j]),
                decreases n - i,
            {
                proof {
                    vstd::std_specs::vec::axiom_vec_index_decreases(*items, i as int);
                    assert(decreases_to!(*value => (*value)->Array_0));
                    assert(decreases_to!(*value => items[i as int]));
                }
                out.push(scrubbed(&items[i]));
                i += 1;
            }
            JsonValue::Array(out)
        },
        JsonValue::Object(members) => {
            let mut out: Vec<(String, JsonValue)> = Vec::new();
            let n = members.len();
            let mut i: usize = 0;
            while i < n
                invariant
                    *value == JsonValue::Object(*members),
                    n == members@.len(),
                    i <= n,
                    out@.len() == i,
                    forall|j: int|
                        0 <= j < i ==> {
                            &&& (#[trigger] out@[j]).0 == members@[j].0
                            &&& if is_sensitive_key(members@[j].0@) {
                                is_redacted(out@[j].1)
                            } else {
                                scrubbed_from(members@[j].1, out@[j].1)
                            }
                        },
                decreases n - i,
            {
                let key = members[i].0.clone();
                if is_sensitive(key.as_str()) {
                    out.push((key, JsonValue::Text("[redacted]".to_owned())));
                } else {
                    proof {
                        vstd::std_specs::vec::axiom_vec_index_decreases(*members, i as int);
                        assert(decreases_to!(*value => (*value)->Object_0));
                        assert(decreases_to!(members[i as int] => members[i as int].1));
                        assert(decreases_to!(*value => members[i as int].1));
                    }
                    out.push((key, scrubbed(&members[i].1)));
                }
                i += 1;
            }
            JsonValue::Object(out)
        },
    }
}

/// Scrubs known sensitive object keys from a diagnostic value tree.
pub fn scrub_value(value: &mut JsonValue)
    ensures
        scrubbed_from(*old(value), *final(value)),
{
    let out = scrubbed(value);
    *value = out;
}

/// A scrubbed tree leaks nothing under a sensitive key.
pub proof fn scrubbing_leaks_nothing(before: JsonValue, after: JsonValue)
    requires
        scrubbed_from(before, after),
    ensures
        leaks_nothing(after),
    decreases before,
{
    match before {
        JsonValue::Object(members) => {
            let out = after->Object_0;
            assert forall|i: int| 0 <= i < out@.len() implies if is_sensitive_key(
                (#[trigger] out@[i]).0@,
            ) {
                is_redacted(out@[i].1)
            } else {
                leaks_nothing(out@[i].1)
            } by {
                assert(out@[i].0 == members@[i].0);
                if !is_sensitive_key(members@[i].0@) {
                    assert(decreases_to!(before => members@[i].1));
                    scrubbing_leaks_nothing(members@[i].1, out@[i].1);
                }
            }
        },
        JsonValue::Array(items) => {
            let out = after->Array_0;
            assert forall|i: int| 0 <= i < out@.len() implies leaks_nothing(#[trigger] out@[i]) by {
                assert(decreases_to!(before => items@[i]));
                scrubbing_leaks_nothing(items@[i], out@[i]);
            }
        },
        _ => {},
    }
}

/// Scrubbing a tree that leaks nothing gives the same tree back.
pub proof fn scrubbing_is_idempotent(value: JsonValue)
    requires
        leaks_nothing(value),
    ensures
        scrubbed_from(value, value),
    decreases value,
{
    match value {
        JsonValue::Object(members) => {
            assert forall|i: int| 0 <= i < members@.len() implies {
                &&& (#[trigger] members@[i]).0 == members@[i].0
                &&& if is_sensitive_key(members@[i].0@) {
                    is_redacted(members@[i].1)
                } else {
                    scrubbed_from(members@[i].1, members@[i].1)
                }
            } by {
                if !is_sensitive_key(members@[i].0@) {
                    assert(decreases_to!(value => members@[i].1));
                    scrubbing_is_idempotent(members@[i].1);
                }
            }
        },
        JsonValue::Array(items) => {
            assert forall|i: int| 0 <= i < items@.len() implies scrubbed_from(
                items@[i],
                #[trigger] items@[i],
            ) by {
                assert(decreases_to!(value => items@[i]));
                scrubbing_is_idempotent(items@[i]);
            }
        },
        _ => {},
    }
}


/// No two failure kinds share a public name: a tool event's error kind is
/// read back without ambiguity.
pub proof fn error_kind_labels_distinct(a: McpErrorKind, b: McpErrorKind)
    ensures
        error_kind_label(a) == error_kind_label(b) ==> a == b,
{
    reveal_strlit("invalid_configuration");
    reveal_strlit("pin_mismatch");
    reveal_strlit("unavailable");
    reveal_strlit("policy_denied");
    reveal_strlit("approval_required");
    reveal_strlit("approval_denied");
    reveal_strlit("transport_failed");
    reveal_strlit("response_too_large");
    reveal_strlit("redirect_rejected");
    reveal_strlit("timeout");
    reveal_strlit("cancelled");
    reveal_strlit("outcome_unknown");
    reveal_strlit("shutting_down");
    reveal_strlit("reap_failed");
    reveal_strlit("internal");
    let lb = error_kind_label(b);
    match a {
        McpErrorKind::InvalidConfiguration => if lb == error_kind_label(a) {
            assert(lb.len() == 21 && lb[0] == 'i' && lb[1] == 'n' && lb[2] == 'v' && lb[3] == 'a' && lb[4] == 'l' && lb[5] == 'i' && lb[6] == 'd' && lb[7] == '_' && lb[8] == 'c' && lb[9] == 'o' && lb[10] == 'n' && lb[11] == 'f' && lb[12] == 'i' && lb[13] == 'g' && lb[14] == 'u' && lb[15] == 'r' && lb[16] == 'a' && lb[17] == 't' && lb[18] == 'i' && lb[19] == 'o' && lb[20] == 'n');
        },
        McpErrorKind::PinMismatch => if lb == error_kind_label(a) {
            assert(lb.len() == 12 && lb[0] == 'p' && lb[1] == 'i' && lb[2] == 'n' && lb[3] == '_' && lb[4] == 'm' && lb[5] == 'i' && lb[6] == 's' && lb[7] == 'm' && lb[8] == 'a' && lb[9] == 't' && lb[10] == 'c' && lb[11] == 'h');
        },
        McpErrorKind::Unavailable => if lb == error_kind_label(a) {
            assert(lb.len() == 11 && lb[0] == 'u' && lb[1] == 'n' && lb[2] == 'a' && lb[3] == 'v' && lb[4] == 'a' && lb[5] == 'i' && lb[6] == 'l' && lb[7] == 'a' && lb[8] == 'b' && lb[9] == 'l' && lb[10] == 'e');
        },
        McpErrorKind::PolicyDenied => if lb == error_kind_label(a) {
            assert(lb.len() == 13 && lb[0] == 'p' && lb[1] == 'o' && lb[2] == 'l' && lb[3] == 'i' && lb[4] == 'c' && lb[5] == 'y' && lb[6] == '_' && lb[7] == 'd' && lb[8] == 'e' && lb[9] == 'n' && lb[10] == 'i' && lb[11] == 'e' && lb[12] == 'd');
        },
        McpErrorKind::ApprovalRequired => if lb == error_kind_label(a) {
            assert(lb.len() == 17 && lb[0] == 'a' && lb[1] == 'p' && lb[2] == 'p' && lb[3] == 'r' && lb[4] == 'o' && lb[5] == 'v' && lb[6] == 'a' && lb[7] == 'l' && lb[8] == '_' && lb[9] == 'r' && lb[10] == 'e' && lb[11] == 'q' && lb[12] == 'u' && lb[13] == 'i' && lb[14] == 'r' && lb[15] == 'e' && lb[16] == 'd');
        },
        McpErrorKind::ApprovalDenied => if lb == error_kind_label(a) {
            assert(lb.len() == 15 && lb[0] == 'a' && lb[1] == 'p' && lb[2] == 'p' && lb[3] == 'r' && lb[4] == 'o' && lb[5] == 'v' && lb[6] == 'a' && lb[7] == 'l' && lb[8] == '_' && lb[9] == 'd' && lb[10] == 'e' && lb[11] == 'n' && lb[12] == 'i' && lb[13] == 'e' && lb[14] == 'd');
        },
        McpErrorKind::TransportFailed => if lb == error_kind_label(a) {
            assert(lb.len() == 16 && lb[0] == 't' && lb[1] == 'r' && lb[2] == 'a' && lb[3] == 'n' && lb[4] == 's' && lb[5] == 'p' && lb[6] == 'o' && lb[7] == 'r' && lb[8] == 't' && lb[9] == '_' && lb[10] == 'f' && lb[11] == 'a' && lb[12] == 'i' && lb[13] == 'l' && lb[14] == 'e' && lb[15] == 'd');
        },
        McpErrorKind::ResponseTooLarge => if lb == error_kind_label(a) {
            assert(lb.len() == 18 && lb[0] == 'r' && lb[1] == 'e' && lb[2] == 's' && lb[3] == 'p' && lb[4] == 'o' && lb[5] == 'n' && lb[6] == 's' && lb[7] == 'e' && lb[8] == '_' && lb[9] == 't' && lb[10] == 'o' && lb[11] == 'o' && lb[12] == '_' && lb[13] == 'l' && lb[14] == 'a' && lb[15] == 'r' && lb[16] == 'g' && lb[17] == 'e');
        },
        McpErrorKind::RedirectRejected => if lb == error_kind_label(a) {
            assert(lb.len() == 17 && lb[0] == 'r' && lb[1] == 'e' && lb[2] == 'd' && lb[3] == 'i' && lb[4] == 'r' && lb[5] == 'e' && lb[6] == 'c' && lb[7] == 't' && lb[8] == '_' && lb[9] == 'r' && lb[10] == 'e' && lb[11] == 'j' && lb[12] == 'e' && lb[13] == 'c' && lb[14] == 't' && lb[15] == 'e' && lb[16] == 'd');
        },
        McpErrorKind::Timeout => if lb == error_kind_label(a) {
            assert(lb.len() == 7 && lb[0] == 't' && lb[1] == 'i' && lb[2] == 'm' && lb[3] == 'e' && lb[4] == 'o' && lb[5] == 'u' && lb[6] == 't');
        },
        McpErrorKind::Cancelled => if lb == error_kind_label(a) {
            assert(lb.len() == 9 && lb[0] == 'c' && lb[1] == 'a' && lb[2] == 'n' && lb[3] == 'c' && lb[4] == 'e' && lb[5] == 'l' && lb[6] == 'l' && lb[7] == 'e' && lb[8] == 'd');
        },
        McpErrorKind::OutcomeUnknown => if lb == error_kind_label(a) {
            assert(lb.len() == 15 && lb[0] == 'o' && lb[1] == 'u' && lb[2] == 't' && lb[3] == 'c' && lb[4] == 'o' && lb[5] == 'm' && lb[6] == 'e' && lb[7] == '_' && lb[8] == 'u' && lb[9] == 'n' && lb[10] == 'k' && lb[11] == 'n' && lb[12] == 'o' && lb[13] == 'w' && lb[14] == 'n');
        },
        McpErrorKind::ShuttingDown => if lb == error_kind_label(a) {
            assert(lb.len() == 13 && lb[0] == 's' && lb[1] == 'h' && lb[2] == 'u' && lb[3] == 't' && lb[4] == 't' && lb[5] == 'i' && lb[6] == 'n' && lb[7] == 'g' && lb[8] == '_' && lb[9] == 'd' && lb[10] == 'o' && lb[11] == 'w' && lb[12] == 'n');
        },
        McpErrorKind::ReapFailed => if lb == error_kind_label(a) {
            assert(lb.len() == 11 && lb[0] == 'r' && lb[1] == 'e' && lb[2] == 'a' && lb[3] == 'p' && lb[4] == '_' && lb[5] == 'f' && lb[6] == 'a' && lb[7] == 'i' && lb[8] == 'l' && lb[9] == 'e' && lb[10] == 'd');
        },
        McpErrorKind::Internal => if lb == error_kind_label(a) {
            assert(lb.len() == 8 && lb[0] == 'i' && lb[1] == 'n' && lb[2] == 't' && lb[3] == 'e' && lb[4] == 'r' && lb[5] == 'n' && lb[6] == 'a' && lb[7] == 'l');
        },
    }
}

} // verus!
