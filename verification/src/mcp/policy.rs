//! Tool permission modes, how policy layers combine, and the check made
//! before any transport starts.

use vstd::prelude::*;

use crate::mcp::error::{McpError, McpErrorKind, approval_denied, approval_required, policy_denied};

verus! {

/// How freely a tool may run, from least to most strict.
#[derive(Clone, Copy, Debug, PartialEq, Eq, Structural)]
pub enum PermissionMode {
    ReadOnly,
    ApprovalRequired,
    Denied,
}

/// Policy layers, in the order they are applied.
#[derive(Clone, Copy, Debug, PartialEq, Eq, Structural)]
pub enum PolicySource {
    BuiltIn,
    User,
    Repository,
    Session,
    Role,
    Workflow,
    EffectClass,
}

/// An effective mode and the layer that decided it.
#[derive(Clone, Copy, Debug, PartialEq, Eq, Structural)]
pub struct PolicyDecision {
    pub mode: PermissionMode,
    pub authoritative_source: PolicySource,
}

/// When an operation asks for human approval.
#[derive(Clone, Copy, Debug, PartialEq, Eq, Structural)]
pub enum ApprovalMode {
    Never,
    Policy,
    Always,
}

/// Strictness rank of a mode.
pub open spec fn rank(mode: PermissionMode) -> int {
    match mode {
        PermissionMode::ReadOnly => 0,
        PermissionMode::ApprovalRequired => 1,
        PermissionMode::Denied => 2,
    }
}

/// The stricter of two modes.
pub open spec fn stricter(a: PermissionMode, b: PermissionMode) -> PermissionMode {
    if rank(a) >= rank(b) {
        a
    } else {
        b
    }
}

impl PermissionMode {
    /// The stricter of two modes: layers can only narrow what runs.
    pub fn intersect(self, other: Self) -> (r: Self)
        ensures
            r == stricter(self, other),
    {
        let a: u8 = match self {
            PermissionMode::ReadOnly => 0,
            PermissionMode::ApprovalRequired => 1,
            PermissionMode::Denied => 2,
        };
        let b: u8 = match other {
            PermissionMode::ReadOnly => 0,
            PermissionMode::ApprovalRequired => 1,
            PermissionMode::Denied => 2,
        };
        if a >= b {
            self
        } else {
            other
        }
    }
}

/// Intersection is a meet: order does not matter, repeating a layer changes
/// nothing, and the result is at least as strict as each side.
pub proof fn intersection_is_monotonic(a: PermissionMode, b: PermissionMode, c: PermissionMode)
    ensures
        stricter(a, b) == stricter(b, a),
        stricter(stricter(a, b), c) == stricter(a, stricter(b, c)),
        stricter(a, a) == a,
        rank(stricter(a, b)) >= rank(a),
        rank(stricter(a, b)) >= rank(b),
{
}

/// The decision after the operation's approval mode: `Always` forces at
/// least approval, and the effect-class layer then decides.
pub open spec fn with_approval_mode(current: PolicyDecision, mode: ApprovalMode) -> PolicyDecision {
    match mode {
        ApprovalMode::Never | ApprovalMode::Policy => current,
        ApprovalMode::Always => {
            let forced = stricter(current.mode, PermissionMode::ApprovalRequired);
            if forced == current.mode {
                current
            } else {
                PolicyDecision { mode: forced, authoritative_source: PolicySource::EffectClass }
            }
        },
    }
}

/// Applies an operation's approval mode to a decision.
pub fn apply_approval_mode(current: PolicyDecision, mode: ApprovalMode) -> (r: PolicyDecision)
    ensures
        r == with_approval_mode(current, mode),
        rank(r.mode) >= rank(current.mode),
        mode != ApprovalMode::Always ==> r == current,
        mode == ApprovalMode::Always && current.mode == PermissionMode::ReadOnly ==> r == (
        PolicyDecision {
            mode: PermissionMode::ApprovalRequired,
            authoritative_source: PolicySource::EffectClass,
        }),
        mode == ApprovalMode::Always && current.mode != PermissionMode::ReadOnly ==> r == current,
{
    match mode {
        ApprovalMode::Never | ApprovalMode::Policy => current,
        ApprovalMode::Always => {
            let forced = current.mode.intersect(PermissionMode::ApprovalRequired);
            if forced == current.mode {
                current
            } else {
                PolicyDecision { mode: forced, authoritative_source: PolicySource::EffectClass }
            }
        },
    }
}

/// Converts an access decision into a gate result before transport.
///
/// # Errors
///
/// Policy denial, or approval required / denied, without starting
/// transport.
pub fn gate_before_transport(decision: &PolicyDecision, granted: Option<bool>) -> (r: Result<
    (),
    McpError,
>)
    ensures
        decision.mode == PermissionMode::ReadOnly ==> r is Ok,
        decision.mode == PermissionMode::Denied ==> (r matches Err(e) && e.spec_kind()
            == McpErrorKind::PolicyDenied && e.spec_message() == "tool denied by policy"@),
        decision.mode == PermissionMode::ApprovalRequired ==> match granted {
            Some(true) => r is Ok,
            Some(false) => r matches Err(e) && e.spec_kind() == McpErrorKind::ApprovalDenied
                && e.spec_message() == "tool approval was denied"@,
            None => r matches Err(e) && e.spec_kind() == McpErrorKind::ApprovalRequired
                && e.spec_message() == "tool requires human approval"@,
        },
{
    match decision.mode {
        PermissionMode::Denied => Err(policy_denied()),
        PermissionMode::ApprovalRequired => match granted {
            Some(true) => Ok(()),
            Some(false) => Err(approval_denied()),
            None => Err(approval_required()),
        },
        PermissionMode::ReadOnly => Ok(()),
    }
}


/// An approval mode only ever raises a read-only decision to approval:
/// `Never` and `Policy` leave the decision alone; `Always` turns a read-only
/// decision into approval decided by the effect class, and returns a
/// decision that already asks for approval, or denies, unchanged.
pub proof fn approval_mode_only_raises_read_only(current: PolicyDecision, mode: ApprovalMode)
    ensures
        mode != ApprovalMode::Always ==> with_approval_mode(current, mode) == current,
        mode == ApprovalMode::Always && current.mode == PermissionMode::ReadOnly
            ==> with_approval_mode(current, mode) == (PolicyDecision {
            mode: PermissionMode::ApprovalRequired,
            authoritative_source: PolicySource::EffectClass,
        }),
        mode == ApprovalMode::Always && current.mode != PermissionMode::ReadOnly
            ==> with_approval_mode(current, mode) == current,
{
}

} // verus!
