//! Workflow step rules: findings detection, step tool allowlists, step
//! iteration bounds and the closed phase names.

use vstd::prelude::*;

use crate::daemon::session::{
    PersistedEvent, first_match, last_match, lemma_first_match, lemma_last_match, of_kind,
};
use crate::protocol::command::texts;
use crate::text::{chars_of, contains_seq, find_exec, str_eq};

verus! {

/// Explicit findings marker accepted from offline fakes and supervised
/// adapters.
pub const FINDINGS_MARKER: &'static str = "findings_present=true";

/// Detects the explicit findings signal in step output.
pub fn content_has_findings(content: &str) -> (r: bool)
    ensures
        r == contains_seq(content@, FINDINGS_MARKER@),
{
    find_exec(&chars_of(content), &chars_of(FINDINGS_MARKER)).is_some()
}

/// The role's tools that a step allowlist keeps: all of them when the step
/// lists none, otherwise those the step also lists, in the role's order.
pub open spec fn step_tools_spec(role_tools: Seq<Seq<char>>, step_tools: Seq<Seq<char>>) -> Seq<
    Seq<char>,
> {
    if step_tools.len() == 0 {
        role_tools
    } else {
        role_tools.filter(|tool: Seq<char>| step_tools.contains(tool))
    }
}

/// Whether `v` holds a string with the text `s`.
fn holds_text(v: &[String], s: &str) -> (r: bool)
    ensures
        r == texts(v@).contains(s@),
{
    let n = v.len();
    let mut i: usize = 0;
    while i < n
        invariant
            n == v@.len(),
            i <= n,
            forall|k: int| 0 <= k < i ==> v@[k]@ != s@,
        decreases n - i,
    {
        if str_eq(v[i].as_str(), s) {
            assert(texts(v@)[i as int] == s@);
            return true;
        }
        i += 1;
    }
    assert forall|k: int| 0 <= k < texts(v@).len() implies texts(v@)[k] != s@ by {
        assert(texts(v@)[k] == v@[k]@);
    }
    false
}

/// Intersects a role's tools with an optional step allowlist.
pub fn effective_step_tools(role_tools: &[String], step_tools: &[String]) -> (r: Vec<String>)
    ensures
        texts(r@) == step_tools_spec(texts(role_tools@), texts(step_tools@)),
{
    let ghost role = texts(role_tools@);
    let ghost step = texts(step_tools@);
    let ghost keep = |tool: Seq<char>| step.contains(tool);
    let n = role_tools.len();
    let mut out: Vec<String> = Vec::new();
    let mut i: usize = 0;
    let all = step_tools.len() == 0;
    while i < n
        invariant
            n == role_tools@.len(),
            i <= n,
            role == texts(role_tools@),
            step == texts(step_tools@),
            keep == (|tool: Seq<char>| step.contains(tool)),
            all == (step_tools@.len() == 0),
            all ==> texts(out@) == role.take(i as int),
            !all ==> texts(out@) == role.take(i as int).filter(keep),
        decreases n - i,
    {
        let tool = &role_tools[i];
        let ghost before = texts(out@);
        assert(role.take(i + 1).drop_last() =~= role.take(i as int));
        assert(role.take(i + 1).last() == tool@);
        proof {
            reveal_with_fuel(Seq::filter, 1);
        }
        if all || holds_text(step_tools, tool.as_str()) {
            out.push(tool.clone());
            assert(texts(out@) =~= before.push(tool@));
        } else {
            assert(texts(out@) =~= before);
        }
        i += 1;
    }
    assert(role.take(n as int) =~= role);
    out
}

/// Effective `max_iterations` of a step: the configured value, 1 when
/// absent, clamped to `1..=8`.
pub fn step_max_iterations(max_iterations: Option<u32>) -> (r: u32)
    ensures
        r == match max_iterations {
            None => 1,
            Some(n) => if n < 1 {
                1
            } else if n > 8 {
                8
            } else {
                n
            },
        },
{
    let n = match max_iterations {
        Some(n) => n,
        None => 1,
    };
    if n < 1 {
        1
    } else if n > 8 {
        8
    } else {
        n
    }
}

/// Position of the step a findings target names, among the step ids.
pub fn findings_step_index(step_ids: &[String], target: Option<&str>) -> (r: Option<usize>)
    ensures
        match target {
            None => r is None,
            Some(t) => match r {
                Some(i) => i < step_ids@.len() && step_ids@[i as int]@ == t@ && forall|k: int|
                    0 <= k < i ==> step_ids@[k]@ != t@,
                None => !texts(step_ids@).contains(t@),
            },
        },
{
    let wanted = match target {
        Some(t) => t,
        None => return None,
    };
    let n = step_ids.len();
    let mut i: usize = 0;
    while i < n
        invariant
            n == step_ids@.len(),
            i <= n,
            target == Some(wanted),
            forall|k: int| 0 <= k < i ==> step_ids@[k]@ != wanted@,
        decreases n - i,
    {
        if str_eq(step_ids[i].as_str(), wanted) {
            return Some(i);
        }
        i += 1;
    }
    assert forall|k: int| 0 <= k < texts(step_ids@).len() implies texts(step_ids@)[k]
        != wanted@ by {
        assert(texts(step_ids@)[k] == step_ids@[k]@);
    }
    None
}

/// Phases of a workflow run.
#[derive(Clone, Copy, Debug, PartialEq, Eq, Structural)]
pub enum WorkflowPhase {
    Planned,
    Running,
    Paused,
    AwaitingHuman,
    Completed,
    Cancelled,
    Failed,
}

/// Wire and storage name of a phase.
pub open spec fn phase_label(phase: WorkflowPhase) -> Seq<char> {
    match phase {
        WorkflowPhase::Planned => "planned"@,
        WorkflowPhase::Running => "running"@,
        WorkflowPhase::Paused => "paused"@,
        WorkflowPhase::AwaitingHuman => "awaiting_human"@,
        WorkflowPhase::Completed => "completed"@,
        WorkflowPhase::Cancelled => "cancelled"@,
        WorkflowPhase::Failed => "failed"@,
    }
}

/// Serializes the closed phase set for wire and storage.
pub fn phase_name(phase: WorkflowPhase) -> (r: &'static str)
    ensures
        r@ == phase_label(phase),
{
    match phase {
        WorkflowPhase::Planned => "planned",
        WorkflowPhase::Running => "running",
        WorkflowPhase::Paused => "paused",
        WorkflowPhase::AwaitingHuman => "awaiting_human",
        WorkflowPhase::Completed => "completed",
        WorkflowPhase::Cancelled => "cancelled",
        WorkflowPhase::Failed => "failed",
    }
}


/// The workflow a session was created for: the `workflow_id` member of its
/// first `session_created` event, when it is a string.
pub open spec fn pinned_workflow(h: Seq<PersistedEvent>) -> Option<Seq<char>> {
    match first_match(h, of_kind("session_created"@)) {
        Some(i) => h[i].payload.member_text("workflow_id"@),
        None => None,
    }
}

/// A `session_redirected` event that carries its instruction as a string.
pub open spec fn redirect_with_instruction() -> spec_fn(PersistedEvent) -> bool {
    |e: PersistedEvent| e.kind@ == "session_redirected"@ && e.payload.member_text("instruction"@) is Some
}

/// The instruction of the latest redirect that carries one.
pub open spec fn latest_instruction(h: Seq<PersistedEvent>) -> Option<Seq<char>> {
    match last_match(h, redirect_with_instruction()) {
        Some(i) => h[i].payload.member_text("instruction"@),
        None => None,
    }
}

/// Reads the optional workflow id pinned on session creation.
pub fn session_workflow_id(history: &[PersistedEvent]) -> (r: Option<String>)
    ensures
        match pinned_workflow(history@) {
            Some(w) => r matches Some(s) && s@ == w,
            None => r is None,
        },
{
    let ghost h = history@;
    proof {
        lemma_first_match(h, of_kind("session_created"@));
    }
    let n = history.len();
    let mut i: usize = 0;
    while i < n
        invariant
            h == history@,
            match first_match(h, of_kind("session_created"@)) {
                Some(k) => 0 <= k < h.len() && (of_kind("session_created"@))(h[k]) && forall|j: int|
                    0 <= j < k ==> !(of_kind("session_created"@))(#[trigger] h[j]),
                None => forall|j: int| 0 <= j < h.len() ==> !(of_kind("session_created"@))(#[trigger] h[j]),
            },
            n == h.len(),
            i <= n,
            forall|j: int| 0 <= j < i ==> !(of_kind("session_created"@))(#[trigger] h[j]),
        decreases n - i,
    {
        if str_eq(history[i].kind.as_str(), "session_created") {
            proof {
                assert((of_kind("session_created"@))(h[i as int]));
                match first_match(h, of_kind("session_created"@)) {
                    Some(k) => {
                        if k < i {
                            assert(!(of_kind("session_created"@))(h[k]));
                        } else if k > i {
                            assert(!(of_kind("session_created"@))(h[i as int]));
                        }
                    },
                    None => {
                        assert(!(of_kind("session_created"@))(h[i as int]));
                    },
                }
            }
            return match history[i].payload.member("workflow_id") {
                Some(member) => match member.as_text() {
                    Some(text) => Some(text.to_owned()),
                    None => None,
                },
                None => None,
            };
        }
        i += 1;
    }
    proof {
        if let Some(k) = first_match(h, of_kind("session_created"@)) {
            assert(!(of_kind("session_created"@))(h[k]));
        }
    }
    None
}

/// Collects the latest redirect instruction for the next dispatch.
pub fn latest_redirect_instruction(history: &[PersistedEvent]) -> (r: Option<String>)
    ensures
        match latest_instruction(history@) {
            Some(t) => r matches Some(s) && s@ == t,
            None => r is None,
        },
{
    let ghost h = history@;
    let ghost p = redirect_with_instruction();
    proof {
        lemma_last_match(h, p);
    }
    let mut i: usize = history.len();
    while i > 0
        invariant
            h == history@,
            p == redirect_with_instruction(),
            i <= h.len(),
            forall|j: int| i <= j < h.len() ==> !p(#[trigger] h[j]),
            match last_match(h, p) {
                Some(k) => 0 <= k < h.len() && p(h[k]) && forall|j: int|
                    k < j < h.len() ==> !p(#[trigger] h[j]),
                None => forall|j: int| 0 <= j < h.len() ==> !p(#[trigger] h[j]),
            },
        decreases i,
    {
        i -= 1;
        if str_eq(history[i].kind.as_str(), "session_redirected") {
            if let Some(member) = history[i].payload.member("instruction") {
                if let Some(text) = member.as_text() {
                    proof {
                        assert(p(h[i as int]));
                        match last_match(h, p) {
                            Some(k) => {
                                if k > i {
                                    assert(!p(h[k]));
                                } else if k < i {
                                    assert(!p(h[i as int]));
                                }
                            },
                            None => {
                                assert(!p(h[i as int]));
                            },
                        }
                    }
                    return Some(text.to_owned());
                }
            }
        }
        assert(!p(h[i as int]));
    }
    None
}

} // verus!
