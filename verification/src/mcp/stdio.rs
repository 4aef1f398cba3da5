//! Rules of supervised stdio MCP children that need no process.

use vstd::prelude::*;

use crate::mcp::error::{McpError, McpErrorKind, outcome_unknown};
use crate::text::{join, join_path};

verus! {

/// Report from terminating a supervised child.
#[derive(Debug, Clone, Copy, PartialEq, Eq, Structural)]
pub struct ChildShutdownReport {
    pub reaped: bool,
    pub forced: bool,
}

/// A child counts as reaped only when both it and its process group are
/// gone.
pub fn shutdown_report(child_reaped: bool, group_reaped: bool, forced: bool) -> (r:
    ChildShutdownReport)
    ensures
        r.reaped == (child_reaped && group_reaped),
        r.forced == forced,
{
    ChildShutdownReport { reaped: child_reaped && group_reaped, forced }
}

/// A cancellation after the call started leaves its outcome unknown.
pub fn cancel_after_start() -> (r: McpError)
    ensures
        r.spec_kind() == McpErrorKind::OutcomeUnknown,
        r.spec_message() == "MCP call outcome is unknown after start"@,
{
    outcome_unknown()
}

/// Private working directory of one server of one workspace:
/// `<root>/mcp/<workspace>/<server>`.
pub fn private_runtime_dir(root: String, workspace: &str, server: &str) -> (r: String)
    ensures
        r@ == join_path(join_path(join_path(root@, "mcp"@), workspace@), server@),
{
    let mcp = join(root.as_str(), "mcp");
    let scoped = join(mcp.as_str(), workspace);
    join(scoped.as_str(), server)
}

} // verus!
