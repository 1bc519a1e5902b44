//! The canonical runtime subjects.
use vstd::prelude::*;
use crate::text::{concat, str_eq};

verus! {

pub const RUNTIME_AGENT_SPAWN: &'static str = "runtime.agent.spawn";
pub const RUNTIME_AGENT_READY: &'static str = "runtime.agent.ready";
pub const RUNTIME_AGENT_EXIT: &'static str = "runtime.agent.exit";
pub const RUNTIME_AGENT_ERROR: &'static str = "runtime.agent.error";
pub const RUNTIME_TASK_ASSIGN: &'static str = "runtime.task.assign";
pub const RUNTIME_TASK_ASSIGN_AGENT_TEMPLATE: &'static str = "runtime.task.assign.<agent_id>";
pub const RUNTIME_TASK_RESULT: &'static str = "runtime.task.result";
pub const RUNTIME_TOOL_REQUEST: &'static str = "runtime.tool.request";
pub const RUNTIME_TOOL_RESULT: &'static str = "runtime.tool.result";
pub const RUNTIME_LLM_REQUEST: &'static str = "runtime.llm.request";
pub const RUNTIME_LLM_RESPONSE: &'static str = "runtime.llm.response";

/// The subject that addresses a task assignment to one worker:
/// `runtime.task.assign.<agent_id>`.
pub fn runtime_task_assign_for_agent(agent_id: &str) -> (r: String)
    ensures
        r@ == "runtime.task.assign."@ + agent_id@,
{
    concat("runtime.task.assign.", agent_id)
}

/// The subjects whose payloads the protocol defines.
pub open spec fn canonical_subject(s: Seq<char>) -> bool {
    s == "runtime.agent.spawn"@ || s == "runtime.agent.ready"@ || s == "runtime.agent.exit"@ || s
        == "runtime.agent.error"@ || s == "runtime.task.assign"@ || s == "runtime.task.result"@ || s
        == "runtime.llm.request"@ || s == "runtime.llm.response"@ || s == "runtime.tool.request"@
        || s == "runtime.tool.result"@
}

/// Whether the subject is one of the canonical runtime subjects.
pub fn is_canonical_subject(subject: &str) -> (r: bool)
    ensures
        r == canonical_subject(subject@),
{
    str_eq(subject, "runtime.agent.spawn") || str_eq(subject, "runtime.agent.ready") || str_eq(
        subject,
        "runtime.agent.exit",
    ) || str_eq(subject, "runtime.agent.error") || str_eq(subject, "runtime.task.assign")
        || str_eq(subject, "runtime.task.result") || str_eq(subject, "runtime.llm.request")
        || str_eq(subject, "runtime.llm.response") || str_eq(subject, "runtime.tool.request")
        || str_eq(subject, "runtime.tool.result")
}

} // verus!
