//! Runtime lifecycle states, task handles and the state of each task.
use vstd::prelude::*;
use crate::json::{Json, JsonV};
use crate::text::{clone_opt_string, opt_view, str_eq, views};

verus! {

/// The lifecycle state of a runtime.
#[derive(Clone, Copy, Debug, PartialEq, Eq, Structural)]
pub enum RuntimeState {
    Initialized,
    Starting,
    Running,
    Stopping,
    Stopped,
}

/// A handle on a task that the runtime spawned.
#[derive(Clone, Debug)]
pub struct TaskHandle {
    pub id: String,
}

/// The status the runtime tracks for a task.
#[derive(Clone, Copy, Debug, PartialEq, Eq, Structural)]
pub enum TaskStatus {
    Pending,
    Assigned,
    Running,
    WaitingForLlm,
    WaitingForTool,
    Completed,
    Failed,
    Cancelled,
}

/// The wire name of a task status.
pub open spec fn status_text(s: TaskStatus) -> Seq<char> {
    match s {
        TaskStatus::Pending => "pending"@,
        TaskStatus::Assigned => "assigned"@,
        TaskStatus::Running => "running"@,
        TaskStatus::WaitingForLlm => "waiting_for_llm"@,
        TaskStatus::WaitingForTool => "waiting_for_tool"@,
        TaskStatus::Completed => "completed"@,
        TaskStatus::Failed => "failed"@,
        TaskStatus::Cancelled => "cancelled"@,
    }
}

/// The task status that a status text reported by a worker stands for:
/// the wire names, `success` for completed, `failure` and `error` for
/// failed, `canceled` for cancelled, and pending for anything else.
pub open spec fn status_of(t: Seq<char>) -> TaskStatus {
    if t == "assigned"@ {
        TaskStatus::Assigned
    } else if t == "running"@ {
        TaskStatus::Running
    } else if t == "waiting_for_llm"@ {
        TaskStatus::WaitingForLlm
    } else if t == "waiting_for_tool"@ {
        TaskStatus::WaitingForTool
    } else if t == "completed"@ || t == "success"@ {
        TaskStatus::Completed
    } else if t == "failed"@ || t == "failure"@ || t == "error"@ {
        TaskStatus::Failed
    } else if t == "cancelled"@ || t == "canceled"@ {
        TaskStatus::Cancelled
    } else {
        TaskStatus::Pending
    }
}

impl TaskStatus {
    /// The wire name of the status.
    pub fn as_str(&self) -> (r: &'static str)
        ensures
            r@ == status_text(*self),
    {
        match self {
            TaskStatus::Pending => "pending",
            TaskStatus::Assigned => "assigned",
            TaskStatus::Running => "running",
            TaskStatus::WaitingForLlm => "waiting_for_llm",
            TaskStatus::WaitingForTool => "waiting_for_tool",
            TaskStatus::Completed => "completed",
            TaskStatus::Failed => "failed",
            TaskStatus::Cancelled => "cancelled",
        }
    }

    /// The status that a status text reported by a worker stands for.
    pub fn from_runtime_status(status: &str) -> (r: TaskStatus)
        ensures
            r == status_of(status@),
    {
        if str_eq(status, "assigned") {
            TaskStatus::Assigned
        } else if str_eq(status, "running") {
            TaskStatus::Running
        } else if str_eq(status, "waiting_for_llm") {
            TaskStatus::WaitingForLlm
        } else if str_eq(status, "waiting_for_tool") {
            TaskStatus::WaitingForTool
        } else if str_eq(status, "completed") || str_eq(status, "success") {
            TaskStatus::Completed
        } else if str_eq(status, "failed") || str_eq(status, "failure") || str_eq(status, "error") {
            TaskStatus::Failed
        } else if str_eq(status, "cancelled") || str_eq(status, "canceled") {
            TaskStatus::Cancelled
        } else {
            TaskStatus::Pending
        }
    }
}

/// Reading back the wire name of a status gives the status again.
pub proof fn lemma_status_text_round_trip(s: TaskStatus)
    ensures
        status_of(status_text(s)) == s,
{
    reveal_strlit("pending");
    reveal_strlit("assigned");
    reveal_strlit("running");
    reveal_strlit("waiting_for_llm");
    reveal_strlit("waiting_for_tool");
    reveal_strlit("completed");
    reveal_strlit("success");
    reveal_strlit("failed");
    reveal_strlit("failure");
    reveal_strlit("error");
    reveal_strlit("cancelled");
    reveal_strlit("canceled");
    assert("pending"@.len() == 7);
    assert("assigned"@.len() == 8);
    assert("running"@.len() == 7);
    assert("waiting_for_llm"@.len() == 15);
    assert("waiting_for_tool"@.len() == 16);
    assert("completed"@.len() == 9);
    assert("success"@.len() == 7);
    assert("failed"@.len() == 6);
    assert("failure"@.len() == 7);
    assert("error"@.len() == 5);
    assert("cancelled"@.len() == 9);
    assert("canceled"@.len() == 8);
    assert("pending"@[0] != "running"@[0]);
    assert("pending"@[0] != "success"@[0]);
    assert("pending"@[0] != "failure"@[0]);
    assert("running"@[0] != "success"@[0]);
    assert("running"@[0] != "failure"@[0]);
    assert("completed"@[1] != "cancelled"@[1]);
    assert("assigned"@[0] != "canceled"@[0]);
}

/// The view of an optional JSON value.
pub open spec fn opt_json_view(o: Option<Json>) -> Option<JsonV> {
    match o {
        Some(j) => Some(j@),
        None => None,
    }
}

/// What the runtime knows of one task.
pub struct TaskV {
    pub task_id: Seq<char>,
    pub parent_task_id: Option<Seq<char>>,
    pub agent_id: Option<Seq<char>>,
    pub status: TaskStatus,
    pub input: JsonV,
    pub capabilities: Seq<Seq<char>>,
    pub metadata: JsonV,
    pub result: Option<JsonV>,
    pub error: JsonV,
    pub correlation_id: Option<Seq<char>>,
}

/// A task that nothing has touched yet: pending, no agent, null input, an
/// empty metadata object, no result, a null error.
pub open spec fn fresh_task(id: Seq<char>) -> TaskV {
    TaskV {
        task_id: id,
        parent_task_id: None,
        agent_id: None,
        status: TaskStatus::Pending,
        input: JsonV::Null,
        capabilities: Seq::empty(),
        metadata: JsonV::Object(Seq::empty()),
        result: None,
        error: JsonV::Null,
        correlation_id: None,
    }
}

/// The state of one task as the runtime tracks it.
#[derive(Debug)]
pub struct TaskState {
    pub task_id: String,
    pub parent_task_id: Option<String>,
    pub agent_id: Option<String>,
    pub status: TaskStatus,
    pub input: Json,
    pub capabilities: Vec<String>,
    pub metadata: Json,
    pub result: Option<Json>,
    pub error: Json,
    pub correlation_id: Option<String>,
}

impl TaskState {
    pub open spec fn view(&self) -> TaskV {
        TaskV {
            task_id: self.task_id@,
            parent_task_id: opt_view(self.parent_task_id),
            agent_id: opt_view(self.agent_id),
            status: self.status,
            input: self.input@,
            capabilities: views(self.capabilities@),
            metadata: self.metadata@,
            result: opt_json_view(self.result),
            error: self.error@,
            correlation_id: opt_view(self.correlation_id),
        }
    }

    /// A new task with the given identifier.
    pub fn new(id: String) -> (r: TaskState)
        ensures
            r@ == fresh_task(id@),
    {
        let r = TaskState {
            task_id: id,
            parent_task_id: None,
            agent_id: None,
            status: TaskStatus::Pending,
            input: Json::Null,
            capabilities: Vec::new(),
            metadata: Json::Object(Vec::new()),
            result: None,
            error: Json::Null,
            correlation_id: None,
        };
        assert(r.metadata@->Object_0 =~= Seq::<(Seq<char>, JsonV)>::empty());
        assert(r@.capabilities =~= Seq::<Seq<char>>::empty());
        r
    }

    /// The task's identifier.
    pub fn id(&self) -> (r: &str)
        ensures
            r@ == self.task_id@,
    {
        self.task_id.as_str()
    }

    /// Assigns the task to an agent; the task becomes assigned.
    pub fn assign_to(&mut self, agent_id: String)
        ensures
            final(self).agent_id == Some(agent_id),
            final(self).status == TaskStatus::Assigned,
            final(self).task_id == old(self).task_id,
            final(self).parent_task_id == old(self).parent_task_id,
            final(self).input == old(self).input,
            final(self).capabilities == old(self).capabilities,
            final(self).metadata == old(self).metadata,
            final(self).result == old(self).result,
            final(self).error == old(self).error,
            final(self).correlation_id == old(self).correlation_id,
    {
        self.agent_id = Some(agent_id);
        self.set_task_status(TaskStatus::Assigned);
    }

    /// The agent the task is assigned to, if any.
    pub fn assigned_agent(&self) -> (r: Option<String>)
        ensures
            r == self.agent_id,
    {
        clone_opt_string(&self.agent_id)
    }

    /// Sets the status from a status text reported by a worker.
    pub fn set_status(&mut self, status: String)
        ensures
            final(self).status == status_of(status@),
            final(self).task_id == old(self).task_id,
            final(self).parent_task_id == old(self).parent_task_id,
            final(self).agent_id == old(self).agent_id,
            final(self).input == old(self).input,
            final(self).capabilities == old(self).capabilities,
            final(self).metadata == old(self).metadata,
            final(self).result == old(self).result,
            final(self).error == old(self).error,
            final(self).correlation_id == old(self).correlation_id,
    {
        self.set_task_status(TaskStatus::from_runtime_status(status.as_str()));
    }

    /// Sets the status.
    pub fn set_task_status(&mut self, status: TaskStatus)
        ensures
            final(self).status == status,
            final(self).task_id == old(self).task_id,
            final(self).parent_task_id == old(self).parent_task_id,
            final(self).agent_id == old(self).agent_id,
            final(self).input == old(self).input,
            final(self).capabilities == old(self).capabilities,
            final(self).metadata == old(self).metadata,
            final(self).result == old(self).result,
            final(self).error == old(self).error,
            final(self).correlation_id == old(self).correlation_id,
    {
        self.status = status;
    }

    /// The wire name of the task's status.
    pub fn status(&self) -> (r: String)
        ensures
            r@ == status_text(self.status),
    {
        self.status.as_str().to_owned()
    }

    /// A copy of the task state.
    pub fn copy(&self) -> (r: TaskState)
        ensures
            r@ == self@,
    {
        TaskState {
            task_id: self.task_id.clone(),
            parent_task_id: clone_opt_string(&self.parent_task_id),
            agent_id: clone_opt_string(&self.agent_id),
            status: self.status,
            input: self.input.deep_clone(),
            capabilities: crate::text::clone_strings(&self.capabilities),
            metadata: self.metadata.deep_clone(),
            result: match &self.result {
                Some(v) => Some(v.deep_clone()),
                None => None,
            },
            error: self.error.deep_clone(),
            correlation_id: clone_opt_string(&self.correlation_id),
        }
    }
}

} // verus!
