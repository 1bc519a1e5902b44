//! The runtime as a state machine: its lifecycle, the handlers and tasks it
//! tracks, its worker and tool registries, and what it does with each
//! event. The application runs the bus, the handlers and the providers; at
//! each step it hands this state the event or outcome and carries out what
//! comes back.
use vstd::prelude::*;
use crate::bus::{SubscriptionId, ids_on_subject, matching_ids, remove_id, subs_view, without_id};
use crate::external::{is_uuid_v4_text, new_uuid};
use crate::json::{Json, JsonV, opt_str_json, str_list_json};
use crate::keyed::{lemma_pairs_map_lookup, lemma_pairs_map_update, pair_keys_unique, pairs_map};
use crate::runtime::error::RuntimeError;
use crate::protocol::payload::{
    RuntimeAgentErrorPayload, RuntimeAgentExitPayload, RuntimeAgentReadyPayload,
    RuntimeLLMRequestPayload, RuntimeTaskAssignPayload, RuntimeTaskResultPayload,
    RuntimeToolRequestPayload, agent_error_schema, agent_exit_schema, agent_ready_schema,
    llm_request_schema, task_assign_schema, task_result_schema, tool_request_schema,
};
use crate::protocol::schema::{field_value, normalized, record_ok};
use crate::protocol::subject::{
    RUNTIME_AGENT_ERROR, RUNTIME_AGENT_EXIT, RUNTIME_AGENT_READY, RUNTIME_AGENT_SPAWN,
    RUNTIME_LLM_REQUEST, RUNTIME_LLM_RESPONSE, RUNTIME_TASK_ASSIGN, RUNTIME_TASK_RESULT,
    RUNTIME_TOOL_REQUEST, RUNTIME_TOOL_RESULT,
};
use crate::runtime::registry::{WorkerRegistry, WorkerV, errored_worker, exited_worker, ready_worker};
use crate::runtime::state::{
    RuntimeState, TaskHandle, TaskState, TaskStatus, TaskV, fresh_task, opt_json_view, status_of,
};
use crate::runtime::tool::{ToolId, ToolRegistry};
use crate::text::{clone_opt_string, clone_strings, concat, opt_view, owned, strictly_sorted, str_eq, views};

verus! {

/// The handle under which the built-in echo tool is registered.
pub const ECHO_TOOL_ID: u64 = 0;

/// Everything the runtime tracks.
pub struct CoreV {
    pub lifecycle: RuntimeState,
    pub workers: Map<Seq<char>, WorkerV>,
    pub tasks: Map<Seq<char>, TaskV>,
    pub tools: Map<Seq<char>, ToolId>,
    /// The bus subscriptions of the runtime's own handlers.
    pub internal: Seq<Seq<char>>,
    /// The subscriptions of user handlers, as identifier and subject.
    pub user: Seq<(Seq<char>, Seq<char>)>,
    /// The identifiers of the spawned tasks still running.
    pub handles: Seq<Seq<char>>,
}

/// The task the runtime knows under an identifier, or a fresh one.
pub open spec fn task_or_fresh(tasks: Map<Seq<char>, TaskV>, id: Seq<char>) -> TaskV {
    match tasks.get(id) {
        Some(t) => t,
        None => fresh_task(id),
    }
}

/// The subscriptions without those on the given subject.
pub open spec fn without_subject(subs: Seq<(Seq<char>, Seq<char>)>, subject: Seq<char>) -> Seq<
    (Seq<char>, Seq<char>),
>
    decreases subs.len(),
{
    if subs.len() == 0 {
        Seq::empty()
    } else {
        let rest = without_subject(subs.drop_last(), subject);
        if subs.last().1 == subject {
            rest
        } else {
            rest.push(subs.last())
        }
    }
}

/// The identifiers without the given one.
pub open spec fn without_text(s: Seq<Seq<char>>, x: Seq<char>) -> Seq<Seq<char>>
    decreases s.len(),
{
    if s.len() == 0 {
        Seq::empty()
    } else {
        let rest = without_text(s.drop_last(), x);
        if s.last() == x {
            rest
        } else {
            rest.push(s.last())
        }
    }
}

/// A task after its assignment arrived: the assignment's parent, input,
/// capabilities, metadata and correlation replace the task's; it is
/// assigned, to the named agent when the assignment names one.
pub open spec fn assigned_task(prev: TaskV, p: RuntimeTaskAssignPayload) -> TaskV {
    TaskV {
        parent_task_id: opt_view(p.parent_task_id),
        input: p.input@,
        capabilities: views(p.capabilities@),
        metadata: p.metadata@,
        correlation_id: opt_view(p.correlation_id),
        agent_id: match opt_view(p.agent_id) {
            Some(a) => Some(a),
            None => prev.agent_id,
        },
        status: TaskStatus::Assigned,
        ..prev
    }
}

/// Whether a reported error value stands for an error: it is neither null
/// nor an empty object.
pub open spec fn reports_error(e: JsonV) -> bool {
    !(e == JsonV::Null) && !(e is Object && e->Object_0.len() == 0)
}

/// A task after its result arrived: the result, error and correlation
/// replace the task's; it failed when an error is reported, and otherwise
/// takes the status the result names.
pub open spec fn finished_task(prev: TaskV, p: RuntimeTaskResultPayload) -> TaskV {
    TaskV {
        result: opt_json_view(p.result),
        error: p.error@,
        correlation_id: opt_view(p.correlation_id),
        status: if reports_error(p.error@) {
            TaskStatus::Failed
        } else {
            status_of(p.status@)
        },
        ..prev
    }
}

/// A task waiting on a request: the request's correlation replaces the
/// task's, and the status is the waiting one.
pub open spec fn waiting_task(prev: TaskV, correlation_id: Option<Seq<char>>, status: TaskStatus) -> TaskV {
    TaskV { correlation_id, status, ..prev }
}

/// What processing a `runtime.agent.ready` payload does: a payload that
/// reads registers the agent as ready with its capabilities; one that does
/// not is dropped. `r` is the payload read.
pub open spec fn ready_step(old: CoreV, payload: JsonV, r: Option<RuntimeAgentReadyPayload>, new: CoreV) -> bool {
    &&& (r is Some <==> record_ok(agent_ready_schema(), payload))
    &&& (r is None ==> new == old)
    &&& (r matches Some(p) ==> p.spec_json() == normalized(agent_ready_schema(), payload) && new == (
    CoreV {
        workers: old.workers.insert(p.agent_id@, ready_worker(p.agent_id@, views(p.capabilities@))),
        ..old
    }))
}

/// What processing a `runtime.agent.exit` payload does: a payload that
/// reads records the agent as exited with its reason; one that does not is
/// dropped.
pub open spec fn exit_step(old: CoreV, payload: JsonV, r: Option<RuntimeAgentExitPayload>, new: CoreV) -> bool {
    &&& (r is Some <==> record_ok(agent_exit_schema(), payload))
    &&& (r is None ==> new == old)
    &&& (r matches Some(p) ==> p.spec_json() == normalized(agent_exit_schema(), payload) && new == (
    CoreV {
        workers: old.workers.insert(
            p.agent_id@,
            exited_worker(old.workers.get(p.agent_id@), p.agent_id@, opt_view(p.reason)),
        ),
        ..old
    }))
}

/// What processing a `runtime.agent.error` payload does: a payload that
/// reads and names an agent records the agent as failed with the error and
/// task; without an agent, or when the payload does not read, nothing
/// changes.
pub open spec fn error_step(old: CoreV, payload: JsonV, r: Option<RuntimeAgentErrorPayload>, new: CoreV) -> bool {
    &&& (r is Some <==> record_ok(agent_error_schema(), payload))
    &&& (r is None ==> new == old)
    &&& (r matches Some(p) ==> p.spec_json() == normalized(agent_error_schema(), payload))
    &&& (r matches Some(p) ==> (p.agent_id matches Some(a) ==> new == (CoreV {
        workers: old.workers.insert(
            a@,
            errored_worker(old.workers.get(a@), a@, opt_view(p.task_id), p.error@),
        ),
        ..old
    })))
    &&& (r matches Some(p) ==> (p.agent_id is None ==> new == old))
}

/// What processing a `runtime.task.assign` payload does: a payload that
/// reads updates the task (created when unknown) as `assigned_task` says;
/// one that does not is dropped.
pub open spec fn assign_step(old: CoreV, payload: JsonV, r: Option<RuntimeTaskAssignPayload>, new: CoreV) -> bool {
    &&& (r is Some <==> record_ok(task_assign_schema(), payload))
    &&& (r is None ==> new == old)
    &&& (r matches Some(p) ==> p.spec_json() == normalized(task_assign_schema(), payload) && new == (
    CoreV {
        tasks: old.tasks.insert(p.task_id@, assigned_task(task_or_fresh(old.tasks, p.task_id@), p)),
        ..old
    }))
}

/// Processing an assignment stores on its task what the assignment's
/// payload reads as: its parent, input, capabilities, metadata and
/// correlation; the task is assigned, and every other task is untouched.
pub proof fn law_assignment_is_stored_on_its_task(
    old: CoreV,
    payload: JsonV,
    p: RuntimeTaskAssignPayload,
    new: CoreV,
)
    requires
        assign_step(old, payload, Some(p), new),
    ensures
        JsonV::Str(p.task_id@) == field_value(task_assign_schema(), payload, 0)->0,
        new.tasks.contains_key(p.task_id@),
        new.tasks[p.task_id@].input == field_value(task_assign_schema(), payload, 1)->0,
        str_list_json(new.tasks[p.task_id@].capabilities) == field_value(task_assign_schema(), payload, 2)->0,
        new.tasks[p.task_id@].metadata == field_value(task_assign_schema(), payload, 3)->0,
        opt_str_json(new.tasks[p.task_id@].parent_task_id) == field_value(task_assign_schema(), payload, 5)->0,
        opt_str_json(new.tasks[p.task_id@].correlation_id) == field_value(task_assign_schema(), payload, 6)->0,
        new.tasks[p.task_id@].status == TaskStatus::Assigned,
        field_value(task_assign_schema(), payload, 4)->0 matches JsonV::Str(a) ==> new.tasks[p.task_id@].agent_id
            == Some(a),
        field_value(task_assign_schema(), payload, 4)->0 == JsonV::Null ==> new.tasks[p.task_id@].agent_id
            == task_or_fresh(old.tasks, p.task_id@).agent_id,
        forall|other: Seq<char>| other != p.task_id@ ==> new.tasks.get(other) == old.tasks.get(other),
{
    let n = normalized(task_assign_schema(), payload);
    assert(p.spec_json() == n);
    assert(n->Object_0[0].1 == field_value(task_assign_schema(), payload, 0)->0);
    assert(n->Object_0[1].1 == field_value(task_assign_schema(), payload, 1)->0);
    assert(n->Object_0[2].1 == field_value(task_assign_schema(), payload, 2)->0);
    assert(n->Object_0[3].1 == field_value(task_assign_schema(), payload, 3)->0);
    assert(n->Object_0[5].1 == field_value(task_assign_schema(), payload, 5)->0);
    assert(n->Object_0[6].1 == field_value(task_assign_schema(), payload, 6)->0);
    assert(n->Object_0[4].1 == field_value(task_assign_schema(), payload, 4)->0);
}

/// What processing a `runtime.task.result` payload does: a payload that
/// reads updates the task (created when unknown) as `finished_task` says;
/// one that does not is dropped.
pub open spec fn result_step(old: CoreV, payload: JsonV, r: Option<RuntimeTaskResultPayload>, new: CoreV) -> bool {
    &&& (r is Some <==> record_ok(task_result_schema(), payload))
    &&& (r is None ==> new == old)
    &&& (r matches Some(p) ==> p.spec_json() == normalized(task_result_schema(), payload) && new == (
    CoreV {
        tasks: old.tasks.insert(p.task_id@, finished_task(task_or_fresh(old.tasks, p.task_id@), p)),
        ..old
    }))
}

/// What processing a `runtime.llm.request` payload does: a payload that
/// reads marks its task (created when unknown) as waiting for the model,
/// with the request's correlation, and is handed back for the provider;
/// one that does not is dropped.
pub open spec fn llm_step(old: CoreV, payload: JsonV, r: Option<RuntimeLLMRequestPayload>, new: CoreV) -> bool {
    &&& (r is Some <==> record_ok(llm_request_schema(), payload))
    &&& (r is None ==> new == old)
    &&& (r matches Some(q) ==> q.spec_json() == normalized(llm_request_schema(), payload) && new == (
    CoreV {
        tasks: old.tasks.insert(
            q.task_id@,
            waiting_task(
                task_or_fresh(old.tasks, q.task_id@),
                opt_view(q.correlation_id),
                TaskStatus::WaitingForLlm,
            ),
        ),
        ..old
    }))
}

/// What processing a `runtime.tool.request` payload does: a payload that
/// reads marks its task (created when unknown) as waiting for a tool, with
/// the request's correlation, and is handed back with the tool registered
/// for its capability; one that does not is dropped.
pub open spec fn tool_step(
    old: CoreV,
    payload: JsonV,
    r: Option<(RuntimeToolRequestPayload, Option<ToolId>)>,
    new: CoreV,
) -> bool {
    &&& (r is Some <==> record_ok(tool_request_schema(), payload))
    &&& (r is None ==> new == old)
    &&& (r matches Some((q, tool)) ==> q.spec_json() == normalized(tool_request_schema(), payload)
        && tool == old.tools.get(q.capability@) && new == (CoreV {
        tasks: old.tasks.insert(
            q.task_id@,
            waiting_task(
                task_or_fresh(old.tasks, q.task_id@),
                opt_view(q.correlation_id),
                TaskStatus::WaitingForTool,
            ),
        ),
        ..old
    }))
}

/// The runtime's own handler a subject goes to.
pub enum InternalKind {
    Spawn,
    Ready,
    Exit,
    Error,
    Assign,
    TaskResult,
    LlmRequest,
    ToolRequest,
    Other,
}

/// The runtime's own handler a subject goes to; subjects of replies and of
/// extensions go to none.
pub open spec fn internal_kind(subject: Seq<char>) -> InternalKind {
    if subject == RUNTIME_AGENT_SPAWN@ {
        InternalKind::Spawn
    } else if subject == RUNTIME_AGENT_READY@ {
        InternalKind::Ready
    } else if subject == RUNTIME_AGENT_EXIT@ {
        InternalKind::Exit
    } else if subject == RUNTIME_AGENT_ERROR@ {
        InternalKind::Error
    } else if subject == RUNTIME_TASK_ASSIGN@ {
        InternalKind::Assign
    } else if subject == RUNTIME_TASK_RESULT@ {
        InternalKind::TaskResult
    } else if subject == RUNTIME_LLM_REQUEST@ {
        InternalKind::LlmRequest
    } else if subject == RUNTIME_TOOL_REQUEST@ {
        InternalKind::ToolRequest
    } else {
        InternalKind::Other
    }
}

/// What the runtime's own handler did with an event, with the payload it
/// read; a model or tool request read is to be answered.
pub enum Processed {
    Spawn,
    AgentReady(Option<RuntimeAgentReadyPayload>),
    AgentExit(Option<RuntimeAgentExitPayload>),
    AgentError(Option<RuntimeAgentErrorPayload>),
    TaskAssign(Option<RuntimeTaskAssignPayload>),
    TaskResult(Option<RuntimeTaskResultPayload>),
    LlmRequest(Option<RuntimeLLMRequestPayload>),
    ToolRequest(Option<(RuntimeToolRequestPayload, Option<ToolId>)>),
    Other,
}

/// Whether a processing outcome is the one the runtime's handler for a
/// subject gives.
pub open spec fn answers_kind(kind: InternalKind, r: Processed) -> bool {
    match kind {
        InternalKind::Spawn => r is Spawn,
        InternalKind::Ready => r is AgentReady,
        InternalKind::Exit => r is AgentExit,
        InternalKind::Error => r is AgentError,
        InternalKind::Assign => r is TaskAssign,
        InternalKind::TaskResult => r is TaskResult,
        InternalKind::LlmRequest => r is LlmRequest,
        InternalKind::ToolRequest => r is ToolRequest,
        InternalKind::Other => r is Other,
    }
}

/// The subjects of the replies published once the runtime's own handler
/// has processed an event: one model reply for a model request it read, one
/// tool reply for a tool request it read, and none otherwise.
pub open spec fn reply_subjects(r: Processed) -> Seq<Seq<char>> {
    match r {
        Processed::LlmRequest(Some(_)) => seq![RUNTIME_LLM_RESPONSE@],
        Processed::ToolRequest(Some(_)) => seq![RUNTIME_TOOL_RESULT@],
        _ => Seq::empty(),
    }
}

/// The runtime's state.
#[derive(Debug)]
pub struct RuntimeCore {
    state: RuntimeState,
    workers: WorkerRegistry,
    tasks: Vec<TaskState>,
    tools: ToolRegistry,
    internal_subscriptions: Vec<SubscriptionId>,
    user_subscriptions: Vec<(SubscriptionId, String)>,
    task_handles: Vec<TaskHandle>,
}

impl RuntimeCore {
    /// The tasks as identifier and state.
    pub closed spec fn task_entries(&self) -> Seq<(Seq<char>, TaskV)> {
        self.tasks@.map_values(|t: TaskState| (t.task_id@, t@))
    }

    pub closed spec fn view(&self) -> CoreV {
        CoreV {
            lifecycle: self.state,
            workers: self.workers@,
            tasks: pairs_map(self.task_entries()),
            tools: self.tools@,
            internal: self.internal_subscriptions@.map_values(|s: SubscriptionId| s.0@),
            user: subs_view(self.user_subscriptions@),
            handles: self.task_handles@.map_values(|h: TaskHandle| h.id@),
        }
    }

    /// The registries keep one entry per key.
    pub closed spec fn wf(&self) -> bool {
        &&& self.workers.wf()
        &&& self.tools.wf()
        &&& pair_keys_unique(self.task_entries())
    }

    /// A runtime that has not started: no worker, task, handler or spawned
    /// task, and the echo tool registered as `tool.echo` and as `echo`.
    pub fn new() -> (r: RuntimeCore)
        ensures
            r.wf(),
            r@.lifecycle == RuntimeState::Initialized,
            r@.workers == Map::<Seq<char>, WorkerV>::empty(),
            r@.tasks == Map::<Seq<char>, TaskV>::empty(),
            r@.tools == Map::<Seq<char>, ToolId>::empty().insert("tool.echo"@, ECHO_TOOL_ID).insert(
                "echo"@,
                ECHO_TOOL_ID,
            ),
            r@.internal.len() == 0,
            r@.user.len() == 0,
            r@.handles.len() == 0,
    {
        let mut tools = ToolRegistry::new();
        tools.register(owned("tool.echo"), ECHO_TOOL_ID);
        let found = tools.register_alias(owned("echo"), owned("tool.echo"));
        let r = RuntimeCore {
            state: RuntimeState::Initialized,
            workers: WorkerRegistry::new(),
            tasks: Vec::new(),
            tools,
            internal_subscriptions: Vec::new(),
            user_subscriptions: Vec::new(),
            task_handles: Vec::new(),
        };
        assert(r.task_entries() =~= Seq::<(Seq<char>, TaskV)>::empty());
        assert(r@.internal =~= Seq::<Seq<char>>::empty());
        assert(r@.user =~= Seq::<(Seq<char>, Seq<char>)>::empty());
        assert(r@.handles =~= Seq::<Seq<char>>::empty());
        r
    }

    /// The lifecycle state.
    pub fn state(&self) -> (r: RuntimeState)
        ensures
            r == self@.lifecycle,
    {
        self.state
    }

    /// The first step of starting: a running runtime refuses with
    /// `already running`; any other becomes `Starting`.
    pub fn begin_start(&mut self) -> (r: Result<(), RuntimeError>)
        ensures
            old(self)@.lifecycle == RuntimeState::Running ==> (r matches Err(
                RuntimeError::LifecycleError(m),
            ) && m@ == "already running"@) && final(self)@ == old(self)@,
            old(self)@.lifecycle != RuntimeState::Running ==> r is Ok && final(self)@ == (CoreV {
                lifecycle: RuntimeState::Starting,
                ..old(self)@
            }),
            final(self).wf() == old(self).wf(),
    {
        if self.state == RuntimeState::Running {
            return Err(RuntimeError::LifecycleError(owned("already running")));
        }
        self.state = RuntimeState::Starting;
        Ok(())
    }

    /// Records the subscription of one of the runtime's own handlers.
    pub fn add_internal_subscription(&mut self, id: SubscriptionId)
        ensures
            final(self)@ == (CoreV { internal: old(self)@.internal.push(id.0@), ..old(self)@ }),
            final(self).wf() == old(self).wf(),
    {
        let ghost key = id.0@;
        self.internal_subscriptions.push(id);
        assert(self@.internal =~= old(self)@.internal.push(key));
    }

    /// The last step of starting: the runtime runs.
    pub fn finish_start(&mut self)
        ensures
            final(self)@ == (CoreV { lifecycle: RuntimeState::Running, ..old(self)@ }),
            final(self).wf() == old(self).wf(),
    {
        self.state = RuntimeState::Running;
    }

    /// The first step of stopping: a stopped or stopping runtime refuses
    /// with `already stopped`, one that does not run with `not running,
    /// cannot stop`; a running one becomes `Stopping` and hands back the
    /// subscriptions of its own handlers, which it forgets.
    pub fn begin_stop(&mut self) -> (r: Result<Vec<SubscriptionId>, RuntimeError>)
        ensures
            (old(self)@.lifecycle == RuntimeState::Stopped || old(self)@.lifecycle
                == RuntimeState::Stopping) ==> (r matches Err(RuntimeError::LifecycleError(m))
                && m@ == "already stopped"@) && final(self)@ == old(self)@,
            (old(self)@.lifecycle == RuntimeState::Initialized || old(self)@.lifecycle
                == RuntimeState::Starting) ==> (r matches Err(RuntimeError::LifecycleError(m))
                && m@ == "not running, cannot stop"@) && final(self)@ == old(self)@,
            old(self)@.lifecycle == RuntimeState::Running ==> (r matches Ok(ids) && ids@.map_values(
                |s: SubscriptionId| s.0@,
            ) == old(self)@.internal) && final(self)@ == (CoreV {
                lifecycle: RuntimeState::Stopping,
                internal: Seq::empty(),
                ..old(self)@
            }),
            final(self).wf() == old(self).wf(),
    {
        if self.state == RuntimeState::Stopped || self.state == RuntimeState::Stopping {
            return Err(RuntimeError::LifecycleError(owned("already stopped")));
        }
        if self.state != RuntimeState::Running {
            return Err(RuntimeError::LifecycleError(owned("not running, cannot stop")));
        }
        self.state = RuntimeState::Stopping;
        let mut ids: Vec<SubscriptionId> = Vec::new();
        std::mem::swap(&mut ids, &mut self.internal_subscriptions);
        assert(self@.internal =~= Seq::<Seq<char>>::empty());
        Ok(ids)
    }

    /// The last step of stopping: the runtime is stopped.
    pub fn finish_stop(&mut self)
        ensures
            final(self)@ == (CoreV { lifecycle: RuntimeState::Stopped, ..old(self)@ }),
            final(self).wf() == old(self).wf(),
    {
        self.state = RuntimeState::Stopped;
    }

    /// Records a user handler's subscription on a subject.
    pub fn add_user_handler(&mut self, id: SubscriptionId, subject: String)
        ensures
            final(self)@ == (CoreV { user: old(self)@.user.push((id.0@, subject@)), ..old(self)@ }),
            final(self).wf() == old(self).wf(),
    {
        let ghost key = (id.0@, subject@);
        self.user_subscriptions.push((id, subject));
        assert(self@.user =~= old(self)@.user.push(key));
    }

    /// Forgets the user handlers with the given subscription identifier.
    pub fn remove_user_handler(&mut self, id: &SubscriptionId)
        ensures
            final(self)@ == (CoreV { user: without_id(old(self)@.user, id.0@), ..old(self)@ }),
            final(self).wf() == old(self).wf(),
    {
        let _ = remove_id(&mut self.user_subscriptions, id.0.as_str());
    }

    /// Forgets the user handlers on a subject and hands back their
    /// subscription identifiers, in registration order.
    pub fn take_user_handlers_for(&mut self, subject: &str) -> (r: Vec<SubscriptionId>)
        ensures
            r@.map_values(|s: SubscriptionId| s.0@) == matching_ids(old(self)@.user, subject@),
            final(self)@ == (CoreV { user: without_subject(old(self)@.user, subject@), ..old(self)@ }),
            final(self).wf() == old(self).wf(),
    {
        let ids = ids_on_subject(&self.user_subscriptions, subject);
        let ghost sv = self@.user;
        let mut kept: Vec<(SubscriptionId, String)> = Vec::new();
        let mut i: usize = 0;
        while i < self.user_subscriptions.len()
            invariant
                i <= self.user_subscriptions.len(),
                sv == subs_view(self.user_subscriptions@),
                subs_view(kept@) == without_subject(sv.subrange(0, i as int), subject@),
            decreases self.user_subscriptions.len() - i,
        {
            let ghost before = kept@;
            assert(sv.subrange(0, i + 1).drop_last() =~= sv.subrange(0, i as int));
            assert(sv[i as int] == (
                self.user_subscriptions@[i as int].0.0@,
                self.user_subscriptions@[i as int].1@,
            ));
            if !str_eq(self.user_subscriptions[i].1.as_str(), subject) {
                kept.push(
                    (self.user_subscriptions[i].0.clone(), self.user_subscriptions[i].1.clone()),
                );
                assert(subs_view(kept@) =~= subs_view(before).push(sv[i as int]));
            }
            i = i + 1;
        }
        assert(sv.subrange(0, sv.len() as int) =~= sv);
        self.user_subscriptions = kept;
        ids
    }

    /// The number of user handlers.
    pub fn user_handler_count(&self) -> (r: usize)
        ensures
            r == self@.user.len(),
    {
        self.user_subscriptions.len()
    }

    /// The user handlers an event on a subject goes to, in registration
    /// order; without one the event cannot be scheduled.
    pub fn handle_event_targets(&self, subject: &str) -> (r: Result<Vec<SubscriptionId>, RuntimeError>)
        ensures
            matching_ids(self@.user, subject@).len() == 0 ==> (r matches Err(
                RuntimeError::ScheduleError(m),
            ) && m@ == "no handler for subject: "@ + subject@),
            matching_ids(self@.user, subject@).len() > 0 ==> (r matches Ok(ids) && ids@.map_values(
                |s: SubscriptionId| s.0@,
            ) == matching_ids(self@.user, subject@)),
    {
        let ids = ids_on_subject(&self.user_subscriptions, subject);
        if ids.len() == 0 {
            assert(ids@.map_values(|s: SubscriptionId| s.0@).len() == 0);
            return Err(RuntimeError::ScheduleError(concat("no handler for subject: ", subject)));
        }
        Ok(ids)
    }

    /// Spawns a task handle under a fresh identifier and tracks it.
    pub fn new_task_handle(&mut self) -> (r: TaskHandle)
        ensures
            is_uuid_v4_text(r.id@),
            final(self)@ == (CoreV { handles: old(self)@.handles.push(r.id@), ..old(self)@ }),
            final(self).wf() == old(self).wf(),
    {
        let id = new_uuid();
        let ghost key = id@;
        self.task_handles.push(TaskHandle { id: id.clone() });
        assert(self@.handles =~= old(self)@.handles.push(key));
        TaskHandle { id }
    }

    /// Stops tracking a finished task.
    pub fn finish_task(&mut self, id: &str)
        ensures
            final(self)@ == (CoreV { handles: without_text(old(self)@.handles, id@), ..old(self)@ }),
            final(self).wf() == old(self).wf(),
    {
        let ghost hv = self@.handles;
        let mut kept: Vec<TaskHandle> = Vec::new();
        let mut i: usize = 0;
        while i < self.task_handles.len()
            invariant
                i <= self.task_handles.len(),
                hv == self.task_handles@.map_values(|h: TaskHandle| h.id@),
                kept@.map_values(|h: TaskHandle| h.id@) == without_text(hv.subrange(0, i as int), id@),
            decreases self.task_handles.len() - i,
        {
            let ghost before = kept@;
            assert(hv.subrange(0, i + 1).drop_last() =~= hv.subrange(0, i as int));
            assert(hv[i as int] == self.task_handles@[i as int].id@);
            if !str_eq(self.task_handles[i].id.as_str(), id) {
                kept.push(TaskHandle { id: self.task_handles[i].id.clone() });
                assert(kept@.map_values(|h: TaskHandle| h.id@) =~= before.map_values(
                    |h: TaskHandle| h.id@,
                ).push(hv[i as int]));
            }
            i = i + 1;
        }
        assert(hv.subrange(0, hv.len() as int) =~= hv);
        self.task_handles = kept;
    }

    /// The number of spawned tasks still running.
    pub fn active_task_count(&self) -> (r: usize)
        ensures
            r == self@.handles.len(),
    {
        self.task_handles.len()
    }

    /// The worker registry.
    pub fn workers(&self) -> (r: &WorkerRegistry)
        ensures
            r@ == self@.workers,
            self.wf() ==> r.wf(),
    {
        &self.workers
    }

    fn task_position(&self, id: &str) -> (r: Option<usize>)
        requires
            self.wf(),
        ensures
            match r {
                Some(i) => i < self.tasks@.len() && self.task_entries()[i as int].0 == id@
                    && self@.tasks.dom().contains(id@) && self@.tasks[id@] == self.tasks@[i as int]@,
                None => !self@.tasks.dom().contains(id@),
            },
    {
        let mut i: usize = 0;
        while i < self.tasks.len()
            invariant
                i <= self.tasks.len(),
                self.task_entries().len() == self.tasks.len(),
                self.wf(),
                forall|j: int| 0 <= j < i ==> self.task_entries()[j].0 != id@,
            decreases self.tasks.len() - i,
        {
            assert(self.task_entries()[i as int] == (self.tasks@[i as int].task_id@, self.tasks@[i as int]@));
            if str_eq(self.tasks[i].task_id.as_str(), id) {
                proof {
                    lemma_pairs_map_lookup(self.task_entries(), id@);
                }
                return Some(i);
            }
            i = i + 1;
        }
        proof {
            lemma_pairs_map_lookup(self.task_entries(), id@);
        }
        None
    }

    /// The state of a task, if the runtime knows it.
    pub fn task_state(&self, id: &str) -> (r: Option<TaskState>)
        requires
            self.wf(),
        ensures
            match r {
                Some(t) => self@.tasks.dom().contains(id@) && t@ == self@.tasks[id@],
                None => !self@.tasks.dom().contains(id@),
            },
    {
        match self.task_position(id) {
            Some(i) => Some(self.tasks[i].copy()),
            None => None,
        }
    }

    /// The task under an identifier, or a fresh one.
    fn current_task(&self, id: &String) -> (r: TaskState)
        requires
            self.wf(),
        ensures
            r@ == task_or_fresh(self@.tasks, id@),
            r@.task_id == id@,
    {
        match self.task_position(id.as_str()) {
            Some(i) => {
                assert(self.task_entries()[i as int] == (self.tasks@[i as int].task_id@, self.tasks@[i as int]@));
                self.tasks[i].copy()
            },
            None => TaskState::new(id.clone()),
        }
    }

    /// Stores a task's state under its identifier.
    fn put_task(&mut self, t: TaskState)
        requires
            old(self).wf(),
        ensures
            final(self).wf(),
            final(self)@ == (CoreV { tasks: old(self)@.tasks.insert(t@.task_id, t@), ..old(self)@ }),
    {
        let ghost before = self.task_entries();
        let ghost tv = t@;
        match self.task_position(t.task_id.as_str()) {
            Some(i) => {
                self.tasks.set(i, t);
                proof {
                    assert(self.task_entries() =~= before.update(i as int, (before[i as int].0, tv)));
                    lemma_pairs_map_update(before, i as int, tv);
                }
            },
            None => {
                self.tasks.push(t);
                proof {
                    assert(self.task_entries() =~= before.push((tv.task_id, tv)));
                    assert(self.task_entries().drop_last() =~= before);
                    lemma_pairs_map_lookup(before, tv.task_id);
                    assert forall|a: int, b: int|
                        0 <= a < b < self.task_entries().len() implies self.task_entries()[a].0
                        != self.task_entries()[b].0 by {
                        if b == before.len() {
                            assert(before[a].0 != tv.task_id);
                        }
                    }
                }
            },
        }
        assert(self@.workers == old(self)@.workers);
    }

    /// Registers a tool under a capability name.
    pub fn register_tool(&mut self, capability: String, tool: ToolId)
        requires
            old(self).wf(),
        ensures
            final(self).wf(),
            final(self)@ == (CoreV { tools: old(self)@.tools.insert(capability@, tool), ..old(self)@ }),
    {
        self.tools.register(capability, tool);
    }

    /// Registers an alias for the tool under `target`; reports whether the
    /// target was found.
    pub fn register_tool_alias(&mut self, alias: String, target: String) -> (r: bool)
        requires
            old(self).wf(),
        ensures
            final(self).wf(),
            r == old(self)@.tools.dom().contains(target@),
            r ==> final(self)@ == (CoreV {
                tools: old(self)@.tools.insert(alias@, old(self)@.tools[target@]),
                ..old(self)@
            }),
            !r ==> final(self)@ == old(self)@,
    {
        self.tools.register_alias(alias, target)
    }

    /// Removes the tool under a capability name; reports whether there was one.
    pub fn unregister_tool(&mut self, capability: &str) -> (r: bool)
        requires
            old(self).wf(),
        ensures
            final(self).wf(),
            r == old(self)@.tools.dom().contains(capability@),
            final(self)@ == (CoreV { tools: old(self)@.tools.remove(capability@), ..old(self)@ }),
    {
        self.tools.unregister(capability).is_some()
    }

    /// The registered capability names in increasing order.
    pub fn list_tool_capabilities(&self) -> (r: Vec<String>)
        requires
            self.wf(),
        ensures
            strictly_sorted(views(r@)),
            forall|c: Seq<char>| views(r@).contains(c) <==> self@.tools.dom().contains(c),
    {
        self.tools.list_capabilities()
    }

    /// The tool registered under a capability name.
    pub fn tool_for(&self, capability: &str) -> (r: Option<ToolId>)
        requires
            self.wf(),
        ensures
            r == self@.tools.get(capability@),
    {
        self.tools.get(capability)
    }
    /// Processes a `runtime.agent.ready` payload: a payload that reads
    /// registers the agent as ready with its capabilities; one that does not
    /// is dropped. Returns the payload read.
    pub fn apply_agent_ready(&mut self, payload: &Json) -> (r: Option<RuntimeAgentReadyPayload>)
        requires
            old(self).wf(),
        ensures
            final(self).wf(),
            ready_step(old(self)@, payload@, r, final(self)@),
    {
        match RuntimeAgentReadyPayload::from_json(payload) {
            Some(p) => {
                self.workers.mark_ready(p.agent_id.clone(), clone_strings(&p.capabilities));
                Some(p)
            },
            None => None,
        }
    }

    /// Processes a `runtime.agent.exit` payload: a payload that reads
    /// records the agent as exited with its reason; one that does not is
    /// dropped. Returns the payload read.
    pub fn apply_agent_exit(&mut self, payload: &Json) -> (r: Option<RuntimeAgentExitPayload>)
        requires
            old(self).wf(),
        ensures
            final(self).wf(),
            exit_step(old(self)@, payload@, r, final(self)@),
    {
        match RuntimeAgentExitPayload::from_json(payload) {
            Some(p) => {
                self.workers.mark_exited(p.agent_id.clone(), clone_opt_string(&p.reason));
                Some(p)
            },
            None => None,
        }
    }

    /// Processes a `runtime.agent.error` payload: a payload that reads and
    /// names an agent records the agent as failed with the error and task;
    /// without an agent, or when the payload does not read, nothing changes.
    /// Returns the payload read.
    pub fn apply_agent_error(&mut self, payload: &Json) -> (r: Option<RuntimeAgentErrorPayload>)
        requires
            old(self).wf(),
        ensures
            final(self).wf(),
            error_step(old(self)@, payload@, r, final(self)@),
    {
        match RuntimeAgentErrorPayload::from_json(payload) {
            Some(p) => {
                match &p.agent_id {
                    Some(a) => {
                        self.workers.mark_error(
                            a.clone(),
                            clone_opt_string(&p.task_id),
                            p.error.deep_clone(),
                        );
                    },
                    None => {},
                }
                Some(p)
            },
            None => None,
        }
    }

    /// Processes a `runtime.task.assign` payload: a payload that reads
    /// updates the task (created when unknown) as `assigned_task` says; one
    /// that does not is dropped. Returns the payload read.
    pub fn apply_task_assign(&mut self, payload: &Json) -> (r: Option<RuntimeTaskAssignPayload>)
        requires
            old(self).wf(),
        ensures
            final(self).wf(),
            assign_step(old(self)@, payload@, r, final(self)@),
    {
        match RuntimeTaskAssignPayload::from_json(payload) {
            Some(p) => {
                let mut t = self.current_task(&p.task_id);
                t.parent_task_id = clone_opt_string(&p.parent_task_id);
                t.input = p.input.deep_clone();
                t.capabilities = clone_strings(&p.capabilities);
                t.metadata = p.metadata.deep_clone();
                t.correlation_id = clone_opt_string(&p.correlation_id);
                match &p.agent_id {
                    Some(a) => t.assign_to(a.clone()),
                    None => t.set_task_status(TaskStatus::Assigned),
                }
                self.put_task(t);
                Some(p)
            },
            None => None,
        }
    }

    /// Processes a `runtime.task.result` payload: a payload that reads
    /// updates the task (created when unknown) as `finished_task` says; one
    /// that does not is dropped. Returns the payload read.
    pub fn apply_task_result(&mut self, payload: &Json) -> (r: Option<RuntimeTaskResultPayload>)
        requires
            old(self).wf(),
        ensures
            final(self).wf(),
            result_step(old(self)@, payload@, r, final(self)@),
    {
        match RuntimeTaskResultPayload::from_json(payload) {
            Some(p) => {
                let has_error = !p.error.is_null() && !p.error.is_empty_object();
                let status = if has_error {
                    TaskStatus::Failed
                } else {
                    TaskStatus::from_runtime_status(p.status.as_str())
                };
                let mut t = self.current_task(&p.task_id);
                t.result = match &p.result {
                    Some(v) => Some(v.deep_clone()),
                    None => None,
                };
                t.error = p.error.deep_clone();
                t.correlation_id = clone_opt_string(&p.correlation_id);
                t.set_task_status(status);
                self.put_task(t);
                Some(p)
            },
            None => None,
        }
    }

    /// Processes a `runtime.llm.request` payload: a payload that reads marks
    /// its task (created when unknown) as waiting for the model, with the
    /// request's correlation, and is handed back for the provider; one that
    /// does not is dropped.
    pub fn begin_llm_request(&mut self, payload: &Json) -> (r: Option<RuntimeLLMRequestPayload>)
        requires
            old(self).wf(),
        ensures
            final(self).wf(),
            llm_step(old(self)@, payload@, r, final(self)@),
    {
        match RuntimeLLMRequestPayload::from_json(payload) {
            Some(q) => {
                let mut t = self.current_task(&q.task_id);
                t.correlation_id = clone_opt_string(&q.correlation_id);
                t.set_task_status(TaskStatus::WaitingForLlm);
                self.put_task(t);
                Some(q)
            },
            None => None,
        }
    }

    /// Processes a `runtime.tool.request` payload: a payload that reads
    /// marks its task (created when unknown) as waiting for a tool, with the
    /// request's correlation, and is handed back with the tool registered
    /// for its capability; one that does not is dropped.
    pub fn begin_tool_request(&mut self, payload: &Json) -> (r: Option<(RuntimeToolRequestPayload, Option<ToolId>)>)
        requires
            old(self).wf(),
        ensures
            final(self).wf(),
            tool_step(old(self)@, payload@, r, final(self)@),
    {
        match RuntimeToolRequestPayload::from_json(payload) {
            Some(q) => {
                let tool = self.tools.get(q.capability.as_str());
                let mut t = self.current_task(&q.task_id);
                t.correlation_id = clone_opt_string(&q.correlation_id);
                t.set_task_status(TaskStatus::WaitingForTool);
                self.put_task(t);
                Some((q, tool))
            },
            None => None,
        }
    }
    /// Hands an event to the runtime's own handler for its subject: an agent
    /// spawn is only observed; agent and task events update the registries;
    /// model and tool requests mark their task and come back to be
    /// answered; other subjects are left alone.
    pub fn process(&mut self, subject: &str, payload: &Json) -> (r: Processed)
        requires
            old(self).wf(),
        ensures
            final(self).wf(),
            answers_kind(internal_kind(subject@), r),
            match internal_kind(subject@) {
                InternalKind::Spawn => r is Spawn && final(self)@ == old(self)@,
                InternalKind::Ready => (r matches Processed::AgentReady(p) && ready_step(
                    old(self)@,
                    payload@,
                    p,
                    final(self)@,
                )),
                InternalKind::Exit => (r matches Processed::AgentExit(p) && exit_step(
                    old(self)@,
                    payload@,
                    p,
                    final(self)@,
                )),
                InternalKind::Error => (r matches Processed::AgentError(p) && error_step(
                    old(self)@,
                    payload@,
                    p,
                    final(self)@,
                )),
                InternalKind::Assign => (r matches Processed::TaskAssign(p) && assign_step(
                    old(self)@,
                    payload@,
                    p,
                    final(self)@,
                )),
                InternalKind::TaskResult => (r matches Processed::TaskResult(p) && result_step(
                    old(self)@,
                    payload@,
                    p,
                    final(self)@,
                )),
                InternalKind::LlmRequest => (r matches Processed::LlmRequest(q) && llm_step(
                    old(self)@,
                    payload@,
                    q,
                    final(self)@,
                )),
                InternalKind::ToolRequest => (r matches Processed::ToolRequest(q) && tool_step(
                    old(self)@,
                    payload@,
                    q,
                    final(self)@,
                )),
                InternalKind::Other => r is Other && final(self)@ == old(self)@,
            },
    {
        if str_eq(subject, RUNTIME_AGENT_SPAWN) {
            Processed::Spawn
        } else if str_eq(subject, RUNTIME_AGENT_READY) {
            Processed::AgentReady(self.apply_agent_ready(payload))
        } else if str_eq(subject, RUNTIME_AGENT_EXIT) {
            Processed::AgentExit(self.apply_agent_exit(payload))
        } else if str_eq(subject, RUNTIME_AGENT_ERROR) {
            Processed::AgentError(self.apply_agent_error(payload))
        } else if str_eq(subject, RUNTIME_TASK_ASSIGN) {
            Processed::TaskAssign(self.apply_task_assign(payload))
        } else if str_eq(subject, RUNTIME_TASK_RESULT) {
            Processed::TaskResult(self.apply_task_result(payload))
        } else if str_eq(subject, RUNTIME_LLM_REQUEST) {
            Processed::LlmRequest(self.begin_llm_request(payload))
        } else if str_eq(subject, RUNTIME_TOOL_REQUEST) {
            Processed::ToolRequest(self.begin_tool_request(payload))
        } else {
            Processed::Other
        }
    }
}

/// The runtime's own handlers never publish on the subject they handle:
/// agent and task events get no reply, and a model or tool request gets at
/// most one, on its reply subject.
pub proof fn law_handlers_do_not_republish(subject: Seq<char>, r: Processed)
    requires
        answers_kind(internal_kind(subject), r),
    ensures
        reply_subjects(r).len() <= 1,
        forall|i: int| 0 <= i < reply_subjects(r).len() ==> reply_subjects(r)[i] != subject,
        !(internal_kind(subject) is LlmRequest) && !(internal_kind(subject) is ToolRequest)
            ==> reply_subjects(r).len() == 0,
{
    reveal_strlit("runtime.llm.request");
    reveal_strlit("runtime.llm.response");
    reveal_strlit("runtime.tool.request");
    reveal_strlit("runtime.tool.result");
    assert(RUNTIME_LLM_REQUEST@.len() == 19 && RUNTIME_LLM_RESPONSE@.len() == 20);
    assert(RUNTIME_TOOL_REQUEST@.len() == 20 && RUNTIME_TOOL_RESULT@.len() == 19);
    if r is LlmRequest {
        assert(internal_kind(subject) is LlmRequest);
        assert(subject == RUNTIME_LLM_REQUEST@);
    }
    if r is ToolRequest {
        assert(internal_kind(subject) is ToolRequest);
        assert(subject == RUNTIME_TOOL_REQUEST@);
    }
}

/// A task result that reports an error fails the task, whatever status it
/// names; one without an error takes the status it names. Either way the
/// task keeps its identity, assignment and input.
pub proof fn law_task_result_status(prev: TaskV, p: RuntimeTaskResultPayload)
    ensures
        reports_error(p.error@) ==> finished_task(prev, p).status == TaskStatus::Failed,
        !reports_error(p.error@) ==> finished_task(prev, p).status == status_of(p.status@),
        finished_task(prev, p).task_id == prev.task_id,
        finished_task(prev, p).agent_id == prev.agent_id,
        finished_task(prev, p).input == prev.input,
{
}

/// An assignment that names an agent assigns the task to it; one that does
/// not keeps the agent the task had. Either way the task is assigned.
pub proof fn law_assignment_agent(prev: TaskV, p: RuntimeTaskAssignPayload)
    ensures
        assigned_task(prev, p).status == TaskStatus::Assigned,
        p.agent_id matches Some(a) ==> assigned_task(prev, p).agent_id == Some(a@),
        p.agent_id is None ==> assigned_task(prev, p).agent_id == prev.agent_id,
{
}

} // verus!
