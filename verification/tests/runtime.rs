use thalamus::bus::{BusError, SubscriptionId};
use thalamus::json::Json;
use thalamus::protocol::message::EventEnvelope;
use thalamus::protocol::payload::{
    RuntimeLLMRequestPayload, RuntimeLLMResponsePayload, RuntimeToolRequestPayload,
};
use thalamus::protocol::subject::{
    RUNTIME_AGENT_SPAWN, RUNTIME_LLM_REQUEST, RUNTIME_LLM_RESPONSE, RUNTIME_TOOL_REQUEST,
    RUNTIME_TOOL_RESULT,
};
use thalamus::runtime::engine::{Processed, RuntimeCore, ECHO_TOOL_ID};
use thalamus::runtime::error::RuntimeError;
use thalamus::runtime::events::{
    internal_subjects, llm_response_envelope, prepare_publish, publish_envelope, publish_failed,
    tool_result_envelope, ToolOutcome,
};
use thalamus::runtime::llm::{ErrorLlmProvider, MockLlmProvider};
use thalamus::runtime::registry::{WorkerRegistry, WorkerState};
use thalamus::runtime::state::{RuntimeState, TaskState, TaskStatus};
use thalamus::runtime::tool::{EchoTool, ToolRegistry};

fn s(v: &str) -> String {
    v.to_string()
}

fn st(v: &str) -> Json {
    Json::Str(v.to_string())
}

fn obj(members: Vec<(&str, Json)>) -> Json {
    Json::Object(members.into_iter().map(|(k, v)| (k.to_string(), v)).collect())
}

fn arr(items: Vec<Json>) -> Json {
    Json::Array(items)
}

#[test]
fn register_creates_ready_worker() {
    let mut registry = WorkerRegistry::default();
    registry.register(s("agent-1"), vec![s("llm"), s("tool.echo")]);
    let worker = registry.lookup("agent-1").expect("worker should exist");
    assert_eq!(worker.state, WorkerState::Ready);
    assert_eq!(worker.capabilities, vec![s("llm"), s("tool.echo")]);
}

#[test]
fn mark_ready_updates_state() {
    let mut registry = WorkerRegistry::default();
    registry.mark_ready(s("agent-1"), vec![s("llm")]);
    let worker = registry.lookup("agent-1").expect("worker should exist");
    assert_eq!(worker.state, WorkerState::Ready);
}

#[test]
fn mark_exited_updates_state() {
    let mut registry = WorkerRegistry::default();
    registry.mark_ready(s("agent-1"), vec![s("llm")]);
    registry.mark_exited(s("agent-1"), Some(s("shutdown")));
    let worker = registry.lookup("agent-1").expect("worker should exist");
    assert_eq!(worker.state, WorkerState::Exited);
}

#[test]
fn mark_error_updates_state() {
    let mut registry = WorkerRegistry::default();
    registry.mark_ready(s("agent-1"), vec![s("llm")]);
    registry.mark_error(s("agent-1"), Some(s("task-1")), obj(vec![("message", st("fail"))]));
    let worker = registry.lookup("agent-1").expect("worker should exist");
    assert_eq!(worker.state, WorkerState::Error);
}

#[test]
fn mark_error_without_agent_id_does_not_crash() {
    let mut registry = WorkerRegistry::default();
    registry.mark_error(s("agent-new"), None, obj(vec![("message", st("error"))]));
    let worker = registry.lookup("agent-new").expect("worker should exist");
    assert_eq!(worker.state, WorkerState::Error);
}

#[test]
fn find_by_capability_filters_by_state() {
    let mut registry = WorkerRegistry::default();
    registry.register(s("agent-1"), vec![s("llm")]);
    registry.register(s("agent-2"), vec![s("llm")]);
    registry.mark_exited(s("agent-2"), None);
    let ready = registry.find_by_capability("llm");
    assert_eq!(ready.len(), 1);
    assert!(ready.contains(&s("agent-1")));
}

#[test]
fn list_capabilities_returns_sorted() {
    let mut registry = WorkerRegistry::default();
    registry.register(s("agent-1"), vec![s("z-cap"), s("a-cap")]);
    registry.register(s("agent-2"), vec![s("m-cap")]);
    let caps = registry.list_capabilities();
    assert_eq!(caps, vec![s("a-cap"), s("m-cap"), s("z-cap")]);
}

#[test]
fn worker_info_clone_is_independent() {
    let mut registry = WorkerRegistry::default();
    registry.register(s("agent-1"), vec![s("llm")]);
    let info1 = registry.lookup("agent-1").cloned();
    registry.mark_exited(s("agent-1"), None);
    assert!(info1.is_some());
    assert_eq!(info1.unwrap().state, WorkerState::Ready);
}

#[test]
fn registry_clone_is_independent() {
    let mut registry = WorkerRegistry::default();
    registry.register(s("agent-1"), vec![s("llm")]);
    let registry2 = registry.clone();
    assert!(registry2.lookup("agent-1").is_some());
    registry.mark_exited(s("agent-1"), None);
    assert_eq!(registry2.lookup("agent-1").unwrap().state, WorkerState::Ready);
}

#[test]
fn worker_records_keep_identity_and_metadata() {
    let mut registry = WorkerRegistry::default();
    registry.register(s("agent-1"), vec![s("llm")]);
    registry.mark_exited(s("agent-1"), Some(s("shutdown")));
    let w = registry.get_worker("agent-1").unwrap();
    assert_eq!(w.id, "agent-1");
    assert_eq!(w.capabilities, vec![s("llm")]);
    assert_eq!(w.metadata, obj(vec![("reason", st("shutdown"))]));
    registry.mark_error(s("ghost"), Some(s("task-9")), st("boom"));
    let g = registry.get_worker("ghost").unwrap();
    assert_eq!(g.id, "");
    assert_eq!(g.last_error, st("boom"));
    assert_eq!(g.metadata, obj(vec![("task_id", st("task-9"))]));
    registry.set_state(s("agent-1"), s("ready"));
    assert_eq!(registry.lookup("agent-1").unwrap().state, WorkerState::Ready);
    registry.set_state(s("nobody"), s("error"));
    assert!(registry.lookup("nobody").is_none());
}

#[test]
fn worker_state_names_round_trip() {
    for state in [WorkerState::Ready, WorkerState::Exited, WorkerState::Error] {
        assert_eq!(WorkerState::from_runtime_state(state.as_str()), state);
    }
    assert_eq!(WorkerState::from_runtime_state("unknown"), WorkerState::Ready);
}

#[test]
fn task_status_names_round_trip() {
    let all = [
        TaskStatus::Pending,
        TaskStatus::Assigned,
        TaskStatus::Running,
        TaskStatus::WaitingForLlm,
        TaskStatus::WaitingForTool,
        TaskStatus::Completed,
        TaskStatus::Failed,
        TaskStatus::Cancelled,
    ];
    for status in all {
        assert_eq!(TaskStatus::from_runtime_status(status.as_str()), status);
    }
    assert_eq!(TaskStatus::from_runtime_status("success"), TaskStatus::Completed);
    assert_eq!(TaskStatus::from_runtime_status("failure"), TaskStatus::Failed);
    assert_eq!(TaskStatus::from_runtime_status("error"), TaskStatus::Failed);
    assert_eq!(TaskStatus::from_runtime_status("canceled"), TaskStatus::Cancelled);
    assert_eq!(TaskStatus::from_runtime_status("whatever"), TaskStatus::Pending);
}

#[test]
fn contract_task_state_and_worker_registry_support_runtime_lookup() {
    let mut registry = WorkerRegistry::default();
    let mut task_state = TaskState::new(s("task-runtime-1"));
    registry.register(s("agent-1"), vec![s("llm"), s("tool.echo")]);
    task_state.assign_to(s("agent-1"));
    let worker = registry.lookup("agent-1").expect("registered worker should be visible");
    assert_eq!(task_state.id(), "task-runtime-1");
    assert_eq!(task_state.assigned_agent().as_deref(), Some("agent-1"));
    assert_eq!(task_state.status(), "assigned");
    assert_eq!(worker.capabilities, vec![s("llm"), s("tool.echo")]);
}

#[test]
fn tool_echo_returns_input() {
    let request = RuntimeToolRequestPayload {
        task_id: s("task-1"),
        request_id: Some(s("req-1")),
        capability: s("tool.echo"),
        input: obj(vec![("text", st("hello"))]),
        timeout_seconds: None,
        correlation_id: Some(s("corr-1")),
    };
    let result = EchoTool.invoke(request).unwrap();
    assert_eq!(result.status, "completed");
    assert_eq!(result.output, Some(obj(vec![("text", st("hello"))])));
    assert_eq!(result.result, Some(obj(vec![("text", st("hello"))])));
    assert_eq!(result.request_id, Some(s("req-1")));
    assert_eq!(result.correlation_id, Some(s("corr-1")));
    assert_eq!(result.error, obj(vec![]));
    assert_eq!(EchoTool.capability(), "tool.echo");
}

#[test]
fn tool_registry_alias_and_removal() {
    let mut tools = ToolRegistry::new();
    assert!(tools.is_empty());
    tools.register(s("tool.echo"), 7);
    assert!(tools.register_alias(s("echo"), s("tool.echo")));
    assert!(!tools.register_alias(s("x"), s("missing")));
    assert_eq!(tools.get("echo"), Some(7));
    assert_eq!(tools.get("tool.echo"), Some(7));
    assert_eq!(tools.list_capabilities(), vec![s("echo"), s("tool.echo")]);
    assert_eq!(tools.len(), 2);
    assert_eq!(tools.unregister("echo"), Some(7));
    assert_eq!(tools.unregister("echo"), None);
    assert_eq!(tools.get("echo"), None);
    assert_eq!(tools.len(), 1);
}

fn llm_request(prompt: Option<&str>, messages: Vec<Json>, model: Option<&str>) -> RuntimeLLMRequestPayload {
    RuntimeLLMRequestPayload {
        task_id: s("task-1"),
        request_id: Some(s("req-1")),
        model: model.map(s),
        prompt: prompt.map(s),
        messages,
        options: obj(vec![]),
        correlation_id: Some(s("corr-1")),
    }
}

#[test]
fn mock_provider_answers_prompt_or_last_message() {
    let r = MockLlmProvider.complete(llm_request(Some("summarize runtime MVP"), vec![], None)).unwrap();
    assert_eq!(r.text, Some(s("Mock response: summarize runtime MVP")));
    assert_eq!(r.model, Some(s("mock")));
    assert_eq!(r.message, obj(vec![("content", st("Mock response: summarize runtime MVP"))]));
    assert_eq!(r.status, "completed");
    assert_eq!(r.request_id, Some(s("req-1")));
    let msgs = vec![
        obj(vec![("role", st("user")), ("content", st("first"))]),
        obj(vec![("role", st("user")), ("content", st("last words"))]),
    ];
    let r = MockLlmProvider.complete(llm_request(None, msgs, Some("mock-model"))).unwrap();
    assert_eq!(r.text, Some(s("Mock response: last words")));
    assert_eq!(r.model, Some(s("mock-model")));
    let r = MockLlmProvider.complete(llm_request(None, vec![], None)).unwrap();
    assert_eq!(r.text, Some(s("Mock response: ")));
}

#[test]
fn error_provider_reports_simulated_failure() {
    let r = ErrorLlmProvider.complete(llm_request(Some("x"), vec![], None)).unwrap();
    assert_eq!(r.status, "error");
    assert_eq!(r.model, Some(s("error-mock")));
    assert_eq!(r.text, None);
    assert_eq!(
        r.error,
        obj(vec![("kind", st("provider_error")), ("message", st("simulated provider failure"))])
    );
}

#[test]
fn contract_new_runtime_starts_in_initialized_state() {
    let core = RuntimeCore::new();
    assert_eq!(core.state(), RuntimeState::Initialized);
    assert_eq!(core.tool_for("tool.echo"), Some(ECHO_TOOL_ID));
    assert_eq!(core.tool_for("echo"), Some(ECHO_TOOL_ID));
    assert_eq!(core.list_tool_capabilities(), vec![s("echo"), s("tool.echo")]);
}

#[test]
fn behavior_lifecycle_errors_preserve_state_transition_contract() {
    let mut core = RuntimeCore::new();
    match core.begin_stop() {
        Err(RuntimeError::LifecycleError(m)) => assert_eq!(m, "not running, cannot stop"),
        other => panic!("unexpected {other:?}"),
    }
    core.begin_start().expect("first start");
    core.add_internal_subscription(SubscriptionId(s("internal-1")));
    core.finish_start();
    assert_eq!(core.state(), RuntimeState::Running);
    match core.begin_start() {
        Err(RuntimeError::LifecycleError(m)) => assert_eq!(m, "already running"),
        other => panic!("unexpected {other:?}"),
    }
    let ids = core.begin_stop().expect("running runtime stops");
    assert_eq!(ids, vec![SubscriptionId(s("internal-1"))]);
    assert_eq!(core.state(), RuntimeState::Stopping);
    core.finish_stop();
    assert_eq!(core.state(), RuntimeState::Stopped);
    match core.begin_stop() {
        Err(RuntimeError::LifecycleError(m)) => assert_eq!(m, "already stopped"),
        other => panic!("unexpected {other:?}"),
    }
}

#[test]
fn behavior_handle_event_without_registered_handler_returns_schedule_error() {
    let core = RuntimeCore::new();
    match core.handle_event_targets("unit.runtime.missing") {
        Err(RuntimeError::ScheduleError(m)) => assert_eq!(m, "no handler for subject: unit.runtime.missing"),
        other => panic!("unexpected {other:?}"),
    }
}

#[test]
fn contract_register_and_unregister_handler_updates_handler_count() {
    let mut core = RuntimeCore::new();
    assert_eq!(core.user_handler_count(), 0);
    core.add_user_handler(SubscriptionId(s("h-1")), s("unit.runtime.handler-count"));
    assert_eq!(core.user_handler_count(), 1);
    let targets = core.handle_event_targets("unit.runtime.handler-count").unwrap();
    assert_eq!(targets, vec![SubscriptionId(s("h-1"))]);
    let removed = core.take_user_handlers_for("unit.runtime.handler-count");
    assert_eq!(removed, vec![SubscriptionId(s("h-1"))]);
    assert_eq!(core.user_handler_count(), 0);
}

#[test]
fn contract_spawn_returns_handle_and_tracks_active_task_count() {
    let mut core = RuntimeCore::new();
    assert_eq!(core.active_task_count(), 0);
    let handle = core.new_task_handle();
    assert_eq!(handle.id.len(), 36);
    assert_eq!(core.active_task_count(), 1);
    core.finish_task(&handle.id);
    assert_eq!(core.active_task_count(), 0);
}

#[test]
fn runtime_agent_ready_exit_error_updates_registry() {
    let mut core = RuntimeCore::new();
    core.apply_agent_ready(&obj(vec![("agent_id", st("agent-1")), ("capabilities", arr(vec![st("llm")]))]))
        .expect("ready payload reads");
    assert_eq!(core.workers().lookup("agent-1").unwrap().state, WorkerState::Ready);
    core.apply_agent_exit(&obj(vec![("agent_id", st("agent-1")), ("reason", st("done"))]))
        .expect("exit payload reads");
    assert_eq!(core.workers().lookup("agent-1").unwrap().state, WorkerState::Exited);
    core.apply_agent_error(&obj(vec![("agent_id", st("agent-1")), ("error", st("boom"))]))
        .expect("error payload reads");
    let w = core.workers().lookup("agent-1").unwrap();
    assert_eq!(w.state, WorkerState::Error);
    assert_eq!(w.last_error, st("boom"));
}

#[test]
fn behavior_runtime_agent_error_without_agent_id_does_not_modify_registry() {
    let mut core = RuntimeCore::new();
    let p = core.apply_agent_error(&obj(vec![("error", st("boom"))])).expect("reads");
    assert!(p.agent_id.is_none());
    assert!(core.workers().find_by_capability("llm").is_empty());
    assert!(core.workers().list_capabilities().is_empty());
}

#[test]
fn unreadable_payloads_are_dropped() {
    let mut core = RuntimeCore::new();
    assert!(core.apply_agent_ready(&obj(vec![("capabilities", arr(vec![]))])).is_none());
    assert!(core.apply_task_assign(&obj(vec![("input", obj(vec![]))])).is_none());
    assert!(core.begin_llm_request(&obj(vec![("prompt", st("x"))])).is_none());
    assert!(core.begin_tool_request(&st("not an object")).is_none());
    assert!(core.task_state("task-1").is_none());
}

#[test]
fn runtime_task_assign_result_updates_task_state() {
    let mut core = RuntimeCore::new();
    core.apply_task_assign(&obj(vec![
        ("task_id", st("task-1")),
        ("input", obj(vec![("prompt", st("run"))])),
        ("capabilities", arr(vec![st("llm")])),
        ("agent_id", st("agent-1")),
        ("correlation_id", st("corr-1")),
    ]))
    .expect("assign reads");
    let t = core.task_state("task-1").unwrap();
    assert_eq!(t.status(), "assigned");
    assert_eq!(t.assigned_agent(), Some(s("agent-1")));
    assert_eq!(t.input, obj(vec![("prompt", st("run"))]));
    core.apply_task_result(&obj(vec![
        ("task_id", st("task-1")),
        ("status", st("completed")),
        ("result", obj(vec![("ok", Json::Bool(true))])),
    ]))
    .expect("result reads");
    let t = core.task_state("task-1").unwrap();
    assert_eq!(t.status(), "completed");
    assert_eq!(t.result, Some(obj(vec![("ok", Json::Bool(true))])));
    core.apply_task_result(&obj(vec![
        ("task_id", st("task-1")),
        ("status", st("completed")),
        ("error", obj(vec![("message", st("bad"))])),
    ]))
    .expect("result reads");
    assert_eq!(core.task_state("task-1").unwrap().status(), "failed");
    core.apply_task_result(&obj(vec![
        ("task_id", st("task-2")),
        ("status", st("success")),
        ("error", obj(vec![])),
    ]))
    .expect("result reads");
    assert_eq!(core.task_state("task-2").unwrap().status(), "completed");
}

#[test]
fn requests_mark_tasks_waiting_and_look_up_tools() {
    let mut core = RuntimeCore::new();
    let q = core
        .begin_llm_request(&obj(vec![("task_id", st("t")), ("prompt", st("p")), ("correlation_id", st("c"))]))
        .unwrap();
    assert_eq!(q.prompt, Some(s("p")));
    let t = core.task_state("t").unwrap();
    assert_eq!(t.status(), "waiting_for_llm");
    assert_eq!(t.correlation_id, Some(s("c")));
    let (req, tool) = core
        .begin_tool_request(&obj(vec![("task_id", st("t")), ("capability", st("echo")), ("input", st("x"))]))
        .unwrap();
    assert_eq!(req.capability, "echo");
    assert_eq!(tool, Some(ECHO_TOOL_ID));
    assert_eq!(core.task_state("t").unwrap().status(), "waiting_for_tool");
    let (_, missing) = core
        .begin_tool_request(&obj(vec![("task_id", st("t")), ("capability", st("nope")), ("input", st("x"))]))
        .unwrap();
    assert_eq!(missing, None);
}

#[test]
fn runtime_publish_without_handler_is_ok() {
    let e = prepare_publish("unit.runtime.unregistered-publish", "runtime-basic-test", obj(vec![("behavior", st("x"))]))
        .unwrap();
    assert_eq!(e.subject, "unit.runtime.unregistered-publish");
    assert_eq!(e.event_type, "unit.runtime.unregistered-publish");
    assert_eq!(e.source, "runtime-basic-test");
    assert_eq!(e.schema, "thalamus.unit.runtime.unregistered-publish");
    assert_eq!(e.id.len(), 36);
    assert!(e.timestamp.ends_with("+00:00"));
    assert_eq!(e.metadata, obj(vec![]));
}

#[test]
fn publish_refuses_invalid_canonical_payload() {
    match publish_envelope("runtime.agent.ready", "src", s("evt-1"), s("t"), obj(vec![])) {
        Err(RuntimeError::InvalidPayload(m)) => assert!(m.starts_with("runtime.agent.ready: RuntimeAgentReadyPayload: ")),
        other => panic!("unexpected {other:?}"),
    }
    let e = publish_envelope("runtime.llm.request", "src", s("evt-9"), s("t"), obj(vec![("task_id", st("t1"))]))
        .unwrap();
    assert_eq!(e.payload.get("request_id"), Some(&st("evt-9")));
    assert_eq!(e.id, "evt-9");
    assert_eq!(
        publish_failed(&BusError::Closed),
        RuntimeError::BusError(s("publish failed: bus is closed"))
    );
}

#[test]
fn behavior_runtime_start_registers_default_mvp_subjects() {
    let subjects: Vec<&str> = internal_subjects().into_iter().map(|(subject, _)| subject).collect();
    assert_eq!(subjects.len(), 8);
    assert!(subjects.contains(&RUNTIME_AGENT_SPAWN));
    assert!(subjects.contains(&RUNTIME_LLM_REQUEST));
    assert!(subjects.contains(&RUNTIME_TOOL_REQUEST));
    assert!(!subjects.contains(&RUNTIME_LLM_RESPONSE));
    assert!(!subjects.contains(&RUNTIME_TOOL_RESULT));
}

fn request_event(id: &str, subject: &str) -> EventEnvelope {
    EventEnvelope {
        id: id.to_string(),
        event_type: subject.to_string(),
        subject: subject.to_string(),
        source: s("runtime-basic-test"),
        timestamp: s("2025-01-01T00:00:00Z"),
        schema: s("x"),
        scope: None,
        refs: None,
        payload: obj(vec![]),
        correlation_id: None,
        causation_id: None,
        metadata: obj(vec![]),
    }
}

#[test]
fn behavior_runtime_llm_response_correlation_and_causation_equal_request_event_id() {
    let req = llm_request(Some("summarize"), vec![], Some("mock-model"));
    let answer: RuntimeLLMResponsePayload = MockLlmProvider.complete(req.clone()).unwrap();
    let ev = request_event("req-event-1", RUNTIME_LLM_REQUEST);
    let reply = llm_response_envelope(&ev, &req, Ok(answer), s("reply-1"), s("now"));
    assert_eq!(reply.subject, RUNTIME_LLM_RESPONSE);
    assert_eq!(reply.source, "thalamus-runtime");
    assert_eq!(reply.correlation_id.as_deref(), Some("req-event-1"));
    assert_eq!(reply.causation_id.as_deref(), Some("req-event-1"));
    assert_eq!(reply.payload.get("correlation_id"), Some(&st("corr-1")));
    assert_eq!(
        reply.payload.get("message").and_then(|m| m.get("content")),
        Some(&st("Mock response: summarize"))
    );
}

#[test]
fn provider_error_emits_llm_response_error() {
    let req = llm_request(Some("x"), vec![], None);
    let ev = request_event("req-event-2", RUNTIME_LLM_REQUEST);
    let reply = llm_response_envelope(&ev, &req, Err(RuntimeError::ProviderError(s("down"))), s("r"), s("t"));
    assert_eq!(reply.payload.get("status"), Some(&st("error")));
    assert_eq!(
        reply.payload.get("error"),
        Some(&obj(vec![("kind", st("provider_error")), ("message", st("provider error: down"))]))
    );
    assert_eq!(reply.payload.get("model"), Some(&Json::Null));
}

fn tool_request(capability: &str) -> RuntimeToolRequestPayload {
    RuntimeToolRequestPayload {
        task_id: s("task-1"),
        request_id: Some(s("req-1")),
        capability: s(capability),
        input: obj(vec![("text", st("runtime MVP"))]),
        timeout_seconds: None,
        correlation_id: Some(s("corr-1")),
    }
}

#[test]
fn behavior_runtime_tool_result_correlation_and_causation_equal_request_event_id() {
    let req = tool_request("tool.echo");
    let ev = request_event("req-event-3", RUNTIME_TOOL_REQUEST);
    let outcome = ToolOutcome::Invoked(EchoTool.invoke(req.clone()));
    let reply = tool_result_envelope(&ev, &req, outcome, s("reply-3"), s("t"));
    assert_eq!(reply.subject, RUNTIME_TOOL_RESULT);
    assert_eq!(reply.correlation_id.as_deref(), Some("req-event-3"));
    assert_eq!(reply.causation_id.as_deref(), Some("req-event-3"));
    assert_eq!(reply.payload.get("result"), Some(&obj(vec![("text", st("runtime MVP"))])));
    assert_eq!(reply.payload.get("correlation_id"), Some(&st("corr-1")));
}

#[test]
fn unknown_tool_emits_tool_result_error() {
    let req = tool_request("tool.missing");
    let ev = request_event("req-event-4", RUNTIME_TOOL_REQUEST);
    let reply = tool_result_envelope(&ev, &req, ToolOutcome::NotFound, s("r"), s("t"));
    assert_eq!(
        reply.payload.get("error"),
        Some(&obj(vec![("kind", st("capability_not_found")), ("message", st("tool not found: tool.missing"))]))
    );
    assert_eq!(reply.payload.get("status"), Some(&st("error")));
}

#[test]
fn tool_error_emits_tool_result_error() {
    let req = tool_request("tool.fail");
    let ev = request_event("req-event-5", RUNTIME_TOOL_REQUEST);
    let outcome = ToolOutcome::Invoked(Err(RuntimeError::ToolError(s("broken"))));
    let reply = tool_result_envelope(&ev, &req, outcome, s("r"), s("t"));
    assert_eq!(
        reply.payload.get("error"),
        Some(&obj(vec![("kind", st("tool_error")), ("message", st("tool error: broken"))]))
    );
}

#[test]
fn runtime_error_messages() {
    assert_eq!(RuntimeError::LifecycleError(s("x")).message(), "lifecycle error: x");
    assert_eq!(RuntimeError::ScheduleError(s("y")).message(), "schedule error: y");
    assert_eq!(RuntimeError::InvalidPayload(s("z")).message(), "invalid payload: z");
}

#[test]
fn process_routes_each_subject_to_its_handler() {
    let mut core = RuntimeCore::new();
    assert!(matches!(core.process(RUNTIME_AGENT_SPAWN, &obj(vec![("state", st("starting"))])), Processed::Spawn));
    assert!(matches!(
        core.process("runtime.agent.ready", &obj(vec![("agent_id", st("a")), ("capabilities", arr(vec![st("llm")]))])),
        Processed::AgentReady(Some(_))
    ));
    assert_eq!(core.workers().find_by_capability("llm"), vec![s("a")]);
    assert!(matches!(core.process("runtime.agent.exit", &obj(vec![])), Processed::AgentExit(None)));
    match core.process(RUNTIME_LLM_REQUEST, &obj(vec![("task_id", st("t")), ("prompt", st("hi"))])) {
        Processed::LlmRequest(Some(q)) => assert_eq!(q.prompt, Some(s("hi"))),
        _ => panic!("expected a model request to answer"),
    }
    match core.process(RUNTIME_TOOL_REQUEST, &obj(vec![("task_id", st("t")), ("capability", st("tool.echo")), ("input", st("x"))])) {
        Processed::ToolRequest(Some((_, tool))) => assert_eq!(tool, Some(ECHO_TOOL_ID)),
        _ => panic!("expected a tool request to answer"),
    }
    assert!(matches!(core.process(RUNTIME_LLM_RESPONSE, &obj(vec![])), Processed::Other));
    assert!(matches!(core.process(RUNTIME_TOOL_RESULT, &obj(vec![])), Processed::Other));
    assert!(matches!(core.process("custom.extension", &obj(vec![])), Processed::Other));
}

#[test]
fn reply_keeps_the_request_envelopes_own_correlation() {
    let req = llm_request(Some("summarize"), vec![], Some("mock-model"));
    let answer: RuntimeLLMResponsePayload = MockLlmProvider.complete(req.clone()).unwrap();
    let mut ev = request_event("evt-1", RUNTIME_LLM_REQUEST);
    ev.correlation_id = Some(s("corr-env"));
    let reply = llm_response_envelope(&ev, &req, Ok(answer), s("reply-1"), s("now"));
    assert_eq!(reply.correlation_id.as_deref(), Some("corr-env"));
    assert_eq!(reply.causation_id.as_deref(), Some("evt-1"));

    let treq = tool_request("tool.echo");
    let mut tev = request_event("evt-2", RUNTIME_TOOL_REQUEST);
    tev.correlation_id = Some(s("corr-tool"));
    let ok = tool_result_envelope(&tev, &treq, ToolOutcome::Invoked(EchoTool.invoke(treq.clone())), s("r"), s("t"));
    assert_eq!(ok.correlation_id.as_deref(), Some("corr-tool"));
    let missing = tool_result_envelope(&tev, &treq, ToolOutcome::NotFound, s("r"), s("t"));
    assert_eq!(missing.correlation_id.as_deref(), Some("corr-tool"));
    assert_eq!(missing.causation_id.as_deref(), Some("evt-2"));
}
