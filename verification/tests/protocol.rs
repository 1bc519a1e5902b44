use thalamus::json::{Json, JsonNumber};
use thalamus::protocol::message::{EventEnvelope, EventEnvelopeFields};
use thalamus::protocol::payload::{
    RuntimeAgentErrorPayload, RuntimeAgentExitPayload, RuntimeAgentReadyPayload,
    RuntimeAgentSpawnPayload, RuntimeLLMRequestPayload, RuntimeLLMResponsePayload,
    RuntimeTaskAssignPayload, RuntimeTaskResultPayload, RuntimeToolRequestPayload,
    RuntimeToolResultPayload,
};
use thalamus::protocol::subject;
use thalamus::protocol::validation::validate_and_normalize_payload;

fn s(v: &str) -> String {
    v.to_string()
}

fn st(v: &str) -> Json {
    Json::Str(v.to_string())
}

fn obj(members: Vec<(&str, Json)>) -> Json {
    Json::Object(members.into_iter().map(|(k, v)| (k.to_string(), v)).collect())
}

fn arr(items: Vec<Json>) -> Json {
    Json::Array(items)
}

fn num(n: u64) -> Json {
    Json::Number(JsonNumber::PosInt(n))
}

fn float(text: &str) -> Json {
    Json::Number(JsonNumber::Float(text.to_string()))
}

fn scope_value() -> Json {
    obj(vec![
        ("runtime", st("protocol")),
        ("tenant", st("test")),
        ("segments", arr(vec![st("mvp"), st("contract")])),
    ])
}

fn refs_value() -> Json {
    arr(vec![
        obj(vec![("kind", st("task")), ("id", st("task-1"))]),
        obj(vec![
            ("kind", st("agent")),
            ("id", st("agent-1")),
            ("capabilities", arr(vec![st("shell"), st("llm")])),
        ]),
    ])
}

fn payload_value() -> Json {
    obj(vec![("name", st("example")), ("nested", obj(vec![("count", num(2))]))])
}

fn metadata_value() -> Json {
    obj(vec![("tenant", st("test")), ("trace", obj(vec![("sampled", Json::Bool(true))]))])
}

#[test]
fn contract_event_envelope_preserves_public_fields_and_serializes_type() {
    let envelope = EventEnvelope::new(EventEnvelopeFields {
        id: s("event-1"),
        event_type: s("runtime.agent.ready"),
        subject: s("subject.created"),
        source: s("protocol-contract"),
        timestamp: s("2026-01-01T00:00:00Z"),
        schema: s("subject.v1"),
        scope: Some(scope_value()),
        refs: Some(refs_value()),
        payload: payload_value(),
        correlation_id: Some(s("correlation-1")),
        causation_id: Some(s("causation-1")),
        metadata: metadata_value(),
    });

    assert_eq!(envelope.id, "event-1");
    assert_eq!(envelope.event_type, "runtime.agent.ready");
    assert_eq!(envelope.subject, "subject.created");
    assert_eq!(envelope.source, "protocol-contract");
    assert_eq!(envelope.timestamp, "2026-01-01T00:00:00Z");
    assert_eq!(envelope.schema, "subject.v1");
    assert_eq!(envelope.scope, Some(scope_value()));
    assert_eq!(envelope.refs, Some(refs_value()));
    assert_eq!(envelope.payload, payload_value());
    assert_eq!(envelope.correlation_id, Some(s("correlation-1")));
    assert_eq!(envelope.causation_id, Some(s("causation-1")));
    assert_eq!(envelope.metadata, metadata_value());

    let written = envelope.to_json();
    assert_eq!(written.get("type"), Some(&st("runtime.agent.ready")));
    assert!(written.get("r#type").is_none());
    assert!(written.get("event_type").is_none());
    assert_eq!(written.get("scope"), Some(&scope_value()));
    assert_eq!(written.get("refs"), Some(&refs_value()));
    assert_eq!(written.get("payload"), Some(&payload_value()));
    assert_eq!(written.get("correlation_id"), Some(&st("correlation-1")));
    assert_eq!(written.get("causation_id"), Some(&st("causation-1")));
    assert_eq!(written.get("metadata"), Some(&metadata_value()));

    let read = EventEnvelope::from_json(&written).expect("written envelope reads back");
    assert_eq!(read.scope, Some(scope_value()));
    assert_eq!(read.refs, Some(refs_value()));
    assert_eq!(read.payload, payload_value());
    assert_eq!(read.correlation_id, Some(s("correlation-1")));
    assert_eq!(read.causation_id, Some(s("causation-1")));
    assert_eq!(read.metadata, metadata_value());
    assert_eq!(read, envelope);
}

#[test]
fn contract_event_envelope_deserializes_canonical_json_with_default_extensions() {
    let canonical = obj(vec![
        ("id", st("event-canonical-1")),
        ("type", st("runtime.task.assign")),
        ("subject", st("runtime.task.assign.agent-1")),
        ("source", st("protocol-contract")),
        ("timestamp", st("2026-01-01T00:00:00Z")),
        ("schema", st("runtime.event.v1")),
        ("payload", obj(vec![("task_id", st("task-1")), ("agent_id", st("agent-1"))])),
        ("correlation_id", Json::Null),
        ("causation_id", Json::Null),
        ("metadata", obj(vec![])),
    ]);

    let read = EventEnvelope::from_json(&canonical)
        .expect("contract canonical envelope without current extensions reads");

    assert_eq!(read.event_type, "runtime.task.assign");
    assert_eq!(read.subject, "runtime.task.assign.agent-1");
    assert_eq!(read.scope, None);
    assert_eq!(read.refs, None);
}

#[test]
fn contract_runtime_subject_constants_match_canonical_values() {
    assert_eq!(subject::RUNTIME_AGENT_SPAWN, "runtime.agent.spawn");
    assert_eq!(subject::RUNTIME_AGENT_READY, "runtime.agent.ready");
    assert_eq!(subject::RUNTIME_AGENT_EXIT, "runtime.agent.exit");
    assert_eq!(subject::RUNTIME_AGENT_ERROR, "runtime.agent.error");
    assert_eq!(subject::RUNTIME_TASK_ASSIGN, "runtime.task.assign");
    assert_eq!(subject::RUNTIME_TASK_ASSIGN_AGENT_TEMPLATE, "runtime.task.assign.<agent_id>");
    assert_eq!(subject::RUNTIME_TASK_RESULT, "runtime.task.result");
    assert_eq!(subject::RUNTIME_TOOL_REQUEST, "runtime.tool.request");
    assert_eq!(subject::RUNTIME_TOOL_RESULT, "runtime.tool.result");
    assert_eq!(subject::RUNTIME_LLM_REQUEST, "runtime.llm.request");
    assert_eq!(subject::RUNTIME_LLM_RESPONSE, "runtime.llm.response");
}

#[test]
fn contract_runtime_task_assign_for_agent_generates_dynamic_subject() {
    assert_eq!(subject::runtime_task_assign_for_agent("agent-1"), "runtime.task.assign.agent-1");
}

#[test]
fn contract_runtime_payload_structs_round_trip_public_fields() {
    let agent_spawn = RuntimeAgentSpawnPayload { state: s("BOOTING") };
    let back = RuntimeAgentSpawnPayload::from_json(&agent_spawn.to_json()).expect("spawn reads");
    assert_eq!(back, agent_spawn);

    let task_assign = RuntimeTaskAssignPayload {
        task_id: s("task-1"),
        input: obj(vec![("prompt", st("run"))]),
        capabilities: vec![s("shell"), s("llm")],
        metadata: obj(vec![("priority", st("high"))]),
        agent_id: Some(s("agent-1")),
        parent_task_id: Some(s("parent-task-1")),
        correlation_id: Some(s("correlation-1")),
    };
    let back = RuntimeTaskAssignPayload::from_json(&task_assign.to_json()).expect("assign reads");
    assert_eq!(back, task_assign);
    assert_eq!(back.capabilities, vec![s("shell"), s("llm")]);

    let task_result = RuntimeTaskResultPayload {
        task_id: s("task-1"),
        status: s("completed"),
        result: Some(obj(vec![("ok", Json::Bool(true))])),
        error: obj(vec![]),
        correlation_id: Some(s("correlation-1")),
    };
    let back = RuntimeTaskResultPayload::from_json(&task_result.to_json()).expect("result reads");
    assert_eq!(back, task_result);

    let agent_ready = RuntimeAgentReadyPayload { agent_id: s("agent-1"), capabilities: vec![s("shell")] };
    let back = RuntimeAgentReadyPayload::from_json(&agent_ready.to_json()).expect("ready reads");
    assert_eq!(back, agent_ready);

    let agent_exit = RuntimeAgentExitPayload { agent_id: s("agent-1"), reason: Some(s("shutdown")) };
    let back = RuntimeAgentExitPayload::from_json(&agent_exit.to_json()).expect("exit reads");
    assert_eq!(back, agent_exit);

    let tool_request = RuntimeToolRequestPayload {
        task_id: s("task-1"),
        request_id: None,
        capability: s("shell"),
        input: obj(vec![("cmd", st("echo ok"))]),
        timeout_seconds: Some(30),
        correlation_id: Some(s("correlation-1")),
    };
    let back = RuntimeToolRequestPayload::from_json(&tool_request.to_json()).expect("tool request reads");
    assert_eq!(back, tool_request);

    let tool_result = RuntimeToolResultPayload {
        task_id: s("task-1"),
        capability: s("shell"),
        request_id: None,
        status: s("completed"),
        output: None,
        result: Some(obj(vec![("stdout", st("ok"))])),
        error: obj(vec![]),
        correlation_id: Some(s("correlation-1")),
    };
    let back = RuntimeToolResultPayload::from_json(&tool_result.to_json()).expect("tool result reads");
    assert_eq!(back, tool_result);

    let llm_request = RuntimeLLMRequestPayload {
        task_id: s("task-2"),
        request_id: None,
        model: Some(s("model-a")),
        prompt: Some(s("summarize")),
        messages: vec![obj(vec![("role", st("user")), ("content", st("summarize"))])],
        options: obj(vec![("temperature", float("0.2")), ("max_tokens", num(128))]),
        correlation_id: Some(s("correlation-2")),
    };
    let back = RuntimeLLMRequestPayload::from_json(&llm_request.to_json()).expect("llm request reads");
    assert_eq!(back, llm_request);

    let llm_response = RuntimeLLMResponsePayload {
        task_id: s("task-2"),
        model: Some(s("model-a")),
        request_id: None,
        status: s("completed"),
        text: None,
        message: obj(vec![("role", st("assistant")), ("content", st("summary"))]),
        usage: obj(vec![("input_tokens", num(10)), ("output_tokens", num(2))]),
        error: obj(vec![]),
        correlation_id: Some(s("correlation-2")),
    };
    let back = RuntimeLLMResponsePayload::from_json(&llm_response.to_json()).expect("llm response reads");
    assert_eq!(back, llm_response);

    let agent_error = RuntimeAgentErrorPayload {
        agent_id: None,
        task_id: None,
        error: obj(vec![("message", st("failed"))]),
    };
    let back = RuntimeAgentErrorPayload::from_json(&agent_error.to_json()).expect("agent error reads");
    assert_eq!(back, agent_error);
}

fn validate(subject: &str, event_id: &str, payload: Json) -> Result<Json, thalamus::protocol::validation::ValidationError> {
    validate_and_normalize_payload(subject, event_id, payload)
}

#[test]
fn validation_unknown_subject_returns_payload_unchanged() {
    let p = obj(vec![("custom", st("data"))]);
    let result = validate("custom.extension", "evt-1", p.clone());
    assert!(result.is_ok());
    assert_eq!(result.unwrap(), p);
}

#[test]
fn validation_valid_agent_ready_is_normalized() {
    let p = obj(vec![("agent_id", st("agent-1")), ("capabilities", arr(vec![st("cap.a")]))]);
    let result = validate("runtime.agent.ready", "evt-1", p.clone());
    assert!(result.is_ok());
    let normalized = result.unwrap();
    assert_eq!(normalized.get("agent_id"), Some(&st("agent-1")));
}

#[test]
fn validation_invalid_agent_ready_rejects_missing_agent_id() {
    let p = obj(vec![("capabilities", arr(vec![st("cap.a")]))]);
    assert!(validate("runtime.agent.ready", "evt-1", p).is_err());
}

#[test]
fn validation_llm_request_without_request_id_gets_event_id() {
    let p = obj(vec![("task_id", st("task-1")), ("prompt", st("hello"))]);
    let result = validate("runtime.llm.request", "evt-123", p);
    assert!(result.is_ok());
    assert_eq!(result.unwrap().get("request_id"), Some(&st("evt-123")));
}

#[test]
fn validation_llm_request_with_explicit_request_id_preserves_it() {
    let p = obj(vec![
        ("task_id", st("task-1")),
        ("request_id", st("custom-req-id")),
        ("prompt", st("hello")),
    ]);
    let result = validate("runtime.llm.request", "evt-1", p);
    assert!(result.is_ok());
    assert_eq!(result.unwrap().get("request_id"), Some(&st("custom-req-id")));
}

#[test]
fn validation_tool_request_without_request_id_gets_event_id() {
    let p = obj(vec![
        ("task_id", st("task-1")),
        ("capability", st("tool.echo")),
        ("input", obj(vec![("key", st("value"))])),
    ]);
    let result = validate("runtime.tool.request", "evt-456", p);
    assert!(result.is_ok());
    assert_eq!(result.unwrap().get("request_id"), Some(&st("evt-456")));
}

#[test]
fn validation_invalid_llm_request_rejects_missing_task_id() {
    let p = obj(vec![("prompt", st("hello"))]);
    assert!(validate("runtime.llm.request", "evt-1", p).is_err());
}

#[test]
fn validation_invalid_tool_request_rejects_missing_capability() {
    let p = obj(vec![("task_id", st("task-1")), ("input", obj(vec![]))]);
    assert!(validate("runtime.tool.request", "evt-1", p).is_err());
}

#[test]
fn validation_contract_unknown_subject_returns_payload_unchanged() {
    let p = obj(vec![("custom", st("data"))]);
    let result = validate("custom.extension", "evt-1", p.clone());
    assert!(result.is_ok());
    assert_eq!(result.unwrap(), p);
}

#[test]
fn validation_contract_valid_agent_ready_is_normalized() {
    let p = obj(vec![("agent_id", st("agent-1")), ("capabilities", arr(vec![st("cap.a")]))]);
    let result = validate("runtime.agent.ready", "evt-1", p);
    assert!(result.is_ok());
    assert_eq!(result.unwrap().get("agent_id"), Some(&st("agent-1")));
}

#[test]
fn validation_contract_invalid_agent_ready_rejects_missing_agent_id() {
    let p = obj(vec![("capabilities", arr(vec![st("cap.a")]))]);
    assert!(validate("runtime.agent.ready", "evt-1", p).is_err());
}

#[test]
fn valid_agent_spawn_is_normalized() {
    let p = obj(vec![("state", st("starting"))]);
    let result = validate("runtime.agent.spawn", "evt-1", p);
    assert!(result.is_ok());
    assert_eq!(result.unwrap().get("state"), Some(&st("starting")));
}

#[test]
fn invalid_agent_spawn_rejects_missing_state() {
    let p = obj(vec![]);
    let result = validate("runtime.agent.spawn", "evt-1", p);
    assert!(result.is_err());
    assert_eq!(result.unwrap_err().subject, "runtime.agent.spawn");
}

#[test]
fn valid_agent_exit_is_normalized() {
    let p = obj(vec![("agent_id", st("agent-1")), ("reason", st("shutdown"))]);
    assert!(validate("runtime.agent.exit", "evt-1", p).is_ok());
}

#[test]
fn invalid_agent_exit_rejects_missing_agent_id() {
    let p = obj(vec![("reason", st("shutdown"))]);
    assert!(validate("runtime.agent.exit", "evt-1", p).is_err());
}

#[test]
fn valid_agent_error_is_normalized() {
    let p = obj(vec![("agent_id", st("agent-1")), ("error", obj(vec![("message", st("fail"))]))]);
    assert!(validate("runtime.agent.error", "evt-1", p).is_ok());
}

#[test]
fn valid_task_assign_is_normalized() {
    let p = obj(vec![
        ("task_id", st("task-1")),
        ("input", obj(vec![("key", st("value"))])),
        ("capabilities", arr(vec![st("llm")])),
    ]);
    assert!(validate("runtime.task.assign", "evt-1", p).is_ok());
}

#[test]
fn invalid_task_assign_rejects_missing_task_id() {
    let p = obj(vec![("input", obj(vec![]))]);
    assert!(validate("runtime.task.assign", "evt-1", p).is_err());
}

#[test]
fn valid_task_result_is_normalized() {
    let p = obj(vec![("task_id", st("task-1")), ("status", st("completed"))]);
    assert!(validate("runtime.task.result", "evt-1", p).is_ok());
}

#[test]
fn invalid_task_result_rejects_missing_task_id() {
    let p = obj(vec![("status", st("completed"))]);
    assert!(validate("runtime.task.result", "evt-1", p).is_err());
}

#[test]
fn validation_contract_llm_request_without_request_id_gets_event_id() {
    let p = obj(vec![("task_id", st("task-1")), ("prompt", st("hello"))]);
    let result = validate("runtime.llm.request", "evt-123", p);
    assert_eq!(result.unwrap().get("request_id"), Some(&st("evt-123")));
}

#[test]
fn validation_contract_llm_request_with_explicit_request_id_preserves_it() {
    let p = obj(vec![
        ("task_id", st("task-1")),
        ("request_id", st("custom-req-id")),
        ("prompt", st("hello")),
    ]);
    let result = validate("runtime.llm.request", "evt-1", p);
    assert_eq!(result.unwrap().get("request_id"), Some(&st("custom-req-id")));
}

#[test]
fn validation_contract_tool_request_without_request_id_gets_event_id() {
    let p = obj(vec![
        ("task_id", st("task-1")),
        ("capability", st("tool.echo")),
        ("input", obj(vec![("key", st("value"))])),
    ]);
    let result = validate("runtime.tool.request", "evt-456", p);
    assert_eq!(result.unwrap().get("request_id"), Some(&st("evt-456")));
}

#[test]
fn validation_contract_invalid_llm_request_rejects_missing_task_id() {
    let p = obj(vec![("prompt", st("hello"))]);
    assert!(validate("runtime.llm.request", "evt-1", p).is_err());
}

#[test]
fn validation_contract_invalid_tool_request_rejects_missing_capability() {
    let p = obj(vec![("task_id", st("task-1")), ("input", obj(vec![]))]);
    assert!(validate("runtime.tool.request", "evt-1", p).is_err());
}

#[test]
fn validation_contract_invalid_canonical_payload_is_not_recorded() {
    let p = obj(vec![("invalid", st("payload"))]);
    assert!(validate("runtime.agent.ready", "evt-1", p).is_err());
}

#[test]
fn validation_contract_unknown_extension_subject_is_recorded() {
    let p = obj(vec![("any", st("data"))]);
    let result = validate("custom.extension", "evt-1", p.clone());
    assert!(result.is_ok());
    assert_eq!(result.unwrap(), p);
}

#[test]
fn validation_contract_request_id_added_before_recording() {
    let p = obj(vec![("task_id", st("task-1")), ("prompt", st("hello"))]);
    let result = validate("runtime.llm.request", "evt-req-1", p);
    assert_eq!(result.unwrap().get("request_id"), Some(&st("evt-req-1")));
}

#[test]
fn validation_refusal_names_subject_and_record() {
    let p = obj(vec![("capabilities", arr(vec![st("cap.a")]))]);
    let err = validate("runtime.agent.ready", "evt-1", p).unwrap_err();
    assert_eq!(err.subject, "runtime.agent.ready");
    assert!(err.reason.starts_with("RuntimeAgentReadyPayload: "));
    assert!(err.message().starts_with("validation error for subject 'runtime.agent.ready': "));
}

#[test]
fn validation_normalizes_to_written_form_with_defaults() {
    let p = obj(vec![("agent_id", st("agent-1")), ("capabilities", arr(vec![st("cap.a")]))]);
    let once = validate("runtime.agent.ready", "evt-1", p).unwrap();
    let twice = validate("runtime.agent.ready", "evt-2", once.clone()).unwrap();
    assert_eq!(once, twice);
    let exit = validate("runtime.agent.exit", "evt-1", obj(vec![("agent_id", st("a"))])).unwrap();
    assert_eq!(exit, obj(vec![("agent_id", st("a")), ("reason", Json::Null)]));
}

#[test]
fn validation_request_id_is_idempotent_across_event_ids() {
    let p = obj(vec![("task_id", st("task-1")), ("prompt", st("hello"))]);
    let once = validate("runtime.llm.request", "evt-a", p).unwrap();
    let twice = validate("runtime.llm.request", "evt-b", once.clone()).unwrap();
    assert_eq!(once, twice);
    assert_eq!(twice.get("request_id"), Some(&st("evt-a")));
}

#[test]
fn canonical_subject_recognition() {
    assert!(subject::is_canonical_subject("runtime.tool.result"));
    assert!(!subject::is_canonical_subject("custom.extension"));
}

fn refusal(subject: &str, p: Json) -> String {
    validate(subject, "evt-1", p).unwrap_err().reason
}

#[test]
fn refusal_reason_names_a_missing_field() {
    let p = obj(vec![("capabilities", arr(vec![st("cap.a")]))]);
    assert_eq!(refusal("runtime.agent.ready", p), "RuntimeAgentReadyPayload: missing field `agent_id`");
    assert_eq!(
        refusal("runtime.agent.spawn", obj(vec![])),
        "RuntimeAgentSpawnPayload: missing field `state`"
    );
    let tool = obj(vec![("task_id", st("t")), ("capability", st("c"))]);
    assert_eq!(refusal("runtime.tool.request", tool), "RuntimeToolRequestPayload: missing field `input`");
}

#[test]
fn refusal_reason_names_a_wrong_type() {
    let p = obj(vec![("agent_id", num(5))]);
    assert_eq!(
        refusal("runtime.agent.ready", p),
        "RuntimeAgentReadyPayload: invalid type: integer `5`, expected a string"
    );
    let p = obj(vec![("agent_id", st("a")), ("capabilities", st("cap.a"))]);
    assert_eq!(
        refusal("runtime.agent.ready", p),
        "RuntimeAgentReadyPayload: invalid type: string \"cap.a\", expected a sequence"
    );
    let p = obj(vec![("agent_id", st("a")), ("capabilities", arr(vec![st("x"), Json::Bool(true)]))]);
    assert_eq!(
        refusal("runtime.agent.ready", p),
        "RuntimeAgentReadyPayload: invalid type: boolean `true`, expected a string"
    );
    let p = obj(vec![("agent_id", st("a")), ("reason", Json::Array(vec![]))]);
    assert_eq!(
        refusal("runtime.agent.exit", p),
        "RuntimeAgentExitPayload: invalid type: sequence, expected a string"
    );
}

#[test]
fn refusal_reason_for_integers_and_floats() {
    let base = |t: Json| {
        obj(vec![("task_id", st("t")), ("capability", st("c")), ("input", Json::Null), ("timeout_seconds", t)])
    };
    assert_eq!(
        refusal("runtime.tool.request", base(Json::Number(JsonNumber::NegInt(-3)))),
        "RuntimeToolRequestPayload: invalid value: integer `-3`, expected u64"
    );
    assert_eq!(
        refusal("runtime.tool.request", base(float("1.5"))),
        "RuntimeToolRequestPayload: invalid type: floating point `1.5`, expected u64"
    );
    assert_eq!(
        refusal("runtime.tool.request", base(st("soon"))),
        "RuntimeToolRequestPayload: invalid type: string \"soon\", expected u64"
    );
    assert_eq!(
        refusal("runtime.tool.request", base(Json::Number(JsonNumber::NegInt(i64::MIN)))),
        "RuntimeToolRequestPayload: invalid value: integer `-9223372036854775808`, expected u64"
    );
}

#[test]
fn refusal_reason_reports_the_first_key_in_key_order() {
    let p = obj(vec![("task_id", num(1)), ("status", num(2))]);
    assert_eq!(
        refusal("runtime.task.result", p),
        "RuntimeTaskResultPayload: invalid type: integer `2`, expected a string"
    );
    let p = obj(vec![("task_id", num(1))]);
    assert_eq!(
        refusal("runtime.task.result", p),
        "RuntimeTaskResultPayload: invalid type: integer `1`, expected a string"
    );
}

#[test]
fn refusal_reason_for_values_that_are_not_records() {
    assert_eq!(
        refusal("runtime.agent.ready", st("a \"quoted\" name")),
        "RuntimeAgentReadyPayload: invalid type: string \"a \\\"quoted\\\" name\", expected struct RuntimeAgentReadyPayload"
    );
    assert_eq!(
        refusal("runtime.agent.ready", Json::Null),
        "RuntimeAgentReadyPayload: invalid type: unit value, expected struct RuntimeAgentReadyPayload"
    );
}

#[test]
fn refusal_reason_for_arrays_of_the_wrong_length() {
    assert_eq!(
        refusal("runtime.agent.exit", arr(vec![st("a")])),
        "RuntimeAgentExitPayload: invalid length 1, expected struct RuntimeAgentExitPayload with 2 elements"
    );
    assert_eq!(
        refusal("runtime.agent.spawn", arr(vec![])),
        "RuntimeAgentSpawnPayload: invalid length 0, expected struct RuntimeAgentSpawnPayload with 1 element"
    );
    assert_eq!(
        refusal("runtime.agent.exit", arr(vec![st("a"), Json::Null, st("b")])),
        "RuntimeAgentExitPayload: invalid length 3, expected fewer elements in array"
    );
    assert_eq!(
        refusal("runtime.agent.exit", arr(vec![num(7), Json::Null])),
        "RuntimeAgentExitPayload: invalid type: integer `7`, expected a string"
    );
}
