//! The envelopes the runtime writes: those it publishes for callers, and
//! the replies its own handlers publish to model and tool requests.
use vstd::prelude::*;
use crate::bus::BusError;
use crate::external::{is_utc_rfc3339_text, is_uuid_v4_text, new_uuid, now_rfc3339};
use crate::json::{Json, JsonV, opt_str_json};
use crate::protocol::message::EventEnvelope;
use crate::protocol::payload::{
    RuntimeLLMRequestPayload, RuntimeLLMResponsePayload, RuntimeToolRequestPayload,
    RuntimeToolResultPayload,
};
use crate::protocol::subject::{
    RUNTIME_AGENT_ERROR, RUNTIME_AGENT_EXIT, RUNTIME_AGENT_READY, RUNTIME_AGENT_SPAWN,
    RUNTIME_LLM_REQUEST, RUNTIME_LLM_RESPONSE, RUNTIME_TASK_ASSIGN, RUNTIME_TASK_RESULT,
    RUNTIME_TOOL_REQUEST, RUNTIME_TOOL_RESULT,
};
use crate::protocol::validation::{validate_and_normalize_payload, validate_spec};
use crate::runtime::error::RuntimeError;
use crate::text::{clone_opt_string, concat, concat3, opt_view, owned};

verus! {

/// The source the runtime's own replies carry.
pub const RUNTIME_SOURCE: &'static str = "thalamus-runtime";

/// An envelope as the runtime writes it for a subject: its type is the
/// subject, its schema `thalamus.<subject>`, no scope, references,
/// correlation or cause, and empty metadata.
pub open spec fn is_runtime_envelope(
    e: EventEnvelope,
    subject: Seq<char>,
    source: Seq<char>,
    event_id: Seq<char>,
    timestamp: Seq<char>,
    payload: JsonV,
) -> bool {
    &&& e.id@ == event_id
    &&& e.event_type@ == subject
    &&& e.subject@ == subject
    &&& e.source@ == source
    &&& e.timestamp@ == timestamp
    &&& e.schema@ == "thalamus."@ + subject
    &&& e.scope is None
    &&& e.refs is None
    &&& e.payload@ == payload
    &&& e.correlation_id is None
    &&& e.causation_id is None
    &&& e.metadata@ == JsonV::Object(Seq::empty())
}

/// The correlation of a reply: the request event's own correlation when it
/// has one, else the request event's identifier.
pub open spec fn reply_correlation(request_correlation: Option<Seq<char>>, cause: Seq<char>) -> Seq<char> {
    match request_correlation {
        Some(c) => c,
        None => cause,
    }
}

/// A reply of the runtime's own handlers to a request event: written as
/// above from the runtime's source, with the request event's identifier as
/// cause and `reply_correlation` as correlation.
pub open spec fn is_reply_envelope(
    e: EventEnvelope,
    subject: Seq<char>,
    cause: Seq<char>,
    request_correlation: Option<Seq<char>>,
    event_id: Seq<char>,
    timestamp: Seq<char>,
    payload: JsonV,
) -> bool {
    &&& e.id@ == event_id
    &&& e.event_type@ == subject
    &&& e.subject@ == subject
    &&& e.source@ == RUNTIME_SOURCE@
    &&& e.timestamp@ == timestamp
    &&& e.schema@ == "thalamus."@ + subject
    &&& e.scope is None
    &&& e.refs is None
    &&& e.payload@ == payload
    &&& opt_view(e.correlation_id) == Some(reply_correlation(request_correlation, cause))
    &&& opt_view(e.causation_id) == Some(cause)
    &&& e.metadata@ == JsonV::Object(Seq::empty())
}

/// An envelope for a subject with a given identifier, time and payload.
pub fn envelope_with_id(
    subject: &str,
    source: &str,
    event_id: String,
    timestamp: String,
    payload: Json,
) -> (r: EventEnvelope)
    ensures
        is_runtime_envelope(r, subject@, source@, event_id@, timestamp@, payload@),
{
    let metadata = Json::Object(Vec::new());
    assert(metadata@->Object_0 =~= Seq::<(Seq<char>, JsonV)>::empty());
    EventEnvelope {
        id: event_id,
        event_type: owned(subject),
        subject: owned(subject),
        source: owned(source),
        timestamp,
        schema: concat("thalamus.", subject),
        scope: None,
        refs: None,
        payload,
        correlation_id: None,
        causation_id: None,
        metadata,
    }
}

/// The envelope to publish for a payload on a subject: the payload is
/// validated and normalized (a request without `request_id` gets the event
/// identifier), and a refused one gives `InvalidPayload` with the subject
/// and the reason.
pub fn publish_envelope(
    subject: &str,
    source: &str,
    event_id: String,
    timestamp: String,
    payload: Json,
) -> (r: Result<EventEnvelope, RuntimeError>)
    ensures
        match validate_spec(subject@, event_id@, payload@) {
            Ok(n) => r matches Ok(e) && is_runtime_envelope(e, subject@, source@, event_id@, timestamp@, n),
            Err(reason) => r matches Err(RuntimeError::InvalidPayload(m)) && m@ == subject@ + ": "@
                + reason,
        },
{
    match validate_and_normalize_payload(subject, event_id.as_str(), payload) {
        Ok(n) => Ok(envelope_with_id(subject, source, event_id, timestamp, n)),
        Err(e) => Err(RuntimeError::InvalidPayload(concat3(e.subject.as_str(), ": ", e.reason.as_str()))),
    }
}

/// The envelope to publish for a payload on a subject, under a fresh
/// identifier and the current time. Whether it is refused does not depend
/// on the identifier.
pub fn prepare_publish(subject: &str, source: &str, payload: Json) -> (r: Result<
    EventEnvelope,
    RuntimeError,
>)
    ensures
        match validate_spec(subject@, Seq::<char>::empty(), payload@) {
            Ok(_) => r matches Ok(e) && is_uuid_v4_text(e.id@) && is_utc_rfc3339_text(e.timestamp@) && validate_spec(
                subject@,
                e.id@,
                payload@,
            ) == Ok::<JsonV, Seq<char>>(e.payload@) && is_runtime_envelope(
                e,
                subject@,
                source@,
                e.id@,
                e.timestamp@,
                e.payload@,
            ),
            Err(reason) => r matches Err(RuntimeError::InvalidPayload(m)) && m@ == subject@ + ": "@
                + reason,
        },
{
    let event_id = new_uuid();
    let timestamp = now_rfc3339();
    publish_envelope(subject, source, event_id, timestamp, payload)
}

/// The error of a publication the bus refused.
pub fn publish_failed(e: &BusError) -> (r: RuntimeError)
    ensures
        r matches RuntimeError::BusError(m) && m@ == "publish failed: "@ + e.spec_message(),
{
    RuntimeError::BusError(concat("publish failed: ", e.message().as_str()))
}

/// The error of a user handler's subscription the bus refused.
pub fn subscribe_failed(e: &BusError) -> (r: RuntimeError)
    ensures
        r matches RuntimeError::BusError(m) && m@ == "subscribe: "@ + e.spec_message(),
{
    RuntimeError::BusError(concat("subscribe: ", e.message().as_str()))
}

/// The error of a user handler's removal the bus refused.
pub fn unsubscribe_failed(e: &BusError) -> (r: RuntimeError)
    ensures
        r matches RuntimeError::BusError(m) && m@ == "unsubscribe: "@ + e.spec_message(),
{
    RuntimeError::BusError(concat("unsubscribe: ", e.message().as_str()))
}

/// The subjects the runtime's own handlers listen on, each with the label
/// its subscription errors carry.
pub open spec fn internal_subject_labels() -> Seq<(Seq<char>, Seq<char>)> {
    seq![
        (RUNTIME_AGENT_SPAWN@, "spawn"@),
        (RUNTIME_AGENT_READY@, "ready"@),
        (RUNTIME_AGENT_EXIT@, "exit"@),
        (RUNTIME_AGENT_ERROR@, "error"@),
        (RUNTIME_TASK_ASSIGN@, "task.assign"@),
        (RUNTIME_TASK_RESULT@, "task.result"@),
        (RUNTIME_LLM_REQUEST@, "llm.request"@),
        (RUNTIME_TOOL_REQUEST@, "tool.request"@),
    ]
}

/// The subjects the runtime's own handlers listen on, in the order it
/// subscribes them, each with the label of its subscription errors.
pub fn internal_subjects() -> (r: Vec<(&'static str, &'static str)>)
    ensures
        r@.map_values(|e: (&'static str, &'static str)| (e.0@, e.1@)) == internal_subject_labels(),
{
    let mut r: Vec<(&'static str, &'static str)> = Vec::new();
    r.push((RUNTIME_AGENT_SPAWN, "spawn"));
    r.push((RUNTIME_AGENT_READY, "ready"));
    r.push((RUNTIME_AGENT_EXIT, "exit"));
    r.push((RUNTIME_AGENT_ERROR, "error"));
    r.push((RUNTIME_TASK_ASSIGN, "task.assign"));
    r.push((RUNTIME_TASK_RESULT, "task.result"));
    r.push((RUNTIME_LLM_REQUEST, "llm.request"));
    r.push((RUNTIME_TOOL_REQUEST, "tool.request"));
    assert(r@.map_values(|e: (&'static str, &'static str)| (e.0@, e.1@)) =~= internal_subject_labels());
    r
}

/// The error of subscribing one of the runtime's own handlers.
pub fn internal_subscribe_failed(label: &str, e: &BusError) -> (r: RuntimeError)
    ensures
        r matches RuntimeError::BusError(m) && m@ == "subscribe "@ + label@ + ": "@ + e.spec_message(),
{
    let head = concat3("subscribe ", label, ": ");
    RuntimeError::BusError(concat(head.as_str(), e.message().as_str()))
}

/// The object `{ "kind": kind, "message": message }`.
pub open spec fn kind_message_json(kind: Seq<char>, message: Seq<char>) -> JsonV {
    JsonV::Object(seq![("kind"@, JsonV::Str(kind)), ("message"@, JsonV::Str(message))])
}

/// The object `{ "kind": kind, "message": message }`.
fn kind_message(kind: &str, message: &str) -> (r: Json)
    ensures
        r@ == kind_message_json(kind@, message@),
{
    let mut m: Vec<(String, Json)> = Vec::new();
    m.push((owned("kind"), Json::string(kind)));
    m.push((owned("message"), Json::string(message)));
    let r = Json::Object(m);
    assert(r@->Object_0[0] == (m@[0].0@, m@[0].1@));
    assert(r@->Object_0[1] == (m@[1].0@, m@[1].1@));
    assert(r@->Object_0 =~= kind_message_json(kind@, message@)->Object_0);
    r
}

/// The reply written when the model provider failed: the request's
/// identifiers, model and correlation, status `error`, no text, an empty
/// message, null usage, and a `provider_error` with the failure's message.
pub open spec fn llm_failure_json(req: RuntimeLLMRequestPayload, message: Seq<char>) -> JsonV {
    JsonV::Object(
        seq![
            ("task_id"@, JsonV::Str(req.task_id@)),
            ("model"@, opt_str_json(opt_view(req.model))),
            ("request_id"@, opt_str_json(opt_view(req.request_id))),
            ("status"@, JsonV::Str("error"@)),
            ("text"@, JsonV::Null),
            ("message"@, JsonV::Object(Seq::empty())),
            ("usage"@, JsonV::Null),
            ("error"@, kind_message_json("provider_error"@, message)),
            ("correlation_id"@, opt_str_json(opt_view(req.correlation_id))),
        ],
    )
}

/// The payload of the reply to a model request: the provider's response,
/// or the failure reply with the provider error's message.
pub open spec fn llm_reply_payload(
    req: RuntimeLLMRequestPayload,
    outcome: Result<RuntimeLLMResponsePayload, RuntimeError>,
) -> JsonV {
    match outcome {
        Ok(res) => res.spec_json(),
        Err(e) => llm_failure_json(req, e.spec_message()),
    }
}

/// The correlation of a reply to the request event.
fn reply_correlation_of(request_event: &EventEnvelope) -> (r: Option<String>)
    ensures
        opt_view(r) == Some(
            reply_correlation(opt_view(request_event.correlation_id), request_event.id@),
        ),
{
    match &request_event.correlation_id {
        Some(c) => Some(c.clone()),
        None => Some(request_event.id.clone()),
    }
}

/// The reply to a model request, with a given identifier and time.
pub fn llm_response_envelope(
    request_event: &EventEnvelope,
    request: &RuntimeLLMRequestPayload,
    outcome: Result<RuntimeLLMResponsePayload, RuntimeError>,
    event_id: String,
    timestamp: String,
) -> (r: EventEnvelope)
    ensures
        is_reply_envelope(
            r,
            RUNTIME_LLM_RESPONSE@,
            request_event.id@,
            opt_view(request_event.correlation_id),
            event_id@,
            timestamp@,
            llm_reply_payload(*request, outcome),
        ),
{
    let payload = match outcome {
        Ok(res) => res.to_json(),
        Err(err) => {
            let message = Json::Object(Vec::new());
            assert(message@->Object_0 =~= Seq::<(Seq<char>, JsonV)>::empty());
            let failure = RuntimeLLMResponsePayload {
                task_id: request.task_id.clone(),
                model: clone_opt_string(&request.model),
                request_id: clone_opt_string(&request.request_id),
                status: owned("error"),
                text: None,
                message,
                usage: Json::Null,
                error: kind_message("provider_error", err.message().as_str()),
                correlation_id: clone_opt_string(&request.correlation_id),
            };
            failure.to_json()
        },
    };
    let mut e = envelope_with_id(RUNTIME_LLM_RESPONSE, RUNTIME_SOURCE, event_id, timestamp, payload);
    e.causation_id = Some(request_event.id.clone());
    e.correlation_id = reply_correlation_of(request_event);
    e
}

/// The reply to a model request, under a fresh identifier and the current
/// time.
pub fn llm_response_event(
    request_event: &EventEnvelope,
    request: &RuntimeLLMRequestPayload,
    outcome: Result<RuntimeLLMResponsePayload, RuntimeError>,
) -> (r: EventEnvelope)
    ensures
        is_uuid_v4_text(r.id@),
        is_utc_rfc3339_text(r.timestamp@),
        is_reply_envelope(
            r,
            RUNTIME_LLM_RESPONSE@,
            request_event.id@,
            opt_view(request_event.correlation_id),
            r.id@,
            r.timestamp@,
            llm_reply_payload(*request, outcome),
        ),
{
    let event_id = new_uuid();
    let timestamp = now_rfc3339();
    llm_response_envelope(request_event, request, outcome, event_id, timestamp)
}

/// How a tool request went: the tool answered (or failed), or no tool is
/// registered for the capability.
pub enum ToolOutcome {
    Invoked(Result<RuntimeToolResultPayload, RuntimeError>),
    NotFound,
}

/// The reply written when a tool request failed: the request's
/// identifiers, capability and correlation, status `error`, no output or
/// result, and the error's kind and message.
pub open spec fn tool_error_json(
    req: RuntimeToolRequestPayload,
    kind: Seq<char>,
    message: Seq<char>,
) -> JsonV {
    JsonV::Object(
        seq![
            ("task_id"@, JsonV::Str(req.task_id@)),
            ("capability"@, JsonV::Str(req.capability@)),
            ("request_id"@, opt_str_json(opt_view(req.request_id))),
            ("status"@, JsonV::Str("error"@)),
            ("output"@, JsonV::Null),
            ("result"@, JsonV::Null),
            ("error"@, kind_message_json(kind, message)),
            ("correlation_id"@, opt_str_json(opt_view(req.correlation_id))),
        ],
    )
}

/// The payload of the reply to a tool request: the tool's result; a
/// `tool_error` with the error's message when the tool failed; a
/// `capability_not_found` naming the capability when no tool serves it.
pub open spec fn tool_reply_payload(req: RuntimeToolRequestPayload, outcome: ToolOutcome) -> JsonV {
    match outcome {
        ToolOutcome::Invoked(Ok(res)) => res.spec_json(),
        ToolOutcome::Invoked(Err(e)) => tool_error_json(req, "tool_error"@, e.spec_message()),
        ToolOutcome::NotFound => tool_error_json(
            req,
            "capability_not_found"@,
            "tool not found: "@ + req.capability@,
        ),
    }
}

/// The failure reply to a tool request, with a given identifier and time.
pub fn tool_result_error_envelope(
    request_event: &EventEnvelope,
    request: &RuntimeToolRequestPayload,
    kind: &str,
    message: &str,
    event_id: String,
    timestamp: String,
) -> (r: EventEnvelope)
    ensures
        is_reply_envelope(
            r,
            RUNTIME_TOOL_RESULT@,
            request_event.id@,
            opt_view(request_event.correlation_id),
            event_id@,
            timestamp@,
            tool_error_json(*request, kind@, message@),
        ),
{
    let failure = RuntimeToolResultPayload {
        task_id: request.task_id.clone(),
        capability: request.capability.clone(),
        request_id: clone_opt_string(&request.request_id),
        status: owned("error"),
        output: None,
        result: None,
        error: kind_message(kind, message),
        correlation_id: clone_opt_string(&request.correlation_id),
    };
    let payload = failure.to_json();
    let mut e = envelope_with_id(RUNTIME_TOOL_RESULT, RUNTIME_SOURCE, event_id, timestamp, payload);
    e.causation_id = Some(request_event.id.clone());
    e.correlation_id = reply_correlation_of(request_event);
    e
}

/// The reply to a tool request, with a given identifier and time.
pub fn tool_result_envelope(
    request_event: &EventEnvelope,
    request: &RuntimeToolRequestPayload,
    outcome: ToolOutcome,
    event_id: String,
    timestamp: String,
) -> (r: EventEnvelope)
    ensures
        is_reply_envelope(
            r,
            RUNTIME_TOOL_RESULT@,
            request_event.id@,
            opt_view(request_event.correlation_id),
            event_id@,
            timestamp@,
            tool_reply_payload(*request, outcome),
        ),
{
    match outcome {
        ToolOutcome::Invoked(Ok(res)) => {
            let payload = res.to_json();
            let mut e = envelope_with_id(
                RUNTIME_TOOL_RESULT,
                RUNTIME_SOURCE,
                event_id,
                timestamp,
                payload,
            );
            e.causation_id = Some(request_event.id.clone());
            e.correlation_id = reply_correlation_of(request_event);
            e
        },
        ToolOutcome::Invoked(Err(err)) => tool_result_error_envelope(
            request_event,
            request,
            "tool_error",
            err.message().as_str(),
            event_id,
            timestamp,
        ),
        ToolOutcome::NotFound => {
            let message = concat("tool not found: ", request.capability.as_str());
            tool_result_error_envelope(
                request_event,
                request,
                "capability_not_found",
                message.as_str(),
                event_id,
                timestamp,
            )
        },
    }
}

/// The reply to a tool request, under a fresh identifier and the current
/// time.
pub fn tool_result_event(
    request_event: &EventEnvelope,
    request: &RuntimeToolRequestPayload,
    outcome: ToolOutcome,
) -> (r: EventEnvelope)
    ensures
        is_uuid_v4_text(r.id@),
        is_utc_rfc3339_text(r.timestamp@),
        is_reply_envelope(
            r,
            RUNTIME_TOOL_RESULT@,
            request_event.id@,
            opt_view(request_event.correlation_id),
            r.id@,
            r.timestamp@,
            tool_reply_payload(*request, outcome),
        ),
{
    let event_id = new_uuid();
    let timestamp = now_rfc3339();
    tool_result_envelope(request_event, request, outcome, event_id, timestamp)
}

/// The runtime's replies go out on subjects its own handlers do not listen
/// on, so publishing a reply never starts another round of request
/// handling.
pub proof fn law_replies_do_not_recurse()
    ensures
        forall|i: int|
            0 <= i < internal_subject_labels().len() ==> (#[trigger] internal_subject_labels()[i]).0
                != RUNTIME_LLM_RESPONSE@ && internal_subject_labels()[i].0 != RUNTIME_TOOL_RESULT@,
{
    reveal_strlit("runtime.agent.spawn");
    reveal_strlit("runtime.agent.ready");
    reveal_strlit("runtime.agent.exit");
    reveal_strlit("runtime.agent.error");
    reveal_strlit("runtime.task.assign");
    reveal_strlit("runtime.task.result");
    reveal_strlit("runtime.llm.request");
    reveal_strlit("runtime.tool.request");
    reveal_strlit("runtime.llm.response");
    reveal_strlit("runtime.tool.result");
    let l = internal_subject_labels();
    let a = RUNTIME_LLM_RESPONSE@;
    let b = RUNTIME_TOOL_RESULT@;
    assert(a[8] == 'l' && b[8] == 't' && b[9] == 'o');
    assert(l[0].0[8] == 'a' && l[1].0[8] == 'a' && l[2].0[8] == 'a' && l[3].0[8] == 'a');
    assert(l[4].0[9] == 'a' && l[5].0[9] == 'a' && l[4].0[8] == 't' && l[5].0[8] == 't');
    assert(l[6].0.len() == 19 && a.len() == 20 && l[6].0[8] == 'l');
    assert(l[7].0.len() == 20 && b.len() == 19 && l[7].0[8] == 't');
    assert forall|i: int| 0 <= i < l.len() implies (#[trigger] l[i]).0 != a && l[i].0 != b by {
        if i == 0 { assert(l[0].0[8] != a[8] && l[0].0[8] != b[8]); }
        if i == 1 { assert(l[1].0[8] != a[8] && l[1].0[8] != b[8]); }
        if i == 2 { assert(l[2].0[8] != a[8] && l[2].0[8] != b[8]); }
        if i == 3 { assert(l[3].0[8] != a[8] && l[3].0[8] != b[8]); }
        if i == 4 { assert(l[4].0[8] != a[8] && l[4].0[9] != b[9]); }
        if i == 5 { assert(l[5].0[8] != a[8] && l[5].0[9] != b[9]); }
        if i == 6 { assert(l[6].0.len() != a.len() && l[6].0[8] != b[8]); }
        if i == 7 { assert(l[7].0[8] != a[8] && l[7].0.len() != b.len()); }
    }
}

} // verus!
