//! Validation and normalization of payloads before they are published.
//!
//! A payload on a canonical subject with a payload record is read with that
//! record's schema and replaced by its written form; a request without a
//! string `request_id` gets the event's id as its `request_id`. Payloads on
//! subjects outside the protocol pass unchanged.
use vstd::prelude::*;
use crate::json::{Json, JsonV, json_get, key_index_from, lemma_key_index_from_bounds, obj_get, obj_set};
use crate::protocol::payload::{
    agent_spawn_schema, agent_spawn_schema_fields, lemma_agent_spawn_distinct_keys,
    agent_error_schema, agent_error_schema_fields, agent_exit_schema, agent_exit_schema_fields,
    agent_ready_schema, agent_ready_schema_fields, lemma_agent_error_distinct_keys,
    lemma_agent_exit_distinct_keys, lemma_agent_ready_distinct_keys,
    lemma_llm_request_distinct_keys, lemma_llm_response_distinct_keys,
    lemma_task_assign_distinct_keys, lemma_task_result_distinct_keys,
    lemma_tool_request_distinct_keys, lemma_tool_result_distinct_keys, llm_request_schema,
    llm_request_schema_fields, llm_response_schema, llm_response_schema_fields,
    task_assign_schema, task_assign_schema_fields, task_result_schema, task_result_schema_fields,
    tool_request_schema, tool_request_schema_fields, tool_result_schema,
    tool_result_schema_fields,
};
use crate::protocol::schema::{
    FieldKind, FieldSpec, distinct_keys, lemma_normalized_well_shaped, read_error, read_error_text,
    lemma_well_shaped_fixed, normalize_record, normalized, record_ok, shaped,
    well_shaped,
};
use crate::text::{concat, concat3, owned, str_eq};

verus! {

/// A payload that does not read with its subject's payload record.
#[derive(Clone, Debug, PartialEq)]
pub struct ValidationError {
    pub subject: String,
    pub reason: String,
}

impl ValidationError {
    /// The message that describes the error.
    pub open spec fn spec_message(&self) -> Seq<char> {
        "validation error for subject '"@ + self.subject@ + "': "@ + self.reason@
    }

    /// The message that describes the error.
    pub fn message(&self) -> (r: String)
        ensures
            r@ == self.spec_message(),
    {
        let head = concat3("validation error for subject '", self.subject.as_str(), "': ");
        concat(head.as_str(), self.reason.as_str())
    }
}

/// The payload record of a subject, with the record's name; `None` for
/// subjects whose payloads pass unchanged.
pub open spec fn subject_schema(subject: Seq<char>) -> Option<(Seq<(Seq<char>, FieldKind)>, Seq<char>)> {
    if subject == "runtime.agent.spawn"@ {
        Some((agent_spawn_schema(), "RuntimeAgentSpawnPayload"@))
    } else if subject == "runtime.agent.ready"@ {
        Some((agent_ready_schema(), "RuntimeAgentReadyPayload"@))
    } else if subject == "runtime.agent.exit"@ {
        Some((agent_exit_schema(), "RuntimeAgentExitPayload"@))
    } else if subject == "runtime.agent.error"@ {
        Some((agent_error_schema(), "RuntimeAgentErrorPayload"@))
    } else if subject == "runtime.task.assign"@ {
        Some((task_assign_schema(), "RuntimeTaskAssignPayload"@))
    } else if subject == "runtime.task.result"@ {
        Some((task_result_schema(), "RuntimeTaskResultPayload"@))
    } else if subject == "runtime.llm.request"@ {
        Some((llm_request_schema(), "RuntimeLLMRequestPayload"@))
    } else if subject == "runtime.llm.response"@ {
        Some((llm_response_schema(), "RuntimeLLMResponsePayload"@))
    } else if subject == "runtime.tool.request"@ {
        Some((tool_request_schema(), "RuntimeToolRequestPayload"@))
    } else if subject == "runtime.tool.result"@ {
        Some((tool_result_schema(), "RuntimeToolResultPayload"@))
    } else {
        None
    }
}

/// The payload record of a subject, empty for subjects without one.
pub open spec fn record_schema(subject: Seq<char>) -> Seq<(Seq<char>, FieldKind)> {
    match subject_schema(subject) {
        Some((s, _)) => s,
        None => Seq::empty(),
    }
}

/// The subjects whose payloads carry a `request_id`.
pub open spec fn is_request_subject(subject: Seq<char>) -> bool {
    subject == "runtime.llm.request"@ || subject == "runtime.tool.request"@
}

/// Whether the object has a string member `request_id`.
pub open spec fn has_request_id(n: JsonV) -> bool {
    json_get(n, "request_id"@) matches Some(JsonV::Str(_))
}

/// The object with its member `request_id` set to the given string.
pub open spec fn with_request_id(n: JsonV, event_id: Seq<char>) -> JsonV {
    JsonV::Object(obj_set(n->Object_0, "request_id"@, JsonV::Str(event_id)))
}

/// What validation gives for a payload on a subject: the payload to publish,
/// or the reason it is refused.
pub open spec fn validate_spec(subject: Seq<char>, event_id: Seq<char>, payload: JsonV) -> Result<
    JsonV,
    Seq<char>,
> {
    match subject_schema(subject) {
        None => Ok(payload),
        Some((s, name)) => if record_ok(s, payload) {
            let n = normalized(s, payload);
            if is_request_subject(subject) && !has_request_id(n) {
                Ok(with_request_id(n, event_id))
            } else {
                Ok(n)
            }
        } else {
            Err(name + ": "@ + read_error_text(s, name, payload))
        },
    }
}

/// The payload record of a subject and the record's name.
fn schema_of(subject: &str) -> (r: Option<(Vec<FieldSpec>, String)>)
    ensures
        match r {
            Some((f, n)) => subject_schema(subject@) == Some(
                (crate::protocol::schema::schema_view(f@), n@),
            ),
            None => subject_schema(subject@) is None,
        },
{
    if str_eq(subject, "runtime.agent.spawn") {
        Some((agent_spawn_schema_fields(), owned("RuntimeAgentSpawnPayload")))
    } else if str_eq(subject, "runtime.agent.ready") {
        Some((agent_ready_schema_fields(), owned("RuntimeAgentReadyPayload")))
    } else if str_eq(subject, "runtime.agent.exit") {
        Some((agent_exit_schema_fields(), owned("RuntimeAgentExitPayload")))
    } else if str_eq(subject, "runtime.agent.error") {
        Some((agent_error_schema_fields(), owned("RuntimeAgentErrorPayload")))
    } else if str_eq(subject, "runtime.task.assign") {
        Some((task_assign_schema_fields(), owned("RuntimeTaskAssignPayload")))
    } else if str_eq(subject, "runtime.task.result") {
        Some((task_result_schema_fields(), owned("RuntimeTaskResultPayload")))
    } else if str_eq(subject, "runtime.llm.request") {
        Some((llm_request_schema_fields(), owned("RuntimeLLMRequestPayload")))
    } else if str_eq(subject, "runtime.llm.response") {
        Some((llm_response_schema_fields(), owned("RuntimeLLMResponsePayload")))
    } else if str_eq(subject, "runtime.tool.request") {
        Some((tool_request_schema_fields(), owned("RuntimeToolRequestPayload")))
    } else if str_eq(subject, "runtime.tool.result") {
        Some((tool_result_schema_fields(), owned("RuntimeToolResultPayload")))
    } else {
        None
    }
}

/// Validates and normalizes a payload for a subject.
///
/// On a subject with a payload record, the payload must read with the
/// record's schema and is replaced by its written form; a
/// `runtime.llm.request` or `runtime.tool.request` without a string
/// `request_id` gets `event_id` as its `request_id`. Other payloads pass
/// unchanged. A refused payload gives a `ValidationError` naming the
/// subject, with the record's name and the cause as reason, the cause in
/// the words of a `serde` reader (`read_error_text`).
pub fn validate_and_normalize_payload(subject: &str, event_id: &str, payload: Json) -> (r: Result<
    Json,
    ValidationError,
>)
    ensures
        match r {
            Ok(v) => validate_spec(subject@, event_id@, payload@) == Ok::<JsonV, Seq<char>>(v@),
            Err(e) => validate_spec(subject@, event_id@, payload@) == Err::<JsonV, Seq<char>>(e.reason@)
                && e.subject@ == subject@,
        },
{
    let (fields, name) = match schema_of(subject) {
        Some(p) => p,
        None => {
            return Ok(payload);
        },
    };
    let n = match normalize_record(&fields, &payload) {
        Some(n) => n,
        None => {
            let detail = read_error(&fields, name.as_str(), &payload);
            let prefix = concat(name.as_str(), ": ");
            return Err(
                ValidationError { subject: owned(subject), reason: concat(prefix.as_str(), detail.as_str()) },
            );
        },
    };
    let is_request = str_eq(subject, "runtime.llm.request") || str_eq(subject, "runtime.tool.request");
    if is_request {
        let carries_id = match n.get("request_id") {
            Some(v) => match v.as_str() {
                Some(_) => true,
                None => false,
            },
            None => false,
        };
        if !carries_id {
            let mut m = n;
            proof {
                reveal_strlit("request_id");
            }
            m.set_member(owned("request_id"), Json::string(event_id));
            return Ok(m);
        }
    }
    Ok(n)
}

/// Setting a member and looking it up gives the value set.
pub proof fn lemma_obj_set_get(ms: Seq<(Seq<char>, JsonV)>, key: Seq<char>, value: JsonV)
    ensures
        obj_get(obj_set(ms, key, value), key) == Some(value),
{
    lemma_key_index_from_bounds(ms, key, 0);
    let k = key_index_from(ms, key, 0);
    let ns = obj_set(ms, key, value);
    if k < ms.len() {
        assert forall|j: int| 0 <= j < k implies ns[j].0 != key by {
            assert(ns[j] == ms[j]);
        }
        crate::protocol::schema::lemma_obj_get_at(ns, key, k);
    } else {
        assert forall|j: int| 0 <= j < ms.len() implies ns[j].0 != key by {
            assert(ns[j] == ms[j]);
        }
        crate::protocol::schema::lemma_obj_get_at(ns, key, ms.len() as int);
    }
}

/// After validation, a request carries a string `request_id`: its own if it
/// had one, and otherwise the event's id.
pub proof fn lemma_request_id_completed(subject: Seq<char>, event_id: Seq<char>, payload: JsonV)
    requires
        is_request_subject(subject),
        validate_spec(subject, event_id, payload) is Ok,
    ensures
        has_request_id(validate_spec(subject, event_id, payload)->Ok_0),
        ({
            let s = record_schema(subject);
            let n = normalized(s, payload);
            if has_request_id(n) {
                validate_spec(subject, event_id, payload)->Ok_0 == n
            } else {
                json_get(validate_spec(subject, event_id, payload)->Ok_0, "request_id"@) == Some(
                    JsonV::Str(event_id),
                )
            }
        }),
{
    let s = record_schema(subject);
    let n = normalized(s, payload);
    if !has_request_id(n) {
        lemma_obj_set_get(n->Object_0, "request_id"@, JsonV::Str(event_id));
    }
}

/// The payload records of the subjects have distinct keys.
pub proof fn lemma_subject_schema_distinct(subject: Seq<char>)
    requires
        subject_schema(subject) is Some,
    ensures
        distinct_keys(record_schema(subject)),
{
    lemma_agent_spawn_distinct_keys();
    lemma_agent_ready_distinct_keys();
    lemma_agent_exit_distinct_keys();
    lemma_agent_error_distinct_keys();
    lemma_task_assign_distinct_keys();
    lemma_task_result_distinct_keys();
    lemma_llm_request_distinct_keys();
    lemma_llm_response_distinct_keys();
    lemma_tool_request_distinct_keys();
    lemma_tool_result_distinct_keys();
}

/// The request records have a `request_id` member holding a string or null.
proof fn lemma_request_schema_has_request_id(subject: Seq<char>)
    requires
        is_request_subject(subject),
    ensures
        subject_schema(subject) is Some,
        record_schema(subject).len() > 1,
        record_schema(subject)[1] == ("request_id"@, FieldKind::OptStr),
{
    reveal_strlit("runtime.agent.spawn");
    reveal_strlit("runtime.agent.ready");
    reveal_strlit("runtime.agent.exit");
    reveal_strlit("runtime.agent.error");
    reveal_strlit("runtime.task.assign");
    reveal_strlit("runtime.task.result");
    reveal_strlit("runtime.llm.request");
    reveal_strlit("runtime.llm.response");
    reveal_strlit("runtime.tool.request");
    reveal_strlit("runtime.tool.result");
    assert("runtime.llm.request"@[8] != "runtime.agent.spawn"@[8]);
    assert("runtime.llm.request"@[8] != "runtime.agent.ready"@[8]);
    assert("runtime.llm.request"@.len() != "runtime.agent.exit"@.len());
    assert("runtime.llm.request"@[8] != "runtime.agent.error"@[8]);
    assert("runtime.llm.request"@[8] != "runtime.task.assign"@[8]);
    assert("runtime.llm.request"@[8] != "runtime.task.result"@[8]);
    assert("runtime.llm.request"@.len() != "runtime.llm.response"@.len());
    assert("runtime.llm.request"@.len() != "runtime.tool.request"@.len());
    assert("runtime.llm.request"@[8] != "runtime.tool.result"@[8]);
    assert("runtime.tool.request"@.len() != "runtime.agent.spawn"@.len());
    assert("runtime.tool.request"@.len() != "runtime.agent.ready"@.len());
    assert("runtime.tool.request"@.len() != "runtime.agent.exit"@.len());
    assert("runtime.tool.request"@.len() != "runtime.agent.error"@.len());
    assert("runtime.tool.request"@.len() != "runtime.task.assign"@.len());
    assert("runtime.tool.request"@.len() != "runtime.task.result"@.len());
    assert("runtime.tool.request"@.len() != "runtime.llm.request"@.len());
    assert("runtime.tool.request"@[8] != "runtime.llm.response"@[8]);
    assert("runtime.tool.request"@.len() != "runtime.tool.result"@.len());
}

/// Validating a payload that validation already produced, on the same
/// subject, gives it back unchanged, whatever the event id.
pub proof fn lemma_validate_idempotent(
    subject: Seq<char>,
    event_id: Seq<char>,
    other_event_id: Seq<char>,
    payload: JsonV,
)
    requires
        validate_spec(subject, event_id, payload) is Ok,
    ensures
        validate_spec(subject, other_event_id, validate_spec(subject, event_id, payload)->Ok_0)
            == validate_spec(subject, event_id, payload),
{
    match subject_schema(subject) {
        None => {},
        Some((s, name)) => {
            lemma_subject_schema_distinct(subject);
            let n = normalized(s, payload);
            lemma_normalized_well_shaped(s, payload);
            lemma_well_shaped_fixed(s, n);
            if is_request_subject(subject) && !has_request_id(n) {
                lemma_request_schema_has_request_id(subject);
                let w = with_request_id(n, event_id);
                // The member `request_id` sits at position 1, so setting it
                // keeps the written form.
                let ms = n->Object_0;
                assert(ms[1].0 == "request_id"@);
                assert forall|j: int| 0 <= j < 1 implies ms[j].0 != "request_id"@ by {
                    assert(ms[j].0 == s[j].0);
                }
                crate::protocol::schema::lemma_obj_get_at(ms, "request_id"@, 1);
                crate::protocol::schema::lemma_key_index_from_reach(ms, "request_id"@, 0, 1);
                assert(w->Object_0 == ms.update(1, ("request_id"@, JsonV::Str(event_id))));
                assert(well_shaped(s, w)) by {
                    assert forall|i: int| 0 <= i < s.len() implies (#[trigger] w->Object_0[i]).0 == s[i].0
                        && shaped(s[i].1, w->Object_0[i].1) by {
                        if i != 1 {
                            assert(w->Object_0[i] == ms[i]);
                        }
                    }
                }
                lemma_well_shaped_fixed(s, w);
                lemma_request_id_completed(subject, event_id, payload);
            }
        },
    }
}

/// A payload on a subject without a payload record is published as it is,
/// whatever the event id.
pub proof fn lemma_unrecorded_subject_unchanged(subject: Seq<char>, event_id: Seq<char>, payload: JsonV)
    requires
        subject_schema(subject) is None,
    ensures
        validate_spec(subject, event_id, payload) == Ok::<JsonV, Seq<char>>(payload),
{
}

} // verus!
