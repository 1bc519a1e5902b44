//! The payload records of the canonical runtime subjects, with their
//! written JSON form and the reading of that form back.
use vstd::prelude::*;
use crate::json::{Json, JsonV, key_index_from, opt_str_json, str_list_json};
use crate::protocol::schema::{
    FieldKind, FieldSpec, all_str, distinct_keys, encode_json_list, encode_opt_json, field_value,
    encode_opt_u64, field, json_list, lemma_normalized_well_shaped, lemma_well_shaped_fixed,
    normalize_record, normalized, opt_json, opt_u64_json, record_ok, schema_view, shaped,
    take_json_list, take_opt_json, take_opt_str, take_opt_u64, take_str, take_str_list,
};
use crate::text::{opt_view, owned, views};

verus! {

/// Payload of `runtime.agent.spawn`: the state the new worker starts in.
#[derive(Clone, Debug, PartialEq)]
pub struct RuntimeAgentSpawnPayload {
    pub state: String,
}

/// The members of a `RuntimeAgentSpawnPayload`, in written order.
pub open spec fn agent_spawn_schema() -> Seq<(Seq<char>, FieldKind)> {
    seq![("state"@, FieldKind::Str)]
}

/// The members of a `RuntimeAgentSpawnPayload`, in written order.
pub fn agent_spawn_schema_fields() -> (r: Vec<FieldSpec>)
    ensures
        schema_view(r@) == agent_spawn_schema(),
{
    let mut r: Vec<FieldSpec> = Vec::new();
    r.push(field("state", FieldKind::Str));
    assert(schema_view(r@) =~= agent_spawn_schema());
    r
}

impl RuntimeAgentSpawnPayload {
    /// The record in written form.
    pub open spec fn spec_json(&self) -> JsonV {
        JsonV::Object(
            seq![
                ("state"@, JsonV::Str(self.state@)),
            ],
        )
    }

    /// The record written as a JSON object, one member per field in order.
    pub fn to_json(&self) -> (r: Json)
        ensures
            r@ == self.spec_json(),
    {
        let mut m: Vec<(String, Json)> = Vec::new();
        let e0 = Json::Str(self.state.clone());
        assert(e0@ == JsonV::Str(self.state@));
        m.push((owned("state"), e0));
        let r = Json::Object(m);
        assert(r@->Object_0[0] == (m@[0].0@, m@[0].1@));
        assert(r@->Object_0 =~= self.spec_json()->Object_0);
        r
    }

    /// Reads the record from a JSON object or array; `None` exactly when
    /// the value cannot be read with the record's schema.
    pub fn from_json(j: &Json) -> (r: Option<Self>)
        ensures
            r is Some <==> record_ok(agent_spawn_schema(), j@),
            r matches Some(q) ==> q.spec_json() == normalized(agent_spawn_schema(), j@),
    {
        let n = match normalize_record(&agent_spawn_schema_fields(), j) {
            Some(n) => n,
            None => return None,
        };
        proof {
            lemma_normalized_well_shaped(agent_spawn_schema(), j@);
        }
        match &n {
            Json::Object(m) => {
                proof {
                    assert(n@ == normalized(agent_spawn_schema(), j@));
                    assert(crate::protocol::schema::well_shaped(agent_spawn_schema(), n@));
                    assert(n@->Object_0.len() == 1);
                    assert(m.len() == 1);
                    assert(agent_spawn_schema()[0].1 == FieldKind::Str);
                    assert(n@->Object_0[0] == (m@[0].0@, m@[0].1@));
                    assert(shaped(FieldKind::Str, n@->Object_0[0].1));
                }
                let v0 = take_str(&m[0].1);
                let q = RuntimeAgentSpawnPayload {
                    state: v0,
                };
                assert(q.spec_json()->Object_0 =~= n@->Object_0);
                Some(q)
            },
            _ => None,
        }
    }
}

/// No two members of a `RuntimeAgentSpawnPayload` share a key.
pub proof fn lemma_agent_spawn_distinct_keys()
    ensures
        distinct_keys(agent_spawn_schema()),
{
    reveal_strlit("state");
    let s = agent_spawn_schema();
}

/// Writing a `RuntimeAgentSpawnPayload` and reading it back gives the same written form:
/// the written object reads, and reads as itself.
pub proof fn lemma_agent_spawn_round_trip(p: RuntimeAgentSpawnPayload)
    ensures
        record_ok(agent_spawn_schema(), p.spec_json()),
        normalized(agent_spawn_schema(), p.spec_json()) == p.spec_json(),
{
    lemma_agent_spawn_distinct_keys();
    let s = agent_spawn_schema();
    let o = p.spec_json();
    assert forall|i: int| 0 <= i < s.len() implies (#[trigger] o->Object_0[i]).0 == s[i].0 && shaped(s[i].1, o->Object_0[i].1) by {
    }
    lemma_well_shaped_fixed(s, o);
}

/// Payload of `runtime.agent.ready`: a worker and the capabilities it offers.
#[derive(Clone, Debug, PartialEq)]
pub struct RuntimeAgentReadyPayload {
    pub agent_id: String,
    pub capabilities: Vec<String>,
}

/// An agent that announces itself with only its identifier is ready with
/// no capabilities: the payload reads, and in written form has the
/// identifier and an empty capability list.
pub proof fn law_ready_without_capabilities(agent_id: Seq<char>)
    ensures
        record_ok(agent_ready_schema(), JsonV::Object(seq![("agent_id"@, JsonV::Str(agent_id))])),
        normalized(agent_ready_schema(), JsonV::Object(seq![("agent_id"@, JsonV::Str(agent_id))]))
            == JsonV::Object(
            seq![("agent_id"@, JsonV::Str(agent_id)), ("capabilities"@, JsonV::Array(Seq::empty()))],
        ),
{
    reveal_strlit("agent_id");
    reveal_strlit("capabilities");
    let ms = seq![("agent_id"@, JsonV::Str(agent_id))];
    let p = JsonV::Object(ms);
    let s = agent_ready_schema();
    assert("agent_id"@ != "capabilities"@) by {
        assert("agent_id"@[0] != "capabilities"@[0]);
    }
    assert(key_index_from(ms, "agent_id"@, 0) == 0);
    assert(key_index_from(ms, "capabilities"@, 1) == 1);
    assert(key_index_from(ms, "capabilities"@, 0) == 1);
    assert(field_value(s, p, 0) == Some(JsonV::Str(agent_id)));
    assert(field_value(s, p, 1) == Some(JsonV::Array(Seq::<JsonV>::empty())));
    assert forall|i: int| 0 <= i < s.len() implies (#[trigger] field_value(s, p, i)) is Some by {
        if i == 0 {
        } else {
            assert(i == 1);
        }
    }
    assert(normalized(s, p)->Object_0 =~= seq![
        ("agent_id"@, JsonV::Str(agent_id)),
        ("capabilities"@, JsonV::Array(Seq::empty())),
    ]);
}

/// The members of a `RuntimeAgentReadyPayload`, in written order.
pub open spec fn agent_ready_schema() -> Seq<(Seq<char>, FieldKind)> {
    seq![("agent_id"@, FieldKind::Str), ("capabilities"@, FieldKind::StrList)]
}

/// The members of a `RuntimeAgentReadyPayload`, in written order.
pub fn agent_ready_schema_fields() -> (r: Vec<FieldSpec>)
    ensures
        schema_view(r@) == agent_ready_schema(),
{
    let mut r: Vec<FieldSpec> = Vec::new();
    r.push(field("agent_id", FieldKind::Str));
    r.push(field("capabilities", FieldKind::StrList));
    assert(schema_view(r@) =~= agent_ready_schema());
    r
}

impl RuntimeAgentReadyPayload {
    /// The record in written form.
    pub open spec fn spec_json(&self) -> JsonV {
        JsonV::Object(
            seq![
                ("agent_id"@, JsonV::Str(self.agent_id@)),
                ("capabilities"@, str_list_json(views(self.capabilities@))),
            ],
        )
    }

    /// The record written as a JSON object, one member per field in order.
    pub fn to_json(&self) -> (r: Json)
        ensures
            r@ == self.spec_json(),
    {
        let mut m: Vec<(String, Json)> = Vec::new();
        let e0 = Json::Str(self.agent_id.clone());
        assert(e0@ == JsonV::Str(self.agent_id@));
        m.push((owned("agent_id"), e0));
        let e1 = Json::string_array(&self.capabilities);
        assert(e1@ == str_list_json(views(self.capabilities@)));
        m.push((owned("capabilities"), e1));
        let r = Json::Object(m);
        assert(r@->Object_0[0] == (m@[0].0@, m@[0].1@));
        assert(r@->Object_0[1] == (m@[1].0@, m@[1].1@));
        assert(r@->Object_0 =~= self.spec_json()->Object_0);
        r
    }

    /// Reads the record from a JSON object or array; `None` exactly when
    /// the value cannot be read with the record's schema.
    pub fn from_json(j: &Json) -> (r: Option<Self>)
        ensures
            r is Some <==> record_ok(agent_ready_schema(), j@),
            r matches Some(q) ==> q.spec_json() == normalized(agent_ready_schema(), j@),
    {
        let n = match normalize_record(&agent_ready_schema_fields(), j) {
            Some(n) => n,
            None => return None,
        };
        proof {
            lemma_normalized_well_shaped(agent_ready_schema(), j@);
        }
        match &n {
            Json::Object(m) => {
                proof {
                    assert(n@ == normalized(agent_ready_schema(), j@));
                    assert(crate::protocol::schema::well_shaped(agent_ready_schema(), n@));
                    assert(n@->Object_0.len() == 2);
                    assert(m.len() == 2);
                    assert(agent_ready_schema()[0].1 == FieldKind::Str);
                    assert(n@->Object_0[0] == (m@[0].0@, m@[0].1@));
                    assert(shaped(FieldKind::Str, n@->Object_0[0].1));
                    assert(agent_ready_schema()[1].1 == FieldKind::StrList);
                    assert(n@->Object_0[1] == (m@[1].0@, m@[1].1@));
                    assert(shaped(FieldKind::StrList, n@->Object_0[1].1));
                }
                let v0 = take_str(&m[0].1);
                let v1 = take_str_list(&m[1].1);
                let q = RuntimeAgentReadyPayload {
                    agent_id: v0,
                    capabilities: v1,
                };
                assert(q.spec_json()->Object_0 =~= n@->Object_0);
                Some(q)
            },
            _ => None,
        }
    }
}

/// No two members of a `RuntimeAgentReadyPayload` share a key.
pub proof fn lemma_agent_ready_distinct_keys()
    ensures
        distinct_keys(agent_ready_schema()),
{
    reveal_strlit("agent_id");
    reveal_strlit("capabilities");
    let s = agent_ready_schema();
    assert("agent_id"@.len() != "capabilities"@.len());
}

/// Writing a `RuntimeAgentReadyPayload` and reading it back gives the same written form:
/// the written object reads, and reads as itself.
pub proof fn lemma_agent_ready_round_trip(p: RuntimeAgentReadyPayload)
    ensures
        record_ok(agent_ready_schema(), p.spec_json()),
        normalized(agent_ready_schema(), p.spec_json()) == p.spec_json(),
{
    lemma_agent_ready_distinct_keys();
    let s = agent_ready_schema();
    let o = p.spec_json();
    assert forall|i: int| 0 <= i < s.len() implies (#[trigger] o->Object_0[i]).0 == s[i].0 && shaped(s[i].1, o->Object_0[i].1) by {
        if i == 1 { assert(all_str(o->Object_0[1].1->Array_0)); }
    }
    lemma_well_shaped_fixed(s, o);
}

/// Payload of `runtime.agent.exit`: a worker that ended, and why.
#[derive(Clone, Debug, PartialEq)]
pub struct RuntimeAgentExitPayload {
    pub agent_id: String,
    pub reason: Option<String>,
}

/// The members of a `RuntimeAgentExitPayload`, in written order.
pub open spec fn agent_exit_schema() -> Seq<(Seq<char>, FieldKind)> {
    seq![("agent_id"@, FieldKind::Str), ("reason"@, FieldKind::OptStr)]
}

/// The members of a `RuntimeAgentExitPayload`, in written order.
pub fn agent_exit_schema_fields() -> (r: Vec<FieldSpec>)
    ensures
        schema_view(r@) == agent_exit_schema(),
{
    let mut r: Vec<FieldSpec> = Vec::new();
    r.push(field("agent_id", FieldKind::Str));
    r.push(field("reason", FieldKind::OptStr));
    assert(schema_view(r@) =~= agent_exit_schema());
    r
}

impl RuntimeAgentExitPayload {
    /// The record in written form.
    pub open spec fn spec_json(&self) -> JsonV {
        JsonV::Object(
            seq![
                ("agent_id"@, JsonV::Str(self.agent_id@)),
                ("reason"@, opt_str_json(opt_view(self.reason))),
            ],
        )
    }

    /// The record written as a JSON object, one member per field in order.
    pub fn to_json(&self) -> (r: Json)
        ensures
            r@ == self.spec_json(),
    {
        let mut m: Vec<(String, Json)> = Vec::new();
        let e0 = Json::Str(self.agent_id.clone());
        assert(e0@ == JsonV::Str(self.agent_id@));
        m.push((owned("agent_id"), e0));
        let e1 = Json::opt_string(&self.reason);
        assert(e1@ == opt_str_json(opt_view(self.reason)));
        m.push((owned("reason"), e1));
        let r = Json::Object(m);
        assert(r@->Object_0[0] == (m@[0].0@, m@[0].1@));
        assert(r@->Object_0[1] == (m@[1].0@, m@[1].1@));
        assert(r@->Object_0 =~= self.spec_json()->Object_0);
        r
    }

    /// Reads the record from a JSON object or array; `None` exactly when
    /// the value cannot be read with the record's schema.
    pub fn from_json(j: &Json) -> (r: Option<Self>)
        ensures
            r is Some <==> record_ok(agent_exit_schema(), j@),
            r matches Some(q) ==> q.spec_json() == normalized(agent_exit_schema(), j@),
    {
        let n = match normalize_record(&agent_exit_schema_fields(), j) {
            Some(n) => n,
            None => return None,
        };
        proof {
            lemma_normalized_well_shaped(agent_exit_schema(), j@);
        }
        match &n {
            Json::Object(m) => {
                proof {
                    assert(n@ == normalized(agent_exit_schema(), j@));
                    assert(crate::protocol::schema::well_shaped(agent_exit_schema(), n@));
                    assert(n@->Object_0.len() == 2);
                    assert(m.len() == 2);
                    assert(agent_exit_schema()[0].1 == FieldKind::Str);
                    assert(n@->Object_0[0] == (m@[0].0@, m@[0].1@));
                    assert(shaped(FieldKind::Str, n@->Object_0[0].1));
                    assert(agent_exit_schema()[1].1 == FieldKind::OptStr);
                    assert(n@->Object_0[1] == (m@[1].0@, m@[1].1@));
                    assert(shaped(FieldKind::OptStr, n@->Object_0[1].1));
                }
                let v0 = take_str(&m[0].1);
                let v1 = take_opt_str(&m[1].1);
                let q = RuntimeAgentExitPayload {
                    agent_id: v0,
                    reason: v1,
                };
                assert(q.spec_json()->Object_0 =~= n@->Object_0);
                Some(q)
            },
            _ => None,
        }
    }
}

/// No two members of a `RuntimeAgentExitPayload` share a key.
pub proof fn lemma_agent_exit_distinct_keys()
    ensures
        distinct_keys(agent_exit_schema()),
{
    reveal_strlit("agent_id");
    reveal_strlit("reason");
    let s = agent_exit_schema();
    assert("agent_id"@.len() != "reason"@.len());
}

/// Writing a `RuntimeAgentExitPayload` and reading it back gives the same written form:
/// the written object reads, and reads as itself.
pub proof fn lemma_agent_exit_round_trip(p: RuntimeAgentExitPayload)
    ensures
        record_ok(agent_exit_schema(), p.spec_json()),
        normalized(agent_exit_schema(), p.spec_json()) == p.spec_json(),
{
    lemma_agent_exit_distinct_keys();
    let s = agent_exit_schema();
    let o = p.spec_json();
    assert forall|i: int| 0 <= i < s.len() implies (#[trigger] o->Object_0[i]).0 == s[i].0 && shaped(s[i].1, o->Object_0[i].1) by {
    }
    lemma_well_shaped_fixed(s, o);
}

/// Payload of `runtime.agent.error`: the failing worker and task, if known, and the error.
#[derive(Clone, Debug, PartialEq)]
pub struct RuntimeAgentErrorPayload {
    pub agent_id: Option<String>,
    pub task_id: Option<String>,
    pub error: Json,
}

/// The members of a `RuntimeAgentErrorPayload`, in written order.
pub open spec fn agent_error_schema() -> Seq<(Seq<char>, FieldKind)> {
    seq![("agent_id"@, FieldKind::OptStr), ("task_id"@, FieldKind::OptStr), ("error"@, FieldKind::Any)]
}

/// The members of a `RuntimeAgentErrorPayload`, in written order.
pub fn agent_error_schema_fields() -> (r: Vec<FieldSpec>)
    ensures
        schema_view(r@) == agent_error_schema(),
{
    let mut r: Vec<FieldSpec> = Vec::new();
    r.push(field("agent_id", FieldKind::OptStr));
    r.push(field("task_id", FieldKind::OptStr));
    r.push(field("error", FieldKind::Any));
    assert(schema_view(r@) =~= agent_error_schema());
    r
}

impl RuntimeAgentErrorPayload {
    /// The record in written form.
    pub open spec fn spec_json(&self) -> JsonV {
        JsonV::Object(
            seq![
                ("agent_id"@, opt_str_json(opt_view(self.agent_id))),
                ("task_id"@, opt_str_json(opt_view(self.task_id))),
                ("error"@, self.error@),
            ],
        )
    }

    /// The record written as a JSON object, one member per field in order.
    pub fn to_json(&self) -> (r: Json)
        ensures
            r@ == self.spec_json(),
    {
        let mut m: Vec<(String, Json)> = Vec::new();
        let e0 = Json::opt_string(&self.agent_id);
        assert(e0@ == opt_str_json(opt_view(self.agent_id)));
        m.push((owned("agent_id"), e0));
        let e1 = Json::opt_string(&self.task_id);
        assert(e1@ == opt_str_json(opt_view(self.task_id)));
        m.push((owned("task_id"), e1));
        let e2 = self.error.deep_clone();
        assert(e2@ == self.error@);
        m.push((owned("error"), e2));
        let r = Json::Object(m);
        assert(r@->Object_0[0] == (m@[0].0@, m@[0].1@));
        assert(r@->Object_0[1] == (m@[1].0@, m@[1].1@));
        assert(r@->Object_0[2] == (m@[2].0@, m@[2].1@));
        assert(r@->Object_0 =~= self.spec_json()->Object_0);
        r
    }

    /// Reads the record from a JSON object or array; `None` exactly when
    /// the value cannot be read with the record's schema.
    pub fn from_json(j: &Json) -> (r: Option<Self>)
        ensures
            r is Some <==> record_ok(agent_error_schema(), j@),
            r matches Some(q) ==> q.spec_json() == normalized(agent_error_schema(), j@),
    {
        let n = match normalize_record(&agent_error_schema_fields(), j) {
            Some(n) => n,
            None => return None,
        };
        proof {
            lemma_normalized_well_shaped(agent_error_schema(), j@);
        }
        match &n {
            Json::Object(m) => {
                proof {
                    assert(n@ == normalized(agent_error_schema(), j@));
                    assert(crate::protocol::schema::well_shaped(agent_error_schema(), n@));
                    assert(n@->Object_0.len() == 3);
                    assert(m.len() == 3);
                    assert(agent_error_schema()[0].1 == FieldKind::OptStr);
                    assert(n@->Object_0[0] == (m@[0].0@, m@[0].1@));
                    assert(shaped(FieldKind::OptStr, n@->Object_0[0].1));
                    assert(agent_error_schema()[1].1 == FieldKind::OptStr);
                    assert(n@->Object_0[1] == (m@[1].0@, m@[1].1@));
                    assert(shaped(FieldKind::OptStr, n@->Object_0[1].1));
                    assert(agent_error_schema()[2].1 == FieldKind::Any);
                    assert(n@->Object_0[2] == (m@[2].0@, m@[2].1@));
                    assert(shaped(FieldKind::Any, n@->Object_0[2].1));
                }
                let v0 = take_opt_str(&m[0].1);
                let v1 = take_opt_str(&m[1].1);
                let v2 = m[2].1.deep_clone();
                let q = RuntimeAgentErrorPayload {
                    agent_id: v0,
                    task_id: v1,
                    error: v2,
                };
                assert(q.spec_json()->Object_0 =~= n@->Object_0);
                Some(q)
            },
            _ => None,
        }
    }
}

/// No two members of a `RuntimeAgentErrorPayload` share a key.
pub proof fn lemma_agent_error_distinct_keys()
    ensures
        distinct_keys(agent_error_schema()),
{
    reveal_strlit("agent_id");
    reveal_strlit("task_id");
    reveal_strlit("error");
    let s = agent_error_schema();
    assert("agent_id"@.len() != "task_id"@.len());
    assert("agent_id"@.len() != "error"@.len());
    assert("task_id"@.len() != "error"@.len());
}

/// Writing a `RuntimeAgentErrorPayload` and reading it back gives the same written form:
/// the written object reads, and reads as itself.
pub proof fn lemma_agent_error_round_trip(p: RuntimeAgentErrorPayload)
    ensures
        record_ok(agent_error_schema(), p.spec_json()),
        normalized(agent_error_schema(), p.spec_json()) == p.spec_json(),
{
    lemma_agent_error_distinct_keys();
    let s = agent_error_schema();
    let o = p.spec_json();
    assert forall|i: int| 0 <= i < s.len() implies (#[trigger] o->Object_0[i]).0 == s[i].0 && shaped(s[i].1, o->Object_0[i].1) by {
    }
    lemma_well_shaped_fixed(s, o);
}

/// Payload of `runtime.task.assign`: a task, its input, the capabilities it needs and the worker it goes to.
#[derive(Clone, Debug, PartialEq)]
pub struct RuntimeTaskAssignPayload {
    pub task_id: String,
    pub input: Json,
    pub capabilities: Vec<String>,
    pub metadata: Json,
    pub agent_id: Option<String>,
    pub parent_task_id: Option<String>,
    pub correlation_id: Option<String>,
}

/// The members of a `RuntimeTaskAssignPayload`, in written order.
pub open spec fn task_assign_schema() -> Seq<(Seq<char>, FieldKind)> {
    seq![("task_id"@, FieldKind::Str), ("input"@, FieldKind::Any), ("capabilities"@, FieldKind::StrList), ("metadata"@, FieldKind::Any), ("agent_id"@, FieldKind::OptStr), ("parent_task_id"@, FieldKind::OptStr), ("correlation_id"@, FieldKind::OptStr)]
}

/// The members of a `RuntimeTaskAssignPayload`, in written order.
pub fn task_assign_schema_fields() -> (r: Vec<FieldSpec>)
    ensures
        schema_view(r@) == task_assign_schema(),
{
    let mut r: Vec<FieldSpec> = Vec::new();
    r.push(field("task_id", FieldKind::Str));
    r.push(field("input", FieldKind::Any));
    r.push(field("capabilities", FieldKind::StrList));
    r.push(field("metadata", FieldKind::Any));
    r.push(field("agent_id", FieldKind::OptStr));
    r.push(field("parent_task_id", FieldKind::OptStr));
    r.push(field("correlation_id", FieldKind::OptStr));
    assert(schema_view(r@) =~= task_assign_schema());
    r
}

impl RuntimeTaskAssignPayload {
    /// The record in written form.
    pub open spec fn spec_json(&self) -> JsonV {
        JsonV::Object(
            seq![
                ("task_id"@, JsonV::Str(self.task_id@)),
                ("input"@, self.input@),
                ("capabilities"@, str_list_json(views(self.capabilities@))),
                ("metadata"@, self.metadata@),
                ("agent_id"@, opt_str_json(opt_view(self.agent_id))),
                ("parent_task_id"@, opt_str_json(opt_view(self.parent_task_id))),
                ("correlation_id"@, opt_str_json(opt_view(self.correlation_id))),
            ],
        )
    }

    /// The record written as a JSON object, one member per field in order.
    pub fn to_json(&self) -> (r: Json)
        ensures
            r@ == self.spec_json(),
    {
        let mut m: Vec<(String, Json)> = Vec::new();
        let e0 = Json::Str(self.task_id.clone());
        assert(e0@ == JsonV::Str(self.task_id@));
        m.push((owned("task_id"), e0));
        let e1 = self.input.deep_clone();
        assert(e1@ == self.input@);
        m.push((owned("input"), e1));
        let e2 = Json::string_array(&self.capabilities);
        assert(e2@ == str_list_json(views(self.capabilities@)));
        m.push((owned("capabilities"), e2));
        let e3 = self.metadata.deep_clone();
        assert(e3@ == self.metadata@);
        m.push((owned("metadata"), e3));
        let e4 = Json::opt_string(&self.agent_id);
        assert(e4@ == opt_str_json(opt_view(self.agent_id)));
        m.push((owned("agent_id"), e4));
        let e5 = Json::opt_string(&self.parent_task_id);
        assert(e5@ == opt_str_json(opt_view(self.parent_task_id)));
        m.push((owned("parent_task_id"), e5));
        let e6 = Json::opt_string(&self.correlation_id);
        assert(e6@ == opt_str_json(opt_view(self.correlation_id)));
        m.push((owned("correlation_id"), e6));
        let r = Json::Object(m);
        assert(r@->Object_0[0] == (m@[0].0@, m@[0].1@));
        assert(r@->Object_0[1] == (m@[1].0@, m@[1].1@));
        assert(r@->Object_0[2] == (m@[2].0@, m@[2].1@));
        assert(r@->Object_0[3] == (m@[3].0@, m@[3].1@));
        assert(r@->Object_0[4] == (m@[4].0@, m@[4].1@));
        assert(r@->Object_0[5] == (m@[5].0@, m@[5].1@));
        assert(r@->Object_0[6] == (m@[6].0@, m@[6].1@));
        assert(r@->Object_0 =~= self.spec_json()->Object_0);
        r
    }

    /// Reads the record from a JSON object or array; `None` exactly when
    /// the value cannot be read with the record's schema.
    pub fn from_json(j: &Json) -> (r: Option<Self>)
        ensures
            r is Some <==> record_ok(task_assign_schema(), j@),
            r matches Some(q) ==> q.spec_json() == normalized(task_assign_schema(), j@),
    {
        let n = match normalize_record(&task_assign_schema_fields(), j) {
            Some(n) => n,
            None => return None,
        };
        proof {
            lemma_normalized_well_shaped(task_assign_schema(), j@);
        }
        match &n {
            Json::Object(m) => {
                proof {
                    assert(n@ == normalized(task_assign_schema(), j@));
                    assert(crate::protocol::schema::well_shaped(task_assign_schema(), n@));
                    assert(n@->Object_0.len() == 7);
                    assert(m.len() == 7);
                    assert(task_assign_schema()[0].1 == FieldKind::Str);
                    assert(n@->Object_0[0] == (m@[0].0@, m@[0].1@));
                    assert(shaped(FieldKind::Str, n@->Object_0[0].1));
                    assert(task_assign_schema()[1].1 == FieldKind::Any);
                    assert(n@->Object_0[1] == (m@[1].0@, m@[1].1@));
                    assert(shaped(FieldKind::Any, n@->Object_0[1].1));
                    assert(task_assign_schema()[2].1 == FieldKind::StrList);
                    assert(n@->Object_0[2] == (m@[2].0@, m@[2].1@));
                    assert(shaped(FieldKind::StrList, n@->Object_0[2].1));
                    assert(task_assign_schema()[3].1 == FieldKind::Any);
                    assert(n@->Object_0[3] == (m@[3].0@, m@[3].1@));
                    assert(shaped(FieldKind::Any, n@->Object_0[3].1));
                    assert(task_assign_schema()[4].1 == FieldKind::OptStr);
                    assert(n@->Object_0[4] == (m@[4].0@, m@[4].1@));
                    assert(shaped(FieldKind::OptStr, n@->Object_0[4].1));
                    assert(task_assign_schema()[5].1 == FieldKind::OptStr);
                    assert(n@->Object_0[5] == (m@[5].0@, m@[5].1@));
                    assert(shaped(FieldKind::OptStr, n@->Object_0[5].1));
                    assert(task_assign_schema()[6].1 == FieldKind::OptStr);
                    assert(n@->Object_0[6] == (m@[6].0@, m@[6].1@));
                    assert(shaped(FieldKind::OptStr, n@->Object_0[6].1));
                }
                let v0 = take_str(&m[0].1);
                let v1 = m[1].1.deep_clone();
                let v2 = take_str_list(&m[2].1);
                let v3 = m[3].1.deep_clone();
                let v4 = take_opt_str(&m[4].1);
                let v5 = take_opt_str(&m[5].1);
                let v6 = take_opt_str(&m[6].1);
                let q = RuntimeTaskAssignPayload {
                    task_id: v0,
                    input: v1,
                    capabilities: v2,
                    metadata: v3,
                    agent_id: v4,
                    parent_task_id: v5,
                    correlation_id: v6,
                };
                assert(q.spec_json()->Object_0 =~= n@->Object_0);
                Some(q)
            },
            _ => None,
        }
    }
}

/// No two members of a `RuntimeTaskAssignPayload` share a key.
pub proof fn lemma_task_assign_distinct_keys()
    ensures
        distinct_keys(task_assign_schema()),
{
    reveal_strlit("task_id");
    reveal_strlit("input");
    reveal_strlit("capabilities");
    reveal_strlit("metadata");
    reveal_strlit("agent_id");
    reveal_strlit("parent_task_id");
    reveal_strlit("correlation_id");
    let s = task_assign_schema();
    assert("task_id"@.len() != "input"@.len());
    assert("task_id"@.len() != "capabilities"@.len());
    assert("task_id"@.len() != "metadata"@.len());
    assert("task_id"@.len() != "agent_id"@.len());
    assert("task_id"@.len() != "parent_task_id"@.len());
    assert("task_id"@.len() != "correlation_id"@.len());
    assert("input"@.len() != "capabilities"@.len());
    assert("input"@.len() != "metadata"@.len());
    assert("input"@.len() != "agent_id"@.len());
    assert("input"@.len() != "parent_task_id"@.len());
    assert("input"@.len() != "correlation_id"@.len());
    assert("capabilities"@.len() != "metadata"@.len());
    assert("capabilities"@.len() != "agent_id"@.len());
    assert("capabilities"@.len() != "parent_task_id"@.len());
    assert("capabilities"@.len() != "correlation_id"@.len());
    assert("metadata"@[0] != "agent_id"@[0]);
    assert("metadata"@.len() != "parent_task_id"@.len());
    assert("metadata"@.len() != "correlation_id"@.len());
    assert("agent_id"@.len() != "parent_task_id"@.len());
    assert("agent_id"@.len() != "correlation_id"@.len());
    assert("parent_task_id"@[0] != "correlation_id"@[0]);
}

/// Writing a `RuntimeTaskAssignPayload` and reading it back gives the same written form:
/// the written object reads, and reads as itself.
pub proof fn lemma_task_assign_round_trip(p: RuntimeTaskAssignPayload)
    ensures
        record_ok(task_assign_schema(), p.spec_json()),
        normalized(task_assign_schema(), p.spec_json()) == p.spec_json(),
{
    lemma_task_assign_distinct_keys();
    let s = task_assign_schema();
    let o = p.spec_json();
    assert forall|i: int| 0 <= i < s.len() implies (#[trigger] o->Object_0[i]).0 == s[i].0 && shaped(s[i].1, o->Object_0[i].1) by {
        if i == 2 { assert(all_str(o->Object_0[2].1->Array_0)); }
    }
    lemma_well_shaped_fixed(s, o);
}

/// Payload of `runtime.task.result`: the outcome of a task.
#[derive(Clone, Debug, PartialEq)]
pub struct RuntimeTaskResultPayload {
    pub task_id: String,
    pub status: String,
    pub result: Option<Json>,
    pub error: Json,
    pub correlation_id: Option<String>,
}

/// The members of a `RuntimeTaskResultPayload`, in written order.
pub open spec fn task_result_schema() -> Seq<(Seq<char>, FieldKind)> {
    seq![("task_id"@, FieldKind::Str), ("status"@, FieldKind::Str), ("result"@, FieldKind::OptAny), ("error"@, FieldKind::Any), ("correlation_id"@, FieldKind::OptStr)]
}

/// The members of a `RuntimeTaskResultPayload`, in written order.
pub fn task_result_schema_fields() -> (r: Vec<FieldSpec>)
    ensures
        schema_view(r@) == task_result_schema(),
{
    let mut r: Vec<FieldSpec> = Vec::new();
    r.push(field("task_id", FieldKind::Str));
    r.push(field("status", FieldKind::Str));
    r.push(field("result", FieldKind::OptAny));
    r.push(field("error", FieldKind::Any));
    r.push(field("correlation_id", FieldKind::OptStr));
    assert(schema_view(r@) =~= task_result_schema());
    r
}

impl RuntimeTaskResultPayload {
    /// The record in written form.
    pub open spec fn spec_json(&self) -> JsonV {
        JsonV::Object(
            seq![
                ("task_id"@, JsonV::Str(self.task_id@)),
                ("status"@, JsonV::Str(self.status@)),
                ("result"@, opt_json(self.result)),
                ("error"@, self.error@),
                ("correlation_id"@, opt_str_json(opt_view(self.correlation_id))),
            ],
        )
    }

    /// The record written as a JSON object, one member per field in order.
    pub fn to_json(&self) -> (r: Json)
        ensures
            r@ == self.spec_json(),
    {
        let mut m: Vec<(String, Json)> = Vec::new();
        let e0 = Json::Str(self.task_id.clone());
        assert(e0@ == JsonV::Str(self.task_id@));
        m.push((owned("task_id"), e0));
        let e1 = Json::Str(self.status.clone());
        assert(e1@ == JsonV::Str(self.status@));
        m.push((owned("status"), e1));
        let e2 = encode_opt_json(&self.result);
        assert(e2@ == opt_json(self.result));
        m.push((owned("result"), e2));
        let e3 = self.error.deep_clone();
        assert(e3@ == self.error@);
        m.push((owned("error"), e3));
        let e4 = Json::opt_string(&self.correlation_id);
        assert(e4@ == opt_str_json(opt_view(self.correlation_id)));
        m.push((owned("correlation_id"), e4));
        let r = Json::Object(m);
        assert(r@->Object_0[0] == (m@[0].0@, m@[0].1@));
        assert(r@->Object_0[1] == (m@[1].0@, m@[1].1@));
        assert(r@->Object_0[2] == (m@[2].0@, m@[2].1@));
        assert(r@->Object_0[3] == (m@[3].0@, m@[3].1@));
        assert(r@->Object_0[4] == (m@[4].0@, m@[4].1@));
        assert(r@->Object_0 =~= self.spec_json()->Object_0);
        r
    }

    /// Reads the record from a JSON object or array; `None` exactly when
    /// the value cannot be read with the record's schema.
    pub fn from_json(j: &Json) -> (r: Option<Self>)
        ensures
            r is Some <==> record_ok(task_result_schema(), j@),
            r matches Some(q) ==> q.spec_json() == normalized(task_result_schema(), j@),
    {
        let n = match normalize_record(&task_result_schema_fields(), j) {
            Some(n) => n,
            None => return None,
        };
        proof {
            lemma_normalized_well_shaped(task_result_schema(), j@);
        }
        match &n {
            Json::Object(m) => {
                proof {
                    assert(n@ == normalized(task_result_schema(), j@));
                    assert(crate::protocol::schema::well_shaped(task_result_schema(), n@));
                    assert(n@->Object_0.len() == 5);
                    assert(m.len() == 5);
                    assert(task_result_schema()[0].1 == FieldKind::Str);
                    assert(n@->Object_0[0] == (m@[0].0@, m@[0].1@));
                    assert(shaped(FieldKind::Str, n@->Object_0[0].1));
                    assert(task_result_schema()[1].1 == FieldKind::Str);
                    assert(n@->Object_0[1] == (m@[1].0@, m@[1].1@));
                    assert(shaped(FieldKind::Str, n@->Object_0[1].1));
                    assert(task_result_schema()[2].1 == FieldKind::OptAny);
                    assert(n@->Object_0[2] == (m@[2].0@, m@[2].1@));
                    assert(shaped(FieldKind::OptAny, n@->Object_0[2].1));
                    assert(task_result_schema()[3].1 == FieldKind::Any);
                    assert(n@->Object_0[3] == (m@[3].0@, m@[3].1@));
                    assert(shaped(FieldKind::Any, n@->Object_0[3].1));
                    assert(task_result_schema()[4].1 == FieldKind::OptStr);
                    assert(n@->Object_0[4] == (m@[4].0@, m@[4].1@));
                    assert(shaped(FieldKind::OptStr, n@->Object_0[4].1));
                }
                let v0 = take_str(&m[0].1);
                let v1 = take_str(&m[1].1);
                let v2 = take_opt_json(&m[2].1);
                let v3 = m[3].1.deep_clone();
                let v4 = take_opt_str(&m[4].1);
                let q = RuntimeTaskResultPayload {
                    task_id: v0,
                    status: v1,
                    result: v2,
                    error: v3,
                    correlation_id: v4,
                };
                assert(q.spec_json()->Object_0 =~= n@->Object_0);
                Some(q)
            },
            _ => None,
        }
    }
}

/// No two members of a `RuntimeTaskResultPayload` share a key.
pub proof fn lemma_task_result_distinct_keys()
    ensures
        distinct_keys(task_result_schema()),
{
    reveal_strlit("task_id");
    reveal_strlit("status");
    reveal_strlit("result");
    reveal_strlit("error");
    reveal_strlit("correlation_id");
    let s = task_result_schema();
    assert("task_id"@.len() != "status"@.len());
    assert("task_id"@.len() != "result"@.len());
    assert("task_id"@.len() != "error"@.len());
    assert("task_id"@.len() != "correlation_id"@.len());
    assert("status"@[0] != "result"@[0]);
    assert("status"@.len() != "error"@.len());
    assert("status"@.len() != "correlation_id"@.len());
    assert("result"@.len() != "error"@.len());
    assert("result"@.len() != "correlation_id"@.len());
    assert("error"@.len() != "correlation_id"@.len());
}

/// Writing a `RuntimeTaskResultPayload` and reading it back gives the same written form:
/// the written object reads, and reads as itself.
pub proof fn lemma_task_result_round_trip(p: RuntimeTaskResultPayload)
    ensures
        record_ok(task_result_schema(), p.spec_json()),
        normalized(task_result_schema(), p.spec_json()) == p.spec_json(),
{
    lemma_task_result_distinct_keys();
    let s = task_result_schema();
    let o = p.spec_json();
    assert forall|i: int| 0 <= i < s.len() implies (#[trigger] o->Object_0[i]).0 == s[i].0 && shaped(s[i].1, o->Object_0[i].1) by {
    }
    lemma_well_shaped_fixed(s, o);
}

/// Payload of `runtime.tool.request`: a capability to invoke and its input.
#[derive(Clone, Debug, PartialEq)]
pub struct RuntimeToolRequestPayload {
    pub task_id: String,
    pub request_id: Option<String>,
    pub capability: String,
    pub input: Json,
    pub timeout_seconds: Option<u64>,
    pub correlation_id: Option<String>,
}

/// The members of a `RuntimeToolRequestPayload`, in written order.
pub open spec fn tool_request_schema() -> Seq<(Seq<char>, FieldKind)> {
    seq![("task_id"@, FieldKind::Str), ("request_id"@, FieldKind::OptStr), ("capability"@, FieldKind::Str), ("input"@, FieldKind::AnyRequired), ("timeout_seconds"@, FieldKind::OptU64), ("correlation_id"@, FieldKind::OptStr)]
}

/// The members of a `RuntimeToolRequestPayload`, in written order.
pub fn tool_request_schema_fields() -> (r: Vec<FieldSpec>)
    ensures
        schema_view(r@) == tool_request_schema(),
{
    let mut r: Vec<FieldSpec> = Vec::new();
    r.push(field("task_id", FieldKind::Str));
    r.push(field("request_id", FieldKind::OptStr));
    r.push(field("capability", FieldKind::Str));
    r.push(field("input", FieldKind::AnyRequired));
    r.push(field("timeout_seconds", FieldKind::OptU64));
    r.push(field("correlation_id", FieldKind::OptStr));
    assert(schema_view(r@) =~= tool_request_schema());
    r
}

impl RuntimeToolRequestPayload {
    /// The record in written form.
    pub open spec fn spec_json(&self) -> JsonV {
        JsonV::Object(
            seq![
                ("task_id"@, JsonV::Str(self.task_id@)),
                ("request_id"@, opt_str_json(opt_view(self.request_id))),
                ("capability"@, JsonV::Str(self.capability@)),
                ("input"@, self.input@),
                ("timeout_seconds"@, opt_u64_json(self.timeout_seconds)),
                ("correlation_id"@, opt_str_json(opt_view(self.correlation_id))),
            ],
        )
    }

    /// The record written as a JSON object, one member per field in order.
    pub fn to_json(&self) -> (r: Json)
        ensures
            r@ == self.spec_json(),
    {
        let mut m: Vec<(String, Json)> = Vec::new();
        let e0 = Json::Str(self.task_id.clone());
        assert(e0@ == JsonV::Str(self.task_id@));
        m.push((owned("task_id"), e0));
        let e1 = Json::opt_string(&self.request_id);
        assert(e1@ == opt_str_json(opt_view(self.request_id)));
        m.push((owned("request_id"), e1));
        let e2 = Json::Str(self.capability.clone());
        assert(e2@ == JsonV::Str(self.capability@));
        m.push((owned("capability"), e2));
        let e3 = self.input.deep_clone();
        assert(e3@ == self.input@);
        m.push((owned("input"), e3));
        let e4 = encode_opt_u64(&self.timeout_seconds);
        assert(e4@ == opt_u64_json(self.timeout_seconds));
        m.push((owned("timeout_seconds"), e4));
        let e5 = Json::opt_string(&self.correlation_id);
        assert(e5@ == opt_str_json(opt_view(self.correlation_id)));
        m.push((owned("correlation_id"), e5));
        let r = Json::Object(m);
        assert(r@->Object_0[0] == (m@[0].0@, m@[0].1@));
        assert(r@->Object_0[1] == (m@[1].0@, m@[1].1@));
        assert(r@->Object_0[2] == (m@[2].0@, m@[2].1@));
        assert(r@->Object_0[3] == (m@[3].0@, m@[3].1@));
        assert(r@->Object_0[4] == (m@[4].0@, m@[4].1@));
        assert(r@->Object_0[5] == (m@[5].0@, m@[5].1@));
        assert(r@->Object_0 =~= self.spec_json()->Object_0);
        r
    }

    /// Reads the record from a JSON object or array; `None` exactly when
    /// the value cannot be read with the record's schema.
    pub fn from_json(j: &Json) -> (r: Option<Self>)
        ensures
            r is Some <==> record_ok(tool_request_schema(), j@),
            r matches Some(q) ==> q.spec_json() == normalized(tool_request_schema(), j@),
    {
        let n = match normalize_record(&tool_request_schema_fields(), j) {
            Some(n) => n,
            None => return None,
        };
        proof {
            lemma_normalized_well_shaped(tool_request_schema(), j@);
        }
        match &n {
            Json::Object(m) => {
                proof {
                    assert(n@ == normalized(tool_request_schema(), j@));
                    assert(crate::protocol::schema::well_shaped(tool_request_schema(), n@));
                    assert(n@->Object_0.len() == 6);
                    assert(m.len() == 6);
                    assert(tool_request_schema()[0].1 == FieldKind::Str);
                    assert(n@->Object_0[0] == (m@[0].0@, m@[0].1@));
                    assert(shaped(FieldKind::Str, n@->Object_0[0].1));
                    assert(tool_request_schema()[1].1 == FieldKind::OptStr);
                    assert(n@->Object_0[1] == (m@[1].0@, m@[1].1@));
                    assert(shaped(FieldKind::OptStr, n@->Object_0[1].1));
                    assert(tool_request_schema()[2].1 == FieldKind::Str);
                    assert(n@->Object_0[2] == (m@[2].0@, m@[2].1@));
                    assert(shaped(FieldKind::Str, n@->Object_0[2].1));
                    assert(tool_request_schema()[3].1 == FieldKind::AnyRequired);
                    assert(n@->Object_0[3] == (m@[3].0@, m@[3].1@));
                    assert(shaped(FieldKind::AnyRequired, n@->Object_0[3].1));
                    assert(tool_request_schema()[4].1 == FieldKind::OptU64);
                    assert(n@->Object_0[4] == (m@[4].0@, m@[4].1@));
                    assert(shaped(FieldKind::OptU64, n@->Object_0[4].1));
                    assert(tool_request_schema()[5].1 == FieldKind::OptStr);
                    assert(n@->Object_0[5] == (m@[5].0@, m@[5].1@));
                    assert(shaped(FieldKind::OptStr, n@->Object_0[5].1));
                }
                let v0 = take_str(&m[0].1);
                let v1 = take_opt_str(&m[1].1);
                let v2 = take_str(&m[2].1);
                let v3 = m[3].1.deep_clone();
                let v4 = take_opt_u64(&m[4].1);
                let v5 = take_opt_str(&m[5].1);
                let q = RuntimeToolRequestPayload {
                    task_id: v0,
                    request_id: v1,
                    capability: v2,
                    input: v3,
                    timeout_seconds: v4,
                    correlation_id: v5,
                };
                assert(q.spec_json()->Object_0 =~= n@->Object_0);
                Some(q)
            },
            _ => None,
        }
    }
}

/// No two members of a `RuntimeToolRequestPayload` share a key.
pub proof fn lemma_tool_request_distinct_keys()
    ensures
        distinct_keys(tool_request_schema()),
{
    reveal_strlit("task_id");
    reveal_strlit("request_id");
    reveal_strlit("capability");
    reveal_strlit("input");
    reveal_strlit("timeout_seconds");
    reveal_strlit("correlation_id");
    let s = tool_request_schema();
    assert("task_id"@.len() != "request_id"@.len());
    assert("task_id"@.len() != "capability"@.len());
    assert("task_id"@.len() != "input"@.len());
    assert("task_id"@.len() != "timeout_seconds"@.len());
    assert("task_id"@.len() != "correlation_id"@.len());
    assert("request_id"@[0] != "capability"@[0]);
    assert("request_id"@.len() != "input"@.len());
    assert("request_id"@.len() != "timeout_seconds"@.len());
    assert("request_id"@.len() != "correlation_id"@.len());
    assert("capability"@.len() != "input"@.len());
    assert("capability"@.len() != "timeout_seconds"@.len());
    assert("capability"@.len() != "correlation_id"@.len());
    assert("input"@.len() != "timeout_seconds"@.len());
    assert("input"@.len() != "correlation_id"@.len());
    assert("timeout_seconds"@.len() != "correlation_id"@.len());
}

/// Writing a `RuntimeToolRequestPayload` and reading it back gives the same written form:
/// the written object reads, and reads as itself.
pub proof fn lemma_tool_request_round_trip(p: RuntimeToolRequestPayload)
    ensures
        record_ok(tool_request_schema(), p.spec_json()),
        normalized(tool_request_schema(), p.spec_json()) == p.spec_json(),
{
    lemma_tool_request_distinct_keys();
    let s = tool_request_schema();
    let o = p.spec_json();
    assert forall|i: int| 0 <= i < s.len() implies (#[trigger] o->Object_0[i]).0 == s[i].0 && shaped(s[i].1, o->Object_0[i].1) by {
    }
    lemma_well_shaped_fixed(s, o);
}

/// Payload of `runtime.tool.result`: what a capability invocation gave back.
#[derive(Clone, Debug, PartialEq)]
pub struct RuntimeToolResultPayload {
    pub task_id: String,
    pub capability: String,
    pub request_id: Option<String>,
    pub status: String,
    pub output: Option<Json>,
    pub result: Option<Json>,
    pub error: Json,
    pub correlation_id: Option<String>,
}

/// The members of a `RuntimeToolResultPayload`, in written order.
pub open spec fn tool_result_schema() -> Seq<(Seq<char>, FieldKind)> {
    seq![("task_id"@, FieldKind::Str), ("capability"@, FieldKind::Str), ("request_id"@, FieldKind::OptStr), ("status"@, FieldKind::Str), ("output"@, FieldKind::OptAny), ("result"@, FieldKind::OptAny), ("error"@, FieldKind::Any), ("correlation_id"@, FieldKind::OptStr)]
}

/// The members of a `RuntimeToolResultPayload`, in written order.
pub fn tool_result_schema_fields() -> (r: Vec<FieldSpec>)
    ensures
        schema_view(r@) == tool_result_schema(),
{
    let mut r: Vec<FieldSpec> = Vec::new();
    r.push(field("task_id", FieldKind::Str));
    r.push(field("capability", FieldKind::Str));
    r.push(field("request_id", FieldKind::OptStr));
    r.push(field("status", FieldKind::Str));
    r.push(field("output", FieldKind::OptAny));
    r.push(field("result", FieldKind::OptAny));
    r.push(field("error", FieldKind::Any));
    r.push(field("correlation_id", FieldKind::OptStr));
    assert(schema_view(r@) =~= tool_result_schema());
    r
}

impl RuntimeToolResultPayload {
    /// The record in written form.
    pub open spec fn spec_json(&self) -> JsonV {
        JsonV::Object(
            seq![
                ("task_id"@, JsonV::Str(self.task_id@)),
                ("capability"@, JsonV::Str(self.capability@)),
                ("request_id"@, opt_str_json(opt_view(self.request_id))),
                ("status"@, JsonV::Str(self.status@)),
                ("output"@, opt_json(self.output)),
                ("result"@, opt_json(self.result)),
                ("error"@, self.error@),
                ("correlation_id"@, opt_str_json(opt_view(self.correlation_id))),
            ],
        )
    }

    /// The record written as a JSON object, one member per field in order.
    pub fn to_json(&self) -> (r: Json)
        ensures
            r@ == self.spec_json(),
    {
        let mut m: Vec<(String, Json)> = Vec::new();
        let e0 = Json::Str(self.task_id.clone());
        assert(e0@ == JsonV::Str(self.task_id@));
        m.push((owned("task_id"), e0));
        let e1 = Json::Str(self.capability.clone());
        assert(e1@ == JsonV::Str(self.capability@));
        m.push((owned("capability"), e1));
        let e2 = Json::opt_string(&self.request_id);
        assert(e2@ == opt_str_json(opt_view(self.request_id)));
        m.push((owned("request_id"), e2));
        let e3 = Json::Str(self.status.clone());
        assert(e3@ == JsonV::Str(self.status@));
        m.push((owned("status"), e3));
        let e4 = encode_opt_json(&self.output);
        assert(e4@ == opt_json(self.output));
        m.push((owned("output"), e4));
        let e5 = encode_opt_json(&self.result);
        assert(e5@ == opt_json(self.result));
        m.push((owned("result"), e5));
        let e6 = self.error.deep_clone();
        assert(e6@ == self.error@);
        m.push((owned("error"), e6));
        let e7 = Json::opt_string(&self.correlation_id);
        assert(e7@ == opt_str_json(opt_view(self.correlation_id)));
        m.push((owned("correlation_id"), e7));
        let r = Json::Object(m);
        assert(r@->Object_0[0] == (m@[0].0@, m@[0].1@));
        assert(r@->Object_0[1] == (m@[1].0@, m@[1].1@));
        assert(r@->Object_0[2] == (m@[2].0@, m@[2].1@));
        assert(r@->Object_0[3] == (m@[3].0@, m@[3].1@));
        assert(r@->Object_0[4] == (m@[4].0@, m@[4].1@));
        assert(r@->Object_0[5] == (m@[5].0@, m@[5].1@));
        assert(r@->Object_0[6] == (m@[6].0@, m@[6].1@));
        assert(r@->Object_0[7] == (m@[7].0@, m@[7].1@));
        assert(r@->Object_0 =~= self.spec_json()->Object_0);
        r
    }

    /// Reads the record from a JSON object or array; `None` exactly when
    /// the value cannot be read with the record's schema.
    pub fn from_json(j: &Json) -> (r: Option<Self>)
        ensures
            r is Some <==> record_ok(tool_result_schema(), j@),
            r matches Some(q) ==> q.spec_json() == normalized(tool_result_schema(), j@),
    {
        let n = match normalize_record(&tool_result_schema_fields(), j) {
            Some(n) => n,
            None => return None,
        };
        proof {
            lemma_normalized_well_shaped(tool_result_schema(), j@);
        }
        match &n {
            Json::Object(m) => {
                proof {
                    assert(n@ == normalized(tool_result_schema(), j@));
                    assert(crate::protocol::schema::well_shaped(tool_result_schema(), n@));
                    assert(n@->Object_0.len() == 8);
                    assert(m.len() == 8);
                    assert(tool_result_schema()[0].1 == FieldKind::Str);
                    assert(n@->Object_0[0] == (m@[0].0@, m@[0].1@));
                    assert(shaped(FieldKind::Str, n@->Object_0[0].1));
                    assert(tool_result_schema()[1].1 == FieldKind::Str);
                    assert(n@->Object_0[1] == (m@[1].0@, m@[1].1@));
                    assert(shaped(FieldKind::Str, n@->Object_0[1].1));
                    assert(tool_result_schema()[2].1 == FieldKind::OptStr);
                    assert(n@->Object_0[2] == (m@[2].0@, m@[2].1@));
                    assert(shaped(FieldKind::OptStr, n@->Object_0[2].1));
                    assert(tool_result_schema()[3].1 == FieldKind::Str);
                    assert(n@->Object_0[3] == (m@[3].0@, m@[3].1@));
                    assert(shaped(FieldKind::Str, n@->Object_0[3].1));
                    assert(tool_result_schema()[4].1 == FieldKind::OptAny);
                    assert(n@->Object_0[4] == (m@[4].0@, m@[4].1@));
                    assert(shaped(FieldKind::OptAny, n@->Object_0[4].1));
                    assert(tool_result_schema()[5].1 == FieldKind::OptAny);
                    assert(n@->Object_0[5] == (m@[5].0@, m@[5].1@));
                    assert(shaped(FieldKind::OptAny, n@->Object_0[5].1));
                    assert(tool_result_schema()[6].1 == FieldKind::Any);
                    assert(n@->Object_0[6] == (m@[6].0@, m@[6].1@));
                    assert(shaped(FieldKind::Any, n@->Object_0[6].1));
                    assert(tool_result_schema()[7].1 == FieldKind::OptStr);
                    assert(n@->Object_0[7] == (m@[7].0@, m@[7].1@));
                    assert(shaped(FieldKind::OptStr, n@->Object_0[7].1));
                }
                let v0 = take_str(&m[0].1);
                let v1 = take_str(&m[1].1);
                let v2 = take_opt_str(&m[2].1);
                let v3 = take_str(&m[3].1);
                let v4 = take_opt_json(&m[4].1);
                let v5 = take_opt_json(&m[5].1);
                let v6 = m[6].1.deep_clone();
                let v7 = take_opt_str(&m[7].1);
                let q = RuntimeToolResultPayload {
                    task_id: v0,
                    capability: v1,
                    request_id: v2,
                    status: v3,
                    output: v4,
                    result: v5,
                    error: v6,
                    correlation_id: v7,
                };
                assert(q.spec_json()->Object_0 =~= n@->Object_0);
                Some(q)
            },
            _ => None,
        }
    }
}

/// No two members of a `RuntimeToolResultPayload` share a key.
pub proof fn lemma_tool_result_distinct_keys()
    ensures
        distinct_keys(tool_result_schema()),
{
    reveal_strlit("task_id");
    reveal_strlit("capability");
    reveal_strlit("request_id");
    reveal_strlit("status");
    reveal_strlit("output");
    reveal_strlit("result");
    reveal_strlit("error");
    reveal_strlit("correlation_id");
    let s = tool_result_schema();
    assert("task_id"@.len() != "capability"@.len());
    assert("task_id"@.len() != "request_id"@.len());
    assert("task_id"@.len() != "status"@.len());
    assert("task_id"@.len() != "output"@.len());
    assert("task_id"@.len() != "result"@.len());
    assert("task_id"@.len() != "error"@.len());
    assert("task_id"@.len() != "correlation_id"@.len());
    assert("capability"@[0] != "request_id"@[0]);
    assert("capability"@.len() != "status"@.len());
    assert("capability"@.len() != "output"@.len());
    assert("capability"@.len() != "result"@.len());
    assert("capability"@.len() != "error"@.len());
    assert("capability"@.len() != "correlation_id"@.len());
    assert("request_id"@.len() != "status"@.len());
    assert("request_id"@.len() != "output"@.len());
    assert("request_id"@.len() != "result"@.len());
    assert("request_id"@.len() != "error"@.len());
    assert("request_id"@.len() != "correlation_id"@.len());
    assert("status"@[0] != "output"@[0]);
    assert("status"@[0] != "result"@[0]);
    assert("status"@.len() != "error"@.len());
    assert("status"@.len() != "correlation_id"@.len());
    assert("output"@[0] != "result"@[0]);
    assert("output"@.len() != "error"@.len());
    assert("output"@.len() != "correlation_id"@.len());
    assert("result"@.len() != "error"@.len());
    assert("result"@.len() != "correlation_id"@.len());
    assert("error"@.len() != "correlation_id"@.len());
}

/// Writing a `RuntimeToolResultPayload` and reading it back gives the same written form:
/// the written object reads, and reads as itself.
pub proof fn lemma_tool_result_round_trip(p: RuntimeToolResultPayload)
    ensures
        record_ok(tool_result_schema(), p.spec_json()),
        normalized(tool_result_schema(), p.spec_json()) == p.spec_json(),
{
    lemma_tool_result_distinct_keys();
    let s = tool_result_schema();
    let o = p.spec_json();
    assert forall|i: int| 0 <= i < s.len() implies (#[trigger] o->Object_0[i]).0 == s[i].0 && shaped(s[i].1, o->Object_0[i].1) by {
    }
    lemma_well_shaped_fixed(s, o);
}

/// Payload of `runtime.llm.request`: a prompt or a message list for the shared model.
#[derive(Clone, Debug, PartialEq)]
pub struct RuntimeLLMRequestPayload {
    pub task_id: String,
    pub request_id: Option<String>,
    pub model: Option<String>,
    pub prompt: Option<String>,
    pub messages: Vec<Json>,
    pub options: Json,
    pub correlation_id: Option<String>,
}

/// The members of a `RuntimeLLMRequestPayload`, in written order.
pub open spec fn llm_request_schema() -> Seq<(Seq<char>, FieldKind)> {
    seq![("task_id"@, FieldKind::Str), ("request_id"@, FieldKind::OptStr), ("model"@, FieldKind::OptStr), ("prompt"@, FieldKind::OptStr), ("messages"@, FieldKind::AnyList), ("options"@, FieldKind::Any), ("correlation_id"@, FieldKind::OptStr)]
}

/// The members of a `RuntimeLLMRequestPayload`, in written order.
pub fn llm_request_schema_fields() -> (r: Vec<FieldSpec>)
    ensures
        schema_view(r@) == llm_request_schema(),
{
    let mut r: Vec<FieldSpec> = Vec::new();
    r.push(field("task_id", FieldKind::Str));
    r.push(field("request_id", FieldKind::OptStr));
    r.push(field("model", FieldKind::OptStr));
    r.push(field("prompt", FieldKind::OptStr));
    r.push(field("messages", FieldKind::AnyList));
    r.push(field("options", FieldKind::Any));
    r.push(field("correlation_id", FieldKind::OptStr));
    assert(schema_view(r@) =~= llm_request_schema());
    r
}

impl RuntimeLLMRequestPayload {
    /// The record in written form.
    pub open spec fn spec_json(&self) -> JsonV {
        JsonV::Object(
            seq![
                ("task_id"@, JsonV::Str(self.task_id@)),
                ("request_id"@, opt_str_json(opt_view(self.request_id))),
                ("model"@, opt_str_json(opt_view(self.model))),
                ("prompt"@, opt_str_json(opt_view(self.prompt))),
                ("messages"@, json_list(self.messages@)),
                ("options"@, self.options@),
                ("correlation_id"@, opt_str_json(opt_view(self.correlation_id))),
            ],
        )
    }

    /// The record written as a JSON object, one member per field in order.
    pub fn to_json(&self) -> (r: Json)
        ensures
            r@ == self.spec_json(),
    {
        let mut m: Vec<(String, Json)> = Vec::new();
        let e0 = Json::Str(self.task_id.clone());
        assert(e0@ == JsonV::Str(self.task_id@));
        m.push((owned("task_id"), e0));
        let e1 = Json::opt_string(&self.request_id);
        assert(e1@ == opt_str_json(opt_view(self.request_id)));
        m.push((owned("request_id"), e1));
        let e2 = Json::opt_string(&self.model);
        assert(e2@ == opt_str_json(opt_view(self.model)));
        m.push((owned("model"), e2));
        let e3 = Json::opt_string(&self.prompt);
        assert(e3@ == opt_str_json(opt_view(self.prompt)));
        m.push((owned("prompt"), e3));
        let e4 = encode_json_list(&self.messages);
        assert(e4@ == json_list(self.messages@));
        m.push((owned("messages"), e4));
        let e5 = self.options.deep_clone();
        assert(e5@ == self.options@);
        m.push((owned("options"), e5));
        let e6 = Json::opt_string(&self.correlation_id);
        assert(e6@ == opt_str_json(opt_view(self.correlation_id)));
        m.push((owned("correlation_id"), e6));
        let r = Json::Object(m);
        assert(r@->Object_0[0] == (m@[0].0@, m@[0].1@));
        assert(r@->Object_0[1] == (m@[1].0@, m@[1].1@));
        assert(r@->Object_0[2] == (m@[2].0@, m@[2].1@));
        assert(r@->Object_0[3] == (m@[3].0@, m@[3].1@));
        assert(r@->Object_0[4] == (m@[4].0@, m@[4].1@));
        assert(r@->Object_0[5] == (m@[5].0@, m@[5].1@));
        assert(r@->Object_0[6] == (m@[6].0@, m@[6].1@));
        assert(r@->Object_0 =~= self.spec_json()->Object_0);
        r
    }

    /// Reads the record from a JSON object or array; `None` exactly when
    /// the value cannot be read with the record's schema.
    pub fn from_json(j: &Json) -> (r: Option<Self>)
        ensures
            r is Some <==> record_ok(llm_request_schema(), j@),
            r matches Some(q) ==> q.spec_json() == normalized(llm_request_schema(), j@),
    {
        let n = match normalize_record(&llm_request_schema_fields(), j) {
            Some(n) => n,
            None => return None,
        };
        proof {
            lemma_normalized_well_shaped(llm_request_schema(), j@);
        }
        match &n {
            Json::Object(m) => {
                proof {
                    assert(n@ == normalized(llm_request_schema(), j@));
                    assert(crate::protocol::schema::well_shaped(llm_request_schema(), n@));
                    assert(n@->Object_0.len() == 7);
                    assert(m.len() == 7);
                    assert(llm_request_schema()[0].1 == FieldKind::Str);
                    assert(n@->Object_0[0] == (m@[0].0@, m@[0].1@));
                    assert(shaped(FieldKind::Str, n@->Object_0[0].1));
                    assert(llm_request_schema()[1].1 == FieldKind::OptStr);
                    assert(n@->Object_0[1] == (m@[1].0@, m@[1].1@));
                    assert(shaped(FieldKind::OptStr, n@->Object_0[1].1));
                    assert(llm_request_schema()[2].1 == FieldKind::OptStr);
                    assert(n@->Object_0[2] == (m@[2].0@, m@[2].1@));
                    assert(shaped(FieldKind::OptStr, n@->Object_0[2].1));
                    assert(llm_request_schema()[3].1 == FieldKind::OptStr);
                    assert(n@->Object_0[3] == (m@[3].0@, m@[3].1@));
                    assert(shaped(FieldKind::OptStr, n@->Object_0[3].1));
                    assert(llm_request_schema()[4].1 == FieldKind::AnyList);
                    assert(n@->Object_0[4] == (m@[4].0@, m@[4].1@));
                    assert(shaped(FieldKind::AnyList, n@->Object_0[4].1));
                    assert(llm_request_schema()[5].1 == FieldKind::Any);
                    assert(n@->Object_0[5] == (m@[5].0@, m@[5].1@));
                    assert(shaped(FieldKind::Any, n@->Object_0[5].1));
                    assert(llm_request_schema()[6].1 == FieldKind::OptStr);
                    assert(n@->Object_0[6] == (m@[6].0@, m@[6].1@));
                    assert(shaped(FieldKind::OptStr, n@->Object_0[6].1));
                }
                let v0 = take_str(&m[0].1);
                let v1 = take_opt_str(&m[1].1);
                let v2 = take_opt_str(&m[2].1);
                let v3 = take_opt_str(&m[3].1);
                let v4 = take_json_list(&m[4].1);
                let v5 = m[5].1.deep_clone();
                let v6 = take_opt_str(&m[6].1);
                let q = RuntimeLLMRequestPayload {
                    task_id: v0,
                    request_id: v1,
                    model: v2,
                    prompt: v3,
                    messages: v4,
                    options: v5,
                    correlation_id: v6,
                };
                assert(q.spec_json()->Object_0 =~= n@->Object_0);
                Some(q)
            },
            _ => None,
        }
    }
}

/// No two members of a `RuntimeLLMRequestPayload` share a key.
pub proof fn lemma_llm_request_distinct_keys()
    ensures
        distinct_keys(llm_request_schema()),
{
    reveal_strlit("task_id");
    reveal_strlit("request_id");
    reveal_strlit("model");
    reveal_strlit("prompt");
    reveal_strlit("messages");
    reveal_strlit("options");
    reveal_strlit("correlation_id");
    let s = llm_request_schema();
    assert("task_id"@.len() != "request_id"@.len());
    assert("task_id"@.len() != "model"@.len());
    assert("task_id"@.len() != "prompt"@.len());
    assert("task_id"@.len() != "messages"@.len());
    assert("task_id"@[0] != "options"@[0]);
    assert("task_id"@.len() != "correlation_id"@.len());
    assert("request_id"@.len() != "model"@.len());
    assert("request_id"@.len() != "prompt"@.len());
    assert("request_id"@.len() != "messages"@.len());
    assert("request_id"@.len() != "options"@.len());
    assert("request_id"@.len() != "correlation_id"@.len());
    assert("model"@.len() != "prompt"@.len());
    assert("model"@.len() != "messages"@.len());
    assert("model"@.len() != "options"@.len());
    assert("model"@.len() != "correlation_id"@.len());
    assert("prompt"@.len() != "messages"@.len());
    assert("prompt"@.len() != "options"@.len());
    assert("prompt"@.len() != "correlation_id"@.len());
    assert("messages"@.len() != "options"@.len());
    assert("messages"@.len() != "correlation_id"@.len());
    assert("options"@.len() != "correlation_id"@.len());
}

/// Writing a `RuntimeLLMRequestPayload` and reading it back gives the same written form:
/// the written object reads, and reads as itself.
pub proof fn lemma_llm_request_round_trip(p: RuntimeLLMRequestPayload)
    ensures
        record_ok(llm_request_schema(), p.spec_json()),
        normalized(llm_request_schema(), p.spec_json()) == p.spec_json(),
{
    lemma_llm_request_distinct_keys();
    let s = llm_request_schema();
    let o = p.spec_json();
    assert forall|i: int| 0 <= i < s.len() implies (#[trigger] o->Object_0[i]).0 == s[i].0 && shaped(s[i].1, o->Object_0[i].1) by {
    }
    lemma_well_shaped_fixed(s, o);
}

/// Payload of `runtime.llm.response`: the model's answer to a request.
#[derive(Clone, Debug, PartialEq)]
pub struct RuntimeLLMResponsePayload {
    pub task_id: String,
    pub model: Option<String>,
    pub request_id: Option<String>,
    pub status: String,
    pub text: Option<String>,
    pub message: Json,
    pub usage: Json,
    pub error: Json,
    pub correlation_id: Option<String>,
}

/// The members of a `RuntimeLLMResponsePayload`, in written order.
pub open spec fn llm_response_schema() -> Seq<(Seq<char>, FieldKind)> {
    seq![("task_id"@, FieldKind::Str), ("model"@, FieldKind::OptStr), ("request_id"@, FieldKind::OptStr), ("status"@, FieldKind::Str), ("text"@, FieldKind::OptStr), ("message"@, FieldKind::Any), ("usage"@, FieldKind::Any), ("error"@, FieldKind::Any), ("correlation_id"@, FieldKind::OptStr)]
}

/// The members of a `RuntimeLLMResponsePayload`, in written order.
pub fn llm_response_schema_fields() -> (r: Vec<FieldSpec>)
    ensures
        schema_view(r@) == llm_response_schema(),
{
    let mut r: Vec<FieldSpec> = Vec::new();
    r.push(field("task_id", FieldKind::Str));
    r.push(field("model", FieldKind::OptStr));
    r.push(field("request_id", FieldKind::OptStr));
    r.push(field("status", FieldKind::Str));
    r.push(field("text", FieldKind::OptStr));
    r.push(field("message", FieldKind::Any));
    r.push(field("usage", FieldKind::Any));
    r.push(field("error", FieldKind::Any));
    r.push(field("correlation_id", FieldKind::OptStr));
    assert(schema_view(r@) =~= llm_response_schema());
    r
}

impl RuntimeLLMResponsePayload {
    /// The record in written form.
    pub open spec fn spec_json(&self) -> JsonV {
        JsonV::Object(
            seq![
                ("task_id"@, JsonV::Str(self.task_id@)),
                ("model"@, opt_str_json(opt_view(self.model))),
                ("request_id"@, opt_str_json(opt_view(self.request_id))),
                ("status"@, JsonV::Str(self.status@)),
                ("text"@, opt_str_json(opt_view(self.text))),
                ("message"@, self.message@),
                ("usage"@, self.usage@),
                ("error"@, self.error@),
                ("correlation_id"@, opt_str_json(opt_view(self.correlation_id))),
            ],
        )
    }

    /// The record written as a JSON object, one member per field in order.
    pub fn to_json(&self) -> (r: Json)
        ensures
            r@ == self.spec_json(),
    {
        let mut m: Vec<(String, Json)> = Vec::new();
        let e0 = Json::Str(self.task_id.clone());
        assert(e0@ == JsonV::Str(self.task_id@));
        m.push((owned("task_id"), e0));
        let e1 = Json::opt_string(&self.model);
        assert(e1@ == opt_str_json(opt_view(self.model)));
        m.push((owned("model"), e1));
        let e2 = Json::opt_string(&self.request_id);
        assert(e2@ == opt_str_json(opt_view(self.request_id)));
        m.push((owned("request_id"), e2));
        let e3 = Json::Str(self.status.clone());
        assert(e3@ == JsonV::Str(self.status@));
        m.push((owned("status"), e3));
        let e4 = Json::opt_string(&self.text);
        assert(e4@ == opt_str_json(opt_view(self.text)));
        m.push((owned("text"), e4));
        let e5 = self.message.deep_clone();
        assert(e5@ == self.message@);
        m.push((owned("message"), e5));
        let e6 = self.usage.deep_clone();
        assert(e6@ == self.usage@);
        m.push((owned("usage"), e6));
        let e7 = self.error.deep_clone();
        assert(e7@ == self.error@);
        m.push((owned("error"), e7));
        let e8 = Json::opt_string(&self.correlation_id);
        assert(e8@ == opt_str_json(opt_view(self.correlation_id)));
        m.push((owned("correlation_id"), e8));
        let r = Json::Object(m);
        assert(r@->Object_0[0] == (m@[0].0@, m@[0].1@));
        assert(r@->Object_0[1] == (m@[1].0@, m@[1].1@));
        assert(r@->Object_0[2] == (m@[2].0@, m@[2].1@));
        assert(r@->Object_0[3] == (m@[3].0@, m@[3].1@));
        assert(r@->Object_0[4] == (m@[4].0@, m@[4].1@));
        assert(r@->Object_0[5] == (m@[5].0@, m@[5].1@));
        assert(r@->Object_0[6] == (m@[6].0@, m@[6].1@));
        assert(r@->Object_0[7] == (m@[7].0@, m@[7].1@));
        assert(r@->Object_0[8] == (m@[8].0@, m@[8].1@));
        assert(r@->Object_0 =~= self.spec_json()->Object_0);
        r
    }

    /// Reads the record from a JSON object or array; `None` exactly when
    /// the value cannot be read with the record's schema.
    pub fn from_json(j: &Json) -> (r: Option<Self>)
        ensures
            r is Some <==> record_ok(llm_response_schema(), j@),
            r matches Some(q) ==> q.spec_json() == normalized(llm_response_schema(), j@),
    {
        let n = match normalize_record(&llm_response_schema_fields(), j) {
            Some(n) => n,
            None => return None,
        };
        proof {
            lemma_normalized_well_shaped(llm_response_schema(), j@);
        }
        match &n {
            Json::Object(m) => {
                proof {
                    assert(n@ == normalized(llm_response_schema(), j@));
                    assert(crate::protocol::schema::well_shaped(llm_response_schema(), n@));
                    assert(n@->Object_0.len() == 9);
                    assert(m.len() == 9);
                    assert(llm_response_schema()[0].1 == FieldKind::Str);
                    assert(n@->Object_0[0] == (m@[0].0@, m@[0].1@));
                    assert(shaped(FieldKind::Str, n@->Object_0[0].1));
                    assert(llm_response_schema()[1].1 == FieldKind::OptStr);
                    assert(n@->Object_0[1] == (m@[1].0@, m@[1].1@));
                    assert(shaped(FieldKind::OptStr, n@->Object_0[1].1));
                    assert(llm_response_schema()[2].1 == FieldKind::OptStr);
                    assert(n@->Object_0[2] == (m@[2].0@, m@[2].1@));
                    assert(shaped(FieldKind::OptStr, n@->Object_0[2].1));
                    assert(llm_response_schema()[3].1 == FieldKind::Str);
                    assert(n@->Object_0[3] == (m@[3].0@, m@[3].1@));
                    assert(shaped(FieldKind::Str, n@->Object_0[3].1));
                    assert(llm_response_schema()[4].1 == FieldKind::OptStr);
                    assert(n@->Object_0[4] == (m@[4].0@, m@[4].1@));
                    assert(shaped(FieldKind::OptStr, n@->Object_0[4].1));
                    assert(llm_response_schema()[5].1 == FieldKind::Any);
                    assert(n@->Object_0[5] == (m@[5].0@, m@[5].1@));
                    assert(shaped(FieldKind::Any, n@->Object_0[5].1));
                    assert(llm_response_schema()[6].1 == FieldKind::Any);
                    assert(n@->Object_0[6] == (m@[6].0@, m@[6].1@));
                    assert(shaped(FieldKind::Any, n@->Object_0[6].1));
                    assert(llm_response_schema()[7].1 == FieldKind::Any);
                    assert(n@->Object_0[7] == (m@[7].0@, m@[7].1@));
                    assert(shaped(FieldKind::Any, n@->Object_0[7].1));
                    assert(llm_response_schema()[8].1 == FieldKind::OptStr);
                    assert(n@->Object_0[8] == (m@[8].0@, m@[8].1@));
                    assert(shaped(FieldKind::OptStr, n@->Object_0[8].1));
                }
                let v0 = take_str(&m[0].1);
                let v1 = take_opt_str(&m[1].1);
                let v2 = take_opt_str(&m[2].1);
                let v3 = take_str(&m[3].1);
                let v4 = take_opt_str(&m[4].1);
                let v5 = m[5].1.deep_clone();
                let v6 = m[6].1.deep_clone();
                let v7 = m[7].1.deep_clone();
                let v8 = take_opt_str(&m[8].1);
                let q = RuntimeLLMResponsePayload {
                    task_id: v0,
                    model: v1,
                    request_id: v2,
                    status: v3,
                    text: v4,
                    message: v5,
                    usage: v6,
                    error: v7,
                    correlation_id: v8,
                };
                assert(q.spec_json()->Object_0 =~= n@->Object_0);
                Some(q)
            },
            _ => None,
        }
    }
}

/// No two members of a `RuntimeLLMResponsePayload` share a key.
pub proof fn lemma_llm_response_distinct_keys()
    ensures
        distinct_keys(llm_response_schema()),
{
    reveal_strlit("task_id");
    reveal_strlit("model");
    reveal_strlit("request_id");
    reveal_strlit("status");
    reveal_strlit("text");
    reveal_strlit("message");
    reveal_strlit("usage");
    reveal_strlit("error");
    reveal_strlit("correlation_id");
    let s = llm_response_schema();
    assert("task_id"@.len() != "model"@.len());
    assert("task_id"@.len() != "request_id"@.len());
    assert("task_id"@.len() != "status"@.len());
    assert("task_id"@.len() != "text"@.len());
    assert("task_id"@[0] != "message"@[0]);
    assert("task_id"@.len() != "usage"@.len());
    assert("task_id"@.len() != "error"@.len());
    assert("task_id"@.len() != "correlation_id"@.len());
    assert("model"@.len() != "request_id"@.len());
    assert("model"@.len() != "status"@.len());
    assert("model"@.len() != "text"@.len());
    assert("model"@.len() != "message"@.len());
    assert("model"@[0] != "usage"@[0]);
    assert("model"@[0] != "error"@[0]);
    assert("model"@.len() != "correlation_id"@.len());
    assert("request_id"@.len() != "status"@.len());
    assert("request_id"@.len() != "text"@.len());
    assert("request_id"@.len() != "message"@.len());
    assert("request_id"@.len() != "usage"@.len());
    assert("request_id"@.len() != "error"@.len());
    assert("request_id"@.len() != "correlation_id"@.len());
    assert("status"@.len() != "text"@.len());
    assert("status"@.len() != "message"@.len());
    assert("status"@.len() != "usage"@.len());
    assert("status"@.len() != "error"@.len());
    assert("status"@.len() != "correlation_id"@.len());
    assert("text"@.len() != "message"@.len());
    assert("text"@.len() != "usage"@.len());
    assert("text"@.len() != "error"@.len());
    assert("text"@.len() != "correlation_id"@.len());
    assert("message"@.len() != "usage"@.len());
    assert("message"@.len() != "error"@.len());
    assert("message"@.len() != "correlation_id"@.len());
    assert("usage"@[0] != "error"@[0]);
    assert("usage"@.len() != "correlation_id"@.len());
    assert("error"@.len() != "correlation_id"@.len());
}

/// Writing a `RuntimeLLMResponsePayload` and reading it back gives the same written form:
/// the written object reads, and reads as itself.
pub proof fn lemma_llm_response_round_trip(p: RuntimeLLMResponsePayload)
    ensures
        record_ok(llm_response_schema(), p.spec_json()),
        normalized(llm_response_schema(), p.spec_json()) == p.spec_json(),
{
    lemma_llm_response_distinct_keys();
    let s = llm_response_schema();
    let o = p.spec_json();
    assert forall|i: int| 0 <= i < s.len() implies (#[trigger] o->Object_0[i]).0 == s[i].0 && shaped(s[i].1, o->Object_0[i].1) by {
    }
    lemma_well_shaped_fixed(s, o);
}

} // verus!
