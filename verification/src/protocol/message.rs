//! The canonical event envelope and its written JSON form.
use vstd::prelude::*;
use crate::json::{Json, JsonV, opt_str_json};
use crate::protocol::schema::{
    FieldKind, FieldSpec, distinct_keys, encode_opt_json, field, lemma_normalized_well_shaped,
    lemma_well_shaped_fixed, normalize_record, normalized, opt_json, record_ok, schema_view, shaped,
    take_opt_json, take_opt_str, take_str,
};
use crate::text::{opt_view, owned};

verus! {

/// An event as it travels over the bus.
#[derive(Clone, Debug, PartialEq)]
pub struct EventEnvelope {
    /// Identifier of the event.
    pub id: String,
    /// Event type; written under the key `type`.
    pub event_type: String,
    /// Subject the event is published on.
    pub subject: String,
    /// Component that emitted the event.
    pub source: String,
    /// Creation time, RFC 3339.
    pub timestamp: String,
    /// Name of the payload schema.
    pub schema: String,
    /// Execution scope, if any.
    pub scope: Option<Json>,
    /// References to outside data, if any.
    pub refs: Option<Json>,
    /// The event's payload.
    pub payload: Json,
    /// Correlation identifier, if any.
    pub correlation_id: Option<String>,
    /// Identifier of the event that caused this one, if any.
    pub causation_id: Option<String>,
    /// Free-form metadata.
    pub metadata: Json,
}

/// The members of a `EventEnvelope`, in written order.
pub open spec fn envelope_schema() -> Seq<(Seq<char>, FieldKind)> {
    seq![("id"@, FieldKind::Str), ("type"@, FieldKind::Str), ("subject"@, FieldKind::Str), ("source"@, FieldKind::Str), ("timestamp"@, FieldKind::Str), ("schema"@, FieldKind::Str), ("scope"@, FieldKind::OptAnyDefault), ("refs"@, FieldKind::OptAnyDefault), ("payload"@, FieldKind::AnyRequired), ("correlation_id"@, FieldKind::OptStr), ("causation_id"@, FieldKind::OptStr), ("metadata"@, FieldKind::AnyRequired)]
}

/// The members of a `EventEnvelope`, in written order.
pub fn envelope_schema_fields() -> (r: Vec<FieldSpec>)
    ensures
        schema_view(r@) == envelope_schema(),
{
    let mut r: Vec<FieldSpec> = Vec::new();
    r.push(field("id", FieldKind::Str));
    r.push(field("type", FieldKind::Str));
    r.push(field("subject", FieldKind::Str));
    r.push(field("source", FieldKind::Str));
    r.push(field("timestamp", FieldKind::Str));
    r.push(field("schema", FieldKind::Str));
    r.push(field("scope", FieldKind::OptAnyDefault));
    r.push(field("refs", FieldKind::OptAnyDefault));
    r.push(field("payload", FieldKind::AnyRequired));
    r.push(field("correlation_id", FieldKind::OptStr));
    r.push(field("causation_id", FieldKind::OptStr));
    r.push(field("metadata", FieldKind::AnyRequired));
    assert(schema_view(r@) =~= envelope_schema());
    r
}

impl EventEnvelope {
    /// The record in written form.
    pub open spec fn spec_json(&self) -> JsonV {
        JsonV::Object(
            seq![
                ("id"@, JsonV::Str(self.id@)),
                ("type"@, JsonV::Str(self.event_type@)),
                ("subject"@, JsonV::Str(self.subject@)),
                ("source"@, JsonV::Str(self.source@)),
                ("timestamp"@, JsonV::Str(self.timestamp@)),
                ("schema"@, JsonV::Str(self.schema@)),
                ("scope"@, opt_json(self.scope)),
                ("refs"@, opt_json(self.refs)),
                ("payload"@, self.payload@),
                ("correlation_id"@, opt_str_json(opt_view(self.correlation_id))),
                ("causation_id"@, opt_str_json(opt_view(self.causation_id))),
                ("metadata"@, self.metadata@),
            ],
        )
    }

    /// The record written as a JSON object, one member per field in order.
    pub fn to_json(&self) -> (r: Json)
        ensures
            r@ == self.spec_json(),
    {
        let mut m: Vec<(String, Json)> = Vec::new();
        let e0 = Json::Str(self.id.clone());
        assert(e0@ == JsonV::Str(self.id@));
        m.push((owned("id"), e0));
        let e1 = Json::Str(self.event_type.clone());
        assert(e1@ == JsonV::Str(self.event_type@));
        m.push((owned("type"), e1));
        let e2 = Json::Str(self.subject.clone());
        assert(e2@ == JsonV::Str(self.subject@));
        m.push((owned("subject"), e2));
        let e3 = Json::Str(self.source.clone());
        assert(e3@ == JsonV::Str(self.source@));
        m.push((owned("source"), e3));
        let e4 = Json::Str(self.timestamp.clone());
        assert(e4@ == JsonV::Str(self.timestamp@));
        m.push((owned("timestamp"), e4));
        let e5 = Json::Str(self.schema.clone());
        assert(e5@ == JsonV::Str(self.schema@));
        m.push((owned("schema"), e5));
        let e6 = encode_opt_json(&self.scope);
        assert(e6@ == opt_json(self.scope));
        m.push((owned("scope"), e6));
        let e7 = encode_opt_json(&self.refs);
        assert(e7@ == opt_json(self.refs));
        m.push((owned("refs"), e7));
        let e8 = self.payload.deep_clone();
        assert(e8@ == self.payload@);
        m.push((owned("payload"), e8));
        let e9 = Json::opt_string(&self.correlation_id);
        assert(e9@ == opt_str_json(opt_view(self.correlation_id)));
        m.push((owned("correlation_id"), e9));
        let e10 = Json::opt_string(&self.causation_id);
        assert(e10@ == opt_str_json(opt_view(self.causation_id)));
        m.push((owned("causation_id"), e10));
        let e11 = self.metadata.deep_clone();
        assert(e11@ == self.metadata@);
        m.push((owned("metadata"), e11));
        let r = Json::Object(m);
        assert(r@->Object_0[0] == (m@[0].0@, m@[0].1@));
        assert(r@->Object_0[1] == (m@[1].0@, m@[1].1@));
        assert(r@->Object_0[2] == (m@[2].0@, m@[2].1@));
        assert(r@->Object_0[3] == (m@[3].0@, m@[3].1@));
        assert(r@->Object_0[4] == (m@[4].0@, m@[4].1@));
        assert(r@->Object_0[5] == (m@[5].0@, m@[5].1@));
        assert(r@->Object_0[6] == (m@[6].0@, m@[6].1@));
        assert(r@->Object_0[7] == (m@[7].0@, m@[7].1@));
        assert(r@->Object_0[8] == (m@[8].0@, m@[8].1@));
        assert(r@->Object_0[9] == (m@[9].0@, m@[9].1@));
        assert(r@->Object_0[10] == (m@[10].0@, m@[10].1@));
        assert(r@->Object_0[11] == (m@[11].0@, m@[11].1@));
        assert(r@->Object_0 =~= self.spec_json()->Object_0);
        r
    }

    /// Reads the record from a JSON object or array; `None` exactly when
    /// the value cannot be read with the record's schema.
    pub fn from_json(j: &Json) -> (r: Option<Self>)
        ensures
            r is Some <==> record_ok(envelope_schema(), j@),
            r matches Some(q) ==> q.spec_json() == normalized(envelope_schema(), j@),
    {
        let n = match normalize_record(&envelope_schema_fields(), j) {
            Some(n) => n,
            None => return None,
        };
        proof {
            lemma_normalized_well_shaped(envelope_schema(), j@);
        }
        match &n {
            Json::Object(m) => {
                proof {
                    assert(n@ == normalized(envelope_schema(), j@));
                    assert(crate::protocol::schema::well_shaped(envelope_schema(), n@));
                    assert(n@->Object_0.len() == 12);
                    assert(m.len() == 12);
                    assert(envelope_schema()[0].1 == FieldKind::Str);
                    assert(n@->Object_0[0] == (m@[0].0@, m@[0].1@));
                    assert(shaped(FieldKind::Str, n@->Object_0[0].1));
                    assert(envelope_schema()[1].1 == FieldKind::Str);
                    assert(n@->Object_0[1] == (m@[1].0@, m@[1].1@));
                    assert(shaped(FieldKind::Str, n@->Object_0[1].1));
                    assert(envelope_schema()[2].1 == FieldKind::Str);
                    assert(n@->Object_0[2] == (m@[2].0@, m@[2].1@));
                    assert(shaped(FieldKind::Str, n@->Object_0[2].1));
                    assert(envelope_schema()[3].1 == FieldKind::Str);
                    assert(n@->Object_0[3] == (m@[3].0@, m@[3].1@));
                    assert(shaped(FieldKind::Str, n@->Object_0[3].1));
                    assert(envelope_schema()[4].1 == FieldKind::Str);
                    assert(n@->Object_0[4] == (m@[4].0@, m@[4].1@));
                    assert(shaped(FieldKind::Str, n@->Object_0[4].1));
                    assert(envelope_schema()[5].1 == FieldKind::Str);
                    assert(n@->Object_0[5] == (m@[5].0@, m@[5].1@));
                    assert(shaped(FieldKind::Str, n@->Object_0[5].1));
                    assert(envelope_schema()[6].1 == FieldKind::OptAnyDefault);
                    assert(n@->Object_0[6] == (m@[6].0@, m@[6].1@));
                    assert(shaped(FieldKind::OptAnyDefault, n@->Object_0[6].1));
                    assert(envelope_schema()[7].1 == FieldKind::OptAnyDefault);
                    assert(n@->Object_0[7] == (m@[7].0@, m@[7].1@));
                    assert(shaped(FieldKind::OptAnyDefault, n@->Object_0[7].1));
                    assert(envelope_schema()[8].1 == FieldKind::AnyRequired);
                    assert(n@->Object_0[8] == (m@[8].0@, m@[8].1@));
                    assert(shaped(FieldKind::AnyRequired, n@->Object_0[8].1));
                    assert(envelope_schema()[9].1 == FieldKind::OptStr);
                    assert(n@->Object_0[9] == (m@[9].0@, m@[9].1@));
                    assert(shaped(FieldKind::OptStr, n@->Object_0[9].1));
                    assert(envelope_schema()[10].1 == FieldKind::OptStr);
                    assert(n@->Object_0[10] == (m@[10].0@, m@[10].1@));
                    assert(shaped(FieldKind::OptStr, n@->Object_0[10].1));
                    assert(envelope_schema()[11].1 == FieldKind::AnyRequired);
                    assert(n@->Object_0[11] == (m@[11].0@, m@[11].1@));
                    assert(shaped(FieldKind::AnyRequired, n@->Object_0[11].1));
                }
                let v0 = take_str(&m[0].1);
                let v1 = take_str(&m[1].1);
                let v2 = take_str(&m[2].1);
                let v3 = take_str(&m[3].1);
                let v4 = take_str(&m[4].1);
                let v5 = take_str(&m[5].1);
                let v6 = take_opt_json(&m[6].1);
                let v7 = take_opt_json(&m[7].1);
                let v8 = m[8].1.deep_clone();
                let v9 = take_opt_str(&m[9].1);
                let v10 = take_opt_str(&m[10].1);
                let v11 = m[11].1.deep_clone();
                let q = EventEnvelope {
                    id: v0,
                    event_type: v1,
                    subject: v2,
                    source: v3,
                    timestamp: v4,
                    schema: v5,
                    scope: v6,
                    refs: v7,
                    payload: v8,
                    correlation_id: v9,
                    causation_id: v10,
                    metadata: v11,
                };
                assert(q.spec_json()->Object_0 =~= n@->Object_0);
                Some(q)
            },
            _ => None,
        }
    }
}

/// No two members of a `EventEnvelope` share a key.
pub proof fn lemma_envelope_distinct_keys()
    ensures
        distinct_keys(envelope_schema()),
{
    reveal_strlit("id");
    reveal_strlit("type");
    reveal_strlit("subject");
    reveal_strlit("source");
    reveal_strlit("timestamp");
    reveal_strlit("schema");
    reveal_strlit("scope");
    reveal_strlit("refs");
    reveal_strlit("payload");
    reveal_strlit("correlation_id");
    reveal_strlit("causation_id");
    reveal_strlit("metadata");
    let s = envelope_schema();
    assert("id"@.len() != "type"@.len());
    assert("id"@.len() != "subject"@.len());
    assert("id"@.len() != "source"@.len());
    assert("id"@.len() != "timestamp"@.len());
    assert("id"@.len() != "schema"@.len());
    assert("id"@.len() != "scope"@.len());
    assert("id"@.len() != "refs"@.len());
    assert("id"@.len() != "payload"@.len());
    assert("id"@.len() != "correlation_id"@.len());
    assert("id"@.len() != "causation_id"@.len());
    assert("id"@.len() != "metadata"@.len());
    assert("type"@.len() != "subject"@.len());
    assert("type"@.len() != "source"@.len());
    assert("type"@.len() != "timestamp"@.len());
    assert("type"@.len() != "schema"@.len());
    assert("type"@.len() != "scope"@.len());
    assert("type"@[0] != "refs"@[0]);
    assert("type"@.len() != "payload"@.len());
    assert("type"@.len() != "correlation_id"@.len());
    assert("type"@.len() != "causation_id"@.len());
    assert("type"@.len() != "metadata"@.len());
    assert("subject"@.len() != "source"@.len());
    assert("subject"@.len() != "timestamp"@.len());
    assert("subject"@.len() != "schema"@.len());
    assert("subject"@.len() != "scope"@.len());
    assert("subject"@.len() != "refs"@.len());
    assert("subject"@[0] != "payload"@[0]);
    assert("subject"@.len() != "correlation_id"@.len());
    assert("subject"@.len() != "causation_id"@.len());
    assert("subject"@.len() != "metadata"@.len());
    assert("source"@.len() != "timestamp"@.len());
    assert("source"@[1] != "schema"@[1]);
    assert("source"@.len() != "scope"@.len());
    assert("source"@.len() != "refs"@.len());
    assert("source"@.len() != "payload"@.len());
    assert("source"@.len() != "correlation_id"@.len());
    assert("source"@.len() != "causation_id"@.len());
    assert("source"@.len() != "metadata"@.len());
    assert("timestamp"@.len() != "schema"@.len());
    assert("timestamp"@.len() != "scope"@.len());
    assert("timestamp"@.len() != "refs"@.len());
    assert("timestamp"@.len() != "payload"@.len());
    assert("timestamp"@.len() != "correlation_id"@.len());
    assert("timestamp"@.len() != "causation_id"@.len());
    assert("timestamp"@.len() != "metadata"@.len());
    assert("schema"@.len() != "scope"@.len());
    assert("schema"@.len() != "refs"@.len());
    assert("schema"@.len() != "payload"@.len());
    assert("schema"@.len() != "correlation_id"@.len());
    assert("schema"@.len() != "causation_id"@.len());
    assert("schema"@.len() != "metadata"@.len());
    assert("scope"@.len() != "refs"@.len());
    assert("scope"@.len() != "payload"@.len());
    assert("scope"@.len() != "correlation_id"@.len());
    assert("scope"@.len() != "causation_id"@.len());
    assert("scope"@.len() != "metadata"@.len());
    assert("refs"@.len() != "payload"@.len());
    assert("refs"@.len() != "correlation_id"@.len());
    assert("refs"@.len() != "causation_id"@.len());
    assert("refs"@.len() != "metadata"@.len());
    assert("payload"@.len() != "correlation_id"@.len());
    assert("payload"@.len() != "causation_id"@.len());
    assert("payload"@.len() != "metadata"@.len());
    assert("correlation_id"@.len() != "causation_id"@.len());
    assert("correlation_id"@.len() != "metadata"@.len());
    assert("causation_id"@.len() != "metadata"@.len());
}

/// Writing a `EventEnvelope` and reading it back gives the same written form:
/// the written object reads, and reads as itself.
pub proof fn lemma_envelope_round_trip(p: EventEnvelope)
    ensures
        record_ok(envelope_schema(), p.spec_json()),
        normalized(envelope_schema(), p.spec_json()) == p.spec_json(),
{
    lemma_envelope_distinct_keys();
    let s = envelope_schema();
    let o = p.spec_json();
    assert forall|i: int| 0 <= i < s.len() implies (#[trigger] o->Object_0[i]).0 == s[i].0 && shaped(s[i].1, o->Object_0[i].1) by {
    }
    lemma_well_shaped_fixed(s, o);
}

/// The parts of an envelope, handed to `EventEnvelope::new`.
#[derive(Clone, Debug, PartialEq)]
pub struct EventEnvelopeFields {
    pub id: String,
    pub event_type: String,
    pub subject: String,
    pub source: String,
    pub timestamp: String,
    pub schema: String,
    pub scope: Option<Json>,
    pub refs: Option<Json>,
    pub payload: Json,
    pub correlation_id: Option<String>,
    pub causation_id: Option<String>,
    pub metadata: Json,
}

impl EventEnvelope {
    /// An envelope holding exactly the given parts.
    pub fn new(fields: EventEnvelopeFields) -> (r: EventEnvelope)
        ensures
            r.id == fields.id,
            r.event_type == fields.event_type,
            r.subject == fields.subject,
            r.source == fields.source,
            r.timestamp == fields.timestamp,
            r.schema == fields.schema,
            r.scope == fields.scope,
            r.refs == fields.refs,
            r.payload == fields.payload,
            r.correlation_id == fields.correlation_id,
            r.causation_id == fields.causation_id,
            r.metadata == fields.metadata,
    {
        let EventEnvelopeFields {
            id,
            event_type,
            subject,
            source,
            timestamp,
            schema,
            scope,
            refs,
            payload,
            correlation_id,
            causation_id,
            metadata,
        } = fields;
        EventEnvelope {
            id,
            event_type,
            subject,
            source,
            timestamp,
            schema,
            scope,
            refs,
            payload,
            correlation_id,
            causation_id,
            metadata,
        }
    }

    /// A copy of the envelope with the same written form.
    pub fn copy(&self) -> (r: EventEnvelope)
        ensures
            r.spec_json() == self.spec_json(),
            r.id@ == self.id@,
            r.subject@ == self.subject@,
            r.source@ == self.source@,
            r.correlation_id == self.correlation_id,
            r.causation_id == self.causation_id,
            r.payload@ == self.payload@,
    {
        EventEnvelope {
            id: self.id.clone(),
            event_type: self.event_type.clone(),
            subject: self.subject.clone(),
            source: self.source.clone(),
            timestamp: self.timestamp.clone(),
            schema: self.schema.clone(),
            scope: match &self.scope {
                Some(v) => Some(v.deep_clone()),
                None => None,
            },
            refs: match &self.refs {
                Some(v) => Some(v.deep_clone()),
                None => None,
            },
            payload: self.payload.deep_clone(),
            correlation_id: crate::text::clone_opt_string(&self.correlation_id),
            causation_id: crate::text::clone_opt_string(&self.causation_id),
            metadata: self.metadata.deep_clone(),
        }
    }
}

} // verus!
