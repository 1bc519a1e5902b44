//! Record schemas for event payloads: which members a payload has, of which
//! kind, and what a payload reads as once checked against its schema.
//!
//! A payload is read from a JSON object, member by member, or from a JSON
//! array whose elements give the members in schema order. Reading checks
//! every member and yields the payload in its written form: one member per
//! schema field, in schema order, absent optional members written as null
//! and absent defaulted members as their default.
use vstd::prelude::*;
use crate::json::{Json, JsonNumber, JsonV, NumberV, obj_get, key_index_from, opt_str_json, str_list_json};
use crate::external::{debug_quoted, debug_quoted_text};
use crate::text::{concat, concat3, owned, opt_view, seq_lt, string_lt, views};

verus! {

/// The kind of one payload member.
#[derive(Clone, Copy, PartialEq, Eq, Structural)]
pub enum FieldKind {
    /// A string that must be present.
    Str,
    /// A string or null; absent reads as null.
    OptStr,
    /// Any value; absent reads as null.
    Any,
    /// Any value, which must be present.
    AnyRequired,
    /// Any value, null reading as "none"; absent reads as null.
    OptAny,
    /// Any value, null reading as "none"; absent reads as null also among
    /// array elements.
    OptAnyDefault,
    /// An array of strings; absent reads as the empty array.
    StrList,
    /// An array of any values; absent reads as the empty array.
    AnyList,
    /// A non-negative integer or null; absent reads as null.
    OptU64,
}

/// One member of a schema.
pub struct FieldSpec {
    pub key: String,
    pub kind: FieldKind,
}

/// A schema as keys and kinds.
pub open spec fn schema_view(s: Seq<FieldSpec>) -> Seq<(Seq<char>, FieldKind)> {
    Seq::new(s.len(), |i: int| (s[i].key@, s[i].kind))
}

/// The value a member of the given kind reads as, where `present` is the
/// member's value if it is there and `in_seq` tells whether the payload is
/// an array; `None` if it cannot be read.
pub open spec fn normalize_field(kind: FieldKind, present: Option<JsonV>, in_seq: bool) -> Option<JsonV> {
    match kind {
        FieldKind::Str => match present {
            Some(JsonV::Str(s)) => Some(JsonV::Str(s)),
            _ => None,
        },
        FieldKind::OptStr => match present {
            None => if in_seq { None } else { Some(JsonV::Null) },
            Some(JsonV::Null) => Some(JsonV::Null),
            Some(JsonV::Str(s)) => Some(JsonV::Str(s)),
            _ => None,
        },
        FieldKind::Any => match present {
            None => Some(JsonV::Null),
            Some(v) => Some(v),
        },
        FieldKind::AnyRequired => present,
        FieldKind::OptAny => match present {
            None => if in_seq { None } else { Some(JsonV::Null) },
            Some(v) => Some(v),
        },
        FieldKind::OptAnyDefault => match present {
            None => Some(JsonV::Null),
            Some(v) => Some(v),
        },
        FieldKind::StrList => match present {
            None => Some(JsonV::Array(Seq::empty())),
            Some(JsonV::Array(items)) => if all_str(items) {
                Some(JsonV::Array(items))
            } else {
                None
            },
            _ => None,
        },
        FieldKind::AnyList => match present {
            None => Some(JsonV::Array(Seq::empty())),
            Some(JsonV::Array(items)) => Some(JsonV::Array(items)),
            _ => None,
        },
        FieldKind::OptU64 => match present {
            None => if in_seq { None } else { Some(JsonV::Null) },
            Some(JsonV::Null) => Some(JsonV::Null),
            Some(JsonV::Number(NumberV::PosInt(n))) => Some(JsonV::Number(NumberV::PosInt(n))),
            Some(JsonV::Number(NumberV::NegInt(n))) => if n >= 0 {
                Some(JsonV::Number(NumberV::PosInt(n as u64)))
            } else {
                None
            },
            _ => None,
        },
    }
}

/// Every element is a string.
pub open spec fn all_str(items: Seq<JsonV>) -> bool {
    forall|i: int| 0 <= i < items.len() ==> #[trigger] items[i] is Str
}

/// The written form of a member of the given kind.
pub open spec fn shaped(kind: FieldKind, v: JsonV) -> bool {
    match kind {
        FieldKind::Str => v is Str,
        FieldKind::OptStr => v is Str || v is Null,
        FieldKind::Any | FieldKind::AnyRequired | FieldKind::OptAny | FieldKind::OptAnyDefault => true,
        FieldKind::StrList => v is Array && all_str(v->Array_0),
        FieldKind::AnyList => v is Array,
        FieldKind::OptU64 => v is Null || (v is Number && v->Number_0 is PosInt),
    }
}

/// The value of member `i` in the payload, if it is there.
pub open spec fn field_present(p: JsonV, i: int, key: Seq<char>) -> Option<JsonV> {
    match p {
        JsonV::Object(ms) => obj_get(ms, key),
        JsonV::Array(items) => if 0 <= i < items.len() {
            Some(items[i])
        } else {
            None
        },
        _ => None,
    }
}

/// What member `i` of the schema reads as in the payload.
pub open spec fn field_value(schema: Seq<(Seq<char>, FieldKind)>, p: JsonV, i: int) -> Option<JsonV> {
    normalize_field(schema[i].1, field_present(p, i, schema[i].0), p is Array)
}

/// Whether the payload can be read with the schema.
pub open spec fn record_ok(schema: Seq<(Seq<char>, FieldKind)>, p: JsonV) -> bool {
    &&& (p is Object || p is Array)
    &&& forall|i: int| 0 <= i < schema.len() ==> (#[trigger] field_value(schema, p, i)) is Some
    &&& (p is Array ==> p->Array_0.len() <= schema.len())
}

/// The payload in its written form: one member per schema field, in order.
pub open spec fn normalized(schema: Seq<(Seq<char>, FieldKind)>, p: JsonV) -> JsonV {
    JsonV::Object(Seq::new(schema.len(), |i: int| (schema[i].0, field_value(schema, p, i)->0)))
}

/// The payload in its written form, or `None` if it cannot be read.
pub open spec fn normalize_spec(schema: Seq<(Seq<char>, FieldKind)>, p: JsonV) -> Option<JsonV> {
    if record_ok(schema, p) {
        Some(normalized(schema, p))
    } else {
        None
    }
}

/// The first member at or after `i` that cannot be read, or the number of
/// members.
pub open spec fn first_bad_from(schema: Seq<(Seq<char>, FieldKind)>, p: JsonV, i: int) -> int
    decreases schema.len() - i,
{
    if i < 0 || i >= schema.len() {
        schema.len() as int
    } else if field_value(schema, p, i) is None {
        i
    } else {
        first_bad_from(schema, p, i + 1)
    }
}


/// The decimal digit `d`.
pub open spec fn digit_char(d: nat) -> char {
    if d == 0 { '0' } else if d == 1 { '1' } else if d == 2 { '2' } else if d == 3 { '3' }
    else if d == 4 { '4' } else if d == 5 { '5' } else if d == 6 { '6' } else if d == 7 { '7' }
    else if d == 8 { '8' } else { '9' }
}

/// A natural number in decimal, without leading zeros.
pub open spec fn dec_text(n: nat) -> Seq<char>
    decreases n,
{
    if n < 10 {
        seq![digit_char(n)]
    } else {
        dec_text(n / 10).push(digit_char(n % 10))
    }
}

/// An integer in decimal, with a leading `-` when negative.
pub open spec fn int_text(i: int) -> Seq<char> {
    if i < 0 {
        "-"@ + dec_text((-i) as nat)
    } else {
        dec_text(i as nat)
    }
}

/// How a reader names a value it did not expect.
pub open spec fn unexpected_text(v: JsonV) -> Seq<char> {
    match v {
        JsonV::Null => "unit value"@,
        JsonV::Bool(b) => if b { "boolean `true`"@ } else { "boolean `false`"@ },
        JsonV::Number(NumberV::PosInt(n)) => "integer `"@ + dec_text(n as nat) + "`"@,
        JsonV::Number(NumberV::NegInt(n)) => "integer `"@ + int_text(n as int) + "`"@,
        JsonV::Number(NumberV::Float(t)) => "floating point `"@ + t + "`"@,
        JsonV::Str(t) => "string "@ + debug_quoted_text(t),
        JsonV::Array(_) => "sequence"@,
        JsonV::Object(_) => "map"@,
    }
}

/// A value of the wrong type where `expected` was wanted.
pub open spec fn type_error_text(v: JsonV, expected: Seq<char>) -> Seq<char> {
    "invalid type: "@ + unexpected_text(v) + ", expected "@ + expected
}

/// The first element at or after `i` that is not a string, or the length.
pub open spec fn first_non_str(items: Seq<JsonV>, i: int) -> int
    decreases items.len() - i,
{
    if i < 0 || i >= items.len() {
        items.len() as int
    } else if items[i] is Str {
        first_non_str(items, i + 1)
    } else {
        i
    }
}

/// Why a present member of the given kind cannot be read. String members
/// want a string, array members a sequence (and, for string arrays, a
/// string in each element), integer members a `u64`; members of the other
/// kinds read any value that is present.
pub open spec fn member_error_text(kind: FieldKind, v: JsonV) -> Seq<char> {
    match kind {
        FieldKind::StrList => match v {
            JsonV::Array(items) => if first_non_str(items, 0) < items.len() {
                type_error_text(items[first_non_str(items, 0)], "a string"@)
            } else {
                type_error_text(v, "a sequence"@)
            },
            _ => type_error_text(v, "a sequence"@),
        },
        FieldKind::AnyList => type_error_text(v, "a sequence"@),
        FieldKind::OptU64 => match v {
            JsonV::Number(NumberV::NegInt(_)) => "invalid value: "@ + unexpected_text(v)
                + ", expected u64"@,
            _ => type_error_text(v, "u64"@),
        },
        _ => type_error_text(v, "a string"@),
    }
}

/// Member `i` of an object payload is there but cannot be read.
pub open spec fn present_unreadable(schema: Seq<(Seq<char>, FieldKind)>, p: JsonV, i: int) -> bool {
    field_present(p, i, schema[i].0) is Some && field_value(schema, p, i) is None
}

/// Among the members at or after `i` that are there but cannot be read,
/// the one whose key comes first in key order; the number of members if
/// there is none.
pub open spec fn least_unreadable_from(schema: Seq<(Seq<char>, FieldKind)>, p: JsonV, i: int) -> int
    decreases schema.len() - i,
{
    if i < 0 || i >= schema.len() {
        schema.len() as int
    } else {
        let rest = least_unreadable_from(schema, p, i + 1);
        if present_unreadable(schema, p, i) && (rest >= schema.len() || seq_lt(
            schema[i].0,
            schema[rest].0,
        )) {
            i
        } else {
            rest
        }
    }
}

/// The record as a reader names it in what it expects: `struct` and the
/// record's name, with the number of elements an array must have.
pub open spec fn struct_with_text(name: Seq<char>, n: nat) -> Seq<char> {
    if n == 1 {
        "struct "@ + name + " with 1 element"@
    } else {
        "struct "@ + name + " with "@ + dec_text(n) + " elements"@
    }
}

/// Why a payload cannot be read as the named record.
///
/// An object's members are read in key order, and the first one there that
/// cannot be read is the cause; otherwise the first member of the schema
/// that must be there and is not. An array's elements are read in schema
/// order: the first that cannot be read is the cause, or, when the array
/// ends before a member that has no default, its length; an array with
/// more elements than the schema has members is too long. A value that is
/// neither is of the wrong type.
pub open spec fn read_error_text(schema: Seq<(Seq<char>, FieldKind)>, name: Seq<char>, p: JsonV) -> Seq<char> {
    match p {
        JsonV::Object(_) => {
            let k = least_unreadable_from(schema, p, 0);
            let m = first_bad_from(schema, p, 0);
            if k < schema.len() {
                member_error_text(schema[k].1, field_present(p, k, schema[k].0)->0)
            } else if m < schema.len() {
                "missing field `"@ + schema[m].0 + "`"@
            } else {
                Seq::empty()
            }
        },
        JsonV::Array(items) => {
            let m = first_bad_from(schema, p, 0);
            if m < schema.len() {
                if m < items.len() {
                    member_error_text(schema[m].1, items[m])
                } else {
                    "invalid length "@ + dec_text(m as nat) + ", expected "@ + struct_with_text(
                        name,
                        schema.len(),
                    )
                }
            } else {
                "invalid length "@ + dec_text(items.len()) + ", expected fewer elements in array"@
            }
        },
        _ => type_error_text(p, "struct "@ + name),
    }
}

/// A member missing from an object payload reads as its default: the empty
/// array for array members, null for optional and free members; only
/// required strings and required values cannot be missing.
pub proof fn law_absent_member_reads_as_default(schema: Seq<(Seq<char>, FieldKind)>, p: JsonV, i: int)
    requires
        p is Object,
        0 <= i < schema.len(),
        field_present(p, i, schema[i].0) is None,
    ensures
        (schema[i].1 == FieldKind::StrList || schema[i].1 == FieldKind::AnyList) ==> field_value(
            schema,
            p,
            i,
        ) == Some(JsonV::Array(Seq::empty())),
        (schema[i].1 == FieldKind::OptStr || schema[i].1 == FieldKind::Any || schema[i].1
            == FieldKind::OptAny || schema[i].1 == FieldKind::OptAnyDefault || schema[i].1
            == FieldKind::OptU64) ==> field_value(schema, p, i) == Some(JsonV::Null),
        (schema[i].1 == FieldKind::Str || schema[i].1 == FieldKind::AnyRequired) ==> field_value(
            schema,
            p,
            i,
        ) is None,
{
}

/// No two members of the schema share a key.
pub open spec fn distinct_keys(schema: Seq<(Seq<char>, FieldKind)>) -> bool {
    forall|i: int, j: int| 0 <= i < j < schema.len() ==> schema[i].0 != schema[j].0
}

/// An object with exactly the schema's members, in order, each in written
/// form.
pub open spec fn well_shaped(schema: Seq<(Seq<char>, FieldKind)>, o: JsonV) -> bool {
    &&& o is Object
    &&& o->Object_0.len() == schema.len()
    &&& forall|i: int|
        0 <= i < schema.len() ==> (#[trigger] o->Object_0[i]).0 == schema[i].0 && shaped(
            schema[i].1,
            o->Object_0[i].1,
        )
}

/// A member that reads succeeds with a value in written form.
pub proof fn lemma_normalize_field_shaped(kind: FieldKind, present: Option<JsonV>, in_seq: bool)
    requires
        normalize_field(kind, present, in_seq) is Some,
    ensures
        shaped(kind, normalize_field(kind, present, in_seq)->0),
{
}

/// A member already in written form reads as itself.
pub proof fn lemma_normalize_field_fixed(kind: FieldKind, v: JsonV)
    requires
        shaped(kind, v),
    ensures
        normalize_field(kind, Some(v), false) == Some(v),
{
    match kind {
        FieldKind::StrList => {
            assert(v is Array);
        },
        FieldKind::OptU64 => {
            if v is Number {
                assert(v->Number_0 is PosInt);
            }
        },
        _ => {},
    }
}

/// In a member list whose first `i` keys differ from `key` and whose key at
/// `i` is `key`, lookup finds member `i`.
pub proof fn lemma_obj_get_at(ms: Seq<(Seq<char>, JsonV)>, key: Seq<char>, i: int)
    requires
        0 <= i < ms.len(),
        ms[i].0 == key,
        forall|j: int| 0 <= j < i ==> ms[j].0 != key,
    ensures
        obj_get(ms, key) == Some(ms[i].1),
{
    lemma_key_index_from_reach(ms, key, 0, i);
}

pub proof fn lemma_key_index_from_reach(ms: Seq<(Seq<char>, JsonV)>, key: Seq<char>, j: int, i: int)
    requires
        0 <= j <= i < ms.len(),
        ms[i].0 == key,
        forall|k: int| 0 <= k < i ==> ms[k].0 != key,
    ensures
        key_index_from(ms, key, j) == i,
    decreases i - j,
{
    if j < i {
        lemma_key_index_from_reach(ms, key, j + 1, i);
    }
}

/// An object in written form for a schema with distinct keys reads as
/// itself.
pub proof fn lemma_well_shaped_fixed(schema: Seq<(Seq<char>, FieldKind)>, o: JsonV)
    requires
        distinct_keys(schema),
        well_shaped(schema, o),
    ensures
        record_ok(schema, o),
        normalized(schema, o) == o,
{
    let ms = o->Object_0;
    assert forall|i: int| 0 <= i < schema.len() implies #[trigger] field_value(schema, o, i) == Some(ms[i].1) by {
        assert(ms[i].0 == schema[i].0);
        assert forall|j: int| 0 <= j < i implies ms[j].0 != schema[i].0 by {
            assert(ms[j].0 == schema[j].0);
        }
        lemma_obj_get_at(ms, schema[i].0, i);
        lemma_normalize_field_fixed(schema[i].1, ms[i].1);
    }
    assert(normalized(schema, o)->Object_0 =~= ms);
}

/// A payload that reads yields an object in written form.
pub proof fn lemma_normalized_well_shaped(schema: Seq<(Seq<char>, FieldKind)>, p: JsonV)
    requires
        record_ok(schema, p),
    ensures
        well_shaped(schema, normalized(schema, p)),
{
    assert forall|i: int| 0 <= i < schema.len() implies (#[trigger] normalized(schema, p)->Object_0[i]).0
        == schema[i].0 && shaped(schema[i].1, normalized(schema, p)->Object_0[i].1) by {
        assert(field_value(schema, p, i) is Some);
        lemma_normalize_field_shaped(schema[i].1, field_present(p, i, schema[i].0), p is Array);
    }
}

/// Reading a payload twice gives what reading it once gives.
pub proof fn lemma_normalize_idempotent(schema: Seq<(Seq<char>, FieldKind)>, p: JsonV)
    requires
        distinct_keys(schema),
        record_ok(schema, p),
    ensures
        normalize_spec(schema, normalized(schema, p)) == Some(normalized(schema, p)),
{
    lemma_normalized_well_shaped(schema, p);
    lemma_well_shaped_fixed(schema, normalized(schema, p));
}

proof fn lemma_first_bad_from(schema: Seq<(Seq<char>, FieldKind)>, p: JsonV, i: int)
    requires
        0 <= i <= schema.len(),
    ensures
        i <= first_bad_from(schema, p, i) <= schema.len(),
        first_bad_from(schema, p, i) < schema.len() ==> field_value(schema, p, first_bad_from(schema, p, i)) is None,
        forall|j: int| i <= j < first_bad_from(schema, p, i) ==> (#[trigger] field_value(schema, p, j)) is Some,
    decreases schema.len() - i,
{
    if i < schema.len() && field_value(schema, p, i) is Some {
        lemma_first_bad_from(schema, p, i + 1);
    }
}

/// The value of member `i` of the payload, if it is there.
fn field_present_exec<'a>(p: &'a Json, i: usize, key: &str) -> (r: Option<&'a Json>)
    ensures
        match r {
            Some(v) => field_present(p@, i as int, key@) == Some(v@),
            None => field_present(p@, i as int, key@) is None,
        },
{
    match p {
        Json::Object(_) => p.get(key),
        Json::Array(items) => {
            if i < items.len() {
                Some(&items[i])
            } else {
                None
            }
        },
        _ => None,
    }
}

/// The view of an optional borrowed value.
pub open spec fn opt_ref_view(o: Option<&Json>) -> Option<JsonV> {
    match o {
        Some(v) => Some(v@),
        None => None,
    }
}

/// Whether every element of an array is a string.
fn all_strings(items: &Vec<Json>) -> (r: bool)
    ensures
        r == all_str(Seq::new(items.len() as nat, |i: int| if 0 <= i < items.len() { items@[i]@ } else { JsonV::Null })),
{
    let ghost sv = Seq::new(items.len() as nat, |i: int| if 0 <= i < items.len() { items@[i]@ } else { JsonV::Null });
    let mut i: usize = 0;
    while i < items.len()
        invariant
            i <= items.len(),
            sv == Seq::new(items.len() as nat, |i: int| if 0 <= i < items.len() { items@[i]@ } else { JsonV::Null }),
            forall|k: int| 0 <= k < i ==> #[trigger] sv[k] is Str,
        decreases items.len() - i,
    {
        match &items[i] {
            Json::Str(_) => {},
            _ => {
                assert(!(sv[i as int] is Str));
                return false;
            },
        }
        i = i + 1;
    }
    true
}

/// What a member of the given kind reads as.
fn normalize_field_exec(kind: FieldKind, present: Option<&Json>, in_seq: bool) -> (r: Option<Json>)
    ensures
        match r {
            Some(v) => normalize_field(kind, opt_ref_view(present), in_seq) == Some(v@),
            None => normalize_field(kind, opt_ref_view(present), in_seq) is None,
        },
{
    match kind {
        FieldKind::Str => match present {
            Some(Json::Str(s)) => Some(Json::Str(s.clone())),
            _ => None,
        },
        FieldKind::OptStr => match present {
            None => if in_seq { None } else { Some(Json::Null) },
            Some(Json::Null) => Some(Json::Null),
            Some(Json::Str(s)) => Some(Json::Str(s.clone())),
            _ => None,
        },
        FieldKind::Any | FieldKind::OptAnyDefault => match present {
            None => Some(Json::Null),
            Some(v) => Some(v.deep_clone()),
        },
        FieldKind::AnyRequired => match present {
            None => None,
            Some(v) => Some(v.deep_clone()),
        },
        FieldKind::OptAny => match present {
            None => if in_seq { None } else { Some(Json::Null) },
            Some(v) => Some(v.deep_clone()),
        },
        FieldKind::StrList => match present {
            None => {
                let r = Json::Array(Vec::new());
                assert(r@->Array_0 =~= Seq::<JsonV>::empty());
                Some(r)
            },
            Some(v) => match v {
                Json::Array(items) => {
                    assert(v@->Array_0 =~= Seq::new(items.len() as nat, |i: int| if 0 <= i < items.len() { items@[i]@ } else { JsonV::Null }));
                    if all_strings(items) {
                        Some(v.deep_clone())
                    } else {
                        None
                    }
                },
                _ => None,
            },
        },
        FieldKind::AnyList => match present {
            None => {
                let r = Json::Array(Vec::new());
                assert(r@->Array_0 =~= Seq::<JsonV>::empty());
                Some(r)
            },
            Some(v) => match v {
                Json::Array(_) => Some(v.deep_clone()),
                _ => None,
            },
        },
        FieldKind::OptU64 => match present {
            None => if in_seq { None } else { Some(Json::Null) },
            Some(Json::Null) => Some(Json::Null),
            Some(Json::Number(JsonNumber::PosInt(n))) => Some(Json::Number(JsonNumber::PosInt(*n))),
            Some(Json::Number(JsonNumber::NegInt(n))) => {
                if *n >= 0 {
                    Some(Json::Number(JsonNumber::PosInt(*n as u64)))
                } else {
                    None
                }
            },
            _ => None,
        },
    }
}

/// Reads a payload with a schema: the payload in its written form, or
/// `None` if it cannot be read.
pub fn normalize_record(schema: &Vec<FieldSpec>, p: &Json) -> (r: Option<Json>)
    ensures
        r is Some <==> record_ok(schema_view(schema@), p@),
        r matches Some(v) ==> v@ == normalized(schema_view(schema@), p@),
{
    let ghost sch = schema_view(schema@);
    let in_seq = match p {
        Json::Object(_) => false,
        Json::Array(_) => true,
        _ => {
            return None;
        },
    };
    let mut out: Vec<(String, Json)> = Vec::new();
    let mut i: usize = 0;
    while i < schema.len()
        invariant
            i <= schema.len(),
            sch == schema_view(schema@),
            in_seq == (p@ is Array),
            p@ is Object || p@ is Array,
            out.len() == i,
            forall|k: int| 0 <= k < i ==> (#[trigger] field_value(sch, p@, k)) is Some,
            forall|k: int|
                0 <= k < i ==> (#[trigger] out@[k]).0@ == sch[k].0 && out@[k].1@ == field_value(
                    sch,
                    p@,
                    k,
                )->0,
        decreases schema.len() - i,
    {
        let present = field_present_exec(p, i, schema[i].key.as_str());
        match normalize_field_exec(schema[i].kind, present, in_seq) {
            Some(v) => {
                out.push((schema[i].key.clone(), v));
            },
            None => {
                proof {
                    lemma_first_bad_from(sch, p@, 0);
                    assert(field_value(sch, p@, i as int) is None);
                    if first_bad_from(sch, p@, 0) < i {
                        assert(field_value(sch, p@, first_bad_from(sch, p@, 0)) is Some);
                    }
                    assert(first_bad_from(sch, p@, 0) == i);
                }
                return None;
            },
        }
        i = i + 1;
    }
    match p {
        Json::Array(items) => {
            if items.len() > schema.len() {
                proof {
                    lemma_first_bad_from(sch, p@, 0);
                }
                return None;
            }
        },
        _ => {},
    }
    let r = Json::Object(out);
    assert(r@->Object_0 =~= normalized(sch, p@)->Object_0);
    Some(r)
}


/// The decimal digit `d`.
fn digit_str(d: u64) -> (r: &'static str)
    requires
        d < 10,
    ensures
        r@ == seq![digit_char(d as nat)],
{
    proof {
        reveal_strlit("0");
        reveal_strlit("1");
        reveal_strlit("2");
        reveal_strlit("3");
        reveal_strlit("4");
        reveal_strlit("5");
        reveal_strlit("6");
        reveal_strlit("7");
        reveal_strlit("8");
        reveal_strlit("9");
    }
    if d == 0 {
        "0"
    } else if d == 1 {
        "1"
    } else if d == 2 {
        "2"
    } else if d == 3 {
        "3"
    } else if d == 4 {
        "4"
    } else if d == 5 {
        "5"
    } else if d == 6 {
        "6"
    } else if d == 7 {
        "7"
    } else if d == 8 {
        "8"
    } else {
        "9"
    }
}

/// A natural number in decimal.
pub fn u64_text(n: u64) -> (r: String)
    ensures
        r@ == dec_text(n as nat),
    decreases n,
{
    let d = digit_str(n % 10);
    if n < 10 {
        owned(d)
    } else {
        let head = u64_text(n / 10);
        concat(head.as_str(), d)
    }
}

/// An integer in decimal.
pub fn i64_text(n: i64) -> (r: String)
    ensures
        r@ == int_text(n as int),
{
    if n < 0 {
        let m: u64 = if n == i64::MIN {
            9223372036854775808u64
        } else {
            (-n) as u64
        };
        let digits = u64_text(m);
        concat("-", digits.as_str())
    } else {
        u64_text(n as u64)
    }
}

/// How a reader names a value it did not expect.
fn unexpected(v: &Json) -> (r: String)
    ensures
        r@ == unexpected_text(v@),
{
    match v {
        Json::Null => owned("unit value"),
        Json::Bool(b) => if *b {
            owned("boolean `true`")
        } else {
            owned("boolean `false`")
        },
        Json::Number(JsonNumber::PosInt(n)) => {
            let t = u64_text(*n);
            concat3("integer `", t.as_str(), "`")
        },
        Json::Number(JsonNumber::NegInt(n)) => {
            let t = i64_text(*n);
            concat3("integer `", t.as_str(), "`")
        },
        Json::Number(JsonNumber::Float(t)) => concat3("floating point `", t.as_str(), "`"),
        Json::Str(t) => {
            let q = debug_quoted(t.as_str());
            concat("string ", q.as_str())
        },
        Json::Array(_) => owned("sequence"),
        Json::Object(_) => owned("map"),
    }
}

/// A value of the wrong type where `expected` was wanted.
fn type_error(v: &Json, expected: &str) -> (r: String)
    ensures
        r@ == type_error_text(v@, expected@),
{
    let u = unexpected(v);
    let head = concat3("invalid type: ", u.as_str(), ", expected ");
    concat(head.as_str(), expected)
}

/// Whether a value is a string.
fn is_str_json(v: &Json) -> (r: bool)
    ensures
        r == v@ is Str,
{
    match v {
        Json::Str(_) => true,
        _ => false,
    }
}

/// Why a present member of the given kind cannot be read.
fn member_error(kind: FieldKind, v: &Json) -> (r: String)
    ensures
        r@ == member_error_text(kind, v@),
{
    match kind {
        FieldKind::StrList => match v {
            Json::Array(items) => {
                let ghost sv = v@->Array_0;
                assert(sv.len() == items.len());
                let mut i: usize = 0;
                while i < items.len() && is_str_json(&items[i])
                    invariant
                        i <= items.len(),
                        sv == v@->Array_0,
                        v@ == Json::Array(*items)@,
                        sv.len() == items.len(),
                        forall|k: int| 0 <= k < items.len() ==> #[trigger] sv[k] == items@[k]@,
                        first_non_str(sv, 0) == first_non_str(sv, i as int),
                    decreases items.len() - i,
                {
                    i = i + 1;
                }
                assert(first_non_str(sv, i as int) == i);
                if i < items.len() {
                    type_error(&items[i], "a string")
                } else {
                    type_error(v, "a sequence")
                }
            },
            _ => type_error(v, "a sequence"),
        },
        FieldKind::AnyList => type_error(v, "a sequence"),
        FieldKind::OptU64 => match v {
            Json::Number(JsonNumber::NegInt(_)) => {
                let u = unexpected(v);
                concat3("invalid value: ", u.as_str(), ", expected u64")
            },
            _ => type_error(v, "u64"),
        },
        _ => type_error(v, "a string"),
    }
}

proof fn lemma_least_unreadable_from(schema: Seq<(Seq<char>, FieldKind)>, p: JsonV, i: int)
    requires
        0 <= i <= schema.len(),
    ensures
        i <= least_unreadable_from(schema, p, i) <= schema.len(),
        least_unreadable_from(schema, p, i) < schema.len() ==> present_unreadable(
            schema,
            p,
            least_unreadable_from(schema, p, i),
        ),
    decreases schema.len() - i,
{
    if i < schema.len() {
        lemma_least_unreadable_from(schema, p, i + 1);
    }
}

/// Whether member `i` of an object payload is there but cannot be read.
fn is_present_unreadable(schema: &Vec<FieldSpec>, p: &Json, i: usize) -> (r: bool)
    requires
        i < schema.len(),
        p@ is Object,
    ensures
        r == present_unreadable(schema_view(schema@), p@, i as int),
{
    let present = field_present_exec(p, i, schema[i].key.as_str());
    match present {
        Some(_) => normalize_field_exec(schema[i].kind, present, false).is_none(),
        None => false,
    }
}

/// The member of an object payload that is there, cannot be read, and
/// comes first in key order; the number of members if there is none.
fn least_unreadable(schema: &Vec<FieldSpec>, p: &Json) -> (r: usize)
    requires
        p@ is Object,
    ensures
        r == least_unreadable_from(schema_view(schema@), p@, 0),
{
    let ghost sch = schema_view(schema@);
    let mut best: usize = schema.len();
    let mut i: usize = schema.len();
    while i > 0
        invariant
            i <= schema.len(),
            sch == schema_view(schema@),
            p@ is Object,
            best == least_unreadable_from(sch, p@, i as int),
        decreases i,
    {
        i = i - 1;
        proof {
            lemma_least_unreadable_from(sch, p@, i + 1);
        }
        if is_present_unreadable(schema, p, i) {
            if best == schema.len() {
                best = i;
            } else if string_lt(&schema[i].key, &schema[best].key) {
                best = i;
            }
        }
    }
    best
}

/// The first member that cannot be read, or the number of members.
fn first_unreadable(schema: &Vec<FieldSpec>, p: &Json) -> (r: usize)
    requires
        p@ is Object || p@ is Array,
    ensures
        r == first_bad_from(schema_view(schema@), p@, 0),
{
    let ghost sch = schema_view(schema@);
    let in_seq = match p {
        Json::Array(_) => true,
        _ => false,
    };
    let mut i: usize = 0;
    while i < schema.len()
        invariant
            i <= schema.len(),
            sch == schema_view(schema@),
            in_seq == (p@ is Array),
            forall|k: int| 0 <= k < i ==> (#[trigger] field_value(sch, p@, k)) is Some,
        decreases schema.len() - i,
    {
        let present = field_present_exec(p, i, schema[i].key.as_str());
        if normalize_field_exec(schema[i].kind, present, in_seq).is_none() {
            proof {
                assert(field_value(sch, p@, i as int) is None);
                lemma_first_bad_from(sch, p@, 0);
                if first_bad_from(sch, p@, 0) < i {
                    assert(field_value(sch, p@, first_bad_from(sch, p@, 0)) is Some);
                }
                assert(first_bad_from(sch, p@, 0) == i);
            }
            return i;
        }
        i = i + 1;
    }
    proof {
        lemma_first_bad_from(sch, p@, 0);
        if first_bad_from(sch, p@, 0) < i {
            assert(field_value(sch, p@, first_bad_from(sch, p@, 0)) is Some);
        }
    }
    i
}

/// The record as a reader names it, with the number of elements an array
/// must have.
fn struct_with(name: &str, n: u64) -> (r: String)
    ensures
        r@ == struct_with_text(name@, n as nat),
{
    let head = concat("struct ", name);
    if n == 1 {
        concat(head.as_str(), " with 1 element")
    } else {
        let count = u64_text(n);
        let with = concat3(" with ", count.as_str(), " elements");
        concat(head.as_str(), with.as_str())
    }
}

/// Why a payload cannot be read as the named record, in the words of a
/// `serde` reader.
pub fn read_error(schema: &Vec<FieldSpec>, name: &str, p: &Json) -> (r: String)
    ensures
        r@ == read_error_text(schema_view(schema@), name@, p@),
{
    let ghost sch = schema_view(schema@);
    match p {
        Json::Object(_) => {
            let k = least_unreadable(schema, p);
            proof {
                lemma_least_unreadable_from(sch, p@, 0);
            }
            if k < schema.len() {
                let present = field_present_exec(p, k, schema[k].key.as_str());
                match present {
                    Some(v) => member_error(schema[k].kind, v),
                    None => String::new(),
                }
            } else {
                let m = first_unreadable(schema, p);
                proof {
                    lemma_first_bad_from(sch, p@, 0);
                }
                if m < schema.len() {
                    concat3("missing field `", schema[m].key.as_str(), "`")
                } else {
                    String::new()
                }
            }
        },
        Json::Array(items) => {
            let m = first_unreadable(schema, p);
            proof {
                lemma_first_bad_from(sch, p@, 0);
            }
            if m < schema.len() {
                if m < items.len() {
                    member_error(schema[m].kind, &items[m])
                } else {
                    let at = u64_text(m as u64);
                    let head = concat3("invalid length ", at.as_str(), ", expected ");
                    let expected = struct_with(name, schema.len() as u64);
                    concat(head.as_str(), expected.as_str())
                }
            } else {
                let len = u64_text(items.len() as u64);
                concat3("invalid length ", len.as_str(), ", expected fewer elements in array")
            }
        },
        _ => {
            let expected = concat("struct ", name);
            type_error(p, expected.as_str())
        },
    }
}

/// A schema member.
pub fn field(key: &str, kind: FieldKind) -> (r: FieldSpec)
    ensures
        r.key@ == key@,
        r.kind == kind,
{
    FieldSpec { key: owned(key), kind }
}


/// An optional value written as itself, or null for none.
pub open spec fn opt_json(o: Option<Json>) -> JsonV {
    match o {
        Some(v) => v@,
        None => JsonV::Null,
    }
}

/// An array of values.
pub open spec fn json_list(v: Seq<Json>) -> JsonV {
    JsonV::Array(Seq::new(v.len(), |i: int| v[i]@))
}

/// An optional integer written as a number, or null for none.
pub open spec fn opt_u64_json(o: Option<u64>) -> JsonV {
    match o {
        Some(n) => JsonV::Number(NumberV::PosInt(n)),
        None => JsonV::Null,
    }
}

/// The string that a written string member holds.
pub fn take_str(v: &Json) -> (r: String)
    requires
        v@ is Str,
    ensures
        JsonV::Str(r@) == v@,
{
    match v {
        Json::Str(s) => s.clone(),
        _ => String::new(),
    }
}

/// The optional string that a written member holds.
pub fn take_opt_str(v: &Json) -> (r: Option<String>)
    requires
        v@ is Str || v@ is Null,
    ensures
        opt_str_json(opt_view(r)) == v@,
{
    match v {
        Json::Str(s) => Some(s.clone()),
        _ => None,
    }
}

/// The optional value that a written member holds: none for null.
pub fn take_opt_json(v: &Json) -> (r: Option<Json>)
    ensures
        opt_json(r) == v@,
        r matches Some(x) ==> x@ != JsonV::Null,
{
    match v {
        Json::Null => None,
        _ => Some(v.deep_clone()),
    }
}

/// The strings that a written string-array member holds.
pub fn take_str_list(v: &Json) -> (r: Vec<String>)
    requires
        shaped(FieldKind::StrList, v@),
    ensures
        str_list_json(views(r@)) == v@,
{
    let mut out: Vec<String> = Vec::new();
    match v {
        Json::Array(items) => {
            let ghost sv = v@->Array_0;
            let mut i: usize = 0;
            while i < items.len()
                invariant
                    i <= items.len(),
                    sv == v@->Array_0,
                    v@ == Json::Array(*items)@,
                    all_str(sv),
                    sv.len() == items.len(),
                    forall|k: int| 0 <= k < items.len() ==> #[trigger] sv[k] == items@[k]@,
                    out.len() == i,
                    forall|k: int| 0 <= k < i ==> JsonV::Str(#[trigger] out@[k]@) == sv[k],
                decreases items.len() - i,
            {
                assert(sv[i as int] is Str);
                let s = take_str(&items[i]);
                out.push(s);
                i = i + 1;
            }
            assert(str_list_json(views(out@))->Array_0 =~= sv);
        },
        _ => {},
    }
    out
}

/// A copy of the values that a written array member holds.
pub fn take_json_list(v: &Json) -> (r: Vec<Json>)
    requires
        v@ is Array,
    ensures
        json_list(r@) == v@,
{
    let mut out: Vec<Json> = Vec::new();
    match v {
        Json::Array(items) => {
            let mut i: usize = 0;
            while i < items.len()
                invariant
                    i <= items.len(),
                    out.len() == i,
                    forall|k: int| 0 <= k < i ==> (#[trigger] out@[k])@ == items@[k]@,
                decreases items.len() - i,
            {
                out.push(items[i].deep_clone());
                i = i + 1;
            }
            assert(json_list(out@)->Array_0 =~= v@->Array_0);
        },
        _ => {},
    }
    out
}

/// The optional integer that a written member holds.
pub fn take_opt_u64(v: &Json) -> (r: Option<u64>)
    requires
        shaped(FieldKind::OptU64, v@),
    ensures
        opt_u64_json(r) == v@,
{
    match v {
        Json::Number(JsonNumber::PosInt(n)) => Some(*n),
        _ => None,
    }
}

/// An optional value written as itself, or null for none.
pub fn encode_opt_json(o: &Option<Json>) -> (r: Json)
    ensures
        r@ == opt_json(*o),
{
    match o {
        Some(v) => v.deep_clone(),
        None => Json::Null,
    }
}

/// An array of copies of the values.
pub fn encode_json_list(v: &Vec<Json>) -> (r: Json)
    ensures
        r@ == json_list(v@),
{
    let mut out: Vec<Json> = Vec::new();
    let mut i: usize = 0;
    while i < v.len()
        invariant
            i <= v.len(),
            out.len() == i,
            forall|k: int| 0 <= k < i ==> (#[trigger] out@[k])@ == v@[k]@,
        decreases v.len() - i,
    {
        out.push(v[i].deep_clone());
        i = i + 1;
    }
    let r = Json::Array(out);
    assert(r@->Array_0 =~= json_list(v@)->Array_0);
    r
}

/// An optional integer written as a number, or null for none.
pub fn encode_opt_u64(o: &Option<u64>) -> (r: Json)
    ensures
        r@ == opt_u64_json(*o),
{
    match o {
        Some(n) => Json::Number(JsonNumber::PosInt(*n)),
        None => Json::Null,
    }
}

} // verus!
