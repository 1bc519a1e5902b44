//! A JSON document as plain values, with its mathematical view.
//!
//! Numbers keep the three forms a JSON reader produces: a non-negative
//! integer, a negative integer, or a fraction kept as its decimal text.
//! Object members keep their order; a key is looked up at its first
//! occurrence.
use vstd::prelude::*;
use crate::text::owned;

verus! {

/// A JSON number.
#[derive(Clone, Debug, PartialEq)]
pub enum JsonNumber {
    PosInt(u64),
    NegInt(i64),
    Float(String),
}

/// A JSON value.
#[derive(Debug, PartialEq)]
pub enum Json {
    Null,
    Bool(bool),
    Number(JsonNumber),
    Str(String),
    Array(Vec<Json>),
    Object(Vec<(String, Json)>),
}

/// The view of a JSON number.
pub enum NumberV {
    PosInt(u64),
    NegInt(i64),
    Float(Seq<char>),
}

/// The view of a JSON value.
#[verifier::ext_equal]
pub enum JsonV {
    Null,
    Bool(bool),
    Number(NumberV),
    Str(Seq<char>),
    Array(Seq<JsonV>),
    Object(Seq<(Seq<char>, JsonV)>),
}

impl JsonNumber {
    pub open spec fn view(&self) -> NumberV {
        match self {
            JsonNumber::PosInt(n) => NumberV::PosInt(*n),
            JsonNumber::NegInt(n) => NumberV::NegInt(*n),
            JsonNumber::Float(s) => NumberV::Float(s@),
        }
    }

    /// A copy of the number.
    pub fn copy(&self) -> (r: JsonNumber)
        ensures
            r.view() == self.view(),
    {
        match self {
            JsonNumber::PosInt(v) => JsonNumber::PosInt(*v),
            JsonNumber::NegInt(v) => JsonNumber::NegInt(*v),
            JsonNumber::Float(s) => JsonNumber::Float(s.clone()),
        }
    }
}

impl Json {
    pub open spec fn view(&self) -> JsonV
        decreases self,
    {
        match self {
            Json::Null => JsonV::Null,
            Json::Bool(b) => JsonV::Bool(*b),
            Json::Number(n) => JsonV::Number(n.view()),
            Json::Str(s) => JsonV::Str(s@),
            Json::Array(items) => JsonV::Array(
                Seq::new(
                    items.len() as nat,
                    |i: int|
                        if 0 <= i < items.len() {
                            items@[i].view()
                        } else {
                            JsonV::Null
                        },
                ),
            ),
            Json::Object(members) => JsonV::Object(
                Seq::new(
                    members.len() as nat,
                    |i: int|
                        if 0 <= i < members.len() {
                            (members@[i].0@, members@[i].1.view())
                        } else {
                            (Seq::empty(), JsonV::Null)
                        },
                ),
            ),
        }
    }

    /// A copy of the whole document.
    pub fn deep_clone(&self) -> (r: Json)
        ensures
            r.view() == self.view(),
        decreases self,
    {
        match self {
            Json::Null => Json::Null,
            Json::Bool(b) => Json::Bool(*b),
            Json::Number(n) => Json::Number(n.copy()),
            Json::Str(s) => Json::Str(s.clone()),
            Json::Array(items) => {
                let mut out: Vec<Json> = Vec::new();
                let mut i: usize = 0;
                while i < items.len()
                    invariant
                        i <= items.len(),
                        out.len() == i,
                        forall|k: int| 0 <= k < i ==> #[trigger] out@[k].view() == items@[k].view(),
                        *self == Json::Array(*items),
                    decreases items.len() - i,
                {
                    proof {
                        assert(decreases_to!(*self => (*self)->Array_0));
                        assert(decreases_to!((*self)->Array_0 => (*self)->Array_0[i as int]));
                    }
                    let c = items[i].deep_clone();
                    out.push(c);
                    i = i + 1;
                }
                let r = Json::Array(out);
                let ghost rv = r.view()->Array_0;
                let ghost sv = self.view()->Array_0;
                assert forall|k: int| 0 <= k < rv.len() implies rv[k] == sv[k] by {
                    assert(out@[k].view() == items@[k].view());
                }
                assert(rv =~= sv);
                r
            },
            Json::Object(members) => {
                let mut out: Vec<(String, Json)> = Vec::new();
                let mut i: usize = 0;
                while i < members.len()
                    invariant
                        i <= members.len(),
                        out.len() == i,
                        forall|k: int|
                            0 <= k < i ==> #[trigger] out@[k].0@ == members@[k].0@ && out@[k].1.view()
                                == members@[k].1.view(),
                        *self == Json::Object(*members),
                    decreases members.len() - i,
                {
                    proof {
                        assert(decreases_to!(*self => (*self)->Object_0));
                        assert(decreases_to!((*self)->Object_0 => (*self)->Object_0[i as int]));
                        assert(decreases_to!((*self)->Object_0[i as int] => (*self)->Object_0[i as int].1));
                    }
                    let k = members[i].0.clone();
                    let v = members[i].1.deep_clone();
                    out.push((k, v));
                    i = i + 1;
                }
                let r = Json::Object(out);
                let ghost rv = r.view()->Object_0;
                let ghost sv = self.view()->Object_0;
                assert forall|k: int| 0 <= k < rv.len() implies rv[k] == sv[k] by {
                    assert(out@[k].0@ == members@[k].0@ && out@[k].1.view() == members@[k].1.view());
                }
                assert(rv =~= sv);
                r
            },
        }
    }

    /// A JSON string holding the characters of `s`.
    pub fn string(s: &str) -> (r: Json)
        ensures
            r@ == JsonV::Str(s@),
    {
        Json::Str(owned(s))
    }

    /// A JSON string, or null for `None`.
    pub fn opt_string(s: &Option<String>) -> (r: Json)
        ensures
            r@ == opt_str_json(crate::text::opt_view(*s)),
    {
        match s {
            Some(v) => Json::Str(v.clone()),
            None => Json::Null,
        }
    }

    /// A JSON array of strings.
    pub fn string_array(v: &Vec<String>) -> (r: Json)
        ensures
            r@ == str_list_json(crate::text::views(v@)),
    {
        let mut out: Vec<Json> = Vec::new();
        let mut i: usize = 0;
        while i < v.len()
            invariant
                i <= v.len(),
                out.len() == i,
                forall|k: int| 0 <= k < i ==> #[trigger] out@[k].view() == JsonV::Str(v@[k]@),
            decreases v.len() - i,
        {
            out.push(Json::Str(v[i].clone()));
            i = i + 1;
        }
        let r = Json::Array(out);
        let ghost rv = r.view()->Array_0;
        let ghost sv = str_list_json(crate::text::views(v@))->Array_0;
        assert forall|k: int| 0 <= k < rv.len() implies rv[k] == sv[k] by {
            assert(out@[k].view() == JsonV::Str(v@[k]@));
        }
        assert(rv =~= sv);
        r
    }

    /// The first member of an object with the given key.
    pub fn get(&self, key: &str) -> (r: Option<&Json>)
        ensures
            match r {
                Some(v) => json_get(self@, key@) == Some(v@),
                None => json_get(self@, key@) is None,
            },
    {
        match self {
            Json::Object(members) => {
                let k = owned(key);
                let ghost ms = self@->Object_0;
                let mut i: usize = 0;
                while i < members.len()
                    invariant
                        i <= members.len(),
                        k@ == key@,
                        *self == Json::Object(*members),
                        ms == self@->Object_0,
                        ms.len() == members.len(),
                        forall|j: int| 0 <= j < members.len() ==> #[trigger] ms[j] == (members@[j].0@, members@[j].1.view()),
                        key_index_from(ms, key@, 0) == key_index_from(ms, key@, i as int),
                    decreases members.len() - i,
                {
                    if members[i].0 == k {
                        proof {
                            assert(ms[i as int].0 == key@);
                            assert(key_index_from(ms, key@, i as int) == i);
                            assert(self@ == JsonV::Object(ms));
                            assert(ms[i as int].1 == members@[i as int].1.view());
                        }
                        return Some(&members[i].1);
                    }
                    assert(ms[i as int].0 != key@);
                    i = i + 1;
                }
                None
            },
            _ => None,
        }
    }

    /// The characters of a JSON string.
    pub fn as_str(&self) -> (r: Option<&String>)
        ensures
            match r {
                Some(s) => self@ == JsonV::Str(s@),
                None => !(self@ is Str),
            },
    {
        match self {
            Json::Str(s) => Some(s),
            _ => None,
        }
    }

    /// Whether the value is null.
    pub fn is_null(&self) -> (r: bool)
        ensures
            r == (self@ == JsonV::Null),
    {
        match self {
            Json::Null => true,
            _ => false,
        }
    }

    /// Whether the value is an object without members.
    pub fn is_empty_object(&self) -> (r: bool)
        ensures
            r == (self@ is Object && self@->Object_0.len() == 0),
    {
        match self {
            Json::Object(m) => m.len() == 0,
            _ => false,
        }
    }

    /// Sets the member `key` of an object to `value`: the first member with
    /// that key takes the new value in place, or a member is added at the end.
    pub fn set_member(&mut self, key: String, value: Json)
        requires
            old(self)@ is Object,
        ensures
            final(self)@ == JsonV::Object(obj_set(old(self)@->Object_0, key@, value@)),
    {
        let ghost ms = self@->Object_0;
        let mut taken = Json::Null;
        std::mem::swap(self, &mut taken);
        let mut members = match taken {
            Json::Object(m) => m,
            _ => Vec::new(),
        };
        assert(ms.len() == members.len());
        assert(forall|j: int| 0 <= j < members.len() ==> #[trigger] ms[j] == (members@[j].0@, members@[j].1.view()));
        let pos = key_position(&members, &key, Ghost(ms));
        let ghost kv = key@;
        let ghost vv = value@;
        if pos < members.len() {
            members.set(pos, (key, value));
        } else {
            members.push((key, value));
        }
        let r = Json::Object(members);
        proof {
            let nv = r@->Object_0;
            if pos < ms.len() {
                assert(nv =~= ms.update(pos as int, (kv, vv)));
            } else {
                assert(nv =~= ms.push((kv, vv)));
            }
        }
        *self = r;
    }
}

/// The position of the first member with the given key, or the number of
/// members if there is none.
fn key_position(members: &Vec<(String, Json)>, key: &String, Ghost(ms): Ghost<Seq<(Seq<char>, JsonV)>>) -> (r: usize)
    requires
        ms.len() == members.len(),
        forall|j: int| 0 <= j < members.len() ==> #[trigger] ms[j] == (members@[j].0@, members@[j].1.view()),
    ensures
        r == key_index_from(ms, key@, 0),
        r <= members.len(),
{
    let mut i: usize = 0;
    while i < members.len()
        invariant
            i <= members.len(),
            ms.len() == members.len(),
            forall|j: int| 0 <= j < members.len() ==> #[trigger] ms[j] == (members@[j].0@, members@[j].1.view()),
            key_index_from(ms, key@, 0) == key_index_from(ms, key@, i as int),
        decreases members.len() - i,
    {
        if members[i].0 == *key {
            assert(ms[i as int].0 == key@);
            return i;
        }
        assert(ms[i as int].0 != key@);
        i = i + 1;
    }
    i
}

impl Clone for Json {
    /// A copy of the whole document.
    fn clone(&self) -> (r: Json)
        ensures
            r@ == self@,
    {
        self.deep_clone()
    }
}

/// The index of the first member at or after `i` with the given key, or the
/// number of members if there is none.
pub open spec fn key_index_from(ms: Seq<(Seq<char>, JsonV)>, key: Seq<char>, i: int) -> int
    decreases ms.len() - i,
{
    if i < 0 || i >= ms.len() {
        ms.len() as int
    } else if ms[i].0 == key {
        i
    } else {
        key_index_from(ms, key, i + 1)
    }
}

/// The value of the first member with the given key.
pub open spec fn obj_get(ms: Seq<(Seq<char>, JsonV)>, key: Seq<char>) -> Option<JsonV> {
    let k = key_index_from(ms, key, 0);
    if 0 <= k < ms.len() {
        Some(ms[k].1)
    } else {
        None
    }
}

/// The member `key` of an object; `None` for a missing key or a value
/// that is not an object.
pub open spec fn json_get(v: JsonV, key: Seq<char>) -> Option<JsonV> {
    match v {
        JsonV::Object(ms) => obj_get(ms, key),
        _ => None,
    }
}

/// The members of an object after setting `key` to `value`.
pub open spec fn obj_set(ms: Seq<(Seq<char>, JsonV)>, key: Seq<char>, value: JsonV) -> Seq<
    (Seq<char>, JsonV),
> {
    let k = key_index_from(ms, key, 0);
    if 0 <= k < ms.len() {
        ms.update(k, (key, value))
    } else {
        ms.push((key, value))
    }
}

/// A JSON string, or null.
pub open spec fn opt_str_json(s: Option<Seq<char>>) -> JsonV {
    match s {
        Some(v) => JsonV::Str(v),
        None => JsonV::Null,
    }
}

/// A JSON array of strings.
pub open spec fn str_list_json(s: Seq<Seq<char>>) -> JsonV {
    JsonV::Array(Seq::new(s.len(), |i: int| JsonV::Str(s[i])))
}

/// The characters of a JSON string, or nothing for another value.
pub open spec fn jstr(v: JsonV) -> Seq<char> {
    match v {
        JsonV::Str(s) => s,
        _ => Seq::empty(),
    }
}

/// `key_index_from` stays within `i ..= ms.len()`, names a member with the
/// key, and no member in between has it.
pub proof fn lemma_key_index_from_bounds(ms: Seq<(Seq<char>, JsonV)>, key: Seq<char>, i: int)
    requires
        0 <= i <= ms.len(),
    ensures
        i <= key_index_from(ms, key, i) <= ms.len(),
        key_index_from(ms, key, i) < ms.len() ==> ms[key_index_from(ms, key, i)].0 == key,
        forall|j: int| i <= j < key_index_from(ms, key, i) ==> ms[j].0 != key,
    decreases ms.len() - i,
{
    if i < ms.len() && ms[i].0 != key {
        lemma_key_index_from_bounds(ms, key, i + 1);
    }
}

} // verus!
