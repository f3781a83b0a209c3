//! JSON documents as the library reads and builds them, and their text.

use vstd::prelude::*;
use crate::cache::{
    lemma_text_lt_irreflexive, lemma_text_lt_total, lemma_text_lt_transitive, str_lt, text_lt,
};

verus! {

/// A JSON document as the library reads it: tool arguments, JSON-RPC
/// messages and the parameters it sends on.  A number is kept as the text
/// that the JSON reader printed for it.
pub enum JsonValue {
    Null,
    Bool(bool),
    Number(String),
    String(String),
    Array(Vec<JsonValue>),
    Object(JsonObject),
}

/// A JSON object: its members in order, which is the order of their keys
/// for an object built by `insert` (see `keys_sorted`).  A key that occurs
/// twice is read at its first occurrence.
pub struct JsonObject {
    pub entries: Vec<(String, JsonValue)>,
}

/// The value stored under `key`: the first member with that key.
pub open spec fn obj_get(entries: Seq<(String, JsonValue)>, key: Seq<char>) -> Option<JsonValue>
    decreases entries.len(),
{
    if entries.len() == 0 {
        None
    } else if entries[0].0@ == key {
        Some(entries[0].1)
    } else {
        obj_get(entries.drop_first(), key)
    }
}

pub open spec fn obj_has(entries: Seq<(String, JsonValue)>, key: Seq<char>) -> bool {
    obj_get(entries, key) is Some
}

proof fn lemma_obj_get_index(entries: Seq<(String, JsonValue)>, key: Seq<char>, i: int)
    requires
        0 <= i < entries.len(),
        entries[i].0@ == key,
        forall|j: int| 0 <= j < i ==> entries[j].0@ != key,
    ensures
        obj_get(entries, key) == Some(entries[i].1),
    decreases i,
{
    if i > 0 {
        let t = entries.drop_first();
        assert forall|j: int| 0 <= j < i - 1 implies t[j].0@ != key by {
            assert(t[j] == entries[j + 1]);
        }
        lemma_obj_get_index(t, key, i - 1);
    }
}

proof fn lemma_obj_get_none(entries: Seq<(String, JsonValue)>, key: Seq<char>)
    requires
        forall|j: int| 0 <= j < entries.len() ==> entries[j].0@ != key,
    ensures
        obj_get(entries, key) is None,
    decreases entries.len(),
{
    if entries.len() > 0 {
        let t = entries.drop_first();
        assert forall|j: int| 0 <= j < t.len() implies t[j].0@ != key by {
            assert(t[j] == entries[j + 1]);
        }
        lemma_obj_get_none(t, key);
    }
}

proof fn lemma_obj_get_update(
    entries: Seq<(String, JsonValue)>,
    i: int,
    key: String,
    value: JsonValue,
    other: Seq<char>,
)
    requires
        0 <= i < entries.len(),
        entries[i].0@ == key@,
        forall|j: int| 0 <= j < i ==> entries[j].0@ != key@,
    ensures
        obj_get(entries.update(i, (key, value)), key@) == Some(value),
        other != key@ ==> obj_get(entries.update(i, (key, value)), other) == obj_get(
            entries,
            other,
        ),
    decreases i,
{
    let e2 = entries.update(i, (key, value));
    if i > 0 {
        let t = entries.drop_first();
        assert(e2.drop_first() =~= t.update(i - 1, (key, value)));
        assert forall|j: int| 0 <= j < i - 1 implies t[j].0@ != key@ by {
            assert(t[j] == entries[j + 1]);
        }
        lemma_obj_get_update(t, i - 1, key, value, other);
    } else {
        assert(e2.drop_first() =~= entries.drop_first());
    }
}

/// The members stand in strictly increasing order of their keys, as the
/// members of a JSON map do: no key twice.
pub open spec fn keys_sorted(entries: Seq<(String, JsonValue)>) -> bool {
    forall|p: int, q: int|
        0 <= p < q < entries.len() ==> text_lt(#[trigger] entries[p].0@, #[trigger] entries[q].0@)
}

proof fn lemma_obj_get_insert(
    entries: Seq<(String, JsonValue)>,
    i: int,
    key: String,
    value: JsonValue,
    other: Seq<char>,
)
    requires
        0 <= i <= entries.len(),
        forall|j: int| 0 <= j < i ==> entries[j].0@ != key@,
    ensures
        obj_get(entries.insert(i, (key, value)), key@) == Some(value),
        other != key@ ==> obj_get(entries.insert(i, (key, value)), other) == obj_get(
            entries,
            other,
        ),
    decreases i,
{
    let e2 = entries.insert(i, (key, value));
    if i > 0 {
        let t = entries.drop_first();
        assert(e2.drop_first() =~= t.insert(i - 1, (key, value)));
        assert(e2[0] == entries[0]);
        assert forall|j: int| 0 <= j < i - 1 implies t[j].0@ != key@ by {
            assert(t[j] == entries[j + 1]);
        }
        lemma_obj_get_insert(t, i - 1, key, value, other);
    } else {
        assert(e2.drop_first() =~= entries);
    }
}

impl JsonObject {
    pub fn new() -> (o: JsonObject)
        ensures
            o.entries@.len() == 0,
            forall|k: Seq<char>| obj_get(o.entries@, k) is None,
            keys_sorted(o.entries@),
    {
        JsonObject { entries: Vec::new() }
    }

    /// Position of the first member named `key`.
    fn position(&self, key: &str) -> (r: Option<usize>)
        ensures
            match r {
                Some(i) => {
                    &&& i < self.entries@.len()
                    &&& self.entries@[i as int].0@ == key@
                    &&& forall|j: int| 0 <= j < i ==> self.entries@[j].0@ != key@
                },
                None => forall|j: int| 0 <= j < self.entries@.len() ==> self.entries@[j].0@ != key@,
            },
    {
        let mut i: usize = 0;
        while i < self.entries.len()
            invariant
                i <= self.entries@.len(),
                forall|j: int| 0 <= j < i ==> self.entries@[j].0@ != key@,
            decreases self.entries@.len() - i,
        {
            if crate::text::str_eq(self.entries[i].0.as_str(), key) {
                return Some(i);
            }
            i += 1;
        }
        None
    }

    pub fn get(&self, key: &str) -> (r: Option<&JsonValue>)
        ensures
            r is Some == obj_has(self.entries@, key@),
            r matches Some(v) ==> obj_get(self.entries@, key@) == Some(*v),
    {
        match self.position(key) {
            Some(i) => {
                proof {
                    lemma_obj_get_index(self.entries@, key@, i as int);
                }
                Some(&self.entries[i].1)
            },
            None => {
                proof {
                    lemma_obj_get_none(self.entries@, key@);
                }
                None
            },
        }
    }

    pub fn contains_key(&self, key: &str) -> (r: bool)
        ensures
            r == obj_has(self.entries@, key@),
    {
        self.get(key).is_some()
    }

    /// Sets `key` to `value`.  Members stand in the order of their keys, as
    /// in a JSON map: the member keeps its place when the key is present, and
    /// a new one goes where its key sorts.
    pub fn insert(&mut self, key: String, value: JsonValue)
        ensures
            obj_get(final(self).entries@, key@) == Some(value),
            forall|k: Seq<char>|
                k != key@ ==> obj_get(final(self).entries@, k) == obj_get(old(self).entries@, k),
            keys_sorted(old(self).entries@) ==> keys_sorted(final(self).entries@),
    {
        let ghost old_entries = self.entries@;
        let mut i: usize = 0;
        while i < self.entries.len() && str_lt(self.entries[i].0.as_str(), key.as_str())
            invariant
                self.entries@ == old_entries,
                i <= old_entries.len(),
                forall|j: int| 0 <= j < i ==> text_lt(#[trigger] old_entries[j].0@, key@),
            decreases old_entries.len() - i,
        {
            i += 1;
        }
        proof {
            assert forall|j: int| 0 <= j < i implies old_entries[j].0@ != key@ by {
                lemma_text_lt_irreflexive(key@);
                assert(text_lt(old_entries[j].0@, key@));
            }
        }
        if i < self.entries.len() && crate::text::str_eq(self.entries[i].0.as_str(), key.as_str()) {
            self.entries.set(i, (key, value));
            proof {
                assert forall|k: Seq<char>| k != key@ implies obj_get(self.entries@, k)
                    == obj_get(old_entries, k) by {
                    lemma_obj_get_update(old_entries, i as int, key, value, k);
                }
                lemma_obj_get_update(old_entries, i as int, key, value, key@);
                if keys_sorted(old_entries) {
                    assert forall|p: int, q: int| 0 <= p < q < self.entries@.len() implies text_lt(
                        #[trigger] self.entries@[p].0@,
                        #[trigger] self.entries@[q].0@,
                    ) by {
                        assert(old_entries[p].0@ == self.entries@[p].0@);
                        assert(old_entries[q].0@ == self.entries@[q].0@);
                    }
                }
            }
        } else {
            proof {
                if i < old_entries.len() {
                    lemma_text_lt_total(old_entries[i as int].0@, key@);
                }
            }
            self.entries.insert(i, (key, value));
            proof {
                assert(self.entries@ =~= old_entries.insert(i as int, (key, value)));
                assert forall|k: Seq<char>| k != key@ implies obj_get(self.entries@, k)
                    == obj_get(old_entries, k) by {
                    lemma_obj_get_insert(old_entries, i as int, key, value, k);
                }
                lemma_obj_get_insert(old_entries, i as int, key, value, key@);
                if keys_sorted(old_entries) {
                    let ghost e2 = self.entries@;
                    assert forall|q: int| i < q < e2.len() implies text_lt(key@, #[trigger] e2[q].0@) by {
                        assert(e2[q] == old_entries[q - 1]);
                        if q - 1 > i {
                            lemma_text_lt_transitive(key@, old_entries[i as int].0@, old_entries[q - 1].0@);
                        }
                    }
                    assert forall|p: int, q: int| 0 <= p < q < e2.len() implies text_lt(
                        #[trigger] e2[p].0@,
                        #[trigger] e2[q].0@,
                    ) by {
                        if q < i {
                        } else if q == i {
                        } else if p < i {
                            lemma_text_lt_transitive(e2[p].0@, key@, e2[q].0@);
                        } else if p == i {
                        } else {
                            assert(e2[p] == old_entries[p - 1]);
                            assert(e2[q] == old_entries[q - 1]);
                        }
                    }
                }
            }
        }
    }
}

impl JsonValue {
    pub fn as_str(&self) -> (r: Option<&str>)
        ensures
            match self {
                JsonValue::String(s) => r is Some && r->0@ == s@,
                _ => r is None,
            },
    {
        match self {
            JsonValue::String(s) => Some(s.as_str()),
            _ => None,
        }
    }

    pub fn as_bool(&self) -> (r: Option<bool>)
        ensures
            match self {
                JsonValue::Bool(b) => r == Some(*b),
                _ => r is None,
            },
    {
        match self {
            JsonValue::Bool(b) => Some(*b),
            _ => None,
        }
    }

    pub fn as_object(&self) -> (r: Option<&JsonObject>)
        ensures
            match self {
                JsonValue::Object(o) => r is Some && *r->0 == *o,
                _ => r is None,
            },
    {
        match self {
            JsonValue::Object(o) => Some(o),
            _ => None,
        }
    }

    pub fn is_null(&self) -> (r: bool)
        ensures
            r == (*self is Null),
    {
        match self {
            JsonValue::Null => true,
            _ => false,
        }
    }

    /// Member `key` of an object; `None` for other values.
    pub fn get(&self, key: &str) -> (r: Option<&JsonValue>)
        ensures
            match self {
                JsonValue::Object(o) => {
                    &&& r is Some == obj_has(o.entries@, key@)
                    &&& r matches Some(v) ==> obj_get(o.entries@, key@) == Some(*v)
                },
                _ => r is None,
            },
    {
        match self {
            JsonValue::Object(o) => o.get(key),
            _ => None,
        }
    }
}

/// Two JSON values are the same document: equal scalars, and arrays and
/// objects whose members are the same in the same order.
pub open spec fn json_same(a: JsonValue, b: JsonValue) -> bool
    decreases a,
{
    match a {
        JsonValue::Null => b is Null,
        JsonValue::Bool(x) => b matches JsonValue::Bool(y) && x == y,
        JsonValue::Number(x) => b matches JsonValue::Number(y) && x@ == y@,
        JsonValue::String(x) => b matches JsonValue::String(y) && x@ == y@,
        JsonValue::Array(xs) => b matches JsonValue::Array(ys) && xs@.len() == ys@.len() && forall|
            i: int,
        |
            0 <= i < xs@.len() ==> json_same(#[trigger] xs@[i], ys@[i]),
        JsonValue::Object(xo) => b matches JsonValue::Object(yo) && entries_same(
            xo.entries@,
            yo.entries@,
        ),
    }
}

/// Member lists with the same keys in the same order and the same values.
pub open spec fn entries_same(xs: Seq<(String, JsonValue)>, ys: Seq<(String, JsonValue)>) -> bool
    decreases xs,
{
    &&& xs.len() == ys.len()
    &&& forall|i: int|
        0 <= i < xs.len() ==> (#[trigger] xs[i]).0@ == ys[i].0@ && json_same(xs[i].1, ys[i].1)
}

/// A copy of a JSON value, node by node.
pub fn clone_value(v: &JsonValue) -> (r: JsonValue)
    ensures
        json_same(*v, r),
    decreases v,
{
    match v {
        JsonValue::Null => JsonValue::Null,
        JsonValue::Bool(b) => JsonValue::Bool(*b),
        JsonValue::Number(t) => JsonValue::Number(t.clone()),
        JsonValue::String(s) => JsonValue::String(s.clone()),
        JsonValue::Array(items) => {
            let mut out: Vec<JsonValue> = Vec::new();
            let mut i: usize = 0;
            while i < items.len()
                invariant
                    *v == JsonValue::Array(*items),
                    i <= items@.len(),
                    out@.len() == i,
                    forall|j: int| 0 <= j < i ==> json_same(#[trigger] items@[j], out@[j]),
                decreases items@.len() - i,
            {
                proof {
                    vstd::std_specs::vec::axiom_vec_index_decreases(*items, i as int);
                    assert(decreases_to!(*v => (*v)->Array_0));
                    assert(decreases_to!(*v => items@[i as int]));
                }
                let c = clone_value(&items[i]);
                out.push(c);
                i += 1;
            }
            JsonValue::Array(out)
        },
        JsonValue::Object(o) => JsonValue::Object(clone_object(o)),
    }
}

/// A copy of a JSON object, member by member.
pub fn clone_object(o: &JsonObject) -> (r: JsonObject)
    ensures
        entries_same(o.entries@, r.entries@),
    decreases o,
{
    let mut out: Vec<(String, JsonValue)> = Vec::new();
    let mut i: usize = 0;
    while i < o.entries.len()
        invariant
            i <= o.entries@.len(),
            out@.len() == i,
            forall|j: int|
                0 <= j < i ==> (#[trigger] o.entries@[j]).0@ == out@[j].0@ && json_same(
                    o.entries@[j].1,
                    out@[j].1,
                ),
        decreases o.entries@.len() - i,
    {
        let k = o.entries[i].0.clone();
        proof {
            vstd::std_specs::vec::axiom_vec_index_decreases(o.entries, i as int);
            assert(decreases_to!(o.entries@[i as int] => o.entries@[i as int].1));
        }
        let c = clone_value(&o.entries[i].1);
        out.push((k, c));
        i += 1;
    }
    JsonObject { entries: out }
}

/// The string value of member `key`, when it is a JSON string.
pub open spec fn arg_str(args: Seq<(String, JsonValue)>, key: Seq<char>) -> Option<Seq<char>> {
    match obj_get(args, key) {
        Some(JsonValue::String(s)) => Some(s@),
        _ => None,
    }
}

/// The boolean value of member `key`, when it is a JSON boolean.
pub open spec fn arg_bool(args: Seq<(String, JsonValue)>, key: Seq<char>) -> Option<bool> {
    match obj_get(args, key) {
        Some(JsonValue::Bool(b)) => Some(b),
        _ => None,
    }
}

pub fn get_str<'a>(args: &'a JsonObject, key: &str) -> (r: Option<&'a str>)
    ensures
        r is Some == arg_str(args.entries@, key@) is Some,
        r matches Some(s) ==> arg_str(args.entries@, key@) == Some(s@),
{
    match args.get(key) {
        Some(v) => v.as_str(),
        None => None,
    }
}

pub fn get_bool(args: &JsonObject, key: &str) -> (r: Option<bool>)
    ensures
        r == arg_bool(args.entries@, key@),
{
    match args.get(key) {
        Some(v) => v.as_bool(),
        None => None,
    }
}

// ---------------------------------------------------------------------------
// Text of JSON values
// ---------------------------------------------------------------------------

#[verifier::external_type_specification]
#[verifier::external_body]
pub struct ExSerdeJsonValue(serde_json::Value);

/// Converts the library's JSON value into the equal `serde_json::Value`,
/// one node for one node.  Of a name that occurs twice in an object the
/// first member is kept, as the library reads it (members are collected in
/// reverse, so the first one is inserted last).  A number whose text is not
/// a JSON number, which values read by `serde_json` never hold, becomes
/// null.  Nothing is stated of the result.
#[verifier::external_body]
fn to_serde(v: &JsonValue) -> serde_json::Value {
    match v {
        JsonValue::Null => serde_json::Value::Null,
        JsonValue::Bool(b) => serde_json::Value::Bool(*b),
        JsonValue::Number(t) => t.parse::<serde_json::Number>().map(serde_json::Value::Number)
            .unwrap_or(serde_json::Value::Null),
        JsonValue::String(s) => serde_json::Value::String(s.clone()),
        JsonValue::Array(items) => serde_json::Value::Array(items.iter().map(to_serde).collect()),
        JsonValue::Object(o) => serde_json::Value::Object(
            o.entries.iter().rev().map(|(k, x)| (k.clone(), to_serde(x))).collect(),
        ),
    }
}

/// Converts a `serde_json::Value` into the library's JSON value, one node
/// for one node; a number keeps the text that serde_json prints for it.
/// Nothing is stated of the result.
#[verifier::external_body]
fn from_serde(v: &serde_json::Value) -> JsonValue {
    match v {
        serde_json::Value::Null => JsonValue::Null,
        serde_json::Value::Bool(b) => JsonValue::Bool(*b),
        serde_json::Value::Number(n) => JsonValue::Number(n.to_string()),
        serde_json::Value::String(s) => JsonValue::String(s.clone()),
        serde_json::Value::Array(items) => JsonValue::Array(items.iter().map(from_serde).collect()),
        serde_json::Value::Object(m) => JsonValue::Object(
            JsonObject { entries: m.iter().map(|(k, x)| (k.clone(), from_serde(x))).collect() },
        ),
    }
}

/// What `serde_json::to_string` writes for a JSON value (compact form).
pub uninterp spec fn json_compact_text(v: JsonValue) -> Seq<char>;

/// `serde_json::to_string` on the value.  Serialising a JSON value cannot
/// fail (its map keys are strings), so the empty fallback is never taken.
#[verifier::external_body]
fn compact_text(v: &JsonValue) -> (r: String)
    ensures
        r@ == json_compact_text(*v),
{
    serde_json::to_string(&to_serde(v)).unwrap_or_default()
}

/// What `serde_json::from_str::<Value>` makes of a text: the value, or the
/// error's message.
pub uninterp spec fn json_from_str(text: Seq<char>) -> Result<JsonValue, Seq<char>>;

/// `serde_json::from_str::<serde_json::Value>`, with the error rendered by
/// its `Display`.  The result depends on the text alone.
#[verifier::external_body]
pub(crate) fn parse_json(text: &str) -> (r: Result<JsonValue, String>)
    ensures
        match r {
            Ok(v) => json_from_str(text@) == Ok::<JsonValue, Seq<char>>(v),
            Err(e) => json_from_str(text@) == Err::<JsonValue, Seq<char>>(e@),
        },
{
    match serde_json::from_str::<serde_json::Value>(text) {
        Ok(v) => Ok(from_serde(&v)),
        Err(e) => Err(e.to_string()),
    }
}

/// How a JSON value is written on a command line.
pub open spec fn cli_text(v: JsonValue) -> Seq<char> {
    match v {
        JsonValue::String(s) => s@,
        JsonValue::Number(t) => t@,
        JsonValue::Bool(b) => if b {
            "true"@
        } else {
            "false"@
        },
        _ => json_compact_text(v),
    }
}

/// A JSON value as a command-line argument: strings and numbers as their
/// text, booleans as `true`/`false`, anything else as compact JSON.
pub fn value_to_cli_string(value: &JsonValue) -> (r: String)
    ensures
        r@ == cli_text(*value),
{
    match value {
        JsonValue::String(s) => s.clone(),
        JsonValue::Number(t) => t.clone(),
        JsonValue::Bool(b) => if *b {
            "true".to_string()
        } else {
            "false".to_string()
        },
        _ => compact_text(value),
    }
}

} // verus!
