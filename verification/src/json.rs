//! A self-contained JSON value model with tolerant field access.
//!
//! The upstream API is not schema-guaranteed, so every reader in this
//! crate goes through the accessors here: a missing or wrongly-typed
//! field degrades to a default instead of failing. Numbers are kept as
//! unsigned integers, which is all the client ever reads from a
//! response. Duplicate keys in an object resolve to the last entry,
//! as the decoder that feeds this model already keeps the last one.

use vstd::prelude::*;

verus! {

/// One `key: value` pair of a JSON object.
#[derive(Debug)]
pub struct JsonEntry {
    pub key: String,
    pub value: JsonValue,
}

/// A decoded JSON document.
#[derive(Debug)]
pub enum JsonValue {
    Null,
    Bool(bool),
    Num(u64),
    Str(String),
    Arr(Vec<JsonValue>),
    Obj(Vec<JsonEntry>),
}

/// Last entry with the given key, if any.
pub open spec fn entries_lookup(entries: Seq<JsonEntry>, key: Seq<char>) -> Option<JsonValue>
    decreases entries.len(),
{
    if entries.len() == 0 {
        None
    } else if entries.last().key@ == key {
        Some(entries.last().value)
    } else {
        entries_lookup(entries.drop_last(), key)
    }
}

/// Field of an object; `None` on a non-object or a missing key.
pub open spec fn json_lookup(v: JsonValue, key: Seq<char>) -> Option<JsonValue> {
    match v {
        JsonValue::Obj(entries) => entries_lookup(entries@, key),
        _ => None,
    }
}

/// String field, if present with that type.
pub open spec fn spec_str_field(v: JsonValue, key: Seq<char>) -> Option<Seq<char>> {
    match json_lookup(v, key) {
        Some(JsonValue::Str(s)) => Some(s@),
        _ => None,
    }
}

/// String field, degrading to the empty string.
pub open spec fn spec_str_field_or_empty(v: JsonValue, key: Seq<char>) -> Seq<char> {
    match spec_str_field(v, key) {
        Some(s) => s,
        None => Seq::empty(),
    }
}

/// Boolean field, degrading to `false`.
pub open spec fn spec_bool_field(v: JsonValue, key: Seq<char>) -> bool {
    match json_lookup(v, key) {
        Some(JsonValue::Bool(b)) => b,
        _ => false,
    }
}

/// Unsigned-number field, degrading to 0.
pub open spec fn spec_u64_field(v: JsonValue, key: Seq<char>) -> u64 {
    match json_lookup(v, key) {
        Some(JsonValue::Num(n)) => n,
        _ => 0,
    }
}

/// Array field, degrading to the empty sequence.
pub open spec fn spec_arr_field(v: JsonValue, key: Seq<char>) -> Seq<JsonValue> {
    match json_lookup(v, key) {
        Some(JsonValue::Arr(a)) => a@,
        _ => Seq::empty(),
    }
}

/// Nested object field reached through two keys, degrading to `Null`
/// at either step.
pub open spec fn spec_path2(v: JsonValue, k1: Seq<char>, k2: Seq<char>) -> JsonValue {
    match json_lookup(v, k1) {
        Some(inner) => match json_lookup(inner, k2) {
            Some(x) => x,
            None => JsonValue::Null,
        },
        None => JsonValue::Null,
    }
}

impl JsonValue {
    /// Last field with the given key, if this is an object holding one.
    pub fn get<'a>(&'a self, key: &str) -> (r: Option<&'a JsonValue>)
        ensures
            (match json_lookup(*self, key@) {
                Some(x) => r matches Some(inner) && *inner == x,
                None => r is None,
            }),
    {
        match self {
            JsonValue::Obj(entries) => {
                let wanted: String = key.to_owned();
                let n = entries.len();
                let mut found: Option<&'a JsonValue> = None;
                let mut i: usize = 0;
                while i < n
                    invariant
                        n == entries.len(),
                        i <= n,
                        wanted@ == key@,
                        (match entries_lookup(entries@.take(i as int), key@) {
                            Some(x) => found matches Some(inner) && *inner == x,
                            None => found is None,
                        }),
                    decreases n - i,
                {
                    proof {
                        assert(entries@.take(i as int + 1).drop_last() =~= entries@.take(i as int));
                        assert(entries@.take(i as int + 1).last() == entries@[i as int]);
                    }
                    if entries[i].key == wanted {
                        found = Some(&entries[i].value);
                    }
                    i += 1;
                }
                proof {
                    assert(entries@.take(n as int) =~= entries@);
                }
                found
            },
            _ => None,
        }
    }

    /// String field, cloned out; `None` when absent or not a string.
    pub fn str_field(&self, key: &str) -> (r: Option<String>)
        ensures
            (match spec_str_field(*self, key@) {
                Some(s) => r matches Some(out) && out@ == s,
                None => r is None,
            }),
    {
        match self.get(key) {
            Some(JsonValue::Str(s)) => Some(s.clone()),
            _ => None,
        }
    }

    /// String field, degrading to the empty string.
    pub fn str_field_or_empty(&self, key: &str) -> (r: String)
        ensures
            r@ == spec_str_field_or_empty(*self, key@),
    {
        match self.str_field(key) {
            Some(s) => s,
            None => String::new(),
        }
    }

    /// Boolean field, degrading to `false`.
    pub fn bool_field(&self, key: &str) -> (r: bool)
        ensures
            r == spec_bool_field(*self, key@),
    {
        match self.get(key) {
            Some(JsonValue::Bool(b)) => *b,
            _ => false,
        }
    }

    /// Unsigned-number field, degrading to 0.
    pub fn u64_field(&self, key: &str) -> (r: u64)
        ensures
            r == spec_u64_field(*self, key@),
    {
        match self.get(key) {
            Some(JsonValue::Num(n)) => *n,
            _ => 0,
        }
    }

    /// Array field, borrowed; `None` when absent or not an array.
    pub fn arr_field<'a>(&'a self, key: &str) -> (r: Option<&'a Vec<JsonValue>>)
        ensures
            (match r {
                Some(a) => a@ == spec_arr_field(*self, key@),
                None => spec_arr_field(*self, key@).len() == 0,
            }),
    {
        match self.get(key) {
            Some(JsonValue::Arr(a)) => Some(a),
            _ => None,
        }
    }

    /// Nested object field reached through two keys; `None` where the
    /// spec-level path degrades to `Null` with no stored value behind it.
    pub fn path2<'a>(&'a self, k1: &str, k2: &str) -> (r: Option<&'a JsonValue>)
        ensures
            (match r {
                Some(x) => *x == spec_path2(*self, k1@, k2@),
                None => spec_path2(*self, k1@, k2@) == JsonValue::Null,
            }),
    {
        match self.get(k1) {
            Some(inner) => inner.get(k2),
            None => None,
        }
    }
}

} // verus!
