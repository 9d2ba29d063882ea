//! A plain JSON tree, and the trusted bridge that decodes text into it.
//!
//! The decoder itself is `serde_json`; everything the library then does with
//! the tree is verified against [`JsonValue`].

use vstd::prelude::*;

verus! {

/// A decoded JSON document. A number is kept only when it is an unsigned
/// integer, the only kind the catalog schema uses; any other number decodes
/// to [`JsonValue::NonUInt`].
pub enum JsonValue {
    Null,
    Bool(bool),
    UInt(u64),
    NonUInt,
    Str(String),
    Arr(Vec<JsonValue>),
    Obj(Vec<(String, JsonValue)>),
}

#[verifier::external_type_specification]
#[verifier::external_body]
pub struct ExValue(serde_json::Value);

/// The tree a text decodes to, or `None` when it is not valid JSON. Decoding
/// is a function of the text alone.
pub uninterp spec fn json_of(s: Seq<char>) -> Option<JsonValue>;

/// Relies on `serde_json::from_str::<Value>`: decoding either yields the
/// document's tree or fails, and depends on the input text alone.
#[verifier::external_body]
pub(crate) fn parse_json(s: &str) -> (r: Result<JsonValue, String>)
    ensures
        r matches Ok(t) ==> json_of(s@) == Option::Some(t),
        (r is Ok) == (json_of(s@) is Some),
{
    match serde_json::from_str::<serde_json::Value>(s) {
        Ok(v) => Ok(value_tree(&v)),
        Err(e) => Err(e.to_string()),
    }
}

/// Relies on the variants of `serde_json::Value`: carries each node of a
/// decoded document over one for one, keeping a number only when
/// `Number::as_u64` accepts it. Only `parse_json` calls this.
#[verifier::external_body]
fn value_tree(v: &serde_json::Value) -> JsonValue {
    match v {
        serde_json::Value::Null => JsonValue::Null,
        serde_json::Value::Bool(b) => JsonValue::Bool(*b),
        serde_json::Value::Number(n) => match n.as_u64() {
            Some(u) => JsonValue::UInt(u),
            None => JsonValue::NonUInt,
        },
        serde_json::Value::String(s) => JsonValue::Str(s.clone()),
        serde_json::Value::Array(a) => JsonValue::Arr(a.iter().map(value_tree).collect()),
        serde_json::Value::Object(o) => JsonValue::Obj(
            o.iter().map(|(k, w)| (k.clone(), value_tree(w))).collect(),
        ),
    }
}

/// The first field of a JSON object under a key, if any.
pub open spec fn obj_get(entries: Seq<(String, JsonValue)>, key: Seq<char>) -> Option<JsonValue>
    decreases entries.len(),
{
    if entries.len() == 0 {
        Option::None
    } else if entries[0].0@ == key {
        Option::Some(entries[0].1)
    } else {
        obj_get(entries.subrange(1, entries.len() as int), key)
    }
}

proof fn lemma_obj_get_skip(entries: Seq<(String, JsonValue)>, key: Seq<char>, i: int)
    requires
        0 <= i <= entries.len(),
        forall|k: int| 0 <= k < i ==> (#[trigger] entries[k]).0@ != key,
    ensures
        obj_get(entries, key) == obj_get(entries.subrange(i, entries.len() as int), key),
    decreases i,
{
    if i > 0 {
        lemma_obj_get_skip(entries.subrange(1, entries.len() as int), key, i - 1);
        assert(entries.subrange(1, entries.len() as int).subrange(i - 1, entries.len() - 1)
            =~= entries.subrange(i, entries.len() as int));
    } else {
        assert(entries.subrange(0, entries.len() as int) =~= entries);
    }
}

/// Looks a field up in a JSON object, first entry wins.
pub fn get_field<'a>(entries: &'a Vec<(String, JsonValue)>, key: &str) -> (r: Option<
    &'a JsonValue,
>)
    ensures
        match r {
            Option::Some(v) => obj_get(entries@, key@) == Option::Some(*v),
            Option::None => obj_get(entries@, key@) is None,
        },
{
    let n = entries.len();
    let mut i: usize = 0;
    while i < n
        invariant
            i <= n,
            n == entries.len(),
            forall|k: int| 0 <= k < i ==> (#[trigger] entries@[k]).0@ != key@,
        decreases n - i,
    {
        if crate::text::str_eq(entries[i].0.as_str(), key) {
            proof {
                lemma_obj_get_skip(entries@, key@, i as int);
                assert(entries@.subrange(i as int, n as int)[0] == entries@[i as int]);
            }
            return Option::Some(&entries[i].1);
        }
        i += 1;
    }
    proof {
        lemma_obj_get_skip(entries@, key@, n as int);
        assert(entries@.subrange(n as int, n as int) =~= Seq::<(String, JsonValue)>::empty());
    }
    Option::None
}

} // verus!
