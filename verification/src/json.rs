use vstd::prelude::*;

use serde_json::Value;

verus! {

/// The library's own model of a JSON document.  Response bodies are brought
/// into this form once, and every classification decision is made over it.
///
/// Numbers that fit in `i64` are held as `Int`; any other number is held in
/// `BigNumber` as the decimal text the parser produced.  Objects keep their
/// fields as a sequence of key/value pairs; a lookup takes the first
/// binding of a key.
#[derive(Debug, PartialEq)]
pub enum JsonValue {
    Null,
    Bool(bool),
    Int(i64),
    BigNumber(String),
    Str(String),
    Arr(Vec<JsonValue>),
    Obj(Vec<(String, JsonValue)>),
}

/// The first binding of `key` among `fields`, if any.
pub open spec fn obj_lookup(fields: Seq<(String, JsonValue)>, key: Seq<char>) -> Option<JsonValue>
    decreases fields.len(),
{
    if fields.len() == 0 {
        None
    } else if fields[0].0@ == key {
        Some(fields[0].1)
    } else {
        obj_lookup(fields.drop_first(), key)
    }
}

/// A prefix without the key leaves the lookup to the rest of the fields.
proof fn lemma_obj_lookup_skip(fields: Seq<(String, JsonValue)>, key: Seq<char>, i: int)
    requires
        0 <= i <= fields.len(),
        forall|j: int| 0 <= j < i ==> fields[j].0@ != key,
    ensures
        obj_lookup(fields, key) == obj_lookup(fields.skip(i), key),
    decreases i,
{
    if i == 0 {
        assert(fields.skip(0) =~= fields);
    } else {
        assert(fields.drop_first() =~= fields.skip(1));
        assert(fields.skip(1).skip(i - 1) =~= fields.skip(i));
        lemma_obj_lookup_skip(fields.skip(1), key, i - 1);
    }
}

/// Index of the first binding of `key` among `fields`, tied to `obj_lookup`.
pub fn obj_find(fields: &Vec<(String, JsonValue)>, key: &String) -> (r: Option<usize>)
    ensures
        match r {
            Some(i) => {
                &&& i < fields.len()
                &&& fields@[i as int].0@ == key@
                &&& forall|j: int| 0 <= j < i ==> fields@[j].0@ != key@
                &&& obj_lookup(fields@, key@) == Some(fields@[i as int].1)
            },
            None => obj_lookup(fields@, key@) is None,
        },
{
    let mut i: usize = 0;
    while i < fields.len()
        invariant
            i <= fields.len(),
            forall|j: int| 0 <= j < i ==> fields@[j].0@ != key@,
        decreases fields.len() - i,
    {
        if fields[i].0 == *key {
            proof {
                lemma_obj_lookup_skip(fields@, key@, i as int);
                assert(fields@.skip(i as int)[0] == fields@[i as int]);
            }
            return Some(i);
        }
        i += 1;
    }
    proof {
        lemma_obj_lookup_skip(fields@, key@, fields@.len() as int);
    }
    None
}

/// What parsing a body as JSON yields: `None` where the text is not JSON,
/// otherwise the parsed document.  The result depends on the text alone.
pub uninterp spec fn json_of(s: Seq<char>) -> Option<JsonValue>;

/// The serialized text of a JSON document; it depends on the document alone.
pub uninterp spec fn json_text_of(v: JsonValue) -> Seq<char>;

#[verifier::external_type_specification]
#[verifier::external_body]
pub struct ExSerdeValue(Value);

/// Relies on serde_json's document tree: maps each node of a
/// `serde_json::Value` one for one onto the library's `JsonValue`, keeping
/// object fields in the order serde_json holds them.
#[verifier::external_body]
fn convert_value(v: Value) -> JsonValue {
    match v {
        Value::Null => JsonValue::Null,
        Value::Bool(b) => JsonValue::Bool(b),
        Value::Number(n) => match n.as_i64() {
            Some(i) => JsonValue::Int(i),
            None => JsonValue::BigNumber(n.to_string()),
        },
        Value::String(s) => JsonValue::Str(s),
        Value::Array(a) => JsonValue::Arr(a.into_iter().map(convert_value).collect()),
        Value::Object(m) => JsonValue::Obj(
            m.into_iter().map(|(k, x)| (k, convert_value(x))).collect(),
        ),
    }
}

/// Relies on serde_json's document tree: the inverse of `convert_value`,
/// mapping each node of a `JsonValue` onto a `serde_json::Value`.
#[verifier::external_body]
fn unconvert_value(v: &JsonValue) -> Value {
    match v {
        JsonValue::Null => Value::Null,
        JsonValue::Bool(b) => Value::Bool(*b),
        JsonValue::Int(i) => Value::Number((*i).into()),
        JsonValue::BigNumber(s) => match s.parse::<serde_json::Number>() {
            Ok(n) => Value::Number(n),
            Err(_) => Value::String(s.clone()),
        },
        JsonValue::Str(s) => Value::String(s.clone()),
        JsonValue::Arr(a) => Value::Array(a.iter().map(unconvert_value).collect()),
        JsonValue::Obj(fields) => Value::Object(
            fields.iter().map(|(k, x)| (k.clone(), unconvert_value(x))).collect(),
        ),
    }
}

/// Relies on serde_json::from_str: whether a text parses as JSON, and what
/// document it parses to, is a function of the text alone.
#[verifier::external_body]
pub(crate) fn parse_json(s: &str) -> (r: Option<JsonValue>)
    ensures
        r == json_of(s@),
{
    match serde_json::from_str::<Value>(s) {
        Ok(v) => Some(convert_value(v)),
        Err(_) => None,
    }
}

/// Relies on serde_json::to_string: serializing a JSON document tree cannot
/// fail, and its text is a function of the document alone.
#[verifier::external_body]
pub(crate) fn json_to_text(v: &JsonValue) -> (r: String)
    ensures
        r@ == json_text_of(*v),
{
    match serde_json::to_string(&unconvert_value(v)) {
        Ok(s) => s,
        Err(_) => String::new(),
    }
}

} // verus!
