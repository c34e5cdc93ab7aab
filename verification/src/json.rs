use vstd::prelude::*;

verus! {

/// A JSON number as the device protocol uses it: either an integer that
/// fits `i64`, or any other number kept as the decimal text the document
/// carried (the energy meter reports legacy decimal readings this way).
#[derive(Debug, PartialEq)]
pub enum JsonNumber {
    Int(i64),
    Dec(String),
}

impl JsonNumber {
    /// A copy equal to this number.
    pub fn dup(&self) -> (r: JsonNumber)
        ensures
            r == *self,
    {
        match self {
            JsonNumber::Int(i) => JsonNumber::Int(*i),
            JsonNumber::Dec(s) => JsonNumber::Dec(s.clone()),
        }
    }
}

/// A parsed JSON document, held as plain values the schema logic can
/// read. Object entries keep the order the parser handed out, with
/// distinct keys.
#[derive(Debug, PartialEq)]
pub enum JsonValue {
    Null,
    Bool(bool),
    Num(JsonNumber),
    Text(String),
    Arr(Vec<JsonValue>),
    Obj(Vec<(String, JsonValue)>),
}

/// The value under the first entry with the given key, if any.
pub open spec fn lookup(entries: Seq<(String, JsonValue)>, key: Seq<char>) -> Option<JsonValue>
    decreases entries.len(),
{
    if entries.len() == 0 {
        None
    } else if entries[0].0@ == key {
        Some(entries[0].1)
    } else {
        lookup(entries.drop_first(), key)
    }
}

/// The value an object holds under a key; `None` for a missing key or
/// for a value that is no object at all.
pub open spec fn obj_get(v: JsonValue, key: Seq<char>) -> Option<JsonValue> {
    match v {
        JsonValue::Obj(entries) => lookup(entries@, key),
        _ => None,
    }
}

proof fn lemma_lookup_at(entries: Seq<(String, JsonValue)>, key: Seq<char>, i: int)
    requires
        0 <= i < entries.len(),
        forall|j: int| 0 <= j < i ==> entries[j].0@ != key,
        entries[i].0@ == key,
    ensures
        lookup(entries, key) == Some(entries[i].1),
    decreases i,
{
    if i > 0 {
        assert(entries.drop_first()[i - 1] == entries[i]);
        assert(forall|j: int| 0 <= j < i - 1 ==> entries.drop_first()[j] == entries[j + 1]);
        lemma_lookup_at(entries.drop_first(), key, i - 1);
    }
}

proof fn lemma_lookup_none(entries: Seq<(String, JsonValue)>, key: Seq<char>)
    requires
        forall|j: int| 0 <= j < entries.len() ==> entries[j].0@ != key,
    ensures
        lookup(entries, key) is None,
    decreases entries.len(),
{
    if entries.len() > 0 {
        assert(forall|j: int|
            0 <= j < entries.drop_first().len() ==> entries.drop_first()[j] == entries[j + 1]);
        lemma_lookup_none(entries.drop_first(), key);
    }
}

/// Find the value an object holds under a key.
pub fn get_field<'a>(v: &'a JsonValue, key: &str) -> (r: Option<&'a JsonValue>)
    ensures
        match r {
            Some(x) => obj_get(*v, key@) == Some(*x),
            None => obj_get(*v, key@) is None,
        },
{
    match v {
        JsonValue::Obj(entries) => {
            let k: String = key.to_owned();
            let mut i: usize = 0;
            while i < entries.len()
                invariant
                    i <= entries@.len(),
                    k@ == key@,
                    *v == JsonValue::Obj(*entries),
                    forall|j: int| 0 <= j < i ==> entries@[j].0@ != key@,
                decreases entries@.len() - i,
            {
                if entries[i].0 == k {
                    proof {
                        lemma_lookup_at(entries@, key@, i as int);
                    }
                    return Some(&entries[i].1);
                }
                i = i + 1;
            }
            proof {
                lemma_lookup_none(entries@, key@);
            }
            None
        },
        _ => None,
    }
}

#[verifier::external_type_specification]
#[verifier::external_body]
pub struct ExValue(serde_json::Value);

/// The contents of a `serde_json::Value`, as the library's own tree.
pub uninterp spec fn spec_tree_of(v: serde_json::Value) -> JsonValue;

/// What `serde_json::from_str::<serde_json::Value>` makes of a text: the
/// parsed document, or the parser's diagnostic message. The outcome
/// depends on the text alone.
pub uninterp spec fn json_doc(s: Seq<char>) -> Result<JsonValue, Seq<char>>;

/// Relies on `serde_json::Value`: reading one variant at a time copies
/// the value into the library's tree. Integers that fit `i64` come
/// through `Number::as_i64`; every other number keeps its decimal text.
/// Object entries come out of `serde_json::Map` (a map ordered by key,
/// so with distinct keys), hence the contents are a function of the
/// value alone.
#[verifier::external_body]
fn value_to_tree(v: &serde_json::Value) -> (r: JsonValue)
    ensures
        r == spec_tree_of(*v),
{
    match v {
        serde_json::Value::Null => JsonValue::Null,
        serde_json::Value::Bool(b) => JsonValue::Bool(*b),
        serde_json::Value::Number(n) => match n.as_i64() {
            Some(i) => JsonValue::Num(JsonNumber::Int(i)),
            None => JsonValue::Num(JsonNumber::Dec(n.to_string())),
        },
        serde_json::Value::String(s) => JsonValue::Text(s.clone()),
        serde_json::Value::Array(a) => JsonValue::Arr(a.iter().map(value_to_tree).collect()),
        serde_json::Value::Object(m) => JsonValue::Obj(
            m.iter().map(|(k, x)| (k.clone(), value_to_tree(x))).collect(),
        ),
    }
}

/// Relies on `serde_json::from_str::<serde_json::Value>`: it parses the
/// text as one JSON document, or reports why it cannot; the result is a
/// function of the text alone. The error's display text becomes the
/// returned message.
#[verifier::external_body]
fn parse_value(s: &str) -> (r: Result<serde_json::Value, String>)
    ensures
        match r {
            Ok(v) => json_doc(s@) == Ok::<JsonValue, Seq<char>>(spec_tree_of(v)),
            Err(m) => json_doc(s@) == Err::<JsonValue, Seq<char>>(m@),
        },
{
    match serde_json::from_str::<serde_json::Value>(s) {
        Ok(v) => Ok(v),
        Err(e) => Err(e.to_string()),
    }
}

/// Parse a JSON text into the library's value tree, or hand back the
/// parser's diagnostic message.
pub fn parse_json(s: &str) -> (r: Result<JsonValue, String>)
    ensures
        match r {
            Ok(v) => json_doc(s@) == Ok::<JsonValue, Seq<char>>(v),
            Err(m) => json_doc(s@) == Err::<JsonValue, Seq<char>>(m@),
        },
{
    match parse_value(s) {
        Ok(v) => Ok(value_to_tree(&v)),
        Err(m) => Err(m),
    }
}

} // verus!
