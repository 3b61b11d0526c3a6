//! The crate's own JSON value representation, and the trusted bridge that
//! parses response text into it.
//!
//! Bug records keep any server-specific fields as values of this type, so
//! that a custom Bugzilla configuration loses no data in decoding.

use vstd::prelude::*;

verus! {

/// An in-memory JSON value.
///
/// Numbers that fit a signed 64-bit integer are held as `Int`; any other
/// number is kept as its decimal text in `NumText`, so that nothing is
/// rounded. Objects are held as ordered key-value pairs.
pub enum JsonValue {
    Null,
    Bool(bool),
    Int(i64),
    NumText(String),
    Str(String),
    Arr(Vec<JsonValue>),
    Obj(Vec<(String, JsonValue)>),
}

/// The value under the first occurrence of `key` in an object's pairs,
/// if any.
pub open spec fn jlookup(pairs: Seq<(String, JsonValue)>, key: Seq<char>) -> Option<JsonValue>
    decreases pairs.len(),
{
    if pairs.len() == 0 {
        None
    } else if pairs[0].0@ == key {
        Some(pairs[0].1)
    } else {
        jlookup(pairs.drop_first(), key)
    }
}

/// Appending a pair changes a lookup only where the key was absent before
/// and the new pair carries it.
pub proof fn lemma_jlookup_push(
    pairs: Seq<(String, JsonValue)>,
    p: (String, JsonValue),
    key: Seq<char>,
)
    ensures
        jlookup(pairs.push(p), key) == (match jlookup(pairs, key) {
            Some(v) => Some(v),
            None => if p.0@ == key {
                Some(p.1)
            } else {
                None
            },
        }),
    decreases pairs.len(),
{
    reveal_with_fuel(jlookup, 3);
    if pairs.len() == 0 {
        assert(pairs.push(p)[0] == p);
        assert(pairs.push(p).drop_first() =~= Seq::<(String, JsonValue)>::empty());
    } else {
        assert(pairs.push(p)[0] == pairs[0]);
        assert(pairs.push(p).drop_first() =~= pairs.drop_first().push(p));
        lemma_jlookup_push(pairs.drop_first(), p, key);
    }
}

/// String equality, verified by comparing the character views.
pub fn str_eq(a: &str, b: &str) -> (r: bool)
    ensures
        r == (a@ == b@),
{
    let sa: String = a.to_owned();
    let sb: String = b.to_owned();
    sa == sb
}

/// Finds the value under the first occurrence of `key` in an object's
/// pairs, if any.
pub fn obj_get<'a>(pairs: &'a Vec<(String, JsonValue)>, key: &str) -> (r: Option<&'a JsonValue>)
    ensures
        match r {
            Some(v) => jlookup(pairs@, key@) == Some(*v),
            None => jlookup(pairs@, key@) is None,
        },
{
    let mut i: usize = 0;
    proof {
        assert(pairs@.skip(0) =~= pairs@);
    }
    while i < pairs.len()
        invariant
            i <= pairs.len(),
            jlookup(pairs@, key@) == jlookup(pairs@.skip(i as int), key@),
        decreases pairs.len() - i,
    {
        proof {
            assert(pairs@.skip(i as int)[0] == pairs@[i as int]);
        }
        if str_eq(pairs[i].0.as_str(), key) {
            return Some(&pairs[i].1);
        }
        proof {
            assert(pairs@.skip(i as int).drop_first() =~= pairs@.skip(i as int + 1));
        }
        i = i + 1;
    }
    proof {
        assert(pairs@.skip(pairs@.len() as int) =~= Seq::<(String, JsonValue)>::empty());
    }
    None
}

impl JsonValue {
    /// The string payload, where the value is a JSON string.
    pub fn as_str(&self) -> (r: Option<&str>)
        ensures
            match *self {
                JsonValue::Str(s) => r matches Some(v) && v@ == s@,
                _ => r is None,
            },
    {
        match self {
            JsonValue::Str(s) => Some(s.as_str()),
            _ => None,
        }
    }

    /// The integer payload, where the value is a JSON number that fits a
    /// signed 64-bit integer.
    pub fn as_int(&self) -> (r: Option<i64>)
        ensures
            match *self {
                JsonValue::Int(n) => r == Some(n),
                _ => r is None,
            },
    {
        match self {
            JsonValue::Int(n) => Some(*n),
            _ => None,
        }
    }
}

/// Declares serde_json's value type, which the parsing bridge below
/// consumes; the library's own code never reads one of its values.
#[verifier::external_type_specification]
#[verifier::external_body]
pub struct ExSerdeValue(serde_json::Value);

/// What parsing a body of JSON text yields: the crate's own value tree for
/// a well-formed body, nothing for a malformed one. The result depends on
/// the text alone.
pub uninterp spec fn json_parsed(s: Seq<char>) -> Option<JsonValue>;

/// Relies on serde_json::Value's variants: each arm moves one variant's
/// payload into the matching variant of the crate's own representation.
/// A number outside the signed 64-bit range keeps its decimal text.
#[verifier::external_body]
fn json_from_serde(v: serde_json::Value) -> JsonValue {
    match v {
        serde_json::Value::Null => JsonValue::Null,
        serde_json::Value::Bool(b) => JsonValue::Bool(b),
        serde_json::Value::Number(n) => match n.as_i64() {
            Some(i) => JsonValue::Int(i),
            None => JsonValue::NumText(n.to_string()),
        },
        serde_json::Value::String(s) => JsonValue::Str(s),
        serde_json::Value::Array(items) => JsonValue::Arr(
            items.into_iter().map(json_from_serde).collect(),
        ),
        serde_json::Value::Object(map) => JsonValue::Obj(
            map.into_iter().map(|(k, val)| (k, json_from_serde(val))).collect(),
        ),
    }
}

/// Relies on serde_json::from_str: a well-formed JSON body parses to its
/// value tree, a malformed one is rejected; the outcome is a function of
/// the text alone.
#[verifier::external_body]
pub(crate) fn parse_json(s: &str) -> (r: Option<JsonValue>)
    ensures
        r == json_parsed(s@),
{
    match serde_json::from_str::<serde_json::Value>(s) {
        Ok(v) => Some(json_from_serde(v)),
        Err(_) => None,
    }
}

} // verus!
