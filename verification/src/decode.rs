//! Verified helpers that read typed fields out of a decoded JSON object,
//! and collect the fields that no typed attribute consumes.

use vstd::prelude::*;

use crate::errors::BugzillaQueryError;
use crate::json::{jlookup, obj_get, str_eq, JsonValue};
use crate::timestamp::{date_parsed, rfc3339_parsed, Date, DateTime};

verus! {

/// The pairs of an object, kept in order, whose keys no typed field
/// consumes. This is the lossless passthrough for server-specific fields.
pub open spec fn extra_of(
    o: Seq<(String, JsonValue)>,
    known: spec_fn(Seq<char>) -> bool,
) -> Seq<(String, JsonValue)>
    decreases o.len(),
{
    if o.len() == 0 {
        Seq::empty()
    } else {
        let rest = extra_of(o.drop_last(), known);
        if known(o.last().0@) {
            rest
        } else {
            rest.push(o.last())
        }
    }
}

/// Keeping only the unconsumed pairs changes no lookup of an unconsumed
/// key: the passthrough is lossless for such keys.
pub proof fn lemma_extra_preserves_lookup(
    o: Seq<(String, JsonValue)>,
    known: spec_fn(Seq<char>) -> bool,
    key: Seq<char>,
)
    requires
        !known(key),
    ensures
        jlookup(extra_of(o, known), key) == jlookup(o, key),
    decreases o.len(),
{
    if o.len() > 0 {
        lemma_extra_preserves_lookup(o.drop_last(), known, key);
        assert(o =~= o.drop_last().push(o.last()));
        crate::json::lemma_jlookup_push(o.drop_last(), o.last(), key);
        if !known(o.last().0@) {
            crate::json::lemma_jlookup_push(extra_of(o.drop_last(), known), o.last(), key);
        }
    }
}

/// A required string field: the value under the key, which must be a
/// JSON string.
pub open spec fn spec_req_string(o: Seq<(String, JsonValue)>, key: Seq<char>) -> Option<Seq<char>> {
    match jlookup(o, key) {
        Some(JsonValue::Str(s)) => Some(s@),
        _ => None,
    }
}

/// An optional string field: absent or `null` is an explicit "not
/// present"; a present value must be a JSON string.
pub open spec fn spec_opt_string(o: Seq<(String, JsonValue)>, key: Seq<char>) -> Option<
    Option<Seq<char>>,
> {
    match jlookup(o, key) {
        None => Some(None),
        Some(JsonValue::Null) => Some(None),
        Some(JsonValue::Str(s)) => Some(Some(s@)),
        _ => None,
    }
}

/// A required boolean field.
pub open spec fn spec_req_bool(o: Seq<(String, JsonValue)>, key: Seq<char>) -> Option<bool> {
    match jlookup(o, key) {
        Some(JsonValue::Bool(b)) => Some(b),
        _ => None,
    }
}

/// A required integer field that must fit a signed 32-bit integer.
pub open spec fn spec_req_i32(o: Seq<(String, JsonValue)>, key: Seq<char>) -> Option<i32> {
    match jlookup(o, key) {
        Some(JsonValue::Int(n)) => if (i32::MIN as int) <= (n as int) && (n as int) <= (
        i32::MAX as int) {
            Some(n as i32)
        } else {
            None
        },
        _ => None,
    }
}

/// An optional integer field that must fit a signed 32-bit integer when
/// present.
pub open spec fn spec_opt_i32(o: Seq<(String, JsonValue)>, key: Seq<char>) -> Option<Option<i32>> {
    match jlookup(o, key) {
        None => Some(None),
        Some(JsonValue::Null) => Some(None),
        Some(JsonValue::Int(n)) => if (i32::MIN as int) <= (n as int) && (n as int) <= (
        i32::MAX as int) {
            Some(Some(n as i32))
        } else {
            None
        },
        _ => None,
    }
}

/// An optional integer field that must fit an unsigned 32-bit integer
/// when present.
pub open spec fn spec_opt_u32(o: Seq<(String, JsonValue)>, key: Seq<char>) -> Option<Option<u32>> {
    match jlookup(o, key) {
        None => Some(None),
        Some(JsonValue::Null) => Some(None),
        Some(JsonValue::Int(n)) => if 0 <= (n as int) && (n as int) <= (u32::MAX as int) {
            Some(Some(n as u32))
        } else {
            None
        },
        _ => None,
    }
}

/// An optional signed 64-bit integer field.
pub open spec fn spec_opt_i64(o: Seq<(String, JsonValue)>, key: Seq<char>) -> Option<Option<i64>> {
    match jlookup(o, key) {
        None => Some(None),
        Some(JsonValue::Null) => Some(None),
        Some(JsonValue::Int(n)) => Some(Some(n)),
        _ => None,
    }
}

/// The strings of an array whose elements must all be JSON strings.
pub open spec fn spec_all_strings(items: Seq<JsonValue>) -> Option<Seq<Seq<char>>>
    decreases items.len(),
{
    if items.len() == 0 {
        Some(Seq::empty())
    } else {
        match (spec_all_strings(items.drop_last()), items.last()) {
            (Some(pre), JsonValue::Str(s)) => Some(pre.push(s@)),
            _ => None,
        }
    }
}

/// The integers of an array whose elements must all be JSON numbers that
/// fit a signed 32-bit integer.
pub open spec fn spec_all_i32s(items: Seq<JsonValue>) -> Option<Seq<i32>>
    decreases items.len(),
{
    if items.len() == 0 {
        Some(Seq::empty())
    } else {
        match (spec_all_i32s(items.drop_last()), items.last()) {
            (Some(pre), JsonValue::Int(n)) => if (i32::MIN as int) <= (n as int) && (n as int) <= (
            i32::MAX as int) {
                Some(pre.push(n as i32))
            } else {
                None
            },
            _ => None,
        }
    }
}

/// A required field holding an array of strings.
pub open spec fn spec_req_string_list(o: Seq<(String, JsonValue)>, key: Seq<char>) -> Option<
    Seq<Seq<char>>,
> {
    match jlookup(o, key) {
        Some(JsonValue::Arr(items)) => spec_all_strings(items@),
        _ => None,
    }
}

/// An optional field holding an array of strings.
pub open spec fn spec_opt_string_list(o: Seq<(String, JsonValue)>, key: Seq<char>) -> Option<
    Option<Seq<Seq<char>>>,
> {
    match jlookup(o, key) {
        None => Some(None),
        Some(JsonValue::Null) => Some(None),
        Some(JsonValue::Arr(items)) => match spec_all_strings(items@) {
            Some(ss) => Some(Some(ss)),
            None => None,
        },
        _ => None,
    }
}

/// A required field holding an array of numbers that fit signed 32-bit
/// integers.
pub open spec fn spec_req_i32_list(o: Seq<(String, JsonValue)>, key: Seq<char>) -> Option<
    Seq<i32>,
> {
    match jlookup(o, key) {
        Some(JsonValue::Arr(items)) => spec_all_i32s(items@),
        _ => None,
    }
}

/// A required timestamp field: a JSON string holding a well-formed
/// RFC 3339 instant.
pub open spec fn spec_req_datetime(o: Seq<(String, JsonValue)>, key: Seq<char>) -> Option<
    DateTime,
> {
    match jlookup(o, key) {
        Some(JsonValue::Str(s)) => rfc3339_parsed(s@),
        _ => None,
    }
}

/// An optional calendar-date field: a JSON string holding a well-formed
/// `year-month-day` date when present.
pub open spec fn spec_opt_date(o: Seq<(String, JsonValue)>, key: Seq<char>) -> Option<
    Option<Date>,
> {
    match jlookup(o, key) {
        None => Some(None),
        Some(JsonValue::Null) => Some(None),
        Some(JsonValue::Str(s)) => match date_parsed(s@) {
            Some(d) => Some(Some(d)),
            None => None,
        },
        _ => None,
    }
}

pub fn get_req_string(pairs: &Vec<(String, JsonValue)>, key: &str) -> (r: Result<
    String,
    BugzillaQueryError,
>)
    ensures
        match r {
            Ok(s) => spec_req_string(pairs@, key@) == Some(s@),
            Err(e) => spec_req_string(pairs@, key@) is None && e == BugzillaQueryError::Decode,
        },
{
    match obj_get(pairs, key) {
        Some(JsonValue::Str(s)) => Ok(s.clone()),
        _ => Err(BugzillaQueryError::Decode),
    }
}

pub fn get_opt_string(pairs: &Vec<(String, JsonValue)>, key: &str) -> (r: Result<
    Option<String>,
    BugzillaQueryError,
>)
    ensures
        match r {
            Ok(None) => spec_opt_string(pairs@, key@) == Some(None::<Seq<char>>),
            Ok(Some(s)) => spec_opt_string(pairs@, key@) == Some(Some(s@)),
            Err(e) => spec_opt_string(pairs@, key@) is None && e == BugzillaQueryError::Decode,
        },
{
    match obj_get(pairs, key) {
        None => Ok(None),
        Some(JsonValue::Null) => Ok(None),
        Some(JsonValue::Str(s)) => Ok(Some(s.clone())),
        _ => Err(BugzillaQueryError::Decode),
    }
}

pub fn get_req_bool(pairs: &Vec<(String, JsonValue)>, key: &str) -> (r: Result<
    bool,
    BugzillaQueryError,
>)
    ensures
        match r {
            Ok(b) => spec_req_bool(pairs@, key@) == Some(b),
            Err(e) => spec_req_bool(pairs@, key@) is None && e == BugzillaQueryError::Decode,
        },
{
    match obj_get(pairs, key) {
        Some(JsonValue::Bool(b)) => Ok(*b),
        _ => Err(BugzillaQueryError::Decode),
    }
}

pub fn get_req_i32(pairs: &Vec<(String, JsonValue)>, key: &str) -> (r: Result<
    i32,
    BugzillaQueryError,
>)
    ensures
        match r {
            Ok(n) => spec_req_i32(pairs@, key@) == Some(n),
            Err(e) => spec_req_i32(pairs@, key@) is None && e == BugzillaQueryError::Decode,
        },
{
    match obj_get(pairs, key) {
        Some(JsonValue::Int(n)) => {
            let n = *n;
            if i32::MIN as i64 <= n && n <= i32::MAX as i64 {
                Ok(n as i32)
            } else {
                Err(BugzillaQueryError::Decode)
            }
        },
        _ => Err(BugzillaQueryError::Decode),
    }
}

pub fn get_opt_i32(pairs: &Vec<(String, JsonValue)>, key: &str) -> (r: Result<
    Option<i32>,
    BugzillaQueryError,
>)
    ensures
        match r {
            Ok(n) => spec_opt_i32(pairs@, key@) == Some(n),
            Err(e) => spec_opt_i32(pairs@, key@) is None && e == BugzillaQueryError::Decode,
        },
{
    match obj_get(pairs, key) {
        None => Ok(None),
        Some(JsonValue::Null) => Ok(None),
        Some(JsonValue::Int(n)) => {
            let n = *n;
            if i32::MIN as i64 <= n && n <= i32::MAX as i64 {
                Ok(Some(n as i32))
            } else {
                Err(BugzillaQueryError::Decode)
            }
        },
        _ => Err(BugzillaQueryError::Decode),
    }
}

pub fn get_opt_u32(pairs: &Vec<(String, JsonValue)>, key: &str) -> (r: Result<
    Option<u32>,
    BugzillaQueryError,
>)
    ensures
        match r {
            Ok(n) => spec_opt_u32(pairs@, key@) == Some(n),
            Err(e) => spec_opt_u32(pairs@, key@) is None && e == BugzillaQueryError::Decode,
        },
{
    match obj_get(pairs, key) {
        None => Ok(None),
        Some(JsonValue::Null) => Ok(None),
        Some(JsonValue::Int(n)) => {
            let n = *n;
            if 0 <= n && n <= u32::MAX as i64 {
                Ok(Some(n as u32))
            } else {
                Err(BugzillaQueryError::Decode)
            }
        },
        _ => Err(BugzillaQueryError::Decode),
    }
}

pub fn get_opt_i64(pairs: &Vec<(String, JsonValue)>, key: &str) -> (r: Result<
    Option<i64>,
    BugzillaQueryError,
>)
    ensures
        match r {
            Ok(n) => spec_opt_i64(pairs@, key@) == Some(n),
            Err(e) => spec_opt_i64(pairs@, key@) is None && e == BugzillaQueryError::Decode,
        },
{
    match obj_get(pairs, key) {
        None => Ok(None),
        Some(JsonValue::Null) => Ok(None),
        Some(JsonValue::Int(n)) => Ok(Some(*n)),
        _ => Err(BugzillaQueryError::Decode),
    }
}

/// Reads every element of an array as a string.
pub fn collect_strings(items: &Vec<JsonValue>) -> (r: Result<Vec<String>, BugzillaQueryError>)
    ensures
        match r {
            Ok(ss) => spec_all_strings(items@) == Some(ss.deep_view()),
            Err(e) => spec_all_strings(items@) is None && e == BugzillaQueryError::Decode,
        },
{
    let mut out: Vec<String> = Vec::new();
    let mut i: usize = 0;
    while i < items.len()
        invariant
            i <= items.len(),
            spec_all_strings(items@.take(i as int)) == Some(out.deep_view()),
        decreases items.len() - i,
    {
        match &items[i] {
            JsonValue::Str(s) => {
                out.push(s.clone());
            },
            _ => {
                proof {
                    lemma_all_strings_extend_fails(items@, i as int);
                }
                return Err(BugzillaQueryError::Decode);
            },
        }
        proof {
            assert(items@.take(i + 1).drop_last() =~= items@.take(i as int));
            assert(items@.take(i + 1).last() == items@[i as int]);
        }
        i = i + 1;
    }
    proof {
        assert(items@.take(items@.len() as int) =~= items@);
    }
    Ok(out)
}

/// Reads every element of an array as a number fitting a signed 32-bit
/// integer.
pub fn collect_i32s(items: &Vec<JsonValue>) -> (r: Result<Vec<i32>, BugzillaQueryError>)
    ensures
        match r {
            Ok(ns) => spec_all_i32s(items@) == Some(ns@),
            Err(e) => spec_all_i32s(items@) is None && e == BugzillaQueryError::Decode,
        },
{
    let mut out: Vec<i32> = Vec::new();
    let mut i: usize = 0;
    while i < items.len()
        invariant
            i <= items.len(),
            spec_all_i32s(items@.take(i as int)) == Some(out@),
        decreases items.len() - i,
    {
        let ok = match &items[i] {
            JsonValue::Int(n) => {
                let n = *n;
                if i32::MIN as i64 <= n && n <= i32::MAX as i64 {
                    out.push(n as i32);
                    true
                } else {
                    false
                }
            },
            _ => false,
        };
        if !ok {
            proof {
                lemma_all_i32s_extend_fails(items@, i as int);
            }
            return Err(BugzillaQueryError::Decode);
        }
        proof {
            assert(items@.take(i + 1).drop_last() =~= items@.take(i as int));
            assert(items@.take(i + 1).last() == items@[i as int]);
        }
        i = i + 1;
    }
    proof {
        assert(items@.take(items@.len() as int) =~= items@);
    }
    Ok(out)
}

pub fn get_req_string_list(pairs: &Vec<(String, JsonValue)>, key: &str) -> (r: Result<
    Vec<String>,
    BugzillaQueryError,
>)
    ensures
        match r {
            Ok(ss) => spec_req_string_list(pairs@, key@) == Some(ss.deep_view()),
            Err(e) => spec_req_string_list(pairs@, key@) is None && e == BugzillaQueryError::Decode,
        },
{
    match obj_get(pairs, key) {
        Some(JsonValue::Arr(items)) => collect_strings(items),
        _ => Err(BugzillaQueryError::Decode),
    }
}

pub fn get_opt_string_list(pairs: &Vec<(String, JsonValue)>, key: &str) -> (r: Result<
    Option<Vec<String>>,
    BugzillaQueryError,
>)
    ensures
        match r {
            Ok(None) => spec_opt_string_list(pairs@, key@) == Some(None::<Seq<Seq<char>>>),
            Ok(Some(ss)) => spec_opt_string_list(pairs@, key@) == Some(Some(ss.deep_view())),
            Err(e) => spec_opt_string_list(pairs@, key@) is None && e == BugzillaQueryError::Decode,
        },
{
    match obj_get(pairs, key) {
        None => Ok(None),
        Some(JsonValue::Null) => Ok(None),
        Some(JsonValue::Arr(items)) => match collect_strings(items) {
            Ok(ss) => Ok(Some(ss)),
            Err(e) => Err(e),
        },
        _ => Err(BugzillaQueryError::Decode),
    }
}

pub fn get_req_i32_list(pairs: &Vec<(String, JsonValue)>, key: &str) -> (r: Result<
    Vec<i32>,
    BugzillaQueryError,
>)
    ensures
        match r {
            Ok(ns) => spec_req_i32_list(pairs@, key@) == Some(ns@),
            Err(e) => spec_req_i32_list(pairs@, key@) is None && e == BugzillaQueryError::Decode,
        },
{
    match obj_get(pairs, key) {
        Some(JsonValue::Arr(items)) => collect_i32s(items),
        _ => Err(BugzillaQueryError::Decode),
    }
}

/// Once one element fails to read as a string, the whole array fails.
proof fn lemma_all_strings_extend_fails(items: Seq<JsonValue>, i: int)
    requires
        0 <= i < items.len(),
        !(items[i] matches JsonValue::Str(_)),
    ensures
        spec_all_strings(items) is None,
    decreases items.len(),
{
    if items.len() > 0 {
        if i < items.len() - 1 {
            lemma_all_strings_extend_fails(items.drop_last(), i);
        }
    }
}

/// Once one element fails to read as a fitting number, the whole array
/// fails.
proof fn lemma_all_i32s_extend_fails(items: Seq<JsonValue>, i: int)
    requires
        0 <= i < items.len(),
        !(items[i] matches JsonValue::Int(n) && (i32::MIN as int) <= (n as int) && (n as int) <= (
        i32::MAX as int)),
    ensures
        spec_all_i32s(items) is None,
    decreases items.len(),
{
    if items.len() > 0 {
        if i < items.len() - 1 {
            lemma_all_i32s_extend_fails(items.drop_last(), i);
        }
    }
}

pub fn get_req_datetime(pairs: &Vec<(String, JsonValue)>, key: &str) -> (r: Result<
    DateTime,
    BugzillaQueryError,
>)
    ensures
        match r {
            Ok(dt) => spec_req_datetime(pairs@, key@) == Some(dt) && dt.wf(),
            Err(e) => spec_req_datetime(pairs@, key@) is None && e == BugzillaQueryError::Decode,
        },
{
    match obj_get(pairs, key) {
        Some(JsonValue::Str(s)) => match crate::timestamp::parse_rfc3339_utc(s.as_str()) {
            Some(dt) => Ok(dt),
            None => Err(BugzillaQueryError::Decode),
        },
        _ => Err(BugzillaQueryError::Decode),
    }
}

pub fn get_opt_date(pairs: &Vec<(String, JsonValue)>, key: &str) -> (r: Result<
    Option<Date>,
    BugzillaQueryError,
>)
    ensures
        match r {
            Ok(None) => spec_opt_date(pairs@, key@) == Some(None::<Date>),
            Ok(Some(d)) => spec_opt_date(pairs@, key@) == Some(Some(d)) && d.wf(),
            Err(e) => spec_opt_date(pairs@, key@) is None && e == BugzillaQueryError::Decode,
        },
{
    match obj_get(pairs, key) {
        None => Ok(None),
        Some(JsonValue::Null) => Ok(None),
        Some(JsonValue::Str(s)) => match crate::timestamp::parse_date(s.as_str()) {
            Some(d) => Ok(Some(d)),
            None => Err(BugzillaQueryError::Decode),
        },
        _ => Err(BugzillaQueryError::Decode),
    }
}

} // verus!
