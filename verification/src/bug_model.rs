//! Strongly typed representations of Bugzilla bugs and related records,
//! and their verified decoding from the crate's JSON representation.
//!
//! Any fields that come from a custom Bugzilla configuration are captured
//! in the `extra` pairs of the parent record.

use vstd::prelude::*;
use vstd::string::StringExecFns;

use crate::decode::{
    collect_strings, extra_of, get_opt_date, get_opt_i32, get_opt_i64, get_opt_string,
    get_opt_string_list, get_req_bool, get_req_datetime, get_req_i32, get_req_i32_list,
    get_req_string, get_req_string_list, spec_all_strings, spec_opt_date, spec_opt_i32,
    spec_opt_i64, spec_opt_string, spec_opt_string_list, spec_req_bool, spec_req_datetime,
    spec_req_i32, spec_req_i32_list, spec_req_string, spec_req_string_list,
};
use crate::errors::BugzillaQueryError;
use crate::json::{jlookup, lemma_jlookup_push, obj_get, str_eq, JsonValue};
use crate::timestamp::{Date, DateTime};

verus! {

broadcast use vstd::string::group_string_axioms;

/// Certain fields can appear as a single, optional string or a list of
/// strings based on the Bugzilla instance and its configuration.
pub enum OneOrMany {
    Absent,
    One(String),
    Many(Vec<String>),
}

/// The normalized form of a polymorphic field: the ordered sequence of
/// strings it carries, regardless of which shape the server used.
pub open spec fn oom_norm(o: OneOrMany) -> Seq<Seq<char>> {
    match o {
        OneOrMany::Absent => Seq::empty(),
        OneOrMany::One(s) => seq![s@],
        OneOrMany::Many(v) => v.deep_view(),
    }
}

/// Whether an absent-or-present JSON value has one of the shapes that a
/// polymorphic field accepts: absent, `null`, a string, or an array of
/// strings.
pub open spec fn oom_ok(slot: Option<JsonValue>) -> bool {
    match slot {
        None => true,
        Some(JsonValue::Null) => true,
        Some(JsonValue::Str(_)) => true,
        Some(JsonValue::Arr(items)) => spec_all_strings(items@) is Some,
        _ => false,
    }
}

/// How a decoded polymorphic field corresponds to the absent-or-present
/// JSON value it came from: absence and `null` give the absent variant, a
/// string the single variant, an array of strings the list variant.
pub open spec fn oom_matches(m: OneOrMany, slot: Option<JsonValue>) -> bool {
    match slot {
        None => m is Absent,
        Some(JsonValue::Null) => m is Absent,
        Some(JsonValue::Str(s)) => m matches OneOrMany::One(t) && t@ == s@,
        Some(JsonValue::Arr(items)) => m matches OneOrMany::Many(v) && spec_all_strings(items@)
            == Some(v.deep_view()),
        _ => false,
    }
}

/// Whether an absent-or-present JSON value suits an optional polymorphic
/// field, where absence and `null` mean the field is not there at all.
pub open spec fn opt_oom_ok(slot: Option<JsonValue>) -> bool {
    match slot {
        None => true,
        Some(JsonValue::Null) => true,
        Some(JsonValue::Str(_)) => true,
        Some(JsonValue::Arr(items)) => spec_all_strings(items@) is Some,
        _ => false,
    }
}

/// How a decoded optional polymorphic field corresponds to the
/// absent-or-present JSON value it came from.
pub open spec fn opt_oom_matches(m: Option<OneOrMany>, slot: Option<JsonValue>) -> bool {
    match slot {
        None => m is None,
        Some(JsonValue::Null) => m is None,
        Some(JsonValue::Str(s)) => m matches Some(OneOrMany::One(t)) && t@ == s@,
        Some(JsonValue::Arr(items)) => m matches Some(OneOrMany::Many(v)) && spec_all_strings(
            items@,
        ) == Some(v.deep_view()),
        _ => false,
    }
}

impl OneOrMany {
    /// Regardless of the Bugzilla instance configuration, list all items
    /// in a vector: empty, one item, or more items.
    pub fn into_vec(self) -> (r: Vec<String>)
        ensures
            r.deep_view() == oom_norm(self),
    {
        match self {
            Self::Absent => Vec::new(),
            Self::One(s) => {
                let mut v: Vec<String> = Vec::new();
                v.push(s);
                proof {
                    assert(v.deep_view() =~= oom_norm(self));
                }
                v
            },
            Self::Many(v) => v,
        }
    }

    /// Decodes a polymorphic field from the JSON value under its key, or
    /// from its absence.
    pub fn from_json(v: Option<&JsonValue>) -> (r: Result<OneOrMany, BugzillaQueryError>)
        ensures
            match r {
                Ok(m) => oom_ok(opt_val(v)) && oom_matches(m, opt_val(v)),
                Err(e) => !oom_ok(opt_val(v)) && e == BugzillaQueryError::Decode,
            },
    {
        match v {
            None => Ok(OneOrMany::Absent),
            Some(JsonValue::Null) => Ok(OneOrMany::Absent),
            Some(JsonValue::Str(s)) => Ok(OneOrMany::One(s.clone())),
            Some(JsonValue::Arr(items)) => match collect_strings(items) {
                Ok(ss) => Ok(OneOrMany::Many(ss)),
                Err(e) => Err(e),
            },
            _ => Err(BugzillaQueryError::Decode),
        }
    }

    /// Decodes an optional polymorphic field, where absence and `null`
    /// mean the field is not there at all.
    pub fn from_json_opt(v: Option<&JsonValue>) -> (r: Result<
        Option<OneOrMany>,
        BugzillaQueryError,
    >)
        ensures
            match r {
                Ok(m) => opt_oom_ok(opt_val(v)) && opt_oom_matches(m, opt_val(v)),
                Err(e) => !opt_oom_ok(opt_val(v)) && e == BugzillaQueryError::Decode,
            },
    {
        match v {
            None => Ok(None),
            Some(JsonValue::Null) => Ok(None),
            Some(JsonValue::Str(s)) => Ok(Some(OneOrMany::One(s.clone()))),
            Some(JsonValue::Arr(items)) => match collect_strings(items) {
                Ok(ss) => Ok(Some(OneOrMany::Many(ss))),
                Err(e) => Err(e),
            },
            _ => Err(BugzillaQueryError::Decode),
        }
    }
}

/// Some Bugzilla instances set the component as a single string, some use a list of components.
pub type Component = OneOrMany;

/// Some Bugzilla instances set the version as a single string, some use a list of versions.
pub type Version = OneOrMany;

/// Some Bugzilla instances set the alias as a single string, some use a list of aliases.
pub type Alias = OneOrMany;

/// The value behind an optional reference, as an optional value.
pub open spec fn opt_val(v: Option<&JsonValue>) -> Option<JsonValue> {
    match v {
        Some(r) => Some(*r),
        None => None,
    }
}

/// The representation of a Bugzilla user account.
pub struct User {
    pub email: String,
    pub id: i32,
    pub name: String,
    pub real_name: String,
    pub extra: Vec<(String, JsonValue)>,
}

/// The keys that the typed fields of a user record consume.
pub open spec fn is_user_known_key(k: Seq<char>) -> bool {
    ||| k == "email"@
    ||| k == "id"@
    ||| k == "name"@
    ||| k == "real_name"@
}

/// The user keys, as a predicate value for the passthrough filter.
pub open spec fn user_known_pred() -> spec_fn(Seq<char>) -> bool {
    |k: Seq<char>| is_user_known_key(k)
}

/// Whether a JSON value decodes as a user record.
pub open spec fn user_ok(v: JsonValue) -> bool {
    v matches JsonValue::Obj(pairs) && {
        let o = pairs@;
        &&& spec_req_string(o, "email"@) is Some
        &&& spec_req_i32(o, "id"@) is Some
        &&& spec_req_string(o, "name"@) is Some
        &&& spec_req_string(o, "real_name"@) is Some
    }
}

/// How a decoded user record corresponds to the JSON object it came from.
pub open spec fn user_matches(u: User, v: JsonValue) -> bool {
    v matches JsonValue::Obj(pairs) && {
        let o = pairs@;
        &&& spec_req_string(o, "email"@) == Some(u.email@)
        &&& spec_req_i32(o, "id"@) == Some(u.id)
        &&& spec_req_string(o, "name"@) == Some(u.name@)
        &&& spec_req_string(o, "real_name"@) == Some(u.real_name@)
        &&& u.extra@ == extra_of(o, user_known_pred())
    }
}

/// Whether every element of an array decodes as a user record.
pub open spec fn users_ok(items: Seq<JsonValue>) -> bool {
    forall|i: int| 0 <= i < items.len() ==> user_ok(#[trigger] items[i])
}

/// How a decoded sequence of user records corresponds, element by
/// element, to the array it came from.
pub open spec fn users_match(us: Seq<User>, items: Seq<JsonValue>) -> bool {
    &&& us.len() == items.len()
    &&& forall|i: int| 0 <= i < items.len() ==> user_matches(#[trigger] us[i], items[i])
}

/// Whether every element of an array decodes as a flag record.
pub open spec fn flags_ok(items: Seq<JsonValue>) -> bool {
    forall|i: int| 0 <= i < items.len() ==> flag_ok(#[trigger] items[i])
}

/// How a decoded sequence of flag records corresponds, element by
/// element, to the array it came from.
pub open spec fn flags_match(fs: Seq<Flag>, items: Seq<JsonValue>) -> bool {
    &&& fs.len() == items.len()
    &&& forall|i: int| 0 <= i < items.len() ==> flag_matches(#[trigger] fs[i], items[i])
}

fn is_user_known_key_exec(k: &str) -> (r: bool)
    ensures
        r == is_user_known_key(k@),
{
    str_eq(k, "email") || str_eq(k, "id") || str_eq(k, "name") || str_eq(k, "real_name")
}

impl User {
    /// Decodes a user record from a JSON object, keeping unconsumed
    /// fields in `extra`.
    pub fn from_json(v: JsonValue) -> (r: Result<User, BugzillaQueryError>)
        ensures
            match r {
                Ok(u) => user_ok(v) && user_matches(u, v),
                Err(e) => !user_ok(v) && e == BugzillaQueryError::Decode,
            },
    {
        let mut pairs = match v {
            JsonValue::Obj(pairs) => pairs,
            _ => {
                return Err(BugzillaQueryError::Decode);
            },
        };
        let email = match get_req_string(&pairs, "email") {
            Ok(x) => x,
            Err(e) => {
                return Err(e);
            },
        };
        let id = match get_req_i32(&pairs, "id") {
            Ok(x) => x,
            Err(e) => {
                return Err(e);
            },
        };
        let name = match get_req_string(&pairs, "name") {
            Ok(x) => x,
            Err(e) => {
                return Err(e);
            },
        };
        let real_name = match get_req_string(&pairs, "real_name") {
            Ok(x) => x,
            Err(e) => {
                return Err(e);
            },
        };
        let ghost o = pairs@;
        let mut extra: Vec<(String, JsonValue)> = Vec::new();
        let ghost mut done: Seq<(String, JsonValue)> = Seq::empty();
        proof {
            assert(o =~= done + pairs@);
        }
        while pairs.len() > 0
            invariant
                o == done + pairs@,
                extra@ == extra_of(done, user_known_pred()),
            decreases pairs.len(),
        {
            let ghost prev_pairs = pairs@;
            let p = pairs.remove(0);
            let known = is_user_known_key_exec(p.0.as_str());
            proof {
                assert(done.push(p) + pairs@ =~= done + prev_pairs);
                assert(done.push(p).drop_last() =~= done);
                done = done.push(p);
            }
            if !known {
                extra.push(p);
            }
        }
        proof {
            assert(o =~= done);
        }
        Ok(User { email, id, name, real_name, extra })
    }
}

impl User {
    /// Decodes every element of an array as a user record.
    #[verifier::loop_isolation(false)]
    pub fn all_from_items(items: Vec<JsonValue>) -> (r: Result<Vec<User>, BugzillaQueryError>)
        ensures
            match r {
                Ok(us) => users_ok(items@) && users_match(us@, items@),
                Err(e) => !users_ok(items@) && e == BugzillaQueryError::Decode,
            },
    {
        let ghost o = items@;
        let mut rest = items;
        let mut out: Vec<User> = Vec::new();
        let ghost mut done: Seq<JsonValue> = Seq::empty();
        proof {
            assert(o =~= done + rest@);
        }
        while rest.len() > 0
            invariant
                o == done + rest@,
                users_ok(done),
                users_match(out@, done),
            decreases rest.len(),
        {
            let ghost prev_items = rest@;
            let v = rest.remove(0);
            match User::from_json(v) {
                Ok(u) => {
                    out.push(u);
                },
                Err(e) => {
                    proof {
                        assert(o[done.len() as int] == v);
                        assert(!users_ok(o));
                    }
                    return Err(e);
                },
            }
            proof {
                assert(done.push(v) + rest@ =~= done + prev_items);
                done = done.push(v);
            }
        }
        proof {
            assert(o =~= done);
        }
        Ok(out)
    }
}

/// The representation of a flag in a bug.
/// A flag resembles a hash map entry, where `flag.name` is the key
/// and `flag.status` is the value.
pub struct Flag {
    pub id: i32,
    pub type_id: i32,
    pub creation_date: DateTime,
    pub modification_date: DateTime,
    pub name: String,
    pub status: String,
    pub setter: String,
    pub requestee: Option<String>,
    pub extra: Vec<(String, JsonValue)>,
}

/// The keys that the typed fields of a flag record consume.
pub open spec fn is_flag_known_key(k: Seq<char>) -> bool {
    ||| k == "id"@
    ||| k == "type_id"@
    ||| k == "creation_date"@
    ||| k == "modification_date"@
    ||| k == "name"@
    ||| k == "status"@
    ||| k == "setter"@
    ||| k == "requestee"@
}

/// The flag keys, as a predicate value for the passthrough filter.
pub open spec fn flag_known_pred() -> spec_fn(Seq<char>) -> bool {
    |k: Seq<char>| is_flag_known_key(k)
}

/// Whether a JSON value decodes as a flag record.
pub open spec fn flag_ok(v: JsonValue) -> bool {
    v matches JsonValue::Obj(pairs) && {
        let o = pairs@;
        &&& spec_req_i32(o, "id"@) is Some
        &&& spec_req_i32(o, "type_id"@) is Some
        &&& spec_req_datetime(o, "creation_date"@) is Some
        &&& spec_req_datetime(o, "modification_date"@) is Some
        &&& spec_req_string(o, "name"@) is Some
        &&& spec_req_string(o, "status"@) is Some
        &&& spec_req_string(o, "setter"@) is Some
        &&& spec_opt_string(o, "requestee"@) is Some
    }
}

/// How a decoded flag record corresponds to the JSON object it came from.
pub open spec fn flag_matches(f: Flag, v: JsonValue) -> bool {
    v matches JsonValue::Obj(pairs) && {
        let o = pairs@;
        &&& spec_req_i32(o, "id"@) == Some(f.id)
        &&& spec_req_i32(o, "type_id"@) == Some(f.type_id)
        &&& spec_req_datetime(o, "creation_date"@) == Some(f.creation_date)
        &&& spec_req_datetime(o, "modification_date"@) == Some(f.modification_date)
        &&& spec_req_string(o, "name"@) == Some(f.name@)
        &&& spec_req_string(o, "status"@) == Some(f.status@)
        &&& spec_req_string(o, "setter"@) == Some(f.setter@)
        &&& (match f.requestee {
            Some(s) => spec_opt_string(o, "requestee"@) == Some(Some(s@)),
            None => spec_opt_string(o, "requestee"@) == Some(None::<Seq<char>>),
        })
        &&& f.extra@ == extra_of(o, flag_known_pred())
    }
}

fn is_flag_known_key_exec(k: &str) -> (r: bool)
    ensures
        r == is_flag_known_key(k@),
{
    str_eq(k, "id") || str_eq(k, "type_id") || str_eq(k, "creation_date") || str_eq(
        k,
        "modification_date",
    ) || str_eq(k, "name") || str_eq(k, "status") || str_eq(k, "setter") || str_eq(k, "requestee")
}

impl Flag {
    /// Decodes a flag record from a JSON object, keeping unconsumed
    /// fields in `extra`.
    pub fn from_json(v: JsonValue) -> (r: Result<Flag, BugzillaQueryError>)
        ensures
            match r {
                Ok(f) => flag_ok(v) && flag_matches(f, v),
                Err(e) => !flag_ok(v) && e == BugzillaQueryError::Decode,
            },
    {
        let mut pairs = match v {
            JsonValue::Obj(pairs) => pairs,
            _ => {
                return Err(BugzillaQueryError::Decode);
            },
        };
        let id = match get_req_i32(&pairs, "id") {
            Ok(x) => x,
            Err(e) => {
                return Err(e);
            },
        };
        let type_id = match get_req_i32(&pairs, "type_id") {
            Ok(x) => x,
            Err(e) => {
                return Err(e);
            },
        };
        let creation_date = match get_req_datetime(&pairs, "creation_date") {
            Ok(x) => x,
            Err(e) => {
                return Err(e);
            },
        };
        let modification_date = match get_req_datetime(&pairs, "modification_date") {
            Ok(x) => x,
            Err(e) => {
                return Err(e);
            },
        };
        let name = match get_req_string(&pairs, "name") {
            Ok(x) => x,
            Err(e) => {
                return Err(e);
            },
        };
        let status = match get_req_string(&pairs, "status") {
            Ok(x) => x,
            Err(e) => {
                return Err(e);
            },
        };
        let setter = match get_req_string(&pairs, "setter") {
            Ok(x) => x,
            Err(e) => {
                return Err(e);
            },
        };
        let requestee = match get_opt_string(&pairs, "requestee") {
            Ok(x) => x,
            Err(e) => {
                return Err(e);
            },
        };
        let ghost o = pairs@;
        let mut extra: Vec<(String, JsonValue)> = Vec::new();
        let ghost mut done: Seq<(String, JsonValue)> = Seq::empty();
        proof {
            assert(o =~= done + pairs@);
        }
        while pairs.len() > 0
            invariant
                o == done + pairs@,
                extra@ == extra_of(done, flag_known_pred()),
            decreases pairs.len(),
        {
            let ghost prev_pairs = pairs@;
            let p = pairs.remove(0);
            let known = is_flag_known_key_exec(p.0.as_str());
            proof {
                assert(done.push(p) + pairs@ =~= done + prev_pairs);
                assert(done.push(p).drop_last() =~= done);
                done = done.push(p);
            }
            if !known {
                extra.push(p);
            }
        }
        proof {
            assert(o =~= done);
        }
        Ok(
            Flag {
                id,
                type_id,
                creation_date,
                modification_date,
                name,
                status,
                setter,
                requestee,
                extra,
            },
        )
    }

    /// Decodes every element of an array as a flag record.
    #[verifier::loop_isolation(false)]
    pub fn all_from_items(items: Vec<JsonValue>) -> (r: Result<Vec<Flag>, BugzillaQueryError>)
        ensures
            match r {
                Ok(fs) => flags_ok(items@) && flags_match(fs@, items@),
                Err(e) => !flags_ok(items@) && e == BugzillaQueryError::Decode,
            },
    {
        let ghost o = items@;
        let mut rest = items;
        let mut out: Vec<Flag> = Vec::new();
        let ghost mut done: Seq<JsonValue> = Seq::empty();
        proof {
            assert(o =~= done + rest@);
        }
        while rest.len() > 0
            invariant
                o == done + rest@,
                flags_ok(done),
                flags_match(out@, done),
            decreases rest.len(),
        {
            let ghost prev_items = rest@;
            let v = rest.remove(0);
            match Flag::from_json(v) {
                Ok(f) => {
                    out.push(f);
                },
                Err(e) => {
                    proof {
                        assert(o[done.len() as int] == v);
                        assert(!flags_ok(o));
                    }
                    return Err(e);
                },
            }
            proof {
                assert(done.push(v) + rest@ =~= done + prev_items);
                done = done.push(v);
            }
        }
        proof {
            assert(o =~= done);
        }
        Ok(out)
    }

    /// The flag in the format of `name: value`.
    pub fn display(&self) -> (r: String)
        ensures
            r@ == self.name@ + ": "@ + self.status@,
    {
        proof {
            reveal_strlit(": ");
        }
        let mut s = self.name.clone();
        s.append(": ");
        s.append(self.status.as_str());
        s
    }
}

/// A required field holding an embedded user object.
pub open spec fn spec_req_user_ok(o: Seq<(String, JsonValue)>, key: Seq<char>) -> bool {
    jlookup(o, key) matches Some(v) && user_ok(v)
}

/// How a required embedded user corresponds to the field it came from.
pub open spec fn spec_req_user_matches(
    u: User,
    o: Seq<(String, JsonValue)>,
    key: Seq<char>,
) -> bool {
    jlookup(o, key) matches Some(v) && user_matches(u, v)
}

/// An optional field holding an embedded user object.
pub open spec fn spec_opt_user_ok(o: Seq<(String, JsonValue)>, key: Seq<char>) -> bool {
    match jlookup(o, key) {
        None => true,
        Some(JsonValue::Null) => true,
        Some(v) => user_ok(v),
    }
}

/// How an optional embedded user corresponds to the field it came from.
pub open spec fn spec_opt_user_matches(
    u: Option<User>,
    o: Seq<(String, JsonValue)>,
    key: Seq<char>,
) -> bool {
    match jlookup(o, key) {
        None => u is None,
        Some(JsonValue::Null) => u is None,
        Some(v) => u matches Some(uu) && user_matches(uu, v),
    }
}

/// A required field holding an array of embedded user objects.
pub open spec fn spec_user_list_ok(o: Seq<(String, JsonValue)>, key: Seq<char>) -> bool {
    jlookup(o, key) matches Some(JsonValue::Arr(items)) && users_ok(items@)
}

/// How a list of embedded users corresponds to the field it came from.
pub open spec fn spec_user_list_matches(
    us: Seq<User>,
    o: Seq<(String, JsonValue)>,
    key: Seq<char>,
) -> bool {
    jlookup(o, key) matches Some(JsonValue::Arr(items)) && users_match(us, items@)
}

/// An optional field holding an array of embedded flag objects.
pub open spec fn spec_opt_flag_list_ok(o: Seq<(String, JsonValue)>, key: Seq<char>) -> bool {
    match jlookup(o, key) {
        None => true,
        Some(JsonValue::Null) => true,
        Some(JsonValue::Arr(items)) => flags_ok(items@),
        _ => false,
    }
}

/// How an optional list of embedded flags corresponds to the field it
/// came from.
pub open spec fn spec_opt_flag_list_matches(
    fs: Option<Vec<Flag>>,
    o: Seq<(String, JsonValue)>,
    key: Seq<char>,
) -> bool {
    match jlookup(o, key) {
        None => fs is None,
        Some(JsonValue::Null) => fs is None,
        Some(JsonValue::Arr(items)) => fs matches Some(fv) && flags_match(fv@, items@),
        _ => false,
    }
}

/// The view of an optional string.
pub open spec fn opt_string_view(x: Option<String>) -> Option<Seq<char>> {
    match x {
        Some(s) => Some(s@),
        None => None,
    }
}

/// The view of an optional list of strings.
pub open spec fn opt_strings_view(x: Option<Vec<String>>) -> Option<Seq<Seq<char>>> {
    match x {
        Some(v) => Some(v.deep_view()),
        None => None,
    }
}

/// The representation of a single Bugzilla bug with all its fields.
///
/// Attributes that a particular server reply leaves out and that are not
/// required decode to an explicit "not present" state rather than
/// erroring; everything else is captured in `extra`.
pub struct Bug {
    pub alias: OneOrMany,
    pub op_sys: String,
    pub classification: String,
    pub id: i32,
    pub url: String,
    pub creator: String,
    pub creator_detail: User,
    pub summary: String,
    pub status: String,
    pub estimated_time: Option<i64>,
    pub target_milestone: String,
    pub cc: Vec<String>,
    pub cc_detail: Vec<User>,
    pub is_open: bool,
    pub is_creator_accessible: bool,
    pub docs_contact: Option<String>,
    pub docs_contact_detail: Option<User>,
    pub assigned_to: String,
    pub assigned_to_detail: User,
    pub resolution: String,
    pub severity: String,
    pub product: String,
    pub platform: String,
    pub last_change_time: DateTime,
    pub remaining_time: Option<i64>,
    pub priority: String,
    pub whiteboard: String,
    pub creation_time: DateTime,
    pub is_confirmed: bool,
    pub qa_contact: String,
    pub qa_contact_detail: Option<User>,
    pub dupe_of: Option<i32>,
    pub target_release: Option<OneOrMany>,
    pub actual_time: Option<i64>,
    pub component: OneOrMany,
    pub is_cc_accessible: bool,
    pub version: OneOrMany,
    pub keywords: Vec<String>,
    pub depends_on: Vec<i32>,
    pub blocks: Vec<i32>,
    pub see_also: Option<Vec<String>>,
    pub groups: Vec<String>,
    pub deadline: Option<Date>,
    pub update_token: Option<String>,
    pub work_time: Option<i64>,
    pub flags: Option<Vec<Flag>>,
    pub tags: Option<Vec<String>>,
    pub dependent_products: Option<Vec<String>>,
    pub extra: Vec<(String, JsonValue)>,
}

/// The keys that the typed fields of a bug record consume.
pub open spec fn is_bug_known_key(k: Seq<char>) -> bool {
    ||| k == "alias"@
    ||| k == "op_sys"@
    ||| k == "classification"@
    ||| k == "id"@
    ||| k == "url"@
    ||| k == "creator"@
    ||| k == "creator_detail"@
    ||| k == "summary"@
    ||| k == "status"@
    ||| k == "estimated_time"@
    ||| k == "target_milestone"@
    ||| k == "cc"@
    ||| k == "cc_detail"@
    ||| k == "is_open"@
    ||| k == "is_creator_accessible"@
    ||| k == "docs_contact"@
    ||| k == "docs_contact_detail"@
    ||| k == "assigned_to"@
    ||| k == "assigned_to_detail"@
    ||| k == "resolution"@
    ||| k == "severity"@
    ||| k == "product"@
    ||| k == "platform"@
    ||| k == "last_change_time"@
    ||| k == "remaining_time"@
    ||| k == "priority"@
    ||| k == "whiteboard"@
    ||| k == "creation_time"@
    ||| k == "is_confirmed"@
    ||| k == "qa_contact"@
    ||| k == "qa_contact_detail"@
    ||| k == "dupe_of"@
    ||| k == "target_release"@
    ||| k == "actual_time"@
    ||| k == "component"@
    ||| k == "is_cc_accessible"@
    ||| k == "version"@
    ||| k == "keywords"@
    ||| k == "depends_on"@
    ||| k == "blocks"@
    ||| k == "see_also"@
    ||| k == "groups"@
    ||| k == "deadline"@
    ||| k == "update_token"@
    ||| k == "work_time"@
    ||| k == "flags"@
    ||| k == "tags"@
    ||| k == "dependent_products"@
}

/// The bug keys, as a predicate value for the passthrough filter.
pub open spec fn bug_known_pred() -> spec_fn(Seq<char>) -> bool {
    |k: Seq<char>| is_bug_known_key(k)
}

fn is_bug_known_key_exec(k: &str) -> (r: bool)
    ensures
        r == is_bug_known_key(k@),
{
    str_eq(k, "alias") || str_eq(k, "op_sys") || str_eq(k, "classification") || str_eq(k, "id")
        || str_eq(k, "url") || str_eq(k, "creator") || str_eq(k, "creator_detail") || str_eq(
        k,
        "summary",
    ) || str_eq(k, "status") || str_eq(k, "estimated_time") || str_eq(k, "target_milestone")
        || str_eq(k, "cc") || str_eq(k, "cc_detail") || str_eq(k, "is_open") || str_eq(
        k,
        "is_creator_accessible",
    ) || str_eq(k, "docs_contact") || str_eq(k, "docs_contact_detail") || str_eq(k, "assigned_to")
        || str_eq(k, "assigned_to_detail") || str_eq(k, "resolution") || str_eq(k, "severity")
        || str_eq(k, "product") || str_eq(k, "platform") || str_eq(k, "last_change_time")
        || str_eq(k, "remaining_time") || str_eq(k, "priority") || str_eq(k, "whiteboard")
        || str_eq(k, "creation_time") || str_eq(k, "is_confirmed") || str_eq(k, "qa_contact")
        || str_eq(k, "qa_contact_detail") || str_eq(k, "dupe_of") || str_eq(k, "target_release")
        || str_eq(k, "actual_time") || str_eq(k, "component") || str_eq(k, "is_cc_accessible")
        || str_eq(k, "version") || str_eq(k, "keywords") || str_eq(k, "depends_on") || str_eq(
        k,
        "blocks",
    ) || str_eq(k, "see_also") || str_eq(k, "groups") || str_eq(k, "deadline") || str_eq(
        k,
        "update_token",
    ) || str_eq(k, "work_time") || str_eq(k, "flags") || str_eq(k, "tags") || str_eq(
        k,
        "dependent_products",
    )
}

/// Whether a JSON object's pairs decode as a bug record.
pub open spec fn bug_obj_ok(o: Seq<(String, JsonValue)>) -> bool {
    &&& oom_ok(jlookup(o, "alias"@))
    &&& spec_req_string(o, "op_sys"@) is Some
    &&& spec_req_string(o, "classification"@) is Some
    &&& spec_req_i32(o, "id"@) is Some
    &&& spec_req_string(o, "url"@) is Some
    &&& spec_req_string(o, "creator"@) is Some
    &&& spec_req_user_ok(o, "creator_detail"@)
    &&& spec_req_string(o, "summary"@) is Some
    &&& spec_req_string(o, "status"@) is Some
    &&& spec_opt_i64(o, "estimated_time"@) is Some
    &&& spec_req_string(o, "target_milestone"@) is Some
    &&& spec_req_string_list(o, "cc"@) is Some
    &&& spec_user_list_ok(o, "cc_detail"@)
    &&& spec_req_bool(o, "is_open"@) is Some
    &&& spec_req_bool(o, "is_creator_accessible"@) is Some
    &&& spec_opt_string(o, "docs_contact"@) is Some
    &&& spec_opt_user_ok(o, "docs_contact_detail"@)
    &&& spec_req_string(o, "assigned_to"@) is Some
    &&& spec_req_user_ok(o, "assigned_to_detail"@)
    &&& spec_req_string(o, "resolution"@) is Some
    &&& spec_req_string(o, "severity"@) is Some
    &&& spec_req_string(o, "product"@) is Some
    &&& spec_req_string(o, "platform"@) is Some
    &&& spec_req_datetime(o, "last_change_time"@) is Some
    &&& spec_opt_i64(o, "remaining_time"@) is Some
    &&& spec_req_string(o, "priority"@) is Some
    &&& spec_req_string(o, "whiteboard"@) is Some
    &&& spec_req_datetime(o, "creation_time"@) is Some
    &&& spec_req_bool(o, "is_confirmed"@) is Some
    &&& spec_req_string(o, "qa_contact"@) is Some
    &&& spec_opt_user_ok(o, "qa_contact_detail"@)
    &&& spec_opt_i32(o, "dupe_of"@) is Some
    &&& opt_oom_ok(jlookup(o, "target_release"@))
    &&& spec_opt_i64(o, "actual_time"@) is Some
    &&& oom_ok(jlookup(o, "component"@))
    &&& spec_req_bool(o, "is_cc_accessible"@) is Some
    &&& oom_ok(jlookup(o, "version"@))
    &&& spec_req_string_list(o, "keywords"@) is Some
    &&& spec_req_i32_list(o, "depends_on"@) is Some
    &&& spec_req_i32_list(o, "blocks"@) is Some
    &&& spec_opt_string_list(o, "see_also"@) is Some
    &&& spec_req_string_list(o, "groups"@) is Some
    &&& spec_opt_date(o, "deadline"@) is Some
    &&& spec_opt_string(o, "update_token"@) is Some
    &&& spec_opt_i64(o, "work_time"@) is Some
    &&& spec_opt_flag_list_ok(o, "flags"@)
    &&& spec_opt_string_list(o, "tags"@) is Some
    &&& spec_opt_string_list(o, "dependent_products"@) is Some
}

/// How a decoded bug record corresponds, field by field, to the JSON
/// object's pairs it came from, including the passthrough of unconsumed
/// fields.
pub open spec fn bug_obj_matches(b: Bug, o: Seq<(String, JsonValue)>) -> bool {
    &&& oom_matches(b.alias, jlookup(o, "alias"@))
    &&& spec_req_string(o, "op_sys"@) == Some(b.op_sys@)
    &&& spec_req_string(o, "classification"@) == Some(b.classification@)
    &&& spec_req_i32(o, "id"@) == Some(b.id)
    &&& spec_req_string(o, "url"@) == Some(b.url@)
    &&& spec_req_string(o, "creator"@) == Some(b.creator@)
    &&& spec_req_user_matches(b.creator_detail, o, "creator_detail"@)
    &&& spec_req_string(o, "summary"@) == Some(b.summary@)
    &&& spec_req_string(o, "status"@) == Some(b.status@)
    &&& spec_opt_i64(o, "estimated_time"@) == Some(b.estimated_time)
    &&& spec_req_string(o, "target_milestone"@) == Some(b.target_milestone@)
    &&& spec_req_string_list(o, "cc"@) == Some(b.cc.deep_view())
    &&& spec_user_list_matches(b.cc_detail@, o, "cc_detail"@)
    &&& spec_req_bool(o, "is_open"@) == Some(b.is_open)
    &&& spec_req_bool(o, "is_creator_accessible"@) == Some(b.is_creator_accessible)
    &&& spec_opt_string(o, "docs_contact"@) == Some(opt_string_view(b.docs_contact))
    &&& spec_opt_user_matches(b.docs_contact_detail, o, "docs_contact_detail"@)
    &&& spec_req_string(o, "assigned_to"@) == Some(b.assigned_to@)
    &&& spec_req_user_matches(b.assigned_to_detail, o, "assigned_to_detail"@)
    &&& spec_req_string(o, "resolution"@) == Some(b.resolution@)
    &&& spec_req_string(o, "severity"@) == Some(b.severity@)
    &&& spec_req_string(o, "product"@) == Some(b.product@)
    &&& spec_req_string(o, "platform"@) == Some(b.platform@)
    &&& spec_req_datetime(o, "last_change_time"@) == Some(b.last_change_time)
    &&& spec_opt_i64(o, "remaining_time"@) == Some(b.remaining_time)
    &&& spec_req_string(o, "priority"@) == Some(b.priority@)
    &&& spec_req_string(o, "whiteboard"@) == Some(b.whiteboard@)
    &&& spec_req_datetime(o, "creation_time"@) == Some(b.creation_time)
    &&& spec_req_bool(o, "is_confirmed"@) == Some(b.is_confirmed)
    &&& spec_req_string(o, "qa_contact"@) == Some(b.qa_contact@)
    &&& spec_opt_user_matches(b.qa_contact_detail, o, "qa_contact_detail"@)
    &&& spec_opt_i32(o, "dupe_of"@) == Some(b.dupe_of)
    &&& opt_oom_matches(b.target_release, jlookup(o, "target_release"@))
    &&& spec_opt_i64(o, "actual_time"@) == Some(b.actual_time)
    &&& oom_matches(b.component, jlookup(o, "component"@))
    &&& spec_req_bool(o, "is_cc_accessible"@) == Some(b.is_cc_accessible)
    &&& oom_matches(b.version, jlookup(o, "version"@))
    &&& spec_req_string_list(o, "keywords"@) == Some(b.keywords.deep_view())
    &&& spec_req_i32_list(o, "depends_on"@) == Some(b.depends_on@)
    &&& spec_req_i32_list(o, "blocks"@) == Some(b.blocks@)
    &&& spec_opt_string_list(o, "see_also"@) == Some(opt_strings_view(b.see_also))
    &&& spec_req_string_list(o, "groups"@) == Some(b.groups.deep_view())
    &&& spec_opt_date(o, "deadline"@) == Some(b.deadline)
    &&& spec_opt_string(o, "update_token"@) == Some(opt_string_view(b.update_token))
    &&& spec_opt_i64(o, "work_time"@) == Some(b.work_time)
    &&& spec_opt_flag_list_matches(b.flags, o, "flags"@)
    &&& spec_opt_string_list(o, "tags"@) == Some(opt_strings_view(b.tags))
    &&& spec_opt_string_list(o, "dependent_products"@) == Some(
        opt_strings_view(b.dependent_products),
    )
    &&& b.extra@ == extra_of(o, bug_known_pred())
}

/// The keys under which a bug object embeds other records are pairwise
/// distinct.
proof fn lemma_detail_keys_distinct()
    ensures
        "creator_detail"@ != "assigned_to_detail"@,
        "creator_detail"@ != "qa_contact_detail"@,
        "creator_detail"@ != "docs_contact_detail"@,
        "creator_detail"@ != "cc_detail"@,
        "creator_detail"@ != "flags"@,
        "assigned_to_detail"@ != "qa_contact_detail"@,
        "assigned_to_detail"@ != "docs_contact_detail"@,
        "assigned_to_detail"@ != "cc_detail"@,
        "assigned_to_detail"@ != "flags"@,
        "qa_contact_detail"@ != "docs_contact_detail"@,
        "qa_contact_detail"@ != "cc_detail"@,
        "qa_contact_detail"@ != "flags"@,
        "docs_contact_detail"@ != "cc_detail"@,
        "docs_contact_detail"@ != "flags"@,
        "cc_detail"@ != "flags"@,
{
    reveal_strlit("creator_detail");
    reveal_strlit("assigned_to_detail");
    reveal_strlit("qa_contact_detail");
    reveal_strlit("docs_contact_detail");
    reveal_strlit("cc_detail");
    reveal_strlit("flags");
    assert("creator_detail"@.len() == 14);
    assert("assigned_to_detail"@.len() == 18);
    assert("qa_contact_detail"@.len() == 17);
    assert("docs_contact_detail"@.len() == 19);
    assert("cc_detail"@.len() == 9);
    assert("flags"@.len() == 5);
}

/// Whether a JSON value decodes as a bug record.
pub open spec fn bug_ok(v: JsonValue) -> bool {
    v matches JsonValue::Obj(pairs) && bug_obj_ok(pairs@)
}

/// How a decoded bug record corresponds to the JSON value it came from.
pub open spec fn bug_matches(b: Bug, v: JsonValue) -> bool {
    v matches JsonValue::Obj(pairs) && bug_obj_matches(b, pairs@)
}

impl Bug {
    /// Decodes a bug record from a JSON object, keeping unconsumed
    /// fields in `extra`.
    #[verifier::rlimit(100)]
    #[verifier::loop_isolation(false)]
    pub fn from_json(v: JsonValue) -> (r: Result<Bug, BugzillaQueryError>)
        ensures
            match r {
                Ok(b) => {
                    &&& bug_ok(v)
                    &&& bug_matches(b, v)
                    &&& b.creation_time.wf()
                    &&& b.last_change_time.wf()
                    &&& (b.deadline matches Some(d) ==> d.wf())
                },
                Err(e) => !bug_ok(v) && e == BugzillaQueryError::Decode,
            },
    {
        let mut pairs = match v {
            JsonValue::Obj(pairs) => pairs,
            _ => {
                return Err(BugzillaQueryError::Decode);
            },
        };
        let ghost o = pairs@;
        let alias = match OneOrMany::from_json(obj_get(&pairs, "alias")) {
            Ok(x) => x,
            Err(e) => {
                return Err(e);
            },
        };
        let op_sys = match get_req_string(&pairs, "op_sys") {
            Ok(x) => x,
            Err(e) => {
                return Err(e);
            },
        };
        let classification = match get_req_string(&pairs, "classification") {
            Ok(x) => x,
            Err(e) => {
                return Err(e);
            },
        };
        let id = match get_req_i32(&pairs, "id") {
            Ok(x) => x,
            Err(e) => {
                return Err(e);
            },
        };
        let url = match get_req_string(&pairs, "url") {
            Ok(x) => x,
            Err(e) => {
                return Err(e);
            },
        };
        let creator = match get_req_string(&pairs, "creator") {
            Ok(x) => x,
            Err(e) => {
                return Err(e);
            },
        };
        let summary = match get_req_string(&pairs, "summary") {
            Ok(x) => x,
            Err(e) => {
                return Err(e);
            },
        };
        let status = match get_req_string(&pairs, "status") {
            Ok(x) => x,
            Err(e) => {
                return Err(e);
            },
        };
        let estimated_time = match get_opt_i64(&pairs, "estimated_time") {
            Ok(x) => x,
            Err(e) => {
                return Err(e);
            },
        };
        let target_milestone = match get_req_string(&pairs, "target_milestone") {
            Ok(x) => x,
            Err(e) => {
                return Err(e);
            },
        };
        let cc = match get_req_string_list(&pairs, "cc") {
            Ok(x) => x,
            Err(e) => {
                return Err(e);
            },
        };
        let is_open = match get_req_bool(&pairs, "is_open") {
            Ok(x) => x,
            Err(e) => {
                return Err(e);
            },
        };
        let is_creator_accessible = match get_req_bool(&pairs, "is_creator_accessible") {
            Ok(x) => x,
            Err(e) => {
                return Err(e);
            },
        };
        let docs_contact = match get_opt_string(&pairs, "docs_contact") {
            Ok(x) => x,
            Err(e) => {
                return Err(e);
            },
        };
        let assigned_to = match get_req_string(&pairs, "assigned_to") {
            Ok(x) => x,
            Err(e) => {
                return Err(e);
            },
        };
        let resolution = match get_req_string(&pairs, "resolution") {
            Ok(x) => x,
            Err(e) => {
                return Err(e);
            },
        };
        let severity = match get_req_string(&pairs, "severity") {
            Ok(x) => x,
            Err(e) => {
                return Err(e);
            },
        };
        let product = match get_req_string(&pairs, "product") {
            Ok(x) => x,
            Err(e) => {
                return Err(e);
            },
        };
        let platform = match get_req_string(&pairs, "platform") {
            Ok(x) => x,
            Err(e) => {
                return Err(e);
            },
        };
        let last_change_time = match get_req_datetime(&pairs, "last_change_time") {
            Ok(x) => x,
            Err(e) => {
                return Err(e);
            },
        };
        let remaining_time = match get_opt_i64(&pairs, "remaining_time") {
            Ok(x) => x,
            Err(e) => {
                return Err(e);
            },
        };
        let priority = match get_req_string(&pairs, "priority") {
            Ok(x) => x,
            Err(e) => {
                return Err(e);
            },
        };
        let whiteboard = match get_req_string(&pairs, "whiteboard") {
            Ok(x) => x,
            Err(e) => {
                return Err(e);
            },
        };
        let creation_time = match get_req_datetime(&pairs, "creation_time") {
            Ok(x) => x,
            Err(e) => {
                return Err(e);
            },
        };
        let is_confirmed = match get_req_bool(&pairs, "is_confirmed") {
            Ok(x) => x,
            Err(e) => {
                return Err(e);
            },
        };
        let qa_contact = match get_req_string(&pairs, "qa_contact") {
            Ok(x) => x,
            Err(e) => {
                return Err(e);
            },
        };
        let dupe_of = match get_opt_i32(&pairs, "dupe_of") {
            Ok(x) => x,
            Err(e) => {
                return Err(e);
            },
        };
        let target_release = match OneOrMany::from_json_opt(obj_get(&pairs, "target_release")) {
            Ok(x) => x,
            Err(e) => {
                return Err(e);
            },
        };
        let actual_time = match get_opt_i64(&pairs, "actual_time") {
            Ok(x) => x,
            Err(e) => {
                return Err(e);
            },
        };
        let component = match OneOrMany::from_json(obj_get(&pairs, "component")) {
            Ok(x) => x,
            Err(e) => {
                return Err(e);
            },
        };
        let is_cc_accessible = match get_req_bool(&pairs, "is_cc_accessible") {
            Ok(x) => x,
            Err(e) => {
                return Err(e);
            },
        };
        let version = match OneOrMany::from_json(obj_get(&pairs, "version")) {
            Ok(x) => x,
            Err(e) => {
                return Err(e);
            },
        };
        let keywords = match get_req_string_list(&pairs, "keywords") {
            Ok(x) => x,
            Err(e) => {
                return Err(e);
            },
        };
        let depends_on = match get_req_i32_list(&pairs, "depends_on") {
            Ok(x) => x,
            Err(e) => {
                return Err(e);
            },
        };
        let blocks = match get_req_i32_list(&pairs, "blocks") {
            Ok(x) => x,
            Err(e) => {
                return Err(e);
            },
        };
        let see_also = match get_opt_string_list(&pairs, "see_also") {
            Ok(x) => x,
            Err(e) => {
                return Err(e);
            },
        };
        let groups = match get_req_string_list(&pairs, "groups") {
            Ok(x) => x,
            Err(e) => {
                return Err(e);
            },
        };
        let deadline = match get_opt_date(&pairs, "deadline") {
            Ok(x) => x,
            Err(e) => {
                return Err(e);
            },
        };
        let update_token = match get_opt_string(&pairs, "update_token") {
            Ok(x) => x,
            Err(e) => {
                return Err(e);
            },
        };
        let work_time = match get_opt_i64(&pairs, "work_time") {
            Ok(x) => x,
            Err(e) => {
                return Err(e);
            },
        };
        let tags = match get_opt_string_list(&pairs, "tags") {
            Ok(x) => x,
            Err(e) => {
                return Err(e);
            },
        };
        let dependent_products = match get_opt_string_list(&pairs, "dependent_products") {
            Ok(x) => x,
            Err(e) => {
                return Err(e);
            },
        };
        // The embedded records are taken out of the object by value, and
        // everything that no typed field consumes is kept in order.
        let mut extra: Vec<(String, JsonValue)> = Vec::new();
        let mut creator_detail_v: Option<JsonValue> = None;
        let mut assigned_to_detail_v: Option<JsonValue> = None;
        let mut qa_contact_detail_v: Option<JsonValue> = None;
        let mut docs_contact_detail_v: Option<JsonValue> = None;
        let mut cc_detail_v: Option<JsonValue> = None;
        let mut flags_v: Option<JsonValue> = None;
        let ghost mut done: Seq<(String, JsonValue)> = Seq::empty();
        proof {
            assert(o =~= done + pairs@);
        }
        while pairs.len() > 0
            invariant
                o == done + pairs@,
                extra@ == extra_of(done, bug_known_pred()),
                creator_detail_v == jlookup(done, "creator_detail"@),
                assigned_to_detail_v == jlookup(done, "assigned_to_detail"@),
                qa_contact_detail_v == jlookup(done, "qa_contact_detail"@),
                docs_contact_detail_v == jlookup(done, "docs_contact_detail"@),
                cc_detail_v == jlookup(done, "cc_detail"@),
                flags_v == jlookup(done, "flags"@),
            decreases pairs.len(),
        {
            let ghost prev_pairs = pairs@;
            let p = pairs.remove(0);
            let ghost pg = p;
            proof {
                lemma_detail_keys_distinct();
                assert(done.push(pg) + pairs@ =~= done + prev_pairs);
                assert(done.push(pg).drop_last() =~= done);
                lemma_jlookup_push(done, pg, "creator_detail"@);
                lemma_jlookup_push(done, pg, "assigned_to_detail"@);
                lemma_jlookup_push(done, pg, "qa_contact_detail"@);
                lemma_jlookup_push(done, pg, "docs_contact_detail"@);
                lemma_jlookup_push(done, pg, "cc_detail"@);
                lemma_jlookup_push(done, pg, "flags"@);
            }
            let known = is_bug_known_key_exec(p.0.as_str());
            if str_eq(p.0.as_str(), "creator_detail") {
                if creator_detail_v.is_none() {
                    creator_detail_v = Some(p.1);
                }
            } else if str_eq(p.0.as_str(), "assigned_to_detail") {
                if assigned_to_detail_v.is_none() {
                    assigned_to_detail_v = Some(p.1);
                }
            } else if str_eq(p.0.as_str(), "qa_contact_detail") {
                if qa_contact_detail_v.is_none() {
                    qa_contact_detail_v = Some(p.1);
                }
            } else if str_eq(p.0.as_str(), "docs_contact_detail") {
                if docs_contact_detail_v.is_none() {
                    docs_contact_detail_v = Some(p.1);
                }
            } else if str_eq(p.0.as_str(), "cc_detail") {
                if cc_detail_v.is_none() {
                    cc_detail_v = Some(p.1);
                }
            } else if str_eq(p.0.as_str(), "flags") {
                if flags_v.is_none() {
                    flags_v = Some(p.1);
                }
            } else if !known {
                extra.push(p);
            }
            proof {
                done = done.push(pg);
            }
        }
        proof {
            assert(o =~= done);
        }
        let creator_detail = match creator_detail_v {
            Some(dv) => match User::from_json(dv) {
                Ok(u) => u,
                Err(e) => {
                    return Err(e);
                },
            },
            None => {
                return Err(BugzillaQueryError::Decode);
            },
        };
        let assigned_to_detail = match assigned_to_detail_v {
            Some(dv) => match User::from_json(dv) {
                Ok(u) => u,
                Err(e) => {
                    return Err(e);
                },
            },
            None => {
                return Err(BugzillaQueryError::Decode);
            },
        };
        let qa_contact_detail = match qa_contact_detail_v {
            None => None,
            Some(JsonValue::Null) => None,
            Some(dv) => match User::from_json(dv) {
                Ok(u) => Some(u),
                Err(e) => {
                    return Err(e);
                },
            },
        };
        let docs_contact_detail = match docs_contact_detail_v {
            None => None,
            Some(JsonValue::Null) => None,
            Some(dv) => match User::from_json(dv) {
                Ok(u) => Some(u),
                Err(e) => {
                    return Err(e);
                },
            },
        };
        let cc_detail = match cc_detail_v {
            Some(JsonValue::Arr(items)) => match User::all_from_items(items) {
                Ok(us) => us,
                Err(e) => {
                    return Err(e);
                },
            },
            _ => {
                return Err(BugzillaQueryError::Decode);
            },
        };
        let flags = match flags_v {
            None => None,
            Some(JsonValue::Null) => None,
            Some(JsonValue::Arr(items)) => match Flag::all_from_items(items) {
                Ok(fs) => Some(fs),
                Err(e) => {
                    return Err(e);
                },
            },
            _ => {
                return Err(BugzillaQueryError::Decode);
            },
        };
        Ok(
            Bug {
                alias,
                op_sys,
                classification,
                id,
                url,
                creator,
                creator_detail,
                summary,
                status,
                estimated_time,
                target_milestone,
                cc,
                cc_detail,
                is_open,
                is_creator_accessible,
                docs_contact,
                docs_contact_detail,
                assigned_to,
                assigned_to_detail,
                resolution,
                severity,
                product,
                platform,
                last_change_time,
                remaining_time,
                priority,
                whiteboard,
                creation_time,
                is_confirmed,
                qa_contact,
                qa_contact_detail,
                dupe_of,
                target_release,
                actual_time,
                component,
                is_cc_accessible,
                version,
                keywords,
                depends_on,
                blocks,
                see_also,
                groups,
                deadline,
                update_token,
                work_time,
                flags,
                tags,
                dependent_products,
                extra,
            },
        )
    }
}

/// Whether every element of an array decodes as a bug record.
pub open spec fn bugs_ok(items: Seq<JsonValue>) -> bool {
    forall|i: int| 0 <= i < items.len() ==> bug_ok(#[trigger] items[i])
}

/// How a decoded sequence of bug records corresponds, element by
/// element, to the array it came from.
pub open spec fn bugs_match(bs: Seq<Bug>, items: Seq<JsonValue>) -> bool {
    &&& bs.len() == items.len()
    &&& forall|i: int| 0 <= i < items.len() ==> bug_matches(#[trigger] bs[i], items[i])
}

impl Bug {
    /// Decodes every element of an array as a bug record.
    #[verifier::loop_isolation(false)]
    pub fn all_from_items(items: Vec<JsonValue>) -> (r: Result<Vec<Bug>, BugzillaQueryError>)
        ensures
            match r {
                Ok(bs) => bugs_ok(items@) && bugs_match(bs@, items@),
                Err(e) => !bugs_ok(items@) && e == BugzillaQueryError::Decode,
            },
    {
        let ghost o = items@;
        let mut rest = items;
        let mut out: Vec<Bug> = Vec::new();
        let ghost mut done: Seq<JsonValue> = Seq::empty();
        proof {
            assert(o =~= done + rest@);
        }
        while rest.len() > 0
            invariant
                o == done + rest@,
                bugs_ok(done),
                bugs_match(out@, done),
            decreases rest.len(),
        {
            let ghost prev_items = rest@;
            let v = rest.remove(0);
            match Bug::from_json(v) {
                Ok(b) => {
                    out.push(b);
                },
                Err(e) => {
                    proof {
                        assert(o[done.len() as int] == v);
                        assert(!bugs_ok(o));
                    }
                    return Err(e);
                },
            }
            proof {
                assert(done.push(v) + rest@ =~= done + prev_items);
                done = done.push(v);
            }
        }
        proof {
            assert(o =~= done);
        }
        Ok(out)
    }
}

/// The response from Bugzilla, which includes the list of requested bugs
/// and some additional metadata.
pub struct Response {
    pub offset: Option<u32>,
    pub limit: Option<String>,
    pub total_matches: Option<u32>,
    pub bugs: Vec<Bug>,
    pub extra: Vec<(String, JsonValue)>,
}

/// The keys that the typed fields of a response envelope consume.
pub open spec fn is_response_known_key(k: Seq<char>) -> bool {
    ||| k == "offset"@
    ||| k == "limit"@
    ||| k == "total_matches"@
    ||| k == "bugs"@
}

/// The response keys, as a predicate value for the passthrough filter.
pub open spec fn response_known_pred() -> spec_fn(Seq<char>) -> bool {
    |k: Seq<char>| is_response_known_key(k)
}

/// Whether a JSON value decodes as a response envelope.
pub open spec fn response_ok(v: JsonValue) -> bool {
    v matches JsonValue::Obj(pairs) && {
        let o = pairs@;
        &&& crate::decode::spec_opt_u32(o, "offset"@) is Some
        &&& spec_opt_string(o, "limit"@) is Some
        &&& crate::decode::spec_opt_u32(o, "total_matches"@) is Some
        &&& (jlookup(o, "bugs"@) matches Some(JsonValue::Arr(items)) && bugs_ok(items@))
    }
}

/// How a decoded response envelope corresponds to the JSON value it came
/// from.
pub open spec fn response_matches(resp: Response, v: JsonValue) -> bool {
    v matches JsonValue::Obj(pairs) && {
        let o = pairs@;
        &&& crate::decode::spec_opt_u32(o, "offset"@) == Some(resp.offset)
        &&& spec_opt_string(o, "limit"@) == Some(opt_string_view(resp.limit))
        &&& crate::decode::spec_opt_u32(o, "total_matches"@) == Some(resp.total_matches)
        &&& (jlookup(o, "bugs"@) matches Some(JsonValue::Arr(items)) && bugs_match(
            resp.bugs@,
            items@,
        ))
        &&& resp.extra@ == extra_of(o, response_known_pred())
    }
}

fn is_response_known_key_exec(k: &str) -> (r: bool)
    ensures
        r == is_response_known_key(k@),
{
    str_eq(k, "offset") || str_eq(k, "limit") || str_eq(k, "total_matches") || str_eq(k, "bugs")
}

impl Response {
    /// Decodes a response envelope from a JSON value, keeping unconsumed
    /// fields in `extra`.
    #[verifier::loop_isolation(false)]
    pub fn from_json(v: JsonValue) -> (r: Result<Response, BugzillaQueryError>)
        ensures
            match r {
                Ok(resp) => response_ok(v) && response_matches(resp, v),
                Err(e) => !response_ok(v) && e == BugzillaQueryError::Decode,
            },
    {
        let mut pairs = match v {
            JsonValue::Obj(pairs) => pairs,
            _ => {
                return Err(BugzillaQueryError::Decode);
            },
        };
        let ghost o = pairs@;
        let offset = match crate::decode::get_opt_u32(&pairs, "offset") {
            Ok(x) => x,
            Err(e) => {
                return Err(e);
            },
        };
        let limit = match get_opt_string(&pairs, "limit") {
            Ok(x) => x,
            Err(e) => {
                return Err(e);
            },
        };
        let total_matches = match crate::decode::get_opt_u32(&pairs, "total_matches") {
            Ok(x) => x,
            Err(e) => {
                return Err(e);
            },
        };
        let mut extra: Vec<(String, JsonValue)> = Vec::new();
        let mut bugs_v: Option<JsonValue> = None;
        let ghost mut done: Seq<(String, JsonValue)> = Seq::empty();
        proof {
            assert(o =~= done + pairs@);
        }
        while pairs.len() > 0
            invariant
                o == done + pairs@,
                extra@ == extra_of(done, response_known_pred()),
                bugs_v == jlookup(done, "bugs"@),
            decreases pairs.len(),
        {
            let ghost prev_pairs = pairs@;
            let p = pairs.remove(0);
            let ghost pg = p;
            proof {
                assert(done.push(pg) + pairs@ =~= done + prev_pairs);
                assert(done.push(pg).drop_last() =~= done);
                lemma_jlookup_push(done, pg, "bugs"@);
            }
            let known = is_response_known_key_exec(p.0.as_str());
            if str_eq(p.0.as_str(), "bugs") {
                if bugs_v.is_none() {
                    bugs_v = Some(p.1);
                }
            } else if !known {
                extra.push(p);
            }
            proof {
                done = done.push(pg);
            }
        }
        proof {
            assert(o =~= done);
        }
        let bugs = match bugs_v {
            Some(JsonValue::Arr(items)) => match Bug::all_from_items(items) {
                Ok(bs) => bs,
                Err(e) => {
                    return Err(e);
                },
            },
            _ => {
                return Err(BugzillaQueryError::Decode);
            },
        };
        Ok(Response { offset, limit, total_matches, bugs, extra })
    }
}

/// An error report from Bugzilla.
pub struct BugzillaError {
    pub error: bool,
    pub message: String,
    pub code: i32,
    pub extra: Vec<(String, JsonValue)>,
}

/// The keys that the typed fields of an error report consume.
pub open spec fn is_error_known_key(k: Seq<char>) -> bool {
    ||| k == "error"@
    ||| k == "message"@
    ||| k == "code"@
}

/// The error-report keys, as a predicate value for the passthrough
/// filter.
pub open spec fn error_known_pred() -> spec_fn(Seq<char>) -> bool {
    |k: Seq<char>| is_error_known_key(k)
}

/// Whether a JSON value decodes as an error report.
pub open spec fn error_report_ok(v: JsonValue) -> bool {
    v matches JsonValue::Obj(pairs) && {
        let o = pairs@;
        &&& spec_req_bool(o, "error"@) is Some
        &&& spec_req_string(o, "message"@) is Some
        &&& spec_req_i32(o, "code"@) is Some
    }
}

/// How a decoded error report corresponds to the JSON value it came
/// from.
pub open spec fn error_report_matches(be: BugzillaError, v: JsonValue) -> bool {
    v matches JsonValue::Obj(pairs) && {
        let o = pairs@;
        &&& spec_req_bool(o, "error"@) == Some(be.error)
        &&& spec_req_string(o, "message"@) == Some(be.message@)
        &&& spec_req_i32(o, "code"@) == Some(be.code)
        &&& be.extra@ == extra_of(o, error_known_pred())
    }
}

fn is_error_known_key_exec(k: &str) -> (r: bool)
    ensures
        r == is_error_known_key(k@),
{
    str_eq(k, "error") || str_eq(k, "message") || str_eq(k, "code")
}

impl BugzillaError {
    /// Decodes an error report from a JSON value, keeping unconsumed
    /// fields in `extra`.
    pub fn from_json(v: JsonValue) -> (r: Result<BugzillaError, BugzillaQueryError>)
        ensures
            match r {
                Ok(be) => error_report_ok(v) && error_report_matches(be, v),
                Err(e) => !error_report_ok(v) && e == BugzillaQueryError::Decode,
            },
    {
        let mut pairs = match v {
            JsonValue::Obj(pairs) => pairs,
            _ => {
                return Err(BugzillaQueryError::Decode);
            },
        };
        let error = match get_req_bool(&pairs, "error") {
            Ok(x) => x,
            Err(e) => {
                return Err(e);
            },
        };
        let message = match get_req_string(&pairs, "message") {
            Ok(x) => x,
            Err(e) => {
                return Err(e);
            },
        };
        let code = match get_req_i32(&pairs, "code") {
            Ok(x) => x,
            Err(e) => {
                return Err(e);
            },
        };
        let ghost o = pairs@;
        let mut extra: Vec<(String, JsonValue)> = Vec::new();
        let ghost mut done: Seq<(String, JsonValue)> = Seq::empty();
        proof {
            assert(o =~= done + pairs@);
        }
        while pairs.len() > 0
            invariant
                o == done + pairs@,
                extra@ == extra_of(done, error_known_pred()),
            decreases pairs.len(),
        {
            let ghost prev_pairs = pairs@;
            let p = pairs.remove(0);
            let known = is_error_known_key_exec(p.0.as_str());
            proof {
                assert(done.push(p) + pairs@ =~= done + prev_pairs);
                assert(done.push(p).drop_last() =~= done);
                done = done.push(p);
            }
            if !known {
                extra.push(p);
            }
        }
        proof {
            assert(o =~= done);
        }
        Ok(BugzillaError { error, message, code, extra })
    }
}

/// The polymorphic field round-trips: decoding an absent or `null` value
/// gives the absent variant, a string the single variant, and an array
/// of strings the list variant, and the normalizing accessor of each
/// variant yields exactly the sequence the shape held.
pub proof fn law_one_or_many_round_trip(m: OneOrMany, slot: Option<JsonValue>)
    requires
        oom_matches(m, slot),
    ensures
        (slot is None || slot matches Some(JsonValue::Null)) ==> (m is Absent && oom_norm(m)
            == Seq::<Seq<char>>::empty()),
        slot matches Some(JsonValue::Str(s)) ==> (m matches OneOrMany::One(t) && oom_norm(m)
            == seq![s@]),
        slot matches Some(JsonValue::Arr(items)) ==> (m matches OneOrMany::Many(vs) && Some(
            oom_norm(m),
        ) == spec_all_strings(items@)),
{
}

/// Unknown fields on a bug object are preserved losslessly: a key that
/// no typed field consumes can be looked up in the decoded bug's extra
/// pairs, and it yields exactly the value the object held under it.
pub proof fn law_extra_passthrough(b: Bug, v: JsonValue, key: Seq<char>)
    requires
        bug_matches(b, v),
        !is_bug_known_key(key),
    ensures
        v matches JsonValue::Obj(pairs) && jlookup(b.extra@, key) == jlookup(pairs@, key),
{
    if let JsonValue::Obj(pairs) = v {
        crate::decode::lemma_extra_preserves_lookup(pairs@, bug_known_pred(), key);
    }
}

} // verus!
