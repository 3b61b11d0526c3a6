//! Configuration of a Bugzilla instance and construction of query URLs.

use vstd::prelude::*;
use vstd::string::StringExecFns;

use crate::bug_model::{bugs_match, response_ok, Bug, Response};
use crate::errors::BugzillaQueryError;
use crate::json::{jlookup, json_parsed, parse_json, JsonValue};
use crate::textfmt::{comma_join, dec_str, join_str_slices, join_strings, u32_dec_str};

verus! {

/// The authentication method that the crate uses when contacting Bugzilla.
pub enum Auth {
    Anonymous,
    ApiKey(String),
    Basic { user: String, password: String },
}

impl Default for Auth {
    fn default() -> (r: Self)
        ensures
            r is Anonymous,
    {
        Self::Anonymous
    }
}

/// The value of the `Authorization` header that the authentication method
/// asks for, or `None` where no such header is sent. Basic authentication
/// is answered by the transport's own challenge response, not by a header
/// value composed here.
pub open spec fn spec_header_value(a: Auth) -> Option<Seq<char>> {
    match a {
        Auth::ApiKey(key) => Some("Bearer "@ + key@),
        _ => None,
    }
}

impl Auth {
    /// The `Authorization` header value to send, if any: a bearer token
    /// for API-key authentication, nothing otherwise.
    pub fn header_value(&self) -> (r: Option<String>)
        ensures
            match r {
                Some(h) => spec_header_value(*self) == Some(h@),
                None => spec_header_value(*self) is None,
            },
    {
        match self {
            Auth::ApiKey(key) => {
                proof {
                    reveal_strlit("Bearer ");
                }
                let mut h = String::from_str("Bearer ");
                h.append(key.as_str());
                Some(h)
            },
            _ => None,
        }
    }
}

/// Controls the upper limit of how many bugs the response from Bugzilla can contain:
///
/// * `Default`: Use the default settings of this instance, which sets an arbitrary limit on the number of bugs.
/// * `Limit`: Use this upper limit instead.
/// * `Unlimited`: Set the limit to 0, which disables the upper limit and returns all matching bugs.
pub enum Pagination {
    Default,
    Limit(u32),
    Unlimited,
}

impl Default for Pagination {
    fn default() -> (r: Self)
        ensures
            r is Default,
    {
        Self::Default
    }
}

/// The query fragment that a pagination directive contributes to the URL:
/// nothing for the server default, `&limit=<n>` for an explicit limit,
/// and `&limit=0` to disable the limit.
pub open spec fn spec_pagination_fragment(p: Pagination) -> Seq<char> {
    match p {
        Pagination::Default => Seq::empty(),
        Pagination::Limit(n) => "&limit="@ + dec_str(n as nat),
        Pagination::Unlimited => "&limit=0"@,
    }
}

impl Pagination {
    /// Format the `Pagination` variant as a URL query fragment, such as `&limit=20`.
    pub fn url_fragment(&self) -> (r: String)
        ensures
            r@ == spec_pagination_fragment(*self),
    {
        match self {
            Pagination::Default => String::new(),
            Pagination::Limit(n) => {
                proof {
                    reveal_strlit("&limit=");
                }
                let mut s = String::from_str("&limit=");
                s.append(u32_dec_str(*n).as_str());
                s
            },
            Pagination::Unlimited => String::from_str("&limit=0"),
        }
    }
}

/// The method of the request to Bugzilla. Either request specific IDs,
/// or use a free-form Bugzilla search query as-is.
pub enum Method<'a> {
    Ids(&'a [&'a str]),
    Search(&'a str),
}

/// The query fragment that the request method contributes to the URL:
/// the IDs joined with commas under an `id=` parameter, or the free-form
/// search query passed through unmodified.
pub open spec fn spec_method_fragment(m: Method) -> Seq<char> {
    match m {
        Method::Ids(ids) => "id="@ + comma_join(ids@.map_values(|p: &str| p@)),
        Method::Search(query) => query@,
    }
}

impl<'a> Method<'a> {
    /// Format the request method as the leading URL query fragment.
    pub fn url_fragment(&self) -> (r: String)
        ensures
            r@ == spec_method_fragment(*self),
    {
        match self {
            Self::Ids(ids) => {
                proof {
                    reveal_strlit("id=");
                }
                let mut s = String::from_str("id=");
                s.append(join_str_slices(ids).as_str());
                s
            },
            Self::Search(query) => String::from_str(query),
        }
    }
}

/// Configuration used to access a Bugzilla instance: the host URL, the
/// authentication method, the pagination directive, and the fields that
/// the server is asked to include in its response.
pub struct BzInstance {
    pub host: String,
    pub auth: Auth,
    pub pagination: Pagination,
    pub included_fields: Vec<String>,
}

/// The query fragment that the field selection contributes to the URL:
/// nothing when the selection is empty, `&include_fields=<comma-joined>`
/// otherwise.
pub open spec fn spec_fields_fragment(fields: Seq<Seq<char>>) -> Seq<char> {
    if fields.len() == 0 {
        Seq::empty()
    } else {
        "&include_fields="@ + comma_join(fields)
    }
}

/// The complete URL for a bug request against an instance, given the
/// fragment of the request method.
pub open spec fn spec_bug_path(inst: BzInstance, method_fragment: Seq<char>) -> Seq<char> {
    inst.host@ + "/rest/bug?"@ + method_fragment + spec_fields_fragment(inst.included_fields.deep_view())
        + spec_pagination_fragment(inst.pagination)
}

impl BzInstance {
    /// Create a new `BzInstance` struct using a host URL, with default values
    /// for all options: anonymous access, default pagination, and the
    /// `_default` field selection.
    pub fn at(host: String) -> (r: Result<Self, crate::errors::BugzillaQueryError>)
        ensures
            match r {
                Ok(inst) => {
                    &&& inst.host == host
                    &&& inst.auth is Anonymous
                    &&& inst.pagination is Default
                    &&& inst.included_fields.deep_view() =~= seq!["_default"@]
                },
                Err(_) => false,
            },
    {
        let mut included_fields: Vec<String> = Vec::new();
        included_fields.push(String::from_str("_default"));
        Ok(BzInstance { host, auth: Auth::default(), pagination: Pagination::default(), included_fields })
    }

    /// Set the authentication method of this `BzInstance`.
    #[must_use]
    pub fn authenticate(self, auth: Auth) -> (r: Self)
        ensures
            r.auth == auth,
            r.host == self.host,
            r.pagination == self.pagination,
            r.included_fields == self.included_fields,
    {
        BzInstance { auth, ..self }
    }

    /// Set the pagination method of this `BzInstance`.
    #[must_use]
    pub fn paginate(self, pagination: Pagination) -> (r: Self)
        ensures
            r.pagination == pagination,
            r.host == self.host,
            r.auth == self.auth,
            r.included_fields == self.included_fields,
    {
        BzInstance { pagination, ..self }
    }

    /// Set Bugzilla fields that this `BzInstance` will request, such as `flags`.
    ///
    /// By default, `BzInstance` requests the `_default` fields, and using this method
    /// overwrites the default value. If you want to set fields in addition
    /// to `_default`, specify `_default` in your list.
    #[must_use]
    pub fn include_fields(self, fields: Vec<String>) -> (r: Self)
        ensures
            r.included_fields == fields,
            r.host == self.host,
            r.auth == self.auth,
            r.pagination == self.pagination,
    {
        BzInstance { included_fields: fields, ..self }
    }

    /// Format the included Bugzilla fields as a URL query fragment, such as `&include_fields=_default,flags`.
    fn fields_as_query(&self) -> (r: String)
        ensures
            r@ == spec_fields_fragment(self.included_fields.deep_view()),
    {
        if self.included_fields.is_empty() {
            String::new()
        } else {
            proof {
                reveal_strlit("&include_fields=");
            }
            let mut s = String::from_str("&include_fields=");
            s.append(join_strings(&self.included_fields).as_str());
            s
        }
    }

    /// Based on the request method, form a complete, absolute URL
    /// to download the tickets from the REST API.
    fn path(&self, method: &Method) -> (r: String)
        ensures
            r@ == spec_bug_path(*self, spec_method_fragment(*method)),
    {
        proof {
            reveal_strlit("/rest/bug?");
        }
        let mut s = self.host.clone();
        s.append("/rest/bug?");
        s.append(method.url_fragment().as_str());
        s.append(self.fields_as_query().as_str());
        s.append(self.pagination.url_fragment().as_str());
        s
    }

    /// The URL to fetch the given bug IDs from this instance, or `None`
    /// when the ID list is empty: an empty request is answered with an
    /// empty result directly, and no network request is made for it.
    pub fn bugs_request(&self, ids: &[&str]) -> (r: Option<String>)
        ensures
            (r is None) <==> ids@.len() == 0,
            match r {
                Some(url) => url@ == spec_bug_path(
                    *self,
                    "id="@ + comma_join(ids@.map_values(|p: &str| p@)),
                ),
                None => true,
            },
    {
        if ids.len() == 0 {
            None
        } else {
            Some(self.path(&Method::Ids(ids)))
        }
    }

    /// The URL that fetches the bugs matching a free-form Bugzilla search
    /// query, such as `component=rust&product=Fedora&version=36`, from
    /// this instance.
    pub fn search_request(&self, query: &str) -> (r: String)
        ensures
            r@ == spec_bug_path(*self, query@),
    {
        self.path(&Method::Search(query))
    }
}

/// The array of bug objects inside a decoded response body, where the
/// body has the envelope's shape.
pub open spec fn spec_response_items(v: JsonValue) -> Option<Seq<JsonValue>> {
    match v {
        JsonValue::Obj(pairs) => match jlookup(pairs@, "bugs"@) {
            Some(JsonValue::Arr(items)) => Some(items@),
            _ => None,
        },
        _ => None,
    }
}

/// Decodes a response body into the full response envelope, with its
/// bug list and pagination metadata.
pub fn response_from_body(body: &str) -> (r: Result<Response, BugzillaQueryError>)
    ensures
        match json_parsed(body@) {
            None => r == Err::<Response, BugzillaQueryError>(BugzillaQueryError::Decode),
            Some(v) => match r {
                Ok(resp) => response_ok(v) && crate::bug_model::response_matches(resp, v),
                Err(e) => !response_ok(v) && e == BugzillaQueryError::Decode,
            },
        },
{
    match parse_json(body) {
        None => Err(BugzillaQueryError::Decode),
        Some(v) => Response::from_json(v),
    }
}

/// Decodes a response body and applies the zero-result policy: a valid
/// response with a non-empty bug list yields the bugs in server order; a
/// valid response with an empty list is the no-bugs condition; anything
/// else is a decode failure.
///
/// This runs only for a request that was actually sent, so an empty list
/// here is a reportable condition, not a silent success: a targeted
/// non-empty request yielding zero matches usually indicates an invalid
/// ID or an overly narrow search.
pub fn bugs_from_body(body: &str) -> (r: Result<Vec<Bug>, BugzillaQueryError>)
    ensures
        match json_parsed(body@) {
            None => r == Err::<Vec<Bug>, BugzillaQueryError>(BugzillaQueryError::Decode),
            Some(v) => if !response_ok(v) {
                r == Err::<Vec<Bug>, BugzillaQueryError>(BugzillaQueryError::Decode)
            } else {
                match spec_response_items(v) {
                    Some(items) => if items.len() == 0 {
                        r == Err::<Vec<Bug>, BugzillaQueryError>(BugzillaQueryError::NoBugs)
                    } else {
                        r matches Ok(bugs) && bugs_match(bugs@, items)
                    },
                    None => false,
                }
            },
        },
{
    match parse_json(body) {
        None => Err(BugzillaQueryError::Decode),
        Some(v) => match Response::from_json(v) {
            Err(e) => Err(e),
            Ok(resp) => {
                if resp.bugs.len() == 0 {
                    Err(BugzillaQueryError::NoBugs)
                } else {
                    Ok(resp.bugs)
                }
            },
        },
    }
}

/// Decodes a response body to a single bug: the first of the returned
/// list, under the same zero-result policy as a list request.
pub fn bug_from_body(body: &str) -> (r: Result<Bug, BugzillaQueryError>)
    ensures
        match json_parsed(body@) {
            None => r == Err::<Bug, BugzillaQueryError>(BugzillaQueryError::Decode),
            Some(v) => if !response_ok(v) {
                r == Err::<Bug, BugzillaQueryError>(BugzillaQueryError::Decode)
            } else {
                match spec_response_items(v) {
                    Some(items) => if items.len() == 0 {
                        r == Err::<Bug, BugzillaQueryError>(BugzillaQueryError::NoBugs)
                    } else {
                        r matches Ok(b) && crate::bug_model::bug_matches(b, items[0])
                    },
                    None => false,
                }
            },
        },
{
    match bugs_from_body(body) {
        Err(e) => Err(e),
        Ok(mut bugs) => Ok(bugs.remove(0)),
    }
}

} // verus!
