//! The request builder in isolation: URL fragments and full query URLs,
//! with no network dependency.

use bugzilla_query::{Auth, BzInstance, Method, Pagination};

/// `Unlimited` pagination produces the fragment that disables the cap.
#[test]
fn pagination_unlimited_fragment() {
    assert_eq!(Pagination::Unlimited.url_fragment(), "&limit=0");
}

/// An explicit limit renders as a decimal number.
#[test]
fn pagination_limit_fragment() {
    assert_eq!(Pagination::Limit(20).url_fragment(), "&limit=20");
    assert_eq!(Pagination::Limit(0).url_fragment(), "&limit=0");
    assert_eq!(Pagination::Limit(4294967295).url_fragment(), "&limit=4294967295");
}

/// Default pagination adds no fragment at all.
#[test]
fn pagination_default_fragment() {
    assert_eq!(Pagination::Default.url_fragment(), "");
}

/// IDs are joined with commas under the `id=` parameter.
#[test]
fn method_ids_fragment() {
    assert_eq!(Method::Ids(&["1"]).url_fragment(), "id=1");
    assert_eq!(Method::Ids(&["1", "2", "3"]).url_fragment(), "id=1,2,3");
}

/// A free-form search query passes through unmodified.
#[test]
fn method_search_fragment() {
    let query = "component=rust&product=Fedora&version=36";
    assert_eq!(Method::Search(query).url_fragment(), query);
}

/// An empty identifier list asks for no request at all.
#[test]
fn bugs_request_empty_ids_makes_no_request() {
    let instance = BzInstance::at("https://example.org".to_string()).unwrap();
    assert!(instance.bugs_request(&[]).is_none());
}

/// A single-ID fetch against a fresh client builds the full URL with the
/// default field selection.
#[test]
fn bugs_request_url() {
    let instance = BzInstance::at("https://example.org".to_string()).unwrap();
    let url = instance.bugs_request(&["42"]).unwrap();
    assert_eq!(url, "https://example.org/rest/bug?id=42&include_fields=_default");
}

/// A search request keeps the query as-is and appends the configured
/// pagination.
#[test]
fn search_request_url() {
    let instance = BzInstance::at("https://bugzilla.redhat.com".to_string())
        .unwrap()
        .paginate(Pagination::Unlimited);
    let url = instance.search_request("component=rust&product=Fedora&version=36");
    assert_eq!(
        url,
        "https://bugzilla.redhat.com/rest/bug?component=rust&product=Fedora&version=36&include_fields=_default&limit=0"
    );
}

/// Setting the field selection overwrites the default.
#[test]
fn include_fields_overwrites_default() {
    let instance = BzInstance::at("https://example.org".to_string())
        .unwrap()
        .include_fields(vec!["_default".to_string(), "flags".to_string()]);
    let url = instance.bugs_request(&["7"]).unwrap();
    assert_eq!(url, "https://example.org/rest/bug?id=7&include_fields=_default,flags");
}

/// An empty field selection omits the fragment entirely.
#[test]
fn empty_field_selection_is_omitted() {
    let instance = BzInstance::at("https://example.org".to_string())
        .unwrap()
        .include_fields(Vec::new());
    let url = instance.bugs_request(&["7"]).unwrap();
    assert_eq!(url, "https://example.org/rest/bug?id=7");
}

/// Reconfiguring the authentication keeps the rest of the client as it
/// was.
#[test]
fn authenticate_reconfigures_client() {
    let instance = BzInstance::at("https://example.org".to_string())
        .unwrap()
        .authenticate(Auth::ApiKey("abc123".to_string()));
    assert_eq!(instance.auth.header_value(), Some("Bearer abc123".to_string()));
    assert_eq!(instance.host, "https://example.org");
    assert_eq!(
        instance.bugs_request(&["42"]).unwrap(),
        "https://example.org/rest/bug?id=42&include_fields=_default"
    );
}

/// API-key authentication sends a bearer token; anonymous access sends
/// no header.
#[test]
fn auth_header_values() {
    let key = Auth::ApiKey("abc123".to_string());
    assert_eq!(key.header_value(), Some("Bearer abc123".to_string()));
    assert!(Auth::Anonymous.header_value().is_none());
    let basic = Auth::Basic { user: "user".to_string(), password: "pw".to_string() };
    assert!(basic.header_value().is_none());
}
