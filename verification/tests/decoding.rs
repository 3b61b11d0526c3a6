//! Decoding response bodies into typed records, against stubbed
//! transport output: no network is involved.

use bugzilla_query::{
    bug_from_body, bugs_from_body, response_from_body, BugzillaError, BugzillaQueryError,
    JsonValue, OneOrMany,
};

/// A response body holding one bug with every required field, the given
/// ID and status, and any further fields spliced in verbatim.
fn bug_body(id: i32, status: &str, extra_fields: &str) -> String {
    let user = r#"{"email": "msuchane", "id": 301439, "name": "msuchane", "real_name": "Marek Suchanek"}"#;
    format!(
        r#"{{"bugs": [{{"op_sys": "Linux", "classification": "Fedora", "id": {id}, "url": "", "creator": "msuchane", "creator_detail": {user}, "summary": "Test the CoRN release notes generator (populated)", "status": "{status}", "target_milestone": "---", "cc": ["one@example.org", "two@example.org"], "cc_detail": [], "is_open": false, "is_creator_accessible": true, "is_cc_accessible": true, "assigned_to": "Marek Suchánek", "assigned_to_detail": {user}, "resolution": "CURRENTRELEASE", "severity": "unspecified", "product": "Fedora", "platform": "All", "last_change_time": "2021-03-02T10:07:01Z", "priority": "medium", "whiteboard": "", "creation_time": "2020-12-11T13:09:56Z", "is_confirmed": true, "qa_contact": "", "keywords": ["Triaged"], "depends_on": [], "blocks": [1906887], "groups": []{extra_fields}}}]}}"#,
        id = id,
        status = status,
        user = user,
        extra_fields = extra_fields,
    )
}

/// The polymorphic field decodes each JSON shape to the matching
/// variant, and each variant normalizes to the right sequence.
#[test]
fn one_or_many_round_trips() {
    let absent = OneOrMany::from_json(None).unwrap();
    assert!(matches!(absent, OneOrMany::Absent));
    assert_eq!(absent.into_vec(), Vec::<String>::new());

    let null = OneOrMany::from_json(Some(&JsonValue::Null)).unwrap();
    assert!(matches!(null, OneOrMany::Absent));
    assert_eq!(null.into_vec(), Vec::<String>::new());

    let single = OneOrMany::from_json(Some(&JsonValue::Str("x".to_string()))).unwrap();
    assert!(matches!(single, OneOrMany::One(_)));
    assert_eq!(single.into_vec(), vec!["x".to_string()]);

    let list = JsonValue::Arr(vec![
        JsonValue::Str("x".to_string()),
        JsonValue::Str("y".to_string()),
    ]);
    let many = OneOrMany::from_json(Some(&list)).unwrap();
    assert!(matches!(many, OneOrMany::Many(_)));
    assert_eq!(many.into_vec(), vec!["x".to_string(), "y".to_string()]);

    let empty_list = OneOrMany::from_json(Some(&JsonValue::Arr(Vec::new()))).unwrap();
    assert!(matches!(empty_list, OneOrMany::Many(_)));
    assert_eq!(empty_list.into_vec(), Vec::<String>::new());
}

/// A shape that no variant accepts is a decode failure.
#[test]
fn one_or_many_rejects_other_shapes() {
    let r = OneOrMany::from_json(Some(&JsonValue::Int(1)));
    assert!(matches!(r, Err(BugzillaQueryError::Decode)));
}

/// Fetching ID 42 from a stub returning one closed bug yields that bug.
#[test]
fn single_bug_scenario() {
    let body = bug_body(42, "CLOSED", "");
    let bug = bug_from_body(&body).unwrap();
    assert_eq!(bug.id, 42);
    assert_eq!(bug.status, "CLOSED");
    assert_eq!(bug.resolution, "CURRENTRELEASE");
    assert_eq!(bug.is_open, false);
    assert_eq!(bug.priority, "medium");
    assert_eq!(bug.summary, "Test the CoRN release notes generator (populated)");
    assert_eq!(bug.assigned_to, "Marek Suchánek");
    assert_eq!(bug.assigned_to_detail.email, "msuchane");
    assert!(bug.docs_contact.is_none());
}

/// A stub returning an empty bug list for a request that was made is the
/// no-bugs condition, not a silent empty success.
#[test]
fn empty_bug_list_is_no_bugs_error() {
    let body = r#"{"bugs": []}"#;
    assert!(matches!(bugs_from_body(body), Err(BugzillaQueryError::NoBugs)));
    assert!(matches!(bug_from_body(body), Err(BugzillaQueryError::NoBugs)));
}

/// A non-empty response keeps every bug, in server order.
#[test]
fn several_bugs_keep_server_order() {
    let one = bug_body(1906883, "CLOSED", "");
    let two = bug_body(1906887, "NEW", "");
    let one_obj = one.strip_prefix(r#"{"bugs": ["#).unwrap().strip_suffix("]}").unwrap();
    let two_obj = two.strip_prefix(r#"{"bugs": ["#).unwrap().strip_suffix("]}").unwrap();
    let body = format!(r#"{{"bugs": [{}, {}]}}"#, one_obj, two_obj);
    let bugs = bugs_from_body(&body).unwrap();
    assert_eq!(bugs.len(), 2);
    assert_eq!(bugs[0].id, 1906883);
    assert_eq!(bugs[1].id, 1906887);
}

/// A body that is not JSON at all is a decode failure.
#[test]
fn malformed_body_is_decode_error() {
    assert!(matches!(bugs_from_body("not json"), Err(BugzillaQueryError::Decode)));
}

/// A bug object missing a required field is a decode failure, never a
/// silently defaulted value.
#[test]
fn missing_required_field_is_decode_error() {
    let body = bug_body(1, "NEW", "").replace(r#""product": "Fedora", "#, "");
    assert!(matches!(bugs_from_body(&body), Err(BugzillaQueryError::Decode)));
}

/// A required field of the wrong JSON type is a decode failure.
#[test]
fn wrong_field_type_is_decode_error() {
    let body = bug_body(1, "NEW", "").replace(r#""is_open": false"#, r#""is_open": "false""#);
    assert!(matches!(bugs_from_body(&body), Err(BugzillaQueryError::Decode)));
}

/// Custom fields are preserved losslessly and retrievable by key,
/// byte for byte, including a multiline value with `\r\n` line endings.
#[test]
fn custom_fields_pass_through() {
    let release_note = ".A test\r\n\
        \r\n\
        This is a testing release note.\r\n\
        \r\n\
        It is written in the proper format.\r\n\
        \r\n\
        The following is a list:\r\n\
        \r\n\
        * One\r\n\
        * Two\r\n\
        * Three";
    let escaped = release_note.replace("\r\n", "\\r\\n");
    let extra = format!(r#", "cf_release_notes": "{}", "cf_fixed_in_build": 17"#, escaped);
    let body = bug_body(1906887, "CLOSED", &extra);
    let bug = bug_from_body(&body).unwrap();
    let doc_text = bug.extra_get("cf_release_notes").and_then(JsonValue::as_str);
    assert_eq!(doc_text, Some(release_note));
    let build = bug.extra_get("cf_fixed_in_build").and_then(JsonValue::as_int);
    assert_eq!(build, Some(17));
}

/// A key that a typed field consumes does not appear among the extra
/// fields.
#[test]
fn typed_fields_are_not_duplicated_in_extra() {
    let body = bug_body(5, "NEW", "");
    let bug = bug_from_body(&body).unwrap();
    assert!(bug.extra_get("status").is_none());
    assert!(bug.extra_get("cf_release_notes").is_none());
}

/// Timestamps decode to their UTC calendar and clock fields, and the
/// deadline to a plain date.
#[test]
fn timestamps_decode() {
    let body = bug_body(7, "NEW", r#", "deadline": "2021-01-02""#);
    let bug = bug_from_body(&body).unwrap();
    assert_eq!(bug.creation_time.year, 2020);
    assert_eq!(bug.creation_time.month, 12);
    assert_eq!(bug.creation_time.day, 11);
    assert_eq!(bug.creation_time.hour, 13);
    assert_eq!(bug.creation_time.minute, 9);
    assert_eq!(bug.creation_time.second, 56);
    assert_eq!(bug.last_change_time.year, 2021);
    let deadline = bug.deadline.unwrap();
    assert_eq!((deadline.year, deadline.month, deadline.day), (2021, 1, 2));
}

/// An offset given in the timestamp is normalized to UTC.
#[test]
fn timestamps_normalize_to_utc() {
    let body = bug_body(7, "NEW", "")
        .replace("2020-12-11T13:09:56Z", "2020-12-11T13:09:56+02:00");
    let bug = bug_from_body(&body).unwrap();
    assert_eq!(bug.creation_time.hour, 11);
    assert_eq!(bug.creation_time.day, 11);
}

/// The alias field accepts both server shapes and its accessor
/// normalizes them.
#[test]
fn aliases_across_configurations() {
    let empty: Vec<String> = vec![];

    let body = bug_body(1243581, "NEW", r#", "alias": "stylo""#);
    let bug = bug_from_body(&body).unwrap();
    assert!(matches!(&bug.alias, OneOrMany::One(s) if s == "stylo"));
    assert_eq!(bug.alias.into_vec(), vec!["stylo".to_string()]);

    let body = bug_body(1155520, "NEW", "");
    let bug = bug_from_body(&body).unwrap();
    assert!(matches!(bug.alias, OneOrMany::Absent));
    assert_eq!(bug.alias.into_vec(), empty.clone());

    let body = bug_body(1906887, "NEW", r#", "alias": []"#);
    let bug = bug_from_body(&body).unwrap();
    assert!(matches!(bug.alias, OneOrMany::Many(_)));
    assert_eq!(bug.alias.into_vec(), empty.clone());
}

/// Flags decode when requested, and a flag's value is retrievable by
/// its name.
#[test]
fn flags_decode_and_get_flag() {
    let flags = r#", "flags": [{"id": 1, "type_id": 2, "creation_date": "2020-12-11T13:10:00Z", "modification_date": "2020-12-11T13:11:00Z", "name": "requires_doc_text", "status": "+", "setter": "msuchane", "requestee": null}]"#;
    let body = bug_body(1906887, "CLOSED", flags);
    let bug = bug_from_body(&body).unwrap();
    assert_eq!(bug.get_flag("requires_doc_text"), Some("+"));
    assert_eq!(bug.get_flag("other_flag"), None);
    let flag = &bug.flags.as_ref().unwrap()[0];
    assert_eq!(flag.display(), "requires_doc_text: +");
    assert_eq!(flag.creation_date.minute, 10);
    assert!(flag.requestee.is_none());
}

/// The response envelope keeps its pagination metadata and its own
/// extra fields.
#[test]
fn response_envelope_metadata() {
    let body = bug_body(3, "NEW", "").replace(
        r#"{"bugs": ["#,
        r#"{"offset": 0, "total_matches": 1, "faults": [], "bugs": ["#,
    );
    let response = response_from_body(&body).unwrap();
    assert_eq!(response.offset, Some(0));
    assert_eq!(response.total_matches, Some(1));
    assert!(response.limit.is_none());
    assert_eq!(response.bugs.len(), 1);
    assert_eq!(response.extra.len(), 1);
    assert_eq!(response.extra[0].0, "faults");
}

/// An error report from the server decodes into its typed fields.
#[test]
fn error_report_decodes() {
    let value = JsonValue::Obj(vec![
        ("error".to_string(), JsonValue::Bool(true)),
        ("message".to_string(), JsonValue::Str("Bug 1 does not exist.".to_string())),
        ("code".to_string(), JsonValue::Int(101)),
        ("documentation".to_string(), JsonValue::Str("https://example.org/docs".to_string())),
    ]);
    let report = BugzillaError::from_json(value).unwrap();
    assert_eq!(report.error, true);
    assert_eq!(report.message, "Bug 1 does not exist.");
    assert_eq!(report.code, 101);
    assert_eq!(report.extra.len(), 1);
    assert_eq!(report.extra[0].0, "documentation");
}

/// Each error kind reports itself in words.
#[test]
fn error_messages() {
    assert_eq!(
        BugzillaQueryError::NoBugs.message(),
        "The Bugzilla query returned no bugs."
    );
    assert_eq!(
        BugzillaQueryError::Decode.message(),
        "The Bugzilla response does not match the expected shape."
    );
    assert_eq!(
        BugzillaQueryError::Transport("connection refused".to_string()).message(),
        "Error in the Bugzilla REST API: connection refused"
    );
}
