use curlite::request::{
    build, echo_lines, effective_method, parse_form_pairs, parse_method, BuildError, DataEncoding,
    Method, RequestBody, RequestSpec,
};

fn spec_with(method: Method, data: Option<&str>, json: Option<&str>) -> RequestSpec {
    RequestSpec {
        url: String::from("http://example.com"),
        method,
        raw_data: data.map(String::from),
        json_data: json.map(String::from),
    }
}

#[test]
fn json_payload_forces_post_over_explicit_get() {
    let spec = spec_with(Method::Get, None, Some("{\"a\":1,\"b\":2}"));
    assert_eq!(effective_method(&spec), Method::Post);
    let built = build(&spec, DataEncoding::FormEncode).unwrap();
    assert_eq!(built.method, Method::Post);
    assert!(matches!(built.body, RequestBody::Json(_)));
}

#[test]
fn invalid_json_payload_aborts_the_build() {
    let spec = spec_with(Method::Post, None, Some("{not json"));
    match build(&spec, DataEncoding::FormEncode) {
        Err(BuildError::InvalidJsonPayload(msg)) => assert!(!msg.is_empty()),
        Ok(_) => panic!("a malformed JSON payload must not build"),
    }
}

#[test]
fn form_encoding_splits_pairs_and_drops_malformed_segments() {
    let pairs = parse_form_pairs("a=1&c&b=2");
    assert_eq!(pairs.len(), 2);
    assert_eq!(pairs[0].0, "a");
    assert_eq!(pairs[0].1, "1");
    assert_eq!(pairs[1].0, "b");
    assert_eq!(pairs[1].1, "2");
}

#[test]
fn form_encoding_keeps_duplicate_keys_in_order() {
    let pairs = parse_form_pairs("k=1&k=2");
    assert_eq!(pairs.len(), 2);
    assert_eq!(pairs[0].1, "1");
    assert_eq!(pairs[1].1, "2");
}

#[test]
fn form_encoding_splits_on_the_first_equals_only() {
    let pairs = parse_form_pairs("k=a=b");
    assert_eq!(pairs.len(), 1);
    assert_eq!(pairs[0].0, "k");
    assert_eq!(pairs[0].1, "a=b");
}

#[test]
fn form_encoding_of_empty_and_bare_payloads() {
    assert_eq!(parse_form_pairs("").len(), 0);
    assert_eq!(parse_form_pairs("justakey").len(), 0);
    let pairs = parse_form_pairs("x=");
    assert_eq!(pairs.len(), 1);
    assert_eq!(pairs[0].0, "x");
    assert_eq!(pairs[0].1, "");
}

#[test]
fn raw_data_builds_a_form_encoded_post_body() {
    let spec = spec_with(Method::Post, Some("a=1&b=2"), None);
    let built = build(&spec, DataEncoding::FormEncode).unwrap();
    assert_eq!(built.method, Method::Post);
    match built.body {
        RequestBody::FormEncoded(pairs) => {
            assert_eq!(pairs.len(), 2);
            assert_eq!(pairs[0].0, "a");
            assert_eq!(pairs[0].1, "1");
            assert_eq!(pairs[1].0, "b");
            assert_eq!(pairs[1].1, "2");
        }
        _ => panic!("expected a form-encoded body"),
    }
}

#[test]
fn raw_data_can_be_sent_verbatim() {
    let spec = spec_with(Method::Post, Some("a=1&b=2"), None);
    let built = build(&spec, DataEncoding::Verbatim).unwrap();
    match built.body {
        RequestBody::Raw(s) => assert_eq!(s, "a=1&b=2"),
        _ => panic!("expected a raw body"),
    }
}

#[test]
fn no_payload_builds_an_empty_body_with_the_given_method() {
    let spec = spec_with(Method::Get, None, None);
    let built = build(&spec, DataEncoding::FormEncode).unwrap();
    assert_eq!(built.method, Method::Get);
    assert!(matches!(built.body, RequestBody::Empty));
}

#[test]
fn method_names_parse_exactly() {
    assert_eq!(parse_method("GET"), Some(Method::Get));
    assert_eq!(parse_method("POST"), Some(Method::Post));
    assert_eq!(parse_method("PUT"), None);
    assert_eq!(parse_method("get"), None);
    assert_eq!(parse_method(""), None);
}

#[test]
fn echo_reports_url_method_and_payloads() {
    let lines = echo_lines(
        "http://example.com",
        "POST",
        &Some(String::from("a=1")),
        &None,
    );
    assert_eq!(lines.len(), 3);
    assert_eq!(lines[0], "Requesting URL: http://example.com");
    assert_eq!(lines[1], "Method: POST");
    assert_eq!(lines[2], "Data: a=1");

    let lines = echo_lines("http://h", "GET", &None, &Some(String::from("{}")));
    assert_eq!(lines.len(), 3);
    assert_eq!(lines[2], "JSON: {}");

    let lines = echo_lines("http://h", "GET", &None, &None);
    assert_eq!(lines.len(), 2);
}
