use curlite::render::{render, status_is_success, ResponseOutcome};
use curlite::text::{str_eq, trim, u16_to_dec};

fn http(status: u16, body: &str) -> ResponseOutcome {
    ResponseOutcome::Http {
        status,
        body: Ok(String::from(body)),
    }
}

#[test]
fn json_body_is_pretty_printed_with_sorted_keys() {
    let out = render(&http(200, "{\"b\":1,\"a\":2}"));
    assert_eq!(
        out,
        "Response body (JSON with sorted keys):\n{\n  \"a\": 2,\n  \"b\": 1\n}"
    );
}

#[test]
fn non_json_body_is_rendered_verbatim() {
    let out = render(&http(200, "hello world"));
    assert_eq!(out, "Response body:\nhello world");
}

#[test]
fn body_whitespace_is_trimmed() {
    let out = render(&http(200, "  hello \n"));
    assert_eq!(out, "Response body:\nhello");
}

#[test]
fn failing_status_renders_the_status_line_and_no_body() {
    let out = render(&http(404, "{\"a\":1}"));
    assert_eq!(out, "Error: Request failed with status code: 404.");
}

#[test]
fn five_hundred_status_renders_its_code() {
    let out = render(&http(500, ""));
    assert_eq!(out, "Error: Request failed with status code: 500.");
}

#[test]
fn transport_failure_renders_the_fixed_connectivity_message() {
    let out = render(&ResponseOutcome::TransportFailure);
    assert_eq!(
        out,
        "Unable to connect to the server. Perhaps the network is offline or the server hostname cannot be resolved."
    );
}

#[test]
fn unreadable_body_renders_its_error_text() {
    let out = render(&ResponseOutcome::Http {
        status: 200,
        body: Err(String::from("stream did not contain valid UTF-8")),
    });
    assert_eq!(out, "Error: stream did not contain valid UTF-8");
}

#[test]
fn status_class_is_the_two_hundreds() {
    assert!(status_is_success(200));
    assert!(status_is_success(204));
    assert!(status_is_success(299));
    assert!(!status_is_success(199));
    assert!(!status_is_success(300));
    assert!(!status_is_success(404));
}

#[test]
fn pretty_printing_round_trips_to_a_deep_equal_value() {
    let source = "{\"b\":1,\"a\":{\"x\":[1,2,3],\"y\":null},\"c\":\"s\"}";
    let first: serde_json::Value = serde_json::from_str(source).unwrap();
    let printed = serde_json::to_string_pretty(&first).unwrap();
    let second: serde_json::Value = serde_json::from_str(&printed).unwrap();
    assert_eq!(first, second);
}

#[test]
fn trim_removes_surrounding_whitespace_only() {
    assert_eq!(trim(" \t a b \n\r"), "a b");
    assert_eq!(trim(""), "");
    assert_eq!(trim("   "), "");
    assert_eq!(trim("x"), "x");
}

#[test]
fn decimal_formatting_matches_the_code() {
    assert_eq!(u16_to_dec(0), "0");
    assert_eq!(u16_to_dec(7), "7");
    assert_eq!(u16_to_dec(404), "404");
    assert_eq!(u16_to_dec(65535), "65535");
}

#[test]
fn string_equality_compares_characters() {
    assert!(str_eq("abc", "abc"));
    assert!(!str_eq("abc", "abd"));
    assert!(!str_eq("abc", "ab"));
    assert!(str_eq("", ""));
}
