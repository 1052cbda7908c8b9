use curlite::url_check::{validate, UrlErrorKind, UrlValidationResult};

#[test]
fn missing_base_protocol_is_classified_and_blocks_dispatch() {
    let r = validate("example.com/path");
    assert!(matches!(
        r,
        UrlValidationResult::Invalid(UrlErrorKind::MissingBaseProtocol)
    ));
    assert!(!r.is_valid());
}

#[test]
fn bare_word_has_no_base_protocol() {
    let r = validate("localhost");
    assert!(matches!(
        r,
        UrlValidationResult::Invalid(UrlErrorKind::MissingBaseProtocol)
    ));
    assert!(!r.is_valid());
}

#[test]
fn ftp_scheme_is_unsupported() {
    let r = validate("ftp://host");
    assert!(matches!(
        r,
        UrlValidationResult::Invalid(UrlErrorKind::UnsupportedScheme)
    ));
    assert!(!r.is_valid());
}

#[test]
fn out_of_range_port_is_invalid_port() {
    let r = validate("http://host:99999");
    assert!(matches!(
        r,
        UrlValidationResult::Invalid(UrlErrorKind::InvalidPort)
    ));
    assert!(!r.is_valid());
}

#[test]
fn malformed_ipv4_is_classified() {
    let r = validate("http://999.999.999.999");
    assert!(matches!(
        r,
        UrlValidationResult::Invalid(UrlErrorKind::InvalidIPv4)
    ));
}

#[test]
fn malformed_ipv6_is_classified() {
    let r = validate("http://[1:2:3:4:5:6:7:8:9]");
    assert!(matches!(
        r,
        UrlValidationResult::Invalid(UrlErrorKind::InvalidIPv6)
    ));
}

#[test]
fn http_and_https_urls_are_valid() {
    assert!(validate("http://example.com").is_valid());
    assert!(validate("https://example.com/a/b?q=1").is_valid());
}

#[test]
fn other_parse_errors_carry_the_diagnostic_text() {
    let r = validate("http://");
    match r {
        UrlValidationResult::Invalid(UrlErrorKind::Other(ref m)) => {
            assert_eq!(m, "empty host");
        }
        _ => panic!("expected an Other classification"),
    }
    match r {
        UrlValidationResult::Invalid(kind) => {
            assert_eq!(kind.message(), "Error: The URL has empty host");
        }
        _ => unreachable!(),
    }
}

#[test]
fn error_messages_match_each_reason() {
    assert_eq!(
        UrlErrorKind::MissingBaseProtocol.message(),
        "Error: The URL does not have a valid base protocol."
    );
    assert_eq!(
        UrlErrorKind::UnsupportedScheme.message(),
        "Error: The URL does not have a valid base protocol."
    );
    assert_eq!(
        UrlErrorKind::InvalidIPv4.message(),
        "Error: The URL contains an invalid IPv4 address."
    );
    assert_eq!(
        UrlErrorKind::InvalidIPv6.message(),
        "Error: The URL contains an invalid IPv6 address."
    );
    assert_eq!(
        UrlErrorKind::InvalidPort.message(),
        "Error: The URL contains an invalid port number."
    );
}
