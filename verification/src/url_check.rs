//! URL validation: classifies a URL string as usable for a request or as
//! invalid with a reason.  Parsing itself is done by the `url` crate behind
//! a trusted wrapper; everything from the parse outcome to the final
//! classification is verified.
//!
//! Scheme policy is strict: only `http` and `https` pass; any other scheme
//! that parses is rejected as `UnsupportedScheme`.

use crate::text::str_eq;
use vstd::prelude::*;
use vstd::string::*;

verus! {

/// Why a URL was rejected.
pub enum UrlErrorKind {
    MissingBaseProtocol,
    InvalidIPv4,
    InvalidIPv6,
    InvalidPort,
    UnsupportedScheme,
    Other(String),
}

/// Spec-level form of `UrlErrorKind`, with the `Other` message as characters.
pub enum UrlErrorKindView {
    MissingBaseProtocol,
    InvalidIPv4,
    InvalidIPv6,
    InvalidPort,
    UnsupportedScheme,
    Other { message: Seq<char> },
}

impl View for UrlErrorKind {
    type V = UrlErrorKindView;

    open spec fn view(&self) -> UrlErrorKindView {
        match self {
            UrlErrorKind::MissingBaseProtocol => UrlErrorKindView::MissingBaseProtocol,
            UrlErrorKind::InvalidIPv4 => UrlErrorKindView::InvalidIPv4,
            UrlErrorKind::InvalidIPv6 => UrlErrorKindView::InvalidIPv6,
            UrlErrorKind::InvalidPort => UrlErrorKindView::InvalidPort,
            UrlErrorKind::UnsupportedScheme => UrlErrorKindView::UnsupportedScheme,
            UrlErrorKind::Other(m) => UrlErrorKindView::Other { message: m@ },
        }
    }
}

/// The outcome of validating one URL string.
pub enum UrlValidationResult {
    Valid,
    Invalid(UrlErrorKind),
}

/// Spec-level form of `UrlValidationResult`.
pub enum UrlValidationResultView {
    Valid,
    Invalid(UrlErrorKindView),
}

impl View for UrlValidationResult {
    type V = UrlValidationResultView;

    open spec fn view(&self) -> UrlValidationResultView {
        match self {
            UrlValidationResult::Valid => UrlValidationResultView::Valid,
            UrlValidationResult::Invalid(k) => UrlValidationResultView::Invalid(k@),
        }
    }
}

/// What `url::Url::parse` reported for one input string, reduced to plain
/// values: the scheme on success, or which error was raised.
pub enum UrlParseOutcome {
    Parsed { scheme: String },
    RelativeWithoutBase,
    RelativeWithCannotBeABaseBase,
    SetHostOnCannotBeABase,
    BadIpv4,
    BadIpv6,
    BadPort,
    OtherError(String),
}

/// Spec-level form of `UrlParseOutcome`.
pub enum UrlParseClass {
    Parsed { scheme: Seq<char> },
    RelativeWithoutBase,
    RelativeWithCannotBeABaseBase,
    SetHostOnCannotBeABase,
    BadIpv4,
    BadIpv6,
    BadPort,
    OtherError { message: Seq<char> },
}

impl View for UrlParseOutcome {
    type V = UrlParseClass;

    open spec fn view(&self) -> UrlParseClass {
        match self {
            UrlParseOutcome::Parsed { scheme } => UrlParseClass::Parsed { scheme: scheme@ },
            UrlParseOutcome::RelativeWithoutBase => UrlParseClass::RelativeWithoutBase,
            UrlParseOutcome::RelativeWithCannotBeABaseBase => UrlParseClass::RelativeWithCannotBeABaseBase,
            UrlParseOutcome::SetHostOnCannotBeABase => UrlParseClass::SetHostOnCannotBeABase,
            UrlParseOutcome::BadIpv4 => UrlParseClass::BadIpv4,
            UrlParseOutcome::BadIpv6 => UrlParseClass::BadIpv6,
            UrlParseOutcome::BadPort => UrlParseClass::BadPort,
            UrlParseOutcome::OtherError(m) => UrlParseClass::OtherError { message: m@ },
        }
    }
}

/// What parsing a given URL string reports; a pure function of the
/// characters alone.
pub uninterp spec fn url_parse_class(s: Seq<char>) -> UrlParseClass;

/// Relies on `url::Url::parse` and `url::Url::scheme`: parsing is a pure
/// function of the input characters; on success `scheme` returns the
/// URL's scheme; on failure the error is one variant of `url::ParseError`,
/// told apart here one arm each, the rarer ones carried as display text.
#[verifier::external_body]
fn parse_url(s: &str) -> (r: UrlParseOutcome)
    ensures
        r@ == url_parse_class(s@),
{
    match url::Url::parse(s) {
        Ok(u) => UrlParseOutcome::Parsed { scheme: u.scheme().to_string() },
        Err(url::ParseError::RelativeUrlWithoutBase) => UrlParseOutcome::RelativeWithoutBase,
        Err(url::ParseError::RelativeUrlWithCannotBeABaseBase) => {
            UrlParseOutcome::RelativeWithCannotBeABaseBase
        },
        Err(url::ParseError::SetHostOnCannotBeABaseUrl) => UrlParseOutcome::SetHostOnCannotBeABase,
        Err(url::ParseError::InvalidIpv4Address) => UrlParseOutcome::BadIpv4,
        Err(url::ParseError::InvalidIpv6Address) => UrlParseOutcome::BadIpv6,
        Err(url::ParseError::InvalidPort) => UrlParseOutcome::BadPort,
        Err(e) => UrlParseOutcome::OtherError(e.to_string()),
    }
}

/// How a parse outcome is classified: a scheme of `http` or `https` is
/// valid, any other scheme is unsupported, and each parse error maps to
/// its reason, the three no-base errors collapsing to one.
pub open spec fn classify(o: UrlParseClass) -> UrlValidationResultView {
    match o {
        UrlParseClass::Parsed { scheme } => {
            if scheme == "http"@ || scheme == "https"@ {
                UrlValidationResultView::Valid
            } else {
                UrlValidationResultView::Invalid(UrlErrorKindView::UnsupportedScheme)
            }
        },
        UrlParseClass::RelativeWithoutBase => UrlValidationResultView::Invalid(
            UrlErrorKindView::MissingBaseProtocol,
        ),
        UrlParseClass::RelativeWithCannotBeABaseBase => UrlValidationResultView::Invalid(
            UrlErrorKindView::MissingBaseProtocol,
        ),
        UrlParseClass::SetHostOnCannotBeABase => UrlValidationResultView::Invalid(
            UrlErrorKindView::MissingBaseProtocol,
        ),
        UrlParseClass::BadIpv4 => UrlValidationResultView::Invalid(UrlErrorKindView::InvalidIPv4),
        UrlParseClass::BadIpv6 => UrlValidationResultView::Invalid(UrlErrorKindView::InvalidIPv6),
        UrlParseClass::BadPort => UrlValidationResultView::Invalid(UrlErrorKindView::InvalidPort),
        UrlParseClass::OtherError { message } => UrlValidationResultView::Invalid(
            UrlErrorKindView::Other { message },
        ),
    }
}

/// What `validate` returns on a given URL string.
pub open spec fn validate_spec(s: Seq<char>) -> UrlValidationResultView {
    classify(url_parse_class(s))
}

/// Whether a validation result lets the run go on to dispatch the request:
/// only a `Valid` result does.  This is the sole gate before the transport.
pub open spec fn should_dispatch(r: UrlValidationResultView) -> bool {
    r is Valid
}

/// Classifies a URL string as usable for a request or invalid with a reason.
pub fn validate(url: &str) -> (r: UrlValidationResult)
    ensures
        r@ == validate_spec(url@),
{
    match parse_url(url) {
        UrlParseOutcome::Parsed { scheme } => {
            if str_eq(scheme.as_str(), "http") || str_eq(scheme.as_str(), "https") {
                UrlValidationResult::Valid
            } else {
                UrlValidationResult::Invalid(UrlErrorKind::UnsupportedScheme)
            }
        },
        UrlParseOutcome::RelativeWithoutBase => UrlValidationResult::Invalid(
            UrlErrorKind::MissingBaseProtocol,
        ),
        UrlParseOutcome::RelativeWithCannotBeABaseBase => UrlValidationResult::Invalid(
            UrlErrorKind::MissingBaseProtocol,
        ),
        UrlParseOutcome::SetHostOnCannotBeABase => UrlValidationResult::Invalid(
            UrlErrorKind::MissingBaseProtocol,
        ),
        UrlParseOutcome::BadIpv4 => UrlValidationResult::Invalid(UrlErrorKind::InvalidIPv4),
        UrlParseOutcome::BadIpv6 => UrlValidationResult::Invalid(UrlErrorKind::InvalidIPv6),
        UrlParseOutcome::BadPort => UrlValidationResult::Invalid(UrlErrorKind::InvalidPort),
        UrlParseOutcome::OtherError(m) => UrlValidationResult::Invalid(UrlErrorKind::Other(m)),
    }
}

impl UrlValidationResult {
    /// Whether the result is `Valid`, i.e. whether dispatch may proceed.
    pub fn is_valid(&self) -> (r: bool)
        ensures
            r == should_dispatch(self@),
    {
        match self {
            UrlValidationResult::Valid => true,
            UrlValidationResult::Invalid(_) => false,
        }
    }
}

impl UrlErrorKindView {
    /// The user-facing error line for this reason.  An unsupported scheme
    /// is reported with the base-protocol wording, as the reference
    /// behavior does.
    pub open spec fn message_spec(self) -> Seq<char> {
        match self {
            UrlErrorKindView::MissingBaseProtocol => {
                "Error: The URL does not have a valid base protocol."@
            },
            UrlErrorKindView::UnsupportedScheme => {
                "Error: The URL does not have a valid base protocol."@
            },
            UrlErrorKindView::InvalidIPv4 => "Error: The URL contains an invalid IPv4 address."@,
            UrlErrorKindView::InvalidIPv6 => "Error: The URL contains an invalid IPv6 address."@,
            UrlErrorKindView::InvalidPort => "Error: The URL contains an invalid port number."@,
            UrlErrorKindView::Other { message } => "Error: The URL has "@ + message,
        }
    }
}

impl UrlErrorKind {
    /// The user-facing error line for this reason.
    pub fn message(&self) -> (r: String)
        ensures
            r@ == self@.message_spec(),
    {
        match self {
            UrlErrorKind::MissingBaseProtocol => String::from_str(
                "Error: The URL does not have a valid base protocol.",
            ),
            UrlErrorKind::UnsupportedScheme => String::from_str(
                "Error: The URL does not have a valid base protocol.",
            ),
            UrlErrorKind::InvalidIPv4 => String::from_str(
                "Error: The URL contains an invalid IPv4 address.",
            ),
            UrlErrorKind::InvalidIPv6 => String::from_str(
                "Error: The URL contains an invalid IPv6 address.",
            ),
            UrlErrorKind::InvalidPort => String::from_str(
                "Error: The URL contains an invalid port number.",
            ),
            UrlErrorKind::Other(m) => String::from_str("Error: The URL has ").concat(m.as_str()),
        }
    }
}

/// Law: a URL whose parse fails for want of a base protocol is classified
/// `MissingBaseProtocol`, and dispatch is skipped.
pub proof fn lemma_missing_base_skips_dispatch(s: Seq<char>)
    requires
        url_parse_class(s) is RelativeWithoutBase || url_parse_class(s)
            is RelativeWithCannotBeABaseBase || url_parse_class(s) is SetHostOnCannotBeABase,
    ensures
        validate_spec(s) == UrlValidationResultView::Invalid(UrlErrorKindView::MissingBaseProtocol),
        !should_dispatch(validate_spec(s)),
{
}

/// Law: a URL that parses with scheme `ftp` is classified
/// `UnsupportedScheme`, and dispatch is skipped.
pub proof fn lemma_ftp_scheme_unsupported(s: Seq<char>)
    requires
        url_parse_class(s) matches UrlParseClass::Parsed { scheme } && scheme == "ftp"@,
    ensures
        validate_spec(s) == UrlValidationResultView::Invalid(UrlErrorKindView::UnsupportedScheme),
        !should_dispatch(validate_spec(s)),
{
    reveal_strlit("ftp");
    reveal_strlit("http");
    reveal_strlit("https");
    assert("ftp"@.len() == 3 && "http"@.len() == 4 && "https"@.len() == 5);
}

/// Law: a URL whose parse fails on the port number is classified
/// `InvalidPort`, and dispatch is skipped.
pub proof fn lemma_invalid_port_skips_dispatch(s: Seq<char>)
    requires
        url_parse_class(s) is BadPort,
    ensures
        validate_spec(s) == UrlValidationResultView::Invalid(UrlErrorKindView::InvalidPort),
        !should_dispatch(validate_spec(s)),
{
}

} // verus!
