//! Response rendering: turns the outcome of one exchange into the final
//! display text.
//!
//! A transport failure renders as one fixed connectivity message.  A
//! non-success status renders as a status line and the body is not shown.
//! A success renders the body: pretty-printed with sorted keys when it is
//! valid JSON, verbatim otherwise, each trimmed of surrounding whitespace;
//! a failure to read the body renders its error text instead.

use crate::json_io::{json_parses, pretty_json_of, pretty_print_json};
use crate::text::{dec_digits, trim, trim_spec, u16_to_dec};
use vstd::prelude::*;
use vstd::string::*;

verus! {

/// Whether an HTTP status code counts as success: the 2xx class.
pub open spec fn status_is_success_spec(code: u16) -> bool {
    200 <= code < 300
}

/// Whether a status code is in the 2xx class.
pub fn status_is_success(code: u16) -> (r: bool)
    ensures
        r == status_is_success_spec(code),
{
    200 <= code && code < 300
}

/// The outcome of one exchange, as the renderer sees it: a transport-level
/// failure, or a response with its status code and the attempt to read its
/// body as text (`Err` carries the read error's text).
pub enum ResponseOutcome {
    TransportFailure,
    Http { status: u16, body: Result<String, String> },
}

/// Spec-level form of `ResponseOutcome`.
pub enum ResponseOutcomeView {
    TransportFailure,
    Http { status: u16, body: Result<Seq<char>, Seq<char>> },
}

impl View for ResponseOutcome {
    type V = ResponseOutcomeView;

    open spec fn view(&self) -> ResponseOutcomeView {
        match self {
            ResponseOutcome::TransportFailure => ResponseOutcomeView::TransportFailure,
            ResponseOutcome::Http { status, body } => ResponseOutcomeView::Http {
                status: *status,
                body: match body {
                    Ok(t) => Ok(t@),
                    Err(e) => Err(e@),
                },
            },
        }
    }
}

/// What the renderer produces for each outcome.
pub open spec fn render_spec(o: ResponseOutcomeView) -> Seq<char> {
    match o {
        ResponseOutcomeView::TransportFailure => {
            "Unable to connect to the server. Perhaps the network is offline or the server hostname cannot be resolved."@
        },
        ResponseOutcomeView::Http { status, body } => {
            if !status_is_success_spec(status) {
                "Error: Request failed with status code: "@ + dec_digits(status as nat) + "."@
            } else {
                match body {
                    Err(e) => "Error: "@ + e,
                    Ok(text) => {
                        if json_parses(text) {
                            "Response body (JSON with sorted keys):\n"@ + trim_spec(
                                pretty_json_of(text),
                            )
                        } else {
                            "Response body:\n"@ + trim_spec(text)
                        }
                    },
                }
            }
        },
    }
}

/// Renders one outcome as its display text.
pub fn render(o: &ResponseOutcome) -> (r: String)
    ensures
        r@ == render_spec(o@),
{
    match o {
        ResponseOutcome::TransportFailure => String::from_str(
            "Unable to connect to the server. Perhaps the network is offline or the server hostname cannot be resolved.",
        ),
        ResponseOutcome::Http { status, body } => {
            if !status_is_success(*status) {
                let code = u16_to_dec(*status);
                String::from_str("Error: Request failed with status code: ").concat(
                    code.as_str(),
                ).concat(".")
            } else {
                match body {
                    Err(e) => String::from_str("Error: ").concat(e.as_str()),
                    Ok(text) => {
                        match pretty_print_json(text.as_str()) {
                            Some(p) => {
                                let t = trim(p.as_str());
                                String::from_str("Response body (JSON with sorted keys):\n").concat(
                                    t.as_str(),
                                )
                            },
                            None => {
                                let t = trim(text.as_str());
                                String::from_str("Response body:\n").concat(t.as_str())
                            },
                        }
                    },
                }
            }
        },
    }
}

} // verus!
