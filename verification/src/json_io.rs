//! Trusted boundary to `serde_json`: parsing a candidate JSON document and
//! pretty-printing one.  Both operations are pure functions of the input
//! characters, so their results are named by uninterpreted spec functions
//! that the rest of the library's contracts speak of.

use vstd::prelude::*;

verus! {

#[verifier::external_type_specification]
#[verifier::external_body]
pub struct ExValue(serde_json::Value);

/// Whether a string holds a valid JSON document; a pure function of the
/// characters alone.
pub uninterp spec fn json_parses(s: Seq<char>) -> bool;

/// The pretty-printed, key-sorted form of the JSON document a string
/// holds; a pure function of the characters alone.
pub uninterp spec fn pretty_json_of(s: Seq<char>) -> Seq<char>;

/// Relies on `serde_json::from_str::<Value>`: whether a string parses as
/// JSON depends on its characters alone.  A parse failure is carried out
/// as the error's display text.
#[verifier::external_body]
pub(crate) fn parse_json(s: &str) -> (r: Result<serde_json::Value, String>)
    ensures
        r is Ok <==> json_parses(s@),
{
    match serde_json::from_str::<serde_json::Value>(s) {
        Ok(v) => Ok(v),
        Err(e) => Err(e.to_string()),
    }
}

/// Relies on `serde_json::from_str::<Value>` and
/// `serde_json::to_string_pretty`: parsing and printing are pure functions
/// of the characters, so their composition is too.  `to_string_pretty`
/// cannot fail on a `Value`: its map keys are strings and its `Serialize`
/// implementation raises no error, so a parsed document always prints.
#[verifier::external_body]
pub(crate) fn pretty_print_json(s: &str) -> (r: Option<String>)
    ensures
        (r is Some) == json_parses(s@),
        r matches Some(p) ==> p@ == pretty_json_of(s@),
{
    match serde_json::from_str::<serde_json::Value>(s) {
        Ok(v) => serde_json::to_string_pretty(&v).ok(),
        Err(_) => None,
    }
}

} // verus!
