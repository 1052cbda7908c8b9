//! Request construction: the effective method, the body encoding policy,
//! and the verified form-encoding of a raw `-d` payload.
//!
//! Policy, in priority order: a JSON payload forces POST and must parse
//! (a parse failure aborts the build); otherwise a raw payload becomes
//! the body under the chosen encoding; otherwise the body is empty.

use crate::json_io::{json_parses, parse_json};
use crate::text::str_eq;
use vstd::prelude::*;
use vstd::string::*;

verus! {

/// The HTTP methods the client issues.
#[derive(PartialEq, Eq, Structural, Clone, Copy, Debug)]
pub enum Method {
    Get,
    Post,
}

/// A normalized description of one user-requested call.
pub struct RequestSpec {
    pub url: String,
    pub method: Method,
    pub raw_data: Option<String>,
    pub json_data: Option<String>,
}

/// How a raw `-d` payload is turned into a body: sent verbatim, or split
/// into form-encoded key/value pairs.
#[derive(PartialEq, Eq, Structural, Clone, Copy, Debug)]
pub enum DataEncoding {
    Verbatim,
    FormEncode,
}

/// The body handed to the transport.
pub enum RequestBody {
    Empty,
    Raw(String),
    FormEncoded(Vec<(String, String)>),
    Json(serde_json::Value),
}

/// The builder's only fatal error: the JSON payload did not parse.  The
/// carried string is the parser's diagnostic text.
#[derive(Debug)]
pub enum BuildError {
    InvalidJsonPayload(String),
}

/// One built request: the effective method and the body to send.
pub struct BuiltRequest {
    pub method: Method,
    pub body: RequestBody,
}

/// The views of a list of key/value pairs.
pub open spec fn pairs_view(v: Seq<(String, String)>) -> Seq<(Seq<char>, Seq<char>)> {
    v.map_values(|p: (String, String)| (p.0@, p.1@))
}

/// The first index holding `c` in `s`, if any.
pub open spec fn find_first(s: Seq<char>, c: char) -> Option<int>
    decreases s.len(),
{
    if s.len() == 0 {
        None
    } else if s[0] == c {
        Some(0int)
    } else {
        match find_first(s.drop_first(), c) {
            Some(i) => Some(i + 1),
            None => None,
        }
    }
}

pub proof fn lemma_find_first(s: Seq<char>, c: char)
    ensures
        match find_first(s, c) {
            Some(i) => {
                &&& 0 <= i < s.len()
                &&& s[i] == c
                &&& forall|k: int| 0 <= k < i ==> s[k] != c
            },
            None => forall|k: int| 0 <= k < s.len() ==> s[k] != c,
        },
    decreases s.len(),
{
    if s.len() == 0 {
    } else if s[0] == c {
    } else {
        let t = s.drop_first();
        lemma_find_first(t, c);
        assert(forall|j: int| 0 <= j < t.len() ==> t[j] == s[j + 1]);
        match find_first(t, c) {
            Some(i) => {
                assert(find_first(s, c) == Some(i + 1));
                assert(s[i + 1] == t[i] && t[i] == c);
                assert(forall|k: int| 1 <= k < i + 1 ==> s[k] == t[k - 1]);
                assert(forall|k: int| 0 <= k < i + 1 ==> s[k] != c);
            },
            None => {
                assert(find_first(s, c) is None);
                assert(forall|k: int| 1 <= k < s.len() ==> s[k] == t[k - 1]);
                assert(forall|k: int| 0 <= k < s.len() ==> s[k] != c);
            },
        }
    }
}

proof fn lemma_find_first_at(s: Seq<char>, c: char, i: int)
    requires
        0 <= i < s.len(),
        s[i] == c,
        forall|k: int| 0 <= k < i ==> s[k] != c,
    ensures
        find_first(s, c) == Some(i),
{
    lemma_find_first(s, c);
    match find_first(s, c) {
        Some(j) => {
            if j < i {
                assert(s[j] != c);
            } else if i < j {
                assert(s[i] != c);
            }
        },
        None => {
            assert(s[i] != c);
        },
    }
}

/// The key/value pairs of one `&`-separated segment: the part before the
/// first `=` maps to the part after it; a segment without `=` yields
/// nothing.
pub open spec fn pairs_of_segment(seg: Seq<char>) -> Seq<(Seq<char>, Seq<char>)> {
    match find_first(seg, '=') {
        Some(j) => seq![(seg.take(j), seg.skip(j + 1))],
        None => seq![],
    }
}

/// The ordered key/value pairs of a form payload: split on `&`, then each
/// segment on its first `=`; segments without `=` are dropped; all pairs
/// are preserved in order (duplicate keys are not collapsed — this
/// library's documented choice).
pub open spec fn form_pairs_spec(s: Seq<char>) -> Seq<(Seq<char>, Seq<char>)>
    decreases s.len(),
    via form_pairs_spec_decreases
{
    match find_first(s, '&') {
        Some(i) => pairs_of_segment(s.take(i)) + form_pairs_spec(s.skip(i + 1)),
        None => pairs_of_segment(s),
    }
}

#[via_fn]
proof fn form_pairs_spec_decreases(s: Seq<char>) {
    lemma_find_first(s, '&');
}

/// Finds the first occurrence of `c` in `s`.
fn find_char(s: &str, c: char) -> (r: Option<usize>)
    ensures
        match r {
            Some(i) => find_first(s@, c) == Some(i as int),
            None => find_first(s@, c) is None,
        },
{
    let n = s.unicode_len();
    let mut i: usize = 0;
    while i < n
        invariant
            n == s@.len(),
            0 <= i <= n,
            forall|k: int| 0 <= k < i ==> s@[k] != c,
        decreases n - i,
    {
        if s.get_char(i) == c {
            proof {
                lemma_find_first_at(s@, c, i as int);
            }
            return Some(i);
        }
        i = i + 1;
    }
    proof {
        lemma_find_first(s@, c);
    }
    None
}

/// Splits one segment on its first `=` into a key/value pair, or drops it.
fn split_segment(seg: &str) -> (r: Option<(String, String)>)
    ensures
        match r {
            Some(p) => pairs_of_segment(seg@) == seq![(p.0@, p.1@)],
            None => pairs_of_segment(seg@) == Seq::<(Seq<char>, Seq<char>)>::empty(),
        },
{
    let n = seg.unicode_len();
    match find_char(seg, '=') {
        Some(j) => {
            proof {
                lemma_find_first(seg@, '=');
            }
            let key = seg.substring_char(0, j).to_owned();
            let val = seg.substring_char(j + 1, n).to_owned();
            proof {
                assert(seg@.take(j as int) =~= seg@.subrange(0, j as int));
                assert(seg@.skip(j + 1) =~= seg@.subrange(j + 1, n as int));
            }
            Some((key, val))
        },
        None => None,
    }
}

/// Splits a form payload into its ordered key/value pairs: segments are
/// separated by `&`, each splits on its first `=`, and a segment without
/// `=` is silently dropped.
pub fn parse_form_pairs(data: &str) -> (r: Vec<(String, String)>)
    ensures
        pairs_view(r@) == form_pairs_spec(data@),
    decreases data@.len(),
{
    let n = data.unicode_len();
    match find_char(data, '&') {
        Some(i) => {
            proof {
                lemma_find_first(data@, '&');
            }
            let seg = data.substring_char(0, i);
            let rest = data.substring_char(i + 1, n);
            let mut r: Vec<(String, String)> = Vec::new();
            match split_segment(seg) {
                Some(p) => r.push(p),
                None => (),
            }
            let mut tail = parse_form_pairs(rest);
            let ghost head_snap = r@;
            let ghost tail_snap = tail@;
            r.append(&mut tail);
            proof {
                assert(data@.take(i as int) =~= data@.subrange(0, i as int));
                assert(data@.skip(i + 1) =~= data@.subrange(i + 1, n as int));
                assert(pairs_view(head_snap + tail_snap) =~= pairs_view(head_snap) + pairs_view(
                    tail_snap,
                ));
                assert(pairs_view(head_snap) =~= pairs_of_segment(data@.take(i as int)));
            }
            r
        },
        None => {
            match split_segment(data) {
                Some(p) => {
                    let mut r: Vec<(String, String)> = Vec::new();
                    r.push(p);
                    proof {
                        assert(pairs_view(r@) =~= pairs_of_segment(data@));
                    }
                    r
                },
                None => {
                    let r: Vec<(String, String)> = Vec::new();
                    proof {
                        assert(pairs_view(r@) =~= pairs_of_segment(data@));
                    }
                    r
                },
            }
        },
    }
}

/// The method the run will use: POST whenever a JSON payload is present,
/// else whatever was specified.
pub open spec fn effective_method_of(s: RequestSpec) -> Method {
    if s.json_data is Some {
        Method::Post
    } else {
        s.method
    }
}

/// The effective method of a request description.
pub fn effective_method(spec: &RequestSpec) -> (r: Method)
    ensures
        r == effective_method_of(*spec),
{
    match &spec.json_data {
        Some(_) => Method::Post,
        None => spec.method,
    }
}

/// Law: a present JSON payload forces the effective method to POST,
/// whatever method was specified.
pub proof fn lemma_json_forces_post(spec: RequestSpec)
    requires
        spec.json_data is Some,
    ensures
        effective_method_of(spec) == Method::Post,
{
}

/// Builds the request to dispatch: decides the effective method and the
/// body.  A JSON payload must parse; its parse failure is the only build
/// error and aborts the run before any request is attempted.
pub fn build(spec: &RequestSpec, encoding: DataEncoding) -> (r: Result<BuiltRequest, BuildError>)
    ensures
        r matches Ok(b) ==> b.method == effective_method_of(*spec),
        spec.json_data matches Some(j) ==> {
            &&& (r is Ok <==> json_parses(j@))
            &&& (r matches Ok(b) ==> b.body is Json)
        },
        spec.json_data is None ==> r is Ok,
        spec.json_data is None && encoding == DataEncoding::FormEncode ==> (spec.raw_data matches
            Some(d) ==> (r matches Ok(b) && b.body matches RequestBody::FormEncoded(pairs)
            && pairs_view(pairs@) == form_pairs_spec(d@))),
        spec.json_data is None && encoding == DataEncoding::Verbatim ==> (spec.raw_data matches
            Some(d) ==> (r matches Ok(b) && b.body matches RequestBody::Raw(body) && body@ == d@)),
        (spec.json_data is None && spec.raw_data is None) ==> (r matches Ok(b) && b.body is Empty),
        r matches Err(e) ==> (spec.json_data matches Some(j) && !json_parses(j@) && e matches
            BuildError::InvalidJsonPayload(_)),
{
    match &spec.json_data {
        Some(j) => {
            match parse_json(j.as_str()) {
                Ok(v) => Ok(
                    BuiltRequest { method: Method::Post, body: RequestBody::Json(v) },
                ),
                Err(e) => Err(BuildError::InvalidJsonPayload(e)),
            }
        },
        None => {
            let body = match &spec.raw_data {
                Some(d) => match encoding {
                    DataEncoding::FormEncode => RequestBody::FormEncoded(
                        parse_form_pairs(d.as_str()),
                    ),
                    DataEncoding::Verbatim => RequestBody::Raw(d.clone()),
                },
                None => RequestBody::Empty,
            };
            Ok(BuiltRequest { method: spec.method, body })
        },
    }
}

/// Which method a selector string names: exactly `GET` or `POST`.
pub open spec fn method_of_name(s: Seq<char>) -> Option<Method> {
    if s == "GET"@ {
        Some(Method::Get)
    } else if s == "POST"@ {
        Some(Method::Post)
    } else {
        None
    }
}

/// Parses a method selector string; any name but `GET` and `POST` is
/// unknown, and the caller dispatches nothing for it.
pub fn parse_method(s: &str) -> (r: Option<Method>)
    ensures
        r == method_of_name(s@),
{
    if str_eq(s, "GET") {
        Some(Method::Get)
    } else if str_eq(s, "POST") {
        Some(Method::Post)
    } else {
        None
    }
}

/// The views of a list of display lines.
pub open spec fn lines_view(v: Seq<String>) -> Seq<Seq<char>> {
    v.map_values(|x: String| x@)
}

/// The view of an optional string.
pub open spec fn opt_view(o: Option<String>) -> Option<Seq<char>> {
    match o {
        Some(s) => Some(s@),
        None => None,
    }
}

/// The pre-dispatch diagnostic echo: the resolved URL and method, then the
/// raw and JSON payloads verbatim, each line present only when its value is.
pub open spec fn echo_lines_spec(
    url: Seq<char>,
    method: Seq<char>,
    data: Option<Seq<char>>,
    json: Option<Seq<char>>,
) -> Seq<Seq<char>> {
    let base = seq!["Requesting URL: "@ + url, "Method: "@ + method];
    let with_data = match data {
        Some(d) => base.push("Data: "@ + d),
        None => base,
    };
    match json {
        Some(j) => with_data.push("JSON: "@ + j),
        None => with_data,
    }
}

/// Builds the diagnostic echo printed before dispatch.
pub fn echo_lines(url: &str, method: &str, data: &Option<String>, json: &Option<String>) -> (r: Vec<
    String,
>)
    ensures
        lines_view(r@) == echo_lines_spec(url@, method@, opt_view(*data), opt_view(*json)),
{
    let mut r: Vec<String> = Vec::new();
    r.push(String::from_str("Requesting URL: ").concat(url));
    r.push(String::from_str("Method: ").concat(method));
    match data {
        Some(d) => r.push(String::from_str("Data: ").concat(d.as_str())),
        None => (),
    }
    match json {
        Some(j) => r.push(String::from_str("JSON: ").concat(j.as_str())),
        None => (),
    }
    proof {
        assert(lines_view(r@) =~= echo_lines_spec(url@, method@, opt_view(*data), opt_view(*json)));
    }
    r
}

} // verus!
