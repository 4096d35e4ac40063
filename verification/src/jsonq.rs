//! Path extraction from JSON documents. Parsing and path queries run in
//! the `serde_json` and `access_json` crates behind one trusted call whose
//! outcome carries a name, `extracted_of`: a function of the body text and
//! the path alone. Everything downstream — matching, gating, token
//! extraction — is verified against that name.

use vstd::prelude::*;

verus! {

/// A scalar extracted from a JSON document: a boolean, a number carried as
/// its canonical decimal text (together with its integer value where it is
/// an integer), or a string. Only such scalars are matchable.
pub enum JsonScalar {
    Bool(bool),
    Num { text: String, int_val: Option<i64> },
    Str(String),
}

/// What a path query yielded: no node at all, a node that is not a scalar
/// (an object, an array or null), or a scalar.
pub enum QueryOutcome {
    Missing,
    Unsupported,
    Found(JsonScalar),
}

/// What path extraction yields on a body and a path: `Missing` when the
/// body is not JSON, the path does not parse or is empty, or no node
/// matches; `Unsupported` for a non-scalar node; otherwise the scalar. A
/// function of the two strings alone.
pub uninterp spec fn extracted_of(body: Seq<char>, path: Seq<char>) -> QueryOutcome;

/// Whether a text parses as a JSON document; a function of the text
/// alone.
pub uninterp spec fn json_parses(body: Seq<char>) -> bool;

#[verifier::external_type_specification]
#[verifier::external_body]
pub struct ExJsonValue(serde_json::Value);

/// Relies on `serde_json::from_str` to parse the body and access_json's
/// `JSONQuery::parse` and `JSONQuery::execute` to select the node. A
/// query with no elements would panic inside `execute` on a scalar root,
/// so it is answered with no node up front.
#[verifier::external_body]
fn select_node(body: &str, path: &str) -> (r: Option<serde_json::Value>) {
    let doc: Option<serde_json::Value> = serde_json::from_str(body).ok();
    match (doc, access_json::JSONQuery::parse(path).ok()) {
        (Some(d), Some(q)) if !q.elements.is_empty() => q.execute(&d).unwrap_or(None),
        _ => None,
    }
}

/// Relies on `serde_json::Value`'s variants to classify the selected
/// node: a number as its canonical `Display` text, with `Number::as_i64`
/// giving its integer value where it has one; an object, array or null
/// is not a scalar.
#[verifier::external_body]
fn classify_node(node: Option<serde_json::Value>) -> (r: QueryOutcome) {
    match node {
        Some(serde_json::Value::Bool(b)) => QueryOutcome::Found(JsonScalar::Bool(b)),
        Some(serde_json::Value::Number(n)) => {
            QueryOutcome::Found(JsonScalar::Num { text: n.to_string(), int_val: n.as_i64() })
        },
        Some(serde_json::Value::String(s)) => QueryOutcome::Found(JsonScalar::Str(s)),
        Some(_) => QueryOutcome::Unsupported,
        None => QueryOutcome::Missing,
    }
}

/// Relies on the selection and classification above being functions of
/// the body and the path alone; their composite result carries the name
/// [`extracted_of`].
#[verifier::external_body]
fn run_extraction(body: &str, path: &str) -> (r: QueryOutcome)
    ensures
        r == extracted_of(body@, path@),
{
    classify_node(select_node(body, path))
}

/// Relies on `serde_json::from_str`: whether the text is a JSON document.
#[verifier::external_body]
pub(crate) fn json_text_parses(body: &str) -> (r: bool)
    ensures
        r == json_parses(body@),
{
    serde_json::from_str::<serde_json::Value>(body).is_ok()
}

/// Extract the scalar at a path from a response body.
pub fn extract_scalar(body: &str, path: &str) -> (r: QueryOutcome)
    ensures
        r == extracted_of(body@, path@),
{
    run_extraction(body, path)
}

/// The canonical text of an extracted scalar, used for literal comparison
/// and as the input of time parsing.
pub open spec fn spec_scalar_text(s: JsonScalar) -> Seq<char> {
    match s {
        JsonScalar::Bool(b) => if b {
            "true"@
        } else {
            "false"@
        },
        JsonScalar::Num { text, int_val } => text@,
        JsonScalar::Str(t) => t@,
    }
}

/// Render an extracted scalar as its canonical text.
pub fn scalar_text(s: &JsonScalar) -> (r: String)
    ensures
        r@ == spec_scalar_text(*s),
{
    match s {
        JsonScalar::Bool(b) => {
            if *b {
                let t = "true";
                t.to_owned()
            } else {
                let t = "false";
                t.to_owned()
            }
        },
        JsonScalar::Num { text, int_val } => text.clone(),
        JsonScalar::Str(t) => t.clone(),
    }
}

/// The token a query outcome holds: exactly the string scalars carry one.
pub fn token_from_outcome(outcome: QueryOutcome) -> (r: Option<String>)
    ensures
        r is Some <==> outcome matches QueryOutcome::Found(JsonScalar::Str(_)),
        r is Some ==> outcome == QueryOutcome::Found(JsonScalar::Str(r->0)),
{
    match outcome {
        QueryOutcome::Found(JsonScalar::Str(s)) => Some(s),
        _ => None,
    }
}

/// Extract a bearer token from a token-endpoint response: exactly the
/// string scalar at the configured path. A malformed body, a missing node
/// or a non-string node yields nothing, so a bad token response degrades
/// the tick instead of crashing it.
pub fn get_token(text: &str, token_json_path: &str) -> (r: Option<String>)
    ensures
        r is Some <==> extracted_of(text@, token_json_path@) matches QueryOutcome::Found(
            JsonScalar::Str(_),
        ),
        r is Some ==> extracted_of(text@, token_json_path@) == QueryOutcome::Found(
            JsonScalar::Str(r->0),
        ),
{
    token_from_outcome(extract_scalar(text, token_json_path))
}

} // verus!
