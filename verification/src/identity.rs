//! The identity verifier's read-only side: classifying what the upstream
//! media-tracking service answered for a candidate username. A reply that
//! is a JSON document with a non-null top-level `errors` member means the
//! account does not exist; a clean document means it does; anything else
//! means the service was not usable and must not be mistaken for either.

use vstd::prelude::*;

verus! {

/// What the identity verifier reports for a candidate username.
pub enum VerifyOutcome {
    /// The username resolves to a real upstream account.
    Found,
    /// The upstream service answered and reported no such account.
    NotFound,
    /// The upstream service could not be reached, or answered with
    /// something that is not a JSON document; the detail says which.
    UpstreamUnavailable(String),
}

/// Whether a text is a JSON document, and if so whether the document
/// carries a non-null top-level `errors` member: `None` when the text
/// does not parse, `Some(true)` when `errors` is present and non-null,
/// `Some(false)` otherwise.
pub uninterp spec fn upstream_errors_flag(body: Seq<char>) -> Option<bool>;

/// Relies on serde_json::from_str (whether a text parses as a JSON
/// document), serde_json::Value::get (the value under a top-level key, if
/// any) and serde_json::Value::is_null: each is a function of its
/// arguments alone, so the flag depends on the text alone.
#[verifier::external_body]
fn read_errors_flag(body: &str) -> (r: Option<bool>)
    ensures
        r == upstream_errors_flag(body@),
{
    match serde_json::from_str::<serde_json::Value>(body) {
        Ok(doc) => match doc.get("errors") {
            Some(e) => Some(!e.is_null()),
            None => Some(false),
        },
        Err(_) => None,
    }
}

/// Maps the parse report of an upstream reply to the verifier's outcome:
/// a clean document is `Found`, a document with errors is `NotFound`, and
/// no document at all is `UpstreamUnavailable` — never `NotFound`.
pub fn outcome_from_flag(flag: Option<bool>) -> (r: VerifyOutcome)
    ensures
        flag == Some(false) ==> r == VerifyOutcome::Found,
        flag == Some(true) ==> r == VerifyOutcome::NotFound,
        flag is None ==> (r matches VerifyOutcome::UpstreamUnavailable(d) && d@
            == "malformed upstream payload"@),
{
    match flag {
        Some(false) => VerifyOutcome::Found,
        Some(true) => VerifyOutcome::NotFound,
        None => VerifyOutcome::UpstreamUnavailable(String::from_str("malformed upstream payload")),
    }
}

/// Classifies the text an upstream reply carried.
pub fn classify_upstream_body(body: &str) -> (r: VerifyOutcome)
    ensures
        upstream_errors_flag(body@) == Some(false) ==> r == VerifyOutcome::Found,
        upstream_errors_flag(body@) == Some(true) ==> r == VerifyOutcome::NotFound,
        upstream_errors_flag(body@) is None ==> (r matches VerifyOutcome::UpstreamUnavailable(d)
            && d@ == "malformed upstream payload"@),
{
    outcome_from_flag(read_errors_flag(body))
}

/// The verifier's report from the transport's result: a reply that
/// arrived is classified by its text; a transport failure (network error,
/// timeout) is unavailable with the transport's detail, and is never
/// conflated with a missing account.
pub fn interpret_transport_result(reply: Result<String, String>) -> (r: VerifyOutcome)
    ensures
        reply matches Ok(body) ==> {
            &&& upstream_errors_flag(body@) == Some(false) ==> r == VerifyOutcome::Found
            &&& upstream_errors_flag(body@) == Some(true) ==> r == VerifyOutcome::NotFound
            &&& upstream_errors_flag(body@) is None ==> (
            r matches VerifyOutcome::UpstreamUnavailable(d) && d@
                == "malformed upstream payload"@)
        },
        reply matches Err(detail) ==> r == VerifyOutcome::UpstreamUnavailable(detail),
{
    match reply {
        Ok(body) => classify_upstream_body(body.as_str()),
        Err(detail) => VerifyOutcome::UpstreamUnavailable(detail),
    }
}

} // verus!
