//! The response classifier: every HTTP outcome maps to exactly one decoded
//! value or one classified error.
use vstd::prelude::*;

use crate::config::{opt_str, opt_text};
use crate::error::{result_view, CliError, ErrorView};
use crate::models::ProblemDetail;
use crate::text::{decimal, decimal_text};

verus! {

/// The standard reason phrase of an HTTP status, if it has one.
pub uninterp spec fn canonical_reason(status: u16) -> Option<Seq<char>>;

/// Relies on `reqwest::StatusCode` (the `http` crate's status type):
/// `from_u16` accepts the status and `canonical_reason` gives its standard
/// reason phrase, which depends on the status alone.
#[verifier::external_body]
fn reason_phrase(status: u16) -> (r: Option<String>)
    ensures
        opt_text(r) == canonical_reason(status),
{
    match reqwest::StatusCode::from_u16(status) {
        Ok(code) => code.canonical_reason().map(String::from),
        Err(_) => None,
    }
}

/// Whether a status is in the success class.
pub open spec fn is_success(status: u16) -> bool {
    200 <= status <= 299
}

/// The status of a successful deletion.
pub open spec fn no_content() -> u16 {
    204
}

/// The status that says the addressed entry does not exist.
pub open spec fn not_found() -> u16 {
    404
}

/// The message of a failure whose body says nothing usable.
pub open spec fn fallback_text(status: u16, reason: Option<Seq<char>>) -> Seq<char> {
    "HTTP "@ + decimal_text(status as nat) + ": "@ + match reason {
        Some(r) => r,
        None => "Unknown error"@,
    }
}

/// The message of a failure whose body says nothing usable, given the
/// status's reason phrase.
pub fn fallback_message(status: u16, reason: Option<&str>) -> (r: String)
    ensures
        r@ == fallback_text(status, opt_str(reason)),
{
    let head = String::from_str("HTTP ").concat(decimal(status as u64).as_str()).concat(": ");
    match reason {
        Some(text) => head.concat(text),
        None => head.concat("Unknown error"),
    }
}

/// The error that a failed exchange stands for, given its status, what
/// decoding its body as a problem detail gave, and the status's reason
/// phrase: not-found carries the detail and needs one; any other status
/// carries the detail, or else the fallback message.
pub open spec fn failure_of(
    status: u16,
    problem: Result<ProblemDetail, String>,
    reason: Option<Seq<char>>,
) -> ErrorView {
    if status == not_found() {
        match problem {
            Ok(p) => ErrorView::EntryNotFound(p.detail@),
            Err(m) => ErrorView::Serialization(m@),
        }
    } else {
        match problem {
            Ok(p) => ErrorView::ApiError { status, message: p.detail@ },
            Err(_) => ErrorView::ApiError { status, message: fallback_text(status, reason) },
        }
    }
}

/// The outcome of an exchange whose success carries a body: on success the
/// decoded body, or a serialization error when it did not decode; else the
/// failure that the status and problem detail give.
pub open spec fn exchange_outcome<T>(
    status: u16,
    body: Result<T, String>,
    problem: Result<ProblemDetail, String>,
    reason: Option<Seq<char>>,
) -> Result<T, ErrorView> {
    if is_success(status) {
        match body {
            Ok(v) => Ok(v),
            Err(m) => Err(ErrorView::Serialization(m@)),
        }
    } else {
        Err(failure_of(status, problem, reason))
    }
}

/// The outcome of a deletion: success exactly on no-content, whatever the
/// body; else the failure that the status and problem detail give.
pub open spec fn deletion_outcome(
    status: u16,
    problem: Result<ProblemDetail, String>,
    reason: Option<Seq<char>>,
) -> Result<(), ErrorView> {
    if status == no_content() {
        Ok(())
    } else {
        Err(failure_of(status, problem, reason))
    }
}

/// The error of a failed exchange, given the status's reason phrase.
pub fn failure(status: u16, problem: Result<ProblemDetail, String>, reason: Option<&str>) -> (r:
    CliError)
    ensures
        r@ == failure_of(status, problem, opt_str(reason)),
{
    if status == 404 {
        match problem {
            Ok(p) => CliError::EntryNotFound(p.detail),
            Err(m) => CliError::Serialization(m),
        }
    } else {
        match problem {
            Ok(p) => CliError::ApiError { status, message: p.detail },
            Err(_) => CliError::ApiError { status, message: fallback_message(status, reason) },
        }
    }
}

fn failure_for(status: u16, problem: Result<ProblemDetail, String>) -> (r: CliError)
    ensures
        r@ == failure_of(status, problem, canonical_reason(status)),
{
    let reason = reason_phrase(status);
    match reason {
        Some(text) => failure(status, problem, Some(text.as_str())),
        None => failure(status, problem, None),
    }
}

/// Classifies an exchange whose success carries a body. `body` is what
/// decoding the body as the expected shape gave (for a markdown endpoint,
/// the raw text); `problem` is what decoding it as a problem detail gave.
pub fn handle_response<T>(
    status: u16,
    body: Result<T, String>,
    problem: Result<ProblemDetail, String>,
) -> (r: Result<T, CliError>)
    ensures
        result_view(r) == exchange_outcome(status, body, problem, canonical_reason(status)),
{
    if 200 <= status && status <= 299 {
        match body {
            Ok(v) => Ok(v),
            Err(m) => Err(CliError::Serialization(m)),
        }
    } else {
        Err(failure_for(status, problem))
    }
}

/// Whether a deletion succeeded, which its status alone tells; its body
/// then needs no reading.
pub fn deletion_succeeded(status: u16) -> (r: bool)
    ensures
        r == (status == no_content()),
{
    status == 204
}

/// Classifies the exchange of a deletion; the body is not looked at on
/// success.
pub fn handle_delete_response(status: u16, problem: Result<ProblemDetail, String>) -> (r: Result<
    (),
    CliError,
>)
    ensures
        result_view(r) == deletion_outcome(status, problem, canonical_reason(status)),
        status == no_content() ==> r is Ok,
{
    if status == 204 {
        Ok(())
    } else {
        Err(failure_for(status, problem))
    }
}

} // verus!
