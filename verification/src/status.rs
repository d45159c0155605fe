//! The service's status endpoint.
use crate::text::{decimal, decimal_digits};
use vstd::prelude::*;

verus! {

/// The reason phrase that the `http` crate gives a status code, if it has one.
pub uninterp spec fn canonical_reason_of(code: u16) -> Option<Seq<char>>;

/// Calls `http::StatusCode::canonical_reason` (through axum's re-export) on the
/// status code `code`. Trusted: the result is the crate's reason phrase for
/// exactly this code, or `None` where its table has none; the table itself is
/// not restated here.
#[verifier::external_body]
fn canonical_reason(code: u16) -> (reason: Option<&'static str>)
    requires
        100 <= code < 1000,
    ensures
        match reason {
            Some(r) => canonical_reason_of(code) == Some(r@),
            None => canonical_reason_of(code) is None,
        },
{
    match axum::http::StatusCode::from_u16(code) {
        Ok(status) => status.canonical_reason(),
        Err(_) => None,
    }
}

/// The text that the `http` crate's `Display` writes for a status code: the
/// code in decimal, a space, and the reason phrase (or a placeholder).
pub open spec fn status_code_text(code: u16) -> Seq<char> {
    decimal_digits(code as nat) + " "@ + match canonical_reason_of(code) {
        Some(r) => r,
        None => "<unknown status code>"@,
    }
}

/// Writes a status code as `http::StatusCode` displays it.
pub fn status_code_display(code: u16) -> (text: String)
    requires
        100 <= code < 1000,
    ensures
        text@ == status_code_text(code),
{
    let mut text = decimal(code as u64);
    text.append(" ");
    match canonical_reason(code) {
        Some(r) => text.append(r),
        None => text.append("<unknown status code>"),
    }
    text
}

/// Whether the service is serving requests.
#[derive(Clone, Copy, Debug, PartialEq, Eq, Structural)]
pub enum Status {
    Serving,
    NotServing,
}

/// The HTTP status code that answers a status check.
pub open spec fn spec_status_code(status: Status) -> u16 {
    match status {
        Status::Serving => 200,
        Status::NotServing => 418,
    }
}

impl Status {
    /// The HTTP status code of the answer: 200 while serving, 418 otherwise.
    pub fn status_code(&self) -> (code: u16)
        ensures
            code == spec_status_code(*self),
    {
        match self {
            Status::Serving => 200,
            Status::NotServing => 418,
        }
    }

    /// The answer to a status check: its HTTP status code and the body
    /// `Status: ` followed by that code as `http` displays it.
    pub fn into_response(self) -> (response: (u16, String))
        ensures
            response.0 == spec_status_code(self),
            response.1@ == "Status: "@ + status_code_text(spec_status_code(self)),
    {
        let code = self.status_code();
        let mut body = String::from_str("Status: ");
        let text = status_code_display(code);
        body.append(text.as_str());
        (code, body)
    }
}

/// The status check: the service always reports that it is serving.
pub fn status() -> (result: Result<Status, Status>)
    ensures
        result == Ok::<Status, Status>(Status::Serving),
{
    Ok(Status::Serving)
}

} // verus!
