//! The HTTP engine, `reqwest`, as this library sees it.
//!
//! The engine's failure and status code types are opaque here. What the library
//! reads from them, a failure's message and a status code's number, is named
//! by a spec function each; the contracts below tie those names to the
//! engine's own functions and are believed, not proved.

use vstd::prelude::*;

verus! {

/// `reqwest::Error`, the engine's failure: a value that is stored and shown,
/// never taken apart.
#[verifier::external_type_specification]
#[verifier::external_body]
pub struct ExTransportFailure(reqwest::Error);

/// `reqwest::StatusCode`, the status code of a response.
#[verifier::external_type_specification]
#[verifier::external_body]
pub struct ExStatusCode(reqwest::StatusCode);

/// The message of a transport failure: the text that its `Display` impl writes.
pub uninterp spec fn transport_message(failure: reqwest::Error) -> Seq<char>;

/// The number of a status code, as `StatusCode::as_u16` gives it.
pub uninterp spec fn status_number(code: reqwest::StatusCode) -> u16;

/// `StatusCode::as_u16` returns the number of the status code. It reads the
/// one field of the code and cannot fail.
pub assume_specification[ reqwest::StatusCode::as_u16 ](code: &reqwest::StatusCode) -> (n: u16)
    ensures
        n == status_number(*code),
;

/// Renders a transport failure with the `Display` impl of `reqwest::Error`,
/// through `to_string`. The impl writes a fixed phrase for the failure's kind,
/// then the status code and the URL where the failure holds them: a function
/// of the failure alone, which is what the contract claims by naming the
/// result.
#[verifier::external_body]
pub(crate) fn display_transport_failure(failure: &reqwest::Error) -> (message: String)
    ensures
        message@ == transport_message(*failure),
{
    failure.to_string()
}

} // verus!
