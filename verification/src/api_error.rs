//! The structured failure that the service reports in a response.

use crate::engine::status_number;
use crate::text::{decimal, decimal_string, join, joined};
use reqwest::StatusCode;
use vstd::prelude::*;
use vstd::string::StringExecFns;

verus! {

/// An error returned by the Orb API.
///
/// The order of `validation_errors` is that of the response and is kept when
/// the error is rendered; an entry may occur more than once.
#[derive(Debug)]
pub struct ApiError {
    /// The HTTP status code.
    pub status_code: StatusCode,
    /// A brief description of the error message.
    pub title: String,
    /// A human-readable description providing more insight into the error.
    pub detail: Option<String>,
    /// Errors that occurred while validating the request.
    pub validation_errors: Vec<String>,
}

/// An [`ApiError`] as plain values: the number of its status code and the
/// characters of its texts.
pub struct ApiErrorView {
    pub status_code: nat,
    pub title: Seq<char>,
    pub detail: Option<Seq<char>>,
    pub validation_errors: Seq<Seq<char>>,
}

impl View for ApiError {
    type V = ApiErrorView;

    open spec fn view(&self) -> ApiErrorView {
        ApiErrorView {
            status_code: status_number(self.status_code) as nat,
            title: self.title@,
            detail: self.detail.deep_view(),
            validation_errors: self.validation_errors.deep_view(),
        }
    }
}

impl ApiErrorView {
    /// What the detail adds to the message: a colon, a space and the detail
    /// where there is one, nothing where there is none.
    pub open spec fn detail_part(self) -> Seq<char> {
        match self.detail {
            Some(detail) => ": "@ + detail,
            None => Seq::empty(),
        }
    }

    /// How the message ends: the heading of the validation errors, then the
    /// validation errors in their order, joined by commas.
    pub open spec fn validation_part(self) -> Seq<char> {
        "; validation errors: "@ + joined(self.validation_errors, ","@)
    }

    /// The message of the error: the title; the detail part; the number of
    /// the status code in decimal, in brackets after the word `status`; and
    /// the validation part.
    pub open spec fn rendering(self) -> Seq<char> {
        self.title + self.detail_part() + " (status "@ + decimal(self.status_code) + ")"@
            + self.validation_part()
    }
}

impl Clone for ApiError {
    /// Copies the error field by field: the copy has the status code and
    /// the view of the original.
    fn clone(&self) -> (copy: Self)
        ensures
            copy.status_code == self.status_code,
            copy@ == self@,
    {
        let copy = ApiError {
            status_code: self.status_code,
            title: self.title.clone(),
            detail: self.detail.clone(),
            validation_errors: self.validation_errors.clone(),
        };
        copy
    }
}

impl ApiError {
    /// Renders the error as its diagnostic message.
    pub fn to_string(&self) -> (message: String)
        ensures
            message@ == self@.rendering(),
    {
        render_api_error(
            self.status_code.as_u16(),
            self.title.as_str(),
            &self.detail,
            &self.validation_errors,
        )
    }

    /// The underlying cause of the error: none, the response of the service
    /// being the root cause.
    pub fn source(&self) -> (cause: Option<&reqwest::Error>)
        ensures
            cause is None,
    {
        None
    }
}

/// Renders the diagnostic message of the API error that has the given
/// parts, `status` being the number of its status code.
pub fn render_api_error(
    status: u16,
    title: &str,
    detail: &Option<String>,
    validation_errors: &Vec<String>,
) -> (message: String)
    ensures
        message@ == (ApiErrorView {
            status_code: status as nat,
            title: title@,
            detail: detail.deep_view(),
            validation_errors: validation_errors.deep_view(),
        }).rendering(),
{
    let mut message = String::from_str(title);
    if let Some(detail) = detail {
        message.append(": ");
        message.append(detail.as_str());
    }
    message.append(" (status ");
    message.append(decimal_string(status).as_str());
    message.append(")");
    message.append("; validation errors: ");
    message.append(join(validation_errors, ",").as_str());
    message
}

} // verus!
