//! The unified error: a failure of the transport, or a failure that the
//! service reported.

use crate::api_error::{ApiError, ApiErrorView};
use crate::engine::{display_transport_failure, transport_message};
use vstd::prelude::*;
use vstd::std_specs::convert::FromSpecImpl;
use vstd::string::StringExecFns;

verus! {

/// An error returned by a client of the API: exactly one of the two kinds
/// of failure. Its name keeps it apart from `reqwest::Error`, which it wraps.
#[derive(Debug)]
pub enum OrbError {
    /// An error in the underlying transport.
    Transport(reqwest::Error),
    /// An error returned by the API.
    Api(ApiError),
}

/// An [`OrbError`] as plain values: the message of the transport failure, or
/// the view of the API error.
pub enum OrbErrorView {
    Transport(Seq<char>),
    Api(ApiErrorView),
}

impl View for OrbError {
    type V = OrbErrorView;

    open spec fn view(&self) -> OrbErrorView {
        match self {
            OrbError::Transport(failure) => OrbErrorView::Transport(transport_message(*failure)),
            OrbError::Api(error) => OrbErrorView::Api(error@),
        }
    }
}

impl OrbErrorView {
    /// The message of the error: a prefix that names the library and the
    /// class of the failure, then the whole message of what is wrapped.
    pub open spec fn rendering(self) -> Seq<char> {
        match self {
            OrbErrorView::Transport(message) => "orb error: transport: "@ + message,
            OrbErrorView::Api(error) => "orb error: api: "@ + error.rendering(),
        }
    }
}

impl OrbError {
    /// Lifts a failure of the transport into the unified error.
    pub fn from_transport_failure(failure: reqwest::Error) -> (error: OrbError)
        ensures
            error == OrbError::Transport(failure),
    {
        OrbError::Transport(failure)
    }

    /// Lifts a failure that the service reported into the unified error.
    pub fn from_api_error(api_error: ApiError) -> (error: OrbError)
        ensures
            error == OrbError::Api(api_error),
    {
        OrbError::Api(api_error)
    }

    /// Whether the transport failed.
    pub open spec fn spec_is_transport(&self) -> bool {
        self is Transport
    }

    /// Whether the service reported the failure.
    pub open spec fn spec_is_api(&self) -> bool {
        self is Api
    }

    /// The cause of the error, where it has one.
    pub open spec fn spec_source(&self) -> Option<&reqwest::Error> {
        match self {
            OrbError::Transport(failure) => Some(failure),
            OrbError::Api(_) => None,
        }
    }

    /// What the service reported, where it did.
    pub open spec fn spec_api_error(&self) -> Option<&ApiError> {
        match self {
            OrbError::Transport(_) => None,
            OrbError::Api(error) => Some(error),
        }
    }

    /// Whether the transport failed.
    #[verifier::when_used_as_spec(spec_is_transport)]
    pub fn is_transport(&self) -> (b: bool)
        ensures
            b == self.spec_is_transport(),
    {
        match self {
            OrbError::Transport(_) => true,
            OrbError::Api(_) => false,
        }
    }

    /// Whether the service reported the failure.
    #[verifier::when_used_as_spec(spec_is_api)]
    pub fn is_api(&self) -> (b: bool)
        ensures
            b == self.spec_is_api(),
    {
        match self {
            OrbError::Transport(_) => false,
            OrbError::Api(_) => true,
        }
    }

    /// The underlying cause: the wrapped transport failure. An error that
    /// the service reported has none, the response being the root cause.
    #[verifier::when_used_as_spec(spec_source)]
    pub fn source(&self) -> (cause: Option<&reqwest::Error>)
        ensures
            cause == self.spec_source(),
    {
        match self {
            OrbError::Transport(failure) => Some(failure),
            OrbError::Api(_) => None,
        }
    }

    /// What the service reported, or nothing where the transport failed.
    #[verifier::when_used_as_spec(spec_api_error)]
    pub fn api_error(&self) -> (reported: Option<&ApiError>)
        ensures
            reported == self.spec_api_error(),
    {
        match self {
            OrbError::Transport(_) => None,
            OrbError::Api(error) => Some(error),
        }
    }

    /// Renders the error as its diagnostic message.
    pub fn to_string(&self) -> (message: String)
        ensures
            message@ == self@.rendering(),
    {
        match self {
            OrbError::Transport(failure) => {
                render_transport_failure(display_transport_failure(failure).as_str())
            },
            OrbError::Api(error) => {
                let mut message = String::from_str("orb error: api: ");
                message.append(error.to_string().as_str());
                message
            },
        }
    }
}

/// Renders the diagnostic message of the error that wraps a transport
/// failure whose own message is `message`.
pub fn render_transport_failure(message: &str) -> (rendering: String)
    ensures
        rendering@ == OrbErrorView::Transport(message@).rendering(),
{
    let mut rendering = String::from_str("orb error: transport: ");
    rendering.append(message);
    rendering
}

impl From<reqwest::Error> for OrbError {
    fn from(failure: reqwest::Error) -> (error: OrbError) {
        OrbError::from_transport_failure(failure)
    }
}

impl FromSpecImpl<reqwest::Error> for OrbError {
    open spec fn obeys_from_spec() -> bool {
        true
    }

    open spec fn from_spec(failure: reqwest::Error) -> OrbError {
        OrbError::Transport(failure)
    }
}

impl From<ApiError> for OrbError {
    fn from(api_error: ApiError) -> (error: OrbError) {
        OrbError::from_api_error(api_error)
    }
}

impl FromSpecImpl<ApiError> for OrbError {
    open spec fn obeys_from_spec() -> bool {
        true
    }

    open spec fn from_spec(api_error: ApiError) -> OrbError {
        OrbError::Api(api_error)
    }
}

} // verus!
