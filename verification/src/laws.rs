//! What holds of the errors whatever they wrap, stated over the spec
//! functions of the contracts and proved from them.

use crate::api_error::{ApiError, ApiErrorView};
use crate::engine::transport_message;
use crate::error::{OrbError, OrbErrorView};
use vstd::prelude::*;
use vstd::std_specs::convert::FromSpec;

verus! {

/// A transport failure that is lifted into the unified error renders as the
/// transport prefix followed by the failure's own message: the message is
/// all that follows the prefix, and none of it is cut.
pub proof fn transport_failure_renders_after_prefix(failure: reqwest::Error)
    ensures
        ({
            let error = <OrbError as FromSpec<reqwest::Error>>::from_spec(failure);
            let prefix = "orb error: transport: "@;
            let message = transport_message(failure);
            let rendering = error@.rendering();
            &&& error == OrbError::Transport(failure)
            &&& rendering == prefix + message
            &&& rendering.len() == prefix.len() + message.len()
            &&& rendering.subrange(0, prefix.len() as int) == prefix
            &&& rendering.subrange(prefix.len() as int, rendering.len() as int) == message
        }),
{
}

/// An API error that is lifted into the unified error renders as the API
/// prefix followed by the API error's own rendering.
pub proof fn api_error_renders_after_prefix(api_error: ApiError)
    ensures
        ({
            let error = <OrbError as FromSpec<ApiError>>::from_spec(api_error);
            &&& error == OrbError::Api(api_error)
            &&& error@.rendering() == "orb error: api: "@ + api_error@.rendering()
        }),
{
}

/// Lifting an API error into the unified error loses nothing: what the
/// unified error then reports is the API error it was made from, equal to it
/// in each of its four fields.
pub proof fn api_error_survives_lifting(api_error: ApiError)
    ensures
        ({
            let error = <OrbError as FromSpec<ApiError>>::from_spec(api_error);
            &&& error.spec_api_error() == Some(&api_error)
            &&& error.spec_api_error() matches Some(reported) && {
                &&& reported.status_code == api_error.status_code
                &&& reported.title == api_error.title
                &&& reported.detail == api_error.detail
                &&& reported.validation_errors == api_error.validation_errors
            }
        }),
{
}

/// Every error is of exactly one kind. Either the transport failed: then the
/// error has that failure as its cause and reports no API error. Or the
/// service reported the failure: then the error reports an API error and has
/// no deeper cause.
pub proof fn kinds_are_exclusive(error: OrbError)
    ensures
        error.spec_is_transport() != error.spec_is_api(),
        error.spec_is_transport() <==> error.spec_source() is Some,
        error.spec_is_transport() <==> error.spec_api_error() is None,
        error.spec_is_transport() <==> error@ is Transport,
        error.spec_is_api() <==> error.spec_api_error() is Some,
        error.spec_is_api() <==> error.spec_source() is None,
        error.spec_is_api() <==> error@ is Api,
{
}

/// The message tells the two kinds apart: a transport failure never renders
/// as an error that the service reported does.
pub proof fn rendering_tells_kinds_apart(transport: OrbErrorView, api: OrbErrorView)
    requires
        transport is Transport,
        api is Api,
    ensures
        transport.rendering() != api.rendering(),
{
    reveal_strlit("orb error: transport: ");
    reveal_strlit("orb error: api: ");
    assert(transport.rendering()[11] == 't');
    assert(api.rendering()[11] == 'a');
}

/// The message of an API error ends with the validation part: after the
/// heading stand the validation errors and nothing else.
pub proof fn rendering_ends_with_validation_part(error: ApiErrorView)
    ensures
        ({
            let rendering = error.rendering();
            let ending = error.validation_part();
            &&& ending.len() <= rendering.len()
            &&& rendering.subrange(rendering.len() - ending.len(), rendering.len() as int)
                == ending
        }),
{
}

} // verus!
