//! Error reporting for a client of the Orb billing API.
//!
//! A call to the service can fail in two ways: the transport gives up before
//! a response exists, or the service answers and marks the answer as a
//! failure. [`OrbError`] unifies the two, and [`ApiError`] carries what the
//! service said. Both render to a diagnostic message whose exact text is
//! stated by the spec functions of their views.

pub mod api_error;
pub mod engine;
pub mod error;
pub mod laws;
pub mod text;

pub use api_error::{ApiError, ApiErrorView};
pub use error::{OrbError, OrbErrorView};
