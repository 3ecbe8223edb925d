use orb_billing::error::render_transport_failure;
use orb_billing::{ApiError, OrbError};
use reqwest::StatusCode;

fn invalid_request() -> ApiError {
    ApiError {
        status_code: StatusCode::from_u16(422).unwrap(),
        title: "Invalid request".to_string(),
        detail: Some("see the validation errors".to_string()),
        validation_errors: vec!["quantity must be positive".to_string(), "plan_id is required".to_string()],
    }
}

/// A failure of the engine that needs no network: a request for something
/// that is no URL.
fn failure_without_url() -> reqwest::Error {
    reqwest::Client::new().get("not a url").build().unwrap_err()
}

/// A failure of the engine that carries the URL it was made for.
fn failure_with_url() -> reqwest::Error {
    reqwest::Client::new().get("file:///var/empty").build().unwrap_err()
}

#[test]
fn transport_failure_renders_after_the_prefix() {
    let message = failure_without_url().to_string();
    assert!(!message.is_empty());
    let error = OrbError::from(failure_without_url());
    assert_eq!(error.to_string(), format!("orb error: transport: {}", message));
}

#[test]
fn transport_failure_with_url_renders_whole() {
    let message = failure_with_url().to_string();
    assert!(message.ends_with("file:///var/empty)"));
    let error = OrbError::from_transport_failure(failure_with_url());
    let rendering = error.to_string();
    assert!(rendering.starts_with("orb error: transport: "));
    assert_eq!(&rendering["orb error: transport: ".len()..], message);
}

#[test]
fn transport_failure_renders_the_engine_message() {
    let error = OrbError::from(failure_without_url());
    assert_eq!(error.to_string(), "orb error: transport: builder error");
}

#[test]
fn api_error_renders_after_the_prefix() {
    let api_error = invalid_request();
    let error = OrbError::from(api_error.clone());
    assert_eq!(error.to_string(), format!("orb error: api: {}", api_error.to_string()));
    assert_eq!(
        error.to_string(),
        "orb error: api: Invalid request: see the validation errors (status 422); validation errors: quantity must be positive,plan_id is required"
    );
}

#[test]
fn api_error_survives_the_conversion() {
    let api_error = invalid_request();
    let error = OrbError::from(api_error.clone());
    let reported = error.api_error().unwrap();
    assert_eq!(reported.status_code, api_error.status_code);
    assert_eq!(reported.title, api_error.title);
    assert_eq!(reported.detail, api_error.detail);
    assert_eq!(reported.validation_errors, api_error.validation_errors);
}

#[test]
fn api_error_survives_the_named_conversion() {
    let error = OrbError::from_api_error(invalid_request());
    match error {
        OrbError::Api(reported) => {
            assert_eq!(reported.status_code, StatusCode::UNPROCESSABLE_ENTITY);
            assert_eq!(reported.title, "Invalid request");
            assert_eq!(reported.detail.as_deref(), Some("see the validation errors"));
            assert_eq!(reported.validation_errors, vec!["quantity must be positive", "plan_id is required"]);
        }
        OrbError::Transport(_) => panic!("an API error became a transport failure"),
    }
}

fn fails_in_transport() -> Result<(), OrbError> {
    Err(failure_without_url())?
}

fn fails_in_service() -> Result<(), OrbError> {
    Err(invalid_request())?
}

#[test]
fn conversion_is_implicit_where_an_error_is_expected() {
    assert!(fails_in_transport().unwrap_err().is_transport());
    assert!(fails_in_service().unwrap_err().is_api());
    let converted: OrbError = invalid_request().into();
    assert!(converted.is_api());
}

#[test]
fn transport_failure_is_of_exactly_one_kind() {
    let error = OrbError::from(failure_without_url());
    assert!(error.is_transport());
    assert!(!error.is_api());
    assert!(matches!(error, OrbError::Transport(_)));
    assert!(error.api_error().is_none());
}

#[test]
fn api_error_is_of_exactly_one_kind() {
    let error = OrbError::from(invalid_request());
    assert!(error.is_api());
    assert!(!error.is_transport());
    assert!(matches!(error, OrbError::Api(_)));
    assert!(error.api_error().is_some());
}

#[test]
fn transport_failure_is_the_cause() {
    let message = failure_with_url().to_string();
    let error = OrbError::from(failure_with_url());
    let cause = error.source().unwrap();
    assert!(cause.is_builder());
    assert_eq!(cause.to_string(), message);
}

#[test]
fn api_error_has_no_deeper_cause() {
    let error = OrbError::from(invalid_request());
    assert!(error.source().is_none());
}

#[test]
fn kinds_are_told_apart_by_the_rendering() {
    let transport = OrbError::from(failure_without_url()).to_string();
    let api = OrbError::from(invalid_request()).to_string();
    assert!(transport.starts_with("orb error: transport: "));
    assert!(!transport.starts_with("orb error: api: "));
    assert!(api.starts_with("orb error: api: "));
    assert!(!api.starts_with("orb error: transport: "));
}

#[test]
fn transport_message_renders_after_the_prefix() {
    assert_eq!(
        render_transport_failure("error sending request for url (https://api.withorb.com/v1/customers)"),
        "orb error: transport: error sending request for url (https://api.withorb.com/v1/customers)"
    );
    assert_eq!(render_transport_failure(""), "orb error: transport: ");
}

#[test]
fn transport_message_is_not_cut() {
    let message = "connection refused: ".repeat(500) + "ünïcödé";
    let rendering = render_transport_failure(&message);
    assert_eq!(rendering.len(), "orb error: transport: ".len() + message.len());
    assert!(rendering.starts_with("orb error: transport: "));
    assert!(rendering.ends_with(&message));
}

fn crosses_threads<T: Send + Sync + 'static>() {}

#[test]
fn errors_may_cross_threads() {
    crosses_threads::<OrbError>();
    crosses_threads::<ApiError>();
}
