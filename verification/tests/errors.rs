use team_bot::api::error::{
    ApiError, AppResponseError, FieldError, FieldErrors, JsonRejection, ValidationErrors,
};
use team_bot::api::{health_body, health_value, server_url};
use team_bot::error::ServiceError;

fn texts(list: &[&str]) -> Vec<String> {
    list.iter().map(|text| text.to_string()).collect()
}

#[test]
fn service_error_messages() {
    let text = || "x".to_owned();
    let cases = vec![
        (ServiceError::DatabaseError(text()), "Database error: x"),
        (ServiceError::ResourceNotFound(text()), "Entity `x` is not found"),
        (ServiceError::InvalidCredentials(), "Invalid credentials"),
        (ServiceError::UserAlreadyExist(text()), "User with email `x` already exists"),
        (ServiceError::ProjectAlreadyExist(text()), "Project with code `x` already exists"),
        (ServiceError::exchange_api_error(404, "gone"), "Exchange API error: 404 - gone"),
        (ServiceError::config_error("x"), "Exchange request configuration error: x"),
        (ServiceError::ExchangeConnectionError(text()), "Exchange connection error: x"),
        (ServiceError::invalid_event("x"), "Invalid event format: x"),
        (ServiceError::invalid_schedule("x"), "Invalid schedule format: x"),
        (ServiceError::parse_error("x"), "Parsing error: x"),
        (ServiceError::env_var_missing("X"), "Environment variable not set: X"),
        (ServiceError::EncodingError(text()), "Encoding error: x"),
        (ServiceError::SerializationError(text()), "Serialization error: x"),
        (ServiceError::InternalError(text()), "x"),
    ];
    for (error, message) in cases {
        assert_eq!(error.message(), message);
    }
}

#[test]
fn service_error_constructors() {
    assert!(matches!(
        ServiceError::exchange_api_error(500, "m"),
        ServiceError::ExchangeApiError { status_code: 500, message } if message == "m"
    ));
    assert!(matches!(
        ServiceError::invalid_event("r"),
        ServiceError::InvalidEventFormat(reason) if reason == "r"
    ));
    assert!(matches!(
        ServiceError::invalid_schedule("r"),
        ServiceError::InvalidScheduleFormat(reason) if reason == "r"
    ));
    assert!(matches!(
        ServiceError::config_error("r"),
        ServiceError::ExchangeRequestConfigError(reason) if reason == "r"
    ));
    assert!(matches!(
        ServiceError::parse_error("r"),
        ServiceError::ParseError(reason) if reason == "r"
    ));
    assert!(matches!(
        ServiceError::env_var_missing("V"),
        ServiceError::EnvVarError(name) if name == "V"
    ));
}

#[test]
fn refused_body_is_a_bad_request() {
    let rejection = JsonRejection {
        status: "415 Unsupported Media Type".to_owned(),
        body_text: "Expected request with `Content-Type: application/json`".to_owned(),
        message: "no json".to_owned(),
    };
    let (status, body) = ApiError::from(rejection).response();
    assert_eq!(status, 400);
    assert_eq!(
        body,
        AppResponseError::new(
            "INVALID_INPUT_ERROR",
            "no json",
            None,
            vec![(
                "415 Unsupported Media Type".to_owned(),
                texts(&["Expected request with `Content-Type: application/json`"]),
            )],
        )
    );
}

#[test]
fn invalid_input_lists_the_codes_of_each_field() {
    let code = |code: &str| FieldError { code: code.to_owned() };
    let errors = ValidationErrors {
        message: "invalid".to_owned(),
        field_errors: vec![
            FieldErrors { field: "email".to_owned(), errors: vec![code("email"), code("length")] },
            FieldErrors { field: "name".to_owned(), errors: vec![] },
        ],
    };
    let (status, body) = ApiError::InvalidInputError(errors).response();
    assert_eq!(status, 400);
    assert_eq!(body.kind, "INVALID_INPUT_ERROR");
    assert_eq!(body.error_message, "invalid");
    assert_eq!(body.code, None);
    assert_eq!(
        body.details,
        vec![
            ("email".to_owned(), texts(&["email", "length"])),
            ("name".to_owned(), texts(&[])),
        ]
    );
}

#[test]
fn other_errors_list_no_causes() {
    let cases = vec![
        (
            ApiError::from(ServiceError::InvalidCredentials()),
            (401, "INVALID_CREDENTIALS", "Invalid credentials"),
        ),
        (
            ApiError::from(ServiceError::ResourceNotFound("Task 1".to_owned())),
            (404, "RESOURCE_NOT_FOUND", "Entity `Task 1` is not found"),
        ),
        (
            ApiError::SrvError(ServiceError::parse_error("x")),
            (500, "INTERNAL_SERVER_ERROR", "Parsing error: x"),
        ),
        (
            ApiError::InvalidSchedule("x".to_owned()),
            (500, "INTERNAL_SERVER_ERROR", "Invalid schedule format: x"),
        ),
        (
            ApiError::ScheduleCalculation("x".to_owned()),
            (500, "INTERNAL_SERVER_ERROR", "Failed to calculate next run time: x"),
        ),
        (
            ApiError::Anyhow("secret detail".to_owned()),
            (500, "INTERNAL_SERVER_ERROR", "an internal server error occurred"),
        ),
    ];
    for (error, (expected_status, kind, message)) in cases {
        assert_eq!(error.message(), message);
        let (status, body) = error.response();
        assert_eq!(status, expected_status);
        assert_eq!(body, AppResponseError::new(kind, message, None, vec![]));
    }
}

#[test]
fn health_reports() {
    assert_eq!(health_body(true), "{\"code\":\"200\",\"success\":true}");
    assert_eq!(health_body(false), "{\"code\":\"500\",\"success\":false}");
    assert_eq!(health_value(true).get("success"), Some(&serde_json::Value::Bool(true)));
    assert_eq!(
        health_value(false).get("code"),
        Some(&serde_json::Value::String("500".to_owned()))
    );
}

#[test]
fn server_address() {
    assert_eq!(server_url("0.0.0.0", "8080"), "0.0.0.0:8080");
}
