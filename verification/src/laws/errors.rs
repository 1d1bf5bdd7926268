//! Laws of errors: what is told of them, and how they are answered.

use crate::api::error::{ApiError, AppResponseError, FieldError, JsonRejection};
use crate::api::{health_body, health_value, server_url};
use crate::error::ServiceError;
use crate::executor::actions::zulip::RequestError;
use crate::executor::actions::ActionError;
use crate::executor::system::SetupError;
use crate::executor::workers::gerrit::GerritError;
use crate::executor::workers::notifier::NotifierError;
use crate::executor::workers::teamcity::TeamCityError;
use crate::executor::workers::WorkerError;
use crate::json::{json_rendering, json_view, JsonView};
use crate::text::decimal_u64;
use serde_json::Value;
use vstd::prelude::*;

verus! {

// ---------------------------------------------------------------------------
// Messages
// ---------------------------------------------------------------------------

/// A service error is told in words that hold its whole text.
pub proof fn law_service_messages(error: &ServiceError, code: String, message: String)
    requires
        *error matches ServiceError::ExchangeApiError { status_code, .. } ==> call_ensures(
            decimal_u64,
            (status_code as u64,),
            code,
        ),
        call_ensures(ServiceError::message, (error,), message),
    ensures
        message@ == match *error {
            ServiceError::DatabaseError(text) => "Database error: "@ + text@,
            ServiceError::ResourceNotFound(text) => "Entity `"@ + text@ + "` is not found"@,
            ServiceError::InvalidCredentials() => "Invalid credentials"@,
            ServiceError::UserAlreadyExist(text) => "User with email `"@ + text@
                + "` already exists"@,
            ServiceError::ProjectAlreadyExist(text) => "Project with code `"@ + text@
                + "` already exists"@,
            ServiceError::ExchangeApiError { message, .. } => "Exchange API error: "@ + code@
                + " - "@ + message@,
            ServiceError::ExchangeRequestConfigError(text) =>
                "Exchange request configuration error: "@ + text@,
            ServiceError::ExchangeConnectionError(text) => "Exchange connection error: "@ + text@,
            ServiceError::InvalidEventFormat(text) => "Invalid event format: "@ + text@,
            ServiceError::InvalidScheduleFormat(text) => "Invalid schedule format: "@ + text@,
            ServiceError::ParseError(text) => "Parsing error: "@ + text@,
            ServiceError::EnvVarError(text) => "Environment variable not set: "@ + text@,
            ServiceError::EncodingError(text) => "Encoding error: "@ + text@,
            ServiceError::SerializationError(text) => "Serialization error: "@ + text@,
            ServiceError::InternalError(text) => text@,
        },
{
}

/// An error is made of its whole reason.
pub proof fn law_service_errors_keep_their_reason(
    status: u32,
    reason: &str,
    api: ServiceError,
    event: ServiceError,
    schedule: ServiceError,
    config: ServiceError,
    parse: ServiceError,
    variable: ServiceError,
)
    requires
        call_ensures(ServiceError::exchange_api_error, (status, reason), api),
        call_ensures(ServiceError::invalid_event, (reason,), event),
        call_ensures(ServiceError::invalid_schedule, (reason,), schedule),
        call_ensures(ServiceError::config_error, (reason,), config),
        call_ensures(ServiceError::parse_error, (reason,), parse),
        call_ensures(ServiceError::env_var_missing, (reason,), variable),
    ensures
        api matches ServiceError::ExchangeApiError { status_code, message } && status_code == status
            && message@ == reason@,
        event matches ServiceError::InvalidEventFormat(text) && text@ == reason@,
        schedule matches ServiceError::InvalidScheduleFormat(text) && text@ == reason@,
        config matches ServiceError::ExchangeRequestConfigError(text) && text@ == reason@,
        parse matches ServiceError::ParseError(text) && text@ == reason@,
        variable matches ServiceError::EnvVarError(text) && text@ == reason@,
{
    assert(api@ == api.view() && event@ == event.view() && schedule@ == schedule.view());
    assert(config@ == config.view() && parse@ == parse.view() && variable@ == variable.view());
}

/// The errors of a request to Zulip are told with the whole text or the status.
pub proof fn law_request_messages(error: &RequestError, code: String, message: String)
    requires
        *error matches RequestError::StatusCodeError(status) ==> call_ensures(
            decimal_u64,
            (status as u64,),
            code,
        ),
        call_ensures(RequestError::message, (error,), message),
    ensures
        message@ == match *error {
            RequestError::QueueError => "Failed to submit chat message: Queue is full"@,
            RequestError::StatusCodeError(_) => "Request returned an invalid status code: "@
                + code@,
            RequestError::ParseError(text) => "Failed to parse response: "@ + text@,
            RequestError::ReqwestError(text) => "Request failed: "@ + text@,
            RequestError::SendError(text) => "Message submission failed: "@ + text@,
            RequestError::RecvError(text) => "Failed to receive response: "@ + text@,
            RequestError::SemaphoreError(text) => "Failed to acquire request lock: "@ + text@,
            RequestError::MaxRetriesExceeded => "Max retries exceeded"@,
        },
{
}

/// The errors of the workers are told with the whole text or the whole name.
pub proof fn law_worker_messages(
    notifier: &NotifierError,
    gerrit: &GerritError,
    teamcity: &TeamCityError,
    notifier_message: String,
    gerrit_message: String,
    teamcity_message: String,
)
    requires
        call_ensures(NotifierError::message, (notifier,), notifier_message),
        call_ensures(GerritError::message, (gerrit,), gerrit_message),
        call_ensures(TeamCityError::message, (teamcity,), teamcity_message),
    ensures
        notifier_message@ == match *notifier {
            NotifierError::ConfigError(text) => "Notifier configuration error: "@ + text@,
            NotifierError::MissingFieldError(field) => "Missing required field: "@ + field@,
        },
        gerrit_message@ == match *gerrit {
            GerritError::ConfigError(text) => "Configuration error: "@ + text@,
            GerritError::AuthError => "Authentication failed: Invalid credentials"@,
            GerritError::ResponseError(text) => "Invalid API response: "@ + text@,
            GerritError::MissingFieldError(field) => "Missing required field: "@ + field@,
        },
        teamcity_message@ == match *teamcity {
            TeamCityError::Config(text) => "Configuration error: "@ + text@,
            TeamCityError::ApiRequest(text) => "API request failed: "@ + text@,
            TeamCityError::MissingFieldError(field) => "Missing required field: "@ + field@,
        },
{
}

/// A worker's error is told as the error that it is made of.
pub proof fn law_worker_error_tells_its_cause(
    error: &WorkerError,
    message: String,
    cause: String,
)
    requires
        call_ensures(WorkerError::message, (error,), message),
        match *error {
            WorkerError::Gerrit(inner) => call_ensures(GerritError::message, (&inner,), cause),
            WorkerError::Notifier(inner) => call_ensures(NotifierError::message, (&inner,), cause),
            WorkerError::TeamCity(inner) => call_ensures(TeamCityError::message, (&inner,), cause),
            WorkerError::Other(text) => cause@ == text@,
        },
    ensures
        message@ == cause@,
{
}

/// The errors of the set-up are told with the whole name and reason.
pub proof fn law_setup_messages(
    action: &ActionError,
    setup: &SetupError,
    action_message: String,
    cause: String,
    setup_message: String,
)
    requires
        call_ensures(ActionError::message, (action,), action_message),
        *setup matches SetupError::Action(inner) ==> call_ensures(
            ActionError::message,
            (&inner,),
            cause,
        ),
        call_ensures(SetupError::message, (setup,), setup_message),
    ensures
        action_message@ == match *action {
            ActionError::Create(name, reason) => "Can't create "@ + name@ + " action. Err: "@
                + reason@,
            ActionError::Unsupported(name) => "Unsupported action type "@ + name@,
        },
        setup_message@ == match *setup {
            SetupError::Action(_) => cause@,
            SetupError::Worker(name, reason) => "Can't create "@ + name@ + " worker. Err: "@
                + reason@,
        },
{
}

// ---------------------------------------------------------------------------
// The HTTP interface
// ---------------------------------------------------------------------------

/// An error of the interface is told as the error that it is made of; a general
/// failure keeps its cause to itself.
pub proof fn law_api_messages(error: &ApiError, cause: String, message: String)
    requires
        *error matches ApiError::SrvError(inner) ==> call_ensures(
            ServiceError::message,
            (&inner,),
            cause,
        ),
        call_ensures(ApiError::message, (error,), message),
    ensures
        message@ == match *error {
            ApiError::SrvError(_) => cause@,
            ApiError::JsonRejection(rejection) => rejection.message@,
            ApiError::InvalidInputError(errors) => errors.message@,
            ApiError::InvalidSchedule(text) => "Invalid schedule format: "@ + text@,
            ApiError::ScheduleCalculation(text) => "Failed to calculate next run time: "@ + text@,
            ApiError::Anyhow(_) => "an internal server error occurred"@,
        },
{
}

/// An error is answered with its message, without a code, and with the status and
/// the kind that belong to it.
pub proof fn law_error_is_answered(
    error: ApiError,
    message: String,
    response: (u16, AppResponseError),
)
    requires
        call_ensures(ApiError::message, (&error,), message),
        call_ensures(ApiError::response, (error,), response),
    ensures
        response.1.error_message@ == message@,
        response.1.code is None,
        match error {
            ApiError::JsonRejection(_) | ApiError::InvalidInputError(_) => response.0 == 400
                && response.1.kind@ == "INVALID_INPUT_ERROR"@,
            ApiError::SrvError(ServiceError::InvalidCredentials()) => response.0 == 401
                && response.1.kind@ == "INVALID_CREDENTIALS"@,
            ApiError::SrvError(ServiceError::ResourceNotFound(_)) => response.0 == 404
                && response.1.kind@ == "RESOURCE_NOT_FOUND"@,
            _ => response.0 == 500 && response.1.kind@ == "INTERNAL_SERVER_ERROR"@,
        },
{
    assert(response.1@ == response.1.view());
}

/// A refused body is answered with its status and its explanation, an invalid
/// input with every field and the codes of all its faults, in their order, and
/// anything else without causes.
pub proof fn law_causes_are_listed(error: ApiError, response: (u16, AppResponseError))
    requires
        call_ensures(ApiError::response, (error,), response),
    ensures
        ({
            let details = response.1.details@;
            match error {
                ApiError::JsonRejection(rejection) => details.len() == 1 && details[0].0@
                    == rejection.status@ && details[0].1@.len() == 1 && details[0].1@[0]@
                    == rejection.body_text@,
                ApiError::InvalidInputError(errors) => {
                    &&& details.len() == errors.field_errors@.len()
                    &&& forall|i: int|
                        0 <= i < details.len() ==> (#[trigger] details[i]).0@
                            == errors.field_errors@[i].field@ && details[i].1@.len()
                            == errors.field_errors@[i].errors@.len()
                    &&& forall|i: int, j: int|
                        0 <= i < details.len() && 0 <= j < details[i].1@.len() ==> (
                        #[trigger] details[i].1@[j])@ == errors.field_errors@[i].errors@[j].code@
                },
                _ => details.len() == 0,
            }
        }),
{
    let details = response.1.details@;
    let views = response.1@.details;
    assert(views == error.spec_details());
    assert(views.len() == details.len());
    assert forall|i: int| 0 <= i < details.len() implies #[trigger] views[i] == (
        details[i].0@,
        crate::api::error::texts(details[i].1@),
    ) by {
    }
    match error {
        ApiError::JsonRejection(rejection) => {
            assert(views[0] == (details[0].0@, crate::api::error::texts(details[0].1@)));
            assert(crate::api::error::texts(details[0].1@).len() == details[0].1@.len());
            assert(crate::api::error::texts(details[0].1@)[0] == details[0].1@[0]@);
        },
        ApiError::InvalidInputError(errors) => {
            let fields = errors.field_errors@;
            assert forall|i: int| 0 <= i < details.len() implies (#[trigger] details[i]).0@
                == fields[i].field@ && details[i].1@.len() == fields[i].errors@.len() by {
                assert(views[i] == fields[i].detail());
                assert(crate::api::error::texts(details[i].1@).len() == details[i].1@.len());
            }
            assert forall|i: int, j: int|
                0 <= i < details.len() && 0 <= j < details[i].1@.len() implies (
            #[trigger] details[i].1@[j])@ == fields[i].errors@[j].code@ by {
                assert(views[i] == fields[i].detail());
                let codes = crate::api::error::texts(details[i].1@);
                assert(codes[j] == details[i].1@[j]@);
                assert(codes == fields[i].errors@.map_values(|error: FieldError| error.code@));
            }
        },
        _ => {},
    }
}

/// A response body keeps what it is made of.
pub proof fn law_response_body(
    kind: &str,
    message: &str,
    code: Option<i32>,
    details: Vec<(String, Vec<String>)>,
    body: AppResponseError,
)
    requires
        call_ensures(AppResponseError::new, (kind, message, code, details), body),
    ensures
        body.kind@ == kind@,
        body.error_message@ == message@,
        body.code == code,
        body.details@ == details@,
{
}

/// The health check reports the code 200 and success if the database answers, and
/// else the code 500 and no success, and nothing else.
pub proof fn law_health_report(alive: bool, report: Value, body: String)
    requires
        call_ensures(health_value, (alive,), report),
        call_ensures(health_body, (alive,), body),
    ensures
        json_view(report) is Object,
        forall|key: Seq<char>| #[trigger]
            json_view(report)->Object_0.contains_key(key) <==> key == "code"@ || key == "success"@,
        json_view(report).member("code"@) == Some(
            JsonView::Text(
                if alive {
                    "200"@
                } else {
                    "500"@
                },
            ),
        ),
        json_view(report).member("success"@) == Some(JsonView::Bool(alive)),
        body@ == json_rendering(json_view(report)),
{
    reveal_strlit("code");
    reveal_strlit("success");
    assert("code"@.len() != "success"@.len());
}

/// The address of the interface is its host and its port.
pub proof fn law_server_address(host: &str, port: &str, url: String)
    requires
        call_ensures(server_url, (host, port), url),
    ensures
        url@ == host@ + ":"@ + port@,
{
}

/// A service error and a refused body become errors of the interface as they are.
pub proof fn law_errors_are_taken_over(
    error: ServiceError,
    rejection: JsonRejection,
    from_error: ApiError,
    from_rejection: ApiError,
)
    requires
        call_ensures(<ApiError as From<ServiceError>>::from, (error,), from_error),
        call_ensures(<ApiError as From<JsonRejection>>::from, (rejection,), from_rejection),
    ensures
        from_error == ApiError::SrvError(error),
        from_rejection == ApiError::JsonRejection(rejection),
{
}

} // verus!
