//! The errors of the services.

use crate::text::{concat2, concat3, decimal, decimal_u64};
use vstd::prelude::*;

verus! {

/// What can go wrong in a service.
///
/// Where another library reported the failure, the variant holds the text of
/// that library's error.
#[derive(Debug)]
pub enum ServiceError {
    DatabaseError(String),
    ResourceNotFound(String),
    InvalidCredentials(),
    UserAlreadyExist(String),
    ProjectAlreadyExist(String),
    ExchangeApiError { status_code: u32, message: String },
    ExchangeRequestConfigError(String),
    ExchangeConnectionError(String),
    InvalidEventFormat(String),
    InvalidScheduleFormat(String),
    ParseError(String),
    EnvVarError(String),
    EncodingError(String),
    SerializationError(String),
    InternalError(String),
}

/// The result of a service.
pub type ServiceResult<T> = Result<T, ServiceError>;

/// A [`ServiceError`] with its texts as character sequences.
pub enum ServiceErrorView {
    DatabaseError(Seq<char>),
    ResourceNotFound(Seq<char>),
    InvalidCredentials,
    UserAlreadyExist(Seq<char>),
    ProjectAlreadyExist(Seq<char>),
    ExchangeApiError(u32, Seq<char>),
    ExchangeRequestConfigError(Seq<char>),
    ExchangeConnectionError(Seq<char>),
    InvalidEventFormat(Seq<char>),
    InvalidScheduleFormat(Seq<char>),
    ParseError(Seq<char>),
    EnvVarError(Seq<char>),
    EncodingError(Seq<char>),
    SerializationError(Seq<char>),
    InternalError(Seq<char>),
}

impl View for ServiceError {
    type V = ServiceErrorView;

    open spec fn view(&self) -> ServiceErrorView {
        match *self {
            ServiceError::DatabaseError(text) => ServiceErrorView::DatabaseError(text@),
            ServiceError::ResourceNotFound(text) => ServiceErrorView::ResourceNotFound(text@),
            ServiceError::InvalidCredentials() => ServiceErrorView::InvalidCredentials,
            ServiceError::UserAlreadyExist(text) => ServiceErrorView::UserAlreadyExist(text@),
            ServiceError::ProjectAlreadyExist(text) => ServiceErrorView::ProjectAlreadyExist(text@),
            ServiceError::ExchangeApiError { status_code, message } =>
                ServiceErrorView::ExchangeApiError(status_code, message@),
            ServiceError::ExchangeRequestConfigError(text) =>
                ServiceErrorView::ExchangeRequestConfigError(text@),
            ServiceError::ExchangeConnectionError(text) =>
                ServiceErrorView::ExchangeConnectionError(text@),
            ServiceError::InvalidEventFormat(text) => ServiceErrorView::InvalidEventFormat(text@),
            ServiceError::InvalidScheduleFormat(text) =>
                ServiceErrorView::InvalidScheduleFormat(text@),
            ServiceError::ParseError(text) => ServiceErrorView::ParseError(text@),
            ServiceError::EnvVarError(text) => ServiceErrorView::EnvVarError(text@),
            ServiceError::EncodingError(text) => ServiceErrorView::EncodingError(text@),
            ServiceError::SerializationError(text) => ServiceErrorView::SerializationError(text@),
            ServiceError::InternalError(text) => ServiceErrorView::InternalError(text@),
        }
    }
}

impl ServiceErrorView {
    /// The message that a person reads.
    pub open spec fn message(self) -> Seq<char> {
        match self {
            ServiceErrorView::DatabaseError(text) => "Database error: "@ + text,
            ServiceErrorView::ResourceNotFound(text) => "Entity `"@ + text + "` is not found"@,
            ServiceErrorView::InvalidCredentials => "Invalid credentials"@,
            ServiceErrorView::UserAlreadyExist(text) =>
                "User with email `"@ + text + "` already exists"@,
            ServiceErrorView::ProjectAlreadyExist(text) =>
                "Project with code `"@ + text + "` already exists"@,
            ServiceErrorView::ExchangeApiError(status_code, text) =>
                "Exchange API error: "@ + decimal(status_code as int) + " - "@ + text,
            ServiceErrorView::ExchangeRequestConfigError(text) =>
                "Exchange request configuration error: "@ + text,
            ServiceErrorView::ExchangeConnectionError(text) =>
                "Exchange connection error: "@ + text,
            ServiceErrorView::InvalidEventFormat(text) => "Invalid event format: "@ + text,
            ServiceErrorView::InvalidScheduleFormat(text) => "Invalid schedule format: "@ + text,
            ServiceErrorView::ParseError(text) => "Parsing error: "@ + text,
            ServiceErrorView::EnvVarError(text) => "Environment variable not set: "@ + text,
            ServiceErrorView::EncodingError(text) => "Encoding error: "@ + text,
            ServiceErrorView::SerializationError(text) => "Serialization error: "@ + text,
            ServiceErrorView::InternalError(text) => text,
        }
    }
}

impl ServiceError {
    /// The calendar server answered with a status other than success.
    pub fn exchange_api_error(status_code: u32, message: &str) -> (error: ServiceError)
        ensures
            error@ == ServiceErrorView::ExchangeApiError(status_code, message@),
    {
        ServiceError::ExchangeApiError { status_code, message: message.to_owned() }
    }

    /// A calendar event cannot be turned into a task.
    pub fn invalid_event(reason: &str) -> (error: ServiceError)
        ensures
            error@ == ServiceErrorView::InvalidEventFormat(reason@),
    {
        ServiceError::InvalidEventFormat(reason.to_owned())
    }

    /// A schedule cannot be read.
    pub fn invalid_schedule(reason: &str) -> (error: ServiceError)
        ensures
            error@ == ServiceErrorView::InvalidScheduleFormat(reason@),
    {
        ServiceError::InvalidScheduleFormat(reason.to_owned())
    }

    /// A calendar request could not be set up.
    pub fn config_error(reason: &str) -> (error: ServiceError)
        ensures
            error@ == ServiceErrorView::ExchangeRequestConfigError(reason@),
    {
        ServiceError::ExchangeRequestConfigError(reason.to_owned())
    }

    /// A text cannot be parsed.
    pub fn parse_error(reason: &str) -> (error: ServiceError)
        ensures
            error@ == ServiceErrorView::ParseError(reason@),
    {
        ServiceError::ParseError(reason.to_owned())
    }

    /// An environment variable is not set.
    pub fn env_var_missing(var_name: &str) -> (error: ServiceError)
        ensures
            error@ == ServiceErrorView::EnvVarError(var_name@),
    {
        ServiceError::EnvVarError(var_name.to_owned())
    }

    /// The message that a person reads.
    pub fn message(&self) -> (message: String)
        ensures
            message@ == self@.message(),
    {
        match self {
            ServiceError::DatabaseError(text) => concat2("Database error: ", text.as_str()),
            ServiceError::ResourceNotFound(text) =>
                concat3("Entity `", text.as_str(), "` is not found"),
            ServiceError::InvalidCredentials() => "Invalid credentials".to_owned(),
            ServiceError::UserAlreadyExist(text) =>
                concat3("User with email `", text.as_str(), "` already exists"),
            ServiceError::ProjectAlreadyExist(text) =>
                concat3("Project with code `", text.as_str(), "` already exists"),
            ServiceError::ExchangeApiError { status_code, message } => {
                let code: String = decimal_u64(*status_code as u64);
                let front: String = concat3("Exchange API error: ", code.as_str(), " - ");
                concat2(front.as_str(), message.as_str())
            },
            ServiceError::ExchangeRequestConfigError(text) =>
                concat2("Exchange request configuration error: ", text.as_str()),
            ServiceError::ExchangeConnectionError(text) =>
                concat2("Exchange connection error: ", text.as_str()),
            ServiceError::InvalidEventFormat(text) =>
                concat2("Invalid event format: ", text.as_str()),
            ServiceError::InvalidScheduleFormat(text) =>
                concat2("Invalid schedule format: ", text.as_str()),
            ServiceError::ParseError(text) => concat2("Parsing error: ", text.as_str()),
            ServiceError::EnvVarError(text) =>
                concat2("Environment variable not set: ", text.as_str()),
            ServiceError::EncodingError(text) => concat2("Encoding error: ", text.as_str()),
            ServiceError::SerializationError(text) =>
                concat2("Serialization error: ", text.as_str()),
            ServiceError::InternalError(text) => text.clone(),
        }
    }
}

} // verus!
