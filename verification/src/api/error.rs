//! The errors of the HTTP interface and the responses that report them.

use crate::error::{ServiceError, ServiceErrorView};
use crate::text::concat2;
use vstd::prelude::*;

verus! {

/// The status of a response to a malformed or invalid request.
pub const BAD_REQUEST: u16 = 400;

/// The status of a response to wrong credentials.
pub const UNAUTHORIZED: u16 = 401;

/// The status of a response to a request for something that is not there.
pub const NOT_FOUND: u16 = 404;

/// The status of a response to any other failure.
pub const INTERNAL_SERVER_ERROR: u16 = 500;

/// A request body that was refused before it reached a handler.
#[derive(Debug)]
pub struct JsonRejection {
    /// The status of the refusal, such as `415 Unsupported Media Type`.
    pub status: String,
    /// The explanation that belongs into the response.
    pub body_text: String,
    /// The message of the refusal.
    pub message: String,
}

/// One violated rule of an input field.
#[derive(Debug)]
pub struct FieldError {
    /// The code of the rule.
    pub code: String,
}

/// The violated rules of one input field.
#[derive(Debug)]
pub struct FieldErrors {
    pub field: String,
    pub errors: Vec<FieldError>,
}

/// An input that violates the rules of its fields.
#[derive(Debug)]
pub struct ValidationErrors {
    /// The message that lists the violations.
    pub message: String,
    pub field_errors: Vec<FieldErrors>,
}

/// What can go wrong in a request.
#[derive(Debug)]
pub enum ApiError {
    SrvError(ServiceError),
    JsonRejection(JsonRejection),
    InvalidInputError(ValidationErrors),
    InvalidSchedule(String),
    ScheduleCalculation(String),
    Anyhow(String),
}

/// The body of a response that reports an error.
#[derive(Debug, Clone, PartialEq, Eq)]
pub struct AppResponseError {
    pub kind: String,
    pub error_message: String,
    pub code: Option<i32>,
    pub details: Vec<(String, Vec<String>)>,
}

/// An [`AppResponseError`] with its texts as character sequences.
pub struct ResponseErrorView {
    pub kind: Seq<char>,
    pub error_message: Seq<char>,
    pub code: Option<i32>,
    pub details: Seq<(Seq<char>, Seq<Seq<char>>)>,
}

/// The texts of a list of strings.
pub open spec fn texts(list: Seq<String>) -> Seq<Seq<char>> {
    list.map_values(|text: String| text@)
}

impl View for AppResponseError {
    type V = ResponseErrorView;

    open spec fn view(&self) -> ResponseErrorView {
        ResponseErrorView {
            kind: self.kind@,
            error_message: self.error_message@,
            code: self.code,
            details: self.details@.map_values(
                |detail: (String, Vec<String>)| (detail.0@, texts(detail.1@)),
            ),
        }
    }
}

impl AppResponseError {
    /// Puts a response body together.
    pub fn new(
        kind: &str,
        message: &str,
        code: Option<i32>,
        details: Vec<(String, Vec<String>)>,
    ) -> (response: AppResponseError)
        ensures
            response.kind@ == kind@,
            response.error_message@ == message@,
            response.code == code,
            response.details == details,
    {
        AppResponseError { kind: kind.to_owned(), error_message: message.to_owned(), code, details }
    }
}

impl FieldErrors {
    /// The field with the codes of its violated rules.
    pub open spec fn detail(self) -> (Seq<char>, Seq<Seq<char>>) {
        (self.field@, self.errors@.map_values(|error: FieldError| error.code@))
    }
}

impl ApiError {
    /// The message of the error.
    pub open spec fn spec_message(self) -> Seq<char> {
        match self {
            ApiError::SrvError(error) => error@.message(),
            ApiError::JsonRejection(rejection) => rejection.message@,
            ApiError::InvalidInputError(errors) => errors.message@,
            ApiError::InvalidSchedule(text) => "Invalid schedule format: "@ + text@,
            ApiError::ScheduleCalculation(text) => "Failed to calculate next run time: "@ + text@,
            ApiError::Anyhow(_) => "an internal server error occurred"@,
        }
    }

    /// The status that the error is answered with.
    pub open spec fn spec_status(self) -> u16 {
        match self {
            ApiError::JsonRejection(_) | ApiError::InvalidInputError(_) => BAD_REQUEST,
            ApiError::SrvError(error) => match error@ {
                ServiceErrorView::InvalidCredentials => UNAUTHORIZED,
                ServiceErrorView::ResourceNotFound(_) => NOT_FOUND,
                _ => INTERNAL_SERVER_ERROR,
            },
            _ => INTERNAL_SERVER_ERROR,
        }
    }

    /// What the response says of the causes.
    pub open spec fn spec_details(self) -> Seq<(Seq<char>, Seq<Seq<char>>)> {
        match self {
            ApiError::JsonRejection(rejection) => seq![
                (rejection.status@, seq![rejection.body_text@]),
            ],
            ApiError::InvalidInputError(errors) => errors.field_errors@.map_values(
                |errors: FieldErrors| errors.detail(),
            ),
            _ => seq![],
        }
    }

    /// The response that reports the error.
    pub open spec fn spec_response(self) -> ResponseErrorView {
        ResponseErrorView {
            kind: status_kind(self.spec_status()),
            error_message: self.spec_message(),
            code: None,
            details: self.spec_details(),
        }
    }

    /// The message of the error.
    pub fn message(&self) -> (message: String)
        ensures
            message@ == self.spec_message(),
    {
        match self {
            ApiError::SrvError(error) => error.message(),
            ApiError::JsonRejection(rejection) => rejection.message.clone(),
            ApiError::InvalidInputError(errors) => errors.message.clone(),
            ApiError::InvalidSchedule(text) => concat2("Invalid schedule format: ", text.as_str()),
            ApiError::ScheduleCalculation(text) =>
                concat2("Failed to calculate next run time: ", text.as_str()),
            ApiError::Anyhow(_) => "an internal server error occurred".to_owned(),
        }
    }

    /// Turns the error into the status and the body of a response.
    pub fn response(self) -> (response: (u16, AppResponseError))
        ensures
            response.0 == self.spec_status(),
            response.1@ == self.spec_response(),
    {
        let message: String = self.message();
        let mut details: Vec<(String, Vec<String>)> = Vec::new();
        let ghost wanted = self.spec_details();
        let (kind, status): (&str, u16) = match self {
            ApiError::JsonRejection(rejection) => {
                let mut texts_of: Vec<String> = Vec::new();
                texts_of.push(rejection.body_text);
                details.push((rejection.status, texts_of));
                assert(texts(texts_of@) =~= seq![rejection.body_text@]);
                ("INVALID_INPUT_ERROR", BAD_REQUEST)
            },
            ApiError::SrvError(ServiceError::InvalidCredentials()) => (
                "INVALID_CREDENTIALS",
                UNAUTHORIZED,
            ),
            ApiError::SrvError(ServiceError::ResourceNotFound(_)) => (
                "RESOURCE_NOT_FOUND",
                NOT_FOUND,
            ),
            ApiError::SrvError(_) => ("INTERNAL_SERVER_ERROR", INTERNAL_SERVER_ERROR),
            ApiError::InvalidInputError(errors) => {
                details = field_details(&errors.field_errors);
                ("INVALID_INPUT_ERROR", BAD_REQUEST)
            },
            ApiError::InvalidSchedule(_) => ("INTERNAL_SERVER_ERROR", INTERNAL_SERVER_ERROR),
            ApiError::ScheduleCalculation(_) => ("INTERNAL_SERVER_ERROR", INTERNAL_SERVER_ERROR),
            ApiError::Anyhow(_) => ("INTERNAL_SERVER_ERROR", INTERNAL_SERVER_ERROR),
        };
        let body: AppResponseError = AppResponseError::new(kind, message.as_str(), None, details);
        assert(body@.details =~= wanted);
        (status, body)
    }
}

/// The kind that a response with this status names.
pub open spec fn status_kind(status: u16) -> Seq<char> {
    if status == BAD_REQUEST {
        "INVALID_INPUT_ERROR"@
    } else if status == UNAUTHORIZED {
        "INVALID_CREDENTIALS"@
    } else if status == NOT_FOUND {
        "RESOURCE_NOT_FOUND"@
    } else {
        "INTERNAL_SERVER_ERROR"@
    }
}

/// Lists each field with the codes of its violated rules, in the given order.
fn field_details(fields: &Vec<FieldErrors>) -> (details: Vec<(String, Vec<String>)>)
    ensures
        details@.map_values(|detail: (String, Vec<String>)| (detail.0@, texts(detail.1@)))
            == fields@.map_values(|errors: FieldErrors| errors.detail()),
{
    let mut details: Vec<(String, Vec<String>)> = Vec::new();
    let mut i: usize = 0;
    while i < fields.len()
        invariant
            i == details@.len(),
            i <= fields@.len(),
            forall|k: int|
                0 <= k < i ==> (details@[k].0@, texts((#[trigger] details@[k]).1@))
                    == fields@[k].detail(),
        decreases fields@.len() - i,
    {
        let errors: &Vec<FieldError> = &fields[i].errors;
        let mut codes: Vec<String> = Vec::new();
        let mut j: usize = 0;
        while j < errors.len()
            invariant
                j == codes@.len(),
                j <= errors@.len(),
                forall|k: int| 0 <= k < j ==> (#[trigger] codes@[k])@ == errors@[k].code@,
            decreases errors@.len() - j,
        {
            codes.push(errors[j].code.clone());
            j += 1;
        }
        assert(texts(codes@) =~= errors@.map_values(|error: FieldError| error.code@));
        details.push((fields[i].field.clone(), codes));
        i += 1;
    }
    assert(details@.map_values(|detail: (String, Vec<String>)| (detail.0@, texts(detail.1@)))
        =~= fields@.map_values(|errors: FieldErrors| errors.detail()));
    details
}

impl From<JsonRejection> for ApiError {
    fn from(rejection: JsonRejection) -> (error: Self) {
        ApiError::JsonRejection(rejection)
    }
}

impl vstd::std_specs::convert::FromSpecImpl<JsonRejection> for ApiError {
    open spec fn obeys_from_spec() -> bool {
        true
    }

    open spec fn from_spec(rejection: JsonRejection) -> Self {
        ApiError::JsonRejection(rejection)
    }
}

impl From<ServiceError> for ApiError {
    fn from(error: ServiceError) -> (api_error: Self) {
        ApiError::SrvError(error)
    }
}

impl vstd::std_specs::convert::FromSpecImpl<ServiceError> for ApiError {
    open spec fn obeys_from_spec() -> bool {
        true
    }

    open spec fn from_spec(error: ServiceError) -> Self {
        ApiError::SrvError(error)
    }
}

/// Every error is answered with one of four statuses, and the kind that the
/// response names tells which: two errors whose responses name the same kind
/// are answered with the same status.
pub proof fn law_kind_and_status_agree(first: ApiError, second: ApiError)
    ensures
        [BAD_REQUEST, UNAUTHORIZED, NOT_FOUND, INTERNAL_SERVER_ERROR]@.contains(
            first.spec_status(),
        ),
        first.spec_response().kind == second.spec_response().kind <==> first.spec_status()
            == second.spec_status(),
{
    reveal_strlit("INVALID_INPUT_ERROR");
    reveal_strlit("INVALID_CREDENTIALS");
    reveal_strlit("RESOURCE_NOT_FOUND");
    reveal_strlit("INTERNAL_SERVER_ERROR");
    let statuses = [BAD_REQUEST, UNAUTHORIZED, NOT_FOUND, INTERNAL_SERVER_ERROR]@;
    assert(statuses[0] == BAD_REQUEST && statuses[1] == UNAUTHORIZED && statuses[2] == NOT_FOUND
        && statuses[3] == INTERNAL_SERVER_ERROR);
    assert("INVALID_INPUT_ERROR"@[8] == 'I');
    assert("INVALID_CREDENTIALS"@[8] == 'C');
    assert("INVALID_INPUT_ERROR"@.len() == 19 && "RESOURCE_NOT_FOUND"@.len() == 18
        && "INTERNAL_SERVER_ERROR"@.len() == 21);
}

/// A failure inside the services is reported as an internal error, and only
/// the message tells more: the response lists no causes.
pub proof fn law_only_input_errors_list_causes(error: ApiError)
    requires
        error.spec_details().len() > 0,
    ensures
        error.spec_status() == BAD_REQUEST,
{
}

} // verus!
