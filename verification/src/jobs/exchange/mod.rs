//! Tasks from the events of a calendar on an Exchange server.

use crate::error::{ServiceError, ServiceErrorView, ServiceResult};
use vstd::prelude::*;

pub mod calendar;
pub mod client;
pub mod processor;
pub mod time;

verus! {

/// How long a connection to the server may take to open, in seconds.
pub const CONNECTION_TIMEOUT: u64 = 1024;

/// How long a request may take, in seconds.
pub const REQUEST_TIMEOUT: u64 = 15;

/// The pause before each look at the calendar, in seconds.
pub const QUERY_INTERVAL: u64 = 15;

/// The mark that stands before and after the bot's options in an event.
pub const EVENT_SHEBANG: &'static str = "[PLATFORM_BOT]";

/// The regular expression for the options between the marks.
pub const EVENT_SHEBANG_REGEXP: &'static str =
    "(?:\\[PLATFORM_BOT\\])([\\s\\S]*)(?:\\[PLATFORM_BOT\\])";

/// The name under which the bot asks the server.
pub const USER_AGENT: &'static str = "Platform-Bot";

/// The variable that holds the address of the server.
pub const URL_VARIABLE: &'static str = "EXCHANGE_URL";

/// The variable that holds the name of the user.
pub const LOGIN_VARIABLE: &'static str = "EXCHANGE_LOGIN";

/// The variable that holds the password of the user.
pub const PASSWORD_VARIABLE: &'static str = "EXCHANGE_PASSWORD";

/// Where an event takes place.
#[derive(Debug)]
pub struct EventLocation {
    pub display_name: String,
}

/// The text of an event.
#[derive(Debug)]
pub struct EventBody {
    pub content: String,
    pub content_type: String,
}

/// A date and time in a time zone.
#[derive(Debug)]
pub struct EventDate {
    pub date_time: String,
    pub timezone: String,
}

/// An event of the calendar.
#[derive(Debug)]
pub struct ExchangeEvent {
    pub id: String,
    pub subject: String,
    pub location: EventLocation,
    pub start: EventDate,
    pub last_modified: String,
    pub body: EventBody,
}

/// What the server answers: the events of the asked time.
#[derive(Debug)]
pub struct ExchangeResponse {
    pub value: Vec<ExchangeEvent>,
}

/// Where the calendar is, and who may read it.
#[derive(Debug)]
pub struct Credentials {
    pub server: String,
    pub username: String,
    pub password: String,
}

impl Credentials {
    /// Takes the values of the three variables. The first one that is not set
    /// is the error.
    pub fn from_variables(
        server: Option<String>,
        username: Option<String>,
        password: Option<String>,
    ) -> (credentials: ServiceResult<Credentials>)
        ensures
            match (server, username, password) {
                (None, _, _) => credentials matches Err(error) && error@
                    == ServiceErrorView::EnvVarError(URL_VARIABLE@),
                (Some(_), None, _) => credentials matches Err(error) && error@
                    == ServiceErrorView::EnvVarError(LOGIN_VARIABLE@),
                (Some(_), Some(_), None) => credentials matches Err(error) && error@
                    == ServiceErrorView::EnvVarError(PASSWORD_VARIABLE@),
                (Some(server), Some(username), Some(password)) => credentials matches Ok(given)
                    && given == (Credentials { server, username, password }),
            },
    {
        match server {
            None => Err(ServiceError::env_var_missing(URL_VARIABLE)),
            Some(server) => match username {
                None => Err(ServiceError::env_var_missing(LOGIN_VARIABLE)),
                Some(username) => match password {
                    None => Err(ServiceError::env_var_missing(PASSWORD_VARIABLE)),
                    Some(password) => Ok(Credentials { server, username, password }),
                },
            },
        }
    }
}

} // verus!
