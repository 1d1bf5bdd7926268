//! What is asked of the server, and what is read from its answer.

use crate::entity::time::UtcTime;
use crate::error::{ServiceError, ServiceErrorView, ServiceResult};
use crate::jobs::exchange::time::{format_utc, in_calendar, utc_text, REQUEST_TIME_LAYOUT};
use crate::jobs::exchange::{
    ExchangeResponse, CONNECTION_TIMEOUT, REQUEST_TIMEOUT, USER_AGENT,
};
use crate::text::{concat2, concat3};
use vstd::prelude::*;
use vstd::utf8::{decode_utf8, valid_utf8};

verus! {

/// The status of a request that succeeded.
pub const SUCCESS: u32 = 200;

/// Asks for the text of an event without markup.
pub const TEXT_HEADER: &'static str = "Prefer: outlook.body-content-type=\"text\"";

/// Asks for points in time by the clock of Moscow.
pub const TIMEZONE_HEADER: &'static str = "Prefer: outlook.timezone=\"Europe/Moscow\"";

// ---------------------------------------------------------------------------
// The answer of the server
// ---------------------------------------------------------------------------

/// The text that the standard library reads from bytes, with what is no UTF-8
/// replaced.
pub uninterp spec fn utf8_lossy(bytes: Seq<u8>) -> Seq<char>;

/// `String::from_utf8_lossy`: the text depends on the bytes alone, and is the
/// one that they encode where they are UTF-8.
#[verifier::external_body]
fn from_utf8_lossy(bytes: &Vec<u8>) -> (text: String)
    ensures
        text@ == utf8_lossy(bytes@),
        valid_utf8(bytes@) ==> text@ == decode_utf8(bytes@),
{
    String::from_utf8_lossy(bytes).into_owned()
}

/// The bytes of an answer that have come in so far.
#[derive(Debug)]
pub struct ResponseCollector(pub Vec<u8>);

impl ResponseCollector {
    /// A collector without bytes.
    pub fn new() -> (collector: ResponseCollector)
        ensures
            collector.0@ == Seq::<u8>::empty(),
    {
        ResponseCollector(Vec::new())
    }

    /// Takes in more bytes, and says how many.
    pub fn write(&mut self, data: &[u8]) -> (taken: usize)
        ensures
            final(self).0@ == old(self).0@ + data@,
            taken == data@.len(),
    {
        self.0.extend_from_slice(data);
        assert(self.0@ =~= old(self).0@ + data@);
        data.len()
    }
}

/// Judges the text of an answer with a status. An answer without success is an
/// error that holds its text.
pub fn response_content(status: u32, content: String) -> (text: ServiceResult<String>)
    ensures
        match text {
            Ok(text) => status == SUCCESS && text@ == content@,
            Err(error) => status != SUCCESS && error@ == ServiceErrorView::ExchangeApiError(
                status,
                content@,
            ),
        },
{
    if status != SUCCESS {
        Err(ServiceError::exchange_api_error(status, content.as_str()))
    } else {
        Ok(content)
    }
}

/// The text of an answer: the one that its bytes encode, where they are UTF-8.
pub open spec fn collected_text(bytes: Seq<u8>) -> Seq<char> {
    if valid_utf8(bytes) {
        decode_utf8(bytes)
    } else {
        utf8_lossy(bytes)
    }
}

/// The text of an answer with a status. An answer without success is an error
/// that holds its text.
pub fn response_text(status: u32, collector: &ResponseCollector) -> (text: ServiceResult<String>)
    ensures
        match text {
            Ok(text) => status == SUCCESS && text@ == collected_text(collector.0@),
            Err(error) => status != SUCCESS && error@ == ServiceErrorView::ExchangeApiError(
                status,
                collected_text(collector.0@),
            ),
        },
{
    response_content(status, from_utf8_lossy(&collector.0))
}

/// Ends a request once its answer has been parsed. Only an answer that could be
/// parsed leaves the collector empty.
pub fn take_response(
    parsed: Result<ExchangeResponse, String>,
    collector: &mut ResponseCollector,
) -> (response: ServiceResult<ExchangeResponse>)
    ensures
        match parsed {
            Ok(parsed) => response == Ok::<ExchangeResponse, ServiceError>(parsed)
                && final(collector).0@ == Seq::<u8>::empty(),
            Err(reason) => (response matches Err(error) && error@ == ServiceErrorView::ParseError(
                "Failed to parse exchange response: "@ + reason@,
            )) && *final(collector) == *old(collector),
        },
{
    match parsed {
        Ok(response) => {
            collector.0.clear();
            Ok(response)
        },
        Err(reason) => Err(
            ServiceError::parse_error(
                concat2("Failed to parse exchange response: ", reason.as_str()).as_str(),
            ),
        ),
    }
}

// ---------------------------------------------------------------------------
// The request
// ---------------------------------------------------------------------------

/// One thing to set up before the first request.
#[derive(Debug)]
pub enum Setting {
    /// Add a line to the headers.
    Header(String),
    /// Choose how the bot proves who it is.
    Authentication { ntlm: bool, negotiate: bool },
    Username(String),
    Password(String),
    /// How long a connection may take to open, in seconds.
    ConnectTimeout(u64),
    /// How long a request may take, in seconds.
    Timeout(u64),
    UserAgent(String),
    /// Send the headers that have been added.
    Headers,
}

/// A [`Setting`] with its text as a character sequence.
pub enum SettingView {
    Header(Seq<char>),
    Authentication(bool, bool),
    Username(Seq<char>),
    Password(Seq<char>),
    ConnectTimeout(u64),
    Timeout(u64),
    UserAgent(Seq<char>),
    Headers,
}

impl View for Setting {
    type V = SettingView;

    open spec fn view(&self) -> SettingView {
        match *self {
            Setting::Header(line) => SettingView::Header(line@),
            Setting::Authentication { ntlm, negotiate } => SettingView::Authentication(
                ntlm,
                negotiate,
            ),
            Setting::Username(name) => SettingView::Username(name@),
            Setting::Password(password) => SettingView::Password(password@),
            Setting::ConnectTimeout(seconds) => SettingView::ConnectTimeout(seconds),
            Setting::Timeout(seconds) => SettingView::Timeout(seconds),
            Setting::UserAgent(name) => SettingView::UserAgent(name@),
            Setting::Headers => SettingView::Headers,
        }
    }
}

impl SettingView {
    /// What is said when the setting cannot be made, before the reason.
    pub open spec fn complaint(self) -> Seq<char> {
        match self {
            SettingView::Header(_) => "Failed to create request headers: "@,
            SettingView::Authentication(_, _) => "Failed to set http auth: "@,
            SettingView::Username(_) => "Failed to set username: "@,
            SettingView::Password(_) => "Failed to set password: "@,
            SettingView::ConnectTimeout(_) => "Failed to set connection timeout: "@,
            SettingView::Timeout(_) => "Failed to set request timeout: "@,
            SettingView::UserAgent(_) => "Failed to set user agent: "@,
            SettingView::Headers => "Failed to set headers: "@,
        }
    }
}

impl Setting {
    /// What is said when the setting cannot be made, before the reason.
    fn complaint(&self) -> (complaint: &'static str)
        ensures
            complaint@ == self@.complaint(),
    {
        match self {
            Setting::Header(_) => "Failed to create request headers: ",
            Setting::Authentication { .. } => "Failed to set http auth: ",
            Setting::Username(_) => "Failed to set username: ",
            Setting::Password(_) => "Failed to set password: ",
            Setting::ConnectTimeout(_) => "Failed to set connection timeout: ",
            Setting::Timeout(_) => "Failed to set request timeout: ",
            Setting::UserAgent(_) => "Failed to set user agent: ",
            Setting::Headers => "Failed to set headers: ",
        }
    }

    /// The error when the setting cannot be made.
    pub fn failure(&self, reason: &str) -> (error: ServiceError)
        ensures
            error@ == ServiceErrorView::ExchangeRequestConfigError(self@.complaint() + reason@),
    {
        ServiceError::config_error(concat2(self.complaint(), reason).as_str())
    }
}

/// Settings as their views.
pub open spec fn setting_views(settings: Seq<Setting>) -> Seq<SettingView> {
    settings.map_values(|setting: Setting| setting@)
}

/// The settings for a user, in the order in which they are made.
pub open spec fn settings_for(username: Seq<char>, password: Seq<char>) -> Seq<SettingView> {
    seq![
        SettingView::Header(TEXT_HEADER@),
        SettingView::Header(TIMEZONE_HEADER@),
        SettingView::Authentication(true, false),
        SettingView::Username(username),
        SettingView::Password(password),
        SettingView::ConnectTimeout(CONNECTION_TIMEOUT),
        SettingView::Timeout(REQUEST_TIMEOUT),
        SettingView::UserAgent(USER_AGENT@),
        SettingView::Headers,
    ]
}

/// The address of the events between two points in time.
pub open spec fn events_url(base_url: Seq<char>, start: Seq<char>, end: Seq<char>) -> Seq<char> {
    base_url + "/api/v2.0/me/calendarview?startDateTime="@ + start + "&endDateTime="@ + end
        + "&$select=Subject,Start,Location,Body,LastModifiedDateTime"@
}

/// What is needed to ask for the events of a calendar.
#[derive(Debug)]
pub struct ExchangeClient {
    pub base_url: String,
    pub settings: Vec<Setting>,
}

impl ExchangeClient {
    /// A client for the calendar of a user.
    pub fn new(server: String, username: String, password: String) -> (client: ExchangeClient)
        ensures
            client.base_url == server,
            setting_views(client.settings@) == settings_for(username@, password@),
    {
        let mut settings: Vec<Setting> = Vec::new();
        settings.push(Setting::Header(TEXT_HEADER.to_owned()));
        settings.push(Setting::Header(TIMEZONE_HEADER.to_owned()));
        settings.push(Setting::Authentication { ntlm: true, negotiate: false });
        settings.push(Setting::Username(username));
        settings.push(Setting::Password(password));
        settings.push(Setting::ConnectTimeout(CONNECTION_TIMEOUT));
        settings.push(Setting::Timeout(REQUEST_TIMEOUT));
        settings.push(Setting::UserAgent(USER_AGENT.to_owned()));
        settings.push(Setting::Headers);
        assert(setting_views(settings@) =~= settings_for(username@, password@));
        ExchangeClient { base_url: server, settings }
    }

    /// The address of the events between two points in time.
    pub fn request_url(&self, start: UtcTime, end: UtcTime) -> (url: String)
        requires
            in_calendar(start.seconds),
            in_calendar(end.seconds),
        ensures
            url@ == events_url(
                self.base_url@,
                utc_text(start.seconds, REQUEST_TIME_LAYOUT@),
                utc_text(end.seconds, REQUEST_TIME_LAYOUT@),
            ),
    {
        let from: String = format_utc(start.seconds, REQUEST_TIME_LAYOUT);
        let to: String = format_utc(end.seconds, REQUEST_TIME_LAYOUT);
        self.events_url(from.as_str(), to.as_str())
    }

    /// The address of the events between two points in time, given as texts.
    pub fn events_url(&self, start: &str, end: &str) -> (url: String)
        ensures
            url@ == events_url(self.base_url@, start@, end@),
    {
        let mut url: String = concat3(
            self.base_url.as_str(),
            "/api/v2.0/me/calendarview?startDateTime=",
            start,
        );
        url.append("&endDateTime=");
        url.append(end);
        url.append("&$select=Subject,Start,Location,Body,LastModifiedDateTime");
        url
    }

    /// The error when the address cannot be set.
    pub fn url_failure(reason: &str) -> (error: ServiceError)
        ensures
            error@ == ServiceErrorView::ExchangeRequestConfigError(
                "Failed to set request url: "@ + reason@,
            ),
    {
        ServiceError::config_error(concat2("Failed to set request url: ", reason).as_str())
    }

    /// The error when the request cannot be made.
    pub fn request_failure(reason: &str) -> (error: ServiceError)
        ensures
            error@ == ServiceErrorView::InternalError(reason@),
    {
        ServiceError::InternalError(reason.to_owned())
    }

    /// The error when the answer has no status.
    pub fn status_failure(reason: &str) -> (error: ServiceError)
        ensures
            error@ == ServiceErrorView::ExchangeConnectionError(reason@),
    {
        ServiceError::ExchangeConnectionError(reason.to_owned())
    }
}

} // verus!
