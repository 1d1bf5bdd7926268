//! Messages to a Zulip server.

use crate::json::{
    json_as_str, json_get, json_is_null, json_parse, json_parsed, json_rendering, json_to_string,
    json_view, text_member, JsonView,
};
use crate::text::{concat2, decimal, decimal_u64, same_text};
use serde_json::Value;
use vstd::prelude::*;

verus! {

/// The name of the action that sends a message to Zulip.
pub const ZULIP: &'static str = "zulip";

/// How many messages can wait to be sent.
pub const CHANNEL_BUFFER_SIZE: usize = 500;

/// How many seconds a connection may take.
pub const CONNECTION_TIMEOUT: u64 = 1024;

/// How many seconds a request may take.
pub const REQUEST_TIMEOUT: u64 = 5;

/// What a server answers to a message that it took.
pub const SUCCESS: &'static str = "success";

/// A message to a channel.
#[derive(Debug)]
pub struct Msg {
    pub topic: Option<String>,
    pub channel: String,
    pub message: String,
}

/// The Zulip server and how to log in.
#[derive(Debug)]
pub struct Options {
    pub url: String,
    pub login: String,
    pub token: String,
    pub max_request: usize,
}

/// The answer of a server to a message.
#[derive(Debug)]
pub struct PostMessageResponse {
    pub id: i32,
    pub msg: String,
    pub result: String,
}

/// A client of a Zulip server.
#[derive(Debug)]
pub struct ZulipClient {
    pub options: Options,
}

/// The output that sends messages to a Zulip server.
#[derive(Debug)]
pub struct ZulipOutput {
    pub client: ZulipClient,
}

/// Why a message was not sent. Where another library reported the failure, the
/// variant holds the text of that library's error.
#[derive(Debug)]
pub enum RequestError {
    QueueError,
    StatusCodeError(u16),
    ParseError(String),
    ReqwestError(String),
    SendError(String),
    RecvError(String),
    SemaphoreError(String),
    MaxRetriesExceeded,
}

impl RequestError {
    /// The message that a person reads.
    pub open spec fn spec_message(self) -> Seq<char> {
        match self {
            RequestError::QueueError => "Failed to submit chat message: Queue is full"@,
            RequestError::StatusCodeError(code) => "Request returned an invalid status code: "@
                + decimal(code as int),
            RequestError::ParseError(text) => "Failed to parse response: "@ + text@,
            RequestError::ReqwestError(text) => "Request failed: "@ + text@,
            RequestError::SendError(text) => "Message submission failed: "@ + text@,
            RequestError::RecvError(text) => "Failed to receive response: "@ + text@,
            RequestError::SemaphoreError(text) => "Failed to acquire request lock: "@ + text@,
            RequestError::MaxRetriesExceeded => "Max retries exceeded"@,
        }
    }

    /// The message that a person reads.
    pub fn message(&self) -> (message: String)
        ensures
            message@ == self.spec_message(),
    {
        match self {
            RequestError::QueueError => "Failed to submit chat message: Queue is full".to_owned(),
            RequestError::StatusCodeError(code) => concat2(
                "Request returned an invalid status code: ",
                decimal_u64(*code as u64).as_str(),
            ),
            RequestError::ParseError(text) => concat2("Failed to parse response: ", text.as_str()),
            RequestError::ReqwestError(text) => concat2("Request failed: ", text.as_str()),
            RequestError::SendError(text) => concat2("Message submission failed: ", text.as_str()),
            RequestError::RecvError(text) =>
                concat2("Failed to receive response: ", text.as_str()),
            RequestError::SemaphoreError(text) =>
                concat2("Failed to acquire request lock: ", text.as_str()),
            RequestError::MaxRetriesExceeded => "Max retries exceeded".to_owned(),
        }
    }
}

/// The texts of a list of pairs.
pub open spec fn pair_texts(pairs: Seq<(String, String)>) -> Seq<(Seq<char>, Seq<char>)> {
    pairs.map_values(|pair: (String, String)| (pair.0@, pair.1@))
}

/// Whether an HTTP status means success.
pub open spec fn is_success(status: u16) -> bool {
    200 <= status <= 299
}

/// Tests whether an HTTP status means success.
pub fn status_succeeded(status: u16) -> (succeeded: bool)
    ensures
        succeeded == is_success(status),
{
    200 <= status && status <= 299
}

/// A [`Msg`] with its texts as character sequences.
pub struct MsgView {
    pub topic: Option<Seq<char>>,
    pub channel: Seq<char>,
    pub message: Seq<char>,
}

impl View for Msg {
    type V = MsgView;

    open spec fn view(&self) -> MsgView {
        MsgView {
            topic: match self.topic {
                Some(topic) => Some(topic@),
                None => None,
            },
            channel: self.channel@,
            message: self.message@,
        }
    }
}

/// The topic that an object names. It need not name one, and null names none; the
/// outer option is empty where the member is neither a text nor null.
pub open spec fn topic_of(contents: JsonView) -> Option<Option<Seq<char>>> {
    match contents.member("topic"@) {
        None | Some(JsonView::Null) => Some(None),
        Some(JsonView::Text(topic)) => Some(Some(topic)),
        Some(_) => None,
    }
}

/// The message that an object describes.
pub open spec fn message_of(contents: JsonView) -> Option<MsgView> {
    match (
        contents.text_member("channel"@),
        contents.text_member("message"@),
        topic_of(contents),
    ) {
        (Some(channel), Some(message), Some(topic)) => Some(MsgView { topic, channel, message }),
        _ => None,
    }
}

/// The message that a text describes, where the text is one that is written for
/// a JSON value.
pub open spec fn message_in(text: Seq<char>) -> Option<MsgView> {
    match json_parsed(text) {
        Ok(contents) => if json_rendering(contents) == text {
            message_of(contents)
        } else {
            None
        },
        Err(_) => None,
    }
}

/// An optional message as its view.
pub open spec fn optional_message(msg: Option<Msg>) -> Option<MsgView> {
    match msg {
        Some(msg) => Some(msg@),
        None => None,
    }
}

impl Msg {
    /// Takes the message out of a JSON value.
    pub fn of_value(value: &Value) -> (msg: Option<Msg>)
        ensures
            optional_message(msg) == message_of(json_view(*value)),
    {
        let topic: Option<String> = match json_get(value, "topic") {
            None => None,
            Some(member) => match json_as_str(member) {
                Some(topic) => Some(topic.to_owned()),
                None => if json_is_null(member) {
                    None
                } else {
                    return None;
                },
            },
        };
        match (text_member(value, "channel"), text_member(value, "message")) {
            (Some(channel), Some(message)) => Some(
                Msg { topic, channel: channel.to_owned(), message: message.to_owned() },
            ),
            _ => None,
        }
    }

    /// Reads the options of an action back that were written as the workers write
    /// them: with [`notification_options`], or in the same form. Of a text in any
    /// other form this does not tell whether it describes a message.
    ///
    /// [`notification_options`]: crate::executor::actions::notification_options
    pub fn read_written(options: &str) -> (msg: Option<Msg>)
        ensures
            optional_message(msg) == message_in(options@),
            forall|contents: JsonView|
                contents.is_flat() && options@ == #[trigger] json_rendering(contents)
                    ==> optional_message(msg) == message_of(contents),
    {
        match json_parse(options) {
            Ok(value) => if same_text(json_to_string(&value).as_str(), options) {
                Msg::of_value(&value)
            } else {
                None
            },
            Err(_) => None,
        }
    }

    /// The topic; a message without one has the empty topic.
    pub open spec fn topic_text(self) -> Seq<char> {
        match self.topic {
            Some(topic) => topic@,
            None => Seq::empty(),
        }
    }
}

impl ZulipClient {
    /// A client with these options; there is none where the options could not
    /// be read.
    pub fn new(options: Option<Options>) -> (client: Result<ZulipClient, String>)
        ensures
            match options {
                Some(options) => client matches Ok(client) && client.options == options,
                None => client matches Err(reason) && reason@ == "Invalid Zulip configuration"@,
            },
    {
        match options {
            Some(options) => Ok(ZulipClient { options }),
            None => Err("Invalid Zulip configuration".to_owned()),
        }
    }

    /// The query of the request that posts `msg`.
    pub fn query(msg: &Msg) -> (query: Vec<(String, String)>)
        ensures
            pair_texts(query@) == seq![
                ("type"@, "stream"@),
                ("to"@, msg.channel@),
                ("topic"@, msg.topic_text()),
                ("content"@, msg.message@),
            ],
    {
        let topic: String = match &msg.topic {
            Some(topic) => topic.clone(),
            None => String::new(),
        };
        let mut query: Vec<(String, String)> = Vec::new();
        query.push(("type".to_owned(), "stream".to_owned()));
        query.push(("to".to_owned(), msg.channel.clone()));
        query.push(("topic".to_owned(), topic));
        query.push(("content".to_owned(), msg.message.clone()));
        assert(pair_texts(query@) =~= seq![
            ("type"@, "stream"@),
            ("to"@, msg.channel@),
            ("topic"@, msg.topic_text()),
            ("content"@, msg.message@),
        ]);
        query
    }

    /// Judges the status of the answer to a message.
    pub fn check_status(status: u16) -> (outcome: Result<(), RequestError>)
        ensures
            match outcome {
                Ok(_) => is_success(status),
                Err(error) => !is_success(status) && error == RequestError::StatusCodeError(status),
            },
    {
        if status_succeeded(status) {
            Ok(())
        } else {
            Err(RequestError::StatusCodeError(status))
        }
    }

    /// Judges the answer to a message: the server took it only if the answer
    /// says so.
    pub fn check_response(response: PostMessageResponse) -> (outcome: Result<(), RequestError>)
        ensures
            match outcome {
                Ok(_) => response.result@ == SUCCESS@,
                Err(error) => response.result@ != SUCCESS@ && error == RequestError::SendError(
                    response.msg,
                ),
            },
    {
        if same_text(response.result.as_str(), SUCCESS) {
            Ok(())
        } else {
            Err(RequestError::SendError(response.msg))
        }
    }
}

impl ZulipOutput {
    /// The output with these options.
    pub open spec fn of(options: Options) -> ZulipOutput {
        ZulipOutput { client: ZulipClient { options } }
    }

    /// An output with these options; there is none where the options could not
    /// be read.
    pub fn new(options: Option<Options>) -> (output: Result<ZulipOutput, String>)
        ensures
            match options {
                Some(options) => output == Ok::<ZulipOutput, String>(ZulipOutput::of(options)),
                None => output matches Err(reason) && reason@ == "Invalid Zulip configuration"@,
            },
    {
        match ZulipClient::new(options) {
            Ok(client) => Ok(ZulipOutput { client }),
            Err(reason) => Err(reason),
        }
    }
}

} // verus!
