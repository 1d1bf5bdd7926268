//! Laws of actions and of the messages that they send.

use crate::executor::actions::zulip::{
    status_succeeded, Msg, Options, PostMessageResponse, RequestError, ZulipClient, ZulipOutput,
};
use crate::executor::actions::{
    is_broken, is_zulip, law_last_zulip_source_counts, law_notification_members,
    law_only_zulip_is_registered, notification_options, notification_view, registered, Action,
    ActionError, ActionErrorView, ActionSource, ActionSystem,
};
use crate::json::{json_parsed, json_rendering, json_view, JsonView};
use serde_json::Value;
use vstd::prelude::*;

verus! {

/// A text is the JSON text of an object with these three members and no others.
pub open spec fn says(
    options: Seq<char>,
    message: JsonView,
    channel: JsonView,
    topic: JsonView,
) -> bool {
    exists|members: Map<Seq<char>, JsonView>|
        #![trigger json_rendering(JsonView::Object(members))]
        {
            &&& options == json_rendering(JsonView::Object(members))
            &&& forall|key: Seq<char>| #[trigger]
                members.contains_key(key) <==> key == "message"@ || key == "channel"@ || key
                    == "topic"@
            &&& members["message"@] == message
            &&& members["channel"@] == channel
            &&& members["topic"@] == topic
        }
}

/// The text of a notification says its message, its channel and its topic.
pub proof fn lemma_notification_says(message: JsonView, channel: JsonView, topic: JsonView)
    ensures
        says(json_rendering(notification_view(message, channel, topic)), message, channel, topic),
{
    law_notification_members(message, channel, topic);
    let members = notification_view(message, channel, topic)->Object_0;
    assert(notification_view(message, channel, topic) == JsonView::Object(members));
}

/// The options of a notification say what they are made of.
pub proof fn law_notification_says_what_is_given(
    message: Value,
    channel: Value,
    topic: Value,
    options: String,
)
    requires
        call_ensures(notification_options, (message, channel, topic), options),
    ensures
        says(options@, json_view(message), json_view(channel), json_view(topic)),
{
    lemma_notification_says(json_view(message), json_view(channel), json_view(topic));
}

/// A JSON value is a message if its channel and its message are texts and its
/// topic is a text, null or missing; it is that message then.
pub proof fn law_message_of_a_value(value: &Value, msg: Option<Msg>)
    requires
        call_ensures(Msg::of_value, (value,), msg),
    ensures
        ({
            let channel = json_view(*value).member("channel"@);
            let message = json_view(*value).member("message"@);
            let topic = json_view(*value).member("topic"@);
            &&& msg is Some <==> (channel matches Some(JsonView::Text(_))) && (message matches Some(
                JsonView::Text(_),
            )) && (topic is None || topic->0 is Null || topic->0 is Text)
            &&& msg matches Some(msg) ==> channel == Some(JsonView::Text(msg.channel@)) && message
                == Some(JsonView::Text(msg.message@))
            &&& msg matches Some(msg) ==> match msg.topic {
                Some(text) => topic == Some(JsonView::Text(text@)),
                None => topic is None || topic->0 is Null,
            }
        }),
{
}

/// A message is posted to its channel under its topic, or under the empty one.
pub proof fn law_message_is_posted(msg: &Msg, query: Vec<(String, String)>)
    requires
        call_ensures(ZulipClient::query, (msg,), query),
    ensures
        query@.len() == 4,
        query@[0].0@ == "type"@ && query@[0].1@ == "stream"@,
        query@[1].0@ == "to"@ && query@[1].1@ == msg.channel@,
        query@[2].0@ == "topic"@,
        msg.topic matches Some(topic) ==> query@[2].1@ == topic@,
        msg.topic is None ==> query@[2].1@.len() == 0,
        query@[3].0@ == "content"@ && query@[3].1@ == msg.message@,
{
    let texts = query@.map_values(|pair: (String, String)| (pair.0@, pair.1@));
    assert(texts.len() == query@.len());
    assert(texts[0] == (query@[0].0@, query@[0].1@));
    assert(texts[1] == (query@[1].0@, query@[1].1@));
    assert(texts[2] == (query@[2].0@, query@[2].1@));
    assert(texts[3] == (query@[3].0@, query@[3].1@));
}

/// The statuses from 200 to 299 mean success, and the answer must say so too; else
/// the status, or what the server says, is told.
pub proof fn law_answer_to_a_message(
    status: u16,
    succeeded: bool,
    checked: Result<(), RequestError>,
    response: PostMessageResponse,
    judged: Result<(), RequestError>,
)
    requires
        call_ensures(status_succeeded, (status,), succeeded),
        call_ensures(ZulipClient::check_status, (status,), checked),
        call_ensures(ZulipClient::check_response, (response,), judged),
    ensures
        succeeded <==> 200 <= status < 300,
        checked is Ok <==> 200 <= status < 300,
        checked matches Err(error) ==> error == RequestError::StatusCodeError(status),
        judged is Ok <==> response.result@ == "success"@,
        judged matches Err(error) ==> (error matches RequestError::SendError(text) && text@
            == response.msg@),
{
}

/// A client and an output keep the options that they are made with.
pub proof fn law_zulip_keeps_its_options(
    options: Option<Options>,
    client: Result<ZulipClient, String>,
    output: Result<ZulipOutput, String>,
)
    requires
        call_ensures(ZulipClient::new, (options,), client),
        call_ensures(ZulipOutput::new, (options,), output),
    ensures
        client is Ok <==> options is Some,
        output is Ok <==> options is Some,
        client matches Ok(client) ==> client.options == options->0,
        output matches Ok(output) ==> output.client.options == options->0,
        client matches Err(reason) ==> reason@ == "Invalid Zulip configuration"@,
        output matches Err(reason) ==> reason@ == "Invalid Zulip configuration"@,
{
}

/// The actions cannot be set up where a source names Zulip without Zulip options;
/// else the last source that names Zulip sets it up, and there is no other action.
pub proof fn law_actions_are_set_up(
    sources: Vec<ActionSource>,
    system: Result<ActionSystem, ActionError>,
)
    requires
        call_ensures(ActionSystem::new, (sources,), system),
    ensures
        system is Err <==> exists|i: int|
            0 <= i < sources@.len() && (#[trigger] sources@[i]).config.name@ == "zulip"@
                && sources@[i].zulip is None,
        system matches Err(error) ==> error@ == ActionErrorView::Create(
            "zulip"@,
            "Invalid Zulip configuration"@,
        ),
        system matches Ok(system) ==> forall|name: Seq<char>| #[trigger]
            system.actions@.contains_key(name) <==> name == "zulip"@ && exists|i: int|
                0 <= i < sources@.len() && (#[trigger] sources@[i]).config.name@ == name,
        system matches Ok(system) ==> forall|i: int|
            0 <= i < sources@.len() && (#[trigger] sources@[i]).config.name@ == "zulip"@ && (forall|
                j: int,
            |
                i < j < sources@.len() ==> (#[trigger] sources@[j]).config.name@ != "zulip"@)
                ==> system.actions@["zulip"@].client.options == sources@[i].zulip->0,
{
    let all = sources@;
    if exists|i: int|
        0 <= i < all.len() && (#[trigger] all[i]).config.name@ == "zulip"@ && all[i].zulip is None {
        let i = choose|i: int|
            0 <= i < all.len() && (#[trigger] all[i]).config.name@ == "zulip"@
                && all[i].zulip is None;
        assert(is_broken(all[i]));
    }
    if system is Err {
        let i = choose|i: int| 0 <= i < all.len() && is_broken(#[trigger] all[i]);
        assert(all[i].config.name@ == "zulip"@ && all[i].zulip is None);
    }
    if system is Ok {
        let actions = (system->Ok_0).actions@;
        assert(actions == registered(all));
        assert forall|name: Seq<char>| #[trigger]
            actions.contains_key(name) <==> name == "zulip"@ && exists|i: int|
                0 <= i < all.len() && (#[trigger] all[i]).config.name@ == name by {
            if actions.contains_key(name) {
                law_only_zulip_is_registered(all, name);
                let i = choose|i: int| 0 <= i < all.len() && is_zulip(#[trigger] all[i]);
                assert(all[i].config.name@ == name);
            }
            if name == "zulip"@ && exists|i: int|
                0 <= i < all.len() && (#[trigger] all[i]).config.name@ == name {
                let i = choose|i: int|
                    0 <= i < all.len() && (#[trigger] all[i]).config.name@ == name;
                lemma_zulip_is_registered(all, i);
            }
        }
        assert forall|i: int|
            0 <= i < all.len() && (#[trigger] all[i]).config.name@ == "zulip"@ && (forall|j: int|
                i < j < all.len() ==> (#[trigger] all[j]).config.name@
                    != "zulip"@) implies actions["zulip"@].client.options == all[i].zulip->0 by {
            assert(is_zulip(all[i]));
            assert forall|j: int| i < j < all.len() implies !is_zulip(#[trigger] all[j]) by {
                assert(all[j].config.name@ != "zulip"@);
            }
            law_last_zulip_source_counts(all, i);
        }
    }
}

/// A source that names Zulip registers it.
proof fn lemma_zulip_is_registered(sources: Seq<ActionSource>, at: int)
    requires
        0 <= at < sources.len(),
        is_zulip(sources[at]),
    ensures
        registered(sources).contains_key("zulip"@),
    decreases sources.len(),
{
    if !is_zulip(sources.last()) {
        assert(at < sources.len() - 1);
        assert(sources.drop_last()[at] == sources[at]);
        lemma_zulip_is_registered(sources.drop_last(), at);
    }
}

/// An action is carried out by the output under its name, and else its name is
/// told.
pub proof fn law_action_finds_its_output(
    system: &ActionSystem,
    action: &Action,
    output: Result<&ZulipOutput, ActionError>,
)
    requires
        call_ensures(ActionSystem::process, (system, action), output),
    ensures
        output is Ok <==> system.actions@.contains_key(action.name@),
        output matches Ok(output) ==> *output == system.actions@[action.name@],
        output matches Err(error) ==> error@ == ActionErrorView::Unsupported(action.name@),
{
}

/// Options in the form that a JSON value is written in are read as the message of
/// that value; of others nothing is read.
pub proof fn law_written_options_are_read(
    options: &str,
    value: &Value,
    expected: Option<Msg>,
    msg: Option<Msg>,
)
    requires
        call_ensures(Msg::of_value, (value,), expected),
        call_ensures(Msg::read_written, (options,), msg),
    ensures
        json_parsed(options@) is Err ==> msg is None,
        json_parsed(options@) == Ok::<JsonView, Seq<char>>(json_view(*value)) ==> if json_rendering(
            json_view(*value),
        ) == options@ {
            match (expected, msg) {
                (Some(expected), Some(msg)) => msg@ == expected@,
                (None, None) => true,
                _ => false,
            }
        } else {
            msg is None
        },
{
}

} // verus!
