//! The actions that workers ask for.

use crate::executor::actions::zulip::{
    message_of, optional_message, Msg, MsgView, Options, ZulipOutput, ZULIP,
};
use crate::json::{
    json_object, json_rendering, json_to_string, json_view, with_member, JsonView,
};
use crate::name_map::NameMap;
use crate::text::{concat2, concat3, same_text};
use serde_json::Value;
use uuid::Uuid;
use vstd::prelude::*;

pub mod zulip;

verus! {

/// Something to be done for a task: the name of the action and its options as
/// JSON text.
#[derive(Debug)]
pub struct Action {
    pub name: String,
    pub task_id: Uuid,
    pub options: String,
}

/// How an action is set up.
#[derive(Debug)]
pub struct ActionConfig {
    pub name: String,
    pub options: Value,
}

/// The set-up of an action, with its options read as Zulip options where they
/// can be read so.
#[derive(Debug)]
pub struct ActionSource {
    pub config: ActionConfig,
    pub zulip: Option<Options>,
}

/// Why an action cannot be set up or carried out.
#[derive(Debug)]
pub enum ActionError {
    /// An action with this name cannot be created; with the reason.
    Create(String, String),
    /// No action has this name.
    Unsupported(String),
}

/// An [`ActionError`] with its texts as character sequences.
pub enum ActionErrorView {
    Create(Seq<char>, Seq<char>),
    Unsupported(Seq<char>),
}

impl View for ActionError {
    type V = ActionErrorView;

    open spec fn view(&self) -> ActionErrorView {
        match *self {
            ActionError::Create(name, reason) => ActionErrorView::Create(name@, reason@),
            ActionError::Unsupported(name) => ActionErrorView::Unsupported(name@),
        }
    }
}

impl ActionErrorView {
    /// The message that a person reads.
    pub open spec fn message(self) -> Seq<char> {
        match self {
            ActionErrorView::Create(name, reason) => "Can't create "@ + name + " action. Err: "@
                + reason,
            ActionErrorView::Unsupported(name) => "Unsupported action type "@ + name,
        }
    }
}

impl ActionError {
    /// The message that a person reads.
    pub fn message(&self) -> (message: String)
        ensures
            message@ == self@.message(),
    {
        match self {
            ActionError::Create(name, reason) => {
                let front: String = concat3("Can't create ", name.as_str(), " action. Err: ");
                concat2(front.as_str(), reason.as_str())
            },
            ActionError::Unsupported(name) => concat2("Unsupported action type ", name.as_str()),
        }
    }
}

/// The actions that can be carried out, by their names.
#[derive(Debug)]
pub struct ActionSystem {
    pub actions: NameMap<ZulipOutput>,
}

impl View for ActionSystem {
    type V = Map<Seq<char>, ZulipOutput>;

    open spec fn view(&self) -> Map<Seq<char>, ZulipOutput> {
        self.actions@
    }
}

/// A source names the Zulip action.
pub open spec fn is_zulip(source: ActionSource) -> bool {
    source.config.name@ == ZULIP@
}

/// A source names the Zulip action, but its options are not Zulip options.
pub open spec fn is_broken(source: ActionSource) -> bool {
    is_zulip(source) && source.zulip is None
}

/// The actions that sources set up: the last source of a name counts, and
/// sources of unknown actions do not.
pub open spec fn registered(sources: Seq<ActionSource>) -> Map<Seq<char>, ZulipOutput>
    decreases sources.len(),
{
    if sources.len() == 0 {
        Map::empty()
    } else {
        let before = registered(sources.drop_last());
        if is_zulip(sources.last()) {
            before.insert(ZULIP@, ZulipOutput::of(sources.last().zulip->0))
        } else {
            before
        }
    }
}

impl ActionSystem {
    /// Sets the actions up. A source of an unknown action is passed over; a
    /// Zulip source without Zulip options fails.
    pub fn new(sources: Vec<ActionSource>) -> (system: Result<ActionSystem, ActionError>)
        ensures
            match system {
                Ok(system) => (forall|i: int|
                    0 <= i < sources@.len() ==> !is_broken(#[trigger] sources@[i])) && system@
                    == registered(sources@),
                Err(error) => (exists|i: int|
                    0 <= i < sources@.len() && is_broken(#[trigger] sources@[i])) && error@
                    == ActionErrorView::Create(ZULIP@, "Invalid Zulip configuration"@),
            },
    {
        let ghost all = sources@;
        let mut actions: NameMap<ZulipOutput> = NameMap::new();
        assert(all.take(0) =~= Seq::<ActionSource>::empty());
        for source in iter: sources
            invariant
                iter.seq() == all,
                actions@ == registered(all.take(iter.index())),
                forall|i: int| 0 <= i < iter.index() ==> !is_broken(#[trigger] all[i]),
        {
            let ghost index = iter.index();
            assert(all.take(index + 1).drop_last() =~= all.take(index));
            assert(all.take(index + 1).last() == all[index]);
            if same_text(source.config.name.as_str(), ZULIP) {
                match ZulipOutput::new(source.zulip) {
                    Ok(output) => {
                        actions = actions.with(source.config.name, output);
                    },
                    Err(reason) => {
                        assert(is_broken(all[index]));
                        return Err(ActionError::Create(source.config.name, reason));
                    },
                }
            }
        }
        assert(all.take(all.len() as int) =~= all);
        Ok(ActionSystem { actions })
    }

    /// Finds the output that carries `action` out.
    pub fn process(&self, action: &Action) -> (output: Result<&ZulipOutput, ActionError>)
        ensures
            match output {
                Ok(output) => self@.contains_key(action.name@) && *output == self@[action.name@],
                Err(error) => !self@.contains_key(action.name@) && error@
                    == ActionErrorView::Unsupported(action.name@),
            },
    {
        match self.actions.get(action.name.as_str()) {
            Some(output) => Ok(output),
            None => Err(ActionError::Unsupported(action.name.clone())),
        }
    }
}

/// What the options of a notification hold.
pub open spec fn notification_view(
    message: JsonView,
    channel: JsonView,
    topic: JsonView,
) -> JsonView {
    JsonView::Object(
        Map::<Seq<char>, JsonView>::empty().insert("message"@, message).insert(
            "channel"@,
            channel,
        ).insert("topic"@, topic),
    )
}

/// The options of a notification: a JSON object with the message, the channel
/// and the topic.
pub fn notification_options(message: Value, channel: Value, topic: Value) -> (options: String)
    ensures
        options@ == json_rendering(
            notification_view(json_view(message), json_view(channel), json_view(topic)),
        ),
{
    proof {
        lemma_member_names();
    }
    let entries: Vec<(String, Value)> = with_member(Vec::new(), "message", message);
    let entries: Vec<(String, Value)> = with_member(entries, "channel", channel);
    let entries: Vec<(String, Value)> = with_member(entries, "topic", topic);
    json_to_string(&json_object(entries))
}

/// The members of a notification have different names, none of which begins with
/// a dollar sign.
proof fn lemma_member_names()
    ensures
        "message"@.len() > 0 && "message"@[0] == 'm',
        "channel"@.len() > 0 && "channel"@[0] == 'c',
        "topic"@.len() > 0 && "topic"@[0] == 't',
{
    reveal_strlit("message");
    reveal_strlit("channel");
    reveal_strlit("topic");
}

/// The members of a notification's options are the message, the channel and
/// the topic that it was made of.
pub proof fn law_notification_members(message: JsonView, channel: JsonView, topic: JsonView)
    ensures
        notification_view(message, channel, topic).member("message"@) == Some(message),
        notification_view(message, channel, topic).member("channel"@) == Some(channel),
        notification_view(message, channel, topic).member("topic"@) == Some(topic),
{
    lemma_member_names();
}

/// What a worker asks to be said is what is sent: where the message and the
/// channel are texts, and the topic is a text or null, [`Msg::read_written`] gives this
/// message back from the options of the notification.
pub proof fn law_notification_is_read_back(
    message: Seq<char>,
    channel: Seq<char>,
    topic: Option<Seq<char>>,
    options: &str,
    msg: Option<Msg>,
)
    requires
        options@ == json_rendering(
            notification_view(
                JsonView::Text(message),
                JsonView::Text(channel),
                topic_value(topic),
            ),
        ),
        call_ensures(Msg::read_written, (options,), msg),
    ensures
        optional_message(msg) == Some(MsgView { topic, channel, message }),
{
    let contents = notification_view(
        JsonView::Text(message),
        JsonView::Text(channel),
        topic_value(topic),
    );
    law_notification_members(JsonView::Text(message), JsonView::Text(channel), topic_value(topic));
    lemma_member_names();
    assert(contents.is_flat());
    assert(message_of(contents) == Some(MsgView { topic, channel, message }));
}

/// A topic as a JSON value; no topic is null.
pub open spec fn topic_value(topic: Option<Seq<char>>) -> JsonView {
    match topic {
        Some(topic) => JsonView::Text(topic),
        None => JsonView::Null,
    }
}

/// The only action that can be set up is the Zulip action, and only where a
/// source names it.
pub proof fn law_only_zulip_is_registered(sources: Seq<ActionSource>, name: Seq<char>)
    requires
        registered(sources).contains_key(name),
    ensures
        name == ZULIP@,
        exists|i: int| 0 <= i < sources.len() && is_zulip(#[trigger] sources[i]),
    decreases sources.len(),
{
    if sources.len() > 0 {
        let front = sources.drop_last();
        if is_zulip(sources.last()) {
            assert(is_zulip(sources[sources.len() - 1]));
            if name != ZULIP@ {
                law_only_zulip_is_registered(front, name);
            }
        } else {
            law_only_zulip_is_registered(front, name);
            let i = choose|i: int| 0 <= i < front.len() && is_zulip(#[trigger] front[i]);
            assert(is_zulip(sources[i]));
        }
    }
}

/// The last source that names the Zulip action sets it up.
pub proof fn law_last_zulip_source_counts(sources: Seq<ActionSource>, last: int)
    requires
        0 <= last < sources.len(),
        is_zulip(sources[last]),
        forall|i: int| last < i < sources.len() ==> !is_zulip(#[trigger] sources[i]),
    ensures
        registered(sources).contains_key(ZULIP@),
        registered(sources)[ZULIP@] == ZulipOutput::of(sources[last].zulip->0),
    decreases sources.len(),
{
    if last < sources.len() - 1 {
        let front = sources.drop_last();
        assert(!is_zulip(sources[sources.len() - 1]));
        assert forall|i: int| last < i < front.len() implies !is_zulip(#[trigger] front[i]) by {
            assert(!is_zulip(sources[i]));
        }
        law_last_zulip_source_counts(front, last);
    }
}

} // verus!
