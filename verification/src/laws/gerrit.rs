//! Laws of the worker that reports reviews.

use crate::entity::task::Task;
use crate::executor::actions::Action;
use crate::executor::workers::gerrit::{
    law_message_of_joined_reviews, law_message_without_reviews_is_its_head, Gerrit, GerritConfig,
    GerritError, GerritErrorView, Review, TaskConfig,
};
use crate::executor::workers::settings::get_config_value;
use crate::executor::workers::{WorkerError, WorkerErrorView, WorkerOptions};
use crate::json::{json_view, JsonView};
use crate::laws::actions::{lemma_notification_says, says};
use crate::template::filled;
use crate::text::decimal_i32;
use serde_json::Value;
use vstd::prelude::*;

verus! {

/// The worker asks the server that it was set up with, and cannot do without.
pub proof fn law_reviews_are_asked_for(
    options: WorkerOptions<GerritConfig>,
    worker: Result<Gerrit, GerritError>,
    project: &str,
    query: &str,
    url: String,
)
    requires
        call_ensures(Gerrit::new, (options,), worker),
        worker matches Ok(worker) ==> call_ensures(
            Gerrit::reviews_url,
            (&worker, project, query),
            url,
        ),
    ensures
        worker is Ok <==> options is Given,
        worker matches Ok(worker) ==> worker.config == options->Given_0,
        worker is Ok ==> url@ == (options->Given_0).url@ + "/a/changes/?q="@ + query@ + " project:"@
            + project@ + "&o=DETAILED_ACCOUNTS&o=LABELS"@,
        worker matches Err(error) ==> error@ == GerritErrorView::ConfigError(
            if options is Missing {
                "Missing configuration"@
            } else {
                "Invalid configuration"@
            },
        ),
{
}

/// Requests succeed with the statuses from 200 to 299; what goes wrong is told
/// whole.
pub proof fn law_review_request_faults(
    status: u16,
    text: &str,
    checked: Result<(), WorkerError>,
    fetch: WorkerError,
    parse: WorkerError,
    send: WorkerError,
)
    requires
        call_ensures(Gerrit::check_status, (status, text), checked),
        call_ensures(Gerrit::fetch_failure, (text,), fetch),
        call_ensures(Gerrit::parse_failure, (text,), parse),
        call_ensures(Gerrit::send_failure, (text,), send),
    ensures
        checked is Ok <==> 200 <= status < 300,
        checked matches Err(error) ==> error@ == WorkerErrorView::Other(
            "Request failed with status: "@ + text@,
        ),
        fetch@ == WorkerErrorView::Other("Failed to fetch reviews: "@ + text@),
        parse@ == WorkerErrorView::Other("Failed to parse response: "@ + text@),
        send@ == WorkerErrorView::Other("Failed to send notification: "@ + text@),
{
}

/// The data of a response are all that stands behind the prefix; the refusal of
/// the credentials and a text without the prefix have none.
pub proof fn law_data_of_a_response(text: &str, data: Result<&str, GerritError>)
    requires
        call_ensures(Gerrit::review_data, (text,), data),
    ensures
        text@ == "Unauthorized"@ ==> (data matches Err(error) && error@
            == GerritErrorView::AuthError),
        forall|rest: Seq<char>|
            text@ == #[trigger] (")]}'"@ + rest) && text@ != "Unauthorized"@ ==> (data matches Ok(
                data,
            ) && data@ == rest),
        text@ != "Unauthorized"@ && (forall|rest: Seq<char>| text@ != #[trigger] (")]}'"@ + rest))
            ==> (data matches Err(error) && error@ == GerritErrorView::ResponseError(
            "Invalid response format"@,
        )),
{
    let prefix = ")]}'"@;
    assert forall|rest: Seq<char>|
        text@ == #[trigger] (prefix + rest) && text@ != "Unauthorized"@ implies (data matches Ok(
        data,
    ) && data@ == rest) by {
        assert(text@.subrange(0, prefix.len() as int) =~= prefix);
        if data is Ok {
            assert(data->Ok_0@ =~= (prefix + data->Ok_0@).skip(prefix.len() as int));
            assert(rest =~= (prefix + rest).skip(prefix.len() as int));
        }
    }
}

/// The template for a review is filled with its subject, the decimal forms of its
/// insertions, deletions and number, the address of the server and the project,
/// and with nothing else.
pub proof fn law_review_is_filled_in(
    worker: &Gerrit,
    review: &Review,
    template: &str,
    project: &str,
    insertions: String,
    deletions: String,
    number: String,
    values: Map<Seq<char>, Seq<char>>,
    text: Result<String, WorkerError>,
)
    requires
        call_ensures(decimal_i32, (review.insertions,), insertions),
        call_ensures(decimal_i32, (review.deletions,), deletions),
        call_ensures(decimal_i32, (review.number,), number),
        forall|name: Seq<char>| #[trigger]
            values.contains_key(name) <==> name == "subject"@ || name == "insertions"@ || name
                == "deletions"@ || name == "url"@ || name == "number"@ || name == "project"@,
        values["subject"@] == review.subject@,
        values["insertions"@] == insertions@,
        values["deletions"@] == deletions@,
        values["url"@] == worker.config.url@,
        values["number"@] == number@,
        values["project"@] == project@,
        call_ensures(Gerrit::format_review_message, (worker, review, template, project), text),
    ensures
        match filled(template@, values) {
            Ok(expected) => text matches Ok(text) && text@ == expected,
            Err(reason) => text matches Err(error) && error@ == WorkerErrorView::Other(
                "Failed to format message: "@ + reason,
            ),
        },
{
    assert(values =~= crate::executor::workers::gerrit::review_variables(
        worker.config.url@,
        *review,
        project@,
    ));
}

/// The text for a review is kept, and the reason why there is none is told.
pub proof fn law_review_text_is_kept(
    text: Result<String, String>,
    outcome: Result<String, WorkerError>,
)
    requires
        call_ensures(Gerrit::review_message, (text,), outcome),
    ensures
        match text {
            Ok(text) => outcome matches Ok(kept) && kept@ == text@,
            Err(reason) => outcome matches Err(error) && error@ == WorkerErrorView::Other(
                "Failed to format message: "@ + reason@,
            ),
        },
{
}

/// Without texts a message is its head; the reason why there is no head is told.
pub proof fn law_message_begins_with_its_head(
    head: Result<String, String>,
    texts: Vec<Result<String, WorkerError>>,
    message: Result<String, WorkerError>,
)
    requires
        call_ensures(Gerrit::join_message, (head, texts), message),
    ensures
        head matches Err(reason) ==> (message matches Err(error) && error@
            == WorkerErrorView::Other(reason@)),
        head is Ok && texts@.len() == 0 ==> (message matches Ok(message) && message@
            == head->Ok_0@),
{
    if head is Ok {
        assert(head->Ok_0@ + Seq::<char>::empty() =~= head->Ok_0@);
    }
}

/// One more text comes last; where there is none, or where the message failed
/// before, the first fault is the error.
pub proof fn law_one_more_text_comes_last(
    head: Result<String, String>,
    texts: Vec<Result<String, WorkerError>>,
    more: Vec<Result<String, WorkerError>>,
    message: Result<String, WorkerError>,
    longer: Result<String, WorkerError>,
)
    requires
        more@.len() == texts@.len() + 1,
        more@.drop_last() == texts@,
        call_ensures(Gerrit::join_message, (head, texts), message),
        call_ensures(Gerrit::join_message, (head, more), longer),
    ensures
        match (message, more@.last()) {
            (Ok(message), Ok(text)) => longer matches Ok(longer) && longer@ == message@ + text@,
            (Ok(_), Err(fault)) => longer matches Err(error) && error@ == fault@,
            (Err(fault), _) => longer matches Err(error) && error@ == fault@,
        },
{
    let a = crate::executor::workers::text_views(texts@);
    let b = crate::executor::workers::text_views(more@);
    assert(b.drop_last() =~= a);
    assert(b.last() == crate::executor::workers::text_view(more@.last()));
    if message is Ok && more@.last() is Ok {
        let start = head->Ok_0@;
        let front = crate::executor::workers::gerrit::joined(a)->Ok_0;
        let text = more@.last()->Ok_0@;
        assert(start + (front + text) =~= (start + front) + text);
    }
}

/// The head of a message is its template filled with the project, and with nothing
/// else.
pub proof fn law_head_is_filled_in(
    worker: &Gerrit,
    reviews: &Vec<Review>,
    template: &str,
    review_template: &str,
    project: &str,
    values: Map<Seq<char>, Seq<char>>,
    message: Result<String, WorkerError>,
)
    requires
        reviews@.len() == 0,
        forall|name: Seq<char>| #[trigger] values.contains_key(name) <==> name == "project"@,
        values["project"@] == project@,
        call_ensures(
            Gerrit::build_message,
            (worker, reviews, template, review_template, project),
            message,
        ),
    ensures
        match filled(template@, values) {
            Ok(expected) => message matches Ok(message) && message@ == expected,
            Err(reason) => message matches Err(error) && error@ == WorkerErrorView::Other(reason),
        },
{
    assert(values =~= crate::executor::workers::gerrit::head_variables(project@));
    assert(reviews@ =~= Seq::empty());
    if filled(template@, values) is Ok {
        law_message_without_reviews_is_its_head(
            worker.config.url@,
            template@,
            review_template@,
            project@,
        );
    }
}

/// A message about one more review is the message before it, followed by the text
/// for that review; the first fault is the error.
pub proof fn law_one_more_review_comes_last(
    worker: &Gerrit,
    reviews: &Vec<Review>,
    more: &Vec<Review>,
    template: &str,
    review_template: &str,
    project: &str,
    message: Result<String, WorkerError>,
    text: Result<String, WorkerError>,
    longer: Result<String, WorkerError>,
)
    requires
        more@.len() == reviews@.len() + 1,
        more@.drop_last() == reviews@,
        call_ensures(
            Gerrit::build_message,
            (worker, reviews, template, review_template, project),
            message,
        ),
        call_ensures(
            Gerrit::format_review_message,
            (worker, &more@.last(), review_template, project),
            text,
        ),
        call_ensures(
            Gerrit::build_message,
            (worker, more, template, review_template, project),
            longer,
        ),
    ensures
        match (message, text) {
            (Ok(message), Ok(text)) => longer matches Ok(longer) && longer@ == message@ + text@,
            (Ok(_), Err(fault)) => longer matches Err(error) && error@ == fault@,
            (Err(fault), _) => longer matches Err(error) && error@ == fault@,
        },
{
    let url = worker.config.url@;
    let a = crate::executor::workers::gerrit::review_texts(
        url,
        reviews@,
        review_template@,
        project@,
    );
    let b = crate::executor::workers::gerrit::review_texts(url, more@, review_template@, project@);
    assert(b.drop_last() =~= a);
    assert(b.last() == crate::executor::workers::text_view(text));
    if message is Ok && text is Ok {
        let start = filled(
            template@,
            crate::executor::workers::gerrit::head_variables(project@),
        )->Ok_0;
        let front = crate::executor::workers::gerrit::joined(a)->Ok_0;
        let last = text->Ok_0@;
        assert(start + (front + last) =~= (start + front) + last);
    }
}

/// The message about two lists of reviews is the message about the first followed
/// by the message about the second under an empty head.
pub proof fn law_messages_join(
    worker: &Gerrit,
    first: &Vec<Review>,
    second: &Vec<Review>,
    reviews: &Vec<Review>,
    template: &str,
    empty: &str,
    review_template: &str,
    project: &str,
    first_message: Result<String, WorkerError>,
    second_message: Result<String, WorkerError>,
    message: Result<String, WorkerError>,
)
    requires
        reviews@ == first@ + second@,
        empty@.len() == 0,
        call_ensures(
            Gerrit::build_message,
            (worker, first, template, review_template, project),
            first_message,
        ),
        call_ensures(
            Gerrit::build_message,
            (worker, second, empty, review_template, project),
            second_message,
        ),
        call_ensures(
            Gerrit::build_message,
            (worker, reviews, template, review_template, project),
            message,
        ),
        first_message is Ok && second_message is Ok,
    ensures
        message matches Ok(message) && message@ == first_message->Ok_0@ + second_message->Ok_0@,
{
    assert(empty@ =~= Seq::empty());
    law_message_of_joined_reviews(
        worker.config.url@,
        first@,
        second@,
        template@,
        review_template@,
        project@,
    );
}

/// A task must say its project, query and templates as texts of its own. The first
/// that it does not say is named; else the reviews of that project and query are
/// asked for.
pub proof fn law_task_names_its_reviews(
    worker: &Gerrit,
    task: &Task,
    config: Result<TaskConfig, GerritError>,
    request: Result<(TaskConfig, String), WorkerError>,
)
    requires
        call_ensures(Gerrit::validate_task_config, (worker, task), config),
        call_ensures(Gerrit::execute, (worker, task), request),
    ensures
        ({
            let options = json_view(task.options);
            match (
                options.member("project"@),
                options.member("query"@),
                options.member("template"@),
                options.member("review_template"@),
            ) {
                (
                    Some(JsonView::Text(project)),
                    Some(JsonView::Text(query)),
                    Some(JsonView::Text(template)),
                    Some(JsonView::Text(review_template)),
                ) => {
                    &&& config matches Ok(config) && config.project@ == project && config.query@
                        == query && config.template@ == template && config.review_template@
                        == review_template
                    &&& request matches Ok((config, url)) && config.project@ == project
                        && config.query@ == query && config.template@ == template
                        && config.review_template@ == review_template && url@
                        == worker.config.url@ + "/a/changes/?q="@ + query + " project:"@ + project
                        + "&o=DETAILED_ACCOUNTS&o=LABELS"@
                },
                (project, query, template, _) => {
                    let missing = GerritErrorView::MissingFieldError(
                        if !(project matches Some(JsonView::Text(_))) {
                            "project"@
                        } else if !(query matches Some(JsonView::Text(_))) {
                            "query"@
                        } else if !(template matches Some(JsonView::Text(_))) {
                            "template"@
                        } else {
                            "review_template"@
                        },
                    );
                    &&& config matches Err(error) && error@ == missing
                    &&& request matches Err(error) && error@ == WorkerErrorView::Gerrit(missing)
                },
            }
        }),
{
}

/// A message goes to the channel and the topic of its task; the first of them that
/// is missing is named.
pub proof fn law_message_goes_to_its_channel(
    task: &Task,
    message: String,
    channel: Option<Value>,
    topic: Option<Value>,
    action: Result<Action, GerritError>,
)
    requires
        call_ensures(get_config_value, (task, "channel"), channel),
        call_ensures(get_config_value, (task, "topic"), topic),
        call_ensures(Gerrit::notification_action, (task, message), action),
    ensures
        match (channel, topic) {
            (Some(channel), Some(topic)) => action matches Ok(action) && action.name@ == "zulip"@
                && action.task_id == task.id && says(
                action.options@,
                JsonView::Text(message@),
                json_view(channel),
                json_view(topic),
            ),
            (channel, _) => action matches Err(error) && error@
                == GerritErrorView::MissingFieldError(
                if channel is None {
                    "channel"@
                } else {
                    "topic"@
                },
            ),
        },
{
    if channel is Some && topic is Some {
        lemma_notification_says(
            JsonView::Text(message@),
            json_view(channel->0),
            json_view(topic->0),
        );
    }
}

/// Reviews are reported with the message that is built of them; without reviews
/// nothing is sent, and a fault in the message comes before one in the settings.
pub proof fn law_reviews_are_reported(
    worker: &Gerrit,
    task: &Task,
    config: &TaskConfig,
    reviews: &Vec<Review>,
    template: &str,
    review_template: &str,
    project: &str,
    message: Result<String, WorkerError>,
    sent: Result<Action, GerritError>,
    action: Result<Option<Action>, WorkerError>,
)
    requires
        template@ == config.template@,
        review_template@ == config.review_template@,
        project@ == config.project@,
        call_ensures(
            Gerrit::build_message,
            (worker, reviews, template, review_template, project),
            message,
        ),
        message matches Ok(message) ==> call_ensures(
            Gerrit::notification_action,
            (task, message),
            sent,
        ),
        call_ensures(Gerrit::report, (worker, task, config, reviews), action),
    ensures
        reviews@.len() == 0 ==> action matches Ok(None),
        reviews@.len() > 0 ==> match (message, sent) {
            (Ok(_), Ok(sent)) => action matches Ok(Some(action)) && action.name@ == sent.name@
                && action.task_id == sent.task_id && action.options@ == sent.options@,
            (Ok(_), Err(fault)) => action matches Err(error) && error@ == WorkerErrorView::Gerrit(
                fault@,
            ),
            (Err(fault), _) => action matches Err(error) && error@ == fault@,
        },
{
}

} // verus!
