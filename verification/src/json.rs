//! JSON values.
//!
//! The values themselves are [`serde_json::Value`]. Contracts speak of what
//! such a value holds through [`json_view`], and of its text form through
//! [`json_rendering`].

use crate::name_map::names_distinct;
use serde_json::Value;
use vstd::prelude::*;

verus! {

/// Declares the JSON value of `serde_json`.
#[verifier::external_type_specification]
#[verifier::external_body]
pub struct ExValue(serde_json::Value);

/// What a JSON value holds.
pub enum JsonView {
    Null,
    Bool(bool),
    /// A number, by its text form.
    Number(Seq<char>),
    Text(Seq<char>),
    Array(Seq<JsonView>),
    Object(Map<Seq<char>, JsonView>),
}

/// The contents of a `serde_json::Value`: its variant, with the text of a
/// string or number, the items of an array or the members of an object.
pub uninterp spec fn json_view(value: serde_json::Value) -> JsonView;

/// The text that `serde_json` writes for a value with these contents: its
/// compact form.
pub uninterp spec fn json_rendering(contents: JsonView) -> Seq<char>;

/// What `serde_json::from_str` reads from a text: the contents of the value, or
/// the text of its error.
pub uninterp spec fn json_parsed(text: Seq<char>) -> Result<JsonView, Seq<char>>;

impl JsonView {
    /// A value that is no number and no collection.
    pub open spec fn is_simple(self) -> bool {
        self is Null || self is Bool || self is Text
    }

    /// An object whose members are no numbers and no collections, and whose keys do
    /// not begin with a dollar sign: `serde_json` has such keys for its own use.
    pub open spec fn is_flat(self) -> bool {
        self matches JsonView::Object(members) && members.dom().finite() && forall|key: Seq<char>| #[trigger]
            members.contains_key(key) ==> members[key].is_simple() && !(key.len() > 0 && key[0]
                == '$')
    }

    /// The member of an object under `key`; a value that is no object has none.
    pub open spec fn member(self, key: Seq<char>) -> Option<JsonView> {
        match self {
            JsonView::Object(members) => if members.contains_key(key) {
                Some(members[key])
            } else {
                None
            },
            _ => None,
        }
    }

    /// The text of a JSON string; no other value has one.
    pub open spec fn as_text(self) -> Option<Seq<char>> {
        match self {
            JsonView::Text(text) => Some(text),
            _ => None,
        }
    }

    /// The text of the member under `key`, where that is a JSON string.
    pub open spec fn text_member(self, key: Seq<char>) -> Option<Seq<char>> {
        match self.member(key) {
            Some(member) => member.as_text(),
            None => None,
        }
    }
}

/// The contents of a value that was read.
pub open spec fn value_view(value: Result<Value, String>) -> Option<JsonView> {
    match value {
        Ok(value) => Some(json_view(value)),
        Err(_) => None,
    }
}

/// The contents of an optional value.
pub open spec fn optional_view(value: Option<Value>) -> Option<JsonView> {
    match value {
        Some(value) => Some(json_view(value)),
        None => None,
    }
}

/// The members of an object made from `entries`, among which no key comes twice.
pub open spec fn entry_members(entries: Seq<(String, Value)>) -> Map<Seq<char>, JsonView>
    decreases entries.len(),
{
    if entries.len() == 0 {
        Map::empty()
    } else {
        entry_members(entries.drop_last()).insert(
            entries.last().0@,
            json_view(entries.last().1),
        )
    }
}

/// `serde_json::Value::get` with a string key: the member of an object under
/// that key, and nothing for a value that is no object.
#[verifier::external_body]
pub(crate) fn json_get<'a>(value: &'a Value, key: &str) -> (member: Option<&'a Value>)
    ensures
        match member {
            Some(member) => json_view(*value).member(key@) == Some(json_view(*member)),
            None => json_view(*value).member(key@) is None,
        },
{
    value.get(key)
}

/// `serde_json::Value::as_str`: the text of a JSON string, and nothing for any
/// other value.
#[verifier::external_body]
pub(crate) fn json_as_str(value: &Value) -> (text: Option<&str>)
    ensures
        match text {
            Some(text) => json_view(*value).as_text() == Some(text@),
            None => json_view(*value).as_text() is None,
        },
{
    value.as_str()
}

/// `serde_json::Value::is_null`.
#[verifier::external_body]
pub(crate) fn json_is_null(value: &Value) -> (null: bool)
    ensures
        null == (json_view(*value) == JsonView::Null),
{
    value.is_null()
}

/// `Clone` of `serde_json::Value`: the copy holds what the value holds.
#[verifier::external_body]
pub(crate) fn json_clone(value: &Value) -> (copy: Value)
    ensures
        json_view(copy) == json_view(*value),
{
    value.clone()
}

/// `serde_json::Value::Null`.
#[verifier::external_body]
pub(crate) fn json_null() -> (value: Value)
    ensures
        json_view(value) == JsonView::Null,
{
    Value::Null
}

/// `serde_json::Value::Bool`.
#[verifier::external_body]
pub(crate) fn json_bool(flag: bool) -> (value: Value)
    ensures
        json_view(value) == JsonView::Bool(flag),
{
    Value::Bool(flag)
}

/// `serde_json::Value::String`.
#[verifier::external_body]
pub(crate) fn json_text(text: String) -> (value: Value)
    ensures
        json_view(value) == JsonView::Text(text@),
{
    Value::String(text)
}

/// `FromIterator` of `serde_json::Map`: an object with the entries as its
/// members, where no key comes twice. Which of two entries with one key would
/// stay is left open.
#[verifier::external_body]
pub(crate) fn json_object(entries: Vec<(String, Value)>) -> (value: Value)
    requires
        names_distinct(entries@),
    ensures
        json_view(value) == JsonView::Object(entry_members(entries@)),
{
    Value::Object(entries.into_iter().collect())
}

/// `Display` of `serde_json::Value`. The text is a function of what the value
/// holds, an object writing its members in the order of their keys; what the
/// text looks like is not stated.
#[verifier::external_body]
pub(crate) fn json_to_string(value: &Value) -> (text: String)
    ensures
        text@ == json_rendering(json_view(*value)),
{
    value.to_string()
}

/// `serde_json::from_str` for a `serde_json::Value`: the outcome depends on the
/// text alone. The text that was written for an object without numbers, inner
/// collections and keys that begin with a dollar sign gives that object back.
#[verifier::external_body]
pub(crate) fn json_parse(text: &str) -> (value: Result<Value, String>)
    ensures
        match value {
            Ok(value) => json_parsed(text@) == Ok::<JsonView, Seq<char>>(json_view(value)),
            Err(error) => json_parsed(text@) == Err::<JsonView, Seq<char>>(error@),
        },
        forall|contents: JsonView|
            contents.is_flat() && text@ == #[trigger] json_rendering(contents) ==> value_view(value)
                == Some(contents),
{
    serde_json::from_str(text).map_err(|error| error.to_string())
}

/// The key of every entry is the key of a member.
proof fn lemma_entry_keys(entries: Seq<(String, Value)>)
    ensures
        forall|i: int|
            0 <= i < entries.len() ==> entry_members(entries).contains_key(
                (#[trigger] entries[i]).0@,
            ),
    decreases entries.len(),
{
    if entries.len() > 0 {
        let front = entries.drop_last();
        lemma_entry_keys(front);
        assert forall|i: int| 0 <= i < entries.len() implies entry_members(entries).contains_key(
            (#[trigger] entries[i]).0@,
        ) by {
            if i < front.len() {
                assert(front[i] == entries[i]);
            }
        }
    }
}

/// These entries and one more, with a key of its own.
pub(crate) fn with_member(entries: Vec<(String, Value)>, name: &str, value: Value) -> (more: Vec<
    (String, Value),
>)
    requires
        names_distinct(entries@),
        !entry_members(entries@).contains_key(name@),
    ensures
        names_distinct(more@),
        entry_members(more@) == entry_members(entries@).insert(name@, json_view(value)),
{
    proof {
        lemma_entry_keys(entries@);
    }
    let mut more: Vec<(String, Value)> = entries;
    more.push((name.to_owned(), value));
    assert(more@.drop_last() =~= entries@);
    more
}

/// The text of the member of `value` under `key`, where that is a JSON string.
pub fn text_member<'a>(value: &'a Value, key: &str) -> (text: Option<&'a str>)
    ensures
        match text {
            Some(text) => json_view(*value).text_member(key@) == Some(text@),
            None => json_view(*value).text_member(key@) is None,
        },
{
    match json_get(value, key) {
        Some(member) => json_as_str(member),
        None => None,
    }
}

} // verus!
