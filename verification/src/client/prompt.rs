//! The configuration of a new client, put together from the answers to the
//! prompts of its kind.
//!
//! A configuration is a JSON object. The path of an answer says where its
//! value goes: `name` is a member of the object, `scope.name` a member of the
//! object under `scope`, `scope[].name` a member of the first element of the
//! array under `scope`.

use crate::utils::number::{parse_i32, parsed_i32};
use crate::utils::text::{before_first, pieces_of, split_before_first, split_on, views_of};
use vstd::prelude::*;

verus! {

/// `serde_json::Value`: a JSON value. What it holds is `json_of` of it.
#[verifier::external_type_specification]
#[verifier::external_body]
pub struct ExValue(serde_json::Value);

/// What a JSON value holds.
pub enum JsonView {
    Null,
    Bool(bool),
    /// A whole number.
    Integer(int),
    /// A number that is not whole.
    Fraction,
    Text(Seq<char>),
    Array(Seq<JsonView>),
    Object(Map<Seq<char>, JsonView>),
}

/// What a `serde_json::Value` holds.
pub uninterp spec fn json_of(value: serde_json::Value) -> JsonView;

/// The members of an object; none for any other value.
pub open spec fn members(json: JsonView) -> Map<Seq<char>, JsonView> {
    match json {
        JsonView::Object(entries) => entries,
        _ => Map::empty(),
    }
}

/// Whether a value has a member of the given name.
pub open spec fn has_member(json: JsonView, key: Seq<char>) -> bool {
    json is Object && members(json).contains_key(key)
}

/// The member of the given name; null where there is none.
pub open spec fn member(json: JsonView, key: Seq<char>) -> JsonView {
    if has_member(json, key) {
        members(json)[key]
    } else {
        JsonView::Null
    }
}

/// Whether a member can be written into a value: into an object, and into
/// null, which becomes an object by it.
pub open spec fn takes_members(json: JsonView) -> bool {
    json is Object || json is Null
}

/// The object that a value is after a member was written into it.
pub open spec fn with_member(json: JsonView, key: Seq<char>, value: JsonView) -> JsonView {
    JsonView::Object(members(json).insert(key, value))
}

/// `serde_json::Value::Null`: the null value.
#[verifier::external_body]
fn json_null() -> (value: serde_json::Value)
    ensures
        json_of(value) == JsonView::Null,
{
    serde_json::Value::Null
}

/// Calls `From<&str>` of `serde_json::Value`, which makes the string value
/// of the text.
#[verifier::external_body]
fn json_text(text: &str) -> (value: serde_json::Value)
    ensures
        json_of(value) == JsonView::Text(text@),
{
    serde_json::Value::from(text)
}

/// Calls `From<i32>` of `serde_json::Value`, which makes the number value of
/// the integer.
#[verifier::external_body]
fn json_integer(number: i32) -> (value: serde_json::Value)
    ensures
        json_of(value) == JsonView::Integer(number as int),
{
    serde_json::Value::from(number)
}

/// `serde_json::Value::Object` of `serde_json::Map::new`: an object without
/// members.
#[verifier::external_body]
fn json_object() -> (value: serde_json::Value)
    ensures
        json_of(value) == JsonView::Object(Map::empty()),
{
    serde_json::Value::Object(serde_json::Map::new())
}

/// `serde_json::Value::Array` of one element.
#[verifier::external_body]
fn json_array_of(element: serde_json::Value) -> (value: serde_json::Value)
    ensures
        json_of(value) == JsonView::Array(seq![json_of(element)]),
{
    serde_json::Value::Array(vec![element])
}

/// Calls `serde_json::Value::is_null`.
#[verifier::external_body]
fn json_is_null(json: &serde_json::Value) -> (null: bool)
    ensures
        null == (json_of(*json) is Null),
{
    json.is_null()
}

/// Calls `serde_json::Value::is_object`.
#[verifier::external_body]
fn json_is_object(json: &serde_json::Value) -> (object: bool)
    ensures
        object == (json_of(*json) is Object),
{
    json.is_object()
}

/// Calls `serde_json::Value::get` with a name, which gives the member of
/// that name of an object, and nothing of any other value.
#[verifier::external_body]
fn json_get<'a>(json: &'a serde_json::Value, key: &str) -> (found: Option<&'a serde_json::Value>)
    ensures
        found is Some <==> has_member(json_of(*json), key@),
        found is Some ==> json_of(*found->0) == members(json_of(*json))[key@],
{
    json.get(key)
}

/// Calls `serde_json::Value::get` with the index zero, which gives the first
/// element of an array that has one, and nothing of any other value.
#[verifier::external_body]
fn json_get_first(json: &serde_json::Value) -> (found: Option<&serde_json::Value>)
    ensures
        found is Some <==> (json_of(*json) matches JsonView::Array(items) && items.len() > 0),
        found is Some ==> json_of(*found->0) == json_of(*json)->Array_0[0],
{
    json.get(0usize)
}

/// Indexes a `serde_json::Value` by a name for writing (`IndexMut`). Null
/// becomes an object first; a name that the object lacks is added with null.
/// What is written into the place afterwards is the member of that name.
/// Any value but an object or null makes the call panic.
#[verifier::external_body]
fn json_at<'a>(json: &'a mut serde_json::Value, key: &str) -> (place: &'a mut serde_json::Value)
    requires
        takes_members(json_of(*old(json))),
    ensures
        json_of(*place) == member(json_of(*old(json)), key@),
        json_of(*final(json)) == with_member(json_of(*old(json)), key@, json_of(*final(place))),
{
    &mut json[key]
}

/// Indexes a `serde_json::Value` by zero for writing (`IndexMut`). What is
/// written into the place afterwards is the first element of the array. Any
/// value but an array with an element makes the call panic.
#[verifier::external_body]
fn json_first(json: &mut serde_json::Value) -> (place: &mut serde_json::Value)
    requires
        json_of(*old(json)) is Array,
        json_of(*old(json))->Array_0.len() > 0,
    ensures
        json_of(*place) == json_of(*old(json))->Array_0[0],
        json_of(*final(json)) == JsonView::Array(
            json_of(*old(json))->Array_0.update(0, json_of(*final(place))),
        ),
{
    &mut json[0]
}

/// What a prompt asks for.
#[derive(Debug, Clone, Copy, PartialEq, Eq, Structural)]
pub enum PromptKind {
    /// Any text.
    Text,
    /// A whole number.
    Integer,
}

/// The value that an answer stands for: null for an empty answer; for a
/// prompt that asks for an integer, the number that the answer writes, where
/// it writes one; the answer's text in every other case.
pub open spec fn scalar_of(kind: PromptKind, value: Seq<char>) -> JsonView {
    if value.len() == 0 {
        JsonView::Null
    } else {
        match kind {
            PromptKind::Text => JsonView::Text(value),
            PromptKind::Integer => match parsed_i32(value) {
                Some(number) => JsonView::Integer(number as int),
                None => JsonView::Text(value),
            },
        }
    }
}

/// The value that an answer stands for.
pub fn to_json(kind: PromptKind, value: &str) -> (scalar: serde_json::Value)
    ensures
        json_of(scalar) == scalar_of(kind, value@),
{
    if value.is_empty() {
        return json_null();
    }
    match kind {
        PromptKind::Text => json_text(value),
        PromptKind::Integer => match parse_i32(value) {
            Some(number) => json_integer(number),
            None => json_text(value),
        },
    }
}

/// The object with one member.
pub open spec fn single(name: Seq<char>, value: JsonView) -> JsonView {
    JsonView::Object(Map::empty().insert(name, value))
}

/// The configuration with a value put where the path says. A path of one
/// segment names a member, which takes the value. A path of two names a
/// scope and a member in it: the scope is what precedes the first `[` of the
/// first segment. Without a `[` the member goes into the value under the
/// scope, or into a new object where the scope is missing. With a `[` it
/// goes into the first element of the array under the scope, or into the one
/// element of a new array where the scope is missing. A path of more
/// segments changes nothing.
pub open spec fn with_value(json: JsonView, path: Seq<char>, value: JsonView) -> JsonView {
    let segments = pieces_of(path, '.');
    if segments.len() == 1 {
        with_member(json, segments[0], value)
    } else if segments.len() == 2 {
        let scope = before_first(segments[0], '[');
        let name = segments[1];
        if !has_member(json, scope) {
            if segments[0].contains('[') {
                with_member(json, scope, JsonView::Array(seq![single(name, value)]))
            } else {
                with_member(json, scope, single(name, value))
            }
        } else {
            let under = members(json)[scope];
            if segments[0].contains('[') {
                with_member(
                    json,
                    scope,
                    JsonView::Array(
                        under->Array_0.update(0, with_member(under->Array_0[0], name, value)),
                    ),
                )
            } else {
                with_member(json, scope, with_member(under, name, value))
            }
        }
    } else {
        json
    }
}

/// Whether a value can be put where the path says: the configuration takes
/// members, and so does what the member is to go into, where that exists.
pub open spec fn can_set(json: JsonView, path: Seq<char>) -> bool {
    let segments = pieces_of(path, '.');
    let scope = before_first(segments[0], '[');
    if segments.len() == 1 {
        takes_members(json)
    } else if segments.len() == 2 {
        if !has_member(json, scope) {
            takes_members(json)
        } else {
            let under = members(json)[scope];
            if segments[0].contains('[') {
                under is Array && under->Array_0.len() > 0 && takes_members(under->Array_0[0])
            } else {
                takes_members(under)
            }
        }
    } else {
        true
    }
}

/// Whether a member can be written into the value.
fn json_takes_members(json: &serde_json::Value) -> (takes: bool)
    ensures
        takes == takes_members(json_of(*json)),
{
    json_is_object(json) || json_is_null(json)
}

/// Whether a value can be put where the path says.
pub fn can_set_value(json: &serde_json::Value, path: &str) -> (fits: bool)
    ensures
        fits == can_set(json_of(*json), path@),
{
    let segments = split_on(path, '.');
    assert(views_of(segments@).len() == segments@.len());
    if segments.len() == 1 {
        return json_takes_members(json);
    }
    if segments.len() != 2 {
        return true;
    }
    assert(views_of(segments@)[0] == segments@[0]@);
    let (scope, list) = split_before_first(segments[0].as_str(), '[');
    match json_get(json, scope.as_str()) {
        None => json_takes_members(json),
        Some(under) => {
            if list {
                match json_get_first(under) {
                    Some(element) => json_takes_members(element),
                    None => false,
                }
            } else {
                json_takes_members(under)
            }
        },
    }
}

/// Puts the value that an answer stands for where the path says.
pub fn set_config_value(json: &mut serde_json::Value, path: &str, kind: PromptKind, value: &str)
    requires
        can_set(json_of(*old(json)), path@),
    ensures
        json_of(*final(json)) == with_value(json_of(*old(json)), path@, scalar_of(kind, value@)),
{
    let segments = split_on(path, '.');
    assert(views_of(segments@).len() == segments@.len());
    if segments.len() == 1 {
        assert(views_of(segments@)[0] == segments@[0]@);
        let place = json_at(json, segments[0].as_str());
        *place = to_json(kind, value);
    } else if segments.len() == 2 {
        assert(views_of(segments@)[0] == segments@[0]@);
        assert(views_of(segments@)[1] == segments@[1]@);
        let (scope, list) = split_before_first(segments[0].as_str(), '[');
        let name = segments[1].as_str();
        let missing = json_get(json, scope.as_str()).is_none();
        if !list {
            if missing {
                let mut obj = json_object();
                let place = json_at(&mut obj, name);
                *place = to_json(kind, value);
                let place = json_at(json, scope.as_str());
                *place = obj;
            } else {
                let under = json_at(json, scope.as_str());
                let place = json_at(under, name);
                *place = to_json(kind, value);
            }
        } else {
            if missing {
                let mut obj = json_object();
                let place = json_at(&mut obj, name);
                *place = to_json(kind, value);
                let place = json_at(json, scope.as_str());
                *place = json_array_of(obj);
            } else {
                let under = json_at(json, scope.as_str());
                let first = json_first(under);
                let place = json_at(first, name);
                *place = to_json(kind, value);
            }
        }
    }
}

/// An answer to one prompt.
#[derive(Debug, PartialEq, Eq)]
pub struct PromptAnswer {
    /// Where the value goes.
    pub path: String,
    /// What the prompt asked for.
    pub kind: PromptKind,
    /// What was answered.
    pub value: String,
}

/// The configuration of a client of the given kind after the answers, each
/// put where its path says, in order. Before the first, it holds the kind
/// under `type`.
pub open spec fn config_after(client: Seq<char>, answers: Seq<PromptAnswer>) -> JsonView
    decreases answers.len(),
{
    if answers.len() == 0 {
        single("type"@, JsonView::Text(client))
    } else {
        with_value(
            config_after(client, answers.drop_last()),
            answers.last().path@,
            scalar_of(answers.last().kind, answers.last().value@),
        )
    }
}

/// Whether each answer can be put where its path says, after those before it.
pub open spec fn answers_fit(client: Seq<char>, answers: Seq<PromptAnswer>) -> bool
    decreases answers.len(),
{
    answers.len() > 0 ==> answers_fit(client, answers.drop_last()) && can_set(
        config_after(client, answers.drop_last()),
        answers.last().path@,
    )
}

/// Answers that fit do so up to any point.
pub proof fn lemma_fit_prefix(client: Seq<char>, answers: Seq<PromptAnswer>, n: int)
    requires
        0 <= n <= answers.len(),
        answers_fit(client, answers),
    ensures
        answers_fit(client, answers.take(n)),
    decreases answers.len(),
{
    if n < answers.len() {
        lemma_fit_prefix(client, answers.drop_last(), n);
        assert(answers.drop_last().take(n) =~= answers.take(n));
    } else {
        assert(answers.take(n) =~= answers);
    }
}

/// The configuration of a new client of the given kind, as the one element of
/// an array of clients; nothing where an answer cannot be put where its path
/// says.
pub fn try_create_config(answers: &[PromptAnswer], client: &str) -> (created: Option<
    serde_json::Value,
>)
    ensures
        created is Some <==> answers_fit(client@, answers@),
        created is Some ==> json_of(created->0) == JsonView::Array(
            seq![config_after(client@, answers@)],
        ),
{
    let mut config = json_object();
    let place = json_at(&mut config, "type");
    *place = json_text(client);
    let mut i: usize = 0;
    while i < answers.len()
        invariant
            i <= answers.len(),
            json_of(config) == config_after(client@, answers@.take(i as int)),
            answers_fit(client@, answers@.take(i as int)),
        decreases answers.len() - i,
    {
        proof {
            assert(answers@.take(i + 1).drop_last() =~= answers@.take(i as int));
        }
        let answer = &answers[i];
        if !can_set_value(&config, answer.path.as_str()) {
            proof {
                if answers_fit(client@, answers@) {
                    lemma_fit_prefix(client@, answers@, i + 1);
                }
            }
            return None;
        }
        set_config_value(&mut config, answer.path.as_str(), answer.kind, answer.value.as_str());
        i = i + 1;
    }
    proof {
        assert(answers@.take(i as int) =~= answers@);
    }
    Some(json_array_of(config))
}

/// The configuration of a new client of the given kind, as the one element of
/// an array of clients.
pub fn create_config(answers: &[PromptAnswer], client: &str) -> (clients: serde_json::Value)
    requires
        answers_fit(client@, answers@),
    ensures
        json_of(clients) == JsonView::Array(seq![config_after(client@, answers@)]),
{
    match try_create_config(answers, client) {
        Some(clients) => clients,
        None => json_null(),
    }
}

} // verus!
