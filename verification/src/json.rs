//! JSON values, as far as the event payloads need them.

use vstd::prelude::*;
use crate::text::same_text;

verus! {

/// A JSON value. A number is held as its text, which no rule here reads. The
/// members of an object keep their order, and a name is looked up from the
/// front.
#[derive(Debug, PartialEq, Eq)]
pub enum Json {
    Null,
    Bool(bool),
    Number(String),
    Text(String),
    Array(Vec<Json>),
    Object(Vec<(String, Json)>),
}

/// The mathematical value of a [`Json`].
pub enum JsonView {
    Null,
    Bool(bool),
    Number(Seq<char>),
    Text(Seq<char>),
    Array(Seq<JsonView>),
    Object(Seq<(Seq<char>, JsonView)>),
}

/// The mathematical value of `json`.
pub open spec fn json_view(json: Json) -> JsonView
    decreases json,
{
    match json {
        Json::Null => JsonView::Null,
        Json::Bool(b) => JsonView::Bool(b),
        Json::Number(text) => JsonView::Number(text@),
        Json::Text(text) => JsonView::Text(text@),
        Json::Array(items) => JsonView::Array(
            Seq::new(
                items@.len(),
                |i: int|
                    if 0 <= i < items@.len() {
                        json_view(items@[i])
                    } else {
                        JsonView::Null
                    },
            ),
        ),
        Json::Object(members) => JsonView::Object(
            Seq::new(
                members@.len(),
                |i: int|
                    if 0 <= i < members@.len() {
                        (members@[i].0@, json_view(members@[i].1))
                    } else {
                        (Seq::empty(), JsonView::Null)
                    },
            ),
        ),
    }
}

impl View for Json {
    type V = JsonView;

    open spec fn view(&self) -> JsonView {
        json_view(*self)
    }
}

/// The values of `items`, each by its view.
pub open spec fn views_of(items: Seq<Json>) -> Seq<JsonView> {
    items.map_values(|item: Json| item@)
}

/// The members of an object, each name and value by its view.
pub open spec fn member_views_of(members: Seq<(String, Json)>) -> Seq<(Seq<char>, JsonView)> {
    members.map_values(|member: (String, Json)| (member.0@, member.1@))
}

/// The value of the first member called `name`, if there is one.
pub open spec fn lookup(members: Seq<(Seq<char>, JsonView)>, name: Seq<char>) -> Option<JsonView>
    decreases members.len(),
{
    if members.len() == 0 {
        None
    } else if members[0].0 == name {
        Some(members[0].1)
    } else {
        lookup(members.drop_first(), name)
    }
}

/// Where no member before `at` is called `name`, the lookup gives the member
/// at `at` if it is called `name`, and nothing if `at` is the end.
pub proof fn lemma_lookup_at(members: Seq<(Seq<char>, JsonView)>, name: Seq<char>, at: int)
    requires
        0 <= at <= members.len(),
        forall|i: int| 0 <= i < at ==> (#[trigger] members[i]).0 != name,
        at < members.len() ==> members[at].0 == name,
    ensures
        lookup(members, name) == if at < members.len() {
            Some(members[at].1)
        } else {
            None
        },
    decreases members.len(),
{
    if members.len() > 0 && at > 0 {
        let rest = members.drop_first();
        assert forall|i: int| 0 <= i < at - 1 implies (#[trigger] rest[i]).0 != name by {
            assert(rest[i] == members[i + 1]);
        }
        lemma_lookup_at(rest, name, at - 1);
    }
}

impl JsonView {
    /// The characters of a string, and nothing for any other value.
    pub open spec fn text(self) -> Option<Seq<char>> {
        match self {
            JsonView::Text(text) => Some(text),
            _ => None,
        }
    }

    /// The items of an array, and nothing for any other value.
    pub open spec fn items(self) -> Option<Seq<JsonView>> {
        match self {
            JsonView::Array(items) => Some(items),
            _ => None,
        }
    }

    /// The value of the first member called `name` of an object, and nothing
    /// where there is none or for any other value.
    pub open spec fn member(self, name: Seq<char>) -> Option<JsonView> {
        match self {
            JsonView::Object(members) => lookup(members, name),
            _ => None,
        }
    }
}

/// `serde_json::Value`, the tree that `serde_json` builds from a JSON text.
/// What one holds is known only as `json_value_model` of it.
#[verifier::external_type_specification]
#[verifier::external_body]
pub struct ExValue(serde_json::Value);

/// `serde_json::Error`, with which `serde_json` rejects a text. Nothing is
/// known of one.
#[verifier::external_type_specification]
#[verifier::external_body]
pub struct ExError(serde_json::Error);

/// The value that `serde_json::from_str` reads from `text`, and nothing where
/// it rejects the text. Which texts it accepts, and what it reads from them,
/// is not stated here.
pub uninterp spec fn json_text_value(text: Seq<char>) -> Option<JsonView>;

/// The value that a `serde_json::Value` holds: what `json_from_value` moves
/// out of it.
pub uninterp spec fn json_value_model(value: serde_json::Value) -> JsonView;

/// Calls `serde_json::from_str` for a `serde_json::Value`. Believed of it, not
/// proved: whether it accepts the text, and the value that it reads from it,
/// depend on the text alone.
#[verifier::external_body]
fn read_value(text: &str) -> (read: Result<serde_json::Value, serde_json::Error>)
    ensures
        json_text_value(text@) == match read {
            Ok(value) => Some(json_value_model(value)),
            Err(_) => None,
        },
{
    serde_json::from_str::<serde_json::Value>(text)
}

/// Moves a `serde_json::Value` into a [`Json`], variant by variant: the items
/// of an array in their order, the members of an object in the order in which
/// `serde_json::Map` hands them out, a number as the text that its `Display`
/// writes. Believed of it, not proved: what comes out depends on the value
/// alone.
#[verifier::external_body]
fn json_from_value(value: serde_json::Value) -> (json: Json)
    ensures
        json@ == json_value_model(value),
{
    match value {
        serde_json::Value::Null => Json::Null,
        serde_json::Value::Bool(b) => Json::Bool(b),
        serde_json::Value::Number(number) => Json::Number(number.to_string()),
        serde_json::Value::String(text) => Json::Text(text),
        serde_json::Value::Array(items) => Json::Array(
            items.into_iter().map(json_from_value).collect(),
        ),
        serde_json::Value::Object(members) => Json::Object(
            members.into_iter().map(|(name, member)| (name, json_from_value(member))).collect(),
        ),
    }
}

/// The view of an optional value.
pub open spec fn optional_view(value: Option<Json>) -> Option<JsonView> {
    match value {
        Some(json) => Some(json@),
        None => None,
    }
}

impl Json {
    /// Reads a JSON text.
    pub fn parse(text: &str) -> (parsed: Option<Json>)
        ensures
            optional_view(parsed) == json_text_value(text@),
    {
        match read_value(text) {
            Ok(value) => Some(json_from_value(value)),
            Err(_) => None,
        }
    }

    /// The view of an array is the views of its items.
    pub proof fn lemma_view_of_array(items: Vec<Json>)
        ensures
            Json::Array(items)@ == JsonView::Array(views_of(items@)),
    {
        let array = Json::Array(items)@;
        assert(array->Array_0 =~= views_of(items@));
    }

    /// The view of an object is the views of its members.
    pub proof fn lemma_view_of_object(members: Vec<(String, Json)>)
        ensures
            Json::Object(members)@ == JsonView::Object(member_views_of(members@)),
    {
        let object = Json::Object(members)@;
        assert(object->Object_0 =~= member_views_of(members@));
    }

    /// The string that this value is.
    pub fn as_text(&self) -> (text: Option<&str>)
        ensures
            match text {
                Some(t) => self@.text() == Some(t@),
                None => self@.text() is None,
            },
    {
        match self {
            Json::Text(text) => Some(text.as_str()),
            _ => None,
        }
    }

    /// The items of the array that this value is.
    pub fn as_array(&self) -> (items: Option<&Vec<Json>>)
        ensures
            match items {
                Some(v) => self@.items() == Some(views_of(v@)),
                None => self@.items() is None,
            },
    {
        match self {
            Json::Array(items) => {
                proof {
                    Json::lemma_view_of_array(*items);
                }
                Some(items)
            },
            _ => None,
        }
    }

    /// The first member called `name` of the object that this value is.
    pub fn member(&self, name: &str) -> (found: Option<&Json>)
        ensures
            match found {
                Some(value) => self@.member(name@) == Some(value@),
                None => self@.member(name@) is None,
            },
    {
        match self {
            Json::Object(members) => {
                proof {
                    Json::lemma_view_of_object(*members);
                }
                let ghost views = member_views_of(members@);
                let mut i: usize = 0;
                while i < members.len()
                    invariant
                        i <= members.len(),
                        views == member_views_of(members@),
                        self@ == JsonView::Object(views),
                        forall|j: int| 0 <= j < i ==> (#[trigger] views[j]).0 != name@,
                    decreases members.len() - i,
                {
                    if same_text(members[i].0.as_str(), name) {
                        proof {
                            lemma_lookup_at(views, name@, i as int);
                        }
                        return Some(&members[i].1);
                    }
                    i += 1;
                }
                proof {
                    lemma_lookup_at(views, name@, i as int);
                }
                None
            },
            _ => None,
        }
    }
}

} // verus!
