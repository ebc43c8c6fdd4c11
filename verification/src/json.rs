//! JSON documents, as far as the answers of the registry are read.

use vstd::prelude::*;

verus! {

/// A JSON value.
#[derive(Debug, PartialEq)]
pub enum Json {
    Null,
    Bool(bool),
    /// A number, kept as its decimal text.
    Number(String),
    Text(String),
    Array(Vec<Json>),
    /// An object: its members, no name twice.
    Object(Vec<Member>),
}

/// A member of a JSON object.
#[derive(Debug, PartialEq)]
pub struct Member {
    pub name: String,
    pub value: Json,
}

/// Mathematical model of a [`Json`].
pub ghost enum JsonView {
    Null,
    Bool(bool),
    Number(Seq<char>),
    Text(Seq<char>),
    Array(Seq<JsonView>),
    Object(Seq<MemberView>),
}

/// Mathematical model of a [`Member`].
pub ghost struct MemberView {
    pub name: Seq<char>,
    pub value: JsonView,
}

impl DeepView for Json {
    type V = JsonView;

    open spec fn deep_view(&self) -> JsonView
        decreases self,
    {
        match self {
            Json::Null => JsonView::Null,
            Json::Bool(flag) => JsonView::Bool(*flag),
            Json::Number(digits) => JsonView::Number(digits@),
            Json::Text(text) => JsonView::Text(text@),
            Json::Array(items) => JsonView::Array(
                Seq::new(
                    items@.len(),
                    |i: int|
                        if 0 <= i < items@.len() {
                            items@[i].deep_view()
                        } else {
                            JsonView::Null
                        },
                ),
            ),
            Json::Object(members) => JsonView::Object(
                Seq::new(
                    members@.len(),
                    |i: int|
                        if 0 <= i < members@.len() {
                            MemberView {
                                name: members@[i].name@,
                                value: members@[i].value.deep_view(),
                            }
                        } else {
                            MemberView { name: Seq::empty(), value: JsonView::Null }
                        },
                ),
            ),
        }
    }
}

impl View for Json {
    type V = JsonView;

    open spec fn view(&self) -> JsonView {
        self.deep_view()
    }
}

/// The document type of `serde_json`, from which a [`Json`] is made.
#[verifier::external_type_specification]
#[verifier::external_body]
pub struct ExValue(serde_json::Value);

/// The JSON value that a text denotes, as `serde_json::from_slice` reads it;
/// nothing where it refuses the text.
pub uninterp spec fn parsed_json(text: Seq<u8>) -> Option<JsonView>;

/// Turns a document of `serde_json` into a [`Json`], variant by variant: a
/// number becomes the text that `Number` displays, the members of an object
/// keep the order in which `Map` hands them out. Nothing is claimed of it
/// here; [`parse`] states what the two together give.
#[verifier::external_body]
fn json_of_value(value: serde_json::Value) -> (document: Json) {
    match value {
        serde_json::Value::Null => Json::Null,
        serde_json::Value::Bool(flag) => Json::Bool(flag),
        serde_json::Value::Number(number) => Json::Number(number.to_string()),
        serde_json::Value::String(text) => Json::Text(text),
        serde_json::Value::Array(items) => Json::Array(
            items.into_iter().map(json_of_value).collect(),
        ),
        serde_json::Value::Object(members) => Json::Object(
            members.into_iter().map(|(name, value)| Member { name, value: json_of_value(value) })
                .collect(),
        ),
    }
}

/// Reads a JSON document.
///
/// Calls `serde_json::from_slice` for a `serde_json::Value` and turns what
/// it gives into a [`Json`]. The contract claims that the outcome is a
/// function of the text alone.
#[verifier::external_body]
pub(crate) fn parse(text: &[u8]) -> (document: Option<Json>)
    ensures
        document.deep_view() == parsed_json(text@),
{
    match serde_json::from_slice::<serde_json::Value>(text) {
        Ok(value) => Some(json_of_value(value)),
        Err(_) => None,
    }
}

/// The value of the first member of that name, if there is one.
pub open spec fn lookup(members: Seq<MemberView>, name: Seq<char>) -> Option<JsonView>
    decreases members.len(),
{
    if members.len() == 0 {
        None
    } else if members[0].name == name {
        Some(members[0].value)
    } else {
        lookup(members.drop_first(), name)
    }
}

impl JsonView {
    /// The member of that name, where the value is an object that has one.
    pub open spec fn member(self, name: Seq<char>) -> Option<JsonView> {
        match self {
            JsonView::Object(members) => lookup(members, name),
            _ => None,
        }
    }

    /// The element at that place, where the value is an array that reaches
    /// so far.
    pub open spec fn element(self, index: int) -> Option<JsonView> {
        match self {
            JsonView::Array(items) => if 0 <= index < items.len() {
                Some(items[index])
            } else {
                None
            },
            _ => None,
        }
    }

    /// The text, where the value is a string.
    pub open spec fn text(self) -> Option<Seq<char>> {
        match self {
            JsonView::Text(text) => Some(text),
            _ => None,
        }
    }
}

impl Json {
    /// Looks up a member of an object by its name.
    pub fn member(&self, name: &String) -> (found: Option<&Json>)
        ensures
            found.deep_view() == self@.member(name@),
    {
        match self {
            Json::Object(members) => {
                let ghost all = self@->Object_0;
                let mut i: usize = 0;
                assert(all.skip(0) =~= all);
                while i < members.len()
                    invariant
                        i <= members.len(),
                        self@ == JsonView::Object(all),
                        all.len() == members.len(),
                        forall|j: int|
                            0 <= j < members.len() ==> all[j] == (MemberView {
                                name: #[trigger] members[j].name@,
                                value: members[j].value.deep_view(),
                            }),
                        lookup(all, name@) == lookup(all.skip(i as int), name@),
                    decreases members.len() - i,
                {
                    assert(all.skip(i as int)[0] == all[i as int]);
                    if members[i].name == *name {
                        return Some(&members[i].value);
                    }
                    assert(all.skip(i as int).drop_first() =~= all.skip(i + 1));
                    i += 1;
                }
                None
            },
            _ => None,
        }
    }

    /// Gets an element of an array by its place.
    pub fn element(&self, index: usize) -> (found: Option<&Json>)
        ensures
            found.deep_view() == self@.element(index as int),
    {
        match self {
            Json::Array(items) => if index < items.len() {
                Some(&items[index])
            } else {
                None
            },
            _ => None,
        }
    }

    /// Gets the text of a string.
    pub fn text(&self) -> (found: Option<&String>)
        ensures
            found.deep_view() == self@.text(),
    {
        match self {
            Json::Text(text) => Some(text),
            _ => None,
        }
    }
}

} // verus!
