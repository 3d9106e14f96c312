//! JSON documents and how their parts are looked up.

use crate::text::same_text;
use vstd::prelude::*;

verus! {

/// What a JSON document holds.
///
/// A number is kept as its text, the way a compact JSON writer prints it.
pub enum JsonView {
    Null,
    Bool(bool),
    Number(Seq<char>),
    Str(Seq<char>),
    Array(Seq<JsonView>),
    Object(Map<Seq<char>, JsonView>),
}

impl JsonView {
    /// The member of an object under `key`; nothing for any other document.
    pub open spec fn get(self, key: Seq<char>) -> Option<JsonView> {
        match self {
            JsonView::Object(members) => if members.contains_key(key) {
                Some(members[key])
            } else {
                None
            },
            _ => None,
        }
    }

    /// The text of a string; nothing for any other document.
    pub open spec fn as_str(self) -> Option<Seq<char>> {
        match self {
            JsonView::Str(text) => Some(text),
            _ => None,
        }
    }

    /// The elements of an array; nothing for any other document.
    pub open spec fn as_array(self) -> Option<Seq<JsonView>> {
        match self {
            JsonView::Array(elements) => Some(elements),
            _ => None,
        }
    }

    /// The text of the member under `key`, where it is a string.
    pub open spec fn text_at(self, key: Seq<char>) -> Option<Seq<char>> {
        match self.get(key) {
            Some(member) => member.as_str(),
            None => None,
        }
    }

    /// The elements of the member under `key`, where it is an array.
    pub open spec fn elements_at(self, key: Seq<char>) -> Option<Seq<JsonView>> {
        match self.get(key) {
            Some(member) => member.as_array(),
            None => None,
        }
    }
}

/// A JSON document.
///
/// Of two members of an object with the same key the later one counts.
#[derive(Debug, PartialEq, Eq)]
pub enum Json {
    Null,
    Bool(bool),
    Number(String),
    Str(String),
    Array(Vec<Json>),
    Object(Vec<(String, Json)>),
}

/// What the elements of an array hold, in their order.
pub open spec fn elements_view(elements: Seq<Json>) -> Seq<JsonView>
    decreases elements,
{
    if elements.len() == 0 {
        Seq::empty()
    } else {
        elements_view(elements.drop_last()).push(elements.last().view())
    }
}

/// What the members of an object hold, by their keys.
pub open spec fn members_view(members: Seq<(String, Json)>) -> Map<Seq<char>, JsonView>
    decreases members,
{
    if members.len() == 0 {
        Map::empty()
    } else {
        members_view(members.drop_last()).insert(members.last().0@, members.last().1.view())
    }
}

/// The view of an array's elements is the views of the elements.
pub proof fn lemma_elements_view(elements: Seq<Json>)
    ensures
        elements_view(elements).len() == elements.len(),
        forall|i: int|
            0 <= i < elements.len() ==> #[trigger] elements_view(elements)[i] == elements[i].view(),
    decreases elements.len(),
{
    if elements.len() > 0 {
        lemma_elements_view(elements.drop_last());
        assert forall|i: int| 0 <= i < elements.len() implies #[trigger] elements_view(elements)[i]
            == elements[i].view() by {
            if i < elements.len() - 1 {
                assert(elements_view(elements)[i] == elements_view(elements.drop_last())[i]);
            }
        }
    }
}

impl Json {
    pub open spec fn view(&self) -> JsonView
        decreases self,
    {
        match self {
            Json::Null => JsonView::Null,
            Json::Bool(b) => JsonView::Bool(*b),
            Json::Number(text) => JsonView::Number(text@),
            Json::Str(text) => JsonView::Str(text@),
            Json::Array(elements) => JsonView::Array(elements_view(elements@)),
            Json::Object(members) => JsonView::Object(members_view(members@)),
        }
    }

    /// The member of an object under `key`; nothing for any other document.
    pub fn get(&self, key: &str) -> (member: Option<&Json>)
        ensures
            match member {
                Some(json) => self@.get(key@) == Some(json@),
                None => self@.get(key@) is None,
            },
    {
        match self {
            Json::Object(members) => {
                let mut i: usize = members.len();
                assert(members@.take(i as int) =~= members@);
                while i > 0
                    invariant
                        i <= members.len(),
                        *self == Json::Object(*members),
                        self@.get(key@) == JsonView::Object(
                            members_view(members@.take(i as int)),
                        ).get(key@),
                    decreases i,
                {
                    let ghost seen = members@.take(i as int);
                    i -= 1;
                    assert(seen.drop_last() =~= members@.take(i as int));
                    assert(seen.last() == members[i as int]);
                    if same_text(members[i].0.as_str(), key) {
                        return Some(&members[i].1);
                    }
                }
                None
            },
            _ => None,
        }
    }

    /// The text of a string; nothing for any other document.
    pub fn as_str(&self) -> (text: Option<&str>)
        ensures
            match text {
                Some(text) => self@.as_str() == Some(text@),
                None => self@.as_str() is None,
            },
    {
        match self {
            Json::Str(text) => Some(text.as_str()),
            _ => None,
        }
    }

    /// The elements of an array; nothing for any other document.
    pub fn as_array(&self) -> (elements: Option<&Vec<Json>>)
        ensures
            match elements {
                Some(elements) => self@.as_array() == Some(elements_view(elements@)),
                None => self@.as_array() is None,
            },
    {
        match self {
            Json::Array(elements) => Some(elements),
            _ => None,
        }
    }

    /// The text of the member under `key`, where it is a string.
    pub fn text_at(&self, key: &str) -> (text: Option<&str>)
        ensures
            match text {
                Some(text) => self@.text_at(key@) == Some(text@),
                None => self@.text_at(key@) is None,
            },
    {
        match self.get(key) {
            Some(member) => member.as_str(),
            None => None,
        }
    }

    /// The elements of the member under `key`, where it is an array.
    pub fn elements_at(&self, key: &str) -> (elements: Option<&Vec<Json>>)
        ensures
            match elements {
                Some(elements) => self@.elements_at(key@) == Some(elements_view(elements@)),
                None => self@.elements_at(key@) is None,
            },
    {
        match self.get(key) {
            Some(member) => member.as_array(),
            None => None,
        }
    }
}

} // verus!
