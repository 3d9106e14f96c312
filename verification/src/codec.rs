//! Reading and writing JSON text with `serde_json`.

use crate::json::{Json, JsonView, elements_view, members_view};
use crate::text::decimal;
use vstd::prelude::*;

verus! {

/// A parsed JSON value of `serde_json`.
#[verifier::external_type_specification]
#[verifier::external_body]
pub struct ExValue(serde_json::Value);

/// What a `serde_json::Value` holds.
pub uninterp spec fn value_view(value: serde_json::Value) -> JsonView;

/// What `serde_json::from_str` makes of a text: the document, or the message of its error.
pub uninterp spec fn parsed_json(text: Seq<char>) -> Result<JsonView, Seq<char>>;

/// The compact text that `serde_json` writes for a document.
pub uninterp spec fn json_text(document: JsonView) -> Seq<char>;

/// Whether a text is read as a document.
pub open spec fn reads_as(text: Seq<char>, document: JsonView) -> bool {
    parsed_json(text) matches Ok(read) && read == document
}

/// A document of texts, integers and objects, nested no deeper than `depth`.
pub open spec fn plain(document: JsonView, depth: nat) -> bool
    decreases depth,
{
    match document {
        JsonView::Str(_) => true,
        JsonView::Number(text) => exists|n: u32| text == #[trigger] decimal(n as nat),
        JsonView::Object(members) => depth > 0 && forall|key: Seq<char>|
            members.contains_key(key) ==> plain(#[trigger] members[key], (depth - 1) as nat),
        _ => false,
    }
}

/// The members of an object that is filled with `pairs` in their order.
pub open spec fn fields(pairs: Seq<(Seq<char>, JsonView)>) -> Map<Seq<char>, JsonView>
    decreases pairs.len(),
{
    if pairs.len() == 0 {
        Map::empty()
    } else {
        fields(pairs.drop_last()).insert(pairs.last().0, pairs.last().1)
    }
}

/// No two pairs have the same key.
pub open spec fn distinct_keys(pairs: Seq<(Seq<char>, JsonView)>) -> bool {
    forall|i: int, j: int|
        0 <= i < j < pairs.len() ==> #[trigger] pairs[i].0 != #[trigger] pairs[j].0
}

/// A `serde_json::Value` opened by one level.
enum Node<'a> {
    Null,
    Bool(bool),
    Number(String),
    Str(&'a String),
    Array(&'a Vec<serde_json::Value>),
    Object(Vec<(&'a String, &'a serde_json::Value)>),
}

/// The keys and values of the members of a node.
spec fn node_pairs(members: Seq<(&String, &serde_json::Value)>) -> Seq<(Seq<char>, JsonView)> {
    members.map_values(|m: (&String, &serde_json::Value)| (m.0@, value_view(*m.1)))
}

impl<'a> Node<'a> {
    spec fn view(&self) -> JsonView {
        match self {
            Node::Null => JsonView::Null,
            Node::Bool(b) => JsonView::Bool(*b),
            Node::Number(text) => JsonView::Number(text@),
            Node::Str(text) => JsonView::Str(text@),
            Node::Array(elements) => JsonView::Array(
                elements@.map_values(|v: serde_json::Value| value_view(v)),
            ),
            Node::Object(members) => JsonView::Object(fields(node_pairs(members@))),
        }
    }
}

/// Tells the variants of a `serde_json::Value` apart and hands out what the variant holds: the
/// members of an object through `serde_json::Map::iter`, which yields each key once, and a
/// number as the text that its `Display` prints.
#[verifier::external_body]
fn open_value<'a>(value: &'a serde_json::Value) -> (node: Node<'a>)
    ensures
        node@ == value_view(*value),
        node matches Node::Object(members) ==> distinct_keys(node_pairs(members@)),
{
    match value {
        serde_json::Value::Null => Node::Null,
        serde_json::Value::Bool(b) => Node::Bool(*b),
        serde_json::Value::Number(number) => Node::Number(number.to_string()),
        serde_json::Value::String(text) => Node::Str(text),
        serde_json::Value::Array(elements) => Node::Array(elements),
        serde_json::Value::Object(members) => Node::Object(members.iter().collect()),
    }
}

/// `serde_json::from_str` reads one JSON document. Which texts it accepts, and with which
/// message it refuses the others, depends on the text alone and has the name `parsed_json`.
#[verifier::external_body]
fn value_from_str(text: &str) -> (parsed: Result<serde_json::Value, String>)
    ensures
        match parsed {
            Ok(value) => parsed_json(text@) matches Ok(document) && document == value_view(value),
            Err(message) => parsed_json(text@) matches Err(refusal) && refusal == message@,
        },
{
    match serde_json::from_str(text) {
        Ok(value) => Ok(value),
        Err(error) => Err(error.to_string()),
    }
}

/// `serde_json::Value::from` makes a string value of a text.
#[verifier::external_body]
pub(crate) fn text_value(text: &str) -> (value: serde_json::Value)
    ensures
        value_view(value) == JsonView::Str(text@),
{
    serde_json::Value::from(text)
}

/// `serde_json::Value::from` makes a number value of an integer, which prints in base ten.
#[verifier::external_body]
pub(crate) fn number_value(n: u32) -> (value: serde_json::Value)
    ensures
        value_view(value) == JsonView::Number(decimal(n as nat)),
{
    serde_json::Value::from(n)
}

/// The keys and values that an object is made of.
pub open spec fn value_pairs(members: Seq<(String, serde_json::Value)>) -> Seq<
    (Seq<char>, JsonView),
> {
    members.map_values(|m: (String, serde_json::Value)| (m.0@, value_view(m.1)))
}

/// `serde_json::Map::from_iter` makes an object of members whose keys differ.
#[verifier::external_body]
pub(crate) fn object_value(members: Vec<(String, serde_json::Value)>) -> (value: serde_json::Value)
    requires
        distinct_keys(value_pairs(members@)),
    ensures
        value_view(value) == JsonView::Object(fields(value_pairs(members@))),
{
    serde_json::Value::Object(members.into_iter().collect())
}

/// The `Display` of a `serde_json::Value` is its compact JSON text. The text depends on what
/// the value holds alone, and has the name `json_text`. `serde_json::from_str` reads back what
/// was written; this is claimed of shallow documents without fractions only, since the reader
/// refuses deep nesting and may round a fraction.
#[verifier::external_body]
pub(crate) fn value_text(value: &serde_json::Value) -> (text: String)
    ensures
        text@ == json_text(value_view(*value)),
        plain(value_view(*value), 8) ==> reads_as(text@, value_view(*value)),
{
    value.to_string()
}

/// Where no two keys are the same, each pair is found under its key.
proof fn lemma_fields_lookup(pairs: Seq<(Seq<char>, JsonView)>, i: int)
    requires
        distinct_keys(pairs),
        0 <= i < pairs.len(),
    ensures
        fields(pairs).contains_key(pairs[i].0),
        fields(pairs)[pairs[i].0] == pairs[i].1,
    decreases pairs.len(),
{
    if i < pairs.len() - 1 {
        let rest = pairs.drop_last();
        assert forall|a: int, b: int| 0 <= a < b < rest.len() implies #[trigger] rest[a].0
            != #[trigger] rest[b].0 by {
            assert(pairs[a].0 != pairs[b].0);
        }
        lemma_fields_lookup(rest, i);
        assert(pairs[i].0 != pairs[pairs.len() - 1].0);
    }
}

/// An object has finitely many members.
proof fn lemma_fields_finite(pairs: Seq<(Seq<char>, JsonView)>)
    ensures
        fields(pairs).dom().finite(),
    decreases pairs.len(),
{
    if pairs.len() > 0 {
        lemma_fields_finite(pairs.drop_last());
    }
}

/// Copies a `serde_json::Value`, level by level.
fn json_of_value(value: &serde_json::Value) -> (json: Json)
    ensures
        json@ == value_view(*value),
    decreases value_view(*value),
{
    match open_value(value) {
        Node::Null => Json::Null,
        Node::Bool(b) => Json::Bool(b),
        Node::Number(text) => Json::Number(text),
        Node::Str(text) => Json::Str(text.clone()),
        Node::Array(elements) => {
            let ghost all = elements@.map_values(|v: serde_json::Value| value_view(v));
            let mut copied: Vec<Json> = Vec::new();
            let mut i: usize = 0;
            while i < elements.len()
                invariant
                    i <= elements.len(),
                    all == elements@.map_values(|v: serde_json::Value| value_view(v)),
                    value_view(*value) == JsonView::Array(all),
                    elements_view(copied@) == all.take(i as int),
                decreases elements.len() - i,
            {
                assert(decreases_to!(value_view(*value) => value_view(*value)->Array_0));
                assert(decreases_to!(all => all[i as int]));
                let ghost before = copied@;
                copied.push(json_of_value(&elements[i]));
                assert(copied@.drop_last() == before);
                assert(all.take(i + 1) == all.take(i as int).push(all[i as int]));
                i += 1;
            }
            assert(all.take(i as int) == all);
            Json::Array(copied)
        },
        Node::Object(members) => {
            let ghost pairs = node_pairs(members@);
            let mut copied: Vec<(String, Json)> = Vec::new();
            let mut i: usize = 0;
            while i < members.len()
                invariant
                    i <= members.len(),
                    pairs == node_pairs(members@),
                    distinct_keys(pairs),
                    value_view(*value) == JsonView::Object(fields(pairs)),
                    members_view(copied@) == fields(pairs.take(i as int)),
                decreases members.len() - i,
            {
                proof {
                    lemma_fields_lookup(pairs, i as int);
                    lemma_fields_finite(pairs);
                    let found = fields(pairs);
                    assert(decreases_to!(value_view(*value) => value_view(*value)->Object_0));
                    assert(decreases_to!(found => found[pairs[i as int].0]));
                }
                let ghost before = copied@;
                copied.push((members[i].0.clone(), json_of_value(members[i].1)));
                assert(copied@.drop_last() == before);
                assert(pairs.take(i + 1).drop_last() == pairs.take(i as int));
                i += 1;
            }
            assert(pairs.take(i as int) == pairs);
            Json::Object(copied)
        },
    }
}

/// Reads one JSON document, or says why `text` is none.
pub fn parse_json(text: &str) -> (parsed: Result<Json, String>)
    ensures
        match parsed {
            Ok(json) => reads_as(text@, json@),
            Err(message) => parsed_json(text@) matches Err(refusal) && refusal == message@,
        },
{
    match value_from_str(text) {
        Ok(value) => Ok(json_of_value(&value)),
        Err(message) => Err(message),
    }
}

/// The document that reports an error.
pub open spec fn error_document(message: Seq<char>) -> JsonView {
    JsonView::Object(map!["error"@ => JsonView::Str(message)])
}

/// The JSON text that reports an error.
pub fn error_text(message: &str) -> (text: String)
    ensures
        text@ == json_text(error_document(message@)),
        reads_as(text@, error_document(message@)),
{
    let members = vec![("error".to_string(), text_value(message))];
    let value = object_value(members);
    proof {
        reveal_with_fuel(fields, 2);
        reveal_with_fuel(plain, 2);
        assert(fields(value_pairs(members@)) =~= map!["error"@ => JsonView::Str(message@)]);
    }
    value_text(&value)
}

} // verus!
