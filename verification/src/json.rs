//! The values pages are rendered with, as Tera takes them: JSON values.
use vstd::prelude::*;
use tera::Value;

verus! {

#[verifier::external_type_specification]
#[verifier::external_body]
pub struct ExValue(Value);

/// A JSON value, as the contracts speak of it.
pub enum JsonView {
    Null,
    Number(int),
    Text(Seq<char>),
    Array(Seq<JsonView>),
    Object(Map<Seq<char>, JsonView>),
}

/// What a `serde_json::Value` (which Tera re-exports as `tera::Value`) holds.
pub uninterp spec fn json_of(value: Value) -> JsonView;

/// The object that inserting `pairs` in turn into an empty map gives: a later
/// pair of the same key replaces an earlier one.
pub open spec fn pairs_map(pairs: Seq<(Seq<char>, JsonView)>) -> Map<Seq<char>, JsonView>
    decreases pairs.len(),
{
    if pairs.len() == 0 {
        Map::empty()
    } else {
        pairs_map(pairs.drop_last()).insert(pairs.last().0, pairs.last().1)
    }
}

/// The value of an object under `key`, or `None` when the value is no object
/// or has no such key.
pub open spec fn json_field(value: JsonView, key: Seq<char>) -> Option<JsonView> {
    match value {
        JsonView::Object(fields) => if fields.dom().contains(key) {
            Some(fields[key])
        } else {
            None
        },
        _ => None,
    }
}

/// The elements of an array, or none when the value is no array.
pub open spec fn json_elements(value: JsonView) -> Seq<JsonView> {
    match value {
        JsonView::Array(elements) => elements,
        _ => Seq::empty(),
    }
}

/// Appending a pair inserts it into the object the pairs make.
pub proof fn lemma_pairs_map_push(pairs: Seq<(Seq<char>, JsonView)>, key: Seq<char>, value: JsonView)
    ensures
        pairs_map(pairs.push((key, value))) == pairs_map(pairs).insert(key, value),
{
    assert(pairs.push((key, value)).drop_last() =~= pairs);
}

pub open spec fn fields_view(fields: Seq<(String, Value)>) -> Seq<(Seq<char>, JsonView)> {
    fields.map_values(|f: (String, Value)| (f.0@, json_of(f.1)))
}

/// `Value::String`: the text as a JSON string.
#[verifier::external_body]
pub(crate) fn json_text(text: String) -> (v: Value)
    ensures
        json_of(v) == JsonView::Text(text@),
{
    Value::String(text)
}

/// `Value::from` of an `i32`: the number as a JSON number.
#[verifier::external_body]
pub(crate) fn json_number(n: i32) -> (v: Value)
    ensures
        json_of(v) == JsonView::Number(n as int),
{
    Value::from(n)
}

/// `Value::Null`.
#[verifier::external_body]
pub(crate) fn json_null() -> (v: Value)
    ensures
        json_of(v) == JsonView::Null,
{
    Value::Null
}

/// `Value::Array` of the values, in their order.
#[verifier::external_body]
pub(crate) fn json_array(items: Vec<Value>) -> (v: Value)
    ensures
        json_of(v) == JsonView::Array(items@.map_values(|item: Value| json_of(item))),
{
    Value::Array(items)
}

/// `Value::Object` of a `Map` collected from the (key, value) pairs in turn;
/// `Map::insert` replaces the value of a key already there.
#[verifier::external_body]
pub(crate) fn json_object(fields: Vec<(String, Value)>) -> (v: Value)
    ensures
        json_of(v) == JsonView::Object(pairs_map(fields_view(fields@))),
{
    Value::Object(fields.into_iter().collect())
}

} // verus!
