//! The rows of the database as the pages are rendered with them: each row a
//! JSON object with one field per column, under the column's name.
use vstd::prelude::*;
use tera::Value;
use crate::db::item::{Item, ItemView};
use crate::db::list::{List, ListView};
use crate::db::prefill_item::{PrefillItem, PrefillItemView};
use crate::json::{
    JsonView, fields_view, json_array, json_elements, json_field, json_null, json_number,
    json_object, json_of, json_text, lemma_pairs_map_push, pairs_map,
};

verus! {

/// A text that may be missing: the text, or `null`.
pub open spec fn opt_text_json(text: Option<Seq<char>>) -> JsonView {
    match text {
        Some(t) => JsonView::Text(t),
        None => JsonView::Null,
    }
}

/// An item as the pages see it.
pub open spec fn item_json(item: ItemView) -> JsonView {
    JsonView::Object(
        pairs_map(
            seq![
                ("id"@, JsonView::Number(item.id as int)),
                ("list_id"@, JsonView::Number(item.list_id as int)),
                ("en_name"@, JsonView::Text(item.en_name)),
                ("zh_name"@, JsonView::Text(item.zh_name)),
                ("de_name"@, JsonView::Text(item.de_name)),
                ("img_path"@, opt_text_json(item.img_path)),
                ("estimated_euro_price"@, JsonView::Number(item.estimated_euro_price as int)),
            ],
        ),
    )
}

/// A list as the pages see it.
pub open spec fn list_json(list: ListView) -> JsonView {
    JsonView::Object(
        pairs_map(seq![("id"@, JsonView::Number(list.id as int)), ("name"@, JsonView::Text(list.name))]),
    )
}

/// A suggestion to add as the pages see it.
pub open spec fn prefill_item_json(item: PrefillItemView) -> JsonView {
    JsonView::Object(
        pairs_map(
            seq![
                ("id"@, JsonView::Number(item.id as int)),
                ("en_name"@, JsonView::Text(item.en_name)),
                ("zh_name"@, JsonView::Text(item.zh_name)),
                ("de_name"@, JsonView::Text(item.de_name)),
                ("euro_price"@, JsonView::Number(item.euro_price as int)),
            ],
        ),
    )
}

pub open spec fn items_json(items: Seq<Item>) -> JsonView {
    JsonView::Array(items.map_values(|i: Item| item_json(i@)))
}

pub open spec fn lists_json(lists: Seq<List>) -> JsonView {
    JsonView::Array(lists.map_values(|l: List| list_json(l@)))
}

pub open spec fn prefill_items_json(items: Seq<PrefillItem>) -> JsonView {
    JsonView::Array(items.map_values(|i: PrefillItem| prefill_item_json(i@)))
}

/// The JSON of an item holds each of its columns under the column's own name.
pub open spec fn shows_item(value: JsonView, item: ItemView) -> bool {
    &&& json_field(value, "id"@) == Some(JsonView::Number(item.id as int))
    &&& json_field(value, "list_id"@) == Some(JsonView::Number(item.list_id as int))
    &&& json_field(value, "en_name"@) == Some(JsonView::Text(item.en_name))
    &&& json_field(value, "zh_name"@) == Some(JsonView::Text(item.zh_name))
    &&& json_field(value, "de_name"@) == Some(JsonView::Text(item.de_name))
    &&& json_field(value, "img_path"@) == Some(
        match item.img_path {
            Some(t) => JsonView::Text(t),
            None => JsonView::Null,
        },
    )
    &&& json_field(value, "estimated_euro_price"@) == Some(JsonView::Number(item.estimated_euro_price as int))
}

/// The JSON of a list holds its id and its name under those names.
pub open spec fn shows_list(value: JsonView, list: ListView) -> bool {
    &&& json_field(value, "id"@) == Some(JsonView::Number(list.id as int))
    &&& json_field(value, "name"@) == Some(JsonView::Text(list.name))
}

/// The JSON of a suggestion holds each of its columns under the column's own name.
pub open spec fn shows_prefill_item(value: JsonView, item: PrefillItemView) -> bool {
    &&& json_field(value, "id"@) == Some(JsonView::Number(item.id as int))
    &&& json_field(value, "en_name"@) == Some(JsonView::Text(item.en_name))
    &&& json_field(value, "zh_name"@) == Some(JsonView::Text(item.zh_name))
    &&& json_field(value, "de_name"@) == Some(JsonView::Text(item.de_name))
    &&& json_field(value, "euro_price"@) == Some(JsonView::Number(item.euro_price as int))
}

/// An array that shows each item, in their order.
pub open spec fn shows_items(value: JsonView, items: Seq<Item>) -> bool {
    &&& value is Array
    &&& json_elements(value).len() == items.len()
    &&& forall|k: int| 0 <= k < items.len() ==> shows_item(#[trigger] json_elements(value)[k], items[k]@)
}

/// An array that shows each list, in their order.
pub open spec fn shows_lists(value: JsonView, lists: Seq<List>) -> bool {
    &&& value is Array
    &&& json_elements(value).len() == lists.len()
    &&& forall|k: int| 0 <= k < lists.len() ==> shows_list(#[trigger] json_elements(value)[k], lists[k]@)
}

/// An array that shows each suggestion, in their order.
pub open spec fn shows_prefill_items(value: JsonView, items: Seq<PrefillItem>) -> bool {
    &&& value is Array
    &&& json_elements(value).len() == items.len()
    &&& forall|k: int|
        0 <= k < items.len() ==> shows_prefill_item(#[trigger] json_elements(value)[k], items[k]@)
}

/// The JSON an item is rendered as holds each column of the item under that
/// column's name: no column is left out, moved or taken from another.
pub proof fn lemma_item_json_shows_item(item: ItemView)
    ensures
        shows_item(item_json(item), item),
{
    reveal_strlit("id");
    reveal_strlit("list_id");
    reveal_strlit("en_name");
    reveal_strlit("zh_name");
    reveal_strlit("de_name");
    reveal_strlit("img_path");
    reveal_strlit("estimated_euro_price");
    let p0 = Seq::<(Seq<char>, JsonView)>::empty();
    let p1 = p0.push(("id"@, JsonView::Number(item.id as int)));
    let p2 = p1.push(("list_id"@, JsonView::Number(item.list_id as int)));
    let p3 = p2.push(("en_name"@, JsonView::Text(item.en_name)));
    let p4 = p3.push(("zh_name"@, JsonView::Text(item.zh_name)));
    let p5 = p4.push(("de_name"@, JsonView::Text(item.de_name)));
    let p6 = p5.push(("img_path"@, opt_text_json(item.img_path)));
    let p7 = p6.push(("estimated_euro_price"@, JsonView::Number(item.estimated_euro_price as int)));
    lemma_pairs_map_push(p0, "id"@, JsonView::Number(item.id as int));
    lemma_pairs_map_push(p1, "list_id"@, JsonView::Number(item.list_id as int));
    lemma_pairs_map_push(p2, "en_name"@, JsonView::Text(item.en_name));
    lemma_pairs_map_push(p3, "zh_name"@, JsonView::Text(item.zh_name));
    lemma_pairs_map_push(p4, "de_name"@, JsonView::Text(item.de_name));
    lemma_pairs_map_push(p5, "img_path"@, opt_text_json(item.img_path));
    lemma_pairs_map_push(p6, "estimated_euro_price"@, JsonView::Number(item.estimated_euro_price as int));
    assert(pairs_map(p0) == Map::<Seq<char>, JsonView>::empty());
    assert(p7 =~= seq![
        ("id"@, JsonView::Number(item.id as int)),
        ("list_id"@, JsonView::Number(item.list_id as int)),
        ("en_name"@, JsonView::Text(item.en_name)),
        ("zh_name"@, JsonView::Text(item.zh_name)),
        ("de_name"@, JsonView::Text(item.de_name)),
        ("img_path"@, opt_text_json(item.img_path)),
        ("estimated_euro_price"@, JsonView::Number(item.estimated_euro_price as int)),
    ]);
    // The keys differ in length or in their first letter.
    assert("id"@.len() == 2 && "img_path"@.len() == 8 && "estimated_euro_price"@.len() == 20);
    assert("list_id"@.len() == 7 && "list_id"@[0] == 'l');
    assert("en_name"@.len() == 7 && "en_name"@[0] == 'e');
    assert("zh_name"@.len() == 7 && "zh_name"@[0] == 'z');
    assert("de_name"@.len() == 7 && "de_name"@[0] == 'd');
}

/// The JSON a list is rendered as holds its id and its name under those names.
pub proof fn lemma_list_json_shows_list(list: ListView)
    ensures
        shows_list(list_json(list), list),
{
    reveal_strlit("id");
    reveal_strlit("name");
    let p0 = Seq::<(Seq<char>, JsonView)>::empty();
    let p1 = p0.push(("id"@, JsonView::Number(list.id as int)));
    let p2 = p1.push(("name"@, JsonView::Text(list.name)));
    lemma_pairs_map_push(p0, "id"@, JsonView::Number(list.id as int));
    lemma_pairs_map_push(p1, "name"@, JsonView::Text(list.name));
    assert(pairs_map(p0) == Map::<Seq<char>, JsonView>::empty());
    assert(p2 =~= seq![("id"@, JsonView::Number(list.id as int)), ("name"@, JsonView::Text(list.name))]);
    assert("id"@.len() == 2 && "name"@.len() == 4);
}

/// The JSON a suggestion is rendered as holds each of its columns under that
/// column's name: the Chinese name under `zh_name`, the German under `de_name`.
pub proof fn lemma_prefill_item_json_shows_item(item: PrefillItemView)
    ensures
        shows_prefill_item(prefill_item_json(item), item),
{
    reveal_strlit("id");
    reveal_strlit("en_name");
    reveal_strlit("zh_name");
    reveal_strlit("de_name");
    reveal_strlit("euro_price");
    let p0 = Seq::<(Seq<char>, JsonView)>::empty();
    let p1 = p0.push(("id"@, JsonView::Number(item.id as int)));
    let p2 = p1.push(("en_name"@, JsonView::Text(item.en_name)));
    let p3 = p2.push(("zh_name"@, JsonView::Text(item.zh_name)));
    let p4 = p3.push(("de_name"@, JsonView::Text(item.de_name)));
    let p5 = p4.push(("euro_price"@, JsonView::Number(item.euro_price as int)));
    lemma_pairs_map_push(p0, "id"@, JsonView::Number(item.id as int));
    lemma_pairs_map_push(p1, "en_name"@, JsonView::Text(item.en_name));
    lemma_pairs_map_push(p2, "zh_name"@, JsonView::Text(item.zh_name));
    lemma_pairs_map_push(p3, "de_name"@, JsonView::Text(item.de_name));
    lemma_pairs_map_push(p4, "euro_price"@, JsonView::Number(item.euro_price as int));
    assert(pairs_map(p0) == Map::<Seq<char>, JsonView>::empty());
    assert(p5 =~= seq![
        ("id"@, JsonView::Number(item.id as int)),
        ("en_name"@, JsonView::Text(item.en_name)),
        ("zh_name"@, JsonView::Text(item.zh_name)),
        ("de_name"@, JsonView::Text(item.de_name)),
        ("euro_price"@, JsonView::Number(item.euro_price as int)),
    ]);
    // The keys differ in length or in their first letter.
    assert("id"@.len() == 2 && "euro_price"@.len() == 10);
    assert("en_name"@.len() == 7 && "en_name"@[0] == 'e');
    assert("zh_name"@.len() == 7 && "zh_name"@[0] == 'z');
    assert("de_name"@.len() == 7 && "de_name"@[0] == 'd');
}

/// The array of items a page is rendered with shows every item, in order.
pub proof fn lemma_items_json_shows_items(items: Seq<Item>)
    ensures
        shows_items(items_json(items), items),
{
    assert forall|k: int| 0 <= k < items.len() implies shows_item(
        #[trigger] json_elements(items_json(items))[k],
        items[k]@,
    ) by {
        lemma_item_json_shows_item(items[k]@);
    }
}

/// The array of lists a page is rendered with shows every list, in order.
pub proof fn lemma_lists_json_shows_lists(lists: Seq<List>)
    ensures
        shows_lists(lists_json(lists), lists),
{
    assert forall|k: int| 0 <= k < lists.len() implies shows_list(
        #[trigger] json_elements(lists_json(lists))[k],
        lists[k]@,
    ) by {
        lemma_list_json_shows_list(lists[k]@);
    }
}

/// The array of suggestions a page is rendered with shows every suggestion, in order.
pub proof fn lemma_prefill_items_json_shows_items(items: Seq<PrefillItem>)
    ensures
        shows_prefill_items(prefill_items_json(items), items),
{
    assert forall|k: int| 0 <= k < items.len() implies shows_prefill_item(
        #[trigger] json_elements(prefill_items_json(items))[k],
        items[k]@,
    ) by {
        lemma_prefill_item_json_shows_item(items[k]@);
    }
}

pub fn item_value(item: &Item) -> (v: Value)
    ensures
        json_of(v) == item_json(item@),
        shows_item(json_of(v), item@),
{
    proof { lemma_item_json_shows_item(item@); }
    let img_path = match item.img_path() {
        Some(p) => json_text(String::from_str(p)),
        None => json_null(),
    };
    let mut fields: Vec<(String, Value)> = Vec::new();
    fields.push((String::from_str("id"), json_number(item.get_id())));
    fields.push((String::from_str("list_id"), json_number(item.list_id())));
    fields.push((String::from_str("en_name"), json_text(String::from_str(item.en_name()))));
    fields.push((String::from_str("zh_name"), json_text(String::from_str(item.zh_name()))));
    fields.push((String::from_str("de_name"), json_text(String::from_str(item.de_name()))));
    fields.push((String::from_str("img_path"), img_path));
    fields.push(
        (String::from_str("estimated_euro_price"), json_number(item.estimated_euro_price())),
    );
    let ghost item_fields = seq![
        ("id"@, JsonView::Number(item@.id as int)),
        ("list_id"@, JsonView::Number(item@.list_id as int)),
        ("en_name"@, JsonView::Text(item@.en_name)),
        ("zh_name"@, JsonView::Text(item@.zh_name)),
        ("de_name"@, JsonView::Text(item@.de_name)),
        ("img_path"@, opt_text_json(item@.img_path)),
        ("estimated_euro_price"@, JsonView::Number(item@.estimated_euro_price as int)),
    ];
    assert(fields_view(fields@) =~= item_fields);
    json_object(fields)
}

pub fn list_value(list: &List) -> (v: Value)
    ensures
        json_of(v) == list_json(list@),
        shows_list(json_of(v), list@),
{
    proof { lemma_list_json_shows_list(list@); }
    let mut fields: Vec<(String, Value)> = Vec::new();
    fields.push((String::from_str("id"), json_number(list.get_id())));
    fields.push((String::from_str("name"), json_text(String::from_str(list.name()))));
    let ghost list_fields = seq![
        ("id"@, JsonView::Number(list@.id as int)),
        ("name"@, JsonView::Text(list@.name)),
    ];
    assert(fields_view(fields@) =~= list_fields);
    json_object(fields)
}

pub fn prefill_item_value(item: &PrefillItem) -> (v: Value)
    ensures
        json_of(v) == prefill_item_json(item@),
        shows_prefill_item(json_of(v), item@),
{
    proof { lemma_prefill_item_json_shows_item(item@); }
    let mut fields: Vec<(String, Value)> = Vec::new();
    fields.push((String::from_str("id"), json_number(item.id())));
    fields.push((String::from_str("en_name"), json_text(String::from_str(item.en_name()))));
    fields.push((String::from_str("zh_name"), json_text(String::from_str(item.zh_name()))));
    fields.push((String::from_str("de_name"), json_text(String::from_str(item.de_name()))));
    fields.push((String::from_str("euro_price"), json_number(item.euro_price())));
    let ghost item_fields = seq![
        ("id"@, JsonView::Number(item@.id as int)),
        ("en_name"@, JsonView::Text(item@.en_name)),
        ("zh_name"@, JsonView::Text(item@.zh_name)),
        ("de_name"@, JsonView::Text(item@.de_name)),
        ("euro_price"@, JsonView::Number(item@.euro_price as int)),
    ];
    assert(fields_view(fields@) =~= item_fields);
    json_object(fields)
}

pub fn items_value(items: &Vec<Item>) -> (v: Value)
    ensures
        json_of(v) == items_json(items@),
        shows_items(json_of(v), items@),
{
    proof { lemma_items_json_shows_items(items@); }
    let mut values: Vec<Value> = Vec::new();
    let mut k: usize = 0;
    while k < items.len()
        invariant
            k <= items.len(),
            values@.len() == k,
            forall|j: int| 0 <= j < k ==> json_of(#[trigger] values@[j]) == item_json(items@[j]@),
        decreases items.len() - k,
    {
        values.push(item_value(&items[k]));
        k = k + 1;
    }
    assert(values@.map_values(|x: Value| json_of(x)) =~= items@.map_values(|i: Item| item_json(i@)));
    json_array(values)
}

pub fn lists_value(lists: &Vec<List>) -> (v: Value)
    ensures
        json_of(v) == lists_json(lists@),
        shows_lists(json_of(v), lists@),
{
    proof { lemma_lists_json_shows_lists(lists@); }
    let mut values: Vec<Value> = Vec::new();
    let mut k: usize = 0;
    while k < lists.len()
        invariant
            k <= lists.len(),
            values@.len() == k,
            forall|j: int| 0 <= j < k ==> json_of(#[trigger] values@[j]) == list_json(lists@[j]@),
        decreases lists.len() - k,
    {
        values.push(list_value(&lists[k]));
        k = k + 1;
    }
    assert(values@.map_values(|x: Value| json_of(x)) =~= lists@.map_values(|l: List| list_json(l@)));
    json_array(values)
}

pub fn prefill_items_value(items: &Vec<PrefillItem>) -> (v: Value)
    ensures
        json_of(v) == prefill_items_json(items@),
        shows_prefill_items(json_of(v), items@),
{
    proof { lemma_prefill_items_json_shows_items(items@); }
    let mut values: Vec<Value> = Vec::new();
    let mut k: usize = 0;
    while k < items.len()
        invariant
            k <= items.len(),
            values@.len() == k,
            forall|j: int|
                0 <= j < k ==> json_of(#[trigger] values@[j]) == prefill_item_json(items@[j]@),
        decreases items.len() - k,
    {
        values.push(prefill_item_value(&items[k]));
        k = k + 1;
    }
    assert(values@.map_values(|x: Value| json_of(x)) =~= items@.map_values(
        |i: PrefillItem| prefill_item_json(i@),
    ));
    json_array(values)
}

} // verus!
