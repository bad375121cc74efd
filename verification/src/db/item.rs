use vstd::prelude::*;
use crate::db::prefill_item::PrefillItem;

verus! {

/// An entry of a shopping list, named in English, Chinese and German.
#[derive(Debug)]
pub struct Item {
    id: i32,
    list_id: i32,
    en_name: String,
    zh_name: String,
    de_name: String,
    img_path: Option<String>,
    estimated_euro_price: i32,
}

pub struct ItemView {
    pub id: i32,
    pub list_id: i32,
    pub en_name: Seq<char>,
    pub zh_name: Seq<char>,
    pub de_name: Seq<char>,
    pub img_path: Option<Seq<char>>,
    pub estimated_euro_price: i32,
}

pub open spec fn opt_view(s: Option<String>) -> Option<Seq<char>> {
    match s {
        Some(t) => Some(t@),
        None => None,
    }
}

impl View for Item {
    type V = ItemView;

    closed spec fn view(&self) -> ItemView {
        ItemView {
            id: self.id,
            list_id: self.list_id,
            en_name: self.en_name@,
            zh_name: self.zh_name@,
            de_name: self.de_name@,
            img_path: opt_view(self.img_path),
            estimated_euro_price: self.estimated_euro_price,
        }
    }
}

/// The fields of an item that is yet to be stored, before it has an id.
#[derive(Debug)]
pub struct ItemDraft {
    pub list_id: i32,
    pub en_name: String,
    pub zh_name: String,
    pub de_name: String,
    pub img_path: Option<String>,
    pub estimated_euro_price: i32,
}

impl Item {
    pub fn new(
        id: i32,
        list_id: i32,
        en_name: String,
        zh_name: String,
        de_name: String,
        img_path: Option<String>,
        estimated_euro_price: i32,
    ) -> (r: Self)
        ensures
            r@ == (ItemView {
                id,
                list_id,
                en_name: en_name@,
                zh_name: zh_name@,
                de_name: de_name@,
                img_path: opt_view(img_path),
                estimated_euro_price,
            }),
    {
        Item { id, list_id, en_name, zh_name, de_name, img_path, estimated_euro_price }
    }

    pub fn id(self) -> (r: i32)
        ensures
            r == self@.id,
    {
        self.id
    }

    pub fn get_id(&self) -> (r: i32)
        ensures
            r == self@.id,
    {
        self.id
    }

    pub fn list_id(&self) -> (r: i32)
        ensures
            r == self@.list_id,
    {
        self.list_id
    }

    pub fn en_name(&self) -> (r: &str)
        ensures
            r@ == self@.en_name,
    {
        self.en_name.as_str()
    }

    pub fn zh_name(&self) -> (r: &str)
        ensures
            r@ == self@.zh_name,
    {
        self.zh_name.as_str()
    }

    pub fn de_name(&self) -> (r: &str)
        ensures
            r@ == self@.de_name,
    {
        self.de_name.as_str()
    }

    pub fn img_path(&self) -> (r: Option<&str>)
        ensures
            match r {
                Some(p) => self@.img_path == Some(p@),
                None => self@.img_path is None,
            },
    {
        match &self.img_path {
            Some(p) => Some(p.as_str()),
            None => None,
        }
    }

    pub fn estimated_euro_price(&self) -> (r: i32)
        ensures
            r == self@.estimated_euro_price,
    {
        self.estimated_euro_price
    }

    /// The item that a prefilled entry becomes on list `list_id`: its three
    /// names, no picture, and its price as the estimate.
    pub fn from_prefill_item(list_id: i32, prefill_item: &PrefillItem) -> (r: ItemDraft)
        ensures
            r.list_id == list_id,
            r.en_name@ == prefill_item@.en_name,
            r.zh_name@ == prefill_item@.zh_name,
            r.de_name@ == prefill_item@.de_name,
            r.img_path is None,
            r.estimated_euro_price == prefill_item@.euro_price,
    {
        ItemDraft {
            list_id,
            en_name: String::from_str(prefill_item.en_name()),
            zh_name: String::from_str(prefill_item.zh_name()),
            de_name: String::from_str(prefill_item.de_name()),
            img_path: None,
            estimated_euro_price: prefill_item.euro_price(),
        }
    }
}

} // verus!
