use vstd::prelude::*;

verus! {

/// A suggestion offered when items are added to a list.
#[derive(Debug)]
pub struct PrefillItem {
    id: i32,
    en_name: String,
    zh_name: String,
    de_name: String,
    euro_price: i32,
}

pub struct PrefillItemView {
    pub id: i32,
    pub en_name: Seq<char>,
    pub zh_name: Seq<char>,
    pub de_name: Seq<char>,
    pub euro_price: i32,
}

impl View for PrefillItem {
    type V = PrefillItemView;

    closed spec fn view(&self) -> PrefillItemView {
        PrefillItemView {
            id: self.id,
            en_name: self.en_name@,
            zh_name: self.zh_name@,
            de_name: self.de_name@,
            euro_price: self.euro_price,
        }
    }
}

impl PrefillItem {
    pub fn new(id: i32, en_name: String, zh_name: String, de_name: String, euro_price: i32) -> (r:
        Self)
        ensures
            r@ == (PrefillItemView {
                id,
                en_name: en_name@,
                zh_name: zh_name@,
                de_name: de_name@,
                euro_price,
            }),
    {
        PrefillItem { id, en_name, zh_name, de_name, euro_price }
    }

    pub fn id(&self) -> (r: i32)
        ensures
            r == self@.id,
    {
        self.id
    }

    pub fn en_name(&self) -> (r: &str)
        ensures
            r@ == self@.en_name,
    {
        self.en_name.as_str()
    }

    pub fn zh_name(&self) -> (r: &str)
        ensures
            r@ == self@.zh_name,
    {
        self.zh_name.as_str()
    }

    pub fn de_name(&self) -> (r: &str)
        ensures
            r@ == self@.de_name,
    {
        self.de_name.as_str()
    }

    pub fn euro_price(&self) -> (r: i32)
        ensures
            r == self@.euro_price,
    {
        self.euro_price
    }
}

} // verus!
