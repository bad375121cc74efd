use vstd::prelude::*;

verus! {

/// A shopping list.
#[derive(Debug)]
pub struct List {
    id: i32,
    name: String,
}

pub struct ListView {
    pub id: i32,
    pub name: Seq<char>,
}

impl View for List {
    type V = ListView;

    closed spec fn view(&self) -> ListView {
        ListView { id: self.id, name: self.name@ }
    }
}

impl List {
    pub fn new(id: i32, name: String) -> (r: Self)
        ensures
            r@ == (ListView { id, name: name@ }),
    {
        List { id, name }
    }

    pub fn get_id(&self) -> (r: i32)
        ensures
            r == self@.id,
    {
        self.id
    }

    pub fn name(&self) -> (r: &str)
        ensures
            r@ == self@.name,
    {
        self.name.as_str()
    }
}

} // verus!
