use vstd::prelude::*;

verus! {

/// The role a user has on a list.
#[derive(Debug)]
pub struct ListUserMapping {
    user_id: i32,
    list_id: i32,
    role_id: i32,
}

pub struct ListUserMappingView {
    pub user_id: i32,
    pub list_id: i32,
    pub role_id: i32,
}

impl View for ListUserMapping {
    type V = ListUserMappingView;

    closed spec fn view(&self) -> ListUserMappingView {
        ListUserMappingView { user_id: self.user_id, list_id: self.list_id, role_id: self.role_id }
    }
}

impl ListUserMapping {
    pub fn new(user_id: i32, list_id: i32, role_id: i32) -> (r: Self)
        ensures
            r@ == (ListUserMappingView { user_id, list_id, role_id }),
    {
        ListUserMapping { user_id, list_id, role_id }
    }

    pub fn user_id(&self) -> (r: i32)
        ensures
            r == self@.user_id,
    {
        self.user_id
    }

    pub fn list_id(&self) -> (r: i32)
        ensures
            r == self@.list_id,
    {
        self.list_id
    }

    pub fn role_id(&self) -> (r: i32)
        ensures
            r == self@.role_id,
    {
        self.role_id
    }
}

} // verus!
