use vstd::prelude::*;

verus! {

/// What a user may do with a list they are mapped to.
#[derive(Debug, Clone, Copy, PartialEq, Eq)]
pub enum Roles {
    Owner,
    Editor,
    Viewer,
}

impl Roles {
    /// The id of the role in the `roles` table.
    pub open spec fn id_spec(self) -> i32 {
        match self {
            Roles::Owner => 1,
            Roles::Editor => 2,
            Roles::Viewer => 3,
        }
    }

    pub fn id(self) -> (r: i32)
        ensures
            r == self.id_spec(),
    {
        match self {
            Self::Owner => 1,
            Self::Editor => 2,
            Self::Viewer => 3,
        }
    }
}

/// Different roles have different ids.
pub proof fn lemma_role_ids_distinct(a: Roles, b: Roles)
    ensures
        a.id_spec() == b.id_spec() ==> a == b,
{
}

} // verus!
