//! Registering a user: a default list is created, then the user with a fresh
//! hash of their password and that list as their default, then the mapping
//! that makes them the list's owner. The application performs each write.
use vstd::prelude::*;
use crate::db::list::{List, ListView};
use crate::db::roles::Roles;
use crate::db::user::{argon2_accepts, has_argon2id_prefix, hash_new_password, phc_hash_parses};

verus! {

/// Whether Argon2 accepts a password of this text: its UTF-8 bytes number at
/// most 0xFFFF_FFFF.
pub open spec fn password_hashable(password: Seq<char>) -> bool {
    (vstd::utf8::encode_utf8(password).len() as usize) <= 0xFFFF_FFFF
}

/// Where the registration stands.
#[derive(Debug, Clone, Copy, PartialEq, Eq)]
pub enum CreationStage {
    AwaitingList,
    AwaitingUser,
    AwaitingMapping,
    Finished,
}

/// One registration.
#[derive(Debug)]
pub struct UserCreation {
    name: String,
    password: String,
    stage: CreationStage,
    list_id: i32,
    user_id: i32,
}

pub struct UserCreationView {
    pub name: Seq<char>,
    pub password: Seq<char>,
    pub stage: CreationStage,
    /// The id of the list created, once it is.
    pub list_id: i32,
    /// The id of the user inserted, once they are.
    pub user_id: i32,
}

impl View for UserCreation {
    type V = UserCreationView;

    closed spec fn view(&self) -> UserCreationView {
        UserCreationView {
            name: self.name@,
            password: self.password@,
            stage: self.stage,
            list_id: self.list_id,
            user_id: self.user_id,
        }
    }
}

/// What the application must do next.
#[derive(Debug)]
pub enum CreationAction {
    /// Create a list with this name.
    CreateList(String),
    /// Insert the user with this name, password hash and default list.
    InsertUser { name: String, password_hash: String, default_list_id: i32 },
    /// Map the user to the list with the role of this id.
    InsertMapping { user_id: i32, list_id: i32, role_id: i32 },
    /// Done: the new user's id, or `None` when a write failed.
    Finish(Option<i32>),
}

pub enum CreationActionView {
    CreateList(Seq<char>),
    InsertUser { name: Seq<char>, password_hash: Seq<char>, default_list_id: i32 },
    InsertMapping { user_id: i32, list_id: i32, role_id: i32 },
    Finish(Option<i32>),
}

impl View for CreationAction {
    type V = CreationActionView;

    open spec fn view(&self) -> CreationActionView {
        match self {
            CreationAction::CreateList(n) => CreationActionView::CreateList(n@),
            CreationAction::InsertUser { name, password_hash, default_list_id } => {
                CreationActionView::InsertUser {
                    name: name@,
                    password_hash: password_hash@,
                    default_list_id: *default_list_id,
                }
            },
            CreationAction::InsertMapping { user_id, list_id, role_id } => {
                CreationActionView::InsertMapping {
                    user_id: *user_id,
                    list_id: *list_id,
                    role_id: *role_id,
                }
            },
            CreationAction::Finish(id) => CreationActionView::Finish(*id),
        }
    }
}

/// What the application reports back.
#[derive(Debug)]
pub enum CreationEvent {
    /// The list created (`None` when creating it failed).
    ListCreated(Option<List>),
    /// The id of the user inserted (`None` when inserting failed).
    UserInserted(Option<i32>),
    /// Whether the mapping was inserted; the registration ends either way.
    MappingInserted(bool),
}

pub enum CreationEventView {
    ListCreated(Option<ListView>),
    UserInserted(Option<i32>),
    MappingInserted(bool),
}

impl View for CreationEvent {
    type V = CreationEventView;

    open spec fn view(&self) -> CreationEventView {
        match self {
            CreationEvent::ListCreated(Some(l)) => CreationEventView::ListCreated(Some(l@)),
            CreationEvent::ListCreated(None) => CreationEventView::ListCreated(None),
            CreationEvent::UserInserted(id) => CreationEventView::UserInserted(*id),
            CreationEvent::MappingInserted(b) => CreationEventView::MappingInserted(*b),
        }
    }
}

/// Whether `event` is what a registration at `stage` waits for.
pub open spec fn creation_expects(stage: CreationStage, event: CreationEventView) -> bool {
    match (stage, event) {
        (CreationStage::AwaitingList, CreationEventView::ListCreated(_)) => true,
        (CreationStage::AwaitingUser, CreationEventView::UserInserted(_)) => true,
        (CreationStage::AwaitingMapping, CreationEventView::MappingInserted(_)) => true,
        _ => false,
    }
}

/// Whether `next` and `action` are what a registration in state `flow` goes
/// to and asks for once `event` is reported. The password hash is made with a
/// random salt, so of the user's row only what holds of every hash is stated:
/// it parses, it accepts the registration's password, and it begins as an
/// Argon2id hash does.
pub open spec fn creation_step_ok(
    flow: UserCreationView,
    event: CreationEventView,
    next: UserCreationView,
    action: CreationActionView,
) -> bool {
    &&& next.name == flow.name
    &&& next.password == flow.password
    &&& match event {
        CreationEventView::ListCreated(None) => {
            &&& next == (UserCreationView { stage: CreationStage::Finished, ..flow })
            &&& action == CreationActionView::Finish(None)
        },
        CreationEventView::ListCreated(Some(list)) => {
            &&& next == (UserCreationView { stage: CreationStage::AwaitingUser, list_id: list.id, ..flow })
            &&& action matches CreationActionView::InsertUser { name, password_hash, default_list_id }
            &&& name == flow.name
            &&& default_list_id == list.id
            &&& phc_hash_parses(password_hash)
            &&& argon2_accepts(password_hash, flow.password)
            &&& has_argon2id_prefix(password_hash)
        },
        CreationEventView::UserInserted(None) => {
            &&& next == (UserCreationView { stage: CreationStage::Finished, ..flow })
            &&& action == CreationActionView::Finish(None)
        },
        CreationEventView::UserInserted(Some(user_id)) => {
            &&& next == (UserCreationView { stage: CreationStage::AwaitingMapping, user_id, ..flow })
            &&& action == CreationActionView::InsertMapping {
                user_id,
                list_id: flow.list_id,
                role_id: Roles::Owner.id_spec(),
            }
        },
        CreationEventView::MappingInserted(_) => {
            &&& next == (UserCreationView { stage: CreationStage::Finished, ..flow })
            &&& action == CreationActionView::Finish(Some(flow.user_id))
        },
    }
}

impl UserCreation {
    #[verifier::type_invariant]
    spec fn password_fits(&self) -> bool {
        password_hashable(self.password@)
    }

    /// Starts registering a user with `name` and `password`: first a list
    /// named "default" is created. A password that Argon2 refuses (over
    /// 0xFFFF_FFFF bytes) is left out.
    pub fn start(name: String, password: String) -> (r: (UserCreation, CreationAction))
        requires
            password_hashable(password@),
        ensures
            r.0@.name == name@,
            r.0@.password == password@,
            r.0@.stage == CreationStage::AwaitingList,
            r.1@ == CreationActionView::CreateList("default"@),
    {
        (
            UserCreation { name, password, stage: CreationStage::AwaitingList, list_id: 0, user_id: 0 },
            CreationAction::CreateList(String::from_str("default")),
        )
    }

    /// Whether `event` is what this registration waits for.
    pub fn expects(&self, event: &CreationEvent) -> (b: bool)
        ensures
            b == creation_expects(self@.stage, event@),
    {
        match (self.stage, event) {
            (CreationStage::AwaitingList, CreationEvent::ListCreated(_)) => true,
            (CreationStage::AwaitingUser, CreationEvent::UserInserted(_)) => true,
            (CreationStage::AwaitingMapping, CreationEvent::MappingInserted(_)) => true,
            _ => false,
        }
    }

    pub fn stage(&self) -> (r: CreationStage)
        ensures
            r == self@.stage,
    {
        self.stage
    }

    /// Takes in what the application reports and says what it must do next.
    pub fn step(self, event: CreationEvent) -> (r: (UserCreation, CreationAction))
        requires
            creation_expects(self@.stage, event@),
        ensures
            creation_step_ok(self@, event@, r.0@, r.1@),
    {
        proof { use_type_invariant(&self); }
        match event {
            CreationEvent::ListCreated(None) | CreationEvent::UserInserted(None) => {
                (UserCreation { stage: CreationStage::Finished, ..self }, CreationAction::Finish(None))
            },
            CreationEvent::ListCreated(Some(list)) => {
                let list_id = list.get_id();
                match hash_new_password(self.password.as_str()) {
                    Some(password_hash) => {
                        let name = self.name.clone();
                        (
                            UserCreation { stage: CreationStage::AwaitingUser, list_id, ..self },
                            CreationAction::InsertUser { name, password_hash, default_list_id: list_id },
                        )
                    },
                    None => {
                        assert(false);
                        (UserCreation { stage: CreationStage::Finished, ..self }, CreationAction::Finish(None))
                    },
                }
            },
            CreationEvent::UserInserted(Some(user_id)) => {
                let list_id = self.list_id;
                (
                    UserCreation { stage: CreationStage::AwaitingMapping, user_id, ..self },
                    CreationAction::InsertMapping { user_id, list_id, role_id: Roles::Owner.id() },
                )
            },
            CreationEvent::MappingInserted(_) => {
                let user_id = self.user_id;
                (UserCreation { stage: CreationStage::Finished, ..self }, CreationAction::Finish(Some(user_id)))
            },
        }
    }
}

/// A registration ends with a user's id only after the default list was
/// created, the user was inserted with that list as default and a hash that
/// accepts their password (and is not the password itself, unless that begins
/// as an Argon2id hash does), and the user was made the list's owner; and that
/// id is the one the database gave the user.
pub proof fn lemma_registration_success_makes_owner(
    f0: UserCreationView,
    e1: CreationEventView,
    f1: UserCreationView,
    a1: CreationActionView,
    e2: CreationEventView,
    f2: UserCreationView,
    a2: CreationActionView,
    e3: CreationEventView,
    f3: UserCreationView,
    a3: CreationActionView,
    user_id: i32,
)
    requires
        f0.stage == CreationStage::AwaitingList,
        creation_expects(f0.stage, e1),
        creation_step_ok(f0, e1, f1, a1),
        creation_expects(f1.stage, e2),
        creation_step_ok(f1, e2, f2, a2),
        creation_expects(f2.stage, e3),
        creation_step_ok(f2, e3, f3, a3),
        a3 == CreationActionView::Finish(Some(user_id)),
    ensures
        e1 matches CreationEventView::ListCreated(Some(list)) && {
            &&& a1 matches CreationActionView::InsertUser { name, password_hash, default_list_id }
                && name == f0.name && default_list_id == list.id && argon2_accepts(
                password_hash,
                f0.password,
            ) && (!has_argon2id_prefix(f0.password) ==> password_hash != f0.password)
            &&& e2 == CreationEventView::UserInserted(Some(user_id))
            &&& a2 == CreationActionView::InsertMapping {
                user_id,
                list_id: list.id,
                role_id: Roles::Owner.id_spec(),
            }
        },
        f3.stage == CreationStage::Finished,
{
}

/// A registration in which every write succeeds (the default list is created,
/// the user is inserted and given an id, the owner mapping is written or not)
/// waits for each of those reports in turn and ends by reporting the id the
/// database gave the new user, whatever became of the mapping.
pub proof fn lemma_successful_registration_reports_the_id(
    f0: UserCreationView,
    list: ListView,
    user_id: i32,
    mapped: bool,
    f1: UserCreationView,
    a1: CreationActionView,
    f2: UserCreationView,
    a2: CreationActionView,
    f3: UserCreationView,
    a3: CreationActionView,
)
    requires
        f0.stage == CreationStage::AwaitingList,
        creation_step_ok(f0, CreationEventView::ListCreated(Some(list)), f1, a1),
        creation_step_ok(f1, CreationEventView::UserInserted(Some(user_id)), f2, a2),
        creation_step_ok(f2, CreationEventView::MappingInserted(mapped), f3, a3),
    ensures
        creation_expects(f0.stage, CreationEventView::ListCreated(Some(list))),
        creation_expects(f1.stage, CreationEventView::UserInserted(Some(user_id))),
        creation_expects(f2.stage, CreationEventView::MappingInserted(mapped)),
        a2 == (CreationActionView::InsertMapping {
            user_id,
            list_id: list.id,
            role_id: Roles::Owner.id_spec(),
        }),
        a3 == CreationActionView::Finish(Some(user_id)),
        f3.stage == CreationStage::Finished,
{
}

} // verus!
