use grocery::db::user_creation::{CreationAction, CreationEvent, CreationStage, UserCreation};
use grocery::cookies::CookieValue;
use grocery::db::item::Item;
use grocery::db::list::List;
use grocery::db::list_user_map::ListUserMapping;
use grocery::db::prefill_item::PrefillItem;
use grocery::db::roles::Roles;
use grocery::db::session::Session;
use grocery::db::user::{hash_new_password, CheckPasswordResult, User};

#[test]
fn item_fields() {
    let item = Item::new(3, 4, "milk".into(), "牛奶".into(), "Milch".into(), Some("milk.png".into()), 2);
    assert_eq!(item.list_id(), 4);
    assert_eq!(item.en_name(), "milk");
    assert_eq!(item.zh_name(), "牛奶");
    assert_eq!(item.de_name(), "Milch");
    assert_eq!(item.img_path(), Some("milk.png"));
    assert_eq!(item.estimated_euro_price(), 2);
    assert_eq!(item.id(), 3);
}

#[test]
fn item_from_prefill() {
    let prefill = PrefillItem::new(8, "bread".into(), "面包".into(), "Brot".into(), 3);
    let draft = Item::from_prefill_item(11, &prefill);
    assert_eq!(draft.list_id, 11);
    assert_eq!(draft.en_name, "bread");
    assert_eq!(draft.zh_name, "面包");
    assert_eq!(draft.de_name, "Brot");
    assert_eq!(draft.img_path, None);
    assert_eq!(draft.estimated_euro_price, 3);
    assert_eq!(prefill.id(), 8);
}

#[test]
fn list_fields() {
    let list = List::new(5, "weekly".into());
    assert_eq!(list.get_id(), 5);
    assert_eq!(list.name(), "weekly");
}

#[test]
fn mapping_fields() {
    let m = ListUserMapping::new(1, 2, Roles::Owner.id());
    assert_eq!((m.user_id(), m.list_id(), m.role_id()), (1, 2, 1));
}

#[test]
fn role_ids() {
    assert_eq!(Roles::Owner.id(), 1);
    assert_eq!(Roles::Editor.id(), 2);
    assert_eq!(Roles::Viewer.id(), 3);
}

#[test]
fn session_cookie_value() {
    let session = Session::new(77, 5, 1_700_000_000_000_000);
    assert_eq!(session.as_cookie_value(), CookieValue::SessionID(77));
    assert_eq!(session.user_id(), 5);
    assert_eq!(session.id(), 77);
    assert_eq!(session.start_micros(), 1_700_000_000_000_000);
}

#[test]
fn user_fields() {
    let user = User::new(2, "bob".into(), "hash".into(), 9);
    assert_eq!(user.get_id(), 2);
    assert_eq!(user.name(), "bob");
    assert_eq!(user.default_list(), 9);
    assert_eq!(user.password_hash(), "hash");
}

#[test]
fn fresh_hash_accepts_its_password_only() {
    let hash = hash_new_password("hunter42").unwrap();
    assert!(hash.starts_with("$argon2id$v=19$"));
    assert_ne!(hash, "hunter42");
    let user = User::new(1, "carol".into(), hash, 1);
    assert!(user.has_valid_password_hash());
    assert_eq!(user.check_password(&"hunter42".to_string()), CheckPasswordResult::PasswordCorrect);
    assert_eq!(user.check_password(&"hunter43".to_string()), CheckPasswordResult::PasswordWrong);
    assert_eq!(user.try_check_password(&"hunter42".to_string()), Some(CheckPasswordResult::PasswordCorrect));
}

#[test]
fn two_hashes_of_one_password_differ() {
    let a = hash_new_password("same").unwrap();
    let b = hash_new_password("same").unwrap();
    assert_ne!(a, b);
}

#[test]
fn empty_password_is_hashed_too() {
    let hash = hash_new_password("").unwrap();
    let user = User::new(2, "erin".into(), hash, 1);
    assert_eq!(user.check_password(&String::new()), CheckPasswordResult::PasswordCorrect);
    assert_eq!(user.check_password(&"x".to_string()), CheckPasswordResult::PasswordWrong);
}

#[test]
fn unparseable_hash() {
    let user = User::new(1, "dave".into(), "not a hash".into(), 1);
    assert!(!user.has_valid_password_hash());
    assert_eq!(user.try_check_password(&"x".to_string()), None);
}

#[test]
fn registration_runs_list_user_then_owner_mapping() {
    let (flow, action) = UserCreation::start("zoe".to_string(), "secret".to_string());
    assert!(matches!(&action, CreationAction::CreateList(n) if n == "default"));
    let event = CreationEvent::ListCreated(Some(List::new(31, "default".to_string())));
    assert!(flow.expects(&event));
    let (flow, action) = flow.step(event);
    let hash = match action {
        CreationAction::InsertUser { name, password_hash, default_list_id } => {
            assert_eq!(name, "zoe");
            assert_eq!(default_list_id, 31);
            password_hash
        }
        other => panic!("unexpected {:?}", other),
    };
    let user = User::new(1, "zoe".into(), hash, 31);
    assert_eq!(user.check_password(&"secret".to_string()), CheckPasswordResult::PasswordCorrect);
    let (flow, action) = flow.step(CreationEvent::UserInserted(Some(8)));
    assert!(matches!(action, CreationAction::InsertMapping { user_id: 8, list_id: 31, role_id: 1 }));
    assert!(!flow.expects(&CreationEvent::UserInserted(Some(8))));
    let (flow, action) = flow.step(CreationEvent::MappingInserted(false));
    assert!(matches!(action, CreationAction::Finish(Some(8))));
    assert_eq!(flow.stage(), CreationStage::Finished);
}

#[test]
fn registration_stops_when_a_write_fails() {
    let (flow, _) = UserCreation::start("a".to_string(), "b".to_string());
    let (_, action) = flow.step(CreationEvent::ListCreated(None));
    assert!(matches!(action, CreationAction::Finish(None)));
    let (flow, _) = UserCreation::start("a".to_string(), "b".to_string());
    let (flow, _) = flow.step(CreationEvent::ListCreated(Some(List::new(2, "default".to_string()))));
    let (_, action) = flow.step(CreationEvent::UserInserted(None));
    assert!(matches!(action, CreationAction::Finish(None)));
}
