use grocery::db::item::Item;
use grocery::db::list::List;
use grocery::db::prefill_item::PrefillItem;
use grocery::extractor::flash::Flash;
use grocery::reply::Reply;
use grocery::routing::auth::{get_login, get_logout};
use grocery::routing::index::index_page;
use grocery::routing::item::{
    add_item_page, item_id_from_query, item_modified_reply, item_page, items_added_reply,
    ModifyItemForm,
};
use grocery::routing::list::{
    list_id_from_query, list_modified_reply, list_modify_page, list_page, list_path,
    missing_list_reply, select_list_id, BoughtListItemsForm, ListModifyForm,
};
use grocery::routing::user::{get_signup, signed_up_reply, signup_message};
use tera::Tera;
use tower_cookies::{Cookies, Key};

fn ise() -> Reply {
    Reply::ServerError("internal_server_error.html failed to render".into())
}

#[test]
fn list_paths() {
    assert_eq!(list_path(12), "/list?list_id=12");
    assert_eq!(list_path(-3), "/list?list_id=-3");
}

#[test]
fn list_selection() {
    assert_eq!(select_list_id(Some("8".into()), 1), 8);
    assert_eq!(select_list_id(Some("eight".into()), 1), 1);
    assert_eq!(select_list_id(None, 1), 1);
    assert_eq!(list_id_from_query(Some("3".into())), Some(3));
    assert_eq!(list_id_from_query(Some("x".into())), None);
    assert_eq!(list_id_from_query(None), None);
}

#[test]
fn item_ids() {
    assert_eq!(item_id_from_query(Some("5".into())), Ok(5));
    assert_eq!(item_id_from_query(Some("five".into())), Err("The item id must be an integer number."));
    assert_eq!(item_id_from_query(None), Err("An item id must be provided for the \"/item\" endpoint."));
}

#[test]
fn item_form_picture() {
    let form = |img: &str| ModifyItemForm {
        id: 1,
        list_id: 2,
        en_name: "a".into(),
        zh_name: "b".into(),
        de_name: "c".into(),
        img_path: img.into(),
        estimated_euro_price: 4,
    };
    assert_eq!(form("").into_item().img_path(), None);
    assert_eq!(form("x.png").into_item().img_path(), Some("x.png"));
    assert_eq!(form("x.png").into_item().list_id(), 2);
}

#[test]
fn redirects_after_changes() {
    let tera = Tera::default();
    let item = Item::new(1, 6, "a".into(), "b".into(), "c".into(), None, 0);
    assert_eq!(item_modified_reply(&tera, Some(item)), Reply::Redirect("/list?list_id=6".into()));
    assert_eq!(item_modified_reply(&tera, None), ise());
    assert_eq!(list_modified_reply(&tera, Some(List::new(9, "n".into()))), Reply::Redirect("/list?lit_id=9".into()));
    assert_eq!(list_modified_reply(&tera, None), ise());
    let list = List::new(4, "x".into());
    assert_eq!(items_added_reply(&tera, Some(&list)), Reply::Redirect("/list?list_id=4".into()));
    assert_eq!(items_added_reply(&tera, None), ise());
    let bought = BoughtListItemsForm { list_id: 10, item_ids: vec![1, 2] };
    assert_eq!(bought.redirect(), Reply::Redirect("/list?list_id=10".into()));
    let renamed = ListModifyForm { id: 3, name: "new".into() }.into_list();
    assert_eq!((renamed.get_id(), renamed.name()), (3, "new"));
}

#[test]
fn pages_or_errors() {
    let tera = Tera::default();
    assert!(list_page(&tera, 1, Some(vec![])).is_ok());
    assert_eq!(list_page(&tera, 1, None).unwrap_err(), ise());
    assert_eq!(
        missing_list_reply(&tera),
        Reply::ServerError("not_found.html template missing".into())
    );
    assert!(list_modify_page(&tera, Some(List::new(1, "a".into()))).is_ok());
    assert_eq!(list_modify_page(&tera, None).unwrap_err(), ise());
    assert!(item_page(&tera, None).is_err());
    let prefill = vec![PrefillItem::new(1, "a".into(), "b".into(), "c".into(), 1)];
    let page = add_item_page(&tera, Some(prefill), Some("3".into())).unwrap();
    assert_eq!(page.list_id(), "3");
    assert_eq!(add_item_page(&tera, None, Some("3".into())).unwrap_err(), ise());
    assert_eq!(add_item_page(&tera, Some(vec![]), None).unwrap_err(), ise());
    assert!(index_page(&tera, "amy", Some(vec![])).is_ok());
    assert_eq!(index_page(&tera, "amy", None).unwrap_err(), ise());
}

#[test]
fn signup() {
    assert_eq!(signup_message(42), "Your user id is: 42. Use this id to log in.");
    let tera = Tera::default();
    assert_eq!(get_signup(&tera), ise());
    let key = Key::generate();
    let jar = Cookies::default();
    let mut flash = Flash::from_jar(Some(jar.clone()), Some(key.clone())).unwrap();
    assert_eq!(signed_up_reply(&tera, Some(42), &mut flash), Reply::Redirect("/auth/login".into()));
    let next = Flash::from_jar(Some(jar), Some(key.clone())).unwrap();
    assert_eq!(next.get(), Some("Your user id is: 42. Use this id to log in.".to_string()));
    let jar = Cookies::default();
    let mut flash = Flash::from_jar(Some(jar.clone()), Some(key.clone())).unwrap();
    assert_eq!(signed_up_reply(&tera, None, &mut flash), ise());
    assert!(Flash::from_jar(Some(jar), Some(key)).unwrap().get().is_none());
}

#[test]
fn login_and_logout_pages() {
    let mut tera = Tera::default();
    tera.add_raw_template("login.html", "{{ forward_to | safe }}|{{ flash | default(value='') }}").unwrap();
    tera.add_raw_template("logout.html", "{{ message }}").unwrap();
    let key = Key::generate();
    let mut jar = Cookies::default();
    Flash::from_jar(Some(jar.clone()), Some(key.clone())).unwrap().set("hello");
    let flash = Flash::from_jar(Some(jar.clone()), Some(key.clone())).unwrap();
    assert_eq!(get_login(&tera, Some("/x".into()), flash), Reply::Html("/x|hello".into()));
    grocery::cookies::set_cookie(grocery::cookies::CookieValue::SessionID(3), &mut jar, Some(&key)).unwrap();
    assert_eq!(
        get_logout(&tera, &mut jar, Some(&key)),
        Reply::Html("You have been logged out. Have a nice day.".into())
    );
    assert!(grocery::cookies::CookieKey::SessionID.get(&jar, Some(&key)).is_err());
}
