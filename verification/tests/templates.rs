use grocery::db::prefill_item::PrefillItem;
use grocery::db::item::Item;
use grocery::db::list::List;
use grocery::reply::Reply;
use grocery::routing::html_error::not_found;
use grocery::template::{
    AddItemPage, IndexPage, InternalServerErrorPage, ItemPage, ListModifyPage, ListPage,
    LoginPage, LogoutPage, NotFoundPage, SignUpPage,
};
use tera::{Tera, Value};

fn with(templates: &[(&str, &str)]) -> Tera {
    let mut tera = Tera::default();
    for (name, body) in templates {
        tera.add_raw_template(name, body).unwrap();
    }
    tera
}

#[test]
fn not_found_page_renders_its_explanation() {
    let tera = with(&[("not_found.html", "missing: {{ explanation | default(value='-') }}")]);
    assert_eq!(
        NotFoundPage::new(&tera, Some("nothing here")).render(),
        Reply::Html("missing: nothing here".into())
    );
    assert_eq!(NotFoundPage::new(&tera, None).render(), Reply::Html("missing: -".into()));
}

#[test]
fn not_found_page_without_template() {
    let tera = Tera::default();
    assert_eq!(
        NotFoundPage::new(&tera, Some("x")).render(),
        Reply::ServerError("not_found.html template missing".into())
    );
}

#[test]
fn not_found_context() {
    let tera = Tera::default();
    assert_eq!(NotFoundPage::new(&tera, None).context(), vec![]);
    assert_eq!(
        NotFoundPage::new(&tera, Some("why")).context(),
        vec![("explanation".to_string(), Value::String("why".to_string()))]
    );
}

#[test]
fn logout_page() {
    let tera = with(&[("logout.html", "{{ message }}")]);
    assert_eq!(LogoutPage::new(&tera, "bye").render(), Reply::Html("bye".into()));
    let fallback = with(&[("not_found.html", "{{ explanation }}")]);
    assert_eq!(
        LogoutPage::new(&fallback, "bye").render(),
        Reply::Html("logout.html template failed to render.".into())
    );
}

#[test]
fn login_page_defaults_to_root() {
    let tera = with(&[("login.html", "{{ forward_to | safe }}|{{ flash | default(value='') }}")]);
    assert_eq!(LoginPage::new(&tera, None, None).render(), Reply::Html("/|".into()));
    let target = "/list".to_string();
    assert_eq!(
        LoginPage::new(&tera, Some(&target), Some("hi".into())).render(),
        Reply::Html("/list|hi".into())
    );
    assert_eq!(
        LoginPage::new(&tera, None, Some("m".into())).context(),
        vec![
            ("forward_to".to_string(), Value::String("/".to_string())),
            ("flash".to_string(), Value::String("m".to_string())),
        ]
    );
}

#[test]
fn login_page_falls_back() {
    let fallback = with(&[("not_found.html", "{{ explanation }}")]);
    assert_eq!(
        LoginPage::new(&fallback, None, None).render(),
        Reply::Html("login.html template failed to render".into())
    );
}

#[test]
fn error_pages_without_templates() {
    let tera = Tera::default();
    assert_eq!(
        InternalServerErrorPage::new(&tera).render(),
        Reply::ServerError("internal_server_error.html failed to render".into())
    );
    assert_eq!(
        SignUpPage::new(&tera).render(),
        Reply::ServerError("internal_server_error.html failed to render".into())
    );
    let ise = with(&[("internal_server_error.html", "oops")]);
    assert_eq!(SignUpPage::new(&ise).render(), Reply::Html("oops".into()));
}

#[test]
fn data_pages_finish() {
    let tera = with(&[("internal_server_error.html", "oops"), ("not_found.html", "{{ explanation }}")]);
    let list_page = ListPage::new(&tera, vec![], 4);
    assert_eq!(list_page.template_name(), "list.html");
    assert_eq!(list_page.list_id(), 4);
    assert_eq!(list_page.finish(None), Reply::Html("list.html template failed to render".into()));
    let index = IndexPage::new(&tera, "amy", vec![List::new(1, "a".into())]);
    assert_eq!(index.template_name(), "index.html");
    assert_eq!(index.username(), "amy");
    assert_eq!(index.lists().len(), 1);
    assert_eq!(index.finish(Some("page".into())), Reply::Html("page".into()));
    let item = ItemPage::new(&tera, Item::new(1, 2, "a".into(), "b".into(), "c".into(), None, 0));
    assert_eq!(item.template_name(), "item.html");
    assert_eq!(item.finish(None), Reply::Html("oops".into()));
    let add = AddItemPage::new(&tera, vec![], "7".into());
    assert_eq!(add.template_name(), "add_item.html");
    assert_eq!(add.list_id(), "7");
    assert_eq!(add.finish(None), Reply::Html("oops".into()));
    let modify = ListModifyPage::new(&tera, List::new(3, "x".into()));
    assert_eq!(modify.template_name(), "list_modify.html");
    assert_eq!(modify.list().get_id(), 3);
    assert_eq!(modify.finish(None), Reply::Html("oops".into()));
}

#[test]
fn plain_not_found_page() {
    let tera = with(&[("not_found.html", "[{{ flash }}]")]);
    assert_eq!(not_found(&tera, "gone"), Reply::Html("[gone]".into()));
    assert_eq!(
        not_found(&Tera::default(), "gone"),
        Reply::ServerError("Error rendering template.".into())
    );
}

#[test]
fn finishing_string_pages() {
    let tera = with(&[("not_found.html", "{{ explanation }}")]);
    assert_eq!(NotFoundPage::new(&tera, None).template_name(), "not_found.html");
    assert_eq!(NotFoundPage::new(&tera, None).finish(Some("p".into())), Reply::Html("p".into()));
    assert_eq!(
        NotFoundPage::new(&tera, None).finish(None),
        Reply::ServerError("not_found.html template missing".into())
    );
    assert_eq!(LogoutPage::new(&tera, "m").template_name(), "logout.html");
    assert_eq!(
        LogoutPage::new(&tera, "m").finish(None),
        Reply::Html("logout.html template failed to render.".into())
    );
    assert_eq!(LoginPage::new(&tera, None, None).template_name(), "login.html");
    assert_eq!(LoginPage::new(&tera, None, None).finish(Some("q".into())), Reply::Html("q".into()));
    assert_eq!(InternalServerErrorPage::new(&tera).template_name(), "internal_server_error.html");
    assert_eq!(
        InternalServerErrorPage::new(&tera).finish(None),
        Reply::ServerError("internal_server_error.html failed to render".into())
    );
    assert_eq!(SignUpPage::new(&tera).template_name(), "signup.html");
    assert_eq!(
        SignUpPage::new(&tera).finish(None),
        Reply::ServerError("internal_server_error.html failed to render".into())
    );
    assert_eq!(
        grocery::routing::html_error::not_found_finish(None),
        Reply::ServerError("Error rendering template.".into())
    );
}

#[test]
fn data_pages_keep_their_templates() {
    let tera = with(&[("list.html", "l")]);
    let other = with(&[("list.html", "l")]);
    let list_page = ListPage::new(&tera, vec![], 4);
    assert!(std::ptr::eq(list_page.templates(), &tera));
    assert!(!std::ptr::eq(list_page.templates(), &other));
    let index = IndexPage::new(&tera, "amy", vec![]);
    assert!(std::ptr::eq(index.templates(), &tera));
    let item = ItemPage::new(&tera, Item::new(1, 2, "a".into(), "b".into(), "c".into(), None, 0));
    assert!(std::ptr::eq(item.templates(), &tera));
    let add = AddItemPage::new(&tera, vec![], "7".into());
    assert!(std::ptr::eq(add.templates(), &tera));
    let modify = ListModifyPage::new(&tera, List::new(3, "x".into()));
    assert!(std::ptr::eq(modify.templates(), &tera));
}

#[test]
fn string_pages_render_with_the_templates_given() {
    let tera = with(&[("signup.html", "register"), ("internal_server_error.html", "oops")]);
    let empty = Tera::default();
    assert_eq!(SignUpPage::new(&tera).render(), Reply::Html("register".into()));
    assert_eq!(InternalServerErrorPage::new(&tera).render(), Reply::Html("oops".into()));
    assert_eq!(
        InternalServerErrorPage::new(&empty).render(),
        Reply::ServerError("internal_server_error.html failed to render".into())
    );
}

#[test]
fn data_pages_render_their_rows() {
    let tera = with(&[
        ("list.html", "{{ list_id }}:{% for i in items %}{{ i.id }}/{{ i.en_name }}/{{ i.img_path | default(value='none') }}/{{ i.estimated_euro_price }};{% endfor %}"),
        ("index.html", "{{ username }}:{% for l in lists %}{{ l.id }}={{ l.name }};{% endfor %}"),
        ("item.html", "{{ item.zh_name }}|{{ item.de_name }}|{{ item.list_id }}"),
        ("add_item.html", "{{ list_id }}:{% for p in prefill_items %}{{ p.en_name }}@{{ p.euro_price }};{% endfor %}"),
        ("list_modify.html", "{{ list.id }}:{{ list.name }}"),
    ]);
    let items = vec![
        Item::new(1, 4, "milk".into(), "nai".into(), "Milch".into(), Some("m.png".into()), 129),
        Item::new(2, 4, "egg".into(), "dan".into(), "Ei".into(), None, 30),
    ];
    assert_eq!(
        ListPage::new(&tera, items, 4).render(),
        Reply::Html("4:1/milk/m.png/129;2/egg/none/30;".into())
    );
    assert_eq!(
        IndexPage::new(&tera, "amy", vec![List::new(1, "a".into()), List::new(5, "b".into())]).render(),
        Reply::Html("amy:1=a;5=b;".into())
    );
    assert_eq!(
        ItemPage::new(&tera, Item::new(1, 2, "a".into(), "b".into(), "c".into(), None, 0)).render(),
        Reply::Html("b|c|2".into())
    );
    let prefill = vec![PrefillItem::new(1, "rice".into(), "mi".into(), "Reis".into(), 250)];
    assert_eq!(
        AddItemPage::new(&tera, prefill, "7".into()).render(),
        Reply::Html("7:rice@250;".into())
    );
    assert_eq!(
        ListModifyPage::new(&tera, List::new(3, "x".into())).render(),
        Reply::Html("3:x".into())
    );
}

#[test]
fn data_pages_fall_back() {
    let tera = with(&[("internal_server_error.html", "oops"), ("not_found.html", "{{ explanation }}")]);
    assert_eq!(
        ListPage::new(&tera, vec![], 1).render(),
        Reply::Html("list.html template failed to render".into())
    );
    assert_eq!(IndexPage::new(&tera, "amy", vec![]).render(), Reply::Html("oops".into()));
    assert_eq!(ListModifyPage::new(&tera, List::new(3, "x".into())).render(), Reply::Html("oops".into()));
}
