//! The service's pages: which template each one renders, with which values,
//! and what is answered when rendering fails.
use vstd::prelude::*;
use tera::{Context, Tera, Value};
use crate::json::{JsonView, fields_view, json_number, json_text};
use crate::row_values::{
    item_json, item_value, items_json, items_value, lemma_item_json_shows_item,
    lemma_items_json_shows_items, lemma_list_json_shows_list, lemma_lists_json_shows_lists,
    lemma_prefill_items_json_shows_items, list_json, list_value, lists_json, lists_value,
    prefill_items_json, prefill_items_value, shows_item, shows_items, shows_list, shows_lists,
    shows_prefill_items,
};
use crate::reply::{Reply, ReplyView};
use crate::db::item::Item;
use crate::db::list::List;
use crate::db::prefill_item::PrefillItem;

verus! {

#[verifier::external_type_specification]
#[verifier::external_body]
pub struct ExTera(Tera);

/// Holds of `outcome` when it is a result of `Tera::render` of the template
/// `name` of `templates`, with a `Context` that holds each (key, value) pair of
/// `context` in turn: `Some` of the page, or `None` when rendering failed.
/// Templates may call `now()`, `get_random()` or `get_env()`, so one rendering
/// need not repeat another: this ties an outcome to what the call was handed
/// and says nothing of which outcome comes.
pub uninterp spec fn tera_outcome(
    templates: Tera,
    name: Seq<char>,
    context: Seq<(Seq<char>, JsonView)>,
    outcome: Option<Seq<char>>,
) -> bool;

/// `Tera::render` of the template `name` with a `Context` holding each
/// (key, value) pair of `entries` in turn: `Some` with the page, or `None`
/// when rendering fails. Which of them comes, and the page's text, depend on
/// the templates loaded into `templates` and on what they call, so only the
/// tie to the call's arguments is stated.
#[verifier::external_body]
pub(crate) fn render_template(templates: &Tera, name: &str, entries: &Vec<(String, Value)>) -> (r: Option<String>)
    ensures
        tera_outcome(*templates, name@, entries_view(*entries), opt_page_view(&r)),
{
    let mut context = Context::new();
    for (key, value) in entries.iter() {
        context.insert(key.as_str(), value);
    }
    templates.render(name, &context).ok()
}

pub open spec fn entries_view(entries: Vec<(String, Value)>) -> Seq<(Seq<char>, JsonView)> {
    fields_view(entries@)
}

/// The plain-text answer when even the page for a missing resource fails to render.
pub open spec fn not_found_failure() -> ReplyView {
    ReplyView::ServerError("not_found.html template missing"@)
}

/// The plain-text answer when the error page fails to render.
pub open spec fn internal_error_failure() -> ReplyView {
    ReplyView::ServerError("internal_server_error.html failed to render"@)
}

pub open spec fn opt_page_view(page: &Option<String>) -> Option<Seq<char>> {
    match page {
        Some(p) => Some(p@),
        None => None,
    }
}

/// The answer once a page was rendered: the page, or else `fallback`.
pub open spec fn page_or(outcome: Option<Seq<char>>, fallback: ReplyView) -> ReplyView {
    match outcome {
        Some(page) => ReplyView::Html(page),
        None => fallback,
    }
}

/// The values `not_found.html` is rendered with: the explanation, when there is one.
pub open spec fn not_found_context_spec(explanation: Option<Seq<char>>) -> Seq<(Seq<char>, JsonView)> {
    match explanation {
        Some(e) => seq![("explanation"@, JsonView::Text(e))],
        None => Seq::<(Seq<char>, JsonView)>::empty(),
    }
}

/// The values `login.html` is rendered with: where to forward to, then the
/// message when there is one.
pub open spec fn login_context_spec(forward_to: Seq<char>, flash: Option<Seq<char>>) -> Seq<
    (Seq<char>, JsonView),
> {
    seq![("forward_to"@, JsonView::Text(forward_to))] + match flash {
        Some(f) => seq![("flash"@, JsonView::Text(f))],
        None => Seq::<(Seq<char>, JsonView)>::empty(),
    }
}

/// The answer of a page rendered from `templates` as `name` with `context`:
/// the page, or else an answer that `fallback` allows.
pub open spec fn rendered_or(
    templates: Tera,
    name: Seq<char>,
    context: Seq<(Seq<char>, JsonView)>,
    r: ReplyView,
    fallback: spec_fn(ReplyView) -> bool,
) -> bool {
    exists|o: Option<Seq<char>>|
        #[trigger] tera_outcome(templates, name, context, o) && match o {
            Some(page) => r == ReplyView::Html(page),
            None => fallback(r),
        }
}

/// The values `list.html` is rendered with: the items, then the list's id.
pub open spec fn list_page_context(items: Seq<Item>, list_id: i32) -> Seq<(Seq<char>, JsonView)> {
    seq![("items"@, items_json(items)), ("list_id"@, JsonView::Number(list_id as int))]
}

/// The values `index.html` is rendered with: the user's name, then their lists.
pub open spec fn index_page_context(username: Seq<char>, lists: Seq<List>) -> Seq<(Seq<char>, JsonView)> {
    seq![("username"@, JsonView::Text(username)), ("lists"@, lists_json(lists))]
}

/// The values `item.html` is rendered with: the item.
pub open spec fn item_page_context(item: Item) -> Seq<(Seq<char>, JsonView)> {
    seq![("item"@, item_json(item@))]
}

/// The values `add_item.html` is rendered with: the list's id as text, then
/// the suggestions.
pub open spec fn add_item_page_context(list_id: Seq<char>, prefill_items: Seq<PrefillItem>) -> Seq<
    (Seq<char>, JsonView),
> {
    seq![("list_id"@, JsonView::Text(list_id)), ("prefill_items"@, prefill_items_json(prefill_items))]
}

/// The values `list_modify.html` is rendered with: the list.
pub open spec fn list_modify_page_context(list: List) -> Seq<(Seq<char>, JsonView)> {
    seq![("list"@, list_json(list@))]
}

/// The item page is rendered with the item it was made with, every column of
/// it under that column's name.
pub proof fn lemma_item_page_shows_its_item(item: Item)
    ensures
        item_page_context(item).len() == 1,
        item_page_context(item)[0].0 == "item"@,
        shows_item(item_page_context(item)[0].1, item@),
{
    lemma_item_json_shows_item(item@);
}

/// The page of suggestions is rendered with the list's id and with every
/// suggestion, in order, each column under that column's name.
pub proof fn lemma_add_item_page_shows_its_suggestions(list_id: Seq<char>, prefill_items: Seq<PrefillItem>)
    ensures
        add_item_page_context(list_id, prefill_items).len() == 2,
        add_item_page_context(list_id, prefill_items)[0] == ("list_id"@, JsonView::Text(list_id)),
        add_item_page_context(list_id, prefill_items)[1].0 == "prefill_items"@,
        shows_prefill_items(add_item_page_context(list_id, prefill_items)[1].1, prefill_items),
{
    lemma_prefill_items_json_shows_items(prefill_items);
}

/// The list page is rendered with every item of the list, in order, and the
/// list's id.
pub proof fn lemma_list_page_shows_its_items(items: Seq<Item>, list_id: i32)
    ensures
        list_page_context(items, list_id).len() == 2,
        list_page_context(items, list_id)[0].0 == "items"@,
        shows_items(list_page_context(items, list_id)[0].1, items),
        list_page_context(items, list_id)[1] == ("list_id"@, JsonView::Number(list_id as int)),
{
    lemma_items_json_shows_items(items);
}

/// The answer of the page for a missing resource, rendered from `templates`
/// with `explanation`: the page, or else plain text.
pub open spec fn not_found_page_reply(templates: Tera, explanation: Option<Seq<char>>, r: ReplyView) -> bool {
    exists|o: Option<Seq<char>>|
        #[trigger] tera_outcome(templates, "not_found.html"@, not_found_context_spec(explanation), o)
            && r == page_or(o, not_found_failure())
}

/// The answer of the error page, rendered from `templates` with no values:
/// the page, or else plain text.
pub open spec fn error_page_reply(templates: Tera, r: ReplyView) -> bool {
    exists|o: Option<Seq<char>>|
        #[trigger] tera_outcome(templates, "internal_server_error.html"@, Seq::<(Seq<char>, JsonView)>::empty(), o)
            && r == page_or(o, internal_error_failure())
}

/// The answer of the goodbye page, rendered from `templates` with `message`:
/// the page, or else the page for a missing resource that says it failed.
pub open spec fn logout_page_reply(templates: Tera, message: Seq<char>, r: ReplyView) -> bool {
    exists|o: Option<Seq<char>>|
        #[trigger] tera_outcome(templates, "logout.html"@, seq![("message"@, JsonView::Text(message))], o) && match o {
            Some(page) => r == ReplyView::Html(page),
            None => not_found_page_reply(templates, Some("logout.html template failed to render."@), r),
        }
}

/// The answer of the login form, rendered from `templates` with where to
/// forward to and the message: the page, or else the page for a missing
/// resource that says it failed.
pub open spec fn login_page_reply(templates: Tera, forward_to: Seq<char>, flash: Option<Seq<char>>, r: ReplyView) -> bool {
    exists|o: Option<Seq<char>>|
        #[trigger] tera_outcome(templates, "login.html"@, login_context_spec(forward_to, flash), o) && match o {
            Some(page) => r == ReplyView::Html(page),
            None => not_found_page_reply(templates, Some("login.html template failed to render"@), r),
        }
}

/// The answer of the registration form, rendered from `templates` with no
/// values: the page, or else the error page.
pub open spec fn signup_page_reply(templates: Tera, r: ReplyView) -> bool {
    exists|o: Option<Seq<char>>|
        #[trigger] tera_outcome(templates, "signup.html"@, Seq::<(Seq<char>, JsonView)>::empty(), o) && match o {
            Some(page) => r == ReplyView::Html(page),
            None => error_page_reply(templates, r),
        }
}

/// The page for a missing resource, with an optional explanation.
#[derive(Debug)]
pub struct NotFoundPage<'a> {
    explanation: Option<String>,
    templates: &'a Tera,
}

impl<'a> NotFoundPage<'a> {
    /// The templates the page is rendered with.
    pub closed spec fn templates_spec(&self) -> &'a Tera {
        self.templates
    }

    pub closed spec fn explanation_spec(&self) -> Option<Seq<char>> {
        match self.explanation {
            Some(e) => Some(e@),
            None => None,
        }
    }

    pub fn new(templates: &'a Tera, explanation: Option<&str>) -> (r: Self)
        ensures
            r.templates_spec() == templates,
            r.explanation_spec() == match explanation {
                Some(e) => Some(e@),
                None => None::<Seq<char>>,
            },
    {
        if let Some(explanation) = explanation {
            NotFoundPage { explanation: Some(String::from_str(explanation)), templates: templates }
        } else {
            NotFoundPage { explanation: None, templates: templates }
        }
    }

    /// The values the template is rendered with: the explanation, when there is one.
    pub fn context(&self) -> (r: Vec<(String, Value)>)
        ensures
            entries_view(r) == not_found_context_spec(self.explanation_spec()),
    {
        let mut entries: Vec<(String, Value)> = Vec::new();
        if let Some(explanation) = &self.explanation {
            entries.push((String::from_str("explanation"), json_text(explanation.clone())));
        }
        assert(entries_view(entries) =~= not_found_context_spec(self.explanation_spec()));
        entries
    }

    /// The template this page renders, with the values of `context`.
    pub fn template_name(&self) -> (r: &'static str)
        ensures
            r@ == "not_found.html"@,
    {
        "not_found.html"
    }

    /// The answer once the page was rendered (`None` when rendering failed):
    /// the page, or else plain text.
    pub fn finish(self, rendered: Option<String>) -> (r: Reply)
        ensures
            rendered matches Some(page) ==> r@ == ReplyView::Html(page@),
            rendered is None ==> r@ == not_found_failure(),
    {
        match rendered {
            Some(page) => Reply::Html(page),
            None => Reply::ServerError(String::from_str("not_found.html template missing")),
        }
    }

    /// Renders `not_found.html` with the explanation; when that fails, answers
    /// with plain text.
    pub fn render(self) -> (r: Reply)
        ensures
            not_found_page_reply(*self.templates_spec(), self.explanation_spec(), r@),
    {
        let rendered = render_template(self.templates, self.template_name(), &self.context());
        self.finish(rendered)
    }
}

/// The page shown after logging out.
#[derive(Debug)]
pub struct LogoutPage<'a> {
    message: String,
    templates: &'a Tera,
}

impl<'a> LogoutPage<'a> {
    /// The templates the page is rendered with.
    pub closed spec fn templates_spec(&self) -> &'a Tera {
        self.templates
    }

    pub closed spec fn message_spec(&self) -> Seq<char> {
        self.message@
    }

    pub fn new(templates: &'a Tera, message: &str) -> (r: Self)
        ensures
            r.templates_spec() == templates,
            r.message_spec() == message@,
    {
        LogoutPage { message: String::from_str(message), templates: templates }
    }

    /// The values the template is rendered with: the message.
    pub fn context(&self) -> (r: Vec<(String, Value)>)
        ensures
            entries_view(r) == seq![("message"@, JsonView::Text(self.message_spec()))],
    {
        let mut entries: Vec<(String, Value)> = Vec::new();
        entries.push((String::from_str("message"), json_text(self.message.clone())));
        assert(entries_view(entries) =~= seq![("message"@, JsonView::Text(self.message_spec()))]);
        entries
    }

    /// The template this page renders, with the values of `context`.
    pub fn template_name(&self) -> (r: &'static str)
        ensures
            r@ == "logout.html"@,
    {
        "logout.html"
    }

    /// The answer once the page was rendered: the page, or else the page for
    /// a missing resource, explaining that this one failed.
    pub fn finish(self, rendered: Option<String>) -> (r: Reply)
        ensures
            rendered matches Some(page) ==> r@ == ReplyView::Html(page@),
            rendered is None ==> not_found_page_reply(
                *self.templates_spec(),
                Some("logout.html template failed to render."@),
                r@,
            ),
    {
        match rendered {
            Some(page) => Reply::Html(page),
            None => NotFoundPage::new(self.templates, Some("logout.html template failed to render.")).render(),
        }
    }

    /// Renders `logout.html` with the message; when that fails, the page for
    /// a missing resource.
    pub fn render(self) -> (r: Reply)
        ensures
            logout_page_reply(*self.templates_spec(), self.message_spec(), r@),
    {
        let rendered = render_template(self.templates, self.template_name(), &self.context());
        self.finish(rendered)
    }
}

/// The login form, with where to go after logging in and an optional message.
#[derive(Debug)]
pub struct LoginPage<'a> {
    forward_to: String,
    flash: Option<String>,
    templates: &'a Tera,
}

impl<'a> LoginPage<'a> {
    /// The templates the page is rendered with.
    pub closed spec fn templates_spec(&self) -> &'a Tera {
        self.templates
    }

    pub closed spec fn forward_to_spec(&self) -> Seq<char> {
        self.forward_to@
    }

    pub closed spec fn flash_spec(&self) -> Option<Seq<char>> {
        match self.flash {
            Some(f) => Some(f@),
            None => None,
        }
    }

    /// Forwards to `forward_to`, or to `/` when there is none.
    pub fn new(templates: &'a Tera, forward_to: Option<&String>, flash: Option<String>) -> (r: Self)
        ensures
            r.templates_spec() == templates,
            r.forward_to_spec() == match forward_to {
                Some(f) => f@,
                None => "/"@,
            },
            r.flash_spec() == match flash {
                Some(f) => Some(f@),
                None => None::<Seq<char>>,
            },
    {
        let forward_to = match forward_to {
            Some(f) => f.clone(),
            None => String::from_str("/"),
        };
        LoginPage { forward_to: forward_to, flash: flash, templates: templates }
    }

    /// The values the template is rendered with: where to forward to, then the
    /// message when there is one.
    pub fn context(&self) -> (r: Vec<(String, Value)>)
        ensures
            entries_view(r) == login_context_spec(self.forward_to_spec(), self.flash_spec()),
    {
        let mut entries: Vec<(String, Value)> = Vec::new();
        entries.push((String::from_str("forward_to"), json_text(self.forward_to.clone())));
        if let Some(flash) = &self.flash {
            entries.push((String::from_str("flash"), json_text(flash.clone())));
        }
        assert(entries_view(entries) =~= login_context_spec(self.forward_to_spec(), self.flash_spec()));
        entries
    }

    /// The template this page renders, with the values of `context`.
    pub fn template_name(&self) -> (r: &'static str)
        ensures
            r@ == "login.html"@,
    {
        "login.html"
    }

    /// The answer once the page was rendered: the page, or else the page for
    /// a missing resource, explaining that this one failed.
    pub fn finish(self, rendered: Option<String>) -> (r: Reply)
        ensures
            rendered matches Some(page) ==> r@ == ReplyView::Html(page@),
            rendered is None ==> not_found_page_reply(
                *self.templates_spec(),
                Some("login.html template failed to render"@),
                r@,
            ),
    {
        match rendered {
            Some(page) => Reply::Html(page),
            None => NotFoundPage::new(self.templates, Some("login.html template failed to render")).render(),
        }
    }

    /// Renders `login.html` with where to forward to and the message; when
    /// that fails, the page for a missing resource.
    pub fn render(self) -> (r: Reply)
        ensures
            login_page_reply(*self.templates_spec(), self.forward_to_spec(), self.flash_spec(), r@),
    {
        let rendered = render_template(self.templates, self.template_name(), &self.context());
        self.finish(rendered)
    }
}

/// The page for an error of the service itself.
#[derive(Debug)]
pub struct InternalServerErrorPage<'a> {
    templates: &'a Tera,
}

impl<'a> InternalServerErrorPage<'a> {
    /// The templates the page is rendered with.
    pub closed spec fn templates_spec(&self) -> &'a Tera {
        self.templates
    }

    pub fn new(templates: &'a Tera) -> (r: Self)
        ensures
            r.templates_spec() == templates,
    {
        InternalServerErrorPage { templates: templates }
    }

    /// The template this page renders, with no values.
    pub fn template_name(&self) -> (r: &'static str)
        ensures
            r@ == "internal_server_error.html"@,
    {
        "internal_server_error.html"
    }

    /// The answer once the page was rendered: the page, or else plain text.
    pub fn finish(self, rendered: Option<String>) -> (r: Reply)
        ensures
            rendered matches Some(page) ==> r@ == ReplyView::Html(page@),
            rendered is None ==> r@ == internal_error_failure(),
    {
        match rendered {
            Some(page) => Reply::Html(page),
            None => Reply::ServerError(String::from_str("internal_server_error.html failed to render")),
        }
    }

    /// Renders `internal_server_error.html` with no values; when that fails,
    /// answers with plain text.
    pub fn render(self) -> (r: Reply)
        ensures
            error_page_reply(*self.templates_spec(), r@),
    {
        let entries: Vec<(String, Value)> = Vec::new();
        assert(entries_view(entries) =~= Seq::<(Seq<char>, JsonView)>::empty());
        let rendered = render_template(self.templates, self.template_name(), &entries);
        self.finish(rendered)
    }
}

/// The form to register a new user.
#[derive(Debug)]
pub struct SignUpPage<'a> {
    templates: &'a Tera,
}

impl<'a> SignUpPage<'a> {
    /// The templates the page is rendered with.
    pub closed spec fn templates_spec(&self) -> &'a Tera {
        self.templates
    }

    pub fn new(templates: &'a Tera) -> (r: Self)
        ensures
            r.templates_spec() == templates,
    {
        SignUpPage { templates: templates }
    }

    /// The template this page renders, with no values.
    pub fn template_name(&self) -> (r: &'static str)
        ensures
            r@ == "signup.html"@,
    {
        "signup.html"
    }

    /// The answer once the page was rendered: the page, or else the error page.
    pub fn finish(self, rendered: Option<String>) -> (r: Reply)
        ensures
            rendered matches Some(page) ==> r@ == ReplyView::Html(page@),
            rendered is None ==> error_page_reply(*self.templates_spec(), r@),
    {
        match rendered {
            Some(page) => Reply::Html(page),
            None => InternalServerErrorPage::new(self.templates).render(),
        }
    }

    /// Renders `signup.html` with no values; when that fails, the error page.
    pub fn render(self) -> (r: Reply)
        ensures
            signup_page_reply(*self.templates_spec(), r@),
    {
        let entries: Vec<(String, Value)> = Vec::new();
        assert(entries_view(entries) =~= Seq::<(Seq<char>, JsonView)>::empty());
        let rendered = render_template(self.templates, self.template_name(), &entries);
        self.finish(rendered)
    }
}

/// The items of one list.
#[derive(Debug)]
pub struct ListPage<'a> {
    items: Vec<Item>,
    list_id: i32,
    templates: &'a Tera,
}

impl<'a> ListPage<'a> {
    /// The templates the page is rendered with.
    pub closed spec fn templates_spec(&self) -> &'a Tera {
        self.templates
    }

    pub closed spec fn list_id_spec(&self) -> i32 {
        self.list_id
    }

    pub closed spec fn items_spec(&self) -> Seq<Item> {
        self.items@
    }

    pub fn new(templates: &'a Tera, items: Vec<Item>, list_id: i32) -> (r: Self)
        ensures
            r.templates_spec() == templates,
            r.items_spec() == items@,
            r.list_id_spec() == list_id,
    {
        ListPage { items, list_id, templates }
    }

    pub fn items(&self) -> (r: &Vec<Item>)
        ensures
            r@ == self.items_spec(),
    {
        &self.items
    }

    pub fn list_id(&self) -> (r: i32)
        ensures
            r == self.list_id_spec(),
    {
        self.list_id
    }

    pub fn templates(&self) -> (r: &'a Tera)
        ensures
            r == self.templates_spec(),
    {
        self.templates
    }

    /// The template this page renders, with `items` and `list_id`.
    pub fn template_name(&self) -> (r: &'static str)
        ensures
            r@ == "list.html"@,
    {
        "list.html"
    }

    /// The answer once the page was rendered (`None` when rendering failed):
    /// the page, or else the page for a missing resource.
    pub fn finish(self, rendered: Option<String>) -> (r: Reply)
        ensures
            rendered matches Some(page) ==> r@ == ReplyView::Html(page@),
            rendered is None ==> not_found_page_reply(
                *self.templates_spec(),
                Some("list.html template failed to render"@),
                r@,
            ),
    {
        match rendered {
            Some(page) => Reply::Html(page),
            None => NotFoundPage::new(self.templates, Some("list.html template failed to render")).render(),
        }
    }
}

/// The lists of the logged-in user.
#[derive(Debug)]
pub struct IndexPage<'a> {
    username: &'a str,
    lists: Vec<List>,
    templates: &'a Tera,
}

impl<'a> IndexPage<'a> {
    /// The templates the page is rendered with.
    pub closed spec fn templates_spec(&self) -> &'a Tera {
        self.templates
    }

    pub closed spec fn username_spec(&self) -> Seq<char> {
        self.username@
    }

    pub closed spec fn lists_spec(&self) -> Seq<List> {
        self.lists@
    }

    pub fn new(templates: &'a Tera, username: &'a str, lists: Vec<List>) -> (r: Self)
        ensures
            r.templates_spec() == templates,
            r.username_spec() == username@,
            r.lists_spec() == lists@,
    {
        IndexPage { username, lists, templates }
    }

    pub fn username(&self) -> (r: &'a str)
        ensures
            r@ == self.username_spec(),
    {
        self.username
    }

    pub fn lists(&self) -> (r: &Vec<List>)
        ensures
            r@ == self.lists_spec(),
    {
        &self.lists
    }

    pub fn templates(&self) -> (r: &'a Tera)
        ensures
            r == self.templates_spec(),
    {
        self.templates
    }

    /// The template this page renders, with `username` and `lists`.
    pub fn template_name(&self) -> (r: &'static str)
        ensures
            r@ == "index.html"@,
    {
        "index.html"
    }

    /// The answer once the page was rendered: the page, or else the error page.
    pub fn finish(self, rendered: Option<String>) -> (r: Reply)
        ensures
            rendered matches Some(page) ==> r@ == ReplyView::Html(page@),
            rendered is None ==> error_page_reply(*self.templates_spec(), r@),
    {
        match rendered {
            Some(page) => Reply::Html(page),
            None => InternalServerErrorPage::new(self.templates).render(),
        }
    }
}

/// One item.
#[derive(Debug)]
pub struct ItemPage<'a> {
    item: Item,
    templates: &'a Tera,
}

impl<'a> ItemPage<'a> {
    /// The templates the page is rendered with.
    pub closed spec fn templates_spec(&self) -> &'a Tera {
        self.templates
    }

    pub closed spec fn item_spec(&self) -> Item {
        self.item
    }

    pub fn new(templates: &'a Tera, item: Item) -> (r: Self)
        ensures
            r.templates_spec() == templates,
            r.item_spec() == item,
    {
        ItemPage { item, templates }
    }

    pub fn item(&self) -> (r: &Item)
        ensures
            *r == self.item_spec(),
    {
        &self.item
    }

    pub fn templates(&self) -> (r: &'a Tera)
        ensures
            r == self.templates_spec(),
    {
        self.templates
    }

    /// The template this page renders, with `item`.
    pub fn template_name(&self) -> (r: &'static str)
        ensures
            r@ == "item.html"@,
    {
        "item.html"
    }

    /// The answer once the page was rendered: the page, or else the error page.
    pub fn finish(self, rendered: Option<String>) -> (r: Reply)
        ensures
            rendered matches Some(page) ==> r@ == ReplyView::Html(page@),
            rendered is None ==> error_page_reply(*self.templates_spec(), r@),
    {
        match rendered {
            Some(page) => Reply::Html(page),
            None => InternalServerErrorPage::new(self.templates).render(),
        }
    }
}

/// The suggestions to add to a list.
#[derive(Debug)]
pub struct AddItemPage<'a> {
    prefill_items: Vec<PrefillItem>,
    list_id: String,
    templates: &'a Tera,
}

impl<'a> AddItemPage<'a> {
    /// The templates the page is rendered with.
    pub closed spec fn templates_spec(&self) -> &'a Tera {
        self.templates
    }

    pub closed spec fn prefill_items_spec(&self) -> Seq<PrefillItem> {
        self.prefill_items@
    }

    pub closed spec fn list_id_spec(&self) -> Seq<char> {
        self.list_id@
    }

    pub fn new(templates: &'a Tera, prefill_items: Vec<PrefillItem>, list_id: String) -> (r: Self)
        ensures
            r.templates_spec() == templates,
            r.prefill_items_spec() == prefill_items@,
            r.list_id_spec() == list_id@,
    {
        AddItemPage { prefill_items, list_id, templates }
    }

    pub fn prefill_items(&self) -> (r: &Vec<PrefillItem>)
        ensures
            r@ == self.prefill_items_spec(),
    {
        &self.prefill_items
    }

    pub fn list_id(&self) -> (r: &str)
        ensures
            r@ == self.list_id_spec(),
    {
        self.list_id.as_str()
    }

    pub fn templates(&self) -> (r: &'a Tera)
        ensures
            r == self.templates_spec(),
    {
        self.templates
    }

    /// The template this page renders, with `list_id` and `prefill_items`.
    pub fn template_name(&self) -> (r: &'static str)
        ensures
            r@ == "add_item.html"@,
    {
        "add_item.html"
    }

    /// The answer once the page was rendered: the page, or else the error page.
    pub fn finish(self, rendered: Option<String>) -> (r: Reply)
        ensures
            rendered matches Some(page) ==> r@ == ReplyView::Html(page@),
            rendered is None ==> error_page_reply(*self.templates_spec(), r@),
    {
        match rendered {
            Some(page) => Reply::Html(page),
            None => InternalServerErrorPage::new(self.templates).render(),
        }
    }
}

/// The form to rename a list.
#[derive(Debug)]
pub struct ListModifyPage<'a> {
    list: List,
    templates: &'a Tera,
}

impl<'a> ListModifyPage<'a> {
    /// The templates the page is rendered with.
    pub closed spec fn templates_spec(&self) -> &'a Tera {
        self.templates
    }

    pub closed spec fn list_spec(&self) -> List {
        self.list
    }

    pub fn new(templates: &'a Tera, list: List) -> (r: Self)
        ensures
            r.templates_spec() == templates,
            r.list_spec() == list,
    {
        ListModifyPage { list, templates }
    }

    pub fn list(&self) -> (r: &List)
        ensures
            *r == self.list_spec(),
    {
        &self.list
    }

    pub fn templates(&self) -> (r: &'a Tera)
        ensures
            r == self.templates_spec(),
    {
        self.templates
    }

    /// The template this page renders, with `list`.
    pub fn template_name(&self) -> (r: &'static str)
        ensures
            r@ == "list_modify.html"@,
    {
        "list_modify.html"
    }

    /// The answer once the page was rendered: the page, or else the error page.
    pub fn finish(self, rendered: Option<String>) -> (r: Reply)
        ensures
            rendered matches Some(page) ==> r@ == ReplyView::Html(page@),
            rendered is None ==> error_page_reply(*self.templates_spec(), r@),
    {
        match rendered {
            Some(page) => Reply::Html(page),
            None => InternalServerErrorPage::new(self.templates).render(),
        }
    }
}

impl<'a> ListPage<'a> {
    /// The values the template is rendered with.
    pub fn context(&self) -> (r: Vec<(String, Value)>)
        ensures
            entries_view(r) == list_page_context(self.items_spec(), self.list_id_spec()),
            entries_view(r).len() == 2,
            entries_view(r)[0].0 == "items"@,
            shows_items(entries_view(r)[0].1, self.items_spec()),
            entries_view(r)[1] == ("list_id"@, JsonView::Number(self.list_id_spec() as int)),
    {
        proof { lemma_items_json_shows_items(self.items_spec()); }
        let mut entries: Vec<(String, Value)> = Vec::new();
        entries.push((String::from_str("items"), items_value(&self.items)));
        entries.push((String::from_str("list_id"), json_number(self.list_id)));
        assert(entries_view(entries) =~= list_page_context(self.items_spec(), self.list_id_spec()));
        entries
    }

    /// Renders `list.html` with the items and the list's id; when that fails,
    /// the page for a missing resource.
    pub fn render(self) -> (r: Reply)
        ensures
            rendered_or(
                *self.templates_spec(),
                "list.html"@,
                list_page_context(self.items_spec(), self.list_id_spec()),
                r@,
                |x: ReplyView|
                    not_found_page_reply(
                        *self.templates_spec(),
                        Some("list.html template failed to render"@),
                        x,
                    ),
            ),
    {
        let rendered = render_template(self.templates, self.template_name(), &self.context());
        self.finish(rendered)
    }
}

impl<'a> IndexPage<'a> {
    /// The values the template is rendered with.
    pub fn context(&self) -> (r: Vec<(String, Value)>)
        ensures
            entries_view(r) == index_page_context(self.username_spec(), self.lists_spec()),
            entries_view(r).len() == 2,
            entries_view(r)[0] == ("username"@, JsonView::Text(self.username_spec())),
            entries_view(r)[1].0 == "lists"@,
            shows_lists(entries_view(r)[1].1, self.lists_spec()),
    {
        proof { lemma_lists_json_shows_lists(self.lists_spec()); }
        let mut entries: Vec<(String, Value)> = Vec::new();
        entries.push((String::from_str("username"), json_text(String::from_str(self.username))));
        entries.push((String::from_str("lists"), lists_value(&self.lists)));
        assert(entries_view(entries) =~= index_page_context(self.username_spec(), self.lists_spec()));
        entries
    }

    /// Renders `index.html` with the user's name and lists; when that fails,
    /// the error page.
    pub fn render(self) -> (r: Reply)
        ensures
            rendered_or(
                *self.templates_spec(),
                "index.html"@,
                index_page_context(self.username_spec(), self.lists_spec()),
                r@,
                |x: ReplyView| error_page_reply(*self.templates_spec(), x),
            ),
    {
        let rendered = render_template(self.templates, self.template_name(), &self.context());
        self.finish(rendered)
    }
}

impl<'a> ItemPage<'a> {
    /// The values the template is rendered with.
    pub fn context(&self) -> (r: Vec<(String, Value)>)
        ensures
            entries_view(r) == item_page_context(self.item_spec()),
            entries_view(r).len() == 1,
            entries_view(r)[0].0 == "item"@,
            shows_item(entries_view(r)[0].1, self.item_spec()@),
    {
        proof { lemma_item_json_shows_item(self.item_spec()@); }
        let mut entries: Vec<(String, Value)> = Vec::new();
        entries.push((String::from_str("item"), item_value(&self.item)));
        assert(entries_view(entries) =~= item_page_context(self.item_spec()));
        entries
    }

    /// Renders `item.html` with the item; when that fails, the error page.
    pub fn render(self) -> (r: Reply)
        ensures
            rendered_or(
                *self.templates_spec(),
                "item.html"@,
                item_page_context(self.item_spec()),
                r@,
                |x: ReplyView| error_page_reply(*self.templates_spec(), x),
            ),
    {
        let rendered = render_template(self.templates, self.template_name(), &self.context());
        self.finish(rendered)
    }
}

impl<'a> AddItemPage<'a> {
    /// The values the template is rendered with.
    pub fn context(&self) -> (r: Vec<(String, Value)>)
        ensures
            entries_view(r) == add_item_page_context(self.list_id_spec(), self.prefill_items_spec()),
            entries_view(r).len() == 2,
            entries_view(r)[0] == ("list_id"@, JsonView::Text(self.list_id_spec())),
            entries_view(r)[1].0 == "prefill_items"@,
            shows_prefill_items(entries_view(r)[1].1, self.prefill_items_spec()),
    {
        proof { lemma_prefill_items_json_shows_items(self.prefill_items_spec()); }
        let mut entries: Vec<(String, Value)> = Vec::new();
        entries.push((String::from_str("list_id"), json_text(self.list_id.clone())));
        entries.push((String::from_str("prefill_items"), prefill_items_value(&self.prefill_items)));
        assert(entries_view(entries) =~= add_item_page_context(
            self.list_id_spec(),
            self.prefill_items_spec(),
        ));
        entries
    }

    /// Renders `add_item.html` with the list's id and the suggestions; when
    /// that fails, the error page.
    pub fn render(self) -> (r: Reply)
        ensures
            rendered_or(
                *self.templates_spec(),
                "add_item.html"@,
                add_item_page_context(self.list_id_spec(), self.prefill_items_spec()),
                r@,
                |x: ReplyView| error_page_reply(*self.templates_spec(), x),
            ),
    {
        let rendered = render_template(self.templates, self.template_name(), &self.context());
        self.finish(rendered)
    }
}

impl<'a> ListModifyPage<'a> {
    /// The values the template is rendered with.
    pub fn context(&self) -> (r: Vec<(String, Value)>)
        ensures
            entries_view(r) == list_modify_page_context(self.list_spec()),
            entries_view(r).len() == 1,
            entries_view(r)[0].0 == "list"@,
            shows_list(entries_view(r)[0].1, self.list_spec()@),
    {
        proof { lemma_list_json_shows_list(self.list_spec()@); }
        let mut entries: Vec<(String, Value)> = Vec::new();
        entries.push((String::from_str("list"), list_value(&self.list)));
        assert(entries_view(entries) =~= list_modify_page_context(self.list_spec()));
        entries
    }

    /// Renders `list_modify.html` with the list; when that fails, the error page.
    pub fn render(self) -> (r: Reply)
        ensures
            rendered_or(
                *self.templates_spec(),
                "list_modify.html"@,
                list_modify_page_context(self.list_spec()),
                r@,
                |x: ReplyView| error_page_reply(*self.templates_spec(), x),
            ),
    {
        let rendered = render_template(self.templates, self.template_name(), &self.context());
        self.finish(rendered)
    }
}

} // verus!
