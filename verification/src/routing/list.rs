//! Showing, renaming and clearing a shopping list.
use vstd::prelude::*;
use tera::Tera;
use crate::db::item::Item;
use crate::db::list::{List, ListView};
use crate::decimal::{int_text, parse_i32, parse_i32_spec, push_i32_text};
use crate::reply::{Reply, ReplyView};
use crate::template::{
    InternalServerErrorPage, ListModifyPage, ListPage, NotFoundPage, error_page_reply,
    not_found_page_reply,
};

verus! {

/// `/list?list_id=` and the list's id.
pub open spec fn list_path_spec(list_id: i32) -> Seq<char> {
    "/list?list_id="@ + int_text(list_id as int)
}

/// The path of the page of list `list_id`.
pub fn list_path(list_id: i32) -> (r: String)
    ensures
        r@ == list_path_spec(list_id),
{
    let mut path = String::from_str("/list?list_id=");
    push_i32_text(&mut path, list_id);
    path
}

/// The list to show: the one the `list_id` query parameter names, or the
/// user's default list when the parameter is missing or no integer.
pub fn select_list_id(list_id: Option<String>, default_list_id: i32) -> (r: i32)
    ensures
        r == match list_id {
            Some(text) => match parse_i32_spec(text@) {
                Some(id) => id,
                None => default_list_id,
            },
            None => default_list_id,
        },
{
    match list_id {
        Some(text) => match parse_i32(text.as_str()) {
            Some(id) => id,
            None => default_list_id,
        },
        None => default_list_id,
    }
}

/// The answer when the selected list does not exist: the page for a missing
/// resource, saying so.
pub fn missing_list_reply(templates: &Tera) -> (r: Reply)
    ensures
        not_found_page_reply(*templates, Some("Selected list id does not exist."@), r@),
{
    NotFoundPage::new(templates, Some("Selected list id does not exist.")).render()
}

/// The page of list `list_id` once its items were read (`None` when reading failed).
pub fn list_page<'a>(templates: &'a Tera, list_id: i32, items: Option<Vec<Item>>) -> (r: Result<
    ListPage<'a>,
    Reply,
>)
    ensures
        match items {
            Some(items) => r matches Ok(page) && page.items_spec() == items@ && page.list_id_spec()
                == list_id,
            None => r matches Err(reply) && error_page_reply(*templates, reply@),
        },
{
    match items {
        Some(items) => Ok(ListPage::new(templates, items, list_id)),
        None => Err(InternalServerErrorPage::new(templates).render()),
    }
}

/// The items ticked off as bought on a list.
#[derive(Debug)]
pub struct BoughtListItemsForm {
    pub list_id: i32,
    pub item_ids: Vec<i32>,
}

impl BoughtListItemsForm {
    /// After the bought items are removed: back to the list.
    pub fn redirect(&self) -> (r: Reply)
        ensures
            r@ == ReplyView::Redirect(list_path_spec(self.list_id)),
    {
        Reply::Redirect(list_path(self.list_id))
    }
}

/// The list id named by the `list_id` query parameter, when it is there and an integer.
pub fn list_id_from_query(list_id: Option<String>) -> (r: Option<i32>)
    ensures
        r == match list_id {
            Some(text) => parse_i32_spec(text@),
            None => None,
        },
{
    match list_id {
        Some(text) => parse_i32(text.as_str()),
        None => None,
    }
}

/// The renaming form of a list once it was read (`None` when there is none).
pub fn list_modify_page<'a>(templates: &'a Tera, list: Option<List>) -> (r: Result<
    ListModifyPage<'a>,
    Reply,
>)
    ensures
        match list {
            Some(list) => r matches Ok(page) && page.list_spec() == list,
            None => r matches Err(reply) && error_page_reply(*templates, reply@),
        },
{
    match list {
        Some(list) => Ok(ListModifyPage::new(templates, list)),
        None => Err(InternalServerErrorPage::new(templates).render()),
    }
}

/// A list renamed.
#[derive(Debug)]
pub struct ListModifyForm {
    pub id: i32,
    pub name: String,
}

/// `/list?lit_id=` and the list's id: the path that the service redirects to
/// after a list is renamed (its query key is `lit_id`).
pub open spec fn renamed_list_path_spec(list_id: i32) -> Seq<char> {
    "/list?lit_id="@ + int_text(list_id as int)
}

impl ListModifyForm {
    /// The list as it is to be stored.
    pub fn into_list(self) -> (r: List)
        ensures
            r@ == (ListView { id: self.id, name: self.name@ }),
    {
        List::new(self.id, self.name)
    }
}

/// The answer once the renamed list was stored (`None` when storing failed).
pub fn list_modified_reply(templates: &Tera, updated: Option<List>) -> (r: Reply)
    ensures
        match updated {
            Some(list) => r@ == ReplyView::Redirect(renamed_list_path_spec(list@.id)),
            None => error_page_reply(*templates, r@),
        },
{
    match updated {
        Some(list) => {
            let mut path = String::from_str("/list?lit_id=");
            push_i32_text(&mut path, list.get_id());
            Reply::Redirect(path)
        },
        None => InternalServerErrorPage::new(templates).render(),
    }
}

} // verus!
