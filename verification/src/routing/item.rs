//! Showing, changing and adding items.
use vstd::prelude::*;
use tera::Tera;
use crate::db::item::{Item, ItemView};
use crate::db::list::List;
use crate::db::prefill_item::PrefillItem;
use crate::decimal::{parse_i32, parse_i32_spec};
use crate::reply::{Reply, ReplyView};
use crate::routing::list::{list_path, list_path_spec};
use crate::template::{
    AddItemPage, InternalServerErrorPage, ItemPage, NotFoundPage, error_page_reply,
    not_found_page_reply,
};

verus! {

/// The item id named by the `item_id` query parameter, or the explanation of
/// what is wrong with it.
pub fn item_id_from_query(item_id: Option<String>) -> (r: Result<i32, &'static str>)
    ensures
        match item_id {
            None => r matches Err(e) && e@ == "An item id must be provided for the \"/item\" endpoint."@,
            Some(text) => match parse_i32_spec(text@) {
                Some(id) => r == Ok::<i32, &'static str>(id),
                None => r matches Err(e) && e@ == "The item id must be an integer number."@,
            },
        },
{
    match item_id {
        None => Err("An item id must be provided for the \"/item\" endpoint."),
        Some(text) => match parse_i32(text.as_str()) {
            Some(id) => Ok(id),
            None => Err("The item id must be an integer number."),
        },
    }
}

/// The answer when the item id of the request is unusable: the page for a
/// missing resource, with the explanation.
pub fn bad_item_id_reply(templates: &Tera, explanation: &str) -> (r: Reply)
    ensures
        not_found_page_reply(*templates, Some(explanation@), r@),
{
    NotFoundPage::new(templates, Some(explanation)).render()
}

/// The page of an item once it was read (`None` when there is none).
pub fn item_page<'a>(templates: &'a Tera, item: Option<Item>) -> (r: Result<ItemPage<'a>, Reply>)
    ensures
        match item {
            Some(item) => r matches Ok(page) && page.item_spec() == item,
            None => r matches Err(reply) && not_found_page_reply(
                *templates,
                Some("The indicated item number/id could not be found in the database."@),
                reply@,
            ),
        },
{
    match item {
        Some(item) => Ok(ItemPage::new(templates, item)),
        None => Err(
            NotFoundPage::new(
                templates,
                Some("The indicated item number/id could not be found in the database."),
            ).render(),
        ),
    }
}

/// An item changed.
#[derive(Debug)]
pub struct ModifyItemForm {
    pub id: i32,
    pub list_id: i32,
    pub en_name: String,
    pub zh_name: String,
    pub de_name: String,
    pub img_path: String,
    pub estimated_euro_price: i32,
}

impl ModifyItemForm {
    /// The item as it is to be stored: an empty picture path means no picture.
    pub fn into_item(self) -> (r: Item)
        ensures
            r@ == (ItemView {
                id: self.id,
                list_id: self.list_id,
                en_name: self.en_name@,
                zh_name: self.zh_name@,
                de_name: self.de_name@,
                img_path: if self.img_path@.len() == 0 {
                    None
                } else {
                    Some(self.img_path@)
                },
                estimated_euro_price: self.estimated_euro_price,
            }),
    {
        let img_path_parsed = if self.img_path.as_str().is_empty() {
            None
        } else {
            Some(self.img_path)
        };
        Item::new(
            self.id,
            self.list_id,
            self.en_name,
            self.zh_name,
            self.de_name,
            img_path_parsed,
            self.estimated_euro_price,
        )
    }
}

/// The answer once the changed item was stored (`None` when storing failed):
/// back to the item's list.
pub fn item_modified_reply(templates: &Tera, updated: Option<Item>) -> (r: Reply)
    ensures
        match updated {
            Some(item) => r@ == ReplyView::Redirect(list_path_spec(item@.list_id)),
            None => error_page_reply(*templates, r@),
        },
{
    match updated {
        Some(item) => Reply::Redirect(list_path(item.list_id())),
        None => InternalServerErrorPage::new(templates).render(),
    }
}

/// The page of suggestions for list `list_id` (the query parameter), once the
/// suggestions were read (`None` when reading failed).
pub fn add_item_page<'a>(
    templates: &'a Tera,
    prefill_items: Option<Vec<PrefillItem>>,
    list_id: Option<String>,
) -> (r: Result<AddItemPage<'a>, Reply>)
    ensures
        match (prefill_items, list_id) {
            (Some(items), Some(id)) => r matches Ok(page) && page.prefill_items_spec() == items@
                && page.list_id_spec() == id@,
            _ => r matches Err(reply) && error_page_reply(*templates, reply@),
        },
{
    let prefill_items = match prefill_items {
        Some(items) => items,
        None => return Err(InternalServerErrorPage::new(templates).render()),
    };
    let list_id = match list_id {
        Some(id) => id,
        None => return Err(InternalServerErrorPage::new(templates).render()),
    };
    Ok(AddItemPage::new(templates, prefill_items, list_id))
}

/// Suggestions picked to be added to a list.
#[derive(Debug)]
pub struct AddItemForm {
    pub ids: Vec<i32>,
    pub list_id: i32,
}

/// The answer once the list to add to was read (`None` when there is none):
/// back to that list, after the picked suggestions are added.
pub fn items_added_reply(templates: &Tera, list: Option<&List>) -> (r: Reply)
    ensures
        match list {
            Some(list) => r@ == ReplyView::Redirect(list_path_spec(list@.id)),
            None => error_page_reply(*templates, r@),
        },
{
    match list {
        Some(list) => Reply::Redirect(list_path(list.get_id())),
        None => InternalServerErrorPage::new(templates).render(),
    }
}

} // verus!
