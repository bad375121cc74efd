//! The start page.
use vstd::prelude::*;
use tera::Tera;
use crate::db::list::List;
use crate::reply::Reply;
use crate::template::{IndexPage, InternalServerErrorPage, error_page_reply};

verus! {

/// The start page of a user once their lists were read (`None` when reading failed).
pub fn index_page<'a>(templates: &'a Tera, username: &'a str, lists: Option<Vec<List>>) -> (r:
    Result<IndexPage<'a>, Reply>)
    ensures
        match lists {
            Some(lists) => r matches Ok(page) && page.username_spec() == username@
                && page.lists_spec() == lists@,
            None => r matches Err(reply) && error_page_reply(*templates, reply@),
        },
{
    match lists {
        Some(lists) => Ok(IndexPage::new(templates, username, lists)),
        None => Err(InternalServerErrorPage::new(templates).render()),
    }
}

} // verus!
