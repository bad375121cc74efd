//! The page for a missing resource, with a message.
use vstd::prelude::*;
use tera::{Tera, Value};
use crate::json::{JsonView, json_text};
use crate::reply::{Reply, ReplyView};
use crate::template::{page_or, render_template, tera_outcome};

verus! {

/// The values `not_found.html` is rendered with: the message, as `flash`.
pub fn not_found_context(flash: &str) -> (r: Vec<(String, Value)>)
    ensures
        crate::template::entries_view(r) == seq![("flash"@, JsonView::Text(flash@))],
{
    let mut entries: Vec<(String, Value)> = Vec::new();
    entries.push((String::from_str("flash"), json_text(String::from_str(flash))));
    assert(crate::template::entries_view(entries) =~= seq![("flash"@, JsonView::Text(flash@))]);
    entries
}

/// The answer once `not_found.html` was rendered with `flash` (`None` when
/// rendering failed): the page, or else plain text.
pub fn not_found_finish(rendered: Option<String>) -> (r: Reply)
    ensures
        rendered matches Some(page) ==> r@ == ReplyView::Html(page@),
        rendered is None ==> r@ == ReplyView::ServerError("Error rendering template."@),
{
    match rendered {
        Some(page) => Reply::Html(page),
        None => Reply::ServerError(String::from_str("Error rendering template.")),
    }
}

/// Renders `not_found.html` with `flash`; when that fails, answers with plain text.
pub fn not_found(templates: &Tera, flash: &str) -> (r: Reply)
    ensures
        exists|o: Option<Seq<char>>|
            #[trigger] tera_outcome(*templates, "not_found.html"@, seq![("flash"@, JsonView::Text(flash@))], o)
                && r@ == page_or(o, ReplyView::ServerError("Error rendering template."@)),
{
    let rendered = render_template(templates, "not_found.html", &not_found_context(flash));
    not_found_finish(rendered)
}

} // verus!
