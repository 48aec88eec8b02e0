//! Answers for paths that lead nowhere.
use vstd::prelude::*;

use crate::render_html::{page_or_fallback, render_html};

verus! {

/// A static file that does not exist: 404 with a short text.
pub fn handle_static_404() -> (reply: (u16, &'static str))
    ensures
        reply.0 == 404,
        reply.1@ == "Not found"@,
{
    (404, "Not found")
}

/// A page that does not exist: 404 with the rendered `404.html` page (see
/// `crate::render_html::render_html_plan`), or the fallback page.
pub fn handle_page_404(page: Result<String, String>) -> (reply: (u16, String))
    ensures
        reply.0 == 404,
        reply.1@ == page_or_fallback(page),
{
    match render_html(page) {
        Some(html) => (404, html),
        None => {
            proof {
                assert(false);
            }
            (404, String::new())
        },
    }
}

} // verus!
