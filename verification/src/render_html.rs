//! Turning what the template engine rendered into the HTML that is sent:
//! which parts to render, how a boosted page is put together, minification,
//! and the page shown when rendering fails.
use vstd::prelude::*;
use vstd::string::StringExecFns;

verus! {

/// Which parts of a template the engine renders.
pub enum RenderPlan {
    /// The whole template, with the context.
    Whole,
    /// The `title` block without context, then the named block with the
    /// context.
    TitleAndBlock { block: String },
}

/// What the engine rendered, following a `RenderPlan`.
pub enum Rendered {
    Whole(String),
    TitleAndBlock { title: String, body: String },
}

/// The plan for a page: a boosted request (one that htmx makes to swap the
/// page's body) gets the title and the `body` block, any other the whole
/// template.
pub fn render_html_plan(boosted: bool) -> (plan: RenderPlan)
    ensures
        boosted ==> (plan matches RenderPlan::TitleAndBlock { block } && block@ == "body"@),
        !boosted ==> plan is Whole,
{
    if boosted {
        RenderPlan::TitleAndBlock { block: String::from_str("body") }
    } else {
        RenderPlan::Whole
    }
}

/// The plan for one block of a template: the title and that block.
pub fn render_block_plan(block_name: &str) -> (plan: RenderPlan)
    ensures
        plan matches RenderPlan::TitleAndBlock { block } && block@ == block_name@,
{
    RenderPlan::TitleAndBlock { block: String::from_str(block_name) }
}

/// The document that is minified: the whole template as rendered, or the
/// title in a `<title>` element, a line break, and the block.
pub open spec fn document_text(rendered: Rendered) -> Seq<char> {
    match rendered {
        Rendered::Whole(content) => content@,
        Rendered::TitleAndBlock { title, body } => "<title>"@ + title@ + "</title>\n"@ + body@,
    }
}

/// What `html_minifier::minify` makes of a document: the minified HTML, or
/// the message of its error.
pub uninterp spec fn minified_html(html: Seq<char>) -> Result<Seq<char>, Seq<char>>;

pub open spec fn text_outcome(r: Result<String, String>) -> Result<Seq<char>, Seq<char>> {
    match r {
        Ok(s) => Ok(s@),
        Err(e) => Err(e@),
    }
}

/// Calls `html_minifier::minify`; an error comes back as its message.
///
/// Trusted: the outcome is `minified_html` of the document.
#[verifier::external_body]
pub(crate) fn minify_html(html: &str) -> (r: Result<String, String>)
    ensures
        text_outcome(r) == minified_html(html@),
{
    match html_minifier::minify(html) {
        Ok(minified) => Ok(minified),
        Err(err) => Err(err.to_string()),
    }
}

/// Puts the rendered parts together and minifies the document.
pub fn render(rendered: Rendered) -> (r: Result<String, String>)
    ensures
        text_outcome(r) == minified_html(document_text(rendered)),
        rendered is Whole ==> text_outcome(r) == minified_html(rendered->Whole_0@),
        rendered is TitleAndBlock ==> text_outcome(r) == minified_html(
            "<title>"@ + rendered->title@ + "</title>\n"@ + rendered->body@,
        ),
{
    match rendered {
        Rendered::Whole(content) => minify_html(content.as_str()),
        Rendered::TitleAndBlock { title, body } => {
            let mut content = String::from_str("<title>");
            content.append(title.as_str());
            content.append("</title>\n");
            content.append(body.as_str());
            minify_html(content.as_str())
        },
    }
}

/// Law: the document that is minified is all of what was rendered, whatever
/// its length: the whole page as it is, or for a block exactly the title
/// in a `<title>` element, a line break and the block, with nothing cut
/// and nothing added.
pub proof fn law_document_is_all_that_was_rendered(rendered: Rendered)
    ensures
        rendered is Whole ==> document_text(rendered) == rendered->Whole_0@,
        rendered is TitleAndBlock ==> document_text(rendered) == "<title>"@ + rendered->title@
            + "</title>\n"@ + rendered->body@,
        rendered is TitleAndBlock ==> document_text(rendered).len() == rendered->title@.len()
            + rendered->body@.len() + 16,
{
    reveal_strlit("<title>");
    reveal_strlit("</title>\n");
}

/// The page shown in place of one that could not be rendered.
pub open spec fn fallback_page() -> Seq<char> {
    "Woopsie! Something broke!"@
}

/// The page as rendered, or the fallback page when rendering failed.
pub open spec fn page_or_fallback(page: Result<String, String>) -> Seq<char> {
    match page {
        Ok(html) => html@,
        Err(_) => fallback_page(),
    }
}

fn or_fallback(page: Result<String, String>) -> (html: Option<String>)
    ensures
        html matches Some(h) && h@ == page_or_fallback(page),
{
    match page {
        Ok(html) => Some(html),
        Err(_) => Some(String::from_str("Woopsie! Something broke!")),
    }
}

/// A page rendered after `render_html_plan`: always some HTML, the
/// fallback page when rendering failed.
pub fn render_html(page: Result<String, String>) -> (html: Option<String>)
    ensures
        html matches Some(h) && h@ == page_or_fallback(page),
{
    or_fallback(page)
}

/// A block rendered after `render_block_plan`: always some HTML, the
/// fallback page when rendering failed.
pub fn render_block(page: Result<String, String>) -> (html: Option<String>)
    ensures
        html matches Some(h) && h@ == page_or_fallback(page),
{
    or_fallback(page)
}

/// A template string rendered by the engine (not minified): always some
/// HTML, the fallback page when rendering failed.
pub fn render_str(page: Result<String, String>) -> (html: Option<String>)
    ensures
        html matches Some(h) && h@ == page_or_fallback(page),
{
    or_fallback(page)
}

} // verus!
