//! Markdown as HTML.

use vstd::prelude::*;

verus! {

/// The HTML that the `pulldown-cmark` crate writes for a text in Markdown.
pub uninterp spec fn markdown_html(text: Seq<char>) -> Seq<char>;

/// Feeds `pulldown_cmark::Parser::new` to `pulldown_cmark::html::push_html`.
/// The contract names the result and claims nothing of it.
#[verifier::external_body]
fn html_of_markdown(s: &str) -> (html: String)
    ensures
        html@ == markdown_html(s@),
{
    let mut html = String::new();
    pulldown_cmark::html::push_html(&mut html, pulldown_cmark::Parser::new(s));
    html
}

/// Turns a text in Markdown into HTML.
pub fn md_str_to_html(s: &str) -> (html: String)
    ensures
        html@ == markdown_html(s@),
{
    html_of_markdown(s)
}

} // verus!
