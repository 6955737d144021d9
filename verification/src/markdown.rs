//! Markdown-to-HTML conversion for the frontend, rendered by comrak with the
//! GitHub-flavored extensions the application relies on.

use vstd::prelude::*;

verus! {

/// The HTML that comrak renders for a markdown document under the fixed
/// option set of [`parse_markdown`]. The result depends on the document text
/// alone.
pub uninterp spec fn html_of(markdown: Seq<char>) -> Seq<char>;

/// Parse markdown input and return HTML.
///
/// Relies on `comrak::markdown_to_html`: a pure function of the document and
/// of the options handed to it, called here with a fixed option set (the
/// strikethrough, table, tasklist and autolink extensions enabled), so the
/// result is a function of the document alone.
#[verifier::external_body]
pub fn parse_markdown(input: &str) -> (r: String)
    ensures
        r@ == html_of(input@),
{
    let mut options = comrak::Options::default();
    options.extension.strikethrough = true;
    options.extension.table = true;
    options.extension.tasklist = true;
    options.extension.autolink = true;
    comrak::markdown_to_html(input, &options)
}

} // verus!
