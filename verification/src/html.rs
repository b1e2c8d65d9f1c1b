//! The trusted boundary to `scraper`: one query — the inner HTML of the
//! first element matched by a CSS selector.

use vstd::prelude::*;

verus! {

/// The inner HTML of the first element of `doc` (parsed as an HTML
/// document) matched by the CSS selector `sel`; `None` when the selector
/// matches nothing or is not a valid selector. The meaning given to
/// `scraper`'s document queries: a function of the two texts alone.
pub uninterp spec fn css_first_inner_html(doc: Seq<char>, sel: Seq<char>) -> Option<Seq<char>>;

/// Relies on `scraper::Html::parse_document`, `scraper::Selector::parse`
/// and `scraper::ElementRef::inner_html`: parses the document, runs the
/// selector, and returns the first match's inner HTML.
#[verifier::external_body]
pub fn select_inner_html(doc: &str, sel: &str) -> (r: Option<String>)
    ensures
        match r {
            Some(s) => css_first_inner_html(doc@, sel@) == Some(s@),
            None => css_first_inner_html(doc@, sel@) is None,
        },
{
    let document = scraper::Html::parse_document(doc);
    let selector = match scraper::Selector::parse(sel) {
        Ok(s) => s,
        Err(_) => {
            return None;
        },
    };
    document.select(&selector).next().map(|element| element.inner_html())
}

} // verus!
