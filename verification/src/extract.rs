//! Extraction of the embedded application state from a fetched page: the
//! document holds one element with a fixed identifier whose direct text
//! content is the JSON-encoded state. HTML parsing and selector matching are
//! done by the `scraper` crate behind a trusted wrapper; this module turns
//! its answer into the library's error discipline.

use vstd::prelude::*;

use crate::Error;

verus! {

/// The text content selected out of an HTML document by a CSS selector: the
/// first text node of the first element the selector matches, a function of
/// the two strings alone.
pub uninterp spec fn selected_text_of(selector: Seq<char>, html: Seq<char>) -> Option<Seq<char>>;

/// Relies on scraper's `Selector::parse`, `Html::parse_document` and
/// `ElementRef::text`: parsing is deterministic, `select` walks elements in
/// document order, and `text` walks text nodes in order, so the first text
/// node of the first matching element depends on the selector and document
/// text alone. An invalid selector matches nothing.
#[verifier::external_body]
fn select_first_text(selector: &str, html: &str) -> (r: Option<String>)
    ensures
        match r {
            Some(t) => selected_text_of(selector@, html@) == Some(t@),
            None => selected_text_of(selector@, html@) is None,
        },
{
    let selector = scraper::Selector::parse(selector).ok()?;
    let document = scraper::Html::parse_document(html);
    let element = document.select(&selector).next()?;
    let text = element.text().next()?;
    Some(text.to_owned())
}

/// The selector of the element carrying the embedded state.
pub open spec fn initial_state_selector() -> Seq<char> {
    "#___INITIAL_STATE___"@
}

/// Locate the embedded state in a page and return its JSON text.
///
/// Fails with a missing-state error exactly when the document has no
/// element matching the fixed identifier, or that element has no direct
/// text content.
pub fn initial_state_text(html: &str) -> (r: Result<String, Error>)
    ensures
        match r {
            Ok(t) => selected_text_of(initial_state_selector(), html@) == Some(t@),
            Err(e) => e == Error::MissingInitialState && selected_text_of(
                initial_state_selector(),
                html@,
            ) is None,
        },
{
    match select_first_text("#___INITIAL_STATE___", html) {
        Some(t) => Ok(t),
        None => Err(Error::MissingInitialState),
    }
}

} // verus!
