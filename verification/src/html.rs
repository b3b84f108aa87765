//! HTML documents through the `scraper` crate, read back as plain text.

use vstd::prelude::*;

verus! {

/// The view of a list of strings, or of an error text.
pub open spec fn texts_view(r: Result<Vec<String>, String>) -> Result<Seq<Seq<char>>, Seq<char>> {
    match r {
        Ok(v) => Ok(v@.map_values(|t: String| t@)),
        Err(e) => Err(e@),
    }
}

/// The name for what parsing `html` as a document and selecting with the
/// CSS selector `selector` gives: the inner HTML of each match, in the
/// order the parsed tree is walked, or the selector parser's error text.
pub uninterp spec fn select_inner_html(html: Seq<char>, selector: Seq<char>) -> Result<Seq<Seq<char>>, Seq<char>>;

/// `Html::parse_document`, `Selector::parse` and `ElementRef::inner_html`:
/// the inner HTML of every element the selector matches, in the order the
/// parsed tree is walked (the order its nodes were inserted);
/// the selector error's debug text when the selector does not parse.
/// Nothing more is stated: the result is the name `select_inner_html`.
#[verifier::external_body]
pub(crate) fn inner_html_of_matches(html: &str, selector: &str) -> (r: Result<Vec<String>, String>)
    ensures
        texts_view(r) == select_inner_html(html@, selector@),
{
    let document = scraper::Html::parse_document(html);
    let sel = scraper::Selector::parse(selector).map_err(|e| format!("{:?}", e))?;
    Ok(document.select(&sel).map(|el| el.inner_html()).collect())
}

} // verus!
