use vstd::prelude::*;

verus! {

/// What a post page holds at its `#app` container: `None` when no element
/// matches, `Some(None)` when the first match carries no `data-page`
/// attribute, and otherwise that attribute's text.
pub uninterp spec fn app_payload_of(document: Seq<char>) -> Option<Option<Seq<char>>>;

/// Relies on scraper's Html::parse_document, Html::select with the `#app`
/// selector, and ElementRef::attr: parses the document (never failing;
/// invalid markup yields a best-effort tree) and reads the `data-page`
/// attribute of the first matching element, in tree order. Parsing,
/// selection and the attribute lookup depend on the document text alone.
#[verifier::external_body]
pub(crate) fn app_data_page(document: &str) -> (r: Option<Option<String>>)
    ensures
        match r {
            None => app_payload_of(document@) is None,
            Some(None) => app_payload_of(document@) == Some(None::<Seq<char>>),
            Some(Some(attr)) => app_payload_of(document@) == Some(Some(attr@)),
        },
{
    let selector = scraper::Selector::parse("#app").expect("a plain id selector compiles");
    let html = scraper::Html::parse_document(document);
    match html.select(&selector).next() {
        Some(element) => match element.attr("data-page") {
            Some(attr) => Some(Some(attr.to_owned())),
            None => Some(None),
        },
        None => None,
    }
}

} // verus!
