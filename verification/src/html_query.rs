use vstd::prelude::*;

verus! {

/// Maps an executable optional string to its mathematical view.
pub open spec fn string_opt_view(o: Option<String>) -> Option<Seq<char>> {
    match o {
        Some(s) => Some(s@),
        None => None,
    }
}

/// The value of attribute `attr` on the first element of the document parsed
/// from `html` that CSS selector `selector` matches, or `None` when no such
/// element exists, the matched element lacks the attribute, or the selector
/// text is not a valid selector. HTML5 parsing is lenient and total, so this
/// is defined for every input and depends on the three arguments alone.
pub uninterp spec fn selected_attr(html: Seq<char>, selector: Seq<char>, attr: Seq<char>) -> Option<Seq<char>>;

/// The concatenated text content of the first element of the document parsed
/// from `html` that CSS selector `selector` matches, or `None` when no
/// element matches or the selector text is not a valid selector. Depends on
/// the two arguments alone.
pub uninterp spec fn selected_text(html: Seq<char>, selector: Seq<char>) -> Option<Seq<char>>;

/// Relies on scraper::Selector::parse, scraper::Html::parse_document and
/// scraper::node::Element::attr: parse the document leniently (parsing never
/// fails), walk to the first element the selector matches, and hand back the
/// named attribute's value. Deterministic in its arguments.
#[verifier::external_body]
pub(crate) fn query_attr(html: &str, selector: &str, attr: &str) -> (r: Option<String>)
    ensures
        string_opt_view(r) == selected_attr(html@, selector@, attr@),
{
    let sel = match scraper::Selector::parse(selector) {
        Ok(s) => s,
        Err(_) => return None,
    };
    scraper::Html::parse_document(html)
        .select(&sel)
        .next()
        .and_then(|el| el.value().attr(attr))
        .map(|s| s.to_string())
}

/// Relies on scraper::Selector::parse, scraper::Html::parse_document and
/// scraper::element_ref::ElementRef::text: parse the document leniently, walk
/// to the first element the selector matches, and hand back its text content
/// concatenated in document order. Deterministic in its arguments.
#[verifier::external_body]
pub(crate) fn query_text(html: &str, selector: &str) -> (r: Option<String>)
    ensures
        string_opt_view(r) == selected_text(html@, selector@),
{
    let sel = match scraper::Selector::parse(selector) {
        Ok(s) => s,
        Err(_) => return None,
    };
    scraper::Html::parse_document(html)
        .select(&sel)
        .next()
        .map(|el| el.text().collect::<String>())
}

} // verus!
