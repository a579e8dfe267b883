//! Reading HTML documents through scraper's CSS selection.
//!
//! Each reader parses the document with `Html::parse_document`, selects
//! elements with `Selector::parse`, and hands back plain strings. What the
//! HTML parser and the selector engine make of a document is named, not
//! restated: the readers' contracts speak of those names.

use vstd::prelude::*;

verus! {

/// scraper accepts `selector` as a CSS selector list.
pub uninterp spec fn selector_accepted(selector: Seq<char>) -> bool;

/// For each element of the document that matches `selector`, in the order
/// the HTML parser created their nodes (which `Html::select` walks), the value
/// of its attribute `attr`, if it has one.
pub uninterp spec fn attr_of_matches(doc: Seq<char>, selector: Seq<char>, attr: Seq<char>) -> Seq<
    Option<Seq<char>>,
>;

/// For each element of the document that matches `selector`, in the order
/// the HTML parser created their nodes, its descendant text nodes in tree
/// order.
pub uninterp spec fn text_of_matches(doc: Seq<char>, selector: Seq<char>) -> Seq<Seq<Seq<char>>>;

/// For each element that matches `outer`, in the order the HTML parser
/// created their nodes, the value of `attr` on each of its descendants that
/// match `inner`, in tree order.
pub uninterp spec fn attr_of_nested(
    doc: Seq<char>,
    outer: Seq<char>,
    inner: Seq<char>,
    attr: Seq<char>,
) -> Seq<Seq<Option<Seq<char>>>>;

/// For each element that matches `outer`, in the order the HTML parser
/// created their nodes, the text nodes of each of its descendants that match
/// `inner`, in tree order.
pub uninterp spec fn text_of_nested(doc: Seq<char>, outer: Seq<char>, inner: Seq<char>) -> Seq<
    Seq<Seq<Seq<char>>>,
>;

/// The characters of an optional string.
pub open spec fn opt_view(o: Option<String>) -> Option<Seq<char>> {
    match o {
        Some(s) => Some(s@),
        None => None,
    }
}

/// The characters of each optional string of `v`.
pub open spec fn opts_view(v: Seq<Option<String>>) -> Seq<Option<Seq<char>>> {
    v.map_values(|o: Option<String>| opt_view(o))
}

/// The characters of each string of `v`.
pub open spec fn texts_view(v: Seq<String>) -> Seq<Seq<char>> {
    v.map_values(|s: String| s@)
}

/// Relies on `Html::parse_document`, `Selector::parse`, `Html::select` and
/// `Element::attr`: the attribute of each matching element.
#[verifier::external_body]
pub(crate) fn select_attr(doc: &str, selector: &str, attr: &str) -> (r: Option<Vec<Option<String>>>)
    ensures
        r is Some <==> selector_accepted(selector@),
        r matches Some(v) ==> opts_view(v@) == attr_of_matches(doc@, selector@, attr@),
{
    let html = scraper::Html::parse_document(doc);
    let sel = scraper::Selector::parse(selector).ok()?;
    Some(html.select(&sel).map(|e| e.value().attr(attr).map(String::from)).collect())
}

/// Relies on `Html::parse_document`, `Selector::parse`, `Html::select` and
/// `ElementRef::text`: the text nodes of each matching element.
#[verifier::external_body]
pub(crate) fn select_text(doc: &str, selector: &str) -> (r: Option<Vec<Vec<String>>>)
    ensures
        r is Some <==> selector_accepted(selector@),
        r matches Some(v) ==> v@.map_values(|t: Vec<String>| texts_view(t@)) == text_of_matches(
            doc@,
            selector@,
        ),
{
    let html = scraper::Html::parse_document(doc);
    let sel = scraper::Selector::parse(selector).ok()?;
    Some(html.select(&sel).map(|e| e.text().map(String::from).collect()).collect())
}

/// Relies on `Html::parse_document`, `Selector::parse`, `Html::select`,
/// `ElementRef::select` and `Element::attr`: the attribute of each inner match
/// within each outer match.
#[verifier::external_body]
pub(crate) fn select_nested_attr(doc: &str, outer: &str, inner: &str, attr: &str) -> (r: Option<
    Vec<Vec<Option<String>>>,
>)
    ensures
        r is Some <==> (selector_accepted(outer@) && selector_accepted(inner@)),
        r matches Some(v) ==> v@.map_values(|row: Vec<Option<String>>| opts_view(row@))
            == attr_of_nested(doc@, outer@, inner@, attr@),
{
    let html = scraper::Html::parse_document(doc);
    let out = scraper::Selector::parse(outer).ok()?;
    let inn = scraper::Selector::parse(inner).ok()?;
    Some(
        html.select(&out).map(
            |e| e.select(&inn).map(|i| i.value().attr(attr).map(String::from)).collect(),
        ).collect(),
    )
}

/// Relies on `Html::parse_document`, `Selector::parse`, `Html::select`,
/// `ElementRef::select` and `ElementRef::text`: the text nodes of each inner
/// match within each outer match.
#[verifier::external_body]
pub(crate) fn select_nested_text(doc: &str, outer: &str, inner: &str) -> (r: Option<
    Vec<Vec<Vec<String>>>,
>)
    ensures
        r is Some <==> (selector_accepted(outer@) && selector_accepted(inner@)),
        r matches Some(v) ==> v@.map_values(
            |row: Vec<Vec<String>>| row@.map_values(|t: Vec<String>| texts_view(t@)),
        ) == text_of_nested(doc@, outer@, inner@),
{
    let html = scraper::Html::parse_document(doc);
    let out = scraper::Selector::parse(outer).ok()?;
    let inn = scraper::Selector::parse(inner).ok()?;
    Some(
        html.select(&out).map(
            |e| e.select(&inn).map(|i| i.text().map(String::from).collect()).collect(),
        ).collect(),
    )
}

} // verus!
