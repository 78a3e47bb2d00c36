//! Parsed pages and element lookup. Parsing and selector matching are done by
//! the `scraper` crate; this module declares its types and states, for each
//! call the library makes, what the rest of the library relies on.
//!
//! Nothing here is proved. Every contract below says the same thing of its
//! call: the result is determined by the arguments. The spec functions without
//! a body give those results a name, so that contracts elsewhere can say which
//! lookups a value was read by.

use scraper::error::SelectorErrorKind;
use scraper::ElementRef;
use scraper::Html;
use scraper::Selector;
use vstd::prelude::*;

verus! {

/// `scraper::Html`, a parsed page. Opaque to the verifier.
#[verifier::external_type_specification]
#[verifier::external_body]
pub struct ExHtml(Html);

/// `scraper::Selector`, a compiled selector group. Opaque to the verifier.
#[verifier::external_type_specification]
#[verifier::external_body]
pub struct ExSelector(Selector);

/// `scraper::ElementRef`, a reference to one element of a parsed page. Opaque
/// to the verifier.
#[verifier::external_type_specification]
#[verifier::external_body]
pub struct ExElementRef<'a>(ElementRef<'a>);

/// `scraper::error::SelectorErrorKind`, the reason a selector was refused.
/// Opaque to the verifier.
#[verifier::external_type_specification]
#[verifier::external_body]
pub struct ExSelectorErrorKind(SelectorErrorKind);

/// The page that `Html::parse_document` builds from a text.
pub uninterp spec fn parsed_document(html: Seq<char>) -> Html;

/// The selector that `Selector::parse` compiles from a pattern, or `None`
/// where it refuses the pattern.
pub uninterp spec fn parsed_selector(pattern: Seq<char>) -> Option<Selector>;

/// The elements that `Html::select` yields for a page and a selector, in the
/// order in which it yields them.
pub uninterp spec fn selected(page: Html, selector: Selector) -> Seq<ElementRef<'static>>;

/// The first element that `ElementRef::select` yields for an element and a
/// selector, or `None` where it yields none.
pub uninterp spec fn first_inside(element: ElementRef<'static>, selector: Selector) -> Option<
    ElementRef<'static>,
>;

/// The text pieces that `ElementRef::text` yields for an element, joined in the
/// order in which it yields them.
pub uninterp spec fn inner_text(element: ElementRef<'static>) -> Seq<char>;

/// The value that `Element::attr` finds for an attribute name on an element, or
/// `None` where the element has no such attribute.
pub uninterp spec fn attribute(element: ElementRef<'static>, name: Seq<char>) -> Option<
    Seq<char>,
>;

/// Calls `Html::parse_document`, which parses a text as a whole HTML document
/// and accepts every text. Claimed: the page depends on the text alone.
#[verifier::external_body]
pub(crate) fn parse_document(html: &str) -> (page: Html)
    ensures
        page == parsed_document(html@),
{
    Html::parse_document(html)
}

/// Calls `Selector::parse`, which compiles a CSS selector group or refuses it.
/// Claimed: whether the pattern is accepted, and the selector it gives, depend
/// on the pattern alone. Nothing is claimed of the error.
#[verifier::external_body]
pub(crate) fn parse_selector(pattern: &str) -> (outcome: Result<Selector, SelectorErrorKind>)
    ensures
        outcome is Ok <==> parsed_selector(pattern@) is Some,
        outcome is Ok ==> outcome->Ok_0 == parsed_selector(pattern@)->0,
{
    Selector::parse(pattern)
}

/// Calls `Html::select` and collects what it yields. Claimed: the elements and
/// their order depend on the page and the selector alone.
#[verifier::external_body]
pub(crate) fn select_all<'a>(page: &'a Html, selector: &Selector) -> (found: Vec<ElementRef<'a>>)
    ensures
        found@ == selected(*page, *selector),
{
    page.select(selector).collect()
}

/// Calls `ElementRef::select` and takes the first element it yields. Claimed:
/// which element that is, if any, depends on the element searched and the
/// selector alone.
#[verifier::external_body]
pub(crate) fn select_first<'a>(element: ElementRef<'a>, selector: &Selector) -> (found: Option<
    ElementRef<'a>,
>)
    ensures
        found == first_inside(element, *selector),
{
    element.select(selector).next()
}

/// Calls `ElementRef::text` and joins the pieces it yields. Claimed: the text
/// depends on the element alone.
#[verifier::external_body]
pub(crate) fn element_text(element: ElementRef<'_>) -> (text: String)
    ensures
        text@ == inner_text(element),
{
    element.text().collect()
}

/// Calls `Element::attr` on the element's node. Claimed: whether the attribute
/// is found, and its value, depend on the element and the name alone.
#[verifier::external_body]
pub(crate) fn element_attr(element: ElementRef<'_>, name: &str) -> (value: Option<String>)
    ensures
        value is Some <==> attribute(element, name@) is Some,
        value is Some ==> value->0@ == attribute(element, name@)->0,
{
    element.value().attr(name).map(str::to_owned)
}

} // verus!
