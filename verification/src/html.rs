//! The HTML side of the library: what `scraper` parses and selects.
//!
//! Documents, selectors and elements are values of `scraper`'s own types and
//! opaque to the proofs. Each call into the crate has one function here whose
//! contract is taken on trust, and nothing else in the library touches such a
//! value. The contracts give names to what the calls return. They say that a
//! call's result depends on its arguments alone, and no more than that: what a
//! selector matches, and in which order a selection yields its elements, is
//! `scraper`'s to decide.
//!
//! To the proofs an element is a place in its document: two elements are the
//! same if they stand at the same place of the same document.

use vstd::prelude::*;

verus! {

#[verifier::external_type_specification]
#[verifier::external_body]
pub struct ExHtml(scraper::Html);

#[verifier::external_type_specification]
#[verifier::external_body]
pub struct ExSelector(scraper::Selector);

#[verifier::external_type_specification]
#[verifier::external_body]
pub struct ExElementRef<'a>(scraper::ElementRef<'a>);

#[verifier::external_type_specification]
#[verifier::external_body]
pub struct ExSelectorErrorKind(scraper::error::SelectorErrorKind);

/// The longest page, in bytes of UTF-8, that is handed to the HTML parser.
///
/// The parser holds its input in a buffer that takes at most `u32::MAX` bytes
/// and panics on more. This limit keeps well below that.
pub const MAX_PAGE_BYTES: usize = 268_435_456;

/// The longest text, in characters, that is handed to the selector parser,
/// which counts the lines of its input in 32 bits.
pub const MAX_SELECTOR_CHARS: usize = 256;

/// The document that `scraper::Html::parse_document` builds from a text.
pub uninterp spec fn parsed_document(text: Seq<char>) -> scraper::Html;

/// The selector that `scraper::Selector::parse` reads from a text, or `None`
/// where it reports an error.
pub uninterp spec fn parsed_selector(text: Seq<char>) -> Option<scraper::Selector>;

/// The elements that `scraper::Html::select` yields for a selector, in the
/// order in which it yields them.
pub uninterp spec fn document_selection(
    document: scraper::Html,
    selector: scraper::Selector,
) -> Seq<scraper::ElementRef<'static>>;

/// The attributes of an element as `scraper::node::Element::attr` finds them:
/// those without prefix and namespace, by their local names.
pub uninterp spec fn element_attributes(element: scraper::ElementRef) -> Map<Seq<char>, Seq<char>>;

/// The elements below an element that `scraper::ElementRef::select` yields
/// for a selector, in the order in which it yields them.
pub uninterp spec fn element_selection(
    element: scraper::ElementRef,
    selector: scraper::Selector,
) -> Seq<scraper::ElementRef<'static>>;

/// The contents of the text nodes that `scraper::ElementRef::text` yields for
/// an element, in the order in which it yields them.
pub uninterp spec fn element_texts(element: scraper::ElementRef) -> Seq<Seq<char>>;

/// `scraper::Html::parse_document`. On a text within the limit parsing never
/// fails, and the document depends on the text alone. A text beyond
/// `u32::MAX` bytes would make the call panic, so longer texts are kept out.
#[verifier::external_body]
pub(crate) fn parse_document(text: &str) -> (document: scraper::Html)
    requires
        vstd::utf8::encode_utf8(text@).len() <= MAX_PAGE_BYTES,
    ensures
        document == parsed_document(text@),
{
    scraper::Html::parse_document(text)
}

/// `scraper::Selector::parse`. Whether the text is a selector, and which,
/// depends on the text alone. The call counts line breaks in 32 bits, so
/// texts long enough to overflow that count are kept out.
#[verifier::external_body]
pub(crate) fn parse_selector(text: &str) -> (selector: Result<
    scraper::Selector,
    scraper::error::SelectorErrorKind,
>)
    requires
        text@.len() <= MAX_SELECTOR_CHARS,
    ensures
        match selector {
            Ok(read) => parsed_selector(text@) == Some(read),
            Err(_) => parsed_selector(text@) is None,
        },
{
    scraper::Selector::parse(text)
}

/// `scraper::Html::select`, walked to its end.
#[verifier::external_body]
pub(crate) fn select_in_document<'a>(
    document: &'a scraper::Html,
    selector: &scraper::Selector,
) -> (found: Vec<scraper::ElementRef<'a>>)
    ensures
        found@ == document_selection(*document, *selector),
{
    document.select(selector).collect()
}

/// `scraper::node::Element::attr` on the element's node: the value of the
/// attribute of that local name without prefix or namespace, if there is one.
#[verifier::external_body]
pub(crate) fn attribute(element: &scraper::ElementRef, name: &str) -> (value: Option<String>)
    ensures
        match value {
            Some(v) => element_attributes(*element).contains_key(name@) && v@
                == element_attributes(*element)[name@],
            None => !element_attributes(*element).contains_key(name@),
        },
{
    element.value().attr(name).map(String::from)
}

/// `scraper::ElementRef::select`, walked to its end.
#[verifier::external_body]
pub(crate) fn select_in_element<'a>(
    element: &scraper::ElementRef<'a>,
    selector: &scraper::Selector,
) -> (found: Vec<scraper::ElementRef<'a>>)
    ensures
        found@ == element_selection(*element, *selector),
{
    element.select(selector).collect()
}

/// `scraper::ElementRef::text`, walked to its end, each piece copied.
#[verifier::external_body]
pub(crate) fn texts(element: &scraper::ElementRef) -> (pieces: Vec<String>)
    ensures
        pieces@.len() == element_texts(*element).len(),
        forall|i: int| 0 <= i < pieces@.len() ==> pieces@[i]@ == element_texts(*element)[i],
{
    element.text().map(String::from).collect()
}

} // verus!
