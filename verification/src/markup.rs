//! The page as the structural queries see it. Parsing markup and matching
//! selectors is the work of the `scraper` crate; what is stated of it here is
//! taken on trust and kept to what its source shows.
//!
//! An element is read here as a place in a tree: the names say what the
//! tree holds at that place. Nothing here speaks of how two references to
//! elements compare when the program runs.

use vstd::prelude::*;
use vstd::string::*;
use crate::errors::{SipError, SipErrorView};

verus! {

/// A parsed page, opaque to the proofs.
#[verifier::external_type_specification]
#[verifier::external_body]
pub struct ExHtml(scraper::Html);

/// A compiled structural query, opaque to the proofs.
#[verifier::external_type_specification]
#[verifier::external_body]
pub struct ExSelector(scraper::Selector);

/// A reference to one element of a parsed page, opaque to the proofs.
#[verifier::external_type_specification]
#[verifier::external_body]
pub struct ExElementRef<'a>(scraper::ElementRef<'a>);

/// The reason why a structural query did not compile, opaque to the proofs.
#[verifier::external_type_specification]
#[verifier::external_body]
pub struct ExSelectorErrorKind(scraper::error::SelectorErrorKind);

/// What `scraper::Selector::parse` makes of the text: the compiled selector
/// group, or the reason why it refuses the text.
pub uninterp spec fn compiled(css: Seq<char>) -> Result<
    scraper::Selector,
    scraper::error::SelectorErrorKind,
>;

/// The text that the `Display` of `scraper::error::SelectorErrorKind` gives
/// for the reason.
pub uninterp spec fn selector_fault_text(error: scraper::error::SelectorErrorKind) -> Seq<char>;

/// Whether `scraper::Selector::parse` accepts this text as a selector group.
pub open spec fn css_compiles(css: Seq<char>) -> bool {
    compiled(css) is Ok
}

/// What compiling one query yields: the selector, or a `SelectorError` whose
/// detail is the text of the reason.
pub open spec fn compile_outcome(css: Seq<char>) -> Result<scraper::Selector, SipErrorView> {
    match compiled(css) {
        Ok(selector) => Ok(selector),
        Err(error) => Err(SipErrorView::SelectorError(selector_fault_text(error))),
    }
}

/// `scraper::Selector::parse` compiles a selector group. Whether it succeeds,
/// and the selector or the reason that it gives, depend on the text alone;
/// nothing else is claimed of the outcome.
pub assume_specification[ scraper::Selector::parse ](selectors: &str) -> (r: Result<
    scraper::Selector,
    scraper::error::SelectorErrorKind,
>)
    ensures
        r == compiled(selectors@),
;

/// The longest text, in characters, that is handed to the parser. The
/// parser keeps text in buffers whose length and capacity are 32-bit numbers,
/// and it fails beyond them; a character takes at most four bytes, so a text
/// within this limit stays far below what the buffers bear.
pub const PARSE_LIMIT: usize = 0x0800_0000;

/// The tree that `scraper::Html::parse_document` builds of the text.
pub uninterp spec fn parsed_document(text: Seq<char>) -> scraper::Html;

/// `scraper::Html::parse_document` builds the tree of a page. It recovers
/// from malformed markup, and the tree depends on the text alone; nothing
/// else is claimed of it. A text beyond the limit is kept away from it: its
/// buffers do not take more than 32-bit lengths.
pub assume_specification[ scraper::Html::parse_document ](document: &str) -> (r: scraper::Html)
    requires
        document@.len() <= PARSE_LIMIT,
    ensures
        r == parsed_document(document@),
;

/// The text of a `scraper::error::SelectorErrorKind`, by its `Display`. It
/// depends on the reason alone; nothing else is claimed of it.
#[verifier::external_body]
fn selector_error_text(error: &scraper::error::SelectorErrorKind) -> (text: String)
    ensures
        text@ == selector_fault_text(*error),
{
    error.to_string()
}

/// Compiles one structural query, reporting a failure as `SelectorError`
/// with the text of the reason as its detail.
pub fn compile_selector(css: &str) -> (r: Result<scraper::Selector, SipError>)
    ensures
        match compile_outcome(css@) {
            Ok(selector) => r == Ok::<scraper::Selector, SipError>(selector),
            Err(fault) => r matches Err(e) && e@ == fault,
        },
{
    match scraper::Selector::parse(css) {
        Ok(selector) => Ok(selector),
        Err(error) => Err(SipError::SelectorError(selector_error_text(&error))),
    }
}

/// The elements of the page that `scraper::Html::select` yields for the
/// selector, in the order in which it yields them.
pub uninterp spec fn matches_within(document: &scraper::Html, selector: scraper::Selector) -> Seq<
    scraper::ElementRef<'_>,
>;

/// The descendants of the element that `scraper::ElementRef::select` yields
/// for the selector, in the order in which it yields them.
pub uninterp spec fn matches_below(
    element: scraper::ElementRef<'_>,
    selector: scraper::Selector,
) -> Seq<scraper::ElementRef<'_>>;

/// The text nodes below the element that `scraper::ElementRef::text`
/// yields, in the order in which it yields them.
pub uninterp spec fn text_pieces(element: scraper::ElementRef<'_>) -> Seq<Seq<char>>;

/// The value that `scraper::node::Element::attr` gives for the attribute on
/// the element's own node, or `None` where the element does not have it.
pub uninterp spec fn attribute_value(element: scraper::ElementRef<'_>, name: Seq<char>) -> Option<
    Seq<char>,
>;

/// `scraper::Html::select`, run to its end: the elements of the page that
/// match the selector. They depend on the page and the selector alone, and
/// the list holds them in the order in which the iterator yields them;
/// nothing else is claimed of them.
#[verifier::external_body]
fn document_matches<'a>(
    document: &'a scraper::Html,
    selector: &scraper::Selector,
) -> (found: Vec<scraper::ElementRef<'a>>)
    ensures
        found@ == matches_within(document, *selector),
{
    document.select(selector).collect()
}

/// `scraper::ElementRef::select`, run to its end: the descendants of the
/// element that match the selector. They depend on the element and the
/// selector alone, and the list holds them in the order in which the
/// iterator yields them; nothing else is claimed of them.
#[verifier::external_body]
fn element_matches<'a>(
    element: &scraper::ElementRef<'a>,
    selector: &scraper::Selector,
) -> (found: Vec<scraper::ElementRef<'a>>)
    ensures
        found@ == matches_below(*element, *selector),
{
    element.select(selector).collect()
}

/// `scraper::ElementRef::text`, run to its end: the text nodes below the
/// element, each as it stands. They depend on the element alone, and the
/// list holds them in the order in which the iterator yields them; nothing
/// else is claimed of them.
#[verifier::external_body]
fn element_texts(element: &scraper::ElementRef) -> (pieces: Vec<String>)
    ensures
        pieces.deep_view() == text_pieces(*element),
{
    element.text().map(|piece| piece.to_string()).collect()
}

/// `scraper::node::Element::attr` on the element's own node: the value of
/// the attribute, if the element has it. It depends on the element and the
/// attribute's name alone; nothing else is claimed of it.
#[verifier::external_body]
fn element_attr(element: &scraper::ElementRef, name: &str) -> (value: Option<String>)
    ensures
        value.deep_view() == attribute_value(*element, name@),
{
    element.value().attr(name).map(|value| value.to_string())
}

/// The five structural queries of the page, compiled.
pub struct Selectors {
    /// A category container.
    pub containers: scraper::Selector,
    /// One announcement inside a container.
    pub items: scraper::Selector,
    /// A paragraph of an announcement: its date, then its content.
    pub paragraph: scraper::Selector,
    /// The heading of an announcement.
    pub heading: scraper::Selector,
    /// An anchor of an announcement.
    pub anchor: scraper::Selector,
}

/// Whether all five queries of the page compile.
pub open spec fn selectors_compile() -> bool {
    &&& css_compiles("div.news-box"@)
    &&& css_compiles("ul li"@)
    &&& css_compiles("p"@)
    &&& css_compiles("h4"@)
    &&& css_compiles("a"@)
}

/// The five queries of the page as compiled, where all of them compile.
pub open spec fn page_selectors() -> Selectors {
    Selectors {
        containers: compiled("div.news-box"@)->Ok_0,
        items: compiled("ul li"@)->Ok_0,
        paragraph: compiled("p"@)->Ok_0,
        heading: compiled("h4"@)->Ok_0,
        anchor: compiled("a"@)->Ok_0,
    }
}

/// The failure of the first of the five queries that does not compile, in
/// the order containers, items, paragraph, heading, anchor.
pub open spec fn selectors_fault() -> SipErrorView {
    if !css_compiles("div.news-box"@) {
        compile_outcome("div.news-box"@)->Err_0
    } else if !css_compiles("ul li"@) {
        compile_outcome("ul li"@)->Err_0
    } else if !css_compiles("p"@) {
        compile_outcome("p"@)->Err_0
    } else if !css_compiles("h4"@) {
        compile_outcome("h4"@)->Err_0
    } else {
        compile_outcome("a"@)->Err_0
    }
}

impl Selectors {
    /// Compiles the five queries, or reports the first that does not compile.
    pub fn compile() -> (r: Result<Selectors, SipError>)
        ensures
            r is Ok <==> selectors_compile(),
            r matches Ok(selectors) ==> selectors == page_selectors(),
            r matches Err(e) ==> e@ == selectors_fault(),
    {
        let containers = match compile_selector("div.news-box") {
            Ok(selector) => selector,
            Err(e) => { return Err(e); },
        };
        let items = match compile_selector("ul li") {
            Ok(selector) => selector,
            Err(e) => { return Err(e); },
        };
        let paragraph = match compile_selector("p") {
            Ok(selector) => selector,
            Err(e) => { return Err(e); },
        };
        let heading = match compile_selector("h4") {
            Ok(selector) => selector,
            Err(e) => { return Err(e); },
        };
        let anchor = match compile_selector("a") {
            Ok(selector) => selector,
            Err(e) => { return Err(e); },
        };
        Ok(Selectors { containers, items, paragraph, heading, anchor })
    }
}

/// One announcement as the queries see it: for each matching element, in
/// the order in which the query yields them, what the extraction reads of it.
#[derive(Debug)]
pub struct RawItem {
    /// The text nodes of each paragraph.
    pub paragraphs: Vec<Vec<String>>,
    /// The text nodes of each heading.
    pub headings: Vec<Vec<String>>,
    /// The address of each anchor, absent where the anchor has none.
    pub anchors: Vec<Option<String>>,
}

/// What a raw announcement holds, as plain mathematical values.
pub struct RawItemView {
    pub paragraphs: Seq<Seq<Seq<char>>>,
    pub headings: Seq<Seq<Seq<char>>>,
    pub anchors: Seq<Option<Seq<char>>>,
}

impl View for RawItem {
    type V = RawItemView;

    open spec fn view(&self) -> RawItemView {
        RawItemView {
            paragraphs: self.paragraphs.deep_view(),
            headings: self.headings.deep_view(),
            anchors: self.anchors.deep_view(),
        }
    }
}

/// The views of a sequence of raw announcements, in the same order.
pub open spec fn item_views(items: Seq<RawItem>) -> Seq<RawItemView> {
    items.map_values(|item: RawItem| item@)
}

/// A page as the queries see it: the announcements of each category
/// container, in the order in which the query yields the containers.
#[derive(Debug)]
pub struct RawPage {
    pub containers: Vec<Vec<RawItem>>,
}

/// What a raw page holds, as plain mathematical values.
pub struct RawPageView {
    pub containers: Seq<Seq<RawItemView>>,
}

impl View for RawPage {
    type V = RawPageView;

    open spec fn view(&self) -> RawPageView {
        RawPageView { containers: self.containers@.map_values(|c: Vec<RawItem>| item_views(c@)) }
    }
}

/// The text nodes of each element, element by element.
pub open spec fn texts_of(elements: Seq<scraper::ElementRef<'_>>) -> Seq<Seq<Seq<char>>> {
    elements.map_values(|e: scraper::ElementRef| text_pieces(e))
}

/// The address of each element, element by element: the value of its
/// `href`, absent where it has none.
pub open spec fn addresses_of(elements: Seq<scraper::ElementRef<'_>>) -> Seq<Option<Seq<char>>> {
    elements.map_values(|e: scraper::ElementRef| attribute_value(e, "href"@))
}

/// One announcement as the queries see it: the texts of its paragraphs and
/// of its headings, and the addresses of its anchors, each in the order in
/// which the query yields the elements.
pub open spec fn raw_item_of(element: scraper::ElementRef<'_>, selectors: Selectors) -> RawItemView {
    RawItemView {
        paragraphs: texts_of(matches_below(element, selectors.paragraph)),
        headings: texts_of(matches_below(element, selectors.heading)),
        anchors: addresses_of(matches_below(element, selectors.anchor)),
    }
}

/// The announcements of a category container as the queries see them: one
/// for each list entry below the container, in the order in which the query
/// yields them.
pub open spec fn raw_items_of(container: scraper::ElementRef<'_>, selectors: Selectors) -> Seq<
    RawItemView,
> {
    matches_below(container, selectors.items).map_values(
        |e: scraper::ElementRef| raw_item_of(e, selectors),
    )
}

/// A parsed page as the queries see it: the announcements of each category
/// container of the page, in the order in which the query yields them.
pub open spec fn raw_page_of(document: &scraper::Html, selectors: Selectors) -> RawPageView {
    RawPageView {
        containers: matches_within(document, selectors.containers).map_values(
            |e: scraper::ElementRef| raw_items_of(e, selectors),
        ),
    }
}

/// Reads the text nodes of each element, element by element.
fn read_texts(elements: &Vec<scraper::ElementRef>) -> (texts: Vec<Vec<String>>)
    ensures
        texts.deep_view() == texts_of(elements@),
{
    let mut texts: Vec<Vec<String>> = Vec::new();
    let mut i: usize = 0;
    while i < elements.len()
        invariant
            i <= elements.len(),
            texts.len() == i,
            forall|k: int| 0 <= k < i ==> (#[trigger] texts@[k]).deep_view() == text_pieces(elements@[k]),
        decreases elements.len() - i,
    {
        texts.push(element_texts(&elements[i]));
        i = i + 1;
    }
    assert(texts.deep_view() =~= texts_of(elements@));
    texts
}

/// Reads the address of each element, element by element.
fn read_addresses(elements: &Vec<scraper::ElementRef>) -> (addresses: Vec<Option<String>>)
    ensures
        addresses.deep_view() == addresses_of(elements@),
{
    let mut addresses: Vec<Option<String>> = Vec::new();
    let mut i: usize = 0;
    while i < elements.len()
        invariant
            i <= elements.len(),
            addresses.len() == i,
            forall|k: int|
                0 <= k < i ==> (#[trigger] addresses@[k]).deep_view() == attribute_value(
                    elements@[k],
                    "href"@,
                ),
        decreases elements.len() - i,
    {
        addresses.push(element_attr(&elements[i], "href"));
        i = i + 1;
    }
    assert(addresses.deep_view() =~= addresses_of(elements@));
    addresses
}

/// Reads one announcement out of its element.
pub(crate) fn read_item(element: &scraper::ElementRef, selectors: &Selectors) -> (item: RawItem)
    ensures
        item@ == raw_item_of(*element, *selectors),
{
    let paragraphs = element_matches(element, &selectors.paragraph);
    let headings = element_matches(element, &selectors.heading);
    let anchors = element_matches(element, &selectors.anchor);
    RawItem {
        paragraphs: read_texts(&paragraphs),
        headings: read_texts(&headings),
        anchors: read_addresses(&anchors),
    }
}

/// Reads the announcements of one category container, in the order in which
/// the query yields them.
pub(crate) fn read_items(
    container: &scraper::ElementRef,
    selectors: &Selectors,
) -> (items: Vec<RawItem>)
    ensures
        item_views(items@) == raw_items_of(*container, *selectors),
{
    let elements = element_matches(container, &selectors.items);
    let mut items: Vec<RawItem> = Vec::new();
    let mut i: usize = 0;
    while i < elements.len()
        invariant
            i <= elements.len(),
            items.len() == i,
            forall|k: int|
                0 <= k < i ==> (#[trigger] items@[k])@ == raw_item_of(elements@[k], *selectors),
        decreases elements.len() - i,
    {
        items.push(read_item(&elements[i], selectors));
        i = i + 1;
    }
    assert(item_views(items@) =~= raw_items_of(*container, *selectors));
    items
}

/// Reads every category container of a parsed page, in the order in which
/// the query yields them.
pub(crate) fn read_document(document: &scraper::Html, selectors: &Selectors) -> (page: RawPage)
    ensures
        page@ == raw_page_of(document, *selectors),
{
    let elements = document_matches(document, &selectors.containers);
    let mut containers: Vec<Vec<RawItem>> = Vec::new();
    let mut i: usize = 0;
    while i < elements.len()
        invariant
            i <= elements.len(),
            containers.len() == i,
            forall|k: int|
                0 <= k < i ==> item_views((#[trigger] containers@[k])@) == raw_items_of(
                    elements@[k],
                    *selectors,
                ),
        decreases elements.len() - i,
    {
        containers.push(read_items(&elements[i], selectors));
        i = i + 1;
    }
    let page = RawPage { containers };
    assert(page@.containers =~= raw_page_of(document, *selectors).containers);
    page
}

/// Parses the page and reads every category container of it: the page as
/// the queries see it in the tree that the parser builds of the text.
pub(crate) fn read_page(html: &str, selectors: &Selectors) -> (page: RawPage)
    requires
        html@.len() <= PARSE_LIMIT,
    ensures
        page@ == raw_page_of(&parsed_document(html@), *selectors),
{
    let document = scraper::Html::parse_document(html);
    read_document(&document, selectors)
}

} // verus!
