//! Turning a page into the posts of its two categories. The parse is strict:
//! one announcement that lacks a required part fails its whole category.

use vstd::prelude::*;
use vstd::string::*;
use crate::errors::{SipError, SipErrorView};
use crate::history::{History, HistoryView};
use crate::markup::{
    RawItem,
    RawItemView,
    RawPage,
    RawPageView,
    Selectors,
    item_views,
    PARSE_LIMIT,
    page_selectors,
    parsed_document,
    raw_items_of,
    raw_page_of,
    selectors_compile,
    selectors_fault,
    read_items,
    read_page,
};
use crate::post::{SipPost, SipPostType, PostView, post_views};
use crate::text::{joined, trimmed, join_trimmed, trim_text};

verus! {

/// What an announcement lacks, if anything: the first of date, title,
/// content, link and address that is absent, as the detail of the error.
/// The date is the first paragraph and the content the second.
pub open spec fn item_fault(item: RawItemView) -> Option<Seq<char>> {
    if item.paragraphs.len() == 0 {
        Some("Error parsing date"@)
    } else if item.headings.len() == 0 {
        Some("Error parsing title"@)
    } else if item.paragraphs.len() < 2 {
        Some("Error parsing content"@)
    } else if item.anchors.len() == 0 {
        Some("Error parsing link"@)
    } else if item.anchors[0] is None {
        Some("Error parsing hyperlink"@)
    } else {
        None
    }
}

/// The post of an announcement that lacks nothing: date from the first
/// paragraph, title from the first heading, content from the second
/// paragraph, link from the address of the first anchor.
pub open spec fn item_post(item: RawItemView, category: SipPostType) -> PostView {
    PostView {
        post_type: category,
        date: joined(item.paragraphs[0]),
        title: joined(item.headings[0]),
        content: joined(item.paragraphs[1]),
        link: trimmed(item.anchors[0]->0),
    }
}

/// Whether no announcement of the sequence lacks anything.
pub open spec fn faultless(items: Seq<RawItemView>) -> bool {
    forall|i: int| 0 <= i < items.len() ==> item_fault(#[trigger] items[i]) is None
}

/// Whether the announcement at `at` is the first that lacks something.
pub open spec fn first_fault_at(items: Seq<RawItemView>, at: int) -> bool {
    &&& 0 <= at < items.len()
    &&& item_fault(items[at]) is Some
    &&& forall|j: int| 0 <= j < at ==> item_fault(#[trigger] items[j]) is None
}

/// What a category yields: the posts of its announcements in their order,
/// or, where an announcement lacks something, the fault of the first such.
pub open spec fn items_outcome(items: Seq<RawItemView>, category: SipPostType) -> Result<
    Seq<PostView>,
    SipErrorView,
> {
    if faultless(items) {
        Ok(items.map_values(|item: RawItemView| item_post(item, category)))
    } else {
        let at = choose|at: int| first_fault_at(items, at);
        Err(SipErrorView::PostParseError(item_fault(items[at])->0))
    }
}

/// What a page yields: both categories, or the first failure. A page with
/// fewer than two containers fails as a whole; a fault inside a category is
/// reported with the text of the category's own error as its detail.
pub open spec fn page_outcome(page: RawPageView) -> Result<HistoryView, SipErrorView> {
    if page.containers.len() < 2 {
        Err(SipErrorView::PostError("Missing posts"@))
    } else {
        match items_outcome(page.containers[0], SipPostType::New) {
            Err(fault) => Err(SipErrorView::PostParseError(fault.text())),
            Ok(general) => match items_outcome(page.containers[1], SipPostType::Important) {
                Err(fault) => Err(SipErrorView::PostParseError(fault.text())),
                Ok(important) => Ok(HistoryView { general, important }),
            },
        }
    }
}

/// Whether a result of posts is the one that `expected` describes.
pub open spec fn posts_agree(
    r: Result<Vec<SipPost>, SipError>,
    expected: Result<Seq<PostView>, SipErrorView>,
) -> bool {
    match expected {
        Ok(posts) => r matches Ok(found) && post_views(found@) == posts,
        Err(fault) => r matches Err(e) && e@ == fault,
    }
}

/// Whether a result of a history is the one that `expected` describes.
pub open spec fn history_agrees(
    r: Result<History, SipError>,
    expected: Result<HistoryView, SipErrorView>,
) -> bool {
    match expected {
        Ok(history) => r matches Ok(found) && found@ == history,
        Err(fault) => r matches Err(e) && e@ == fault,
    }
}

/// Among the first faults of a sequence there is only one.
pub proof fn lemma_first_fault_unique(items: Seq<RawItemView>, a: int, b: int)
    requires
        first_fault_at(items, a),
        first_fault_at(items, b),
    ensures
        a == b,
{
    if a < b {
        assert(item_fault(items[a]) is None);
    }
    if b < a {
        assert(item_fault(items[b]) is None);
    }
}

/// Builds the post of one announcement, or names what it lacks.
pub fn post_from_item(item: &RawItem, post_type: SipPostType) -> (r: Result<SipPost, SipError>)
    ensures
        match item_fault(item@) {
            Some(detail) => r matches Err(e) && e@ == SipErrorView::PostParseError(detail),
            None => r matches Ok(post) && post@ == item_post(item@, post_type),
        },
{
    if item.paragraphs.len() == 0 {
        return Err(SipError::PostParseError(String::from_str("Error parsing date")));
    }
    let date = join_trimmed(&item.paragraphs[0]);
    if item.headings.len() == 0 {
        return Err(SipError::PostParseError(String::from_str("Error parsing title")));
    }
    let title = join_trimmed(&item.headings[0]);
    if item.paragraphs.len() < 2 {
        return Err(SipError::PostParseError(String::from_str("Error parsing content")));
    }
    let content = join_trimmed(&item.paragraphs[1]);
    if item.anchors.len() == 0 {
        return Err(SipError::PostParseError(String::from_str("Error parsing link")));
    }
    let link = match &item.anchors[0] {
        Some(address) => String::from_str(trim_text(address.as_str())),
        None => {
            return Err(SipError::PostParseError(String::from_str("Error parsing hyperlink")));
        },
    };
    Ok(SipPost { post_type, date, title, content, link })
}

/// Builds the posts of one category in the order of its announcements, and stops at the
/// first announcement that lacks something.
pub fn posts_from_items(items: &Vec<RawItem>, post_type: SipPostType) -> (r: Result<
    Vec<SipPost>,
    SipError,
>)
    ensures
        posts_agree(r, items_outcome(item_views(items@), post_type)),
{
    let ghost source = item_views(items@);
    let mut posts: Vec<SipPost> = Vec::new();
    let mut i: usize = 0;
    while i < items.len()
        invariant
            i <= items.len(),
            source == item_views(items@),
            posts.len() == i,
            forall|j: int| 0 <= j < i ==> item_fault(#[trigger] source[j]) is None,
            forall|j: int|
                0 <= j < i ==> (#[trigger] posts@[j])@ == item_post(source[j], post_type),
        decreases items.len() - i,
    {
        match post_from_item(&items[i], post_type) {
            Ok(post) => {
                posts.push(post);
            },
            Err(e) => {
                proof {
                    assert(source[i as int] == items@[i as int]@);
                    assert(first_fault_at(source, i as int));
                    let at = choose|at: int| first_fault_at(source, at);
                    lemma_first_fault_unique(source, at, i as int);
                }
                return Err(e);
            },
        }
        i = i + 1;
    }
    assert(faultless(source));
    assert(post_views(posts@) =~= source.map_values(
        |item: RawItemView| item_post(item, post_type),
    ));
    Ok(posts)
}

/// Reports a fault found inside a category as a fault of the page: the text
/// of the category's error becomes the detail of a `PostParseError`.
pub fn wrap_category_fault(fault: &SipError) -> (e: SipError)
    ensures
        e@ == SipErrorView::PostParseError(fault@.text()),
{
    SipError::PostParseError(fault.to_text())
}

/// Builds both categories from a page as the queries see it: the first
/// container is the general category, the second the important one.
pub fn history_from_page(page: &RawPage) -> (r: Result<History, SipError>)
    ensures
        history_agrees(r, page_outcome(page@)),
{
    if page.containers.len() < 2 {
        return Err(SipError::PostError(String::from_str("Missing posts")));
    }
    assert(page@.containers[0] == item_views(page.containers@[0]@));
    assert(page@.containers[1] == item_views(page.containers@[1]@));
    let general = match posts_from_items(&page.containers[0], SipPostType::New) {
        Ok(posts) => posts,
        Err(fault) => { return Err(wrap_category_fault(&fault)); },
    };
    let important = match posts_from_items(&page.containers[1], SipPostType::Important) {
        Ok(posts) => posts,
        Err(fault) => { return Err(wrap_category_fault(&fault)); },
    };
    Ok(History { general, important })
}

/// What a category container yields: the failure of the queries where one
/// does not compile, and else the outcome of the announcements that the
/// queries see in the container.
pub open spec fn element_outcome(node: scraper::ElementRef<'_>, category: SipPostType) -> Result<
    Seq<PostView>,
    SipErrorView,
> {
    if !selectors_compile() {
        Err(selectors_fault())
    } else {
        items_outcome(raw_items_of(node, page_selectors()), category)
    }
}

/// Extracts the posts of one category container. The queries are compiled
/// first; then the container is read and its announcements become posts.
pub fn parse_element_to_posts(node: scraper::ElementRef, post_type: SipPostType) -> (r: Result<
    Vec<SipPost>,
    SipError,
>)
    ensures
        posts_agree(r, element_outcome(node, post_type)),
{
    let selectors = match Selectors::compile() {
        Ok(selectors) => selectors,
        Err(e) => { return Err(e); },
    };
    let items = read_items(&node, &selectors);
    posts_from_items(&items, post_type)
}

/// The failure that a page beyond the parser's limit is answered with.
pub open spec fn oversize_fault() -> SipErrorView {
    SipErrorView::TextParseError("Page too large"@)
}

/// What the text of a page yields. Where a query does not compile, that
/// failure; where the text is longer than the parser takes, the failure of
/// an oversize page; and else the outcome of the page as the five queries
/// see it in the tree that the parser builds of the text.
pub open spec fn page_history(html: Seq<char>) -> Result<HistoryView, SipErrorView> {
    if !selectors_compile() {
        Err(selectors_fault())
    } else if html.len() > PARSE_LIMIT {
        Err(oversize_fault())
    } else {
        page_outcome(raw_page_of(&parsed_document(html), page_selectors()))
    }
}

/// Extracts both categories from the text of a page: the first container
/// is the general category, the second the important one. A text that is
/// longer than the parser takes is refused and never handed to it.
pub fn extract_posts(html: &str) -> (r: Result<History, SipError>)
    ensures
        history_agrees(r, page_history(html@)),
{
    let selectors = match Selectors::compile() {
        Ok(selectors) => selectors,
        Err(e) => { return Err(e); },
    };
    if html.unicode_len() > PARSE_LIMIT {
        return Err(SipError::TextParseError(String::from_str("Page too large")));
    }
    let page = read_page(html, &selectors);
    history_from_page(&page)
}

/// A container without announcements yields an empty category and no error.
pub proof fn lemma_empty_container_yields_no_posts(category: SipPostType)
    ensures
        items_outcome(Seq::<RawItemView>::empty(), category) == Ok::<
            Seq<PostView>,
            SipErrorView,
        >(Seq::<PostView>::empty()),
{
    let none = Seq::<RawItemView>::empty();
    assert(none.map_values(|item: RawItemView| item_post(item, category)) =~= Seq::<
        PostView,
    >::empty());
}

/// The parse fails fast. A category in which any announcement lacks its
/// anchor yields no posts at all, but a `PostParseError`.
pub proof fn lemma_missing_anchor_fails_category(
    items: Seq<RawItemView>,
    category: SipPostType,
    at: int,
)
    requires
        0 <= at < items.len(),
        items[at].anchors.len() == 0,
    ensures
        items_outcome(items, category) is Err,
        items_outcome(items, category)->Err_0 is PostParseError,
{
    assert(item_fault(items[at]) is Some);
}

/// A page fails as a whole when either of its two categories holds an
/// announcement that lacks something: the outcome is a `PostParseError`,
/// and no history comes out of it.
pub proof fn lemma_faulty_category_fails_page(page: RawPageView, which: int, at: int)
    requires
        page.containers.len() >= 2,
        which == 0 || which == 1,
        0 <= at < page.containers[which].len(),
        item_fault(page.containers[which][at]) is Some,
    ensures
        page_outcome(page) is Err,
        page_outcome(page)->Err_0 is PostParseError,
{
}

/// Every post that a category yields carries the category asked for.
pub proof fn lemma_posts_carry_category(items: Seq<RawItemView>, category: SipPostType)
    requires
        items_outcome(items, category) is Ok,
    ensures
        items_outcome(items, category)->Ok_0.len() == items.len(),
        forall|k: int|
            0 <= k < items.len() ==> (#[trigger] items_outcome(items, category)->Ok_0[k]).post_type
                == category,
{
}

} // verus!
