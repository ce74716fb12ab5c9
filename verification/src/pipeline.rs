//! The pipeline in one call: from the text of the page and the history read
//! before, to the history to persist and the posts to deliver.

use vstd::prelude::*;
use crate::errors::{SipError, SipErrorView};
use crate::extract::{extract_posts, item_fault, lemma_faulty_category_fails_page, page_history};
use crate::history::{History, HistoryView};
use crate::markup::{
    PARSE_LIMIT,
    page_selectors,
    parsed_document,
    raw_page_of,
    selectors_compile,
};
use crate::novelty::{delivery, resolve_novelty};
use crate::post::{PostView, SipPost, post_views};

verus! {

/// Whether a result of the pipeline is the one that the extraction outcome
/// calls for: on a failure the failure itself, and else the fresh history
/// together with the delivery sequence against the old one.
pub open spec fn fetched_agrees(
    r: Result<(History, Vec<SipPost>), SipError>,
    old: HistoryView,
    extracted: Result<HistoryView, SipErrorView>,
) -> bool {
    match extracted {
        Ok(fresh) => r matches Ok(found) && found.0@ == fresh && post_views(found.1@) == delivery(
            old.general,
            old.important,
            fresh.general,
            fresh.important,
        ),
        Err(fault) => r matches Err(e) && e@ == fault,
    }
}

/// Extracts both categories from the page and computes what is new against
/// `old`. On success the first part is the history to persist, whole, and
/// the second the posts to deliver; on failure nothing is to be persisted
/// and nothing to be delivered.
pub fn fetch_posts(old: &History, html: &str) -> (r: Result<(History, Vec<SipPost>), SipError>)
    ensures
        fetched_agrees(r, old@, page_history(html@)),
{
    match extract_posts(html) {
        Ok(fresh) => {
            let posts = resolve_novelty(
                &old.general,
                &old.important,
                &fresh.general,
                &fresh.important,
            );
            Ok((fresh, posts))
        },
        Err(e) => Err(e),
    }
}

/// Running the pipeline twice on an unchanged page delivers nothing the
/// second time: with the history that the page yields as the old one, the
/// page yields the same history again and an empty delivery.
pub proof fn lemma_second_fetch_delivers_nothing(
    first: Result<(History, Vec<SipPost>), SipError>,
    second: Result<(History, Vec<SipPost>), SipError>,
    old: HistoryView,
    html: Seq<char>,
)
    requires
        fetched_agrees(first, old, page_history(html)),
        first is Ok,
        fetched_agrees(second, first->Ok_0.0@, page_history(html)),
    ensures
        second is Ok,
        second->Ok_0.0@ == first->Ok_0.0@,
        post_views(second->Ok_0.1@) == Seq::<PostView>::empty(),
        second->Ok_0.1@.len() == 0,
{
    let fresh = first->Ok_0.0@;
    crate::novelty::lemma_unchanged_page_delivers_nothing(fresh.general, fresh.important);
    assert(post_views(second->Ok_0.1@).len() == second->Ok_0.1@.len());
}

/// The pipeline fails fast on a malformed announcement. Where the queries
/// compile, the page is within the parser's limit and has both containers,
/// and an announcement of either lacks something, the result is a
/// `PostParseError`: there is no history to persist and no post to deliver.
pub proof fn lemma_faulty_page_fails_fetch(
    r: Result<(History, Vec<SipPost>), SipError>,
    old: HistoryView,
    html: Seq<char>,
    which: int,
    at: int,
)
    requires
        fetched_agrees(r, old, page_history(html)),
        selectors_compile(),
        html.len() <= PARSE_LIMIT,
        raw_page_of(&parsed_document(html), page_selectors()).containers.len() >= 2,
        which == 0 || which == 1,
        0 <= at < raw_page_of(&parsed_document(html), page_selectors()).containers[which].len(),
        item_fault(raw_page_of(&parsed_document(html), page_selectors()).containers[which][at])
            is Some,
    ensures
        r matches Err(e) && e is PostParseError,
{
    lemma_faulty_category_fails_page(
        raw_page_of(&parsed_document(html), page_selectors()),
        which,
        at,
    );
}

} // verus!
