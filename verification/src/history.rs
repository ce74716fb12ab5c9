//! The last known posts of both categories, as persisted between cycles.

use vstd::prelude::*;
use crate::post::{SipPost, PostView, post_views};

verus! {

/// The posts of both categories as one cycle found them. A cycle replaces
/// the persisted history by the one it extracted, whole and never merged.
#[derive(Debug)]
pub struct History {
    /// The general category, in the order of the page.
    pub general: Vec<SipPost>,
    /// The important category, in the order of the page.
    pub important: Vec<SipPost>,
}

/// What a history holds, as plain mathematical values.
pub struct HistoryView {
    pub general: Seq<PostView>,
    pub important: Seq<PostView>,
}

impl View for History {
    type V = HistoryView;

    open spec fn view(&self) -> HistoryView {
        HistoryView {
            general: post_views(self.general@),
            important: post_views(self.important@),
        }
    }
}

/// Copies a list of posts.
pub fn copy_posts(posts: &Vec<SipPost>) -> (copy: Vec<SipPost>)
    ensures
        post_views(copy@) == post_views(posts@),
{
    let mut copy: Vec<SipPost> = Vec::new();
    let mut i: usize = 0;
    while i < posts.len()
        invariant
            i <= posts.len(),
            copy.len() == i,
            forall|k: int| 0 <= k < i ==> (#[trigger] copy@[k])@ == posts@[k]@,
        decreases posts.len() - i,
    {
        copy.push(posts[i].clone());
        i = i + 1;
    }
    assert(post_views(copy@) =~= post_views(posts@));
    copy
}

impl Clone for History {
    fn clone(&self) -> (r: Self)
        ensures
            r@ == self@,
    {
        History { general: copy_posts(&self.general), important: copy_posts(&self.important) }
    }
}

} // verus!
