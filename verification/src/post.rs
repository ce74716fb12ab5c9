//! One announcement as read from the page, and how two of them are told apart.

use vstd::prelude::*;
use vstd::std_specs::cmp::PartialEqSpecImpl;

verus! {

/// The two fixed categories of announcements.
#[derive(Debug, Clone, Copy, PartialEq, Eq, Structural)]
pub enum SipPostType {
    /// The general category: the latest news, first container of the page.
    New,
    /// The important notices, second container of the page.
    Important,
}

/// One announcement. Its `link` is its identity; the other fields inform only.
#[derive(Debug)]
pub struct SipPost {
    pub post_type: SipPostType,
    /// The date as the site prints it; never parsed.
    pub date: String,
    pub title: String,
    pub content: String,
    pub link: String,
}

/// What a post holds, as plain mathematical values.
pub struct PostView {
    pub post_type: SipPostType,
    pub date: Seq<char>,
    pub title: Seq<char>,
    pub content: Seq<char>,
    pub link: Seq<char>,
}

impl View for SipPost {
    type V = PostView;

    open spec fn view(&self) -> PostView {
        PostView {
            post_type: self.post_type,
            date: self.date@,
            title: self.title@,
            content: self.content@,
            link: self.link@,
        }
    }
}

impl Clone for SipPost {
    fn clone(&self) -> (r: Self)
        ensures
            r@ == self@,
    {
        SipPost {
            post_type: self.post_type,
            date: self.date.clone(),
            title: self.title.clone(),
            content: self.content.clone(),
            link: self.link.clone(),
        }
    }
}

impl PartialEq for SipPost {
    /// Two posts are the same entry exactly when their links are equal.
    fn eq(&self, other: &Self) -> (r: bool) {
        self.link == other.link
    }
}

impl PartialEqSpecImpl for SipPost {
    open spec fn obeys_eq_spec() -> bool {
        true
    }

    open spec fn eq_spec(&self, other: &Self) -> bool {
        self.link@ == other.link@
    }
}

/// The views of a sequence of posts, in the same order.
pub open spec fn post_views(posts: Seq<SipPost>) -> Seq<PostView> {
    posts.map_values(|p: SipPost| p@)
}

/// The links of a sequence of posts, in the same order.
pub open spec fn links_of(posts: Seq<PostView>) -> Seq<Seq<char>> {
    posts.map_values(|p: PostView| p.link)
}

/// Whether some post of the sequence carries this link.
pub open spec fn has_link(posts: Seq<PostView>, link: Seq<char>) -> bool {
    exists|i: int| 0 <= i < posts.len() && (#[trigger] posts[i]).link == link
}

/// Tells whether a post with this link is among `posts`.
pub fn contains_link(posts: &Vec<SipPost>, link: &String) -> (found: bool)
    ensures
        found == has_link(post_views(posts@), link@),
{
    let mut i: usize = 0;
    while i < posts.len()
        invariant
            i <= posts.len(),
            forall|j: int| 0 <= j < i ==> (#[trigger] post_views(posts@)[j]).link != link@,
        decreases posts.len() - i,
    {
        if posts[i].link == *link {
            assert(post_views(posts@)[i as int].link == link@);
            return true;
        }
        i = i + 1;
    }
    false
}

} // verus!
