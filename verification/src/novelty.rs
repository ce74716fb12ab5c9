//! Which of the freshly extracted posts are new, and in what order they are
//! delivered when both categories name the same link.

use vstd::prelude::*;
use crate::post::{SipPost, PostView, post_views, links_of, has_link, contains_link};

verus! {

/// The test "this post's link does not occur among `seen`".
pub open spec fn unseen(seen: Seq<PostView>) -> spec_fn(PostView) -> bool {
    |p: PostView| !has_link(seen, p.link)
}

/// The posts of `fresh` whose link does not occur in `old`, in the order of `fresh`.
pub open spec fn novel(fresh: Seq<PostView>, old: Seq<PostView>) -> Seq<PostView> {
    fresh.filter(unseen(old))
}

/// `important` followed by the posts of `general` whose link no post of
/// `important` carries.
pub open spec fn merged(important: Seq<PostView>, general: Seq<PostView>) -> Seq<PostView> {
    important + general.filter(unseen(important))
}

/// The delivery sequence of one cycle: the novel important posts, then the
/// novel general posts that do not repeat a link of the former.
pub open spec fn delivery(
    old_general: Seq<PostView>,
    old_important: Seq<PostView>,
    new_general: Seq<PostView>,
    new_important: Seq<PostView>,
) -> Seq<PostView> {
    merged(novel(new_important, old_important), novel(new_general, old_general))
}

/// Copies out of `fresh` the posts whose link is not among `seen`.
pub fn novel_posts(fresh: &Vec<SipPost>, seen: &Vec<SipPost>) -> (kept: Vec<SipPost>)
    ensures
        post_views(kept@) == novel(post_views(fresh@), post_views(seen@)),
{
    let ghost source = post_views(fresh@);
    let ghost keep = unseen(post_views(seen@));
    let mut kept: Vec<SipPost> = Vec::new();
    let mut i: usize = 0;
    proof {
        reveal(Seq::filter);
        assert(source.subrange(0, 0).filter(keep) =~= Seq::<PostView>::empty());
        assert(post_views(kept@) =~= Seq::<PostView>::empty());
    }
    while i < fresh.len()
        invariant
            i <= fresh.len(),
            source == post_views(fresh@),
            keep == unseen(post_views(seen@)),
            post_views(kept@) == source.subrange(0, i as int).filter(keep),
        decreases fresh.len() - i,
    {
        let ghost before = post_views(kept@);
        let found = contains_link(seen, &fresh[i].link);
        proof {
            reveal(Seq::filter);
            let upto = source.subrange(0, i as int + 1);
            assert(upto.drop_last() =~= source.subrange(0, i as int));
            assert(upto.last() == fresh@[i as int]@);
            assert(keep(upto.last()) == !found);
        }
        if !found {
            let copy = fresh[i].clone();
            kept.push(copy);
            assert(post_views(kept@) =~= before.push(copy@));
        }
        i = i + 1;
    }
    assert(source.subrange(0, i as int) =~= source);
    kept
}

/// Appends to `important` the posts of `general` whose link no post of
/// `important` carries: where both categories name a link, the important
/// post alone is kept.
pub fn merge_with_priority(important: Vec<SipPost>, general: &Vec<SipPost>) -> (all: Vec<SipPost>)
    ensures
        post_views(all@) == merged(post_views(important@), post_views(general@)),
{
    let ghost first = post_views(important@);
    let ghost source = post_views(general@);
    let ghost keep = unseen(first);
    let mut extra: Vec<SipPost> = Vec::new();
    let mut i: usize = 0;
    proof {
        reveal(Seq::filter);
        assert(source.subrange(0, 0).filter(keep) =~= Seq::<PostView>::empty());
        assert(post_views(extra@) =~= Seq::<PostView>::empty());
    }
    while i < general.len()
        invariant
            i <= general.len(),
            first == post_views(important@),
            source == post_views(general@),
            keep == unseen(first),
            post_views(extra@) == source.subrange(0, i as int).filter(keep),
        decreases general.len() - i,
    {
        let ghost before = post_views(extra@);
        let found = contains_link(&important, &general[i].link);
        proof {
            reveal(Seq::filter);
            let upto = source.subrange(0, i as int + 1);
            assert(upto.drop_last() =~= source.subrange(0, i as int));
            assert(upto.last() == general@[i as int]@);
            assert(keep(upto.last()) == !found);
        }
        if !found {
            let copy = general[i].clone();
            extra.push(copy);
            assert(post_views(extra@) =~= before.push(copy@));
        }
        i = i + 1;
    }
    assert(source.subrange(0, i as int) =~= source);
    let mut all = important;
    let ghost tail = post_views(extra@);
    all.append(&mut extra);
    assert(post_views(all@) =~= first + tail);
    all
}

/// Computes what one cycle delivers from the histories read before they are
/// overwritten and the two lists extracted in this cycle.
pub fn resolve_novelty(
    old_general: &Vec<SipPost>,
    old_important: &Vec<SipPost>,
    new_general: &Vec<SipPost>,
    new_important: &Vec<SipPost>,
) -> (out: Vec<SipPost>)
    ensures
        post_views(out@) == delivery(
            post_views(old_general@),
            post_views(old_important@),
            post_views(new_general@),
            post_views(new_important@),
        ),
{
    let important = novel_posts(new_important, old_important);
    let general = novel_posts(new_general, old_general);
    merge_with_priority(important, &general)
}

/// Whether no two posts of the sequence carry the same link.
pub open spec fn distinct_links(posts: Seq<PostView>) -> bool {
    forall|a: int, b: int| 0 <= a < b < posts.len() ==> posts[a].link != posts[b].link
}

/// Whether `picks` names positions below `bound` in strictly rising order.
pub open spec fn rising(picks: Seq<int>, bound: int) -> bool {
    &&& forall|k: int| 0 <= k < picks.len() ==> 0 <= #[trigger] picks[k] < bound
    &&& forall|k: int, l: int| 0 <= k < l < picks.len() ==> picks[k] < picks[l]
}

/// Whether `picks` shows `part` to be drawn from `whole` without reordering:
/// the k-th post of `part` is the post of `whole` at the k-th pick.
pub open spec fn drawn_by(part: Seq<PostView>, whole: Seq<PostView>, picks: Seq<int>) -> bool {
    &&& picks.len() == part.len()
    &&& rising(picks, whole.len() as int)
    &&& forall|k: int| 0 <= k < part.len() ==> #[trigger] part[k] == whole[picks[k]]
}

/// Whether the posts of `part` are posts of `whole`, in the order that they
/// have in `whole`.
pub open spec fn in_order_of(part: Seq<PostView>, whole: Seq<PostView>) -> bool {
    exists|picks: Seq<int>| drawn_by(part, whole, picks)
}

/// Whether two sequences of posts name the same links, order and number aside.
pub open spec fn name_same_links(a: Seq<PostView>, b: Seq<PostView>) -> bool {
    forall|link: Seq<char>| has_link(a, link) == has_link(b, link)
}

proof fn lemma_filter_in_order(whole: Seq<PostView>, keep: spec_fn(PostView) -> bool)
    ensures
        in_order_of(whole.filter(keep), whole),
    decreases whole.len(),
{
    reveal(Seq::filter);
    if whole.len() == 0 {
        assert(drawn_by(whole.filter(keep), whole, Seq::<int>::empty()));
    } else {
        let rest = whole.drop_last();
        lemma_filter_in_order(rest, keep);
        let picks = choose|picks: Seq<int>| drawn_by(rest.filter(keep), rest, picks);
        if keep(whole.last()) {
            let more = picks.push(whole.len() - 1);
            assert(drawn_by(whole.filter(keep), whole, more));
        } else {
            assert(drawn_by(whole.filter(keep), whole, picks));
        }
    }
}

proof fn lemma_filter_keeps_distinct(whole: Seq<PostView>, keep: spec_fn(PostView) -> bool)
    requires
        distinct_links(whole),
    ensures
        distinct_links(whole.filter(keep)),
{
    lemma_filter_in_order(whole, keep);
    let part = whole.filter(keep);
    let picks = choose|picks: Seq<int>| drawn_by(part, whole, picks);
    assert forall|a: int, b: int| 0 <= a < b < part.len() implies part[a].link
        != part[b].link by {
        assert(part[a] == whole[picks[a]]);
        assert(part[b] == whole[picks[b]]);
        assert(picks[a] < picks[b]);
    }
}

proof fn lemma_filter_links_agree(
    a: Seq<PostView>,
    b: Seq<PostView>,
    keep_a: spec_fn(PostView) -> bool,
    keep_b: spec_fn(PostView) -> bool,
)
    requires
        links_of(a) == links_of(b),
        forall|p: PostView, q: PostView| p.link == q.link ==> keep_a(p) == keep_b(q),
    ensures
        links_of(a.filter(keep_a)) == links_of(b.filter(keep_b)),
    decreases a.len(),
{
    reveal(Seq::filter);
    assert(a.len() == links_of(a).len());
    assert(b.len() == links_of(b).len());
    if a.len() == 0 {
        assert(links_of(a.filter(keep_a)) =~= links_of(b.filter(keep_b)));
    } else {
        assert(links_of(a.drop_last()) =~= links_of(a).drop_last());
        assert(links_of(b.drop_last()) =~= links_of(b).drop_last());
        lemma_filter_links_agree(a.drop_last(), b.drop_last(), keep_a, keep_b);
        assert(a.last().link == links_of(a)[a.len() - 1]);
        assert(b.last().link == links_of(b)[b.len() - 1]);
        assert(keep_a(a.last()) == keep_b(b.last()));
        let fa = a.drop_last().filter(keep_a);
        let fb = b.drop_last().filter(keep_b);
        if keep_a(a.last()) {
            assert(links_of(fa.push(a.last())) =~= links_of(fa).push(a.last().link));
            assert(links_of(fb.push(b.last())) =~= links_of(fb).push(b.last().link));
        }
    }
}

proof fn lemma_has_link_by_links(a: Seq<PostView>, b: Seq<PostView>)
    requires
        links_of(a) == links_of(b),
    ensures
        name_same_links(a, b),
{
    assert(a.len() == links_of(a).len());
    assert(b.len() == links_of(b).len());
    assert forall|link: Seq<char>| has_link(a, link) == has_link(b, link) by {
        if has_link(a, link) {
            let i = choose|i: int| 0 <= i < a.len() && (#[trigger] a[i]).link == link;
            assert(links_of(a)[i] == link);
            assert(b[i].link == links_of(b)[i]);
        }
        if has_link(b, link) {
            let i = choose|i: int| 0 <= i < b.len() && (#[trigger] b[i]).link == link;
            assert(links_of(b)[i] == link);
            assert(a[i].link == links_of(a)[i]);
        }
    }
}

/// A post is novel or not by its link alone: two posts with the same link
/// meet the same fate against any history, whatever their other fields hold.
pub proof fn lemma_same_link_same_entry(a: PostView, b: PostView, seen: Seq<PostView>)
    requires
        a.link == b.link,
    ensures
        unseen(seen)(a) == unseen(seen)(b),
{
}

/// What is delivered depends on the histories only through the links that
/// they name: two pairs of histories that name the same links give the same
/// delivery, whatever the other fields of their posts hold.
pub proof fn lemma_history_counts_by_link(
    old_general: Seq<PostView>,
    old_important: Seq<PostView>,
    other_general: Seq<PostView>,
    other_important: Seq<PostView>,
    new_general: Seq<PostView>,
    new_important: Seq<PostView>,
)
    requires
        name_same_links(old_general, other_general),
        name_same_links(old_important, other_important),
    ensures
        delivery(old_general, old_important, new_general, new_important) == delivery(
            other_general,
            other_important,
            new_general,
            new_important,
        ),
{
    assert(unseen(old_general) =~= unseen(other_general));
    assert(unseen(old_important) =~= unseen(other_important));
}

/// The links that are delivered, and their order, depend on the links alone:
/// inputs that agree link by link give deliveries that agree link by link,
/// whatever the other fields of the posts hold.
pub proof fn lemma_identity_dedup(
    old_general: Seq<PostView>,
    old_important: Seq<PostView>,
    new_general: Seq<PostView>,
    new_important: Seq<PostView>,
    other_old_general: Seq<PostView>,
    other_old_important: Seq<PostView>,
    other_new_general: Seq<PostView>,
    other_new_important: Seq<PostView>,
)
    requires
        name_same_links(old_general, other_old_general),
        name_same_links(old_important, other_old_important),
        links_of(new_general) == links_of(other_new_general),
        links_of(new_important) == links_of(other_new_important),
    ensures
        links_of(delivery(old_general, old_important, new_general, new_important)) == links_of(
            delivery(
                other_old_general,
                other_old_important,
                other_new_general,
                other_new_important,
            ),
        ),
{
    let imp_a = novel(new_important, old_important);
    let imp_b = novel(other_new_important, other_old_important);
    let gen_a = novel(new_general, old_general);
    let gen_b = novel(other_new_general, other_old_general);
    lemma_filter_links_agree(
        new_important,
        other_new_important,
        unseen(old_important),
        unseen(other_old_important),
    );
    lemma_filter_links_agree(
        new_general,
        other_new_general,
        unseen(old_general),
        unseen(other_old_general),
    );
    lemma_has_link_by_links(imp_a, imp_b);
    lemma_filter_links_agree(gen_a, gen_b, unseen(imp_a), unseen(imp_b));
    let tail_a = gen_a.filter(unseen(imp_a));
    let tail_b = gen_b.filter(unseen(imp_b));
    assert(links_of(imp_a + tail_a) =~= links_of(imp_a) + links_of(tail_a));
    assert(links_of(imp_b + tail_b) =~= links_of(imp_b) + links_of(tail_b));
}

/// Where a link is novel in the important category, no general post with
/// that link is delivered: every delivered post that carries it stands in the
/// important part, and is a post of the important extraction.
pub proof fn lemma_general_duplicate_suppressed(
    old_general: Seq<PostView>,
    old_important: Seq<PostView>,
    new_general: Seq<PostView>,
    new_important: Seq<PostView>,
    link: Seq<char>,
)
    requires
        has_link(novel(new_important, old_important), link),
    ensures
        forall|j: int|
            #![trigger delivery(old_general, old_important, new_general, new_important)[j]]
            0 <= j < delivery(old_general, old_important, new_general, new_important).len()
                && delivery(old_general, old_important, new_general, new_important)[j].link
                == link ==> j < novel(new_important, old_important).len()
                && new_important.contains(
                delivery(old_general, old_important, new_general, new_important)[j],
            ),
{
    let important = novel(new_important, old_important);
    let general = novel(new_general, old_general);
    let tail = general.filter(unseen(important));
    let all = delivery(old_general, old_important, new_general, new_important);
    assert forall|j: int| 0 <= j < all.len() && (#[trigger] all[j]).link == link implies j
        < important.len() && new_important.contains(all[j]) by {
        if j >= important.len() {
            let k = j - important.len();
            assert(all[j] == tail[k]);
            general.lemma_filter_pred(unseen(important), k);
            assert(!has_link(important, tail[k].link));
        } else {
            assert(all[j] == important[j]);
            assert(important.contains(important[j]));
            new_important.lemma_filter_contains_rev(unseen(old_important), important[j]);
        }
    }
}

/// The priority rule. Where the important extraction names each link once
/// and a link is novel there, the delivery holds exactly one post with that
/// link: the important one. A general post with the same link is left out.
pub proof fn lemma_priority_rule(
    old_general: Seq<PostView>,
    old_important: Seq<PostView>,
    new_general: Seq<PostView>,
    new_important: Seq<PostView>,
    link: Seq<char>,
) -> (at: int)
    requires
        distinct_links(new_important),
        has_link(novel(new_important, old_important), link),
    ensures
        0 <= at < novel(new_important, old_important).len(),
        novel(new_important, old_important).len() <= delivery(
            old_general,
            old_important,
            new_general,
            new_important,
        ).len(),
        delivery(old_general, old_important, new_general, new_important)[at].link == link,
        new_important.contains(
            delivery(old_general, old_important, new_general, new_important)[at],
        ),
        forall|j: int|
            #![trigger delivery(old_general, old_important, new_general, new_important)[j]]
            0 <= j < delivery(old_general, old_important, new_general, new_important).len()
                && delivery(old_general, old_important, new_general, new_important)[j].link
                == link ==> j == at,
{
    let important = novel(new_important, old_important);
    let all = delivery(old_general, old_important, new_general, new_important);
    let at = choose|i: int| 0 <= i < important.len() && (#[trigger] important[i]).link == link;
    lemma_general_duplicate_suppressed(
        old_general,
        old_important,
        new_general,
        new_important,
        link,
    );
    lemma_filter_keeps_distinct(new_important, unseen(old_important));
    assert(all[at] == important[at]);
    assert forall|j: int| 0 <= j < all.len() && (#[trigger] all[j]).link == link implies j
        == at by {
        assert(j < important.len());
        assert(all[j] == important[j]);
    }
    at
}

/// Order is preserved. The delivery opens with the novel important posts,
/// which stand in the order of the important extraction; what follows are
/// general posts, in the order of the general extraction.
pub proof fn lemma_order_preserved(
    old_general: Seq<PostView>,
    old_important: Seq<PostView>,
    new_general: Seq<PostView>,
    new_important: Seq<PostView>,
) -> (cut: int)
    ensures
        cut == novel(new_important, old_important).len(),
        0 <= cut <= delivery(old_general, old_important, new_general, new_important).len(),
        delivery(old_general, old_important, new_general, new_important).subrange(0, cut)
            == novel(new_important, old_important),
        in_order_of(
            delivery(old_general, old_important, new_general, new_important).subrange(0, cut),
            new_important,
        ),
        in_order_of(
            delivery(old_general, old_important, new_general, new_important).subrange(
                cut,
                delivery(old_general, old_important, new_general, new_important).len() as int,
            ),
            new_general,
        ),
{
    let important = novel(new_important, old_important);
    let general = novel(new_general, old_general);
    let tail = general.filter(unseen(important));
    let all = delivery(old_general, old_important, new_general, new_important);
    let cut = important.len() as int;
    assert(all.subrange(0, cut) =~= important);
    assert(all.subrange(cut, all.len() as int) =~= tail);
    lemma_filter_in_order(new_important, unseen(old_important));
    lemma_filter_in_order(new_general, unseen(old_general));
    lemma_filter_in_order(general, unseen(important));
    let outer = choose|picks: Seq<int>| drawn_by(general, new_general, picks);
    let inner = choose|picks: Seq<int>| drawn_by(tail, general, picks);
    let both = Seq::new(tail.len(), |k: int| outer[inner[k]]);
    assert(drawn_by(tail, new_general, both)) by {
        assert forall|k: int| 0 <= k < tail.len() implies #[trigger] tail[k]
            == new_general[both[k]] by {
            assert(tail[k] == general[inner[k]]);
            assert(general[inner[k]] == new_general[outer[inner[k]]]);
        }
    }
    cut
}

/// A page that has not changed delivers nothing: when the fresh lists are
/// the histories themselves, the delivery is empty.
pub proof fn lemma_unchanged_page_delivers_nothing(
    general: Seq<PostView>,
    important: Seq<PostView>,
)
    ensures
        delivery(general, important, general, important) == Seq::<PostView>::empty(),
{
    lemma_nothing_novel_in_itself(general);
    lemma_nothing_novel_in_itself(important);
    reveal(Seq::filter);
    assert(delivery(general, important, general, important) =~= Seq::<PostView>::empty());
}

proof fn lemma_nothing_novel_in_itself(posts: Seq<PostView>)
    ensures
        novel(posts, posts) == Seq::<PostView>::empty(),
{
    let kept = posts.filter(unseen(posts));
    if kept.len() > 0 {
        posts.lemma_filter_pred(unseen(posts), 0);
        assert(kept.contains(kept[0]));
        posts.lemma_filter_contains_rev(unseen(posts), kept[0]);
        let i = choose|i: int| 0 <= i < posts.len() && posts[i] == kept[0];
        assert(posts[i].link == kept[0].link);
        assert(has_link(posts, kept[0].link));
    }
    assert(kept =~= Seq::<PostView>::empty());
}

} // verus!
