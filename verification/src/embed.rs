//! The delivery payload of one post: what an endpoint is shown for it.

use vstd::prelude::*;
use vstd::string::*;
use crate::post::{SipPost, SipPostType, PostView};

verus! {

/// One post in payload form, self-contained and ready for delivery.
#[derive(Debug)]
pub struct Embed {
    /// The display name of the post's category.
    pub author_name: String,
    /// The accent colour of the post's category, as 0xRRGGBB.
    pub color: i32,
    pub title: String,
    pub description: String,
    pub url: String,
    /// The image shown beside every post.
    pub thumbnail: String,
}

/// What a payload holds, as plain mathematical values.
pub struct EmbedView {
    pub author_name: Seq<char>,
    pub color: int,
    pub title: Seq<char>,
    pub description: Seq<char>,
    pub url: Seq<char>,
    pub thumbnail: Seq<char>,
}

impl View for Embed {
    type V = EmbedView;

    open spec fn view(&self) -> EmbedView {
        EmbedView {
            author_name: self.author_name@,
            color: self.color as int,
            title: self.title@,
            description: self.description@,
            url: self.url@,
            thumbnail: self.thumbnail@,
        }
    }
}

/// The display name under which a category's posts are delivered.
pub open spec fn author_name_of(category: SipPostType) -> Seq<char> {
    match category {
        SipPostType::New => "Најновије вести"@,
        SipPostType::Important => "Важна обавештења"@,
    }
}

/// The accent colour of a category.
pub open spec fn color_of(category: SipPostType) -> int {
    match category {
        SipPostType::New => 0x41662D,
        SipPostType::Important => 0x66F442,
    }
}

/// The image reference that every payload carries.
pub open spec fn thumbnail_url() -> Seq<char> {
    "https://i.imgur.com/dyu12dZ.png"@
}

/// The payload of a post: label and colour by its category, its title,
/// its content as description, its link as address, and the fixed image.
pub open spec fn embed_of(post: PostView) -> EmbedView {
    EmbedView {
        author_name: author_name_of(post.post_type),
        color: color_of(post.post_type),
        title: post.title,
        description: post.content,
        url: post.link,
        thumbnail: thumbnail_url(),
    }
}

/// The views of a sequence of payloads, in the same order.
pub open spec fn embed_views(embeds: Seq<Embed>) -> Seq<EmbedView> {
    embeds.map_values(|e: Embed| e@)
}

/// The payloads of a sequence of posts, in the same order.
pub open spec fn embeds_of(posts: Seq<PostView>) -> Seq<EmbedView> {
    posts.map_values(|p: PostView| embed_of(p))
}

/// The display name of the post's category.
pub fn get_embed_author_name_from_post(post: &SipPost) -> (name: String)
    ensures
        name@ == author_name_of(post.post_type),
{
    match post.post_type {
        SipPostType::New => String::from_str("Најновије вести"),
        SipPostType::Important => String::from_str("Важна обавештења"),
    }
}

/// The accent colour of the post's category.
pub fn get_embed_color_from_post(post: &SipPost) -> (color: i32)
    ensures
        color == color_of(post.post_type),
{
    match post.post_type {
        SipPostType::New => 0x41662D,
        SipPostType::Important => 0x66F442,
    }
}

/// Renders a post into its delivery payload.
pub fn create_embed_from_post(post: SipPost) -> (embed: Embed)
    ensures
        embed@ == embed_of(post@),
{
    let author_name = get_embed_author_name_from_post(&post);
    let color = get_embed_color_from_post(&post);
    Embed {
        author_name,
        color,
        title: post.title,
        description: post.content,
        url: post.link,
        thumbnail: String::from_str("https://i.imgur.com/dyu12dZ.png"),
    }
}

/// Renders every post of a delivery sequence, keeping the order.
pub fn create_embeds(posts: Vec<SipPost>) -> (embeds: Vec<Embed>)
    ensures
        embed_views(embeds@) == embeds_of(crate::post::post_views(posts@)),
{
    let ghost source = crate::post::post_views(posts@);
    let mut embeds: Vec<Embed> = Vec::new();
    let mut i: usize = 0;
    while i < posts.len()
        invariant
            i <= posts.len(),
            source == crate::post::post_views(posts@),
            embeds.len() == i,
            forall|k: int| 0 <= k < i ==> (#[trigger] embeds@[k])@ == embed_of(source[k]),
        decreases posts.len() - i,
    {
        let embed = create_embed_from_post(posts[i].clone());
        embeds.push(embed);
        i = i + 1;
    }
    assert(embed_views(embeds@) =~= embeds_of(source));
    embeds
}

} // verus!
