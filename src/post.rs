//! The post model shared by both response formats.

use vstd::prelude::*;

verus! {

/// A dated activity record discovered on the portal.
#[derive(Debug, Clone, PartialEq, Eq)]
pub struct Post {
    /// Site-assigned identifier, or `post_<index>` where the site gives none.
    pub id: String,
    /// Title or text of the post.
    pub title: String,
    /// Who wrote it.
    pub author: String,
    /// When it was written, as the site shows it.
    pub date: String,
    /// Absolute address of the post.
    pub url: String,
    /// Addresses of its photos, in the order found.
    pub photo_urls: Vec<String>,
}

/// A post as plain sequences of characters.
pub struct PostView {
    pub id: Seq<char>,
    pub title: Seq<char>,
    pub author: Seq<char>,
    pub date: Seq<char>,
    pub url: Seq<char>,
    pub photo_urls: Seq<Seq<char>>,
}

/// The characters of each string of `v`.
pub open spec fn strings_view(v: Seq<String>) -> Seq<Seq<char>> {
    v.map_values(|s: String| s@)
}

impl View for Post {
    type V = PostView;

    open spec fn view(&self) -> PostView {
        PostView {
            id: self.id@,
            title: self.title@,
            author: self.author@,
            date: self.date@,
            url: self.url@,
            photo_urls: strings_view(self.photo_urls@),
        }
    }
}

/// The view of each post of `v`.
pub open spec fn posts_view(v: Seq<Post>) -> Seq<PostView> {
    v.map_values(|p: Post| p@)
}

/// Title given to a post that has none.
pub open spec fn untitled() -> Seq<char> {
    "Untitled Post"@
}

/// Author given to a post that names none.
pub open spec fn unknown_author() -> Seq<char> {
    "Unknown Author"@
}

/// Date given to a post that carries none.
pub open spec fn unknown_date() -> Seq<char> {
    "Unknown Date"@
}

/// Identifier given to the post at `index` when the site gives none.
pub open spec fn synthesized_id(index: nat) -> Seq<char> {
    "post_"@ + crate::text::decimal(index)
}

/// The identifier `post_<index>`.
pub fn synthesize_id(index: usize) -> (r: String)
    ensures
        r@ == synthesized_id(index as nat),
{
    let head = crate::text::chars_of("post_");
    let digits = crate::text::decimal_of(index as u64);
    crate::text::string_of(&crate::text::concat(&head, &digits))
}

} // verus!
