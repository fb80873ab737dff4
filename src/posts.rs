//! Choosing the blog post that a request names.
use vstd::prelude::*;
use vstd::string::StringSliceAdditionalSpecFns;
use vstd::utf8::encode_utf8;

use crate::text::{same_bytes, signed_decimal, signed_decimal_bytes};

verus! {

/// One blog post, with its date already written out.
pub struct Post {
    pub post_id: i32,
    pub post_title: String,
    pub post_date: String,
    pub post_body: String,
    pub post_summary: String,
    pub post_thumbnail: String,
    pub post_thumbnail_alt: String,
}

/// The values a post page is rendered from.
pub struct PostTemplate {
    pub post_title: String,
    pub post_date: String,
    pub post_body: String,
    pub post_thumbnail: String,
    pub post_thumbnail_alt: String,
}

/// The bytes `none`: the title that stands for a missing post.
pub open spec fn missing_title() -> Seq<u8> {
    seq![110u8, 111u8, 110u8, 101u8]
}

/// Whether the post's identifier, written in decimal, is `id`.
pub open spec fn names(p: Post, id: Seq<u8>) -> bool {
    signed_decimal(p.post_id as int) == id
}

/// The index of the first post whose identifier, in decimal, is `post_id`.
pub fn find_post(posts: &[Post], post_id: &str) -> (r: Option<usize>)
    ensures
        match r {
            Some(i) => i < posts@.len() && names(posts@[i as int], post_id.spec_bytes())
                && forall|j: int| 0 <= j < i ==> !names(posts@[j], post_id.spec_bytes()),
            None => forall|j: int| 0 <= j < posts@.len() ==> !names(posts@[j], post_id.spec_bytes()),
        },
{
    let wanted = post_id.as_bytes();
    let mut i: usize = 0;
    while i < posts.len()
        invariant
            i <= posts@.len(),
            wanted@ == post_id.spec_bytes(),
            forall|j: int| 0 <= j < i ==> !names(posts@[j], post_id.spec_bytes()),
        decreases posts@.len() - i,
    {
        let id = signed_decimal_bytes(posts[i].post_id);
        if same_bytes(id.as_slice(), wanted) {
            return Some(i);
        }
        i = i + 1;
    }
    None
}

impl PostTemplate {
    /// The page values of the post that `post_id` names; `None` where no post is
    /// named, or the named post's title is `none`, which stands for a missing post.
    pub fn for_post(posts: &[Post], post_id: &str) -> (r: Option<PostTemplate>)
        ensures
            match r {
                Some(t) => exists|i: int|
                    0 <= i < posts@.len() && names(posts@[i], post_id.spec_bytes()) && (forall|j: int|
                        0 <= j < i ==> !names(posts@[j], post_id.spec_bytes()))
                        && encode_utf8(posts@[i].post_title@) != missing_title()
                        && t.post_title@ == posts@[i].post_title@
                        && t.post_date@ == posts@[i].post_date@
                        && t.post_body@ == posts@[i].post_body@
                        && t.post_thumbnail@ == posts@[i].post_thumbnail@
                        && t.post_thumbnail_alt@ == posts@[i].post_thumbnail_alt@,
                None => forall|i: int|
                    0 <= i < posts@.len() && names(posts@[i], post_id.spec_bytes()) && (forall|j: int|
                        0 <= j < i ==> !names(posts@[j], post_id.spec_bytes()))
                        ==> encode_utf8(posts@[i].post_title@) == missing_title(),
            },
    {
        match find_post(posts, post_id) {
            None => None,
            Some(i) => {
                let p = &posts[i];
                let none: [u8; 4] = [110u8, 111u8, 110u8, 101u8];
                if same_bytes(p.post_title.as_str().as_bytes(), none.as_slice()) {
                    proof {
                        assert(none@ =~= missing_title());
                    }
                    None
                } else {
                    proof {
                        assert(none@ =~= missing_title());
                    }
                    Some(
                        PostTemplate {
                            post_title: p.post_title.clone(),
                            post_date: p.post_date.clone(),
                            post_body: p.post_body.clone(),
                            post_thumbnail: p.post_thumbnail.clone(),
                            post_thumbnail_alt: p.post_thumbnail_alt.clone(),
                        },
                    )
                }
            },
        }
    }
}

} // verus!
