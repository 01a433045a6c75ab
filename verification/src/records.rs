//! The records that the ledger stores: posts and their comments.

use crate::types::{AccountId, PostId};
use vstd::prelude::*;

verus! {

/// A published post.
#[derive(Debug, Clone, PartialEq, Eq)]
pub struct BlogPost {
    /// The post's bytes.
    pub content: Vec<u8>,
    /// The account that published it.
    pub author: AccountId,
}

/// What a post is, as plain values.
pub ghost struct BlogPostView {
    pub content: Seq<u8>,
    pub author: AccountId,
}

impl View for BlogPost {
    type V = BlogPostView;

    open spec fn view(&self) -> BlogPostView {
        BlogPostView { content: self.content@, author: self.author }
    }
}

/// A comment on a post.
#[derive(Debug, Clone, PartialEq, Eq)]
pub struct BlogPostComment {
    /// The comment's bytes.
    pub content: Vec<u8>,
    /// The identifier of the post that it is about.
    pub blog_post_id: PostId,
    /// The account that wrote it.
    pub author: AccountId,
}

/// What a comment is, as plain values.
pub ghost struct BlogPostCommentView {
    pub content: Seq<u8>,
    pub blog_post_id: Seq<u8>,
    pub author: AccountId,
}

impl View for BlogPostComment {
    type V = BlogPostCommentView;

    open spec fn view(&self) -> BlogPostCommentView {
        BlogPostCommentView {
            content: self.content@,
            blog_post_id: self.blog_post_id@,
            author: self.author,
        }
    }
}

/// The comments of a thread as plain values, in the thread's order.
pub open spec fn thread_view(thread: Vec<BlogPostComment>) -> Seq<BlogPostCommentView> {
    thread@.map_values(|c: BlogPostComment| c@)
}

} // verus!
