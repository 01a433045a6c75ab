//! The byte bounds that content is held to.

use vstd::prelude::*;

verus! {

/// The bounds on the length of content, each of them exclusive: content is
/// accepted when it is longer than the lower bound and shorter than the upper.
#[derive(Debug, Clone, Copy, PartialEq, Eq)]
pub struct Config {
    /// A post must be longer than this many bytes.
    pub blog_post_min_bytes: u32,
    /// A post must be shorter than this many bytes.
    pub blog_post_max_bytes: u32,
    /// A comment must be longer than this many bytes.
    pub blog_post_comment_min_bytes: u32,
    /// A comment must be shorter than this many bytes.
    pub blog_post_comment_max_bytes: u32,
}

} // verus!
