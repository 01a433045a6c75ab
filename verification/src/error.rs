//! Why an operation on the ledger was refused.

use frame_support::sp_runtime::DispatchError;
use vstd::prelude::*;

verus! {

/// The error that the host's balance transfer reports. Nothing here looks
/// inside it: a failed transfer's error is handed on as it came.
#[verifier::external_type_specification]
#[verifier::external_body]
pub struct ExDispatchError(DispatchError);

/// The reasons for which an operation leaves the ledger untouched.
#[derive(Debug, PartialEq, Eq)]
pub enum Error {
    /// The request is not authenticated: its origin is not a signed account.
    BadOrigin,
    /// The stored value was read before it was ever set.
    NoneValue,
    /// Incrementing the stored value would exceed `u32::MAX`.
    StorageOverflow,
    /// A post's content is too short: not longer than the lower bound for
    /// posts.
    BlogPostNotEnoughBytes,
    /// A post's content is too long: not shorter than the upper bound for
    /// posts.
    BlogPostTooManyBytes,
    /// A comment's content is too short: not longer than the lower bound for
    /// comments.
    BlogPostCommentNotEnoughBytes,
    /// A comment's content is too long: not shorter than the upper bound for
    /// comments.
    BlogPostCommentTooManyBytes,
    /// No post is stored under the given identifier.
    BlogPostNotFound,
    /// A tip to oneself: the tipper is the author of the post.
    TipperIsAuthor,
    /// The balance transfer failed, with the error that it reported.
    TransferFailed(DispatchError),
}

} // verus!
