//! What the ledger reports of the operations that it carried out.

use crate::types::{AccountId, PostId};
use vstd::prelude::*;

verus! {

/// A report of one operation that succeeded.
#[derive(Debug, Clone, PartialEq, Eq)]
pub enum Event {
    /// The value was stored by the account.
    SomethingStored(u32, AccountId),
    /// The account published a post with this content under the identifier.
    BlogPostCreated(Vec<u8>, AccountId, PostId),
    /// The account commented with this content on the post with the identifier.
    BlogPostCommentCreated(Vec<u8>, AccountId, PostId),
    /// The account tipped the author of the post with the identifier.
    Tipped(AccountId, PostId),
}

/// What an event is, as plain values.
pub ghost enum EventView {
    SomethingStored(u32, AccountId),
    BlogPostCreated(Seq<u8>, AccountId, Seq<u8>),
    BlogPostCommentCreated(Seq<u8>, AccountId, Seq<u8>),
    Tipped(AccountId, Seq<u8>),
}

impl View for Event {
    type V = EventView;

    open spec fn view(&self) -> EventView {
        match *self {
            Event::SomethingStored(value, who) => EventView::SomethingStored(value, who),
            Event::BlogPostCreated(content, author, id) => EventView::BlogPostCreated(
                content@,
                author,
                id@,
            ),
            Event::BlogPostCommentCreated(content, author, id) => EventView::BlogPostCommentCreated(
                content@,
                author,
                id@,
            ),
            Event::Tipped(tipper, id) => EventView::Tipped(tipper, id@),
        }
    }
}

} // verus!
