//! The ledger as a mathematical value, and what each operation makes of it.
//!
//! Every operation is a function from the state before it to the state after
//! it and a result. An operation that is refused gives the state back as it
//! was.

use crate::config::Config;
use crate::error::Error;
use crate::event::EventView;
use crate::hashing::record_hash;
use crate::origin::{signer, Origin};
use crate::records::{BlogPostCommentView, BlogPostView};
use crate::transfer::{ExistenceRequirement, Transfer};
use crate::types::{AccountId, Balance};
use frame_support::sp_runtime::DispatchError;
use vstd::prelude::*;

verus! {

/// What the ledger holds.
pub ghost struct State {
    /// The single stored value, once it was set.
    pub something: Option<u32>,
    /// The posts, by identifier.
    pub blog_posts: Map<Seq<u8>, BlogPostView>,
    /// The comments on each post, by the post's identifier, oldest first.
    pub blog_post_comments: Map<Seq<u8>, Seq<BlogPostCommentView>>,
    /// The events of the operations that succeeded, oldest first.
    pub events: Seq<EventView>,
}

/// Whether content of `len` bytes lies strictly between the two bounds.
pub open spec fn within_bounds(len: nat, min: u32, max: u32) -> bool {
    min < len < max
}

/// Why a post of `len` bytes from `origin` is refused, if it is. The origin
/// is looked at first, then the lower bound, then the upper.
pub open spec fn blog_post_refusal(config: Config, origin: Origin, len: nat) -> Option<Error> {
    if signer(origin) is Err {
        Some(Error::BadOrigin)
    } else if len <= config.blog_post_min_bytes {
        Some(Error::BlogPostNotEnoughBytes)
    } else if len >= config.blog_post_max_bytes {
        Some(Error::BlogPostTooManyBytes)
    } else {
        None
    }
}

impl State {
    /// The ledger before anything was done to it.
    pub open spec fn empty() -> State {
        State {
            something: None,
            blog_posts: Map::empty(),
            blog_post_comments: Map::empty(),
            events: Seq::empty(),
        }
    }

    /// The state's invariant: the identifiers that have a post are those
    /// that have a thread of comments.
    pub open spec fn wf(self) -> bool {
        self.blog_posts.dom() == self.blog_post_comments.dom()
    }

    /// Whether every post stands under the hash of its own record.
    pub open spec fn content_addressed(self) -> bool {
        forall|id: Seq<u8>| #[trigger]
            self.blog_posts.dom().contains(id) ==> id == record_hash(
                self.blog_posts[id].content,
                self.blog_posts[id].author,
            )
    }

    /// Whether every comment names the post in whose thread it stands.
    pub open spec fn comments_name_their_post(self) -> bool {
        forall|id: Seq<u8>, i: int|
            self.blog_post_comments.dom().contains(id) && 0 <= i
                < self.blog_post_comments[id].len() ==> (
            #[trigger] self.blog_post_comments[id][i]).blog_post_id == id
    }

    /// Whether the content of every post and of every comment lies strictly
    /// between the bounds that `config` sets for it.
    pub open spec fn content_within_bounds(self, config: Config) -> bool {
        &&& forall|id: Seq<u8>| #[trigger]
            self.blog_posts.dom().contains(id) ==> within_bounds(
                self.blog_posts[id].content.len(),
                config.blog_post_min_bytes,
                config.blog_post_max_bytes,
            )
        &&& forall|id: Seq<u8>, i: int|
            self.blog_post_comments.dom().contains(id) && 0 <= i
                < self.blog_post_comments[id].len() ==> within_bounds(
                (#[trigger] self.blog_post_comments[id][i]).content.len(),
                config.blog_post_comment_min_bytes,
                config.blog_post_comment_max_bytes,
            )
    }

    /// The state with one more event at the end of its log.
    pub open spec fn with_event(self, event: EventView) -> State {
        State { events: self.events.push(event), ..self }
    }

    /// The state after `author` published `content` under `id`: the post
    /// stands under `id` in place of any earlier one, the thread under `id`
    /// is empty, and the log ends with the post's event.
    pub open spec fn with_blog_post(self, id: Seq<u8>, author: AccountId, content: Seq<u8>) -> State {
        State {
            blog_posts: self.blog_posts.insert(id, BlogPostView { content, author }),
            blog_post_comments: self.blog_post_comments.insert(id, Seq::empty()),
            events: self.events.push(EventView::BlogPostCreated(content, author, id)),
            ..self
        }
    }

    /// The state after `author` commented with `content` on the post under
    /// `id`: the comment stands at the end of that post's thread, and the log
    /// ends with the comment's event.
    pub open spec fn with_comment(self, id: Seq<u8>, author: AccountId, content: Seq<u8>) -> State
        recommends
            self.blog_post_comments.dom().contains(id),
    {
        State {
            blog_post_comments: self.blog_post_comments.insert(
                id,
                self.blog_post_comments[id].push(
                    BlogPostCommentView { content, blog_post_id: id, author },
                ),
            ),
            events: self.events.push(EventView::BlogPostCommentCreated(content, author, id)),
            ..self
        }
    }

    /// Storing a value: a signed request sets the stored value and logs it.
    pub open spec fn do_something(self, origin: Origin, something: u32) -> (State, Result<(), Error>) {
        match signer(origin) {
            Ok(who) => (
                State { something: Some(something), ..self }.with_event(
                    EventView::SomethingStored(something, who),
                ),
                Ok(()),
            ),
            Err(e) => (self, Err(e)),
        }
    }

    /// Incrementing the stored value: a signed request adds one to it, unless
    /// it was never set or stands at `u32::MAX`.
    pub open spec fn cause_error(self, origin: Origin) -> (State, Result<(), Error>) {
        if signer(origin) is Err {
            (self, Err(Error::BadOrigin))
        } else {
            match self.something {
                None => (self, Err(Error::NoneValue)),
                Some(old) => if old == u32::MAX {
                    (self, Err(Error::StorageOverflow))
                } else {
                    (State { something: Some((old + 1) as u32), ..self }, Ok(()))
                },
            }
        }
    }

    /// Publishing a post: unless it is refused, the post is stored under the
    /// hash of its record, which is the result.
    pub open spec fn create_blog_post(self, config: Config, origin: Origin, content: Seq<u8>) -> (
        State,
        Result<Seq<u8>, Error>,
    ) {
        match blog_post_refusal(config, origin, content.len()) {
            Some(e) => (self, Err(e)),
            None => {
                let author = signer(origin)->Ok_0;
                let id = record_hash(content, author);
                (self.with_blog_post(id, author, content), Ok(id))
            },
        }
    }

    /// Why a comment of `len` bytes from `origin` on the post under `id` is
    /// refused, if it is. The origin is looked at first, then the lower
    /// bound, then the upper, then whether the post has a thread.
    pub open spec fn comment_refusal(self, config: Config, origin: Origin, len: nat, id: Seq<u8>) -> Option<
        Error,
    > {
        if signer(origin) is Err {
            Some(Error::BadOrigin)
        } else if len <= config.blog_post_comment_min_bytes {
            Some(Error::BlogPostCommentNotEnoughBytes)
        } else if len >= config.blog_post_comment_max_bytes {
            Some(Error::BlogPostCommentTooManyBytes)
        } else if !self.blog_post_comments.dom().contains(id) {
            Some(Error::BlogPostNotFound)
        } else {
            None
        }
    }

    /// Commenting on a post: unless it is refused, the comment is appended to
    /// the post's thread.
    pub open spec fn create_blog_post_comment(
        self,
        config: Config,
        origin: Origin,
        content: Seq<u8>,
        id: Seq<u8>,
    ) -> (State, Result<(), Error>) {
        match self.comment_refusal(config, origin, content.len(), id) {
            Some(e) => (self, Err(e)),
            None => (self.with_comment(id, signer(origin)->Ok_0, content), Ok(())),
        }
    }

    /// Deciding on a tip: a signed request for a stored post whose author is
    /// not the tipper asks for a transfer of `amount` from the tipper to the
    /// author that keeps the tipper's account alive. Any other request is
    /// refused, and asks for no transfer.
    pub open spec fn tip_blog_post(self, origin: Origin, id: Seq<u8>, amount: Balance) -> Result<
        Transfer,
        Error,
    > {
        match signer(origin) {
            Err(e) => Err(e),
            Ok(tipper) => if !self.blog_posts.dom().contains(id) {
                Err(Error::BlogPostNotFound)
            } else if tipper == self.blog_posts[id].author {
                Err(Error::TipperIsAuthor)
            } else {
                Ok(
                    Transfer {
                        source: tipper,
                        dest: self.blog_posts[id].author,
                        value: amount,
                        existence_requirement: ExistenceRequirement::KeepAlive,
                    },
                )
            },
        }
    }

    /// Concluding a tip once the transfer was tried: a transfer that went
    /// through is logged, and one that failed hands its error on.
    pub open spec fn conclude_tip(
        self,
        tipper: AccountId,
        id: Seq<u8>,
        outcome: Result<(), DispatchError>,
    ) -> (State, Result<(), Error>) {
        match outcome {
            Ok(_) => (self.with_event(EventView::Tipped(tipper, id)), Ok(())),
            Err(e) => (self, Err(Error::TransferFailed(e))),
        }
    }
}

} // verus!
