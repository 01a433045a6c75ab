//! The ledger itself: its store, its log of events, and the operations that
//! change them.

use crate::config::Config;
use crate::error::Error;
use crate::event::{Event, EventView};
use crate::hashing::{hash_of_record, record_hash};
use crate::origin::{ensure_signed, signer, Origin};
use crate::records::{thread_view, BlogPost, BlogPostComment, BlogPostCommentView, BlogPostView};
use crate::state::State;
use crate::storage::StorageMap;
use crate::transfer::{ExistenceRequirement, Transfer};
use crate::types::{AccountId, Balance, PostId};
use frame_support::sp_runtime::DispatchError;
use vstd::prelude::*;

verus! {

/// The events of a log as plain values, in the log's order.
pub open spec fn events_view(events: Vec<Event>) -> Seq<EventView> {
    events@.map_values(|e: Event| e@)
}

/// A post together with the comments on it, oldest first.
struct Thread {
    post: BlogPost,
    comments: Vec<BlogPostComment>,
}

/// The ledger: the posts, the comments on each post, a single stored value,
/// and the events of the operations that succeeded.
///
/// A post and its comments are kept in one entry under the post's
/// identifier, so that neither is ever stored without the other.
pub struct Pallet {
    config: Config,
    something: Option<u32>,
    threads: StorageMap<Thread>,
    events: Vec<Event>,
}

impl View for Pallet {
    type V = State;

    /// What the ledger holds, as plain values.
    closed spec fn view(&self) -> State {
        State {
            something: self.something,
            blog_posts: self.threads@.map_values(|t: Thread| t.post@),
            blog_post_comments: self.threads@.map_values(|t: Thread| thread_view(t.comments)),
            events: events_view(self.events),
        }
    }
}

impl Pallet {
    /// The bounds that the ledger holds content to.
    pub closed spec fn spec_config(&self) -> Config {
        self.config
    }

    /// In every ledger, the identifiers that have a post are those that have
    /// a thread of comments.
    pub proof fn lemma_view_wf(&self)
        ensures
            self@.wf(),
    {
        assert(self@.blog_posts.dom() =~= self@.blog_post_comments.dom());
    }

    /// An empty ledger that holds content to the bounds of `config`.
    pub fn new(config: Config) -> (pallet: Pallet)
        ensures
            pallet.spec_config() == config,
            pallet@ == State::empty(),
    {
        let pallet = Pallet {
            config,
            something: None,
            threads: StorageMap::new(),
            events: Vec::new(),
        };
        assert(pallet@.blog_posts =~= Map::empty());
        assert(pallet@.blog_post_comments =~= Map::empty());
        assert(pallet@.events =~= Seq::empty());
        pallet
    }

    /// The bounds that the ledger holds content to.
    #[verifier::when_used_as_spec(spec_config)]
    pub fn config(&self) -> (config: Config)
        ensures
            config == self.spec_config(),
    {
        self.config
    }

    /// The stored value, once it was set.
    pub fn something(&self) -> (value: Option<u32>)
        ensures
            value == self@.something,
    {
        self.something
    }

    /// The post stored under `id`, if there is one.
    pub fn blog_posts(&self, id: &PostId) -> (found: Option<&BlogPost>)
        ensures
            match found {
                Some(post) => self@.blog_posts.dom().contains(id@) && post@ == self@.blog_posts[id@],
                None => !self@.blog_posts.dom().contains(id@),
            },
    {
        match self.threads.get(id) {
            Some(thread) => Some(&thread.post),
            None => None,
        }
    }

    /// The comments on the post stored under `id`, oldest first, if there is
    /// such a post.
    pub fn blog_post_comments(&self, id: &PostId) -> (found: Option<&Vec<BlogPostComment>>)
        ensures
            match found {
                Some(thread) => {
                    &&& self@.blog_post_comments.dom().contains(id@)
                    &&& thread_view(*thread) == self@.blog_post_comments[id@]
                    &&& thread@.len() == self@.blog_post_comments[id@].len()
                },
                None => !self@.blog_post_comments.dom().contains(id@),
            },
    {
        match self.threads.get(id) {
            Some(thread) => Some(&thread.comments),
            None => None,
        }
    }

    /// The events of the operations that succeeded, oldest first.
    pub fn events(&self) -> (events: &Vec<Event>)
        ensures
            events_view(*events) == self@.events,
            events@.len() == self@.events.len(),
    {
        &self.events
    }

    /// Appends `event` to the log.
    fn deposit_event(&mut self, event: Event)
        ensures
            final(self).spec_config() == old(self).spec_config(),
            final(self)@ == old(self)@.with_event(event@),
    {
        self.events.push(event);
        assert(events_view(self.events) =~= events_view(old(self).events).push(event@));
    }

    /// Sets the stored value to `something` for a signed request, and logs
    /// that the signer stored it. Any other origin is refused with
    /// `BadOrigin`, and the ledger stays as it was.
    pub fn do_something(&mut self, origin: Origin, something: u32) -> (result: Result<(), Error>)
        ensures
            final(self).spec_config() == old(self).spec_config(),
            (final(self)@, result) == old(self)@.do_something(origin, something),
    {
        let who = ensure_signed(origin)?;
        self.something = Some(something);
        self.deposit_event(Event::SomethingStored(something, who));
        Ok(())
    }

    /// Adds one to the stored value for a signed request. It is refused with
    /// `BadOrigin` for any other origin, with `NoneValue` while no value was
    /// stored, and with `StorageOverflow` when the value stands at
    /// `u32::MAX`; the ledger then stays as it was.
    pub fn cause_error(&mut self, origin: Origin) -> (result: Result<(), Error>)
        ensures
            final(self).spec_config() == old(self).spec_config(),
            (final(self)@, result) == old(self)@.cause_error(origin),
    {
        let _who = ensure_signed(origin)?;
        match self.something {
            None => Err(Error::NoneValue),
            Some(old) => {
                match old.checked_add(1) {
                    None => Err(Error::StorageOverflow),
                    Some(new) => {
                        self.something = Some(new);
                        Ok(())
                    },
                }
            },
        }
    }

    /// Stores the post of `author` with `content` under `id`, in place of any
    /// post that stood there, with an empty thread of comments, and logs the
    /// post. The post and the thread are written as one entry.
    ///
    /// This is the second half of [`Pallet::create_blog_post`], which first
    /// validates the request and computes `id`. By itself it validates
    /// nothing: it takes content of any length, and any identifier, whether
    /// or not that is the hash of the post's record. A ledger that is written
    /// to only through `create_blog_post` holds every post under the hash of
    /// its record and within the bounds; one that is written to through this
    /// function holds what the caller put there.
    pub fn insert_blog_post(&mut self, id: PostId, author: AccountId, content: Vec<u8>)
        ensures
            final(self).spec_config() == old(self).spec_config(),
            final(self)@ == old(self)@.with_blog_post(id@, author, content@),
    {
        let blog_post = BlogPost { content: content.clone(), author };
        assert(blog_post.content@ =~= content@);
        let thread = Thread { post: blog_post, comments: Vec::new() };
        assert(thread_view(thread.comments) =~= Seq::empty());
        self.threads.insert(id, thread);
        proof {
            assert(self@.blog_posts =~= old(self)@.blog_posts.insert(id@, blog_post@));
            assert(self@.blog_post_comments =~= old(self)@.blog_post_comments.insert(
                id@,
                Seq::empty(),
            ));
        }
        self.deposit_event(Event::BlogPostCreated(content, author, id));
    }

    /// Publishes `content` as a post of the account that signed the request.
    ///
    /// The post is refused with `BadOrigin` unless the request is signed,
    /// with `BlogPostNotEnoughBytes` unless it is longer than the lower bound
    /// for posts, and with `BlogPostTooManyBytes` unless it is shorter than
    /// the upper bound; the ledger then stays as it was. Otherwise the post is
    /// stored under the hash of its record, which is returned: it replaces a
    /// post that stood there, the thread of comments under that identifier is
    /// empty, and the post is logged.
    pub fn create_blog_post(&mut self, origin: Origin, content: Vec<u8>) -> (result: Result<
        PostId,
        Error,
    >)
        ensures
            final(self).spec_config() == old(self).spec_config(),
            final(self)@ == old(self)@.create_blog_post(old(self).spec_config(), origin, content@).0,
            match result {
                Ok(id) => Ok(id@),
                Err(e) => Err(e),
            } == old(self)@.create_blog_post(old(self).spec_config(), origin, content@).1,
            result matches Ok(id) ==> {
                &&& id@ == record_hash(content@, signer(origin)->Ok_0)
                &&& final(self)@.blog_posts.dom().contains(id@)
                &&& final(self)@.blog_posts[id@] == (BlogPostView {
                    content: content@,
                    author: signer(origin)->Ok_0,
                })
                &&& final(self)@.blog_post_comments.dom().contains(id@)
                &&& final(self)@.blog_post_comments[id@] == Seq::<BlogPostCommentView>::empty()
            },
            result is Err ==> final(self)@ == old(self)@,
    {
        let author = ensure_signed(origin)?;
        if content.len() <= self.config.blog_post_min_bytes as usize {
            return Err(Error::BlogPostNotEnoughBytes);
        }
        if content.len() >= self.config.blog_post_max_bytes as usize {
            return Err(Error::BlogPostTooManyBytes);
        }
        let blog_post_id = hash_of_record(&content, author);
        self.insert_blog_post(blog_post_id, author, content);
        Ok(blog_post_id)
    }

    /// Comments with `content` on the post under `blog_post_id`, for the
    /// account that signed the request.
    ///
    /// The comment is refused with `BadOrigin` unless the request is signed,
    /// with `BlogPostCommentNotEnoughBytes` unless it is longer than the lower
    /// bound for comments, with `BlogPostCommentTooManyBytes` unless it is
    /// shorter than the upper bound, and with `BlogPostNotFound` unless the
    /// post has a thread; the ledger then stays as it was. Otherwise the
    /// comment is appended to the end of the thread and logged.
    pub fn create_blog_post_comment(
        &mut self,
        origin: Origin,
        content: Vec<u8>,
        blog_post_id: PostId,
    ) -> (result: Result<(), Error>)
        ensures
            final(self).spec_config() == old(self).spec_config(),
            (final(self)@, result) == old(self)@.create_blog_post_comment(
                old(self).spec_config(),
                origin,
                content@,
                blog_post_id@,
            ),
            result is Err ==> final(self)@ == old(self)@,
    {
        let comment_author = ensure_signed(origin)?;
        if content.len() <= self.config.blog_post_comment_min_bytes as usize {
            return Err(Error::BlogPostCommentNotEnoughBytes);
        }
        if content.len() >= self.config.blog_post_comment_max_bytes as usize {
            return Err(Error::BlogPostCommentTooManyBytes);
        }
        let blog_post_comment = BlogPostComment {
            author: comment_author,
            content: content.clone(),
            blog_post_id,
        };
        assert(blog_post_comment.content@ =~= content@);
        match self.threads.take(&blog_post_id) {
            None => {
                assert(self.threads@ =~= old(self).threads@);
                Err(Error::BlogPostNotFound)
            },
            Some(thread) => {
                let mut thread = thread;
                let ghost before = thread;
                thread.comments.push(blog_post_comment);
                self.threads.insert(blog_post_id, thread);
                proof {
                    assert(thread_view(thread.comments) =~= thread_view(before.comments).push(
                        blog_post_comment@,
                    ));
                    assert(self.threads@ =~= old(self).threads@.insert(blog_post_id@, thread));
                    assert(self@.blog_posts =~= old(self)@.blog_posts);
                    assert(self@.blog_post_comments =~= old(self)@.blog_post_comments.insert(
                        blog_post_id@,
                        old(self)@.blog_post_comments[blog_post_id@].push(blog_post_comment@),
                    ));
                }
                self.deposit_event(
                    Event::BlogPostCommentCreated(content, comment_author, blog_post_id),
                );
                Ok(())
            },
        }
    }

    /// Decides on a tip of `amount` to the author of the post under
    /// `blog_post_id`, from the account that signed the request.
    ///
    /// The tip is refused with `BadOrigin` unless the request is signed, with
    /// `BlogPostNotFound` unless a post is stored under the identifier, and
    /// with `TipperIsAuthor` when the signer is the post's author: no
    /// transfer is then asked for. Otherwise the result is the transfer to
    /// make: `amount` from the signer to the author, keeping the signer's
    /// account alive. The ledger is only read.
    pub fn tip_blog_post(&self, origin: Origin, blog_post_id: PostId, amount: Balance) -> (result:
        Result<Transfer, Error>)
        ensures
            result == self@.tip_blog_post(origin, blog_post_id@, amount),
    {
        let tipper = ensure_signed(origin)?;
        let blog_post_author = match self.blog_posts(&blog_post_id) {
            Some(blog_post) => blog_post.author,
            None => {
                return Err(Error::BlogPostNotFound);
            },
        };
        if tipper == blog_post_author {
            return Err(Error::TipperIsAuthor);
        }
        Ok(
            Transfer {
                source: tipper,
                dest: blog_post_author,
                value: amount,
                existence_requirement: ExistenceRequirement::KeepAlive,
            },
        )
    }

    /// Concludes a tip by `tipper` to the author of the post under
    /// `blog_post_id`, given how the transfer went. A transfer that went
    /// through is logged. One that failed is reported as `TransferFailed`
    /// with the transfer's own error, and the ledger stays as it was.
    pub fn conclude_tip(
        &mut self,
        tipper: AccountId,
        blog_post_id: PostId,
        outcome: Result<(), DispatchError>,
    ) -> (result: Result<(), Error>)
        ensures
            final(self).spec_config() == old(self).spec_config(),
            (final(self)@, result) == old(self)@.conclude_tip(tipper, blog_post_id@, outcome),
    {
        match outcome {
            Ok(_) => {
                self.deposit_event(Event::Tipped(tipper, blog_post_id));
                Ok(())
            },
            Err(e) => Err(Error::TransferFailed(e)),
        }
    }
}

} // verus!
