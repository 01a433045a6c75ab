//! What holds of the ledger's operations, stated over its state and proved.

use crate::config::Config;
use crate::error::Error;
use crate::hashing::record_hash;
use crate::origin::Origin;
use crate::records::{BlogPostCommentView, BlogPostView};
use crate::state::State;
use crate::types::{AccountId, Balance};
use frame_support::sp_runtime::DispatchError;
use vstd::prelude::*;

verus! {

/// A post whose content is not longer than the lower bound, or not shorter
/// than the upper bound, is refused and leaves the ledger as it was. From a
/// signed request the error is `BlogPostNotEnoughBytes` where the content is
/// not longer than the lower bound, and `BlogPostTooManyBytes` otherwise.
pub proof fn lemma_blog_post_out_of_bounds(
    state: State,
    config: Config,
    origin: Origin,
    content: Seq<u8>,
)
    requires
        content.len() <= config.blog_post_min_bytes || content.len()
            >= config.blog_post_max_bytes,
    ensures
        state.create_blog_post(config, origin, content).0 == state,
        state.create_blog_post(config, origin, content).1 is Err,
        origin is Signed ==> state.create_blog_post(config, origin, content).1 == Err::<
            Seq<u8>,
            Error,
        >(
            if content.len() <= config.blog_post_min_bytes {
                Error::BlogPostNotEnoughBytes
            } else {
                Error::BlogPostTooManyBytes
            },
        ),
{
}

/// A post from a signed request whose content lies strictly between the
/// bounds is stored under the hash of its record: that identifier is the
/// result, and right after the call it holds the post and an empty thread of
/// comments.
pub proof fn lemma_blog_post_stored_under_hash(
    state: State,
    config: Config,
    author: AccountId,
    content: Seq<u8>,
)
    requires
        config.blog_post_min_bytes < content.len() < config.blog_post_max_bytes,
    ensures
        ({
            let id = record_hash(content, author);
            let (after, result) = state.create_blog_post(config, Origin::Signed(author), content);
            &&& result == Ok::<Seq<u8>, Error>(id)
            &&& after.blog_posts.dom().contains(id)
            &&& after.blog_posts[id] == BlogPostView { content, author }
            &&& after.blog_post_comments.dom().contains(id)
            &&& after.blog_post_comments[id] == Seq::<BlogPostCommentView>::empty()
        }),
{
}

/// Publishing the same content by the same author twice gives the same
/// identifier both times, and the second call is not refused: it writes the
/// same post over the first and leaves both stores as the first call left
/// them.
pub proof fn lemma_blog_post_republished(
    state: State,
    config: Config,
    author: AccountId,
    content: Seq<u8>,
)
    requires
        state.create_blog_post(config, Origin::Signed(author), content).1 is Ok,
    ensures
        ({
            let (first, first_id) = state.create_blog_post(config, Origin::Signed(author), content);
            let (second, second_id) = first.create_blog_post(
                config,
                Origin::Signed(author),
                content,
            );
            &&& second_id is Ok
            &&& second_id == first_id
            &&& second.blog_posts == first.blog_posts
            &&& second.blog_post_comments == first.blog_post_comments
        }),
{
    let first = state.create_blog_post(config, Origin::Signed(author), content).0;
    let second = first.create_blog_post(config, Origin::Signed(author), content).0;
    assert(second.blog_posts =~= first.blog_posts);
    assert(second.blog_post_comments =~= first.blog_post_comments);
}

/// A post that is published again loses the comments that it had: the thread
/// under its identifier is empty after the second call, whatever was appended
/// in between.
pub proof fn lemma_blog_post_republished_resets_thread(
    state: State,
    config: Config,
    author: AccountId,
    content: Seq<u8>,
)
    requires
        config.blog_post_min_bytes < content.len() < config.blog_post_max_bytes,
    ensures
        state.create_blog_post(config, Origin::Signed(author), content).0.blog_post_comments[record_hash(
            content,
            author,
        )] == Seq::<BlogPostCommentView>::empty(),
{
}

/// A comment on an identifier that has no thread is refused and leaves the
/// ledger as it was, so that no thread grows. From a signed request whose
/// content lies strictly between the bounds for comments the error is
/// `BlogPostNotFound`.
pub proof fn lemma_comment_without_post(
    state: State,
    config: Config,
    origin: Origin,
    content: Seq<u8>,
    id: Seq<u8>,
)
    requires
        !state.blog_post_comments.dom().contains(id),
    ensures
        state.create_blog_post_comment(config, origin, content, id).0 == state,
        state.create_blog_post_comment(config, origin, content, id).1 is Err,
        origin is Signed && config.blog_post_comment_min_bytes < content.len()
            < config.blog_post_comment_max_bytes ==> state.create_blog_post_comment(
            config,
            origin,
            content,
            id,
        ).1 == Err::<(), Error>(Error::BlogPostNotFound),
{
}

/// The state after the comments of `comments`, each an author and a content,
/// were published in turn on the post under `id`.
pub open spec fn after_comments(
    state: State,
    config: Config,
    id: Seq<u8>,
    comments: Seq<(AccountId, Seq<u8>)>,
) -> State
    decreases comments.len(),
{
    if comments.len() == 0 {
        state
    } else {
        after_comments(state, config, id, comments.drop_last()).create_blog_post_comment(
            config,
            Origin::Signed(comments.last().0),
            comments.last().1,
            id,
        ).0
    }
}

/// Whether each of the comments of `comments`, published in turn on the post
/// under `id`, is accepted.
pub open spec fn comments_accepted(
    state: State,
    config: Config,
    id: Seq<u8>,
    comments: Seq<(AccountId, Seq<u8>)>,
) -> bool
    decreases comments.len(),
{
    comments.len() > 0 ==> {
        &&& comments_accepted(state, config, id, comments.drop_last())
        &&& after_comments(state, config, id, comments.drop_last()).create_blog_post_comment(
            config,
            Origin::Signed(comments.last().0),
            comments.last().1,
            id,
        ).1 is Ok
    }
}

/// The comment that `author` makes with `content` on the post under `id`.
pub open spec fn comment_record(id: Seq<u8>, comment: (AccountId, Seq<u8>)) -> BlogPostCommentView {
    BlogPostCommentView { content: comment.1, blog_post_id: id, author: comment.0 }
}

/// Comments that are accepted one after the other on the same post stand at
/// the end of its thread in the order of the calls: the thread grows by as
/// many comments as were published, and what it held before stays in front.
/// Neither the posts nor the other threads change.
pub proof fn lemma_comments_in_call_order(
    state: State,
    config: Config,
    id: Seq<u8>,
    comments: Seq<(AccountId, Seq<u8>)>,
)
    requires
        state.blog_post_comments.dom().contains(id),
        comments_accepted(state, config, id, comments),
    ensures
        ({
            let after = after_comments(state, config, id, comments);
            &&& after.blog_post_comments.dom() == state.blog_post_comments.dom()
            &&& after.blog_post_comments[id] == state.blog_post_comments[id] + comments.map_values(
                |c: (AccountId, Seq<u8>)| comment_record(id, c),
            )
            &&& after.blog_post_comments[id].len() == state.blog_post_comments[id].len()
                + comments.len()
            &&& forall|other: Seq<u8>|
                other != id && state.blog_post_comments.dom().contains(other)
                    ==> after.blog_post_comments[other] == state.blog_post_comments[other]
            &&& after.blog_posts == state.blog_posts
        }),
    decreases comments.len(),
{
    let records = comments.map_values(|c: (AccountId, Seq<u8>)| comment_record(id, c));
    if comments.len() == 0 {
        assert(state.blog_post_comments[id] + records =~= state.blog_post_comments[id]);
    } else {
        let earlier = comments.drop_last();
        lemma_comments_in_call_order(state, config, id, earlier);
        let before = after_comments(state, config, id, earlier);
        let after = after_comments(state, config, id, comments);
        let earlier_records = earlier.map_values(|c: (AccountId, Seq<u8>)| comment_record(id, c));
        assert(after == before.with_comment(id, comments.last().0, comments.last().1));
        assert(records =~= earlier_records.push(comment_record(id, comments.last())));
        assert(after.blog_post_comments[id] =~= state.blog_post_comments[id] + records);
        assert(after.blog_post_comments.dom() =~= state.blog_post_comments.dom());
    }
}

/// On a post that was just published, as many comments as were accepted
/// stand in its thread, and in the order of the calls.
pub proof fn lemma_comments_on_new_post(
    state: State,
    config: Config,
    author: AccountId,
    content: Seq<u8>,
    comments: Seq<(AccountId, Seq<u8>)>,
)
    requires
        state.create_blog_post(config, Origin::Signed(author), content).1 is Ok,
        comments_accepted(
            state.create_blog_post(config, Origin::Signed(author), content).0,
            config,
            record_hash(content, author),
            comments,
        ),
    ensures
        ({
            let id = record_hash(content, author);
            let published = state.create_blog_post(config, Origin::Signed(author), content).0;
            let thread = after_comments(published, config, id, comments).blog_post_comments[id];
            &&& thread.len() == comments.len()
            &&& forall|i: int|
                0 <= i < comments.len() ==> thread[i] == comment_record(id, comments[i])
        }),
{
    let id = record_hash(content, author);
    let published = state.create_blog_post(config, Origin::Signed(author), content).0;
    lemma_comments_in_call_order(published, config, id, comments);
    assert(published.blog_post_comments[id] =~= Seq::<BlogPostCommentView>::empty());
}

/// A tip from the author of the post is refused with `TipperIsAuthor`,
/// whatever the amount, so that no transfer is asked for.
pub proof fn lemma_tip_from_author(state: State, tipper: AccountId, id: Seq<u8>, amount: Balance)
    requires
        state.blog_posts.dom().contains(id),
        state.blog_posts[id].author == tipper,
    ensures
        state.tip_blog_post(Origin::Signed(tipper), id, amount) == Err::<
            crate::transfer::Transfer,
            Error,
        >(Error::TipperIsAuthor),
{
}

/// A tip that is not refused asks for a transfer between two different
/// accounts, from the signer to the post's author, of the amount given.
pub proof fn lemma_tip_accounts_differ(state: State, origin: Origin, id: Seq<u8>, amount: Balance)
    requires
        state.tip_blog_post(origin, id, amount) is Ok,
    ensures
        ({
            let transfer = state.tip_blog_post(origin, id, amount)->Ok_0;
            &&& origin == Origin::Signed(transfer.source)
            &&& state.blog_posts.dom().contains(id)
            &&& transfer.dest == state.blog_posts[id].author
            &&& transfer.source != transfer.dest
            &&& transfer.value == amount
            &&& transfer.existence_requirement is KeepAlive
        }),
{
}

/// Storing and incrementing the value, publishing a post, commenting and
/// concluding a tip each keep the state's invariant: an identifier has a post
/// exactly when it has a thread of comments. So does the empty state.
pub proof fn lemma_operations_keep_invariant(
    state: State,
    config: Config,
    origin: Origin,
    content: Seq<u8>,
    id: Seq<u8>,
    something: u32,
    tipper: AccountId,
    outcome: Result<(), DispatchError>,
)
    requires
        state.wf(),
    ensures
        State::empty().wf(),
        state.do_something(origin, something).0.wf(),
        state.cause_error(origin).0.wf(),
        state.create_blog_post(config, origin, content).0.wf(),
        state.create_blog_post_comment(config, origin, content, id).0.wf(),
        state.conclude_tip(tipper, id, outcome).0.wf(),
{
    assert(state.create_blog_post(config, origin, content).0.blog_posts.dom()
        =~= state.create_blog_post(config, origin, content).0.blog_post_comments.dom());
    assert(state.create_blog_post_comment(config, origin, content, id).0.blog_posts.dom()
        =~= state.create_blog_post_comment(config, origin, content, id).0.blog_post_comments.dom());
}

/// Storing and incrementing the value, publishing a post through
/// `create_blog_post`, commenting and concluding a tip each keep the posts
/// content-addressed: each post stands under the hash of its own record.
///
/// This holds of these five operations and of the empty state, not of
/// `with_blog_post` alone, which stores a post under whatever identifier it
/// is given.
pub proof fn lemma_operations_keep_content_addressed(
    state: State,
    config: Config,
    origin: Origin,
    content: Seq<u8>,
    id: Seq<u8>,
    something: u32,
    tipper: AccountId,
    outcome: Result<(), DispatchError>,
)
    requires
        state.content_addressed(),
    ensures
        State::empty().content_addressed(),
        state.do_something(origin, something).0.content_addressed(),
        state.cause_error(origin).0.content_addressed(),
        state.create_blog_post(config, origin, content).0.content_addressed(),
        state.create_blog_post_comment(config, origin, content, id).0.content_addressed(),
        state.conclude_tip(tipper, id, outcome).0.content_addressed(),
{
}

/// Storing and incrementing the value, publishing a post, commenting and
/// concluding a tip each keep every comment in the thread of the post that
/// it names. So does the empty state.
pub proof fn lemma_operations_keep_comments_with_their_post(
    state: State,
    config: Config,
    origin: Origin,
    content: Seq<u8>,
    id: Seq<u8>,
    something: u32,
    tipper: AccountId,
    outcome: Result<(), DispatchError>,
)
    requires
        state.comments_name_their_post(),
    ensures
        State::empty().comments_name_their_post(),
        state.do_something(origin, something).0.comments_name_their_post(),
        state.cause_error(origin).0.comments_name_their_post(),
        state.create_blog_post(config, origin, content).0.comments_name_their_post(),
        state.create_blog_post_comment(config, origin, content, id).0.comments_name_their_post(),
        state.conclude_tip(tipper, id, outcome).0.comments_name_their_post(),
{
}

/// Storing and incrementing the value, publishing a post through
/// `create_blog_post`, commenting through `create_blog_post_comment` and
/// concluding a tip each keep the stored content within the bounds of
/// `config`: what they store is longer than the lower bound and shorter than
/// the upper bound for its kind.
///
/// This holds of these five operations and of the empty state, not of
/// `with_blog_post` alone, which stores content of any length.
pub proof fn lemma_operations_keep_within_bounds(
    state: State,
    config: Config,
    origin: Origin,
    content: Seq<u8>,
    id: Seq<u8>,
    something: u32,
    tipper: AccountId,
    outcome: Result<(), DispatchError>,
)
    requires
        state.content_within_bounds(config),
    ensures
        State::empty().content_within_bounds(config),
        state.do_something(origin, something).0.content_within_bounds(config),
        state.cause_error(origin).0.content_within_bounds(config),
        state.create_blog_post(config, origin, content).0.content_within_bounds(config),
        state.create_blog_post_comment(config, origin, content, id).0.content_within_bounds(config),
        state.conclude_tip(tipper, id, outcome).0.content_within_bounds(config),
{
}

/// Storing and incrementing the value, publishing a post, commenting and
/// concluding a tip each leave the state as it was when they are refused.
pub proof fn lemma_refused_changes_nothing(
    state: State,
    config: Config,
    origin: Origin,
    content: Seq<u8>,
    id: Seq<u8>,
    something: u32,
    tipper: AccountId,
    outcome: Result<(), DispatchError>,
)
    ensures
        state.do_something(origin, something).1 is Err ==> state.do_something(origin, something).0
            == state,
        state.cause_error(origin).1 is Err ==> state.cause_error(origin).0 == state,
        state.create_blog_post(config, origin, content).1 is Err ==> state.create_blog_post(
            config,
            origin,
            content,
        ).0 == state,
        state.create_blog_post_comment(config, origin, content, id).1 is Err
            ==> state.create_blog_post_comment(config, origin, content, id).0 == state,
        state.conclude_tip(tipper, id, outcome).1 is Err ==> state.conclude_tip(
            tipper,
            id,
            outcome,
        ).0 == state,
{
}

/// Storing the value, publishing a post, commenting and concluding a tip
/// each add exactly one event to the log when they succeed and none when
/// they are refused; incrementing the stored value adds none either way.
pub proof fn lemma_one_event_per_success(
    state: State,
    config: Config,
    origin: Origin,
    content: Seq<u8>,
    id: Seq<u8>,
    something: u32,
    tipper: AccountId,
    outcome: Result<(), DispatchError>,
)
    ensures
        state.do_something(origin, something).0.events.len() == state.events.len() + (if state.do_something(
            origin,
            something,
        ).1 is Ok {
            1nat
        } else {
            0nat
        }),
        state.cause_error(origin).0.events == state.events,
        state.create_blog_post(config, origin, content).0.events.len() == state.events.len() + (
        if state.create_blog_post(config, origin, content).1 is Ok {
            1nat
        } else {
            0nat
        }),
        state.create_blog_post_comment(config, origin, content, id).0.events.len()
            == state.events.len() + (if state.create_blog_post_comment(
            config,
            origin,
            content,
            id,
        ).1 is Ok {
            1nat
        } else {
            0nat
        }),
        state.conclude_tip(tipper, id, outcome).0.events.len() == state.events.len() + (
        if outcome is Ok {
            1nat
        } else {
            0nat
        }),
{
}

} // verus!
