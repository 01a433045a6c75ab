use blogchain::{
    BlogPost, BlogPostComment, Config, Error, Event, ExistenceRequirement, Origin, Pallet, PostId,
    Transfer,
};
use frame_support::sp_runtime::traits::BlakeTwo256;
use frame_support::sp_runtime::{DispatchError, TokenError};

const A: u64 = 1;
const B: u64 = 2;

fn bounds() -> Config {
    Config {
        blog_post_min_bytes: 10,
        blog_post_max_bytes: 1000,
        blog_post_comment_min_bytes: 5,
        blog_post_comment_max_bytes: 500,
    }
}

fn body() -> Vec<u8> {
    b"this is a valid blog post body".to_vec()
}

fn body_id_of_a() -> PostId {
    [
        26, 240, 181, 51, 211, 33, 183, 158, 40, 89, 152, 59, 187, 53, 102, 61, 113, 132, 204, 65,
        109, 249, 181, 150, 176, 109, 169, 248, 108, 34, 193, 102,
    ]
}

#[test]
fn new_ledger_is_empty() {
    let pallet = Pallet::new(bounds());
    assert_eq!(pallet.config(), bounds());
    assert_eq!(pallet.something(), None);
    assert!(pallet.events().is_empty());
    assert_eq!(pallet.blog_posts(&[0u8; 32]), None);
    assert_eq!(pallet.blog_post_comments(&[0u8; 32]), None);
}

#[test]
fn publish_comment_and_tip_end_to_end() {
    let mut pallet = Pallet::new(bounds());

    let h = pallet.create_blog_post(Origin::Signed(A), body()).unwrap();
    assert_eq!(
        pallet.blog_posts(&h),
        Some(&BlogPost { content: body(), author: A })
    );
    assert_eq!(pallet.blog_post_comments(&h), Some(&Vec::new()));

    assert_eq!(
        pallet.create_blog_post_comment(Origin::Signed(B), b"nice post!".to_vec(), h),
        Ok(())
    );
    let thread = pallet.blog_post_comments(&h).unwrap();
    assert_eq!(thread.len(), 1);
    assert_eq!(
        thread[0],
        BlogPostComment { content: b"nice post!".to_vec(), blog_post_id: h, author: B }
    );

    let transfer = pallet.tip_blog_post(Origin::Signed(B), h, 100).unwrap();
    assert_eq!(
        transfer,
        Transfer {
            source: B,
            dest: A,
            value: 100,
            existence_requirement: ExistenceRequirement::KeepAlive,
        }
    );
    assert_eq!(pallet.conclude_tip(B, h, Ok(())), Ok(()));
    assert_eq!(pallet.events().last(), Some(&Event::Tipped(B, h)));

    let logged = pallet.events().len();
    assert_eq!(
        pallet.tip_blog_post(Origin::Signed(A), h, 50),
        Err(Error::TipperIsAuthor)
    );
    assert_eq!(pallet.events().len(), logged);

    assert_eq!(
        pallet.events(),
        &vec![
            Event::BlogPostCreated(body(), A, h),
            Event::BlogPostCommentCreated(b"nice post!".to_vec(), B, h),
            Event::Tipped(B, h),
        ]
    );
}

#[test]
fn empty_post_is_too_short() {
    let mut pallet = Pallet::new(bounds());
    assert_eq!(
        pallet.create_blog_post(Origin::Signed(A), Vec::new()),
        Err(Error::BlogPostNotEnoughBytes)
    );
    assert_eq!(pallet.blog_posts(&body_id_of_a()), None);
    assert_eq!(pallet.blog_post_comments(&body_id_of_a()), None);
    assert!(pallet.events().is_empty());
}

#[test]
fn post_id_is_blake2_256_of_the_encoded_record() {
    let mut pallet = Pallet::new(bounds());
    let id = pallet.create_blog_post(Origin::Signed(A), body()).unwrap();
    assert_eq!(id, body_id_of_a());
    assert_ne!(&id[..], &body()[..]);

    let id = pallet.create_blog_post(Origin::Signed(7), b"hello, world".to_vec()).unwrap();
    assert_eq!(
        id,
        [
            81, 13, 147, 25, 16, 24, 138, 103, 191, 9, 49, 113, 36, 128, 242, 28, 102, 48, 106, 4,
            184, 191, 60, 132, 94, 61, 11, 252, 149, 221, 142, 134,
        ]
    );

    let long = vec![0x61u8; 100];
    let id = pallet.create_blog_post(Origin::Signed(3), long).unwrap();
    assert_eq!(
        id,
        [
            244, 16, 251, 148, 208, 117, 105, 236, 103, 219, 224, 218, 254, 245, 152, 54, 184,
            217, 196, 157, 211, 30, 176, 21, 242, 17, 51, 109, 248, 75, 193, 135,
        ]
    );
}

#[test]
fn post_id_depends_on_the_author() {
    let mut pallet = Pallet::new(bounds());
    let of_a = pallet.create_blog_post(Origin::Signed(A), body()).unwrap();
    let of_b = pallet.create_blog_post(Origin::Signed(B), body()).unwrap();
    assert_ne!(of_a, of_b);
    assert_eq!(
        of_b,
        [
            97, 148, 137, 38, 238, 48, 142, 58, 71, 226, 250, 96, 202, 67, 170, 111, 234, 92, 108,
            186, 5, 239, 145, 12, 26, 5, 202, 202, 194, 10, 74, 168,
        ]
    );
    assert_eq!(pallet.blog_posts(&of_a).unwrap().author, A);
    assert_eq!(pallet.blog_posts(&of_b).unwrap().author, B);
}

#[test]
fn post_id_matches_the_hash_of_the_hand_encoded_record() {
    let mut pallet = Pallet::new(bounds());
    let id = pallet.create_blog_post(Origin::Signed(A), body()).unwrap();

    let mut record = vec![30u8 << 2];
    record.extend_from_slice(&body());
    record.extend_from_slice(&A.to_le_bytes());
    let digest = <BlakeTwo256 as frame_support::sp_runtime::traits::Hash>::hash(&record);
    assert_eq!(id, digest.0);
}

#[test]
fn post_bounds_are_exclusive() {
    let config = Config {
        blog_post_min_bytes: 3,
        blog_post_max_bytes: 6,
        blog_post_comment_min_bytes: 0,
        blog_post_comment_max_bytes: 100,
    };
    let mut pallet = Pallet::new(config);
    assert_eq!(
        pallet.create_blog_post(Origin::Signed(A), vec![1; 2]),
        Err(Error::BlogPostNotEnoughBytes)
    );
    assert_eq!(
        pallet.create_blog_post(Origin::Signed(A), vec![1; 3]),
        Err(Error::BlogPostNotEnoughBytes)
    );
    assert!(pallet.create_blog_post(Origin::Signed(A), vec![1; 4]).is_ok());
    assert!(pallet.create_blog_post(Origin::Signed(A), vec![1; 5]).is_ok());
    assert_eq!(
        pallet.create_blog_post(Origin::Signed(A), vec![1; 6]),
        Err(Error::BlogPostTooManyBytes)
    );
    assert_eq!(
        pallet.create_blog_post(Origin::Signed(A), vec![1; 7]),
        Err(Error::BlogPostTooManyBytes)
    );
    assert_eq!(pallet.events().len(), 2);
}

#[test]
fn lower_bound_is_looked_at_before_the_upper() {
    let config = Config {
        blog_post_min_bytes: 10,
        blog_post_max_bytes: 5,
        blog_post_comment_min_bytes: 10,
        blog_post_comment_max_bytes: 5,
    };
    let mut pallet = Pallet::new(config);
    assert_eq!(
        pallet.create_blog_post(Origin::Signed(A), vec![1; 7]),
        Err(Error::BlogPostNotEnoughBytes)
    );
    assert_eq!(
        pallet.create_blog_post(Origin::Signed(A), vec![1; 11]),
        Err(Error::BlogPostTooManyBytes)
    );
    assert_eq!(
        pallet.create_blog_post_comment(Origin::Signed(A), vec![1; 7], [0; 32]),
        Err(Error::BlogPostCommentNotEnoughBytes)
    );
    assert_eq!(
        pallet.create_blog_post_comment(Origin::Signed(A), vec![1; 11], [0; 32]),
        Err(Error::BlogPostCommentTooManyBytes)
    );
}

#[test]
fn refused_post_changes_nothing() {
    let mut pallet = Pallet::new(bounds());
    let h = pallet.create_blog_post(Origin::Signed(A), body()).unwrap();
    pallet.create_blog_post_comment(Origin::Signed(B), b"nice post!".to_vec(), h).unwrap();
    let events = pallet.events().clone();

    assert_eq!(
        pallet.create_blog_post(Origin::Signed(A), vec![0; 10]),
        Err(Error::BlogPostNotEnoughBytes)
    );
    assert_eq!(
        pallet.create_blog_post(Origin::Signed(A), vec![0; 1000]),
        Err(Error::BlogPostTooManyBytes)
    );
    assert_eq!(pallet.create_blog_post(Origin::Root, body()), Err(Error::BadOrigin));
    assert_eq!(pallet.create_blog_post(Origin::Unsigned, body()), Err(Error::BadOrigin));

    assert_eq!(pallet.events(), &events);
    assert_eq!(pallet.blog_posts(&h), Some(&BlogPost { content: body(), author: A }));
    assert_eq!(pallet.blog_post_comments(&h).unwrap().len(), 1);
}

#[test]
fn republishing_gives_the_same_id_and_overwrites() {
    let mut pallet = Pallet::new(bounds());
    let first = pallet.create_blog_post(Origin::Signed(A), body()).unwrap();
    let second = pallet.create_blog_post(Origin::Signed(A), body()).unwrap();
    assert_eq!(first, second);
    assert_eq!(pallet.blog_posts(&first), Some(&BlogPost { content: body(), author: A }));
    assert_eq!(pallet.blog_post_comments(&first), Some(&Vec::new()));
    assert_eq!(pallet.events().len(), 2);
}

#[test]
fn republishing_empties_the_thread() {
    let mut pallet = Pallet::new(bounds());
    let h = pallet.create_blog_post(Origin::Signed(A), body()).unwrap();
    pallet.create_blog_post_comment(Origin::Signed(B), b"nice post!".to_vec(), h).unwrap();
    assert_eq!(pallet.blog_post_comments(&h).unwrap().len(), 1);
    assert_eq!(pallet.create_blog_post(Origin::Signed(A), body()), Ok(h));
    assert_eq!(pallet.blog_post_comments(&h), Some(&Vec::new()));
}

#[test]
fn comment_on_missing_post_is_not_found() {
    let mut pallet = Pallet::new(bounds());
    let h = pallet.create_blog_post(Origin::Signed(A), body()).unwrap();
    let mut missing = h;
    missing[0] ^= 1;

    assert_eq!(
        pallet.create_blog_post_comment(Origin::Signed(B), b"nice post!".to_vec(), missing),
        Err(Error::BlogPostNotFound)
    );
    assert_eq!(pallet.blog_post_comments(&missing), None);
    assert_eq!(pallet.blog_post_comments(&h), Some(&Vec::new()));
    assert_eq!(pallet.events().len(), 1);
}

#[test]
fn comment_errors_come_in_order() {
    let mut pallet = Pallet::new(bounds());
    let missing = [9u8; 32];
    assert_eq!(
        pallet.create_blog_post_comment(Origin::Root, vec![0; 5], missing),
        Err(Error::BadOrigin)
    );
    assert_eq!(
        pallet.create_blog_post_comment(Origin::Signed(B), vec![0; 5], missing),
        Err(Error::BlogPostCommentNotEnoughBytes)
    );
    assert_eq!(
        pallet.create_blog_post_comment(Origin::Signed(B), vec![0; 500], missing),
        Err(Error::BlogPostCommentTooManyBytes)
    );
    assert_eq!(
        pallet.create_blog_post_comment(Origin::Signed(B), vec![0; 6], missing),
        Err(Error::BlogPostNotFound)
    );
    assert_eq!(
        pallet.create_blog_post_comment(Origin::Signed(B), vec![0; 499], missing),
        Err(Error::BlogPostNotFound)
    );
    assert!(pallet.events().is_empty());
}

#[test]
fn comments_are_held_to_the_comment_bounds() {
    let config = Config {
        blog_post_min_bytes: 10,
        blog_post_max_bytes: 40,
        blog_post_comment_min_bytes: 2,
        blog_post_comment_max_bytes: 60,
    };
    let mut pallet = Pallet::new(config);
    let h = pallet.create_blog_post(Origin::Signed(A), body()).unwrap();
    assert_eq!(pallet.create_blog_post_comment(Origin::Signed(B), vec![7; 3], h), Ok(()));
    assert_eq!(pallet.create_blog_post_comment(Origin::Signed(B), vec![7; 59], h), Ok(()));
    assert_eq!(
        pallet.create_blog_post_comment(Origin::Signed(B), vec![7; 2], h),
        Err(Error::BlogPostCommentNotEnoughBytes)
    );
    assert_eq!(
        pallet.create_blog_post_comment(Origin::Signed(B), vec![7; 60], h),
        Err(Error::BlogPostCommentTooManyBytes)
    );
    assert_eq!(pallet.blog_post_comments(&h).unwrap().len(), 2);
}

#[test]
fn comments_keep_call_order() {
    let mut pallet = Pallet::new(bounds());
    let h = pallet.create_blog_post(Origin::Signed(A), body()).unwrap();
    let other = pallet.create_blog_post(Origin::Signed(B), body()).unwrap();

    let n: u64 = 25;
    for i in 0..n {
        let content = format!("comment number {}", i).into_bytes();
        assert_eq!(pallet.create_blog_post_comment(Origin::Signed(10 + i), content, h), Ok(()));
    }
    let thread = pallet.blog_post_comments(&h).unwrap();
    assert_eq!(thread.len(), 25);
    for i in 0..n {
        assert_eq!(
            thread[i as usize],
            BlogPostComment {
                content: format!("comment number {}", i).into_bytes(),
                blog_post_id: h,
                author: 10 + i,
            }
        );
    }
    assert_eq!(pallet.blog_post_comments(&other), Some(&Vec::new()));
    assert_eq!(pallet.events().len(), 27);
}

#[test]
fn tip_needs_a_signed_origin_and_a_post() {
    let mut pallet = Pallet::new(bounds());
    let h = pallet.create_blog_post(Origin::Signed(A), body()).unwrap();
    assert_eq!(pallet.tip_blog_post(Origin::Root, h, 1), Err(Error::BadOrigin));
    assert_eq!(pallet.tip_blog_post(Origin::Unsigned, h, 1), Err(Error::BadOrigin));
    assert_eq!(
        pallet.tip_blog_post(Origin::Signed(B), [3; 32], 1),
        Err(Error::BlogPostNotFound)
    );
    assert_eq!(
        pallet.tip_blog_post(Origin::Signed(A), [3; 32], 1),
        Err(Error::BlogPostNotFound)
    );
    assert_eq!(pallet.tip_blog_post(Origin::Signed(A), h, 0), Err(Error::TipperIsAuthor));
    assert_eq!(
        pallet.tip_blog_post(Origin::Signed(B), h, u128::MAX),
        Ok(Transfer {
            source: B,
            dest: A,
            value: u128::MAX,
            existence_requirement: ExistenceRequirement::KeepAlive,
        })
    );
    assert_eq!(pallet.events().len(), 1);
}

#[test]
fn failed_transfer_is_handed_on_and_logs_nothing() {
    let mut pallet = Pallet::new(bounds());
    let h = pallet.create_blog_post(Origin::Signed(A), body()).unwrap();
    let events = pallet.events().clone();

    let funds = DispatchError::Token(TokenError::FundsUnavailable);
    assert_eq!(pallet.conclude_tip(B, h, Err(funds)), Err(Error::TransferFailed(funds)));
    let other = DispatchError::Other("account would be reaped");
    assert_eq!(pallet.conclude_tip(B, h, Err(other)), Err(Error::TransferFailed(other)));
    assert_ne!(
        pallet.conclude_tip(B, h, Err(DispatchError::Token(TokenError::NotExpendable))),
        Err(Error::TransferFailed(funds))
    );

    assert_eq!(pallet.events(), &events);
    assert_eq!(pallet.blog_posts(&h), Some(&BlogPost { content: body(), author: A }));
}

#[test]
fn stored_value_is_set_and_logged() {
    let mut pallet = Pallet::new(bounds());
    assert_eq!(pallet.do_something(Origin::Root, 5), Err(Error::BadOrigin));
    assert_eq!(pallet.something(), None);
    assert_eq!(pallet.do_something(Origin::Signed(A), 42), Ok(()));
    assert_eq!(pallet.something(), Some(42));
    assert_eq!(pallet.events(), &vec![Event::SomethingStored(42, A)]);
}

#[test]
fn stored_value_increments_until_it_overflows() {
    let mut pallet = Pallet::new(bounds());
    assert_eq!(pallet.cause_error(Origin::Unsigned), Err(Error::BadOrigin));
    assert_eq!(pallet.cause_error(Origin::Signed(A)), Err(Error::NoneValue));

    pallet.do_something(Origin::Signed(A), u32::MAX - 1).unwrap();
    assert_eq!(pallet.cause_error(Origin::Signed(B)), Ok(()));
    assert_eq!(pallet.something(), Some(u32::MAX));
    assert_eq!(pallet.cause_error(Origin::Signed(B)), Err(Error::StorageOverflow));
    assert_eq!(pallet.something(), Some(u32::MAX));
    assert_eq!(pallet.events().len(), 1);
}
