//! Post identifiers: the Blake2-256 digest of a post's encoded record.

use crate::types::{AccountId, PostId};
use frame_support::sp_runtime::traits::BlakeTwo256;
use vstd::prelude::*;

verus! {

/// The digest that `BlakeTwo256::hash_of` gives for the record made of
/// `content` followed by `author`.
pub uninterp spec fn record_hash(content: Seq<u8>, author: AccountId) -> Seq<u8>;

/// Calls `BlakeTwo256::hash_of` on the pair `(content, author)`, whose
/// encoding is that of a record with these two fields in this order. The
/// contract claims only that the digest is a function of the content's bytes
/// and of the author: it is `record_hash` of them.
///
/// The encoding writes the content's length as a 32-bit number and panics on
/// a longer content, so the call is made only on content of at most
/// `u32::MAX` bytes.
#[verifier::external_body]
pub(crate) fn hash_of_record(content: &Vec<u8>, author: AccountId) -> (id: PostId)
    requires
        content@.len() <= u32::MAX,
    ensures
        id@ == record_hash(content@, author),
{
    <BlakeTwo256 as frame_support::sp_runtime::traits::Hash>::hash_of(&(content, author)).0
}

} // verus!
