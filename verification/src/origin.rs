//! Where a request comes from, and who signed it.

use crate::error::Error;
use crate::types::AccountId;
use vstd::prelude::*;

verus! {

/// The origin of a request.
#[derive(Debug, Clone, Copy, PartialEq, Eq)]
pub enum Origin {
    /// The system itself, with no account behind it.
    Root,
    /// A request signed by the given account.
    Signed(AccountId),
    /// A request that nobody signed.
    Unsigned,
}

/// The account that signed a request, or `BadOrigin` for any other origin.
pub open spec fn signer(origin: Origin) -> Result<AccountId, Error> {
    match origin {
        Origin::Signed(who) => Ok(who),
        _ => Err(Error::BadOrigin),
    }
}

/// The account that signed the request of `origin`; any origin but a signed
/// one is refused with `BadOrigin`.
pub fn ensure_signed(origin: Origin) -> (who: Result<AccountId, Error>)
    ensures
        who == signer(origin),
{
    match origin {
        Origin::Signed(who) => Ok(who),
        _ => Err(Error::BadOrigin),
    }
}

} // verus!
