//! The balance transfer that a tip asks the host to make.

use crate::types::{AccountId, Balance};
use vstd::prelude::*;

verus! {

/// Whether a transfer may empty the account that pays.
#[derive(Debug, Clone, Copy, PartialEq, Eq)]
pub enum ExistenceRequirement {
    /// The transfer must fail rather than take the paying account below the
    /// balance that it needs to exist.
    KeepAlive,
    /// The transfer may leave the paying account without the balance that it
    /// needs to exist.
    AllowDeath,
}

/// A transfer of `value` from `source` to `dest`.
#[derive(Debug, Clone, Copy, PartialEq, Eq)]
pub struct Transfer {
    /// The account that pays.
    pub source: AccountId,
    /// The account that is paid.
    pub dest: AccountId,
    /// The amount to move.
    pub value: Balance,
    /// What may become of the paying account.
    pub existence_requirement: ExistenceRequirement,
}

} // verus!
