//! A content-publishing ledger: posts keyed by the hash of their record,
//! comments appended to a post's thread, and tips to a post's author.
//!
//! [`Pallet`] holds the ledger and carries out the operations. [`State`] is
//! the ledger as a mathematical value: the contract of each operation says
//! what it makes of that value, and the module `laws` proves what follows.

pub mod config;
pub mod error;
pub mod event;
pub mod hashing;
pub mod laws;
pub mod origin;
pub mod pallet;
pub mod records;
pub mod state;
pub mod storage;
pub mod transfer;
pub mod types;

pub use config::Config;
pub use error::Error;
pub use event::Event;
pub use origin::{ensure_signed, Origin};
pub use pallet::Pallet;
pub use records::{BlogPost, BlogPostComment};
pub use state::State;
pub use storage::StorageMap;
pub use transfer::{ExistenceRequirement, Transfer};
pub use types::{AccountId, Balance, PostId};
