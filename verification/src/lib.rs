//! A small on-ledger directory of posts.
//!
//! The library keeps a bounded, insertion-ordered directory of post
//! addresses together with the post records themselves, and offers five
//! atomic operations over them: initialize the directory, create a post,
//! edit a post, delete a post, and list the directory's contents.  Every
//! record is owned by the identity that created it, and only that identity
//! may edit or delete it.
//!
//! The surrounding runtime (account storage, signature checking, the
//! clock, address derivation) is out of scope: handlers receive the caller
//! identity, the record address and the current clock reading as plain
//! values, and the ledger module models the store of records that the
//! runtime persists between operations.

mod error;
mod instructions;
mod ledger;
mod state;

pub use error::BlogError;
pub use instructions::create_post;
pub use instructions::delete_post;
pub use instructions::edit_post;
pub use instructions::initialize;
pub use instructions::list_posts;
pub use ledger::Ledger;
pub use ledger::PostEntry;
pub use ledger::lemma_addresses_resolve;
pub use ledger::lemma_directory_consistent;
pub use ledger::state_unchanged;
pub use state::Address;
pub use state::BlogPost;
pub use state::GlobalState;
pub use state::Identity;
pub use state::distinct_addresses;
pub use state::removed_first;
