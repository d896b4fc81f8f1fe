//! The error taxonomy.  Every failure aborts its whole operation with no
//! partial mutation and is surfaced to the caller as one of these kinds.

use vstd::prelude::*;

verus! {

/// Why an operation was rejected.
///
/// The first five kinds are raised by the handlers themselves; the last
/// two belong to the record layer that the ledger model reproduces:
/// `AlreadyInitialized` when the singleton directory is created twice and
/// `AlreadyExists` when a record is created at an address already in use
/// (which the deterministic derivation makes a per-author title clash).
#[derive(Clone, Copy, PartialEq, Eq, Structural, Debug)]
pub enum BlogError {
    /// The title of the post is empty.
    InvalidTitle,
    /// The content of the post is empty.
    InvalidContent,
    /// The caller is not the author of the record.
    Unauthorized,
    /// The directory already holds the most posts it can.
    PostLimitReached,
    /// The record's address is absent from the directory.
    PostNotFound,
    /// The singleton directory has already been created.
    AlreadyInitialized,
    /// A record already lives at the derived address.
    AlreadyExists,
}

} // verus!
