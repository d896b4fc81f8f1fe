//! Persistent record kinds: the singleton directory and the post records.

use vstd::prelude::*;

verus! {

/// An opaque public-key identity of a caller, held as four 64-bit words
/// (32 bytes).  Identities are compared by value: ownership of a record
/// means equality with its stored `author`, nothing more.
#[derive(Clone, Copy, PartialEq, Eq, Structural, Debug)]
pub struct Identity(pub u64, pub u64, pub u64, pub u64);

/// The locator of a persistent record, held as four 64-bit words
/// (32 bytes).  The runtime derives it deterministically from the title
/// and the author when a post is created; the library only stores and
/// compares it.
#[derive(Clone, Copy, PartialEq, Eq, Structural, Debug)]
pub struct Address(pub u64, pub u64, pub u64, pub u64);

/// One post: its owner, its text fields, a reserved sequence number and
/// the clock reading of its last write.
pub struct BlogPost {
    /// The identity that created the post; never reassigned.
    pub author: Identity,
    /// Title text, 1 to 25 bytes.
    pub title: String,
    /// Content text, 1 to 850 bytes.
    pub content: String,
    /// Reserved sequence number; no operation assigns it, so it keeps the
    /// zero the record is created with.
    pub post_id: u64,
    /// Unix seconds at creation, refreshed on every edit.
    pub timestamp: i64,
}

impl BlogPost {
    /// Capacity of the stored title, in bytes.
    pub const MAX_TITLE_BYTES: usize = 25;

    /// Capacity of the stored content, in bytes.
    pub const MAX_CONTENT_BYTES: usize = 850;

    /// A stored post has a non-empty title and content, each within the
    /// byte capacity its record is allocated with.
    pub open spec fn wf(&self) -> bool {
        &&& self.title@.len() >= 1
        &&& vstd::utf8::encode_utf8(self.title@).len() <= Self::MAX_TITLE_BYTES
        &&& self.content@.len() >= 1
        &&& vstd::utf8::encode_utf8(self.content@).len() <= Self::MAX_CONTENT_BYTES
    }
}

/// The singleton directory: the number of live posts and their addresses
/// in insertion order.
pub struct GlobalState {
    /// Number of live posts; equals the length of `post_addresses`.
    pub total_posts: u64,
    /// Addresses of the live posts, in insertion order, capacity-bounded.
    pub post_addresses: Vec<Address>,
}

/// No address occurs twice in the sequence.
pub open spec fn distinct_addresses(s: Seq<Address>) -> bool {
    forall|i: int, j: int| 0 <= i < j < s.len() ==> s[i] != s[j]
}

/// `post` is `pre` with the first occurrence of `a` taken out and every
/// later entry shifted down one position: the order-preserving removal
/// that deletion performs on the directory.
pub open spec fn removed_first(pre: Seq<Address>, post: Seq<Address>, a: Address) -> bool {
    exists|k: int|
        0 <= k < pre.len() && pre[k] == a && (forall|j: int| 0 <= j < k ==> pre[j] != a) && post
            == pre.remove(k)
}

impl GlobalState {
    /// Capacity of the directory: the most posts that may be live at once.
    pub const MAX_POSTS: usize = 100;

    /// The directory invariant: the stored count equals the number of
    /// listed addresses, the capacity bound holds, and no address is
    /// listed twice.
    pub open spec fn wf(&self) -> bool {
        &&& self.total_posts == self.post_addresses@.len()
        &&& self.post_addresses@.len() <= Self::MAX_POSTS
        &&& distinct_addresses(self.post_addresses@)
    }
}

} // verus!
