//! The operation handlers.
//!
//! Each handler is the state-transition half of one atomic operation: the
//! runtime locates or creates the records an operation touches, hands
//! them in together with the caller identity and the current clock
//! reading, and persists every mutation or none.  The ledger module plays
//! that runtime for a whole store of records; the handlers here say
//! exactly what each operation does to the records themselves.

use vstd::prelude::*;

use crate::error::BlogError;
use crate::state::Address;
use crate::state::BlogPost;
use crate::state::GlobalState;
use crate::state::Identity;
use crate::state::removed_first;

verus! {

/// Creates the singleton directory: no posts, no addresses.
///
/// The guarantee that this runs at most once per deployment belongs to
/// the record layer, not to this handler; see `Ledger::initialize`.
pub fn initialize(global_state: &mut GlobalState) -> (r: Result<(), BlogError>)
    ensures
        r is Ok,
        final(global_state).total_posts == 0,
        final(global_state).post_addresses@ == Seq::<Address>::empty(),
{
    global_state.total_posts = 0;
    global_state.post_addresses = Vec::new();
    Ok(())
}

/// Fills a freshly created record with the new post and registers its
/// address in the directory.
///
/// Rejects an empty title, then an empty content, then a full directory;
/// a rejection leaves both records exactly as they were.  On success the
/// record holds the caller as author and `now` as timestamp, the address
/// is appended to the directory in insertion order, and the count grows
/// by one.  The reserved `post_id` field is never assigned.  The byte
/// capacities in the `requires` are the record layout the runtime
/// allocates; longer texts are rejected before any handler runs.
pub fn create_post(
    blog_post: &mut BlogPost,
    global_state: &mut GlobalState,
    owner: Identity,
    post_address: Address,
    title: String,
    content: String,
    now: i64,
) -> (r: Result<(), BlogError>)
    requires
        vstd::utf8::encode_utf8(title@).len() <= BlogPost::MAX_TITLE_BYTES,
        vstd::utf8::encode_utf8(content@).len() <= BlogPost::MAX_CONTENT_BYTES,
    ensures
        r == Err::<(), BlogError>(BlogError::InvalidTitle) <==> title@.len() == 0,
        r == Err::<(), BlogError>(BlogError::InvalidContent) <==> title@.len() > 0 && content@.len() == 0,
        r == Err::<(), BlogError>(BlogError::PostLimitReached) <==> title@.len() > 0
            && content@.len() > 0
            && old(global_state).total_posts as int >= GlobalState::MAX_POSTS as int,
        r is Ok <==> title@.len() > 0 && content@.len() > 0
            && (old(global_state).total_posts as int) < GlobalState::MAX_POSTS as int,
        r is Err ==> *final(blog_post) == *old(blog_post) && *final(global_state) == *old(global_state),
        r is Ok ==> final(blog_post).author == owner
            && final(blog_post).title@ == title@
            && final(blog_post).content@ == content@
            && final(blog_post).post_id == old(blog_post).post_id
            && final(blog_post).timestamp == now
            && final(global_state).post_addresses@ == old(global_state).post_addresses@.push(
            post_address,
        )
            && final(global_state).total_posts == old(global_state).total_posts + 1,
{
    if title.as_str().is_empty() {
        return Err(BlogError::InvalidTitle);
    }
    if content.as_str().is_empty() {
        return Err(BlogError::InvalidContent);
    }
    if global_state.total_posts >= GlobalState::MAX_POSTS as u64 {
        return Err(BlogError::PostLimitReached);
    }
    blog_post.author = owner;
    blog_post.title = title;
    blog_post.content = content;
    blog_post.timestamp = now;
    global_state.post_addresses.push(post_address);
    global_state.total_posts = global_state.total_posts + 1;
    Ok(())
}

/// Overwrites the post's title and content and refreshes its timestamp.
///
/// Rejects an empty title, then an empty content, leaving the record
/// unchanged.  The author is never reassigned, so no ownership transfer
/// is possible.  Authorization is structural: the runtime only binds a
/// record to a caller whose identity equals its stored author, and
/// `Ledger::edit_post` performs that check before calling here.
pub fn edit_post(blog_post: &mut BlogPost, title: String, content: String, now: i64) -> (r: Result<
    (),
    BlogError,
>)
    requires
        vstd::utf8::encode_utf8(title@).len() <= BlogPost::MAX_TITLE_BYTES,
        vstd::utf8::encode_utf8(content@).len() <= BlogPost::MAX_CONTENT_BYTES,
    ensures
        r == Err::<(), BlogError>(BlogError::InvalidTitle) <==> title@.len() == 0,
        r == Err::<(), BlogError>(BlogError::InvalidContent) <==> title@.len() > 0 && content@.len() == 0,
        r is Ok <==> title@.len() > 0 && content@.len() > 0,
        r is Err ==> *final(blog_post) == *old(blog_post),
        r is Ok ==> final(blog_post).author == old(blog_post).author
            && final(blog_post).title@ == title@
            && final(blog_post).content@ == content@
            && final(blog_post).post_id == old(blog_post).post_id
            && final(blog_post).timestamp == now,
{
    if title.as_str().is_empty() {
        return Err(BlogError::InvalidTitle);
    }
    if content.as_str().is_empty() {
        return Err(BlogError::InvalidContent);
    }
    blog_post.title = title;
    blog_post.content = content;
    blog_post.timestamp = now;
    Ok(())
}

/// Unregisters a post from the directory on behalf of its author.
///
/// Fails `Unauthorized` when the caller is not the stored author, and
/// `PostNotFound` when the record's address is missing from the
/// directory; either failure leaves the directory untouched, and the
/// surrounding atomic unit then also keeps the record alive.  On success
/// the first occurrence of the address is removed order-preservingly
/// (later entries shift down one position) and the count shrinks by one;
/// destroying the record itself is the record layer's half of the same
/// atomic unit.
pub fn delete_post(
    blog_post: &BlogPost,
    post_address: Address,
    global_state: &mut GlobalState,
    caller: Identity,
) -> (r: Result<(), BlogError>)
    requires
        old(global_state).total_posts == old(global_state).post_addresses@.len(),
    ensures
        r == Err::<(), BlogError>(BlogError::Unauthorized) <==> blog_post.author != caller,
        r == Err::<(), BlogError>(BlogError::PostNotFound) <==> blog_post.author == caller
            && !old(global_state).post_addresses@.contains(post_address),
        r is Ok <==> blog_post.author == caller && old(global_state).post_addresses@.contains(
            post_address,
        ),
        r is Err ==> *final(global_state) == *old(global_state),
        r is Ok ==> final(global_state).total_posts == old(global_state).total_posts - 1
            && removed_first(
            old(global_state).post_addresses@,
            final(global_state).post_addresses@,
            post_address,
        ),
{
    if blog_post.author != caller {
        return Err(BlogError::Unauthorized);
    }
    match find_address(&global_state.post_addresses, post_address) {
        Some(pos) => {
            global_state.post_addresses.remove(pos);
            global_state.total_posts = global_state.total_posts - 1;
            Ok(())
        },
        None => Err(BlogError::PostNotFound),
    }
}

/// Reads the directory: the current count and the full address list, in
/// insertion order.  No mutation, no authorization.
pub fn list_posts(global_state: &GlobalState) -> (r: (u64, Vec<Address>))
    ensures
        r.0 == global_state.total_posts,
        r.1@ == global_state.post_addresses@,
{
    let mut addresses: Vec<Address> = Vec::new();
    let mut i: usize = 0;
    while i < global_state.post_addresses.len()
        invariant
            i <= global_state.post_addresses@.len(),
            addresses@.len() == i,
            forall|j: int| 0 <= j < i ==> addresses@[j] == global_state.post_addresses@[j],
        decreases global_state.post_addresses@.len() - i,
    {
        addresses.push(global_state.post_addresses[i]);
        i = i + 1;
    }
    proof {
        assert(addresses@ =~= global_state.post_addresses@);
    }
    (global_state.total_posts, addresses)
}

/// Linear scan for the first occurrence of an address, the way the
/// directory is searched during deletion.
fn find_address(addresses: &Vec<Address>, target: Address) -> (r: Option<usize>)
    ensures
        match r {
            Some(i) => i < addresses@.len() && addresses@[i as int] == target && forall|j: int|
                0 <= j < i ==> addresses@[j] != target,
            None => !addresses@.contains(target),
        },
{
    let mut i: usize = 0;
    while i < addresses.len()
        invariant
            i <= addresses@.len(),
            forall|j: int| 0 <= j < i ==> addresses@[j] != target,
        decreases addresses@.len() - i,
    {
        if addresses[i] == target {
            return Some(i);
        }
        i = i + 1;
    }
    None
}

} // verus!
