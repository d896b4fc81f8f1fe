//! The ledger: the store of records that the runtime persists between
//! operations, modeled so that whole-system invariants can be stated and
//! proved.
//!
//! Each method runs one operation as one atomic unit, the way the
//! runtime does: it binds the records the operation declares, performs
//! the structural checks (record creation, ownership binding), calls the
//! handler, and keeps every mutation or none.  The caller identity, the
//! record address and the clock reading arrive as plain values; deriving
//! the address from the title and the author, verifying signatures and
//! reading the clock belong to the surrounding runtime.

use vstd::prelude::*;

use crate::error::BlogError;
use crate::instructions;
use crate::state::Address;
use crate::state::BlogPost;
use crate::state::GlobalState;
use crate::state::Identity;
use crate::state::distinct_addresses;
use crate::state::removed_first;

verus! {

/// One stored post record together with the address it lives at.
pub struct PostEntry {
    /// Where the record lives; fixed at creation (edits do not move it).
    pub address: Address,
    /// The record itself.
    pub post: BlogPost,
}

/// The whole persistent state: the singleton directory and every live
/// post record.
pub struct Ledger {
    /// Whether the singleton directory has been created yet.
    pub initialized: bool,
    /// The directory record; all zero until `initialize` runs.
    pub directory: GlobalState,
    /// The live post records, kept in the directory's insertion order.
    pub posts: Vec<PostEntry>,
}

/// Nothing moved: `post` holds the same directory, records and
/// initialization flag as `pre`.  Every failed operation leaves the
/// ledger in this relation to its pre-state.
pub open spec fn state_unchanged(pre: Ledger, post: Ledger) -> bool {
    &&& post.initialized == pre.initialized
    &&& post.directory == pre.directory
    &&& post.posts@ == pre.posts@
}

impl Ledger {
    /// The whole-system invariant: the directory is internally
    /// consistent, it lists exactly the addresses of the stored records
    /// in order, every stored record is well formed, and before
    /// initialization nothing is stored.
    pub open spec fn wf(&self) -> bool {
        &&& self.directory.wf()
        &&& self.posts@.len() == self.directory.post_addresses@.len()
        &&& (forall|i: int|
            0 <= i < self.posts@.len() ==> (#[trigger] self.posts@[i]).address
                == self.directory.post_addresses@[i])
        &&& (forall|i: int| 0 <= i < self.posts@.len() ==> (#[trigger] self.posts@[i]).post.wf())
        &&& (!self.initialized ==> self.directory.total_posts == 0 && self.posts@.len() == 0)
    }

    /// Whether a record lives at address `a`.
    pub open spec fn has_post(&self, a: Address) -> bool {
        exists|k: int| 0 <= k < self.posts@.len() && (#[trigger] self.posts@[k]).address == a
    }

    /// The position of the record stored at `a`; meaningful only when
    /// `has_post(a)` holds, and then unique in a well-formed ledger,
    /// since no address is stored twice.
    pub open spec fn spec_index_of(&self, a: Address) -> int {
        choose|k: int| 0 <= k < self.posts@.len() && (#[trigger] self.posts@[k]).address == a
    }

    /// The record stored at `a`; meaningful only when `has_post(a)`
    /// holds.
    pub open spec fn post_at(&self, a: Address) -> BlogPost {
        self.posts@[self.spec_index_of(a)].post
    }

    /// A fresh deployment: nothing stored, directory not yet created.
    pub fn new() -> (r: Ledger)
        ensures
            r.wf(),
            !r.initialized,
            r.posts@ == Seq::<PostEntry>::empty(),
            r.directory.total_posts == 0,
            r.directory.post_addresses@ == Seq::<Address>::empty(),
    {
        Ledger {
            initialized: false,
            directory: GlobalState { total_posts: 0, post_addresses: Vec::new() },
            posts: Vec::new(),
        }
    }

    /// Creates the singleton directory, exactly once per deployment.
    ///
    /// A second call fails `AlreadyInitialized` and moves nothing: the
    /// record layer refuses to create a record that already exists, and
    /// the whole operation is discarded.
    pub fn initialize(&mut self) -> (r: Result<(), BlogError>)
        requires
            old(self).wf(),
        ensures
            final(self).wf(),
            r == Err::<(), BlogError>(BlogError::AlreadyInitialized) <==> old(self).initialized,
            r is Ok <==> !old(self).initialized,
            r is Err ==> state_unchanged(*old(self), *final(self)),
            r is Ok ==> final(self).initialized && final(self).directory.total_posts == 0
                && final(self).directory.post_addresses@ == Seq::<Address>::empty()
                && final(self).posts@ == old(self).posts@,
    {
        if self.initialized {
            return Err(BlogError::AlreadyInitialized);
        }
        let r = instructions::initialize(&mut self.directory);
        match r {
            Ok(()) => {
                self.initialized = true;
                Ok(())
            },
            Err(e) => Err(e),
        }
    }

    /// Creates a post owned by `owner` at `post_address` (the address the
    /// runtime derived from the title and the owner) with the clock
    /// reading `now`.
    ///
    /// The record layer rejects a creation at an occupied address with
    /// `AlreadyExists` — under deterministic derivation, a title the
    /// owner already used.  The handler then rejects an empty title, an
    /// empty content, and a full directory, in that order.  Any failure
    /// moves nothing.  On success the record and its directory entry
    /// appear together: the address is appended in insertion order and
    /// the count grows by one.
    pub fn create_post(
        &mut self,
        owner: Identity,
        post_address: Address,
        title: String,
        content: String,
        now: i64,
    ) -> (r: Result<(), BlogError>)
        requires
            old(self).wf(),
            old(self).initialized,
            vstd::utf8::encode_utf8(title@).len() <= BlogPost::MAX_TITLE_BYTES,
            vstd::utf8::encode_utf8(content@).len() <= BlogPost::MAX_CONTENT_BYTES,
        ensures
            final(self).wf(),
            r == Err::<(), BlogError>(BlogError::AlreadyExists) <==> old(self).has_post(
                post_address,
            ),
            r == Err::<(), BlogError>(BlogError::InvalidTitle) <==> !old(self).has_post(
                post_address,
            ) && title@.len() == 0,
            r == Err::<(), BlogError>(BlogError::InvalidContent) <==> !old(self).has_post(
                post_address,
            ) && title@.len() > 0 && content@.len() == 0,
            r == Err::<(), BlogError>(BlogError::PostLimitReached) <==> !old(self).has_post(
                post_address,
            ) && title@.len() > 0 && content@.len() > 0
                && old(self).directory.total_posts as int >= GlobalState::MAX_POSTS as int,
            r is Ok <==> !old(self).has_post(post_address) && title@.len() > 0 && content@.len() > 0
                && (old(self).directory.total_posts as int) < GlobalState::MAX_POSTS as int,
            r is Err ==> state_unchanged(*old(self), *final(self)),
            r is Ok ==> ({
                let n = old(self).posts@.len() as int;
                &&& final(self).initialized == old(self).initialized
                &&& final(self).directory.total_posts == old(self).directory.total_posts + 1
                &&& final(self).directory.post_addresses@ == old(
                    self,
                ).directory.post_addresses@.push(post_address)
                &&& final(self).posts@.len() == n + 1
                &&& (forall|i: int| 0 <= i < n ==> final(self).posts@[i] == old(self).posts@[i])
                &&& final(self).posts@[n].address == post_address
                &&& final(self).posts@[n].post.author == owner
                &&& final(self).posts@[n].post.title@ == title@
                &&& final(self).posts@[n].post.content@ == content@
                &&& final(self).posts@[n].post.post_id == 0
                &&& final(self).posts@[n].post.timestamp == now
            }),
    {
        if find_post(&self.posts, post_address).is_some() {
            return Err(BlogError::AlreadyExists);
        }
        // The record layer allocates a zeroed record at the derived
        // address; the handler fills it or the whole unit is discarded.
        let mut post = BlogPost {
            author: Identity(0, 0, 0, 0),
            title: String::new(),
            content: String::new(),
            post_id: 0,
            timestamp: 0,
        };
        let r = instructions::create_post(
            &mut post,
            &mut self.directory,
            owner,
            post_address,
            title,
            content,
            now,
        );
        match r {
            Ok(()) => {
                proof {
                    assert forall|i: int| 0 <= i < old(self).directory.post_addresses@.len()
                        implies old(self).directory.post_addresses@[i] != post_address by {
                        assert(old(self).posts@[i].address == old(
                            self,
                        ).directory.post_addresses@[i]);
                    }
                }
                self.posts.push(PostEntry { address: post_address, post });
                Ok(())
            },
            Err(e) => Err(e),
        }
    }

    /// Edits the post stored at `post_address` on behalf of `caller`,
    /// with the clock reading `now`.
    ///
    /// The runtime binds the target record first: an address with no
    /// record fails `PostNotFound`, and a caller who is not the stored
    /// author fails `Unauthorized` before any handler logic runs.  The
    /// handler then rejects an empty title or content.  Any failure moves
    /// nothing.  On success the record holds the new title and content
    /// and the refreshed timestamp; its author, its address and the
    /// directory are untouched.
    pub fn edit_post(
        &mut self,
        post_address: Address,
        caller: Identity,
        title: String,
        content: String,
        now: i64,
    ) -> (r: Result<(), BlogError>)
        requires
            old(self).wf(),
            vstd::utf8::encode_utf8(title@).len() <= BlogPost::MAX_TITLE_BYTES,
            vstd::utf8::encode_utf8(content@).len() <= BlogPost::MAX_CONTENT_BYTES,
        ensures
            final(self).wf(),
            r == Err::<(), BlogError>(BlogError::PostNotFound) <==> !old(self).has_post(
                post_address,
            ),
            r == Err::<(), BlogError>(BlogError::Unauthorized) <==> old(self).has_post(
                post_address,
            ) && old(self).post_at(post_address).author != caller,
            r == Err::<(), BlogError>(BlogError::InvalidTitle) <==> old(self).has_post(post_address)
                && old(self).post_at(post_address).author == caller && title@.len() == 0,
            r == Err::<(), BlogError>(BlogError::InvalidContent) <==> old(self).has_post(
                post_address,
            ) && old(self).post_at(post_address).author == caller && title@.len() > 0
                && content@.len() == 0,
            r is Ok <==> old(self).has_post(post_address) && old(self).post_at(
                post_address,
            ).author == caller && title@.len() > 0 && content@.len() > 0,
            r is Err ==> state_unchanged(*old(self), *final(self)),
            r is Ok ==> ({
                let k = old(self).spec_index_of(post_address);
                &&& final(self).initialized == old(self).initialized
                &&& final(self).directory == old(self).directory
                &&& final(self).posts@.len() == old(self).posts@.len()
                &&& final(self).posts@[k].address == post_address
                &&& final(self).posts@[k].post.author == old(self).posts@[k].post.author
                &&& final(self).posts@[k].post.title@ == title@
                &&& final(self).posts@[k].post.content@ == content@
                &&& final(self).posts@[k].post.post_id == old(self).posts@[k].post.post_id
                &&& final(self).posts@[k].post.timestamp == now
                &&& (forall|j: int|
                    0 <= j < old(self).posts@.len() && j != k ==> final(self).posts@[j] == old(
                        self,
                    ).posts@[j])
            }),
    {
        let idx = match find_post(&self.posts, post_address) {
            None => return Err(BlogError::PostNotFound),
            Some(i) => i,
        };
        proof {
            lemma_found_index_is_spec_index(*self, post_address, idx as int);
        }
        if self.posts[idx].post.author != caller {
            return Err(BlogError::Unauthorized);
        }
        let mut entry = self.posts.remove(idx);
        let r = instructions::edit_post(&mut entry.post, title, content, now);
        self.posts.insert(idx, entry);
        match r {
            Ok(()) => {
                proof {
                    assert forall|j: int|
                        0 <= j < self.posts@.len() implies (#[trigger] self.posts@[j]).address
                        == old(self).posts@[j].address by {}
                }
                Ok(())
            },
            Err(e) => {
                proof {
                    assert(self.posts@ =~= old(self).posts@);
                }
                Err(e)
            },
        }
    }

    /// Deletes the post stored at `post_address` on behalf of `caller`.
    ///
    /// The runtime binds the target record first: an address with no
    /// record fails `PostNotFound`.  The handler rejects a caller who is
    /// not the stored author with `Unauthorized`, then unregisters the
    /// address from the directory; the record is destroyed in the same
    /// atomic unit, so any failure keeps both the record and the
    /// directory as they were.  On success the address leaves the
    /// directory order-preservingly, the count shrinks by one, and the
    /// record is gone.
    pub fn delete_post(&mut self, post_address: Address, caller: Identity) -> (r: Result<
        (),
        BlogError,
    >)
        requires
            old(self).wf(),
        ensures
            final(self).wf(),
            r == Err::<(), BlogError>(BlogError::PostNotFound) <==> !old(self).has_post(
                post_address,
            ),
            r == Err::<(), BlogError>(BlogError::Unauthorized) <==> old(self).has_post(
                post_address,
            ) && old(self).post_at(post_address).author != caller,
            r is Ok <==> old(self).has_post(post_address) && old(self).post_at(
                post_address,
            ).author == caller,
            r is Err ==> state_unchanged(*old(self), *final(self)),
            r is Ok ==> ({
                let k = old(self).spec_index_of(post_address);
                &&& final(self).initialized == old(self).initialized
                &&& final(self).directory.total_posts == old(self).directory.total_posts - 1
                &&& final(self).directory.post_addresses@ == old(
                    self,
                ).directory.post_addresses@.remove(k)
                &&& final(self).posts@ == old(self).posts@.remove(k)
            }),
    {
        let idx = match find_post(&self.posts, post_address) {
            None => return Err(BlogError::PostNotFound),
            Some(i) => i,
        };
        proof {
            lemma_found_index_is_spec_index(*self, post_address, idx as int);
        }
        let r = instructions::delete_post(
            &self.posts[idx].post,
            post_address,
            &mut self.directory,
            caller,
        );
        match r {
            Ok(()) => {
                proof {
                    let pre = old(self).directory.post_addresses@;
                    let cur = self.directory.post_addresses@;
                    assert(removed_first(pre, cur, post_address));
                    let k = choose|k: int|
                        0 <= k < pre.len() && pre[k] == post_address && (forall|j: int|
                            0 <= j < k ==> pre[j] != post_address) && cur == pre.remove(k);
                    assert(pre[idx as int] == post_address);
                    assert(k == idx as int);
                }
                self.posts.remove(idx);
                proof {
                    let i = idx as int;
                    let pre = *old(self);
                    assert forall|m: int|
                        0 <= m < self.posts@.len() implies (#[trigger] self.posts@[m]).address
                        == self.directory.post_addresses@[m] && self.posts@[m].post.wf() by {
                        if m < i {
                            assert(self.posts@[m] == pre.posts@[m]);
                        } else {
                            assert(self.posts@[m] == pre.posts@[m + 1]);
                        }
                    }
                    assert(distinct_addresses(self.directory.post_addresses@)) by {
                        assert forall|a: int, b: int|
                            0 <= a < b < self.directory.post_addresses@.len() implies self
                            .directory.post_addresses@[a] != self.directory.post_addresses@[b] by {
                            let pa = pre.directory.post_addresses@;
                            if b < i {
                            } else if a < i {
                                assert(self.directory.post_addresses@[a] == pa[a]);
                                assert(self.directory.post_addresses@[b] == pa[b + 1]);
                            } else {
                                assert(self.directory.post_addresses@[a] == pa[a + 1]);
                                assert(self.directory.post_addresses@[b] == pa[b + 1]);
                            }
                        }
                    }
                }
                Ok(())
            },
            Err(e) => Err(e),
        }
    }

    /// Reads the directory: the current count and the address list in
    /// insertion order, the enumeration stream that diagnostics print.
    pub fn list_posts(&self) -> (r: (u64, Vec<Address>))
        ensures
            r.0 == self.directory.total_posts,
            r.1@ == self.directory.post_addresses@,
    {
        instructions::list_posts(&self.directory)
    }
}

/// In every well-formed ledger state the directory's stored count equals
/// the number of listed addresses and never exceeds the capacity bound.
/// Every reachable state is well formed — `new` establishes `wf` and
/// each operation preserves it — so this holds of all reachable states.
pub proof fn lemma_directory_consistent(l: Ledger)
    requires
        l.wf(),
    ensures
        l.directory.total_posts == l.directory.post_addresses@.len(),
        l.directory.total_posts as int <= GlobalState::MAX_POSTS as int,
{
}

/// In every well-formed ledger state, every address the directory lists
/// resolves to a stored record whose address matches: the record at the
/// same position carries exactly that address, and no address is listed
/// twice.  As with `lemma_directory_consistent`, this covers all
/// reachable states.
pub proof fn lemma_addresses_resolve(l: Ledger)
    requires
        l.wf(),
    ensures
        l.posts@.len() == l.directory.post_addresses@.len(),
        forall|i: int|
            0 <= i < l.directory.post_addresses@.len() ==> (#[trigger] l.posts@[i]).address
                == l.directory.post_addresses@[i] && l.has_post(l.directory.post_addresses@[i]),
        distinct_addresses(l.directory.post_addresses@),
{
    assert forall|i: int|
        0 <= i < l.directory.post_addresses@.len() implies (#[trigger] l.posts@[i]).address
        == l.directory.post_addresses@[i] && l.has_post(l.directory.post_addresses@[i]) by {
        assert(l.posts@[i].address == l.directory.post_addresses@[i]);
    }
}

/// In a well-formed ledger a stored address determines its position: no
/// address is stored twice, so the index a scan finds is the one
/// `spec_index_of` names.
proof fn lemma_found_index_is_spec_index(l: Ledger, a: Address, idx: int)
    requires
        l.wf(),
        0 <= idx < l.posts@.len(),
        l.posts@[idx].address == a,
    ensures
        l.has_post(a),
        l.spec_index_of(a) == idx,
        l.post_at(a) == l.posts@[idx].post,
{
    assert(l.has_post(a));
    let k = l.spec_index_of(a);
    assert(0 <= k < l.posts@.len() && l.posts@[k].address == a);
    assert(l.directory.post_addresses@[k] == a);
    assert(l.directory.post_addresses@[idx] == a);
}

/// Linear scan for the record stored at `target`: how the runtime binds
/// an operation's target account to an address.
fn find_post(posts: &Vec<PostEntry>, target: Address) -> (r: Option<usize>)
    ensures
        match r {
            Some(i) => i < posts@.len() && posts@[i as int].address == target && forall|j: int|
                0 <= j < i ==> (#[trigger] posts@[j]).address != target,
            None => forall|j: int|
                0 <= j < posts@.len() ==> (#[trigger] posts@[j]).address != target,
        },
{
    let mut i: usize = 0;
    while i < posts.len()
        invariant
            i <= posts@.len(),
            forall|j: int| 0 <= j < i ==> (#[trigger] posts@[j]).address != target,
        decreases posts@.len() - i,
    {
        if posts[i].address == target {
            return Some(i);
        }
        i = i + 1;
    }
    None
}

} // verus!
