//! Sequential ledger of posts. The store assigns each appended post a
//! monotonically increasing identifier starting at 1, holds at most
//! `POST_CAPACITY` posts, and serves point lookups by identifier as well as a
//! most-recent-first slice query.

use vstd::prelude::*;

verus! {

/// Hard capacity ceiling of one ledger account.
pub const POST_CAPACITY: usize = 100;

/// One ledger record: an identifier assigned by the store, a set of bounded
/// opaque string fields, and a timestamp supplied by the caller.
#[derive(Debug, PartialEq)]
pub struct Post {
    pub post_id: u64,
    pub user_address: String,
    pub ipfs_hash: String,
    pub image_hash: String,
    pub content: String,
    pub timestamp: u64,
    pub world_id: String,
}

impl Post {
    /// Serialized byte budget of one post: each bounded string counts its
    /// declared maximum width, never its actual length.
    pub const SIZE: usize = 8 + // post_id
        32 + // user_address
        32 + // ipfs_hash
        32 + // image_hash
        200 + // content
        8 + // timestamp
        32; // world_id
}

impl Clone for Post {
    fn clone(&self) -> (r: Self)
        ensures
            r == *self,
    {
        Post {
            post_id: self.post_id,
            user_address: self.user_address.clone(),
            ipfs_hash: self.ipfs_hash.clone(),
            image_hash: self.image_hash.clone(),
            content: self.content.clone(),
            timestamp: self.timestamp,
            world_id: self.world_id.clone(),
        }
    }
}

/// Notification handed to the caller after a successful append, carrying the
/// full record that was committed.
#[derive(Debug, PartialEq)]
pub struct PostCreated {
    pub post_id: u64,
    pub user_address: String,
    pub ipfs_hash: String,
    pub image_hash: String,
    pub content: String,
    pub timestamp: u64,
    pub world_id: String,
}

#[derive(Clone, Copy, Debug, PartialEq, Eq)]
pub enum ErrorCode {
    PostNotFound,
    TooManyPosts,
}

/// The ledger store: an insertion-ordered sequence of posts plus the next
/// identifier to assign.
pub struct PostAccount {
    pub posts: Vec<Post>,
    pub next_post_id: u64,
}

/// The post a successful append constructs from its inputs and the assigned
/// identifier.
pub open spec fn spec_post(
    post_id: u64,
    user_address: String,
    ipfs_hash: String,
    image_hash: String,
    content: String,
    timestamp: u64,
    world_id: String,
) -> Post {
    Post { post_id, user_address, ipfs_hash, image_hash, content, timestamp, world_id }
}

/// The notification a successful append reports.
pub open spec fn spec_post_created(
    post_id: u64,
    user_address: String,
    ipfs_hash: String,
    image_hash: String,
    content: String,
    timestamp: u64,
    world_id: String,
) -> PostCreated {
    PostCreated { post_id, user_address, ipfs_hash, image_hash, content, timestamp, world_id }
}

/// Some stored post carries the given identifier.
pub open spec fn has_post(s: Seq<Post>, post_id: u64) -> bool {
    exists|i: int| 0 <= i < s.len() && (#[trigger] s[i]).post_id == post_id
}

/// Exact outcome of a point lookup: `Ok` holds the first stored post with the
/// given identifier, and `PostNotFound` comes back exactly when no post
/// carries it.
pub open spec fn lookup_post_result(s: Seq<Post>, post_id: u64, r: Result<Post, ErrorCode>) -> bool {
    &&& (r is Ok <==> has_post(s, post_id))
    &&& (!has_post(s, post_id) ==> r == Err::<Post, ErrorCode>(ErrorCode::PostNotFound))
    &&& forall|i: int|
        0 <= i < s.len() && (#[trigger] s[i]).post_id == post_id && (forall|j: int|
            0 <= j < i ==> (#[trigger] s[j]).post_id != post_id) ==> r == Ok::<
            Post,
            ErrorCode,
        >(s[i])
}

impl PostAccount {
    /// Serialized byte budget of one ledger account: discriminator,
    /// bookkeeping scalar, length prefix, and full capacity worth of posts.
    pub const MAX_SIZE: usize = 8 + // discriminator
        8 + // next_post_id
        4 + // vec length
        100 * Post::SIZE; // 100 posts max

    /// Identifiers run 1, 2, ... in insertion order.
    pub open spec fn ids_sequential(self) -> bool {
        forall|i: int|
            0 <= i < self.posts@.len() ==> (#[trigger] self.posts@[i]).post_id == i + 1
    }

    /// Store invariant: the capacity ceiling holds, identifiers run 1..N in
    /// order, and the next identifier to assign follows the last one stored.
    pub open spec fn wf(self) -> bool {
        &&& self.posts@.len() <= POST_CAPACITY
        &&& self.ids_sequential()
        &&& self.next_post_id == self.posts@.len() + 1
    }

    /// Bytes the account occupies once serialized: fixed header and
    /// bookkeeping plus one fixed-width slot per stored post.
    pub open spec fn spec_serialized_size(self) -> int {
        8 + 8 + 4 + self.posts@.len() * (Post::SIZE as int)
    }

    /// Byte-budget law: a well-formed ledger, however full, serializes within
    /// the fixed budget reserved for it at allocation.
    pub proof fn lemma_size_within_budget(self)
        requires
            self.wf(),
        ensures
            self.spec_serialized_size() <= PostAccount::MAX_SIZE,
    {
        assert(self.posts@.len() * (Post::SIZE as int) <= 100 * (Post::SIZE as int))
            by (nonlinear_arith)
            requires
                self.posts@.len() <= 100,
        ;
    }

    /// Bounded append. Fails with `TooManyPosts`, changing nothing, exactly
    /// when the ledger is full; otherwise pushes the post and leaves the
    /// bookkeeping counter untouched.
    pub fn add_post(&mut self, post: Post) -> (r: Result<(), ErrorCode>)
        ensures
            old(self).posts@.len() < POST_CAPACITY ==> {
                &&& r == Ok::<(), ErrorCode>(())
                &&& final(self).posts@ == old(self).posts@.push(post)
                &&& final(self).next_post_id == old(self).next_post_id
            },
            old(self).posts@.len() >= POST_CAPACITY ==> {
                &&& r == Err::<(), ErrorCode>(ErrorCode::TooManyPosts)
                &&& *final(self) == *old(self)
            },
    {
        if self.posts.len() < POST_CAPACITY {
            self.posts.push(post);
            Ok(())
        } else {
            Err(ErrorCode::TooManyPosts)
        }
    }

    /// Point lookup by identifier: linear scan for the first matching post.
    pub fn get_post(&self, post_id: u64) -> (r: Result<Post, ErrorCode>)
        ensures
            lookup_post_result(self.posts@, post_id, r),
            self.ids_sequential() && 1 <= post_id <= self.posts@.len() ==> r == Ok::<
                Post,
                ErrorCode,
            >(self.posts@[post_id - 1]),
    {
        let n = self.posts.len();
        let mut i: usize = 0;
        while i < n
            invariant
                n == self.posts@.len(),
                i <= n,
                forall|j: int| 0 <= j < i ==> (#[trigger] self.posts@[j]).post_id != post_id,
            decreases n - i,
        {
            if self.posts[i].post_id == post_id {
                return Ok(self.posts[i].clone());
            }
            i += 1;
        }
        Err(ErrorCode::PostNotFound)
    }

    /// Ordered slice query: up to `limit` posts, most recently appended
    /// first. A limit beyond the stored count returns everything; there is no
    /// error path. On a well-formed ledger of N posts the returned
    /// identifiers are N, N-1, ... descending.
    pub fn get_posts_descending(&self, limit: u8) -> (r: Result<Vec<Post>, ErrorCode>)
        ensures
            r is Ok,
            r matches Ok(out) ==> {
                &&& out@.len() == (if limit <= self.posts@.len() {
                    limit as int
                } else {
                    self.posts@.len() as int
                })
                &&& forall|i: int|
                    0 <= i < out@.len() ==> out@[i] == self.posts@[self.posts@.len() - 1 - i]
            },
            r matches Ok(out) ==> (self.ids_sequential() ==> forall|i: int|
                0 <= i < out@.len() ==> (#[trigger] out@[i]).post_id == self.posts@.len() - i),
    {
        let n = self.posts.len();
        let count = if (limit as usize) < n {
            limit as usize
        } else {
            n
        };
        let mut out: Vec<Post> = Vec::new();
        let mut i: usize = 0;
        while i < count
            invariant
                count <= n,
                n == self.posts@.len(),
                i <= count,
                out@.len() == i,
                forall|j: int| 0 <= j < i ==> out@[j] == self.posts@[n - 1 - j],
            decreases count - i,
        {
            out.push(self.posts[n - 1 - i].clone());
            i += 1;
        }
        Ok(out)
    }
}

/// Create a fresh ledger: no posts stored, first identifier to assign is 1.
pub fn initialize() -> (account: PostAccount)
    ensures
        account.posts@.len() == 0,
        account.next_post_id == 1,
        account.wf(),
{
    PostAccount { posts: Vec::new(), next_post_id: 1 }
}

/// Append a post built from the caller's fields. The store assigns the next
/// identifier and increments it atomically with the append; on a full ledger
/// the call fails with `TooManyPosts` and changes nothing. Returns the
/// notification describing the committed record.
pub fn create_post(
    account: &mut PostAccount,
    user_address: String,
    ipfs_hash: String,
    image_hash: String,
    content: String,
    world_id: String,
    timestamp: u64,
) -> (r: Result<PostCreated, ErrorCode>)
    requires
        old(account).wf(),
    ensures
        final(account).wf(),
        old(account).posts@.len() < POST_CAPACITY ==> {
            &&& r == Ok::<PostCreated, ErrorCode>(
                spec_post_created(
                    old(account).next_post_id,
                    user_address,
                    ipfs_hash,
                    image_hash,
                    content,
                    timestamp,
                    world_id,
                ),
            )
            &&& final(account).posts@ == old(account).posts@.push(
                spec_post(
                    old(account).next_post_id,
                    user_address,
                    ipfs_hash,
                    image_hash,
                    content,
                    timestamp,
                    world_id,
                ),
            )
            &&& final(account).next_post_id == old(account).next_post_id + 1
        },
        old(account).posts@.len() >= POST_CAPACITY ==> {
            &&& r == Err::<PostCreated, ErrorCode>(ErrorCode::TooManyPosts)
            &&& *final(account) == *old(account)
        },
{
    let post_id = account.next_post_id;
    let post = Post {
        post_id,
        user_address: user_address.clone(),
        ipfs_hash: ipfs_hash.clone(),
        image_hash: image_hash.clone(),
        content: content.clone(),
        timestamp,
        world_id: world_id.clone(),
    };
    match account.add_post(post) {
        Ok(()) => {},
        Err(e) => {
            return Err(e);
        },
    }
    account.next_post_id = account.next_post_id + 1;
    Ok(PostCreated { post_id, user_address, ipfs_hash, image_hash, content, timestamp, world_id })
}

/// Point lookup on a ledger account.
pub fn get_post(account: &PostAccount, post_id: u64) -> (r: Result<Post, ErrorCode>)
    ensures
        lookup_post_result(account.posts@, post_id, r),
        account.ids_sequential() && 1 <= post_id <= account.posts@.len() ==> r == Ok::<
            Post,
            ErrorCode,
        >(account.posts@[post_id - 1]),
{
    account.get_post(post_id)
}

/// Most-recent-first slice of a ledger account.
pub fn get_posts_descending(account: &PostAccount, limit: u8) -> (r: Result<Vec<Post>, ErrorCode>)
    ensures
        r is Ok,
        r matches Ok(out) ==> {
            &&& out@.len() == (if limit <= account.posts@.len() {
                limit as int
            } else {
                account.posts@.len() as int
            })
            &&& forall|i: int|
                0 <= i < out@.len() ==> out@[i] == account.posts@[account.posts@.len() - 1 - i]
        },
        r matches Ok(out) ==> (account.ids_sequential() ==> forall|i: int|
            0 <= i < out@.len() ==> (#[trigger] out@[i]).post_id == account.posts@.len() - i),
{
    account.get_posts_descending(limit)
}

/// Monotonicity law: a well-formed ledger of N posts stores exactly the
/// identifiers 1, 2, ..., N in append order; failed appends leave the store
/// unchanged, so interleaved failures never disturb this numbering.
pub proof fn lemma_ledger_identifiers(account: PostAccount)
    requires
        account.wf(),
    ensures
        account.posts@.map(|i: int, p: Post| p.post_id) =~= Seq::new(
            account.posts@.len(),
            |i: int| (i + 1) as u64,
        ),
{
}

} // verus!
