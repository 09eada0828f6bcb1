//! Keyed map store of originality flags. Records are keyed by an opaque
//! image hash supplied by the caller; a write replaces the record with the
//! same hash in place or, below the capacity ceiling, appends a new one.

use vstd::prelude::*;

verus! {

/// Hard capacity ceiling of one originality account.
pub const ORIGINALITY_CAPACITY: usize = 1000;

/// One stored record: the image hash it is keyed by and the originality flag.
#[derive(Debug, PartialEq)]
pub struct OriginalityInfo {
    pub image_hash: String,
    pub originality: bool,
}

impl OriginalityInfo {
    /// Serialized byte budget of one record: the bounded hash counts its
    /// declared maximum width, never its actual length.
    pub const SIZE: usize = 32 + // image_hash
        1; // originality (bool)
}

impl Clone for OriginalityInfo {
    fn clone(&self) -> (r: Self)
        ensures
            r == *self,
    {
        OriginalityInfo { image_hash: self.image_hash.clone(), originality: self.originality }
    }
}

/// Notification handed to the caller after a successful write, carrying the
/// record that was committed.
#[derive(Debug, PartialEq)]
pub struct OriginalityStored {
    pub image_hash: String,
    pub originality: bool,
}

#[derive(Clone, Copy, Debug, PartialEq, Eq)]
pub enum ErrorCode {
    ImageNotFound,
    TooManyImages,
}

/// The map store: an insertion-ordered sequence of records plus a running
/// count of how many are stored.
pub struct OriginalityAccount {
    pub originality_infos: Vec<OriginalityInfo>,
    pub image_count: u32,
}

/// The record a successful write constructs from its inputs.
pub open spec fn spec_originality_info(image_hash: String, originality: bool) -> OriginalityInfo {
    OriginalityInfo { image_hash, originality }
}

/// The notification a successful write reports.
pub open spec fn spec_originality_stored(image_hash: String, originality: bool) -> OriginalityStored {
    OriginalityStored { image_hash, originality }
}

/// Some stored record is keyed by the given hash.
pub open spec fn has_originality(s: Seq<OriginalityInfo>, hash: Seq<char>) -> bool {
    exists|i: int| 0 <= i < s.len() && (#[trigger] s[i]).image_hash@ == hash
}

/// No two stored records share a hash.
pub open spec fn unique_originality_hashes(s: Seq<OriginalityInfo>) -> bool {
    forall|i: int, j: int|
        0 <= i < j < s.len() ==> (#[trigger] s[i]).image_hash@ != (#[trigger] s[j]).image_hash@
}

/// How a successful write turns the stored sequence `pre` into `post`: if
/// `info`'s hash is already present, every record carrying it is overwritten
/// in place (under `unique_originality_hashes` there is exactly one) and all
/// others keep their position and value; otherwise `info` is appended.
pub open spec fn originality_upserted(
    pre: Seq<OriginalityInfo>,
    post: Seq<OriginalityInfo>,
    info: OriginalityInfo,
) -> bool {
    if has_originality(pre, info.image_hash@) {
        &&& post.len() == pre.len()
        &&& forall|i: int|
            0 <= i < pre.len() ==> #[trigger] post[i] == (if pre[i].image_hash@
                == info.image_hash@ {
                info
            } else {
                pre[i]
            })
    } else {
        post == pre.push(info)
    }
}

/// Exact outcome of a flag lookup: `Ok` holds the flag of the first
/// record keyed by the hash, and `ImageNotFound` comes back exactly when the
/// hash is absent.
pub open spec fn lookup_originality_result(
    s: Seq<OriginalityInfo>,
    hash: Seq<char>,
    r: Result<bool, ErrorCode>,
) -> bool {
    &&& (r is Ok <==> has_originality(s, hash))
    &&& (!has_originality(s, hash) ==> r == Err::<bool, ErrorCode>(ErrorCode::ImageNotFound))
    &&& forall|i: int|
        0 <= i < s.len() && (#[trigger] s[i]).image_hash@ == hash && (forall|j: int|
            0 <= j < i ==> (#[trigger] s[j]).image_hash@ != hash) ==> r == Ok::<
            bool,
            ErrorCode,
        >(s[i].originality)
}

impl OriginalityAccount {
    /// Serialized byte budget of one originality account: discriminator,
    /// bookkeeping scalar, length prefix, and full capacity worth of records.
    pub const MAX_SIZE: usize = 8 + // discriminator
        4 + // image_count
        4 + // vec length
        1000 * OriginalityInfo::SIZE; // 1000 images max

    /// Store invariant: the count tracks the stored sequence, the capacity
    /// ceiling holds, and at most one record exists per hash.
    pub open spec fn wf(self) -> bool {
        &&& self.originality_infos@.len() == self.image_count
        &&& self.image_count <= ORIGINALITY_CAPACITY
        &&& unique_originality_hashes(self.originality_infos@)
    }

    /// Bytes the account occupies once serialized: fixed header and
    /// bookkeeping plus one fixed-width slot per stored record.
    pub open spec fn spec_serialized_size(self) -> int {
        8 + 4 + 4 + self.originality_infos@.len() * (OriginalityInfo::SIZE as int)
    }

    /// Byte-budget law: a well-formed account, however full, serializes
    /// within the fixed budget reserved for it at allocation.
    pub proof fn lemma_size_within_budget(self)
        requires
            self.wf(),
        ensures
            self.spec_serialized_size() <= OriginalityAccount::MAX_SIZE,
    {
        assert(self.originality_infos@.len() * (OriginalityInfo::SIZE as int) <= 1000 * (
        OriginalityInfo::SIZE as int)) by (nonlinear_arith)
            requires
                self.originality_infos@.len() <= 1000,
        ;
    }

    /// Index of the first record keyed by the given hash, if any.
    fn find_index(&self, image_hash: &String) -> (r: Option<usize>)
        ensures
            match r {
                Some(i) => 0 <= i < self.originality_infos@.len()
                    && self.originality_infos@[i as int].image_hash@ == image_hash@ && forall|
                    j: int,
                |
                    0 <= j < i ==> (#[trigger] self.originality_infos@[j]).image_hash@
                        != image_hash@,
                None => !has_originality(self.originality_infos@, image_hash@),
            },
    {
        let n = self.originality_infos.len();
        let mut i: usize = 0;
        while i < n
            invariant
                n == self.originality_infos@.len(),
                i <= n,
                forall|j: int|
                    0 <= j < i ==> (#[trigger] self.originality_infos@[j]).image_hash@
                        != image_hash@,
            decreases n - i,
        {
            if self.originality_infos[i].image_hash == *image_hash {
                return Some(i);
            }
            i += 1;
        }
        None
    }

    /// Upsert. The stored sequence is searched for the record's hash: a match
    /// is overwritten in place with the count unchanged, while a new hash is
    /// appended and counted, failing with `TooManyImages` — and changing
    /// nothing — exactly when the store is already full.
    pub fn add_originality_info(&mut self, info: OriginalityInfo) -> (r: Result<(), ErrorCode>)
        requires
            old(self).wf(),
        ensures
            final(self).wf(),
            has_originality(old(self).originality_infos@, info.image_hash@) || old(self).image_count
                < ORIGINALITY_CAPACITY ==> {
                &&& r == Ok::<(), ErrorCode>(())
                &&& originality_upserted(
                    old(self).originality_infos@,
                    final(self).originality_infos@,
                    info,
                )
                &&& final(self).image_count == old(self).image_count + (if has_originality(
                    old(self).originality_infos@,
                    info.image_hash@,
                ) {
                    0int
                } else {
                    1int
                })
            },
            !has_originality(old(self).originality_infos@, info.image_hash@) && old(self).image_count
                >= ORIGINALITY_CAPACITY ==> {
                &&& r == Err::<(), ErrorCode>(ErrorCode::TooManyImages)
                &&& *final(self) == *old(self)
            },
    {
        match self.find_index(&info.image_hash) {
            Some(i) => {
                self.originality_infos[i] = info;
                Ok(())
            },
            None => {
                if self.image_count < 1000 {
                    self.originality_infos.push(info);
                    self.image_count = self.image_count + 1;
                    Ok(())
                } else {
                    Err(ErrorCode::TooManyImages)
                }
            },
        }
    }

    /// Flag lookup by hash: linear scan for the first matching record.
    pub fn get_originality(&self, image_hash: &String) -> (r: Result<bool, ErrorCode>)
        ensures
            lookup_originality_result(self.originality_infos@, image_hash@, r),
    {
        match self.find_index(image_hash) {
            Some(i) => Ok(self.originality_infos[i].originality),
            None => Err(ErrorCode::ImageNotFound),
        }
    }
}

/// Create a fresh originality store: no records, count zero.
pub fn initialize() -> (account: OriginalityAccount)
    ensures
        account.originality_infos@.len() == 0,
        account.image_count == 0,
        account.wf(),
{
    OriginalityAccount { originality_infos: Vec::new(), image_count: 0 }
}

/// Store an originality flag, upserted by hash as `add_originality_info`
/// describes. Returns the notification describing the committed record.
pub fn store_originality(
    account: &mut OriginalityAccount,
    image_hash: String,
    originality: bool,
) -> (r: Result<OriginalityStored, ErrorCode>)
    requires
        old(account).wf(),
    ensures
        final(account).wf(),
        has_originality(old(account).originality_infos@, image_hash@) || old(account).image_count
            < ORIGINALITY_CAPACITY ==> {
            &&& r == Ok::<OriginalityStored, ErrorCode>(
                spec_originality_stored(image_hash, originality),
            )
            &&& originality_upserted(
                old(account).originality_infos@,
                final(account).originality_infos@,
                spec_originality_info(image_hash, originality),
            )
            &&& final(account).image_count == old(account).image_count + (if has_originality(
                old(account).originality_infos@,
                image_hash@,
            ) {
                0int
            } else {
                1int
            })
        },
        !has_originality(old(account).originality_infos@, image_hash@) && old(account).image_count
            >= ORIGINALITY_CAPACITY ==> {
            &&& r == Err::<OriginalityStored, ErrorCode>(ErrorCode::TooManyImages)
            &&& *final(account) == *old(account)
        },
{
    let info = OriginalityInfo { image_hash: image_hash.clone(), originality };
    match account.add_originality_info(info) {
        Ok(()) => Ok(OriginalityStored { image_hash, originality }),
        Err(e) => Err(e),
    }
}

/// Flag lookup on an originality account.
pub fn get_originality(account: &OriginalityAccount, image_hash: String) -> (r: Result<
    bool,
    ErrorCode,
>)
    ensures
        lookup_originality_result(account.originality_infos@, image_hash@, r),
{
    account.get_originality(&image_hash)
}

/// A successful write keeps hashes unique: overwriting in place changes no
/// hash, and an append introduces a hash that was absent.
pub proof fn lemma_originality_upsert_keeps_unique(
    pre: Seq<OriginalityInfo>,
    post: Seq<OriginalityInfo>,
    info: OriginalityInfo,
)
    requires
        unique_originality_hashes(pre),
        originality_upserted(pre, post, info),
    ensures
        unique_originality_hashes(post),
{
    if has_originality(pre, info.image_hash@) {
        assert forall|i: int, j: int| 0 <= i < j < post.len() implies (#[trigger] post[i]).image_hash@
            != (#[trigger] post[j]).image_hash@ by {
            assert(post[i].image_hash@ == pre[i].image_hash@);
            assert(post[j].image_hash@ == pre[j].image_hash@);
        }
    }
}

/// Lookup law: after a successful write of `info` to a well-formed store,
/// exactly the records keyed by `info`'s hash equal `info`, and at least one
/// such record exists — so a lookup of that hash returns `info`'s flag.
pub proof fn lemma_store_then_lookup(
    pre: Seq<OriginalityInfo>,
    post: Seq<OriginalityInfo>,
    info: OriginalityInfo,
)
    requires
        unique_originality_hashes(pre),
        originality_upserted(pre, post, info),
    ensures
        has_originality(post, info.image_hash@),
        forall|i: int|
            0 <= i < post.len() && (#[trigger] post[i]).image_hash@ == info.image_hash@ ==> post[i]
                == info,
{
    if has_originality(pre, info.image_hash@) {
        let w = choose|i: int| 0 <= i < pre.len() && (#[trigger] pre[i]).image_hash@
            == info.image_hash@;
        assert(post[w] == info);
    } else {
        assert(post[post.len() - 1] == info);
        assert forall|i: int|
            0 <= i < post.len() && (#[trigger] post[i]).image_hash@
                == info.image_hash@ implies post[i] == info by {
            if i < post.len() - 1 {
                assert(pre[i].image_hash@ == info.image_hash@);
            }
        }
    }
}

/// Replace law: writing hash `h` twice leaves exactly one record for `h`,
/// holding the second flag, and the second write changes neither the
/// record count nor any other record.
pub proof fn lemma_second_store_replaces(
    s0: Seq<OriginalityInfo>,
    s1: Seq<OriginalityInfo>,
    s2: Seq<OriginalityInfo>,
    info1: OriginalityInfo,
    info2: OriginalityInfo,
)
    requires
        unique_originality_hashes(s0),
        originality_upserted(s0, s1, info1),
        originality_upserted(s1, s2, info2),
        info1.image_hash@ == info2.image_hash@,
    ensures
        s2.len() == s1.len(),
        has_originality(s2, info2.image_hash@),
        forall|i: int|
            0 <= i < s2.len() && (#[trigger] s2[i]).image_hash@ == info2.image_hash@ ==> s2[i]
                == info2,
        forall|i: int|
            0 <= i < s1.len() && (#[trigger] s1[i]).image_hash@ != info2.image_hash@ ==> s2[i]
                == s1[i],
{
    lemma_originality_upsert_keeps_unique(s0, s1, info1);
    lemma_store_then_lookup(s0, s1, info1);
    assert(has_originality(s1, info2.image_hash@));
    lemma_store_then_lookup(s1, s2, info2);
}

} // verus!
