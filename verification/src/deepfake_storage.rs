//! Keyed map store of image classifications. Records are keyed by an opaque
//! image hash supplied by the caller; a write replaces the record with the
//! same hash in place or, below the capacity ceiling, appends a new one. The
//! classification tag is restricted to a small enumerated set and validated
//! strictly before any mutation.

use vstd::prelude::*;

verus! {

/// Hard capacity ceiling of one classification account.
pub const IMAGE_CAPACITY: usize = 1000;

/// One stored classification: the image hash it is keyed by, the
/// classification tag, and the caller-supplied timestamp.
#[derive(Debug, PartialEq)]
pub struct ImageInfo {
    pub image_hash: String,
    pub deepfake_value: u8,
    pub timestamp: u64,
}

impl ImageInfo {
    /// Serialized byte budget of one record: the bounded hash counts its
    /// declared maximum width, never its actual length.
    pub const SIZE: usize = 32 + // image_hash
        1 + // deepfake_value
        8; // timestamp
}

impl Clone for ImageInfo {
    fn clone(&self) -> (r: Self)
        ensures
            r == *self,
    {
        ImageInfo {
            image_hash: self.image_hash.clone(),
            deepfake_value: self.deepfake_value,
            timestamp: self.timestamp,
        }
    }
}

/// Notification handed to the caller after a successful write, carrying the
/// record that was committed.
#[derive(Debug, PartialEq)]
pub struct ImageAdded {
    pub image_hash: String,
    pub deepfake_value: u8,
    pub timestamp: u64,
}

#[derive(Clone, Copy, Debug, PartialEq, Eq)]
pub enum ErrorCode {
    InvalidDeepfakeValue,
    ImageNotFound,
    TooManyImages,
}

/// The map store: an insertion-ordered sequence of records plus a running
/// count of how many are stored.
pub struct DeepfakeAccount {
    pub image_infos: Vec<ImageInfo>,
    pub image_count: u32,
}

/// The record a successful write constructs from its inputs.
pub open spec fn spec_image_info(image_hash: String, deepfake_value: u8, timestamp: u64) -> ImageInfo {
    ImageInfo { image_hash, deepfake_value, timestamp }
}

/// The notification a successful write reports.
pub open spec fn spec_image_added(image_hash: String, deepfake_value: u8, timestamp: u64) -> ImageAdded {
    ImageAdded { image_hash, deepfake_value, timestamp }
}

/// The enumerated set of legal classification tags.
pub open spec fn valid_deepfake_value(v: u8) -> bool {
    v == 1 || v == 2 || v == 3
}

/// Some stored record is keyed by the given hash.
pub open spec fn has_image(s: Seq<ImageInfo>, hash: Seq<char>) -> bool {
    exists|i: int| 0 <= i < s.len() && (#[trigger] s[i]).image_hash@ == hash
}

/// No two stored records share a hash.
pub open spec fn unique_hashes(s: Seq<ImageInfo>) -> bool {
    forall|i: int, j: int|
        0 <= i < j < s.len() ==> (#[trigger] s[i]).image_hash@ != (#[trigger] s[j]).image_hash@
}

/// How a successful write turns the stored sequence `pre` into `post`: if
/// `info`'s hash is already present, every record carrying it is overwritten
/// in place (under `unique_hashes` there is exactly one) and all others keep
/// their position and value; otherwise `info` is appended.
pub open spec fn upserted(pre: Seq<ImageInfo>, post: Seq<ImageInfo>, info: ImageInfo) -> bool {
    if has_image(pre, info.image_hash@) {
        &&& post.len() == pre.len()
        &&& forall|i: int|
            0 <= i < pre.len() ==> #[trigger] post[i] == (if pre[i].image_hash@
                == info.image_hash@ {
                info
            } else {
                pre[i]
            })
    } else {
        post == pre.push(info)
    }
}

/// Exact outcome of a tag lookup: `Ok` holds the tag of the first record
/// keyed by the hash, and `ImageNotFound` comes back exactly when the hash is
/// absent.
pub open spec fn lookup_value_result(
    s: Seq<ImageInfo>,
    hash: Seq<char>,
    r: Result<u8, ErrorCode>,
) -> bool {
    &&& (r is Ok <==> has_image(s, hash))
    &&& (!has_image(s, hash) ==> r == Err::<u8, ErrorCode>(ErrorCode::ImageNotFound))
    &&& forall|i: int|
        0 <= i < s.len() && (#[trigger] s[i]).image_hash@ == hash && (forall|j: int|
            0 <= j < i ==> (#[trigger] s[j]).image_hash@ != hash) ==> r == Ok::<
            u8,
            ErrorCode,
        >(s[i].deepfake_value)
}

/// Exact outcome of a timestamp lookup, in the same shape as
/// `lookup_value_result`.
pub open spec fn lookup_timestamp_result(
    s: Seq<ImageInfo>,
    hash: Seq<char>,
    r: Result<u64, ErrorCode>,
) -> bool {
    &&& (r is Ok <==> has_image(s, hash))
    &&& (!has_image(s, hash) ==> r == Err::<u64, ErrorCode>(ErrorCode::ImageNotFound))
    &&& forall|i: int|
        0 <= i < s.len() && (#[trigger] s[i]).image_hash@ == hash && (forall|j: int|
            0 <= j < i ==> (#[trigger] s[j]).image_hash@ != hash) ==> r == Ok::<
            u64,
            ErrorCode,
        >(s[i].timestamp)
}

impl DeepfakeAccount {
    /// Serialized byte budget of one classification account: discriminator,
    /// bookkeeping scalar, length prefix, and full capacity worth of records.
    pub const MAX_SIZE: usize = 8 + // discriminator
        4 + // image_count
        4 + // vec length
        1000 * ImageInfo::SIZE; // 1000 images max

    /// Store invariant: the count tracks the stored sequence, the capacity
    /// ceiling holds, and at most one record exists per hash.
    pub open spec fn wf(self) -> bool {
        &&& self.image_infos@.len() == self.image_count
        &&& self.image_count <= IMAGE_CAPACITY
        &&& unique_hashes(self.image_infos@)
    }

    /// Bytes the account occupies once serialized: fixed header and
    /// bookkeeping plus one fixed-width slot per stored record.
    pub open spec fn spec_serialized_size(self) -> int {
        8 + 4 + 4 + self.image_infos@.len() * (ImageInfo::SIZE as int)
    }

    /// Byte-budget law: a well-formed account, however full, serializes
    /// within the fixed budget reserved for it at allocation.
    pub proof fn lemma_size_within_budget(self)
        requires
            self.wf(),
        ensures
            self.spec_serialized_size() <= DeepfakeAccount::MAX_SIZE,
    {
        assert(self.image_infos@.len() * (ImageInfo::SIZE as int) <= 1000 * (
        ImageInfo::SIZE as int)) by (nonlinear_arith)
            requires
                self.image_infos@.len() <= 1000,
        ;
    }

    /// Index of the first record keyed by the given hash, if any.
    fn find_index(&self, image_hash: &String) -> (r: Option<usize>)
        ensures
            match r {
                Some(i) => 0 <= i < self.image_infos@.len() && self.image_infos@[i as int].image_hash@
                    == image_hash@ && forall|j: int|
                    0 <= j < i ==> (#[trigger] self.image_infos@[j]).image_hash@ != image_hash@,
                None => !has_image(self.image_infos@, image_hash@),
            },
    {
        let n = self.image_infos.len();
        let mut i: usize = 0;
        while i < n
            invariant
                n == self.image_infos@.len(),
                i <= n,
                forall|j: int|
                    0 <= j < i ==> (#[trigger] self.image_infos@[j]).image_hash@ != image_hash@,
            decreases n - i,
        {
            if self.image_infos[i].image_hash == *image_hash {
                return Some(i);
            }
            i += 1;
        }
        None
    }

    /// Upsert. The stored sequence is searched for the record's hash: a match
    /// is overwritten in place with the count unchanged, while a new hash is
    /// appended and counted, failing with `TooManyImages` — and changing
    /// nothing — exactly when the store is already full.
    pub fn add_image_info(&mut self, info: ImageInfo) -> (r: Result<(), ErrorCode>)
        requires
            old(self).wf(),
        ensures
            final(self).wf(),
            has_image(old(self).image_infos@, info.image_hash@) || old(self).image_count
                < IMAGE_CAPACITY ==> {
                &&& r == Ok::<(), ErrorCode>(())
                &&& upserted(old(self).image_infos@, final(self).image_infos@, info)
                &&& final(self).image_count == old(self).image_count + (if has_image(
                    old(self).image_infos@,
                    info.image_hash@,
                ) {
                    0int
                } else {
                    1int
                })
            },
            !has_image(old(self).image_infos@, info.image_hash@) && old(self).image_count
                >= IMAGE_CAPACITY ==> {
                &&& r == Err::<(), ErrorCode>(ErrorCode::TooManyImages)
                &&& *final(self) == *old(self)
            },
    {
        match self.find_index(&info.image_hash) {
            Some(i) => {
                self.image_infos[i] = info;
                Ok(())
            },
            None => {
                if self.image_count < 1000 {
                    self.image_infos.push(info);
                    self.image_count = self.image_count + 1;
                    Ok(())
                } else {
                    Err(ErrorCode::TooManyImages)
                }
            },
        }
    }

    /// Tag lookup by hash: linear scan for the first matching record.
    pub fn get_deepfake_value(&self, image_hash: &String) -> (r: Result<u8, ErrorCode>)
        ensures
            lookup_value_result(self.image_infos@, image_hash@, r),
    {
        match self.find_index(image_hash) {
            Some(i) => Ok(self.image_infos[i].deepfake_value),
            None => Err(ErrorCode::ImageNotFound),
        }
    }

    /// Timestamp lookup by hash: linear scan for the first matching record.
    pub fn get_image_timestamp(&self, image_hash: &String) -> (r: Result<u64, ErrorCode>)
        ensures
            lookup_timestamp_result(self.image_infos@, image_hash@, r),
    {
        match self.find_index(image_hash) {
            Some(i) => Ok(self.image_infos[i].timestamp),
            None => Err(ErrorCode::ImageNotFound),
        }
    }
}

/// Create a fresh classification store: no records, count zero.
pub fn initialize() -> (account: DeepfakeAccount)
    ensures
        account.image_infos@.len() == 0,
        account.image_count == 0,
        account.wf(),
{
    DeepfakeAccount { image_infos: Vec::new(), image_count: 0 }
}

/// Store a classification. The tag is validated against the enumerated set
/// strictly before any mutation: an illegal tag fails with
/// `InvalidDeepfakeValue` and leaves the store completely unchanged. A legal
/// tag is upserted by hash as `add_image_info` describes. Returns the
/// notification describing the committed record.
pub fn store_image(
    account: &mut DeepfakeAccount,
    image_hash: String,
    deepfake_value: u8,
    timestamp: u64,
) -> (r: Result<ImageAdded, ErrorCode>)
    requires
        old(account).wf(),
    ensures
        final(account).wf(),
        !valid_deepfake_value(deepfake_value) ==> {
            &&& r == Err::<ImageAdded, ErrorCode>(ErrorCode::InvalidDeepfakeValue)
            &&& *final(account) == *old(account)
        },
        valid_deepfake_value(deepfake_value) && (has_image(old(account).image_infos@, image_hash@)
            || old(account).image_count < IMAGE_CAPACITY) ==> {
            &&& r == Ok::<ImageAdded, ErrorCode>(
                spec_image_added(image_hash, deepfake_value, timestamp),
            )
            &&& upserted(
                old(account).image_infos@,
                final(account).image_infos@,
                spec_image_info(image_hash, deepfake_value, timestamp),
            )
            &&& final(account).image_count == old(account).image_count + (if has_image(
                old(account).image_infos@,
                image_hash@,
            ) {
                0int
            } else {
                1int
            })
        },
        valid_deepfake_value(deepfake_value) && !has_image(old(account).image_infos@, image_hash@)
            && old(account).image_count >= IMAGE_CAPACITY ==> {
            &&& r == Err::<ImageAdded, ErrorCode>(ErrorCode::TooManyImages)
            &&& *final(account) == *old(account)
        },
{
    if !(deepfake_value == 1 || deepfake_value == 2 || deepfake_value == 3) {
        return Err(ErrorCode::InvalidDeepfakeValue);
    }
    let info = ImageInfo { image_hash: image_hash.clone(), deepfake_value, timestamp };
    match account.add_image_info(info) {
        Ok(()) => Ok(ImageAdded { image_hash, deepfake_value, timestamp }),
        Err(e) => Err(e),
    }
}

/// Tag lookup on a classification account.
pub fn get_deepfake_value(account: &DeepfakeAccount, image_hash: String) -> (r: Result<
    u8,
    ErrorCode,
>)
    ensures
        lookup_value_result(account.image_infos@, image_hash@, r),
{
    account.get_deepfake_value(&image_hash)
}

/// Timestamp lookup on a classification account.
pub fn get_image_timestamp(account: &DeepfakeAccount, image_hash: String) -> (r: Result<
    u64,
    ErrorCode,
>)
    ensures
        lookup_timestamp_result(account.image_infos@, image_hash@, r),
{
    account.get_image_timestamp(&image_hash)
}

/// A successful write keeps hashes unique: overwriting in place changes no
/// hash, and an append introduces a hash that was absent.
pub proof fn lemma_upsert_keeps_unique(pre: Seq<ImageInfo>, post: Seq<ImageInfo>, info: ImageInfo)
    requires
        unique_hashes(pre),
        upserted(pre, post, info),
    ensures
        unique_hashes(post),
{
    if has_image(pre, info.image_hash@) {
        assert forall|i: int, j: int| 0 <= i < j < post.len() implies (#[trigger] post[i]).image_hash@
            != (#[trigger] post[j]).image_hash@ by {
            assert(post[i].image_hash@ == pre[i].image_hash@);
            assert(post[j].image_hash@ == pre[j].image_hash@);
        }
    }
}

/// Lookup law: after a successful write of `info` to a well-formed store,
/// exactly the records keyed by `info`'s hash equal `info`, and at least one
/// such record exists — so a lookup of that hash returns `info`'s fields.
pub proof fn lemma_put_then_lookup(pre: Seq<ImageInfo>, post: Seq<ImageInfo>, info: ImageInfo)
    requires
        unique_hashes(pre),
        upserted(pre, post, info),
    ensures
        has_image(post, info.image_hash@),
        forall|i: int|
            0 <= i < post.len() && (#[trigger] post[i]).image_hash@ == info.image_hash@ ==> post[i]
                == info,
{
    if has_image(pre, info.image_hash@) {
        let w = choose|i: int| 0 <= i < pre.len() && (#[trigger] pre[i]).image_hash@
            == info.image_hash@;
        assert(post[w] == info);
    } else {
        assert(post[post.len() - 1] == info);
        assert forall|i: int|
            0 <= i < post.len() && (#[trigger] post[i]).image_hash@
                == info.image_hash@ implies post[i] == info by {
            if i < post.len() - 1 {
                assert(pre[i].image_hash@ == info.image_hash@);
            }
        }
    }
}

/// Replace law: writing hash `h` twice leaves exactly one record for `h`,
/// holding the second value, and the second write changes neither the record
/// count nor any other record.
pub proof fn lemma_second_put_replaces(
    s0: Seq<ImageInfo>,
    s1: Seq<ImageInfo>,
    s2: Seq<ImageInfo>,
    info1: ImageInfo,
    info2: ImageInfo,
)
    requires
        unique_hashes(s0),
        upserted(s0, s1, info1),
        upserted(s1, s2, info2),
        info1.image_hash@ == info2.image_hash@,
    ensures
        s2.len() == s1.len(),
        has_image(s2, info2.image_hash@),
        forall|i: int|
            0 <= i < s2.len() && (#[trigger] s2[i]).image_hash@ == info2.image_hash@ ==> s2[i]
                == info2,
        forall|i: int|
            0 <= i < s1.len() && (#[trigger] s1[i]).image_hash@ != info2.image_hash@ ==> s2[i]
                == s1[i],
{
    lemma_upsert_keeps_unique(s0, s1, info1);
    lemma_put_then_lookup(s0, s1, info1);
    assert(has_image(s1, info2.image_hash@));
    lemma_put_then_lookup(s1, s2, info2);
}

} // verus!
