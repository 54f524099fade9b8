//! The part of the metadata store that bucket creation reads and writes,
//! held as values: the cluster's identifier counter, a database's buckets
//! and the change log that every write appends to. Creating a bucket
//! writes nothing when a bucket already covers the timestamp or a check
//! refuses it; otherwise it takes an identifier, reserves the vnode
//! identifiers, and writes exactly one new bucket.
use vstd::prelude::*;

use crate::meta_store::{bucket_check, create_bucket_check, BucketCheck, BucketSettings, ReplicationSet};

verus! {

/// A bucket: the data of a database between two times, kept by its
/// replication sets.
#[derive(Debug, Clone, PartialEq, Eq)]
pub struct BucketInfo {
    pub id: u32,
    pub start_time: i64,
    pub end_time: i64,
    pub shard_group: Vec<ReplicationSet>,
}

/// One entry of the change log, written with the store's version.
#[derive(Debug, Clone, Copy, PartialEq, Eq)]
pub enum LogEntry {
    /// The identifier counter was set to `value`.
    SetIncrId { ver: u64, value: u32 },
    /// The bucket `id` was written.
    SetBucket { ver: u64, id: u32 },
    /// The bucket `id` was deleted.
    DelBucket { ver: u64, id: u32 },
}

/// What a database's bucket keys, the cluster's counter key and the
/// change log hold.
#[derive(Debug)]
pub struct BucketStore {
    /// The counter's value, when it is set and reads as a number.
    pub incr_id: Option<u32>,
    /// The database's buckets, in the order the store keeps them.
    pub buckets: Vec<BucketInfo>,
    pub log: Vec<LogEntry>,
}

/// How a request to the store is answered.
#[derive(Debug, Clone, PartialEq, Eq)]
pub enum BucketReply {
    /// Success, with the tenant's metadata as the store now holds it.
    Success,
    /// Failure, with this message.
    Failed(String),
}

/// The next identifier: the counter's value, or 1 when it is not set.
pub open spec fn counter(incr_id: Option<u32>) -> int {
    match incr_id {
        Some(v) => v as int,
        None => 1,
    }
}

/// The time ranges of buckets.
pub open spec fn ranges(b: Seq<BucketInfo>) -> Seq<(i64, i64)> {
    b.map_values(|x: BucketInfo| (x.start_time, x.end_time))
}

impl BucketStore {
    /// Bucket identifiers are distinct and below the counter.
    pub open spec fn wf(&self) -> bool {
        &&& forall|i: int, j: int|
            0 <= i < j < self.buckets@.len() ==> #[trigger] self.buckets@[i].id
                != #[trigger] self.buckets@[j].id
        &&& forall|i: int| 0 <= i < self.buckets@.len() ==> #[trigger] self.buckets@[i].id < counter(self.incr_id)
    }

    /// An empty store.
    pub fn new() -> (r: BucketStore)
        ensures
            r.wf(),
            r.incr_id is None,
            r.buckets@.len() == 0,
            r.log@.len() == 0,
    {
        BucketStore { incr_id: None, buckets: Vec::new(), log: Vec::new() }
    }
}

/// What creating a bucket writes, from `before` to `after`: the counter is
/// advanced past the new bucket's identifier and then past the `used`
/// vnode identifiers, each a logged write, and the bucket, under the
/// counter's old value, is written after them.
pub open spec fn created(
    before: BucketStore,
    after: BucketStore,
    range: (i64, i64),
    group: Vec<ReplicationSet>,
    used: u32,
    ver: u64,
) -> bool {
    let id = counter(before.incr_id);
    &&& after.incr_id == Some((id + 1 + used) as u32)
    &&& after.buckets@ == before.buckets@.push(
        BucketInfo { id: id as u32, start_time: range.0, end_time: range.1, shard_group: group },
    )
    &&& after.log@ == before.log@ + seq![
        LogEntry::SetIncrId { ver, value: (id + 1) as u32 },
        LogEntry::SetIncrId { ver, value: (id + 1 + used) as u32 },
        LogEntry::SetBucket { ver, id: id as u32 },
    ]
}

fn bucket_ranges(buckets: &Vec<BucketInfo>) -> (r: Vec<(i64, i64)>)
    ensures
        r@ == ranges(buckets@),
{
    let mut r: Vec<(i64, i64)> = Vec::new();
    let n = buckets.len();
    for i in 0..n
        invariant
            n == buckets@.len(),
            r@ == ranges(buckets@.take(i as int)),
    {
        r.push((buckets[i].start_time, buckets[i].end_time));
        assert(buckets@.take(i as int + 1) =~= buckets@.take(i as int).push(buckets@[i as int]));
        assert(r@ =~= ranges(buckets@.take(i as int + 1)));
    }
    assert(buckets@.take(n as int) =~= buckets@);
    r
}

impl BucketStore {
    /// Creates a bucket for `ts` in database `db` when none covers it and
    /// the database's settings (when it exists), the number of data nodes
    /// and the time now allow it. `range` is the time range the bucket
    /// gets, `group` its replication sets and `used` the number of vnode
    /// identifiers they take, all allocated from the counter's value. A
    /// covering bucket, or a refusal, leaves the store as it was.
    pub fn process_create_bucket(
        &mut self,
        ts: i64,
        db: &str,
        settings: Option<BucketSettings>,
        nodes: usize,
        now: i64,
        range: (i64, i64),
        group: Vec<ReplicationSet>,
        used: u32,
        version: u64,
    ) -> (r: BucketReply)
        requires
            old(self).wf(),
            counter(old(self).incr_id) + 1 + used <= u32::MAX,
        ensures
            final(self).wf(),
            match bucket_check(ranges(old(self).buckets@), ts, db@, settings, nodes as nat, now) {
                Ok(false) => r == BucketReply::Success && *final(self) == *old(self),
                Err(m) => (r matches BucketReply::Failed(t) && t@ == m) && *final(self) == *old(self),
                Ok(true) => r == BucketReply::Success && created(*old(self), *final(self), range, group, used, version)
                    && forall|i: int|
                    0 <= i < old(self).buckets@.len() ==> #[trigger] old(self).buckets@[i].id != counter(
                        old(self).incr_id,
                    ),
            },
    {
        let rs = bucket_ranges(&self.buckets);
        match create_bucket_check(&rs, ts, db, settings, nodes, now) {
            BucketCheck::Exists => BucketReply::Success,
            BucketCheck::Refused(m) => BucketReply::Failed(m),
            BucketCheck::Create => {
                let ghost before = *self;
                let id: u32 = match self.incr_id {
                    Some(v) => v,
                    None => 1,
                };
                self.incr_id = Some(id + 1);
                self.log.push(LogEntry::SetIncrId { ver: version, value: id + 1 });
                self.incr_id = Some(id + 1 + used);
                self.log.push(LogEntry::SetIncrId { ver: version, value: id + 1 + used });
                let bucket = BucketInfo { id, start_time: range.0, end_time: range.1, shard_group: group };
                self.buckets.push(bucket);
                self.log.push(LogEntry::SetBucket { ver: version, id });
                proof {
                    assert(self.log@ =~= before.log@ + seq![
                        LogEntry::SetIncrId { ver: version, value: (id + 1) as u32 },
                        LogEntry::SetIncrId { ver: version, value: (id + 1 + used) as u32 },
                        LogEntry::SetBucket { ver: version, id: id },
                    ]);
                    assert forall|i: int| 0 <= i < before.buckets@.len() implies #[trigger] before.buckets@[i].id
                        != counter(before.incr_id) by {}
                    assert forall|i: int, j: int|
                        0 <= i < j < self.buckets@.len() implies #[trigger] self.buckets@[i].id
                        != #[trigger] self.buckets@[j].id by {
                        if j == before.buckets@.len() {
                            assert(self.buckets@[i] == before.buckets@[i]);
                        } else {
                            assert(self.buckets@[i] == before.buckets@[i]);
                            assert(self.buckets@[j] == before.buckets@[j]);
                        }
                    }
                    assert forall|i: int| 0 <= i < self.buckets@.len() implies #[trigger] self.buckets@[i].id
                        < counter(self.incr_id) by {
                        if i < before.buckets@.len() {
                            assert(self.buckets@[i] == before.buckets@[i]);
                        }
                    }
                }
                BucketReply::Success
            },
        }
    }

    /// Deletes the bucket `id`, if there is one, and logs the deletion; the
    /// answer is always success.
    pub fn process_delete_bucket(&mut self, id: u32, version: u64) -> (r: BucketReply)
        requires
            old(self).wf(),
        ensures
            final(self).wf(),
            r == BucketReply::Success,
            final(self).incr_id == old(self).incr_id,
            (exists|k: int|
                0 <= k < old(self).buckets@.len() && #[trigger] old(self).buckets@[k].id == id
                    && final(self).buckets@ == old(self).buckets@.remove(k)) || ((forall|k: int|
                0 <= k < old(self).buckets@.len() ==> #[trigger] old(self).buckets@[k].id != id)
                && final(self).buckets@ == old(self).buckets@),
            final(self).log@ == old(self).log@.push(LogEntry::DelBucket { ver: version, id }),
    {
        let ghost before = self.buckets@;
        let n = self.buckets.len();
        let mut i: usize = 0;
        while i < n
            invariant
                n == self.buckets@.len(),
                self.buckets@ == before,
                i <= n,
                forall|j: int| 0 <= j < i ==> #[trigger] before[j].id != id,
            ensures
                i <= n,
                self.buckets@ == before,
                forall|j: int| 0 <= j < i ==> #[trigger] before[j].id != id,
                i < n ==> before[i as int].id == id,
            decreases n - i,
        {
            if self.buckets[i].id == id {
                break;
            }
            i = i + 1;
        }
        if i < n {
            self.buckets.remove(i);
            proof {
                let k = i as int;
                assert(before[k].id == id);
                assert forall|a: int, b: int|
                    0 <= a < b < self.buckets@.len() implies #[trigger] self.buckets@[a].id
                    != #[trigger] self.buckets@[b].id by {
                    let a0 = if a < k { a } else { a + 1 };
                    let b0 = if b < k { b } else { b + 1 };
                    assert(self.buckets@[a] == before[a0]);
                    assert(self.buckets@[b] == before[b0]);
                    assert(before[a0].id != before[b0].id);
                }
                assert forall|a: int| 0 <= a < self.buckets@.len() implies #[trigger] self.buckets@[a].id
                    < counter(self.incr_id) by {
                    let a0 = if a < k { a } else { a + 1 };
                    assert(self.buckets@[a] == before[a0]);
                }
            }
        }
        self.log.push(LogEntry::DelBucket { ver: version, id });
        BucketReply::Success
    }
}

/// Once a bucket was created whose range covers `ts`, a second request for
/// `ts` finds it covered, whatever the database's settings: it writes
/// nothing and answers success.
pub proof fn lemma_second_create_finds_the_bucket(
    before: BucketStore,
    after: BucketStore,
    range: (i64, i64),
    group: Vec<ReplicationSet>,
    used: u32,
    ver: u64,
    ts: i64,
    db: Seq<char>,
    settings: Option<BucketSettings>,
    nodes: nat,
    now: i64,
)
    requires
        created(before, after, range, group, used, ver),
        range.0 <= ts < range.1,
    ensures
        bucket_check(ranges(after.buckets@), ts, db, settings, nodes, now) == Ok::<bool, Seq<char>>(false),
{
    let n = before.buckets@.len() as int;
    assert(ranges(after.buckets@)[n] == range);
}

} // verus!
