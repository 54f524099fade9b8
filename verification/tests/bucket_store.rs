use cnosdb::bucket_store::{BucketInfo, BucketReply, BucketStore, LogEntry};
use cnosdb::meta_store::{BucketSettings, ReplicationSet, VnodeInfo};

fn settings() -> Option<BucketSettings> {
    Some(BucketSettings { shard_num: 1, replica: 1, ttl_ns: 1000 })
}

fn group(first_vnode: u32) -> Vec<ReplicationSet> {
    vec![ReplicationSet { id: first_vnode, vnodes: vec![VnodeInfo { id: first_vnode + 1, node_id: 7 }] }]
}

#[test]
fn creating_a_bucket_writes_it_once_and_moves_the_counter() {
    let mut s = BucketStore::new();
    let r = s.process_create_bucket(150, "db", settings(), 1, 100, (100, 200), group(2), 2, 9);
    assert_eq!(r, BucketReply::Success);
    assert_eq!(s.incr_id, Some(4));
    assert_eq!(
        s.buckets,
        vec![BucketInfo { id: 1, start_time: 100, end_time: 200, shard_group: group(2) }]
    );
    assert_eq!(
        s.log,
        vec![
            LogEntry::SetIncrId { ver: 9, value: 2 },
            LogEntry::SetIncrId { ver: 9, value: 4 },
            LogEntry::SetBucket { ver: 9, id: 1 },
        ]
    );
    // The same request again finds the bucket and writes nothing.
    let r = s.process_create_bucket(150, "db", settings(), 1, 100, (100, 200), group(5), 2, 10);
    assert_eq!(r, BucketReply::Success);
    assert_eq!((s.incr_id, s.buckets.len(), s.log.len()), (Some(4), 1, 3));
    // A later timestamp takes the next identifier.
    let r = s.process_create_bucket(250, "db", settings(), 1, 100, (200, 300), group(5), 2, 11);
    assert_eq!(r, BucketReply::Success);
    assert_eq!((s.incr_id, s.buckets[1].id, s.buckets.len()), (Some(7), 4, 2));
}

#[test]
fn refused_buckets_leave_the_store_alone() {
    let mut s = BucketStore::new();
    let r = s.process_create_bucket(150, "db", None, 1, 100, (100, 200), group(2), 2, 9);
    assert_eq!(r, BucketReply::Failed("database db is not exist".to_string()));
    let r = s.process_create_bucket(150, "db", settings(), 0, 100, (100, 200), group(2), 2, 9);
    assert_eq!(r, BucketReply::Failed("database db attribute invalid!".to_string()));
    let r = s.process_create_bucket(50, "db", settings(), 1, 5000, (0, 100), group(2), 2, 9);
    assert_eq!(r, BucketReply::Failed("database db create expired bucket not permit!".to_string()));
    assert_eq!((s.incr_id, s.buckets.len(), s.log.len()), (None, 0, 0));
}

#[test]
fn deleting_a_bucket() {
    let mut s = BucketStore::new();
    s.process_create_bucket(150, "db", settings(), 1, 100, (100, 200), group(2), 2, 1);
    s.process_create_bucket(250, "db", settings(), 1, 100, (200, 300), group(5), 2, 2);
    assert_eq!(s.process_delete_bucket(1, 3), BucketReply::Success);
    assert_eq!(s.buckets.iter().map(|b| b.id).collect::<Vec<_>>(), vec![4]);
    assert_eq!(s.process_delete_bucket(99, 4), BucketReply::Success);
    assert_eq!(s.buckets.len(), 1);
    assert_eq!(&s.log[s.log.len() - 2..], &[LogEntry::DelBucket { ver: 3, id: 1 }, LogEntry::DelBucket { ver: 4, id: 99 }]);
}
