use cnosdb::meta_store::{watch_step, watch_wake, TenantMetaDataDelta, WatchReply};
use cnosdb::meta_store::{
    bucket_covers, children_fullpath, child_name, create_bucket_check, debug_dump, dir_of,
    next_incr_id, schema_update_conflict, update_vnode_repl_set, watch_decision, BucketCheck,
    BucketSettings, ReplicationSet, VnodeInfo, WatchAnswer,
};

fn keys(v: &[&str]) -> Vec<String> {
    v.iter().map(|s| s.to_string()).collect()
}

#[test]
fn children_are_direct_and_scan_stops_outside() {
    let scanned = keys(&[
        "/root/tenant/",
        "/root/tenant/123",
        "/root/tenant/456",
        "/root/tenant/db1",
        "/root/tenant/db1/",
        "/root/tenant/db1/table1",
        "/root/tenant/db2",
        "/root/tenantx/zzz",
        "/root/tenant/late",
    ]);
    assert_eq!(
        children_fullpath("/root/tenant", &scanned),
        keys(&["/root/tenant/123", "/root/tenant/456", "/root/tenant/db1", "/root/tenant/db2"])
    );
    assert_eq!(children_fullpath("/root/tenant/", &scanned).len(), 4);
    assert_eq!(dir_of("/a"), "/a/");
    assert_eq!(dir_of("/a/"), "/a/");
    assert_eq!(dir_of(""), "/");
    assert_eq!(child_name("/a/", "/a/b"), Some("b".to_string()));
    assert_eq!(child_name("/a/", "/b/c"), None);
}

#[test]
fn bucket_creation_checks() {
    let buckets = vec![(0i64, 100i64), (100, 200)];
    assert!(bucket_covers(&buckets, 150));
    assert!(!bucket_covers(&buckets, 200));
    let s = BucketSettings { shard_num: 1, replica: 1, ttl_ns: 1000 };
    assert_eq!(create_bucket_check(&buckets, 50, "db", Some(s), 1, 0), BucketCheck::Exists);
    assert_eq!(
        create_bucket_check(&buckets, 250, "db", None, 1, 0),
        BucketCheck::Refused("database db is not exist".into())
    );
    assert_eq!(
        create_bucket_check(&buckets, 250, "db", Some(s), 0, 0),
        BucketCheck::Refused("database db attribute invalid!".into())
    );
    let two = BucketSettings { replica: 2, ..s };
    assert_eq!(
        create_bucket_check(&buckets, 250, "db", Some(two), 1, 0),
        BucketCheck::Refused("database db attribute invalid!".into())
    );
    assert_eq!(
        create_bucket_check(&buckets, 250, "db", Some(s), 1, 2000),
        BucketCheck::Refused("database db create expired bucket not permit!".into())
    );
    assert_eq!(create_bucket_check(&buckets, 1000, "db", Some(s), 1, 2000), BucketCheck::Create);
}

#[test]
fn replication_set_update() {
    let v = |id: u32, node_id: u64| VnodeInfo { id, node_id };
    let mut group = vec![
        ReplicationSet { id: 1, vnodes: vec![v(10, 1), v(11, 2), v(12, 3)] },
        ReplicationSet { id: 2, vnodes: vec![v(20, 1), v(11, 2)] },
    ];
    update_vnode_repl_set(&mut group, 1, &vec![11, 12], &vec![v(13, 4)]);
    assert_eq!(group[0].vnodes, vec![v(10, 1), v(13, 4)]);
    assert_eq!(group[1].vnodes, vec![v(20, 1), v(11, 2)]);
}

#[test]
fn small_rules() {
    assert_eq!(schema_update_conflict(3, 4), None);
    assert_eq!(schema_update_conflict(3, 5), Some("update table schema conflict 3->5".to_string()));
    assert_eq!(next_incr_id(None, 1), (1, 2));
    assert_eq!(next_incr_id(Some(7), 3), (7, 10));
    assert_eq!(watch_decision(10, 3, (0, 0)), WatchAnswer::FullLoad);
    assert_eq!(watch_decision(10, 3, (5, 9)), WatchAnswer::FullLoad);
    assert_eq!(watch_decision(10, 6, (5, 9)), WatchAnswer::NotifyNow);
    assert_eq!(watch_decision(10, 9, (5, 9)), WatchAnswer::Wait);
    assert_eq!(watch_decision(3, 3, (0, 0)), WatchAnswer::Wait);
    let dump = debug_dump(&vec![("k".to_string(), "v".to_string())]);
    assert_eq!(
        dump,
        "******---------------------------******\n* k: v\n******----------------------------------------------******\n"
    );
}

#[test]
fn watch_step_resets_or_keeps_the_delta() {
    // Too far behind: full load, and the kept delta starts again at the store's version.
    let kept = TenantMetaDataDelta { full_load: false, update: Some("changes"), ver_range: (5, 9) };
    let (d, r) = watch_step(Some(kept), 12, 3, "all");
    assert_eq!(d, TenantMetaDataDelta { full_load: false, update: None, ver_range: (12, 12) });
    assert_eq!(
        r,
        WatchReply::FullLoad(TenantMetaDataDelta { full_load: true, update: Some("all"), ver_range: (0, 0) })
    );
    // Nothing kept yet and behind: full load too.
    let (d, r) = watch_step(None, 4, 1, "all");
    assert_eq!(d.ver_range, (4, 4));
    assert!(matches!(r, WatchReply::FullLoad(_)));
    // Changes kept past the client's version: woken at once, delta kept.
    let kept = TenantMetaDataDelta { full_load: false, update: Some("changes"), ver_range: (5, 9) };
    let (d, r) = watch_step(Some(kept), 9, 6, "all");
    assert_eq!((d.update, d.ver_range, r), (Some("changes"), (5, 9), WatchReply::NotifyNow));
    // Up to date: wait.
    let kept = TenantMetaDataDelta { full_load: false, update: None::<&str>, ver_range: (5, 9) };
    let (_, r) = watch_step(Some(kept), 9, 9, "all");
    assert_eq!(r, WatchReply::Wait);
    // Woken: the kept delta is sent and starts again at its lower end.
    let kept = TenantMetaDataDelta { full_load: false, update: Some("changes"), ver_range: (5, 9) };
    let (d, sent) = watch_wake(kept);
    assert_eq!(d, TenantMetaDataDelta { full_load: false, update: None, ver_range: (5, 5) });
    assert_eq!(sent.update, Some("changes"));
}
