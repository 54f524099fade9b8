use cnosdb::kv_store::{EntryKind, KvStore};

#[test]
fn a_read_gives_back_the_last_write() {
    let mut s = KvStore::new();
    assert_eq!(s.get("/a"), None);
    s.insert("/a", "1", 3);
    s.insert("/b", "2", 3);
    s.insert("/a", "9", 4);
    assert_eq!(s.get("/a").map(|v| v.as_str()), Some("9"));
    assert_eq!(s.get("/b").map(|v| v.as_str()), Some("2"));
    s.remove("/a", 5);
    s.remove("/missing", 6);
    assert_eq!(s.get("/a"), None);
    assert_eq!(s.get("/b").map(|v| v.as_str()), Some("2"));
    let log: Vec<(EntryKind, u64, &str, &str)> =
        s.log_entries().iter().map(|e| (e.tye, e.ver, e.key.as_str(), e.val.as_str())).collect();
    assert_eq!(
        log,
        vec![
            (EntryKind::Write, 3, "/a", "1"),
            (EntryKind::Write, 3, "/b", "2"),
            (EntryKind::Write, 4, "/a", "9"),
            (EntryKind::Delete, 5, "/a", ""),
            (EntryKind::Delete, 6, "/missing", ""),
        ]
    );
}
