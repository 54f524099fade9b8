//! The rules of the metadata store: how keys form a tree of paths, when a
//! bucket is created for a timestamp, how a replication set is changed,
//! and how a watching client is answered.
use vstd::prelude::*;
use vstd::string::StrSliceExecFns;
use vstd::string::StringExecFns;

use crate::text::{append_decimal, append_signed_decimal, decimal_chars, signed_decimal_chars};

verus! {

/// A path as the parent of others: it ends with `/`.
pub open spec fn dir_path(p: Seq<char>) -> Seq<char> {
    if p.len() > 0 && p.last() == '/' {
        p
    } else {
        p.push('/')
    }
}

/// Whether `key` names a direct child of the directory `dir`: something
/// follows `dir`, and no `/` does.
pub open spec fn is_child(dir: Seq<char>, key: Seq<char>) -> bool {
    &&& dir.is_prefix_of(key)
    &&& key.len() > dir.len()
    &&& forall|i: int| dir.len() <= i < key.len() ==> #[trigger] key[i] != '/'
}

/// The direct children of `dir` among `keys`, which are read in order
/// until one does not lie under `dir`.
pub open spec fn children(dir: Seq<char>, keys: Seq<Seq<char>>) -> Seq<Seq<char>>
    decreases keys.len(),
{
    if keys.len() == 0 || !dir.is_prefix_of(keys[0]) {
        Seq::empty()
    } else if is_child(dir, keys[0]) {
        seq![keys[0]] + children(dir, keys.drop_first())
    } else {
        children(dir, keys.drop_first())
    }
}

pub open spec fn strings_view(s: Seq<String>) -> Seq<Seq<char>> {
    s.map_values(|x: String| x@)
}

/// `p` as a directory: with a `/` added unless it ends with one.
pub fn dir_of(p: &str) -> (r: String)
    ensures
        r@ == dir_path(p@),
{
    let n = p.unicode_len();
    let mut r = String::from_str(p);
    if n > 0 && p.get_char(n - 1) == '/' {
        r
    } else {
        proof {
            reveal_strlit("/");
        }
        r.append("/");
        r
    }
}

/// Whether `dir` is a prefix of `key`, and whether `key` is a direct child.
fn child_test(dir: &str, key: &str) -> (r: (bool, bool))
    ensures
        r.0 == dir@.is_prefix_of(key@),
        r.1 == is_child(dir@, key@),
{
    let n = dir.unicode_len();
    let m = key.unicode_len();
    if n > m {
        return (false, false);
    }
    let mut i: usize = 0;
    while i < n
        invariant
            n == dir@.len(),
            m == key@.len(),
            n <= m,
            i <= n,
            forall|j: int| 0 <= j < i ==> dir@[j] == key@[j],
        decreases n - i,
    {
        if dir.get_char(i) != key.get_char(i) {
            return (false, false);
        }
        i = i + 1;
    }
    assert(dir@.is_prefix_of(key@)) by {
        assert(key@.subrange(0, n as int) =~= dir@);
    }
    if m == n {
        return (true, false);
    }
    let mut j: usize = n;
    while j < m
        invariant
            n == dir@.len(),
            m == key@.len(),
            n <= j <= m,
            dir@.is_prefix_of(key@),
            forall|k: int| n <= k < j ==> #[trigger] key@[k] != '/',
        decreases m - j,
    {
        if key.get_char(j) == '/' {
            return (true, false);
        }
        j = j + 1;
    }
    (true, true)
}

/// The keys that are direct children of `path` (read as a directory),
/// among the keys a prefix scan gave, in order.
pub fn children_fullpath(path: &str, scanned: &Vec<String>) -> (r: Vec<String>)
    ensures
        strings_view(r@) == children(dir_path(path@), strings_view(scanned@)),
{
    let dir = dir_of(path);
    let n = scanned.len();
    let mut r: Vec<String> = Vec::new();
    let ghost all = strings_view(scanned@);
    let mut i: usize = 0;
    assert(all.skip(0) =~= all);
    assert(strings_view(r@) + all =~= all);
    while i < n
        invariant
            n == scanned@.len(),
            all == strings_view(scanned@),
            dir@ == dir_path(path@),
            i <= n,
            children(dir@, all) == strings_view(r@) + children(dir@, all.skip(i as int)),
        decreases n - i,
    {
        let (under, child) = child_test(dir.as_str(), scanned[i].as_str());
        let ghost rest = all.skip(i as int);
        proof {
            assert(rest[0] == scanned@[i as int]@);
            assert(rest.drop_first() =~= all.skip(i as int + 1));
        }
        if !under {
            proof {
                assert(children(dir@, rest) =~= Seq::<Seq<char>>::empty());
                assert(children(dir@, all) =~= strings_view(r@));
            }
            return r;
        }
        if child {
            let ghost before = strings_view(r@);
            r.push(scanned[i].clone());
            proof {
                assert(strings_view(r@) =~= before + seq![rest[0]]);
                assert(before + (seq![rest[0]] + children(dir@, rest.drop_first())) =~= strings_view(
                    r@,
                ) + children(dir@, rest.drop_first()));
            }
        }
        i = i + 1;
    }
    proof {
        assert(all.skip(n as int) =~= Seq::<Seq<char>>::empty());
        assert(strings_view(r@) + Seq::<Seq<char>>::empty() =~= strings_view(r@));
    }
    r
}

/// The name of a child key relative to its directory.
pub fn child_name(dir: &str, key: &str) -> (r: Option<String>)
    ensures
        dir@.is_prefix_of(key@) ==> (r matches Some(s) && s@ == key@.skip(dir@.len() as int)),
        !dir@.is_prefix_of(key@) ==> r is None,
{
    let (under, _) = child_test(dir, key);
    if under {
        let n = dir.unicode_len();
        let m = key.unicode_len();
        Some(String::from_str(key.substring_char(n, m)))
    } else {
        None
    }
}

/// Whether one of the buckets, each a start and an end time, covers `ts`.
pub open spec fn covered(buckets: Seq<(i64, i64)>, ts: i64) -> bool {
    exists|i: int| 0 <= i < buckets.len() && buckets[i].0 <= ts && ts < #[trigger] buckets[i].1
}

pub fn bucket_covers(buckets: &Vec<(i64, i64)>, ts: i64) -> (r: bool)
    ensures
        r == covered(buckets@, ts),
{
    let n = buckets.len();
    for i in 0..n
        invariant
            n == buckets@.len(),
            forall|j: int| 0 <= j < i ==> !(buckets@[j].0 <= ts && ts < #[trigger] buckets@[j].1),
    {
        if buckets[i].0 <= ts && ts < buckets[i].1 {
            assert(buckets@[i as int].0 <= ts && ts < buckets@[i as int].1);
            return true;
        }
    }
    false
}

/// What a request to create a bucket for a timestamp comes to, before the
/// bucket is allocated.
#[derive(Debug, Clone, PartialEq, Eq)]
pub enum BucketCheck {
    /// A bucket covers the timestamp already: nothing to do.
    Exists,
    /// The request fails with this message.
    Refused(String),
    /// A bucket is to be created.
    Create,
}

/// The settings of a database that bucket creation reads.
#[derive(Debug, Clone, Copy, PartialEq, Eq)]
pub struct BucketSettings {
    pub shard_num: u64,
    pub replica: u64,
    /// How long data is kept, in nanoseconds.
    pub ttl_ns: i64,
}

/// A database's settings are valid when it has shards and no more
/// replicas than there are data nodes.
pub open spec fn db_settings_valid(shard_num: u64, replica: u64, nodes: nat) -> bool {
    shard_num != 0 && replica <= nodes
}

pub fn check_db_settings(shard_num: u64, replica: u64, nodes: usize) -> (r: bool)
    ensures
        r == db_settings_valid(shard_num, replica, nodes as nat),
{
    shard_num != 0 && replica <= nodes as u64
}

/// The checks of bucket creation, in order: a covering bucket, the
/// database, the data nodes and settings, and the time to live.
pub open spec fn bucket_check(
    buckets: Seq<(i64, i64)>,
    ts: i64,
    db: Seq<char>,
    settings: Option<BucketSettings>,
    nodes: nat,
    now: i64,
) -> Result<bool, Seq<char>> {
    if covered(buckets, ts) {
        Ok(false)
    } else {
        match settings {
            None => Err("database "@ + db + " is not exist"@),
            Some(s) => if nodes == 0 || !db_settings_valid(s.shard_num, s.replica, nodes) {
                Err("database "@ + db + " attribute invalid!"@)
            } else if ts < now - s.ttl_ns {
                Err("database "@ + db + " create expired bucket not permit!"@)
            } else {
                Ok(true)
            },
        }
    }
}

fn db_message(db: &str, tail: &str) -> (r: String)
    ensures
        r@ == "database "@ + db@ + tail@,
{
    let mut s = String::from_str("database ");
    s.append(db);
    s.append(tail);
    s
}

/// Whether a bucket is to be created for `ts` in database `db`, given the
/// buckets it has, its settings if it was found, the number of data nodes
/// and the time now.
pub fn create_bucket_check(
    buckets: &Vec<(i64, i64)>,
    ts: i64,
    db: &str,
    settings: Option<BucketSettings>,
    nodes: usize,
    now: i64,
) -> (r: BucketCheck)
    ensures
        match bucket_check(buckets@, ts, db@, settings, nodes as nat, now) {
            Ok(false) => r == BucketCheck::Exists,
            Ok(true) => r == BucketCheck::Create,
            Err(m) => r matches BucketCheck::Refused(s) && s@ == m,
        },
{
    if bucket_covers(buckets, ts) {
        return BucketCheck::Exists;
    }
    match settings {
        None => BucketCheck::Refused(db_message(db, " is not exist")),
        Some(s) => {
            if nodes == 0 || !check_db_settings(s.shard_num, s.replica, nodes) {
                return BucketCheck::Refused(db_message(db, " attribute invalid!"));
            }
            let expired = (ts as i128) < (now as i128) - (s.ttl_ns as i128);
            if expired {
                BucketCheck::Refused(db_message(db, " create expired bucket not permit!"))
            } else {
                BucketCheck::Create
            }
        },
    }
}

/// A vnode of a replication set.
#[derive(Debug, Clone, PartialEq, Eq)]
pub struct VnodeInfo {
    pub id: u32,
    pub node_id: u64,
}

/// A replication set: the vnodes that hold the same data.
#[derive(Debug, Clone, PartialEq, Eq)]
pub struct ReplicationSet {
    pub id: u32,
    pub vnodes: Vec<VnodeInfo>,
}

/// The vnodes of a set once those with an id in `del` are gone and `add`
/// follows, in order.
pub open spec fn changed_vnodes(vnodes: Seq<VnodeInfo>, del: Seq<u32>, add: Seq<VnodeInfo>) -> Seq<VnodeInfo> {
    vnodes.filter(kept_by(del)) + add
}

/// Whether a vnode stays: its id is not in `del`.
pub open spec fn kept_by(del: Seq<u32>) -> spec_fn(VnodeInfo) -> bool {
    |v: VnodeInfo| !del.contains(v.id)
}

pub open spec fn set_view(s: ReplicationSet) -> (u32, Seq<VnodeInfo>) {
    (s.id, s.vnodes@)
}

/// The replication sets after set `repl_id` is changed; the others stay.
pub open spec fn changed_sets(
    sets: Seq<ReplicationSet>,
    repl_id: u32,
    del: Seq<u32>,
    add: Seq<VnodeInfo>,
    i: int,
) -> (u32, Seq<VnodeInfo>) {
    if sets[i].id == repl_id {
        (sets[i].id, changed_vnodes(sets[i].vnodes@, del, add))
    } else {
        (sets[i].id, sets[i].vnodes@)
    }
}

fn id_listed(del: &Vec<u32>, id: u32) -> (r: bool)
    ensures
        r == del@.contains(id),
{
    for i in 0..del.len()
        invariant
            forall|j: int| 0 <= j < i ==> del@[j] != id,
    {
        if del[i] == id {
            assert(del@[i as int] == id);
            return true;
        }
    }
    false
}

fn clone_vnode(v: &VnodeInfo) -> (r: VnodeInfo)
    ensures
        r == *v,
{
    VnodeInfo { id: v.id, node_id: v.node_id }
}

fn change_vnodes(vnodes: &Vec<VnodeInfo>, del: &Vec<u32>, add: &Vec<VnodeInfo>) -> (r: Vec<VnodeInfo>)
    ensures
        r@ == changed_vnodes(vnodes@, del@, add@),
{
    let ghost pred = kept_by(del@);
    let mut r: Vec<VnodeInfo> = Vec::new();
    let n = vnodes.len();
    for i in 0..n
        invariant
            n == vnodes@.len(),
            pred == kept_by(del@),
            r@ == vnodes@.take(i as int).filter(pred),
    {
        proof {
            assert(vnodes@.take(i as int + 1).drop_last() =~= vnodes@.take(i as int));
            reveal(Seq::filter);
        }
        if !id_listed(del, vnodes[i].id) {
            r.push(clone_vnode(&vnodes[i]));
        }
    }
    assert(vnodes@.take(n as int) =~= vnodes@);
    let ghost kept = r@;
    for j in 0..add.len()
        invariant
            r@ == kept + add@.take(j as int),
    {
        r.push(clone_vnode(&add[j]));
        assert(add@.take(j as int + 1) =~= add@.take(j as int).push(add@[j as int]));
    }
    assert(add@.take(add@.len() as int) =~= add@);
    r
}

/// Changes the replication set `repl_id`: the vnodes with an id in `del`
/// leave it, and those of `add` join it at its end.
pub fn update_vnode_repl_set(
    shard_group: &mut Vec<ReplicationSet>,
    repl_id: u32,
    del: &Vec<u32>,
    add: &Vec<VnodeInfo>,
)
    ensures
        final(shard_group)@.len() == old(shard_group)@.len(),
        forall|i: int|
            0 <= i < old(shard_group)@.len() ==> set_view(#[trigger] final(shard_group)@[i])
                == changed_sets(old(shard_group)@, repl_id, del@, add@, i),
{
    let n = shard_group.len();
    let mut result: Vec<ReplicationSet> = Vec::new();
    for i in 0..n
        invariant
            n == shard_group@.len(),
            shard_group@ == old(shard_group)@,
            result@.len() == i,
            forall|k: int|
                0 <= k < i ==> set_view(#[trigger] result@[k]) == changed_sets(
                    old(shard_group)@,
                    repl_id,
                    del@,
                    add@,
                    k,
                ),
    {
        let set = &shard_group[i];
        let vnodes = if set.id == repl_id {
            change_vnodes(&set.vnodes, del, add)
        } else {
            let mut same: Vec<VnodeInfo> = Vec::new();
            for k in 0..set.vnodes.len()
                invariant
                    same@ == set.vnodes@.take(k as int),
            {
                same.push(clone_vnode(&set.vnodes[k]));
                assert(set.vnodes@.take(k as int + 1) =~= set.vnodes@.take(k as int).push(
                    set.vnodes@[k as int],
                ));
            }
            assert(set.vnodes@.take(set.vnodes@.len() as int) =~= set.vnodes@);
            same
        };
        result.push(ReplicationSet { id: set.id, vnodes });
    }
    *shard_group = result;
}

/// A table's schema may only move to the next version.
pub fn schema_update_conflict(stored_version: u32, new_version: u32) -> (r: Option<String>)
    ensures
        stored_version + 1 == new_version <==> r is None,
        r matches Some(m) ==> m@ == "update table schema conflict "@ + decimal_chars(
            stored_version as nat,
        ) + "->"@ + decimal_chars(new_version as nat),
{
    if stored_version as u64 + 1 == new_version as u64 {
        None
    } else {
        let mut m = String::from_str("update table schema conflict ");
        append_decimal(&mut m, stored_version as u64);
        m.append("->");
        append_decimal(&mut m, new_version as u64);
        Some(m)
    }
}

/// The next identifiers: the one stored (1 when none is, or it does not
/// read as a number) is handed out, and `count` more are reserved.
pub fn next_incr_id(stored: Option<u32>, count: u32) -> (r: (u32, u32))
    requires
        (match stored {
            Some(v) => v,
            None => 1,
        }) + count <= u32::MAX,
    ensures
        r.0 == (match stored {
            Some(v) => v,
            None => 1,
        }),
        r.1 == r.0 + count,
{
    let id = match stored {
        Some(v) => v,
        None => 1,
    };
    (id, id + count)
}

/// How a client that watches a tenant is answered.
#[derive(Debug, Clone, Copy, PartialEq, Eq)]
pub enum WatchAnswer {
    /// Send all of the tenant's metadata.
    FullLoad,
    /// Changes are waiting: answer at once.
    NotifyNow,
    /// Wait for the next change.
    Wait,
}

/// The client knows version `client_version`; the store is at `version`,
/// and the changes kept for the client span `delta_range` (0 when none).
/// A client too far behind the changes kept gets everything.
pub open spec fn watch_answer(version: u64, client_version: u64, delta_range: (u64, u64)) -> WatchAnswer {
    if version > client_version && (client_version < delta_range.0 || delta_range.0 == 0) {
        WatchAnswer::FullLoad
    } else if client_version < delta_range.1 {
        WatchAnswer::NotifyNow
    } else {
        WatchAnswer::Wait
    }
}

pub fn watch_decision(version: u64, client_version: u64, delta_range: (u64, u64)) -> (r: WatchAnswer)
    ensures
        r == watch_answer(version, client_version, delta_range),
{
    if version > client_version && (client_version < delta_range.0 || delta_range.0 == 0) {
        WatchAnswer::FullLoad
    } else if client_version < delta_range.1 {
        WatchAnswer::NotifyNow
    } else {
        WatchAnswer::Wait
    }
}

/// The changes kept for a watching client, and the versions they span.
#[derive(Debug, PartialEq, Eq)]
pub struct TenantMetaDataDelta<M> {
    /// Whether `update` holds the tenant's metadata in full.
    pub full_load: bool,
    /// The tenant's metadata, or the changes gathered; none when empty.
    pub update: Option<M>,
    pub ver_range: (u64, u64),
}

/// An empty delta whose version range was updated with `ver`: it spans
/// `ver` alone.
pub open spec fn fresh_delta<M>(ver: u64) -> TenantMetaDataDelta<M> {
    TenantMetaDataDelta { full_load: false, update: None, ver_range: (ver, ver) }
}

/// The delta a client starts from: the one kept for it, or an empty one.
pub open spec fn kept_delta<M>(stored: Option<TenantMetaDataDelta<M>>) -> TenantMetaDataDelta<M> {
    match stored {
        Some(d) => d,
        None => TenantMetaDataDelta { full_load: false, update: None, ver_range: (0, 0) },
    }
}

/// How a watch request is answered at once.
#[derive(Debug, PartialEq, Eq)]
pub enum WatchReply<M> {
    /// This delta, holding the tenant's metadata in full.
    FullLoad(TenantMetaDataDelta<M>),
    /// Changes are waiting: the client is woken at once.
    NotifyNow,
    /// The client waits for the next change.
    Wait,
}

/// A watch request of a client that knows `client_version`, while the
/// store is at `version`; `stored` is the delta kept for the client and
/// `tenant_meta` the tenant's metadata as the store holds it. The result
/// is the delta kept for the client afterwards and the answer. A client
/// too far behind gets the metadata in full and a delta that starts again
/// at `version`; otherwise its delta is kept as it was.
pub fn watch_step<M>(
    stored: Option<TenantMetaDataDelta<M>>,
    version: u64,
    client_version: u64,
    tenant_meta: M,
) -> (r: (TenantMetaDataDelta<M>, WatchReply<M>))
    ensures
        match watch_answer(version, client_version, kept_delta(stored).ver_range) {
            WatchAnswer::FullLoad => r.0 == fresh_delta::<M>(version) && r.1 == WatchReply::FullLoad(
                TenantMetaDataDelta { full_load: true, update: Some(tenant_meta), ver_range: (0u64, 0u64) },
            ),
            WatchAnswer::NotifyNow => r.0 == kept_delta(stored) && r.1 == WatchReply::<M>::NotifyNow,
            WatchAnswer::Wait => r.0 == kept_delta(stored) && r.1 == WatchReply::<M>::Wait,
        },
{
    let delta = match stored {
        Some(d) => d,
        None => TenantMetaDataDelta { full_load: false, update: None, ver_range: (0, 0) },
    };
    match watch_decision(version, client_version, delta.ver_range) {
        WatchAnswer::FullLoad => (
            TenantMetaDataDelta { full_load: false, update: None, ver_range: (version, version) },
            WatchReply::FullLoad(
                TenantMetaDataDelta { full_load: true, update: Some(tenant_meta), ver_range: (0, 0) },
            ),
        ),
        WatchAnswer::NotifyNow => (delta, WatchReply::NotifyNow),
        WatchAnswer::Wait => (delta, WatchReply::Wait),
    }
}

/// A woken client is sent the delta kept for it, and its delta starts
/// again at the lower end of the range it spanned.
pub fn watch_wake<M>(stored: TenantMetaDataDelta<M>) -> (r: (TenantMetaDataDelta<M>, TenantMetaDataDelta<M>))
    ensures
        r.0 == fresh_delta::<M>(stored.ver_range.0),
        r.1 == stored,
{
    let v = stored.ver_range.0;
    (TenantMetaDataDelta { full_load: false, update: None, ver_range: (v, v) }, stored)
}

/// After a full load at `version`, the client asking again from that
/// version, with the store still there, waits for the next change.
pub proof fn lemma_full_load_then_wait<M>(version: u64)
    ensures
        watch_answer(version, version, fresh_delta::<M>(version).ver_range) == WatchAnswer::Wait,
{
}

pub open spec fn dump_rule() -> Seq<char> {
    "******---------------------------******\n"@
}

pub open spec fn dump_end() -> Seq<char> {
    "******----------------------------------------------******\n"@
}

/// One line per entry, `* key: value`.
pub open spec fn dump_lines(entries: Seq<(Seq<char>, Seq<char>)>) -> Seq<char>
    decreases entries.len(),
{
    if entries.len() == 0 {
        Seq::empty()
    } else {
        dump_lines(entries.drop_last()) + "* "@ + entries.last().0 + ": "@ + entries.last().1 + "\n"@
    }
}

pub open spec fn entries_view(e: Seq<(String, String)>) -> Seq<(Seq<char>, Seq<char>)> {
    e.map_values(|p: (String, String)| (p.0@, p.1@))
}

/// The store's entries as text, between two rules.
pub fn debug_dump(entries: &Vec<(String, String)>) -> (r: String)
    ensures
        r@ == dump_rule() + dump_lines(entries_view(entries@)) + dump_end(),
{
    let mut r = String::from_str("******---------------------------******\n");
    let n = entries.len();
    for i in 0..n
        invariant
            n == entries@.len(),
            r@ == dump_rule() + dump_lines(entries_view(entries@.take(i as int))),
    {
        r.append("* ");
        r.append(entries[i].0.as_str());
        r.append(": ");
        r.append(entries[i].1.as_str());
        r.append("\n");
        proof {
            let t = entries_view(entries@.take(i as int + 1));
            assert(t.drop_last() =~= entries_view(entries@.take(i as int)));
            assert(t.last() == (entries@[i as int].0@, entries@[i as int].1@));
        }
    }
    r.append("******----------------------------------------------******\n");
    assert(entries@.take(n as int) =~= entries@);
    r
}

/// What `children` gives are direct children of the directory, taken from
/// the keys read.
pub proof fn lemma_children_are_direct(dir: Seq<char>, keys: Seq<Seq<char>>)
    ensures
        forall|i: int|
            0 <= i < children(dir, keys).len() ==> is_child(dir, #[trigger] children(dir, keys)[i])
                && keys.contains(children(dir, keys)[i]),
    decreases keys.len(),
{
    if keys.len() > 0 && dir.is_prefix_of(keys[0]) {
        lemma_children_are_direct(dir, keys.drop_first());
        let rest = children(dir, keys.drop_first());
        assert forall|i: int| 0 <= i < rest.len() implies keys.contains(#[trigger] rest[i]) by {
            let j = choose|j: int| 0 <= j < keys.drop_first().len() && keys.drop_first()[j] == rest[i];
            assert(keys[j + 1] == rest[i]);
        }
        if is_child(dir, keys[0]) {
            let c = children(dir, keys);
            assert(c =~= seq![keys[0]] + rest);
            assert forall|i: int| 0 <= i < c.len() implies is_child(dir, #[trigger] c[i]) && keys.contains(c[i]) by {
                if i == 0 {
                    assert(keys[0] == c[0]);
                } else {
                    assert(c[i] == rest[i - 1]);
                }
            }
        }
    }
}

} // verus!
