//! The metadata store's keys and values, held as values, with the change
//! log that watching clients read: every write or deletion of a key is
//! logged with the store's version, whether or not the key was there.
use vstd::prelude::*;

use crate::text::str_eq;

verus! {

/// What a change-log entry records.
#[derive(Debug, Clone, Copy, PartialEq, Eq, Structural)]
pub enum EntryKind {
    Write,
    Delete,
}

/// One entry of the change log.
#[derive(Debug, Clone, PartialEq, Eq)]
pub struct EntryLog {
    pub tye: EntryKind,
    pub ver: u64,
    pub key: String,
    /// The value written; empty for a deletion.
    pub val: String,
}

/// The store: each key once, with its value, and the change log.
#[derive(Debug)]
pub struct KvStore {
    entries: Vec<(String, String)>,
    log: Vec<EntryLog>,
}

/// The keys and values as a map; a later entry for a key wins.
pub open spec fn kv_map(s: Seq<(String, String)>) -> Map<Seq<char>, Seq<char>>
    decreases s.len(),
{
    if s.len() == 0 {
        Map::empty()
    } else {
        kv_map(s.drop_last()).insert(s.last().0@, s.last().1@)
    }
}

/// No key is held twice.
pub open spec fn keys_distinct(s: Seq<(String, String)>) -> bool {
    forall|i: int, j: int| 0 <= i < j < s.len() ==> #[trigger] s[i].0@ != #[trigger] s[j].0@
}

/// A log entry as values.
pub open spec fn log_view(e: EntryLog) -> (EntryKind, u64, Seq<char>, Seq<char>) {
    (e.tye, e.ver, e.key@, e.val@)
}

proof fn lemma_kv_map_keys(s: Seq<(String, String)>, k: Seq<char>)
    ensures
        kv_map(s).contains_key(k) <==> exists|i: int| 0 <= i < s.len() && #[trigger] s[i].0@ == k,
    decreases s.len(),
{
    if s.len() > 0 {
        lemma_kv_map_keys(s.drop_last(), k);
        if kv_map(s.drop_last()).contains_key(k) {
            let i = choose|i: int| 0 <= i < s.drop_last().len() && #[trigger] s.drop_last()[i].0@ == k;
            assert(s[i].0@ == k);
        }
        if exists|i: int| 0 <= i < s.len() && #[trigger] s[i].0@ == k {
            let i = choose|i: int| 0 <= i < s.len() && #[trigger] s[i].0@ == k;
            if i < s.len() - 1 {
                assert(s.drop_last()[i].0@ == k);
            }
        }
    }
}

proof fn lemma_kv_map_at(s: Seq<(String, String)>, i: int)
    requires
        keys_distinct(s),
        0 <= i < s.len(),
    ensures
        kv_map(s).contains_key(s[i].0@),
        kv_map(s)[s[i].0@] == s[i].1@,
    decreases s.len(),
{
    if i < s.len() - 1 {
        assert(keys_distinct(s.drop_last()));
        lemma_kv_map_at(s.drop_last(), i);
        assert(s.drop_last()[i] == s[i]);
        assert(s.last().0@ != s[i].0@);
    }
}

proof fn lemma_kv_map_update(s: Seq<(String, String)>, i: int, v: String)
    requires
        keys_distinct(s),
        0 <= i < s.len(),
    ensures
        kv_map(s.update(i, (s[i].0, v))) == kv_map(s).insert(s[i].0@, v@),
    decreases s.len(),
{
    let t = s.update(i, (s[i].0, v));
    if i == s.len() - 1 {
        assert(t.drop_last() =~= s.drop_last());
        lemma_kv_map_keys(s.drop_last(), s[i].0@);
        assert(kv_map(s.drop_last()).insert(s[i].0@, v@) =~= kv_map(s).insert(s[i].0@, v@));
    } else {
        assert(keys_distinct(s.drop_last()));
        lemma_kv_map_update(s.drop_last(), i, v);
        assert(t.drop_last() =~= s.drop_last().update(i, (s[i].0, v)));
        assert(s.last().0@ != s[i].0@);
        assert(kv_map(t) =~= kv_map(s).insert(s[i].0@, v@));
    }
}

proof fn lemma_kv_map_remove(s: Seq<(String, String)>, i: int)
    requires
        keys_distinct(s),
        0 <= i < s.len(),
    ensures
        kv_map(s.remove(i)) == kv_map(s).remove(s[i].0@),
    decreases s.len(),
{
    let k = s[i].0@;
    if i == s.len() - 1 {
        assert(s.remove(i) =~= s.drop_last());
        assert forall|j: int| 0 <= j < s.drop_last().len() implies #[trigger] s.drop_last()[j].0@ != k by {
            assert(s[j].0@ != s[i].0@);
        }
        lemma_kv_map_keys(s.drop_last(), k);
        assert(kv_map(s.drop_last()) =~= kv_map(s).remove(k));
    } else {
        assert(keys_distinct(s.drop_last()));
        lemma_kv_map_remove(s.drop_last(), i);
        assert(s.remove(i).drop_last() =~= s.drop_last().remove(i));
        assert(s.remove(i).last() == s.last());
        assert(s.last().0@ != k);
        assert(kv_map(s.remove(i)) =~= kv_map(s).remove(k));
    }
}

impl KvStore {
    /// The keys and values.
    pub closed spec fn view_map(&self) -> Map<Seq<char>, Seq<char>> {
        kv_map(self.entries@)
    }

    /// The change log.
    pub closed spec fn log_seq(&self) -> Seq<EntryLog> {
        self.log@
    }

    pub closed spec fn wf(&self) -> bool {
        keys_distinct(self.entries@)
    }

    pub fn new() -> (r: KvStore)
        ensures
            r.wf(),
            r.view_map() == Map::<Seq<char>, Seq<char>>::empty(),
            r.log_seq().len() == 0,
    {
        KvStore { entries: Vec::new(), log: Vec::new() }
    }

    /// The position of `key`, if the store holds it.
    fn position(&self, key: &str) -> (r: Option<usize>)
        ensures
            match r {
                Some(i) => i < self.entries@.len() && self.entries@[i as int].0@ == key@,
                None => forall|i: int| 0 <= i < self.entries@.len() ==> #[trigger] self.entries@[i].0@ != key@,
            },
    {
        let n = self.entries.len();
        for i in 0..n
            invariant
                n == self.entries@.len(),
                forall|j: int| 0 <= j < i ==> #[trigger] self.entries@[j].0@ != key@,
        {
            if str_eq(self.entries[i].0.as_str(), key) {
                return Some(i);
            }
        }
        None
    }

    /// The value of `key`, if the store holds it.
    pub fn get(&self, key: &str) -> (r: Option<&String>)
        requires
            self.wf(),
        ensures
            match r {
                Some(v) => self.view_map().contains_key(key@) && v@ == self.view_map()[key@],
                None => !self.view_map().contains_key(key@),
            },
    {
        proof {
            lemma_kv_map_keys(self.entries@, key@);
        }
        match self.position(key) {
            Some(i) => {
                proof {
                    lemma_kv_map_at(self.entries@, i as int);
                }
                Some(&self.entries[i].1)
            },
            None => None,
        }
    }

    /// Writes `val` under `key` and logs the write with `ver`.
    pub fn insert(&mut self, key: &str, val: &str, ver: u64)
        requires
            old(self).wf(),
        ensures
            final(self).wf(),
            final(self).view_map() == old(self).view_map().insert(key@, val@),
            final(self).log_seq().map_values(|e: EntryLog| log_view(e)) == old(self).log_seq().map_values(
                |e: EntryLog| log_view(e),
            ).push((EntryKind::Write, ver, key@, val@)),
    {
        let ghost before = self.entries@;
        let ghost log_before = self.log@;
        match self.position(key) {
            Some(i) => {
                let k = self.entries[i].0.clone();
                self.entries.set(i, (k, val.to_owned()));
                proof {
                    lemma_kv_map_update(before, i as int, self.entries@[i as int].1);
                    assert(self.entries@ == before.update(i as int, (before[i as int].0, self.entries@[i as int].1)));
                    assert forall|a: int, b: int|
                        0 <= a < b < self.entries@.len() implies #[trigger] self.entries@[a].0@
                        != #[trigger] self.entries@[b].0@ by {
                        assert(self.entries@[a].0@ == before[a].0@);
                        assert(self.entries@[b].0@ == before[b].0@);
                    }
                }
            },
            None => {
                self.entries.push((key.to_owned(), val.to_owned()));
                proof {
                    assert(self.entries@.drop_last() =~= before);
                    assert forall|a: int, b: int|
                        0 <= a < b < self.entries@.len() implies #[trigger] self.entries@[a].0@
                        != #[trigger] self.entries@[b].0@ by {
                        if b < before.len() {
                            assert(self.entries@[a] == before[a]);
                            assert(self.entries@[b] == before[b]);
                        } else {
                            assert(self.entries@[a] == before[a]);
                        }
                    }
                }
            },
        }
        self.log.push(EntryLog { tye: EntryKind::Write, ver, key: key.to_owned(), val: val.to_owned() });
        proof {
            assert(self.log@.map_values(|e: EntryLog| log_view(e)) =~= log_before.map_values(
                |e: EntryLog| log_view(e),
            ).push((EntryKind::Write, ver, key@, val@)));
        }
    }

    /// Deletes `key`, if the store holds it, and logs the deletion with
    /// `ver` either way.
    pub fn remove(&mut self, key: &str, ver: u64)
        requires
            old(self).wf(),
        ensures
            final(self).wf(),
            final(self).view_map() == old(self).view_map().remove(key@),
            final(self).log_seq().map_values(|e: EntryLog| log_view(e)) == old(self).log_seq().map_values(
                |e: EntryLog| log_view(e),
            ).push((EntryKind::Delete, ver, key@, Seq::<char>::empty())),
    {
        let ghost before = self.entries@;
        let ghost log_before = self.log@;
        match self.position(key) {
            Some(i) => {
                self.entries.remove(i);
                proof {
                    lemma_kv_map_remove(before, i as int);
                    assert forall|a: int, b: int|
                        0 <= a < b < self.entries@.len() implies #[trigger] self.entries@[a].0@
                        != #[trigger] self.entries@[b].0@ by {
                        let a0 = if a < i { a } else { a + 1 };
                        let b0 = if b < i { b } else { b + 1 };
                        assert(self.entries@[a] == before[a0]);
                        assert(self.entries@[b] == before[b0]);
                    }
                }
            },
            None => {
                proof {
                    lemma_kv_map_keys(before, key@);
                    assert(kv_map(before).remove(key@) =~= kv_map(before));
                }
            },
        }
        self.log.push(EntryLog { tye: EntryKind::Delete, ver, key: key.to_owned(), val: String::new() });
        proof {
            assert(self.log@.map_values(|e: EntryLog| log_view(e)) =~= log_before.map_values(
                |e: EntryLog| log_view(e),
            ).push((EntryKind::Delete, ver, key@, Seq::<char>::empty())));
        }
    }

    /// The change log, oldest entry first.
    pub fn log_entries(&self) -> (r: &Vec<EntryLog>)
        ensures
            r@ == self.log_seq(),
    {
        &self.log
    }
}

/// A read gives back what the last write wrote, and a write or deletion of
/// one key leaves every other key as it was.
pub proof fn lemma_read_after_write(
    before: Map<Seq<char>, Seq<char>>,
    after_write: Map<Seq<char>, Seq<char>>,
    after_remove: Map<Seq<char>, Seq<char>>,
    key: Seq<char>,
    val: Seq<char>,
    other: Seq<char>,
)
    requires
        after_write == before.insert(key, val),
        after_remove == before.remove(key),
        other != key,
    ensures
        after_write.contains_key(key) && after_write[key] == val,
        !after_remove.contains_key(key),
        after_write.contains_key(other) == before.contains_key(other),
        after_remove.contains_key(other) == before.contains_key(other),
        before.contains_key(other) ==> after_write[other] == before[other] && after_remove[other]
            == before[other],
{
}

} // verus!
