//! The idle connections kept to each data node: taken oldest first, and
//! given back only while a node has fewer than its limit.
use std::collections::HashMap;
use vstd::prelude::*;

verus! {

/// The most idle connections kept to one node; more are closed.
pub const MAX_IDLE_CONNECTIONS: usize = 32;

/// The idle connections to a node, none where the node is unknown.
pub open spec fn idle_of<T>(m: Map<u64, Seq<T>>, node: u64) -> Seq<T> {
    if m.contains_key(node) {
        m[node]
    } else {
        Seq::empty()
    }
}

/// The idle connections after one is given back to `node`.
pub open spec fn after_put<T>(m: Map<u64, Seq<T>>, node: u64, conn: T) -> Map<u64, Seq<T>> {
    if idle_of(m, node).len() < MAX_IDLE_CONNECTIONS {
        m.insert(node, idle_of(m, node).push(conn))
    } else {
        m.insert(node, idle_of(m, node))
    }
}

/// The connection taken from `node`, and the idle connections after.
pub open spec fn after_take<T>(m: Map<u64, Seq<T>>, node: u64) -> (Option<T>, Map<u64, Seq<T>>) {
    if idle_of(m, node).len() > 0 {
        (Some(idle_of(m, node)[0]), m.insert(node, idle_of(m, node).drop_first()))
    } else {
        (None, m.insert(node, Seq::empty()))
    }
}

/// Idle connections by node, oldest first.
pub struct IdleConnections<T> {
    conns: HashMap<u64, Vec<T>>,
}

impl<T> View for IdleConnections<T> {
    type V = Map<u64, Seq<T>>;

    closed spec fn view(&self) -> Map<u64, Seq<T>> {
        self.conns@.map_values(|v: Vec<T>| v@)
    }
}

impl<T> IdleConnections<T> {
    /// No node holds more than the limit.
    pub open spec fn wf(&self) -> bool {
        forall|n: u64| #[trigger] self@.contains_key(n) ==> self@[n].len() <= MAX_IDLE_CONNECTIONS
    }

    pub fn new() -> (r: Self)
        ensures
            r@ == Map::<u64, Seq<T>>::empty(),
            r.wf(),
    {
        let r = IdleConnections { conns: HashMap::new() };
        assert(r@ =~= Map::<u64, Seq<T>>::empty());
        r
    }

    /// The oldest idle connection to `node`, if there is one; the node is
    /// known afterwards.
    pub fn take(&mut self, node: u64) -> (r: Option<T>)
        requires
            old(self).wf(),
        ensures
            final(self).wf(),
            (r, final(self)@) == after_take(old(self)@, node),
    {
        broadcast use vstd::std_specs::hash::group_hash_axioms;

        let ghost before = self@;
        let mut list = match self.conns.remove(&node) {
            Some(v) => v,
            None => Vec::new(),
        };
        assert(list@ == idle_of(before, node));
        let r = if list.len() > 0 {
            Some(list.remove(0))
        } else {
            None
        };
        self.conns.insert(node, list);
        proof {
            assert(self@ =~= before.insert(node, list@));
            if idle_of(before, node).len() > 0 {
                assert(list@ =~= idle_of(before, node).drop_first());
            } else {
                assert(list@ =~= Seq::<T>::empty());
            }
        }
        r
    }

    /// Gives back a connection to `node`: it is kept, last, while the node
    /// has fewer idle connections than the limit, and closed otherwise.
    pub fn put(&mut self, node: u64, conn: T)
        requires
            old(self).wf(),
        ensures
            final(self).wf(),
            final(self)@ == after_put(old(self)@, node, conn),
    {
        broadcast use vstd::std_specs::hash::group_hash_axioms;

        let ghost before = self@;
        let mut list = match self.conns.remove(&node) {
            Some(v) => v,
            None => Vec::new(),
        };
        assert(list@ == idle_of(before, node));
        if list.len() < MAX_IDLE_CONNECTIONS {
            list.push(conn);
        }
        self.conns.insert(node, list);
        assert(self@ =~= before.insert(node, list@));
    }

    /// Forgets a node that left the cluster, and its connections.
    pub fn remove_node(&mut self, node: u64)
        requires
            old(self).wf(),
        ensures
            final(self).wf(),
            final(self)@ == old(self)@.remove(node),
    {
        broadcast use vstd::std_specs::hash::group_hash_axioms;

        let ghost before = self@;
        self.conns.remove(&node);
        assert(self@ =~= before.remove(node));
    }
}

/// Connections are taken back in the order they were given back: after
/// `conn` is given back to a node whose idle connections are `s` (fewer
/// than the limit), taking from it gives the first of `s`, or `conn` when
/// there was none.
pub proof fn lemma_put_then_take<T>(m: Map<u64, Seq<T>>, node: u64, conn: T)
    requires
        idle_of(m, node).len() < MAX_IDLE_CONNECTIONS,
    ensures
        after_take(after_put(m, node, conn), node).0 == Some(
            if idle_of(m, node).len() == 0 {
                conn
            } else {
                idle_of(m, node)[0]
            },
        ),
{
    let p = after_put(m, node, conn);
    assert(idle_of(p, node) == idle_of(m, node).push(conn));
}

} // verus!
