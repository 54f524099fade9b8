use cnosdb::conn_pool::{IdleConnections, MAX_IDLE_CONNECTIONS};

#[test]
fn connections_come_back_oldest_first() {
    let mut pool: IdleConnections<&str> = IdleConnections::new();
    assert_eq!(pool.take(1), None);
    pool.put(1, "a");
    pool.put(1, "b");
    pool.put(2, "c");
    assert_eq!(pool.take(1), Some("a"));
    assert_eq!(pool.take(1), Some("b"));
    assert_eq!(pool.take(1), None);
    assert_eq!(pool.take(2), Some("c"));
}

#[test]
fn at_most_the_limit_is_kept() {
    let mut pool: IdleConnections<usize> = IdleConnections::new();
    for i in 0..MAX_IDLE_CONNECTIONS + 5 {
        pool.put(7, i);
    }
    let mut taken = vec![];
    while let Some(c) = pool.take(7) {
        taken.push(c);
    }
    assert_eq!(taken, (0..MAX_IDLE_CONNECTIONS).collect::<Vec<_>>());
    pool.put(7, 99);
    pool.remove_node(7);
    assert_eq!(pool.take(7), None);
}
