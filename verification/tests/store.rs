use cursive_logger::{Level, LogStore, Record};

fn record(n: usize) -> Record {
    Record {
        level: Level::Info,
        time: time::OffsetDateTime::UNIX_EPOCH + time::Duration::seconds(n as i64),
        message: format!("{}", n),
    }
}

fn store_of(capacity: usize) -> LogStore {
    let mut store = LogStore::new();
    store.grow(capacity);
    store
}

fn messages(store: &LogStore) -> Vec<String> {
    store.snapshot().into_iter().map(|r| r.message).collect()
}

fn numbered(from: usize, to: usize) -> Vec<String> {
    (from..=to).map(|n| format!("{}", n)).collect()
}

#[test]
fn new_store_is_empty_and_has_no_room() {
    let store = LogStore::new();
    assert_eq!(store.len(), 0);
    assert_eq!(store.capacity(), 0);
    assert!(store.snapshot().is_empty());
}

#[test]
fn length_is_the_lesser_of_pushes_and_capacity() {
    for capacity in [0usize, 1, 2, 3, 7, 16] {
        let mut store = store_of(capacity);
        for n in 1..=20usize {
            store.push(record(n));
            assert_eq!(store.len(), n.min(capacity));
            assert!(store.len() <= store.capacity());
            assert_eq!(store.capacity(), capacity);
        }
    }
}

#[test]
fn oldest_records_leave_first() {
    let mut store = store_of(3);
    for n in 1..=10 {
        store.push(record(n));
    }
    assert_eq!(messages(&store), numbered(8, 10));
}

#[test]
fn full_store_keeps_the_newest_in_order() {
    for capacity in 1..=6usize {
        for pushes in (capacity + 1)..=15 {
            let mut store = store_of(capacity);
            for n in 1..=pushes {
                store.push(record(n));
            }
            assert_eq!(messages(&store), numbered(pushes - capacity + 1, pushes));
        }
    }
}

#[test]
fn store_below_capacity_keeps_everything_in_order() {
    let mut store = store_of(5);
    for n in 1..=5 {
        store.push(record(n));
        assert_eq!(messages(&store), numbered(1, n));
    }
    store.push(record(6));
    assert_eq!(messages(&store), numbered(2, 6));
}

#[test]
fn store_of_capacity_one_holds_the_last_record() {
    let mut store = store_of(1);
    store.push(record(1));
    assert_eq!(messages(&store), numbered(1, 1));
    store.push(record(2));
    assert_eq!(messages(&store), numbered(2, 2));
}

#[test]
fn store_of_capacity_zero_stays_empty() {
    let mut store = LogStore::new();
    for n in 1..=5 {
        store.push(record(n));
        assert_eq!(store.len(), 0);
        assert!(store.snapshot().is_empty());
    }
    assert_eq!(store.capacity(), 0);
}

#[test]
fn grow_raises_the_capacity_and_keeps_the_records() {
    let mut store = store_of(2);
    store.push(record(1));
    store.push(record(2));
    store.grow(4);
    assert_eq!(store.capacity(), 4);
    assert_eq!(messages(&store), numbered(1, 2));
    store.push(record(3));
    store.push(record(4));
    store.push(record(5));
    assert_eq!(messages(&store), numbered(2, 5));
}

#[test]
fn grow_never_shrinks() {
    let mut store = store_of(4);
    for n in 1..=4 {
        store.push(record(n));
    }
    store.grow(2);
    assert_eq!(store.capacity(), 4);
    store.grow(0);
    assert_eq!(store.capacity(), 4);
    assert_eq!(messages(&store), numbered(1, 4));
}

#[test]
fn grow_is_idempotent() {
    let mut store = LogStore::new();
    store.grow(3);
    store.grow(3);
    assert_eq!(store.capacity(), 3);
    assert_eq!(store.len(), 0);
}

#[test]
fn grow_to_the_largest_size_does_not_fail() {
    let mut store = store_of(2);
    store.push(record(1));
    store.grow(usize::MAX);
    assert_eq!(store.capacity(), usize::MAX);
    assert_eq!(messages(&store), numbered(1, 1));
    store.push(record(2));
    store.push(record(3));
    assert_eq!(messages(&store), numbered(1, 3));
}

#[test]
fn reserve_changes_neither_records_nor_capacity() {
    let mut store = store_of(2);
    store.push(record(1));
    store.reserve(100);
    assert_eq!(store.capacity(), 2);
    assert_eq!(messages(&store), numbered(1, 1));
    store.reserve(0);
    store.reserve(usize::MAX);
    assert_eq!(store.capacity(), 2);
    store.push(record(2));
    store.push(record(3));
    assert_eq!(messages(&store), numbered(2, 3));
}

#[test]
fn snapshot_is_a_copy() {
    let mut store = store_of(2);
    store.push(record(1));
    let before = store.snapshot();
    store.push(record(2));
    store.push(record(3));
    assert_eq!(before.len(), 1);
    assert_eq!(before[0].message, "1");
    assert_eq!(before[0].level, Level::Info);
    assert_eq!(before[0].time, time::OffsetDateTime::UNIX_EPOCH + time::Duration::seconds(1));
    assert_eq!(messages(&store), numbered(2, 3));
}

#[test]
fn snapshot_sees_the_store_before_or_after_a_push() {
    let mut store = store_of(3);
    for n in 1..=5usize {
        let before = store.snapshot().len();
        store.push(record(n));
        let after = store.snapshot().len();
        assert_eq!(before, (n - 1).min(3));
        assert_eq!(after, n.min(3));
        assert_eq!(after, store.len());
    }
}

#[test]
fn record_clone_keeps_every_field() {
    let source = Record {
        level: Level::Warn,
        time: time::OffsetDateTime::UNIX_EPOCH + time::Duration::days(365),
        message: String::from("disk almost full"),
    };
    let copy = source.clone();
    assert_eq!(copy.level, source.level);
    assert_eq!(copy.time, source.time);
    assert_eq!(copy.message, source.message);
}
