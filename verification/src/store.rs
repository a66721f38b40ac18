//! The bounded store: the most recent records, oldest first, never more
//! of them than its capacity.

use crate::record::Record;
use std::collections::VecDeque;
use vstd::prelude::*;

verus! {

/// The last `n` items of `s`, or all of `s` where it has no more than `n`.
pub open spec fn keep_last<T>(s: Seq<T>, n: nat) -> Seq<T> {
    if s.len() <= n {
        s
    } else {
        s.subrange(s.len() - n, s.len() as int)
    }
}

/// What a store of the given capacity holds after `item` was pushed onto
/// `s`: the new item goes to the tail, and what no longer fits leaves at the
/// head.
pub open spec fn pushed<T>(s: Seq<T>, capacity: nat, item: T) -> Seq<T> {
    keep_last(s.push(item), capacity)
}

/// What a store of the given capacity holds after the items of `items` were
/// pushed onto `s`, one after the other.
pub open spec fn pushed_all<T>(s: Seq<T>, capacity: nat, items: Seq<T>) -> Seq<T>
    decreases items.len(),
{
    if items.len() == 0 {
        s
    } else {
        pushed(pushed_all(s, capacity, items.drop_last()), capacity, items.last())
    }
}

/// The capacity of a store after it was asked to grow to `n`: `n` where
/// that is more than it had, and what it had otherwise.
pub open spec fn grown(capacity: usize, n: usize) -> usize {
    if capacity >= n {
        capacity
    } else {
        n
    }
}

/// Growing is idempotent and never shrinks: to ask twice for the same
/// size is to ask once, and the capacity afterwards is neither below what
/// it was nor below what was asked for.
pub proof fn lemma_grown_is_idempotent(capacity: usize, n: usize)
    ensures
        grown(grown(capacity, n), n) == grown(capacity, n),
        grown(capacity, n) >= capacity,
        grown(capacity, n) >= n,
{
}

/// Pushing onto a store that is within its capacity leaves, whatever the
/// number of pushes, the last `capacity` items of everything that was ever
/// in it, in the order of arrival.
pub proof fn lemma_pushed_all_keeps_last<T>(s: Seq<T>, capacity: nat, items: Seq<T>)
    requires
        s.len() <= capacity,
    ensures
        pushed_all(s, capacity, items) == keep_last(s + items, capacity),
    decreases items.len(),
{
    if items.len() == 0 {
        assert(s + items =~= s);
    } else {
        let earlier = items.drop_last();
        lemma_pushed_all_keeps_last(s, capacity, earlier);
        assert((s + earlier).push(items.last()) =~= s + items);
        assert(keep_last(keep_last(s + earlier, capacity).push(items.last()), capacity)
            =~= keep_last(s + items, capacity));
    }
}

/// After any number of pushes onto an empty store, the store holds as
/// many records as were pushed, or as many as its capacity if that is
/// fewer.
pub proof fn lemma_pushes_fill_to_capacity<T>(capacity: nat, items: Seq<T>)
    ensures
        pushed_all(Seq::<T>::empty(), capacity, items).len() == if items.len() <= capacity {
            items.len()
        } else {
            capacity
        },
{
    lemma_pushed_all_keeps_last(Seq::<T>::empty(), capacity, items);
    assert(Seq::<T>::empty() + items =~= items);
}

/// After more pushes onto an empty store than its capacity, the store
/// holds exactly the last `capacity` of the pushed items, in the order in
/// which they were pushed: the oldest left first.
pub proof fn lemma_pushes_evict_oldest_first<T>(capacity: nat, items: Seq<T>)
    requires
        items.len() > capacity,
    ensures
        pushed_all(Seq::<T>::empty(), capacity, items) == items.subrange(
            items.len() - capacity,
            items.len() as int,
        ),
{
    lemma_pushed_all_keeps_last(Seq::<T>::empty(), capacity, items);
    assert(Seq::<T>::empty() + items =~= items);
}

/// A queue of records with a ceiling on its length. Its view is the
/// sequence of the records it holds, oldest first.
pub struct LogStore {
    records: VecDeque<Record>,
    capacity: usize,
}

impl View for LogStore {
    type V = Seq<Record>;

    closed spec fn view(&self) -> Seq<Record> {
        self.records@
    }
}

/// Asks the deque for room with `VecDeque::try_reserve`, and lets a refusal
/// pass.
///
/// Trusted: whether or not the room is granted, the deque holds the same
/// items in the same order afterwards.
#[verifier::external_body]
fn try_reserve(records: &mut VecDeque<Record>, additional: usize)
    ensures
        final(records)@ == old(records)@,
{
    let _ = records.try_reserve(additional);
}

impl LogStore {
    /// The ceiling on the number of records.
    pub closed spec fn spec_capacity(&self) -> usize {
        self.capacity
    }

    /// What holds of every store at all times: it holds no more records
    /// than its capacity.
    #[verifier::type_invariant]
    pub open spec fn within_capacity(&self) -> bool {
        self@.len() <= self.capacity()
    }

    /// A store that holds nothing and has room for nothing: give it room
    /// with `grow`.
    pub fn new() -> (store: LogStore)
        ensures
            store@ == Seq::<Record>::empty(),
            store.capacity() == 0,
    {
        LogStore { records: VecDeque::new(), capacity: 0 }
    }

    /// The ceiling on the number of records.
    #[verifier::when_used_as_spec(spec_capacity)]
    pub fn capacity(&self) -> (capacity: usize)
        ensures
            capacity == self.spec_capacity(),
    {
        self.capacity
    }

    /// The number of records held, which never exceeds the capacity.
    pub fn len(&self) -> (len: usize)
        ensures
            len == self@.len(),
            len <= self.capacity(),
    {
        proof {
            use_type_invariant(self);
        }
        self.records.len()
    }

    /// Asks for memory for `n` records in all, so that pushes up to that
    /// length need not allocate. Neither the records nor the capacity
    /// change.
    pub fn reserve(&mut self, n: usize)
        ensures
            final(self)@ == old(self)@,
            final(self).capacity() == old(self).capacity(),
            final(self)@.len() <= final(self).capacity(),
    {
        proof {
            use_type_invariant(&*self);
        }
        let mut records = VecDeque::new();
        std::mem::swap(&mut records, &mut self.records);
        let len = records.len();
        if n > len {
            try_reserve(&mut records, n - len);
        }
        self.records = records;
    }

    /// Raises the capacity to `n` where it is below it, and reserves memory
    /// for as many records. The capacity never shrinks, and the records
    /// stay.
    pub fn grow(&mut self, n: usize)
        ensures
            final(self)@ == old(self)@,
            final(self).capacity() == grown(old(self).capacity(), n),
            final(self)@.len() <= final(self).capacity(),
    {
        proof {
            use_type_invariant(&*self);
        }
        if self.capacity < n {
            self.capacity = n;
        }
        self.reserve(self.capacity);
    }

    /// Appends `record` at the tail. A store that is full first drops its
    /// oldest record; a store of capacity zero drops `record` itself and
    /// stays empty.
    pub fn push(&mut self, record: Record)
        ensures
            final(self)@ == pushed(old(self)@, old(self).capacity() as nat, record),
            final(self).capacity() == old(self).capacity(),
            final(self)@.len() <= final(self).capacity(),
    {
        proof {
            use_type_invariant(&*self);
        }
        if self.capacity == 0 {
            return ;
        }
        let mut records = VecDeque::new();
        std::mem::swap(&mut records, &mut self.records);
        if records.len() == self.capacity {
            records.pop_front();
        }
        records.push_back(record);
        self.records = records;
    }

    /// A copy of the records held, oldest first.
    pub fn snapshot(&self) -> (records: Vec<Record>)
        ensures
            records@ == self@,
            records@.len() <= self.capacity(),
    {
        proof {
            use_type_invariant(self);
        }
        let mut out: Vec<Record> = Vec::new();
        let mut i: usize = 0;
        while i < self.records.len()
            invariant
                i <= self.records@.len(),
                out@ == self.records@.subrange(0, i as int),
            decreases self.records@.len() - i,
        {
            out.push(self.records[i].clone());
            i += 1;
        }
        out
    }
}

} // verus!
