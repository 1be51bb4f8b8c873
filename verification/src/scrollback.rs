//! Fixed-capacity FIFO scrollback buffer.

use std::collections::VecDeque;
use vstd::prelude::*;
use vstd::std_specs::iter::IteratorSpec;

verus! {

/// Fixed-capacity ring buffer for scrollback lines.
/// FIFO: the oldest items are dropped when capacity is reached.
pub struct RingBuffer<T> {
    buffer: VecDeque<T>,
    capacity: usize,
}

/// The newest `n` items of `s` (all of them when there are at most `n`),
/// oldest first.
pub open spec fn newest<T>(s: Seq<T>, n: nat) -> Seq<T> {
    if s.len() <= n {
        s
    } else {
        s.subrange(s.len() - n, s.len() as int)
    }
}

/// What `push` does to the contents: append, then keep the newest
/// `capacity` items (the oldest one goes when the buffer was full; with
/// capacity 0 nothing is kept).
pub open spec fn pushed<T>(items: Seq<T>, capacity: nat, item: T) -> Seq<T> {
    newest(items.push(item), capacity)
}

/// The contents after pushing `xs` in order onto `items`.
pub open spec fn pushed_all<T>(items: Seq<T>, capacity: nat, xs: Seq<T>) -> Seq<T>
    decreases xs.len(),
{
    if xs.len() == 0 {
        items
    } else {
        pushed(pushed_all(items, capacity, xs.drop_last()), capacity, xs.last())
    }
}

impl<T> RingBuffer<T> {
    /// A buffer never holds more items than its capacity.
    #[verifier::type_invariant]
    spec fn within_capacity(&self) -> bool {
        self.buffer@.len() <= self.capacity
    }

    /// The items currently held, oldest first.
    pub closed spec fn items(&self) -> Seq<T> {
        self.buffer@
    }

    /// The capacity the buffer was created with.
    pub closed spec fn cap(&self) -> nat {
        self.capacity as nat
    }

    /// Create a new ring buffer with the given capacity.
    pub fn new(capacity: usize) -> (r: Self)
        ensures
            r.items() == Seq::<T>::empty(),
            r.cap() == capacity,
    {
        RingBuffer { buffer: VecDeque::with_capacity(capacity), capacity }
    }

    /// Push an item: drops the oldest one if at capacity; a buffer of
    /// capacity 0 stays empty. The buffer never exceeds its capacity.
    pub fn push(&mut self, item: T)
        ensures
            final(self).items() == pushed(old(self).items(), old(self).cap(), item),
            final(self).cap() == old(self).cap(),
            final(self).items().len() <= final(self).cap(),
    {
        proof {
            use_type_invariant(&*self);
        }
        if self.capacity == 0 {
            return;
        }
        let mut buffer = VecDeque::new();
        std::mem::swap(&mut buffer, &mut self.buffer);
        let ghost before = buffer@;
        if buffer.len() >= self.capacity {
            let _ = buffer.pop_front();
        }
        buffer.push_back(item);
        proof {
            assert(buffer@ =~= newest(before.push(item), self.capacity as nat));
        }
        self.buffer = buffer;
    }

    /// Push line data to the buffer (same as `push`).
    pub fn push_line(&mut self, item: T)
        ensures
            final(self).items() == pushed(old(self).items(), old(self).cap(), item),
            final(self).cap() == old(self).cap(),
            final(self).items().len() <= final(self).cap(),
    {
        self.push(item);
    }

    /// Current number of items, never more than the capacity.
    pub fn len(&self) -> (n: usize)
        ensures
            n == self.items().len(),
            n <= self.cap(),
    {
        proof {
            use_type_invariant(self);
        }
        self.buffer.len()
    }

    /// Whether the buffer holds no items.
    pub fn is_empty(&self) -> (b: bool)
        ensures
            b == (self.items().len() == 0),
    {
        self.buffer.len() == 0
    }

    /// Whether the buffer is at (or over) capacity.
    pub fn is_full(&self) -> (b: bool)
        ensures
            b == (self.items().len() >= self.cap()),
    {
        self.buffer.len() >= self.capacity
    }

    /// Iterator over the items, oldest first.
    pub fn iter(&self) -> (it: std::collections::vec_deque::Iter<'_, T>)
        ensures
            it.remaining() == self.items().as_ref(),
            IteratorSpec::decrease(&it) is Some,
            IteratorSpec::initial_value_relation(&it, &it),
    {
        broadcast use vstd::std_specs::vecdeque::group_vec_dequeue_axioms;
        self.buffer.iter()
    }

    /// Remove all items.
    pub fn clear(&mut self)
        ensures
            final(self).items() == Seq::<T>::empty(),
            final(self).cap() == old(self).cap(),
    {
        self.buffer = VecDeque::new();
    }
}

proof fn lemma_newest_push<T>(s: Seq<T>, n: nat, x: T)
    ensures
        newest(newest(s, n).push(x), n) == newest(s.push(x), n),
{
    assert(newest(newest(s, n).push(x), n) =~= newest(s.push(x), n));
}

/// FIFO: pushing `xs` in order onto an empty buffer of capacity `capacity`
/// leaves exactly the newest `min(|xs|, capacity)` of them, oldest first.
pub proof fn lemma_pushes_keep_newest<T>(xs: Seq<T>, capacity: nat)
    ensures
        pushed_all(Seq::empty(), capacity, xs) == newest(xs, capacity),
        pushed_all(Seq::empty(), capacity, xs).len() == if xs.len() <= capacity {
            xs.len()
        } else {
            capacity
        },
    decreases xs.len(),
{
    if xs.len() > 0 {
        lemma_pushes_keep_newest(xs.drop_last(), capacity);
        lemma_newest_push(xs.drop_last(), capacity, xs.last());
        assert(xs.drop_last().push(xs.last()) =~= xs);
    }
}

} // verus!
