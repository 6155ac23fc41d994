use std::collections::VecDeque;
use vstd::prelude::*;

verus! {

/// A queue that keeps only the newest items: once it holds as many as its
/// limit, each push drops the oldest. A limit of zero acts as a limit of one.
pub struct LimitedQueue<T> {
    size: usize,
    queue: VecDeque<T>,
}

/// What a push makes of the items: the oldest leaves if the limit is reached,
/// and the new item joins at the end.
pub open spec fn pushed<T>(items: Seq<T>, limit: int, item: T) -> Seq<T> {
    if items.len() >= limit && items.len() > 0 {
        items.drop_first().push(item)
    } else {
        items.push(item)
    }
}

impl<T> LimitedQueue<T> {
    /// The items, oldest first.
    pub closed spec fn view(&self) -> Seq<T> {
        self.queue@
    }

    /// The number of items that the queue keeps.
    pub closed spec fn limit(&self) -> int {
        self.size as int
    }

    pub fn new(size: usize) -> (queue: Self)
        ensures
            queue@ == Seq::<T>::empty(),
            queue.limit() == size,
    {
        LimitedQueue { size, queue: VecDeque::new() }
    }

    /// Adds an item at the end, dropping the oldest first if the queue is
    /// full.
    pub fn push(&mut self, item: T)
        ensures
            final(self)@ == pushed(old(self)@, old(self).limit(), item),
            final(self).limit() == old(self).limit(),
    {
        if self.queue.len() >= self.size {
            self.queue.pop_front();
        }
        self.queue.push_back(item);
        assert(self.queue@ =~= pushed(old(self).queue@, old(self).size as int, item));
    }

    /// The item at `index`, counted from the oldest.
    pub fn get(&self, index: usize) -> (item: Option<&T>)
        ensures
            index < self@.len() ==> item == Some(&self@[index as int]),
            index >= self@.len() ==> item is None,
    {
        if index < self.queue.len() {
            Some(&self.queue[index])
        } else {
            None
        }
    }

    /// The number of items held.
    pub fn len(&self) -> (n: usize)
        ensures
            n == self@.len(),
    {
        self.queue.len()
    }
}

/// A push never lets the queue grow beyond its limit, a limit of zero counting
/// as one, and the item pushed is the newest.
pub proof fn lemma_push_keeps_limit<T>(items: Seq<T>, limit: int, item: T)
    requires
        0 <= limit,
        items.len() <= limit || items.len() <= 1,
    ensures
        pushed(items, limit, item).len() <= limit || pushed(items, limit, item).len() <= 1,
        pushed(items, limit, item).len() > 0,
        pushed(items, limit, item).last() == item,
{
}

/// While the queue is below its limit nothing is lost; at the limit exactly
/// the oldest item is lost and the others move up by one.
pub proof fn lemma_push_keeps_newest<T>(items: Seq<T>, limit: int, item: T, i: int)
    requires
        0 <= i < items.len(),
    ensures
        items.len() < limit ==> pushed(items, limit, item)[i] == items[i],
        items.len() >= limit && i >= 1 ==> pushed(items, limit, item)[i - 1] == items[i],
{
}

} // verus!
