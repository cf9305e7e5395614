//! A bounded first-in, first-out queue between one producer and one consumer.
//!
//! A full queue refuses an item and hands it back, so that the producer can
//! wait and offer it again: nothing is ever dropped to make room. Once the
//! consumer has closed the queue it refuses every item.
//!
//! The queue is plain data with one owner at a time; tasks that share it put it
//! behind a lock of their own. What it holds is then a value that a contract
//! can speak of, which the contents of a channel, changing under the hands of
//! another task between two calls, are not.

use std::collections::VecDeque;
use vstd::prelude::*;

verus! {

/// What became of an item offered to a queue.
#[derive(Debug, PartialEq, Eq)]
pub enum Offer<T> {
    /// The item is in the queue, behind all that were there.
    Accepted,
    /// The queue is full; here is the item back.
    Full(T),
    /// The consumer is gone; here is the item back.
    Closed(T),
}

/// The queue that holds `queue` after `item` is offered to it, given its
/// capacity and whether it is closed.
pub open spec fn after_offer<T>(queue: Seq<T>, capacity: nat, closed: bool, item: T) -> Seq<T> {
    if !closed && queue.len() < capacity {
        queue.push(item)
    } else {
        queue
    }
}

/// The queue after each of `items` is offered to it in turn.
pub open spec fn after_offers<T>(queue: Seq<T>, capacity: nat, closed: bool, items: Seq<T>) -> Seq<
    T,
>
    decreases items.len(),
{
    if items.len() == 0 {
        queue
    } else {
        after_offer(
            after_offers(queue, capacity, closed, items.drop_last()),
            capacity,
            closed,
            items.last(),
        )
    }
}

/// A queue of at most `capacity` items.
#[derive(Debug)]
pub struct BoundedQueue<T> {
    items: VecDeque<T>,
    capacity: usize,
    closed: bool,
}

impl<T> View for BoundedQueue<T> {
    type V = Seq<T>;

    /// The items in the queue, oldest first.
    closed spec fn view(&self) -> Seq<T> {
        self.items@
    }
}

impl<T> BoundedQueue<T> {
    #[verifier::type_invariant]
    spec fn bounded(self) -> bool {
        self.items@.len() <= self.capacity
    }

    /// The most items that the queue holds at a time.
    pub closed spec fn limit(self) -> nat {
        self.capacity as nat
    }

    /// Whether the consumer has closed the queue.
    pub closed spec fn shut(self) -> bool {
        self.closed
    }

    /// An empty, open queue for at most `capacity` items.
    pub fn new(capacity: usize) -> (q: Self)
        ensures
            q@ == Seq::<T>::empty(),
            q.limit() == capacity,
            !q.shut(),
    {
        BoundedQueue { items: VecDeque::new(), capacity, closed: false }
    }

    /// The most items that the queue holds at a time.
    pub fn capacity(&self) -> (n: usize)
        ensures
            n == self.limit(),
            self@.len() <= n,
    {
        proof {
            use_type_invariant(self);
        }
        self.capacity
    }

    /// The number of items in the queue.
    pub fn len(&self) -> (n: usize)
        ensures
            n == self@.len(),
            n <= self.limit(),
    {
        proof {
            use_type_invariant(self);
        }
        self.items.len()
    }

    /// Whether the queue holds no item.
    pub fn is_empty(&self) -> (b: bool)
        ensures
            b == (self@.len() == 0),
    {
        self.items.len() == 0
    }

    /// Whether the queue holds as many items as it can.
    pub fn is_full(&self) -> (b: bool)
        ensures
            b == (self@.len() == self.limit()),
    {
        proof {
            use_type_invariant(self);
        }
        self.items.len() == self.capacity
    }

    /// Whether the consumer has closed the queue.
    pub fn is_closed(&self) -> (b: bool)
        ensures
            b == self.shut(),
    {
        self.closed
    }

    /// Closes the queue for the producer. What is in it stays.
    pub fn close(&mut self)
        ensures
            final(self).shut(),
            final(self)@ == old(self)@,
            final(self).limit() == old(self).limit(),
    {
        proof {
            use_type_invariant(&*self);
        }
        self.closed = true;
    }

    /// Offers `item` to the queue. An open queue with room takes it at the
    /// back; a closed or full queue hands it back and stays as it was.
    pub fn push(&mut self, item: T) -> (r: Offer<T>)
        ensures
            final(self)@ == after_offer(old(self)@, old(self).limit(), old(self).shut(), item),
            final(self).limit() == old(self).limit(),
            final(self).shut() == old(self).shut(),
            r == if old(self).shut() {
                Offer::Closed(item)
            } else if old(self)@.len() < old(self).limit() {
                Offer::Accepted
            } else {
                Offer::Full(item)
            },
    {
        proof {
            use_type_invariant(&*self);
        }
        if self.closed {
            Offer::Closed(item)
        } else if self.items.len() < self.capacity {
            let mut items: VecDeque<T> = VecDeque::new();
            std::mem::swap(&mut self.items, &mut items);
            items.push_back(item);
            std::mem::swap(&mut self.items, &mut items);
            Offer::Accepted
        } else {
            Offer::Full(item)
        }
    }

    /// Takes the oldest item out of the queue, if there is one.
    pub fn pop(&mut self) -> (r: Option<T>)
        ensures
            final(self).limit() == old(self).limit(),
            final(self).shut() == old(self).shut(),
            old(self)@.len() == 0 ==> r is None && final(self)@ == old(self)@,
            old(self)@.len() > 0 ==> r == Some(old(self)@[0]) && final(self)@ == old(
                self,
            )@.drop_first(),
    {
        proof {
            use_type_invariant(&*self);
        }
        let mut items: VecDeque<T> = VecDeque::new();
        std::mem::swap(&mut self.items, &mut items);
        let r = items.pop_front();
        std::mem::swap(&mut self.items, &mut items);
        r
    }

    /// Takes every item out of the queue, oldest first, without waiting for
    /// more. An empty queue gives an empty vector.
    pub fn drain(&mut self) -> (taken: Vec<T>)
        ensures
            taken@ == old(self)@,
            final(self)@ == Seq::<T>::empty(),
            final(self).limit() == old(self).limit(),
            final(self).shut() == old(self).shut(),
    {
        proof {
            use_type_invariant(&*self);
        }
        let mut items: VecDeque<T> = VecDeque::new();
        std::mem::swap(&mut self.items, &mut items);
        let ghost all = items@;
        let mut taken: Vec<T> = Vec::new();
        while items.len() > 0
            invariant
                taken@ + items@ == all,
            decreases items@.len(),
        {
            let ghost before = items@;
            match items.pop_front() {
                Some(item) => {
                    taken.push(item);
                    assert(taken@ + items@ =~= (taken@.drop_last() + before));
                },
                None => {},
            }
        }
        assert(taken@ =~= taken@ + items@);
        taken
    }
}

/// Offered to an open queue with room for all of them, items line up behind
/// what was there, in the order in which they were offered.
pub proof fn lemma_offers_append<T>(queue: Seq<T>, capacity: nat, items: Seq<T>)
    requires
        queue.len() + items.len() <= capacity,
    ensures
        after_offers(queue, capacity, false, items) == queue + items,
    decreases items.len(),
{
    if items.len() == 0 {
        assert(queue + items =~= queue);
    } else {
        lemma_offers_append(queue, capacity, items.drop_last());
        assert((queue + items.drop_last()).push(items.last()) =~= queue + items);
    }
}

/// First in, first out: what is offered to an empty open queue, within its
/// capacity, is what a drain then takes out, in the same order; and a drain of
/// an empty queue takes nothing.
pub proof fn lemma_first_in_first_out<T>(capacity: nat, items: Seq<T>)
    requires
        items.len() <= capacity,
    ensures
        after_offers(Seq::<T>::empty(), capacity, false, items) == items,
{
    lemma_offers_append(Seq::<T>::empty(), capacity, items);
    assert(Seq::<T>::empty() + items =~= items);
}

} // verus!
