//! The bounded FIFO coupling the bridge's producer thread to its consumer.
//!
//! On the emulated path, one dedicated thread runs blocking `accept` calls
//! and pushes each result into a bounded queue that the asynchronous consumer
//! drains.  This module models that queue: a FIFO of fixed capacity whose
//! `push` refuses new items when full (the producer then waits, which
//! throttles accepting) and whose `pop` yields the oldest item.

use vstd::prelude::*;

verus! {

/// How many accepted-but-not-yet-consumed results the queue holds before the
/// producer must wait for the consumer to drain one.
pub const BRIDGE_CAPACITY: usize = 32;

/// Whether a queue holding `s` has room for one more item.
pub open spec fn can_accept<T>(s: Seq<T>) -> bool {
    s.len() < BRIDGE_CAPACITY
}

/// Bounded FIFO between the accept bridge's producer and its consumer.
///
/// Single producer, single consumer; the view is the queued items, oldest
/// first.  `wf` (the capacity bound) is established by `new` and preserved by
/// every method.
pub struct BridgeChannel<T> {
    items: Vec<T>,
}

impl<T> View for BridgeChannel<T> {
    type V = Seq<T>;

    closed spec fn view(&self) -> Seq<T> {
        self.items@
    }
}

impl<T> BridgeChannel<T> {
    /// The capacity bound: never more than `BRIDGE_CAPACITY` items queued.
    pub open spec fn wf(&self) -> bool {
        self@.len() <= BRIDGE_CAPACITY
    }

    pub fn new() -> (c: Self)
        ensures
            c@ == Seq::<T>::empty(),
            c.wf(),
    {
        BridgeChannel { items: Vec::new() }
    }

    pub fn len(&self) -> (n: usize)
        ensures
            n == self@.len(),
    {
        self.items.len()
    }

    pub fn is_empty(&self) -> (b: bool)
        ensures
            b == (self@.len() == 0),
    {
        self.items.len() == 0
    }

    pub fn is_full(&self) -> (b: bool)
        requires
            self.wf(),
        ensures
            b == !can_accept(self@),
    {
        self.items.len() >= BRIDGE_CAPACITY
    }

    /// Enqueue `item` at the back, or hand it back when the queue is full.
    ///
    /// Backpressure: at capacity nothing is added and the caller gets the
    /// item back to retry once the consumer has drained.
    pub fn push(&mut self, item: T) -> (r: Result<(), T>)
        requires
            old(self).wf(),
        ensures
            final(self).wf(),
            can_accept(old(self)@) ==> r is Ok && final(self)@ == old(self)@.push(item),
            !can_accept(old(self)@) ==> (r matches Err(v) && v == item) && final(self)@ == old(
                self,
            )@,
    {
        if self.items.len() < BRIDGE_CAPACITY {
            self.items.push(item);
            Ok(())
        } else {
            Err(item)
        }
    }

    /// Dequeue the oldest item, or `None` on an empty queue.
    pub fn pop(&mut self) -> (r: Option<T>)
        requires
            old(self).wf(),
        ensures
            final(self).wf(),
            old(self)@.len() == 0 ==> r is None && final(self)@ == old(self)@,
            old(self)@.len() > 0 ==> (r matches Some(v) && v == old(self)@[0])
                && final(self)@ == old(self)@.subrange(1, old(self)@.len() as int),
    {
        if self.items.len() == 0 {
            None
        } else {
            let v = self.items.remove(0);
            proof {
                assert(self.items@ =~= old(self).items@.subrange(
                    1,
                    old(self).items@.len() as int,
                ));
            }
            Some(v)
        }
    }
}

/// Feed a burst of items in order, stopping when the queue refuses one.
///
/// Backpressure over a whole burst: exactly as many items as the queue has
/// room for are accepted, in order and without gaps; the rest wait for the
/// consumer.
pub fn enqueue_burst<T: Copy>(c: &mut BridgeChannel<T>, items: &Vec<T>) -> (accepted: usize)
    requires
        old(c).wf(),
    ensures
        final(c).wf(),
        final(c)@ == old(c)@ + items@.subrange(0, accepted as int),
        accepted == if old(c)@.len() + items@.len() <= BRIDGE_CAPACITY {
            items@.len() as int
        } else {
            BRIDGE_CAPACITY - old(c)@.len()
        },
{
    let ghost orig = c@;
    let mut i: usize = 0;
    proof {
        assert(orig + items@.subrange(0, 0) =~= orig);
    }
    loop
        invariant
            i <= items@.len(),
            c.wf(),
            c@ == orig + items@.subrange(0, i as int),
            c@.len() == orig.len() + i,
        ensures
            c.wf(),
            c@ == orig + items@.subrange(0, i as int),
            c@.len() == orig.len() + i,
            i == items@.len() || c@.len() == BRIDGE_CAPACITY,
        decreases items@.len() - i,
    {
        if i == items.len() {
            break ;
        }
        match c.push(items[i]) {
            Ok(_) => {
                i = i + 1;
                proof {
                    assert(c@ =~= orig + items@.subrange(0, i as int));
                }
            },
            Err(_) => {
                // The queue is full: the rest of the burst is refused.
                break ;
            },
        }
    }
    i
}

/// Drain the queue by popping until it reports empty.
///
/// The FIFO law in one function: what the consumer observes is exactly what
/// was queued, oldest first — nothing reordered, dropped or duplicated.
pub fn drain<T>(c: &mut BridgeChannel<T>) -> (out: Vec<T>)
    requires
        old(c).wf(),
    ensures
        final(c).wf(),
        final(c)@.len() == 0,
        out@ == old(c)@,
{
    let ghost orig = c@;
    let mut out: Vec<T> = Vec::new();
    proof {
        assert(out@ + c@ =~= orig);
    }
    loop
        invariant
            c.wf(),
            out@ + c@ == orig,
        ensures
            c.wf(),
            c@.len() == 0,
            out@ == orig,
        decreases c@.len(),
    {
        let ghost pre_out = out@;
        let ghost pre_c = c@;
        match c.pop() {
            None => {
                proof {
                    assert(out@ =~= orig);
                }
                break ;
            },
            Some(v) => {
                out.push(v);
                proof {
                    assert(pre_c =~= seq![v] + c@);
                    assert(out@ + c@ =~= orig);
                }
            },
        }
    }
    out
}

/// Backpressure law: a queue at capacity accepts no further item, and
/// draining a single item makes room for exactly one more.  A producer whose
/// push was refused therefore succeeds again as soon as the consumer pops.
pub proof fn lemma_pop_unblocks_push<T>(s: Seq<T>)
    requires
        s.len() == BRIDGE_CAPACITY,
    ensures
        !can_accept(s),
        can_accept(s.subrange(1, s.len() as int)),
{
}

} // verus!
