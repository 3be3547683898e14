//! The FIFO queue-based mutual-exclusion component.
//!
//! Requests are identified by the order they entered the queue: each enqueue
//! hands out the next id from a monotonic counter, so a smaller id always
//! means an earlier request. `advance` grants the head of the queue when the
//! resource is free; `release` marks it free again. Neither ever blocks.

use vstd::prelude::*;
use crate::error::Error;

verus! {

/// The mathematical state of an [`ExclusionQueue`].
pub struct QueueView {
    /// Ids of the requests still waiting, in arrival order.
    pub waiters: Seq<u64>,
    /// The id of the request currently granted exclusive access, if any.
    pub holder: Option<u64>,
    /// The id the next enqueued request will receive.
    pub next: u64,
}

impl QueueView {
    /// All ids were handed out by the counter, arrivals keep their order,
    /// and no request is waiting and holding at once.
    pub open spec fn wf(self) -> bool {
        &&& forall|i: int| 0 <= i < self.waiters.len() ==> self.waiters[i] < self.next
        &&& forall|i: int, j: int|
            0 <= i < j < self.waiters.len() ==> self.waiters[i] < self.waiters[j]
        &&& match self.holder {
            Some(h) => h < self.next && !self.waiters.contains(h),
            None => true,
        }
    }

    /// The state after appending a fresh request.
    pub open spec fn enqueued(self) -> QueueView {
        QueueView {
            waiters: self.waiters.push(self.next),
            next: (self.next + 1) as u64,
            ..self
        }
    }

    /// The state after one advance step: when the resource is free and a
    /// request is waiting, the head is granted; otherwise nothing changes.
    pub open spec fn advanced(self) -> QueueView {
        if self.holder is None && self.waiters.len() > 0 {
            QueueView {
                waiters: self.waiters.drop_first(),
                holder: Some(self.waiters.first()),
                ..self
            }
        } else {
            self
        }
    }

    /// The state after the current grant is released.
    pub open spec fn freed(self) -> QueueView {
        QueueView { holder: None, ..self }
    }

    /// The state after a waiting request withdraws (its notification channel
    /// is dropped before it was granted).
    pub open spec fn withdrawn(self, id: u64) -> QueueView {
        match self.waiters.index_of_first(id) {
            Some(i) => QueueView { waiters: self.waiters.remove(i), ..self },
            None => self,
        }
    }

    /// Whether one more request can still receive a fresh id.
    pub open spec fn can_enqueue(self) -> bool {
        self.next < u64::MAX
    }
}

/// A FIFO queue granting exclusive access to one request at a time.
pub struct ExclusionQueue {
    waiters: Vec<u64>,
    holder: Option<u64>,
    next: u64,
}

impl View for ExclusionQueue {
    type V = QueueView;

    closed spec fn view(&self) -> QueueView {
        QueueView { waiters: self.waiters@, holder: self.holder, next: self.next }
    }
}

impl ExclusionQueue {
    /// An empty queue over a free resource.
    pub fn new() -> (q: ExclusionQueue)
        ensures
            q@ == (QueueView { waiters: Seq::<u64>::empty(), holder: None::<u64>, next: 0u64 }),
            q@.wf(),
    {
        let q = ExclusionQueue { waiters: Vec::new(), holder: None, next: 0 };
        proof {
            assert(q@.waiters =~= Seq::<u64>::empty());
        }
        q
    }

    /// Appends a fresh request to the tail and returns its id. Never
    /// blocks.
    pub fn enqueue(&mut self) -> (id: u64)
        requires
            old(self)@.can_enqueue(),
        ensures
            final(self)@ == old(self)@.enqueued(),
            id == old(self)@.next,
            old(self)@.wf() ==> final(self)@.wf(),
    {
        let id = self.next;
        self.waiters.push(id);
        self.next = self.next + 1;
        proof {
            let o = old(self)@;
            if o.wf() {
                assert forall|i: int, j: int|
                    0 <= i < j < self@.waiters.len() implies self@.waiters[i] < self@.waiters[j] by {
                    if j < self@.waiters.len() - 1 {
                        assert(o.waiters[i] < o.waiters[j]);
                    }
                }
            }
        }
        id
    }

    /// If the resource is free and the queue is non-empty, grants the head
    /// request and marks the resource held; otherwise a no-op. Safe to call
    /// redundantly.
    pub fn advance(&mut self)
        ensures
            final(self)@ == old(self)@.advanced(),
            old(self)@.wf() ==> final(self)@.wf(),
    {
        if self.holder.is_none() && self.waiters.len() > 0 {
            let head = self.waiters.remove(0);
            self.holder = Some(head);
            proof {
                let o = old(self)@;
                assert(self@.waiters =~= o.waiters.drop_first());
                if o.wf() {
                    assert(forall|i: int| 0 <= i < self@.waiters.len()
                        ==> self@.waiters[i] == o.waiters[i + 1]);
                    if self@.waiters.contains(head) {
                        let k = choose|k: int|
                            0 <= k < self@.waiters.len() && self@.waiters[k] == head;
                        assert(o.waiters[0] < o.waiters[k + 1]);
                    }
                }
            }
        }
    }

    /// Marks the resource free. Calling this while the resource is not held
    /// is a logic error, reported as such.
    pub fn release(&mut self) -> (r: Result<(), Error>)
        ensures
            old(self)@.holder is Some ==> r == Ok::<(), Error>(())
                && final(self)@ == old(self)@.freed(),
            old(self)@.holder is None ==> r == Err::<(), Error>(Error::ReleaseWithoutHold)
                && final(self)@ == old(self)@,
            old(self)@.wf() ==> final(self)@.wf(),
    {
        if self.holder.is_some() {
            self.holder = None;
            Ok(())
        } else {
            Err(Error::ReleaseWithoutHold)
        }
    }

    /// Removes a waiting request from the queue without granting it: the
    /// model of its notification channel being dropped. A no-op when the id
    /// is not waiting.
    pub fn withdraw(&mut self, id: u64)
        ensures
            final(self)@ == old(self)@.withdrawn(id),
            old(self)@.wf() ==> final(self)@.wf(),
    {
        let n = self.waiters.len();
        let mut i: usize = 0;
        while i < n
            invariant
                n == self.waiters.len(),
                i <= n,
                forall|k: int| 0 <= k < i ==> self.waiters@[k] != id,
                *self == *old(self),
            decreases n - i,
        {
            if self.waiters[i] == id {
                self.waiters.remove(i);
                proof {
                    let o = old(self)@;
                    assert(o.waiters.contains(id)) by {
                        assert(o.waiters[i as int] == id);
                    }
                    o.waiters.index_of_first_ensures(id);
                    let idx = o.waiters.index_of_first(id)->Some_0;
                    assert(idx == i as int) by {
                        if idx < i as int {
                            assert(o.waiters[idx] != id);
                        }
                        if idx > i as int {
                            assert(o.waiters[i as int] != id);
                        }
                    }
                    assert(self@ == o.withdrawn(id));
                    if o.wf() {
                        let w = o.waiters.remove(i as int);
                        assert forall|a: int, b: int| 0 <= a < b < w.len()
                            implies w[a] < w[b] by {
                            if b < i {
                                assert(o.waiters[a] < o.waiters[b]);
                            } else if a < i {
                                assert(o.waiters[a] < o.waiters[b + 1]);
                            } else {
                                assert(o.waiters[a + 1] < o.waiters[b + 1]);
                            }
                        }
                        assert forall|k: int| 0 <= k < w.len() implies w[k] < o.next by {
                            if k < i {
                                assert(o.waiters[k] < o.next);
                            } else {
                                assert(o.waiters[k + 1] < o.next);
                            }
                        }
                        if o.holder is Some {
                            let h = o.holder->Some_0;
                            assert forall|k: int| 0 <= k < w.len() implies w[k] != h by {
                                if k < i {
                                    assert(o.waiters[k] != h);
                                } else {
                                    assert(o.waiters[k + 1] != h);
                                }
                            }
                            assert(!w.contains(h));
                        }
                    }
                }
                return;
            }
            i = i + 1;
        }
        proof {
            assert(!old(self)@.waiters.contains(id));
            old(self)@.waiters.index_of_first_ensures(id);
        }
    }

    /// Whether the resource is currently held.
    pub fn is_held(&self) -> (b: bool)
        ensures
            b == (self@.holder is Some),
    {
        self.holder.is_some()
    }

    /// The id of the current grant holder, if any.
    pub fn holder(&self) -> (h: Option<u64>)
        ensures
            h == self@.holder,
    {
        self.holder
    }

    /// How many requests are still waiting.
    pub fn waiter_count(&self) -> (n: usize)
        ensures
            n == self@.waiters.len(),
    {
        self.waiters.len()
    }

    /// Whether the given id is still waiting in the queue.
    pub fn contains(&self, id: u64) -> (b: bool)
        ensures
            b == self@.waiters.contains(id),
    {
        let n = self.waiters.len();
        let mut i: usize = 0;
        while i < n
            invariant
                n == self.waiters.len(),
                i <= n,
                forall|k: int| 0 <= k < i ==> self.waiters@[k] != id,
            decreases n - i,
        {
            if self.waiters[i] == id {
                return true;
            }
            i = i + 1;
        }
        false
    }
}

/// FIFO fairness: in a well-formed queue the waiting requests stand in
/// strict arrival order, and a grant can only go to the head, never to a
/// request that arrived after one still waiting.
pub proof fn lemma_grants_follow_enqueue_order(q: QueueView, i: int, j: int)
    requires
        q.wf(),
        0 <= i < j < q.waiters.len(),
    ensures
        q.waiters[i] < q.waiters[j],
        q.advanced().holder != Some(q.waiters[j]),
{
    if q.holder is None {
        assert(q.waiters[0] < q.waiters[j] || 0 == j);
    } else {
        assert(!q.waiters.contains(q.holder->Some_0));
        assert(q.waiters[j] == q.waiters[j]);
        assert(q.waiters.contains(q.waiters[j]));
    }
}

/// Idempotent advance: a second advance right after a first one changes
/// nothing, whatever the state was.
pub proof fn lemma_advance_idempotent(q: QueueView)
    ensures
        q.advanced().advanced() == q.advanced(),
{
}

/// Release-on-all-paths, queue side: when a holder releases and the queue
/// then advances, the longest-waiting request receives the grant.
pub proof fn lemma_release_grants_next(q: QueueView)
    requires
        q.holder is Some,
        q.waiters.len() > 0,
    ensures
        q.freed().advanced().holder == Some(q.waiters.first()),
        q.freed().advanced().waiters == q.waiters.drop_first(),
{
}

/// Dropping a request never wedges the queue, whatever stage it stood in.
/// An abandoned holder hands the grant straight to the longest-waiting
/// request (never back to itself); an abandoned waiter merely withdraws,
/// leaving the grant state untouched.
pub proof fn lemma_drop_unblocks(q: QueueView, id: u64)
    requires
        q.wf(),
    ensures
        q.holder == Some(id) && q.waiters.len() > 0 ==> q.freed().advanced().holder == Some(
            q.waiters.first(),
        ) && q.waiters.first() != id,
        q.holder == Some(id) && q.waiters.len() == 0 ==> q.freed().advanced().holder is None,
        q.holder != Some(id) ==> q.withdrawn(id).holder == q.holder,
{
    if q.holder == Some(id) && q.waiters.len() > 0 {
        assert(q.waiters.contains(q.waiters.first()));
    }
    q.waiters.index_of_first_ensures(id);
}

} // verus!
