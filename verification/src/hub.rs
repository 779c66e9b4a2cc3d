//! Broadcast hub: a fan-out point delivering every published message to
//! every current subscriber, in publication order.
//!
//! Each subscriber owns a bounded queue. When a queue is full, publishing
//! drops that subscriber's oldest buffered message rather than failing or
//! blocking: a slow consumer never holds up a publisher. Publishing with no
//! subscribers is a no-op.

use vstd::prelude::*;
use vstd::string::*;

verus! {

/// One subscriber's delivery queue; index 0 holds the oldest undelivered
/// message.
pub struct Subscriber {
    /// Handle identifying the subscription.
    pub id: u64,
    /// Buffered messages, oldest first.
    pub queue: Vec<String>,
}

/// Fan-out hub with a bounded delivery queue per subscriber.
pub struct BroadcastHub {
    /// Current subscribers, in subscription order.
    pub subscribers: Vec<Subscriber>,
    /// Bound on each subscriber's queue length.
    pub capacity: usize,
    /// Next unused subscription handle.
    pub next_id: u64,
}

/// `q` with `m` appended, dropping the oldest entry when `q` is full.
pub open spec fn push_bounded(q: Seq<Seq<char>>, m: Seq<char>, cap: nat) -> Seq<Seq<char>> {
    if q.len() < cap {
        q.push(m)
    } else {
        q.skip(1).push(m)
    }
}

/// The views of a queue of messages.
pub open spec fn queue_views(q: Seq<String>) -> Seq<Seq<char>> {
    q.map_values(|s: String| s@)
}

/// Index of the subscriber with handle `id`, searching from `i` on.
pub open spec fn find_subscriber(s: Seq<Subscriber>, id: u64, i: int) -> Option<int>
    decreases s.len() - i,
{
    if i < 0 || i >= s.len() {
        None
    } else if s[i].id == id {
        Some(i)
    } else {
        find_subscriber(s, id, i + 1)
    }
}

impl BroadcastHub {
    /// The hub is well formed: queues respect the capacity bound, handles
    /// are pairwise distinct, and no handle reaches `next_id`.
    pub open spec fn wf(self) -> bool {
        &&& self.capacity >= 1
        &&& forall|i: int|
            0 <= i < self.subscribers@.len() ==> #[trigger] self.subscribers@[i].queue@.len()
                <= self.capacity
        &&& forall|i: int|
            0 <= i < self.subscribers@.len() ==> #[trigger] self.subscribers@[i].id
                < self.next_id
        &&& forall|i: int, j: int|
            0 <= i < j < self.subscribers@.len() ==> self.subscribers@[i].id
                != self.subscribers@[j].id
    }

    /// Empty hub whose subscribers each buffer at most `capacity` messages.
    pub fn new(capacity: usize) -> (r: Self)
        requires
            capacity >= 1,
        ensures
            r.subscribers@.len() == 0,
            r.capacity == capacity,
            r.wf(),
    {
        BroadcastHub { subscribers: Vec::new(), capacity, next_id: 0 }
    }

    /// Number of current subscribers.
    pub fn subscriber_count(&self) -> (r: usize)
        ensures
            r == self.subscribers@.len(),
    {
        self.subscribers.len()
    }

    /// Register a new subscriber with an empty queue and return its handle.
    /// Existing subscribers are untouched.
    pub fn subscribe(&mut self) -> (r: u64)
        requires
            old(self).wf(),
            old(self).next_id < u64::MAX,
        ensures
            final(self).wf(),
            r == old(self).next_id,
            final(self).capacity == old(self).capacity,
            final(self).subscribers@.len() == old(self).subscribers@.len() + 1,
            forall|i: int|
                0 <= i < old(self).subscribers@.len() ==> final(self).subscribers@[i] == old(
                    self,
                ).subscribers@[i],
            final(self).subscribers@.last().id == r,
            final(self).subscribers@.last().queue@.len() == 0,
    {
        let id = self.next_id;
        self.next_id = id + 1;
        self.subscribers.push(Subscriber { id, queue: Vec::new() });
        id
    }

    /// Remove the subscriber with handle `id`, if present. Other
    /// subscribers and their queues are untouched.
    pub fn unsubscribe(&mut self, id: u64)
        requires
            old(self).wf(),
        ensures
            final(self).wf(),
            final(self).capacity == old(self).capacity,
            final(self).next_id == old(self).next_id,
            match find_subscriber(old(self).subscribers@, id, 0) {
                Some(i) => final(self).subscribers@ == old(self).subscribers@.remove(i),
                None => final(self).subscribers@ == old(self).subscribers@,
            },
    {
        let ghost s0 = self.subscribers@;
        let n = self.subscribers.len();
        let mut i: usize = 0;
        while i < n
            invariant
                n == self.subscribers.len(),
                self.subscribers@ == s0,
                self.capacity == old(self).capacity,
                self.next_id == old(self).next_id,
                old(self).wf(),
                s0 == old(self).subscribers@,
                i <= n,
                find_subscriber(s0, id, 0) == find_subscriber(s0, id, i as int),
            decreases n - i,
        {
            if self.subscribers[i].id == id {
                assert(find_subscriber(s0, id, 0) == Some(i as int));
                let _ = self.subscribers.remove(i);
                proof {
                    let s1 = self.subscribers@;
                    assert forall|a: int, b: int| 0 <= a < b < s1.len() implies s1[a].id
                        != s1[b].id by {
                        assert(s1[a] == if a < i as int {
                            s0[a]
                        } else {
                            s0[a + 1]
                        });
                        assert(s1[b] == if b < i as int {
                            s0[b]
                        } else {
                            s0[b + 1]
                        });
                    }
                    assert forall|a: int| 0 <= a < s1.len() implies (#[trigger] s1[a]).queue@.len()
                        <= self.capacity && s1[a].id < self.next_id by {
                        assert(s1[a] == if a < i as int {
                            s0[a]
                        } else {
                            s0[a + 1]
                        });
                    }
                }
                return ;
            }
            i += 1;
        }
        assert(find_subscriber(s0, id, 0) is None);
    }

    /// Publish `message`: append it to every subscriber's queue, dropping
    /// that subscriber's oldest buffered message when its queue is full.
    /// Never fails and never blocks; with no subscribers it is a no-op.
    pub fn publish(&mut self, message: String)
        requires
            old(self).wf(),
        ensures
            final(self).wf(),
            final(self).capacity == old(self).capacity,
            final(self).next_id == old(self).next_id,
            final(self).subscribers@.len() == old(self).subscribers@.len(),
            forall|i: int|
                0 <= i < old(self).subscribers@.len() ==> (#[trigger] final(self).subscribers@[i]).id
                    == old(self).subscribers@[i].id && queue_views(
                    final(self).subscribers@[i].queue@,
                ) == push_bounded(
                    queue_views(old(self).subscribers@[i].queue@),
                    message@,
                    old(self).capacity as nat,
                ),
    {
        let ghost s0 = self.subscribers@;
        let cap = self.capacity;
        let n = self.subscribers.len();
        let mut i: usize = 0;
        while i < n
            invariant
                n == self.subscribers.len(),
                n == s0.len(),
                i <= n,
                cap == self.capacity,
                self.capacity == old(self).capacity,
                self.capacity >= 1,
                self.next_id == old(self).next_id,
                old(self).wf(),
                s0 == old(self).subscribers@,
                forall|j: int|
                    0 <= j < s0.len() ==> #[trigger] self.subscribers@[j].id == s0[j].id,
                forall|j: int|
                    i <= j < s0.len() ==> #[trigger] self.subscribers@[j].queue@ == s0[j].queue@,
                forall|j: int|
                    0 <= j < i ==> queue_views(#[trigger] self.subscribers@[j].queue@)
                        == push_bounded(queue_views(s0[j].queue@), message@, cap as nat),
                forall|j: int|
                    0 <= j < s0.len() ==> #[trigger] self.subscribers@[j].queue@.len() <= cap,
            decreases n - i,
        {
            let mut sub = self.subscribers.remove(i);
            let ghost q0 = sub.queue@;
            if sub.queue.len() == cap {
                let _ = sub.queue.remove(0);
                proof {
                    assert(sub.queue@ =~= q0.skip(1));
                }
            }
            let m = message.clone();
            sub.queue.push(m);
            proof {
                assert(queue_views(sub.queue@) =~= push_bounded(
                    queue_views(q0),
                    message@,
                    cap as nat,
                ));
            }
            self.subscribers.insert(i, sub);
            proof {
                assert forall|j: int| 0 <= j < s0.len() implies #[trigger] self.subscribers@[
                    j
                ].id == s0[j].id by {}
            }
            i += 1;
        }
    }

    /// Take the oldest undelivered message for the subscriber with handle
    /// `id`: `None` when the subscriber is unknown or its queue is empty.
    /// The remaining messages keep their order; other subscribers are
    /// untouched.
    pub fn next_message(&mut self, id: u64) -> (r: Option<String>)
        requires
            old(self).wf(),
        ensures
            final(self).wf(),
            final(self).capacity == old(self).capacity,
            final(self).next_id == old(self).next_id,
            final(self).subscribers@.len() == old(self).subscribers@.len(),
            match find_subscriber(old(self).subscribers@, id, 0) {
                Some(i) => {
                    &&& forall|j: int|
                        0 <= j < old(self).subscribers@.len() && j != i ==> final(self).subscribers@[j] == old(self).subscribers@[j]
                    &&& final(self).subscribers@[i].id == old(self).subscribers@[i].id
                    &&& if old(self).subscribers@[i].queue@.len() == 0 {
                        r is None && final(self).subscribers@[i].queue@ == old(
                            self,
                        ).subscribers@[i].queue@
                    } else {
                        r matches Some(m) && m == old(self).subscribers@[i].queue@[0] && final(self).subscribers@[i].queue@ == old(self).subscribers@[i].queue@.skip(1)
                    }
                },
                None => r is None && final(self).subscribers@ == old(self).subscribers@,
            },
    {
        let ghost s0 = self.subscribers@;
        let n = self.subscribers.len();
        let mut i: usize = 0;
        while i < n
            invariant
                n == self.subscribers.len(),
                self.subscribers@ == s0,
                self.capacity == old(self).capacity,
                self.next_id == old(self).next_id,
                old(self).wf(),
                s0 == old(self).subscribers@,
                i <= n,
                find_subscriber(s0, id, 0) == find_subscriber(s0, id, i as int),
            decreases n - i,
        {
            if self.subscribers[i].id == id {
                assert(find_subscriber(s0, id, 0) == Some(i as int));
                let mut sub = self.subscribers.remove(i);
                let ghost q0 = sub.queue@;
                let r = if sub.queue.len() == 0 {
                    None
                } else {
                    Some(sub.queue.remove(0))
                };
                proof {
                    if q0.len() > 0 {
                        assert(sub.queue@ =~= q0.skip(1));
                    }
                }
                let ghost gsub = sub;
                self.subscribers.insert(i, sub);
                proof {
                    assert(self.subscribers@ =~= s0.update(i as int, gsub));
                    assert forall|a: int, b: int|
                        0 <= a < b < self.subscribers@.len() implies self.subscribers@[a].id
                        != self.subscribers@[b].id by {
                        assert(self.subscribers@[a].id == s0[a].id);
                        assert(self.subscribers@[b].id == s0[b].id);
                    }
                    assert forall|a: int|
                        0 <= a < self.subscribers@.len() implies (#[trigger] self.subscribers@[
                            a
                        ]).queue@.len() <= self.capacity && self.subscribers@[a].id
                        < self.next_id by {
                        if a != i as int {
                            assert(self.subscribers@[a] == s0[a]);
                        }
                    }
                }
                return r;
            }
            i += 1;
        }
        assert(find_subscriber(s0, id, 0) is None);
        None
    }
}

} // verus!
