use vstd::prelude::*;

use crate::reading::Reading;

verus! {

/// A buffer after one fan-out send: the reading is appended; if the buffer
/// already held `cap` entries, its oldest entry makes room first. A slow
/// subscriber thus loses old data and never blocks the producer.
pub open spec fn push_bounded(buf: Seq<Reading>, r: Reading, cap: nat) -> Seq<Reading> {
    if buf.len() >= cap {
        buf.drop_first().push(r)
    } else {
        buf.push(r)
    }
}

/// One send, applied to every subscriber's pending buffer.
pub open spec fn fan_out(bufs: Seq<Seq<Reading>>, r: Reading, cap: nat) -> Seq<Seq<Reading>> {
    Seq::new(bufs.len(), |i: int| push_bounded(bufs[i], r, cap))
}

/// Bounded multi-consumer hub: a single producer fans every reading out to
/// all current subscribers; each subscriber has its own bounded pending
/// buffer, received oldest first. Subscribers joining later see only what is
/// sent after they join.
pub struct BroadcastHub {
    capacity: usize,
    buffers: Vec<Vec<Reading>>,
}

impl View for BroadcastHub {
    type V = Seq<Seq<Reading>>;

    /// The pending readings of each subscriber, oldest first, indexed by the
    /// subscriber handle that `subscribe` returned.
    closed spec fn view(&self) -> Seq<Seq<Reading>> {
        self.buffers@.map_values(|b: Vec<Reading>| b@)
    }
}

impl BroadcastHub {
    /// The bound on each subscriber's pending buffer.
    pub closed spec fn cap(self) -> nat {
        self.capacity as nat
    }

    /// Well-formedness: the bound is positive and every buffer respects it.
    pub closed spec fn wf(self) -> bool {
        &&& self.capacity >= 1
        &&& forall|j: int|
            0 <= j < self.buffers@.len() ==> (#[trigger] self.buffers@[j])@.len()
                <= self.capacity
    }

    /// Creates a hub with the given per-subscriber buffer bound and no
    /// subscribers yet.
    pub fn new(capacity: usize) -> (hub: BroadcastHub)
        requires
            capacity >= 1,
        ensures
            hub.wf(),
            hub.cap() == capacity,
            hub@ == Seq::<Seq<Reading>>::empty(),
    {
        let hub = BroadcastHub { capacity, buffers: Vec::new() };
        proof {
            assert(hub@ =~= Seq::<Seq<Reading>>::empty());
        }
        hub
    }

    /// How many subscribers currently exist.
    pub fn subscriber_count(&self) -> (n: usize)
        ensures
            n == self@.len(),
    {
        self.buffers.len()
    }

    /// The per-subscriber buffer bound the hub was created with.
    pub fn capacity(&self) -> (c: usize)
        ensures
            c == self.cap(),
    {
        self.capacity
    }

    /// Adds a subscriber and returns its handle. The new subscriber starts
    /// with an empty buffer: it receives only readings sent from now on.
    pub fn subscribe(&mut self) -> (id: usize)
        requires
            old(self).wf(),
        ensures
            final(self).wf(),
            final(self).cap() == old(self).cap(),
            id == old(self)@.len(),
            final(self)@ == old(self)@.push(Seq::<Reading>::empty()),
    {
        let id = self.buffers.len();
        self.buffers.push(Vec::new());
        proof {
            assert(self@ =~= old(self)@.push(Seq::<Reading>::empty()));
        }
        id
    }

    /// Fans one reading out to every current subscriber and reports how many
    /// there were: each pending buffer gets the reading appended, dropping
    /// its oldest entry only if it was full. Zero subscribers make the send
    /// a no-op, observable through the returned count.
    pub fn send(&mut self, reading: &Reading) -> (n: usize)
        requires
            old(self).wf(),
        ensures
            final(self).wf(),
            final(self).cap() == old(self).cap(),
            n == old(self)@.len(),
            final(self)@ == fan_out(old(self)@, *reading, old(self).cap()),
    {
        let ghost pre = self.buffers@.map_values(|b: Vec<Reading>| b@);
        let capacity = self.capacity;
        let n = self.buffers.len();
        let mut i: usize = 0;
        while i < n
            invariant
                i <= n,
                capacity >= 1,
                self.capacity == capacity,
                self.buffers@.len() == n,
                pre.len() == n,
                forall|j: int| 0 <= j < n ==> (#[trigger] pre[j]).len() <= capacity,
                forall|j: int|
                    0 <= j < i ==> (#[trigger] self.buffers@[j])@ == push_bounded(
                        pre[j],
                        *reading,
                        capacity as nat,
                    ),
                forall|j: int| i <= j < n ==> (#[trigger] self.buffers@[j])@ == pre[j],
            decreases n - i,
        {
            let mut buf = self.buffers.remove(i);
            if buf.len() >= capacity {
                proof {
                    assert(buf@.remove(0) =~= buf@.drop_first());
                }
                buf.remove(0);
            }
            buf.push(reading.clone());
            self.buffers.insert(i, buf);
            i += 1;
        }
        proof {
            assert(self@ =~= fan_out(pre, *reading, capacity as nat));
        }
        n
    }

    /// Takes the oldest pending reading of one subscriber, if any; the other
    /// subscribers' buffers are untouched.
    pub fn recv(&mut self, id: usize) -> (r: Option<Reading>)
        requires
            old(self).wf(),
            id < old(self)@.len(),
        ensures
            final(self).wf(),
            final(self).cap() == old(self).cap(),
            final(self)@.len() == old(self)@.len(),
            old(self)@[id as int].len() == 0 ==> r is None && final(self)@ == old(self)@,
            old(self)@[id as int].len() > 0 ==> {
                &&& r == Some(old(self)@[id as int][0])
                &&& final(self)@[id as int] == old(self)@[id as int].drop_first()
                &&& forall|j: int|
                    0 <= j < old(self)@.len() && j != id ==> final(self)@[j] == old(self)@[j]
            },
    {
        let ghost pre = self.buffers@.map_values(|b: Vec<Reading>| b@);
        let mut buf = self.buffers.remove(id);
        let r = if buf.len() > 0 {
            proof {
                assert(buf@.remove(0) =~= buf@.drop_first());
            }
            Some(buf.remove(0))
        } else {
            None
        };
        self.buffers.insert(id, buf);
        proof {
            if pre[id as int].len() == 0 {
                assert(self@ =~= pre);
            }
        }
        r
    }
}

/// One send reaches every subscriber present at send time, appended after
/// everything already pending; so two readings sent in order land in every
/// such buffer with room in exactly that order, for all subscribers alike.
pub proof fn lemma_fanout_keeps_send_order(
    bufs: Seq<Seq<Reading>>,
    r1: Reading,
    r2: Reading,
    cap: nat,
    i: int,
)
    requires
        0 <= i < bufs.len(),
        bufs[i].len() + 2 <= cap,
    ensures
        fan_out(bufs, r1, cap).len() == bufs.len(),
        fan_out(fan_out(bufs, r1, cap), r2, cap)[i] == bufs[i].push(r1).push(r2),
{
    assert(fan_out(bufs, r1, cap)[i] == bufs[i].push(r1));
}

/// A subscriber that joins after a send starts with an empty buffer: it never
/// receives a reading sent before it subscribed.
pub proof fn lemma_late_subscriber_misses_earlier_send(
    bufs: Seq<Seq<Reading>>,
    r: Reading,
    cap: nat,
)
    ensures
        ({
            let after_send = fan_out(bufs, r, cap);
            let after_join = after_send.push(Seq::<Reading>::empty());
            !after_join.last().contains(r)
        }),
{
    let after_send = fan_out(bufs, r, cap);
    let after_join = after_send.push(Seq::<Reading>::empty());
    assert(after_join.last() == Seq::<Reading>::empty());
}

} // verus!
