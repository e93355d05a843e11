//! The shared packet ring and its wake channel.
//!
//! Host and guest exchange network frames through two fixed-capacity
//! single-producer/single-consumer rings that live in guest memory.  Each
//! ring is a slot array indexed modulo its capacity by two monotonically
//! increasing counters: `written`, advanced by the producer, and `read`,
//! advanced by the consumer.  This module models one ring as a value type
//! with `try_push`/`try_pop`, carries the full push and pop histories as
//! ghost state, and proves the first-in-first-out law: what the consumer has
//! taken is always exactly a prefix of what the producer put in.
//!
//! The transmit side is woken through a bounded channel of capacity one, so
//! consecutive wake-ups coalesce; [`WakeChannel`] models that channel and
//! [`TxBridge`] ties it to the ring, giving the interrupt-coalescing bound.

use vstd::arithmetic::div_mod::lemma_fundamental_div_mod;
use vstd::prelude::*;

verus! {

/// Largest frame, in bytes, a ring slot can carry.  Shared bit-exactly with
/// the guest.
pub const UHYVE_NET_MTU: usize = 1500;

/// Number of slots per ring.  Shared bit-exactly with the guest.
pub const UHYVE_QUEUE_SIZE: usize = 8;

/// Two strictly increasing indices less than a window of the modulus apart
/// never share a slot.
proof fn lemma_mod_window_distinct(a: int, b: int, m: int)
    requires
        0 < m,
        a < b,
        b - a < m,
    ensures
        a % m != b % m,
{
    lemma_fundamental_div_mod(a, m);
    lemma_fundamental_div_mod(b, m);
    if a % m == b % m {
        let qa = a / m;
        let qb = b / m;
        assert(b - a == m * (qb - qa)) by (nonlinear_arith)
            requires
                a == m * qa + a % m,
                b == m * qb + b % m,
                a % m == b % m,
        ;
        assert(qb != qa);
        assert(qb > qa ==> m * (qb - qa) >= m) by (nonlinear_arith)
            requires
                m > 0,
        ;
        assert(qb < qa ==> m * (qb - qa) < 0) by (nonlinear_arith)
            requires
                m > 0,
        ;
    }
}

/// One single-producer/single-consumer byte-packet ring.
///
/// `inner` holds the slot payloads; `read` and `written` are the consumer and
/// producer counters.  The ghost histories record every packet ever pushed
/// and ever popped, so contracts can speak about whole traces.
pub struct SharedQueue {
    read: u64,
    written: u64,
    inner: Vec<Vec<u8>>,
    hist_pushed: Ghost<Seq<Seq<u8>>>,
    hist_popped: Ghost<Seq<Seq<u8>>>,
}

impl SharedQueue {
    /// Consumer counter: packets taken out so far.
    pub closed spec fn read_idx(self) -> u64 {
        self.read
    }

    /// Producer counter: packets put in so far.
    pub closed spec fn written_idx(self) -> u64 {
        self.written
    }

    /// Every packet the producer has pushed, oldest first.
    pub closed spec fn pushed(self) -> Seq<Seq<u8>> {
        self.hist_pushed@
    }

    /// Every packet the consumer has popped, oldest first.
    pub closed spec fn popped(self) -> Seq<Seq<u8>> {
        self.hist_popped@
    }

    /// The packets pushed but not yet popped, oldest first.
    pub open spec fn pending(self) -> Seq<Seq<u8>> {
        self.pushed().subrange(self.read_idx() as int, self.written_idx() as int)
    }

    /// Whether a push would find no free slot.
    pub open spec fn is_full(self) -> bool {
        self.written_idx() - self.read_idx() == UHYVE_QUEUE_SIZE
    }

    /// The ring invariant: the counters never drift apart by more than the
    /// capacity, the histories follow the counters, and each pending packet
    /// sits in the slot its index selects modulo the capacity.
    pub closed spec fn wf(self) -> bool {
        &&& self.read <= self.written
        &&& self.written - self.read <= UHYVE_QUEUE_SIZE
        &&& self.inner@.len() == UHYVE_QUEUE_SIZE
        &&& forall|i: int| 0 <= i < UHYVE_QUEUE_SIZE ==> self.inner@[i]@.len() <= UHYVE_NET_MTU
        &&& self.hist_pushed@.len() == self.written
        &&& self.hist_popped@ == self.hist_pushed@.take(self.read as int)
        &&& forall|k: int|
            self.read <= k < self.written ==> self.hist_pushed@[k] == self.inner@[k % (
            UHYVE_QUEUE_SIZE as int)]@
    }

    /// A fresh ring: both counters zeroed, no history.
    pub fn new() -> (r: SharedQueue)
        ensures
            r.wf(),
            r.read_idx() == 0,
            r.written_idx() == 0,
            r.pushed() == Seq::<Seq<u8>>::empty(),
            r.popped() == Seq::<Seq<u8>>::empty(),
    {
        let mut inner: Vec<Vec<u8>> = Vec::new();
        let mut i: usize = 0;
        while i < UHYVE_QUEUE_SIZE
            invariant
                i <= UHYVE_QUEUE_SIZE,
                inner@.len() == i,
                forall|j: int| 0 <= j < i ==> inner@[j]@.len() == 0,
            decreases UHYVE_QUEUE_SIZE - i,
        {
            inner.push(Vec::new());
            i = i + 1;
        }
        let r = SharedQueue {
            read: 0,
            written: 0,
            inner,
            hist_pushed: Ghost(Seq::empty()),
            hist_popped: Ghost(Seq::empty()),
        };
        proof {
            assert(r.popped() =~= r.pushed().take(0));
        }
        r
    }

    /// Number of packets currently pending.
    pub fn len(&self) -> (r: u64)
        requires
            self.wf(),
        ensures
            r == self.pending().len(),
    {
        self.written - self.read
    }

    /// Producer step: store the packet in the next free slot and advance
    /// `written`, or hand the packet back unchanged when the ring is full,
    /// so the producer can spin and retry without losing it.
    pub fn try_push(&mut self, packet: Vec<u8>) -> (r: Option<Vec<u8>>)
        requires
            old(self).wf(),
            packet@.len() <= UHYVE_NET_MTU,
            old(self).written_idx() < u64::MAX,
        ensures
            final(self).wf(),
            old(self).is_full() ==> r == Some(packet) && *final(self) == *old(self),
            !old(self).is_full() ==> r is None
                && final(self).pushed() == old(self).pushed().push(packet@)
                && final(self).popped() == old(self).popped()
                && final(self).read_idx() == old(self).read_idx()
                && final(self).written_idx() == old(self).written_idx() + 1,
    {
        let dist = self.written - self.read;
        if dist < UHYVE_QUEUE_SIZE as u64 {
            let ghost packet_view = packet@;
            let idx = (self.written % (UHYVE_QUEUE_SIZE as u64)) as usize;
            let mut slot = packet;
            core::mem::swap(&mut self.inner[idx], &mut slot);
            self.written = self.written + 1;
            proof {
                self.hist_pushed@ = self.hist_pushed@.push(packet_view);
                assert forall|k: int| self.read <= k < self.written implies self.hist_pushed@[k]
                    == self.inner@[k % (UHYVE_QUEUE_SIZE as int)]@ by {
                    if k < self.written - 1 {
                        lemma_mod_window_distinct(k, self.written - 1, UHYVE_QUEUE_SIZE as int);
                    }
                }
                assert(self.hist_popped@ =~= self.hist_pushed@.take(self.read as int));
            }
            None
        } else {
            Some(packet)
        }
    }

    /// Consumer step: take the oldest pending packet out of its slot and
    /// advance `read`; nothing to do on an empty ring.
    pub fn try_pop(&mut self) -> (r: Option<Vec<u8>>)
        requires
            old(self).wf(),
        ensures
            final(self).wf(),
            old(self).pending().len() == 0 ==> r is None && *final(self) == *old(self),
            old(self).pending().len() > 0 ==> (r matches Some(p)
                && p@ == old(self).pending()[0]
                && p@.len() <= UHYVE_NET_MTU
                && final(self).pushed() == old(self).pushed()
                && final(self).popped() == old(self).popped().push(p@)
                && final(self).read_idx() == old(self).read_idx() + 1
                && final(self).written_idx() == old(self).written_idx()),
    {
        if self.read == self.written {
            None
        } else {
            let idx = (self.read % (UHYVE_QUEUE_SIZE as u64)) as usize;
            let mut taken: Vec<u8> = Vec::new();
            core::mem::swap(&mut self.inner[idx], &mut taken);
            self.read = self.read + 1;
            proof {
                self.hist_popped@ = self.hist_popped@.push(taken@);
                assert forall|k: int| self.read <= k < self.written implies self.hist_pushed@[k]
                    == self.inner@[k % (UHYVE_QUEUE_SIZE as int)]@ by {
                    lemma_mod_window_distinct(self.read - 1, k, UHYVE_QUEUE_SIZE as int);
                }
                assert(self.hist_popped@ =~= self.hist_pushed@.take(self.read as int));
            }
            Some(taken)
        }
    }
}

/// First-in-first-out law of the ring.  In every reachable ring state the
/// consumer has received exactly a prefix of the producer's packets: the
/// sequence popped equals the first `read` packets pushed, in order, and the
/// pending packets continue that prefix seamlessly.  The counters never
/// drift apart by more than the capacity.
pub proof fn lemma_ring_fifo(q: &SharedQueue)
    requires
        q.wf(),
    ensures
        q.read_idx() <= q.written_idx(),
        q.written_idx() - q.read_idx() <= UHYVE_QUEUE_SIZE,
        q.pushed().len() == q.written_idx(),
        q.popped() == q.pushed().take(q.read_idx() as int),
        q.pushed() == q.popped() + q.pending(),
        q.pending().len() == q.written_idx() - q.read_idx(),
{
    assert(q.pushed() =~= q.popped() + q.pending());
}

/// The wake channel: a bounded channel of capacity one used purely as an
/// edge-triggered wake-up.  A notify while a token is already pending
/// coalesces with it.  The ghost counters record how many notifications were
/// issued and how many tokens the consumer has observed.
pub struct WakeChannel {
    pending: bool,
    notified: Ghost<nat>,
    observed: Ghost<nat>,
}

impl WakeChannel {
    /// Whether a token is waiting to be observed.
    pub closed spec fn is_pending(self) -> bool {
        self.pending
    }

    /// How many times the producer has notified.
    pub closed spec fn tokens_notified(self) -> nat {
        self.notified@
    }

    /// How many tokens the consumer has observed.
    pub closed spec fn tokens_observed(self) -> nat {
        self.observed@
    }

    /// Coalescing invariant: counting an undelivered token, the consumer
    /// never sees more tokens than were notified, and at least one token is
    /// seen or pending once anything was notified.
    pub closed spec fn wf(self) -> bool {
        &&& self.observed@ + (if self.pending {
            1nat
        } else {
            0nat
        }) <= self.notified@
        &&& self.notified@ >= 1 ==> self.observed@ + (if self.pending {
            1nat
        } else {
            0nat
        }) >= 1
    }

    /// A fresh channel with no token pending.
    pub fn new() -> (r: WakeChannel)
        ensures
            r.wf(),
            !r.is_pending(),
            r.tokens_notified() == 0,
            r.tokens_observed() == 0,
    {
        WakeChannel { pending: false, notified: Ghost(0nat), observed: Ghost(0nat) }
    }

    /// Producer side: raise the token.  If one is already pending the two
    /// notifications coalesce into the same token.
    pub fn notify(&mut self)
        requires
            old(self).wf(),
        ensures
            final(self).wf(),
            final(self).is_pending(),
            final(self).tokens_notified() == old(self).tokens_notified() + 1,
            final(self).tokens_observed() == old(self).tokens_observed(),
    {
        self.pending = true;
        proof {
            self.notified@ = self.notified@ + 1;
        }
    }

    /// Consumer side: take the token if one is pending.
    pub fn try_observe(&mut self) -> (r: bool)
        requires
            old(self).wf(),
        ensures
            final(self).wf(),
            r == old(self).is_pending(),
            !final(self).is_pending(),
            final(self).tokens_notified() == old(self).tokens_notified(),
            r ==> final(self).tokens_observed() == old(self).tokens_observed() + 1,
            !r ==> final(self).tokens_observed() == old(self).tokens_observed(),
    {
        let was_pending = self.pending;
        self.pending = false;
        proof {
            if was_pending {
                self.observed@ = self.observed@ + 1;
            }
        }
        was_pending
    }
}

/// The transmit bridge: the guest-to-host ring together with its wake
/// channel.  The producer notifies after every packet it manages to push, so
/// whenever packets are pending a token is pending too.
pub struct TxBridge {
    pub queue: SharedQueue,
    pub wake: WakeChannel,
}

impl TxBridge {
    /// The bridge invariant: both halves well formed, every push notified,
    /// and no packet left behind without a pending token.
    pub open spec fn wf(self) -> bool {
        &&& self.queue.wf()
        &&& self.wake.wf()
        &&& self.wake.tokens_notified() == self.queue.pushed().len()
        &&& self.queue.pending().len() > 0 ==> self.wake.is_pending()
    }

    /// A fresh bridge with an empty ring and no token.
    pub fn new() -> (r: TxBridge)
        ensures
            r.wf(),
            r.queue.pushed() == Seq::<Seq<u8>>::empty(),
            r.queue.popped() == Seq::<Seq<u8>>::empty(),
            !r.wake.is_pending(),
            r.wake.tokens_observed() == 0,
    {
        TxBridge { queue: SharedQueue::new(), wake: WakeChannel::new() }
    }

    /// Producer step: push the packet and raise the wake token on success.
    /// On a full ring the packet comes back unchanged and no token is raised.
    pub fn send(&mut self, packet: Vec<u8>) -> (r: Option<Vec<u8>>)
        requires
            old(self).wf(),
            packet@.len() <= UHYVE_NET_MTU,
            old(self).queue.written_idx() < u64::MAX,
        ensures
            final(self).wf(),
            old(self).queue.is_full() ==> r == Some(packet)
                && final(self).queue.pushed() == old(self).queue.pushed()
                && final(self).wake.tokens_observed() == old(self).wake.tokens_observed(),
            !old(self).queue.is_full() ==> r is None
                && final(self).queue.pushed() == old(self).queue.pushed().push(packet@)
                && final(self).queue.popped() == old(self).queue.popped()
                && final(self).wake.tokens_observed() == old(self).wake.tokens_observed(),
    {
        let r = self.queue.try_push(packet);
        if r.is_none() {
            self.wake.notify();
        }
        r
    }

    /// Consumer step: if a wake token is pending, take it and drain every
    /// pending packet, oldest first.  Without a token nothing happens — the
    /// writer thread stays blocked on the channel.
    pub fn writer_step(&mut self) -> (r: Option<Vec<Vec<u8>>>)
        requires
            old(self).wf(),
        ensures
            final(self).wf(),
            !old(self).wake.is_pending() ==> r is None && *final(self) == *old(self),
            old(self).wake.is_pending() ==> (r matches Some(drained)
                && drained@.map_values(|p: Vec<u8>| p@) == old(self).queue.pending()
                && final(self).queue.pending().len() == 0
                && final(self).queue.popped() == old(self).queue.popped() + old(
                self,
            ).queue.pending()
                && final(self).queue.pushed() == old(self).queue.pushed()
                && final(self).wake.tokens_observed() == old(self).wake.tokens_observed() + 1
                && final(self).wake.tokens_notified() == old(self).wake.tokens_notified()),
    {
        if !self.wake.try_observe() {
            return None;
        }
        let mut drained: Vec<Vec<u8>> = Vec::new();
        proof {
            assert(old(self).queue.pending().take(0) =~= drained@.map_values(|p: Vec<u8>| p@));
        }
        let mut remaining = self.queue.len();
        while remaining > 0
            invariant
                self.queue.wf(),
                self.wake.wf(),
                !self.wake.is_pending(),
                remaining == self.queue.pending().len(),
                self.wake.tokens_notified() == old(self).wake.tokens_notified(),
                self.wake.tokens_observed() == old(self).wake.tokens_observed() + 1,
                self.queue.pushed() == old(self).queue.pushed(),
                self.queue.read_idx() >= old(self).queue.read_idx(),
                self.queue.written_idx() == old(self).queue.written_idx(),
                self.queue.popped() == old(self).queue.popped() + old(self).queue.pending().take(
                    self.queue.read_idx() - old(self).queue.read_idx(),
                ),
                drained@.map_values(|p: Vec<u8>| p@) == old(self).queue.pending().take(
                    self.queue.read_idx() - old(self).queue.read_idx(),
                ),
            decreases remaining,
        {
            let ghost done = self.queue.read_idx() - old(self).queue.read_idx();
            proof {
                assert(self.queue.pending() =~= old(self).queue.pending().skip(done));
                assert(self.queue.pending()[0] == old(self).queue.pending()[done]);
            }
            match self.queue.try_pop() {
                Some(p) => {
                    drained.push(p);
                    proof {
                        assert(old(self).queue.pending().take(done + 1) =~= old(
                            self,
                        ).queue.pending().take(done).push(old(self).queue.pending()[done]));
                        assert(old(self).queue.popped() + old(self).queue.pending().take(done + 1)
                            =~= (old(self).queue.popped() + old(self).queue.pending().take(
                            done,
                        )).push(old(self).queue.pending()[done]));
                        assert(drained@.map_values(|q: Vec<u8>| q@) =~= drained@.map_values(
                            |q: Vec<u8>| q@,
                        ).take(done).push(old(self).queue.pending()[done]));
                    }
                },
                None => {
                    proof {
                        assert(false);
                    }
                },
            }
            remaining = remaining - 1;
        }
        proof {
            let ghost total = self.queue.read_idx() - old(self).queue.read_idx();
            assert(old(self).queue.pending().take(total) =~= old(self).queue.pending());
        }
        Some(drained)
    }
}

/// Interrupt-coalescing law.  Whenever the writer has no token left to
/// observe, the ring is fully drained — no packet remains undelivered — and
/// if the producer pushed at least one packet, the writer observed at least
/// one and at most one token per packet pushed.
pub proof fn lemma_irq_coalescing(b: &TxBridge)
    requires
        b.wf(),
        !b.wake.is_pending(),
    ensures
        b.queue.pending().len() == 0,
        b.queue.pushed().len() >= 1 ==> 1 <= b.wake.tokens_observed() <= b.queue.pushed().len(),
{
}

} // verus!
