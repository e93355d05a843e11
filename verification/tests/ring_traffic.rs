//! Ring safety and interrupt coalescing, driven by heavy randomized traffic.

use std::collections::VecDeque;
use uhyve::ring::{SharedQueue, TxBridge, UHYVE_NET_MTU, UHYVE_QUEUE_SIZE};

/// A small deterministic generator for the traffic shapes.
struct Lcg(u64);

impl Lcg {
    fn next(&mut self) -> u64 {
        self.0 = self.0.wrapping_mul(6364136223846793005).wrapping_add(1442695040888963407);
        self.0 >> 33
    }
}

fn packet(len: usize, tag: u8) -> Vec<u8> {
    vec![tag; len]
}

#[test]
fn ring_no_loss_no_reorder_no_corruption() {
    // one million random-sized packets through one ring, single producer and
    // single consumer interleaved at random; every packet must come out
    // exactly once, in order, byte-for-byte, and the ring must never hold
    // more than its capacity
    let mut rng = Lcg(42);
    let mut queue = SharedQueue::new();
    let mut expected: VecDeque<Vec<u8>> = VecDeque::new();
    let total: u64 = 1_000_000;
    let mut produced: u64 = 0;
    let mut consumed: u64 = 0;
    while consumed < total {
        let push_next = produced < total && (rng.next() % 2 == 0 || expected.is_empty());
        if push_next {
            let len = (rng.next() % UHYVE_NET_MTU as u64) as usize + 1;
            let tag = (produced % 251) as u8;
            let p = packet(len, tag);
            match queue.try_push(p.clone()) {
                None => {
                    expected.push_back(p);
                    produced += 1;
                },
                Some(back) => {
                    // ring full: the packet comes back unchanged
                    assert_eq!(back, p);
                    assert_eq!(expected.len(), UHYVE_QUEUE_SIZE);
                },
            }
        } else {
            match queue.try_pop() {
                Some(got) => {
                    let want = expected.pop_front().expect("pop from empty ring");
                    assert_eq!(got, want);
                    consumed += 1;
                },
                None => {
                    assert!(expected.is_empty());
                },
            }
        }
        // the producer never runs more than the capacity ahead
        assert!(queue.len() <= UHYVE_QUEUE_SIZE as u64);
        assert_eq!(queue.len() as usize, expected.len());
    }
    assert_eq!(produced, total);
    assert_eq!(consumed, total);
    assert_eq!(queue.len(), 0);
}

#[test]
fn ring_gives_packet_back_when_full() {
    let mut queue = SharedQueue::new();
    for i in 0..UHYVE_QUEUE_SIZE {
        assert!(queue.try_push(packet(10, i as u8)).is_none());
    }
    let extra = packet(10, 99);
    assert_eq!(queue.try_push(extra.clone()), Some(extra));
    // draining yields the original packets, oldest first
    for i in 0..UHYVE_QUEUE_SIZE {
        assert_eq!(queue.try_pop(), Some(packet(10, i as u8)));
    }
    assert_eq!(queue.try_pop(), None);
}

#[test]
fn ring_is_fifo() {
    let mut queue = SharedQueue::new();
    assert!(queue.try_push(b"first".to_vec()).is_none());
    assert!(queue.try_push(b"second".to_vec()).is_none());
    assert!(queue.try_push(b"third".to_vec()).is_none());
    assert_eq!(queue.try_pop(), Some(b"first".to_vec()));
    assert_eq!(queue.try_pop(), Some(b"second".to_vec()));
    assert!(queue.try_push(b"fourth".to_vec()).is_none());
    assert_eq!(queue.try_pop(), Some(b"third".to_vec()));
    assert_eq!(queue.try_pop(), Some(b"fourth".to_vec()));
    assert_eq!(queue.try_pop(), None);
}

#[test]
fn wake_tokens_coalesce() {
    // producing N packets back to back yields at least one and at most N
    // observable wake tokens, and no packet remains undelivered afterwards
    let n: usize = 5;
    let mut bridge = TxBridge::new();
    for i in 0..n {
        assert!(bridge.send(packet(20 + i, i as u8)).is_none());
    }
    let mut tokens: usize = 0;
    let mut delivered: Vec<Vec<u8>> = Vec::new();
    while let Some(mut batch) = bridge.writer_step() {
        tokens += 1;
        delivered.append(&mut batch);
    }
    assert!(tokens >= 1);
    assert!(tokens <= n);
    assert_eq!(delivered.len(), n);
    for (i, p) in delivered.iter().enumerate() {
        assert_eq!(*p, packet(20 + i, i as u8));
    }
    // nothing pending: a further step observes no token
    assert!(bridge.writer_step().is_none());
}

#[test]
fn wake_token_per_batch_interleaved() {
    let mut bridge = TxBridge::new();
    assert!(bridge.send(b"a".to_vec()).is_none());
    let first = bridge.writer_step().expect("token raised by send");
    assert_eq!(first, vec![b"a".to_vec()]);
    assert!(bridge.writer_step().is_none());
    assert!(bridge.send(b"b".to_vec()).is_none());
    assert!(bridge.send(b"c".to_vec()).is_none());
    // two sends, one coalesced token, both packets drained in order
    let second = bridge.writer_step().expect("token raised by sends");
    assert_eq!(second, vec![b"b".to_vec(), b"c".to_vec()]);
    assert!(bridge.writer_step().is_none());
}
