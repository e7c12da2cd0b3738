//! Integration tests for the SPSC ring buffer: FIFO semantics and capacity
//! limits within one thread.

use nalgebra::{Matrix2, Vector2};
use uify::ringbuf::{channel, RingbufError};
use uify::sample::Timestamp;

#[derive(Clone, Debug)]
struct Sample {
    t: Timestamp,
    value: Vector2<f64>,
    covariance: Matrix2<f64>,
    confidence: f32,
}

type S = Sample;

fn sample(i: u64) -> S {
    Sample {
        t: Timestamp::from_nanos(i),
        value: Vector2::new(i as f64, -(i as f64)),
        covariance: Matrix2::identity() * (i as f64 + 1.0),
        confidence: 1.0,
    }
}

#[test]
fn push_pop_roundtrip() {
    let (mut tx, mut rx) = channel::<S>(8);

    let s = sample(42);
    tx.write(&s).unwrap();

    assert_eq!(rx.len(), 1);
    let popped = rx.pop().expect("non-empty");
    assert_eq!(popped.t.as_nanos(), 42);
    assert_eq!(popped.value, Vector2::new(42.0, -42.0));
    assert_eq!(popped.covariance, Matrix2::identity() * 43.0);
    assert_eq!(popped.confidence, 1.0);
    assert!(rx.is_empty());
    assert_eq!(rx.pop().map(|_| ()), None);
}

#[test]
fn fifo_order_preserved() {
    let (mut tx, mut rx) = channel::<S>(16);

    for i in 0..10 {
        tx.write(&sample(i)).unwrap();
    }
    for i in 0..10 {
        let s = rx.pop().expect("non-empty");
        assert_eq!(s.t.as_nanos(), i);
    }
    assert!(rx.is_empty());
}

#[test]
fn capacity_full_returns_error() {
    let cap = 4;
    let (mut tx, _rx) = channel::<S>(cap);

    for i in 0..cap as u64 {
        tx.write(&sample(i)).unwrap();
    }
    let err = tx.write(&sample(99)).unwrap_err();
    assert!(matches!(err, RingbufError::Full));
}

#[test]
fn slots_decreases_then_recovers() {
    let cap = 4;
    let (mut tx, mut rx) = channel::<S>(cap);

    assert_eq!(tx.slots(), cap);
    tx.write(&sample(1)).unwrap();
    assert_eq!(tx.slots(), cap - 1);
    rx.pop().unwrap();
    // Queue is logically empty; producer eventually sees free space again.
    assert!(tx.slots() >= cap - 1);
}

#[test]
fn zero_capacity_ring_refuses_every_write() {
    let (mut tx, mut rx) = channel::<u64>(0);
    assert_eq!(tx.slots(), 0);
    assert_eq!(tx.write(&7), Err(RingbufError::Full));
    assert!(rx.is_empty());
    assert_eq!(rx.len(), 0);
    assert_eq!(rx.pop(), None);
}

#[test]
fn ring_wraps_around_and_keeps_order() {
    let (mut tx, mut rx) = channel::<u64>(3);
    let mut next_in = 0u64;
    let mut next_out = 0u64;
    for _ in 0..10 {
        while tx.write(&next_in).is_ok() {
            next_in += 1;
        }
        assert_eq!(rx.len(), 3);
        assert_eq!(rx.pop(), Some(next_out));
        next_out += 1;
        assert_eq!(rx.pop(), Some(next_out));
        next_out += 1;
        assert_eq!(rx.len(), 1);
    }
}

#[test]
fn push_outcome_maps_ring_answer() {
    assert_eq!(uify::ringbuf::push_outcome(Ok::<(), u64>(())), Ok(()));
    assert_eq!(uify::ringbuf::push_outcome(Err::<(), u64>(5)), Err(RingbufError::Full));
}
