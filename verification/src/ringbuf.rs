//! Lock-free single-producer / single-consumer ring buffer bridging the
//! vision thread and the audio thread, built on `rtrb`.
//!
//! The audio thread must not allocate, lock, or block: `rtrb` gives a
//! wait-free reader, and the writer is the single vision-thread producer.
//! After `channel` has allocated the ring, pushing and popping allocate
//! nothing.
//!
//! The two halves share one queue that each side changes behind the
//! other's back (possibly from another thread). The contracts below
//! therefore state that each operation is exactly one call of the matching
//! `rtrb` operation on its own half, and report that call's answer; what
//! the queue holds at a given moment is not stated, because it depends on
//! the other half.

use vstd::prelude::*;
use rtrb::{Consumer, Producer};

verus! {

#[verifier::external_type_specification]
#[verifier::external_body]
#[verifier::reject_recursive_types(T)]
pub struct ExProducer<T>(rtrb::Producer<T>);

#[verifier::external_type_specification]
#[verifier::external_body]
#[verifier::reject_recursive_types(T)]
pub struct ExConsumer<T>(rtrb::Consumer<T>);

/// Calls `rtrb::RingBuffer::new(capacity)`, which allocates a ring of
/// `capacity` slots and hands out its two halves. `rtrb` panics when
/// `capacity` exceeds `usize::MAX / 2` or when `capacity` items of `T` take
/// more than `isize::MAX` bytes; the precondition leaves those inputs out.
/// Nothing is stated of the halves: their state is shared between them.
#[verifier::external_body]
fn rtrb_ring_buffer_new<T>(capacity: usize) -> (halves: (Producer<T>, Consumer<T>))
    requires
        capacity <= usize::MAX / 2,
        capacity * vstd::layout::size_of::<T>() <= isize::MAX,
{
    rtrb::RingBuffer::new(capacity)
}

/// Calls `rtrb::Producer::push`. When the ring is full, `rtrb` refuses the
/// item and hands that same item back (`PushError::Full(value)`), which this
/// wrapper returns as `Err(value)`. Whether the ring is full depends on the
/// consumer half, so when the push succeeds is not stated.
#[verifier::external_body]
fn rtrb_producer_push<T>(producer: &mut Producer<T>, value: T) -> (r: Result<(), T>)
    ensures
        r matches Err(v) ==> v == value,
{
    match producer.push(value) {
        Ok(()) => Ok(()),
        Err(rtrb::PushError::Full(v)) => Err(v),
    }
}

/// Calls `rtrb::Producer::slots`: the number of slots currently free for
/// writing. It depends on how far the consumer half has read, so no value
/// is stated.
#[verifier::external_body]
fn rtrb_producer_slots<T>(producer: &Producer<T>) -> (n: usize) {
    producer.slots()
}

/// Calls `rtrb::Consumer::pop`, which moves the oldest item out of the ring
/// or reports `PopError::Empty` (its only error), converted to `None`. Which
/// item comes out depends on what the producer half pushed, so it is not
/// stated.
#[verifier::external_body]
fn rtrb_consumer_pop<T>(consumer: &mut Consumer<T>) -> (r: Option<T>) {
    consumer.pop().ok()
}

/// Calls `rtrb::Consumer::is_empty`: whether no item is currently ready for
/// reading. It depends on the producer half, so no value is stated.
#[verifier::external_body]
fn rtrb_consumer_is_empty<T>(consumer: &Consumer<T>) -> (b: bool) {
    consumer.is_empty()
}

/// Calls `rtrb::Consumer::slots`: the number of items currently ready for
/// reading. It depends on the producer half, so no value is stated.
#[verifier::external_body]
fn rtrb_consumer_slots<T>(consumer: &Consumer<T>) -> (n: usize) {
    consumer.slots()
}

/// `answer` is what a push of `item` through the mutable borrow `m` of a
/// producer half answered.
pub closed spec fn push_answer<T>(m: &mut Producer<T>, item: T, answer: Result<(), T>) -> bool {
    call_ensures(rtrb_producer_push::<T>, (m, item), answer)
}

/// `item` is what a pop through the mutable borrow `m` of a consumer half
/// answered.
pub closed spec fn pop_answer<T>(m: &mut Consumer<T>, item: Option<T>) -> bool {
    call_ensures(rtrb_consumer_pop::<T>, (m,), item)
}

/// `n` is what the producer half answered when asked for its free slots.
pub closed spec fn free_slots_answer<T>(producer: Producer<T>, n: usize) -> bool {
    call_ensures(rtrb_producer_slots::<T>, (&producer,), n)
}

/// `b` is what the consumer half answered when asked whether it is empty.
pub closed spec fn emptiness_answer<T>(consumer: Consumer<T>, b: bool) -> bool {
    call_ensures(rtrb_consumer_is_empty::<T>, (&consumer,), b)
}

/// `n` is what the consumer half answered when asked how many items are
/// ready for reading.
pub closed spec fn ready_count_answer<T>(consumer: Consumer<T>, n: usize) -> bool {
    call_ensures(rtrb_consumer_slots::<T>, (&consumer,), n)
}

/// Errors from [`RingbufSink::write`].
#[derive(Debug, Clone, Copy, PartialEq, Eq, Structural)]
pub enum RingbufError {
    /// The buffer is full and the consumer has not made room. The sample
    /// was dropped.
    Full,
}

/// Producer half: lets a tracker be wired straight into a real-time-safe
/// queue without knowing the consumer's identity.
#[verifier::reject_recursive_types(T)]
pub struct RingbufSink<T> {
    producer: Producer<T>,
}

/// Consumer half: pops items in FIFO order. Wait-free; safe to call from
/// the audio thread.
#[verifier::reject_recursive_types(T)]
pub struct RingbufSource<T> {
    consumer: Consumer<T>,
}

/// Allocate a single-producer / single-consumer ring of fixed `capacity`.
/// The two halves can be moved into separate threads.
pub fn channel<T>(capacity: usize) -> (halves: (RingbufSink<T>, RingbufSource<T>))
    requires
        capacity <= usize::MAX / 2,
        capacity * vstd::layout::size_of::<T>() <= isize::MAX,
{
    let (producer, consumer) = rtrb_ring_buffer_new(capacity);
    (RingbufSink { producer }, RingbufSource { consumer })
}

/// The outcome `RingbufSink::write` reports for what the ring answered to
/// a push: success when the item was accepted, `RingbufError::Full` when the
/// ring was full and handed the item back (the item is then dropped).
pub fn push_outcome<T>(pushed: Result<(), T>) -> (r: Result<(), RingbufError>)
    ensures
        pushed is Ok ==> r == Ok::<(), RingbufError>(()),
        pushed is Err ==> r == Err::<(), RingbufError>(RingbufError::Full),
{
    match pushed {
        Ok(()) => Ok(()),
        Err(_) => Err(RingbufError::Full),
    }
}

impl<T: Clone> RingbufSink<T> {
    /// Push a clone of `sample`, exactly once, and report the ring's answer
    /// as [`push_outcome`] does: `Ok` when the ring took the item,
    /// `RingbufError::Full` when it handed it back. Whether the ring accepts
    /// it depends on how far the consumer half has read, so which answer
    /// comes is not stated.
    pub fn write(&mut self, sample: &T) -> (r: Result<(), RingbufError>)
        ensures
            exists|m: &mut Producer<T>, item: T, answer: Result<(), T>|
                #[trigger] push_answer(m, item, answer)
                    && mut_ref_current(m) == old(self).producer()
                    && mut_ref_future(m) == final(self).producer()
                    && cloned(*sample, item)
                    && (answer is Ok ==> r == Ok::<(), RingbufError>(()))
                    && (answer is Err ==> r == Err::<(), RingbufError>(RingbufError::Full)),
    {
        let item = sample.clone();
        let answer = rtrb_producer_push(&mut self.producer, item);
        proof {
            assert(exists|m: &mut Producer<T>|
                #[trigger] call_ensures(rtrb_producer_push::<T>, (m, item), answer)
                    && mut_ref_current(m) == old(self).producer
                    && mut_ref_future(m) == self.producer);
            let m = choose|m: &mut Producer<T>|
                #[trigger] call_ensures(rtrb_producer_push::<T>, (m, item), answer)
                    && mut_ref_current(m) == old(self).producer
                    && mut_ref_future(m) == self.producer;
            assert(push_answer(m, item, answer));
        }
        push_outcome(answer)
    }
}

impl<T> RingbufSink<T> {
    /// The producer half, as contracts see it.
    pub closed spec fn producer(&self) -> Producer<T> {
        self.producer
    }

    /// Number of slots remaining before `write` returns `RingbufError::Full`:
    /// the producer half's own answer.
    pub fn slots(&self) -> (n: usize)
        ensures
            free_slots_answer(self.producer(), n),
    {
        rtrb_producer_slots(&self.producer)
    }
}

impl<T> RingbufSource<T> {
    /// The consumer half, as contracts see it.
    pub closed spec fn consumer(&self) -> Consumer<T> {
        self.consumer
    }

    /// Pop the oldest item, or `None` if empty: exactly one pop of the
    /// consumer half, whose answer is returned unchanged.
    pub fn pop(&mut self) -> (r: Option<T>)
        ensures
            exists|m: &mut Consumer<T>|
                #[trigger] pop_answer(m, r)
                    && mut_ref_current(m) == old(self).consumer()
                    && mut_ref_future(m) == final(self).consumer(),
    {
        let r = rtrb_consumer_pop(&mut self.consumer);
        proof {
            assert(exists|m: &mut Consumer<T>|
                #[trigger] call_ensures(rtrb_consumer_pop::<T>, (m,), r)
                    && mut_ref_current(m) == old(self).consumer
                    && mut_ref_future(m) == self.consumer);
            let m = choose|m: &mut Consumer<T>|
                #[trigger] call_ensures(rtrb_consumer_pop::<T>, (m,), r)
                    && mut_ref_current(m) == old(self).consumer
                    && mut_ref_future(m) == self.consumer;
            assert(pop_answer(m, r));
        }
        r
    }

    /// True if there are no items to read: the consumer half's own answer.
    pub fn is_empty(&self) -> (b: bool)
        ensures
            emptiness_answer(self.consumer(), b),
    {
        rtrb_consumer_is_empty(&self.consumer)
    }

    /// Number of items currently buffered: the consumer half's own answer.
    pub fn len(&self) -> (n: usize)
        ensures
            ready_count_answer(self.consumer(), n),
    {
        rtrb_consumer_slots(&self.consumer)
    }
}

} // verus!
