//! The bounded frame queue between the decode worker and the output
//! callback: a first-in first-out queue of sample frames whose capacity is
//! fixed when it is made.
//!
//! The storage is a `ringbuf` ring buffer. A `FrameQueue` owns both ends of
//! one ring, so every change to the ring goes through it.

use crate::audio::sample::AudioSample;
use ringbuf::Consumer;
use ringbuf::Producer;
use ringbuf::RingBuffer;
use vstd::prelude::*;

verus! {

/// The write end of a `ringbuf` ring buffer.
#[verifier::external_type_specification]
#[verifier::external_body]
#[verifier::reject_recursive_types(T)]
pub struct ExProducer<T>(Producer<T>);

/// The read end of a `ringbuf` ring buffer.
#[verifier::external_type_specification]
#[verifier::external_body]
#[verifier::reject_recursive_types(T)]
pub struct ExConsumer<T>(Consumer<T>);

/// The frames held by the ring that `consumer` reads from, oldest first.
pub uninterp spec fn ring_frames(consumer: Consumer<AudioSample>) -> Seq<AudioSample>;

/// The capacity that the ring read by `consumer` was made with.
pub uninterp spec fn ring_capacity(consumer: Consumer<AudioSample>) -> nat;

/// Largest capacity a queue can be made with. It keeps the ring's
/// allocation, one slot more than the capacity, within what an allocation
/// may measure on a 32-bit machine.
pub const MAX_QUEUE_CAPACITY: usize = 0x00FF_FFFF;

/// How many frames of a run of `run_len` a queue holding `len` of
/// `capacity` frames takes in.
pub open spec fn run_accepted(len: nat, capacity: nat, run_len: nat) -> nat {
    if len >= capacity {
        0
    } else if run_len <= capacity - len {
        run_len
    } else {
        (capacity - len) as nat
    }
}

/// The queue contents after one frame is offered: appended when there is
/// room, refused otherwise.
pub open spec fn after_push_one(
    frames: Seq<AudioSample>,
    capacity: nat,
    frame: AudioSample,
) -> Seq<AudioSample> {
    if frames.len() < capacity {
        frames.push(frame)
    } else {
        frames
    }
}

/// The queue contents after a run is offered: as many of its leading frames
/// as fit are appended in order.
pub open spec fn after_push_run(
    frames: Seq<AudioSample>,
    capacity: nat,
    run: Seq<AudioSample>,
) -> Seq<AudioSample> {
    frames + run.take(run_accepted(frames.len(), capacity, run.len()) as int)
}

/// The frame a pop returns: the oldest one, if any.
pub open spec fn front(frames: Seq<AudioSample>) -> Option<AudioSample> {
    if frames.len() == 0 {
        None
    } else {
        Some(frames[0])
    }
}

/// The queue contents after a pop.
pub open spec fn after_pop_one(frames: Seq<AudioSample>) -> Seq<AudioSample> {
    if frames.len() == 0 {
        frames
    } else {
        frames.drop_first()
    }
}

/// How many frames a discard of up to `n` removes.
pub open spec fn discarded(len: nat, n: nat) -> nat {
    if n <= len {
        n
    } else {
        len
    }
}

/// The queue contents after the oldest `n` frames, or all if there are
/// fewer, are dropped.
pub open spec fn after_discard(frames: Seq<AudioSample>, n: nat) -> Seq<AudioSample> {
    frames.skip(discarded(frames.len(), n) as int)
}

/// A single-producer single-consumer queue of sample frames with a fixed
/// capacity. Its view is the queued frames, oldest first.
pub struct FrameQueue {
    producer: Producer<AudioSample>,
    consumer: Consumer<AudioSample>,
}

impl View for FrameQueue {
    type V = Seq<AudioSample>;

    closed spec fn view(&self) -> Seq<AudioSample> {
        ring_frames(self.consumer)
    }
}

impl FrameQueue {
    #[verifier::type_invariant]
    spec fn inv(self) -> bool {
        &&& self@.len() <= self.limit()
        &&& self.limit() <= MAX_QUEUE_CAPACITY
    }

    /// The capacity the queue was made with.
    pub closed spec fn limit(&self) -> nat {
        ring_capacity(self.consumer)
    }

    /// `RingBuffer::new` and `RingBuffer::split` of `ringbuf`: the two ends
    /// of a fresh ring that holds nothing and has room for exactly
    /// `capacity` frames.
    #[verifier::external_body]
    fn ring_split(capacity: usize) -> (ends: (Producer<AudioSample>, Consumer<AudioSample>))
        requires
            capacity <= MAX_QUEUE_CAPACITY,
        ensures
            ring_frames(ends.1) == Seq::<AudioSample>::empty(),
            ring_capacity(ends.1) == capacity,
    {
        RingBuffer::<AudioSample>::new(capacity).split()
    }

    /// `Producer::push` of `ringbuf`: appends the frame when the ring is not
    /// full and says so; a full ring is left as it was.
    #[verifier::external_body]
    fn ring_push(&mut self, frame: AudioSample) -> (stored: bool)
        ensures
            stored == (old(self)@.len() < old(self).limit()),
            final(self)@ == after_push_one(old(self)@, old(self).limit(), frame),
            final(self).limit() == old(self).limit(),
    {
        self.producer.push(frame).is_ok()
    }

    /// `Producer::push_slice` of `ringbuf`: copies as many leading frames of
    /// `run` as the ring has room for behind the queued ones, and returns
    /// how many.
    #[verifier::external_body]
    fn ring_push_slice(&mut self, run: &[AudioSample]) -> (count: usize)
        ensures
            count == run_accepted(old(self)@.len(), old(self).limit(), run@.len()),
            final(self)@ == after_push_run(old(self)@, old(self).limit(), run@),
            final(self).limit() == old(self).limit(),
    {
        self.producer.push_slice(run)
    }

    /// `Consumer::pop` of `ringbuf`: removes and returns the oldest frame,
    /// or returns nothing from an empty ring.
    #[verifier::external_body]
    fn ring_pop(&mut self) -> (frame: Option<AudioSample>)
        ensures
            frame == front(old(self)@),
            final(self)@ == after_pop_one(old(self)@),
            final(self).limit() == old(self).limit(),
    {
        self.consumer.pop()
    }

    /// `Consumer::discard` of `ringbuf`: removes the oldest `n` frames, or
    /// all of them if there are fewer, and returns how many it removed.
    #[verifier::external_body]
    fn ring_discard(&mut self, n: usize) -> (count: usize)
        ensures
            count == discarded(old(self)@.len(), n as nat),
            final(self)@ == after_discard(old(self)@, n as nat),
            final(self).limit() == old(self).limit(),
    {
        self.consumer.discard(n)
    }

    /// `Consumer::remaining` of `ringbuf`: the capacity less the number of
    /// frames held.
    #[verifier::external_body]
    fn ring_remaining(&self) -> (free: usize)
        ensures
            free == self.limit() - self@.len(),
    {
        self.consumer.remaining()
    }

    /// `Consumer::capacity` of `ringbuf`: the capacity the ring was made
    /// with.
    #[verifier::external_body]
    fn ring_limit(&self) -> (capacity: usize)
        ensures
            capacity == self.limit(),
    {
        self.consumer.capacity()
    }

    /// Makes an empty queue with room for `capacity` frames.
    pub fn new(capacity: usize) -> (queue: Self)
        requires
            capacity <= MAX_QUEUE_CAPACITY,
        ensures
            queue@ == Seq::<AudioSample>::empty(),
            queue.limit() == capacity,
    {
        let (producer, consumer) = Self::ring_split(capacity);
        FrameQueue { producer, consumer }
    }

    /// The fixed capacity.
    pub fn capacity(&self) -> (capacity: usize)
        ensures
            capacity == self.limit(),
            self@.len() <= capacity,
            capacity <= MAX_QUEUE_CAPACITY,
    {
        proof {
            use_type_invariant(self);
        }
        self.ring_limit()
    }

    /// Capacity less current occupancy.
    pub fn free_space(&self) -> (free: usize)
        ensures
            free == self.limit() - self@.len(),
            self@.len() <= self.limit(),
    {
        proof {
            use_type_invariant(self);
        }
        self.ring_remaining()
    }

    /// Number of frames queued.
    pub fn occupancy(&self) -> (len: usize)
        ensures
            len == self@.len(),
            len <= self.limit(),
    {
        proof {
            use_type_invariant(self);
        }
        let capacity: usize = self.ring_limit();
        let free: usize = self.ring_remaining();
        capacity - free
    }

    /// Appends one frame if there is room. Returns whether it was stored.
    pub fn push_one(&mut self, frame: AudioSample) -> (stored: bool)
        ensures
            stored == (old(self)@.len() < old(self).limit()),
            final(self)@ == after_push_one(old(self)@, old(self).limit(), frame),
            final(self).limit() == old(self).limit(),
            final(self)@.len() <= final(self).limit(),
    {
        proof {
            use_type_invariant(&*self);
        }
        self.ring_push(frame)
    }

    /// Appends the leading frames of `run` that fit, in order, and returns
    /// how many were stored. A run no longer than `free_space()` is stored
    /// whole.
    pub fn push_run(&mut self, run: &[AudioSample]) -> (count: usize)
        ensures
            count == run_accepted(old(self)@.len(), old(self).limit(), run@.len()),
            final(self)@ == after_push_run(old(self)@, old(self).limit(), run@),
            run@.len() <= old(self).limit() - old(self)@.len() ==> final(self)@ == old(self)@ + run@,
            final(self).limit() == old(self).limit(),
            final(self)@.len() <= final(self).limit(),
    {
        proof {
            use_type_invariant(&*self);
            assert(run@.take(run@.len() as int) =~= run@);
        }
        self.ring_push_slice(run)
    }

    /// Removes and returns the oldest frame, or returns `None` from an
    /// empty queue. Never waits.
    pub fn pop_one(&mut self) -> (frame: Option<AudioSample>)
        ensures
            frame == front(old(self)@),
            final(self)@ == after_pop_one(old(self)@),
            final(self).limit() == old(self).limit(),
            final(self)@.len() <= final(self).limit(),
    {
        proof {
            use_type_invariant(&*self);
        }
        self.ring_pop()
    }

    /// Drops the oldest `n` frames, or all of them if fewer are queued, and
    /// returns how many were dropped.
    pub fn discard(&mut self, n: usize) -> (count: usize)
        ensures
            count == discarded(old(self)@.len(), n as nat),
            final(self)@ == after_discard(old(self)@, n as nat),
            n >= old(self)@.len() ==> final(self)@ == Seq::<AudioSample>::empty(),
            final(self).limit() == old(self).limit(),
            final(self)@.len() <= final(self).limit(),
    {
        proof {
            use_type_invariant(&*self);
            if n >= self@.len() {
                assert(self@.skip(self@.len() as int) =~= Seq::<AudioSample>::empty());
            }
        }
        self.ring_discard(n)
    }
}

/// One operation on a queue.
pub enum QueueOp {
    /// Offer one frame.
    PushOne(AudioSample),
    /// Offer a run of frames.
    PushRun(Seq<AudioSample>),
    /// Pop the oldest frame.
    PopOne,
    /// Discard up to this many of the oldest frames.
    Discard(nat),
}

/// The queue contents after one operation.
pub open spec fn after_op(frames: Seq<AudioSample>, capacity: nat, op: QueueOp) -> Seq<
    AudioSample,
> {
    match op {
        QueueOp::PushOne(frame) => after_push_one(frames, capacity, frame),
        QueueOp::PushRun(run) => after_push_run(frames, capacity, run),
        QueueOp::PopOne => after_pop_one(frames),
        QueueOp::Discard(n) => after_discard(frames, n),
    }
}

/// The queue contents after a sequence of operations, first to last.
pub open spec fn after_ops(frames: Seq<AudioSample>, capacity: nat, ops: Seq<QueueOp>) -> Seq<
    AudioSample,
>
    decreases ops.len(),
{
    if ops.len() == 0 {
        frames
    } else {
        after_ops(after_op(frames, capacity, ops[0]), capacity, ops.drop_first())
    }
}

/// No operation takes a queue over its capacity.
pub proof fn lemma_op_keeps_capacity(frames: Seq<AudioSample>, capacity: nat, op: QueueOp)
    requires
        frames.len() <= capacity,
    ensures
        after_op(frames, capacity, op).len() <= capacity,
{
}

/// Whatever pushes, pops and discards are made, in whatever order, the
/// queue never holds more than its capacity.
pub proof fn lemma_never_over_capacity(frames: Seq<AudioSample>, capacity: nat, ops: Seq<QueueOp>)
    requires
        frames.len() <= capacity,
    ensures
        after_ops(frames, capacity, ops).len() <= capacity,
    decreases ops.len(),
{
    if ops.len() > 0 {
        lemma_op_keeps_capacity(frames, capacity, ops[0]);
        lemma_never_over_capacity(after_op(frames, capacity, ops[0]), capacity, ops.drop_first());
    }
}

/// A frame pushed onto an empty queue is the frame that the next pop
/// returns, and that pop leaves the queue empty again.
pub proof fn lemma_push_then_pop(capacity: nat, frame: AudioSample)
    requires
        capacity > 0,
    ensures
        front(after_push_one(Seq::empty(), capacity, frame)) == Some(frame),
        after_pop_one(after_push_one(Seq::empty(), capacity, frame)) == Seq::<AudioSample>::empty(),
{
    let pushed = after_push_one(Seq::empty(), capacity, frame);
    assert(pushed =~= seq![frame]);
    assert(after_pop_one(pushed) =~= Seq::<AudioSample>::empty());
}

/// First in, first out: a frame pushed where there is room comes out right
/// after the frames that were queued before it, which come out first and
/// in their order.
pub proof fn lemma_first_in_first_out(frames: Seq<AudioSample>, capacity: nat, frame: AudioSample)
    requires
        frames.len() < capacity,
    ensures
        after_push_one(frames, capacity, frame).len() == frames.len() + 1,
        forall|i: int| 0 <= i < frames.len() ==> after_push_one(frames, capacity, frame)[i] == frames[i],
        front(after_discard(after_push_one(frames, capacity, frame), frames.len())) == Some(frame),
        frames.len() > 0 ==> front(after_push_one(frames, capacity, frame)) == front(frames),
{
}

/// A run pushed where there is room for all of it is queued whole and in
/// order behind what was there; nothing queued is overwritten.
pub proof fn lemma_run_lands_whole(frames: Seq<AudioSample>, capacity: nat, run: Seq<AudioSample>)
    requires
        frames.len() + run.len() <= capacity,
    ensures
        after_push_run(frames, capacity, run) == frames + run,
{
    assert(run.take(run.len() as int) =~= run);
}

/// A discard of at least as many frames as are queued leaves the queue
/// empty: its free space is its whole capacity.
pub proof fn lemma_discard_all(frames: Seq<AudioSample>, capacity: nat, n: nat)
    requires
        n >= frames.len(),
    ensures
        after_discard(frames, n) == Seq::<AudioSample>::empty(),
        capacity - after_discard(frames, n).len() == capacity,
{
    assert(frames.skip(frames.len() as int) =~= Seq::<AudioSample>::empty());
}

} // verus!
