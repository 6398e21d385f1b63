//! The two rings between the render callback and the socket worker.
//!
//! One ring carries queued frames to the worker, the other carries spent buffers back. Each ring
//! has one end on either side, and the far side may act between any two calls here. What is stated
//! of an end therefore speaks of its own history and of what it meets at its next call.

use crate::frame::QueuedFrame;
use vstd::prelude::*;

verus! {

/// How many frames, and how many buffers, a ring holds.
///
/// Enough slots are kept to cover the socket write timeout without ever allocating on the render
/// thread. The worker coalesces every burst to its newest quantum, so this is an outage cushion
/// and not a playout queue.
pub const RING_SIZE: usize = 16;

/// The filling end of a ring: `rtrb::Producer`.
#[verifier::external_type_specification]
#[verifier::external_body]
#[verifier::reject_recursive_types(T)]
pub struct ExProducer<T>(rtrb::Producer<T>);

/// The emptying end of a ring: `rtrb::Consumer`.
#[verifier::external_type_specification]
#[verifier::external_body]
#[verifier::reject_recursive_types(T)]
pub struct ExConsumer<T>(rtrb::Consumer<T>);

/// Every frame that this end has put into its ring, oldest first.
pub uninterp spec fn frames_sent(producer: rtrb::Producer<QueuedFrame>) -> Seq<(i64, u32, Seq<u8>)>;

/// How many slots of the ring are free when this end next puts a frame in.
pub uninterp spec fn frame_room(producer: rtrb::Producer<QueuedFrame>) -> nat;

/// Every frame that this end has taken out of its ring, oldest first.
pub uninterp spec fn frames_received(consumer: rtrb::Consumer<QueuedFrame>) -> Seq<
    (i64, u32, Seq<u8>),
>;

/// The frames in the ring, oldest first, when this end next looks for one.
pub uninterp spec fn frames_waiting(consumer: rtrb::Consumer<QueuedFrame>) -> Seq<
    (i64, u32, Seq<u8>),
>;

/// Every frame that ever goes through the ring of this filling end, oldest first.
pub uninterp spec fn frames_to_pass(producer: rtrb::Producer<QueuedFrame>) -> Seq<
    (i64, u32, Seq<u8>),
>;

/// Every frame that ever goes through the ring of this emptying end, oldest first.
pub uninterp spec fn frames_to_come(consumer: rtrb::Consumer<QueuedFrame>) -> Seq<
    (i64, u32, Seq<u8>),
>;

/// Every buffer that this end has put into its ring, oldest first.
pub uninterp spec fn buffers_sent(producer: rtrb::Producer<Vec<u8>>) -> Seq<Seq<u8>>;

/// How many slots of the ring are free when this end next puts a buffer in.
pub uninterp spec fn buffer_room(producer: rtrb::Producer<Vec<u8>>) -> nat;

/// Every buffer that this end has taken out of its ring, oldest first.
pub uninterp spec fn buffers_received(consumer: rtrb::Consumer<Vec<u8>>) -> Seq<Seq<u8>>;

/// The buffers in the ring, oldest first, when this end next looks for one.
pub uninterp spec fn buffers_waiting(consumer: rtrb::Consumer<Vec<u8>>) -> Seq<Seq<u8>>;

/// Which ring of frames this filling end belongs to.
pub uninterp spec fn frame_ring_filled(producer: rtrb::Producer<QueuedFrame>) -> int;

/// Which ring of frames this emptying end belongs to.
pub uninterp spec fn frame_ring_emptied(consumer: rtrb::Consumer<QueuedFrame>) -> int;

/// How many slots the ring of this filling end was made with.
pub uninterp spec fn buffer_slots(producer: rtrb::Producer<Vec<u8>>) -> nat;

/// Which ring this filling end belongs to.
pub uninterp spec fn ring_filled(producer: rtrb::Producer<Vec<u8>>) -> int;

/// Which ring this emptying end belongs to.
pub uninterp spec fn ring_emptied(consumer: rtrb::Consumer<Vec<u8>>) -> int;

/// `rtrb::RingBuffer::<QueuedFrame>::new`: both ends of a fresh ring of `capacity` slots.
///
/// Nothing has passed either end, and all slots are free for the first push. Both ends belong to
/// one ring, so what will ever go through is the same seen from either. A capacity whose slots would
/// outgrow the address space panics, which the bound rules out.
#[verifier::external_body]
pub(crate) fn new_frame_ring(capacity: usize) -> (ends: (
    rtrb::Producer<QueuedFrame>,
    rtrb::Consumer<QueuedFrame>,
))
    requires
        capacity <= 0xFFFF,
    ensures
        frames_sent(ends.0) == Seq::<(i64, u32, Seq<u8>)>::empty(),
        frame_room(ends.0) == capacity,
        frames_received(ends.1) == Seq::<(i64, u32, Seq<u8>)>::empty(),
        frames_to_pass(ends.0) == frames_to_come(ends.1),
        frame_ring_filled(ends.0) == frame_ring_emptied(ends.1),
{
    rtrb::RingBuffer::new(capacity)
}

/// `rtrb::RingBuffer::<Vec<u8>>::new`: both ends of a fresh ring of `capacity` slots.
///
/// Nothing has passed either end, all slots are free for the first push, and both ends belong to
/// one ring. A capacity whose slots would outgrow the address space panics, which the bound rules
/// out.
#[verifier::external_body]
pub(crate) fn new_buffer_ring(capacity: usize) -> (ends: (
    rtrb::Producer<Vec<u8>>,
    rtrb::Consumer<Vec<u8>>,
))
    requires
        capacity <= 0xFFFF,
    ensures
        buffers_sent(ends.0) == Seq::<Seq<u8>>::empty(),
        buffer_room(ends.0) == capacity,
        buffers_received(ends.1) == Seq::<Seq<u8>>::empty(),
        ring_filled(ends.0) == ring_emptied(ends.1),
        buffer_slots(ends.0) == capacity,
{
    rtrb::RingBuffer::new(capacity)
}

/// `rtrb::Producer::<QueuedFrame>::push`: puts `frame` in if a slot is free, else hands it back.
///
/// The far end only frees slots, so after a push at most one slot fewer is free. Slots are filled
/// one after the other, so what was put in comes first of all that ever goes through. The end stays
/// with its ring.
#[verifier::external_body]
pub(crate) fn push_frame(producer: &mut rtrb::Producer<QueuedFrame>, frame: QueuedFrame) -> (r:
    Result<(), QueuedFrame>)
    ensures
        r is Ok <==> frame_room(*old(producer)) > 0,
        r is Ok ==> frames_sent(*final(producer)) == frames_sent(*old(producer)).push(frame@),
        r is Ok ==> frame_room(*final(producer)) + 1 >= frame_room(*old(producer)),
        r matches Err(back) ==> back == frame && frames_sent(*final(producer)) == frames_sent(
            *old(producer),
        ),
        frames_to_pass(*final(producer)) == frames_to_pass(*old(producer)),
        frame_ring_filled(*final(producer)) == frame_ring_filled(*old(producer)),
        frames_sent(*final(producer)).is_prefix_of(frames_to_pass(*final(producer))),
{
    match producer.push(frame) {
        Ok(()) => Ok(()),
        Err(rtrb::PushError::Full(frame)) => Err(frame),
    }
}

/// `rtrb::Producer::<Vec<u8>>::push`: puts `buffer` in if a slot is free, else hands it back.
///
/// The far end only frees slots, so after a push at most one slot fewer is free. The end stays with
/// its ring, which keeps its size.
#[verifier::external_body]
pub(crate) fn push_buffer(producer: &mut rtrb::Producer<Vec<u8>>, buffer: Vec<u8>) -> (r: Result<
    (),
    Vec<u8>,
>)
    ensures
        r is Ok <==> buffer_room(*old(producer)) > 0,
        r is Ok ==> buffers_sent(*final(producer)) == buffers_sent(*old(producer)).push(buffer@),
        r is Ok ==> buffer_room(*final(producer)) + 1 >= buffer_room(*old(producer)),
        r matches Err(back) ==> back == buffer && buffers_sent(*final(producer)) == buffers_sent(
            *old(producer),
        ),
        ring_filled(*final(producer)) == ring_filled(*old(producer)),
        buffer_slots(*final(producer)) == buffer_slots(*old(producer)),
{
    match producer.push(buffer) {
        Ok(()) => Ok(()),
        Err(rtrb::PushError::Full(buffer)) => Err(buffer),
    }
}

/// `rtrb::Consumer::<QueuedFrame>::pop`: takes the oldest frame out, if there is one.
///
/// The far end only adds behind the frames that are there, and a ring has at most `usize::MAX`
/// slots. Slots are emptied in the order in which they were filled, so what was taken out comes
/// first of all that ever goes through. The end stays with its ring.
#[verifier::external_body]
pub(crate) fn pop_frame(consumer: &mut rtrb::Consumer<QueuedFrame>) -> (r: Option<QueuedFrame>)
    ensures
        r is Some <==> frames_waiting(*old(consumer)).len() > 0,
        r matches Some(frame) ==> {
            &&& frame@ == frames_waiting(*old(consumer))[0]
            &&& frames_received(*final(consumer)) == frames_received(*old(consumer)).push(frame@)
            &&& frames_waiting(*old(consumer)).drop_first().is_prefix_of(
                frames_waiting(*final(consumer)),
            )
        },
        r is None ==> frames_received(*final(consumer)) == frames_received(*old(consumer)),
        frames_waiting(*final(consumer)).len() <= usize::MAX,
        frames_to_come(*final(consumer)) == frames_to_come(*old(consumer)),
        frame_ring_emptied(*final(consumer)) == frame_ring_emptied(*old(consumer)),
        frames_received(*final(consumer)).is_prefix_of(frames_to_come(*final(consumer))),
{
    match consumer.pop() {
        Ok(frame) => Some(frame),
        Err(rtrb::PopError::Empty) => None,
    }
}

/// `rtrb::Consumer::<Vec<u8>>::pop`: takes the oldest buffer out, if there is one.
///
/// The far end only adds behind the buffers that are there. The end stays with its ring.
#[verifier::external_body]
pub(crate) fn pop_buffer(consumer: &mut rtrb::Consumer<Vec<u8>>) -> (r: Option<Vec<u8>>)
    ensures
        r is Some <==> buffers_waiting(*old(consumer)).len() > 0,
        r matches Some(buffer) ==> {
            &&& buffer@ == buffers_waiting(*old(consumer))[0]
            &&& buffers_received(*final(consumer)) == buffers_received(*old(consumer)).push(
                buffer@,
            )
            &&& buffers_waiting(*old(consumer)).drop_first().is_prefix_of(
                buffers_waiting(*final(consumer)),
            )
        },
        r is None ==> buffers_received(*final(consumer)) == buffers_received(*old(consumer)),
        ring_emptied(*final(consumer)) == ring_emptied(*old(consumer)),
{
    match consumer.pop() {
        Ok(buffer) => Some(buffer),
        Err(rtrb::PopError::Empty) => None,
    }
}

/// `rtrb::Consumer::<Vec<u8>>::slots`: how many buffers are in the ring, while its filling end is
/// at rest.
///
/// Those are the buffers that the filling end has put in and this end has not taken out. Nobody
/// else can take them out, so they come first when this end next looks for one.
#[verifier::external_body]
pub(crate) fn count_buffers(
    producer: &rtrb::Producer<Vec<u8>>,
    consumer: &mut rtrb::Consumer<Vec<u8>>,
) -> (count: usize)
    requires
        ring_filled(*producer) == ring_emptied(*old(consumer)),
    ensures
        count == buffers_sent(*producer).len() - buffers_received(*old(consumer)).len(),
        buffers_received(*final(consumer)) == buffers_received(*old(consumer)),
        ring_emptied(*final(consumer)) == ring_emptied(*old(consumer)),
        buffers_sent(*producer).skip(
            buffers_received(*old(consumer)).len() as int,
        ).is_prefix_of(buffers_waiting(*final(consumer))),
{
    let _ = producer;
    consumer.slots()
}

/// `rtrb::Consumer::<QueuedFrame>::slots`: how many frames are in the ring, while its filling end is
/// at rest.
///
/// Those are the frames that the filling end has put in and this end has not taken out. Nobody else
/// can take them out, so they come first when this end next looks for one.
#[verifier::external_body]
pub(crate) fn count_frames(
    producer: &rtrb::Producer<QueuedFrame>,
    consumer: &mut rtrb::Consumer<QueuedFrame>,
) -> (count: usize)
    requires
        frame_ring_filled(*producer) == frame_ring_emptied(*old(consumer)),
    ensures
        count == frames_sent(*producer).len() - frames_received(*old(consumer)).len(),
        frames_received(*final(consumer)) == frames_received(*old(consumer)),
        frames_to_come(*final(consumer)) == frames_to_come(*old(consumer)),
        frame_ring_emptied(*final(consumer)) == frame_ring_emptied(*old(consumer)),
        frames_sent(*producer).skip(
            frames_received(*old(consumer)).len() as int,
        ).is_prefix_of(frames_waiting(*final(consumer))),
{
    let _ = producer;
    consumer.slots()
}

/// `rtrb::Producer::<Vec<u8>>::slots`: how many slots of the ring are free, while its emptying end
/// is at rest.
///
/// Those are all slots but the ones whose buffers have not been taken out. Nobody else can fill
/// them, so at least as many are free when this end next puts a buffer in.
#[verifier::external_body]
pub(crate) fn count_room(
    producer: &mut rtrb::Producer<Vec<u8>>,
    consumer: &rtrb::Consumer<Vec<u8>>,
) -> (room: usize)
    requires
        ring_filled(*old(producer)) == ring_emptied(*consumer),
    ensures
        room + buffers_sent(*old(producer)).len() == buffer_slots(*old(producer))
            + buffers_received(*consumer).len(),
        buffer_room(*final(producer)) >= room,
        buffers_sent(*final(producer)) == buffers_sent(*old(producer)),
        buffer_slots(*final(producer)) == buffer_slots(*old(producer)),
        ring_filled(*final(producer)) == ring_filled(*old(producer)),
{
    let _ = consumer;
    producer.slots()
}

} // verus!
