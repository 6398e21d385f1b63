//! The render callback's side: it fills preallocated buffers and queues them.
//!
//! Nothing here allocates or waits. A buffer comes from the ring of spent buffers, and goes either
//! into the ring of queued frames or, if that is full, into a slot of its own for the next call.

use crate::bytes::{le_bytes, le_value, lemma_le_bytes_len, sample_bits, sample_of};
use crate::bytes::{le_round_trip, push_s24, sample_round_trip};
use crate::frame::{frame_stride, QueuedFrame, DEFAULT_MAX_FRAMES};
use crate::ring::{buffers_received, buffers_waiting, frame_room, frames_sent, frames_to_pass};
use crate::ring::{frame_ring_filled, pop_buffer, push_frame, ring_emptied};
use crate::status::{counted, AudioProcessorStatus, AudioProcessorStatusCounters};
use vstd::prelude::*;

verus! {

/// What a processor takes in one call.
#[derive(Debug, Clone, Copy)]
pub struct FrameLimits {
    pub num_channels: u8,
    pub max_frame_bytes: usize,
}

impl FrameLimits {
    /// Whether a quantum of `len` bytes is taken: some samples, no part of one, no more than fit.
    pub open spec fn takes(self, len: nat) -> bool {
        &&& 0 < len <= self.max_frame_bytes
        &&& len % frame_stride(self.num_channels) == 0
    }

    /// Whether `count` samples of one channel are taken.
    pub open spec fn takes_mono(self, count: nat) -> bool {
        &&& self.num_channels == 1
        &&& 0 < count <= DEFAULT_MAX_FRAMES
        &&& count * 3 <= self.max_frame_bytes
    }

    /// Whether a quantum of `len` bytes is taken.
    pub fn accepts(&self, len: usize) -> (taken: bool)
        requires
            self.num_channels > 0,
        ensures
            taken == self.takes(len as nat),
    {
        len != 0 && len <= self.max_frame_bytes && len % (self.num_channels as usize * 3) == 0
    }

    /// Whether `count` samples of one channel are taken.
    pub fn accepts_mono(&self, count: usize) -> (taken: bool)
        ensures
            taken == self.takes_mono(count as nat),
    {
        self.num_channels == 1 && count != 0 && count <= DEFAULT_MAX_FRAMES && count * 3
            <= self.max_frame_bytes
    }
}

/// The ends of the two rings that the render callback holds, and the buffer of a frame that found
/// the ring full.
pub struct AudioProcessorRenderState {
    pub data_producer: rtrb::Producer<QueuedFrame>,
    pub free_consumer: rtrb::Consumer<Vec<u8>>,
    pub rejected_buffer: Option<Vec<u8>>,
}

/// The samples of one channel as 24-bit little-endian numbers.
pub open spec fn mono_bytes(samples: Seq<i32>) -> Seq<u8>
    decreases samples.len(),
{
    if samples.len() == 0 {
        Seq::empty()
    } else {
        mono_bytes(samples.drop_last()) + le_bytes(sample_bits(samples.last()), 3)
    }
}

impl AudioProcessorRenderState {
    /// How many buffers this side holds back.
    pub open spec fn held(self) -> nat {
        if self.rejected_buffer is Some {
            1
        } else {
            0
        }
    }

    /// Every buffer ever taken here was queued, is held back, or is one of `outstanding` that are
    /// being filled. No buffer is made or lost.
    pub open spec fn balanced(self, outstanding: nat) -> bool {
        buffers_received(self.free_consumer).len() == frames_sent(self.data_producer).len()
            + self.held() + outstanding
    }

    /// The frames that were queued are the first that go through the ring.
    pub open spec fn in_order(self) -> bool {
        frames_sent(self.data_producer).is_prefix_of(frames_to_pass(self.data_producer))
    }

    /// Whether a buffer is to be had.
    pub open spec fn has_buffer(self) -> bool {
        self.rejected_buffer is Some || buffers_waiting(self.free_consumer).len() > 0
    }

    /// Takes a buffer: the one held back, or else a spent one.
    pub fn take_free_buffer(&mut self) -> (r: Option<Vec<u8>>)
        ensures
            r is Some <==> old(self).has_buffer(),
            final(self).data_producer == old(self).data_producer,
            ring_emptied(final(self).free_consumer) == ring_emptied(old(self).free_consumer),
            final(self).rejected_buffer is None,
            old(self).rejected_buffer is Some ==> r == old(self).rejected_buffer
                && final(self).free_consumer == old(self).free_consumer,
            old(self).rejected_buffer is None && r is Some ==> r->0@ == buffers_waiting(
                old(self).free_consumer,
            )[0] && buffers_received(final(self).free_consumer) == buffers_received(
                old(self).free_consumer,
            ).push(r->0@),
            old(self).rejected_buffer is None && r is Some ==> buffers_waiting(
                old(self).free_consumer,
            ).drop_first().is_prefix_of(buffers_waiting(final(self).free_consumer)),
            r is None ==> buffers_received(final(self).free_consumer) == buffers_received(
                old(self).free_consumer,
            ),
            forall|outstanding: nat| #[trigger]
                old(self).balanced(outstanding) ==> final(self).balanced(
                    outstanding + (if r is Some {
                        1nat
                    } else {
                        0nat
                    }),
                ),
    {
        match self.rejected_buffer.take() {
            Some(buffer) => Some(buffer),
            None => pop_buffer(&mut self.free_consumer),
        }
    }

    /// Queues a filled buffer. Where the ring is full, the buffer is kept here to be filled again
    /// by the next, fresher call. Returns whether the worker has something new.
    pub fn enqueue_buffer(
        &mut self,
        buffer: Vec<u8>,
        sample_position: i64,
        transport_generation: u32,
        status: &mut AudioProcessorStatusCounters,
    ) -> (queued: bool)
        ensures
            queued <==> frame_room(old(self).data_producer) > 0,
            final(self).free_consumer == old(self).free_consumer,
            frames_to_pass(final(self).data_producer) == frames_to_pass(old(self).data_producer),
            frame_ring_filled(final(self).data_producer) == frame_ring_filled(
                old(self).data_producer,
            ),
            frames_sent(final(self).data_producer).is_prefix_of(
                frames_to_pass(final(self).data_producer),
            ),
            queued ==> {
                &&& frames_sent(final(self).data_producer) == frames_sent(
                    old(self).data_producer,
                ).push((sample_position, transport_generation, buffer@))
                &&& frame_room(final(self).data_producer) + 1 >= frame_room(
                    old(self).data_producer,
                )
                &&& final(self).rejected_buffer == old(self).rejected_buffer
                &&& final(status)@ == (AudioProcessorStatus {
                    frames_queued: counted(old(status).frames_queued, 1),
                    ..old(status)@
                })
            },
            !queued ==> {
                &&& frames_sent(final(self).data_producer) == frames_sent(old(self).data_producer)
                &&& final(self).rejected_buffer == Some(buffer)
                &&& final(status)@ == (AudioProcessorStatus {
                    frames_dropped: counted(old(status).frames_dropped, 1),
                    ..old(status)@
                })
            },
            forall|outstanding: nat| #[trigger]
                old(self).balanced(outstanding) && outstanding > 0 && old(self).held() == 0
                    ==> final(self).balanced((outstanding - 1) as nat),
    {
        match push_frame(
            &mut self.data_producer,
            QueuedFrame { sample_position, transport_generation, data: buffer },
        ) {
            Ok(()) => {
                status.count_queued();
                true
            },
            Err(frame) => {
                self.rejected_buffer = Some(frame.data);
                status.count_dropped(1);
                false
            },
        }
    }

    /// What a call leads to that offers `frame`, where `taken` says whether the limits admit it.
    /// It is queued if a buffer is to be had and the ring has room, and else counted as dropped; a
    /// buffer that was filled in vain is kept.
    pub open spec fn offered(
        self,
        taken: bool,
        frame: (i64, u32, Seq<u8>),
        status: AudioProcessorStatus,
        after: AudioProcessorRenderState,
        status_after: AudioProcessorStatus,
        queued: bool,
    ) -> bool {
        &&& queued <==> taken && self.has_buffer() && frame_room(self.data_producer) > 0
        &&& queued ==> {
            &&& frames_sent(after.data_producer) == frames_sent(self.data_producer).push(frame)
            &&& frame_room(after.data_producer) + 1 >= frame_room(self.data_producer)
            &&& after.rejected_buffer is None
            &&& status_after == AudioProcessorStatus {
                frames_queued: counted(status.frames_queued, 1),
                ..status
            }
        }
        &&& !queued ==> {
            &&& frames_sent(after.data_producer) == frames_sent(self.data_producer)
            &&& status_after == AudioProcessorStatus {
                frames_dropped: counted(status.frames_dropped, 1),
                ..status
            }
        }
        &&& !taken ==> after == self
        &&& taken && self.has_buffer() && !queued ==> after.rejected_buffer is Some
            && after.rejected_buffer->0@ == frame.2
        &&& taken && !self.has_buffer() ==> after.rejected_buffer is None && after.data_producer
            == self.data_producer
        &&& self.rejected_buffer is Some ==> after.free_consumer == self.free_consumer
        &&& self.rejected_buffer is None && taken ==> buffers_received(after.free_consumer) == (
        if self.has_buffer() {
            buffers_received(self.free_consumer).push(buffers_waiting(self.free_consumer)[0])
        } else {
            buffers_received(self.free_consumer)
        })
        &&& self.rejected_buffer is None && taken && self.has_buffer() ==> buffers_waiting(
            self.free_consumer,
        ).drop_first().is_prefix_of(buffers_waiting(after.free_consumer))
        &&& ring_emptied(after.free_consumer) == ring_emptied(self.free_consumer)
        &&& self.balanced(0) ==> after.balanced(0)
        &&& self.in_order() ==> after.in_order()
        &&& frames_to_pass(after.data_producer) == frames_to_pass(self.data_producer)
        &&& frame_ring_filled(after.data_producer) == frame_ring_filled(self.data_producer)
    }

    /// Offers one quantum of interleaved samples. It is queued with its place on the sample clock,
    /// or thrown away and counted. Returns whether the worker has something new.
    pub fn add(
        &mut self,
        limits: &FrameLimits,
        data: &[u8],
        sample_position: i64,
        transport_generation: u32,
        status: &mut AudioProcessorStatusCounters,
    ) -> (queued: bool)
        requires
            limits.num_channels > 0,
        ensures
            old(self).offered(
                limits.takes(data@.len()),
                (sample_position, transport_generation, data@),
                old(status)@,
                *final(self),
                final(status)@,
                queued,
            ),
    {
        if !limits.accepts(data.len()) {
            status.count_dropped(1);
            return false;
        }
        let mut buffer = match self.take_free_buffer() {
            Some(buffer) => buffer,
            None => {
                status.count_dropped(1);
                assert(old(self).balanced(0) ==> self.balanced(0));
                return false;
            },
        };
        buffer.clear();
        buffer.extend_from_slice(data);
        assert(buffer@ =~= data@);
        assert(old(self).balanced(0) ==> self.balanced(1));
        self.enqueue_buffer(buffer, sample_position, transport_generation, status)
    }

    /// Takes an empty buffer for `count` samples of one channel, if they are taken and a buffer is
    /// to be had. Otherwise the quantum is counted as thrown away.
    pub fn claim_mono_buffer(
        &mut self,
        limits: &FrameLimits,
        count: usize,
        status: &mut AudioProcessorStatusCounters,
    ) -> (r: Option<Vec<u8>>)
        ensures
            r is Some <==> limits.takes_mono(count as nat) && old(self).has_buffer(),
            !limits.takes_mono(count as nat) ==> *final(self) == *old(self),
            final(self).data_producer == old(self).data_producer,
            ring_emptied(final(self).free_consumer) == ring_emptied(old(self).free_consumer),
            limits.takes_mono(count as nat) ==> final(self).rejected_buffer is None,
            old(self).rejected_buffer is Some ==> final(self).free_consumer == old(
                self,
            ).free_consumer,
            old(self).rejected_buffer is None && limits.takes_mono(count as nat)
                ==> buffers_received(final(self).free_consumer) == (if r is Some {
                buffers_received(old(self).free_consumer).push(
                    buffers_waiting(old(self).free_consumer)[0],
                )
            } else {
                buffers_received(old(self).free_consumer)
            }),
            old(self).rejected_buffer is None && r is Some ==> buffers_waiting(
                old(self).free_consumer,
            ).drop_first().is_prefix_of(buffers_waiting(final(self).free_consumer)),
            r matches Some(buffer) ==> buffer@.len() == 0 && final(status)@ == old(status)@,
            r is None ==> final(status)@ == (AudioProcessorStatus {
                frames_dropped: counted(old(status).frames_dropped, 1),
                ..old(status)@
            }),
            old(self).balanced(0) ==> final(self).balanced(
                if r is Some {
                    1nat
                } else {
                    0nat
                },
            ),
    {
        if !limits.accepts_mono(count) {
            status.count_dropped(1);
            return None;
        }
        match self.take_free_buffer() {
            Some(taken) => {
                let mut buffer = taken;
                buffer.clear();
                assert(old(self).balanced(0) ==> self.balanced(1));
                Some(buffer)
            },
            None => {
                status.count_dropped(1);
                assert(old(self).balanced(0) ==> self.balanced(0));
                None
            },
        }
    }

    /// Offers one quantum of one channel as whole samples, of which the low 24 bits are queued.
    /// Returns whether the worker has something new.
    pub fn add_s24_mono(
        &mut self,
        limits: &FrameLimits,
        samples: &[i32],
        sample_position: i64,
        transport_generation: u32,
        status: &mut AudioProcessorStatusCounters,
    ) -> (queued: bool)
        ensures
            old(self).offered(
                limits.takes_mono(samples@.len()),
                (sample_position, transport_generation, mono_bytes(samples@)),
                old(status)@,
                *final(self),
                final(status)@,
                queued,
            ),
    {
        let mut buffer = match self.claim_mono_buffer(limits, samples.len(), status) {
            Some(buffer) => buffer,
            None => {
                return false;
            },
        };
        let mut index: usize = 0;
        while index < samples.len()
            invariant
                index <= samples@.len(),
                buffer@ == mono_bytes(samples@.take(index as int)),
            decreases samples@.len() - index,
        {
            push_s24(&mut buffer, samples[index]);
            index = index + 1;
            assert(samples@.take(index as int).drop_last() =~= samples@.take(index - 1));
        }
        assert(samples@.take(index as int) =~= samples@);
        self.enqueue_buffer(buffer, sample_position, transport_generation, status)
    }
}

/// Every sample of one channel takes three bytes.
pub proof fn lemma_mono_bytes_len(samples: Seq<i32>)
    ensures
        mono_bytes(samples).len() == 3 * samples.len(),
    decreases samples.len(),
{
    if samples.len() > 0 {
        lemma_mono_bytes_len(samples.drop_last());
        lemma_le_bytes_len(sample_bits(samples.last()), 3);
    }
}

/// A receiver reads every sample of one channel back from its three bytes, as long as the sample
/// fits in 24 bits.
pub proof fn mono_samples_read_back(samples: Seq<i32>, index: int)
    requires
        0 <= index < samples.len(),
        -0x80_0000 <= samples[index] < 0x80_0000,
    ensures
        mono_bytes(samples).len() == 3 * samples.len(),
        sample_of(le_value(mono_bytes(samples).subrange(3 * index, 3 * index + 3)))
            == samples[index],
    decreases samples.len(),
{
    let before = samples.drop_last();
    let last = le_bytes(sample_bits(samples.last()), 3);
    lemma_mono_bytes_len(samples);
    lemma_mono_bytes_len(before);
    if index == samples.len() - 1 {
        sample_round_trip(samples.last());
        le_round_trip(sample_bits(samples.last()), 3);
        assert(mono_bytes(samples).subrange(3 * index, 3 * index + 3) =~= last);
    } else {
        mono_samples_read_back(before, index);
        assert(mono_bytes(samples).subrange(3 * index, 3 * index + 3) =~= mono_bytes(
            before,
        ).subrange(3 * index, 3 * index + 3));
    }
}

} // verus!
