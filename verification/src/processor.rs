//! A processor: the render side, its flags and counters, and its metadata.

use crate::frame::{channels_supported, frame_stride, rate_supported, DEFAULT_MAX_FRAMES};
use crate::frame::{sendable, MAX_HEADER_BYTES, SAMPLE_CLOCK_BYTES};
use crate::metadata::{text_of, PublishedMetadata};
use crate::laws::{taken_mono_quanta_are_sendable, taken_quanta_are_sendable};
use crate::render::{lemma_mono_bytes_len, mono_bytes, AudioProcessorRenderState, FrameLimits};
use crate::ring::{buffer_room, buffer_slots, buffers_received, buffers_sent, buffers_waiting};
use crate::ring::{count_buffers, new_buffer_ring, new_frame_ring, push_buffer, RING_SIZE};
use crate::ring::{frame_room, frames_received, frames_sent, frames_to_come, frames_to_pass};
use crate::ring::{frame_ring_emptied, frame_ring_filled, ring_emptied, ring_filled};
use crate::status::{AudioProcessorStatus, AudioProcessorStatusCounters};
use crate::worker::{TxPhase, TxWorker};
use vstd::prelude::*;

verus! {

/// Whether a processor can be made with these settings.
pub open spec fn config_valid(channels: u8, sample_rate: u32, max_frames: usize) -> bool {
    channels_supported(channels) && rate_supported(sample_rate) && max_frames > 0
}

/// Whether a processor can be made with these settings.
pub fn valid_processor_config(channels: u8, sample_rate: u32, max_frames: usize) -> (valid: bool)
    ensures
        valid == config_valid(channels, sample_rate, max_frames),
{
    1 <= channels && channels <= 16 && (sample_rate == 16_000 || sample_rate == 44_100
        || sample_rate == 48_000 || sample_rate == 96_000) && max_frames > 0
}

/// The samples per channel that one quantum may hold: at least one, at most what a header counts.
pub open spec fn clamped_frames(max_frames: usize) -> usize {
    if max_frames < 1 {
        1
    } else if max_frames > DEFAULT_MAX_FRAMES {
        DEFAULT_MAX_FRAMES
    } else {
        max_frames
    }
}

/// The owner's part of a processor. The other part is its worker.
pub struct AudioProcessor {
    pub render: AudioProcessorRenderState,
    pub limits: FrameLimits,
    pub status: AudioProcessorStatusCounters,
    pub metadata: PublishedMetadata,
    pub shutdown: bool,
}

impl AudioProcessor {
    /// The processor's invariant: its limits admit only what a frame header can announce, no buffer
    /// has been made or lost, frames go through the ring in the order in which they were queued, and
    /// each that was queued can be announced.
    pub open spec fn wf(self) -> bool {
        &&& channels_supported(self.limits.num_channels)
        &&& self.limits.max_frame_bytes <= DEFAULT_MAX_FRAMES * frame_stride(
            self.limits.num_channels,
        )
        &&& self.render.balanced(0)
        &&& self.render.in_order()
        &&& forall|i: int|
            0 <= i < frames_sent(self.render.data_producer).len() ==> sendable(
                (#[trigger] frames_sent(self.render.data_producer)[i]).2.len(),
                self.limits.num_channels,
            )
    }

    /// Whether the processor and `worker` hold the two ends of one ring of frames.
    pub open spec fn shares_frames(self, worker: TxWorker) -> bool {
        &&& frame_ring_filled(self.render.data_producer) == frame_ring_emptied(
            worker.data_consumer,
        )
        &&& frames_to_pass(self.render.data_producer) == frames_to_come(worker.data_consumer)
    }

    /// Whether the processor and `worker` hold the two ends of one ring of spent buffers.
    pub open spec fn shares_buffers(self, worker: TxWorker) -> bool {
        ring_filled(worker.free_producer) == ring_emptied(self.render.free_consumer)
    }

    /// Whether the processor has taken no more buffers than `worker` has put into the ring.
    pub open spec fn covered_by(self, worker: TxWorker) -> bool {
        buffers_received(self.render.free_consumer).len() <= buffers_sent(
            worker.free_producer,
        ).len()
    }

    /// What a new processor and its worker are.
    pub open spec fn made(
        socket_path: String,
        num_channels: u8,
        sample_rate: u32,
        max_frames: usize,
        frame_id: Option<u16>,
        processor: AudioProcessor,
        worker: TxWorker,
    ) -> bool {
        &&& processor.limits.num_channels == num_channels
        &&& processor.limits.max_frame_bytes == clamped_frames(max_frames) * num_channels * 3
        &&& processor.status@ == AudioProcessorStatus {
            started: true,
            ..AudioProcessorStatus::idle()
        }
        &&& processor.metadata.metadata@ == (None::<Seq<char>>, None::<Seq<char>>)
        &&& processor.metadata.version == 0
        &&& !processor.shutdown
        &&& processor.render.rejected_buffer is None
        &&& frames_sent(processor.render.data_producer).len() == 0
        &&& frame_room(processor.render.data_producer) == RING_SIZE
        &&& buffers_received(processor.render.free_consumer).len() == 0
        &&& processor.shares_buffers(worker)
        &&& buffers_sent(worker.free_producer).is_prefix_of(
            buffers_waiting(processor.render.free_consumer),
        )
        &&& worker.socket_path == socket_path
        &&& worker.num_channels == num_channels
        &&& worker.sample_rate == sample_rate
        &&& worker.max_frame_bytes == processor.limits.max_frame_bytes
        &&& worker.frame_id == frame_id
        &&& worker.phase == TxPhase::LoopTop
        &&& frames_received(worker.data_consumer).len() == 0
        &&& processor.shares_frames(worker)
        &&& buffers_sent(worker.free_producer) == Seq::new(
            RING_SIZE as nat,
            |i: int| Seq::<u8>::empty(),
        )
    }

    /// What a new processor for quanta of any size and its worker are.
    pub open spec fn made_for_any_size(
        socket_path: String,
        num_channels: u8,
        sample_rate: u32,
        processor: AudioProcessor,
        worker: TxWorker,
    ) -> bool {
        Self::made(
            socket_path,
            num_channels,
            sample_rate,
            DEFAULT_MAX_FRAMES,
            None,
            processor,
            worker,
        )
    }

    /// What a new processor for quanta of up to a given size and its worker are.
    pub open spec fn made_for_size(
        socket_path: String,
        num_channels: u8,
        sample_rate: u32,
        max_frames: usize,
        processor: AudioProcessor,
        worker: TxWorker,
    ) -> bool {
        Self::made(socket_path, num_channels, sample_rate, max_frames, None, processor, worker)
    }

    /// What a new processor that names its stream itself and its worker are.
    pub open spec fn made_for_stream(
        socket_path: String,
        num_channels: u8,
        sample_rate: u32,
        max_frames: usize,
        frame_id: u16,
        processor: AudioProcessor,
        worker: TxWorker,
    ) -> bool {
        Self::made(
            socket_path,
            num_channels,
            sample_rate,
            max_frames,
            Some(frame_id),
            processor,
            worker,
        )
    }

    /// A processor for quanta of any size that a header can announce.
    pub fn new(socket_path: String, num_channels: u8, sample_rate: u32) -> (made: (
        AudioProcessor,
        TxWorker,
    ))
        requires
            channels_supported(num_channels),
            rate_supported(sample_rate),
        ensures
            made.0.wf() && made.1.wf(),
            Self::made_for_any_size(socket_path, num_channels, sample_rate, made.0, made.1),
    {
        Self::new_configured(socket_path, num_channels, sample_rate, DEFAULT_MAX_FRAMES, None)
    }

    /// A processor for quanta of up to `max_frames` samples per channel.
    pub fn new_preallocated(
        socket_path: String,
        num_channels: u8,
        sample_rate: u32,
        max_frames: usize,
    ) -> (made: (AudioProcessor, TxWorker))
        requires
            channels_supported(num_channels),
            rate_supported(sample_rate),
        ensures
            made.0.wf() && made.1.wf(),
            Self::made_for_size(
                socket_path,
                num_channels,
                sample_rate,
                max_frames,
                made.0,
                made.1,
            ),
    {
        Self::new_configured(socket_path, num_channels, sample_rate, max_frames, None)
    }

    /// A processor that names its stream itself.
    pub fn new_with_frame_id(
        socket_path: String,
        num_channels: u8,
        sample_rate: u32,
        max_frames: usize,
        frame_id: u16,
    ) -> (made: (AudioProcessor, TxWorker))
        requires
            channels_supported(num_channels),
            rate_supported(sample_rate),
        ensures
            made.0.wf() && made.1.wf(),
            Self::made_for_stream(
                socket_path,
                num_channels,
                sample_rate,
                max_frames,
                frame_id,
                made.0,
                made.1,
            ),
    {
        Self::new_configured(socket_path, num_channels, sample_rate, max_frames, Some(frame_id))
    }

    /// Makes a processor and its worker. All buffers stand ready in the ring of spent buffers.
    pub fn new_configured(
        socket_path: String,
        num_channels: u8,
        sample_rate: u32,
        max_frames: usize,
        frame_id: Option<u16>,
    ) -> (made: (AudioProcessor, TxWorker))
        requires
            channels_supported(num_channels),
            rate_supported(sample_rate),
        ensures
            made.0.wf() && made.1.wf(),
            Self::made(
                socket_path,
                num_channels,
                sample_rate,
                max_frames,
                frame_id,
                made.0,
                made.1,
            ),
    {
        let max_frames: usize = if max_frames < 1 {
            1
        } else if max_frames > DEFAULT_MAX_FRAMES {
            DEFAULT_MAX_FRAMES
        } else {
            max_frames
        };
        assert(max_frames * num_channels * 3 <= DEFAULT_MAX_FRAMES * frame_stride(num_channels)
            && max_frames * num_channels <= 0xFFFF) by (nonlinear_arith)
            requires
                max_frames <= DEFAULT_MAX_FRAMES,
                DEFAULT_MAX_FRAMES == 4095,
                num_channels <= 16,
        ;
        let max_frame_bytes: usize = max_frames * num_channels as usize * 3;
        let (data_producer, data_consumer) = new_frame_ring(RING_SIZE);
        let (mut free_producer, mut free_consumer) = new_buffer_ring(RING_SIZE);
        let mut filled: usize = count_buffers(&free_producer, &mut free_consumer);
        while filled < RING_SIZE
            invariant
                filled <= RING_SIZE,
                ring_filled(free_producer) == ring_emptied(free_consumer),
                buffers_sent(free_producer) == Seq::new(
                    filled as nat,
                    |i: int| Seq::<u8>::empty(),
                ),
                buffers_received(free_consumer) == Seq::<Seq<u8>>::empty(),
                buffers_sent(free_producer).is_prefix_of(buffers_waiting(free_consumer)),
                buffer_room(free_producer) + filled >= RING_SIZE,
                buffer_slots(free_producer) == RING_SIZE,
            decreases RING_SIZE - filled,
        {
            let ghost before = buffers_sent(free_producer);
            let _ = push_buffer(&mut free_producer, Vec::with_capacity(max_frame_bytes));
            filled = count_buffers(&free_producer, &mut free_consumer);
            assert(before.push(Seq::<u8>::empty()) =~= Seq::new(
                filled as nat,
                |i: int| Seq::<u8>::empty(),
            ));
            assert(buffers_sent(free_producer).skip(0) =~= buffers_sent(free_producer));
        }
        let mut status = AudioProcessorStatusCounters::default();
        status.started = true;
        let processor = AudioProcessor {
            render: AudioProcessorRenderState {
                data_producer,
                free_consumer,
                rejected_buffer: None,
            },
            limits: FrameLimits { num_channels, max_frame_bytes },
            status,
            metadata: PublishedMetadata::new(),
            shutdown: false,
        };
        let worker = TxWorker {
            socket_path,
            num_channels,
            sample_rate,
            max_frame_bytes,
            frame_id,
            data_consumer,
            free_producer,
            phase: TxPhase::LoopTop,
            stream_id: 0,
            sent_metadata_version: 0,
            in_flight: None,
            header_data: Vec::with_capacity(MAX_HEADER_BYTES),
            send_buffer: Vec::with_capacity(
                max_frame_bytes + MAX_HEADER_BYTES + SAMPLE_CLOCK_BYTES + 4,
            ),
        };
        (processor, worker)
    }

    /// Everything but the metadata is as it was.
    pub open spec fn keeps_all_but_metadata(self, after: AudioProcessor) -> bool {
        &&& after.render == self.render
        &&& after.limits == self.limits
        &&& after.status == self.status
        &&& after.shutdown == self.shutdown
    }

    /// What naming the track leads to.
    pub open spec fn renamed(
        self,
        names: (Option<Seq<char>>, Option<Seq<char>>),
        after: AudioProcessor,
        changed: bool,
    ) -> bool {
        &&& self.metadata.renamed(names, after.metadata, changed)
        &&& self.keeps_all_but_metadata(after)
    }

    /// Names the track. Returns whether the worker has something new.
    pub fn set_track_metadata(
        &mut self,
        instance_id: Option<String>,
        label: Option<String>,
    ) -> (changed: bool)
        ensures
            old(self).renamed((text_of(instance_id), text_of(label)), *final(self), changed),
    {
        self.metadata.set_track_metadata(instance_id, label)
    }

    /// The flags and counters that the processor shows.
    pub open spec fn shown_status(self) -> AudioProcessorStatus {
        self.status.reading()
    }

    /// Reads the flags and counters.
    pub fn status(&self) -> (status: AudioProcessorStatus)
        ensures
            status == self.shown_status(),
    {
        self.status.snapshot()
    }

    /// How many buffers wait for the next quanta, while the worker is at rest: those that it has
    /// handed back and the processor has not taken.
    pub fn waiting_buffers(&mut self, worker: &TxWorker) -> (count: usize)
        requires
            old(self).shares_buffers(*worker),
        ensures
            count == buffers_sent(worker.free_producer).len() - buffers_received(
                old(self).render.free_consumer,
            ).len(),
            old(self).covered_by(*worker),
            final(self).covered_by(*worker),
            final(self).shares_buffers(*worker),
            buffers_received(final(self).render.free_consumer) == buffers_received(
                old(self).render.free_consumer,
            ),
            buffers_waiting(final(self).render.free_consumer).len() >= count,
            final(self).render.data_producer == old(self).render.data_producer,
            final(self).render.rejected_buffer == old(self).render.rejected_buffer,
            final(self).limits == old(self).limits,
            final(self).status == old(self).status,
            final(self).metadata == old(self).metadata,
            final(self).shutdown == old(self).shutdown,
            old(self).wf() ==> final(self).wf(),
    {
        count_buffers(&worker.free_producer, &mut self.render.free_consumer)
    }

    /// What a call leads to that offers `frame`, where `taken` says whether the limits admit it.
    pub open spec fn offered(
        self,
        taken: bool,
        frame: (i64, u32, Seq<u8>),
        after: AudioProcessor,
        queued: bool,
    ) -> bool {
        &&& self.render.offered(
            taken,
            frame,
            self.status@,
            after.render,
            after.status@,
            queued,
        )
        &&& after.limits == self.limits
        &&& after.metadata == self.metadata
        &&& after.shutdown == self.shutdown
    }

    /// What offering a quantum of interleaved samples leads to.
    pub open spec fn added(
        self,
        data: Seq<u8>,
        sample_position: i64,
        transport_generation: u32,
        after: AudioProcessor,
        queued: bool,
    ) -> bool {
        self.offered(
            self.limits.takes(data.len()),
            (sample_position, transport_generation, data),
            after,
            queued,
        )
    }

    /// What offering whole samples of one channel leads to.
    pub open spec fn added_mono(
        self,
        samples: Seq<i32>,
        sample_position: i64,
        transport_generation: u32,
        after: AudioProcessor,
        queued: bool,
    ) -> bool {
        self.offered(
            self.limits.takes_mono(samples.len()),
            (sample_position, transport_generation, mono_bytes(samples)),
            after,
            queued,
        )
    }

    /// Offers one quantum of interleaved samples. Returns whether the worker has something new.
    pub fn add(&mut self, data: &[u8], sample_position: i64, transport_generation: u32) -> (queued:
        bool)
        requires
            old(self).wf(),
        ensures
            final(self).wf(),
            old(self).added(data@, sample_position, transport_generation, *final(self), queued),
    {
        proof {
            if self.limits.takes(data@.len()) {
                taken_quanta_are_sendable(*self, data@.len());
            }
        }
        self.render.add(
            &self.limits,
            data,
            sample_position,
            transport_generation,
            &mut self.status,
        )
    }

    /// Offers one quantum of one channel as whole samples. Returns whether the worker has something
    /// new.
    pub fn add_s24_mono(
        &mut self,
        samples: &[i32],
        sample_position: i64,
        transport_generation: u32,
    ) -> (queued: bool)
        requires
            old(self).wf(),
        ensures
            final(self).wf(),
            old(self).added_mono(
                samples@,
                sample_position,
                transport_generation,
                *final(self),
                queued,
            ),
    {
        proof {
            if self.limits.takes_mono(samples@.len()) {
                taken_mono_quanta_are_sendable(*self, samples@.len());
                lemma_mono_bytes_len(samples@);
            }
        }
        self.render.add_s24_mono(
            &self.limits,
            samples,
            sample_position,
            transport_generation,
            &mut self.status,
        )
    }

    /// What telling the worker to stop leads to.
    pub open spec fn told_to_stop(self, after: AudioProcessor) -> bool {
        &&& after.shutdown
        &&& after.status@ == (AudioProcessorStatus { connected: false, ..self.status@ })
        &&& after.render == self.render
        &&& after.limits == self.limits
        &&& after.metadata == self.metadata
    }

    /// What stopping the processor leads to.
    pub open spec fn stopped(self, after: AudioProcessor) -> bool {
        &&& after.shutdown
        &&& after.status@ == (AudioProcessorStatus {
            started: false,
            connected: false,
            ..self.status@
        })
        &&& after.render == self.render
        &&& after.limits == self.limits
        &&& after.metadata == self.metadata
    }

    /// Tells the worker to stop. From now on the processor does not count as connected.
    pub fn request_shutdown(&mut self)
        ensures
            old(self).told_to_stop(*final(self)),
    {
        self.shutdown = true;
        self.status.connected = false;
    }

    /// Stops the processor: the worker is told to stop, and the processor no longer counts as
    /// started.
    pub fn shutdown(&mut self)
        ensures
            old(self).stopped(*final(self)),
    {
        self.request_shutdown();
        self.status.started = false;
    }
}

} // verus!
