//! A stable handle around replaceable processors.
//!
//! Render, status and metadata calls go to the processor that is in place. A lifecycle call puts
//! another in its place and hands back the old one, which may be reclaimed once no reader is left
//! that came in before.

use crate::frame::{channels_supported, rate_supported};
use crate::gate::{next_reclaim_step, reclaim_step, slot_of, Gate, ReaderGate, ReclaimStep};
use crate::metadata::{text_of, TrackMetadata};
use crate::processor::AudioProcessor;
use crate::status::{counted, AudioProcessorStatus};
use crate::worker::TxWorker;
use vstd::prelude::*;

verus! {

/// The handle of one audio unit.
pub struct AudioProcessorHandle {
    pub current: Option<AudioProcessor>,
    pub gate: ReaderGate,
    pub desired_metadata: TrackMetadata,
}

/// A reader's stay with the handle.
#[derive(Debug)]
pub struct AudioProcessorLease {
    pub slot: usize,
    pub active: bool,
}

/// What a lifecycle call took out, and the slot whose readers may still use it.
pub struct RetiredProcessor {
    pub processor: Option<AudioProcessor>,
    pub slot: usize,
}

impl RetiredProcessor {
    /// `self` is what was taken out where `before` was in place: told to stop, and otherwise as it
    /// was.
    pub open spec fn was(self, before: AudioProcessorHandle) -> bool {
        &&& self.slot as nat == before.gate@.slot()
        &&& self.processor is Some <==> before.current is Some
        &&& self.processor matches Some(processor) ==> before.current->0.told_to_stop(processor)
    }
}

impl Default for AudioProcessorHandle {
    fn default() -> (handle: Self)
        ensures
            handle.is_new(),
    {
        AudioProcessorHandle {
            current: None,
            gate: ReaderGate::new(),
            desired_metadata: TrackMetadata::default(),
        }
    }
}

impl AudioProcessorHandle {
    /// The handle's invariant: a processor in place is well formed and knows the desired metadata.
    pub open spec fn wf(self) -> bool {
        self.current matches Some(processor) ==> {
            &&& processor.wf()
            &&& processor.metadata.metadata@ == self.desired_metadata@
        }
    }

    /// Whether the handle is as it was made: without a processor, readers and names.
    pub open spec fn is_new(self) -> bool {
        &&& self.current is None
        &&& self.gate@ == (Gate { epoch: 0, counts: (0, 0) })
        &&& self.desired_metadata@ == (None::<Seq<char>>, None::<Seq<char>>)
    }

    /// An inactive handle. It stays valid across any number of initializations.
    pub fn new() -> (handle: Self)
        ensures
            handle.wf(),
            handle.is_new(),
    {
        Self::default()
    }

    /// What an initialization puts in place: a new processor that already knows the desired
    /// metadata.
    pub open spec fn initialized(
        self,
        socket_path: String,
        channels: u8,
        sample_rate: u32,
        max_frames: usize,
        frame_id: Option<u16>,
        after: AudioProcessorHandle,
        worker: TxWorker,
    ) -> bool {
        &&& after.current is Some
        &&& exists|made: AudioProcessor|
            {
                &&& #[trigger] AudioProcessor::made(
                    socket_path,
                    channels,
                    sample_rate,
                    max_frames,
                    frame_id,
                    made,
                    worker,
                )
                &&& made.keeps_all_but_metadata(after.current->0)
            }
        &&& after.current->0.metadata.metadata@ == self.desired_metadata@
        &&& after.current->0.metadata.version == (if self.desired_metadata@ == (
            None::<Seq<char>>,
            None::<Seq<char>>,
        ) {
            0u64
        } else {
            1u64
        })
        &&& after.desired_metadata@ == self.desired_metadata@
        &&& after.gate@ == self.gate@.flip()
    }

    /// Puts a new processor in place. Returns its worker and what was taken out.
    pub fn initialize(
        &mut self,
        socket_path: String,
        channels: u8,
        sample_rate: u32,
        max_frames: usize,
        frame_id: Option<u16>,
    ) -> (r: (TxWorker, RetiredProcessor))
        requires
            channels_supported(channels),
            rate_supported(sample_rate),
        ensures
            final(self).wf(),
            r.0.wf(),
            old(self).initialized(
                socket_path,
                channels,
                sample_rate,
                max_frames,
                frame_id,
                *final(self),
                r.0,
            ),
            r.1.was(*old(self)),
    {
        let (mut processor, worker) = AudioProcessor::new_configured(
            socket_path,
            channels,
            sample_rate,
            max_frames,
            frame_id,
        );
        let ghost made = processor;
        let initial = self.desired_metadata.clone();
        processor.set_track_metadata(initial.instance_id, initial.label);
        let retired = self.publish(Some(processor));
        self.synchronize();
        assert(made.keeps_all_but_metadata(self.current->0));
        (worker, retired)
    }

    /// Hands the processor in place the desired names once more, in case it missed a change.
    /// Returns whether the worker has something new.
    fn synchronize(&mut self) -> (changed: bool)
        ensures
            old(self).named(old(self).desired_metadata@, *final(self), changed),
    {
        let desired = self.desired_metadata.clone();
        match &mut self.current {
            Some(processor) => processor.set_track_metadata(desired.instance_id, desired.label),
            None => false,
        }
    }

    /// What taking the processor out leads to.
    pub open spec fn vacated(self, after: AudioProcessorHandle, retired: RetiredProcessor) -> bool {
        &&& after.current is None
        &&& after.desired_metadata == self.desired_metadata
        &&& after.gate@ == self.gate@.flip()
        &&& retired.was(self)
    }

    /// Takes the processor out and leaves the handle inactive. The desired metadata stays.
    pub fn deinitialize(&mut self) -> (retired: RetiredProcessor)
        ensures
            final(self).wf(),
            old(self).vacated(*final(self), retired),
    {
        self.publish(None)
    }

    /// Puts `replacement` in place, moves new readers on to the other slot, and tells what was
    /// taken out to stop.
    fn publish(&mut self, replacement: Option<AudioProcessor>) -> (retired: RetiredProcessor)
        ensures
            final(self).current == replacement,
            final(self).desired_metadata == old(self).desired_metadata,
            final(self).gate@ == old(self).gate@.flip(),
            retired.slot < 2,
            retired.was(*old(self)),
    {
        let mut processor = replacement;
        std::mem::swap(&mut self.current, &mut processor);
        let slot: usize = self.gate.flip();
        let processor = match processor {
            Some(mut processor) => {
                processor.request_shutdown();
                Some(processor)
            },
            None => None,
        };
        RetiredProcessor { processor, slot }
    }

    /// How a lifecycle call goes on that waits for the readers of `retired`.
    pub open spec fn waits(self, retired: RetiredProcessor, spins: usize) -> ReclaimStep {
        next_reclaim_step(self.gate@.count(retired.slot as nat), spins)
    }

    /// What to do with `retired` after `spins` spins: reclaim it once its slot has no readers.
    pub fn reclaim_step(&self, retired: &RetiredProcessor, spins: usize) -> (step: ReclaimStep)
        requires
            retired.slot < 2,
        ensures
            step == self.waits(*retired, spins),
    {
        reclaim_step(self.gate.readers(retired.slot), spins)
    }

    /// What coming in as a reader leads to.
    pub open spec fn entered(self, lease: AudioProcessorLease, after: AudioProcessorHandle) -> bool {
        &&& lease.slot < 2
        &&& lease.slot as nat == self.gate@.slot()
        &&& lease.active == self.current is Some
        &&& after.gate@ == self.gate@.enter(lease.slot as nat)
        &&& after.current == self.current
        &&& after.desired_metadata == self.desired_metadata
    }

    /// What going out as a reader leads to.
    pub open spec fn left(self, lease: AudioProcessorLease, after: AudioProcessorHandle) -> bool {
        &&& after.gate@ == self.gate@.leave(lease.slot as nat)
        &&& after.current == self.current
        &&& after.desired_metadata == self.desired_metadata
    }

    /// Comes in as a reader.
    pub fn acquire(&mut self) -> (lease: AudioProcessorLease)
        requires
            old(self).gate@.count(old(self).gate@.slot()) < usize::MAX,
        ensures
            old(self).entered(lease, *final(self)),
    {
        let slot: usize = slot_of(self.gate.look());
        self.gate.enter(slot);
        AudioProcessorLease { slot, active: self.current.is_some() }
    }

    /// Goes out as a reader.
    pub fn release(&mut self, lease: AudioProcessorLease)
        requires
            lease.slot < 2,
            old(self).gate@.count(lease.slot as nat) > 0,
        ensures
            old(self).left(lease, *final(self)),
    {
        self.gate.leave(lease.slot);
    }

    /// What a call leads to that offers one quantum.
    pub open spec fn offered(
        self,
        data: Seq<u8>,
        sample_position: i64,
        transport_generation: u32,
        after: AudioProcessorHandle,
        queued: bool,
    ) -> bool {
        &&& after.current is Some <==> self.current is Some
        &&& after.gate == self.gate
        &&& after.desired_metadata == self.desired_metadata
        &&& self.current matches Some(processor) ==> processor.added(
            data,
            sample_position,
            transport_generation,
            after.current->0,
            queued,
        )
        &&& self.current is None ==> !queued
    }

    /// Offers one quantum to the processor in place. An inactive handle takes nothing and counts
    /// nothing. Returns whether the worker has something new.
    pub fn add(&mut self, data: &[u8], sample_position: i64, transport_generation: u32) -> (queued:
        bool)
        requires
            old(self).wf(),
        ensures
            final(self).wf(),
            old(self).offered(
                data@,
                sample_position,
                transport_generation,
                *final(self),
                queued,
            ),
    {
        match &mut self.current {
            Some(processor) => processor.add(data, sample_position, transport_generation),
            None => false,
        }
    }

    /// The flags and counters that the handle shows: those of the processor in place. An inactive
    /// handle is idle.
    pub open spec fn shown_status(self) -> AudioProcessorStatus {
        match self.current {
            Some(processor) => processor.shown_status(),
            None => AudioProcessorStatus::idle(),
        }
    }

    /// Reads the flags and counters.
    pub fn status(&self) -> (status: AudioProcessorStatus)
        ensures
            status == self.shown_status(),
    {
        match &self.current {
            Some(processor) => processor.status(),
            None => AudioProcessorStatus::default(),
        }
    }

    /// What naming the track leads to: the names are kept for every later processor, and the one
    /// in place gets them now.
    pub open spec fn named(
        self,
        names: (Option<Seq<char>>, Option<Seq<char>>),
        after: AudioProcessorHandle,
        changed: bool,
    ) -> bool {
        &&& after.desired_metadata@ == names
        &&& after.gate == self.gate
        &&& after.current is Some <==> self.current is Some
        &&& changed <==> self.current is Some && self.current->0.metadata.metadata@ != names
        &&& self.current is Some ==> {
            &&& self.current->0.keeps_all_but_metadata(after.current->0)
            &&& after.current->0.metadata.metadata@ == names
            &&& after.current->0.metadata.version == (if changed {
                counted(self.current->0.metadata.version, 1)
            } else {
                self.current->0.metadata.version
            })
        }
    }

    /// Names the track. Returns whether the worker has something new.
    pub fn set_track_metadata(
        &mut self,
        instance_id: Option<String>,
        label: Option<String>,
    ) -> (changed: bool)
        requires
            old(self).wf(),
        ensures
            final(self).wf(),
            old(self).named((text_of(instance_id), text_of(label)), *final(self), changed),
    {
        self.desired_metadata = TrackMetadata { instance_id, label };
        let copy = self.desired_metadata.clone();
        match &mut self.current {
            Some(processor) => processor.set_track_metadata(copy.instance_id, copy.label),
            None => false,
        }
    }

    /// Takes over the names that are desired of `source`. Returns whether the worker has something
    /// new.
    pub fn copy_desired_metadata_from(&mut self, source: &AudioProcessorHandle) -> (changed: bool)
        requires
            old(self).wf(),
        ensures
            final(self).wf(),
            old(self).named(source.desired_metadata@, *final(self), changed),
    {
        let desired = source.desired_metadata.clone();
        self.set_track_metadata(desired.instance_id, desired.label)
    }
}

} // verus!
