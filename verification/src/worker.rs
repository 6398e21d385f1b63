//! The socket worker's side: it keeps a connection up and sends what is newest.
//!
//! The worker is a machine without hands. It says what is to be done next, whoever runs it does
//! that and reports back, and so on until it says to stop.

use crate::bytes::{le_u16, le_value};
use crate::frame::{channels_supported, pack_frame, packet, rate_supported, sendable, QueuedFrame};
use crate::processor::AudioProcessor;
use crate::ring::{buffer_room, buffer_slots, buffers_received, buffers_sent, ring_filled};
use crate::ring::{count_frames, count_room, pop_frame, push_buffer, RING_SIZE};
use crate::ring::{frame_ring_emptied, frames_received, frames_sent, frames_to_come, frames_waiting};
use crate::status::{counted, AudioProcessorStatus, AudioProcessorStatusCounters};
use vstd::prelude::*;

verus! {

/// The pause between two attempts to connect, in nanoseconds.
pub const RECONNECT_INTERVAL_NANOS: u64 = 50_000_000;

/// How long the metadata may go unannounced, in nanoseconds.
pub const METADATA_HEARTBEAT_NANOS: u64 = 2_000_000_000;

/// The shortest rest of an idle connection, in nanoseconds.
pub const SHORTEST_REST_NANOS: u64 = 1_000_000;

/// Whether `part` comes out of `whole` by leaving items out.
pub open spec fn is_subsequence(part: Seq<Seq<u8>>, whole: Seq<Seq<u8>>) -> bool
    decreases whole.len(),
{
    if part.len() == 0 {
        true
    } else if whole.len() == 0 {
        false
    } else {
        ||| part.last() == whole.last() && is_subsequence(part.drop_last(), whole.drop_last())
        ||| is_subsequence(part, whole.drop_last())
    }
}

/// `after` is `before` once the buffers `spent` were offered back, in order. As many as there is
/// room for at the start are back for certain, and with room for all, all are. Those that find no
/// room are let go.
pub open spec fn handed_back(
    before: rtrb::Producer<Vec<u8>>,
    spent: Seq<Seq<u8>>,
    after: rtrb::Producer<Vec<u8>>,
) -> bool {
    let sure = if buffer_room(before) < spent.len() {
        buffer_room(before)
    } else {
        spent.len()
    };
    &&& (buffers_sent(before) + spent.take(sure as int)).is_prefix_of(buffers_sent(after))
    &&& is_subsequence(buffers_sent(after).skip(buffers_sent(before).len() as int), spent)
    &&& buffers_sent(after).len() <= buffers_sent(before).len() + spent.len()
    &&& buffer_room(before) >= spent.len() ==> buffers_sent(after) == buffers_sent(before) + spent
    &&& buffer_room(after) + buffers_sent(after).len() >= buffer_room(before) + buffers_sent(
        before,
    ).len()
    &&& ring_filled(after) == ring_filled(before)
    &&& buffer_slots(after) == buffer_slots(before)
}

proof fn lemma_handed_back_nothing(producer: rtrb::Producer<Vec<u8>>)
    ensures
        handed_back(producer, Seq::empty(), producer),
{
    let sent = buffers_sent(producer);
    assert(sent.skip(sent.len() as int) =~= Seq::<Seq<u8>>::empty());
    assert(sent + Seq::<Seq<u8>>::empty().take(0) =~= sent);
    assert(sent + Seq::<Seq<u8>>::empty() =~= sent);
}

proof fn lemma_handed_back_one_more(
    before: rtrb::Producer<Vec<u8>>,
    spent: Seq<Seq<u8>>,
    middle: rtrb::Producer<Vec<u8>>,
    buffer: Seq<u8>,
    after: rtrb::Producer<Vec<u8>>,
)
    requires
        handed_back(before, spent, middle),
        buffer_room(middle) > 0 ==> buffers_sent(after) == buffers_sent(middle).push(buffer)
            && buffer_room(after) + 1 >= buffer_room(middle),
        buffer_room(middle) == 0 ==> buffers_sent(after) == buffers_sent(middle),
        ring_filled(after) == ring_filled(middle),
        buffer_slots(after) == buffer_slots(middle),
    ensures
        handed_back(before, spent.push(buffer), after),
{
    let start = buffers_sent(before).len() as int;
    let kept = buffers_sent(middle).skip(start);
    let whole = spent.push(buffer);
    assert(whole.drop_last() =~= spent);
    if buffer_room(middle) > 0 {
        assert(buffers_sent(after).skip(start) =~= kept.push(buffer));
        assert(kept.push(buffer).drop_last() =~= kept);
    }
    if buffer_room(before) >= whole.len() {
        assert(buffers_sent(before) + whole =~= (buffers_sent(before) + spent).push(buffer));
        assert(whole.take(whole.len() as int) =~= whole);
    } else {
        assert(whole.take(buffer_room(before) as int) =~= spent.take(buffer_room(before) as int));
    }
}

/// The audio of each of `frames`.
pub open spec fn audio_of(frames: Seq<(i64, u32, Seq<u8>)>) -> Seq<Seq<u8>> {
    Seq::new(frames.len(), |i: int| frames[i].2)
}

/// The frames that `after` has taken since it was `before`.
pub open spec fn taken_since(
    before: rtrb::Consumer<QueuedFrame>,
    after: rtrb::Consumer<QueuedFrame>,
) -> Seq<(i64, u32, Seq<u8>)> {
    frames_received(after).skip(frames_received(before).len() as int)
}

/// `burst` is what a consumer took that went from `before` to `after` by draining its ring: all
/// that waited at the start, in order, and whatever came in meanwhile.
pub open spec fn drained(
    before: rtrb::Consumer<QueuedFrame>,
    after: rtrb::Consumer<QueuedFrame>,
    burst: Seq<(i64, u32, Seq<u8>)>,
) -> bool {
    &&& frames_received(after) == frames_received(before) + burst
    &&& frames_waiting(before).is_prefix_of(burst)
    &&& burst.len() == 0 <==> frames_waiting(before).len() == 0
    &&& frames_to_come(after) == frames_to_come(before)
    &&& frame_ring_emptied(after) == frame_ring_emptied(before)
    &&& frames_received(after).is_prefix_of(frames_to_come(after))
}

/// What taking a burst at its live edge leads to: all of it is taken out, the newest frame is kept,
/// and the others are dropped and their buffers handed back.
pub open spec fn coalesced(
    consumer: rtrb::Consumer<QueuedFrame>,
    free_producer: rtrb::Producer<Vec<u8>>,
    status: AudioProcessorStatus,
    newest: Option<(i64, u32, Seq<u8>)>,
    consumer_after: rtrb::Consumer<QueuedFrame>,
    free_producer_after: rtrb::Producer<Vec<u8>>,
    status_after: AudioProcessorStatus,
) -> bool {
    let burst = taken_since(consumer, consumer_after);
    &&& drained(consumer, consumer_after, burst)
    &&& newest is Some <==> burst.len() > 0
    &&& newest matches Some(frame) ==> {
        &&& frame == burst.last()
        &&& handed_back(free_producer, audio_of(burst.drop_last()), free_producer_after)
        &&& status_after == (AudioProcessorStatus {
            frames_dropped: counted(status.frames_dropped, (burst.len() - 1) as nat),
            ..status
        })
    }
    &&& newest is None ==> {
        &&& free_producer_after == free_producer
        &&& status_after == status
    }
}

impl AudioProcessor {
    /// Consumes an accumulated burst at its live edge.
    ///
    /// Takes every frame out of the ring and returns the newest. The buffers of the others are
    /// handed back, and the others are counted as dropped. In step with the callback this takes
    /// exactly one frame; after a stall it keeps stale audio from being played late.
    pub fn take_live_edge(
        consumer: &mut rtrb::Consumer<QueuedFrame>,
        free_producer: &mut rtrb::Producer<Vec<u8>>,
        status: &mut AudioProcessorStatusCounters,
    ) -> (newest: Option<QueuedFrame>)
        ensures
            coalesced(
                *old(consumer),
                *old(free_producer),
                old(status)@,
                match newest {
                    Some(frame) => Some(frame@),
                    None => None,
                },
                *final(consumer),
                *final(free_producer),
                final(status)@,
            ),
    {
        let ghost start = frames_received(*consumer);
        let ghost waiting = frames_waiting(*consumer);
        let mut newest = match pop_frame(consumer) {
            Some(frame) => frame,
            None => {
                assert(frames_received(*consumer).skip(start.len() as int) =~= Seq::<
                    (i64, u32, Seq<u8>),
                >::empty());
                assert(frames_received(*consumer) =~= start + frames_received(*consumer).skip(
                    start.len() as int,
                ));
                return None;
            },
        };
        let ghost mut burst = seq![newest@];
        let mut stale: u64 = 0;
        proof {
            assert(audio_of(burst.drop_last()) =~= Seq::<Seq<u8>>::empty());
            lemma_handed_back_nothing(*free_producer);
            assert(waiting =~= seq![waiting[0]] + waiting.drop_first());
            assert(waiting.is_prefix_of(burst + frames_waiting(*consumer)));
        }
        while stale < u64::MAX
            invariant_except_break
                waiting.is_prefix_of(burst + frames_waiting(*consumer)),
            invariant
                burst.len() == stale + 1,
                burst.last() == newest@,
                frames_received(*consumer) == start + burst,
                frames_to_come(*consumer) == frames_to_come(*old(consumer)),
                frame_ring_emptied(*consumer) == frame_ring_emptied(*old(consumer)),
                frames_received(*consumer).is_prefix_of(frames_to_come(*consumer)),
                waiting.len() <= usize::MAX + 1,
                handed_back(*old(free_producer), audio_of(burst.drop_last()), *free_producer),
                status@ == old(status)@,
            ensures
                waiting.is_prefix_of(burst),
            decreases u64::MAX - stale,
        {
            let ghost middle = *free_producer;
            let ghost before = burst;
            let ghost rest = frames_waiting(*consumer);
            match pop_frame(consumer) {
                Some(frame) => {
                    let spent = newest;
                    newest = frame;
                    let ghost buffer = spent.data@;
                    let _ = push_buffer(free_producer, spent.data);
                    stale = stale + 1;
                    proof {
                        burst = before.push(newest@);
                        assert(burst.drop_last() =~= before);
                        assert(audio_of(before) =~= audio_of(before.drop_last()).push(buffer));
                        lemma_handed_back_one_more(
                            *old(free_producer),
                            audio_of(before.drop_last()),
                            middle,
                            buffer,
                            *free_producer,
                        );
                        assert(start + burst =~= (start + before).push(newest@));
                        assert(before + rest =~= burst + rest.drop_first());
                        assert((burst + rest.drop_first()).is_prefix_of(
                            burst + frames_waiting(*consumer),
                        ));
                    }
                },
                None => {
                    assert(before + rest =~= before);
                    break ;
                },
            }
        }
        status.count_dropped(stale);
        proof {
            assert((start + burst).skip(start.len() as int) =~= burst);
        }
        Some(newest)
    }
}

/// Where the worker stands.
#[derive(Debug, Clone, Copy)]
pub enum TxPhase {
    /// About to make another attempt, unless told to shut down.
    LoopTop,
    /// Waiting for a stream.
    Connecting,
    /// Waiting for the greeting to be written.
    Greeting,
    /// Waiting for the two bytes that name the stream.
    AwaitingId,
    /// Waiting for the first announcement of the metadata.
    Announcing,
    /// Connected, at the top of a round.
    Polling,
    /// Waiting for the announcement of metadata `version`.
    Refreshing { version: u64 },
    /// Waiting for a packet to be written; `first` before the first round of a connection.
    Writing { first: bool },
    /// Connected, at the end of a round that did or did not find a frame.
    Settling { sent_audio: bool },
    /// The connection is over, or was never made.
    Backoff,
    /// Done for good.
    Stopped,
}

/// How an announcement of the metadata went.
#[derive(Debug, Clone, Copy)]
pub enum MetadataOutcome {
    /// There was nothing to say, or it was said.
    Sent,
    /// The socket did not take it.
    Failed,
    /// The metadata could not be read.
    Unreadable,
}

/// What the worker is told.
#[derive(Debug, Clone, Copy)]
pub enum TxEvent {
    /// The state of the world: whether to shut down, the version of the metadata, and the
    /// nanoseconds since the last announcement was begun.
    Observed { shutdown: bool, metadata_version: u64, since_metadata: u64 },
    /// Whether there is a stream.
    Connected { ok: bool },
    /// Whether the bytes were written, and the time in milliseconds.
    Written { ok: bool, now: u64 },
    /// The bytes that name the stream, if they came, and the version of the metadata.
    StreamId { bytes: Option<[u8; 2]>, metadata_version: u64 },
    /// How the announcement went, and the time in milliseconds.
    Announced { outcome: MetadataOutcome, now: u64 },
}

/// What the worker wants done.
#[derive(Debug, Clone, Copy)]
pub enum TxAction {
    /// Look at the world, and report it.
    Observe,
    /// Open a stream to the socket.
    Connect,
    /// Write the four bytes of the greeting.
    WriteGreeting,
    /// Read the two bytes that name the stream.
    ReadStreamId,
    /// Announce the metadata for this stream, and start its clock anew.
    SendMetadata { stream_id: u16 },
    /// Write the packet that stands in the send buffer.
    WritePacket,
    /// Wait until woken, or for this long; then look at the world, and report it.
    Park { nanos: u64 },
    /// End the thread.
    Stop,
}

/// The greeting of a connection.
pub const GREETING: [u8; 4] = [0x41, 0x55, 0x44, 0x32];

/// The worker: its settings, its ends of the two rings, and where it stands.
pub struct TxWorker {
    pub socket_path: String,
    pub num_channels: u8,
    pub sample_rate: u32,
    pub max_frame_bytes: usize,
    pub frame_id: Option<u16>,
    pub data_consumer: rtrb::Consumer<QueuedFrame>,
    pub free_producer: rtrb::Producer<Vec<u8>>,
    pub phase: TxPhase,
    pub stream_id: u16,
    pub sent_metadata_version: u64,
    pub in_flight: Option<QueuedFrame>,
    pub header_data: Vec<u8>,
    pub send_buffer: Vec<u8>,
}

impl TxWorker {
    /// How many buffers the worker holds.
    pub open spec fn held(self) -> nat {
        if self.in_flight is Some {
            1
        } else {
            0
        }
    }

    /// The worker's invariant. Its settings fit a frame header; it holds a frame exactly while it
    /// waits for one to be written; besides the first `RING_SIZE` buffers it has handed back none
    /// that it did not get; it has taken the first frames that go through the ring; and the ring of
    /// spent buffers has a slot for each.
    pub open spec fn wf(self) -> bool {
        &&& channels_supported(self.num_channels)
        &&& rate_supported(self.sample_rate)
        &&& self.in_flight is Some <==> self.phase is Writing
        &&& buffers_sent(self.free_producer).len() + self.held() <= RING_SIZE + frames_received(
            self.data_consumer,
        ).len()
        &&& frames_received(self.data_consumer).is_prefix_of(frames_to_come(self.data_consumer))
        &&& buffer_slots(self.free_producer) == RING_SIZE
    }

    /// Whether the worker has taken no more frames than `processor` has put into the ring.
    pub open spec fn not_ahead_of(self, processor: AudioProcessor) -> bool {
        frames_received(self.data_consumer).len() <= frames_sent(
            processor.render.data_producer,
        ).len()
    }

    /// The frames that `processor` has queued and the worker has not taken.
    pub open spec fn backlog(self, processor: AudioProcessor) -> Seq<(i64, u32, Seq<u8>)> {
        frames_sent(processor.render.data_producer).skip(
            frames_received(self.data_consumer).len() as int,
        )
    }

    /// Whether the worker finds all that `processor` has queued when it next looks.
    pub open spec fn finds_backlog(self, processor: AudioProcessor) -> bool {
        self.not_ahead_of(processor) && self.backlog(processor).is_prefix_of(
            frames_waiting(self.data_consumer),
        )
    }

    /// How many frames wait, while the processor is at rest: those that it has queued and the
    /// worker has not taken.
    pub fn waiting_frames(&mut self, processor: &AudioProcessor) -> (count: usize)
        requires
            processor.shares_frames(*old(self)),
        ensures
            count == old(self).backlog(*processor).len(),
            old(self).not_ahead_of(*processor),
            final(self).finds_backlog(*processor),
            processor.shares_frames(*final(self)),
            frames_received(final(self).data_consumer) == frames_received(old(self).data_consumer),
            old(self).keeps_settings(*final(self)),
            old(self).keeps_stream(*final(self)),
            final(self).phase == old(self).phase,
            final(self).free_producer == old(self).free_producer,
            final(self).in_flight == old(self).in_flight,
            final(self).header_data == old(self).header_data,
            final(self).send_buffer == old(self).send_buffer,
            old(self).wf() ==> final(self).wf(),
    {
        count_frames(&processor.render.data_producer, &mut self.data_consumer)
    }

    /// How many spent buffers can be handed back, while the processor is at rest: as many as the
    /// ring has slots, less those in it.
    pub fn room_for_buffers(&mut self, processor: &AudioProcessor) -> (room: usize)
        requires
            processor.shares_buffers(*old(self)),
        ensures
            room + buffers_sent(old(self).free_producer).len() == buffer_slots(
                old(self).free_producer,
            ) + buffers_received(processor.render.free_consumer).len(),
            buffer_room(final(self).free_producer) >= room,
            processor.shares_buffers(*final(self)),
            buffers_sent(final(self).free_producer) == buffers_sent(old(self).free_producer),
            buffer_slots(final(self).free_producer) == buffer_slots(old(self).free_producer),
            old(self).keeps_settings(*final(self)),
            old(self).keeps_stream(*final(self)),
            final(self).phase == old(self).phase,
            final(self).data_consumer == old(self).data_consumer,
            final(self).in_flight == old(self).in_flight,
            final(self).header_data == old(self).header_data,
            final(self).send_buffer == old(self).send_buffer,
            old(self).wf() ==> final(self).wf(),
    {
        count_room(&mut self.free_producer, &processor.render.free_consumer)
    }

    /// Whether `event` answers what the worker asked for.
    pub open spec fn expects(self, event: TxEvent) -> bool {
        match self.phase {
            TxPhase::LoopTop | TxPhase::Polling | TxPhase::Settling { .. } | TxPhase::Backoff
                => event is Observed,
            TxPhase::Connecting => event is Connected,
            TxPhase::Greeting | TxPhase::Writing { .. } => event is Written,
            TxPhase::AwaitingId => event is StreamId,
            TxPhase::Announcing | TxPhase::Refreshing { .. } => event is Announced,
            TxPhase::Stopped => false,
        }
    }

    /// Whether `action` asks for what the worker waits for.
    pub open spec fn asks(self, action: TxAction) -> bool {
        match self.phase {
            TxPhase::LoopTop | TxPhase::Polling => action is Observe || action is Park,
            TxPhase::Settling { .. } | TxPhase::Backoff => action is Observe,
            TxPhase::Connecting => action is Connect,
            TxPhase::Greeting => action is WriteGreeting,
            TxPhase::Writing { .. } => action is WritePacket,
            TxPhase::AwaitingId => action is ReadStreamId,
            TxPhase::Announcing | TxPhase::Refreshing { .. } => action == (TxAction::SendMetadata {
                stream_id: self.stream_id,
            }),
            TxPhase::Stopped => action is Stop,
        }
    }

    /// Nothing of `self` but its phase, its stream and its metadata version has changed.
    pub open spec fn keeps_rings(self, after: TxWorker) -> bool {
        &&& self.keeps_settings(after)
        &&& after.data_consumer == self.data_consumer
        &&& after.free_producer == self.free_producer
        &&& after.in_flight == self.in_flight
        &&& after.header_data == self.header_data
        &&& after.send_buffer == self.send_buffer
    }

    /// The settings have not changed.
    pub open spec fn keeps_settings(self, after: TxWorker) -> bool {
        &&& after.socket_path == self.socket_path
        &&& after.num_channels == self.num_channels
        &&& after.sample_rate == self.sample_rate
        &&& after.max_frame_bytes == self.max_frame_bytes
        &&& after.frame_id == self.frame_id
    }

    /// The stream and the metadata version have not changed.
    pub open spec fn keeps_stream(self, after: TxWorker) -> bool {
        &&& after.stream_id == self.stream_id
        &&& after.sent_metadata_version == self.sent_metadata_version
    }

    /// Where a round goes on once its frame, if it had one, is dealt with.
    pub open spec fn after_frame(first: bool, sent_audio: bool) -> TxPhase {
        if first {
            TxPhase::Polling
        } else {
            TxPhase::Settling { sent_audio }
        }
    }

    /// What draining the ring leads to: with nothing there, on to the end of the round. Else the
    /// newest frame stands ready as a packet, unless no header can announce it, and then it is
    /// dropped too. All other frames are dropped, and the buffers of dropped frames handed back.
    pub open spec fn drains(
        self,
        first: bool,
        status: AudioProcessorStatus,
        after: TxWorker,
        status_after: AudioProcessorStatus,
        action: TxAction,
    ) -> bool {
        let burst = taken_since(self.data_consumer, after.data_consumer);
        &&& self.keeps_settings(after)
        &&& self.keeps_stream(after)
        &&& drained(self.data_consumer, after.data_consumer, burst)
        &&& if burst.len() == 0 {
            &&& after.free_producer == self.free_producer
            &&& after.in_flight is None
            &&& after.send_buffer@ == self.send_buffer@
            &&& status_after == status
            &&& after.phase == Self::after_frame(first, false)
            &&& action == TxAction::Observe
        } else if sendable(burst.last().2.len(), self.num_channels) {
            &&& handed_back(
                self.free_producer,
                audio_of(burst.drop_last()),
                after.free_producer,
            )
            &&& after.in_flight is Some
            &&& after.in_flight->0@ == burst.last()
            &&& after.send_buffer@ == packet(
                burst.last(),
                self.stream_id as u64,
                self.num_channels,
                self.sample_rate,
            )
            &&& status_after == AudioProcessorStatus {
                frames_dropped: counted(status.frames_dropped, (burst.len() - 1) as nat),
                ..status
            }
            &&& after.phase == (TxPhase::Writing { first })
            &&& action == TxAction::WritePacket
        } else {
            &&& handed_back(self.free_producer, audio_of(burst), after.free_producer)
            &&& after.in_flight is None
            &&& after.send_buffer@ == self.send_buffer@
            &&& status_after == AudioProcessorStatus {
                frames_dropped: counted(status.frames_dropped, burst.len()),
                ..status
            }
            &&& after.phase == Self::after_frame(first, true)
            &&& action == TxAction::Observe
        }
    }

    /// What the end of a connection leads to: it no longer counts as connected, and a failure is
    /// counted.
    pub open spec fn ends(
        self,
        failed: bool,
        status: AudioProcessorStatus,
        after: TxWorker,
        status_after: AudioProcessorStatus,
        action: TxAction,
    ) -> bool {
        &&& after.phase == TxPhase::Backoff
        &&& status_after == AudioProcessorStatus {
            connected: false,
            connection_failures: if failed {
                counted(status.connection_failures, 1)
            } else {
                status.connection_failures
            },
            ..status
        }
        &&& action == TxAction::Observe
    }

    /// What the worker makes of `event`: how it and the status change, and what it wants next.
    pub open spec fn steps(
        self,
        event: TxEvent,
        status: AudioProcessorStatus,
        after: TxWorker,
        status_after: AudioProcessorStatus,
        action: TxAction,
    ) -> bool {
        match (self.phase, event) {
            (TxPhase::LoopTop, TxEvent::Observed { shutdown, .. }) => {
                &&& self.keeps_rings(after)
                &&& self.keeps_stream(after)
                &&& if shutdown {
                    &&& after.phase == TxPhase::Stopped
                    &&& status_after == AudioProcessorStatus {
                        started: false,
                        connected: false,
                        ..status
                    }
                    &&& action == TxAction::Stop
                } else {
                    &&& after.phase == TxPhase::Connecting
                    &&& status_after == AudioProcessorStatus {
                        connection_attempts: counted(status.connection_attempts, 1),
                        ..status
                    }
                    &&& action == TxAction::Connect
                }
            },
            (TxPhase::Connecting, TxEvent::Connected { ok }) => {
                &&& self.keeps_rings(after)
                &&& self.keeps_stream(after)
                &&& if ok {
                    &&& after.phase == TxPhase::Greeting
                    &&& status_after == status
                    &&& action == TxAction::WriteGreeting
                } else {
                    self.ends(true, status, after, status_after, action)
                }
            },
            (TxPhase::Greeting, TxEvent::Written { ok, .. }) => {
                &&& self.keeps_rings(after)
                &&& self.keeps_stream(after)
                &&& if ok {
                    &&& after.phase == TxPhase::AwaitingId
                    &&& status_after == status
                    &&& action == TxAction::ReadStreamId
                } else {
                    self.ends(true, status, after, status_after, action)
                }
            },
            (TxPhase::AwaitingId, TxEvent::StreamId { bytes, metadata_version }) => {
                &&& self.keeps_rings(after)
                &&& match bytes {
                    Some(bytes) => {
                        &&& after.phase == TxPhase::Announcing
                        &&& after.stream_id as nat == (match self.frame_id {
                            Some(id) => id as nat,
                            None => le_value(bytes@),
                        })
                        &&& after.sent_metadata_version == metadata_version
                        &&& status_after == status
                        &&& action == (TxAction::SendMetadata { stream_id: after.stream_id })
                    },
                    None => {
                        &&& self.keeps_stream(after)
                        &&& self.ends(true, status, after, status_after, action)
                    },
                }
            },
            (TxPhase::Announcing, TxEvent::Announced { now, .. }) => self.drains(
                true,
                AudioProcessorStatus { connected: true, last_connected_unix_ms: now, ..status },
                after,
                status_after,
                action,
            ),
            (
                TxPhase::Polling,
                TxEvent::Observed { shutdown, metadata_version, since_metadata },
            ) => if shutdown {
                &&& self.keeps_rings(after)
                &&& self.keeps_stream(after)
                &&& self.ends(false, status, after, status_after, action)
            } else if metadata_version != self.sent_metadata_version || since_metadata
                >= METADATA_HEARTBEAT_NANOS {
                &&& self.keeps_rings(after)
                &&& self.keeps_stream(after)
                &&& after.phase == (TxPhase::Refreshing { version: metadata_version })
                &&& status_after == status
                &&& action == (TxAction::SendMetadata { stream_id: self.stream_id })
            } else {
                self.drains(false, status, after, status_after, action)
            },
            (TxPhase::Refreshing { version }, TxEvent::Announced { outcome, .. }) => {
                (TxWorker {
                    sent_metadata_version: if outcome is Failed {
                        self.sent_metadata_version
                    } else {
                        version
                    },
                    ..self
                }).drains(false, status, after, status_after, action)
            },
            (TxPhase::Writing { first }, TxEvent::Written { ok, now }) => {
                &&& self.keeps_settings(after)
                &&& self.keeps_stream(after)
                &&& after.data_consumer == self.data_consumer
                &&& after.in_flight is None
                &&& after.send_buffer@ == self.send_buffer@
                &&& handed_back(
                    self.free_producer,
                    seq![self.in_flight->0@.2],
                    after.free_producer,
                )
                &&& if ok {
                    &&& after.phase == Self::after_frame(first, true)
                    &&& status_after == AudioProcessorStatus {
                        frames_sent: counted(status.frames_sent, 1),
                        last_send_unix_ms: now,
                        ..status
                    }
                    &&& action == TxAction::Observe
                } else {
                    self.ends(true, status, after, status_after, action)
                }
            },
            (TxPhase::Settling { sent_audio }, TxEvent::Observed { shutdown, since_metadata, .. })
                => {
                &&& self.keeps_rings(after)
                &&& self.keeps_stream(after)
                &&& if shutdown {
                    self.ends(false, status, after, status_after, action)
                } else {
                    &&& after.phase == TxPhase::Polling
                    &&& status_after == status
                    &&& action == (if sent_audio {
                        TxAction::Observe
                    } else {
                        TxAction::Park { nanos: rest_nanos(since_metadata) }
                    })
                }
            },
            (TxPhase::Backoff, TxEvent::Observed { shutdown, .. }) => {
                &&& self.keeps_rings(after)
                &&& self.keeps_stream(after)
                &&& after.phase == TxPhase::LoopTop
                &&& status_after == status
                &&& action == (if shutdown {
                    TxAction::Observe
                } else {
                    TxAction::Park { nanos: RECONNECT_INTERVAL_NANOS }
                })
            },
            _ => false,
        }
    }

    /// Drains the ring and prepares the newest frame.
    fn drain(&mut self, first: bool, status: &mut AudioProcessorStatusCounters) -> (action:
        TxAction)
        requires
            old(self).wf(),
            old(self).in_flight is None,
        ensures
            final(self).wf(),
            old(self).drains(first, old(status)@, *final(self), final(status)@, action),
    {
        let newest = AudioProcessor::take_live_edge(
            &mut self.data_consumer,
            &mut self.free_producer,
            status,
        );
        let ghost burst = taken_since(old(self).data_consumer, self.data_consumer);
        let frame = match newest {
            Some(frame) => frame,
            None => {
                self.phase = if first {
                    TxPhase::Polling
                } else {
                    TxPhase::Settling { sent_audio: false }
                };
                return TxAction::Observe;
            },
        };
        let packed = pack_frame(
            &frame,
            self.stream_id as u64,
            self.num_channels,
            self.sample_rate,
            &mut self.header_data,
            &mut self.send_buffer,
        );
        match packed {
            Ok(true) => {
                self.in_flight = Some(frame);
                self.phase = TxPhase::Writing { first };
                TxAction::WritePacket
            },
            Ok(false) => {
                let ghost middle = self.free_producer;
                let _ = push_buffer(&mut self.free_producer, frame.data);
                status.count_dropped(1);
                self.phase = if first {
                    TxPhase::Polling
                } else {
                    TxPhase::Settling { sent_audio: true }
                };
                proof {
                    lemma_handed_back_one_more(
                        old(self).free_producer,
                        audio_of(burst.drop_last()),
                        middle,
                        frame@.2,
                        self.free_producer,
                    );
                    assert(audio_of(burst.drop_last()).push(frame@.2) =~= audio_of(burst));
                }
                TxAction::Observe
            },
            Err(_) => self.end_connection(true, status),
        }
    }

    /// Ends a connection, or an attempt at one.
    fn end_connection(&mut self, failed: bool, status: &mut AudioProcessorStatusCounters) -> (action:
        TxAction)
        ensures
            old(self).ends(failed, old(status)@, *final(self), final(status)@, action),
            old(self).keeps_rings(*final(self)),
            old(self).keeps_stream(*final(self)),
    {
        if failed {
            status.count_failure();
        }
        status.connected = false;
        self.phase = TxPhase::Backoff;
        TxAction::Observe
    }

    /// Takes in what happened, and says what to do next.
    pub fn step(&mut self, event: TxEvent, status: &mut AudioProcessorStatusCounters) -> (action:
        TxAction)
        requires
            old(self).wf(),
            old(self).expects(event),
        ensures
            final(self).wf(),
            final(self).asks(action),
            old(self).steps(event, old(status)@, *final(self), final(status)@, action),
    {
        match (self.phase, event) {
            (TxPhase::LoopTop, TxEvent::Observed { shutdown, .. }) => {
                if shutdown {
                    status.connected = false;
                    status.started = false;
                    self.phase = TxPhase::Stopped;
                    TxAction::Stop
                } else {
                    status.count_attempt();
                    self.phase = TxPhase::Connecting;
                    TxAction::Connect
                }
            },
            (TxPhase::Connecting, TxEvent::Connected { ok }) => {
                if ok {
                    self.phase = TxPhase::Greeting;
                    TxAction::WriteGreeting
                } else {
                    self.end_connection(true, status)
                }
            },
            (TxPhase::Greeting, TxEvent::Written { ok, .. }) => {
                if ok {
                    self.phase = TxPhase::AwaitingId;
                    TxAction::ReadStreamId
                } else {
                    self.end_connection(true, status)
                }
            },
            (TxPhase::AwaitingId, TxEvent::StreamId { bytes, metadata_version }) => match bytes {
                Some(bytes) => {
                    self.stream_id = match self.frame_id {
                        Some(id) => id,
                        None => le_u16(bytes),
                    };
                    self.sent_metadata_version = metadata_version;
                    self.phase = TxPhase::Announcing;
                    TxAction::SendMetadata { stream_id: self.stream_id }
                },
                None => self.end_connection(true, status),
            },
            (TxPhase::Announcing, TxEvent::Announced { now, .. }) => {
                status.connected = true;
                status.last_connected_unix_ms = now;
                self.drain(true, status)
            },
            (
                TxPhase::Polling,
                TxEvent::Observed { shutdown, metadata_version, since_metadata },
            ) => {
                if shutdown {
                    self.end_connection(false, status)
                } else if metadata_version != self.sent_metadata_version || since_metadata
                    >= METADATA_HEARTBEAT_NANOS {
                    self.phase = TxPhase::Refreshing { version: metadata_version };
                    TxAction::SendMetadata { stream_id: self.stream_id }
                } else {
                    self.drain(false, status)
                }
            },
            (TxPhase::Refreshing { version }, TxEvent::Announced { outcome, .. }) => {
                match outcome {
                    MetadataOutcome::Failed => {},
                    _ => {
                        self.sent_metadata_version = version;
                    },
                }
                self.drain(false, status)
            },
            (TxPhase::Writing { first }, TxEvent::Written { ok, now }) => {
                let ghost held = self.in_flight->0@.2;
                let ghost before = self.free_producer;
                match self.in_flight.take() {
                    Some(frame) => {
                        let _ = push_buffer(&mut self.free_producer, frame.data);
                    },
                    None => {},
                }
                proof {
                    lemma_handed_back_nothing(before);
                    lemma_handed_back_one_more(
                        before,
                        Seq::empty(),
                        before,
                        held,
                        self.free_producer,
                    );
                    assert(Seq::<Seq<u8>>::empty().push(held) =~= seq![held]);
                }
                if ok {
                    status.count_sent(now);
                    self.phase = if first {
                        TxPhase::Polling
                    } else {
                        TxPhase::Settling { sent_audio: true }
                    };
                    TxAction::Observe
                } else {
                    self.end_connection(true, status)
                }
            },
            (TxPhase::Settling { sent_audio }, TxEvent::Observed { shutdown, since_metadata, .. })
                => {
                if shutdown {
                    self.end_connection(false, status)
                } else {
                    self.phase = TxPhase::Polling;
                    if sent_audio {
                        TxAction::Observe
                    } else {
                        TxAction::Park { nanos: rest_until_heartbeat(since_metadata) }
                    }
                }
            },
            (TxPhase::Backoff, TxEvent::Observed { shutdown, .. }) => {
                self.phase = TxPhase::LoopTop;
                if shutdown {
                    TxAction::Observe
                } else {
                    TxAction::Park { nanos: RECONNECT_INTERVAL_NANOS }
                }
            },
            _ => TxAction::Observe,
        }
    }
}

/// How long an idle connection rests: until the metadata is due again, but not for no time.
pub open spec fn rest_nanos(since_metadata: u64) -> u64 {
    if since_metadata + SHORTEST_REST_NANOS <= METADATA_HEARTBEAT_NANOS {
        (METADATA_HEARTBEAT_NANOS - since_metadata) as u64
    } else {
        SHORTEST_REST_NANOS
    }
}

/// How long an idle connection rests, `since_metadata` nanoseconds after the last announcement.
pub fn rest_until_heartbeat(since_metadata: u64) -> (nanos: u64)
    ensures
        nanos == rest_nanos(since_metadata),
{
    let left: u64 = if since_metadata < METADATA_HEARTBEAT_NANOS {
        METADATA_HEARTBEAT_NANOS - since_metadata
    } else {
        0
    };
    if left < SHORTEST_REST_NANOS {
        SHORTEST_REST_NANOS
    } else {
        left
    }
}

} // verus!
