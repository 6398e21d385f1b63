//! What holds across the parts of a processor.
//!
//! The render side and the worker share two rings and the status. Each part's contract speaks of
//! its own end; here stands what follows for a quantum on its way, for the buffers that go round,
//! and for the counters.

use crate::frame::{frame_stride, packet, sendable, DEFAULT_MAX_FRAMES};
use crate::handle::{AudioProcessorHandle, RetiredProcessor};
use crate::processor::AudioProcessor;
use crate::ring::{buffer_room, buffers_received, buffers_sent, buffers_waiting, frame_room};
use crate::ring::{frames_received, frames_sent, frames_waiting};
use crate::ring::{frames_to_pass, RING_SIZE};
use crate::status::{counted, AudioProcessorStatus};
use crate::worker::{audio_of, taken_since, MetadataOutcome, TxAction, TxEvent, TxPhase, TxWorker};
use crate::worker::{METADATA_HEARTBEAT_NANOS, RECONNECT_INTERVAL_NANOS, SHORTEST_REST_NANOS};
use vstd::prelude::*;

verus! {

/// Every quantum that a processor takes, a frame header can announce. So the worker never has to
/// drop a frame for its size.
pub proof fn taken_quanta_are_sendable(processor: AudioProcessor, len: nat)
    requires
        processor.wf(),
        processor.limits.takes(len),
    ensures
        sendable(len, processor.limits.num_channels),
{
    let stride = frame_stride(processor.limits.num_channels);
    assert(stride > 0 && len / stride <= DEFAULT_MAX_FRAMES) by (nonlinear_arith)
        requires
            stride >= 3,
            len <= DEFAULT_MAX_FRAMES * stride,
    ;
}

/// Every quantum of one channel that a processor takes, a frame header can announce.
pub proof fn taken_mono_quanta_are_sendable(processor: AudioProcessor, count: nat)
    requires
        processor.limits.takes_mono(count),
    ensures
        sendable(count * 3, processor.limits.num_channels),
{
    assert((count * 3) % 3 == 0 && (count * 3) / 3 == count);
}

/// Every offer moves exactly one of two counters on by one: the frame was queued, or it was
/// dropped. No other flag or counter changes.
pub proof fn every_offer_is_counted_once(
    before: AudioProcessor,
    taken: bool,
    frame: (i64, u32, Seq<u8>),
    after: AudioProcessor,
    queued: bool,
)
    requires
        before.offered(taken, frame, after, queued),
    ensures
        after.status@ == (if queued {
            AudioProcessorStatus {
                frames_queued: counted(before.status@.frames_queued, 1),
                ..before.status@
            }
        } else {
            AudioProcessorStatus {
                frames_dropped: counted(before.status@.frames_dropped, 1),
                ..before.status@
            }
        }),
        frames_sent(after.render.data_producer).len() == frames_sent(
            before.render.data_producer,
        ).len() + (if queued {
            1int
        } else {
            0int
        }),
{
}

/// Whether at least `count` quanta more find both a buffer and room, even if the worker never runs.
pub open spec fn prewarmed(processor: AudioProcessor, count: nat) -> bool {
    &&& processor.render.rejected_buffer is None
    &&& buffers_waiting(processor.render.free_consumer).len() >= count
    &&& frame_room(processor.render.data_producer) >= count
}

/// A new processor is prewarmed for as many quanta as its rings hold.
pub proof fn new_processor_is_prewarmed(
    socket_path: String,
    num_channels: u8,
    sample_rate: u32,
    max_frames: usize,
    frame_id: Option<u16>,
    processor: AudioProcessor,
    worker: TxWorker,
)
    requires
        AudioProcessor::made(
            socket_path,
            num_channels,
            sample_rate,
            max_frames,
            frame_id,
            processor,
            worker,
        ),
    ensures
        prewarmed(processor, RING_SIZE as nat),
{
}

/// A quantum that the limits admit is queued by a prewarmed processor, and uses up one of the
/// quanta that it is prewarmed for. One that the limits do not admit uses up none.
pub proof fn prewarmed_processor_queues(
    before: AudioProcessor,
    count: nat,
    taken: bool,
    frame: (i64, u32, Seq<u8>),
    after: AudioProcessor,
    queued: bool,
)
    requires
        prewarmed(before, count),
        count > 0,
        before.offered(taken, frame, after, queued),
    ensures
        queued == taken,
        taken ==> prewarmed(after, (count - 1) as nat),
        !taken ==> prewarmed(after, count),
{
}

/// A new processor and its worker hold the two ends of one ring.
pub proof fn made_parts_share_frames(
    socket_path: String,
    num_channels: u8,
    sample_rate: u32,
    max_frames: usize,
    frame_id: Option<u16>,
    processor: AudioProcessor,
    worker: TxWorker,
)
    requires
        AudioProcessor::made(
            socket_path,
            num_channels,
            sample_rate,
            max_frames,
            frame_id,
            processor,
            worker,
        ),
    ensures
        processor.shares_frames(worker),
        worker.num_channels == processor.limits.num_channels,
{
}

/// Whatever is offered, the processor keeps its end of the ring.
pub proof fn offers_keep_sharing(
    before: AudioProcessor,
    worker: TxWorker,
    taken: bool,
    frame: (i64, u32, Seq<u8>),
    after: AudioProcessor,
    queued: bool,
)
    requires
        before.shares_frames(worker),
        before.offered(taken, frame, after, queued),
    ensures
        after.shares_frames(worker),
{
}

/// Whatever happens, the worker keeps its end of the ring and its settings.
pub proof fn steps_keep_sharing(
    processor: AudioProcessor,
    before: TxWorker,
    event: TxEvent,
    status: AudioProcessorStatus,
    after: TxWorker,
    status_after: AudioProcessorStatus,
    action: TxAction,
)
    requires
        processor.shares_frames(before),
        before.steps(event, status, after, status_after, action),
    ensures
        processor.shares_frames(after),
        before.keeps_settings(after),
{
}

/// The worker takes the very frames that were queued, in their order, and no others: what it has
/// taken is what was queued first. That it is not ahead of the processor,
/// `TxWorker::waiting_frames` shows.
pub proof fn taken_frames_were_queued(processor: AudioProcessor, worker: TxWorker)
    requires
        processor.wf(),
        worker.wf(),
        processor.shares_frames(worker),
        worker.not_ahead_of(processor),
    ensures
        frames_received(worker.data_consumer).is_prefix_of(
            frames_sent(processor.render.data_producer),
        ),
{
    let all = frames_to_pass(processor.render.data_producer);
    let queued = frames_sent(processor.render.data_producer);
    let taken = frames_received(worker.data_consumer);
    assert(taken =~= all.take(taken.len() as int));
    assert(queued =~= all.take(queued.len() as int));
    assert(taken =~= queued.take(taken.len() as int));
}

/// A packet that the worker wants written carries, unchanged, the frame that it took last, and
/// nothing that it found waiting is left behind it.
pub proof fn packets_carry_the_newest_frame(
    before: TxWorker,
    event: TxEvent,
    status: AudioProcessorStatus,
    after: TxWorker,
    status_after: AudioProcessorStatus,
    action: TxAction,
)
    requires
        before.wf(),
        before.steps(event, status, after, status_after, action),
        after.phase is Writing,
    ensures
        frames_received(after.data_consumer).len() > frames_received(before.data_consumer).len(),
        frames_waiting(before.data_consumer).is_prefix_of(
            taken_since(before.data_consumer, after.data_consumer),
        ),
        after.in_flight is Some,
        after.in_flight->0@ == frames_received(after.data_consumer).last(),
        after.send_buffer@ == packet(
            frames_received(after.data_consumer).last(),
            after.stream_id as u64,
            after.num_channels,
            after.sample_rate,
        ),
        sendable(frames_received(after.data_consumer).last().2.len(), after.num_channels),
        action == TxAction::WritePacket,
{
    let burst = taken_since(before.data_consumer, after.data_consumer);
    assert(burst.last() == frames_received(after.data_consumer).last());
}

/// Whether the worker drains the ring of frames when it is told `event`: once it is connected, and
/// then in every round that neither ends nor begins an announcement.
pub open spec fn draining(worker: TxWorker, event: TxEvent) -> bool {
    match (worker.phase, event) {
        (TxPhase::Announcing, TxEvent::Announced { .. }) => true,
        (TxPhase::Refreshing { .. }, TxEvent::Announced { .. }) => true,
        (
            TxPhase::Polling,
            TxEvent::Observed { shutdown, metadata_version, since_metadata },
        ) => !shutdown && metadata_version == worker.sent_metadata_version && since_metadata
            < METADATA_HEARTBEAT_NANOS,
        _ => false,
    }
}

/// What was queued is what is sent. With the processor at rest, a step that drains the ring takes
/// exactly the frames that were queued and not yet taken. If there are any, the packet of the one
/// that was queued last stands ready to be written, and the others are dropped and counted. So no
/// backlog is ever played late, not even after a connection was away.
///
/// That the worker finds the backlog, and that it is not ahead of the processor afterwards,
/// `TxWorker::waiting_frames` shows before and after the step.
pub proof fn draining_sends_what_was_queued_last(
    processor: AudioProcessor,
    before: TxWorker,
    event: TxEvent,
    status: AudioProcessorStatus,
    after: TxWorker,
    status_after: AudioProcessorStatus,
    action: TxAction,
)
    requires
        processor.wf(),
        before.wf(),
        after.wf(),
        processor.shares_frames(before),
        before.num_channels == processor.limits.num_channels,
        before.finds_backlog(processor),
        draining(before, event),
        before.steps(event, status, after, status_after, action),
        after.not_ahead_of(processor),
    ensures
        taken_since(before.data_consumer, after.data_consumer) == before.backlog(processor),
        frames_received(after.data_consumer) == frames_sent(processor.render.data_producer),
        before.backlog(processor).len() > 0 ==> {
            let newest = frames_sent(processor.render.data_producer).last();
            &&& action == TxAction::WritePacket
            &&& after.in_flight is Some
            &&& after.in_flight->0@ == newest
            &&& after.send_buffer@ == packet(
                newest,
                after.stream_id as u64,
                processor.limits.num_channels,
                after.sample_rate,
            )
            &&& status_after.frames_dropped == counted(
                status.frames_dropped,
                (before.backlog(processor).len() - 1) as nat,
            )
        },
        before.backlog(processor).len() == 0 ==> action == TxAction::Observe && after.in_flight
            is None && status_after.frames_dropped == status.frames_dropped,
{
    let queued = frames_sent(processor.render.data_producer);
    let burst = taken_since(before.data_consumer, after.data_consumer);
    steps_keep_sharing(processor, before, event, status, after, status_after, action);
    taken_frames_were_queued(processor, after);
    taken_frames_were_queued(processor, before);
    assert(frames_received(after.data_consumer) == frames_received(before.data_consumer) + burst);
    assert(frames_waiting(before.data_consumer).len() >= before.backlog(processor).len());
    assert(burst.len() >= before.backlog(processor).len());
    assert(frames_received(after.data_consumer).len() == queued.len());
    assert(frames_received(after.data_consumer) =~= queued);
    assert(burst =~= before.backlog(processor));
    if burst.len() > 0 {
        assert(burst.last() == queued.last());
        assert(sendable(queued[queued.len() - 1].2.len(), processor.limits.num_channels));
    }
}

/// Where nothing is queued that was not taken, no packet is wanted, whatever the worker is told.
pub proof fn nothing_queued_means_nothing_sent(
    processor: AudioProcessor,
    before: TxWorker,
    event: TxEvent,
    status: AudioProcessorStatus,
    after: TxWorker,
    status_after: AudioProcessorStatus,
    action: TxAction,
)
    requires
        before.wf(),
        frames_received(before.data_consumer).len() == frames_sent(
            processor.render.data_producer,
        ).len(),
        before.steps(event, status, after, status_after, action),
        after.not_ahead_of(processor),
    ensures
        action != TxAction::WritePacket,
        after.in_flight is None || after.in_flight == before.in_flight,
        frames_received(after.data_consumer) == frames_received(before.data_consumer),
        status_after.frames_dropped == status.frames_dropped,
{
    let burst = taken_since(before.data_consumer, after.data_consumer);
    if draining(before, event) {
        assert(frames_received(after.data_consumer) == frames_received(before.data_consumer)
            + burst);
        assert(burst.len() == 0);
        assert(frames_received(after.data_consumer) =~= frames_received(before.data_consumer));
    }
}

/// The frames in their ring, the buffers in theirs, the one held back and the one being written
/// never come to more than `RING_SIZE`. So the backlog never grows beyond it. The last two claims
/// rest on their premises: that the processor has not taken more buffers than the worker put in,
/// which `AudioProcessor::waiting_buffers` shows, and that the worker has not taken more frames than
/// the processor put in, which `TxWorker::waiting_frames` shows.
pub proof fn buffers_never_multiply(processor: AudioProcessor, worker: TxWorker)
    requires
        processor.wf(),
        worker.wf(),
    ensures
        ({
            let frames_under_way = frames_sent(processor.render.data_producer).len()
                - frames_received(worker.data_consumer).len();
            let buffers_under_way = buffers_sent(worker.free_producer).len() - buffers_received(
                processor.render.free_consumer,
            ).len();
            &&& frames_under_way + buffers_under_way + processor.render.held() + worker.held()
                <= RING_SIZE
            &&& processor.covered_by(worker) ==> frames_under_way <= RING_SIZE
            &&& worker.not_ahead_of(processor) && worker.held() == 1 ==> buffers_under_way
                < RING_SIZE
        }),
{
}

/// Whether the ring of spent buffers has room for every buffer that is queued or that the worker
/// holds, when the worker next hands one back.
pub open spec fn has_room(processor: AudioProcessor, worker: TxWorker) -> bool {
    buffer_room(worker.free_producer) + frames_received(worker.data_consumer).len()
        >= frames_sent(processor.render.data_producer).len() + worker.held()
}

/// The worker always has room for the buffers that it holds and for those that it is about to take,
/// given the room that `TxWorker::room_for_buffers` counts while the processor is at rest.
pub proof fn held_buffers_have_room(processor: AudioProcessor, worker: TxWorker, room: nat)
    requires
        processor.wf(),
        worker.wf(),
        room + buffers_sent(worker.free_producer).len() == RING_SIZE + buffers_received(
            processor.render.free_consumer,
        ).len(),
        buffer_room(worker.free_producer) >= room,
    ensures
        has_room(processor, worker),
{
}

/// No buffer is lost. With room for all at the start and the processor at rest, a step hands back
/// the buffer of every frame that it drops or has had written, and there is still room for the rest.
pub proof fn every_spent_buffer_returns(
    processor: AudioProcessor,
    before: TxWorker,
    event: TxEvent,
    status: AudioProcessorStatus,
    after: TxWorker,
    status_after: AudioProcessorStatus,
    action: TxAction,
)
    requires
        before.wf(),
        after.wf(),
        has_room(processor, before),
        before.steps(event, status, after, status_after, action),
        after.not_ahead_of(processor),
    ensures
        has_room(processor, after),
        before.phase is Writing ==> buffers_sent(after.free_producer) == buffers_sent(
            before.free_producer,
        ).push(before.in_flight->0@.2),
        draining(before, event) ==> ({
            let burst = taken_since(before.data_consumer, after.data_consumer);
            let spent = if after.phase is Writing {
                burst.drop_last()
            } else {
                burst
            };
            buffers_sent(after.free_producer) == buffers_sent(before.free_producer) + audio_of(
                spent,
            )
        }),
        !(before.phase is Writing) && !draining(before, event) ==> after.free_producer
            == before.free_producer,
{
    let burst = taken_since(before.data_consumer, after.data_consumer);
    if before.phase is Writing {
        assert(buffers_sent(before.free_producer) + seq![before.in_flight->0@.2] =~= buffers_sent(
            before.free_producer,
        ).push(before.in_flight->0@.2));
    } else if draining(before, event) {
        assert(frames_received(after.data_consumer) == frames_received(before.data_consumer)
            + burst);
        assert(audio_of(burst).len() == burst.len());
        if burst.len() == 0 {
            assert(audio_of(burst) =~= Seq::<Seq<u8>>::empty());
            assert(buffers_sent(before.free_producer) + audio_of(burst) =~= buffers_sent(
                before.free_producer,
            ));
        } else {
            assert(audio_of(burst.drop_last()).len() == burst.len() - 1);
        }
    }
}

/// A processor and its worker hold the two ends of one ring of spent buffers for as long as they
/// live.
pub proof fn offers_keep_sharing_buffers(
    before: AudioProcessor,
    worker: TxWorker,
    taken: bool,
    frame: (i64, u32, Seq<u8>),
    after: AudioProcessor,
    queued: bool,
)
    requires
        before.shares_buffers(worker),
        before.offered(taken, frame, after, queued),
    ensures
        after.shares_buffers(worker),
{
}

/// Whatever happens, the worker keeps its end of the ring of spent buffers. A step without a
/// connection leaves both rings alone.
pub proof fn steps_keep_sharing_buffers(
    processor: AudioProcessor,
    before: TxWorker,
    event: TxEvent,
    status: AudioProcessorStatus,
    after: TxWorker,
    status_after: AudioProcessorStatus,
    action: TxAction,
)
    requires
        processor.shares_buffers(before),
        before.steps(event, status, after, status_after, action),
    ensures
        processor.shares_buffers(after),
        before.phase is LoopTop || before.phase is Connecting || before.phase is Backoff
            ==> before.keeps_rings(after),
{
}

/// Whether `states` is a run of offers of `frames`, all of which the limits admit; `queued` says
/// which were queued.
pub open spec fn is_offer_run(
    states: Seq<AudioProcessor>,
    frames: Seq<(i64, u32, Seq<u8>)>,
    queued: Seq<bool>,
) -> bool {
    &&& states.len() == frames.len() + 1
    &&& queued.len() == frames.len()
    &&& forall|i: int|
        0 <= i < frames.len() ==> #[trigger] states[i].offered(
            true,
            frames[i],
            states[i + 1],
            queued[i],
        )
}

/// What holds of a processor that was made with `worker` after the first `at` offers of a run.
proof fn lemma_offer_run(
    states: Seq<AudioProcessor>,
    frames: Seq<(i64, u32, Seq<u8>)>,
    queued: Seq<bool>,
    worker: TxWorker,
    at: int,
)
    requires
        is_offer_run(states, frames, queued),
        prewarmed(states[0], RING_SIZE as nat),
        states[0].render.balanced(0),
        states[0].shares_buffers(worker),
        frames_sent(states[0].render.data_producer).len() == 0,
        states[0].status@ == (AudioProcessorStatus {
            started: true,
            ..AudioProcessorStatus::idle()
        }),
        frames.len() <= u64::MAX,
        0 <= at <= frames.len(),
    ensures
        ({
            let state = states[at];
            let sent = frames_sent(state.render.data_producer).len();
            &&& state.render.balanced(0)
            &&& state.shares_buffers(worker)
            &&& sent <= at
            &&& at <= RING_SIZE ==> sent == at && prewarmed(state, (RING_SIZE - at) as nat)
            &&& at >= RING_SIZE ==> sent >= RING_SIZE
            &&& state.status@ == (AudioProcessorStatus {
                started: true,
                frames_queued: sent as u64,
                frames_dropped: (at - sent) as u64,
                ..AudioProcessorStatus::idle()
            })
        }),
    decreases at,
{
    if at > 0 {
        lemma_offer_run(states, frames, queued, worker, at - 1);
        let before = states[at - 1];
        assert(before.offered(true, frames[at - 1], states[at - 1 + 1], queued[at - 1]));
        if at <= RING_SIZE {
            prewarmed_processor_queues(
                before,
                (RING_SIZE - at + 1) as nat,
                true,
                frames[at - 1],
                states[at],
                queued[at - 1],
            );
        }
    }
}

/// Pool pressure: of any number of admitted quanta that are offered to a new processor whose worker
/// hands nothing back, exactly the first `RING_SIZE` are queued and counted as queued, and the rest
/// are dropped and counted as dropped. That the processor took no more buffers than the worker put
/// in, `AudioProcessor::waiting_buffers` shows.
pub proof fn pool_pressure_drops_the_rest(
    socket_path: String,
    num_channels: u8,
    sample_rate: u32,
    max_frames: usize,
    frame_id: Option<u16>,
    states: Seq<AudioProcessor>,
    worker: TxWorker,
    frames: Seq<(i64, u32, Seq<u8>)>,
    queued: Seq<bool>,
)
    requires
        AudioProcessor::made(
            socket_path,
            num_channels,
            sample_rate,
            max_frames,
            frame_id,
            states[0],
            worker,
        ),
        states[0].wf(),
        is_offer_run(states, frames, queued),
        frames.len() <= u64::MAX,
        states.last().covered_by(worker),
    ensures
        ({
            let kept = if frames.len() < RING_SIZE {
                frames.len()
            } else {
                RING_SIZE as nat
            };
            &&& frames_sent(states.last().render.data_producer).len() == kept
            &&& states.last().status@ == (AudioProcessorStatus {
                started: true,
                frames_queued: kept as u64,
                frames_dropped: (frames.len() - kept) as u64,
                ..AudioProcessorStatus::idle()
            })
        }),
{
    lemma_offer_run(states, frames, queued, worker, frames.len() as int);
}

/// How many frames a step loses to a write that failed. Such a frame is neither sent nor counted as
/// dropped.
pub open spec fn lost_to_failure(phase: TxPhase, event: TxEvent) -> nat {
    if phase is Writing && event matches TxEvent::Written { ok: false, .. } {
        1
    } else {
        0
    }
}

/// Every frame that the worker takes is accounted for: it was sent, dropped, is being written, or
/// its write failed. `sent` and `dropped` are what the step adds to the two counters.
pub proof fn taken_frames_are_accounted_for(
    before: TxWorker,
    event: TxEvent,
    status: AudioProcessorStatus,
    after: TxWorker,
    status_after: AudioProcessorStatus,
    action: TxAction,
) -> (counts: (nat, nat))
    requires
        before.wf(),
        after.wf(),
        before.steps(event, status, after, status_after, action),
    ensures
        status_after.frames_sent == counted(status.frames_sent, counts.0),
        status_after.frames_dropped == counted(status.frames_dropped, counts.1),
        frames_received(after.data_consumer).len() + before.held() == frames_received(
            before.data_consumer,
        ).len() + counts.0 + counts.1 + after.held() + lost_to_failure(before.phase, event),
        counts.0 <= 1,
        status_after.frames_queued == status.frames_queued,
{
    let burst = taken_since(before.data_consumer, after.data_consumer);
    assert(audio_of(burst).len() == burst.len());
    if before.phase is Writing {
        if event matches TxEvent::Written { ok: true, .. } {
            (1, 0)
        } else {
            (0, 0)
        }
    } else if draining(before, event) {
        (0, (burst.len() - after.held()) as nat)
    } else {
        (0, 0)
    }
}

/// Whether the worker serves a connection.
pub open spec fn serving(phase: TxPhase) -> bool {
    phase is Polling || phase is Refreshing || phase is Writing || phase is Settling
}

/// A processor shows that it is connected only while its worker serves a connection. A request to
/// shut down only takes the flag away.
pub proof fn connected_only_while_serving(
    before: TxWorker,
    event: TxEvent,
    status: AudioProcessorStatus,
    after: TxWorker,
    status_after: AudioProcessorStatus,
    action: TxAction,
)
    requires
        status.connected ==> serving(before.phase),
        before.steps(event, status, after, status_after, action),
    ensures
        status_after.connected ==> serving(after.phase),
        serving(after.phase) && !serving(before.phase) ==> status_after.connected,
{
}

/// Whether the counters of attempts and failures fit the phase: an attempt that has failed is over.
pub open spec fn failures_fit(phase: TxPhase, status: AudioProcessorStatus) -> bool {
    if phase is LoopTop || phase is Backoff || phase is Stopped {
        status.connection_failures <= status.connection_attempts
    } else {
        status.connection_failures < status.connection_attempts
    }
}

/// There are never more failures than attempts, as long as the counter of attempts has not wrapped
/// around.
pub proof fn failures_never_exceed_attempts(
    before: TxWorker,
    event: TxEvent,
    status: AudioProcessorStatus,
    after: TxWorker,
    status_after: AudioProcessorStatus,
    action: TxAction,
)
    requires
        failures_fit(before.phase, status),
        status.connection_attempts < u64::MAX,
        before.steps(event, status, after, status_after, action),
    ensures
        failures_fit(after.phase, status_after),
        status_after.connection_failures <= status_after.connection_attempts,
{
}

/// The worker stops only when it is told to, and then it shows neither started nor connected.
pub proof fn worker_stops_only_on_shutdown(
    before: TxWorker,
    event: TxEvent,
    status: AudioProcessorStatus,
    after: TxWorker,
    status_after: AudioProcessorStatus,
    action: TxAction,
)
    requires
        before.steps(event, status, after, status_after, action),
        action == TxAction::Stop,
    ensures
        event matches TxEvent::Observed { shutdown: true, .. },
        !status_after.started,
        !status_after.connected,
        after.phase is Stopped,
        forall|later: TxEvent| !after.expects(later),
{
}

/// How many steps at most are left once every look at the world says to shut down.
pub open spec fn steps_to_stop(phase: TxPhase) -> nat {
    match phase {
        TxPhase::Stopped => 0,
        TxPhase::LoopTop => 1,
        TxPhase::Backoff => 2,
        TxPhase::Settling { .. } => 3,
        TxPhase::Polling => 3,
        TxPhase::Writing { .. } => 4,
        TxPhase::Refreshing { .. } => 5,
        TxPhase::Announcing => 5,
        TxPhase::AwaitingId => 6,
        TxPhase::Greeting => 7,
        TxPhase::Connecting => 8,
    }
}

/// Once told to shut down, the worker comes closer to its end with every step, whatever the socket
/// does, and never rests on the way. So it stops after eight steps at the latest.
pub proof fn shutdown_is_reached(
    before: TxWorker,
    event: TxEvent,
    status: AudioProcessorStatus,
    after: TxWorker,
    status_after: AudioProcessorStatus,
    action: TxAction,
)
    requires
        before.steps(event, status, after, status_after, action),
        event matches TxEvent::Observed { shutdown, .. } ==> shutdown,
    ensures
        steps_to_stop(after.phase) < steps_to_stop(before.phase) <= 8,
        !(action is Park),
{
}

/// An idle worker rests until the metadata is due again at the latest, and between two attempts to
/// connect no longer than the pause.
pub proof fn rests_are_bounded(
    before: TxWorker,
    event: TxEvent,
    status: AudioProcessorStatus,
    after: TxWorker,
    status_after: AudioProcessorStatus,
    action: TxAction,
    nanos: u64,
)
    requires
        before.steps(event, status, after, status_after, action),
        action == (TxAction::Park { nanos }),
    ensures
        0 < nanos <= METADATA_HEARTBEAT_NANOS,
        serving(before.phase) ==> (event matches TxEvent::Observed { since_metadata, .. } && (nanos
            == SHORTEST_REST_NANOS || since_metadata + nanos == METADATA_HEARTBEAT_NANOS)),
        !serving(before.phase) ==> nanos == RECONNECT_INTERVAL_NANOS,
{
}

/// An announcement that failed is made again at the next look, as long as the metadata that was to
/// be announced is still not the one that was announced last.
pub proof fn failed_announcements_are_repeated(
    before: TxWorker,
    version: u64,
    now: u64,
    status: AudioProcessorStatus,
    after: TxWorker,
    status_after: AudioProcessorStatus,
    action: TxAction,
    polling: TxWorker,
    since_metadata: u64,
    status_then: AudioProcessorStatus,
    later: TxWorker,
    status_later: AudioProcessorStatus,
    action_later: TxAction,
)
    requires
        before.phase == (TxPhase::Refreshing { version }),
        version != before.sent_metadata_version,
        before.steps(
            TxEvent::Announced { outcome: MetadataOutcome::Failed, now },
            status,
            after,
            status_after,
            action,
        ),
        polling.phase == TxPhase::Polling,
        polling.sent_metadata_version == after.sent_metadata_version,
        polling.steps(
            TxEvent::Observed { shutdown: false, metadata_version: version, since_metadata },
            status_then,
            later,
            status_later,
            action_later,
        ),
    ensures
        action_later == (TxAction::SendMetadata { stream_id: polling.stream_id }),
        later.phase == (TxPhase::Refreshing { version }),
{
}

/// An announcement that went out is not repeated before the metadata changes or is due again.
pub proof fn announcements_settle(
    before: TxWorker,
    version: u64,
    now: u64,
    status: AudioProcessorStatus,
    after: TxWorker,
    status_after: AudioProcessorStatus,
    action: TxAction,
    polling: TxWorker,
    since_metadata: u64,
    status_then: AudioProcessorStatus,
    later: TxWorker,
    status_later: AudioProcessorStatus,
    action_later: TxAction,
)
    requires
        before.phase == (TxPhase::Refreshing { version }),
        before.steps(
            TxEvent::Announced { outcome: MetadataOutcome::Sent, now },
            status,
            after,
            status_after,
            action,
        ),
        polling.phase == TxPhase::Polling,
        polling.sent_metadata_version == after.sent_metadata_version,
        since_metadata < METADATA_HEARTBEAT_NANOS,
        polling.steps(
            TxEvent::Observed { shutdown: false, metadata_version: version, since_metadata },
            status_then,
            later,
            status_later,
            action_later,
        ),
    ensures
        !(action_later is SendMetadata),
{
}

/// Naming a track twice by the same names is news only once: the second time nothing changes that a
/// worker would see.
pub proof fn naming_is_idempotent(
    before: AudioProcessorHandle,
    names: (Option<Seq<char>>, Option<Seq<char>>),
    once: AudioProcessorHandle,
    changed_once: bool,
    twice: AudioProcessorHandle,
    changed_twice: bool,
)
    requires
        before.named(names, once, changed_once),
        once.named(names, twice, changed_twice),
    ensures
        !changed_twice,
        twice.desired_metadata@ == once.desired_metadata@,
        once.current is Some ==> twice.current->0.metadata.version
            == once.current->0.metadata.version,
{
}

/// The names of a track outlive its processors: a processor that is put in place after the last one
/// was taken out starts with the names given before.
pub proof fn names_survive_reinitialization(
    before: AudioProcessorHandle,
    names: (Option<Seq<char>>, Option<Seq<char>>),
    named: AudioProcessorHandle,
    changed: bool,
    inactive: AudioProcessorHandle,
    socket_path: String,
    channels: u8,
    sample_rate: u32,
    max_frames: usize,
    frame_id: Option<u16>,
    after: AudioProcessorHandle,
    worker: TxWorker,
)
    requires
        before.named(names, named, changed),
        inactive.desired_metadata == named.desired_metadata,
        inactive.initialized(
            socket_path,
            channels,
            sample_rate,
            max_frames,
            frame_id,
            after,
            worker,
        ),
    ensures
        after.current is Some,
        after.current->0.metadata.metadata@ == names,
        after.desired_metadata@ == names,
{
}

/// A processor that was taken out no longer shows connected and has been told to stop; the handle
/// shows only the one put in its place, which is started and has counted nothing.
pub proof fn replacement_starts_afresh(
    before: AudioProcessorHandle,
    socket_path: String,
    channels: u8,
    sample_rate: u32,
    max_frames: usize,
    frame_id: Option<u16>,
    after: AudioProcessorHandle,
    worker: TxWorker,
    retired: RetiredProcessor,
)
    requires
        before.initialized(
            socket_path,
            channels,
            sample_rate,
            max_frames,
            frame_id,
            after,
            worker,
        ),
        retired.was(before),
    ensures
        after.shown_status() == (AudioProcessorStatus {
            started: true,
            ..AudioProcessorStatus::idle()
        }),
        after.current->0.limits.num_channels == channels,
        retired.processor matches Some(old_processor) ==> old_processor.shutdown
            && !old_processor.status@.connected,
        after.gate@.slot() != before.gate@.slot(),
{
    crate::gate::next_epoch_has_the_other_slot(before.gate.epoch);
}

} // verus!
